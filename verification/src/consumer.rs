use vstd::prelude::*;

use crate::events::{Action, Event};

verus! {

/// The reference consumer's reaction to an observed event.
///
/// Shutdown is consumer-driven, never the bridge's own decision: the one
/// event that provokes a submission is `StageBDone`, which the consumer
/// answers with `Cleanup`. Every other event is display-only and provokes
/// nothing.
pub fn react(e: Event) -> (a: Option<Action>)
    ensures
        a == (if e == Event::StageBDone {
            Some(Action::Cleanup)
        } else {
            None::<Action>
        }),
{
    match e {
        Event::StageBDone => Some(Action::Cleanup),
        _ => None,
    }
}

} // verus!
