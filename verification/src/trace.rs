use vstd::prelude::*;

use crate::events::{done_event, started_event, Event, Stage};

verus! {

/// The abstract position of a bridge within its lifecycle, as far as the
/// events it has emitted show it.
pub enum Phase {
    /// Nothing emitted yet; the `Ready` handshake is still owed.
    Handshake,
    /// The handshake is out and no stage is in flight.
    Idle,
    /// A stage was started and its completion event is still owed.
    Running(Stage),
    /// Cleanup was started; either the stream ends here (success) or a
    /// `CleanupFailed` event follows.
    CleaningUp,
    /// `CleanupFailed` was emitted; nothing may follow.
    Failed,
}

/// Which event may be emitted in which phase, and where it leads.
///
/// `None` means the event must not be emitted in that phase.
pub open spec fn phase_after(ph: Phase, e: Event) -> Option<Phase> {
    match (ph, e) {
        (Phase::Handshake, Event::Ready) => Some(Phase::Idle),
        (Phase::Idle, Event::StageAStarted) => Some(Phase::Running(Stage::A)),
        (Phase::Idle, Event::StageBStarted) => Some(Phase::Running(Stage::B)),
        (Phase::Running(Stage::A), Event::StageADone) => Some(Phase::Idle),
        (Phase::Running(Stage::B), Event::StageBDone) => Some(Phase::Idle),
        (Phase::Idle, Event::CleanupStarted) => Some(Phase::CleaningUp),
        (Phase::CleaningUp, Event::CleanupFailed) => Some(Phase::Failed),
        _ => None,
    }
}

/// The phase a trace of emitted events ends in, or `None` if some event of
/// the trace was emitted in a phase that does not allow it.
pub open spec fn trace_phase(t: Seq<Event>) -> Option<Phase>
    decreases t.len(),
{
    if t.len() == 0 {
        Some(Phase::Handshake)
    } else {
        match trace_phase(t.drop_last()) {
            Some(ph) => phase_after(ph, t.last()),
            None => None,
        }
    }
}

/// A trace the bridge may emit: every event was allowed in the phase the
/// events before it had established.
pub open spec fn valid_trace(t: Seq<Event>) -> bool {
    trace_phase(t) is Some
}

/// Appending an event that the current phase allows extends the trace's
/// phase accordingly.
pub proof fn lemma_trace_extend(t: Seq<Event>, ph: Phase, e: Event)
    requires
        trace_phase(t) == Some(ph),
        phase_after(ph, e) is Some,
    ensures
        trace_phase(t.push(e)) == phase_after(ph, e),
{
    assert(t.push(e).drop_last() =~= t);
    assert(t.push(e).last() == e);
}

/// Every prefix of a valid trace is itself a valid trace.
pub proof fn lemma_prefix_valid(t: Seq<Event>, i: int)
    requires
        valid_trace(t),
        0 <= i <= t.len(),
    ensures
        valid_trace(t.take(i)),
    decreases t.len(),
{
    if i == t.len() {
        assert(t.take(i) =~= t);
    } else {
        assert(valid_trace(t.drop_last()));
        assert(t.take(i) =~= t.drop_last().take(i));
        lemma_prefix_valid(t.drop_last(), i);
    }
}

/// Each event of a valid trace steps the phase of the prefix before it to
/// the phase of the prefix including it.
pub proof fn lemma_trace_step(t: Seq<Event>, i: int)
    requires
        valid_trace(t),
        0 <= i < t.len(),
    ensures
        valid_trace(t.take(i)),
        valid_trace(t.take(i + 1)),
        trace_phase(t.take(i + 1)) == phase_after(trace_phase(t.take(i)).unwrap(), t[i]),
{
    lemma_prefix_valid(t, i);
    lemma_prefix_valid(t, i + 1);
    let p = t.take(i + 1);
    assert(p.drop_last() =~= t.take(i));
    assert(p.last() == t[i]);
}

/// In a valid trace no phase after the first event is the handshake phase:
/// no transition leads back to it.
proof fn lemma_handshake_only_at_start(t: Seq<Event>, i: int)
    requires
        valid_trace(t),
        0 < i <= t.len(),
    ensures
        trace_phase(t.take(i)) != Some(Phase::Handshake),
{
    lemma_trace_step(t, i - 1);
}

/// Exactly one `Ready` event appears in a valid trace with any events at
/// all, and it is the first.
pub proof fn lemma_ready_unique_and_first(t: Seq<Event>)
    requires
        valid_trace(t),
    ensures
        forall|i: int| 0 <= i < t.len() ==> (t[i] == Event::Ready <==> i == 0),
{
    assert forall|i: int| 0 <= i < t.len() implies (t[i] == Event::Ready <==> i == 0) by {
        lemma_trace_step(t, i);
        if i == 0 {
            assert(t.take(0) =~= Seq::<Event>::empty());
            assert(trace_phase(t.take(0)) == Some(Phase::Handshake));
        } else {
            lemma_handshake_only_at_start(t, i);
        }
    }
}

/// A stage's completion event is emitted only directly after that stage's
/// start event; in particular every `*Done` has a prior `*Started` for the
/// same stage.
pub proof fn lemma_done_has_prior_start(t: Seq<Event>, i: int, s: Stage)
    requires
        valid_trace(t),
        0 <= i < t.len(),
        t[i] == done_event(s),
    ensures
        0 < i,
        t[i - 1] == started_event(s),
{
    lemma_trace_step(t, i);
    assert(trace_phase(t.take(i)) == Some(Phase::Running(s)));
    assert(t.take(0) =~= Seq::<Event>::empty());
    lemma_trace_step(t, i - 1);
}

/// Two start events for the same stage always have that stage's completion
/// event strictly between them.
pub proof fn lemma_no_restart_before_done(t: Seq<Event>, i: int, j: int, s: Stage)
    requires
        valid_trace(t),
        0 <= i < j < t.len(),
        t[i] == started_event(s),
        t[j] == started_event(s),
    ensures
        exists|k: int| i < k < j && t[k] == done_event(s),
{
    lemma_trace_step(t, i);
    lemma_trace_step(t, j);
    assert(trace_phase(t.take(i + 1)) == Some(Phase::Running(s)));
    assert(trace_phase(t.take(j)) == Some(Phase::Idle));
    lemma_trace_step(t, i + 1);
    assert(t[i + 1] == done_event(s));
    assert(i < i + 1 < j && t[i + 1] == done_event(s));
}

/// A cleanup failure is terminal: nothing follows `CleanupFailed` in a
/// valid trace.
pub proof fn lemma_failure_is_terminal(t: Seq<Event>, i: int)
    requires
        valid_trace(t),
        0 <= i < t.len(),
        t[i] == Event::CleanupFailed,
    ensures
        i == t.len() - 1,
{
    lemma_trace_step(t, i);
    assert(trace_phase(t.take(i + 1)) == Some(Phase::Failed));
    if i + 1 < t.len() {
        lemma_trace_step(t, i + 1);
    }
}

} // verus!
