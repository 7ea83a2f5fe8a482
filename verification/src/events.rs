use vstd::prelude::*;

verus! {

/// One discrete, independently started and completed unit of background
/// work.
#[derive(Clone, Copy, Debug, PartialEq, Eq, Structural)]
pub enum Stage {
    A,
    B,
}

/// A request the consumer submits to the bridge over its handle.
///
/// An action has no identity beyond its tag and is immutable once sent.
#[derive(Clone, Copy, Debug, PartialEq, Eq, Structural)]
pub enum Action {
    StartStageA,
    StartStageB,
    Cleanup,
}

/// A lifecycle event the bridge emits on its event stream.
///
/// Events reach the consumer in exactly the order they were emitted. The
/// handshake is two-phase: `Ready` announces that the bridge accepts
/// submissions, while the send capability itself is handed over by the
/// surrounding runtime rather than carried inside the event.
#[derive(Clone, Copy, Debug, PartialEq, Eq, Structural)]
pub enum Event {
    Ready,
    StageAStarted,
    StageADone,
    StageBStarted,
    StageBDone,
    CleanupStarted,
    CleanupFailed,
}

/// Why a submission was refused at the call site.
///
/// Failures of the work itself are never returned here; they surface
/// asynchronously on the event stream (as `Event::CleanupFailed`).
#[derive(Clone, Copy, Debug, PartialEq, Eq, Structural)]
pub enum SubmitError {
    /// Submitted before the `Ready` handshake was delivered.
    NotReady,
    /// Submitted after the bridge terminated.
    Closed,
    /// The depth-one action queue already holds an unprocessed action.
    ChannelFull,
}

/// The event announcing that a stage began running.
pub open spec fn started_event(s: Stage) -> Event {
    match s {
        Stage::A => Event::StageAStarted,
        Stage::B => Event::StageBStarted,
    }
}

/// The event announcing that a stage's work completed.
pub open spec fn done_event(s: Stage) -> Event {
    match s {
        Stage::A => Event::StageADone,
        Stage::B => Event::StageBDone,
    }
}

} // verus!
