use vstd::prelude::*;

use crate::events::{done_event, Action, Event, Stage, SubmitError};
use crate::trace::{lemma_trace_extend, trace_phase, valid_trace, Phase};

verus! {

/// Where a bridge stands in its lifecycle.
#[derive(Clone, Copy, Debug, PartialEq, Eq, Structural)]
pub enum BridgeState {
    /// Created, not yet started.
    Uninitialized,
    /// Started; the `Ready` handshake has not been delivered yet.
    AwaitingHandshake,
    /// Handshake delivered; no work in flight, ready for an action.
    Idle,
    /// A stage's work is in flight; its completion event is owed.
    StageRunning(Stage),
    /// Cleanup work is in flight; the bridge terminates when it ends.
    CleaningUp,
    /// Absorbing: no submission is accepted and no event is emitted.
    Terminated,
}

/// The control core of a background-worker bridge.
///
/// The bridge decides which submissions are accepted, which lifecycle event
/// each accepted action produces, and when the bridge terminates. It is a
/// plain value: the surrounding runtime owns the two capacity-one channels,
/// forwards each received action into [`WorkerBridge::submit`], performs the
/// work between the events that [`WorkerBridge::begin_pending`] and
/// [`WorkerBridge::complete_stage`] hand out, and reports a closed event
/// stream through [`WorkerBridge::stream_closed`].
///
/// `emitted` is the ghost trace of every event handed out so far; the
/// well-formedness invariant ties it to the machine state, and the lemmas in
/// [`crate::trace`] turn it into the ordering guarantees of the stream.
pub struct WorkerBridge {
    /// Current lifecycle state.
    pub state: BridgeState,
    /// The depth-one intake queue: at most one accepted, unprocessed action.
    pub pending: Option<Action>,
    /// Every event emitted so far, in emission order.
    pub emitted: Ghost<Seq<Event>>,
}

/// The `*Started` event announcing that an action's work began.
pub open spec fn action_started_event(a: Action) -> Event {
    match a {
        Action::StartStageA => Event::StageAStarted,
        Action::StartStageB => Event::StageBStarted,
        Action::Cleanup => Event::CleanupStarted,
    }
}

/// The state the bridge runs an action's work in.
pub open spec fn action_running_state(a: Action) -> BridgeState {
    match a {
        Action::StartStageA => BridgeState::StageRunning(Stage::A),
        Action::StartStageB => BridgeState::StageRunning(Stage::B),
        Action::Cleanup => BridgeState::CleaningUp,
    }
}

impl WorkerBridge {
    /// The bridge accepts submissions: the handshake is out and the bridge
    /// has not terminated.
    pub open spec fn accepting(self) -> bool {
        match self.state {
            BridgeState::Idle => true,
            BridgeState::StageRunning(_) => true,
            BridgeState::CleaningUp => true,
            _ => false,
        }
    }

    /// Well-formedness: the emitted trace is valid and ends in the phase
    /// the machine state claims, nothing is emitted before the handshake,
    /// and nothing is queued before the handshake either.
    pub open spec fn wf(self) -> bool {
        &&& valid_trace(self.emitted@)
        &&& (match self.state {
            BridgeState::Uninitialized => self.emitted@.len() == 0,
            BridgeState::AwaitingHandshake => self.emitted@.len() == 0,
            BridgeState::Idle => trace_phase(self.emitted@) == Some(Phase::Idle),
            BridgeState::StageRunning(s) => trace_phase(self.emitted@) == Some(Phase::Running(s)),
            BridgeState::CleaningUp => trace_phase(self.emitted@) == Some(Phase::CleaningUp),
            BridgeState::Terminated => true,
        })
        &&& (!self.accepting() && self.state != BridgeState::Terminated ==> self.pending is None)
    }

    /// A fresh bridge: not started, nothing queued, nothing emitted.
    pub fn new() -> (b: WorkerBridge)
        ensures
            b.wf(),
            b.state == BridgeState::Uninitialized,
            b.pending is None,
            b.emitted@ == Seq::<Event>::empty(),
    {
        WorkerBridge { state: BridgeState::Uninitialized, pending: None, emitted: Ghost(Seq::empty()) }
    }

    /// Start the bridge: the runtime constructs the channels and spawns the
    /// worker around this call; the machine now owes the handshake.
    pub fn start(&mut self)
        requires
            old(self).wf(),
            old(self).state == BridgeState::Uninitialized,
        ensures
            final(self).wf(),
            final(self).state == BridgeState::AwaitingHandshake,
            final(self).pending == old(self).pending,
            final(self).emitted@ == old(self).emitted@,
    {
        self.state = BridgeState::AwaitingHandshake;
    }

    /// Deliver the handshake: the one `Ready` event, always first on the
    /// stream; afterwards the bridge accepts submissions.
    pub fn emit_ready(&mut self) -> (e: Event)
        requires
            old(self).wf(),
            old(self).state == BridgeState::AwaitingHandshake,
        ensures
            final(self).wf(),
            e == Event::Ready,
            final(self).state == BridgeState::Idle,
            final(self).pending == old(self).pending,
            final(self).emitted@ == old(self).emitted@.push(Event::Ready),
    {
        proof {
            lemma_trace_extend(self.emitted@, Phase::Handshake, Event::Ready);
        }
        self.state = BridgeState::Idle;
        self.emitted = Ghost(self.emitted@.push(Event::Ready));
        Event::Ready
    }

    /// Accept an action into the depth-one queue, or say exactly why not:
    /// `NotReady` before the handshake, `Closed` after termination, and
    /// `ChannelFull` while the queue already holds an unprocessed action.
    pub fn submit(&mut self, a: Action) -> (r: Result<(), SubmitError>)
        requires
            old(self).wf(),
        ensures
            final(self).wf(),
            final(self).state == old(self).state,
            final(self).emitted@ == old(self).emitted@,
            (old(self).state == BridgeState::Uninitialized || old(self).state
                == BridgeState::AwaitingHandshake) ==> (r == Err::<(), SubmitError>(
                SubmitError::NotReady,
            ) && final(self).pending == old(self).pending),
            old(self).state == BridgeState::Terminated ==> (r == Err::<(), SubmitError>(
                SubmitError::Closed,
            ) && final(self).pending == old(self).pending),
            old(self).accepting() && old(self).pending is Some ==> (r == Err::<(), SubmitError>(
                SubmitError::ChannelFull,
            ) && final(self).pending == old(self).pending),
            old(self).accepting() && old(self).pending is None ==> (r == Ok::<(), SubmitError>(())
                && final(self).pending == Some(a)),
    {
        match self.state {
            BridgeState::Uninitialized => Err(SubmitError::NotReady),
            BridgeState::AwaitingHandshake => Err(SubmitError::NotReady),
            BridgeState::Terminated => Err(SubmitError::Closed),
            _ => {
                if self.pending.is_some() {
                    Err(SubmitError::ChannelFull)
                } else {
                    self.pending = Some(a);
                    Ok(())
                }
            },
        }
    }

    /// Take up the queued action if the bridge is idle: emit its `*Started`
    /// event and move into the matching running state. Anywhere else —
    /// nothing queued, work already in flight, not yet ready, terminated —
    /// the bridge is left untouched and no event is produced.
    pub fn begin_pending(&mut self) -> (e: Option<Event>)
        requires
            old(self).wf(),
        ensures
            final(self).wf(),
            old(self).state == BridgeState::Idle && old(self).pending is Some ==> ({
                &&& final(self).state == action_running_state(old(self).pending.unwrap())
                &&& final(self).pending is None
                &&& e == Some(action_started_event(old(self).pending.unwrap()))
                &&& final(self).emitted@ == old(self).emitted@.push(
                    action_started_event(old(self).pending.unwrap()),
                )
            }),
            !(old(self).state == BridgeState::Idle && old(self).pending is Some) ==> (*final(self)
                == *old(self) && e is None),
    {
        match (self.state, self.pending) {
            (BridgeState::Idle, Some(a)) => {
                proof {
                    lemma_trace_extend(self.emitted@, Phase::Idle, action_started_event(a));
                }
                self.pending = None;
                let ev = match a {
                    Action::StartStageA => {
                        self.state = BridgeState::StageRunning(Stage::A);
                        Event::StageAStarted
                    },
                    Action::StartStageB => {
                        self.state = BridgeState::StageRunning(Stage::B);
                        Event::StageBStarted
                    },
                    Action::Cleanup => {
                        self.state = BridgeState::CleaningUp;
                        Event::CleanupStarted
                    },
                };
                self.emitted = Ghost(self.emitted@.push(ev));
                Some(ev)
            },
            _ => None,
        }
    }

    /// The running stage's work completed: emit its `*Done` event and
    /// return to idle, where the next queued action can be taken up.
    pub fn complete_stage(&mut self) -> (e: Event)
        requires
            old(self).wf(),
            old(self).state matches BridgeState::StageRunning(_),
        ensures
            final(self).wf(),
            final(self).state == BridgeState::Idle,
            final(self).pending == old(self).pending,
            old(self).state matches BridgeState::StageRunning(s) ==> (e == done_event(s)
                && final(self).emitted@ == old(self).emitted@.push(done_event(s))),
    {
        match self.state {
            BridgeState::StageRunning(s) => {
                proof {
                    lemma_trace_extend(self.emitted@, Phase::Running(s), done_event(s));
                }
                let ev = match s {
                    Stage::A => Event::StageADone,
                    Stage::B => Event::StageBDone,
                };
                self.state = BridgeState::Idle;
                self.emitted = Ghost(self.emitted@.push(ev));
                ev
            },
            _ => vstd::pervasive::unreached(),
        }
    }

    /// Cleanup ended and the bridge terminates. Success closes the stream
    /// with no further event; failure emits the terminal `CleanupFailed`
    /// event first, so no failure passes unobserved.
    pub fn finish_cleanup(&mut self, ok: bool) -> (e: Option<Event>)
        requires
            old(self).wf(),
            old(self).state == BridgeState::CleaningUp,
        ensures
            final(self).wf(),
            final(self).state == BridgeState::Terminated,
            final(self).pending == old(self).pending,
            ok ==> (e is None && final(self).emitted@ == old(self).emitted@),
            !ok ==> (e == Some(Event::CleanupFailed)
                && final(self).emitted@ == old(self).emitted@.push(Event::CleanupFailed)),
    {
        self.state = BridgeState::Terminated;
        if ok {
            None
        } else {
            proof {
                lemma_trace_extend(self.emitted@, Phase::CleaningUp, Event::CleanupFailed);
            }
            self.emitted = Ghost(self.emitted@.push(Event::CleanupFailed));
            Some(Event::CleanupFailed)
        }
    }

    /// The consumer abandoned the event stream: the runtime observes the
    /// failed send and reports it here, the bridge terminates at once and
    /// emits nothing further.
    pub fn stream_closed(&mut self)
        requires
            old(self).wf(),
        ensures
            final(self).wf(),
            final(self).state == BridgeState::Terminated,
            final(self).pending == old(self).pending,
            final(self).emitted@ == old(self).emitted@,
    {
        self.state = BridgeState::Terminated;
    }
}

/// The emitted trace of every well-formed bridge is a valid trace, so each
/// ordering law proved of valid traces in [`crate::trace`] — the unique
/// leading `Ready`, the started/done pairing per stage, failure as the last
/// event — holds of everything a bridge ever hands to its event stream.
pub proof fn lemma_bridge_trace_valid(b: WorkerBridge)
    requires
        b.wf(),
    ensures
        valid_trace(b.emitted@),
{
}

} // verus!
