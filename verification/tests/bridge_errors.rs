use worker_bridge::bridge::{BridgeState, WorkerBridge};
use worker_bridge::consumer::react;
use worker_bridge::events::{Action, Event, SubmitError};

#[test]
fn submit_before_start_is_not_ready() {
    let mut b = WorkerBridge::new();
    assert_eq!(b.submit(Action::StartStageA), Err(SubmitError::NotReady));
    assert_eq!(b.state, BridgeState::Uninitialized);
}

#[test]
fn submit_before_handshake_is_not_ready() {
    let mut b = WorkerBridge::new();
    b.start();
    assert_eq!(b.submit(Action::StartStageB), Err(SubmitError::NotReady));
    // Recoverable: the same submission succeeds once `Ready` is out.
    assert_eq!(b.emit_ready(), Event::Ready);
    assert_eq!(b.submit(Action::StartStageB), Ok(()));
}

#[test]
fn submit_after_termination_is_closed() {
    let mut b = WorkerBridge::new();
    b.start();
    b.emit_ready();
    assert_eq!(b.submit(Action::Cleanup), Ok(()));
    assert_eq!(b.begin_pending(), Some(Event::CleanupStarted));
    assert_eq!(b.finish_cleanup(true), None);
    assert_eq!(b.submit(Action::StartStageA), Err(SubmitError::Closed));
    assert_eq!(b.submit(Action::Cleanup), Err(SubmitError::Closed));
}

#[test]
fn closing_the_stream_terminates_the_bridge() {
    let mut b = WorkerBridge::new();
    b.start();
    b.emit_ready();
    assert_eq!(b.submit(Action::StartStageA), Ok(()));
    assert_eq!(b.begin_pending(), Some(Event::StageAStarted));
    // The consumer walks away mid-stage; the next emission attempt fails
    // and the loop reports it here, then stops.
    b.stream_closed();
    assert_eq!(b.state, BridgeState::Terminated);
    assert_eq!(b.begin_pending(), None);
    assert_eq!(b.submit(Action::StartStageB), Err(SubmitError::Closed));
}

#[test]
fn queue_rejects_only_while_occupied() {
    let mut b = WorkerBridge::new();
    b.start();
    b.emit_ready();
    assert_eq!(b.submit(Action::StartStageA), Ok(()));
    b.begin_pending();
    assert_eq!(b.submit(Action::StartStageB), Ok(()));
    assert_eq!(b.submit(Action::StartStageB), Err(SubmitError::ChannelFull));
    b.complete_stage();
    b.begin_pending();
    b.complete_stage();
    // The queue drained: a new submission is accepted again.
    assert_eq!(b.submit(Action::Cleanup), Ok(()));
}

#[test]
fn begin_pending_is_a_noop_without_a_queued_action() {
    let mut b = WorkerBridge::new();
    b.start();
    b.emit_ready();
    assert_eq!(b.begin_pending(), None);
    assert_eq!(b.state, BridgeState::Idle);
}

#[test]
fn begin_pending_waits_while_a_stage_runs() {
    let mut b = WorkerBridge::new();
    b.start();
    b.emit_ready();
    assert_eq!(b.submit(Action::StartStageB), Ok(()));
    assert_eq!(b.begin_pending(), Some(Event::StageBStarted));
    assert_eq!(b.submit(Action::Cleanup), Ok(()));
    // Mid-stage the queued action is not taken up yet.
    assert_eq!(b.begin_pending(), None);
    assert_eq!(b.complete_stage(), Event::StageBDone);
    assert_eq!(b.begin_pending(), Some(Event::CleanupStarted));
}

#[test]
fn react_answers_only_stage_b_done() {
    assert_eq!(react(Event::Ready), None);
    assert_eq!(react(Event::StageAStarted), None);
    assert_eq!(react(Event::StageADone), None);
    assert_eq!(react(Event::StageBStarted), None);
    assert_eq!(react(Event::StageBDone), Some(Action::Cleanup));
    assert_eq!(react(Event::CleanupStarted), None);
    assert_eq!(react(Event::CleanupFailed), None);
}
