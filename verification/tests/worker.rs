use autossh::supervisor::{ChildPoll, RetryPolicy};
use autossh::worker::{ConnectionWorker, WorkerAction, WorkerEvent, WorkerPhase};

fn worker(initial: u64, stable: u64, maximum: u64) -> ConnectionWorker {
    ConnectionWorker::new(RetryPolicy {
        initial_seconds: initial,
        stable_seconds: stable,
        maximum_seconds: maximum,
    })
}

fn resume(stop_requested: bool) -> WorkerEvent {
    WorkerEvent::Resume { stop_requested }
}

fn polled(poll: ChildPoll, stop_requested: bool) -> WorkerEvent {
    WorkerEvent::Polled { poll, stop_requested }
}

#[test]
fn stop_at_the_top_finishes_at_once() {
    let mut w = worker(1, 10, 8);
    assert!(matches!(w.step(resume(true)), WorkerAction::Finish));
    assert!(matches!(w.phase(), WorkerPhase::Stopped));
}

#[test]
fn exited_ssh_is_retried_with_doubling_delay() {
    let mut w = worker(1, 10, 3);
    let mut delays = Vec::new();
    for _ in 0..4 {
        assert!(matches!(w.step(resume(false)), WorkerAction::Spawn));
        assert!(matches!(w.step(WorkerEvent::Spawned { started: true }), WorkerAction::Poll));
        assert!(matches!(w.step(polled(ChildPoll::Running, false)), WorkerAction::PollAfterInterval));
        assert!(matches!(w.step(polled(ChildPoll::Exited, false)), WorkerAction::Collect));
        match w.step(WorkerEvent::AttemptEnded { elapsed_seconds: 2 }) {
            WorkerAction::Sleep { delay_seconds, delay_reset } => {
                assert!(!delay_reset);
                delays.push(delay_seconds);
            }
            _ => panic!("expected a sleep"),
        }
        assert!(matches!(w.step(WorkerEvent::Slept { interrupted: false }), WorkerAction::CheckStop));
    }
    assert_eq!(delays, vec![1, 2, 3, 3]);
}

#[test]
fn stable_attempt_resets_delay() {
    let mut w = worker(2, 10, 100);
    w.step(resume(false));
    w.step(WorkerEvent::Spawned { started: false });
    w.step(WorkerEvent::AttemptEnded { elapsed_seconds: 0 });
    w.step(WorkerEvent::Slept { interrupted: false });
    w.step(resume(false));
    w.step(WorkerEvent::Spawned { started: true });
    w.step(polled(ChildPoll::Exited, false));
    match w.step(WorkerEvent::AttemptEnded { elapsed_seconds: 10 }) {
        WorkerAction::Sleep { delay_seconds, delay_reset } => {
            assert_eq!(delay_seconds, 2);
            assert!(delay_reset);
        }
        _ => panic!("expected a sleep"),
    }
}

#[test]
fn stop_while_running_terminates_and_finishes() {
    let mut w = worker(1, 10, 8);
    w.step(resume(false));
    w.step(WorkerEvent::Spawned { started: true });
    assert!(matches!(w.step(polled(ChildPoll::Running, true)), WorkerAction::Terminate));
    assert!(matches!(w.step(WorkerEvent::Terminated), WorkerAction::Collect));
    assert!(matches!(
        w.step(WorkerEvent::AttemptEnded { elapsed_seconds: 1000 }),
        WorkerAction::Finish
    ));
    assert!(matches!(w.phase(), WorkerPhase::Stopped));
}

#[test]
fn failed_poll_terminates_then_retries() {
    let mut w = worker(4, 10, 8);
    w.step(resume(false));
    w.step(WorkerEvent::Spawned { started: true });
    assert!(matches!(w.step(polled(ChildPoll::Failed, false)), WorkerAction::Terminate));
    assert!(matches!(w.step(WorkerEvent::Terminated), WorkerAction::Collect));
    assert!(matches!(
        w.step(WorkerEvent::AttemptEnded { elapsed_seconds: 0 }),
        WorkerAction::Sleep { delay_seconds: 4, delay_reset: false }
    ));
    assert!(matches!(w.step(WorkerEvent::Slept { interrupted: true }), WorkerAction::Finish));
    assert!(matches!(w.phase(), WorkerPhase::Stopped));
}
