use autossh::supervisor::{
    enabled_connections, sleep_step, wait_step, AttemptOutcome, AttemptStep, ChildPoll,
    ConnectionConfig, ReconnectBackoff, ReloadWatch, RetryPolicy, SleepStep, WaitStep,
    POLL_INTERVAL_NANOS,
};

fn policy(initial: u64, stable: u64, maximum: u64) -> RetryPolicy {
    RetryPolicy { initial_seconds: initial, stable_seconds: stable, maximum_seconds: maximum }
}

fn retry_delay(step: AttemptStep) -> (u64, bool) {
    match step {
        AttemptStep::Retry { delay_seconds, delay_reset } => (delay_seconds, delay_reset),
        AttemptStep::Shutdown => panic!("unexpected shutdown"),
    }
}

#[test]
fn delay_doubles_up_to_maximum() {
    let mut backoff = ReconnectBackoff::new(policy(5, 60, 60));
    let mut seen = Vec::new();
    for _ in 0..6 {
        let (delay, reset) = retry_delay(backoff.attempt_finished(AttemptOutcome::Exited, 1));
        assert!(!reset);
        seen.push(delay);
        assert!(backoff.sleep_finished(false));
    }
    assert_eq!(seen, vec![5, 10, 20, 40, 60, 60]);
}

#[test]
fn stable_connection_resets_delay() {
    let mut backoff = ReconnectBackoff::new(policy(2, 30, 100));
    for _ in 0..3 {
        retry_delay(backoff.attempt_finished(AttemptOutcome::SpawnFailed, 0));
        backoff.sleep_finished(false);
    }
    assert_eq!(backoff.delay(), 16);
    assert_eq!(retry_delay(backoff.attempt_finished(AttemptOutcome::Exited, 29)), (16, false));
    backoff.sleep_finished(false);
    assert_eq!(retry_delay(backoff.attempt_finished(AttemptOutcome::Exited, 30)), (2, true));
    assert_eq!(backoff.delay(), 2);
    assert_eq!(retry_delay(backoff.attempt_finished(AttemptOutcome::WaitFailed, 500)), (2, true));
}

#[test]
fn stop_during_attempt_shuts_down() {
    let mut backoff = ReconnectBackoff::new(policy(3, 10, 9));
    assert!(matches!(
        backoff.attempt_finished(AttemptOutcome::Stopped, 1000),
        AttemptStep::Shutdown
    ));
    assert_eq!(backoff.delay(), 3);
}

#[test]
fn interrupted_sleep_stops_reconnecting() {
    let mut backoff = ReconnectBackoff::new(policy(4, 10, 100));
    assert!(!backoff.sleep_finished(true));
    assert_eq!(backoff.delay(), 4);
    assert!(backoff.sleep_finished(false));
    assert_eq!(backoff.delay(), 8);
}

#[test]
fn initial_above_maximum_is_used_once() {
    let mut backoff = ReconnectBackoff::new(policy(100, 10, 30));
    assert_eq!(retry_delay(backoff.attempt_finished(AttemptOutcome::Exited, 0)), (100, false));
    backoff.sleep_finished(false);
    assert_eq!(backoff.delay(), 30);
}

#[test]
fn doubling_saturates() {
    let mut backoff = ReconnectBackoff::new(policy(u64::MAX - 1, 10, u64::MAX));
    backoff.sleep_finished(false);
    assert_eq!(backoff.delay(), u64::MAX);
    backoff.sleep_finished(false);
    assert_eq!(backoff.delay(), u64::MAX);
    let zero = ReconnectBackoff::new(policy(0, 0, 10));
    assert_eq!(zero.delay(), 0);
    assert_eq!(zero.retry().maximum_seconds, 10);
}

#[test]
fn outcomes_needing_termination() {
    assert!(!AttemptOutcome::SpawnFailed.needs_termination());
    assert!(!AttemptOutcome::Exited.needs_termination());
    assert!(AttemptOutcome::WaitFailed.needs_termination());
    assert!(AttemptOutcome::Stopped.needs_termination());
}

#[test]
fn waiting_for_ssh() {
    assert!(matches!(wait_step(ChildPoll::Exited, false), WaitStep::Exited));
    assert!(matches!(wait_step(ChildPoll::Exited, true), WaitStep::Exited));
    assert!(matches!(wait_step(ChildPoll::Failed, true), WaitStep::Failed));
    assert!(matches!(wait_step(ChildPoll::Running, true), WaitStep::Stopped));
    assert!(matches!(wait_step(ChildPoll::Running, false), WaitStep::PollAgain));
}

#[test]
fn interruptible_sleep_steps() {
    assert_eq!(POLL_INTERVAL_NANOS, 250_000_000);
    assert!(matches!(sleep_step(0, true), SleepStep::Elapsed));
    assert!(matches!(sleep_step(0, false), SleepStep::Elapsed));
    assert!(matches!(sleep_step(1, true), SleepStep::Stopped));
    assert!(matches!(sleep_step(1, false), SleepStep::Sleep(1)));
    assert!(matches!(sleep_step(2_000_000_000, false), SleepStep::Sleep(250_000_000)));
    assert!(matches!(sleep_step(250_000_000, false), SleepStep::Sleep(250_000_000)));
}

fn connection(name: &str, enabled: bool) -> ConnectionConfig {
    ConnectionConfig { name: name.to_string(), enabled, retry: policy(1, 2, 3) }
}

#[test]
fn only_enabled_connections_get_workers() {
    let all = vec![
        connection("a", true),
        connection("b", false),
        connection("c", true),
        connection("d", false),
    ];
    let names: Vec<String> = enabled_connections(all).into_iter().map(|c| c.name).collect();
    assert_eq!(names, vec!["a".to_string(), "c".to_string()]);
    assert!(enabled_connections(Vec::new()).is_empty());
}

#[test]
fn reload_only_on_change() {
    let mut watch = ReloadWatch::new(Some(b"a = 1".to_vec()));
    assert!(!watch.observe(Some(b"a = 1".to_vec())));
    assert!(watch.observe(Some(b"a = 2".to_vec())));
    assert!(!watch.observe(Some(b"a = 2".to_vec())));
    assert!(watch.observe(None));
    assert!(!watch.observe(None));
    assert!(watch.observe(Some(Vec::new())));
    assert!(watch.observe(Some(b"a".to_vec())));
}

#[test]
fn repeated_reload_error_reported_once() {
    let mut watch = ReloadWatch::new(None);
    assert!(watch.reload_failed("bad port".to_string()));
    assert!(!watch.reload_failed("bad port".to_string()));
    assert!(watch.reload_failed("bad host".to_string()));
    assert!(!watch.reload_failed("bad host".to_string()));
    watch.reload_succeeded();
    assert!(watch.reload_failed("bad host".to_string()));
}
