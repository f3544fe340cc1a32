//! Decisions of the connection supervisor: which connections get a worker,
//! the reconnect back-off, waiting for an ssh process, interruptible sleeps,
//! and reacting to configuration changes.
use vstd::arithmetic::power2::{lemma_pow2_unfold, pow2};
use vstd::prelude::*;

verus! {

/// How a connection is retried after its ssh process ends, in seconds.
#[derive(Clone, Copy, Debug)]
pub struct RetryPolicy {
    /// Delay before the first reconnect, and after a stable connection.
    pub initial_seconds: u64,
    /// A connection that ran at least this long counts as stable.
    pub stable_seconds: u64,
    /// The delay never grows beyond this by doubling.
    pub maximum_seconds: u64,
}

/// `d` doubled, saturating at `u64::MAX`.
pub open spec fn saturating_double(d: u64) -> u64 {
    if 2 * d > u64::MAX {
        u64::MAX
    } else {
        (2 * d) as u64
    }
}

/// The delay after an unstable attempt whose delay was `d`: doubled
/// (saturating) and capped at `maximum`.
pub open spec fn next_delay(d: u64, maximum: u64) -> u64 {
    if saturating_double(d) < maximum {
        saturating_double(d)
    } else {
        maximum
    }
}

/// The delay before the reconnect that follows `n` consecutive unstable
/// attempts of a fresh back-off (or of one just reset by a stable attempt).
pub open spec fn delay_after_failures(retry: RetryPolicy, n: nat) -> u64
    decreases n,
{
    if n == 0 {
        retry.initial_seconds
    } else {
        next_delay(delay_after_failures(retry, (n - 1) as nat), retry.maximum_seconds)
    }
}

/// The smaller of two integers.
pub open spec fn min_int(a: int, b: int) -> int {
    if a < b {
        a
    } else {
        b
    }
}

/// Doubling saturates but the cap hides it: one back-off step from `d` is
/// `min(2 * d, maximum)`, computed without overflow.
pub proof fn lemma_next_delay_is_capped_double(d: u64, maximum: u64)
    ensures
        next_delay(d, maximum) == min_int(2 * d, maximum as int),
        next_delay(d, maximum) <= maximum,
{
}

/// Back-off law: after `n >= 1` consecutive unstable attempts the delay is
/// the initial delay doubled `n` times, capped at the maximum:
/// `min(initial * 2^n, maximum)`. In particular it never exceeds the maximum
/// once it has doubled, and it doubles exactly while below the cap.
pub proof fn lemma_delay_after_failures(retry: RetryPolicy, n: nat)
    requires
        n >= 1,
    ensures
        delay_after_failures(retry, n) == min_int(
            retry.initial_seconds * pow2(n),
            retry.maximum_seconds as int,
        ),
        delay_after_failures(retry, n) <= retry.maximum_seconds,
    decreases n,
{
    let i = retry.initial_seconds;
    let m = retry.maximum_seconds;
    lemma_pow2_unfold(n);
    if n == 1 {
        assert(pow2(0) == 1) by {
            vstd::arithmetic::power2::lemma2_to64();
        }
        assert(i * pow2(1) == 2 * i) by (nonlinear_arith)
            requires
                pow2(1) == 2,
        ;
        lemma_next_delay_is_capped_double(i, m);
    } else {
        lemma_delay_after_failures(retry, (n - 1) as nat);
        let p = pow2((n - 1) as nat);
        assert(i * pow2(n) == 2 * (i * p)) by (nonlinear_arith)
            requires
                pow2(n) == 2 * p,
        ;
        let d = delay_after_failures(retry, (n - 1) as nat);
        lemma_next_delay_is_capped_double(d, m);
        assert(delay_after_failures(retry, n) == next_delay(d, m));
    }
}

/// Back-off law: when the initial delay is at most the maximum, the delay
/// never decreases from one unstable attempt to the next and stays between
/// the initial delay and the maximum.
pub proof fn lemma_delay_monotone(retry: RetryPolicy, n: nat)
    requires
        retry.initial_seconds <= retry.maximum_seconds,
    ensures
        retry.initial_seconds <= delay_after_failures(retry, n) <= delay_after_failures(
            retry,
            n + 1,
        ) <= retry.maximum_seconds,
    decreases n,
{
    if n > 0 {
        lemma_delay_monotone(retry, (n - 1) as nat);
    }
}

/// How one ssh attempt ended.
#[derive(Clone, Copy, Debug)]
pub enum AttemptOutcome {
    /// The ssh process could not be started.
    SpawnFailed,
    /// The ssh process exited by itself.
    Exited,
    /// Waiting for the ssh process failed; it is terminated.
    WaitFailed,
    /// A stop was requested while ssh ran; it is terminated.
    Stopped,
}

impl AttemptOutcome {
    /// Whether the ssh process is still running and has to be terminated.
    pub open spec fn spec_needs_termination(self) -> bool {
        self is WaitFailed || self is Stopped
    }

    /// Whether the ssh process is still running and has to be terminated:
    /// after a failed wait and after a stop request.
    pub fn needs_termination(&self) -> (kill: bool)
        ensures
            kill == self.spec_needs_termination(),
    {
        match self {
            AttemptOutcome::WaitFailed | AttemptOutcome::Stopped => true,
            _ => false,
        }
    }
}

/// What the supervisor does once an attempt has ended.
#[derive(Clone, Copy, Debug)]
pub enum AttemptStep {
    /// Leave the supervision loop: a stop was requested.
    Shutdown,
    /// Sleep `delay_seconds`, then reconnect; `delay_reset` tells whether the
    /// attempt was stable and brought the delay back to its initial value.
    Retry { delay_seconds: u64, delay_reset: bool },
}

/// Whether `delay` is one the back-off can wait: the initial delay, or at
/// most the maximum.
pub open spec fn retry_delay_allowed(retry: RetryPolicy, delay: u64) -> bool {
    delay == retry.initial_seconds || delay <= retry.maximum_seconds
}

/// The reconnect back-off of one connection.
pub struct ReconnectBackoff {
    retry: RetryPolicy,
    delay: u64,
}

impl ReconnectBackoff {
    /// The delay is always one the policy allows.
    #[verifier::type_invariant]
    spec fn delay_within_policy(self) -> bool {
        retry_delay_allowed(self.retry, self.delay)
    }

    pub closed spec fn spec_retry(&self) -> RetryPolicy {
        self.retry
    }

    /// The delay, in seconds, before the next reconnect.
    pub closed spec fn spec_delay(&self) -> u64 {
        self.delay
    }

    /// A fresh back-off: the first delay is the initial one.
    pub fn new(retry: RetryPolicy) -> (backoff: Self)
        ensures
            backoff.spec_retry() == retry,
            backoff.spec_delay() == retry.initial_seconds,
    {
        ReconnectBackoff { retry, delay: retry.initial_seconds }
    }

    /// The delay, in seconds, before the next reconnect. Back-off law: it is
    /// always the initial delay or at most the maximum, whatever happened
    /// before.
    pub fn delay(&self) -> (delay: u64)
        ensures
            delay == self.spec_delay(),
            retry_delay_allowed(self.spec_retry(), delay),
    {
        proof {
            use_type_invariant(self);
        }
        self.delay
    }

    /// The retry policy this back-off follows.
    pub fn retry(&self) -> (retry: RetryPolicy)
        ensures
            retry == self.spec_retry(),
    {
        self.retry
    }

    /// An attempt ended with `outcome` after running `elapsed_seconds` (whole
    /// seconds, rounded down). A stop ends supervision. Otherwise, an attempt
    /// that lasted at least the stable time resets the delay to the initial
    /// one, and the supervisor sleeps for the current delay.
    pub fn attempt_finished(&mut self, outcome: AttemptOutcome, elapsed_seconds: u64) -> (step:
        AttemptStep)
        ensures
            final(self).spec_retry() == old(self).spec_retry(),
            outcome is Stopped ==> step is Shutdown && final(self).spec_delay() == old(
                self,
            ).spec_delay(),
            !(outcome is Stopped) ==> {
                let reset = elapsed_seconds >= old(self).spec_retry().stable_seconds;
                let delay = if reset {
                    old(self).spec_retry().initial_seconds
                } else {
                    old(self).spec_delay()
                };
                &&& final(self).spec_delay() == delay
                &&& step == (AttemptStep::Retry { delay_seconds: delay, delay_reset: reset })
            },
            step matches AttemptStep::Retry { delay_seconds, .. } ==> retry_delay_allowed(
                old(self).spec_retry(),
                delay_seconds,
            ),
    {
        proof {
            use_type_invariant(&*self);
        }
        match outcome {
            AttemptOutcome::Stopped => AttemptStep::Shutdown,
            _ => {
                let reset = elapsed_seconds >= self.retry.stable_seconds;
                if reset {
                    self.delay = self.retry.initial_seconds;
                }
                AttemptStep::Retry { delay_seconds: self.delay, delay_reset: reset }
            },
        }
    }

    /// The sleep before a reconnect ended. An interrupted sleep (a stop was
    /// requested) ends supervision and returns `false`; otherwise the delay
    /// doubles, capped at the maximum, and the supervisor reconnects.
    pub fn sleep_finished(&mut self, interrupted: bool) -> (reconnect: bool)
        ensures
            reconnect == !interrupted,
            final(self).spec_retry() == old(self).spec_retry(),
            final(self).spec_delay() == if interrupted {
                old(self).spec_delay()
            } else {
                next_delay(old(self).spec_delay(), old(self).spec_retry().maximum_seconds)
            },
    {
        if interrupted {
            return false;
        }
        let doubled = match self.delay.checked_mul(2) {
            Some(d) => d,
            None => u64::MAX,
        };
        self.delay = if doubled < self.retry.maximum_seconds {
            doubled
        } else {
            self.retry.maximum_seconds
        };
        true
    }
}

/// What one non-blocking poll of the ssh process found.
#[derive(Clone, Copy, Debug)]
pub enum ChildPoll {
    /// The process has exited.
    Exited,
    /// The process is still running.
    Running,
    /// Polling the process failed.
    Failed,
}

/// What waiting for the ssh process does after one poll.
#[derive(Clone, Copy, Debug)]
pub enum WaitStep {
    /// Report the exit status.
    Exited,
    /// Stop waiting: a stop was requested while the process runs.
    Stopped,
    /// Report that the process cannot be polled.
    Failed,
    /// Sleep one poll interval and poll again.
    PollAgain,
}

/// The decision after one poll of the ssh process: an exit is reported even
/// when a stop was requested at the same time, a failed poll is an error,
/// and a running process is left alone unless a stop was requested.
pub open spec fn spec_wait_step(poll: ChildPoll, stop_requested: bool) -> WaitStep {
    match poll {
        ChildPoll::Exited => WaitStep::Exited,
        ChildPoll::Failed => WaitStep::Failed,
        ChildPoll::Running => if stop_requested {
            WaitStep::Stopped
        } else {
            WaitStep::PollAgain
        },
    }
}

/// Decides what waiting for the ssh process does after one poll.
pub fn wait_step(poll: ChildPoll, stop_requested: bool) -> (step: WaitStep)
    ensures
        step == spec_wait_step(poll, stop_requested),
{
    match poll {
        ChildPoll::Exited => WaitStep::Exited,
        ChildPoll::Failed => WaitStep::Failed,
        ChildPoll::Running => if stop_requested {
            WaitStep::Stopped
        } else {
            WaitStep::PollAgain
        },
    }
}

/// How often a running ssh process and the stop flag are polled, in
/// nanoseconds (250 ms).
pub const POLL_INTERVAL_NANOS: u128 = 250_000_000;

/// What an interruptible sleep does next.
#[derive(Clone, Copy, Debug)]
pub enum SleepStep {
    /// The deadline has passed: the sleep ran to its end.
    Elapsed,
    /// A stop was requested: the sleep ends early.
    Stopped,
    /// Sleep this many nanoseconds, then check again.
    Sleep(u128),
}

/// The next step of a sleep that ends at a deadline `remaining_nanos` from
/// now: done once the deadline is reached; otherwise interrupted by a stop
/// request; otherwise sleep until the deadline, but at most one poll
/// interval.
pub open spec fn spec_sleep_step(remaining_nanos: u128, stop_requested: bool) -> SleepStep {
    if remaining_nanos == 0 {
        SleepStep::Elapsed
    } else if stop_requested {
        SleepStep::Stopped
    } else if remaining_nanos < POLL_INTERVAL_NANOS {
        SleepStep::Sleep(remaining_nanos)
    } else {
        SleepStep::Sleep(POLL_INTERVAL_NANOS)
    }
}

/// Sleep law: an interruptible sleep never sleeps past its deadline nor
/// longer than one poll interval at a time, so a stop request is noticed
/// within one interval.
pub proof fn lemma_sleep_slice_bounded(remaining_nanos: u128, stop_requested: bool)
    ensures
        spec_sleep_step(remaining_nanos, stop_requested) matches SleepStep::Sleep(t) ==> 0 < t
            <= remaining_nanos && t <= POLL_INTERVAL_NANOS,
        stop_requested && remaining_nanos > 0 ==> spec_sleep_step(remaining_nanos, stop_requested)
            is Stopped,
{
}

/// Stop law, one step at a time: once a stop is requested, waiting for ssh
/// never polls again (a running process is given up and then terminated),
/// and an interruptible sleep never sleeps again.
pub proof fn lemma_stop_request_ends_waiting(poll: ChildPoll, remaining_nanos: u128)
    ensures
        !(spec_wait_step(poll, true) is PollAgain),
        poll is Running ==> spec_wait_step(poll, true) is Stopped
            && AttemptOutcome::Stopped.spec_needs_termination(),
        spec_sleep_step(remaining_nanos, true) is Elapsed || spec_sleep_step(
            remaining_nanos,
            true,
        ) is Stopped,
{
}

/// Sleep law: a sleep ends by itself only at its deadline, a stop request
/// ends it early, and otherwise it sleeps until the deadline or one poll
/// interval, whichever comes first.
pub proof fn lemma_sleep_waits_until_deadline(remaining_nanos: u128, stop_requested: bool)
    ensures
        spec_sleep_step(remaining_nanos, stop_requested) is Elapsed <==> remaining_nanos == 0,
        spec_sleep_step(remaining_nanos, stop_requested) is Stopped <==> remaining_nanos > 0
            && stop_requested,
        remaining_nanos > 0 && !stop_requested ==> (spec_sleep_step(
            remaining_nanos,
            stop_requested,
        ) matches SleepStep::Sleep(t) && 0 < t <= remaining_nanos && t <= POLL_INTERVAL_NANOS && (t
            == remaining_nanos || t == POLL_INTERVAL_NANOS)),
{
}

/// Decides the next step of an interruptible sleep.
pub fn sleep_step(remaining_nanos: u128, stop_requested: bool) -> (step: SleepStep)
    ensures
        step == spec_sleep_step(remaining_nanos, stop_requested),
{
    if remaining_nanos == 0 {
        SleepStep::Elapsed
    } else if stop_requested {
        SleepStep::Stopped
    } else if remaining_nanos < POLL_INTERVAL_NANOS {
        SleepStep::Sleep(remaining_nanos)
    } else {
        SleepStep::Sleep(POLL_INTERVAL_NANOS)
    }
}

/// One configured connection, with the fields that supervision reads.
#[derive(Clone, Debug)]
pub struct ConnectionConfig {
    pub name: String,
    pub enabled: bool,
    pub retry: RetryPolicy,
}

/// Whether a connection gets a worker.
pub open spec fn is_enabled(connection: ConnectionConfig) -> bool {
    connection.enabled
}

/// The connections that get a worker: the enabled ones, in their order.
pub fn enabled_connections(connections: Vec<ConnectionConfig>) -> (enabled: Vec<ConnectionConfig>)
    ensures
        enabled@ == connections@.filter(|c: ConnectionConfig| is_enabled(c)),
{
    let mut enabled: Vec<ConnectionConfig> = Vec::new();
    let mut rest = connections;
    let ghost all = rest@;
    let mut i: usize = 0;
    let n: usize = rest.len();
    proof {
        assert(all.take(0).filter(|c: ConnectionConfig| is_enabled(c)) =~= Seq::empty());
    }
    while i < n
        invariant
            n == all.len(),
            i <= n,
            rest@ =~= all.skip(i as int),
            enabled@ == all.take(i as int).filter(|c: ConnectionConfig| is_enabled(c)),
        decreases n - i,
    {
        let connection = rest.remove(0);
        proof {
            reveal(Seq::filter);
            assert(all.take(i + 1).drop_last() =~= all.take(i as int));
            assert(all.take(i + 1).last() == connection);
        }
        if connection.enabled {
            enabled.push(connection);
        }
        i = i + 1;
    }
    assert(all.take(n as int) =~= all);
    enabled
}

/// The contents of a configuration snapshot: `None` when the file could not
/// be read.
pub open spec fn snapshot_view(snapshot: Option<Vec<u8>>) -> Option<Seq<u8>> {
    match snapshot {
        Some(bytes) => Some(bytes@),
        None => None,
    }
}

/// The text of the last reported reload error, if any.
pub open spec fn error_view(error: Option<String>) -> Option<Seq<char>> {
    match error {
        Some(message) => Some(message@),
        None => None,
    }
}

fn same_bytes(a: &Vec<u8>, b: &Vec<u8>) -> (same: bool)
    ensures
        same == (a@ == b@),
{
    if a.len() != b.len() {
        return false;
    }
    let mut i: usize = 0;
    while i < a.len()
        invariant
            a@.len() == b@.len(),
            i <= a@.len(),
            forall|k: int| 0 <= k < i ==> a@[k] == b@[k],
        decreases a@.len() - i,
    {
        if a[i] != b[i] {
            return false;
        }
        i = i + 1;
    }
    assert(a@ =~= b@);
    true
}

fn same_snapshot(a: &Option<Vec<u8>>, b: &Option<Vec<u8>>) -> (same: bool)
    ensures
        same == (snapshot_view(*a) == snapshot_view(*b)),
{
    match (a, b) {
        (Some(x), Some(y)) => same_bytes(x, y),
        (None, None) => true,
        _ => false,
    }
}

/// Whether a new snapshot of the configuration file differs from the one
/// seen last, which triggers a reload.
pub open spec fn snapshot_changed(current: Option<Seq<u8>>, seen: Option<Seq<u8>>) -> bool {
    current != seen
}

/// Whether a failed reload with `message` is reported, given the last
/// reported error.
pub open spec fn reload_error_reported(last: Option<Seq<char>>, message: Seq<char>) -> bool {
    last != Some(message)
}

/// Reload law: the configuration is reloaded only when the file's bytes (or
/// its readability) changed; polling an unchanged file does nothing.
pub proof fn lemma_unchanged_file_not_reloaded(seen: Option<Seq<u8>>)
    ensures
        !snapshot_changed(seen, seen),
{
}

/// Reload law, both ways: two snapshots trigger a reload exactly when they
/// differ, whatever their lengths; a file that becomes readable or
/// unreadable, and any edit of its bytes, is seen.
pub proof fn lemma_any_change_is_reloaded(
    current: Option<Seq<u8>>,
    seen: Option<Seq<u8>>,
    edited: Seq<u8>,
    original: Seq<u8>,
    at: int,
)
    ensures
        snapshot_changed(current, seen) <==> current != seen,
        current is Some != seen is Some ==> snapshot_changed(current, seen),
        0 <= at < edited.len() && edited.len() == original.len() && edited[at] != original[at]
            ==> snapshot_changed(Some(edited), Some(original)),
{
    if 0 <= at < edited.len() && edited.len() == original.len() && edited[at] != original[at] {
        assert(Some(edited) != Some(original));
    }
}

/// Reload law: a rejected configuration is reported once, however often the
/// same error repeats; a different error is reported, and after a successful
/// reload any error is reported again.
pub proof fn lemma_reload_error_reported_once(message: Seq<char>, other: Seq<char>)
    ensures
        !reload_error_reported(Some(message), message),
        other != message ==> reload_error_reported(Some(message), other),
        reload_error_reported(None, message),
{
}

/// Watches the configuration file between polls: the bytes seen last, and
/// the message of the last reload error that was reported.
pub struct ReloadWatch {
    snapshot: Option<Vec<u8>>,
    last_reload_error: Option<String>,
}

impl ReloadWatch {
    /// The configuration bytes seen last (`None`: the file was unreadable).
    pub closed spec fn spec_snapshot(&self) -> Option<Seq<u8>> {
        snapshot_view(self.snapshot)
    }

    /// The last reported reload error, cleared by a successful reload.
    pub closed spec fn spec_last_error(&self) -> Option<Seq<char>> {
        error_view(self.last_reload_error)
    }

    /// Starts watching from the snapshot taken when the configuration was
    /// first loaded.
    pub fn new(snapshot: Option<Vec<u8>>) -> (watch: Self)
        ensures
            watch.spec_snapshot() == snapshot_view(snapshot),
            watch.spec_last_error() is None,
    {
        ReloadWatch { snapshot, last_reload_error: None }
    }

    /// A new snapshot was taken. Returns whether it differs from the last
    /// one, in which case the configuration is reloaded and the new snapshot
    /// is remembered.
    pub fn observe(&mut self, current: Option<Vec<u8>>) -> (changed: bool)
        ensures
            changed == snapshot_changed(snapshot_view(current), old(self).spec_snapshot()),
            final(self).spec_snapshot() == snapshot_view(current),
            final(self).spec_last_error() == old(self).spec_last_error(),
    {
        let changed = !same_snapshot(&current, &self.snapshot);
        if changed {
            self.snapshot = current;
        }
        changed
    }

    /// The reload succeeded: the workers restart with the new configuration
    /// and the memory of the last error is cleared.
    pub fn reload_succeeded(&mut self)
        ensures
            final(self).spec_snapshot() == old(self).spec_snapshot(),
            final(self).spec_last_error() is None,
    {
        self.last_reload_error = None;
    }

    /// The reload failed with `message`; the current connections are kept.
    /// Returns whether the error is reported: only when it differs from the
    /// last reported one. Afterwards `message` is the last reported error.
    pub fn reload_failed(&mut self, message: String) -> (report: bool)
        ensures
            report == reload_error_reported(old(self).spec_last_error(), message@),
            final(self).spec_snapshot() == old(self).spec_snapshot(),
            final(self).spec_last_error() == Some(message@),
    {
        let repeated = match &self.last_reload_error {
            Some(last) => *last == message,
            None => false,
        };
        if !repeated {
            self.last_reload_error = Some(message);
        }
        !repeated
    }
}

} // verus!
