//! The supervision of one connection as a state machine: the worker loop
//! feeds it what happened and performs the action it returns.
use crate::supervisor::{
    next_delay, spec_wait_step, wait_step, AttemptOutcome, AttemptStep, ChildPoll,
    ReconnectBackoff, RetryPolicy, WaitStep,
};
use vstd::prelude::*;

verus! {

/// Where the supervision of a connection stands.
#[derive(Clone, Copy, Debug)]
pub enum WorkerPhase {
    /// At the top of the loop: the stop flag decides whether to connect.
    Ready,
    /// An ssh process is being started.
    Spawning,
    /// The ssh process runs and is polled.
    Running,
    /// The ssh process is being killed and reaped after this outcome.
    Terminating(AttemptOutcome),
    /// The attempt ended with this outcome; its stderr reader is joined.
    Ending(AttemptOutcome),
    /// Sleeping before the next attempt.
    Sleeping,
    /// Supervision has ended.
    Stopped,
}

/// What the worker loop reports.
#[derive(Clone, Copy, Debug)]
pub enum WorkerEvent {
    /// The loop is at its top; whether a stop was requested.
    Resume { stop_requested: bool },
    /// The ssh process was started, or could not be.
    Spawned { started: bool },
    /// One poll of the running ssh process, and whether a stop was requested
    /// (read only while the process runs).
    Polled { poll: ChildPoll, stop_requested: bool },
    /// The ssh process was killed and reaped.
    Terminated,
    /// The attempt's stderr reader was joined; how long the attempt ran, in
    /// whole seconds.
    AttemptEnded { elapsed_seconds: u64 },
    /// The sleep before the next attempt ended, interrupted by a stop or not.
    Slept { interrupted: bool },
}

/// What the worker loop does next.
#[derive(Clone, Copy, Debug)]
pub enum WorkerAction {
    /// Start an ssh process.
    Spawn,
    /// Poll the ssh process now.
    Poll,
    /// Sleep one poll interval, then poll the ssh process.
    PollAfterInterval,
    /// Kill the ssh process and wait for it.
    Terminate,
    /// Join the stderr reader and report how long the attempt ran.
    Collect,
    /// Sleep `delay_seconds` unless a stop comes; `delay_reset` tells that a
    /// stable attempt brought the delay back to its initial value.
    Sleep { delay_seconds: u64, delay_reset: bool },
    /// Read the stop flag at the top of the loop.
    CheckStop,
    /// Leave the loop.
    Finish,
}

/// Whether `event` is one the worker expects in `phase`.
pub open spec fn event_fits(phase: WorkerPhase, event: WorkerEvent) -> bool {
    match phase {
        WorkerPhase::Ready => event is Resume,
        WorkerPhase::Spawning => event is Spawned,
        WorkerPhase::Running => event is Polled,
        WorkerPhase::Terminating(_) => event is Terminated,
        WorkerPhase::Ending(_) => event is AttemptEnded,
        WorkerPhase::Sleeping => event is Slept,
        WorkerPhase::Stopped => false,
    }
}

/// One step of supervision: the next phase, the next reconnect delay and
/// the action, for an event that fits the phase.
pub open spec fn spec_worker_step(
    phase: WorkerPhase,
    retry: RetryPolicy,
    delay: u64,
    event: WorkerEvent,
) -> (WorkerPhase, u64, WorkerAction) {
    match event {
        WorkerEvent::Resume { stop_requested } => if stop_requested {
            (WorkerPhase::Stopped, delay, WorkerAction::Finish)
        } else {
            (WorkerPhase::Spawning, delay, WorkerAction::Spawn)
        },
        WorkerEvent::Spawned { started } => if started {
            (WorkerPhase::Running, delay, WorkerAction::Poll)
        } else {
            (WorkerPhase::Ending(AttemptOutcome::SpawnFailed), delay, WorkerAction::Collect)
        },
        WorkerEvent::Polled { poll, stop_requested } => match spec_wait_step(poll, stop_requested) {
            WaitStep::Exited => (
                WorkerPhase::Ending(AttemptOutcome::Exited),
                delay,
                WorkerAction::Collect,
            ),
            WaitStep::Failed => (
                WorkerPhase::Terminating(AttemptOutcome::WaitFailed),
                delay,
                WorkerAction::Terminate,
            ),
            WaitStep::Stopped => (
                WorkerPhase::Terminating(AttemptOutcome::Stopped),
                delay,
                WorkerAction::Terminate,
            ),
            WaitStep::PollAgain => (WorkerPhase::Running, delay, WorkerAction::PollAfterInterval),
        },
        WorkerEvent::Terminated => match phase {
            WorkerPhase::Terminating(outcome) => (
                WorkerPhase::Ending(outcome),
                delay,
                WorkerAction::Collect,
            ),
            _ => (phase, delay, WorkerAction::Finish),
        },
        WorkerEvent::AttemptEnded { elapsed_seconds } => match phase {
            WorkerPhase::Ending(outcome) => if outcome is Stopped {
                (WorkerPhase::Stopped, delay, WorkerAction::Finish)
            } else {
                let reset = elapsed_seconds >= retry.stable_seconds;
                let d = if reset {
                    retry.initial_seconds
                } else {
                    delay
                };
                (WorkerPhase::Sleeping, d, WorkerAction::Sleep { delay_seconds: d, delay_reset: reset })
            },
            _ => (phase, delay, WorkerAction::Finish),
        },
        WorkerEvent::Slept { interrupted } => if interrupted {
            (WorkerPhase::Stopped, delay, WorkerAction::Finish)
        } else {
            (WorkerPhase::Ready, next_delay(delay, retry.maximum_seconds), WorkerAction::CheckStop)
        },
    }
}

/// Whether an ssh process of the worker may be alive in `phase`.
pub open spec fn child_alive(phase: WorkerPhase) -> bool {
    phase is Running || phase is Terminating
}

/// Whether the event is a poll that found the ssh process exited.
pub open spec fn poll_saw_exit(event: WorkerEvent) -> bool {
    match event {
        WorkerEvent::Polled { poll, .. } => poll is Exited,
        _ => false,
    }
}

/// Whether the event reports a started ssh process.
pub open spec fn spawn_started(event: WorkerEvent) -> bool {
    match event {
        WorkerEvent::Spawned { started } => started,
        _ => false,
    }
}

/// One-child law: a new ssh process is started only at the top of the loop,
/// when none is alive; a live process stops counting as alive only when a
/// poll has seen it exit or when it has been killed and reaped; and the
/// stderr reader is joined only once the process is gone.
pub proof fn lemma_one_child_at_a_time(
    phase: WorkerPhase,
    retry: RetryPolicy,
    delay: u64,
    event: WorkerEvent,
)
    requires
        event_fits(phase, event),
    ensures
        ({
            let (next, _, action) = spec_worker_step(phase, retry, delay, event);
            &&& action is Spawn ==> phase is Ready && !child_alive(phase)
            &&& child_alive(phase) && !child_alive(next) ==> poll_saw_exit(event)
                || event is Terminated
            &&& !child_alive(phase) && child_alive(next) ==> spawn_started(event)
            &&& action is Collect ==> !child_alive(next)
        }),
{
}

/// Whether an event is one that the worker can see once a stop has been
/// requested and the stop flag stays set: every read of the flag reads
/// `true`.
pub open spec fn after_stop(event: WorkerEvent) -> bool {
    match event {
        WorkerEvent::Resume { stop_requested } => stop_requested,
        WorkerEvent::Polled { stop_requested, poll } => stop_requested || !(poll is Running),
        _ => true,
    }
}

/// How many steps at most separate `phase` from the end of supervision once
/// a stop has been requested.
pub open spec fn steps_to_stop(phase: WorkerPhase) -> nat {
    match phase {
        WorkerPhase::Stopped => 0,
        WorkerPhase::Ready => 1,
        WorkerPhase::Sleeping => 2,
        WorkerPhase::Ending(_) => 3,
        WorkerPhase::Terminating(_) => 4,
        WorkerPhase::Running => 5,
        WorkerPhase::Spawning => 6,
    }
}

/// Stop law, one step: after a stop request, no step starts an ssh process
/// or polls again after an interval, and every step brings supervision
/// closer to its end.
pub proof fn lemma_stop_step(phase: WorkerPhase, retry: RetryPolicy, delay: u64, event: WorkerEvent)
    requires
        event_fits(phase, event),
        after_stop(event),
    ensures
        ({
            let (next, _, action) = spec_worker_step(phase, retry, delay, event);
            &&& !(action is Spawn)
            &&& !(action is PollAfterInterval)
            &&& steps_to_stop(next) < steps_to_stop(phase)
            &&& next is Stopped ==> action is Finish
        }),
{
}

/// The phase reached and the actions returned when the worker takes
/// `events` in order, as long as each fits.
pub open spec fn run_worker(
    phase: WorkerPhase,
    retry: RetryPolicy,
    delay: u64,
    events: Seq<WorkerEvent>,
) -> (WorkerPhase, Seq<WorkerAction>)
    decreases events.len(),
{
    if events.len() == 0 || !event_fits(phase, events[0]) {
        (phase, Seq::empty())
    } else {
        let (next, next_delay, action) = spec_worker_step(phase, retry, delay, events[0]);
        let (last, actions) = run_worker(next, retry, next_delay, events.drop_first());
        (last, seq![action] + actions)
    }
}

/// Stop law: once a stop is requested and stays requested, the worker
/// starts no further ssh process, never polls again after an interval, and
/// ends after at most six more steps (fewer the further it is along), the
/// last of which is `Finish`; at the top of the loop it ends at once.
pub proof fn lemma_stop_ends_worker(
    phase: WorkerPhase,
    retry: RetryPolicy,
    delay: u64,
    events: Seq<WorkerEvent>,
)
    requires
        forall|i: int| 0 <= i < events.len() ==> after_stop(#[trigger] events[i]),
    ensures
        ({
            let (last, actions) = run_worker(phase, retry, delay, events);
            &&& forall|i: int|
                0 <= i < actions.len() ==> !(#[trigger] actions[i] is Spawn) && !(
                actions[i] is PollAfterInterval)
            &&& steps_to_stop(last) + actions.len() <= steps_to_stop(phase)
            &&& steps_to_stop(phase) <= 6
        }),
    decreases events.len(),
{
    if events.len() > 0 && event_fits(phase, events[0]) {
        lemma_stop_step(phase, retry, delay, events[0]);
        let (next, next_delay, action) = spec_worker_step(phase, retry, delay, events[0]);
        assert(forall|i: int|
            0 <= i < events.drop_first().len() ==> after_stop(#[trigger] events.drop_first()[i])) by {
            assert forall|i: int| 0 <= i < events.drop_first().len() implies after_stop(
                #[trigger] events.drop_first()[i],
            ) by {
                assert(events.drop_first()[i] == events[i + 1]);
            }
        }
        lemma_stop_ends_worker(next, retry, next_delay, events.drop_first());
        let (last, actions) = run_worker(next, retry, next_delay, events.drop_first());
        assert((seq![action] + actions)[0] == action);
        assert forall|i: int| 0 < i < (seq![action] + actions).len() implies (seq![action]
            + actions)[i] == actions[i - 1] by {}
    }
}

/// Whether the event asks supervision to stop: a stop seen at the top of the
/// loop, a stop seen while ssh runs, or a sleep cut short by a stop.
pub open spec fn requests_stop(event: WorkerEvent) -> bool {
    match event {
        WorkerEvent::Resume { stop_requested } => stop_requested,
        WorkerEvent::Polled { poll, stop_requested } => stop_requested && poll is Running,
        WorkerEvent::Slept { interrupted } => interrupted,
        _ => false,
    }
}

/// Whether the phase is on its way out because of a stop request.
pub open spec fn stopping(phase: WorkerPhase) -> bool {
    match phase {
        WorkerPhase::Terminating(outcome) => outcome is Stopped,
        WorkerPhase::Ending(outcome) => outcome is Stopped,
        WorkerPhase::Stopped => true,
        _ => false,
    }
}

/// Retry law: without a stop request supervision never ends. A failed
/// spawn, an exited or unpollable ssh process all lead on to a reconnect,
/// and no step returns `Finish`.
pub proof fn lemma_no_stop_keeps_supervising(
    phase: WorkerPhase,
    retry: RetryPolicy,
    delay: u64,
    event: WorkerEvent,
)
    requires
        event_fits(phase, event),
        !stopping(phase),
        !requests_stop(event),
    ensures
        ({
            let (next, _, action) = spec_worker_step(phase, retry, delay, event);
            &&& !stopping(next)
            &&& !(next is Stopped)
            &&& !(action is Finish)
        }),
{
}

/// Retry law: a spawn that fails is no stop. The attempt is collected, and
/// when it has ended the worker sleeps for the current delay (the initial
/// one after a stable attempt) before trying again.
pub proof fn lemma_failed_spawn_is_retried(retry: RetryPolicy, delay: u64, elapsed_seconds: u64)
    ensures
        ({
            let (next, d, action) = spec_worker_step(
                WorkerPhase::Spawning,
                retry,
                delay,
                WorkerEvent::Spawned { started: false },
            );
            &&& next == WorkerPhase::Ending(AttemptOutcome::SpawnFailed)
            &&& d == delay
            &&& action is Collect
            &&& {
                let (after, d2, sleep) = spec_worker_step(
                    next,
                    retry,
                    d,
                    WorkerEvent::AttemptEnded { elapsed_seconds },
                );
                &&& after is Sleeping
                &&& sleep matches WorkerAction::Sleep { delay_seconds, delay_reset }
                &&& delay_seconds == d2
                &&& (elapsed_seconds >= retry.stable_seconds ==> delay_seconds
                    == retry.initial_seconds && delay_reset)
                &&& (elapsed_seconds < retry.stable_seconds ==> delay_seconds == delay
                    && !delay_reset)
            }
        }),
{
}

/// The supervision state of one connection.
pub struct ConnectionWorker {
    backoff: ReconnectBackoff,
    phase: WorkerPhase,
}

impl ConnectionWorker {
    pub closed spec fn spec_phase(&self) -> WorkerPhase {
        self.phase
    }

    pub closed spec fn spec_retry(&self) -> RetryPolicy {
        self.backoff.spec_retry()
    }

    /// The delay, in seconds, before the next reconnect.
    pub closed spec fn spec_delay(&self) -> u64 {
        self.backoff.spec_delay()
    }

    /// A worker at the top of its loop, with the initial delay.
    pub fn new(retry: RetryPolicy) -> (worker: Self)
        ensures
            worker.spec_phase() is Ready,
            worker.spec_retry() == retry,
            worker.spec_delay() == retry.initial_seconds,
    {
        ConnectionWorker { backoff: ReconnectBackoff::new(retry), phase: WorkerPhase::Ready }
    }

    /// Where supervision stands.
    pub fn phase(&self) -> (phase: WorkerPhase)
        ensures
            phase == self.spec_phase(),
    {
        self.phase
    }

    /// Takes one event of the worker loop and returns what to do next.
    pub fn step(&mut self, event: WorkerEvent) -> (action: WorkerAction)
        requires
            event_fits(old(self).spec_phase(), event),
        ensures
            final(self).spec_retry() == old(self).spec_retry(),
            (final(self).spec_phase(), final(self).spec_delay(), action) == spec_worker_step(
                old(self).spec_phase(),
                old(self).spec_retry(),
                old(self).spec_delay(),
                event,
            ),
    {
        match event {
            WorkerEvent::Resume { stop_requested } => {
                if stop_requested {
                    self.phase = WorkerPhase::Stopped;
                    WorkerAction::Finish
                } else {
                    self.phase = WorkerPhase::Spawning;
                    WorkerAction::Spawn
                }
            },
            WorkerEvent::Spawned { started } => {
                if started {
                    self.phase = WorkerPhase::Running;
                    WorkerAction::Poll
                } else {
                    self.phase = WorkerPhase::Ending(AttemptOutcome::SpawnFailed);
                    WorkerAction::Collect
                }
            },
            WorkerEvent::Polled { poll, stop_requested } => match wait_step(poll, stop_requested) {
                WaitStep::Exited => {
                    self.phase = WorkerPhase::Ending(AttemptOutcome::Exited);
                    WorkerAction::Collect
                },
                WaitStep::Failed => {
                    self.phase = WorkerPhase::Terminating(AttemptOutcome::WaitFailed);
                    WorkerAction::Terminate
                },
                WaitStep::Stopped => {
                    self.phase = WorkerPhase::Terminating(AttemptOutcome::Stopped);
                    WorkerAction::Terminate
                },
                WaitStep::PollAgain => WorkerAction::PollAfterInterval,
            },
            WorkerEvent::Terminated => match self.phase {
                WorkerPhase::Terminating(outcome) => {
                    self.phase = WorkerPhase::Ending(outcome);
                    WorkerAction::Collect
                },
                _ => WorkerAction::Finish,
            },
            WorkerEvent::AttemptEnded { elapsed_seconds } => match self.phase {
                WorkerPhase::Ending(outcome) => match self.backoff.attempt_finished(
                    outcome,
                    elapsed_seconds,
                ) {
                    AttemptStep::Shutdown => {
                        self.phase = WorkerPhase::Stopped;
                        WorkerAction::Finish
                    },
                    AttemptStep::Retry { delay_seconds, delay_reset } => {
                        self.phase = WorkerPhase::Sleeping;
                        WorkerAction::Sleep { delay_seconds, delay_reset }
                    },
                },
                _ => WorkerAction::Finish,
            },
            WorkerEvent::Slept { interrupted } => {
                if self.backoff.sleep_finished(interrupted) {
                    self.phase = WorkerPhase::Ready;
                    WorkerAction::CheckStop
                } else {
                    self.phase = WorkerPhase::Stopped;
                    WorkerAction::Finish
                }
            },
        }
    }
}

} // verus!
