//! Supervision of the IPC listener: restarts, back-off and the restart budget.

use crate::clock::duration_nanos;
use crate::clock::duration_of_millis;
use crate::text::concat_text;
use crate::text::decimal;
use crate::text::decimal_text;
use std::time::Duration;
use vstd::arithmetic::power2::lemma2_to64;
use vstd::arithmetic::power2::lemma_pow2_strictly_increases;
use vstd::arithmetic::power2::pow2;
use vstd::prelude::*;
use vstd::string::*;

verus! {

/// Restarts that may fall into one restart window.
pub const IPC_MAX_RESTARTS: u32 = 10;

/// Length of the restart window, in whole seconds.
pub const IPC_RESTART_WINDOW_SECS: u64 = 10;

/// Length of the restart window, in nanoseconds.
pub const IPC_RESTART_WINDOW_NANOS: u128 = 10_000_000_000;

/// Longest pause before a restart, in milliseconds.
pub const IPC_MAX_BACKOFF_MILLIS: u64 = 500;

/// What the service reports about itself.
#[derive(Clone, Copy, Debug, PartialEq, Eq, Structural)]
pub enum ServiceLifecycleState {
    Starting,
    Running,
    RecoveringIpc,
    Fatal,
}

/// Milliseconds to wait before the restart that follows `attempt` earlier ones in a row: none
/// before the first, then 100, doubled each time and capped.
pub open spec fn backoff_millis(attempt: nat) -> nat {
    if attempt == 0 {
        0
    } else {
        let doubled = 100 * pow2((attempt - 1) as nat);
        if doubled < IPC_MAX_BACKOFF_MILLIS {
            doubled
        } else {
            IPC_MAX_BACKOFF_MILLIS as nat
        }
    }
}

/// `backoff_millis`, computed.
pub fn ipc_backoff_millis(attempt: u32) -> (millis: u64)
    ensures
        millis == backoff_millis(attempt as nat),
{
    if attempt == 0 {
        return 0;
    }
    let shift: u32 = if attempt - 1 < 3 {
        attempt - 1
    } else {
        3
    };
    let doubled: u64 = 100u64 << shift;
    proof {
        assert(100u64 << 0u32 == 100u64 && 100u64 << 1u32 == 200u64 && 100u64 << 2u32 == 400u64
            && 100u64 << 3u32 == 800u64) by (bit_vector);
        lemma2_to64();
        if attempt - 1 > 3 {
            lemma_pow2_strictly_increases(3, (attempt - 1) as nat);
        }
    }
    if doubled < IPC_MAX_BACKOFF_MILLIS {
        doubled
    } else {
        IPC_MAX_BACKOFF_MILLIS
    }
}

/// The pause before the restart that follows `attempt` earlier ones in a row.
pub fn ipc_backoff_delay(attempt: u32) -> (delay: Duration)
    ensures
        delay == duration_of_millis(backoff_millis(attempt as nat) as u64),
        duration_nanos(delay) == backoff_millis(attempt as nat) * 1_000_000,
{
    Duration::from_millis(ipc_backoff_millis(attempt))
}

/// Nanoseconds from `earlier` to `now`; none if `earlier` lies ahead.
pub open spec fn elapsed(now: u128, earlier: u128) -> int {
    if now >= earlier {
        now - earlier
    } else {
        0
    }
}

/// Whether a restart at `moment` still counts at `now`.
pub open spec fn in_window(now: u128, moment: u128) -> bool {
    elapsed(now, moment) < IPC_RESTART_WINDOW_NANOS
}

/// The moments that still count at `now`, in their order.
pub open spec fn recent(moments: Seq<u128>, now: u128) -> Seq<u128> {
    moments.filter(|moment: u128| in_window(now, moment))
}

/// The moments that still count at `now`, in their order.
fn recent_moments(moments: &Vec<u128>, now: u128) -> (kept: Vec<u128>)
    ensures
        kept@ == recent(moments@, now),
        kept@.len() <= moments@.len(),
{
    let mut kept: Vec<u128> = Vec::new();
    let ghost counts = |moment: u128| in_window(now, moment);
    let mut i: usize = 0;
    proof {
        reveal(Seq::filter);
    }
    while i < moments.len()
        invariant
            i <= moments.len(),
            counts == (|moment: u128| in_window(now, moment)),
            kept@ == moments@.take(i as int).filter(counts),
            kept@.len() <= i,
        decreases moments.len() - i,
    {
        let moment: u128 = moments[i];
        proof {
            let before = moments@.take(i as int);
            assert(moments@.take(i + 1) == before.push(moment));
            assert(before.push(moment).drop_last() == before);
            reveal(Seq::filter);
        }
        if now.saturating_sub(moment) < IPC_RESTART_WINDOW_NANOS {
            kept.push(moment);
        }
        i = i + 1;
    }
    assert(moments@.take(i as int) == moments@);
    kept
}

/// The model of a [`RestartHistory`].
pub struct RestartHistoryView {
    /// Moments of the restarts that counted at the last one.
    pub moments: Seq<u128>,
    /// Restarts since the window was last empty.
    pub attempt: nat,
}

/// What follows from an exit of the listener.
#[derive(Clone, Copy, Debug, PartialEq, Eq)]
pub enum RestartDecision {
    /// Restart, as the attempt of this number since the window was last empty.
    Restart(u32),
    /// The budget is used up: this many restarts would fall into one window.
    GiveUp(u64),
}

impl RestartHistoryView {
    /// No restart so far.
    pub open spec fn empty() -> RestartHistoryView {
        RestartHistoryView { moments: Seq::empty(), attempt: 0 }
    }

    /// The number of restarts in a row that an exit at `now` follows.
    pub open spec fn attempt_at(self, now: u128) -> nat {
        if recent(self.moments, now).len() == 0 {
            0
        } else {
            self.attempt
        }
    }

    /// Whether an exit at `now` is still within the budget.
    pub open spec fn admits(self, now: u128) -> bool {
        recent(self.moments, now).len() < IPC_MAX_RESTARTS
    }

    /// Whether a restart at `now`, if there is to be one, can still be counted.
    pub open spec fn counts(self, now: u128) -> bool {
        self.admits(now) ==> self.attempt_at(now) < u32::MAX
    }

    /// What an exit at `now` leads to.
    pub open spec fn decision(self, now: u128) -> RestartDecision {
        if self.admits(now) {
            RestartDecision::Restart(self.attempt_at(now) as u32)
        } else {
            RestartDecision::GiveUp((recent(self.moments, now).len() + 1) as u64)
        }
    }

    /// The history after an exit at `now`; giving up leaves it as it is.
    pub open spec fn after(self, now: u128) -> RestartHistoryView {
        if self.admits(now) {
            RestartHistoryView {
                moments: recent(self.moments, now).push(now),
                attempt: self.attempt_at(now) + 1,
            }
        } else {
            self
        }
    }
}

/// The restarts of the listener that still count.
///
/// A moment is a number of nanoseconds since some fixed point of a monotonic clock.
#[derive(Debug)]
pub struct RestartHistory {
    moments: Vec<u128>,
    attempt: u32,
}

impl View for RestartHistory {
    type V = RestartHistoryView;

    closed spec fn view(&self) -> RestartHistoryView {
        RestartHistoryView { moments: self.moments@, attempt: self.attempt as nat }
    }
}

impl RestartHistory {
    /// No more restarts are on record than one window may hold, and the attempts can be counted.
    pub open spec fn wf(&self) -> bool {
        &&& self@.moments.len() <= IPC_MAX_RESTARTS
        &&& self@.attempt <= u32::MAX
    }

    /// No restart so far.
    pub fn new() -> (history: RestartHistory)
        ensures
            history.wf(),
            history@ == RestartHistoryView::empty(),
    {
        RestartHistory { moments: Vec::new(), attempt: 0 }
    }

    /// Restarts since the window was last empty.
    pub fn attempts(&self) -> (attempt: u32)
        ensures
            attempt == self@.attempt,
    {
        self.attempt
    }

    /// Whether an exit at `now` can be recorded: restarts in a row are counted in 32 bits.
    pub fn can_record(&self, now: u128) -> (possible: bool)
        requires
            self.wf(),
        ensures
            possible == self@.counts(now),
    {
        let kept: usize = recent_moments(&self.moments, now).len();
        kept == 0 || kept >= IPC_MAX_RESTARTS as usize || self.attempt < u32::MAX
    }

    /// Takes note of an exit at `now` and decides what follows.
    pub fn record_exit(&mut self, now: u128) -> (decision: RestartDecision)
        requires
            old(self).wf(),
            old(self)@.counts(now),
        ensures
            final(self).wf(),
            decision == old(self)@.decision(now),
            final(self)@ == old(self)@.after(now),
    {
        let mut kept = recent_moments(&self.moments, now);
        let attempt: u32 = if kept.len() == 0 {
            0
        } else {
            self.attempt
        };
        let restarts: usize = kept.len() + 1;
        if restarts > IPC_MAX_RESTARTS as usize {
            return RestartDecision::GiveUp(restarts as u64);
        }
        kept.push(now);
        self.moments = kept;
        self.attempt = attempt + 1;
        RestartDecision::Restart(attempt)
    }
}

/// Why supervision ended in failure.
#[derive(Debug, PartialEq, Eq)]
pub enum SupervisorFailure {
    /// The listener could not be started, for the reason given.
    StartFailed(String),
    /// The listener could not be started again, for the reason given.
    RebuildFailed(String),
    /// This many restarts fell into one restart window.
    TooManyRestarts(u64),
}

impl SupervisorFailure {
    /// The text of the failure.
    pub open spec fn text(self) -> Seq<char> {
        match self {
            SupervisorFailure::StartFailed(error) => "failed to start IPC server: "@ + error@,
            SupervisorFailure::RebuildFailed(error) => "failed to rebuild IPC server: "@ + error@,
            SupervisorFailure::TooManyRestarts(restarts) => "IPC server restarted "@
                + decimal_text(restarts as nat) + " times in "@ + decimal_text(
                IPC_RESTART_WINDOW_SECS as nat,
            ) + "s"@,
        }
    }

    /// The text of the failure.
    pub fn message(&self) -> (message: String)
        ensures
            message@ == self.text(),
    {
        match self {
            SupervisorFailure::StartFailed(error) => concat_text(
                "failed to start IPC server: ",
                error.as_str(),
            ),
            SupervisorFailure::RebuildFailed(error) => concat_text(
                "failed to rebuild IPC server: ",
                error.as_str(),
            ),
            SupervisorFailure::TooManyRestarts(restarts) => {
                concat_text("IPC server restarted ", decimal(*restarts).as_str()).concat(
                    " times in ",
                ).concat(decimal(IPC_RESTART_WINDOW_SECS).as_str()).concat("s")
            },
        }
    }
}

/// What has just happened to the supervisor.
#[derive(Debug, PartialEq, Eq)]
pub enum SupervisorEvent {
    /// Supervision begins.
    Begun,
    /// The first start of the listener succeeded, or failed for the reason given.
    Started(Result<(), String>),
    /// The shutdown signal arrived while the listener was being watched.
    ShutdownRequested,
    /// The listener's task ended, in whatever way.
    ServerExited,
    /// The monotonic clock was read.
    ClockRead(u128),
    /// The pause before a restart is over.
    PauseElapsed,
    /// A restart of the listener succeeded, or failed for the reason given.
    Rebuilt(Result<(), String>),
    /// The listener has been stopped, successfully or not.
    ServerStopped,
}

/// What the supervisor does next.
#[derive(Debug, PartialEq, Eq)]
pub enum SupervisorAction {
    /// Start the listener for the first time.
    Start,
    /// Wait for the shutdown signal or the end of the listener's task.
    Watch,
    /// Read the monotonic clock.
    ReadClock,
    /// Wait this long.
    Pause(Duration),
    /// Start the listener again.
    Rebuild,
    /// Stop the listener; a failure to do so does not matter.
    StopServer,
    /// Abort what is left of the listener's task and end successfully.
    Finish,
    /// End in failure.
    Fail(SupervisorFailure),
}

/// A step of the supervisor: the state to report first, if it changes, and then the action.
#[derive(Debug, PartialEq, Eq)]
pub struct SupervisorStep {
    pub lifecycle: Option<ServiceLifecycleState>,
    pub action: SupervisorAction,
}

/// The step that an exit noticed at `now` leads to.
pub open spec fn exit_step(history: RestartHistoryView, now: u128) -> SupervisorStep {
    match history.decision(now) {
        RestartDecision::GiveUp(restarts) => SupervisorStep {
            lifecycle: Some(ServiceLifecycleState::Fatal),
            action: SupervisorAction::Fail(SupervisorFailure::TooManyRestarts(restarts)),
        },
        RestartDecision::Restart(attempt) => SupervisorStep {
            lifecycle: None,
            action: if backoff_millis(attempt as nat) == 0 {
                SupervisorAction::Rebuild
            } else {
                SupervisorAction::Pause(duration_of_millis(backoff_millis(attempt as nat) as u64))
            },
        },
    }
}

/// The step that follows `event`.
pub open spec fn supervisor_step(
    history: RestartHistoryView,
    event: SupervisorEvent,
) -> SupervisorStep {
    match event {
        SupervisorEvent::Begun => SupervisorStep {
            lifecycle: Some(ServiceLifecycleState::Starting),
            action: SupervisorAction::Start,
        },
        SupervisorEvent::Started(Ok(_)) => SupervisorStep {
            lifecycle: Some(ServiceLifecycleState::Running),
            action: SupervisorAction::Watch,
        },
        SupervisorEvent::Started(Err(error)) => SupervisorStep {
            lifecycle: Some(ServiceLifecycleState::Fatal),
            action: SupervisorAction::Fail(SupervisorFailure::StartFailed(error)),
        },
        SupervisorEvent::ShutdownRequested => SupervisorStep {
            lifecycle: None,
            action: SupervisorAction::StopServer,
        },
        SupervisorEvent::ServerExited => SupervisorStep {
            lifecycle: Some(ServiceLifecycleState::RecoveringIpc),
            action: SupervisorAction::ReadClock,
        },
        SupervisorEvent::ClockRead(now) => exit_step(history, now),
        SupervisorEvent::PauseElapsed => SupervisorStep {
            lifecycle: None,
            action: SupervisorAction::Rebuild,
        },
        SupervisorEvent::Rebuilt(Ok(_)) => SupervisorStep {
            lifecycle: Some(ServiceLifecycleState::Running),
            action: SupervisorAction::Watch,
        },
        SupervisorEvent::Rebuilt(Err(error)) => SupervisorStep {
            lifecycle: Some(ServiceLifecycleState::Fatal),
            action: SupervisorAction::Fail(SupervisorFailure::RebuildFailed(error)),
        },
        SupervisorEvent::ServerStopped => SupervisorStep {
            lifecycle: None,
            action: SupervisorAction::Finish,
        },
    }
}

/// The history after `event`.
pub open spec fn history_next(
    history: RestartHistoryView,
    event: SupervisorEvent,
) -> RestartHistoryView {
    match event {
        SupervisorEvent::ClockRead(now) => history.after(now),
        _ => history,
    }
}

/// Advances the supervision of the listener by one event.
///
/// Only a clock reading, which stands for an exit of the listener, changes the history.
pub fn run_ipc_supervisor_until_shutdown(
    history: &mut RestartHistory,
    event: SupervisorEvent,
) -> (step: SupervisorStep)
    requires
        old(history).wf(),
        event matches SupervisorEvent::ClockRead(now) ==> old(history)@.counts(now),
    ensures
        final(history).wf(),
        step == supervisor_step(old(history)@, event),
        final(history)@ == history_next(old(history)@, event),
{
    match event {
        SupervisorEvent::Begun => SupervisorStep {
            lifecycle: Some(ServiceLifecycleState::Starting),
            action: SupervisorAction::Start,
        },
        SupervisorEvent::Started(Ok(_)) => SupervisorStep {
            lifecycle: Some(ServiceLifecycleState::Running),
            action: SupervisorAction::Watch,
        },
        SupervisorEvent::Started(Err(error)) => SupervisorStep {
            lifecycle: Some(ServiceLifecycleState::Fatal),
            action: SupervisorAction::Fail(SupervisorFailure::StartFailed(error)),
        },
        SupervisorEvent::ShutdownRequested => SupervisorStep {
            lifecycle: None,
            action: SupervisorAction::StopServer,
        },
        SupervisorEvent::ServerExited => SupervisorStep {
            lifecycle: Some(ServiceLifecycleState::RecoveringIpc),
            action: SupervisorAction::ReadClock,
        },
        SupervisorEvent::ClockRead(now) => match history.record_exit(now) {
            RestartDecision::GiveUp(restarts) => SupervisorStep {
                lifecycle: Some(ServiceLifecycleState::Fatal),
                action: SupervisorAction::Fail(SupervisorFailure::TooManyRestarts(restarts)),
            },
            RestartDecision::Restart(attempt) => SupervisorStep {
                lifecycle: None,
                action: {
                    let delay = ipc_backoff_delay(attempt);
                    if delay.is_zero() {
                        SupervisorAction::Rebuild
                    } else {
                        SupervisorAction::Pause(delay)
                    }
                },
            },
        },
        SupervisorEvent::PauseElapsed => SupervisorStep {
            lifecycle: None,
            action: SupervisorAction::Rebuild,
        },
        SupervisorEvent::Rebuilt(Ok(_)) => SupervisorStep {
            lifecycle: Some(ServiceLifecycleState::Running),
            action: SupervisorAction::Watch,
        },
        SupervisorEvent::Rebuilt(Err(error)) => SupervisorStep {
            lifecycle: Some(ServiceLifecycleState::Fatal),
            action: SupervisorAction::Fail(SupervisorFailure::RebuildFailed(error)),
        },
        SupervisorEvent::ServerStopped => SupervisorStep {
            lifecycle: None,
            action: SupervisorAction::Finish,
        },
    }
}

} // verus!
