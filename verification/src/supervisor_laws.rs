//! What holds of the supervision of the listener over whole runs.

use crate::clock::duration_of_millis;
use crate::supervisor::backoff_millis;
use crate::supervisor::exit_step;
use crate::supervisor::history_next;
use crate::supervisor::in_window;
use crate::supervisor::recent;
use crate::supervisor::supervisor_step;
use crate::supervisor::RestartDecision;
use crate::supervisor::RestartHistory;
use crate::supervisor::RestartHistoryView;
use crate::supervisor::ServiceLifecycleState;
use crate::supervisor::SupervisorAction;
use crate::supervisor::SupervisorEvent;
use crate::supervisor::SupervisorFailure;
use crate::supervisor::SupervisorStep;
use crate::supervisor::IPC_MAX_BACKOFF_MILLIS;
use crate::supervisor::IPC_MAX_RESTARTS;
use crate::supervisor::IPC_RESTART_WINDOW_NANOS;
use crate::text::decimal_text;
use crate::text::digit_char;
use std::time::Duration;
use vstd::arithmetic::power2::lemma2_to64;
use vstd::arithmetic::power2::lemma_pow2_strictly_increases;
use vstd::arithmetic::power2::pow2;
use vstd::prelude::*;

verus! {

/// The history after exits at these moments, every one of which was answered by a restart;
/// `None` if one was not.
pub open spec fn history_of(exits: Seq<u128>) -> Option<RestartHistoryView>
    decreases exits.len(),
{
    if exits.len() == 0 {
        Some(RestartHistoryView::empty())
    } else {
        match history_of(exits.drop_last()) {
            None => None,
            Some(history) => if history.admits(exits.last()) {
                Some(history.after(exits.last()))
            } else {
                None
            },
        }
    }
}

/// The moments come one after the other, as a monotonic clock gives them.
pub open spec fn in_order(moments: Seq<u128>) -> bool {
    forall|i: int, j: int| 0 <= i <= j < moments.len() ==> moments[i] <= moments[j]
}

/// A part of a restarted run was itself restarted throughout.
proof fn lemma_history_of_prefix(exits: Seq<u128>, n: int)
    requires
        history_of(exits) is Some,
        0 <= n <= exits.len(),
    ensures
        history_of(exits.take(n)) is Some,
    decreases exits.len(),
{
    if n == exits.len() {
        assert(exits.take(n) == exits);
    } else {
        lemma_history_of_prefix(exits.drop_last(), n);
        assert(exits.drop_last().take(n) == exits.take(n));
    }
}

/// What counts at `later` among those that counted at `earlier` is what counts at `later`.
proof fn lemma_recent_twice(moments: Seq<u128>, earlier: u128, later: u128)
    requires
        forall|i: int| 0 <= i < moments.len() ==> moments[i] <= earlier,
        earlier <= later,
    ensures
        recent(recent(moments, earlier), later) == recent(moments, later),
    decreases moments.len(),
{
    reveal(Seq::filter);
    if moments.len() > 0 {
        let rest = moments.drop_last();
        let last = moments.last();
        assert(forall|i: int| 0 <= i < rest.len() ==> rest[i] == moments[i]);
        lemma_recent_twice(rest, earlier, later);
        if in_window(earlier, last) {
            let kept = recent(rest, earlier);
            assert(recent(moments, earlier) == kept.push(last));
            assert(kept.push(last).drop_last() == kept);
        }
    }
}

/// Of moments in order, those that count are the latest ones.
proof fn lemma_recent_is_suffix(moments: Seq<u128>, now: u128) -> (start: int)
    requires
        in_order(moments),
        moments.len() > 0 ==> moments.last() <= now,
    ensures
        0 <= start <= moments.len(),
        recent(moments, now) == moments.skip(start),
        forall|i: int| 0 <= i < start ==> !in_window(now, moments[i]),
        forall|i: int| start <= i < moments.len() ==> in_window(now, moments[i]),
    decreases moments.len(),
{
    reveal(Seq::filter);
    if moments.len() == 0 {
        assert(recent(moments, now) == moments.skip(0));
        0
    } else {
        let rest = moments.drop_last();
        assert(forall|i: int| 0 <= i < rest.len() ==> rest[i] == moments[i]);
        let start = lemma_recent_is_suffix(rest, now);
        if in_window(now, moments.last()) {
            assert(rest.skip(start).push(moments.last()) == moments.skip(start));
            start
        } else {
            assert forall|i: int| 0 <= i < rest.len() implies !in_window(now, moments[i]) by {
                assert(moments[i] <= moments[moments.len() - 1]);
            }
            if start < rest.len() {
                assert(in_window(now, moments[start]));
            }
            assert(rest.skip(start) == moments.skip(moments.len() as int));
            moments.len() as int
        }
    }
}

/// The moments on record are those of the run that counted at the last exit.
proof fn lemma_history_holds_recent(exits: Seq<u128>)
    requires
        in_order(exits),
        exits.len() > 0,
        history_of(exits) is Some,
    ensures
        history_of(exits)->0.moments == recent(exits, exits.last()),
    decreases exits.len(),
{
    reveal(Seq::filter);
    let before = exits.drop_last();
    let now = exits.last();
    assert(recent(exits, now) == recent(before, now).push(now));
    if before.len() > 0 {
        assert forall|i: int| 0 <= i < before.len() implies before[i] <= before.last() by {
            assert(exits[i] <= exits[before.len() - 1]);
        }
        assert(in_order(before)) by {
            assert(forall|i: int| 0 <= i < before.len() ==> before[i] == exits[i]);
        }
        lemma_history_holds_recent(before);
        assert(exits[before.len() - 1] <= exits[exits.len() - 1]);
        lemma_recent_twice(before, before.last(), now);
    }
}

/// The budget: a run that was restarted throughout is given up at the next exit if and only if
/// the tenth exit before it lies less than a restart window back.
pub proof fn law_gives_up_exactly_over_budget(exits: Seq<u128>, now: u128)
    requires
        in_order(exits.push(now)),
        history_of(exits) is Some,
    ensures
        history_of(exits.push(now)) is None <==> exits.len() >= IPC_MAX_RESTARTS && now - exits[exits.len()
            - IPC_MAX_RESTARTS] < IPC_RESTART_WINDOW_NANOS,
        exit_step(history_of(exits)->0, now).action is Fail <==> history_of(exits.push(now)) is None,
{
    let all = exits.push(now);
    assert(all.drop_last() == exits);
    assert(forall|i: int| 0 <= i < exits.len() ==> exits[i] == all[i]);
    assert(all[all.len() - 1] == now);
    assert(forall|i: int| 0 <= i < exits.len() ==> exits[i] <= all[all.len() - 1]);
    assert(in_order(exits));
    let history = history_of(exits)->0;
    let start = lemma_recent_is_suffix(exits, now);
    if exits.len() > 0 {
        lemma_history_holds_recent(exits);
        lemma_recent_twice(exits, exits.last(), now);
    } else {
        assert(history.moments == exits);
    }
    assert(recent(history.moments, now) == exits.skip(start));
}

/// Eleven exits that were all answered by a restart span a whole restart window at least.
pub proof fn law_restart_rate(exits: Seq<u128>, i: int)
    requires
        in_order(exits),
        history_of(exits) is Some,
        0 <= i,
        i + IPC_MAX_RESTARTS < exits.len(),
    ensures
        exits[i + IPC_MAX_RESTARTS] - exits[i] >= IPC_RESTART_WINDOW_NANOS,
{
    let n = i + IPC_MAX_RESTARTS;
    let part = exits.take(n);
    let now = exits[n];
    assert(part.push(now) == exits.take(n + 1));
    assert(in_order(part.push(now))) by {
        assert(forall|k: int| 0 <= k <= n ==> part.push(now)[k] == exits[k]);
    }
    lemma_history_of_prefix(exits, n);
    lemma_history_of_prefix(exits, n + 1);
    law_gives_up_exactly_over_budget(part, now);
}

/// Whether no earlier exit lies within the restart window before the exit at `i`.
pub open spec fn fresh(exits: Seq<u128>, i: int) -> bool {
    forall|j: int| 0 <= j < i ==> !in_window(exits[i], #[trigger] exits[j])
}

/// Whether the exit at `first` is the last one that had none in the window before it.
pub open spec fn last_fresh(exits: Seq<u128>, first: int) -> bool {
    &&& 0 <= first < exits.len()
    &&& fresh(exits, first)
    &&& forall|k: int| first < k < exits.len() ==> !#[trigger] fresh(exits, k)
}

/// The attempts on record are the exits since the last that had none in the window before it.
proof fn lemma_attempts_since_fresh(exits: Seq<u128>, first: int)
    requires
        in_order(exits),
        history_of(exits) is Some,
        last_fresh(exits, first),
    ensures
        history_of(exits)->0.attempt == exits.len() - first,
    decreases exits.len(),
{
    let before = exits.drop_last();
    let now = exits.last();
    let n = before.len() as int;
    assert(forall|i: int| 0 <= i < n ==> before[i] == exits[i]);
    assert(in_order(before));
    assert forall|i: int| 0 <= i < n implies before[i] <= now by {
        assert(exits[i] <= exits[n]);
    }
    let start = lemma_recent_is_suffix(before, now);
    if n > 0 {
        lemma_history_holds_recent(before);
        assert forall|i: int| 0 <= i < n implies before[i] <= before.last() by {
            assert(exits[i] <= exits[n - 1]);
        }
        lemma_recent_twice(before, before.last(), now);
    } else {
        assert(history_of(before)->0.moments == before);
    }
    assert(recent(history_of(before)->0.moments, now) == before.skip(start));
    if first == n {
        if start < n {
            assert(in_window(now, before[start]));
            assert(!in_window(exits[n], exits[start]));
        }
    } else {
        assert(!fresh(exits, n));
        let j = choose|j: int| 0 <= j < n && in_window(exits[n], #[trigger] exits[j]);
        assert(in_window(now, before[j]));
        assert(start <= j);
        assert(fresh(before, first)) by {
            assert forall|i: int| 0 <= i < first implies !in_window(
                before[first],
                #[trigger] before[i],
            ) by {
                assert(!in_window(exits[first], exits[i]));
            }
        }
        assert forall|k: int| first < k < n implies !#[trigger] fresh(before, k) by {
            assert(!fresh(exits, k));
            let i = choose|i: int| 0 <= i < k && in_window(exits[k], #[trigger] exits[i]);
            assert(in_window(before[k], before[i]));
        }
        lemma_attempts_since_fresh(before, first);
    }
}

/// Back-off: an exit that is answered by a restart is answered after the pause that belongs to the
/// number of exits before it since the last one that had none in the restart window before it.
pub proof fn law_backs_off_by_exits_in_a_row(exits: Seq<u128>, now: u128, first: int)
    requires
        in_order(exits.push(now)),
        history_of(exits.push(now)) is Some,
        last_fresh(exits.push(now), first),
        exits.len() - first <= u32::MAX,
    ensures
        ({
            let attempt = (exits.len() - first) as nat;
            &&& history_of(exits)->0.decision(now) == RestartDecision::Restart(attempt as u32)
            &&& exit_step(history_of(exits)->0, now).action == (if attempt == 0 {
                SupervisorAction::Rebuild
            } else {
                SupervisorAction::Pause(duration_of_millis(backoff_millis(attempt) as u64))
            })
        }),
{
    let attempt = (exits.len() - first) as nat;
    let all = exits.push(now);
    assert(all.drop_last() == exits);
    lemma_attempts_since_fresh(all, first);
    law_backoff_shape(attempt, attempt);
}

/// Every run of exits has a last one that had none in the restart window before it: the first exit
/// is always one.
pub proof fn law_some_exit_is_fresh(exits: Seq<u128>) -> (first: int)
    requires
        exits.len() > 0,
    ensures
        last_fresh(exits, first),
{
    lemma_last_fresh_from(exits, exits.len() - 1)
}

/// The last fresh exit, where none after `i` is.
proof fn lemma_last_fresh_from(exits: Seq<u128>, i: int) -> (first: int)
    requires
        0 <= i < exits.len(),
        forall|k: int| i < k < exits.len() ==> !#[trigger] fresh(exits, k),
    ensures
        last_fresh(exits, first),
    decreases i,
{
    if fresh(exits, i) {
        i
    } else {
        assert(fresh(exits, 0));
        lemma_last_fresh_from(exits, i - 1)
    }
}

/// After a quiet restart window the listener is restarted at once, as if for the first time.
pub proof fn law_quiet_window_resets(exits: Seq<u128>, now: u128)
    requires
        in_order(exits),
        history_of(exits) is Some,
        exits.len() > 0 ==> exits.last() + IPC_RESTART_WINDOW_NANOS <= now,
    ensures
        history_of(exits)->0.decision(now) == RestartDecision::Restart(0),
        exit_step(history_of(exits)->0, now).action == SupervisorAction::Rebuild,
        history_of(exits)->0.after(now).attempt == 1,
{
    if exits.len() > 0 {
        lemma_history_holds_recent(exits);
        assert forall|i: int| 0 <= i < exits.len() implies exits[i] <= exits.last() by {
            assert(exits[i] <= exits[exits.len() - 1]);
        }
        lemma_recent_twice(exits, exits.last(), now);
        let start = lemma_recent_is_suffix(exits, now);
        if start < exits.len() {
            assert(in_window(now, exits[start]));
            assert(exits[start] <= exits.last());
        }
    } else {
        reveal(Seq::filter);
    }
}

/// The attempts on record are no more than the exits of the run.
proof fn lemma_attempts_bounded(exits: Seq<u128>)
    requires
        history_of(exits) is Some,
    ensures
        history_of(exits)->0.attempt <= exits.len(),
    decreases exits.len(),
{
    if exits.len() > 0 {
        lemma_attempts_bounded(exits.drop_last());
    }
}

/// The next exit of a run can be recorded as long as the run has fewer exits than 32 bits can
/// count.
pub proof fn law_exits_can_be_recorded(exits: Seq<u128>, now: u128)
    requires
        history_of(exits) is Some,
        exits.len() < u32::MAX,
    ensures
        history_of(exits)->0.counts(now),
{
    lemma_attempts_bounded(exits);
}

/// The pause never shrinks from one attempt to a later one, is absent before the first and
/// never exceeds its cap, which the fourth attempt reaches.
pub proof fn law_backoff_shape(attempt: nat, later: nat)
    requires
        attempt <= later,
    ensures
        backoff_millis(attempt) <= backoff_millis(later) <= IPC_MAX_BACKOFF_MILLIS,
        backoff_millis(attempt) == 0 <==> attempt == 0,
        attempt >= 4 ==> backoff_millis(attempt) == IPC_MAX_BACKOFF_MILLIS,
{
    lemma2_to64();
    if attempt >= 1 && attempt < later {
        lemma_pow2_strictly_increases((attempt - 1) as nat, (later - 1) as nat);
    }
    if attempt > 4 {
        lemma_pow2_strictly_increases(3, (attempt - 1) as nat);
    }
    if attempt > 1 {
        lemma_pow2_strictly_increases(0, (attempt - 1) as nat);
    }
    if later > 1 {
        lemma_pow2_strictly_increases(0, (later - 1) as nat);
    }
}

/// The state reported with a step: fatal exactly when supervision ends in failure, running
/// exactly when the listener is being watched, recovering exactly after an exit.
pub proof fn law_reported_state(history: RestartHistoryView, event: SupervisorEvent)
    ensures
        ({
            let step = supervisor_step(history, event);
            &&& step.lifecycle == Some(ServiceLifecycleState::Fatal) <==> step.action is Fail
            &&& step.lifecycle == Some(ServiceLifecycleState::Running) <==> step.action is Watch
            &&& step.lifecycle == Some(ServiceLifecycleState::RecoveringIpc) <==> event
                is ServerExited
            &&& step.lifecycle == Some(ServiceLifecycleState::Starting) <==> event is Begun
        }),
{
}

/// Supervision ends successfully only after a stop, which is what a shutdown signal leads to. It
/// ends in failure only if the listener cannot be started, cannot be started again, or exits once
/// too often; an exit by itself never ends it.
pub proof fn law_supervision_ends(history: RestartHistoryView, event: SupervisorEvent)
    ensures
        ({
            let action = supervisor_step(history, event).action;
            &&& action is Finish <==> event is ServerStopped
            &&& action is StopServer <==> event is ShutdownRequested
            &&& action is Fail <==> {
                ||| event matches SupervisorEvent::Started(Err(_))
                ||| event matches SupervisorEvent::Rebuilt(Err(_))
                ||| event matches SupervisorEvent::ClockRead(now) && !history.admits(now)
            }
        }),
{
}

/// What may happen after an action of the supervisor.
pub open spec fn supervisor_follows(action: SupervisorAction, event: SupervisorEvent) -> bool {
    match action {
        SupervisorAction::Start => event is Started,
        SupervisorAction::Watch => event is ShutdownRequested || event is ServerExited,
        SupervisorAction::ReadClock => event is ClockRead,
        SupervisorAction::Pause(_) => event is PauseElapsed,
        SupervisorAction::Rebuild => event is Rebuilt,
        SupervisorAction::StopServer => event is ServerStopped,
        SupervisorAction::Finish | SupervisorAction::Fail(_) => false,
    }
}

/// The history after these events.
pub open spec fn history_after(events: Seq<SupervisorEvent>) -> RestartHistoryView
    decreases events.len(),
{
    if events.len() == 0 {
        RestartHistoryView::empty()
    } else {
        history_next(history_after(events.drop_last()), events.last())
    }
}

/// The step that the last of these events leads to.
pub open spec fn last_step(events: Seq<SupervisorEvent>) -> SupervisorStep {
    supervisor_step(history_after(events.drop_last()), events.last())
}

/// The events of one supervision, from the first on.
pub open spec fn supervisor_run(events: Seq<SupervisorEvent>) -> bool
    decreases events.len(),
{
    if events.len() <= 1 {
        events.len() == 1 && events[0] is Begun
    } else {
        &&& supervisor_run(events.drop_last())
        &&& supervisor_follows(last_step(events.drop_last()).action, events.last())
    }
}

/// The states that were reported in the course of these events.
pub open spec fn reported(events: Seq<SupervisorEvent>) -> Seq<ServiceLifecycleState>
    decreases events.len(),
{
    if events.len() == 0 {
        Seq::empty()
    } else {
        match last_step(events).lifecycle {
            Some(state) => reported(events.drop_last()).push(state),
            None => reported(events.drop_last()),
        }
    }
}

/// The moments at which exits were noticed in the course of these events.
pub open spec fn exits_of(events: Seq<SupervisorEvent>) -> Seq<u128>
    decreases events.len(),
{
    if events.len() == 0 {
        Seq::empty()
    } else {
        match events.last() {
            SupervisorEvent::ClockRead(now) => exits_of(events.drop_last()).push(now),
            _ => exits_of(events.drop_last()),
        }
    }
}

/// The state at `i` of a sequence of reported states: starting first, then running and recovering
/// by turns; in the place of running, and at the end alone, fatal.
pub open spec fn state_in_turn(states: Seq<ServiceLifecycleState>, i: int) -> bool {
    if i == 0 {
        states[i] == ServiceLifecycleState::Starting
    } else if i % 2 == 0 {
        states[i] == ServiceLifecycleState::RecoveringIpc
    } else {
        ||| states[i] == ServiceLifecycleState::Running
        ||| states[i] == ServiceLifecycleState::Fatal && i == states.len() - 1
    }
}

/// What a supervision reports: that it is starting; then that it is running, and after each exit
/// that it is recovering and running again; at the end, exactly if it ends in failure, and only in
/// the place of running, that the failure is fatal.
pub proof fn law_reported_states(events: Seq<SupervisorEvent>)
    requires
        supervisor_run(events),
    ensures
        reported(events).len() > 0,
        forall|i: int|
            0 <= i < reported(events).len() ==> #[trigger] state_in_turn(reported(events), i),
        last_step(events).action is Fail <==> reported(events).last()
            == ServiceLifecycleState::Fatal,
{
    lemma_reported_states(events);
}

/// Running, or fatal, is the last state reported exactly while the listener is watched or stopped,
/// or once supervision has ended.
proof fn lemma_reported_states(events: Seq<SupervisorEvent>)
    requires
        supervisor_run(events),
    ensures
        reported(events).len() > 0,
        reported(events).len() % 2 == 0 <==> {
            let action = last_step(events).action;
            action is Watch || action is StopServer || action is Finish || action is Fail
        },
        forall|i: int|
            0 <= i < reported(events).len() ==> #[trigger] state_in_turn(reported(events), i),
        last_step(events).action is Fail <==> reported(events).last()
            == ServiceLifecycleState::Fatal,
    decreases events.len(),
{
    let before = events.drop_last();
    if events.len() == 1 {
        assert(reported(before) == Seq::<ServiceLifecycleState>::empty());
        assert(reported(events) == seq![ServiceLifecycleState::Starting]);
    } else {
        lemma_reported_states(before);
        let earlier = reported(before);
        assert(earlier.last() != ServiceLifecycleState::Fatal);
        assert forall|i: int| 0 <= i < reported(events).len() implies #[trigger] state_in_turn(
            reported(events),
            i,
        ) by {
            if i < earlier.len() {
                assert(state_in_turn(earlier, i));
                assert(reported(events)[i] == earlier[i]);
            }
        }
    }
}

/// A supervision ends successfully only after a shutdown signal and the one stop that follows it.
pub proof fn law_success_follows_shutdown(events: Seq<SupervisorEvent>)
    requires
        supervisor_run(events),
        last_step(events).action is Finish,
    ensures
        events.len() >= 3,
        events.last() is ServerStopped,
        events[events.len() - 2] is ShutdownRequested,
        forall|i: int|
            0 <= i < events.len() - 2 ==> !((#[trigger] events[i]) is ShutdownRequested)
                && !(events[i] is ServerStopped),
{
    let before = events.drop_last();
    assert(supervisor_run(before));
    assert(before.last() is ShutdownRequested);
    assert(before.len() > 1);
    let watched = before.drop_last();
    assert(last_step(watched).action is Watch);
    lemma_watched_is_not_stopped(watched);
    assert forall|i: int| 0 <= i < events.len() - 2 implies !((#[trigger] events[i])
        is ShutdownRequested) && !(events[i] is ServerStopped) by {
        assert(watched[i] == events[i]);
    }
}

/// A supervision that goes on was not told to shut down.
proof fn lemma_watched_is_not_stopped(events: Seq<SupervisorEvent>)
    requires
        supervisor_run(events),
        !(last_step(events).action is StopServer),
        !(last_step(events).action is Finish),
    ensures
        forall|i: int|
            0 <= i < events.len() ==> !((#[trigger] events[i]) is ShutdownRequested)
                && !(events[i] is ServerStopped),
    decreases events.len(),
{
    if events.len() > 1 {
        let before = events.drop_last();
        lemma_watched_is_not_stopped(before);
        assert forall|i: int| 0 <= i < events.len() implies !((#[trigger] events[i])
            is ShutdownRequested) && !(events[i] is ServerStopped) by {
            if i < before.len() {
                assert(before[i] == events[i]);
            }
        }
    }
}

/// What holds of runs of exits holds of every supervision: its history is that of the exits it
/// noticed, until one of them exhausts the budget, with which it ends in failure.
pub proof fn law_supervision_keeps_the_history(events: Seq<SupervisorEvent>)
    requires
        supervisor_run(events),
    ensures
        history_of(exits_of(events)) is None <==> (last_step(events).action matches
            SupervisorAction::Fail(failure) && failure is TooManyRestarts),
        history_of(exits_of(events)) is Some ==> history_of(exits_of(events)) == Some(
            history_after(events),
        ),
    decreases events.len(),
{
    let before = events.drop_last();
    if events.len() == 1 {
        assert(exits_of(before) == Seq::<u128>::empty());
        assert(exits_of(events) == Seq::<u128>::empty());
    } else {
        law_supervision_keeps_the_history(before);
        match events.last() {
            SupervisorEvent::ClockRead(now) => {
                assert(exits_of(events).drop_last() == exits_of(before));
            },
            _ => {},
        }
    }
}

/// Giving up always names the same number of restarts.
pub proof fn law_give_up_message(history: RestartHistory, now: u128)
    requires
        history.wf(),
        !history@.admits(now),
    ensures
        exit_step(history@, now).action == SupervisorAction::Fail(
            SupervisorFailure::TooManyRestarts(11),
        ),
        SupervisorFailure::TooManyRestarts(11).text()
            == "IPC server restarted 11 times in 10s"@,
{
    history@.moments.lemma_filter_len(|moment: u128| in_window(now, moment));
    lemma_give_up_text();
}

/// The pauses: none, then a tenth of a second, doubled twice, and half a second from then on.
pub proof fn law_backoff_values(attempt: nat)
    ensures
        attempt == 0 ==> backoff_millis(attempt) == 0,
        attempt == 1 ==> backoff_millis(attempt) == 100,
        attempt == 2 ==> backoff_millis(attempt) == 200,
        attempt == 3 ==> backoff_millis(attempt) == 400,
        attempt >= 4 ==> backoff_millis(attempt) == 500,
{
    lemma2_to64();
    law_backoff_shape(attempt, attempt);
}

/// What counts at a moment: exactly what lies less than ten seconds back, in its order, and what
/// lies ahead.
pub proof fn law_what_counts(moments: Seq<u128>, moment: u128, now: u128)
    ensures
        recent(Seq::empty(), now) == Seq::<u128>::empty(),
        now < moment + 10_000_000_000 ==> recent(moments.push(moment), now) == recent(
            moments,
            now,
        ).push(moment),
        now >= moment + 10_000_000_000 ==> recent(moments.push(moment), now) == recent(moments, now),
        in_window(now, moment) <==> now < moment + 10_000_000_000,
{
    reveal(Seq::filter);
    assert(moments.push(moment).drop_last() == moments);
}

/// What follows from an exit, whatever restarts are on record: of those that still count, nine leave
/// room for one more, which is then put on record with them, and ten do not. The restart is the
/// first of its row exactly if none counts. It can be counted unless 32 bits are used up by the row.
pub proof fn law_exit_is_put_on_record(history: RestartHistoryView, now: u128)
    requires
        history.attempt <= u32::MAX,
        history.moments.len() <= u32::MAX,
    ensures
        ({
            let kept = recent(history.moments, now);
            let after = history.after(now);
            &&& kept.len() <= 9 <==> history.decision(now) is Restart
            &&& kept.len() >= 10 ==> history.decision(now) == RestartDecision::GiveUp(
                (kept.len() + 1) as u64,
            ) && after == history
            &&& kept.len() <= 9 ==> after.moments == kept.push(now)
            &&& kept.len() == 0 ==> history.decision(now) == RestartDecision::Restart(0)
                && after.attempt == 1
            &&& 0 < kept.len() <= 9 ==> history.decision(now) == RestartDecision::Restart(
                history.attempt as u32,
            ) && after.attempt == history.attempt + 1
            &&& history.counts(now) <==> history.attempt < u32::MAX || kept.len() == 0 || kept.len()
                >= 10
        }),
{
}

/// What the supervisor does, whatever restarts are on record. Every exit is timed. Every exit that
/// is timed is answered by a restart, at once or after the pause of its attempt, or by giving up.
/// Nothing is rebuilt but after that. Every failure to start ends supervision with its reason.
pub proof fn law_every_event_is_answered(
    history: RestartHistoryView,
    event: SupervisorEvent,
    delay: Duration,
    failure: SupervisorFailure,
)
    requires
        history.attempt <= u32::MAX,
        history.moments.len() <= u32::MAX,
    ensures
        ({
            let action = supervisor_step(history, event).action;
            &&& action is ReadClock <==> event is ServerExited
            &&& action is Start <==> event is Begun
            &&& action is Watch <==> {
                ||| event matches SupervisorEvent::Started(Ok(_))
                ||| event matches SupervisorEvent::Rebuilt(Ok(_))
            }
            &&& action is StopServer <==> event is ShutdownRequested
            &&& action is Finish <==> event is ServerStopped
            &&& action is Rebuild <==> {
                ||| event is PauseElapsed
                ||| event matches SupervisorEvent::ClockRead(now) && history.decision(now)
                    == RestartDecision::Restart(0)
            }
            &&& action == SupervisorAction::Pause(delay) <==> (event matches
                SupervisorEvent::ClockRead(now) && (history.decision(now) matches
                RestartDecision::Restart(attempt) && attempt > 0 && delay == duration_of_millis(
                if attempt == 1 {
                    100
                } else if attempt == 2 {
                    200
                } else if attempt == 3 {
                    400
                } else {
                    500
                },
            )))
            &&& action == SupervisorAction::Fail(failure) <==> {
                ||| event matches SupervisorEvent::Started(Err(reason)) && failure
                    == SupervisorFailure::StartFailed(reason)
                ||| event matches SupervisorEvent::Rebuilt(Err(reason)) && failure
                    == SupervisorFailure::RebuildFailed(reason)
                ||| event matches SupervisorEvent::ClockRead(now) && (history.decision(
                    now,
                ) matches RestartDecision::GiveUp(restarts) && failure
                    == SupervisorFailure::TooManyRestarts(restarts))
            }
        }),
{
    if let SupervisorEvent::ClockRead(now) = event {
        law_backoff_values(history.attempt_at(now));
    }
}

/// What is on record changes by an exit that is timed, and by nothing else.
pub proof fn law_only_exits_are_put_on_record(history: RestartHistoryView, event: SupervisorEvent)
    ensures
        !(event is ClockRead) ==> history_next(history, event) == history,
        event matches SupervisorEvent::ClockRead(now) ==> history_next(history, event)
            == history.after(now),
{
}

/// How many exits were noticed in the course of these events.
pub open spec fn exits_noticed(events: Seq<SupervisorEvent>) -> nat
    decreases events.len(),
{
    if events.len() == 0 {
        0
    } else {
        exits_noticed(events.drop_last()) + if events.last() is ServerExited {
            1nat
        } else {
            0nat
        }
    }
}

/// How often the listener was rebuilt, or could not be, in the course of these events.
pub open spec fn rebuilds(events: Seq<SupervisorEvent>) -> nat
    decreases events.len(),
{
    if events.len() == 0 {
        0
    } else {
        rebuilds(events.drop_last()) + if events.last() is Rebuilt {
            1nat
        } else {
            0nat
        }
    }
}

/// In every supervision each exit is timed, and so put on record, exactly once, before anything
/// else is done, and the listener is rebuilt once at most for each of them.
pub proof fn law_every_exit_is_counted(events: Seq<SupervisorEvent>)
    requires
        supervisor_run(events),
    ensures
        exits_noticed(events) == exits_of(events).len() + if events.last() is ServerExited {
            1nat
        } else {
            0nat
        },
        rebuilds(events) <= exits_of(events).len(),
        last_step(events).action is Rebuild || last_step(events).action is Pause ==> rebuilds(events)
            + 1 <= exits_of(events).len(),
    decreases events.len(),
{
    let before = events.drop_last();
    if events.len() == 1 {
        assert(exits_noticed(before) == 0);
        assert(rebuilds(before) == 0);
        assert(exits_of(before).len() == 0);
    } else {
        law_every_exit_is_counted(before);
    }
}

/// No more restarts are on record than the budget has.
proof fn lemma_history_within_budget(exits: Seq<u128>)
    requires
        history_of(exits) is Some,
    ensures
        history_of(exits)->0.moments.len() <= 10,
    decreases exits.len(),
{
    if exits.len() > 0 {
        lemma_history_within_budget(exits.drop_last());
    }
}

/// A supervision never outlives eleven exits within ten seconds: the last of them ends it, in
/// failure, as fatal, and with a text that says so.
pub proof fn law_eleven_exits_in_ten_seconds_are_fatal(events: Seq<SupervisorEvent>, i: int)
    requires
        supervisor_run(events),
        in_order(exits_of(events)),
        0 <= i,
        i + 10 < exits_of(events).len(),
        exits_of(events)[i + 10] - exits_of(events)[i] < 10_000_000_000,
    ensures
        i + 10 == exits_of(events).len() - 1,
        last_step(events).lifecycle == Some(ServiceLifecycleState::Fatal),
        last_step(events).action == SupervisorAction::Fail(SupervisorFailure::TooManyRestarts(11)),
        SupervisorFailure::TooManyRestarts(11).text() == "IPC server restarted 11 times in 10s"@,
{
    let exits = exits_of(events);
    law_supervision_keeps_the_history(events);
    if history_of(exits) is Some {
        law_restart_rate(exits, i);
    }
    let before = events.drop_last();
    assert(events.last() is ClockRead);
    let now = events.last()->ClockRead_0;
    law_supervision_keeps_the_history(before);
    assert(exits.drop_last() == exits_of(before));
    assert(history_of(exits_of(before)) is Some);
    if i + 10 < exits.len() - 1 {
        assert(in_order(exits_of(before)));
        law_restart_rate(exits_of(before), i);
    }
    lemma_history_within_budget(exits_of(before));
    let history = history_after(before);
    history.moments.lemma_filter_len(|moment: u128| in_window(now, moment));
    lemma_give_up_text();
}

/// A supervision that ends because of too many restarts had eleven exits within ten seconds.
pub proof fn law_given_up_only_after_eleven_exits(events: Seq<SupervisorEvent>)
    requires
        supervisor_run(events),
        in_order(exits_of(events)),
        last_step(events).action matches SupervisorAction::Fail(failure) && failure
            is TooManyRestarts,
    ensures
        ({
            let n = exits_of(events).len() as int;
            n >= 11 && exits_of(events)[n - 1] - exits_of(events)[n - 11] < 10_000_000_000
        }),
{
    let exits = exits_of(events);
    let before = events.drop_last();
    assert(events.last() is ClockRead);
    let now = events.last()->ClockRead_0;
    law_supervision_keeps_the_history(events);
    law_supervision_keeps_the_history(before);
    assert(exits.drop_last() == exits_of(before));
    assert(exits == exits_of(before).push(now));
    law_gives_up_exactly_over_budget(exits_of(before), now);
}

/// The text of giving up.
proof fn lemma_give_up_text()
    ensures
        SupervisorFailure::TooManyRestarts(11).text() == "IPC server restarted 11 times in 10s"@,
{
    reveal_strlit("IPC server restarted ");
    reveal_strlit(" times in ");
    reveal_strlit("s");
    reveal_strlit("IPC server restarted 11 times in 10s");
    assert(decimal_text(1) == seq![digit_char(1)]);
    assert(decimal_text(11) == seq![digit_char(1), digit_char(1)]);
    assert(decimal_text(10) == seq![digit_char(1), digit_char(0)]);
    assert(SupervisorFailure::TooManyRestarts(11).text()
        =~= "IPC server restarted 11 times in 10s"@);
}

/// A failure is told with its reason, word for word, or with its number.
pub proof fn law_failures_give_their_reason(reason: String, restarts: u64)
    ensures
        SupervisorFailure::StartFailed(reason).text() == "failed to start IPC server: "@ + reason@,
        SupervisorFailure::RebuildFailed(reason).text() == "failed to rebuild IPC server: "@ + reason@,
        SupervisorFailure::TooManyRestarts(restarts).text() == "IPC server restarted "@
            + decimal_text(restarts as nat) + " times in 10s"@,
{
    reveal_strlit(" times in ");
    reveal_strlit("s");
    reveal_strlit(" times in 10s");
    assert(decimal_text(1) == seq![digit_char(1)]);
    assert(decimal_text(10) == seq![digit_char(1), digit_char(0)]);
    assert(SupervisorFailure::TooManyRestarts(restarts).text() =~= "IPC server restarted "@
        + decimal_text(restarts as nat) + " times in 10s"@);
}

} // verus!
