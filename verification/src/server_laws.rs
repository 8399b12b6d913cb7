//! What holds of whole starts and stops of the IPC listener.

use crate::server::stale_step;
use crate::server::start_step;
use crate::server::stop_step;
use crate::server::task_step;
use crate::server::StaleReached;
use crate::server::StaleStep;
use crate::server::StartReached;
use crate::server::StartStep;
use crate::server::StopReached;
use crate::server::StopStep;
use crate::server::TaskReached;
use crate::server::TaskStep;
use crate::server::SOCKET_MODE;
use crate::server::SOCKET_POLLS;
use crate::server::SOCKET_POLL_MILLIS;
use vstd::prelude::*;

verus! {

/// What may be reported after a step of a start.
pub open spec fn start_follows<E>(step: StartStep<E>, reached: StartReached<E>) -> bool {
    match step {
        StartStep::MakeDirectory => reached is DirectoryMade,
        StartStep::CleanStaleSocket => reached is StaleSocketCleaned,
        StartStep::SetUpServer => reached is ServerSetUp,
        StartStep::InstallSignals => reached is SignalsInstalled,
        StartStep::TakeServer => reached is ServerTaken,
        StartStep::SpawnTask => reached is TaskSpawned,
        StartStep::PollSocket(poll) => reached matches StartReached::SocketPolled(polled, _)
            && polled == poll,
        StartStep::PausePolling { poll, .. } => reached == StartReached::<E>::PollPaused(poll),
        StartStep::SetSocketMode(_) => reached is SocketModeSet,
        StartStep::NoteMissingSocket => reached is MissingSocketNoted,
        StartStep::RequestWatchdog => reached is WatchdogRequested,
        StartStep::Finish | StartStep::Fail(_) | StartStep::NotInitialized => false,
    }
}

/// Whether the report at `i` may follow the one before it.
pub open spec fn start_link<E>(reports: Seq<StartReached<E>>, i: int) -> bool {
    start_follows(start_step(reports[i - 1]), reports[i])
}

/// The reports of one start, from the first on.
pub open spec fn start_run<E>(reports: Seq<StartReached<E>>) -> bool {
    &&& reports.len() > 0
    &&& reports[0] is Begun
    &&& forall|i: int| 0 < i < reports.len() ==> #[trigger] start_link(reports, i)
}

/// How far along a report stands: after the six operations that lead to a task, two reports for
/// each look at the socket.
spec fn stage<E>(reached: StartReached<E>) -> int {
    match reached {
        StartReached::Begun => 0,
        StartReached::DirectoryMade(_) => 1,
        StartReached::StaleSocketCleaned(_) => 2,
        StartReached::ServerSetUp(_) => 3,
        StartReached::SignalsInstalled => 4,
        StartReached::ServerTaken(_) => 5,
        StartReached::TaskSpawned(_) => 6,
        StartReached::SocketPolled(poll, _) => 7 + 2 * poll,
        StartReached::PollPaused(poll) => 8 + 2 * poll,
        StartReached::SocketModeSet(_) => 7 + 2 * SOCKET_POLLS,
        StartReached::MissingSocketNoted => 7 + 2 * SOCKET_POLLS,
        StartReached::WatchdogRequested => 8 + 2 * SOCKET_POLLS,
    }
}

/// Reports move forward, and only the looks that the budget has are taken.
proof fn lemma_start_stages<E>(reports: Seq<StartReached<E>>, i: int, j: int)
    requires
        start_run(reports),
        0 <= i <= j < reports.len(),
    ensures
        stage(reports[i]) + (j - i) <= stage(reports[j]),
        reports[j] matches StartReached::SocketPolled(poll, _) ==> poll < SOCKET_POLLS,
        reports[j] matches StartReached::PollPaused(poll) ==> poll < SOCKET_POLLS,
    decreases j,
{
    if j > 0 {
        assert(start_link(reports, j));
        if i < j {
            lemma_start_stages(reports, i, j - 1);
        } else {
            lemma_start_stages(reports, 0, j - 1);
        }
    }
}

/// Every start comes to an end: the socket is looked for twenty times at most, which takes half a
/// second of pauses.
pub proof fn law_starts_end<E>(reports: Seq<StartReached<E>>)
    requires
        start_run(reports),
    ensures
        reports.len() <= 9 + 2 * SOCKET_POLLS,
        start_step(reports.last()) matches StartStep::PollSocket(poll) ==> poll < SOCKET_POLLS,
        SOCKET_POLLS * SOCKET_POLL_MILLIS == 500,
{
    lemma_start_stages(reports, 0, reports.len() - 1);
}

/// The first seven reports of a start.
proof fn lemma_start_beginning<E>(reports: Seq<StartReached<E>>)
    requires
        start_run(reports),
    ensures
        reports.len() > 1 ==> reports[1] is DirectoryMade,
        reports.len() > 2 ==> (reports[1] matches StartReached::DirectoryMade(Ok(_)))
            && reports[2] is StaleSocketCleaned,
        reports.len() > 3 ==> (reports[2] matches StartReached::StaleSocketCleaned(Ok(_)))
            && reports[3] is ServerSetUp,
        reports.len() > 4 ==> (reports[3] matches StartReached::ServerSetUp(Ok(_)))
            && reports[4] is SignalsInstalled,
        reports.len() > 5 ==> reports[5] is ServerTaken,
        reports.len() > 6 ==> reports[5] == StartReached::<E>::ServerTaken(true) && reports[6]
            is TaskSpawned,
{
    let n = reports.len();
    if n > 1 {
        assert(start_link(reports, 1));
    }
    if n > 2 {
        assert(start_link(reports, 2));
    }
    if n > 3 {
        assert(start_link(reports, 3));
    }
    if n > 4 {
        assert(start_link(reports, 4));
    }
    if n > 5 {
        assert(start_link(reports, 5));
    }
    if n > 6 {
        assert(start_link(reports, 6));
    }
}

/// A start succeeds only with a server that was set up in a directory that was made, after
/// left-over sockets were dealt with, and that runs in its task.
pub proof fn law_started_means_set_up<E>(reports: Seq<StartReached<E>>)
    requires
        start_run(reports),
        start_step(reports.last()) is Finish,
    ensures
        reports.len() >= 7,
        reports[1] matches StartReached::DirectoryMade(Ok(_)),
        reports[2] matches StartReached::StaleSocketCleaned(Ok(_)),
        reports[3] matches StartReached::ServerSetUp(Ok(_)),
        reports[5] == StartReached::<E>::ServerTaken(true),
        reports[6] is TaskSpawned,
{
    lemma_start_beginning(reports);
}

/// Where the socket is a file, a start succeeds only after the directory's watchdog was asked
/// for, and after the socket either got its mode or was noted as missing.
pub proof fn law_started_means_watched<E>(reports: Seq<StartReached<E>>)
    requires
        start_run(reports),
        start_step(reports.last()) is Finish,
        reports.len() > 6 ==> reports[6] == StartReached::<E>::TaskSpawned(true),
    ensures
        ({
            let n = reports.len() as int;
            &&& n >= 9
            &&& reports[n - 1] is WatchdogRequested
            &&& {
                ||| (reports[n - 2] matches StartReached::SocketModeSet(Ok(_))) && start_step(
                    reports[n - 3],
                ) == StartStep::<E>::SetSocketMode(SOCKET_MODE)
                ||| reports[n - 2] is MissingSocketNoted && reports[n - 3]
                    == StartReached::<E>::PollPaused((SOCKET_POLLS - 1) as u32)
            }
        }),
{
    let n = reports.len() as int;
    lemma_start_beginning(reports);
    if n == 7 {
        assert(start_step(reports[6]) is PollSocket);
    } else {
        lemma_start_stages(reports, 6, n - 1);
        assert(start_link(reports, n - 1));
        if n == 8 {
            assert(start_link(reports, 7));
        }
        assert(start_link(reports, n - 2));
        lemma_start_stages(reports, 6, n - 3);
    }
}

/// What may be reported after a step of the removal of a left-over socket.
pub open spec fn stale_follows<E>(step: StaleStep<E>, reached: StaleReached<E>) -> bool {
    match step {
        StaleStep::LookFor => reached is LookedFor,
        StaleStep::Probe(_) => reached is Probed,
        StaleStep::Remove => reached is Removed,
        StaleStep::Finish | StaleStep::Fail(_) => false,
    }
}

/// Whether the report at `i` may follow the one before it.
pub open spec fn stale_link<E>(reports: Seq<StaleReached<E>>, i: int) -> bool {
    stale_follows(stale_step(reports[i - 1]), reports[i])
}

/// The reports of one such removal, from the first on.
pub open spec fn stale_run<E>(reports: Seq<StaleReached<E>>) -> bool {
    &&& reports.len() > 0
    &&& reports[0] is Begun
    &&& forall|i: int| 0 < i < reports.len() ==> #[trigger] stale_link(reports, i)
}

/// A socket is removed before a start exactly if it is a file, is there, and nobody answers at it
/// in time; the removal, and nothing else, can fail.
pub proof fn law_live_socket_stays<E>(reports: Seq<StaleReached<E>>)
    requires
        stale_run(reports),
    ensures
        reports.len() <= 4,
        stale_step(reports.last()) is Remove <==> reports == seq![
            StaleReached::<E>::Begun(true),
            StaleReached::LookedFor(true),
            StaleReached::Probed(false),
        ],
        stale_step(reports.last()) is Fail <==> (reports.last() matches StaleReached::Removed(Err(_))),
{
    if reports.len() > 1 {
        assert(stale_link(reports, 1));
    }
    if reports.len() > 2 {
        assert(stale_link(reports, 2));
    }
    if reports.len() > 3 {
        assert(stale_link(reports, 3));
    }
    if reports.len() > 4 {
        assert(stale_link(reports, 4));
    }
    if stale_step(reports.last()) is Remove {
        assert(reports =~= seq![
            StaleReached::<E>::Begun(true),
            StaleReached::LookedFor(true),
            StaleReached::Probed(false),
        ]);
    }
}

/// What may be reported after a step of a stop.
pub open spec fn stop_follows<E>(step: StopStep<E>, reached: StopReached<E>) -> bool {
    match step {
        StopStep::StopCore => reached is CoreStopped,
        StopStep::TakeSender => reached is SenderTaken,
        StopStep::Signal => reached is Signalled,
        StopStep::TakeReceiver => reached is ReceiverTaken,
        StopStep::AwaitEnd => reached is EndAwaited,
        StopStep::ShutDownServer => reached is ServerShutDown,
        StopStep::LookForSocket => reached is SocketLookedFor,
        StopStep::RemoveSocket => reached is SocketRemoved,
        StopStep::Pause(_) => reached is Paused,
        StopStep::Finish | StopStep::Fail(_) => false,
    }
}

/// Whether the report at `i` may follow the one before it.
pub open spec fn stop_link<E>(reports: Seq<StopReached<E>>, i: int) -> bool {
    stop_follows(stop_step(reports[i - 1]), reports[i])
}

/// The reports of one stop, from the first on.
pub open spec fn stop_run<E>(reports: Seq<StopReached<E>>) -> bool {
    &&& reports.len() > 0
    &&& reports[0] is Begun
    &&& forall|i: int| 0 < i < reports.len() ==> #[trigger] stop_link(reports, i)
}

/// How far along a report of a stop stands.
spec fn stop_stage<E>(reached: StopReached<E>) -> int {
    match reached {
        StopReached::Begun => 0,
        StopReached::CoreStopped => 1,
        StopReached::SenderTaken(_) => 2,
        StopReached::Signalled => 3,
        StopReached::ReceiverTaken(_) => 4,
        StopReached::EndAwaited => 5,
        StopReached::ServerShutDown => 6,
        StopReached::SocketLookedFor { .. } => 7,
        StopReached::SocketRemoved(_) => 8,
        StopReached::Paused => 8,
    }
}

proof fn lemma_stop_stages<E>(reports: Seq<StopReached<E>>, i: int, j: int)
    requires
        stop_run(reports),
        0 <= i <= j < reports.len(),
    ensures
        stop_stage(reports[i]) + (j - i) <= stop_stage(reports[j]),
    decreases j - i,
{
    if i < j {
        lemma_stop_stages(reports, i, j - 1);
        assert(stop_link(reports, j));
    }
}

/// Every stop comes to an end, the core is stopped first of all, and the server is shut down before
/// the stop ends. A stop that succeeds leaves no socket behind: it is no file, or was not there, or
/// was removed; a stop fails only with the error of that removal.
pub proof fn law_stops_end<E>(reports: Seq<StopReached<E>>)
    requires
        stop_run(reports),
    ensures
        ({
            let n = reports.len() as int;
            &&& n <= 9
            &&& n >= 2 ==> reports[1] is CoreStopped
            &&& stop_step(reports.last()) matches StopStep::Fail(error) ==> {
                &&& n >= 3
                &&& reports[n - 1] == StopReached::<E>::SocketRemoved(Err(error))
                &&& reports[n - 2] == (StopReached::<E>::SocketLookedFor {
                    socket_is_file: true,
                    exists: true,
                })
                &&& reports[n - 3] is ServerShutDown
            }
            &&& stop_step(reports.last()) is Finish ==> {
                ||| {
                    &&& n >= 2
                    &&& reports[n - 1] == (StopReached::<E>::SocketLookedFor {
                        socket_is_file: true,
                        exists: false,
                    })
                    &&& reports[n - 2] is ServerShutDown
                }
                ||| {
                    &&& n >= 3
                    &&& reports[n - 1] matches StopReached::SocketRemoved(Ok(_))
                    &&& reports[n - 2] == (StopReached::<E>::SocketLookedFor {
                        socket_is_file: true,
                        exists: true,
                    })
                    &&& reports[n - 3] is ServerShutDown
                }
                ||| {
                    &&& n >= 3
                    &&& reports[n - 1] is Paused
                    &&& reports[n - 2] matches StopReached::SocketLookedFor { socket_is_file, .. }
                        && !socket_is_file
                    &&& reports[n - 3] is ServerShutDown
                }
            }
        }),
{
    let n = reports.len() as int;
    lemma_stop_stages(reports, 0, n - 1);
    if n >= 2 {
        assert(stop_link(reports, 1));
        assert(stop_link(reports, n - 1));
    }
    if n >= 3 {
        assert(stop_link(reports, n - 2));
    }
}

/// The middle of a stop: whether there is a means to signal the end is asked first, and then
/// whether there is one to learn of it.
proof fn lemma_stop_middle<E>(reports: Seq<StopReached<E>>)
    requires
        stop_run(reports),
        stop_step(reports.last()) is Finish || stop_step(reports.last()) is Fail,
    ensures
        reports.len() > 4,
        reports[2] is SenderTaken,
        reports[2] == StopReached::<E>::SenderTaken(true) ==> reports[3] is Signalled && reports[4]
            is ReceiverTaken,
        reports[2] == StopReached::<E>::SenderTaken(false) ==> reports[3] is ReceiverTaken,
{
    let n = reports.len();
    if n > 1 {
        assert(stop_link(reports, 1));
    }
    if n > 2 {
        assert(stop_link(reports, 2));
    }
    if n > 3 {
        assert(stop_link(reports, 3));
    }
    if n > 4 {
        assert(stop_link(reports, 4));
    }
}

/// In a stop that has ended, wherever there was a means to signal the end to a listener, the end
/// was signalled, and wherever there was a means to learn of its end, the end was waited for, right
/// after that and before the server was shut down. Both were asked for.
pub proof fn law_stops_signal_and_wait<E>(reports: Seq<StopReached<E>>)
    requires
        stop_run(reports),
        stop_step(reports.last()) is Finish || stop_step(reports.last()) is Fail,
    ensures
        exists|i: int| 0 <= i < reports.len() && #[trigger] reports[i] is SenderTaken,
        exists|i: int| 0 <= i < reports.len() && #[trigger] reports[i] is ReceiverTaken,
        forall|i: int|
            0 <= i < reports.len() && #[trigger] reports[i] == StopReached::<E>::SenderTaken(true)
                ==> i + 1 < reports.len() && reports[i + 1] is Signalled,
        forall|i: int|
            0 <= i < reports.len() && #[trigger] reports[i] == StopReached::<E>::ReceiverTaken(true)
                ==> i + 1 < reports.len() && reports[i + 1] is EndAwaited,
{
    let n = reports.len() as int;
    lemma_stop_middle(reports);
    assert(reports[2] is SenderTaken);
    assert(reports[3] is ReceiverTaken || reports[4] is ReceiverTaken);
    assert forall|i: int|
        0 <= i < n && #[trigger] reports[i] == StopReached::<E>::SenderTaken(true) implies i + 1 < n
        && reports[i + 1] is Signalled by {
        if i + 1 < n {
            assert(stop_link(reports, i + 1));
        }
    }
    assert forall|i: int|
        0 <= i < n && #[trigger] reports[i] == StopReached::<E>::ReceiverTaken(true) implies i + 1
        < n && reports[i + 1] is EndAwaited by {
        if i + 1 < n {
            assert(stop_link(reports, i + 1));
        }
    }
}

/// What may be reported after a step of the listener's task.
pub open spec fn task_follows<E>(step: TaskStep<E>, reached: TaskReached<E>) -> bool {
    match step {
        TaskStep::SetMask(_) => reached is MaskSet,
        TaskStep::Serve => reached is Served || reached is Signalled,
        TaskStep::ReportEnd(outcome) => reached == TaskReached::<E>::EndReported(outcome),
        TaskStep::Finish(_) => false,
    }
}

/// Whether the report at `i` may follow the one before it.
pub open spec fn task_link<E>(reports: Seq<TaskReached<E>>, i: int) -> bool {
    task_follows(task_step(reports[i - 1]), reports[i])
}

/// The reports of one task of a listener, from the first on.
pub open spec fn task_run<E>(reports: Seq<TaskReached<E>>) -> bool {
    &&& reports.len() > 0
    &&& reports[0] is Begun
    &&& forall|i: int| 0 < i < reports.len() ==> #[trigger] task_link(reports, i)
}

/// The task of a listener ends after it was reported that it ends: without an error if the end was
/// signalled to it, and otherwise as the server ended.
pub proof fn law_tasks_report_their_end<E>(reports: Seq<TaskReached<E>>)
    requires
        task_run(reports),
        task_step(reports.last()) is Finish,
    ensures
        ({
            let n = reports.len() as int;
            &&& 3 <= n <= 4
            &&& reports[n - 1] is EndReported
            &&& reports[n - 2] is Signalled || reports[n - 2] is Served
            &&& reports[n - 2] is Signalled ==> task_step(reports[n - 1]) == TaskStep::<E>::Finish(
                Ok(()),
            )
            &&& reports[n - 2] matches TaskReached::Served(outcome) ==> task_step(reports[n - 1])
                == TaskStep::<E>::Finish(outcome)
        }),
{
    let n = reports.len();
    if n > 1 {
        assert(task_link(reports, 1));
    }
    if n > 2 {
        assert(task_link(reports, 2));
    }
    if n > 3 {
        assert(task_link(reports, 3));
    }
    if n > 4 {
        assert(task_link(reports, 4));
    }
}

/// A stop of a listener that runs, and has not been stopped, is over only when its task has ended:
/// the end was signalled and waited for, the task has reported its end, and its outcome is no error
/// if the signal reached it.
///
/// What is waited for is the task's own report: the wait is over only if that was made.
pub proof fn law_stopped_listener_has_ended<E>(
    stop: Seq<StopReached<E>>,
    sender: int,
    receiver: int,
    task: Seq<TaskReached<E>>,
)
    requires
        stop_run(stop),
        stop_step(stop.last()) is Finish || stop_step(stop.last()) is Fail,
        0 <= sender < stop.len(),
        stop[sender] == StopReached::<E>::SenderTaken(true),
        0 <= receiver < stop.len(),
        stop[receiver] == StopReached::<E>::ReceiverTaken(true),
        task_run(task),
        (exists|i: int| 0 <= i < stop.len() && #[trigger] stop[i] is EndAwaited)
            ==> task.last() is EndReported,
    ensures
        stop[sender + 1] is Signalled,
        stop[receiver + 1] is EndAwaited,
        task_step(task.last()) is Finish,
        task[task.len() - 2] is Signalled ==> task_step(task.last()) == TaskStep::<E>::Finish(
            Ok(()),
        ),
        task[task.len() - 2] is Signalled || task[task.len() - 2] is Served,
{
    law_stops_signal_and_wait(stop);
    assert(stop[receiver + 1] is EndAwaited);
    law_tasks_report_their_end(task);
}

/// A start whose directory, left-over socket or server could not be dealt with ends there, with the
/// error of that, and nothing was started: no means to signal an end was put in place and no task
/// was run.
pub proof fn law_failed_start_starts_nothing<E>(reports: Seq<StartReached<E>>, i: int, error: E)
    requires
        start_run(reports),
        0 <= i < reports.len(),
        ({
            ||| reports[i] == StartReached::<E>::DirectoryMade(Err(error))
            ||| reports[i] == StartReached::<E>::StaleSocketCleaned(Err(error))
            ||| reports[i] == StartReached::<E>::ServerSetUp(Err(error))
        }),
    ensures
        i == reports.len() - 1,
        start_step(reports.last()) == StartStep::<E>::Fail(error),
        forall|j: int|
            0 <= j < reports.len() ==> {
                let step = #[trigger] start_step(reports[j]);
                !(step is InstallSignals) && !(step is SpawnTask)
            },
{
    if i + 1 < reports.len() {
        assert(start_link(reports, i + 1));
    }
    assert forall|j: int| 0 <= j < reports.len() implies {
        let step = #[trigger] start_step(reports[j]);
        !(step is InstallSignals) && !(step is SpawnTask)
    } by {
        lemma_start_stages(reports, j, i);
    }
}

/// A start without a server to take ends without a task.
pub proof fn law_start_without_a_server_runs_no_task<E>(reports: Seq<StartReached<E>>)
    requires
        start_run(reports),
        start_step(reports.last()) is NotInitialized,
    ensures
        forall|j: int|
            0 <= j < reports.len() ==> !((#[trigger] start_step(reports[j])) is SpawnTask),
{
    let n = reports.len() as int;
    assert forall|j: int| 0 <= j < n implies !((#[trigger] start_step(reports[j])) is SpawnTask) by {
        lemma_start_stages(reports, j, n - 1);
    }
}

/// What a start does up to its task, and when: each operation follows the success of the one before
/// it, and every failure ends the start with its own error.
pub proof fn law_start_goes_on_after_success<E>(reached: StartReached<E>, error: E)
    ensures
        ({
            let step = start_step(reached);
            &&& step is MakeDirectory <==> reached is Begun
            &&& step is CleanStaleSocket <==> (reached matches StartReached::DirectoryMade(Ok(_)))
            &&& step is SetUpServer <==> (reached matches StartReached::StaleSocketCleaned(Ok(_)))
            &&& step is InstallSignals <==> (reached matches StartReached::ServerSetUp(Ok(_)))
            &&& step is TakeServer <==> reached is SignalsInstalled
            &&& step is SpawnTask <==> reached == StartReached::<E>::ServerTaken(true)
            &&& step is NotInitialized <==> reached == StartReached::<E>::ServerTaken(false)
            &&& step == StartStep::<E>::Fail(error) <==> {
                ||| reached == StartReached::<E>::DirectoryMade(Err(error))
                ||| reached == StartReached::<E>::StaleSocketCleaned(Err(error))
                ||| reached == StartReached::<E>::ServerSetUp(Err(error))
                ||| reached == StartReached::<E>::SocketModeSet(Err(error))
            }
        }),
{
}

/// What a start does about its socket, and when: at whichever look it is there, everybody may use
/// it from then on; after each look at which it is not, a pause of 25 milliseconds follows and then
/// the next look, up to the twentieth, after which it is noted as missing. Either way the watchdog
/// is asked for.
pub proof fn law_start_looks_for_its_socket<E>(
    reached: StartReached<E>,
    look: u32,
    millis: u64,
    mode: u32,
)
    ensures
        ({
            let step = start_step(reached);
            &&& step == StartStep::<E>::PollSocket(look) <==> {
                ||| look == 0 && reached == StartReached::<E>::TaskSpawned(true)
                ||| 0 < look < 20 && reached == StartReached::<E>::PollPaused((look - 1) as u32)
            }
            &&& step == (StartStep::<E>::PausePolling { poll: look, millis }) <==> millis == 25
                && reached == StartReached::<E>::SocketPolled(look, false)
            &&& step == StartStep::<E>::SetSocketMode(mode) <==> mode == 0o777 && (reached matches
                StartReached::SocketPolled(_, there) && there)
            &&& step is NoteMissingSocket <==> (reached matches StartReached::PollPaused(done)
                && done >= 19)
            &&& step is RequestWatchdog <==> {
                ||| reached matches StartReached::SocketModeSet(Ok(_))
                ||| reached is MissingSocketNoted
            }
            &&& step is Finish <==> {
                ||| reached is WatchdogRequested
                ||| reached == StartReached::<E>::TaskSpawned(false)
            }
        }),
{
}

/// What the removal of a left-over socket does, and when: it removes exactly a socket at which
/// nobody answered within half a second.
pub proof fn law_only_dead_sockets_are_removed<E>(reached: StaleReached<E>, millis: u64, error: E)
    ensures
        ({
            let step = stale_step(reached);
            &&& step is LookFor <==> reached == StaleReached::<E>::Begun(true)
            &&& step == StaleStep::<E>::Probe(millis) <==> millis == 500 && reached
                == StaleReached::<E>::LookedFor(true)
            &&& step is Remove <==> reached == StaleReached::<E>::Probed(false)
            &&& step == StaleStep::<E>::Fail(error) <==> reached == StaleReached::<E>::Removed(
                Err(error),
            )
        }),
{
}

/// What a stop does, and when: it stops the core, signals the end where it can and waits for it where
/// it can, shuts the server down, removes exactly a socket that is a file and is there, and pauses
/// for 70 milliseconds exactly where sockets are no files.
pub proof fn law_stop_leaves_nothing_behind<E>(reached: StopReached<E>, millis: u64, error: E)
    ensures
        ({
            let step = stop_step(reached);
            &&& step is StopCore <==> reached is Begun
            &&& step is TakeSender <==> reached is CoreStopped
            &&& step is Signal <==> reached == StopReached::<E>::SenderTaken(true)
            &&& step is TakeReceiver <==> reached is Signalled || reached
                == StopReached::<E>::SenderTaken(false)
            &&& step is AwaitEnd <==> reached == StopReached::<E>::ReceiverTaken(true)
            &&& step is ShutDownServer <==> reached is EndAwaited || reached
                == StopReached::<E>::ReceiverTaken(false)
            &&& step is LookForSocket <==> reached is ServerShutDown
            &&& step is RemoveSocket <==> reached == (StopReached::<E>::SocketLookedFor {
                socket_is_file: true,
                exists: true,
            })
            &&& step == StopStep::<E>::Pause(millis) <==> millis == 70 && (reached matches
                StopReached::SocketLookedFor { socket_is_file, .. } && !socket_is_file)
            &&& step == StopStep::<E>::Fail(error) <==> reached == StopReached::<E>::SocketRemoved(
                Err(error),
            )
        }),
{
}

/// What the listener's task does, and when: where there is a mask it keeps its files from everybody
/// else first; it ends without an error exactly if the end was signalled or the server ended so, and
/// otherwise with the error of the server.
pub proof fn law_task_ends_as_the_server_did<E>(
    reached: TaskReached<E>,
    mask: u32,
    outcome: Result<(), E>,
)
    ensures
        ({
            let step = task_step(reached);
            &&& step == TaskStep::<E>::SetMask(mask) <==> mask == 0o007 && reached
                == TaskReached::<E>::Begun(true)
            &&& step is Serve <==> reached is MaskSet || reached == TaskReached::<E>::Begun(false)
            &&& step is ReportEnd <==> reached is Served || reached is Signalled
            &&& reached is Signalled ==> step->ReportEnd_0 is Ok
            &&& reached == TaskReached::<E>::Served(outcome) ==> step
                == TaskStep::<E>::ReportEnd(outcome)
            &&& step == TaskStep::<E>::Finish(outcome) <==> reached == TaskReached::<E>::EndReported(
                outcome,
            )
        }),
{
}

} // verus!
