use clash_service_ipc::server::{
    cleanup_ipc_path, cleanup_stale_ipc_socket, create_ipc_server, not_initialized_message, run_ipc_server,
    serve_until_signalled, stop_ipc_server, ListenerAccess, Platform, StaleReached, StaleStep, StartReached, StartStep, StopReached,
    StopStep, TaskReached, TaskStep,
};

#[test]
fn listener_is_protected_as_the_platform_allows() {
    assert_eq!(create_ipc_server(Platform::OtherUnix), ListenerAccess::Mode(0o660));
    assert_eq!(create_ipc_server(Platform::MacOs), ListenerAccess::Default);
    assert_eq!(create_ipc_server(Platform::Windows), ListenerAccess::SecurityDescriptor("D:(A;;GA;;;WD)"));
}

#[test]
fn permission_bits_are_those_of_the_platform() {
    let bits = libc::S_IRUSR | libc::S_IWUSR | libc::S_IRGRP | libc::S_IWGRP;
    assert_eq!(create_ipc_server(Platform::OtherUnix), ListenerAccess::Mode(u32::from(bits)));
}

fn start(reached: StartReached<u8>) -> StartStep<u8> {
    run_ipc_server(reached)
}

fn stale(reached: StaleReached<u8>) -> StaleStep<u8> {
    cleanup_stale_ipc_socket(reached)
}

fn stop(reached: StopReached<u8>) -> StopStep<u8> {
    stop_ipc_server(reached)
}

#[test]
fn start_goes_from_the_directory_to_the_task() {
    assert_eq!(start(StartReached::Begun), StartStep::MakeDirectory);
    assert_eq!(start(StartReached::DirectoryMade(Ok(()))), StartStep::CleanStaleSocket);
    assert_eq!(start(StartReached::StaleSocketCleaned(Ok(()))), StartStep::SetUpServer);
    assert_eq!(start(StartReached::ServerSetUp(Ok(()))), StartStep::InstallSignals);
    assert_eq!(start(StartReached::SignalsInstalled), StartStep::TakeServer);
    assert_eq!(start(StartReached::ServerTaken(true)), StartStep::SpawnTask);
    assert_eq!(start(StartReached::TaskSpawned(false)), StartStep::Finish);
    assert_eq!(start(StartReached::TaskSpawned(true)), StartStep::PollSocket(0));
}

#[test]
fn start_fails_with_the_error_of_what_failed() {
    assert_eq!(start(StartReached::DirectoryMade(Err(1))), StartStep::Fail(1));
    assert_eq!(start(StartReached::StaleSocketCleaned(Err(2))), StartStep::Fail(2));
    assert_eq!(start(StartReached::ServerSetUp(Err(3))), StartStep::Fail(3));
    assert_eq!(start(StartReached::SocketModeSet(Err(4))), StartStep::Fail(4));
    assert_eq!(start(StartReached::ServerTaken(false)), StartStep::NotInitialized);
    assert_eq!(not_initialized_message(), "IPC server not initialized");
}

#[test]
fn socket_that_appears_gets_its_mode() {
    assert_eq!(start(StartReached::SocketPolled(3, true)), StartStep::SetSocketMode(0o777));
    assert_eq!(start(StartReached::SocketModeSet(Ok(()))), StartStep::RequestWatchdog);
    assert_eq!(start(StartReached::WatchdogRequested), StartStep::Finish);
}

#[test]
fn socket_is_looked_for_twenty_times() {
    let mut reached = StartReached::TaskSpawned(true);
    let mut polls = 0;
    let mut waited = 0;
    loop {
        match start(reached) {
            StartStep::PollSocket(poll) => {
                assert_eq!(poll, polls);
                polls += 1;
                reached = StartReached::SocketPolled(poll, false);
            }
            StartStep::PausePolling { poll, millis } => {
                waited += millis;
                reached = StartReached::PollPaused(poll);
            }
            step => {
                assert_eq!(step, StartStep::NoteMissingSocket);
                break;
            }
        }
    }
    assert_eq!(polls, 20);
    assert_eq!(waited, 500);
    assert_eq!(start(StartReached::MissingSocketNoted), StartStep::RequestWatchdog);
    assert_eq!(start(StartReached::PollPaused(u32::MAX)), StartStep::NoteMissingSocket);
}

#[test]
fn left_over_socket_is_removed_and_live_one_kept() {
    assert_eq!(stale(StaleReached::Begun(false)), StaleStep::Finish);
    assert_eq!(stale(StaleReached::Begun(true)), StaleStep::LookFor);
    assert_eq!(stale(StaleReached::LookedFor(false)), StaleStep::Finish);
    assert_eq!(stale(StaleReached::LookedFor(true)), StaleStep::Probe(500));
    assert_eq!(stale(StaleReached::Probed(true)), StaleStep::Finish);
    assert_eq!(stale(StaleReached::Probed(false)), StaleStep::Remove);
    assert_eq!(stale(StaleReached::Removed(Ok(()))), StaleStep::Finish);
    assert_eq!(stale(StaleReached::Removed(Err(5))), StaleStep::Fail(5));
}

#[test]
fn socket_is_removed_after_a_stop_if_it_is_there() {
    assert!(cleanup_ipc_path(true, true));
    assert!(!cleanup_ipc_path(true, false));
    assert!(!cleanup_ipc_path(false, true));
}

#[test]
fn stop_signals_waits_and_cleans_up() {
    assert_eq!(stop(StopReached::Begun), StopStep::StopCore);
    assert_eq!(stop(StopReached::CoreStopped), StopStep::TakeSender);
    assert_eq!(stop(StopReached::SenderTaken(true)), StopStep::Signal);
    assert_eq!(stop(StopReached::SenderTaken(false)), StopStep::TakeReceiver);
    assert_eq!(stop(StopReached::Signalled), StopStep::TakeReceiver);
    assert_eq!(stop(StopReached::ReceiverTaken(true)), StopStep::AwaitEnd);
    assert_eq!(stop(StopReached::ReceiverTaken(false)), StopStep::ShutDownServer);
    assert_eq!(stop(StopReached::EndAwaited), StopStep::ShutDownServer);
    assert_eq!(stop(StopReached::ServerShutDown), StopStep::LookForSocket);
    let looked = |socket_is_file: bool, exists: bool| stop(StopReached::SocketLookedFor { socket_is_file, exists });
    assert_eq!(looked(true, true), StopStep::RemoveSocket);
    assert_eq!(looked(true, false), StopStep::Finish);
    assert_eq!(looked(false, true), StopStep::Pause(70));
    assert_eq!(looked(false, false), StopStep::Pause(70));
    assert_eq!(stop(StopReached::SocketRemoved(Ok(()))), StopStep::Finish);
    assert_eq!(stop(StopReached::SocketRemoved(Err(6))), StopStep::Fail(6));
    assert_eq!(stop(StopReached::Paused), StopStep::Finish);
}

#[test]
fn task_reports_its_end_before_it_ends() {
    let task = |reached: TaskReached<u8>| serve_until_signalled(reached);
    assert_eq!(task(TaskReached::Begun(true)), TaskStep::SetMask(0o007));
    assert_eq!(task(TaskReached::Begun(false)), TaskStep::Serve);
    assert_eq!(task(TaskReached::MaskSet), TaskStep::Serve);
    assert_eq!(task(TaskReached::Signalled), TaskStep::ReportEnd(Ok(())));
    assert_eq!(task(TaskReached::Served(Err(3))), TaskStep::ReportEnd(Err(3)));
    assert_eq!(task(TaskReached::Served(Ok(()))), TaskStep::ReportEnd(Ok(())));
    assert_eq!(task(TaskReached::EndReported(Ok(()))), TaskStep::Finish(Ok(())));
    assert_eq!(task(TaskReached::EndReported(Err(3))), TaskStep::Finish(Err(3)));
}
