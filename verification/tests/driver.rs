use clash_service_ipc::config::{ClashConfig, CoreConfig, WriterConfig};
use clash_service_ipc::driver::{
    build_failed_message, mock_binary_name, mock_binary_path, not_found_message, not_reachable_message, parse_driver_command, start_flow,
    stop_flow, usage, wait_ipc_ready, DriverCommand, IpcConfig, MockReached, MockStep, ReadyReached, ReadyStep,
    StartFlowReached, StartFlowStep, StopFlowReached, StopFlowStep,
};
use std::time::Duration;

fn args(words: &[&str]) -> Vec<String> {
    words.iter().map(|word| word.to_string()).collect()
}

#[test]
fn commands_are_read_from_the_second_argument() {
    assert_eq!(parse_driver_command(&args(&["driver", "ping"])), Some(DriverCommand::Ping));
    assert_eq!(parse_driver_command(&args(&["driver", "start", "more"])), Some(DriverCommand::Start));
    assert_eq!(parse_driver_command(&args(&["driver", "stop"])), Some(DriverCommand::Stop));
    assert_eq!(parse_driver_command(&args(&["driver", "Stop"])), None);
    assert_eq!(parse_driver_command(&args(&["ping"])), None);
    assert_eq!(parse_driver_command(&args(&[])), None);
    assert_eq!(usage(), "usage: service-integration-driver <ping|start|stop>");
}

#[test]
fn client_is_configured_for_the_wait() {
    assert_eq!(
        wait_ipc_ready(ReadyReached::Begun),
        ReadyStep::Configure(IpcConfig {
            default_timeout: Duration::from_millis(250),
            max_retries: 1,
            retry_delay: Duration::from_millis(25),
        })
    );
    assert_eq!(wait_ipc_ready(ReadyReached::Configured), ReadyStep::ReadClock);
}

#[test]
fn service_is_probed_until_the_timeout() {
    let second: u128 = 1_000_000_000;
    let read = |now: u128| wait_ipc_ready(ReadyReached::ClockRead { start: 5 * second, now });
    assert_eq!(read(5 * second), ReadyStep::Probe);
    assert_eq!(read(25 * second - 1), ReadyStep::Probe);
    assert_eq!(read(25 * second), ReadyStep::Restore(false));
    assert_eq!(wait_ipc_ready(ReadyReached::Probed(false)), ReadyStep::Pause(250));
    assert_eq!(wait_ipc_ready(ReadyReached::Paused), ReadyStep::ReadClock);
    assert_eq!(
        wait_ipc_ready(ReadyReached::ClockRead { start: u128::MAX, now: u128::MAX }),
        ReadyStep::Probe
    );
}

#[test]
fn client_gets_its_configuration_back_either_way() {
    assert_eq!(wait_ipc_ready(ReadyReached::Probed(true)), ReadyStep::Restore(true));
    assert_eq!(wait_ipc_ready(ReadyReached::Restored(true)), ReadyStep::Finish);
    assert_eq!(wait_ipc_ready(ReadyReached::Restored(false)), ReadyStep::TimedOut);
    assert_eq!(not_reachable_message(), format!("IPC server not reachable within {:?}", Duration::from_secs(20)));
}

fn mock(reached: MockReached<u8>) -> MockStep<u8> {
    mock_binary_path(reached)
}

fn flow(reached: StartFlowReached<u8>) -> StartFlowStep<u8> {
    start_flow(reached)
}

#[test]
fn mock_binary_is_built_once_if_missing() {
    assert_eq!(mock(MockReached::Begun), MockStep::LocateDriver);
    assert_eq!(mock(MockReached::DriverLocated(Ok(()))), MockStep::LookFor);
    assert_eq!(mock(MockReached::LookedFor(true)), MockStep::Finish);
    assert_eq!(mock(MockReached::LookedFor(false)), MockStep::Build);
    assert_eq!(mock(MockReached::Built(Ok(true))), MockStep::LookAgain);
    assert_eq!(mock(MockReached::LookedForAgain(true)), MockStep::Finish);
    assert_eq!(mock_binary_name(false), "mock_binary");
    assert_eq!(mock_binary_name(true), "mock_binary.exe");
}

#[test]
fn mock_binary_that_cannot_be_had_is_reported() {
    assert_eq!(mock(MockReached::DriverLocated(Err(1))), MockStep::Fail(1));
    assert_eq!(mock(MockReached::Built(Err(2))), MockStep::Fail(2));
    assert_eq!(mock(MockReached::Built(Ok(false))), MockStep::BuildFailed);
    assert_eq!(mock(MockReached::LookedForAgain(false)), MockStep::NotFound);
    assert_eq!(build_failed_message(), "failed to build mock_binary");
    assert_eq!(not_found_message(), "mock_binary not found after build");
}

#[test]
fn start_uses_the_mock_binary_and_defaults() {
    assert_eq!(flow(StartFlowReached::Begun), StartFlowStep::Wait);
    assert_eq!(flow(StartFlowReached::Waited(Ok(()))), StartFlowStep::LocateBinary);
    assert_eq!(
        flow(StartFlowReached::BinaryLocated(Ok("/bin/mock_binary".to_string()))),
        StartFlowStep::StartCore(ClashConfig {
            core_config: CoreConfig { core_path: "/bin/mock_binary".to_string(), ..Default::default() },
            log_config: WriterConfig::default(),
        })
    );
    assert_eq!(flow(StartFlowReached::CoreStarted(Ok(()))), StartFlowStep::Finish);
}

#[test]
fn start_ends_with_the_first_error() {
    assert_eq!(flow(StartFlowReached::Waited(Err(1))), StartFlowStep::Fail(1));
    assert_eq!(flow(StartFlowReached::BinaryLocated(Err(2))), StartFlowStep::Fail(2));
    assert_eq!(flow(StartFlowReached::CoreStarted(Err(3))), StartFlowStep::Fail(3));
}

#[test]
fn stop_ends_well_whatever_happens() {
    assert_eq!(stop_flow(StopFlowReached::Begun), StopFlowStep::StopCore);
    assert_eq!(stop_flow(StopFlowReached::CoreStopped), StopFlowStep::StopServer);
    assert_eq!(stop_flow(StopFlowReached::ServerStopped), StopFlowStep::Finish);
}
