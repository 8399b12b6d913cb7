use clash_service_ipc::supervisor::{
    ipc_backoff_delay, ipc_backoff_millis, run_ipc_supervisor_until_shutdown, RestartDecision, RestartHistory,
    ServiceLifecycleState, SupervisorAction, SupervisorEvent, SupervisorFailure, SupervisorStep, IPC_RESTART_WINDOW_NANOS,
};
use std::time::Duration;

const SECOND: u128 = 1_000_000_000;

fn act(history: &mut RestartHistory, event: SupervisorEvent) -> SupervisorAction {
    run_ipc_supervisor_until_shutdown(history, event).action
}

#[test]
fn backoff_doubles_up_to_its_cap() {
    let millis: Vec<u64> = (0..7).map(ipc_backoff_millis).collect();
    assert_eq!(millis, vec![0, 100, 200, 400, 500, 500, 500]);
    assert_eq!(ipc_backoff_millis(u32::MAX), 500);
}

#[test]
fn backoff_delay_is_a_duration_of_milliseconds() {
    assert_eq!(ipc_backoff_delay(0), Duration::ZERO);
    assert_eq!(ipc_backoff_delay(2), Duration::from_millis(200));
    assert_eq!(ipc_backoff_delay(9), Duration::from_millis(500));
}

#[test]
fn eleventh_exit_in_a_window_is_given_up() {
    let mut history = RestartHistory::new();
    for i in 0..10u32 {
        assert_eq!(history.record_exit(u128::from(i) * SECOND / 2), RestartDecision::Restart(i));
    }
    assert_eq!(history.record_exit(5 * SECOND), RestartDecision::GiveUp(11));
}

#[test]
fn eleventh_exit_a_window_after_the_first_is_restarted() {
    let mut history = RestartHistory::new();
    for i in 0..10u32 {
        assert_eq!(history.record_exit(u128::from(i)), RestartDecision::Restart(i));
    }
    assert_eq!(history.record_exit(IPC_RESTART_WINDOW_NANOS - 1), RestartDecision::GiveUp(11));
    assert_eq!(history.record_exit(IPC_RESTART_WINDOW_NANOS), RestartDecision::Restart(10));
}

#[test]
fn quiet_window_resets_the_attempts() {
    let mut history = RestartHistory::new();
    assert_eq!(history.record_exit(0), RestartDecision::Restart(0));
    assert_eq!(history.record_exit(SECOND), RestartDecision::Restart(1));
    assert_eq!(history.attempts(), 2);
    assert_eq!(history.record_exit(11 * SECOND), RestartDecision::Restart(0));
    assert_eq!(history.attempts(), 1);
}

#[test]
fn attempts_go_on_counting_while_the_window_is_not_empty() {
    let mut history = RestartHistory::new();
    for i in 0..40u32 {
        assert!(history.can_record(u128::from(i) * 2 * SECOND));
        assert_eq!(history.record_exit(u128::from(i) * 2 * SECOND), RestartDecision::Restart(i));
    }
}

#[test]
fn moment_ahead_of_the_clock_counts_as_now() {
    let mut history = RestartHistory::new();
    assert_eq!(history.record_exit(100 * SECOND), RestartDecision::Restart(0));
    assert_eq!(history.record_exit(SECOND), RestartDecision::Restart(1));
}

#[test]
fn first_start_leads_to_watching() {
    let mut history = RestartHistory::new();
    assert_eq!(
        run_ipc_supervisor_until_shutdown(&mut history, SupervisorEvent::Begun),
        SupervisorStep { lifecycle: Some(ServiceLifecycleState::Starting), action: SupervisorAction::Start }
    );
    assert_eq!(
        run_ipc_supervisor_until_shutdown(&mut history, SupervisorEvent::Started(Ok(()))),
        SupervisorStep { lifecycle: Some(ServiceLifecycleState::Running), action: SupervisorAction::Watch }
    );
}

#[test]
fn failed_first_start_is_fatal() {
    let mut history = RestartHistory::new();
    let step = run_ipc_supervisor_until_shutdown(&mut history, SupervisorEvent::Started(Err("no room".to_string())));
    assert_eq!(step.lifecycle, Some(ServiceLifecycleState::Fatal));
    match step.action {
        SupervisorAction::Fail(failure) => assert_eq!(failure.message(), "failed to start IPC server: no room"),
        other => panic!("{:?}", other),
    }
}

#[test]
fn exit_is_answered_by_a_restart() {
    let mut history = RestartHistory::new();
    let step = run_ipc_supervisor_until_shutdown(&mut history, SupervisorEvent::ServerExited);
    assert_eq!(step.lifecycle, Some(ServiceLifecycleState::RecoveringIpc));
    assert_eq!(step.action, SupervisorAction::ReadClock);
    assert_eq!(act(&mut history, SupervisorEvent::ClockRead(0)), SupervisorAction::Rebuild);
    assert_eq!(
        act(&mut history, SupervisorEvent::ClockRead(SECOND)),
        SupervisorAction::Pause(Duration::from_millis(100))
    );
    assert_eq!(act(&mut history, SupervisorEvent::PauseElapsed), SupervisorAction::Rebuild);
    let step = run_ipc_supervisor_until_shutdown(&mut history, SupervisorEvent::Rebuilt(Ok(())));
    assert_eq!(step.lifecycle, Some(ServiceLifecycleState::Running));
    assert_eq!(step.action, SupervisorAction::Watch);
}

#[test]
fn failed_rebuild_is_fatal() {
    let mut history = RestartHistory::new();
    let step = run_ipc_supervisor_until_shutdown(&mut history, SupervisorEvent::Rebuilt(Err("gone".to_string())));
    assert_eq!(step.lifecycle, Some(ServiceLifecycleState::Fatal));
    assert_eq!(step.action, SupervisorAction::Fail(SupervisorFailure::RebuildFailed("gone".to_string())));
    assert_eq!(
        SupervisorFailure::RebuildFailed("gone".to_string()).message(),
        "failed to rebuild IPC server: gone"
    );
}

#[test]
fn too_many_exits_are_fatal() {
    let mut history = RestartHistory::new();
    for i in 0..10u128 {
        act(&mut history, SupervisorEvent::ClockRead(i));
    }
    let step = run_ipc_supervisor_until_shutdown(&mut history, SupervisorEvent::ClockRead(10));
    assert_eq!(step.lifecycle, Some(ServiceLifecycleState::Fatal));
    match step.action {
        SupervisorAction::Fail(failure) => assert_eq!(failure.message(), "IPC server restarted 11 times in 10s"),
        other => panic!("{:?}", other),
    }
}

#[test]
fn shutdown_stops_the_server_and_ends_well() {
    let mut history = RestartHistory::new();
    assert_eq!(act(&mut history, SupervisorEvent::ShutdownRequested), SupervisorAction::StopServer);
    assert_eq!(act(&mut history, SupervisorEvent::ServerStopped), SupervisorAction::Finish);
}

#[test]
fn pause_goes_by_the_exits_since_a_quiet_window() {
    let mut history = RestartHistory::new();
    let exits: [(u128, u32); 7] = [(0, 0), (1, 1), (2, 2), (12, 0), (21, 1), (30, 2), (40, 0)];
    for (second, attempt) in exits {
        assert_eq!(history.record_exit(second * SECOND), RestartDecision::Restart(attempt));
    }
}

#[test]
fn states_are_reported_in_turn() {
    let mut history = RestartHistory::new();
    let mut states = Vec::new();
    let mut exits = 0;
    let mut event = SupervisorEvent::Begun;
    loop {
        let step = run_ipc_supervisor_until_shutdown(&mut history, event);
        states.extend(step.lifecycle);
        event = match step.action {
            SupervisorAction::Start => SupervisorEvent::Started(Ok(())),
            SupervisorAction::Watch if exits == 2 => SupervisorEvent::ShutdownRequested,
            SupervisorAction::Watch => {
                exits += 1;
                SupervisorEvent::ServerExited
            }
            SupervisorAction::ReadClock => SupervisorEvent::ClockRead(exits * SECOND),
            SupervisorAction::Pause(_) => SupervisorEvent::PauseElapsed,
            SupervisorAction::Rebuild => SupervisorEvent::Rebuilt(Ok(())),
            SupervisorAction::StopServer => SupervisorEvent::ServerStopped,
            SupervisorAction::Finish => break,
            SupervisorAction::Fail(failure) => panic!("{:?}", failure),
        };
    }
    assert_eq!(
        states,
        vec![
            ServiceLifecycleState::Starting,
            ServiceLifecycleState::Running,
            ServiceLifecycleState::RecoveringIpc,
            ServiceLifecycleState::Running,
            ServiceLifecycleState::RecoveringIpc,
            ServiceLifecycleState::Running,
        ]
    );
}
