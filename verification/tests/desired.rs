use clash_service_ipc::causes::{any_not_found, is_not_found_error};
use clash_service_ipc::clock::{timestamp_secs, unix_timestamp_secs};
use clash_service_ipc::config::{ClashConfig, CoreConfig, WriterConfig};
use clash_service_ipc::desired::{
    apply_change, cleanup_legacy_desired_state, legacy_desired_state_files, load_desired_state, persist_core_started,
    persist_core_stopped, persist_writer_config, restore_desired_state, update_desired_state, update_desired_state_at,
    write_desired_state, DesiredChange, DesiredState, FilePresence, LegacyReached, LegacyStep, LoadReached, LoadStep, RestoreOutcome, RestoreReached,
    RestoreStep, StateFileOperation, UpdateReached, UpdateStep, WriteReached, WriteStep,
};
use clash_service_ipc::paths::{legacy_backup_path, temp_path};
use std::io::{Error, ErrorKind};
use std::time::{Duration, UNIX_EPOCH};

fn writer(directory: &str) -> WriterConfig {
    WriterConfig { directory: directory.to_string(), max_log_size: 10, max_log_files: 3 }
}

fn clash(core_path: &str, directory: &str) -> ClashConfig {
    ClashConfig {
        core_config: CoreConfig { core_path: core_path.to_string(), ..Default::default() },
        log_config: writer(directory),
    }
}

fn started() -> DesiredState {
    apply_change(DesiredState::default(), DesiredChange::CoreStarted(clash("/core", "/a")), 7)
}

#[test]
fn start_stores_intent_and_both_configurations() {
    let state = started();
    assert!(state.core_should_be_running);
    assert_eq!(state.last_clash_config, Some(clash("/core", "/a")));
    assert_eq!(state.last_writer_config, Some(writer("/a")));
    assert_eq!(state.generation, 1);
    assert_eq!(state.updated_at, 7);
}

#[test]
fn thirty_starts_advance_thirty_generations() {
    let mut state = DesiredState::default();
    for i in 1..=30u64 {
        state = apply_change(state, DesiredChange::CoreStarted(clash("/core", "/a")), i);
        assert!(state.core_should_be_running);
        assert!(state.last_clash_config.is_some());
        assert_eq!(state.generation, i);
    }
}

#[test]
fn stop_keeps_the_configurations() {
    let state = apply_change(started(), DesiredChange::CoreStopped, 9);
    assert!(!state.core_should_be_running);
    assert_eq!(state.last_clash_config, Some(clash("/core", "/a")));
    assert_eq!(state.last_writer_config, Some(writer("/a")));
    assert_eq!(state.generation, 2);
    assert_eq!(state.updated_at, 9);
}

#[test]
fn writer_change_reaches_the_clash_configuration() {
    let state = apply_change(started(), DesiredChange::WriterConfigured(writer("/b")), 9);
    assert_eq!(state.last_writer_config, Some(writer("/b")));
    assert_eq!(state.last_clash_config, Some(clash("/core", "/b")));
    assert!(state.core_should_be_running);
}

#[test]
fn writer_change_without_a_clash_configuration() {
    let state = apply_change(DesiredState::default(), DesiredChange::WriterConfigured(writer("/b")), 9);
    assert_eq!(state.last_writer_config, Some(writer("/b")));
    assert_eq!(state.last_clash_config, None);
    assert!(!state.core_should_be_running);
}

#[test]
fn generation_saturates() {
    let mut state = DesiredState::default();
    state.generation = u64::MAX;
    assert_eq!(apply_change(state, DesiredChange::CoreStopped, 1).generation, u64::MAX);
}

#[test]
fn clone_of_a_state_is_equal() {
    assert_eq!(started().clone(), started());
}

#[test]
fn update_loads_writes_and_finishes() {
    let change = || DesiredChange::CoreStopped;
    assert_eq!(update_desired_state_at::<u8>(change(), UpdateReached::Begun, 5), UpdateStep::Load);
    assert_eq!(update_desired_state_at::<u8>(change(), UpdateReached::Loaded(Err(3)), 5), UpdateStep::Fail(3));
    let expected = apply_change(started(), DesiredChange::CoreStopped, 5);
    assert_eq!(
        update_desired_state_at::<u8>(change(), UpdateReached::Loaded(Ok(started())), 5),
        UpdateStep::Write(expected.clone())
    );
    assert_eq!(
        update_desired_state_at::<u8>(change(), UpdateReached::Written(expected.clone(), Ok(())), 5),
        UpdateStep::Finish(expected.clone())
    );
    assert_eq!(
        update_desired_state_at::<u8>(change(), UpdateReached::Written(expected, Err(4)), 5),
        UpdateStep::Fail(4)
    );
}

#[test]
fn updates_are_stamped_with_the_clock() {
    let before = unix_timestamp_secs();
    let step = update_desired_state::<u8>(DesiredChange::CoreStopped, UpdateReached::Loaded(Ok(started())));
    let after = unix_timestamp_secs();
    match step {
        UpdateStep::Write(state) => {
            assert!(before > 1_600_000_000);
            assert!(before <= state.updated_at && state.updated_at <= after);
            assert_eq!(state.generation, 2);
        }
        other => panic!("{:?}", other),
    }
}

#[test]
fn persisting_makes_the_change_it_names() {
    let loaded = || UpdateReached::<u8>::Loaded(Ok(started()));
    match persist_core_started(&clash("/other", "/c"), loaded()) {
        UpdateStep::Write(state) => {
            assert!(state.core_should_be_running);
            assert_eq!(state.last_clash_config, Some(clash("/other", "/c")));
            assert_eq!(state.last_writer_config, Some(writer("/c")));
        }
        other => panic!("{:?}", other),
    }
    match persist_core_stopped(loaded()) {
        UpdateStep::Write(state) => assert!(!state.core_should_be_running),
        other => panic!("{:?}", other),
    }
    match persist_writer_config(&writer("/d"), loaded()) {
        UpdateStep::Write(state) => assert_eq!(state.last_clash_config, Some(clash("/core", "/d"))),
        other => panic!("{:?}", other),
    }
}

#[test]
fn timestamps_count_whole_seconds_from_the_epoch() {
    assert_eq!(timestamp_secs(&UNIX_EPOCH), 0);
    assert_eq!(timestamp_secs(&(UNIX_EPOCH + Duration::from_millis(12_999))), 12);
    assert_eq!(timestamp_secs(&(UNIX_EPOCH - Duration::from_secs(5))), 0);
}

#[test]
fn stored_state_is_read_and_parsed() {
    assert_eq!(load_desired_state::<u8>(LoadReached::Begun), LoadStep::Read);
    assert_eq!(load_desired_state::<u8>(LoadReached::Read(vec![123, 125])), LoadStep::Parse(vec![123, 125]));
    assert_eq!(load_desired_state::<u8>(LoadReached::Parsed(Ok(started()))), LoadStep::Finish(started()));
}

#[test]
fn missing_file_loads_as_the_initial_state() {
    assert_eq!(
        load_desired_state::<u8>(LoadReached::ReadFailed(ErrorKind::NotFound, 9)),
        LoadStep::Finish(DesiredState::default())
    );
}

#[test]
fn other_failures_to_load_are_handed_on() {
    assert_eq!(
        load_desired_state::<u8>(LoadReached::ReadFailed(ErrorKind::PermissionDenied, 9)),
        LoadStep::Fail(StateFileOperation::Read, 9)
    );
    assert_eq!(
        load_desired_state::<u8>(LoadReached::Parsed(Err(8))),
        LoadStep::Fail(StateFileOperation::Parse, 8)
    );
}

#[test]
fn failures_name_the_operation_and_the_path() {
    let shown = "\"/s/desired-state.json\"";
    assert_eq!(StateFileOperation::Read.context(shown), "failed to read desired state \"/s/desired-state.json\"");
    assert_eq!(StateFileOperation::Parse.context(shown), "failed to parse desired state \"/s/desired-state.json\"");
    assert_eq!(StateFileOperation::CreateDirectory.context("\"/s\""), "failed to create desired state directory \"/s\"");
    assert_eq!(StateFileOperation::WriteTemp.context("\"/s/t\""), "failed to write desired state temp file \"/s/t\"");
    assert_eq!(
        StateFileOperation::MoveIntoPlace.context(shown),
        "failed to move desired state into \"/s/desired-state.json\""
    );
}

const TARGET: &str = "/s/desired-state.json";
const TEMP: &str = "/s/desired-state.json.tmp";

fn write(reached: WriteReached<u8>) -> WriteStep<u8> {
    write_desired_state(TARGET, reached)
}

#[test]
fn writing_goes_through_a_temporary_file() {
    assert_eq!(write(WriteReached::Begun(Some("/s".to_string()))), WriteStep::CreateDirectory("/s".to_string()));
    assert_eq!(write(WriteReached::Begun(None)), WriteStep::Serialize);
    assert_eq!(write(WriteReached::DirectoryCreated("/s".to_string(), Ok(()))), WriteStep::Serialize);
    assert_eq!(
        write(WriteReached::Serialized(Ok(vec![7]))),
        WriteStep::WriteTemp { temp: TEMP.to_string(), text: vec![7] }
    );
    assert_eq!(
        write(WriteReached::TempWritten(Ok(()))),
        WriteStep::MoveIntoPlace { temp: TEMP.to_string(), target: TARGET.to_string() }
    );
    assert_eq!(write(WriteReached::Moved(Ok(()))), WriteStep::Finish);
}

#[test]
fn writing_stops_at_the_first_failure() {
    let fail = |operation: StateFileOperation, path: &str, error: u8| WriteStep::Fail {
        operation,
        path: path.to_string(),
        error,
    };
    assert_eq!(
        write(WriteReached::DirectoryCreated("/s".to_string(), Err(1))),
        fail(StateFileOperation::CreateDirectory, "/s", 1)
    );
    assert_eq!(write(WriteReached::Serialized(Err(2))), WriteStep::FailToSerialize(2));
    assert_eq!(write(WriteReached::TempWritten(Err(3))), fail(StateFileOperation::WriteTemp, TEMP, 3));
    assert_eq!(write(WriteReached::Moved(Err(4))), fail(StateFileOperation::MoveIntoPlace, TARGET, 4));
}

#[test]
fn restoration_cleans_up_and_loads_first() {
    assert!(matches!(restore_desired_state(RestoreReached::Begun(true)), RestoreStep::CleanUpLegacy));
    assert!(matches!(restore_desired_state(RestoreReached::LegacyCleaned), RestoreStep::Load));
    assert!(matches!(restore_desired_state(RestoreReached::Begun(false)), RestoreStep::Load));
}

#[test]
fn failed_load_ends_the_restoration_with_its_error() {
    match restore_desired_state(RestoreReached::Loaded(Err(anyhow::Error::msg("unreadable")))) {
        RestoreStep::Fail(error) => assert_eq!(error.to_string(), "unreadable"),
        other => panic!("{:?}", other),
    }
}

#[test]
fn stored_start_is_restored() {
    let state = apply_change(started(), DesiredChange::WriterConfigured(writer("/b")), 9);
    match restore_desired_state(RestoreReached::Loaded(Ok(state.clone()))) {
        RestoreStep::ApplyWriter(config, kept) => {
            assert_eq!(config, writer("/b"));
            assert_eq!(kept, state);
        }
        other => panic!("{:?}", other),
    }
    for applied in [true, false] {
        match restore_desired_state(RestoreReached::WriterApplied(state.clone(), applied)) {
            RestoreStep::StartCore(config) => assert_eq!(config, clash("/core", "/b")),
            other => panic!("{:?}", other),
        }
    }
    assert!(matches!(
        restore_desired_state(RestoreReached::CoreStarted),
        RestoreStep::Finish(RestoreOutcome::Restored)
    ));
}

#[test]
fn stopped_core_is_not_restored() {
    let state = apply_change(started(), DesiredChange::CoreStopped, 9);
    assert!(matches!(
        restore_desired_state(RestoreReached::Loaded(Ok(state.clone()))),
        RestoreStep::ApplyWriter(_, _)
    ));
    assert!(matches!(
        restore_desired_state(RestoreReached::WriterApplied(state, true)),
        RestoreStep::Finish(RestoreOutcome::NotWanted)
    ));
    assert!(matches!(
        restore_desired_state(RestoreReached::Loaded(Ok(DesiredState::default()))),
        RestoreStep::Finish(RestoreOutcome::NotWanted)
    ));
}

#[test]
fn intent_without_a_configuration_is_not_restored() {
    let mut state = DesiredState::default();
    state.core_should_be_running = true;
    assert!(matches!(
        restore_desired_state(RestoreReached::Loaded(Ok(state))),
        RestoreStep::Finish(RestoreOutcome::NoConfig)
    ));
}

#[test]
fn running_intent_comes_with_a_configuration() {
    let mut state = DesiredState::default();
    for at in 0..9u64 {
        let change = match at % 3 {
            0 => DesiredChange::WriterConfigured(writer("/b")),
            1 => DesiredChange::CoreStarted(clash("/core", "/a")),
            _ => DesiredChange::CoreStopped,
        };
        state = apply_change(state, change, at);
        assert!(!state.core_should_be_running || state.last_clash_config.is_some());
    }
}

#[test]
fn missing_core_clears_the_intent() {
    let error = anyhow::Error::new(Error::from(ErrorKind::NotFound)).context("failed to start core");
    assert!(matches!(restore_desired_state(RestoreReached::CoreFailed(error)), RestoreStep::ClearIntent));
    for cleared in [true, false] {
        assert!(matches!(
            restore_desired_state(RestoreReached::IntentCleared(cleared)),
            RestoreStep::Finish(RestoreOutcome::IntentCleared)
        ));
    }
}

#[test]
fn other_failures_are_handed_on() {
    let error = anyhow::Error::new(Error::from(ErrorKind::PermissionDenied)).context("failed to start core");
    match restore_desired_state(RestoreReached::CoreFailed(error)) {
        RestoreStep::Fail(error) => assert_eq!(error.to_string(), "failed to start core"),
        other => panic!("{:?}", other),
    }
}

#[test]
fn not_found_is_looked_for_along_the_chain() {
    let not_found = || anyhow::Error::new(Error::from(ErrorKind::NotFound));
    assert!(is_not_found_error(&not_found()));
    assert!(is_not_found_error(&not_found().context("one").context("two")));
    assert!(!is_not_found_error(&anyhow::Error::new(Error::from(ErrorKind::AlreadyExists)).context("one")));
    assert!(!is_not_found_error(&anyhow::Error::msg("not found")));
}

#[test]
fn causes_are_searched_to_the_end() {
    assert!(!any_not_found(&vec![]));
    assert!(!any_not_found(&vec![None, Some(ErrorKind::PermissionDenied)]));
    assert!(any_not_found(&vec![None, Some(ErrorKind::PermissionDenied), Some(ErrorKind::NotFound)]));
}

#[test]
fn legacy_files_are_known() {
    assert_eq!(
        legacy_desired_state_files(),
        vec![
            "/var/lib/clash-service/desired-state.json",
            "/var/root/.local/state/clash-service/desired-state.json",
            "/var/lib/clash-verge-service/desired-state.json",
            "/var/root/.local/state/clash-verge-service/desired-state.json",
        ]
    );
}

#[test]
fn every_legacy_file_is_looked_for_and_moved_aside_if_there() {
    let presences = [FilePresence::Present, FilePresence::Absent, FilePresence::Unknown, FilePresence::Present];
    let files = legacy_desired_state_files();
    let mut looked = Vec::new();
    let mut moved = Vec::new();
    let mut reached = LegacyReached::Begun;
    loop {
        reached = match cleanup_legacy_desired_state(reached) {
            LegacyStep::LookFor { number, file } => {
                assert_eq!(file, files[number]);
                looked.push(number);
                LegacyReached::LookedFor(number, presences[number])
            }
            LegacyStep::MoveAside { number, file, target } => {
                assert_eq!(file, files[number]);
                assert_eq!(target, format!("{}.legacy.bak", file));
                moved.push(number);
                LegacyReached::MovedAside(number, number == 3)
            }
            LegacyStep::Finish => break,
        };
    }
    assert_eq!(looked, vec![0, 1, 2, 3]);
    assert_eq!(moved, vec![0, 3]);
}

#[test]
fn clean_up_knows_no_other_files() {
    let past = LegacyReached::LookedFor(4, FilePresence::Present);
    assert_eq!(cleanup_legacy_desired_state(past), LegacyStep::Finish);
    assert_eq!(cleanup_legacy_desired_state(LegacyReached::MovedAside(usize::MAX, true)), LegacyStep::Finish);
}

#[test]
fn derived_file_names_replace_the_extension() {
    assert_eq!(temp_path("/s/desired-state.json"), "/s/desired-state.json.tmp");
    assert_eq!(temp_path("/s/state.old"), "/s/state.json.tmp");
    assert_eq!(temp_path("/s.d/state"), "/s.d/state.json.tmp");
    assert_eq!(legacy_backup_path("/s/desired-state.json"), "/s/desired-state.json.legacy.bak");
}

#[test]
fn derived_file_names_are_those_of_the_standard_library() {
    let paths = [
        "", ".", "..", "/", ".json", "..json", "...json", "/s/..json", "/s/.json", "/s/a..json", "/s/a.b.json", "/s/a.",
        "/s/a.json/", "/s.d/a", "a.json", "//s/a.json",
    ];
    for path in paths {
        let path_of = |extension: &str| std::path::Path::new(path).with_extension(extension).to_string_lossy().into_owned();
        assert_eq!(temp_path(path), path_of("json.tmp"), "{:?}", path);
        assert_eq!(legacy_backup_path(path), path_of("json.legacy.bak"), "{:?}", path);
    }
    assert_eq!(temp_path("/s/a.b.json"), "/s/a.b.json.tmp");
    assert_ne!(temp_path("..json"), "..json.tmp");
}
