use clash_service_ipc::ipc_dir::{
    c_path, ensure_ipc_dir, invalid_path_message, macos_console_user_gid, make_ipc_dir, request_watchdog,
    resolve_ipc_dir_gid, spawn_socket_dir_watchdog, ConsoleReached, ConsoleStep, DirEntry, DirReached, GroupSources, DirStep, MakeDirStep, WatchdogReached, WatchdogStep,
};
use clash_service_ipc::text::{concat_text, decimal, parse_u32};
use std::io::ErrorKind;

fn groups(sudo_gid: Option<&str>, console_gid: Option<u32>, staff_gid: Option<u32>, process_gid: u32) -> GroupSources {
    GroupSources { sudo_gid: sudo_gid.map(|text| text.to_string()), console_gid, staff_gid, process_gid }
}

#[test]
fn group_of_the_environment_comes_first() {
    assert_eq!(resolve_ipc_dir_gid(&groups(Some("1000"), Some(5), Some(20), 0)), 1000);
    assert_eq!(resolve_ipc_dir_gid(&groups(Some("+7"), None, None, 0)), 7);
    assert_eq!(resolve_ipc_dir_gid(&groups(Some("0"), Some(5), Some(20), 9)), 0);
}

#[test]
fn unreadable_group_of_the_environment_is_passed_over() {
    assert_eq!(resolve_ipc_dir_gid(&groups(Some(""), Some(5), Some(20), 0)), 5);
    assert_eq!(resolve_ipc_dir_gid(&groups(Some("-1"), None, Some(20), 0)), 20);
    assert_eq!(resolve_ipc_dir_gid(&groups(Some("4294967296"), None, None, 3)), 3);
    assert_eq!(resolve_ipc_dir_gid(&groups(None, None, None, 3)), 3);
}

#[test]
fn numbers_are_read_as_the_standard_library_reads_them() {
    let texts = [
        "", "+", "-", "0", "+0", "-0", "007", "42", "+42", "++1", "1+", " 1", "1 ", "4294967295", "4294967296",
        "99999999999999999999", "1_000", "\u{0661}", "0x10",
    ];
    for text in texts {
        assert_eq!(parse_u32(text), text.parse::<u32>().ok(), "{:?}", text);
    }
}

#[test]
fn numerals_are_written_and_read_back() {
    assert_eq!(decimal(0), "0");
    assert_eq!(decimal(1203), "1203");
    assert_eq!(decimal(u64::MAX), "18446744073709551615");
    for value in [0u32, 9, 10, 99, 1000, u32::MAX] {
        assert_eq!(parse_u32(&decimal(u64::from(value))), Some(value));
    }
    assert_eq!(concat_text("ab", "cd"), "abcd");
}

#[test]
fn nobody_is_at_a_console_of_root() {
    assert_eq!(macos_console_user_gid(ConsoleReached::Begun), ConsoleStep::ReadOwner);
    assert_eq!(macos_console_user_gid(ConsoleReached::OwnerRead(Some(501))), ConsoleStep::LookUp(501));
    assert_eq!(macos_console_user_gid(ConsoleReached::OwnerRead(Some(0))), ConsoleStep::Finish(None));
    assert_eq!(macos_console_user_gid(ConsoleReached::OwnerRead(None)), ConsoleStep::Finish(None));
    assert_eq!(macos_console_user_gid(ConsoleReached::AccountRead(Some(20))), ConsoleStep::Finish(Some(20)));
    assert_eq!(macos_console_user_gid(ConsoleReached::AccountRead(None)), ConsoleStep::Finish(None));
}

#[test]
fn path_for_the_system_ends_in_a_zero_byte() {
    assert_eq!(c_path(&b"/tmp/verge".to_vec()), Some(b"/tmp/verge\0".to_vec()));
    assert_eq!(c_path(&vec![]), Some(vec![0]));
    assert_eq!(c_path(&b"/tmp\0/verge".to_vec()), None);
}

fn provide(reached: DirReached<u8>) -> DirStep<u8> {
    ensure_ipc_dir(&b"/tmp/verge".to_vec(), reached)
}

fn watch(reached: WatchdogReached<u8>) -> WatchdogStep {
    spawn_socket_dir_watchdog(reached)
}

#[test]
fn existing_directory_is_taken_over_by_root() {
    assert_eq!(provide(DirReached::Begun), DirStep::Inspect);
    assert_eq!(provide(DirReached::Inspected(DirEntry::Directory(9))), DirStep::OpenNoFollow(b"/tmp/verge\0".to_vec()));
    assert_eq!(provide(DirReached::Opened(Ok(()))), DirStep::ReadIdentity);
    assert_eq!(
        provide(DirReached::IdentityRead { euid: 0, groups: groups(Some("x"), None, Some(20), 1) }),
        DirStep::SetOwner { uid: 0, gid: 20 }
    );
    assert_eq!(provide(DirReached::OwnerSet(Ok(()))), DirStep::SetMode(0o2770));
    assert_eq!(provide(DirReached::ModeSet(Ok(()))), DirStep::Close(Ok(())));
    assert_eq!(provide(DirReached::Closed(Ok(()))), DirStep::Finish);
}

#[test]
fn only_the_mode_is_set_without_root() {
    assert_eq!(provide(DirReached::IdentityRead { euid: 501, groups: groups(None, None, None, 20) }), DirStep::SetMode(0o2770));
}

#[test]
fn link_is_removed_and_missing_directory_created() {
    assert_eq!(provide(DirReached::Inspected(DirEntry::NotADirectory)), DirStep::Remove);
    assert_eq!(provide(DirReached::Removed(Ok(()))), DirStep::Create);
    assert_eq!(provide(DirReached::Inspected(DirEntry::Failed(ErrorKind::NotFound, 1))), DirStep::Create);
    assert_eq!(provide(DirReached::Created(Ok(()))), DirStep::OpenNoFollow(b"/tmp/verge\0".to_vec()));
}

#[test]
fn every_failure_is_reported_with_its_error() {
    assert_eq!(
        provide(DirReached::Inspected(DirEntry::Failed(ErrorKind::PermissionDenied, 1))),
        DirStep::Fail(1)
    );
    assert_eq!(provide(DirReached::Removed(Err(2))), DirStep::Fail(2));
    assert_eq!(provide(DirReached::Created(Err(3))), DirStep::Fail(3));
    assert_eq!(ensure_ipc_dir::<u8>(&b"/tmp\0".to_vec(), DirReached::Created(Ok(()))), DirStep::InvalidPath);
    assert_eq!(invalid_path_message(), "path contains NUL");
    assert_eq!(provide(DirReached::Opened(Err(4))), DirStep::Fail(4));
    assert_eq!(provide(DirReached::OwnerSet(Err(5))), DirStep::Close(Err(5)));
    assert_eq!(provide(DirReached::ModeSet(Err(6))), DirStep::Close(Err(6)));
    assert_eq!(provide(DirReached::Closed(Err(7))), DirStep::Fail(7));
}

#[test]
fn directory_is_needed_where_sockets_are_files() {
    assert_eq!(make_ipc_dir(true, true), MakeDirStep::Ensure);
    assert_eq!(make_ipc_dir(true, false), MakeDirStep::Skip);
    assert_eq!(make_ipc_dir(false, true), MakeDirStep::Skip);
}

#[test]
fn one_watchdog_is_enough() {
    assert_eq!(watch(WatchdogReached::Requested(false)), WatchdogStep::Wait(5));
    assert_eq!(watch(WatchdogReached::Requested(true)), WatchdogStep::Decline);
}

#[test]
fn watchdog_puts_right_what_is_wrong_and_nothing_else() {
    let tick = |has_parent: bool, exists: bool| watch(WatchdogReached::Ticked { has_parent, exists });
    assert_eq!(tick(false, false), WatchdogStep::Wait(5));
    assert_eq!(tick(true, false), WatchdogStep::Ensure);
    assert_eq!(tick(true, true), WatchdogStep::Inspect);
    let found = |entry: DirEntry<u8>| watch(WatchdogReached::Inspected { entry, groups: groups(Some("20"), Some(5), None, 1) });
    assert_eq!(found(DirEntry::Directory(20)), WatchdogStep::Wait(5));
    assert_eq!(found(DirEntry::Directory(0)), WatchdogStep::Ensure);
    assert_eq!(found(DirEntry::NotADirectory), WatchdogStep::Ensure);
    assert_eq!(found(DirEntry::Failed(ErrorKind::NotFound, 1)), WatchdogStep::Ensure);
    assert_eq!(found(DirEntry::Failed(ErrorKind::PermissionDenied, 1)), WatchdogStep::Ensure);
    assert_eq!(watch(WatchdogReached::Ensured), WatchdogStep::Wait(5));
}

#[test]
fn only_the_first_request_is_accepted() {
    let mut started = false;
    assert_eq!(request_watchdog(&mut started), WatchdogStep::Wait(5));
    assert!(started);
    for _ in 0..3 {
        assert_eq!(request_watchdog(&mut started), WatchdogStep::Decline);
        assert!(started);
    }
}
