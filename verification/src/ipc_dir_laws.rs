//! What holds of providing and watching the directory of the IPC socket.

use crate::ipc_dir::console_step;
use crate::ipc_dir::dir_step;
use crate::ipc_dir::make_dir_step;
use crate::ipc_dir::wanted_gid;
use crate::ipc_dir::watchdog_step;
use crate::ipc_dir::ConsoleReached;
use crate::ipc_dir::ConsoleStep;
use crate::ipc_dir::DirEntry;
use crate::ipc_dir::DirReached;
use crate::ipc_dir::DirStep;
use crate::ipc_dir::DirStepView;
use crate::ipc_dir::GroupSources;
use crate::ipc_dir::WatchdogReached;
use crate::ipc_dir::WatchdogStep;
use crate::ipc_dir::IPC_DIR_MODE;
use crate::ipc_dir::ROOT_UID;
use crate::ipc_dir::WATCHDOG_INTERVAL_SECS;
use crate::text::u32_of_text;
use std::io::ErrorKind;
use vstd::prelude::*;

verus! {

/// What may be reported after a step of providing the directory.
pub open spec fn dir_follows<E>(step: DirStepView<E>, reached: DirReached<E>) -> bool {
    match step {
        DirStepView::Inspect => reached is Inspected,
        DirStepView::Remove => reached is Removed,
        DirStepView::Create => reached is Created,
        DirStepView::OpenNoFollow(_) => reached is Opened,
        DirStepView::ReadIdentity => reached is IdentityRead,
        DirStepView::SetOwner { .. } => reached is OwnerSet,
        DirStepView::SetMode(_) => reached is ModeSet,
        DirStepView::Close(outcome) => reached == DirReached::<E>::Closed(outcome),
        DirStepView::Finish | DirStepView::Fail(_) | DirStepView::InvalidPath => false,
    }
}

/// Whether the report at `i` may follow the one before it.
pub open spec fn dir_link<E>(path: Seq<u8>, reports: Seq<DirReached<E>>, i: int) -> bool {
    dir_follows(dir_step(path, reports[i - 1]), reports[i])
}

/// The reports of one attempt to provide the directory, from the first on.
pub open spec fn dir_run<E>(path: Seq<u8>, reports: Seq<DirReached<E>>) -> bool {
    &&& reports.len() > 0
    &&& reports[0] is Begun
    &&& forall|i: int| 0 < i < reports.len() ==> #[trigger] dir_link(path, reports, i)
}

/// How far along a report stands.
spec fn stage<E>(reached: DirReached<E>) -> int {
    match reached {
        DirReached::Begun => 0,
        DirReached::Inspected(_) => 1,
        DirReached::Removed(_) => 2,
        DirReached::Created(_) => 3,
        DirReached::Opened(_) => 4,
        DirReached::IdentityRead { .. } => 5,
        DirReached::OwnerSet(_) => 6,
        DirReached::ModeSet(_) => 7,
        DirReached::Closed(_) => 8,
    }
}

proof fn lemma_stages_grow<E>(path: Seq<u8>, reports: Seq<DirReached<E>>, i: int, j: int)
    requires
        dir_run(path, reports),
        0 <= i <= j < reports.len(),
    ensures
        stage(reports[i]) + (j - i) <= stage(reports[j]),
    decreases j - i,
{
    if i < j {
        lemma_stages_grow(path, reports, i, j - 1);
        assert(dir_link(path, reports, j));
    }
}

/// What comes right before a report that stands at the opened directory.
proof fn lemma_reached_through_opening<E>(path: Seq<u8>, reports: Seq<DirReached<E>>, i: int) -> (opened: int)
    requires
        dir_run(path, reports),
        0 <= i < reports.len(),
        stage(reports[i]) >= 5,
    ensures
        0 < opened < i,
        reports[opened] matches DirReached::Opened(Ok(_)),
        reports[opened + 1] is IdentityRead,
    decreases i,
{
    assert(dir_link(path, reports, i));
    if reports[i] is IdentityRead {
        i - 1
    } else {
        lemma_reached_through_opening(path, reports, i - 1)
    }
}

/// Every attempt comes to an end, after nine reports at most.
pub proof fn law_providing_ends<E>(path: Seq<u8>, reports: Seq<DirReached<E>>)
    requires
        dir_run(path, reports),
    ensures
        reports.len() <= 9,
{
    lemma_stages_grow(path, reports, 0, reports.len() - 1);
}

/// Owner and mode are set only on a directory that was opened without following links, never on
/// whatever a path may lead to.
pub proof fn law_changes_only_what_was_opened<E>(path: Seq<u8>, reports: Seq<DirReached<E>>)
    requires
        dir_run(path, reports),
        dir_step(path, reports.last()) is SetOwner || dir_step(path, reports.last()) is SetMode,
    ensures
        exists|i: int|
            0 <= i < reports.len() && (#[trigger] reports[i] matches DirReached::Opened(Ok(_))),
{
    let opened = lemma_reached_through_opening(path, reports, reports.len() - 1);
    assert(reports[opened] matches DirReached::Opened(Ok(_)));
}

/// Something that is not a directory is never opened: it was removed, and the directory created,
/// before that.
pub proof fn law_obstacle_is_replaced<E>(path: Seq<u8>, reports: Seq<DirReached<E>>)
    requires
        dir_run(path, reports),
        reports.len() >= 2,
        reports[1] == DirReached::<E>::Inspected(DirEntry::NotADirectory),
        dir_step(path, reports.last()) is OpenNoFollow,
    ensures
        reports.len() == 4,
        reports[2] matches DirReached::Removed(Ok(_)),
        reports[3] matches DirReached::Created(Ok(_)),
{
    let n = reports.len() as int;
    lemma_stages_grow(path, reports, 0, n - 1);
    if n >= 3 {
        assert(dir_link(path, reports, 2));
    }
    if n >= 4 {
        assert(dir_link(path, reports, 3));
    }
    if n >= 5 {
        assert(dir_link(path, reports, 4));
        lemma_stages_grow(path, reports, 4, n - 1);
    }
}

/// Success means that the opened directory has its mode, and, where the service acts as root,
/// that root owns it and it has the group that it should have.
pub proof fn law_success_means_secured<E>(path: Seq<u8>, reports: Seq<DirReached<E>>)
    requires
        dir_run(path, reports),
        dir_step(path, reports.last()) is Finish,
    ensures
        ({
            let n = reports.len() as int;
            &&& n >= 3
            &&& reports[n - 2] matches DirReached::ModeSet(Ok(_))
            &&& dir_step(path, reports[n - 3]) == DirStepView::<E>::SetMode(IPC_DIR_MODE)
            &&& {
                ||| reports[n - 3] matches DirReached::IdentityRead { euid, .. } && euid
                    != ROOT_UID
                ||| n >= 4 && (reports[n - 3] matches DirReached::OwnerSet(Ok(_))) && (reports[n - 4] matches
                    DirReached::IdentityRead { euid, groups } && euid == ROOT_UID && dir_step(
                    path, reports[n - 4],
                ) == DirStepView::<E>::SetOwner { uid: ROOT_UID, gid: groups.wanted() })
            }
        }),
{
    let n = reports.len() as int;
    let opened = lemma_reached_through_opening(path, reports, n - 1);
    assert(dir_link(path, reports, n - 1));
    let inner = lemma_reached_through_opening(path, reports, n - 2);
    assert(dir_link(path, reports, n - 2));
    if reports[n - 3] is OwnerSet {
        let deeper = lemma_reached_through_opening(path, reports, n - 3);
        assert(dir_link(path, reports, n - 3));
    }
}

/// What was opened is closed before the attempt ends, in success or in failure.
pub proof fn law_opened_is_closed<E>(path: Seq<u8>, reports: Seq<DirReached<E>>, i: int)
    requires
        dir_run(path, reports),
        0 <= i < reports.len(),
        reports[i] matches DirReached::Opened(Ok(_)),
        dir_step(path, reports.last()) is Finish || dir_step(path, reports.last()) is Fail || dir_step(
            path, reports.last(),
        ) is InvalidPath,
    ensures
        reports.last() is Closed,
{
    lemma_stages_grow(path, reports, i, reports.len() - 1);
}

/// What is opened is the directory that was asked for: its path with a zero byte at its end.
pub proof fn law_opens_what_was_asked_for<E>(path: Seq<u8>, reached: DirReached<E>, opened: Seq<u8>)
    requires
        dir_step(path, reached) == DirStepView::<E>::OpenNoFollow(opened),
    ensures
        opened == path.push(0u8),
        !path.contains(0u8),
{
}

/// The watchdog settles: a directory of the group that it should have is left alone until the next
/// look, and whatever else is found is put right.
pub proof fn law_watchdog_settles<E>(entry: DirEntry<E>, groups: GroupSources)
    ensures
        watchdog_step(WatchdogReached::Inspected { entry, groups }) == WatchdogStep::Wait(
            WATCHDOG_INTERVAL_SECS,
        ) <==> entry == DirEntry::<E>::Directory(groups.wanted()),
        watchdog_step(WatchdogReached::Inspected { entry, groups }) == WatchdogStep::Ensure <==> entry
            != DirEntry::<E>::Directory(groups.wanted()),
        watchdog_step(WatchdogReached::<E>::Ensured) == WatchdogStep::Wait(WATCHDOG_INTERVAL_SECS),
{
}

/// The watchdog and the provision of the directory agree: root sets the very group at which the
/// watchdog settles.
pub proof fn law_watchdog_accepts_what_root_provides<E>(path: Seq<u8>, groups: GroupSources)
    ensures
        dir_step(path, DirReached::<E>::IdentityRead { euid: ROOT_UID, groups }) matches
            DirStepView::SetOwner { uid, gid } && uid == ROOT_UID && watchdog_step(
            WatchdogReached::Inspected { entry: DirEntry::<E>::Directory(gid), groups },
        ) == WatchdogStep::Wait(WATCHDOG_INTERVAL_SECS),
{
}

/// Of several requests for a watchdog, of which exactly one is told that there is none yet,
/// exactly that one is accepted, and the others are declined.
pub proof fn law_one_request_is_accepted<E>(already: Seq<bool>, first: int)
    requires
        0 <= first < already.len(),
        forall|i: int| 0 <= i < already.len() ==> (#[trigger] already[i] <==> i != first),
    ensures
        forall|i: int|
            0 <= i < already.len() ==> watchdog_step(
                WatchdogReached::<E>::Requested(#[trigger] already[i]),
            ) == (if i == first {
                WatchdogStep::Wait(WATCHDOG_INTERVAL_SECS)
            } else {
                WatchdogStep::Decline
            }),
{
}

/// Whether a flag goes through these values when a watchdog is asked for again and again: there is
/// none at first, and after each request there is one.
pub open spec fn flag_run(flags: Seq<bool>) -> bool {
    &&& flags.len() > 0
    &&& !flags[0]
    &&& forall|i: int| 0 < i < flags.len() ==> #[trigger] flags[i]
}

/// However often a watchdog is asked for, there is exactly one: the first request to get at the
/// flag is accepted and every other one is declined.
pub proof fn law_one_watchdog_in_all<E>(flags: Seq<bool>, request: int)
    requires
        flag_run(flags),
        0 <= request < flags.len(),
    ensures
        watchdog_step(WatchdogReached::<E>::Requested(flags[request])) == WatchdogStep::Wait(
            WATCHDOG_INTERVAL_SECS,
        ) <==> request == 0,
        watchdog_step(WatchdogReached::<E>::Requested(flags[request])) == WatchdogStep::Decline
            <==> request != 0,
{
}

/// A group taken from the environment, the console or the graphical accounts is never overruled
/// by the group of the process.
pub proof fn law_process_group_comes_last(
    sudo_gid: Option<u32>,
    console_gid: Option<u32>,
    staff_gid: Option<u32>,
    one: u32,
    other: u32,
)
    requires
        sudo_gid is Some || console_gid is Some || staff_gid is Some,
    ensures
        wanted_gid(sudo_gid, console_gid, staff_gid, one) == wanted_gid(
            sudo_gid,
            console_gid,
            staff_gid,
            other,
        ),
{
}

/// What is done to the directory, and when, whatever group it has. Nothing is removed but what is
/// no directory; a directory that is there, or was created, is opened next, under its own path,
/// unless that holds a zero byte; one is created exactly where there is none.
pub proof fn law_directory_is_kept<E>(path: Seq<u8>, reached: DirReached<E>, opened: Seq<u8>)
    ensures
        ({
            let step = dir_step(path, reached);
            let there = {
                ||| reached matches DirReached::Inspected(DirEntry::Directory(_))
                ||| reached matches DirReached::Created(Ok(_))
            };
            &&& step is Inspect <==> reached is Begun
            &&& step is Remove <==> (reached matches DirReached::Inspected(DirEntry::NotADirectory))
            &&& step is Create <==> {
                ||| reached matches DirReached::Removed(Ok(_))
                ||| reached matches DirReached::Inspected(DirEntry::Failed(kind, _)) && kind
                    == ErrorKind::NotFound
            }
            &&& step == DirStepView::<E>::OpenNoFollow(opened) <==> there && !path.contains(0u8)
                && opened == path.push(0u8)
            &&& step is InvalidPath <==> there && path.contains(0u8)
        }),
{
}

/// What is done to the opened directory, and when: root makes it root's, with the group that it
/// should have, and then, as anybody else does at once, sets its mode; whatever comes of that, it is
/// closed. Every failure ends the attempt with its own error.
pub proof fn law_opened_directory_is_secured<E>(
    path: Seq<u8>,
    reached: DirReached<E>,
    uid: u32,
    gid: u32,
    mode: u32,
    error: E,
)
    ensures
        ({
            let step = dir_step(path, reached);
            &&& step is ReadIdentity <==> (reached matches DirReached::Opened(Ok(_)))
            &&& step == (DirStepView::<E>::SetOwner { uid, gid }) <==> (reached matches
                DirReached::IdentityRead { euid, groups } && euid == 0 && uid == 0 && gid
                == groups.wanted())
            &&& step == DirStepView::<E>::SetMode(mode) <==> mode == 0o2770 && {
                ||| reached matches DirReached::IdentityRead { euid, .. } && euid != 0
                ||| reached matches DirReached::OwnerSet(Ok(_))
            }
            &&& (step matches DirStepView::Close(Ok(_))) <==> (reached matches DirReached::ModeSet(
                Ok(_),
            ))
            &&& step == DirStepView::<E>::Close(Err(error)) <==> {
                ||| reached == DirReached::<E>::OwnerSet(Err(error))
                ||| reached == DirReached::<E>::ModeSet(Err(error))
            }
            &&& step is Finish <==> (reached matches DirReached::Closed(Ok(_)))
            &&& step == DirStepView::<E>::Fail(error) <==> {
                ||| reached matches DirReached::Inspected(DirEntry::Failed(kind, cause)) && kind
                    != ErrorKind::NotFound && cause == error
                ||| reached == DirReached::<E>::Removed(Err(error))
                ||| reached == DirReached::<E>::Created(Err(error))
                ||| reached == DirReached::<E>::Opened(Err(error))
                ||| reached == DirReached::<E>::Closed(Err(error))
            }
        }),
{
}

/// A directory that is there stays: in no run that finds one is anything removed or created, and
/// the run that goes on opens it.
pub proof fn law_existing_directory_is_opened<E>(path: Seq<u8>, reports: Seq<DirReached<E>>)
    requires
        dir_run(path, reports),
        reports.len() >= 2,
        reports[1] matches DirReached::Inspected(DirEntry::Directory(_)),
    ensures
        forall|i: int|
            0 <= i < reports.len() ==> !(#[trigger] reports[i] is Removed) && !(reports[i] is Created),
        reports.len() >= 3 ==> reports[2] is Opened,
{
    if reports.len() >= 3 {
        assert(dir_link(path, reports, 2));
    }
    assert forall|i: int| 0 <= i < reports.len() implies !(#[trigger] reports[i] is Removed) && !(
    reports[i] is Created) by {
        if i >= 2 {
            lemma_stages_grow(path, reports, 2, i);
        } else if i == 1 {
            assert(reports[1] is Inspected);
        }
    }
}

/// The group that the directory should have: that of the environment if it is a number there, or
/// else that of the user at the console, or else that of the graphical accounts, or else that of the
/// process.
pub proof fn law_first_known_group_is_wanted(groups: GroupSources)
    ensures
        ({
            let read = groups.sudo_gid is Some && u32_of_text(groups.sudo_gid->0@) is Some;
            &&& read ==> Some(groups.wanted()) == u32_of_text(groups.sudo_gid->0@)
            &&& !read && groups.console_gid is Some ==> Some(groups.wanted()) == groups.console_gid
            &&& !read && groups.console_gid is None && groups.staff_gid is Some ==> Some(
                groups.wanted(),
            ) == groups.staff_gid
            &&& !read && groups.console_gid is None && groups.staff_gid is None ==> groups.wanted()
                == groups.process_gid
        }),
{
}

/// Whose group is taken for that of the user at the console: that of the account of the console's
/// owner, whoever that is, unless it is root; the account's group is handed on as it is.
pub proof fn law_console_owner_is_looked_up(reached: ConsoleReached, uid: u32, gid: Option<u32>)
    ensures
        console_step(reached) is ReadOwner <==> reached is Begun,
        console_step(reached) == ConsoleStep::LookUp(uid) <==> uid != 0 && reached
            == ConsoleReached::OwnerRead(Some(uid)),
        console_step(reached) == ConsoleStep::Finish(gid) <==> {
            ||| reached == ConsoleReached::AccountRead(gid)
            ||| gid is None && reached == ConsoleReached::OwnerRead(None)
            ||| gid is None && reached == ConsoleReached::OwnerRead(Some(0))
        },
{
}

/// A directory is made exactly where sockets are files that lie in one.
pub proof fn law_directory_is_made_for_files(sockets_are_files: bool, has_parent: bool)
    ensures
        make_dir_step(sockets_are_files, has_parent) is Ensure <==> sockets_are_files && has_parent,
{
}

/// What the watchdog does, and when: it looks every five seconds; it provides the directory exactly
/// where there is nothing, or something that is no directory of the group that it should have.
pub proof fn law_watchdog_keeps_the_directory<E>(reached: WatchdogReached<E>)
    ensures
        ({
            let step = watchdog_step(reached);
            &&& step is Decline <==> reached == WatchdogReached::<E>::Requested(true)
            &&& step is Inspect <==> reached == (WatchdogReached::<E>::Ticked {
                has_parent: true,
                exists: true,
            })
            &&& step is Ensure <==> {
                ||| reached == (WatchdogReached::<E>::Ticked { has_parent: true, exists: false })
                ||| reached matches WatchdogReached::Inspected { entry, groups } && entry
                    != DirEntry::<E>::Directory(groups.wanted())
            }
            &&& step is Wait ==> step == WatchdogStep::Wait(5)
        }),
{
}

/// A step of providing the directory shows what it is.
pub proof fn law_dir_step_view<E>(step: DirStep<E>)
    ensures
        step@ is Inspect <==> step is Inspect,
        step@ is Remove <==> step is Remove,
        step@ is Create <==> step is Create,
        step@ is OpenNoFollow <==> step is OpenNoFollow,
        step is OpenNoFollow ==> step@->OpenNoFollow_0 == step->OpenNoFollow_0@,
        step@ is ReadIdentity <==> step is ReadIdentity,
        step@ is SetOwner <==> step is SetOwner,
        step is SetOwner ==> step@->uid == step->uid && step@->gid == step->gid,
        step@ is SetMode <==> step is SetMode,
        step is SetMode ==> step@->SetMode_0 == step->SetMode_0,
        step@ is Close <==> step is Close,
        step is Close ==> step@->Close_0 == step->Close_0,
        step@ is Finish <==> step is Finish,
        step@ is Fail <==> step is Fail,
        step is Fail ==> step@->Fail_0 == step->Fail_0,
        step@ is InvalidPath <==> step is InvalidPath,
{
}

} // verus!
