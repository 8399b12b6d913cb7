//! The directory of the IPC socket: its group, its mode, and keeping both.

use crate::text::parse_u32;
use crate::text::u32_of_text;
use std::io::ErrorKind;
use vstd::prelude::*;

verus! {

/// Mode of the directory: its owner and its group may do everything, and what is created in it
/// inherits its group.
pub const IPC_DIR_MODE: u32 = 0o2770;

/// Owner of the directory, where the service may choose one.
pub const ROOT_UID: u32 = 0;

/// Seconds between two looks of the watchdog at the directory.
pub const WATCHDOG_INTERVAL_SECS: u64 = 5;

/// What is known of the groups that the directory may have.
#[derive(Debug, PartialEq, Eq)]
pub struct GroupSources {
    /// The group of the user who ran the service through `sudo`, as found in the environment.
    pub sudo_gid: Option<String>,
    /// The primary group of the user at the console.
    pub console_gid: Option<u32>,
    /// The group of graphical accounts.
    pub staff_gid: Option<u32>,
    /// The group of the process.
    pub process_gid: u32,
}

impl GroupSources {
    /// The group that the directory should have.
    pub open spec fn wanted(self) -> u32 {
        wanted_gid(
            match self.sudo_gid {
                Some(text) => u32_of_text(text@),
                None => None,
            },
            self.console_gid,
            self.staff_gid,
            self.process_gid,
        )
    }
}

/// The group that the directory should have: the first of the sources that is known.
pub fn resolve_ipc_dir_gid(sources: &GroupSources) -> (gid: u32)
    ensures
        gid == sources.wanted(),
{
    let sudo_group: Option<u32> = match &sources.sudo_gid {
        Some(text) => parse_u32(text.as_str()),
        None => None,
    };
    if let Some(gid) = sudo_group {
        return gid;
    }
    if let Some(gid) = sources.console_gid {
        return gid;
    }
    if let Some(gid) = sources.staff_gid {
        return gid;
    }
    sources.process_gid
}

/// The first group that is known, in the order of the arguments.
pub open spec fn wanted_gid(
    sudo_gid: Option<u32>,
    console_gid: Option<u32>,
    staff_gid: Option<u32>,
    process_gid: u32,
) -> u32 {
    match (sudo_gid, console_gid, staff_gid) {
        (Some(gid), _, _) => gid,
        (None, Some(gid), _) => gid,
        (None, None, Some(gid)) => gid,
        (None, None, None) => process_gid,
    }
}

/// How far finding the group of the user at the console has come.
#[derive(Clone, Copy, Debug, PartialEq, Eq, Structural)]
pub enum ConsoleReached {
    Begun,
    /// The owner of the console device, if that could be found out.
    OwnerRead(Option<u32>),
    /// The primary group of the account that was looked up, if there is such an account.
    AccountRead(Option<u32>),
}

/// What finding the group of the user at the console does next.
#[derive(Clone, Copy, Debug, PartialEq, Eq, Structural)]
pub enum ConsoleStep {
    /// Find out who owns the console device.
    ReadOwner,
    /// Look up the account of this user.
    LookUp(u32),
    /// End with this group, if any.
    Finish(Option<u32>),
}

/// The step of finding the primary group of the user at the console.
pub open spec fn console_step(reached: ConsoleReached) -> ConsoleStep {
    match reached {
        ConsoleReached::Begun => ConsoleStep::ReadOwner,
        ConsoleReached::OwnerRead(Some(owner)) if owner != ROOT_UID => ConsoleStep::LookUp(owner),
        ConsoleReached::OwnerRead(_) => ConsoleStep::Finish(None),
        ConsoleReached::AccountRead(gid) => ConsoleStep::Finish(gid),
    }
}

/// The next step of finding the primary group of the user at the console. That user owns the
/// console device; while nobody is logged in it belongs to root, whose account is not looked up.
pub fn macos_console_user_gid(reached: ConsoleReached) -> (step: ConsoleStep)
    ensures
        step == console_step(reached),
{
    match reached {
        ConsoleReached::Begun => ConsoleStep::ReadOwner,
        ConsoleReached::OwnerRead(owner_uid) => match owner_uid {
            Some(owner) => if owner == ROOT_UID {
                ConsoleStep::Finish(None)
            } else {
                ConsoleStep::LookUp(owner)
            },
            None => ConsoleStep::Finish(None),
        },
        ConsoleReached::AccountRead(gid) => ConsoleStep::Finish(gid),
    }
}

/// What is found at a path, links not followed.
#[derive(Debug, PartialEq, Eq)]
pub enum DirEntry<E> {
    /// A directory of this group.
    Directory(u32),
    /// Something else, a symbolic link for one.
    NotADirectory,
    /// Nothing was found out, for a reason of this sort; there may be nothing at the path.
    Failed(ErrorKind, E),
}

/// A path as the system takes it, with a zero byte at its end; `None` if it holds a zero byte
/// itself.
pub fn c_path(path: &Vec<u8>) -> (terminated: Option<Vec<u8>>)
    ensures
        terminated is None <==> path@.contains(0u8),
        terminated matches Some(bytes) ==> bytes@ == path@.push(0u8),
{
    let mut bytes: Vec<u8> = Vec::new();
    let mut i: usize = 0;
    while i < path.len()
        invariant
            i <= path.len(),
            bytes@ == path@.take(i as int),
            forall|j: int| 0 <= j < i ==> path@[j] != 0u8,
        decreases path.len() - i,
    {
        if path[i] == 0 {
            assert(path@[i as int] == 0u8);
            return None;
        }
        bytes.push(path[i]);
        assert(path@.take(i + 1) == path@.take(i as int).push(path@[i as int]));
        i = i + 1;
    }
    assert(path@.take(i as int) == path@);
    bytes.push(0);
    Some(bytes)
}

/// What is said of a path that holds a zero byte.
pub fn invalid_path_message() -> (message: &'static str)
    ensures
        message@ == "path contains NUL"@,
{
    "path contains NUL"
}

/// How far providing the directory has come.
#[derive(Debug, PartialEq, Eq)]
pub enum DirReached<E> {
    Begun,
    Inspected(DirEntry<E>),
    /// What stood in the way was removed, or could not be.
    Removed(Result<(), E>),
    /// The directory was created, or could not be.
    Created(Result<(), E>),
    /// The directory was opened without following links, or could not be.
    Opened(Result<(), E>),
    /// Who the process acts as, and what is known of the groups that the directory may have.
    IdentityRead { euid: u32, groups: GroupSources },
    /// Owner and group were set, or could not be.
    OwnerSet(Result<(), E>),
    /// The mode was set, or could not be.
    ModeSet(Result<(), E>),
    /// The directory was closed, after what went wrong, if anything did.
    Closed(Result<(), E>),
}

/// What providing the directory does next.
#[derive(Debug, PartialEq, Eq)]
pub enum DirStep<E> {
    /// Find out what is at the path, links not followed.
    Inspect,
    /// Remove what is at the path.
    Remove,
    /// Create the directory and what leads to it.
    Create,
    /// Open the directory at this path, which is in the system's form; fail if it is no directory or
    /// is a link.
    OpenNoFollow(Vec<u8>),
    /// Find out who the process acts as and which groups the directory may have.
    ReadIdentity,
    /// Set owner and group of what was opened.
    SetOwner { uid: u32, gid: u32 },
    /// Set the mode of what was opened.
    SetMode(u32),
    /// Close what was opened, after what went wrong, if anything did.
    Close(Result<(), E>),
    /// End successfully.
    Finish,
    /// End with this error.
    Fail(E),
    /// End because the path holds a zero byte.
    InvalidPath,
}

/// The model of a [`DirStep`].
pub enum DirStepView<E> {
    Inspect,
    Remove,
    Create,
    OpenNoFollow(Seq<u8>),
    ReadIdentity,
    SetOwner { uid: u32, gid: u32 },
    SetMode(u32),
    Close(Result<(), E>),
    Finish,
    Fail(E),
    InvalidPath,
}

impl<E> View for DirStep<E> {
    type V = DirStepView<E>;

    open spec fn view(&self) -> DirStepView<E> {
        match *self {
            DirStep::Inspect => DirStepView::Inspect,
            DirStep::Remove => DirStepView::Remove,
            DirStep::Create => DirStepView::Create,
            DirStep::OpenNoFollow(path) => DirStepView::OpenNoFollow(path@),
            DirStep::ReadIdentity => DirStepView::ReadIdentity,
            DirStep::SetOwner { uid, gid } => DirStepView::SetOwner { uid, gid },
            DirStep::SetMode(mode) => DirStepView::SetMode(mode),
            DirStep::Close(outcome) => DirStepView::Close(outcome),
            DirStep::Finish => DirStepView::Finish,
            DirStep::Fail(error) => DirStepView::Fail(error),
            DirStep::InvalidPath => DirStepView::InvalidPath,
        }
    }
}

/// The step that opens the directory at `path`, or ends if the path has no form for the system.
pub open spec fn open_step<E>(path: Seq<u8>) -> DirStepView<E> {
    if path.contains(0u8) {
        DirStepView::InvalidPath
    } else {
        DirStepView::OpenNoFollow(path.push(0u8))
    }
}

/// The step of providing the directory at `path`.
pub open spec fn dir_step<E>(path: Seq<u8>, reached: DirReached<E>) -> DirStepView<E> {
    match reached {
        DirReached::Begun => DirStepView::Inspect,
        DirReached::Inspected(DirEntry::Directory(_)) => open_step(path),
        DirReached::Inspected(DirEntry::NotADirectory) => DirStepView::Remove,
        DirReached::Inspected(DirEntry::Failed(kind, error)) => if kind
            == ErrorKind::NotFound {
            DirStepView::Create
        } else {
            DirStepView::Fail(error)
        },
        DirReached::Removed(Ok(_)) => DirStepView::Create,
        DirReached::Removed(Err(error)) => DirStepView::Fail(error),
        DirReached::Created(Ok(_)) => open_step(path),
        DirReached::Created(Err(error)) => DirStepView::Fail(error),
        DirReached::Opened(Ok(_)) => DirStepView::ReadIdentity,
        DirReached::Opened(Err(error)) => DirStepView::Fail(error),
        DirReached::IdentityRead { euid, groups } => if euid == ROOT_UID {
            DirStepView::SetOwner { uid: ROOT_UID, gid: groups.wanted() }
        } else {
            DirStepView::SetMode(IPC_DIR_MODE)
        },
        DirReached::OwnerSet(Ok(_)) => DirStepView::SetMode(IPC_DIR_MODE),
        DirReached::OwnerSet(Err(error)) => DirStepView::Close(Err(error)),
        DirReached::ModeSet(outcome) => DirStepView::Close(outcome),
        DirReached::Closed(Ok(_)) => DirStepView::Finish,
        DirReached::Closed(Err(error)) => DirStepView::Fail(error),
    }
}

/// The step that opens the directory at `path`, or ends if the path has no form for the system.
fn open_directory<E>(path: &Vec<u8>) -> (step: DirStep<E>)
    ensures
        step@ == open_step::<E>(path@),
{
    match c_path(path) {
        Some(terminated) => DirStep::OpenNoFollow(terminated),
        None => DirStep::InvalidPath,
    }
}

/// The next step of providing the directory at `path`.
///
/// The directory's path may lie where anybody can write. Whatever is there is therefore never
/// followed: a link is removed, and owner and mode are set on the opened directory and not on its
/// path. Where the service acts as root it takes the directory over; elsewhere it can set the
/// mode alone.
pub fn ensure_ipc_dir<E>(path: &Vec<u8>, reached: DirReached<E>) -> (step: DirStep<E>)
    ensures
        step@ == dir_step(path@, reached),
{
    match reached {
        DirReached::Begun => DirStep::Inspect,
        DirReached::Inspected(DirEntry::Directory(_)) => open_directory(path),
        DirReached::Inspected(DirEntry::NotADirectory) => DirStep::Remove,
        DirReached::Inspected(DirEntry::Failed(kind, error)) => match kind {
            ErrorKind::NotFound => DirStep::Create,
            _ => DirStep::Fail(error),
        },
        DirReached::Removed(Ok(_)) => DirStep::Create,
        DirReached::Removed(Err(error)) => DirStep::Fail(error),
        DirReached::Created(Ok(_)) => open_directory(path),
        DirReached::Created(Err(error)) => DirStep::Fail(error),
        DirReached::Opened(Ok(_)) => DirStep::ReadIdentity,
        DirReached::Opened(Err(error)) => DirStep::Fail(error),
        DirReached::IdentityRead { euid, groups } => if euid == ROOT_UID {
            DirStep::SetOwner { uid: ROOT_UID, gid: resolve_ipc_dir_gid(&groups) }
        } else {
            DirStep::SetMode(IPC_DIR_MODE)
        },
        DirReached::OwnerSet(Ok(_)) => DirStep::SetMode(IPC_DIR_MODE),
        DirReached::OwnerSet(Err(error)) => DirStep::Close(Err(error)),
        DirReached::ModeSet(outcome) => DirStep::Close(outcome),
        DirReached::Closed(Ok(_)) => DirStep::Finish,
        DirReached::Closed(Err(error)) => DirStep::Fail(error),
    }
}

/// What making the directory does next.
#[derive(Clone, Copy, Debug, PartialEq, Eq, Structural)]
pub enum MakeDirStep {
    /// Provide the directory.
    Ensure,
    /// There is nothing to do.
    Skip,
}

/// The step of making the directory.
pub open spec fn make_dir_step(sockets_are_files: bool, has_parent: bool) -> MakeDirStep {
    if sockets_are_files && has_parent {
        MakeDirStep::Ensure
    } else {
        MakeDirStep::Skip
    }
}

/// Whether the socket needs a directory: where sockets are files, and this one's path has a
/// directory in front.
pub fn make_ipc_dir(sockets_are_files: bool, has_parent: bool) -> (step: MakeDirStep)
    ensures
        step == make_dir_step(sockets_are_files, has_parent),
{
    if sockets_are_files && has_parent {
        MakeDirStep::Ensure
    } else {
        MakeDirStep::Skip
    }
}

/// How far the watchdog of the directory has come.
#[derive(Debug, PartialEq, Eq)]
pub enum WatchdogReached<E> {
    /// A watchdog was asked for; the flag says whether there already was one.
    Requested(bool),
    /// The interval is over. The first flag says whether the socket's path has a directory in
    /// front, the second whether there is something there.
    Ticked { has_parent: bool, exists: bool },
    /// What is there now, and what is known of the groups that the directory may have.
    Inspected { entry: DirEntry<E>, groups: GroupSources },
    /// The directory was provided, or could not be.
    Ensured,
}

/// What the watchdog does next.
#[derive(Clone, Copy, Debug, PartialEq, Eq, Structural)]
pub enum WatchdogStep {
    /// Leave it to the watchdog that there already is.
    Decline,
    /// Wait for the end of an interval of that many seconds.
    Wait(u64),
    /// Find out what is there, links not followed.
    Inspect,
    /// Provide the directory; a failure to do so does not end the watch.
    Ensure,
}

/// Whether what is there is not the directory as it should be.
pub open spec fn needs_fix<E>(entry: DirEntry<E>, wanted: u32) -> bool {
    match entry {
        DirEntry::Directory(gid) => gid != wanted,
        _ => true,
    }
}

/// The step of the watchdog.
pub open spec fn watchdog_step<E>(reached: WatchdogReached<E>) -> WatchdogStep {
    match reached {
        WatchdogReached::Requested(already) => if already {
            WatchdogStep::Decline
        } else {
            WatchdogStep::Wait(WATCHDOG_INTERVAL_SECS)
        },
        WatchdogReached::Ticked { has_parent, exists } => if !has_parent {
            WatchdogStep::Wait(WATCHDOG_INTERVAL_SECS)
        } else if !exists {
            WatchdogStep::Ensure
        } else {
            WatchdogStep::Inspect
        },
        WatchdogReached::Inspected { entry, groups } => if needs_fix(entry, groups.wanted()) {
            WatchdogStep::Ensure
        } else {
            WatchdogStep::Wait(WATCHDOG_INTERVAL_SECS)
        },
        WatchdogReached::Ensured => WatchdogStep::Wait(WATCHDOG_INTERVAL_SECS),
    }
}

/// The next step of the watchdog of the socket's directory.
///
/// A directory that is gone is provided again. One whose group is out of date, or whose place is
/// taken by something else, is put right; one that is as it should be is left alone.
pub fn spawn_socket_dir_watchdog<E>(reached: WatchdogReached<E>) -> (step: WatchdogStep)
    ensures
        step == watchdog_step(reached),
{
    match reached {
        WatchdogReached::Requested(already) => if already {
            WatchdogStep::Decline
        } else {
            WatchdogStep::Wait(WATCHDOG_INTERVAL_SECS)
        },
        WatchdogReached::Ticked { has_parent, exists } => if !has_parent {
            WatchdogStep::Wait(WATCHDOG_INTERVAL_SECS)
        } else if !exists {
            WatchdogStep::Ensure
        } else {
            WatchdogStep::Inspect
        },
        WatchdogReached::Inspected { entry, groups } => {
            let fix = match entry {
                DirEntry::Directory(gid) => gid != resolve_ipc_dir_gid(&groups),
                _ => true,
            };
            if fix {
                WatchdogStep::Ensure
            } else {
                WatchdogStep::Wait(WATCHDOG_INTERVAL_SECS)
            }
        },
        WatchdogReached::Ensured => WatchdogStep::Wait(WATCHDOG_INTERVAL_SECS),
    }
}

/// Asks for the watchdog. `started` says whether there is one, and afterwards there is.
pub fn request_watchdog(started: &mut bool) -> (step: WatchdogStep)
    ensures
        step == watchdog_step(WatchdogReached::<()>::Requested(*old(started))),
        *final(started),
{
    let already = *started;
    *started = true;
    spawn_socket_dir_watchdog::<()>(WatchdogReached::Requested(already))
}

} // verus!
