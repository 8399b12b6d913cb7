//! Starting and stopping the IPC listener.

use vstd::prelude::*;

verus! {

/// Looks at whether the socket has appeared after a start.
pub const SOCKET_POLLS: u32 = 20;

/// Milliseconds between two such looks.
pub const SOCKET_POLL_MILLIS: u64 = 25;

/// Mode of the socket once it has appeared.
pub const SOCKET_MODE: u32 = 0o777;

/// Mode bits that files made by the listener's task do not get.
pub const SERVE_UMASK: u32 = 0o007;

/// Milliseconds after which a socket that does not answer counts as left over.
pub const STALE_PROBE_MILLIS: u64 = 500;

/// Milliseconds that a stop waits where the platform removes the pipe by itself.
pub const PIPE_RELEASE_MILLIS: u64 = 70;

/// Read permission of a file's owner.
pub const OWNER_READ: u32 = 0o400;

/// Write permission of a file's owner.
pub const OWNER_WRITE: u32 = 0o200;

/// Read permission of a file's group.
pub const GROUP_READ: u32 = 0o040;

/// Write permission of a file's group.
pub const GROUP_WRITE: u32 = 0o020;

/// Platforms that differ in how a listener is protected.
#[derive(Clone, Copy, Debug, PartialEq, Eq, Structural)]
pub enum Platform {
    MacOs,
    OtherUnix,
    Windows,
}

/// How a listener is protected.
#[derive(Clone, Copy, Debug, PartialEq, Eq)]
pub enum ListenerAccess {
    /// As the platform does it.
    Default,
    /// By this file mode.
    Mode(u32),
    /// By this security descriptor.
    SecurityDescriptor(&'static str),
}

/// How the IPC listener is protected: owner and group may connect, everybody on a platform whose
/// pipes know no group.
pub fn create_ipc_server(platform: Platform) -> (access: ListenerAccess)
    ensures
        match platform {
            Platform::MacOs => access == ListenerAccess::Default,
            Platform::OtherUnix => access == ListenerAccess::Mode(0o660),
            Platform::Windows => access matches ListenerAccess::SecurityDescriptor(descriptor)
                && descriptor@ == "D:(A;;GA;;;WD)"@,
        },
{
    match platform {
        Platform::MacOs => ListenerAccess::Default,
        Platform::OtherUnix => {
            assert(0o400u32 | 0o200u32 | 0o040u32 | 0o020u32 == 0o660u32) by (bit_vector);
            ListenerAccess::Mode(OWNER_READ | OWNER_WRITE | GROUP_READ | GROUP_WRITE)
        },
        Platform::Windows => ListenerAccess::SecurityDescriptor("D:(A;;GA;;;WD)"),
    }
}

/// What is said of a start for which there is no server.
pub fn not_initialized_message() -> (message: &'static str)
    ensures
        message@ == "IPC server not initialized"@,
{
    "IPC server not initialized"
}

/// How far a start has come.
#[derive(Debug, PartialEq, Eq)]
pub enum StartReached<E> {
    /// No other start or stop is under way.
    Begun,
    /// The socket's directory was made, or could not be.
    DirectoryMade(Result<(), E>),
    /// A left-over socket was dealt with, or could not be.
    StaleSocketCleaned(Result<(), E>),
    /// The server was set up, or could not be.
    ServerSetUp(Result<(), E>),
    /// The means to signal the end, and to learn of it, are in place.
    SignalsInstalled,
    /// The flag says whether there was a server to take.
    ServerTaken(bool),
    /// The server runs in a task of its own. The flag says whether its socket is a file.
    TaskSpawned(bool),
    /// The look of this number, counted from zero. The flag says whether the socket was there.
    SocketPolled(u32, bool),
    /// The pause after the look of this number is over.
    PollPaused(u32),
    /// The socket's mode was set, or could not be.
    SocketModeSet(Result<(), E>),
    /// It was noted that the socket did not appear.
    MissingSocketNoted,
    /// The watchdog of the socket's directory was asked for.
    WatchdogRequested,
}

/// What a start does next.
#[derive(Debug, PartialEq, Eq)]
pub enum StartStep<E> {
    /// Make the socket's directory.
    MakeDirectory,
    /// Remove a socket that was left over.
    CleanStaleSocket,
    /// Create the server with its routes and put it where it can be taken.
    SetUpServer,
    /// Put the means to signal the end, and to learn of it, in place.
    InstallSignals,
    /// Take the server.
    TakeServer,
    /// Run the server in a task of its own.
    SpawnTask,
    /// Look whether the socket is there, for the time of this number.
    PollSocket(u32),
    /// Wait that many milliseconds after the look of this number.
    PausePolling { poll: u32, millis: u64 },
    /// Set the socket's mode.
    SetSocketMode(u32),
    /// Note that the socket did not appear.
    NoteMissingSocket,
    /// Ask for the watchdog of the socket's directory.
    RequestWatchdog,
    /// End successfully with the task.
    Finish,
    /// End with this error.
    Fail(E),
    /// End because there is no server to start.
    NotInitialized,
}

/// The step of a start.
pub open spec fn start_step<E>(reached: StartReached<E>) -> StartStep<E> {
    match reached {
        StartReached::Begun => StartStep::MakeDirectory,
        StartReached::DirectoryMade(Ok(_)) => StartStep::CleanStaleSocket,
        StartReached::DirectoryMade(Err(error)) => StartStep::Fail(error),
        StartReached::StaleSocketCleaned(Ok(_)) => StartStep::SetUpServer,
        StartReached::StaleSocketCleaned(Err(error)) => StartStep::Fail(error),
        StartReached::ServerSetUp(Ok(_)) => StartStep::InstallSignals,
        StartReached::ServerSetUp(Err(error)) => StartStep::Fail(error),
        StartReached::SignalsInstalled => StartStep::TakeServer,
        StartReached::ServerTaken(taken) => if taken {
            StartStep::SpawnTask
        } else {
            StartStep::NotInitialized
        },
        StartReached::TaskSpawned(socket_is_file) => if socket_is_file {
            StartStep::PollSocket(0)
        } else {
            StartStep::Finish
        },
        StartReached::SocketPolled(poll, exists) => if exists {
            StartStep::SetSocketMode(SOCKET_MODE)
        } else {
            StartStep::PausePolling { poll, millis: SOCKET_POLL_MILLIS }
        },
        StartReached::PollPaused(poll) => if poll + 1 < SOCKET_POLLS {
            StartStep::PollSocket((poll + 1) as u32)
        } else {
            StartStep::NoteMissingSocket
        },
        StartReached::SocketModeSet(Ok(_)) => StartStep::RequestWatchdog,
        StartReached::SocketModeSet(Err(error)) => StartStep::Fail(error),
        StartReached::MissingSocketNoted => StartStep::RequestWatchdog,
        StartReached::WatchdogRequested => StartStep::Finish,
    }
}

/// The next step of a start of the IPC listener.
pub fn run_ipc_server<E>(reached: StartReached<E>) -> (step: StartStep<E>)
    ensures
        step == start_step(reached),
{
    match reached {
        StartReached::Begun => StartStep::MakeDirectory,
        StartReached::DirectoryMade(Ok(_)) => StartStep::CleanStaleSocket,
        StartReached::DirectoryMade(Err(error)) => StartStep::Fail(error),
        StartReached::StaleSocketCleaned(Ok(_)) => StartStep::SetUpServer,
        StartReached::StaleSocketCleaned(Err(error)) => StartStep::Fail(error),
        StartReached::ServerSetUp(Ok(_)) => StartStep::InstallSignals,
        StartReached::ServerSetUp(Err(error)) => StartStep::Fail(error),
        StartReached::SignalsInstalled => StartStep::TakeServer,
        StartReached::ServerTaken(taken) => if taken {
            StartStep::SpawnTask
        } else {
            StartStep::NotInitialized
        },
        StartReached::TaskSpawned(socket_is_file) => if socket_is_file {
            StartStep::PollSocket(0)
        } else {
            StartStep::Finish
        },
        StartReached::SocketPolled(poll, exists) => if exists {
            StartStep::SetSocketMode(SOCKET_MODE)
        } else {
            StartStep::PausePolling { poll, millis: SOCKET_POLL_MILLIS }
        },
        StartReached::PollPaused(poll) => if poll < SOCKET_POLLS - 1 {
            StartStep::PollSocket(poll + 1)
        } else {
            StartStep::NoteMissingSocket
        },
        StartReached::SocketModeSet(Ok(_)) => StartStep::RequestWatchdog,
        StartReached::SocketModeSet(Err(error)) => StartStep::Fail(error),
        StartReached::MissingSocketNoted => StartStep::RequestWatchdog,
        StartReached::WatchdogRequested => StartStep::Finish,
    }
}

/// How far the listener's task has come.
#[derive(Debug, PartialEq, Eq)]
pub enum TaskReached<E> {
    /// The flag says whether the platform has a mask for the modes of new files.
    Begun(bool),
    /// That mask was set.
    MaskSet,
    /// The server ended by itself, in this way, before the end was signalled.
    Served(Result<(), E>),
    /// The end was signalled while the server was running.
    Signalled,
    /// It was reported that the task ends; this is its outcome.
    EndReported(Result<(), E>),
}

/// What the listener's task does next.
#[derive(Debug, PartialEq, Eq)]
pub enum TaskStep<E> {
    /// Set the mask for the modes of new files.
    SetMask(u32),
    /// Run the server until it ends by itself or the end is signalled.
    Serve,
    /// Report that the task ends; this will be its outcome.
    ReportEnd(Result<(), E>),
    /// End with this outcome.
    Finish(Result<(), E>),
}

/// The step of the listener's task.
pub open spec fn task_step<E>(reached: TaskReached<E>) -> TaskStep<E> {
    match reached {
        TaskReached::Begun(has_mask) => if has_mask {
            TaskStep::SetMask(SERVE_UMASK)
        } else {
            TaskStep::Serve
        },
        TaskReached::MaskSet => TaskStep::Serve,
        TaskReached::Served(outcome) => TaskStep::ReportEnd(outcome),
        TaskReached::Signalled => TaskStep::ReportEnd(Ok(())),
        TaskReached::EndReported(outcome) => TaskStep::Finish(outcome),
    }
}

/// The next step of the listener's task.
pub fn serve_until_signalled<E>(reached: TaskReached<E>) -> (step: TaskStep<E>)
    ensures
        step == task_step(reached),
{
    match reached {
        TaskReached::Begun(has_mask) => if has_mask {
            TaskStep::SetMask(SERVE_UMASK)
        } else {
            TaskStep::Serve
        },
        TaskReached::MaskSet => TaskStep::Serve,
        TaskReached::Served(outcome) => TaskStep::ReportEnd(outcome),
        TaskReached::Signalled => TaskStep::ReportEnd(Ok(())),
        TaskReached::EndReported(outcome) => TaskStep::Finish(outcome),
    }
}

/// How far the removal of a left-over socket has come.
#[derive(Debug, PartialEq, Eq)]
pub enum StaleReached<E> {
    /// The flag says whether the socket is a file.
    Begun(bool),
    /// The flag says whether the socket is there.
    LookedFor(bool),
    /// The flag says whether somebody answered at the socket in time.
    Probed(bool),
    /// The socket was removed, or could not be.
    Removed(Result<(), E>),
}

/// What the removal of a left-over socket does next.
#[derive(Debug, PartialEq, Eq)]
pub enum StaleStep<E> {
    /// Look whether the socket is there.
    LookFor,
    /// Connect to the socket, waiting that many milliseconds at most.
    Probe(u64),
    /// Remove the socket.
    Remove,
    /// End successfully.
    Finish,
    /// End with this error of the removal.
    Fail(E),
}

/// The step of the removal of a left-over socket.
pub open spec fn stale_step<E>(reached: StaleReached<E>) -> StaleStep<E> {
    match reached {
        StaleReached::Begun(socket_is_file) => if socket_is_file {
            StaleStep::LookFor
        } else {
            StaleStep::Finish
        },
        StaleReached::LookedFor(exists) => if exists {
            StaleStep::Probe(STALE_PROBE_MILLIS)
        } else {
            StaleStep::Finish
        },
        StaleReached::Probed(answered) => if answered {
            StaleStep::Finish
        } else {
            StaleStep::Remove
        },
        StaleReached::Removed(Ok(_)) => StaleStep::Finish,
        StaleReached::Removed(Err(error)) => StaleStep::Fail(error),
    }
}

/// The next step of the removal of a left-over socket. A socket at which somebody answers is left
/// in place.
pub fn cleanup_stale_ipc_socket<E>(reached: StaleReached<E>) -> (step: StaleStep<E>)
    ensures
        step == stale_step(reached),
{
    match reached {
        StaleReached::Begun(socket_is_file) => if socket_is_file {
            StaleStep::LookFor
        } else {
            StaleStep::Finish
        },
        StaleReached::LookedFor(exists) => if exists {
            StaleStep::Probe(STALE_PROBE_MILLIS)
        } else {
            StaleStep::Finish
        },
        StaleReached::Probed(answered) => if answered {
            StaleStep::Finish
        } else {
            StaleStep::Remove
        },
        StaleReached::Removed(Ok(_)) => StaleStep::Finish,
        StaleReached::Removed(Err(error)) => StaleStep::Fail(error),
    }
}

/// Whether the socket is to be removed after a stop: where it is a file, and is there.
pub fn cleanup_ipc_path(socket_is_file: bool, exists: bool) -> (remove: bool)
    ensures
        remove == (socket_is_file && exists),
{
    socket_is_file && exists
}

/// How far a stop has come.
#[derive(Debug, PartialEq, Eq)]
pub enum StopReached<E> {
    /// No other start or stop is under way.
    Begun,
    /// The core was stopped, or could not be.
    CoreStopped,
    /// The flag says whether there was a means to signal the end.
    SenderTaken(bool),
    /// The end was signalled.
    Signalled,
    /// The flag says whether there was a means to learn of the end.
    ReceiverTaken(bool),
    /// The listener's task has ended.
    EndAwaited,
    /// The server was shut down.
    ServerShutDown,
    /// Whether the socket is a file, which the platform does not remove by itself, and whether it is
    /// there.
    SocketLookedFor { socket_is_file: bool, exists: bool },
    /// The socket was removed, or could not be.
    SocketRemoved(Result<(), E>),
    /// The pause is over.
    Paused,
}

/// What a stop does next.
#[derive(Debug, PartialEq, Eq)]
pub enum StopStep<E> {
    /// Stop the core; a failure to do so does not matter.
    StopCore,
    /// Take the means to signal the end.
    TakeSender,
    /// Signal the end.
    Signal,
    /// Take the means to learn of the end.
    TakeReceiver,
    /// Wait until the listener's task has ended.
    AwaitEnd,
    /// Shut the server down.
    ShutDownServer,
    /// Look whether the socket is there.
    LookForSocket,
    /// Remove the socket.
    RemoveSocket,
    /// Wait that many milliseconds.
    Pause(u64),
    /// End successfully.
    Finish,
    /// End with this error of the removal.
    Fail(E),
}

/// The step of a stop.
pub open spec fn stop_step<E>(reached: StopReached<E>) -> StopStep<E> {
    match reached {
        StopReached::Begun => StopStep::StopCore,
        StopReached::CoreStopped => StopStep::TakeSender,
        StopReached::SenderTaken(taken) => if taken {
            StopStep::Signal
        } else {
            StopStep::TakeReceiver
        },
        StopReached::Signalled => StopStep::TakeReceiver,
        StopReached::ReceiverTaken(taken) => if taken {
            StopStep::AwaitEnd
        } else {
            StopStep::ShutDownServer
        },
        StopReached::EndAwaited => StopStep::ShutDownServer,
        StopReached::ServerShutDown => StopStep::LookForSocket,
        StopReached::SocketLookedFor { socket_is_file, exists } => if socket_is_file && exists {
            StopStep::RemoveSocket
        } else if socket_is_file {
            StopStep::Finish
        } else {
            StopStep::Pause(PIPE_RELEASE_MILLIS)
        },
        StopReached::SocketRemoved(Ok(_)) => StopStep::Finish,
        StopReached::SocketRemoved(Err(error)) => StopStep::Fail(error),
        StopReached::Paused => StopStep::Finish,
    }
}

/// The next step of a stop of the IPC listener, and of the core with it.
pub fn stop_ipc_server<E>(reached: StopReached<E>) -> (step: StopStep<E>)
    ensures
        step == stop_step(reached),
{
    match reached {
        StopReached::Begun => StopStep::StopCore,
        StopReached::CoreStopped => StopStep::TakeSender,
        StopReached::SenderTaken(taken) => if taken {
            StopStep::Signal
        } else {
            StopStep::TakeReceiver
        },
        StopReached::Signalled => StopStep::TakeReceiver,
        StopReached::ReceiverTaken(taken) => if taken {
            StopStep::AwaitEnd
        } else {
            StopStep::ShutDownServer
        },
        StopReached::EndAwaited => StopStep::ShutDownServer,
        StopReached::ServerShutDown => StopStep::LookForSocket,
        StopReached::SocketLookedFor { socket_is_file, exists } => if cleanup_ipc_path(socket_is_file, exists) {
            StopStep::RemoveSocket
        } else if socket_is_file {
            StopStep::Finish
        } else {
            StopStep::Pause(PIPE_RELEASE_MILLIS)
        },
        StopReached::SocketRemoved(Ok(_)) => StopStep::Finish,
        StopReached::SocketRemoved(Err(error)) => StopStep::Fail(error),
        StopReached::Paused => StopStep::Finish,
    }
}

} // verus!
