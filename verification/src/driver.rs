//! A driver that exercises a running service: waits for it, starts a stand-in core, stops both.

use crate::clock::duration_of_millis;
use crate::config::ClashConfig;
use crate::config::CoreConfig;
use crate::config::WriterConfig;
use std::time::Duration;
use vstd::prelude::*;

verus! {

/// Nanoseconds that the driver waits for the service.
pub const IPC_READY_TIMEOUT_NANOS: u128 = 20_000_000_000;

/// Milliseconds between two attempts to reach the service.
pub const IPC_PROBE_INTERVAL_MILLIS: u64 = 250;

/// Milliseconds that one attempt to reach the service may take.
pub const PROBE_TIMEOUT_MILLIS: u64 = 250;

/// Times that an attempt to reach the service is repeated at once.
pub const PROBE_RETRIES: usize = 1;

/// Milliseconds between such repetitions.
pub const PROBE_RETRY_MILLIS: u64 = 25;

/// What the driver can be told to do.
#[derive(Clone, Copy, Debug, PartialEq, Eq, Structural)]
pub enum DriverCommand {
    Ping,
    Start,
    Stop,
}

impl DriverCommand {
    /// The word for a command.
    pub open spec fn word(self) -> Seq<char> {
        match self {
            DriverCommand::Ping => "ping"@,
            DriverCommand::Start => "start"@,
            DriverCommand::Stop => "stop"@,
        }
    }
}

/// The command among the driver's arguments, of which the first is the driver's own name; further
/// arguments do not matter.
pub fn parse_driver_command(args: &Vec<String>) -> (command: Option<DriverCommand>)
    ensures
        forall|c: DriverCommand|
            command == Some(c) <==> args@.len() >= 2 && args@[1]@ == #[trigger] c.word(),
{
    proof {
        reveal_strlit("ping");
        reveal_strlit("start");
        reveal_strlit("stop");
        assert("ping"@[0] == 'p');
        assert("start"@.len() == 5 && "stop"@.len() == 4 && "ping"@.len() == 4);
        assert("stop"@[0] == 's');
    }
    if args.len() < 2 {
        return None;
    }
    if args[1] == "ping".to_owned() {
        Some(DriverCommand::Ping)
    } else if args[1] == "start".to_owned() {
        Some(DriverCommand::Start)
    } else if args[1] == "stop".to_owned() {
        Some(DriverCommand::Stop)
    } else {
        None
    }
}

/// What is said of arguments without a command.
pub fn usage() -> (text: &'static str)
    ensures
        text@ == "usage: service-integration-driver <ping|start|stop>"@,
{
    "usage: service-integration-driver <ping|start|stop>"
}

/// How a client talks to the service.
#[derive(Clone, Copy, Debug, PartialEq, Eq)]
pub struct IpcConfig {
    pub default_timeout: Duration,
    pub max_retries: usize,
    pub retry_delay: Duration,
}

/// How the driver talks to the service while it waits for it.
pub open spec fn probe_config() -> IpcConfig {
    IpcConfig {
        default_timeout: duration_of_millis(PROBE_TIMEOUT_MILLIS),
        max_retries: PROBE_RETRIES,
        retry_delay: duration_of_millis(PROBE_RETRY_MILLIS),
    }
}

/// How far waiting for the service has come.
#[derive(Clone, Copy, Debug, PartialEq, Eq, Structural)]
pub enum ReadyReached {
    Begun,
    /// The client was configured.
    Configured,
    /// The monotonic clock reads `now`; it read `start` once the client was configured.
    ClockRead { start: u128, now: u128 },
    /// The flag says whether the service answered.
    Probed(bool),
    /// The pause is over.
    Paused,
    /// The client has its own configuration back. The flag says whether the service answered.
    Restored(bool),
}

/// What waiting for the service does next.
#[derive(Clone, Copy, Debug, PartialEq, Eq)]
pub enum ReadyStep {
    /// Configure the client.
    Configure(IpcConfig),
    /// Read the monotonic clock.
    ReadClock,
    /// Ask the service for its status.
    Probe,
    /// Wait that many milliseconds.
    Pause(u64),
    /// Give the client its own configuration back. The flag says whether the service answered.
    Restore(bool),
    /// End successfully.
    Finish,
    /// End because the service did not answer in time.
    TimedOut,
}

/// The step of waiting for the service.
pub open spec fn ready_step(reached: ReadyReached) -> ReadyStep {
    match reached {
        ReadyReached::Begun => ReadyStep::Configure(probe_config()),
        ReadyReached::Configured => ReadyStep::ReadClock,
        ReadyReached::ClockRead { start, now } => if now < start + IPC_READY_TIMEOUT_NANOS {
            ReadyStep::Probe
        } else {
            ReadyStep::Restore(false)
        },
        ReadyReached::Probed(answered) => if answered {
            ReadyStep::Restore(true)
        } else {
            ReadyStep::Pause(IPC_PROBE_INTERVAL_MILLIS)
        },
        ReadyReached::Paused => ReadyStep::ReadClock,
        ReadyReached::Restored(answered) => if answered {
            ReadyStep::Finish
        } else {
            ReadyStep::TimedOut
        },
    }
}

/// The next step of waiting for the service.
pub fn wait_ipc_ready(reached: ReadyReached) -> (step: ReadyStep)
    ensures
        step == ready_step(reached),
{
    match reached {
        ReadyReached::Begun => ReadyStep::Configure(
            IpcConfig {
                default_timeout: Duration::from_millis(PROBE_TIMEOUT_MILLIS),
                max_retries: PROBE_RETRIES,
                retry_delay: Duration::from_millis(PROBE_RETRY_MILLIS),
            },
        ),
        ReadyReached::Configured => ReadyStep::ReadClock,
        ReadyReached::ClockRead { start, now } => if now.saturating_sub(start)
            < IPC_READY_TIMEOUT_NANOS {
            ReadyStep::Probe
        } else {
            ReadyStep::Restore(false)
        },
        ReadyReached::Probed(answered) => if answered {
            ReadyStep::Restore(true)
        } else {
            ReadyStep::Pause(IPC_PROBE_INTERVAL_MILLIS)
        },
        ReadyReached::Paused => ReadyStep::ReadClock,
        ReadyReached::Restored(answered) => if answered {
            ReadyStep::Finish
        } else {
            ReadyStep::TimedOut
        },
    }
}

/// What is said of a service that did not answer in time.
pub fn not_reachable_message() -> (message: &'static str)
    ensures
        message@ == "IPC server not reachable within 20s"@,
{
    "IPC server not reachable within 20s"
}

/// The file name of the stand-in core, which lies beside the driver.
pub fn mock_binary_name(windows: bool) -> (name: &'static str)
    ensures
        name@ == (if windows {
            "mock_binary.exe"@
        } else {
            "mock_binary"@
        }),
{
    if windows {
        "mock_binary.exe"
    } else {
        "mock_binary"
    }
}

/// How far providing the stand-in core has come.
#[derive(Debug, PartialEq, Eq)]
pub enum MockReached<E> {
    Begun,
    /// It was found out where the driver lies, or could not be.
    DriverLocated(Result<(), E>),
    /// The flag says whether the stand-in core is there.
    LookedFor(bool),
    /// The build was run, and the flag says whether it succeeded; or it could not be run.
    Built(Result<bool, E>),
    /// The flag says whether the stand-in core is there now.
    LookedForAgain(bool),
}

/// What providing the stand-in core does next.
#[derive(Debug, PartialEq, Eq)]
pub enum MockStep<E> {
    /// Find out where the driver lies.
    LocateDriver,
    /// Look for the stand-in core beside it.
    LookFor,
    /// Build the stand-in core.
    Build,
    /// Look for it again.
    LookAgain,
    /// End with its path.
    Finish,
    /// End with this error.
    Fail(E),
    /// End because the build failed.
    BuildFailed,
    /// End because it is not there although it was built.
    NotFound,
}

/// The next step of providing the stand-in core: one that is there is used, one that is not is
/// built, once.
pub fn mock_binary_path<E>(reached: MockReached<E>) -> (step: MockStep<E>)
    ensures
        step == (match reached {
            MockReached::Begun => MockStep::LocateDriver,
            MockReached::DriverLocated(Ok(_)) => MockStep::LookFor,
            MockReached::DriverLocated(Err(error)) => MockStep::Fail(error),
            MockReached::LookedFor(true) => MockStep::Finish,
            MockReached::LookedFor(false) => MockStep::Build,
            MockReached::Built(Ok(true)) => MockStep::LookAgain,
            MockReached::Built(Ok(false)) => MockStep::BuildFailed,
            MockReached::Built(Err(error)) => MockStep::Fail(error),
            MockReached::LookedForAgain(true) => MockStep::Finish,
            MockReached::LookedForAgain(false) => MockStep::NotFound,
        }),
{
    match reached {
        MockReached::Begun => MockStep::LocateDriver,
        MockReached::DriverLocated(Ok(_)) => MockStep::LookFor,
        MockReached::DriverLocated(Err(error)) => MockStep::Fail(error),
        MockReached::LookedFor(exists) => if exists {
            MockStep::Finish
        } else {
            MockStep::Build
        },
        MockReached::Built(Ok(succeeded)) => if succeeded {
            MockStep::LookAgain
        } else {
            MockStep::BuildFailed
        },
        MockReached::Built(Err(error)) => MockStep::Fail(error),
        MockReached::LookedForAgain(exists) => if exists {
            MockStep::Finish
        } else {
            MockStep::NotFound
        },
    }
}

/// What is said of a stand-in core whose build failed.
pub fn build_failed_message() -> (message: &'static str)
    ensures
        message@ == "failed to build mock_binary"@,
{
    "failed to build mock_binary"
}

/// What is said of a stand-in core that is not there although it was built.
pub fn not_found_message() -> (message: &'static str)
    ensures
        message@ == "mock_binary not found after build"@,
{
    "mock_binary not found after build"
}

/// Whether a configuration starts the core at `core_path` and leaves everything else as it is by
/// default.
pub open spec fn starts_only(config: ClashConfig, core_path: Seq<char>) -> bool {
    &&& config.core_config.core_path@ == core_path
    &&& config.core_config.core_ipc_path@ == Seq::<char>::empty()
    &&& config.core_config.config_path@ == Seq::<char>::empty()
    &&& config.core_config.config_dir@ == Seq::<char>::empty()
    &&& config.log_config.directory@ == Seq::<char>::empty()
    &&& config.log_config.max_log_size == 0
    &&& config.log_config.max_log_files == 0
}

/// How far the driver's start has come.
#[derive(Debug, PartialEq, Eq)]
pub enum StartFlowReached<E> {
    Begun,
    /// The service answered, or did not in time.
    Waited(Result<(), E>),
    /// The path of the stand-in core was found, or it cannot be had.
    BinaryLocated(Result<String, E>),
    /// The service started the core, or could not.
    CoreStarted(Result<(), E>),
}

/// What the driver's start does next.
#[derive(Debug, PartialEq, Eq)]
pub enum StartFlowStep<E> {
    /// Wait for the service.
    Wait,
    /// Provide the stand-in core.
    LocateBinary,
    /// Have the service start the core.
    StartCore(ClashConfig),
    /// End successfully.
    Finish,
    /// End with this error.
    Fail(E),
}

/// Whether `step` is the step of the driver's start.
pub open spec fn start_flow_takes<E>(reached: StartFlowReached<E>, step: StartFlowStep<E>) -> bool {
    match reached {
        StartFlowReached::Begun => step == StartFlowStep::<E>::Wait,
        StartFlowReached::Waited(Ok(_)) => step == StartFlowStep::<E>::LocateBinary,
        StartFlowReached::Waited(Err(error)) => step == StartFlowStep::Fail(error),
        StartFlowReached::BinaryLocated(Ok(path)) => step matches StartFlowStep::StartCore(config)
            && starts_only(config, path@),
        StartFlowReached::BinaryLocated(Err(error)) => step == StartFlowStep::Fail(error),
        StartFlowReached::CoreStarted(Ok(_)) => step == StartFlowStep::<E>::Finish,
        StartFlowReached::CoreStarted(Err(error)) => step == StartFlowStep::Fail(error),
    }
}

/// The next step of the driver's start.
pub fn start_flow<E>(reached: StartFlowReached<E>) -> (step: StartFlowStep<E>)
    ensures
        start_flow_takes(reached, step),
{
    match reached {
        StartFlowReached::Begun => StartFlowStep::Wait,
        StartFlowReached::Waited(Ok(_)) => StartFlowStep::LocateBinary,
        StartFlowReached::Waited(Err(error)) => StartFlowStep::Fail(error),
        StartFlowReached::BinaryLocated(Ok(core_path)) => {
            let mut core_config = CoreConfig::default();
            core_config.core_path = core_path;
            StartFlowStep::StartCore(
                ClashConfig { core_config, log_config: WriterConfig::default() },
            )
        },
        StartFlowReached::BinaryLocated(Err(error)) => StartFlowStep::Fail(error),
        StartFlowReached::CoreStarted(Ok(_)) => StartFlowStep::Finish,
        StartFlowReached::CoreStarted(Err(error)) => StartFlowStep::Fail(error),
    }
}

/// How far the driver's stop has come.
#[derive(Clone, Copy, Debug, PartialEq, Eq, Structural)]
pub enum StopFlowReached {
    Begun,
    /// The service was asked to stop the core, successfully or not.
    CoreStopped,
    /// The listener was stopped, or could not be.
    ServerStopped,
}

/// What the driver's stop does next.
#[derive(Clone, Copy, Debug, PartialEq, Eq, Structural)]
pub enum StopFlowStep {
    /// Have the service stop the core; a failure to do so does not matter.
    StopCore,
    /// Stop the listener; a failure to do so does not matter.
    StopServer,
    /// End successfully.
    Finish,
}

/// The next step of the driver's stop.
pub fn stop_flow(reached: StopFlowReached) -> (step: StopFlowStep)
    ensures
        step == (match reached {
            StopFlowReached::Begun => StopFlowStep::StopCore,
            StopFlowReached::CoreStopped => StopFlowStep::StopServer,
            StopFlowReached::ServerStopped => StopFlowStep::Finish,
        }),
{
    match reached {
        StopFlowReached::Begun => StopFlowStep::StopCore,
        StopFlowReached::CoreStopped => StopFlowStep::StopServer,
        StopFlowReached::ServerStopped => StopFlowStep::Finish,
    }
}

/// What may be reported after a step of waiting for the service, whose clock read `start` once
/// the client was configured.
pub open spec fn ready_follows(start: u128, step: ReadyStep, reached: ReadyReached) -> bool {
    match step {
        ReadyStep::Configure(_) => reached is Configured,
        ReadyStep::ReadClock => reached matches ReadyReached::ClockRead { start: first, .. }
            && first == start,
        ReadyStep::Probe => reached is Probed,
        ReadyStep::Pause(_) => reached is Paused,
        ReadyStep::Restore(answered) => reached == ReadyReached::Restored(answered),
        ReadyStep::Finish | ReadyStep::TimedOut => false,
    }
}

/// Whether the report at `i` may follow the one before it.
pub open spec fn ready_link(start: u128, reports: Seq<ReadyReached>, i: int) -> bool {
    ready_follows(start, ready_step(reports[i - 1]), reports[i])
}

/// The reports of one wait, from the first on.
pub open spec fn ready_run(start: u128, reports: Seq<ReadyReached>) -> bool {
    &&& reports.len() > 0
    &&& reports[0] is Begun
    &&& forall|i: int| 0 < i < reports.len() ==> #[trigger] ready_link(start, reports, i)
}

/// Whichever way a wait ends, the client has its own configuration back. A wait ends successfully
/// only after the service answered, and in failure only after a clock reading past the timeout.
pub proof fn law_wait_restores_the_client(start: u128, reports: Seq<ReadyReached>)
    requires
        ready_run(start, reports),
        ready_step(reports.last()) is Finish || ready_step(reports.last()) is TimedOut,
    ensures
        reports.len() >= 3,
        reports.last() == ReadyReached::Restored(ready_step(reports.last()) is Finish),
        ready_step(reports.last()) is Finish ==> reports[reports.len() - 2]
            == ReadyReached::Probed(true),
        ready_step(reports.last()) is TimedOut ==> (reports[reports.len() - 2] matches
            ReadyReached::ClockRead { now, .. } && now >= start + IPC_READY_TIMEOUT_NANOS),
{
    let n = reports.len() as int;
    assert(ready_link(start, reports, n - 1));
    assert(ready_link(start, reports, n - 2));
}

/// When the driver asks and when it gives up: it asks at every reading of the clock that lies less
/// than twenty seconds after the first, pauses for a quarter of a second after every attempt that
/// was not answered, and gives the client its configuration back, whatever came of the wait, before
/// it ends as that says.
pub proof fn law_driver_asks_for_twenty_seconds(reached: ReadyReached, millis: u64, answered: bool)
    ensures
        ({
            let step = ready_step(reached);
            &&& step is Configure <==> reached is Begun
            &&& step is ReadClock <==> reached is Configured || reached is Paused
            &&& step is Probe <==> (reached matches ReadyReached::ClockRead { start, now } && now
                < start + 20_000_000_000)
            &&& step == ReadyStep::Pause(millis) <==> millis == 250 && reached
                == ReadyReached::Probed(false)
            &&& step == ReadyStep::Restore(answered) <==> {
                ||| answered && reached == ReadyReached::Probed(true)
                ||| !answered && (reached matches ReadyReached::ClockRead { start, now } && now
                    >= start + 20_000_000_000)
            }
            &&& step is Finish <==> reached == ReadyReached::Restored(true)
            &&& step is TimedOut <==> reached == ReadyReached::Restored(false)
            &&& step is Configure ==> {
                &&& step->Configure_0.default_timeout == duration_of_millis(250)
                &&& step->Configure_0.max_retries == 1
                &&& step->Configure_0.retry_delay == duration_of_millis(25)
            }
        }),
{
}

/// What the driver's start does, and when: it has a core started exactly once it was found where to
/// find it, at that very path, whatever that is, and with nothing else set; every failure ends it
/// with its own error.
pub proof fn law_driver_starts_what_it_found<E>(
    reached: StartFlowReached<E>,
    step: StartFlowStep<E>,
    error: E,
)
    requires
        start_flow_takes(reached, step),
    ensures
        step is Wait <==> reached is Begun,
        step is LocateBinary <==> (reached matches StartFlowReached::Waited(Ok(_))),
        step is StartCore <==> (reached matches StartFlowReached::BinaryLocated(Ok(_))),
        reached matches StartFlowReached::BinaryLocated(Ok(path)) ==> {
            let config = step->StartCore_0;
            &&& config.core_config.core_path@ == path@
            &&& config.core_config.core_ipc_path@.len() == 0
            &&& config.core_config.config_path@.len() == 0
            &&& config.core_config.config_dir@.len() == 0
            &&& config.log_config.directory@.len() == 0
            &&& config.log_config.max_log_size == 0
            &&& config.log_config.max_log_files == 0
        },
        step is Finish <==> (reached matches StartFlowReached::CoreStarted(Ok(_))),
        step == StartFlowStep::<E>::Fail(error) <==> {
            ||| reached == StartFlowReached::<E>::Waited(Err(error))
            ||| reached == StartFlowReached::<E>::BinaryLocated(Err(error))
            ||| reached == StartFlowReached::<E>::CoreStarted(Err(error))
        },
{
}

} // verus!
