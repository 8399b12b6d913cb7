//! IPC commands: how they are addressed and how they are carried out.

use crate::config::ClashConfig;
use crate::config::WriterConfig;
use crate::reply::ok_empty;
use crate::reply::ok_json;
use crate::reply::service_unavailable;
use crate::reply::text_reply;
use crate::reply::Reply;
use crate::reply::ReplyView;
use crate::reply::STATUS_BAD_REQUEST;
use crate::reply::STATUS_OK;
use crate::text::concat_text;
use vstd::prelude::*;

verus! {

/// What a client can ask for.
#[derive(Clone, Copy, Debug, PartialEq, Eq, Structural)]
pub enum IpcCommand {
    /// Prove that the service is there.
    Magic,
    GetVersion,
    Status,
    StartClash,
    GetClashLogs,
    StopClash,
    UpdateWriter,
}

/// How a client asks for it.
#[derive(Clone, Copy, Debug, PartialEq, Eq, Structural)]
pub enum IpcMethod {
    Get,
    Post,
    Put,
    Delete,
}

/// A command and the method under which it is served.
#[derive(Clone, Copy, Debug, PartialEq, Eq, Structural)]
pub struct Route {
    pub method: IpcMethod,
    pub command: IpcCommand,
}

/// The method under which a command is served: commands that only read are got, the others are
/// posted, put or deleted.
pub open spec fn method_of(command: IpcCommand) -> IpcMethod {
    match command {
        IpcCommand::StartClash => IpcMethod::Post,
        IpcCommand::StopClash => IpcMethod::Delete,
        IpcCommand::UpdateWriter => IpcMethod::Put,
        _ => IpcMethod::Get,
    }
}

/// The route of a command.
pub open spec fn route_of(command: IpcCommand) -> Route {
    Route { method: method_of(command), command }
}

/// The routes, in the order in which they are registered.
pub open spec fn routes() -> Seq<Route> {
    seq![
        route_of(IpcCommand::Magic),
        route_of(IpcCommand::GetVersion),
        route_of(IpcCommand::Status),
        route_of(IpcCommand::StartClash),
        route_of(IpcCommand::GetClashLogs),
        route_of(IpcCommand::StopClash),
        route_of(IpcCommand::UpdateWriter),
    ]
}

/// The routes that the service registers, in their order.
pub fn create_ipc_router() -> (table: Vec<Route>)
    ensures
        table@ == routes(),
{
    let table = vec![
        Route { method: IpcMethod::Get, command: IpcCommand::Magic },
        Route { method: IpcMethod::Get, command: IpcCommand::GetVersion },
        Route { method: IpcMethod::Get, command: IpcCommand::Status },
        Route { method: IpcMethod::Post, command: IpcCommand::StartClash },
        Route { method: IpcMethod::Get, command: IpcCommand::GetClashLogs },
        Route { method: IpcMethod::Delete, command: IpcCommand::StopClash },
        Route { method: IpcMethod::Put, command: IpcCommand::UpdateWriter },
    ];
    assert(table@ =~= routes());
    table
}

/// How far a request has come. `D` is what a reply can carry, and `E` the error of the check of who
/// asks; other errors are given as they are to be shown.
#[derive(Debug, PartialEq, Eq)]
pub enum RequestReached<D, E> {
    /// The request arrived.
    Received,
    /// The client proved who it is, or did not.
    Authenticated(Result<(), E>),
    /// The version was looked up.
    VersionRead(D),
    /// The status was collected, or could not be.
    StatusCollected(Result<D, String>),
    /// The log was read.
    LogsRead(D),
    /// The configuration of the core was read from the request, or could not be.
    ClashConfigParsed(Result<ClashConfig, String>),
    /// The core was started with this configuration, or could not be.
    CoreStarted(ClashConfig, Result<(), String>),
    /// The start was stored, or could not be.
    StartStored(Result<(), String>),
    /// The core was stopped, or could not be.
    CoreStopped(Result<(), String>),
    /// The stop was stored, or could not be.
    StopStored(Result<(), String>),
    /// The configuration of the log was read from the request, or could not be.
    WriterConfigParsed(Result<WriterConfig, String>),
    /// The log is written as configured here, or could not be.
    WriterUpdated(WriterConfig, Result<(), String>),
    /// The configuration of the log was stored, or could not be.
    WriterStored(Result<(), String>),
}

/// What handling a request does next.
#[derive(Debug, PartialEq, Eq)]
pub enum RequestStep<D, E> {
    /// Check who the client is.
    Authenticate,
    /// End with this error of that check.
    Refuse(E),
    /// Look up the version.
    ReadVersion,
    /// Collect the status.
    CollectStatus,
    /// Read the log.
    ReadLogs,
    /// Read the configuration of the core from the request.
    ParseClashConfig,
    /// Start the core.
    StartCore(ClashConfig),
    /// Store that the core was started with this configuration.
    StoreStart(ClashConfig),
    /// Stop the core.
    StopCore,
    /// Store that the core was stopped.
    StoreStop,
    /// Read the configuration of the log from the request.
    ParseWriterConfig,
    /// Write the log as configured here.
    UpdateWriter(WriterConfig),
    /// Store the configuration of the log.
    StoreWriter(WriterConfig),
    /// End with this reply.
    Answer(Reply<D>),
}

/// The model of a [`RequestStep`].
pub enum RequestStepView<D, E> {
    Authenticate,
    Refuse(E),
    ReadVersion,
    CollectStatus,
    ReadLogs,
    ParseClashConfig,
    StartCore(ClashConfig),
    StoreStart(ClashConfig),
    StopCore,
    StoreStop,
    ParseWriterConfig,
    UpdateWriter(WriterConfig),
    StoreWriter(WriterConfig),
    Answer(ReplyView<D>),
}

impl<D, E> View for RequestStep<D, E> {
    type V = RequestStepView<D, E>;

    open spec fn view(&self) -> RequestStepView<D, E> {
        match *self {
            RequestStep::Authenticate => RequestStepView::Authenticate,
            RequestStep::Refuse(error) => RequestStepView::Refuse(error),
            RequestStep::ReadVersion => RequestStepView::ReadVersion,
            RequestStep::CollectStatus => RequestStepView::CollectStatus,
            RequestStep::ReadLogs => RequestStepView::ReadLogs,
            RequestStep::ParseClashConfig => RequestStepView::ParseClashConfig,
            RequestStep::StartCore(config) => RequestStepView::StartCore(config),
            RequestStep::StoreStart(config) => RequestStepView::StoreStart(config),
            RequestStep::StopCore => RequestStepView::StopCore,
            RequestStep::StoreStop => RequestStepView::StoreStop,
            RequestStep::ParseWriterConfig => RequestStepView::ParseWriterConfig,
            RequestStep::UpdateWriter(writer) => RequestStepView::UpdateWriter(writer),
            RequestStep::StoreWriter(writer) => RequestStepView::StoreWriter(writer),
            RequestStep::Answer(reply) => RequestStepView::Answer(reply@),
        }
    }
}

/// What a command of a known client starts with.
pub open spec fn command_step<D, E>(command: IpcCommand) -> RequestStepView<D, E> {
    match command {
        IpcCommand::Magic => RequestStepView::Answer(ReplyView::text(STATUS_OK, "Tunglies!"@)),
        IpcCommand::GetVersion => RequestStepView::ReadVersion,
        IpcCommand::Status => RequestStepView::CollectStatus,
        IpcCommand::StartClash => RequestStepView::ParseClashConfig,
        IpcCommand::GetClashLogs => RequestStepView::ReadLogs,
        IpcCommand::StopClash => RequestStepView::StopCore,
        IpcCommand::UpdateWriter => RequestStepView::ParseWriterConfig,
    }
}

/// The reply that says what went wrong, and why.
pub open spec fn failure<D, E>(what: Seq<char>, error: String) -> RequestStepView<D, E> {
    RequestStepView::Answer(ReplyView::unavailable(what + error@))
}

/// The reply to a request whose body is no such configuration.
pub open spec fn invalid_json<D, E>(error: String) -> RequestStepView<D, E> {
    RequestStepView::Answer(ReplyView::text(STATUS_BAD_REQUEST, "Invalid JSON: "@ + error@))
}

/// The step of handling `command`.
pub open spec fn request_step<D, E>(command: IpcCommand, reached: RequestReached<D, E>) -> RequestStepView<D, E> {
    match reached {
        RequestReached::Received => RequestStepView::Authenticate,
        RequestReached::Authenticated(Ok(_)) => command_step(command),
        RequestReached::Authenticated(Err(error)) => RequestStepView::Refuse(error),
        RequestReached::VersionRead(version) => RequestStepView::Answer(
            ReplyView::success(version),
        ),
        RequestReached::StatusCollected(Ok(status)) => RequestStepView::Answer(
            ReplyView::success(status),
        ),
        RequestReached::StatusCollected(Err(error)) => failure(
            "Failed to collect service status: "@,
            error,
        ),
        RequestReached::LogsRead(logs) => RequestStepView::Answer(ReplyView::success(logs)),
        RequestReached::ClashConfigParsed(Ok(config)) => RequestStepView::StartCore(config),
        RequestReached::ClashConfigParsed(Err(error)) => invalid_json(error),
        RequestReached::CoreStarted(config, Ok(_)) => RequestStepView::StoreStart(config),
        RequestReached::CoreStarted(_, Err(error)) => failure("Failed to start core: "@, error),
        RequestReached::StartStored(Ok(_)) => RequestStepView::Answer(
            ReplyView::done("Core started successfully"@),
        ),
        RequestReached::StartStored(Err(error)) => failure(
            "Failed to persist desired state: "@,
            error,
        ),
        RequestReached::CoreStopped(Ok(_)) => RequestStepView::StoreStop,
        RequestReached::CoreStopped(Err(error)) => failure("Failed to stop core: "@, error),
        RequestReached::StopStored(Ok(_)) => RequestStepView::Answer(
            ReplyView::done("Core stopped successfully"@),
        ),
        RequestReached::StopStored(Err(error)) => failure(
            "Failed to persist desired state: "@,
            error,
        ),
        RequestReached::WriterConfigParsed(Ok(writer)) => RequestStepView::UpdateWriter(writer),
        RequestReached::WriterConfigParsed(Err(error)) => invalid_json(error),
        RequestReached::WriterUpdated(writer, Ok(_)) => RequestStepView::StoreWriter(writer),
        RequestReached::WriterUpdated(_, Err(error)) => failure(
            "Failed to update writer: "@,
            error,
        ),
        RequestReached::WriterStored(Ok(_)) => RequestStepView::Answer(
            ReplyView::done("Update Writer successfully"@),
        ),
        RequestReached::WriterStored(Err(error)) => failure(
            "Failed to persist writer config: "@,
            error,
        ),
    }
}

/// The reply that says what went wrong, and why.
fn answer_failure<D, E>(what: &str, error: &String) -> (step: RequestStep<D, E>)
    ensures
        step@ == failure::<D, E>(what@, *error),
{
    RequestStep::Answer(service_unavailable(concat_text(what, error.as_str())))
}

/// The reply to a request whose body is no such configuration.
fn answer_invalid_json<D, E>(error: &String) -> (step: RequestStep<D, E>)
    ensures
        step@ == invalid_json::<D, E>(*error),
{
    RequestStep::Answer(
        text_reply(STATUS_BAD_REQUEST, concat_text("Invalid JSON: ", error.as_str())),
    )
}

/// What a command of a known client starts with.
fn start_command<D, E>(command: IpcCommand) -> (step: RequestStep<D, E>)
    ensures
        step@ == command_step::<D, E>(command),
{
    match command {
        IpcCommand::Magic => RequestStep::Answer(text_reply(STATUS_OK, "Tunglies!".to_owned())),
        IpcCommand::GetVersion => RequestStep::ReadVersion,
        IpcCommand::Status => RequestStep::CollectStatus,
        IpcCommand::StartClash => RequestStep::ParseClashConfig,
        IpcCommand::GetClashLogs => RequestStep::ReadLogs,
        IpcCommand::StopClash => RequestStep::StopCore,
        IpcCommand::UpdateWriter => RequestStep::ParseWriterConfig,
    }
}

/// The next step of handling `command`.
///
/// Nothing is done for a client that did not prove who it is. What a command did is stored before
/// it is reported as done.
pub fn handle_ipc_command<D, E>(command: IpcCommand, reached: RequestReached<D, E>) -> (step: RequestStep<D, E>)
    ensures
        step@ == request_step(command, reached),
{
    match reached {
        RequestReached::Received => RequestStep::Authenticate,
        RequestReached::Authenticated(Ok(_)) => start_command(command),
        RequestReached::Authenticated(Err(error)) => RequestStep::Refuse(error),
        RequestReached::VersionRead(version) => RequestStep::Answer(ok_json(version)),
        RequestReached::StatusCollected(Ok(status)) => RequestStep::Answer(ok_json(status)),
        RequestReached::StatusCollected(Err(error)) => answer_failure(
            "Failed to collect service status: ",
            &error,
        ),
        RequestReached::LogsRead(logs) => RequestStep::Answer(ok_json(logs)),
        RequestReached::ClashConfigParsed(Ok(config)) => RequestStep::StartCore(config),
        RequestReached::ClashConfigParsed(Err(error)) => answer_invalid_json(&error),
        RequestReached::CoreStarted(config, Ok(_)) => RequestStep::StoreStart(config),
        RequestReached::CoreStarted(_, Err(error)) => answer_failure(
            "Failed to start core: ",
            &error,
        ),
        RequestReached::StartStored(Ok(_)) => RequestStep::Answer(
            ok_empty("Core started successfully".to_owned()),
        ),
        RequestReached::StartStored(Err(error)) => answer_failure(
            "Failed to persist desired state: ",
            &error,
        ),
        RequestReached::CoreStopped(Ok(_)) => RequestStep::StoreStop,
        RequestReached::CoreStopped(Err(error)) => answer_failure("Failed to stop core: ", &error),
        RequestReached::StopStored(Ok(_)) => RequestStep::Answer(
            ok_empty("Core stopped successfully".to_owned()),
        ),
        RequestReached::StopStored(Err(error)) => answer_failure(
            "Failed to persist desired state: ",
            &error,
        ),
        RequestReached::WriterConfigParsed(Ok(writer)) => RequestStep::UpdateWriter(writer),
        RequestReached::WriterConfigParsed(Err(error)) => answer_invalid_json(&error),
        RequestReached::WriterUpdated(writer, Ok(_)) => RequestStep::StoreWriter(writer),
        RequestReached::WriterUpdated(_, Err(error)) => answer_failure(
            "Failed to update writer: ",
            &error,
        ),
        RequestReached::WriterStored(Ok(_)) => RequestStep::Answer(
            ok_empty("Update Writer successfully".to_owned()),
        ),
        RequestReached::WriterStored(Err(error)) => answer_failure(
            "Failed to persist writer config: ",
            &error,
        ),
    }
}

} // verus!
