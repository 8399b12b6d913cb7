use clash_service_ipc::config::{ClashConfig, CoreConfig, WriterConfig};
use clash_service_ipc::reply::{
    json_response, ok_empty, ok_json, service_unavailable, text_response, Reply, ReplyBody, Response,
};
use clash_service_ipc::router::{create_ipc_router, handle_ipc_command, IpcCommand, IpcMethod, RequestReached, RequestStep, Route};

fn writer() -> WriterConfig {
    WriterConfig { directory: "/logs".to_string(), max_log_size: 1, max_log_files: 2 }
}

fn clash() -> ClashConfig {
    ClashConfig {
        core_config: CoreConfig { core_path: "/core".to_string(), ..Default::default() },
        log_config: writer(),
    }
}

fn handle(command: IpcCommand, reached: RequestReached<String, u8>) -> RequestStep<String, u8> {
    handle_ipc_command(command, reached)
}

fn json(status: u16, code: u16, message: &str, data: Option<&str>) -> RequestStep<String, u8> {
    RequestStep::Answer(Reply {
        status,
        body: ReplyBody::Json(Response {
            code,
            message: message.to_string(),
            data: data.map(|text| text.to_string()),
        }),
    })
}

fn text(status: u16, text: &str) -> RequestStep<String, u8> {
    RequestStep::Answer(Reply { status, body: ReplyBody::Text(text.to_string()) })
}

fn error(message: &str) -> Result<(), String> {
    Err(message.to_string())
}

const COMMANDS: [IpcCommand; 7] = [
    IpcCommand::Magic,
    IpcCommand::GetVersion,
    IpcCommand::Status,
    IpcCommand::StartClash,
    IpcCommand::GetClashLogs,
    IpcCommand::StopClash,
    IpcCommand::UpdateWriter,
];

#[test]
fn routes_are_registered_under_their_methods() {
    let methods = [
        IpcMethod::Get,
        IpcMethod::Get,
        IpcMethod::Get,
        IpcMethod::Post,
        IpcMethod::Get,
        IpcMethod::Delete,
        IpcMethod::Put,
    ];
    let expected: Vec<Route> =
        COMMANDS.iter().zip(methods.iter()).map(|(command, method)| Route { method: *method, command: *command }).collect();
    assert_eq!(create_ipc_router(), expected);
}

#[test]
fn every_command_is_checked_first() {
    for command in COMMANDS {
        assert_eq!(handle(command, RequestReached::Received), RequestStep::Authenticate);
        assert_eq!(handle(command, RequestReached::Authenticated(Err(4))), RequestStep::Refuse(4));
    }
}

#[test]
fn magic_is_answered_in_text() {
    assert_eq!(handle(IpcCommand::Magic, RequestReached::Authenticated(Ok(()))), text(200, "Tunglies!"));
}

#[test]
fn version_is_answered_with_data() {
    assert_eq!(handle(IpcCommand::GetVersion, RequestReached::Authenticated(Ok(()))), RequestStep::ReadVersion);
    assert_eq!(
        handle(IpcCommand::GetVersion, RequestReached::VersionRead("2.0.1".to_string())),
        json(200, 0, "Success", Some("2.0.1"))
    );
}

#[test]
fn status_is_answered_or_unavailable() {
    assert_eq!(handle(IpcCommand::Status, RequestReached::Authenticated(Ok(()))), RequestStep::CollectStatus);
    assert_eq!(
        handle(IpcCommand::Status, RequestReached::StatusCollected(Ok("up".to_string()))),
        json(200, 0, "Success", Some("up"))
    );
    assert_eq!(
        handle(IpcCommand::Status, RequestReached::StatusCollected(Err("locked".to_string()))),
        json(503, 1, "Failed to collect service status: locked", None)
    );
}

#[test]
fn logs_are_answered_with_data() {
    assert_eq!(handle(IpcCommand::GetClashLogs, RequestReached::Authenticated(Ok(()))), RequestStep::ReadLogs);
    assert_eq!(
        handle(IpcCommand::GetClashLogs, RequestReached::LogsRead("line".to_string())),
        json(200, 0, "Success", Some("line"))
    );
}

#[test]
fn start_is_done_then_stored_then_answered() {
    let start = IpcCommand::StartClash;
    assert_eq!(handle(start, RequestReached::Authenticated(Ok(()))), RequestStep::ParseClashConfig);
    assert_eq!(handle(start, RequestReached::ClashConfigParsed(Ok(clash()))), RequestStep::StartCore(clash()));
    assert_eq!(handle(start, RequestReached::CoreStarted(clash(), Ok(()))), RequestStep::StoreStart(clash()));
    assert_eq!(handle(start, RequestReached::StartStored(Ok(()))), json(200, 0, "Core started successfully", None));
}

#[test]
fn start_reports_what_failed() {
    let start = IpcCommand::StartClash;
    assert_eq!(
        handle(start, RequestReached::ClashConfigParsed(Err("eof".to_string()))),
        text(400, "Invalid JSON: eof")
    );
    assert_eq!(
        handle(start, RequestReached::CoreStarted(clash(), error("missing"))),
        json(503, 1, "Failed to start core: missing", None)
    );
    assert_eq!(
        handle(start, RequestReached::StartStored(error("full"))),
        json(503, 1, "Failed to persist desired state: full", None)
    );
}

#[test]
fn stop_is_done_then_stored_then_answered() {
    let stop = IpcCommand::StopClash;
    assert_eq!(handle(stop, RequestReached::Authenticated(Ok(()))), RequestStep::StopCore);
    assert_eq!(handle(stop, RequestReached::CoreStopped(Ok(()))), RequestStep::StoreStop);
    assert_eq!(handle(stop, RequestReached::StopStored(Ok(()))), json(200, 0, "Core stopped successfully", None));
    assert_eq!(
        handle(stop, RequestReached::CoreStopped(error("stuck"))),
        json(503, 1, "Failed to stop core: stuck", None)
    );
    assert_eq!(
        handle(stop, RequestReached::StopStored(error("full"))),
        json(503, 1, "Failed to persist desired state: full", None)
    );
}

#[test]
fn writer_is_updated_then_stored_then_answered() {
    let update = IpcCommand::UpdateWriter;
    assert_eq!(handle(update, RequestReached::Authenticated(Ok(()))), RequestStep::ParseWriterConfig);
    assert_eq!(handle(update, RequestReached::WriterConfigParsed(Ok(writer()))), RequestStep::UpdateWriter(writer()));
    assert_eq!(handle(update, RequestReached::WriterUpdated(writer(), Ok(()))), RequestStep::StoreWriter(writer()));
    assert_eq!(handle(update, RequestReached::WriterStored(Ok(()))), json(200, 0, "Update Writer successfully", None));
    assert_eq!(
        handle(update, RequestReached::WriterConfigParsed(Err("eof".to_string()))),
        text(400, "Invalid JSON: eof")
    );
    assert_eq!(
        handle(update, RequestReached::WriterUpdated(writer(), error("denied"))),
        json(503, 1, "Failed to update writer: denied", None)
    );
    assert_eq!(
        handle(update, RequestReached::WriterStored(error("full"))),
        json(503, 1, "Failed to persist writer config: full", None)
    );
}

#[test]
fn envelopes_hold_what_they_are_given() {
    let reply = json_response(200, 7, "seven".to_string(), Some(3u8));
    assert_eq!(
        reply,
        Reply { status: 200, body: ReplyBody::Json(Response { code: 7, message: "seven".to_string(), data: Some(3) }) }
    );
    assert_eq!(
        ok_json(1u8),
        Reply { status: 200, body: ReplyBody::Json(Response { code: 0, message: "Success".to_string(), data: Some(1) }) }
    );
    assert_eq!(
        ok_empty::<u8>("done".to_string()),
        Reply { status: 200, body: ReplyBody::Json(Response { code: 0, message: "done".to_string(), data: None }) }
    );
    assert_eq!(
        service_unavailable::<u8>("no".to_string()),
        Reply { status: 503, body: ReplyBody::Json(Response { code: 1, message: "no".to_string(), data: None }) }
    );
}

#[test]
fn text_becomes_an_http_response() {
    let response = text_response(400, "Invalid JSON: eof".to_string()).unwrap();
    assert_eq!(response.status, http::StatusCode::BAD_REQUEST);
    assert_eq!(&response.body[..], b"Invalid JSON: eof");
    assert_eq!(response.headers.get("content-type").unwrap(), "text/plain; charset=utf-8");
    assert_eq!(text_response(200, "ok".to_string()).unwrap().status, http::StatusCode::OK);
}

#[test]
fn text_needs_an_http_status() {
    assert!(text_response(99, "low".to_string()).is_none());
    assert!(text_response(1000, "high".to_string()).is_none());
    assert!(text_response(100, "lowest".to_string()).is_some());
    assert!(text_response(999, "highest".to_string()).is_some());
}
