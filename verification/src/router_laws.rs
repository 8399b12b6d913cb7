//! What holds of whole requests.

use crate::config::ClashConfig;
use crate::config::WriterConfig;
use crate::reply::ReplyBodyView;
use crate::reply::ReplyView;
use crate::reply::CODE_FAILURE;
use crate::reply::CODE_SUCCESS;
use crate::reply::STATUS_BAD_REQUEST;
use crate::reply::STATUS_OK;
use crate::reply::STATUS_SERVICE_UNAVAILABLE;
use crate::router::request_step;
use crate::router::route_of;
use crate::router::routes;
use crate::router::IpcCommand;
use crate::router::RequestReached;
use crate::router::RequestStep;
use crate::router::RequestStepView;
use vstd::prelude::*;

verus! {

/// What may be reported after a step of handling a request.
pub open spec fn request_follows<D, E>(step: RequestStepView<D, E>, reached: RequestReached<D, E>) -> bool {
    match step {
        RequestStepView::Authenticate => reached is Authenticated,
        RequestStepView::ReadVersion => reached is VersionRead,
        RequestStepView::CollectStatus => reached is StatusCollected,
        RequestStepView::ReadLogs => reached is LogsRead,
        RequestStepView::ParseClashConfig => reached is ClashConfigParsed,
        RequestStepView::StartCore(config) => reached matches RequestReached::CoreStarted(
            started,
            _,
        ) && started == config,
        RequestStepView::StoreStart(_) => reached is StartStored,
        RequestStepView::StopCore => reached is CoreStopped,
        RequestStepView::StoreStop => reached is StopStored,
        RequestStepView::ParseWriterConfig => reached is WriterConfigParsed,
        RequestStepView::UpdateWriter(writer) => reached matches RequestReached::WriterUpdated(
            updated,
            _,
        ) && updated == writer,
        RequestStepView::StoreWriter(_) => reached is WriterStored,
        RequestStepView::Refuse(_) | RequestStepView::Answer(_) => false,
    }
}

/// Whether the report at `i` may follow the one before it.
pub open spec fn request_link<D, E>(
    command: IpcCommand,
    reports: Seq<RequestReached<D, E>>,
    i: int,
) -> bool {
    request_follows(request_step(command, reports[i - 1]), reports[i])
}

/// The reports of one request, from its arrival on.
pub open spec fn request_run<D, E>(command: IpcCommand, reports: Seq<RequestReached<D, E>>) -> bool {
    &&& reports.len() > 0
    &&& reports[0] is Received
    &&& forall|i: int| 0 < i < reports.len() ==> #[trigger] request_link(command, reports, i)
}

/// The reports that each command can lead to, one after the other.
proof fn lemma_request_shape<D, E>(command: IpcCommand, reports: Seq<RequestReached<D, E>>)
    requires
        request_run(command, reports),
    ensures
        reports.len() <= 5,
        reports.len() >= 2 ==> reports[1] is Authenticated,
        reports.len() >= 3 ==> (reports[1] matches RequestReached::Authenticated(Ok(_))),
        reports.len() >= 3 ==> match command {
            IpcCommand::Magic => false,
            IpcCommand::GetVersion => reports.len() == 3 && reports[2] is VersionRead,
            IpcCommand::Status => reports.len() == 3 && reports[2] is StatusCollected,
            IpcCommand::GetClashLogs => reports.len() == 3 && reports[2] is LogsRead,
            IpcCommand::StartClash => {
                &&& reports[2] is ClashConfigParsed
                &&& reports.len() >= 4 ==> (reports[2] matches RequestReached::ClashConfigParsed(
                    Ok(config),
                ) && reports[3] matches RequestReached::CoreStarted(started, _) && started
                    == config)
                &&& reports.len() == 5 ==> reports[3]->CoreStarted_1 is Ok && reports[4]
                    is StartStored
            },
            IpcCommand::StopClash => {
                &&& reports.len() <= 4
                &&& reports[2] is CoreStopped
                &&& reports.len() == 4 ==> reports[2]->CoreStopped_0 is Ok && reports[3]
                    is StopStored
            },
            IpcCommand::UpdateWriter => {
                &&& reports[2] is WriterConfigParsed
                &&& reports.len() >= 4 ==> (reports[2] matches RequestReached::WriterConfigParsed(
                    Ok(writer),
                ) && reports[3] matches RequestReached::WriterUpdated(updated, _) && updated
                    == writer)
                &&& reports.len() == 5 ==> reports[3]->WriterUpdated_1 is Ok && reports[4]
                    is WriterStored
            },
        },
{
    if reports.len() >= 2 {
        assert(request_link(command, reports, 1));
    }
    if reports.len() >= 3 {
        assert(request_link(command, reports, 2));
    }
    if reports.len() >= 4 {
        assert(request_link(command, reports, 3));
    }
    if reports.len() >= 5 {
        assert(request_link(command, reports, 4));
    }
    if reports.len() >= 6 {
        assert(request_link(command, reports, 5));
    }
}

/// Every request comes to an end, after five reports at most.
pub proof fn law_requests_end<D, E>(command: IpcCommand, reports: Seq<RequestReached<D, E>>)
    requires
        request_run(command, reports),
    ensures
        reports.len() <= 5,
        reports.len() == 5 ==> request_step(command, reports[4]) is Answer,
{
    lemma_request_shape(command, reports);
}

/// The first thing done for a request is to check who asks, whatever is asked for.
pub proof fn law_every_request_is_checked<D, E>(command: IpcCommand)
    ensures
        request_step(command, RequestReached::<D, E>::Received) is Authenticate,
{
}

/// A request of an unknown client is refused with the error of the check, and nothing else is done
/// for it, then or later.
pub proof fn law_refused_request_does_nothing<D, E>(
    command: IpcCommand,
    reports: Seq<RequestReached<D, E>>,
    error: E,
)
    requires
        request_run(command, reports),
        reports.len() >= 2,
        reports[1] == RequestReached::<D, E>::Authenticated(Err(error)),
    ensures
        reports.len() == 2,
        request_step(command, reports[1]) == RequestStepView::<D, E>::Refuse(error),
{
    lemma_request_shape(command, reports);
}

/// Whatever is done or answered is done for, or answered to, a client that proved who it is.
pub proof fn law_only_known_clients_are_served<D, E>(
    command: IpcCommand,
    reports: Seq<RequestReached<D, E>>,
)
    requires
        request_run(command, reports),
        !(request_step(command, reports.last()) is Authenticate),
        !(request_step(command, reports.last()) is Refuse),
    ensures
        reports.len() >= 2,
        reports[1] matches RequestReached::Authenticated(Ok(_)),
{
    lemma_request_shape(command, reports);
}

/// A start that is reported as done was done with the configuration of the request, and stored
/// with that configuration.
pub proof fn law_reported_start_is_done_and_stored<D, E>(
    reports: Seq<RequestReached<D, E>>,
    reply: ReplyView<D>,
)
    requires
        request_run(IpcCommand::StartClash, reports),
        request_step(IpcCommand::StartClash, reports.last()) == RequestStepView::<D, E>::Answer(reply),
        reply.status == STATUS_OK,
    ensures
        reports.len() == 5,
        reports[2] matches RequestReached::ClashConfigParsed(Ok(config)) && {
            &&& request_step(IpcCommand::StartClash, reports[2]) == RequestStepView::<D, E>::StartCore(
                config,
            )
            &&& reports[3] matches RequestReached::CoreStarted(_, Ok(_))
            &&& request_step(IpcCommand::StartClash, reports[3]) == RequestStepView::<D, E>::StoreStart(config)
            &&& reports[4] matches RequestReached::StartStored(Ok(_))
        },
{
    lemma_request_shape(IpcCommand::StartClash, reports);
}

/// A stop that is reported as done was done and stored.
pub proof fn law_reported_stop_is_done_and_stored<D, E>(
    reports: Seq<RequestReached<D, E>>,
    reply: ReplyView<D>,
)
    requires
        request_run(IpcCommand::StopClash, reports),
        request_step(IpcCommand::StopClash, reports.last()) == RequestStepView::<D, E>::Answer(reply),
        reply.status == STATUS_OK,
    ensures
        reports.len() == 4,
        reports[2] matches RequestReached::CoreStopped(Ok(_)),
        reports[3] matches RequestReached::StopStored(Ok(_)),
{
    lemma_request_shape(IpcCommand::StopClash, reports);
}

/// A change of the log's configuration that is reported as done was made as the request says,
/// and stored.
pub proof fn law_reported_writer_is_updated_and_stored<D, E>(
    reports: Seq<RequestReached<D, E>>,
    reply: ReplyView<D>,
)
    requires
        request_run(IpcCommand::UpdateWriter, reports),
        request_step(IpcCommand::UpdateWriter, reports.last()) == RequestStepView::<D, E>::Answer(reply),
        reply.status == STATUS_OK,
    ensures
        reports.len() == 5,
        reports[2] matches RequestReached::WriterConfigParsed(Ok(writer)) && {
            &&& request_step(IpcCommand::UpdateWriter, reports[2]) == RequestStepView::<D, E>::UpdateWriter(writer)
            &&& reports[3] matches RequestReached::WriterUpdated(_, Ok(_))
            &&& request_step(IpcCommand::UpdateWriter, reports[3]) == RequestStepView::<D, E>::StoreWriter(writer)
            &&& reports[4] matches RequestReached::WriterStored(Ok(_))
        },
{
    lemma_request_shape(IpcCommand::UpdateWriter, reports);
}

/// What is answered to a request for the status is the status that was collected, unchanged, or why
/// it could not be.
pub proof fn law_status_is_handed_on<D, E>(reports: Seq<RequestReached<D, E>>, reply: ReplyView<D>)
    requires
        request_run(IpcCommand::Status, reports),
        request_step(IpcCommand::Status, reports.last()) == RequestStepView::<D, E>::Answer(reply),
    ensures
        reports.len() == 3,
        reports[2] matches RequestReached::StatusCollected(collected) && match collected {
            Ok(status) => reply == ReplyView::success(status),
            Err(error) => reply == ReplyView::<D>::unavailable(
                "Failed to collect service status: "@ + error@,
            ),
        },
{
    lemma_request_shape(IpcCommand::Status, reports);
}

/// The status, the code and the data of an answer agree: success carries code zero, a failure
/// carries code one and no data, and a request that cannot be understood is answered in text.
pub proof fn law_answers_agree<D, E>(
    command: IpcCommand,
    reached: RequestReached<D, E>,
    reply: ReplyView<D>,
)
    requires
        request_step(command, reached) == RequestStepView::<D, E>::Answer(reply),
    ensures
        match reply.body {
            ReplyBodyView::Json { code, message, data } => {
                ||| reply.status == STATUS_OK && code == CODE_SUCCESS
                ||| reply.status == STATUS_SERVICE_UNAVAILABLE && code == CODE_FAILURE
                    && data is None
            },
            ReplyBodyView::Text(_) => reply.status == STATUS_OK || reply.status
                == STATUS_BAD_REQUEST,
        },
{
}

/// Every command is served, under one method and no other.
pub proof fn law_every_command_has_one_route(command: IpcCommand)
    ensures
        exists|i: int| 0 <= i < routes().len() && #[trigger] routes()[i] == route_of(command),
        forall|i: int, j: int|
            0 <= i < routes().len() && 0 <= j < routes().len() && (#[trigger] routes()[i]).command
                == command && (#[trigger] routes()[j]).command == command ==> i == j,
{
    assert(routes()[0] == route_of(IpcCommand::Magic));
    assert(routes()[1] == route_of(IpcCommand::GetVersion));
    assert(routes()[2] == route_of(IpcCommand::Status));
    assert(routes()[3] == route_of(IpcCommand::StartClash));
    assert(routes()[4] == route_of(IpcCommand::GetClashLogs));
    assert(routes()[5] == route_of(IpcCommand::StopClash));
    assert(routes()[6] == route_of(IpcCommand::UpdateWriter));
}

/// What is done for a known client, and when: each command starts with its own first step and with
/// no other.
pub proof fn law_commands_start_as_they_should<D, E>(
    command: IpcCommand,
    reached: RequestReached<D, E>,
    error: E,
)
    ensures
        ({
            let step = request_step(command, reached);
            let known = reached matches RequestReached::Authenticated(Ok(_));
            &&& step is Authenticate <==> reached is Received
            &&& step == RequestStepView::<D, E>::Refuse(error) <==> reached
                == RequestReached::<D, E>::Authenticated(Err(error))
            &&& step is ReadVersion <==> known && command is GetVersion
            &&& step is CollectStatus <==> known && command is Status
            &&& step is ReadLogs <==> known && command is GetClashLogs
            &&& step is ParseClashConfig <==> known && command is StartClash
            &&& step is StopCore <==> known && command is StopClash
            &&& step is ParseWriterConfig <==> known && command is UpdateWriter
            &&& known && command is Magic ==> step == RequestStepView::<D, E>::Answer(
                ReplyView {
                    status: 200,
                    body: ReplyBodyView::Text("Tunglies!"@),
                },
            )
        }),
{
}

/// Every request that can be understood is carried out with exactly what it says, and stored with
/// exactly that once it was carried out, whatever it says.
pub proof fn law_requests_are_carried_out_as_they_say<D, E>(
    command: IpcCommand,
    reached: RequestReached<D, E>,
    config: ClashConfig,
    writer: WriterConfig,
)
    ensures
        ({
            let step = request_step(command, reached);
            &&& step == RequestStepView::<D, E>::StartCore(config) <==> reached
                == RequestReached::<D, E>::ClashConfigParsed(Ok(config))
            &&& step == RequestStepView::<D, E>::StoreStart(config) <==> (reached matches
                RequestReached::CoreStarted(started, Ok(_)) && started == config)
            &&& step is StoreStop <==> (reached matches RequestReached::CoreStopped(Ok(_)))
            &&& step == RequestStepView::<D, E>::UpdateWriter(writer) <==> reached
                == RequestReached::<D, E>::WriterConfigParsed(Ok(writer))
            &&& step == RequestStepView::<D, E>::StoreWriter(writer) <==> (reached matches
                RequestReached::WriterUpdated(updated, Ok(_)) && updated == writer)
        }),
{
}

/// Whether a report says that something could not be carried out or stored.
pub open spec fn reports_failure<D, E>(reached: RequestReached<D, E>) -> bool {
    ||| reached matches RequestReached::StatusCollected(Err(_))
    ||| reached matches RequestReached::CoreStarted(_, Err(_))
    ||| reached matches RequestReached::StartStored(Err(_))
    ||| reached matches RequestReached::CoreStopped(Err(_))
    ||| reached matches RequestReached::StopStored(Err(_))
    ||| reached matches RequestReached::WriterUpdated(_, Err(_))
    ||| reached matches RequestReached::WriterStored(Err(_))
}

/// Success is answered exactly after what a request asks for was done and stored, or found out, and
/// with what was found out; unavailability exactly after a report that something failed; and a bad
/// request exactly to a body that could not be understood.
pub proof fn law_answers_say_what_happened<D, E>(
    command: IpcCommand,
    reached: RequestReached<D, E>,
    reply: ReplyView<D>,
)
    requires
        request_step(command, reached) == RequestStepView::<D, E>::Answer(reply),
    ensures
        reply.status == 503 <==> reports_failure(reached),
        reply.status == 400 <==> {
            ||| reached matches RequestReached::ClashConfigParsed(Err(_))
            ||| reached matches RequestReached::WriterConfigParsed(Err(_))
        },
        reply.status == 200 <==> {
            ||| reached is Authenticated && command is Magic
            ||| reached is VersionRead
            ||| reached matches RequestReached::StatusCollected(Ok(_))
            ||| reached is LogsRead
            ||| reached matches RequestReached::StartStored(Ok(_))
            ||| reached matches RequestReached::StopStored(Ok(_))
            ||| reached matches RequestReached::WriterStored(Ok(_))
        },
        reply.status == 503 ==> reply.body is Json && reply.body->code == 1 && reply.body->data
            is None,
        reply.status == 200 && reply.body is Json ==> reply.body->code == 0,
{
}

/// An envelope with this status, code, message and data.
pub open spec fn envelope<D, E>(status: u16, code: u16, message: Seq<char>, data: Option<D>) -> RequestStepView<
    D,
    E,
> {
    RequestStepView::Answer(
        ReplyView { status, body: ReplyBodyView::Json { code, message, data } },
    )
}

/// What was found out is answered as it is.
pub proof fn law_data_is_answered_as_it_is<D, E>(command: IpcCommand, data: D)
    ensures
        ({
            let answer = envelope::<D, E>(200, 0, "Success"@, Some(data));
            &&& request_step(command, RequestReached::<D, E>::VersionRead(data)) == answer
            &&& request_step(command, RequestReached::<D, E>::StatusCollected(Ok(data))) == answer
            &&& request_step(command, RequestReached::<D, E>::LogsRead(data)) == answer
        }),
{
}

/// What was done and stored is answered as done, and nothing else comes with it.
pub proof fn law_done_is_answered_as_done<D, E>(command: IpcCommand)
    ensures
        request_step(command, RequestReached::<D, E>::StartStored(Ok(()))) == envelope::<D, E>(
            200,
            0,
            "Core started successfully"@,
            None,
        ),
        request_step(command, RequestReached::<D, E>::StopStored(Ok(()))) == envelope::<D, E>(
            200,
            0,
            "Core stopped successfully"@,
            None,
        ),
        request_step(command, RequestReached::<D, E>::WriterStored(Ok(()))) == envelope::<D, E>(
            200,
            0,
            "Update Writer successfully"@,
            None,
        ),
{
}

/// Every failure is answered with what failed and with its reason, word for word, whatever it is and
/// whatever it was about.
pub proof fn law_failures_are_answered_with_their_reason<D, E>(
    command: IpcCommand,
    config: ClashConfig,
    writer: WriterConfig,
    reason: String,
)
    ensures
        ({
            let step = |reached: RequestReached<D, E>| request_step(command, reached);
            let failed = |what: Seq<char>| envelope::<D, E>(503, 1, what + reason@, None);
            let bad = RequestStepView::<D, E>::Answer(
                ReplyView {
                    status: 400,
                    body: ReplyBodyView::Text("Invalid JSON: "@ + reason@),
                },
            );
            &&& step(RequestReached::StatusCollected(Err(reason))) == failed(
                "Failed to collect service status: "@,
            )
            &&& step(RequestReached::CoreStarted(config, Err(reason))) == failed(
                "Failed to start core: "@,
            )
            &&& step(RequestReached::StartStored(Err(reason))) == failed(
                "Failed to persist desired state: "@,
            )
            &&& step(RequestReached::CoreStopped(Err(reason))) == failed("Failed to stop core: "@)
            &&& step(RequestReached::StopStored(Err(reason))) == failed(
                "Failed to persist desired state: "@,
            )
            &&& step(RequestReached::WriterUpdated(writer, Err(reason))) == failed(
                "Failed to update writer: "@,
            )
            &&& step(RequestReached::WriterStored(Err(reason))) == failed(
                "Failed to persist writer config: "@,
            )
            &&& step(RequestReached::ClashConfigParsed(Err(reason))) == bad
            &&& step(RequestReached::WriterConfigParsed(Err(reason))) == bad
        }),
{
}

/// A start request that parses reaches the core: in every run, once the configuration was read from
/// the request, the next thing that is done, and reported, is a start with that configuration.
pub proof fn law_parsed_start_reaches_the_core<D, E>(
    reports: Seq<RequestReached<D, E>>,
    config: ClashConfig,
)
    requires
        request_run(IpcCommand::StartClash, reports),
        reports.len() >= 3,
        reports[2] == RequestReached::<D, E>::ClashConfigParsed(Ok(config)),
    ensures
        request_step(IpcCommand::StartClash, reports[2]) == RequestStepView::<D, E>::StartCore(config),
        reports.len() >= 4 ==> (reports[3] matches RequestReached::CoreStarted(started, _) && started
            == config),
{
    lemma_request_shape(IpcCommand::StartClash, reports);
}

/// Each command is served under its own method: what only reads is got, a start is posted, a change
/// of the log is put, and a stop is a deletion.
pub proof fn law_methods_of_commands(command: IpcCommand)
    ensures
        route_of(command).command == command,
        route_of(command).method is Post <==> command is StartClash,
        route_of(command).method is Put <==> command is UpdateWriter,
        route_of(command).method is Delete <==> command is StopClash,
{
}

/// A step of handling a request shows what it is.
pub proof fn law_request_step_view<D, E>(step: RequestStep<D, E>)
    ensures
        step@ is Authenticate <==> step is Authenticate,
        step@ is Refuse <==> step is Refuse,
        step is Refuse ==> step@->Refuse_0 == step->Refuse_0,
        step@ is ReadVersion <==> step is ReadVersion,
        step@ is CollectStatus <==> step is CollectStatus,
        step@ is ReadLogs <==> step is ReadLogs,
        step@ is ParseClashConfig <==> step is ParseClashConfig,
        step@ is StartCore <==> step is StartCore,
        step is StartCore ==> step@->StartCore_0 == step->StartCore_0,
        step@ is StoreStart <==> step is StoreStart,
        step is StoreStart ==> step@->StoreStart_0 == step->StoreStart_0,
        step@ is StopCore <==> step is StopCore,
        step@ is StoreStop <==> step is StoreStop,
        step@ is ParseWriterConfig <==> step is ParseWriterConfig,
        step@ is UpdateWriter <==> step is UpdateWriter,
        step is UpdateWriter ==> step@->UpdateWriter_0 == step->UpdateWriter_0,
        step@ is StoreWriter <==> step is StoreWriter,
        step is StoreWriter ==> step@->StoreWriter_0 == step->StoreWriter_0,
        step@ is Answer <==> step is Answer,
        step is Answer ==> step@->Answer_0 == step->Answer_0@,
{
}

} // verus!
