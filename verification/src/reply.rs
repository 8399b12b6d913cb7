//! Replies to IPC requests.

use http::status::InvalidStatusCode;
use http::StatusCode;
use kode_bridge::ipc_http_server::HttpResponse;
use vstd::prelude::*;

verus! {

/// Status of a request that was carried out.
pub const STATUS_OK: u16 = 200;

/// Status of a request that could not be understood.
pub const STATUS_BAD_REQUEST: u16 = 400;

/// Status of a request that could not be carried out.
pub const STATUS_SERVICE_UNAVAILABLE: u16 = 503;

/// Code of a request that was carried out.
pub const CODE_SUCCESS: u16 = 0;

/// Code of a request that could not be carried out.
pub const CODE_FAILURE: u16 = 1;

/// The envelope of a reply.
#[derive(Debug, PartialEq, Eq)]
pub struct Response<T> {
    pub code: u16,
    pub message: String,
    pub data: Option<T>,
}

/// The body of a reply.
#[derive(Debug, PartialEq, Eq)]
pub enum ReplyBody<T> {
    /// Plain text.
    Text(String),
    /// An envelope, to be sent as JSON.
    Json(Response<T>),
}

/// A reply.
#[derive(Debug, PartialEq, Eq)]
pub struct Reply<T> {
    pub status: u16,
    pub body: ReplyBody<T>,
}

/// The model of a [`ReplyBody`].
pub enum ReplyBodyView<T> {
    Text(Seq<char>),
    Json { code: u16, message: Seq<char>, data: Option<T> },
}

/// The model of a [`Reply`].
pub struct ReplyView<T> {
    pub status: u16,
    pub body: ReplyBodyView<T>,
}

impl<T> View for Reply<T> {
    type V = ReplyView<T>;

    open spec fn view(&self) -> ReplyView<T> {
        ReplyView {
            status: self.status,
            body: match self.body {
                ReplyBody::Text(text) => ReplyBodyView::Text(text@),
                ReplyBody::Json(response) => ReplyBodyView::Json {
                    code: response.code,
                    message: response.message@,
                    data: response.data,
                },
            },
        }
    }
}

impl<T> ReplyView<T> {
    /// Plain text under `status`.
    pub open spec fn text(status: u16, text: Seq<char>) -> ReplyView<T> {
        ReplyView { status, body: ReplyBodyView::Text(text) }
    }

    /// An envelope under `status`.
    pub open spec fn json(status: u16, code: u16, message: Seq<char>, data: Option<T>) -> ReplyView<
        T,
    > {
        ReplyView { status, body: ReplyBodyView::Json { code, message, data } }
    }

    /// A request was carried out, with this result.
    pub open spec fn success(data: T) -> ReplyView<T> {
        ReplyView::json(STATUS_OK, CODE_SUCCESS, "Success"@, Some(data))
    }

    /// A request was carried out, with nothing to show for it.
    pub open spec fn done(message: Seq<char>) -> ReplyView<T> {
        ReplyView::json(STATUS_OK, CODE_SUCCESS, message, None)
    }

    /// A request could not be carried out.
    pub open spec fn unavailable(message: Seq<char>) -> ReplyView<T> {
        ReplyView::json(STATUS_SERVICE_UNAVAILABLE, CODE_FAILURE, message, None)
    }
}

/// An envelope under `status`.
pub fn json_response<T>(status: u16, code: u16, message: String, data: Option<T>) -> (reply: Reply<T>)
    ensures
        reply@ == ReplyView::json(status, code, message@, data),
{
    Reply { status, body: ReplyBody::Json(Response { code, message, data }) }
}

/// The reply to a request that was carried out, with its result.
pub fn ok_json<T>(data: T) -> (reply: Reply<T>)
    ensures
        reply@ == ReplyView::success(data),
{
    json_response(STATUS_OK, CODE_SUCCESS, "Success".to_owned(), Some(data))
}

/// The reply to a request that was carried out, with nothing to show for it.
pub fn ok_empty<T>(message: String) -> (reply: Reply<T>)
    ensures
        reply@ == ReplyView::<T>::done(message@),
{
    json_response(STATUS_OK, CODE_SUCCESS, message, None)
}

/// The reply to a request that could not be carried out.
pub fn service_unavailable<T>(message: String) -> (reply: Reply<T>)
    ensures
        reply@ == ReplyView::<T>::unavailable(message@),
{
    json_response(STATUS_SERVICE_UNAVAILABLE, CODE_FAILURE, message, None)
}

/// A plain text reply.
pub fn text_reply<T>(status: u16, text: String) -> (reply: Reply<T>)
    ensures
        reply@ == ReplyView::<T>::text(status, text@),
{
    Reply { status, body: ReplyBody::Text(text) }
}

/// An HTTP status code.
#[verifier::external_type_specification]
#[verifier::external_body]
pub struct ExStatusCode(StatusCode);

/// The error of a number that is no HTTP status code.
#[verifier::external_type_specification]
#[verifier::external_body]
pub struct ExInvalidStatusCode(InvalidStatusCode);

/// A response as the IPC server sends it.
#[verifier::external_type_specification]
#[verifier::external_body]
pub struct ExHttpResponse(HttpResponse);

/// The HTTP status code of a number from 100 to 999.
pub uninterp spec fn http_status(code: u16) -> StatusCode;

/// The response that the IPC server's builder makes of a status code and a text.
pub uninterp spec fn http_text_response(status: StatusCode, text: Seq<char>) -> HttpResponse;

/// `StatusCode::from_u16`: the status code of a number, for the numbers from 100 to 999 alone.
pub assume_specification[ StatusCode::from_u16 ](src: u16) -> (status: Result<
    StatusCode,
    InvalidStatusCode,
>)
    ensures
        status is Ok <==> 100 <= src <= 999,
        status matches Ok(status_code) ==> status_code == http_status(src),
;

/// Calls `HttpResponse::builder` and has it build a response from a status code and a text; the
/// response is a function of the two.
#[verifier::external_body]
fn build_text_response(status: StatusCode, text: String) -> (response: HttpResponse)
    ensures
        response == http_text_response(status, text@),
{
    HttpResponse::builder().status(status).text(text).build()
}

/// Plain text as the IPC server sends it; `None` if the status is no HTTP status.
pub fn text_response(status: u16, text: String) -> (response: Option<HttpResponse>)
    ensures
        response == (if 100 <= status <= 999 {
            Some(http_text_response(http_status(status), text@))
        } else {
            None
        }),
{
    match StatusCode::from_u16(status) {
        Ok(status_code) => Some(build_text_response(status_code, text)),
        Err(_) => None,
    }
}

/// A reply shows what it holds, all of it and nothing else.
pub proof fn law_reply_view<T>(reply: Reply<T>)
    ensures
        reply@.status == reply.status,
        reply@.body is Text <==> reply.body is Text,
        reply.body is Text ==> reply@.body->Text_0 == reply.body->Text_0@,
        reply.body is Json ==> {
            &&& reply@.body->code == reply.body->Json_0.code
            &&& reply@.body->message == reply.body->Json_0.message@
            &&& reply@.body->data == reply.body->Json_0.data
        },
{
}

/// Replies hold what they are made of, whatever that is: the status, the code, the message and the
/// data that are given; for a request that was carried out status 200 and code 0, and for one that
/// could not be, status 503, code 1 and no data.
pub proof fn law_replies_hold_what_they_are_made_of<T>(
    status: u16,
    code: u16,
    message: Seq<char>,
    given: Option<T>,
    data: T,
)
    ensures
        ReplyView::<T>::text(status, message).status == status,
        ReplyView::<T>::text(status, message).body is Text,
        ReplyView::<T>::text(status, message).body->Text_0 == message,
        ({
            let made = ReplyView::json(status, code, message, given);
            &&& made.status == status && made.body is Json && made.body->code == code
            &&& made.body->message == message && made.body->data == given
        }),
        ({
            let made = ReplyView::success(data);
            &&& made.status == 200 && made.body is Json && made.body->code == 0
            &&& made.body->message == "Success"@ && made.body->data == Some(data)
        }),
        ({
            let made = ReplyView::<T>::done(message);
            &&& made.status == 200 && made.body is Json && made.body->code == 0
            &&& made.body->message == message && made.body->data is None
        }),
        ({
            let made = ReplyView::<T>::unavailable(message);
            &&& made.status == 503 && made.body is Json && made.body->code == 1
            &&& made.body->message == message && made.body->data is None
        }),
{
}

} // verus!
