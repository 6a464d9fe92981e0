//! The provider's side of the payment interface: which HTTP reply each
//! request gets, given what the store and the peer answer. Every handler is a
//! small state machine; whoever drives it talks to the store and to the bus.

use crate::error::CallError;
use vstd::prelude::*;

verus! {

/// The HTTP statuses that the payment interface replies with.
#[derive(Clone, Copy, Debug, PartialEq, Eq, Structural)]
pub enum HttpStatus {
    Success,
    Created,
    BadRequest,
    Unauthorized,
    NotFound,
    InternalServerError,
    NotImplemented,
    GatewayTimeout,
}

/// The number of a status.
pub open spec fn status_code(status: HttpStatus) -> u16 {
    match status {
        HttpStatus::Success => 200,
        HttpStatus::Created => 201,
        HttpStatus::BadRequest => 400,
        HttpStatus::Unauthorized => 401,
        HttpStatus::NotFound => 404,
        HttpStatus::InternalServerError => 500,
        HttpStatus::NotImplemented => 501,
        HttpStatus::GatewayTimeout => 504,
    }
}

impl HttpStatus {
    /// The number of the status.
    pub fn code(&self) -> (code: u16)
        ensures
            code == status_code(*self),
    {
        match self {
            HttpStatus::Success => 200,
            HttpStatus::Created => 201,
            HttpStatus::BadRequest => 400,
            HttpStatus::Unauthorized => 401,
            HttpStatus::NotFound => 404,
            HttpStatus::InternalServerError => 500,
            HttpStatus::NotImplemented => 501,
            HttpStatus::GatewayTimeout => 504,
        }
    }
}

/// What a reply carries.
#[derive(Clone, Debug, PartialEq, Eq)]
pub enum ReplyBody {
    /// Nothing.
    Empty,
    /// A message.
    Text(String),
    /// The document that the request is about, as JSON.
    Document,
    /// The documents that the request asked for, as a JSON list.
    Documents,
}

/// An HTTP reply.
#[derive(Clone, Debug, PartialEq, Eq)]
pub struct HttpReply {
    pub status: HttpStatus,
    pub body: ReplyBody,
}

/// A reply as a mathematical value: the status, and the message if the body
/// is one.
pub ghost struct ReplyView {
    pub status: HttpStatus,
    pub body: BodyView,
}

/// A body as a mathematical value.
pub ghost enum BodyView {
    Empty,
    Text(Seq<char>),
    Document,
    Documents,
}

impl View for ReplyBody {
    type V = BodyView;

    open spec fn view(&self) -> BodyView {
        match *self {
            ReplyBody::Empty => BodyView::Empty,
            ReplyBody::Text(text) => BodyView::Text(text@),
            ReplyBody::Document => BodyView::Document,
            ReplyBody::Documents => BodyView::Documents,
        }
    }
}

impl View for HttpReply {
    type V = ReplyView;

    open spec fn view(&self) -> ReplyView {
        ReplyView { status: self.status, body: self.body@ }
    }
}

/// A reply with a message.
pub open spec fn text_reply(status: HttpStatus, text: Seq<char>) -> ReplyView {
    ReplyView { status, body: BodyView::Text(text) }
}

/// A reply without a body.
pub open spec fn empty_reply(status: HttpStatus) -> ReplyView {
    ReplyView { status, body: BodyView::Empty }
}

/// The error with which a peer refuses a document sent to it.
#[derive(Clone, Debug, PartialEq, Eq)]
pub enum SendError {
    /// The peer could not process the document.
    ServiceError(String),
    /// The document is not acceptable.
    BadRequest(String),
}

/// The error of the store.
#[derive(Clone, Debug, PartialEq, Eq)]
pub enum DbError {
    /// The query was refused: the request is at fault.
    Query(String),
    /// Anything else.
    Other(String),
}

/// The kind of a payment document.
#[derive(Clone, Copy, Debug, PartialEq, Eq, Structural)]
pub enum DocumentKind {
    Invoice,
    DebitNote,
}

/// What the handlers read of an invoice or a debit note.
#[derive(Clone, Debug, PartialEq, Eq)]
pub struct PaymentDocument {
    pub id: String,
    pub issuer_id: String,
    pub recipient_id: String,
}

/// What the handlers read of the agreement that a document is issued under.
/// Either party may be missing from a record.
#[derive(Clone, Debug, PartialEq, Eq)]
pub struct AgreementParties {
    pub provider_id: Option<String>,
    pub requestor_id: Option<String>,
}

/// The status for a bus call that failed: a timeout is a gateway timeout, a
/// request that the peer calls bad is a bad request, and everything else,
/// transport failures among it, is an internal error.
pub open spec fn failure_status(e: CallError<SendError>) -> HttpStatus {
    match e {
        CallError::Timeout => HttpStatus::GatewayTimeout,
        CallError::Remote(SendError::BadRequest(_)) => HttpStatus::BadRequest,
        _ => HttpStatus::InternalServerError,
    }
}

/// The reply for a bus call that failed: the status that the failure maps
/// to, with the text that the failure carries. A gateway timeout has no
/// body.
pub open spec fn failure_reply(e: CallError<SendError>) -> ReplyView {
    match e {
        CallError::Timeout => empty_reply(HttpStatus::GatewayTimeout),
        CallError::Transport(cause) => text_reply(HttpStatus::InternalServerError, cause@),
        CallError::Remote(SendError::BadRequest(message)) => text_reply(
            HttpStatus::BadRequest,
            message@,
        ),
        CallError::Remote(SendError::ServiceError(message)) => text_reply(
            HttpStatus::InternalServerError,
            message@,
        ),
    }
}

/// The three kinds of failure of a bus call map to three statuses: a timeout
/// to 504, a request that the peer calls bad to 400, and every other failure
/// to 500.
pub proof fn lemma_failure_status_codes(e: CallError<SendError>)
    ensures
        status_code(failure_status(e)) == 504 <==> e is Timeout,
        status_code(failure_status(e)) == 400 <==> e matches CallError::Remote(
            SendError::BadRequest(_),
        ),
        status_code(failure_status(e)) == 500 <==> !(e is Timeout) && !(e matches CallError::Remote(
            SendError::BadRequest(_),
        )),
        failure_reply(e).status == failure_status(e),
{
}

/// The status for a bus call that failed.
pub fn status_for_failure(e: &CallError<SendError>) -> (status: HttpStatus)
    ensures
        status == failure_status(*e),
{
    match e {
        CallError::Timeout => HttpStatus::GatewayTimeout,
        CallError::Remote(SendError::BadRequest(_)) => HttpStatus::BadRequest,
        _ => HttpStatus::InternalServerError,
    }
}

/// The reply for a bus call that failed.
pub fn reply_for_failure(e: CallError<SendError>) -> (reply: HttpReply)
    ensures
        reply@ == failure_reply(e),
        reply.status == failure_status(e),
{
    match e {
        CallError::Timeout => HttpReply {
            status: HttpStatus::GatewayTimeout,
            body: ReplyBody::Empty,
        },
        CallError::Transport(cause) => HttpReply {
            status: HttpStatus::InternalServerError,
            body: ReplyBody::Text(cause),
        },
        CallError::Remote(SendError::BadRequest(message)) => HttpReply {
            status: HttpStatus::BadRequest,
            body: ReplyBody::Text(message),
        },
        CallError::Remote(SendError::ServiceError(message)) => HttpReply {
            status: HttpStatus::InternalServerError,
            body: ReplyBody::Text(message),
        },
    }
}

/// The timeout of a bus call, in milliseconds, for a timeout given in
/// seconds in the query: none for 0.
pub open spec fn timeout_millis(seconds: u32) -> Option<u64> {
    if seconds > 0 {
        Some((seconds * 1000) as u64)
    } else {
        None
    }
}

/// The timeout of a bus call for the timeout that the query gives.
pub fn call_timeout(seconds: u32) -> (millis: Option<u64>)
    ensures
        millis == timeout_millis(seconds),
{
    if seconds > 0 {
        let wide: u64 = seconds as u64;
        Some(wide * 1000)
    } else {
        None
    }
}

/// The reply to a request for one document of the caller's: the document if
/// the store has it and the caller issued it; an internal error if the store
/// failed; else not found.
pub open spec fn get_reply(found: Result<Option<PaymentDocument>, String>, caller: Seq<char>) -> ReplyView {
    match found {
        Ok(Some(document)) => if document.issuer_id@ == caller {
            ReplyView { status: HttpStatus::Success, body: BodyView::Document }
        } else {
            empty_reply(HttpStatus::NotFound)
        },
        Ok(None) => empty_reply(HttpStatus::NotFound),
        Err(e) => text_reply(HttpStatus::InternalServerError, e@),
    }
}

/// The reply to a request for one document of the caller's.
pub fn reply_for_get(found: Result<Option<PaymentDocument>, String>, caller: &str) -> (reply:
    HttpReply)
    ensures
        reply@ == get_reply(found, caller@),
{
    match found {
        Ok(Some(document)) => {
            if document.issuer_id == caller.to_owned() {
                HttpReply { status: HttpStatus::Success, body: ReplyBody::Document }
            } else {
                HttpReply { status: HttpStatus::NotFound, body: ReplyBody::Empty }
            }
        },
        Ok(None) => HttpReply { status: HttpStatus::NotFound, body: ReplyBody::Empty },
        Err(e) => HttpReply { status: HttpStatus::InternalServerError, body: ReplyBody::Text(e) },
    }
}

/// The reply to a request for all documents that the caller issued.
pub open spec fn list_reply(found: Result<(), String>) -> ReplyView {
    match found {
        Ok(_) => ReplyView { status: HttpStatus::Success, body: BodyView::Documents },
        Err(e) => text_reply(HttpStatus::InternalServerError, e@),
    }
}

/// The reply to a request for all documents that the caller issued, given
/// how the store answered.
pub fn reply_for_list(found: Result<(), String>) -> (reply: HttpReply)
    ensures
        reply@ == list_reply(found),
{
    match found {
        Ok(_) => HttpReply { status: HttpStatus::Success, body: ReplyBody::Documents },
        Err(e) => HttpReply { status: HttpStatus::InternalServerError, body: ReplyBody::Text(e) },
    }
}

/// The reply of the handlers that are not written yet.
pub fn reply_not_implemented() -> (reply: HttpReply)
    ensures
        reply@ == empty_reply(HttpStatus::NotImplemented),
{
    HttpReply { status: HttpStatus::NotImplemented, body: ReplyBody::Empty }
}

} // verus!
