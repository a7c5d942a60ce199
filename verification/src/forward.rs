//! Forwarding one work item: the request that carries it and the outcome
//! that the reply to that request amounts to.

use crate::identifier::{decimal_digits, push_decimal, WorkItem};
use crate::status::{is_success, status_is_success};
use vstd::prelude::*;
use vstd::string::StringExecFns;

verus! {

/// What became of one forwarded work item.
#[derive(Clone, Debug, PartialEq, Eq)]
pub enum DispatchOutcome {
    /// The ingestion service accepted the item and answered with this payload.
    Delivered { payload: String },
    /// The ingestion service answered with a status outside the success range.
    RejectedByServer { status: u16, body: String },
    /// No response arrived.
    TransportFailed { detail: String },
    /// The service reported success, but its body is not the structured
    /// payload that was expected.
    ResponseUnparseable { detail: String },
}

/// The mathematical value of a [`DispatchOutcome`].
pub enum Outcome {
    Delivered { payload: Seq<char> },
    RejectedByServer { status: u16, body: Seq<char> },
    TransportFailed { detail: Seq<char> },
    ResponseUnparseable { detail: Seq<char> },
}

impl View for DispatchOutcome {
    type V = Outcome;

    open spec fn view(&self) -> Outcome {
        match *self {
            DispatchOutcome::Delivered { payload } => Outcome::Delivered { payload: payload@ },
            DispatchOutcome::RejectedByServer { status, body } => Outcome::RejectedByServer {
                status,
                body: body@,
            },
            DispatchOutcome::TransportFailed { detail } => Outcome::TransportFailed {
                detail: detail@,
            },
            DispatchOutcome::ResponseUnparseable { detail } => Outcome::ResponseUnparseable {
                detail: detail@,
            },
        }
    }
}

/// What the transport has to say once a forward request is over.
#[derive(Clone, Debug, PartialEq, Eq)]
pub enum Reply {
    /// The request produced no response.
    Unreachable { detail: String },
    /// A response began with this status, but its body could not be read.
    Interrupted { status: u16, detail: String },
    /// A response arrived in full.
    Complete { status: u16, body: Vec<u8> },
}

/// The mathematical value of a [`Reply`].
pub enum ReplyView {
    Unreachable { detail: Seq<char> },
    Interrupted { status: u16, detail: Seq<char> },
    Complete { status: u16, body: Seq<u8> },
}

impl View for Reply {
    type V = ReplyView;

    open spec fn view(&self) -> ReplyView {
        match *self {
            Reply::Unreachable { detail } => ReplyView::Unreachable { detail: detail@ },
            Reply::Interrupted { status, detail } => ReplyView::Interrupted {
                status,
                detail: detail@,
            },
            Reply::Complete { status, body } => ReplyView::Complete { status, body: body@ },
        }
    }
}

/// The body of the request that forwards the identifier `id`: an object
/// whose only field, `pid`, holds the identifier as decimal text.
pub open spec fn request_body_of(id: nat) -> Seq<char> {
    "{\"pid\":\""@ + decimal_digits(id) + "\"}"@
}

/// The result of `serde_json::from_slice::<serde_json::Value>` on a body,
/// each side as the text that `to_string` gives: the compact rendering of the
/// value that was read, or the message of the error.
pub uninterp spec fn json_payload(body: Seq<u8>) -> Result<Seq<char>, Seq<char>>;

/// The result of `String::from_utf8_lossy` on a body: its text, with a
/// replacement character wherever the bytes are not valid UTF-8.
pub uninterp spec fn lossy_text(body: Seq<u8>) -> Seq<char>;

/// The outcome that a decoded body amounts to.
pub open spec fn outcome_of_payload(decoded: Result<Seq<char>, Seq<char>>) -> Outcome {
    match decoded {
        Ok(payload) => Outcome::Delivered { payload },
        Err(detail) => Outcome::ResponseUnparseable { detail },
    }
}

/// The outcome of a forward request, by the reply to it.
///
/// No response is a transport failure. A status outside the success range is
/// a rejection, with the body as text as far as it could be read. A success
/// status delivers the item if the body is a structured payload, and is
/// unparseable otherwise.
pub open spec fn outcome_of(reply: ReplyView) -> Outcome {
    match reply {
        ReplyView::Unreachable { detail } => Outcome::TransportFailed { detail },
        ReplyView::Interrupted { status, detail } => if is_success(status) {
            Outcome::ResponseUnparseable { detail }
        } else {
            Outcome::RejectedByServer { status, body: Seq::empty() }
        },
        ReplyView::Complete { status, body } => if is_success(status) {
            outcome_of_payload(json_payload(body))
        } else {
            Outcome::RejectedByServer { status, body: lossy_text(body) }
        },
    }
}

/// Calls `serde_json::from_slice` to read a body as a `serde_json::Value`,
/// and `to_string` on what comes back. Trusted: the result is `json_payload`
/// of the body, which says only that equal bodies decode alike.
#[verifier::external_body]
fn decode_payload(body: &[u8]) -> (decoded: Result<String, String>)
    ensures
        match decoded {
            Ok(payload) => json_payload(body@) == Ok::<Seq<char>, Seq<char>>(payload@),
            Err(detail) => json_payload(body@) == Err::<Seq<char>, Seq<char>>(detail@),
        },
{
    match serde_json::from_slice::<serde_json::Value>(body) {
        Ok(value) => Ok(value.to_string()),
        Err(error) => Err(error.to_string()),
    }
}

/// Calls `String::from_utf8_lossy` to read a body as text. Trusted: the
/// result is `lossy_text` of the body, which says only that equal bodies
/// read alike.
#[verifier::external_body]
fn body_text(body: &[u8]) -> (text: String)
    ensures
        text@ == lossy_text(body@),
{
    String::from_utf8_lossy(body).into_owned()
}

/// The body of the request that forwards `item`.
pub fn request_body(item: WorkItem) -> (body: String)
    ensures
        body@ == request_body_of(item@),
{
    let mut body = String::from_str("{\"pid\":\"");
    push_decimal(&mut body, item.id() as u64);
    body.append("\"}");
    body
}

/// The outcome for a success response whose body was decoded to `decoded`.
pub fn payload_outcome(decoded: Result<String, String>) -> (outcome: DispatchOutcome)
    ensures
        outcome@ == outcome_of_payload(
            match decoded {
                Ok(payload) => Ok(payload@),
                Err(detail) => Err(detail@),
            },
        ),
{
    match decoded {
        Ok(payload) => DispatchOutcome::Delivered { payload },
        Err(detail) => DispatchOutcome::ResponseUnparseable { detail },
    }
}

/// Classifies the reply to a forward request. Every reply has an outcome:
/// forwarding never fails in any other way.
pub fn classify(reply: Reply) -> (outcome: DispatchOutcome)
    ensures
        outcome@ == outcome_of(reply@),
{
    match reply {
        Reply::Unreachable { detail } => DispatchOutcome::TransportFailed { detail },
        Reply::Interrupted { status, detail } => {
            if status_is_success(status) {
                DispatchOutcome::ResponseUnparseable { detail }
            } else {
                DispatchOutcome::RejectedByServer { status, body: String::new() }
            }
        },
        Reply::Complete { status, body } => {
            if status_is_success(status) {
                payload_outcome(decode_payload(body.as_slice()))
            } else {
                DispatchOutcome::RejectedByServer { status, body: body_text(body.as_slice()) }
            }
        },
    }
}

} // verus!
