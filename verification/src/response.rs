//! What a response is turned into: a reply for the caller, or a failure.

use vstd::prelude::*;
use crate::error::{BridgeError, ErrorModel};
use crate::json::{
    empty_object, has_one_member, is_empty_object, json_outcome, json_text, member, object_of,
    parse_json, parse_view, string_value,
};
use crate::text::{blank, is_blank};

verus! {

/// How the body of a successful response that is no JSON is taken.
#[derive(Clone, Copy, Debug, PartialEq, Eq, Structural)]
pub enum JsonPolicy {
    /// The call succeeds, and the reply wraps the text.
    Lenient,
    /// The call fails.
    Strict,
}

/// What a successful call hands back. Each variant stands for one JSON
/// value.
#[derive(Debug, PartialEq)]
pub enum Reply {
    /// The empty object, `{}`.
    EmptyObject,
    /// The value that the body was parsed to.
    Document(serde_json::Value),
    /// An object with the one member `raw`, the body's text.
    Raw(String),
}

/// A reply as a mathematical value.
pub enum ReplyModel {
    EmptyObject,
    Document(serde_json::Value),
    Raw(Seq<char>),
}

impl View for Reply {
    type V = ReplyModel;

    open spec fn view(&self) -> ReplyModel {
        match self {
            Reply::EmptyObject => ReplyModel::EmptyObject,
            Reply::Document(v) => ReplyModel::Document(*v),
            Reply::Raw(text) => ReplyModel::Raw(text@),
        }
    }
}

impl Reply {
    /// The reply as the JSON value that it stands for: a value that was
    /// parsed is handed on as it is; the others are built, the empty
    /// object, or an object whose one member `raw` is the text.
    pub fn into_value(self) -> (r: serde_json::Value)
        ensures
            self is EmptyObject ==> is_empty_object(r),
            self matches Reply::Document(value) ==> r == value,
            self matches Reply::Raw(text) ==> has_one_member(r, "raw"@) && json_text(
                member(r, "raw"@),
            ) == Some(text@),
    {
        match self {
            Reply::EmptyObject => empty_object(),
            Reply::Document(value) => value,
            Reply::Raw(text) => object_of("raw", string_value(text)),
        }
    }
}

/// The outcome of a call as a mathematical value.
pub open spec fn reply_outcome(r: Result<Reply, BridgeError>) -> Result<ReplyModel, ErrorModel> {
    match r {
        Ok(reply) => Ok(reply@),
        Err(e) => Err(e@),
    }
}

/// Whether a status is one of success: 200 to 299.
pub open spec fn is_success(status: u16) -> bool {
    200 <= status && status <= 299
}

/// What the body of a successful response, not blank, is turned into, given
/// what the JSON parser made of it.
pub open spec fn body_reply(
    policy: JsonPolicy,
    body: Seq<char>,
    parsed: Result<serde_json::Value, Seq<char>>,
) -> Result<ReplyModel, ErrorModel> {
    match parsed {
        Ok(value) => Ok(ReplyModel::Document(value)),
        Err(detail) => match policy {
            JsonPolicy::Lenient => Ok(ReplyModel::Raw(body)),
            JsonPolicy::Strict => Err(ErrorModel::InvalidJson(detail)),
        },
    }
}

/// What a response is turned into: a failure for a status that is not one
/// of success; the empty object for a blank body; otherwise what follows
/// from the JSON parser's reading of the body.
pub open spec fn reply_of(policy: JsonPolicy, status: u16, body: Seq<char>) -> Result<
    ReplyModel,
    ErrorModel,
> {
    if !is_success(status) {
        Err(ErrorModel::CoreApi { status, body })
    } else if is_blank(body) {
        Ok(ReplyModel::EmptyObject)
    } else {
        body_reply(policy, body, json_outcome(body))
    }
}

/// Whether a status is one of success.
pub fn status_is_success(status: u16) -> (r: bool)
    ensures
        r == is_success(status),
{
    200 <= status && status <= 299
}

/// Turns the body of a successful response, not blank, into a reply, given
/// what the JSON parser made of it: the value read, as it is; for a body
/// that is no JSON, the text wrapped, or under the strict policy a failure.
pub fn interpret_body(
    policy: JsonPolicy,
    body: String,
    parsed: Result<serde_json::Value, String>,
) -> (r: Result<Reply, BridgeError>)
    ensures
        reply_outcome(r) == body_reply(policy, body@, parse_view(parsed)),
{
    match parsed {
        Ok(value) => Ok(Reply::Document(value)),
        Err(detail) => match policy {
            JsonPolicy::Lenient => Ok(Reply::Raw(body)),
            JsonPolicy::Strict => Err(BridgeError::InvalidJson(detail)),
        },
    }
}

/// Turns a response, read in full, into a reply or a failure.
///
/// A status outside 200..=299 fails and carries status and body as they
/// came. A blank body of a successful response is the empty object.
/// Any other body goes to the JSON parser: what it reads is the reply; what
/// it refuses is wrapped or fails, as the policy says.
pub fn read_response_with(policy: JsonPolicy, status: u16, body: String) -> (r: Result<
    Reply,
    BridgeError,
>)
    ensures
        reply_outcome(r) == reply_of(policy, status, body@),
{
    if !status_is_success(status) {
        return Err(BridgeError::CoreApi { status, body });
    }
    if blank(body.as_str()) {
        return Ok(Reply::EmptyObject);
    }
    let parsed = parse_json(body.as_str());
    interpret_body(policy, body, parsed)
}

/// Turns a response into a reply or a failure under the lenient policy:
/// a successful response never fails for its body.
pub fn read_response(status: u16, body: String) -> (r: Result<Reply, BridgeError>)
    ensures
        reply_outcome(r) == reply_of(JsonPolicy::Lenient, status, body@),
        is_success(status) ==> r is Ok,
        !is_success(status) ==> r is Err,
{
    read_response_with(JsonPolicy::Lenient, status, body)
}

} // verus!
