//! The request that a call sends: how it is put together from what the
//! caller gives, and the four calls that the user interface makes.

use vstd::prelude::*;
use vstd::string::StringExecFns;
use crate::error::{BridgeError, ErrorModel};
use crate::json::{
    bool_value, has_one_member, json_flag, json_text, member, object_of, string_value,
};
use crate::method::{method_of, parse_method, unknown_method_detail, Method};
use crate::target::{
    base_of, check_scheme, parse_outcome, parse_scheme, scheme_verdict, target_of, target_url,
    url_scheme_of,
};
use crate::text::{is_blank, lemma_trimmed_empty_iff_blank, trim, trimmed};

verus! {

/// The time, in seconds, that one request may take from connecting to the
/// end of its response.
pub const REQUEST_TIMEOUT_SECS: u64 = 20;

/// The JSON value that a request carries as its body.
#[derive(Debug, PartialEq)]
pub enum Payload {
    /// An object with the one member `execute`.
    Execute(bool),
    /// An object with the one member `reason`.
    Reason(String),
    /// A value that the caller gave.
    Json(serde_json::Value),
}

/// A payload as a mathematical value.
pub enum PayloadModel {
    Execute(bool),
    Reason(Seq<char>),
    Json(serde_json::Value),
}

impl View for Payload {
    type V = PayloadModel;

    open spec fn view(&self) -> PayloadModel {
        match self {
            Payload::Execute(execute) => PayloadModel::Execute(*execute),
            Payload::Reason(reason) => PayloadModel::Reason(reason@),
            Payload::Json(value) => PayloadModel::Json(*value),
        }
    }
}

impl Payload {
    /// The payload as the JSON value that it stands for: a value that the
    /// caller gave is handed on as it is; a flag or a reason becomes the
    /// one member, `execute` or `reason`, of a new object.
    pub fn into_value(self) -> (r: serde_json::Value)
        ensures
            self matches Payload::Execute(execute) ==> has_one_member(r, "execute"@) && json_flag(
                member(r, "execute"@),
            ) == Some(execute),
            self matches Payload::Reason(reason) ==> has_one_member(r, "reason"@) && json_text(
                member(r, "reason"@),
            ) == Some(reason@),
            self matches Payload::Json(value) ==> r == value,
    {
        match self {
            Payload::Execute(execute) => object_of("execute", bool_value(execute)),
            Payload::Reason(reason) => object_of("reason", string_value(reason)),
            Payload::Json(value) => value,
        }
    }
}

/// A request, ready to be sent.
#[derive(Debug, PartialEq)]
pub struct PreparedRequest {
    /// The verb.
    pub method: Method,
    /// The target: base and path joined, an absolute `http` or `https` URL.
    pub url: String,
    /// The token of the bearer-authentication header, if the request has one.
    pub bearer: Option<String>,
    /// The JSON body, if the request has one.
    pub body: Option<Payload>,
    /// The time limit for the whole request, in seconds.
    pub timeout_secs: u64,
}

/// A request as a mathematical value.
pub struct RequestModel {
    pub method: Method,
    pub url: Seq<char>,
    pub bearer: Option<Seq<char>>,
    pub body: Option<PayloadModel>,
    pub timeout_secs: u64,
}

impl View for PreparedRequest {
    type V = RequestModel;

    open spec fn view(&self) -> RequestModel {
        RequestModel {
            method: self.method,
            url: self.url@,
            bearer: text_of(self.bearer),
            body: payload_of(self.body),
            timeout_secs: self.timeout_secs,
        }
    }
}

/// An optional text as a mathematical value.
pub open spec fn text_of(text: Option<String>) -> Option<Seq<char>> {
    match text {
        Some(t) => Some(t@),
        None => None,
    }
}

/// An optional payload as a mathematical value.
pub open spec fn payload_of(payload: Option<Payload>) -> Option<PayloadModel> {
    match payload {
        Some(p) => Some(p@),
        None => None,
    }
}

/// An optional JSON value as the payload that carries it.
pub open spec fn passed_on(payload: Option<serde_json::Value>) -> Option<PayloadModel> {
    match payload {
        Some(value) => Some(PayloadModel::Json(value)),
        None => None,
    }
}

/// The outcome of planning as a mathematical value.
pub open spec fn plan_outcome(r: Result<PreparedRequest, BridgeError>) -> Result<
    RequestModel,
    ErrorModel,
> {
    match r {
        Ok(request) => Ok(request@),
        Err(e) => Err(e@),
    }
}

/// The token that goes into the bearer-authentication header: the given
/// one, trimmed, unless none is given or the given one is blank.
pub open spec fn bearer_of(token: Option<Seq<char>>) -> Option<Seq<char>> {
    match token {
        Some(t) => if is_blank(t) {
            None
        } else {
            Some(trimmed(t))
        },
        None => None,
    }
}

/// The request for a target that has been accepted: what was given, the
/// token as `bearer_of` picks it, and the time limit.
pub open spec fn request_for(
    method: Method,
    url: Seq<char>,
    token: Option<Seq<char>>,
    payload: Option<PayloadModel>,
) -> RequestModel {
    RequestModel {
        method,
        url,
        bearer: bearer_of(token),
        body: payload,
        timeout_secs: REQUEST_TIMEOUT_SECS,
    }
}

/// The request for a target whose text is `url`, given what the URL parser
/// made of that text.
pub open spec fn assembled(
    method: Method,
    url: Seq<char>,
    parsed: Result<Seq<char>, Seq<char>>,
    token: Option<Seq<char>>,
    payload: Option<PayloadModel>,
) -> Result<RequestModel, ErrorModel> {
    match scheme_verdict(parsed) {
        Some(e) => Err(e),
        None => Ok(request_for(method, url, token, payload)),
    }
}

/// The request that a call sends, or the failure that it ends in before
/// anything is sent. The checks come in this order: the base URL, the
/// target as a URL, its scheme.
pub open spec fn planned(
    method: Method,
    base_url: Seq<char>,
    path: Seq<char>,
    token: Option<Seq<char>>,
    payload: Option<PayloadModel>,
) -> Result<RequestModel, ErrorModel> {
    if base_of(base_url).len() == 0 {
        Err(ErrorModel::BaseUrlRequired)
    } else {
        assembled(
            method,
            target_of(base_url, path),
            url_scheme_of(target_of(base_url, path)),
            token,
            payload,
        )
    }
}

/// The path of the call that approves a plan.
pub open spec fn approve_path(plan_id: Seq<char>) -> Seq<char> {
    "/plans/"@ + plan_id + "/approve"@
}

/// The path of the call that rejects a plan.
pub open spec fn reject_path(plan_id: Seq<char>) -> Seq<char> {
    "/plans/"@ + plan_id + "/reject"@
}

/// The reason that a rejection carries: the given one, or the standing one
/// where none is given.
pub open spec fn reason_of(reason: Option<Seq<char>>) -> Seq<char> {
    match reason {
        Some(r) => r,
        None => "Operator rejected"@,
    }
}

/// The path of the dashboard call.
pub open spec fn dashboard_path() -> Seq<char> {
    "/dashboard/data?plans_limit=100"@
}

/// The request of the generic call, whose method comes as free text. The
/// base URL and the target are judged first, as in every call, and then
/// the method: text that names no verb is refused only where a base URL is
/// left and the target is an `http` or `https` URL.
pub open spec fn planned_from_text(
    method: Seq<char>,
    base_url: Seq<char>,
    path: Seq<char>,
    token: Option<Seq<char>>,
    payload: Option<PayloadModel>,
) -> Result<RequestModel, ErrorModel> {
    if base_of(base_url).len() == 0 {
        Err(ErrorModel::BaseUrlRequired)
    } else {
        match scheme_verdict(url_scheme_of(target_of(base_url, path))) {
            Some(e) => Err(e),
            None => match method_of(method) {
                None => Err(ErrorModel::UnsupportedMethod(unknown_method_detail())),
                Some(m) => planned(m, base_url, path, token, payload),
            },
        }
    }
}

/// Picks the token for the bearer-authentication header: the given token,
/// trimmed; none where none is given or the given one is blank.
pub fn bearer_token(token: Option<String>) -> (r: Option<String>)
    ensures
        text_of(r) == bearer_of(text_of(token)),
        r matches Some(t) ==> t@.len() > 0,
{
    match token {
        None => None,
        Some(t) => {
            proof {
                lemma_trimmed_empty_iff_blank(t@);
            }
            let inner = trim(t.as_str());
            if inner.is_empty() {
                None
            } else {
                Some(String::from_str(inner))
            }
        },
    }
}

/// Puts the request together for a target that has been accepted: it
/// holds what was given, the token as `bearer_token` picks it, and the time
/// limit.
pub fn prepare(
    method: Method,
    url: String,
    token: Option<String>,
    payload: Option<Payload>,
) -> (r: PreparedRequest)
    ensures
        r@ == request_for(method, url@, text_of(token), payload_of(payload)),
{
    PreparedRequest {
        method,
        url,
        bearer: bearer_token(token),
        body: payload,
        timeout_secs: REQUEST_TIMEOUT_SECS,
    }
}

/// Puts a request together for a target whose text is `url`, given what the
/// URL parser made of that text. A text that is no URL, or a URL of another
/// scheme than `http` and `https`, is refused; otherwise the request holds
/// what was given, the token as `bearer_token` picks it, and the time limit.
pub fn assemble(
    method: Method,
    url: String,
    parsed: Result<String, String>,
    token: Option<String>,
    payload: Option<Payload>,
) -> (r: Result<PreparedRequest, BridgeError>)
    ensures
        plan_outcome(r) == assembled(
            method,
            url@,
            parse_outcome(parsed),
            text_of(token),
            payload_of(payload),
        ),
{
    match check_scheme(parsed) {
        Err(e) => Err(e),
        Ok(_) => Ok(prepare(method, url, token, payload)),
    }
}

/// Plans one request: normalises base URL and path, joins them, has the
/// result parsed as a URL and checks its scheme, then attaches token and
/// payload.
///
/// A blank base URL is refused whatever else is given.
pub fn request_json(
    method: Method,
    base_url: &str,
    path: &str,
    token: Option<String>,
    payload: Option<Payload>,
) -> (r: Result<PreparedRequest, BridgeError>)
    ensures
        plan_outcome(r) == planned(method, base_url@, path@, text_of(token), payload_of(payload)),
        is_blank(base_url@) ==> plan_outcome(r) == Err::<RequestModel, ErrorModel>(
            ErrorModel::BaseUrlRequired,
        ),
{
    match target_url(base_url, path) {
        Err(e) => Err(e),
        Ok(url) => {
            let parsed = parse_scheme(url.as_str());
            assemble(method, url, parsed, token, payload)
        },
    }
}

/// Plans the generic call, whose method comes as free text. The base URL
/// comes first, then the target and its scheme, then the method: a blank
/// base URL is refused whatever the method text is, and text that names no
/// verb ends the call before a request is made.
pub fn core_request(
    method: &str,
    base_url: &str,
    token: Option<String>,
    path: &str,
    payload: Option<serde_json::Value>,
) -> (r: Result<PreparedRequest, BridgeError>)
    ensures
        plan_outcome(r) == planned_from_text(
            method@,
            base_url@,
            path@,
            text_of(token),
            passed_on(payload),
        ),
        is_blank(base_url@) ==> plan_outcome(r) == Err::<RequestModel, ErrorModel>(
            ErrorModel::BaseUrlRequired,
        ),
{
    let url: String = match target_url(base_url, path) {
        Err(e) => {
            return Err(e);
        },
        Ok(url) => url,
    };
    let parsed = parse_scheme(url.as_str());
    match check_scheme(parsed) {
        Err(e) => Err(e),
        Ok(_) => match parse_method(method) {
            Err(e) => Err(e),
            Ok(m) => {
                let body = match payload {
                    Some(value) => Some(Payload::Json(value)),
                    None => None,
                };
                Ok(prepare(m, url, token, body))
            },
        },
    }
}

/// Plans the call that fetches the dashboard's data.
pub fn fetch_dashboard_data(base_url: &str, token: Option<String>) -> (r: Result<
    PreparedRequest,
    BridgeError,
>)
    ensures
        plan_outcome(r) == planned(
            Method::Get,
            base_url@,
            dashboard_path(),
            text_of(token),
            None,
        ),
{
    request_json(Method::Get, base_url, "/dashboard/data?plans_limit=100", token, None)
}

/// Plans the call that approves a plan: a `POST` to the plan's `approve`
/// path, with the `execute` flag as its body.
pub fn approve_plan(
    base_url: &str,
    token: Option<String>,
    plan_id: &str,
    execute: bool,
) -> (r: Result<PreparedRequest, BridgeError>)
    ensures
        plan_outcome(r) == planned(
            Method::Post,
            base_url@,
            approve_path(plan_id@),
            text_of(token),
            Some(PayloadModel::Execute(execute)),
        ),
{
    let mut path: String = String::from_str("/plans/");
    path.append(plan_id);
    path.append("/approve");
    request_json(Method::Post, base_url, path.as_str(), token, Some(Payload::Execute(execute)))
}

/// Plans the call that rejects a plan: a `POST` to the plan's `reject`
/// path, with the reason as its body. Without a reason the standing one is
/// sent.
pub fn reject_plan(
    base_url: &str,
    token: Option<String>,
    plan_id: &str,
    reason: Option<String>,
) -> (r: Result<PreparedRequest, BridgeError>)
    ensures
        plan_outcome(r) == planned(
            Method::Post,
            base_url@,
            reject_path(plan_id@),
            text_of(token),
            Some(PayloadModel::Reason(reason_of(text_of(reason)))),
        ),
{
    let mut path: String = String::from_str("/plans/");
    path.append(plan_id);
    path.append("/reject");
    let why: String = match reason {
        Some(given) => given,
        None => String::from_str("Operator rejected"),
    };
    request_json(Method::Post, base_url, path.as_str(), token, Some(Payload::Reason(why)))
}

} // verus!
