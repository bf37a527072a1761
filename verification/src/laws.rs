//! What holds of every request and of every response.

use vstd::prelude::*;
use crate::error::{message_text, ErrorModel};
use crate::json::json_outcome;
use crate::method::{method_of, unknown_method_detail, Method};
use crate::request::{planned, planned_from_text, PayloadModel, RequestModel};
use crate::response::{body_reply, is_success, reply_of, JsonPolicy, ReplyModel};
use crate::target::{
    base_of, is_http_scheme, path_of, scheme_verdict, target_of, url_scheme_of,
};
use crate::text::{
    decimal_text, is_blank, lemma_trailing_slashes_gone, lemma_trimmed_empty_iff_blank, trimmed,
};

verus! {

/// A normalised path begins with a slash: a path that lacks one gets it,
/// and a path that has one is kept as it is.
pub proof fn lemma_path_begins_with_slash(path: Seq<char>)
    ensures
        path_of(path).len() > 0,
        path_of(path)[0] == '/',
        !is_blank(path) && path[0] == '/' ==> path_of(path) == path,
        !is_blank(path) && path[0] != '/' ==> path_of(path) == seq!['/'] + path,
        is_blank(path) ==> path_of(path) == seq!['/'],
{
    reveal_strlit("/");
    assert("/"@ =~= seq!['/']);
}

/// A blank base URL is refused as missing, whatever the method, the path,
/// the token and the payload are.
pub proof fn lemma_blank_base_is_refused(
    method: Method,
    base_url: Seq<char>,
    path: Seq<char>,
    token: Option<Seq<char>>,
    payload: Option<PayloadModel>,
)
    requires
        is_blank(base_url),
    ensures
        planned(method, base_url, path, token, payload) == Err::<RequestModel, ErrorModel>(
            ErrorModel::BaseUrlRequired,
        ),
{
    lemma_trimmed_empty_iff_blank(base_url);
    lemma_trailing_slashes_gone(trimmed(base_url));
}

/// In the generic call too a blank base URL is refused as missing,
/// whatever the method text, the path, the token and the payload are.
pub proof fn lemma_blank_base_is_refused_from_text(
    method: Seq<char>,
    base_url: Seq<char>,
    path: Seq<char>,
    token: Option<Seq<char>>,
    payload: Option<PayloadModel>,
)
    requires
        is_blank(base_url),
    ensures
        planned_from_text(method, base_url, path, token, payload) == Err::<
            RequestModel,
            ErrorModel,
        >(ErrorModel::BaseUrlRequired),
{
    lemma_trimmed_empty_iff_blank(base_url);
    lemma_trailing_slashes_gone(trimmed(base_url));
}

/// Where the method text names a verb, the generic call plans what the
/// call with that verb plans.
pub proof fn lemma_generic_call_agrees(
    method: Seq<char>,
    base_url: Seq<char>,
    path: Seq<char>,
    token: Option<Seq<char>>,
    payload: Option<PayloadModel>,
)
    requires
        method_of(method) is Some,
    ensures
        planned_from_text(method, base_url, path, token, payload) == planned(
            method_of(method)->0,
            base_url,
            path,
            token,
            payload,
        ),
{
}

/// A target that parses as a URL of another scheme than `http` and `https`
/// is refused for its scheme, whatever the method, the token and the
/// payload are.
pub proof fn lemma_other_scheme_is_refused(
    method: Method,
    base_url: Seq<char>,
    path: Seq<char>,
    token: Option<Seq<char>>,
    payload: Option<PayloadModel>,
    scheme: Seq<char>,
)
    requires
        base_of(base_url).len() > 0,
        url_scheme_of(target_of(base_url, path)) == Ok::<Seq<char>, Seq<char>>(scheme),
        !is_http_scheme(scheme),
    ensures
        planned(method, base_url, path, token, payload) == Err::<RequestModel, ErrorModel>(
            ErrorModel::SchemeNotAllowed,
        ),
{
}

/// A request carries a bearer token exactly when a token is given that is
/// not blank, and then it carries that token trimmed.
pub proof fn lemma_bearer_iff_token_given(
    method: Method,
    base_url: Seq<char>,
    path: Seq<char>,
    token: Option<Seq<char>>,
    payload: Option<PayloadModel>,
)
    requires
        planned(method, base_url, path, token, payload) is Ok,
    ensures
        ({
            let request = planned(method, base_url, path, token, payload)->Ok_0;
            &&& request.bearer is Some <==> (token is Some && !is_blank(token->0))
            &&& request.bearer matches Some(t) ==> t == trimmed(token->0) && t.len() > 0
        }),
{
    if token is Some {
        lemma_trimmed_empty_iff_blank(token->0);
    }
}

/// Where a base URL is left and the target is an `http` or `https` URL,
/// method text that names no verb ends the generic call with that failure,
/// whatever the token and the payload are: no request comes of it.
pub proof fn lemma_unknown_method_is_refused(
    method: Seq<char>,
    base_url: Seq<char>,
    path: Seq<char>,
    token: Option<Seq<char>>,
    payload: Option<PayloadModel>,
)
    requires
        method_of(method) is None,
        base_of(base_url).len() > 0,
        scheme_verdict(url_scheme_of(target_of(base_url, path))) is None,
    ensures
        planned_from_text(method, base_url, path, token, payload) == Err::<
            RequestModel,
            ErrorModel,
        >(ErrorModel::UnsupportedMethod(unknown_method_detail())),
{
}

/// Method text that names no verb never gives a request, whatever else is
/// given.
pub proof fn lemma_unknown_method_gives_no_request(
    method: Seq<char>,
    base_url: Seq<char>,
    path: Seq<char>,
    token: Option<Seq<char>>,
    payload: Option<PayloadModel>,
)
    requires
        method_of(method) is None,
    ensures
        planned_from_text(method, base_url, path, token, payload) is Err,
{
}

/// A successful response with a blank body is the empty object, under
/// either policy.
pub proof fn lemma_blank_body_is_empty_object(policy: JsonPolicy, status: u16, body: Seq<char>)
    requires
        is_success(status),
        is_blank(body),
    ensures
        reply_of(policy, status, body) == Ok::<ReplyModel, ErrorModel>(ReplyModel::EmptyObject),
{
}

/// What the JSON parser read from the body of a successful response is the
/// reply, unchanged, under either policy.
pub proof fn lemma_parsed_value_is_the_reply(
    policy: JsonPolicy,
    body: Seq<char>,
    value: serde_json::Value,
)
    ensures
        body_reply(policy, body, Ok(value)) == Ok::<ReplyModel, ErrorModel>(
            ReplyModel::Document(value),
        ),
{
}

/// A successful response whose body is not blank and reads as a JSON value
/// yields that value, under either policy.
pub proof fn lemma_json_body_is_the_value_read(
    policy: JsonPolicy,
    status: u16,
    body: Seq<char>,
    value: serde_json::Value,
)
    requires
        is_success(status),
        !is_blank(body),
        json_outcome(body) == Ok::<serde_json::Value, Seq<char>>(value),
    ensures
        reply_of(policy, status, body) == Ok::<ReplyModel, ErrorModel>(
            ReplyModel::Document(value),
        ),
{
}

/// A response whose status is not one of success fails, under either
/// policy, and the failure's text holds the status as a decimal numeral and
/// after it the body as it came.
pub proof fn lemma_failure_status_is_reported(policy: JsonPolicy, status: u16, body: Seq<char>)
    requires
        !is_success(status),
    ensures
        reply_of(policy, status, body) == Err::<ReplyModel, ErrorModel>(
            ErrorModel::CoreApi { status, body },
        ),
        message_text(ErrorModel::CoreApi { status, body }) == "Core API "@ + decimal_text(
            status as nat,
        ) + ": "@ + body,
        ({
            let text = message_text(ErrorModel::CoreApi { status, body });
            let n = text.len() - body.len();
            &&& n >= 0
            &&& text.subrange(n, text.len() as int) == body
        }),
{
    let text = message_text(ErrorModel::CoreApi { status, body });
    let n = text.len() - body.len();
    assert(text.subrange(n, text.len() as int) =~= body);
}

/// Under the lenient policy a successful response never fails.
pub proof fn lemma_lenient_success_never_fails(status: u16, body: Seq<char>)
    requires
        is_success(status),
    ensures
        reply_of(JsonPolicy::Lenient, status, body) is Ok,
{
}

} // verus!
