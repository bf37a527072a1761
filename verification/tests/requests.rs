use core_bridge::error::BridgeError;
use core_bridge::method::{parse_method, recognize, Method};
use core_bridge::request::{
    approve_plan, assemble, bearer_token, core_request, fetch_dashboard_data, prepare,
    reject_plan, request_json, Payload, REQUEST_TIMEOUT_SECS,
};
use core_bridge::target::{
    check_scheme, is_http, matches_word, normalize_base, normalize_path, target_url,
};

fn some(text: &str) -> Option<String> {
    Some(text.to_string())
}

#[test]
fn trailing_slash_of_base_is_stripped_before_joining() {
    let req = request_json(Method::Get, "http://x/", "/a", None, None).unwrap();
    assert_eq!(req.url, "http://x/a");
    assert_ne!(req.url, "http://x//a");
}

#[test]
fn every_trailing_slash_of_base_is_stripped() {
    assert_eq!(normalize_base("http://x///").unwrap(), "http://x");
    assert_eq!(target_url("http://x///", "/a").unwrap(), "http://x/a");
}

#[test]
fn base_is_trimmed_before_slashes_are_stripped() {
    assert_eq!(normalize_base("  http://x/ \n").unwrap(), "http://x");
    assert_eq!(normalize_base("http://x/ /").unwrap(), "http://x/ ");
}

#[test]
fn base_without_trailing_slash_is_kept() {
    assert_eq!(normalize_base("https://core.example:8443/api").unwrap(), "https://core.example:8443/api");
}

#[test]
fn path_without_leading_slash_gets_one() {
    assert_eq!(normalize_path("a/b"), "/a/b");
}

#[test]
fn path_with_leading_slash_is_kept() {
    assert_eq!(normalize_path("/a/b"), "/a/b");
    assert_eq!(normalize_path("//a"), "//a");
}

#[test]
fn blank_path_is_root() {
    assert_eq!(normalize_path(""), "/");
    assert_eq!(normalize_path("   "), "/");
    assert_eq!(normalize_path("\t\n"), "/");
}

#[test]
fn path_is_not_trimmed() {
    assert_eq!(normalize_path(" a"), "/ a");
    assert_eq!(normalize_path("a "), "/a ");
}

#[test]
fn target_joins_base_and_path() {
    assert_eq!(target_url("http://x", "a/b").unwrap(), "http://x/a/b");
    assert_eq!(target_url("http://x/", "").unwrap(), "http://x/");
}

#[test]
fn empty_base_is_required() {
    let err = request_json(Method::Get, "", "/a", None, None).unwrap_err();
    assert_eq!(err, BridgeError::BaseUrlRequired);
    assert_eq!(err.message(), "Base URL is required");
}

#[test]
fn whitespace_base_is_required_whatever_else_is_given() {
    let err = request_json(
        Method::Post,
        " \t\n",
        "plans",
        some("token"),
        Some(Payload::Execute(true)),
    )
    .unwrap_err();
    assert_eq!(err, BridgeError::BaseUrlRequired);
    assert_eq!(fetch_dashboard_data("   ", None).unwrap_err(), BridgeError::BaseUrlRequired);
    assert_eq!(approve_plan("", None, "p", false).unwrap_err(), BridgeError::BaseUrlRequired);
    assert_eq!(reject_plan("\u{3000}", None, "p", None).unwrap_err(), BridgeError::BaseUrlRequired);
    assert_eq!(
        core_request("GET", "\u{a0}", None, "/", None).unwrap_err(),
        BridgeError::BaseUrlRequired
    );
}

#[test]
fn base_of_slashes_only_is_required() {
    assert_eq!(normalize_base("///").unwrap_err(), BridgeError::BaseUrlRequired);
    assert_eq!(normalize_base(" / ").unwrap_err(), BridgeError::BaseUrlRequired);
}

#[test]
fn other_scheme_is_refused() {
    let err = request_json(Method::Get, "ftp://host", "/a", None, None).unwrap_err();
    assert_eq!(err, BridgeError::SchemeNotAllowed);
    assert_eq!(err.message(), "Only http/https base URLs are supported");
    assert_eq!(
        request_json(Method::Get, "file:///etc", "passwd", None, None).unwrap_err(),
        BridgeError::SchemeNotAllowed
    );
}

#[test]
fn text_that_is_no_url_is_refused_with_the_parser_words() {
    let err = request_json(Method::Get, "not a url", "/a", None, None).unwrap_err();
    assert_eq!(err, BridgeError::InvalidUrl("relative URL without a base".to_string()));
    assert_eq!(err.message(), "Invalid URL: relative URL without a base");
}

#[test]
fn url_without_host_is_refused() {
    let err = request_json(Method::Get, "http://", "", None, None).unwrap_err();
    assert_eq!(err, BridgeError::InvalidUrl("empty host".to_string()));
}

#[test]
fn http_and_https_are_accepted_in_any_case() {
    assert!(request_json(Method::Get, "http://x", "", None, None).is_ok());
    assert!(request_json(Method::Get, "https://x", "", None, None).is_ok());
    let req = request_json(Method::Get, "HTTPS://x", "a", None, None).unwrap();
    assert_eq!(req.url, "HTTPS://x/a");
}

#[test]
fn scheme_words_are_compared_without_case() {
    assert!(is_http("http"));
    assert!(is_http("https"));
    assert!(is_http("HtTp"));
    assert!(is_http("HTTPS"));
    assert!(!is_http("ftp"));
    assert!(!is_http("httpx"));
    assert!(!is_http("htt"));
    assert!(!is_http(""));
    assert!(matches_word("AbC", "aBc"));
    assert!(!matches_word("abc", "abd"));
    assert!(!matches_word("[", "{"));
    assert!(!matches_word("@", "`"));
}

#[test]
fn check_scheme_judges_each_outcome() {
    assert_eq!(check_scheme(Ok("http".to_string())), Ok(()));
    assert_eq!(check_scheme(Ok("ws".to_string())), Err(BridgeError::SchemeNotAllowed));
    assert_eq!(
        check_scheme(Err("empty host".to_string())),
        Err(BridgeError::InvalidUrl("empty host".to_string()))
    );
}

#[test]
fn token_that_is_not_blank_gives_bearer() {
    let req = request_json(Method::Get, "http://x", "/", some("secret"), None).unwrap();
    assert_eq!(req.bearer, some("secret"));
}

#[test]
fn token_is_trimmed() {
    assert_eq!(bearer_token(some("  abc \n")), some("abc"));
    assert_eq!(bearer_token(some("a b")), some("a b"));
}

#[test]
fn absent_or_blank_token_gives_no_bearer() {
    assert_eq!(bearer_token(None), None);
    assert_eq!(bearer_token(some("")), None);
    assert_eq!(bearer_token(some("   \t")), None);
    let req = request_json(Method::Get, "http://x", "/", some("  "), None).unwrap();
    assert_eq!(req.bearer, None);
    let req = request_json(Method::Get, "http://x", "/", None, None).unwrap();
    assert_eq!(req.bearer, None);
}

#[test]
fn request_has_the_time_limit() {
    assert_eq!(REQUEST_TIMEOUT_SECS, 20);
    let req = request_json(Method::Get, "http://x", "/", None, None).unwrap();
    assert_eq!(req.timeout_secs, 20);
}

#[test]
fn assemble_keeps_what_was_given() {
    let req = assemble(
        Method::Put,
        "http://x/y".to_string(),
        Ok("http".to_string()),
        some(" t "),
        Some(Payload::Reason("r".to_string())),
    )
    .unwrap();
    assert_eq!(req.method, Method::Put);
    assert_eq!(req.url, "http://x/y");
    assert_eq!(req.bearer, some("t"));
    assert_eq!(req.body, Some(Payload::Reason("r".to_string())));
    assert_eq!(req.timeout_secs, 20);
}

#[test]
fn dashboard_call_is_a_get_with_limit() {
    let req = fetch_dashboard_data("http://core/", some("tok")).unwrap();
    assert_eq!(req.method, Method::Get);
    assert_eq!(req.url, "http://core/dashboard/data?plans_limit=100");
    assert_eq!(req.bearer, some("tok"));
    assert_eq!(req.body, None);
}

#[test]
fn approve_plan_posts_execute_flag() {
    let req = approve_plan("http://core", some("tok"), "plan-1", true).unwrap();
    assert_eq!(req.method, Method::Post);
    assert_eq!(req.url, "http://core/plans/plan-1/approve");
    assert_eq!(req.body, Some(Payload::Execute(true)));
    let req = approve_plan("http://core", None, "plan-2", false).unwrap();
    assert_eq!(req.url, "http://core/plans/plan-2/approve");
    assert_eq!(req.body, Some(Payload::Execute(false)));
}

#[test]
fn reject_plan_without_reason_sends_the_standing_one() {
    let req = reject_plan("http://core", some("tok"), "plan-1", None).unwrap();
    assert_eq!(req.method, Method::Post);
    assert_eq!(req.url, "http://core/plans/plan-1/reject");
    assert_eq!(req.body, Some(Payload::Reason("Operator rejected".to_string())));
}

#[test]
fn reject_plan_with_reason_sends_it() {
    let req = reject_plan("http://core/", None, "p", some("too risky")).unwrap();
    assert_eq!(req.url, "http://core/plans/p/reject");
    assert_eq!(req.body, Some(Payload::Reason("too risky".to_string())));
    let req = reject_plan("http://core/", None, "p", some("")).unwrap();
    assert_eq!(req.body, Some(Payload::Reason(String::new())));
}

#[test]
fn unknown_method_is_refused() {
    let err = core_request("FETCH", "http://core", None, "/x", None).unwrap_err();
    assert_eq!(err, BridgeError::UnsupportedMethod("invalid HTTP method".to_string()));
    assert_eq!(err.message(), "Unsupported HTTP method: invalid HTTP method");
}

#[test]
fn blank_base_is_required_whatever_the_method_text_is() {
    for method in ["", "NOT A VERB", "FETCH", "GET"] {
        for base in ["", "   ", "\t\n", "///"] {
            let err = core_request(method, base, some("tok"), "/x", None).unwrap_err();
            assert_eq!(err, BridgeError::BaseUrlRequired);
            assert_eq!(err.message(), "Base URL is required");
        }
    }
}

#[test]
fn target_is_judged_before_the_method_text() {
    let err = core_request("FETCH", "ftp://host", None, "/x", None).unwrap_err();
    assert_eq!(err, BridgeError::SchemeNotAllowed);
    let err = core_request("FETCH", "not a url", None, "/x", None).unwrap_err();
    assert_eq!(err, BridgeError::InvalidUrl("relative URL without a base".to_string()));
}

#[test]
fn empty_method_text_is_refused() {
    let err = core_request("", "http://core", None, "/x", None).unwrap_err();
    assert_eq!(err, BridgeError::UnsupportedMethod("invalid HTTP method".to_string()));
    let err = core_request("NOT A VERB", "https://core/", None, "x", None).unwrap_err();
    assert_eq!(err, BridgeError::UnsupportedMethod("invalid HTTP method".to_string()));
}

#[test]
fn method_text_is_trimmed_and_put_in_upper_case() {
    assert_eq!(parse_method(" get "), Ok(Method::Get));
    assert_eq!(parse_method("Post"), Ok(Method::Post));
    assert_eq!(parse_method("\tdelete\n"), Ok(Method::Delete));
    assert_eq!(parse_method("po\u{17f}t"), Ok(Method::Post));
    let req = core_request("patch", "http://core", None, "x", None).unwrap();
    assert_eq!(req.method, Method::Patch);
    assert_eq!(req.url, "http://core/x");
    assert_eq!(req.body, None);
}

#[test]
fn every_verb_is_recognized_by_its_name() {
    let verbs = [
        Method::Get,
        Method::Post,
        Method::Put,
        Method::Delete,
        Method::Head,
        Method::Options,
        Method::Connect,
        Method::Patch,
        Method::Trace,
    ];
    for verb in verbs {
        assert_eq!(recognize(verb.name()), Some(verb));
        assert_eq!(parse_method(&verb.name().to_lowercase()), Ok(verb));
    }
    assert_eq!(Method::Options.name(), "OPTIONS");
    assert_eq!(recognize("get"), None);
    assert_eq!(recognize("GET "), None);
}

#[test]
fn generic_call_passes_the_payload_on() {
    let mut members = serde_json::Map::new();
    members.insert("a".to_string(), serde_json::Value::from(1));
    let value = serde_json::Value::Object(members);
    let req = core_request("PUT", "http://core", some("t"), "things/1", Some(value.clone())).unwrap();
    assert_eq!(req.method, Method::Put);
    assert_eq!(req.url, "http://core/things/1");
    assert_eq!(req.bearer, some("t"));
    assert_eq!(req.body, Some(Payload::Json(value)));
}

fn object(key: &str, member: serde_json::Value) -> serde_json::Value {
    let mut members = serde_json::Map::new();
    members.insert(key.to_string(), member);
    serde_json::Value::Object(members)
}

#[test]
fn approve_plan_body_is_an_object_with_the_flag() {
    let req = approve_plan("http://core", None, "plan-1", true).unwrap();
    let value = req.body.unwrap().into_value();
    assert_eq!(value, object("execute", serde_json::Value::Bool(true)));
    assert_eq!(serde_json::to_string(&value).unwrap(), "{\"execute\":true}");
    let value = Payload::Execute(false).into_value();
    assert_eq!(serde_json::to_string(&value).unwrap(), "{\"execute\":false}");
}

#[test]
fn reject_plan_body_is_an_object_with_the_reason() {
    let req = reject_plan("http://core", None, "plan-1", None).unwrap();
    let value = req.body.unwrap().into_value();
    assert_eq!(value, object("reason", serde_json::Value::String("Operator rejected".to_string())));
    assert_eq!(serde_json::to_string(&value).unwrap(), "{\"reason\":\"Operator rejected\"}");
}

#[test]
fn given_payload_is_handed_on_as_it_is() {
    let value = object("n", serde_json::Value::from(3));
    assert_eq!(Payload::Json(value.clone()).into_value(), value);
}

#[test]
fn prepare_holds_what_was_given() {
    let req = prepare(Method::Delete, "https://x/y".to_string(), some(" t\n"), None);
    assert_eq!(req.method, Method::Delete);
    assert_eq!(req.url, "https://x/y");
    assert_eq!(req.bearer, some("t"));
    assert_eq!(req.body, None);
    assert_eq!(req.timeout_secs, 20);
}
