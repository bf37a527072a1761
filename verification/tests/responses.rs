use core_bridge::error::BridgeError;
use core_bridge::response::{
    interpret_body, read_response, read_response_with, status_is_success, JsonPolicy, Reply,
};
use core_bridge::text::{blank, decimal, same_text, whitespace};

fn fixture() -> serde_json::Value {
    let mut plan = serde_json::Map::new();
    plan.insert("id".to_string(), serde_json::Value::String("plan-1".to_string()));
    plan.insert("approved".to_string(), serde_json::Value::Bool(false));
    let mut root = serde_json::Map::new();
    root.insert("plans".to_string(), serde_json::Value::Array(vec![serde_json::Value::Object(plan)]));
    root.insert("count".to_string(), serde_json::Value::from(1));
    root.insert("note".to_string(), serde_json::Value::Null);
    serde_json::Value::Object(root)
}

#[test]
fn success_with_empty_body_is_empty_object() {
    assert_eq!(read_response(200, String::new()), Ok(Reply::EmptyObject));
    assert_eq!(read_response(204, "  \r\n".to_string()), Ok(Reply::EmptyObject));
    assert_eq!(
        read_response_with(JsonPolicy::Strict, 299, "\t".to_string()),
        Ok(Reply::EmptyObject)
    );
}

#[test]
fn success_with_json_body_is_the_value_parsed() {
    let value = fixture();
    let text = serde_json::to_string(&value).unwrap();
    assert_eq!(read_response(200, text.clone()), Ok(Reply::Document(value.clone())));
    assert_eq!(
        read_response_with(JsonPolicy::Strict, 201, text),
        Ok(Reply::Document(value))
    );
}

#[test]
fn success_with_scalar_json_body_is_that_value() {
    assert_eq!(
        read_response(200, " true ".to_string()),
        Ok(Reply::Document(serde_json::Value::Bool(true)))
    );
    assert_eq!(
        read_response(200, "[]".to_string()),
        Ok(Reply::Document(serde_json::Value::Array(Vec::new())))
    );
}

#[test]
fn failure_status_carries_status_and_body() {
    let err = read_response(404, "not found".to_string()).unwrap_err();
    assert_eq!(err, BridgeError::CoreApi { status: 404, body: "not found".to_string() });
    let text = err.message();
    assert!(text.contains("404"));
    assert!(text.contains("not found"));
    assert_eq!(text, "Core API 404: not found");
}

#[test]
fn failure_status_keeps_a_json_body_as_text() {
    let err = read_response_with(JsonPolicy::Strict, 500, "{\"error\":1}".to_string()).unwrap_err();
    assert_eq!(err.message(), "Core API 500: {\"error\":1}");
    let err = read_response(199, String::new()).unwrap_err();
    assert_eq!(err.message(), "Core API 199: ");
    let err = read_response(300, "moved".to_string()).unwrap_err();
    assert_eq!(err.message(), "Core API 300: moved");
}

#[test]
fn success_range_is_200_to_299() {
    assert!(!status_is_success(199));
    assert!(status_is_success(200));
    assert!(status_is_success(299));
    assert!(!status_is_success(300));
    assert!(!status_is_success(0));
    assert!(!status_is_success(65535));
}

#[test]
fn lenient_policy_wraps_a_body_that_is_no_json() {
    assert_eq!(
        read_response(200, "not json".to_string()),
        Ok(Reply::Raw("not json".to_string()))
    );
    assert_eq!(
        read_response_with(JsonPolicy::Lenient, 200, "{".to_string()),
        Ok(Reply::Raw("{".to_string()))
    );
}

#[test]
fn strict_policy_fails_on_a_body_that_is_no_json() {
    let err = read_response_with(JsonPolicy::Strict, 200, "not json".to_string()).unwrap_err();
    assert_eq!(err, BridgeError::InvalidJson("expected ident at line 1 column 2".to_string()));
    assert_eq!(err.message(), "Invalid JSON from core: expected ident at line 1 column 2");
}

#[test]
fn interpret_body_follows_the_parse() {
    let value = fixture();
    assert_eq!(
        interpret_body(JsonPolicy::Strict, "x".to_string(), Ok(value.clone())),
        Ok(Reply::Document(value))
    );
    assert_eq!(
        interpret_body(JsonPolicy::Lenient, "x".to_string(), Err("bad".to_string())),
        Ok(Reply::Raw("x".to_string()))
    );
    assert_eq!(
        interpret_body(JsonPolicy::Strict, "x".to_string(), Err("bad".to_string())),
        Err(BridgeError::InvalidJson("bad".to_string()))
    );
}

#[test]
fn transport_failures_have_their_own_words() {
    assert_eq!(
        BridgeError::ClientInit("no tls".to_string()).message(),
        "HTTP client init failed: no tls"
    );
    assert_eq!(
        BridgeError::RequestFailed("timed out".to_string()).message(),
        "Request failed: timed out"
    );
    assert_eq!(
        BridgeError::ReadFailed("reset".to_string()).message(),
        "Read response failed: reset"
    );
}

#[test]
fn decimal_numerals_are_exact() {
    assert_eq!(decimal(0), "0");
    assert_eq!(decimal(7), "7");
    assert_eq!(decimal(10), "10");
    assert_eq!(decimal(404), "404");
    assert_eq!(decimal(1000), "1000");
    assert_eq!(decimal(65535), "65535");
}

#[test]
fn blank_is_empty_or_whitespace_only() {
    assert!(blank(""));
    assert!(blank(" \t\r\n"));
    assert!(blank("\u{85}\u{a0}\u{1680}\u{2000}\u{200a}\u{2028}\u{2029}\u{202f}\u{205f}\u{3000}"));
    assert!(!blank("\u{200b}"));
    assert!(!blank(" a "));
    assert!(!blank("\u{1c}"));
}

#[test]
fn same_text_compares_characters() {
    assert!(same_text("abc", "abc"));
    assert!(!same_text("abc", "abd"));
    assert!(!same_text("abc", "ab"));
    assert!(same_text("", ""));
}

#[test]
fn empty_reply_is_the_object_without_members() {
    let value = read_response(200, String::new()).unwrap().into_value();
    assert_eq!(value, serde_json::Value::Object(serde_json::Map::new()));
    assert_eq!(serde_json::to_string(&value).unwrap(), "{}");
}

#[test]
fn json_reply_round_trips() {
    let value = fixture();
    let text = serde_json::to_string(&value).unwrap();
    assert_eq!(read_response(200, text).unwrap().into_value(), value);
}

#[test]
fn raw_reply_is_an_object_with_the_text() {
    let value = read_response(200, "<html>".to_string()).unwrap().into_value();
    let mut members = serde_json::Map::new();
    members.insert("raw".to_string(), serde_json::Value::String("<html>".to_string()));
    assert_eq!(value, serde_json::Value::Object(members));
}

#[test]
fn whitespace_is_what_trimming_removes() {
    let mut code: u32 = 0;
    while code <= 0x10ffff {
        if let Some(c) = char::from_u32(code) {
            assert_eq!(whitespace(c), c.is_whitespace(), "U+{:04X}", code);
            let text = c.to_string();
            assert_eq!(whitespace(c), blank(&text), "U+{:04X}", code);
        }
        code += 1;
    }
}
