use ironn::json::JsonValue;
use ironn::response::{
    error_response, health_check, home_handler, invoke_handler, invoke_handler_at, json_response,
    status_handler, text_response, users_handler,
};

const TS: &str = "2020-01-01T00:00:00+00:00";

#[test]
fn text_handler_yields_200_and_the_body() {
    let r = invoke_handler_at(&text_response("hello"), TS).expect("text handlers succeed");
    assert_eq!(r.status, 200);
    assert_eq!(r.body, "hello");
    assert_eq!(r.body.as_bytes(), b"hello");
}

#[test]
fn json_handler_round_trips_its_document() {
    let doc = JsonValue::Obj(vec![("a".to_string(), JsonValue::Int(1))]);
    let r = invoke_handler_at(&json_response(doc), TS).expect("json handlers succeed");
    assert_eq!(r.status, 200);
    let parsed: serde_json::Value = serde_json::from_str(&r.body).expect("valid JSON");
    let mut expected = serde_json::Map::new();
    expected.insert("a".to_string(), serde_json::Value::Number(1.into()));
    assert_eq!(parsed, serde_json::Value::Object(expected));
}

#[test]
fn health_handler_reports_fixed_status_and_timestamp() {
    let r = invoke_handler_at(&health_check(), TS).expect("health handlers succeed");
    assert_eq!(r.status, 200);
    assert_eq!(
        r.body,
        "{\"status\":\"healthy\",\"timestamp\":\"2020-01-01T00:00:00+00:00\"}"
    );
}

#[test]
fn health_handler_with_the_clock_has_a_parseable_timestamp() {
    let r = invoke_handler(&health_check()).expect("health handlers succeed");
    assert_eq!(r.status, 200);
    let parsed: serde_json::Value = serde_json::from_str(&r.body).expect("valid JSON");
    assert_eq!(parsed["status"], serde_json::Value::String("healthy".to_string()));
    let ts = parsed["timestamp"].as_str().expect("timestamp is a string");
    assert!(chrono::DateTime::parse_from_rfc3339(ts).is_ok());
}

#[test]
fn error_handler_fails_with_its_message() {
    let e = invoke_handler_at(&error_response("boom"), TS).expect_err("error handlers fail");
    assert!(e.message.contains("boom"));
    assert_eq!(e.message, "boom");
}

#[test]
fn example_handlers_produce_their_documents() {
    let r = invoke_handler_at(&home_handler(), TS).expect("home succeeds");
    assert_eq!(r.status, 200);
    assert_eq!(r.body, "Welcome to IronnServer! 🚀");

    let r = invoke_handler_at(&status_handler(), TS).expect("status succeeds");
    assert_eq!(r.body, "{\"status\":\"running\",\"version\":\"1.0.0\"}");

    let r = invoke_handler_at(&users_handler(), TS).expect("users succeeds");
    assert_eq!(
        r.body,
        "[{\"id\":1,\"name\":\"Alice\"},{\"id\":2,\"name\":\"Bob\"}]"
    );
}
