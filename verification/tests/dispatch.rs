use ironn::json::JsonValue;
use ironn::response::{error_response, health_check, json_response, text_response};
use ironn::server::{assert_status, get_body_json, get_body_string, get_request, HttpMethod, IronnServer};

const TS: &str = "2020-01-01T00:00:00+00:00";

#[test]
fn registered_get_route_answers_a_get_request() {
    let app = IronnServer::new()
        .public_route("/x", HttpMethod::Get, text_response("hello"))
        .create_app();
    let r = get_request(&app, "/x");
    assert_eq!(r.status, 200);
    assert_eq!(r.body, "hello");
}

#[test]
fn wrong_method_is_refused_without_invoking_the_handler() {
    let app = IronnServer::new()
        .public_route("/x", HttpMethod::Get, text_response("hello"))
        .create_app();
    let r = app.handle_request(HttpMethod::Post, "/x");
    assert_eq!(r.status, 405);
    assert_eq!(r.body, "");
}

#[test]
fn unknown_path_is_not_found() {
    let app = IronnServer::new()
        .public_route("/x", HttpMethod::Get, text_response("hello"))
        .create_app();
    let r = get_request(&app, "/y");
    assert_eq!(r.status, 404);
    assert_eq!(r.body, "");
}

#[test]
fn last_duplicate_registration_wins() {
    let app = IronnServer::new()
        .public_route("/x", HttpMethod::Get, text_response("first"))
        .public_route("/x", HttpMethod::Get, text_response("second"))
        .create_app();
    let r = get_request(&app, "/x");
    assert_eq!(r.status, 200);
    assert_eq!(r.body, "second");
}

#[test]
fn methods_dispatch_independently() {
    let app = IronnServer::new()
        .public_route("/x", HttpMethod::Get, text_response("got"))
        .public_route("/x", HttpMethod::Post, text_response("posted"))
        .public_route("/x", HttpMethod::Put, text_response("put"))
        .public_route("/x", HttpMethod::Delete, text_response("deleted"))
        .create_app();
    assert_eq!(app.handle_request(HttpMethod::Get, "/x").body, "got");
    assert_eq!(app.handle_request(HttpMethod::Post, "/x").body, "posted");
    assert_eq!(app.handle_request(HttpMethod::Put, "/x").body, "put");
    assert_eq!(app.handle_request(HttpMethod::Delete, "/x").body, "deleted");
}

#[test]
fn failing_handler_surfaces_as_a_server_error() {
    let app = IronnServer::new()
        .public_route("/err", HttpMethod::Get, error_response("boom"))
        .create_app();
    let r = get_request(&app, "/err");
    assert!(r.status >= 500 && r.status < 600);
    assert!(r.body.contains("boom"));
}

#[test]
fn harness_helpers_see_the_dispatched_response() {
    let doc = JsonValue::Obj(vec![("a".to_string(), JsonValue::Int(1))]);
    let app = IronnServer::new()
        .public_route("/t", HttpMethod::Get, text_response("plain"))
        .public_route("/j", HttpMethod::Get, json_response(doc))
        .create_app();
    assert_status(&app, "/t", 200);
    assert_status(&app, "/missing", 404);
    assert_eq!(get_body_string(&app, "/t"), "plain");
    let j = get_body_json(&app, "/j");
    assert_eq!(j.to_json_string(), "{\"a\":1}");
}

#[test]
fn health_route_body_is_the_report_for_the_timestamp() {
    let app = IronnServer::new()
        .public_route("/health", HttpMethod::Get, health_check())
        .create_app();
    let r = app.handle_request_at(HttpMethod::Get, "/health", TS);
    assert_eq!(r.status, 200);
    assert_eq!(
        r.body,
        "{\"status\":\"healthy\",\"timestamp\":\"2020-01-01T00:00:00+00:00\"}"
    );
    let j = get_body_json(&app, "/health");
    let parsed: serde_json::Value = serde_json::from_str(&j.to_json_string()).expect("valid JSON");
    assert_eq!(parsed["status"], serde_json::Value::String("healthy".to_string()));
    assert!(parsed["timestamp"].is_string());
}
