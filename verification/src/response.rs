//! Handlers and the uniform response/error contract.
//!
//! A [`Handler`] is a shareable, repeatedly-invocable unit of work that
//! produces a [`Response`] or a [`HandlerError`] each time it is invoked.
//! The canned behaviours mirror the factory helpers: plain text, a JSON
//! document, a health report carrying the current timestamp, and an
//! always-failing handler.

use vstd::prelude::*;
use vstd::string::StringExecFns;
use crate::json::{
    esc_seq, jmodel_items, jmodel_members, json_text, lemma_jmodel_items_props,
    lemma_jmodel_members_props, JsonModel, JsonValue,
};

verus! {

/// A successful HTTP outcome: a status code and a textual body.
#[derive(Debug)]
pub struct Response {
    pub status: u16,
    pub body: String,
}

/// A failed handler outcome; the engine renders it as an internal server
/// error carrying the message.
#[derive(Debug)]
pub struct HandlerError {
    pub message: String,
}

/// What a registered handler does when invoked. Handlers are plain
/// values: storing one in several routes or invoking it repeatedly never
/// consumes it.
#[derive(Clone)]
pub enum Handler {
    /// Always succeeds with status 200 and the stored text as body.
    Text(String),
    /// Always succeeds with status 200 and the stored document as body.
    Json(JsonValue),
    /// Always succeeds with status 200 and a health report as body.
    Health,
    /// Always fails, carrying the stored message.
    Fail(String),
}

/// Whether invoking `h` succeeds.
pub open spec fn handler_succeeds(h: Handler) -> bool {
    !(h is Fail)
}

/// The status of the engine-visible response to an invocation of `h`:
/// 200 on success, 500 when the handler fails.
pub open spec fn handler_status(h: Handler) -> int {
    if h is Fail {
        500
    } else {
        200
    }
}

/// The body of the health report as of timestamp `ts`.
pub open spec fn health_body(ts: Seq<char>) -> Seq<char> {
    "{\"status\":\"healthy\",\"timestamp\":\""@ + esc_seq(ts) + "\"}"@
}

/// The engine-visible body of an invocation of `h` as of timestamp `ts`:
/// the successful body, or the failure message.
pub open spec fn handler_body(h: Handler, ts: Seq<char>) -> Seq<char> {
    match h {
        Handler::Text(s) => s@,
        Handler::Json(v) => json_text(v@),
        Handler::Health => health_body(ts),
        Handler::Fail(m) => m@,
    }
}

/// Relies on chrono's `Utc::now().to_rfc3339()`: the current wall-clock
/// time rendered as an RFC 3339 timestamp. The result depends on the
/// clock, so nothing is assumed of it.
#[verifier::external_body]
pub(crate) fn now_rfc3339() -> String {
    chrono::Utc::now().to_rfc3339()
}

/// Render the health report body for the given timestamp.
fn render_health_body(ts: &str) -> (r: String)
    ensures
        r@ == health_body(ts@),
{
    let mut out = String::from_str("{\"status\":\"healthy\",\"timestamp\":\"");
    crate::json::write_escaped(&mut out, ts);
    out.append("\"}");
    proof {
        assert(out@ =~= health_body(ts@));
    }
    out
}

/// Invoke a handler as of a fixed timestamp: the outcome is a function of
/// the handler and the timestamp alone.
pub fn invoke_handler_at(h: &Handler, timestamp: &str) -> (r: Result<Response, HandlerError>)
    ensures
        r is Ok <==> handler_succeeds(*h),
        r matches Ok(resp) ==> resp.status == 200 && resp.body@ == handler_body(*h, timestamp@),
        r matches Err(e) ==> *h matches Handler::Fail(m) && e.message@ == m@,
{
    match h {
        Handler::Text(s) => Ok(Response { status: 200, body: s.clone() }),
        Handler::Json(v) => Ok(Response { status: 200, body: v.to_json_string() }),
        Handler::Health => Ok(Response { status: 200, body: render_health_body(timestamp) }),
        Handler::Fail(m) => Err(HandlerError { message: m.clone() }),
    }
}

/// Invoke a handler with the current clock. Success, status, and — for
/// every handler but the health report — the body depend on the handler
/// alone; the health body is the report for some timestamp.
pub fn invoke_handler(h: &Handler) -> (r: Result<Response, HandlerError>)
    ensures
        r is Ok <==> handler_succeeds(*h),
        r matches Ok(resp) ==> resp.status == 200 && exists|ts: Seq<char>|
            resp.body@ == handler_body(*h, ts),
        r matches Err(e) ==> *h matches Handler::Fail(m) && e.message@ == m@,
{
    let now = now_rfc3339();
    let r = invoke_handler_at(h, now.as_str());
    proof {
        if r is Ok {
            assert(r->Ok_0.body@ == handler_body(*h, now@));
        }
    }
    r
}

/// A handler that always succeeds with a 200 text response.
pub fn text_response(content: &str) -> (h: Handler)
    ensures
        h matches Handler::Text(s) && s@ == content@,
{
    Handler::Text(content.to_owned())
}

/// A handler that always succeeds with a 200 JSON response carrying
/// `data`.
pub fn json_response(data: JsonValue) -> (h: Handler)
    ensures
        h == Handler::Json(data),
{
    Handler::Json(data)
}

/// A handler that always succeeds with a 200 JSON health report: a fixed
/// `status` field and the current wall-clock timestamp.
pub fn health_check() -> (h: Handler)
    ensures
        h is Health,
{
    Handler::Health
}

/// A handler that always fails, carrying `message`.
pub fn error_response(message: &str) -> (h: Handler)
    ensures
        h matches Handler::Fail(m) && m@ == message@,
{
    Handler::Fail(message.to_owned())
}

/// Example handler: a plain-text home page.
pub fn home_handler() -> (h: Handler)
    ensures
        h matches Handler::Text(s) && s@ == "Welcome to IronnServer! 🚀"@,
{
    Handler::Text(String::from_str("Welcome to IronnServer! 🚀"))
}

/// The document served by [`status_handler`].
pub open spec fn status_doc() -> JsonModel {
    JsonModel::Obj(
        seq![
            ("status"@, JsonModel::Str("running"@)),
            ("version"@, JsonModel::Str("1.0.0"@)),
        ],
    )
}

/// Example handler: a JSON service-status document.
pub fn status_handler() -> (h: Handler)
    ensures
        h matches Handler::Json(v) && v@ == status_doc(),
{
    let mut pairs: Vec<(String, JsonValue)> = Vec::new();
    pairs.push((String::from_str("status"), JsonValue::Str(String::from_str("running"))));
    pairs.push((String::from_str("version"), JsonValue::Str(String::from_str("1.0.0"))));
    let v = JsonValue::Obj(pairs);
    proof {
        lemma_jmodel_members_props(pairs, 2);
        assert(jmodel_members(pairs, 2)[0] == ("status"@, JsonModel::Str("running"@)));
        assert(jmodel_members(pairs, 2)[1] == ("version"@, JsonModel::Str("1.0.0"@)));
        assert(jmodel_members(pairs, 2) =~= status_doc()->Obj_0);
        assert(v@ =~~= status_doc());
    }
    Handler::Json(v)
}

/// The document served by [`users_handler`].
pub open spec fn users_doc() -> JsonModel {
    JsonModel::Arr(
        seq![
            JsonModel::Obj(
                seq![("id"@, JsonModel::Int(1)), ("name"@, JsonModel::Str("Alice"@))],
            ),
            JsonModel::Obj(seq![("id"@, JsonModel::Int(2)), ("name"@, JsonModel::Str("Bob"@))]),
        ],
    )
}

/// Example handler: a JSON list of users.
pub fn users_handler() -> (h: Handler)
    ensures
        h matches Handler::Json(v) && v@ == users_doc(),
{
    let mut alice: Vec<(String, JsonValue)> = Vec::new();
    alice.push((String::from_str("id"), JsonValue::Int(1)));
    alice.push((String::from_str("name"), JsonValue::Str(String::from_str("Alice"))));
    let first = JsonValue::Obj(alice);
    proof {
        lemma_jmodel_members_props(alice, 2);
        assert(jmodel_members(alice, 2)[0] == ("id"@, JsonModel::Int(1)));
        assert(jmodel_members(alice, 2)[1] == ("name"@, JsonModel::Str("Alice"@)));
        assert(jmodel_members(alice, 2) =~= users_doc()->Arr_0[0]->Obj_0);
        assert(first@ =~~= users_doc()->Arr_0[0]);
    }
    let mut bob: Vec<(String, JsonValue)> = Vec::new();
    bob.push((String::from_str("id"), JsonValue::Int(2)));
    bob.push((String::from_str("name"), JsonValue::Str(String::from_str("Bob"))));
    let second = JsonValue::Obj(bob);
    proof {
        lemma_jmodel_members_props(bob, 2);
        assert(jmodel_members(bob, 2)[0] == ("id"@, JsonModel::Int(2)));
        assert(jmodel_members(bob, 2)[1] == ("name"@, JsonModel::Str("Bob"@)));
        assert(jmodel_members(bob, 2) =~= users_doc()->Arr_0[1]->Obj_0);
        assert(second@ =~~= users_doc()->Arr_0[1]);
    }
    let mut items: Vec<JsonValue> = Vec::new();
    items.push(first);
    items.push(second);
    let v = JsonValue::Arr(items);
    proof {
        lemma_jmodel_items_props(items, 2);
        assert(jmodel_items(items, 2)[0] == users_doc()->Arr_0[0]);
        assert(jmodel_items(items, 2)[1] == users_doc()->Arr_0[1]);
        assert(jmodel_items(items, 2) =~= users_doc()->Arr_0);
        assert(v@ =~~= users_doc());
    }
    Handler::Json(v)
}

} // verus!
