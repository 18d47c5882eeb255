//! The route table, its fluent builder, and request dispatch.
//!
//! [`IronnServer`] collects routes in registration order; a terminal
//! operation consumes it. [`TestApp`] is the in-memory service over a
//! finished table: it matches a synthetic request's method and path
//! against the table and invokes the matched handler. When several
//! registrations share a method and path, the last one wins; a known
//! path with the wrong method is refused with 405, an unknown path
//! with 404, and neither invokes any handler.

use vstd::prelude::*;
use crate::json::{JsonModel, JsonValue};
use vstd::string::StringExecFns;
use crate::response::{
    handler_body, handler_status, invoke_handler_at, now_rfc3339, Handler, Response,
};

verus! {

/// The HTTP verbs a route registration may declare.
#[derive(Clone, Copy, PartialEq, Eq, Structural, Debug)]
pub enum HttpMethod {
    Get,
    Post,
    Put,
    Delete,
}

/// One registered route: a path, a verb, and the handler invoked when a
/// request matches both.
#[derive(Clone)]
pub struct PubRoute {
    pub path: String,
    pub method: HttpMethod,
    pub handler: Handler,
}

/// The route-table builder: routes are appended in registration order
/// and the finished table is consumed exactly once by a terminal
/// operation.
pub struct IronnServer {
    routes: Vec<PubRoute>,
}

impl View for IronnServer {
    type V = Seq<PubRoute>;

    closed spec fn view(&self) -> Seq<PubRoute> {
        self.routes@
    }
}

impl IronnServer {
    /// Create a server with an empty route table.
    pub fn new() -> (s: Self)
        ensures
            s@ == Seq::<PubRoute>::empty(),
    {
        IronnServer { routes: Vec::new() }
    }

    /// Append one route. Acceptance is unconditional: neither path
    /// syntax nor duplicates are checked, and every earlier route stays
    /// in place.
    pub fn public_route(self, path: &str, method: HttpMethod, handler: Handler) -> (s: Self)
        ensures
            s@.len() == self@.len() + 1,
            forall|i: int| 0 <= i < self@.len() ==> s@[i] == self@[i],
            s@.last().path@ == path@,
            s@.last().method == method,
            s@.last().handler == handler,
    {
        let mut routes = self.routes;
        routes.push(PubRoute { path: path.to_owned(), method, handler });
        IronnServer { routes }
    }

    /// The number of registered routes.
    pub fn route_count(&self) -> (n: usize)
        ensures
            n == self@.len(),
    {
        self.routes.len()
    }

    /// Consume the table into an in-memory service for synthetic
    /// requests; no socket is opened.
    pub fn create_app(self) -> (app: TestApp)
        ensures
            app@ == self@,
    {
        TestApp { routes: self.routes }
    }
}

/// An in-memory, non-network-bound service over a finished route table,
/// exposing the table's routing behaviour to synthetic requests.
pub struct TestApp {
    pub routes: Vec<PubRoute>,
}

impl View for TestApp {
    type V = Seq<PubRoute>;

    open spec fn view(&self) -> Seq<PubRoute> {
        self.routes@
    }
}

/// Whether `r` answers a request for `method` at `path`.
pub open spec fn route_matches(r: PubRoute, method: HttpMethod, path: Seq<char>) -> bool {
    r.method == method && r.path@ == path
}

/// The index of the route that answers (`method`, `path`): the last
/// matching registration wins; -1 when none matches.
pub open spec fn match_index(routes: Seq<PubRoute>, method: HttpMethod, path: Seq<char>) -> int
    decreases routes.len(),
{
    if routes.len() == 0 {
        -1
    } else if route_matches(routes.last(), method, path) {
        routes.len() - 1
    } else {
        match_index(routes.drop_last(), method, path)
    }
}

/// Whether some registration, of any method, uses `path`.
pub open spec fn path_known(routes: Seq<PubRoute>, path: Seq<char>) -> bool {
    exists|i: int| 0 <= i < routes.len() && routes[i].path@ == path
}

/// The status of the answer to (`method`, `path`): the matched handler's
/// status, 405 for a known path with the wrong method, else 404.
pub open spec fn dispatch_status(routes: Seq<PubRoute>, method: HttpMethod, path: Seq<char>) -> int {
    let i = match_index(routes, method, path);
    if i >= 0 {
        handler_status(routes[i].handler)
    } else if path_known(routes, path) {
        405
    } else {
        404
    }
}

/// The body of the answer to (`method`, `path`) as of timestamp `ts`:
/// the matched handler's engine-visible body, and empty when no route
/// matches.
pub open spec fn dispatch_body(
    routes: Seq<PubRoute>,
    method: HttpMethod,
    path: Seq<char>,
    ts: Seq<char>,
) -> Seq<char> {
    let i = match_index(routes, method, path);
    if i >= 0 {
        handler_body(routes[i].handler, ts)
    } else {
        Seq::empty()
    }
}

/// What [`match_index`] finds: a match in bounds, matching the request,
/// after every later registration failed to match; or -1 exactly when
/// nothing matches.
pub proof fn lemma_match_index_props(routes: Seq<PubRoute>, method: HttpMethod, path: Seq<char>)
    ensures
        -1 <= match_index(routes, method, path) < routes.len(),
        match_index(routes, method, path) >= 0 ==> route_matches(
            routes[match_index(routes, method, path)],
            method,
            path,
        ),
        match_index(routes, method, path) == -1 <==> (forall|i: int|
            0 <= i < routes.len() ==> !route_matches(routes[i], method, path)),
        forall|j: int|
            match_index(routes, method, path) < j < routes.len() ==> !route_matches(
                routes[j],
                method,
                path,
            ),
    decreases routes.len(),
{
    if routes.len() > 0 && !route_matches(routes.last(), method, path) {
        lemma_match_index_props(routes.drop_last(), method, path);
        assert forall|i: int| 0 <= i < routes.len() - 1 implies routes.drop_last()[i]
            == routes[i] by {}
    }
}

/// Find the answering route in a table, scanning from the latest
/// registration backwards.
#[verifier::loop_isolation(false)]
fn find_match(routes: &Vec<PubRoute>, method: HttpMethod, path: &String) -> (idx: Option<usize>)
    ensures
        match idx {
            Some(i) => i == match_index(routes@, method, path@),
            None => match_index(routes@, method, path@) == -1,
        },
{
    let mut k: usize = routes.len();
    proof {
        assert(routes@.take(routes@.len() as int) =~= routes@);
    }
    while k > 0
        invariant
            k <= routes@.len(),
            match_index(routes@, method, path@) == match_index(
                routes@.take(k as int),
                method,
                path@,
            ),
        decreases k,
    {
        k = k - 1;
        let r = &routes[k];
        proof {
            assert(routes@.take(k as int + 1).last() == routes@[k as int]);
            assert(routes@.take(k as int + 1).drop_last() =~= routes@.take(k as int));
        }
        if r.method == method && r.path == *path {
            return Some(k);
        }
    }
    None
}

/// Whether some registration uses `path`.
#[verifier::loop_isolation(false)]
fn path_present(routes: &Vec<PubRoute>, path: &String) -> (b: bool)
    ensures
        b == path_known(routes@, path@),
{
    let mut k: usize = 0;
    while k < routes.len()
        invariant
            k <= routes@.len(),
            forall|j: int| 0 <= j < k ==> routes@[j].path@ != path@,
        decreases routes@.len() - k,
    {
        if routes[k].path == *path {
            return true;
        }
        k = k + 1;
    }
    false
}

impl TestApp {
    /// Answer a synthetic request as of a fixed timestamp: the matched
    /// handler's outcome, rendered as the engine would — a failing
    /// handler becomes a 500 response carrying its message — or an
    /// empty-bodied 405/404 refusal that invokes no handler.
    pub fn handle_request_at(&self, method: HttpMethod, path: &str, timestamp: &str) -> (r:
        Response)
        ensures
            r.status == dispatch_status(self@, method, path@),
            r.body@ == dispatch_body(self@, method, path@, timestamp@),
    {
        let q: String = path.to_owned();
        match find_match(&self.routes, method, &q) {
            Some(i) => {
                proof {
                    lemma_match_index_props(self@, method, path@);
                }
                let rt = &self.routes[i];
                match invoke_handler_at(&rt.handler, timestamp) {
                    Ok(resp) => resp,
                    Err(e) => Response { status: 500, body: e.message },
                }
            },
            None => {
                if path_present(&self.routes, &q) {
                    Response { status: 405, body: String::new() }
                } else {
                    Response { status: 404, body: String::new() }
                }
            },
        }
    }

    /// Answer a synthetic request with the current clock: status is a
    /// function of the table and the request alone; the body is the
    /// dispatch body for some timestamp.
    pub fn handle_request(&self, method: HttpMethod, path: &str) -> (r: Response)
        ensures
            r.status == dispatch_status(self@, method, path@),
            exists|ts: Seq<char>| r.body@ == dispatch_body(self@, method, path@, ts),
    {
        let now = now_rfc3339();
        let r = self.handle_request_at(method, path, now.as_str());
        proof {
            assert(r.body@ == dispatch_body(self@, method, path@, now@));
        }
        r
    }
}

/// Submit a synthetic GET request to the in-memory service.
pub fn get_request(app: &TestApp, path: &str) -> (r: Response)
    ensures
        r.status == dispatch_status(app@, HttpMethod::Get, path@),
        exists|ts: Seq<char>| r.body@ == dispatch_body(app@, HttpMethod::Get, path@, ts),
{
    app.handle_request(HttpMethod::Get, path)
}

/// Check a synthetic GET request's status; callers prove it matches, so
/// the check never fails.
pub fn assert_status(app: &TestApp, path: &str, expected_status: u16)
    requires
        dispatch_status(app@, HttpMethod::Get, path@) == expected_status,
{
    let r = get_request(app, path);
    assert(r.status == expected_status);
}

/// The body answered to a synthetic GET request.
pub fn get_body_string(app: &TestApp, path: &str) -> (s: String)
    ensures
        exists|ts: Seq<char>| s@ == dispatch_body(app@, HttpMethod::Get, path@, ts),
{
    let r = get_request(app, path);
    r.body
}

/// The JSON document behind a synthetic GET request: the matched
/// handler's stored document, or the health report — whose `status`
/// member is fixed and whose `timestamp` member is some string.
pub fn get_body_json(app: &TestApp, path: &str) -> (r: JsonValue)
    requires
        match_index(app@, HttpMethod::Get, path@) >= 0,
        app@[match_index(app@, HttpMethod::Get, path@)].handler is Json || app@[match_index(
            app@,
            HttpMethod::Get,
            path@,
        )].handler is Health,
    ensures
        app@[match_index(app@, HttpMethod::Get, path@)].handler matches Handler::Json(v) ==> r@
            == v@,
        app@[match_index(app@, HttpMethod::Get, path@)].handler is Health ==> (r@
            matches JsonModel::Obj(ps) && ps.len() == 2 && ps[0] == ("status"@, JsonModel::Str(
            "healthy"@,
        )) && ps[1].0 == "timestamp"@ && ps[1].1 is Str),
{
    let q: String = path.to_owned();
    match find_match(&app.routes, HttpMethod::Get, &q) {
        Some(i) => {
            proof {
                lemma_match_index_props(app@, HttpMethod::Get, path@);
            }
            match &app.routes[i].handler {
                Handler::Json(v) => v.clone(),
                Handler::Health => {
                    let now = now_rfc3339();
                    let mut pairs: Vec<(String, JsonValue)> = Vec::new();
                    pairs.push(
                        (
                            String::from_str("status"),
                            JsonValue::Str(String::from_str("healthy")),
                        ),
                    );
                    pairs.push(
                        (String::from_str("timestamp"), JsonValue::Str(now)),
                    );
                    let doc = JsonValue::Obj(pairs);
                    proof {
                        crate::json::lemma_jmodel_members_props(pairs, 2);
                        assert(doc@ matches JsonModel::Obj(ps) && ps.len() == 2 && ps[0] == (
                        "status"@,
                        JsonModel::Str("healthy"@),
                        ) && ps[1].0 == "timestamp"@ && ps[1].1 is Str);
                    }
                    doc
                },
                Handler::Text(_) => JsonValue::Null,
                Handler::Fail(_) => JsonValue::Null,
            }
        },
        None => JsonValue::Null,
    }
}

/// Law: appending one route grows the table by exactly one and keeps
/// every earlier route in place — so after any sequence of `public_route`
/// calls the route count equals the number of calls, in order.
pub proof fn lemma_route_count_grows(before: Seq<PubRoute>, r: PubRoute)
    ensures
        before.push(r).len() == before.len() + 1,
        forall|i: int| 0 <= i < before.len() ==> before.push(r)[i] == before[i],
        before.push(r).last() == r,
{
}

/// Law: a freshly registered route answers requests that carry its own
/// method and path; its handler's status and body are returned exactly.
pub proof fn lemma_new_route_is_dispatched(
    routes: Seq<PubRoute>,
    r: PubRoute,
    ts: Seq<char>,
)
    ensures
        dispatch_status(routes.push(r), r.method, r.path@) == handler_status(r.handler),
        dispatch_body(routes.push(r), r.method, r.path@, ts) == handler_body(r.handler, ts),
{
    assert(routes.push(r).last() == r);
    assert(routes.push(r)[routes.len() as int] == r);
}

/// Law: a request whose method and path match no registration is refused
/// — 405 when the path is known under another method, 404 otherwise —
/// with an empty body, so no handler is invoked.
pub proof fn lemma_unmatched_request(
    routes: Seq<PubRoute>,
    method: HttpMethod,
    path: Seq<char>,
    ts: Seq<char>,
)
    requires
        forall|i: int| 0 <= i < routes.len() ==> !route_matches(routes[i], method, path),
    ensures
        dispatch_status(routes, method, path) == if path_known(routes, path) {
            405int
        } else {
            404int
        },
        dispatch_body(routes, method, path, ts) == Seq::<char>::empty(),
{
    lemma_match_index_props(routes, method, path);
}

} // verus!
