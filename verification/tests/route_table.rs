use ironn::response::text_response;
use ironn::server::{HttpMethod, IronnServer};

#[test]
fn route_count_tracks_registrations() {
    let s = IronnServer::new();
    assert_eq!(s.route_count(), 0);
    let s = s.public_route("/a", HttpMethod::Get, text_response("a"));
    assert_eq!(s.route_count(), 1);
    let s = s.public_route("/b", HttpMethod::Post, text_response("b"));
    assert_eq!(s.route_count(), 2);
    let s = s.public_route("/c", HttpMethod::Delete, text_response("c"));
    assert_eq!(s.route_count(), 3);
}

#[test]
fn duplicate_registrations_are_accepted() {
    let s = IronnServer::new()
        .public_route("/x", HttpMethod::Get, text_response("first"))
        .public_route("/x", HttpMethod::Get, text_response("second"));
    assert_eq!(s.route_count(), 2);
}

#[test]
fn create_app_keeps_routes_in_order() {
    let s = IronnServer::new()
        .public_route("/a", HttpMethod::Get, text_response("a"))
        .public_route("/b", HttpMethod::Put, text_response("b"));
    let app = s.create_app();
    assert_eq!(app.routes.len(), 2);
    assert_eq!(app.routes[0].path, "/a");
    assert_eq!(app.routes[1].path, "/b");
}
