use ironn::server::{HttpMethod, IronnServer};
use ironn::response::text_response;

#[test]
fn bind_to_address_in_use_fails() {
    let first = actix_web::HttpServer::new(|| actix_web::App::new())
        .bind(("127.0.0.1", 0))
        .expect("an ephemeral port can be bound");
    let addr = first.addrs()[0];
    let second = actix_web::HttpServer::new(|| actix_web::App::new()).bind(addr);
    assert!(second.is_err());
}

#[test]
fn route_table_is_intact_before_any_bind() {
    let s = IronnServer::new().public_route("/x", HttpMethod::Get, text_response("hello"));
    assert_eq!(s.route_count(), 1);
}
