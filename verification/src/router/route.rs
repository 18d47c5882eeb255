//! A plain route description: a path pattern and an HTTP method.

use vstd::prelude::*;
use crate::response::Response;

verus! {

/// One registered endpoint: a path pattern and the method it answers.
#[derive(Clone)]
pub struct Route {
    pub path: String,
    pub method: Method,
}

/// The HTTP verbs a [`Route`] may declare.
#[derive(Clone, Copy, PartialEq, Eq, Structural, Debug)]
pub enum Method {
    GET,
    POST,
    PUT,
    DELETE,
}

/// A unit of work that answers a request with a complete response.
/// Implementations are supplied by users of the library.
pub trait RouterHandler {
    fn handle(&self) -> Response;
}

} // verus!
