//! A small convenience layer for registering HTTP routes and dispatching
//! them to handler functions atop an external HTTP engine.
//!
//! The verified core is the route table and the request-dispatch model:
//! how routes are registered, stored, matched against a method and path,
//! and resolved to a handler invocation with a uniform response/error
//! contract. Socket binding and wire-level HTTP stay with the engine.

pub mod json;
pub mod response;
pub mod router;
pub mod server;
