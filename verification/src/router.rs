//! Route descriptions shared with users of the library.

pub mod route;
