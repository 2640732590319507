//! Request-handling logic of a small Rocket web application: route handlers,
//! parameter parsing, the in-memory user directory and HTML rendering.
use vstd::prelude::*;

pub mod http;
pub mod text;
pub mod name_grade;
pub mod state;
pub mod hello;
pub mod guards;
pub mod user_routes;
pub mod jpeg;
pub mod post_routes;

verus! {
} // verus!
