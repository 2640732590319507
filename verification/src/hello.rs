//! The minimal greeting application: one route, `GET /`.
use vstd::prelude::*;
use crate::text::owned;

verus! {

/// Handler of `GET /`.
pub fn index() -> (res: &'static str)
    ensures
        res@ == "Hello, rocket"@,
{
    "Hello, rocket"
}

/// What the greeting application is launched with: its routes, mounted on `base`.
pub struct Launch {
    pub base: String,
    pub routes: Vec<String>,
}

/// The launch configuration: the `index` route mounted on `/`.
pub fn rocket() -> (l: Launch)
    ensures
        l.base@ == "/"@,
        l.routes@.map_values(|r: String| r@) == seq!["index"@],
{
    let mut routes: Vec<String> = Vec::new();
    routes.push(owned("index"));
    assert(routes@.map_values(|r: String| r@) =~= seq!["index"@]);
    Launch { base: owned("/"), routes }
}

} // verus!
