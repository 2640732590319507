//! Request guards.
use vstd::prelude::*;

verus! {

/// The raw value of a request's `Content-Type` header.
pub struct RawContentType<'r>(pub &'r str);

impl<'r> RawContentType<'r> {
    /// The guard for a request whose first `Content-Type` header value is
    /// `header`: that value, or the empty string when the header is absent.
    /// The guard always succeeds.
    pub fn from_request(header: Option<&'r str>) -> (res: RawContentType<'r>)
        ensures
            res.0@ == (match header {
                Some(h) => h@,
                None => ""@,
            }),
    {
        match header {
            Some(h) => RawContentType(h),
            None => {
                proof {
                    reveal_strlit("");
                }
                RawContentType("")
            },
        }
    }
}

} // verus!
