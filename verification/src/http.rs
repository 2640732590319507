//! HTTP statuses shared by the handlers.
use vstd::prelude::*;

verus! {

/// HTTP statuses that the handlers answer with.
#[derive(PartialEq, Eq, Structural, Clone, Copy, Debug)]
pub enum Status {
    NotFound,
    Forbidden,
    InternalServerError,
    /// Any other status, by its numeric code.
    Other(u16),
}

impl Status {
    pub open spec fn spec_code(self) -> u16 {
        match self {
            Status::NotFound => 404,
            Status::Forbidden => 403,
            Status::InternalServerError => 500,
            Status::Other(code) => code,
        }
    }

    /// The numeric HTTP status code.
    pub fn code(&self) -> (c: u16)
        ensures
            c == self.spec_code(),
    {
        match self {
            Status::NotFound => 404,
            Status::Forbidden => 403,
            Status::InternalServerError => 500,
            Status::Other(code) => *code,
        }
    }
}

} // verus!
