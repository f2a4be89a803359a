//! The outcomes that a request handler reports to the client.

use vstd::prelude::*;

verus! {

/// How a request failed, as the client sees it. The cause behind an
/// outcome is never part of it.
#[derive(Debug, Clone, Copy, PartialEq, Eq, Structural)]
pub enum Status {
    /// The request's fields are not acceptable.
    BadRequest,
    /// The caller is not authenticated.
    Unauthorized,
    /// There is no such resource for this caller.
    NotFound,
    /// The username or the email is already in use.
    Conflict,
    /// The service failed; no detail is given.
    InternalServerError,
}

impl Status {
    /// The HTTP status code of an outcome.
    pub open spec fn spec_code(self) -> u16 {
        match self {
            Status::BadRequest => 400,
            Status::Unauthorized => 401,
            Status::NotFound => 404,
            Status::Conflict => 409,
            Status::InternalServerError => 500,
        }
    }

    /// The HTTP status code of an outcome.
    pub fn code(&self) -> (code: u16)
        ensures
            code == self.spec_code(),
    {
        match self {
            Status::BadRequest => 400,
            Status::Unauthorized => 401,
            Status::NotFound => 404,
            Status::Conflict => 409,
            Status::InternalServerError => 500,
        }
    }
}

} // verus!
