//! The HTTP statuses the service answers a request with when it does not
//! answer with data.

use vstd::prelude::*;

verus! {

/// A status other than success that a request can be answered with.
#[derive(Clone, Copy, Debug, PartialEq, Eq)]
pub enum Status {
    /// The request's parameters cannot be served (400).
    BadRequest,
    /// The data the request asks for could not be read (404).
    NotFound,
    /// A figure the service always has could not be read (500).
    InternalServerError,
}

/// The numeric HTTP code of a status.
pub open spec fn status_code(s: Status) -> u16 {
    match s {
        Status::BadRequest => 400,
        Status::NotFound => 404,
        Status::InternalServerError => 500,
    }
}

impl Status {
    /// The numeric HTTP code of this status.
    pub fn code(&self) -> (c: u16)
        ensures
            c == status_code(*self),
    {
        match self {
            Status::BadRequest => 400,
            Status::NotFound => 404,
            Status::InternalServerError => 500,
        }
    }
}

/// The three statuses carry the HTTP codes 400, 404 and 500, each a
/// different code.
pub proof fn law_status_codes(a: Status, b: Status)
    ensures
        a == Status::BadRequest ==> status_code(a) == 400,
        a == Status::NotFound ==> status_code(a) == 404,
        a == Status::InternalServerError ==> status_code(a) == 500,
        status_code(a) == status_code(b) ==> a == b,
{
}

/// A query against the store that did not produce rows.
#[derive(Clone, Copy, Debug, PartialEq, Eq)]
pub struct QueryFailure;

} // verus!
