//! What the web front end decides: which page answers a request, and with
//! which status.

use vstd::prelude::*;

pub mod http;

verus! {

/// The response statuses that the pages use.
#[derive(Clone, Copy, Debug, PartialEq, Eq, Structural)]
pub enum Status {
    Success,
    BadRequest,
    Unauthorized,
    NotFound,
    InternalServerError,
}

/// The number that stands for `status` in a response.
pub open spec fn status_code(status: Status) -> u16 {
    match status {
        Status::Success => 200,
        Status::BadRequest => 400,
        Status::Unauthorized => 401,
        Status::NotFound => 404,
        Status::InternalServerError => 500,
    }
}

impl Status {
    /// The number that stands for the status in a response.
    pub fn code(&self) -> (code: u16)
        ensures
            code == status_code(*self),
    {
        match self {
            Status::Success => 200,
            Status::BadRequest => 400,
            Status::Unauthorized => 401,
            Status::NotFound => 404,
            Status::InternalServerError => 500,
        }
    }
}

/// A request that ends without a page of its own.
#[derive(Debug)]
pub enum PageError {
    NotFound(String),
    Internal(String),
}

impl PageError {
    /// The status that the error is answered with.
    pub fn status(&self) -> (status: Status)
        ensures
            status == match self {
                PageError::NotFound(_) => Status::NotFound,
                PageError::Internal(_) => Status::InternalServerError,
            },
    {
        match self {
            PageError::NotFound(_) => Status::NotFound,
            PageError::Internal(_) => Status::InternalServerError,
        }
    }
}

} // verus!
