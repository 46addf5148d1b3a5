//! The clip service: creating clips and reading them back.

use crate::domain::clip::{reason_text, Field, ValidationError};
use vstd::prelude::*;

pub mod action;
pub mod ask;
pub mod views;

verus! {

/// Why the service turned a request down.
#[derive(Debug)]
pub enum ServiceError {
    /// A field of the request was rejected; the message says why.
    Invalid(Field, String),
    /// No clip has the short code, or the clip has expired.
    NotFound,
    /// The clip is guarded by a password that the request did not supply.
    /// The message is a hint for the user; it never holds the password.
    PermissionError(String),
    /// The service could not carry the request out.
    Internal,
}

impl vstd::std_specs::convert::FromSpecImpl<ValidationError> for ServiceError {
    open spec fn obeys_from_spec() -> bool {
        false
    }

    open spec fn from_spec(error: ValidationError) -> Self {
        arbitrary()
    }
}

impl From<ValidationError> for ServiceError {
    fn from(error: ValidationError) -> (invalid: Self)
        ensures
            invalid matches ServiceError::Invalid(field, message) && field == error.field
                && message@ == reason_text(error.reason),
    {
        ServiceError::Invalid(error.field, error.reason.message())
    }
}

} // verus!
