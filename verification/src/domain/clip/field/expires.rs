//! The optional expiration time of a clip.

use crate::domain::clip::{Field, Reason, ValidationError};
use vstd::prelude::*;

verus! {

/// A requested expiration, as submitted: a point in time, or a span counted
/// from the moment of validation. Times are seconds since the Unix epoch,
/// UTC; spans are seconds.
#[derive(Clone, Copy, Debug, PartialEq, Eq, Structural)]
pub enum Expiry {
    At(i64),
    After(u64),
}

/// The point in time that `input` names when it is read at `now`.
pub open spec fn resolved(input: Expiry, now: i64) -> int {
    match input {
        Expiry::At(at) => at as int,
        Expiry::After(span) => now + span,
    }
}

/// What becomes of a requested expiration read at `now`. No request means
/// that the clip never expires. A request must name a time strictly after
/// `now`, and one that a timestamp can hold.
pub open spec fn checked(input: Option<Expiry>, now: i64) -> Result<Option<i64>, Reason> {
    match input {
        None => Ok(None),
        Some(expiry) => {
            let at = resolved(expiry, now);
            if at <= now {
                Err(Reason::NotInFuture)
            } else if at > i64::MAX {
                Err(Reason::OutOfRange)
            } else {
                Ok(Some(at as i64))
            }
        },
    }
}

/// Whether a clip that expires at `expires_at` counts as expired at `now`.
pub open spec fn expired(expires_at: Option<i64>, now: i64) -> bool {
    expires_at matches Some(at) && at <= now
}

/// The expiration time of a clip, if it has one.
#[derive(Clone, Copy, Debug, PartialEq, Eq, Structural)]
pub struct ExpiresAt(Option<i64>);

impl View for ExpiresAt {
    type V = Option<i64>;

    closed spec fn view(&self) -> Option<i64> {
        self.0
    }
}

impl ExpiresAt {
    /// Wraps a stored expiration time as it stands, past or future.
    pub fn new(expires: Option<i64>) -> (wrapped: Self)
        ensures
            wrapped@ == expires,
    {
        Self(expires)
    }

    /// Validates a requested expiration at the time `now`.
    pub fn resolve(input: Option<Expiry>, now: i64) -> (validated: Result<Self, ValidationError>)
        ensures
            match checked(input, now) {
                Ok(at) => validated matches Ok(e) && e@ == at,
                Err(reason) => validated == Err::<Self, ValidationError>(
                    ValidationError { field: Field::ExpiresAt, reason },
                ),
            },
    {
        match input {
            None => Ok(Self(None)),
            Some(Expiry::At(at)) => {
                if at <= now {
                    Err(ValidationError { field: Field::ExpiresAt, reason: Reason::NotInFuture })
                } else {
                    Ok(Self(Some(at)))
                }
            },
            Some(Expiry::After(span)) => {
                if span == 0 {
                    Err(ValidationError { field: Field::ExpiresAt, reason: Reason::NotInFuture })
                } else {
                    let at: i128 = now as i128 + span as i128;
                    if at > i64::MAX as i128 {
                        Err(ValidationError { field: Field::ExpiresAt, reason: Reason::OutOfRange })
                    } else {
                        Ok(Self(Some(at as i64)))
                    }
                }
            },
        }
    }

    /// Whether the clip counts as expired at `now`.
    pub fn is_expired(&self, now: i64) -> (gone: bool)
        ensures
            gone == expired(self@, now),
    {
        match self.0 {
            Some(at) => at <= now,
            None => false,
        }
    }

    /// The expiration time, if there is one.
    pub fn into_inner(self) -> (at: Option<i64>)
        ensures
            at == self@,
    {
        self.0
    }
}

impl Default for ExpiresAt {
    fn default() -> (never: Self)
        ensures
            never@ is None,
    {
        Self(None)
    }
}

} // verus!
