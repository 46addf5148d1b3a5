//! The clip entity and its fields.

use crate::domain::clip::field::expires::expired;
use crate::domain::clip::field::{Content, ExpiresAt, Password, ShortCode, Title};
use vstd::prelude::*;

pub mod field;

verus! {

/// The field of a creation request that a validation error speaks of.
#[derive(Clone, Copy, Debug, PartialEq, Eq, Structural)]
pub enum Field {
    Content,
    Title,
    Password,
    ExpiresAt,
}

/// Why a field was rejected.
#[derive(Clone, Copy, Debug, PartialEq, Eq, Structural)]
pub enum Reason {
    /// The text holds nothing but white space.
    Empty,
    /// The expiration does not lie strictly after the time of validation.
    NotInFuture,
    /// The expiration lies beyond the last time that a timestamp can hold.
    OutOfRange,
}

/// The message that tells a user of `reason`.
pub open spec fn reason_text(reason: Reason) -> Seq<char> {
    match reason {
        Reason::Empty => "must not be empty"@,
        Reason::NotInFuture => "must lie in the future"@,
        Reason::OutOfRange => "lies too far in the future"@,
    }
}

impl Reason {
    /// The message that tells a user of this reason.
    pub fn message(&self) -> (text: String)
        ensures
            text@ == reason_text(*self),
    {
        match self {
            Reason::Empty => "must not be empty".to_owned(),
            Reason::NotInFuture => "must lie in the future".to_owned(),
            Reason::OutOfRange => "lies too far in the future".to_owned(),
        }
    }
}

/// A rejected field together with the reason.
#[derive(Clone, Copy, Debug, PartialEq, Eq, Structural)]
pub struct ValidationError {
    pub field: Field,
    pub reason: Reason,
}

/// What a clip holds, as plain values. Times are seconds since the Unix
/// epoch, UTC.
#[verifier::ext_equal]
pub struct ClipView {
    pub short_code: Seq<char>,
    pub content: Seq<char>,
    pub title: Option<Seq<char>>,
    pub password: Option<Seq<char>>,
    pub posted_at: i64,
    pub expires_at: Option<i64>,
    pub hits: u64,
}

/// A stored text snippet with optional title, password and expiration.
#[derive(Debug)]
pub struct Clip {
    pub short_code: ShortCode,
    pub content: Content,
    pub title: Title,
    pub password: Password,
    pub posted_at: i64,
    pub expires_at: ExpiresAt,
    pub hits: u64,
}

impl View for Clip {
    type V = ClipView;

    open spec fn view(&self) -> ClipView {
        ClipView {
            short_code: self.short_code@,
            content: self.content@,
            title: self.title@,
            password: self.password@,
            posted_at: self.posted_at,
            expires_at: self.expires_at@,
            hits: self.hits,
        }
    }
}

impl Clip {
    /// Whether the clip counts as expired at `now`.
    pub fn is_expired(&self, now: i64) -> (gone: bool)
        ensures
            gone == expired(self@.expires_at, now),
    {
        self.expires_at.is_expired(now)
    }
}

impl Clone for Clip {
    fn clone(&self) -> (copy: Self)
        ensures
            copy@ == self@,
    {
        Clip {
            short_code: self.short_code.clone(),
            content: self.content.clone(),
            title: self.title.clone(),
            password: self.password.clone(),
            posted_at: self.posted_at,
            expires_at: self.expires_at,
            hits: self.hits,
        }
    }
}

} // verus!
