//! The requests that the service answers.

use crate::domain::clip::field::{Expiry, Password, ShortCode};
use vstd::prelude::*;

verus! {

/// A request to create a clip, with its fields as they were submitted.
#[derive(Debug)]
pub struct NewClip {
    pub content: String,
    pub title: String,
    pub password: String,
    pub expires_at: Option<Expiry>,
}

/// What a creation request holds, as plain values.
#[verifier::ext_equal]
pub struct NewClipView {
    pub content: Seq<char>,
    pub title: Seq<char>,
    pub password: Seq<char>,
    pub expires_at: Option<Expiry>,
}

impl View for NewClip {
    type V = NewClipView;

    open spec fn view(&self) -> NewClipView {
        NewClipView {
            content: self.content@,
            title: self.title@,
            password: self.password@,
            expires_at: self.expires_at,
        }
    }
}

/// A request to read a clip.
#[derive(Debug)]
pub struct GetClip {
    pub short_code: ShortCode,
    pub password: Password,
}

impl vstd::std_specs::convert::FromSpecImpl<ShortCode> for GetClip {
    open spec fn obeys_from_spec() -> bool {
        false
    }

    open spec fn from_spec(short_code: ShortCode) -> Self {
        arbitrary()
    }
}

impl From<ShortCode> for GetClip {
    /// The request of a reader who supplies no password.
    fn from(short_code: ShortCode) -> (request: Self)
        ensures
            request.short_code@ == short_code@,
            request.password@ is None,
    {
        GetClip { short_code, password: Password::default() }
    }
}

} // verus!
