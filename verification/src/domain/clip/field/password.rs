//! The optional secret that guards a clip.

use crate::domain::clip::ValidationError;
use crate::domain::text::{constant_time_eq, present};
use vstd::prelude::*;

verus! {

/// Whether a reader who supplies `supplied` may read a clip guarded by
/// `stored`: a clip without a password is open to everyone, any other clip
/// to those who supply exactly its password.
pub open spec fn unlocks(stored: Option<Seq<char>>, supplied: Option<Seq<char>>) -> bool {
    stored is None || stored == supplied
}

/// The optional secret that guards a clip. The empty string is no password:
/// it stands for "no password set".
#[derive(Debug)]
pub struct Password(Option<String>);

impl View for Password {
    type V = Option<Seq<char>>;

    closed spec fn view(&self) -> Option<Seq<char>> {
        match self.0 {
            Some(secret) => Some(secret@),
            None => None,
        }
    }
}

impl Password {
    #[verifier::type_invariant]
    spec fn canonical(self) -> bool {
        self.0 matches Some(secret) ==> secret@.len() > 0
    }

    /// Accepts every string. The empty string gives "no password".
    pub fn new(password: String) -> (validated: Result<Self, ValidationError>)
        ensures
            validated matches Ok(p) && p@ == present(password@),
    {
        if password.as_str().is_empty() {
            Ok(Self(None))
        } else {
            Ok(Self(Some(password)))
        }
    }

    /// Whether a password is set.
    pub fn has_password(&self) -> (set: bool)
        ensures
            set == (self@ is Some),
    {
        self.0.is_some()
    }

    /// Whether `supplied` opens what `self` guards. Two secrets are compared
    /// over their whole length.
    pub fn admits(&self, supplied: &Password) -> (open: bool)
        ensures
            open == unlocks(self@, supplied@),
    {
        match &self.0 {
            None => true,
            Some(secret) => match &supplied.0 {
                None => false,
                Some(offered) => constant_time_eq(secret.as_str(), offered.as_str()),
            },
        }
    }

    /// The secret, if one is set. A secret is never the empty string.
    pub fn into_inner(self) -> (secret: Option<String>)
        ensures
            match secret {
                Some(s) => self@ == Some(s@) && s@.len() > 0,
                None => self@ is None,
            },
    {
        proof {
            use_type_invariant(&self);
        }
        self.0
    }
}

impl Clone for Password {
    fn clone(&self) -> (copy: Self)
        ensures
            copy@ == self@,
    {
        proof {
            use_type_invariant(self);
        }
        match &self.0 {
            Some(secret) => Self(Some(secret.clone())),
            None => Self(None),
        }
    }
}

impl Default for Password {
    fn default() -> (absent: Self)
        ensures
            absent@ is None,
    {
        Self(None)
    }
}

} // verus!
