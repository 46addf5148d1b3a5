//! The optional display label of a clip.

use crate::domain::clip::ValidationError;
use crate::domain::text::present;
use vstd::prelude::*;

verus! {

/// The optional display label of a clip. An absent title has one
/// representation only: the empty string never stands beside it.
#[derive(Debug)]
pub struct Title(Option<String>);

impl View for Title {
    type V = Option<Seq<char>>;

    closed spec fn view(&self) -> Option<Seq<char>> {
        match self.0 {
            Some(label) => Some(label@),
            None => None,
        }
    }
}

impl Title {
    #[verifier::type_invariant]
    spec fn canonical(self) -> bool {
        self.0 matches Some(label) ==> label@.len() > 0
    }

    /// Accepts every string. The empty string gives the absent title.
    pub fn new(title: String) -> (validated: Result<Self, ValidationError>)
        ensures
            validated matches Ok(t) && t@ == present(title@),
    {
        if title.as_str().is_empty() {
            Ok(Self(None))
        } else {
            Ok(Self(Some(title)))
        }
    }

    /// The label, if the clip has one. A label is never the empty string.
    pub fn into_inner(self) -> (label: Option<String>)
        ensures
            match label {
                Some(s) => self@ == Some(s@) && s@.len() > 0,
                None => self@ is None,
            },
    {
        proof {
            use_type_invariant(&self);
        }
        self.0
    }
}

impl Clone for Title {
    fn clone(&self) -> (copy: Self)
        ensures
            copy@ == self@,
    {
        proof {
            use_type_invariant(self);
        }
        match &self.0 {
            Some(label) => Self(Some(label.clone())),
            None => Self(None),
        }
    }
}

impl Default for Title {
    fn default() -> (absent: Self)
        ensures
            absent@ is None,
    {
        Self(None)
    }
}

} // verus!
