//! The text body of a clip.

use crate::domain::clip::{Field, Reason, ValidationError};
use crate::domain::text::{is_blank, is_blank_str};
use vstd::prelude::*;

verus! {

/// The text body of a clip: text that holds more than white space, kept
/// exactly as it was submitted.
#[derive(Debug)]
pub struct Content(String);

impl View for Content {
    type V = Seq<char>;

    closed spec fn view(&self) -> Seq<char> {
        self.0@
    }
}

impl Content {
    #[verifier::type_invariant]
    spec fn has_text(self) -> bool {
        !is_blank(self.0@)
    }

    /// Accepts `content` unless it is blank. Accepted text is wrapped as it
    /// stands: nothing is trimmed, cut or escaped.
    pub fn new(content: &str) -> (validated: Result<Self, ValidationError>)
        ensures
            match validated {
                Ok(body) => !is_blank(content@) && body@ == content@,
                Err(e) => is_blank(content@) && e == (ValidationError {
                    field: Field::Content,
                    reason: Reason::Empty,
                }),
            },
    {
        if is_blank_str(content) {
            Err(ValidationError { field: Field::Content, reason: Reason::Empty })
        } else {
            Ok(Self(content.to_owned()))
        }
    }

    /// The text as a string slice. It is never blank.
    pub fn as_str(&self) -> (s: &str)
        ensures
            s@ == self@,
            !is_blank(s@),
    {
        proof {
            use_type_invariant(self);
        }
        self.0.as_str()
    }

    /// The text as an owned string.
    pub fn into_inner(self) -> (s: String)
        ensures
            s@ == self@,
            !is_blank(s@),
    {
        proof {
            use_type_invariant(&self);
        }
        self.0
    }
}

impl Clone for Content {
    fn clone(&self) -> (copy: Self)
        ensures
            copy@ == self@,
    {
        proof {
            use_type_invariant(self);
        }
        Self(self.0.clone())
    }
}

} // verus!
