//! The use cases of the service: creating a clip and reading one back.

use crate::data::{ClipStore, Records, StoreError};
use crate::domain::clip::field::expires::{checked, expired};
use crate::domain::clip::field::password::unlocks;
use crate::domain::clip::field::short_code::is_generated;
use crate::domain::clip::field::{Content, ExpiresAt, Password, ShortCode, Title};
use crate::domain::clip::{reason_text, Clip, ClipView, Field, Reason, ValidationError};
use crate::domain::text::{is_blank, present};
use crate::service::ask::{GetClip, NewClip, NewClipView};
use crate::service::views::{Command, ViewCounter};
use crate::service::ServiceError;
use vstd::prelude::*;

verus! {

/// How many short codes are tried for one new clip before the service gives
/// up.
pub const MAX_ATTEMPTS: usize = 5;

/// The hint that goes with a refused read.
pub open spec fn permission_hint() -> Seq<char> {
    "Invalid password"@
}

/// What is wrong with a creation request read at `now`, if anything is. The
/// content is judged first, then the expiration; title and password are
/// never at fault.
pub open spec fn rejection(request: NewClipView, now: i64) -> Option<ValidationError> {
    if is_blank(request.content) {
        Some(ValidationError { field: Field::Content, reason: Reason::Empty })
    } else {
        match checked(request.expires_at, now) {
            Err(reason) => Some(ValidationError { field: Field::ExpiresAt, reason }),
            Ok(_) => None,
        }
    }
}

/// The clip that an accepted request gives when it is created at `now` under
/// the short code `code`.
pub open spec fn created(request: NewClipView, code: Seq<char>, now: i64) -> ClipView {
    ClipView {
        short_code: code,
        content: request.content,
        title: present(request.title),
        password: present(request.password),
        posted_at: now,
        expires_at: match checked(request.expires_at, now) {
            Ok(at) => at,
            Err(_) => None,
        },
        hits: 0,
    }
}

/// Whether `codes[i]` is the candidate that a new clip is stored under: the
/// first one among the first `MAX_ATTEMPTS` that has no record yet.
pub open spec fn is_first_free(codes: Seq<ShortCode>, records: Records, i: int) -> bool {
    &&& 0 <= i < codes.len()
    &&& i < MAX_ATTEMPTS
    &&& !records.contains_key(codes[i]@)
    &&& forall|j: int| 0 <= j < i ==> records.contains_key((#[trigger] codes[j])@)
}

/// Whether each of the first `MAX_ATTEMPTS` candidates has a record already.
pub open spec fn all_taken(codes: Seq<ShortCode>, records: Records) -> bool {
    forall|j: int|
        0 <= j < codes.len() && j < MAX_ATTEMPTS ==> records.contains_key((#[trigger] codes[j])@)
}

/// Whether the attempts at a new short code can all have failed: whether
/// there are `MAX_ATTEMPTS` generated codes, alike or not, each of which has
/// a record already. Where this does not hold, as in a store with fewer
/// records than generated codes can collide with, a new clip finds its code.
pub open spec fn exhausted(records: Records) -> bool {
    exists|codes: Seq<ShortCode>|
        {
            &&& #[trigger] all_taken(codes, records)
            &&& codes.len() == MAX_ATTEMPTS
            &&& forall|j: int| 0 <= j < codes.len() ==> is_generated((#[trigger] codes[j])@)
        }
}

/// How a read ends.
pub enum Lookup {
    /// The clip is there, has not expired and is open to the reader.
    Found(ClipView),
    /// No clip has the short code, or the clip has expired.
    NotFound,
    /// The clip is guarded by a password that the reader did not supply.
    Denied,
}

/// How a read of `code` at `now` ends for a reader who supplies `supplied`.
/// Expiration is judged before the password.
pub open spec fn lookup(
    records: Records,
    code: Seq<char>,
    supplied: Option<Seq<char>>,
    now: i64,
) -> Lookup {
    if !records.contains_key(code) || expired(records[code].expires_at, now) {
        Lookup::NotFound
    } else if !unlocks(records[code].password, supplied) {
        Lookup::Denied
    } else {
        Lookup::Found(records[code])
    }
}

/// A validated clip that lacks only its short code.
#[derive(Debug)]
pub struct Draft {
    content: Content,
    title: Title,
    password: Password,
    posted_at: i64,
    expires_at: ExpiresAt,
}

impl Draft {
    /// The clip that the draft gives under the short code `code`.
    pub closed spec fn under(&self, code: Seq<char>) -> ClipView {
        ClipView {
            short_code: code,
            content: self.content@,
            title: self.title@,
            password: self.password@,
            posted_at: self.posted_at,
            expires_at: self.expires_at@,
            hits: 0,
        }
    }

    /// The clip that the draft gives under `short_code`.
    fn to_clip(&self, short_code: &ShortCode) -> (clip: Clip)
        ensures
            clip@ == self.under(short_code@),
    {
        Clip {
            short_code: short_code.clone(),
            content: self.content.clone(),
            title: self.title.clone(),
            password: self.password.clone(),
            posted_at: self.posted_at,
            expires_at: self.expires_at,
            hits: 0,
        }
    }
}

/// Validates the fields of a creation request at the time `now`.
pub fn validate(request: NewClip, now: i64) -> (validated: Result<Draft, ServiceError>)
    ensures
        match validated {
            Ok(draft) => {
                &&& rejection(request@, now) is None
                &&& forall|code: Seq<char>| #[trigger]
                    draft.under(code) == created(request@, code, now)
            },
            Err(ServiceError::Invalid(field, message)) => {
                &&& rejection(request@, now) matches Some(e)
                &&& field == e.field
                &&& message@ == reason_text(e.reason)
            },
            Err(_) => false,
        },
{
    let content = match Content::new(request.content.as_str()) {
        Ok(content) => content,
        Err(e) => {
            return Err(ServiceError::from(e));
        },
    };
    let title = match Title::new(request.title) {
        Ok(title) => title,
        Err(e) => {
            return Err(ServiceError::from(e));
        },
    };
    let password = match Password::new(request.password) {
        Ok(password) => password,
        Err(e) => {
            return Err(ServiceError::from(e));
        },
    };
    let expires_at = match ExpiresAt::resolve(request.expires_at, now) {
        Ok(expires_at) => expires_at,
        Err(e) => {
            return Err(ServiceError::from(e));
        },
    };
    Ok(Draft { content, title, password, posted_at: now, expires_at })
}

/// Stores the draft under the first of the first `MAX_ATTEMPTS` candidates
/// that has no record yet. A candidate that collides is passed over; when
/// every one of them collides, nothing is stored.
pub fn store_under(draft: Draft, candidates: &Vec<ShortCode>, store: &mut ClipStore) -> (stored:
    Result<Clip, ServiceError>)
    ensures
        match stored {
            Ok(clip) => {
                &&& exists|i: int| #[trigger]
                    is_first_free(candidates@, old(store)@, i) && clip@.short_code
                        == candidates@[i]@
                &&& clip@ == draft.under(clip@.short_code)
                &&& final(store)@ == old(store)@.insert(clip@.short_code, clip@)
            },
            Err(ServiceError::Internal) => {
                &&& all_taken(candidates@, old(store)@)
                &&& final(store)@ == old(store)@
            },
            Err(_) => false,
        },
{
    let mut i: usize = 0;
    while i < candidates.len() && i < MAX_ATTEMPTS
        invariant
            i <= candidates@.len(),
            i <= MAX_ATTEMPTS,
            store@ == old(store)@,
            forall|j: int| 0 <= j < i ==> store@.contains_key((#[trigger] candidates@[j])@),
        decreases candidates@.len() - i,
    {
        match store.insert(draft.to_clip(&candidates[i])) {
            Ok(clip) => {
                assert(is_first_free(candidates@, old(store)@, i as int));
                return Ok(clip);
            },
            Err(_) => {},
        }
        i += 1;
    }
    Err(ServiceError::Internal)
}

/// Creates a clip from `request` at the time `now`. The clip gets a freshly
/// generated short code that no record has; up to `MAX_ATTEMPTS` codes are
/// generated to find one.
pub fn new_clip(request: NewClip, store: &mut ClipStore, now: i64) -> (made: Result<
    Clip,
    ServiceError,
>)
    ensures
        match made {
            Ok(clip) => {
                &&& rejection(request@, now) is None
                &&& is_generated(clip@.short_code)
                &&& !old(store)@.contains_key(clip@.short_code)
                &&& clip@ == created(request@, clip@.short_code, now)
                &&& final(store)@ == old(store)@.insert(clip@.short_code, clip@)
            },
            Err(ServiceError::Invalid(field, message)) => {
                &&& rejection(request@, now) matches Some(e)
                &&& field == e.field
                &&& message@ == reason_text(e.reason)
                &&& final(store)@ == old(store)@
            },
            Err(ServiceError::Internal) => {
                &&& rejection(request@, now) is None
                &&& final(store)@ == old(store)@
                &&& exhausted(old(store)@)
            },
            Err(_) => false,
        },
{
    let draft = match validate(request, now) {
        Ok(draft) => draft,
        Err(e) => {
            return Err(e);
        },
    };
    let mut candidates: Vec<ShortCode> = Vec::new();
    while candidates.len() < MAX_ATTEMPTS
        invariant
            candidates@.len() <= MAX_ATTEMPTS,
            forall|j: int| 0 <= j < candidates@.len() ==> is_generated((#[trigger] candidates@[j])@),
        decreases MAX_ATTEMPTS - candidates@.len(),
    {
        candidates.push(ShortCode::new());
    }
    let stored = store_under(draft, &candidates, store);
    assert(stored is Err ==> all_taken(candidates@, old(store)@));
    stored
}

/// Reads the clip that `request` names at the time `now`. A clip that has
/// expired is treated as absent. A read that succeeds queues one view of the
/// clip; a read that fails queues nothing.
pub fn get_clip(request: GetClip, store: &ClipStore, views: &mut ViewCounter, now: i64) -> (read:
    Result<Clip, ServiceError>)
    ensures
        match lookup(store@, request.short_code@, request.password@, now) {
            Lookup::Found(record) => {
                &&& read matches Ok(clip)
                &&& clip@ == record
                &&& final(views)@ == old(views)@.push((request.short_code@, 1u32))
            },
            Lookup::NotFound => {
                &&& read matches Err(ServiceError::NotFound)
                &&& final(views)@ == old(views)@
            },
            Lookup::Denied => {
                &&& read matches Err(ServiceError::PermissionError(hint))
                &&& hint@ == permission_hint()
                &&& final(views)@ == old(views)@
            },
        },
{
    let clip = match store.get(&request.short_code) {
        Ok(clip) => clip,
        Err(_) => {
            return Err(ServiceError::NotFound);
        },
    };
    if clip.is_expired(now) {
        return Err(ServiceError::NotFound);
    }
    if !clip.password.admits(&request.password) {
        return Err(ServiceError::PermissionError("Invalid password".to_owned()));
    }
    views.record_view(request.short_code, 1);
    Ok(clip)
}

} // verus!
