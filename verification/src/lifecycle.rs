//! What holds of a clip from its creation to its deletion, stated over the
//! records of the store.

use crate::data::{capped, expired_codes, swept, Records};
use crate::domain::clip::field::short_code::is_generated;
use crate::domain::clip::field::expires::{checked, expired};
use crate::domain::clip::field::password::unlocks;
use crate::domain::clip::field::Expiry;
use crate::domain::clip::{ClipView, Field, Reason, ValidationError};
use crate::domain::text::{is_blank, present};
use crate::domain::clip::field::ShortCode;
use crate::service::action::{
    all_taken, created, exhausted, lookup, rejection, Lookup, MAX_ATTEMPTS,
};
use crate::service::ask::NewClipView;
use crate::service::views::{applied, lemma_applied_is_tallied, total_for, Command};
use vstd::prelude::*;

verus! {

/// The queue that `n` successful reads of `code` leave behind them: one view
/// for each read.
pub open spec fn reads(code: Seq<char>, n: nat) -> Seq<Command> {
    Seq::new(n, |i: int| (code, 1u32))
}

/// A clip stored under a short code that no record had differs in its short
/// code from every clip created before it, and leaves each of them as it
/// was.
pub proof fn lemma_new_code_is_unique(records: Records, code: Seq<char>, clip: ClipView)
    requires
        !records.contains_key(code),
    ensures
        forall|earlier: Seq<char>| #[trigger]
            records.contains_key(earlier) ==> {
                &&& earlier != code
                &&& records.insert(code, clip).contains_key(earlier)
                &&& records.insert(code, clip)[earlier] == records[earlier]
            },
{
}

/// Blank content is rejected. Title and password are never at fault: a
/// request is judged alike whatever they hold, and what is rejected is the
/// content or the expiration.
pub proof fn lemma_only_content_and_expiration_are_judged(
    request: NewClipView,
    title: Seq<char>,
    password: Seq<char>,
    now: i64,
)
    ensures
        is_blank(request.content) ==> rejection(request, now) == Some(
            ValidationError { field: Field::Content, reason: Reason::Empty },
        ),
        rejection(NewClipView { title, password, ..request }, now) == rejection(request, now),
        rejection(request, now) matches Some(e) ==> e.field == Field::Content || e.field
            == Field::ExpiresAt,
{
}

/// An expiration time that is not in the future is rejected. One in the
/// future is accepted, and the clip then carries that very time: whoever
/// reads the clip with its password before it expires gets it back.
pub proof fn lemma_expiration_round_trip(
    records: Records,
    request: NewClipView,
    code: Seq<char>,
    at: i64,
    now: i64,
    later: i64,
)
    requires
        !is_blank(request.content),
        request.expires_at == Some(Expiry::At(at)),
    ensures
        at <= now ==> rejection(request, now) == Some(
            ValidationError { field: Field::ExpiresAt, reason: Reason::NotInFuture },
        ),
        at > now ==> rejection(request, now) is None,
        at > now ==> created(request, code, now).expires_at == Some(at),
        now < at && later < at ==> lookup(
            records.insert(code, created(request, code, now)),
            code,
            present(request.password),
            later,
        ) == Lookup::Found(created(request, code, now)),
{
}

/// What was submitted comes back: a reader who supplies the password of the
/// request gets the created clip, with content equal to the submitted
/// content, as long as the clip has not expired.
pub proof fn lemma_content_round_trip(
    records: Records,
    request: NewClipView,
    code: Seq<char>,
    now: i64,
    later: i64,
)
    requires
        rejection(request, now) is None,
        !expired(created(request, code, now).expires_at, later),
    ensures
        lookup(
            records.insert(code, created(request, code, now)),
            code,
            present(request.password),
            later,
        ) == Lookup::Found(created(request, code, now)),
        created(request, code, now).content == request.content,
{
}

/// A clip with a password is refused to every reader who supplies none or
/// another one, and handed to the reader who supplies it. A clip without a
/// password is handed to every reader.
pub proof fn lemma_password_guards(
    records: Records,
    code: Seq<char>,
    supplied: Option<Seq<char>>,
    now: i64,
)
    requires
        records.contains_key(code),
        !expired(records[code].expires_at, now),
    ensures
        records[code].password is None ==> lookup(records, code, supplied, now) == Lookup::Found(
            records[code],
        ),
        records[code].password is Some && supplied == records[code].password ==> lookup(
            records,
            code,
            supplied,
            now,
        ) == Lookup::Found(records[code]),
        records[code].password is Some && supplied != records[code].password ==> lookup(
            records,
            code,
            supplied,
            now,
        ) == Lookup::Denied,
{
}

/// The views of `code` that `n` reads of it add up to.
pub proof fn lemma_total_of_reads(code: Seq<char>, n: nat)
    ensures
        total_for(reads(code, n), code) == n,
    decreases n,
{
    if n > 0 {
        assert(reads(code, n).drop_last() =~= reads(code, (n - 1) as nat));
        lemma_total_of_reads(code, (n - 1) as nat);
    }
}

/// After `n` successful reads of a clip and a flush of the view counter, the
/// stored count of the clip has grown by `n`, whatever it was before; where
/// the counter cannot hold the sum, it stands at the largest count. Nothing
/// else of the clip has changed.
pub proof fn lemma_reads_reach_hits(records: Records, code: Seq<char>, n: nat)
    requires
        records.contains_key(code),
    ensures
        applied(records, reads(code, n)).contains_key(code),
        applied(records, reads(code, n))[code] == (ClipView {
            hits: capped(records[code].hits + n),
            ..records[code]
        }),
        records[code].hits + n <= u64::MAX ==> applied(records, reads(code, n))[code].hits
            == records[code].hits + n,
{
    lemma_applied_is_tallied(records, reads(code, n));
    lemma_total_of_reads(code, n);
}

/// The same holds of a queue that other reads have gone into as well: the
/// stored count of a clip grows by the views that the queue adds up to for
/// it, whatever stands between them.
pub proof fn lemma_views_reach_hits(records: Records, commands: Seq<Command>, code: Seq<char>)
    requires
        records.contains_key(code),
    ensures
        applied(records, commands).contains_key(code),
        applied(records, commands)[code] == (ClipView {
            hits: capped(records[code].hits + total_for(commands, code)),
            ..records[code]
        }),
{
    lemma_applied_is_tallied(records, commands);
}

/// A new clip fails for want of a short code only where a generated code has
/// a record already: in a store that holds none, every valid request
/// succeeds.
pub proof fn lemma_exhausted_store_holds_generated_code(records: Records)
    requires
        exhausted(records),
    ensures
        exists|code: Seq<char>| #[trigger] records.contains_key(code) && is_generated(code),
        records != Records::empty(),
{
    let codes = choose|codes: Seq<ShortCode>|
        {
            &&& #[trigger] all_taken(codes, records)
            &&& codes.len() == MAX_ATTEMPTS
            &&& forall|j: int| 0 <= j < codes.len() ==> is_generated((#[trigger] codes[j])@)
        };
    assert(records.contains_key(codes[0]@));
    assert(is_generated(codes[0]@));
}

/// A clip that has expired is not found by any reader, swept or not, and
/// stays expired from then on.
pub proof fn lemma_expired_clip_is_not_found(
    records: Records,
    code: Seq<char>,
    supplied: Option<Seq<char>>,
    now: i64,
    later: i64,
)
    requires
        records.contains_key(code),
        expired(records[code].expires_at, now),
        now <= later,
    ensures
        expired(records[code].expires_at, later),
        lookup(records, code, supplied, later) == Lookup::NotFound,
{
}

/// Once a sweep has run at or after the expiration time of a clip, the clip
/// is absent from the store and no reader finds it, at any time. Clips that
/// had not expired are left as they were.
pub proof fn lemma_swept_clip_is_gone(
    records: Records,
    code: Seq<char>,
    supplied: Option<Seq<char>>,
    now: i64,
    later: i64,
)
    requires
        records.contains_key(code),
        expired(records[code].expires_at, now),
    ensures
        !swept(records, now).contains_key(code),
        lookup(swept(records, now), code, supplied, later) == Lookup::NotFound,
        forall|other: Seq<char>| #[trigger]
            records.contains_key(other) && !expired(records[other].expires_at, now) ==> swept(
                records,
                now,
            ).contains_key(other) && swept(records, now)[other] == records[other],
{
}

/// A sweep leaves nothing for a second sweep at the same time, and a sweep
/// that finds nothing expired changes nothing.
pub proof fn lemma_sweep_is_idempotent(records: Records, now: i64)
    ensures
        swept(swept(records, now), now) == swept(records, now),
        expired_codes(swept(records, now), now) == Set::<Seq<char>>::empty(),
        expired_codes(records, now) == Set::<Seq<char>>::empty() ==> swept(records, now)
            == records,
{
    assert(expired_codes(swept(records, now), now) =~= Set::<Seq<char>>::empty());
    assert(swept(swept(records, now), now) =~= swept(records, now));
    if expired_codes(records, now) == Set::<Seq<char>>::empty() {
        assert(swept(records, now) =~= records);
    }
}

} // verus!
