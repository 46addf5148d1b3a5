//! The clip store: clip records keyed by short code.

use crate::domain::clip::field::expires::expired;
use crate::domain::clip::field::ShortCode;
use crate::domain::clip::{Clip, ClipView};
use vstd::prelude::*;

verus! {

/// Why a store operation did not take place.
#[derive(Clone, Copy, Debug, PartialEq, Eq, Structural)]
pub enum StoreError {
    /// A record with the same short code exists already.
    Conflict,
    /// No record has the short code.
    NotFound,
}

/// What a store holds: at most one record for each short code.
pub type Records = Map<Seq<char>, ClipView>;

/// The value of a view counter that should hold `hits`: the counter stops
/// at the largest value that it can hold.
pub open spec fn capped(hits: int) -> u64 {
    if hits > u64::MAX {
        u64::MAX
    } else {
        hits as u64
    }
}

/// The record `clip` after `delta` more views.
pub open spec fn viewed(clip: ClipView, delta: u32) -> ClipView {
    ClipView { hits: capped(clip.hits + delta), ..clip }
}

/// The records after `delta` views of `code` have been counted: a record
/// with that code has its counter raised, and nothing else changes.
pub open spec fn counted(records: Records, code: Seq<char>, delta: u32) -> Records {
    if records.contains_key(code) {
        records.insert(code, viewed(records[code], delta))
    } else {
        records
    }
}

/// The short codes of the records that count as expired at `now`.
pub open spec fn expired_codes(records: Records, now: i64) -> Set<Seq<char>> {
    Set::new(|code: Seq<char>| records.contains_key(code) && expired(records[code].expires_at, now))
}

/// The records that are left once those expired at `now` are deleted.
pub open spec fn swept(records: Records, now: i64) -> Records {
    records.remove_keys(expired_codes(records, now))
}

/// Whether `clips` are the records, each of them once and in any order.
pub open spec fn holds_exactly(clips: Seq<Clip>, records: Records) -> bool {
    &&& forall|i: int|
        0 <= i < clips.len() ==> records.contains_key((#[trigger] clips[i])@.short_code)
            && records[clips[i]@.short_code] == clips[i]@
    &&& forall|i: int, j: int|
        0 <= i < j < clips.len() ==> (#[trigger] clips[i])@.short_code != (
        #[trigger] clips[j])@.short_code
    &&& forall|code: Seq<char>| #[trigger]
        records.contains_key(code) ==> exists|i: int|
            0 <= i < clips.len() && (#[trigger] clips[i])@.short_code == code
}

/// Whether no two of the clips share a short code.
spec fn distinct(clips: Seq<Clip>) -> bool {
    forall|i: int, j: int|
        0 <= i < j < clips.len() ==> (#[trigger] clips[i]).short_code@ != (
        #[trigger] clips[j]).short_code@
}

/// Whether one of the clips has the short code `code`.
spec fn holds(clips: Seq<Clip>, code: Seq<char>) -> bool {
    exists|i: int| 0 <= i < clips.len() && (#[trigger] clips[i]).short_code@ == code
}

/// Where the clip with the short code `code` stands, if there is one.
spec fn position(clips: Seq<Clip>, code: Seq<char>) -> int {
    choose|i: int| 0 <= i < clips.len() && (#[trigger] clips[i]).short_code@ == code
}

/// The clips as records keyed by short code.
spec fn records_of(clips: Seq<Clip>) -> Records {
    Map::new(|code: Seq<char>| holds(clips, code), |code: Seq<char>| clips[position(clips, code)]@)
}

/// Among clips with distinct short codes, each is the record of its code.
proof fn lemma_record_at(clips: Seq<Clip>, i: int)
    requires
        distinct(clips),
        0 <= i < clips.len(),
    ensures
        records_of(clips).contains_key(clips[i].short_code@),
        records_of(clips)[clips[i].short_code@] == clips[i]@,
        position(clips, clips[i].short_code@) == i,
{
    let code = clips[i].short_code@;
    assert(holds(clips, code));
    let j = position(clips, code);
    assert(0 <= j < clips.len() && clips[j].short_code@ == code);
}

/// Appending a clip with a new short code inserts its record.
proof fn lemma_records_push(clips: Seq<Clip>, clip: Clip)
    requires
        distinct(clips),
        !holds(clips, clip.short_code@),
    ensures
        distinct(clips.push(clip)),
        records_of(clips.push(clip)) == records_of(clips).insert(clip.short_code@, clip@),
{
    let after = clips.push(clip);
    let last = clips.len() as int;
    assert(after[last] == clip);
    assert forall|i: int, j: int| 0 <= i < j < after.len() implies (#[trigger] after[i]).short_code@
        != (#[trigger] after[j]).short_code@ by {
        assert(after[i] == clips[i]);
        if j < last {
            assert(after[j] == clips[j]);
        }
    }
    let expected = records_of(clips).insert(clip.short_code@, clip@);
    assert forall|code: Seq<char>| records_of(after).contains_key(code) implies #[trigger]
        expected.contains_key(code) && records_of(after)[code] == expected[code] by {
        let k = position(after, code);
        lemma_record_at(after, k);
        if k < last {
            assert(after[k] == clips[k]);
            lemma_record_at(clips, k);
        }
    }
    assert forall|code: Seq<char>| #[trigger] expected.contains_key(code) implies records_of(
        after,
    ).contains_key(code) by {
        if code == clip.short_code@ {
            lemma_record_at(after, last);
        } else {
            let k = position(clips, code);
            assert(after[k] == clips[k]);
            lemma_record_at(after, k);
        }
    }
    assert(records_of(after) =~= expected);
}

/// Putting a clip in the place of one with the same short code replaces the
/// record of that code.
proof fn lemma_records_update(clips: Seq<Clip>, i: int, clip: Clip)
    requires
        distinct(clips),
        0 <= i < clips.len(),
        clip.short_code@ == clips[i].short_code@,
    ensures
        distinct(clips.update(i, clip)),
        records_of(clips.update(i, clip)) == records_of(clips).insert(clip.short_code@, clip@),
{
    let after = clips.update(i, clip);
    assert forall|a: int, b: int| 0 <= a < b < after.len() implies (#[trigger] after[a]).short_code@
        != (#[trigger] after[b]).short_code@ by {
        assert(after[a].short_code@ == clips[a].short_code@);
        assert(after[b].short_code@ == clips[b].short_code@);
    }
    let expected = records_of(clips).insert(clip.short_code@, clip@);
    assert forall|code: Seq<char>| records_of(after).contains_key(code) implies #[trigger]
        expected.contains_key(code) && records_of(after)[code] == expected[code] by {
        let k = position(after, code);
        lemma_record_at(after, k);
        if k != i {
            assert(after[k] == clips[k]);
            lemma_record_at(clips, k);
        }
    }
    assert forall|code: Seq<char>| #[trigger] expected.contains_key(code) implies records_of(
        after,
    ).contains_key(code) by {
        if code == clip.short_code@ {
            lemma_record_at(after, i);
        } else {
            let k = position(clips, code);
            assert(after[k] == clips[k]);
            lemma_record_at(after, k);
        }
    }
    assert(records_of(after) =~= expected);
}

/// Moving the last clip into the place of another removes the record of the
/// clip that stood there.
proof fn lemma_records_swap_remove(clips: Seq<Clip>, i: int)
    requires
        distinct(clips),
        0 <= i < clips.len(),
    ensures
        distinct(clips.update(i, clips.last()).drop_last()),
        records_of(clips.update(i, clips.last()).drop_last()) == records_of(clips).remove(
            clips[i].short_code@,
        ),
{
    let after = clips.update(i, clips.last()).drop_last();
    let last = clips.len() - 1;
    let source = |k: int|
        if k == i {
            last
        } else {
            k
        };
    assert forall|k: int| 0 <= k < after.len() implies #[trigger] after[k] == clips[source(k)]
        && source(k) != i by {}
    assert forall|a: int, b: int| 0 <= a < b < after.len() implies (#[trigger] after[a]).short_code@
        != (#[trigger] after[b]).short_code@ by {
        assert(after[a] == clips[source(a)]);
        assert(after[b] == clips[source(b)]);
    }
    let expected = records_of(clips).remove(clips[i].short_code@);
    assert forall|code: Seq<char>| records_of(after).contains_key(code) implies #[trigger]
        expected.contains_key(code) && records_of(after)[code] == expected[code] by {
        let k = position(after, code);
        lemma_record_at(after, k);
        assert(after[k] == clips[source(k)]);
        lemma_record_at(clips, source(k));
    }
    assert forall|code: Seq<char>| #[trigger] expected.contains_key(code) implies records_of(
        after,
    ).contains_key(code) by {
        let k = position(clips, code);
        lemma_record_at(clips, i);
        if k == last {
            assert(after[i] == clips[k]);
            lemma_record_at(after, i);
        } else {
            assert(after[k] == clips[k]);
            lemma_record_at(after, k);
        }
    }
    assert(records_of(after) =~= expected);
}

/// Clips with distinct short codes give as many records as there are clips.
proof fn lemma_records_len(clips: Seq<Clip>)
    requires
        distinct(clips),
    ensures
        records_of(clips).dom().finite(),
        records_of(clips).dom().len() == clips.len(),
    decreases clips.len(),
{
    if clips.len() == 0 {
        assert(records_of(clips).dom() =~= Set::empty());
    } else {
        let front = clips.drop_last();
        let last = clips.last();
        assert(clips =~= front.push(last));
        assert forall|i: int, j: int| 0 <= i < j < front.len() implies (#[trigger] front[i]).short_code@
            != (#[trigger] front[j]).short_code@ by {
            assert(front[i] == clips[i]);
            assert(front[j] == clips[j]);
        }
        if holds(front, last.short_code@) {
            let k = position(front, last.short_code@);
            assert(front[k] == clips[k]);
            assert(clips[clips.len() - 1] == last);
        }
        lemma_records_len(front);
        lemma_records_push(front, last);
        assert(records_of(clips).dom() =~= records_of(front).dom().insert(last.short_code@));
    }
}

/// An in-memory table of clip records, keyed by short code.
pub struct ClipStore {
    clips: Vec<Clip>,
}

impl View for ClipStore {
    type V = Records;

    closed spec fn view(&self) -> Records {
        records_of(self.clips@)
    }
}

impl ClipStore {
    #[verifier::type_invariant]
    spec fn unique_codes(self) -> bool {
        distinct(self.clips@)
    }

    /// A store without records.
    pub fn new() -> (store: Self)
        ensures
            store@ == Records::empty(),
    {
        let store = ClipStore { clips: Vec::new() };
        assert(store@ =~= Records::empty());
        store
    }

    /// Moves the clips out and leaves the store empty, for the caller to
    /// change them and assign them back.
    fn take_clips(&mut self) -> (clips: Vec<Clip>)
        ensures
            clips == old(self).clips,
            final(self).clips@.len() == 0,
    {
        let mut clips = Vec::new();
        core::mem::swap(&mut self.clips, &mut clips);
        clips
    }

    /// Adds `delta` to the view counter of the record with the given short
    /// code. The counter stops at the largest value that it can hold.
    pub fn update_hits(&mut self, short_code: &ShortCode, delta: u32) -> (updated: Result<
        (),
        StoreError,
    >)
        ensures
            match updated {
                Ok(()) => old(self)@.contains_key(short_code@),
                Err(e) => e == StoreError::NotFound && !old(self)@.contains_key(short_code@),
            },
            final(self)@ == counted(old(self)@, short_code@, delta),
    {
        proof {
            use_type_invariant(&*self);
        }
        match self.find(short_code) {
            Some(i) => {
                let mut clips = self.take_clips();
                let ghost before = clips@;
                let hits = clips[i].hits.saturating_add(delta as u64);
                clips[i].hits = hits;
                proof {
                    lemma_record_at(before, i as int);
                    lemma_records_update(before, i as int, clips@[i as int]);
                    assert(clips@ =~= before.update(i as int, clips@[i as int]));
                    assert(clips@[i as int]@ =~= viewed(before[i as int]@, delta));
                }
                self.clips = clips;
                Ok(())
            },
            None => Err(StoreError::NotFound),
        }
    }

    /// The number of records.
    pub fn len(&self) -> (n: usize)
        ensures
            self@.dom().finite(),
            n == self@.dom().len(),
    {
        proof {
            use_type_invariant(self);
            lemma_records_len(self.clips@);
        }
        self.clips.len()
    }

    /// A copy of every record, expired or not, for whoever keeps the records
    /// elsewhere too.
    pub fn snapshot(&self) -> (clips: Vec<Clip>)
        ensures
            holds_exactly(clips@, self@),
    {
        proof {
            use_type_invariant(self);
        }
        let mut clips: Vec<Clip> = Vec::new();
        let mut i: usize = 0;
        while i < self.clips.len()
            invariant
                i <= self.clips@.len(),
                clips@.len() == i,
                forall|k: int| 0 <= k < i ==> (#[trigger] clips@[k])@ == self.clips@[k]@,
            decreases self.clips@.len() - i,
        {
            clips.push(self.clips[i].clone());
            i += 1;
        }
        proof {
            assert forall|k: int| 0 <= k < clips@.len() implies self@.contains_key(
                (#[trigger] clips@[k])@.short_code,
            ) && self@[clips@[k]@.short_code] == clips@[k]@ by {
                lemma_record_at(self.clips@, k);
            }
            assert forall|a: int, b: int| 0 <= a < b < clips@.len() implies (#[trigger] clips@[a])@.short_code
                != (#[trigger] clips@[b])@.short_code by {
                assert(self.clips@[a].short_code@ != self.clips@[b].short_code@);
            }
            assert forall|code: Seq<char>| #[trigger] self@.contains_key(code) implies exists|
                k: int,
            |
                0 <= k < clips@.len() && (#[trigger] clips@[k])@.short_code == code by {
                let k = position(self.clips@, code);
                assert(clips@[k]@.short_code == code);
            }
        }
        clips
    }

    /// Deletes every record that counts as expired at `now` and returns how
    /// many there were.
    pub fn delete_expired(&mut self, now: i64) -> (deleted: Result<usize, StoreError>)
        ensures
            deleted matches Ok(count) && count == expired_codes(old(self)@, now).len(),
            final(self)@ == swept(old(self)@, now),
    {
        proof {
            use_type_invariant(&*self);
        }
        let mut clips = self.take_clips();
        let ghost before = records_of(clips@);
        let total = clips.len();
        let ghost mut removed: Set<Seq<char>> = Set::empty();
        let mut count: usize = 0;
        let mut i: usize = 0;
        assert(before.remove_keys(removed) =~= before);
        while i < clips.len()
            invariant
                distinct(clips@),
                i <= clips@.len(),
                forall|k: int| 0 <= k < i ==> !expired((#[trigger] clips@[k])@.expires_at, now),
                records_of(clips@) == before.remove_keys(removed),
                removed.subset_of(expired_codes(before, now)),
                removed.finite(),
                removed.len() == count,
                count + clips@.len() == total,
            decreases clips@.len() - i,
        {
            if clips[i].is_expired(now) {
                proof {
                    let code = clips@[i as int].short_code@;
                    lemma_record_at(clips@, i as int);
                    lemma_records_swap_remove(clips@, i as int);
                    assert(before.remove_keys(removed).remove(code) =~= before.remove_keys(
                        removed.insert(code),
                    ));
                    removed = removed.insert(code);
                }
                clips.swap_remove(i);
                count += 1;
            } else {
                i += 1;
            }
        }
        proof {
            assert forall|code: Seq<char>| expired_codes(before, now).contains(code) implies #[trigger]
                removed.contains(code) by {
                if !removed.contains(code) {
                    assert(records_of(clips@).contains_key(code));
                    let k = position(clips@, code);
                    lemma_record_at(clips@, k);
                    assert(!expired(clips@[k]@.expires_at, now));
                }
            }
            assert(removed =~= expired_codes(before, now));
        }
        self.clips = clips;
        Ok(count)
    }

    /// The place of the clip with the given short code.
    fn find(&self, short_code: &ShortCode) -> (found: Option<usize>)
        ensures
            match found {
                Some(i) => i < self.clips@.len() && self.clips@[i as int].short_code@
                    == short_code@,
                None => !holds(self.clips@, short_code@),
            },
    {
        let mut i: usize = 0;
        while i < self.clips.len()
            invariant
                i <= self.clips@.len(),
                forall|k: int| 0 <= k < i ==> (#[trigger] self.clips@[k]).short_code@ != short_code@,
            decreases self.clips@.len() - i,
        {
            if self.clips[i].short_code == *short_code {
                return Some(i);
            }
            i += 1;
        }
        None
    }

    /// Adds `clip` unless a record with its short code exists already.
    pub fn insert(&mut self, clip: Clip) -> (inserted: Result<Clip, StoreError>)
        ensures
            match inserted {
                Ok(stored) => {
                    &&& !old(self)@.contains_key(clip@.short_code)
                    &&& stored@ == clip@
                    &&& final(self)@ == old(self)@.insert(clip@.short_code, clip@)
                },
                Err(e) => {
                    &&& e == StoreError::Conflict
                    &&& old(self)@.contains_key(clip@.short_code)
                    &&& final(self)@ == old(self)@
                },
            },
    {
        proof {
            use_type_invariant(&*self);
        }
        match self.find(&clip.short_code) {
            Some(i) => {
                proof {
                    lemma_record_at(self.clips@, i as int);
                }
                Err(StoreError::Conflict)
            },
            None => {
                let stored = clip.clone();
                proof {
                    lemma_records_push(self.clips@, clip);
                }
                let mut clips = self.take_clips();
                clips.push(clip);
                self.clips = clips;
                Ok(stored)
            },
        }
    }

    /// The record with the given short code, whether it has expired or not.
    pub fn get(&self, short_code: &ShortCode) -> (found: Result<Clip, StoreError>)
        ensures
            match found {
                Ok(clip) => self@.contains_key(short_code@) && clip@ == self@[short_code@],
                Err(e) => e == StoreError::NotFound && !self@.contains_key(short_code@),
            },
    {
        proof {
            use_type_invariant(self);
        }
        match self.find(short_code) {
            Some(i) => {
                proof {
                    lemma_record_at(self.clips@, i as int);
                }
                Ok(self.clips[i].clone())
            },
            None => Err(StoreError::NotFound),
        }
    }
}

} // verus!
