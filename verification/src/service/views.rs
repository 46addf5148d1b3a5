//! The view counter: views are queued as they happen and counted later.

use crate::data::{capped, counted, viewed, ClipStore, Records};
use crate::domain::clip::field::ShortCode;
use crate::domain::clip::ClipView;
use crate::domain::maintenance::{later, later_than, Schedule};
use vstd::prelude::*;

verus! {

/// A queued command: so many views of the clip with this short code.
pub type Command = (Seq<char>, u32);

/// The records after the commands have been counted, first to last.
pub open spec fn applied(records: Records, commands: Seq<Command>) -> Records
    decreases commands.len(),
{
    if commands.len() == 0 {
        records
    } else {
        counted(applied(records, commands.drop_last()), commands.last().0, commands.last().1)
    }
}

/// How many of the commands name a short code that has no record.
pub open spec fn missed(records: Records, commands: Seq<Command>) -> nat
    decreases commands.len(),
{
    if commands.len() == 0 {
        0
    } else {
        missed(records, commands.drop_last()) + if records.contains_key(commands.last().0) {
            0nat
        } else {
            1nat
        }
    }
}

/// The views of `code` that the commands add up to.
pub open spec fn total_for(commands: Seq<Command>, code: Seq<char>) -> nat
    decreases commands.len(),
{
    if commands.len() == 0 {
        0
    } else {
        total_for(commands.drop_last(), code) + if commands.last().0 == code {
            commands.last().1 as nat
        } else {
            0nat
        }
    }
}

/// The queue as commands over plain values.
spec fn commands_of(queue: Seq<(ShortCode, u32)>) -> Seq<Command> {
    Seq::new(queue.len(), |i: int| (queue[i].0@, queue[i].1))
}

/// Counting views changes no short code and adds no record.
pub proof fn lemma_applied_keeps_codes(records: Records, commands: Seq<Command>)
    ensures
        applied(records, commands).dom() == records.dom(),
    decreases commands.len(),
{
    if commands.len() > 0 {
        lemma_applied_keeps_codes(records, commands.drop_last());
        let before = applied(records, commands.drop_last());
        assert(counted(before, commands.last().0, commands.last().1).dom() =~= before.dom());
    }
}

/// The records with each counter raised by the views that the commands add
/// up to for its clip.
pub open spec fn tallied(records: Records, commands: Seq<Command>) -> Records {
    Map::new(
        |code: Seq<char>| records.contains_key(code),
        |code: Seq<char>|
            ClipView {
                hits: capped(records[code].hits + total_for(commands, code)),
                ..records[code]
            },
    )
}

/// Counting the commands one by one gives each clip the sum of its views:
/// no view is lost, and a counter never goes down.
pub proof fn lemma_applied_is_tallied(records: Records, commands: Seq<Command>)
    ensures
        applied(records, commands) == tallied(records, commands),
        forall|code: Seq<char>| #[trigger]
            records.contains_key(code) ==> applied(records, commands)[code].hits
                >= records[code].hits,
    decreases commands.len(),
{
    if commands.len() == 0 {
        assert(tallied(records, commands) =~= records);
    } else {
        let front = commands.drop_last();
        let code = commands.last().0;
        let delta = commands.last().1;
        lemma_applied_is_tallied(records, front);
        let before = tallied(records, front);
        let after = counted(before, code, delta);
        assert forall|c: Seq<char>| #[trigger] after.contains_key(c) implies after[c] == tallied(
            records,
            commands,
        )[c] by {
            if c == code {
                assert(after[c] == viewed(before[c], delta));
            }
        }
        assert(after =~= tallied(records, commands));
    }
}

/// No more commands miss their clip than there are commands.
pub proof fn lemma_missed_is_bounded(records: Records, commands: Seq<Command>)
    ensures
        missed(records, commands) <= commands.len(),
    decreases commands.len(),
{
    if commands.len() > 0 {
        lemma_missed_is_bounded(records, commands.drop_last());
    }
}

/// One more view of a clip raises the views that a queue adds up to for it
/// by one, and leaves those of every other clip as they were.
pub proof fn lemma_view_adds_one(commands: Seq<Command>, code: Seq<char>, other: Seq<char>)
    requires
        other != code,
    ensures
        total_for(commands.push((code, 1u32)), code) == total_for(commands, code) + 1,
        total_for(commands.push((code, 1u32)), other) == total_for(commands, other),
{
    assert(commands.push((code, 1u32)).drop_last() =~= commands);
}

/// The views of a clip in two queues, one after the other, add up.
pub proof fn lemma_total_for_concat(first: Seq<Command>, second: Seq<Command>, code: Seq<char>)
    ensures
        total_for(first + second, code) == total_for(first, code) + total_for(second, code),
    decreases second.len(),
{
    if second.len() == 0 {
        assert(first + second =~= first);
    } else {
        assert((first + second).drop_last() =~= first + second.drop_last());
        assert((first + second).last() == second.last());
        lemma_total_for_concat(first, second.drop_last(), code);
    }
}

/// The order in which views are counted does not matter: two batches give
/// the same records whichever of them is counted first.
pub proof fn lemma_order_is_immaterial(records: Records, first: Seq<Command>, second: Seq<Command>)
    ensures
        applied(records, first + second) == applied(records, second + first),
{
    lemma_applied_is_tallied(records, first + second);
    lemma_applied_is_tallied(records, second + first);
    assert forall|code: Seq<char>|
        total_for(first + second, code) == total_for(second + first, code) by {
        lemma_total_for_concat(first, second, code);
        lemma_total_for_concat(second, first, code);
    }
    assert(tallied(records, first + second) =~= tallied(records, second + first));
}

/// A queue of view counts that wait to be written to the store.
pub struct ViewCounter {
    queue: Vec<(ShortCode, u32)>,
}

impl View for ViewCounter {
    type V = Seq<Command>;

    closed spec fn view(&self) -> Seq<Command> {
        commands_of(self.queue@)
    }
}

impl ViewCounter {
    /// A counter with nothing queued.
    pub fn new() -> (counter: Self)
        ensures
            counter@ == Seq::<Command>::empty(),
    {
        let counter = ViewCounter { queue: Vec::new() };
        assert(counter@ =~= Seq::<Command>::empty());
        counter
    }

    /// Queues `count` views of the clip with the given short code. Nothing
    /// is looked up or written here.
    pub fn record_view(&mut self, short_code: ShortCode, count: u32)
        ensures
            final(self)@ == old(self)@.push((short_code@, count)),
    {
        self.queue.push((short_code, count));
        assert(self@ =~= old(self)@.push((short_code@, count)));
    }

    /// The number of queued commands.
    pub fn pending(&self) -> (n: usize)
        ensures
            n == self@.len(),
    {
        self.queue.len()
    }

    /// Writes every queued command to the store, first to last, and leaves
    /// the queue empty. A command whose clip is gone is dropped; the result
    /// says how many were.
    pub fn flush(&mut self, store: &mut ClipStore) -> (dropped: usize)
        ensures
            final(self)@ == Seq::<Command>::empty(),
            final(store)@ == applied(old(store)@, old(self)@),
            dropped == missed(old(store)@, old(self)@),
    {
        let mut queue = Vec::new();
        core::mem::swap(&mut self.queue, &mut queue);
        assert(self@ =~= Seq::<Command>::empty());
        let ghost commands = commands_of(queue@);
        let ghost before = store@;
        let mut dropped: usize = 0;
        let mut i: usize = 0;
        assert(commands.take(0) =~= Seq::<Command>::empty());
        while i < queue.len()
            invariant
                i <= queue@.len(),
                commands == commands_of(queue@),
                store@ == applied(before, commands.take(i as int)),
                dropped == missed(before, commands.take(i as int)),
                dropped <= i,
            decreases queue@.len() - i,
        {
            proof {
                let done = commands.take(i as int);
                let next = commands.take(i + 1);
                assert(next.drop_last() =~= done);
                assert(next.last() == commands[i as int]);
                lemma_applied_keeps_codes(before, done);
                assert(store@.contains_key(commands[i as int].0) == before.contains_key(
                    commands[i as int].0,
                ));
            }
            match store.update_hits(&queue[i].0, queue[i].1) {
                Ok(()) => {},
                Err(_) => {
                    dropped += 1;
                },
            }
            i += 1;
        }
        assert(commands.take(queue@.len() as int) =~= commands);
        dropped
    }
}

/// What a tick of the flusher did.
#[derive(Clone, Copy, Debug, PartialEq, Eq, Structural)]
pub enum Flush {
    /// The queue was written to the store: so many commands were counted
    /// and so many were dropped.
    Flushed { counted: usize, dropped: usize },
    /// No flush was due yet.
    Idle,
    /// The flusher has been stopped.
    Stopped,
}

/// The flusher: it writes the queue of a view counter to the store at a
/// fixed interval. It owns no timer: whoever runs it calls `tick` with the
/// current time, as often as it likes.
#[derive(Debug)]
pub struct Flusher {
    interval: u64,
    due: i64,
    stopped: bool,
}

impl View for Flusher {
    type V = Schedule;

    closed spec fn view(&self) -> Schedule {
        Schedule { interval: self.interval, due: self.due, stopped: self.stopped }
    }
}

impl Flusher {
    /// A running flusher whose first flush is due one interval after `now`.
    pub fn spawn(interval: u64, now: i64) -> (flusher: Self)
        ensures
            flusher@ == (Schedule { interval, due: later(now, interval), stopped: false }),
    {
        Flusher { interval, due: later_than(now, interval), stopped: false }
    }

    /// The state of the flusher.
    pub fn schedule(&self) -> (schedule: Schedule)
        ensures
            schedule == self@,
    {
        Schedule { interval: self.interval, due: self.due, stopped: self.stopped }
    }

    /// Flushes `views` to `store` at the time `now` if a flush is due, and
    /// sets the time of the next. A stopped flusher does nothing.
    pub fn tick(&mut self, views: &mut ViewCounter, store: &mut ClipStore, now: i64) -> (done:
        Flush)
        ensures
            match done {
                Flush::Stopped => {
                    &&& old(self)@.stopped
                    &&& final(self)@ == old(self)@
                    &&& final(views)@ == old(views)@
                    &&& final(store)@ == old(store)@
                },
                Flush::Idle => {
                    &&& !old(self)@.stopped
                    &&& now < old(self)@.due
                    &&& final(self)@ == old(self)@
                    &&& final(views)@ == old(views)@
                    &&& final(store)@ == old(store)@
                },
                Flush::Flushed { counted, dropped } => {
                    &&& !old(self)@.stopped
                    &&& old(self)@.due <= now
                    &&& final(self)@ == (Schedule {
                        due: later(now, old(self)@.interval),
                        ..old(self)@
                    })
                    &&& final(views)@ == Seq::<Command>::empty()
                    &&& final(store)@ == applied(old(store)@, old(views)@)
                    &&& dropped == missed(old(store)@, old(views)@)
                    &&& counted + dropped == old(views)@.len()
                },
            },
    {
        if self.stopped {
            return Flush::Stopped;
        }
        if now < self.due {
            return Flush::Idle;
        }
        let queued = views.pending();
        let dropped = views.flush(store);
        proof {
            lemma_missed_is_bounded(old(store)@, old(views)@);
        }
        self.due = later_than(now, self.interval);
        Flush::Flushed { counted: queued - dropped, dropped }
    }

    /// Stops the flusher: no tick after this one flushes.
    pub fn stop(&mut self)
        ensures
            final(self)@ == (Schedule { stopped: true, ..old(self)@ }),
    {
        self.stopped = true;
    }
}

} // verus!
