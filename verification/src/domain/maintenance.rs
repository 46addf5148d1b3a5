//! The maintenance sweeper: expired clips are deleted at a fixed interval.

use crate::data::{expired_codes, swept, ClipStore};
use vstd::prelude::*;

verus! {

/// The interval between two sweeps, in seconds, where none is chosen.
pub const DEFAULT_INTERVAL: u64 = 10;

/// The state of a sweeper. Times are seconds since the Unix epoch, UTC.
#[derive(Clone, Copy, Debug, PartialEq, Eq, Structural)]
pub struct Schedule {
    /// Seconds between two sweeps.
    pub interval: u64,
    /// The time from which the next sweep is due.
    pub due: i64,
    /// Whether the sweeper has been told to stop.
    pub stopped: bool,
}

/// What a tick of the sweeper did.
#[derive(Clone, Copy, Debug, PartialEq, Eq, Structural)]
pub enum Tick {
    /// A sweep ran and deleted so many clips.
    Swept(usize),
    /// No sweep was due yet.
    Idle,
    /// The sweeper has been stopped.
    Stopped,
}

/// The time `interval` seconds after `now`, or the last time that a
/// timestamp can hold where that would lie beyond it.
pub open spec fn later(now: i64, interval: u64) -> i64 {
    if now + interval > i64::MAX {
        i64::MAX
    } else {
        (now + interval) as i64
    }
}

/// Computes the time `interval` seconds after `now`, stopping at the last
/// time that a timestamp can hold.
pub fn later_than(now: i64, interval: u64) -> (at: i64)
    ensures
        at == later(now, interval),
{
    let at: i128 = now as i128 + interval as i128;
    if at > i64::MAX as i128 {
        i64::MAX
    } else {
        at as i64
    }
}

/// The sweeper. It owns no timer: whoever runs it calls `tick` with the
/// current time, as often as it likes.
#[derive(Debug)]
pub struct Maintenance {
    interval: u64,
    due: i64,
    stopped: bool,
}

impl View for Maintenance {
    type V = Schedule;

    closed spec fn view(&self) -> Schedule {
        Schedule { interval: self.interval, due: self.due, stopped: self.stopped }
    }
}

impl Maintenance {
    /// A running sweeper whose first sweep is due at once.
    pub fn spawn(interval: u64, now: i64) -> (sweeper: Self)
        ensures
            sweeper@ == (Schedule { interval, due: now, stopped: false }),
    {
        Maintenance { interval, due: now, stopped: false }
    }

    /// The state of the sweeper.
    pub fn schedule(&self) -> (schedule: Schedule)
        ensures
            schedule == self@,
    {
        Schedule { interval: self.interval, due: self.due, stopped: self.stopped }
    }

    /// Runs a sweep at the time `now` if one is due, and sets the time of the
    /// next. A stopped sweeper does nothing.
    pub fn tick(&mut self, store: &mut ClipStore, now: i64) -> (done: Tick)
        ensures
            match done {
                Tick::Stopped => {
                    &&& old(self)@.stopped
                    &&& final(self)@ == old(self)@
                    &&& final(store)@ == old(store)@
                },
                Tick::Idle => {
                    &&& !old(self)@.stopped
                    &&& now < old(self)@.due
                    &&& final(self)@ == old(self)@
                    &&& final(store)@ == old(store)@
                },
                Tick::Swept(count) => {
                    &&& !old(self)@.stopped
                    &&& old(self)@.due <= now
                    &&& final(self)@ == (Schedule {
                        due: later(now, old(self)@.interval),
                        ..old(self)@
                    })
                    &&& final(store)@ == swept(old(store)@, now)
                    &&& count == expired_codes(old(store)@, now).len()
                },
            },
    {
        if self.stopped {
            return Tick::Stopped;
        }
        if now < self.due {
            return Tick::Idle;
        }
        let count = match store.delete_expired(now) {
            Ok(count) => count,
            Err(_) => 0,
        };
        self.due = later_than(now, self.interval);
        Tick::Swept(count)
    }

    /// Stops the sweeper: no tick after this one sweeps.
    pub fn stop(&mut self)
        ensures
            final(self)@ == (Schedule { stopped: true, ..old(self)@ }),
    {
        self.stopped = true;
    }
}

} // verus!
