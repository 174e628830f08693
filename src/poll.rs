use vstd::prelude::*;

verus! {

/// The time from `from` to `to`, or zero where `to` is the earlier reading.
pub open spec fn elapsed(from: u64, to: u64) -> int {
    if to >= from {
        to - from
    } else {
        0
    }
}

/// A timer that says when a periodic task is due, on a monotonic clock read
/// in milliseconds by the caller.
pub struct Poll {
    last_poll: u64,
    interval: u64,
}

impl Poll {
    /// The clock reading at which the task last ran (or the timer started).
    pub closed spec fn last(&self) -> u64 {
        self.last_poll
    }

    /// The least time between two runs, in milliseconds.
    pub closed spec fn period(&self) -> u64 {
        self.interval
    }

    /// A timer with period `interval` started at clock reading `now`.
    pub fn new(interval: u64, now: u64) -> (r: Poll)
        ensures
            r.last() == now,
            r.period() == interval,
    {
        Poll { last_poll: now, interval }
    }

    /// Whether the task is due at clock reading `now`: at least a period has
    /// passed since the last run (a reading before it counts as no time
    /// passed). When it is due, `now` becomes the last run.
    pub fn poll(&mut self, now: u64) -> (due: bool)
        ensures
            due == (elapsed(old(self).last(), now) >= old(self).period()),
            final(self).period() == old(self).period(),
            final(self).last() == if due { now } else { old(self).last() },
    {
        let elapsed = if now >= self.last_poll { now - self.last_poll } else { 0 };
        if elapsed >= self.interval {
            self.last_poll = now;
            true
        } else {
            false
        }
    }
}

} // verus!
