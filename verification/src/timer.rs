//! Drift-free periodic timer. Each deadline is computed from the previous
//! deadline plus the interval, never from "now", so jitter in individual
//! wakes does not compound across iterations.

use vstd::prelude::*;

verus! {

/// A recurring deadline generator. All times are in milliseconds on a
/// monotonic clock supplied by the caller.
#[derive(Clone, Copy, PartialEq, Eq, Structural, Debug)]
pub struct Timer {
    /// The configured interval between fires; always positive.
    pub interval_ms: u64,
    /// The instant the timer was armed.
    pub origin: u64,
    /// How many times the timer has fired so far.
    pub fires: u64,
    /// The instant the timer is next due.
    pub deadline: u64,
}

impl Timer {
    /// The deadline is always anchored to the origin: after `fires` fires it
    /// stands exactly `(fires + 1) * interval_ms` past the origin, so no
    /// per-wake jitter ever accumulates into the schedule.
    pub open spec fn wf(self) -> bool {
        &&& self.interval_ms >= 1
        &&& self.deadline == self.origin + (self.fires + 1) * self.interval_ms
    }

    /// Arms a timer at instant `now` with a positive interval.
    pub fn new(now: u64, interval_ms: u64) -> (t: Timer)
        requires
            interval_ms >= 1,
            now + interval_ms <= u64::MAX,
        ensures
            t.wf(),
            t.origin == now,
            t.interval_ms == interval_ms,
            t.fires == 0,
            t.deadline == now + interval_ms,
    {
        let t = Timer { interval_ms, origin: now, fires: 0, deadline: now + interval_ms };
        proof {
            assert((0 + 1) * (interval_ms as int) == interval_ms as int) by (nonlinear_arith);
        }
        t
    }

    /// Whether the timer is due at instant `now`.
    pub fn is_due(&self, now: u64) -> (r: bool)
        ensures
            r == (now >= self.deadline),
    {
        now >= self.deadline
    }

    /// Records one fire and advances the deadline by exactly one interval
    /// from the previous deadline, keeping the schedule anchored to the
    /// origin.
    pub fn fire(&mut self)
        requires
            old(self).wf(),
            old(self).deadline + old(self).interval_ms <= u64::MAX,
        ensures
            final(self).wf(),
            final(self).interval_ms == old(self).interval_ms,
            final(self).origin == old(self).origin,
            final(self).fires == old(self).fires + 1,
            final(self).deadline == old(self).deadline + old(self).interval_ms,
    {
        proof {
            let iv: int = self.interval_ms as int;
            let og: int = self.origin as int;
            let fs: int = self.fires as int;
            let dl: int = self.deadline as int;
            assert(fs < u64::MAX && dl + iv == og + (fs + 2) * iv) by (nonlinear_arith)
                requires
                    iv >= 1,
                    fs >= 0,
                    og >= 0,
                    dl == og + (fs + 1) * iv,
                    dl + iv <= u64::MAX,
            ;
        }
        self.fires = self.fires + 1;
        self.deadline = self.deadline + self.interval_ms;
    }

    /// The schedule is drift-free: after any number of fires, the time
    /// elapsed from the origin to the current deadline is exactly
    /// `(fires + 1) * interval_ms` — within one interval's tolerance of
    /// `fires * interval_ms`, with no cumulative drift.
    pub proof fn lemma_drift_free(self)
        requires
            self.wf(),
        ensures
            self.deadline - self.origin == (self.fires + 1) * self.interval_ms,
            self.deadline - self.origin - self.fires * self.interval_ms == self.interval_ms,
    {
        assert((self.fires + 1) * self.interval_ms
            == self.fires * self.interval_ms + self.interval_ms) by (nonlinear_arith);
    }
}

} // verus!
