//! The countdown timer: a future that completes once its requested
//! duration has elapsed. The background thread that sleeps and then fires
//! is modeled by an explicit fire instant, never earlier than the deadline.

use vstd::prelude::*;

verus! {

/// One timer: started at a known instant for a requested duration; the
/// shared slot holds the fire instant once the background thread fired.
pub struct Timer {
    pub started_at_ms: u64,
    pub duration_ms: u64,
    pub fired_at_ms: Option<u64>,
}

impl Timer {
    /// A fired timer never fired before its deadline.
    pub open spec fn wf(&self) -> bool {
        match self.fired_at_ms {
            Some(t) => t >= self.started_at_ms + self.duration_ms,
            None => true,
        }
    }

    /// Start a timer of `duration_ms` at instant `now_ms`.
    pub fn new(now_ms: u64, duration_ms: u64) -> (t: Timer)
        requires
            now_ms + duration_ms <= u64::MAX,
        ensures
            t.wf(),
            t.started_at_ms == now_ms,
            t.duration_ms == duration_ms,
            t.fired_at_ms is None,
    {
        Timer { started_at_ms: now_ms, duration_ms, fired_at_ms: None }
    }

    /// The background thread fires the timer at instant `now_ms`, after
    /// sleeping for at least the requested duration.
    pub fn fire(&mut self, now_ms: u64)
        requires
            old(self).wf(),
            now_ms >= old(self).started_at_ms + old(self).duration_ms,
        ensures
            final(self).wf(),
            final(self).started_at_ms == old(self).started_at_ms,
            final(self).duration_ms == old(self).duration_ms,
            final(self).fired_at_ms == Some(now_ms),
    {
        self.fired_at_ms = Some(now_ms);
    }

    /// One non-blocking check: the fire instant once the timer has fired,
    /// or nothing yet, in which case the caller registers its wake-handle.
    /// A completed timer always observed at least its requested duration
    /// elapse.
    pub fn poll(&self) -> (r: Option<u64>)
        requires
            self.wf(),
        ensures
            r == self.fired_at_ms,
            r matches Some(t) ==> t - self.started_at_ms >= self.duration_ms,
    {
        self.fired_at_ms
    }
}

} // verus!
