//! The process-wide request sequence counter, modelled as a value that only
//! ever moves forward.
//!
//! The counter starts at zero when the process starts and grows by exactly
//! one per received request, whatever the validation outcome. The type
//! offers no operation that decrements or resets it.

use vstd::prelude::*;

verus! {

/// A monotone request counter. The count is reachable only through
/// [`RequestCounter::new`], [`RequestCounter::record_request`] and
/// [`RequestCounter::current`], so it can never decrease.
pub struct RequestCounter {
    c: u64,
}

impl RequestCounter {
    /// The number of requests recorded so far.
    pub closed spec fn count(self) -> u64 {
        self.c
    }

    /// A fresh counter, as at process start: no request seen yet.
    pub fn new() -> (r: RequestCounter)
        ensures
            r.count() == 0,
    {
        RequestCounter { c: 0 }
    }

    /// Records one received request and returns its 1-based ordinal. The
    /// count grows by exactly one, never by more, never by less.
    pub fn record_request(&mut self) -> (ordinal: u64)
        requires
            old(self).count() < u64::MAX,
        ensures
            final(self).count() == old(self).count() + 1,
            ordinal == final(self).count(),
    {
        self.c = self.c + 1;
        self.c
    }

    /// Reads the count without changing it.
    pub fn current(&self) -> (r: u64)
        ensures
            r == self.count(),
    {
        self.c
    }
}

} // verus!
