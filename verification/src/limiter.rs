//! Request pacing: the decision half of the rate limiter.
//!
//! One client serializes its outgoing requests and spaces their starts by a
//! configured minimum interval. The host program owns the lock and the clock
//! and does the sleeping; this module decides, from the recorded previous
//! start and the current time, when the next request may start, and records
//! it. Times are plain clock readings (for instance milliseconds since the
//! client was built) that never decrease between calls.

use vstd::prelude::*;

verus! {

/// The moment the next request may start: immediately at `now`, or, when a
/// previous start is recorded, no earlier than one interval after it.
pub open spec fn start_of(prev: Option<int>, now: u64, interval: u64) -> int {
    match prev {
        None => now as int,
        Some(l) => if now as int >= l + interval {
            now as int
        } else {
            l + interval
        },
    }
}

/// A recorded previous start, as the mathematical time it stands for.
pub open spec fn recorded_start(prev: Option<u64>) -> Option<int> {
    match prev {
        None => None,
        Some(l) => Some(l as int),
    }
}

/// The starts granted to a sequence of acquisitions arriving at the given
/// times, each seeing the start recorded by the one before it.
pub open spec fn starts_of(nows: Seq<u64>, interval: u64) -> Seq<int>
    decreases nows.len(),
{
    if nows.len() == 0 {
        Seq::empty()
    } else {
        let init = starts_of(nows.drop_last(), interval);
        let prev = if init.len() == 0 {
            None
        } else {
            Some(init.last())
        };
        init.push(start_of(prev, nows.last(), interval))
    }
}

/// As many starts are granted as acquisitions arrive.
pub proof fn lemma_starts_len(nows: Seq<u64>, interval: u64)
    ensures
        starts_of(nows, interval).len() == nows.len(),
    decreases nows.len(),
{
    if nows.len() > 0 {
        lemma_starts_len(nows.drop_last(), interval);
    }
}

/// Law: for every configured interval and however many acquisitions one
/// client serves, each granted start is at least the interval after the one
/// granted before it.
pub proof fn lemma_rate_limit_spacing(nows: Seq<u64>, interval: u64, k: int)
    requires
        0 <= k,
        k + 1 < starts_of(nows, interval).len(),
    ensures
        starts_of(nows, interval)[k + 1] >= starts_of(nows, interval)[k] + interval,
    decreases nows.len(),
{
    lemma_starts_len(nows, interval);
    let init = starts_of(nows.drop_last(), interval);
    lemma_starts_len(nows.drop_last(), interval);
    if k + 2 == nows.len() {
        assert(starts_of(nows, interval)[k] == init.last());
    } else {
        lemma_rate_limit_spacing(nows.drop_last(), interval, k);
        assert(starts_of(nows, interval)[k] == init[k]);
        assert(starts_of(nows, interval)[k + 1] == init[k + 1]);
    }
}

/// The pacing state of one client: when the previous request started, or
/// nothing before the first request. The host guards it with the client's
/// lock; everything under the lock is decided here.
#[derive(Debug, Clone, Copy)]
pub struct RateLimitState {
    /// The recorded start of the previous request.
    pub last_start: Option<u64>,
}

impl RateLimitState {
    /// The state of a client that has not sent a request yet.
    pub fn new() -> (s: Self)
        ensures
            s.last_start is None,
    {
        RateLimitState { last_start: None }
    }

    /// Grants the next request start: returns how long the caller must still
    /// wait from `now` before starting, and records the granted start.
    /// Consecutive recorded starts are spaced by at least the interval.
    pub fn acquire_at(&mut self, now: u64, interval: u64) -> (delay: u64)
        requires
            old(self).last_start matches Some(l) ==> l + interval <= u64::MAX,
        ensures
            final(self).last_start matches Some(st) && st as int == start_of(
                recorded_start(old(self).last_start),
                now,
                interval,
            ),
            delay as int == start_of(recorded_start(old(self).last_start), now, interval) - now,
            old(self).last_start matches Some(l) ==> start_of(recorded_start(old(self).last_start), now, interval)
                >= l + interval,
    {
        let start: u64 = match self.last_start {
            None => now,
            Some(l) => {
                let target = l + interval;
                if now >= target {
                    now
                } else {
                    target
                }
            },
        };
        let delay = start - now;
        self.last_start = Some(start);
        delay
    }
}

} // verus!
