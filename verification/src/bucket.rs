//! Admission control: a token bucket shared by every caller of the
//! structured channel.
//!
//! The bucket grants a fixed number of permits per window. When a request
//! arrives after the window has elapsed, the bucket refills and a new
//! window starts at that instant; within a window each grant spends one
//! permit, and a request that finds none left is rejected.

use vstd::prelude::*;
use crate::expiry::TS_MAX;

verus! {

/// Permits granted per window on the structured channel.
pub const RATE_LIMIT_PERMITS: u64 = 5;

/// Length of the admission window, in seconds.
pub const RATE_LIMIT_WINDOW_SECS: i64 = 30;

/// Longest admission window accepted, in seconds (one year).
pub const MAX_WINDOW_SECS: i64 = 31622400;

/// A token bucket: `permits` grants left in the window that began at
/// `window_start`.
pub struct TokenBucket {
    pub capacity: u64,
    pub window_secs: i64,
    pub permits: u64,
    pub window_start: i64,
}

/// The mathematical image of a bucket.
pub ghost struct BucketModel {
    pub capacity: int,
    pub window_secs: int,
    pub permits: int,
    pub window_start: int,
}

impl View for TokenBucket {
    type V = BucketModel;

    open spec fn view(&self) -> BucketModel {
        BucketModel {
            capacity: self.capacity as int,
            window_secs: self.window_secs as int,
            permits: self.permits as int,
            window_start: self.window_start as int,
        }
    }
}

/// Well-formedness of a bucket model.
pub open spec fn bucket_inv(b: BucketModel) -> bool {
    &&& 0 < b.capacity <= u64::MAX
    &&& 0 <= b.permits <= b.capacity
    &&& 0 < b.window_secs <= MAX_WINDOW_SECS
    &&& 0 <= b.window_start <= TS_MAX
}

/// What one admission decision does: refill and restart the window if it
/// has elapsed, then grant a permit if one is left.
pub open spec fn spec_try_acquire(b: BucketModel, now: int) -> (BucketModel, bool) {
    let refilled = if now >= b.window_start + b.window_secs {
        BucketModel { permits: b.capacity, window_start: now, ..b }
    } else {
        b
    };
    if refilled.permits > 0 {
        (BucketModel { permits: refilled.permits - 1, ..refilled }, true)
    } else {
        (refilled, false)
    }
}

impl TokenBucket {
    /// A full bucket whose first window starts at `now`.
    pub fn new(capacity: u64, window_secs: i64, now: i64) -> (r: TokenBucket)
        requires
            0 < capacity,
            0 < window_secs <= MAX_WINDOW_SECS,
            0 <= now <= TS_MAX,
        ensures
            bucket_inv(r@),
            r@.capacity == capacity,
            r@.window_secs == window_secs,
            r@.permits == capacity,
            r@.window_start == now,
    {
        TokenBucket { capacity, window_secs, permits: capacity, window_start: now }
    }

    /// Takes one admission decision at instant `now`.
    pub fn try_acquire(&mut self, now: i64) -> (r: bool)
        requires
            bucket_inv(old(self)@),
            0 <= now <= TS_MAX,
        ensures
            bucket_inv(final(self)@),
            final(self)@ == spec_try_acquire(old(self)@, now as int).0,
            r == spec_try_acquire(old(self)@, now as int).1,
    {
        if now >= self.window_start + self.window_secs {
            self.permits = self.capacity;
            self.window_start = now;
        }
        if self.permits > 0 {
            self.permits = self.permits - 1;
            true
        } else {
            false
        }
    }
}

/// The grant each of a series of requests receives, each decision feeding
/// the bucket the next one sees.
pub open spec fn spec_outcomes(b: BucketModel, times: Seq<int>) -> Seq<bool>
    decreases times.len(),
{
    if times.len() == 0 {
        Seq::empty()
    } else {
        let step = spec_try_acquire(b, times[0]);
        seq![step.1] + spec_outcomes(step.0, times.drop_first())
    }
}

/// Within one window the bucket's budget is exact: of any series of
/// requests at instants inside the current window, the first `permits`
/// are granted and every later one is rejected.
pub proof fn lemma_window_budget(b: BucketModel, times: Seq<int>)
    requires
        bucket_inv(b),
        forall|i: int|
            0 <= i < times.len() ==> b.window_start <= #[trigger] times[i] < b.window_start
                + b.window_secs,
    ensures
        spec_outcomes(b, times).len() == times.len(),
        forall|i: int| 0 <= i < times.len() ==> (spec_outcomes(b, times)[i] <==> i < b.permits),
    decreases times.len(),
{
    if times.len() > 0 {
        let step = spec_try_acquire(b, times[0]);
        assert(step.0.window_start == b.window_start);
        assert forall|i: int| 0 <= i < times.drop_first().len() implies step.0.window_start
            <= #[trigger] times.drop_first()[i] < step.0.window_start + step.0.window_secs by {
            assert(times.drop_first()[i] == times[i + 1]);
        }
        lemma_window_budget(step.0, times.drop_first());
        assert forall|i: int| 0 <= i < times.len() implies (spec_outcomes(b, times)[i] <==> i
            < b.permits) by {
            if i > 0 {
                assert(spec_outcomes(b, times)[i] == spec_outcomes(step.0, times.drop_first())[
                    i - 1]);
            }
        }
    }
}

} // verus!
