//! The expiry calculator: a paste's lifetime shrinks as its content grows.
//!
//! Retention follows a cubic curve through a pivot size of 4096 bytes:
//! 365 days for empty content, 30 days at the pivot. Past the pivot the
//! curve keeps falling, so oversized content gets a negative lifetime and
//! the paste is born expired; that edge is reproduced here unclamped, as
//! the retention policy defines it.

use vstd::prelude::*;
use vstd::arithmetic::div_mod::lemma_div_is_ordered;
use vstd::string::StringSliceAdditionalSpecFns;

verus! {

/// Retention at the pivot size, in days.
pub const MIN_AGE_DAYS: i64 = 30;

/// Retention for empty content, in days.
pub const MAX_AGE_DAYS: i64 = 365;

/// Content size at which retention bottoms out on the nominal curve.
pub const SIZE_PIVOT: usize = 4096;

/// Largest content size the calculator accepts; keeps the cubic term and
/// the resulting timestamp arithmetic inside fixed-width integers.
pub const MAX_CONTENT_SIZE: usize = 131072;

/// Latest creation instant accepted, in seconds since the epoch
/// (the last second of year 9999).
pub const TS_MAX: i64 = 253402300799;

/// Every expiry timestamp stays within this many seconds of the epoch.
pub const TS_RANGE: i64 = 2000000000000;

pub const SECS_PER_DAY: i64 = 86400;

/// Days a paste of `size` bytes is retained:
/// `min_age + (min_age - max_age) * ((size / 4096 - 1)^3)`, evaluated
/// exactly over the rationals and truncated toward zero.
pub open spec fn spec_retention_days(size: int) -> int {
    if size <= 4096 {
        let d = 4096 - size;
        30 + (335 * d * d * d) / 68719476736
    } else {
        let d = size - 4096;
        30 - (335 * d * d * d) / 68719476736
    }
}

/// Bounds for the partial products of the cubic term, so that the
/// fixed-width evaluation is known not to overflow.
proof fn lemma_cube_bounds(d: int, hi: int)
    by (nonlinear_arith)
    requires
        0 <= d <= hi,
    ensures
        0 <= 335 * d <= 335 * hi,
        0 <= 335 * d * d <= 335 * hi * hi,
        0 <= 335 * d * d * d <= 335 * hi * hi * hi,
{
}

/// Days a paste of `size` bytes is retained.
pub fn retention_days(size: usize) -> (r: i64)
    requires
        size <= MAX_CONTENT_SIZE,
    ensures
        r == spec_retention_days(size as int),
        -10000000 <= r <= 365,
{
    if size <= 4096 {
        let d: i128 = 4096 - size as i128;
        proof {
            lemma_cube_bounds(d as int, 4096);
        }
        let num: i128 = 335 * d * d * d;
        proof {
            lemma_div_is_ordered(0, num as int, 68719476736);
            lemma_div_is_ordered(num as int, (335 * 4096 * 4096 * 4096) as int, 68719476736);
        }
        let q: i128 = num / 68719476736;
        30 + q as i64
    } else {
        let d: i128 = size as i128 - 4096;
        proof {
            lemma_cube_bounds(d as int, 126976);
        }
        let num: i128 = 335 * d * d * d;
        proof {
            lemma_div_is_ordered(0, num as int, 68719476736);
            lemma_div_is_ordered(num as int, (335 * 126976 * 126976 * 126976) as int, 68719476736);
            assert(335 * 126976 * 126976 * 126976 / 68719476736 < 10000000);
        }
        let q: i128 = num / 68719476736;
        30 - q as i64
    }
}

/// The instant a paste of `size` bytes created at `now` expires.
pub open spec fn spec_expiry(size: int, now: int) -> int {
    now + spec_retention_days(size) * 86400
}

/// Computes the expiry timestamp for `content` created at `now`
/// (both in seconds since the epoch).
pub fn compute_expiry_date(content: &str, now: i64) -> (r: i64)
    requires
        content.spec_bytes().len() <= MAX_CONTENT_SIZE,
        0 <= now <= TS_MAX,
    ensures
        r == spec_expiry(content.spec_bytes().len() as int, now as int),
        -TS_RANGE <= r <= TS_RANGE,
{
    let size = content.len();
    let days = retention_days(size);
    now + days * SECS_PER_DAY
}

/// Retention never grows with content size: on `[0, 4096]` the curve is
/// monotonically non-increasing.
pub proof fn lemma_retention_monotonic(s1: int, s2: int)
    requires
        0 <= s1 <= s2 <= 4096,
    ensures
        spec_retention_days(s2) <= spec_retention_days(s1),
{
    let d1 = 4096 - s1;
    let d2 = 4096 - s2;
    assert(335 * d2 * d2 * d2 <= 335 * d1 * d1 * d1) by (nonlinear_arith)
        requires 0 <= d2 <= d1;
    lemma_div_is_ordered(335 * d2 * d2 * d2, 335 * d1 * d1 * d1, 68719476736);
}

/// The endpoints of the curve: empty content lives 365 days, content at
/// the pivot size lives 30 days.
pub proof fn lemma_retention_endpoints()
    ensures
        spec_retention_days(0) == MAX_AGE_DAYS as int,
        spec_retention_days(SIZE_PIVOT as int) == MIN_AGE_DAYS as int,
{
    assert((335 * 4096 * 4096 * 4096) / 68719476736 == 335);
    assert((335 * 0 * 0 * 0) / 68719476736 == 0);
}

/// Expiry timestamps inherit both properties: for content sizes in
/// `[0, 4096]` the expiry instant is monotonically non-increasing in the
/// size, empty content expires 365 days after `now`, and content of the
/// pivot size expires 30 days after `now`.
pub proof fn lemma_expiry_curve(now: int, s1: int, s2: int)
    requires
        0 <= s1 <= s2 <= 4096,
    ensures
        spec_expiry(s2, now) <= spec_expiry(s1, now),
        spec_expiry(0, now) == now + MAX_AGE_DAYS * 86400,
        spec_expiry(SIZE_PIVOT as int, now) == now + MIN_AGE_DAYS * 86400,
{
    lemma_retention_monotonic(s1, s2);
    lemma_retention_endpoints();
}

} // verus!
