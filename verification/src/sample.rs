//! Uniform-range randomization policy.
//!
//! All random draws in the crate go through one trusted wrapper around
//! the `rand` crate. The policy layered on top is verified: empty scalar
//! ranges collapse to their start, palette draws never repeat the
//! current index (for two or more palettes), and integer step ranges are
//! widened before sampling so the sampler never sees an empty range.

use rand::Rng;
use vstd::prelude::*;

use crate::num::{val_ok, VAL_MAX};

verus! {

/// What a draw from `lo..hi` may be: any value of a non-empty range,
/// and exactly `lo` when the range is empty or inverted.
pub open spec fn sampled_from(r: int, lo: int, hi: int) -> bool {
    if lo < hi {
        lo <= r < hi
    } else {
        r == lo
    }
}

/// The widened end of an integer range: an empty or inverted range is
/// repaired to hold exactly one value.
pub open spec fn widened_end(lo: int, hi: int) -> int {
    if hi <= lo {
        lo + 1
    } else {
        hi
    }
}

/// Relies on `rand::Rng::gen_range` on the thread-local generator: for a
/// non-empty integer range `lo..hi` it returns a value in `[lo, hi)`
/// (and panics on an empty range, which the precondition rules out).
#[verifier::external_body]
fn rand_in_range(lo: i64, hi: i64) -> (r: i64)
    requires
        lo < hi,
    ensures
        lo <= r < hi,
{
    rand::thread_rng().gen_range(lo..hi)
}

/// Draws a scalar uniformly from `[lo, hi)`. An empty or inverted range
/// yields its start value instead of faulting.
pub fn sample_range(lo: i64, hi: i64) -> (r: i64)
    ensures
        sampled_from(r as int, lo as int, hi as int),
{
    if lo < hi {
        rand_in_range(lo, hi)
    } else {
        lo
    }
}

/// Draws a palette index in `[0, count)` that differs from the current
/// one whenever there are at least two palettes: a draw that hits the
/// current index is bumped to the next index, wrapping at `count`. The
/// bump makes the successor of the current index twice as likely as the
/// other alternatives; the draw is deliberately change-guaranteeing, not
/// uniform.
pub fn sample_palette_excluding(current: i64, count: i64) -> (r: i64)
    requires
        1 <= count <= VAL_MAX,
    ensures
        0 <= r < count,
        count >= 2 ==> r != current,
{
    let draw = rand_in_range(0, count);
    if draw == current {
        if draw + 1 == count {
            0
        } else {
            draw + 1
        }
    } else {
        draw
    }
}

/// Widens an integer range so it holds at least one value: an end at or
/// below the start becomes `start + 1`. A second application changes
/// nothing.
pub fn normalize_int_range(lo: i64, hi: i64) -> (r: (i64, i64))
    requires
        val_ok(lo as int),
        val_ok(hi as int),
    ensures
        r.0 == lo,
        r.1 == widened_end(lo as int, hi as int),
        r.0 < r.1,
{
    if hi <= lo {
        (lo, lo + 1)
    } else {
        (lo, hi)
    }
}

/// Widening is idempotent: a widened range is left as it is.
pub proof fn lemma_widen_idempotent(lo: int, hi: int)
    ensures
        widened_end(lo, widened_end(lo, hi)) == widened_end(lo, hi),
{
}

/// Draws an integer uniformly from the non-empty range `[lo, hi)`.
/// Callers repair a possibly empty range with `normalize_int_range`
/// first.
pub fn sample_int_range(lo: i64, hi: i64) -> (r: i64)
    requires
        lo < hi,
    ensures
        lo <= r < hi,
{
    rand_in_range(lo, hi)
}

} // verus!
