//! Fixed-point progress fractions.
//!
//! A fraction in `[0.0, 1.0]` is carried as a `u32` in
//! `[0, PROGRESS_SCALE]`: the value `u` stands for `u / PROGRESS_SCALE`.
//! An embedding divides by the scale where its progress display wants a
//! floating-point number.

use vstd::prelude::*;
use vstd::arithmetic::div_mod::lemma_div_is_ordered;
use vstd::arithmetic::div_mod::lemma_div_is_ordered_by_denominator;
use vstd::arithmetic::div_mod::lemma_div_by_multiple;
use vstd::arithmetic::mul::lemma_mul_inequality;
use vstd::arithmetic::mul::lemma_mul_is_commutative;

verus! {

/// Denominator of all progress fractions: this value stands for 1.0.
pub const PROGRESS_SCALE: u32 = 10000;

/// The fraction reported for `received` units out of `total` known units,
/// clamped to at most the whole: `min(received, total) * PROGRESS_SCALE / total`.
/// An unknown total (0) reports no progress by this formula.
pub open spec fn known_total_fraction(received: u64, total: u64) -> int {
    if total == 0 {
        0
    } else {
        (if received <= total {
            received as int
        } else {
            total as int
        }) * (PROGRESS_SCALE as int) / (total as int)
    }
}

/// Turns byte (or entry) counts into a progress fraction, clamping overshoot
/// at the whole.
pub fn fraction_of(received: u64, total: u64) -> (r: u32)
    ensures
        r == known_total_fraction(received, total),
        r <= PROGRESS_SCALE,
        total > 0 && received >= total ==> r == PROGRESS_SCALE,
{
    if total == 0 {
        return 0;
    }
    let done: u64 = if received <= total {
        received
    } else {
        total
    };
    proof {
        lemma_mul_inequality(done as int, u64::MAX as int, PROGRESS_SCALE as int);
    }
    let num: u128 = (done as u128) * (PROGRESS_SCALE as u128);
    let q: u128 = num / (total as u128);
    proof {
        lemma_mul_inequality(done as int, total as int, PROGRESS_SCALE as int);
        lemma_div_is_ordered(
            done as int * PROGRESS_SCALE as int,
            total as int * PROGRESS_SCALE as int,
            total as int,
        );
        lemma_mul_is_commutative(total as int, PROGRESS_SCALE as int);
        lemma_div_by_multiple(PROGRESS_SCALE as int, total as int);
    }
    q as u32
}

/// A fraction that is larger the more units arrived yet always short of the
/// whole, for downloads whose total size is unknown.
pub open spec fn open_total_fraction(steps: u64) -> int {
    PROGRESS_SCALE as int - shrinking_share(steps)
}

/// The part still held back after `steps` units: at least 1, so the reported
/// fraction stays below the whole.
pub open spec fn shrinking_share(steps: u64) -> int {
    let q = PROGRESS_SCALE as int / bumped(steps);
    if q < 1 {
        1
    } else {
        q
    }
}

/// `steps + 1`, saturating at the type's maximum.
pub open spec fn bumped(steps: u64) -> int {
    if steps == u64::MAX {
        steps as int
    } else {
        steps as int + 1
    }
}

/// Turns a count of received units into a progress fraction when the total is
/// unknown: monotone in the count and always strictly below the whole.
pub fn open_fraction_of(steps: u64) -> (r: u32)
    ensures
        r == open_total_fraction(steps),
        r < PROGRESS_SCALE,
{
    let denom: u64 = if steps == u64::MAX {
        steps
    } else {
        steps + 1
    };
    let q: u64 = (PROGRESS_SCALE as u64) / denom;
    let held: u64 = if q < 1 {
        1
    } else {
        q
    };
    PROGRESS_SCALE - (held as u32)
}

/// With a known total, more received units never report a smaller fraction.
pub proof fn lemma_known_total_fraction_monotone(a: u64, b: u64, total: u64)
    requires
        a <= b,
    ensures
        known_total_fraction(a, total) <= known_total_fraction(b, total),
{
    if total > 0 {
        let ma = if a <= total {
            a as int
        } else {
            total as int
        };
        let mb = if b <= total {
            b as int
        } else {
            total as int
        };
        lemma_mul_inequality(ma, mb, PROGRESS_SCALE as int);
        lemma_div_is_ordered(
            ma * PROGRESS_SCALE as int,
            mb * PROGRESS_SCALE as int,
            total as int,
        );
    }
}

/// With an unknown total, more received units never report a smaller
/// fraction.
pub proof fn lemma_open_total_fraction_monotone(a: u64, b: u64)
    requires
        a <= b,
    ensures
        open_total_fraction(a) <= open_total_fraction(b),
{
    lemma_div_is_ordered_by_denominator(PROGRESS_SCALE as int, bumped(a), bumped(b));
}

} // verus!
