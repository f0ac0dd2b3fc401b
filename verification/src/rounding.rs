//! Rounding of exact fractions to whole grid cells.
//!
//! Rotation centers live on half-cell positions, so every quantity that has
//! to land back on the integer grid is an exact fraction `num / den`. The
//! rounding convention is: a fractional part strictly greater than one half
//! rounds away from zero, anything else (a half exactly included) rounds
//! toward zero.

use vstd::prelude::*;

verus! {

/// The rounding convention on the exact fraction `num / den`: fractional
/// parts above one half round away from zero, all others (ties included)
/// round toward zero.
pub open spec fn spec_round_frac(num: int, den: int) -> int
    recommends
        den > 0,
{
    let mag = if num >= 0 {
        num
    } else {
        -num
    };
    let q = mag / den;
    let r = mag % den;
    let rounded_mag = if 2 * r > den {
        q + 1
    } else {
        q
    };
    if num >= 0 {
        rounded_mag
    } else {
        -rounded_mag
    }
}

/// Rounds the fraction `num / den` to a whole number of cells, ties toward
/// zero: 1/2 gives 0, 6/10 gives 1, 2/2 gives 1, -1/2 gives 0.
pub fn round_frac(num: i32, den: i32) -> (r: i32)
    requires
        den > 0,
        num > i32::MIN,
    ensures
        r == spec_round_frac(num as int, den as int),
{
    let mag: i32 = if num >= 0 {
        num
    } else {
        -num
    };
    let q: i32 = mag / den;
    let rem: i32 = mag % den;
    // `rem > den - rem` is `2 * rem > den` without the doubling overflowing.
    let rounded_mag: i32 = if rem > den - rem {
        proof {
            // The branch forces den >= 2, so the quotient is at most half of
            // i32::MAX and adding one cannot overflow.
            assert(q < i32::MAX) by (nonlinear_arith)
                requires
                    q == mag as int / den as int,
                    0 <= mag <= i32::MAX,
                    den >= 2,
            ;
        }
        q + 1
    } else {
        q
    };
    if num >= 0 {
        rounded_mag
    } else {
        -rounded_mag
    }
}

} // verus!
