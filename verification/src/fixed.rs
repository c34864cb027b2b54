//! Fixed-point scalars.
//!
//! Lengths are stored in thousandths of a world unit and times in
//! thousandths of a second, so `SCALE` stands for one unit (or one second).
//! Division always truncates toward zero, exactly as machine division does.

use vstd::prelude::*;
use vstd::arithmetic::div_mod::{lemma_div_is_ordered, lemma_div_pos_is_pos};

verus! {

/// Fixed-point scale: this many stored ticks make one world unit or second.
pub const SCALE: i64 = 1000;

/// Downward gravity, in thousandths of a unit per second squared (9.82 u/s^2).
pub const GRAVITY_Y: i64 = 9820;

/// Acceleration applied by held direction keys, and the magnitude of the jump
/// impulse, in thousandths of a unit per second squared (10 u/s^2).
pub const SPEED: i64 = 10000;

/// Largest time delta one update accepts: ten seconds.
pub const DT_LIMIT: i64 = 10000;

/// Largest magnitude of a coordinate or velocity component accepted at the
/// start of an update; keeps every intermediate product inside `i64`.
pub const COORD_LIMIT: i64 = 1_000_000_000_000;

/// How the renderer scales world units to pixels.
pub const PIXELS_PER_UNIT: i64 = 32;

/// Division truncating toward zero, the semantics of `/` on `i64`.
pub open spec fn div_t(a: int, d: int) -> int {
    if a >= 0 {
        a / d
    } else {
        -((-a) / d)
    }
}

/// The sign of `a`: -1, 0 or 1.
pub open spec fn sign(a: int) -> int {
    if a > 0 {
        1
    } else if a < 0 {
        -1
    } else {
        0
    }
}

/// A quotient is no larger in magnitude than any bound on the dividend,
/// shrunk by the divisor.
pub proof fn lemma_div_t_abs_le(a: int, d: int, b: int)
    requires
        0 < d,
        0 <= b,
        -b <= a <= b,
    ensures
        -(b / d) <= div_t(a, d) <= b / d,
{
    if a >= 0 {
        lemma_div_pos_is_pos(a, d);
        lemma_div_is_ordered(a, b, d);
    } else {
        lemma_div_pos_is_pos(-a, d);
        lemma_div_is_ordered(-a, b, d);
    }
}

/// Truncating division by a positive divisor.
pub fn div_fix(a: i64, d: i64) -> (r: i64)
    requires
        0 < d,
        i64::MIN < a,
    ensures
        r == div_t(a as int, d as int),
        a >= 0 ==> 0 <= r <= a,
        a < 0 ==> a <= r <= 0,
{
    proof {
        if a >= 0 {
            lemma_div_pos_is_pos(a as int, d as int);
            lemma_div_is_ordered(a as int, a as int, d as int);
            assert(a as int / d as int <= a as int) by {
                vstd::arithmetic::div_mod::lemma_div_nonincreasing(a as int, d as int);
            }
        } else {
            lemma_div_pos_is_pos(-(a as int), d as int);
            assert(-(a as int) / (d as int) <= -(a as int)) by {
                vstd::arithmetic::div_mod::lemma_div_nonincreasing(-(a as int), d as int);
            }
        }
    }
    a / d
}

/// The sign of `a` as a fixed-point scalar.
pub fn sign_fix(a: i64) -> (r: i64)
    ensures
        r == sign(a as int),
{
    if a > 0 {
        1
    } else if a < 0 {
        -1
    } else {
        0
    }
}

} // verus!
