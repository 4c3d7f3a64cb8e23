//! Fixed-point sine and cosine on integer angles.
//!
//! An angle is an integer with `TURN` units to a full rotation.  The sine is
//! defined exactly, as the library's own trigonometry: a parabolic arc
//! `4 * SCALE * x * (HALF_TURN - x) / HALF_TURN^2` over the first half turn,
//! negated over the second.  It agrees with the real sine at every quarter
//! turn, stays within a few percent of it elsewhere, and is periodic and
//! antisymmetric exactly.  The cosine is the sine a quarter turn ahead.

use vstd::prelude::*;

use crate::constants::HALF_TURN;
use crate::constants::QUARTER_TURN;
use crate::constants::SCALE;
use crate::constants::TURN;

verus! {

/// The parabolic arc over `[0, HALF_TURN)`.
pub open spec fn sin_arc_spec(x: int) -> int {
    4 * SCALE * x * (HALF_TURN - x) / (HALF_TURN * HALF_TURN)
}

/// Fixed-point sine of an angle, in `[-SCALE, SCALE]`; periodic in `TURN`.
pub open spec fn sin_spec(a: int) -> int {
    let m = a % (TURN as int);
    if m < HALF_TURN {
        sin_arc_spec(m)
    } else {
        -sin_arc_spec(m - HALF_TURN)
    }
}

/// Fixed-point cosine: the sine a quarter turn ahead.
pub open spec fn cos_spec(a: int) -> int {
    sin_spec(a + QUARTER_TURN)
}

/// The product under the arc's division stays within `s * h * h` for any
/// nonnegative amplitude `s` and any `x` between `0` and `h`.
proof fn lemma_arc_product_bound(s: int, h: int, x: int) by (nonlinear_arith)
    requires
        s >= 0,
        0 <= x <= h,
    ensures
        0 <= 4 * s * x * (h - x) <= s * (h * h),
{
}

/// The arc stays in `[0, SCALE]` over `[0, HALF_TURN)`.
pub proof fn lemma_sin_arc_range(x: int)
    requires
        0 <= x < HALF_TURN,
    ensures
        0 <= sin_arc_spec(x) <= SCALE,
{
    let p = 4 * SCALE * x * (HALF_TURN - x);
    let h2 = HALF_TURN * HALF_TURN;
    lemma_arc_product_bound(SCALE as int, HALF_TURN as int, x);
    vstd::arithmetic::div_mod::lemma_div_pos_is_pos(p, h2);
    vstd::arithmetic::div_mod::lemma_div_is_ordered(p, SCALE * h2, h2);
    vstd::arithmetic::div_mod::lemma_div_by_multiple(SCALE as int, h2);
}

/// The sine of every angle lies in `[-SCALE, SCALE]`.
pub proof fn lemma_sin_range(a: int)
    ensures
        -SCALE <= sin_spec(a) <= SCALE,
{
    let m = a % (TURN as int);
    vstd::arithmetic::div_mod::lemma_mod_division_less_than_divisor(a, TURN as int);
    if m < HALF_TURN {
        lemma_sin_arc_range(m);
    } else {
        lemma_sin_arc_range(m - HALF_TURN);
    }
}

/// Executable fixed-point sine.
pub fn sin_fp(a: i64) -> (r: i64)
    requires
        a >= 0,
    ensures
        r == sin_spec(a as int),
        -SCALE <= r <= SCALE,
{
    let m: i64 = ((a as u64) % (TURN as u64)) as i64;
    proof {
        vstd::arithmetic::div_mod::lemma_mod_division_less_than_divisor(a as int, TURN as int);
    }
    let (x, neg): (i64, bool) = if m < HALF_TURN {
        (m, false)
    } else {
        (m - HALF_TURN, true)
    };
    proof {
        lemma_arc_product_bound(SCALE as int, HALF_TURN as int, x as int);
        lemma_sin_arc_range(x as int);
    }
    let p: u64 = 4 * (SCALE as u64) * (x as u64) * ((HALF_TURN - x) as u64);
    let q: i64 = (p / ((HALF_TURN as u64) * (HALF_TURN as u64))) as i64;
    if neg {
        -q
    } else {
        q
    }
}

/// Executable fixed-point cosine.
pub fn cos_fp(a: i64) -> (r: i64)
    requires
        0 <= a <= 0x7fffffffffffff00 - QUARTER_TURN,
    ensures
        r == cos_spec(a as int),
        -SCALE <= r <= SCALE,
{
    sin_fp(a + QUARTER_TURN)
}

} // verus!
