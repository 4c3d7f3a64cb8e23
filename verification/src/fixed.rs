//! Fixed-point helpers: integer square root, sign-aware scaled
//! multiply-divide, and clamping.  All executable functions here compute
//! exactly the value of a spec function, so callers can reason about them
//! as mathematical operations.

use vstd::prelude::*;

verus! {

/// Floor of the square root of `n` (0 for negative `n`).
pub open spec fn sqrt_floor(n: int) -> int
    decreases n,
{
    if n <= 0 {
        0
    } else {
        let r = sqrt_floor(n - 1);
        if (r + 1) * (r + 1) <= n {
            r + 1
        } else {
            r
        }
    }
}

/// `sqrt_floor(n)` is the unique integer `r >= 0` with
/// `r * r <= n < (r + 1) * (r + 1)`.
pub proof fn lemma_sqrt_floor_bounds(n: int)
    requires
        n >= 0,
    ensures
        0 <= sqrt_floor(n),
        sqrt_floor(n) * sqrt_floor(n) <= n,
        n < (sqrt_floor(n) + 1) * (sqrt_floor(n) + 1),
    decreases n,
{
    if n == 0 {
    } else {
        lemma_sqrt_floor_bounds(n - 1);
        let p = sqrt_floor(n - 1);
        if (p + 1) * (p + 1) <= n {
            assert(n == (p + 1) * (p + 1));
            assert((p + 1) * (p + 1) < (p + 2) * (p + 2)) by (nonlinear_arith)
                requires p >= 0;
        }
    }
}

/// Any integer satisfying the square root bracketing is `sqrt_floor`.
pub proof fn lemma_sqrt_floor_unique(n: int, r: int)
    requires
        n >= 0,
        r >= 0,
        r * r <= n,
        n < (r + 1) * (r + 1),
    ensures
        r == sqrt_floor(n),
{
    lemma_sqrt_floor_bounds(n);
    let s = sqrt_floor(n);
    if r < s {
        assert((r + 1) * (r + 1) <= s * s) by (nonlinear_arith)
            requires 0 <= r, r < s;
    }
    if s < r {
        assert((s + 1) * (s + 1) <= r * r) by (nonlinear_arith)
            requires 0 <= s, s < r;
    }
}

/// Binary-search integer square root.
pub fn isqrt(n: u64) -> (r: u64)
    requires
        n < 0x4000000000000000,
    ensures
        r == sqrt_floor(n as int),
        r * r <= n < (r + 1) * (r + 1),
{
    let mut lo: u64 = 0;
    let mut hi: u64 = 0x80000000;
    while lo + 1 < hi
        invariant
            lo < hi <= 0x80000000,
            lo * lo <= n,
            n < hi * hi,
        decreases hi - lo,
    {
        let mid = lo + (hi - lo) / 2;
        proof {
            assert(mid * mid <= 0x4000000000000000) by (nonlinear_arith)
                requires 0 <= mid <= 0x80000000;
        }
        if mid * mid <= n {
            lo = mid;
        } else {
            hi = mid;
        }
    }
    proof {
        lemma_sqrt_floor_unique(n as int, lo as int);
    }
    lo
}

/// Truncated scaled product `a * b / d`, rounding toward zero.
pub open spec fn mul_div_spec(a: int, b: int, d: int) -> int {
    if a >= 0 {
        a * b / d
    } else {
        -((-a) * b / d)
    }
}

/// The magnitude of `mul_div_spec(a, b, d)` is bounded by `m * b / d`
/// whenever `|a| <= m`.
pub proof fn lemma_mul_div_magnitude(a: int, b: int, d: int, m: int)
    requires
        0 < b,
        0 < d,
        0 <= m,
        -m <= a <= m,
    ensures
        -(m * b / d) <= mul_div_spec(a, b, d) <= m * b / d,
{
    if a >= 0 {
        vstd::arithmetic::mul::lemma_mul_inequality(a, m, b);
        vstd::arithmetic::div_mod::lemma_div_is_ordered(a * b, m * b, d);
        vstd::arithmetic::div_mod::lemma_div_pos_is_pos(a * b, d as int);
        vstd::arithmetic::mul::lemma_mul_nonnegative(a, b);
    } else {
        vstd::arithmetic::mul::lemma_mul_inequality(-a, m, b);
        vstd::arithmetic::div_mod::lemma_div_is_ordered((-a) * b, m * b, d);
        vstd::arithmetic::div_mod::lemma_div_pos_is_pos((-a) * b, d as int);
        vstd::arithmetic::mul::lemma_mul_nonnegative(-a, b);
    }
}

/// Computes `mul_div_spec` exactly, for operands small enough that the
/// product fits the machine word.
pub fn mul_div(a: i64, b: i64, d: i64) -> (r: i64)
    requires
        -0x80000000 <= a <= 0x80000000,
        0 < b <= 0x80000000,
        0 < d,
    ensures
        r == mul_div_spec(a as int, b as int, d as int),
{
    if a >= 0 {
        proof {
            assert(0 <= a * b <= 0x4000000000000000) by (nonlinear_arith)
                requires 0 <= a <= 0x80000000, 0 < b <= 0x80000000;
        }
        let p: u64 = (a as u64) * (b as u64);
        let q: u64 = p / (d as u64);
        proof {
            vstd::arithmetic::div_mod::lemma_div_nonincreasing(a * b, d as int);
            vstd::arithmetic::div_mod::lemma_div_pos_is_pos(a * b, d as int);
        }
        q as i64
    } else {
        let neg = -a;
        proof {
            assert(0 <= neg * b <= 0x4000000000000000) by (nonlinear_arith)
                requires 0 <= neg <= 0x80000000, 0 < b <= 0x80000000;
        }
        let p: u64 = (neg as u64) * (b as u64);
        let q: u64 = p / (d as u64);
        proof {
            vstd::arithmetic::div_mod::lemma_div_nonincreasing(neg * b, d as int);
            vstd::arithmetic::div_mod::lemma_div_pos_is_pos(neg * b, d as int);
        }
        -(q as i64)
    }
}

/// `x` forced into `[lo, hi]`.
pub open spec fn clamp_spec(x: int, lo: int, hi: int) -> int {
    if x < lo {
        lo
    } else if x > hi {
        hi
    } else {
        x
    }
}

/// Executable clamp.
pub fn clamp(x: i64, lo: i64, hi: i64) -> (r: i64)
    requires
        lo <= hi,
    ensures
        r == clamp_spec(x as int, lo as int, hi as int),
{
    if x < lo {
        lo
    } else if x > hi {
        hi
    } else {
        x
    }
}

} // verus!
