//! Fixed-point scalars.
//!
//! A scalar is an `i64` holding a real quantity times [`FP_ONE`]: `1500`
//! stands for `1.5`. Products of two scalars are rescaled by a truncating
//! division toward zero, so a result never grows in magnitude past the
//! exact real product.

use vstd::prelude::*;

verus! {

/// The fixed-point unit: the `i64` value that stands for `1.0`.
pub const FP_ONE: i64 = 1000;

/// Division of `n` by a positive `d`, rounding toward zero.
pub open spec fn div_toward_zero(n: int, d: int) -> int {
    if n >= 0 {
        n / d
    } else {
        -((-n) / d)
    }
}

/// Truncating division of `n` by [`FP_ONE`], rounding toward zero.
pub open spec fn fp_down(n: int) -> int {
    div_toward_zero(n, FP_ONE as int)
}

/// The fixed-point product of two scalars: the exact integer product,
/// rescaled toward zero.
pub open spec fn fp_mul(a: int, b: int) -> int {
    fp_down(a * b)
}

/// `x` clamped into `[lo, hi]`.
pub open spec fn clamp_spec(x: int, lo: int, hi: int) -> int {
    if x < lo {
        lo
    } else if x > hi {
        hi
    } else {
        x
    }
}

/// Clamp `x` into `[lo, hi]`.
pub fn clamp(x: i64, lo: i64, hi: i64) -> (r: i64)
    requires
        lo <= hi,
    ensures
        r == clamp_spec(x as int, lo as int, hi as int),
        lo <= r <= hi,
{
    if x < lo {
        lo
    } else if x > hi {
        hi
    } else {
        x
    }
}

/// Divide `n` by the positive `d`, truncating toward zero.
pub fn div_trunc(n: i64, d: i64) -> (r: i64)
    requires
        n != i64::MIN,
        d > 0,
    ensures
        r == div_toward_zero(n as int, d as int),
{
    if n >= 0 {
        n / d
    } else {
        -((-n) / d)
    }
}

/// Rescale the integer `n` by [`FP_ONE`], truncating toward zero.
pub fn scale_down(n: i64) -> (r: i64)
    requires
        n != i64::MIN,
    ensures
        r == fp_down(n as int),
{
    div_trunc(n, FP_ONE)
}

/// The fixed-point product of `a` and `b`.
pub fn fp_scale(a: i64, b: i64) -> (r: i64)
    requires
        -i64::MAX <= a * b <= i64::MAX,
    ensures
        r == fp_mul(a as int, b as int),
{
    let p: i64 = a * b;
    scale_down(p)
}

/// Truncation toward zero never grows the magnitude: the rescaled value
/// lies within the bound that the exact quotient obeys.
pub proof fn lemma_fp_down_bound(n: int, m: int)
    requires
        -m * (FP_ONE as int) <= n <= m * (FP_ONE as int),
        m >= 0,
    ensures
        -m <= fp_down(n) <= m,
{
    if n >= 0 {
        assert(n / (FP_ONE as int) <= m) by (nonlinear_arith)
            requires
                0 <= n <= m * (FP_ONE as int),
                m >= 0,
        {}
    } else {
        assert((-n) / (FP_ONE as int) <= m) by (nonlinear_arith)
            requires
                0 <= -n <= m * (FP_ONE as int),
                m >= 0,
        {}
    }
}

/// Rescaling keeps the sign of the input.
pub proof fn lemma_fp_down_sign(n: int)
    ensures
        n >= 0 ==> fp_down(n) >= 0,
        n <= 0 ==> fp_down(n) <= 0,
{
}

/// The square of a truncated quotient, scaled back up by the divisor,
/// never exceeds the square of the numerator: truncation toward zero only
/// shrinks magnitudes.
pub proof fn lemma_div_trunc_sq(n: int, d: int)
    requires
        d > 0,
    ensures
        div_toward_zero(n, d) * div_toward_zero(n, d) * (d * d) <= n * n,
{
    if n >= 0 {
        let q = n / d;
        vstd::arithmetic::div_mod::lemma_fundamental_div_mod(n, d);
        vstd::arithmetic::div_mod::lemma_div_pos_is_pos(n, d);
        assert(q * q * (d * d) <= n * n) by (nonlinear_arith)
            requires
                0 <= q,
                d > 0,
                d * q <= n,
        {}
    } else {
        let m = -n;
        let q = m / d;
        vstd::arithmetic::div_mod::lemma_fundamental_div_mod(m, d);
        vstd::arithmetic::div_mod::lemma_div_pos_is_pos(m, d);
        assert(q * q * (d * d) <= m * m) by (nonlinear_arith)
            requires
                0 <= q,
                d > 0,
                d * q <= m,
        {}
        assert((-q) * (-q) * (d * d) == q * q * (d * d)) by (nonlinear_arith) {}
        assert(m * m == n * n) by (nonlinear_arith)
            requires
                m == -n,
        {}
    }
}

} // verus!
