//! Saturating fixed-point arithmetic on `i64` raw values.
//!
//! A sample with real value `x` is stored as the raw integer closest to
//! `x * SCALE` (truncated toward zero wherever an operation rounds). All
//! operations saturate at the `i64` range instead of wrapping or panicking,
//! and every executable operation is specified exactly by the matching
//! `fp_*` spec function.

use vstd::prelude::*;

verus! {

use vstd::arithmetic::div_mod::lemma_div_of0;

/// Number of raw units per unit of real value: samples are stored as
/// `value * SCALE`, truncated to an integer.
pub const SCALE: i64 = 4294967296;

/// Saturation of an unbounded integer to the `i64` range.
pub open spec fn sat64(x: int) -> int {
    if x > i64::MAX as int {
        i64::MAX as int
    } else if x < i64::MIN as int {
        i64::MIN as int
    } else {
        x
    }
}

/// Quotient of `a` by `b` rounded toward zero (the rounding mode of the
/// executable code), for positive `b`.
pub open spec fn div_trunc(a: int, b: int) -> int {
    if a >= 0 {
        a / b
    } else {
        -((-a) / b)
    }
}

/// Exact model of fixed-point addition: saturated integer sum.
pub open spec fn fp_add(a: int, b: int) -> int {
    sat64(a + b)
}

/// Exact model of fixed-point subtraction: saturated integer difference.
pub open spec fn fp_sub(a: int, b: int) -> int {
    sat64(a - b)
}

/// Exact model of fixed-point multiplication: the raw product rescaled by
/// `SCALE`, truncated toward zero, then saturated.
pub open spec fn fp_mul(a: int, b: int) -> int {
    sat64(div_trunc(a * b, SCALE as int))
}

/// Exact model of fixed-point division by a positive raw value: the
/// dividend prescaled by `SCALE`, truncated toward zero, then saturated.
pub open spec fn fp_div(a: int, b: int) -> int {
    sat64(div_trunc(a * (SCALE as int), b))
}

/// Saturate a wide intermediate result back to `i64`.
pub fn saturate_i64(x: i128) -> (r: i64)
    ensures
        r as int == sat64(x as int),
{
    if x > i64::MAX as i128 {
        i64::MAX
    } else if x < i64::MIN as i128 {
        i64::MIN
    } else {
        x as i64
    }
}

/// Quotient of `n` by positive `d`, rounded toward zero, computed on
/// unsigned magnitudes.
fn div_trunc_i128(n: i128, d: i128) -> (q: i128)
    requires
        d > 0,
        n > i128::MIN,
    ensures
        q as int == div_trunc(n as int, d as int),
{
    if n >= 0 {
        let nu: u128 = n as u128;
        let du: u128 = d as u128;
        let qu: u128 = nu / du;
        assert(qu <= nu) by (nonlinear_arith)
            requires
                qu == nu as int / du as int,
                du >= 1,
                nu >= 0,
        ;
        qu as i128
    } else {
        let m: i128 = -n;
        let mu: u128 = m as u128;
        let du: u128 = d as u128;
        let qu: u128 = mu / du;
        assert(qu <= mu) by (nonlinear_arith)
            requires
                qu == mu as int / du as int,
                du >= 1,
                mu >= 0,
        ;
        let qi: i128 = qu as i128;
        -qi
    }
}

/// Fixed-point addition, saturating at the `i64` range.
pub fn add_fp(a: i64, b: i64) -> (r: i64)
    ensures
        r as int == fp_add(a as int, b as int),
{
    let s: i128 = (a as i128) + (b as i128);
    saturate_i64(s)
}

/// Fixed-point subtraction, saturating at the `i64` range.
pub fn sub_fp(a: i64, b: i64) -> (r: i64)
    ensures
        r as int == fp_sub(a as int, b as int),
{
    let s: i128 = (a as i128) - (b as i128);
    saturate_i64(s)
}

/// Fixed-point multiplication, truncating toward zero and saturating.
pub fn mul_fp(a: i64, b: i64) -> (r: i64)
    ensures
        r as int == fp_mul(a as int, b as int),
{
    let wa: i128 = a as i128;
    let wb: i128 = b as i128;
    assert(-0x40000000000000000000000000000000 <= wa as int * wb as int
        <= 0x40000000000000000000000000000000) by (nonlinear_arith)
        requires
            i64::MIN as int <= wa as int <= i64::MAX as int,
            i64::MIN as int <= wb as int <= i64::MAX as int,
    ;
    let p: i128 = wa * wb;
    let q: i128 = div_trunc_i128(p, SCALE as i128);
    saturate_i64(q)
}

/// Fixed-point division by a positive raw value, truncating toward zero
/// and saturating.
pub fn div_fp(a: i64, b: i64) -> (r: i64)
    requires
        b > 0,
    ensures
        r as int == fp_div(a as int, b as int),
{
    let wa: i128 = a as i128;
    assert(-0x80000000000000000000000000 <= wa as int * SCALE as int
        <= 0x80000000000000000000000000) by (nonlinear_arith)
        requires
            i64::MIN as int <= wa as int <= i64::MAX as int,
            SCALE == 4294967296,
    ;
    let n: i128 = wa * (SCALE as i128);
    let q: i128 = div_trunc_i128(n, b as i128);
    saturate_i64(q)
}

/// A zero factor annihilates a fixed-point product.
pub proof fn lemma_fp_mul_zero(a: int)
    ensures
        fp_mul(a, 0) == 0,
        fp_mul(0, a) == 0,
{
    lemma_div_of0(SCALE as int);
}

/// Zero is the identity of fixed-point addition on in-range values.
pub proof fn lemma_fp_add_zero(a: int)
    requires
        i64::MIN <= a <= i64::MAX,
    ensures
        fp_add(a, 0) == a,
{
}

/// A zero dividend gives a zero fixed-point quotient.
pub proof fn lemma_fp_div_zero(b: int)
    requires
        b > 0,
    ensures
        fp_div(0, b) == 0,
{
    lemma_div_of0(b);
}

} // verus!
