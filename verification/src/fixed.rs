//! Saturating signed fixed-point arithmetic.
//!
//! A value of 1.0 is represented by [`SCALE`] (one million), so three and six
//! decimal places are exact. Products and quotients are computed in 128-bit
//! intermediates, truncated toward zero as hardware division does, and then
//! clamped into the `i64` range, which makes every operation total. Each
//! executable operation returns exactly the value of its specification
//! counterpart (`fx_mul_s` and friends), so expressions built from these
//! operations have exact mathematical contracts.

use vstd::prelude::*;

verus! {

/// The fixed-point representation of 1.0.
pub const SCALE: i64 = 1_000_000;

/// Clamps a mathematical integer into the `i64` range.
pub open spec fn clamp_i64(x: int) -> int {
    if x > i64::MAX as int {
        i64::MAX as int
    } else if x < i64::MIN as int {
        i64::MIN as int
    } else {
        x
    }
}

/// Division of `p` by a positive `q`, truncated toward zero, as machine
/// division behaves on signed integers.
pub open spec fn tdiv(p: int, q: int) -> int {
    if p >= 0 {
        p / q
    } else {
        -((-p) / q)
    }
}

/// The fixed-point product `a * b`, truncated and clamped.
pub open spec fn fx_mul_s(a: int, b: int) -> int {
    clamp_i64(tdiv(a * b, SCALE as int))
}

/// The fixed-point quotient `a / b` for positive `b`, truncated and clamped.
pub open spec fn fx_div_s(a: int, b: int) -> int {
    clamp_i64(tdiv(a * (SCALE as int), b))
}

/// The saturating sum `a + b`.
pub open spec fn fx_add_s(a: int, b: int) -> int {
    clamp_i64(a + b)
}

/// The saturating difference `a - b`.
pub open spec fn fx_sub_s(a: int, b: int) -> int {
    clamp_i64(a - b)
}

/// Clamps a 128-bit intermediate into the `i64` range.
pub fn clamp128(q: i128) -> (r: i64)
    ensures
        r as int == clamp_i64(q as int),
{
    if q > i64::MAX as i128 {
        i64::MAX
    } else if q < i64::MIN as i128 {
        i64::MIN
    } else {
        q as i64
    }
}

/// Fixed-point multiplication: `(a * b) / SCALE`, truncated toward zero and
/// clamped into the `i64` range.
pub fn fx_mul(a: i64, b: i64) -> (r: i64)
    ensures
        r as int == fx_mul_s(a as int, b as int),
{
    assert(-0x4000_0000_0000_0000_0000_0000_0000_0000 < (a as int) * (b as int)
        <= 0x4000_0000_0000_0000_0000_0000_0000_0000) by (nonlinear_arith)
        requires
            i64::MIN <= a <= i64::MAX,
            i64::MIN <= b <= i64::MAX,
    ;
    let p: i128 = (a as i128) * (b as i128);
    let q: i128 = p / (SCALE as i128);
    clamp128(q)
}

/// Fixed-point division by a positive divisor: `(a * SCALE) / b`, truncated
/// toward zero and clamped into the `i64` range.
pub fn fx_div(a: i64, b: i64) -> (r: i64)
    requires
        b > 0,
    ensures
        r as int == fx_div_s(a as int, b as int),
{
    assert(-0x4000_0000_0000_0000_0000_0000_0000_0000 < (a as int) * (SCALE as int)
        <= 0x4000_0000_0000_0000_0000_0000_0000_0000) by (nonlinear_arith)
        requires
            i64::MIN <= a <= i64::MAX,
    ;
    let p: i128 = (a as i128) * (SCALE as i128);
    let q: i128 = p / (b as i128);
    clamp128(q)
}

/// Saturating addition.
pub fn fx_add(a: i64, b: i64) -> (r: i64)
    ensures
        r as int == fx_add_s(a as int, b as int),
{
    let q: i128 = (a as i128) + (b as i128);
    clamp128(q)
}

/// Saturating subtraction.
pub fn fx_sub(a: i64, b: i64) -> (r: i64)
    ensures
        r as int == fx_sub_s(a as int, b as int),
{
    let q: i128 = (a as i128) - (b as i128);
    clamp128(q)
}

/// Truncated division of nonnegative by positive stays nonnegative, so every
/// fixed-point operation on nonnegative operands is nonnegative.
pub proof fn lemma_tdiv_nonneg(p: int, q: int)
    requires
        p >= 0,
        q > 0,
    ensures
        tdiv(p, q) >= 0,
{
    assert(p / q >= 0) by (nonlinear_arith)
        requires
            p >= 0,
            q > 0,
    ;
}

/// The fixed-point product of nonnegative operands is nonnegative.
pub proof fn lemma_fx_mul_nonneg(a: int, b: int)
    requires
        a >= 0,
        b >= 0,
    ensures
        fx_mul_s(a, b) >= 0,
{
    assert(a * b >= 0) by (nonlinear_arith)
        requires
            a >= 0,
            b >= 0,
    ;
    lemma_tdiv_nonneg(a * b, SCALE as int);
}

/// The fixed-point quotient of a nonnegative by a positive is nonnegative.
pub proof fn lemma_fx_div_nonneg(a: int, b: int)
    requires
        a >= 0,
        b > 0,
    ensures
        fx_div_s(a, b) >= 0,
{
    assert(a * (SCALE as int) >= 0) by (nonlinear_arith)
        requires
            a >= 0,
    ;
    lemma_tdiv_nonneg(a * (SCALE as int), b);
}

/// Multiplication by zero gives zero, on either side.
pub proof fn lemma_fx_mul_zero(a: int)
    ensures
        fx_mul_s(a, 0) == 0,
        fx_mul_s(0, a) == 0,
{
    assert(a * 0 == 0) by (nonlinear_arith);
    assert(0 * a == 0) by (nonlinear_arith);
    assert(0int / (SCALE as int) == 0) by (nonlinear_arith);
}

/// Zero divided by anything positive is zero.
pub proof fn lemma_fx_div_zero(b: int)
    requires
        b > 0,
    ensures
        fx_div_s(0, b) == 0,
{
    assert(0 * (SCALE as int) == 0) by (nonlinear_arith);
    assert(0int / b == 0) by (nonlinear_arith)
        requires
            b > 0,
    ;
}

} // verus!
