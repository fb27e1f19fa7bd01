//! Saturating fixed-point numbers.
//!
//! A quantity `x` is held as the `i64` nearest below `x * SCALE` in magnitude
//! (trillionths of a unit). Every operation computes exactly on integers,
//! truncates a quotient toward zero, and saturates the result to the range of
//! `i64`, so that no operation can overflow or panic.
use vstd::prelude::*;

verus! {

/// One whole unit: `SCALE` stands for 1.0.
pub const SCALE: i64 = 1_000_000_000_000;

/// The value of `v` held to the range of `i64`.
pub open spec fn clamp64(v: int) -> int {
    if v < i64::MIN as int {
        i64::MIN as int
    } else if v > i64::MAX as int {
        i64::MAX as int
    } else {
        v
    }
}

/// The magnitude of `v`.
pub open spec fn magnitude(v: int) -> int {
    if v < 0 { -v } else { v }
}

/// The quotient of `n` by `d`, truncated toward zero (as Rust's `/` does).
pub open spec fn quot(n: int, d: int) -> int
    recommends
        d != 0,
{
    if (n >= 0) == (d > 0) {
        magnitude(n) / magnitude(d)
    } else {
        -(magnitude(n) / magnitude(d))
    }
}

pub open spec fn add_spec(a: int, b: int) -> int {
    clamp64(a + b)
}

pub open spec fn sub_spec(a: int, b: int) -> int {
    clamp64(a - b)
}

/// The product of two fixed-point values.
pub open spec fn mul_spec(a: int, b: int) -> int {
    clamp64(quot(a * b, SCALE as int))
}

/// The quotient of two fixed-point values, `b` nonzero.
pub open spec fn div_spec(a: int, b: int) -> int
    recommends
        b != 0,
{
    clamp64(quot(a * SCALE, b))
}

/// The absolute value, saturated (`i64::MIN` has no positive counterpart).
pub open spec fn abs_spec(a: int) -> int {
    clamp64(magnitude(a))
}

/// A product with zero is zero.
pub proof fn lemma_mul_zero(a: int)
    ensures
        mul_spec(a, 0) == 0,
        mul_spec(0, a) == 0,
{
    assert(a * 0 == 0 && 0 * a == 0) by (nonlinear_arith);
}

/// A product with one (`SCALE`) keeps the other factor.
pub proof fn lemma_mul_one(a: int)
    requires
        i64::MIN <= a <= i64::MAX,
    ensures
        mul_spec(SCALE as int, a) == a,
{
    let m = magnitude(a);
    assert(magnitude(SCALE * a) == m * SCALE) by (nonlinear_arith)
        requires
            m == magnitude(a),
    ;
    vstd::arithmetic::div_mod::lemma_div_by_multiple(m, SCALE as int);
    assert((SCALE * a >= 0) == (a >= 0)) by (nonlinear_arith);
}

/// A nonzero value divided by itself is one (`SCALE`).
pub proof fn lemma_div_self(a: int)
    requires
        a != 0,
        i64::MIN <= a <= i64::MAX,
    ensures
        div_spec(a, a) == SCALE,
{
    let m = magnitude(a);
    assert(magnitude(a * SCALE) == SCALE * m) by (nonlinear_arith)
        requires
            m == magnitude(a),
    ;
    vstd::arithmetic::div_mod::lemma_div_multiples_vanish(SCALE as int, m);
    assert((a * SCALE >= 0) == (a > 0)) by (nonlinear_arith)
        requires
            a != 0,
    ;
}

/// A quotient of a value by a value at least as large lies in `[0, SCALE]`.
pub proof fn lemma_div_fraction(a: int, b: int)
    requires
        0 <= a <= b,
        0 < b <= i64::MAX,
    ensures
        0 <= div_spec(a, b) <= SCALE,
{
    vstd::arithmetic::div_mod::lemma_div_pos_is_pos(a * SCALE, b);
    assert(a * SCALE <= SCALE * b) by (nonlinear_arith)
        requires
            0 <= a <= b,
    ;
    vstd::arithmetic::div_mod::lemma_div_is_ordered(a * SCALE, SCALE * b, b);
    vstd::arithmetic::div_mod::lemma_div_multiples_vanish(SCALE as int, b);
}

/// A product with a factor in `[0, SCALE]` lies between zero and the other
/// factor.
pub proof fn lemma_mul_fraction(k: int, y: int)
    requires
        0 <= k <= SCALE,
        i64::MIN <= y <= i64::MAX,
    ensures
        y >= 0 ==> 0 <= mul_spec(k, y) <= y,
        y < 0 ==> y <= mul_spec(k, y) <= 0,
{
    let m = magnitude(y);
    assert(0 <= k * m <= SCALE * m && magnitude(k * y) == k * m) by (nonlinear_arith)
        requires
            0 <= k <= SCALE,
            m == magnitude(y),
    ;
    vstd::arithmetic::div_mod::lemma_div_pos_is_pos(k * m, SCALE as int);
    vstd::arithmetic::div_mod::lemma_div_is_ordered(k * m, SCALE * m, SCALE as int);
    vstd::arithmetic::div_mod::lemma_div_multiples_vanish(m, SCALE as int);
    assert(y >= 0 ==> k * y >= 0) by (nonlinear_arith)
        requires
            0 <= k,
    ;
    assert(y < 0 ==> k * y <= 0) by (nonlinear_arith)
        requires
            0 <= k,
    ;
    if y < 0 && k * y == 0 {
        assert(magnitude(k * y) == 0);
    }
}

fn clamp_to_i64(v: i128) -> (r: i64)
    ensures
        r == clamp64(v as int),
{
    if v < i64::MIN as i128 {
        i64::MIN
    } else if v > i64::MAX as i128 {
        i64::MAX
    } else {
        v as i64
    }
}

fn quot_i128(n: i128, d: i128) -> (r: i128)
    requires
        d != 0,
        n > i128::MIN,
        d > i128::MIN,
    ensures
        r == quot(n as int, d as int),
{
    let na: i128 = if n >= 0 { n } else { -n };
    let da: i128 = if d >= 0 { d } else { -d };
    let q: i128 = na / da;
    if (n >= 0) == (d > 0) {
        q
    } else {
        -q
    }
}

/// Saturating sum.
pub fn add(a: i64, b: i64) -> (r: i64)
    ensures
        r == add_spec(a as int, b as int),
{
    clamp_to_i64(a as i128 + b as i128)
}

/// Saturating difference.
pub fn sub(a: i64, b: i64) -> (r: i64)
    ensures
        r == sub_spec(a as int, b as int),
{
    clamp_to_i64(a as i128 - b as i128)
}

/// Saturating fixed-point product.
pub fn mul(a: i64, b: i64) -> (r: i64)
    ensures
        r == mul_spec(a as int, b as int),
{
    assert(-0x4000_0000_0000_0000_0000_0000_0000_0000 <= a as int * b as int
        <= 0x4000_0000_0000_0000_0000_0000_0000_0000) by (nonlinear_arith)
        requires
            i64::MIN <= a <= i64::MAX,
            i64::MIN <= b <= i64::MAX,
    ;
    let p: i128 = a as i128 * b as i128;
    clamp_to_i64(quot_i128(p, SCALE as i128))
}

/// Saturating fixed-point quotient.
pub fn div(a: i64, b: i64) -> (r: i64)
    requires
        b != 0,
    ensures
        r == div_spec(a as int, b as int),
{
    assert(-0x100_0000_0000_0000_0000_0000_0000 <= a as int * 1_000_000_000_000
        <= 0x100_0000_0000_0000_0000_0000_0000) by (nonlinear_arith)
        requires
            i64::MIN <= a <= i64::MAX,
    ;
    let n: i128 = a as i128 * SCALE as i128;
    clamp_to_i64(quot_i128(n, b as i128))
}

/// Saturating absolute value.
pub fn abs(a: i64) -> (r: i64)
    ensures
        r == abs_spec(a as int),
        r >= 0,
{
    let w: i128 = a as i128;
    clamp_to_i64(if w >= 0 { w } else { -w })
}

} // verus!
