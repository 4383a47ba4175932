//! Saturating fixed-point arithmetic with nine decimal places.
//!
//! Every quantity of the robot model (degrees, millimetres, metres, gains,
//! rates) is an `i64` that counts billionths of its unit: the integer `n`
//! stands for `n / SCALE`. Sums and differences are exact, products and
//! quotients are rounded toward zero, and a result that leaves the range of
//! `i64` sticks to the nearest bound.

use vstd::prelude::*;

verus! {

/// The integer that stands for the quantity one.
pub const SCALE: i64 = 1_000_000_000;

/// The value of `x` brought into the range of `i64`.
pub open spec fn saturate(x: int) -> int {
    if x < i64::MIN as int {
        i64::MIN as int
    } else if x > i64::MAX as int {
        i64::MAX as int
    } else {
        x
    }
}

/// The quotient of `n` by `d`, rounded toward zero.
pub open spec fn trunc_div(n: int, d: int) -> int
    recommends
        d != 0,
{
    if n >= 0 {
        n / d
    } else {
        -((-n) / d)
    }
}

/// Saturating sum.
pub open spec fn fadd_spec(a: i64, b: i64) -> i64 {
    saturate(a + b) as i64
}

/// Saturating difference.
pub open spec fn fsub_spec(a: i64, b: i64) -> i64 {
    saturate(a - b) as i64
}

/// Saturating negation.
pub open spec fn fneg_spec(a: i64) -> i64 {
    saturate(-a) as i64
}

/// Fixed-point product: `a * b / SCALE`, rounded toward zero, saturating.
pub open spec fn fmul_spec(a: i64, b: i64) -> i64 {
    saturate(trunc_div(a * b, SCALE as int)) as i64
}

/// Fixed-point quotient: `a * SCALE / b`, rounded toward zero, saturating.
pub open spec fn fdiv_spec(a: i64, b: i64) -> i64
    recommends
        b != 0,
{
    saturate(trunc_div(a * SCALE, b as int)) as i64
}

/// Narrows a wide intermediate result to `i64`, saturating at the bounds.
pub fn narrow(x: i128) -> (r: i64)
    ensures
        r == saturate(x as int),
{
    if x < i64::MIN as i128 {
        i64::MIN
    } else if x > i64::MAX as i128 {
        i64::MAX
    } else {
        x as i64
    }
}

/// The product of two `i64` values lies within `i128`.
pub proof fn lemma_product_fits(a: i64, b: i64)
    ensures
        -0x4000_0000_0000_0000_0000_0000_0000_0000 <= a * b
            <= 0x4000_0000_0000_0000_0000_0000_0000_0000,
{
    let m: int = 0x8000_0000_0000_0000;
    assert(-m * m <= a * b <= m * m) by (nonlinear_arith)
        requires
            -m <= a <= m,
            -m <= b <= m,
    ;
    assert(m * m == 0x4000_0000_0000_0000_0000_0000_0000_0000) by (nonlinear_arith)
        requires
            m == 0x8000_0000_0000_0000,
    ;
}

/// A quotient rounded toward zero is no larger in magnitude than its dividend.
pub proof fn lemma_trunc_div_bound(n: int, d: int)
    requires
        d != 0,
    ensures
        n >= 0 ==> -n <= trunc_div(n, d) <= n,
        n <= 0 ==> n <= trunc_div(n, d) <= -n,
{
    let m: int = if n >= 0 { n } else { -n };
    assert(-m <= m / d <= m) by (nonlinear_arith)
        requires
            m >= 0,
            d != 0,
    ;
}

/// Adds two fixed-point numbers.
#[verifier::when_used_as_spec(fadd_spec)]
pub fn fadd(a: i64, b: i64) -> (r: i64)
    ensures
        r == fadd_spec(a, b),
{
    narrow(a as i128 + b as i128)
}

/// Subtracts `b` from `a`.
#[verifier::when_used_as_spec(fsub_spec)]
pub fn fsub(a: i64, b: i64) -> (r: i64)
    ensures
        r == fsub_spec(a, b),
{
    narrow(a as i128 - b as i128)
}

/// Negates a fixed-point number.
#[verifier::when_used_as_spec(fneg_spec)]
pub fn fneg(a: i64) -> (r: i64)
    ensures
        r == fneg_spec(a),
{
    narrow(-(a as i128))
}

/// Multiplies two fixed-point numbers.
#[verifier::when_used_as_spec(fmul_spec)]
pub fn fmul(a: i64, b: i64) -> (r: i64)
    ensures
        r == fmul_spec(a, b),
{
    proof {
        lemma_product_fits(a, b);
    }
    let p: i128 = (a as i128) * (b as i128);
    narrow(p / (SCALE as i128))
}

/// Divides `a` by `b`.
#[verifier::when_used_as_spec(fdiv_spec)]
pub fn fdiv(a: i64, b: i64) -> (r: i64)
    requires
        b != 0,
    ensures
        r == fdiv_spec(a, b),
{
    proof {
        lemma_product_fits(a, SCALE);
        lemma_trunc_div_bound(a * SCALE, b as int);
    }
    let p: i128 = (a as i128) * (SCALE as i128);
    narrow(p / (b as i128))
}

} // verus!
