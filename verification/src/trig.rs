//! Integer square root and trigonometry in degrees on fixed-point numbers.
//!
//! Angles are fixed-point degrees; sines and cosines are fixed-point numbers
//! between minus one and one. Sine and cosine are evaluated by their power
//! series on the first half of the first quadrant, at eighteen decimal
//! places, and carried to every other angle by symmetry. The inverse
//! functions are found by bisection on the sine and cosine of this module,
//! so that each result is characterised by the angles next to it.

use crate::constants::{FULL_TURN_DEG, HALF_TURN_DEG};
use crate::fixed::SCALE;
use vstd::prelude::*;

verus! {

/// Whether `r` is the square root of `n`, rounded down.
pub open spec fn is_sqrt(n: int, r: int) -> bool {
    r >= 0 && r * r <= n < (r + 1) * (r + 1)
}

/// The square root of `n`, rounded down.
pub open spec fn isqrt_spec(n: int) -> int {
    choose|r: int| is_sqrt(n, r)
}

/// A number has at most one rounded-down square root.
pub proof fn lemma_sqrt_unique(n: int, r1: int, r2: int)
    requires
        is_sqrt(n, r1),
        is_sqrt(n, r2),
    ensures
        r1 == r2,
{
    if r1 < r2 {
        assert((r1 + 1) * (r1 + 1) <= r2 * r2) by (nonlinear_arith)
            requires
                0 <= r1 + 1 <= r2,
        ;
    } else if r2 < r1 {
        assert((r2 + 1) * (r2 + 1) <= r1 * r1) by (nonlinear_arith)
            requires
                0 <= r2 + 1 <= r1,
        ;
    }
}

/// The rounded-down square root grows with its argument.
pub proof fn lemma_sqrt_monotonic(n1: int, r1: int, n2: int, r2: int)
    requires
        is_sqrt(n1, r1),
        is_sqrt(n2, r2),
        n1 <= n2,
    ensures
        r1 <= r2,
{
    if r2 < r1 {
        assert((r2 + 1) * (r2 + 1) <= r1 * r1) by (nonlinear_arith)
            requires
                0 <= r2 + 1 <= r1,
        ;
    }
}

/// Every number from zero on has a rounded-down square root.
pub proof fn lemma_sqrt_exists(n: int)
    requires
        n >= 0,
    ensures
        is_sqrt(n, isqrt_spec(n)),
    decreases n,
{
    if n == 0 {
        assert(is_sqrt(0, 0));
    } else {
        lemma_sqrt_exists(n - 1);
        let r = isqrt_spec(n - 1);
        if n < (r + 1) * (r + 1) {
            assert(is_sqrt(n, r));
        } else {
            assert((r + 2) * (r + 2) > (r + 1) * (r + 1)) by (nonlinear_arith)
                requires
                    r >= 0,
            ;
            assert(is_sqrt(n, r + 1));
        }
    }
}

/// Computes the square root of `n`, rounded down.
pub fn isqrt(n: u128) -> (r: u64)
    ensures
        is_sqrt(n as int, r as int),
        r == isqrt_spec(n as int),
{
    let mut lo: u128 = 0;
    let mut hi: u128 = 0x1_0000_0000_0000_0000;
    assert(0x1_0000_0000_0000_0000int * 0x1_0000_0000_0000_0000int
        == 0x1_0000_0000_0000_0000_0000_0000_0000_0000int) by (nonlinear_arith);
    while hi - lo > 1
        invariant
            lo < hi <= 0x1_0000_0000_0000_0000,
            lo * lo <= n,
            n < hi * hi,
        decreases hi - lo,
    {
        let mid: u128 = lo + (hi - lo) / 2;
        assert(mid * mid <= 0xffff_ffff_ffff_ffff * 0xffff_ffff_ffff_ffff) by (nonlinear_arith)
            requires
                0 <= mid <= 0xffff_ffff_ffff_ffff,
        ;
        assert(0xffff_ffff_ffff_ffffint * 0xffff_ffff_ffff_ffffint
            == 0xffff_ffff_ffff_fffe_0000_0000_0000_0001int) by (nonlinear_arith);
        let sq: u128 = mid * mid;
        if sq <= n {
            lo = mid;
        } else {
            hi = mid;
        }
    }
    proof {
        assert(is_sqrt(n as int, lo as int));
        let s = isqrt_spec(n as int);
        assert(is_sqrt(n as int, s));
        lemma_sqrt_unique(n as int, lo as int, s);
    }
    lo as u64
}

/// The integer that stands for one at eighteen decimal places, the
/// precision of the power series.
pub const WIDE: u128 = 1_000_000_000_000_000_000;

/// An eighth of a turn (degrees).
pub const EIGHTH_TURN_DEG: i64 = 45_000_000_000;

/// A quarter of a turn (degrees).
pub const QUARTER_TURN_DEG: i64 = 90_000_000_000;

/// The angle of `u` fixed-point degrees in radians, at eighteen decimal
/// places.
pub open spec fn wide_radians(u: int) -> int {
    u * 17_453_292_519_943_295_769 / 1_000_000_000_000
}

/// One step of a power series in nested form: `1 - z * t / k`, at eighteen
/// decimal places.
pub open spec fn series_step(z: int, t: int, k: int) -> int {
    WIDE - (z * t) / (k * WIDE)
}

/// The sine of `x` radians by its power series up to the thirteenth power,
/// at eighteen decimal places.
pub open spec fn sin_series(x: int) -> int {
    let z = x * x / (WIDE as int);
    let t13 = series_step(z, WIDE as int, 156);
    let t11 = series_step(z, t13, 110);
    let t9 = series_step(z, t11, 72);
    let t7 = series_step(z, t9, 42);
    let t5 = series_step(z, t7, 20);
    let t3 = series_step(z, t5, 6);
    x * t3 / (WIDE as int)
}

/// The cosine of `x` radians by its power series up to the fourteenth
/// power, at eighteen decimal places.
pub open spec fn cos_series(x: int) -> int {
    let z = x * x / (WIDE as int);
    let t14 = series_step(z, WIDE as int, 182);
    let t12 = series_step(z, t14, 132);
    let t10 = series_step(z, t12, 90);
    let t8 = series_step(z, t10, 56);
    let t6 = series_step(z, t8, 30);
    let t4 = series_step(z, t6, 12);
    series_step(z, t4, 2)
}

/// The sine of an angle between zero and a quarter of a turn, at eighteen
/// decimal places: past an eighth of a turn it is the cosine of the
/// complement.
pub open spec fn sin_quadrant(t: int) -> int {
    if t <= EIGHTH_TURN_DEG {
        sin_series(wide_radians(t))
    } else {
        cos_series(wide_radians(QUARTER_TURN_DEG - t))
    }
}

/// The cosine of an angle between zero and a quarter of a turn, at
/// eighteen decimal places.
pub open spec fn cos_quadrant(t: int) -> int {
    if t <= EIGHTH_TURN_DEG {
        cos_series(wide_radians(t))
    } else {
        sin_series(wide_radians(QUARTER_TURN_DEG - t))
    }
}

/// The sine of `angle` degrees at eighteen decimal places. The angle is
/// reduced by whole turns, and each quadrant is read off the first one.
pub open spec fn sin_wide(angle: int) -> int {
    let r = angle % (FULL_TURN_DEG as int);
    let t = r % (QUARTER_TURN_DEG as int);
    let q = r / (QUARTER_TURN_DEG as int);
    if q == 0 {
        sin_quadrant(t)
    } else if q == 1 {
        cos_quadrant(t)
    } else if q == 2 {
        -sin_quadrant(t)
    } else {
        -cos_quadrant(t)
    }
}

/// The cosine of `angle` degrees at eighteen decimal places.
pub open spec fn cos_wide(angle: int) -> int {
    let r = angle % (FULL_TURN_DEG as int);
    let t = r % (QUARTER_TURN_DEG as int);
    let q = r / (QUARTER_TURN_DEG as int);
    if q == 0 {
        cos_quadrant(t)
    } else if q == 1 {
        -sin_quadrant(t)
    } else if q == 2 {
        -cos_quadrant(t)
    } else {
        sin_quadrant(t)
    }
}

/// A value at eighteen decimal places rounded to the nearest fixed-point
/// number, halves away from zero.
pub open spec fn round_wide(v: int) -> int {
    if v >= 0 {
        (v + 500_000_000) / 1_000_000_000
    } else {
        -((-v + 500_000_000) / 1_000_000_000)
    }
}

/// The sine of `angle` degrees.
pub open spec fn sin_deg_spec(angle: i64) -> i64 {
    round_wide(sin_wide(angle as int)) as i64
}

/// The cosine of `angle` degrees.
pub open spec fn cos_deg_spec(angle: i64) -> i64 {
    round_wide(cos_wide(angle as int)) as i64
}

/// The product of two values between zero and one, at eighteen decimal
/// places, is at most one at thirty-six.
proof fn lemma_wide_product(a: int, b: int)
    requires
        0 <= a <= WIDE,
        0 <= b <= WIDE,
    ensures
        0 <= a * b <= WIDE * WIDE,
        WIDE * WIDE == 1_000_000_000_000_000_000_000_000_000_000_000_000,
{
    let w = WIDE as int;
    assert(0 <= a * b <= w * w) by (nonlinear_arith)
        requires
            0 <= a <= w,
            0 <= b <= w,
    ;
    assert(w * w == 1_000_000_000_000_000_000_000_000_000_000_000_000) by (nonlinear_arith)
        requires
            w == 1_000_000_000_000_000_000,
    ;
}

fn wide_radians_of(u: u128) -> (x: u128)
    requires
        u <= EIGHTH_TURN_DEG,
    ensures
        x == wide_radians(u as int),
        x <= WIDE,
{
    u * 17_453_292_519_943_295_769 / 1_000_000_000_000
}

fn series_step_of(z: u128, t: u128, k: u128) -> (r: u128)
    requires
        z <= WIDE,
        t <= WIDE,
        1 <= k <= 200,
    ensures
        r == series_step(z as int, t as int, k as int),
        r <= WIDE,
{
    proof {
        lemma_wide_product(z as int, t as int);
        vstd::arithmetic::div_mod::lemma_div_is_ordered_by_denominator(
            z * t,
            WIDE as int,
            k * WIDE,
        );
    }
    WIDE - (z * t) / (k * WIDE)
}

fn sin_series_of(x: u128) -> (r: i128)
    requires
        x <= WIDE,
    ensures
        r == sin_series(x as int),
        0 <= r <= WIDE,
{
    proof {
        lemma_wide_product(x as int, x as int);
    }
    let z = x * x / WIDE;
    let t13 = series_step_of(z, WIDE, 156);
    let t11 = series_step_of(z, t13, 110);
    let t9 = series_step_of(z, t11, 72);
    let t7 = series_step_of(z, t9, 42);
    let t5 = series_step_of(z, t7, 20);
    let t3 = series_step_of(z, t5, 6);
    proof {
        lemma_wide_product(x as int, t3 as int);
    }
    (x * t3 / WIDE) as i128
}

fn cos_series_of(x: u128) -> (r: i128)
    requires
        x <= WIDE,
    ensures
        r == cos_series(x as int),
        0 <= r <= WIDE,
{
    proof {
        lemma_wide_product(x as int, x as int);
    }
    let z = x * x / WIDE;
    let t14 = series_step_of(z, WIDE, 182);
    let t12 = series_step_of(z, t14, 132);
    let t10 = series_step_of(z, t12, 90);
    let t8 = series_step_of(z, t10, 56);
    let t6 = series_step_of(z, t8, 30);
    let t4 = series_step_of(z, t6, 12);
    series_step_of(z, t4, 2) as i128
}

fn sin_quadrant_of(t: u128) -> (r: i128)
    requires
        t < QUARTER_TURN_DEG,
    ensures
        r == sin_quadrant(t as int),
        0 <= r <= WIDE,
{
    if t <= EIGHTH_TURN_DEG as u128 {
        sin_series_of(wide_radians_of(t))
    } else {
        cos_series_of(wide_radians_of(QUARTER_TURN_DEG as u128 - t))
    }
}

fn cos_quadrant_of(t: u128) -> (r: i128)
    requires
        t < QUARTER_TURN_DEG,
    ensures
        r == cos_quadrant(t as int),
        0 <= r <= WIDE,
{
    if t <= EIGHTH_TURN_DEG as u128 {
        cos_series_of(wide_radians_of(t))
    } else {
        sin_series_of(wide_radians_of(QUARTER_TURN_DEG as u128 - t))
    }
}

/// The angle brought into `[0, 360)` degrees by whole turns.
fn turn_remainder(angle: i64) -> (r: u128)
    ensures
        r == (angle as int) % (FULL_TURN_DEG as int),
        r < FULL_TURN_DEG,
{
    let m: i64 = angle % FULL_TURN_DEG;
    if m < 0 {
        (m + FULL_TURN_DEG) as u128
    } else {
        m as u128
    }
}

fn sin_wide_of(angle: i64) -> (r: i128)
    ensures
        r == sin_wide(angle as int),
        -WIDE <= r <= WIDE,
{
    let r = turn_remainder(angle);
    let t = r % (QUARTER_TURN_DEG as u128);
    let q = r / (QUARTER_TURN_DEG as u128);
    if q == 0 {
        sin_quadrant_of(t)
    } else if q == 1 {
        cos_quadrant_of(t)
    } else if q == 2 {
        -sin_quadrant_of(t)
    } else {
        -cos_quadrant_of(t)
    }
}

fn cos_wide_of(angle: i64) -> (r: i128)
    ensures
        r == cos_wide(angle as int),
        -WIDE <= r <= WIDE,
{
    let r = turn_remainder(angle);
    let t = r % (QUARTER_TURN_DEG as u128);
    let q = r / (QUARTER_TURN_DEG as u128);
    if q == 0 {
        cos_quadrant_of(t)
    } else if q == 1 {
        -sin_quadrant_of(t)
    } else if q == 2 {
        -cos_quadrant_of(t)
    } else {
        sin_quadrant_of(t)
    }
}

fn round_wide_of(v: i128) -> (r: i64)
    requires
        -WIDE <= v <= WIDE,
    ensures
        r == round_wide(v as int),
        -SCALE <= r <= SCALE,
{
    if v >= 0 {
        ((v + 500_000_000) / 1_000_000_000) as i64
    } else {
        (-((-v + 500_000_000) / 1_000_000_000)) as i64
    }
}

/// Computes the sine of `angle` degrees, a fixed-point number between
/// minus one and one.
#[verifier::when_used_as_spec(sin_deg_spec)]
pub fn sin_deg(angle: i64) -> (r: i64)
    ensures
        r == sin_deg_spec(angle),
        -SCALE <= r <= SCALE,
{
    round_wide_of(sin_wide_of(angle))
}

/// Computes the cosine of `angle` degrees, a fixed-point number between
/// minus one and one.
#[verifier::when_used_as_spec(cos_deg_spec)]
pub fn cos_deg(angle: i64) -> (r: i64)
    ensures
        r == cos_deg_spec(angle),
        -SCALE <= r <= SCALE,
{
    round_wide_of(cos_wide_of(angle))
}

/// Sine and cosine at zero and at half a turn.
pub proof fn lemma_trig_at_axes()
    ensures
        sin_wide(0) == 0,
        cos_wide(0) == WIDE,
        sin_wide(HALF_TURN_DEG as int) == 0,
        cos_wide(HALF_TURN_DEG as int) == -WIDE,
{
    assert(wide_radians(0) == 0);
    assert(sin_series(0) == 0);
    assert(cos_series(0) == WIDE);
}

/// The largest magnitude of a coordinate handed to the inverse functions.
const COORD_LIMIT: i128 = 0x1_0000_0000_0000_0000;

/// How far the direction of `theta` degrees lies clockwise of the vector
/// `(x, y)`: the cross product of the unit vector at `theta` with `(x, y)`.
/// It is positive while `theta` is short of the vector's direction and
/// negative once it is past it.
pub open spec fn cross_spec(y: int, x: int, theta: int) -> int {
    y * cos_wide(theta) - x * sin_wide(theta)
}

/// The angle that bisection arrives at between `lo` and `hi`: the interval
/// is halved, keeping the half over which the cross product changes sign,
/// until its ends are neighbours; the lower end is the result.
pub open spec fn bisect_angle(y: int, x: int, lo: int, hi: int) -> int
    decreases hi - lo,
{
    if hi - lo <= 1 {
        lo
    } else {
        let mid = lo + (hi - lo) / 2;
        if cross_spec(y, x, mid) >= 0 {
            bisect_angle(y, x, mid, hi)
        } else {
            bisect_angle(y, x, lo, mid)
        }
    }
}

/// The direction of the vector `(x, y)` in degrees, in (-180, 180]. On the
/// positive x axis, and for the null vector, it is zero; on the negative x
/// axis half a turn; above the axis the angle found by bisection between
/// zero and half a turn; below it the mirror image of the direction of
/// `(x, -y)`.
pub open spec fn atan2_spec(y: int, x: int) -> int {
    if y == 0 {
        if x >= 0 {
            0
        } else {
            HALF_TURN_DEG as int
        }
    } else if y > 0 {
        bisect_angle(y, x, 0, HALF_TURN_DEG as int)
    } else {
        -bisect_angle(-y, x, 0, HALF_TURN_DEG as int)
    }
}

/// Bisection stays within the interval it starts from.
pub proof fn lemma_bisect_angle_range(y: int, x: int, lo: int, hi: int)
    requires
        lo < hi,
    ensures
        lo <= bisect_angle(y, x, lo, hi) < hi,
    decreases hi - lo,
{
    if hi - lo > 1 {
        let mid = lo + (hi - lo) / 2;
        if cross_spec(y, x, mid) >= 0 {
            lemma_bisect_angle_range(y, x, mid, hi);
        } else {
            lemma_bisect_angle_range(y, x, lo, mid);
        }
    }
}

/// The direction of a vector lies in (-180, 180] degrees, and from zero
/// up for a vector that does not point below the x axis.
pub proof fn lemma_atan2_range(y: int, x: int)
    ensures
        -HALF_TURN_DEG < atan2_spec(y, x) <= HALF_TURN_DEG,
        y >= 0 ==> atan2_spec(y, x) >= 0,
{
    if y > 0 {
        lemma_bisect_angle_range(y, x, 0, HALF_TURN_DEG as int);
    } else if y < 0 {
        lemma_bisect_angle_range(-y, x, 0, HALF_TURN_DEG as int);
    }
}

/// The angle of a cosine between minus one and one lies in `[0, 180]`
/// degrees.
pub proof fn lemma_acos_ratio_range(num: int, den: int)
    requires
        -den <= num <= den,
    ensures
        0 <= acos_ratio_spec(num, den) <= HALF_TURN_DEG,
{
    assert(den * den - num * num >= 0) by (nonlinear_arith)
        requires
            -den <= num <= den,
    ;
    lemma_sqrt_exists(den * den - num * num);
    lemma_atan2_range(isqrt_spec(den * den - num * num), num);
}

fn cross_of(y: i128, x: i128, theta: i64) -> (c: i128)
    requires
        -COORD_LIMIT <= y <= COORD_LIMIT,
        -COORD_LIMIT <= x <= COORD_LIMIT,
    ensures
        c == cross_spec(y as int, x as int, theta as int),
{
    let cs = cos_wide_of(theta);
    let sn = sin_wide_of(theta);
    proof {
        let m = COORD_LIMIT as int;
        let s = WIDE as int;
        assert(-m * s <= y * cs <= m * s) by (nonlinear_arith)
            requires
                -m <= y <= m,
                -s <= cs <= s,
        ;
        assert(-m * s <= x * sn <= m * s) by (nonlinear_arith)
            requires
                -m <= x <= m,
                -s <= sn <= s,
        ;
    }
    y * cs - x * sn
}

/// Bisection between zero and half a turn for a vector above the x axis.
fn bisect_upper(y: i128, x: i128) -> (r: i64)
    requires
        0 < y <= COORD_LIMIT,
        -COORD_LIMIT <= x <= COORD_LIMIT,
    ensures
        r == bisect_angle(y as int, x as int, 0, HALF_TURN_DEG as int),
        0 <= r < HALF_TURN_DEG,
        cross_spec(y as int, x as int, r as int) >= 0,
        cross_spec(y as int, x as int, r + 1) < 0,
{
    let mut lo: i64 = 0;
    let mut hi: i64 = HALF_TURN_DEG;
    proof {
        lemma_trig_at_axes();
        assert(y * (WIDE as int) > 0) by (nonlinear_arith)
            requires
                y > 0,
                WIDE > 0,
        ;
        assert(y * (-(WIDE as int)) < 0) by (nonlinear_arith)
            requires
                y > 0,
                WIDE > 0,
        ;
    }
    while hi - lo > 1
        invariant
            0 <= lo < hi <= HALF_TURN_DEG,
            0 < y <= COORD_LIMIT,
            -COORD_LIMIT <= x <= COORD_LIMIT,
            cross_spec(y as int, x as int, lo as int) >= 0,
            cross_spec(y as int, x as int, hi as int) < 0,
            bisect_angle(y as int, x as int, lo as int, hi as int) == bisect_angle(
                y as int,
                x as int,
                0,
                HALF_TURN_DEG as int,
            ),
        decreases hi - lo,
    {
        let mid: i64 = lo + (hi - lo) / 2;
        if cross_of(y, x, mid) >= 0 {
            lo = mid;
        } else {
            hi = mid;
        }
    }
    lo
}

/// The direction of a vector whose coordinates may exceed `i64`.
fn atan2_wide(y: i128, x: i128) -> (r: i64)
    requires
        -COORD_LIMIT <= y <= COORD_LIMIT,
        -COORD_LIMIT <= x <= COORD_LIMIT,
    ensures
        r == atan2_spec(y as int, x as int),
        -HALF_TURN_DEG < r <= HALF_TURN_DEG,
        y >= 0 ==> r >= 0,
        y < 0 ==> r <= 0,
        y > 0 ==> cross_spec(y as int, x as int, r as int) >= 0 && cross_spec(
            y as int,
            x as int,
            r + 1,
        ) < 0,
        y < 0 ==> cross_spec(-y as int, x as int, -r as int) >= 0 && cross_spec(
            -y as int,
            x as int,
            -r + 1,
        ) < 0,
{
    if y == 0 {
        if x >= 0 {
            0
        } else {
            HALF_TURN_DEG
        }
    } else if y > 0 {
        bisect_upper(y, x)
    } else {
        -bisect_upper(-y, x)
    }
}

/// Computes the direction of the vector `(x, y)` in degrees, in
/// (-180, 180]. Off the x axis the result is the angle at which the cross
/// product with the vector changes sign: for a vector above the axis it is
/// not negative at the result and negative one step further, and for a
/// vector below the axis the same holds of its mirror image.
pub fn atan2_deg(y: i64, x: i64) -> (r: i64)
    ensures
        r == atan2_spec(y as int, x as int),
        -HALF_TURN_DEG < r <= HALF_TURN_DEG,
        y >= 0 ==> r >= 0,
        y < 0 ==> r <= 0,
        y > 0 ==> cross_spec(y as int, x as int, r as int) >= 0 && cross_spec(
            y as int,
            x as int,
            r + 1,
        ) < 0,
        y < 0 ==> cross_spec(-y as int, x as int, -r as int) >= 0 && cross_spec(
            -y as int,
            x as int,
            -r + 1,
        ) < 0,
{
    atan2_wide(y as i128, x as i128)
}

/// The angle in `[0, 180]` degrees whose cosine is `num / den`: the
/// direction of the vector with that x coordinate on the upper half of the
/// circle of radius `den`.
pub open spec fn acos_ratio_spec(num: int, den: int) -> int {
    atan2_spec(isqrt_spec(den * den - num * num), num)
}

/// Computes the angle in `[0, 180]` degrees whose cosine is `num / den`.
/// It is zero for the cosine one and half a turn for minus one; in between
/// it is the angle at which the cross product with the vector of that
/// cosine on the upper half circle changes sign.
pub fn acos_ratio(num: i128, den: i128) -> (r: i64)
    requires
        0 < den <= u64::MAX,
        -den <= num <= den,
    ensures
        r == acos_ratio_spec(num as int, den as int),
        0 <= r <= HALF_TURN_DEG,
        num == den ==> r == 0,
        num == -den ==> r == HALF_TURN_DEG,
        -den < num < den ==> cross_spec(isqrt_spec(den * den - num * num), num as int, r as int)
            >= 0 && cross_spec(isqrt_spec(den * den - num * num), num as int, r + 1) < 0,
{
    let d: u128 = den as u128;
    let n: u128 = if num < 0 {
        (-num) as u128
    } else {
        num as u128
    };
    proof {
        let m: int = u64::MAX as int;
        assert(0 <= n * n <= d * d <= m * m) by (nonlinear_arith)
            requires
                0 <= n <= d <= m,
        ;
        assert(m * m == 0xffff_ffff_ffff_fffe_0000_0000_0000_0001) by (nonlinear_arith)
            requires
                m == 0xffff_ffff_ffff_ffff,
        ;
        assert(n * n == num * num) by (nonlinear_arith)
            requires
                n == num || n == -num,
        ;
        assert(n == d ==> d * d - n * n == 0) by (nonlinear_arith);
        assert(n < d ==> d * d - n * n > 0) by (nonlinear_arith)
            requires
                0 <= n,
        ;
    }
    let s = isqrt(d * d - n * n);
    proof {
        assert(is_sqrt(den * den, den as int)) by (nonlinear_arith)
            requires
                den > 0,
        ;
        lemma_sqrt_monotonic(den * den - num * num, s as int, den * den, den as int);
        let square = den * den - num * num;
        if n == d {
            assert(s == 0) by (nonlinear_arith)
                requires
                    s >= 0,
                    s * s <= square,
                    square == 0,
            ;
        } else {
            assert(s > 0) by (nonlinear_arith)
                requires
                    s >= 0,
                    square < (s + 1) * (s + 1),
                    square > 0,
            ;
        }
    }
    atan2_wide(s as i128, num)
}

} // verus!
