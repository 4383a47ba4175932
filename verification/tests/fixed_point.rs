use robot_arm::fixed::{fadd, fdiv, fmul, fneg, fsub, narrow, SCALE};

#[test]
fn sums_and_differences_are_exact() {
    assert_eq!(fadd(1_500_000_000, 2_250_000_000), 3_750_000_000);
    assert_eq!(fsub(1_500_000_000, 2_250_000_000), -750_000_000);
    assert_eq!(fneg(7), -7);
}

#[test]
fn sums_saturate_at_the_bounds() {
    assert_eq!(fadd(i64::MAX, 1), i64::MAX);
    assert_eq!(fadd(i64::MIN, -1), i64::MIN);
    assert_eq!(fsub(i64::MIN, 1), i64::MIN);
    assert_eq!(fsub(i64::MAX, -1), i64::MAX);
    assert_eq!(fneg(i64::MIN), i64::MAX);
}

#[test]
fn products_round_toward_zero() {
    assert_eq!(fmul(2 * SCALE, 3 * SCALE), 6 * SCALE);
    assert_eq!(fmul(700_000_000, 1_500_000_000), 1_050_000_000);
    assert_eq!(fmul(3, 500_000_000), 1);
    assert_eq!(fmul(-3, 500_000_000), -1);
    assert_eq!(fmul(1, 1), 0);
    assert_eq!(fmul(-1, 1), 0);
    assert_eq!(fmul(i64::MAX, i64::MAX), i64::MAX);
    assert_eq!(fmul(i64::MAX, i64::MIN), i64::MIN);
}

#[test]
fn quotients_round_toward_zero() {
    assert_eq!(fdiv(18 * SCALE, 2 * SCALE), 9 * SCALE);
    assert_eq!(fdiv(18 * SCALE, 500_000_000), 36 * SCALE);
    assert_eq!(fdiv(SCALE, 3 * SCALE), 333_333_333);
    assert_eq!(fdiv(-SCALE, 3 * SCALE), -333_333_333);
    assert_eq!(fdiv(SCALE, -3 * SCALE), -333_333_333);
    assert_eq!(fdiv(i64::MAX, 1), i64::MAX);
    assert_eq!(fdiv(i64::MIN, 1), i64::MIN);
}

#[test]
fn narrowing_saturates() {
    assert_eq!(narrow(5), 5);
    assert_eq!(narrow(i128::MAX), i64::MAX);
    assert_eq!(narrow(i128::MIN), i64::MIN);
}
