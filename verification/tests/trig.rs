use robot_arm::trig::{acos_ratio, atan2_deg, cos_deg, isqrt, sin_deg};

const NANO: f64 = 1e9;

fn fx(v: f64) -> i64 {
    (v * NANO).round() as i64
}

#[test]
fn isqrt_rounds_down() {
    assert_eq!(isqrt(0), 0);
    assert_eq!(isqrt(1), 1);
    assert_eq!(isqrt(3), 1);
    assert_eq!(isqrt(4), 2);
    assert_eq!(isqrt(99), 9);
    assert_eq!(isqrt(4_000_000_000_000_000_000), 2_000_000_000);
    assert_eq!(isqrt(u128::MAX), u64::MAX);
}

#[test]
fn sine_and_cosine_at_exact_angles() {
    assert_eq!(sin_deg(0), 0);
    assert_eq!(cos_deg(0), 1_000_000_000);
    assert_eq!(sin_deg(fx(90.0)), 1_000_000_000);
    assert_eq!(cos_deg(fx(90.0)), 0);
    assert_eq!(sin_deg(fx(180.0)), 0);
    assert_eq!(cos_deg(fx(180.0)), -1_000_000_000);
    assert_eq!(sin_deg(fx(-90.0)), -1_000_000_000);
    assert_eq!(sin_deg(fx(30.0)), 500_000_000);
    assert_eq!(cos_deg(fx(60.0)), 500_000_000);
    assert_eq!(cos_deg(fx(120.0)), -500_000_000);
    assert_eq!(sin_deg(fx(45.0)), 707_106_781);
    assert_eq!(cos_deg(fx(45.0)), 707_106_781);
    assert_eq!(sin_deg(fx(390.0)), 500_000_000);
}

#[test]
fn sine_and_cosine_agree_with_floating_point() {
    let mut a = -720.0_f64;
    while a <= 720.0 {
        let s = sin_deg(fx(a)) as f64 / NANO;
        let c = cos_deg(fx(a)) as f64 / NANO;
        assert!((s - a.to_radians().sin()).abs() < 2e-9, "sin {}", a);
        assert!((c - a.to_radians().cos()).abs() < 2e-9, "cos {}", a);
        a += 0.37;
    }
}

#[test]
fn atan2_on_the_axes() {
    assert_eq!(atan2_deg(0, 0), 0);
    assert_eq!(atan2_deg(0, 5), 0);
    assert_eq!(atan2_deg(0, -5), fx(180.0));
}

#[test]
fn atan2_agrees_with_floating_point() {
    let mut a = -179.9_f64;
    while a < 180.0 {
        let y = fx(2.5 * a.to_radians().sin());
        let x = fx(2.5 * a.to_radians().cos());
        let r = atan2_deg(y, x) as f64 / NANO;
        assert!((r - a).abs() < 1e-6, "atan2 at {}: {}", a, r);
        a += 0.73;
    }
}

#[test]
fn acos_agrees_with_floating_point() {
    let den: i128 = 4_000_000_000_000_000_000;
    let mut t = -1.0_f64;
    while t <= 1.0 {
        let num = (t * den as f64) as i128;
        let r = acos_ratio(num, den) as f64 / NANO;
        let want = (num as f64 / den as f64).acos().to_degrees();
        assert!((r - want).abs() < 1e-6, "acos at {}: {} vs {}", t, r, want);
        t += 0.0137;
    }
    assert_eq!(acos_ratio(den, den), 0);
    assert_eq!(acos_ratio(-den, den), fx(180.0));
    assert_eq!(acos_ratio(0, den), fx(90.0));
}
