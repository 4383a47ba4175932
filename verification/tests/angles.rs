use robot_arm::fixed::SCALE;
use robot_arm::robot_state::{clamp, limit_angle, shortest_angle_diff};

fn deg(n: i64) -> i64 {
    n * SCALE
}

#[test]
fn limit_angle_wraps_into_half_open_interval() {
    assert_eq!(limit_angle(deg(540)), deg(180));
    assert_eq!(limit_angle(deg(-200)), deg(160));
    assert_eq!(limit_angle(deg(-180)), deg(180));
    assert_eq!(limit_angle(deg(180)), deg(180));
    assert_eq!(limit_angle(deg(0)), 0);
    assert_eq!(limit_angle(deg(181)), deg(-179));
    assert_eq!(limit_angle(deg(-180) + 1), deg(-180) + 1);
}

#[test]
fn clamp_saturates_to_symmetric_interval() {
    assert_eq!(clamp(deg(5), deg(3)), deg(3));
    assert_eq!(clamp(deg(-5), deg(3)), deg(-3));
    assert_eq!(clamp(deg(2), deg(3)), deg(2));
}

#[test]
fn shortest_angle_diff_takes_the_short_way() {
    assert_eq!(shortest_angle_diff(deg(170), deg(-170)), deg(-20));
    assert_eq!(shortest_angle_diff(deg(-170), deg(170)), deg(20));
    assert_eq!(shortest_angle_diff(deg(90), deg(0)), deg(90));
    assert_eq!(shortest_angle_diff(deg(180), deg(0)), deg(180));
    assert_eq!(shortest_angle_diff(deg(0), deg(180)), deg(-180));
}

#[test]
fn limit_angle_is_idempotent_on_samples() {
    let mut a: i64 = -1_000_000_000_000;
    while a <= 1_000_000_000_000 {
        let once = limit_angle(a);
        assert_eq!(limit_angle(once), once);
        assert!(-deg(180) < once && once <= deg(180));
        assert_eq!((a - once) % deg(360), 0);
        a += 7_300_000_001;
    }
}

#[test]
fn shortest_angle_diff_leads_back_up_to_whole_turns() {
    let mut a: i64 = -deg(180) + 1;
    while a <= deg(180) {
        let mut b: i64 = -deg(180) + 1;
        while b <= deg(180) {
            let d = shortest_angle_diff(a, b);
            assert!(-deg(180) <= d && d <= deg(180));
            assert_eq!((a - d - b) % deg(360), 0);
            b += 13_700_000_003;
        }
        a += 11_300_000_007;
    }
}

#[test]
fn shortest_angle_diff_beyond_a_turn_and_a_half() {
    assert_eq!(shortest_angle_diff(deg(720), deg(0)), deg(360));
    assert_eq!(shortest_angle_diff(deg(-720), deg(0)), deg(-360));
}

#[test]
fn clamp_with_extreme_bounds() {
    assert_eq!(clamp(0, i64::MAX), 0);
    assert_eq!(clamp(i64::MIN, i64::MAX), -i64::MAX);
    assert_eq!(clamp(0, i64::MIN), i64::MAX);
    assert_eq!(clamp(deg(1), deg(-3)), deg(3));
}
