use robot_arm::fixed::SCALE;
use robot_arm::robot_state::{Coord4DOF, JointState, RobotState};

fn joints(swing: i64, lift: i64, elbow: i64, wrist: i64, gripper: i64) -> JointState {
    JointState {
        swing_rotation_deg: swing * SCALE,
        lift_elevation_mm: lift * SCALE,
        elbow_rotation_deg: elbow * SCALE,
        wrist_rotation_deg: wrist * SCALE,
        gripper_open_mm: gripper * SCALE,
    }
}

fn pose(x: i64, y: i64, z: i64, theta: i64) -> Coord4DOF {
    Coord4DOF { x: x * SCALE, y: y * SCALE, z: z * SCALE, theta: theta * SCALE }
}

#[test]
fn defaults_are_zero() {
    assert_eq!(JointState::default(), joints(0, 0, 0, 0, 0));
    assert_eq!(Coord4DOF::default(), pose(0, 0, 0, 0));
    assert_eq!(
        RobotState::default(),
        RobotState { joint_state: joints(0, 0, 0, 0, 0), base_state: pose(0, 0, 0, 0) }
    );
}

#[test]
fn check_limits_wraps_angles_and_saturates_lengths() {
    let mut js = joints(540, 0, -200, 0, 400);
    js.check_limits();
    assert_eq!(js, joints(180, 0, 160, 0, 300));

    let mut js = joints(-180, -5, 181, 359, -1);
    js.check_limits();
    assert_eq!(js, joints(180, 0, -179, -1, 0));

    let mut js = joints(0, 3001, 0, 0, 300);
    js.check_limits();
    assert_eq!(js, joints(0, 3000, 0, 0, 300));
}

#[test]
fn check_limits_keeps_a_state_within_limits() {
    let mut js = joints(180, 3000, -179, 90, 0);
    js.check_limits();
    assert_eq!(js, joints(180, 3000, -179, 90, 0));
    let once = js;
    js.check_limits();
    assert_eq!(js, once);
}

#[test]
fn joint_values_scale_and_divide() {
    let mut js = joints(10, 20, -30, 40, 50);
    assert_eq!(js.val_mul(SCALE / 2), joints(5, 10, -15, 20, 25));
    assert_eq!(js.val_div(2 * SCALE), joints(5, 10, -15, 20, 25));
    assert_eq!(js, joints(10, 20, -30, 40, 50));
    assert_eq!(js.val_mul(5_000_000).swing_rotation_deg, 50_000_000);
}

#[test]
fn clamped_sub_turns_angles_the_short_way() {
    let lhs = joints(170, 100, -170, 10, 50);
    let rhs = joints(-170, 40, 170, 20, 80);
    assert_eq!(JointState::clamped_sub(lhs, rhs), joints(-20, 60, 20, -10, -30));
}

#[test]
fn joint_states_add_subtract_and_multiply_by_component() {
    let a = joints(1, 2, 3, 4, 5);
    let b = joints(10, 20, 30, 40, 50);
    assert_eq!(a + b, joints(11, 22, 33, 44, 55));
    assert_eq!(b - a, joints(9, 18, 27, 36, 45));
    assert_eq!(a * b, joints(10, 40, 90, 160, 250));
}

#[test]
fn poses_add_and_subtract_by_component() {
    let a = pose(1, 2, 3, 4);
    let b = pose(10, 20, 30, 40);
    assert_eq!(a + b, pose(11, 22, 33, 44));
    assert_eq!(a - b, pose(-9, -18, -27, -36));
}

#[test]
fn poses_scale() {
    let a = pose(1, -2, 3, 90);
    assert_eq!(a.val_mul(2 * SCALE), pose(2, -4, 6, 180));
    assert_eq!(a.apply_control(2 * SCALE, SCALE / 2), pose(2, -4, 6, 45));
}

#[test]
fn poses_clamp_position_and_heading_apart() {
    let mut a = pose(5, -5, 1, 90);
    a.clamp(2 * SCALE, 45 * SCALE);
    assert_eq!(a, pose(2, -2, 1, 45));
    let mut b = pose(0, 0, 0, -90);
    b.clamp(2 * SCALE, 45 * SCALE);
    assert_eq!(b, pose(0, 0, 0, -45));
}
