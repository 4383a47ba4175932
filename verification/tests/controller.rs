use robot_arm::controller::{
    base_velocity, clamp_joint_rates, control_step, joint_acceleration, joint_velocity, pace,
    ControlInput,
};
use robot_arm::fixed::SCALE;
use robot_arm::robot_state::{Coord4DOF, JointState, RobotState};

const NANO: f64 = 1e9;

fn fx(v: f64) -> i64 {
    (v * NANO).round() as i64
}

fn pose(x: f64, y: f64, z: f64, theta: f64) -> Coord4DOF {
    Coord4DOF { x: fx(x), y: fx(y), z: fx(z), theta: fx(theta) }
}

fn joints(swing: f64, lift: f64, elbow: f64, wrist: f64, gripper: f64) -> JointState {
    JointState {
        swing_rotation_deg: fx(swing),
        lift_elevation_mm: fx(lift),
        elbow_rotation_deg: fx(elbow),
        wrist_rotation_deg: fx(wrist),
        gripper_open_mm: fx(gripper),
    }
}

#[test]
fn joint_rates_are_clamped_by_link_length() {
    let wild = joints(100.0, -100.0, -100.0, 100.0, 100.0);
    assert_eq!(
        clamp_joint_rates(wild, 18 * SCALE, 80 * SCALE),
        joints(9.0, -80.0, -18.0, 36.0, 80.0)
    );
    assert_eq!(
        clamp_joint_rates(wild, 9 * SCALE, 40 * SCALE),
        joints(4.5, -40.0, -9.0, 18.0, 40.0)
    );
    let mild = joints(1.0, 2.0, -3.0, 4.0, -5.0);
    assert_eq!(clamp_joint_rates(mild, 18 * SCALE, 80 * SCALE), mild);
}

#[test]
fn base_velocity_is_proportional_near_the_target() {
    let v = base_velocity(pose(0.0, 0.0, 0.0, 0.0), pose(0.1, -0.02, 0.0, 4.0));
    assert_eq!(v, pose(0.05, -0.01, 0.0, 1.8));
}

#[test]
fn base_velocity_saturates_far_from_the_target() {
    let v = base_velocity(pose(0.0, 0.0, 0.0, 0.0), pose(0.5, -7.0, 0.13, 45.0));
    assert_eq!(v, pose(0.06, -0.06, 0.06, 3.0));
}

#[test]
fn base_velocity_turns_the_short_way() {
    let v = base_velocity(pose(0.0, 0.0, 0.0, 179.0), pose(0.0, 0.0, 0.0, -179.0));
    assert_eq!(v, pose(0.0, 0.0, 0.0, 0.9));
}

#[test]
fn joint_acceleration_follows_the_gains() {
    let a = joint_acceleration(
        joints(0.0, 0.0, 0.0, 0.0, 0.0),
        joints(1.0, 2.0, -2.0, 4.0, -8.0),
        joints(0.1, 1.0, 0.2, -0.4, 0.5),
    );
    assert_eq!(
        a,
        joints(
            0.7 * 1.0 - 1.5 * 0.1,
            2.5 * 2.0 - 4.0 * 1.0,
            0.7 * -2.0 - 1.5 * 0.2,
            0.7 * 4.0 - 1.5 * -0.4,
            2.5 * -8.0 - 4.0 * 0.5
        )
    );
}

#[test]
fn joint_acceleration_saturates() {
    let a = joint_acceleration(
        joints(0.0, 0.0, 0.0, 0.0, 0.0),
        joints(90.0, 1000.0, -90.0, 90.0, -300.0),
        JointState::default(),
    );
    assert_eq!(a, joints(4.5, 40.0, -9.0, 18.0, -40.0));
}

#[test]
fn joint_velocity_integrates_the_acceleration() {
    let v = joint_velocity(
        joints(0.0, 0.0, 0.0, 0.0, 0.0),
        joints(90.0, 1000.0, -90.0, 90.0, -300.0),
        joints(1.0, 1.0, 1.0, 1.0, 1.0),
    );
    assert_eq!(
        v,
        joints(
            1.0 + 4.5 * 0.005,
            1.0 + 40.0 * 0.005,
            1.0 - 9.0 * 0.005,
            1.0 + 18.0 * 0.005,
            1.0 - 40.0 * 0.005
        )
    );
}

#[test]
fn joint_velocity_saturates() {
    let v = joint_velocity(
        joints(0.0, 0.0, 0.0, 0.0, 0.0),
        joints(90.0, 1000.0, -90.0, 90.0, -300.0),
        joints(9.0, 80.0, -18.0, 36.0, -80.0),
    );
    assert_eq!(v, joints(9.0, 80.0, -18.0, 36.0, -80.0));
}

#[test]
fn control_step_moves_state_by_velocity_times_period() {
    let input = ControlInput {
        joint_state: joints(10.0, 100.0, 20.0, 30.0, 40.0),
        joint_target: joints(90.0, 1000.0, -90.0, 120.0, 300.0),
        base_state: pose(1.0, 1.0, 0.0, 0.0),
        base_target: pose(2.0, 0.0, 0.0, 90.0),
        velocity: RobotState {
            joint_state: joints(9.0, 80.0, -18.0, 36.0, 80.0),
            base_state: pose(0.0, 0.0, 0.0, 0.0),
        },
    };
    let output = control_step(input);
    assert_eq!(output.velocity().joint_state, joints(9.0, 80.0, -18.0, 36.0, 80.0));
    assert_eq!(output.velocity().base_state, pose(0.06, -0.06, 0.0, 3.0));
    assert_eq!(output.state().joint_state, joints(10.045, 100.4, 19.91, 30.18, 40.4));
    assert_eq!(output.state().base_state, pose(1.0003, 0.9997, 0.0, 0.015));
}

#[test]
fn control_step_wraps_and_saturates_the_new_state() {
    let input = ControlInput {
        joint_state: joints(180.0, 3000.0, 0.0, 0.0, 300.0),
        joint_target: joints(-170.0, 3000.0, 0.0, 0.0, 300.0),
        base_state: pose(0.0, 0.0, 0.0, 0.0),
        base_target: pose(0.0, 0.0, 0.0, 0.0),
        velocity: RobotState {
            joint_state: joints(9.0, 80.0, 0.0, 0.0, 80.0),
            base_state: pose(0.0, 0.0, 0.0, 0.0),
        },
    };
    let output = control_step(input);
    assert_eq!(output.state().joint_state.lift_elevation_mm, fx(3000.0));
    assert_eq!(output.state().joint_state.gripper_open_mm, fx(300.0));
    let swing = output.state().joint_state.swing_rotation_deg;
    assert!(swing < 0 && swing > fx(-180.0));
}

#[test]
fn pace_leaves_the_rest_of_the_period() {
    assert_eq!(pace(5000, 1200), 3800);
    assert_eq!(pace(5000, 0), 5000);
    assert_eq!(pace(5000, 5000), 0);
    assert_eq!(pace(5000, 7500), 0);
    assert_eq!(pace(0, 0), 0);
}
