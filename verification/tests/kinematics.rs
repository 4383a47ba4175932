use robot_arm::fixed::SCALE;
use robot_arm::kinematics::{
    degrees_to_radians, forward_kinematics, inverse_kinematics, solve_arm, wrist_anchor,
};
use robot_arm::robot_state::{limit_angle, shortest_angle_diff, Coord4DOF, JointState};

const NANO: f64 = 1e9;

fn fx(v: f64) -> i64 {
    (v * NANO).round() as i64
}

fn pose(x: f64, y: f64, z: f64, theta: f64) -> Coord4DOF {
    Coord4DOF { x: fx(x), y: fx(y), z: fx(z), theta: fx(theta) }
}

fn joints(swing: f64, lift: f64, elbow: f64, wrist: f64, gripper: f64) -> JointState {
    JointState {
        swing_rotation_deg: fx(swing),
        lift_elevation_mm: fx(lift),
        elbow_rotation_deg: fx(elbow),
        wrist_rotation_deg: fx(wrist),
        gripper_open_mm: fx(gripper),
    }
}

fn origin() -> Coord4DOF {
    Coord4DOF::default()
}

#[test]
fn degrees_convert_to_radians() {
    assert_eq!(degrees_to_radians(fx(180.0)), 3_141_592_654);
    assert_eq!(degrees_to_radians(fx(-90.0)), -1_570_796_327);
    assert_eq!(degrees_to_radians(0), 0);
}

#[test]
fn forward_kinematics_of_the_stretched_arm() {
    let tip = forward_kinematics(JointState::default(), origin());
    assert_eq!(tip, pose(3.5, 0.0, 0.0, 0.0));
}

#[test]
fn forward_kinematics_adds_the_base_and_the_lift() {
    let tip = forward_kinematics(joints(0.0, 500.0, 0.0, 0.0, 0.0), pose(1.0, 2.0, 0.25, 90.0));
    assert_eq!(tip, pose(1.0, 5.5, 0.75, 90.0));
}

#[test]
fn forward_kinematics_of_a_bent_arm() {
    let tip = forward_kinematics(joints(90.0, 0.0, -90.0, -90.0, 0.0), origin());
    assert_eq!(tip, pose(1.0, 1.5, 0.0, -90.0));
}

#[test]
fn forward_kinematics_does_not_wrap_the_heading() {
    let tip = forward_kinematics(joints(170.0, 0.0, 170.0, 170.0, 0.0), pose(0.0, 0.0, 0.0, 170.0));
    assert_eq!(tip.theta, fx(680.0));
}

#[test]
fn wrist_anchor_without_feedforward() {
    let anchor = wrist_anchor(
        pose(2.5, 0.0, 0.5, 0.0),
        origin(),
        pose(0.01, 0.02, 0.03, 1.0),
        pose(3.5, 0.0, 0.0, 0.0),
        false,
    );
    assert_eq!(anchor, pose(2.0, 0.0, 0.5, 0.0));
}

#[test]
fn wrist_anchor_with_feedforward_counters_the_base() {
    let anchor = wrist_anchor(
        pose(2.5, 1.0, 0.5, 0.0),
        pose(0.5, 0.0, 0.0, 0.0),
        pose(0.05, 0.0, 0.01, 0.0),
        pose(3.5, 0.0, 0.0, 0.0),
        true,
    );
    assert_eq!(anchor, pose(2.0 - 2.22 * 0.05 - 0.5, 1.0, 0.5 - 2.22 * 0.01, 0.0));
}

#[test]
fn wrist_anchor_with_feedforward_takes_the_heading_back() {
    let anchor = wrist_anchor(
        pose(0.0, 0.0, 0.0, 179.0),
        origin(),
        pose(0.0, 0.0, 0.0, -3.0),
        origin(),
        true,
    );
    assert_eq!(anchor.theta, fx(179.0 + 6.66 - 360.0));
}

#[test]
fn solve_arm_for_a_cardinal_anchor() {
    let solution = solve_arm(pose(2.0, 0.0, 0.5, 0.0), 0, fx(120.0)).unwrap();
    let elbow = -(180.0 - 0.25_f64.acos().to_degrees());
    let swing = 0.875_f64.acos().to_degrees();
    assert!((solution.elbow_rotation_deg as f64 / NANO - elbow).abs() < 1e-6);
    assert!((solution.swing_rotation_deg as f64 / NANO - swing).abs() < 1e-6);
    assert!((solution.wrist_rotation_deg as f64 / NANO - (0.0 - elbow - swing)).abs() < 1e-6);
    assert_eq!(solution.lift_elevation_mm, fx(500.0));
    assert_eq!(solution.gripper_open_mm, fx(120.0));
}

#[test]
fn solve_arm_at_the_ends_of_its_reach() {
    let stretched = solve_arm(pose(3.0, 0.0, 0.0, 0.0), 0, 0).unwrap();
    assert_eq!(stretched, joints(0.0, 0.0, 0.0, 0.0, 0.0));
    let folded = solve_arm(pose(1.0, 0.0, 0.0, 0.0), 0, 0).unwrap();
    assert_eq!(folded, joints(0.0, 0.0, 180.0, 180.0, 0.0));
}

#[test]
fn solve_arm_fails_out_of_reach() {
    assert_eq!(solve_arm(pose(3.0, 0.0, 0.0, 0.0), 0, 0).is_some(), true);
    assert_eq!(solve_arm(Coord4DOF { x: 3_000_000_001, y: 0, z: 0, theta: 0 }, 0, 0), None);
    assert_eq!(solve_arm(Coord4DOF { x: 999_999_999, y: 0, z: 0, theta: 0 }, 0, 0), None);
    assert_eq!(solve_arm(pose(0.0, 0.0, 0.0, 0.0), 0, 0), None);
    assert_eq!(solve_arm(pose(9.5, 0.0, 0.5, 0.0), 0, 0), None);
    assert_eq!(solve_arm(Coord4DOF { x: i64::MIN, y: i64::MIN, z: 0, theta: 0 }, 0, 0), None);
}

#[test]
fn solve_arm_limits_the_lift() {
    let high = solve_arm(pose(2.0, 0.0, 5.0, 0.0), 0, 0).unwrap();
    assert_eq!(high.lift_elevation_mm, fx(3000.0));
    let low = solve_arm(pose(2.0, 0.0, -1.0, 0.0), 0, 0).unwrap();
    assert_eq!(low.lift_elevation_mm, 0);
}

#[test]
fn inverse_kinematics_is_relative_to_the_base() {
    let base = pose(1.0, -1.0, 0.2, 30.0);
    let solution = inverse_kinematics(
        pose(3.0, 0.5, 0.9, 75.0),
        JointState::default(),
        base,
        origin(),
        0,
        false,
    )
    .unwrap();
    let tip = forward_kinematics(solution, base);
    assert!((tip.x - fx(3.0)).abs() < 1000);
    assert!((tip.y - fx(0.5)).abs() < 1000);
    assert!((tip.z - fx(0.9)).abs() < 1000);
    assert!(shortest_angle_diff(limit_angle(tip.theta), fx(75.0)).abs() < 100_000);
}

#[test]
fn forward_kinematics_undoes_inverse_kinematics() {
    let bases = [origin(), pose(0.5, 0.5, 0.0, 45.0), pose(-2.0, 1.0, 0.3, -120.0)];
    let mut solved = 0;
    for base in bases {
        let mut radius = 0.6_f64;
        while radius < 3.6 {
            let mut bearing = -180.0_f64;
            while bearing < 180.0 {
                let mut heading = -170.0_f64;
                while heading < 180.0 {
                    let target = Coord4DOF {
                        x: base.x + fx(radius * bearing.to_radians().cos()),
                        y: base.y + fx(radius * bearing.to_radians().sin()),
                        z: base.z + fx(1.25),
                        theta: fx(heading),
                    };
                    let found = inverse_kinematics(
                        target,
                        JointState::default(),
                        base,
                        origin(),
                        0,
                        false,
                    );
                    if let Some(solution) = found {
                        solved += 1;
                        let tip = forward_kinematics(solution, base);
                        assert!((tip.x - target.x).abs() < 1000, "x at {:?}", target);
                        assert!((tip.y - target.y).abs() < 1000, "y at {:?}", target);
                        assert!((tip.z - target.z).abs() < 1000, "z at {:?}", target);
                        let turn = shortest_angle_diff(limit_angle(tip.theta), target.theta);
                        assert!(turn.abs() < 100_000, "theta at {:?}", target);
                    }
                    heading += 35.0;
                }
                bearing += 17.0;
            }
            radius += 0.29;
        }
    }
    assert!(solved > 1000);
}
