//! Forward and inverse kinematics of the three-link planar arm on its
//! turning, lifting base.

use crate::constants::{
    ELBOW_LENGTH_M, FEEDFORWARD_FACTOR, FULL_TURN_DEG, GRIPPER_LENGTH_M, HALF_TURN_DEG,
    LIFT_HEIGHT_MM, MM_PER_M, WRIST_LENGTH_M,
};
use crate::fixed::{fadd, fdiv, fmul, fsub};
use crate::robot_state::{limit_angle, Coord4DOF, JointState};
use crate::trig::{
    acos_ratio, acos_ratio_spec, atan2_deg, atan2_spec, cos_deg, isqrt, isqrt_spec,
    lemma_acos_ratio_range, lemma_atan2_range, sin_deg,
};
use vstd::prelude::*;

verus! {

/// The ratio of a circle's circumference to its diameter.
pub const PI: i64 = 3_141_592_654;

/// An angle in degrees expressed in radians.
pub open spec fn degrees_to_radians_spec(degrees: i64) -> i64 {
    fdiv(fmul(degrees, PI), HALF_TURN_DEG)
}

/// Converts an angle from degrees to radians.
#[verifier::when_used_as_spec(degrees_to_radians_spec)]
pub fn degrees_to_radians(degrees: i64) -> (r: i64)
    ensures
        r == degrees_to_radians_spec(degrees),
{
    fdiv(fmul(degrees, PI), HALF_TURN_DEG)
}

/// The pose of the gripper tip for the given joint values and base pose.
///
/// The three links turn in the horizontal plane: each link's heading is
/// the heading before it plus its joint angle, starting from the heading of
/// the base. The tip lies at the end of the chain of links laid out from the
/// base position, at the height of the base plus the lift, and points along
/// the last link. The heading is not wrapped.
pub open spec fn forward_kinematics_spec(joint_state: JointState, base_state: Coord4DOF)
    -> Coord4DOF {
    let yaw1 = fadd(base_state.theta, joint_state.swing_rotation_deg);
    let yaw2 = fadd(yaw1, joint_state.elbow_rotation_deg);
    let yaw3 = fadd(yaw2, joint_state.wrist_rotation_deg);
    Coord4DOF {
        x: fadd(
            fadd(
                fadd(base_state.x, fmul(ELBOW_LENGTH_M, cos_deg(yaw1))),
                fmul(WRIST_LENGTH_M, cos_deg(yaw2)),
            ),
            fmul(GRIPPER_LENGTH_M, cos_deg(yaw3)),
        ),
        y: fadd(
            fadd(
                fadd(base_state.y, fmul(ELBOW_LENGTH_M, sin_deg(yaw1))),
                fmul(WRIST_LENGTH_M, sin_deg(yaw2)),
            ),
            fmul(GRIPPER_LENGTH_M, sin_deg(yaw3)),
        ),
        z: fadd(fdiv(joint_state.lift_elevation_mm, MM_PER_M), base_state.z),
        theta: yaw3,
    }
}

/// Computes the pose of the gripper tip from the joint values and the base
/// pose.
#[verifier::when_used_as_spec(forward_kinematics_spec)]
pub fn forward_kinematics(joint_state: JointState, base_state: Coord4DOF) -> (coords: Coord4DOF)
    ensures
        coords == forward_kinematics_spec(joint_state, base_state),
{
    let yaw1 = fadd(base_state.theta, joint_state.swing_rotation_deg);
    let yaw2 = fadd(yaw1, joint_state.elbow_rotation_deg);
    let yaw3 = fadd(yaw2, joint_state.wrist_rotation_deg);

    let mut x = base_state.x;
    let mut y = base_state.y;

    x = fadd(x, fmul(ELBOW_LENGTH_M, cos_deg(yaw1)));
    y = fadd(y, fmul(ELBOW_LENGTH_M, sin_deg(yaw1)));

    x = fadd(x, fmul(WRIST_LENGTH_M, cos_deg(yaw2)));
    y = fadd(y, fmul(WRIST_LENGTH_M, sin_deg(yaw2)));

    x = fadd(x, fmul(GRIPPER_LENGTH_M, cos_deg(yaw3)));
    y = fadd(y, fmul(GRIPPER_LENGTH_M, sin_deg(yaw3)));

    Coord4DOF {
        x,
        y,
        z: fadd(fdiv(joint_state.lift_elevation_mm, MM_PER_M), base_state.z),
        theta: yaw3,
    }
}

/// The heading that the gripper link is solved for. With feed-forward the
/// base is expected to keep turning at `base_rate_theta` for the
/// feed-forward time, so the target heading is taken back by that much and
/// wrapped; without it the target heading is taken as it is.
pub open spec fn effector_angle_spec(
    target_theta: i64,
    base_rate_theta: i64,
    apply_feedforward: bool,
) -> i64 {
    if apply_feedforward {
        limit_angle(fsub(target_theta, fmul(base_rate_theta, FEEDFORWARD_FACTOR)))
    } else {
        target_theta
    }
}

/// Where the wrist has to be, relative to the base, for the gripper tip to
/// reach `target` with the gripper link at the heading of
/// `effector_angle_spec`, which the result carries as its `theta`.
///
/// With feed-forward the anchor is moved against the motion that the base
/// imparts to the tip over the feed-forward time: its own linear velocity
/// and the velocity that its turning gives the tip at its present place
/// `current`.
pub open spec fn wrist_anchor_spec(
    target: Coord4DOF,
    base_state: Coord4DOF,
    base_velocity: Coord4DOF,
    current: Coord4DOF,
    apply_feedforward: bool,
) -> Coord4DOF {
    let theta = effector_angle_spec(target.theta, base_velocity.theta, apply_feedforward);
    if apply_feedforward {
        let turn_rate = degrees_to_radians(base_velocity.theta);
        let x_rate = fsub(base_velocity.x, fmul(current.y, turn_rate));
        let y_rate = fadd(base_velocity.y, fmul(current.x, turn_rate));
        Coord4DOF {
            x: fsub(
                fsub(fsub(target.x, base_state.x), fmul(FEEDFORWARD_FACTOR, x_rate)),
                fmul(GRIPPER_LENGTH_M, cos_deg(theta)),
            ),
            y: fsub(
                fsub(fsub(target.y, base_state.y), fmul(FEEDFORWARD_FACTOR, y_rate)),
                fmul(GRIPPER_LENGTH_M, sin_deg(theta)),
            ),
            z: fsub(fsub(target.z, base_state.z), fmul(FEEDFORWARD_FACTOR, base_velocity.z)),
            theta,
        }
    } else {
        Coord4DOF {
            x: fsub(fsub(target.x, base_state.x), fmul(GRIPPER_LENGTH_M, cos_deg(theta))),
            y: fsub(fsub(target.y, base_state.y), fmul(GRIPPER_LENGTH_M, sin_deg(theta))),
            z: fsub(target.z, base_state.z),
            theta,
        }
    }
}

/// Computes the wrist anchor for a target pose of the gripper tip.
pub fn wrist_anchor(
    target: Coord4DOF,
    base_state: Coord4DOF,
    base_velocity: Coord4DOF,
    current: Coord4DOF,
    apply_feedforward: bool,
) -> (anchor: Coord4DOF)
    ensures
        anchor == wrist_anchor_spec(target, base_state, base_velocity, current, apply_feedforward),
{
    if apply_feedforward {
        let theta = limit_angle(fsub(target.theta, fmul(base_velocity.theta, FEEDFORWARD_FACTOR)));
        let turn_rate = degrees_to_radians(base_velocity.theta);
        let x_rate = fsub(base_velocity.x, fmul(current.y, turn_rate));
        let y_rate = fadd(base_velocity.y, fmul(current.x, turn_rate));
        Coord4DOF {
            x: fsub(
                fsub(fsub(target.x, base_state.x), fmul(FEEDFORWARD_FACTOR, x_rate)),
                fmul(GRIPPER_LENGTH_M, cos_deg(theta)),
            ),
            y: fsub(
                fsub(fsub(target.y, base_state.y), fmul(FEEDFORWARD_FACTOR, y_rate)),
                fmul(GRIPPER_LENGTH_M, sin_deg(theta)),
            ),
            z: fsub(fsub(target.z, base_state.z), fmul(FEEDFORWARD_FACTOR, base_velocity.z)),
            theta,
        }
    } else {
        let theta = target.theta;
        Coord4DOF {
            x: fsub(fsub(target.x, base_state.x), fmul(GRIPPER_LENGTH_M, cos_deg(theta))),
            y: fsub(fsub(target.y, base_state.y), fmul(GRIPPER_LENGTH_M, sin_deg(theta))),
            z: fsub(target.z, base_state.z),
            theta,
        }
    }
}

/// The horizontal distance from the base to the wrist anchor, rounded down
/// to a fixed-point number of metres.
pub open spec fn reach_spec(anchor: Coord4DOF) -> int {
    isqrt_spec(anchor.x * anchor.x + anchor.y * anchor.y)
}

/// Numerator of the cosine of the angle inside the elbow, between the first
/// two links, when the wrist is at distance `c`. By the law of cosines the
/// cosine is `(ELBOW^2 + WRIST^2 - c^2) / (2 * ELBOW * WRIST)`.
pub open spec fn elbow_cosine_num(c: int) -> int {
    ELBOW_LENGTH_M * ELBOW_LENGTH_M + WRIST_LENGTH_M * WRIST_LENGTH_M - c * c
}

/// Denominator of the cosine of the angle inside the elbow.
pub open spec fn elbow_cosine_den() -> int {
    2 * ELBOW_LENGTH_M * WRIST_LENGTH_M
}

/// Numerator of the cosine of the angle at the base between the first link
/// and the line to the wrist at distance `c`:
/// `(ELBOW^2 + c^2 - WRIST^2) / (2 * ELBOW * c)`.
pub open spec fn swing_cosine_num(c: int) -> int {
    ELBOW_LENGTH_M * ELBOW_LENGTH_M + c * c - WRIST_LENGTH_M * WRIST_LENGTH_M
}

/// Denominator of the cosine of the angle at the base.
pub open spec fn swing_cosine_den(c: int) -> int {
    2 * ELBOW_LENGTH_M * c
}

/// Whether the first two links can place the wrist at distance `c`: it is
/// no farther than both links stretched out, and both cosines of the law
/// of cosines lie between minus one and one.
pub open spec fn arm_solvable(c: int) -> bool {
    &&& c <= ELBOW_LENGTH_M + WRIST_LENGTH_M
    &&& -elbow_cosine_den() <= elbow_cosine_num(c) <= elbow_cosine_den()
    &&& -swing_cosine_den(c) <= swing_cosine_num(c) <= swing_cosine_den(c)
}

/// The first two links can place the wrist exactly at the distances from
/// the difference of their lengths to their sum.
pub proof fn lemma_arm_solvable_range(c: int)
    requires
        c >= 0,
    ensures
        arm_solvable(c) <==> ELBOW_LENGTH_M - WRIST_LENGTH_M <= c <= ELBOW_LENGTH_M
            + WRIST_LENGTH_M,
{
    let e = ELBOW_LENGTH_M as int;
    let w = WRIST_LENGTH_M as int;
    assert(e * e == 4_000_000_000_000_000_000 && w * w == 1_000_000_000_000_000_000 && 2 * e * w
        == 4_000_000_000_000_000_000) by (nonlinear_arith)
        requires
            e == 2_000_000_000,
            w == 1_000_000_000,
    ;
    if e - w <= c <= e + w {
        assert((c - (e - w)) * ((e + w) - c) >= 0) by (nonlinear_arith)
            requires
                e - w <= c <= e + w,
        ;
        assert(1_000_000_000_000_000_000 <= c * c <= 9_000_000_000_000_000_000)
            by (nonlinear_arith)
            requires
                1_000_000_000 <= c <= 3_000_000_000,
        ;
        assert(2 * e * c == 4_000_000_000 * c) by (nonlinear_arith)
            requires
                e == 2_000_000_000,
        ;
        assert(c * c + 3_000_000_000_000_000_000 <= 4_000_000_000 * c) by (nonlinear_arith)
            requires
                (c - 1_000_000_000) * (3_000_000_000 - c) >= 0,
        ;
    } else if c < e - w {
        assert(c * c < 1_000_000_000_000_000_000) by (nonlinear_arith)
            requires
                0 <= c < 1_000_000_000,
        ;
    }
}

/// The joint values that place the wrist at `anchor` and point the gripper
/// link along `anchor.theta`, as seen from a base with heading
/// `base_theta`, or `None` where the arm cannot reach.
///
/// Of the two ways to bend the arm the one with the elbow angle negative is
/// taken: the first link leads the line to the wrist by the angle at the
/// base, and the second link bends back by the supplement of the angle
/// inside the elbow. The wrist makes up the difference to the heading of
/// the gripper link, the lift follows the anchor's height in millimetres,
/// and the gripper opening is passed through. All values are then brought
/// within the joint limits.
pub open spec fn arm_solution_spec(anchor: Coord4DOF, base_theta: i64, gripper_open_mm: i64)
    -> Option<JointState> {
    let c = reach_spec(anchor);
    if !arm_solvable(c) {
        None
    } else {
        let elbow = (acos_ratio_spec(elbow_cosine_num(c), elbow_cosine_den())
            - HALF_TURN_DEG) as i64;
        let swing_world = (atan2_spec(anchor.y as int, anchor.x as int) + acos_ratio_spec(
            swing_cosine_num(c),
            swing_cosine_den(c),
        )) as i64;
        Some(
            (JointState {
                swing_rotation_deg: fsub(swing_world, base_theta),
                lift_elevation_mm: fmul(anchor.z, MM_PER_M),
                elbow_rotation_deg: elbow,
                wrist_rotation_deg: fsub(fsub(anchor.theta, elbow), swing_world),
                gripper_open_mm,
            }).limited(),
        )
    }
}

/// Solves the first two links for a wrist anchor and assembles the joint
/// values.
pub fn solve_arm(anchor: Coord4DOF, base_theta: i64, gripper_open_mm: i64) -> (r: Option<
    JointState,
>)
    ensures
        r == arm_solution_spec(anchor, base_theta, gripper_open_mm),
        r is Some ==> r->Some_0.within_limits(),
{
    proof {
        crate::fixed::lemma_product_fits(anchor.x, anchor.x);
        crate::fixed::lemma_product_fits(anchor.y, anchor.y);
        assert(anchor.x * anchor.x >= 0 && anchor.y * anchor.y >= 0) by (nonlinear_arith);
    }
    let xx: u128 = ((anchor.x as i128) * (anchor.x as i128)) as u128;
    let yy: u128 = ((anchor.y as i128) * (anchor.y as i128)) as u128;
    let reach = isqrt(xx + yy);
    if reach > (ELBOW_LENGTH_M + WRIST_LENGTH_M) as u64 {
        return None;
    }
    let c: i128 = reach as i128;
    proof {
        assert(0 <= c * c <= 9_000_000_000_000_000_000) by (nonlinear_arith)
            requires
                0 <= c <= 3_000_000_000,
        ;
        assert(2 * ELBOW_LENGTH_M * c == 4_000_000_000 * c) by (nonlinear_arith)
            requires
                ELBOW_LENGTH_M == 2_000_000_000,
        ;
    }
    let e2: i128 = (ELBOW_LENGTH_M as i128) * (ELBOW_LENGTH_M as i128);
    let w2: i128 = (WRIST_LENGTH_M as i128) * (WRIST_LENGTH_M as i128);
    let c2: i128 = c * c;
    let elbow_num: i128 = e2 + w2 - c2;
    let elbow_den: i128 = 2 * (ELBOW_LENGTH_M as i128) * (WRIST_LENGTH_M as i128);
    if elbow_num > elbow_den || elbow_num < -elbow_den {
        return None;
    }
    let swing_num: i128 = e2 + c2 - w2;
    let swing_den: i128 = 2 * (ELBOW_LENGTH_M as i128) * c;
    if swing_num > swing_den || swing_num < -swing_den {
        return None;
    }
    let elbow: i64 = acos_ratio(elbow_num, elbow_den) - HALF_TURN_DEG;
    let swing_world: i64 = atan2_deg(anchor.y, anchor.x) + acos_ratio(swing_num, swing_den);

    let mut target_state = JointState {
        swing_rotation_deg: fsub(swing_world, base_theta),
        lift_elevation_mm: fmul(anchor.z, MM_PER_M),
        elbow_rotation_deg: elbow,
        wrist_rotation_deg: fsub(fsub(anchor.theta, elbow), swing_world),
        gripper_open_mm,
    };
    target_state.check_limits();
    Some(target_state)
}

/// The joint values that bring the gripper tip to `target`, or `None` where
/// the target is out of reach: the solution of the arm for the wrist anchor
/// of the target.
pub open spec fn inverse_kinematics_spec(
    target: Coord4DOF,
    joint_state: JointState,
    base_state: Coord4DOF,
    base_velocity: Coord4DOF,
    gripper_open_mm: i64,
    apply_feedforward: bool,
) -> Option<JointState> {
    arm_solution_spec(
        wrist_anchor_spec(
            target,
            base_state,
            base_velocity,
            forward_kinematics_spec(joint_state, base_state),
            apply_feedforward,
        ),
        base_state.theta,
        gripper_open_mm,
    )
}

/// Performs inverse kinematics for the current base pose and a target pose
/// of the gripper tip. With `apply_feedforward` the motion of the base is
/// countered in advance. Returns the joint values within their limits, or
/// `None` if the arm cannot reach the target.
pub fn inverse_kinematics(
    target: Coord4DOF,
    joint_state: JointState,
    base_state: Coord4DOF,
    base_velocity: Coord4DOF,
    gripper_open_mm: i64,
    apply_feedforward: bool,
) -> (r: Option<JointState>)
    ensures
        r == inverse_kinematics_spec(
            target,
            joint_state,
            base_state,
            base_velocity,
            gripper_open_mm,
            apply_feedforward,
        ),
        r is Some ==> r->Some_0.within_limits(),
{
    let current = forward_kinematics(joint_state, base_state);
    let anchor = wrist_anchor(target, base_state, base_velocity, current, apply_feedforward);
    solve_arm(anchor, base_state.theta, gripper_open_mm)
}

/// The largest magnitude of a heading for which the sums of angles in the
/// kinematics stay within `i64`: two turns short of its bounds.
pub open spec fn heading_in_range(theta: i64) -> bool {
    i64::MIN + 2 * FULL_TURN_DEG <= theta <= i64::MAX - 2 * FULL_TURN_DEG
}

/// The headings of the three links add up: with the swing taken relative
/// to the base, the elbow as it is and the wrist making up the difference,
/// each wrapped, the last link points along `theta` up to whole turns.
proof fn lemma_link_headings(theta: i64, base_theta: i64, elbow: i64, swing_world: i64)
    requires
        heading_in_range(theta),
        heading_in_range(base_theta),
        -HALF_TURN_DEG <= elbow <= 0,
        -HALF_TURN_DEG < swing_world <= FULL_TURN_DEG,
    ensures
        (fadd(
            fadd(
                fadd(base_theta, limit_angle(fsub(swing_world, base_theta))),
                limit_angle(elbow),
            ),
            limit_angle(fsub(fsub(theta, elbow), swing_world)),
        ) - theta) % (FULL_TURN_DEG as int) == 0,
{
    let swing = limit_angle(fsub(swing_world, base_theta));
    let bend = limit_angle(elbow);
    let wrist = limit_angle(fsub(fsub(theta, elbow), swing_world));
    assert(fsub(swing_world, base_theta) == swing_world - base_theta);
    assert(fsub(fsub(theta, elbow), swing_world) == theta - elbow - swing_world);
    let full = FULL_TURN_DEG as int;
    assert((swing_world - base_theta - swing) % full == 0);
    assert((elbow - bend) % full == 0);
    assert((theta - elbow - swing_world - wrist) % full == 0);
    assert(fadd(fadd(fadd(base_theta, swing), bend), wrist) == base_theta + swing + bend + wrist);
    let a = (swing_world - base_theta - swing) / full;
    let b = (elbow - bend) / full;
    let c = (theta - elbow - swing_world - wrist) / full;
    assert(swing_world - base_theta - swing == a * full);
    assert(elbow - bend == b * full);
    assert(theta - elbow - swing_world - wrist == c * full);
    assert(base_theta + swing + bend + wrist - theta == (-a - b - c) * full);
}

/// A height within the travel of the lift survives the way to millimetres
/// of lift and back.
proof fn lemma_lift_height(target_z: i64, base_z: i64)
    requires
        0 <= (target_z - base_z) * 1000 <= LIFT_HEIGHT_MM,
    ensures
        fadd(
            fdiv(
                crate::robot_state::limit_travel(
                    fmul(fsub(target_z, base_z), MM_PER_M),
                    LIFT_HEIGHT_MM,
                ),
                MM_PER_M,
            ),
            base_z,
        ) == target_z,
{
    let h = fsub(target_z, base_z);
    assert(h == target_z - base_z);
    assert(fmul(h, MM_PER_M) == h * 1000);
    assert(fdiv((h * 1000) as i64, MM_PER_M) == h);
}

/// Forward kinematics gives back the heading and the height that inverse
/// kinematics without feed-forward was asked for.
///
/// Where a solution exists for a target, the headings of the base and of
/// the target being at least two turns away from the bounds of `i64`, the
/// pose of the gripper tip for that solution has the heading of the target
/// up to whole turns. If moreover the target is no lower than the base and
/// no higher above it, in millimetres, than the lift travels, the tip has
/// exactly the height of the target.
pub proof fn lemma_forward_of_inverse_heading_and_height(
    target: Coord4DOF,
    joint_state: JointState,
    base_state: Coord4DOF,
    base_velocity: Coord4DOF,
    gripper_open_mm: i64,
)
    requires
        heading_in_range(target.theta),
        heading_in_range(base_state.theta),
        inverse_kinematics_spec(
            target,
            joint_state,
            base_state,
            base_velocity,
            gripper_open_mm,
            false,
        ) is Some,
    ensures
        ({
            let solution = inverse_kinematics_spec(
                target,
                joint_state,
                base_state,
                base_velocity,
                gripper_open_mm,
                false,
            )->Some_0;
            let tip = forward_kinematics_spec(solution, base_state);
            &&& (tip.theta - target.theta) % (FULL_TURN_DEG as int) == 0
            &&& 0 <= (target.z - base_state.z) * 1000 <= LIFT_HEIGHT_MM ==> tip.z == target.z
        }),
{
    let anchor = wrist_anchor_spec(
        target,
        base_state,
        base_velocity,
        forward_kinematics_spec(joint_state, base_state),
        false,
    );
    assert(anchor.theta == target.theta);
    assert(anchor.z == fsub(target.z, base_state.z));
    let c = reach_spec(anchor);
    assert(arm_solvable(c));
    lemma_acos_ratio_range(elbow_cosine_num(c), elbow_cosine_den());
    lemma_acos_ratio_range(swing_cosine_num(c), swing_cosine_den(c));
    lemma_atan2_range(anchor.y as int, anchor.x as int);
    let elbow = (acos_ratio_spec(elbow_cosine_num(c), elbow_cosine_den()) - HALF_TURN_DEG) as i64;
    let swing_world = (atan2_spec(anchor.y as int, anchor.x as int) + acos_ratio_spec(
        swing_cosine_num(c),
        swing_cosine_den(c),
    )) as i64;
    lemma_link_headings(target.theta, base_state.theta, elbow, swing_world);
    if 0 <= (target.z - base_state.z) * 1000 <= LIFT_HEIGHT_MM {
        lemma_lift_height(target.z, base_state.z);
    }
}

} // verus!
