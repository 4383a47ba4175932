//! Angle helpers and the value types of the robot model.

use crate::constants::{FULL_TURN_DEG, GRIPPER_WIDTH_MM, HALF_TURN_DEG, LIFT_HEIGHT_MM};
use crate::fixed::{fadd, fdiv, fmul, fsub, narrow, saturate};
use vstd::prelude::*;

verus! {

/// The representative of `angle` modulo a full turn that lies in
/// (-180, 180] degrees.
pub open spec fn limit_angle_spec(angle: i64) -> i64 {
    (HALF_TURN_DEG - (HALF_TURN_DEG - angle) % (FULL_TURN_DEG as int)) as i64
}

/// Whether `angle` lies in (-180, 180] degrees.
pub open spec fn is_canonical_angle(angle: i64) -> bool {
    -HALF_TURN_DEG < angle <= HALF_TURN_DEG
}

/// Wraps an angle in degrees into (-180, 180].
#[verifier::when_used_as_spec(limit_angle_spec)]
pub fn limit_angle(angle: i64) -> (r: i64)
    ensures
        r == limit_angle_spec(angle),
        is_canonical_angle(r),
        (angle - r) % (FULL_TURN_DEG as int) == 0,
{
    let m: i128 = (HALF_TURN_DEG as i128 - angle as i128) % (FULL_TURN_DEG as i128);
    let e: i128 = if m < 0 {
        m + FULL_TURN_DEG as i128
    } else {
        m
    };
    (HALF_TURN_DEG as i128 - e) as i64
}

/// Wrapping an angle that is already wrapped changes nothing.
pub proof fn lemma_limit_angle_idempotent(angle: i64)
    ensures
        limit_angle_spec(limit_angle_spec(angle)) == limit_angle_spec(angle),
{
}

/// An angle in (-180, 180] is its own wrapped value, and the wrapped value
/// is the only angle of that interval that differs from `angle` by whole
/// turns.
pub proof fn lemma_limit_angle_unique(angle: i64, r: i64)
    requires
        is_canonical_angle(r),
        (angle - r) % (FULL_TURN_DEG as int) == 0,
    ensures
        limit_angle_spec(angle) == r,
{
}

/// `val` held between `-clamp_val` and `clamp_val`: below the lower bound
/// it is the lower bound, above the upper bound the upper bound.
pub open spec fn clamp_spec(val: i64, clamp_val: i64) -> i64 {
    if val < -clamp_val {
        saturate(-clamp_val) as i64
    } else if val > clamp_val {
        clamp_val
    } else {
        val
    }
}

/// Saturates `val` to `[-clamp_val, clamp_val]`.
#[verifier::when_used_as_spec(clamp_spec)]
pub fn clamp(val: i64, clamp_val: i64) -> (r: i64)
    ensures
        r == clamp_spec(val, clamp_val),
        clamp_val >= 0 ==> -clamp_val <= r <= clamp_val,
        -clamp_val <= val <= clamp_val ==> r == val,
{
    let low: i128 = -(clamp_val as i128);
    if (val as i128) < low {
        narrow(low)
    } else if val > clamp_val {
        clamp_val
    } else {
        val
    }
}

/// The signed rotation from `angle2` to `angle1` the short way round, before
/// it is narrowed to `i64`: the difference itself while it is at most half
/// a turn in magnitude, else the difference taken one turn the other way.
pub open spec fn angle_diff(angle1: int, angle2: int) -> int {
    let d = angle1 - angle2;
    if d > HALF_TURN_DEG {
        d - FULL_TURN_DEG
    } else if d < -HALF_TURN_DEG {
        d + FULL_TURN_DEG
    } else {
        d
    }
}

/// The shortest signed rotation from `angle2` to `angle1`, saturating.
pub open spec fn shortest_angle_diff_spec(angle1: i64, angle2: i64) -> i64 {
    saturate(angle_diff(angle1 as int, angle2 as int)) as i64
}

/// Returns the shortest signed rotation, in degrees, that takes `angle2` to
/// `angle1`.
#[verifier::when_used_as_spec(shortest_angle_diff_spec)]
pub fn shortest_angle_diff(angle1: i64, angle2: i64) -> (r: i64)
    ensures
        r == shortest_angle_diff_spec(angle1, angle2),
{
    let d: i128 = angle1 as i128 - angle2 as i128;
    if d > HALF_TURN_DEG as i128 {
        narrow(d - FULL_TURN_DEG as i128)
    } else if d < -(HALF_TURN_DEG as i128) {
        narrow(d + FULL_TURN_DEG as i128)
    } else {
        narrow(d)
    }
}

/// For two angles at most a turn and a half apart, the shortest rotation
/// between them is at most half a turn in magnitude.
pub proof fn lemma_shortest_angle_diff_range(angle1: i64, angle2: i64)
    requires
        -(FULL_TURN_DEG + HALF_TURN_DEG) <= angle1 - angle2 <= FULL_TURN_DEG + HALF_TURN_DEG,
    ensures
        -HALF_TURN_DEG <= shortest_angle_diff_spec(angle1, angle2) <= HALF_TURN_DEG,
        shortest_angle_diff_spec(angle1, angle2) == angle_diff(angle1 as int, angle2 as int),
{
}

/// Two wrapped angles are less than a full turn apart, so the shortest
/// rotation between them is at most half a turn in magnitude.
pub proof fn lemma_shortest_angle_diff_canonical(angle1: i64, angle2: i64)
    requires
        is_canonical_angle(angle1),
        is_canonical_angle(angle2),
    ensures
        -HALF_TURN_DEG <= shortest_angle_diff_spec(angle1, angle2) <= HALF_TURN_DEG,
{
}

/// Taking the shortest rotation away from `angle1` gives `angle2` again, up
/// to whole turns, whenever the rotation is not cut off by the range of
/// `i64`.
pub proof fn lemma_shortest_angle_diff_congruent(angle1: i64, angle2: i64)
    requires
        i64::MIN <= angle_diff(angle1 as int, angle2 as int) <= i64::MAX,
    ensures
        (angle1 - shortest_angle_diff_spec(angle1, angle2) - angle2) % (FULL_TURN_DEG as int)
            == 0,
{
}

/// A linear joint value held in `[0, limit]`: above the limit it is the
/// limit, below zero it is zero.
pub open spec fn limit_travel(val: i64, limit: i64) -> i64 {
    if limit < val {
        limit
    } else if 0 > val {
        0
    } else {
        val
    }
}

/// The five joint values of the arm. As a position the angles are degrees
/// and the lengths millimetres; the same shape holds rates and gains.
#[derive(Clone, Copy, Debug, PartialEq, Eq, Structural)]
pub struct JointState {
    /// Swing rotation (degrees).
    pub swing_rotation_deg: i64,
    /// Lift elevation (mm).
    pub lift_elevation_mm: i64,
    /// Elbow rotation (degrees).
    pub elbow_rotation_deg: i64,
    /// Wrist rotation (degrees).
    pub wrist_rotation_deg: i64,
    /// Gripper opening (mm).
    pub gripper_open_mm: i64,
}

impl Default for JointState {
    fn default() -> (r: JointState)
        ensures
            r == JointState::zero(),
    {
        JointState {
            swing_rotation_deg: 0,
            lift_elevation_mm: 0,
            elbow_rotation_deg: 0,
            wrist_rotation_deg: 0,
            gripper_open_mm: 0,
        }
    }
}

impl JointState {
    /// The joint state with every value zero.
    pub open spec fn zero() -> JointState {
        JointState {
            swing_rotation_deg: 0,
            lift_elevation_mm: 0,
            elbow_rotation_deg: 0,
            wrist_rotation_deg: 0,
            gripper_open_mm: 0,
        }
    }

    /// Whether every angle lies in (-180, 180] degrees and both lengths lie
    /// within their travel.
    pub open spec fn within_limits(self) -> bool {
        &&& is_canonical_angle(self.swing_rotation_deg)
        &&& is_canonical_angle(self.elbow_rotation_deg)
        &&& is_canonical_angle(self.wrist_rotation_deg)
        &&& 0 <= self.lift_elevation_mm <= LIFT_HEIGHT_MM
        &&& 0 <= self.gripper_open_mm <= GRIPPER_WIDTH_MM
    }

    /// The joint state brought within limits: angles wrapped, lengths
    /// saturated.
    pub open spec fn limited(self) -> JointState {
        JointState {
            swing_rotation_deg: limit_angle_spec(self.swing_rotation_deg),
            lift_elevation_mm: limit_travel(self.lift_elevation_mm, LIFT_HEIGHT_MM),
            elbow_rotation_deg: limit_angle_spec(self.elbow_rotation_deg),
            wrist_rotation_deg: limit_angle_spec(self.wrist_rotation_deg),
            gripper_open_mm: limit_travel(self.gripper_open_mm, GRIPPER_WIDTH_MM),
        }
    }

    /// Every value multiplied by `mul`.
    pub open spec fn scaled(self, mul: i64) -> JointState {
        JointState {
            swing_rotation_deg: fmul(self.swing_rotation_deg, mul),
            lift_elevation_mm: fmul(self.lift_elevation_mm, mul),
            elbow_rotation_deg: fmul(self.elbow_rotation_deg, mul),
            wrist_rotation_deg: fmul(self.wrist_rotation_deg, mul),
            gripper_open_mm: fmul(self.gripper_open_mm, mul),
        }
    }

    /// Every value divided by `val`.
    pub open spec fn divided(self, val: i64) -> JointState
        recommends
            val != 0,
    {
        JointState {
            swing_rotation_deg: fdiv(self.swing_rotation_deg, val),
            lift_elevation_mm: fdiv(self.lift_elevation_mm, val),
            elbow_rotation_deg: fdiv(self.elbow_rotation_deg, val),
            wrist_rotation_deg: fdiv(self.wrist_rotation_deg, val),
            gripper_open_mm: fdiv(self.gripper_open_mm, val),
        }
    }

    /// The error between two joint states: the shortest rotation for each
    /// angle, the plain difference for each length.
    pub open spec fn clamped_sub_spec(lhs: JointState, rhs: JointState) -> JointState {
        JointState {
            swing_rotation_deg: shortest_angle_diff_spec(
                lhs.swing_rotation_deg,
                rhs.swing_rotation_deg,
            ),
            lift_elevation_mm: fsub(lhs.lift_elevation_mm, rhs.lift_elevation_mm),
            elbow_rotation_deg: shortest_angle_diff_spec(
                lhs.elbow_rotation_deg,
                rhs.elbow_rotation_deg,
            ),
            wrist_rotation_deg: shortest_angle_diff_spec(
                lhs.wrist_rotation_deg,
                rhs.wrist_rotation_deg,
            ),
            gripper_open_mm: fsub(lhs.gripper_open_mm, rhs.gripper_open_mm),
        }
    }

    /// Ensures the joint state is within the limits of what is possible:
    /// wraps each angle into (-180, 180] and saturates each length to its
    /// travel.
    pub fn check_limits(&mut self)
        ensures
            *final(self) == old(self).limited(),
            final(self).within_limits(),
            old(self).within_limits() ==> *final(self) == *old(self),
    {
        self.swing_rotation_deg = limit_angle(self.swing_rotation_deg);
        self.elbow_rotation_deg = limit_angle(self.elbow_rotation_deg);
        self.wrist_rotation_deg = limit_angle(self.wrist_rotation_deg);

        if LIFT_HEIGHT_MM < self.lift_elevation_mm {
            self.lift_elevation_mm = LIFT_HEIGHT_MM;
        } else if 0 > self.lift_elevation_mm {
            self.lift_elevation_mm = 0;
        }

        if GRIPPER_WIDTH_MM < self.gripper_open_mm {
            self.gripper_open_mm = GRIPPER_WIDTH_MM;
        } else if 0 > self.gripper_open_mm {
            self.gripper_open_mm = 0;
        }
    }

    /// Multiplies each joint value by `mul`.
    pub fn val_mul(&mut self, mul: i64) -> (output: JointState)
        ensures
            output == old(self).scaled(mul),
            *final(self) == *old(self),
    {
        JointState {
            swing_rotation_deg: fmul(self.swing_rotation_deg, mul),
            lift_elevation_mm: fmul(self.lift_elevation_mm, mul),
            elbow_rotation_deg: fmul(self.elbow_rotation_deg, mul),
            wrist_rotation_deg: fmul(self.wrist_rotation_deg, mul),
            gripper_open_mm: fmul(self.gripper_open_mm, mul),
        }
    }

    /// Divides each joint value by `val`.
    pub fn val_div(&mut self, val: i64) -> (output: JointState)
        requires
            val != 0,
        ensures
            output == old(self).divided(val),
            *final(self) == *old(self),
    {
        JointState {
            swing_rotation_deg: fdiv(self.swing_rotation_deg, val),
            lift_elevation_mm: fdiv(self.lift_elevation_mm, val),
            elbow_rotation_deg: fdiv(self.elbow_rotation_deg, val),
            wrist_rotation_deg: fdiv(self.wrist_rotation_deg, val),
            gripper_open_mm: fdiv(self.gripper_open_mm, val),
        }
    }

    /// Finds the difference between two joint states, turning each angle
    /// the short way round.
    pub fn clamped_sub(lhs: JointState, rhs: JointState) -> (output: JointState)
        ensures
            output == JointState::clamped_sub_spec(lhs, rhs),
    {
        let mut output = lhs - rhs;

        output.swing_rotation_deg =
            shortest_angle_diff(lhs.swing_rotation_deg, rhs.swing_rotation_deg);
        output.elbow_rotation_deg =
            shortest_angle_diff(lhs.elbow_rotation_deg, rhs.elbow_rotation_deg);
        output.wrist_rotation_deg =
            shortest_angle_diff(lhs.wrist_rotation_deg, rhs.wrist_rotation_deg);

        output
    }
}

impl vstd::std_specs::ops::AddSpecImpl for JointState {
    open spec fn obeys_add_spec() -> bool {
        true
    }

    open spec fn add_req(self, rhs: JointState) -> bool {
        true
    }

    open spec fn add_spec(self, rhs: JointState) -> JointState {
        JointState {
            swing_rotation_deg: fadd(self.swing_rotation_deg, rhs.swing_rotation_deg),
            lift_elevation_mm: fadd(self.lift_elevation_mm, rhs.lift_elevation_mm),
            elbow_rotation_deg: fadd(self.elbow_rotation_deg, rhs.elbow_rotation_deg),
            wrist_rotation_deg: fadd(self.wrist_rotation_deg, rhs.wrist_rotation_deg),
            gripper_open_mm: fadd(self.gripper_open_mm, rhs.gripper_open_mm),
        }
    }
}

impl core::ops::Add for JointState {
    type Output = JointState;

    fn add(self, rhs: JointState) -> (r: JointState) {
        JointState {
            swing_rotation_deg: fadd(self.swing_rotation_deg, rhs.swing_rotation_deg),
            lift_elevation_mm: fadd(self.lift_elevation_mm, rhs.lift_elevation_mm),
            elbow_rotation_deg: fadd(self.elbow_rotation_deg, rhs.elbow_rotation_deg),
            wrist_rotation_deg: fadd(self.wrist_rotation_deg, rhs.wrist_rotation_deg),
            gripper_open_mm: fadd(self.gripper_open_mm, rhs.gripper_open_mm),
        }
    }
}

impl vstd::std_specs::ops::SubSpecImpl for JointState {
    open spec fn obeys_sub_spec() -> bool {
        true
    }

    open spec fn sub_req(self, rhs: JointState) -> bool {
        true
    }

    open spec fn sub_spec(self, rhs: JointState) -> JointState {
        JointState {
            swing_rotation_deg: fsub(self.swing_rotation_deg, rhs.swing_rotation_deg),
            lift_elevation_mm: fsub(self.lift_elevation_mm, rhs.lift_elevation_mm),
            elbow_rotation_deg: fsub(self.elbow_rotation_deg, rhs.elbow_rotation_deg),
            wrist_rotation_deg: fsub(self.wrist_rotation_deg, rhs.wrist_rotation_deg),
            gripper_open_mm: fsub(self.gripper_open_mm, rhs.gripper_open_mm),
        }
    }
}

impl core::ops::Sub for JointState {
    type Output = JointState;

    fn sub(self, rhs: JointState) -> (r: JointState) {
        JointState {
            swing_rotation_deg: fsub(self.swing_rotation_deg, rhs.swing_rotation_deg),
            lift_elevation_mm: fsub(self.lift_elevation_mm, rhs.lift_elevation_mm),
            elbow_rotation_deg: fsub(self.elbow_rotation_deg, rhs.elbow_rotation_deg),
            wrist_rotation_deg: fsub(self.wrist_rotation_deg, rhs.wrist_rotation_deg),
            gripper_open_mm: fsub(self.gripper_open_mm, rhs.gripper_open_mm),
        }
    }
}

impl vstd::std_specs::ops::MulSpecImpl for JointState {
    open spec fn obeys_mul_spec() -> bool {
        true
    }

    open spec fn mul_req(self, rhs: JointState) -> bool {
        true
    }

    open spec fn mul_spec(self, rhs: JointState) -> JointState {
        JointState {
            swing_rotation_deg: fmul(self.swing_rotation_deg, rhs.swing_rotation_deg),
            lift_elevation_mm: fmul(self.lift_elevation_mm, rhs.lift_elevation_mm),
            elbow_rotation_deg: fmul(self.elbow_rotation_deg, rhs.elbow_rotation_deg),
            wrist_rotation_deg: fmul(self.wrist_rotation_deg, rhs.wrist_rotation_deg),
            gripper_open_mm: fmul(self.gripper_open_mm, rhs.gripper_open_mm),
        }
    }
}

impl core::ops::Mul for JointState {
    type Output = JointState;

    fn mul(self, rhs: JointState) -> (r: JointState) {
        JointState {
            swing_rotation_deg: fmul(self.swing_rotation_deg, rhs.swing_rotation_deg),
            lift_elevation_mm: fmul(self.lift_elevation_mm, rhs.lift_elevation_mm),
            elbow_rotation_deg: fmul(self.elbow_rotation_deg, rhs.elbow_rotation_deg),
            wrist_rotation_deg: fmul(self.wrist_rotation_deg, rhs.wrist_rotation_deg),
            gripper_open_mm: fmul(self.gripper_open_mm, rhs.gripper_open_mm),
        }
    }
}

/// A joint state brought within limits is within limits: every angle lies
/// in (-180, 180] degrees, the lift within its travel and the gripper
/// within its width.
pub proof fn lemma_limited_within_limits(joint_state: JointState)
    ensures
        joint_state.limited().within_limits(),
{
}

/// Bringing a joint state within limits a second time changes nothing, and
/// a joint state within limits is left as it is.
pub proof fn lemma_limited_idempotent(joint_state: JointState)
    ensures
        joint_state.limited().limited() == joint_state.limited(),
        joint_state.within_limits() ==> joint_state.limited() == joint_state,
{
}

/// A pose in the world frame: a position in metres and a heading in
/// degrees. It stands for the pose of the base and for that of the gripper
/// tip; the same shape holds their rates and errors.
#[derive(Clone, Copy, Debug, PartialEq, Eq, Structural)]
pub struct Coord4DOF {
    pub x: i64,
    pub y: i64,
    pub z: i64,
    pub theta: i64,
}

impl Default for Coord4DOF {
    fn default() -> (r: Coord4DOF)
        ensures
            r == Coord4DOF::zero(),
    {
        Coord4DOF { x: 0, y: 0, z: 0, theta: 0 }
    }
}

impl Coord4DOF {
    /// The pose at the origin with heading zero.
    pub open spec fn zero() -> Coord4DOF {
        Coord4DOF { x: 0, y: 0, z: 0, theta: 0 }
    }

    /// The position multiplied by `linear` and the heading by `angular`.
    pub open spec fn controlled(self, linear: i64, angular: i64) -> Coord4DOF {
        Coord4DOF {
            x: fmul(self.x, linear),
            y: fmul(self.y, linear),
            z: fmul(self.z, linear),
            theta: fmul(self.theta, angular),
        }
    }

    /// The position saturated to `clamp_pos` along each axis and the heading
    /// to `clamp_ang`.
    pub open spec fn clamped(self, clamp_pos: i64, clamp_ang: i64) -> Coord4DOF {
        Coord4DOF {
            x: clamp_spec(self.x, clamp_pos),
            y: clamp_spec(self.y, clamp_pos),
            z: clamp_spec(self.z, clamp_pos),
            theta: clamp_spec(self.theta, clamp_ang),
        }
    }

    /// Whether the position lies within `bound_pos` along each axis and the
    /// heading within `bound_ang`.
    pub open spec fn within(self, bound_pos: i64, bound_ang: i64) -> bool {
        &&& -bound_pos <= self.x <= bound_pos
        &&& -bound_pos <= self.y <= bound_pos
        &&& -bound_pos <= self.z <= bound_pos
        &&& -bound_ang <= self.theta <= bound_ang
    }

    /// Multiplies each component by `val`.
    pub fn val_mul(&self, val: i64) -> (output: Coord4DOF)
        ensures
            output == self.controlled(val, val),
    {
        Coord4DOF {
            x: fmul(self.x, val),
            y: fmul(self.y, val),
            z: fmul(self.z, val),
            theta: fmul(self.theta, val),
        }
    }

    /// Applies a linear and an angular gain: the position is multiplied by
    /// `linear`, the heading by `angular`.
    pub fn apply_control(&self, linear: i64, angular: i64) -> (output: Coord4DOF)
        ensures
            output == self.controlled(linear, angular),
    {
        Coord4DOF {
            x: fmul(self.x, linear),
            y: fmul(self.y, linear),
            z: fmul(self.z, linear),
            theta: fmul(self.theta, angular),
        }
    }

    /// Clamps the position to `clamp_pos` along each axis and the heading to
    /// `clamp_ang`.
    pub fn clamp(&mut self, clamp_pos: i64, clamp_ang: i64)
        ensures
            *final(self) == old(self).clamped(clamp_pos, clamp_ang),
            clamp_pos >= 0 && clamp_ang >= 0 ==> final(self).within(clamp_pos, clamp_ang),
            old(self).within(clamp_pos, clamp_ang) ==> *final(self) == *old(self),
    {
        self.x = clamp(self.x, clamp_pos);
        self.y = clamp(self.y, clamp_pos);
        self.z = clamp(self.z, clamp_pos);
        self.theta = clamp(self.theta, clamp_ang);
    }
}

impl vstd::std_specs::ops::AddSpecImpl for Coord4DOF {
    open spec fn obeys_add_spec() -> bool {
        true
    }

    open spec fn add_req(self, rhs: Coord4DOF) -> bool {
        true
    }

    open spec fn add_spec(self, rhs: Coord4DOF) -> Coord4DOF {
        Coord4DOF {
            x: fadd(self.x, rhs.x),
            y: fadd(self.y, rhs.y),
            z: fadd(self.z, rhs.z),
            theta: fadd(self.theta, rhs.theta),
        }
    }
}

impl core::ops::Add for Coord4DOF {
    type Output = Coord4DOF;

    fn add(self, rhs: Coord4DOF) -> (r: Coord4DOF) {
        Coord4DOF {
            x: fadd(self.x, rhs.x),
            y: fadd(self.y, rhs.y),
            z: fadd(self.z, rhs.z),
            theta: fadd(self.theta, rhs.theta),
        }
    }
}

impl vstd::std_specs::ops::SubSpecImpl for Coord4DOF {
    open spec fn obeys_sub_spec() -> bool {
        true
    }

    open spec fn sub_req(self, rhs: Coord4DOF) -> bool {
        true
    }

    open spec fn sub_spec(self, rhs: Coord4DOF) -> Coord4DOF {
        Coord4DOF {
            x: fsub(self.x, rhs.x),
            y: fsub(self.y, rhs.y),
            z: fsub(self.z, rhs.z),
            theta: fsub(self.theta, rhs.theta),
        }
    }
}

impl core::ops::Sub for Coord4DOF {
    type Output = Coord4DOF;

    fn sub(self, rhs: Coord4DOF) -> (r: Coord4DOF) {
        Coord4DOF {
            x: fsub(self.x, rhs.x),
            y: fsub(self.y, rhs.y),
            z: fsub(self.z, rhs.z),
            theta: fsub(self.theta, rhs.theta),
        }
    }
}

/// Holds both the joint and base state of the robot.
#[derive(Clone, Copy, Debug, PartialEq, Eq, Structural)]
pub struct RobotState {
    pub joint_state: JointState,
    pub base_state: Coord4DOF,
}

impl Default for RobotState {
    fn default() -> (r: RobotState)
        ensures
            r == RobotState::zero(),
    {
        RobotState { joint_state: JointState::default(), base_state: Coord4DOF::default() }
    }
}

impl RobotState {
    /// The state with every joint value and the base pose zero.
    pub open spec fn zero() -> RobotState {
        RobotState { joint_state: JointState::zero(), base_state: Coord4DOF::zero() }
    }
}

} // verus!
