//! One step of the controller: a proportional-derivative law that turns
//! the distance to the targets into a base velocity and a joint
//! acceleration, each held within its limits, and integrates them over one
//! period.

use crate::constants::{
    ANGLE_D, ANGLE_P, BASE_ANGLE_D, BASE_ANGLE_P, BASE_LINEAR_D, BASE_LINEAR_P,
    CONTROLLER_LOOP_TIME_S, ELBOW_LENGTH_M, GRIPPER_LENGTH_M, LINEAR_D, LINEAR_P,
    MAX_ANGULAR_ACCELERATION, MAX_ANGULAR_VELOCITY, MAX_BASE_ANGLE_VEL, MAX_BASE_LINEAR_VEL,
    MAX_LINEAR_ACCELERATION, MAX_LINEAR_VELOCITY,
};
use crate::fixed::{fdiv, fmul, fsub};
use crate::robot_state::{clamp, shortest_angle_diff, Coord4DOF, JointState, RobotState};
use vstd::prelude::*;
use vstd::std_specs::ops::{AddSpec, SubSpec};

verus! {

/// The largest magnitude of each joint's rate for a given angular and
/// linear maximum. The maximum of the swing is divided by the length of the
/// first link and that of the wrist by the length of the gripper link, so
/// that every joint moves the gripper tip about equally fast; the elbow
/// takes the angular maximum as it is, the lift and the gripper the linear
/// one.
pub open spec fn joint_rate_limits(max_angular: i64, max_linear: i64) -> JointState {
    JointState {
        swing_rotation_deg: fdiv(max_angular, ELBOW_LENGTH_M),
        lift_elevation_mm: max_linear,
        elbow_rotation_deg: max_angular,
        wrist_rotation_deg: fdiv(max_angular, GRIPPER_LENGTH_M),
        gripper_open_mm: max_linear,
    }
}

/// Whether each joint's rate is within its limit in magnitude.
pub open spec fn within_joint_rates(rates: JointState, max_angular: i64, max_linear: i64) -> bool {
    let limits = joint_rate_limits(max_angular, max_linear);
    &&& -limits.swing_rotation_deg <= rates.swing_rotation_deg <= limits.swing_rotation_deg
    &&& -limits.lift_elevation_mm <= rates.lift_elevation_mm <= limits.lift_elevation_mm
    &&& -limits.elbow_rotation_deg <= rates.elbow_rotation_deg <= limits.elbow_rotation_deg
    &&& -limits.wrist_rotation_deg <= rates.wrist_rotation_deg <= limits.wrist_rotation_deg
    &&& -limits.gripper_open_mm <= rates.gripper_open_mm <= limits.gripper_open_mm
}

/// Each joint's rate saturated to its limit.
pub open spec fn clamp_joint_rates_spec(rates: JointState, max_angular: i64, max_linear: i64)
    -> JointState {
    let limits = joint_rate_limits(max_angular, max_linear);
    JointState {
        swing_rotation_deg: clamp(rates.swing_rotation_deg, limits.swing_rotation_deg),
        lift_elevation_mm: clamp(rates.lift_elevation_mm, limits.lift_elevation_mm),
        elbow_rotation_deg: clamp(rates.elbow_rotation_deg, limits.elbow_rotation_deg),
        wrist_rotation_deg: clamp(rates.wrist_rotation_deg, limits.wrist_rotation_deg),
        gripper_open_mm: clamp(rates.gripper_open_mm, limits.gripper_open_mm),
    }
}

/// Saturates each joint's rate to its limit.
pub fn clamp_joint_rates(rates: JointState, max_angular: i64, max_linear: i64) -> (r: JointState)
    ensures
        r == clamp_joint_rates_spec(rates, max_angular, max_linear),
        max_angular >= 0 && max_linear >= 0 ==> within_joint_rates(r, max_angular, max_linear),
{
    proof {
        crate::fixed::lemma_trunc_div_bound(max_angular * crate::fixed::SCALE, ELBOW_LENGTH_M as int);
        crate::fixed::lemma_trunc_div_bound(
            max_angular * crate::fixed::SCALE,
            GRIPPER_LENGTH_M as int,
        );
    }
    JointState {
        swing_rotation_deg: clamp(rates.swing_rotation_deg, fdiv(max_angular, ELBOW_LENGTH_M)),
        lift_elevation_mm: clamp(rates.lift_elevation_mm, max_linear),
        elbow_rotation_deg: clamp(rates.elbow_rotation_deg, max_angular),
        wrist_rotation_deg: clamp(rates.wrist_rotation_deg, fdiv(max_angular, GRIPPER_LENGTH_M)),
        gripper_open_mm: clamp(rates.gripper_open_mm, max_linear),
    }
}

/// The velocity limits of the joints in degrees and millimetres per second:
/// nine for the swing, eighteen for the elbow, thirty-six for the wrist,
/// eighty for the lift and the gripper.
pub proof fn lemma_joint_velocity_limits()
    ensures
        joint_rate_limits(MAX_ANGULAR_VELOCITY, MAX_LINEAR_VELOCITY) == (JointState {
            swing_rotation_deg: 9_000_000_000,
            lift_elevation_mm: 80_000_000_000,
            elbow_rotation_deg: 18_000_000_000,
            wrist_rotation_deg: 36_000_000_000,
            gripper_open_mm: 80_000_000_000,
        }),
{
}

/// The distance from the base to its target: the difference of the
/// positions and the shortest rotation between the headings.
pub open spec fn base_error_spec(base_state: Coord4DOF, base_target: Coord4DOF) -> Coord4DOF {
    Coord4DOF {
        x: fsub(base_target.x, base_state.x),
        y: fsub(base_target.y, base_state.y),
        z: fsub(base_target.z, base_state.z),
        theta: shortest_angle_diff(base_target.theta, base_state.theta),
    }
}

/// The velocity commanded to the base: the error times the proportional
/// gain, less the derivative gain times that product, saturated to the
/// largest base velocity.
pub open spec fn base_velocity_spec(base_state: Coord4DOF, base_target: Coord4DOF) -> Coord4DOF {
    let proportional = base_error_spec(base_state, base_target).controlled(
        BASE_LINEAR_P,
        BASE_ANGLE_P,
    );
    proportional.sub_spec(proportional.controlled(BASE_LINEAR_D, BASE_ANGLE_D)).clamped(
        MAX_BASE_LINEAR_VEL,
        MAX_BASE_ANGLE_VEL,
    )
}

/// Computes the velocity commanded to the base.
pub fn base_velocity(base_state: Coord4DOF, base_target: Coord4DOF) -> (v: Coord4DOF)
    ensures
        v == base_velocity_spec(base_state, base_target),
        v.within(MAX_BASE_LINEAR_VEL, MAX_BASE_ANGLE_VEL),
{
    let base_state_error = Coord4DOF {
        x: fsub(base_target.x, base_state.x),
        y: fsub(base_target.y, base_state.y),
        z: fsub(base_target.z, base_state.z),
        theta: shortest_angle_diff(base_target.theta, base_state.theta),
    };

    let mut velocity = base_state_error.apply_control(BASE_LINEAR_P, BASE_ANGLE_P);
    velocity = velocity - velocity.apply_control(BASE_LINEAR_D, BASE_ANGLE_D);

    velocity.clamp(MAX_BASE_LINEAR_VEL, MAX_BASE_ANGLE_VEL);
    velocity
}

/// The acceleration commanded to the joints: for each joint the error times
/// the proportional gain less the present velocity times the derivative
/// gain, saturated to the joint's largest acceleration. The error of an
/// angle is the shortest rotation to its target.
pub open spec fn joint_acceleration_spec(
    joint_state: JointState,
    joint_target: JointState,
    velocity: JointState,
) -> JointState {
    let error = JointState::clamped_sub_spec(joint_target, joint_state);
    clamp_joint_rates_spec(
        JointState {
            swing_rotation_deg: fsub(
                fmul(error.swing_rotation_deg, ANGLE_P),
                fmul(velocity.swing_rotation_deg, ANGLE_D),
            ),
            lift_elevation_mm: fsub(
                fmul(error.lift_elevation_mm, LINEAR_P),
                fmul(velocity.lift_elevation_mm, LINEAR_D),
            ),
            elbow_rotation_deg: fsub(
                fmul(error.elbow_rotation_deg, ANGLE_P),
                fmul(velocity.elbow_rotation_deg, ANGLE_D),
            ),
            wrist_rotation_deg: fsub(
                fmul(error.wrist_rotation_deg, ANGLE_P),
                fmul(velocity.wrist_rotation_deg, ANGLE_D),
            ),
            gripper_open_mm: fsub(
                fmul(error.gripper_open_mm, LINEAR_P),
                fmul(velocity.gripper_open_mm, LINEAR_D),
            ),
        },
        MAX_ANGULAR_ACCELERATION,
        MAX_LINEAR_ACCELERATION,
    )
}

/// Computes the acceleration commanded to the joints.
pub fn joint_acceleration(
    joint_state: JointState,
    joint_target: JointState,
    velocity: JointState,
) -> (a: JointState)
    ensures
        a == joint_acceleration_spec(joint_state, joint_target, velocity),
        within_joint_rates(a, MAX_ANGULAR_ACCELERATION, MAX_LINEAR_ACCELERATION),
{
    let joint_state_error = JointState::clamped_sub(joint_target, joint_state);

    let joint_state_acceleration = JointState {
        swing_rotation_deg: fsub(
            fmul(joint_state_error.swing_rotation_deg, ANGLE_P),
            fmul(velocity.swing_rotation_deg, ANGLE_D),
        ),
        lift_elevation_mm: fsub(
            fmul(joint_state_error.lift_elevation_mm, LINEAR_P),
            fmul(velocity.lift_elevation_mm, LINEAR_D),
        ),
        elbow_rotation_deg: fsub(
            fmul(joint_state_error.elbow_rotation_deg, ANGLE_P),
            fmul(velocity.elbow_rotation_deg, ANGLE_D),
        ),
        wrist_rotation_deg: fsub(
            fmul(joint_state_error.wrist_rotation_deg, ANGLE_P),
            fmul(velocity.wrist_rotation_deg, ANGLE_D),
        ),
        gripper_open_mm: fsub(
            fmul(joint_state_error.gripper_open_mm, LINEAR_P),
            fmul(velocity.gripper_open_mm, LINEAR_D),
        ),
    };

    clamp_joint_rates(joint_state_acceleration, MAX_ANGULAR_ACCELERATION, MAX_LINEAR_ACCELERATION)
}

/// The joint velocity after one period: the present velocity plus the
/// acceleration times the period, saturated to the joint's largest
/// velocity.
pub open spec fn joint_velocity_spec(
    joint_state: JointState,
    joint_target: JointState,
    velocity: JointState,
) -> JointState {
    clamp_joint_rates_spec(
        velocity.add_spec(
            joint_acceleration_spec(joint_state, joint_target, velocity).scaled(
                CONTROLLER_LOOP_TIME_S,
            ),
        ),
        MAX_ANGULAR_VELOCITY,
        MAX_LINEAR_VELOCITY,
    )
}

/// Computes the joint velocity after one period.
pub fn joint_velocity(
    joint_state: JointState,
    joint_target: JointState,
    velocity: JointState,
) -> (v: JointState)
    ensures
        v == joint_velocity_spec(joint_state, joint_target, velocity),
        within_joint_rates(v, MAX_ANGULAR_VELOCITY, MAX_LINEAR_VELOCITY),
{
    let mut joint_state_acceleration = joint_acceleration(joint_state, joint_target, velocity);
    let updated = velocity + joint_state_acceleration.val_mul(CONTROLLER_LOOP_TIME_S);
    clamp_joint_rates(updated, MAX_ANGULAR_VELOCITY, MAX_LINEAR_VELOCITY)
}

/// The time left in a period of which `elapsed` has passed, in the unit of
/// both: the time to sleep before the next tick. A tick that has overrun its
/// period leaves none, and the overrun is not made up for.
pub open spec fn pace_spec(period: u64, elapsed: u64) -> u64 {
    if elapsed < period {
        (period - elapsed) as u64
    } else {
        0
    }
}

/// Computes the time to sleep after a tick that took `elapsed` of its
/// `period`.
#[verifier::when_used_as_spec(pace_spec)]
pub fn pace(period: u64, elapsed: u64) -> (remaining: u64)
    ensures
        remaining == pace_spec(period, elapsed),
        remaining <= period,
{
    if elapsed < period {
        period - elapsed
    } else {
        0
    }
}

/// What one step of the controller reads: the present state, the targets
/// and the present velocity.
#[derive(Clone, Copy, Debug, PartialEq, Eq, Structural)]
pub struct ControlInput {
    pub joint_state: JointState,
    pub joint_target: JointState,
    pub base_state: Coord4DOF,
    pub base_target: Coord4DOF,
    pub velocity: RobotState,
}

/// What one step of the controller produces: the state after one period and
/// the velocity that led to it. The velocity is within the limits of the
/// joints and of the base, and the joint values are within their limits.
#[derive(Clone, Copy, Debug)]
pub struct ControlOutput {
    state: RobotState,
    velocity: RobotState,
}

impl ControlOutput {
    #[verifier::type_invariant]
    pub closed spec fn inv(self) -> bool {
        &&& self.state.joint_state.within_limits()
        &&& within_joint_rates(
            self.velocity.joint_state,
            MAX_ANGULAR_VELOCITY,
            MAX_LINEAR_VELOCITY,
        )
        &&& self.velocity.base_state.within(MAX_BASE_LINEAR_VEL, MAX_BASE_ANGLE_VEL)
    }

    /// The state after the step.
    pub closed spec fn state_spec(&self) -> RobotState {
        self.state
    }

    /// The velocity after the step.
    pub closed spec fn velocity_spec(&self) -> RobotState {
        self.velocity
    }

    /// Returns the state after the step.
    #[verifier::when_used_as_spec(state_spec)]
    pub fn state(&self) -> (s: RobotState)
        ensures
            s == self.state_spec(),
            s.joint_state.within_limits(),
    {
        proof {
            use_type_invariant(self);
        }
        self.state
    }

    /// Returns the velocity after the step.
    #[verifier::when_used_as_spec(velocity_spec)]
    pub fn velocity(&self) -> (v: RobotState)
        ensures
            v == self.velocity_spec(),
            within_joint_rates(v.joint_state, MAX_ANGULAR_VELOCITY, MAX_LINEAR_VELOCITY),
            v.base_state.within(MAX_BASE_LINEAR_VEL, MAX_BASE_ANGLE_VEL),
    {
        proof {
            use_type_invariant(self);
        }
        self.velocity
    }
}

/// The velocity after one step of the controller.
pub open spec fn next_velocity_spec(input: ControlInput) -> RobotState {
    RobotState {
        joint_state: joint_velocity_spec(
            input.joint_state,
            input.joint_target,
            input.velocity.joint_state,
        ),
        base_state: base_velocity_spec(input.base_state, input.base_target),
    }
}

/// The state after one step of the controller: the base moved by its new
/// velocity over one period, the joints moved by theirs and brought within
/// their limits.
pub open spec fn next_state_spec(input: ControlInput) -> RobotState {
    let velocity = next_velocity_spec(input);
    RobotState {
        joint_state: input.joint_state.add_spec(
            velocity.joint_state.scaled(CONTROLLER_LOOP_TIME_S),
        ).limited(),
        base_state: input.base_state.add_spec(
            velocity.base_state.controlled(CONTROLLER_LOOP_TIME_S, CONTROLLER_LOOP_TIME_S),
        ),
    }
}

/// Whatever the input of a controller step, the velocity after it is
/// within the velocity limits of every joint and of the base, and the joint
/// values after it are within their limits.
pub proof fn lemma_control_step_within_limits(input: ControlInput)
    ensures
        within_joint_rates(
            next_velocity_spec(input).joint_state,
            MAX_ANGULAR_VELOCITY,
            MAX_LINEAR_VELOCITY,
        ),
        next_velocity_spec(input).base_state.within(MAX_BASE_LINEAR_VEL, MAX_BASE_ANGLE_VEL),
        next_state_spec(input).joint_state.within_limits(),
{
    lemma_joint_velocity_limits();
}

/// Performs one step of the controller on a snapshot of the robot.
pub fn control_step(input: ControlInput) -> (output: ControlOutput)
    ensures
        output.velocity() == next_velocity_spec(input),
        output.state() == next_state_spec(input),
{
    let new_base_velocity = base_velocity(input.base_state, input.base_target);
    let new_base_state = input.base_state + new_base_velocity.val_mul(CONTROLLER_LOOP_TIME_S);

    let mut joint_state_velocity = joint_velocity(
        input.joint_state,
        input.joint_target,
        input.velocity.joint_state,
    );
    let mut new_joint_state = input.joint_state + joint_state_velocity.val_mul(
        CONTROLLER_LOOP_TIME_S,
    );
    new_joint_state.check_limits();

    ControlOutput {
        state: RobotState { joint_state: new_joint_state, base_state: new_base_state },
        velocity: RobotState { joint_state: joint_state_velocity, base_state: new_base_velocity },
    }
}

} // verus!
