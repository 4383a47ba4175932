//! Physical dimensions of the arm and tuning of its controller, as
//! fixed-point numbers with nine decimal places.

use vstd::prelude::*;

verus! {

/// Length of the first link, from the swing joint to the elbow (metres).
pub const ELBOW_LENGTH_M: i64 = 2_000_000_000;

/// Length of the second link, from the elbow to the wrist (metres).
pub const WRIST_LENGTH_M: i64 = 1_000_000_000;

/// Length of the third link, from the wrist to the gripper tip (metres).
pub const GRIPPER_LENGTH_M: i64 = 500_000_000;

/// Vertical travel of the lift (millimetres).
pub const LIFT_HEIGHT_MM: i64 = 3_000_000_000_000;

/// Largest jaw separation of the gripper (millimetres).
pub const GRIPPER_WIDTH_MM: i64 = 300_000_000_000;

/// Half a turn (degrees).
pub const HALF_TURN_DEG: i64 = 180_000_000_000;

/// A full turn (degrees).
pub const FULL_TURN_DEG: i64 = 360_000_000_000;

/// Millimetres in a metre.
pub const MM_PER_M: i64 = 1_000_000_000_000;

/// Period of the state broadcast (milliseconds).
pub const BROADCAST_PERIOD_MS: u64 = 20;

/// Period of the controller (milliseconds).
pub const CONTROLLER_LOOP_TIME_MS: u64 = 5;

/// Period of the controller (seconds): the step of every integration.
pub const CONTROLLER_LOOP_TIME_S: i64 = 5_000_000;

/// Largest linear speed of the base along each axis (metres per second).
pub const MAX_BASE_LINEAR_VEL: i64 = 60_000_000;

/// Proportional gain of the base position loop.
pub const BASE_LINEAR_P: i64 = 1_000_000_000;

/// Derivative gain of the base position loop.
pub const BASE_LINEAR_D: i64 = 500_000_000;

/// Largest turning rate of the base (degrees per second).
pub const MAX_BASE_ANGLE_VEL: i64 = 3_000_000_000;

/// Proportional gain of the base heading loop.
pub const BASE_ANGLE_P: i64 = 500_000_000;

/// Derivative gain of the base heading loop.
pub const BASE_ANGLE_D: i64 = 100_000_000;

/// Largest angular velocity of a joint, before scaling by link length
/// (degrees per second).
pub const MAX_ANGULAR_VELOCITY: i64 = 18_000_000_000;

/// Largest angular acceleration of a joint, before scaling by link length
/// (degrees per second squared).
pub const MAX_ANGULAR_ACCELERATION: i64 = 9_000_000_000;

/// Proportional gain of the rotational joints.
pub const ANGLE_P: i64 = 700_000_000;

/// Derivative gain of the rotational joints.
pub const ANGLE_D: i64 = 1_500_000_000;

/// Seconds of base motion that inverse kinematics anticipates.
pub const FEEDFORWARD_FACTOR: i64 = 2_220_000_000;

/// Largest linear acceleration of the lift and the gripper (millimetres per
/// second squared).
pub const MAX_LINEAR_ACCELERATION: i64 = 40_000_000_000;

/// Largest linear velocity of the lift and the gripper (millimetres per
/// second).
pub const MAX_LINEAR_VELOCITY: i64 = 80_000_000_000;

/// Proportional gain of the lift and the gripper.
pub const LINEAR_P: i64 = 2_500_000_000;

/// Derivative gain of the lift and the gripper.
pub const LINEAR_D: i64 = 4_000_000_000;

} // verus!
