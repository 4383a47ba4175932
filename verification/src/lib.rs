//! A fixed-point simulation and control kernel for a mobile robotic arm.

pub mod constants;
pub mod controller;
pub mod fixed;
pub mod kinematics;
pub mod robot;
pub mod robot_state;
pub mod trig;
