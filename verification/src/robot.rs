//! The robot record: the observed state, the targets set by commands, and
//! the velocity of the last controller step, together with the operations
//! of the command, controller and broadcast paths on it.

use crate::constants::{
    MAX_ANGULAR_VELOCITY, MAX_BASE_ANGLE_VEL, MAX_BASE_LINEAR_VEL, MAX_LINEAR_VELOCITY,
};
use crate::controller::{
    control_step, next_state_spec, next_velocity_spec, within_joint_rates, ControlInput,
    ControlOutput,
};
use crate::kinematics::{
    forward_kinematics, forward_kinematics_spec, inverse_kinematics, inverse_kinematics_spec,
};
use crate::robot_state::{Coord4DOF, JointState, RobotState};
use vstd::prelude::*;

verus! {

/// A command from a client.
#[derive(Clone, Copy, Debug, PartialEq, Eq, Structural)]
pub enum Command {
    /// Move the joints to the given values and drop any pose target.
    SetJointState(JointState),
    /// Bring the gripper tip to the given pose.
    SetCoordState(Coord4DOF),
    /// Move the base to the given pose.
    SetBaseState(Coord4DOF),
}

/// What is sent to the clients each broadcast period: the observed state
/// and the pose of the gripper tip that follows from it.
#[derive(Clone, Copy, Debug, PartialEq, Eq, Structural)]
pub struct Broadcast {
    pub state: RobotState,
    pub coords: Coord4DOF,
}

/// The robot record.
///
/// At all times the joint values of the state and of the target are within
/// their limits, and the velocity is within the limits of the joints and of
/// the base.
pub struct Robot {
    /// The current state of the robot.
    state: RobotState,
    /// The robot's target state that the controller will work to get to.
    target_state: RobotState,
    /// The coordinate provided by the user that the end effector should reach.
    target_coord_state: Option<Coord4DOF>,
    /// The robot's velocity.
    velocity: RobotState,
}

impl Robot {
    #[verifier::type_invariant]
    pub closed spec fn inv(self) -> bool {
        &&& self.state.joint_state.within_limits()
        &&& self.target_state.joint_state.within_limits()
        &&& within_joint_rates(
            self.velocity.joint_state,
            MAX_ANGULAR_VELOCITY,
            MAX_LINEAR_VELOCITY,
        )
        &&& self.velocity.base_state.within(MAX_BASE_LINEAR_VEL, MAX_BASE_ANGLE_VEL)
    }

    /// The observed state.
    pub closed spec fn state(&self) -> RobotState {
        self.state
    }

    /// The state that the controller works towards.
    pub closed spec fn target_state(&self) -> RobotState {
        self.target_state
    }

    /// The pose that the gripper tip is to reach, if one is set.
    pub closed spec fn target_coord_state(&self) -> Option<Coord4DOF> {
        self.target_coord_state
    }

    /// The velocity of the last controller step.
    pub closed spec fn velocity(&self) -> RobotState {
        self.velocity
    }

    /// The joint values that inverse kinematics finds for `coord_state` from
    /// the present state and base velocity, keeping the gripper opening of
    /// the present target.
    pub open spec fn ik_spec(&self, coord_state: Coord4DOF, apply_feedforward: bool) -> Option<
        JointState,
    > {
        inverse_kinematics_spec(
            coord_state,
            self.state().joint_state,
            self.state().base_state,
            self.velocity().base_state,
            self.target_state().joint_state.gripper_open_mm,
            apply_feedforward,
        )
    }

    /// The joint target after the controller has refreshed it: with a pose
    /// target set, the solution of inverse kinematics with feed-forward,
    /// else the solution without it, else, as without a pose target, the
    /// joint target as it was.
    pub open spec fn refreshed_joint_target(&self) -> JointState {
        match self.target_coord_state() {
            Some(coord_state) => match self.ik_spec(coord_state, true) {
                Some(joint_state) => joint_state,
                None => match self.ik_spec(coord_state, false) {
                    Some(joint_state) => joint_state,
                    None => self.target_state().joint_state,
                },
            },
            None => self.target_state().joint_state,
        }
    }

    /// What a controller step reads from the record.
    pub open spec fn control_input_spec(&self) -> ControlInput {
        ControlInput {
            joint_state: self.state().joint_state,
            joint_target: self.target_state().joint_state,
            base_state: self.state().base_state,
            base_target: self.target_state().base_state,
            velocity: self.velocity(),
        }
    }

    /// What a whole controller tick reads: the record with the joint target
    /// refreshed.
    pub open spec fn tick_input_spec(&self) -> ControlInput {
        ControlInput {
            joint_state: self.state().joint_state,
            joint_target: self.refreshed_joint_target(),
            base_state: self.state().base_state,
            base_target: self.target_state().base_state,
            velocity: self.velocity(),
        }
    }

    /// Creates the record of a robot at rest at the origin, with every joint
    /// at zero and no target but to stay there.
    pub fn new() -> (robot: Robot)
        ensures
            robot.state() == RobotState::zero(),
            robot.target_state() == RobotState::zero(),
            robot.target_coord_state() is None,
            robot.velocity() == RobotState::zero(),
    {
        proof {
            crate::controller::lemma_joint_velocity_limits();
        }
        Robot {
            state: RobotState::default(),
            target_state: RobotState::default(),
            target_coord_state: None,
            velocity: RobotState::default(),
        }
    }

    /// Sets the state of the robot's joints and base, bringing the joint
    /// values within their limits.
    fn set_state(&mut self, new_joint_state: JointState, new_base_state: Coord4DOF)
        ensures
            final(self).state() == (RobotState {
                joint_state: new_joint_state.limited(),
                base_state: new_base_state,
            }),
            final(self).target_state() == old(self).target_state(),
            final(self).target_coord_state() == old(self).target_coord_state(),
            final(self).velocity() == old(self).velocity(),
    {
        proof {
            use_type_invariant(&*self);
        }
        let mut new_joint_state = new_joint_state;
        new_joint_state.check_limits();

        self.state.joint_state = new_joint_state;
        self.state.base_state = new_base_state;
    }

    /// Returns the state of the robot. Its joint values are within their
    /// limits.
    pub fn get_state(&self) -> (state: RobotState)
        ensures
            state == self.state(),
            state.joint_state.within_limits(),
    {
        proof {
            use_type_invariant(self);
        }
        self.state
    }

    /// Returns the state that the controller works towards. Its joint
    /// values are within their limits.
    pub fn get_target_state(&self) -> (target_state: RobotState)
        ensures
            target_state == self.target_state(),
            target_state.joint_state.within_limits(),
    {
        proof {
            use_type_invariant(self);
        }
        self.target_state
    }

    /// Returns the pose that the gripper tip is to reach, if one is set.
    pub fn get_target_coord_state(&self) -> (coord_state: Option<Coord4DOF>)
        ensures
            coord_state == self.target_coord_state(),
    {
        self.target_coord_state
    }

    /// Returns the velocity of the last controller step. It is within the
    /// velocity limits of the joints and of the base.
    pub fn get_velocity(&self) -> (velocity: RobotState)
        ensures
            velocity == self.velocity(),
            within_joint_rates(velocity.joint_state, MAX_ANGULAR_VELOCITY, MAX_LINEAR_VELOCITY),
            velocity.base_state.within(MAX_BASE_LINEAR_VEL, MAX_BASE_ANGLE_VEL),
    {
        proof {
            use_type_invariant(self);
        }
        self.velocity
    }

    /// Sets the target state for all the joints of the robot, brought
    /// within their limits. If `erase_coord_target` is true the pose target
    /// is erased, which stops the refresh by inverse kinematics.
    pub fn set_joint_target_state(&mut self, target_state: JointState, erase_coord_target: bool)
        ensures
            final(self).target_state() == (RobotState {
                joint_state: target_state.limited(),
                base_state: old(self).target_state().base_state,
            }),
            final(self).target_state().joint_state.within_limits(),
            final(self).target_coord_state() == if erase_coord_target {
                None
            } else {
                old(self).target_coord_state()
            },
            final(self).state() == old(self).state(),
            final(self).velocity() == old(self).velocity(),
    {
        proof {
            use_type_invariant(&*self);
        }
        let mut target_state = target_state;
        target_state.check_limits();
        self.target_state.joint_state = target_state;

        if erase_coord_target {
            self.target_coord_state = None;
        }
    }

    /// Performs inverse kinematics using the current base position and the
    /// target pose of the gripper tip. On success the solution becomes the
    /// joint target, the pose target stays, and the solution is returned; on
    /// failure nothing changes. Applies a feedforward approach to counter
    /// the motion of the base if `apply_feedforward` is true.
    pub fn ik(&mut self, coord_state: Coord4DOF, apply_feedforward: bool) -> (r: Option<
        JointState,
    >)
        ensures
            r == old(self).ik_spec(coord_state, apply_feedforward),
            final(self).target_state() == (RobotState {
                joint_state: match r {
                    Some(joint_state) => joint_state,
                    None => old(self).target_state().joint_state,
                },
                base_state: old(self).target_state().base_state,
            }),
            final(self).target_coord_state() == old(self).target_coord_state(),
            final(self).state() == old(self).state(),
            final(self).velocity() == old(self).velocity(),
    {
        let solution = inverse_kinematics(
            coord_state,
            self.state.joint_state,
            self.state.base_state,
            self.velocity.base_state,
            self.target_state.joint_state.gripper_open_mm,
            apply_feedforward,
        );
        match solution {
            Some(target_state) => {
                self.set_joint_target_state(target_state, false);
            },
            None => {},
        }
        solution
    }

    /// Sets the pose that the gripper tip is to reach. The joint target
    /// follows at the next controller tick, if the pose is within reach.
    pub fn set_target_coord_state(&mut self, coord_state: Coord4DOF)
        ensures
            final(self).target_coord_state() == Some(coord_state),
            final(self).target_state() == old(self).target_state(),
            final(self).state() == old(self).state(),
            final(self).velocity() == old(self).velocity(),
    {
        proof {
            use_type_invariant(&*self);
        }
        self.target_coord_state = Some(coord_state);
    }

    /// Sets the pose that the base is to reach.
    pub fn set_target_base_state(&mut self, coord_state: Coord4DOF)
        ensures
            final(self).target_state() == (RobotState {
                joint_state: old(self).target_state().joint_state,
                base_state: coord_state,
            }),
            final(self).target_coord_state() == old(self).target_coord_state(),
            final(self).state() == old(self).state(),
            final(self).velocity() == old(self).velocity(),
    {
        proof {
            use_type_invariant(&*self);
        }
        self.target_state.base_state = coord_state;
    }

    /// Get the end effector's current position in space.
    pub fn get_coord_state(&self) -> (coords: Coord4DOF)
        ensures
            coords == forward_kinematics_spec(self.state().joint_state, self.state().base_state),
    {
        forward_kinematics(self.state.joint_state, self.state.base_state)
    }

    /// Carries out a command from a client.
    pub fn handle_command(&mut self, command: Command)
        ensures
            final(self).state() == old(self).state(),
            final(self).velocity() == old(self).velocity(),
            match command {
                Command::SetJointState(joint_state) => {
                    &&& final(self).target_state() == (RobotState {
                        joint_state: joint_state.limited(),
                        base_state: old(self).target_state().base_state,
                    })
                    &&& final(self).target_coord_state() is None
                },
                Command::SetCoordState(coord_state) => {
                    &&& final(self).target_state() == old(self).target_state()
                    &&& final(self).target_coord_state() == Some(coord_state)
                },
                Command::SetBaseState(coord_state) => {
                    &&& final(self).target_state() == (RobotState {
                        joint_state: old(self).target_state().joint_state,
                        base_state: coord_state,
                    })
                    &&& final(self).target_coord_state() == old(self).target_coord_state()
                },
            },
    {
        match command {
            Command::SetJointState(joint_state) => {
                self.set_joint_target_state(joint_state, true);
            },
            Command::SetCoordState(coord_state) => {
                self.set_target_coord_state(coord_state);
            },
            Command::SetBaseState(coord_state) => {
                self.set_target_base_state(coord_state);
            },
        }
    }

    /// Takes what is broadcast to the clients: the observed state and the
    /// pose of the gripper tip, both of the same moment.
    pub fn broadcast(&self) -> (message: Broadcast)
        ensures
            message.state == self.state(),
            message.state.joint_state.within_limits(),
            message.coords == forward_kinematics_spec(
                self.state().joint_state,
                self.state().base_state,
            ),
    {
        Broadcast { state: self.get_state(), coords: self.get_coord_state() }
    }

    /// Refreshes the joint target from the pose target, if one is set:
    /// first by inverse kinematics with feed-forward, and if that finds no
    /// solution, without. Returns whether a solution was found; if none
    /// was, the joint target stays as it was.
    pub fn refresh_joint_target(&mut self) -> (found: bool)
        ensures
            final(self).target_state() == (RobotState {
                joint_state: old(self).refreshed_joint_target(),
                base_state: old(self).target_state().base_state,
            }),
            final(self).target_coord_state() == old(self).target_coord_state(),
            final(self).state() == old(self).state(),
            final(self).velocity() == old(self).velocity(),
            found == match old(self).target_coord_state() {
                Some(coord_state) => old(self).ik_spec(coord_state, true) is Some || old(
                    self,
                ).ik_spec(coord_state, false) is Some,
                None => false,
            },
    {
        match self.target_coord_state {
            Some(coord_state) => {
                let found_state = self.ik(coord_state, true).is_some();
                if !found_state {
                    self.ik(coord_state, false).is_some()
                } else {
                    true
                }
            },
            None => false,
        }
    }

    /// Takes the snapshot that a controller step works on.
    pub fn control_input(&self) -> (input: ControlInput)
        ensures
            input == self.control_input_spec(),
    {
        ControlInput {
            joint_state: self.state.joint_state,
            joint_target: self.target_state.joint_state,
            base_state: self.state.base_state,
            base_target: self.target_state.base_state,
            velocity: self.velocity,
        }
    }

    /// Writes the outcome of a controller step back: the new state and the
    /// velocity that led to it. The targets stay.
    pub fn commit(&mut self, output: ControlOutput)
        ensures
            final(self).state() == output.state(),
            final(self).velocity() == output.velocity(),
            final(self).target_state() == old(self).target_state(),
            final(self).target_coord_state() == old(self).target_coord_state(),
    {
        let new_state = output.state();
        let new_velocity = output.velocity();
        self.set_state(new_state.joint_state, new_state.base_state);
        proof {
            use_type_invariant(&*self);
        }
        self.velocity.joint_state = new_velocity.joint_state;
        self.velocity.base_state = new_velocity.base_state;
    }

    /// Runs one tick of the controller: refreshes the joint target from the
    /// pose target, computes the base velocity and the joint acceleration
    /// from the distance to the targets, integrates them over one period and
    /// writes the new state and velocity back.
    pub fn controller(&mut self)
        ensures
            final(self).target_state() == (RobotState {
                joint_state: old(self).refreshed_joint_target(),
                base_state: old(self).target_state().base_state,
            }),
            final(self).target_coord_state() == old(self).target_coord_state(),
            final(self).velocity() == next_velocity_spec(old(self).tick_input_spec()),
            final(self).state() == next_state_spec(old(self).tick_input_spec()),
            final(self).state().joint_state.within_limits(),
            within_joint_rates(
                final(self).velocity().joint_state,
                MAX_ANGULAR_VELOCITY,
                MAX_LINEAR_VELOCITY,
            ),
            final(self).velocity().base_state.within(MAX_BASE_LINEAR_VEL, MAX_BASE_ANGLE_VEL),
    {
        self.refresh_joint_target();
        let input = self.control_input();
        let output = control_step(input);
        self.commit(output);
        proof {
            use_type_invariant(&*self);
        }
    }
}

} // verus!
