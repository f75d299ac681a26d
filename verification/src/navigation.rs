use vstd::prelude::*;
use crate::chassis::Twist;
use crate::odometry::Pose2d;

verus! {

/// What the robot is doing, as far as the navigation layer is concerned.
#[derive(Debug, Clone, Copy, PartialEq, Eq, Structural)]
pub enum RobotMode {
    Idle,
    Manual,
    Navigate,
    Fault,
    EmergencyStop,
}

/// A navigation request: stop, drive at a velocity, turn to a heading, or go
/// to a pose.
#[derive(Debug, Clone, Copy, PartialEq)]
pub enum NavigationCommand<S> {
    Stop,
    Velocity(Twist<S>),
    FaceHeading { yaw_rad: S },
    GoTo { target: Pose2d<S> },
}

/// The mode a command puts the navigation layer in.
pub open spec fn mode_for<S>(command: NavigationCommand<S>) -> RobotMode {
    match command {
        NavigationCommand::Stop => RobotMode::Idle,
        NavigationCommand::Velocity(_) => RobotMode::Manual,
        NavigationCommand::FaceHeading { .. } => RobotMode::Navigate,
        NavigationCommand::GoTo { .. } => RobotMode::Navigate,
    }
}

/// What one navigation update has to do.
#[derive(Debug, Clone, Copy, PartialEq)]
pub enum NavigationStep<S> {
    /// Output no motion and leave the state as it is (idle, faulted or stopped).
    Hold,
    /// Output no motion: the command is a stop, and the mode falls back to idle.
    Halt,
    /// Pass the manual velocity through.
    FollowVelocity(Twist<S>),
    /// Turn in place toward the heading.
    FaceHeading(S),
    /// Drive toward the target pose.
    GoTo(Pose2d<S>),
}

/// The mode and command of the navigation controller, as a value.
#[derive(Debug, Clone, Copy, PartialEq)]
pub struct NavigationView<S> {
    pub mode: RobotMode,
    pub command: NavigationCommand<S>,
}

impl<S> NavigationView<S> {
    /// The mode agrees with the command: idle, faulted and emergency-stopped
    /// states hold a stop command, manual driving a velocity, navigation a
    /// heading or a target.
    pub open spec fn wf(self) -> bool {
        match self.command {
            NavigationCommand::Stop => {
                ||| self.mode == RobotMode::Idle
                ||| self.mode == RobotMode::Fault
                ||| self.mode == RobotMode::EmergencyStop
            },
            _ => self.mode == mode_for(self.command),
        }
    }

    /// The step that an update in this state takes.
    pub open spec fn planned_step(self) -> NavigationStep<S> {
        match self.mode {
            RobotMode::Fault | RobotMode::EmergencyStop | RobotMode::Idle => NavigationStep::Hold,
            _ => match self.command {
                NavigationCommand::Stop => NavigationStep::Halt,
                NavigationCommand::Velocity(v) => NavigationStep::FollowVelocity(v),
                NavigationCommand::FaceHeading { yaw_rad } => NavigationStep::FaceHeading(yaw_rad),
                NavigationCommand::GoTo { target } => NavigationStep::GoTo(target),
            },
        }
    }

    pub open spec fn initial() -> Self {
        NavigationView { mode: RobotMode::Idle, command: NavigationCommand::Stop }
    }

    pub open spec fn commanded(self, command: NavigationCommand<S>) -> Self {
        NavigationView { mode: mode_for(command), command }
    }

    pub open spec fn faulted(self) -> Self {
        NavigationView { mode: RobotMode::Fault, command: NavigationCommand::Stop }
    }

    pub open spec fn emergency_stopped(self) -> Self {
        NavigationView { mode: RobotMode::EmergencyStop, command: NavigationCommand::Stop }
    }

    pub open spec fn updated(self) -> Self {
        if self.planned_step() == NavigationStep::<S>::Halt {
            NavigationView { mode: RobotMode::Idle, ..self }
        } else {
            self
        }
    }

    pub open spec fn goal_reached(self) -> Self {
        NavigationView { mode: RobotMode::Idle, command: NavigationCommand::Stop }
    }
}

/// The mode and command of the navigation controller. The mode always agrees
/// with the command (its type invariant).
#[derive(Debug, Copy, PartialEq)]
pub struct NavigationState<S> {
    mode: RobotMode,
    command: NavigationCommand<S>,
}

impl<S> View for NavigationState<S> {
    type V = NavigationView<S>;

    closed spec fn view(&self) -> NavigationView<S> {
        NavigationView { mode: self.mode, command: self.command }
    }
}

impl<S> NavigationState<S> {
    #[verifier::type_invariant]
    closed spec fn mode_agrees(self) -> bool {
        self@.wf()
    }
}

impl<S: Copy> Clone for NavigationState<S> {
    fn clone(&self) -> (r: Self)
        ensures
            r == *self,
    {
        proof {
            use_type_invariant(self);
        }
        NavigationState { mode: self.mode, command: self.command }
    }
}

impl<S: Copy> NavigationState<S> {
    pub fn new() -> (r: Self)
        ensures
            r@ == NavigationView::<S>::initial(),
    {
        NavigationState { mode: RobotMode::Idle, command: NavigationCommand::Stop }
    }

    pub fn mode(&self) -> (r: RobotMode)
        ensures
            r == self@.mode,
    {
        self.mode
    }

    pub fn command(&self) -> (r: NavigationCommand<S>)
        ensures
            r == self@.command,
    {
        self.command
    }

    /// Takes a new command; the mode follows from its kind.
    pub fn set_command(&mut self, command: NavigationCommand<S>)
        ensures
            final(self)@ == old(self)@.commanded(command),
    {
        let mode = match command {
            NavigationCommand::Stop => RobotMode::Idle,
            NavigationCommand::Velocity(_) => RobotMode::Manual,
            NavigationCommand::FaceHeading { .. } => RobotMode::Navigate,
            NavigationCommand::GoTo { .. } => RobotMode::Navigate,
        };
        *self = NavigationState { mode, command };
    }

    /// Enters the fault mode and drops the command.
    pub fn set_fault(&mut self)
        ensures
            final(self)@ == old(self)@.faulted(),
    {
        *self = NavigationState { mode: RobotMode::Fault, command: NavigationCommand::Stop };
    }

    /// Enters the emergency-stop mode and drops the command.
    pub fn set_emergency_stop(&mut self)
        ensures
            final(self)@ == old(self)@.emergency_stopped(),
    {
        *self = NavigationState { mode: RobotMode::EmergencyStop, command: NavigationCommand::Stop };
    }

    /// Decides what this update does; a stop command in an active mode
    /// returns the controller to idle.
    pub fn begin_update(&mut self) -> (step: NavigationStep<S>)
        ensures
            step == old(self)@.planned_step(),
            final(self)@ == old(self)@.updated(),
    {
        proof {
            use_type_invariant(&*self);
        }
        match self.mode {
            RobotMode::Fault | RobotMode::EmergencyStop | RobotMode::Idle => NavigationStep::Hold,
            _ => match self.command {
                NavigationCommand::Stop => {
                    *self = NavigationState { mode: RobotMode::Idle, command: NavigationCommand::Stop };
                    NavigationStep::Halt
                },
                NavigationCommand::Velocity(v) => NavigationStep::FollowVelocity(v),
                NavigationCommand::FaceHeading { yaw_rad } => NavigationStep::FaceHeading(yaw_rad),
                NavigationCommand::GoTo { target } => NavigationStep::GoTo(target),
            },
        }
    }

    /// The heading (and, for a waypoint, the position) has been reached:
    /// the controller goes idle and drops the command.
    pub fn finish_goal(&mut self)
        ensures
            final(self)@ == old(self)@.goal_reached(),
    {
        *self = NavigationState { mode: RobotMode::Idle, command: NavigationCommand::Stop };
    }
}

/// Every operation leaves the mode in agreement with the command.
pub proof fn lemma_mode_agrees_with_command<S: Copy>(
    s: NavigationView<S>,
    command: NavigationCommand<S>,
)
    ensures
        NavigationView::<S>::initial().wf(),
        s.commanded(command).wf(),
        s.faulted().wf(),
        s.emergency_stopped().wf(),
        s.goal_reached().wf(),
        s.wf() ==> s.updated().wf(),
{
}

/// After a command, an update carries out exactly that command: the velocity
/// of a velocity command, the heading of a heading command, the target of a
/// waypoint; a stop command leaves the controller idle and holding.
pub proof fn lemma_update_follows_command<S: Copy>(s: NavigationView<S>, v: Twist<S>, yaw_rad: S, target: Pose2d<S>)
    ensures
        s.commanded(NavigationCommand::Velocity(v)).planned_step() == NavigationStep::FollowVelocity(v),
        s.commanded(NavigationCommand::Velocity(v)).mode == RobotMode::Manual,
        s.commanded(NavigationCommand::FaceHeading { yaw_rad }).planned_step() == NavigationStep::<
            S,
        >::FaceHeading(yaw_rad),
        s.commanded(NavigationCommand::FaceHeading { yaw_rad }).mode == RobotMode::Navigate,
        s.commanded(NavigationCommand::GoTo { target }).planned_step() == NavigationStep::GoTo(target),
        s.commanded(NavigationCommand::GoTo { target }).mode == RobotMode::Navigate,
        s.commanded(NavigationCommand::Stop).planned_step() == NavigationStep::<S>::Hold,
        s.commanded(NavigationCommand::Stop).mode == RobotMode::Idle,
        s.faulted().mode == RobotMode::Fault && s.faulted().planned_step() == NavigationStep::<S>::Hold,
        s.emergency_stopped().mode == RobotMode::EmergencyStop,
        s.goal_reached().mode == RobotMode::Idle && s.goal_reached().command == NavigationCommand::<S>::Stop,
{
}

/// Faulted, emergency-stopped and idle controllers produce no motion.
pub proof fn lemma_inactive_modes_hold<S: Copy>(s: NavigationView<S>)
    requires
        s.wf(),
        s.mode == RobotMode::Fault || s.mode == RobotMode::EmergencyStop
            || s.mode == RobotMode::Idle,
    ensures
        s.planned_step() == NavigationStep::<S>::Hold,
{
}

/// In a well-formed state the controller never meets a stop command while
/// active, so an update only holds or acts on a motion command.
pub proof fn lemma_active_modes_act<S: Copy>(s: NavigationView<S>)
    requires
        s.wf(),
    ensures
        s.planned_step() != NavigationStep::<S>::Halt,
        s.updated() == s,
        s.mode == RobotMode::Manual ==> s.planned_step() is FollowVelocity,
        s.mode == RobotMode::Navigate ==> (s.planned_step() is FaceHeading || s.planned_step() is GoTo),
{
}

} // verus!
