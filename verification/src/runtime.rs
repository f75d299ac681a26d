use vstd::prelude::*;
use crate::chassis::{Twist, WheelAngularVelocities};
use crate::navigation::{NavigationCommand, NavigationState, NavigationStep, NavigationView, RobotMode};
use crate::odometry::Pose2d;
use crate::safety::{FaultCode, SafetyStatus};
use crate::telemetry::ChassisTelemetry;
use crate::time::{Millis, spec_saturating_sub};

verus! {

/// A snapshot of the control loop.
#[derive(Debug, Clone, Copy, PartialEq)]
pub struct RuntimeStatus<S> {
    pub mode: RobotMode,
    pub pose: Pose2d<S>,
    pub target_twist: Twist<S>,
    pub safety: SafetyStatus<S>,
}

/// What a tick may do with the motors.
#[derive(Debug, Clone, Copy, PartialEq)]
pub enum MotionPlan<S> {
    /// The emergency stop or a fault holds the robot: command no motion and
    /// leave navigation as it is.
    Locked,
    /// The robot may move: carry out this navigation step.
    Navigate(NavigationStep<S>),
}

/// The decision state of the control loop, as a value.
#[derive(Debug, Clone, Copy, PartialEq)]
pub struct SupervisorView<S> {
    pub navigation: NavigationView<S>,
    pub safety: SafetyStatus<S>,
    pub command_timeout: Millis,
    pub last_command_at: Option<Millis>,
    pub last_update_at: Option<Millis>,
    pub sequence_id: u32,
}

impl<S: Copy> SupervisorView<S> {
    pub open spec fn wf(self) -> bool {
        self.navigation.wf()
    }

    /// The robot may move only with the emergency stop released and no fault recorded.
    pub open spec fn may_move(self) -> bool {
        !self.safety.emergency_stop && self.safety.fault is None
    }

    pub open spec fn expired_at(self, now: Millis) -> bool {
        match self.last_command_at {
            Some(at) => spec_saturating_sub(now.0, at.0) > self.command_timeout.0,
            None => false,
        }
    }

    pub open spec fn elapsed_at(self, now: Millis) -> Millis {
        match self.last_update_at {
            Some(at) => Millis(spec_saturating_sub(now.0, at.0)),
            None => Millis(0),
        }
    }

    pub open spec fn initial(command_timeout: Millis) -> Self {
        SupervisorView {
            navigation: NavigationView::initial(),
            safety: SafetyStatus::clear(),
            command_timeout,
            last_command_at: None,
            last_update_at: None,
            sequence_id: 0,
        }
    }

    /// A command feeds the watchdog and clears a timeout fault, but no other
    /// fault and not the emergency stop.
    pub open spec fn commanded(self, command: NavigationCommand<S>, now: Millis) -> Self {
        SupervisorView {
            navigation: self.navigation.commanded(command),
            last_command_at: Some(now),
            safety: SafetyStatus {
                command_timed_out: false,
                fault: if self.safety.fault == Some(FaultCode::CommandTimeout) {
                    None
                } else {
                    self.safety.fault
                },
                ..self.safety
            },
            ..self
        }
    }

    pub open spec fn with_emergency_stop(self, active: bool) -> Self {
        SupervisorView {
            safety: self.safety.with_emergency_stop(active),
            navigation: if active {
                self.navigation.emergency_stopped()
            } else {
                self.navigation
            },
            ..self
        }
    }

    pub open spec fn with_fault(self, fault: Option<FaultCode>) -> Self {
        SupervisorView {
            safety: SafetyStatus { fault, ..self.safety },
            navigation: if fault is Some {
                self.navigation.faulted()
            } else {
                self.navigation
            },
            ..self
        }
    }

    pub open spec fn with_battery(self, voltage: S, below_minimum: bool) -> Self {
        SupervisorView {
            safety: self.safety.with_battery(voltage, below_minimum),
            navigation: if below_minimum {
                self.navigation.faulted()
            } else {
                self.navigation
            },
            ..self
        }
    }

    pub open spec fn with_timeout_check(self, now: Millis) -> Self {
        if self.expired_at(now) {
            SupervisorView {
                safety: SafetyStatus {
                    command_timed_out: true,
                    fault: Some(FaultCode::CommandTimeout),
                    ..self.safety
                },
                navigation: self.navigation.faulted(),
                ..self
            }
        } else {
            self
        }
    }

    pub open spec fn tick_begun(self, now: Millis, voltage: S, battery_below_minimum: bool) -> Self {
        self.with_battery(voltage, battery_below_minimum).with_timeout_check(now)
    }

    /// What a tick may do: nothing under a lockout, else the navigation step.
    pub open spec fn planned_motion(self) -> MotionPlan<S> {
        if self.may_move() {
            MotionPlan::Navigate(self.navigation.planned_step())
        } else {
            MotionPlan::Locked
        }
    }

    pub open spec fn motion_planned(self) -> Self {
        if self.may_move() {
            SupervisorView { navigation: self.navigation.updated(), ..self }
        } else {
            self
        }
    }

    pub open spec fn goal_reached(self) -> Self {
        SupervisorView { navigation: self.navigation.goal_reached(), ..self }
    }

    pub open spec fn tick_finished(self, now: Millis) -> Self {
        SupervisorView {
            sequence_id: self.sequence_id.wrapping_add(1),
            last_update_at: Some(now),
            ..self
        }
    }

    pub open spec fn stop_begun(self) -> Self {
        SupervisorView { navigation: self.navigation.commanded(NavigationCommand::Stop), ..self }
    }

    pub open spec fn stop_finished(self, now: Millis) -> Self {
        SupervisorView {
            last_command_at: Some(now),
            safety: SafetyStatus { command_timed_out: false, ..self.safety },
            ..self
        }
    }
}

/// The decision state of the robot's control loop: the navigation mode,
/// emergency stop, faults, the command watchdog and the tick counter.
///
/// The control loop reads the board, integrates odometry and drives the
/// motors; this state decides whether it may move at all and what the
/// navigation layer does on each tick.
#[derive(Debug, PartialEq)]
pub struct RuntimeSupervisor<S> {
    navigation: NavigationState<S>,
    safety: SafetyStatus<S>,
    command_timeout: Millis,
    last_command_at: Option<Millis>,
    last_update_at: Option<Millis>,
    sequence_id: u32,
}

impl<S: Copy> View for RuntimeSupervisor<S> {
    type V = SupervisorView<S>;

    closed spec fn view(&self) -> SupervisorView<S> {
        SupervisorView {
            navigation: self.navigation@,
            safety: self.safety,
            command_timeout: self.command_timeout,
            last_command_at: self.last_command_at,
            last_update_at: self.last_update_at,
            sequence_id: self.sequence_id,
        }
    }
}

impl<S: Copy> RuntimeSupervisor<S> {
    pub fn new(command_timeout: Millis) -> (r: Self)
        ensures
            r@ == SupervisorView::<S>::initial(command_timeout),
    {
        RuntimeSupervisor {
            navigation: NavigationState::new(),
            safety: SafetyStatus {
                emergency_stop: false,
                command_timed_out: false,
                battery_voltage: None,
                fault: None,
            },
            command_timeout,
            last_command_at: None,
            last_update_at: None,
            sequence_id: 0,
        }
    }

    pub fn mode(&self) -> (r: RobotMode)
        ensures
            r == self@.navigation.mode,
    {
        self.navigation.mode()
    }

    pub fn command(&self) -> (r: NavigationCommand<S>)
        ensures
            r == self@.navigation.command,
    {
        self.navigation.command()
    }

    pub fn safety(&self) -> (r: SafetyStatus<S>)
        ensures
            r == self@.safety,
    {
        self.safety
    }

    pub fn command_timeout(&self) -> (r: Millis)
        ensures
            r == self@.command_timeout,
    {
        self.command_timeout
    }

    pub fn last_command_at(&self) -> (r: Option<Millis>)
        ensures
            r == self@.last_command_at,
    {
        self.last_command_at
    }

    pub fn last_update_at(&self) -> (r: Option<Millis>)
        ensures
            r == self@.last_update_at,
    {
        self.last_update_at
    }

    /// The number of completed ticks, wrapping after the largest.
    pub fn sequence_id(&self) -> (r: u32)
        ensures
            r == self@.sequence_id,
    {
        self.sequence_id
    }

    /// The status snapshot, with the pose and target twist that the loop holds.
    pub fn status(&self, pose: Pose2d<S>, target_twist: Twist<S>) -> (r: RuntimeStatus<S>)
        ensures
            r == (RuntimeStatus { mode: self@.navigation.mode, pose, target_twist, safety: self@.safety }),
    {
        RuntimeStatus { mode: self.navigation.mode(), pose, target_twist, safety: self.safety }
    }

    /// The telemetry report of the loop: tick count, commanded twist, wheel
    /// speeds and the safety flags.
    pub fn telemetry(&self, target_twist: Twist<S>, wheel_velocities: WheelAngularVelocities<S>) -> (r:
        ChassisTelemetry<S>)
        ensures
            r == (ChassisTelemetry {
                sequence_id: self@.sequence_id,
                commanded_twist: target_twist,
                wheel_velocities,
                battery_voltage: self@.safety.battery_voltage,
                emergency_stop: self@.safety.emergency_stop,
                command_timed_out: self@.safety.command_timed_out,
                fault: self@.safety.fault,
            }),
    {
        let mut telemetry = ChassisTelemetry::new(self.sequence_id, target_twist, wheel_velocities);
        telemetry.battery_voltage = self.safety.battery_voltage;
        telemetry.emergency_stop = self.safety.emergency_stop;
        telemetry.command_timed_out = self.safety.command_timed_out;
        telemetry.fault = self.safety.fault;
        telemetry
    }

    /// Takes a navigation command received at `now`.
    pub fn set_command(&mut self, command: NavigationCommand<S>, now: Millis)
        ensures
            final(self)@ == old(self)@.commanded(command, now),
    {
        self.navigation.set_command(command);
        self.last_command_at = Some(now);
        self.safety.command_timed_out = false;
        if matches!(self.safety.fault, Some(FaultCode::CommandTimeout)) {
            self.safety.fault = None;
        }
    }

    /// Engages the emergency stop (stopping navigation; the emergency-stop
    /// fault is recorded unless another fault already is) or releases it
    /// (clearing the emergency-stop fault and no other).
    pub fn set_emergency_stop(&mut self, active: bool)
        ensures
            final(self)@ == old(self)@.with_emergency_stop(active),
    {
        self.safety.emergency_stop = active;
        if active {
            if self.safety.fault.is_none() {
                self.safety.fault = Some(FaultCode::EmergencyStop);
            }
            self.navigation.set_emergency_stop();
        } else if matches!(self.safety.fault, Some(FaultCode::EmergencyStop)) {
            self.safety.fault = None;
        }
    }

    /// Records or clears a fault; recording one puts navigation in fault mode.
    pub fn set_fault(&mut self, fault: Option<FaultCode>)
        ensures
            final(self)@ == old(self)@.with_fault(fault),
    {
        self.safety.fault = fault;
        if fault.is_some() {
            self.navigation.set_fault();
        }
    }

    /// The time since the previous completed tick; zero before the first.
    pub fn elapsed_since_update(&self, now: Millis) -> (r: Millis)
        ensures
            r == self@.elapsed_at(now),
    {
        match self.last_update_at {
            Some(at) => now.saturating_sub(at),
            None => Millis(0),
        }
    }

    pub fn command_expired(&self, now: Millis) -> (r: bool)
        ensures
            r == self@.expired_at(now),
    {
        match self.last_command_at {
            Some(at) => now.saturating_sub(at).0 > self.command_timeout.0,
            None => false,
        }
    }

    /// Applies a battery reading; `below_minimum` says whether it lies below
    /// the configured minimum, which records the low-battery fault and puts
    /// navigation in fault mode.
    pub fn update_battery(&mut self, voltage: S, below_minimum: bool)
        ensures
            final(self)@ == old(self)@.with_battery(voltage, below_minimum),
    {
        self.safety.battery_voltage = Some(voltage);
        if below_minimum {
            self.safety.fault = Some(FaultCode::LowBattery);
            self.navigation.set_fault();
        }
    }

    /// Checks the command watchdog at `now`: an expired command records the
    /// timeout fault and puts navigation in fault mode.
    pub fn check_command_timeout(&mut self, now: Millis)
        ensures
            final(self)@ == old(self)@.with_timeout_check(now),
    {
        if self.command_expired(now) {
            self.safety.command_timed_out = true;
            self.safety.fault = Some(FaultCode::CommandTimeout);
            self.navigation.set_fault();
        }
    }

    /// The safety decisions at the start of a tick, once the battery has been
    /// read: the battery check, then the command watchdog. Returns the time
    /// since the previous tick.
    pub fn begin_tick(&mut self, now: Millis, voltage: S, battery_below_minimum: bool) -> (elapsed:
        Millis)
        ensures
            elapsed == old(self)@.elapsed_at(now),
            final(self)@ == old(self)@.tick_begun(now, voltage, battery_below_minimum),
    {
        let elapsed = self.elapsed_since_update(now);
        self.update_battery(voltage, battery_below_minimum);
        self.check_command_timeout(now);
        elapsed
    }

    /// Whether this tick may command motion.
    pub fn motion_allowed(&self) -> (r: bool)
        ensures
            r == self@.may_move(),
    {
        !self.safety.emergency_stop && self.safety.fault.is_none()
    }

    /// What this tick does with the motors: nothing under a lockout (navigation
    /// is left untouched), else the navigation step (see `NavigationState::begin_update`).
    pub fn plan_motion(&mut self) -> (plan: MotionPlan<S>)
        ensures
            plan == old(self)@.planned_motion(),
            final(self)@ == old(self)@.motion_planned(),
    {
        if !self.motion_allowed() {
            return MotionPlan::Locked;
        }
        MotionPlan::Navigate(self.navigation.begin_update())
    }

    /// The navigation goal was reached: navigation goes idle.
    pub fn finish_goal(&mut self)
        ensures
            final(self)@ == old(self)@.goal_reached(),
    {
        self.navigation.finish_goal();
    }

    /// The motors were written for the tick at `now`: count the tick and
    /// remember its time.
    pub fn finish_tick(&mut self, now: Millis)
        ensures
            final(self)@ == old(self)@.tick_finished(now),
    {
        self.sequence_id = self.sequence_id.wrapping_add(1);
        self.last_update_at = Some(now);
    }

    /// A stop was requested: navigation drops its command and goes idle.
    pub fn begin_stop(&mut self)
        ensures
            final(self)@ == old(self)@.stop_begun(),
    {
        self.navigation.set_command(NavigationCommand::Stop);
    }

    /// The motors were stopped at `now`: the stop counts as a command for the
    /// watchdog. A recorded fault stays recorded.
    pub fn finish_stop(&mut self, now: Millis)
        ensures
            final(self)@ == old(self)@.stop_finished(now),
    {
        self.last_command_at = Some(now);
        self.safety.command_timed_out = false;
    }
}

/// No tick commands motion while the emergency stop is engaged or a fault is
/// recorded: the tick's plan is `Locked`, whatever the navigation mode, and
/// navigation is left as it is.
pub proof fn lemma_runtime_lockout<S: Copy>(s: SupervisorView<S>)
    requires
        s.safety.emergency_stop || s.safety.fault is Some,
    ensures
        !s.may_move(),
        s.planned_motion() == MotionPlan::<S>::Locked,
        s.motion_planned() == s,
{
}

/// Engaging and releasing the emergency stop leaves a recorded fault other
/// than the emergency-stop fault in place, so the robot stays locked out
/// until that fault is cleared.
pub proof fn lemma_emergency_stop_keeps_faults<S: Copy>(s: SupervisorView<S>)
    requires
        s.safety.fault is Some,
        s.safety.fault != Some(FaultCode::EmergencyStop),
    ensures
        s.with_emergency_stop(true).safety.fault == s.safety.fault,
        s.with_emergency_stop(true).with_emergency_stop(false).safety.fault == s.safety.fault,
        !s.with_emergency_stop(true).with_emergency_stop(false).may_move(),
        s.with_emergency_stop(true).with_emergency_stop(false).planned_motion() == MotionPlan::<S>::Locked,
{
}

/// A new command does not lift an emergency stop or a fault other than a
/// command timeout, and neither does a stop.
pub proof fn lemma_commands_keep_lockout<S: Copy>(
    s: SupervisorView<S>,
    command: NavigationCommand<S>,
    now: Millis,
)
    requires
        s.safety.emergency_stop || (s.safety.fault is Some && s.safety.fault != Some(
            FaultCode::CommandTimeout,
        )),
    ensures
        !s.commanded(command, now).may_move(),
        !s.stop_begun().stop_finished(now).may_move(),
{
}

/// When the last command has expired, the tick records the timeout, puts
/// navigation in fault mode and commands no motion, whatever the battery reads.
pub proof fn lemma_expired_command_stops_motion<S: Copy>(
    s: SupervisorView<S>,
    now: Millis,
    voltage: S,
    battery_below_minimum: bool,
)
    requires
        s.expired_at(now),
    ensures
        ({
            let t = s.tick_begun(now, voltage, battery_below_minimum);
            &&& t.safety.fault == Some(FaultCode::CommandTimeout)
            &&& t.safety.command_timed_out
            &&& t.navigation.mode == RobotMode::Fault
            &&& !t.may_move()
        }),
{
}

/// A battery reading below the minimum stops motion on that tick.
pub proof fn lemma_low_battery_stops_motion<S: Copy>(s: SupervisorView<S>, now: Millis, voltage: S)
    ensures
        !s.tick_begun(now, voltage, true).may_move(),
        s.tick_begun(now, voltage, true).navigation.mode == RobotMode::Fault,
        s.tick_begun(now, voltage, true).safety.battery_voltage == Some(voltage),
{
}

/// After a command timeout, a fresh command resumes motion when nothing else
/// holds the robot, and the watchdog stays quiet for the whole timeout.
pub proof fn lemma_command_recovers_from_timeout<S: Copy>(
    s: SupervisorView<S>,
    command: NavigationCommand<S>,
    now: Millis,
    later: Millis,
)
    requires
        !s.safety.emergency_stop,
        s.safety.fault is None || s.safety.fault == Some(FaultCode::CommandTimeout),
        now.0 <= later.0 <= now.0 + s.command_timeout.0,
    ensures
        s.commanded(command, now).may_move(),
        !s.commanded(command, now).expired_at(later),
{
}

/// Only releasing it disengages the emergency stop: no other event changes it.
pub proof fn lemma_emergency_stop_persists<S: Copy>(
    s: SupervisorView<S>,
    command: NavigationCommand<S>,
    fault: Option<FaultCode>,
    now: Millis,
    voltage: S,
    battery_below_minimum: bool,
)
    ensures
        s.commanded(command, now).safety.emergency_stop == s.safety.emergency_stop,
        s.with_fault(fault).safety.emergency_stop == s.safety.emergency_stop,
        s.tick_begun(now, voltage, battery_below_minimum).safety.emergency_stop
            == s.safety.emergency_stop,
        s.motion_planned().safety.emergency_stop == s.safety.emergency_stop,
        s.goal_reached().safety.emergency_stop == s.safety.emergency_stop,
        s.tick_finished(now).safety.emergency_stop == s.safety.emergency_stop,
        s.stop_begun().safety.emergency_stop == s.safety.emergency_stop,
        s.stop_finished(now).safety.emergency_stop == s.safety.emergency_stop,
        s.with_emergency_stop(true).safety.emergency_stop,
        s.with_emergency_stop(true).navigation.mode == RobotMode::EmergencyStop,
{
}

/// Engaging the emergency stop stops motion from the next tick on, whatever
/// the battery reads and whatever command arrives in between.
pub proof fn lemma_emergency_stop_stops_next_tick<S: Copy>(
    s: SupervisorView<S>,
    command: NavigationCommand<S>,
    now: Millis,
    later: Millis,
    voltage: S,
    battery_below_minimum: bool,
)
    ensures
        !s.with_emergency_stop(true).tick_begun(now, voltage, battery_below_minimum).may_move(),
        s.with_emergency_stop(true).tick_begun(now, voltage, battery_below_minimum).planned_motion()
            == MotionPlan::<S>::Locked,
        !s.with_emergency_stop(true).commanded(command, now).tick_begun(
            later,
            voltage,
            battery_below_minimum,
        ).may_move(),
{
}

/// Every event keeps the navigation mode in agreement with its command.
pub proof fn lemma_runtime_well_formed<S: Copy>(
    s: SupervisorView<S>,
    command: NavigationCommand<S>,
    fault: Option<FaultCode>,
    active: bool,
    now: Millis,
    voltage: S,
    battery_below_minimum: bool,
    command_timeout: Millis,
)
    requires
        s.wf(),
    ensures
        SupervisorView::<S>::initial(command_timeout).wf(),
        s.commanded(command, now).wf(),
        s.with_emergency_stop(active).wf(),
        s.with_fault(fault).wf(),
        s.tick_begun(now, voltage, battery_below_minimum).wf(),
        s.motion_planned().wf(),
        s.goal_reached().wf(),
        s.tick_finished(now).wf(),
        s.stop_begun().wf(),
        s.stop_finished(now).wf(),
{
}

/// The watchdog of the control loop fires exactly when the last command is
/// older than the configured timeout: such a tick records the timeout fault,
/// faults navigation and plans no motion; a younger command records nothing.
pub proof fn lemma_runtime_expiry_is_the_timeout<S: Copy>(
    s: SupervisorView<S>,
    at: Millis,
    now: Millis,
    voltage: S,
    battery_below_minimum: bool,
)
    requires
        s.last_command_at == Some(at),
    ensures
        now.0 >= at.0 && now.0 - at.0 > s.command_timeout.0 ==> {
            let t = s.tick_begun(now, voltage, battery_below_minimum);
            &&& s.expired_at(now)
            &&& t.safety.fault == Some(FaultCode::CommandTimeout)
            &&& t.safety.command_timed_out
            &&& t.navigation.mode == RobotMode::Fault
            &&& !t.may_move()
            &&& t.planned_motion() == MotionPlan::<S>::Locked
        },
        now.0 < at.0 || now.0 - at.0 <= s.command_timeout.0 ==> {
            &&& !s.expired_at(now)
            &&& s.tick_begun(now, voltage, battery_below_minimum) == s.with_battery(
                voltage,
                battery_below_minimum,
            )
        },
{
}

/// Setting a fault records exactly that fault; a low battery reading records
/// the low-battery fault whatever was recorded before, and both faults outlive
/// the release of an emergency stop engaged before them.
pub proof fn lemma_runtime_records_faults<S: Copy>(
    s: SupervisorView<S>,
    fault: Option<FaultCode>,
    voltage: S,
)
    ensures
        s.with_fault(fault).safety.fault == fault,
        s.with_fault(fault).safety.emergency_stop == s.safety.emergency_stop,
        s.with_battery(voltage, true).safety.fault == Some(FaultCode::LowBattery),
        s.with_battery(voltage, true).safety.battery_voltage == Some(voltage),
        s.with_battery(voltage, false).safety.fault == s.safety.fault,
        fault is Some && fault != Some(FaultCode::EmergencyStop) ==> s.with_emergency_stop(true).with_fault(
            fault,
        ).with_emergency_stop(false).safety.fault == fault,
        s.with_emergency_stop(true).with_battery(voltage, true).with_emergency_stop(false).safety.fault
            == Some(FaultCode::LowBattery),
{
}

/// A finished tick counts one more tick (wrapping after the largest count) and
/// becomes the start of the next elapsed time; a finished stop feeds the
/// watchdog and keeps any fault.
pub proof fn lemma_tick_and_stop_bookkeeping<S: Copy>(s: SupervisorView<S>, now: Millis, later: Millis)
    ensures
        s.tick_finished(now).sequence_id == (s.sequence_id + 1) % 0x1_0000_0000,
        s.tick_finished(now).last_update_at == Some(now),
        later.0 >= now.0 ==> s.tick_finished(now).elapsed_at(later).0 == later.0 - now.0,
        s.tick_finished(now).safety == s.safety,
        s.stop_finished(now).last_command_at == Some(now),
        !s.stop_finished(now).safety.command_timed_out,
        s.stop_finished(now).safety.fault == s.safety.fault,
        s.stop_begun().navigation.mode == RobotMode::Idle,
        s.stop_begun().navigation.command == NavigationCommand::<S>::Stop,
        s.elapsed_at(now) == (if s.last_update_at is Some && now.0 >= (s.last_update_at->0).0 {
            Millis((now.0 - (s.last_update_at->0).0) as u32)
        } else {
            Millis(0)
        }),
{
}

} // verus!
