use rsbot::chassis::{Twist, WheelAngularVelocities};
use rsbot::navigation::{NavigationCommand, NavigationStep, RobotMode};
use rsbot::odometry::Pose2d;
use rsbot::runtime::{MotionPlan, RuntimeSupervisor};
use rsbot::safety::FaultCode;
use rsbot::time::Millis;

fn supervisor() -> RuntimeSupervisor<f32> {
    RuntimeSupervisor::new(Millis::from_millis(300))
}

fn ms(t: u32) -> Millis {
    Millis::from_millis(t)
}

#[test]
fn waypoint_command_navigates() {
    let mut s = supervisor();
    let target = Pose2d::new(1.0, 0.0, 0.0);
    s.set_command(NavigationCommand::GoTo { target }, ms(0));
    assert_eq!(s.begin_tick(ms(10), 12.0, false), ms(0));
    assert!(s.motion_allowed());
    assert_eq!(s.plan_motion(), MotionPlan::Navigate(NavigationStep::GoTo(target)));
    s.finish_tick(ms(10));
    assert_eq!(s.mode(), RobotMode::Navigate);
    assert_eq!(s.sequence_id(), 1);
    assert_eq!(s.last_update_at(), Some(ms(10)));
}

#[test]
fn command_timeout_faults_and_blocks_motion() {
    let mut s = supervisor();
    s.set_command(NavigationCommand::Velocity(Twist::new(0.2, 0.0)), ms(0));
    s.begin_tick(ms(10), 12.0, false);
    assert!(s.motion_allowed());
    s.finish_tick(ms(10));
    assert_eq!(s.begin_tick(ms(400), 12.0, false), ms(390));
    assert!(!s.motion_allowed());
    assert_eq!(s.safety().fault, Some(FaultCode::CommandTimeout));
    assert!(s.safety().command_timed_out);
    assert_eq!(s.mode(), RobotMode::Fault);
    assert_eq!(s.plan_motion(), MotionPlan::Locked);
}

#[test]
fn a_new_command_recovers_from_a_timeout() {
    let mut s = supervisor();
    s.set_command(NavigationCommand::Velocity(Twist::new(0.2, 0.0)), ms(0));
    s.begin_tick(ms(400), 12.0, false);
    assert!(!s.motion_allowed());
    s.set_command(NavigationCommand::Velocity(Twist::new(0.2, 0.0)), ms(410));
    assert_eq!(s.safety().fault, None);
    assert!(!s.safety().command_timed_out);
    s.begin_tick(ms(420), 12.0, false);
    assert!(s.motion_allowed());
}

#[test]
fn low_battery_faults_and_blocks_motion() {
    let mut s = supervisor();
    s.set_command(NavigationCommand::Velocity(Twist::new(0.2, 0.0)), ms(0));
    s.begin_tick(ms(10), 9.0, true);
    assert!(!s.motion_allowed());
    assert_eq!(s.safety().fault, Some(FaultCode::LowBattery));
    assert_eq!(s.safety().battery_voltage, Some(9.0));
    s.set_command(NavigationCommand::Velocity(Twist::new(0.2, 0.0)), ms(20));
    assert_eq!(s.safety().fault, Some(FaultCode::LowBattery));
    assert!(!s.motion_allowed());
}

#[test]
fn elapsed_time_runs_from_the_previous_tick() {
    let mut s = supervisor();
    s.set_command(NavigationCommand::Velocity(Twist::new(0.5, 2.0)), ms(0));
    assert_eq!(s.begin_tick(ms(0), 12.0, false), ms(0));
    s.finish_tick(ms(0));
    assert_eq!(s.begin_tick(ms(100), 12.0, false), ms(100));
    assert_eq!(s.elapsed_since_update(ms(50)), ms(50));
}

#[test]
fn emergency_stop_survives_new_commands() {
    let mut s = supervisor();
    s.set_emergency_stop(true);
    assert_eq!(s.mode(), RobotMode::EmergencyStop);
    s.set_command(NavigationCommand::Velocity(Twist::new(0.2, 0.0)), ms(0));
    assert_eq!(s.mode(), RobotMode::Manual);
    assert!(!s.motion_allowed());
    assert_eq!(s.safety().fault, Some(FaultCode::EmergencyStop));
    s.set_emergency_stop(false);
    assert_eq!(s.safety().fault, None);
    assert!(s.motion_allowed());
}

#[test]
fn set_fault_blocks_until_cleared() {
    let mut s = supervisor();
    s.set_command(NavigationCommand::FaceHeading { yaw_rad: 1.0 }, ms(0));
    s.set_fault(Some(FaultCode::ControllerFault(77)));
    assert_eq!(s.mode(), RobotMode::Fault);
    assert!(!s.motion_allowed());
    s.set_fault(None);
    assert!(s.motion_allowed());
    assert_eq!(s.mode(), RobotMode::Fault);
}

#[test]
fn stop_feeds_the_watchdog_but_keeps_faults() {
    let mut s = supervisor();
    s.set_command(NavigationCommand::Velocity(Twist::new(0.2, 0.0)), ms(0));
    s.begin_tick(ms(400), 12.0, false);
    s.begin_stop();
    s.finish_stop(ms(410));
    assert_eq!(s.mode(), RobotMode::Idle);
    assert_eq!(s.last_command_at(), Some(ms(410)));
    assert!(!s.safety().command_timed_out);
    assert_eq!(s.safety().fault, Some(FaultCode::CommandTimeout));
    assert!(!s.command_expired(ms(700)));
    assert!(s.command_expired(ms(711)));
}

#[test]
fn reaching_the_goal_goes_idle() {
    let mut s = supervisor();
    s.set_command(NavigationCommand::FaceHeading { yaw_rad: 0.0 }, ms(0));
    s.finish_goal();
    assert_eq!(s.mode(), RobotMode::Idle);
    assert_eq!(s.plan_motion(), MotionPlan::Navigate(NavigationStep::Hold));
}

#[test]
fn status_and_telemetry_report_the_safety_flags() {
    let mut s = supervisor();
    s.begin_tick(ms(0), 9.5, true);
    s.finish_tick(ms(0));
    let pose = Pose2d::new(0.1, 0.2, 0.3);
    let status = s.status(pose, Twist::new(0.0, 0.0));
    assert_eq!(status.mode, RobotMode::Fault);
    assert_eq!(status.pose, pose);
    assert_eq!(status.safety.fault, Some(FaultCode::LowBattery));
    let wheels = WheelAngularVelocities { left_radps: 1.0, right_radps: 2.0 };
    let telemetry = s.telemetry(Twist::new(0.0, 0.0), wheels);
    assert_eq!(telemetry.sequence_id, 1);
    assert_eq!(telemetry.wheel_velocities, wheels);
    assert_eq!(telemetry.battery_voltage, Some(9.5));
    assert_eq!(telemetry.fault, Some(FaultCode::LowBattery));
    assert!(!telemetry.emergency_stop);
}

#[test]
fn emergency_stop_keeps_a_recorded_fault() {
    let mut s = supervisor();
    s.set_fault(Some(FaultCode::MotorFault(7)));
    s.set_emergency_stop(true);
    assert_eq!(s.safety().fault, Some(FaultCode::MotorFault(7)));
    assert_eq!(s.mode(), RobotMode::EmergencyStop);
    s.set_emergency_stop(false);
    assert_eq!(s.safety().fault, Some(FaultCode::MotorFault(7)));
    assert!(!s.motion_allowed());
    s.set_command(NavigationCommand::Velocity(Twist::new(0.2, 0.0)), ms(0));
    assert_eq!(s.plan_motion(), MotionPlan::Locked);
    s.set_fault(None);
    assert_eq!(
        s.plan_motion(),
        MotionPlan::Navigate(NavigationStep::FollowVelocity(Twist::new(0.2, 0.0)))
    );
}

#[test]
fn a_command_after_a_fault_plans_no_motion() {
    let mut s = supervisor();
    s.begin_tick(ms(0), 9.0, true);
    s.set_command(NavigationCommand::GoTo { target: Pose2d::new(1.0, 0.0, 0.0) }, ms(5));
    assert_eq!(s.mode(), RobotMode::Navigate);
    assert_eq!(s.plan_motion(), MotionPlan::Locked);
    assert_eq!(s.mode(), RobotMode::Navigate);
}
