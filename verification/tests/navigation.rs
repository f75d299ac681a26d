use rsbot::chassis::Twist;
use rsbot::navigation::{NavigationCommand, NavigationState, NavigationStep, RobotMode};
use rsbot::odometry::Pose2d;

type State = NavigationState<f32>;

#[test]
fn new_state_is_idle_and_holds() {
    let mut state = State::new();
    assert_eq!(state.mode(), RobotMode::Idle);
    assert_eq!(state.command(), NavigationCommand::Stop);
    assert_eq!(state.begin_update(), NavigationStep::Hold);
}

#[test]
fn commands_select_the_mode() {
    let mut state = State::new();
    state.set_command(NavigationCommand::Velocity(Twist::new(0.2, 0.0)));
    assert_eq!(state.mode(), RobotMode::Manual);
    assert_eq!(state.begin_update(), NavigationStep::FollowVelocity(Twist::new(0.2, 0.0)));

    state.set_command(NavigationCommand::FaceHeading { yaw_rad: 1.0 });
    assert_eq!(state.mode(), RobotMode::Navigate);
    assert_eq!(state.begin_update(), NavigationStep::FaceHeading(1.0));

    let target = Pose2d::new(1.0, 0.0, 0.0);
    state.set_command(NavigationCommand::GoTo { target });
    assert_eq!(state.mode(), RobotMode::Navigate);
    assert_eq!(state.begin_update(), NavigationStep::GoTo(target));

    state.set_command(NavigationCommand::Stop);
    assert_eq!(state.mode(), RobotMode::Idle);
    assert_eq!(state.begin_update(), NavigationStep::Hold);
}

#[test]
fn emergency_stop_holds_navigation() {
    let mut state = State::new();
    state.set_command(NavigationCommand::Velocity(Twist::new(0.2, 0.0)));
    state.set_emergency_stop();

    assert_eq!(state.begin_update(), NavigationStep::Hold);
    assert_eq!(state.mode(), RobotMode::EmergencyStop);
    assert_eq!(state.command(), NavigationCommand::Stop);
}

#[test]
fn fault_holds_navigation_until_a_new_command() {
    let mut state = State::new();
    state.set_command(NavigationCommand::FaceHeading { yaw_rad: 0.5 });
    state.set_fault();
    assert_eq!(state.mode(), RobotMode::Fault);
    assert_eq!(state.begin_update(), NavigationStep::Hold);
    state.set_command(NavigationCommand::FaceHeading { yaw_rad: 0.5 });
    assert_eq!(state.begin_update(), NavigationStep::FaceHeading(0.5));
}

#[test]
fn reaching_the_goal_returns_to_idle() {
    let mut state = State::new();
    state.set_command(NavigationCommand::GoTo { target: Pose2d::new(0.01, 0.0, 0.01) });
    state.finish_goal();
    assert_eq!(state.mode(), RobotMode::Idle);
    assert_eq!(state.command(), NavigationCommand::Stop);
    assert_eq!(state.begin_update(), NavigationStep::Hold);
}
