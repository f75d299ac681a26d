use rsbot::chassis::{Chassis, ChassisError, Twist};
use rsbot::robot::Robot;

#[derive(Debug, Default)]
struct RecordingChassis {
    last_twist: Option<Twist<f32>>,
    drives: u32,
    refuse: bool,
}

impl Chassis for RecordingChassis {
    type Scalar = f32;

    fn drive(&mut self, twist: Twist<f32>) -> Result<(), ChassisError> {
        if self.refuse {
            return Err(ChassisError::CommandRejected);
        }
        self.drives += 1;
        self.last_twist = Some(twist);
        Ok(())
    }

    fn stop(&mut self) -> Result<(), ChassisError> {
        self.drive(Twist::new(0.0, 0.0))
    }
}

#[test]
fn robot_forwards_motion_commands_to_chassis() {
    let chassis = RecordingChassis::default();
    let mut robot = Robot::new(chassis);

    robot.drive(0.2, 0.5).unwrap();
    let chassis = robot.into_chassis();

    assert_eq!(chassis.last_twist, Some(Twist::new(0.2, 0.5)));
}

#[test]
fn robot_stop_and_errors_come_from_the_chassis() {
    let mut robot = Robot::new(RecordingChassis::default());
    robot.drive(0.3, 0.0).unwrap();
    robot.stop().unwrap();
    let chassis = robot.into_chassis();
    assert_eq!(chassis.drives, 2);
    assert_eq!(chassis.last_twist, Some(Twist::new(0.0, 0.0)));

    let mut refusing = Robot::new(RecordingChassis { refuse: true, ..RecordingChassis::default() });
    assert_eq!(refusing.drive(0.1, 0.0), Err(ChassisError::CommandRejected));
    assert_eq!(refusing.stop(), Err(ChassisError::CommandRejected));
}
