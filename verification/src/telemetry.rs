use vstd::prelude::*;
use crate::chassis::{Twist, WheelAngularVelocities};
use crate::safety::FaultCode;

verus! {

/// The state of the chassis as reported to the host.
#[derive(Debug, Clone, Copy, PartialEq)]
pub struct ChassisTelemetry<S> {
    pub sequence_id: u32,
    pub commanded_twist: Twist<S>,
    pub wheel_velocities: WheelAngularVelocities<S>,
    pub battery_voltage: Option<S>,
    pub emergency_stop: bool,
    pub command_timed_out: bool,
    pub fault: Option<FaultCode>,
}

impl<S: Copy> ChassisTelemetry<S> {
    /// A report of a command and the wheel speeds, with no battery reading,
    /// no emergency stop, no timeout and no fault.
    pub fn new(
        sequence_id: u32,
        commanded_twist: Twist<S>,
        wheel_velocities: WheelAngularVelocities<S>,
    ) -> (r: ChassisTelemetry<S>)
        ensures
            r == (ChassisTelemetry {
                sequence_id,
                commanded_twist,
                wheel_velocities,
                battery_voltage: None,
                emergency_stop: false,
                command_timed_out: false,
                fault: None,
            }),
    {
        ChassisTelemetry {
            sequence_id,
            commanded_twist,
            wheel_velocities,
            battery_voltage: None,
            emergency_stop: false,
            command_timed_out: false,
            fault: None,
        }
    }
}

} // verus!
