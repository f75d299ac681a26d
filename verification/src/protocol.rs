use vstd::prelude::*;
use crate::chassis::{Twist, WheelAngularVelocities};
use crate::safety::FaultCode;
use crate::telemetry::ChassisTelemetry;
use crate::time::Millis;

verus! {

/// A velocity command to a motor controller, with the time after which the
/// controller stops on its own if no newer command arrives.
#[derive(Debug, Clone, Copy, PartialEq)]
pub struct DriveCommand<S> {
    pub sequence_id: u32,
    pub linear_mps: S,
    pub angular_radps: S,
    pub timeout_ms: u16,
}

/// A timeout in milliseconds as the wire carries it: saturated at 16 bits.
pub open spec fn wire_timeout(timeout: Millis) -> u16 {
    if timeout.0 <= u16::MAX {
        timeout.0 as u16
    } else {
        u16::MAX
    }
}

impl<S: Copy> DriveCommand<S> {
    pub fn new(sequence_id: u32, twist: Twist<S>, timeout: Millis) -> (r: DriveCommand<S>)
        ensures
            r == (DriveCommand {
                sequence_id,
                linear_mps: twist.linear_mps,
                angular_radps: twist.angular_radps,
                timeout_ms: wire_timeout(timeout),
            }),
    {
        let millis: u32 = timeout.as_millis();
        let timeout_ms: u16 = if millis <= 65535 {
            millis as u16
        } else {
            65535
        };
        DriveCommand {
            sequence_id,
            linear_mps: twist.linear_mps,
            angular_radps: twist.angular_radps,
            timeout_ms,
        }
    }

    pub fn twist(&self) -> (r: Twist<S>)
        ensures
            r == (Twist { linear_mps: self.linear_mps, angular_radps: self.angular_radps }),
    {
        Twist { linear_mps: self.linear_mps, angular_radps: self.angular_radps }
    }

    pub fn timeout(&self) -> (r: Millis)
        ensures
            r.0 == self.timeout_ms,
    {
        Millis(self.timeout_ms as u32)
    }
}

/// A command carries its twist unchanged, and its timeout unless that exceeds
/// what 16 bits hold, in which case it carries the largest 16-bit timeout.
pub proof fn lemma_drive_command_round_trip<S: Copy>(sequence_id: u32, twist: Twist<S>, timeout: Millis)
    ensures
        ({
            let command = DriveCommand {
                sequence_id,
                linear_mps: twist.linear_mps,
                angular_radps: twist.angular_radps,
                timeout_ms: wire_timeout(timeout),
            };
            &&& (Twist { linear_mps: command.linear_mps, angular_radps: command.angular_radps })
                == twist
            &&& timeout.0 <= u16::MAX ==> command.timeout_ms as u32 == timeout.0
            &&& timeout.0 > u16::MAX ==> command.timeout_ms == u16::MAX
        }),
{
}

/// What a motor controller reports back.
#[derive(Debug, Clone, Copy, PartialEq)]
pub struct ControllerTelemetry<S> {
    pub sequence_id: u32,
    pub left_wheel_radps: S,
    pub right_wheel_radps: S,
    pub battery_voltage: S,
    pub emergency_stop: bool,
    pub fault_code: u16,
}

/// The wire code of an optional fault: zero for none.
pub open spec fn fault_wire_code(fault: Option<FaultCode>) -> u16 {
    match fault {
        Some(f) => f.spec_code() as u16,
        None => 0,
    }
}

/// A fault that can be put on the wire.
pub open spec fn fault_encodable(fault: Option<FaultCode>) -> bool {
    match fault {
        Some(f) => f.encodable(),
        None => true,
    }
}

impl<S: Copy> ControllerTelemetry<S> {
    pub fn new(
        sequence_id: u32,
        wheel_velocities: WheelAngularVelocities<S>,
        battery_voltage: S,
        emergency_stop: bool,
        fault: Option<FaultCode>,
    ) -> (r: ControllerTelemetry<S>)
        requires
            fault_encodable(fault),
        ensures
            r == (ControllerTelemetry {
                sequence_id,
                left_wheel_radps: wheel_velocities.left_radps,
                right_wheel_radps: wheel_velocities.right_radps,
                battery_voltage,
                emergency_stop,
                fault_code: fault_wire_code(fault),
            }),
    {
        let fault_code: u16 = match fault {
            Some(f) => f.as_u16(),
            None => 0,
        };
        ControllerTelemetry {
            sequence_id,
            left_wheel_radps: wheel_velocities.left_radps,
            right_wheel_radps: wheel_velocities.right_radps,
            battery_voltage,
            emergency_stop,
            fault_code,
        }
    }

    pub fn wheel_velocities(&self) -> (r: WheelAngularVelocities<S>)
        ensures
            r == (WheelAngularVelocities {
                left_radps: self.left_wheel_radps,
                right_radps: self.right_wheel_radps,
            }),
    {
        WheelAngularVelocities { left_radps: self.left_wheel_radps, right_radps: self.right_wheel_radps }
    }

    pub fn fault(&self) -> (r: Option<FaultCode>)
        ensures
            r == FaultCode::spec_from_code(self.fault_code),
    {
        FaultCode::from_u16(self.fault_code)
    }

    /// The controller report that a chassis report makes; `missing_voltage`
    /// stands in for a battery voltage that was never measured.
    pub fn from_chassis(telemetry: ChassisTelemetry<S>, missing_voltage: S) -> (r: ControllerTelemetry<S>)
        requires
            fault_encodable(telemetry.fault),
        ensures
            r == (ControllerTelemetry {
                sequence_id: telemetry.sequence_id,
                left_wheel_radps: telemetry.wheel_velocities.left_radps,
                right_wheel_radps: telemetry.wheel_velocities.right_radps,
                battery_voltage: match telemetry.battery_voltage {
                    Some(v) => v,
                    None => missing_voltage,
                },
                emergency_stop: telemetry.emergency_stop,
                fault_code: fault_wire_code(telemetry.fault),
            }),
    {
        let battery_voltage = match telemetry.battery_voltage {
            Some(v) => v,
            None => missing_voltage,
        };
        ControllerTelemetry::new(
            telemetry.sequence_id,
            telemetry.wheel_velocities,
            battery_voltage,
            telemetry.emergency_stop,
            telemetry.fault,
        )
    }
}

/// A reported fault comes back unchanged from the wire exactly when it is
/// no fault or a canonical one.
pub proof fn lemma_reported_fault_round_trip(fault: Option<FaultCode>)
    requires
        fault_encodable(fault),
    ensures
        FaultCode::spec_from_code(fault_wire_code(fault)) == fault <==> match fault {
            Some(f) => f.canonical(),
            None => true,
        },
{
}

} // verus!
