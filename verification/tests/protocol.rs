use rsbot::chassis::{Twist, WheelAngularVelocities};
use rsbot::drivers::TransportState;
use rsbot::protocol::{ControllerTelemetry, DriveCommand};
use rsbot::safety::FaultCode;
use rsbot::telemetry::ChassisTelemetry;
use rsbot::time::Millis;

#[test]
fn drive_command_preserves_twist_and_clamps_timeout_to_u16() {
    let command = DriveCommand::new(7, Twist::new(0.2f32, -0.4), Millis::from_millis(u16::MAX as u32 + 10));

    assert_eq!(command.sequence_id, 7);
    assert_eq!(command.twist(), Twist::new(0.2, -0.4));
    assert_eq!(command.timeout_ms, u16::MAX);
}

#[test]
fn drive_command_keeps_a_timeout_that_fits() {
    let command = DriveCommand::new(1, Twist::new(0.0f32, 0.0), Millis::from_millis(250));
    assert_eq!(command.timeout_ms, 250);
    assert_eq!(command.timeout(), Millis::from_millis(250));
    let edge = DriveCommand::new(1, Twist::new(0.0f32, 0.0), Millis::from_millis(65_535));
    assert_eq!(edge.timeout(), Millis::from_millis(65_535));
}

#[test]
fn controller_telemetry_maps_fault_codes() {
    let telemetry = ControllerTelemetry::new(
        1,
        WheelAngularVelocities { left_radps: 1.0f32, right_radps: 2.0 },
        12.0,
        false,
        Some(FaultCode::LowBattery),
    );

    assert_eq!(telemetry.fault(), Some(FaultCode::LowBattery));
}

#[test]
fn controller_telemetry_carries_wheels_and_no_fault_as_zero() {
    let telemetry = ControllerTelemetry::new(
        9,
        WheelAngularVelocities { left_radps: 1.5f32, right_radps: -2.0 },
        11.0,
        true,
        None,
    );
    assert_eq!(telemetry.fault_code, 0);
    assert_eq!(telemetry.fault(), None);
    assert_eq!(telemetry.wheel_velocities(), WheelAngularVelocities { left_radps: 1.5, right_radps: -2.0 });
    assert!(telemetry.emergency_stop);
    let motor = ControllerTelemetry::new(
        9,
        WheelAngularVelocities { left_radps: 0.0f32, right_radps: 0.0 },
        11.0,
        false,
        Some(FaultCode::MotorFault(12)),
    );
    assert_eq!(motor.fault_code, 1012);
    assert_eq!(motor.fault(), Some(FaultCode::MotorFault(12)));
}

#[test]
fn controller_telemetry_from_chassis_report() {
    let mut report = ChassisTelemetry::new(
        4,
        Twist::new(0.1f32, 0.0),
        WheelAngularVelocities { left_radps: 2.0, right_radps: 3.0 },
    );
    let without_battery = ControllerTelemetry::from_chassis(report, 0.0);
    assert_eq!(without_battery.battery_voltage, 0.0);
    assert_eq!(without_battery.sequence_id, 4);
    assert_eq!(without_battery.fault(), None);

    report.battery_voltage = Some(12.5);
    report.emergency_stop = true;
    report.fault = Some(FaultCode::EmergencyStop);
    let with_battery = ControllerTelemetry::from_chassis(report, 0.0);
    assert_eq!(with_battery.battery_voltage, 12.5);
    assert!(with_battery.emergency_stop);
    assert_eq!(with_battery.fault_code, 2);
    assert_eq!(with_battery.wheel_velocities(), WheelAngularVelocities { left_radps: 2.0, right_radps: 3.0 });
}

#[test]
fn chassis_telemetry_starts_without_flags() {
    let report = ChassisTelemetry::new(
        3,
        Twist::new(0.2f32, 0.0),
        WheelAngularVelocities { left_radps: 0.0, right_radps: 0.0 },
    );
    assert_eq!(report.sequence_id, 3);
    assert_eq!(report.commanded_twist, Twist::new(0.2, 0.0));
    assert_eq!(report.battery_voltage, None);
    assert!(!report.emergency_stop);
    assert!(!report.command_timed_out);
    assert_eq!(report.fault, None);
}

#[test]
fn transport_numbers_commands_from_one() {
    let mut state: TransportState<f32> = TransportState::new();
    let first = state.command(Twist::new(0.4, -2.0), Millis::from_millis(250));
    assert_eq!(first.sequence_id, 1);
    assert_eq!(first.twist(), Twist::new(0.4, -2.0));
    assert_eq!(first.timeout(), Millis::from_millis(250));
    state.command_sent();
    assert_eq!(state.command(Twist::new(0.0, 0.0), Millis::from_millis(250)).sequence_id, 2);
    state.next_sequence_id = u32::MAX;
    state.command_sent();
    assert_eq!(state.next_sequence_id, 0);
}

#[test]
fn transport_caches_the_latest_telemetry() {
    let mut state: TransportState<f32> = TransportState::new();
    let report = ControllerTelemetry::new(
        1,
        WheelAngularVelocities { left_radps: 1.0, right_radps: 1.0 },
        12.0,
        false,
        None,
    );
    let polled = state.observe(Some(report));
    assert_eq!(polled, state.last_telemetry);
    assert_eq!(state.observe(None), None);
    assert_eq!(state.last_telemetry, Some(report));
}
