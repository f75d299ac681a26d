use vstd::prelude::*;

verus! {

/// A body-frame velocity command: forward speed and turn rate.
///
/// The library is generic over the scalar `S` that carries physical
/// quantities; the arithmetic on them is the caller's.
#[derive(Debug, Clone, Copy, Default, PartialEq)]
pub struct Twist<S> {
    pub linear_mps: S,
    pub angular_radps: S,
}

impl<S: Copy> Twist<S> {
    pub fn new(linear_mps: S, angular_radps: S) -> (r: Twist<S>)
        ensures
            r == (Twist { linear_mps, angular_radps }),
    {
        Twist { linear_mps, angular_radps }
    }
}

/// Ground speed of each wheel.
#[derive(Debug, Clone, Copy, Default, PartialEq)]
pub struct WheelVelocities<S> {
    pub left_mps: S,
    pub right_mps: S,
}

/// Angular speed of each wheel.
#[derive(Debug, Clone, Copy, Default, PartialEq)]
pub struct WheelAngularVelocities<S> {
    pub left_radps: S,
    pub right_radps: S,
}

/// Why a chassis refused or failed a request.
#[derive(Debug, Clone, Copy, PartialEq, Eq, Structural)]
pub enum ChassisError {
    CommandRejected,
    EmergencyStopActive,
    FaultActive,
    CommunicationFault,
    LowBattery,
}

/// The human-readable text of each error.
pub open spec fn error_text(e: ChassisError) -> Seq<char> {
    match e {
        ChassisError::CommandRejected => "chassis command rejected"@,
        ChassisError::EmergencyStopActive => "emergency stop is active"@,
        ChassisError::FaultActive => "chassis fault is active"@,
        ChassisError::CommunicationFault => "chassis communication fault"@,
        ChassisError::LowBattery => "battery voltage is below the safe limit"@,
    }
}

impl ChassisError {
    /// The message that describes this error to an operator.
    pub fn message(&self) -> (s: &'static str)
        ensures
            s@ == error_text(*self),
    {
        match self {
            ChassisError::CommandRejected => "chassis command rejected",
            ChassisError::EmergencyStopActive => "emergency stop is active",
            ChassisError::FaultActive => "chassis fault is active",
            ChassisError::CommunicationFault => "chassis communication fault",
            ChassisError::LowBattery => "battery voltage is below the safe limit",
        }
    }
}

/// A drive base that accepts velocity commands; its users implement it for
/// their hardware.
///
/// An implementation may name, in `drive_post` and `stop_post`, how a call
/// relates the chassis before it, the chassis after it and the result; the
/// contracts of `drive` and `stop` say that a call obeys that relation. An
/// implementation that names none keeps the default, which every outcome
/// meets, and so claims nothing. Code that is generic over the chassis knows
/// only that each call obeys the relation of whatever implementation it gets.
pub trait Chassis: Sized {
    /// The scalar of the twists this chassis accepts.
    type Scalar;

    /// `after` and `result` are a possible outcome of driving `self` at `twist`.
    open spec fn drive_post(self, twist: Twist<Self::Scalar>, after: Self, result: Result<(), ChassisError>) -> bool {
        true
    }

    /// `after` and `result` are a possible outcome of stopping `self`.
    open spec fn stop_post(self, after: Self, result: Result<(), ChassisError>) -> bool {
        true
    }

    fn drive(&mut self, twist: Twist<Self::Scalar>) -> (r: Result<(), ChassisError>)
        ensures
            old(self).drive_post(twist, *final(self), r),
    ;

    /// Brings the chassis to rest (a zero twist).
    fn stop(&mut self) -> (r: Result<(), ChassisError>)
        ensures
            old(self).stop_post(*final(self), r),
    ;
}

} // verus!
