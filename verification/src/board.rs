use vstd::prelude::*;
use crate::chassis::ChassisError;

verus! {

/// One of the two drive motors.
#[derive(Debug, Clone, Copy, PartialEq, Eq, Structural)]
pub enum MotorSide {
    Left,
    Right,
}

/// Accumulated encoder counts of both wheels.
#[derive(Debug, Clone, Copy, Default, PartialEq, Eq, Structural)]
pub struct EncoderCounts {
    pub left: i32,
    pub right: i32,
}

/// A source of wheel encoder counts (an encoder peripheral on the board).
pub trait EncoderReader {
    fn read_counts(&mut self) -> Result<EncoderCounts, ChassisError>;
}

} // verus!
