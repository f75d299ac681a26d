//! Verified core of a differential-drive robot controller.
//!
//! The library holds the data model (generic over the scalar that carries
//! physical quantities), fault codes, the safety supervision of a chassis,
//! the navigation mode machine, the decision state of the control loop,
//! encoder tick accounting and the host protocol messages. Floating-point
//! kinematics and control laws are the caller's.
use vstd::prelude::*;

pub mod board;
pub mod chassis;
pub mod drivers;
pub mod navigation;
pub mod odometry;
pub mod protocol;
pub mod robot;
pub mod runtime;
pub mod safety;
pub mod telemetry;
pub mod time;

verus! {

} // verus!
