use vstd::prelude::*;
use crate::chassis::{Chassis, ChassisError, Twist};

verus! {

/// The high-level robot: motion requests go to its chassis.
#[derive(Debug)]
pub struct Robot<C> {
    chassis: C,
}

impl<C: Chassis> Robot<C> {
    pub closed spec fn spec_chassis(self) -> C {
        self.chassis
    }

    pub closed spec fn spec_new(chassis: C) -> Robot<C> {
        Robot { chassis }
    }

    pub fn new(chassis: C) -> (r: Robot<C>)
        ensures
            r == Self::spec_new(chassis),
            r.spec_chassis() == chassis,
    {
        Robot { chassis }
    }

    /// Drives the chassis at the given forward speed and turn rate; the
    /// chassis decides whether it accepts the command.
    pub fn drive(&mut self, linear_mps: C::Scalar, angular_radps: C::Scalar) -> (r: Result<(), ChassisError>)
        ensures
            old(self).spec_chassis().drive_post(
                Twist { linear_mps, angular_radps },
                final(self).spec_chassis(),
                r,
            ),
    {
        self.chassis.drive(Twist { linear_mps, angular_radps })
    }

    /// Stops the chassis; the chassis decides whether the stop succeeds.
    pub fn stop(&mut self) -> (r: Result<(), ChassisError>)
        ensures
            old(self).spec_chassis().stop_post(final(self).spec_chassis(), r),
    {
        self.chassis.stop()
    }

    pub fn into_chassis(self) -> (c: C)
        ensures
            c == self.spec_chassis(),
    {
        self.chassis
    }
}

/// A robot hands back the chassis it was built on.
pub proof fn lemma_robot_keeps_chassis<C: Chassis>(chassis: C)
    ensures
        Robot::<C>::spec_new(chassis).spec_chassis() == chassis,
{
}

} // verus!
