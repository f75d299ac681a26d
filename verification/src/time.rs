use vstd::prelude::*;

verus! {

/// A point in time, or a duration, in whole milliseconds.
#[derive(Debug, Clone, Copy, Default, PartialEq, Eq, PartialOrd, Ord, Structural)]
pub struct Millis(pub u32);

/// `a - b` on milliseconds, floored at zero.
pub open spec fn spec_saturating_sub(a: u32, b: u32) -> u32 {
    if a >= b { (a - b) as u32 } else { 0 }
}

/// Saturating subtraction gives back the difference when it is not negative,
/// and zero otherwise.
pub proof fn lemma_saturating_sub(a: u32, b: u32)
    ensures
        a >= b ==> spec_saturating_sub(a, b) + b == a,
        a < b ==> spec_saturating_sub(a, b) == 0,
{
}

impl Millis {
    pub fn from_millis(millis: u32) -> (r: Millis)
        ensures
            r.0 == millis,
    {
        Millis(millis)
    }

    pub fn as_millis(self) -> (r: u32)
        ensures
            r == self.0,
    {
        self.0
    }

    /// The time elapsed from `earlier` to `self`, or zero when `earlier` lies after `self`.
    pub fn saturating_sub(self, earlier: Millis) -> (r: Millis)
        ensures
            r.0 == spec_saturating_sub(self.0, earlier.0),
    {
        Millis(self.0.saturating_sub(earlier.0))
    }
}

/// The tick counter of a periodic control task and the time that the last tick took.
#[derive(Debug, Clone, Copy, Default, PartialEq, Eq, Structural)]
pub struct ControlTime {
    pub tick: u32,
    pub elapsed_ms: u16,
}

impl ControlTime {
    pub fn new(tick: u32, elapsed_ms: u16) -> (r: ControlTime)
        ensures
            r.tick == tick,
            r.elapsed_ms == elapsed_ms,
    {
        ControlTime { tick, elapsed_ms }
    }
}

} // verus!
