use vstd::prelude::*;
use crate::board::EncoderCounts;

verus! {

/// A planar pose: position and heading.
#[derive(Debug, Clone, Copy, Default, PartialEq)]
pub struct Pose2d<S> {
    pub x_m: S,
    pub y_m: S,
    pub yaw_rad: S,
}

impl<S: Copy> Pose2d<S> {
    pub fn new(x_m: S, y_m: S, yaw_rad: S) -> (r: Pose2d<S>)
        ensures
            r == (Pose2d { x_m, y_m, yaw_rad }),
    {
        Pose2d { x_m, y_m, yaw_rad }
    }
}

/// A reading of both wheel encoders, in ticks.
#[derive(Debug, Clone, Copy, Default, PartialEq, Eq, Structural)]
pub struct WheelEncoderSample {
    pub left_ticks: i32,
    pub right_ticks: i32,
}

impl WheelEncoderSample {
    pub fn new(left_ticks: i32, right_ticks: i32) -> (r: WheelEncoderSample)
        ensures
            r == (WheelEncoderSample { left_ticks, right_ticks }),
    {
        WheelEncoderSample { left_ticks, right_ticks }
    }

    /// The sample that a board's encoder counts make.
    pub fn from_counts(counts: EncoderCounts) -> (r: WheelEncoderSample)
        ensures
            r == (WheelEncoderSample { left_ticks: counts.left, right_ticks: counts.right }),
    {
        WheelEncoderSample { left_ticks: counts.left, right_ticks: counts.right }
    }

    /// The tick counts moved from `earlier` to `self` fit in 32 bits.
    pub open spec fn deltas_fit(self, earlier: WheelEncoderSample) -> bool {
        &&& i32::MIN <= self.left_ticks - earlier.left_ticks <= i32::MAX
        &&& i32::MIN <= self.right_ticks - earlier.right_ticks <= i32::MAX
    }

    /// Ticks moved by each wheel from `earlier` to `self`.
    pub fn deltas_since(self, earlier: WheelEncoderSample) -> (r: (i32, i32))
        requires
            self.deltas_fit(earlier),
        ensures
            r.0 == self.left_ticks - earlier.left_ticks,
            r.1 == self.right_ticks - earlier.right_ticks,
    {
        (self.left_ticks - earlier.left_ticks, self.right_ticks - earlier.right_ticks)
    }
}

/// Remembers the previous encoder sample so that each new one yields the
/// ticks moved since; the first sample only primes it.
#[derive(Debug, Clone, Copy, Default, PartialEq, Eq, Structural)]
pub struct EncoderTracker {
    pub last: Option<WheelEncoderSample>,
}

impl EncoderTracker {
    /// A new sample can be taken: no wheel moved more ticks than 32 bits hold.
    pub open spec fn accepts(self, encoder: WheelEncoderSample) -> bool {
        match self.last {
            Some(last) => encoder.deltas_fit(last),
            None => true,
        }
    }

    /// What `advance` returns.
    pub open spec fn deltas_for(self, encoder: WheelEncoderSample) -> Option<(i32, i32)> {
        match self.last {
            Some(last) => Some(
                (
                    (encoder.left_ticks - last.left_ticks) as i32,
                    (encoder.right_ticks - last.right_ticks) as i32,
                ),
            ),
            None => None,
        }
    }

    /// A tracker that counts from `encoder`.
    pub open spec fn primed(encoder: WheelEncoderSample) -> EncoderTracker {
        EncoderTracker { last: Some(encoder) }
    }

    pub fn new() -> (r: EncoderTracker)
        ensures
            r.last is None,
    {
        EncoderTracker { last: None }
    }

    /// Starts counting from `encoder`.
    pub fn reset(&mut self, encoder: WheelEncoderSample)
        ensures
            *final(self) == EncoderTracker::primed(encoder),
    {
        self.last = Some(encoder);
    }

    /// Takes a new sample: returns the ticks moved since the previous one,
    /// or `None` when this is the first.
    pub fn advance(&mut self, encoder: WheelEncoderSample) -> (r: Option<(i32, i32)>)
        requires
            old(self).accepts(encoder),
        ensures
            r == old(self).deltas_for(encoder),
            *final(self) == EncoderTracker::primed(encoder),
    {
        let r = match self.last {
            Some(last) => Some(encoder.deltas_since(last)),
            None => None,
        };
        self.last = Some(encoder);
        r
    }
}

/// The ticks of two consecutive steps add up to the ticks of the whole move.
pub proof fn lemma_deltas_compose(a: WheelEncoderSample, b: WheelEncoderSample, c: WheelEncoderSample)
    requires
        b.deltas_fit(a),
        c.deltas_fit(b),
        c.deltas_fit(a),
    ensures
        (EncoderTracker::primed(a).deltas_for(b)->0).0 + (EncoderTracker::primed(b).deltas_for(
            c,
        )->0).0 == (EncoderTracker::primed(a).deltas_for(c)->0).0,
        (EncoderTracker::primed(a).deltas_for(b)->0).1 + (EncoderTracker::primed(b).deltas_for(
            c,
        )->0).1 == (EncoderTracker::primed(a).deltas_for(c)->0).1,
{
}

/// The first sample yields nothing; each later one yields the ticks each wheel
/// moved since the previous sample, left first.
pub proof fn lemma_tracker_reports_tick_deltas(a: WheelEncoderSample, b: WheelEncoderSample)
    requires
        b.deltas_fit(a),
    ensures
        ((EncoderTracker { last: None }).deltas_for(b) is None),
        EncoderTracker::primed(a).accepts(b),
        (EncoderTracker::primed(a).deltas_for(b) is Some),
        (EncoderTracker::primed(a).deltas_for(b)->0).0 == b.left_ticks - a.left_ticks,
        (EncoderTracker::primed(a).deltas_for(b)->0).1 == b.right_ticks - a.right_ticks,
{
}

/// A tracker reset to a sample reports no motion when the wheels have not moved.
pub proof fn lemma_reset_then_same_sample(e: WheelEncoderSample)
    ensures
        EncoderTracker::primed(e).accepts(e),
        EncoderTracker::primed(e).deltas_for(e) == Some((0i32, 0i32)),
{
}

} // verus!
