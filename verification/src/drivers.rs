use vstd::prelude::*;
use crate::chassis::Twist;
use crate::protocol::{ControllerTelemetry, DriveCommand, wire_timeout};
use crate::time::Millis;

verus! {

/// The protocol state of a chassis that drives a motor controller over a
/// transport: the sequence number of the next command and the latest
/// telemetry received.
#[derive(Debug, Clone, Copy, PartialEq)]
pub struct TransportState<S> {
    pub next_sequence_id: u32,
    pub last_telemetry: Option<ControllerTelemetry<S>>,
}

impl<S: Copy> TransportState<S> {
    /// Commands are numbered from one.
    pub fn new() -> (r: TransportState<S>)
        ensures
            r.next_sequence_id == 1,
            r.last_telemetry is None,
    {
        TransportState { next_sequence_id: 1, last_telemetry: None }
    }

    /// The command to send for a (limited) twist: the next sequence number and
    /// the configured timeout.
    pub fn command(&self, twist: Twist<S>, timeout: Millis) -> (r: DriveCommand<S>)
        ensures
            r == (DriveCommand {
                sequence_id: self.next_sequence_id,
                linear_mps: twist.linear_mps,
                angular_radps: twist.angular_radps,
                timeout_ms: wire_timeout(timeout),
            }),
    {
        DriveCommand::new(self.next_sequence_id, twist, timeout)
    }

    /// The command was sent: the next one takes the following number,
    /// wrapping after the largest.
    pub fn command_sent(&mut self)
        ensures
            final(self).next_sequence_id == old(self).next_sequence_id.wrapping_add(1),
            final(self).last_telemetry == old(self).last_telemetry,
    {
        self.next_sequence_id = self.next_sequence_id.wrapping_add(1);
    }

    /// Takes the result of a telemetry poll: a report replaces the cached one,
    /// no report keeps it. Returns the poll result unchanged.
    pub fn observe(&mut self, telemetry: Option<ControllerTelemetry<S>>) -> (r: Option<ControllerTelemetry<S>>)
        ensures
            r == telemetry,
            final(self).last_telemetry == (if telemetry is Some {
                telemetry
            } else {
                old(self).last_telemetry
            }),
            final(self).next_sequence_id == old(self).next_sequence_id,
    {
        if telemetry.is_some() {
            self.last_telemetry = telemetry;
        }
        telemetry
    }
}

} // verus!
