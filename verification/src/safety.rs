use vstd::prelude::*;
use crate::chassis::{Chassis, ChassisError, Twist};
use crate::time::{Millis, spec_saturating_sub};

verus! {

/// A fault that keeps the robot from moving.
#[derive(Debug, Clone, Copy, PartialEq, Eq, Structural)]
pub enum FaultCode {
    CommandTimeout,
    EmergencyStop,
    LowBattery,
    CommunicationFault,
    MotorFault(u16),
    ControllerFault(u16),
}

impl FaultCode {
    /// The wire code of a fault: small codes for the named faults, `1000 + n`
    /// for motor fault `n`, and the controller's own code for a controller fault.
    pub open spec fn spec_code(self) -> int {
        match self {
            FaultCode::CommandTimeout => 1,
            FaultCode::EmergencyStop => 2,
            FaultCode::LowBattery => 3,
            FaultCode::CommunicationFault => 4,
            FaultCode::MotorFault(code) => 1000 + code,
            FaultCode::ControllerFault(code) => code as int,
        }
    }

    /// The wire code fits in 16 bits (a motor fault number above 64535 does not).
    pub open spec fn encodable(self) -> bool {
        0 <= self.spec_code() <= u16::MAX
    }

    /// The fault that a wire code stands for; code 0 means "no fault".
    pub open spec fn spec_from_code(code: u16) -> Option<FaultCode> {
        if code == 0 {
            None
        } else if code == 1 {
            Some(FaultCode::CommandTimeout)
        } else if code == 2 {
            Some(FaultCode::EmergencyStop)
        } else if code == 3 {
            Some(FaultCode::LowBattery)
        } else if code == 4 {
            Some(FaultCode::CommunicationFault)
        } else if 1000 <= code <= 1999 {
            Some(FaultCode::MotorFault((code - 1000) as u16))
        } else {
            Some(FaultCode::ControllerFault(code))
        }
    }

    /// The faults whose wire code decodes back to themselves: motor faults
    /// below 1000, and controller faults whose code is not taken by another fault.
    pub open spec fn canonical(self) -> bool {
        match self {
            FaultCode::MotorFault(code) => code < 1000,
            FaultCode::ControllerFault(code) => !(code <= 4 || (1000 <= code && code <= 1999)),
            _ => true,
        }
    }

    pub fn as_u16(self) -> (r: u16)
        requires
            self.encodable(),
        ensures
            r == self.spec_code(),
    {
        match self {
            FaultCode::CommandTimeout => 1,
            FaultCode::EmergencyStop => 2,
            FaultCode::LowBattery => 3,
            FaultCode::CommunicationFault => 4,
            FaultCode::MotorFault(code) => 1000 + code,
            FaultCode::ControllerFault(code) => code,
        }
    }

    pub fn from_u16(code: u16) -> (r: Option<FaultCode>)
        ensures
            r == FaultCode::spec_from_code(code),
    {
        if code == 0 {
            None
        } else if code == 1 {
            Some(FaultCode::CommandTimeout)
        } else if code == 2 {
            Some(FaultCode::EmergencyStop)
        } else if code == 3 {
            Some(FaultCode::LowBattery)
        } else if code == 4 {
            Some(FaultCode::CommunicationFault)
        } else if 1000 <= code && code <= 1999 {
            Some(FaultCode::MotorFault(code - 1000))
        } else {
            Some(FaultCode::ControllerFault(code))
        }
    }
}

/// Every nonzero wire code decodes to a fault that encodes back to the same code.
pub proof fn lemma_code_decodes_and_encodes_back(code: u16)
    requires
        code != 0,
    ensures
        FaultCode::spec_from_code(code) is Some,
        FaultCode::spec_from_code(code)->0.encodable(),
        FaultCode::spec_from_code(code)->0.spec_code() == code,
{
}

/// A fault survives encoding and decoding exactly when it is canonical.
pub proof fn lemma_fault_round_trip(fault: FaultCode)
    requires
        fault.encodable(),
    ensures
        FaultCode::spec_from_code(fault.spec_code() as u16) == Some(fault) <==> fault.canonical(),
{
}

/// The wire codes: 1 to 4 for the named faults, 1000 + n for motor fault n,
/// the controller's own code for a controller fault; and every code from 1000
/// to 1999 reads back as a motor fault, every other code above 4 as a
/// controller fault.
pub proof fn lemma_wire_codes(n: u16, code: u16)
    ensures
        FaultCode::CommandTimeout.spec_code() == 1,
        FaultCode::EmergencyStop.spec_code() == 2,
        FaultCode::LowBattery.spec_code() == 3,
        FaultCode::CommunicationFault.spec_code() == 4,
        FaultCode::MotorFault(n).spec_code() == 1000 + n,
        FaultCode::ControllerFault(n).spec_code() == n,
        FaultCode::spec_from_code(0) is None,
        1000 <= code <= 1999 ==> FaultCode::spec_from_code(code) == Some(
            FaultCode::MotorFault((code - 1000) as u16),
        ),
        (5 <= code < 1000 || 1999 < code) ==> FaultCode::spec_from_code(code) == Some(
            FaultCode::ControllerFault(code),
        ),
{
}

/// What a timeout check at a given time asks of the caller.
#[derive(Debug, Clone, Copy, PartialEq, Eq, Structural)]
pub enum TimeoutCheck {
    /// No command has expired: nothing to do.
    WithinTimeout,
    /// The last command expired and the chassis has not been stopped for it yet:
    /// stop it now, then call `note_timeout_stop`.
    StopRequired,
    /// The last command expired and the chassis was already stopped for it.
    AlreadyStopped,
}

/// The safety flags of a chassis, as reported to its owner.
#[derive(Debug, Clone, Copy, Default, PartialEq)]
pub struct SafetyStatus<S> {
    pub emergency_stop: bool,
    pub command_timed_out: bool,
    pub battery_voltage: Option<S>,
    pub fault: Option<FaultCode>,
}

impl<S: Copy> SafetyStatus<S> {
    /// The status of a fresh chassis: nothing engaged, nothing measured.
    pub open spec fn clear() -> SafetyStatus<S> {
        SafetyStatus { emergency_stop: false, command_timed_out: false, battery_voltage: None, fault: None }
    }

    /// What the chassis answers to a drive request: emergency stop first,
    /// then a low battery, then any other fault.
    pub open spec fn drive_permission(self) -> Result<(), ChassisError> {
        if self.emergency_stop {
            Err(ChassisError::EmergencyStopActive)
        } else {
            match self.fault {
                Some(FaultCode::LowBattery) => Err(ChassisError::LowBattery),
                Some(_) => Err(ChassisError::FaultActive),
                None => Ok(()),
            }
        }
    }

    /// Engaging the emergency stop records its fault unless another fault is
    /// already recorded, which stays; releasing it clears the emergency-stop
    /// fault and no other.
    pub open spec fn with_emergency_stop(self, active: bool) -> SafetyStatus<S> {
        SafetyStatus {
            emergency_stop: active,
            fault: if active {
                if self.fault is Some {
                    self.fault
                } else {
                    Some(FaultCode::EmergencyStop)
                }
            } else if self.fault == Some(FaultCode::EmergencyStop) {
                None
            } else {
                self.fault
            },
            ..self
        }
    }

    /// A battery reading is stored; one below the minimum records the low-battery fault.
    pub open spec fn with_battery(self, voltage: S, below_minimum: bool) -> SafetyStatus<S> {
        SafetyStatus {
            battery_voltage: Some(voltage),
            fault: if below_minimum {
                Some(FaultCode::LowBattery)
            } else {
                self.fault
            },
            ..self
        }
    }
}

/// The supervision state of a safe chassis, as a value.
#[derive(Debug, Clone, Copy, PartialEq)]
pub struct SafetyMonitorView<S> {
    pub status: SafetyStatus<S>,
    pub command_timeout: Millis,
    pub last_command_at: Option<Millis>,
    pub last_update_at: Option<Millis>,
}

impl<S: Copy> SafetyMonitorView<S> {
    /// The last command is older than the command timeout at `now`.
    pub open spec fn expired_at(self, now: Millis) -> bool {
        match self.last_command_at {
            Some(at) => spec_saturating_sub(now.0, at.0) > self.command_timeout.0,
            None => false,
        }
    }

    pub open spec fn timeout_check_at(self, now: Millis) -> TimeoutCheck {
        if !self.expired_at(now) {
            TimeoutCheck::WithinTimeout
        } else if self.status.command_timed_out {
            TimeoutCheck::AlreadyStopped
        } else {
            TimeoutCheck::StopRequired
        }
    }

    pub open spec fn initial(command_timeout: Millis) -> Self {
        SafetyMonitorView {
            status: SafetyStatus::clear(),
            command_timeout,
            last_command_at: None,
            last_update_at: None,
        }
    }

    pub open spec fn with_emergency_stop(self, active: bool) -> Self {
        SafetyMonitorView { status: self.status.with_emergency_stop(active), ..self }
    }

    pub open spec fn with_fault(self, fault: Option<FaultCode>) -> Self {
        SafetyMonitorView { status: SafetyStatus { fault, ..self.status }, ..self }
    }

    pub open spec fn with_battery(self, voltage: S, below_minimum: bool) -> Self {
        SafetyMonitorView { status: self.status.with_battery(voltage, below_minimum), ..self }
    }

    pub open spec fn with_timeout_stop(self, now: Millis) -> Self {
        SafetyMonitorView {
            status: SafetyStatus { command_timed_out: true, ..self.status },
            last_update_at: Some(now),
            ..self
        }
    }

    pub open spec fn with_timeout_seen(self) -> Self {
        SafetyMonitorView { status: SafetyStatus { command_timed_out: true, ..self.status }, ..self }
    }

    /// The monitor after a timeout check at `now` in which the chassis, when
    /// it had to be stopped, was stopped.
    pub open spec fn timeout_handled(self, now: Millis) -> Self {
        match self.timeout_check_at(now) {
            TimeoutCheck::WithinTimeout => self,
            TimeoutCheck::AlreadyStopped => self.with_timeout_seen(),
            TimeoutCheck::StopRequired => self.with_timeout_stop(now),
        }
    }

    pub open spec fn with_command(self, now: Millis) -> Self {
        SafetyMonitorView {
            status: SafetyStatus { command_timed_out: false, ..self.status },
            last_command_at: Some(now),
            last_update_at: Some(now),
            ..self
        }
    }

    pub open spec fn elapsed_since_update(self, now: Millis) -> Option<Millis> {
        match self.last_update_at {
            Some(at) => Some(Millis(spec_saturating_sub(now.0, at.0))),
            None => None,
        }
    }
}

/// The supervision state of a safe chassis: emergency stop, fault lockout,
/// and the command watchdog that stops the chassis when commands stop coming.
#[derive(Debug, Clone, Copy, PartialEq)]
pub struct SafetyMonitor<S> {
    status: SafetyStatus<S>,
    command_timeout: Millis,
    last_command_at: Option<Millis>,
    last_update_at: Option<Millis>,
}

impl<S: Copy> View for SafetyMonitor<S> {
    type V = SafetyMonitorView<S>;

    closed spec fn view(&self) -> SafetyMonitorView<S> {
        SafetyMonitorView {
            status: self.status,
            command_timeout: self.command_timeout,
            last_command_at: self.last_command_at,
            last_update_at: self.last_update_at,
        }
    }
}

impl<S: Copy> SafetyMonitor<S> {
    pub fn new(command_timeout: Millis) -> (r: SafetyMonitor<S>)
        ensures
            r@ == SafetyMonitorView::<S>::initial(command_timeout),
    {
        SafetyMonitor {
            status: SafetyStatus {
                emergency_stop: false,
                command_timed_out: false,
                battery_voltage: None,
                fault: None,
            },
            command_timeout,
            last_command_at: None,
            last_update_at: None,
        }
    }

    pub fn status(&self) -> (r: SafetyStatus<S>)
        ensures
            r == self@.status,
    {
        self.status
    }

    pub fn command_timeout(&self) -> (r: Millis)
        ensures
            r == self@.command_timeout,
    {
        self.command_timeout
    }

    pub fn last_command_at(&self) -> (r: Option<Millis>)
        ensures
            r == self@.last_command_at,
    {
        self.last_command_at
    }

    pub fn last_update_at(&self) -> (r: Option<Millis>)
        ensures
            r == self@.last_update_at,
    {
        self.last_update_at
    }

    /// Engages or releases the emergency stop.
    pub fn set_emergency_stop(&mut self, active: bool)
        ensures
            final(self)@ == old(self)@.with_emergency_stop(active),
    {
        self.status.emergency_stop = active;
        if active {
            if self.status.fault.is_none() {
                self.status.fault = Some(FaultCode::EmergencyStop);
            }
        } else if matches!(self.status.fault, Some(FaultCode::EmergencyStop)) {
            self.status.fault = None;
        }
    }

    pub fn set_fault(&mut self, fault: Option<FaultCode>)
        ensures
            final(self)@ == old(self)@.with_fault(fault),
    {
        self.status.fault = fault;
    }

    /// Records a battery reading; `below_minimum` says whether it lies below
    /// the configured minimum voltage.
    pub fn update_battery_voltage(&mut self, voltage: S, below_minimum: bool)
        ensures
            final(self)@ == old(self)@.with_battery(voltage, below_minimum),
    {
        self.status.battery_voltage = Some(voltage);
        if below_minimum {
            self.status.fault = Some(FaultCode::LowBattery);
        }
    }

    pub fn ensure_can_drive(&self) -> (r: Result<(), ChassisError>)
        ensures
            r == self@.status.drive_permission(),
    {
        if self.status.emergency_stop {
            return Err(ChassisError::EmergencyStopActive);
        }
        match self.status.fault {
            Some(FaultCode::LowBattery) => Err(ChassisError::LowBattery),
            Some(_) => Err(ChassisError::FaultActive),
            None => Ok(()),
        }
    }

    pub fn command_expired(&self, now: Millis) -> (r: bool)
        ensures
            r == self@.expired_at(now),
    {
        match self.last_command_at {
            Some(at) => now.saturating_sub(at).0 > self.command_timeout.0,
            None => false,
        }
    }

    pub fn check_timeout(&self, now: Millis) -> (r: TimeoutCheck)
        ensures
            r == self@.timeout_check_at(now),
    {
        if !self.command_expired(now) {
            TimeoutCheck::WithinTimeout
        } else if self.status.command_timed_out {
            TimeoutCheck::AlreadyStopped
        } else {
            TimeoutCheck::StopRequired
        }
    }

    /// Records that the chassis was stopped at `now` because its command expired.
    pub fn note_timeout_stop(&mut self, now: Millis)
        ensures
            final(self)@ == old(self)@.with_timeout_stop(now),
    {
        self.status.command_timed_out = true;
        self.last_update_at = Some(now);
    }

    /// Records an expiry for which the chassis had already been stopped.
    pub fn note_timeout_seen(&mut self)
        ensures
            final(self)@ == old(self)@.with_timeout_seen(),
    {
        self.status.command_timed_out = true;
    }

    /// Records that the chassis accepted a command (a drive or a stop) at `now`.
    pub fn record_command(&mut self, now: Millis)
        ensures
            final(self)@ == old(self)@.with_command(now),
    {
        self.status.command_timed_out = false;
        self.last_command_at = Some(now);
        self.last_update_at = Some(now);
    }

    /// The time since the chassis was last commanded, over which an
    /// acceleration limit spreads the next change; `None` before the first command.
    pub fn since_last_update(&self, now: Millis) -> (r: Option<Millis>)
        ensures
            r == self@.elapsed_since_update(now),
    {
        match self.last_update_at {
            Some(at) => Some(now.saturating_sub(at)),
            None => None,
        }
    }
}

/// The safety settings of a chassis: the command timeout, the acceleration
/// limits `A` (none for no limiting) and the minimum battery voltage.
#[derive(Debug, Clone, Copy, PartialEq)]
pub struct SafetyConfig<S, A> {
    pub command_timeout: Millis,
    pub acceleration_limits: Option<A>,
    pub min_battery_voltage: Option<S>,
}

impl<S, A> Default for SafetyConfig<S, A> {
    /// A 300 ms command timeout, no acceleration limit, no battery minimum.
    fn default() -> (r: SafetyConfig<S, A>)
        ensures
            r.command_timeout == Millis(300),
            r.acceleration_limits is None,
            r.min_battery_voltage is None,
    {
        SafetyConfig { command_timeout: Millis(300), acceleration_limits: None, min_battery_voltage: None }
    }
}

/// An acceleration limiter for the twists that a safe chassis passes on; what
/// it computes is arithmetic on the scalar and is the implementer's.
///
/// An implementation may name, in the `*_post` relations, how each call
/// relates the limiter before it, the limiter after it and its output; the
/// contracts of the methods say that a call obeys that relation. An
/// implementation that names none keeps the defaults, which every outcome
/// meets, and so claims nothing.
pub trait TwistLimiter: Sized {
    type Scalar;
    /// The limits a limiter is built from.
    type Limits;

    /// `limiter` is a possible limiter built from `limits`.
    open spec fn from_limits_post(limits: Self::Limits, limiter: Self) -> bool {
        true
    }

    /// `after` is a possible limiter once `self` restarts from `twist`.
    open spec fn restart_post(self, twist: Twist<Self::Scalar>, after: Self) -> bool {
        true
    }

    /// `after` is a possible limiter once `self` restarts from rest.
    open spec fn restart_at_rest_post(self, after: Self) -> bool {
        true
    }

    /// `after` and `out` are a possible outcome of limiting the way from
    /// `self` to `target`, `elapsed` after the previous twist.
    open spec fn limit_post(
        self,
        target: Twist<Self::Scalar>,
        elapsed: Millis,
        after: Self,
        out: Twist<Self::Scalar>,
    ) -> bool {
        true
    }

    fn from_limits(limits: Self::Limits) -> (r: Self)
        ensures
            Self::from_limits_post(limits, r),
    ;

    /// Restarts limiting from `twist`.
    fn restart(&mut self, twist: Twist<Self::Scalar>)
        ensures
            old(self).restart_post(twist, *final(self)),
    ;

    /// Restarts limiting from rest.
    fn restart_at_rest(&mut self)
        ensures
            old(self).restart_at_rest_post(*final(self)),
    ;

    /// The twist to command on the way to `target`, `elapsed` after the previous one.
    fn limit(&mut self, target: Twist<Self::Scalar>, elapsed: Millis) -> (r: Twist<Self::Scalar>)
        ensures
            old(self).limit_post(target, elapsed, *final(self), r),
    ;
}

/// A chassis behind a safety layer: it refuses motion under an emergency stop
/// or a fault, stops the inner chassis once when commands stop coming, and
/// limits acceleration.
#[derive(Debug)]
pub struct SafeChassis<C: Chassis, L: TwistLimiter<Scalar = C::Scalar>> {
    inner: C,
    config: SafetyConfig<C::Scalar, L::Limits>,
    monitor: SafetyMonitor<C::Scalar>,
    limiter: Option<L>,
}

impl<C: Chassis, L: TwistLimiter<Scalar = C::Scalar>> SafeChassis<C, L> where
    C::Scalar: Copy,
    L::Limits: Copy,
 {
    pub closed spec fn spec_inner(self) -> C {
        self.inner
    }

    pub closed spec fn spec_config(self) -> SafetyConfig<C::Scalar, L::Limits> {
        self.config
    }

    pub closed spec fn spec_monitor(self) -> SafetyMonitorView<C::Scalar> {
        self.monitor@
    }

    pub closed spec fn spec_limiter(self) -> Option<L> {
        self.limiter
    }

    /// A limiter is present exactly when the configuration has acceleration limits.
    pub open spec fn wf(self) -> bool {
        (self.spec_limiter() is Some) == (self.spec_config().acceleration_limits is Some)
    }

    /// The limiter after a restart from rest (none stays none).
    pub open spec fn limiter_rested(self, after: Self) -> bool {
        match self.spec_limiter() {
            Some(limiter) => after.spec_limiter() is Some && limiter.restart_at_rest_post(
                after.spec_limiter()->0,
            ),
            None => after.spec_limiter() is None,
        }
    }

    /// What a timeout check at `now` does: when the last command expired and
    /// the chassis was not yet stopped for it, the inner chassis is stopped
    /// and, if that succeeds, the limiter restarts from rest and the stop is
    /// recorded; otherwise nothing changes but the timed-out flag.
    pub open spec fn timeout_outcome(self, now: Millis, after: Self, r: Result<(), ChassisError>) -> bool {
        let m0 = self.spec_monitor();
        &&& after.spec_config() == self.spec_config()
        &&& if m0.timeout_check_at(now) == TimeoutCheck::StopRequired {
            &&& self.spec_inner().stop_post(after.spec_inner(), r)
            &&& if r is Ok {
                &&& after.spec_monitor() == m0.with_timeout_stop(now)
                &&& self.limiter_rested(after)
            } else {
                &&& after.spec_monitor() == m0
                &&& after.spec_limiter() == self.spec_limiter()
            }
        } else {
            &&& r == Ok::<(), ChassisError>(())
            &&& after.spec_inner() == self.spec_inner()
            &&& after.spec_monitor() == m0.timeout_handled(now)
            &&& after.spec_limiter() == self.spec_limiter()
        }
    }

    /// The twist `t` that a permitted drive toward `twist` at `now` sends, and
    /// the limiter after it: with no limiter, `twist` itself; before the first
    /// command, `twist`, with the limiter restarted from it; else the
    /// limiter's output for the time since the last update.
    pub open spec fn limited_twist(self, twist: Twist<C::Scalar>, now: Millis, after: Self, t: Twist<C::Scalar>) -> bool {
        match self.spec_limiter() {
            None => t == twist && after.spec_limiter() is None,
            Some(limiter) => after.spec_limiter() is Some && match self.spec_monitor().elapsed_since_update(now) {
                None => t == twist && limiter.restart_post(twist, after.spec_limiter()->0),
                Some(elapsed) => limiter.limit_post(twist, elapsed, after.spec_limiter()->0, t),
            },
        }
    }

    /// What a drive request does once the timeout check is done: a refusal
    /// leaves everything as it is; else the limited twist goes to the inner
    /// chassis and the command is recorded only when the inner chassis accepts it.
    pub open spec fn permitted_outcome(
        self,
        twist: Twist<C::Scalar>,
        now: Millis,
        after: Self,
        r: Result<(), ChassisError>,
    ) -> bool {
        if self.spec_monitor().status.drive_permission() is Err {
            r == self.spec_monitor().status.drive_permission() && after == self
        } else {
            &&& after.spec_config() == self.spec_config()
            &&& after.spec_monitor() == (if r is Ok {
                self.spec_monitor().with_command(now)
            } else {
                self.spec_monitor()
            })
            &&& exists|t: Twist<C::Scalar>|
                #[trigger] self.spec_inner().drive_post(t, after.spec_inner(), r) && self.limited_twist(
                    twist,
                    now,
                    after,
                    t,
                )
        }
    }

    /// What a drive request at `now` does: the timeout check first; a failed
    /// stop ends the request; then the permitted outcome.
    pub open spec fn drive_outcome(
        self,
        twist: Twist<C::Scalar>,
        now: Millis,
        after: Self,
        r: Result<(), ChassisError>,
    ) -> bool {
        exists|mid: Self, rt: Result<(), ChassisError>|
            #[trigger] self.timeout_outcome(now, mid, rt) && if rt is Err {
                r == rt && after == mid
            } else {
                mid.permitted_outcome(twist, now, after, r)
            }
    }

    /// What a stop at `now` does: the limiter restarts from rest, the inner
    /// chassis is stopped, and the stop is recorded as a command if it succeeds.
    pub open spec fn stop_outcome(self, now: Millis, after: Self, r: Result<(), ChassisError>) -> bool {
        &&& after.spec_config() == self.spec_config()
        &&& self.limiter_rested(after)
        &&& self.spec_inner().stop_post(after.spec_inner(), r)
        &&& after.spec_monitor() == (if r is Ok {
            self.spec_monitor().with_command(now)
        } else {
            self.spec_monitor()
        })
    }

    pub fn new(inner: C, config: SafetyConfig<C::Scalar, L::Limits>) -> (r: Self)
        ensures
            r.spec_inner() == inner,
            r.spec_config() == config,
            r.spec_monitor() == SafetyMonitorView::<C::Scalar>::initial(config.command_timeout),
            r.wf(),
            match config.acceleration_limits {
                Some(limits) => L::from_limits_post(limits, r.spec_limiter()->0),
                None => r.spec_limiter() is None,
            },
    {
        let limiter = match config.acceleration_limits {
            Some(limits) => Some(L::from_limits(limits)),
            None => None,
        };
        SafeChassis { inner, config, monitor: SafetyMonitor::new(config.command_timeout), limiter }
    }

    pub fn inner(&self) -> (r: &C)
        ensures
            *r == self.spec_inner(),
    {
        &self.inner
    }

    pub fn inner_mut(&mut self) -> (r: &mut C)
        ensures
            *r == old(self).spec_inner(),
            final(self).spec_inner() == *final(r),
            final(self).spec_monitor() == old(self).spec_monitor(),
            final(self).spec_config() == old(self).spec_config(),
            final(self).spec_limiter() == old(self).spec_limiter(),
    {
        &mut self.inner
    }

    pub fn into_inner(self) -> (r: C)
        ensures
            r == self.spec_inner(),
    {
        self.inner
    }

    pub fn config(&self) -> (r: SafetyConfig<C::Scalar, L::Limits>)
        ensures
            r == self.spec_config(),
    {
        self.config
    }

    pub fn status(&self) -> (r: SafetyStatus<C::Scalar>)
        ensures
            r == self.spec_monitor().status,
    {
        self.monitor.status()
    }

    pub fn set_emergency_stop(&mut self, active: bool)
        ensures
            final(self).spec_monitor() == old(self).spec_monitor().with_emergency_stop(active),
            final(self).spec_inner() == old(self).spec_inner(),
            final(self).spec_config() == old(self).spec_config(),
            final(self).spec_limiter() == old(self).spec_limiter(),
    {
        self.monitor.set_emergency_stop(active);
    }

    pub fn set_fault(&mut self, fault: Option<FaultCode>)
        ensures
            final(self).spec_monitor() == old(self).spec_monitor().with_fault(fault),
            final(self).spec_inner() == old(self).spec_inner(),
            final(self).spec_config() == old(self).spec_config(),
            final(self).spec_limiter() == old(self).spec_limiter(),
    {
        self.monitor.set_fault(fault);
    }

    /// Records a battery reading; `below_minimum` says whether it lies below
    /// the configured minimum voltage, which records the low-battery fault.
    pub fn record_battery_voltage(&mut self, voltage: C::Scalar, below_minimum: bool)
        ensures
            final(self).spec_monitor() == old(self).spec_monitor().with_battery(voltage, below_minimum),
            final(self).spec_inner() == old(self).spec_inner(),
            final(self).spec_config() == old(self).spec_config(),
            final(self).spec_limiter() == old(self).spec_limiter(),
    {
        self.monitor.update_battery_voltage(voltage, below_minimum);
    }

    pub fn check_timeout_at(&mut self, now: Millis) -> (r: Result<(), ChassisError>)
        ensures
            old(self).timeout_outcome(now, *final(self), r),
    {
        match self.monitor.check_timeout(now) {
            TimeoutCheck::WithinTimeout => Ok(()),
            TimeoutCheck::AlreadyStopped => {
                self.monitor.note_timeout_seen();
                Ok(())
            },
            TimeoutCheck::StopRequired => {
                let r = self.inner.stop();
                if r.is_err() {
                    return r;
                }
                match &mut self.limiter {
                    Some(limiter) => limiter.restart_at_rest(),
                    None => {},
                }
                self.monitor.note_timeout_stop(now);
                r
            },
        }
    }

    pub fn drive_at(&mut self, twist: Twist<C::Scalar>, now: Millis) -> (r: Result<(), ChassisError>)
        ensures
            old(self).drive_outcome(twist, now, *final(self), r),
    {
        let ghost start = *self;
        let rt = self.check_timeout_at(now);
        let ghost mid = *self;
        if rt.is_err() {
            return rt;
        }
        let permission = self.monitor.ensure_can_drive();
        if permission.is_err() {
            return permission;
        }
        let target = match &mut self.limiter {
            Some(limiter) => match self.monitor.since_last_update(now) {
                Some(elapsed) => limiter.limit(twist, elapsed),
                None => {
                    limiter.restart(twist);
                    twist
                },
            },
            None => twist,
        };
        let r = self.inner.drive(target);
        if r.is_ok() {
            self.monitor.record_command(now);
        }
        assert(mid.spec_inner().drive_post(target, self.spec_inner(), r));
        assert(mid.limited_twist(twist, now, *self, target));
        r
    }

    pub fn stop_at(&mut self, now: Millis) -> (r: Result<(), ChassisError>)
        ensures
            old(self).stop_outcome(now, *final(self), r),
    {
        match &mut self.limiter {
            Some(limiter) => limiter.restart_at_rest(),
            None => {},
        }
        let r = self.inner.stop();
        if r.is_ok() {
            self.monitor.record_command(now);
        }
        r
    }
}

impl<C: Chassis, L: TwistLimiter<Scalar = C::Scalar>> Chassis for SafeChassis<C, L> where
    C::Scalar: Copy,
    L::Limits: Copy,
 {
    type Scalar = C::Scalar;

    open spec fn drive_post(self, twist: Twist<C::Scalar>, after: Self, result: Result<(), ChassisError>) -> bool {
        self.drive_outcome(twist, Millis(0), after, result)
    }

    open spec fn stop_post(self, after: Self, result: Result<(), ChassisError>) -> bool {
        self.stop_outcome(Millis(0), after, result)
    }

    fn drive(&mut self, twist: Twist<C::Scalar>) -> (r: Result<(), ChassisError>) {
        self.drive_at(twist, Millis(0))
    }

    fn stop(&mut self) -> (r: Result<(), ChassisError>) {
        self.stop_at(Millis(0))
    }
}

/// While the emergency stop is engaged or any fault is recorded, driving is refused.
pub proof fn lemma_fault_lockout<S: Copy>(status: SafetyStatus<S>)
    requires
        status.emergency_stop || status.fault is Some,
    ensures
        status.drive_permission() is Err,
{
}

/// No event but releasing the emergency stop disengages it; a recorded fault
/// stays recorded through everything but `set_fault` and the release of an
/// emergency stop that recorded it; and engaging the emergency stop refuses
/// driving whatever else holds.
pub proof fn lemma_lockout_persists<S: Copy>(
    m: SafetyMonitorView<S>,
    fault: Option<FaultCode>,
    voltage: S,
    below_minimum: bool,
    now: Millis,
)
    ensures
        m.with_battery(voltage, below_minimum).status.emergency_stop == m.status.emergency_stop,
        m.with_timeout_stop(now).status.emergency_stop == m.status.emergency_stop,
        m.with_timeout_seen().status.emergency_stop == m.status.emergency_stop,
        m.with_command(now).status.emergency_stop == m.status.emergency_stop,
        m.with_fault(fault).status.emergency_stop == m.status.emergency_stop,
        m.status.fault is Some ==> m.with_battery(voltage, below_minimum).status.fault is Some,
        m.status.fault is Some ==> m.with_emergency_stop(true).status.fault == m.status.fault,
        m.with_timeout_stop(now).status.fault == m.status.fault,
        m.with_timeout_seen().status.fault == m.status.fault,
        m.with_command(now).status.fault == m.status.fault,
        m.with_emergency_stop(true).status.drive_permission() == Err::<(), ChassisError>(
            ChassisError::EmergencyStopActive,
        ),
{
}

/// Engaging and then releasing the emergency stop keeps any fault other than
/// the emergency-stop fault, so driving stays refused until it is cleared.
pub proof fn lemma_emergency_stop_keeps_other_faults<S: Copy>(m: SafetyMonitorView<S>)
    requires
        m.status.fault is Some,
        m.status.fault != Some(FaultCode::EmergencyStop),
    ensures
        m.with_emergency_stop(true).status.fault == m.status.fault,
        m.with_emergency_stop(true).with_emergency_stop(false).status.fault == m.status.fault,
        m.with_emergency_stop(true).with_emergency_stop(false).status.drive_permission()
            == m.with_emergency_stop(false).status.drive_permission(),
        m.with_emergency_stop(true).with_emergency_stop(false).status.drive_permission() is Err,
{
}

/// Engaging and then releasing the emergency stop returns a monitor whose
/// emergency stop was released to its former state, unless the only fault
/// recorded was the emergency-stop fault itself.
pub proof fn lemma_emergency_stop_toggle<S: Copy>(m: SafetyMonitorView<S>)
    requires
        !m.status.emergency_stop,
        m.status.fault != Some(FaultCode::EmergencyStop),
    ensures
        m.with_emergency_stop(true).with_emergency_stop(false) == m,
{
}

/// Once the last command has expired it stays expired as time goes on.
pub proof fn lemma_expiry_is_monotonic<S: Copy>(m: SafetyMonitorView<S>, now: Millis, later: Millis)
    requires
        m.expired_at(now),
        now.0 <= later.0,
    ensures
        m.expired_at(later),
{
}

/// The chassis is stopped once per expired command: after the timeout stop,
/// no later check asks for another until a new command arrives.
pub proof fn lemma_timeout_stops_once<S: Copy>(m: SafetyMonitorView<S>, now: Millis, later: Millis)
    ensures
        m.with_timeout_stop(now).timeout_check_at(later) != TimeoutCheck::StopRequired,
        m.with_timeout_stop(now).with_timeout_seen().timeout_check_at(later)
            != TimeoutCheck::StopRequired,
{
}

/// A command received at `now` keeps the watchdog quiet for the whole timeout.
pub proof fn lemma_command_resets_watchdog<S: Copy>(m: SafetyMonitorView<S>, now: Millis, later: Millis)
    requires
        now.0 <= later.0 <= now.0 + m.command_timeout.0,
    ensures
        m.with_command(now).timeout_check_at(later) == TimeoutCheck::WithinTimeout,
        !m.with_command(now).status.command_timed_out,
        m.with_command(now).last_command_at == Some(now),
        m.with_command(now).last_update_at == Some(now),
        m.with_command(now).status.fault == m.status.fault,
        m.with_command(now).status.emergency_stop == m.status.emergency_stop,
{
}

/// A drive request that the safety state refuses never reaches the inner
/// chassis: with no timeout stop due, it is answered with the refusal and
/// leaves the inner chassis and the monitor as they were.
pub proof fn lemma_refused_drive_never_reaches_inner<C: Chassis, L: TwistLimiter<Scalar = C::Scalar>>(
    c: SafeChassis<C, L>,
    twist: Twist<C::Scalar>,
    now: Millis,
    after: SafeChassis<C, L>,
    r: Result<(), ChassisError>,
) where C::Scalar: Copy, L::Limits: Copy
    requires
        c.drive_outcome(twist, now, after, r),
        c.spec_monitor().timeout_check_at(now) != TimeoutCheck::StopRequired,
        c.spec_monitor().status.drive_permission() is Err,
    ensures
        r == c.spec_monitor().status.drive_permission(),
        after.spec_inner() == c.spec_inner(),
        after.spec_monitor() == c.spec_monitor(),
{
    let (mid, rt) = choose|mid: SafeChassis<C, L>, rt: Result<(), ChassisError>|
        #[trigger] c.timeout_outcome(now, mid, rt) && if rt is Err {
            r == rt && after == mid
        } else {
            mid.permitted_outcome(twist, now, after, r)
        };
    assert(mid.spec_monitor() == c.spec_monitor());
}

/// A drive request is recorded as a command exactly when it succeeds, and it
/// succeeds only when the inner chassis accepted a drive; a failed request
/// leaves the time of the last command as it was.
pub proof fn lemma_command_recorded_only_on_acceptance<C: Chassis, L: TwistLimiter<Scalar = C::Scalar>>(
    c: SafeChassis<C, L>,
    twist: Twist<C::Scalar>,
    now: Millis,
    after: SafeChassis<C, L>,
    r: Result<(), ChassisError>,
) where C::Scalar: Copy, L::Limits: Copy
    requires
        c.drive_outcome(twist, now, after, r),
    ensures
        r is Ok ==> after.spec_monitor() == c.spec_monitor().timeout_handled(now).with_command(now),
        r is Ok ==> exists|inner: C, t: Twist<C::Scalar>|
            #[trigger] inner.drive_post(t, after.spec_inner(), r),
        r is Err ==> after.spec_monitor().last_command_at == c.spec_monitor().last_command_at,
{
    let (mid, rt) = choose|mid: SafeChassis<C, L>, rt: Result<(), ChassisError>|
        #[trigger] c.timeout_outcome(now, mid, rt) && if rt is Err {
            r == rt && after == mid
        } else {
            mid.permitted_outcome(twist, now, after, r)
        };
    if rt is Ok && mid.spec_monitor().status.drive_permission() is Ok {
        let t = choose|t: Twist<C::Scalar>|
            #[trigger] mid.spec_inner().drive_post(t, after.spec_inner(), r) && mid.limited_twist(
                twist,
                now,
                after,
                t,
            );
        assert(mid.spec_inner().drive_post(t, after.spec_inner(), r));
    }
}

/// A safe chassis keeps its limiter exactly when its configuration has
/// acceleration limits, through every timeout check, drive and stop; and a
/// drive through a chassis without limits sends the requested twist itself.
pub proof fn lemma_safe_chassis_stays_well_formed<C: Chassis, L: TwistLimiter<Scalar = C::Scalar>>(
    c: SafeChassis<C, L>,
    twist: Twist<C::Scalar>,
    now: Millis,
    after: SafeChassis<C, L>,
    r: Result<(), ChassisError>,
) where C::Scalar: Copy, L::Limits: Copy
    requires
        c.wf(),
    ensures
        c.timeout_outcome(now, after, r) ==> after.wf(),
        c.stop_outcome(now, after, r) ==> after.wf(),
        c.drive_outcome(twist, now, after, r) ==> after.wf(),
        c.drive_outcome(twist, now, after, r) && c.spec_config().acceleration_limits is None && r is Ok
            ==> exists|inner: C| #[trigger] inner.drive_post(twist, after.spec_inner(), r),
{
    if c.drive_outcome(twist, now, after, r) {
        let (mid, rt) = choose|mid: SafeChassis<C, L>, rt: Result<(), ChassisError>|
            #[trigger] c.timeout_outcome(now, mid, rt) && if rt is Err {
                r == rt && after == mid
            } else {
                mid.permitted_outcome(twist, now, after, r)
            };
        if rt is Ok && mid.spec_monitor().status.drive_permission() is Ok {
            let t = choose|t: Twist<C::Scalar>|
                #[trigger] mid.spec_inner().drive_post(t, after.spec_inner(), r) && mid.limited_twist(
                    twist,
                    now,
                    after,
                    t,
                );
            assert(mid.spec_inner().drive_post(t, after.spec_inner(), r));
        }
    }
}

/// Setting a fault records exactly that fault and changes nothing else; a
/// fault set while the emergency stop is engaged survives its release.
pub proof fn lemma_set_fault_records_that_fault<S: Copy>(m: SafetyMonitorView<S>, fault: Option<FaultCode>)
    ensures
        m.with_fault(fault).status.fault == fault,
        m.with_fault(fault).status.emergency_stop == m.status.emergency_stop,
        m.with_fault(fault).status.command_timed_out == m.status.command_timed_out,
        m.with_fault(fault).status.battery_voltage == m.status.battery_voltage,
        m.with_fault(fault).command_timeout == m.command_timeout,
        m.with_fault(fault).last_command_at == m.last_command_at,
        m.with_fault(fault).last_update_at == m.last_update_at,
        fault is Some && fault != Some(FaultCode::EmergencyStop) ==> m.with_emergency_stop(true).with_fault(
            fault,
        ).with_emergency_stop(false).status.fault == fault,
        fault == Some(FaultCode::MotorFault(7)) ==> m.with_emergency_stop(true).with_fault(
            fault,
        ).with_emergency_stop(false).status.drive_permission() == Err::<(), ChassisError>(
            ChassisError::FaultActive,
        ),
{
}

/// A battery reading is always stored, and one below the minimum records the
/// low-battery fault whatever fault was recorded before (also while the
/// emergency stop is engaged, so that the fault outlives its release); one
/// at or above the minimum leaves the fault alone.
pub proof fn lemma_low_battery_always_recorded<S: Copy>(m: SafetyMonitorView<S>, voltage: S)
    ensures
        m.with_battery(voltage, true).status.fault == Some(FaultCode::LowBattery),
        m.with_battery(voltage, true).status.battery_voltage == Some(voltage),
        m.with_battery(voltage, false).status.fault == m.status.fault,
        m.with_battery(voltage, false).status.battery_voltage == Some(voltage),
        m.with_battery(voltage, true).status.emergency_stop == m.status.emergency_stop,
        m.with_emergency_stop(true).with_battery(voltage, true).with_emergency_stop(false).status.fault
            == Some(FaultCode::LowBattery),
        m.with_emergency_stop(true).with_battery(voltage, true).with_emergency_stop(
            false,
        ).status.drive_permission() == Err::<(), ChassisError>(ChassisError::LowBattery),
{
}

/// The watchdog of a monitor fires exactly when the last command is older
/// than the configured timeout.
pub proof fn lemma_monitor_expiry_is_the_timeout<S: Copy>(m: SafetyMonitorView<S>, at: Millis, now: Millis)
    requires
        m.last_command_at == Some(at),
    ensures
        now.0 >= at.0 && now.0 - at.0 > m.command_timeout.0 ==> m.expired_at(now),
        now.0 < at.0 || now.0 - at.0 <= m.command_timeout.0 ==> !m.expired_at(now),
        now.0 >= at.0 && now.0 - at.0 > m.command_timeout.0 && !m.status.command_timed_out
            ==> m.timeout_check_at(now) == TimeoutCheck::StopRequired,
{
}

/// A drive with no timeout stop due and nothing holding the robot sends the
/// inner chassis: the requested twist itself when there is no limiter; the
/// requested twist, with the limiter restarted from it, on the first command;
/// else the limiter's output for the milliseconds since the last update.
pub proof fn lemma_drive_sends_the_limited_twist<C: Chassis, L: TwistLimiter<Scalar = C::Scalar>>(
    c: SafeChassis<C, L>,
    twist: Twist<C::Scalar>,
    now: Millis,
    after: SafeChassis<C, L>,
    r: Result<(), ChassisError>,
) where C::Scalar: Copy, L::Limits: Copy
    requires
        c.drive_outcome(twist, now, after, r),
        c.spec_monitor().last_command_at is None || !c.spec_monitor().expired_at(now)
            || c.spec_monitor().status.command_timed_out,
        !c.spec_monitor().status.emergency_stop,
        c.spec_monitor().status.fault is None,
    ensures
        c.spec_limiter() is None ==> c.spec_inner().drive_post(twist, after.spec_inner(), r),
        c.spec_limiter() is None ==> after.spec_limiter() is None,
        c.spec_limiter() is Some && c.spec_monitor().last_update_at is None ==> {
            &&& c.spec_inner().drive_post(twist, after.spec_inner(), r)
            &&& after.spec_limiter() is Some
            &&& c.spec_limiter()->0.restart_post(twist, after.spec_limiter()->0)
        },
        c.spec_limiter() is Some && c.spec_monitor().last_update_at is Some ==> {
            &&& after.spec_limiter() is Some
            &&& exists|t: Twist<C::Scalar>|
                #[trigger] c.spec_inner().drive_post(t, after.spec_inner(), r)
                    && c.spec_limiter()->0.limit_post(
                    twist,
                    Millis(spec_saturating_sub(now.0, (c.spec_monitor().last_update_at->0).0)),
                    after.spec_limiter()->0,
                    t,
                )
        },
        r is Ok ==> after.spec_monitor().last_command_at == Some(now),
{
        let (mid, rt) = choose|mid: SafeChassis<C, L>, rt: Result<(), ChassisError>|
            #[trigger] c.timeout_outcome(now, mid, rt) && if rt is Err {
                r == rt && after == mid
            } else {
                mid.permitted_outcome(twist, now, after, r)
            };
        assert(mid.spec_monitor() == c.spec_monitor());
        assert(mid.spec_inner() == c.spec_inner());
        let t = choose|t: Twist<C::Scalar>|
            #[trigger] mid.spec_inner().drive_post(t, after.spec_inner(), r) && mid.limited_twist(
                twist,
                now,
                after,
                t,
            );
        assert(mid.spec_inner().drive_post(t, after.spec_inner(), r));
}

/// A timeout stop that succeeds restarts the limiter from rest, as a stop does;
/// one that fails leaves the limiter as it was.
pub proof fn lemma_timeout_stop_rests_the_limiter<C: Chassis, L: TwistLimiter<Scalar = C::Scalar>>(
    c: SafeChassis<C, L>,
    at: Millis,
    now: Millis,
    after: SafeChassis<C, L>,
    r: Result<(), ChassisError>,
) where C::Scalar: Copy, L::Limits: Copy
    requires
        c.spec_monitor().last_command_at == Some(at),
        now.0 >= at.0,
        now.0 - at.0 > c.spec_monitor().command_timeout.0,
        !c.spec_monitor().status.command_timed_out,
        c.timeout_outcome(now, after, r),
    ensures
        c.spec_inner().stop_post(after.spec_inner(), r),
        r is Ok && c.spec_limiter() is Some ==> after.spec_limiter() is Some
            && c.spec_limiter()->0.restart_at_rest_post(after.spec_limiter()->0),
        r is Ok ==> after.spec_monitor().status.command_timed_out,
        r is Ok ==> after.spec_monitor().last_update_at == Some(now),
        r is Ok ==> after.spec_monitor().last_command_at == Some(at),
        r is Err ==> after.spec_limiter() == c.spec_limiter(),
        r is Err ==> after.spec_monitor() == c.spec_monitor(),
{
}

/// A stop restarts the limiter from rest, whatever the inner chassis answers.
pub proof fn lemma_stop_rests_the_limiter<C: Chassis, L: TwistLimiter<Scalar = C::Scalar>>(
    c: SafeChassis<C, L>,
    now: Millis,
    after: SafeChassis<C, L>,
    r: Result<(), ChassisError>,
) where C::Scalar: Copy, L::Limits: Copy
    requires
        c.stop_outcome(now, after, r),
    ensures
        c.spec_inner().stop_post(after.spec_inner(), r),
        c.spec_limiter() is Some ==> after.spec_limiter() is Some
            && c.spec_limiter()->0.restart_at_rest_post(after.spec_limiter()->0),
        r is Ok ==> after.spec_monitor().last_command_at == Some(now),
        r is Ok ==> after.spec_monitor().last_update_at == Some(now),
        r is Ok ==> !after.spec_monitor().status.command_timed_out,
        r is Err ==> after.spec_monitor() == c.spec_monitor(),
        after.spec_monitor().status.fault == c.spec_monitor().status.fault,
{
}

} // verus!
