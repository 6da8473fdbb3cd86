//! Transparent ownership of the bridge safety policy.
//!
//! The reference device has a single controller, so this owner keeps the lease,
//! the heartbeat schedule and the fail-safe rules that a separate host would
//! otherwise keep. An operation is a sequence of policy calls: it starts with a
//! [`Step`], and each reply is handed to [`BridgeOwner::resume`] until the
//! operation is finished. What a whole operation amounts to is stated in
//! [`crate::owner_model`].

use vstd::prelude::*;

use crate::safety::{PolicyCall, PolicyReply, SafetyError, SafetyOutputs, SafetyState};

verus! {

/// Time between two renewals of an owned lease.
pub const HEARTBEAT_INTERVAL_MS: u64 = 250;

/// Lease bookkeeping of the bridge.
#[derive(Clone, Copy, Debug, PartialEq, Eq, Structural)]
pub struct BridgeOwner {
    lease_owned: bool,
    next_heartbeat_ms: u64,
}

/// A change that a client asks for.
#[derive(Clone, Copy, Debug, PartialEq, Eq, Structural)]
pub enum Change {
    FiveVolt { enabled: bool },
    AsicReset { asserted: bool },
    Fan { percent: u8 },
}

/// What to do once the policy has been serviced.
#[derive(Clone, Copy, Debug, PartialEq, Eq, Structural)]
pub enum Operation {
    Service,
    Request(Change),
}

/// The reply that an unfinished operation waits for.
#[derive(Clone, Copy, Debug, PartialEq, Eq)]
pub enum Pending {
    /// The policy is being advanced.
    Tick { operation: Operation, now_ms: u64 },
    /// The lease is being renewed.
    Heartbeat { operation: Operation, now_ms: u64 },
    /// The lease could not be renewed and is being dropped.
    ServiceDisarm { operation: Operation, now_ms: u64 },
    /// The state decides how control is gained.
    State { change: Change, now_ms: u64 },
    /// A latched fault is being cleared.
    ClearFault { change: Change, now_ms: u64 },
    /// The lease is being taken.
    Arm { change: Change, now_ms: u64 },
    /// The outputs decide whether the request is needed.
    Outputs { change: Change, now_ms: u64 },
    /// The request is being made.
    Request { change: Change },
    /// The bridge is being made safe before `result` is reported.
    Disarm { result: Result<(), SafetyError> },
}

/// The next thing that an operation needs.
#[derive(Clone, Copy, Debug, PartialEq, Eq)]
pub enum Step {
    /// Make `call` and hand the reply to [`BridgeOwner::resume`] with `pending`.
    Call { call: PolicyCall, pending: Pending },
    /// The operation is over.
    Finished { result: Result<(), SafetyError> },
}

/// The time `interval_ms` after `now_ms`, or the latest time that can be held.
pub open spec fn deadline(now_ms: u64, interval_ms: u64) -> u64 {
    if now_ms + interval_ms > u64::MAX {
        u64::MAX
    } else {
        (now_ms + interval_ms) as u64
    }
}

impl Change {
    /// Whether the change leaves the safe levels, so that the lease must be owned.
    pub open spec fn is_unsafe(self) -> bool {
        match self {
            Change::FiveVolt { enabled } => enabled,
            Change::AsicReset { asserted } => !asserted,
            Change::Fan { percent } => percent < 100,
        }
    }

    /// Whether an unsafe change is skipped where the outputs show it already.
    pub open spec fn is_level(self) -> bool {
        self !is Fan
    }

    /// Whether `outputs` show the unsafe level of this kind of change.
    pub open spec fn shown_by(self, outputs: SafetyOutputs) -> bool {
        match self {
            Change::FiveVolt { .. } => outputs.five_volt_enabled,
            Change::AsicReset { .. } => !outputs.asic_reset_asserted,
            Change::Fan { .. } => false,
        }
    }

    /// Whether `outputs` are as the change asks.
    pub open spec fn met_by(self, outputs: SafetyOutputs) -> bool {
        match self {
            Change::FiveVolt { enabled } => outputs.five_volt_enabled == enabled,
            Change::AsicReset { asserted } => outputs.asic_reset_asserted == asserted,
            Change::Fan { percent } => outputs.fan_percent == percent,
        }
    }

    /// Whether the bridge is made safe after the change was granted.
    pub open spec fn ends_ownership(self) -> bool {
        self == Change::FiveVolt { enabled: false }
    }

    /// The policy call that asks for the change.
    pub open spec fn call(self, now_ms: u64) -> PolicyCall {
        match self {
            Change::FiveVolt { enabled } => PolicyCall::RequestFiveVolt { enabled, now_ms },
            Change::AsicReset { asserted } => PolicyCall::RequestAsicReset { asserted, now_ms },
            Change::Fan { percent } => PolicyCall::RequestFan { percent, now_ms },
        }
    }

    /// The step that asks for the change.
    pub open spec fn ask(self, now_ms: u64) -> Step {
        Step::Call { call: self.call(now_ms), pending: Pending::Request { change: self } }
    }

    /// The step that follows once the bridge is controlled.
    pub open spec fn once_controlled(self, now_ms: u64) -> Step {
        if self.is_level() {
            Step::Call {
                call: PolicyCall::Outputs,
                pending: Pending::Outputs { change: self, now_ms },
            }
        } else {
            self.ask(now_ms)
        }
    }
}

impl Operation {
    /// The first step of every operation: the policy sees the time and the trip
    /// input before anything else happens.
    pub open spec fn begin(self, now_ms: u64, trip_input_asserted: bool) -> Step {
        Step::Call {
            call: PolicyCall::Tick { now_ms, trip_input_asserted },
            pending: Pending::Tick { operation: self, now_ms },
        }
    }

    /// The step that follows once the policy has been serviced.
    pub open spec fn once_serviced(self, now_ms: u64) -> Step {
        match self {
            Operation::Service => Step::Finished { result: Ok(()) },
            Operation::Request(change) => if change.is_unsafe() {
                Step::Call {
                    call: PolicyCall::State { now_ms },
                    pending: Pending::State { change, now_ms },
                }
            } else {
                change.ask(now_ms)
            },
        }
    }
}

impl Pending {
    /// Whether `reply` can be the reply that is waited for.
    pub open spec fn accepts(self, reply: PolicyReply) -> bool {
        match self {
            Pending::Tick { .. } | Pending::ServiceDisarm { .. } | Pending::Disarm { .. } => {
                reply is Done
            },
            Pending::State { .. } => reply is State,
            Pending::Outputs { .. } => reply is Outputs,
            _ => reply is Outcome,
        }
    }

    /// Tells whether `reply` can be the reply that is waited for.
    pub fn takes(&self, reply: &PolicyReply) -> (taken: bool)
        ensures
            taken == self.accepts(*reply),
    {
        match self {
            Pending::Tick { .. } | Pending::ServiceDisarm { .. } | Pending::Disarm { .. } => {
                matches!(reply, PolicyReply::Done)
            },
            Pending::State { .. } => matches!(reply, PolicyReply::State(_)),
            Pending::Outputs { .. } => matches!(reply, PolicyReply::Outputs(_)),
            _ => matches!(reply, PolicyReply::Outcome(_)),
        }
    }
}

/// The last step of an operation that makes the bridge safe.
pub open spec fn disarm_and_report(result: Result<(), SafetyError>) -> Step {
    Step::Call { call: PolicyCall::Disarm, pending: Pending::Disarm { result } }
}

/// Values of the bookkeeping and the transitions between them.
impl BridgeOwner {
    /// The bookkeeping with a lease that is renewed at `next_heartbeat_ms`.
    pub closed spec fn holding(next_heartbeat_ms: u64) -> Self {
        BridgeOwner { lease_owned: true, next_heartbeat_ms }
    }

    /// The bookkeeping without a lease.
    pub closed spec fn released() -> Self {
        BridgeOwner { lease_owned: false, next_heartbeat_ms: 0 }
    }

    /// Whether the lease is owned.
    pub closed spec fn owns_lease(self) -> bool {
        self.lease_owned
    }

    /// When the lease is renewed next.
    pub closed spec fn next_heartbeat(self) -> u64 {
        self.next_heartbeat_ms
    }

    /// Without a lease there is no heartbeat scheduled.
    pub open spec fn well_formed(self) -> bool {
        !self.owns_lease() ==> self.next_heartbeat() == 0
    }

    /// Whether the lease is to be renewed at `now_ms`.
    pub open spec fn heartbeat_due(self, now_ms: u64) -> bool {
        self.owns_lease() && now_ms >= self.next_heartbeat()
    }

    /// The bookkeeping once the bridge is controlled at `now_ms`. A heartbeat
    /// that is scheduled already stays where it is.
    pub open spec fn controlled(self, now_ms: u64) -> Self {
        if self.owns_lease() {
            self
        } else {
            BridgeOwner::holding(deadline(now_ms, HEARTBEAT_INTERVAL_MS))
        }
    }

    /// The bookkeeping and the step that follow `reply`.
    pub open spec fn resumed(self, pending: Pending, reply: PolicyReply) -> (Self, Step) {
        match pending {
            Pending::Tick { operation, now_ms } => (
                self,
                if self.heartbeat_due(now_ms) {
                    Step::Call {
                        call: PolicyCall::Heartbeat { now_ms },
                        pending: Pending::Heartbeat { operation, now_ms },
                    }
                } else {
                    operation.once_serviced(now_ms)
                },
            ),
            Pending::Heartbeat { operation, now_ms } => if reply->Outcome_0 is Ok {
                (
                    BridgeOwner::holding(deadline(now_ms, HEARTBEAT_INTERVAL_MS)),
                    operation.once_serviced(now_ms),
                )
            } else {
                (
                    BridgeOwner::released(),
                    Step::Call {
                        call: PolicyCall::Disarm,
                        pending: Pending::ServiceDisarm { operation, now_ms },
                    },
                )
            },
            Pending::ServiceDisarm { operation, now_ms } => (
                self,
                operation.once_serviced(now_ms),
            ),
            Pending::State { change, now_ms } => match reply->State_0 {
                SafetyState::Controlled => (
                    self.controlled(now_ms),
                    change.once_controlled(now_ms),
                ),
                SafetyState::SafeOff => (
                    self,
                    Step::Call {
                        call: PolicyCall::Arm { now_ms },
                        pending: Pending::Arm { change, now_ms },
                    },
                ),
                SafetyState::FaultLatched => (
                    self,
                    Step::Call {
                        call: PolicyCall::ClearFault { now_ms },
                        pending: Pending::ClearFault { change, now_ms },
                    },
                ),
            },
            Pending::ClearFault { change, now_ms } => match reply->Outcome_0 {
                Ok(_) => (
                    self,
                    Step::Call {
                        call: PolicyCall::Arm { now_ms },
                        pending: Pending::Arm { change, now_ms },
                    },
                ),
                Err(error) => (BridgeOwner::released(), disarm_and_report(Err(error))),
            },
            Pending::Arm { change, now_ms } => match reply->Outcome_0 {
                Ok(_) => (self.controlled(now_ms), change.once_controlled(now_ms)),
                Err(error) => (BridgeOwner::released(), disarm_and_report(Err(error))),
            },
            Pending::Outputs { change, now_ms } => (
                self,
                if change.shown_by(reply->Outputs_0) {
                    Step::Finished { result: Ok(()) }
                } else {
                    change.ask(now_ms)
                },
            ),
            Pending::Request { change } => match reply->Outcome_0 {
                Ok(_) => if change.ends_ownership() {
                    (BridgeOwner::released(), disarm_and_report(Ok(())))
                } else {
                    (self, Step::Finished { result: Ok(()) })
                },
                Err(error) => (BridgeOwner::released(), disarm_and_report(Err(error))),
            },
            Pending::Disarm { result } => (self, Step::Finished { result }),
        }
    }
}

impl Default for BridgeOwner {
    fn default() -> (owner: Self)
        ensures
            owner == BridgeOwner::released(),
    {
        Self::new()
    }
}

impl BridgeOwner {
    /// Starts without a lease.
    pub fn new() -> (owner: Self)
        ensures
            owner == BridgeOwner::released(),
            owner.well_formed(),
    {
        BridgeOwner { lease_owned: false, next_heartbeat_ms: 0 }
    }

    /// Starts a periodic service pass: the policy is advanced, and the lease is
    /// renewed if that is due.
    pub fn service(&mut self, now_ms: u64, trip_input_asserted: bool) -> (step: Step)
        ensures
            *final(self) == *old(self),
            step == Operation::Service.begin(now_ms, trip_input_asserted),
    {
        Self::begin(Operation::Service, now_ms, trip_input_asserted)
    }

    /// Starts switching the 5 V rail.
    pub fn request_five_volt_enabled(
        &mut self,
        enabled: bool,
        now_ms: u64,
        trip_input_asserted: bool,
    ) -> (step: Step)
        ensures
            *final(self) == *old(self),
            step == Operation::Request(Change::FiveVolt { enabled }).begin(
                now_ms,
                trip_input_asserted,
            ),
    {
        Self::begin(Operation::Request(Change::FiveVolt { enabled }), now_ms, trip_input_asserted)
    }

    /// Starts asserting or releasing the ASIC reset.
    pub fn request_asic_reset_asserted(
        &mut self,
        asserted: bool,
        now_ms: u64,
        trip_input_asserted: bool,
    ) -> (step: Step)
        ensures
            *final(self) == *old(self),
            step == Operation::Request(Change::AsicReset { asserted }).begin(
                now_ms,
                trip_input_asserted,
            ),
    {
        Self::begin(Operation::Request(Change::AsicReset { asserted }), now_ms, trip_input_asserted)
    }

    /// Starts setting the fan target.
    pub fn request_fan_percent(
        &mut self,
        percent: u8,
        now_ms: u64,
        trip_input_asserted: bool,
    ) -> (step: Step)
        ensures
            *final(self) == *old(self),
            step == Operation::Request(Change::Fan { percent }).begin(now_ms, trip_input_asserted),
    {
        Self::begin(Operation::Request(Change::Fan { percent }), now_ms, trip_input_asserted)
    }

    /// Gives up the lease and starts making the bridge safe.
    pub fn fail_safe(&mut self) -> (step: Step)
        ensures
            *final(self) == BridgeOwner::released(),
            step == disarm_and_report(Ok(())),
    {
        self.abandon(Ok(()))
    }

    /// Continues an operation with the reply to its latest call.
    pub fn resume(&mut self, pending: Pending, reply: PolicyReply) -> (step: Step)
        requires
            pending.accepts(reply),
        ensures
            (*final(self), step) == old(self).resumed(pending, reply),
            old(self).well_formed() ==> final(self).well_formed(),
    {
        match pending {
            Pending::Tick { operation, now_ms } => {
                if self.lease_owned && now_ms >= self.next_heartbeat_ms {
                    Step::Call {
                        call: PolicyCall::Heartbeat { now_ms },
                        pending: Pending::Heartbeat { operation, now_ms },
                    }
                } else {
                    Self::once_serviced(operation, now_ms)
                }
            },
            Pending::Heartbeat { operation, now_ms } => match reply {
                PolicyReply::Outcome(Ok(_)) => {
                    self.lease_owned = true;
                    self.next_heartbeat_ms = now_ms.saturating_add(HEARTBEAT_INTERVAL_MS);
                    Self::once_serviced(operation, now_ms)
                },
                _ => {
                    self.release();
                    Step::Call {
                        call: PolicyCall::Disarm,
                        pending: Pending::ServiceDisarm { operation, now_ms },
                    }
                },
            },
            Pending::ServiceDisarm { operation, now_ms } => Self::once_serviced(operation, now_ms),
            Pending::State { change, now_ms } => match reply {
                PolicyReply::State(SafetyState::Controlled) => {
                    self.take_control(now_ms);
                    Self::once_controlled(change, now_ms)
                },
                PolicyReply::State(SafetyState::SafeOff) => Self::arm(change, now_ms),
                _ => Step::Call {
                    call: PolicyCall::ClearFault { now_ms },
                    pending: Pending::ClearFault { change, now_ms },
                },
            },
            Pending::ClearFault { change, now_ms } => match reply {
                PolicyReply::Outcome(Err(error)) => self.abandon(Err(error)),
                _ => Self::arm(change, now_ms),
            },
            Pending::Arm { change, now_ms } => match reply {
                PolicyReply::Outcome(Err(error)) => self.abandon(Err(error)),
                _ => {
                    self.take_control(now_ms);
                    Self::once_controlled(change, now_ms)
                },
            },
            Pending::Outputs { change, now_ms } => {
                if Self::shown(change, reply) {
                    Step::Finished { result: Ok(()) }
                } else {
                    Self::ask(change, now_ms)
                }
            },
            Pending::Request { change } => match reply {
                PolicyReply::Outcome(Err(error)) => self.abandon(Err(error)),
                // Switching 5 V off ends ownership and leaves every output safe.
                _ => match change {
                    Change::FiveVolt { enabled: false } => self.abandon(Ok(())),
                    _ => Step::Finished { result: Ok(()) },
                },
            },
            Pending::Disarm { result } => Step::Finished { result },
        }
    }

    fn begin(operation: Operation, now_ms: u64, trip_input_asserted: bool) -> (step: Step)
        ensures
            step == operation.begin(now_ms, trip_input_asserted),
    {
        Step::Call {
            call: PolicyCall::Tick { now_ms, trip_input_asserted },
            pending: Pending::Tick { operation, now_ms },
        }
    }

    fn once_serviced(operation: Operation, now_ms: u64) -> (step: Step)
        ensures
            step == operation.once_serviced(now_ms),
    {
        match operation {
            Operation::Service => Step::Finished { result: Ok(()) },
            Operation::Request(change) => {
                let is_unsafe = match change {
                    Change::FiveVolt { enabled } => enabled,
                    Change::AsicReset { asserted } => !asserted,
                    Change::Fan { percent } => percent < 100,
                };
                if is_unsafe {
                    Step::Call {
                        call: PolicyCall::State { now_ms },
                        pending: Pending::State { change, now_ms },
                    }
                } else {
                    Self::ask(change, now_ms)
                }
            },
        }
    }

    fn arm(change: Change, now_ms: u64) -> (step: Step)
        ensures
            step == (Step::Call {
                call: PolicyCall::Arm { now_ms },
                pending: Pending::Arm { change, now_ms },
            }),
    {
        Step::Call { call: PolicyCall::Arm { now_ms }, pending: Pending::Arm { change, now_ms } }
    }

    fn once_controlled(change: Change, now_ms: u64) -> (step: Step)
        ensures
            step == change.once_controlled(now_ms),
    {
        match change {
            Change::Fan { .. } => Self::ask(change, now_ms),
            _ => Step::Call {
                call: PolicyCall::Outputs,
                pending: Pending::Outputs { change, now_ms },
            },
        }
    }

    fn shown(change: Change, reply: PolicyReply) -> (shown: bool)
        requires
            reply is Outputs,
        ensures
            shown == change.shown_by(reply->Outputs_0),
    {
        match reply {
            PolicyReply::Outputs(outputs) => match change {
                Change::FiveVolt { .. } => outputs.five_volt_enabled,
                Change::AsicReset { .. } => !outputs.asic_reset_asserted,
                Change::Fan { .. } => false,
            },
            _ => false,
        }
    }

    fn ask(change: Change, now_ms: u64) -> (step: Step)
        ensures
            step == change.ask(now_ms),
    {
        let call = match change {
            Change::FiveVolt { enabled } => PolicyCall::RequestFiveVolt { enabled, now_ms },
            Change::AsicReset { asserted } => PolicyCall::RequestAsicReset { asserted, now_ms },
            Change::Fan { percent } => PolicyCall::RequestFan { percent, now_ms },
        };
        Step::Call { call, pending: Pending::Request { change } }
    }

    fn release(&mut self)
        ensures
            *final(self) == BridgeOwner::released(),
    {
        self.lease_owned = false;
        self.next_heartbeat_ms = 0;
    }

    fn abandon(&mut self, result: Result<(), SafetyError>) -> (step: Step)
        ensures
            *final(self) == BridgeOwner::released(),
            step == disarm_and_report(result),
    {
        self.release();
        Step::Call { call: PolicyCall::Disarm, pending: Pending::Disarm { result } }
    }

    // A heartbeat that is already scheduled is not postponed: frequent commands
    // must not keep the lease from being renewed.
    fn take_control(&mut self, now_ms: u64)
        ensures
            *final(self) == old(self).controlled(now_ms),
    {
        if !self.lease_owned {
            self.lease_owned = true;
            self.next_heartbeat_ms = now_ms.saturating_add(HEARTBEAT_INTERVAL_MS);
        }
    }
}

/// The constructors of the bookkeeping, seen from other modules.
pub broadcast proof fn owner_holding(next_heartbeat_ms: u64)
    ensures
        (#[trigger] BridgeOwner::holding(next_heartbeat_ms)).owns_lease(),
        BridgeOwner::holding(next_heartbeat_ms).next_heartbeat() == next_heartbeat_ms,
{
}

pub proof fn owner_released()
    ensures
        !BridgeOwner::released().owns_lease(),
        BridgeOwner::released().next_heartbeat() == 0,
{
}

} // verus!
