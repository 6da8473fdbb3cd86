//! Plain values exchanged with the bridge safety policy.
//!
//! The policy itself is a separate component. The library decides which call to
//! make next and what to do with the reply; these types describe both.

use vstd::prelude::*;

verus! {

/// Outputs that the safety policy wants on the board.
#[derive(Clone, Copy, Debug, PartialEq, Eq, Structural)]
pub struct SafetyOutputs {
    pub five_volt_enabled: bool,
    pub asic_reset_asserted: bool,
    pub fan_percent: u8,
}

impl SafetyOutputs {
    /// Whether the board is safe: 5 V off, reset asserted, and the fan at full speed.
    pub open spec fn is_safe(self) -> bool {
        !self.five_volt_enabled && self.asic_reset_asserted && self.fan_percent == 100
    }

    /// Whether the reset is released only while 5 V is on.
    pub open spec fn is_sequenced(self) -> bool {
        !self.asic_reset_asserted ==> self.five_volt_enabled
    }
}

/// Condition that the safety policy reports.
#[derive(Clone, Copy, Debug, PartialEq, Eq, Structural)]
pub enum SafetyState {
    SafeOff,
    Controlled,
    FaultLatched,
}

/// Reasons for which the safety policy refuses a call.
#[derive(Clone, Copy, Debug, PartialEq, Eq, Structural)]
pub enum SafetyError {
    LeaseRequired,
    LeaseExpired,
    FaultLatched,
    TripActive,
    InvalidSequence,
    FanNotSafe,
    InvalidFanPercent,
}

/// One call into the safety policy, with its arguments.
#[derive(Clone, Copy, Debug, PartialEq, Eq, Structural)]
pub enum PolicyCall {
    /// Advance the policy to `now_ms` with the sampled trip input.
    Tick { now_ms: u64, trip_input_asserted: bool },
    /// Renew the lease.
    Heartbeat { now_ms: u64 },
    /// Report the state at `now_ms`.
    State { now_ms: u64 },
    /// Take the lease.
    Arm { now_ms: u64 },
    /// Clear a latched fault.
    ClearFault { now_ms: u64 },
    /// Report the wanted outputs.
    Outputs,
    /// Ask for the 5 V rail to be switched.
    RequestFiveVolt { enabled: bool, now_ms: u64 },
    /// Ask for the ASIC reset to be asserted or released.
    RequestAsicReset { asserted: bool, now_ms: u64 },
    /// Ask for a fan target.
    RequestFan { percent: u8, now_ms: u64 },
    /// Drop the lease and return every output to its safe level.
    Disarm,
}

/// What a [`PolicyCall`] gives back.
#[derive(Clone, Copy, Debug, PartialEq, Eq)]
pub enum PolicyReply {
    /// The call has no result.
    Done,
    /// The call succeeded or was refused.
    Outcome(Result<(), SafetyError>),
    /// Reply to [`PolicyCall::State`].
    State(SafetyState),
    /// Reply to [`PolicyCall::Outputs`].
    Outputs(SafetyOutputs),
}

impl PolicyReply {
    /// Whether this reply has the shape that `call` gives back.
    pub open spec fn answers(self, call: PolicyCall) -> bool {
        match call {
            PolicyCall::Tick { .. } | PolicyCall::Disarm => self is Done,
            PolicyCall::State { .. } => self is State,
            PolicyCall::Outputs => self is Outputs,
            _ => self is Outcome,
        }
    }
}

} // verus!
