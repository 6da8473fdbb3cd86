//! Requests to the bridge and their replies.

use vstd::prelude::*;

use crate::payload::Payload;
use crate::safety::SafetyError;

verus! {

pub const SYSTEM_GET_INFO: u8 = 0x01;
pub const SYSTEM_GET_RX_STATS: u8 = 0x02;
pub const SYSTEM_GET_SAFETY_STATUS: u8 = 0x10;

pub const GPIO_5V_ENABLE: u8 = 0x01;
pub const GPIO_ASIC_RESET: u8 = 0x02;
pub const GPIO_ASIC_TRIP: u8 = 0x03;

pub const FAN_SET_SPEED: u8 = 0x10;
pub const FAN_GET_TACH: u8 = 0x20;

/// What a client asks of the bridge.
#[derive(Clone, Copy, Debug, PartialEq, Eq)]
pub enum Request {
    System { command: u8 },
    Gpio { command: u8, level: Option<bool> },
    Fan { command: u8, speed: Option<u8> },
    Shutdown,
}

/// A request with the identifier that its reply carries.
#[derive(Clone, Copy, Debug, PartialEq, Eq)]
pub struct RequestEnvelope {
    pub id: u8,
    pub request: Request,
}

/// A reply with the identifier of its request.
pub struct ReplyEnvelope {
    pub id: u8,
    pub result: Result<Payload, CommandError>,
}

/// Why the bridge turns a request down.
#[derive(Clone, Copy, Debug, PartialEq, Eq, Structural)]
pub enum CommandError {
    Invalid,
    Denied,
    Fault,
}

/// How a refusal of the safety policy is reported: faults of the board as
/// [`CommandError::Fault`], requests out of order as [`CommandError::Denied`].
pub open spec fn reported(error: SafetyError) -> CommandError {
    match error {
        SafetyError::LeaseExpired | SafetyError::FaultLatched | SafetyError::TripActive => {
            CommandError::Fault
        },
        SafetyError::LeaseRequired
        | SafetyError::InvalidSequence
        | SafetyError::FanNotSafe
        | SafetyError::InvalidFanPercent => CommandError::Denied,
    }
}

impl vstd::std_specs::convert::FromSpecImpl<SafetyError> for CommandError {
    open spec fn obeys_from_spec() -> bool {
        true
    }

    open spec fn from_spec(error: SafetyError) -> Self {
        reported(error)
    }
}

impl From<SafetyError> for CommandError {
    fn from(error: SafetyError) -> Self {
        match error {
            SafetyError::LeaseExpired | SafetyError::FaultLatched | SafetyError::TripActive => {
                CommandError::Fault
            },
            SafetyError::LeaseRequired
            | SafetyError::InvalidSequence
            | SafetyError::FanNotSafe
            | SafetyError::InvalidFanPercent => CommandError::Denied,
        }
    }
}

/// Settings of the PWM slice that drives the fan.
#[derive(Clone, Copy, Debug, PartialEq, Eq, Structural)]
pub struct FanPwmConfig {
    pub top: u16,
    pub compare_a: u16,
    pub compare_b: u16,
    pub divider: u8,
    pub invert_a: bool,
    pub phase_correct: bool,
    pub enable: bool,
}

/// The PWM settings for a compare value. The fan path is active low, so that the
/// compare value of a safe full-speed target holds the output low.
pub open spec fn fan_pwm(compare_a: u16) -> FanPwmConfig {
    FanPwmConfig {
        top: 1000,
        compare_a,
        compare_b: 0,
        divider: 5,
        invert_a: true,
        phase_correct: false,
        enable: true,
    }
}

/// The PWM settings for the compare value of a fan target.
pub fn fan_pwm_config(compare_a: u16) -> (config: FanPwmConfig)
    ensures
        config == fan_pwm(compare_a),
        config.top == 1000 && config.compare_a == compare_a && config.compare_b == 0,
        config.divider == 5 && config.invert_a && !config.phase_correct && config.enable,
{
    FanPwmConfig {
        top: 1000,
        compare_a,
        compare_b: 0,
        divider: 5,
        invert_a: true,
        phase_correct: false,
        enable: true,
    }
}

/// What a client that waits for reply `id` takes from the next reply. A reply that
/// a vanished client left behind has another identifier and is dropped.
pub fn take_reply(id: u8, reply: ReplyEnvelope) -> (taken: Option<Result<Payload, CommandError>>)
    ensures
        taken == taken_reply(id, reply),
        taken is Some <==> reply.id == id,
        taken matches Some(result) ==> result == reply.result,
{
    if reply.id == id {
        Some(reply.result)
    } else {
        None
    }
}

/// The result of `reply` where it answers request `id`.
pub open spec fn taken_reply(id: u8, reply: ReplyEnvelope) -> Option<
    Result<Payload, CommandError>,
> {
    if reply.id == id {
        Some(reply.result)
    } else {
        None
    }
}

/// What a client that waits for reply `id` gets out of a stream of replies: the
/// first one that it takes.
pub open spec fn awaited(id: u8, replies: Seq<ReplyEnvelope>) -> Option<
    Result<Payload, CommandError>,
>
    decreases replies.len(),
{
    if replies.len() == 0 {
        None
    } else if taken_reply(id, replies[0]) is Some {
        taken_reply(id, replies[0])
    } else {
        awaited(id, replies.drop_first())
    }
}

/// Replies left behind for other requests never become the answer to this one:
/// the client gets the first reply that carries its identifier.
pub proof fn law_stale_replies_are_dropped(
    id: u8,
    stale: Seq<ReplyEnvelope>,
    reply: ReplyEnvelope,
    later: Seq<ReplyEnvelope>,
)
    requires
        forall|i: int| 0 <= i < stale.len() ==> (#[trigger] stale[i]).id != id,
        reply.id == id,
    ensures
        awaited(id, stale + seq![reply] + later) == Some(reply.result),
    decreases stale.len(),
{
    let replies = stale + seq![reply] + later;
    if stale.len() == 0 {
        assert(replies[0] == reply);
    } else {
        assert(replies[0] == stale[0]);
        assert(replies.drop_first() =~= stale.drop_first() + seq![reply] + later);
        law_stale_replies_are_dropped(id, stale.drop_first(), reply, later);
    }
}

/// Faults of the board are told from requests that come out of order: an expired
/// lease, a latched fault and an active trip are the former, everything else the
/// latter, and no refusal is reported as an unknown request.
pub proof fn law_faults_are_told_from_denials(error: SafetyError)
    ensures
        reported(error) is Fault <==> error is LeaseExpired || error is FaultLatched || error
            is TripActive,
        reported(error) is Denied <==> error is LeaseRequired || error is InvalidSequence || error
            is FanNotSafe || error is InvalidFanPercent,
{
}

/// A client never takes the reply to another request, and never passes over its own:
/// where none of the replies is its own it gets nothing.
pub proof fn law_foreign_replies_give_nothing(id: u8, replies: Seq<ReplyEnvelope>)
    requires
        forall|i: int| 0 <= i < replies.len() ==> (#[trigger] replies[i]).id != id,
    ensures
        awaited(id, replies) is None,
    decreases replies.len(),
{
    if replies.len() > 0 {
        let rest = replies.drop_first();
        assert(replies[0].id != id);
        assert forall|i: int| 0 <= i < rest.len() implies (#[trigger] rest[i]).id != id by {
            assert(rest[i] == replies[i + 1]);
        }
        law_foreign_replies_give_nothing(id, rest);
    }
}

} // verus!
