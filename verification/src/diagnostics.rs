//! Read-only diagnostic payloads.

use vstd::prelude::*;
use vstd::string::*;

verus! {

pub const SYSTEM_GET_INFO: u8 = 0x01;
pub const SYSTEM_GET_RX_STATS: u8 = 0x02;
pub const SYSTEM_GET_SAFETY_STATUS: u8 = 0x10;

pub const INFO_SCHEMA_VERSION: u8 = 1;
pub const PROTOCOL_MAJOR: u8 = 1;
pub const PROTOCOL_MINOR: u8 = 0;
pub const FIRMWARE_VERSION: &'static str = "bitaxe-birds-raw-0.1.0";

pub const RX_STATS_SCHEMA_VERSION: u8 = 1;
pub const RX_STATS_LENGTH: usize = 9;

pub const SAFETY_STATUS_SCHEMA_VERSION: u8 = 1;
pub const SAFETY_STATUS_LENGTH: usize = 17;

pub const SAFETY_STAGE_BOOT_SAFE: u8 = 0;
pub const SAFETY_STATE_SAFE_OFF: u8 = 0;
pub const SAFETY_STATE_CONTROLLED: u8 = 1;
pub const SAFETY_FAULT_NONE: u8 = 0;
pub const RUNTIME_GOOD_SAFE_OFF: u8 = 0;
pub const RUNTIME_GOOD_CONTROLLED: u8 = 1;
pub const RUNTIME_BAD_TRIP_INPUT: u8 = 0x82;
pub const PRODUCTION_BAD_STAGE_DISABLED: u8 = 0x80;

pub const CAP_FIVE_VOLT_CONTROL: u16 = 1;
pub const CAP_ASIC_RESET_CONTROL: u16 = 2;
pub const CAP_FAN_FORCE_FULL: u16 = 4;
pub const CAP_TRIP_INPUT_SAMPLED: u16 = 8;
pub const CAPABILITIES: u16 = CAP_FIVE_VOLT_CONTROL + CAP_ASIC_RESET_CONTROL + CAP_FAN_FORCE_FULL
    + CAP_TRIP_INPUT_SAMPLED;

pub const EVIDENCE_OUTPUTS_SAFE: u16 = 1;
pub const EVIDENCE_LEASE_VALID: u16 = 2;
pub const EVIDENCE_TRIP_CLEAR: u16 = 4;
pub const EVIDENCE_FAULT_CLEAR: u16 = 8;

/// The outputs and the trip input at one moment.
#[derive(Clone, Copy, Debug, PartialEq, Eq, Structural)]
pub struct SafetySnapshot {
    pub five_volt_enabled: bool,
    pub asic_reset_asserted: bool,
    pub fan_percent: u8,
    pub trip_input_asserted: bool,
}

/// The identity payload: schema, protocol version, and the length and the bytes of
/// the firmware version.
pub open spec fn info_payload() -> Seq<u8> {
    seq![
        INFO_SCHEMA_VERSION,
        PROTOCOL_MAJOR,
        PROTOCOL_MINOR,
        FIRMWARE_VERSION.spec_bytes().len() as u8,
    ] + FIRMWARE_VERSION.spec_bytes()
}

/// Writes the identity payload to the front of `output` and returns its length, or
/// leaves `output` alone where the payload does not fit.
pub fn encode_info(output: &mut [u8]) -> (length: Option<usize>)
    ensures
        length is Some <==> old(output)@.len() >= info_payload().len(),
        length matches Some(length) ==> {
            &&& length == info_payload().len()
            &&& final(output)@ == info_payload() + old(output)@.skip(length as int)
        },
        length is None ==> final(output)@ == old(output)@,
        info_payload().len() == 26,
{
    let version = FIRMWARE_VERSION.as_bytes();
    let ghost blank = output@;
    proof {
        reveal_strlit("bitaxe-birds-raw-0.1.0");
        is_ascii_spec_bytes("bitaxe-birds-raw-0.1.0");
        assert(version@.len() == 22);
    }
    let length = version.len() + 4;
    if output.len() < length {
        return None;
    }
    output[0] = INFO_SCHEMA_VERSION;
    output[1] = PROTOCOL_MAJOR;
    output[2] = PROTOCOL_MINOR;
    output[3] = version.len() as u8;
    let mut index: usize = 0;
    while index < version.len()
        invariant
            index <= version@.len() == 22,
            version@ == FIRMWARE_VERSION.spec_bytes(),
            output@.len() == blank.len() >= 26,
            output@ =~= info_payload().take(index + 4) + blank.skip(index + 4),
        decreases version@.len() - index,
    {
        output[index + 4] = version[index];
        index = index + 1;
    }
    assert(info_payload().take(26) =~= info_payload());
    Some(length)
}

/// The bytes of `value`, low byte first.
pub open spec fn little_endian(value: u32) -> Seq<u8> {
    seq![
        (value % 256) as u8,
        (value / 0x100 % 256) as u8,
        (value / 0x1_0000 % 256) as u8,
        (value / 0x100_0000) as u8,
    ]
}

/// The receive statistics: the overflows of the PIO FIFO and of the software ring.
pub fn encode_rx_stats(pio_fifo_overflows: u32, software_ring_overflows: u32) -> (payload: [u8; 9])
    ensures
        payload@ == seq![RX_STATS_SCHEMA_VERSION] + little_endian(pio_fifo_overflows)
            + little_endian(software_ring_overflows),
        payload@.len() == RX_STATS_LENGTH,
        payload@[0] == 1,
        payload@[1] + 0x100 * payload@[2] + 0x1_0000 * payload@[3] + 0x100_0000 * payload@[4]
            == pio_fifo_overflows,
        payload@[5] + 0x100 * payload@[6] + 0x1_0000 * payload@[7] + 0x100_0000 * payload@[8]
            == software_ring_overflows,
{
    let fifo = pio_fifo_overflows;
    let ring = software_ring_overflows;
    let payload: [u8; 9] = [
        RX_STATS_SCHEMA_VERSION,
        (fifo % 256) as u8,
        (fifo / 0x100 % 256) as u8,
        (fifo / 0x1_0000 % 256) as u8,
        (fifo / 0x100_0000) as u8,
        (ring % 256) as u8,
        (ring / 0x100 % 256) as u8,
        (ring / 0x1_0000 % 256) as u8,
        (ring / 0x100_0000) as u8,
    ];
    assert(payload@ =~= seq![RX_STATS_SCHEMA_VERSION] + little_endian(fifo) + little_endian(ring));
    payload
}

/// `weight` where `condition` holds.
pub open spec fn flag(condition: bool, weight: int) -> int {
    if condition {
        weight
    } else {
        0
    }
}

impl SafetySnapshot {
    /// The fan target, at most full speed.
    pub open spec fn fan(self) -> u8 {
        if self.fan_percent > 100 {
            100
        } else {
            self.fan_percent
        }
    }

    /// Whether every output is at its safe level.
    pub open spec fn outputs_safe(self) -> bool {
        !self.five_volt_enabled && self.asic_reset_asserted && self.fan() == 100
    }

    /// What the runtime makes of the snapshot.
    pub open spec fn runtime_verdict(self) -> u8 {
        if self.trip_input_asserted {
            RUNTIME_BAD_TRIP_INPUT
        } else if self.outputs_safe() {
            RUNTIME_GOOD_SAFE_OFF
        } else {
            RUNTIME_GOOD_CONTROLLED
        }
    }

    /// The evidence for the verdict, as the sum of its flags.
    pub open spec fn evidence(self) -> int {
        EVIDENCE_LEASE_VALID + EVIDENCE_FAULT_CLEAR + flag(
            self.outputs_safe(),
            EVIDENCE_OUTPUTS_SAFE as int,
        ) + flag(!self.trip_input_asserted, EVIDENCE_TRIP_CLEAR as int)
    }

    /// The outputs, as the sum of their flags.
    pub open spec fn output_flags(self) -> int {
        flag(self.five_volt_enabled, 1) + flag(self.asic_reset_asserted, 2) + flag(
            self.fan() == 100,
            4,
        )
    }

    /// The safety status: schema, stage, state, fault, verdicts, capabilities,
    /// evidence, lease time, outputs, fan target and trip input.
    pub open spec fn status(self) -> Seq<u8> {
        seq![
            SAFETY_STATUS_SCHEMA_VERSION,
            SAFETY_STAGE_BOOT_SAFE,
            if self.outputs_safe() { SAFETY_STATE_SAFE_OFF } else { SAFETY_STATE_CONTROLLED },
            SAFETY_FAULT_NONE,
            self.runtime_verdict(),
            PRODUCTION_BAD_STAGE_DISABLED,
            (CAPABILITIES % 256) as u8,
            (CAPABILITIES / 256) as u8,
            (self.evidence() % 256) as u8,
            (self.evidence() / 256) as u8,
            0,
            0,
            0,
            0,
            self.output_flags() as u8,
            self.fan(),
            flag(self.trip_input_asserted, 1) as u8,
        ]
    }
}

/// The safety status of a snapshot.
pub fn encode_safety_status(snapshot: SafetySnapshot) -> (payload: [u8; 17])
    ensures
        payload@ == snapshot.status(),
        payload@.len() == SAFETY_STATUS_LENGTH,
{
    let fan_percent: u8 = if snapshot.fan_percent > 100 {
        100
    } else {
        snapshot.fan_percent
    };
    let outputs_safe = !snapshot.five_volt_enabled && snapshot.asic_reset_asserted && fan_percent
        == 100;
    let state: u8 = if outputs_safe {
        SAFETY_STATE_SAFE_OFF
    } else {
        SAFETY_STATE_CONTROLLED
    };
    let runtime_verdict: u8 = if snapshot.trip_input_asserted {
        RUNTIME_BAD_TRIP_INPUT
    } else if outputs_safe {
        RUNTIME_GOOD_SAFE_OFF
    } else {
        RUNTIME_GOOD_CONTROLLED
    };
    let mut evidence: u16 = EVIDENCE_LEASE_VALID + EVIDENCE_FAULT_CLEAR;
    if outputs_safe {
        evidence = evidence + EVIDENCE_OUTPUTS_SAFE;
    }
    if !snapshot.trip_input_asserted {
        evidence = evidence + EVIDENCE_TRIP_CLEAR;
    }
    let mut outputs: u8 = 0;
    if snapshot.five_volt_enabled {
        outputs = outputs + 1;
    }
    if snapshot.asic_reset_asserted {
        outputs = outputs + 2;
    }
    if fan_percent == 100 {
        outputs = outputs + 4;
    }
    let payload: [u8; 17] = [
        SAFETY_STATUS_SCHEMA_VERSION,
        SAFETY_STAGE_BOOT_SAFE,
        state,
        SAFETY_FAULT_NONE,
        runtime_verdict,
        PRODUCTION_BAD_STAGE_DISABLED,
        (CAPABILITIES % 256) as u8,
        (CAPABILITIES / 256) as u8,
        (evidence % 256) as u8,
        (evidence / 256) as u8,
        0,
        0,
        0,
        0,
        outputs,
        fan_percent,
        snapshot.trip_input_asserted as u8,
    ];
    assert(payload@ =~= snapshot.status());
    payload
}

/// The value of four bytes, low byte first.
pub open spec fn little_endian_value(bytes: Seq<u8>) -> int {
    bytes[0] + 0x100 * bytes[1] + 0x1_0000 * bytes[2] + 0x100_0000 * bytes[3]
}

/// A counter can be read back from its bytes.
pub proof fn law_counters_can_be_read_back(value: u32)
    ensures
        little_endian(value).len() == 4,
        little_endian_value(little_endian(value)) == value,
{
}

/// The parts of a safety status agree with each other: the state, the evidence and
/// the outputs say alike whether the outputs are safe; the verdict, the evidence
/// and the trip byte say alike whether the trip input is active. A status never
/// shows a fault or a remaining lease.
pub proof fn law_status_is_coherent(snapshot: SafetySnapshot)
    ensures
        ({
            let status = snapshot.status();
            &&& status[2] == SAFETY_STATE_SAFE_OFF <==> snapshot.outputs_safe()
            &&& status[8] % 2 == 1 <==> snapshot.outputs_safe()
            &&& status[14] == 6 <==> snapshot.outputs_safe()
            &&& status[4] == RUNTIME_BAD_TRIP_INPUT <==> snapshot.trip_input_asserted
            &&& status[8] / 4 % 2 == 0 <==> snapshot.trip_input_asserted
            &&& status[16] == 1 <==> snapshot.trip_input_asserted
            &&& status[3] == SAFETY_FAULT_NONE
            &&& status.subrange(10, 14) == seq![0u8, 0, 0, 0]
            &&& status[15] <= 100
        }),
{
    assert(snapshot.status().subrange(10, 14) =~= seq![0u8, 0, 0, 0]);
}

/// A status tells what the snapshot holds: 5 V, reset and full fan as the lowest three
/// output bits, the fan target up to 100 percent, and the trip input. The state is
/// safe off exactly where 5 V is off, the reset asserted and the fan at full speed; an
/// active trip input is the verdict whatever the outputs are.
pub proof fn law_status_shows_the_snapshot(snapshot: SafetySnapshot)
    ensures
        ({
            let status = snapshot.status();
            let safe = !snapshot.five_volt_enabled && snapshot.asic_reset_asserted
                && snapshot.fan_percent >= 100;
            &&& status.len() == 17
            &&& status[0] == 1 && status[1] == 0 && status[3] == 0
            &&& status[2] == (if safe { 0int } else { 1 })
            &&& snapshot.trip_input_asserted ==> status[4] == 0x82
            &&& !snapshot.trip_input_asserted ==> status[4] == status[2]
            &&& status[5] == 0x80 && status[6] == 0x0f && status[7] == 0
            &&& status[8] % 2 == 1 <==> safe
            &&& status[8] / 2 % 2 == 1
            &&& status[8] / 4 % 2 == 1 <==> !snapshot.trip_input_asserted
            &&& status[8] / 8 == 1 && status[9] == 0
            &&& forall|i: int| 10 <= i < 14 ==> #[trigger] status[i] == 0
            &&& status[14] % 2 == 1 <==> snapshot.five_volt_enabled
            &&& status[14] / 2 % 2 == 1 <==> snapshot.asic_reset_asserted
            &&& status[14] / 4 == 1 <==> snapshot.fan_percent >= 100
            &&& status[14] < 8
            &&& snapshot.fan_percent <= 100 ==> status[15] == snapshot.fan_percent
            &&& snapshot.fan_percent > 100 ==> status[15] == 100
            &&& status[16] <= 1 && (status[16] == 1 <==> snapshot.trip_input_asserted)
        }),
{
}

} // verus!
