use bitaxe_birds_raw::bridge::{
    take_reply, CommandError, FanPwmConfig, ReplyEnvelope, Request, RequestEnvelope, FAN_GET_TACH,
    FAN_SET_SPEED, GPIO_5V_ENABLE, GPIO_ASIC_RESET, GPIO_ASIC_TRIP, SYSTEM_GET_INFO,
    SYSTEM_GET_RX_STATS, SYSTEM_GET_SAFETY_STATUS,
};
use bitaxe_birds_raw::bridge_owner::{BridgeOwner, Step};
use bitaxe_birds_raw::control::{gpio, Command};
use bitaxe_birds_raw::diagnostics::{encode_info, encode_rx_stats};
use bitaxe_birds_raw::manager::{BoardControl, BridgeManager, Effect, Input, Line, Reply};
use bitaxe_birds_raw::payload::{copy_payload, empty_payload, Payload};
use bitaxe_birds_raw::safety::{
    PolicyCall, PolicyReply, SafetyError, SafetyOutputs, SafetyState,
};

const LEASE_MS: u64 = 2_000;
const CAP_FAN_CONTROLLED_SPEED: u16 = 0x0080;
const SAFE: SafetyOutputs = SafetyOutputs {
    five_volt_enabled: false,
    asic_reset_asserted: true,
    fan_percent: 100,
};

#[derive(Clone, Copy, Debug, PartialEq)]
enum Fault {
    Clear,
    LeaseExpired,
    AsicTrip,
}

#[derive(Debug)]
struct Status {
    state: SafetyState,
    fault: Fault,
    lease_remaining_ms: u64,
    capabilities: u16,
    outputs: SafetyOutputs,
}

/// A safety policy with a two-second lease, a trip latch and output sequencing.
struct BenchPolicy {
    state: SafetyState,
    fault: Fault,
    deadline_ms: u64,
    trip: bool,
    outputs: SafetyOutputs,
    heartbeats: Vec<u64>,
    disarms: u32,
}

impl BenchPolicy {
    fn new() -> Self {
        BenchPolicy {
            state: SafetyState::SafeOff,
            fault: Fault::Clear,
            deadline_ms: 0,
            trip: false,
            outputs: SAFE,
            heartbeats: Vec::new(),
            disarms: 0,
        }
    }

    fn latch(&mut self, fault: Fault) {
        self.state = SafetyState::FaultLatched;
        self.fault = fault;
        self.outputs = SAFE;
    }

    fn tick(&mut self, now_ms: u64, trip: bool) {
        self.trip = trip;
        if self.state == SafetyState::FaultLatched {
            return;
        }
        if trip {
            self.latch(Fault::AsicTrip);
        } else if self.state == SafetyState::Controlled && now_ms >= self.deadline_ms {
            self.latch(Fault::LeaseExpired);
        }
    }

    fn leased(&self, now_ms: u64) -> Result<(), SafetyError> {
        match self.state {
            SafetyState::SafeOff => Err(SafetyError::LeaseRequired),
            SafetyState::FaultLatched => Err(SafetyError::FaultLatched),
            SafetyState::Controlled if now_ms >= self.deadline_ms => Err(SafetyError::LeaseExpired),
            SafetyState::Controlled => Ok(()),
        }
    }

    fn perform(&mut self, call: PolicyCall) -> PolicyReply {
        match call {
            PolicyCall::Tick { now_ms, trip_input_asserted } => {
                self.tick(now_ms, trip_input_asserted);
                PolicyReply::Done
            }
            PolicyCall::Heartbeat { now_ms } => {
                self.heartbeats.push(now_ms);
                let outcome = self.leased(now_ms);
                if outcome.is_ok() {
                    self.deadline_ms = now_ms + LEASE_MS;
                }
                PolicyReply::Outcome(outcome)
            }
            PolicyCall::State { .. } => PolicyReply::State(self.state),
            PolicyCall::Arm { now_ms } => PolicyReply::Outcome(if self.trip {
                Err(SafetyError::TripActive)
            } else if self.state == SafetyState::FaultLatched {
                Err(SafetyError::FaultLatched)
            } else {
                self.state = SafetyState::Controlled;
                self.deadline_ms = now_ms + LEASE_MS;
                Ok(())
            }),
            PolicyCall::ClearFault { .. } => PolicyReply::Outcome(if self.trip {
                Err(SafetyError::TripActive)
            } else {
                self.state = SafetyState::SafeOff;
                self.fault = Fault::Clear;
                Ok(())
            }),
            PolicyCall::Outputs => PolicyReply::Outputs(self.outputs),
            PolicyCall::RequestFiveVolt { enabled: false, .. } => {
                self.outputs.five_volt_enabled = false;
                PolicyReply::Outcome(Ok(()))
            }
            PolicyCall::RequestFiveVolt { enabled: true, now_ms } => {
                let outcome = self.leased(now_ms).and_then(|_| {
                    if self.outputs.fan_percent < 100 {
                        Err(SafetyError::FanNotSafe)
                    } else if !self.outputs.asic_reset_asserted {
                        Err(SafetyError::InvalidSequence)
                    } else {
                        Ok(())
                    }
                });
                if outcome.is_ok() {
                    self.outputs.five_volt_enabled = true;
                }
                PolicyReply::Outcome(outcome)
            }
            PolicyCall::RequestAsicReset { asserted: true, .. } => {
                self.outputs.asic_reset_asserted = true;
                PolicyReply::Outcome(Ok(()))
            }
            PolicyCall::RequestAsicReset { asserted: false, now_ms } => {
                let outcome = self.leased(now_ms).and_then(|_| {
                    if self.outputs.five_volt_enabled {
                        Ok(())
                    } else {
                        Err(SafetyError::InvalidSequence)
                    }
                });
                if outcome.is_ok() {
                    self.outputs.asic_reset_asserted = false;
                }
                PolicyReply::Outcome(outcome)
            }
            PolicyCall::RequestFan { percent, now_ms } => {
                let outcome = if percent > 100 {
                    Err(SafetyError::InvalidFanPercent)
                } else if percent == 100 {
                    Ok(())
                } else {
                    self.leased(now_ms)
                };
                if outcome.is_ok() {
                    self.outputs.fan_percent = percent;
                }
                PolicyReply::Outcome(outcome)
            }
            PolicyCall::Disarm => {
                self.disarms += 1;
                self.outputs = SAFE;
                if self.state == SafetyState::Controlled {
                    self.state = SafetyState::SafeOff;
                }
                PolicyReply::Done
            }
        }
    }

    fn status(&self, now_ms: u64) -> Status {
        let controlled = self.state == SafetyState::Controlled;
        Status {
            state: self.state,
            fault: self.fault,
            lease_remaining_ms: if controlled { self.deadline_ms - now_ms } else { 0 },
            capabilities: 0x008f,
            outputs: self.outputs,
        }
    }
}

/// An owner together with the policy that it owns.
struct Owned {
    owner: BridgeOwner,
    policy: BenchPolicy,
    calls: Vec<PolicyCall>,
}

impl Owned {
    fn new() -> Self {
        Owned { owner: BridgeOwner::new(), policy: BenchPolicy::new(), calls: Vec::new() }
    }

    fn run(&mut self, mut step: Step) -> Result<(), SafetyError> {
        loop {
            match step {
                Step::Call { call, pending } => {
                    self.calls.push(call);
                    let reply = self.policy.perform(call);
                    step = self.owner.resume(pending, reply);
                }
                Step::Finished { result } => return result,
            }
        }
    }

    fn service(&mut self, now_ms: u64, trip: bool) {
        let step = self.owner.service(now_ms, trip);
        assert_eq!(self.run(step), Ok(()));
    }

    fn request_five_volt_enabled(&mut self, enabled: bool, now_ms: u64, trip: bool) -> Result<(), SafetyError> {
        let step = self.owner.request_five_volt_enabled(enabled, now_ms, trip);
        self.run(step)
    }

    fn request_asic_reset_asserted(&mut self, asserted: bool, now_ms: u64, trip: bool) -> Result<(), SafetyError> {
        let step = self.owner.request_asic_reset_asserted(asserted, now_ms, trip);
        self.run(step)
    }

    fn request_fan_percent(&mut self, percent: u8, now_ms: u64, trip: bool) -> Result<(), SafetyError> {
        let step = self.owner.request_fan_percent(percent, now_ms, trip);
        self.run(step)
    }

    fn fail_safe(&mut self) {
        let step = self.owner.fail_safe();
        assert_eq!(self.run(step), Ok(()));
    }

    fn status(&self, now_ms: u64) -> Status {
        self.policy.status(now_ms)
    }

    fn outputs(&self) -> SafetyOutputs {
        self.policy.outputs
    }
}

#[test]
fn first_unsafe_request_transparently_owns_the_lease() {
    let mut owner = Owned::new();

    owner.request_five_volt_enabled(true, 100, false).unwrap();
    let status = owner.status(100);

    assert_eq!(status.state, SafetyState::Controlled);
    assert!(status.lease_remaining_ms > 0);
    assert!(status.outputs.five_volt_enabled);
    assert!(status.outputs.asic_reset_asserted);
}

#[test]
fn latest_bridge_allows_controlled_fan_speed_while_powered() {
    let mut owner = Owned::new();

    owner.request_five_volt_enabled(true, 0, false).unwrap();
    owner.request_asic_reset_asserted(false, 0, false).unwrap();
    owner.request_fan_percent(40, 0, false).unwrap();

    let status = owner.status(0);
    assert_ne!(status.capabilities & CAP_FAN_CONTROLLED_SPEED, 0);
    assert_eq!(status.outputs.fan_percent, 40);
}

#[test]
fn repeated_unsafe_levels_are_idempotent_after_reset_release() {
    let mut owner = Owned::new();
    owner.request_five_volt_enabled(true, 0, false).unwrap();
    owner.request_asic_reset_asserted(false, 0, false).unwrap();

    owner.request_five_volt_enabled(true, 1, false).unwrap();
    owner.request_asic_reset_asserted(false, 1, false).unwrap();

    let outputs = owner.outputs();
    assert!(outputs.five_volt_enabled);
    assert!(!outputs.asic_reset_asserted);
}

#[test]
fn periodic_service_keeps_the_internal_lease_alive() {
    let mut owner = Owned::new();
    owner.request_five_volt_enabled(true, 0, false).unwrap();

    for now_ms in (250..=5_000).step_by(250) {
        owner.service(now_ms, false);
    }

    assert_eq!(owner.status(5_000).state, SafetyState::Controlled);
    assert!(owner.status(5_000).lease_remaining_ms > 0);
}

#[test]
fn frequent_unsafe_commands_do_not_postpone_heartbeats() {
    let mut owner = Owned::new();
    owner.request_five_volt_enabled(true, 0, false).unwrap();

    for now_ms in (100..=5_000).step_by(100) {
        owner.request_five_volt_enabled(true, now_ms, false).unwrap();
    }

    assert_eq!(owner.status(5_000).state, SafetyState::Controlled);
    assert!(owner.status(5_000).lease_remaining_ms > 0);
    assert_eq!(&owner.policy.heartbeats[..3], &[300, 600, 900]);
}

#[test]
fn missed_lease_and_trip_both_force_safe_outputs() {
    let mut expired = Owned::new();
    expired.request_five_volt_enabled(true, 0, false).unwrap();
    expired.service(2_001, false);
    assert_eq!(expired.status(2_001).fault, Fault::LeaseExpired);
    assert_eq!(expired.outputs(), SAFE);

    let mut tripped = Owned::new();
    tripped.request_five_volt_enabled(true, 0, false).unwrap();
    tripped.service(1, true);
    assert_eq!(tripped.status(1).fault, Fault::AsicTrip);
    assert_eq!(tripped.outputs(), SAFE);
}

#[test]
fn disabling_five_volts_disarms_and_restores_safe_outputs() {
    let mut owner = Owned::new();
    owner.request_five_volt_enabled(true, 0, false).unwrap();
    owner.request_asic_reset_asserted(false, 0, false).unwrap();
    owner.request_fan_percent(50, 0, false).unwrap();

    owner.request_five_volt_enabled(false, 10, false).unwrap();

    assert_eq!(owner.status(10).state, SafetyState::SafeOff);
    assert_eq!(owner.outputs(), SAFE);
}

#[test]
fn the_first_power_request_makes_these_calls() {
    let mut owner = Owned::new();
    owner.request_five_volt_enabled(true, 7, false).unwrap();
    assert_eq!(
        owner.calls,
        vec![
            PolicyCall::Tick { now_ms: 7, trip_input_asserted: false },
            PolicyCall::State { now_ms: 7 },
            PolicyCall::Arm { now_ms: 7 },
            PolicyCall::Outputs,
            PolicyCall::RequestFiveVolt { enabled: true, now_ms: 7 },
        ]
    );
}

#[test]
fn heartbeats_wait_for_their_interval() {
    let mut owner = Owned::new();
    owner.request_five_volt_enabled(true, 0, false).unwrap();
    owner.service(249, false);
    assert!(owner.policy.heartbeats.is_empty());
    owner.service(250, false);
    owner.service(499, false);
    owner.service(500, false);
    assert_eq!(owner.policy.heartbeats, vec![250, 500]);
}

#[test]
fn nothing_is_renewed_without_a_lease() {
    let mut owner = Owned::new();
    owner.service(10_000, false);
    assert!(owner.policy.heartbeats.is_empty());
    owner.request_five_volt_enabled(true, 10_000, false).unwrap();
    owner.fail_safe();
    owner.service(11_000, false);
    assert!(owner.policy.heartbeats.is_empty());
    assert_eq!(owner.owner, BridgeOwner::default());
}

#[test]
fn the_last_heartbeat_is_scheduled_for_the_end_of_time() {
    let mut owner = BridgeOwner::new();
    let now_ms = u64::MAX - 10;
    let mut step = owner.request_fan_percent(30, now_ms, false);
    for reply in [
        PolicyReply::Done,
        PolicyReply::State(SafetyState::Controlled),
        PolicyReply::Outcome(Ok(())),
    ] {
        if let Step::Call { pending, .. } = step {
            step = owner.resume(pending, reply);
        }
    }
    assert_eq!(step, Step::Finished { result: Ok(()) });
    let step = owner.service(u64::MAX, false);
    if let Step::Call { pending, .. } = step {
        let next = owner.resume(pending, PolicyReply::Done);
        assert!(matches!(next, Step::Call { call: PolicyCall::Heartbeat { now_ms: u64::MAX }, .. }));
    }
}

#[test]
fn refused_requests_leave_the_bridge_safe() {
    let mut owner = Owned::new();
    assert_eq!(owner.request_asic_reset_asserted(false, 0, false), Err(SafetyError::InvalidSequence));
    assert_eq!(owner.status(0).state, SafetyState::SafeOff);
    assert_eq!(owner.owner, BridgeOwner::new());

    owner.request_fan_percent(40, 0, false).unwrap();
    assert_eq!(owner.request_five_volt_enabled(true, 0, false), Err(SafetyError::FanNotSafe));
    assert_eq!(owner.outputs(), SAFE);
    assert_eq!(owner.owner, BridgeOwner::new());

    assert_eq!(owner.request_fan_percent(40, 0, true), Err(SafetyError::TripActive));
    assert_eq!(owner.policy.disarms, 3);
    assert_eq!(owner.request_fan_percent(101, 0, false), Err(SafetyError::InvalidFanPercent));
    assert_eq!(owner.policy.disarms, 4);
}

#[test]
fn a_cleared_fault_lets_the_bridge_be_armed_again() {
    let mut owner = Owned::new();
    owner.request_five_volt_enabled(true, 0, false).unwrap();
    owner.service(5, true);
    owner.calls.clear();
    owner.request_five_volt_enabled(true, 6, false).unwrap();
    assert_eq!(owner.calls[2], PolicyCall::ClearFault { now_ms: 6 });
    assert_eq!(owner.calls[3], PolicyCall::Arm { now_ms: 6 });
    assert!(owner.outputs().five_volt_enabled);
}

#[test]
fn safe_requests_need_no_lease() {
    let mut owner = Owned::new();
    owner.request_asic_reset_asserted(true, 0, false).unwrap();
    owner.request_fan_percent(100, 0, false).unwrap();
    assert_eq!(owner.status(0).state, SafetyState::SafeOff);
    assert_eq!(owner.owner, BridgeOwner::new());
}

/// A board with a policy, on which the bridge task can be run.
struct Bench {
    policy: BenchPolicy,
    now_us: u64,
    trip: bool,
    tach: Vec<bool>,
    tach_reads: usize,
    five_volt: bool,
    reset_n: bool,
    rx: Option<bool>,
    fan: Option<FanPwmConfig>,
    log: Vec<String>,
    feeds: u32,
    info: Result<Payload, ()>,
    pulses: Option<u32>,
    speed: Option<u16>,
    sent: Option<(u8, Reply)>,
}

impl Bench {
    fn new() -> Self {
        Bench {
            policy: BenchPolicy::new(),
            now_us: 0,
            trip: false,
            tach: Vec::new(),
            tach_reads: 0,
            five_volt: false,
            reset_n: false,
            rx: None,
            fan: None,
            log: Vec::new(),
            feeds: 0,
            info: Err(()),
            pulses: None,
            speed: None,
            sent: None,
        }
    }

    fn note(&mut self, text: String) -> Input {
        self.log.push(text);
        Input::Done
    }

    fn tach_level(&mut self) -> bool {
        let level = self.tach.get(self.tach_reads).copied().unwrap_or(false);
        self.tach_reads += 1;
        level
    }

    fn perform(&mut self, effect: Effect) -> Input {
        match effect {
            Effect::AwaitEvent => Input::Tick,
            Effect::Sample => Input::Sample {
                now_ms: self.now_us / 1000,
                trip_input_asserted: self.trip,
            },
            Effect::Policy(call) => Input::Policy(self.policy.perform(call)),
            Effect::DeriveBoard(outputs) => Input::Board(BoardControl {
                forward_asic_rx: outputs.five_volt_enabled && !outputs.asic_reset_asserted,
                five_volt_enable_high: outputs.five_volt_enabled,
                asic_reset_n_high: !outputs.asic_reset_asserted,
                fan_compare: outputs.fan_percent as u16 * 10,
            }),
            Effect::SetRxForwarding(enabled) => {
                self.rx = Some(enabled);
                self.note(format!("rx {enabled}"))
            }
            Effect::SetFiveVolt(level) => {
                self.five_volt = level;
                self.note(format!("5v {level}"))
            }
            Effect::SetAsicReset(level) => {
                self.reset_n = level;
                self.note(format!("rst_n {level}"))
            }
            Effect::SetFan(config) => {
                self.fan = Some(config);
                self.note(format!("fan {}", config.compare_a))
            }
            Effect::FeedWatchdog => {
                self.feeds += 1;
                self.note(format!("feed"))
            }
            Effect::ReadLine(line) => Input::Level(match line {
                Line::FiveVolt => self.five_volt,
                Line::AsicReset => self.reset_n,
                Line::AsicTrip => self.trip,
                Line::FanTach => self.tach_level(),
            }),
            Effect::EncodeInfo => Input::Info(self.info.clone()),
            Effect::EncodeRxStats => Input::Encoded(copy_payload(&encode_rx_stats(3, 4))),
            Effect::ReadMillis => Input::Millis(self.now_us / 1000),
            Effect::EncodeStatus { now_ms } => Input::Encoded(copy_payload(&now_ms.to_le_bytes())),
            Effect::BeginTach => Input::TachBegun {
                start_us: self.now_us,
                serviced_us: self.now_us,
                level: self.tach_level(),
            },
            Effect::ReadMicros => Input::Micros(self.now_us),
            Effect::CheckServiceDue { since_us } => Input::ServiceDue(self.now_us - since_us >= 20_000),
            Effect::Pause => {
                self.now_us += 10_000;
                Input::Done
            }
            Effect::ConvertPulses { pulses } => {
                self.pulses = Some(pulses);
                Input::Speed(self.speed)
            }
            Effect::SendReply { id, reply } => {
                self.sent = Some((id, reply));
                Input::Done
            }
        }
    }

    /// Goes on until the bridge waits for an event.
    fn settle(&mut self, started: (BridgeManager, Effect)) -> BridgeManager {
        let (mut manager, mut effect) = started;
        loop {
            if let Effect::AwaitEvent = effect {
                return manager;
            }
            let input = self.perform(effect);
            assert!(manager.takes(&input));
            let next = manager.advance(input);
            manager = next.0;
            effect = next.1;
        }
    }

    fn started(&mut self) -> BridgeManager {
        let manager = self.settle(BridgeManager::new(500));
        self.log.clear();
        self.feeds = 0;
        manager
    }

    fn ask(&mut self, manager: BridgeManager, request: Request) -> (BridgeManager, Result<Vec<u8>, CommandError>) {
        self.log.clear();
        self.feeds = 0;
        let envelope = RequestEnvelope { id: 0x5a, request };
        let manager = self.settle(manager.advance(Input::Request(envelope)));
        let (id, reply) = self.sent.take().unwrap();
        assert_eq!(id, 0x5a);
        (manager, reply.into_result().map(|payload| payload.as_slice().to_vec()))
    }
}

#[test]
fn the_bridge_starts_by_putting_safe_outputs_on_the_board() {
    let mut bench = Bench::new();
    bench.five_volt = true;
    bench.settle(BridgeManager::new(500));
    assert_eq!(bench.log, vec!["rx false", "5v false", "rst_n false", "fan 1000", "feed"]);
    assert_eq!(bench.rx, Some(false));
}

#[test]
fn unchanged_outputs_are_not_applied_again() {
    let mut bench = Bench::new();
    let manager = bench.started();
    bench.settle(manager.advance(Input::Tick));
    assert_eq!(bench.log, vec!["feed"]);
}

#[test]
fn power_and_reset_open_the_receiver_last() {
    let mut bench = Bench::new();
    let manager = bench.started();
    let (manager, answer) = bench.ask(manager, Request::Gpio { command: GPIO_5V_ENABLE, level: Some(true) });
    assert_eq!(answer, Ok(vec![1]));
    assert_eq!(bench.log, vec!["feed", "rx false", "5v true", "rst_n false", "fan 1000", "feed"]);
    let (manager, answer) = bench.ask(manager, Request::Gpio { command: GPIO_ASIC_RESET, level: Some(true) });
    assert_eq!(answer, Ok(vec![1]));
    assert_eq!(bench.log, vec!["feed", "5v true", "rst_n true", "fan 1000", "rx true", "feed"]);
    let (manager, answer) = bench.ask(manager, Request::Fan { command: FAN_SET_SPEED, speed: Some(40) });
    assert_eq!(answer, Ok(vec![0]));
    assert_eq!(bench.fan.unwrap().compare_a, 400);
    let (_, answer) = bench.ask(manager, Request::Shutdown);
    assert_eq!(answer, Ok(vec![]));
    assert_eq!(bench.log, vec!["feed", "rx false", "5v false", "rst_n false", "fan 1000", "feed"]);
    assert_eq!(bench.policy.state, SafetyState::SafeOff);
}

#[test]
fn low_asks_for_the_reset() {
    let mut bench = Bench::new();
    let manager = bench.started();
    let (manager, _) = bench.ask(manager, Request::Gpio { command: GPIO_5V_ENABLE, level: Some(true) });
    let (manager, _) = bench.ask(manager, Request::Gpio { command: GPIO_ASIC_RESET, level: Some(true) });
    assert!(!bench.policy.outputs.asic_reset_asserted);
    let (_, answer) = bench.ask(manager, Request::Gpio { command: GPIO_ASIC_RESET, level: Some(false) });
    assert_eq!(answer, Ok(vec![0]));
    assert!(bench.policy.outputs.asic_reset_asserted);
    assert!(bench.policy.outputs.five_volt_enabled);
}

#[test]
fn lines_can_be_read() {
    let mut bench = Bench::new();
    let manager = bench.started();
    let (manager, answer) = bench.ask(manager, Request::Gpio { command: GPIO_5V_ENABLE, level: None });
    assert_eq!(answer, Ok(vec![0]));
    let (manager, answer) = bench.ask(manager, Request::Gpio { command: GPIO_ASIC_RESET, level: None });
    assert_eq!(answer, Ok(vec![0]));
    bench.trip = true;
    let (_, answer) = bench.ask(manager, Request::Gpio { command: GPIO_ASIC_TRIP, level: None });
    assert_eq!(answer, Ok(vec![1]));
}

#[test]
fn refusals_are_reported_and_made_safe_by_the_next_pass() {
    let mut bench = Bench::new();
    let manager = bench.started();
    let (manager, answer) = bench.ask(manager, Request::Gpio { command: GPIO_ASIC_RESET, level: Some(true) });
    assert_eq!(answer, Err(CommandError::Denied));
    let (manager, _) = bench.ask(manager, Request::Gpio { command: GPIO_5V_ENABLE, level: Some(true) });
    bench.trip = true;
    let (_, answer) = bench.ask(manager, Request::Fan { command: FAN_SET_SPEED, speed: Some(40) });
    assert_eq!(answer, Err(CommandError::Fault));
    assert!(!bench.five_volt);
    assert!(!bench.reset_n);
}

#[test]
fn unknown_requests_are_invalid() {
    let mut bench = Bench::new();
    let mut manager = bench.started();
    let requests = [
        Request::System { command: 0x03 },
        Request::Gpio { command: 0x00, level: None },
        Request::Gpio { command: 0x04, level: Some(true) },
        Request::Gpio { command: GPIO_ASIC_TRIP, level: Some(true) },
        Request::Fan { command: FAN_SET_SPEED, speed: None },
        Request::Fan { command: FAN_SET_SPEED, speed: Some(101) },
        Request::Fan { command: FAN_GET_TACH, speed: Some(0) },
        Request::Fan { command: 0x30, speed: None },
    ];
    for request in requests {
        let (next, answer) = bench.ask(manager, request);
        manager = next;
        assert_eq!(answer, Err(CommandError::Invalid));
        assert_eq!(bench.feeds, 2);
    }
}

#[test]
fn diagnostics_are_passed_on() {
    let mut bench = Bench::new();
    let manager = bench.started();
    let (manager, answer) = bench.ask(manager, Request::System { command: SYSTEM_GET_INFO });
    assert_eq!(answer, Err(CommandError::Invalid));
    let mut info = [0u8; 64];
    let length = encode_info(&mut info).unwrap();
    bench.info = Ok(copy_payload(&info[..length]));
    let (manager, answer) = bench.ask(manager, Request::System { command: SYSTEM_GET_INFO });
    assert_eq!(answer, Ok(info[..length].to_vec()));
    let (manager, answer) = bench.ask(manager, Request::System { command: SYSTEM_GET_RX_STATS });
    assert_eq!(answer, Ok(vec![1, 3, 0, 0, 0, 4, 0, 0, 0]));
    bench.now_us = 1_234_000;
    let (_, answer) = bench.ask(manager, Request::System { command: SYSTEM_GET_SAFETY_STATUS });
    assert_eq!(answer, Ok(vec![0xd2, 0x04, 0, 0, 0, 0, 0, 0]));
}

#[test]
fn fan_speed_counts_rising_edges_and_keeps_servicing() {
    let mut bench = Bench::new();
    let manager = bench.started();
    bench.speed = Some(0x0910);
    bench.tach = (0..51).map(|index| index % 2 == 0).collect();
    let (_, answer) = bench.ask(manager, Request::Fan { command: FAN_GET_TACH, speed: None });
    assert_eq!(answer, Ok(vec![0x10, 0x09]));
    // The level starts high, and 50 samples follow: low, high, low, ...
    assert_eq!(bench.tach_reads, 51);
    assert_eq!(bench.pulses, Some(25));
    assert_eq!(bench.now_us, 500_000);
    // One pass before, one every second sample, one after the run and one before
    // the reply.
    assert_eq!(bench.feeds, 1 + 24 + 1 + 1);
}

#[test]
fn an_unusable_pulse_count_is_invalid() {
    let mut bench = Bench::new();
    let manager = bench.started();
    let (_, answer) = bench.ask(manager, Request::Fan { command: FAN_GET_TACH, speed: None });
    assert_eq!(bench.pulses, Some(0));
    assert_eq!(answer, Err(CommandError::Invalid));
}

#[test]
fn a_trip_is_noticed_while_the_fan_is_measured() {
    let mut bench = Bench::new();
    let manager = bench.started();
    let (manager, _) = bench.ask(manager, Request::Gpio { command: GPIO_5V_ENABLE, level: Some(true) });
    let mut step = manager.advance(Input::Request(RequestEnvelope {
        id: 1,
        request: Request::Fan { command: FAN_GET_TACH, speed: None },
    }));
    while bench.now_us < 100_000 {
        let input = bench.perform(step.1);
        step = step.0.advance(input);
    }
    assert!(bench.five_volt);
    bench.trip = true;
    while bench.now_us < 130_000 {
        let input = bench.perform(step.1);
        step = step.0.advance(input);
    }
    assert!(!bench.five_volt);
    assert!(bench.sent.is_none());
}

#[test]
fn heartbeats_keep_the_bridge_powered() {
    let mut bench = Bench::new();
    let manager = bench.started();
    let (mut manager, _) = bench.ask(manager, Request::Gpio { command: GPIO_5V_ENABLE, level: Some(true) });
    while bench.now_us < 10_000_000 {
        bench.now_us += 50_000;
        manager = bench.settle(manager.advance(Input::Tick));
    }
    assert!(bench.five_volt);
    assert_eq!(bench.policy.heartbeats.len(), 40);
    bench.now_us += 2_000_000;
    bench.settle(manager.advance(Input::Tick));
    assert!(!bench.five_volt);
}

#[test]
fn stale_replies_are_dropped() {
    let stale = ReplyEnvelope { id: 3, result: Err(CommandError::Denied) };
    assert!(take_reply(4, stale).is_none());
    let fresh = ReplyEnvelope { id: 4, result: Ok(copy_payload(&[9, 8])) };
    assert_eq!(take_reply(4, fresh).unwrap().unwrap().as_slice(), &[9, 8]);
    let refused = ReplyEnvelope { id: 4, result: Err(CommandError::Fault) };
    assert_eq!(take_reply(4, refused).unwrap(), Err(CommandError::Fault));
}

#[test]
fn refusals_of_the_policy_are_sorted() {
    for error in [SafetyError::LeaseExpired, SafetyError::FaultLatched, SafetyError::TripActive] {
        assert_eq!(CommandError::from(error), CommandError::Fault);
    }
    for error in [
        SafetyError::LeaseRequired,
        SafetyError::InvalidSequence,
        SafetyError::FanNotSafe,
        SafetyError::InvalidFanPercent,
    ] {
        assert_eq!(CommandError::from(error), CommandError::Denied);
    }
}

#[test]
fn replies_become_payloads() {
    assert_eq!(Reply::Empty.into_result().unwrap().as_slice(), &[] as &[u8]);
    assert_eq!(Reply::Byte(7).into_result().unwrap().as_slice(), &[7]);
    assert_eq!(Reply::Word(0x1234).into_result().unwrap().as_slice(), &[0x34, 0x12]);
    assert_eq!(Reply::Encoded(copy_payload(&[1, 2])).into_result().unwrap().as_slice(), &[1, 2]);
    assert_eq!(Reply::Failed(CommandError::Fault).into_result(), Err(CommandError::Fault));
    assert!(empty_payload().is_empty());
    assert_eq!(copy_payload(&[0xab; 256]).as_slice(), &[0xab; 256]);
}

#[test]
fn inputs_are_held_against_the_latest_effect() {
    let (manager, _) = BridgeManager::new(500);
    assert!(!manager.takes(&Input::Tick));
    assert!(!manager.takes(&Input::Policy(PolicyReply::Done)));
    let sample = Input::Sample { now_ms: 0, trip_input_asserted: false };
    assert!(manager.takes(&sample));
    let (manager, _) = manager.advance(sample);
    assert!(!manager.takes(&Input::Policy(PolicyReply::Outcome(Ok(())))));
    assert!(manager.takes(&Input::Policy(PolicyReply::Done)));
}

#[test]
fn the_clock_of_a_measurement_does_not_run_backwards() {
    let mut bench = Bench::new();
    bench.now_us = 700;
    let manager = bench.started();
    let request = Request::Fan { command: FAN_GET_TACH, speed: None };
    let mut step = manager.advance(Input::Request(RequestEnvelope { id: 1, request }));
    while !matches!(step.1, Effect::ReadMicros) {
        let input = bench.perform(step.1);
        step = step.0.advance(input);
    }
    assert!(!step.0.takes(&Input::Micros(699)));
    assert!(step.0.takes(&Input::Micros(700)));
}

#[test]
fn the_bridge_knows_every_command_that_can_be_read() {
    let mut bench = Bench::new();
    bench.info = Ok(empty_payload());
    bench.speed = Some(1);
    let mut manager = bench.started();
    for page in [0x00, 0x06, 0x09] {
        for code in 0..=0xff {
            for data in [&[][..], &[0], &[1], &[100], &[255]] {
                let frame = [&[6 + data.len() as u8, 0, 0, 0, page, code][..], data].concat();
                let request = match Command::from_frame(&frame) {
                    Ok(Command::System(command)) => command.request(),
                    Ok(Command::Fan(command)) => command.request(),
                    Ok(Command::Gpio(command)) => match command.route() {
                        gpio::Route::Bridge(request) => request,
                        _ => continue,
                    },
                    _ => continue,
                };
                let (next, answer) = bench.ask(manager, request);
                manager = next;
                assert_ne!(answer, Err(CommandError::Invalid));
            }
        }
    }
}

#[test]
fn a_trip_restores_safe_outputs_whatever_was_done_before() {
    for done in 0..4 {
        let mut owner = Owned::new();
        owner.request_five_volt_enabled(done > 0, 0, false).unwrap();
        if done > 1 {
            owner.request_asic_reset_asserted(false, 0, false).unwrap();
        }
        if done > 2 {
            owner.request_fan_percent(30, 0, false).unwrap();
        }
        owner.service(300, true);
        assert_eq!(owner.outputs(), SAFE);
    }
}

#[test]
fn the_reset_is_never_released_without_power() {
    let mut owner = Owned::new();
    for step in 0..200u64 {
        let now_ms = step * 130;
        let trip = step % 17 == 0;
        let _ = match step * 7 % 5 {
            0 => owner.request_five_volt_enabled(step % 3 != 0, now_ms, trip),
            1 | 2 => owner.request_asic_reset_asserted(step % 2 == 0, now_ms, trip),
            3 => owner.request_fan_percent(100 - (step % 4) as u8, now_ms, trip),
            _ => {
                owner.service(now_ms, trip);
                Ok(())
            }
        };
        let outputs = owner.outputs();
        assert!(outputs.asic_reset_asserted || outputs.five_volt_enabled);
        if step % 23 == 0 {
            owner.fail_safe();
            assert_eq!(owner.outputs(), SAFE);
        }
    }
}

#[test]
fn a_trip_puts_safe_outputs_on_the_board() {
    let mut bench = Bench::new();
    let manager = bench.started();
    let (manager, _) = bench.ask(manager, Request::Gpio { command: GPIO_5V_ENABLE, level: Some(true) });
    let (manager, _) = bench.ask(manager, Request::Gpio { command: GPIO_ASIC_RESET, level: Some(true) });
    assert!(bench.five_volt && bench.reset_n);
    bench.trip = true;
    bench.log.clear();
    let manager = bench.settle(manager.advance(Input::Tick));
    assert_eq!(bench.log, vec!["rx false", "5v false", "rst_n false", "fan 1000", "feed"]);
    assert_eq!(manager.core.applied_outputs, Some(SAFE));
}

#[test]
fn heartbeats_are_an_interval_and_a_gap_apart_at_most() {
    for gap_ms in [1u64, 70, 100, 249, 250, 251, 900] {
        let mut owner = Owned::new();
        let mut now_ms = 0;
        owner.request_five_volt_enabled(true, now_ms, false).unwrap();
        for step in 0..400 {
            now_ms += gap_ms - step % 2 * (gap_ms / 3);
            owner.service(now_ms, false);
        }
        let mut renewed_ms = 0;
        for heartbeat_ms in &owner.policy.heartbeats {
            assert!(*heartbeat_ms <= renewed_ms + 250 + gap_ms);
            renewed_ms = *heartbeat_ms;
        }
        assert!(now_ms < renewed_ms + 250);
        assert!(owner.outputs().five_volt_enabled);
    }
}

#[test]
fn switching_off_and_a_missed_lease_put_safe_outputs_on_the_board() {
    for miss in [false, true] {
        let mut bench = Bench::new();
        let manager = bench.started();
        let (manager, _) = bench.ask(manager, Request::Gpio { command: GPIO_5V_ENABLE, level: Some(true) });
        let (manager, _) = bench.ask(manager, Request::Gpio { command: GPIO_ASIC_RESET, level: Some(true) });
        let (manager, _) = bench.ask(manager, Request::Fan { command: FAN_SET_SPEED, speed: Some(20) });
        let manager = if miss {
            bench.now_us += 2_001_000;
            bench.settle(manager.advance(Input::Tick))
        } else {
            let off = Request::Gpio { command: GPIO_5V_ENABLE, level: Some(false) };
            let (manager, answer) = bench.ask(manager, off);
            assert_eq!(answer, Ok(vec![0]));
            manager
        };
        assert_eq!(manager.core.applied_outputs, Some(SAFE));
        assert!(!bench.five_volt && !bench.reset_n);
        assert_eq!(bench.fan.unwrap().compare_a, 1000);
    }
}

#[test]
fn a_granted_change_is_on_the_board_before_it_is_answered() {
    let mut bench = Bench::new();
    let manager = bench.started();
    let (manager, _) = bench.ask(manager, Request::Gpio { command: GPIO_5V_ENABLE, level: Some(true) });
    assert!(manager.core.applied_outputs.unwrap().five_volt_enabled);
    let (manager, _) = bench.ask(manager, Request::Fan { command: FAN_SET_SPEED, speed: Some(35) });
    assert_eq!(manager.core.applied_outputs.unwrap().fan_percent, 35);
}
