//! The bridge task as a state machine.
//!
//! The bridge owns the 5 V rail, the ASIC reset, the trip input, the fan, the
//! forwarding of received ASIC data and the watchdog. [`BridgeManager`] decides what
//! happens next; whoever drives it carries out one [`Effect`] at a time and reports
//! back with an [`Input`]. What the effects amount to is stated in
//! [`crate::manager_model`].

use vstd::prelude::*;

use crate::bridge::{
    fan_pwm, fan_pwm_config, reported, CommandError, FanPwmConfig, Request, RequestEnvelope,
    FAN_GET_TACH, FAN_SET_SPEED, GPIO_5V_ENABLE, GPIO_ASIC_RESET, GPIO_ASIC_TRIP, SYSTEM_GET_INFO,
    SYSTEM_GET_RX_STATS, SYSTEM_GET_SAFETY_STATUS,
};
use crate::bridge_owner::{disarm_and_report, BridgeOwner, Change, Operation, Pending, Step};
use crate::payload::{copy_payload, empty_payload, payload_bytes, Payload};
use crate::safety::{PolicyCall, PolicyReply, SafetyOutputs};

verus! {

/// A digital line that the bridge reads.
#[derive(Clone, Copy, Debug, PartialEq, Eq, Structural)]
pub enum Line {
    /// The level that drives the 5 V rail.
    FiveVolt,
    /// The level that drives `RST_N`; low asserts the reset.
    AsicReset,
    /// The trip input of the ASIC.
    AsicTrip,
    /// The tachometer of the fan.
    FanTach,
}

/// How a set of outputs looks on the board.
#[derive(Clone, Copy, Debug, PartialEq, Eq, Structural)]
pub struct BoardControl {
    /// Whether received ASIC data may be forwarded.
    pub forward_asic_rx: bool,
    pub five_volt_enable_high: bool,
    pub asic_reset_n_high: bool,
    /// The PWM compare value of the fan target.
    pub fan_compare: u16,
}

/// What a request is answered with.
pub enum Reply {
    Empty,
    Byte(u8),
    /// A value that is sent low byte first.
    Word(u16),
    /// A payload that was encoded elsewhere.
    Encoded(Payload),
    Failed(CommandError),
}

/// One thing for the driver of the bridge to do.
pub enum Effect {
    /// Wait for a request or for the next periodic service.
    AwaitEvent,
    /// Read the clock in milliseconds and the trip input.
    Sample,
    /// Make a policy call.
    Policy(PolicyCall),
    /// Find out how the outputs look on the board.
    DeriveBoard(SafetyOutputs),
    /// Start or stop the forwarding of received ASIC data.
    SetRxForwarding(bool),
    /// Drive the 5 V rail.
    SetFiveVolt(bool),
    /// Drive `RST_N`.
    SetAsicReset(bool),
    /// Configure the fan PWM.
    SetFan(FanPwmConfig),
    /// Feed the watchdog.
    FeedWatchdog,
    /// Read a line.
    ReadLine(Line),
    /// Encode the identity of the firmware.
    EncodeInfo,
    /// Encode the receive overflow counters.
    EncodeRxStats,
    /// Read the clock in milliseconds.
    ReadMillis,
    /// Encode the safety status at `now_ms`.
    EncodeStatus { now_ms: u64 },
    /// Read the clock in microseconds twice and the tachometer once.
    BeginTach,
    /// Read the clock in microseconds.
    ReadMicros,
    /// Find out whether a service is due after the one at `since_us`.
    CheckServiceDue { since_us: u64 },
    /// Wait for one tachometer sample interval.
    Pause,
    /// Convert the pulses of one measurement to a fan speed.
    ConvertPulses { pulses: u32 },
    /// Send a reply.
    SendReply { id: u8, reply: Reply },
}

/// What came of an [`Effect`].
pub enum Input {
    /// The effect was carried out.
    Done,
    /// A request arrived.
    Request(RequestEnvelope),
    /// The periodic service is due.
    Tick,
    Sample { now_ms: u64, trip_input_asserted: bool },
    Policy(PolicyReply),
    Board(BoardControl),
    Level(bool),
    Info(Result<Payload, ()>),
    Encoded(Payload),
    Millis(u64),
    Micros(u64),
    TachBegun { start_us: u64, serviced_us: u64, level: bool },
    ServiceDue(bool),
    Speed(Option<u16>),
}

/// A running fan speed measurement.
#[derive(Clone, Copy, Debug, PartialEq, Eq, Structural)]
pub struct TachRun {
    /// The request that is being answered.
    pub id: u8,
    pub start_us: u64,
    pub serviced_us: u64,
    pub level: bool,
    pub pulses: u32,
}

/// What follows a service pass.
pub enum Job {
    /// Nothing: the bridge waits for the next event.
    Rest,
    /// A request is handled.
    Handle(RequestEnvelope),
    /// A reply is sent.
    Answer { id: u8, reply: Reply },
    /// A measurement goes on.
    Measure(TachRun),
    /// A measurement is evaluated.
    Evaluate { id: u8, pulses: u32 },
}

/// What follows once the wanted outputs are on the board.
pub enum Goal {
    /// The service pass ends.
    Serviced(Job),
    /// The level of a line is reported.
    Report { id: u8, line: Line },
    /// The fan target is acknowledged.
    FanSet { id: u8 },
    /// The shutdown is acknowledged.
    Shutdown { id: u8 },
}

/// The stages in which outputs are put on the board.
#[derive(Clone, Copy, Debug, PartialEq, Eq, Structural)]
pub enum Stage {
    CloseRx,
    FiveVolt,
    AsicReset,
    Fan,
    OpenRx,
}

/// What the bridge is waiting for.
pub enum Phase {
    Idle,
    ServiceSample { job: Job },
    Call { pending: Pending, goal: Goal },
    Outputs { goal: Goal },
    Board { outputs: SafetyOutputs, goal: Goal },
    Actuate { stage: Stage, outputs: SafetyOutputs, board: BoardControl, goal: Goal },
    Feed { job: Job },
    Info { id: u8 },
    Encoded { id: u8 },
    StatusClock { id: u8 },
    GpioSample { id: u8, command: u8, level: Option<bool> },
    Level { id: u8 },
    FanSample { id: u8, percent: u8 },
    TachBegin { id: u8 },
    TachClock { run: TachRun },
    TachLevel { run: TachRun },
    TachDue { run: TachRun },
    TachStamp { run: TachRun },
    TachPause { run: TachRun },
    TachSpeed { id: u8 },
    Sending,
}

/// What the bridge remembers between effects, whatever it is waiting for.
#[derive(Clone, Copy, Debug, PartialEq, Eq)]
pub struct BridgeCore {
    pub owner: BridgeOwner,
    /// The outputs that were last put on the board.
    pub applied_outputs: Option<SafetyOutputs>,
    /// How long a fan speed measurement takes.
    pub tach_measurement_ms: u64,
}

/// The state of the bridge task.
pub struct BridgeManager {
    pub core: BridgeCore,
    pub phase: Phase,
}

impl Reply {
    /// The reply to a request for a level.
    pub open spec fn level(level: bool) -> Self {
        Reply::Byte(if level { 1 } else { 0 })
    }

    /// The bytes of the reply, or the error that is reported.
    pub open spec fn content(self) -> Result<Seq<u8>, CommandError> {
        match self {
            Reply::Empty => Ok(Seq::empty()),
            Reply::Byte(byte) => Ok(seq![byte]),
            Reply::Word(word) => Ok(seq![(word % 256) as u8, (word / 256) as u8]),
            Reply::Encoded(payload) => Ok(payload_bytes(payload)),
            Reply::Failed(error) => Err(error),
        }
    }

    /// The reply as it is sent to the client.
    pub fn into_result(self) -> (result: Result<Payload, CommandError>)
        ensures
            match result {
                Ok(payload) => self.content() == Ok::<Seq<u8>, CommandError>(payload_bytes(payload)),
                Err(error) => self.content() == Err::<Seq<u8>, CommandError>(error),
            },
            result is Err <==> self is Failed,
            self is Empty ==> payload_bytes(result->Ok_0).len() == 0,
            self matches Reply::Byte(byte) ==> payload_bytes(result->Ok_0) == seq![byte],
            self matches Reply::Word(word) ==> {
                let bytes = payload_bytes(result->Ok_0);
                bytes.len() == 2 && bytes[0] + 256 * bytes[1] == word
            },
            self matches Reply::Encoded(payload) ==> payload_bytes(result->Ok_0) == payload_bytes(
                payload,
            ),
            self matches Reply::Failed(error) ==> result->Err_0 == error,
    {
        match self {
            Reply::Empty => Ok(empty_payload()),
            Reply::Byte(byte) => {
                let bytes: [u8; 1] = [byte];
                assert(bytes@ =~= seq![byte]);
                Ok(copy_payload(bytes.as_slice()))
            },
            Reply::Word(word) => {
                let bytes: [u8; 2] = [(word % 256) as u8, (word / 256) as u8];
                assert(bytes@ =~= seq![(word % 256) as u8, (word / 256) as u8]);
                Ok(copy_payload(bytes.as_slice()))
            },
            Reply::Encoded(payload) => Ok(payload),
            Reply::Failed(error) => Err(error),
        }
    }
}

impl TachRun {
    /// The run after another sample of the tachometer: a rising edge counts.
    pub open spec fn sampled(self, level: bool) -> Self {
        TachRun {
            level,
            pulses: if level && !self.level {
                (self.pulses + 1) as u32
            } else {
                self.pulses
            },
            ..self
        }
    }

    /// Whether the measurement time is over at `now_us`.
    pub open spec fn over(self, now_us: u64, measurement_ms: u64) -> bool {
        now_us - self.start_us >= measurement_ms * 1000
    }
}

impl Stage {
    /// What the stage does to the board.
    pub open spec fn effect(self, board: BoardControl) -> Effect {
        match self {
            Stage::CloseRx => Effect::SetRxForwarding(false),
            Stage::FiveVolt => Effect::SetFiveVolt(board.five_volt_enable_high),
            Stage::AsicReset => Effect::SetAsicReset(board.asic_reset_n_high),
            Stage::Fan => Effect::SetFan(fan_pwm(board.fan_compare)),
            Stage::OpenRx => Effect::SetRxForwarding(true),
        }
    }

    /// The first stage: the receiver is closed before anything else changes.
    pub open spec fn first(board: BoardControl) -> Self {
        if board.forward_asic_rx {
            Stage::FiveVolt
        } else {
            Stage::CloseRx
        }
    }

    /// The stage that follows: the receiver is opened after everything else.
    pub open spec fn next(self, board: BoardControl) -> Option<Stage> {
        match self {
            Stage::CloseRx => Some(Stage::FiveVolt),
            Stage::FiveVolt => Some(Stage::AsicReset),
            Stage::AsicReset => Some(Stage::Fan),
            Stage::Fan => if board.forward_asic_rx {
                Some(Stage::OpenRx)
            } else {
                None
            },
            Stage::OpenRx => None,
        }
    }
}

impl Phase {
    /// Whether `input` can be what the bridge is waiting for. The clock does not
    /// run backwards, and the pulses of a measurement can be counted.
    pub open spec fn accepts(self, input: Input) -> bool {
        match self {
            Phase::Idle => input is Request || input is Tick,
            Phase::ServiceSample { .. } | Phase::GpioSample { .. } | Phase::FanSample { .. } => {
                input is Sample
            },
            Phase::Call { pending, .. } => input is Policy && pending.accepts(input->Policy_0),
            Phase::Outputs { .. } => input is Policy && input->Policy_0 is Outputs,
            Phase::Board { .. } => input is Board,
            Phase::Info { .. } => input is Info,
            Phase::Encoded { .. } => input is Encoded,
            Phase::StatusClock { .. } => input is Millis,
            Phase::Level { .. } => input is Level,
            Phase::TachBegin { .. } => input is TachBegun,
            Phase::TachClock { run } => input is Micros && input->Micros_0 >= run.start_us,
            Phase::TachLevel { run } => {
                &&& input is Level
                &&& input->Level_0 && !run.level ==> run.pulses < u32::MAX
            },
            Phase::TachDue { .. } => input is ServiceDue,
            Phase::TachStamp { .. } => input is Micros,
            Phase::TachSpeed { .. } => input is Speed,
            Phase::Actuate { .. }
            | Phase::Feed { .. }
            | Phase::TachPause { .. }
            | Phase::Sending => input is Done,
        }
    }
}

/// The transitions of the bridge.
impl BridgeCore {
    /// The bridge in a phase.
    pub open spec fn at(self, phase: Phase) -> BridgeManager {
        BridgeManager { core: self, phase }
    }

    /// The same bridge with other bookkeeping.
    pub open spec fn with_owner(self, owner: BridgeOwner) -> Self {
        BridgeCore { owner, ..self }
    }

    /// A service pass starts.
    pub open spec fn servicing(self, job: Job) -> (BridgeManager, Effect) {
        (self.at(Phase::ServiceSample { job }), Effect::Sample)
    }

    /// A reply is ready: it is sent after another service pass.
    pub open spec fn answering(self, id: u8, reply: Reply) -> (BridgeManager, Effect) {
        self.servicing(Job::Answer { id, reply })
    }

    /// An operation of the owner goes on or ends.
    pub open spec fn stepping(self, step: Step, goal: Goal) -> (BridgeManager, Effect) {
        match step {
            Step::Call { call, pending } => (
                self.at(Phase::Call { pending, goal }),
                Effect::Policy(call),
            ),
            Step::Finished { result } => match (goal, result) {
                (Goal::Report { id, .. }, Err(error)) | (Goal::FanSet { id }, Err(error)) => {
                    self.answering(id, Reply::Failed(reported(error)))
                },
                _ => self.applying(goal),
            },
        }
    }

    /// The wanted outputs are put on the board.
    pub open spec fn applying(self, goal: Goal) -> (BridgeManager, Effect) {
        (self.at(Phase::Outputs { goal }), Effect::Policy(PolicyCall::Outputs))
    }

    /// A stage of putting outputs on the board is carried out.
    pub open spec fn actuating(
        self,
        stage: Stage,
        outputs: SafetyOutputs,
        board: BoardControl,
        goal: Goal,
    ) -> (BridgeManager, Effect) {
        (self.at(Phase::Actuate { stage, outputs, board, goal }), stage.effect(board))
    }

    /// The wanted outputs are on the board.
    pub open spec fn applied(self, goal: Goal) -> (BridgeManager, Effect) {
        match goal {
            Goal::Serviced(job) => (self.at(Phase::Feed { job }), Effect::FeedWatchdog),
            Goal::Report { id, line } => (
                self.at(Phase::Level { id }),
                Effect::ReadLine(line),
            ),
            Goal::FanSet { id } => self.answering(id, Reply::Byte(0)),
            Goal::Shutdown { id } => self.answering(id, Reply::Empty),
        }
    }

    /// A service pass is over.
    pub open spec fn resting(self, job: Job) -> (BridgeManager, Effect) {
        match job {
            Job::Rest => (self.at(Phase::Idle), Effect::AwaitEvent),
            Job::Handle(envelope) => self.handling(envelope.id, envelope.request),
            Job::Answer { id, reply } => (
                self.at(Phase::Sending),
                Effect::SendReply { id, reply },
            ),
            Job::Measure(run) => (self.at(Phase::TachStamp { run }), Effect::ReadMicros),
            Job::Evaluate { id, pulses } => (
                self.at(Phase::TachSpeed { id }),
                Effect::ConvertPulses { pulses },
            ),
        }
    }

    /// A request is handled.
    pub open spec fn handling(self, id: u8, request: Request) -> (BridgeManager, Effect) {
        match request {
            Request::System { command } => if command == SYSTEM_GET_INFO {
                (self.at(Phase::Info { id }), Effect::EncodeInfo)
            } else if command == SYSTEM_GET_RX_STATS {
                (self.at(Phase::Encoded { id }), Effect::EncodeRxStats)
            } else if command == SYSTEM_GET_SAFETY_STATUS {
                (self.at(Phase::StatusClock { id }), Effect::ReadMillis)
            } else {
                self.answering(id, Reply::Failed(CommandError::Invalid))
            },
            Request::Gpio { command, level } => (
                self.at(Phase::GpioSample { id, command, level }),
                Effect::Sample,
            ),
            Request::Fan { command, speed } => match speed {
                Some(percent) => if command == FAN_SET_SPEED && percent <= 100 {
                    (self.at(Phase::FanSample { id, percent }), Effect::Sample)
                } else {
                    self.answering(id, Reply::Failed(CommandError::Invalid))
                },
                None => if command == FAN_GET_TACH {
                    (self.at(Phase::TachBegin { id }), Effect::BeginTach)
                } else {
                    self.answering(id, Reply::Failed(CommandError::Invalid))
                },
            },
            Request::Shutdown => self.with_owner(BridgeOwner::released()).stepping(
                disarm_and_report(Ok(())),
                Goal::Shutdown { id },
            ),
        }
    }

    /// A GPIO command is carried out at a sampled time. A level for the reset line
    /// is the physical level of `RST_N`, so that low asks for the reset.
    pub open spec fn handling_gpio(
        self,
        id: u8,
        command: u8,
        level: Option<bool>,
        now_ms: u64,
        trip_input_asserted: bool,
    ) -> (BridgeManager, Effect) {
        if command == GPIO_5V_ENABLE {
            match level {
                None => (self.at(Phase::Level { id }), Effect::ReadLine(Line::FiveVolt)),
                Some(level) => self.stepping(
                    Operation::Request(Change::FiveVolt { enabled: level }).begin(
                        now_ms,
                        trip_input_asserted,
                    ),
                    Goal::Report { id, line: Line::FiveVolt },
                ),
            }
        } else if command == GPIO_ASIC_RESET {
            match level {
                None => (self.at(Phase::Level { id }), Effect::ReadLine(Line::AsicReset)),
                Some(level) => self.stepping(
                    Operation::Request(Change::AsicReset { asserted: !level }).begin(
                        now_ms,
                        trip_input_asserted,
                    ),
                    Goal::Report { id, line: Line::AsicReset },
                ),
            }
        } else if command == GPIO_ASIC_TRIP && level is None {
            (self.at(Phase::Level { id }), Effect::ReadLine(Line::AsicTrip))
        } else {
            self.answering(id, Reply::Failed(CommandError::Invalid))
        }
    }
}

impl BridgeManager {
    /// The bridge and the effect that follow `input`.
    pub open spec fn advanced(self, input: Input) -> (Self, Effect) {
        let core = self.core;
        match self.phase {
            Phase::Idle => match input {
                Input::Request(envelope) => core.servicing(Job::Handle(envelope)),
                _ => core.servicing(Job::Rest),
            },
            Phase::ServiceSample { job } => core.stepping(
                Operation::Service.begin(input->now_ms, input->trip_input_asserted),
                Goal::Serviced(job),
            ),
            Phase::Call { pending, goal } => {
                let (owner, step) = core.owner.resumed(pending, input->Policy_0);
                core.with_owner(owner).stepping(step, goal)
            },
            Phase::Outputs { goal } => {
                let outputs = input->Policy_0->Outputs_0;
                if core.applied_outputs == Some(outputs) {
                    core.applied(goal)
                } else {
                    (core.at(Phase::Board { outputs, goal }), Effect::DeriveBoard(outputs))
                }
            },
            Phase::Board { outputs, goal } => {
                let board = input->Board_0;
                core.actuating(Stage::first(board), outputs, board, goal)
            },
            Phase::Actuate { stage, outputs, board, goal } => match stage.next(board) {
                Some(next) => core.actuating(next, outputs, board, goal),
                None => BridgeCore { applied_outputs: Some(outputs), ..core }.applied(goal),
            },
            Phase::Feed { job } => core.resting(job),
            Phase::Info { id } => match input->Info_0 {
                Ok(payload) => core.answering(id, Reply::Encoded(payload)),
                Err(_) => core.answering(id, Reply::Failed(CommandError::Invalid)),
            },
            Phase::Encoded { id } => core.answering(id, Reply::Encoded(input->Encoded_0)),
            Phase::StatusClock { id } => (
                core.at(Phase::Encoded { id }),
                Effect::EncodeStatus { now_ms: input->Millis_0 },
            ),
            Phase::GpioSample { id, command, level } => core.handling_gpio(
                id,
                command,
                level,
                input->now_ms,
                input->trip_input_asserted,
            ),
            Phase::Level { id } => core.answering(id, Reply::level(input->Level_0)),
            Phase::FanSample { id, percent } => core.stepping(
                Operation::Request(Change::Fan { percent }).begin(
                    input->now_ms,
                    input->trip_input_asserted,
                ),
                Goal::FanSet { id },
            ),
            Phase::TachBegin { id } => (
                core.at(
                    Phase::TachClock {
                        run: TachRun {
                            id,
                            start_us: input->start_us,
                            serviced_us: input->serviced_us,
                            level: input->level,
                            pulses: 0,
                        },
                    },
                ),
                Effect::ReadMicros,
            ),
            Phase::TachClock { run } => if run.over(input->Micros_0, core.tach_measurement_ms) {
                core.servicing(Job::Evaluate { id: run.id, pulses: run.pulses })
            } else {
                (core.at(Phase::TachLevel { run }), Effect::ReadLine(Line::FanTach))
            },
            Phase::TachLevel { run } => (
                core.at(Phase::TachDue { run: run.sampled(input->Level_0) }),
                Effect::CheckServiceDue { since_us: run.serviced_us },
            ),
            Phase::TachDue { run } => if input->ServiceDue_0 {
                core.servicing(Job::Measure(run))
            } else {
                (core.at(Phase::TachPause { run }), Effect::Pause)
            },
            Phase::TachStamp { run } => (
                core.at(
                    Phase::TachPause { run: TachRun { serviced_us: input->Micros_0, ..run } },
                ),
                Effect::Pause,
            ),
            Phase::TachPause { run } => (core.at(Phase::TachClock { run }), Effect::ReadMicros),
            Phase::TachSpeed { id } => match input->Speed_0 {
                Some(speed) => core.answering(id, Reply::Word(speed)),
                None => core.answering(id, Reply::Failed(CommandError::Invalid)),
            },
            Phase::Sending => (core.at(Phase::Idle), Effect::AwaitEvent),
        }
    }
}

/// Driving the bridge.
impl BridgeManager {
    /// Starts the bridge: nothing has been put on the board yet, and the first
    /// thing that happens is a service pass.
    pub fn new(tach_measurement_ms: u64) -> (started: (BridgeManager, Effect))
        ensures
            started == (BridgeCore {
                owner: BridgeOwner::released(),
                applied_outputs: None,
                tach_measurement_ms,
            }).servicing(Job::Rest),
            started.0.core.owner == BridgeOwner::released(),
            started.0.core.applied_outputs is None,
            started.0.core.tach_measurement_ms == tach_measurement_ms,
            started.0.phase == (Phase::ServiceSample { job: Job::Rest }),
            started.1 is Sample,
    {
        let core = BridgeCore {
            owner: BridgeOwner::new(),
            applied_outputs: None,
            tach_measurement_ms,
        };
        core.service_safety(Job::Rest)
    }

    /// Tells whether `input` can be what came of the latest effect.
    pub fn takes(&self, input: &Input) -> (taken: bool)
        ensures
            taken == self.phase.accepts(*input),
    {
        match (&self.phase, input) {
            (Phase::Idle, Input::Request(_) | Input::Tick) => true,
            (
                Phase::ServiceSample { .. } | Phase::GpioSample { .. } | Phase::FanSample { .. },
                Input::Sample { .. },
            ) => true,
            (Phase::Call { pending, .. }, Input::Policy(reply)) => pending.takes(reply),
            (Phase::Outputs { .. }, Input::Policy(PolicyReply::Outputs(_))) => true,
            (Phase::Board { .. }, Input::Board(_)) => true,
            (Phase::Info { .. }, Input::Info(_)) => true,
            (Phase::Encoded { .. }, Input::Encoded(_)) => true,
            (Phase::StatusClock { .. }, Input::Millis(_)) => true,
            (Phase::Level { .. }, Input::Level(_)) => true,
            (Phase::TachBegin { .. }, Input::TachBegun { .. }) => true,
            (Phase::TachClock { run }, Input::Micros(now_us)) => *now_us >= run.start_us,
            (Phase::TachLevel { run }, Input::Level(level)) => {
                !*level || run.level || run.pulses < u32::MAX
            },
            (Phase::TachDue { .. }, Input::ServiceDue(_)) => true,
            (Phase::TachStamp { .. }, Input::Micros(_)) => true,
            (Phase::TachSpeed { .. }, Input::Speed(_)) => true,
            (
                Phase::Actuate { .. }
                | Phase::Feed { .. }
                | Phase::TachPause { .. }
                | Phase::Sending,
                Input::Done,
            ) => true,
            _ => false,
        }
    }

    /// Takes what came of the latest effect and gives the next one.
    pub fn advance(self, input: Input) -> (next: (BridgeManager, Effect))
        requires
            self.phase.accepts(input),
        ensures
            next == self.advanced(input),
    {
        let mut core = self.core;
        match (self.phase, input) {
            (Phase::Idle, Input::Request(envelope)) => core.service_safety(Job::Handle(envelope)),
            (Phase::Idle, _) => core.service_safety(Job::Rest),
            (Phase::ServiceSample { job }, Input::Sample { now_ms, trip_input_asserted }) => {
                let step = core.owner.service(now_ms, trip_input_asserted);
                core.follow(step, Goal::Serviced(job))
            },
            (Phase::Call { pending, goal }, Input::Policy(reply)) => {
                let step = core.owner.resume(pending, reply);
                core.follow(step, goal)
            },
            (Phase::Outputs { goal }, Input::Policy(PolicyReply::Outputs(outputs))) => {
                let unchanged = match core.applied_outputs {
                    Some(applied) => applied == outputs,
                    None => false,
                };
                if unchanged {
                    core.outputs_applied(goal)
                } else {
                    core.wait(Phase::Board { outputs, goal }, Effect::DeriveBoard(outputs))
                }
            },
            (Phase::Board { outputs, goal }, Input::Board(board)) => {
                let stage = if board.forward_asic_rx {
                    Stage::FiveVolt
                } else {
                    Stage::CloseRx
                };
                core.actuate(stage, outputs, board, goal)
            },
            (Phase::Actuate { stage, outputs, board, goal }, _) => match Self::next_stage(
                stage,
                board,
            ) {
                Some(next) => core.actuate(next, outputs, board, goal),
                None => {
                    core.applied_outputs = Some(outputs);
                    core.outputs_applied(goal)
                },
            },
            (Phase::Feed { job }, _) => core.service_finished(job),
            (Phase::Info { id }, Input::Info(Ok(payload))) => core.answer(
                id,
                Reply::Encoded(payload),
            ),
            (Phase::Encoded { id }, Input::Encoded(payload)) => core.answer(
                id,
                Reply::Encoded(payload),
            ),
            (Phase::StatusClock { id }, Input::Millis(now_ms)) => core.wait(
                Phase::Encoded { id },
                Effect::EncodeStatus { now_ms },
            ),
            (
                Phase::GpioSample { id, command, level },
                Input::Sample { now_ms, trip_input_asserted },
            ) => core.handle_gpio(id, command, level, now_ms, trip_input_asserted),
            (Phase::Level { id }, Input::Level(level)) => core.answer(
                id,
                Reply::Byte(level as u8),
            ),
            (Phase::FanSample { id, percent }, Input::Sample { now_ms, trip_input_asserted }) => {
                let step = core.owner.request_fan_percent(percent, now_ms, trip_input_asserted);
                core.follow(step, Goal::FanSet { id })
            },
            (Phase::TachBegin { id }, Input::TachBegun { start_us, serviced_us, level }) => {
                let run = TachRun { id, start_us, serviced_us, level, pulses: 0 };
                core.wait(Phase::TachClock { run }, Effect::ReadMicros)
            },
            (Phase::TachClock { run }, Input::Micros(now_us)) => {
                if (now_us - run.start_us) / 1000 < core.tach_measurement_ms {
                    core.wait(Phase::TachLevel { run }, Effect::ReadLine(Line::FanTach))
                } else {
                    core.service_safety(Job::Evaluate { id: run.id, pulses: run.pulses })
                }
            },
            (Phase::TachLevel { run }, Input::Level(level)) => {
                let mut sampled = run;
                if level && !run.level {
                    sampled.pulses = sampled.pulses + 1;
                }
                sampled.level = level;
                core.wait(
                    Phase::TachDue { run: sampled },
                    Effect::CheckServiceDue { since_us: run.serviced_us },
                )
            },
            (Phase::TachDue { run }, Input::ServiceDue(due)) => {
                if due {
                    core.service_safety(Job::Measure(run))
                } else {
                    core.wait(Phase::TachPause { run }, Effect::Pause)
                }
            },
            (Phase::TachStamp { run }, Input::Micros(now_us)) => {
                let mut stamped = run;
                stamped.serviced_us = now_us;
                core.wait(Phase::TachPause { run: stamped }, Effect::Pause)
            },
            (Phase::TachPause { run }, _) => core.wait(
                Phase::TachClock { run },
                Effect::ReadMicros,
            ),
            (Phase::TachSpeed { id }, Input::Speed(Some(speed))) => core.answer(
                id,
                Reply::Word(speed),
            ),
            (Phase::Info { id }, _) | (Phase::TachSpeed { id }, _) => core.answer(
                id,
                Reply::Failed(CommandError::Invalid),
            ),
            _ => core.wait(Phase::Idle, Effect::AwaitEvent),
        }
    }

    fn next_stage(stage: Stage, board: BoardControl) -> (next: Option<Stage>)
        ensures
            next == stage.next(board),
    {
        match stage {
            Stage::CloseRx => Some(Stage::FiveVolt),
            Stage::FiveVolt => Some(Stage::AsicReset),
            Stage::AsicReset => Some(Stage::Fan),
            Stage::Fan => {
                if board.forward_asic_rx {
                    Some(Stage::OpenRx)
                } else {
                    None
                }
            },
            Stage::OpenRx => None,
        }
    }
}

impl BridgeCore {
    fn wait(self, phase: Phase, effect: Effect) -> (next: (BridgeManager, Effect))
        ensures
            next == (self.at(phase), effect),
    {
        (BridgeManager { core: self, phase }, effect)
    }

    fn service_safety(self, job: Job) -> (next: (BridgeManager, Effect))
        ensures
            next == self.servicing(job),
    {
        self.wait(Phase::ServiceSample { job }, Effect::Sample)
    }

    fn answer(self, id: u8, reply: Reply) -> (next: (BridgeManager, Effect))
        ensures
            next == self.answering(id, reply),
    {
        self.service_safety(Job::Answer { id, reply })
    }

    fn follow(self, step: Step, goal: Goal) -> (next: (BridgeManager, Effect))
        ensures
            next == self.stepping(step, goal),
    {
        match step {
            Step::Call { call, pending } => self.wait(
                Phase::Call { pending, goal },
                Effect::Policy(call),
            ),
            Step::Finished { result } => match (goal, result) {
                (Goal::Report { id, .. }, Err(error)) | (Goal::FanSet { id }, Err(error)) => {
                    self.answer(id, Reply::Failed(CommandError::from(error)))
                },
                (goal, _) => self.apply_outputs(goal),
            },
        }
    }

    fn apply_outputs(self, goal: Goal) -> (next: (BridgeManager, Effect))
        ensures
            next == self.applying(goal),
    {
        self.wait(Phase::Outputs { goal }, Effect::Policy(PolicyCall::Outputs))
    }

    fn actuate(
        self,
        stage: Stage,
        outputs: SafetyOutputs,
        board: BoardControl,
        goal: Goal,
    ) -> (next: (BridgeManager, Effect))
        ensures
            next == self.actuating(stage, outputs, board, goal),
    {
        let effect = match stage {
            Stage::CloseRx => Effect::SetRxForwarding(false),
            Stage::FiveVolt => Effect::SetFiveVolt(board.five_volt_enable_high),
            Stage::AsicReset => Effect::SetAsicReset(board.asic_reset_n_high),
            Stage::Fan => Effect::SetFan(fan_pwm_config(board.fan_compare)),
            Stage::OpenRx => Effect::SetRxForwarding(true),
        };
        self.wait(Phase::Actuate { stage, outputs, board, goal }, effect)
    }

    fn outputs_applied(self, goal: Goal) -> (next: (BridgeManager, Effect))
        ensures
            next == self.applied(goal),
    {
        match goal {
            // The end of a service pass is the only place that feeds the watchdog:
            // a bridge that can no longer sample its inputs and apply its outputs
            // is reset to its safe boot levels.
            Goal::Serviced(job) => self.wait(Phase::Feed { job }, Effect::FeedWatchdog),
            Goal::Report { id, line } => self.wait(Phase::Level { id }, Effect::ReadLine(line)),
            Goal::FanSet { id } => self.answer(id, Reply::Byte(0)),
            Goal::Shutdown { id } => self.answer(id, Reply::Empty),
        }
    }

    fn service_finished(self, job: Job) -> (next: (BridgeManager, Effect))
        ensures
            next == self.resting(job),
    {
        match job {
            Job::Rest => self.wait(Phase::Idle, Effect::AwaitEvent),
            Job::Handle(envelope) => self.handle(envelope.id, envelope.request),
            Job::Answer { id, reply } => self.wait(
                Phase::Sending,
                Effect::SendReply { id, reply },
            ),
            Job::Measure(run) => self.wait(Phase::TachStamp { run }, Effect::ReadMicros),
            Job::Evaluate { id, pulses } => self.wait(
                Phase::TachSpeed { id },
                Effect::ConvertPulses { pulses },
            ),
        }
    }

    fn handle(self, id: u8, request: Request) -> (next: (BridgeManager, Effect))
        ensures
            next == self.handling(id, request),
    {
        match request {
            Request::System { command } => self.handle_system(id, command),
            Request::Gpio { command, level } => self.wait(
                Phase::GpioSample { id, command, level },
                Effect::Sample,
            ),
            Request::Fan { command, speed } => self.handle_fan(id, command, speed),
            Request::Shutdown => {
                let mut core = self;
                let step = core.owner.fail_safe();
                core.follow(step, Goal::Shutdown { id })
            },
        }
    }

    fn handle_system(self, id: u8, command: u8) -> (next: (BridgeManager, Effect))
        ensures
            next == self.handling(id, Request::System { command }),
    {
        if command == SYSTEM_GET_INFO {
            self.wait(Phase::Info { id }, Effect::EncodeInfo)
        } else if command == SYSTEM_GET_RX_STATS {
            self.wait(Phase::Encoded { id }, Effect::EncodeRxStats)
        } else if command == SYSTEM_GET_SAFETY_STATUS {
            self.wait(Phase::StatusClock { id }, Effect::ReadMillis)
        } else {
            self.answer(id, Reply::Failed(CommandError::Invalid))
        }
    }

    fn handle_fan(self, id: u8, command: u8, speed: Option<u8>) -> (next: (BridgeManager, Effect))
        ensures
            next == self.handling(id, Request::Fan { command, speed }),
    {
        match speed {
            Some(percent) if command == FAN_SET_SPEED && percent <= 100 => self.wait(
                Phase::FanSample { id, percent },
                Effect::Sample,
            ),
            None if command == FAN_GET_TACH => self.wait(
                Phase::TachBegin { id },
                Effect::BeginTach,
            ),
            _ => self.answer(id, Reply::Failed(CommandError::Invalid)),
        }
    }

    fn handle_gpio(
        self,
        id: u8,
        command: u8,
        level: Option<bool>,
        now_ms: u64,
        trip_input_asserted: bool,
    ) -> (next: (BridgeManager, Effect))
        ensures
            next == self.handling_gpio(id, command, level, now_ms, trip_input_asserted),
    {
        let mut core = self;
        match level {
            Some(enabled) if command == GPIO_5V_ENABLE => {
                let step = core.owner.request_five_volt_enabled(
                    enabled,
                    now_ms,
                    trip_input_asserted,
                );
                core.follow(step, Goal::Report { id, line: Line::FiveVolt })
            },
            Some(reset_n) if command == GPIO_ASIC_RESET => {
                let step = core.owner.request_asic_reset_asserted(
                    !reset_n,
                    now_ms,
                    trip_input_asserted,
                );
                core.follow(step, Goal::Report { id, line: Line::AsicReset })
            },
            None if command == GPIO_5V_ENABLE => core.wait(
                Phase::Level { id },
                Effect::ReadLine(Line::FiveVolt),
            ),
            None if command == GPIO_ASIC_RESET => core.wait(
                Phase::Level { id },
                Effect::ReadLine(Line::AsicReset),
            ),
            None if command == GPIO_ASIC_TRIP => core.wait(
                Phase::Level { id },
                Effect::ReadLine(Line::AsicTrip),
            ),
            _ => core.answer(id, Reply::Failed(CommandError::Invalid)),
        }
    }
}

} // verus!
