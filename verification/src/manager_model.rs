//! What the effects of [`BridgeManager`] amount to.
//!
//! The surroundings of the bridge are modelled as any function from their own
//! state and an effect to their next state and an input. The functions below say,
//! in terms of such surroundings, what the bridge does from one event to the next;
//! the laws show that driving the state machine does exactly that.

use vstd::prelude::*;

use crate::bridge::{
    fan_pwm, reported, CommandError, Request, RequestEnvelope, FAN_GET_TACH, FAN_SET_SPEED,
    GPIO_5V_ENABLE, GPIO_ASIC_RESET, GPIO_ASIC_TRIP, SYSTEM_GET_INFO, SYSTEM_GET_RX_STATS,
    SYSTEM_GET_SAFETY_STATUS,
};
use crate::bridge_owner::{
    disarm_and_report, owner_holding, owner_released, BridgeOwner, Change, Operation, Step,
};
use crate::manager::{
    BoardControl, BridgeCore, BridgeManager, Effect, Goal, Input, Job, Line, Phase, Reply, Stage,
    TachRun,
};
use crate::owner_model::{
    disarms_safely, executed, honours_grants, keeps, latches_expiry, latches_trips,
    law_fail_safe_makes_safe, law_granted_change_is_wanted, law_operation_is_performed,
    law_refused_request_makes_safe, law_safe_tick_makes_service_safe, law_switching_off_makes_safe,
    made_safe, performed, reads_idly, remaining, stays_safe, wanted, Policy,
};
use crate::safety::{PolicyCall, SafetyError, SafetyOutputs};

verus! {

/// The surroundings of the bridge: policy, board, clock, timers and clients.
pub type World<W> = spec_fn(W, Effect) -> (W, Input);

/// The safety policy, as part of the surroundings.
pub open spec fn policy_in<W>(world: World<W>) -> Policy<W> {
    |state: W, call: PolicyCall|
        {
            let (next, input) = world(state, Effect::Policy(call));
            (next, input->Policy_0)
        }
}

/// Putting the wanted outputs on the board. Nothing happens where they are there
/// already. Otherwise the receiver is closed first if it may not forward, and
/// opened last if it may.
pub open spec fn outputs_applied<W>(world: World<W>, state: W, core: BridgeCore) -> (
    W,
    BridgeCore,
) {
    let (state, input) = world(state, Effect::Policy(PolicyCall::Outputs));
    let outputs = input->Policy_0->Outputs_0;
    if core.applied_outputs == Some(outputs) {
        (state, core)
    } else {
        let (state, input) = world(state, Effect::DeriveBoard(outputs));
        let board = input->Board_0;
        let state = if board.forward_asic_rx {
            state
        } else {
            world(state, Effect::SetRxForwarding(false)).0
        };
        let state = world(state, Effect::SetFiveVolt(board.five_volt_enable_high)).0;
        let state = world(state, Effect::SetAsicReset(board.asic_reset_n_high)).0;
        let state = world(state, Effect::SetFan(fan_pwm(board.fan_compare))).0;
        let state = if board.forward_asic_rx {
            world(state, Effect::SetRxForwarding(true)).0
        } else {
            state
        };
        (state, BridgeCore { applied_outputs: Some(outputs), ..core })
    }
}

/// A service pass: time and trip input are sampled, the policy is serviced, the
/// wanted outputs are put on the board, and only then is the watchdog fed.
pub open spec fn safety_serviced<W>(world: World<W>, state: W, core: BridgeCore) -> (
    W,
    BridgeCore,
) {
    let (state, input) = world(state, Effect::Sample);
    let (state, owner, _) = performed(
        policy_in(world),
        state,
        core.owner,
        Operation::Service,
        input->now_ms,
        input->trip_input_asserted,
    );
    let (state, core) = outputs_applied(world, state, core.with_owner(owner));
    (world(state, Effect::FeedWatchdog).0, core)
}

/// Reporting the level of a line.
pub open spec fn line_read<W>(world: World<W>, state: W, core: BridgeCore, line: Line) -> (
    W,
    BridgeCore,
    Reply,
) {
    let (state, input) = world(state, Effect::ReadLine(line));
    (state, core, Reply::level(input->Level_0))
}

/// A change that a client asks for: where the policy grants it, the outputs are
/// put on the board.
pub open spec fn change_requested<W>(
    world: World<W>,
    state: W,
    core: BridgeCore,
    change: Change,
    now_ms: u64,
    trip_input_asserted: bool,
) -> (W, BridgeCore, Option<SafetyError>) {
    let (state, owner, result) = performed(
        policy_in(world),
        state,
        core.owner,
        Operation::Request(change),
        now_ms,
        trip_input_asserted,
    );
    match result {
        Ok(_) => {
            let (state, core) = outputs_applied(world, state, core.with_owner(owner));
            (state, core, None)
        },
        Err(error) => (state, core.with_owner(owner), Some(error)),
    }
}

/// Setting a level: the level that is then on the line is reported.
pub open spec fn level_set<W>(
    world: World<W>,
    state: W,
    core: BridgeCore,
    change: Change,
    line: Line,
    now_ms: u64,
    trip_input_asserted: bool,
) -> (W, BridgeCore, Reply) {
    let (state, core, refusal) = change_requested(
        world,
        state,
        core,
        change,
        now_ms,
        trip_input_asserted,
    );
    match refusal {
        None => line_read(world, state, core, line),
        Some(error) => (state, core, Reply::Failed(reported(error))),
    }
}

/// What a GPIO request does and is answered.
pub open spec fn gpio_answered<W>(
    world: World<W>,
    state: W,
    core: BridgeCore,
    command: u8,
    level: Option<bool>,
) -> (W, BridgeCore, Reply) {
    let (state, input) = world(state, Effect::Sample);
    let now_ms = input->now_ms;
    let trip = input->trip_input_asserted;
    match level {
        Some(level) => if command == GPIO_5V_ENABLE {
            let change = Change::FiveVolt { enabled: level };
            level_set(world, state, core, change, Line::FiveVolt, now_ms, trip)
        } else if command == GPIO_ASIC_RESET {
            let change = Change::AsicReset { asserted: !level };
            level_set(world, state, core, change, Line::AsicReset, now_ms, trip)
        } else {
            (state, core, Reply::Failed(CommandError::Invalid))
        },
        None => if command == GPIO_5V_ENABLE {
            line_read(world, state, core, Line::FiveVolt)
        } else if command == GPIO_ASIC_RESET {
            line_read(world, state, core, Line::AsicReset)
        } else if command == GPIO_ASIC_TRIP {
            line_read(world, state, core, Line::AsicTrip)
        } else {
            (state, core, Reply::Failed(CommandError::Invalid))
        },
    }
}

/// What a system request is answered.
pub open spec fn system_answered<W>(world: World<W>, state: W, core: BridgeCore, command: u8) -> (
    W,
    BridgeCore,
    Reply,
) {
    if command == SYSTEM_GET_INFO {
        let (state, input) = world(state, Effect::EncodeInfo);
        match input->Info_0 {
            Ok(payload) => (state, core, Reply::Encoded(payload)),
            Err(_) => (state, core, Reply::Failed(CommandError::Invalid)),
        }
    } else if command == SYSTEM_GET_RX_STATS {
        let (state, input) = world(state, Effect::EncodeRxStats);
        (state, core, Reply::Encoded(input->Encoded_0))
    } else if command == SYSTEM_GET_SAFETY_STATUS {
        let (state, input) = world(state, Effect::ReadMillis);
        let (state, input) = world(state, Effect::EncodeStatus { now_ms: input->Millis_0 });
        (state, core, Reply::Encoded(input->Encoded_0))
    } else {
        (state, core, Reply::Failed(CommandError::Invalid))
    }
}

/// Whether a request starts a fan speed measurement.
pub open spec fn measures(request: Request) -> bool {
    request == (Request::Fan { command: FAN_GET_TACH, speed: None })
}

/// What a request other than a measurement does and is answered.
pub open spec fn answered<W>(world: World<W>, state: W, core: BridgeCore, request: Request) -> (
    W,
    BridgeCore,
    Reply,
) {
    match request {
        Request::System { command } => system_answered(world, state, core, command),
        Request::Gpio { command, level } => gpio_answered(world, state, core, command, level),
        Request::Fan { command, speed } => if command == FAN_SET_SPEED && speed is Some && speed->0
            <= 100 {
            let (state, input) = world(state, Effect::Sample);
            let (state, core, refusal) = change_requested(
                world,
                state,
                core,
                Change::Fan { percent: speed->0 },
                input->now_ms,
                input->trip_input_asserted,
            );
            match refusal {
                None => (state, core, Reply::Byte(0)),
                Some(error) => (state, core, Reply::Failed(reported(error))),
            }
        } else {
            (state, core, Reply::Failed(CommandError::Invalid))
        },
        Request::Shutdown => {
            let (state, owner) = made_safe(policy_in(world), state);
            let (state, core) = outputs_applied(world, state, core.with_owner(owner));
            (state, core, Reply::Empty)
        },
    }
}

/// Driving the bridge for `count` effects.
pub open spec fn driven<W>(
    world: World<W>,
    state: W,
    bridge: (BridgeManager, Effect),
    count: nat,
) -> (W, (BridgeManager, Effect))
    decreases count,
{
    if count == 0 {
        (state, bridge)
    } else {
        let (next, input) = world(state, bridge.1);
        driven(world, next, bridge.0.advanced(input), (count - 1) as nat)
    }
}

/// Whether driving the bridge leads from one situation to another.
pub open spec fn leads_to<W>(
    world: World<W>,
    start: (W, (BridgeManager, Effect)),
    end: (W, (BridgeManager, Effect)),
) -> bool {
    exists|count: nat| #[trigger] driven(world, start.0, start.1, count) == end
}

proof fn driven_adds<W>(
    world: World<W>,
    state: W,
    bridge: (BridgeManager, Effect),
    first: nat,
    second: nat,
)
    ensures
        driven(world, state, bridge, first + second) == {
            let (next, between) = driven(world, state, bridge, first);
            driven(world, next, between, second)
        },
    decreases first,
{
    if first > 0 {
        let (next, input) = world(state, bridge.1);
        driven_adds(world, next, bridge.0.advanced(input), (first - 1) as nat, second);
        assert((first + second - 1) as nat == (first - 1) as nat + second);
    }
}

proof fn leads_nowhere<W>(world: World<W>, state: W, bridge: (BridgeManager, Effect))
    ensures
        leads_to(world, (state, bridge), (state, bridge)),
{
    let start = (state, bridge);
    assert(driven(world, start.0, start.1, 0) == start);
}

/// One effect, followed by whatever leads on from its input.
proof fn leads_on<W>(
    world: World<W>,
    state: W,
    bridge: (BridgeManager, Effect),
    end: (W, (BridgeManager, Effect)),
)
    requires
        ({
            let (next, input) = world(state, bridge.1);
            leads_to(world, (next, bridge.0.advanced(input)), end)
        }),
    ensures
        leads_to(world, (state, bridge), end),
{
    let (next, input) = world(state, bridge.1);
    let start = (state, bridge);
    let between = (next, bridge.0.advanced(input));
    let rest = choose|count: nat| #[trigger] driven(world, between.0, between.1, count) == end;
    assert(driven(world, start.0, start.1, rest + 1) == end);
}

proof fn leads_through<W>(
    world: World<W>,
    start: (W, (BridgeManager, Effect)),
    between: (W, (BridgeManager, Effect)),
    end: (W, (BridgeManager, Effect)),
)
    requires
        leads_to(world, start, between),
        leads_to(world, between, end),
    ensures
        leads_to(world, start, end),
{
    let first = choose|count: nat| #[trigger] driven(world, start.0, start.1, count) == between;
    let second = choose|count: nat| #[trigger] driven(world, between.0, between.1, count) == end;
    driven_adds(world, start.0, start.1, first, second);
    assert(driven(world, start.0, start.1, first + second) == end);
}

/// An operation of the owner runs to its end.
proof fn operation_runs<W>(world: World<W>, state: W, core: BridgeCore, step: Step, goal: Goal)
    ensures
        ({
            let (end, owner, result) = executed(policy_in(world), state, core.owner, step);
            leads_to(
                world,
                (state, core.stepping(step, goal)),
                (end, core.with_owner(owner).stepping(Step::Finished { result }, goal)),
            )
        }),
    decreases remaining(step),
{
    let policy = policy_in(world);
    let (end, owner, result) = executed(policy, state, core.owner, step);
    let target = (end, core.with_owner(owner).stepping(Step::Finished { result }, goal));
    match step {
        Step::Finished { result } => {
            assert(core.with_owner(core.owner) == core);
            leads_nowhere(world, state, core.stepping(step, goal));
        },
        Step::Call { call, pending } => {
            let (next, input) = world(state, Effect::Policy(call));
            let (resumed, following) = core.owner.resumed(pending, input->Policy_0);
            let kept = core.with_owner(resumed);
            operation_runs(world, next, kept, following, goal);
            assert(kept.with_owner(owner) == core.with_owner(owner));
            assert(policy(state, call) == (next, input->Policy_0));
            leads_on(world, state, core.stepping(step, goal), target);
        },
    }
}

proof fn stages_run<W>(
    world: World<W>,
    state: W,
    core: BridgeCore,
    outputs: SafetyOutputs,
    board: BoardControl,
    goal: Goal,
)
    ensures
        ({
            let state1 = if board.forward_asic_rx {
                state
            } else {
                world(state, Effect::SetRxForwarding(false)).0
            };
            let state2 = world(state1, Effect::SetFiveVolt(board.five_volt_enable_high)).0;
            let state3 = world(state2, Effect::SetAsicReset(board.asic_reset_n_high)).0;
            let state4 = world(state3, Effect::SetFan(fan_pwm(board.fan_compare))).0;
            let state5 = if board.forward_asic_rx {
                world(state4, Effect::SetRxForwarding(true)).0
            } else {
                state4
            };
            leads_to(
                world,
                (state, core.actuating(Stage::first(board), outputs, board, goal)),
                (state5, BridgeCore { applied_outputs: Some(outputs), ..core }.applied(goal)),
            )
        }),
{
    let state1 = if board.forward_asic_rx {
        state
    } else {
        world(state, Effect::SetRxForwarding(false)).0
    };
    let state2 = world(state1, Effect::SetFiveVolt(board.five_volt_enable_high)).0;
    let state3 = world(state2, Effect::SetAsicReset(board.asic_reset_n_high)).0;
    let state4 = world(state3, Effect::SetFan(fan_pwm(board.fan_compare))).0;
    let state5 = if board.forward_asic_rx {
        world(state4, Effect::SetRxForwarding(true)).0
    } else {
        state4
    };
    let end = (state5, BridgeCore { applied_outputs: Some(outputs), ..core }.applied(goal));
    leads_nowhere(world, end.0, end.1);
    if board.forward_asic_rx {
        leads_on(world, state4, core.actuating(Stage::OpenRx, outputs, board, goal), end);
    }
    leads_on(world, state3, core.actuating(Stage::Fan, outputs, board, goal), end);
    leads_on(world, state2, core.actuating(Stage::AsicReset, outputs, board, goal), end);
    leads_on(world, state1, core.actuating(Stage::FiveVolt, outputs, board, goal), end);
    if !board.forward_asic_rx {
        leads_on(world, state, core.actuating(Stage::CloseRx, outputs, board, goal), end);
    }
}

/// The wanted outputs get on the board.
proof fn application_runs<W>(world: World<W>, state: W, core: BridgeCore, goal: Goal)
    ensures
        ({
            let (end, changed) = outputs_applied(world, state, core);
            leads_to(world, (state, core.applying(goal)), (end, changed.applied(goal)))
        }),
{
    let (end, changed) = outputs_applied(world, state, core);
    let target = (end, changed.applied(goal));
    let (state1, input) = world(state, Effect::Policy(PolicyCall::Outputs));
    let outputs = input->Policy_0->Outputs_0;
    if core.applied_outputs == Some(outputs) {
        leads_nowhere(world, state1, core.applied(goal));
    } else {
        let (state2, input) = world(state1, Effect::DeriveBoard(outputs));
        stages_run(world, state2, core, outputs, input->Board_0, goal);
        leads_on(
            world,
            state1,
            (core.at(Phase::Board { outputs, goal }), Effect::DeriveBoard(outputs)),
            target,
        );
    }
    leads_on(world, state, core.applying(goal), target);
}

/// A service pass does what [`safety_serviced`] says, and then turns to its job.
pub proof fn law_service_pass<W>(world: World<W>, state: W, core: BridgeCore, job: Job)
    ensures
        ({
            let (end, changed) = safety_serviced(world, state, core);
            leads_to(world, (state, core.servicing(job)), (end, changed.resting(job)))
        }),
{
    let (end, changed) = safety_serviced(world, state, core);
    let target = (end, changed.resting(job));
    let (state1, input) = world(state, Effect::Sample);
    let step = Operation::Service.begin(input->now_ms, input->trip_input_asserted);
    let goal = Goal::Serviced(job);
    law_operation_is_performed(
        policy_in(world),
        state1,
        core.owner,
        Operation::Service,
        input->now_ms,
        input->trip_input_asserted,
    );
    let (state2, owner, result) = executed(policy_in(world), state1, core.owner, step);
    let serviced = core.with_owner(owner);
    let (state3, changed) = outputs_applied(world, state2, serviced);
    leads_nowhere(world, target.0, target.1);
    leads_on(world, state3, changed.applied(goal), target);
    application_runs(world, state2, serviced, goal);
    leads_through(
        world,
        (state2, serviced.applying(goal)),
        (state3, changed.applied(goal)),
        target,
    );
    operation_runs(world, state1, core, step, goal);
    leads_through(
        world,
        (state1, core.stepping(step, goal)),
        (state2, serviced.applying(goal)),
        target,
    );
    leads_on(world, state, core.servicing(job), target);
}

/// A requested change runs to its end.
proof fn change_runs<W>(
    world: World<W>,
    state: W,
    core: BridgeCore,
    change: Change,
    now_ms: u64,
    trip_input_asserted: bool,
    goal: Goal,
)
    requires
        goal is Report || goal is FanSet,
    ensures
        ({
            let (end, changed, refusal) = change_requested(
                world,
                state,
                core,
                change,
                now_ms,
                trip_input_asserted,
            );
            leads_to(
                world,
                (
                    state,
                    core.stepping(
                        Operation::Request(change).begin(now_ms, trip_input_asserted),
                        goal,
                    ),
                ),
                (
                    end,
                    match refusal {
                        None => changed.applied(goal),
                        Some(error) => changed.stepping(
                            Step::Finished { result: Err(error) },
                            goal,
                        ),
                    },
                ),
            )
        }),
{
    let operation = Operation::Request(change);
    let step = operation.begin(now_ms, trip_input_asserted);
    let policy = policy_in(world);
    law_operation_is_performed(policy, state, core.owner, operation, now_ms, trip_input_asserted);
    let (state1, owner, result) = executed(policy, state, core.owner, step);
    let kept = core.with_owner(owner);
    operation_runs(world, state, core, step, goal);
    if result is Ok {
        application_runs(world, state1, kept, goal);
        let (state2, changed) = outputs_applied(world, state1, kept);
        leads_through(
            world,
            (state, core.stepping(step, goal)),
            (state1, kept.applying(goal)),
            (state2, changed.applied(goal)),
        );
    }
}

/// Reading a line runs to its end.
proof fn line_read_runs<W>(world: World<W>, state: W, core: BridgeCore, id: u8, line: Line)
    ensures
        ({
            let (end, same, reply) = line_read(world, state, core, line);
            leads_to(
                world,
                (state, (core.at(Phase::Level { id }), Effect::ReadLine(line))),
                (end, same.answering(id, reply)),
            )
        }),
{
    let (end, same, reply) = line_read(world, state, core, line);
    leads_nowhere(world, end, same.answering(id, reply));
    leads_on(
        world,
        state,
        (core.at(Phase::Level { id }), Effect::ReadLine(line)),
        (end, same.answering(id, reply)),
    );
}

proof fn level_set_runs<W>(
    world: World<W>,
    state: W,
    core: BridgeCore,
    id: u8,
    change: Change,
    line: Line,
    now_ms: u64,
    trip_input_asserted: bool,
)
    ensures
        ({
            let (end, changed, reply) = level_set(
                world,
                state,
                core,
                change,
                line,
                now_ms,
                trip_input_asserted,
            );
            leads_to(
                world,
                (
                    state,
                    core.stepping(
                        Operation::Request(change).begin(now_ms, trip_input_asserted),
                        Goal::Report { id, line },
                    ),
                ),
                (end, changed.answering(id, reply)),
            )
        }),
{
    let goal = Goal::Report { id, line };
    let step = Operation::Request(change).begin(now_ms, trip_input_asserted);
    change_runs(world, state, core, change, now_ms, trip_input_asserted, goal);
    let (state1, changed, refusal) = change_requested(
        world,
        state,
        core,
        change,
        now_ms,
        trip_input_asserted,
    );
    if refusal is None {
        line_read_runs(world, state1, changed, id, line);
        let (state2, same, reply) = line_read(world, state1, changed, line);
        leads_through(
            world,
            (state, core.stepping(step, goal)),
            (state1, changed.applied(goal)),
            (state2, same.answering(id, reply)),
        );
    }
}

proof fn gpio_runs<W>(
    world: World<W>,
    state: W,
    core: BridgeCore,
    id: u8,
    command: u8,
    level: Option<bool>,
)
    ensures
        ({
            let (end, changed, reply) = gpio_answered(world, state, core, command, level);
            leads_to(
                world,
                (state, core.handling(id, Request::Gpio { command, level })),
                (end, changed.answering(id, reply)),
            )
        }),
{
    let (end, changed, reply) = gpio_answered(world, state, core, command, level);
    let target = (end, changed.answering(id, reply));
    let (state1, input) = world(state, Effect::Sample);
    let now_ms = input->now_ms;
    let trip = input->trip_input_asserted;
    match level {
        Some(level) => {
            let enable = Change::FiveVolt { enabled: level };
            level_set_runs(world, state1, core, id, enable, Line::FiveVolt, now_ms, trip);
            let reset = Change::AsicReset { asserted: !level };
            level_set_runs(world, state1, core, id, reset, Line::AsicReset, now_ms, trip);
        },
        None => {
            line_read_runs(world, state1, core, id, Line::FiveVolt);
            line_read_runs(world, state1, core, id, Line::AsicReset);
            line_read_runs(world, state1, core, id, Line::AsicTrip);
        },
    }
    leads_nowhere(
        world,
        state1,
        core.answering(id, Reply::Failed(CommandError::Invalid)),
    );
    leads_on(world, state, core.handling(id, Request::Gpio { command, level }), target);
}

proof fn system_runs<W>(world: World<W>, state: W, core: BridgeCore, id: u8, command: u8)
    ensures
        ({
            let (end, changed, reply) = system_answered(world, state, core, command);
            leads_to(
                world,
                (state, core.handling(id, Request::System { command })),
                (end, changed.answering(id, reply)),
            )
        }),
{
    let (end, changed, reply) = system_answered(world, state, core, command);
    let target = (end, changed.answering(id, reply));
    let start = core.handling(id, Request::System { command });
    leads_nowhere(world, target.0, target.1);
    if command == SYSTEM_GET_INFO || command == SYSTEM_GET_RX_STATS {
        leads_on(world, state, start, target);
    } else if command == SYSTEM_GET_SAFETY_STATUS {
        let (state1, input) = world(state, Effect::ReadMillis);
        leads_on(
            world,
            state1,
            (
                core.at(Phase::Encoded { id }),
                Effect::EncodeStatus { now_ms: input->Millis_0 },
            ),
            target,
        );
        leads_on(world, state, start, target);
    }
}

proof fn fan_set_runs<W>(world: World<W>, state: W, core: BridgeCore, id: u8, percent: u8)
    requires
        percent <= 100,
    ensures
        ({
            let request = Request::Fan { command: FAN_SET_SPEED, speed: Some(percent) };
            let (end, changed, reply) = answered(world, state, core, request);
            leads_to(
                world,
                (state, core.handling(id, request)),
                (end, changed.answering(id, reply)),
            )
        }),
{
    let request = Request::Fan { command: FAN_SET_SPEED, speed: Some(percent) };
    let (end, changed, reply) = answered(world, state, core, request);
    let (state1, input) = world(state, Effect::Sample);
    change_runs(
        world,
        state1,
        core,
        Change::Fan { percent },
        input->now_ms,
        input->trip_input_asserted,
        Goal::FanSet { id },
    );
    leads_on(world, state, core.handling(id, request), (end, changed.answering(id, reply)));
}

proof fn shutdown_runs<W>(world: World<W>, state: W, core: BridgeCore, id: u8)
    ensures
        ({
            let (end, changed, reply) = answered(world, state, core, Request::Shutdown);
            leads_to(
                world,
                (state, core.handling(id, Request::Shutdown)),
                (end, changed.answering(id, reply)),
            )
        }),
{
    let (end, changed, reply) = answered(world, state, core, Request::Shutdown);
    let goal = Goal::Shutdown { id };
    let released = core.with_owner(BridgeOwner::released());
    let (state1, owner) = made_safe(policy_in(world), state);
    law_fail_safe_makes_safe(policy_in(world), state);
    operation_runs(world, state, released, disarm_and_report(Ok(())), goal);
    assert(released.with_owner(owner) == core.with_owner(owner));
    application_runs(world, state1, core.with_owner(owner), goal);
    leads_through(
        world,
        (state, core.handling(id, Request::Shutdown)),
        (state1, core.with_owner(owner).applying(goal)),
        (end, changed.applied(goal)),
    );
}

/// Handling a request does what [`answered`] says.
pub proof fn law_request_is_answered<W>(
    world: World<W>,
    state: W,
    core: BridgeCore,
    id: u8,
    request: Request,
)
    requires
        !measures(request),
    ensures
        ({
            let (end, changed, reply) = answered(world, state, core, request);
            leads_to(
                world,
                (state, core.handling(id, request)),
                (end, changed.answering(id, reply)),
            )
        }),
{
    match request {
        Request::System { command } => system_runs(world, state, core, id, command),
        Request::Gpio { command, level } => gpio_runs(world, state, core, id, command, level),
        Request::Fan { command, speed } => {
            if command == FAN_SET_SPEED && speed is Some && speed->0 <= 100 {
                fan_set_runs(world, state, core, id, speed->0);
            } else {
                leads_nowhere(
                    world,
                    state,
                    core.answering(id, Reply::Failed(CommandError::Invalid)),
                );
            }
        },
        Request::Shutdown => shutdown_runs(world, state, core, id),
    }
}

/// A periodic event is one service pass.
pub proof fn law_periodic_service<W>(world: World<W>, state: W, core: BridgeCore)
    requires
        world(state, Effect::AwaitEvent).1 is Tick,
    ensures
        ({
            let woken = world(state, Effect::AwaitEvent).0;
            let (end, changed) = safety_serviced(world, woken, core);
            leads_to(
                world,
                (state, (core.at(Phase::Idle), Effect::AwaitEvent)),
                (end, (changed.at(Phase::Idle), Effect::AwaitEvent)),
            )
        }),
{
    let woken = world(state, Effect::AwaitEvent).0;
    let (end, changed) = safety_serviced(world, woken, core);
    law_service_pass(world, woken, core, Job::Rest);
    leads_on(
        world,
        state,
        (core.at(Phase::Idle), Effect::AwaitEvent),
        (end, (changed.at(Phase::Idle), Effect::AwaitEvent)),
    );
}

/// One round of a measurement: a sample of the tachometer, a service pass where
/// that is due, and a pause.
pub open spec fn round_measured<W>(world: World<W>, state: W, core: BridgeCore, run: TachRun) -> (
    W,
    BridgeCore,
    TachRun,
) {
    let (state, input) = world(state, Effect::ReadLine(Line::FanTach));
    let sampled = run.sampled(input->Level_0);
    let (state, input) = world(state, Effect::CheckServiceDue { since_us: run.serviced_us });
    let (state, core, stamped) = if input->ServiceDue_0 {
        let (state, core) = safety_serviced(world, state, core);
        let (state, input) = world(state, Effect::ReadMicros);
        (state, core, TachRun { serviced_us: input->Micros_0, ..sampled })
    } else {
        (state, core, sampled)
    };
    (world(state, Effect::Pause).0, core, stamped)
}

/// The end of a measurement: a last service pass, and the speed for the pulses
/// that were counted.
pub open spec fn speed_evaluated<W>(world: World<W>, state: W, core: BridgeCore, pulses: u32) -> (
    W,
    BridgeCore,
    Reply,
) {
    let (state, core) = safety_serviced(world, state, core);
    let (state, input) = world(state, Effect::ConvertPulses { pulses });
    match input->Speed_0 {
        Some(speed) => (state, core, Reply::Word(speed)),
        None => (state, core, Reply::Failed(CommandError::Invalid)),
    }
}

/// A running measurement that ends within `rounds` rounds.
pub open spec fn run_measured<W>(
    world: World<W>,
    state: W,
    core: BridgeCore,
    run: TachRun,
    rounds: nat,
) -> Option<(W, BridgeCore, Reply)>
    decreases rounds,
{
    let (state, input) = world(state, Effect::ReadMicros);
    if run.over(input->Micros_0, core.tach_measurement_ms) {
        Some(speed_evaluated(world, state, core, run.pulses))
    } else if rounds == 0 {
        None
    } else {
        let (state, core, run) = round_measured(world, state, core, run);
        run_measured(world, state, core, run, (rounds - 1) as nat)
    }
}

/// The start of a measurement.
pub open spec fn measurement_begun<W>(world: World<W>, state: W, id: u8) -> (W, TachRun) {
    let (state, input) = world(state, Effect::BeginTach);
    let run = TachRun {
        id,
        start_us: input->start_us,
        serviced_us: input->serviced_us,
        level: input->level,
        pulses: 0,
    };
    (state, run)
}

/// A whole measurement that ends within `rounds` rounds.
pub open spec fn fan_measured<W>(
    world: World<W>,
    state: W,
    core: BridgeCore,
    id: u8,
    rounds: nat,
) -> Option<(W, BridgeCore, Reply)> {
    let (state, run) = measurement_begun(world, state, id);
    run_measured(world, state, core, run, rounds)
}

proof fn round_runs<W>(world: World<W>, state: W, core: BridgeCore, run: TachRun)
    ensures
        ({
            let (end, changed, stamped) = round_measured(world, state, core, run);
            leads_to(
                world,
                (
                    state,
                    (core.at(Phase::TachLevel { run }), Effect::ReadLine(Line::FanTach)),
                ),
                (end, (changed.at(Phase::TachClock { run: stamped }), Effect::ReadMicros)),
            )
        }),
{
    let (end, changed, stamped) = round_measured(world, state, core, run);
    let target = (end, (changed.at(Phase::TachClock { run: stamped }), Effect::ReadMicros));
    let (state1, level) = world(state, Effect::ReadLine(Line::FanTach));
    let sampled = run.sampled(level->Level_0);
    let check = Effect::CheckServiceDue { since_us: run.serviced_us };
    let (state2, due) = world(state1, check);
    leads_nowhere(world, target.0, target.1);
    if due->ServiceDue_0 {
        let (state3, core3) = safety_serviced(world, state2, core);
        let state4 = world(state3, Effect::ReadMicros).0;
        leads_on(
            world,
            state4,
            (core3.at(Phase::TachPause { run: stamped }), Effect::Pause),
            target,
        );
        leads_on(world, state3, core3.resting(Job::Measure(sampled)), target);
        law_service_pass(world, state2, core, Job::Measure(sampled));
        leads_through(
            world,
            (state2, core.servicing(Job::Measure(sampled))),
            (state3, core3.resting(Job::Measure(sampled))),
            target,
        );
    } else {
        leads_on(
            world,
            state2,
            (core.at(Phase::TachPause { run: sampled }), Effect::Pause),
            target,
        );
    }
    leads_on(world, state1, (core.at(Phase::TachDue { run: sampled }), check), target);
    leads_on(
        world,
        state,
        (core.at(Phase::TachLevel { run }), Effect::ReadLine(Line::FanTach)),
        target,
    );
}

proof fn evaluation_runs<W>(world: World<W>, state: W, core: BridgeCore, id: u8, pulses: u32)
    ensures
        ({
            let (end, changed, reply) = speed_evaluated(world, state, core, pulses);
            leads_to(
                world,
                (state, core.servicing(Job::Evaluate { id, pulses })),
                (end, changed.answering(id, reply)),
            )
        }),
{
    let (end, changed, reply) = speed_evaluated(world, state, core, pulses);
    let target = (end, changed.answering(id, reply));
    let job = Job::Evaluate { id, pulses };
    let (state1, core1) = safety_serviced(world, state, core);
    law_service_pass(world, state, core, job);
    leads_nowhere(world, target.0, target.1);
    leads_on(world, state1, core1.resting(job), target);
    leads_through(
        world,
        (state, core.servicing(job)),
        (state1, core1.resting(job)),
        target,
    );
}

proof fn run_runs<W>(world: World<W>, state: W, core: BridgeCore, run: TachRun, rounds: nat)
    requires
        run_measured(world, state, core, run, rounds) is Some,
    ensures
        ({
            let (end, changed, reply) = run_measured(world, state, core, run, rounds)->0;
            leads_to(
                world,
                (state, (core.at(Phase::TachClock { run }), Effect::ReadMicros)),
                (end, changed.answering(run.id, reply)),
            )
        }),
    decreases rounds,
{
    let (end, changed, reply) = run_measured(world, state, core, run, rounds)->0;
    let target = (end, changed.answering(run.id, reply));
    let (state1, input) = world(state, Effect::ReadMicros);
    if run.over(input->Micros_0, core.tach_measurement_ms) {
        evaluation_runs(world, state1, core, run.id, run.pulses);
    } else {
        let (state2, core2, next) = round_measured(world, state1, core, run);
        round_runs(world, state1, core, run);
        run_runs(world, state2, core2, next, (rounds - 1) as nat);
        leads_through(
            world,
            (state1, (core.at(Phase::TachLevel { run }), Effect::ReadLine(Line::FanTach))),
            (state2, (core2.at(Phase::TachClock { run: next }), Effect::ReadMicros)),
            target,
        );
    }
    leads_on(world, state, (core.at(Phase::TachClock { run }), Effect::ReadMicros), target);
}

/// A fan speed request does what [`fan_measured`] says, however many rounds the
/// measurement takes.
pub proof fn law_measurement_is_answered<W>(
    world: World<W>,
    state: W,
    core: BridgeCore,
    id: u8,
    request: Request,
    rounds: nat,
)
    requires
        measures(request),
        fan_measured(world, state, core, id, rounds) is Some,
    ensures
        ({
            let (end, changed, reply) = fan_measured(world, state, core, id, rounds)->0;
            leads_to(
                world,
                (state, core.handling(id, request)),
                (end, changed.answering(id, reply)),
            )
        }),
{
    let (end, changed, reply) = fan_measured(world, state, core, id, rounds)->0;
    let (state1, run) = measurement_begun(world, state, id);
    run_runs(world, state1, core, run, rounds);
    leads_on(world, state, core.handling(id, request), (end, changed.answering(id, reply)));
}

/// What any request does and is answered, where a measurement ends within `rounds`
/// rounds.
pub open spec fn outcome<W>(
    world: World<W>,
    state: W,
    core: BridgeCore,
    envelope: RequestEnvelope,
    rounds: nat,
) -> Option<(W, BridgeCore, Reply)> {
    if measures(envelope.request) {
        fan_measured(world, state, core, envelope.id, rounds)
    } else {
        Some(answered(world, state, core, envelope.request))
    }
}

/// From the arrival of a request to its reply: a service pass, the request itself,
/// another service pass, and only then the reply, with the identifier of the
/// request. After that the bridge waits for the next event.
pub proof fn law_request_exchange<W>(
    world: World<W>,
    state: W,
    core: BridgeCore,
    envelope: RequestEnvelope,
    rounds: nat,
)
    requires
        world(state, Effect::AwaitEvent).1 == Input::Request(envelope),
        ({
            let arrived = world(state, Effect::AwaitEvent).0;
            let (before, core1) = safety_serviced(world, arrived, core);
            outcome(world, before, core1, envelope, rounds) is Some
        }),
    ensures
        ({
            let arrived = world(state, Effect::AwaitEvent).0;
            let (before, core1) = safety_serviced(world, arrived, core);
            let (handled, core2, reply) = outcome(world, before, core1, envelope, rounds)->0;
            let (after, core3) = safety_serviced(world, handled, core2);
            let send = Effect::SendReply { id: envelope.id, reply };
            let sent = world(after, send).0;
            &&& leads_to(
                world,
                (state, (core.at(Phase::Idle), Effect::AwaitEvent)),
                (after, (core3.at(Phase::Sending), send)),
            )
            &&& leads_to(
                world,
                (after, (core3.at(Phase::Sending), send)),
                (sent, (core3.at(Phase::Idle), Effect::AwaitEvent)),
            )
        }),
{
    let arrived = world(state, Effect::AwaitEvent).0;
    let (before, core1) = safety_serviced(world, arrived, core);
    let (handled, core2, reply) = outcome(world, before, core1, envelope, rounds)->0;
    let (after, core3) = safety_serviced(world, handled, core2);
    let send = Effect::SendReply { id: envelope.id, reply };
    let sent = world(after, send).0;
    let ready = (after, (core3.at(Phase::Sending), send));
    law_service_pass(world, handled, core2, Job::Answer { id: envelope.id, reply });
    if measures(envelope.request) {
        law_measurement_is_answered(
            world,
            before,
            core1,
            envelope.id,
            envelope.request,
            rounds,
        );
    } else {
        law_request_is_answered(world, before, core1, envelope.id, envelope.request);
    }
    leads_through(
        world,
        (before, core1.handling(envelope.id, envelope.request)),
        (handled, core2.answering(envelope.id, reply)),
        ready,
    );
    law_service_pass(world, arrived, core, Job::Handle(envelope));
    leads_through(
        world,
        (arrived, core.servicing(Job::Handle(envelope))),
        (before, core1.handling(envelope.id, envelope.request)),
        ready,
    );
    leads_on(world, state, (core.at(Phase::Idle), Effect::AwaitEvent), ready);
    leads_nowhere(world, sent, (core3.at(Phase::Idle), Effect::AwaitEvent));
    leads_on(world, after, ready.1, (sent, (core3.at(Phase::Idle), Effect::AwaitEvent)));
}

/// How often a line that starts at `level` goes from low to high in `samples`.
pub open spec fn rising_edges(level: bool, samples: Seq<bool>) -> nat
    decreases samples.len(),
{
    if samples.len() == 0 {
        0
    } else {
        (if samples[0] && !level {
            1nat
        } else {
            0nat
        }) + rising_edges(samples[0], samples.drop_first())
    }
}

/// The rounds of a measurement that ends within `rounds` rounds: what they leave
/// behind, and the levels of the tachometer that they read.
pub open spec fn rounds_sampled<W>(
    world: World<W>,
    state: W,
    core: BridgeCore,
    run: TachRun,
    rounds: nat,
) -> (W, BridgeCore, Seq<bool>)
    decreases rounds,
{
    let (state, input) = world(state, Effect::ReadMicros);
    if run.over(input->Micros_0, core.tach_measurement_ms) || rounds == 0 {
        (state, core, Seq::empty())
    } else {
        let level = world(state, Effect::ReadLine(Line::FanTach)).1->Level_0;
        let (state, core, run) = round_measured(world, state, core, run);
        let (state, core, levels) = rounds_sampled(
            world,
            state,
            core,
            run,
            (rounds - 1) as nat,
        );
        (state, core, seq![level] + levels)
    }
}

/// A running measurement adds exactly the rising edges of the tachometer levels
/// that it reads, and evaluates the sum.
pub proof fn law_run_counts_rising_edges<W>(
    world: World<W>,
    state: W,
    core: BridgeCore,
    run: TachRun,
    rounds: nat,
)
    requires
        run_measured(world, state, core, run, rounds) is Some,
        run.pulses + rising_edges(
            run.level,
            rounds_sampled(world, state, core, run, rounds).2,
        ) <= u32::MAX,
    ensures
        ({
            let (end, kept, levels) = rounds_sampled(world, state, core, run, rounds);
            let pulses = (run.pulses + rising_edges(run.level, levels)) as u32;
            run_measured(world, state, core, run, rounds) == Some(
                speed_evaluated(world, end, kept, pulses),
            )
        }),
    decreases rounds,
{
    let (state1, input) = world(state, Effect::ReadMicros);
    if !run.over(input->Micros_0, core.tach_measurement_ms) {
        let (state2, core2, next) = round_measured(world, state1, core, run);
        let rest = rounds_sampled(world, state2, core2, next, (rounds - 1) as nat).2;
        let levels = rounds_sampled(world, state, core, run, rounds).2;
        assert(levels.drop_first() =~= rest);
        law_run_counts_rising_edges(world, state2, core2, next, (rounds - 1) as nat);
    }
}

/// A fan speed request evaluates exactly the rising edges of the tachometer between
/// the level at its start and the last one that it reads.
pub proof fn law_measurement_counts_rising_edges<W>(
    world: World<W>,
    state: W,
    core: BridgeCore,
    id: u8,
    rounds: nat,
)
    requires
        fan_measured(world, state, core, id, rounds) is Some,
        ({
            let (begun, run) = measurement_begun(world, state, id);
            rising_edges(run.level, rounds_sampled(world, begun, core, run, rounds).2) <= u32::MAX
        }),
    ensures
        ({
            let (begun, run) = measurement_begun(world, state, id);
            let (end, kept, levels) = rounds_sampled(world, begun, core, run, rounds);
            fan_measured(world, state, core, id, rounds) == Some(
                speed_evaluated(world, end, kept, rising_edges(run.level, levels) as u32),
            )
        }),
{
    let (begun, run) = measurement_begun(world, state, id);
    law_run_counts_rising_edges(world, begun, core, run, rounds);
}

/// Whether safe outputs are on the board.
pub open spec fn shows_safe(core: BridgeCore) -> bool {
    core.applied_outputs matches Some(outputs) && outputs.is_safe()
}

/// After a service pass the board shows the outputs that the policy wanted in that
/// pass.
pub proof fn law_serviced_outputs_are_on_board<W>(world: World<W>, state: W, core: BridgeCore)
    ensures
        ({
            let (sampled, input) = world(state, Effect::Sample);
            let serviced = performed(
                policy_in(world),
                sampled,
                core.owner,
                Operation::Service,
                input->now_ms,
                input->trip_input_asserted,
            ).0;
            let wanted = world(serviced, Effect::Policy(PolicyCall::Outputs)).1->Policy_0->Outputs_0;
            safety_serviced(world, state, core).1.applied_outputs == Some(wanted)
        }),
{
}

/// A service pass in which advancing the policy leaves safe outputs puts them on the
/// board.
pub proof fn law_safe_tick_puts_safe_outputs_on_board<W>(
    world: World<W>,
    inv: spec_fn(W) -> bool,
    state: W,
    core: BridgeCore,
)
    requires
        keeps(policy_in(world), inv),
        stays_safe(policy_in(world), inv),
        inv(world(state, Effect::Sample).0),
        ({
            let (sampled, input) = world(state, Effect::Sample);
            let tick = PolicyCall::Tick {
                now_ms: input->now_ms,
                trip_input_asserted: input->trip_input_asserted,
            };
            wanted(policy_in(world), policy_in(world)(sampled, tick).0).is_safe()
        }),
    ensures
        shows_safe(safety_serviced(world, state, core).1),
{
    let (sampled, input) = world(state, Effect::Sample);
    law_safe_tick_makes_service_safe(
        policy_in(world),
        inv,
        sampled,
        core.owner,
        input->now_ms,
        input->trip_input_asserted,
    );
    law_serviced_outputs_are_on_board(world, state, core);
}

/// A service pass that sees the trip input puts safe outputs on the board, for a
/// policy that wants them after a trip.
pub proof fn law_trip_puts_safe_outputs_on_board<W>(
    world: World<W>,
    inv: spec_fn(W) -> bool,
    state: W,
    core: BridgeCore,
)
    requires
        keeps(policy_in(world), inv),
        stays_safe(policy_in(world), inv),
        latches_trips(policy_in(world), inv),
        inv(world(state, Effect::Sample).0),
        world(state, Effect::Sample).1->trip_input_asserted,
    ensures
        shows_safe(safety_serviced(world, state, core).1),
{
    law_safe_tick_puts_safe_outputs_on_board(world, inv, state, core);
}

/// A service pass after a missed lease puts safe outputs on the board, for a policy
/// that wants them once its lease is over.
pub proof fn law_missed_lease_puts_safe_outputs_on_board<W>(
    world: World<W>,
    inv: spec_fn(W) -> bool,
    expired: spec_fn(W, u64) -> bool,
    state: W,
    core: BridgeCore,
)
    requires
        keeps(policy_in(world), inv),
        stays_safe(policy_in(world), inv),
        latches_expiry(policy_in(world), inv, expired),
        inv(world(state, Effect::Sample).0),
        expired(world(state, Effect::Sample).0, world(state, Effect::Sample).1->now_ms),
    ensures
        shows_safe(safety_serviced(world, state, core).1),
{
    law_safe_tick_puts_safe_outputs_on_board(world, inv, state, core);
}

/// A granted change is on the board before it is answered. Switching 5 V off is left
/// out: it puts safe outputs on the board.
pub proof fn law_granted_change_is_on_board<W>(
    world: World<W>,
    state: W,
    core: BridgeCore,
    change: Change,
    now_ms: u64,
    trip_input_asserted: bool,
)
    requires
        honours_grants(policy_in(world)),
        reads_idly(policy_in(world)),
        change != (Change::FiveVolt { enabled: false }),
        change_requested(world, state, core, change, now_ms, trip_input_asserted).2 is None,
    ensures
        change_requested(
            world,
            state,
            core,
            change,
            now_ms,
            trip_input_asserted,
        ).1.applied_outputs matches Some(outputs) && change.met_by(outputs),
{
    law_granted_change_is_wanted(
        policy_in(world),
        state,
        core.owner,
        change,
        now_ms,
        trip_input_asserted,
    );
}

/// Whether the policy, once it wants safe outputs, goes on to want them as time
/// passes, and everything but the policy leaves them alone.
pub open spec fn rests_safely<W>(world: World<W>) -> bool {
    let policy = policy_in(world);
    &&& reads_idly(policy)
    &&& forall|state: W, call: PolicyCall|
        call is Tick && wanted(policy, state).is_safe() ==> wanted(
            policy,
            (#[trigger] policy(state, call)).0,
        ).is_safe()
    &&& forall|state: W, effect: Effect|
        effect !is Policy ==> wanted(policy, (#[trigger] world(state, effect)).0) == wanted(
            policy,
            state,
        )
}

/// Putting outputs on the board shows what the policy wants, and does not change it.
proof fn application_shows_wanted<W>(world: World<W>, state: W, core: BridgeCore)
    ensures
        outputs_applied(world, state, core).1.applied_outputs == Some(
            wanted(policy_in(world), state),
        ),
        outputs_applied(world, state, core).1.owner == core.owner,
        rests_safely(world) ==> wanted(
            policy_in(world),
            outputs_applied(world, state, core).0,
        ) == wanted(policy_in(world), state),
{
    let policy = policy_in(world);
    let next = policy(state, PolicyCall::Outputs).0;
    assert(next == world(state, Effect::Policy(PolicyCall::Outputs)).0);
}

/// A pass over a safe bridge without a lease keeps the board safe, or makes it so.
proof fn safe_bridge_is_serviced<W>(world: World<W>, state: W, core: BridgeCore)
    requires
        rests_safely(world),
        core.owner == BridgeOwner::released(),
        wanted(policy_in(world), state).is_safe(),
    ensures
        shows_safe(safety_serviced(world, state, core).1),
{
    owner_released();
    law_serviced_outputs_are_on_board(world, state, core);
}

/// Switching 5 V off puts safe outputs on the board: at once where the policy grants
/// it, and with the service pass before the reply in any case.
pub proof fn law_switching_off_puts_safe_outputs_on_board<W>(
    world: World<W>,
    state: W,
    core: BridgeCore,
)
    requires
        disarms_safely(policy_in(world)),
    ensures
        ({
            let (end, after, reply) = gpio_answered(
                world,
                state,
                core,
                GPIO_5V_ENABLE,
                Some(false),
            );
            &&& after.owner == BridgeOwner::released()
            &&& reply !is Failed ==> shows_safe(after)
            &&& rests_safely(world) ==> shows_safe(safety_serviced(world, end, after).1)
        }),
{
    let policy = policy_in(world);
    let (sampled, input) = world(state, Effect::Sample);
    let change = Change::FiveVolt { enabled: false };
    let (ended, owner, result) = performed(
        policy,
        sampled,
        core.owner,
        Operation::Request(change),
        input->now_ms,
        input->trip_input_asserted,
    );
    law_switching_off_makes_safe(
        policy,
        sampled,
        core.owner,
        input->now_ms,
        input->trip_input_asserted,
    );
    let kept = core.with_owner(owner);
    application_shows_wanted(world, ended, kept);
    let (end, after, reply) = gpio_answered(world, state, core, GPIO_5V_ENABLE, Some(false));
    if rests_safely(world) {
        safe_bridge_is_serviced(world, end, after);
    }
}

/// A refused change is followed by safe outputs on the board, with the service pass
/// before the reply.
pub proof fn law_refusal_puts_safe_outputs_on_board<W>(
    world: World<W>,
    state: W,
    core: BridgeCore,
    change: Change,
    now_ms: u64,
    trip_input_asserted: bool,
)
    requires
        disarms_safely(policy_in(world)),
        rests_safely(world),
        change_requested(world, state, core, change, now_ms, trip_input_asserted).2 is Some,
    ensures
        ({
            let (end, after, _) = change_requested(
                world,
                state,
                core,
                change,
                now_ms,
                trip_input_asserted,
            );
            shows_safe(safety_serviced(world, end, after).1)
        }),
{
    law_refused_request_makes_safe(
        policy_in(world),
        state,
        core.owner,
        change,
        now_ms,
        trip_input_asserted,
    );
    let (end, after, _) = change_requested(
        world,
        state,
        core,
        change,
        now_ms,
        trip_input_asserted,
    );
    safe_bridge_is_serviced(world, end, after);
}

/// The watchdog is fed only when the outputs that the policy last reported are on
/// the board.
pub proof fn law_watchdog_is_fed_after_outputs(manager: BridgeManager, input: Input)
    requires
        manager.advanced(input).1 is FeedWatchdog,
    ensures
        match manager.phase {
            Phase::Outputs { .. } => manager.advanced(input).0.core.applied_outputs == Some(
                input->Policy_0->Outputs_0,
            ),
            Phase::Actuate { stage, outputs, board, .. } => {
                &&& stage.next(board) is None
                &&& manager.advanced(input).0.core.applied_outputs == Some(outputs)
            },
            _ => false,
        },
{
}

/// The receiver is opened only for a board that may forward, after every other
/// output is set, and closed only for one that may not, before any other output is
/// touched.
pub proof fn law_receiver_switching_is_ordered(manager: BridgeManager, input: Input, open: bool)
    requires
        manager.advanced(input).1 == Effect::SetRxForwarding(open),
    ensures
        open ==> (manager.phase matches Phase::Actuate { stage, board, .. } && stage is Fan
            && board.forward_asic_rx),
        !open ==> manager.phase is Board && !input->Board_0.forward_asic_rx,
{
}

/// The request that a job still has to answer.
pub open spec fn job_owes(job: Job) -> Option<u8> {
    match job {
        Job::Rest => None,
        Job::Handle(envelope) => Some(envelope.id),
        Job::Answer { id, .. } => Some(id),
        Job::Measure(run) => Some(run.id),
        Job::Evaluate { id, .. } => Some(id),
    }
}

/// The request that a goal still has to answer.
pub open spec fn goal_owes(goal: Goal) -> Option<u8> {
    match goal {
        Goal::Serviced(job) => job_owes(job),
        Goal::Report { id, .. } => Some(id),
        Goal::FanSet { id } => Some(id),
        Goal::Shutdown { id } => Some(id),
    }
}

/// The request that the bridge still has to answer.
pub open spec fn owes(phase: Phase) -> Option<u8> {
    match phase {
        Phase::Idle | Phase::Sending => None,
        Phase::ServiceSample { job } => job_owes(job),
        Phase::Call { goal, .. } => goal_owes(goal),
        Phase::Outputs { goal } => goal_owes(goal),
        Phase::Board { goal, .. } => goal_owes(goal),
        Phase::Actuate { goal, .. } => goal_owes(goal),
        Phase::Feed { job } => job_owes(job),
        Phase::Info { id } => Some(id),
        Phase::Encoded { id } => Some(id),
        Phase::StatusClock { id } => Some(id),
        Phase::GpioSample { id, .. } => Some(id),
        Phase::Level { id } => Some(id),
        Phase::FanSample { id, .. } => Some(id),
        Phase::TachBegin { id } => Some(id),
        Phase::TachClock { run } => Some(run.id),
        Phase::TachLevel { run } => Some(run.id),
        Phase::TachDue { run } => Some(run.id),
        Phase::TachStamp { run } => Some(run.id),
        Phase::TachPause { run } => Some(run.id),
        Phase::TachSpeed { id } => Some(id),
    }
}

/// A request is owed its reply from its arrival until the reply is sent, and the
/// reply carries its identifier. No reply is sent that is not owed.
pub proof fn law_owed_reply_is_kept(manager: BridgeManager, input: Input)
    ensures
        ({
            let (next, effect) = manager.advanced(input);
            match effect {
                Effect::SendReply { id, .. } => owes(manager.phase) == Some(id) && owes(next.phase)
                    is None,
                _ => match (manager.phase, input) {
                    (Phase::Idle, Input::Request(envelope)) => owes(next.phase) == Some(
                        envelope.id,
                    ),
                    _ => owes(next.phase) == owes(manager.phase),
                },
            }
        }),
{
}

/// Whether the bridge knows what to do with a request.
pub open spec fn known(request: Request) -> bool {
    match request {
        Request::System { command } => {
            ||| command == SYSTEM_GET_INFO
            ||| command == SYSTEM_GET_RX_STATS
            ||| command == SYSTEM_GET_SAFETY_STATUS
        },
        Request::Gpio { command, level } => {
            ||| command == GPIO_5V_ENABLE
            ||| command == GPIO_ASIC_RESET
            ||| command == GPIO_ASIC_TRIP && level is None
        },
        Request::Fan { command, speed } => {
            ||| command == FAN_SET_SPEED && speed is Some && speed->0 <= 100
            ||| command == FAN_GET_TACH && speed is None
        },
        Request::Shutdown => true,
    }
}

/// An unknown request is answered with an error and changes nothing that the
/// bridge remembers.
pub proof fn law_unknown_request_is_refused<W>(
    world: World<W>,
    state: W,
    core: BridgeCore,
    request: Request,
)
    requires
        !known(request),
    ensures
        answered(world, state, core, request).1 == core,
        answered(world, state, core, request).2 == Reply::Failed(CommandError::Invalid),
{
}

/// Whether `input` has the shape that `effect` gives back.
pub open spec fn input_answers(input: Input, effect: Effect) -> bool {
    match effect {
        Effect::AwaitEvent => input is Request || input is Tick,
        Effect::Sample => input is Sample,
        Effect::Policy(call) => input is Policy && input->Policy_0.answers(call),
        Effect::DeriveBoard(_) => input is Board,
        Effect::SetRxForwarding(_)
        | Effect::SetFiveVolt(_)
        | Effect::SetAsicReset(_)
        | Effect::SetFan(_)
        | Effect::FeedWatchdog
        | Effect::Pause
        | Effect::SendReply { .. } => input is Done,
        Effect::ReadLine(_) => input is Level,
        Effect::EncodeInfo => input is Info,
        Effect::EncodeRxStats | Effect::EncodeStatus { .. } => input is Encoded,
        Effect::ReadMillis => input is Millis,
        Effect::BeginTach => input is TachBegun,
        Effect::ReadMicros => input is Micros,
        Effect::CheckServiceDue { .. } => input is ServiceDue,
        Effect::ConvertPulses { .. } => input is Speed,
    }
}

/// An input that has the shape of its effect can always be handed back, unless the
/// clock ran backwards or the pulses of a measurement can no longer be counted.
pub proof fn law_effects_are_coherent(manager: BridgeManager, input: Input, answer: Input)
    requires
        input_answers(answer, manager.advanced(input).1),
    ensures
        ({
            let phase = manager.advanced(input).0.phase;
            ||| phase.accepts(answer)
            ||| phase matches Phase::TachClock { run } && answer->Micros_0 < run.start_us
            ||| phase matches Phase::TachLevel { run } && run.pulses == u32::MAX
        }),
{
}

/// A shutdown gives up the lease, disarms the policy, and puts the outputs that the
/// policy then wants on the board: safe ones, where disarming makes the policy safe.
pub proof fn law_shutdown_makes_safe<W>(world: World<W>, state: W, core: BridgeCore)
    ensures
        ({
            let disarmed = world(state, Effect::Policy(PolicyCall::Disarm)).0;
            let wanted = world(disarmed, Effect::Policy(PolicyCall::Outputs)).1->Policy_0->Outputs_0;
            let (_, after, reply) = answered(world, state, core, Request::Shutdown);
            &&& after.owner == BridgeOwner::released()
            &&& after.applied_outputs == Some(wanted)
            &&& disarms_safely(policy_in(world)) ==> shows_safe(after)
            &&& reply is Empty
        }),
{
    application_shows_wanted(
        world,
        policy_in(world)(state, PolicyCall::Disarm).0,
        core.with_owner(BridgeOwner::released()),
    );
}

/// The lease bookkeeping of the bridge stays well formed.
pub proof fn law_bridge_keeps_well_formed(manager: BridgeManager, input: Input)
    requires
        manager.core.owner.well_formed(),
    ensures
        manager.advanced(input).0.core.owner.well_formed(),
{
    broadcast use owner_holding;

    owner_released();
}

} // verus!
