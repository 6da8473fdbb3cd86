//! What the board and the clients see of the bridge.
//!
//! The laws speak of the effects that the surroundings carry out and of what they
//! report back, for any surroundings.

use vstd::prelude::*;

use crate::bridge::{
    law_faults_are_told_from_denials, reported, CommandError, FanPwmConfig, Request,
    RequestEnvelope,
};
use crate::bridge_owner::{BridgeOwner, Change, Operation};
use crate::manager::{
    BridgeCore, BridgeManager, Effect, Input, Job, Line, Phase, Reply, TachRun,
};
use crate::manager_model::{
    answered, fan_measured, law_service_pass, leads_to, measurement_begun, measures, outcome,
    outputs_applied, policy_in, round_measured, run_measured, safety_serviced, speed_evaluated,
    World,
};
use crate::owner_laws::ran;
use crate::owner_model::{
    disarms_safely, honours_grants, keeps, law_granted_change_is_wanted,
    law_operation_is_performed, law_operation_keeps_policy_invariant, law_switching_off_makes_safe,
    reads_idly, wanted,
};
use crate::safety::{PolicyCall, SafetyOutputs};

verus! {

/// The policy is whatever the surroundings make of policy calls.
pub proof fn law_policy_is_asked_as_named<W>(world: World<W>, state: W, call: PolicyCall)
    ensures
        policy_in(world)(state, call).0 == world(state, Effect::Policy(call)).0,
        policy_in(world)(state, call).1 == world(state, Effect::Policy(call)).1->Policy_0,
{
}

/// Outputs that are on the board already are left alone. New ones are put there one
/// by one: the receiver is stopped before and started after all the others, the levels
/// are those of the board, and the fan gets its compare value in active-low settings.
pub proof fn law_new_outputs_are_put_on_the_board<W>(world: World<W>, state: W, core: BridgeCore)
    ensures
        ({
            let (asked, reply) = world(state, Effect::Policy(PolicyCall::Outputs));
            let outputs = reply->Policy_0->Outputs_0;
            let (derived, shape) = world(asked, Effect::DeriveBoard(outputs));
            let board = shape->Board_0;
            let fan = FanPwmConfig {
                top: 1000,
                compare_a: board.fan_compare,
                compare_b: 0,
                divider: 5,
                invert_a: true,
                phase_correct: false,
                enable: true,
            };
            let stopped = world(derived, Effect::SetRxForwarding(false)).0;
            let from = if board.forward_asic_rx {
                derived
            } else {
                stopped
            };
            let powered = world(from, Effect::SetFiveVolt(board.five_volt_enable_high)).0;
            let reset = world(powered, Effect::SetAsicReset(board.asic_reset_n_high)).0;
            let fanned = world(reset, Effect::SetFan(fan)).0;
            let started = world(fanned, Effect::SetRxForwarding(true)).0;
            let end = outputs_applied(world, state, core);
            &&& core.applied_outputs == Some(outputs) ==> end == (asked, core)
            &&& core.applied_outputs != Some(outputs) ==> {
                &&& end.0 == if board.forward_asic_rx {
                    started
                } else {
                    fanned
                }
                &&& end.1.applied_outputs == Some(outputs)
                &&& end.1.owner == core.owner
                &&& end.1.tach_measurement_ms == core.tach_measurement_ms
            }
        }),
{
}

/// A service pass samples the time and the trip input, runs a service of the owner on
/// just these, puts the outputs on the board, and feeds the watchdog once, at the end.
pub proof fn law_service_pass_feeds_last<W>(world: World<W>, state: W, core: BridgeCore)
    ensures
        ({
            let (sampled, input) = world(state, Effect::Sample);
            let (serviced, owner, _) = ran(
                policy_in(world),
                sampled,
                core.owner,
                Operation::Service,
                input->now_ms,
                input->trip_input_asserted,
            );
            let (applied, after) = outputs_applied(
                world,
                serviced,
                BridgeCore {
                    owner,
                    applied_outputs: core.applied_outputs,
                    tach_measurement_ms: core.tach_measurement_ms,
                },
            );
            safety_serviced(world, state, core) == (world(applied, Effect::FeedWatchdog).0, after)
        }),
{
    let (sampled, input) = world(state, Effect::Sample);
    law_operation_is_performed(
        policy_in(world),
        sampled,
        core.owner,
        Operation::Service,
        input->now_ms,
        input->trip_input_asserted,
    );
}

/// The bridge starts with one service pass, and then waits for an event.
pub proof fn law_bridge_starts_with_a_service<W>(world: World<W>, state: W, core: BridgeCore)
    ensures
        ({
            let (end, after) = safety_serviced(world, state, core);
            leads_to(
                world,
                (
                    state,
                    (
                        BridgeManager { core, phase: Phase::ServiceSample { job: Job::Rest } },
                        Effect::Sample,
                    ),
                ),
                (end, (BridgeManager { core: after, phase: Phase::Idle }, Effect::AwaitEvent)),
            )
        }),
{
    law_service_pass(world, state, core, Job::Rest);
}

/// The 5 V line is read by command 0x01, `RST_N` by 0x02 and the trip input by 0x03.
/// Each read is one look at that very line, answered with 1 for high and 0 for low, and
/// the bridge remembers nothing of it.
pub proof fn law_lines_are_read<W>(world: World<W>, state: W, core: BridgeCore, command: u8)
    requires
        1 <= command <= 3,
    ensures
        ({
            let sampled = world(state, Effect::Sample).0;
            let line = if command == 1 {
                Line::FiveVolt
            } else if command == 2 {
                Line::AsicReset
            } else {
                Line::AsicTrip
            };
            let (end, input) = world(sampled, Effect::ReadLine(line));
            answered(world, state, core, Request::Gpio { command, level: None }) == (
                end,
                core,
                Reply::Byte(
                    if input->Level_0 {
                        1
                    } else {
                        0
                    },
                ),
            )
        }),
{
}

/// Setting 5 V, by command 0x01, or `RST_N`, by 0x02, asks the owner for that change at
/// the sampled time; a low `RST_N` is an asserted reset. A granted change is put on the
/// board, and the answer is the level then read from that very line. A refusal is
/// reported as a fault or as a denial.
pub proof fn law_levels_are_set<W>(
    world: World<W>,
    state: W,
    core: BridgeCore,
    command: u8,
    level: bool,
)
    requires
        command == 1 || command == 2,
    ensures
        ({
            let (sampled, input) = world(state, Effect::Sample);
            let (change, line) = if command == 1 {
                (Change::FiveVolt { enabled: level }, Line::FiveVolt)
            } else {
                (Change::AsicReset { asserted: !level }, Line::AsicReset)
            };
            let (asked, owner, result) = ran(
                policy_in(world),
                sampled,
                core.owner,
                Operation::Request(change),
                input->now_ms,
                input->trip_input_asserted,
            );
            let kept = BridgeCore {
                owner,
                applied_outputs: core.applied_outputs,
                tach_measurement_ms: core.tach_measurement_ms,
            };
            let (applied, after) = outputs_applied(world, asked, kept);
            let (read, seen) = world(applied, Effect::ReadLine(line));
            let end = answered(world, state, core, Request::Gpio { command, level: Some(level) });
            match result {
                Ok(_) => end == (
                    read,
                    after,
                    Reply::Byte(
                        if seen->Level_0 {
                            1
                        } else {
                            0
                        },
                    ),
                ),
                Err(error) => end == (asked, kept, Reply::Failed(reported(error))),
            }
        }),
{
    let (sampled, input) = world(state, Effect::Sample);
    let change = if command == 1 {
        Change::FiveVolt { enabled: level }
    } else {
        Change::AsicReset { asserted: !level }
    };
    law_operation_is_performed(
        policy_in(world),
        sampled,
        core.owner,
        Operation::Request(change),
        input->now_ms,
        input->trip_input_asserted,
    );
}

/// Setting the fan, by command 0x10, asks the owner for that very target, from 0 to
/// 100 percent, at the sampled time. A granted target is put on the board and
/// acknowledged with a zero; a refusal is reported.
pub proof fn law_fan_target_is_set<W>(world: World<W>, state: W, core: BridgeCore, percent: u8)
    requires
        percent <= 100,
    ensures
        ({
            let (sampled, input) = world(state, Effect::Sample);
            let (asked, owner, result) = ran(
                policy_in(world),
                sampled,
                core.owner,
                Operation::Request(Change::Fan { percent }),
                input->now_ms,
                input->trip_input_asserted,
            );
            let kept = BridgeCore {
                owner,
                applied_outputs: core.applied_outputs,
                tach_measurement_ms: core.tach_measurement_ms,
            };
            let (applied, after) = outputs_applied(world, asked, kept);
            let end = answered(
                world,
                state,
                core,
                Request::Fan { command: 0x10, speed: Some(percent) },
            );
            match result {
                Ok(_) => end == (applied, after, Reply::Byte(0)),
                Err(error) => end == (asked, kept, Reply::Failed(reported(error))),
            }
        }),
{
    let (sampled, input) = world(state, Effect::Sample);
    law_operation_is_performed(
        policy_in(world),
        sampled,
        core.owner,
        Operation::Request(Change::Fan { percent }),
        input->now_ms,
        input->trip_input_asserted,
    );
}

/// A shutdown disarms the policy in one call, gives up the lease, puts the outputs on
/// the board, and is acknowledged with nothing.
pub proof fn law_shutdown_disarms<W>(world: World<W>, state: W, core: BridgeCore)
    ensures
        ({
            let disarmed = world(state, Effect::Policy(PolicyCall::Disarm)).0;
            let (applied, after) = outputs_applied(
                world,
                disarmed,
                BridgeCore {
                    owner: BridgeOwner::released(),
                    applied_outputs: core.applied_outputs,
                    tach_measurement_ms: core.tach_measurement_ms,
                },
            );
            answered(world, state, core, Request::Shutdown) == (applied, after, Reply::Empty)
        }),
{
}

/// The identity is asked for by 0x01, the overflow counters by 0x02 and the safety
/// status, as of the time just read, by 0x10. Each is answered with the payload that was
/// encoded for it; an identity that cannot be encoded is an invalid command.
pub proof fn law_diagnostics_are_answered<W>(world: World<W>, state: W, core: BridgeCore)
    ensures
        ({
            let (end, input) = world(state, Effect::EncodeInfo);
            answered(world, state, core, Request::System { command: 0x01 }) == (
                end,
                core,
                match input->Info_0 {
                    Ok(payload) => Reply::Encoded(payload),
                    Err(_) => Reply::Failed(CommandError::Invalid),
                },
            )
        }),
        ({
            let (end, input) = world(state, Effect::EncodeRxStats);
            answered(world, state, core, Request::System { command: 0x02 }) == (
                end,
                core,
                Reply::Encoded(input->Encoded_0),
            )
        }),
        ({
            let (timed, clock) = world(state, Effect::ReadMillis);
            let (end, input) = world(timed, Effect::EncodeStatus { now_ms: clock->Millis_0 });
            answered(world, state, core, Request::System { command: 0x10 }) == (
                end,
                core,
                Reply::Encoded(input->Encoded_0),
            )
        }),
{
}

/// Every other command is answered as invalid: nothing is asked of the policy, nothing
/// changes on the board, and the bridge remembers nothing of it.
pub proof fn law_other_commands_are_invalid<W>(
    world: World<W>,
    state: W,
    core: BridgeCore,
    request: Request,
)
    requires
        match request {
            Request::System { command } => command != 0x01 && command != 0x02 && command != 0x10,
            Request::Gpio { command, level } => command < 1 || command > 3 || command == 3 && level
                is Some,
            Request::Fan { command, speed } => match speed {
                Some(percent) => command != 0x10 || percent > 100,
                None => command != 0x20,
            },
            Request::Shutdown => false,
        },
    ensures
        answered(world, state, core, request) == (
            if request is Gpio {
                world(state, Effect::Sample).0
            } else {
                state
            },
            core,
            Reply::Failed(CommandError::Invalid),
        ),
{
}

/// Only command 0x20 without a speed measures; everything else is handled at once.
pub proof fn law_only_the_tachometer_is_measured<W>(
    world: World<W>,
    state: W,
    core: BridgeCore,
    envelope: RequestEnvelope,
    rounds: nat,
)
    ensures
        measures(envelope.request) <==> envelope.request == (Request::Fan {
            command: 0x20,
            speed: None,
        }),
        envelope.request == (Request::Fan { command: 0x20, speed: None }) ==> outcome(
            world,
            state,
            core,
            envelope,
            rounds,
        ) == fan_measured(world, state, core, envelope.id, rounds),
        envelope.request != (Request::Fan { command: 0x20, speed: None }) ==> outcome(
            world,
            state,
            core,
            envelope,
            rounds,
        ) == Some(answered(world, state, core, envelope.request)),
{
}

/// A measurement begins without pulses, at the time, the service and the level that
/// were just read.
pub proof fn law_measurement_begins_empty<W>(
    world: World<W>,
    state: W,
    core: BridgeCore,
    id: u8,
    rounds: nat,
)
    ensures
        ({
            let (begun, input) = world(state, Effect::BeginTach);
            let run = TachRun {
                id,
                start_us: input->start_us,
                serviced_us: input->serviced_us,
                level: input->level,
                pulses: 0,
            };
            &&& measurement_begun(world, state, id) == (begun, run)
            &&& fan_measured(world, state, core, id, rounds) == run_measured(
                world,
                begun,
                core,
                run,
                rounds,
            )
        }),
{
}

/// A measurement is evaluated at a clock reading exactly where the measurement time has
/// passed since its start, whatever was counted until then. Otherwise the tachometer is
/// sampled once more.
pub proof fn law_measurement_lasts_its_time(core: BridgeCore, run: TachRun, now_us: u64)
    ensures
        ({
            let manager = BridgeManager { core, phase: Phase::TachClock { run } };
            let (next, effect) = manager.advanced(Input::Micros(now_us));
            &&& next.core == core
            &&& now_us - run.start_us >= core.tach_measurement_ms * 1000 <==> next.phase == (
            Phase::ServiceSample { job: Job::Evaluate { id: run.id, pulses: run.pulses } })
            &&& now_us - run.start_us >= core.tach_measurement_ms * 1000 <==> effect is Sample
            &&& now_us - run.start_us < core.tach_measurement_ms * 1000 <==> next.phase == (
            Phase::TachLevel { run })
            &&& now_us - run.start_us < core.tach_measurement_ms * 1000 <==> effect
                == Effect::ReadLine(Line::FanTach)
        }),
{
}

/// A round of a measurement reads the tachometer once and counts one more pulse exactly
/// where it went from low to high. The bridge is serviced where that is due since the
/// last service, and the time of it noted; then follows a pause.
pub proof fn law_round_counts_a_rising_edge<W>(
    world: World<W>,
    state: W,
    core: BridgeCore,
    run: TachRun,
)
    requires
        run.pulses < u32::MAX,
    ensures
        ({
            let (read, seen) = world(state, Effect::ReadLine(Line::FanTach));
            let (checked, due) = world(read, Effect::CheckServiceDue { since_us: run.serviced_us });
            let (serviced, after) = safety_serviced(world, checked, core);
            let (stamped, clock) = world(serviced, Effect::ReadMicros);
            let (end, kept, next) = round_measured(world, state, core, run);
            &&& next.id == run.id && next.start_us == run.start_us
            &&& next.level == seen->Level_0
            &&& seen->Level_0 && !run.level ==> next.pulses == run.pulses + 1
            &&& !seen->Level_0 || run.level ==> next.pulses == run.pulses
            &&& due->ServiceDue_0 ==> {
                &&& end == world(stamped, Effect::Pause).0
                &&& kept == after
                &&& next.serviced_us == clock->Micros_0
            }
            &&& !due->ServiceDue_0 ==> {
                &&& end == world(checked, Effect::Pause).0
                &&& kept == core
                &&& next.serviced_us == run.serviced_us
            }
        }),
{
}

/// A measurement ends with a service pass and the conversion of all its pulses; a speed
/// is the answer, and pulses that give none are an invalid command.
pub proof fn law_all_pulses_are_converted<W>(
    world: World<W>,
    state: W,
    core: BridgeCore,
    pulses: u32,
)
    ensures
        ({
            let (serviced, after) = safety_serviced(world, state, core);
            let (end, input) = world(serviced, Effect::ConvertPulses { pulses });
            speed_evaluated(world, state, core, pulses) == (
                end,
                after,
                match input->Speed_0 {
                    Some(speed) => Reply::Word(speed),
                    None => Reply::Failed(CommandError::Invalid),
                },
            )
        }),
{
}

/// What `count` rounds of a measurement leave behind, whatever the clock says.
pub open spec fn rounds_run<W>(
    world: World<W>,
    state: W,
    core: BridgeCore,
    run: TachRun,
    count: nat,
) -> (W, BridgeCore, TachRun)
    decreases count,
{
    if count == 0 {
        (state, core, run)
    } else {
        let timed = world(state, Effect::ReadMicros).0;
        let (state, core, run) = round_measured(world, timed, core, run);
        rounds_run(world, state, core, run, (count - 1) as nat)
    }
}

/// The clock reading after `count` rounds.
pub open spec fn reading_after<W>(
    world: World<W>,
    state: W,
    core: BridgeCore,
    run: TachRun,
    count: nat,
) -> u64 {
    world(rounds_run(world, state, core, run, count).0, Effect::ReadMicros).1->Micros_0
}

proof fn round_keeps_its_time<W>(world: World<W>, state: W, core: BridgeCore, run: TachRun)
    ensures
        round_measured(world, state, core, run).1.tach_measurement_ms == core.tach_measurement_ms,
        round_measured(world, state, core, run).2.start_us == run.start_us,
{
}

/// A measurement is evaluated at the first clock reading that is at least the
/// measurement time after its start: with the pulses of all rounds before it, and not
/// sooner or later.
pub proof fn law_measurement_ends_at_the_first_late_reading<W>(
    world: World<W>,
    state: W,
    core: BridgeCore,
    run: TachRun,
    last: nat,
    rounds: nat,
)
    requires
        last <= rounds,
        reading_after(world, state, core, run, last) - run.start_us >= core.tach_measurement_ms
            * 1000,
        forall|count: nat|
            count < last ==> (#[trigger] reading_after(world, state, core, run, count))
                - run.start_us < core.tach_measurement_ms * 1000,
    ensures
        ({
            let (before, kept, end) = rounds_run(world, state, core, run, last);
            let timed = world(before, Effect::ReadMicros).0;
            run_measured(world, state, core, run, rounds) == Some(
                speed_evaluated(world, timed, kept, end.pulses),
            )
        }),
    decreases last,
{
    if last > 0 {
        assert(reading_after(world, state, core, run, 0) - run.start_us < core.tach_measurement_ms
            * 1000);
        let timed = world(state, Effect::ReadMicros).0;
        let (next, kept, sampled) = round_measured(world, timed, core, run);
        round_keeps_its_time(world, timed, core, run);
        assert forall|count: nat| count < last - 1 implies (#[trigger] reading_after(
            world,
            next,
            kept,
            sampled,
            count,
        )) - sampled.start_us < kept.tach_measurement_ms * 1000 by {
            assert(reading_after(world, state, core, run, count + 1) == reading_after(
                world,
                next,
                kept,
                sampled,
                count,
            ));
        }
        law_measurement_ends_at_the_first_late_reading(
            world,
            next,
            kept,
            sampled,
            (last - 1) as nat,
            (rounds - 1) as nat,
        );
    }
}

/// While no clock reading is that late the measurement goes on.
pub proof fn law_measurement_goes_on_until_then<W>(
    world: World<W>,
    state: W,
    core: BridgeCore,
    run: TachRun,
    rounds: nat,
)
    requires
        forall|count: nat|
            count <= rounds ==> (#[trigger] reading_after(world, state, core, run, count))
                - run.start_us < core.tach_measurement_ms * 1000,
    ensures
        run_measured(world, state, core, run, rounds) is None,
    decreases rounds,
{
    assert(reading_after(world, state, core, run, 0) - run.start_us < core.tach_measurement_ms
        * 1000);
    if rounds > 0 {
        let timed = world(state, Effect::ReadMicros).0;
        let (next, kept, sampled) = round_measured(world, timed, core, run);
        round_keeps_its_time(world, timed, core, run);
        assert forall|count: nat| count <= rounds - 1 implies (#[trigger] reading_after(
            world,
            next,
            kept,
            sampled,
            count,
        )) - sampled.start_us < kept.tach_measurement_ms * 1000 by {
            assert(reading_after(world, state, core, run, count + 1) == reading_after(
                world,
                next,
                kept,
                sampled,
                count,
            ));
        }
        law_measurement_goes_on_until_then(world, next, kept, sampled, (rounds - 1) as nat);
    }
}

/// What is waited for after a step is exactly what its effect gives back; only a clock
/// that ran backwards and a pulse too many are refused.
pub proof fn law_effects_wait_for_their_inputs(manager: BridgeManager, input: Input, answer: Input)
    ensures
        ({
            let (next, effect) = manager.advanced(input);
            let shaped = match effect {
                Effect::AwaitEvent => answer is Request || answer is Tick,
                Effect::Sample => answer is Sample,
                Effect::Policy(call) => answer is Policy && match call {
                    PolicyCall::Tick { .. } | PolicyCall::Disarm => answer->Policy_0 is Done,
                    PolicyCall::State { .. } => answer->Policy_0 is State,
                    PolicyCall::Outputs => answer->Policy_0 is Outputs,
                    _ => answer->Policy_0 is Outcome,
                },
                Effect::DeriveBoard(_) => answer is Board,
                Effect::ReadLine(_) => answer is Level,
                Effect::EncodeInfo => answer is Info,
                Effect::EncodeRxStats | Effect::EncodeStatus { .. } => answer is Encoded,
                Effect::ReadMillis => answer is Millis,
                Effect::BeginTach => answer is TachBegun,
                Effect::ReadMicros => answer is Micros,
                Effect::CheckServiceDue { .. } => answer is ServiceDue,
                Effect::ConvertPulses { .. } => answer is Speed,
                _ => answer is Done,
            };
            let refused = match next.phase {
                Phase::TachClock { run } => answer is Micros && answer->Micros_0 < run.start_us,
                Phase::TachLevel { run } => answer is Level && answer->Level_0 && !run.level
                    && run.pulses == u32::MAX,
                _ => false,
            };
            next.phase.accepts(answer) <==> shaped && !refused
        }),
{
}

/// The levels that are driven on the board.
pub struct Lines {
    pub five_volt: bool,
    pub reset_n: bool,
}

/// Whether a board is wired as its lines are named: a line that is read shows the level
/// that was last driven on it, the trip line shows the trip input, and nothing else
/// drives them.
pub open spec fn wired<W>(
    world: World<W>,
    lines: spec_fn(W) -> Lines,
    trip: spec_fn(W) -> bool,
) -> bool {
    &&& forall|state: W, effect: Effect|
        lines((#[trigger] world(state, effect)).0) == match effect {
            Effect::SetFiveVolt(level) => Lines { five_volt: level, ..lines(state) },
            Effect::SetAsicReset(level) => Lines { reset_n: level, ..lines(state) },
            _ => lines(state),
        }
    &&& forall|state: W|
        (#[trigger] world(state, Effect::ReadLine(Line::FiveVolt))).1 == Input::Level(
            lines(state).five_volt,
        )
    &&& forall|state: W|
        (#[trigger] world(state, Effect::ReadLine(Line::AsicReset))).1 == Input::Level(
            lines(state).reset_n,
        )
    &&& forall|state: W|
        (#[trigger] world(state, Effect::ReadLine(Line::AsicTrip))).1 == Input::Level(trip(state))
}

/// On a wired board a read of 5 V is answered with the level last driven on the rail, a
/// read of the reset with that of `RST_N`, and a read of the trip input with it.
pub proof fn law_reads_show_the_driven_levels<W>(
    world: World<W>,
    lines: spec_fn(W) -> Lines,
    trip: spec_fn(W) -> bool,
    state: W,
    core: BridgeCore,
)
    requires
        wired(world, lines, trip),
    ensures
        ({
            let reply = answered(world, state, core, Request::Gpio { command: 1, level: None }).2;
            reply is Byte && reply->Byte_0 <= 1 && (reply->Byte_0 == 1 <==> lines(state).five_volt)
        }),
        ({
            let reply = answered(world, state, core, Request::Gpio { command: 2, level: None }).2;
            reply is Byte && reply->Byte_0 <= 1 && (reply->Byte_0 == 1 <==> lines(state).reset_n)
        }),
        ({
            let reply = answered(world, state, core, Request::Gpio { command: 3, level: None }).2;
            reply is Byte && reply->Byte_0 <= 1 && (reply->Byte_0 == 1 <==> trip(
                world(state, Effect::Sample).0,
            ))
        }),
{
    law_lines_are_read(world, state, core, 1);
    law_lines_are_read(world, state, core, 2);
    law_lines_are_read(world, state, core, 3);
}

/// Whether the board shows outputs as they are named: 5 V high for an enabled rail, and
/// `RST_N` low for an asserted reset.
pub open spec fn shows_outputs<W>(world: World<W>) -> bool {
    forall|state: W, outputs: SafetyOutputs|
        ({
            let input = (#[trigger] world(state, Effect::DeriveBoard(outputs))).1;
            &&& input->Board_0.five_volt_enable_high == outputs.five_volt_enabled
            &&& input->Board_0.asic_reset_n_high == !outputs.asic_reset_asserted
        })
}

/// Whether the levels on the board are those of the outputs that were last put there.
pub open spec fn tracks(lines: Lines, core: BridgeCore) -> bool {
    core.applied_outputs matches Some(outputs) ==> {
        &&& lines.five_volt == outputs.five_volt_enabled
        &&& lines.reset_n == !outputs.asic_reset_asserted
    }
}

/// Putting outputs on a wired board makes its levels those that the policy wants, and
/// they stay so while nothing changes.
pub proof fn law_levels_follow_the_outputs<W>(
    world: World<W>,
    lines: spec_fn(W) -> Lines,
    trip: spec_fn(W) -> bool,
    state: W,
    core: BridgeCore,
)
    requires
        wired(world, lines, trip),
        shows_outputs(world),
        tracks(lines(state), core),
    ensures
        ({
            let outputs = wanted(policy_in(world), state);
            let (end, after) = outputs_applied(world, state, core);
            &&& tracks(lines(end), after)
            &&& lines(end).five_volt == outputs.five_volt_enabled
            &&& lines(end).reset_n == !outputs.asic_reset_asserted
        }),
{
    law_new_outputs_are_put_on_the_board(world, state, core);
}

proof fn policy_leaves_lines<W>(
    world: World<W>,
    lines: spec_fn(W) -> Lines,
    trip: spec_fn(W) -> bool,
    state: W,
    owner: BridgeOwner,
    operation: Operation,
    now_ms: u64,
    trip_input_asserted: bool,
)
    requires
        wired(world, lines, trip),
    ensures
        lines(
            ran(policy_in(world), state, owner, operation, now_ms, trip_input_asserted).0,
        ) == lines(state),
{
    let policy = policy_in(world);
    let driven = lines(state);
    let inv = |next: W| lines(next) == driven;
    assert(keeps(policy, inv)) by {
        assert forall|next: W, call: PolicyCall| inv(next) implies inv(
            (#[trigger] policy(next, call)).0,
        ) by {
            assert(policy(next, call).0 == world(next, Effect::Policy(call)).0);
        }
    }
    law_operation_is_performed(policy, state, owner, operation, now_ms, trip_input_asserted);
    law_operation_keeps_policy_invariant(
        policy,
        inv,
        state,
        owner,
        operation,
        now_ms,
        trip_input_asserted,
    );
}

/// A service pass leaves a wired board with the levels of its outputs.
pub proof fn law_service_keeps_levels_in_step<W>(
    world: World<W>,
    lines: spec_fn(W) -> Lines,
    trip: spec_fn(W) -> bool,
    state: W,
    core: BridgeCore,
)
    requires
        wired(world, lines, trip),
        shows_outputs(world),
        tracks(lines(state), core),
    ensures
        ({
            let (end, after) = safety_serviced(world, state, core);
            tracks(lines(end), after)
        }),
{
    let (sampled, input) = world(state, Effect::Sample);
    let policy = policy_in(world);
    let now_ms = input->now_ms;
    let asserted = input->trip_input_asserted;
    law_service_pass_feeds_last(world, state, core);
    policy_leaves_lines(
        world,
        lines,
        trip,
        sampled,
        core.owner,
        Operation::Service,
        now_ms,
        asserted,
    );
    let (serviced, owner, _) = ran(
        policy,
        sampled,
        core.owner,
        Operation::Service,
        now_ms,
        asserted,
    );
    let kept = BridgeCore {
        owner,
        applied_outputs: core.applied_outputs,
        tach_measurement_ms: core.tach_measurement_ms,
    };
    law_levels_follow_the_outputs(world, lines, trip, serviced, kept);
}

/// A level that was set is read back: on a wired board, whatever a granted set was
/// answered is what the next read of the same line is answered.
pub proof fn law_set_level_is_read_back<W>(
    world: World<W>,
    lines: spec_fn(W) -> Lines,
    trip: spec_fn(W) -> bool,
    state: W,
    core: BridgeCore,
    command: u8,
    level: bool,
)
    requires
        wired(world, lines, trip),
        command == 1 || command == 2,
        answered(world, state, core, Request::Gpio { command, level: Some(level) }).2 !is Failed,
    ensures
        ({
            let (end, after, reply) = answered(
                world,
                state,
                core,
                Request::Gpio { command, level: Some(level) },
            );
            &&& answered(world, end, after, Request::Gpio { command, level: None }).2 == reply
            &&& reply is Byte && (reply->Byte_0 == 1 <==> if command == 1 {
                lines(end).five_volt
            } else {
                lines(end).reset_n
            })
        }),
{
    let (end, after, _) = answered(
        world,
        state,
        core,
        Request::Gpio { command, level: Some(level) },
    );
    law_levels_are_set(world, state, core, command, level);
    law_lines_are_read(world, end, after, command);
}

/// What a client sets is what it gets: on a wired board with a policy that wants what it
/// grants, a set of 5 V or of `RST_N` that is granted is answered with the level that
/// was asked for, that level is on the line, and it is read back.
pub proof fn law_granted_level_is_on_the_line<W>(
    world: World<W>,
    lines: spec_fn(W) -> Lines,
    trip: spec_fn(W) -> bool,
    state: W,
    core: BridgeCore,
    command: u8,
    level: bool,
)
    requires
        wired(world, lines, trip),
        shows_outputs(world),
        tracks(lines(state), core),
        honours_grants(policy_in(world)),
        reads_idly(policy_in(world)),
        disarms_safely(policy_in(world)),
        command == 1 || command == 2,
        answered(world, state, core, Request::Gpio { command, level: Some(level) }).2 !is Failed,
    ensures
        ({
            let (end, after, reply) = answered(
                world,
                state,
                core,
                Request::Gpio { command, level: Some(level) },
            );
            let read = answered(world, end, after, Request::Gpio { command, level: None }).2;
            &&& command == 1 ==> lines(end).five_volt == level
            &&& command == 2 ==> lines(end).reset_n == level
            &&& reply is Byte && reply->Byte_0 <= 1 && (reply->Byte_0 == 1 <==> level)
            &&& read == reply
        }),
{
    let policy = policy_in(world);
    let (sampled, input) = world(state, Effect::Sample);
    let now_ms = input->now_ms;
    let asserted = input->trip_input_asserted;
    let change = if command == 1 {
        Change::FiveVolt { enabled: level }
    } else {
        Change::AsicReset { asserted: !level }
    };
    let operation = Operation::Request(change);
    law_levels_are_set(world, state, core, command, level);
    law_set_level_is_read_back(world, lines, trip, state, core, command, level);
    law_operation_is_performed(policy, sampled, core.owner, operation, now_ms, asserted);
    policy_leaves_lines(world, lines, trip, sampled, core.owner, operation, now_ms, asserted);
    let (asked, owner, result) = ran(policy, sampled, core.owner, operation, now_ms, asserted);
    let kept = BridgeCore {
        owner,
        applied_outputs: core.applied_outputs,
        tach_measurement_ms: core.tach_measurement_ms,
    };
    law_levels_follow_the_outputs(world, lines, trip, asked, kept);
    if change == (Change::FiveVolt { enabled: false }) {
        law_switching_off_makes_safe(policy, sampled, core.owner, now_ms, asserted);
    } else {
        law_granted_change_is_wanted(policy, sampled, core.owner, change, now_ms, asserted);
    }
}

/// A refused change is reported as a fault of the board or as a denial, never as an
/// unknown command, and the error is the policy's own.
pub proof fn law_refusals_are_reported<W>(
    world: World<W>,
    state: W,
    core: BridgeCore,
    command: u8,
    level: bool,
)
    requires
        command == 1 || command == 2,
        answered(world, state, core, Request::Gpio { command, level: Some(level) }).2 is Failed,
    ensures
        ({
            let reply = answered(
                world,
                state,
                core,
                Request::Gpio { command, level: Some(level) },
            ).2;
            let (sampled, input) = world(state, Effect::Sample);
            let result = ran(
                policy_in(world),
                sampled,
                core.owner,
                Operation::Request(
                    if command == 1 {
                        Change::FiveVolt { enabled: level }
                    } else {
                        Change::AsicReset { asserted: !level }
                    },
                ),
                input->now_ms,
                input->trip_input_asserted,
            ).2;
            &&& result is Err
            &&& reply->Failed_0 is Fault <==> result->Err_0 is LeaseExpired || result->Err_0
                is FaultLatched || result->Err_0 is TripActive
            &&& reply->Failed_0 is Fault || reply->Failed_0 is Denied
        }),
{
    law_levels_are_set(world, state, core, command, level);
    let (sampled, input) = world(state, Effect::Sample);
    let result = ran(
        policy_in(world),
        sampled,
        core.owner,
        Operation::Request(
            if command == 1 {
                Change::FiveVolt { enabled: level }
            } else {
                Change::AsicReset { asserted: !level }
            },
        ),
        input->now_ms,
        input->trip_input_asserted,
    ).2;
    law_faults_are_told_from_denials(result->Err_0);
}

} // verus!
