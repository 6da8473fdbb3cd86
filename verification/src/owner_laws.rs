//! What the policy sees of an operation, and what the client gets of it.
//!
//! The laws speak of whole operations, from the first call to the result, in terms of
//! the policy's own replies.

use vstd::prelude::*;

use crate::bridge_owner::{
    disarm_and_report, owner_holding, owner_released, BridgeOwner, Change, Operation, Pending, Step,
};
use crate::owner_model::{executed, law_operation_is_performed, remaining, Policy};
use crate::safety::{PolicyCall, PolicyReply, SafetyError, SafetyState};

verus! {

/// Running an operation to its end.
pub open spec fn ran<S>(
    policy: Policy<S>,
    state: S,
    owner: BridgeOwner,
    operation: Operation,
    now_ms: u64,
    trip_input_asserted: bool,
) -> (S, BridgeOwner, Result<(), SafetyError>) {
    executed(policy, state, owner, operation.begin(now_ms, trip_input_asserted))
}

/// A service pass shows the policy the time and the trip input. The lease is renewed
/// exactly where it is owned and its heartbeat is due; the next heartbeat is then
/// 250 ms away. A lease that cannot be renewed is given up, and the policy disarmed.
pub proof fn law_service_renews_the_due_lease<S>(
    policy: Policy<S>,
    state: S,
    owner: BridgeOwner,
    now_ms: u64,
    trip_input_asserted: bool,
)
    ensures
        ({
            let ticked = policy(state, PolicyCall::Tick { now_ms, trip_input_asserted }).0;
            let (renewed, reply) = policy(ticked, PolicyCall::Heartbeat { now_ms });
            let end = ran(policy, state, owner, Operation::Service, now_ms, trip_input_asserted);
            &&& end.2 is Ok
            &&& !owner.owns_lease() || now_ms < owner.next_heartbeat() ==> end.0 == ticked && end.1
                == owner
            &&& owner.owns_lease() && now_ms >= owner.next_heartbeat() && reply->Outcome_0 is Ok ==> {
                &&& end.0 == renewed
                &&& end.1.owns_lease()
                &&& now_ms + 250 <= u64::MAX ==> end.1.next_heartbeat() == now_ms + 250
                &&& now_ms + 250 > u64::MAX ==> end.1.next_heartbeat() == u64::MAX
            }
            &&& owner.owns_lease() && now_ms >= owner.next_heartbeat() && reply->Outcome_0 is Err
                ==> {
                &&& end.0 == policy(renewed, PolicyCall::Disarm).0
                &&& end.1 == BridgeOwner::released()
            }
        }),
{
    broadcast use owner_holding;

    law_operation_is_performed(
        policy,
        state,
        owner,
        Operation::Service,
        now_ms,
        trip_input_asserted,
    );
}

/// Asserting the reset takes a service pass and the one call for it, with or without a
/// lease. Where it is granted nothing else happens; where it is refused the bridge is
/// made safe and the error reported.
pub proof fn law_reset_is_asserted_in_one_call<S>(
    policy: Policy<S>,
    state: S,
    owner: BridgeOwner,
    now_ms: u64,
    trip_input_asserted: bool,
)
    ensures
        ({
            let before = ran(policy, state, owner, Operation::Service, now_ms, trip_input_asserted);
            let (next, reply) = policy(
                before.0,
                PolicyCall::RequestAsicReset { asserted: true, now_ms },
            );
            let end = ran(
                policy,
                state,
                owner,
                Operation::Request(Change::AsicReset { asserted: true }),
                now_ms,
                trip_input_asserted,
            );
            match reply->Outcome_0 {
                Ok(_) => end.0 == next && end.1 == before.1 && end.2 is Ok,
                Err(error) => end == (
                    policy(next, PolicyCall::Disarm).0,
                    BridgeOwner::released(),
                    Err::<(), _>(error),
                ),
            }
        }),
{
    let change = Change::AsicReset { asserted: true };
    law_operation_is_performed(
        policy,
        state,
        owner,
        Operation::Service,
        now_ms,
        trip_input_asserted,
    );
    law_operation_is_performed(
        policy,
        state,
        owner,
        Operation::Request(change),
        now_ms,
        trip_input_asserted,
    );
}

/// Full fan, or a target that the policy has to refuse, takes a service pass and the
/// one call for it, with or without a lease. A bridge that is powered and owned stays
/// so where the target is granted.
pub proof fn law_full_fan_is_set_in_one_call<S>(
    policy: Policy<S>,
    state: S,
    owner: BridgeOwner,
    percent: u8,
    now_ms: u64,
    trip_input_asserted: bool,
)
    requires
        percent >= 100,
    ensures
        ({
            let before = ran(policy, state, owner, Operation::Service, now_ms, trip_input_asserted);
            let (next, reply) = policy(before.0, PolicyCall::RequestFan { percent, now_ms });
            let end = ran(
                policy,
                state,
                owner,
                Operation::Request(Change::Fan { percent }),
                now_ms,
                trip_input_asserted,
            );
            match reply->Outcome_0 {
                Ok(_) => end.0 == next && end.1 == before.1 && end.2 is Ok,
                Err(error) => end == (
                    policy(next, PolicyCall::Disarm).0,
                    BridgeOwner::released(),
                    Err::<(), _>(error),
                ),
            }
        }),
{
    law_operation_is_performed(
        policy,
        state,
        owner,
        Operation::Service,
        now_ms,
        trip_input_asserted,
    );
    law_operation_is_performed(
        policy,
        state,
        owner,
        Operation::Request(Change::Fan { percent }),
        now_ms,
        trip_input_asserted,
    );
}

/// Switching 5 V off takes a service pass, the one call for it, and disarming the
/// policy: the lease is given up whether or not the policy grants it.
pub proof fn law_five_volts_off_ends_ownership<S>(
    policy: Policy<S>,
    state: S,
    owner: BridgeOwner,
    now_ms: u64,
    trip_input_asserted: bool,
)
    ensures
        ({
            let before = ran(policy, state, owner, Operation::Service, now_ms, trip_input_asserted);
            let (next, reply) = policy(
                before.0,
                PolicyCall::RequestFiveVolt { enabled: false, now_ms },
            );
            let end = ran(
                policy,
                state,
                owner,
                Operation::Request(Change::FiveVolt { enabled: false }),
                now_ms,
                trip_input_asserted,
            );
            &&& end.0 == policy(next, PolicyCall::Disarm).0
            &&& end.1 == BridgeOwner::released()
            &&& match reply->Outcome_0 {
                Ok(_) => end.2 is Ok,
                Err(error) => end.2 == Err::<(), _>(error),
            }
        }),
{
    law_operation_is_performed(
        policy,
        state,
        owner,
        Operation::Service,
        now_ms,
        trip_input_asserted,
    );
    law_operation_is_performed(
        policy,
        state,
        owner,
        Operation::Request(Change::FiveVolt { enabled: false }),
        now_ms,
        trip_input_asserted,
    );
}

/// Leaving the safe levels takes control first: nothing more than a look while the
/// policy is controlled, arming while it is off, and clearing its fault before that.
/// Once in control, a level that the outputs show already is not asked for again, and
/// everything else is asked for once, as the client asked. The lease is then owned; a
/// heartbeat that was scheduled stays, and a new lease is renewed 250 ms later. Any
/// refusal on the way makes the bridge safe and is the result.
pub proof fn law_unsafe_request_takes_control<S>(
    policy: Policy<S>,
    state: S,
    owner: BridgeOwner,
    change: Change,
    now_ms: u64,
    trip_input_asserted: bool,
)
    requires
        match change {
            Change::FiveVolt { enabled } => enabled,
            Change::AsicReset { asserted } => !asserted,
            Change::Fan { percent } => percent < 100,
        },
    ensures
        ({
            let before = ran(policy, state, owner, Operation::Service, now_ms, trip_input_asserted);
            let (seen, condition) = policy(before.0, PolicyCall::State { now_ms });
            let (ready, gained) = match condition->State_0 {
                SafetyState::Controlled => (seen, Ok::<(), SafetyError>(())),
                SafetyState::SafeOff => {
                    let (armed, reply) = policy(seen, PolicyCall::Arm { now_ms });
                    (armed, reply->Outcome_0)
                },
                SafetyState::FaultLatched => {
                    let (cleared, reply) = policy(seen, PolicyCall::ClearFault { now_ms });
                    match reply->Outcome_0 {
                        Ok(_) => {
                            let (armed, reply) = policy(cleared, PolicyCall::Arm { now_ms });
                            (armed, reply->Outcome_0)
                        },
                        Err(error) => (cleared, Err(error)),
                    }
                },
            };
            let (looked, reply) = policy(ready, PolicyCall::Outputs);
            let (shown, next, granted) = match change {
                Change::FiveVolt { .. } => {
                    let asked = policy(
                        looked,
                        PolicyCall::RequestFiveVolt { enabled: true, now_ms },
                    );
                    (reply->Outputs_0.five_volt_enabled, asked.0, asked.1->Outcome_0)
                },
                Change::AsicReset { .. } => {
                    let asked = policy(
                        looked,
                        PolicyCall::RequestAsicReset { asserted: false, now_ms },
                    );
                    (!reply->Outputs_0.asic_reset_asserted, asked.0, asked.1->Outcome_0)
                },
                Change::Fan { percent } => {
                    let asked = policy(ready, PolicyCall::RequestFan { percent, now_ms });
                    (false, asked.0, asked.1->Outcome_0)
                },
            };
            let end = ran(
                policy,
                state,
                owner,
                Operation::Request(change),
                now_ms,
                trip_input_asserted,
            );
            match (gained, granted) {
                (Err(error), _) => end == (
                    policy(ready, PolicyCall::Disarm).0,
                    BridgeOwner::released(),
                    Err::<(), _>(error),
                ),
                (Ok(_), Err(error)) if !shown => end == (
                    policy(next, PolicyCall::Disarm).0,
                    BridgeOwner::released(),
                    Err::<(), _>(error),
                ),
                _ => {
                    &&& end.0 == if shown {
                        looked
                    } else {
                        next
                    }
                    &&& end.2 is Ok
                    &&& end.1.owns_lease()
                    &&& before.1.owns_lease() ==> end.1 == before.1
                    &&& !before.1.owns_lease() && now_ms + 250 <= u64::MAX
                        ==> end.1.next_heartbeat() == now_ms + 250
                    &&& !before.1.owns_lease() && now_ms + 250 > u64::MAX
                        ==> end.1.next_heartbeat() == u64::MAX
                },
            }
        }),
{
    broadcast use owner_holding;

    law_operation_is_performed(
        policy,
        state,
        owner,
        Operation::Service,
        now_ms,
        trip_input_asserted,
    );
    law_operation_is_performed(
        policy,
        state,
        owner,
        Operation::Request(change),
        now_ms,
        trip_input_asserted,
    );
}

/// A fail-safe is one call that disarms the policy, and it always succeeds.
pub proof fn law_fail_safe_is_one_call<S>(policy: Policy<S>, state: S, owner: BridgeOwner)
    ensures
        ({
            let end = executed(policy, state, owner, disarm_and_report(Ok(())));
            end.0 == policy(state, PolicyCall::Disarm).0 && end.1 == owner && end.2 is Ok
        }),
        !BridgeOwner::released().owns_lease(),
{
    owner_released();
    reveal_with_fuel(executed, 2);
}

/// A policy together with the calls that it has seen.
pub open spec fn logged<S>(policy: Policy<S>) -> Policy<(S, Seq<PolicyCall>)> {
    |state: (S, Seq<PolicyCall>), call: PolicyCall|
        {
            let (next, reply) = policy(state.0, call);
            ((next, state.1.push(call)), reply)
        }
}

/// The calls that the policy sees of an operation.
pub open spec fn calls_made<S>(
    policy: Policy<S>,
    state: S,
    owner: BridgeOwner,
    operation: Operation,
    now_ms: u64,
    trip_input_asserted: bool,
) -> Seq<PolicyCall> {
    ran(
        logged(policy),
        (state, Seq::empty()),
        owner,
        operation,
        now_ms,
        trip_input_asserted,
    ).0.1
}

proof fn log_changes_nothing<S>(
    policy: Policy<S>,
    state: S,
    log: Seq<PolicyCall>,
    owner: BridgeOwner,
    step: Step,
)
    ensures
        ({
            let plain = executed(policy, state, owner, step);
            let seen = executed(logged(policy), (state, log), owner, step);
            plain.0 == seen.0.0 && plain.1 == seen.1 && plain.2 == seen.2
        }),
    decreases remaining(step),
{
    if let Step::Call { call, pending } = step {
        let (next, reply) = policy(state, call);
        let (resumed, following) = owner.resumed(pending, reply);
        assert(logged(policy)((state, log), call) == ((next, log.push(call)), reply));
        log_changes_nothing(policy, next, log.push(call), resumed, following);
    }
}

/// The first that the policy sees of any operation is the time and the trip input, and
/// a request starts with all the calls of a service pass.
pub proof fn law_operations_start_with_a_service<S>(
    policy: Policy<S>,
    state: S,
    owner: BridgeOwner,
    operation: Operation,
    now_ms: u64,
    trip_input_asserted: bool,
)
    ensures
        ({
            let calls = calls_made(policy, state, owner, operation, now_ms, trip_input_asserted);
            let service = calls_made(
                policy,
                state,
                owner,
                Operation::Service,
                now_ms,
                trip_input_asserted,
            );
            &&& calls.len() > 0
            &&& calls[0] == (PolicyCall::Tick { now_ms, trip_input_asserted })
            &&& service.len() <= calls.len()
            &&& calls.take(service.len() as int) == service
            &&& operation is Request ==> service.len() < calls.len()
        }),
{
    request_trace(policy, state, owner, operation, now_ms, trip_input_asserted);
}

/// What the policy sees of a request once it was serviced.
proof fn request_trace<S>(
    policy: Policy<S>,
    state: S,
    owner: BridgeOwner,
    operation: Operation,
    now_ms: u64,
    trip_input_asserted: bool,
)
    ensures
        ({
            let calls = calls_made(policy, state, owner, operation, now_ms, trip_input_asserted);
            let service = calls_made(
                policy,
                state,
                owner,
                Operation::Service,
                now_ms,
                trip_input_asserted,
            );
            let end = ran(policy, state, owner, operation, now_ms, trip_input_asserted);
            &&& service.len() > 0
            &&& service[0] == (PolicyCall::Tick { now_ms, trip_input_asserted })
            &&& service.len() <= calls.len()
            &&& calls.take(service.len() as int) == service
            &&& operation matches Operation::Request(change) ==> {
                &&& service.len() < calls.len()
                &&& end.2 is Err || change == (Change::FiveVolt { enabled: false }) ==> calls.last()
                    is Disarm
                &&& forall|i: int|
                    service.len() <= i < calls.len() - 1 ==> (#[trigger] calls[i]) !is Disarm
                &&& end.2 is Ok && change != (Change::FiveVolt { enabled: false })
                    ==> calls.last() !is Disarm
                &&& forall|i: int|
                    service.len() <= i < calls.len() ==> match #[trigger] calls[i] {
                        PolicyCall::RequestFiveVolt { enabled, now_ms: asked_ms } => change == (
                        Change::FiveVolt { enabled }) && asked_ms == now_ms,
                        PolicyCall::RequestAsicReset { asserted, now_ms: asked_ms } => change == (
                        Change::AsicReset { asserted }) && asked_ms == now_ms,
                        PolicyCall::RequestFan { percent, now_ms: asked_ms } => change == (
                        Change::Fan { percent }) && asked_ms == now_ms,
                        PolicyCall::Tick { .. } | PolicyCall::Heartbeat { .. } => false,
                        _ => true,
                    }
            }
        }),
{
    let log = logged(policy);
    let start = (state, Seq::<PolicyCall>::empty());
    let step = operation.begin(now_ms, trip_input_asserted);
    log_changes_nothing(policy, state, Seq::empty(), owner, step);
    law_operation_is_performed(log, start, owner, operation, now_ms, trip_input_asserted);
    law_operation_is_performed(log, start, owner, Operation::Service, now_ms, trip_input_asserted);
    let service = calls_made(
        policy,
        state,
        owner,
        Operation::Service,
        now_ms,
        trip_input_asserted,
    );
    let calls = calls_made(policy, state, owner, operation, now_ms, trip_input_asserted);
    assert(calls.take(service.len() as int) =~= service);
}

/// A granted request other than switching 5 V off does not disarm the policy, and
/// leaves the lease as the service pass and the gaining of control left it: one that
/// was owned is kept with its heartbeat, and asking for a safe level takes none.
pub proof fn law_granted_request_never_disarms<S>(
    policy: Policy<S>,
    state: S,
    owner: BridgeOwner,
    change: Change,
    now_ms: u64,
    trip_input_asserted: bool,
)
    requires
        change != (Change::FiveVolt { enabled: false }),
        ran(
            policy,
            state,
            owner,
            Operation::Request(change),
            now_ms,
            trip_input_asserted,
        ).2 is Ok,
    ensures
        ({
            let operation = Operation::Request(change);
            let calls = calls_made(policy, state, owner, operation, now_ms, trip_input_asserted);
            let service = calls_made(
                policy,
                state,
                owner,
                Operation::Service,
                now_ms,
                trip_input_asserted,
            );
            let before = ran(policy, state, owner, Operation::Service, now_ms, trip_input_asserted);
            let end = ran(policy, state, owner, operation, now_ms, trip_input_asserted);
            &&& forall|i: int|
                service.len() <= i < calls.len() ==> (#[trigger] calls[i]) !is Disarm
            &&& before.1.owns_lease() ==> end.1 == before.1
            &&& change == (Change::AsicReset { asserted: true }) ==> end.1 == before.1
            &&& change is Fan && change->percent >= 100 ==> end.1 == before.1
        }),
{
    let operation = Operation::Request(change);
    request_trace(policy, state, owner, operation, now_ms, trip_input_asserted);
    match change {
        Change::AsicReset { asserted: true } => law_reset_is_asserted_in_one_call(
            policy,
            state,
            owner,
            now_ms,
            trip_input_asserted,
        ),
        Change::Fan { percent } if percent >= 100 => law_full_fan_is_set_in_one_call(
            policy,
            state,
            owner,
            percent,
            now_ms,
            trip_input_asserted,
        ),
        _ => law_unsafe_request_takes_control(
            policy,
            state,
            owner,
            change,
            now_ms,
            trip_input_asserted,
        ),
    }
}

/// A refused request, and every request to switch 5 V off, ends with disarming the
/// policy, and disarms it only then.
pub proof fn law_refused_request_ends_disarmed<S>(
    policy: Policy<S>,
    state: S,
    owner: BridgeOwner,
    change: Change,
    now_ms: u64,
    trip_input_asserted: bool,
)
    requires
        change == (Change::FiveVolt { enabled: false }) || ran(
            policy,
            state,
            owner,
            Operation::Request(change),
            now_ms,
            trip_input_asserted,
        ).2 is Err,
    ensures
        ({
            let operation = Operation::Request(change);
            let calls = calls_made(policy, state, owner, operation, now_ms, trip_input_asserted);
            let service = calls_made(
                policy,
                state,
                owner,
                Operation::Service,
                now_ms,
                trip_input_asserted,
            );
            let end = ran(policy, state, owner, operation, now_ms, trip_input_asserted);
            &&& calls.last() is Disarm
            &&& forall|i: int|
                service.len() <= i < calls.len() - 1 ==> (#[trigger] calls[i]) !is Disarm
            &&& !end.1.owns_lease()
        }),
{
    let operation = Operation::Request(change);
    owner_released();
    request_trace(policy, state, owner, operation, now_ms, trip_input_asserted);
    law_operation_is_performed(policy, state, owner, operation, now_ms, trip_input_asserted);
}

/// The policy is asked for nothing that the client did not ask for: every request
/// among the calls is the client's own, at the client's time.
pub proof fn law_requests_reach_the_policy_unchanged<S>(
    policy: Policy<S>,
    state: S,
    owner: BridgeOwner,
    operation: Operation,
    now_ms: u64,
    trip_input_asserted: bool,
    i: int,
)
    requires
        0 <= i < calls_made(
            policy,
            state,
            owner,
            operation,
            now_ms,
            trip_input_asserted,
        ).len(),
    ensures
        match calls_made(policy, state, owner, operation, now_ms, trip_input_asserted)[i] {
            PolicyCall::RequestFiveVolt { enabled, now_ms: asked_ms } => operation
                == Operation::Request(Change::FiveVolt { enabled }) && asked_ms == now_ms,
            PolicyCall::RequestAsicReset { asserted, now_ms: asked_ms } => operation
                == Operation::Request(Change::AsicReset { asserted }) && asked_ms == now_ms,
            PolicyCall::RequestFan { percent, now_ms: asked_ms } => operation == Operation::Request(
                Change::Fan { percent },
            ) && asked_ms == now_ms,
            PolicyCall::Tick { now_ms: seen_ms, trip_input_asserted: seen } => seen_ms == now_ms
                && seen == trip_input_asserted,
            PolicyCall::Heartbeat { now_ms: seen_ms } => seen_ms == now_ms && owner.owns_lease(),
            PolicyCall::State { now_ms: seen_ms }
            | PolicyCall::Arm { now_ms: seen_ms }
            | PolicyCall::ClearFault { now_ms: seen_ms } => seen_ms == now_ms && operation
                is Request,
            PolicyCall::Outputs => operation is Request,
            PolicyCall::Disarm => true,
        },
{
    let log = logged(policy);
    let start = (state, Seq::<PolicyCall>::empty());
    law_operation_is_performed(log, start, owner, operation, now_ms, trip_input_asserted);
}

/// A step waits for exactly the kind of reply that its call gives.
pub proof fn law_steps_wait_for_their_replies(
    owner: BridgeOwner,
    pending: Pending,
    reply: PolicyReply,
    answer: PolicyReply,
)
    requires
        owner.resumed(pending, reply).1 is Call,
    ensures
        ({
            let step = owner.resumed(pending, reply).1;
            step->pending.accepts(answer) <==> match step->call {
                PolicyCall::Tick { .. } | PolicyCall::Disarm => answer is Done,
                PolicyCall::State { .. } => answer is State,
                PolicyCall::Outputs => answer is Outputs,
                _ => answer is Outcome,
            }
        }),
{
}

/// The first step waits for the policy to have seen the time.
pub proof fn law_operations_begin_with_a_wait(
    operation: Operation,
    now_ms: u64,
    trip_input_asserted: bool,
    answer: PolicyReply,
)
    ensures
        operation.begin(now_ms, trip_input_asserted) is Call,
        operation.begin(now_ms, trip_input_asserted)->pending.accepts(answer) <==> answer is Done,
        disarm_and_report(Ok(()))->pending.accepts(answer) <==> answer is Done,
{
}

} // verus!
