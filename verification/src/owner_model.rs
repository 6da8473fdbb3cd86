//! What the operations of [`BridgeOwner`] amount to.
//!
//! A policy is modelled as any function from its own state and a call to its next
//! state and a reply. The functions below say, in terms of such a policy, what a
//! whole operation does; the laws show that the step by step execution does
//! exactly that, and what follows for a client of the bridge.

use vstd::prelude::*;

use crate::bridge_owner::{
    deadline, disarm_and_report, owner_holding, owner_released, BridgeOwner, Change, Operation,
    Pending, Step, HEARTBEAT_INTERVAL_MS,
};
use crate::safety::{PolicyCall, PolicyReply, SafetyError, SafetyOutputs, SafetyState};

verus! {

/// A safety policy, as seen from the bridge.
pub type Policy<S> = spec_fn(S, PolicyCall) -> (S, PolicyReply);

/// The policy and the bookkeeping after the bridge was made safe.
pub open spec fn made_safe<S>(policy: Policy<S>, state: S) -> (S, BridgeOwner) {
    (policy(state, PolicyCall::Disarm).0, BridgeOwner::released())
}

/// A service pass: the policy is advanced; a lease that is due is renewed, and
/// given up if that is refused.
pub open spec fn serviced<S>(
    policy: Policy<S>,
    state: S,
    owner: BridgeOwner,
    now_ms: u64,
    trip_input_asserted: bool,
) -> (S, BridgeOwner) {
    let ticked = policy(state, PolicyCall::Tick { now_ms, trip_input_asserted }).0;
    if owner.heartbeat_due(now_ms) {
        let (renewed, reply) = policy(ticked, PolicyCall::Heartbeat { now_ms });
        if reply->Outcome_0 is Ok {
            (renewed, BridgeOwner::holding(deadline(now_ms, HEARTBEAT_INTERVAL_MS)))
        } else {
            made_safe(policy, renewed)
        }
    } else {
        (ticked, owner)
    }
}

/// Gaining control: nothing to do while controlled, arming while safe, clearing
/// the fault and arming after a fault.
pub open spec fn control_gained<S>(policy: Policy<S>, state: S, now_ms: u64) -> (
    S,
    Result<(), SafetyError>,
) {
    let (asked, reply) = policy(state, PolicyCall::State { now_ms });
    match reply->State_0 {
        SafetyState::Controlled => (asked, Ok(())),
        SafetyState::SafeOff => {
            let (armed, reply) = policy(asked, PolicyCall::Arm { now_ms });
            (armed, reply->Outcome_0)
        },
        SafetyState::FaultLatched => {
            let (cleared, reply) = policy(asked, PolicyCall::ClearFault { now_ms });
            if reply->Outcome_0 is Ok {
                let (armed, reply) = policy(cleared, PolicyCall::Arm { now_ms });
                (armed, reply->Outcome_0)
            } else {
                (cleared, reply->Outcome_0)
            }
        },
    }
}

/// Making the request: a refusal makes the bridge safe, and so does switching
/// 5 V off.
pub open spec fn asked<S>(
    policy: Policy<S>,
    state: S,
    owner: BridgeOwner,
    change: Change,
    now_ms: u64,
) -> (S, BridgeOwner, Result<(), SafetyError>) {
    let (next, reply) = policy(state, change.call(now_ms));
    let result = reply->Outcome_0;
    if result is Err || change.ends_ownership() {
        let (safe, released) = made_safe(policy, next);
        (safe, released, result)
    } else {
        (next, owner, result)
    }
}

/// A client's request once the policy has been serviced.
pub open spec fn changed<S>(
    policy: Policy<S>,
    state: S,
    owner: BridgeOwner,
    change: Change,
    now_ms: u64,
) -> (S, BridgeOwner, Result<(), SafetyError>) {
    if !change.is_unsafe() {
        asked(policy, state, owner, change, now_ms)
    } else {
        let (gained, result) = control_gained(policy, state, now_ms);
        if result is Err {
            let (safe, released) = made_safe(policy, gained);
            (safe, released, result)
        } else if change.is_level() {
            let (looked, reply) = policy(gained, PolicyCall::Outputs);
            if change.shown_by(reply->Outputs_0) {
                (looked, owner.controlled(now_ms), Ok(()))
            } else {
                asked(policy, looked, owner.controlled(now_ms), change, now_ms)
            }
        } else {
            asked(policy, gained, owner.controlled(now_ms), change, now_ms)
        }
    }
}

/// A whole operation.
pub open spec fn performed<S>(
    policy: Policy<S>,
    state: S,
    owner: BridgeOwner,
    operation: Operation,
    now_ms: u64,
    trip_input_asserted: bool,
) -> (S, BridgeOwner, Result<(), SafetyError>) {
    let (state, owner) = serviced(policy, state, owner, now_ms, trip_input_asserted);
    match operation {
        Operation::Service => (state, owner, Ok(())),
        Operation::Request(change) => changed(policy, state, owner, change, now_ms),
    }
}

/// How many replies a step still waits for, at most.
pub open spec fn remaining(step: Step) -> nat {
    match step {
        Step::Finished { .. } => 0,
        Step::Call { pending, .. } => match pending {
            Pending::Disarm { .. } => 1,
            Pending::Request { .. } => 2,
            Pending::Outputs { .. } => 3,
            Pending::Arm { .. } => 4,
            Pending::ClearFault { .. } => 5,
            Pending::State { .. } => 6,
            Pending::ServiceDisarm { .. } => 7,
            Pending::Heartbeat { .. } => 8,
            Pending::Tick { .. } => 9,
        },
    }
}

/// Executing an operation: the policy answers each call, and the owner resumes
/// with the reply, until the operation is finished.
pub open spec fn executed<S>(policy: Policy<S>, state: S, owner: BridgeOwner, step: Step) -> (
    S,
    BridgeOwner,
    Result<(), SafetyError>,
)
    decreases remaining(step),
{
    match step {
        Step::Finished { result } => (state, owner, result),
        Step::Call { call, pending } => {
            let (next, reply) = policy(state, call);
            let (resumed, following) = owner.resumed(pending, reply);
            executed(policy, next, resumed, following)
        },
    }
}

proof fn executed_disarm<S>(
    policy: Policy<S>,
    state: S,
    owner: BridgeOwner,
    result: Result<(), SafetyError>,
)
    ensures
        executed(policy, state, owner, disarm_and_report(result)) == (
            policy(state, PolicyCall::Disarm).0,
            owner,
            result,
        ),
{
    reveal_with_fuel(executed, 2);
}

proof fn executed_ask<S>(
    policy: Policy<S>,
    state: S,
    owner: BridgeOwner,
    change: Change,
    now_ms: u64,
)
    ensures
        executed(policy, state, owner, change.ask(now_ms)) == asked(
            policy,
            state,
            owner,
            change,
            now_ms,
        ),
{
    let (next, reply) = policy(state, change.call(now_ms));
    executed_disarm(policy, next, BridgeOwner::released(), reply->Outcome_0);
    executed_disarm(policy, next, BridgeOwner::released(), Ok(()));
    reveal_with_fuel(executed, 2);
    if let Ok(granted) = reply->Outcome_0 {
        assert(granted == ());
    }
}

proof fn executed_controlled<S>(
    policy: Policy<S>,
    state: S,
    owner: BridgeOwner,
    change: Change,
    now_ms: u64,
)
    ensures
        executed(policy, state, owner, change.once_controlled(now_ms)) == if change.is_level() {
            let (looked, reply) = policy(state, PolicyCall::Outputs);
            if change.shown_by(reply->Outputs_0) {
                (looked, owner, Ok(()))
            } else {
                asked(policy, looked, owner, change, now_ms)
            }
        } else {
            asked(policy, state, owner, change, now_ms)
        },
{
    let looked = policy(state, PolicyCall::Outputs).0;
    executed_ask(policy, looked, owner, change, now_ms);
    executed_ask(policy, state, owner, change, now_ms);
    reveal_with_fuel(executed, 2);
}

proof fn executed_serviced<S>(
    policy: Policy<S>,
    state: S,
    owner: BridgeOwner,
    operation: Operation,
    now_ms: u64,
)
    ensures
        executed(policy, state, owner, operation.once_serviced(now_ms)) == match operation {
            Operation::Service => (state, owner, Ok(())),
            Operation::Request(change) => changed(policy, state, owner, change, now_ms),
        },
{
    reveal_with_fuel(executed, 2);
    if let Operation::Request(change) = operation {
        executed_ask(policy, state, owner, change, now_ms);
        let (asked_state, reply) = policy(state, PolicyCall::State { now_ms });
        let taken = owner.controlled(now_ms);
        executed_controlled(policy, asked_state, taken, change, now_ms);
        let (armed, armed_reply) = policy(asked_state, PolicyCall::Arm { now_ms });
        executed_controlled(policy, armed, taken, change, now_ms);
        executed_disarm(policy, armed, BridgeOwner::released(), armed_reply->Outcome_0);
        let (cleared, cleared_reply) = policy(asked_state, PolicyCall::ClearFault { now_ms });
        executed_disarm(policy, cleared, BridgeOwner::released(), cleared_reply->Outcome_0);
        let (rearmed, rearmed_reply) = policy(cleared, PolicyCall::Arm { now_ms });
        executed_controlled(policy, rearmed, taken, change, now_ms);
        executed_disarm(policy, rearmed, BridgeOwner::released(), rearmed_reply->Outcome_0);
        reveal_with_fuel(executed, 4);
    }
}

/// Executing an operation step by step does what [`performed`] says, whatever the
/// policy is.
pub proof fn law_operation_is_performed<S>(
    policy: Policy<S>,
    state: S,
    owner: BridgeOwner,
    operation: Operation,
    now_ms: u64,
    trip_input_asserted: bool,
)
    ensures
        executed(policy, state, owner, operation.begin(now_ms, trip_input_asserted)) == performed(
            policy,
            state,
            owner,
            operation,
            now_ms,
            trip_input_asserted,
        ),
{
    let ticked = policy(state, PolicyCall::Tick { now_ms, trip_input_asserted }).0;
    executed_serviced(policy, ticked, owner, operation, now_ms);
    let (renewed, reply) = policy(ticked, PolicyCall::Heartbeat { now_ms });
    executed_serviced(
        policy,
        renewed,
        BridgeOwner::holding(deadline(now_ms, HEARTBEAT_INTERVAL_MS)),
        operation,
        now_ms,
    );
    let safe = policy(renewed, PolicyCall::Disarm).0;
    executed_serviced(policy, safe, BridgeOwner::released(), operation, now_ms);
    reveal_with_fuel(executed, 4);
}

/// Whether `state` is what a disarmed policy is left with.
pub open spec fn just_disarmed<S>(policy: Policy<S>, state: S) -> bool {
    exists|before: S| state == (#[trigger] policy(before, PolicyCall::Disarm)).0
}

/// Giving up the bridge disarms the policy and releases the lease.
pub proof fn law_fail_safe_makes_safe<S>(policy: Policy<S>, state: S)
    ensures
        executed(policy, state, BridgeOwner::released(), disarm_and_report(Ok(()))) == (
            made_safe(policy, state).0,
            BridgeOwner::released(),
            Ok::<(), SafetyError>(()),
        ),
{
    executed_disarm(policy, state, BridgeOwner::released(), Ok(()));
}

/// A refused request leaves the bridge safe: the last thing that the policy sees
/// is that it is disarmed, and the lease is no longer owned.
pub proof fn law_refused_request_makes_safe<S>(
    policy: Policy<S>,
    state: S,
    owner: BridgeOwner,
    change: Change,
    now_ms: u64,
    trip_input_asserted: bool,
)
    requires
        performed(
            policy,
            state,
            owner,
            Operation::Request(change),
            now_ms,
            trip_input_asserted,
        ).2 is Err,
    ensures
        ({
            let end = performed(
                policy,
                state,
                owner,
                Operation::Request(change),
                now_ms,
                trip_input_asserted,
            );
            just_disarmed(policy, end.0) && end.1 == BridgeOwner::released()
        }),
{
}

/// Switching 5 V off leaves the bridge safe, granted or not.
pub proof fn law_switching_off_makes_safe<S>(
    policy: Policy<S>,
    state: S,
    owner: BridgeOwner,
    now_ms: u64,
    trip_input_asserted: bool,
)
    ensures
        ({
            let end = performed(
                policy,
                state,
                owner,
                Operation::Request(Change::FiveVolt { enabled: false }),
                now_ms,
                trip_input_asserted,
            );
            just_disarmed(policy, end.0) && end.1 == BridgeOwner::released()
        }),
{
}

/// A granted unsafe request leaves the lease owned, so that a client never has to
/// ask for it.
pub proof fn law_unsafe_request_owns_lease<S>(
    policy: Policy<S>,
    state: S,
    owner: BridgeOwner,
    change: Change,
    now_ms: u64,
    trip_input_asserted: bool,
)
    requires
        change.is_unsafe(),
        performed(
            policy,
            state,
            owner,
            Operation::Request(change),
            now_ms,
            trip_input_asserted,
        ).2 is Ok,
    ensures
        performed(
            policy,
            state,
            owner,
            Operation::Request(change),
            now_ms,
            trip_input_asserted,
        ).1.owns_lease(),
{
    broadcast use owner_holding;

}

/// A granted request that comes before the next heartbeat does not move it, so
/// that frequent commands cannot postpone the renewal of the lease.
pub proof fn law_request_keeps_heartbeat<S>(
    policy: Policy<S>,
    state: S,
    owner: BridgeOwner,
    change: Change,
    now_ms: u64,
    trip_input_asserted: bool,
)
    requires
        owner.owns_lease(),
        now_ms < owner.next_heartbeat(),
        change != (Change::FiveVolt { enabled: false }),
        performed(
            policy,
            state,
            owner,
            Operation::Request(change),
            now_ms,
            trip_input_asserted,
        ).2 is Ok,
    ensures
        performed(
            policy,
            state,
            owner,
            Operation::Request(change),
            now_ms,
            trip_input_asserted,
        ).1 == owner,
{
}

/// The next heartbeat is never further away than one interval: if that held at
/// `earlier_ms`, it holds after every operation at a later time.
pub proof fn law_heartbeat_within_interval<S>(
    policy: Policy<S>,
    state: S,
    owner: BridgeOwner,
    operation: Operation,
    earlier_ms: u64,
    now_ms: u64,
    trip_input_asserted: bool,
)
    requires
        earlier_ms <= now_ms,
        owner.owns_lease() ==> owner.next_heartbeat() <= deadline(
            earlier_ms,
            HEARTBEAT_INTERVAL_MS,
        ),
    ensures
        ({
            let after = performed(
                policy,
                state,
                owner,
                operation,
                now_ms,
                trip_input_asserted,
            ).1;
            after.owns_lease() ==> after.next_heartbeat() <= deadline(now_ms, HEARTBEAT_INTERVAL_MS)
        }),
{
    broadcast use owner_holding;

    owner_released();
}

/// Every operation keeps the bookkeeping well formed.
pub proof fn law_operation_keeps_well_formed<S>(
    policy: Policy<S>,
    state: S,
    owner: BridgeOwner,
    operation: Operation,
    now_ms: u64,
    trip_input_asserted: bool,
)
    requires
        owner.well_formed(),
    ensures
        performed(
            policy,
            state,
            owner,
            operation,
            now_ms,
            trip_input_asserted,
        ).1.well_formed(),
{
    broadcast use owner_holding;

    owner_released();
}

/// Asking again for an unsafe level that a controlled bridge already shows
/// succeeds, and the policy is only looked at: no request reaches it.
pub proof fn law_repeated_level_is_idempotent<S>(
    policy: Policy<S>,
    state: S,
    owner: BridgeOwner,
    change: Change,
    now_ms: u64,
    trip_input_asserted: bool,
)
    requires
        change.is_unsafe(),
        change.is_level(),
        ({
            let current = serviced(policy, state, owner, now_ms, trip_input_asserted).0;
            let (asked_state, reply) = policy(current, PolicyCall::State { now_ms });
            &&& reply->State_0 is Controlled
            &&& change.shown_by(policy(asked_state, PolicyCall::Outputs).1->Outputs_0)
        }),
    ensures
        ({
            let (current, kept) = serviced(policy, state, owner, now_ms, trip_input_asserted);
            let asked_state = policy(current, PolicyCall::State { now_ms }).0;
            performed(policy, state, owner, Operation::Request(change), now_ms, trip_input_asserted)
                == (
                policy(asked_state, PolicyCall::Outputs).0,
                kept.controlled(now_ms),
                Ok::<(), SafetyError>(()),
            )
        }),
{
}

/// A call and the continuation that waits for its reply belong together.
pub open spec fn coherent(step: Step) -> bool {
    step matches Step::Call { call, pending } ==> forall|reply: PolicyReply|
        reply.answers(call) ==> #[trigger] pending.accepts(reply)
}

/// A reply that has the shape of its call can always be handed back: no step of
/// an operation ever waits for something else.
pub proof fn law_steps_are_coherent(
    owner: BridgeOwner,
    operation: Operation,
    now_ms: u64,
    trip_input_asserted: bool,
    pending: Pending,
    reply: PolicyReply,
)
    ensures
        coherent(operation.begin(now_ms, trip_input_asserted)),
        coherent(disarm_and_report(Ok(()))),
        coherent(owner.resumed(pending, reply).1),
{
}

/// The outputs that a policy wants.
pub open spec fn wanted<S>(policy: Policy<S>, state: S) -> SafetyOutputs {
    policy(state, PolicyCall::Outputs).1->Outputs_0
}

/// Whether every call of a policy keeps `inv`.
pub open spec fn keeps<S>(policy: Policy<S>, inv: spec_fn(S) -> bool) -> bool {
    forall|state: S, call: PolicyCall|
        inv(state) ==> inv((#[trigger] policy(state, call)).0)
}

/// What every call of the policy keeps, every operation keeps, whatever it asks
/// for and whether or not it is granted.
pub proof fn law_operation_keeps_policy_invariant<S>(
    policy: Policy<S>,
    inv: spec_fn(S) -> bool,
    state: S,
    owner: BridgeOwner,
    operation: Operation,
    now_ms: u64,
    trip_input_asserted: bool,
)
    requires
        keeps(policy, inv),
        inv(state),
    ensures
        inv(
            performed(policy, state, owner, operation, now_ms, trip_input_asserted).0,
        ),
{
}

/// Something that is done with the bridge.
pub enum Action {
    Perform { operation: Operation, now_ms: u64, trip_input_asserted: bool },
    FailSafe,
}

/// The policy and the bookkeeping after a sequence of actions.
pub open spec fn history<S>(
    policy: Policy<S>,
    state: S,
    owner: BridgeOwner,
    actions: Seq<Action>,
) -> (S, BridgeOwner)
    decreases actions.len(),
{
    if actions.len() == 0 {
        (state, owner)
    } else {
        let (state, owner) = history(policy, state, owner, actions.drop_last());
        match actions.last() {
            Action::Perform { operation, now_ms, trip_input_asserted } => {
                let end = performed(
                    policy,
                    state,
                    owner,
                    operation,
                    now_ms,
                    trip_input_asserted,
                );
                (end.0, end.1)
            },
            Action::FailSafe => made_safe(policy, state),
        }
    }
}

/// What every call of the policy keeps holds after any sequence of actions.
pub proof fn law_history_keeps_policy_invariant<S>(
    policy: Policy<S>,
    inv: spec_fn(S) -> bool,
    state: S,
    owner: BridgeOwner,
    actions: Seq<Action>,
)
    requires
        keeps(policy, inv),
        inv(state),
    ensures
        inv(history(policy, state, owner, actions).0),
    decreases actions.len(),
{
    if actions.len() > 0 {
        law_history_keeps_policy_invariant(policy, inv, state, owner, actions.drop_last());
        let (before, kept) = history(policy, state, owner, actions.drop_last());
        if let Action::Perform { operation, now_ms, trip_input_asserted } = actions.last() {
            law_operation_keeps_policy_invariant(
                policy,
                inv,
                before,
                kept,
                operation,
                now_ms,
                trip_input_asserted,
            );
        }
    }
}

/// The reset is never released without 5 V, whatever is done with the bridge, as
/// long as no single call of the policy releases it so.
pub proof fn law_reset_needs_five_volts<S>(
    policy: Policy<S>,
    inv: spec_fn(S) -> bool,
    state: S,
    actions: Seq<Action>,
)
    requires
        keeps(policy, inv),
        forall|s: S| #[trigger] inv(s) ==> wanted(policy, s).is_sequenced(),
        inv(state),
    ensures
        wanted(
            policy,
            history(policy, state, BridgeOwner::released(), actions).0,
        ).is_sequenced(),
{
    law_history_keeps_policy_invariant(
        policy,
        inv,
        state,
        BridgeOwner::released(),
        actions,
    );
}

/// Whether a policy that is disarmed wants safe outputs.
pub open spec fn disarms_safely<S>(policy: Policy<S>) -> bool {
    forall|state: S|
        wanted(policy, (#[trigger] policy(state, PolicyCall::Disarm)).0).is_safe()
}

/// A bridge that starts safe is safe until something is done with it, and again
/// directly after every fail-safe, as long as disarming makes the policy safe.
pub proof fn law_fail_safe_shows_safe_outputs<S>(policy: Policy<S>, state: S, actions: Seq<Action>)
    requires
        wanted(policy, state).is_safe(),
        disarms_safely(policy),
    ensures
        actions.len() == 0 || actions.last() is FailSafe ==> wanted(
            policy,
            history(policy, state, BridgeOwner::released(), actions).0,
        ).is_safe(),
{
}

/// Whether renewing the lease and disarming leave safe outputs safe.
pub open spec fn stays_safe<S>(policy: Policy<S>, inv: spec_fn(S) -> bool) -> bool {
    forall|state: S, call: PolicyCall|
        inv(state) && wanted(policy, state).is_safe() && (call is Heartbeat || call is Disarm)
            ==> wanted(policy, (#[trigger] policy(state, call)).0).is_safe()
}

/// Where advancing the policy leaves safe outputs, after a trip or a missed lease,
/// a service pass leaves safe outputs.
pub proof fn law_safe_tick_makes_service_safe<S>(
    policy: Policy<S>,
    inv: spec_fn(S) -> bool,
    state: S,
    owner: BridgeOwner,
    now_ms: u64,
    trip_input_asserted: bool,
)
    requires
        keeps(policy, inv),
        stays_safe(policy, inv),
        inv(state),
        wanted(
            policy,
            policy(state, PolicyCall::Tick { now_ms, trip_input_asserted }).0,
        ).is_safe(),
    ensures
        wanted(
            policy,
            performed(policy, state, owner, Operation::Service, now_ms, trip_input_asserted).0,
        ).is_safe(),
{
}

/// Whether a policy that sees the trip input wants safe outputs.
pub open spec fn latches_trips<S>(policy: Policy<S>, inv: spec_fn(S) -> bool) -> bool {
    forall|state: S, now_ms: u64|
        inv(state) ==> wanted(
            policy,
            (#[trigger] policy(
                state,
                PolicyCall::Tick { now_ms, trip_input_asserted: true },
            )).0,
        ).is_safe()
}

/// A service pass that sees the trip input restores safe outputs, whatever was done
/// with the bridge before.
pub proof fn law_trip_restores_safe_outputs<S>(
    policy: Policy<S>,
    inv: spec_fn(S) -> bool,
    state: S,
    actions: Seq<Action>,
    now_ms: u64,
)
    requires
        keeps(policy, inv),
        stays_safe(policy, inv),
        latches_trips(policy, inv),
        inv(state),
    ensures
        ({
            let (before, owner) = history(policy, state, BridgeOwner::released(), actions);
            wanted(
                policy,
                performed(policy, before, owner, Operation::Service, now_ms, true).0,
            ).is_safe()
        }),
{
    let (before, owner) = history(policy, state, BridgeOwner::released(), actions);
    law_history_keeps_policy_invariant(
        policy,
        inv,
        state,
        BridgeOwner::released(),
        actions,
    );
    law_safe_tick_makes_service_safe(policy, inv, before, owner, now_ms, true);
}

/// Whether a policy whose lease is over wants safe outputs. When the lease is over is
/// for `expired` to say.
pub open spec fn latches_expiry<S>(
    policy: Policy<S>,
    inv: spec_fn(S) -> bool,
    expired: spec_fn(S, u64) -> bool,
) -> bool {
    forall|state: S, now_ms: u64, trip_input_asserted: bool|
        inv(state) && expired(state, now_ms) ==> wanted(
            policy,
            (#[trigger] policy(state, PolicyCall::Tick { now_ms, trip_input_asserted })).0,
        ).is_safe()
}

/// A service pass after a missed lease restores safe outputs, whatever was done with
/// the bridge before.
pub proof fn law_missed_lease_restores_safe_outputs<S>(
    policy: Policy<S>,
    inv: spec_fn(S) -> bool,
    expired: spec_fn(S, u64) -> bool,
    state: S,
    actions: Seq<Action>,
    now_ms: u64,
    trip_input_asserted: bool,
)
    requires
        keeps(policy, inv),
        stays_safe(policy, inv),
        latches_expiry(policy, inv, expired),
        inv(state),
        expired(history(policy, state, BridgeOwner::released(), actions).0, now_ms),
    ensures
        ({
            let (before, owner) = history(policy, state, BridgeOwner::released(), actions);
            wanted(
                policy,
                performed(
                    policy,
                    before,
                    owner,
                    Operation::Service,
                    now_ms,
                    trip_input_asserted,
                ).0,
            ).is_safe()
        }),
{
    let (before, owner) = history(policy, state, BridgeOwner::released(), actions);
    law_history_keeps_policy_invariant(policy, inv, state, BridgeOwner::released(), actions);
    law_safe_tick_makes_service_safe(policy, inv, before, owner, now_ms, trip_input_asserted);
}

/// Whether a policy wants what it grants.
pub open spec fn honours_grants<S>(policy: Policy<S>) -> bool {
    forall|state: S, change: Change, now_ms: u64|
        (#[trigger] policy(state, change.call(now_ms))).1->Outcome_0 is Ok ==> change.met_by(
            wanted(policy, policy(state, change.call(now_ms)).0),
        )
}

/// Whether asking a policy for its outputs does not change them.
pub open spec fn reads_idly<S>(policy: Policy<S>) -> bool {
    forall|state: S|
        wanted(policy, (#[trigger] policy(state, PolicyCall::Outputs)).0) == wanted(policy, state)
}

/// A granted change is what the policy wants afterwards. Switching 5 V off is left
/// out: it ends with a disarmed policy.
pub proof fn law_granted_change_is_wanted<S>(
    policy: Policy<S>,
    state: S,
    owner: BridgeOwner,
    change: Change,
    now_ms: u64,
    trip_input_asserted: bool,
)
    requires
        honours_grants(policy),
        reads_idly(policy),
        change != (Change::FiveVolt { enabled: false }),
        performed(
            policy,
            state,
            owner,
            Operation::Request(change),
            now_ms,
            trip_input_asserted,
        ).2 is Ok,
    ensures
        change.met_by(
            wanted(
                policy,
                performed(
                    policy,
                    state,
                    owner,
                    Operation::Request(change),
                    now_ms,
                    trip_input_asserted,
                ).0,
            ),
        ),
{
}

/// When the lease that is owned after a sequence of actions was taken or last
/// renewed.
pub open spec fn renewed_at<S>(policy: Policy<S>, state: S, actions: Seq<Action>) -> Option<u64>
    decreases actions.len(),
{
    if !history(policy, state, BridgeOwner::released(), actions).1.owns_lease() {
        None
    } else if actions.len() == 0 {
        None
    } else {
        let before = history(policy, state, BridgeOwner::released(), actions.drop_last()).1;
        match actions.last() {
            Action::Perform { now_ms, .. } => if !before.owns_lease() || before.heartbeat_due(
                now_ms,
            ) {
                Some(now_ms)
            } else {
                renewed_at(policy, state, actions.drop_last())
            },
            Action::FailSafe => None,
        }
    }
}

/// The next heartbeat is scheduled one interval after the lease was taken or last
/// renewed.
pub proof fn law_heartbeat_follows_renewal<S>(policy: Policy<S>, state: S, actions: Seq<Action>)
    ensures
        ({
            let owner = history(policy, state, BridgeOwner::released(), actions).1;
            owner.owns_lease() ==> {
                &&& renewed_at(policy, state, actions) matches Some(since_ms)
                &&& owner.next_heartbeat() == deadline(since_ms, HEARTBEAT_INTERVAL_MS)
            }
        }),
    decreases actions.len(),
{
    broadcast use owner_holding;

    owner_released();
    if actions.len() > 0 {
        law_heartbeat_follows_renewal(policy, state, actions.drop_last());
    }
}

/// Where the bridge is serviced at least every `gap_ms`, an owned lease was taken or
/// renewed at most one heartbeat interval and one such gap ago.
pub proof fn law_lease_is_renewed_in_time<S>(
    policy: Policy<S>,
    state: S,
    actions: Seq<Action>,
    now_ms: u64,
    gap_ms: nat,
)
    requires
        history(policy, state, BridgeOwner::released(), actions).1.owns_lease(),
        actions.len() > 0,
        actions.last() matches Action::Perform { now_ms: before_ms, .. } && now_ms <= before_ms
            + gap_ms,
    ensures
        renewed_at(policy, state, actions) matches Some(since_ms) && now_ms <= since_ms
            + HEARTBEAT_INTERVAL_MS + gap_ms,
{
    law_heartbeat_follows_renewal(policy, state, actions);
    law_heartbeat_follows_renewal(policy, state, actions.drop_last());
}

/// The time of an action.
pub open spec fn acted_at(action: Action) -> u64 {
    action->now_ms
}

/// Whether action `i` makes a heartbeat.
pub open spec fn heartbeat_at<S>(policy: Policy<S>, state: S, actions: Seq<Action>, i: int) -> bool {
    &&& actions[i] is Perform
    &&& history(policy, state, BridgeOwner::released(), actions.take(i)).1.heartbeat_due(
        acted_at(actions[i]),
    )
}

proof fn renewal_stands<S>(policy: Policy<S>, state: S, actions: Seq<Action>, first: int, k: int)
    requires
        0 <= first < k <= actions.len(),
        heartbeat_at(policy, state, actions, first),
        forall|i: int| first < i < k ==> !#[trigger] heartbeat_at(policy, state, actions, i),
        forall|i: int|
            first < i <= k ==> history(
                policy,
                state,
                BridgeOwner::released(),
                #[trigger] actions.take(i),
            ).1.owns_lease(),
    ensures
        renewed_at(policy, state, actions.take(k)) == Some(acted_at(actions[first])),
        actions[k - 1] is Perform,
    decreases k,
{
    let done = actions.take(k);
    assert(done.drop_last() =~= actions.take(k - 1));
    assert(done.last() == actions[k - 1]);
    owner_released();
    assert(history(policy, state, BridgeOwner::released(), done).1.owns_lease());
    if k > first + 1 {
        renewal_stands(policy, state, actions, first, k - 1);
        assert(!heartbeat_at(policy, state, actions, k - 1));
        assert(history(
            policy,
            state,
            BridgeOwner::released(),
            actions.take(k - 1),
        ).1.owns_lease());
    }
}

/// While the lease is owned and the bridge is serviced at least every `gap_ms`, two
/// heartbeats that follow each other are at most one heartbeat interval and one such
/// gap apart.
pub proof fn law_heartbeats_are_close<S>(
    policy: Policy<S>,
    state: S,
    actions: Seq<Action>,
    first: int,
    second: int,
    gap_ms: nat,
)
    requires
        0 <= first < second < actions.len(),
        heartbeat_at(policy, state, actions, first),
        heartbeat_at(policy, state, actions, second),
        forall|i: int| first < i < second ==> !#[trigger] heartbeat_at(policy, state, actions, i),
        forall|i: int|
            first < i <= second ==> history(
                policy,
                state,
                BridgeOwner::released(),
                #[trigger] actions.take(i),
            ).1.owns_lease(),
        forall|i: int|
            first < i <= second ==> acted_at(#[trigger] actions[i]) <= acted_at(actions[i - 1])
                + gap_ms,
    ensures
        acted_at(actions[second]) <= acted_at(actions[first]) + HEARTBEAT_INTERVAL_MS + gap_ms,
{
    renewal_stands(policy, state, actions, first, second);
    let done = actions.take(second);
    assert(done.last() == actions[second - 1]);
    law_lease_is_renewed_in_time(policy, state, done, acted_at(actions[second]), gap_ms);
}

} // verus!
