//! A Decision V6 result against the context it answers: identity and fence, the checkpoint
//! transition, command ids by ordinal, commands the context allows, acknowledgements of what
//! the context shows as final, and the plan and open-order bounds.
use crate::checkpoint_v6::{
    entry_command_ids, kernel_checkpoint_verdict, update_status_index, validate_kernel_checkpoint,
};
use crate::context_v6::{
    context_derives_sleeve, context_v6_verdict, order_command_ids, receipt_command_ids,
    sleeve_components_fit,
};
use crate::decision_v6::{
    max_open_orders, spec_max_open_orders, status_is_terminal, BrokerOrderV6, CancelTargetV6,
    CommandReceiptV6, DecisionContextV6, DecisionDispositionV6, DecisionResultV6,
    DecisionV6Error, KernelCheckpointV6, OrderUpdateRecordV6, OrderUpdateStatusV6,
    RunnerEntryV6, StrategyCommandV6, command_v6_id, MAX_BROKER_ORDERS, MAX_DECISION_PLAN_ROWS,
    MAX_STRATEGY_COMMANDS,
};
use crate::fence_v6::{decision_fence_v6_sha256, state_fence_message};
use crate::identity_v6::spec_command_id_v6;
use crate::plan_v6::{
    decision_plan_rows_v6, open_order_count, open_orders, plan_rows_after, plan_rows_initial,
    plan_rows_total,
};
use crate::result_v6::result_verdict;
use crate::digest::sha256;
use crate::text::{
    byte_len, hex_digest, optional_string_eq, opt_view, spec_hex, string_eq, string_views,
    strings_contain,
};
use vstd::prelude::*;

verus! {

// ---------------------------------------------------------------------------------------------
// Checkpoint equality and transition
// ---------------------------------------------------------------------------------------------

pub open spec fn update_status_same(a: OrderUpdateStatusV6, b: OrderUpdateStatusV6) -> bool {
    match (a, b) {
        (
            OrderUpdateStatusV6::Refused { code: c1, reason: r1 },
            OrderUpdateStatusV6::Refused { code: c2, reason: r2 },
        ) => c1@ == c2@ && r1@ == r2@,
        _ => update_status_index(a) == update_status_index(b),
    }
}

pub open spec fn entry_same(a: RunnerEntryV6, b: RunnerEntryV6) -> bool {
    &&& a.command_id@ == b.command_id@
    &&& a.kind == b.kind
    &&& opt_view(a.client_order_id) == opt_view(b.client_order_id)
    &&& opt_view(a.order_id) == opt_view(b.order_id)
    &&& opt_view(a.market_id) == opt_view(b.market_id)
    &&& a.action == b.action
    &&& a.side == b.side
    &&& a.requested_quantity_hundredths == b.requested_quantity_hundredths
    &&& match (a.last_status, b.last_status) {
        (Some(x), Some(y)) => update_status_same(x, y),
        (None, None) => true,
        _ => false,
    }
    &&& a.filled_quantity_hundredths == b.filled_quantity_hundredths
    &&& a.order_revision == b.order_revision
    &&& a.issued_broker_revision == b.issued_broker_revision
    &&& a.vanished == b.vanished
    &&& a.vanished_revision == b.vanished_revision
    &&& a.absent_views == b.absent_views
    &&& a.delivery_failures == b.delivery_failures
    &&& a.delivery_deferrals == b.delivery_deferrals
}

/// Two checkpoints hold the same values, field by field.
pub open spec fn checkpoint_same(a: KernelCheckpointV6, b: KernelCheckpointV6) -> bool {
    &&& a.codec_profile@ == b.codec_profile@
    &&& a.codec_version == b.codec_version
    &&& a.strategy_id@ == b.strategy_id@
    &&& a.strategy_profile@ == b.strategy_profile@
    &&& a.profile_and_calculator_digest@ == b.profile_and_calculator_digest@
    &&& a.sequence == b.sequence
    &&& a.state@ == b.state@
    &&& a.runner.seeded == b.runner.seeded
    &&& a.runner.newest_view_revision == b.runner.newest_view_revision
    &&& a.runner.entries@.len() == b.runner.entries@.len()
    &&& forall|i: int|
        0 <= i < a.runner.entries@.len() ==> #[trigger] entry_same(
            a.runner.entries@[i],
            b.runner.entries@[i],
        )
    &&& a.state_sha256@ == b.state_sha256@
}

pub open spec fn optional_checkpoint_same(
    a: Option<KernelCheckpointV6>,
    b: Option<KernelCheckpointV6>,
) -> bool {
    match (a, b) {
        (Some(x), Some(y)) => checkpoint_same(x, y),
        (None, None) => true,
        _ => false,
    }
}

fn update_status_eq(a: &OrderUpdateStatusV6, b: &OrderUpdateStatusV6) -> (r: bool)
    ensures
        r == update_status_same(*a, *b),
{
    match (a, b) {
        (
            OrderUpdateStatusV6::Refused { code: c1, reason: r1 },
            OrderUpdateStatusV6::Refused { code: c2, reason: r2 },
        ) => string_eq(c1, c2) && string_eq(r1, r2),
        (OrderUpdateStatusV6::Accepted, OrderUpdateStatusV6::Accepted) => true,
        (OrderUpdateStatusV6::Resting, OrderUpdateStatusV6::Resting) => true,
        (OrderUpdateStatusV6::PartiallyFilled, OrderUpdateStatusV6::PartiallyFilled) => true,
        (OrderUpdateStatusV6::Filled, OrderUpdateStatusV6::Filled) => true,
        (OrderUpdateStatusV6::Cancelled, OrderUpdateStatusV6::Cancelled) => true,
        (OrderUpdateStatusV6::Expired, OrderUpdateStatusV6::Expired) => true,
        _ => false,
    }
}

fn entry_eq(a: &RunnerEntryV6, b: &RunnerEntryV6) -> (r: bool)
    ensures
        r == entry_same(*a, *b),
{
    let status = match (&a.last_status, &b.last_status) {
        (Some(x), Some(y)) => update_status_eq(x, y),
        (None, None) => true,
        _ => false,
    };
    string_eq(&a.command_id, &b.command_id) && a.kind == b.kind && optional_string_eq(
        &a.client_order_id,
        &b.client_order_id,
    ) && optional_string_eq(&a.order_id, &b.order_id) && optional_string_eq(
        &a.market_id,
        &b.market_id,
    ) && a.action == b.action && a.side == b.side && a.requested_quantity_hundredths
        == b.requested_quantity_hundredths && status && a.filled_quantity_hundredths
        == b.filled_quantity_hundredths && a.order_revision == b.order_revision
        && a.issued_broker_revision == b.issued_broker_revision && a.vanished == b.vanished
        && a.vanished_revision == b.vanished_revision && a.absent_views == b.absent_views
        && a.delivery_failures == b.delivery_failures && a.delivery_deferrals
        == b.delivery_deferrals
}

fn bytes_eq(a: &Vec<u8>, b: &Vec<u8>) -> (r: bool)
    ensures
        r == (a@ == b@),
{
    if a.len() != b.len() {
        return false;
    }
    let mut i: usize = 0;
    while i < a.len()
        invariant
            0 <= i <= a@.len(),
            a@.len() == b@.len(),
            forall|k: int| 0 <= k < i ==> a@[k] == b@[k],
        decreases a@.len() - i,
    {
        if a[i] != b[i] {
            return false;
        }
        i += 1;
    }
    assert(a@ =~= b@);
    true
}

/// Whether two checkpoints hold the same values.
pub fn checkpoints_equal(a: &KernelCheckpointV6, b: &KernelCheckpointV6) -> (r: bool)
    ensures
        r == checkpoint_same(*a, *b),
{
    if !string_eq(&a.codec_profile, &b.codec_profile) || a.codec_version != b.codec_version
        || !string_eq(&a.strategy_id, &b.strategy_id) || !string_eq(
        &a.strategy_profile,
        &b.strategy_profile,
    ) || !string_eq(&a.profile_and_calculator_digest, &b.profile_and_calculator_digest)
        || a.sequence != b.sequence || !bytes_eq(&a.state, &b.state) || a.runner.seeded
        != b.runner.seeded || a.runner.newest_view_revision != b.runner.newest_view_revision
        || a.runner.entries.len() != b.runner.entries.len() || !crate::digest::digest_eq(
        &a.state_sha256,
        &b.state_sha256,
    ) {
        return false;
    }
    let mut i: usize = 0;
    while i < a.runner.entries.len()
        invariant
            0 <= i <= a.runner.entries@.len(),
            a.runner.entries@.len() == b.runner.entries@.len(),
            forall|k: int|
                0 <= k < i ==> #[trigger] entry_same(a.runner.entries@[k], b.runner.entries@[k]),
        decreases a.runner.entries@.len() - i,
    {
        if !entry_eq(&a.runner.entries[i], &b.runner.entries[i]) {
            return false;
        }
        i += 1;
    }
    true
}

/// What the checkpoint transition gives: an output checkpoint must belong to the Strategy; a
/// completed decision advances the sequence by exactly one (from 1 without an input
/// checkpoint); a rejected one returns the input checkpoint unchanged.
pub open spec fn checkpoint_transition_verdict(c: DecisionContextV6, r: DecisionResultV6) -> Result<
    (),
    DecisionV6Error,
> {
    if r.kernel_checkpoint is Some && kernel_checkpoint_verdict(
        c.strategy,
        r.kernel_checkpoint->0,
    ) is Err {
        kernel_checkpoint_verdict(c.strategy, r.kernel_checkpoint->0)
    } else {
        match r.disposition {
            DecisionDispositionV6::Completed => match r.kernel_checkpoint {
                None => Err(DecisionV6Error::InvalidContract),
                Some(out) => {
                    let expected = match c.kernel_checkpoint {
                        Some(previous) => previous.sequence + 1,
                        None => 1,
                    };
                    if out.sequence == expected {
                        Ok(())
                    } else {
                        Err(DecisionV6Error::InvalidContract)
                    }
                },
            },
            DecisionDispositionV6::Rejected => if optional_checkpoint_same(
                r.kernel_checkpoint,
                c.kernel_checkpoint,
            ) {
                Ok(())
            } else {
                Err(DecisionV6Error::InvalidContract)
            },
        }
    }
}

pub fn validate_checkpoint_transition(
    context: &DecisionContextV6,
    result: &DecisionResultV6,
) -> (r: Result<(), DecisionV6Error>)
    ensures
        r == checkpoint_transition_verdict(*context, *result),
{
    if let Some(checkpoint) = &result.kernel_checkpoint {
        let checked = validate_kernel_checkpoint(&context.strategy, checkpoint);
        if checked.is_err() {
            return checked;
        }
    }
    match result.disposition {
        DecisionDispositionV6::Completed => {
            let checkpoint = match &result.kernel_checkpoint {
                None => {
                    return Err(DecisionV6Error::InvalidContract);
                },
                Some(checkpoint) => checkpoint,
            };
            let expected = match &context.kernel_checkpoint {
                Some(previous) => match previous.sequence.checked_add(1) {
                    Some(next) => next,
                    None => {
                        return Err(DecisionV6Error::InvalidContract);
                    },
                },
                None => 1,
            };
            if checkpoint.sequence != expected {
                return Err(DecisionV6Error::InvalidContract);
            }
            Ok(())
        },
        DecisionDispositionV6::Rejected => {
            let same = match (&result.kernel_checkpoint, &context.kernel_checkpoint) {
                (Some(a), Some(b)) => checkpoints_equal(a, b),
                (None, None) => true,
                _ => false,
            };
            if same {
                Ok(())
            } else {
                Err(DecisionV6Error::InvalidContract)
            }
        },
    }
}

// ---------------------------------------------------------------------------------------------
// The result against its context
// ---------------------------------------------------------------------------------------------

/// A command is one the context allows: a place in a scoped Market, a cancel of an order the
/// context shows at the expected revision, timers only when granted, and a cancel-all only over
/// a complete order view.
pub open spec fn order_at_revision(o: BrokerOrderV6, order_id: Seq<char>, revision: u64) -> bool {
    o.order_id@ == order_id && o.revision == revision
}

pub open spec fn command_allowed(c: DecisionContextV6, command: StrategyCommandV6) -> bool {
    match command {
        StrategyCommandV6::PlaceOrder(o) => string_views(c.strategy.market_ids@).contains(
            o.market_id@,
        ),
        StrategyCommandV6::CancelOrder {
            target: CancelTargetV6::Order { order_id, expected_order_revision },
            ..
        } => exists|i: int|
            0 <= i < c.broker.orders@.len() && #[trigger] order_at_revision(
                c.broker.orders@[i],
                order_id@,
                expected_order_revision,
            ),
        StrategyCommandV6::ScheduleTimer { .. } | StrategyCommandV6::CancelTimer { .. } =>
            c.capabilities.timers,
        StrategyCommandV6::CancelAllOrders { .. } => c.orders_complete,
        _ => true,
    }
}

/// The command ids of the final context orders, in order.
pub open spec fn final_order_command_ids(s: Seq<BrokerOrderV6>) -> Seq<Seq<char>>
    decreases s.len(),
{
    if s.len() == 0 {
        Seq::empty()
    } else {
        let rest = final_order_command_ids(s.drop_last());
        if status_is_terminal(s.last().status) {
            rest.push(s.last().command_id@)
        } else {
            rest
        }
    }
}

/// What the result may acknowledge: its receipts and its final orders.
pub open spec fn acknowledgeable(c: DecisionContextV6, id: Seq<char>) -> bool {
    receipt_command_ids(c.command_receipts@).contains(id) || final_order_command_ids(
        c.broker.orders@,
    ).contains(id)
}

pub open spec fn place_count(s: Seq<StrategyCommandV6>) -> nat
    decreases s.len(),
{
    if s.len() == 0 {
        0
    } else {
        place_count(s.drop_last()) + if s.last() is PlaceOrder {
            1nat
        } else {
            0nat
        }
    }
}

/// The plan rows of a result's commands against its context.
pub open spec fn result_plan_rows(c: DecisionContextV6, r: DecisionResultV6) -> int {
    plan_rows_total(
        plan_rows_after(
            plan_rows_initial(
                c.broker,
                r.acknowledged_command_ids@.len() > 0,
                c.deployment_mode,
            ),
            r.commands@,
            c.broker,
            r.commands@.len(),
        ),
    )
}

/// What the checks after the checkpoint transition give: command ids by ordinal, commands
/// the context allows, acknowledgements, plan rows and open orders.
pub open spec fn answer_commands_verdict(c: DecisionContextV6, r: DecisionResultV6) -> Result<
    (),
    DecisionV6Error,
> {
    if !(forall|i: int|
        0 <= i < r.commands@.len() ==> Some(command_v6_id(#[trigger] r.commands@[i]))
            == spec_command_id_v6(
            c.owner_state.sleeve.sleeve_id@,
            c.owner_state.sleeve.incarnation,
            c.owner_state.delivery_id@,
            i as u32,
        )) {
        Err(DecisionV6Error::InvalidContract)
    } else if !(forall|i: int|
        0 <= i < r.commands@.len() ==> #[trigger] command_allowed(c, r.commands@[i])) {
        Err(DecisionV6Error::InvalidContract)
    } else if !(forall|i: int|
        0 <= i < r.acknowledged_command_ids@.len() ==> acknowledgeable(
            c,
            #[trigger] r.acknowledged_command_ids@[i]@,
        )) {
        Err(DecisionV6Error::InvalidContract)
    } else if result_plan_rows(c, r) > MAX_DECISION_PLAN_ROWS {
        Err(DecisionV6Error::BoundExceeded)
    } else if place_count(r.commands@) > 0 && open_order_count(c.broker.orders@) + place_count(
        r.commands@,
    ) > spec_max_open_orders(c.deployment_mode) {
        Err(DecisionV6Error::BoundExceeded)
    } else {
        Ok(())
    }
}

/// What validating a result against its context gives, check by check.
pub open spec fn decision_result_v6_verdict(
    c: DecisionContextV6,
    r: DecisionResultV6,
) -> Result<(), DecisionV6Error> {
    if context_v6_verdict(c) is Err {
        context_v6_verdict(c)
    } else if result_verdict(r) is Err {
        result_verdict(r)
    } else if r.delivery_id@ != c.owner_state.delivery_id@ || r.sleeve_identity@
        != c.owner_state.sleeve.sleeve_id@ || r.expected_broker_revision != c.broker.revision
        || r.state_fence@ != spec_hex(sha256(state_fence_message(c))) {
        Err(DecisionV6Error::InvalidContract)
    } else if checkpoint_transition_verdict(c, r) is Err {
        checkpoint_transition_verdict(c, r)
    } else {
        answer_commands_verdict(c, r)
    }
}

fn order_present_at(orders: &Vec<BrokerOrderV6>, order_id: &String, revision: u64) -> (r: bool)
    ensures
        r == exists|i: int|
            0 <= i < orders@.len() && #[trigger] order_at_revision(orders@[i], order_id@, revision),
{
    let mut i: usize = 0;
    while i < orders.len()
        invariant
            0 <= i <= orders@.len(),
            forall|k: int|
                0 <= k < i ==> !#[trigger] order_at_revision(orders@[k], order_id@, revision),
        decreases orders@.len() - i,
    {
        if string_eq(&orders[i].order_id, order_id) && orders[i].revision == revision {
            assert(order_at_revision(orders@[i as int], order_id@, revision));
            return true;
        }
        i += 1;
    }
    false
}

fn command_allowed_in(context: &DecisionContextV6, command: &StrategyCommandV6) -> (r: bool)
    ensures
        r == command_allowed(*context, *command),
{
    match command {
        StrategyCommandV6::PlaceOrder(order) => strings_contain(
            &context.strategy.market_ids,
            &order.market_id,
        ),
        StrategyCommandV6::CancelOrder {
            target: CancelTargetV6::Order { order_id, expected_order_revision },
            ..
        } => order_present_at(&context.broker.orders, order_id, *expected_order_revision),
        StrategyCommandV6::ScheduleTimer { .. } | StrategyCommandV6::CancelTimer { .. } => {
            context.capabilities.timers
        },
        StrategyCommandV6::CancelAllOrders { .. } => context.orders_complete,
        _ => true,
    }
}

fn acknowledgeable_ids(context: &DecisionContextV6) -> (r: Vec<String>)
    ensures
        forall|id: Seq<char>| string_views(r@).contains(id) == acknowledgeable(*context, id),
{
    let mut ids: Vec<String> = Vec::new();
    let receipts = &context.command_receipts;
    let mut i: usize = 0;
    while i < receipts.len()
        invariant
            0 <= i <= receipts@.len(),
            string_views(ids@) =~= receipt_command_ids(receipts@.take(i as int)),
        decreases receipts@.len() - i,
    {
        let ghost before = ids@;
        ids.push(receipts[i].command_id.clone());
        proof {
            assert(string_views(ids@) =~= string_views(before).push(receipts@[i as int].command_id@));
            assert(receipt_command_ids(receipts@.take(i + 1)) =~= receipt_command_ids(
                receipts@.take(i as int),
            ).push(receipts@[i as int].command_id@));
        }
        i += 1;
    }
    assert(receipts@.take(receipts@.len() as int) =~= receipts@);
    let ghost head = ids@;
    let orders = &context.broker.orders;
    let mut j: usize = 0;
    while j < orders.len()
        invariant
            0 <= j <= orders@.len(),
            string_views(head) == receipt_command_ids(context.command_receipts@),
            string_views(ids@) =~= string_views(head) + final_order_command_ids(
                orders@.take(j as int),
            ),
        decreases orders@.len() - j,
    {
        proof {
            assert(orders@.take(j + 1).drop_last() =~= orders@.take(j as int));
        }
        let ghost before = ids@;
        if orders[j].status.is_terminal() {
            ids.push(orders[j].command_id.clone());
            assert(string_views(ids@) =~= string_views(before).push(orders@[j as int].command_id@));
        }
        j += 1;
    }
    assert(orders@.take(orders@.len() as int) =~= orders@);
    proof {
        let a = receipt_command_ids(context.command_receipts@);
        let b = final_order_command_ids(context.broker.orders@);
        assert forall|id: Seq<char>| (a + b).contains(id) == (a.contains(id) || b.contains(id)) by {
            if (a + b).contains(id) {
                let k = choose|k: int| 0 <= k < (a + b).len() && (a + b)[k] == id;
                if k < a.len() {
                    assert(a[k] == id);
                } else {
                    assert(b[k - a.len()] == id);
                }
            }
            if a.contains(id) {
                let k = choose|k: int| 0 <= k < a.len() && a[k] == id;
                assert((a + b)[k] == id);
            }
            if b.contains(id) {
                let k = choose|k: int| 0 <= k < b.len() && b[k] == id;
                assert((a + b)[k + a.len()] == id);
            }
        }
    }
    ids
}

fn count_places(commands: &Vec<StrategyCommandV6>) -> (r: usize)
    ensures
        r == place_count(commands@),
        r <= commands@.len(),
{
    let mut count: usize = 0;
    let mut i: usize = 0;
    while i < commands.len()
        invariant
            0 <= i <= commands@.len(),
            count == place_count(commands@.take(i as int)),
            count <= i,
        decreases commands@.len() - i,
    {
        proof {
            assert(commands@.take(i + 1).drop_last() =~= commands@.take(i as int));
        }
        if matches!(commands[i], StrategyCommandV6::PlaceOrder(_)) {
            count += 1;
        }
        i += 1;
    }
    assert(commands@.take(commands@.len() as int) =~= commands@);
    count
}

fn validate_answer_commands(context: &DecisionContextV6, result: &DecisionResultV6) -> (r: Result<
    (),
    DecisionV6Error,
>)
    requires
        result.commands@.len() <= MAX_STRATEGY_COMMANDS,
        context.broker.orders@.len() <= MAX_BROKER_ORDERS,
    ensures
        r == answer_commands_verdict(*context, *result),
{
    let mut i: usize = 0;
    while i < result.commands.len()
        invariant
            0 <= i <= result.commands@.len(),
            result.commands@.len() <= MAX_STRATEGY_COMMANDS,
            forall|k: int|
                0 <= k < i ==> Some(command_v6_id(#[trigger] result.commands@[k]))
                    == spec_command_id_v6(
                    context.owner_state.sleeve.sleeve_id@,
                    context.owner_state.sleeve.incarnation,
                    context.owner_state.delivery_id@,
                    k as u32,
                ),
        decreases result.commands@.len() - i,
    {
        let expected = crate::identity_v6::command_id_v6(
            &context.owner_state.sleeve.sleeve_id,
            context.owner_state.sleeve.incarnation,
            &context.owner_state.delivery_id,
            i as u32,
        );
        let matches = match &expected {
            Some(id) => string_eq(result.commands[i].command_id(), id),
            None => false,
        };
        if !matches {
            return Err(DecisionV6Error::InvalidContract);
        }
        i += 1;
    }
    let mut j: usize = 0;
    while j < result.commands.len()
        invariant
            0 <= j <= result.commands@.len(),
            forall|k: int| 0 <= k < j ==> #[trigger] command_allowed(*context, result.commands@[k]),
        decreases result.commands@.len() - j,
    {
        if !command_allowed_in(context, &result.commands[j]) {
            return Err(DecisionV6Error::InvalidContract);
        }
        j += 1;
    }
    let allowed = acknowledgeable_ids(context);
    let mut k: usize = 0;
    while k < result.acknowledged_command_ids.len()
        invariant
            0 <= k <= result.acknowledged_command_ids@.len(),
            forall|id: Seq<char>| string_views(allowed@).contains(id) == acknowledgeable(*context, id),
            forall|q: int|
                0 <= q < k ==> acknowledgeable(
                    *context,
                    #[trigger] result.acknowledged_command_ids@[q]@,
                ),
        decreases result.acknowledged_command_ids@.len() - k,
    {
        if !strings_contain(&allowed, &result.acknowledged_command_ids[k]) {
            assert(!acknowledgeable(*context, result.acknowledged_command_ids@[k as int]@));
            return Err(DecisionV6Error::InvalidContract);
        }
        k += 1;
    }
    assert(result.commands@.len() * (3 * (context.broker.orders@.len() + result.commands@.len())
        + 12) + 12 <= usize::MAX) by (nonlinear_arith)
        requires
            result.commands@.len() <= 64,
            context.broker.orders@.len() <= 256,
    ;
    if decision_plan_rows_v6(context, result) > MAX_DECISION_PLAN_ROWS {
        return Err(DecisionV6Error::BoundExceeded);
    }
    let places = count_places(&result.commands);
    if places > 0 && open_orders(&context.broker) + places > max_open_orders(
        context.deployment_mode,
    ) {
        return Err(DecisionV6Error::BoundExceeded);
    }
    Ok(())
}

/// Validates a result against the context it answers.
pub fn validate_decision_result_v6(context: &DecisionContextV6, result: &DecisionResultV6) -> (r:
    Result<(), DecisionV6Error>)
    requires
        context_derives_sleeve(*context) ==> sleeve_components_fit(*context),
    ensures
        r == decision_result_v6_verdict(*context, *result),
{
    let checked = context.validate();
    if checked.is_err() {
        return checked;
    }
    let shape = result.validate();
    if shape.is_err() {
        return shape;
    }
    let fence = match decision_fence_v6_sha256(context) {
        Ok(fence) => fence,
        Err(e) => {
            return Err(e);
        },
    };
    let fence_hex = hex_digest(&fence);
    if !string_eq(&result.delivery_id, &context.owner_state.delivery_id) || !string_eq(
        &result.sleeve_identity,
        &context.owner_state.sleeve.sleeve_id,
    ) || result.expected_broker_revision != context.broker.revision || !string_eq(
        &result.state_fence,
        &fence_hex,
    ) {
        return Err(DecisionV6Error::InvalidContract);
    }
    let transition = validate_checkpoint_transition(context, result);
    if transition.is_err() {
        return transition;
    }
    proof {
        assert(crate::context_v6::broker_verdict(*context) is Ok);
        assert(crate::result_v6::result_bounds_valid(*result));
    }
    validate_answer_commands(context, result)
}

/// The receipt of a command id (the last one listed for it), for callers that look receipts
/// up by command.
pub fn receipts_by_command<'a>(receipts: &'a [CommandReceiptV6], command_id: &String) -> (r: Option<
    &'a CommandReceiptV6,
>)
    ensures
        match r {
            Some(found) => exists|i: int|
                0 <= i < receipts@.len() && receipts@[i] == *found && found.command_id@
                    == command_id@ && forall|k: int|
                    i < k < receipts@.len() ==> #[trigger] receipts@[k].command_id@
                        != command_id@,
            None => forall|k: int|
                0 <= k < receipts@.len() ==> #[trigger] receipts@[k].command_id@
                    != command_id@,
        },
{
    let mut i: usize = receipts.len();
    while i > 0
        invariant
            0 <= i <= receipts@.len(),
            forall|k: int| i <= k < receipts@.len() ==> #[trigger] receipts@[k].command_id@ != command_id@,
        decreases i,
    {
        i -= 1;
        if string_eq(&receipts[i].command_id, command_id) {
            return Some(&receipts[i]);
        }
    }
    None
}

} // verus!
