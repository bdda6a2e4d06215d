//! The durable legacy V5 shapes, whose command and outcome quantities are whole contracts, their
//! conversion to and from the current hundredths shapes, and the command digest that binds a
//! command's wire encoding (current or legacy).
use crate::checkpoint_v6::{action_index, side_index};
use crate::decision_v5::{
    command_v5_id, spec_hundredths_to_whole, spec_whole_to_hundredths, hundredths_to_whole_contracts,
    whole_contracts_to_hundredths, BrokerCommandKindV5, BrokerCommandReturnV5,
    BrokerOutcomeStatusV5, BrokerOutcomeV5, CancelAllOrdersReturnV5, CancelOrderReturnV5,
    CommandFenceV5, ContractSideV5, DecisionV5Error, KernelBrokerErrorV5, KernelOrderResultV5,
    KernelOrderStatusV5, OrderActionV5, OrderTypeV5, OriginatingTriggerV5, OwnerTriggerV5,
    PlaceOrderReturnV5, PlaceOrderV5, StrategyCommandV5, TriggerV5,
};
use crate::digest::{extend, sha256, sha256_digest};
use crate::result_v5::{command_v5_verdict, validate_command};
use crate::text::opt_view;
use crate::wire::{
    put, put_opt_i64, put_opt_str, put_opt_u64, varint, wire_bool, wire_bool_spec, wire_bytes,
    wire_bytes_spec, wire_opt_i64_spec, wire_opt_str_spec, wire_opt_u64_spec, wire_str,
    wire_str_spec, wire_u32, wire_u64,
};
use vstd::prelude::*;

verus! {

/// `strategy-core/decision-v5/command/v1` and a NUL byte.
pub const COMMAND_DIGEST_DOMAIN: [u8; 37] = [
    115, 116, 114, 97, 116, 101, 103, 121, 45, 99, 111, 114, 101, 47, 100, 101, 99, 105, 115,
    105, 111, 110, 45, 118, 53, 47, 99, 111, 109, 109, 97, 110, 100, 47, 118, 49, 0,
];

// ---------------------------------------------------------------------------------------------
// Legacy shapes
// ---------------------------------------------------------------------------------------------

#[derive(Clone, Debug, Eq, PartialEq)]
pub struct LegacyKernelOrderResultV5 {
    pub order_id: String,
    pub status: KernelOrderStatusV5,
    pub filled_quantity: u64,
    pub fill_price_micros: u64,
    pub fee_cost_micros: u64,
    pub reason: String,
}

#[derive(Clone, Debug, Eq, PartialEq)]
pub enum LegacyPlaceOrderReturnV5 {
    Placed(LegacyKernelOrderResultV5),
    Failed(KernelBrokerErrorV5),
}

#[derive(Clone, Debug, Eq, PartialEq)]
pub enum LegacyBrokerCommandReturnV5 {
    PlaceOrder(LegacyPlaceOrderReturnV5),
    CancelOrder(CancelOrderReturnV5),
    CancelAllOrders(CancelAllOrdersReturnV5),
}

#[derive(Clone, Debug, Eq, PartialEq)]
pub struct LegacyBrokerOutcomeV5 {
    pub outcome_id: String,
    pub continuation_id: String,
    pub continuation_generation: u64,
    pub command_id: String,
    pub command_kind: BrokerCommandKindV5,
    pub transition_sequence: u64,
    pub target_order_id: Option<String>,
    pub order_id: Option<String>,
    pub intent_id: Option<String>,
    pub provider_order_id: Option<String>,
    pub provider_client_id: Option<String>,
    pub status: BrokerOutcomeStatusV5,
    pub return_value: LegacyBrokerCommandReturnV5,
    pub requested_quantity: u64,
    pub filled_quantity: u64,
    pub remaining_quantity: u64,
    pub average_fill_price_micros: Option<u64>,
    pub reason: Option<String>,
    pub updated_at_unix_ms: i64,
    pub broker_revision: u64,
}

#[derive(Clone, Debug, Eq, PartialEq)]
pub enum LegacyTriggerV5 {
    Owner(OwnerTriggerV5),
    BrokerState { broker_revision: u64 },
    BrokerOutcome {
        outcome: Box<LegacyBrokerOutcomeV5>,
        originating_trigger: Box<OriginatingTriggerV5>,
    },
}

#[derive(Clone, Debug, Eq, PartialEq)]
pub struct LegacyPlaceOrderV5 {
    pub command_id: String,
    pub fence: CommandFenceV5,
    pub market_id: String,
    pub action: OrderActionV5,
    pub side: ContractSideV5,
    pub order_type: OrderTypeV5,
    pub quantity: u64,
    pub limit_price_micros: Option<u64>,
    pub market_price_cap_micros: Option<u64>,
    pub expires_after_ms: Option<i64>,
    pub reduce_only: bool,
    pub provider_client_id: String,
    pub signal_type: Option<String>,
    pub signal_metadata: Option<String>,
    pub metadata: Vec<u8>,
}

#[derive(Clone, Debug, Eq, PartialEq)]
pub enum LegacyStrategyCommandV5 {
    PlaceOrder(LegacyPlaceOrderV5),
    CancelOrder {
        command_id: String,
        fence: CommandFenceV5,
        order_id: String,
        expected_order_revision: u64,
    },
    CancelAllOrders { command_id: String, fence: CommandFenceV5 },
    ScheduleTimer {
        command_id: String,
        key: String,
        scheduled_at_epoch_ns: u64,
        generation: String,
        semantics: Vec<u8>,
    },
    CancelTimer { command_id: String, key: String, generation: String },
    Stop { command_id: String, reason: String },
}

// ---------------------------------------------------------------------------------------------
// Legacy to current
// ---------------------------------------------------------------------------------------------

/// A current order result is the legacy one with its filled quantity in hundredths.
pub open spec fn order_result_from_legacy(r: KernelOrderResultV5, l: LegacyKernelOrderResultV5) -> bool {
    &&& r.order_id == l.order_id
    &&& r.status == l.status
    &&& r.filled_quantity_hundredths == l.filled_quantity * 100
    &&& r.fill_price_micros == l.fill_price_micros
    &&& r.fee_cost_micros == l.fee_cost_micros
    &&& r.reason == l.reason
}

pub fn convert_legacy_order_result(result: LegacyKernelOrderResultV5) -> (r: Result<
    KernelOrderResultV5,
    DecisionV5Error,
>)
    ensures
        spec_whole_to_hundredths(result.filled_quantity) is None ==> r == Err::<
            KernelOrderResultV5,
            DecisionV5Error,
        >(DecisionV5Error::InvalidContract),
        spec_whole_to_hundredths(result.filled_quantity) is Some ==> r is Ok
            && order_result_from_legacy(r->Ok_0, result),
{
    let filled = match whole_contracts_to_hundredths(result.filled_quantity) {
        Ok(q) => q,
        Err(e) => {
            return Err(e);
        },
    };
    Ok(
        KernelOrderResultV5 {
            order_id: result.order_id,
            status: result.status,
            filled_quantity_hundredths: filled,
            fill_price_micros: result.fill_price_micros,
            fee_cost_micros: result.fee_cost_micros,
            reason: result.reason,
        },
    )
}

pub open spec fn legacy_return_quantity_fits(v: LegacyBrokerCommandReturnV5) -> bool {
    match v {
        LegacyBrokerCommandReturnV5::PlaceOrder(LegacyPlaceOrderReturnV5::Placed(result)) =>
            spec_whole_to_hundredths(result.filled_quantity) is Some,
        _ => true,
    }
}

/// A current return value is the legacy one with a placed order's filled quantity in
/// hundredths.
pub open spec fn return_from_legacy(r: BrokerCommandReturnV5, l: LegacyBrokerCommandReturnV5) -> bool {
    match (r, l) {
        (
            BrokerCommandReturnV5::PlaceOrder(PlaceOrderReturnV5::Placed(a)),
            LegacyBrokerCommandReturnV5::PlaceOrder(LegacyPlaceOrderReturnV5::Placed(b)),
        ) => order_result_from_legacy(a, b),
        (
            BrokerCommandReturnV5::PlaceOrder(PlaceOrderReturnV5::Failed(a)),
            LegacyBrokerCommandReturnV5::PlaceOrder(LegacyPlaceOrderReturnV5::Failed(b)),
        ) => a == b,
        (
            BrokerCommandReturnV5::CancelOrder(a),
            LegacyBrokerCommandReturnV5::CancelOrder(b),
        ) => a == b,
        (
            BrokerCommandReturnV5::CancelAllOrders(a),
            LegacyBrokerCommandReturnV5::CancelAllOrders(b),
        ) => a == b,
        _ => false,
    }
}

pub fn convert_legacy_return(value: LegacyBrokerCommandReturnV5) -> (r: Result<
    BrokerCommandReturnV5,
    DecisionV5Error,
>)
    ensures
        !legacy_return_quantity_fits(value) ==> r == Err::<BrokerCommandReturnV5, DecisionV5Error>(
            DecisionV5Error::InvalidContract,
        ),
        legacy_return_quantity_fits(value) ==> r is Ok && return_from_legacy(r->Ok_0, value),
{
    match value {
        LegacyBrokerCommandReturnV5::PlaceOrder(LegacyPlaceOrderReturnV5::Placed(result)) => {
            match convert_legacy_order_result(result) {
                Ok(converted) => Ok(
                    BrokerCommandReturnV5::PlaceOrder(PlaceOrderReturnV5::Placed(converted)),
                ),
                Err(e) => Err(e),
            }
        },
        LegacyBrokerCommandReturnV5::PlaceOrder(LegacyPlaceOrderReturnV5::Failed(error)) => {
            Ok(BrokerCommandReturnV5::PlaceOrder(PlaceOrderReturnV5::Failed(error)))
        },
        LegacyBrokerCommandReturnV5::CancelOrder(value) => Ok(
            BrokerCommandReturnV5::CancelOrder(value),
        ),
        LegacyBrokerCommandReturnV5::CancelAllOrders(value) => Ok(
            BrokerCommandReturnV5::CancelAllOrders(value),
        ),
    }
}

pub open spec fn legacy_outcome_quantities_fit(o: LegacyBrokerOutcomeV5) -> bool {
    &&& legacy_return_quantity_fits(o.return_value)
    &&& spec_whole_to_hundredths(o.requested_quantity) is Some
    &&& spec_whole_to_hundredths(o.filled_quantity) is Some
    &&& spec_whole_to_hundredths(o.remaining_quantity) is Some
}

/// A current outcome is the legacy one with its quantities in hundredths.
pub open spec fn outcome_from_legacy(r: BrokerOutcomeV5, l: LegacyBrokerOutcomeV5) -> bool {
    &&& r.outcome_id == l.outcome_id
    &&& r.continuation_id == l.continuation_id
    &&& r.continuation_generation == l.continuation_generation
    &&& r.command_id == l.command_id
    &&& r.command_kind == l.command_kind
    &&& r.transition_sequence == l.transition_sequence
    &&& r.target_order_id == l.target_order_id
    &&& r.order_id == l.order_id
    &&& r.intent_id == l.intent_id
    &&& r.provider_order_id == l.provider_order_id
    &&& r.provider_client_id == l.provider_client_id
    &&& r.status == l.status
    &&& return_from_legacy(r.return_value, l.return_value)
    &&& r.requested_quantity_hundredths == l.requested_quantity * 100
    &&& r.filled_quantity_hundredths == l.filled_quantity * 100
    &&& r.remaining_quantity_hundredths == l.remaining_quantity * 100
    &&& r.average_fill_price_micros == l.average_fill_price_micros
    &&& r.reason == l.reason
    &&& r.updated_at_unix_ms == l.updated_at_unix_ms
    &&& r.broker_revision == l.broker_revision
}

pub fn convert_legacy_outcome(outcome: LegacyBrokerOutcomeV5) -> (r: Result<
    BrokerOutcomeV5,
    DecisionV5Error,
>)
    ensures
        !legacy_outcome_quantities_fit(outcome) ==> r == Err::<BrokerOutcomeV5, DecisionV5Error>(
            DecisionV5Error::InvalidContract,
        ),
        legacy_outcome_quantities_fit(outcome) ==> r is Ok && outcome_from_legacy(
            r->Ok_0,
            outcome,
        ),
{
    let return_value = match convert_legacy_return(outcome.return_value) {
        Ok(v) => v,
        Err(e) => {
            return Err(e);
        },
    };
    let requested = match whole_contracts_to_hundredths(outcome.requested_quantity) {
        Ok(q) => q,
        Err(e) => {
            return Err(e);
        },
    };
    let filled = match whole_contracts_to_hundredths(outcome.filled_quantity) {
        Ok(q) => q,
        Err(e) => {
            return Err(e);
        },
    };
    let remaining = match whole_contracts_to_hundredths(outcome.remaining_quantity) {
        Ok(q) => q,
        Err(e) => {
            return Err(e);
        },
    };
    Ok(
        BrokerOutcomeV5 {
            outcome_id: outcome.outcome_id,
            continuation_id: outcome.continuation_id,
            continuation_generation: outcome.continuation_generation,
            command_id: outcome.command_id,
            command_kind: outcome.command_kind,
            transition_sequence: outcome.transition_sequence,
            target_order_id: outcome.target_order_id,
            order_id: outcome.order_id,
            intent_id: outcome.intent_id,
            provider_order_id: outcome.provider_order_id,
            provider_client_id: outcome.provider_client_id,
            status: outcome.status,
            return_value,
            requested_quantity_hundredths: requested,
            filled_quantity_hundredths: filled,
            remaining_quantity_hundredths: remaining,
            average_fill_price_micros: outcome.average_fill_price_micros,
            reason: outcome.reason,
            updated_at_unix_ms: outcome.updated_at_unix_ms,
            broker_revision: outcome.broker_revision,
        },
    )
}

pub open spec fn legacy_trigger_fits(t: LegacyTriggerV5) -> bool {
    match t {
        LegacyTriggerV5::BrokerOutcome { outcome, .. } => legacy_outcome_quantities_fit(*outcome),
        _ => true,
    }
}

pub open spec fn trigger_from_legacy(r: TriggerV5, l: LegacyTriggerV5) -> bool {
    match (r, l) {
        (TriggerV5::Owner(a), LegacyTriggerV5::Owner(b)) => a == b,
        (
            TriggerV5::BrokerState { broker_revision: a },
            LegacyTriggerV5::BrokerState { broker_revision: b },
        ) => a == b,
        (
            TriggerV5::BrokerOutcome { outcome: a, originating_trigger: oa },
            LegacyTriggerV5::BrokerOutcome { outcome: b, originating_trigger: ob },
        ) => outcome_from_legacy(*a, *b) && oa == ob,
        _ => false,
    }
}

pub fn convert_legacy_trigger(trigger: LegacyTriggerV5) -> (r: Result<TriggerV5, DecisionV5Error>)
    ensures
        !legacy_trigger_fits(trigger) ==> r == Err::<TriggerV5, DecisionV5Error>(
            DecisionV5Error::InvalidContract,
        ),
        legacy_trigger_fits(trigger) ==> r is Ok && trigger_from_legacy(r->Ok_0, trigger),
{
    match trigger {
        LegacyTriggerV5::Owner(t) => Ok(TriggerV5::Owner(t)),
        LegacyTriggerV5::BrokerState { broker_revision } => Ok(
            TriggerV5::BrokerState { broker_revision },
        ),
        LegacyTriggerV5::BrokerOutcome { outcome, originating_trigger } => {
            match convert_legacy_outcome(*outcome) {
                Ok(converted) => Ok(
                    TriggerV5::BrokerOutcome {
                        outcome: Box::new(converted),
                        originating_trigger,
                    },
                ),
                Err(e) => Err(e),
            }
        },
    }
}

pub open spec fn legacy_command_fits(c: LegacyStrategyCommandV5) -> bool {
    match c {
        LegacyStrategyCommandV5::PlaceOrder(o) => spec_whole_to_hundredths(o.quantity) is Some,
        _ => true,
    }
}

/// A current command and a legacy one agree, with the place's quantity in hundredths in the
/// current one.
pub open spec fn command_matches_legacy(c: StrategyCommandV5, l: LegacyStrategyCommandV5) -> bool {
    match (c, l) {
        (StrategyCommandV5::PlaceOrder(a), LegacyStrategyCommandV5::PlaceOrder(b)) => {
            &&& a.command_id@ == b.command_id@
            &&& a.fence.continuation_id@ == b.fence.continuation_id@
            &&& a.fence.continuation_generation == b.fence.continuation_generation
            &&& a.fence.expected_broker_revision == b.fence.expected_broker_revision
            &&& a.market_id@ == b.market_id@
            &&& a.action == b.action
            &&& a.side == b.side
            &&& a.order_type == b.order_type
            &&& a.quantity_hundredths == b.quantity * 100
            &&& a.limit_price_micros == b.limit_price_micros
            &&& a.market_price_cap_micros == b.market_price_cap_micros
            &&& a.expires_after_ms == b.expires_after_ms
            &&& a.reduce_only == b.reduce_only
            &&& a.provider_client_id@ == b.provider_client_id@
            &&& opt_view(a.signal_type) == opt_view(b.signal_type)
            &&& opt_view(a.signal_metadata) == opt_view(b.signal_metadata)
            &&& a.metadata@ == b.metadata@
        },
        (
            StrategyCommandV5::CancelOrder { command_id: a, fence: fa, order_id: oa, expected_order_revision: ra },
            LegacyStrategyCommandV5::CancelOrder { command_id: b, fence: fb, order_id: ob, expected_order_revision: rb },
        ) => a@ == b@ && fa.continuation_id@ == fb.continuation_id@ && fa.continuation_generation
            == fb.continuation_generation && fa.expected_broker_revision
            == fb.expected_broker_revision && oa@ == ob@ && ra == rb,
        (
            StrategyCommandV5::CancelAllOrders { command_id: a, fence: fa },
            LegacyStrategyCommandV5::CancelAllOrders { command_id: b, fence: fb },
        ) => a@ == b@ && fa.continuation_id@ == fb.continuation_id@ && fa.continuation_generation
            == fb.continuation_generation && fa.expected_broker_revision
            == fb.expected_broker_revision,
        (
            StrategyCommandV5::ScheduleTimer { command_id: a, key: ka, scheduled_at_epoch_ns: sa, generation: ga, semantics: ma },
            LegacyStrategyCommandV5::ScheduleTimer { command_id: b, key: kb, scheduled_at_epoch_ns: sb, generation: gb, semantics: mb },
        ) => a@ == b@ && ka@ == kb@ && sa == sb && ga@ == gb@ && ma@ == mb@,
        (
            StrategyCommandV5::CancelTimer { command_id: a, key: ka, generation: ga },
            LegacyStrategyCommandV5::CancelTimer { command_id: b, key: kb, generation: gb },
        ) => a@ == b@ && ka@ == kb@ && ga@ == gb@,
        (
            StrategyCommandV5::Stop { command_id: a, reason: ra },
            LegacyStrategyCommandV5::Stop { command_id: b, reason: rb },
        ) => a@ == b@ && ra@ == rb@,
        _ => false,
    }
}

pub fn convert_legacy_command(command: LegacyStrategyCommandV5) -> (r: Result<
    StrategyCommandV5,
    DecisionV5Error,
>)
    ensures
        !legacy_command_fits(command) ==> r == Err::<StrategyCommandV5, DecisionV5Error>(
            DecisionV5Error::InvalidContract,
        ),
        legacy_command_fits(command) ==> r is Ok && command_matches_legacy(r->Ok_0, command),
{
    match command {
        LegacyStrategyCommandV5::PlaceOrder(order) => {
            let quantity = match whole_contracts_to_hundredths(order.quantity) {
                Ok(q) => q,
                Err(e) => {
                    return Err(e);
                },
            };
            Ok(
                StrategyCommandV5::PlaceOrder(
                    PlaceOrderV5 {
                        command_id: order.command_id,
                        fence: order.fence,
                        market_id: order.market_id,
                        action: order.action,
                        side: order.side,
                        order_type: order.order_type,
                        quantity_hundredths: quantity,
                        limit_price_micros: order.limit_price_micros,
                        market_price_cap_micros: order.market_price_cap_micros,
                        expires_after_ms: order.expires_after_ms,
                        reduce_only: order.reduce_only,
                        provider_client_id: order.provider_client_id,
                        signal_type: order.signal_type,
                        signal_metadata: order.signal_metadata,
                        metadata: order.metadata,
                    },
                ),
            )
        },
        LegacyStrategyCommandV5::CancelOrder {
            command_id,
            fence,
            order_id,
            expected_order_revision,
        } => Ok(StrategyCommandV5::CancelOrder { command_id, fence, order_id, expected_order_revision }),
        LegacyStrategyCommandV5::CancelAllOrders { command_id, fence } => Ok(
            StrategyCommandV5::CancelAllOrders { command_id, fence },
        ),
        LegacyStrategyCommandV5::ScheduleTimer {
            command_id,
            key,
            scheduled_at_epoch_ns,
            generation,
            semantics,
        } => Ok(
            StrategyCommandV5::ScheduleTimer {
                command_id,
                key,
                scheduled_at_epoch_ns,
                generation,
                semantics,
            },
        ),
        LegacyStrategyCommandV5::CancelTimer { command_id, key, generation } => Ok(
            StrategyCommandV5::CancelTimer { command_id, key, generation },
        ),
        LegacyStrategyCommandV5::Stop { command_id, reason } => Ok(
            StrategyCommandV5::Stop { command_id, reason },
        ),
    }
}

// ---------------------------------------------------------------------------------------------
// Current to legacy
// ---------------------------------------------------------------------------------------------

fn copy_bytes(v: &Vec<u8>) -> (r: Vec<u8>)
    ensures
        r@ == v@,
{
    let mut out: Vec<u8> = Vec::new();
    let mut i: usize = 0;
    while i < v.len()
        invariant
            0 <= i <= v@.len(),
            out@ == v@.take(i as int),
        decreases v@.len() - i,
    {
        out.push(v[i]);
        assert(v@.take(i + 1) =~= v@.take(i as int).push(v@[i as int]));
        i += 1;
    }
    assert(v@.take(v@.len() as int) =~= v@);
    out
}

fn copy_opt_string(v: &Option<String>) -> (r: Option<String>)
    ensures
        r == *v,
{
    match v {
        Some(s) => Some(s.clone()),
        None => None,
    }
}

fn copy_fence(f: &CommandFenceV5) -> (r: CommandFenceV5)
    ensures
        r == *f,
{
    CommandFenceV5 {
        continuation_id: f.continuation_id.clone(),
        continuation_generation: f.continuation_generation,
        expected_broker_revision: f.expected_broker_revision,
    }
}

/// The legacy command with a place's quantity in whole contracts; `InvalidContract` when the
/// quantity is not a whole number of contracts.
pub fn legacy_command_from_current(command: &StrategyCommandV5) -> (r: Result<
    LegacyStrategyCommandV5,
    DecisionV5Error,
>)
    ensures
        match *command {
            StrategyCommandV5::PlaceOrder(o) => spec_hundredths_to_whole(o.quantity_hundredths)
                is None,
            _ => false,
        } ==> r == Err::<LegacyStrategyCommandV5, DecisionV5Error>(
            DecisionV5Error::InvalidContract,
        ),
        !(match *command {
            StrategyCommandV5::PlaceOrder(o) => spec_hundredths_to_whole(o.quantity_hundredths)
                is None,
            _ => false,
        }) ==> r is Ok && command_matches_legacy(*command, r->Ok_0),
{
    match command {
        StrategyCommandV5::PlaceOrder(order) => {
            let quantity = match hundredths_to_whole_contracts(order.quantity_hundredths) {
                Ok(q) => q,
                Err(e) => {
                    return Err(e);
                },
            };
            Ok(
                LegacyStrategyCommandV5::PlaceOrder(
                    LegacyPlaceOrderV5 {
                        command_id: order.command_id.clone(),
                        fence: copy_fence(&order.fence),
                        market_id: order.market_id.clone(),
                        action: order.action,
                        side: order.side,
                        order_type: order.order_type,
                        quantity,
                        limit_price_micros: order.limit_price_micros,
                        market_price_cap_micros: order.market_price_cap_micros,
                        expires_after_ms: order.expires_after_ms,
                        reduce_only: order.reduce_only,
                        provider_client_id: order.provider_client_id.clone(),
                        signal_type: copy_opt_string(&order.signal_type),
                        signal_metadata: copy_opt_string(&order.signal_metadata),
                        metadata: copy_bytes(&order.metadata),
                    },
                ),
            )
        },
        StrategyCommandV5::CancelOrder { command_id, fence, order_id, expected_order_revision } => {
            Ok(
                LegacyStrategyCommandV5::CancelOrder {
                    command_id: command_id.clone(),
                    fence: copy_fence(fence),
                    order_id: order_id.clone(),
                    expected_order_revision: *expected_order_revision,
                },
            )
        },
        StrategyCommandV5::CancelAllOrders { command_id, fence } => Ok(
            LegacyStrategyCommandV5::CancelAllOrders {
                command_id: command_id.clone(),
                fence: copy_fence(fence),
            },
        ),
        StrategyCommandV5::ScheduleTimer {
            command_id,
            key,
            scheduled_at_epoch_ns,
            generation,
            semantics,
        } => Ok(
            LegacyStrategyCommandV5::ScheduleTimer {
                command_id: command_id.clone(),
                key: key.clone(),
                scheduled_at_epoch_ns: *scheduled_at_epoch_ns,
                generation: generation.clone(),
                semantics: copy_bytes(semantics),
            },
        ),
        StrategyCommandV5::CancelTimer { command_id, key, generation } => Ok(
            LegacyStrategyCommandV5::CancelTimer {
                command_id: command_id.clone(),
                key: key.clone(),
                generation: generation.clone(),
            },
        ),
        StrategyCommandV5::Stop { command_id, reason } => Ok(
            LegacyStrategyCommandV5::Stop { command_id: command_id.clone(), reason: reason.clone() },
        ),
    }
}

// ---------------------------------------------------------------------------------------------
// Current to legacy
// ---------------------------------------------------------------------------------------------

/// A current return value's quantity is a whole number of contracts.
pub open spec fn return_quantity_whole(v: BrokerCommandReturnV5) -> bool {
    match v {
        BrokerCommandReturnV5::PlaceOrder(PlaceOrderReturnV5::Placed(result)) =>
            spec_hundredths_to_whole(result.filled_quantity_hundredths) is Some,
        _ => true,
    }
}

/// The legacy return value, with a placed order's filled quantity in whole contracts;
/// `InvalidContract` when that is not a whole number of contracts.
pub fn legacy_return_from_current(value: BrokerCommandReturnV5) -> (r: Result<
    LegacyBrokerCommandReturnV5,
    DecisionV5Error,
>)
    ensures
        !return_quantity_whole(value) ==> r == Err::<LegacyBrokerCommandReturnV5, DecisionV5Error>(
            DecisionV5Error::InvalidContract,
        ),
        return_quantity_whole(value) ==> r is Ok && return_from_legacy(value, r->Ok_0),
{
    match value {
        BrokerCommandReturnV5::PlaceOrder(PlaceOrderReturnV5::Placed(result)) => {
            let filled = match hundredths_to_whole_contracts(result.filled_quantity_hundredths) {
                Ok(q) => q,
                Err(e) => {
                    return Err(e);
                },
            };
            Ok(
                LegacyBrokerCommandReturnV5::PlaceOrder(
                    LegacyPlaceOrderReturnV5::Placed(
                        LegacyKernelOrderResultV5 {
                            order_id: result.order_id,
                            status: result.status,
                            filled_quantity: filled,
                            fill_price_micros: result.fill_price_micros,
                            fee_cost_micros: result.fee_cost_micros,
                            reason: result.reason,
                        },
                    ),
                ),
            )
        },
        BrokerCommandReturnV5::PlaceOrder(PlaceOrderReturnV5::Failed(error)) => Ok(
            LegacyBrokerCommandReturnV5::PlaceOrder(LegacyPlaceOrderReturnV5::Failed(error)),
        ),
        BrokerCommandReturnV5::CancelOrder(value) => Ok(
            LegacyBrokerCommandReturnV5::CancelOrder(value),
        ),
        BrokerCommandReturnV5::CancelAllOrders(value) => Ok(
            LegacyBrokerCommandReturnV5::CancelAllOrders(value),
        ),
    }
}

/// A current outcome's quantities are whole numbers of contracts.
pub open spec fn outcome_quantities_whole(o: BrokerOutcomeV5) -> bool {
    &&& return_quantity_whole(o.return_value)
    &&& spec_hundredths_to_whole(o.requested_quantity_hundredths) is Some
    &&& spec_hundredths_to_whole(o.filled_quantity_hundredths) is Some
    &&& spec_hundredths_to_whole(o.remaining_quantity_hundredths) is Some
}

/// The legacy outcome, with its quantities in whole contracts; `InvalidContract` when one is
/// not a whole number of contracts.
pub fn legacy_outcome_from_current(outcome: BrokerOutcomeV5) -> (r: Result<
    LegacyBrokerOutcomeV5,
    DecisionV5Error,
>)
    ensures
        !outcome_quantities_whole(outcome) ==> r == Err::<LegacyBrokerOutcomeV5, DecisionV5Error>(
            DecisionV5Error::InvalidContract,
        ),
        outcome_quantities_whole(outcome) ==> r is Ok && outcome_from_legacy(outcome, r->Ok_0),
{
    let return_value = match legacy_return_from_current(outcome.return_value) {
        Ok(v) => v,
        Err(e) => {
            return Err(e);
        },
    };
    let requested = match hundredths_to_whole_contracts(outcome.requested_quantity_hundredths) {
        Ok(q) => q,
        Err(e) => {
            return Err(e);
        },
    };
    let filled = match hundredths_to_whole_contracts(outcome.filled_quantity_hundredths) {
        Ok(q) => q,
        Err(e) => {
            return Err(e);
        },
    };
    let remaining = match hundredths_to_whole_contracts(outcome.remaining_quantity_hundredths) {
        Ok(q) => q,
        Err(e) => {
            return Err(e);
        },
    };
    Ok(
        LegacyBrokerOutcomeV5 {
            outcome_id: outcome.outcome_id,
            continuation_id: outcome.continuation_id,
            continuation_generation: outcome.continuation_generation,
            command_id: outcome.command_id,
            command_kind: outcome.command_kind,
            transition_sequence: outcome.transition_sequence,
            target_order_id: outcome.target_order_id,
            order_id: outcome.order_id,
            intent_id: outcome.intent_id,
            provider_order_id: outcome.provider_order_id,
            provider_client_id: outcome.provider_client_id,
            status: outcome.status,
            return_value,
            requested_quantity: requested,
            filled_quantity: filled,
            remaining_quantity: remaining,
            average_fill_price_micros: outcome.average_fill_price_micros,
            reason: outcome.reason,
            updated_at_unix_ms: outcome.updated_at_unix_ms,
            broker_revision: outcome.broker_revision,
        },
    )
}

pub open spec fn trigger_quantities_whole(t: TriggerV5) -> bool {
    match t {
        TriggerV5::BrokerOutcome { outcome, .. } => outcome_quantities_whole(*outcome),
        _ => true,
    }
}

/// The legacy trigger, with a Broker outcome's quantities in whole contracts;
/// `InvalidContract` when one is not a whole number of contracts.
pub fn legacy_trigger_from_current(trigger: TriggerV5) -> (r: Result<
    LegacyTriggerV5,
    DecisionV5Error,
>)
    ensures
        !trigger_quantities_whole(trigger) ==> r == Err::<LegacyTriggerV5, DecisionV5Error>(
            DecisionV5Error::InvalidContract,
        ),
        trigger_quantities_whole(trigger) ==> r is Ok && trigger_from_legacy(trigger, r->Ok_0),
{
    match trigger {
        TriggerV5::Owner(t) => Ok(LegacyTriggerV5::Owner(t)),
        TriggerV5::BrokerState { broker_revision } => Ok(
            LegacyTriggerV5::BrokerState { broker_revision },
        ),
        TriggerV5::BrokerOutcome { outcome, originating_trigger } => {
            match legacy_outcome_from_current(*outcome) {
                Ok(converted) => Ok(
                    LegacyTriggerV5::BrokerOutcome {
                        outcome: Box::new(converted),
                        originating_trigger,
                    },
                ),
                Err(e) => Err(e),
            }
        },
    }
}

/// Converting a trigger to its legacy form and back gives the trigger itself, whenever its
/// quantities are whole numbers of contracts.
pub proof fn legacy_trigger_round_trip(
    trigger: TriggerV5,
    legacy: LegacyTriggerV5,
    back: TriggerV5,
)
    requires
        trigger_from_legacy(trigger, legacy),
        trigger_from_legacy(back, legacy),
    ensures
        legacy_trigger_fits(legacy),
        back == trigger,
{
    match (trigger, legacy, back) {
        (
            TriggerV5::BrokerOutcome { outcome: a, .. },
            LegacyTriggerV5::BrokerOutcome { outcome: l, .. },
            TriggerV5::BrokerOutcome { outcome: b, .. },
        ) => {
            assert(a.return_value == b.return_value) by {
                match (a.return_value, l.return_value, b.return_value) {
                    (
                        BrokerCommandReturnV5::PlaceOrder(PlaceOrderReturnV5::Placed(x)),
                        LegacyBrokerCommandReturnV5::PlaceOrder(LegacyPlaceOrderReturnV5::Placed(_)),
                        BrokerCommandReturnV5::PlaceOrder(PlaceOrderReturnV5::Placed(y)),
                    ) => {
                        assert(x == y);
                    },
                    _ => {},
                }
            }
            assert(*a == *b);
        },
        _ => {},
    }
}

// ---------------------------------------------------------------------------------------------
// Wire form and digest of a command
// ---------------------------------------------------------------------------------------------

pub open spec fn wire_fence_spec(f: CommandFenceV5) -> Seq<u8> {
    wire_str_spec(f.continuation_id@) + varint(f.continuation_generation as nat) + varint(
        f.expected_broker_revision as nat,
    )
}

pub open spec fn order_type_index(t: OrderTypeV5) -> nat {
    match t {
        OrderTypeV5::Market => 0,
        OrderTypeV5::Limit => 1,
    }
}

pub open spec fn action_v5_index(a: OrderActionV5) -> nat {
    match a {
        OrderActionV5::Buy => 0,
        OrderActionV5::Sell => 1,
    }
}

pub open spec fn side_v5_index(s: ContractSideV5) -> nat {
    match s {
        ContractSideV5::Yes => 0,
        ContractSideV5::No => 1,
    }
}

/// The fields of a place up to its quantity, with `quantity` written in the quantity field.
pub open spec fn wire_place_head_spec(o: PlaceOrderV5, quantity: u64) -> Seq<u8> {
    wire_str_spec(o.command_id@) + wire_fence_spec(o.fence) + wire_str_spec(o.market_id@)
        + varint(action_v5_index(o.action)) + varint(side_v5_index(o.side)) + varint(
        order_type_index(o.order_type),
    ) + varint(quantity as nat)
}

/// The fields of a place after its quantity.
pub open spec fn wire_place_tail_spec(o: PlaceOrderV5) -> Seq<u8> {
    wire_opt_u64_spec(o.limit_price_micros) + wire_opt_u64_spec(o.market_price_cap_micros)
        + wire_opt_i64_spec(o.expires_after_ms) + wire_bool_spec(o.reduce_only) + wire_str_spec(
        o.provider_client_id@,
    ) + wire_opt_str_spec(opt_view(o.signal_type)) + wire_opt_str_spec(opt_view(o.signal_metadata))
        + wire_bytes_spec(o.metadata@)
}

/// A place on the wire with `quantity` written in its quantity field (hundredths in the current
/// encoding, whole contracts in the legacy one).
pub open spec fn wire_place_spec(o: PlaceOrderV5, quantity: u64) -> Seq<u8> {
    wire_place_head_spec(o, quantity) + wire_place_tail_spec(o)
}

/// A command on the wire, with `quantity` in a place's quantity field.
pub open spec fn wire_command_v5_spec(c: StrategyCommandV5, quantity: u64) -> Seq<u8> {
    match c {
        StrategyCommandV5::PlaceOrder(o) => varint(0) + wire_place_spec(o, quantity),
        StrategyCommandV5::CancelOrder { command_id, fence, order_id, expected_order_revision } =>
            varint(1) + wire_str_spec(command_id@) + wire_fence_spec(fence) + wire_str_spec(
            order_id@,
        ) + varint(expected_order_revision as nat),
        StrategyCommandV5::CancelAllOrders { command_id, fence } => varint(2) + wire_str_spec(
            command_id@,
        ) + wire_fence_spec(fence),
        StrategyCommandV5::ScheduleTimer {
            command_id,
            key,
            scheduled_at_epoch_ns,
            generation,
            semantics,
        } => varint(3) + wire_str_spec(command_id@) + wire_str_spec(key@) + varint(
            scheduled_at_epoch_ns as nat,
        ) + wire_str_spec(generation@) + wire_bytes_spec(semantics@),
        StrategyCommandV5::CancelTimer { command_id, key, generation } => varint(4)
            + wire_str_spec(command_id@) + wire_str_spec(key@) + wire_str_spec(generation@),
        StrategyCommandV5::Stop { command_id, reason } => varint(5) + wire_str_spec(command_id@)
            + wire_str_spec(reason@),
    }
}

/// The quantity a command's current encoding writes.
pub open spec fn current_quantity(c: StrategyCommandV5) -> u64 {
    match c {
        StrategyCommandV5::PlaceOrder(o) => o.quantity_hundredths,
        _ => 0,
    }
}

pub open spec fn command_digest_spec(c: StrategyCommandV5, quantity: u64) -> Seq<u8> {
    sha256(COMMAND_DIGEST_DOMAIN@ + wire_command_v5_spec(c, quantity))
}

fn put_fence(out: &mut Vec<u8>, f: &CommandFenceV5)
    ensures
        final(out)@ == old(out)@ + wire_fence_spec(*f),
{
    let ghost start = out@;
    put(out, wire_str(&f.continuation_id));
    put(out, wire_u64(f.continuation_generation));
    put(out, wire_u64(f.expected_broker_revision));
    assert(out@ =~= start + wire_fence_spec(*f));
}

fn put_place_head(out: &mut Vec<u8>, o: &PlaceOrderV5, quantity: u64)
    ensures
        final(out)@ == old(out)@ + wire_place_head_spec(*o, quantity),
{
    let ghost start = out@;
    put(out, wire_str(&o.command_id));
    put_fence(out, &o.fence);
    put(out, wire_str(&o.market_id));
    let action: u32 = match o.action {
        OrderActionV5::Buy => 0,
        OrderActionV5::Sell => 1,
    };
    put(out, wire_u32(action));
    let side: u32 = match o.side {
        ContractSideV5::Yes => 0,
        ContractSideV5::No => 1,
    };
    put(out, wire_u32(side));
    let order_type: u32 = match o.order_type {
        OrderTypeV5::Market => 0,
        OrderTypeV5::Limit => 1,
    };
    put(out, wire_u32(order_type));
    put(out, wire_u64(quantity));
    assert(out@ =~= start + wire_place_head_spec(*o, quantity));
}

fn put_place_tail(out: &mut Vec<u8>, o: &PlaceOrderV5)
    ensures
        final(out)@ == old(out)@ + wire_place_tail_spec(*o),
{
    let ghost start = out@;
    put_opt_u64(out, o.limit_price_micros);
    put_opt_u64(out, o.market_price_cap_micros);
    put_opt_i64(out, o.expires_after_ms);
    put(out, wire_bool(o.reduce_only));
    put(out, wire_str(&o.provider_client_id));
    put_opt_str(out, &o.signal_type);
    put_opt_str(out, &o.signal_metadata);
    put(out, wire_bytes(&o.metadata));
    assert(out@ =~= start + wire_place_tail_spec(*o));
}

fn put_place_command(out: &mut Vec<u8>, command: &StrategyCommandV5, quantity: u64)
    requires
        command is PlaceOrder,
    ensures
        final(out)@ == old(out)@ + wire_command_v5_spec(*command, quantity),
{
    let ghost start = out@;
    if let StrategyCommandV5::PlaceOrder(o) = command {
        put(out, wire_u32(0));
        put_place_head(out, o, quantity);
        put_place_tail(out, o);
        assert(out@ =~= start + wire_command_v5_spec(*command, quantity));
    }
}

fn put_cancel_command(out: &mut Vec<u8>, command: &StrategyCommandV5)
    requires
        command is CancelOrder || command is CancelAllOrders,
    ensures
        final(out)@ == old(out)@ + wire_command_v5_spec(*command, 0),
{
    let ghost start = out@;
    match command {
        StrategyCommandV5::CancelOrder { command_id, fence, order_id, expected_order_revision } => {
            put(out, wire_u32(1));
            put(out, wire_str(command_id));
            put_fence(out, fence);
            put(out, wire_str(order_id));
            put(out, wire_u64(*expected_order_revision));
            assert(out@ =~= start + wire_command_v5_spec(*command, 0));
        },
        StrategyCommandV5::CancelAllOrders { command_id, fence } => {
            put(out, wire_u32(2));
            put(out, wire_str(command_id));
            put_fence(out, fence);
            assert(out@ =~= start + wire_command_v5_spec(*command, 0));
        },
        _ => {},
    }
}

fn put_other_command(out: &mut Vec<u8>, command: &StrategyCommandV5)
    requires
        command is ScheduleTimer || command is CancelTimer || command is Stop,
    ensures
        final(out)@ == old(out)@ + wire_command_v5_spec(*command, 0),
{
    let ghost start = out@;
    match command {
        StrategyCommandV5::ScheduleTimer {
            command_id,
            key,
            scheduled_at_epoch_ns,
            generation,
            semantics,
        } => {
            put(out, wire_u32(3));
            put(out, wire_str(command_id));
            put(out, wire_str(key));
            put(out, wire_u64(*scheduled_at_epoch_ns));
            put(out, wire_str(generation));
            put(out, wire_bytes(semantics));
            assert(out@ =~= start + wire_command_v5_spec(*command, 0));
        },
        StrategyCommandV5::CancelTimer { command_id, key, generation } => {
            put(out, wire_u32(4));
            put(out, wire_str(command_id));
            put(out, wire_str(key));
            put(out, wire_str(generation));
            assert(out@ =~= start + wire_command_v5_spec(*command, 0));
        },
        StrategyCommandV5::Stop { command_id, reason } => {
            put(out, wire_u32(5));
            put(out, wire_str(command_id));
            put(out, wire_str(reason));
            assert(out@ =~= start + wire_command_v5_spec(*command, 0));
        },
        _ => {},
    }
}

/// The command in the wire configuration, with `quantity` in a place's quantity field.
pub fn encode_command_v5(command: &StrategyCommandV5, quantity: u64) -> (r: Vec<u8>)
    ensures
        r@ == wire_command_v5_spec(*command, quantity),
{
    let mut out: Vec<u8> = Vec::new();
    match command {
        StrategyCommandV5::PlaceOrder(_) => put_place_command(&mut out, command, quantity),
        StrategyCommandV5::CancelOrder { .. } | StrategyCommandV5::CancelAllOrders { .. } => {
            put_cancel_command(&mut out, command)
        },
        _ => put_other_command(&mut out, command),
    }
    assert(out@ =~= wire_command_v5_spec(*command, quantity));
    out
}

fn command_digest(command: &StrategyCommandV5, quantity: u64) -> (r: [u8; 32])
    ensures
        r@ == command_digest_spec(*command, quantity),
{
    let encoded = encode_command_v5(command, quantity);
    let mut message: Vec<u8> = Vec::new();
    extend(&mut message, &COMMAND_DIGEST_DOMAIN);
    extend(&mut message, encoded.as_slice());
    sha256_digest(message.as_slice())
}

/// The digest of a valid command's current encoding; the command's error otherwise.
pub fn strategy_command_v5_sha256(command: &StrategyCommandV5) -> (r: Result<
    [u8; 32],
    DecisionV5Error,
>)
    ensures
        match command_v5_verdict(*command) {
            Err(e) => r == Err::<[u8; 32], DecisionV5Error>(e),
            Ok(_) => r is Ok && r->Ok_0@ == command_digest_spec(
                *command,
                current_quantity(*command),
            ),
        },
{
    let checked = validate_command(command);
    match checked {
        Err(e) => Err(e),
        Ok(()) => {
            let quantity = match command {
                StrategyCommandV5::PlaceOrder(o) => o.quantity_hundredths,
                _ => 0,
            };
            Ok(command_digest(command, quantity))
        },
    }
}

/// The quantity a command's legacy encoding writes, when it has one: a place's quantity in
/// whole contracts (none when it is not a whole number of them).
pub open spec fn legacy_quantity(c: StrategyCommandV5) -> Option<u64> {
    match c {
        StrategyCommandV5::PlaceOrder(o) => spec_hundredths_to_whole(o.quantity_hundredths),
        _ => Some(0),
    }
}

/// Matches a persisted command digest against the current explicit-hundredths encoding or,
/// when every changed quantity is an exact whole contract, the durable legacy encoding.
pub fn strategy_command_v5_digest_matches(command: &StrategyCommandV5, expected: [u8; 32]) -> (r:
    Result<bool, DecisionV5Error>)
    ensures
        match command_v5_verdict(*command) {
            Err(e) => r == Err::<bool, DecisionV5Error>(e),
            Ok(_) => r is Ok && r->Ok_0 == (expected@ == command_digest_spec(
                *command,
                current_quantity(*command),
            ) || match legacy_quantity(*command) {
                Some(q) => expected@ == command_digest_spec(*command, q),
                None => false,
            }),
        },
{
    let current = match strategy_command_v5_sha256(command) {
        Ok(d) => d,
        Err(e) => {
            return Err(e);
        },
    };
    if crate::digest::digest_eq(&current, &expected) {
        return Ok(true);
    }
    let legacy = match legacy_command_from_current(command) {
        Ok(legacy) => legacy,
        Err(_) => {
            return Ok(false);
        },
    };
    let quantity = match &legacy {
        LegacyStrategyCommandV5::PlaceOrder(o) => o.quantity,
        _ => 0,
    };
    let digest = command_digest(command, quantity);
    Ok(crate::digest::digest_eq(&digest, &expected))
}

} // verus!
