//! Decision V5 Broker state and Broker outcomes: canonical order, record checks, cash
//! conservation and unique identities of the state, and the fields of an outcome against the
//! state it was returned with.
use crate::decision_v5::{
    BrokerCommandKindV5, BrokerCommandReturnV5, BrokerDetailV5, BrokerOrderStatusV5,
    BrokerOrderV5, BrokerOutcomeStatusV5, BrokerOutcomeV5, BrokerPositionV5,
    CancelAllOrdersReturnV5, CancelOrderReturnV5, ContractSideV5, DecisionV5Error,
    KernelBrokerErrorV5, KernelOrderStatusV5, OrderActionV5, OrderTypeV5, PlaceOrderReturnV5,
    MAX_BROKER_ORDERS, MAX_BROKER_POSITIONS, MAX_COMMAND_METADATA_BYTES, MAX_PRICE_MICROS,
    MAX_REASON_BYTES, MAX_SHORT_TEXT_BYTES,
};
use crate::decision_v6::{
    exact_quantity_value, maximum_quantity_value, spec_exact_quantity_value,
    spec_maximum_quantity_value,
};
use crate::text::{
    lex_lt, opt_view, optional_string_eq, spec_valid_identifier, spec_valid_optional_identifier,
    spec_valid_optional_text, spec_valid_text, string_eq, string_lt, string_views,
    strings_contain, strings_strictly_sorted, strings_unique, strictly_sorted_views, utf8,
    valid_identifier, valid_optional_identifier, valid_optional_text, valid_text,
};
use vstd::prelude::*;

verus! {

// ---------------------------------------------------------------------------------------------
// Orders and positions
// ---------------------------------------------------------------------------------------------

pub open spec fn status_v5_is_final(s: BrokerOrderStatusV5) -> bool {
    s is Filled || s is Cancelled || s is Expired || s is Rejected
}

/// Reservations of a V5 order: none for a sell or a final order; otherwise the exact principal
/// of the remaining quantity at its limit (at most its maximum value without one), and a fee
/// reservation within that maximum value.
pub open spec fn order_v5_reservation_valid(o: BrokerOrderV5) -> bool {
    if o.action is Sell || status_v5_is_final(o.status) {
        o.reserved_principal_micros == 0 && o.reserved_fee_micros == 0
    } else {
        &&& match o.limit_price_micros {
            Some(price) => spec_exact_quantity_value(o.remaining_quantity_hundredths, price)
                == Some(o.reserved_principal_micros as int),
            None => o.reserved_principal_micros as int <= spec_maximum_quantity_value(
                o.remaining_quantity_hundredths,
            ),
        }
        &&& o.reserved_fee_micros as int <= spec_maximum_quantity_value(
            o.remaining_quantity_hundredths,
        )
    }
}

pub fn valid_order_reservation(order: &BrokerOrderV5) -> (r: bool)
    ensures
        r == order_v5_reservation_valid(*order),
{
    if order.action == OrderActionV5::Sell || order.status == BrokerOrderStatusV5::Filled
        || order.status == BrokerOrderStatusV5::Cancelled || order.status
        == BrokerOrderStatusV5::Expired || order.status == BrokerOrderStatusV5::Rejected {
        return order.reserved_principal_micros == 0 && order.reserved_fee_micros == 0;
    }
    let maximum_notional = maximum_quantity_value(order.remaining_quantity_hundredths);
    let principal_is_exact = match order.limit_price_micros {
        Some(price) => match exact_quantity_value(order.remaining_quantity_hundredths, price) {
            Some(principal) => principal == order.reserved_principal_micros as u128,
            None => false,
        },
        None => (order.reserved_principal_micros as u128) <= maximum_notional,
    };
    principal_is_exact && (order.reserved_fee_micros as u128) <= maximum_notional
}

/// Filled and remaining account for the whole order, or a cancelled order reports nothing
/// remaining with less than its whole quantity filled.
pub open spec fn order_v5_quantities_valid(o: BrokerOrderV5) -> bool {
    let accounted = o.filled_quantity_hundredths as int + o.remaining_quantity_hundredths as int;
    ||| (accounted <= u64::MAX && accounted == o.quantity_hundredths)
    ||| (o.status is Cancelled && o.remaining_quantity_hundredths == 0 && accounted
        <= o.quantity_hundredths)
}

pub open spec fn broker_order_v5_valid(o: BrokerOrderV5, market_ids: Seq<Seq<char>>) -> bool {
    &&& spec_valid_identifier(o.command_id@)
    &&& spec_valid_identifier(o.intent_id@)
    &&& spec_valid_identifier(o.order_id@)
    &&& spec_valid_optional_identifier(opt_view(o.provider_order_id))
    &&& spec_valid_identifier(o.provider_client_id@)
    &&& market_ids.contains(o.market_id@)
    &&& o.quantity_hundredths != 0
    &&& o.quantity_hundredths <= i64::MAX
    &&& order_v5_quantities_valid(o)
    &&& match o.limit_price_micros {
        Some(p) => p <= MAX_PRICE_MICROS,
        None => true,
    }
    &&& match o.average_fill_price_micros {
        Some(p) => p <= MAX_PRICE_MICROS,
        None => true,
    }
    &&& (o.order_type is Limit ==> o.limit_price_micros is Some)
    &&& (o.order_type is Market ==> o.limit_price_micros is None)
    &&& order_v5_reservation_valid(o)
    &&& spec_valid_optional_text(opt_view(o.signal_type), MAX_SHORT_TEXT_BYTES as nat)
    &&& spec_valid_optional_text(opt_view(o.signal_metadata), MAX_COMMAND_METADATA_BYTES as nat)
}

fn broker_order_v5_ok(order: &BrokerOrderV5, market_ids: &Vec<String>) -> (r: bool)
    ensures
        r == broker_order_v5_valid(*order, string_views(market_ids@)),
{
    let quantities_valid = match order.filled_quantity_hundredths.checked_add(
        order.remaining_quantity_hundredths,
    ) {
        Some(q) => q == order.quantity_hundredths || (order.status == BrokerOrderStatusV5::Cancelled
            && order.remaining_quantity_hundredths == 0 && q <= order.quantity_hundredths),
        None => false,
    };
    let limit_ok = match order.limit_price_micros {
        Some(p) => p <= MAX_PRICE_MICROS,
        None => true,
    };
    let average_ok = match order.average_fill_price_micros {
        Some(p) => p <= MAX_PRICE_MICROS,
        None => true,
    };
    let type_ok = !(order.order_type == OrderTypeV5::Limit && order.limit_price_micros.is_none())
        && !(order.order_type == OrderTypeV5::Market && order.limit_price_micros.is_some());
    valid_identifier(&order.command_id) && valid_identifier(&order.intent_id) && valid_identifier(
        &order.order_id,
    ) && valid_optional_identifier(&order.provider_order_id) && valid_identifier(
        &order.provider_client_id,
    ) && strings_contain(market_ids, &order.market_id) && order.quantity_hundredths != 0
        && order.quantity_hundredths <= i64::MAX as u64 && quantities_valid && limit_ok
        && average_ok && type_ok && valid_order_reservation(order) && valid_optional_text(
        &order.signal_type,
        MAX_SHORT_TEXT_BYTES,
    ) && valid_optional_text(&order.signal_metadata, MAX_COMMAND_METADATA_BYTES)
}

pub open spec fn position_v5_lt(a: BrokerPositionV5, b: BrokerPositionV5) -> bool {
    ||| lex_lt(utf8(a.market_id@), utf8(b.market_id@))
    ||| (a.market_id@ == b.market_id@ && a.side is Yes && b.side is No)
}

pub open spec fn positions_v5_sorted(s: Seq<BrokerPositionV5>) -> bool {
    forall|i: int| 0 <= i < s.len() - 1 ==> #[trigger] position_v5_lt(s[i], s[i + 1])
}

pub open spec fn position_v5_valid(p: BrokerPositionV5, market_ids: Seq<Seq<char>>) -> bool {
    &&& p.quantity_hundredths != 0
    &&& p.quantity_hundredths <= i64::MAX
    &&& p.cost_basis_micros as int <= spec_maximum_quantity_value(p.quantity_hundredths)
    &&& market_ids.contains(p.market_id@)
}

pub open spec fn reserved_cash_v5(s: Seq<BrokerOrderV5>) -> int
    decreases s.len(),
{
    if s.len() == 0 {
        0
    } else {
        reserved_cash_v5(s.drop_last()) + s.last().reserved_principal_micros
            + s.last().reserved_fee_micros
    }
}

pub open spec fn commitment_v5(s: Seq<BrokerPositionV5>) -> int
    decreases s.len(),
{
    if s.len() == 0 {
        0
    } else {
        commitment_v5(s.drop_last()) + s.last().cost_basis_micros + s.last().fees_micros
    }
}

pub open spec fn order_v5_ids(s: Seq<BrokerOrderV5>, which: nat) -> Seq<Seq<char>> {
    s.map_values(
        |o: BrokerOrderV5|
            if which == 0 {
                o.order_id@
            } else if which == 1 {
                o.command_id@
            } else if which == 2 {
                o.intent_id@
            } else {
                o.provider_client_id@
            },
    )
}

pub open spec fn order_v5_provider_ids(s: Seq<BrokerOrderV5>) -> Seq<Seq<char>>
    decreases s.len(),
{
    if s.len() == 0 {
        Seq::empty()
    } else {
        let rest = order_v5_provider_ids(s.drop_last());
        match s.last().provider_order_id {
            Some(id) => rest.push(id@),
            None => rest,
        }
    }
}

/// What validating V5 Broker state gives, check by check.
pub open spec fn broker_parts_verdict(
    market_ids: Seq<Seq<char>>,
    b: BrokerDetailV5,
    locally_reserved_cash: u64,
    current_commitment: u64,
) -> Result<(), DecisionV5Error> {
    let reserved = reserved_cash_v5(b.orders@);
    if !positions_v5_sorted(b.positions@) || !strictly_sorted_views(order_v5_ids(b.orders@, 0)) {
        Err(DecisionV5Error::NonCanonicalOrder)
    } else if b.positions@.len() > MAX_BROKER_POSITIONS || b.orders@.len() > MAX_BROKER_ORDERS {
        Err(DecisionV5Error::InvalidContract)
    } else if !(forall|i: int|
        0 <= i < b.positions@.len() ==> #[trigger] position_v5_valid(b.positions@[i], market_ids))
        || !(forall|i: int|
        0 <= i < b.orders@.len() ==> #[trigger] broker_order_v5_valid(b.orders@[i], market_ids)) {
        Err(DecisionV5Error::InvalidContract)
    } else if reserved != b.reserved_cash_micros || reserved > locally_reserved_cash
        || commitment_v5(b.positions@) + reserved != current_commitment {
        Err(DecisionV5Error::InvalidContract)
    } else if !order_v5_ids(b.orders@, 1).no_duplicates() || !order_v5_ids(
        b.orders@,
        2,
    ).no_duplicates() || !order_v5_ids(b.orders@, 3).no_duplicates() || !order_v5_provider_ids(
        b.orders@,
    ).no_duplicates() {
        Err(DecisionV5Error::DuplicateIdentity)
    } else {
        Ok(())
    }
}

fn collect_order_v5_ids(orders: &Vec<BrokerOrderV5>, which: u8) -> (r: Vec<String>)
    requires
        which <= 3,
    ensures
        string_views(r@) == order_v5_ids(orders@, which as nat),
{
    let mut ids: Vec<String> = Vec::new();
    let mut i: usize = 0;
    while i < orders.len()
        invariant
            0 <= i <= orders@.len(),
            which <= 3,
            string_views(ids@) =~= order_v5_ids(orders@.take(i as int), which as nat),
        decreases orders@.len() - i,
    {
        let o = &orders[i];
        let id = if which == 0 {
            o.order_id.clone()
        } else if which == 1 {
            o.command_id.clone()
        } else if which == 2 {
            o.intent_id.clone()
        } else {
            o.provider_client_id.clone()
        };
        let ghost before = ids@;
        ids.push(id);
        proof {
            assert(string_views(ids@) =~= string_views(before).push(id@));
            assert(order_v5_ids(orders@.take(i + 1), which as nat) =~= order_v5_ids(
                orders@.take(i as int),
                which as nat,
            ).push(id@));
        }
        i += 1;
    }
    assert(orders@.take(orders@.len() as int) =~= orders@);
    ids
}

fn collect_order_v5_provider_ids(orders: &Vec<BrokerOrderV5>) -> (r: Vec<String>)
    ensures
        string_views(r@) == order_v5_provider_ids(orders@),
{
    let mut ids: Vec<String> = Vec::new();
    let mut i: usize = 0;
    while i < orders.len()
        invariant
            0 <= i <= orders@.len(),
            string_views(ids@) =~= order_v5_provider_ids(orders@.take(i as int)),
        decreases orders@.len() - i,
    {
        proof {
            assert(orders@.take(i + 1).drop_last() =~= orders@.take(i as int));
        }
        let ghost before = ids@;
        if let Some(id) = &orders[i].provider_order_id {
            ids.push(id.clone());
            assert(string_views(ids@) =~= string_views(before).push(id@));
        }
        i += 1;
    }
    assert(orders@.take(orders@.len() as int) =~= orders@);
    ids
}

fn positions_v5_in_order(positions: &Vec<BrokerPositionV5>) -> (r: bool)
    ensures
        r == positions_v5_sorted(positions@),
{
    let n = positions.len();
    if n == 0 {
        return true;
    }
    let mut i: usize = 0;
    while i + 1 < n
        invariant
            n == positions@.len(),
            n > 0,
            0 <= i < n,
            forall|j: int| 0 <= j < i ==> #[trigger] position_v5_lt(positions@[j], positions@[j + 1]),
        decreases n - i,
    {
        let a = &positions[i];
        let b = &positions[i + 1];
        if !(string_lt(&a.market_id, &b.market_id) || (string_eq(&a.market_id, &b.market_id)
            && a.side == ContractSideV5::Yes && b.side == ContractSideV5::No)) {
            assert(!position_v5_lt(positions@[i as int], positions@[i as int + 1]));
            return false;
        }
        i += 1;
    }
    true
}

fn sum_reserved_v5(orders: &Vec<BrokerOrderV5>) -> (r: u128)
    requires
        orders@.len() <= MAX_BROKER_ORDERS,
    ensures
        r == reserved_cash_v5(orders@),
        r <= MAX_BROKER_ORDERS * 2 * (u64::MAX as int),
{
    let mut total: u128 = 0;
    let mut i: usize = 0;
    while i < orders.len()
        invariant
            0 <= i <= orders@.len(),
            orders@.len() <= MAX_BROKER_ORDERS,
            total == reserved_cash_v5(orders@.take(i as int)),
            total <= i * 2 * (u64::MAX as int),
        decreases orders@.len() - i,
    {
        proof {
            assert(orders@.take(i + 1).drop_last() =~= orders@.take(i as int));
        }
        total = total + orders[i].reserved_principal_micros as u128
            + orders[i].reserved_fee_micros as u128;
        i += 1;
    }
    assert(orders@.take(orders@.len() as int) =~= orders@);
    total
}

fn sum_commitment_v5(positions: &Vec<BrokerPositionV5>) -> (r: u128)
    requires
        positions@.len() <= MAX_BROKER_POSITIONS,
    ensures
        r == commitment_v5(positions@),
        r <= MAX_BROKER_POSITIONS * 2 * (u64::MAX as int),
{
    let mut total: u128 = 0;
    let mut i: usize = 0;
    while i < positions.len()
        invariant
            0 <= i <= positions@.len(),
            positions@.len() <= MAX_BROKER_POSITIONS,
            total == commitment_v5(positions@.take(i as int)),
            total <= i * 2 * (u64::MAX as int),
        decreases positions@.len() - i,
    {
        proof {
            assert(positions@.take(i + 1).drop_last() =~= positions@.take(i as int));
        }
        total = total + positions[i].cost_basis_micros as u128 + positions[i].fees_micros as u128;
        i += 1;
    }
    assert(positions@.take(positions@.len() as int) =~= positions@);
    total
}

/// V5 Broker state against the scoped Markets and the owner's cash: canonical order, bounded
/// and valid records, reservations and commitments conserved, unique order identities.
#[verifier::loop_isolation(false)]
pub fn validate_broker_parts(
    market_ids: &Vec<String>,
    broker: &BrokerDetailV5,
    locally_reserved_cash: u64,
    current_commitment: u64,
) -> (r: Result<(), DecisionV5Error>)
    ensures
        r == broker_parts_verdict(
            string_views(market_ids@),
            *broker,
            locally_reserved_cash,
            current_commitment,
        ),
{
    let order_ids = collect_order_v5_ids(&broker.orders, 0);
    if !positions_v5_in_order(&broker.positions) || !strings_strictly_sorted(&order_ids) {
        return Err(DecisionV5Error::NonCanonicalOrder);
    }
    if broker.positions.len() > MAX_BROKER_POSITIONS || broker.orders.len() > MAX_BROKER_ORDERS {
        return Err(DecisionV5Error::InvalidContract);
    }
    let mut i: usize = 0;
    while i < broker.positions.len()
        invariant
            0 <= i <= broker.positions@.len(),
            forall|k: int|
                0 <= k < i ==> #[trigger] position_v5_valid(
                    broker.positions@[k],
                    string_views(market_ids@),
                ),
        decreases broker.positions@.len() - i,
    {
        let p = &broker.positions[i];
        if p.quantity_hundredths == 0 || p.quantity_hundredths > i64::MAX as u64
            || (p.cost_basis_micros as u128) > maximum_quantity_value(p.quantity_hundredths)
            || !strings_contain(market_ids, &p.market_id) {
            assert(!position_v5_valid(broker.positions@[i as int], string_views(market_ids@)));
            return Err(DecisionV5Error::InvalidContract);
        }
        i += 1;
    }
    let mut j: usize = 0;
    while j < broker.orders.len()
        invariant
            0 <= j <= broker.orders@.len(),
            forall|k: int|
                0 <= k < j ==> #[trigger] broker_order_v5_valid(
                    broker.orders@[k],
                    string_views(market_ids@),
                ),
        decreases broker.orders@.len() - j,
    {
        if !broker_order_v5_ok(&broker.orders[j], market_ids) {
            return Err(DecisionV5Error::InvalidContract);
        }
        j += 1;
    }
    let reserved = sum_reserved_v5(&broker.orders);
    let commitment = sum_commitment_v5(&broker.positions);
    if reserved != broker.reserved_cash_micros as u128 || reserved > locally_reserved_cash as u128
        || commitment + reserved != current_commitment as u128 {
        return Err(DecisionV5Error::InvalidContract);
    }
    let commands = collect_order_v5_ids(&broker.orders, 1);
    let intents = collect_order_v5_ids(&broker.orders, 2);
    let clients = collect_order_v5_ids(&broker.orders, 3);
    let providers = collect_order_v5_provider_ids(&broker.orders);
    if !strings_unique(&commands) || !strings_unique(&intents) || !strings_unique(&clients)
        || !strings_unique(&providers) {
        return Err(DecisionV5Error::DuplicateIdentity);
    }
    Ok(())
}

// ---------------------------------------------------------------------------------------------
// Broker outcomes
// ---------------------------------------------------------------------------------------------

pub open spec fn kernel_error_valid(e: KernelBrokerErrorV5) -> bool {
    spec_valid_identifier(e.code@) && spec_valid_text(e.message@, MAX_REASON_BYTES as nat)
}

/// A kernel error: an identifier code and a bounded message.
pub fn valid_kernel_error(error: &KernelBrokerErrorV5) -> (r: bool)
    ensures
        r == kernel_error_valid(*error),
{
    valid_identifier(&error.code) && valid_text(&error.message, MAX_REASON_BYTES)
}

/// The kernel's view of an order status agrees with the outcome status.
pub open spec fn kernel_status_matches(order: KernelOrderStatusV5, outcome: BrokerOutcomeStatusV5) -> bool {
    match order {
        KernelOrderStatusV5::Filled => outcome is Filled,
        KernelOrderStatusV5::Partial => outcome is PartiallyFilled,
        KernelOrderStatusV5::Pending => outcome is DurablyAccepted || outcome is Dispatched
            || outcome is Resting,
        KernelOrderStatusV5::Rejected => outcome is Rejected,
        KernelOrderStatusV5::Cancelled => outcome is Cancelled,
    }
}

pub fn kernel_order_status_matches_outcome(
    order: KernelOrderStatusV5,
    outcome: BrokerOutcomeStatusV5,
) -> (r: bool)
    ensures
        r == kernel_status_matches(order, outcome),
{
    match order {
        KernelOrderStatusV5::Filled => outcome == BrokerOutcomeStatusV5::Filled,
        KernelOrderStatusV5::Partial => outcome == BrokerOutcomeStatusV5::PartiallyFilled,
        KernelOrderStatusV5::Pending => outcome == BrokerOutcomeStatusV5::DurablyAccepted || outcome
            == BrokerOutcomeStatusV5::Dispatched || outcome == BrokerOutcomeStatusV5::Resting,
        KernelOrderStatusV5::Rejected => outcome == BrokerOutcomeStatusV5::Rejected,
        KernelOrderStatusV5::Cancelled => outcome == BrokerOutcomeStatusV5::Cancelled,
    }
}

/// The order the outcome reports is in the state as a cancelled order with the outcome's
/// quantities and average price.
pub open spec fn cancelled_record_matches_view(ord: BrokerOrderV5, o: BrokerOutcomeV5) -> bool {
    &&& opt_view(o.order_id) == Some(ord.order_id@)
    &&& ord.status is Cancelled
    &&& o.requested_quantity_hundredths == ord.quantity_hundredths
    &&& o.filled_quantity_hundredths == ord.filled_quantity_hundredths
    &&& o.remaining_quantity_hundredths == ord.remaining_quantity_hundredths
    &&& o.average_fill_price_micros == ord.average_fill_price_micros
}

/// A confirmed cancel of an order that the state shows cancelled with the outcome's quantities.
pub open spec fn cancelled_outcome_matches(b: BrokerDetailV5, o: BrokerOutcomeV5) -> bool {
    &&& o.command_kind is CancelOrder
    &&& o.status is Cancelled
    &&& o.return_value == BrokerCommandReturnV5::CancelOrder(CancelOrderReturnV5::Answered(true))
    &&& opt_view(o.target_order_id) == opt_view(o.order_id)
    &&& exists|i: int|
        0 <= i < b.orders@.len() && #[trigger] cancelled_record_matches_view(b.orders@[i], o)
}

/// Whether a confirmed cancel matches the cancelled order in the state.
#[verifier::loop_isolation(false)]
pub fn cancelled_order_matches(broker: &BrokerDetailV5, outcome: &BrokerOutcomeV5) -> (r: bool)
    ensures
        r == cancelled_outcome_matches(*broker, *outcome),
{
    let confirmed = match &outcome.return_value {
        BrokerCommandReturnV5::CancelOrder(CancelOrderReturnV5::Answered(cancelled)) => *cancelled,
        _ => false,
    };
    if outcome.command_kind != BrokerCommandKindV5::CancelOrder || outcome.status
        != BrokerOutcomeStatusV5::Cancelled || !confirmed || !optional_string_eq(
        &outcome.target_order_id,
        &outcome.order_id,
    ) {
        return false;
    }
    let order_id = match &outcome.order_id {
        Some(id) => id,
        None => {
            return false;
        },
    };
    let mut i: usize = 0;
    while i < broker.orders.len()
        invariant
            0 <= i <= broker.orders@.len(),
            outcome.order_id == Some(*order_id),
            forall|k: int|
                0 <= k < i ==> !#[trigger] cancelled_record_matches_view(broker.orders@[k], *outcome),
        decreases broker.orders@.len() - i,
    {
        let ord = &broker.orders[i];
        if string_eq(order_id, &ord.order_id) && ord.status == BrokerOrderStatusV5::Cancelled
            && outcome.requested_quantity_hundredths == ord.quantity_hundredths
            && outcome.filled_quantity_hundredths == ord.filled_quantity_hundredths
            && outcome.remaining_quantity_hundredths == ord.remaining_quantity_hundredths
            && outcome.average_fill_price_micros == ord.average_fill_price_micros {
            assert(cancelled_record_matches_view(broker.orders@[i as int], *outcome));
            return true;
        }
        i += 1;
    }
    false
}

/// The first order of the state with this id.
pub open spec fn first_order_with_id(s: Seq<BrokerOrderV5>, id: Seq<char>) -> Option<BrokerOrderV5>
    decreases s.len(),
{
    if s.len() == 0 {
        None
    } else if s[0].order_id@ == id {
        Some(s[0])
    } else {
        first_order_with_id(s.drop_first(), id)
    }
}

/// The state's order the outcome reports, when it reports one.
pub open spec fn matching_order(b: BrokerDetailV5, o: BrokerOutcomeV5) -> Option<BrokerOrderV5> {
    match o.order_id {
        Some(id) => first_order_with_id(b.orders@, id@),
        None => None,
    }
}

/// The fields every outcome carries: identities, a positive sequence and generation, bounded
/// quantities that account for the request (a confirmed cancel may leave less), a bounded
/// average price and reason.
pub open spec fn outcome_common_valid(b: BrokerDetailV5, o: BrokerOutcomeV5) -> bool {
    let accounted = o.filled_quantity_hundredths as int + o.remaining_quantity_hundredths as int;
    &&& spec_valid_identifier(o.outcome_id@)
    &&& spec_valid_identifier(o.continuation_id@)
    &&& o.continuation_generation != 0
    &&& spec_valid_identifier(o.command_id@)
    &&& o.transition_sequence != 0
    &&& spec_valid_optional_identifier(opt_view(o.target_order_id))
    &&& spec_valid_optional_identifier(opt_view(o.order_id))
    &&& spec_valid_optional_identifier(opt_view(o.intent_id))
    &&& spec_valid_optional_identifier(opt_view(o.provider_order_id))
    &&& spec_valid_optional_identifier(opt_view(o.provider_client_id))
    &&& o.requested_quantity_hundredths <= i64::MAX
    &&& accounted <= u64::MAX
    &&& (accounted == o.requested_quantity_hundredths || (accounted
        <= o.requested_quantity_hundredths && cancelled_outcome_matches(b, o)))
    &&& match o.average_fill_price_micros {
        Some(p) => p <= MAX_PRICE_MICROS,
        None => true,
    }
    &&& spec_valid_optional_text(opt_view(o.reason), MAX_REASON_BYTES as nat)
}

pub open spec fn refused_status(s: BrokerOutcomeStatusV5) -> bool {
    s is Rejected || s is RecoveryRequired
}

pub open spec fn order_listed(ord: BrokerOrderV5, id: Seq<char>) -> bool {
    ord.order_id@ == id
}

/// Some order of the state has this id.
pub open spec fn id_listed(b: BrokerDetailV5, id: Seq<char>) -> bool {
    exists|q: int| 0 <= q < b.orders@.len() && #[trigger] order_listed(b.orders@[q], id)
}

/// The outcome's kind and return value agree with each other and with the state.
pub open spec fn outcome_return_valid(b: BrokerDetailV5, o: BrokerOutcomeV5) -> bool {
    let matching = matching_order(b, o);
    match (o.command_kind, o.return_value) {
        (
            BrokerCommandKindV5::PlaceOrder,
            BrokerCommandReturnV5::PlaceOrder(PlaceOrderReturnV5::Placed(result)),
        ) => {
            &&& o.target_order_id is None
            &&& spec_valid_identifier(result.order_id@)
            &&& spec_valid_text(result.reason@, MAX_REASON_BYTES as nat)
            &&& result.filled_quantity_hundredths == o.filled_quantity_hundredths
            &&& result.fill_price_micros <= MAX_PRICE_MICROS
            &&& result.fee_cost_micros as int <= spec_maximum_quantity_value(
                result.filled_quantity_hundredths,
            )
            &&& (result.filled_quantity_hundredths == 0 ==> result.fill_price_micros == 0
                && result.fee_cost_micros == 0 && o.average_fill_price_micros is None)
            &&& (result.filled_quantity_hundredths > 0 ==> o.average_fill_price_micros == Some(
                result.fill_price_micros,
            ))
            &&& opt_view(o.order_id) == Some(result.order_id@)
            &&& match matching {
                Some(ord) => ord.command_id@ == o.command_id@,
                None => true,
            }
            &&& kernel_status_matches(result.status, o.status)
        },
        (
            BrokerCommandKindV5::PlaceOrder,
            BrokerCommandReturnV5::PlaceOrder(PlaceOrderReturnV5::Failed(error)),
        ) => {
            &&& o.target_order_id is None
            &&& o.order_id is None
            &&& kernel_error_valid(error)
            &&& refused_status(o.status)
        },
        (
            BrokerCommandKindV5::CancelOrder,
            BrokerCommandReturnV5::CancelOrder(CancelOrderReturnV5::Answered(cancelled)),
        ) => {
            &&& o.target_order_id is Some
            &&& if cancelled {
                opt_view(o.target_order_id) == opt_view(o.order_id) && matching is Some
            } else {
                match matching {
                    Some(ord) => opt_view(o.target_order_id) == Some(ord.order_id@)
                        && status_v5_is_final(ord.status),
                    None => o.order_id is None && o.status is Rejected,
                }
            }
        },
        (
            BrokerCommandKindV5::CancelOrder,
            BrokerCommandReturnV5::CancelOrder(CancelOrderReturnV5::Failed(error)),
        ) => {
            &&& o.target_order_id is Some
            &&& kernel_error_valid(error)
            &&& refused_status(o.status)
        },
        (
            BrokerCommandKindV5::CancelAllOrders,
            BrokerCommandReturnV5::CancelAllOrders(
                CancelAllOrdersReturnV5::Cancelled { cancelled_order_ids },
            ),
        ) => {
            let ids = string_views(cancelled_order_ids@);
            &&& o.target_order_id is None
            &&& o.order_id is None
            &&& ids.len() <= MAX_BROKER_ORDERS
            &&& strictly_sorted_views(ids)
            &&& forall|k: int| 0 <= k < ids.len() ==> #[trigger] id_listed(b, ids[k])
        },
        (
            BrokerCommandKindV5::CancelAllOrders,
            BrokerCommandReturnV5::CancelAllOrders(CancelAllOrdersReturnV5::Failed(error)),
        ) => {
            &&& o.target_order_id is None
            &&& o.order_id is None
            &&& kernel_error_valid(error)
            &&& refused_status(o.status)
        },
        _ => false,
    }
}

/// Identities the outcome reports agree with the state's order.
pub open spec fn outcome_identities_agree(b: BrokerDetailV5, o: BrokerOutcomeV5) -> bool {
    match matching_order(b, o) {
        Some(ord) => {
            &&& (o.intent_id is Some ==> opt_view(o.intent_id) == Some(ord.intent_id@))
            &&& (o.provider_client_id is Some ==> opt_view(o.provider_client_id) == Some(
                ord.provider_client_id@,
            ))
            &&& (o.provider_order_id is Some && ord.provider_order_id is Some ==> opt_view(
                o.provider_order_id,
            ) == opt_view(ord.provider_order_id))
        },
        None => true,
    }
}

pub open spec fn outcome_fields_valid(b: BrokerDetailV5, o: BrokerOutcomeV5) -> bool {
    outcome_common_valid(b, o) && outcome_return_valid(b, o) && outcome_identities_agree(b, o)
}

#[verifier::loop_isolation(false)]
fn find_order<'a>(broker: &'a BrokerDetailV5, order_id: &Option<String>) -> (r: Option<
    &'a BrokerOrderV5,
>)
    ensures
        match order_id {
            Some(id) => match first_order_with_id(broker.orders@, id@) {
                Some(ord) => r == Some(&ord),
                None => r is None,
            },
            None => r is None,
        },
{
    let id = match order_id {
        Some(id) => id,
        None => {
            return None;
        },
    };
    let mut i: usize = 0;
    assert(broker.orders@.skip(0) =~= broker.orders@);
    while i < broker.orders.len()
        invariant
            0 <= i <= broker.orders@.len(),
            first_order_with_id(broker.orders@, id@) == first_order_with_id(
                broker.orders@.skip(i as int),
                id@,
            ),
        decreases broker.orders@.len() - i,
    {
        proof {
            assert(broker.orders@.skip(i as int).drop_first() =~= broker.orders@.skip(i + 1));
            assert(broker.orders@.skip(i as int)[0] == broker.orders@[i as int]);
        }
        if string_eq(&broker.orders[i].order_id, id) {
            return Some(&broker.orders[i]);
        }
        i += 1;
    }
    proof {
        assert(broker.orders@.skip(broker.orders@.len() as int).len() == 0);
    }
    None
}

fn id_listed_in(broker: &BrokerDetailV5, id: &String) -> (r: bool)
    ensures
        r == id_listed(*broker, id@),
{
    let mut q: usize = 0;
    while q < broker.orders.len()
        invariant
            0 <= q <= broker.orders@.len(),
            forall|p: int| 0 <= p < q ==> !#[trigger] order_listed(broker.orders@[p], id@),
        decreases broker.orders@.len() - q,
    {
        if string_eq(&broker.orders[q].order_id, id) {
            assert(order_listed(broker.orders@[q as int], id@));
            return true;
        }
        q += 1;
    }
    false
}

fn cancelled_ids_listed(broker: &BrokerDetailV5, ids: &Vec<String>) -> (r: bool)
    ensures
        r == forall|k: int| 0 <= k < ids@.len() ==> #[trigger] id_listed(*broker, string_views(ids@)[k]),
{
    let mut k: usize = 0;
    while k < ids.len()
        invariant
            0 <= k <= ids@.len(),
            forall|j: int| 0 <= j < k ==> #[trigger] id_listed(*broker, string_views(ids@)[j]),
        decreases ids@.len() - k,
    {
        assert(string_views(ids@)[k as int] == ids@[k as int]@);
        if !id_listed_in(broker, &ids[k]) {
            return false;
        }
        k += 1;
    }
    true
}

fn common_fields_ok(broker: &BrokerDetailV5, outcome: &BrokerOutcomeV5) -> (r: bool)
    ensures
        r == outcome_common_valid(*broker, *outcome),
{
    let quantities_valid = match outcome.filled_quantity_hundredths.checked_add(
        outcome.remaining_quantity_hundredths,
    ) {
        Some(q) => q == outcome.requested_quantity_hundredths || (q
            <= outcome.requested_quantity_hundredths && cancelled_order_matches(broker, outcome)),
        None => false,
    };
    let average_ok = match outcome.average_fill_price_micros {
        Some(p) => p <= MAX_PRICE_MICROS,
        None => true,
    };
    valid_identifier(&outcome.outcome_id) && valid_identifier(&outcome.continuation_id)
        && outcome.continuation_generation != 0 && valid_identifier(&outcome.command_id)
        && outcome.transition_sequence != 0 && valid_optional_identifier(&outcome.target_order_id)
        && valid_optional_identifier(&outcome.order_id) && valid_optional_identifier(
        &outcome.intent_id,
    ) && valid_optional_identifier(&outcome.provider_order_id) && valid_optional_identifier(
        &outcome.provider_client_id,
    ) && outcome.requested_quantity_hundredths <= i64::MAX as u64 && quantities_valid
        && average_ok && valid_optional_text(&outcome.reason, MAX_REASON_BYTES)
}

fn return_ok(broker: &BrokerDetailV5, outcome: &BrokerOutcomeV5, matching: Option<&BrokerOrderV5>) -> (r:
    bool)
    requires
        match matching_order(*broker, *outcome) {
            Some(ord) => matching == Some(&ord),
            None => matching is None,
        },
    ensures
        r == outcome_return_valid(*broker, *outcome),
{
    let refused = outcome.status == BrokerOutcomeStatusV5::Rejected || outcome.status
        == BrokerOutcomeStatusV5::RecoveryRequired;
    match (&outcome.command_kind, &outcome.return_value) {
        (
            BrokerCommandKindV5::PlaceOrder,
            BrokerCommandReturnV5::PlaceOrder(PlaceOrderReturnV5::Placed(result)),
        ) => {
            let filled = result.filled_quantity_hundredths;
            let nothing_filled_ok = filled != 0 || (result.fill_price_micros == 0
                && result.fee_cost_micros == 0 && outcome.average_fill_price_micros.is_none());
            let filled_price_ok = filled == 0 || outcome.average_fill_price_micros == Some(
                result.fill_price_micros,
            );
            let order_named = match &outcome.order_id {
                Some(id) => string_eq(id, &result.order_id),
                None => false,
            };
            let command_ok = match matching {
                Some(ord) => string_eq(&ord.command_id, &outcome.command_id),
                None => true,
            };
            outcome.target_order_id.is_none() && valid_identifier(&result.order_id) && valid_text(
                &result.reason,
                MAX_REASON_BYTES,
            ) && filled == outcome.filled_quantity_hundredths && result.fill_price_micros
                <= MAX_PRICE_MICROS && (result.fee_cost_micros as u128) <= maximum_quantity_value(
                filled,
            ) && nothing_filled_ok && filled_price_ok && order_named && command_ok
                && kernel_order_status_matches_outcome(result.status, outcome.status)
        },
        (
            BrokerCommandKindV5::PlaceOrder,
            BrokerCommandReturnV5::PlaceOrder(PlaceOrderReturnV5::Failed(error)),
        ) => {
            outcome.target_order_id.is_none() && outcome.order_id.is_none() && valid_kernel_error(
                error,
            ) && refused
        },
        (
            BrokerCommandKindV5::CancelOrder,
            BrokerCommandReturnV5::CancelOrder(CancelOrderReturnV5::Answered(cancelled)),
        ) => {
            let identity_is_valid = if *cancelled {
                optional_string_eq(&outcome.target_order_id, &outcome.order_id)
                    && matching.is_some()
            } else {
                match matching {
                    Some(ord) => {
                        let target_named = match &outcome.target_order_id {
                            Some(t) => string_eq(t, &ord.order_id),
                            None => false,
                        };
                        target_named && (ord.status == BrokerOrderStatusV5::Filled || ord.status
                            == BrokerOrderStatusV5::Cancelled || ord.status
                            == BrokerOrderStatusV5::Expired || ord.status
                            == BrokerOrderStatusV5::Rejected)
                    },
                    None => outcome.order_id.is_none() && outcome.status
                        == BrokerOutcomeStatusV5::Rejected,
                }
            };
            outcome.target_order_id.is_some() && identity_is_valid
        },
        (
            BrokerCommandKindV5::CancelOrder,
            BrokerCommandReturnV5::CancelOrder(CancelOrderReturnV5::Failed(error)),
        ) => { outcome.target_order_id.is_some() && valid_kernel_error(error) && refused },
        (
            BrokerCommandKindV5::CancelAllOrders,
            BrokerCommandReturnV5::CancelAllOrders(
                CancelAllOrdersReturnV5::Cancelled { cancelled_order_ids },
            ),
        ) => {
            outcome.target_order_id.is_none() && outcome.order_id.is_none()
                && cancelled_order_ids.len() <= MAX_BROKER_ORDERS && strings_strictly_sorted(
                cancelled_order_ids,
            ) && cancelled_ids_listed(broker, cancelled_order_ids)
        },
        (
            BrokerCommandKindV5::CancelAllOrders,
            BrokerCommandReturnV5::CancelAllOrders(CancelAllOrdersReturnV5::Failed(error)),
        ) => {
            outcome.target_order_id.is_none() && outcome.order_id.is_none() && valid_kernel_error(
                error,
            ) && refused
        },
        _ => false,
    }
}

/// The fields of a Broker outcome against the state it was returned with: common bounds and
/// quantities, a return value that agrees with the command kind, the status and the state, and
/// identities that agree with the state's order.
pub fn validate_broker_outcome_fields(broker: &BrokerDetailV5, outcome: &BrokerOutcomeV5) -> (r:
    Result<(), DecisionV5Error>)
    ensures
        r == (if outcome_fields_valid(*broker, *outcome) {
            Ok(())
        } else {
            Err(DecisionV5Error::InvalidContract)
        }),
{
    if !common_fields_ok(broker, outcome) {
        return Err(DecisionV5Error::InvalidContract);
    }
    let matching = find_order(broker, &outcome.order_id);
    if !return_ok(broker, outcome, matching) {
        return Err(DecisionV5Error::InvalidContract);
    }
    if let Some(ord) = matching {
        let intent_ok = match &outcome.intent_id {
            Some(id) => string_eq(id, &ord.intent_id),
            None => true,
        };
        let client_ok = match &outcome.provider_client_id {
            Some(id) => string_eq(id, &ord.provider_client_id),
            None => true,
        };
        let provider_ok = match (&outcome.provider_order_id, &ord.provider_order_id) {
            (Some(a), Some(b)) => string_eq(a, b),
            _ => true,
        };
        if !intent_ok || !client_ok || !provider_ok {
            return Err(DecisionV5Error::InvalidContract);
        }
    }
    Ok(())
}

} // verus!
