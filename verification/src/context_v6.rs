//! Decision V6 contexts: the Strategy scope and its binding to the owner projection, the
//! contributor stations, the capability grant, the Broker state (canonical order, record
//! checks, cash conservation, unique identities), the command receipts and the Market strikes.
use crate::checkpoint_v6::side_index;
use crate::decision_v4::{MarketIdentityV4, StationV4};
use crate::decision_v6::{
    broker_order_v6_valid, spec_maximum_quantity_value, maximum_quantity_value, slice_views,
    validate_broker_order_v6, BrokerOrderV6, BrokerPositionV6, CapabilityGrantV6,
    CommandOutcomeV6, CommandReceiptV6, DecisionContextV6, DecisionV6Error, MarketStrikesV6,
    StrategyParameterValueV6, MAX_BROKER_ORDERS, MAX_BROKER_POSITIONS, MAX_COMMAND_RECEIPTS,
    MAX_EXTERNAL_REQUEST_GRANTS, MAX_REASON_BYTES, MAX_SHORT_TEXT_BYTES, MAX_STRATEGY_PARAMETERS,
};
use crate::decision_v4::{context_v4_verdict, MAX_POINTS_PER_MODEL, MAX_STATIONS};
use crate::checkpoint_v6::{kernel_checkpoint_verdict, validate_kernel_checkpoint};
use crate::trigger_v6::{trigger_verdict, validate_trigger};
use crate::identity_v6::{derive_sleeve_identity_v6, spec_sleeve_identity_v6};
use crate::text::{
    all_identifiers, all_valid_identifiers, byte_len, byte_length, lex_lt, same_strings,
    spec_valid_identifier, spec_valid_text, string_eq, string_lt, string_views,
    strings_contain, strings_strictly_sorted, strings_unique, strictly_sorted_views, utf8,
    valid_identifier, valid_text,
};
use vstd::prelude::*;

verus! {

// ---------------------------------------------------------------------------------------------
// Collecting identities
// ---------------------------------------------------------------------------------------------

pub open spec fn parameter_keys(s: Seq<(String, StrategyParameterValueV6)>) -> Seq<Seq<char>> {
    s.map_values(|p: (String, StrategyParameterValueV6)| p.0@)
}

pub open spec fn owner_market_ids(s: Seq<crate::decision_v4::MarketV4>) -> Seq<Seq<char>> {
    s.map_values(|m: crate::decision_v4::MarketV4| m.identity.market_id@)
}

pub open spec fn owner_station_ids(s: Seq<StationV4>) -> Seq<Seq<char>> {
    s.map_values(|st: StationV4| st.identity.station_id@)
}

pub open spec fn order_ids(s: Seq<BrokerOrderV6>) -> Seq<Seq<char>> {
    s.map_values(|o: BrokerOrderV6| o.order_id@)
}

pub open spec fn order_command_ids(s: Seq<BrokerOrderV6>) -> Seq<Seq<char>> {
    s.map_values(|o: BrokerOrderV6| o.command_id@)
}

pub open spec fn order_intent_ids(s: Seq<BrokerOrderV6>) -> Seq<Seq<char>> {
    s.map_values(|o: BrokerOrderV6| o.intent_id@)
}

pub open spec fn order_client_ids(s: Seq<BrokerOrderV6>) -> Seq<Seq<char>> {
    s.map_values(|o: BrokerOrderV6| o.provider_client_id@)
}

/// The provider order ids the orders carry, in order.
pub open spec fn order_provider_ids(s: Seq<BrokerOrderV6>) -> Seq<Seq<char>>
    decreases s.len(),
{
    if s.len() == 0 {
        Seq::empty()
    } else {
        let rest = order_provider_ids(s.drop_last());
        match s.last().provider_order_id {
            Some(id) => rest.push(id@),
            None => rest,
        }
    }
}

pub open spec fn receipt_command_ids(s: Seq<CommandReceiptV6>) -> Seq<Seq<char>> {
    s.map_values(|r: CommandReceiptV6| r.command_id@)
}

/// Which of an order's identities a collector takes.
enum OrderIdentity {
    OrderId,
    CommandId,
    IntentId,
    ProviderClientId,
}

spec fn order_identity(o: BrokerOrderV6, which: OrderIdentity) -> Seq<char> {
    match which {
        OrderIdentity::OrderId => o.order_id@,
        OrderIdentity::CommandId => o.command_id@,
        OrderIdentity::IntentId => o.intent_id@,
        OrderIdentity::ProviderClientId => o.provider_client_id@,
    }
}

/// One identity of each order, in order.
fn collect_order_identities(orders: &Vec<BrokerOrderV6>, which: &OrderIdentity) -> (r: Vec<
    String,
>)
    ensures
        string_views(r@) == orders@.map_values(|o: BrokerOrderV6| order_identity(o, *which)),
{
    let mut ids: Vec<String> = Vec::new();
    let mut i: usize = 0;
    while i < orders.len()
        invariant
            0 <= i <= orders@.len(),
            string_views(ids@) =~= orders@.take(i as int).map_values(
                |o: BrokerOrderV6| order_identity(o, *which),
            ),
        decreases orders@.len() - i,
    {
        let order = &orders[i];
        let id = match which {
            OrderIdentity::OrderId => order.order_id.clone(),
            OrderIdentity::CommandId => order.command_id.clone(),
            OrderIdentity::IntentId => order.intent_id.clone(),
            OrderIdentity::ProviderClientId => order.provider_client_id.clone(),
        };
        let ghost before = ids@;
        ids.push(id);
        proof {
            assert(string_views(ids@) =~= string_views(before).push(
                order_identity(orders@[i as int], *which),
            ));
            assert(orders@.take(i + 1).map_values(|o: BrokerOrderV6| order_identity(o, *which))
                =~= orders@.take(i as int).map_values(
                |o: BrokerOrderV6| order_identity(o, *which),
            ).push(order_identity(orders@[i as int], *which)));
        }
        i += 1;
    }
    assert(orders@.take(orders@.len() as int) =~= orders@);
    ids
}

fn collect_provider_order_ids(orders: &Vec<BrokerOrderV6>) -> (r: Vec<String>)
    ensures
        string_views(r@) == order_provider_ids(orders@),
{
    let mut ids: Vec<String> = Vec::new();
    let mut i: usize = 0;
    while i < orders.len()
        invariant
            0 <= i <= orders@.len(),
            string_views(ids@) =~= order_provider_ids(orders@.take(i as int)),
        decreases orders@.len() - i,
    {
        proof {
            assert(orders@.take(i + 1).drop_last() =~= orders@.take(i as int));
        }
        let ghost before = ids@;
        if let Some(id) = &orders[i].provider_order_id {
            ids.push(id.clone());
            assert(string_views(ids@) =~= string_views(before).push(id@));
        }
        i += 1;
    }
    assert(orders@.take(orders@.len() as int) =~= orders@);
    ids
}

fn collect_parameter_keys(parameters: &Vec<(String, StrategyParameterValueV6)>) -> (r: Vec<String>)
    ensures
        string_views(r@) == parameter_keys(parameters@),
{
    let mut keys: Vec<String> = Vec::new();
    let mut i: usize = 0;
    while i < parameters.len()
        invariant
            0 <= i <= parameters@.len(),
            string_views(keys@) =~= parameter_keys(parameters@.take(i as int)),
        decreases parameters@.len() - i,
    {
        let ghost before = keys@;
        keys.push(parameters[i].0.clone());
        proof {
            assert(string_views(keys@) =~= string_views(before).push(parameters@[i as int].0@));
            assert(parameter_keys(parameters@.take(i + 1)) =~= parameter_keys(
                parameters@.take(i as int),
            ).push(parameters@[i as int].0@));
        }
        i += 1;
    }
    assert(parameters@.take(parameters@.len() as int) =~= parameters@);
    keys
}

fn collect_market_ids(markets: &Vec<crate::decision_v4::MarketV4>) -> (r: Vec<String>)
    ensures
        string_views(r@) == owner_market_ids(markets@),
{
    let mut ids: Vec<String> = Vec::new();
    let mut i: usize = 0;
    while i < markets.len()
        invariant
            0 <= i <= markets@.len(),
            string_views(ids@) =~= owner_market_ids(markets@.take(i as int)),
        decreases markets@.len() - i,
    {
        let ghost before = ids@;
        ids.push(markets[i].identity.market_id.clone());
        proof {
            assert(string_views(ids@) =~= string_views(before).push(
                markets@[i as int].identity.market_id@,
            ));
            assert(owner_market_ids(markets@.take(i + 1)) =~= owner_market_ids(
                markets@.take(i as int),
            ).push(markets@[i as int].identity.market_id@));
        }
        i += 1;
    }
    assert(markets@.take(markets@.len() as int) =~= markets@);
    ids
}

fn collect_station_ids(stations: &Vec<StationV4>) -> (r: Vec<String>)
    ensures
        string_views(r@) == owner_station_ids(stations@),
{
    let mut ids: Vec<String> = Vec::new();
    let mut i: usize = 0;
    while i < stations.len()
        invariant
            0 <= i <= stations@.len(),
            string_views(ids@) =~= owner_station_ids(stations@.take(i as int)),
        decreases stations@.len() - i,
    {
        let ghost before = ids@;
        ids.push(stations[i].identity.station_id.clone());
        proof {
            assert(string_views(ids@) =~= string_views(before).push(
                stations@[i as int].identity.station_id@,
            ));
            assert(owner_station_ids(stations@.take(i + 1)) =~= owner_station_ids(
                stations@.take(i as int),
            ).push(stations@[i as int].identity.station_id@));
        }
        i += 1;
    }
    assert(stations@.take(stations@.len() as int) =~= stations@);
    ids
}

fn collect_receipt_ids(receipts: &Vec<CommandReceiptV6>) -> (r: Vec<String>)
    ensures
        string_views(r@) == receipt_command_ids(receipts@),
{
    let mut ids: Vec<String> = Vec::new();
    let mut i: usize = 0;
    while i < receipts.len()
        invariant
            0 <= i <= receipts@.len(),
            string_views(ids@) =~= receipt_command_ids(receipts@.take(i as int)),
        decreases receipts@.len() - i,
    {
        let ghost before = ids@;
        ids.push(receipts[i].command_id.clone());
        proof {
            assert(string_views(ids@) =~= string_views(before).push(
                receipts@[i as int].command_id@,
            ));
            assert(receipt_command_ids(receipts@.take(i + 1)) =~= receipt_command_ids(
                receipts@.take(i as int),
            ).push(receipts@[i as int].command_id@));
        }
        i += 1;
    }
    assert(receipts@.take(receipts@.len() as int) =~= receipts@);
    ids
}

// ---------------------------------------------------------------------------------------------
// Scope
// ---------------------------------------------------------------------------------------------

/// A parameter: an identifier key, a decimal scale of at most 18, a bounded non-empty string.
pub open spec fn parameter_valid(p: (String, StrategyParameterValueV6)) -> bool {
    &&& spec_valid_identifier(p.0@)
    &&& match p.1 {
        StrategyParameterValueV6::Decimal { scale, .. } => scale <= 18,
        StrategyParameterValueV6::String(v) => spec_valid_text(v@, MAX_REASON_BYTES as nat),
        _ => true,
    }
}

pub open spec fn scope_fields_valid(c: DecisionContextV6) -> bool {
    let s = c.strategy;
    &&& spec_valid_identifier(s.strategy_id@)
    &&& spec_valid_identifier(s.binding_id@)
    &&& spec_valid_text(s.profile@, MAX_SHORT_TEXT_BYTES as nat)
    &&& s.parameters@.len() <= MAX_STRATEGY_PARAMETERS
    &&& forall|i: int|
        0 <= i < s.parameters@.len() ==> #[trigger] parameter_valid(s.parameters@[i])
    &&& spec_valid_identifier(s.station_id@)
    &&& spec_valid_identifier(s.event_ticker@)
    &&& spec_valid_text(s.event_date@, MAX_SHORT_TEXT_BYTES as nat)
    &&& spec_valid_text(s.profile_and_calculator_digest@, MAX_SHORT_TEXT_BYTES as nat)
    &&& s.market_ids@.len() > 0
}

/// The owner station the scope names, on the scope's event date.
pub open spec fn scope_station(st: StationV4, c: DecisionContextV6) -> bool {
    st.identity.station_id@ == c.strategy.station_id@ && st.climate_event_date@
        == c.strategy.event_date@
}

/// The scope is the one the owner projection was built for: its profile, Sleeve, station,
/// event date and profile digest.
pub open spec fn scope_bound_to_owner(c: DecisionContextV6) -> bool {
    let s = c.strategy;
    let owner = c.owner_state;
    &&& s.profile@ == owner.opportunity.match_profile@
    &&& owner.sleeve.sleeve_id@ == spec_sleeve_identity_v6(
        s.strategy_id@,
        s.binding_id@,
        owner.opportunity.venue_id@,
        owner.opportunity.opportunity_id@,
    )
    &&& string_views(owner.opportunity.contributor_stations@).contains(s.station_id@)
    &&& exists|i: int| 0 <= i < owner.stations@.len() && #[trigger] scope_station(owner.stations@[i], c)
    &&& owner.config.profile_and_calculator_digest@ == s.profile_and_calculator_digest@
    &&& owner.fence.profile_and_calculator_digest@ == s.profile_and_calculator_digest@
}

/// Each owner Market belongs to the opportunity and to the scope's event.
pub open spec fn owner_market_in_scope(
    m: crate::decision_v4::MarketV4,
    c: DecisionContextV6,
) -> bool {
    m.identity.opportunity_id@ == c.owner_state.opportunity.opportunity_id@
        && m.identity.event_ticker@ == c.strategy.event_ticker@
}

pub open spec fn scope_verdict(c: DecisionContextV6) -> Result<(), DecisionV6Error> {
    let s = c.strategy;
    if !strictly_sorted_views(parameter_keys(s.parameters@)) || !strictly_sorted_views(
        string_views(s.market_ids@),
    ) {
        Err(DecisionV6Error::NonCanonicalOrder)
    } else if !scope_fields_valid(c) || !scope_bound_to_owner(c) {
        Err(DecisionV6Error::InvalidContract)
    } else if owner_market_ids(c.owner_state.markets@).to_set() != string_views(
        s.market_ids@,
    ).to_set() || !(forall|i: int|
        0 <= i < c.owner_state.markets@.len() ==> #[trigger] owner_market_in_scope(
            c.owner_state.markets@[i],
            c,
        )) {
        Err(DecisionV6Error::InvalidContract)
    } else {
        Ok(())
    }
}

fn parameters_ok(parameters: &Vec<(String, StrategyParameterValueV6)>) -> (r: bool)
    ensures
        r == forall|i: int|
            0 <= i < parameters@.len() ==> #[trigger] parameter_valid(parameters@[i]),
{
    let mut i: usize = 0;
    while i < parameters.len()
        invariant
            0 <= i <= parameters@.len(),
            forall|k: int| 0 <= k < i ==> #[trigger] parameter_valid(parameters@[k]),
        decreases parameters@.len() - i,
    {
        let (key, value) = &parameters[i];
        let value_ok = match value {
            StrategyParameterValueV6::Decimal { scale, .. } => *scale <= 18,
            StrategyParameterValueV6::String(v) => valid_text(v, MAX_REASON_BYTES),
            _ => true,
        };
        if !valid_identifier(key) || !value_ok {
            assert(!parameter_valid(parameters@[i as int]));
            return false;
        }
        i += 1;
    }
    true
}

fn scope_station_present(c: &DecisionContextV6) -> (r: bool)
    ensures
        r == exists|i: int|
            0 <= i < c.owner_state.stations@.len() && #[trigger] scope_station(
                c.owner_state.stations@[i],
                *c,
            ),
{
    let stations = &c.owner_state.stations;
    let mut i: usize = 0;
    while i < stations.len()
        invariant
            0 <= i <= stations@.len(),
            stations@ == c.owner_state.stations@,
            forall|k: int| 0 <= k < i ==> !#[trigger] scope_station(stations@[k], *c),
        decreases stations@.len() - i,
    {
        if string_eq(&stations[i].identity.station_id, &c.strategy.station_id) && string_eq(
            &stations[i].climate_event_date,
            &c.strategy.event_date,
        ) {
            assert(scope_station(stations@[i as int], *c));
            return true;
        }
        i += 1;
    }
    false
}

fn owner_markets_in_scope(c: &DecisionContextV6) -> (r: bool)
    ensures
        r == forall|i: int|
            0 <= i < c.owner_state.markets@.len() ==> #[trigger] owner_market_in_scope(
                c.owner_state.markets@[i],
                *c,
            ),
{
    let markets = &c.owner_state.markets;
    let mut i: usize = 0;
    while i < markets.len()
        invariant
            0 <= i <= markets@.len(),
            markets@ == c.owner_state.markets@,
            forall|k: int| 0 <= k < i ==> #[trigger] owner_market_in_scope(markets@[k], *c),
        decreases markets@.len() - i,
    {
        if !string_eq(
            &markets[i].identity.opportunity_id,
            &c.owner_state.opportunity.opportunity_id,
        ) || !string_eq(&markets[i].identity.event_ticker, &c.strategy.event_ticker) {
            assert(!owner_market_in_scope(markets@[i as int], *c));
            return false;
        }
        i += 1;
    }
    true
}

/// The Sleeve id is derived from the owner's venue and opportunity ids, each framed by a
/// 2-byte length: they fit when each is at most 65535 bytes.
pub open spec fn sleeve_components_fit(c: DecisionContextV6) -> bool {
    &&& byte_len(c.owner_state.opportunity.venue_id@) <= 0xffff
    &&& byte_len(c.owner_state.opportunity.opportunity_id@) <= 0xffff
}

/// Scope validation reaches the Sleeve id derivation: the scope is canonical, its fields are
/// well formed and its profile is the owner's match profile.
pub open spec fn scope_derives_sleeve(c: DecisionContextV6) -> bool {
    &&& strictly_sorted_views(parameter_keys(c.strategy.parameters@))
    &&& strictly_sorted_views(string_views(c.strategy.market_ids@))
    &&& scope_fields_valid(c)
    &&& c.strategy.profile@ == c.owner_state.opportunity.match_profile@
}

/// Context validation reaches the Sleeve id derivation: the owner projection validates and
/// scope validation reaches it.
pub open spec fn context_derives_sleeve(c: DecisionContextV6) -> bool {
    &&& context_v4_verdict(c.owner_state, MAX_POINTS_PER_MODEL as nat) is Ok
    &&& scope_derives_sleeve(c)
}

fn scope_reaches_sleeve(context: &DecisionContextV6) -> (r: bool)
    ensures
        r == scope_derives_sleeve(*context),
{
    let scope = &context.strategy;
    let keys = collect_parameter_keys(&scope.parameters);
    strings_strictly_sorted(&keys) && strings_strictly_sorted(&scope.market_ids)
        && valid_identifier(&scope.strategy_id) && valid_identifier(&scope.binding_id)
        && valid_text(&scope.profile, MAX_SHORT_TEXT_BYTES) && scope.parameters.len()
        <= MAX_STRATEGY_PARAMETERS && parameters_ok(&scope.parameters) && valid_identifier(
        &scope.station_id,
    ) && valid_identifier(&scope.event_ticker) && valid_text(
        &scope.event_date,
        MAX_SHORT_TEXT_BYTES,
    ) && valid_text(&scope.profile_and_calculator_digest, MAX_SHORT_TEXT_BYTES)
        && scope.market_ids.len() > 0 && string_eq(
        &scope.profile,
        &context.owner_state.opportunity.match_profile,
    )
}

/// Whether validating the context reaches the Sleeve id derivation, which frames the owner's
/// venue and opportunity ids with a 2-byte length: a caller holding ids longer than 65535
/// bytes tests this before validating.
pub fn reaches_sleeve_derivation(context: &DecisionContextV6) -> (r: bool)
    ensures
        r == context_derives_sleeve(*context),
{
    context.owner_state.validate_with_forecast_point_bound(MAX_POINTS_PER_MODEL).is_ok()
        && scope_reaches_sleeve(context)
}

/// The Strategy scope is canonical, well formed and bound to the owner projection. When the
/// checks before the Sleeve id derivation pass, the owner's venue and opportunity ids must be
/// at most 65535 bytes each (the Sleeve id frames them with a 2-byte length).
pub fn validate_scope(context: &DecisionContextV6) -> (r: Result<(), DecisionV6Error>)
    requires
        scope_derives_sleeve(*context) ==> sleeve_components_fit(*context),
    ensures
        r == scope_verdict(*context),
{
    let scope = &context.strategy;
    let keys = collect_parameter_keys(&scope.parameters);
    if !strings_strictly_sorted(&keys) || !strings_strictly_sorted(&scope.market_ids) {
        return Err(DecisionV6Error::NonCanonicalOrder);
    }
    if !valid_identifier(&scope.strategy_id) || !valid_identifier(&scope.binding_id)
        || !valid_text(&scope.profile, MAX_SHORT_TEXT_BYTES) || scope.parameters.len()
        > MAX_STRATEGY_PARAMETERS || !parameters_ok(&scope.parameters) || !valid_identifier(
        &scope.station_id,
    ) || !valid_identifier(&scope.event_ticker) || !valid_text(
        &scope.event_date,
        MAX_SHORT_TEXT_BYTES,
    ) || !valid_text(&scope.profile_and_calculator_digest, MAX_SHORT_TEXT_BYTES)
        || scope.market_ids.len() == 0 {
        return Err(DecisionV6Error::InvalidContract);
    }
    let owner = &context.owner_state;
    if !string_eq(&scope.profile, &owner.opportunity.match_profile) {
        return Err(DecisionV6Error::InvalidContract);
    }
    let sleeve = derive_sleeve_identity_v6(
        &scope.strategy_id,
        &scope.binding_id,
        &owner.opportunity.venue_id,
        &owner.opportunity.opportunity_id,
    );
    if !string_eq(&owner.sleeve.sleeve_id, &sleeve) || !strings_contain(
        &owner.opportunity.contributor_stations,
        &scope.station_id,
    ) || !scope_station_present(context) || !string_eq(
        &owner.config.profile_and_calculator_digest,
        &scope.profile_and_calculator_digest,
    ) || !string_eq(
        &owner.fence.profile_and_calculator_digest,
        &scope.profile_and_calculator_digest,
    ) {
        return Err(DecisionV6Error::InvalidContract);
    }
    let market_ids = collect_market_ids(&owner.markets);
    if !same_strings(&market_ids, &scope.market_ids) || !owner_markets_in_scope(context) {
        return Err(DecisionV6Error::InvalidContract);
    }
    Ok(())
}

// ---------------------------------------------------------------------------------------------
// Contributor stations and capabilities
// ---------------------------------------------------------------------------------------------

pub open spec fn contributor_stations_verdict(c: DecisionContextV6) -> Result<(), DecisionV6Error> {
    let cs = string_views(c.owner_state.opportunity.contributor_stations@);
    if cs.len() > MAX_STATIONS {
        Err(DecisionV6Error::BoundExceeded)
    } else if !cs.no_duplicates() {
        Err(DecisionV6Error::DuplicateIdentity)
    } else if !all_identifiers(cs) || cs.to_set() != owner_station_ids(
        c.owner_state.stations@,
    ).to_set() {
        Err(DecisionV6Error::InvalidContract)
    } else {
        Ok(())
    }
}

/// The event's contributor stations are exactly the owner projection's stations.
pub fn validate_contributor_stations(context: &DecisionContextV6) -> (r: Result<
    (),
    DecisionV6Error,
>)
    ensures
        r == contributor_stations_verdict(*context),
{
    let contributors = &context.owner_state.opportunity.contributor_stations;
    if contributors.len() > MAX_STATIONS {
        return Err(DecisionV6Error::BoundExceeded);
    }
    if !strings_unique(contributors) {
        return Err(DecisionV6Error::DuplicateIdentity);
    }
    let owner = collect_station_ids(&context.owner_state.stations);
    if !all_valid_identifiers(contributors) || !same_strings(contributors, &owner) {
        return Err(DecisionV6Error::InvalidContract);
    }
    Ok(())
}

pub open spec fn capabilities_verdict(g: CapabilityGrantV6) -> Result<(), DecisionV6Error> {
    let names = string_views(g.external_requests@);
    if names.len() > MAX_EXTERNAL_REQUEST_GRANTS {
        Err(DecisionV6Error::BoundExceeded)
    } else if !strictly_sorted_views(names) {
        Err(DecisionV6Error::NonCanonicalOrder)
    } else if !all_identifiers(names) {
        Err(DecisionV6Error::InvalidContract)
    } else {
        Ok(())
    }
}

/// At most `MAX_EXTERNAL_REQUEST_GRANTS` request names, strictly sorted, each an identifier.
pub fn validate_capabilities(capabilities: &CapabilityGrantV6) -> (r: Result<(), DecisionV6Error>)
    ensures
        r == capabilities_verdict(*capabilities),
{
    if capabilities.external_requests.len() > MAX_EXTERNAL_REQUEST_GRANTS {
        return Err(DecisionV6Error::BoundExceeded);
    }
    if !strings_strictly_sorted(&capabilities.external_requests) {
        return Err(DecisionV6Error::NonCanonicalOrder);
    }
    if !all_valid_identifiers(&capabilities.external_requests) {
        return Err(DecisionV6Error::InvalidContract);
    }
    Ok(())
}

// ---------------------------------------------------------------------------------------------
// Broker state
// ---------------------------------------------------------------------------------------------

/// Positions order by Market id, then side (Yes before No).
pub open spec fn position_lt(a: BrokerPositionV6, b: BrokerPositionV6) -> bool {
    ||| lex_lt(utf8(a.market_id@), utf8(b.market_id@))
    ||| (a.market_id@ == b.market_id@ && side_index(a.side) < side_index(b.side))
}

pub open spec fn positions_strictly_sorted(s: Seq<BrokerPositionV6>) -> bool {
    forall|i: int| 0 <= i < s.len() - 1 ==> #[trigger] position_lt(s[i], s[i + 1])
}

/// A position: a positive quantity within `i64`, a cost basis within its maximum value, in a
/// scoped Market.
pub open spec fn position_valid(p: BrokerPositionV6, market_ids: Seq<Seq<char>>) -> bool {
    &&& p.quantity_hundredths != 0
    &&& p.quantity_hundredths <= i64::MAX
    &&& p.cost_basis_micros as int <= spec_maximum_quantity_value(p.quantity_hundredths)
    &&& market_ids.contains(p.market_id@)
}

/// Cash the orders reserve: principal and fee reservations.
pub open spec fn reserved_cash_sum(s: Seq<BrokerOrderV6>) -> int
    decreases s.len(),
{
    if s.len() == 0 {
        0
    } else {
        reserved_cash_sum(s.drop_last()) + s.last().reserved_principal_micros
            + s.last().reserved_fee_micros
    }
}

/// Cash the positions commit: cost basis and fees.
pub open spec fn position_commitment_sum(s: Seq<BrokerPositionV6>) -> int
    decreases s.len(),
{
    if s.len() == 0 {
        0
    } else {
        position_commitment_sum(s.drop_last()) + s.last().cost_basis_micros + s.last().fees_micros
    }
}

pub open spec fn broker_verdict(c: DecisionContextV6) -> Result<(), DecisionV6Error> {
    let b = c.broker;
    let market_ids = string_views(c.strategy.market_ids@);
    let reserved = reserved_cash_sum(b.orders@);
    if b.revision != c.owner_state.broker.revision || b.revision
        != c.owner_state.fence.broker_revision {
        Err(DecisionV6Error::InvalidContract)
    } else if !positions_strictly_sorted(b.positions@) || !strictly_sorted_views(
        order_ids(b.orders@),
    ) {
        Err(DecisionV6Error::NonCanonicalOrder)
    } else if b.positions@.len() > MAX_BROKER_POSITIONS || b.orders@.len() > MAX_BROKER_ORDERS {
        Err(DecisionV6Error::InvalidContract)
    } else if !(forall|i: int|
        0 <= i < b.positions@.len() ==> #[trigger] position_valid(b.positions@[i], market_ids))
        || !(forall|i: int|
        0 <= i < b.orders@.len() ==> #[trigger] broker_order_v6_valid(b.orders@[i], market_ids)) {
        Err(DecisionV6Error::InvalidContract)
    } else if reserved != b.reserved_cash_micros || reserved
        > c.owner_state.broker.locally_reserved_cash || position_commitment_sum(b.positions@)
        + reserved != c.owner_state.broker.current_commitment {
        Err(DecisionV6Error::InvalidContract)
    } else if !order_command_ids(b.orders@).no_duplicates() || !order_intent_ids(
        b.orders@,
    ).no_duplicates() || !order_client_ids(b.orders@).no_duplicates() || !order_provider_ids(
        b.orders@,
    ).no_duplicates() {
        Err(DecisionV6Error::DuplicateIdentity)
    } else {
        Ok(())
    }
}

fn positions_sorted(positions: &Vec<BrokerPositionV6>) -> (r: bool)
    ensures
        r == positions_strictly_sorted(positions@),
{
    let n = positions.len();
    if n == 0 {
        return true;
    }
    let mut i: usize = 0;
    while i + 1 < n
        invariant
            n == positions@.len(),
            n > 0,
            0 <= i < n,
            forall|j: int| 0 <= j < i ==> #[trigger] position_lt(positions@[j], positions@[j + 1]),
        decreases n - i,
    {
        let a = &positions[i];
        let b = &positions[i + 1];
        let side_a: u8 = match a.side {
            crate::decision_v6::ContractSideV6::Yes => 0,
            crate::decision_v6::ContractSideV6::No => 1,
        };
        let side_b: u8 = match b.side {
            crate::decision_v6::ContractSideV6::Yes => 0,
            crate::decision_v6::ContractSideV6::No => 1,
        };
        if !(string_lt(&a.market_id, &b.market_id) || (string_eq(&a.market_id, &b.market_id)
            && side_a < side_b)) {
            assert(!position_lt(positions@[i as int], positions@[i as int + 1]));
            return false;
        }
        i += 1;
    }
    true
}

fn positions_ok(positions: &Vec<BrokerPositionV6>, market_ids: &Vec<String>) -> (r: bool)
    ensures
        r == forall|i: int|
            0 <= i < positions@.len() ==> #[trigger] position_valid(
                positions@[i],
                string_views(market_ids@),
            ),
{
    let mut i: usize = 0;
    while i < positions.len()
        invariant
            0 <= i <= positions@.len(),
            forall|k: int|
                0 <= k < i ==> #[trigger] position_valid(positions@[k], string_views(market_ids@)),
        decreases positions@.len() - i,
    {
        let p = &positions[i];
        if p.quantity_hundredths == 0 || p.quantity_hundredths > i64::MAX as u64
            || (p.cost_basis_micros as u128) > maximum_quantity_value(p.quantity_hundredths)
            || !strings_contain(market_ids, &p.market_id) {
            assert(!position_valid(positions@[i as int], string_views(market_ids@)));
            return false;
        }
        i += 1;
    }
    true
}

fn orders_ok(orders: &Vec<BrokerOrderV6>, market_ids: &Vec<String>) -> (r: bool)
    ensures
        r == forall|i: int|
            0 <= i < orders@.len() ==> #[trigger] broker_order_v6_valid(
                orders@[i],
                string_views(market_ids@),
            ),
{
    let mut i: usize = 0;
    while i < orders.len()
        invariant
            0 <= i <= orders@.len(),
            slice_views(market_ids@) == string_views(market_ids@),
            forall|k: int|
                0 <= k < i ==> #[trigger] broker_order_v6_valid(
                    orders@[k],
                    string_views(market_ids@),
                ),
        decreases orders@.len() - i,
    {
        if validate_broker_order_v6(&orders[i], market_ids.as_slice()).is_err() {
            assert(!broker_order_v6_valid(orders@[i as int], string_views(market_ids@)));
            return false;
        }
        i += 1;
    }
    true
}

fn sum_reserved_cash(orders: &Vec<BrokerOrderV6>) -> (r: u128)
    requires
        orders@.len() <= MAX_BROKER_ORDERS,
    ensures
        r == reserved_cash_sum(orders@),
        r <= MAX_BROKER_ORDERS * 2 * (u64::MAX as int),
{
    let mut total: u128 = 0;
    let mut i: usize = 0;
    while i < orders.len()
        invariant
            0 <= i <= orders@.len(),
            orders@.len() <= MAX_BROKER_ORDERS,
            total == reserved_cash_sum(orders@.take(i as int)),
            total <= i * 2 * (u64::MAX as int),
        decreases orders@.len() - i,
    {
        proof {
            assert(orders@.take(i + 1).drop_last() =~= orders@.take(i as int));
        }
        total = total + orders[i].reserved_principal_micros as u128
            + orders[i].reserved_fee_micros as u128;
        i += 1;
    }
    assert(orders@.take(orders@.len() as int) =~= orders@);
    total
}

fn sum_position_commitment(positions: &Vec<BrokerPositionV6>) -> (r: u128)
    requires
        positions@.len() <= MAX_BROKER_POSITIONS,
    ensures
        r == position_commitment_sum(positions@),
        r <= MAX_BROKER_POSITIONS * 2 * (u64::MAX as int),
{
    let mut total: u128 = 0;
    let mut i: usize = 0;
    while i < positions.len()
        invariant
            0 <= i <= positions@.len(),
            positions@.len() <= MAX_BROKER_POSITIONS,
            total == position_commitment_sum(positions@.take(i as int)),
            total <= i * 2 * (u64::MAX as int),
        decreases positions@.len() - i,
    {
        proof {
            assert(positions@.take(i + 1).drop_last() =~= positions@.take(i as int));
        }
        total = total + positions[i].cost_basis_micros as u128 + positions[i].fees_micros as u128;
        i += 1;
    }
    assert(positions@.take(positions@.len() as int) =~= positions@);
    total
}

/// The Sleeve's Broker state: at the fenced revision, canonically ordered, bounded, every
/// record valid, reservations and commitments conserved against the owner's cash, and every
/// order identity unique.
pub fn validate_broker(context: &DecisionContextV6) -> (r: Result<(), DecisionV6Error>)
    ensures
        r == broker_verdict(*context),
{
    let broker = &context.broker;
    if broker.revision != context.owner_state.broker.revision || broker.revision
        != context.owner_state.fence.broker_revision {
        return Err(DecisionV6Error::InvalidContract);
    }
    let ids = collect_order_identities(&broker.orders, &OrderIdentity::OrderId);
    assert(string_views(ids@) =~= order_ids(broker.orders@));
    if !positions_sorted(&broker.positions) || !strings_strictly_sorted(&ids) {
        return Err(DecisionV6Error::NonCanonicalOrder);
    }
    if broker.positions.len() > MAX_BROKER_POSITIONS || broker.orders.len() > MAX_BROKER_ORDERS {
        return Err(DecisionV6Error::InvalidContract);
    }
    if !positions_ok(&broker.positions, &context.strategy.market_ids) || !orders_ok(
        &broker.orders,
        &context.strategy.market_ids,
    ) {
        return Err(DecisionV6Error::InvalidContract);
    }
    let reserved = sum_reserved_cash(&broker.orders);
    let commitment = sum_position_commitment(&broker.positions);
    if reserved != broker.reserved_cash_micros as u128 || reserved
        > context.owner_state.broker.locally_reserved_cash as u128 || commitment + reserved
        != context.owner_state.broker.current_commitment as u128 {
        return Err(DecisionV6Error::InvalidContract);
    }
    let commands = collect_order_identities(&broker.orders, &OrderIdentity::CommandId);
    let intents = collect_order_identities(&broker.orders, &OrderIdentity::IntentId);
    let clients = collect_order_identities(&broker.orders, &OrderIdentity::ProviderClientId);
    let providers = collect_provider_order_ids(&broker.orders);
    assert(string_views(commands@) =~= order_command_ids(broker.orders@));
    assert(string_views(intents@) =~= order_intent_ids(broker.orders@));
    assert(string_views(clients@) =~= order_client_ids(broker.orders@));
    if !strings_unique(&commands) || !strings_unique(&intents) || !strings_unique(&clients)
        || !strings_unique(&providers) {
        return Err(DecisionV6Error::DuplicateIdentity);
    }
    Ok(())
}

// ---------------------------------------------------------------------------------------------
// Receipts
// ---------------------------------------------------------------------------------------------

/// A receipt: an identifier command id with no order record, a refusal with an identifier code
/// and a bounded reason, and a place only as a refusal (an admitted place has an order).
pub open spec fn receipt_valid(r: CommandReceiptV6, order_commands: Seq<Seq<char>>) -> bool {
    &&& match r.outcome {
        CommandOutcomeV6::Refused { code, reason } => spec_valid_identifier(code@)
            && spec_valid_text(reason@, MAX_REASON_BYTES as nat),
        CommandOutcomeV6::Accepted => true,
    }
    &&& spec_valid_identifier(r.command_id@)
    &&& !order_commands.contains(r.command_id@)
    &&& !(r.kind is PlaceOrder && r.outcome is Accepted)
}

pub open spec fn receipts_verdict(c: DecisionContextV6) -> Result<(), DecisionV6Error> {
    let receipts = c.command_receipts@;
    let order_commands = order_command_ids(c.broker.orders@);
    if receipts.len() > MAX_COMMAND_RECEIPTS {
        Err(DecisionV6Error::BoundExceeded)
    } else if !strictly_sorted_views(receipt_command_ids(receipts)) {
        Err(DecisionV6Error::NonCanonicalOrder)
    } else if !(forall|i: int|
        0 <= i < receipts.len() ==> #[trigger] receipt_valid(receipts[i], order_commands)) {
        Err(DecisionV6Error::InvalidContract)
    } else {
        Ok(())
    }
}

/// The command receipts: bounded, strictly sorted by command id, each valid.
#[verifier::loop_isolation(false)]
pub fn validate_receipts(context: &DecisionContextV6) -> (r: Result<(), DecisionV6Error>)
    ensures
        r == receipts_verdict(*context),
{
    let receipts = &context.command_receipts;
    if receipts.len() > MAX_COMMAND_RECEIPTS {
        return Err(DecisionV6Error::BoundExceeded);
    }
    let ids = collect_receipt_ids(receipts);
    if !strings_strictly_sorted(&ids) {
        return Err(DecisionV6Error::NonCanonicalOrder);
    }
    let order_commands = collect_order_identities(&context.broker.orders, &OrderIdentity::CommandId);
    assert(string_views(order_commands@) =~= order_command_ids(context.broker.orders@));
    let mut i: usize = 0;
    while i < receipts.len()
        invariant
            0 <= i <= receipts@.len(),
            receipts@ == context.command_receipts@,
            string_views(order_commands@) == order_command_ids(context.broker.orders@),
            forall|k: int|
                0 <= k < i ==> #[trigger] receipt_valid(
                    receipts@[k],
                    order_command_ids(context.broker.orders@),
                ),
        decreases receipts@.len() - i,
    {
        let receipt = &receipts[i];
        let refused = match &receipt.outcome {
            CommandOutcomeV6::Accepted => false,
            CommandOutcomeV6::Refused { code, reason } => {
                if !valid_identifier(code) || !valid_text(reason, MAX_REASON_BYTES) {
                    assert(!receipt_valid(
                        receipts@[i as int],
                        order_command_ids(context.broker.orders@),
                    ));
                    return Err(DecisionV6Error::InvalidContract);
                }
                true
            },
        };
        let place = matches!(receipt.kind, crate::decision_v6::BrokerCommandKindV6::PlaceOrder);
        if !valid_identifier(&receipt.command_id) || strings_contain(
            &order_commands,
            &receipt.command_id,
        ) || (place && !refused) {
            assert(!receipt_valid(receipts@[i as int], order_command_ids(context.broker.orders@)));
            return Err(DecisionV6Error::InvalidContract);
        }
        i += 1;
    }
    Ok(())
}

// ---------------------------------------------------------------------------------------------
// Market strikes
// ---------------------------------------------------------------------------------------------

/// A strike names its Market, carries a Fahrenheit cap only where the identity has no Celsius
/// cap, and a cap no lower than the identity's Fahrenheit floor.
pub open spec fn strike_matches(s: MarketStrikesV6, id: MarketIdentityV4) -> bool {
    &&& s.market_id@ == id.market_id@
    &&& !(s.cap_strike_milli_f is Some && id.cap_strike_milli_c is Some)
    &&& match (id.floor_strike_milli_f, s.cap_strike_milli_f) {
        (Some(floor), Some(cap)) => floor <= cap,
        _ => true,
    }
}

pub open spec fn market_strikes_verdict(c: DecisionContextV6) -> Result<(), DecisionV6Error> {
    match c.market_strikes {
        None => Ok(()),
        Some(strikes) => {
            let markets = c.owner_state.markets@;
            if strikes@.len() != markets.len() {
                Err(DecisionV6Error::InvalidContract)
            } else if !(forall|i: int|
                0 <= i < strikes@.len() ==> #[trigger] strike_matches(
                    strikes@[i],
                    markets[i].identity,
                )) {
                Err(DecisionV6Error::InvalidContract)
            } else {
                Ok(())
            }
        },
    }
}

/// Present strikes list every owner Market in order, each matching its identity.
pub fn validate_market_strikes(context: &DecisionContextV6) -> (r: Result<(), DecisionV6Error>)
    ensures
        r == market_strikes_verdict(*context),
{
    let strikes = match &context.market_strikes {
        None => return Ok(()),
        Some(strikes) => strikes,
    };
    let markets = &context.owner_state.markets;
    if strikes.len() != markets.len() {
        return Err(DecisionV6Error::InvalidContract);
    }
    let mut i: usize = 0;
    while i < strikes.len()
        invariant
            0 <= i <= strikes@.len(),
            strikes@.len() == markets@.len(),
            context.market_strikes == Some(*strikes),
            markets@ == context.owner_state.markets@,
            forall|k: int|
                0 <= k < i ==> #[trigger] strike_matches(strikes@[k], markets@[k].identity),
        decreases strikes@.len() - i,
    {
        let strike = &strikes[i];
        let identity = &markets[i].identity;
        let ordered = match (identity.floor_strike_milli_f, strike.cap_strike_milli_f) {
            (Some(floor), Some(cap)) => floor <= cap,
            _ => true,
        };
        if !string_eq(&strike.market_id, &identity.market_id) || (
        strike.cap_strike_milli_f.is_some() && identity.cap_strike_milli_c.is_some())
            || !ordered {
            assert(!strike_matches(strikes@[i as int], markets@[i as int].identity));
            return Err(DecisionV6Error::InvalidContract);
        }
        i += 1;
    }
    Ok(())
}

// ---------------------------------------------------------------------------------------------
// The context
// ---------------------------------------------------------------------------------------------

/// What validating a context gives, check by check: the owner projection, the scope, the
/// contributor stations, the capability grant, the Broker state, the receipts, the kernel
/// checkpoint, the trigger and the Market strikes.
pub open spec fn context_v6_verdict(c: DecisionContextV6) -> Result<(), DecisionV6Error> {
    match context_v4_verdict(c.owner_state, MAX_POINTS_PER_MODEL as nat) {
        Err(e) => Err(DecisionV6Error::V4(e)),
        Ok(_) => if scope_verdict(c) is Err {
            scope_verdict(c)
        } else if contributor_stations_verdict(c) is Err {
            contributor_stations_verdict(c)
        } else if capabilities_verdict(c.capabilities) is Err {
            capabilities_verdict(c.capabilities)
        } else if broker_verdict(c) is Err {
            broker_verdict(c)
        } else if receipts_verdict(c) is Err {
            receipts_verdict(c)
        } else if c.kernel_checkpoint is Some && kernel_checkpoint_verdict(
            c.strategy,
            c.kernel_checkpoint->0,
        ) is Err {
            kernel_checkpoint_verdict(c.strategy, c.kernel_checkpoint->0)
        } else if trigger_verdict(c) is Err {
            trigger_verdict(c)
        } else {
            market_strikes_verdict(c)
        },
    }
}

impl DecisionContextV6 {
    /// Checks the whole context. When the checks before the Sleeve id derivation pass, the
    /// owner's venue and opportunity ids must be at most 65535 bytes each.
    pub fn validate(&self) -> (r: Result<(), DecisionV6Error>)
        requires
            context_derives_sleeve(*self) ==> sleeve_components_fit(*self),
        ensures
            r == context_v6_verdict(*self),
    {
        match self.owner_state.validate_with_forecast_point_bound(MAX_POINTS_PER_MODEL) {
            Err(e) => {
                return Err(DecisionV6Error::V4(e));
            },
            Ok(()) => {},
        }
        let scope = validate_scope(self);
        if scope.is_err() {
            return scope;
        }
        let stations = validate_contributor_stations(self);
        if stations.is_err() {
            return stations;
        }
        let capabilities = validate_capabilities(&self.capabilities);
        if capabilities.is_err() {
            return capabilities;
        }
        let broker = validate_broker(self);
        if broker.is_err() {
            return broker;
        }
        let receipts = validate_receipts(self);
        if receipts.is_err() {
            return receipts;
        }
        if let Some(checkpoint) = &self.kernel_checkpoint {
            let checked = validate_kernel_checkpoint(&self.strategy, checkpoint);
            if checked.is_err() {
                return checked;
            }
        }
        let trigger = validate_trigger(self);
        if trigger.is_err() {
            return trigger;
        }
        validate_market_strikes(self)
    }
}

} // verus!
