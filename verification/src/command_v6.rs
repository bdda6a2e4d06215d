//! Bounds of one Decision V6 command and of one telemetry entry, as result validation checks
//! them.
use crate::decision_v6::{
    AnnotationValueV6, CancelTargetV6, DecisionV6Error, OrderActionV6, OrderTypeV6, PlaceOrderV6,
    StrategyCommandV6, TelemetryEntryV6, command_v6_id, MAX_COMMAND_METADATA_BYTES,
    MAX_PRICE_MICROS, MAX_PROVIDER_CLIENT_ID_BYTES, MAX_REASON_BYTES, MAX_SHORT_TEXT_BYTES,
    MAX_TELEMETRY_FIELDS, MAX_TIMER_SEMANTICS_BYTES_V6,
};
use crate::text::{
    byte_len, byte_length, opt_view, spec_valid_identifier, spec_valid_optional_text,
    spec_valid_text, valid_identifier, valid_optional_text, valid_text,
};
use vstd::prelude::*;

verus! {

/// An identifier within the Broker's client order id bound.
pub open spec fn spec_valid_provider_client_id(s: Seq<char>) -> bool {
    spec_valid_identifier(s) && byte_len(s) <= MAX_PROVIDER_CLIENT_ID_BYTES
}

/// An identifier within the Broker's client order id bound.
pub fn valid_provider_client_id(value: &str) -> (r: bool)
    ensures
        r == spec_valid_provider_client_id(value@),
{
    valid_identifier(value) && byte_length(value) <= MAX_PROVIDER_CLIENT_ID_BYTES
}

/// Prices by kind of order: a Market buy has no limit and an optional cap in `1..=MAX`; a
/// Market sell neither; a Limit order a limit within `MAX` and no cap.
pub open spec fn place_order_prices_valid(o: PlaceOrderV6) -> bool {
    match (o.action, o.order_type) {
        (OrderActionV6::Buy, OrderTypeV6::Market) => {
            &&& o.limit_price_micros is None
            &&& match o.market_price_cap_micros {
                Some(p) => 1 <= p <= MAX_PRICE_MICROS,
                None => true,
            }
        },
        (OrderActionV6::Sell, OrderTypeV6::Market) => o.limit_price_micros is None
            && o.market_price_cap_micros is None,
        (_, OrderTypeV6::Limit) => {
            &&& o.limit_price_micros is Some
            &&& o.limit_price_micros->0 <= MAX_PRICE_MICROS
            &&& o.market_price_cap_micros is None
        },
    }
}

pub fn valid_place_order_prices(order: &PlaceOrderV6) -> (r: bool)
    ensures
        r == place_order_prices_valid(*order),
{
    match (order.action, order.order_type) {
        (OrderActionV6::Buy, OrderTypeV6::Market) => {
            order.limit_price_micros.is_none() && match order.market_price_cap_micros {
                Some(p) => 1 <= p && p <= MAX_PRICE_MICROS,
                None => true,
            }
        },
        (OrderActionV6::Sell, OrderTypeV6::Market) => {
            order.limit_price_micros.is_none() && order.market_price_cap_micros.is_none()
        },
        (_, OrderTypeV6::Limit) => {
            let limit_valid = match order.limit_price_micros {
                Some(p) => p <= MAX_PRICE_MICROS,
                None => false,
            };
            limit_valid && order.market_price_cap_micros.is_none()
        },
    }
}

/// A place's own fields: Market, quantity, client id, metadata, signal text, expiry and
/// prices.
pub open spec fn place_order_valid(o: PlaceOrderV6) -> bool {
    &&& spec_valid_identifier(o.market_id@)
    &&& o.quantity_hundredths != 0
    &&& o.quantity_hundredths <= i64::MAX
    &&& spec_valid_provider_client_id(o.provider_client_id@)
    &&& o.metadata@.len() <= MAX_COMMAND_METADATA_BYTES
    &&& spec_valid_optional_text(opt_view(o.signal_type), MAX_SHORT_TEXT_BYTES as nat)
    &&& spec_valid_optional_text(opt_view(o.signal_metadata), MAX_COMMAND_METADATA_BYTES as nat)
    &&& match o.expires_after_ms {
        Some(ttl) => ttl > 0,
        None => true,
    }
    &&& place_order_prices_valid(o)
}

/// What checking one command gives: the command id first, then the fields of its kind. Timer
/// schedules and stop reasons out of bounds are `BoundExceeded`; other defects
/// `InvalidContract`.
pub open spec fn command_verdict(c: StrategyCommandV6) -> Result<(), DecisionV6Error> {
    if !spec_valid_identifier(command_v6_id(c)) {
        Err(DecisionV6Error::InvalidContract)
    } else {
        match c {
            StrategyCommandV6::PlaceOrder(o) => if place_order_valid(o) {
                Ok(())
            } else {
                Err(DecisionV6Error::InvalidContract)
            },
            StrategyCommandV6::CancelOrder { target, .. } => {
                let valid = match target {
                    CancelTargetV6::Order { order_id, .. } => spec_valid_identifier(order_id@),
                    CancelTargetV6::SameDecision { provider_client_id } =>
                        spec_valid_provider_client_id(provider_client_id@),
                };
                if valid {
                    Ok(())
                } else {
                    Err(DecisionV6Error::InvalidContract)
                }
            },
            StrategyCommandV6::CancelAllOrders { .. } => Ok(()),
            StrategyCommandV6::ScheduleTimer { key, generation, semantics, .. } => {
                if spec_valid_identifier(key@) && spec_valid_identifier(generation@)
                    && semantics@.len() <= MAX_TIMER_SEMANTICS_BYTES_V6 {
                    Ok(())
                } else {
                    Err(DecisionV6Error::BoundExceeded)
                }
            },
            StrategyCommandV6::CancelTimer { key, generation, .. } => {
                if spec_valid_identifier(key@) && spec_valid_identifier(generation@) {
                    Ok(())
                } else {
                    Err(DecisionV6Error::InvalidContract)
                }
            },
            StrategyCommandV6::Stop { reason, .. } => if spec_valid_text(
                reason@,
                MAX_REASON_BYTES as nat,
            ) {
                Ok(())
            } else {
                Err(DecisionV6Error::BoundExceeded)
            },
        }
    }
}

fn place_order_ok(order: &PlaceOrderV6) -> (r: bool)
    ensures
        r == place_order_valid(*order),
{
    valid_identifier(&order.market_id) && order.quantity_hundredths != 0
        && order.quantity_hundredths <= i64::MAX as u64 && valid_provider_client_id(
        &order.provider_client_id,
    ) && order.metadata.len() <= MAX_COMMAND_METADATA_BYTES && valid_optional_text(
        &order.signal_type,
        MAX_SHORT_TEXT_BYTES,
    ) && valid_optional_text(&order.signal_metadata, MAX_COMMAND_METADATA_BYTES) && match order.expires_after_ms {
        Some(ttl) => ttl > 0,
        None => true,
    } && valid_place_order_prices(order)
}

/// Bounds of one command on its own, as result validation checks them.
pub fn validate_command(command: &StrategyCommandV6) -> (r: Result<(), DecisionV6Error>)
    ensures
        r == command_verdict(*command),
{
    if !valid_identifier(command.command_id()) {
        return Err(DecisionV6Error::InvalidContract);
    }
    match command {
        StrategyCommandV6::PlaceOrder(order) => {
            if !place_order_ok(order) {
                return Err(DecisionV6Error::InvalidContract);
            }
        },
        StrategyCommandV6::CancelOrder { target, .. } => {
            let valid = match target {
                CancelTargetV6::Order { order_id, .. } => valid_identifier(order_id),
                CancelTargetV6::SameDecision { provider_client_id } => valid_provider_client_id(
                    provider_client_id,
                ),
            };
            if !valid {
                return Err(DecisionV6Error::InvalidContract);
            }
        },
        StrategyCommandV6::CancelAllOrders { .. } => {},
        StrategyCommandV6::ScheduleTimer { key, generation, semantics, .. } => {
            if !valid_identifier(key) || !valid_identifier(generation) || semantics.len()
                > MAX_TIMER_SEMANTICS_BYTES_V6 {
                return Err(DecisionV6Error::BoundExceeded);
            }
        },
        StrategyCommandV6::CancelTimer { key, generation, .. } => {
            if !valid_identifier(key) || !valid_identifier(generation) {
                return Err(DecisionV6Error::InvalidContract);
            }
        },
        StrategyCommandV6::Stop { reason, .. } => {
            if !valid_text(reason, MAX_REASON_BYTES) {
                return Err(DecisionV6Error::BoundExceeded);
            }
        },
    }
    Ok(())
}

/// Bounds of one command on its own, as result validation checks them.
pub fn validate_command_v6(command: &StrategyCommandV6) -> (r: Result<(), DecisionV6Error>)
    ensures
        r == command_verdict(*command),
{
    validate_command(command)
}

// ---------------------------------------------------------------------------------------------
// Telemetry
// ---------------------------------------------------------------------------------------------

pub open spec fn telemetry_name(t: TelemetryEntryV6) -> Seq<char> {
    match t {
        TelemetryEntryV6::Counter { name, .. } => name@,
        TelemetryEntryV6::Gauge { name, .. } => name@,
        TelemetryEntryV6::Annotation { name, .. } => name@,
    }
}

pub open spec fn telemetry_fields(t: TelemetryEntryV6) -> Seq<(String, String)> {
    match t {
        TelemetryEntryV6::Counter { fields, .. } => fields@,
        TelemetryEntryV6::Gauge { fields, .. } => fields@,
        TelemetryEntryV6::Annotation { fields, .. } => fields@,
    }
}

/// A field: a non-empty short key and a value within the short text bound.
pub open spec fn telemetry_field_valid(f: (String, String)) -> bool {
    spec_valid_text(f.0@, MAX_SHORT_TEXT_BYTES as nat) && byte_len(f.1@) <= MAX_SHORT_TEXT_BYTES
}

/// The entry fits the result bounds: a short name, at most `MAX_TELEMETRY_FIELDS` valid
/// fields, and an annotation text within `MAX_REASON_BYTES`.
pub open spec fn telemetry_entry_valid(t: TelemetryEntryV6) -> bool {
    let fields = telemetry_fields(t);
    &&& spec_valid_text(telemetry_name(t), MAX_SHORT_TEXT_BYTES as nat)
    &&& fields.len() <= MAX_TELEMETRY_FIELDS
    &&& forall|i: int| 0 <= i < fields.len() ==> #[trigger] telemetry_field_valid(fields[i])
    &&& match t {
        TelemetryEntryV6::Annotation { value: AnnotationValueV6::Text(text), .. } => byte_len(
            text@,
        ) <= MAX_REASON_BYTES,
        _ => true,
    }
}

impl TelemetryEntryV6 {
    /// The entry's name and fields, whatever its kind.
    pub fn parts(&self) -> (r: (&String, &Vec<(String, String)>))
        ensures
            r.0@ == telemetry_name(*self),
            r.1@ == telemetry_fields(*self),
    {
        match self {
            TelemetryEntryV6::Counter { name, fields, .. }
            | TelemetryEntryV6::Gauge { name, fields, .. }
            | TelemetryEntryV6::Annotation { name, fields, .. } => (name, fields),
        }
    }

    /// Whether the entry fits the result bounds.
    pub fn is_valid(&self) -> (r: bool)
        ensures
            r == telemetry_entry_valid(*self),
    {
        let (name, fields) = self.parts();
        if !valid_text(name, MAX_SHORT_TEXT_BYTES) || fields.len() > MAX_TELEMETRY_FIELDS {
            return false;
        }
        let mut i: usize = 0;
        while i < fields.len()
            invariant
                0 <= i <= fields@.len(),
                fields@ == telemetry_fields(*self),
                forall|k: int| 0 <= k < i ==> #[trigger] telemetry_field_valid(fields@[k]),
            decreases fields@.len() - i,
        {
            let (key, value) = &fields[i];
            if !valid_text(key, MAX_SHORT_TEXT_BYTES) || byte_length(value) > MAX_SHORT_TEXT_BYTES {
                assert(!telemetry_field_valid(fields@[i as int]));
                return false;
            }
            i += 1;
        }
        match self {
            TelemetryEntryV6::Annotation { value: AnnotationValueV6::Text(text), .. } => byte_length(
                text,
            ) <= MAX_REASON_BYTES,
            _ => true,
        }
    }
}

} // verus!
