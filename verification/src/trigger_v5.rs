//! The binding of a Decision V5 owner trigger to the owner projection. V5 and V6 owner triggers
//! have the same variants and fields, and a V5 trigger binds exactly when the V6 trigger with
//! the same fields does.
use crate::decision_v4::DecisionContextV4;
use crate::decision_v5::{DecisionV5Error, OwnerTriggerV5};
use crate::decision_v6::OwnerTriggerV6;
use crate::trigger_v6::{owner_projection_binds, owner_state_binds};
use vstd::prelude::*;

verus! {

/// The V6 owner trigger with the same variant and fields.
pub open spec fn owner_trigger_v5_fields(t: OwnerTriggerV5) -> OwnerTriggerV6 {
    match t {
        OwnerTriggerV5::Observation {
            station_id,
            observed_at_unix_ms,
            component_revision,
            source_generation,
            source_sequence,
        } => OwnerTriggerV6::Observation {
            station_id,
            observed_at_unix_ms,
            component_revision,
            source_generation,
            source_sequence,
        },
        OwnerTriggerV5::ForecastUpdated {
            station_id,
            emitted_at_unix_ms,
            component_revision,
            source_generation,
            source_sequence,
        } => OwnerTriggerV6::ForecastUpdated {
            station_id,
            emitted_at_unix_ms,
            component_revision,
            source_generation,
            source_sequence,
        },
        OwnerTriggerV5::OracleScoresUpdated {
            station_id,
            emitted_at_unix_ms,
            component_revision,
            source_generation,
            source_sequence,
        } => OwnerTriggerV6::OracleScoresUpdated {
            station_id,
            emitted_at_unix_ms,
            component_revision,
            source_generation,
            source_sequence,
        },
        OwnerTriggerV5::NewHigh {
            station_id,
            event_date,
            temperature_milli_c,
            observed_at_unix_ms,
            component_revision,
            source_generation,
            source_sequence,
        } => OwnerTriggerV6::NewHigh {
            station_id,
            event_date,
            temperature_milli_c,
            observed_at_unix_ms,
            component_revision,
            source_generation,
            source_sequence,
        },
        OwnerTriggerV5::NewLow {
            station_id,
            event_date,
            temperature_milli_c,
            observed_at_unix_ms,
            component_revision,
            source_generation,
            source_sequence,
        } => OwnerTriggerV6::NewLow {
            station_id,
            event_date,
            temperature_milli_c,
            observed_at_unix_ms,
            component_revision,
            source_generation,
            source_sequence,
        },
        OwnerTriggerV5::StationReport {
            station_id,
            report_id,
            report_type,
            report_revision,
            provider,
            source_generation,
            source_sequence,
        } => OwnerTriggerV6::StationReport {
            station_id,
            report_id,
            report_type,
            report_revision,
            provider,
            source_generation,
            source_sequence,
        },
        OwnerTriggerV5::WeatherEvent {
            station_id,
            episode_id,
            state,
            component_revision,
            source_generation,
            source_sequence,
        } => OwnerTriggerV6::WeatherEvent {
            station_id,
            episode_id,
            state,
            component_revision,
            source_generation,
            source_sequence,
        },
        OwnerTriggerV5::CapturedWeather { station_id, source_generation, source_sequence } =>
            OwnerTriggerV6::CapturedWeather { station_id, source_generation, source_sequence },
        OwnerTriggerV5::MarketPrice { market_id, price_revision, emitted_at_unix_ms } =>
            OwnerTriggerV6::MarketPrice { market_id, price_revision, emitted_at_unix_ms },
        OwnerTriggerV5::Timer { key, scheduled_at_epoch_ns, generation } => OwnerTriggerV6::Timer {
            key,
            scheduled_at_epoch_ns,
            generation,
        },
        OwnerTriggerV5::Bootstrap => OwnerTriggerV6::Bootstrap,
        OwnerTriggerV5::Recovery => OwnerTriggerV6::Recovery,
    }
}

/// What binding a V5 owner trigger to an owner projection gives: `Ok` when it names the
/// owner's trigger and a station, Market or timer record shows the update, else
/// `InvalidContract`. A captured weather trigger is refused: binding it needs the originating
/// weather packet, which these contexts do not carry.
pub open spec fn owner_trigger_v5_verdict(o: DecisionContextV4, t: OwnerTriggerV5) -> Result<
    (),
    DecisionV5Error,
> {
    if owner_projection_binds(o, owner_trigger_v5_fields(t)) {
        Ok(())
    } else {
        Err(DecisionV5Error::InvalidContract)
    }
}

fn clone_optional(value: &Option<String>) -> (r: Option<String>)
    ensures
        r == *value,
{
    match value {
        Some(s) => Some(s.clone()),
        None => None,
    }
}

fn v6_fields(t: &OwnerTriggerV5) -> (r: OwnerTriggerV6)
    ensures
        r == owner_trigger_v5_fields(*t),
{
    match t {
        OwnerTriggerV5::Observation {
            station_id,
            observed_at_unix_ms,
            component_revision,
            source_generation,
            source_sequence,
        } => OwnerTriggerV6::Observation {
            station_id: station_id.clone(),
            observed_at_unix_ms: *observed_at_unix_ms,
            component_revision: *component_revision,
            source_generation: *source_generation,
            source_sequence: *source_sequence,
        },
        OwnerTriggerV5::ForecastUpdated {
            station_id,
            emitted_at_unix_ms,
            component_revision,
            source_generation,
            source_sequence,
        } => OwnerTriggerV6::ForecastUpdated {
            station_id: station_id.clone(),
            emitted_at_unix_ms: *emitted_at_unix_ms,
            component_revision: *component_revision,
            source_generation: *source_generation,
            source_sequence: *source_sequence,
        },
        OwnerTriggerV5::OracleScoresUpdated {
            station_id,
            emitted_at_unix_ms,
            component_revision,
            source_generation,
            source_sequence,
        } => OwnerTriggerV6::OracleScoresUpdated {
            station_id: station_id.clone(),
            emitted_at_unix_ms: *emitted_at_unix_ms,
            component_revision: *component_revision,
            source_generation: *source_generation,
            source_sequence: *source_sequence,
        },
        OwnerTriggerV5::NewHigh {
            station_id,
            event_date,
            temperature_milli_c,
            observed_at_unix_ms,
            component_revision,
            source_generation,
            source_sequence,
        } => OwnerTriggerV6::NewHigh {
            station_id: station_id.clone(),
            event_date: clone_optional(event_date),
            temperature_milli_c: *temperature_milli_c,
            observed_at_unix_ms: *observed_at_unix_ms,
            component_revision: *component_revision,
            source_generation: *source_generation,
            source_sequence: *source_sequence,
        },
        OwnerTriggerV5::NewLow {
            station_id,
            event_date,
            temperature_milli_c,
            observed_at_unix_ms,
            component_revision,
            source_generation,
            source_sequence,
        } => OwnerTriggerV6::NewLow {
            station_id: station_id.clone(),
            event_date: clone_optional(event_date),
            temperature_milli_c: *temperature_milli_c,
            observed_at_unix_ms: *observed_at_unix_ms,
            component_revision: *component_revision,
            source_generation: *source_generation,
            source_sequence: *source_sequence,
        },
        OwnerTriggerV5::StationReport {
            station_id,
            report_id,
            report_type,
            report_revision,
            provider,
            source_generation,
            source_sequence,
        } => OwnerTriggerV6::StationReport {
            station_id: station_id.clone(),
            report_id: report_id.clone(),
            report_type: report_type.clone(),
            report_revision: *report_revision,
            provider: provider.clone(),
            source_generation: *source_generation,
            source_sequence: *source_sequence,
        },
        OwnerTriggerV5::WeatherEvent {
            station_id,
            episode_id,
            state,
            component_revision,
            source_generation,
            source_sequence,
        } => OwnerTriggerV6::WeatherEvent {
            station_id: station_id.clone(),
            episode_id: episode_id.clone(),
            state: state.clone(),
            component_revision: *component_revision,
            source_generation: *source_generation,
            source_sequence: *source_sequence,
        },
        OwnerTriggerV5::CapturedWeather { station_id, source_generation, source_sequence } =>
            OwnerTriggerV6::CapturedWeather {
            station_id: station_id.clone(),
            source_generation: *source_generation,
            source_sequence: *source_sequence,
        },
        OwnerTriggerV5::MarketPrice { market_id, price_revision, emitted_at_unix_ms } =>
            OwnerTriggerV6::MarketPrice {
            market_id: market_id.clone(),
            price_revision: *price_revision,
            emitted_at_unix_ms: *emitted_at_unix_ms,
        },
        OwnerTriggerV5::Timer { key, scheduled_at_epoch_ns, generation } => OwnerTriggerV6::Timer {
            key: key.clone(),
            scheduled_at_epoch_ns: *scheduled_at_epoch_ns,
            generation: generation.clone(),
        },
        OwnerTriggerV5::Bootstrap => OwnerTriggerV6::Bootstrap,
        OwnerTriggerV5::Recovery => OwnerTriggerV6::Recovery,
    }
}

/// Binds a V5 owner trigger to the owner projection; see [`owner_trigger_v5_verdict`].
pub fn validate_owner_trigger_v5(owner_state: &DecisionContextV4, trigger: &OwnerTriggerV5) -> (r:
    Result<(), DecisionV5Error>)
    ensures
        r == owner_trigger_v5_verdict(*owner_state, *trigger),
{
    let fields = v6_fields(trigger);
    if owner_state_binds(owner_state, &fields) {
        Ok(())
    } else {
        Err(DecisionV5Error::InvalidContract)
    }
}

} // verus!
