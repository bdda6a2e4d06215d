//! The trigger of a Decision V6 context and its binding to the owner projection: a weather
//! trigger names the owner's weather trigger and a station whose component it updated, a
//! report, price or timer trigger the matching owner trigger and record, and a Broker-state
//! trigger the context's Broker revision.
use crate::decision_v4::{DecisionContextV4, MarketMetaV4, MarketV4, ReportV4, StationV4, TimerRecoveryV4, TriggerV4};
use crate::decision_v6::{DecisionContextV6, DecisionV6Error, OwnerTriggerV6, TriggerV6};
use crate::text::{optional_string_eq, opt_view, string_eq};
use vstd::prelude::*;

verus! {

/// The owner's weather trigger names this station and source position.
pub open spec fn owner_weather_is(
    owner: TriggerV4,
    station_id: Seq<char>,
    source_generation: u64,
    source_sequence: u64,
) -> bool {
    match owner {
        TriggerV4::Weather {
            station_id: owner_station,
            source_generation: owner_generation,
            source_sequence: owner_sequence,
        } => owner_station@ == station_id && owner_generation == source_generation
            && owner_sequence == source_sequence,
        _ => false,
    }
}

/// The station carries the component update a weather trigger reports.
pub open spec fn station_shows_update(st: StationV4, t: OwnerTriggerV6) -> bool {
    match t {
        OwnerTriggerV6::Observation { station_id, observed_at_unix_ms, component_revision, .. } => {
            &&& st.identity.station_id@ == station_id@
            &&& st.observation_meta.revision == component_revision
            &&& st.observation.observed_at_unix_ms == observed_at_unix_ms
        },
        OwnerTriggerV6::ForecastUpdated {
            station_id,
            emitted_at_unix_ms,
            component_revision,
            ..
        } => {
            &&& st.identity.station_id@ == station_id@
            &&& st.forecast_meta.revision == component_revision
            &&& st.forecast_meta.updated_at_unix_ms == Some(emitted_at_unix_ms)
        },
        OwnerTriggerV6::OracleScoresUpdated {
            station_id,
            emitted_at_unix_ms,
            component_revision,
            ..
        } => {
            &&& st.identity.station_id@ == station_id@
            &&& st.oracle_meta.revision == component_revision
            &&& st.oracle_meta.updated_at_unix_ms == Some(emitted_at_unix_ms)
        },
        OwnerTriggerV6::NewHigh {
            station_id,
            event_date,
            temperature_milli_c,
            observed_at_unix_ms,
            component_revision,
            ..
        } => {
            &&& st.identity.station_id@ == station_id@
            &&& st.extrema_meta.revision == component_revision
            &&& (event_date is None || opt_view(event_date) == Some(st.climate_event_date@))
            &&& match st.extrema.high {
                Some(e) => temperature_milli_c == Some(e.value_milli_c) && e.observed_at_unix_ms
                    == Some(observed_at_unix_ms),
                None => false,
            }
        },
        OwnerTriggerV6::NewLow {
            station_id,
            event_date,
            temperature_milli_c,
            observed_at_unix_ms,
            component_revision,
            ..
        } => {
            &&& st.identity.station_id@ == station_id@
            &&& st.extrema_meta.revision == component_revision
            &&& (event_date is None || opt_view(event_date) == Some(st.climate_event_date@))
            &&& match st.extrema.low {
                Some(e) => temperature_milli_c == Some(e.value_milli_c) && e.observed_at_unix_ms
                    == Some(observed_at_unix_ms),
                None => false,
            }
        },
        OwnerTriggerV6::WeatherEvent { station_id, episode_id, state, component_revision, .. } => {
            &&& st.identity.station_id@ == station_id@
            &&& st.weather_events_meta.revision == component_revision
            &&& episode_id@.len() > 0
            &&& state@.len() > 0
        },
        OwnerTriggerV6::StationReport { station_id, report_id, report_revision, .. } => {
            &&& st.identity.station_id@ == station_id@
            &&& exists|k: int|
                0 <= k < st.reports@.len() && #[trigger] report_listed(
                    st.reports@[k],
                    report_id@,
                    report_revision,
                )
        },
        _ => false,
    }
}

/// The station lists the report at this revision.
pub open spec fn report_listed(r: ReportV4, report_id: Seq<char>, revision: u64) -> bool {
    r.report_id@ == report_id && r.revision == revision
}

/// The owner's report trigger is this one.
pub open spec fn owner_report_is(owner: TriggerV4, t: OwnerTriggerV6) -> bool {
    match (owner, t) {
        (
            TriggerV4::StationReport {
                station_id: os,
                report_id: oid,
                report_type: otype,
                report_revision: orev,
                provider: oprov,
                source_generation: ogen,
                source_sequence: oseq,
            },
            OwnerTriggerV6::StationReport {
                station_id,
                report_id,
                report_type,
                report_revision,
                provider,
                source_generation,
                source_sequence,
            },
        ) => {
            &&& os@ == station_id@
            &&& oid@ == report_id@
            &&& otype@ == report_type@
            &&& orev == report_revision
            &&& oprov@ == provider@
            &&& ogen == source_generation
            &&& oseq == source_sequence
        },
        _ => false,
    }
}

/// One of the Market's ticker, book or last trade updates happened at `at`.
pub open spec fn market_updated_at(m: MarketV4, at: i64) -> bool {
    ||| m.ticker_meta.updated_at_unix_ms == Some(at)
    ||| m.book_meta.updated_at_unix_ms == Some(at)
    ||| m.last_trade_meta.updated_at_unix_ms == Some(at)
}

pub open spec fn market_shows_price(m: MarketV4, t: OwnerTriggerV6) -> bool {
    match t {
        OwnerTriggerV6::MarketPrice { market_id, price_revision, emitted_at_unix_ms } => {
            &&& m.identity.market_id@ == market_id@
            &&& m.revision == price_revision
            &&& market_updated_at(m, emitted_at_unix_ms)
        },
        _ => false,
    }
}

pub open spec fn timer_recorded(r: TimerRecoveryV4, t: OwnerTriggerV6) -> bool {
    match t {
        OwnerTriggerV6::Timer { key, scheduled_at_epoch_ns, generation } => {
            &&& r.key@ == key@
            &&& r.scheduled_at == scheduled_at_epoch_ns
            &&& r.generation@ == generation@
        },
        _ => false,
    }
}

/// Whether an owner trigger is bound to the owner projection of the context. A captured
/// weather trigger needs the originating weather packet, which these contexts do not carry.
pub open spec fn owner_trigger_bound(c: DecisionContextV6, t: OwnerTriggerV6) -> bool {
    owner_projection_binds(c.owner_state, t)
}

/// Whether an owner trigger is bound to an owner projection: it names the owner's trigger and
/// a station, Market or timer record that shows the update. A captured weather trigger is
/// never bound here: binding it needs the originating weather packet.
pub open spec fn owner_projection_binds(o: DecisionContextV4, t: OwnerTriggerV6) -> bool {
    let owner = o.trigger;
    let stations = o.stations@;
    let some_station = exists|i: int|
        0 <= i < stations.len() && #[trigger] station_shows_update(stations[i], t);
    match t {
        OwnerTriggerV6::Observation { station_id, source_generation, source_sequence, .. }
        | OwnerTriggerV6::ForecastUpdated { station_id, source_generation, source_sequence, .. }
        | OwnerTriggerV6::OracleScoresUpdated {
            station_id,
            source_generation,
            source_sequence,
            ..
        }
        | OwnerTriggerV6::NewHigh { station_id, source_generation, source_sequence, .. }
        | OwnerTriggerV6::NewLow { station_id, source_generation, source_sequence, .. }
        | OwnerTriggerV6::WeatherEvent { station_id, source_generation, source_sequence, .. } =>
            owner_weather_is(owner, station_id@, source_generation, source_sequence)
            && some_station,
        OwnerTriggerV6::StationReport { .. } => owner_report_is(owner, t) && some_station,
        OwnerTriggerV6::MarketPrice { market_id, price_revision, .. } => {
            &&& match owner {
                TriggerV4::MarketPrice { market_id: om, price_revision: orev } => om@
                    == market_id@ && orev == price_revision,
                _ => false,
            }
            &&& exists|i: int|
                0 <= i < o.markets@.len() && #[trigger] market_shows_price(
                    o.markets@[i],
                    t,
                )
        },
        OwnerTriggerV6::Timer { key, .. } => {
            &&& match owner {
                TriggerV4::Timer { key: ok } => ok@ == key@,
                _ => false,
            }
            &&& match o.timer_recovery {
                Some(timers) => exists|i: int|
                    0 <= i < timers@.len() && #[trigger] timer_recorded(timers@[i], t),
                None => false,
            }
        },
        OwnerTriggerV6::Bootstrap => owner is Bootstrap,
        OwnerTriggerV6::Recovery => owner is Recovery,
        OwnerTriggerV6::CapturedWeather { .. } => false,
    }
}

pub open spec fn trigger_verdict(c: DecisionContextV6) -> Result<(), DecisionV6Error> {
    let valid = match c.trigger {
        TriggerV6::Owner(t) => owner_trigger_bound(c, t),
        TriggerV6::BrokerState { broker_revision } => broker_revision == c.broker.revision,
    };
    if valid {
        Ok(())
    } else {
        Err(DecisionV6Error::InvalidContract)
    }
}

#[verifier::loop_isolation(false)]
fn station_shows(st: &StationV4, t: &OwnerTriggerV6) -> (r: bool)
    ensures
        r == station_shows_update(*st, *t),
{
    match t {
        OwnerTriggerV6::Observation { station_id, observed_at_unix_ms, component_revision, .. } => {
            string_eq(&st.identity.station_id, station_id) && st.observation_meta.revision
                == *component_revision && st.observation.observed_at_unix_ms
                == *observed_at_unix_ms
        },
        OwnerTriggerV6::ForecastUpdated {
            station_id,
            emitted_at_unix_ms,
            component_revision,
            ..
        } => {
            string_eq(&st.identity.station_id, station_id) && st.forecast_meta.revision
                == *component_revision && st.forecast_meta.updated_at_unix_ms == Some(
                *emitted_at_unix_ms,
            )
        },
        OwnerTriggerV6::OracleScoresUpdated {
            station_id,
            emitted_at_unix_ms,
            component_revision,
            ..
        } => {
            string_eq(&st.identity.station_id, station_id) && st.oracle_meta.revision
                == *component_revision && st.oracle_meta.updated_at_unix_ms == Some(
                *emitted_at_unix_ms,
            )
        },
        OwnerTriggerV6::NewHigh {
            station_id,
            event_date,
            temperature_milli_c,
            observed_at_unix_ms,
            component_revision,
            ..
        } => {
            let date_ok = match event_date {
                Some(d) => string_eq(d, &st.climate_event_date),
                None => true,
            };
            let extreme_ok = match &st.extrema.high {
                Some(e) => *temperature_milli_c == Some(e.value_milli_c) && e.observed_at_unix_ms
                    == Some(*observed_at_unix_ms),
                None => false,
            };
            string_eq(&st.identity.station_id, station_id) && st.extrema_meta.revision
                == *component_revision && date_ok && extreme_ok
        },
        OwnerTriggerV6::NewLow {
            station_id,
            event_date,
            temperature_milli_c,
            observed_at_unix_ms,
            component_revision,
            ..
        } => {
            let date_ok = match event_date {
                Some(d) => string_eq(d, &st.climate_event_date),
                None => true,
            };
            let extreme_ok = match &st.extrema.low {
                Some(e) => *temperature_milli_c == Some(e.value_milli_c) && e.observed_at_unix_ms
                    == Some(*observed_at_unix_ms),
                None => false,
            };
            string_eq(&st.identity.station_id, station_id) && st.extrema_meta.revision
                == *component_revision && date_ok && extreme_ok
        },
        OwnerTriggerV6::WeatherEvent { station_id, episode_id, state, component_revision, .. } => {
            string_eq(&st.identity.station_id, station_id) && st.weather_events_meta.revision
                == *component_revision && !episode_id.as_str().is_empty()
                && !state.as_str().is_empty()
        },
        OwnerTriggerV6::StationReport { station_id, report_id, report_revision, .. } => {
            if !string_eq(&st.identity.station_id, station_id) {
                return false;
            }
            let mut k: usize = 0;
            while k < st.reports.len()
                invariant
                    0 <= k <= st.reports@.len(),
                    forall|q: int|
                        0 <= q < k ==> !#[trigger] report_listed(
                            st.reports@[q],
                            report_id@,
                            *report_revision,
                        ),
                decreases st.reports@.len() - k,
            {
                if string_eq(&st.reports[k].report_id, report_id) && st.reports[k].revision
                    == *report_revision {
                    assert(report_listed(st.reports@[k as int], report_id@, *report_revision));
                    return true;
                }
                k += 1;
            }
            false
        },
        _ => false,
    }
}

fn some_station_shows(stations: &Vec<StationV4>, t: &OwnerTriggerV6) -> (r: bool)
    ensures
        r == exists|i: int| 0 <= i < stations@.len() && #[trigger] station_shows_update(stations@[i], *t),
{
    let mut i: usize = 0;
    while i < stations.len()
        invariant
            0 <= i <= stations@.len(),
            forall|k: int| 0 <= k < i ==> !#[trigger] station_shows_update(stations@[k], *t),
        decreases stations@.len() - i,
    {
        if station_shows(&stations[i], t) {
            return true;
        }
        i += 1;
    }
    false
}

fn updated_at(meta: &MarketMetaV4, at: i64) -> (r: bool)
    ensures
        r == (meta.updated_at_unix_ms == Some(at)),
{
    match meta.updated_at_unix_ms {
        Some(x) => x == at,
        None => false,
    }
}

fn some_market_shows(markets: &Vec<MarketV4>, t: &OwnerTriggerV6) -> (r: bool)
    ensures
        r == exists|i: int| 0 <= i < markets@.len() && #[trigger] market_shows_price(markets@[i], *t),
{
    let (market_id, price_revision, emitted) = match t {
        OwnerTriggerV6::MarketPrice { market_id, price_revision, emitted_at_unix_ms } => (
            market_id,
            *price_revision,
            *emitted_at_unix_ms,
        ),
        _ => {
            return false;
        },
    };
    let mut i: usize = 0;
    while i < markets.len()
        invariant
            0 <= i <= markets@.len(),
            t matches OwnerTriggerV6::MarketPrice { market_id: m, price_revision: p, emitted_at_unix_ms: e }
                && m == *market_id && p == price_revision && e == emitted,
            forall|k: int| 0 <= k < i ==> !#[trigger] market_shows_price(markets@[k], *t),
        decreases markets@.len() - i,
    {
        let m = &markets[i];
        if string_eq(&m.identity.market_id, market_id) && m.revision == price_revision && (
        updated_at(&m.ticker_meta, emitted) || updated_at(&m.book_meta, emitted) || updated_at(
            &m.last_trade_meta,
            emitted,
        )) {
            assert(market_shows_price(markets@[i as int], *t));
            return true;
        }
        i += 1;
    }
    false
}

fn some_timer_recorded(timers: &Vec<TimerRecoveryV4>, t: &OwnerTriggerV6) -> (r: bool)
    ensures
        r == exists|i: int| 0 <= i < timers@.len() && #[trigger] timer_recorded(timers@[i], *t),
{
    let (key, scheduled, generation) = match t {
        OwnerTriggerV6::Timer { key, scheduled_at_epoch_ns, generation } => (
            key,
            *scheduled_at_epoch_ns,
            generation,
        ),
        _ => {
            return false;
        },
    };
    let mut i: usize = 0;
    while i < timers.len()
        invariant
            0 <= i <= timers@.len(),
            t matches OwnerTriggerV6::Timer { key: k, scheduled_at_epoch_ns: s, generation: g }
                && k == *key && s == scheduled && g == *generation,
            forall|k: int| 0 <= k < i ==> !#[trigger] timer_recorded(timers@[k], *t),
        decreases timers@.len() - i,
    {
        let timer = &timers[i];
        if string_eq(&timer.key, key) && timer.scheduled_at == scheduled && string_eq(
            &timer.generation,
            generation,
        ) {
            assert(timer_recorded(timers@[i as int], *t));
            return true;
        }
        i += 1;
    }
    false
}

fn owner_weather_matches(
    owner: &TriggerV4,
    station_id: &String,
    source_generation: u64,
    source_sequence: u64,
) -> (r: bool)
    ensures
        r == owner_weather_is(*owner, station_id@, source_generation, source_sequence),
{
    match owner {
        TriggerV4::Weather {
            station_id: owner_station,
            source_generation: owner_generation,
            source_sequence: owner_sequence,
        } => string_eq(owner_station, station_id) && *owner_generation == source_generation
            && *owner_sequence == source_sequence,
        _ => false,
    }
}

fn owner_report_matches(owner: &TriggerV4, t: &OwnerTriggerV6) -> (r: bool)
    ensures
        r == owner_report_is(*owner, *t),
{
    match (owner, t) {
        (
            TriggerV4::StationReport {
                station_id: os,
                report_id: oid,
                report_type: otype,
                report_revision: orev,
                provider: oprov,
                source_generation: ogen,
                source_sequence: oseq,
            },
            OwnerTriggerV6::StationReport {
                station_id,
                report_id,
                report_type,
                report_revision,
                provider,
                source_generation,
                source_sequence,
            },
        ) => string_eq(os, station_id) && string_eq(oid, report_id) && string_eq(
            otype,
            report_type,
        ) && *orev == *report_revision && string_eq(oprov, provider) && *ogen
            == *source_generation && *oseq == *source_sequence,
        _ => false,
    }
}

/// Binds an owner trigger to the owner projection.
pub fn validate_owner_trigger(context: &DecisionContextV6, trigger: &OwnerTriggerV6) -> (r: Result<
    (),
    DecisionV6Error,
>)
    ensures
        r == (if owner_trigger_bound(*context, *trigger) {
            Ok(())
        } else {
            Err(DecisionV6Error::InvalidContract)
        }),
{
    if owner_state_binds(&context.owner_state, trigger) {
        Ok(())
    } else {
        Err(DecisionV6Error::InvalidContract)
    }
}

/// Whether an owner trigger is bound to an owner projection.
pub fn owner_state_binds(owner_state: &DecisionContextV4, trigger: &OwnerTriggerV6) -> (r: bool)
    ensures
        r == owner_projection_binds(*owner_state, *trigger),
{
    let owner = &owner_state.trigger;
    let stations = &owner_state.stations;
    let valid = match trigger {
        OwnerTriggerV6::Observation { station_id, source_generation, source_sequence, .. }
        | OwnerTriggerV6::ForecastUpdated { station_id, source_generation, source_sequence, .. }
        | OwnerTriggerV6::OracleScoresUpdated {
            station_id,
            source_generation,
            source_sequence,
            ..
        }
        | OwnerTriggerV6::NewHigh { station_id, source_generation, source_sequence, .. }
        | OwnerTriggerV6::NewLow { station_id, source_generation, source_sequence, .. }
        | OwnerTriggerV6::WeatherEvent { station_id, source_generation, source_sequence, .. } => {
            owner_weather_matches(owner, station_id, *source_generation, *source_sequence)
                && some_station_shows(stations, trigger)
        },
        OwnerTriggerV6::StationReport { .. } => {
            owner_report_matches(owner, trigger) && some_station_shows(stations, trigger)
        },
        OwnerTriggerV6::MarketPrice { market_id, price_revision, .. } => {
            let owner_matches = match owner {
                TriggerV4::MarketPrice { market_id: om, price_revision: orev } => string_eq(
                    om,
                    market_id,
                ) && *orev == *price_revision,
                _ => false,
            };
            owner_matches && some_market_shows(&owner_state.markets, trigger)
        },
        OwnerTriggerV6::Timer { key, .. } => {
            let owner_matches = match owner {
                TriggerV4::Timer { key: ok } => string_eq(ok, key),
                _ => false,
            };
            owner_matches && match &owner_state.timer_recovery {
                Some(timers) => some_timer_recorded(timers, trigger),
                None => false,
            }
        },
        OwnerTriggerV6::Bootstrap => matches!(owner, TriggerV4::Bootstrap),
        OwnerTriggerV6::Recovery => matches!(owner, TriggerV4::Recovery),
        OwnerTriggerV6::CapturedWeather { .. } => false,
    };
    valid
}

/// An owner trigger bound to the owner projection, or a Broker-state trigger at the context's
/// Broker revision.
pub fn validate_trigger(context: &DecisionContextV6) -> (r: Result<(), DecisionV6Error>)
    ensures
        r == trigger_verdict(*context),
{
    match &context.trigger {
        TriggerV6::Owner(trigger) => validate_owner_trigger(context, trigger),
        TriggerV6::BrokerState { broker_revision } => {
            if *broker_revision == context.broker.revision {
                Ok(())
            } else {
                Err(DecisionV6Error::InvalidContract)
            }
        },
    }
}

} // verus!
