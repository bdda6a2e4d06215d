//! The Decision V4 context on the wire: bincode's fixed configuration (big-endian, fixed-width
//! integers), each field in declaration order, a list as its length in 8 bytes followed by its
//! items, an option as a tag byte and its value, an enum as its variant index in 4 bytes and
//! its fields.
use crate::codec_v5::wire_items;
use crate::decision_v4::{
    AuthorityV4, BookLevelV4, BookV4, BrokerV4, ComponentMetaV4, ConfigV4, CursorV4, DECISION_CONTEXT_V4_MAGIC, DecisionContextV4, DecisionV4Error, EvidenceV4, ExtremaV4, ExtremeV4, FenceV4, FinalFactV4, ForecastModelV4, ForecastPointV4, ForecastV4, GateStatusV4, LastTradeV4, LifecycleV4, MAX_DECISION_CONTEXT_V4_BYTES, MAX_POINTS_PER_MODEL, MarketAuthorityV4, MarketComparisonV4, MarketIdentityV4, MarketLifecycleV4, MarketMetaV4, MarketV4, ObservationV4, OpportunityV4, OracleQueryV4, OracleRowV4, OracleTableV4, ProvenanceV4, RankByV4, ReportV4, ResourceRevisionV4, StationIdentityV4, StationV4, SupervisorV4, TickerV4, TimerRecoveryV4, TriggerV4, WeatherEventSourceV4, WeatherEventV4, WeatherV4, context_v4_verdict,
};
use crate::digest::{be_u16, be_u32, be_u64, extend};
use crate::wire::{
    fixed_i32, fixed_i64, fixed_str, fixed_str_spec, fixed_u16, fixed_u32, fixed_u64, put,
    wire_array32, wire_bool, wire_bool_spec, wire_u8,
};
use vstd::prelude::*;

verus! {

/// A list in the fixed configuration: its length in 8 bytes, then its items.
pub open spec fn fx_list<T>(s: Seq<T>, enc: spec_fn(T) -> Seq<u8>) -> Seq<u8> {
    be_u64(s.len() as u64) + wire_items(s, enc)
}

#[verifier::opaque]
pub open spec fn fx_trigger(v: TriggerV4) -> Seq<u8> {
    match v {
        TriggerV4::Weather { station_id, source_generation, source_sequence } => be_u32(0) + fixed_str_spec(station_id@) + be_u64(source_generation) + be_u64(source_sequence),
        TriggerV4::StationReport { station_id, report_id, report_type, report_revision, provider, source_generation, source_sequence } => be_u32(1) + fixed_str_spec(station_id@) + fixed_str_spec(report_id@) + fixed_str_spec(report_type@) + be_u64(report_revision) + fixed_str_spec(provider@) + be_u64(source_generation) + be_u64(source_sequence),
        TriggerV4::MarketPrice { market_id, price_revision } => be_u32(2) + fixed_str_spec(market_id@) + be_u64(price_revision),
        TriggerV4::Timer { key } => be_u32(3) + fixed_str_spec(key@),
        TriggerV4::Bootstrap => be_u32(4),
        TriggerV4::Recovery => be_u32(5),
    }
}

#[verifier::opaque]
pub open spec fn fx_authority(v: AuthorityV4) -> Seq<u8> {
    match v {
        AuthorityV4::Warming => be_u32(0),
        AuthorityV4::Current => be_u32(1),
        AuthorityV4::RefreshPending => be_u32(2),
        AuthorityV4::Uncertain => be_u32(3),
        AuthorityV4::Unavailable => be_u32(4),
    }
}

#[verifier::opaque]
pub open spec fn fx_rank_by(v: RankByV4) -> Seq<u8> {
    match v {
        RankByV4::High => be_u32(0),
        RankByV4::Low => be_u32(1),
    }
}

#[verifier::opaque]
pub open spec fn fx_lifecycle(v: LifecycleV4) -> Seq<u8> {
    match v {
        LifecycleV4::Discovered => be_u32(0),
        LifecycleV4::Hydrating => be_u32(1),
        LifecycleV4::Eligible => be_u32(2),
        LifecycleV4::Uncertain => be_u32(3),
        LifecycleV4::Ineligible => be_u32(4),
        LifecycleV4::Terminal => be_u32(5),
    }
}

#[verifier::opaque]
pub open spec fn fx_market_authority(v: MarketAuthorityV4) -> Seq<u8> {
    match v {
        MarketAuthorityV4::Current => be_u32(0),
        MarketAuthorityV4::Uncertain => be_u32(1),
    }
}

#[verifier::opaque]
pub open spec fn fx_gate_status(v: GateStatusV4) -> Seq<u8> {
    match v {
        GateStatusV4::Open => be_u32(0),
        GateStatusV4::ClosedFinanceUnavailable => be_u32(1),
        GateStatusV4::ClosedAdmissionDenied => be_u32(2),
        GateStatusV4::ClosedRecoveryRequired => be_u32(3),
    }
}

#[verifier::opaque]
pub open spec fn fx_provenance_part0(v: ProvenanceV4) -> Seq<u8> {
    fixed_str_spec(v.provider@) + fixed_str_spec(v.source@) + fx_opt_string(v.event_id) + fx_opt_u64(v.connection_epoch) + fx_opt_u64(v.sid) + fx_opt_u64(v.sequence) + fx_opt_u64(v.city_sequence) + fx_opt_u64(v.producer_sequence)
}

#[verifier::opaque]
pub open spec fn fx_provenance_part1(v: ProvenanceV4) -> Seq<u8> {
    fx_opt_u64(v.received_frame_ordinal) + fx_opt_i64(v.provider_at_unix_ms) + be_u64(v.received_at_unix_ms as u64)
}

#[verifier::opaque]
pub open spec fn fx_provenance(v: ProvenanceV4) -> Seq<u8> {
    fx_provenance_part0(v) + fx_provenance_part1(v)
}

#[verifier::opaque]
pub open spec fn fx_evidence(v: EvidenceV4) -> Seq<u8> {
    fixed_str_spec(v.kind@) + v.sha256@ + fixed_str_spec(v.reference@) + be_u64(v.byte_count)
}

#[verifier::opaque]
pub open spec fn fx_component_meta(v: ComponentMetaV4) -> Seq<u8> {
    fx_authority(v.authority) + be_u64(v.revision) + be_u64(v.generation) + fx_opt_i64(v.updated_at_unix_ms) + fx_opt_string(v.expected_version) + fx_list(v.provenance@, fx_provenance_encoder()) + fx_opt_string(v.refresh_error)
}

#[verifier::opaque]
pub open spec fn fx_station_identity(v: StationIdentityV4) -> Seq<u8> {
    fixed_str_spec(v.station_id@) + fx_opt_string(v.city_id) + fx_opt_string(v.city_slug) + fixed_str_spec(v.logical_location@) + fx_opt_string(v.name) + fx_opt_i64(v.latitude_micros) + fx_opt_i64(v.longitude_micros) + fixed_str_spec(v.timezone@)
}

#[verifier::opaque]
pub open spec fn fx_observation_part0(v: ObservationV4) -> Seq<u8> {
    fixed_str_spec(v.station_id@) + be_u64(v.observed_at_unix_ms as u64) + fx_opt_i64(v.source_timestamp_unix_ms) + fx_opt_i64(v.producer_received_at_unix_ms) + fx_opt_i64(v.live_published_at_unix_ms) + fx_opt_i64(v.lag_ms) + wire_bool_spec(v.preliminary) + fx_opt_string(v.persistence_status)
}

#[verifier::opaque]
pub open spec fn fx_observation_part1(v: ObservationV4) -> Seq<u8> {
    fx_opt_i32(v.temperature_milli_c) + fx_opt_i32(v.temperature_min_milli_c) + fx_opt_i32(v.temperature_max_milli_c) + fx_opt_i32(v.wu_current_temperature_milli_c) + fx_opt_i32(v.wu_daily_high_milli_c) + fx_opt_i32(v.wu_daily_low_milli_c) + fx_opt_i64(v.wu_observation_at_unix_ms) + fx_opt_i64(v.wu_fetched_at_unix_ms)
}

#[verifier::opaque]
pub open spec fn fx_observation_part2(v: ObservationV4) -> Seq<u8> {
    fx_opt_string(v.temperature_day_mode) + fx_opt_string(v.temperature_day_date) + fx_opt_string(v.wu_day_mode) + fx_opt_string(v.wu_day_date) + wire_bool_spec(v.is_from_report) + fx_opt_string(v.report_type) + fx_opt_string(v.source_report_id) + fx_opt_i64(v.dewpoint_micros)
}

#[verifier::opaque]
pub open spec fn fx_observation_part3(v: ObservationV4) -> Seq<u8> {
    fx_opt_i64(v.heat_index_micros) + fx_opt_i64(v.wind_chill_micros) + fx_opt_i64(v.relative_humidity_micros) + fx_opt_i64(v.wind_speed_micros) + fx_opt_i64(v.wind_direction_micros) + fx_opt_i64(v.wind_gust_micros) + fx_opt_string(v.text_description) + fx_provenance(v.provenance)
}

#[verifier::opaque]
pub open spec fn fx_observation(v: ObservationV4) -> Seq<u8> {
    fx_observation_part0(v) + fx_observation_part1(v) + fx_observation_part2(v) + fx_observation_part3(v)
}

#[verifier::opaque]
pub open spec fn fx_weather_part0(v: WeatherV4) -> Seq<u8> {
    fixed_str_spec(v.station_id@) + fx_opt_i32(v.current_temperature_milli_c) + fx_opt_i32(v.running_high_milli_c) + fx_opt_i32(v.running_low_milli_c) + fx_opt_i64(v.last_metar_at_unix_ms) + fx_opt_i32(v.dsm_high_milli_c) + fx_opt_i32(v.dsm_low_milli_c) + fx_opt_i64(v.dsm_high_at_unix_ms)
}

#[verifier::opaque]
pub open spec fn fx_weather_part1(v: WeatherV4) -> Seq<u8> {
    fx_opt_i64(v.dsm_low_at_unix_ms) + fx_opt_i32(v.six_hour_high_milli_c) + fx_opt_i32(v.six_hour_low_milli_c) + fx_opt_i32(v.asos_daily_high_milli_c) + fx_opt_i32(v.asos_daily_low_milli_c) + fx_opt_i32(v.wu_current_temperature_milli_c) + fx_opt_i32(v.wu_daily_high_milli_c) + fx_opt_i32(v.wu_daily_low_milli_c)
}

#[verifier::opaque]
pub open spec fn fx_weather_part2(v: WeatherV4) -> Seq<u8> {
    fx_opt_i64(v.dewpoint_micros) + fx_opt_i64(v.heat_index_micros) + fx_opt_i64(v.wind_chill_micros) + fx_opt_i64(v.relative_humidity_micros) + fx_opt_i64(v.wind_speed_micros) + fx_opt_i64(v.wind_direction_micros) + fx_opt_i64(v.wind_gust_micros) + fx_opt_string(v.text_description)
}

#[verifier::opaque]
pub open spec fn fx_weather_part3(v: WeatherV4) -> Seq<u8> {
    wire_bool_spec(v.preliminary)
}

#[verifier::opaque]
pub open spec fn fx_weather(v: WeatherV4) -> Seq<u8> {
    fx_weather_part0(v) + fx_weather_part1(v) + fx_weather_part2(v) + fx_weather_part3(v)
}

#[verifier::opaque]
pub open spec fn fx_extreme_part0(v: ExtremeV4) -> Seq<u8> {
    be_u32(v.value_milli_c as u32) + fx_opt_i32(v.previous_value_milli_c) + fx_opt_i64(v.observed_at_unix_ms) + fx_opt_string(v.temperature_day_mode) + fx_opt_string(v.temperature_day_date) + wire_bool_spec(v.is_from_report) + fx_opt_string(v.report_type) + fx_opt_string(v.source_report_id)
}

#[verifier::opaque]
pub open spec fn fx_extreme_part1(v: ExtremeV4) -> Seq<u8> {
    fx_provenance(v.provenance)
}

#[verifier::opaque]
pub open spec fn fx_extreme(v: ExtremeV4) -> Seq<u8> {
    fx_extreme_part0(v) + fx_extreme_part1(v)
}

#[verifier::opaque]
pub open spec fn fx_extrema(v: ExtremaV4) -> Seq<u8> {
    fx_opt_extreme(v.high) + fx_opt_extreme(v.low)
}

#[verifier::opaque]
pub open spec fn fx_report_part0(v: ReportV4) -> Seq<u8> {
    fixed_str_spec(v.report_id@) + fixed_str_spec(v.report_type@) + fixed_str_spec(v.report_date@) + fx_authority(v.authority) + be_u64(v.revision) + be_u64(v.generation) + fx_opt_i64(v.issued_at_unix_ms) + fx_opt_i64(v.updated_at_unix_ms)
}

#[verifier::opaque]
pub open spec fn fx_report_part1(v: ReportV4) -> Seq<u8> {
    fx_opt_i64(v.fetched_at_unix_ms) + fixed_str_spec(v.provider@) + fixed_str_spec(v.source_url@) + fx_opt_i32(v.max_temperature_milli_c) + fx_opt_i32(v.min_temperature_milli_c) + fx_opt_i32(v.temperature_milli_c) + fx_opt_i32(v.temperature_milli_f) + fx_opt_i64(v.max_temperature_at_unix_ms)
}

#[verifier::opaque]
pub open spec fn fx_report_part2(v: ReportV4) -> Seq<u8> {
    fx_opt_i64(v.min_temperature_at_unix_ms) + fx_provenance(v.provenance)
}

#[verifier::opaque]
pub open spec fn fx_report(v: ReportV4) -> Seq<u8> {
    fx_report_part0(v) + fx_report_part1(v) + fx_report_part2(v)
}

#[verifier::opaque]
pub open spec fn fx_weather_event_source_part0(v: WeatherEventSourceV4) -> Seq<u8> {
    fx_opt_string(v.metar_type) + fx_opt_string(v.flight_category) + fx_opt_string(v.wx_string) + fx_opt_string(v.wx_token) + fx_opt_i64(v.wind_speed_knots_micros) + fx_opt_i64(v.wind_gust_knots_micros) + fx_opt_i64(v.peak_wind_knots_micros) + fx_opt_i64(v.peak_wind_direction)
}

#[verifier::opaque]
pub open spec fn fx_weather_event_source_part1(v: WeatherEventSourceV4) -> Seq<u8> {
    fx_opt_i64(v.visibility_miles_micros) + fx_opt_string(v.cb_location)
}

#[verifier::opaque]
pub open spec fn fx_weather_event_source(v: WeatherEventSourceV4) -> Seq<u8> {
    fx_weather_event_source_part0(v) + fx_weather_event_source_part1(v)
}

#[verifier::opaque]
pub open spec fn fx_weather_event_part0(v: WeatherEventV4) -> Seq<u8> {
    fixed_str_spec(v.event_id@) + fixed_str_spec(v.event_type@) + fixed_str_spec(v.tier@) + fixed_str_spec(v.state@) + fx_authority(v.authority) + be_u64(v.revision) + be_u64(v.generation) + fixed_str_spec(v.name@)
}

#[verifier::opaque]
pub open spec fn fx_weather_event_part1(v: WeatherEventV4) -> Seq<u8> {
    fixed_str_spec(v.badge@) + fixed_str_spec(v.detail@) + fixed_str_spec(v.summary@) + fx_opt_i64(v.started_at_unix_ms) + fx_opt_i64(v.last_confirmed_at_unix_ms) + fx_opt_i64(v.ended_at_unix_ms) + fx_opt_weather_event_source(v.source) + fx_provenance(v.provenance)
}

#[verifier::opaque]
pub open spec fn fx_weather_event(v: WeatherEventV4) -> Seq<u8> {
    fx_weather_event_part0(v) + fx_weather_event_part1(v)
}

#[verifier::opaque]
pub open spec fn fx_forecast_point_part0(v: ForecastPointV4) -> Seq<u8> {
    be_u64(v.at_unix_ms as u64) + fx_opt_i32(v.temperature_milli_c) + fx_opt_i32(v.apparent_temperature_milli_c) + fx_opt_i64(v.humidity_millionths) + fx_opt_i32(v.dew_point_milli_c) + fx_opt_i64(v.pressure_msl_micros) + fx_opt_i64(v.wind_speed_micros) + fx_opt_i32(v.wind_direction_degrees)
}

#[verifier::opaque]
pub open spec fn fx_forecast_point_part1(v: ForecastPointV4) -> Seq<u8> {
    fx_opt_i64(v.wind_gust_micros) + fx_opt_i64(v.cloud_cover_millionths) + fx_opt_i64(v.precipitation_probability_millionths) + fx_opt_i32(v.weather_code)
}

#[verifier::opaque]
pub open spec fn fx_forecast_point(v: ForecastPointV4) -> Seq<u8> {
    fx_forecast_point_part0(v) + fx_forecast_point_part1(v)
}

#[verifier::opaque]
pub open spec fn fx_forecast_model(v: ForecastModelV4) -> Seq<u8> {
    fixed_str_spec(v.model_id@) + fixed_str_spec(v.version@) + fx_opt_string(v.run_id) + fx_opt_i64(v.fetched_at_unix_ms) + fx_opt_i64(v.issued_at_unix_ms) + fx_opt_string(v.timezone) + fx_opt_i32(v.utc_offset_seconds) + fx_list(v.hourly@, fx_forecast_point_encoder())
}

#[verifier::opaque]
pub open spec fn fx_forecast(v: ForecastV4) -> Seq<u8> {
    fx_list(v.advertised_versions@, fx_string_string_pair_encoder()) + fx_list(v.models@, fx_forecast_model_encoder())
}

#[verifier::opaque]
pub open spec fn fx_oracle_query(v: OracleQueryV4) -> Seq<u8> {
    fixed_str_spec(v.station_id@) + fixed_str_spec(v.mode@) + fx_rank_by(v.rank_by) + seq![v.days]
}

#[verifier::opaque]
pub open spec fn fx_oracle_row_part0(v: OracleRowV4) -> Seq<u8> {
    seq![v.rank] + fixed_str_spec(v.model_id@) + fixed_str_spec(v.model_name@) + fx_opt_bool(v.is_public) + fx_opt_i64(v.high_mae_millionths) + fx_opt_i64(v.low_mae_millionths) + fx_opt_i64(v.combined_mae_millionths) + fx_opt_i64(v.high_bias_millionths)
}

#[verifier::opaque]
pub open spec fn fx_oracle_row_part1(v: OracleRowV4) -> Seq<u8> {
    fx_opt_i64(v.low_bias_millionths) + fx_opt_u16(v.day_count)
}

#[verifier::opaque]
pub open spec fn fx_oracle_row(v: OracleRowV4) -> Seq<u8> {
    fx_oracle_row_part0(v) + fx_oracle_row_part1(v)
}

#[verifier::opaque]
pub open spec fn fx_oracle_table(v: OracleTableV4) -> Seq<u8> {
    fx_oracle_query(v.query) + fixed_str_spec(v.range_start@) + fixed_str_spec(v.range_end@) + fx_opt_i64(v.updated_at_unix_ms) + fx_list(v.rows@, fx_oracle_row_encoder()) + fx_provenance(v.provenance)
}

#[verifier::opaque]
pub open spec fn fx_cursor(v: CursorV4) -> Seq<u8> {
    be_u64(v.connection_generation) + fixed_str_spec(v.event_id@) + be_u64(v.sequence) + fx_opt_u64(v.city_sequence) + be_u64(v.emitted_at_unix_ms as u64) + be_u64(v.received_at_unix_ms as u64) + wire_bool_spec(v.snapshot_complete)
}

#[verifier::opaque]
pub open spec fn fx_station_part0(v: StationV4) -> Seq<u8> {
    fixed_str_spec(v.contract_version@) + be_u64(v.revision) + fixed_str_spec(v.climate_event_date@) + be_u64(v.climate_day_start_utc_unix_ms as u64) + be_u64(v.climate_day_end_utc_unix_ms as u64) + fx_station_identity(v.identity) + fx_component_meta(v.observation_meta) + fx_observation(v.observation)
}

#[verifier::opaque]
pub open spec fn fx_station_part1(v: StationV4) -> Seq<u8> {
    fx_component_meta(v.weather_meta) + fx_weather(v.weather) + fx_component_meta(v.extrema_meta) + fx_extrema(v.extrema) + fx_component_meta(v.reports_meta) + fx_list(v.reports@, fx_report_encoder()) + fx_component_meta(v.weather_events_meta) + fx_list(v.weather_events@, fx_weather_event_encoder())
}

#[verifier::opaque]
pub open spec fn fx_station_part2(v: StationV4) -> Seq<u8> {
    fx_component_meta(v.forecast_meta) + fx_forecast(v.forecast) + fx_component_meta(v.oracle_meta) + fx_oracle_table(v.oracle) + fx_cursor(v.provider_cursor) + fx_list(v.evidence@, fx_evidence_encoder())
}

#[verifier::opaque]
pub open spec fn fx_station(v: StationV4) -> Seq<u8> {
    fx_station_part0(v) + fx_station_part1(v) + fx_station_part2(v)
}

#[verifier::opaque]
pub open spec fn fx_market_meta(v: MarketMetaV4) -> Seq<u8> {
    fx_authority(v.authority) + be_u64(v.revision) + be_u64(v.generation) + fx_opt_i64(v.updated_at_unix_ms) + fx_opt_string(v.expected_version) + fx_opt_string(v.refresh_error) + fx_list(v.provenance@, fx_provenance_encoder())
}

#[verifier::opaque]
pub open spec fn fx_market_identity_part0(v: MarketIdentityV4) -> Seq<u8> {
    fixed_str_spec(v.market_id@) + fixed_str_spec(v.opportunity_id@) + fixed_str_spec(v.venue@) + fixed_str_spec(v.event_ticker@) + fixed_str_spec(v.series_ticker@) + fixed_str_spec(v.strike_type@) + fixed_str_spec(v.fee_type@) + fx_opt_i64(v.fee_multiplier_millionths)
}

#[verifier::opaque]
pub open spec fn fx_market_identity_part1(v: MarketIdentityV4) -> Seq<u8> {
    fx_opt_i64(v.floor_strike_milli_c) + fx_opt_i64(v.floor_strike_milli_f) + fx_opt_i64(v.cap_strike_milli_c) + fx_opt_i64(v.close_at_unix_ms) + fx_opt_i64(v.expiration_at_unix_ms)
}

#[verifier::opaque]
pub open spec fn fx_market_identity(v: MarketIdentityV4) -> Seq<u8> {
    fx_market_identity_part0(v) + fx_market_identity_part1(v)
}

#[verifier::opaque]
pub open spec fn fx_market_lifecycle(v: MarketLifecycleV4) -> Seq<u8> {
    fixed_str_spec(v.status@) + fx_opt_string(v.result) + fx_opt_u64(v.connection_epoch) + fx_opt_u64(v.received_frame_ordinal) + fx_opt_i64(v.open_at_unix_ms) + fx_opt_i64(v.close_at_unix_ms) + fx_opt_i64(v.settled_at_unix_ms) + fx_opt_i64(v.updated_at_unix_ms)
}

#[verifier::opaque]
pub open spec fn fx_ticker_part0(v: TickerV4) -> Seq<u8> {
    fx_opt_u64(v.yes_bid_micros) + fx_opt_u64(v.yes_ask_micros) + fx_opt_u64(v.no_bid_micros) + fx_opt_u64(v.no_ask_micros) + fx_opt_u64(v.yes_bid_quantity_hundredths) + fx_opt_u64(v.yes_ask_quantity_hundredths) + fx_opt_u64(v.no_bid_quantity_hundredths) + fx_opt_u64(v.no_ask_quantity_hundredths)
}

#[verifier::opaque]
pub open spec fn fx_ticker_part1(v: TickerV4) -> Seq<u8> {
    fx_opt_u64(v.last_price_micros) + fx_opt_u64(v.last_trade_quantity_hundredths) + fx_opt_u64(v.volume_hundredths) + fx_opt_u64(v.volume_24h_hundredths) + fx_opt_u64(v.open_interest_hundredths) + fx_opt_i64(v.provider_at_unix_ms)
}

#[verifier::opaque]
pub open spec fn fx_ticker(v: TickerV4) -> Seq<u8> {
    fx_ticker_part0(v) + fx_ticker_part1(v)
}

#[verifier::opaque]
pub open spec fn fx_book_level(v: BookLevelV4) -> Seq<u8> {
    be_u64(v.price_micros) + be_u64(v.quantity_hundredths)
}

#[verifier::opaque]
pub open spec fn fx_book(v: BookV4) -> Seq<u8> {
    fx_opt_u64(v.connection_epoch) + fx_opt_u64(v.sid) + fx_opt_u64(v.sequence) + fx_opt_i64(v.snapshot_at_unix_ms) + wire_bool_spec(v.resync_required) + fx_list(v.yes_bids@, fx_book_level_encoder()) + fx_list(v.no_bids@, fx_book_level_encoder())
}

#[verifier::opaque]
pub open spec fn fx_last_trade(v: LastTradeV4) -> Seq<u8> {
    fixed_str_spec(v.trade_id@) + be_u64(v.yes_price_micros) + be_u64(v.no_price_micros) + be_u64(v.quantity_hundredths) + fx_opt_string(v.taker_side) + be_u64(v.traded_at_unix_ms as u64)
}

#[verifier::opaque]
pub open spec fn fx_final_fact(v: FinalFactV4) -> Seq<u8> {
    fixed_str_spec(v.status@) + fixed_str_spec(v.result@) + fx_opt_i64(v.settlement_value_micros) + fx_opt_u64(v.settled_price_micros) + fx_opt_i64(v.provider_at_unix_ms)
}

#[verifier::opaque]
pub open spec fn fx_market_comparison_part0(v: MarketComparisonV4) -> Seq<u8> {
    fixed_str_spec(v.source@) + fixed_str_spec(v.event_id@) + fixed_str_spec(v.event_date@) + be_u64(v.sequence) + be_u64(v.provider_at_unix_ms as u64) + fx_opt_u64(v.yes_bid_micros) + fx_opt_u64(v.yes_ask_micros) + fx_opt_u64(v.no_bid_micros)
}

#[verifier::opaque]
pub open spec fn fx_market_comparison_part1(v: MarketComparisonV4) -> Seq<u8> {
    fx_opt_u64(v.no_ask_micros) + fx_opt_u64(v.volume_hundredths) + v.evidence_sha256@
}

#[verifier::opaque]
pub open spec fn fx_market_comparison(v: MarketComparisonV4) -> Seq<u8> {
    fx_market_comparison_part0(v) + fx_market_comparison_part1(v)
}

#[verifier::opaque]
pub open spec fn fx_market_part0(v: MarketV4) -> Seq<u8> {
    fixed_str_spec(v.contract_version@) + be_u64(v.revision) + fx_market_identity(v.identity) + fx_market_meta(v.lifecycle_meta) + fx_opt_market_lifecycle(v.lifecycle) + fx_market_meta(v.ticker_meta) + fx_opt_ticker(v.ticker) + fx_market_meta(v.book_meta)
}

#[verifier::opaque]
pub open spec fn fx_market_part1(v: MarketV4) -> Seq<u8> {
    fx_opt_book(v.book) + fx_market_meta(v.last_trade_meta) + fx_opt_last_trade(v.last_trade) + fx_market_meta(v.final_fact_meta) + fx_opt_final_fact(v.final_fact) + fx_list(v.field_provenance@, fx_string_provenance_pair_encoder()) + fx_list(v.evidence@, fx_evidence_encoder()) + fx_opt_market_comparison(v.minutetemp_comparison)
}

#[verifier::opaque]
pub open spec fn fx_market_part2(v: MarketV4) -> Seq<u8> {
    fx_list(v.uncertain_fields@, fx_string_encoder())
}

#[verifier::opaque]
pub open spec fn fx_market(v: MarketV4) -> Seq<u8> {
    fx_market_part0(v) + fx_market_part1(v) + fx_market_part2(v)
}

#[verifier::opaque]
pub open spec fn fx_opportunity_part0(v: OpportunityV4) -> Seq<u8> {
    fixed_str_spec(v.opportunity_id@) + fixed_str_spec(v.venue_id@) + fixed_str_spec(v.match_profile@) + fixed_str_spec(v.resolved_scope@) + fx_lifecycle(v.lifecycle) + be_u64(v.close_time_unix_seconds) + fx_list(v.market_ids@, fx_string_encoder()) + fx_list(v.contributor_stations@, fx_string_encoder())
}

#[verifier::opaque]
pub open spec fn fx_opportunity_part1(v: OpportunityV4) -> Seq<u8> {
    fx_market_authority(v.authority)
}

#[verifier::opaque]
pub open spec fn fx_opportunity(v: OpportunityV4) -> Seq<u8> {
    fx_opportunity_part0(v) + fx_opportunity_part1(v)
}

#[verifier::opaque]
pub open spec fn fx_broker_part0(v: BrokerV4) -> Seq<u8> {
    be_u64(v.revision) + fixed_str_spec(v.venue_account_id@) + fixed_str_spec(v.sleeve_id@) + be_u64(v.provider_available_balance) + be_u64(v.locally_reserved_cash) + be_u64(v.portfolio_value) + be_u64(v.allowance_limit) + be_u64(v.current_commitment)
}

#[verifier::opaque]
pub open spec fn fx_broker_part1(v: BrokerV4) -> Seq<u8> {
    fx_gate_status(v.exposure_increase) + fx_gate_status(v.reduce_only_protective) + fx_gate_status(v.cancellation) + fx_gate_status(v.reconciliation_allocation)
}

#[verifier::opaque]
pub open spec fn fx_broker(v: BrokerV4) -> Seq<u8> {
    fx_broker_part0(v) + fx_broker_part1(v)
}

#[verifier::opaque]
pub open spec fn fx_config(v: ConfigV4) -> Seq<u8> {
    be_u64(v.revision) + fixed_str_spec(v.profile_and_calculator_digest@)
}

#[verifier::opaque]
pub open spec fn fx_supervisor(v: SupervisorV4) -> Seq<u8> {
    fixed_str_spec(v.sleeve_id@) + be_u64(v.incarnation) + be_u64(v.process_attempt) + be_u64(v.route_epoch)
}

#[verifier::opaque]
pub open spec fn fx_resource_revision(v: ResourceRevisionV4) -> Seq<u8> {
    fixed_str_spec(v.identity@) + be_u64(v.revision) + be_u64(v.generation)
}

#[verifier::opaque]
pub open spec fn fx_fence_part0(v: FenceV4) -> Seq<u8> {
    be_u64(v.sleeve_incarnation) + be_u64(v.config_revision) + fixed_str_spec(v.profile_and_calculator_digest@) + be_u64(v.route_epoch) + v.route_plan_sha256@ + be_u64(v.source_revision) + be_u64(v.source_generation) + be_u64(v.catalog_revision)
}

#[verifier::opaque]
pub open spec fn fx_fence_part1(v: FenceV4) -> Seq<u8> {
    be_u64(v.market_authority_generation) + be_u64(v.price_revision) + be_u64(v.broker_revision) + fx_list(v.station_resources@, fx_resource_revision_encoder()) + fx_list(v.market_revisions@, fx_resource_revision_encoder())
}

#[verifier::opaque]
pub open spec fn fx_fence(v: FenceV4) -> Seq<u8> {
    fx_fence_part0(v) + fx_fence_part1(v)
}

#[verifier::opaque]
pub open spec fn fx_timer_recovery(v: TimerRecoveryV4) -> Seq<u8> {
    fixed_str_spec(v.key@) + be_u64(v.scheduled_at) + fixed_str_spec(v.generation@) + seq![v.admission_state]
}

#[verifier::opaque]
pub open spec fn fx_decision_context_part0(v: DecisionContextV4) -> Seq<u8> {
    fixed_str_spec(v.delivery_id@) + fx_supervisor(v.sleeve) + fx_trigger(v.trigger) + fx_fence(v.fence) + fx_config(v.config) + fx_list(v.stations@, fx_station_encoder()) + fx_opportunity(v.opportunity) + fx_list(v.markets@, fx_market_encoder())
}

#[verifier::opaque]
pub open spec fn fx_decision_context_part1(v: DecisionContextV4) -> Seq<u8> {
    fx_broker(v.broker) + fx_opt_list_timer_recovery(v.timer_recovery) + be_u64(v.delivered_at_monotonic_ns) + be_u64(v.hard_expires_at_monotonic_ns)
}

#[verifier::opaque]
pub open spec fn fx_decision_context(v: DecisionContextV4) -> Seq<u8> {
    fx_decision_context_part0(v) + fx_decision_context_part1(v)
}

#[verifier::opaque]
pub open spec fn fx_opt_book(v: Option<BookV4>) -> Seq<u8> {
    match v {
        Some(x) => seq![1u8] + fx_book(x),
        None => seq![0u8],
    }
}

#[verifier::opaque]
pub open spec fn fx_opt_extreme(v: Option<ExtremeV4>) -> Seq<u8> {
    match v {
        Some(x) => seq![1u8] + fx_extreme(x),
        None => seq![0u8],
    }
}

#[verifier::opaque]
pub open spec fn fx_opt_final_fact(v: Option<FinalFactV4>) -> Seq<u8> {
    match v {
        Some(x) => seq![1u8] + fx_final_fact(x),
        None => seq![0u8],
    }
}

#[verifier::opaque]
pub open spec fn fx_opt_last_trade(v: Option<LastTradeV4>) -> Seq<u8> {
    match v {
        Some(x) => seq![1u8] + fx_last_trade(x),
        None => seq![0u8],
    }
}

#[verifier::opaque]
pub open spec fn fx_opt_market_comparison(v: Option<MarketComparisonV4>) -> Seq<u8> {
    match v {
        Some(x) => seq![1u8] + fx_market_comparison(x),
        None => seq![0u8],
    }
}

#[verifier::opaque]
pub open spec fn fx_opt_market_lifecycle(v: Option<MarketLifecycleV4>) -> Seq<u8> {
    match v {
        Some(x) => seq![1u8] + fx_market_lifecycle(x),
        None => seq![0u8],
    }
}

#[verifier::opaque]
pub open spec fn fx_opt_string(v: Option<String>) -> Seq<u8> {
    match v {
        Some(x) => seq![1u8] + fixed_str_spec(x@),
        None => seq![0u8],
    }
}

#[verifier::opaque]
pub open spec fn fx_opt_ticker(v: Option<TickerV4>) -> Seq<u8> {
    match v {
        Some(x) => seq![1u8] + fx_ticker(x),
        None => seq![0u8],
    }
}

#[verifier::opaque]
pub open spec fn fx_opt_list_timer_recovery(v: Option<Vec<TimerRecoveryV4>>) -> Seq<u8> {
    match v {
        Some(x) => seq![1u8] + fx_list(x@, fx_timer_recovery_encoder()),
        None => seq![0u8],
    }
}

#[verifier::opaque]
pub open spec fn fx_opt_weather_event_source(v: Option<WeatherEventSourceV4>) -> Seq<u8> {
    match v {
        Some(x) => seq![1u8] + fx_weather_event_source(x),
        None => seq![0u8],
    }
}

#[verifier::opaque]
pub open spec fn fx_opt_bool(v: Option<bool>) -> Seq<u8> {
    match v {
        Some(x) => seq![1u8] + wire_bool_spec(x),
        None => seq![0u8],
    }
}

#[verifier::opaque]
pub open spec fn fx_opt_i32(v: Option<i32>) -> Seq<u8> {
    match v {
        Some(x) => seq![1u8] + be_u32(x as u32),
        None => seq![0u8],
    }
}

#[verifier::opaque]
pub open spec fn fx_opt_i64(v: Option<i64>) -> Seq<u8> {
    match v {
        Some(x) => seq![1u8] + be_u64(x as u64),
        None => seq![0u8],
    }
}

#[verifier::opaque]
pub open spec fn fx_opt_u16(v: Option<u16>) -> Seq<u8> {
    match v {
        Some(x) => seq![1u8] + be_u16(x),
        None => seq![0u8],
    }
}

#[verifier::opaque]
pub open spec fn fx_opt_u64(v: Option<u64>) -> Seq<u8> {
    match v {
        Some(x) => seq![1u8] + be_u64(x),
        None => seq![0u8],
    }
}

#[verifier::opaque]
pub open spec fn fx_string_provenance_pair(v: (String, ProvenanceV4)) -> Seq<u8> {
    fixed_str_spec(v.0@) + fx_provenance(v.1)
}

#[verifier::opaque]
pub open spec fn fx_string_string_pair(v: (String, String)) -> Seq<u8> {
    fixed_str_spec(v.0@) + fixed_str_spec(v.1@)
}

pub open spec fn fx_string_provenance_pair_encoder() -> spec_fn((String, ProvenanceV4)) -> Seq<u8> {
    |x: (String, ProvenanceV4)| fx_string_provenance_pair(x)
}

pub open spec fn fx_string_string_pair_encoder() -> spec_fn((String, String)) -> Seq<u8> {
    |x: (String, String)| fx_string_string_pair(x)
}

pub open spec fn fx_book_level_encoder() -> spec_fn(BookLevelV4) -> Seq<u8> {
    |x: BookLevelV4| fx_book_level(x)
}

pub open spec fn fx_evidence_encoder() -> spec_fn(EvidenceV4) -> Seq<u8> {
    |x: EvidenceV4| fx_evidence(x)
}

pub open spec fn fx_forecast_model_encoder() -> spec_fn(ForecastModelV4) -> Seq<u8> {
    |x: ForecastModelV4| fx_forecast_model(x)
}

pub open spec fn fx_forecast_point_encoder() -> spec_fn(ForecastPointV4) -> Seq<u8> {
    |x: ForecastPointV4| fx_forecast_point(x)
}

pub open spec fn fx_market_encoder() -> spec_fn(MarketV4) -> Seq<u8> {
    |x: MarketV4| fx_market(x)
}

pub open spec fn fx_oracle_row_encoder() -> spec_fn(OracleRowV4) -> Seq<u8> {
    |x: OracleRowV4| fx_oracle_row(x)
}

pub open spec fn fx_provenance_encoder() -> spec_fn(ProvenanceV4) -> Seq<u8> {
    |x: ProvenanceV4| fx_provenance(x)
}

pub open spec fn fx_report_encoder() -> spec_fn(ReportV4) -> Seq<u8> {
    |x: ReportV4| fx_report(x)
}

pub open spec fn fx_resource_revision_encoder() -> spec_fn(ResourceRevisionV4) -> Seq<u8> {
    |x: ResourceRevisionV4| fx_resource_revision(x)
}

pub open spec fn fx_station_encoder() -> spec_fn(StationV4) -> Seq<u8> {
    |x: StationV4| fx_station(x)
}

pub open spec fn fx_string_encoder() -> spec_fn(String) -> Seq<u8> {
    |x: String| fixed_str_spec(x@)
}

pub open spec fn fx_timer_recovery_encoder() -> spec_fn(TimerRecoveryV4) -> Seq<u8> {
    |x: TimerRecoveryV4| fx_timer_recovery(x)
}

pub open spec fn fx_weather_event_encoder() -> spec_fn(WeatherEventV4) -> Seq<u8> {
    |x: WeatherEventV4| fx_weather_event(x)
}

// ---------------------------------------------------------------------------------------------
// Writing
// ---------------------------------------------------------------------------------------------

fn put_trigger(out: &mut Vec<u8>, v: &TriggerV4)
    ensures
        final(out)@ == old(out)@ + fx_trigger(*v),
{
    reveal(fx_trigger);
    let ghost start = out@;
    match v {
        TriggerV4::Weather { station_id, source_generation, source_sequence } => {
            put(out, fixed_u32(0));
            put(out, fixed_str(station_id));
            put(out, fixed_u64(*source_generation));
            put(out, fixed_u64(*source_sequence));
        },
        TriggerV4::StationReport { station_id, report_id, report_type, report_revision, provider, source_generation, source_sequence } => {
            put(out, fixed_u32(1));
            put(out, fixed_str(station_id));
            put(out, fixed_str(report_id));
            put(out, fixed_str(report_type));
            put(out, fixed_u64(*report_revision));
            put(out, fixed_str(provider));
            put(out, fixed_u64(*source_generation));
            put(out, fixed_u64(*source_sequence));
        },
        TriggerV4::MarketPrice { market_id, price_revision } => {
            put(out, fixed_u32(2));
            put(out, fixed_str(market_id));
            put(out, fixed_u64(*price_revision));
        },
        TriggerV4::Timer { key } => {
            put(out, fixed_u32(3));
            put(out, fixed_str(key));
        },
        TriggerV4::Bootstrap => {
            put(out, fixed_u32(4));
        },
        TriggerV4::Recovery => {
            put(out, fixed_u32(5));
        },
    }
    assert(out@ =~= start + fx_trigger(*v));
}

fn put_authority(out: &mut Vec<u8>, v: &AuthorityV4)
    ensures
        final(out)@ == old(out)@ + fx_authority(*v),
{
    reveal(fx_authority);
    let ghost start = out@;
    match v {
        AuthorityV4::Warming => {
            put(out, fixed_u32(0));
        },
        AuthorityV4::Current => {
            put(out, fixed_u32(1));
        },
        AuthorityV4::RefreshPending => {
            put(out, fixed_u32(2));
        },
        AuthorityV4::Uncertain => {
            put(out, fixed_u32(3));
        },
        AuthorityV4::Unavailable => {
            put(out, fixed_u32(4));
        },
    }
    assert(out@ =~= start + fx_authority(*v));
}

fn put_rank_by(out: &mut Vec<u8>, v: &RankByV4)
    ensures
        final(out)@ == old(out)@ + fx_rank_by(*v),
{
    reveal(fx_rank_by);
    let ghost start = out@;
    match v {
        RankByV4::High => {
            put(out, fixed_u32(0));
        },
        RankByV4::Low => {
            put(out, fixed_u32(1));
        },
    }
    assert(out@ =~= start + fx_rank_by(*v));
}

fn put_lifecycle(out: &mut Vec<u8>, v: &LifecycleV4)
    ensures
        final(out)@ == old(out)@ + fx_lifecycle(*v),
{
    reveal(fx_lifecycle);
    let ghost start = out@;
    match v {
        LifecycleV4::Discovered => {
            put(out, fixed_u32(0));
        },
        LifecycleV4::Hydrating => {
            put(out, fixed_u32(1));
        },
        LifecycleV4::Eligible => {
            put(out, fixed_u32(2));
        },
        LifecycleV4::Uncertain => {
            put(out, fixed_u32(3));
        },
        LifecycleV4::Ineligible => {
            put(out, fixed_u32(4));
        },
        LifecycleV4::Terminal => {
            put(out, fixed_u32(5));
        },
    }
    assert(out@ =~= start + fx_lifecycle(*v));
}

fn put_market_authority(out: &mut Vec<u8>, v: &MarketAuthorityV4)
    ensures
        final(out)@ == old(out)@ + fx_market_authority(*v),
{
    reveal(fx_market_authority);
    let ghost start = out@;
    match v {
        MarketAuthorityV4::Current => {
            put(out, fixed_u32(0));
        },
        MarketAuthorityV4::Uncertain => {
            put(out, fixed_u32(1));
        },
    }
    assert(out@ =~= start + fx_market_authority(*v));
}

fn put_gate_status(out: &mut Vec<u8>, v: &GateStatusV4)
    ensures
        final(out)@ == old(out)@ + fx_gate_status(*v),
{
    reveal(fx_gate_status);
    let ghost start = out@;
    match v {
        GateStatusV4::Open => {
            put(out, fixed_u32(0));
        },
        GateStatusV4::ClosedFinanceUnavailable => {
            put(out, fixed_u32(1));
        },
        GateStatusV4::ClosedAdmissionDenied => {
            put(out, fixed_u32(2));
        },
        GateStatusV4::ClosedRecoveryRequired => {
            put(out, fixed_u32(3));
        },
    }
    assert(out@ =~= start + fx_gate_status(*v));
}

fn put_provenance_part0(out: &mut Vec<u8>, v: &ProvenanceV4)
    ensures
        final(out)@ == old(out)@ + fx_provenance_part0(*v),
{
    reveal(fx_provenance_part0);
    let ghost start = out@;
    put(out, fixed_str(&v.provider));
    put(out, fixed_str(&v.source));
    put_opt_string(out, &v.event_id);
    put_opt_u64(out, &v.connection_epoch);
    put_opt_u64(out, &v.sid);
    put_opt_u64(out, &v.sequence);
    put_opt_u64(out, &v.city_sequence);
    put_opt_u64(out, &v.producer_sequence);
    assert(out@ =~= start + fx_provenance_part0(*v));
}

fn put_provenance_part1(out: &mut Vec<u8>, v: &ProvenanceV4)
    ensures
        final(out)@ == old(out)@ + fx_provenance_part1(*v),
{
    reveal(fx_provenance_part1);
    let ghost start = out@;
    put_opt_u64(out, &v.received_frame_ordinal);
    put_opt_i64(out, &v.provider_at_unix_ms);
    put(out, fixed_i64(v.received_at_unix_ms));
    assert(out@ =~= start + fx_provenance_part1(*v));
}

fn put_provenance(out: &mut Vec<u8>, v: &ProvenanceV4)
    ensures
        final(out)@ == old(out)@ + fx_provenance(*v),
{
    reveal(fx_provenance);
    let ghost start = out@;
    put_provenance_part0(out, v);
    put_provenance_part1(out, v);
    assert(out@ =~= start + fx_provenance(*v));
}

fn put_evidence(out: &mut Vec<u8>, v: &EvidenceV4)
    ensures
        final(out)@ == old(out)@ + fx_evidence(*v),
{
    reveal(fx_evidence);
    let ghost start = out@;
    put(out, fixed_str(&v.kind));
    put(out, wire_array32(&v.sha256));
    put(out, fixed_str(&v.reference));
    put(out, fixed_u64(v.byte_count));
    assert(out@ =~= start + fx_evidence(*v));
}

fn put_component_meta(out: &mut Vec<u8>, v: &ComponentMetaV4)
    ensures
        final(out)@ == old(out)@ + fx_component_meta(*v),
{
    reveal(fx_component_meta);
    let ghost start = out@;
    put_authority(out, &v.authority);
    put(out, fixed_u64(v.revision));
    put(out, fixed_u64(v.generation));
    put_opt_i64(out, &v.updated_at_unix_ms);
    put_opt_string(out, &v.expected_version);
    put_list_provenance(out, &v.provenance);
    put_opt_string(out, &v.refresh_error);
    assert(out@ =~= start + fx_component_meta(*v));
}

fn put_station_identity(out: &mut Vec<u8>, v: &StationIdentityV4)
    ensures
        final(out)@ == old(out)@ + fx_station_identity(*v),
{
    reveal(fx_station_identity);
    let ghost start = out@;
    put(out, fixed_str(&v.station_id));
    put_opt_string(out, &v.city_id);
    put_opt_string(out, &v.city_slug);
    put(out, fixed_str(&v.logical_location));
    put_opt_string(out, &v.name);
    put_opt_i64(out, &v.latitude_micros);
    put_opt_i64(out, &v.longitude_micros);
    put(out, fixed_str(&v.timezone));
    assert(out@ =~= start + fx_station_identity(*v));
}

fn put_observation_part0(out: &mut Vec<u8>, v: &ObservationV4)
    ensures
        final(out)@ == old(out)@ + fx_observation_part0(*v),
{
    reveal(fx_observation_part0);
    let ghost start = out@;
    put(out, fixed_str(&v.station_id));
    put(out, fixed_i64(v.observed_at_unix_ms));
    put_opt_i64(out, &v.source_timestamp_unix_ms);
    put_opt_i64(out, &v.producer_received_at_unix_ms);
    put_opt_i64(out, &v.live_published_at_unix_ms);
    put_opt_i64(out, &v.lag_ms);
    put(out, wire_bool(v.preliminary));
    put_opt_string(out, &v.persistence_status);
    assert(out@ =~= start + fx_observation_part0(*v));
}

fn put_observation_part1(out: &mut Vec<u8>, v: &ObservationV4)
    ensures
        final(out)@ == old(out)@ + fx_observation_part1(*v),
{
    reveal(fx_observation_part1);
    let ghost start = out@;
    put_opt_i32(out, &v.temperature_milli_c);
    put_opt_i32(out, &v.temperature_min_milli_c);
    put_opt_i32(out, &v.temperature_max_milli_c);
    put_opt_i32(out, &v.wu_current_temperature_milli_c);
    put_opt_i32(out, &v.wu_daily_high_milli_c);
    put_opt_i32(out, &v.wu_daily_low_milli_c);
    put_opt_i64(out, &v.wu_observation_at_unix_ms);
    put_opt_i64(out, &v.wu_fetched_at_unix_ms);
    assert(out@ =~= start + fx_observation_part1(*v));
}

fn put_observation_part2(out: &mut Vec<u8>, v: &ObservationV4)
    ensures
        final(out)@ == old(out)@ + fx_observation_part2(*v),
{
    reveal(fx_observation_part2);
    let ghost start = out@;
    put_opt_string(out, &v.temperature_day_mode);
    put_opt_string(out, &v.temperature_day_date);
    put_opt_string(out, &v.wu_day_mode);
    put_opt_string(out, &v.wu_day_date);
    put(out, wire_bool(v.is_from_report));
    put_opt_string(out, &v.report_type);
    put_opt_string(out, &v.source_report_id);
    put_opt_i64(out, &v.dewpoint_micros);
    assert(out@ =~= start + fx_observation_part2(*v));
}

fn put_observation_part3(out: &mut Vec<u8>, v: &ObservationV4)
    ensures
        final(out)@ == old(out)@ + fx_observation_part3(*v),
{
    reveal(fx_observation_part3);
    let ghost start = out@;
    put_opt_i64(out, &v.heat_index_micros);
    put_opt_i64(out, &v.wind_chill_micros);
    put_opt_i64(out, &v.relative_humidity_micros);
    put_opt_i64(out, &v.wind_speed_micros);
    put_opt_i64(out, &v.wind_direction_micros);
    put_opt_i64(out, &v.wind_gust_micros);
    put_opt_string(out, &v.text_description);
    put_provenance(out, &v.provenance);
    assert(out@ =~= start + fx_observation_part3(*v));
}

fn put_observation(out: &mut Vec<u8>, v: &ObservationV4)
    ensures
        final(out)@ == old(out)@ + fx_observation(*v),
{
    reveal(fx_observation);
    let ghost start = out@;
    put_observation_part0(out, v);
    put_observation_part1(out, v);
    put_observation_part2(out, v);
    put_observation_part3(out, v);
    assert(out@ =~= start + fx_observation(*v));
}

fn put_weather_part0(out: &mut Vec<u8>, v: &WeatherV4)
    ensures
        final(out)@ == old(out)@ + fx_weather_part0(*v),
{
    reveal(fx_weather_part0);
    let ghost start = out@;
    put(out, fixed_str(&v.station_id));
    put_opt_i32(out, &v.current_temperature_milli_c);
    put_opt_i32(out, &v.running_high_milli_c);
    put_opt_i32(out, &v.running_low_milli_c);
    put_opt_i64(out, &v.last_metar_at_unix_ms);
    put_opt_i32(out, &v.dsm_high_milli_c);
    put_opt_i32(out, &v.dsm_low_milli_c);
    put_opt_i64(out, &v.dsm_high_at_unix_ms);
    assert(out@ =~= start + fx_weather_part0(*v));
}

fn put_weather_part1(out: &mut Vec<u8>, v: &WeatherV4)
    ensures
        final(out)@ == old(out)@ + fx_weather_part1(*v),
{
    reveal(fx_weather_part1);
    let ghost start = out@;
    put_opt_i64(out, &v.dsm_low_at_unix_ms);
    put_opt_i32(out, &v.six_hour_high_milli_c);
    put_opt_i32(out, &v.six_hour_low_milli_c);
    put_opt_i32(out, &v.asos_daily_high_milli_c);
    put_opt_i32(out, &v.asos_daily_low_milli_c);
    put_opt_i32(out, &v.wu_current_temperature_milli_c);
    put_opt_i32(out, &v.wu_daily_high_milli_c);
    put_opt_i32(out, &v.wu_daily_low_milli_c);
    assert(out@ =~= start + fx_weather_part1(*v));
}

fn put_weather_part2(out: &mut Vec<u8>, v: &WeatherV4)
    ensures
        final(out)@ == old(out)@ + fx_weather_part2(*v),
{
    reveal(fx_weather_part2);
    let ghost start = out@;
    put_opt_i64(out, &v.dewpoint_micros);
    put_opt_i64(out, &v.heat_index_micros);
    put_opt_i64(out, &v.wind_chill_micros);
    put_opt_i64(out, &v.relative_humidity_micros);
    put_opt_i64(out, &v.wind_speed_micros);
    put_opt_i64(out, &v.wind_direction_micros);
    put_opt_i64(out, &v.wind_gust_micros);
    put_opt_string(out, &v.text_description);
    assert(out@ =~= start + fx_weather_part2(*v));
}

fn put_weather_part3(out: &mut Vec<u8>, v: &WeatherV4)
    ensures
        final(out)@ == old(out)@ + fx_weather_part3(*v),
{
    reveal(fx_weather_part3);
    let ghost start = out@;
    put(out, wire_bool(v.preliminary));
    assert(out@ =~= start + fx_weather_part3(*v));
}

fn put_weather(out: &mut Vec<u8>, v: &WeatherV4)
    ensures
        final(out)@ == old(out)@ + fx_weather(*v),
{
    reveal(fx_weather);
    let ghost start = out@;
    put_weather_part0(out, v);
    put_weather_part1(out, v);
    put_weather_part2(out, v);
    put_weather_part3(out, v);
    assert(out@ =~= start + fx_weather(*v));
}

fn put_extreme_part0(out: &mut Vec<u8>, v: &ExtremeV4)
    ensures
        final(out)@ == old(out)@ + fx_extreme_part0(*v),
{
    reveal(fx_extreme_part0);
    let ghost start = out@;
    put(out, fixed_i32(v.value_milli_c));
    put_opt_i32(out, &v.previous_value_milli_c);
    put_opt_i64(out, &v.observed_at_unix_ms);
    put_opt_string(out, &v.temperature_day_mode);
    put_opt_string(out, &v.temperature_day_date);
    put(out, wire_bool(v.is_from_report));
    put_opt_string(out, &v.report_type);
    put_opt_string(out, &v.source_report_id);
    assert(out@ =~= start + fx_extreme_part0(*v));
}

fn put_extreme_part1(out: &mut Vec<u8>, v: &ExtremeV4)
    ensures
        final(out)@ == old(out)@ + fx_extreme_part1(*v),
{
    reveal(fx_extreme_part1);
    let ghost start = out@;
    put_provenance(out, &v.provenance);
    assert(out@ =~= start + fx_extreme_part1(*v));
}

fn put_extreme(out: &mut Vec<u8>, v: &ExtremeV4)
    ensures
        final(out)@ == old(out)@ + fx_extreme(*v),
{
    reveal(fx_extreme);
    let ghost start = out@;
    put_extreme_part0(out, v);
    put_extreme_part1(out, v);
    assert(out@ =~= start + fx_extreme(*v));
}

fn put_extrema(out: &mut Vec<u8>, v: &ExtremaV4)
    ensures
        final(out)@ == old(out)@ + fx_extrema(*v),
{
    reveal(fx_extrema);
    let ghost start = out@;
    put_opt_extreme(out, &v.high);
    put_opt_extreme(out, &v.low);
    assert(out@ =~= start + fx_extrema(*v));
}

fn put_report_part0(out: &mut Vec<u8>, v: &ReportV4)
    ensures
        final(out)@ == old(out)@ + fx_report_part0(*v),
{
    reveal(fx_report_part0);
    let ghost start = out@;
    put(out, fixed_str(&v.report_id));
    put(out, fixed_str(&v.report_type));
    put(out, fixed_str(&v.report_date));
    put_authority(out, &v.authority);
    put(out, fixed_u64(v.revision));
    put(out, fixed_u64(v.generation));
    put_opt_i64(out, &v.issued_at_unix_ms);
    put_opt_i64(out, &v.updated_at_unix_ms);
    assert(out@ =~= start + fx_report_part0(*v));
}

fn put_report_part1(out: &mut Vec<u8>, v: &ReportV4)
    ensures
        final(out)@ == old(out)@ + fx_report_part1(*v),
{
    reveal(fx_report_part1);
    let ghost start = out@;
    put_opt_i64(out, &v.fetched_at_unix_ms);
    put(out, fixed_str(&v.provider));
    put(out, fixed_str(&v.source_url));
    put_opt_i32(out, &v.max_temperature_milli_c);
    put_opt_i32(out, &v.min_temperature_milli_c);
    put_opt_i32(out, &v.temperature_milli_c);
    put_opt_i32(out, &v.temperature_milli_f);
    put_opt_i64(out, &v.max_temperature_at_unix_ms);
    assert(out@ =~= start + fx_report_part1(*v));
}

fn put_report_part2(out: &mut Vec<u8>, v: &ReportV4)
    ensures
        final(out)@ == old(out)@ + fx_report_part2(*v),
{
    reveal(fx_report_part2);
    let ghost start = out@;
    put_opt_i64(out, &v.min_temperature_at_unix_ms);
    put_provenance(out, &v.provenance);
    assert(out@ =~= start + fx_report_part2(*v));
}

fn put_report(out: &mut Vec<u8>, v: &ReportV4)
    ensures
        final(out)@ == old(out)@ + fx_report(*v),
{
    reveal(fx_report);
    let ghost start = out@;
    put_report_part0(out, v);
    put_report_part1(out, v);
    put_report_part2(out, v);
    assert(out@ =~= start + fx_report(*v));
}

fn put_weather_event_source_part0(out: &mut Vec<u8>, v: &WeatherEventSourceV4)
    ensures
        final(out)@ == old(out)@ + fx_weather_event_source_part0(*v),
{
    reveal(fx_weather_event_source_part0);
    let ghost start = out@;
    put_opt_string(out, &v.metar_type);
    put_opt_string(out, &v.flight_category);
    put_opt_string(out, &v.wx_string);
    put_opt_string(out, &v.wx_token);
    put_opt_i64(out, &v.wind_speed_knots_micros);
    put_opt_i64(out, &v.wind_gust_knots_micros);
    put_opt_i64(out, &v.peak_wind_knots_micros);
    put_opt_i64(out, &v.peak_wind_direction);
    assert(out@ =~= start + fx_weather_event_source_part0(*v));
}

fn put_weather_event_source_part1(out: &mut Vec<u8>, v: &WeatherEventSourceV4)
    ensures
        final(out)@ == old(out)@ + fx_weather_event_source_part1(*v),
{
    reveal(fx_weather_event_source_part1);
    let ghost start = out@;
    put_opt_i64(out, &v.visibility_miles_micros);
    put_opt_string(out, &v.cb_location);
    assert(out@ =~= start + fx_weather_event_source_part1(*v));
}

fn put_weather_event_source(out: &mut Vec<u8>, v: &WeatherEventSourceV4)
    ensures
        final(out)@ == old(out)@ + fx_weather_event_source(*v),
{
    reveal(fx_weather_event_source);
    let ghost start = out@;
    put_weather_event_source_part0(out, v);
    put_weather_event_source_part1(out, v);
    assert(out@ =~= start + fx_weather_event_source(*v));
}

fn put_weather_event_part0(out: &mut Vec<u8>, v: &WeatherEventV4)
    ensures
        final(out)@ == old(out)@ + fx_weather_event_part0(*v),
{
    reveal(fx_weather_event_part0);
    let ghost start = out@;
    put(out, fixed_str(&v.event_id));
    put(out, fixed_str(&v.event_type));
    put(out, fixed_str(&v.tier));
    put(out, fixed_str(&v.state));
    put_authority(out, &v.authority);
    put(out, fixed_u64(v.revision));
    put(out, fixed_u64(v.generation));
    put(out, fixed_str(&v.name));
    assert(out@ =~= start + fx_weather_event_part0(*v));
}

fn put_weather_event_part1(out: &mut Vec<u8>, v: &WeatherEventV4)
    ensures
        final(out)@ == old(out)@ + fx_weather_event_part1(*v),
{
    reveal(fx_weather_event_part1);
    let ghost start = out@;
    put(out, fixed_str(&v.badge));
    put(out, fixed_str(&v.detail));
    put(out, fixed_str(&v.summary));
    put_opt_i64(out, &v.started_at_unix_ms);
    put_opt_i64(out, &v.last_confirmed_at_unix_ms);
    put_opt_i64(out, &v.ended_at_unix_ms);
    put_opt_weather_event_source(out, &v.source);
    put_provenance(out, &v.provenance);
    assert(out@ =~= start + fx_weather_event_part1(*v));
}

fn put_weather_event(out: &mut Vec<u8>, v: &WeatherEventV4)
    ensures
        final(out)@ == old(out)@ + fx_weather_event(*v),
{
    reveal(fx_weather_event);
    let ghost start = out@;
    put_weather_event_part0(out, v);
    put_weather_event_part1(out, v);
    assert(out@ =~= start + fx_weather_event(*v));
}

fn put_forecast_point_part0(out: &mut Vec<u8>, v: &ForecastPointV4)
    ensures
        final(out)@ == old(out)@ + fx_forecast_point_part0(*v),
{
    reveal(fx_forecast_point_part0);
    let ghost start = out@;
    put(out, fixed_i64(v.at_unix_ms));
    put_opt_i32(out, &v.temperature_milli_c);
    put_opt_i32(out, &v.apparent_temperature_milli_c);
    put_opt_i64(out, &v.humidity_millionths);
    put_opt_i32(out, &v.dew_point_milli_c);
    put_opt_i64(out, &v.pressure_msl_micros);
    put_opt_i64(out, &v.wind_speed_micros);
    put_opt_i32(out, &v.wind_direction_degrees);
    assert(out@ =~= start + fx_forecast_point_part0(*v));
}

fn put_forecast_point_part1(out: &mut Vec<u8>, v: &ForecastPointV4)
    ensures
        final(out)@ == old(out)@ + fx_forecast_point_part1(*v),
{
    reveal(fx_forecast_point_part1);
    let ghost start = out@;
    put_opt_i64(out, &v.wind_gust_micros);
    put_opt_i64(out, &v.cloud_cover_millionths);
    put_opt_i64(out, &v.precipitation_probability_millionths);
    put_opt_i32(out, &v.weather_code);
    assert(out@ =~= start + fx_forecast_point_part1(*v));
}

fn put_forecast_point(out: &mut Vec<u8>, v: &ForecastPointV4)
    ensures
        final(out)@ == old(out)@ + fx_forecast_point(*v),
{
    reveal(fx_forecast_point);
    let ghost start = out@;
    put_forecast_point_part0(out, v);
    put_forecast_point_part1(out, v);
    assert(out@ =~= start + fx_forecast_point(*v));
}

fn put_forecast_model(out: &mut Vec<u8>, v: &ForecastModelV4)
    ensures
        final(out)@ == old(out)@ + fx_forecast_model(*v),
{
    reveal(fx_forecast_model);
    let ghost start = out@;
    put(out, fixed_str(&v.model_id));
    put(out, fixed_str(&v.version));
    put_opt_string(out, &v.run_id);
    put_opt_i64(out, &v.fetched_at_unix_ms);
    put_opt_i64(out, &v.issued_at_unix_ms);
    put_opt_string(out, &v.timezone);
    put_opt_i32(out, &v.utc_offset_seconds);
    put_list_forecast_point(out, &v.hourly);
    assert(out@ =~= start + fx_forecast_model(*v));
}

fn put_forecast(out: &mut Vec<u8>, v: &ForecastV4)
    ensures
        final(out)@ == old(out)@ + fx_forecast(*v),
{
    reveal(fx_forecast);
    let ghost start = out@;
    put_list_string_string_pair(out, &v.advertised_versions);
    put_list_forecast_model(out, &v.models);
    assert(out@ =~= start + fx_forecast(*v));
}

fn put_oracle_query(out: &mut Vec<u8>, v: &OracleQueryV4)
    ensures
        final(out)@ == old(out)@ + fx_oracle_query(*v),
{
    reveal(fx_oracle_query);
    let ghost start = out@;
    put(out, fixed_str(&v.station_id));
    put(out, fixed_str(&v.mode));
    put_rank_by(out, &v.rank_by);
    put(out, wire_u8(v.days));
    assert(out@ =~= start + fx_oracle_query(*v));
}

fn put_oracle_row_part0(out: &mut Vec<u8>, v: &OracleRowV4)
    ensures
        final(out)@ == old(out)@ + fx_oracle_row_part0(*v),
{
    reveal(fx_oracle_row_part0);
    let ghost start = out@;
    put(out, wire_u8(v.rank));
    put(out, fixed_str(&v.model_id));
    put(out, fixed_str(&v.model_name));
    put_opt_bool(out, &v.is_public);
    put_opt_i64(out, &v.high_mae_millionths);
    put_opt_i64(out, &v.low_mae_millionths);
    put_opt_i64(out, &v.combined_mae_millionths);
    put_opt_i64(out, &v.high_bias_millionths);
    assert(out@ =~= start + fx_oracle_row_part0(*v));
}

fn put_oracle_row_part1(out: &mut Vec<u8>, v: &OracleRowV4)
    ensures
        final(out)@ == old(out)@ + fx_oracle_row_part1(*v),
{
    reveal(fx_oracle_row_part1);
    let ghost start = out@;
    put_opt_i64(out, &v.low_bias_millionths);
    put_opt_u16(out, &v.day_count);
    assert(out@ =~= start + fx_oracle_row_part1(*v));
}

fn put_oracle_row(out: &mut Vec<u8>, v: &OracleRowV4)
    ensures
        final(out)@ == old(out)@ + fx_oracle_row(*v),
{
    reveal(fx_oracle_row);
    let ghost start = out@;
    put_oracle_row_part0(out, v);
    put_oracle_row_part1(out, v);
    assert(out@ =~= start + fx_oracle_row(*v));
}

fn put_oracle_table(out: &mut Vec<u8>, v: &OracleTableV4)
    ensures
        final(out)@ == old(out)@ + fx_oracle_table(*v),
{
    reveal(fx_oracle_table);
    let ghost start = out@;
    put_oracle_query(out, &v.query);
    put(out, fixed_str(&v.range_start));
    put(out, fixed_str(&v.range_end));
    put_opt_i64(out, &v.updated_at_unix_ms);
    put_list_oracle_row(out, &v.rows);
    put_provenance(out, &v.provenance);
    assert(out@ =~= start + fx_oracle_table(*v));
}

fn put_cursor(out: &mut Vec<u8>, v: &CursorV4)
    ensures
        final(out)@ == old(out)@ + fx_cursor(*v),
{
    reveal(fx_cursor);
    let ghost start = out@;
    put(out, fixed_u64(v.connection_generation));
    put(out, fixed_str(&v.event_id));
    put(out, fixed_u64(v.sequence));
    put_opt_u64(out, &v.city_sequence);
    put(out, fixed_i64(v.emitted_at_unix_ms));
    put(out, fixed_i64(v.received_at_unix_ms));
    put(out, wire_bool(v.snapshot_complete));
    assert(out@ =~= start + fx_cursor(*v));
}

fn put_station_part0(out: &mut Vec<u8>, v: &StationV4)
    ensures
        final(out)@ == old(out)@ + fx_station_part0(*v),
{
    reveal(fx_station_part0);
    let ghost start = out@;
    put(out, fixed_str(&v.contract_version));
    put(out, fixed_u64(v.revision));
    put(out, fixed_str(&v.climate_event_date));
    put(out, fixed_i64(v.climate_day_start_utc_unix_ms));
    put(out, fixed_i64(v.climate_day_end_utc_unix_ms));
    put_station_identity(out, &v.identity);
    put_component_meta(out, &v.observation_meta);
    put_observation(out, &v.observation);
    assert(out@ =~= start + fx_station_part0(*v));
}

fn put_station_part1(out: &mut Vec<u8>, v: &StationV4)
    ensures
        final(out)@ == old(out)@ + fx_station_part1(*v),
{
    reveal(fx_station_part1);
    let ghost start = out@;
    put_component_meta(out, &v.weather_meta);
    put_weather(out, &v.weather);
    put_component_meta(out, &v.extrema_meta);
    put_extrema(out, &v.extrema);
    put_component_meta(out, &v.reports_meta);
    put_list_report(out, &v.reports);
    put_component_meta(out, &v.weather_events_meta);
    put_list_weather_event(out, &v.weather_events);
    assert(out@ =~= start + fx_station_part1(*v));
}

fn put_station_part2(out: &mut Vec<u8>, v: &StationV4)
    ensures
        final(out)@ == old(out)@ + fx_station_part2(*v),
{
    reveal(fx_station_part2);
    let ghost start = out@;
    put_component_meta(out, &v.forecast_meta);
    put_forecast(out, &v.forecast);
    put_component_meta(out, &v.oracle_meta);
    put_oracle_table(out, &v.oracle);
    put_cursor(out, &v.provider_cursor);
    put_list_evidence(out, &v.evidence);
    assert(out@ =~= start + fx_station_part2(*v));
}

fn put_station(out: &mut Vec<u8>, v: &StationV4)
    ensures
        final(out)@ == old(out)@ + fx_station(*v),
{
    reveal(fx_station);
    let ghost start = out@;
    put_station_part0(out, v);
    put_station_part1(out, v);
    put_station_part2(out, v);
    assert(out@ =~= start + fx_station(*v));
}

fn put_market_meta(out: &mut Vec<u8>, v: &MarketMetaV4)
    ensures
        final(out)@ == old(out)@ + fx_market_meta(*v),
{
    reveal(fx_market_meta);
    let ghost start = out@;
    put_authority(out, &v.authority);
    put(out, fixed_u64(v.revision));
    put(out, fixed_u64(v.generation));
    put_opt_i64(out, &v.updated_at_unix_ms);
    put_opt_string(out, &v.expected_version);
    put_opt_string(out, &v.refresh_error);
    put_list_provenance(out, &v.provenance);
    assert(out@ =~= start + fx_market_meta(*v));
}

fn put_market_identity_part0(out: &mut Vec<u8>, v: &MarketIdentityV4)
    ensures
        final(out)@ == old(out)@ + fx_market_identity_part0(*v),
{
    reveal(fx_market_identity_part0);
    let ghost start = out@;
    put(out, fixed_str(&v.market_id));
    put(out, fixed_str(&v.opportunity_id));
    put(out, fixed_str(&v.venue));
    put(out, fixed_str(&v.event_ticker));
    put(out, fixed_str(&v.series_ticker));
    put(out, fixed_str(&v.strike_type));
    put(out, fixed_str(&v.fee_type));
    put_opt_i64(out, &v.fee_multiplier_millionths);
    assert(out@ =~= start + fx_market_identity_part0(*v));
}

fn put_market_identity_part1(out: &mut Vec<u8>, v: &MarketIdentityV4)
    ensures
        final(out)@ == old(out)@ + fx_market_identity_part1(*v),
{
    reveal(fx_market_identity_part1);
    let ghost start = out@;
    put_opt_i64(out, &v.floor_strike_milli_c);
    put_opt_i64(out, &v.floor_strike_milli_f);
    put_opt_i64(out, &v.cap_strike_milli_c);
    put_opt_i64(out, &v.close_at_unix_ms);
    put_opt_i64(out, &v.expiration_at_unix_ms);
    assert(out@ =~= start + fx_market_identity_part1(*v));
}

fn put_market_identity(out: &mut Vec<u8>, v: &MarketIdentityV4)
    ensures
        final(out)@ == old(out)@ + fx_market_identity(*v),
{
    reveal(fx_market_identity);
    let ghost start = out@;
    put_market_identity_part0(out, v);
    put_market_identity_part1(out, v);
    assert(out@ =~= start + fx_market_identity(*v));
}

fn put_market_lifecycle(out: &mut Vec<u8>, v: &MarketLifecycleV4)
    ensures
        final(out)@ == old(out)@ + fx_market_lifecycle(*v),
{
    reveal(fx_market_lifecycle);
    let ghost start = out@;
    put(out, fixed_str(&v.status));
    put_opt_string(out, &v.result);
    put_opt_u64(out, &v.connection_epoch);
    put_opt_u64(out, &v.received_frame_ordinal);
    put_opt_i64(out, &v.open_at_unix_ms);
    put_opt_i64(out, &v.close_at_unix_ms);
    put_opt_i64(out, &v.settled_at_unix_ms);
    put_opt_i64(out, &v.updated_at_unix_ms);
    assert(out@ =~= start + fx_market_lifecycle(*v));
}

fn put_ticker_part0(out: &mut Vec<u8>, v: &TickerV4)
    ensures
        final(out)@ == old(out)@ + fx_ticker_part0(*v),
{
    reveal(fx_ticker_part0);
    let ghost start = out@;
    put_opt_u64(out, &v.yes_bid_micros);
    put_opt_u64(out, &v.yes_ask_micros);
    put_opt_u64(out, &v.no_bid_micros);
    put_opt_u64(out, &v.no_ask_micros);
    put_opt_u64(out, &v.yes_bid_quantity_hundredths);
    put_opt_u64(out, &v.yes_ask_quantity_hundredths);
    put_opt_u64(out, &v.no_bid_quantity_hundredths);
    put_opt_u64(out, &v.no_ask_quantity_hundredths);
    assert(out@ =~= start + fx_ticker_part0(*v));
}

fn put_ticker_part1(out: &mut Vec<u8>, v: &TickerV4)
    ensures
        final(out)@ == old(out)@ + fx_ticker_part1(*v),
{
    reveal(fx_ticker_part1);
    let ghost start = out@;
    put_opt_u64(out, &v.last_price_micros);
    put_opt_u64(out, &v.last_trade_quantity_hundredths);
    put_opt_u64(out, &v.volume_hundredths);
    put_opt_u64(out, &v.volume_24h_hundredths);
    put_opt_u64(out, &v.open_interest_hundredths);
    put_opt_i64(out, &v.provider_at_unix_ms);
    assert(out@ =~= start + fx_ticker_part1(*v));
}

fn put_ticker(out: &mut Vec<u8>, v: &TickerV4)
    ensures
        final(out)@ == old(out)@ + fx_ticker(*v),
{
    reveal(fx_ticker);
    let ghost start = out@;
    put_ticker_part0(out, v);
    put_ticker_part1(out, v);
    assert(out@ =~= start + fx_ticker(*v));
}

fn put_book_level(out: &mut Vec<u8>, v: &BookLevelV4)
    ensures
        final(out)@ == old(out)@ + fx_book_level(*v),
{
    reveal(fx_book_level);
    let ghost start = out@;
    put(out, fixed_u64(v.price_micros));
    put(out, fixed_u64(v.quantity_hundredths));
    assert(out@ =~= start + fx_book_level(*v));
}

fn put_book(out: &mut Vec<u8>, v: &BookV4)
    ensures
        final(out)@ == old(out)@ + fx_book(*v),
{
    reveal(fx_book);
    let ghost start = out@;
    put_opt_u64(out, &v.connection_epoch);
    put_opt_u64(out, &v.sid);
    put_opt_u64(out, &v.sequence);
    put_opt_i64(out, &v.snapshot_at_unix_ms);
    put(out, wire_bool(v.resync_required));
    put_list_book_level(out, &v.yes_bids);
    put_list_book_level(out, &v.no_bids);
    assert(out@ =~= start + fx_book(*v));
}

fn put_last_trade(out: &mut Vec<u8>, v: &LastTradeV4)
    ensures
        final(out)@ == old(out)@ + fx_last_trade(*v),
{
    reveal(fx_last_trade);
    let ghost start = out@;
    put(out, fixed_str(&v.trade_id));
    put(out, fixed_u64(v.yes_price_micros));
    put(out, fixed_u64(v.no_price_micros));
    put(out, fixed_u64(v.quantity_hundredths));
    put_opt_string(out, &v.taker_side);
    put(out, fixed_i64(v.traded_at_unix_ms));
    assert(out@ =~= start + fx_last_trade(*v));
}

fn put_final_fact(out: &mut Vec<u8>, v: &FinalFactV4)
    ensures
        final(out)@ == old(out)@ + fx_final_fact(*v),
{
    reveal(fx_final_fact);
    let ghost start = out@;
    put(out, fixed_str(&v.status));
    put(out, fixed_str(&v.result));
    put_opt_i64(out, &v.settlement_value_micros);
    put_opt_u64(out, &v.settled_price_micros);
    put_opt_i64(out, &v.provider_at_unix_ms);
    assert(out@ =~= start + fx_final_fact(*v));
}

fn put_market_comparison_part0(out: &mut Vec<u8>, v: &MarketComparisonV4)
    ensures
        final(out)@ == old(out)@ + fx_market_comparison_part0(*v),
{
    reveal(fx_market_comparison_part0);
    let ghost start = out@;
    put(out, fixed_str(&v.source));
    put(out, fixed_str(&v.event_id));
    put(out, fixed_str(&v.event_date));
    put(out, fixed_u64(v.sequence));
    put(out, fixed_i64(v.provider_at_unix_ms));
    put_opt_u64(out, &v.yes_bid_micros);
    put_opt_u64(out, &v.yes_ask_micros);
    put_opt_u64(out, &v.no_bid_micros);
    assert(out@ =~= start + fx_market_comparison_part0(*v));
}

fn put_market_comparison_part1(out: &mut Vec<u8>, v: &MarketComparisonV4)
    ensures
        final(out)@ == old(out)@ + fx_market_comparison_part1(*v),
{
    reveal(fx_market_comparison_part1);
    let ghost start = out@;
    put_opt_u64(out, &v.no_ask_micros);
    put_opt_u64(out, &v.volume_hundredths);
    put(out, wire_array32(&v.evidence_sha256));
    assert(out@ =~= start + fx_market_comparison_part1(*v));
}

fn put_market_comparison(out: &mut Vec<u8>, v: &MarketComparisonV4)
    ensures
        final(out)@ == old(out)@ + fx_market_comparison(*v),
{
    reveal(fx_market_comparison);
    let ghost start = out@;
    put_market_comparison_part0(out, v);
    put_market_comparison_part1(out, v);
    assert(out@ =~= start + fx_market_comparison(*v));
}

fn put_market_part0(out: &mut Vec<u8>, v: &MarketV4)
    ensures
        final(out)@ == old(out)@ + fx_market_part0(*v),
{
    reveal(fx_market_part0);
    let ghost start = out@;
    put(out, fixed_str(&v.contract_version));
    put(out, fixed_u64(v.revision));
    put_market_identity(out, &v.identity);
    put_market_meta(out, &v.lifecycle_meta);
    put_opt_market_lifecycle(out, &v.lifecycle);
    put_market_meta(out, &v.ticker_meta);
    put_opt_ticker(out, &v.ticker);
    put_market_meta(out, &v.book_meta);
    assert(out@ =~= start + fx_market_part0(*v));
}

fn put_market_part1(out: &mut Vec<u8>, v: &MarketV4)
    ensures
        final(out)@ == old(out)@ + fx_market_part1(*v),
{
    reveal(fx_market_part1);
    let ghost start = out@;
    put_opt_book(out, &v.book);
    put_market_meta(out, &v.last_trade_meta);
    put_opt_last_trade(out, &v.last_trade);
    put_market_meta(out, &v.final_fact_meta);
    put_opt_final_fact(out, &v.final_fact);
    put_list_string_provenance_pair(out, &v.field_provenance);
    put_list_evidence(out, &v.evidence);
    put_opt_market_comparison(out, &v.minutetemp_comparison);
    assert(out@ =~= start + fx_market_part1(*v));
}

fn put_market_part2(out: &mut Vec<u8>, v: &MarketV4)
    ensures
        final(out)@ == old(out)@ + fx_market_part2(*v),
{
    reveal(fx_market_part2);
    let ghost start = out@;
    put_list_string(out, &v.uncertain_fields);
    assert(out@ =~= start + fx_market_part2(*v));
}

fn put_market(out: &mut Vec<u8>, v: &MarketV4)
    ensures
        final(out)@ == old(out)@ + fx_market(*v),
{
    reveal(fx_market);
    let ghost start = out@;
    put_market_part0(out, v);
    put_market_part1(out, v);
    put_market_part2(out, v);
    assert(out@ =~= start + fx_market(*v));
}

fn put_opportunity_part0(out: &mut Vec<u8>, v: &OpportunityV4)
    ensures
        final(out)@ == old(out)@ + fx_opportunity_part0(*v),
{
    reveal(fx_opportunity_part0);
    let ghost start = out@;
    put(out, fixed_str(&v.opportunity_id));
    put(out, fixed_str(&v.venue_id));
    put(out, fixed_str(&v.match_profile));
    put(out, fixed_str(&v.resolved_scope));
    put_lifecycle(out, &v.lifecycle);
    put(out, fixed_u64(v.close_time_unix_seconds));
    put_list_string(out, &v.market_ids);
    put_list_string(out, &v.contributor_stations);
    assert(out@ =~= start + fx_opportunity_part0(*v));
}

fn put_opportunity_part1(out: &mut Vec<u8>, v: &OpportunityV4)
    ensures
        final(out)@ == old(out)@ + fx_opportunity_part1(*v),
{
    reveal(fx_opportunity_part1);
    let ghost start = out@;
    put_market_authority(out, &v.authority);
    assert(out@ =~= start + fx_opportunity_part1(*v));
}

fn put_opportunity(out: &mut Vec<u8>, v: &OpportunityV4)
    ensures
        final(out)@ == old(out)@ + fx_opportunity(*v),
{
    reveal(fx_opportunity);
    let ghost start = out@;
    put_opportunity_part0(out, v);
    put_opportunity_part1(out, v);
    assert(out@ =~= start + fx_opportunity(*v));
}

fn put_broker_part0(out: &mut Vec<u8>, v: &BrokerV4)
    ensures
        final(out)@ == old(out)@ + fx_broker_part0(*v),
{
    reveal(fx_broker_part0);
    let ghost start = out@;
    put(out, fixed_u64(v.revision));
    put(out, fixed_str(&v.venue_account_id));
    put(out, fixed_str(&v.sleeve_id));
    put(out, fixed_u64(v.provider_available_balance));
    put(out, fixed_u64(v.locally_reserved_cash));
    put(out, fixed_u64(v.portfolio_value));
    put(out, fixed_u64(v.allowance_limit));
    put(out, fixed_u64(v.current_commitment));
    assert(out@ =~= start + fx_broker_part0(*v));
}

fn put_broker_part1(out: &mut Vec<u8>, v: &BrokerV4)
    ensures
        final(out)@ == old(out)@ + fx_broker_part1(*v),
{
    reveal(fx_broker_part1);
    let ghost start = out@;
    put_gate_status(out, &v.exposure_increase);
    put_gate_status(out, &v.reduce_only_protective);
    put_gate_status(out, &v.cancellation);
    put_gate_status(out, &v.reconciliation_allocation);
    assert(out@ =~= start + fx_broker_part1(*v));
}

fn put_broker(out: &mut Vec<u8>, v: &BrokerV4)
    ensures
        final(out)@ == old(out)@ + fx_broker(*v),
{
    reveal(fx_broker);
    let ghost start = out@;
    put_broker_part0(out, v);
    put_broker_part1(out, v);
    assert(out@ =~= start + fx_broker(*v));
}

fn put_config(out: &mut Vec<u8>, v: &ConfigV4)
    ensures
        final(out)@ == old(out)@ + fx_config(*v),
{
    reveal(fx_config);
    let ghost start = out@;
    put(out, fixed_u64(v.revision));
    put(out, fixed_str(&v.profile_and_calculator_digest));
    assert(out@ =~= start + fx_config(*v));
}

fn put_supervisor(out: &mut Vec<u8>, v: &SupervisorV4)
    ensures
        final(out)@ == old(out)@ + fx_supervisor(*v),
{
    reveal(fx_supervisor);
    let ghost start = out@;
    put(out, fixed_str(&v.sleeve_id));
    put(out, fixed_u64(v.incarnation));
    put(out, fixed_u64(v.process_attempt));
    put(out, fixed_u64(v.route_epoch));
    assert(out@ =~= start + fx_supervisor(*v));
}

fn put_resource_revision(out: &mut Vec<u8>, v: &ResourceRevisionV4)
    ensures
        final(out)@ == old(out)@ + fx_resource_revision(*v),
{
    reveal(fx_resource_revision);
    let ghost start = out@;
    put(out, fixed_str(&v.identity));
    put(out, fixed_u64(v.revision));
    put(out, fixed_u64(v.generation));
    assert(out@ =~= start + fx_resource_revision(*v));
}

fn put_fence_part0(out: &mut Vec<u8>, v: &FenceV4)
    ensures
        final(out)@ == old(out)@ + fx_fence_part0(*v),
{
    reveal(fx_fence_part0);
    let ghost start = out@;
    put(out, fixed_u64(v.sleeve_incarnation));
    put(out, fixed_u64(v.config_revision));
    put(out, fixed_str(&v.profile_and_calculator_digest));
    put(out, fixed_u64(v.route_epoch));
    put(out, wire_array32(&v.route_plan_sha256));
    put(out, fixed_u64(v.source_revision));
    put(out, fixed_u64(v.source_generation));
    put(out, fixed_u64(v.catalog_revision));
    assert(out@ =~= start + fx_fence_part0(*v));
}

fn put_fence_part1(out: &mut Vec<u8>, v: &FenceV4)
    ensures
        final(out)@ == old(out)@ + fx_fence_part1(*v),
{
    reveal(fx_fence_part1);
    let ghost start = out@;
    put(out, fixed_u64(v.market_authority_generation));
    put(out, fixed_u64(v.price_revision));
    put(out, fixed_u64(v.broker_revision));
    put_list_resource_revision(out, &v.station_resources);
    put_list_resource_revision(out, &v.market_revisions);
    assert(out@ =~= start + fx_fence_part1(*v));
}

fn put_fence(out: &mut Vec<u8>, v: &FenceV4)
    ensures
        final(out)@ == old(out)@ + fx_fence(*v),
{
    reveal(fx_fence);
    let ghost start = out@;
    put_fence_part0(out, v);
    put_fence_part1(out, v);
    assert(out@ =~= start + fx_fence(*v));
}

fn put_timer_recovery(out: &mut Vec<u8>, v: &TimerRecoveryV4)
    ensures
        final(out)@ == old(out)@ + fx_timer_recovery(*v),
{
    reveal(fx_timer_recovery);
    let ghost start = out@;
    put(out, fixed_str(&v.key));
    put(out, fixed_u64(v.scheduled_at));
    put(out, fixed_str(&v.generation));
    put(out, wire_u8(v.admission_state));
    assert(out@ =~= start + fx_timer_recovery(*v));
}

fn put_decision_context_part0(out: &mut Vec<u8>, v: &DecisionContextV4)
    ensures
        final(out)@ == old(out)@ + fx_decision_context_part0(*v),
{
    reveal(fx_decision_context_part0);
    let ghost start = out@;
    put(out, fixed_str(&v.delivery_id));
    put_supervisor(out, &v.sleeve);
    put_trigger(out, &v.trigger);
    put_fence(out, &v.fence);
    put_config(out, &v.config);
    put_list_station(out, &v.stations);
    put_opportunity(out, &v.opportunity);
    put_list_market(out, &v.markets);
    assert(out@ =~= start + fx_decision_context_part0(*v));
}

fn put_decision_context_part1(out: &mut Vec<u8>, v: &DecisionContextV4)
    ensures
        final(out)@ == old(out)@ + fx_decision_context_part1(*v),
{
    reveal(fx_decision_context_part1);
    let ghost start = out@;
    put_broker(out, &v.broker);
    put_opt_list_timer_recovery(out, &v.timer_recovery);
    put(out, fixed_u64(v.delivered_at_monotonic_ns));
    put(out, fixed_u64(v.hard_expires_at_monotonic_ns));
    assert(out@ =~= start + fx_decision_context_part1(*v));
}

fn put_decision_context(out: &mut Vec<u8>, v: &DecisionContextV4)
    ensures
        final(out)@ == old(out)@ + fx_decision_context(*v),
{
    reveal(fx_decision_context);
    let ghost start = out@;
    put_decision_context_part0(out, v);
    put_decision_context_part1(out, v);
    assert(out@ =~= start + fx_decision_context(*v));
}

fn put_opt_book(out: &mut Vec<u8>, v: &Option<BookV4>)
    ensures
        final(out)@ == old(out)@ + fx_opt_book(*v),
{
    reveal(fx_opt_book);
    let ghost start = out@;
    match v {
        Some(x) => {
            put(out, wire_u8(1));
            put_book(out, x);
            assert(out@ =~= start + fx_opt_book(*v));
        },
        None => {
            put(out, wire_u8(0));
        },
    }
}

fn put_opt_extreme(out: &mut Vec<u8>, v: &Option<ExtremeV4>)
    ensures
        final(out)@ == old(out)@ + fx_opt_extreme(*v),
{
    reveal(fx_opt_extreme);
    let ghost start = out@;
    match v {
        Some(x) => {
            put(out, wire_u8(1));
            put_extreme(out, x);
            assert(out@ =~= start + fx_opt_extreme(*v));
        },
        None => {
            put(out, wire_u8(0));
        },
    }
}

fn put_opt_final_fact(out: &mut Vec<u8>, v: &Option<FinalFactV4>)
    ensures
        final(out)@ == old(out)@ + fx_opt_final_fact(*v),
{
    reveal(fx_opt_final_fact);
    let ghost start = out@;
    match v {
        Some(x) => {
            put(out, wire_u8(1));
            put_final_fact(out, x);
            assert(out@ =~= start + fx_opt_final_fact(*v));
        },
        None => {
            put(out, wire_u8(0));
        },
    }
}

fn put_opt_last_trade(out: &mut Vec<u8>, v: &Option<LastTradeV4>)
    ensures
        final(out)@ == old(out)@ + fx_opt_last_trade(*v),
{
    reveal(fx_opt_last_trade);
    let ghost start = out@;
    match v {
        Some(x) => {
            put(out, wire_u8(1));
            put_last_trade(out, x);
            assert(out@ =~= start + fx_opt_last_trade(*v));
        },
        None => {
            put(out, wire_u8(0));
        },
    }
}

fn put_opt_market_comparison(out: &mut Vec<u8>, v: &Option<MarketComparisonV4>)
    ensures
        final(out)@ == old(out)@ + fx_opt_market_comparison(*v),
{
    reveal(fx_opt_market_comparison);
    let ghost start = out@;
    match v {
        Some(x) => {
            put(out, wire_u8(1));
            put_market_comparison(out, x);
            assert(out@ =~= start + fx_opt_market_comparison(*v));
        },
        None => {
            put(out, wire_u8(0));
        },
    }
}

fn put_opt_market_lifecycle(out: &mut Vec<u8>, v: &Option<MarketLifecycleV4>)
    ensures
        final(out)@ == old(out)@ + fx_opt_market_lifecycle(*v),
{
    reveal(fx_opt_market_lifecycle);
    let ghost start = out@;
    match v {
        Some(x) => {
            put(out, wire_u8(1));
            put_market_lifecycle(out, x);
            assert(out@ =~= start + fx_opt_market_lifecycle(*v));
        },
        None => {
            put(out, wire_u8(0));
        },
    }
}

fn put_opt_string(out: &mut Vec<u8>, v: &Option<String>)
    ensures
        final(out)@ == old(out)@ + fx_opt_string(*v),
{
    reveal(fx_opt_string);
    let ghost start = out@;
    match v {
        Some(x) => {
            put(out, wire_u8(1));
            put(out, fixed_str(x));
            assert(out@ =~= start + fx_opt_string(*v));
        },
        None => {
            put(out, wire_u8(0));
        },
    }
}

fn put_opt_ticker(out: &mut Vec<u8>, v: &Option<TickerV4>)
    ensures
        final(out)@ == old(out)@ + fx_opt_ticker(*v),
{
    reveal(fx_opt_ticker);
    let ghost start = out@;
    match v {
        Some(x) => {
            put(out, wire_u8(1));
            put_ticker(out, x);
            assert(out@ =~= start + fx_opt_ticker(*v));
        },
        None => {
            put(out, wire_u8(0));
        },
    }
}

fn put_opt_list_timer_recovery(out: &mut Vec<u8>, v: &Option<Vec<TimerRecoveryV4>>)
    ensures
        final(out)@ == old(out)@ + fx_opt_list_timer_recovery(*v),
{
    reveal(fx_opt_list_timer_recovery);
    let ghost start = out@;
    match v {
        Some(x) => {
            put(out, wire_u8(1));
            put_list_timer_recovery(out, x);
            assert(out@ =~= start + fx_opt_list_timer_recovery(*v));
        },
        None => {
            put(out, wire_u8(0));
        },
    }
}

fn put_opt_weather_event_source(out: &mut Vec<u8>, v: &Option<WeatherEventSourceV4>)
    ensures
        final(out)@ == old(out)@ + fx_opt_weather_event_source(*v),
{
    reveal(fx_opt_weather_event_source);
    let ghost start = out@;
    match v {
        Some(x) => {
            put(out, wire_u8(1));
            put_weather_event_source(out, x);
            assert(out@ =~= start + fx_opt_weather_event_source(*v));
        },
        None => {
            put(out, wire_u8(0));
        },
    }
}

fn put_opt_bool(out: &mut Vec<u8>, v: &Option<bool>)
    ensures
        final(out)@ == old(out)@ + fx_opt_bool(*v),
{
    reveal(fx_opt_bool);
    let ghost start = out@;
    match v {
        Some(x) => {
            put(out, wire_u8(1));
            put(out, wire_bool(*x));
            assert(out@ =~= start + fx_opt_bool(*v));
        },
        None => {
            put(out, wire_u8(0));
        },
    }
}

fn put_opt_i32(out: &mut Vec<u8>, v: &Option<i32>)
    ensures
        final(out)@ == old(out)@ + fx_opt_i32(*v),
{
    reveal(fx_opt_i32);
    let ghost start = out@;
    match v {
        Some(x) => {
            put(out, wire_u8(1));
            put(out, fixed_i32(*x));
            assert(out@ =~= start + fx_opt_i32(*v));
        },
        None => {
            put(out, wire_u8(0));
        },
    }
}

fn put_opt_i64(out: &mut Vec<u8>, v: &Option<i64>)
    ensures
        final(out)@ == old(out)@ + fx_opt_i64(*v),
{
    reveal(fx_opt_i64);
    let ghost start = out@;
    match v {
        Some(x) => {
            put(out, wire_u8(1));
            put(out, fixed_i64(*x));
            assert(out@ =~= start + fx_opt_i64(*v));
        },
        None => {
            put(out, wire_u8(0));
        },
    }
}

fn put_opt_u16(out: &mut Vec<u8>, v: &Option<u16>)
    ensures
        final(out)@ == old(out)@ + fx_opt_u16(*v),
{
    reveal(fx_opt_u16);
    let ghost start = out@;
    match v {
        Some(x) => {
            put(out, wire_u8(1));
            put(out, fixed_u16(*x));
            assert(out@ =~= start + fx_opt_u16(*v));
        },
        None => {
            put(out, wire_u8(0));
        },
    }
}

fn put_opt_u64(out: &mut Vec<u8>, v: &Option<u64>)
    ensures
        final(out)@ == old(out)@ + fx_opt_u64(*v),
{
    reveal(fx_opt_u64);
    let ghost start = out@;
    match v {
        Some(x) => {
            put(out, wire_u8(1));
            put(out, fixed_u64(*x));
            assert(out@ =~= start + fx_opt_u64(*v));
        },
        None => {
            put(out, wire_u8(0));
        },
    }
}

fn put_string_provenance_pair(out: &mut Vec<u8>, v: &(String, ProvenanceV4))
    ensures
        final(out)@ == old(out)@ + fx_string_provenance_pair(*v),
{
    reveal(fx_string_provenance_pair);
    let ghost start = out@;
    put(out, fixed_str(&v.0));
    put_provenance(out, &v.1);
    assert(out@ =~= start + fx_string_provenance_pair(*v));
}

fn put_string_string_pair(out: &mut Vec<u8>, v: &(String, String))
    ensures
        final(out)@ == old(out)@ + fx_string_string_pair(*v),
{
    reveal(fx_string_string_pair);
    let ghost start = out@;
    put(out, fixed_str(&v.0));
    put(out, fixed_str(&v.1));
    assert(out@ =~= start + fx_string_string_pair(*v));
}

fn put_list_string_provenance_pair(out: &mut Vec<u8>, s: &Vec<(String, ProvenanceV4)>)
    ensures
        final(out)@ == old(out)@ + fx_list(s@, fx_string_provenance_pair_encoder()),
{
    let ghost start = out@;
    put(out, fixed_u64(s.len() as u64));
    let mut i: usize = 0;
    while i < s.len()
        invariant
            0 <= i <= s@.len(),
            out@ == start + be_u64(s@.len() as u64) + wire_items(s@.take(i as int), fx_string_provenance_pair_encoder()),
        decreases s@.len() - i,
    {
        put_string_provenance_pair(out, &s[i]);
        assert(s@.take(i + 1).drop_last() =~= s@.take(i as int));
        i += 1;
    }
    assert(s@.take(s@.len() as int) =~= s@);
}

fn put_list_string_string_pair(out: &mut Vec<u8>, s: &Vec<(String, String)>)
    ensures
        final(out)@ == old(out)@ + fx_list(s@, fx_string_string_pair_encoder()),
{
    let ghost start = out@;
    put(out, fixed_u64(s.len() as u64));
    let mut i: usize = 0;
    while i < s.len()
        invariant
            0 <= i <= s@.len(),
            out@ == start + be_u64(s@.len() as u64) + wire_items(s@.take(i as int), fx_string_string_pair_encoder()),
        decreases s@.len() - i,
    {
        put_string_string_pair(out, &s[i]);
        assert(s@.take(i + 1).drop_last() =~= s@.take(i as int));
        i += 1;
    }
    assert(s@.take(s@.len() as int) =~= s@);
}

fn put_list_book_level(out: &mut Vec<u8>, s: &Vec<BookLevelV4>)
    ensures
        final(out)@ == old(out)@ + fx_list(s@, fx_book_level_encoder()),
{
    let ghost start = out@;
    put(out, fixed_u64(s.len() as u64));
    let mut i: usize = 0;
    while i < s.len()
        invariant
            0 <= i <= s@.len(),
            out@ == start + be_u64(s@.len() as u64) + wire_items(s@.take(i as int), fx_book_level_encoder()),
        decreases s@.len() - i,
    {
        put_book_level(out, &s[i]);
        assert(s@.take(i + 1).drop_last() =~= s@.take(i as int));
        i += 1;
    }
    assert(s@.take(s@.len() as int) =~= s@);
}

fn put_list_evidence(out: &mut Vec<u8>, s: &Vec<EvidenceV4>)
    ensures
        final(out)@ == old(out)@ + fx_list(s@, fx_evidence_encoder()),
{
    let ghost start = out@;
    put(out, fixed_u64(s.len() as u64));
    let mut i: usize = 0;
    while i < s.len()
        invariant
            0 <= i <= s@.len(),
            out@ == start + be_u64(s@.len() as u64) + wire_items(s@.take(i as int), fx_evidence_encoder()),
        decreases s@.len() - i,
    {
        put_evidence(out, &s[i]);
        assert(s@.take(i + 1).drop_last() =~= s@.take(i as int));
        i += 1;
    }
    assert(s@.take(s@.len() as int) =~= s@);
}

fn put_list_forecast_model(out: &mut Vec<u8>, s: &Vec<ForecastModelV4>)
    ensures
        final(out)@ == old(out)@ + fx_list(s@, fx_forecast_model_encoder()),
{
    let ghost start = out@;
    put(out, fixed_u64(s.len() as u64));
    let mut i: usize = 0;
    while i < s.len()
        invariant
            0 <= i <= s@.len(),
            out@ == start + be_u64(s@.len() as u64) + wire_items(s@.take(i as int), fx_forecast_model_encoder()),
        decreases s@.len() - i,
    {
        put_forecast_model(out, &s[i]);
        assert(s@.take(i + 1).drop_last() =~= s@.take(i as int));
        i += 1;
    }
    assert(s@.take(s@.len() as int) =~= s@);
}

fn put_list_forecast_point(out: &mut Vec<u8>, s: &Vec<ForecastPointV4>)
    ensures
        final(out)@ == old(out)@ + fx_list(s@, fx_forecast_point_encoder()),
{
    let ghost start = out@;
    put(out, fixed_u64(s.len() as u64));
    let mut i: usize = 0;
    while i < s.len()
        invariant
            0 <= i <= s@.len(),
            out@ == start + be_u64(s@.len() as u64) + wire_items(s@.take(i as int), fx_forecast_point_encoder()),
        decreases s@.len() - i,
    {
        put_forecast_point(out, &s[i]);
        assert(s@.take(i + 1).drop_last() =~= s@.take(i as int));
        i += 1;
    }
    assert(s@.take(s@.len() as int) =~= s@);
}

fn put_list_market(out: &mut Vec<u8>, s: &Vec<MarketV4>)
    ensures
        final(out)@ == old(out)@ + fx_list(s@, fx_market_encoder()),
{
    let ghost start = out@;
    put(out, fixed_u64(s.len() as u64));
    let mut i: usize = 0;
    while i < s.len()
        invariant
            0 <= i <= s@.len(),
            out@ == start + be_u64(s@.len() as u64) + wire_items(s@.take(i as int), fx_market_encoder()),
        decreases s@.len() - i,
    {
        put_market(out, &s[i]);
        assert(s@.take(i + 1).drop_last() =~= s@.take(i as int));
        i += 1;
    }
    assert(s@.take(s@.len() as int) =~= s@);
}

fn put_list_oracle_row(out: &mut Vec<u8>, s: &Vec<OracleRowV4>)
    ensures
        final(out)@ == old(out)@ + fx_list(s@, fx_oracle_row_encoder()),
{
    let ghost start = out@;
    put(out, fixed_u64(s.len() as u64));
    let mut i: usize = 0;
    while i < s.len()
        invariant
            0 <= i <= s@.len(),
            out@ == start + be_u64(s@.len() as u64) + wire_items(s@.take(i as int), fx_oracle_row_encoder()),
        decreases s@.len() - i,
    {
        put_oracle_row(out, &s[i]);
        assert(s@.take(i + 1).drop_last() =~= s@.take(i as int));
        i += 1;
    }
    assert(s@.take(s@.len() as int) =~= s@);
}

fn put_list_provenance(out: &mut Vec<u8>, s: &Vec<ProvenanceV4>)
    ensures
        final(out)@ == old(out)@ + fx_list(s@, fx_provenance_encoder()),
{
    let ghost start = out@;
    put(out, fixed_u64(s.len() as u64));
    let mut i: usize = 0;
    while i < s.len()
        invariant
            0 <= i <= s@.len(),
            out@ == start + be_u64(s@.len() as u64) + wire_items(s@.take(i as int), fx_provenance_encoder()),
        decreases s@.len() - i,
    {
        put_provenance(out, &s[i]);
        assert(s@.take(i + 1).drop_last() =~= s@.take(i as int));
        i += 1;
    }
    assert(s@.take(s@.len() as int) =~= s@);
}

fn put_list_report(out: &mut Vec<u8>, s: &Vec<ReportV4>)
    ensures
        final(out)@ == old(out)@ + fx_list(s@, fx_report_encoder()),
{
    let ghost start = out@;
    put(out, fixed_u64(s.len() as u64));
    let mut i: usize = 0;
    while i < s.len()
        invariant
            0 <= i <= s@.len(),
            out@ == start + be_u64(s@.len() as u64) + wire_items(s@.take(i as int), fx_report_encoder()),
        decreases s@.len() - i,
    {
        put_report(out, &s[i]);
        assert(s@.take(i + 1).drop_last() =~= s@.take(i as int));
        i += 1;
    }
    assert(s@.take(s@.len() as int) =~= s@);
}

fn put_list_resource_revision(out: &mut Vec<u8>, s: &Vec<ResourceRevisionV4>)
    ensures
        final(out)@ == old(out)@ + fx_list(s@, fx_resource_revision_encoder()),
{
    let ghost start = out@;
    put(out, fixed_u64(s.len() as u64));
    let mut i: usize = 0;
    while i < s.len()
        invariant
            0 <= i <= s@.len(),
            out@ == start + be_u64(s@.len() as u64) + wire_items(s@.take(i as int), fx_resource_revision_encoder()),
        decreases s@.len() - i,
    {
        put_resource_revision(out, &s[i]);
        assert(s@.take(i + 1).drop_last() =~= s@.take(i as int));
        i += 1;
    }
    assert(s@.take(s@.len() as int) =~= s@);
}

fn put_list_station(out: &mut Vec<u8>, s: &Vec<StationV4>)
    ensures
        final(out)@ == old(out)@ + fx_list(s@, fx_station_encoder()),
{
    let ghost start = out@;
    put(out, fixed_u64(s.len() as u64));
    let mut i: usize = 0;
    while i < s.len()
        invariant
            0 <= i <= s@.len(),
            out@ == start + be_u64(s@.len() as u64) + wire_items(s@.take(i as int), fx_station_encoder()),
        decreases s@.len() - i,
    {
        put_station(out, &s[i]);
        assert(s@.take(i + 1).drop_last() =~= s@.take(i as int));
        i += 1;
    }
    assert(s@.take(s@.len() as int) =~= s@);
}

fn put_list_string(out: &mut Vec<u8>, s: &Vec<String>)
    ensures
        final(out)@ == old(out)@ + fx_list(s@, fx_string_encoder()),
{
    let ghost start = out@;
    put(out, fixed_u64(s.len() as u64));
    let mut i: usize = 0;
    while i < s.len()
        invariant
            0 <= i <= s@.len(),
            out@ == start + be_u64(s@.len() as u64) + wire_items(s@.take(i as int), fx_string_encoder()),
        decreases s@.len() - i,
    {
        put(out, fixed_str(&s[i]));
        assert(s@.take(i + 1).drop_last() =~= s@.take(i as int));
        i += 1;
    }
    assert(s@.take(s@.len() as int) =~= s@);
}

fn put_list_timer_recovery(out: &mut Vec<u8>, s: &Vec<TimerRecoveryV4>)
    ensures
        final(out)@ == old(out)@ + fx_list(s@, fx_timer_recovery_encoder()),
{
    let ghost start = out@;
    put(out, fixed_u64(s.len() as u64));
    let mut i: usize = 0;
    while i < s.len()
        invariant
            0 <= i <= s@.len(),
            out@ == start + be_u64(s@.len() as u64) + wire_items(s@.take(i as int), fx_timer_recovery_encoder()),
        decreases s@.len() - i,
    {
        put_timer_recovery(out, &s[i]);
        assert(s@.take(i + 1).drop_last() =~= s@.take(i as int));
        i += 1;
    }
    assert(s@.take(s@.len() as int) =~= s@);
}

fn put_list_weather_event(out: &mut Vec<u8>, s: &Vec<WeatherEventV4>)
    ensures
        final(out)@ == old(out)@ + fx_list(s@, fx_weather_event_encoder()),
{
    let ghost start = out@;
    put(out, fixed_u64(s.len() as u64));
    let mut i: usize = 0;
    while i < s.len()
        invariant
            0 <= i <= s@.len(),
            out@ == start + be_u64(s@.len() as u64) + wire_items(s@.take(i as int), fx_weather_event_encoder()),
        decreases s@.len() - i,
    {
        put_weather_event(out, &s[i]);
        assert(s@.take(i + 1).drop_last() =~= s@.take(i as int));
        i += 1;
    }
    assert(s@.take(s@.len() as int) =~= s@);
}

// ---------------------------------------------------------------------------------------------
// Encoding
// ---------------------------------------------------------------------------------------------

/// Encodes a valid context under the V4 magic, within the context bound. Fails with the
/// context's error when it is not valid, and with `BoundExceeded` when the bytes would exceed
/// `MAX_DECISION_CONTEXT_V4_BYTES`.
pub fn encode_decision_context_v4(context: &DecisionContextV4) -> (r: Result<
    Vec<u8>,
    DecisionV4Error,
>)
    ensures
        match context_v4_verdict(*context, MAX_POINTS_PER_MODEL as nat) {
            Err(e) => r == Err::<Vec<u8>, DecisionV4Error>(e),
            Ok(_) => if 8 + fx_decision_context(*context).len() > MAX_DECISION_CONTEXT_V4_BYTES {
                r == Err::<Vec<u8>, DecisionV4Error>(DecisionV4Error::BoundExceeded)
            } else {
                r matches Ok(b) && b@ == DECISION_CONTEXT_V4_MAGIC@ + fx_decision_context(*context)
            },
        },
{
    match context.validate() {
        Err(e) => {
            return Err(e);
        },
        Ok(()) => {},
    }
    let mut body: Vec<u8> = Vec::new();
    put_decision_context(&mut body, context);
    if body.len() > MAX_DECISION_CONTEXT_V4_BYTES - 8 {
        return Err(DecisionV4Error::BoundExceeded);
    }
    let mut encoded: Vec<u8> = Vec::new();
    extend(&mut encoded, &DECISION_CONTEXT_V4_MAGIC);
    extend(&mut encoded, body.as_slice());
    Ok(encoded)
}


} // verus!
