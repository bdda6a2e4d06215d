//! Decision Context V4: the bounded, self-contained Trader-to-Strategy state contract.
//!
//! Every collection is ordered before construction; the context holds named typed fields
//! rather than provider payloads or lookup references.
use crate::digest::{be_u64, sha256, sha256_digest};
use crate::text::{byte_len, hex_digest, spec_hex, utf8};
use crate::wire::{fixed_str, fixed_str_spec, fixed_u64, put};
use vstd::prelude::*;

verus! {

pub const DECISION_CONTEXT_V4_MAGIC: [u8; 8] = [83, 68, 67, 84, 88, 86, 52, 0];
pub const MAX_DECISION_CONTEXT_V4_BYTES: usize = 16 * 1024 * 1024;
pub const MAX_STATIONS: usize = 5;
pub const MAX_MARKETS: usize = 128;
pub const MAX_MODELS_PER_STATION: usize = 32;
pub const MAX_POINTS_PER_MODEL: usize = 100;
pub const MAX_BOOK_LEVELS_PER_SIDE: usize = 128;
pub const MAX_ORACLE_ROWS: usize = 32;
pub const MAX_REPORTS: usize = 8;
pub const MAX_WEATHER_EVENTS: usize = 32;
pub const MAX_EVIDENCE_REFERENCES: usize = 16;
pub const MAX_PROVENANCE_PER_COMPONENT: usize = 4;

#[derive(Clone, Copy, Debug, Eq, PartialEq)]
pub enum DecisionV4Error {
    Encode,
    Decode,
    BoundExceeded,
    TrailingBytes,
    InvalidContract,
}

#[derive(Clone, Debug, Eq, PartialEq)]
pub enum TriggerV4 {
    Weather {
        station_id: String,
        source_generation: u64,
        source_sequence: u64,
    },
    StationReport {
        station_id: String,
        report_id: String,
        report_type: String,
        report_revision: u64,
        provider: String,
        source_generation: u64,
        source_sequence: u64,
    },
    MarketPrice {
        market_id: String,
        price_revision: u64,
    },
    Timer {
        key: String,
    },
    Bootstrap,
    Recovery,
}
#[derive(Clone, Debug, Eq, PartialEq)]
pub enum AuthorityV4 {
    Warming,
    Current,
    RefreshPending,
    Uncertain,
    Unavailable,
}
#[derive(Clone, Debug, Eq, PartialEq)]
pub enum RankByV4 {
    High,
    Low,
}
#[derive(Clone, Debug, Eq, PartialEq)]
pub enum LifecycleV4 {
    Discovered,
    Hydrating,
    Eligible,
    Uncertain,
    Ineligible,
    Terminal,
}
#[derive(Clone, Debug, Eq, PartialEq)]
pub enum MarketAuthorityV4 {
    Current,
    Uncertain,
}
#[derive(Clone, Debug, Eq, PartialEq)]
pub enum GateStatusV4 {
    Open,
    ClosedFinanceUnavailable,
    ClosedAdmissionDenied,
    ClosedRecoveryRequired,
}

#[derive(Clone, Debug, Default, Eq, PartialEq)]
pub struct ProvenanceV4 {
    pub provider: String,
    pub source: String,
    pub event_id: Option<String>,
    pub connection_epoch: Option<u64>,
    pub sid: Option<u64>,
    pub sequence: Option<u64>,
    pub city_sequence: Option<u64>,
    pub producer_sequence: Option<u64>,
    pub received_frame_ordinal: Option<u64>,
    pub provider_at_unix_ms: Option<i64>,
    pub received_at_unix_ms: i64,
}
#[derive(Clone, Debug, Default, Eq, PartialEq)]
pub struct EvidenceV4 {
    pub kind: String,
    pub sha256: [u8; 32],
    pub reference: String,
    pub byte_count: u64,
}
#[derive(Clone, Debug, Default, Eq, PartialEq)]
pub struct ComponentMetaV4 {
    pub authority: AuthorityV4,
    pub revision: u64,
    pub generation: u64,
    pub updated_at_unix_ms: Option<i64>,
    pub expected_version: Option<String>,
    pub provenance: Vec<ProvenanceV4>,
    pub refresh_error: Option<String>,
}

#[derive(Clone, Debug, Default, Eq, PartialEq)]
pub struct StationIdentityV4 {
    pub station_id: String,
    pub city_id: Option<String>,
    pub city_slug: Option<String>,
    pub logical_location: String,
    pub name: Option<String>,
    pub latitude_micros: Option<i64>,
    pub longitude_micros: Option<i64>,
    pub timezone: String,
}
#[derive(Clone, Debug, Default, Eq, PartialEq)]
pub struct ObservationV4 {
    pub station_id: String,
    pub observed_at_unix_ms: i64,
    pub source_timestamp_unix_ms: Option<i64>,
    pub producer_received_at_unix_ms: Option<i64>,
    pub live_published_at_unix_ms: Option<i64>,
    pub lag_ms: Option<i64>,
    pub preliminary: bool,
    pub persistence_status: Option<String>,
    pub temperature_milli_c: Option<i32>,
    pub temperature_min_milli_c: Option<i32>,
    pub temperature_max_milli_c: Option<i32>,
    pub wu_current_temperature_milli_c: Option<i32>,
    pub wu_daily_high_milli_c: Option<i32>,
    pub wu_daily_low_milli_c: Option<i32>,
    pub wu_observation_at_unix_ms: Option<i64>,
    pub wu_fetched_at_unix_ms: Option<i64>,
    pub temperature_day_mode: Option<String>,
    pub temperature_day_date: Option<String>,
    pub wu_day_mode: Option<String>,
    pub wu_day_date: Option<String>,
    pub is_from_report: bool,
    pub report_type: Option<String>,
    pub source_report_id: Option<String>,
    pub dewpoint_micros: Option<i64>,
    pub heat_index_micros: Option<i64>,
    pub wind_chill_micros: Option<i64>,
    pub relative_humidity_micros: Option<i64>,
    pub wind_speed_micros: Option<i64>,
    pub wind_direction_micros: Option<i64>,
    pub wind_gust_micros: Option<i64>,
    pub text_description: Option<String>,
    pub provenance: ProvenanceV4,
}
#[derive(Clone, Debug, Default, Eq, PartialEq)]
pub struct WeatherV4 {
    pub station_id: String,
    pub current_temperature_milli_c: Option<i32>,
    pub running_high_milli_c: Option<i32>,
    pub running_low_milli_c: Option<i32>,
    pub last_metar_at_unix_ms: Option<i64>,
    pub dsm_high_milli_c: Option<i32>,
    pub dsm_low_milli_c: Option<i32>,
    pub dsm_high_at_unix_ms: Option<i64>,
    pub dsm_low_at_unix_ms: Option<i64>,
    pub six_hour_high_milli_c: Option<i32>,
    pub six_hour_low_milli_c: Option<i32>,
    pub asos_daily_high_milli_c: Option<i32>,
    pub asos_daily_low_milli_c: Option<i32>,
    pub wu_current_temperature_milli_c: Option<i32>,
    pub wu_daily_high_milli_c: Option<i32>,
    pub wu_daily_low_milli_c: Option<i32>,
    pub dewpoint_micros: Option<i64>,
    pub heat_index_micros: Option<i64>,
    pub wind_chill_micros: Option<i64>,
    pub relative_humidity_micros: Option<i64>,
    pub wind_speed_micros: Option<i64>,
    pub wind_direction_micros: Option<i64>,
    pub wind_gust_micros: Option<i64>,
    pub text_description: Option<String>,
    pub preliminary: bool,
}
#[derive(Clone, Debug, Default, Eq, PartialEq)]
pub struct ExtremeV4 {
    pub value_milli_c: i32,
    pub previous_value_milli_c: Option<i32>,
    pub observed_at_unix_ms: Option<i64>,
    pub temperature_day_mode: Option<String>,
    pub temperature_day_date: Option<String>,
    pub is_from_report: bool,
    pub report_type: Option<String>,
    pub source_report_id: Option<String>,
    pub provenance: ProvenanceV4,
}
#[derive(Clone, Debug, Default, Eq, PartialEq)]
pub struct ExtremaV4 {
    pub high: Option<ExtremeV4>,
    pub low: Option<ExtremeV4>,
}
#[derive(Clone, Debug, Default, Eq, PartialEq)]
pub struct ReportV4 {
    pub report_id: String,
    pub report_type: String,
    pub report_date: String,
    pub authority: AuthorityV4,
    pub revision: u64,
    pub generation: u64,
    pub issued_at_unix_ms: Option<i64>,
    pub updated_at_unix_ms: Option<i64>,
    pub fetched_at_unix_ms: Option<i64>,
    pub provider: String,
    pub source_url: String,
    pub max_temperature_milli_c: Option<i32>,
    pub min_temperature_milli_c: Option<i32>,
    pub temperature_milli_c: Option<i32>,
    pub temperature_milli_f: Option<i32>,
    pub max_temperature_at_unix_ms: Option<i64>,
    pub min_temperature_at_unix_ms: Option<i64>,
    pub provenance: ProvenanceV4,
}
#[derive(Clone, Debug, Default, Eq, PartialEq)]
pub struct WeatherEventSourceV4 {
    pub metar_type: Option<String>,
    pub flight_category: Option<String>,
    pub wx_string: Option<String>,
    pub wx_token: Option<String>,
    pub wind_speed_knots_micros: Option<i64>,
    pub wind_gust_knots_micros: Option<i64>,
    pub peak_wind_knots_micros: Option<i64>,
    pub peak_wind_direction: Option<i64>,
    pub visibility_miles_micros: Option<i64>,
    pub cb_location: Option<String>,
}
#[derive(Clone, Debug, Default, Eq, PartialEq)]
pub struct WeatherEventV4 {
    pub event_id: String,
    pub event_type: String,
    pub tier: String,
    pub state: String,
    pub authority: AuthorityV4,
    pub revision: u64,
    pub generation: u64,
    pub name: String,
    pub badge: String,
    pub detail: String,
    pub summary: String,
    pub started_at_unix_ms: Option<i64>,
    pub last_confirmed_at_unix_ms: Option<i64>,
    pub ended_at_unix_ms: Option<i64>,
    pub source: Option<WeatherEventSourceV4>,
    pub provenance: ProvenanceV4,
}
#[derive(Clone, Debug, Default, Eq, PartialEq)]
pub struct ForecastPointV4 {
    pub at_unix_ms: i64,
    pub temperature_milli_c: Option<i32>,
    pub apparent_temperature_milli_c: Option<i32>,
    pub humidity_millionths: Option<i64>,
    pub dew_point_milli_c: Option<i32>,
    pub pressure_msl_micros: Option<i64>,
    pub wind_speed_micros: Option<i64>,
    pub wind_direction_degrees: Option<i32>,
    pub wind_gust_micros: Option<i64>,
    pub cloud_cover_millionths: Option<i64>,
    pub precipitation_probability_millionths: Option<i64>,
    pub weather_code: Option<i32>,
}
#[derive(Clone, Debug, Default, Eq, PartialEq)]
pub struct ForecastModelV4 {
    pub model_id: String,
    pub version: String,
    pub run_id: Option<String>,
    pub fetched_at_unix_ms: Option<i64>,
    pub issued_at_unix_ms: Option<i64>,
    pub timezone: Option<String>,
    pub utc_offset_seconds: Option<i32>,
    pub hourly: Vec<ForecastPointV4>,
}
#[derive(Clone, Debug, Default, Eq, PartialEq)]
pub struct ForecastV4 {
    pub advertised_versions: Vec<(String, String)>,
    pub models: Vec<ForecastModelV4>,
}
#[derive(Clone, Debug, Default, Eq, PartialEq)]
pub struct OracleQueryV4 {
    pub station_id: String,
    pub mode: String,
    pub rank_by: RankByV4,
    pub days: u8,
}
#[derive(Clone, Debug, Default, Eq, PartialEq)]
pub struct OracleRowV4 {
    pub rank: u8,
    pub model_id: String,
    pub model_name: String,
    pub is_public: Option<bool>,
    pub high_mae_millionths: Option<i64>,
    pub low_mae_millionths: Option<i64>,
    pub combined_mae_millionths: Option<i64>,
    pub high_bias_millionths: Option<i64>,
    pub low_bias_millionths: Option<i64>,
    pub day_count: Option<u16>,
}
#[derive(Clone, Debug, Default, Eq, PartialEq)]
pub struct OracleTableV4 {
    pub query: OracleQueryV4,
    pub range_start: String,
    pub range_end: String,
    pub updated_at_unix_ms: Option<i64>,
    pub rows: Vec<OracleRowV4>,
    pub provenance: ProvenanceV4,
}
#[derive(Clone, Debug, Default, Eq, PartialEq)]
pub struct CursorV4 {
    pub connection_generation: u64,
    pub event_id: String,
    pub sequence: u64,
    pub city_sequence: Option<u64>,
    pub emitted_at_unix_ms: i64,
    pub received_at_unix_ms: i64,
    pub snapshot_complete: bool,
}
#[derive(Clone, Debug, Default, Eq, PartialEq)]
pub struct StationV4 {
    pub contract_version: String,
    pub revision: u64,
    pub climate_event_date: String,
    pub climate_day_start_utc_unix_ms: i64,
    pub climate_day_end_utc_unix_ms: i64,
    pub identity: StationIdentityV4,
    pub observation_meta: ComponentMetaV4,
    pub observation: ObservationV4,
    pub weather_meta: ComponentMetaV4,
    pub weather: WeatherV4,
    pub extrema_meta: ComponentMetaV4,
    pub extrema: ExtremaV4,
    pub reports_meta: ComponentMetaV4,
    pub reports: Vec<ReportV4>,
    pub weather_events_meta: ComponentMetaV4,
    pub weather_events: Vec<WeatherEventV4>,
    pub forecast_meta: ComponentMetaV4,
    pub forecast: ForecastV4,
    pub oracle_meta: ComponentMetaV4,
    pub oracle: OracleTableV4,
    pub provider_cursor: CursorV4,
    pub evidence: Vec<EvidenceV4>,
}

#[derive(Clone, Debug, Default, Eq, PartialEq)]
pub struct MarketMetaV4 {
    pub authority: AuthorityV4,
    pub revision: u64,
    pub generation: u64,
    pub updated_at_unix_ms: Option<i64>,
    pub expected_version: Option<String>,
    pub refresh_error: Option<String>,
    pub provenance: Vec<ProvenanceV4>,
}
#[derive(Clone, Debug, Default, Eq, PartialEq)]
pub struct MarketIdentityV4 {
    pub market_id: String,
    pub opportunity_id: String,
    pub venue: String,
    pub event_ticker: String,
    pub series_ticker: String,
    pub strike_type: String,
    pub fee_type: String,
    pub fee_multiplier_millionths: Option<i64>,
    pub floor_strike_milli_c: Option<i64>,
    pub floor_strike_milli_f: Option<i64>,
    pub cap_strike_milli_c: Option<i64>,
    pub close_at_unix_ms: Option<i64>,
    pub expiration_at_unix_ms: Option<i64>,
}
#[derive(Clone, Debug, Default, Eq, PartialEq)]
pub struct MarketLifecycleV4 {
    pub status: String,
    pub result: Option<String>,
    pub connection_epoch: Option<u64>,
    pub received_frame_ordinal: Option<u64>,
    pub open_at_unix_ms: Option<i64>,
    pub close_at_unix_ms: Option<i64>,
    pub settled_at_unix_ms: Option<i64>,
    pub updated_at_unix_ms: Option<i64>,
}
#[derive(Clone, Debug, Default, Eq, PartialEq)]
pub struct TickerV4 {
    pub yes_bid_micros: Option<u64>,
    pub yes_ask_micros: Option<u64>,
    pub no_bid_micros: Option<u64>,
    pub no_ask_micros: Option<u64>,
    pub yes_bid_quantity_hundredths: Option<u64>,
    pub yes_ask_quantity_hundredths: Option<u64>,
    pub no_bid_quantity_hundredths: Option<u64>,
    pub no_ask_quantity_hundredths: Option<u64>,
    pub last_price_micros: Option<u64>,
    pub last_trade_quantity_hundredths: Option<u64>,
    pub volume_hundredths: Option<u64>,
    pub volume_24h_hundredths: Option<u64>,
    pub open_interest_hundredths: Option<u64>,
    pub provider_at_unix_ms: Option<i64>,
}
#[derive(Clone, Debug, Default, Eq, PartialEq)]
pub struct BookLevelV4 {
    pub price_micros: u64,
    pub quantity_hundredths: u64,
}
#[derive(Clone, Debug, Default, Eq, PartialEq)]
pub struct BookV4 {
    pub connection_epoch: Option<u64>,
    pub sid: Option<u64>,
    pub sequence: Option<u64>,
    pub snapshot_at_unix_ms: Option<i64>,
    pub resync_required: bool,
    pub yes_bids: Vec<BookLevelV4>,
    pub no_bids: Vec<BookLevelV4>,
}
#[derive(Clone, Debug, Default, Eq, PartialEq)]
pub struct LastTradeV4 {
    pub trade_id: String,
    pub yes_price_micros: u64,
    pub no_price_micros: u64,
    pub quantity_hundredths: u64,
    pub taker_side: Option<String>,
    pub traded_at_unix_ms: i64,
}
#[derive(Clone, Debug, Default, Eq, PartialEq)]
pub struct FinalFactV4 {
    pub status: String,
    pub result: String,
    pub settlement_value_micros: Option<i64>,
    pub settled_price_micros: Option<u64>,
    pub provider_at_unix_ms: Option<i64>,
}
#[derive(Clone, Debug, Default, Eq, PartialEq)]
pub struct MarketComparisonV4 {
    pub source: String,
    pub event_id: String,
    pub event_date: String,
    pub sequence: u64,
    pub provider_at_unix_ms: i64,
    pub yes_bid_micros: Option<u64>,
    pub yes_ask_micros: Option<u64>,
    pub no_bid_micros: Option<u64>,
    pub no_ask_micros: Option<u64>,
    pub volume_hundredths: Option<u64>,
    pub evidence_sha256: [u8; 32],
}
#[derive(Clone, Debug, Default, Eq, PartialEq)]
pub struct MarketV4 {
    pub contract_version: String,
    pub revision: u64,
    pub identity: MarketIdentityV4,
    pub lifecycle_meta: MarketMetaV4,
    pub lifecycle: Option<MarketLifecycleV4>,
    pub ticker_meta: MarketMetaV4,
    pub ticker: Option<TickerV4>,
    pub book_meta: MarketMetaV4,
    pub book: Option<BookV4>,
    pub last_trade_meta: MarketMetaV4,
    pub last_trade: Option<LastTradeV4>,
    pub final_fact_meta: MarketMetaV4,
    pub final_fact: Option<FinalFactV4>,
    pub field_provenance: Vec<(String, ProvenanceV4)>,
    pub evidence: Vec<EvidenceV4>,
    pub minutetemp_comparison: Option<MarketComparisonV4>,
    pub uncertain_fields: Vec<String>,
}

#[derive(Clone, Debug, Default, Eq, PartialEq)]
pub struct OpportunityV4 {
    pub opportunity_id: String,
    pub venue_id: String,
    pub match_profile: String,
    pub resolved_scope: String,
    pub lifecycle: LifecycleV4,
    pub close_time_unix_seconds: u64,
    pub market_ids: Vec<String>,
    pub contributor_stations: Vec<String>,
    pub authority: MarketAuthorityV4,
}
#[derive(Clone, Debug, Default, Eq, PartialEq)]
pub struct BrokerV4 {
    pub revision: u64,
    pub venue_account_id: String,
    pub sleeve_id: String,
    pub provider_available_balance: u64,
    pub locally_reserved_cash: u64,
    pub portfolio_value: u64,
    pub allowance_limit: u64,
    pub current_commitment: u64,
    pub exposure_increase: GateStatusV4,
    pub reduce_only_protective: GateStatusV4,
    pub cancellation: GateStatusV4,
    pub reconciliation_allocation: GateStatusV4,
}
#[derive(Clone, Debug, Default, Eq, PartialEq)]
pub struct ConfigV4 {
    pub revision: u64,
    pub profile_and_calculator_digest: String,
}
#[derive(Clone, Debug, Default, Eq, PartialEq)]
pub struct SupervisorV4 {
    pub sleeve_id: String,
    pub incarnation: u64,
    pub process_attempt: u64,
    pub route_epoch: u64,
}
#[derive(Clone, Debug, Default, Eq, PartialEq)]
pub struct ResourceRevisionV4 {
    pub identity: String,
    pub revision: u64,
    pub generation: u64,
}
#[derive(Clone, Debug, Default, Eq, PartialEq)]
pub struct FenceV4 {
    pub sleeve_incarnation: u64,
    pub config_revision: u64,
    pub profile_and_calculator_digest: String,
    pub route_epoch: u64,
    pub route_plan_sha256: [u8; 32],
    pub source_revision: u64,
    pub source_generation: u64,
    pub catalog_revision: u64,
    pub market_authority_generation: u64,
    pub price_revision: u64,
    pub broker_revision: u64,
    pub station_resources: Vec<ResourceRevisionV4>,
    pub market_revisions: Vec<ResourceRevisionV4>,
}
#[derive(Clone, Debug, Default, Eq, PartialEq)]
pub struct TimerRecoveryV4 {
    pub key: String,
    pub scheduled_at: u64,
    pub generation: String,
    pub admission_state: u8,
}

#[derive(Clone, Debug, Default, Eq, PartialEq)]
pub struct DecisionContextV4 {
    pub delivery_id: String,
    pub sleeve: SupervisorV4,
    pub trigger: TriggerV4,
    pub fence: FenceV4,
    pub config: ConfigV4,
    pub stations: Vec<StationV4>,
    pub opportunity: OpportunityV4,
    pub markets: Vec<MarketV4>,
    pub broker: BrokerV4,
    pub timer_recovery: Option<Vec<TimerRecoveryV4>>,
    pub delivered_at_monotonic_ns: u64,
    pub hard_expires_at_monotonic_ns: u64,
}

impl Default for TriggerV4 {
    fn default() -> (r: Self)
        ensures
            r == TriggerV4::Bootstrap,
    {
        TriggerV4::Bootstrap
    }
}

impl Default for AuthorityV4 {
    fn default() -> (r: Self)
        ensures
            r == AuthorityV4::Warming,
    {
        AuthorityV4::Warming
    }
}

impl Default for RankByV4 {
    fn default() -> (r: Self)
        ensures
            r == RankByV4::High,
    {
        RankByV4::High
    }
}

impl Default for LifecycleV4 {
    fn default() -> (r: Self)
        ensures
            r == LifecycleV4::Discovered,
    {
        LifecycleV4::Discovered
    }
}

impl Default for MarketAuthorityV4 {
    fn default() -> (r: Self)
        ensures
            r == MarketAuthorityV4::Uncertain,
    {
        MarketAuthorityV4::Uncertain
    }
}

impl Default for GateStatusV4 {
    fn default() -> (r: Self)
        ensures
            r == GateStatusV4::ClosedFinanceUnavailable,
    {
        GateStatusV4::ClosedFinanceUnavailable
    }
}

pub open spec fn all_zero(a: Seq<u8>) -> bool {
    forall|i: int| 0 <= i < a.len() ==> a[i] == 0
}

/// The top-level shape: a delivery id, 1..=5 stations, 1..=128 markets, a non-zero route plan
/// digest and an expiry no earlier than the delivery.
pub open spec fn context_v4_header_valid(c: DecisionContextV4) -> bool {
    &&& c.delivery_id@.len() > 0
    &&& 0 < c.stations.len() <= MAX_STATIONS
    &&& 0 < c.markets.len() <= MAX_MARKETS
    &&& !all_zero(c.fence.route_plan_sha256@)
    &&& c.hard_expires_at_monotonic_ns >= c.delivered_at_monotonic_ns
}

pub open spec fn point_in_climate_day(p: ForecastPointV4, s: StationV4) -> bool {
    s.climate_day_start_utc_unix_ms <= p.at_unix_ms < s.climate_day_end_utc_unix_ms
}

/// A model has 1..=`max_points` hourly points, all inside the station's climate day.
pub open spec fn model_within_bounds(m: ForecastModelV4, s: StationV4, max_points: nat) -> bool {
    &&& 0 < m.hourly.len() <= max_points
    &&& forall|j: int| 0 <= j < m.hourly.len() ==> #[trigger] point_in_climate_day(m.hourly[j], s)
}

pub open spec fn station_within_bounds(s: StationV4, max_points: nat) -> bool {
    &&& s.identity.timezone@.len() > 0
    &&& s.climate_event_date@.len() > 0
    &&& s.climate_day_end_utc_unix_ms > s.climate_day_start_utc_unix_ms
    &&& s.forecast.models.len() <= MAX_MODELS_PER_STATION
    &&& s.reports.len() <= MAX_REPORTS
    &&& s.weather_events.len() <= MAX_WEATHER_EVENTS
    &&& s.evidence.len() <= MAX_EVIDENCE_REFERENCES
    &&& s.oracle.rows.len() <= MAX_ORACLE_ROWS
    &&& forall|k: int|
        0 <= k < s.forecast.models.len() ==> #[trigger] model_within_bounds(
            s.forecast.models[k],
            s,
            max_points,
        )
}

/// A market carries a dated comparison, bounded book sides and bounded evidence.
pub open spec fn market_within_bounds(m: MarketV4) -> bool {
    &&& match m.minutetemp_comparison {
        Some(c) => c.event_date@.len() > 0,
        None => false,
    }
    &&& match m.book {
        Some(b) => b.yes_bids.len() <= MAX_BOOK_LEVELS_PER_SIDE && b.no_bids.len()
            <= MAX_BOOK_LEVELS_PER_SIDE,
        None => true,
    }
    &&& m.evidence.len() <= MAX_EVIDENCE_REFERENCES
}

/// What validation answers for a context whose forecast models may hold `max_points` points.
pub open spec fn context_v4_verdict(c: DecisionContextV4, max_points: nat) -> Result<
    (),
    DecisionV4Error,
> {
    if !context_v4_header_valid(c) {
        Err(DecisionV4Error::InvalidContract)
    } else if !(forall|i: int|
        0 <= i < c.stations.len() ==> #[trigger] station_within_bounds(c.stations[i], max_points)) {
        Err(DecisionV4Error::BoundExceeded)
    } else if !(forall|i: int| 0 <= i < c.markets.len() ==> #[trigger] market_within_bounds(c.markets[i])) {
        Err(DecisionV4Error::BoundExceeded)
    } else {
        Ok(())
    }
}

fn array_is_zero(a: &[u8; 32]) -> (r: bool)
    ensures
        r == all_zero(a@),
{
    let mut i: usize = 0;
    while i < 32
        invariant
            0 <= i <= 32,
            a@.len() == 32,
            forall|j: int| 0 <= j < i ==> a@[j] == 0,
        decreases 32 - i,
    {
        if a[i] != 0 {
            return false;
        }
        i += 1;
    }
    true
}

fn model_in_bounds(m: &ForecastModelV4, s: &StationV4, max_points: usize) -> (r: bool)
    ensures
        r == model_within_bounds(*m, *s, max_points as nat),
{
    let n = m.hourly.len();
    if n == 0 || n > max_points {
        return false;
    }
    let mut j: usize = 0;
    while j < n
        invariant
            n == m.hourly@.len(),
            0 <= j <= n,
            forall|k: int| 0 <= k < j ==> #[trigger] point_in_climate_day(m.hourly@[k], *s),
        decreases n - j,
    {
        let at = m.hourly[j].at_unix_ms;
        if at < s.climate_day_start_utc_unix_ms || at >= s.climate_day_end_utc_unix_ms {
            assert(!point_in_climate_day(m.hourly@[j as int], *s));
            return false;
        }
        j += 1;
    }
    true
}

fn station_in_bounds(s: &StationV4, max_points: usize) -> (r: bool)
    ensures
        r == station_within_bounds(*s, max_points as nat),
{
    if s.identity.timezone.as_str().is_empty() || s.climate_event_date.as_str().is_empty()
        || s.climate_day_end_utc_unix_ms <= s.climate_day_start_utc_unix_ms
        || s.forecast.models.len() > MAX_MODELS_PER_STATION || s.reports.len() > MAX_REPORTS
        || s.weather_events.len() > MAX_WEATHER_EVENTS || s.evidence.len()
        > MAX_EVIDENCE_REFERENCES || s.oracle.rows.len() > MAX_ORACLE_ROWS {
        return false;
    }
    let n = s.forecast.models.len();
    let mut k: usize = 0;
    while k < n
        invariant
            n == s.forecast.models@.len(),
            0 <= k <= n,
            forall|q: int|
                0 <= q < k ==> #[trigger] model_within_bounds(
                    s.forecast.models@[q],
                    *s,
                    max_points as nat,
                ),
        decreases n - k,
    {
        if !model_in_bounds(&s.forecast.models[k], s, max_points) {
            return false;
        }
        k += 1;
    }
    true
}

fn market_in_bounds(m: &MarketV4) -> (r: bool)
    ensures
        r == market_within_bounds(*m),
{
    let dated = match &m.minutetemp_comparison {
        Some(c) => !c.event_date.as_str().is_empty(),
        None => false,
    };
    let book = match &m.book {
        Some(b) => b.yes_bids.len() <= MAX_BOOK_LEVELS_PER_SIDE && b.no_bids.len()
            <= MAX_BOOK_LEVELS_PER_SIDE,
        None => true,
    };
    dated && book && m.evidence.len() <= MAX_EVIDENCE_REFERENCES
}

impl DecisionContextV4 {
    /// Checks the shape and bounds of the context.
    pub fn validate(&self) -> (r: Result<(), DecisionV4Error>)
        ensures
            r == context_v4_verdict(*self, MAX_POINTS_PER_MODEL as nat),
    {
        self.validate_with_forecast_point_bound(MAX_POINTS_PER_MODEL)
    }

    /// Checks the shape and bounds of the context, with at most `max_points` forecast points
    /// per model.
    #[verifier::loop_isolation(false)]
    pub fn validate_with_forecast_point_bound(&self, max_points: usize) -> (r: Result<
        (),
        DecisionV4Error,
    >)
        ensures
            r == context_v4_verdict(*self, max_points as nat),
    {
        if self.delivery_id.as_str().is_empty() || self.stations.len() == 0 || self.stations.len()
            > MAX_STATIONS || self.markets.len() == 0 || self.markets.len() > MAX_MARKETS
            || array_is_zero(&self.fence.route_plan_sha256) || self.hard_expires_at_monotonic_ns
            < self.delivered_at_monotonic_ns {
            return Err(DecisionV4Error::InvalidContract);
        }
        let n = self.stations.len();
        let mut i: usize = 0;
        while i < n
            invariant
                n == self.stations@.len(),
                0 <= i <= n,
                forall|q: int|
                    0 <= q < i ==> #[trigger] station_within_bounds(
                        self.stations@[q],
                        max_points as nat,
                    ),
            decreases n - i,
        {
            if !station_in_bounds(&self.stations[i], max_points) {
                assert(!station_within_bounds(self.stations@[i as int], max_points as nat));
                return Err(DecisionV4Error::BoundExceeded);
            }
            i += 1;
        }
        let m = self.markets.len();
        let mut j: usize = 0;
        while j < m
            invariant
                m == self.markets@.len(),
                0 <= j <= m,
                forall|q: int| 0 <= q < j ==> #[trigger] market_within_bounds(self.markets@[q]),
            decreases m - j,
        {
            if !market_in_bounds(&self.markets[j]) {
                assert(!market_within_bounds(self.markets@[j as int]));
                return Err(DecisionV4Error::BoundExceeded);
            }
            j += 1;
        }
        Ok(())
    }
}

/// A resource revision in the fixed configuration.
pub open spec fn fixed_resource_spec(r: ResourceRevisionV4) -> Seq<u8> {
    fixed_str_spec(r.identity@) + be_u64(r.revision) + be_u64(r.generation)
}

pub open spec fn fixed_resources_spec(v: Seq<ResourceRevisionV4>) -> Seq<u8>
    decreases v.len(),
{
    if v.len() == 0 {
        Seq::empty()
    } else {
        fixed_resources_spec(v.drop_last()) + fixed_resource_spec(v.last())
    }
}

/// The fence in the fixed configuration: its fields in declaration order, each list its
/// length in 8 bytes followed by its items.
pub open spec fn fixed_fence_spec(f: FenceV4) -> Seq<u8> {
    be_u64(f.sleeve_incarnation) + be_u64(f.config_revision) + fixed_str_spec(
        f.profile_and_calculator_digest@,
    ) + be_u64(f.route_epoch) + f.route_plan_sha256@ + be_u64(f.source_revision) + be_u64(
        f.source_generation,
    ) + be_u64(f.catalog_revision) + be_u64(f.market_authority_generation) + be_u64(
        f.price_revision,
    ) + be_u64(f.broker_revision) + be_u64(f.station_resources.len() as u64)
        + fixed_resources_spec(f.station_resources@) + be_u64(f.market_revisions.len() as u64)
        + fixed_resources_spec(f.market_revisions@)
}

fn put_fixed_resources(out: &mut Vec<u8>, v: &Vec<ResourceRevisionV4>)
    ensures
        final(out)@ == old(out)@ + be_u64(v.len() as u64) + fixed_resources_spec(v@),
{
    let ghost start = out@;
    put(out, fixed_u64(v.len() as u64));
    let mut i: usize = 0;
    while i < v.len()
        invariant
            0 <= i <= v@.len(),
            out@ == start + be_u64(v.len() as u64) + fixed_resources_spec(
                v@.subrange(0, i as int),
            ),
        decreases v@.len() - i,
    {
        let ghost before = out@;
        put(out, fixed_str(&v[i].identity));
        put(out, fixed_u64(v[i].revision));
        put(out, fixed_u64(v[i].generation));
        proof {
            let s = v@.subrange(0, i + 1);
            assert(s.drop_last() =~= v@.subrange(0, i as int));
            assert(out@ =~= before + fixed_resource_spec(v@[i as int]));
        }
        i += 1;
    }
    assert(v@.subrange(0, v@.len() as int) =~= v@);
}

/// The fence encoded in the fixed configuration.
pub fn encode_fence_v4(fence: &FenceV4) -> (r: Vec<u8>)
    ensures
        r@ == fixed_fence_spec(*fence),
{
    let mut out: Vec<u8> = Vec::new();
    put(&mut out, fixed_u64(fence.sleeve_incarnation));
    put(&mut out, fixed_u64(fence.config_revision));
    put(&mut out, fixed_str(&fence.profile_and_calculator_digest));
    put(&mut out, fixed_u64(fence.route_epoch));
    crate::digest::extend(&mut out, &fence.route_plan_sha256);
    put(&mut out, fixed_u64(fence.source_revision));
    put(&mut out, fixed_u64(fence.source_generation));
    put(&mut out, fixed_u64(fence.catalog_revision));
    put(&mut out, fixed_u64(fence.market_authority_generation));
    put(&mut out, fixed_u64(fence.price_revision));
    put(&mut out, fixed_u64(fence.broker_revision));
    put_fixed_resources(&mut out, &fence.station_resources);
    put_fixed_resources(&mut out, &fence.market_revisions);
    assert(out@ =~= fixed_fence_spec(*fence));
    out
}

/// The lowercase hex SHA-256 of the fence's fixed-configuration encoding.
pub fn decision_fence_v4_sha256(fence: &FenceV4) -> (r: Result<String, DecisionV4Error>)
    ensures
        r matches Ok(h) && h@ == spec_hex(sha256(fixed_fence_spec(*fence))),
{
    let bytes = encode_fence_v4(fence);
    let digest = sha256_digest(bytes.as_slice());
    Ok(hex_digest(&digest))
}

} // verus!
