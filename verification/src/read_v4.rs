//! Reading the Decision V4 context back from the wire, and decoding it.
//!
//! A context read from bytes is described by its model (its view): the same fields with
//! strings and byte arrays as sequences. Reading what `encode_decision_context_v4` wrote gives
//! the model of the context it was given.
use crate::codec_v4::{
    fx_authority, fx_book, fx_book_level, fx_book_level_encoder, fx_broker, fx_broker_part0, fx_broker_part1, fx_component_meta, fx_config, fx_cursor, fx_decision_context, fx_decision_context_part0, fx_decision_context_part1, fx_evidence, fx_evidence_encoder, fx_extrema, fx_extreme, fx_extreme_part0, fx_extreme_part1, fx_fence, fx_fence_part0, fx_fence_part1, fx_final_fact, fx_forecast, fx_forecast_model, fx_forecast_model_encoder, fx_forecast_point, fx_forecast_point_encoder, fx_forecast_point_part0, fx_forecast_point_part1, fx_gate_status, fx_last_trade, fx_lifecycle, fx_list, fx_market, fx_market_authority, fx_market_comparison, fx_market_comparison_part0, fx_market_comparison_part1, fx_market_encoder, fx_market_identity, fx_market_identity_part0, fx_market_identity_part1, fx_market_lifecycle, fx_market_meta, fx_market_part0, fx_market_part1, fx_market_part2, fx_observation, fx_observation_part0, fx_observation_part1, fx_observation_part2, fx_observation_part3, fx_opportunity, fx_opportunity_part0, fx_opportunity_part1, fx_opt_book, fx_opt_bool, fx_opt_extreme, fx_opt_final_fact, fx_opt_i32, fx_opt_i64, fx_opt_last_trade, fx_opt_list_timer_recovery, fx_opt_market_comparison, fx_opt_market_lifecycle, fx_opt_string, fx_opt_ticker, fx_opt_u16, fx_opt_u64, fx_opt_weather_event_source, fx_oracle_query, fx_oracle_row, fx_oracle_row_encoder, fx_oracle_row_part0, fx_oracle_row_part1, fx_oracle_table, fx_provenance, fx_provenance_encoder, fx_provenance_part0, fx_provenance_part1, fx_rank_by, fx_report, fx_report_encoder, fx_report_part0, fx_report_part1, fx_report_part2, fx_resource_revision, fx_resource_revision_encoder, fx_station, fx_station_encoder, fx_station_identity, fx_station_part0, fx_station_part1, fx_station_part2, fx_string_encoder, fx_string_provenance_pair, fx_string_provenance_pair_encoder, fx_string_string_pair, fx_string_string_pair_encoder, fx_supervisor, fx_ticker, fx_ticker_part0, fx_ticker_part1, fx_timer_recovery, fx_timer_recovery_encoder, fx_trigger, fx_weather, fx_weather_event, fx_weather_event_encoder, fx_weather_event_part0, fx_weather_event_part1, fx_weather_event_source, fx_weather_event_source_part0, fx_weather_event_source_part1, fx_weather_part0, fx_weather_part1, fx_weather_part2, fx_weather_part3,
};
use crate::codec_v5::{
    array32_at, bool_at, has_magic, has_prefix, holds_at, items_at, lemma_holds_split,
    lemma_items_at, lemma_items_len, lemma_items_stop, take_array32, take_bool, take_u8, u8_at,
    wire_items,
};
use crate::decision_v4::{
    AuthorityV4, BookLevelV4, BookV4, BrokerV4, ComponentMetaV4, ConfigV4, CursorV4, DECISION_CONTEXT_V4_MAGIC, DecisionContextV4, DecisionV4Error, EvidenceV4, ExtremaV4, ExtremeV4, FenceV4, FinalFactV4, ForecastModelV4, ForecastPointV4, ForecastV4, GateStatusV4, LastTradeV4, LifecycleV4, MAX_DECISION_CONTEXT_V4_BYTES, MAX_POINTS_PER_MODEL, MarketAuthorityV4, MarketComparisonV4, MarketIdentityV4, MarketLifecycleV4, MarketMetaV4, MarketV4, ObservationV4, OpportunityV4, OracleQueryV4, OracleRowV4, OracleTableV4, ProvenanceV4, RankByV4, ReportV4, ResourceRevisionV4, StationIdentityV4, StationV4, SupervisorV4, TickerV4, TimerRecoveryV4, TriggerV4, WeatherEventSourceV4, WeatherEventV4, WeatherV4, context_v4_verdict, market_within_bounds, model_within_bounds, point_in_climate_day, station_within_bounds,
};
use crate::digest::{be_u16, be_u32, be_u64};
use crate::wire::{fixed_str_spec, wire_bool_spec};
use crate::wire_read::{
    be_value, fixed_length_in_bounds, fixed_read, fixed_str_read, lemma_be_value_bound,
    lemma_pow256_values, lemma_be_value_u16,
    lemma_be_value_u32, lemma_be_value_u64, lemma_fixed_read, lemma_fixed_str_read,
    read_fixed_i32, read_fixed_i64, read_fixed_str, read_fixed_u16, read_fixed_u32,
    read_fixed_u64,
};
use vstd::prelude::*;

verus! {

// ---------------------------------------------------------------------------------------------
// Fixed-width primitives
// ---------------------------------------------------------------------------------------------

#[verifier::opaque]
pub open spec fn fu64_at(b: Seq<u8>, p: int) -> Option<(u64, int)> {
    match fixed_read(b.skip(p), 8) {
        Some((v, n)) => Some((v as u64, p + n)),
        None => None,
    }
}

#[verifier::opaque]
pub open spec fn fu32_at(b: Seq<u8>, p: int) -> Option<(u32, int)> {
    match fixed_read(b.skip(p), 4) {
        Some((v, n)) => Some((v as u32, p + n)),
        None => None,
    }
}

#[verifier::opaque]
pub open spec fn fu16_at(b: Seq<u8>, p: int) -> Option<(u16, int)> {
    match fixed_read(b.skip(p), 2) {
        Some((v, n)) => Some((v as u16, p + n)),
        None => None,
    }
}

#[verifier::opaque]
pub open spec fn fi64_at(b: Seq<u8>, p: int) -> Option<(i64, int)> {
    match fixed_read(b.skip(p), 8) {
        Some((v, n)) => Some(((v as u64) as i64, p + n)),
        None => None,
    }
}

#[verifier::opaque]
pub open spec fn fi32_at(b: Seq<u8>, p: int) -> Option<(i32, int)> {
    match fixed_read(b.skip(p), 4) {
        Some((v, n)) => Some(((v as u32) as i32, p + n)),
        None => None,
    }
}

#[verifier::opaque]
pub open spec fn fstr_at(b: Seq<u8>, p: int) -> Option<(Seq<char>, int)> {
    match fixed_str_read(b.skip(p)) {
        Some((s, n)) => Some((s, p + n)),
        None => None,
    }
}

/// A list in the fixed configuration: its length in 8 bytes, then its items.
pub open spec fn flist_at<M>(b: Seq<u8>, p: int, read: spec_fn(Seq<u8>, int) -> Option<(M, int)>) -> Option<
    (Seq<M>, int),
> {
    match fu64_at(b, p) {
        Some((n, q)) => items_at(b, q, n as nat, read),
        None => None,
    }
}

proof fn lemma_skip_holds(b: Seq<u8>, p: int, w: Seq<u8>)
    requires
        holds_at(b, p, w),
    ensures
        b.skip(p) =~= w + b.skip(p + w.len()),
{
}

proof fn lemma_fu64_at(b: Seq<u8>, p: int, v: u64)
    requires
        holds_at(b, p, be_u64(v)),
    ensures
        fu64_at(b, p) == Some((v, p + 8)),
{
    reveal(fu64_at);
    lemma_skip_holds(b, p, be_u64(v));
    lemma_fixed_read(be_u64(v), b.skip(p + 8));
    lemma_be_value_u64(v);
}

proof fn lemma_fu32_at(b: Seq<u8>, p: int, v: u32)
    requires
        holds_at(b, p, be_u32(v)),
    ensures
        fu32_at(b, p) == Some((v, p + 4)),
{
    reveal(fu32_at);
    lemma_skip_holds(b, p, be_u32(v));
    lemma_fixed_read(be_u32(v), b.skip(p + 4));
    lemma_be_value_u32(v);
}

proof fn lemma_fu16_at(b: Seq<u8>, p: int, v: u16)
    requires
        holds_at(b, p, be_u16(v)),
    ensures
        fu16_at(b, p) == Some((v, p + 2)),
{
    reveal(fu16_at);
    lemma_skip_holds(b, p, be_u16(v));
    lemma_fixed_read(be_u16(v), b.skip(p + 2));
    lemma_be_value_u16(v);
}

proof fn lemma_fi64_at(b: Seq<u8>, p: int, v: i64)
    requires
        holds_at(b, p, be_u64(v as u64)),
    ensures
        fi64_at(b, p) == Some((v, p + 8)),
{
    reveal(fi64_at);
    let u = v as u64;
    lemma_skip_holds(b, p, be_u64(u));
    lemma_fixed_read(be_u64(u), b.skip(p + 8));
    lemma_be_value_u64(u);
    assert((u as i64) == v) by (bit_vector)
        requires
            u == v as u64,
    ;
}

proof fn lemma_fi32_at(b: Seq<u8>, p: int, v: i32)
    requires
        holds_at(b, p, be_u32(v as u32)),
    ensures
        fi32_at(b, p) == Some((v, p + 4)),
{
    reveal(fi32_at);
    let u = v as u32;
    lemma_skip_holds(b, p, be_u32(u));
    lemma_fixed_read(be_u32(u), b.skip(p + 4));
    lemma_be_value_u32(u);
    assert((u as i32) == v) by (bit_vector)
        requires
            u == v as u32,
    ;
}

proof fn lemma_fstr_at(b: Seq<u8>, p: int, s: Seq<char>)
    requires
        holds_at(b, p, fixed_str_spec(s)),
        b.len() <= u64::MAX,
    ensures
        fstr_at(b, p) == Some((s, p + fixed_str_spec(s).len())),
{
    reveal(fstr_at);
    lemma_skip_holds(b, p, fixed_str_spec(s));
    assert(fixed_str_spec(s).len() >= crate::text::byte_len(s));
    lemma_fixed_str_read(s, b.skip(p + fixed_str_spec(s).len()));
}

proof fn lemma_fu8_at(b: Seq<u8>, p: int, v: u8)
    requires
        holds_at(b, p, seq![v]),
    ensures
        u8_at(b, p) == Some((v, p + 1)),
{
    assert(b[p] == b.subrange(p, p + 1)[0]);
}

proof fn lemma_fbool_at(b: Seq<u8>, p: int, v: bool)
    requires
        holds_at(b, p, wire_bool_spec(v)),
    ensures
        bool_at(b, p) == Some((v, p + 1)),
{
    assert(b[p] == b.subrange(p, p + 1)[0]);
}

proof fn lemma_farray32_at(b: Seq<u8>, p: int, v: [u8; 32])
    requires
        holds_at(b, p, v@),
    ensures
        array32_at(b, p) == Some((v@, p + 32)),
{
}

/// Reading a list written item by item gives the models of its items.
proof fn lemma_flist_at<T, M>(
    b: Seq<u8>,
    p: int,
    s: Seq<T>,
    enc: spec_fn(T) -> Seq<u8>,
    view: spec_fn(T) -> M,
    read: spec_fn(Seq<u8>, int) -> Option<(M, int)>,
)
    requires
        holds_at(b, p, fx_list(s, enc)),
        b.len() <= u64::MAX,
        forall|x: T| #[trigger] enc(x).len() >= 1,
        forall|i: int, q: int|
            0 <= i < s.len() && #[trigger] holds_at(b, q, enc(s[i])) ==> read(b, q) == Some(
                (view(s[i]), q + enc(s[i]).len()),
            ),
    ensures
        flist_at(b, p, read) == Some((s.map_values(view), p + fx_list(s, enc).len())),
{
    let head = be_u64(s.len() as u64);
    lemma_holds_split(b, p, head, wire_items(s, enc));
    lemma_items_len(s, enc);
    lemma_fu64_at(b, p, s.len() as u64);
    lemma_items_at(b, p + 8, s, enc, view, read);
}

fn take_fu64(b: &[u8], pos: usize) -> (r: Option<(u64, usize)>)
    requires
        pos <= b@.len(),
    ensures
        match fu64_at(b@, pos as int) {
            Some((v, e)) => r matches Some((x, end)) && x == v && end == e,
            None => r is None,
        },
        r matches Some((_, end)) ==> pos < end <= b@.len(),
{
    proof {
        reveal(fu64_at);
    }
    let total: usize = b.len();
    let (_, rest) = b.split_at(pos);
    assert(rest@ =~= b@.skip(pos as int));
    match read_fixed_u64(rest) {
        Some((v, n)) => Some((v, pos + n)),
        None => None,
    }
}

fn take_fu32(b: &[u8], pos: usize) -> (r: Option<(u32, usize)>)
    requires
        pos <= b@.len(),
    ensures
        match fu32_at(b@, pos as int) {
            Some((v, e)) => r matches Some((x, end)) && x == v && end == e,
            None => r is None,
        },
        r matches Some((_, end)) ==> pos < end <= b@.len(),
{
    proof {
        reveal(fu32_at);
    }
    let total: usize = b.len();
    let (_, rest) = b.split_at(pos);
    assert(rest@ =~= b@.skip(pos as int));
    match read_fixed_u32(rest) {
        Some((v, n)) => Some((v, pos + n)),
        None => None,
    }
}

fn take_fu16(b: &[u8], pos: usize) -> (r: Option<(u16, usize)>)
    requires
        pos <= b@.len(),
    ensures
        match fu16_at(b@, pos as int) {
            Some((v, e)) => r matches Some((x, end)) && x == v && end == e,
            None => r is None,
        },
        r matches Some((_, end)) ==> pos < end <= b@.len(),
{
    proof {
        reveal(fu16_at);
    }
    let total: usize = b.len();
    let (_, rest) = b.split_at(pos);
    assert(rest@ =~= b@.skip(pos as int));
    match read_fixed_u16(rest) {
        Some((v, n)) => Some((v, pos + n)),
        None => None,
    }
}

fn take_fi64(b: &[u8], pos: usize) -> (r: Option<(i64, usize)>)
    requires
        pos <= b@.len(),
    ensures
        match fi64_at(b@, pos as int) {
            Some((v, e)) => r matches Some((x, end)) && x == v && end == e,
            None => r is None,
        },
        r matches Some((_, end)) ==> pos < end <= b@.len(),
{
    proof {
        reveal(fi64_at);
    }
    let total: usize = b.len();
    let (_, rest) = b.split_at(pos);
    assert(rest@ =~= b@.skip(pos as int));
    match read_fixed_i64(rest) {
        Some((v, n)) => Some((v, pos + n)),
        None => None,
    }
}

fn take_fi32(b: &[u8], pos: usize) -> (r: Option<(i32, usize)>)
    requires
        pos <= b@.len(),
    ensures
        match fi32_at(b@, pos as int) {
            Some((v, e)) => r matches Some((x, end)) && x == v && end == e,
            None => r is None,
        },
        r matches Some((_, end)) ==> pos < end <= b@.len(),
{
    proof {
        reveal(fi32_at);
    }
    let total: usize = b.len();
    let (_, rest) = b.split_at(pos);
    assert(rest@ =~= b@.skip(pos as int));
    match read_fixed_i32(rest) {
        Some((v, n)) => Some((v, pos + n)),
        None => None,
    }
}

fn take_fstr(b: &[u8], pos: usize) -> (r: Option<(String, usize)>)
    requires
        pos <= b@.len(),
    ensures
        match fstr_at(b@, pos as int) {
            Some((s, e)) => r matches Some((v, end)) && v@ == s && end == e,
            None => r is None,
        },
        r matches Some((_, end)) ==> pos < end <= b@.len(),
{
    proof {
        reveal(fstr_at);
    }
    let total: usize = b.len();
    let (_, rest) = b.split_at(pos);
    assert(rest@ =~= b@.skip(pos as int));
    if rest.len() >= 8 {
        proof {
            lemma_be_value_bound(rest@.subrange(0, 8));
            lemma_pow256_values();
        }
    }
    match read_fixed_u64(rest) {
        Some((len, k)) => {
            if ((rest.len() - k) as u64) < len {
                return None;
            }
        },
        None => {
            return None;
        },
    }
    match read_fixed_str(rest) {
        Some((s, n)) => Some((s, pos + n)),
        None => None,
    }
}

// ---------------------------------------------------------------------------------------------
// Models
// ---------------------------------------------------------------------------------------------

pub struct ProvenanceV4Model {
    pub provider: Seq<char>,
    pub source: Seq<char>,
    pub event_id: Option<Seq<char>>,
    pub connection_epoch: Option<u64>,
    pub sid: Option<u64>,
    pub sequence: Option<u64>,
    pub city_sequence: Option<u64>,
    pub producer_sequence: Option<u64>,
    pub received_frame_ordinal: Option<u64>,
    pub provider_at_unix_ms: Option<i64>,
    pub received_at_unix_ms: i64,
}

pub struct EvidenceV4Model {
    pub kind: Seq<char>,
    pub sha256: Seq<u8>,
    pub reference: Seq<char>,
    pub byte_count: u64,
}

pub struct ComponentMetaV4Model {
    pub authority: AuthorityV4,
    pub revision: u64,
    pub generation: u64,
    pub updated_at_unix_ms: Option<i64>,
    pub expected_version: Option<Seq<char>>,
    pub provenance: Seq<ProvenanceV4Model>,
    pub refresh_error: Option<Seq<char>>,
}

pub struct StationIdentityV4Model {
    pub station_id: Seq<char>,
    pub city_id: Option<Seq<char>>,
    pub city_slug: Option<Seq<char>>,
    pub logical_location: Seq<char>,
    pub name: Option<Seq<char>>,
    pub latitude_micros: Option<i64>,
    pub longitude_micros: Option<i64>,
    pub timezone: Seq<char>,
}

pub struct ObservationV4Model {
    pub station_id: Seq<char>,
    pub observed_at_unix_ms: i64,
    pub source_timestamp_unix_ms: Option<i64>,
    pub producer_received_at_unix_ms: Option<i64>,
    pub live_published_at_unix_ms: Option<i64>,
    pub lag_ms: Option<i64>,
    pub preliminary: bool,
    pub persistence_status: Option<Seq<char>>,
    pub temperature_milli_c: Option<i32>,
    pub temperature_min_milli_c: Option<i32>,
    pub temperature_max_milli_c: Option<i32>,
    pub wu_current_temperature_milli_c: Option<i32>,
    pub wu_daily_high_milli_c: Option<i32>,
    pub wu_daily_low_milli_c: Option<i32>,
    pub wu_observation_at_unix_ms: Option<i64>,
    pub wu_fetched_at_unix_ms: Option<i64>,
    pub temperature_day_mode: Option<Seq<char>>,
    pub temperature_day_date: Option<Seq<char>>,
    pub wu_day_mode: Option<Seq<char>>,
    pub wu_day_date: Option<Seq<char>>,
    pub is_from_report: bool,
    pub report_type: Option<Seq<char>>,
    pub source_report_id: Option<Seq<char>>,
    pub dewpoint_micros: Option<i64>,
    pub heat_index_micros: Option<i64>,
    pub wind_chill_micros: Option<i64>,
    pub relative_humidity_micros: Option<i64>,
    pub wind_speed_micros: Option<i64>,
    pub wind_direction_micros: Option<i64>,
    pub wind_gust_micros: Option<i64>,
    pub text_description: Option<Seq<char>>,
    pub provenance: ProvenanceV4Model,
}

pub struct WeatherV4Model {
    pub station_id: Seq<char>,
    pub current_temperature_milli_c: Option<i32>,
    pub running_high_milli_c: Option<i32>,
    pub running_low_milli_c: Option<i32>,
    pub last_metar_at_unix_ms: Option<i64>,
    pub dsm_high_milli_c: Option<i32>,
    pub dsm_low_milli_c: Option<i32>,
    pub dsm_high_at_unix_ms: Option<i64>,
    pub dsm_low_at_unix_ms: Option<i64>,
    pub six_hour_high_milli_c: Option<i32>,
    pub six_hour_low_milli_c: Option<i32>,
    pub asos_daily_high_milli_c: Option<i32>,
    pub asos_daily_low_milli_c: Option<i32>,
    pub wu_current_temperature_milli_c: Option<i32>,
    pub wu_daily_high_milli_c: Option<i32>,
    pub wu_daily_low_milli_c: Option<i32>,
    pub dewpoint_micros: Option<i64>,
    pub heat_index_micros: Option<i64>,
    pub wind_chill_micros: Option<i64>,
    pub relative_humidity_micros: Option<i64>,
    pub wind_speed_micros: Option<i64>,
    pub wind_direction_micros: Option<i64>,
    pub wind_gust_micros: Option<i64>,
    pub text_description: Option<Seq<char>>,
    pub preliminary: bool,
}

pub struct ExtremeV4Model {
    pub value_milli_c: i32,
    pub previous_value_milli_c: Option<i32>,
    pub observed_at_unix_ms: Option<i64>,
    pub temperature_day_mode: Option<Seq<char>>,
    pub temperature_day_date: Option<Seq<char>>,
    pub is_from_report: bool,
    pub report_type: Option<Seq<char>>,
    pub source_report_id: Option<Seq<char>>,
    pub provenance: ProvenanceV4Model,
}

pub struct ExtremaV4Model {
    pub high: Option<ExtremeV4Model>,
    pub low: Option<ExtremeV4Model>,
}

pub struct ReportV4Model {
    pub report_id: Seq<char>,
    pub report_type: Seq<char>,
    pub report_date: Seq<char>,
    pub authority: AuthorityV4,
    pub revision: u64,
    pub generation: u64,
    pub issued_at_unix_ms: Option<i64>,
    pub updated_at_unix_ms: Option<i64>,
    pub fetched_at_unix_ms: Option<i64>,
    pub provider: Seq<char>,
    pub source_url: Seq<char>,
    pub max_temperature_milli_c: Option<i32>,
    pub min_temperature_milli_c: Option<i32>,
    pub temperature_milli_c: Option<i32>,
    pub temperature_milli_f: Option<i32>,
    pub max_temperature_at_unix_ms: Option<i64>,
    pub min_temperature_at_unix_ms: Option<i64>,
    pub provenance: ProvenanceV4Model,
}

pub struct WeatherEventSourceV4Model {
    pub metar_type: Option<Seq<char>>,
    pub flight_category: Option<Seq<char>>,
    pub wx_string: Option<Seq<char>>,
    pub wx_token: Option<Seq<char>>,
    pub wind_speed_knots_micros: Option<i64>,
    pub wind_gust_knots_micros: Option<i64>,
    pub peak_wind_knots_micros: Option<i64>,
    pub peak_wind_direction: Option<i64>,
    pub visibility_miles_micros: Option<i64>,
    pub cb_location: Option<Seq<char>>,
}

pub struct WeatherEventV4Model {
    pub event_id: Seq<char>,
    pub event_type: Seq<char>,
    pub tier: Seq<char>,
    pub state: Seq<char>,
    pub authority: AuthorityV4,
    pub revision: u64,
    pub generation: u64,
    pub name: Seq<char>,
    pub badge: Seq<char>,
    pub detail: Seq<char>,
    pub summary: Seq<char>,
    pub started_at_unix_ms: Option<i64>,
    pub last_confirmed_at_unix_ms: Option<i64>,
    pub ended_at_unix_ms: Option<i64>,
    pub source: Option<WeatherEventSourceV4Model>,
    pub provenance: ProvenanceV4Model,
}

pub struct ForecastPointV4Model {
    pub at_unix_ms: i64,
    pub temperature_milli_c: Option<i32>,
    pub apparent_temperature_milli_c: Option<i32>,
    pub humidity_millionths: Option<i64>,
    pub dew_point_milli_c: Option<i32>,
    pub pressure_msl_micros: Option<i64>,
    pub wind_speed_micros: Option<i64>,
    pub wind_direction_degrees: Option<i32>,
    pub wind_gust_micros: Option<i64>,
    pub cloud_cover_millionths: Option<i64>,
    pub precipitation_probability_millionths: Option<i64>,
    pub weather_code: Option<i32>,
}

pub struct ForecastModelV4Model {
    pub model_id: Seq<char>,
    pub version: Seq<char>,
    pub run_id: Option<Seq<char>>,
    pub fetched_at_unix_ms: Option<i64>,
    pub issued_at_unix_ms: Option<i64>,
    pub timezone: Option<Seq<char>>,
    pub utc_offset_seconds: Option<i32>,
    pub hourly: Seq<ForecastPointV4Model>,
}

pub struct ForecastV4Model {
    pub advertised_versions: Seq<(Seq<char>, Seq<char>)>,
    pub models: Seq<ForecastModelV4Model>,
}

pub struct OracleQueryV4Model {
    pub station_id: Seq<char>,
    pub mode: Seq<char>,
    pub rank_by: RankByV4,
    pub days: u8,
}

pub struct OracleRowV4Model {
    pub rank: u8,
    pub model_id: Seq<char>,
    pub model_name: Seq<char>,
    pub is_public: Option<bool>,
    pub high_mae_millionths: Option<i64>,
    pub low_mae_millionths: Option<i64>,
    pub combined_mae_millionths: Option<i64>,
    pub high_bias_millionths: Option<i64>,
    pub low_bias_millionths: Option<i64>,
    pub day_count: Option<u16>,
}

pub struct OracleTableV4Model {
    pub query: OracleQueryV4Model,
    pub range_start: Seq<char>,
    pub range_end: Seq<char>,
    pub updated_at_unix_ms: Option<i64>,
    pub rows: Seq<OracleRowV4Model>,
    pub provenance: ProvenanceV4Model,
}

pub struct CursorV4Model {
    pub connection_generation: u64,
    pub event_id: Seq<char>,
    pub sequence: u64,
    pub city_sequence: Option<u64>,
    pub emitted_at_unix_ms: i64,
    pub received_at_unix_ms: i64,
    pub snapshot_complete: bool,
}

pub struct StationV4Model {
    pub contract_version: Seq<char>,
    pub revision: u64,
    pub climate_event_date: Seq<char>,
    pub climate_day_start_utc_unix_ms: i64,
    pub climate_day_end_utc_unix_ms: i64,
    pub identity: StationIdentityV4Model,
    pub observation_meta: ComponentMetaV4Model,
    pub observation: ObservationV4Model,
    pub weather_meta: ComponentMetaV4Model,
    pub weather: WeatherV4Model,
    pub extrema_meta: ComponentMetaV4Model,
    pub extrema: ExtremaV4Model,
    pub reports_meta: ComponentMetaV4Model,
    pub reports: Seq<ReportV4Model>,
    pub weather_events_meta: ComponentMetaV4Model,
    pub weather_events: Seq<WeatherEventV4Model>,
    pub forecast_meta: ComponentMetaV4Model,
    pub forecast: ForecastV4Model,
    pub oracle_meta: ComponentMetaV4Model,
    pub oracle: OracleTableV4Model,
    pub provider_cursor: CursorV4Model,
    pub evidence: Seq<EvidenceV4Model>,
}

pub struct MarketMetaV4Model {
    pub authority: AuthorityV4,
    pub revision: u64,
    pub generation: u64,
    pub updated_at_unix_ms: Option<i64>,
    pub expected_version: Option<Seq<char>>,
    pub refresh_error: Option<Seq<char>>,
    pub provenance: Seq<ProvenanceV4Model>,
}

pub struct MarketIdentityV4Model {
    pub market_id: Seq<char>,
    pub opportunity_id: Seq<char>,
    pub venue: Seq<char>,
    pub event_ticker: Seq<char>,
    pub series_ticker: Seq<char>,
    pub strike_type: Seq<char>,
    pub fee_type: Seq<char>,
    pub fee_multiplier_millionths: Option<i64>,
    pub floor_strike_milli_c: Option<i64>,
    pub floor_strike_milli_f: Option<i64>,
    pub cap_strike_milli_c: Option<i64>,
    pub close_at_unix_ms: Option<i64>,
    pub expiration_at_unix_ms: Option<i64>,
}

pub struct MarketLifecycleV4Model {
    pub status: Seq<char>,
    pub result: Option<Seq<char>>,
    pub connection_epoch: Option<u64>,
    pub received_frame_ordinal: Option<u64>,
    pub open_at_unix_ms: Option<i64>,
    pub close_at_unix_ms: Option<i64>,
    pub settled_at_unix_ms: Option<i64>,
    pub updated_at_unix_ms: Option<i64>,
}

pub struct TickerV4Model {
    pub yes_bid_micros: Option<u64>,
    pub yes_ask_micros: Option<u64>,
    pub no_bid_micros: Option<u64>,
    pub no_ask_micros: Option<u64>,
    pub yes_bid_quantity_hundredths: Option<u64>,
    pub yes_ask_quantity_hundredths: Option<u64>,
    pub no_bid_quantity_hundredths: Option<u64>,
    pub no_ask_quantity_hundredths: Option<u64>,
    pub last_price_micros: Option<u64>,
    pub last_trade_quantity_hundredths: Option<u64>,
    pub volume_hundredths: Option<u64>,
    pub volume_24h_hundredths: Option<u64>,
    pub open_interest_hundredths: Option<u64>,
    pub provider_at_unix_ms: Option<i64>,
}

pub struct BookLevelV4Model {
    pub price_micros: u64,
    pub quantity_hundredths: u64,
}

pub struct BookV4Model {
    pub connection_epoch: Option<u64>,
    pub sid: Option<u64>,
    pub sequence: Option<u64>,
    pub snapshot_at_unix_ms: Option<i64>,
    pub resync_required: bool,
    pub yes_bids: Seq<BookLevelV4Model>,
    pub no_bids: Seq<BookLevelV4Model>,
}

pub struct LastTradeV4Model {
    pub trade_id: Seq<char>,
    pub yes_price_micros: u64,
    pub no_price_micros: u64,
    pub quantity_hundredths: u64,
    pub taker_side: Option<Seq<char>>,
    pub traded_at_unix_ms: i64,
}

pub struct FinalFactV4Model {
    pub status: Seq<char>,
    pub result: Seq<char>,
    pub settlement_value_micros: Option<i64>,
    pub settled_price_micros: Option<u64>,
    pub provider_at_unix_ms: Option<i64>,
}

pub struct MarketComparisonV4Model {
    pub source: Seq<char>,
    pub event_id: Seq<char>,
    pub event_date: Seq<char>,
    pub sequence: u64,
    pub provider_at_unix_ms: i64,
    pub yes_bid_micros: Option<u64>,
    pub yes_ask_micros: Option<u64>,
    pub no_bid_micros: Option<u64>,
    pub no_ask_micros: Option<u64>,
    pub volume_hundredths: Option<u64>,
    pub evidence_sha256: Seq<u8>,
}

pub struct MarketV4Model {
    pub contract_version: Seq<char>,
    pub revision: u64,
    pub identity: MarketIdentityV4Model,
    pub lifecycle_meta: MarketMetaV4Model,
    pub lifecycle: Option<MarketLifecycleV4Model>,
    pub ticker_meta: MarketMetaV4Model,
    pub ticker: Option<TickerV4Model>,
    pub book_meta: MarketMetaV4Model,
    pub book: Option<BookV4Model>,
    pub last_trade_meta: MarketMetaV4Model,
    pub last_trade: Option<LastTradeV4Model>,
    pub final_fact_meta: MarketMetaV4Model,
    pub final_fact: Option<FinalFactV4Model>,
    pub field_provenance: Seq<(Seq<char>, ProvenanceV4Model)>,
    pub evidence: Seq<EvidenceV4Model>,
    pub minutetemp_comparison: Option<MarketComparisonV4Model>,
    pub uncertain_fields: Seq<Seq<char>>,
}

pub struct OpportunityV4Model {
    pub opportunity_id: Seq<char>,
    pub venue_id: Seq<char>,
    pub match_profile: Seq<char>,
    pub resolved_scope: Seq<char>,
    pub lifecycle: LifecycleV4,
    pub close_time_unix_seconds: u64,
    pub market_ids: Seq<Seq<char>>,
    pub contributor_stations: Seq<Seq<char>>,
    pub authority: MarketAuthorityV4,
}

pub struct BrokerV4Model {
    pub revision: u64,
    pub venue_account_id: Seq<char>,
    pub sleeve_id: Seq<char>,
    pub provider_available_balance: u64,
    pub locally_reserved_cash: u64,
    pub portfolio_value: u64,
    pub allowance_limit: u64,
    pub current_commitment: u64,
    pub exposure_increase: GateStatusV4,
    pub reduce_only_protective: GateStatusV4,
    pub cancellation: GateStatusV4,
    pub reconciliation_allocation: GateStatusV4,
}

pub struct ConfigV4Model {
    pub revision: u64,
    pub profile_and_calculator_digest: Seq<char>,
}

pub struct SupervisorV4Model {
    pub sleeve_id: Seq<char>,
    pub incarnation: u64,
    pub process_attempt: u64,
    pub route_epoch: u64,
}

pub struct ResourceRevisionV4Model {
    pub identity: Seq<char>,
    pub revision: u64,
    pub generation: u64,
}

pub struct FenceV4Model {
    pub sleeve_incarnation: u64,
    pub config_revision: u64,
    pub profile_and_calculator_digest: Seq<char>,
    pub route_epoch: u64,
    pub route_plan_sha256: Seq<u8>,
    pub source_revision: u64,
    pub source_generation: u64,
    pub catalog_revision: u64,
    pub market_authority_generation: u64,
    pub price_revision: u64,
    pub broker_revision: u64,
    pub station_resources: Seq<ResourceRevisionV4Model>,
    pub market_revisions: Seq<ResourceRevisionV4Model>,
}

pub struct TimerRecoveryV4Model {
    pub key: Seq<char>,
    pub scheduled_at: u64,
    pub generation: Seq<char>,
    pub admission_state: u8,
}

pub struct DecisionContextV4Model {
    pub delivery_id: Seq<char>,
    pub sleeve: SupervisorV4Model,
    pub trigger: TriggerV4Model,
    pub fence: FenceV4Model,
    pub config: ConfigV4Model,
    pub stations: Seq<StationV4Model>,
    pub opportunity: OpportunityV4Model,
    pub markets: Seq<MarketV4Model>,
    pub broker: BrokerV4Model,
    pub timer_recovery: Option<Seq<TimerRecoveryV4Model>>,
    pub delivered_at_monotonic_ns: u64,
    pub hard_expires_at_monotonic_ns: u64,
}

pub enum TriggerV4Model {
    Weather { station_id: Seq<char>, source_generation: u64, source_sequence: u64 },
    StationReport { station_id: Seq<char>, report_id: Seq<char>, report_type: Seq<char>, report_revision: u64, provider: Seq<char>, source_generation: u64, source_sequence: u64 },
    MarketPrice { market_id: Seq<char>, price_revision: u64 },
    Timer { key: Seq<char> },
    Bootstrap,
    Recovery,
}

pub open spec fn v4_opt_book_model(v: Option<BookV4>) -> Option<BookV4Model> {
    match v {
        Some(x) => Some(x@),
        None => None,
    }
}

pub open spec fn v4_opt_extreme_model(v: Option<ExtremeV4>) -> Option<ExtremeV4Model> {
    match v {
        Some(x) => Some(x@),
        None => None,
    }
}

pub open spec fn v4_opt_final_fact_model(v: Option<FinalFactV4>) -> Option<FinalFactV4Model> {
    match v {
        Some(x) => Some(x@),
        None => None,
    }
}

pub open spec fn v4_opt_last_trade_model(v: Option<LastTradeV4>) -> Option<LastTradeV4Model> {
    match v {
        Some(x) => Some(x@),
        None => None,
    }
}

pub open spec fn v4_opt_market_comparison_model(v: Option<MarketComparisonV4>) -> Option<MarketComparisonV4Model> {
    match v {
        Some(x) => Some(x@),
        None => None,
    }
}

pub open spec fn v4_opt_market_lifecycle_model(v: Option<MarketLifecycleV4>) -> Option<MarketLifecycleV4Model> {
    match v {
        Some(x) => Some(x@),
        None => None,
    }
}

pub open spec fn v4_opt_string_model(v: Option<String>) -> Option<Seq<char>> {
    match v {
        Some(x) => Some(x@),
        None => None,
    }
}

pub open spec fn v4_opt_ticker_model(v: Option<TickerV4>) -> Option<TickerV4Model> {
    match v {
        Some(x) => Some(x@),
        None => None,
    }
}

pub open spec fn v4_opt_list_timer_recovery_model(v: Option<Vec<TimerRecoveryV4>>) -> Option<Seq<TimerRecoveryV4Model>> {
    match v {
        Some(x) => Some(x@.map_values(v4_timer_recovery_viewer())),
        None => None,
    }
}

pub open spec fn v4_opt_weather_event_source_model(v: Option<WeatherEventSourceV4>) -> Option<WeatherEventSourceV4Model> {
    match v {
        Some(x) => Some(x@),
        None => None,
    }
}

pub open spec fn v4_string_provenance_pair_viewer() -> spec_fn((String, ProvenanceV4)) -> (Seq<char>, ProvenanceV4Model) {
    |x: (String, ProvenanceV4)| (x.0@, x.1@)
}

pub open spec fn v4_string_string_pair_viewer() -> spec_fn((String, String)) -> (Seq<char>, Seq<char>) {
    |x: (String, String)| (x.0@, x.1@)
}

pub open spec fn v4_book_level_viewer() -> spec_fn(BookLevelV4) -> BookLevelV4Model {
    |x: BookLevelV4| x@
}

pub open spec fn v4_evidence_viewer() -> spec_fn(EvidenceV4) -> EvidenceV4Model {
    |x: EvidenceV4| x@
}

pub open spec fn v4_forecast_model_viewer() -> spec_fn(ForecastModelV4) -> ForecastModelV4Model {
    |x: ForecastModelV4| x@
}

pub open spec fn v4_forecast_point_viewer() -> spec_fn(ForecastPointV4) -> ForecastPointV4Model {
    |x: ForecastPointV4| x@
}

pub open spec fn v4_market_viewer() -> spec_fn(MarketV4) -> MarketV4Model {
    |x: MarketV4| x@
}

pub open spec fn v4_oracle_row_viewer() -> spec_fn(OracleRowV4) -> OracleRowV4Model {
    |x: OracleRowV4| x@
}

pub open spec fn v4_provenance_viewer() -> spec_fn(ProvenanceV4) -> ProvenanceV4Model {
    |x: ProvenanceV4| x@
}

pub open spec fn v4_report_viewer() -> spec_fn(ReportV4) -> ReportV4Model {
    |x: ReportV4| x@
}

pub open spec fn v4_resource_revision_viewer() -> spec_fn(ResourceRevisionV4) -> ResourceRevisionV4Model {
    |x: ResourceRevisionV4| x@
}

pub open spec fn v4_station_viewer() -> spec_fn(StationV4) -> StationV4Model {
    |x: StationV4| x@
}

pub open spec fn v4_string_viewer() -> spec_fn(String) -> Seq<char> {
    |x: String| x@
}

pub open spec fn v4_timer_recovery_viewer() -> spec_fn(TimerRecoveryV4) -> TimerRecoveryV4Model {
    |x: TimerRecoveryV4| x@
}

pub open spec fn v4_weather_event_viewer() -> spec_fn(WeatherEventV4) -> WeatherEventV4Model {
    |x: WeatherEventV4| x@
}

impl View for ProvenanceV4 {
    type V = ProvenanceV4Model;

    open spec fn view(&self) -> ProvenanceV4Model {
        ProvenanceV4Model {
            provider: self.provider@,
            source: self.source@,
            event_id: v4_opt_string_model(self.event_id),
            connection_epoch: self.connection_epoch,
            sid: self.sid,
            sequence: self.sequence,
            city_sequence: self.city_sequence,
            producer_sequence: self.producer_sequence,
            received_frame_ordinal: self.received_frame_ordinal,
            provider_at_unix_ms: self.provider_at_unix_ms,
            received_at_unix_ms: self.received_at_unix_ms,
        }
    }
}

impl View for EvidenceV4 {
    type V = EvidenceV4Model;

    open spec fn view(&self) -> EvidenceV4Model {
        EvidenceV4Model {
            kind: self.kind@,
            sha256: self.sha256@,
            reference: self.reference@,
            byte_count: self.byte_count,
        }
    }
}

impl View for ComponentMetaV4 {
    type V = ComponentMetaV4Model;

    open spec fn view(&self) -> ComponentMetaV4Model {
        ComponentMetaV4Model {
            authority: self.authority,
            revision: self.revision,
            generation: self.generation,
            updated_at_unix_ms: self.updated_at_unix_ms,
            expected_version: v4_opt_string_model(self.expected_version),
            provenance: self.provenance@.map_values(v4_provenance_viewer()),
            refresh_error: v4_opt_string_model(self.refresh_error),
        }
    }
}

impl View for StationIdentityV4 {
    type V = StationIdentityV4Model;

    open spec fn view(&self) -> StationIdentityV4Model {
        StationIdentityV4Model {
            station_id: self.station_id@,
            city_id: v4_opt_string_model(self.city_id),
            city_slug: v4_opt_string_model(self.city_slug),
            logical_location: self.logical_location@,
            name: v4_opt_string_model(self.name),
            latitude_micros: self.latitude_micros,
            longitude_micros: self.longitude_micros,
            timezone: self.timezone@,
        }
    }
}

impl View for ObservationV4 {
    type V = ObservationV4Model;

    open spec fn view(&self) -> ObservationV4Model {
        ObservationV4Model {
            station_id: self.station_id@,
            observed_at_unix_ms: self.observed_at_unix_ms,
            source_timestamp_unix_ms: self.source_timestamp_unix_ms,
            producer_received_at_unix_ms: self.producer_received_at_unix_ms,
            live_published_at_unix_ms: self.live_published_at_unix_ms,
            lag_ms: self.lag_ms,
            preliminary: self.preliminary,
            persistence_status: v4_opt_string_model(self.persistence_status),
            temperature_milli_c: self.temperature_milli_c,
            temperature_min_milli_c: self.temperature_min_milli_c,
            temperature_max_milli_c: self.temperature_max_milli_c,
            wu_current_temperature_milli_c: self.wu_current_temperature_milli_c,
            wu_daily_high_milli_c: self.wu_daily_high_milli_c,
            wu_daily_low_milli_c: self.wu_daily_low_milli_c,
            wu_observation_at_unix_ms: self.wu_observation_at_unix_ms,
            wu_fetched_at_unix_ms: self.wu_fetched_at_unix_ms,
            temperature_day_mode: v4_opt_string_model(self.temperature_day_mode),
            temperature_day_date: v4_opt_string_model(self.temperature_day_date),
            wu_day_mode: v4_opt_string_model(self.wu_day_mode),
            wu_day_date: v4_opt_string_model(self.wu_day_date),
            is_from_report: self.is_from_report,
            report_type: v4_opt_string_model(self.report_type),
            source_report_id: v4_opt_string_model(self.source_report_id),
            dewpoint_micros: self.dewpoint_micros,
            heat_index_micros: self.heat_index_micros,
            wind_chill_micros: self.wind_chill_micros,
            relative_humidity_micros: self.relative_humidity_micros,
            wind_speed_micros: self.wind_speed_micros,
            wind_direction_micros: self.wind_direction_micros,
            wind_gust_micros: self.wind_gust_micros,
            text_description: v4_opt_string_model(self.text_description),
            provenance: self.provenance@,
        }
    }
}

impl View for WeatherV4 {
    type V = WeatherV4Model;

    open spec fn view(&self) -> WeatherV4Model {
        WeatherV4Model {
            station_id: self.station_id@,
            current_temperature_milli_c: self.current_temperature_milli_c,
            running_high_milli_c: self.running_high_milli_c,
            running_low_milli_c: self.running_low_milli_c,
            last_metar_at_unix_ms: self.last_metar_at_unix_ms,
            dsm_high_milli_c: self.dsm_high_milli_c,
            dsm_low_milli_c: self.dsm_low_milli_c,
            dsm_high_at_unix_ms: self.dsm_high_at_unix_ms,
            dsm_low_at_unix_ms: self.dsm_low_at_unix_ms,
            six_hour_high_milli_c: self.six_hour_high_milli_c,
            six_hour_low_milli_c: self.six_hour_low_milli_c,
            asos_daily_high_milli_c: self.asos_daily_high_milli_c,
            asos_daily_low_milli_c: self.asos_daily_low_milli_c,
            wu_current_temperature_milli_c: self.wu_current_temperature_milli_c,
            wu_daily_high_milli_c: self.wu_daily_high_milli_c,
            wu_daily_low_milli_c: self.wu_daily_low_milli_c,
            dewpoint_micros: self.dewpoint_micros,
            heat_index_micros: self.heat_index_micros,
            wind_chill_micros: self.wind_chill_micros,
            relative_humidity_micros: self.relative_humidity_micros,
            wind_speed_micros: self.wind_speed_micros,
            wind_direction_micros: self.wind_direction_micros,
            wind_gust_micros: self.wind_gust_micros,
            text_description: v4_opt_string_model(self.text_description),
            preliminary: self.preliminary,
        }
    }
}

impl View for ExtremeV4 {
    type V = ExtremeV4Model;

    open spec fn view(&self) -> ExtremeV4Model {
        ExtremeV4Model {
            value_milli_c: self.value_milli_c,
            previous_value_milli_c: self.previous_value_milli_c,
            observed_at_unix_ms: self.observed_at_unix_ms,
            temperature_day_mode: v4_opt_string_model(self.temperature_day_mode),
            temperature_day_date: v4_opt_string_model(self.temperature_day_date),
            is_from_report: self.is_from_report,
            report_type: v4_opt_string_model(self.report_type),
            source_report_id: v4_opt_string_model(self.source_report_id),
            provenance: self.provenance@,
        }
    }
}

impl View for ExtremaV4 {
    type V = ExtremaV4Model;

    open spec fn view(&self) -> ExtremaV4Model {
        ExtremaV4Model {
            high: v4_opt_extreme_model(self.high),
            low: v4_opt_extreme_model(self.low),
        }
    }
}

impl View for ReportV4 {
    type V = ReportV4Model;

    open spec fn view(&self) -> ReportV4Model {
        ReportV4Model {
            report_id: self.report_id@,
            report_type: self.report_type@,
            report_date: self.report_date@,
            authority: self.authority,
            revision: self.revision,
            generation: self.generation,
            issued_at_unix_ms: self.issued_at_unix_ms,
            updated_at_unix_ms: self.updated_at_unix_ms,
            fetched_at_unix_ms: self.fetched_at_unix_ms,
            provider: self.provider@,
            source_url: self.source_url@,
            max_temperature_milli_c: self.max_temperature_milli_c,
            min_temperature_milli_c: self.min_temperature_milli_c,
            temperature_milli_c: self.temperature_milli_c,
            temperature_milli_f: self.temperature_milli_f,
            max_temperature_at_unix_ms: self.max_temperature_at_unix_ms,
            min_temperature_at_unix_ms: self.min_temperature_at_unix_ms,
            provenance: self.provenance@,
        }
    }
}

impl View for WeatherEventSourceV4 {
    type V = WeatherEventSourceV4Model;

    open spec fn view(&self) -> WeatherEventSourceV4Model {
        WeatherEventSourceV4Model {
            metar_type: v4_opt_string_model(self.metar_type),
            flight_category: v4_opt_string_model(self.flight_category),
            wx_string: v4_opt_string_model(self.wx_string),
            wx_token: v4_opt_string_model(self.wx_token),
            wind_speed_knots_micros: self.wind_speed_knots_micros,
            wind_gust_knots_micros: self.wind_gust_knots_micros,
            peak_wind_knots_micros: self.peak_wind_knots_micros,
            peak_wind_direction: self.peak_wind_direction,
            visibility_miles_micros: self.visibility_miles_micros,
            cb_location: v4_opt_string_model(self.cb_location),
        }
    }
}

impl View for WeatherEventV4 {
    type V = WeatherEventV4Model;

    open spec fn view(&self) -> WeatherEventV4Model {
        WeatherEventV4Model {
            event_id: self.event_id@,
            event_type: self.event_type@,
            tier: self.tier@,
            state: self.state@,
            authority: self.authority,
            revision: self.revision,
            generation: self.generation,
            name: self.name@,
            badge: self.badge@,
            detail: self.detail@,
            summary: self.summary@,
            started_at_unix_ms: self.started_at_unix_ms,
            last_confirmed_at_unix_ms: self.last_confirmed_at_unix_ms,
            ended_at_unix_ms: self.ended_at_unix_ms,
            source: v4_opt_weather_event_source_model(self.source),
            provenance: self.provenance@,
        }
    }
}

impl View for ForecastPointV4 {
    type V = ForecastPointV4Model;

    open spec fn view(&self) -> ForecastPointV4Model {
        ForecastPointV4Model {
            at_unix_ms: self.at_unix_ms,
            temperature_milli_c: self.temperature_milli_c,
            apparent_temperature_milli_c: self.apparent_temperature_milli_c,
            humidity_millionths: self.humidity_millionths,
            dew_point_milli_c: self.dew_point_milli_c,
            pressure_msl_micros: self.pressure_msl_micros,
            wind_speed_micros: self.wind_speed_micros,
            wind_direction_degrees: self.wind_direction_degrees,
            wind_gust_micros: self.wind_gust_micros,
            cloud_cover_millionths: self.cloud_cover_millionths,
            precipitation_probability_millionths: self.precipitation_probability_millionths,
            weather_code: self.weather_code,
        }
    }
}

impl View for ForecastModelV4 {
    type V = ForecastModelV4Model;

    open spec fn view(&self) -> ForecastModelV4Model {
        ForecastModelV4Model {
            model_id: self.model_id@,
            version: self.version@,
            run_id: v4_opt_string_model(self.run_id),
            fetched_at_unix_ms: self.fetched_at_unix_ms,
            issued_at_unix_ms: self.issued_at_unix_ms,
            timezone: v4_opt_string_model(self.timezone),
            utc_offset_seconds: self.utc_offset_seconds,
            hourly: self.hourly@.map_values(v4_forecast_point_viewer()),
        }
    }
}

impl View for ForecastV4 {
    type V = ForecastV4Model;

    open spec fn view(&self) -> ForecastV4Model {
        ForecastV4Model {
            advertised_versions: self.advertised_versions@.map_values(v4_string_string_pair_viewer()),
            models: self.models@.map_values(v4_forecast_model_viewer()),
        }
    }
}

impl View for OracleQueryV4 {
    type V = OracleQueryV4Model;

    open spec fn view(&self) -> OracleQueryV4Model {
        OracleQueryV4Model {
            station_id: self.station_id@,
            mode: self.mode@,
            rank_by: self.rank_by,
            days: self.days,
        }
    }
}

impl View for OracleRowV4 {
    type V = OracleRowV4Model;

    open spec fn view(&self) -> OracleRowV4Model {
        OracleRowV4Model {
            rank: self.rank,
            model_id: self.model_id@,
            model_name: self.model_name@,
            is_public: self.is_public,
            high_mae_millionths: self.high_mae_millionths,
            low_mae_millionths: self.low_mae_millionths,
            combined_mae_millionths: self.combined_mae_millionths,
            high_bias_millionths: self.high_bias_millionths,
            low_bias_millionths: self.low_bias_millionths,
            day_count: self.day_count,
        }
    }
}

impl View for OracleTableV4 {
    type V = OracleTableV4Model;

    open spec fn view(&self) -> OracleTableV4Model {
        OracleTableV4Model {
            query: self.query@,
            range_start: self.range_start@,
            range_end: self.range_end@,
            updated_at_unix_ms: self.updated_at_unix_ms,
            rows: self.rows@.map_values(v4_oracle_row_viewer()),
            provenance: self.provenance@,
        }
    }
}

impl View for CursorV4 {
    type V = CursorV4Model;

    open spec fn view(&self) -> CursorV4Model {
        CursorV4Model {
            connection_generation: self.connection_generation,
            event_id: self.event_id@,
            sequence: self.sequence,
            city_sequence: self.city_sequence,
            emitted_at_unix_ms: self.emitted_at_unix_ms,
            received_at_unix_ms: self.received_at_unix_ms,
            snapshot_complete: self.snapshot_complete,
        }
    }
}

impl View for StationV4 {
    type V = StationV4Model;

    open spec fn view(&self) -> StationV4Model {
        StationV4Model {
            contract_version: self.contract_version@,
            revision: self.revision,
            climate_event_date: self.climate_event_date@,
            climate_day_start_utc_unix_ms: self.climate_day_start_utc_unix_ms,
            climate_day_end_utc_unix_ms: self.climate_day_end_utc_unix_ms,
            identity: self.identity@,
            observation_meta: self.observation_meta@,
            observation: self.observation@,
            weather_meta: self.weather_meta@,
            weather: self.weather@,
            extrema_meta: self.extrema_meta@,
            extrema: self.extrema@,
            reports_meta: self.reports_meta@,
            reports: self.reports@.map_values(v4_report_viewer()),
            weather_events_meta: self.weather_events_meta@,
            weather_events: self.weather_events@.map_values(v4_weather_event_viewer()),
            forecast_meta: self.forecast_meta@,
            forecast: self.forecast@,
            oracle_meta: self.oracle_meta@,
            oracle: self.oracle@,
            provider_cursor: self.provider_cursor@,
            evidence: self.evidence@.map_values(v4_evidence_viewer()),
        }
    }
}

impl View for MarketMetaV4 {
    type V = MarketMetaV4Model;

    open spec fn view(&self) -> MarketMetaV4Model {
        MarketMetaV4Model {
            authority: self.authority,
            revision: self.revision,
            generation: self.generation,
            updated_at_unix_ms: self.updated_at_unix_ms,
            expected_version: v4_opt_string_model(self.expected_version),
            refresh_error: v4_opt_string_model(self.refresh_error),
            provenance: self.provenance@.map_values(v4_provenance_viewer()),
        }
    }
}

impl View for MarketIdentityV4 {
    type V = MarketIdentityV4Model;

    open spec fn view(&self) -> MarketIdentityV4Model {
        MarketIdentityV4Model {
            market_id: self.market_id@,
            opportunity_id: self.opportunity_id@,
            venue: self.venue@,
            event_ticker: self.event_ticker@,
            series_ticker: self.series_ticker@,
            strike_type: self.strike_type@,
            fee_type: self.fee_type@,
            fee_multiplier_millionths: self.fee_multiplier_millionths,
            floor_strike_milli_c: self.floor_strike_milli_c,
            floor_strike_milli_f: self.floor_strike_milli_f,
            cap_strike_milli_c: self.cap_strike_milli_c,
            close_at_unix_ms: self.close_at_unix_ms,
            expiration_at_unix_ms: self.expiration_at_unix_ms,
        }
    }
}

impl View for MarketLifecycleV4 {
    type V = MarketLifecycleV4Model;

    open spec fn view(&self) -> MarketLifecycleV4Model {
        MarketLifecycleV4Model {
            status: self.status@,
            result: v4_opt_string_model(self.result),
            connection_epoch: self.connection_epoch,
            received_frame_ordinal: self.received_frame_ordinal,
            open_at_unix_ms: self.open_at_unix_ms,
            close_at_unix_ms: self.close_at_unix_ms,
            settled_at_unix_ms: self.settled_at_unix_ms,
            updated_at_unix_ms: self.updated_at_unix_ms,
        }
    }
}

impl View for TickerV4 {
    type V = TickerV4Model;

    open spec fn view(&self) -> TickerV4Model {
        TickerV4Model {
            yes_bid_micros: self.yes_bid_micros,
            yes_ask_micros: self.yes_ask_micros,
            no_bid_micros: self.no_bid_micros,
            no_ask_micros: self.no_ask_micros,
            yes_bid_quantity_hundredths: self.yes_bid_quantity_hundredths,
            yes_ask_quantity_hundredths: self.yes_ask_quantity_hundredths,
            no_bid_quantity_hundredths: self.no_bid_quantity_hundredths,
            no_ask_quantity_hundredths: self.no_ask_quantity_hundredths,
            last_price_micros: self.last_price_micros,
            last_trade_quantity_hundredths: self.last_trade_quantity_hundredths,
            volume_hundredths: self.volume_hundredths,
            volume_24h_hundredths: self.volume_24h_hundredths,
            open_interest_hundredths: self.open_interest_hundredths,
            provider_at_unix_ms: self.provider_at_unix_ms,
        }
    }
}

impl View for BookLevelV4 {
    type V = BookLevelV4Model;

    open spec fn view(&self) -> BookLevelV4Model {
        BookLevelV4Model {
            price_micros: self.price_micros,
            quantity_hundredths: self.quantity_hundredths,
        }
    }
}

impl View for BookV4 {
    type V = BookV4Model;

    open spec fn view(&self) -> BookV4Model {
        BookV4Model {
            connection_epoch: self.connection_epoch,
            sid: self.sid,
            sequence: self.sequence,
            snapshot_at_unix_ms: self.snapshot_at_unix_ms,
            resync_required: self.resync_required,
            yes_bids: self.yes_bids@.map_values(v4_book_level_viewer()),
            no_bids: self.no_bids@.map_values(v4_book_level_viewer()),
        }
    }
}

impl View for LastTradeV4 {
    type V = LastTradeV4Model;

    open spec fn view(&self) -> LastTradeV4Model {
        LastTradeV4Model {
            trade_id: self.trade_id@,
            yes_price_micros: self.yes_price_micros,
            no_price_micros: self.no_price_micros,
            quantity_hundredths: self.quantity_hundredths,
            taker_side: v4_opt_string_model(self.taker_side),
            traded_at_unix_ms: self.traded_at_unix_ms,
        }
    }
}

impl View for FinalFactV4 {
    type V = FinalFactV4Model;

    open spec fn view(&self) -> FinalFactV4Model {
        FinalFactV4Model {
            status: self.status@,
            result: self.result@,
            settlement_value_micros: self.settlement_value_micros,
            settled_price_micros: self.settled_price_micros,
            provider_at_unix_ms: self.provider_at_unix_ms,
        }
    }
}

impl View for MarketComparisonV4 {
    type V = MarketComparisonV4Model;

    open spec fn view(&self) -> MarketComparisonV4Model {
        MarketComparisonV4Model {
            source: self.source@,
            event_id: self.event_id@,
            event_date: self.event_date@,
            sequence: self.sequence,
            provider_at_unix_ms: self.provider_at_unix_ms,
            yes_bid_micros: self.yes_bid_micros,
            yes_ask_micros: self.yes_ask_micros,
            no_bid_micros: self.no_bid_micros,
            no_ask_micros: self.no_ask_micros,
            volume_hundredths: self.volume_hundredths,
            evidence_sha256: self.evidence_sha256@,
        }
    }
}

impl View for MarketV4 {
    type V = MarketV4Model;

    open spec fn view(&self) -> MarketV4Model {
        MarketV4Model {
            contract_version: self.contract_version@,
            revision: self.revision,
            identity: self.identity@,
            lifecycle_meta: self.lifecycle_meta@,
            lifecycle: v4_opt_market_lifecycle_model(self.lifecycle),
            ticker_meta: self.ticker_meta@,
            ticker: v4_opt_ticker_model(self.ticker),
            book_meta: self.book_meta@,
            book: v4_opt_book_model(self.book),
            last_trade_meta: self.last_trade_meta@,
            last_trade: v4_opt_last_trade_model(self.last_trade),
            final_fact_meta: self.final_fact_meta@,
            final_fact: v4_opt_final_fact_model(self.final_fact),
            field_provenance: self.field_provenance@.map_values(v4_string_provenance_pair_viewer()),
            evidence: self.evidence@.map_values(v4_evidence_viewer()),
            minutetemp_comparison: v4_opt_market_comparison_model(self.minutetemp_comparison),
            uncertain_fields: self.uncertain_fields@.map_values(v4_string_viewer()),
        }
    }
}

impl View for OpportunityV4 {
    type V = OpportunityV4Model;

    open spec fn view(&self) -> OpportunityV4Model {
        OpportunityV4Model {
            opportunity_id: self.opportunity_id@,
            venue_id: self.venue_id@,
            match_profile: self.match_profile@,
            resolved_scope: self.resolved_scope@,
            lifecycle: self.lifecycle,
            close_time_unix_seconds: self.close_time_unix_seconds,
            market_ids: self.market_ids@.map_values(v4_string_viewer()),
            contributor_stations: self.contributor_stations@.map_values(v4_string_viewer()),
            authority: self.authority,
        }
    }
}

impl View for BrokerV4 {
    type V = BrokerV4Model;

    open spec fn view(&self) -> BrokerV4Model {
        BrokerV4Model {
            revision: self.revision,
            venue_account_id: self.venue_account_id@,
            sleeve_id: self.sleeve_id@,
            provider_available_balance: self.provider_available_balance,
            locally_reserved_cash: self.locally_reserved_cash,
            portfolio_value: self.portfolio_value,
            allowance_limit: self.allowance_limit,
            current_commitment: self.current_commitment,
            exposure_increase: self.exposure_increase,
            reduce_only_protective: self.reduce_only_protective,
            cancellation: self.cancellation,
            reconciliation_allocation: self.reconciliation_allocation,
        }
    }
}

impl View for ConfigV4 {
    type V = ConfigV4Model;

    open spec fn view(&self) -> ConfigV4Model {
        ConfigV4Model {
            revision: self.revision,
            profile_and_calculator_digest: self.profile_and_calculator_digest@,
        }
    }
}

impl View for SupervisorV4 {
    type V = SupervisorV4Model;

    open spec fn view(&self) -> SupervisorV4Model {
        SupervisorV4Model {
            sleeve_id: self.sleeve_id@,
            incarnation: self.incarnation,
            process_attempt: self.process_attempt,
            route_epoch: self.route_epoch,
        }
    }
}

impl View for ResourceRevisionV4 {
    type V = ResourceRevisionV4Model;

    open spec fn view(&self) -> ResourceRevisionV4Model {
        ResourceRevisionV4Model {
            identity: self.identity@,
            revision: self.revision,
            generation: self.generation,
        }
    }
}

impl View for FenceV4 {
    type V = FenceV4Model;

    open spec fn view(&self) -> FenceV4Model {
        FenceV4Model {
            sleeve_incarnation: self.sleeve_incarnation,
            config_revision: self.config_revision,
            profile_and_calculator_digest: self.profile_and_calculator_digest@,
            route_epoch: self.route_epoch,
            route_plan_sha256: self.route_plan_sha256@,
            source_revision: self.source_revision,
            source_generation: self.source_generation,
            catalog_revision: self.catalog_revision,
            market_authority_generation: self.market_authority_generation,
            price_revision: self.price_revision,
            broker_revision: self.broker_revision,
            station_resources: self.station_resources@.map_values(v4_resource_revision_viewer()),
            market_revisions: self.market_revisions@.map_values(v4_resource_revision_viewer()),
        }
    }
}

impl View for TimerRecoveryV4 {
    type V = TimerRecoveryV4Model;

    open spec fn view(&self) -> TimerRecoveryV4Model {
        TimerRecoveryV4Model {
            key: self.key@,
            scheduled_at: self.scheduled_at,
            generation: self.generation@,
            admission_state: self.admission_state,
        }
    }
}

impl View for DecisionContextV4 {
    type V = DecisionContextV4Model;

    open spec fn view(&self) -> DecisionContextV4Model {
        DecisionContextV4Model {
            delivery_id: self.delivery_id@,
            sleeve: self.sleeve@,
            trigger: self.trigger@,
            fence: self.fence@,
            config: self.config@,
            stations: self.stations@.map_values(v4_station_viewer()),
            opportunity: self.opportunity@,
            markets: self.markets@.map_values(v4_market_viewer()),
            broker: self.broker@,
            timer_recovery: v4_opt_list_timer_recovery_model(self.timer_recovery),
            delivered_at_monotonic_ns: self.delivered_at_monotonic_ns,
            hard_expires_at_monotonic_ns: self.hard_expires_at_monotonic_ns,
        }
    }
}

impl View for TriggerV4 {
    type V = TriggerV4Model;

    open spec fn view(&self) -> TriggerV4Model {
        match self {
            TriggerV4::Weather { station_id, source_generation, source_sequence } => TriggerV4Model::Weather { station_id: station_id@, source_generation: *source_generation, source_sequence: *source_sequence },
            TriggerV4::StationReport { station_id, report_id, report_type, report_revision, provider, source_generation, source_sequence } => TriggerV4Model::StationReport { station_id: station_id@, report_id: report_id@, report_type: report_type@, report_revision: *report_revision, provider: provider@, source_generation: *source_generation, source_sequence: *source_sequence },
            TriggerV4::MarketPrice { market_id, price_revision } => TriggerV4Model::MarketPrice { market_id: market_id@, price_revision: *price_revision },
            TriggerV4::Timer { key } => TriggerV4Model::Timer { key: key@ },
            TriggerV4::Bootstrap => TriggerV4Model::Bootstrap,
            TriggerV4::Recovery => TriggerV4Model::Recovery,
        }
    }
}

// ---------------------------------------------------------------------------------------------
// Readers
// ---------------------------------------------------------------------------------------------

pub open spec fn v4_string_provenance_pair_reader() -> spec_fn(Seq<u8>, int) -> Option<((Seq<char>, ProvenanceV4Model), int)> {
    |b: Seq<u8>, p: int| v4_string_provenance_pair_at(b, p)
}

pub open spec fn v4_list_string_provenance_pair_at(b: Seq<u8>, p: int) -> Option<(Seq<(Seq<char>, ProvenanceV4Model)>, int)> {
    flist_at(b, p, v4_string_provenance_pair_reader())
}

pub open spec fn v4_string_string_pair_reader() -> spec_fn(Seq<u8>, int) -> Option<((Seq<char>, Seq<char>), int)> {
    |b: Seq<u8>, p: int| v4_string_string_pair_at(b, p)
}

pub open spec fn v4_list_string_string_pair_at(b: Seq<u8>, p: int) -> Option<(Seq<(Seq<char>, Seq<char>)>, int)> {
    flist_at(b, p, v4_string_string_pair_reader())
}

pub open spec fn v4_book_level_reader() -> spec_fn(Seq<u8>, int) -> Option<(BookLevelV4Model, int)> {
    |b: Seq<u8>, p: int| v4_book_level_at(b, p)
}

pub open spec fn v4_list_book_level_at(b: Seq<u8>, p: int) -> Option<(Seq<BookLevelV4Model>, int)> {
    flist_at(b, p, v4_book_level_reader())
}

pub open spec fn v4_evidence_reader() -> spec_fn(Seq<u8>, int) -> Option<(EvidenceV4Model, int)> {
    |b: Seq<u8>, p: int| v4_evidence_at(b, p)
}

pub open spec fn v4_list_evidence_at(b: Seq<u8>, p: int) -> Option<(Seq<EvidenceV4Model>, int)> {
    flist_at(b, p, v4_evidence_reader())
}

pub open spec fn v4_forecast_model_reader() -> spec_fn(Seq<u8>, int) -> Option<(ForecastModelV4Model, int)> {
    |b: Seq<u8>, p: int| v4_forecast_model_at(b, p)
}

pub open spec fn v4_list_forecast_model_at(b: Seq<u8>, p: int) -> Option<(Seq<ForecastModelV4Model>, int)> {
    flist_at(b, p, v4_forecast_model_reader())
}

pub open spec fn v4_forecast_point_reader() -> spec_fn(Seq<u8>, int) -> Option<(ForecastPointV4Model, int)> {
    |b: Seq<u8>, p: int| v4_forecast_point_at(b, p)
}

pub open spec fn v4_list_forecast_point_at(b: Seq<u8>, p: int) -> Option<(Seq<ForecastPointV4Model>, int)> {
    flist_at(b, p, v4_forecast_point_reader())
}

pub open spec fn v4_market_reader() -> spec_fn(Seq<u8>, int) -> Option<(MarketV4Model, int)> {
    |b: Seq<u8>, p: int| v4_market_at(b, p)
}

pub open spec fn v4_list_market_at(b: Seq<u8>, p: int) -> Option<(Seq<MarketV4Model>, int)> {
    flist_at(b, p, v4_market_reader())
}

pub open spec fn v4_oracle_row_reader() -> spec_fn(Seq<u8>, int) -> Option<(OracleRowV4Model, int)> {
    |b: Seq<u8>, p: int| v4_oracle_row_at(b, p)
}

pub open spec fn v4_list_oracle_row_at(b: Seq<u8>, p: int) -> Option<(Seq<OracleRowV4Model>, int)> {
    flist_at(b, p, v4_oracle_row_reader())
}

pub open spec fn v4_provenance_reader() -> spec_fn(Seq<u8>, int) -> Option<(ProvenanceV4Model, int)> {
    |b: Seq<u8>, p: int| v4_provenance_at(b, p)
}

pub open spec fn v4_list_provenance_at(b: Seq<u8>, p: int) -> Option<(Seq<ProvenanceV4Model>, int)> {
    flist_at(b, p, v4_provenance_reader())
}

pub open spec fn v4_report_reader() -> spec_fn(Seq<u8>, int) -> Option<(ReportV4Model, int)> {
    |b: Seq<u8>, p: int| v4_report_at(b, p)
}

pub open spec fn v4_list_report_at(b: Seq<u8>, p: int) -> Option<(Seq<ReportV4Model>, int)> {
    flist_at(b, p, v4_report_reader())
}

pub open spec fn v4_resource_revision_reader() -> spec_fn(Seq<u8>, int) -> Option<(ResourceRevisionV4Model, int)> {
    |b: Seq<u8>, p: int| v4_resource_revision_at(b, p)
}

pub open spec fn v4_list_resource_revision_at(b: Seq<u8>, p: int) -> Option<(Seq<ResourceRevisionV4Model>, int)> {
    flist_at(b, p, v4_resource_revision_reader())
}

pub open spec fn v4_station_reader() -> spec_fn(Seq<u8>, int) -> Option<(StationV4Model, int)> {
    |b: Seq<u8>, p: int| v4_station_at(b, p)
}

pub open spec fn v4_list_station_at(b: Seq<u8>, p: int) -> Option<(Seq<StationV4Model>, int)> {
    flist_at(b, p, v4_station_reader())
}

pub open spec fn v4_string_reader() -> spec_fn(Seq<u8>, int) -> Option<(Seq<char>, int)> {
    |b: Seq<u8>, p: int| fstr_at(b, p)
}

pub open spec fn v4_list_string_at(b: Seq<u8>, p: int) -> Option<(Seq<Seq<char>>, int)> {
    flist_at(b, p, v4_string_reader())
}

pub open spec fn v4_timer_recovery_reader() -> spec_fn(Seq<u8>, int) -> Option<(TimerRecoveryV4Model, int)> {
    |b: Seq<u8>, p: int| v4_timer_recovery_at(b, p)
}

pub open spec fn v4_list_timer_recovery_at(b: Seq<u8>, p: int) -> Option<(Seq<TimerRecoveryV4Model>, int)> {
    flist_at(b, p, v4_timer_recovery_reader())
}

pub open spec fn v4_weather_event_reader() -> spec_fn(Seq<u8>, int) -> Option<(WeatherEventV4Model, int)> {
    |b: Seq<u8>, p: int| v4_weather_event_at(b, p)
}

pub open spec fn v4_list_weather_event_at(b: Seq<u8>, p: int) -> Option<(Seq<WeatherEventV4Model>, int)> {
    flist_at(b, p, v4_weather_event_reader())
}

#[verifier::opaque]
pub open spec fn v4_opt_book_at(b: Seq<u8>, p: int) -> Option<(Option<BookV4Model>, int)> {
    match u8_at(b, p) {
        Some((0, q)) => Some((None, q)),
        Some((1, q)) => match v4_book_at(b, q) {
            Some((x, e)) => Some((Some(x), e)),
            None => None,
        },
        _ => None,
    }
}

#[verifier::opaque]
pub open spec fn v4_opt_extreme_at(b: Seq<u8>, p: int) -> Option<(Option<ExtremeV4Model>, int)> {
    match u8_at(b, p) {
        Some((0, q)) => Some((None, q)),
        Some((1, q)) => match v4_extreme_at(b, q) {
            Some((x, e)) => Some((Some(x), e)),
            None => None,
        },
        _ => None,
    }
}

#[verifier::opaque]
pub open spec fn v4_opt_final_fact_at(b: Seq<u8>, p: int) -> Option<(Option<FinalFactV4Model>, int)> {
    match u8_at(b, p) {
        Some((0, q)) => Some((None, q)),
        Some((1, q)) => match v4_final_fact_at(b, q) {
            Some((x, e)) => Some((Some(x), e)),
            None => None,
        },
        _ => None,
    }
}

#[verifier::opaque]
pub open spec fn v4_opt_last_trade_at(b: Seq<u8>, p: int) -> Option<(Option<LastTradeV4Model>, int)> {
    match u8_at(b, p) {
        Some((0, q)) => Some((None, q)),
        Some((1, q)) => match v4_last_trade_at(b, q) {
            Some((x, e)) => Some((Some(x), e)),
            None => None,
        },
        _ => None,
    }
}

#[verifier::opaque]
pub open spec fn v4_opt_market_comparison_at(b: Seq<u8>, p: int) -> Option<(Option<MarketComparisonV4Model>, int)> {
    match u8_at(b, p) {
        Some((0, q)) => Some((None, q)),
        Some((1, q)) => match v4_market_comparison_at(b, q) {
            Some((x, e)) => Some((Some(x), e)),
            None => None,
        },
        _ => None,
    }
}

#[verifier::opaque]
pub open spec fn v4_opt_market_lifecycle_at(b: Seq<u8>, p: int) -> Option<(Option<MarketLifecycleV4Model>, int)> {
    match u8_at(b, p) {
        Some((0, q)) => Some((None, q)),
        Some((1, q)) => match v4_market_lifecycle_at(b, q) {
            Some((x, e)) => Some((Some(x), e)),
            None => None,
        },
        _ => None,
    }
}

#[verifier::opaque]
pub open spec fn v4_opt_string_at(b: Seq<u8>, p: int) -> Option<(Option<Seq<char>>, int)> {
    match u8_at(b, p) {
        Some((0, q)) => Some((None, q)),
        Some((1, q)) => match fstr_at(b, q) {
            Some((x, e)) => Some((Some(x), e)),
            None => None,
        },
        _ => None,
    }
}

#[verifier::opaque]
pub open spec fn v4_opt_ticker_at(b: Seq<u8>, p: int) -> Option<(Option<TickerV4Model>, int)> {
    match u8_at(b, p) {
        Some((0, q)) => Some((None, q)),
        Some((1, q)) => match v4_ticker_at(b, q) {
            Some((x, e)) => Some((Some(x), e)),
            None => None,
        },
        _ => None,
    }
}

#[verifier::opaque]
pub open spec fn v4_opt_list_timer_recovery_at(b: Seq<u8>, p: int) -> Option<(Option<Seq<TimerRecoveryV4Model>>, int)> {
    match u8_at(b, p) {
        Some((0, q)) => Some((None, q)),
        Some((1, q)) => match v4_list_timer_recovery_at(b, q) {
            Some((x, e)) => Some((Some(x), e)),
            None => None,
        },
        _ => None,
    }
}

#[verifier::opaque]
pub open spec fn v4_opt_weather_event_source_at(b: Seq<u8>, p: int) -> Option<(Option<WeatherEventSourceV4Model>, int)> {
    match u8_at(b, p) {
        Some((0, q)) => Some((None, q)),
        Some((1, q)) => match v4_weather_event_source_at(b, q) {
            Some((x, e)) => Some((Some(x), e)),
            None => None,
        },
        _ => None,
    }
}

#[verifier::opaque]
pub open spec fn v4_opt_bool_at(b: Seq<u8>, p: int) -> Option<(Option<bool>, int)> {
    match u8_at(b, p) {
        Some((0, q)) => Some((None, q)),
        Some((1, q)) => match bool_at(b, q) {
            Some((x, e)) => Some((Some(x), e)),
            None => None,
        },
        _ => None,
    }
}

#[verifier::opaque]
pub open spec fn v4_opt_i32_at(b: Seq<u8>, p: int) -> Option<(Option<i32>, int)> {
    match u8_at(b, p) {
        Some((0, q)) => Some((None, q)),
        Some((1, q)) => match fi32_at(b, q) {
            Some((x, e)) => Some((Some(x), e)),
            None => None,
        },
        _ => None,
    }
}

#[verifier::opaque]
pub open spec fn v4_opt_i64_at(b: Seq<u8>, p: int) -> Option<(Option<i64>, int)> {
    match u8_at(b, p) {
        Some((0, q)) => Some((None, q)),
        Some((1, q)) => match fi64_at(b, q) {
            Some((x, e)) => Some((Some(x), e)),
            None => None,
        },
        _ => None,
    }
}

#[verifier::opaque]
pub open spec fn v4_opt_u16_at(b: Seq<u8>, p: int) -> Option<(Option<u16>, int)> {
    match u8_at(b, p) {
        Some((0, q)) => Some((None, q)),
        Some((1, q)) => match fu16_at(b, q) {
            Some((x, e)) => Some((Some(x), e)),
            None => None,
        },
        _ => None,
    }
}

#[verifier::opaque]
pub open spec fn v4_opt_u64_at(b: Seq<u8>, p: int) -> Option<(Option<u64>, int)> {
    match u8_at(b, p) {
        Some((0, q)) => Some((None, q)),
        Some((1, q)) => match fu64_at(b, q) {
            Some((x, e)) => Some((Some(x), e)),
            None => None,
        },
        _ => None,
    }
}

#[verifier::opaque]
pub open spec fn v4_string_provenance_pair_at(b: Seq<u8>, p: int) -> Option<((Seq<char>, ProvenanceV4Model), int)> {
    match fstr_at(b, p) {
        Some((x, q)) => match v4_provenance_at(b, q) {
            Some((y, e)) => Some(((x, y), e)),
            None => None,
        },
        None => None,
    }
}

#[verifier::opaque]
pub open spec fn v4_string_string_pair_at(b: Seq<u8>, p: int) -> Option<((Seq<char>, Seq<char>), int)> {
    match fstr_at(b, p) {
        Some((x, q)) => match fstr_at(b, q) {
            Some((y, e)) => Some(((x, y), e)),
            None => None,
        },
        None => None,
    }
}

#[verifier::opaque]
pub open spec fn v4_trigger_at(b: Seq<u8>, p: int) -> Option<(TriggerV4Model, int)> {
    match fu32_at(b, p) {
        Some((i, q)) => {
        if i == 0 {
            match fstr_at(b, q) {
                Some((station_id, q1)) => match fu64_at(b, q1) {
                Some((source_generation, q2)) => match fu64_at(b, q2) {
                Some((source_sequence, q3)) => Some((TriggerV4Model::Weather { station_id, source_generation, source_sequence }, q3)),
                None => None,
            },
                None => None,
            },
                None => None,
            }
        } else         if i == 1 {
            match fstr_at(b, q) {
                Some((station_id, q1)) => match fstr_at(b, q1) {
                Some((report_id, q2)) => match fstr_at(b, q2) {
                Some((report_type, q3)) => match fu64_at(b, q3) {
                Some((report_revision, q4)) => match fstr_at(b, q4) {
                Some((provider, q5)) => match fu64_at(b, q5) {
                Some((source_generation, q6)) => match fu64_at(b, q6) {
                Some((source_sequence, q7)) => Some((TriggerV4Model::StationReport { station_id, report_id, report_type, report_revision, provider, source_generation, source_sequence }, q7)),
                None => None,
            },
                None => None,
            },
                None => None,
            },
                None => None,
            },
                None => None,
            },
                None => None,
            },
                None => None,
            }
        } else         if i == 2 {
            match fstr_at(b, q) {
                Some((market_id, q1)) => match fu64_at(b, q1) {
                Some((price_revision, q2)) => Some((TriggerV4Model::MarketPrice { market_id, price_revision }, q2)),
                None => None,
            },
                None => None,
            }
        } else         if i == 3 {
            match fstr_at(b, q) {
                Some((key, q1)) => Some((TriggerV4Model::Timer { key }, q1)),
                None => None,
            }
        } else         if i == 4 {
            Some((TriggerV4Model::Bootstrap, q))
        } else         if i == 5 {
            Some((TriggerV4Model::Recovery, q))
        } else {
            None
        }
        },
        None => None,
    }
}

#[verifier::opaque]
pub open spec fn v4_authority_at(b: Seq<u8>, p: int) -> Option<(AuthorityV4, int)> {
    match fu32_at(b, p) {
        Some((i, q)) => {
        if i == 0 {
            Some((AuthorityV4::Warming, q))
        } else         if i == 1 {
            Some((AuthorityV4::Current, q))
        } else         if i == 2 {
            Some((AuthorityV4::RefreshPending, q))
        } else         if i == 3 {
            Some((AuthorityV4::Uncertain, q))
        } else         if i == 4 {
            Some((AuthorityV4::Unavailable, q))
        } else {
            None
        }
        },
        None => None,
    }
}

#[verifier::opaque]
pub open spec fn v4_rank_by_at(b: Seq<u8>, p: int) -> Option<(RankByV4, int)> {
    match fu32_at(b, p) {
        Some((i, q)) => {
        if i == 0 {
            Some((RankByV4::High, q))
        } else         if i == 1 {
            Some((RankByV4::Low, q))
        } else {
            None
        }
        },
        None => None,
    }
}

#[verifier::opaque]
pub open spec fn v4_lifecycle_at(b: Seq<u8>, p: int) -> Option<(LifecycleV4, int)> {
    match fu32_at(b, p) {
        Some((i, q)) => {
        if i == 0 {
            Some((LifecycleV4::Discovered, q))
        } else         if i == 1 {
            Some((LifecycleV4::Hydrating, q))
        } else         if i == 2 {
            Some((LifecycleV4::Eligible, q))
        } else         if i == 3 {
            Some((LifecycleV4::Uncertain, q))
        } else         if i == 4 {
            Some((LifecycleV4::Ineligible, q))
        } else         if i == 5 {
            Some((LifecycleV4::Terminal, q))
        } else {
            None
        }
        },
        None => None,
    }
}

#[verifier::opaque]
pub open spec fn v4_market_authority_at(b: Seq<u8>, p: int) -> Option<(MarketAuthorityV4, int)> {
    match fu32_at(b, p) {
        Some((i, q)) => {
        if i == 0 {
            Some((MarketAuthorityV4::Current, q))
        } else         if i == 1 {
            Some((MarketAuthorityV4::Uncertain, q))
        } else {
            None
        }
        },
        None => None,
    }
}

#[verifier::opaque]
pub open spec fn v4_gate_status_at(b: Seq<u8>, p: int) -> Option<(GateStatusV4, int)> {
    match fu32_at(b, p) {
        Some((i, q)) => {
        if i == 0 {
            Some((GateStatusV4::Open, q))
        } else         if i == 1 {
            Some((GateStatusV4::ClosedFinanceUnavailable, q))
        } else         if i == 2 {
            Some((GateStatusV4::ClosedAdmissionDenied, q))
        } else         if i == 3 {
            Some((GateStatusV4::ClosedRecoveryRequired, q))
        } else {
            None
        }
        },
        None => None,
    }
}

#[verifier::opaque]
pub open spec fn v4_provenance_part0_at(b: Seq<u8>, p: int) -> Option<((Seq<char>, Seq<char>, Option<Seq<char>>, Option<u64>, Option<u64>, Option<u64>, Option<u64>, Option<u64>), int)> {
    match fstr_at(b, p) {
        Some((provider, p1)) => match fstr_at(b, p1) {
        Some((source, p2)) => match v4_opt_string_at(b, p2) {
        Some((event_id, p3)) => match v4_opt_u64_at(b, p3) {
        Some((connection_epoch, p4)) => match v4_opt_u64_at(b, p4) {
        Some((sid, p5)) => match v4_opt_u64_at(b, p5) {
        Some((sequence, p6)) => match v4_opt_u64_at(b, p6) {
        Some((city_sequence, p7)) => match v4_opt_u64_at(b, p7) {
        Some((producer_sequence, p8)) => Some(((provider, source, event_id, connection_epoch, sid, sequence, city_sequence, producer_sequence), p8)),
        None => None,
    },
        None => None,
    },
        None => None,
    },
        None => None,
    },
        None => None,
    },
        None => None,
    },
        None => None,
    },
        None => None,
    }
}

#[verifier::opaque]
pub open spec fn v4_provenance_part1_at(b: Seq<u8>, p: int) -> Option<((Option<u64>, Option<i64>, i64), int)> {
    match v4_opt_u64_at(b, p) {
        Some((received_frame_ordinal, p1)) => match v4_opt_i64_at(b, p1) {
        Some((provider_at_unix_ms, p2)) => match fi64_at(b, p2) {
        Some((received_at_unix_ms, p3)) => Some(((received_frame_ordinal, provider_at_unix_ms, received_at_unix_ms), p3)),
        None => None,
    },
        None => None,
    },
        None => None,
    }
}

#[verifier::opaque]
pub open spec fn v4_provenance_at(b: Seq<u8>, p: int) -> Option<(ProvenanceV4Model, int)> {
    match v4_provenance_part0_at(b, p) {
        Some((c0, q1)) => match v4_provenance_part1_at(b, q1) {
        Some((c1, q2)) => Some((ProvenanceV4Model { provider: c0.0, source: c0.1, event_id: c0.2, connection_epoch: c0.3, sid: c0.4, sequence: c0.5, city_sequence: c0.6, producer_sequence: c0.7, received_frame_ordinal: c1.0, provider_at_unix_ms: c1.1, received_at_unix_ms: c1.2 }, q2)),
        None => None,
    },
        None => None,
    }
}

#[verifier::opaque]
pub open spec fn v4_evidence_at(b: Seq<u8>, p: int) -> Option<(EvidenceV4Model, int)> {
    match fstr_at(b, p) {
        Some((kind, p1)) => match array32_at(b, p1) {
        Some((sha256, p2)) => match fstr_at(b, p2) {
        Some((reference, p3)) => match fu64_at(b, p3) {
        Some((byte_count, p4)) => Some((EvidenceV4Model { kind, sha256, reference, byte_count }, p4)),
        None => None,
    },
        None => None,
    },
        None => None,
    },
        None => None,
    }
}

#[verifier::opaque]
pub open spec fn v4_component_meta_at(b: Seq<u8>, p: int) -> Option<(ComponentMetaV4Model, int)> {
    match v4_authority_at(b, p) {
        Some((authority, p1)) => match fu64_at(b, p1) {
        Some((revision, p2)) => match fu64_at(b, p2) {
        Some((generation, p3)) => match v4_opt_i64_at(b, p3) {
        Some((updated_at_unix_ms, p4)) => match v4_opt_string_at(b, p4) {
        Some((expected_version, p5)) => match v4_list_provenance_at(b, p5) {
        Some((provenance, p6)) => match v4_opt_string_at(b, p6) {
        Some((refresh_error, p7)) => Some((ComponentMetaV4Model { authority, revision, generation, updated_at_unix_ms, expected_version, provenance, refresh_error }, p7)),
        None => None,
    },
        None => None,
    },
        None => None,
    },
        None => None,
    },
        None => None,
    },
        None => None,
    },
        None => None,
    }
}

#[verifier::opaque]
pub open spec fn v4_station_identity_at(b: Seq<u8>, p: int) -> Option<(StationIdentityV4Model, int)> {
    match fstr_at(b, p) {
        Some((station_id, p1)) => match v4_opt_string_at(b, p1) {
        Some((city_id, p2)) => match v4_opt_string_at(b, p2) {
        Some((city_slug, p3)) => match fstr_at(b, p3) {
        Some((logical_location, p4)) => match v4_opt_string_at(b, p4) {
        Some((name, p5)) => match v4_opt_i64_at(b, p5) {
        Some((latitude_micros, p6)) => match v4_opt_i64_at(b, p6) {
        Some((longitude_micros, p7)) => match fstr_at(b, p7) {
        Some((timezone, p8)) => Some((StationIdentityV4Model { station_id, city_id, city_slug, logical_location, name, latitude_micros, longitude_micros, timezone }, p8)),
        None => None,
    },
        None => None,
    },
        None => None,
    },
        None => None,
    },
        None => None,
    },
        None => None,
    },
        None => None,
    },
        None => None,
    }
}

#[verifier::opaque]
pub open spec fn v4_observation_part0_at(b: Seq<u8>, p: int) -> Option<((Seq<char>, i64, Option<i64>, Option<i64>, Option<i64>, Option<i64>, bool, Option<Seq<char>>), int)> {
    match fstr_at(b, p) {
        Some((station_id, p1)) => match fi64_at(b, p1) {
        Some((observed_at_unix_ms, p2)) => match v4_opt_i64_at(b, p2) {
        Some((source_timestamp_unix_ms, p3)) => match v4_opt_i64_at(b, p3) {
        Some((producer_received_at_unix_ms, p4)) => match v4_opt_i64_at(b, p4) {
        Some((live_published_at_unix_ms, p5)) => match v4_opt_i64_at(b, p5) {
        Some((lag_ms, p6)) => match bool_at(b, p6) {
        Some((preliminary, p7)) => match v4_opt_string_at(b, p7) {
        Some((persistence_status, p8)) => Some(((station_id, observed_at_unix_ms, source_timestamp_unix_ms, producer_received_at_unix_ms, live_published_at_unix_ms, lag_ms, preliminary, persistence_status), p8)),
        None => None,
    },
        None => None,
    },
        None => None,
    },
        None => None,
    },
        None => None,
    },
        None => None,
    },
        None => None,
    },
        None => None,
    }
}

#[verifier::opaque]
pub open spec fn v4_observation_part1_at(b: Seq<u8>, p: int) -> Option<((Option<i32>, Option<i32>, Option<i32>, Option<i32>, Option<i32>, Option<i32>, Option<i64>, Option<i64>), int)> {
    match v4_opt_i32_at(b, p) {
        Some((temperature_milli_c, p1)) => match v4_opt_i32_at(b, p1) {
        Some((temperature_min_milli_c, p2)) => match v4_opt_i32_at(b, p2) {
        Some((temperature_max_milli_c, p3)) => match v4_opt_i32_at(b, p3) {
        Some((wu_current_temperature_milli_c, p4)) => match v4_opt_i32_at(b, p4) {
        Some((wu_daily_high_milli_c, p5)) => match v4_opt_i32_at(b, p5) {
        Some((wu_daily_low_milli_c, p6)) => match v4_opt_i64_at(b, p6) {
        Some((wu_observation_at_unix_ms, p7)) => match v4_opt_i64_at(b, p7) {
        Some((wu_fetched_at_unix_ms, p8)) => Some(((temperature_milli_c, temperature_min_milli_c, temperature_max_milli_c, wu_current_temperature_milli_c, wu_daily_high_milli_c, wu_daily_low_milli_c, wu_observation_at_unix_ms, wu_fetched_at_unix_ms), p8)),
        None => None,
    },
        None => None,
    },
        None => None,
    },
        None => None,
    },
        None => None,
    },
        None => None,
    },
        None => None,
    },
        None => None,
    }
}

#[verifier::opaque]
pub open spec fn v4_observation_part2_at(b: Seq<u8>, p: int) -> Option<((Option<Seq<char>>, Option<Seq<char>>, Option<Seq<char>>, Option<Seq<char>>, bool, Option<Seq<char>>, Option<Seq<char>>, Option<i64>), int)> {
    match v4_opt_string_at(b, p) {
        Some((temperature_day_mode, p1)) => match v4_opt_string_at(b, p1) {
        Some((temperature_day_date, p2)) => match v4_opt_string_at(b, p2) {
        Some((wu_day_mode, p3)) => match v4_opt_string_at(b, p3) {
        Some((wu_day_date, p4)) => match bool_at(b, p4) {
        Some((is_from_report, p5)) => match v4_opt_string_at(b, p5) {
        Some((report_type, p6)) => match v4_opt_string_at(b, p6) {
        Some((source_report_id, p7)) => match v4_opt_i64_at(b, p7) {
        Some((dewpoint_micros, p8)) => Some(((temperature_day_mode, temperature_day_date, wu_day_mode, wu_day_date, is_from_report, report_type, source_report_id, dewpoint_micros), p8)),
        None => None,
    },
        None => None,
    },
        None => None,
    },
        None => None,
    },
        None => None,
    },
        None => None,
    },
        None => None,
    },
        None => None,
    }
}

#[verifier::opaque]
pub open spec fn v4_observation_part3_at(b: Seq<u8>, p: int) -> Option<((Option<i64>, Option<i64>, Option<i64>, Option<i64>, Option<i64>, Option<i64>, Option<Seq<char>>, ProvenanceV4Model), int)> {
    match v4_opt_i64_at(b, p) {
        Some((heat_index_micros, p1)) => match v4_opt_i64_at(b, p1) {
        Some((wind_chill_micros, p2)) => match v4_opt_i64_at(b, p2) {
        Some((relative_humidity_micros, p3)) => match v4_opt_i64_at(b, p3) {
        Some((wind_speed_micros, p4)) => match v4_opt_i64_at(b, p4) {
        Some((wind_direction_micros, p5)) => match v4_opt_i64_at(b, p5) {
        Some((wind_gust_micros, p6)) => match v4_opt_string_at(b, p6) {
        Some((text_description, p7)) => match v4_provenance_at(b, p7) {
        Some((provenance, p8)) => Some(((heat_index_micros, wind_chill_micros, relative_humidity_micros, wind_speed_micros, wind_direction_micros, wind_gust_micros, text_description, provenance), p8)),
        None => None,
    },
        None => None,
    },
        None => None,
    },
        None => None,
    },
        None => None,
    },
        None => None,
    },
        None => None,
    },
        None => None,
    }
}

#[verifier::opaque]
pub open spec fn v4_observation_at(b: Seq<u8>, p: int) -> Option<(ObservationV4Model, int)> {
    match v4_observation_part0_at(b, p) {
        Some((c0, q1)) => match v4_observation_part1_at(b, q1) {
        Some((c1, q2)) => match v4_observation_part2_at(b, q2) {
        Some((c2, q3)) => match v4_observation_part3_at(b, q3) {
        Some((c3, q4)) => Some((ObservationV4Model { station_id: c0.0, observed_at_unix_ms: c0.1, source_timestamp_unix_ms: c0.2, producer_received_at_unix_ms: c0.3, live_published_at_unix_ms: c0.4, lag_ms: c0.5, preliminary: c0.6, persistence_status: c0.7, temperature_milli_c: c1.0, temperature_min_milli_c: c1.1, temperature_max_milli_c: c1.2, wu_current_temperature_milli_c: c1.3, wu_daily_high_milli_c: c1.4, wu_daily_low_milli_c: c1.5, wu_observation_at_unix_ms: c1.6, wu_fetched_at_unix_ms: c1.7, temperature_day_mode: c2.0, temperature_day_date: c2.1, wu_day_mode: c2.2, wu_day_date: c2.3, is_from_report: c2.4, report_type: c2.5, source_report_id: c2.6, dewpoint_micros: c2.7, heat_index_micros: c3.0, wind_chill_micros: c3.1, relative_humidity_micros: c3.2, wind_speed_micros: c3.3, wind_direction_micros: c3.4, wind_gust_micros: c3.5, text_description: c3.6, provenance: c3.7 }, q4)),
        None => None,
    },
        None => None,
    },
        None => None,
    },
        None => None,
    }
}

#[verifier::opaque]
pub open spec fn v4_weather_part0_at(b: Seq<u8>, p: int) -> Option<((Seq<char>, Option<i32>, Option<i32>, Option<i32>, Option<i64>, Option<i32>, Option<i32>, Option<i64>), int)> {
    match fstr_at(b, p) {
        Some((station_id, p1)) => match v4_opt_i32_at(b, p1) {
        Some((current_temperature_milli_c, p2)) => match v4_opt_i32_at(b, p2) {
        Some((running_high_milli_c, p3)) => match v4_opt_i32_at(b, p3) {
        Some((running_low_milli_c, p4)) => match v4_opt_i64_at(b, p4) {
        Some((last_metar_at_unix_ms, p5)) => match v4_opt_i32_at(b, p5) {
        Some((dsm_high_milli_c, p6)) => match v4_opt_i32_at(b, p6) {
        Some((dsm_low_milli_c, p7)) => match v4_opt_i64_at(b, p7) {
        Some((dsm_high_at_unix_ms, p8)) => Some(((station_id, current_temperature_milli_c, running_high_milli_c, running_low_milli_c, last_metar_at_unix_ms, dsm_high_milli_c, dsm_low_milli_c, dsm_high_at_unix_ms), p8)),
        None => None,
    },
        None => None,
    },
        None => None,
    },
        None => None,
    },
        None => None,
    },
        None => None,
    },
        None => None,
    },
        None => None,
    }
}

#[verifier::opaque]
pub open spec fn v4_weather_part1_at(b: Seq<u8>, p: int) -> Option<((Option<i64>, Option<i32>, Option<i32>, Option<i32>, Option<i32>, Option<i32>, Option<i32>, Option<i32>), int)> {
    match v4_opt_i64_at(b, p) {
        Some((dsm_low_at_unix_ms, p1)) => match v4_opt_i32_at(b, p1) {
        Some((six_hour_high_milli_c, p2)) => match v4_opt_i32_at(b, p2) {
        Some((six_hour_low_milli_c, p3)) => match v4_opt_i32_at(b, p3) {
        Some((asos_daily_high_milli_c, p4)) => match v4_opt_i32_at(b, p4) {
        Some((asos_daily_low_milli_c, p5)) => match v4_opt_i32_at(b, p5) {
        Some((wu_current_temperature_milli_c, p6)) => match v4_opt_i32_at(b, p6) {
        Some((wu_daily_high_milli_c, p7)) => match v4_opt_i32_at(b, p7) {
        Some((wu_daily_low_milli_c, p8)) => Some(((dsm_low_at_unix_ms, six_hour_high_milli_c, six_hour_low_milli_c, asos_daily_high_milli_c, asos_daily_low_milli_c, wu_current_temperature_milli_c, wu_daily_high_milli_c, wu_daily_low_milli_c), p8)),
        None => None,
    },
        None => None,
    },
        None => None,
    },
        None => None,
    },
        None => None,
    },
        None => None,
    },
        None => None,
    },
        None => None,
    }
}

#[verifier::opaque]
pub open spec fn v4_weather_part2_at(b: Seq<u8>, p: int) -> Option<((Option<i64>, Option<i64>, Option<i64>, Option<i64>, Option<i64>, Option<i64>, Option<i64>, Option<Seq<char>>), int)> {
    match v4_opt_i64_at(b, p) {
        Some((dewpoint_micros, p1)) => match v4_opt_i64_at(b, p1) {
        Some((heat_index_micros, p2)) => match v4_opt_i64_at(b, p2) {
        Some((wind_chill_micros, p3)) => match v4_opt_i64_at(b, p3) {
        Some((relative_humidity_micros, p4)) => match v4_opt_i64_at(b, p4) {
        Some((wind_speed_micros, p5)) => match v4_opt_i64_at(b, p5) {
        Some((wind_direction_micros, p6)) => match v4_opt_i64_at(b, p6) {
        Some((wind_gust_micros, p7)) => match v4_opt_string_at(b, p7) {
        Some((text_description, p8)) => Some(((dewpoint_micros, heat_index_micros, wind_chill_micros, relative_humidity_micros, wind_speed_micros, wind_direction_micros, wind_gust_micros, text_description), p8)),
        None => None,
    },
        None => None,
    },
        None => None,
    },
        None => None,
    },
        None => None,
    },
        None => None,
    },
        None => None,
    },
        None => None,
    }
}

#[verifier::opaque]
pub open spec fn v4_weather_part3_at(b: Seq<u8>, p: int) -> Option<((bool,), int)> {
    match bool_at(b, p) {
        Some((preliminary, p1)) => Some(((preliminary,), p1)),
        None => None,
    }
}

#[verifier::opaque]
pub open spec fn v4_weather_at(b: Seq<u8>, p: int) -> Option<(WeatherV4Model, int)> {
    match v4_weather_part0_at(b, p) {
        Some((c0, q1)) => match v4_weather_part1_at(b, q1) {
        Some((c1, q2)) => match v4_weather_part2_at(b, q2) {
        Some((c2, q3)) => match v4_weather_part3_at(b, q3) {
        Some((c3, q4)) => Some((WeatherV4Model { station_id: c0.0, current_temperature_milli_c: c0.1, running_high_milli_c: c0.2, running_low_milli_c: c0.3, last_metar_at_unix_ms: c0.4, dsm_high_milli_c: c0.5, dsm_low_milli_c: c0.6, dsm_high_at_unix_ms: c0.7, dsm_low_at_unix_ms: c1.0, six_hour_high_milli_c: c1.1, six_hour_low_milli_c: c1.2, asos_daily_high_milli_c: c1.3, asos_daily_low_milli_c: c1.4, wu_current_temperature_milli_c: c1.5, wu_daily_high_milli_c: c1.6, wu_daily_low_milli_c: c1.7, dewpoint_micros: c2.0, heat_index_micros: c2.1, wind_chill_micros: c2.2, relative_humidity_micros: c2.3, wind_speed_micros: c2.4, wind_direction_micros: c2.5, wind_gust_micros: c2.6, text_description: c2.7, preliminary: c3.0 }, q4)),
        None => None,
    },
        None => None,
    },
        None => None,
    },
        None => None,
    }
}

#[verifier::opaque]
pub open spec fn v4_extreme_part0_at(b: Seq<u8>, p: int) -> Option<((i32, Option<i32>, Option<i64>, Option<Seq<char>>, Option<Seq<char>>, bool, Option<Seq<char>>, Option<Seq<char>>), int)> {
    match fi32_at(b, p) {
        Some((value_milli_c, p1)) => match v4_opt_i32_at(b, p1) {
        Some((previous_value_milli_c, p2)) => match v4_opt_i64_at(b, p2) {
        Some((observed_at_unix_ms, p3)) => match v4_opt_string_at(b, p3) {
        Some((temperature_day_mode, p4)) => match v4_opt_string_at(b, p4) {
        Some((temperature_day_date, p5)) => match bool_at(b, p5) {
        Some((is_from_report, p6)) => match v4_opt_string_at(b, p6) {
        Some((report_type, p7)) => match v4_opt_string_at(b, p7) {
        Some((source_report_id, p8)) => Some(((value_milli_c, previous_value_milli_c, observed_at_unix_ms, temperature_day_mode, temperature_day_date, is_from_report, report_type, source_report_id), p8)),
        None => None,
    },
        None => None,
    },
        None => None,
    },
        None => None,
    },
        None => None,
    },
        None => None,
    },
        None => None,
    },
        None => None,
    }
}

#[verifier::opaque]
pub open spec fn v4_extreme_part1_at(b: Seq<u8>, p: int) -> Option<((ProvenanceV4Model,), int)> {
    match v4_provenance_at(b, p) {
        Some((provenance, p1)) => Some(((provenance,), p1)),
        None => None,
    }
}

#[verifier::opaque]
pub open spec fn v4_extreme_at(b: Seq<u8>, p: int) -> Option<(ExtremeV4Model, int)> {
    match v4_extreme_part0_at(b, p) {
        Some((c0, q1)) => match v4_extreme_part1_at(b, q1) {
        Some((c1, q2)) => Some((ExtremeV4Model { value_milli_c: c0.0, previous_value_milli_c: c0.1, observed_at_unix_ms: c0.2, temperature_day_mode: c0.3, temperature_day_date: c0.4, is_from_report: c0.5, report_type: c0.6, source_report_id: c0.7, provenance: c1.0 }, q2)),
        None => None,
    },
        None => None,
    }
}

#[verifier::opaque]
pub open spec fn v4_extrema_at(b: Seq<u8>, p: int) -> Option<(ExtremaV4Model, int)> {
    match v4_opt_extreme_at(b, p) {
        Some((high, p1)) => match v4_opt_extreme_at(b, p1) {
        Some((low, p2)) => Some((ExtremaV4Model { high, low }, p2)),
        None => None,
    },
        None => None,
    }
}

#[verifier::opaque]
pub open spec fn v4_report_part0_at(b: Seq<u8>, p: int) -> Option<((Seq<char>, Seq<char>, Seq<char>, AuthorityV4, u64, u64, Option<i64>, Option<i64>), int)> {
    match fstr_at(b, p) {
        Some((report_id, p1)) => match fstr_at(b, p1) {
        Some((report_type, p2)) => match fstr_at(b, p2) {
        Some((report_date, p3)) => match v4_authority_at(b, p3) {
        Some((authority, p4)) => match fu64_at(b, p4) {
        Some((revision, p5)) => match fu64_at(b, p5) {
        Some((generation, p6)) => match v4_opt_i64_at(b, p6) {
        Some((issued_at_unix_ms, p7)) => match v4_opt_i64_at(b, p7) {
        Some((updated_at_unix_ms, p8)) => Some(((report_id, report_type, report_date, authority, revision, generation, issued_at_unix_ms, updated_at_unix_ms), p8)),
        None => None,
    },
        None => None,
    },
        None => None,
    },
        None => None,
    },
        None => None,
    },
        None => None,
    },
        None => None,
    },
        None => None,
    }
}

#[verifier::opaque]
pub open spec fn v4_report_part1_at(b: Seq<u8>, p: int) -> Option<((Option<i64>, Seq<char>, Seq<char>, Option<i32>, Option<i32>, Option<i32>, Option<i32>, Option<i64>), int)> {
    match v4_opt_i64_at(b, p) {
        Some((fetched_at_unix_ms, p1)) => match fstr_at(b, p1) {
        Some((provider, p2)) => match fstr_at(b, p2) {
        Some((source_url, p3)) => match v4_opt_i32_at(b, p3) {
        Some((max_temperature_milli_c, p4)) => match v4_opt_i32_at(b, p4) {
        Some((min_temperature_milli_c, p5)) => match v4_opt_i32_at(b, p5) {
        Some((temperature_milli_c, p6)) => match v4_opt_i32_at(b, p6) {
        Some((temperature_milli_f, p7)) => match v4_opt_i64_at(b, p7) {
        Some((max_temperature_at_unix_ms, p8)) => Some(((fetched_at_unix_ms, provider, source_url, max_temperature_milli_c, min_temperature_milli_c, temperature_milli_c, temperature_milli_f, max_temperature_at_unix_ms), p8)),
        None => None,
    },
        None => None,
    },
        None => None,
    },
        None => None,
    },
        None => None,
    },
        None => None,
    },
        None => None,
    },
        None => None,
    }
}

#[verifier::opaque]
pub open spec fn v4_report_part2_at(b: Seq<u8>, p: int) -> Option<((Option<i64>, ProvenanceV4Model), int)> {
    match v4_opt_i64_at(b, p) {
        Some((min_temperature_at_unix_ms, p1)) => match v4_provenance_at(b, p1) {
        Some((provenance, p2)) => Some(((min_temperature_at_unix_ms, provenance), p2)),
        None => None,
    },
        None => None,
    }
}

#[verifier::opaque]
pub open spec fn v4_report_at(b: Seq<u8>, p: int) -> Option<(ReportV4Model, int)> {
    match v4_report_part0_at(b, p) {
        Some((c0, q1)) => match v4_report_part1_at(b, q1) {
        Some((c1, q2)) => match v4_report_part2_at(b, q2) {
        Some((c2, q3)) => Some((ReportV4Model { report_id: c0.0, report_type: c0.1, report_date: c0.2, authority: c0.3, revision: c0.4, generation: c0.5, issued_at_unix_ms: c0.6, updated_at_unix_ms: c0.7, fetched_at_unix_ms: c1.0, provider: c1.1, source_url: c1.2, max_temperature_milli_c: c1.3, min_temperature_milli_c: c1.4, temperature_milli_c: c1.5, temperature_milli_f: c1.6, max_temperature_at_unix_ms: c1.7, min_temperature_at_unix_ms: c2.0, provenance: c2.1 }, q3)),
        None => None,
    },
        None => None,
    },
        None => None,
    }
}

#[verifier::opaque]
pub open spec fn v4_weather_event_source_part0_at(b: Seq<u8>, p: int) -> Option<((Option<Seq<char>>, Option<Seq<char>>, Option<Seq<char>>, Option<Seq<char>>, Option<i64>, Option<i64>, Option<i64>, Option<i64>), int)> {
    match v4_opt_string_at(b, p) {
        Some((metar_type, p1)) => match v4_opt_string_at(b, p1) {
        Some((flight_category, p2)) => match v4_opt_string_at(b, p2) {
        Some((wx_string, p3)) => match v4_opt_string_at(b, p3) {
        Some((wx_token, p4)) => match v4_opt_i64_at(b, p4) {
        Some((wind_speed_knots_micros, p5)) => match v4_opt_i64_at(b, p5) {
        Some((wind_gust_knots_micros, p6)) => match v4_opt_i64_at(b, p6) {
        Some((peak_wind_knots_micros, p7)) => match v4_opt_i64_at(b, p7) {
        Some((peak_wind_direction, p8)) => Some(((metar_type, flight_category, wx_string, wx_token, wind_speed_knots_micros, wind_gust_knots_micros, peak_wind_knots_micros, peak_wind_direction), p8)),
        None => None,
    },
        None => None,
    },
        None => None,
    },
        None => None,
    },
        None => None,
    },
        None => None,
    },
        None => None,
    },
        None => None,
    }
}

#[verifier::opaque]
pub open spec fn v4_weather_event_source_part1_at(b: Seq<u8>, p: int) -> Option<((Option<i64>, Option<Seq<char>>), int)> {
    match v4_opt_i64_at(b, p) {
        Some((visibility_miles_micros, p1)) => match v4_opt_string_at(b, p1) {
        Some((cb_location, p2)) => Some(((visibility_miles_micros, cb_location), p2)),
        None => None,
    },
        None => None,
    }
}

#[verifier::opaque]
pub open spec fn v4_weather_event_source_at(b: Seq<u8>, p: int) -> Option<(WeatherEventSourceV4Model, int)> {
    match v4_weather_event_source_part0_at(b, p) {
        Some((c0, q1)) => match v4_weather_event_source_part1_at(b, q1) {
        Some((c1, q2)) => Some((WeatherEventSourceV4Model { metar_type: c0.0, flight_category: c0.1, wx_string: c0.2, wx_token: c0.3, wind_speed_knots_micros: c0.4, wind_gust_knots_micros: c0.5, peak_wind_knots_micros: c0.6, peak_wind_direction: c0.7, visibility_miles_micros: c1.0, cb_location: c1.1 }, q2)),
        None => None,
    },
        None => None,
    }
}

#[verifier::opaque]
pub open spec fn v4_weather_event_part0_at(b: Seq<u8>, p: int) -> Option<((Seq<char>, Seq<char>, Seq<char>, Seq<char>, AuthorityV4, u64, u64, Seq<char>), int)> {
    match fstr_at(b, p) {
        Some((event_id, p1)) => match fstr_at(b, p1) {
        Some((event_type, p2)) => match fstr_at(b, p2) {
        Some((tier, p3)) => match fstr_at(b, p3) {
        Some((state, p4)) => match v4_authority_at(b, p4) {
        Some((authority, p5)) => match fu64_at(b, p5) {
        Some((revision, p6)) => match fu64_at(b, p6) {
        Some((generation, p7)) => match fstr_at(b, p7) {
        Some((name, p8)) => Some(((event_id, event_type, tier, state, authority, revision, generation, name), p8)),
        None => None,
    },
        None => None,
    },
        None => None,
    },
        None => None,
    },
        None => None,
    },
        None => None,
    },
        None => None,
    },
        None => None,
    }
}

#[verifier::opaque]
pub open spec fn v4_weather_event_part1_at(b: Seq<u8>, p: int) -> Option<((Seq<char>, Seq<char>, Seq<char>, Option<i64>, Option<i64>, Option<i64>, Option<WeatherEventSourceV4Model>, ProvenanceV4Model), int)> {
    match fstr_at(b, p) {
        Some((badge, p1)) => match fstr_at(b, p1) {
        Some((detail, p2)) => match fstr_at(b, p2) {
        Some((summary, p3)) => match v4_opt_i64_at(b, p3) {
        Some((started_at_unix_ms, p4)) => match v4_opt_i64_at(b, p4) {
        Some((last_confirmed_at_unix_ms, p5)) => match v4_opt_i64_at(b, p5) {
        Some((ended_at_unix_ms, p6)) => match v4_opt_weather_event_source_at(b, p6) {
        Some((source, p7)) => match v4_provenance_at(b, p7) {
        Some((provenance, p8)) => Some(((badge, detail, summary, started_at_unix_ms, last_confirmed_at_unix_ms, ended_at_unix_ms, source, provenance), p8)),
        None => None,
    },
        None => None,
    },
        None => None,
    },
        None => None,
    },
        None => None,
    },
        None => None,
    },
        None => None,
    },
        None => None,
    }
}

#[verifier::opaque]
pub open spec fn v4_weather_event_at(b: Seq<u8>, p: int) -> Option<(WeatherEventV4Model, int)> {
    match v4_weather_event_part0_at(b, p) {
        Some((c0, q1)) => match v4_weather_event_part1_at(b, q1) {
        Some((c1, q2)) => Some((WeatherEventV4Model { event_id: c0.0, event_type: c0.1, tier: c0.2, state: c0.3, authority: c0.4, revision: c0.5, generation: c0.6, name: c0.7, badge: c1.0, detail: c1.1, summary: c1.2, started_at_unix_ms: c1.3, last_confirmed_at_unix_ms: c1.4, ended_at_unix_ms: c1.5, source: c1.6, provenance: c1.7 }, q2)),
        None => None,
    },
        None => None,
    }
}

#[verifier::opaque]
pub open spec fn v4_forecast_point_part0_at(b: Seq<u8>, p: int) -> Option<((i64, Option<i32>, Option<i32>, Option<i64>, Option<i32>, Option<i64>, Option<i64>, Option<i32>), int)> {
    match fi64_at(b, p) {
        Some((at_unix_ms, p1)) => match v4_opt_i32_at(b, p1) {
        Some((temperature_milli_c, p2)) => match v4_opt_i32_at(b, p2) {
        Some((apparent_temperature_milli_c, p3)) => match v4_opt_i64_at(b, p3) {
        Some((humidity_millionths, p4)) => match v4_opt_i32_at(b, p4) {
        Some((dew_point_milli_c, p5)) => match v4_opt_i64_at(b, p5) {
        Some((pressure_msl_micros, p6)) => match v4_opt_i64_at(b, p6) {
        Some((wind_speed_micros, p7)) => match v4_opt_i32_at(b, p7) {
        Some((wind_direction_degrees, p8)) => Some(((at_unix_ms, temperature_milli_c, apparent_temperature_milli_c, humidity_millionths, dew_point_milli_c, pressure_msl_micros, wind_speed_micros, wind_direction_degrees), p8)),
        None => None,
    },
        None => None,
    },
        None => None,
    },
        None => None,
    },
        None => None,
    },
        None => None,
    },
        None => None,
    },
        None => None,
    }
}

#[verifier::opaque]
pub open spec fn v4_forecast_point_part1_at(b: Seq<u8>, p: int) -> Option<((Option<i64>, Option<i64>, Option<i64>, Option<i32>), int)> {
    match v4_opt_i64_at(b, p) {
        Some((wind_gust_micros, p1)) => match v4_opt_i64_at(b, p1) {
        Some((cloud_cover_millionths, p2)) => match v4_opt_i64_at(b, p2) {
        Some((precipitation_probability_millionths, p3)) => match v4_opt_i32_at(b, p3) {
        Some((weather_code, p4)) => Some(((wind_gust_micros, cloud_cover_millionths, precipitation_probability_millionths, weather_code), p4)),
        None => None,
    },
        None => None,
    },
        None => None,
    },
        None => None,
    }
}

#[verifier::opaque]
pub open spec fn v4_forecast_point_at(b: Seq<u8>, p: int) -> Option<(ForecastPointV4Model, int)> {
    match v4_forecast_point_part0_at(b, p) {
        Some((c0, q1)) => match v4_forecast_point_part1_at(b, q1) {
        Some((c1, q2)) => Some((ForecastPointV4Model { at_unix_ms: c0.0, temperature_milli_c: c0.1, apparent_temperature_milli_c: c0.2, humidity_millionths: c0.3, dew_point_milli_c: c0.4, pressure_msl_micros: c0.5, wind_speed_micros: c0.6, wind_direction_degrees: c0.7, wind_gust_micros: c1.0, cloud_cover_millionths: c1.1, precipitation_probability_millionths: c1.2, weather_code: c1.3 }, q2)),
        None => None,
    },
        None => None,
    }
}

#[verifier::opaque]
pub open spec fn v4_forecast_model_at(b: Seq<u8>, p: int) -> Option<(ForecastModelV4Model, int)> {
    match fstr_at(b, p) {
        Some((model_id, p1)) => match fstr_at(b, p1) {
        Some((version, p2)) => match v4_opt_string_at(b, p2) {
        Some((run_id, p3)) => match v4_opt_i64_at(b, p3) {
        Some((fetched_at_unix_ms, p4)) => match v4_opt_i64_at(b, p4) {
        Some((issued_at_unix_ms, p5)) => match v4_opt_string_at(b, p5) {
        Some((timezone, p6)) => match v4_opt_i32_at(b, p6) {
        Some((utc_offset_seconds, p7)) => match v4_list_forecast_point_at(b, p7) {
        Some((hourly, p8)) => Some((ForecastModelV4Model { model_id, version, run_id, fetched_at_unix_ms, issued_at_unix_ms, timezone, utc_offset_seconds, hourly }, p8)),
        None => None,
    },
        None => None,
    },
        None => None,
    },
        None => None,
    },
        None => None,
    },
        None => None,
    },
        None => None,
    },
        None => None,
    }
}

#[verifier::opaque]
pub open spec fn v4_forecast_at(b: Seq<u8>, p: int) -> Option<(ForecastV4Model, int)> {
    match v4_list_string_string_pair_at(b, p) {
        Some((advertised_versions, p1)) => match v4_list_forecast_model_at(b, p1) {
        Some((models, p2)) => Some((ForecastV4Model { advertised_versions, models }, p2)),
        None => None,
    },
        None => None,
    }
}

#[verifier::opaque]
pub open spec fn v4_oracle_query_at(b: Seq<u8>, p: int) -> Option<(OracleQueryV4Model, int)> {
    match fstr_at(b, p) {
        Some((station_id, p1)) => match fstr_at(b, p1) {
        Some((mode, p2)) => match v4_rank_by_at(b, p2) {
        Some((rank_by, p3)) => match u8_at(b, p3) {
        Some((days, p4)) => Some((OracleQueryV4Model { station_id, mode, rank_by, days }, p4)),
        None => None,
    },
        None => None,
    },
        None => None,
    },
        None => None,
    }
}

#[verifier::opaque]
pub open spec fn v4_oracle_row_part0_at(b: Seq<u8>, p: int) -> Option<((u8, Seq<char>, Seq<char>, Option<bool>, Option<i64>, Option<i64>, Option<i64>, Option<i64>), int)> {
    match u8_at(b, p) {
        Some((rank, p1)) => match fstr_at(b, p1) {
        Some((model_id, p2)) => match fstr_at(b, p2) {
        Some((model_name, p3)) => match v4_opt_bool_at(b, p3) {
        Some((is_public, p4)) => match v4_opt_i64_at(b, p4) {
        Some((high_mae_millionths, p5)) => match v4_opt_i64_at(b, p5) {
        Some((low_mae_millionths, p6)) => match v4_opt_i64_at(b, p6) {
        Some((combined_mae_millionths, p7)) => match v4_opt_i64_at(b, p7) {
        Some((high_bias_millionths, p8)) => Some(((rank, model_id, model_name, is_public, high_mae_millionths, low_mae_millionths, combined_mae_millionths, high_bias_millionths), p8)),
        None => None,
    },
        None => None,
    },
        None => None,
    },
        None => None,
    },
        None => None,
    },
        None => None,
    },
        None => None,
    },
        None => None,
    }
}

#[verifier::opaque]
pub open spec fn v4_oracle_row_part1_at(b: Seq<u8>, p: int) -> Option<((Option<i64>, Option<u16>), int)> {
    match v4_opt_i64_at(b, p) {
        Some((low_bias_millionths, p1)) => match v4_opt_u16_at(b, p1) {
        Some((day_count, p2)) => Some(((low_bias_millionths, day_count), p2)),
        None => None,
    },
        None => None,
    }
}

#[verifier::opaque]
pub open spec fn v4_oracle_row_at(b: Seq<u8>, p: int) -> Option<(OracleRowV4Model, int)> {
    match v4_oracle_row_part0_at(b, p) {
        Some((c0, q1)) => match v4_oracle_row_part1_at(b, q1) {
        Some((c1, q2)) => Some((OracleRowV4Model { rank: c0.0, model_id: c0.1, model_name: c0.2, is_public: c0.3, high_mae_millionths: c0.4, low_mae_millionths: c0.5, combined_mae_millionths: c0.6, high_bias_millionths: c0.7, low_bias_millionths: c1.0, day_count: c1.1 }, q2)),
        None => None,
    },
        None => None,
    }
}

#[verifier::opaque]
pub open spec fn v4_oracle_table_at(b: Seq<u8>, p: int) -> Option<(OracleTableV4Model, int)> {
    match v4_oracle_query_at(b, p) {
        Some((query, p1)) => match fstr_at(b, p1) {
        Some((range_start, p2)) => match fstr_at(b, p2) {
        Some((range_end, p3)) => match v4_opt_i64_at(b, p3) {
        Some((updated_at_unix_ms, p4)) => match v4_list_oracle_row_at(b, p4) {
        Some((rows, p5)) => match v4_provenance_at(b, p5) {
        Some((provenance, p6)) => Some((OracleTableV4Model { query, range_start, range_end, updated_at_unix_ms, rows, provenance }, p6)),
        None => None,
    },
        None => None,
    },
        None => None,
    },
        None => None,
    },
        None => None,
    },
        None => None,
    }
}

#[verifier::opaque]
pub open spec fn v4_cursor_at(b: Seq<u8>, p: int) -> Option<(CursorV4Model, int)> {
    match fu64_at(b, p) {
        Some((connection_generation, p1)) => match fstr_at(b, p1) {
        Some((event_id, p2)) => match fu64_at(b, p2) {
        Some((sequence, p3)) => match v4_opt_u64_at(b, p3) {
        Some((city_sequence, p4)) => match fi64_at(b, p4) {
        Some((emitted_at_unix_ms, p5)) => match fi64_at(b, p5) {
        Some((received_at_unix_ms, p6)) => match bool_at(b, p6) {
        Some((snapshot_complete, p7)) => Some((CursorV4Model { connection_generation, event_id, sequence, city_sequence, emitted_at_unix_ms, received_at_unix_ms, snapshot_complete }, p7)),
        None => None,
    },
        None => None,
    },
        None => None,
    },
        None => None,
    },
        None => None,
    },
        None => None,
    },
        None => None,
    }
}

#[verifier::opaque]
pub open spec fn v4_station_part0_at(b: Seq<u8>, p: int) -> Option<((Seq<char>, u64, Seq<char>, i64, i64, StationIdentityV4Model, ComponentMetaV4Model, ObservationV4Model), int)> {
    match fstr_at(b, p) {
        Some((contract_version, p1)) => match fu64_at(b, p1) {
        Some((revision, p2)) => match fstr_at(b, p2) {
        Some((climate_event_date, p3)) => match fi64_at(b, p3) {
        Some((climate_day_start_utc_unix_ms, p4)) => match fi64_at(b, p4) {
        Some((climate_day_end_utc_unix_ms, p5)) => match v4_station_identity_at(b, p5) {
        Some((identity, p6)) => match v4_component_meta_at(b, p6) {
        Some((observation_meta, p7)) => match v4_observation_at(b, p7) {
        Some((observation, p8)) => Some(((contract_version, revision, climate_event_date, climate_day_start_utc_unix_ms, climate_day_end_utc_unix_ms, identity, observation_meta, observation), p8)),
        None => None,
    },
        None => None,
    },
        None => None,
    },
        None => None,
    },
        None => None,
    },
        None => None,
    },
        None => None,
    },
        None => None,
    }
}

#[verifier::opaque]
pub open spec fn v4_station_part1_at(b: Seq<u8>, p: int) -> Option<((ComponentMetaV4Model, WeatherV4Model, ComponentMetaV4Model, ExtremaV4Model, ComponentMetaV4Model, Seq<ReportV4Model>, ComponentMetaV4Model, Seq<WeatherEventV4Model>), int)> {
    match v4_component_meta_at(b, p) {
        Some((weather_meta, p1)) => match v4_weather_at(b, p1) {
        Some((weather, p2)) => match v4_component_meta_at(b, p2) {
        Some((extrema_meta, p3)) => match v4_extrema_at(b, p3) {
        Some((extrema, p4)) => match v4_component_meta_at(b, p4) {
        Some((reports_meta, p5)) => match v4_list_report_at(b, p5) {
        Some((reports, p6)) => match v4_component_meta_at(b, p6) {
        Some((weather_events_meta, p7)) => match v4_list_weather_event_at(b, p7) {
        Some((weather_events, p8)) => Some(((weather_meta, weather, extrema_meta, extrema, reports_meta, reports, weather_events_meta, weather_events), p8)),
        None => None,
    },
        None => None,
    },
        None => None,
    },
        None => None,
    },
        None => None,
    },
        None => None,
    },
        None => None,
    },
        None => None,
    }
}

#[verifier::opaque]
pub open spec fn v4_station_part2_at(b: Seq<u8>, p: int) -> Option<((ComponentMetaV4Model, ForecastV4Model, ComponentMetaV4Model, OracleTableV4Model, CursorV4Model, Seq<EvidenceV4Model>), int)> {
    match v4_component_meta_at(b, p) {
        Some((forecast_meta, p1)) => match v4_forecast_at(b, p1) {
        Some((forecast, p2)) => match v4_component_meta_at(b, p2) {
        Some((oracle_meta, p3)) => match v4_oracle_table_at(b, p3) {
        Some((oracle, p4)) => match v4_cursor_at(b, p4) {
        Some((provider_cursor, p5)) => match v4_list_evidence_at(b, p5) {
        Some((evidence, p6)) => Some(((forecast_meta, forecast, oracle_meta, oracle, provider_cursor, evidence), p6)),
        None => None,
    },
        None => None,
    },
        None => None,
    },
        None => None,
    },
        None => None,
    },
        None => None,
    }
}

#[verifier::opaque]
pub open spec fn v4_station_at(b: Seq<u8>, p: int) -> Option<(StationV4Model, int)> {
    match v4_station_part0_at(b, p) {
        Some((c0, q1)) => match v4_station_part1_at(b, q1) {
        Some((c1, q2)) => match v4_station_part2_at(b, q2) {
        Some((c2, q3)) => Some((StationV4Model { contract_version: c0.0, revision: c0.1, climate_event_date: c0.2, climate_day_start_utc_unix_ms: c0.3, climate_day_end_utc_unix_ms: c0.4, identity: c0.5, observation_meta: c0.6, observation: c0.7, weather_meta: c1.0, weather: c1.1, extrema_meta: c1.2, extrema: c1.3, reports_meta: c1.4, reports: c1.5, weather_events_meta: c1.6, weather_events: c1.7, forecast_meta: c2.0, forecast: c2.1, oracle_meta: c2.2, oracle: c2.3, provider_cursor: c2.4, evidence: c2.5 }, q3)),
        None => None,
    },
        None => None,
    },
        None => None,
    }
}

#[verifier::opaque]
pub open spec fn v4_market_meta_at(b: Seq<u8>, p: int) -> Option<(MarketMetaV4Model, int)> {
    match v4_authority_at(b, p) {
        Some((authority, p1)) => match fu64_at(b, p1) {
        Some((revision, p2)) => match fu64_at(b, p2) {
        Some((generation, p3)) => match v4_opt_i64_at(b, p3) {
        Some((updated_at_unix_ms, p4)) => match v4_opt_string_at(b, p4) {
        Some((expected_version, p5)) => match v4_opt_string_at(b, p5) {
        Some((refresh_error, p6)) => match v4_list_provenance_at(b, p6) {
        Some((provenance, p7)) => Some((MarketMetaV4Model { authority, revision, generation, updated_at_unix_ms, expected_version, refresh_error, provenance }, p7)),
        None => None,
    },
        None => None,
    },
        None => None,
    },
        None => None,
    },
        None => None,
    },
        None => None,
    },
        None => None,
    }
}

#[verifier::opaque]
pub open spec fn v4_market_identity_part0_at(b: Seq<u8>, p: int) -> Option<((Seq<char>, Seq<char>, Seq<char>, Seq<char>, Seq<char>, Seq<char>, Seq<char>, Option<i64>), int)> {
    match fstr_at(b, p) {
        Some((market_id, p1)) => match fstr_at(b, p1) {
        Some((opportunity_id, p2)) => match fstr_at(b, p2) {
        Some((venue, p3)) => match fstr_at(b, p3) {
        Some((event_ticker, p4)) => match fstr_at(b, p4) {
        Some((series_ticker, p5)) => match fstr_at(b, p5) {
        Some((strike_type, p6)) => match fstr_at(b, p6) {
        Some((fee_type, p7)) => match v4_opt_i64_at(b, p7) {
        Some((fee_multiplier_millionths, p8)) => Some(((market_id, opportunity_id, venue, event_ticker, series_ticker, strike_type, fee_type, fee_multiplier_millionths), p8)),
        None => None,
    },
        None => None,
    },
        None => None,
    },
        None => None,
    },
        None => None,
    },
        None => None,
    },
        None => None,
    },
        None => None,
    }
}

#[verifier::opaque]
pub open spec fn v4_market_identity_part1_at(b: Seq<u8>, p: int) -> Option<((Option<i64>, Option<i64>, Option<i64>, Option<i64>, Option<i64>), int)> {
    match v4_opt_i64_at(b, p) {
        Some((floor_strike_milli_c, p1)) => match v4_opt_i64_at(b, p1) {
        Some((floor_strike_milli_f, p2)) => match v4_opt_i64_at(b, p2) {
        Some((cap_strike_milli_c, p3)) => match v4_opt_i64_at(b, p3) {
        Some((close_at_unix_ms, p4)) => match v4_opt_i64_at(b, p4) {
        Some((expiration_at_unix_ms, p5)) => Some(((floor_strike_milli_c, floor_strike_milli_f, cap_strike_milli_c, close_at_unix_ms, expiration_at_unix_ms), p5)),
        None => None,
    },
        None => None,
    },
        None => None,
    },
        None => None,
    },
        None => None,
    }
}

#[verifier::opaque]
pub open spec fn v4_market_identity_at(b: Seq<u8>, p: int) -> Option<(MarketIdentityV4Model, int)> {
    match v4_market_identity_part0_at(b, p) {
        Some((c0, q1)) => match v4_market_identity_part1_at(b, q1) {
        Some((c1, q2)) => Some((MarketIdentityV4Model { market_id: c0.0, opportunity_id: c0.1, venue: c0.2, event_ticker: c0.3, series_ticker: c0.4, strike_type: c0.5, fee_type: c0.6, fee_multiplier_millionths: c0.7, floor_strike_milli_c: c1.0, floor_strike_milli_f: c1.1, cap_strike_milli_c: c1.2, close_at_unix_ms: c1.3, expiration_at_unix_ms: c1.4 }, q2)),
        None => None,
    },
        None => None,
    }
}

#[verifier::opaque]
pub open spec fn v4_market_lifecycle_at(b: Seq<u8>, p: int) -> Option<(MarketLifecycleV4Model, int)> {
    match fstr_at(b, p) {
        Some((status, p1)) => match v4_opt_string_at(b, p1) {
        Some((result, p2)) => match v4_opt_u64_at(b, p2) {
        Some((connection_epoch, p3)) => match v4_opt_u64_at(b, p3) {
        Some((received_frame_ordinal, p4)) => match v4_opt_i64_at(b, p4) {
        Some((open_at_unix_ms, p5)) => match v4_opt_i64_at(b, p5) {
        Some((close_at_unix_ms, p6)) => match v4_opt_i64_at(b, p6) {
        Some((settled_at_unix_ms, p7)) => match v4_opt_i64_at(b, p7) {
        Some((updated_at_unix_ms, p8)) => Some((MarketLifecycleV4Model { status, result, connection_epoch, received_frame_ordinal, open_at_unix_ms, close_at_unix_ms, settled_at_unix_ms, updated_at_unix_ms }, p8)),
        None => None,
    },
        None => None,
    },
        None => None,
    },
        None => None,
    },
        None => None,
    },
        None => None,
    },
        None => None,
    },
        None => None,
    }
}

#[verifier::opaque]
pub open spec fn v4_ticker_part0_at(b: Seq<u8>, p: int) -> Option<((Option<u64>, Option<u64>, Option<u64>, Option<u64>, Option<u64>, Option<u64>, Option<u64>, Option<u64>), int)> {
    match v4_opt_u64_at(b, p) {
        Some((yes_bid_micros, p1)) => match v4_opt_u64_at(b, p1) {
        Some((yes_ask_micros, p2)) => match v4_opt_u64_at(b, p2) {
        Some((no_bid_micros, p3)) => match v4_opt_u64_at(b, p3) {
        Some((no_ask_micros, p4)) => match v4_opt_u64_at(b, p4) {
        Some((yes_bid_quantity_hundredths, p5)) => match v4_opt_u64_at(b, p5) {
        Some((yes_ask_quantity_hundredths, p6)) => match v4_opt_u64_at(b, p6) {
        Some((no_bid_quantity_hundredths, p7)) => match v4_opt_u64_at(b, p7) {
        Some((no_ask_quantity_hundredths, p8)) => Some(((yes_bid_micros, yes_ask_micros, no_bid_micros, no_ask_micros, yes_bid_quantity_hundredths, yes_ask_quantity_hundredths, no_bid_quantity_hundredths, no_ask_quantity_hundredths), p8)),
        None => None,
    },
        None => None,
    },
        None => None,
    },
        None => None,
    },
        None => None,
    },
        None => None,
    },
        None => None,
    },
        None => None,
    }
}

#[verifier::opaque]
pub open spec fn v4_ticker_part1_at(b: Seq<u8>, p: int) -> Option<((Option<u64>, Option<u64>, Option<u64>, Option<u64>, Option<u64>, Option<i64>), int)> {
    match v4_opt_u64_at(b, p) {
        Some((last_price_micros, p1)) => match v4_opt_u64_at(b, p1) {
        Some((last_trade_quantity_hundredths, p2)) => match v4_opt_u64_at(b, p2) {
        Some((volume_hundredths, p3)) => match v4_opt_u64_at(b, p3) {
        Some((volume_24h_hundredths, p4)) => match v4_opt_u64_at(b, p4) {
        Some((open_interest_hundredths, p5)) => match v4_opt_i64_at(b, p5) {
        Some((provider_at_unix_ms, p6)) => Some(((last_price_micros, last_trade_quantity_hundredths, volume_hundredths, volume_24h_hundredths, open_interest_hundredths, provider_at_unix_ms), p6)),
        None => None,
    },
        None => None,
    },
        None => None,
    },
        None => None,
    },
        None => None,
    },
        None => None,
    }
}

#[verifier::opaque]
pub open spec fn v4_ticker_at(b: Seq<u8>, p: int) -> Option<(TickerV4Model, int)> {
    match v4_ticker_part0_at(b, p) {
        Some((c0, q1)) => match v4_ticker_part1_at(b, q1) {
        Some((c1, q2)) => Some((TickerV4Model { yes_bid_micros: c0.0, yes_ask_micros: c0.1, no_bid_micros: c0.2, no_ask_micros: c0.3, yes_bid_quantity_hundredths: c0.4, yes_ask_quantity_hundredths: c0.5, no_bid_quantity_hundredths: c0.6, no_ask_quantity_hundredths: c0.7, last_price_micros: c1.0, last_trade_quantity_hundredths: c1.1, volume_hundredths: c1.2, volume_24h_hundredths: c1.3, open_interest_hundredths: c1.4, provider_at_unix_ms: c1.5 }, q2)),
        None => None,
    },
        None => None,
    }
}

#[verifier::opaque]
pub open spec fn v4_book_level_at(b: Seq<u8>, p: int) -> Option<(BookLevelV4Model, int)> {
    match fu64_at(b, p) {
        Some((price_micros, p1)) => match fu64_at(b, p1) {
        Some((quantity_hundredths, p2)) => Some((BookLevelV4Model { price_micros, quantity_hundredths }, p2)),
        None => None,
    },
        None => None,
    }
}

#[verifier::opaque]
pub open spec fn v4_book_at(b: Seq<u8>, p: int) -> Option<(BookV4Model, int)> {
    match v4_opt_u64_at(b, p) {
        Some((connection_epoch, p1)) => match v4_opt_u64_at(b, p1) {
        Some((sid, p2)) => match v4_opt_u64_at(b, p2) {
        Some((sequence, p3)) => match v4_opt_i64_at(b, p3) {
        Some((snapshot_at_unix_ms, p4)) => match bool_at(b, p4) {
        Some((resync_required, p5)) => match v4_list_book_level_at(b, p5) {
        Some((yes_bids, p6)) => match v4_list_book_level_at(b, p6) {
        Some((no_bids, p7)) => Some((BookV4Model { connection_epoch, sid, sequence, snapshot_at_unix_ms, resync_required, yes_bids, no_bids }, p7)),
        None => None,
    },
        None => None,
    },
        None => None,
    },
        None => None,
    },
        None => None,
    },
        None => None,
    },
        None => None,
    }
}

#[verifier::opaque]
pub open spec fn v4_last_trade_at(b: Seq<u8>, p: int) -> Option<(LastTradeV4Model, int)> {
    match fstr_at(b, p) {
        Some((trade_id, p1)) => match fu64_at(b, p1) {
        Some((yes_price_micros, p2)) => match fu64_at(b, p2) {
        Some((no_price_micros, p3)) => match fu64_at(b, p3) {
        Some((quantity_hundredths, p4)) => match v4_opt_string_at(b, p4) {
        Some((taker_side, p5)) => match fi64_at(b, p5) {
        Some((traded_at_unix_ms, p6)) => Some((LastTradeV4Model { trade_id, yes_price_micros, no_price_micros, quantity_hundredths, taker_side, traded_at_unix_ms }, p6)),
        None => None,
    },
        None => None,
    },
        None => None,
    },
        None => None,
    },
        None => None,
    },
        None => None,
    }
}

#[verifier::opaque]
pub open spec fn v4_final_fact_at(b: Seq<u8>, p: int) -> Option<(FinalFactV4Model, int)> {
    match fstr_at(b, p) {
        Some((status, p1)) => match fstr_at(b, p1) {
        Some((result, p2)) => match v4_opt_i64_at(b, p2) {
        Some((settlement_value_micros, p3)) => match v4_opt_u64_at(b, p3) {
        Some((settled_price_micros, p4)) => match v4_opt_i64_at(b, p4) {
        Some((provider_at_unix_ms, p5)) => Some((FinalFactV4Model { status, result, settlement_value_micros, settled_price_micros, provider_at_unix_ms }, p5)),
        None => None,
    },
        None => None,
    },
        None => None,
    },
        None => None,
    },
        None => None,
    }
}

#[verifier::opaque]
pub open spec fn v4_market_comparison_part0_at(b: Seq<u8>, p: int) -> Option<((Seq<char>, Seq<char>, Seq<char>, u64, i64, Option<u64>, Option<u64>, Option<u64>), int)> {
    match fstr_at(b, p) {
        Some((source, p1)) => match fstr_at(b, p1) {
        Some((event_id, p2)) => match fstr_at(b, p2) {
        Some((event_date, p3)) => match fu64_at(b, p3) {
        Some((sequence, p4)) => match fi64_at(b, p4) {
        Some((provider_at_unix_ms, p5)) => match v4_opt_u64_at(b, p5) {
        Some((yes_bid_micros, p6)) => match v4_opt_u64_at(b, p6) {
        Some((yes_ask_micros, p7)) => match v4_opt_u64_at(b, p7) {
        Some((no_bid_micros, p8)) => Some(((source, event_id, event_date, sequence, provider_at_unix_ms, yes_bid_micros, yes_ask_micros, no_bid_micros), p8)),
        None => None,
    },
        None => None,
    },
        None => None,
    },
        None => None,
    },
        None => None,
    },
        None => None,
    },
        None => None,
    },
        None => None,
    }
}

#[verifier::opaque]
pub open spec fn v4_market_comparison_part1_at(b: Seq<u8>, p: int) -> Option<((Option<u64>, Option<u64>, Seq<u8>), int)> {
    match v4_opt_u64_at(b, p) {
        Some((no_ask_micros, p1)) => match v4_opt_u64_at(b, p1) {
        Some((volume_hundredths, p2)) => match array32_at(b, p2) {
        Some((evidence_sha256, p3)) => Some(((no_ask_micros, volume_hundredths, evidence_sha256), p3)),
        None => None,
    },
        None => None,
    },
        None => None,
    }
}

#[verifier::opaque]
pub open spec fn v4_market_comparison_at(b: Seq<u8>, p: int) -> Option<(MarketComparisonV4Model, int)> {
    match v4_market_comparison_part0_at(b, p) {
        Some((c0, q1)) => match v4_market_comparison_part1_at(b, q1) {
        Some((c1, q2)) => Some((MarketComparisonV4Model { source: c0.0, event_id: c0.1, event_date: c0.2, sequence: c0.3, provider_at_unix_ms: c0.4, yes_bid_micros: c0.5, yes_ask_micros: c0.6, no_bid_micros: c0.7, no_ask_micros: c1.0, volume_hundredths: c1.1, evidence_sha256: c1.2 }, q2)),
        None => None,
    },
        None => None,
    }
}

#[verifier::opaque]
pub open spec fn v4_market_part0_at(b: Seq<u8>, p: int) -> Option<((Seq<char>, u64, MarketIdentityV4Model, MarketMetaV4Model, Option<MarketLifecycleV4Model>, MarketMetaV4Model, Option<TickerV4Model>, MarketMetaV4Model), int)> {
    match fstr_at(b, p) {
        Some((contract_version, p1)) => match fu64_at(b, p1) {
        Some((revision, p2)) => match v4_market_identity_at(b, p2) {
        Some((identity, p3)) => match v4_market_meta_at(b, p3) {
        Some((lifecycle_meta, p4)) => match v4_opt_market_lifecycle_at(b, p4) {
        Some((lifecycle, p5)) => match v4_market_meta_at(b, p5) {
        Some((ticker_meta, p6)) => match v4_opt_ticker_at(b, p6) {
        Some((ticker, p7)) => match v4_market_meta_at(b, p7) {
        Some((book_meta, p8)) => Some(((contract_version, revision, identity, lifecycle_meta, lifecycle, ticker_meta, ticker, book_meta), p8)),
        None => None,
    },
        None => None,
    },
        None => None,
    },
        None => None,
    },
        None => None,
    },
        None => None,
    },
        None => None,
    },
        None => None,
    }
}

#[verifier::opaque]
pub open spec fn v4_market_part1_at(b: Seq<u8>, p: int) -> Option<((Option<BookV4Model>, MarketMetaV4Model, Option<LastTradeV4Model>, MarketMetaV4Model, Option<FinalFactV4Model>, Seq<(Seq<char>, ProvenanceV4Model)>, Seq<EvidenceV4Model>, Option<MarketComparisonV4Model>), int)> {
    match v4_opt_book_at(b, p) {
        Some((book, p1)) => match v4_market_meta_at(b, p1) {
        Some((last_trade_meta, p2)) => match v4_opt_last_trade_at(b, p2) {
        Some((last_trade, p3)) => match v4_market_meta_at(b, p3) {
        Some((final_fact_meta, p4)) => match v4_opt_final_fact_at(b, p4) {
        Some((final_fact, p5)) => match v4_list_string_provenance_pair_at(b, p5) {
        Some((field_provenance, p6)) => match v4_list_evidence_at(b, p6) {
        Some((evidence, p7)) => match v4_opt_market_comparison_at(b, p7) {
        Some((minutetemp_comparison, p8)) => Some(((book, last_trade_meta, last_trade, final_fact_meta, final_fact, field_provenance, evidence, minutetemp_comparison), p8)),
        None => None,
    },
        None => None,
    },
        None => None,
    },
        None => None,
    },
        None => None,
    },
        None => None,
    },
        None => None,
    },
        None => None,
    }
}

#[verifier::opaque]
pub open spec fn v4_market_part2_at(b: Seq<u8>, p: int) -> Option<((Seq<Seq<char>>,), int)> {
    match v4_list_string_at(b, p) {
        Some((uncertain_fields, p1)) => Some(((uncertain_fields,), p1)),
        None => None,
    }
}

#[verifier::opaque]
pub open spec fn v4_market_at(b: Seq<u8>, p: int) -> Option<(MarketV4Model, int)> {
    match v4_market_part0_at(b, p) {
        Some((c0, q1)) => match v4_market_part1_at(b, q1) {
        Some((c1, q2)) => match v4_market_part2_at(b, q2) {
        Some((c2, q3)) => Some((MarketV4Model { contract_version: c0.0, revision: c0.1, identity: c0.2, lifecycle_meta: c0.3, lifecycle: c0.4, ticker_meta: c0.5, ticker: c0.6, book_meta: c0.7, book: c1.0, last_trade_meta: c1.1, last_trade: c1.2, final_fact_meta: c1.3, final_fact: c1.4, field_provenance: c1.5, evidence: c1.6, minutetemp_comparison: c1.7, uncertain_fields: c2.0 }, q3)),
        None => None,
    },
        None => None,
    },
        None => None,
    }
}

#[verifier::opaque]
pub open spec fn v4_opportunity_part0_at(b: Seq<u8>, p: int) -> Option<((Seq<char>, Seq<char>, Seq<char>, Seq<char>, LifecycleV4, u64, Seq<Seq<char>>, Seq<Seq<char>>), int)> {
    match fstr_at(b, p) {
        Some((opportunity_id, p1)) => match fstr_at(b, p1) {
        Some((venue_id, p2)) => match fstr_at(b, p2) {
        Some((match_profile, p3)) => match fstr_at(b, p3) {
        Some((resolved_scope, p4)) => match v4_lifecycle_at(b, p4) {
        Some((lifecycle, p5)) => match fu64_at(b, p5) {
        Some((close_time_unix_seconds, p6)) => match v4_list_string_at(b, p6) {
        Some((market_ids, p7)) => match v4_list_string_at(b, p7) {
        Some((contributor_stations, p8)) => Some(((opportunity_id, venue_id, match_profile, resolved_scope, lifecycle, close_time_unix_seconds, market_ids, contributor_stations), p8)),
        None => None,
    },
        None => None,
    },
        None => None,
    },
        None => None,
    },
        None => None,
    },
        None => None,
    },
        None => None,
    },
        None => None,
    }
}

#[verifier::opaque]
pub open spec fn v4_opportunity_part1_at(b: Seq<u8>, p: int) -> Option<((MarketAuthorityV4,), int)> {
    match v4_market_authority_at(b, p) {
        Some((authority, p1)) => Some(((authority,), p1)),
        None => None,
    }
}

#[verifier::opaque]
pub open spec fn v4_opportunity_at(b: Seq<u8>, p: int) -> Option<(OpportunityV4Model, int)> {
    match v4_opportunity_part0_at(b, p) {
        Some((c0, q1)) => match v4_opportunity_part1_at(b, q1) {
        Some((c1, q2)) => Some((OpportunityV4Model { opportunity_id: c0.0, venue_id: c0.1, match_profile: c0.2, resolved_scope: c0.3, lifecycle: c0.4, close_time_unix_seconds: c0.5, market_ids: c0.6, contributor_stations: c0.7, authority: c1.0 }, q2)),
        None => None,
    },
        None => None,
    }
}

#[verifier::opaque]
pub open spec fn v4_broker_part0_at(b: Seq<u8>, p: int) -> Option<((u64, Seq<char>, Seq<char>, u64, u64, u64, u64, u64), int)> {
    match fu64_at(b, p) {
        Some((revision, p1)) => match fstr_at(b, p1) {
        Some((venue_account_id, p2)) => match fstr_at(b, p2) {
        Some((sleeve_id, p3)) => match fu64_at(b, p3) {
        Some((provider_available_balance, p4)) => match fu64_at(b, p4) {
        Some((locally_reserved_cash, p5)) => match fu64_at(b, p5) {
        Some((portfolio_value, p6)) => match fu64_at(b, p6) {
        Some((allowance_limit, p7)) => match fu64_at(b, p7) {
        Some((current_commitment, p8)) => Some(((revision, venue_account_id, sleeve_id, provider_available_balance, locally_reserved_cash, portfolio_value, allowance_limit, current_commitment), p8)),
        None => None,
    },
        None => None,
    },
        None => None,
    },
        None => None,
    },
        None => None,
    },
        None => None,
    },
        None => None,
    },
        None => None,
    }
}

#[verifier::opaque]
pub open spec fn v4_broker_part1_at(b: Seq<u8>, p: int) -> Option<((GateStatusV4, GateStatusV4, GateStatusV4, GateStatusV4), int)> {
    match v4_gate_status_at(b, p) {
        Some((exposure_increase, p1)) => match v4_gate_status_at(b, p1) {
        Some((reduce_only_protective, p2)) => match v4_gate_status_at(b, p2) {
        Some((cancellation, p3)) => match v4_gate_status_at(b, p3) {
        Some((reconciliation_allocation, p4)) => Some(((exposure_increase, reduce_only_protective, cancellation, reconciliation_allocation), p4)),
        None => None,
    },
        None => None,
    },
        None => None,
    },
        None => None,
    }
}

#[verifier::opaque]
pub open spec fn v4_broker_at(b: Seq<u8>, p: int) -> Option<(BrokerV4Model, int)> {
    match v4_broker_part0_at(b, p) {
        Some((c0, q1)) => match v4_broker_part1_at(b, q1) {
        Some((c1, q2)) => Some((BrokerV4Model { revision: c0.0, venue_account_id: c0.1, sleeve_id: c0.2, provider_available_balance: c0.3, locally_reserved_cash: c0.4, portfolio_value: c0.5, allowance_limit: c0.6, current_commitment: c0.7, exposure_increase: c1.0, reduce_only_protective: c1.1, cancellation: c1.2, reconciliation_allocation: c1.3 }, q2)),
        None => None,
    },
        None => None,
    }
}

#[verifier::opaque]
pub open spec fn v4_config_at(b: Seq<u8>, p: int) -> Option<(ConfigV4Model, int)> {
    match fu64_at(b, p) {
        Some((revision, p1)) => match fstr_at(b, p1) {
        Some((profile_and_calculator_digest, p2)) => Some((ConfigV4Model { revision, profile_and_calculator_digest }, p2)),
        None => None,
    },
        None => None,
    }
}

#[verifier::opaque]
pub open spec fn v4_supervisor_at(b: Seq<u8>, p: int) -> Option<(SupervisorV4Model, int)> {
    match fstr_at(b, p) {
        Some((sleeve_id, p1)) => match fu64_at(b, p1) {
        Some((incarnation, p2)) => match fu64_at(b, p2) {
        Some((process_attempt, p3)) => match fu64_at(b, p3) {
        Some((route_epoch, p4)) => Some((SupervisorV4Model { sleeve_id, incarnation, process_attempt, route_epoch }, p4)),
        None => None,
    },
        None => None,
    },
        None => None,
    },
        None => None,
    }
}

#[verifier::opaque]
pub open spec fn v4_resource_revision_at(b: Seq<u8>, p: int) -> Option<(ResourceRevisionV4Model, int)> {
    match fstr_at(b, p) {
        Some((identity, p1)) => match fu64_at(b, p1) {
        Some((revision, p2)) => match fu64_at(b, p2) {
        Some((generation, p3)) => Some((ResourceRevisionV4Model { identity, revision, generation }, p3)),
        None => None,
    },
        None => None,
    },
        None => None,
    }
}

#[verifier::opaque]
pub open spec fn v4_fence_part0_at(b: Seq<u8>, p: int) -> Option<((u64, u64, Seq<char>, u64, Seq<u8>, u64, u64, u64), int)> {
    match fu64_at(b, p) {
        Some((sleeve_incarnation, p1)) => match fu64_at(b, p1) {
        Some((config_revision, p2)) => match fstr_at(b, p2) {
        Some((profile_and_calculator_digest, p3)) => match fu64_at(b, p3) {
        Some((route_epoch, p4)) => match array32_at(b, p4) {
        Some((route_plan_sha256, p5)) => match fu64_at(b, p5) {
        Some((source_revision, p6)) => match fu64_at(b, p6) {
        Some((source_generation, p7)) => match fu64_at(b, p7) {
        Some((catalog_revision, p8)) => Some(((sleeve_incarnation, config_revision, profile_and_calculator_digest, route_epoch, route_plan_sha256, source_revision, source_generation, catalog_revision), p8)),
        None => None,
    },
        None => None,
    },
        None => None,
    },
        None => None,
    },
        None => None,
    },
        None => None,
    },
        None => None,
    },
        None => None,
    }
}

#[verifier::opaque]
pub open spec fn v4_fence_part1_at(b: Seq<u8>, p: int) -> Option<((u64, u64, u64, Seq<ResourceRevisionV4Model>, Seq<ResourceRevisionV4Model>), int)> {
    match fu64_at(b, p) {
        Some((market_authority_generation, p1)) => match fu64_at(b, p1) {
        Some((price_revision, p2)) => match fu64_at(b, p2) {
        Some((broker_revision, p3)) => match v4_list_resource_revision_at(b, p3) {
        Some((station_resources, p4)) => match v4_list_resource_revision_at(b, p4) {
        Some((market_revisions, p5)) => Some(((market_authority_generation, price_revision, broker_revision, station_resources, market_revisions), p5)),
        None => None,
    },
        None => None,
    },
        None => None,
    },
        None => None,
    },
        None => None,
    }
}

#[verifier::opaque]
pub open spec fn v4_fence_at(b: Seq<u8>, p: int) -> Option<(FenceV4Model, int)> {
    match v4_fence_part0_at(b, p) {
        Some((c0, q1)) => match v4_fence_part1_at(b, q1) {
        Some((c1, q2)) => Some((FenceV4Model { sleeve_incarnation: c0.0, config_revision: c0.1, profile_and_calculator_digest: c0.2, route_epoch: c0.3, route_plan_sha256: c0.4, source_revision: c0.5, source_generation: c0.6, catalog_revision: c0.7, market_authority_generation: c1.0, price_revision: c1.1, broker_revision: c1.2, station_resources: c1.3, market_revisions: c1.4 }, q2)),
        None => None,
    },
        None => None,
    }
}

#[verifier::opaque]
pub open spec fn v4_timer_recovery_at(b: Seq<u8>, p: int) -> Option<(TimerRecoveryV4Model, int)> {
    match fstr_at(b, p) {
        Some((key, p1)) => match fu64_at(b, p1) {
        Some((scheduled_at, p2)) => match fstr_at(b, p2) {
        Some((generation, p3)) => match u8_at(b, p3) {
        Some((admission_state, p4)) => Some((TimerRecoveryV4Model { key, scheduled_at, generation, admission_state }, p4)),
        None => None,
    },
        None => None,
    },
        None => None,
    },
        None => None,
    }
}

#[verifier::opaque]
pub open spec fn v4_decision_context_part0_at(b: Seq<u8>, p: int) -> Option<((Seq<char>, SupervisorV4Model, TriggerV4Model, FenceV4Model, ConfigV4Model, Seq<StationV4Model>, OpportunityV4Model, Seq<MarketV4Model>), int)> {
    match fstr_at(b, p) {
        Some((delivery_id, p1)) => match v4_supervisor_at(b, p1) {
        Some((sleeve, p2)) => match v4_trigger_at(b, p2) {
        Some((trigger, p3)) => match v4_fence_at(b, p3) {
        Some((fence, p4)) => match v4_config_at(b, p4) {
        Some((config, p5)) => match v4_list_station_at(b, p5) {
        Some((stations, p6)) => match v4_opportunity_at(b, p6) {
        Some((opportunity, p7)) => match v4_list_market_at(b, p7) {
        Some((markets, p8)) => Some(((delivery_id, sleeve, trigger, fence, config, stations, opportunity, markets), p8)),
        None => None,
    },
        None => None,
    },
        None => None,
    },
        None => None,
    },
        None => None,
    },
        None => None,
    },
        None => None,
    },
        None => None,
    }
}

#[verifier::opaque]
pub open spec fn v4_decision_context_part1_at(b: Seq<u8>, p: int) -> Option<((BrokerV4Model, Option<Seq<TimerRecoveryV4Model>>, u64, u64), int)> {
    match v4_broker_at(b, p) {
        Some((broker, p1)) => match v4_opt_list_timer_recovery_at(b, p1) {
        Some((timer_recovery, p2)) => match fu64_at(b, p2) {
        Some((delivered_at_monotonic_ns, p3)) => match fu64_at(b, p3) {
        Some((hard_expires_at_monotonic_ns, p4)) => Some(((broker, timer_recovery, delivered_at_monotonic_ns, hard_expires_at_monotonic_ns), p4)),
        None => None,
    },
        None => None,
    },
        None => None,
    },
        None => None,
    }
}

#[verifier::opaque]
pub open spec fn v4_decision_context_at(b: Seq<u8>, p: int) -> Option<(DecisionContextV4Model, int)> {
    match v4_decision_context_part0_at(b, p) {
        Some((c0, q1)) => match v4_decision_context_part1_at(b, q1) {
        Some((c1, q2)) => Some((DecisionContextV4Model { delivery_id: c0.0, sleeve: c0.1, trigger: c0.2, fence: c0.3, config: c0.4, stations: c0.5, opportunity: c0.6, markets: c0.7, broker: c1.0, timer_recovery: c1.1, delivered_at_monotonic_ns: c1.2, hard_expires_at_monotonic_ns: c1.3 }, q2)),
        None => None,
    },
        None => None,
    }
}

// ---------------------------------------------------------------------------------------------
// Reading what was written
// ---------------------------------------------------------------------------------------------

proof fn lemma_v4_provenance_nonempty(v: ProvenanceV4)
    ensures
        fx_provenance(v).len() >= 1,
{
    reveal(fx_provenance);
    reveal(fx_provenance_part0);
    
}

proof fn lemma_v4_evidence_nonempty(v: EvidenceV4)
    ensures
        fx_evidence(v).len() >= 1,
{
    reveal(fx_evidence);
    
}

proof fn lemma_v4_report_nonempty(v: ReportV4)
    ensures
        fx_report(v).len() >= 1,
{
    reveal(fx_report);
    reveal(fx_report_part0);
    
}

proof fn lemma_v4_weather_event_nonempty(v: WeatherEventV4)
    ensures
        fx_weather_event(v).len() >= 1,
{
    reveal(fx_weather_event);
    reveal(fx_weather_event_part0);
    
}

proof fn lemma_v4_forecast_point_nonempty(v: ForecastPointV4)
    ensures
        fx_forecast_point(v).len() >= 1,
{
    reveal(fx_forecast_point);
    reveal(fx_forecast_point_part0);
    
}

proof fn lemma_v4_forecast_model_nonempty(v: ForecastModelV4)
    ensures
        fx_forecast_model(v).len() >= 1,
{
    reveal(fx_forecast_model);
    
}

proof fn lemma_v4_oracle_row_nonempty(v: OracleRowV4)
    ensures
        fx_oracle_row(v).len() >= 1,
{
    reveal(fx_oracle_row);
    reveal(fx_oracle_row_part0);
    
}

proof fn lemma_v4_station_nonempty(v: StationV4)
    ensures
        fx_station(v).len() >= 1,
{
    reveal(fx_station);
    reveal(fx_station_part0);
    
}

proof fn lemma_v4_book_level_nonempty(v: BookLevelV4)
    ensures
        fx_book_level(v).len() >= 1,
{
    reveal(fx_book_level);
    
}

proof fn lemma_v4_market_nonempty(v: MarketV4)
    ensures
        fx_market(v).len() >= 1,
{
    reveal(fx_market);
    reveal(fx_market_part0);
    
}

proof fn lemma_v4_resource_revision_nonempty(v: ResourceRevisionV4)
    ensures
        fx_resource_revision(v).len() >= 1,
{
    reveal(fx_resource_revision);
    
}

proof fn lemma_v4_timer_recovery_nonempty(v: TimerRecoveryV4)
    ensures
        fx_timer_recovery(v).len() >= 1,
{
    reveal(fx_timer_recovery);
    
}

proof fn lemma_v4_string_provenance_pair_nonempty(v: (String, ProvenanceV4))
    ensures
        fx_string_provenance_pair(v).len() >= 1,
{
    reveal(fx_string_provenance_pair);
    
}

proof fn lemma_v4_string_string_pair_nonempty(v: (String, String))
    ensures
        fx_string_string_pair(v).len() >= 1,
{
    reveal(fx_string_string_pair);
    
}

proof fn lemma_v4_list_string_provenance_pair_at(b: Seq<u8>, p: int, s: Vec<(String, ProvenanceV4)>)
    requires
        holds_at(b, p, fx_list(s@, fx_string_provenance_pair_encoder())),
        b.len() <= u64::MAX,
    ensures
        v4_list_string_provenance_pair_at(b, p) == Some((s@.map_values(v4_string_provenance_pair_viewer()), p + fx_list(s@, fx_string_provenance_pair_encoder()).len())),
{
    let e = s@;
    assert forall|x: (String, ProvenanceV4)| #[trigger] fx_string_provenance_pair_encoder()(x).len() >= 1 by {
        lemma_v4_string_provenance_pair_nonempty(x);
    }
    assert forall|i: int, q: int|
        0 <= i < e.len() && #[trigger] holds_at(b, q, fx_string_provenance_pair_encoder()(e[i])) implies v4_string_provenance_pair_reader()(
        b,
        q,
    ) == Some((v4_string_provenance_pair_viewer()(e[i]), q + fx_string_provenance_pair_encoder()(e[i]).len())) by {
        lemma_v4_string_provenance_pair_at(b, q, e[i]);
    }
    lemma_flist_at(b, p, e, fx_string_provenance_pair_encoder(), v4_string_provenance_pair_viewer(), v4_string_provenance_pair_reader());
}

proof fn lemma_v4_list_string_string_pair_at(b: Seq<u8>, p: int, s: Vec<(String, String)>)
    requires
        holds_at(b, p, fx_list(s@, fx_string_string_pair_encoder())),
        b.len() <= u64::MAX,
    ensures
        v4_list_string_string_pair_at(b, p) == Some((s@.map_values(v4_string_string_pair_viewer()), p + fx_list(s@, fx_string_string_pair_encoder()).len())),
{
    let e = s@;
    assert forall|x: (String, String)| #[trigger] fx_string_string_pair_encoder()(x).len() >= 1 by {
        lemma_v4_string_string_pair_nonempty(x);
    }
    assert forall|i: int, q: int|
        0 <= i < e.len() && #[trigger] holds_at(b, q, fx_string_string_pair_encoder()(e[i])) implies v4_string_string_pair_reader()(
        b,
        q,
    ) == Some((v4_string_string_pair_viewer()(e[i]), q + fx_string_string_pair_encoder()(e[i]).len())) by {
        lemma_v4_string_string_pair_at(b, q, e[i]);
    }
    lemma_flist_at(b, p, e, fx_string_string_pair_encoder(), v4_string_string_pair_viewer(), v4_string_string_pair_reader());
}

proof fn lemma_v4_list_book_level_at(b: Seq<u8>, p: int, s: Vec<BookLevelV4>)
    requires
        holds_at(b, p, fx_list(s@, fx_book_level_encoder())),
        b.len() <= u64::MAX,
    ensures
        v4_list_book_level_at(b, p) == Some((s@.map_values(v4_book_level_viewer()), p + fx_list(s@, fx_book_level_encoder()).len())),
{
    let e = s@;
    assert forall|x: BookLevelV4| #[trigger] fx_book_level_encoder()(x).len() >= 1 by {
        lemma_v4_book_level_nonempty(x);
    }
    assert forall|i: int, q: int|
        0 <= i < e.len() && #[trigger] holds_at(b, q, fx_book_level_encoder()(e[i])) implies v4_book_level_reader()(
        b,
        q,
    ) == Some((v4_book_level_viewer()(e[i]), q + fx_book_level_encoder()(e[i]).len())) by {
        lemma_v4_book_level_at(b, q, e[i]);
    }
    lemma_flist_at(b, p, e, fx_book_level_encoder(), v4_book_level_viewer(), v4_book_level_reader());
}

proof fn lemma_v4_list_evidence_at(b: Seq<u8>, p: int, s: Vec<EvidenceV4>)
    requires
        holds_at(b, p, fx_list(s@, fx_evidence_encoder())),
        b.len() <= u64::MAX,
    ensures
        v4_list_evidence_at(b, p) == Some((s@.map_values(v4_evidence_viewer()), p + fx_list(s@, fx_evidence_encoder()).len())),
{
    let e = s@;
    assert forall|x: EvidenceV4| #[trigger] fx_evidence_encoder()(x).len() >= 1 by {
        lemma_v4_evidence_nonempty(x);
    }
    assert forall|i: int, q: int|
        0 <= i < e.len() && #[trigger] holds_at(b, q, fx_evidence_encoder()(e[i])) implies v4_evidence_reader()(
        b,
        q,
    ) == Some((v4_evidence_viewer()(e[i]), q + fx_evidence_encoder()(e[i]).len())) by {
        lemma_v4_evidence_at(b, q, e[i]);
    }
    lemma_flist_at(b, p, e, fx_evidence_encoder(), v4_evidence_viewer(), v4_evidence_reader());
}

proof fn lemma_v4_list_forecast_model_at(b: Seq<u8>, p: int, s: Vec<ForecastModelV4>)
    requires
        holds_at(b, p, fx_list(s@, fx_forecast_model_encoder())),
        b.len() <= u64::MAX,
    ensures
        v4_list_forecast_model_at(b, p) == Some((s@.map_values(v4_forecast_model_viewer()), p + fx_list(s@, fx_forecast_model_encoder()).len())),
{
    let e = s@;
    assert forall|x: ForecastModelV4| #[trigger] fx_forecast_model_encoder()(x).len() >= 1 by {
        lemma_v4_forecast_model_nonempty(x);
    }
    assert forall|i: int, q: int|
        0 <= i < e.len() && #[trigger] holds_at(b, q, fx_forecast_model_encoder()(e[i])) implies v4_forecast_model_reader()(
        b,
        q,
    ) == Some((v4_forecast_model_viewer()(e[i]), q + fx_forecast_model_encoder()(e[i]).len())) by {
        lemma_v4_forecast_model_at(b, q, e[i]);
    }
    lemma_flist_at(b, p, e, fx_forecast_model_encoder(), v4_forecast_model_viewer(), v4_forecast_model_reader());
}

proof fn lemma_v4_list_forecast_point_at(b: Seq<u8>, p: int, s: Vec<ForecastPointV4>)
    requires
        holds_at(b, p, fx_list(s@, fx_forecast_point_encoder())),
        b.len() <= u64::MAX,
    ensures
        v4_list_forecast_point_at(b, p) == Some((s@.map_values(v4_forecast_point_viewer()), p + fx_list(s@, fx_forecast_point_encoder()).len())),
{
    let e = s@;
    assert forall|x: ForecastPointV4| #[trigger] fx_forecast_point_encoder()(x).len() >= 1 by {
        lemma_v4_forecast_point_nonempty(x);
    }
    assert forall|i: int, q: int|
        0 <= i < e.len() && #[trigger] holds_at(b, q, fx_forecast_point_encoder()(e[i])) implies v4_forecast_point_reader()(
        b,
        q,
    ) == Some((v4_forecast_point_viewer()(e[i]), q + fx_forecast_point_encoder()(e[i]).len())) by {
        lemma_v4_forecast_point_at(b, q, e[i]);
    }
    lemma_flist_at(b, p, e, fx_forecast_point_encoder(), v4_forecast_point_viewer(), v4_forecast_point_reader());
}

proof fn lemma_v4_list_market_at(b: Seq<u8>, p: int, s: Vec<MarketV4>)
    requires
        holds_at(b, p, fx_list(s@, fx_market_encoder())),
        b.len() <= u64::MAX,
    ensures
        v4_list_market_at(b, p) == Some((s@.map_values(v4_market_viewer()), p + fx_list(s@, fx_market_encoder()).len())),
{
    let e = s@;
    assert forall|x: MarketV4| #[trigger] fx_market_encoder()(x).len() >= 1 by {
        lemma_v4_market_nonempty(x);
    }
    assert forall|i: int, q: int|
        0 <= i < e.len() && #[trigger] holds_at(b, q, fx_market_encoder()(e[i])) implies v4_market_reader()(
        b,
        q,
    ) == Some((v4_market_viewer()(e[i]), q + fx_market_encoder()(e[i]).len())) by {
        lemma_v4_market_at(b, q, e[i]);
    }
    lemma_flist_at(b, p, e, fx_market_encoder(), v4_market_viewer(), v4_market_reader());
}

proof fn lemma_v4_list_oracle_row_at(b: Seq<u8>, p: int, s: Vec<OracleRowV4>)
    requires
        holds_at(b, p, fx_list(s@, fx_oracle_row_encoder())),
        b.len() <= u64::MAX,
    ensures
        v4_list_oracle_row_at(b, p) == Some((s@.map_values(v4_oracle_row_viewer()), p + fx_list(s@, fx_oracle_row_encoder()).len())),
{
    let e = s@;
    assert forall|x: OracleRowV4| #[trigger] fx_oracle_row_encoder()(x).len() >= 1 by {
        lemma_v4_oracle_row_nonempty(x);
    }
    assert forall|i: int, q: int|
        0 <= i < e.len() && #[trigger] holds_at(b, q, fx_oracle_row_encoder()(e[i])) implies v4_oracle_row_reader()(
        b,
        q,
    ) == Some((v4_oracle_row_viewer()(e[i]), q + fx_oracle_row_encoder()(e[i]).len())) by {
        lemma_v4_oracle_row_at(b, q, e[i]);
    }
    lemma_flist_at(b, p, e, fx_oracle_row_encoder(), v4_oracle_row_viewer(), v4_oracle_row_reader());
}

proof fn lemma_v4_list_provenance_at(b: Seq<u8>, p: int, s: Vec<ProvenanceV4>)
    requires
        holds_at(b, p, fx_list(s@, fx_provenance_encoder())),
        b.len() <= u64::MAX,
    ensures
        v4_list_provenance_at(b, p) == Some((s@.map_values(v4_provenance_viewer()), p + fx_list(s@, fx_provenance_encoder()).len())),
{
    let e = s@;
    assert forall|x: ProvenanceV4| #[trigger] fx_provenance_encoder()(x).len() >= 1 by {
        lemma_v4_provenance_nonempty(x);
    }
    assert forall|i: int, q: int|
        0 <= i < e.len() && #[trigger] holds_at(b, q, fx_provenance_encoder()(e[i])) implies v4_provenance_reader()(
        b,
        q,
    ) == Some((v4_provenance_viewer()(e[i]), q + fx_provenance_encoder()(e[i]).len())) by {
        lemma_v4_provenance_at(b, q, e[i]);
    }
    lemma_flist_at(b, p, e, fx_provenance_encoder(), v4_provenance_viewer(), v4_provenance_reader());
}

proof fn lemma_v4_list_report_at(b: Seq<u8>, p: int, s: Vec<ReportV4>)
    requires
        holds_at(b, p, fx_list(s@, fx_report_encoder())),
        b.len() <= u64::MAX,
    ensures
        v4_list_report_at(b, p) == Some((s@.map_values(v4_report_viewer()), p + fx_list(s@, fx_report_encoder()).len())),
{
    let e = s@;
    assert forall|x: ReportV4| #[trigger] fx_report_encoder()(x).len() >= 1 by {
        lemma_v4_report_nonempty(x);
    }
    assert forall|i: int, q: int|
        0 <= i < e.len() && #[trigger] holds_at(b, q, fx_report_encoder()(e[i])) implies v4_report_reader()(
        b,
        q,
    ) == Some((v4_report_viewer()(e[i]), q + fx_report_encoder()(e[i]).len())) by {
        lemma_v4_report_at(b, q, e[i]);
    }
    lemma_flist_at(b, p, e, fx_report_encoder(), v4_report_viewer(), v4_report_reader());
}

proof fn lemma_v4_list_resource_revision_at(b: Seq<u8>, p: int, s: Vec<ResourceRevisionV4>)
    requires
        holds_at(b, p, fx_list(s@, fx_resource_revision_encoder())),
        b.len() <= u64::MAX,
    ensures
        v4_list_resource_revision_at(b, p) == Some((s@.map_values(v4_resource_revision_viewer()), p + fx_list(s@, fx_resource_revision_encoder()).len())),
{
    let e = s@;
    assert forall|x: ResourceRevisionV4| #[trigger] fx_resource_revision_encoder()(x).len() >= 1 by {
        lemma_v4_resource_revision_nonempty(x);
    }
    assert forall|i: int, q: int|
        0 <= i < e.len() && #[trigger] holds_at(b, q, fx_resource_revision_encoder()(e[i])) implies v4_resource_revision_reader()(
        b,
        q,
    ) == Some((v4_resource_revision_viewer()(e[i]), q + fx_resource_revision_encoder()(e[i]).len())) by {
        lemma_v4_resource_revision_at(b, q, e[i]);
    }
    lemma_flist_at(b, p, e, fx_resource_revision_encoder(), v4_resource_revision_viewer(), v4_resource_revision_reader());
}

proof fn lemma_v4_list_station_at(b: Seq<u8>, p: int, s: Vec<StationV4>)
    requires
        holds_at(b, p, fx_list(s@, fx_station_encoder())),
        b.len() <= u64::MAX,
    ensures
        v4_list_station_at(b, p) == Some((s@.map_values(v4_station_viewer()), p + fx_list(s@, fx_station_encoder()).len())),
{
    let e = s@;
    assert forall|x: StationV4| #[trigger] fx_station_encoder()(x).len() >= 1 by {
        lemma_v4_station_nonempty(x);
    }
    assert forall|i: int, q: int|
        0 <= i < e.len() && #[trigger] holds_at(b, q, fx_station_encoder()(e[i])) implies v4_station_reader()(
        b,
        q,
    ) == Some((v4_station_viewer()(e[i]), q + fx_station_encoder()(e[i]).len())) by {
        lemma_v4_station_at(b, q, e[i]);
    }
    lemma_flist_at(b, p, e, fx_station_encoder(), v4_station_viewer(), v4_station_reader());
}

proof fn lemma_v4_list_string_at(b: Seq<u8>, p: int, s: Vec<String>)
    requires
        holds_at(b, p, fx_list(s@, fx_string_encoder())),
        b.len() <= u64::MAX,
    ensures
        v4_list_string_at(b, p) == Some((s@.map_values(v4_string_viewer()), p + fx_list(s@, fx_string_encoder()).len())),
{
    let e = s@;
    assert forall|x: String| #[trigger] fx_string_encoder()(x).len() >= 1 by {
        
    }
    assert forall|i: int, q: int|
        0 <= i < e.len() && #[trigger] holds_at(b, q, fx_string_encoder()(e[i])) implies v4_string_reader()(
        b,
        q,
    ) == Some((v4_string_viewer()(e[i]), q + fx_string_encoder()(e[i]).len())) by {
        lemma_fstr_at(b, q, e[i]@);
    }
    lemma_flist_at(b, p, e, fx_string_encoder(), v4_string_viewer(), v4_string_reader());
}

proof fn lemma_v4_list_timer_recovery_at(b: Seq<u8>, p: int, s: Vec<TimerRecoveryV4>)
    requires
        holds_at(b, p, fx_list(s@, fx_timer_recovery_encoder())),
        b.len() <= u64::MAX,
    ensures
        v4_list_timer_recovery_at(b, p) == Some((s@.map_values(v4_timer_recovery_viewer()), p + fx_list(s@, fx_timer_recovery_encoder()).len())),
{
    let e = s@;
    assert forall|x: TimerRecoveryV4| #[trigger] fx_timer_recovery_encoder()(x).len() >= 1 by {
        lemma_v4_timer_recovery_nonempty(x);
    }
    assert forall|i: int, q: int|
        0 <= i < e.len() && #[trigger] holds_at(b, q, fx_timer_recovery_encoder()(e[i])) implies v4_timer_recovery_reader()(
        b,
        q,
    ) == Some((v4_timer_recovery_viewer()(e[i]), q + fx_timer_recovery_encoder()(e[i]).len())) by {
        lemma_v4_timer_recovery_at(b, q, e[i]);
    }
    lemma_flist_at(b, p, e, fx_timer_recovery_encoder(), v4_timer_recovery_viewer(), v4_timer_recovery_reader());
}

proof fn lemma_v4_list_weather_event_at(b: Seq<u8>, p: int, s: Vec<WeatherEventV4>)
    requires
        holds_at(b, p, fx_list(s@, fx_weather_event_encoder())),
        b.len() <= u64::MAX,
    ensures
        v4_list_weather_event_at(b, p) == Some((s@.map_values(v4_weather_event_viewer()), p + fx_list(s@, fx_weather_event_encoder()).len())),
{
    let e = s@;
    assert forall|x: WeatherEventV4| #[trigger] fx_weather_event_encoder()(x).len() >= 1 by {
        lemma_v4_weather_event_nonempty(x);
    }
    assert forall|i: int, q: int|
        0 <= i < e.len() && #[trigger] holds_at(b, q, fx_weather_event_encoder()(e[i])) implies v4_weather_event_reader()(
        b,
        q,
    ) == Some((v4_weather_event_viewer()(e[i]), q + fx_weather_event_encoder()(e[i]).len())) by {
        lemma_v4_weather_event_at(b, q, e[i]);
    }
    lemma_flist_at(b, p, e, fx_weather_event_encoder(), v4_weather_event_viewer(), v4_weather_event_reader());
}

proof fn lemma_v4_opt_book_at(b: Seq<u8>, p: int, v: Option<BookV4>)
    requires
        holds_at(b, p, fx_opt_book(v)),
        b.len() <= u64::MAX,
    ensures
        v4_opt_book_at(b, p) == Some((v4_opt_book_model(v), p + fx_opt_book(v).len())),
{
    reveal(fx_opt_book);
    reveal(v4_opt_book_at);
    assert(b[p] == b.subrange(p, p + fx_opt_book(v).len())[0]);
    match v {
        Some(x) => {
            lemma_holds_split(b, p, seq![1u8], fx_book(x));
            lemma_v4_book_at(b, p + 1, x);
        },
        None => {},
    }
}

proof fn lemma_v4_opt_extreme_at(b: Seq<u8>, p: int, v: Option<ExtremeV4>)
    requires
        holds_at(b, p, fx_opt_extreme(v)),
        b.len() <= u64::MAX,
    ensures
        v4_opt_extreme_at(b, p) == Some((v4_opt_extreme_model(v), p + fx_opt_extreme(v).len())),
{
    reveal(fx_opt_extreme);
    reveal(v4_opt_extreme_at);
    assert(b[p] == b.subrange(p, p + fx_opt_extreme(v).len())[0]);
    match v {
        Some(x) => {
            lemma_holds_split(b, p, seq![1u8], fx_extreme(x));
            lemma_v4_extreme_at(b, p + 1, x);
        },
        None => {},
    }
}

proof fn lemma_v4_opt_final_fact_at(b: Seq<u8>, p: int, v: Option<FinalFactV4>)
    requires
        holds_at(b, p, fx_opt_final_fact(v)),
        b.len() <= u64::MAX,
    ensures
        v4_opt_final_fact_at(b, p) == Some((v4_opt_final_fact_model(v), p + fx_opt_final_fact(v).len())),
{
    reveal(fx_opt_final_fact);
    reveal(v4_opt_final_fact_at);
    assert(b[p] == b.subrange(p, p + fx_opt_final_fact(v).len())[0]);
    match v {
        Some(x) => {
            lemma_holds_split(b, p, seq![1u8], fx_final_fact(x));
            lemma_v4_final_fact_at(b, p + 1, x);
        },
        None => {},
    }
}

proof fn lemma_v4_opt_last_trade_at(b: Seq<u8>, p: int, v: Option<LastTradeV4>)
    requires
        holds_at(b, p, fx_opt_last_trade(v)),
        b.len() <= u64::MAX,
    ensures
        v4_opt_last_trade_at(b, p) == Some((v4_opt_last_trade_model(v), p + fx_opt_last_trade(v).len())),
{
    reveal(fx_opt_last_trade);
    reveal(v4_opt_last_trade_at);
    assert(b[p] == b.subrange(p, p + fx_opt_last_trade(v).len())[0]);
    match v {
        Some(x) => {
            lemma_holds_split(b, p, seq![1u8], fx_last_trade(x));
            lemma_v4_last_trade_at(b, p + 1, x);
        },
        None => {},
    }
}

proof fn lemma_v4_opt_market_comparison_at(b: Seq<u8>, p: int, v: Option<MarketComparisonV4>)
    requires
        holds_at(b, p, fx_opt_market_comparison(v)),
        b.len() <= u64::MAX,
    ensures
        v4_opt_market_comparison_at(b, p) == Some((v4_opt_market_comparison_model(v), p + fx_opt_market_comparison(v).len())),
{
    reveal(fx_opt_market_comparison);
    reveal(v4_opt_market_comparison_at);
    assert(b[p] == b.subrange(p, p + fx_opt_market_comparison(v).len())[0]);
    match v {
        Some(x) => {
            lemma_holds_split(b, p, seq![1u8], fx_market_comparison(x));
            lemma_v4_market_comparison_at(b, p + 1, x);
        },
        None => {},
    }
}

proof fn lemma_v4_opt_market_lifecycle_at(b: Seq<u8>, p: int, v: Option<MarketLifecycleV4>)
    requires
        holds_at(b, p, fx_opt_market_lifecycle(v)),
        b.len() <= u64::MAX,
    ensures
        v4_opt_market_lifecycle_at(b, p) == Some((v4_opt_market_lifecycle_model(v), p + fx_opt_market_lifecycle(v).len())),
{
    reveal(fx_opt_market_lifecycle);
    reveal(v4_opt_market_lifecycle_at);
    assert(b[p] == b.subrange(p, p + fx_opt_market_lifecycle(v).len())[0]);
    match v {
        Some(x) => {
            lemma_holds_split(b, p, seq![1u8], fx_market_lifecycle(x));
            lemma_v4_market_lifecycle_at(b, p + 1, x);
        },
        None => {},
    }
}

proof fn lemma_v4_opt_string_at(b: Seq<u8>, p: int, v: Option<String>)
    requires
        holds_at(b, p, fx_opt_string(v)),
        b.len() <= u64::MAX,
    ensures
        v4_opt_string_at(b, p) == Some((v4_opt_string_model(v), p + fx_opt_string(v).len())),
{
    reveal(fx_opt_string);
    reveal(v4_opt_string_at);
    assert(b[p] == b.subrange(p, p + fx_opt_string(v).len())[0]);
    match v {
        Some(x) => {
            lemma_holds_split(b, p, seq![1u8], fixed_str_spec(x@));
            lemma_fstr_at(b, p + 1, x@);
        },
        None => {},
    }
}

proof fn lemma_v4_opt_ticker_at(b: Seq<u8>, p: int, v: Option<TickerV4>)
    requires
        holds_at(b, p, fx_opt_ticker(v)),
        b.len() <= u64::MAX,
    ensures
        v4_opt_ticker_at(b, p) == Some((v4_opt_ticker_model(v), p + fx_opt_ticker(v).len())),
{
    reveal(fx_opt_ticker);
    reveal(v4_opt_ticker_at);
    assert(b[p] == b.subrange(p, p + fx_opt_ticker(v).len())[0]);
    match v {
        Some(x) => {
            lemma_holds_split(b, p, seq![1u8], fx_ticker(x));
            lemma_v4_ticker_at(b, p + 1, x);
        },
        None => {},
    }
}

proof fn lemma_v4_opt_list_timer_recovery_at(b: Seq<u8>, p: int, v: Option<Vec<TimerRecoveryV4>>)
    requires
        holds_at(b, p, fx_opt_list_timer_recovery(v)),
        b.len() <= u64::MAX,
    ensures
        v4_opt_list_timer_recovery_at(b, p) == Some((v4_opt_list_timer_recovery_model(v), p + fx_opt_list_timer_recovery(v).len())),
{
    reveal(fx_opt_list_timer_recovery);
    reveal(v4_opt_list_timer_recovery_at);
    assert(b[p] == b.subrange(p, p + fx_opt_list_timer_recovery(v).len())[0]);
    match v {
        Some(x) => {
            lemma_holds_split(b, p, seq![1u8], fx_list(x@, fx_timer_recovery_encoder()));
            lemma_v4_list_timer_recovery_at(b, p + 1, x);
        },
        None => {},
    }
}

proof fn lemma_v4_opt_weather_event_source_at(b: Seq<u8>, p: int, v: Option<WeatherEventSourceV4>)
    requires
        holds_at(b, p, fx_opt_weather_event_source(v)),
        b.len() <= u64::MAX,
    ensures
        v4_opt_weather_event_source_at(b, p) == Some((v4_opt_weather_event_source_model(v), p + fx_opt_weather_event_source(v).len())),
{
    reveal(fx_opt_weather_event_source);
    reveal(v4_opt_weather_event_source_at);
    assert(b[p] == b.subrange(p, p + fx_opt_weather_event_source(v).len())[0]);
    match v {
        Some(x) => {
            lemma_holds_split(b, p, seq![1u8], fx_weather_event_source(x));
            lemma_v4_weather_event_source_at(b, p + 1, x);
        },
        None => {},
    }
}

proof fn lemma_v4_opt_bool_at(b: Seq<u8>, p: int, v: Option<bool>)
    requires
        holds_at(b, p, fx_opt_bool(v)),
        b.len() <= u64::MAX,
    ensures
        v4_opt_bool_at(b, p) == Some((v, p + fx_opt_bool(v).len())),
{
    reveal(fx_opt_bool);
    reveal(v4_opt_bool_at);
    assert(b[p] == b.subrange(p, p + fx_opt_bool(v).len())[0]);
    match v {
        Some(x) => {
            lemma_holds_split(b, p, seq![1u8], wire_bool_spec(x));
            lemma_fbool_at(b, p + 1, x);
        },
        None => {},
    }
}

proof fn lemma_v4_opt_i32_at(b: Seq<u8>, p: int, v: Option<i32>)
    requires
        holds_at(b, p, fx_opt_i32(v)),
        b.len() <= u64::MAX,
    ensures
        v4_opt_i32_at(b, p) == Some((v, p + fx_opt_i32(v).len())),
{
    reveal(fx_opt_i32);
    reveal(v4_opt_i32_at);
    assert(b[p] == b.subrange(p, p + fx_opt_i32(v).len())[0]);
    match v {
        Some(x) => {
            lemma_holds_split(b, p, seq![1u8], be_u32(x as u32));
            lemma_fi32_at(b, p + 1, x);
        },
        None => {},
    }
}

proof fn lemma_v4_opt_i64_at(b: Seq<u8>, p: int, v: Option<i64>)
    requires
        holds_at(b, p, fx_opt_i64(v)),
        b.len() <= u64::MAX,
    ensures
        v4_opt_i64_at(b, p) == Some((v, p + fx_opt_i64(v).len())),
{
    reveal(fx_opt_i64);
    reveal(v4_opt_i64_at);
    assert(b[p] == b.subrange(p, p + fx_opt_i64(v).len())[0]);
    match v {
        Some(x) => {
            lemma_holds_split(b, p, seq![1u8], be_u64(x as u64));
            lemma_fi64_at(b, p + 1, x);
        },
        None => {},
    }
}

proof fn lemma_v4_opt_u16_at(b: Seq<u8>, p: int, v: Option<u16>)
    requires
        holds_at(b, p, fx_opt_u16(v)),
        b.len() <= u64::MAX,
    ensures
        v4_opt_u16_at(b, p) == Some((v, p + fx_opt_u16(v).len())),
{
    reveal(fx_opt_u16);
    reveal(v4_opt_u16_at);
    assert(b[p] == b.subrange(p, p + fx_opt_u16(v).len())[0]);
    match v {
        Some(x) => {
            lemma_holds_split(b, p, seq![1u8], be_u16(x));
            lemma_fu16_at(b, p + 1, x);
        },
        None => {},
    }
}

proof fn lemma_v4_opt_u64_at(b: Seq<u8>, p: int, v: Option<u64>)
    requires
        holds_at(b, p, fx_opt_u64(v)),
        b.len() <= u64::MAX,
    ensures
        v4_opt_u64_at(b, p) == Some((v, p + fx_opt_u64(v).len())),
{
    reveal(fx_opt_u64);
    reveal(v4_opt_u64_at);
    assert(b[p] == b.subrange(p, p + fx_opt_u64(v).len())[0]);
    match v {
        Some(x) => {
            lemma_holds_split(b, p, seq![1u8], be_u64(x));
            lemma_fu64_at(b, p + 1, x);
        },
        None => {},
    }
}

proof fn lemma_v4_string_provenance_pair_at(b: Seq<u8>, p: int, v: (String, ProvenanceV4))
    requires
        holds_at(b, p, fx_string_provenance_pair(v)),
        b.len() <= u64::MAX,
    ensures
        v4_string_provenance_pair_at(b, p) == Some(((v.0@, v.1@), p + fx_string_provenance_pair(v).len())),
{
    reveal(fx_string_provenance_pair);
    reveal(v4_string_provenance_pair_at);
    let w0 = fixed_str_spec(v.0@);
    let w1 = fx_provenance(v.1);
    lemma_holds_split(b, p, w0, w1);
    lemma_fstr_at(b, p, v.0@);
    lemma_v4_provenance_at(b, p + w0.len(), v.1);
}

proof fn lemma_v4_string_string_pair_at(b: Seq<u8>, p: int, v: (String, String))
    requires
        holds_at(b, p, fx_string_string_pair(v)),
        b.len() <= u64::MAX,
    ensures
        v4_string_string_pair_at(b, p) == Some(((v.0@, v.1@), p + fx_string_string_pair(v).len())),
{
    reveal(fx_string_string_pair);
    reveal(v4_string_string_pair_at);
    let w0 = fixed_str_spec(v.0@);
    let w1 = fixed_str_spec(v.1@);
    lemma_holds_split(b, p, w0, w1);
    lemma_fstr_at(b, p, v.0@);
    lemma_fstr_at(b, p + w0.len(), v.1@);
}

proof fn lemma_v4_trigger_at(b: Seq<u8>, p: int, v: TriggerV4)
    requires
        holds_at(b, p, fx_trigger(v)),
        b.len() <= u64::MAX,
    ensures
        v4_trigger_at(b, p) == Some((v@, p + fx_trigger(v).len())),
{
    reveal(fx_trigger);
    reveal(v4_trigger_at);
    match v {
        TriggerV4::Weather { station_id, source_generation, source_sequence } => {
            let w0 = be_u32(0);
            let w1 = fixed_str_spec(station_id@);
            let w2 = be_u64(source_generation);
            let w3 = be_u64(source_sequence);
            lemma_holds_split(b, p, w0 + w1 + w2, w3);
            lemma_holds_split(b, p, w0 + w1, w2);
            lemma_holds_split(b, p, w0, w1);
            lemma_fu32_at(b, p, 0);
            lemma_fstr_at(b, p + w0.len(), station_id@);
            lemma_fu64_at(b, p + w0.len() + w1.len(), source_generation);
            lemma_fu64_at(b, p + w0.len() + w1.len() + w2.len(), source_sequence);
        },
        TriggerV4::StationReport { station_id, report_id, report_type, report_revision, provider, source_generation, source_sequence } => {
            let w0 = be_u32(1);
            let w1 = fixed_str_spec(station_id@);
            let w2 = fixed_str_spec(report_id@);
            let w3 = fixed_str_spec(report_type@);
            let w4 = be_u64(report_revision);
            let w5 = fixed_str_spec(provider@);
            let w6 = be_u64(source_generation);
            let w7 = be_u64(source_sequence);
            lemma_holds_split(b, p, w0 + w1 + w2 + w3 + w4 + w5 + w6, w7);
            lemma_holds_split(b, p, w0 + w1 + w2 + w3 + w4 + w5, w6);
            lemma_holds_split(b, p, w0 + w1 + w2 + w3 + w4, w5);
            lemma_holds_split(b, p, w0 + w1 + w2 + w3, w4);
            lemma_holds_split(b, p, w0 + w1 + w2, w3);
            lemma_holds_split(b, p, w0 + w1, w2);
            lemma_holds_split(b, p, w0, w1);
            lemma_fu32_at(b, p, 1);
            lemma_fstr_at(b, p + w0.len(), station_id@);
            lemma_fstr_at(b, p + w0.len() + w1.len(), report_id@);
            lemma_fstr_at(b, p + w0.len() + w1.len() + w2.len(), report_type@);
            lemma_fu64_at(b, p + w0.len() + w1.len() + w2.len() + w3.len(), report_revision);
            lemma_fstr_at(b, p + w0.len() + w1.len() + w2.len() + w3.len() + w4.len(), provider@);
            lemma_fu64_at(b, p + w0.len() + w1.len() + w2.len() + w3.len() + w4.len() + w5.len(), source_generation);
            lemma_fu64_at(b, p + w0.len() + w1.len() + w2.len() + w3.len() + w4.len() + w5.len() + w6.len(), source_sequence);
        },
        TriggerV4::MarketPrice { market_id, price_revision } => {
            let w0 = be_u32(2);
            let w1 = fixed_str_spec(market_id@);
            let w2 = be_u64(price_revision);
            lemma_holds_split(b, p, w0 + w1, w2);
            lemma_holds_split(b, p, w0, w1);
            lemma_fu32_at(b, p, 2);
            lemma_fstr_at(b, p + w0.len(), market_id@);
            lemma_fu64_at(b, p + w0.len() + w1.len(), price_revision);
        },
        TriggerV4::Timer { key } => {
            let w0 = be_u32(3);
            let w1 = fixed_str_spec(key@);
            lemma_holds_split(b, p, w0, w1);
            lemma_fu32_at(b, p, 3);
            lemma_fstr_at(b, p + w0.len(), key@);
        },
        TriggerV4::Bootstrap => lemma_fu32_at(b, p, 4),
        TriggerV4::Recovery => lemma_fu32_at(b, p, 5),
    }
}

proof fn lemma_v4_authority_at(b: Seq<u8>, p: int, v: AuthorityV4)
    requires
        holds_at(b, p, fx_authority(v)),
        b.len() <= u64::MAX,
    ensures
        v4_authority_at(b, p) == Some((v, p + fx_authority(v).len())),
{
    reveal(fx_authority);
    reveal(v4_authority_at);
    match v {
        AuthorityV4::Warming => lemma_fu32_at(b, p, 0),
        AuthorityV4::Current => lemma_fu32_at(b, p, 1),
        AuthorityV4::RefreshPending => lemma_fu32_at(b, p, 2),
        AuthorityV4::Uncertain => lemma_fu32_at(b, p, 3),
        AuthorityV4::Unavailable => lemma_fu32_at(b, p, 4),
    }
}

proof fn lemma_v4_rank_by_at(b: Seq<u8>, p: int, v: RankByV4)
    requires
        holds_at(b, p, fx_rank_by(v)),
        b.len() <= u64::MAX,
    ensures
        v4_rank_by_at(b, p) == Some((v, p + fx_rank_by(v).len())),
{
    reveal(fx_rank_by);
    reveal(v4_rank_by_at);
    match v {
        RankByV4::High => lemma_fu32_at(b, p, 0),
        RankByV4::Low => lemma_fu32_at(b, p, 1),
    }
}

proof fn lemma_v4_lifecycle_at(b: Seq<u8>, p: int, v: LifecycleV4)
    requires
        holds_at(b, p, fx_lifecycle(v)),
        b.len() <= u64::MAX,
    ensures
        v4_lifecycle_at(b, p) == Some((v, p + fx_lifecycle(v).len())),
{
    reveal(fx_lifecycle);
    reveal(v4_lifecycle_at);
    match v {
        LifecycleV4::Discovered => lemma_fu32_at(b, p, 0),
        LifecycleV4::Hydrating => lemma_fu32_at(b, p, 1),
        LifecycleV4::Eligible => lemma_fu32_at(b, p, 2),
        LifecycleV4::Uncertain => lemma_fu32_at(b, p, 3),
        LifecycleV4::Ineligible => lemma_fu32_at(b, p, 4),
        LifecycleV4::Terminal => lemma_fu32_at(b, p, 5),
    }
}

proof fn lemma_v4_market_authority_at(b: Seq<u8>, p: int, v: MarketAuthorityV4)
    requires
        holds_at(b, p, fx_market_authority(v)),
        b.len() <= u64::MAX,
    ensures
        v4_market_authority_at(b, p) == Some((v, p + fx_market_authority(v).len())),
{
    reveal(fx_market_authority);
    reveal(v4_market_authority_at);
    match v {
        MarketAuthorityV4::Current => lemma_fu32_at(b, p, 0),
        MarketAuthorityV4::Uncertain => lemma_fu32_at(b, p, 1),
    }
}

proof fn lemma_v4_gate_status_at(b: Seq<u8>, p: int, v: GateStatusV4)
    requires
        holds_at(b, p, fx_gate_status(v)),
        b.len() <= u64::MAX,
    ensures
        v4_gate_status_at(b, p) == Some((v, p + fx_gate_status(v).len())),
{
    reveal(fx_gate_status);
    reveal(v4_gate_status_at);
    match v {
        GateStatusV4::Open => lemma_fu32_at(b, p, 0),
        GateStatusV4::ClosedFinanceUnavailable => lemma_fu32_at(b, p, 1),
        GateStatusV4::ClosedAdmissionDenied => lemma_fu32_at(b, p, 2),
        GateStatusV4::ClosedRecoveryRequired => lemma_fu32_at(b, p, 3),
    }
}

proof fn lemma_v4_provenance_part0_at(b: Seq<u8>, p: int, v: ProvenanceV4)
    requires
        holds_at(b, p, fx_provenance_part0(v)),
        b.len() <= u64::MAX,
    ensures
        v4_provenance_part0_at(b, p) == Some(((v.provider@, v.source@, v4_opt_string_model(v.event_id), v.connection_epoch, v.sid, v.sequence, v.city_sequence, v.producer_sequence), p + fx_provenance_part0(v).len())),
{
    reveal(fx_provenance_part0);
    reveal(v4_provenance_part0_at);
    let w0 = fixed_str_spec(v.provider@);
    let w1 = fixed_str_spec(v.source@);
    let w2 = fx_opt_string(v.event_id);
    let w3 = fx_opt_u64(v.connection_epoch);
    let w4 = fx_opt_u64(v.sid);
    let w5 = fx_opt_u64(v.sequence);
    let w6 = fx_opt_u64(v.city_sequence);
    let w7 = fx_opt_u64(v.producer_sequence);
    lemma_holds_split(b, p, w0 + w1 + w2 + w3 + w4 + w5 + w6, w7);
    lemma_holds_split(b, p, w0 + w1 + w2 + w3 + w4 + w5, w6);
    lemma_holds_split(b, p, w0 + w1 + w2 + w3 + w4, w5);
    lemma_holds_split(b, p, w0 + w1 + w2 + w3, w4);
    lemma_holds_split(b, p, w0 + w1 + w2, w3);
    lemma_holds_split(b, p, w0 + w1, w2);
    lemma_holds_split(b, p, w0, w1);
    lemma_fstr_at(b, p, v.provider@);
    lemma_fstr_at(b, p + w0.len(), v.source@);
    lemma_v4_opt_string_at(b, p + w0.len() + w1.len(), v.event_id);
    lemma_v4_opt_u64_at(b, p + w0.len() + w1.len() + w2.len(), v.connection_epoch);
    lemma_v4_opt_u64_at(b, p + w0.len() + w1.len() + w2.len() + w3.len(), v.sid);
    lemma_v4_opt_u64_at(b, p + w0.len() + w1.len() + w2.len() + w3.len() + w4.len(), v.sequence);
    lemma_v4_opt_u64_at(b, p + w0.len() + w1.len() + w2.len() + w3.len() + w4.len() + w5.len(), v.city_sequence);
    lemma_v4_opt_u64_at(b, p + w0.len() + w1.len() + w2.len() + w3.len() + w4.len() + w5.len() + w6.len(), v.producer_sequence);
}

proof fn lemma_v4_provenance_part1_at(b: Seq<u8>, p: int, v: ProvenanceV4)
    requires
        holds_at(b, p, fx_provenance_part1(v)),
        b.len() <= u64::MAX,
    ensures
        v4_provenance_part1_at(b, p) == Some(((v.received_frame_ordinal, v.provider_at_unix_ms, v.received_at_unix_ms), p + fx_provenance_part1(v).len())),
{
    reveal(fx_provenance_part1);
    reveal(v4_provenance_part1_at);
    let w0 = fx_opt_u64(v.received_frame_ordinal);
    let w1 = fx_opt_i64(v.provider_at_unix_ms);
    let w2 = be_u64(v.received_at_unix_ms as u64);
    lemma_holds_split(b, p, w0 + w1, w2);
    lemma_holds_split(b, p, w0, w1);
    lemma_v4_opt_u64_at(b, p, v.received_frame_ordinal);
    lemma_v4_opt_i64_at(b, p + w0.len(), v.provider_at_unix_ms);
    lemma_fi64_at(b, p + w0.len() + w1.len(), v.received_at_unix_ms);
}

proof fn lemma_v4_provenance_at(b: Seq<u8>, p: int, v: ProvenanceV4)
    requires
        holds_at(b, p, fx_provenance(v)),
        b.len() <= u64::MAX,
    ensures
        v4_provenance_at(b, p) == Some((v@, p + fx_provenance(v).len())),
{
    reveal(fx_provenance);
    reveal(v4_provenance_at);
    let w0 = fx_provenance_part0(v);
    let w1 = fx_provenance_part1(v);
    lemma_holds_split(b, p, w0, w1);
    lemma_v4_provenance_part0_at(b, p, v);
    lemma_v4_provenance_part1_at(b, p + w0.len(), v);
}

proof fn lemma_v4_evidence_at(b: Seq<u8>, p: int, v: EvidenceV4)
    requires
        holds_at(b, p, fx_evidence(v)),
        b.len() <= u64::MAX,
    ensures
        v4_evidence_at(b, p) == Some((v@, p + fx_evidence(v).len())),
{
    reveal(fx_evidence);
    reveal(v4_evidence_at);
    let w0 = fixed_str_spec(v.kind@);
    let w1 = v.sha256@;
    let w2 = fixed_str_spec(v.reference@);
    let w3 = be_u64(v.byte_count);
    lemma_holds_split(b, p, w0 + w1 + w2, w3);
    lemma_holds_split(b, p, w0 + w1, w2);
    lemma_holds_split(b, p, w0, w1);
    lemma_fstr_at(b, p, v.kind@);
    lemma_farray32_at(b, p + w0.len(), v.sha256);
    lemma_fstr_at(b, p + w0.len() + w1.len(), v.reference@);
    lemma_fu64_at(b, p + w0.len() + w1.len() + w2.len(), v.byte_count);
}

proof fn lemma_v4_component_meta_at(b: Seq<u8>, p: int, v: ComponentMetaV4)
    requires
        holds_at(b, p, fx_component_meta(v)),
        b.len() <= u64::MAX,
    ensures
        v4_component_meta_at(b, p) == Some((v@, p + fx_component_meta(v).len())),
{
    reveal(fx_component_meta);
    reveal(v4_component_meta_at);
    let w0 = fx_authority(v.authority);
    let w1 = be_u64(v.revision);
    let w2 = be_u64(v.generation);
    let w3 = fx_opt_i64(v.updated_at_unix_ms);
    let w4 = fx_opt_string(v.expected_version);
    let w5 = fx_list(v.provenance@, fx_provenance_encoder());
    let w6 = fx_opt_string(v.refresh_error);
    lemma_holds_split(b, p, w0 + w1 + w2 + w3 + w4 + w5, w6);
    lemma_holds_split(b, p, w0 + w1 + w2 + w3 + w4, w5);
    lemma_holds_split(b, p, w0 + w1 + w2 + w3, w4);
    lemma_holds_split(b, p, w0 + w1 + w2, w3);
    lemma_holds_split(b, p, w0 + w1, w2);
    lemma_holds_split(b, p, w0, w1);
    lemma_v4_authority_at(b, p, v.authority);
    lemma_fu64_at(b, p + w0.len(), v.revision);
    lemma_fu64_at(b, p + w0.len() + w1.len(), v.generation);
    lemma_v4_opt_i64_at(b, p + w0.len() + w1.len() + w2.len(), v.updated_at_unix_ms);
    lemma_v4_opt_string_at(b, p + w0.len() + w1.len() + w2.len() + w3.len(), v.expected_version);
    lemma_v4_list_provenance_at(b, p + w0.len() + w1.len() + w2.len() + w3.len() + w4.len(), v.provenance);
    lemma_v4_opt_string_at(b, p + w0.len() + w1.len() + w2.len() + w3.len() + w4.len() + w5.len(), v.refresh_error);
}

proof fn lemma_v4_station_identity_at(b: Seq<u8>, p: int, v: StationIdentityV4)
    requires
        holds_at(b, p, fx_station_identity(v)),
        b.len() <= u64::MAX,
    ensures
        v4_station_identity_at(b, p) == Some((v@, p + fx_station_identity(v).len())),
{
    reveal(fx_station_identity);
    reveal(v4_station_identity_at);
    let w0 = fixed_str_spec(v.station_id@);
    let w1 = fx_opt_string(v.city_id);
    let w2 = fx_opt_string(v.city_slug);
    let w3 = fixed_str_spec(v.logical_location@);
    let w4 = fx_opt_string(v.name);
    let w5 = fx_opt_i64(v.latitude_micros);
    let w6 = fx_opt_i64(v.longitude_micros);
    let w7 = fixed_str_spec(v.timezone@);
    lemma_holds_split(b, p, w0 + w1 + w2 + w3 + w4 + w5 + w6, w7);
    lemma_holds_split(b, p, w0 + w1 + w2 + w3 + w4 + w5, w6);
    lemma_holds_split(b, p, w0 + w1 + w2 + w3 + w4, w5);
    lemma_holds_split(b, p, w0 + w1 + w2 + w3, w4);
    lemma_holds_split(b, p, w0 + w1 + w2, w3);
    lemma_holds_split(b, p, w0 + w1, w2);
    lemma_holds_split(b, p, w0, w1);
    lemma_fstr_at(b, p, v.station_id@);
    lemma_v4_opt_string_at(b, p + w0.len(), v.city_id);
    lemma_v4_opt_string_at(b, p + w0.len() + w1.len(), v.city_slug);
    lemma_fstr_at(b, p + w0.len() + w1.len() + w2.len(), v.logical_location@);
    lemma_v4_opt_string_at(b, p + w0.len() + w1.len() + w2.len() + w3.len(), v.name);
    lemma_v4_opt_i64_at(b, p + w0.len() + w1.len() + w2.len() + w3.len() + w4.len(), v.latitude_micros);
    lemma_v4_opt_i64_at(b, p + w0.len() + w1.len() + w2.len() + w3.len() + w4.len() + w5.len(), v.longitude_micros);
    lemma_fstr_at(b, p + w0.len() + w1.len() + w2.len() + w3.len() + w4.len() + w5.len() + w6.len(), v.timezone@);
}

proof fn lemma_v4_observation_part0_at(b: Seq<u8>, p: int, v: ObservationV4)
    requires
        holds_at(b, p, fx_observation_part0(v)),
        b.len() <= u64::MAX,
    ensures
        v4_observation_part0_at(b, p) == Some(((v.station_id@, v.observed_at_unix_ms, v.source_timestamp_unix_ms, v.producer_received_at_unix_ms, v.live_published_at_unix_ms, v.lag_ms, v.preliminary, v4_opt_string_model(v.persistence_status)), p + fx_observation_part0(v).len())),
{
    reveal(fx_observation_part0);
    reveal(v4_observation_part0_at);
    let w0 = fixed_str_spec(v.station_id@);
    let w1 = be_u64(v.observed_at_unix_ms as u64);
    let w2 = fx_opt_i64(v.source_timestamp_unix_ms);
    let w3 = fx_opt_i64(v.producer_received_at_unix_ms);
    let w4 = fx_opt_i64(v.live_published_at_unix_ms);
    let w5 = fx_opt_i64(v.lag_ms);
    let w6 = wire_bool_spec(v.preliminary);
    let w7 = fx_opt_string(v.persistence_status);
    lemma_holds_split(b, p, w0 + w1 + w2 + w3 + w4 + w5 + w6, w7);
    lemma_holds_split(b, p, w0 + w1 + w2 + w3 + w4 + w5, w6);
    lemma_holds_split(b, p, w0 + w1 + w2 + w3 + w4, w5);
    lemma_holds_split(b, p, w0 + w1 + w2 + w3, w4);
    lemma_holds_split(b, p, w0 + w1 + w2, w3);
    lemma_holds_split(b, p, w0 + w1, w2);
    lemma_holds_split(b, p, w0, w1);
    lemma_fstr_at(b, p, v.station_id@);
    lemma_fi64_at(b, p + w0.len(), v.observed_at_unix_ms);
    lemma_v4_opt_i64_at(b, p + w0.len() + w1.len(), v.source_timestamp_unix_ms);
    lemma_v4_opt_i64_at(b, p + w0.len() + w1.len() + w2.len(), v.producer_received_at_unix_ms);
    lemma_v4_opt_i64_at(b, p + w0.len() + w1.len() + w2.len() + w3.len(), v.live_published_at_unix_ms);
    lemma_v4_opt_i64_at(b, p + w0.len() + w1.len() + w2.len() + w3.len() + w4.len(), v.lag_ms);
    lemma_fbool_at(b, p + w0.len() + w1.len() + w2.len() + w3.len() + w4.len() + w5.len(), v.preliminary);
    lemma_v4_opt_string_at(b, p + w0.len() + w1.len() + w2.len() + w3.len() + w4.len() + w5.len() + w6.len(), v.persistence_status);
}

proof fn lemma_v4_observation_part1_at(b: Seq<u8>, p: int, v: ObservationV4)
    requires
        holds_at(b, p, fx_observation_part1(v)),
        b.len() <= u64::MAX,
    ensures
        v4_observation_part1_at(b, p) == Some(((v.temperature_milli_c, v.temperature_min_milli_c, v.temperature_max_milli_c, v.wu_current_temperature_milli_c, v.wu_daily_high_milli_c, v.wu_daily_low_milli_c, v.wu_observation_at_unix_ms, v.wu_fetched_at_unix_ms), p + fx_observation_part1(v).len())),
{
    reveal(fx_observation_part1);
    reveal(v4_observation_part1_at);
    let w0 = fx_opt_i32(v.temperature_milli_c);
    let w1 = fx_opt_i32(v.temperature_min_milli_c);
    let w2 = fx_opt_i32(v.temperature_max_milli_c);
    let w3 = fx_opt_i32(v.wu_current_temperature_milli_c);
    let w4 = fx_opt_i32(v.wu_daily_high_milli_c);
    let w5 = fx_opt_i32(v.wu_daily_low_milli_c);
    let w6 = fx_opt_i64(v.wu_observation_at_unix_ms);
    let w7 = fx_opt_i64(v.wu_fetched_at_unix_ms);
    lemma_holds_split(b, p, w0 + w1 + w2 + w3 + w4 + w5 + w6, w7);
    lemma_holds_split(b, p, w0 + w1 + w2 + w3 + w4 + w5, w6);
    lemma_holds_split(b, p, w0 + w1 + w2 + w3 + w4, w5);
    lemma_holds_split(b, p, w0 + w1 + w2 + w3, w4);
    lemma_holds_split(b, p, w0 + w1 + w2, w3);
    lemma_holds_split(b, p, w0 + w1, w2);
    lemma_holds_split(b, p, w0, w1);
    lemma_v4_opt_i32_at(b, p, v.temperature_milli_c);
    lemma_v4_opt_i32_at(b, p + w0.len(), v.temperature_min_milli_c);
    lemma_v4_opt_i32_at(b, p + w0.len() + w1.len(), v.temperature_max_milli_c);
    lemma_v4_opt_i32_at(b, p + w0.len() + w1.len() + w2.len(), v.wu_current_temperature_milli_c);
    lemma_v4_opt_i32_at(b, p + w0.len() + w1.len() + w2.len() + w3.len(), v.wu_daily_high_milli_c);
    lemma_v4_opt_i32_at(b, p + w0.len() + w1.len() + w2.len() + w3.len() + w4.len(), v.wu_daily_low_milli_c);
    lemma_v4_opt_i64_at(b, p + w0.len() + w1.len() + w2.len() + w3.len() + w4.len() + w5.len(), v.wu_observation_at_unix_ms);
    lemma_v4_opt_i64_at(b, p + w0.len() + w1.len() + w2.len() + w3.len() + w4.len() + w5.len() + w6.len(), v.wu_fetched_at_unix_ms);
}

proof fn lemma_v4_observation_part2_at(b: Seq<u8>, p: int, v: ObservationV4)
    requires
        holds_at(b, p, fx_observation_part2(v)),
        b.len() <= u64::MAX,
    ensures
        v4_observation_part2_at(b, p) == Some(((v4_opt_string_model(v.temperature_day_mode), v4_opt_string_model(v.temperature_day_date), v4_opt_string_model(v.wu_day_mode), v4_opt_string_model(v.wu_day_date), v.is_from_report, v4_opt_string_model(v.report_type), v4_opt_string_model(v.source_report_id), v.dewpoint_micros), p + fx_observation_part2(v).len())),
{
    reveal(fx_observation_part2);
    reveal(v4_observation_part2_at);
    let w0 = fx_opt_string(v.temperature_day_mode);
    let w1 = fx_opt_string(v.temperature_day_date);
    let w2 = fx_opt_string(v.wu_day_mode);
    let w3 = fx_opt_string(v.wu_day_date);
    let w4 = wire_bool_spec(v.is_from_report);
    let w5 = fx_opt_string(v.report_type);
    let w6 = fx_opt_string(v.source_report_id);
    let w7 = fx_opt_i64(v.dewpoint_micros);
    lemma_holds_split(b, p, w0 + w1 + w2 + w3 + w4 + w5 + w6, w7);
    lemma_holds_split(b, p, w0 + w1 + w2 + w3 + w4 + w5, w6);
    lemma_holds_split(b, p, w0 + w1 + w2 + w3 + w4, w5);
    lemma_holds_split(b, p, w0 + w1 + w2 + w3, w4);
    lemma_holds_split(b, p, w0 + w1 + w2, w3);
    lemma_holds_split(b, p, w0 + w1, w2);
    lemma_holds_split(b, p, w0, w1);
    lemma_v4_opt_string_at(b, p, v.temperature_day_mode);
    lemma_v4_opt_string_at(b, p + w0.len(), v.temperature_day_date);
    lemma_v4_opt_string_at(b, p + w0.len() + w1.len(), v.wu_day_mode);
    lemma_v4_opt_string_at(b, p + w0.len() + w1.len() + w2.len(), v.wu_day_date);
    lemma_fbool_at(b, p + w0.len() + w1.len() + w2.len() + w3.len(), v.is_from_report);
    lemma_v4_opt_string_at(b, p + w0.len() + w1.len() + w2.len() + w3.len() + w4.len(), v.report_type);
    lemma_v4_opt_string_at(b, p + w0.len() + w1.len() + w2.len() + w3.len() + w4.len() + w5.len(), v.source_report_id);
    lemma_v4_opt_i64_at(b, p + w0.len() + w1.len() + w2.len() + w3.len() + w4.len() + w5.len() + w6.len(), v.dewpoint_micros);
}

proof fn lemma_v4_observation_part3_at(b: Seq<u8>, p: int, v: ObservationV4)
    requires
        holds_at(b, p, fx_observation_part3(v)),
        b.len() <= u64::MAX,
    ensures
        v4_observation_part3_at(b, p) == Some(((v.heat_index_micros, v.wind_chill_micros, v.relative_humidity_micros, v.wind_speed_micros, v.wind_direction_micros, v.wind_gust_micros, v4_opt_string_model(v.text_description), v.provenance@), p + fx_observation_part3(v).len())),
{
    reveal(fx_observation_part3);
    reveal(v4_observation_part3_at);
    let w0 = fx_opt_i64(v.heat_index_micros);
    let w1 = fx_opt_i64(v.wind_chill_micros);
    let w2 = fx_opt_i64(v.relative_humidity_micros);
    let w3 = fx_opt_i64(v.wind_speed_micros);
    let w4 = fx_opt_i64(v.wind_direction_micros);
    let w5 = fx_opt_i64(v.wind_gust_micros);
    let w6 = fx_opt_string(v.text_description);
    let w7 = fx_provenance(v.provenance);
    lemma_holds_split(b, p, w0 + w1 + w2 + w3 + w4 + w5 + w6, w7);
    lemma_holds_split(b, p, w0 + w1 + w2 + w3 + w4 + w5, w6);
    lemma_holds_split(b, p, w0 + w1 + w2 + w3 + w4, w5);
    lemma_holds_split(b, p, w0 + w1 + w2 + w3, w4);
    lemma_holds_split(b, p, w0 + w1 + w2, w3);
    lemma_holds_split(b, p, w0 + w1, w2);
    lemma_holds_split(b, p, w0, w1);
    lemma_v4_opt_i64_at(b, p, v.heat_index_micros);
    lemma_v4_opt_i64_at(b, p + w0.len(), v.wind_chill_micros);
    lemma_v4_opt_i64_at(b, p + w0.len() + w1.len(), v.relative_humidity_micros);
    lemma_v4_opt_i64_at(b, p + w0.len() + w1.len() + w2.len(), v.wind_speed_micros);
    lemma_v4_opt_i64_at(b, p + w0.len() + w1.len() + w2.len() + w3.len(), v.wind_direction_micros);
    lemma_v4_opt_i64_at(b, p + w0.len() + w1.len() + w2.len() + w3.len() + w4.len(), v.wind_gust_micros);
    lemma_v4_opt_string_at(b, p + w0.len() + w1.len() + w2.len() + w3.len() + w4.len() + w5.len(), v.text_description);
    lemma_v4_provenance_at(b, p + w0.len() + w1.len() + w2.len() + w3.len() + w4.len() + w5.len() + w6.len(), v.provenance);
}

proof fn lemma_v4_observation_at(b: Seq<u8>, p: int, v: ObservationV4)
    requires
        holds_at(b, p, fx_observation(v)),
        b.len() <= u64::MAX,
    ensures
        v4_observation_at(b, p) == Some((v@, p + fx_observation(v).len())),
{
    reveal(fx_observation);
    reveal(v4_observation_at);
    let w0 = fx_observation_part0(v);
    let w1 = fx_observation_part1(v);
    let w2 = fx_observation_part2(v);
    let w3 = fx_observation_part3(v);
    lemma_holds_split(b, p, w0 + w1 + w2, w3);
    lemma_holds_split(b, p, w0 + w1, w2);
    lemma_holds_split(b, p, w0, w1);
    lemma_v4_observation_part0_at(b, p, v);
    lemma_v4_observation_part1_at(b, p + w0.len(), v);
    lemma_v4_observation_part2_at(b, p + w0.len() + w1.len(), v);
    lemma_v4_observation_part3_at(b, p + w0.len() + w1.len() + w2.len(), v);
}

proof fn lemma_v4_weather_part0_at(b: Seq<u8>, p: int, v: WeatherV4)
    requires
        holds_at(b, p, fx_weather_part0(v)),
        b.len() <= u64::MAX,
    ensures
        v4_weather_part0_at(b, p) == Some(((v.station_id@, v.current_temperature_milli_c, v.running_high_milli_c, v.running_low_milli_c, v.last_metar_at_unix_ms, v.dsm_high_milli_c, v.dsm_low_milli_c, v.dsm_high_at_unix_ms), p + fx_weather_part0(v).len())),
{
    reveal(fx_weather_part0);
    reveal(v4_weather_part0_at);
    let w0 = fixed_str_spec(v.station_id@);
    let w1 = fx_opt_i32(v.current_temperature_milli_c);
    let w2 = fx_opt_i32(v.running_high_milli_c);
    let w3 = fx_opt_i32(v.running_low_milli_c);
    let w4 = fx_opt_i64(v.last_metar_at_unix_ms);
    let w5 = fx_opt_i32(v.dsm_high_milli_c);
    let w6 = fx_opt_i32(v.dsm_low_milli_c);
    let w7 = fx_opt_i64(v.dsm_high_at_unix_ms);
    lemma_holds_split(b, p, w0 + w1 + w2 + w3 + w4 + w5 + w6, w7);
    lemma_holds_split(b, p, w0 + w1 + w2 + w3 + w4 + w5, w6);
    lemma_holds_split(b, p, w0 + w1 + w2 + w3 + w4, w5);
    lemma_holds_split(b, p, w0 + w1 + w2 + w3, w4);
    lemma_holds_split(b, p, w0 + w1 + w2, w3);
    lemma_holds_split(b, p, w0 + w1, w2);
    lemma_holds_split(b, p, w0, w1);
    lemma_fstr_at(b, p, v.station_id@);
    lemma_v4_opt_i32_at(b, p + w0.len(), v.current_temperature_milli_c);
    lemma_v4_opt_i32_at(b, p + w0.len() + w1.len(), v.running_high_milli_c);
    lemma_v4_opt_i32_at(b, p + w0.len() + w1.len() + w2.len(), v.running_low_milli_c);
    lemma_v4_opt_i64_at(b, p + w0.len() + w1.len() + w2.len() + w3.len(), v.last_metar_at_unix_ms);
    lemma_v4_opt_i32_at(b, p + w0.len() + w1.len() + w2.len() + w3.len() + w4.len(), v.dsm_high_milli_c);
    lemma_v4_opt_i32_at(b, p + w0.len() + w1.len() + w2.len() + w3.len() + w4.len() + w5.len(), v.dsm_low_milli_c);
    lemma_v4_opt_i64_at(b, p + w0.len() + w1.len() + w2.len() + w3.len() + w4.len() + w5.len() + w6.len(), v.dsm_high_at_unix_ms);
}

proof fn lemma_v4_weather_part1_at(b: Seq<u8>, p: int, v: WeatherV4)
    requires
        holds_at(b, p, fx_weather_part1(v)),
        b.len() <= u64::MAX,
    ensures
        v4_weather_part1_at(b, p) == Some(((v.dsm_low_at_unix_ms, v.six_hour_high_milli_c, v.six_hour_low_milli_c, v.asos_daily_high_milli_c, v.asos_daily_low_milli_c, v.wu_current_temperature_milli_c, v.wu_daily_high_milli_c, v.wu_daily_low_milli_c), p + fx_weather_part1(v).len())),
{
    reveal(fx_weather_part1);
    reveal(v4_weather_part1_at);
    let w0 = fx_opt_i64(v.dsm_low_at_unix_ms);
    let w1 = fx_opt_i32(v.six_hour_high_milli_c);
    let w2 = fx_opt_i32(v.six_hour_low_milli_c);
    let w3 = fx_opt_i32(v.asos_daily_high_milli_c);
    let w4 = fx_opt_i32(v.asos_daily_low_milli_c);
    let w5 = fx_opt_i32(v.wu_current_temperature_milli_c);
    let w6 = fx_opt_i32(v.wu_daily_high_milli_c);
    let w7 = fx_opt_i32(v.wu_daily_low_milli_c);
    lemma_holds_split(b, p, w0 + w1 + w2 + w3 + w4 + w5 + w6, w7);
    lemma_holds_split(b, p, w0 + w1 + w2 + w3 + w4 + w5, w6);
    lemma_holds_split(b, p, w0 + w1 + w2 + w3 + w4, w5);
    lemma_holds_split(b, p, w0 + w1 + w2 + w3, w4);
    lemma_holds_split(b, p, w0 + w1 + w2, w3);
    lemma_holds_split(b, p, w0 + w1, w2);
    lemma_holds_split(b, p, w0, w1);
    lemma_v4_opt_i64_at(b, p, v.dsm_low_at_unix_ms);
    lemma_v4_opt_i32_at(b, p + w0.len(), v.six_hour_high_milli_c);
    lemma_v4_opt_i32_at(b, p + w0.len() + w1.len(), v.six_hour_low_milli_c);
    lemma_v4_opt_i32_at(b, p + w0.len() + w1.len() + w2.len(), v.asos_daily_high_milli_c);
    lemma_v4_opt_i32_at(b, p + w0.len() + w1.len() + w2.len() + w3.len(), v.asos_daily_low_milli_c);
    lemma_v4_opt_i32_at(b, p + w0.len() + w1.len() + w2.len() + w3.len() + w4.len(), v.wu_current_temperature_milli_c);
    lemma_v4_opt_i32_at(b, p + w0.len() + w1.len() + w2.len() + w3.len() + w4.len() + w5.len(), v.wu_daily_high_milli_c);
    lemma_v4_opt_i32_at(b, p + w0.len() + w1.len() + w2.len() + w3.len() + w4.len() + w5.len() + w6.len(), v.wu_daily_low_milli_c);
}

proof fn lemma_v4_weather_part2_at(b: Seq<u8>, p: int, v: WeatherV4)
    requires
        holds_at(b, p, fx_weather_part2(v)),
        b.len() <= u64::MAX,
    ensures
        v4_weather_part2_at(b, p) == Some(((v.dewpoint_micros, v.heat_index_micros, v.wind_chill_micros, v.relative_humidity_micros, v.wind_speed_micros, v.wind_direction_micros, v.wind_gust_micros, v4_opt_string_model(v.text_description)), p + fx_weather_part2(v).len())),
{
    reveal(fx_weather_part2);
    reveal(v4_weather_part2_at);
    let w0 = fx_opt_i64(v.dewpoint_micros);
    let w1 = fx_opt_i64(v.heat_index_micros);
    let w2 = fx_opt_i64(v.wind_chill_micros);
    let w3 = fx_opt_i64(v.relative_humidity_micros);
    let w4 = fx_opt_i64(v.wind_speed_micros);
    let w5 = fx_opt_i64(v.wind_direction_micros);
    let w6 = fx_opt_i64(v.wind_gust_micros);
    let w7 = fx_opt_string(v.text_description);
    lemma_holds_split(b, p, w0 + w1 + w2 + w3 + w4 + w5 + w6, w7);
    lemma_holds_split(b, p, w0 + w1 + w2 + w3 + w4 + w5, w6);
    lemma_holds_split(b, p, w0 + w1 + w2 + w3 + w4, w5);
    lemma_holds_split(b, p, w0 + w1 + w2 + w3, w4);
    lemma_holds_split(b, p, w0 + w1 + w2, w3);
    lemma_holds_split(b, p, w0 + w1, w2);
    lemma_holds_split(b, p, w0, w1);
    lemma_v4_opt_i64_at(b, p, v.dewpoint_micros);
    lemma_v4_opt_i64_at(b, p + w0.len(), v.heat_index_micros);
    lemma_v4_opt_i64_at(b, p + w0.len() + w1.len(), v.wind_chill_micros);
    lemma_v4_opt_i64_at(b, p + w0.len() + w1.len() + w2.len(), v.relative_humidity_micros);
    lemma_v4_opt_i64_at(b, p + w0.len() + w1.len() + w2.len() + w3.len(), v.wind_speed_micros);
    lemma_v4_opt_i64_at(b, p + w0.len() + w1.len() + w2.len() + w3.len() + w4.len(), v.wind_direction_micros);
    lemma_v4_opt_i64_at(b, p + w0.len() + w1.len() + w2.len() + w3.len() + w4.len() + w5.len(), v.wind_gust_micros);
    lemma_v4_opt_string_at(b, p + w0.len() + w1.len() + w2.len() + w3.len() + w4.len() + w5.len() + w6.len(), v.text_description);
}

proof fn lemma_v4_weather_part3_at(b: Seq<u8>, p: int, v: WeatherV4)
    requires
        holds_at(b, p, fx_weather_part3(v)),
        b.len() <= u64::MAX,
    ensures
        v4_weather_part3_at(b, p) == Some(((v.preliminary,), p + fx_weather_part3(v).len())),
{
    reveal(fx_weather_part3);
    reveal(v4_weather_part3_at);
    let w0 = wire_bool_spec(v.preliminary);
    lemma_fbool_at(b, p, v.preliminary);
}

proof fn lemma_v4_weather_at(b: Seq<u8>, p: int, v: WeatherV4)
    requires
        holds_at(b, p, fx_weather(v)),
        b.len() <= u64::MAX,
    ensures
        v4_weather_at(b, p) == Some((v@, p + fx_weather(v).len())),
{
    reveal(fx_weather);
    reveal(v4_weather_at);
    let w0 = fx_weather_part0(v);
    let w1 = fx_weather_part1(v);
    let w2 = fx_weather_part2(v);
    let w3 = fx_weather_part3(v);
    lemma_holds_split(b, p, w0 + w1 + w2, w3);
    lemma_holds_split(b, p, w0 + w1, w2);
    lemma_holds_split(b, p, w0, w1);
    lemma_v4_weather_part0_at(b, p, v);
    lemma_v4_weather_part1_at(b, p + w0.len(), v);
    lemma_v4_weather_part2_at(b, p + w0.len() + w1.len(), v);
    lemma_v4_weather_part3_at(b, p + w0.len() + w1.len() + w2.len(), v);
}

proof fn lemma_v4_extreme_part0_at(b: Seq<u8>, p: int, v: ExtremeV4)
    requires
        holds_at(b, p, fx_extreme_part0(v)),
        b.len() <= u64::MAX,
    ensures
        v4_extreme_part0_at(b, p) == Some(((v.value_milli_c, v.previous_value_milli_c, v.observed_at_unix_ms, v4_opt_string_model(v.temperature_day_mode), v4_opt_string_model(v.temperature_day_date), v.is_from_report, v4_opt_string_model(v.report_type), v4_opt_string_model(v.source_report_id)), p + fx_extreme_part0(v).len())),
{
    reveal(fx_extreme_part0);
    reveal(v4_extreme_part0_at);
    let w0 = be_u32(v.value_milli_c as u32);
    let w1 = fx_opt_i32(v.previous_value_milli_c);
    let w2 = fx_opt_i64(v.observed_at_unix_ms);
    let w3 = fx_opt_string(v.temperature_day_mode);
    let w4 = fx_opt_string(v.temperature_day_date);
    let w5 = wire_bool_spec(v.is_from_report);
    let w6 = fx_opt_string(v.report_type);
    let w7 = fx_opt_string(v.source_report_id);
    lemma_holds_split(b, p, w0 + w1 + w2 + w3 + w4 + w5 + w6, w7);
    lemma_holds_split(b, p, w0 + w1 + w2 + w3 + w4 + w5, w6);
    lemma_holds_split(b, p, w0 + w1 + w2 + w3 + w4, w5);
    lemma_holds_split(b, p, w0 + w1 + w2 + w3, w4);
    lemma_holds_split(b, p, w0 + w1 + w2, w3);
    lemma_holds_split(b, p, w0 + w1, w2);
    lemma_holds_split(b, p, w0, w1);
    lemma_fi32_at(b, p, v.value_milli_c);
    lemma_v4_opt_i32_at(b, p + w0.len(), v.previous_value_milli_c);
    lemma_v4_opt_i64_at(b, p + w0.len() + w1.len(), v.observed_at_unix_ms);
    lemma_v4_opt_string_at(b, p + w0.len() + w1.len() + w2.len(), v.temperature_day_mode);
    lemma_v4_opt_string_at(b, p + w0.len() + w1.len() + w2.len() + w3.len(), v.temperature_day_date);
    lemma_fbool_at(b, p + w0.len() + w1.len() + w2.len() + w3.len() + w4.len(), v.is_from_report);
    lemma_v4_opt_string_at(b, p + w0.len() + w1.len() + w2.len() + w3.len() + w4.len() + w5.len(), v.report_type);
    lemma_v4_opt_string_at(b, p + w0.len() + w1.len() + w2.len() + w3.len() + w4.len() + w5.len() + w6.len(), v.source_report_id);
}

proof fn lemma_v4_extreme_part1_at(b: Seq<u8>, p: int, v: ExtremeV4)
    requires
        holds_at(b, p, fx_extreme_part1(v)),
        b.len() <= u64::MAX,
    ensures
        v4_extreme_part1_at(b, p) == Some(((v.provenance@,), p + fx_extreme_part1(v).len())),
{
    reveal(fx_extreme_part1);
    reveal(v4_extreme_part1_at);
    let w0 = fx_provenance(v.provenance);
    lemma_v4_provenance_at(b, p, v.provenance);
}

proof fn lemma_v4_extreme_at(b: Seq<u8>, p: int, v: ExtremeV4)
    requires
        holds_at(b, p, fx_extreme(v)),
        b.len() <= u64::MAX,
    ensures
        v4_extreme_at(b, p) == Some((v@, p + fx_extreme(v).len())),
{
    reveal(fx_extreme);
    reveal(v4_extreme_at);
    let w0 = fx_extreme_part0(v);
    let w1 = fx_extreme_part1(v);
    lemma_holds_split(b, p, w0, w1);
    lemma_v4_extreme_part0_at(b, p, v);
    lemma_v4_extreme_part1_at(b, p + w0.len(), v);
}

proof fn lemma_v4_extrema_at(b: Seq<u8>, p: int, v: ExtremaV4)
    requires
        holds_at(b, p, fx_extrema(v)),
        b.len() <= u64::MAX,
    ensures
        v4_extrema_at(b, p) == Some((v@, p + fx_extrema(v).len())),
{
    reveal(fx_extrema);
    reveal(v4_extrema_at);
    let w0 = fx_opt_extreme(v.high);
    let w1 = fx_opt_extreme(v.low);
    lemma_holds_split(b, p, w0, w1);
    lemma_v4_opt_extreme_at(b, p, v.high);
    lemma_v4_opt_extreme_at(b, p + w0.len(), v.low);
}

proof fn lemma_v4_report_part0_at(b: Seq<u8>, p: int, v: ReportV4)
    requires
        holds_at(b, p, fx_report_part0(v)),
        b.len() <= u64::MAX,
    ensures
        v4_report_part0_at(b, p) == Some(((v.report_id@, v.report_type@, v.report_date@, v.authority, v.revision, v.generation, v.issued_at_unix_ms, v.updated_at_unix_ms), p + fx_report_part0(v).len())),
{
    reveal(fx_report_part0);
    reveal(v4_report_part0_at);
    let w0 = fixed_str_spec(v.report_id@);
    let w1 = fixed_str_spec(v.report_type@);
    let w2 = fixed_str_spec(v.report_date@);
    let w3 = fx_authority(v.authority);
    let w4 = be_u64(v.revision);
    let w5 = be_u64(v.generation);
    let w6 = fx_opt_i64(v.issued_at_unix_ms);
    let w7 = fx_opt_i64(v.updated_at_unix_ms);
    lemma_holds_split(b, p, w0 + w1 + w2 + w3 + w4 + w5 + w6, w7);
    lemma_holds_split(b, p, w0 + w1 + w2 + w3 + w4 + w5, w6);
    lemma_holds_split(b, p, w0 + w1 + w2 + w3 + w4, w5);
    lemma_holds_split(b, p, w0 + w1 + w2 + w3, w4);
    lemma_holds_split(b, p, w0 + w1 + w2, w3);
    lemma_holds_split(b, p, w0 + w1, w2);
    lemma_holds_split(b, p, w0, w1);
    lemma_fstr_at(b, p, v.report_id@);
    lemma_fstr_at(b, p + w0.len(), v.report_type@);
    lemma_fstr_at(b, p + w0.len() + w1.len(), v.report_date@);
    lemma_v4_authority_at(b, p + w0.len() + w1.len() + w2.len(), v.authority);
    lemma_fu64_at(b, p + w0.len() + w1.len() + w2.len() + w3.len(), v.revision);
    lemma_fu64_at(b, p + w0.len() + w1.len() + w2.len() + w3.len() + w4.len(), v.generation);
    lemma_v4_opt_i64_at(b, p + w0.len() + w1.len() + w2.len() + w3.len() + w4.len() + w5.len(), v.issued_at_unix_ms);
    lemma_v4_opt_i64_at(b, p + w0.len() + w1.len() + w2.len() + w3.len() + w4.len() + w5.len() + w6.len(), v.updated_at_unix_ms);
}

proof fn lemma_v4_report_part1_at(b: Seq<u8>, p: int, v: ReportV4)
    requires
        holds_at(b, p, fx_report_part1(v)),
        b.len() <= u64::MAX,
    ensures
        v4_report_part1_at(b, p) == Some(((v.fetched_at_unix_ms, v.provider@, v.source_url@, v.max_temperature_milli_c, v.min_temperature_milli_c, v.temperature_milli_c, v.temperature_milli_f, v.max_temperature_at_unix_ms), p + fx_report_part1(v).len())),
{
    reveal(fx_report_part1);
    reveal(v4_report_part1_at);
    let w0 = fx_opt_i64(v.fetched_at_unix_ms);
    let w1 = fixed_str_spec(v.provider@);
    let w2 = fixed_str_spec(v.source_url@);
    let w3 = fx_opt_i32(v.max_temperature_milli_c);
    let w4 = fx_opt_i32(v.min_temperature_milli_c);
    let w5 = fx_opt_i32(v.temperature_milli_c);
    let w6 = fx_opt_i32(v.temperature_milli_f);
    let w7 = fx_opt_i64(v.max_temperature_at_unix_ms);
    lemma_holds_split(b, p, w0 + w1 + w2 + w3 + w4 + w5 + w6, w7);
    lemma_holds_split(b, p, w0 + w1 + w2 + w3 + w4 + w5, w6);
    lemma_holds_split(b, p, w0 + w1 + w2 + w3 + w4, w5);
    lemma_holds_split(b, p, w0 + w1 + w2 + w3, w4);
    lemma_holds_split(b, p, w0 + w1 + w2, w3);
    lemma_holds_split(b, p, w0 + w1, w2);
    lemma_holds_split(b, p, w0, w1);
    lemma_v4_opt_i64_at(b, p, v.fetched_at_unix_ms);
    lemma_fstr_at(b, p + w0.len(), v.provider@);
    lemma_fstr_at(b, p + w0.len() + w1.len(), v.source_url@);
    lemma_v4_opt_i32_at(b, p + w0.len() + w1.len() + w2.len(), v.max_temperature_milli_c);
    lemma_v4_opt_i32_at(b, p + w0.len() + w1.len() + w2.len() + w3.len(), v.min_temperature_milli_c);
    lemma_v4_opt_i32_at(b, p + w0.len() + w1.len() + w2.len() + w3.len() + w4.len(), v.temperature_milli_c);
    lemma_v4_opt_i32_at(b, p + w0.len() + w1.len() + w2.len() + w3.len() + w4.len() + w5.len(), v.temperature_milli_f);
    lemma_v4_opt_i64_at(b, p + w0.len() + w1.len() + w2.len() + w3.len() + w4.len() + w5.len() + w6.len(), v.max_temperature_at_unix_ms);
}

proof fn lemma_v4_report_part2_at(b: Seq<u8>, p: int, v: ReportV4)
    requires
        holds_at(b, p, fx_report_part2(v)),
        b.len() <= u64::MAX,
    ensures
        v4_report_part2_at(b, p) == Some(((v.min_temperature_at_unix_ms, v.provenance@), p + fx_report_part2(v).len())),
{
    reveal(fx_report_part2);
    reveal(v4_report_part2_at);
    let w0 = fx_opt_i64(v.min_temperature_at_unix_ms);
    let w1 = fx_provenance(v.provenance);
    lemma_holds_split(b, p, w0, w1);
    lemma_v4_opt_i64_at(b, p, v.min_temperature_at_unix_ms);
    lemma_v4_provenance_at(b, p + w0.len(), v.provenance);
}

proof fn lemma_v4_report_at(b: Seq<u8>, p: int, v: ReportV4)
    requires
        holds_at(b, p, fx_report(v)),
        b.len() <= u64::MAX,
    ensures
        v4_report_at(b, p) == Some((v@, p + fx_report(v).len())),
{
    reveal(fx_report);
    reveal(v4_report_at);
    let w0 = fx_report_part0(v);
    let w1 = fx_report_part1(v);
    let w2 = fx_report_part2(v);
    lemma_holds_split(b, p, w0 + w1, w2);
    lemma_holds_split(b, p, w0, w1);
    lemma_v4_report_part0_at(b, p, v);
    lemma_v4_report_part1_at(b, p + w0.len(), v);
    lemma_v4_report_part2_at(b, p + w0.len() + w1.len(), v);
}

proof fn lemma_v4_weather_event_source_part0_at(b: Seq<u8>, p: int, v: WeatherEventSourceV4)
    requires
        holds_at(b, p, fx_weather_event_source_part0(v)),
        b.len() <= u64::MAX,
    ensures
        v4_weather_event_source_part0_at(b, p) == Some(((v4_opt_string_model(v.metar_type), v4_opt_string_model(v.flight_category), v4_opt_string_model(v.wx_string), v4_opt_string_model(v.wx_token), v.wind_speed_knots_micros, v.wind_gust_knots_micros, v.peak_wind_knots_micros, v.peak_wind_direction), p + fx_weather_event_source_part0(v).len())),
{
    reveal(fx_weather_event_source_part0);
    reveal(v4_weather_event_source_part0_at);
    let w0 = fx_opt_string(v.metar_type);
    let w1 = fx_opt_string(v.flight_category);
    let w2 = fx_opt_string(v.wx_string);
    let w3 = fx_opt_string(v.wx_token);
    let w4 = fx_opt_i64(v.wind_speed_knots_micros);
    let w5 = fx_opt_i64(v.wind_gust_knots_micros);
    let w6 = fx_opt_i64(v.peak_wind_knots_micros);
    let w7 = fx_opt_i64(v.peak_wind_direction);
    lemma_holds_split(b, p, w0 + w1 + w2 + w3 + w4 + w5 + w6, w7);
    lemma_holds_split(b, p, w0 + w1 + w2 + w3 + w4 + w5, w6);
    lemma_holds_split(b, p, w0 + w1 + w2 + w3 + w4, w5);
    lemma_holds_split(b, p, w0 + w1 + w2 + w3, w4);
    lemma_holds_split(b, p, w0 + w1 + w2, w3);
    lemma_holds_split(b, p, w0 + w1, w2);
    lemma_holds_split(b, p, w0, w1);
    lemma_v4_opt_string_at(b, p, v.metar_type);
    lemma_v4_opt_string_at(b, p + w0.len(), v.flight_category);
    lemma_v4_opt_string_at(b, p + w0.len() + w1.len(), v.wx_string);
    lemma_v4_opt_string_at(b, p + w0.len() + w1.len() + w2.len(), v.wx_token);
    lemma_v4_opt_i64_at(b, p + w0.len() + w1.len() + w2.len() + w3.len(), v.wind_speed_knots_micros);
    lemma_v4_opt_i64_at(b, p + w0.len() + w1.len() + w2.len() + w3.len() + w4.len(), v.wind_gust_knots_micros);
    lemma_v4_opt_i64_at(b, p + w0.len() + w1.len() + w2.len() + w3.len() + w4.len() + w5.len(), v.peak_wind_knots_micros);
    lemma_v4_opt_i64_at(b, p + w0.len() + w1.len() + w2.len() + w3.len() + w4.len() + w5.len() + w6.len(), v.peak_wind_direction);
}

proof fn lemma_v4_weather_event_source_part1_at(b: Seq<u8>, p: int, v: WeatherEventSourceV4)
    requires
        holds_at(b, p, fx_weather_event_source_part1(v)),
        b.len() <= u64::MAX,
    ensures
        v4_weather_event_source_part1_at(b, p) == Some(((v.visibility_miles_micros, v4_opt_string_model(v.cb_location)), p + fx_weather_event_source_part1(v).len())),
{
    reveal(fx_weather_event_source_part1);
    reveal(v4_weather_event_source_part1_at);
    let w0 = fx_opt_i64(v.visibility_miles_micros);
    let w1 = fx_opt_string(v.cb_location);
    lemma_holds_split(b, p, w0, w1);
    lemma_v4_opt_i64_at(b, p, v.visibility_miles_micros);
    lemma_v4_opt_string_at(b, p + w0.len(), v.cb_location);
}

proof fn lemma_v4_weather_event_source_at(b: Seq<u8>, p: int, v: WeatherEventSourceV4)
    requires
        holds_at(b, p, fx_weather_event_source(v)),
        b.len() <= u64::MAX,
    ensures
        v4_weather_event_source_at(b, p) == Some((v@, p + fx_weather_event_source(v).len())),
{
    reveal(fx_weather_event_source);
    reveal(v4_weather_event_source_at);
    let w0 = fx_weather_event_source_part0(v);
    let w1 = fx_weather_event_source_part1(v);
    lemma_holds_split(b, p, w0, w1);
    lemma_v4_weather_event_source_part0_at(b, p, v);
    lemma_v4_weather_event_source_part1_at(b, p + w0.len(), v);
}

proof fn lemma_v4_weather_event_part0_at(b: Seq<u8>, p: int, v: WeatherEventV4)
    requires
        holds_at(b, p, fx_weather_event_part0(v)),
        b.len() <= u64::MAX,
    ensures
        v4_weather_event_part0_at(b, p) == Some(((v.event_id@, v.event_type@, v.tier@, v.state@, v.authority, v.revision, v.generation, v.name@), p + fx_weather_event_part0(v).len())),
{
    reveal(fx_weather_event_part0);
    reveal(v4_weather_event_part0_at);
    let w0 = fixed_str_spec(v.event_id@);
    let w1 = fixed_str_spec(v.event_type@);
    let w2 = fixed_str_spec(v.tier@);
    let w3 = fixed_str_spec(v.state@);
    let w4 = fx_authority(v.authority);
    let w5 = be_u64(v.revision);
    let w6 = be_u64(v.generation);
    let w7 = fixed_str_spec(v.name@);
    lemma_holds_split(b, p, w0 + w1 + w2 + w3 + w4 + w5 + w6, w7);
    lemma_holds_split(b, p, w0 + w1 + w2 + w3 + w4 + w5, w6);
    lemma_holds_split(b, p, w0 + w1 + w2 + w3 + w4, w5);
    lemma_holds_split(b, p, w0 + w1 + w2 + w3, w4);
    lemma_holds_split(b, p, w0 + w1 + w2, w3);
    lemma_holds_split(b, p, w0 + w1, w2);
    lemma_holds_split(b, p, w0, w1);
    lemma_fstr_at(b, p, v.event_id@);
    lemma_fstr_at(b, p + w0.len(), v.event_type@);
    lemma_fstr_at(b, p + w0.len() + w1.len(), v.tier@);
    lemma_fstr_at(b, p + w0.len() + w1.len() + w2.len(), v.state@);
    lemma_v4_authority_at(b, p + w0.len() + w1.len() + w2.len() + w3.len(), v.authority);
    lemma_fu64_at(b, p + w0.len() + w1.len() + w2.len() + w3.len() + w4.len(), v.revision);
    lemma_fu64_at(b, p + w0.len() + w1.len() + w2.len() + w3.len() + w4.len() + w5.len(), v.generation);
    lemma_fstr_at(b, p + w0.len() + w1.len() + w2.len() + w3.len() + w4.len() + w5.len() + w6.len(), v.name@);
}

proof fn lemma_v4_weather_event_part1_at(b: Seq<u8>, p: int, v: WeatherEventV4)
    requires
        holds_at(b, p, fx_weather_event_part1(v)),
        b.len() <= u64::MAX,
    ensures
        v4_weather_event_part1_at(b, p) == Some(((v.badge@, v.detail@, v.summary@, v.started_at_unix_ms, v.last_confirmed_at_unix_ms, v.ended_at_unix_ms, v4_opt_weather_event_source_model(v.source), v.provenance@), p + fx_weather_event_part1(v).len())),
{
    reveal(fx_weather_event_part1);
    reveal(v4_weather_event_part1_at);
    let w0 = fixed_str_spec(v.badge@);
    let w1 = fixed_str_spec(v.detail@);
    let w2 = fixed_str_spec(v.summary@);
    let w3 = fx_opt_i64(v.started_at_unix_ms);
    let w4 = fx_opt_i64(v.last_confirmed_at_unix_ms);
    let w5 = fx_opt_i64(v.ended_at_unix_ms);
    let w6 = fx_opt_weather_event_source(v.source);
    let w7 = fx_provenance(v.provenance);
    lemma_holds_split(b, p, w0 + w1 + w2 + w3 + w4 + w5 + w6, w7);
    lemma_holds_split(b, p, w0 + w1 + w2 + w3 + w4 + w5, w6);
    lemma_holds_split(b, p, w0 + w1 + w2 + w3 + w4, w5);
    lemma_holds_split(b, p, w0 + w1 + w2 + w3, w4);
    lemma_holds_split(b, p, w0 + w1 + w2, w3);
    lemma_holds_split(b, p, w0 + w1, w2);
    lemma_holds_split(b, p, w0, w1);
    lemma_fstr_at(b, p, v.badge@);
    lemma_fstr_at(b, p + w0.len(), v.detail@);
    lemma_fstr_at(b, p + w0.len() + w1.len(), v.summary@);
    lemma_v4_opt_i64_at(b, p + w0.len() + w1.len() + w2.len(), v.started_at_unix_ms);
    lemma_v4_opt_i64_at(b, p + w0.len() + w1.len() + w2.len() + w3.len(), v.last_confirmed_at_unix_ms);
    lemma_v4_opt_i64_at(b, p + w0.len() + w1.len() + w2.len() + w3.len() + w4.len(), v.ended_at_unix_ms);
    lemma_v4_opt_weather_event_source_at(b, p + w0.len() + w1.len() + w2.len() + w3.len() + w4.len() + w5.len(), v.source);
    lemma_v4_provenance_at(b, p + w0.len() + w1.len() + w2.len() + w3.len() + w4.len() + w5.len() + w6.len(), v.provenance);
}

proof fn lemma_v4_weather_event_at(b: Seq<u8>, p: int, v: WeatherEventV4)
    requires
        holds_at(b, p, fx_weather_event(v)),
        b.len() <= u64::MAX,
    ensures
        v4_weather_event_at(b, p) == Some((v@, p + fx_weather_event(v).len())),
{
    reveal(fx_weather_event);
    reveal(v4_weather_event_at);
    let w0 = fx_weather_event_part0(v);
    let w1 = fx_weather_event_part1(v);
    lemma_holds_split(b, p, w0, w1);
    lemma_v4_weather_event_part0_at(b, p, v);
    lemma_v4_weather_event_part1_at(b, p + w0.len(), v);
}

proof fn lemma_v4_forecast_point_part0_at(b: Seq<u8>, p: int, v: ForecastPointV4)
    requires
        holds_at(b, p, fx_forecast_point_part0(v)),
        b.len() <= u64::MAX,
    ensures
        v4_forecast_point_part0_at(b, p) == Some(((v.at_unix_ms, v.temperature_milli_c, v.apparent_temperature_milli_c, v.humidity_millionths, v.dew_point_milli_c, v.pressure_msl_micros, v.wind_speed_micros, v.wind_direction_degrees), p + fx_forecast_point_part0(v).len())),
{
    reveal(fx_forecast_point_part0);
    reveal(v4_forecast_point_part0_at);
    let w0 = be_u64(v.at_unix_ms as u64);
    let w1 = fx_opt_i32(v.temperature_milli_c);
    let w2 = fx_opt_i32(v.apparent_temperature_milli_c);
    let w3 = fx_opt_i64(v.humidity_millionths);
    let w4 = fx_opt_i32(v.dew_point_milli_c);
    let w5 = fx_opt_i64(v.pressure_msl_micros);
    let w6 = fx_opt_i64(v.wind_speed_micros);
    let w7 = fx_opt_i32(v.wind_direction_degrees);
    lemma_holds_split(b, p, w0 + w1 + w2 + w3 + w4 + w5 + w6, w7);
    lemma_holds_split(b, p, w0 + w1 + w2 + w3 + w4 + w5, w6);
    lemma_holds_split(b, p, w0 + w1 + w2 + w3 + w4, w5);
    lemma_holds_split(b, p, w0 + w1 + w2 + w3, w4);
    lemma_holds_split(b, p, w0 + w1 + w2, w3);
    lemma_holds_split(b, p, w0 + w1, w2);
    lemma_holds_split(b, p, w0, w1);
    lemma_fi64_at(b, p, v.at_unix_ms);
    lemma_v4_opt_i32_at(b, p + w0.len(), v.temperature_milli_c);
    lemma_v4_opt_i32_at(b, p + w0.len() + w1.len(), v.apparent_temperature_milli_c);
    lemma_v4_opt_i64_at(b, p + w0.len() + w1.len() + w2.len(), v.humidity_millionths);
    lemma_v4_opt_i32_at(b, p + w0.len() + w1.len() + w2.len() + w3.len(), v.dew_point_milli_c);
    lemma_v4_opt_i64_at(b, p + w0.len() + w1.len() + w2.len() + w3.len() + w4.len(), v.pressure_msl_micros);
    lemma_v4_opt_i64_at(b, p + w0.len() + w1.len() + w2.len() + w3.len() + w4.len() + w5.len(), v.wind_speed_micros);
    lemma_v4_opt_i32_at(b, p + w0.len() + w1.len() + w2.len() + w3.len() + w4.len() + w5.len() + w6.len(), v.wind_direction_degrees);
}

proof fn lemma_v4_forecast_point_part1_at(b: Seq<u8>, p: int, v: ForecastPointV4)
    requires
        holds_at(b, p, fx_forecast_point_part1(v)),
        b.len() <= u64::MAX,
    ensures
        v4_forecast_point_part1_at(b, p) == Some(((v.wind_gust_micros, v.cloud_cover_millionths, v.precipitation_probability_millionths, v.weather_code), p + fx_forecast_point_part1(v).len())),
{
    reveal(fx_forecast_point_part1);
    reveal(v4_forecast_point_part1_at);
    let w0 = fx_opt_i64(v.wind_gust_micros);
    let w1 = fx_opt_i64(v.cloud_cover_millionths);
    let w2 = fx_opt_i64(v.precipitation_probability_millionths);
    let w3 = fx_opt_i32(v.weather_code);
    lemma_holds_split(b, p, w0 + w1 + w2, w3);
    lemma_holds_split(b, p, w0 + w1, w2);
    lemma_holds_split(b, p, w0, w1);
    lemma_v4_opt_i64_at(b, p, v.wind_gust_micros);
    lemma_v4_opt_i64_at(b, p + w0.len(), v.cloud_cover_millionths);
    lemma_v4_opt_i64_at(b, p + w0.len() + w1.len(), v.precipitation_probability_millionths);
    lemma_v4_opt_i32_at(b, p + w0.len() + w1.len() + w2.len(), v.weather_code);
}

proof fn lemma_v4_forecast_point_at(b: Seq<u8>, p: int, v: ForecastPointV4)
    requires
        holds_at(b, p, fx_forecast_point(v)),
        b.len() <= u64::MAX,
    ensures
        v4_forecast_point_at(b, p) == Some((v@, p + fx_forecast_point(v).len())),
{
    reveal(fx_forecast_point);
    reveal(v4_forecast_point_at);
    let w0 = fx_forecast_point_part0(v);
    let w1 = fx_forecast_point_part1(v);
    lemma_holds_split(b, p, w0, w1);
    lemma_v4_forecast_point_part0_at(b, p, v);
    lemma_v4_forecast_point_part1_at(b, p + w0.len(), v);
}

proof fn lemma_v4_forecast_model_at(b: Seq<u8>, p: int, v: ForecastModelV4)
    requires
        holds_at(b, p, fx_forecast_model(v)),
        b.len() <= u64::MAX,
    ensures
        v4_forecast_model_at(b, p) == Some((v@, p + fx_forecast_model(v).len())),
{
    reveal(fx_forecast_model);
    reveal(v4_forecast_model_at);
    let w0 = fixed_str_spec(v.model_id@);
    let w1 = fixed_str_spec(v.version@);
    let w2 = fx_opt_string(v.run_id);
    let w3 = fx_opt_i64(v.fetched_at_unix_ms);
    let w4 = fx_opt_i64(v.issued_at_unix_ms);
    let w5 = fx_opt_string(v.timezone);
    let w6 = fx_opt_i32(v.utc_offset_seconds);
    let w7 = fx_list(v.hourly@, fx_forecast_point_encoder());
    lemma_holds_split(b, p, w0 + w1 + w2 + w3 + w4 + w5 + w6, w7);
    lemma_holds_split(b, p, w0 + w1 + w2 + w3 + w4 + w5, w6);
    lemma_holds_split(b, p, w0 + w1 + w2 + w3 + w4, w5);
    lemma_holds_split(b, p, w0 + w1 + w2 + w3, w4);
    lemma_holds_split(b, p, w0 + w1 + w2, w3);
    lemma_holds_split(b, p, w0 + w1, w2);
    lemma_holds_split(b, p, w0, w1);
    lemma_fstr_at(b, p, v.model_id@);
    lemma_fstr_at(b, p + w0.len(), v.version@);
    lemma_v4_opt_string_at(b, p + w0.len() + w1.len(), v.run_id);
    lemma_v4_opt_i64_at(b, p + w0.len() + w1.len() + w2.len(), v.fetched_at_unix_ms);
    lemma_v4_opt_i64_at(b, p + w0.len() + w1.len() + w2.len() + w3.len(), v.issued_at_unix_ms);
    lemma_v4_opt_string_at(b, p + w0.len() + w1.len() + w2.len() + w3.len() + w4.len(), v.timezone);
    lemma_v4_opt_i32_at(b, p + w0.len() + w1.len() + w2.len() + w3.len() + w4.len() + w5.len(), v.utc_offset_seconds);
    lemma_v4_list_forecast_point_at(b, p + w0.len() + w1.len() + w2.len() + w3.len() + w4.len() + w5.len() + w6.len(), v.hourly);
}

proof fn lemma_v4_forecast_at(b: Seq<u8>, p: int, v: ForecastV4)
    requires
        holds_at(b, p, fx_forecast(v)),
        b.len() <= u64::MAX,
    ensures
        v4_forecast_at(b, p) == Some((v@, p + fx_forecast(v).len())),
{
    reveal(fx_forecast);
    reveal(v4_forecast_at);
    let w0 = fx_list(v.advertised_versions@, fx_string_string_pair_encoder());
    let w1 = fx_list(v.models@, fx_forecast_model_encoder());
    lemma_holds_split(b, p, w0, w1);
    lemma_v4_list_string_string_pair_at(b, p, v.advertised_versions);
    lemma_v4_list_forecast_model_at(b, p + w0.len(), v.models);
}

proof fn lemma_v4_oracle_query_at(b: Seq<u8>, p: int, v: OracleQueryV4)
    requires
        holds_at(b, p, fx_oracle_query(v)),
        b.len() <= u64::MAX,
    ensures
        v4_oracle_query_at(b, p) == Some((v@, p + fx_oracle_query(v).len())),
{
    reveal(fx_oracle_query);
    reveal(v4_oracle_query_at);
    let w0 = fixed_str_spec(v.station_id@);
    let w1 = fixed_str_spec(v.mode@);
    let w2 = fx_rank_by(v.rank_by);
    let w3 = seq![v.days];
    lemma_holds_split(b, p, w0 + w1 + w2, w3);
    lemma_holds_split(b, p, w0 + w1, w2);
    lemma_holds_split(b, p, w0, w1);
    lemma_fstr_at(b, p, v.station_id@);
    lemma_fstr_at(b, p + w0.len(), v.mode@);
    lemma_v4_rank_by_at(b, p + w0.len() + w1.len(), v.rank_by);
    lemma_fu8_at(b, p + w0.len() + w1.len() + w2.len(), v.days);
}

proof fn lemma_v4_oracle_row_part0_at(b: Seq<u8>, p: int, v: OracleRowV4)
    requires
        holds_at(b, p, fx_oracle_row_part0(v)),
        b.len() <= u64::MAX,
    ensures
        v4_oracle_row_part0_at(b, p) == Some(((v.rank, v.model_id@, v.model_name@, v.is_public, v.high_mae_millionths, v.low_mae_millionths, v.combined_mae_millionths, v.high_bias_millionths), p + fx_oracle_row_part0(v).len())),
{
    reveal(fx_oracle_row_part0);
    reveal(v4_oracle_row_part0_at);
    let w0 = seq![v.rank];
    let w1 = fixed_str_spec(v.model_id@);
    let w2 = fixed_str_spec(v.model_name@);
    let w3 = fx_opt_bool(v.is_public);
    let w4 = fx_opt_i64(v.high_mae_millionths);
    let w5 = fx_opt_i64(v.low_mae_millionths);
    let w6 = fx_opt_i64(v.combined_mae_millionths);
    let w7 = fx_opt_i64(v.high_bias_millionths);
    lemma_holds_split(b, p, w0 + w1 + w2 + w3 + w4 + w5 + w6, w7);
    lemma_holds_split(b, p, w0 + w1 + w2 + w3 + w4 + w5, w6);
    lemma_holds_split(b, p, w0 + w1 + w2 + w3 + w4, w5);
    lemma_holds_split(b, p, w0 + w1 + w2 + w3, w4);
    lemma_holds_split(b, p, w0 + w1 + w2, w3);
    lemma_holds_split(b, p, w0 + w1, w2);
    lemma_holds_split(b, p, w0, w1);
    lemma_fu8_at(b, p, v.rank);
    lemma_fstr_at(b, p + w0.len(), v.model_id@);
    lemma_fstr_at(b, p + w0.len() + w1.len(), v.model_name@);
    lemma_v4_opt_bool_at(b, p + w0.len() + w1.len() + w2.len(), v.is_public);
    lemma_v4_opt_i64_at(b, p + w0.len() + w1.len() + w2.len() + w3.len(), v.high_mae_millionths);
    lemma_v4_opt_i64_at(b, p + w0.len() + w1.len() + w2.len() + w3.len() + w4.len(), v.low_mae_millionths);
    lemma_v4_opt_i64_at(b, p + w0.len() + w1.len() + w2.len() + w3.len() + w4.len() + w5.len(), v.combined_mae_millionths);
    lemma_v4_opt_i64_at(b, p + w0.len() + w1.len() + w2.len() + w3.len() + w4.len() + w5.len() + w6.len(), v.high_bias_millionths);
}

proof fn lemma_v4_oracle_row_part1_at(b: Seq<u8>, p: int, v: OracleRowV4)
    requires
        holds_at(b, p, fx_oracle_row_part1(v)),
        b.len() <= u64::MAX,
    ensures
        v4_oracle_row_part1_at(b, p) == Some(((v.low_bias_millionths, v.day_count), p + fx_oracle_row_part1(v).len())),
{
    reveal(fx_oracle_row_part1);
    reveal(v4_oracle_row_part1_at);
    let w0 = fx_opt_i64(v.low_bias_millionths);
    let w1 = fx_opt_u16(v.day_count);
    lemma_holds_split(b, p, w0, w1);
    lemma_v4_opt_i64_at(b, p, v.low_bias_millionths);
    lemma_v4_opt_u16_at(b, p + w0.len(), v.day_count);
}

proof fn lemma_v4_oracle_row_at(b: Seq<u8>, p: int, v: OracleRowV4)
    requires
        holds_at(b, p, fx_oracle_row(v)),
        b.len() <= u64::MAX,
    ensures
        v4_oracle_row_at(b, p) == Some((v@, p + fx_oracle_row(v).len())),
{
    reveal(fx_oracle_row);
    reveal(v4_oracle_row_at);
    let w0 = fx_oracle_row_part0(v);
    let w1 = fx_oracle_row_part1(v);
    lemma_holds_split(b, p, w0, w1);
    lemma_v4_oracle_row_part0_at(b, p, v);
    lemma_v4_oracle_row_part1_at(b, p + w0.len(), v);
}

proof fn lemma_v4_oracle_table_at(b: Seq<u8>, p: int, v: OracleTableV4)
    requires
        holds_at(b, p, fx_oracle_table(v)),
        b.len() <= u64::MAX,
    ensures
        v4_oracle_table_at(b, p) == Some((v@, p + fx_oracle_table(v).len())),
{
    reveal(fx_oracle_table);
    reveal(v4_oracle_table_at);
    let w0 = fx_oracle_query(v.query);
    let w1 = fixed_str_spec(v.range_start@);
    let w2 = fixed_str_spec(v.range_end@);
    let w3 = fx_opt_i64(v.updated_at_unix_ms);
    let w4 = fx_list(v.rows@, fx_oracle_row_encoder());
    let w5 = fx_provenance(v.provenance);
    lemma_holds_split(b, p, w0 + w1 + w2 + w3 + w4, w5);
    lemma_holds_split(b, p, w0 + w1 + w2 + w3, w4);
    lemma_holds_split(b, p, w0 + w1 + w2, w3);
    lemma_holds_split(b, p, w0 + w1, w2);
    lemma_holds_split(b, p, w0, w1);
    lemma_v4_oracle_query_at(b, p, v.query);
    lemma_fstr_at(b, p + w0.len(), v.range_start@);
    lemma_fstr_at(b, p + w0.len() + w1.len(), v.range_end@);
    lemma_v4_opt_i64_at(b, p + w0.len() + w1.len() + w2.len(), v.updated_at_unix_ms);
    lemma_v4_list_oracle_row_at(b, p + w0.len() + w1.len() + w2.len() + w3.len(), v.rows);
    lemma_v4_provenance_at(b, p + w0.len() + w1.len() + w2.len() + w3.len() + w4.len(), v.provenance);
}

proof fn lemma_v4_cursor_at(b: Seq<u8>, p: int, v: CursorV4)
    requires
        holds_at(b, p, fx_cursor(v)),
        b.len() <= u64::MAX,
    ensures
        v4_cursor_at(b, p) == Some((v@, p + fx_cursor(v).len())),
{
    reveal(fx_cursor);
    reveal(v4_cursor_at);
    let w0 = be_u64(v.connection_generation);
    let w1 = fixed_str_spec(v.event_id@);
    let w2 = be_u64(v.sequence);
    let w3 = fx_opt_u64(v.city_sequence);
    let w4 = be_u64(v.emitted_at_unix_ms as u64);
    let w5 = be_u64(v.received_at_unix_ms as u64);
    let w6 = wire_bool_spec(v.snapshot_complete);
    lemma_holds_split(b, p, w0 + w1 + w2 + w3 + w4 + w5, w6);
    lemma_holds_split(b, p, w0 + w1 + w2 + w3 + w4, w5);
    lemma_holds_split(b, p, w0 + w1 + w2 + w3, w4);
    lemma_holds_split(b, p, w0 + w1 + w2, w3);
    lemma_holds_split(b, p, w0 + w1, w2);
    lemma_holds_split(b, p, w0, w1);
    lemma_fu64_at(b, p, v.connection_generation);
    lemma_fstr_at(b, p + w0.len(), v.event_id@);
    lemma_fu64_at(b, p + w0.len() + w1.len(), v.sequence);
    lemma_v4_opt_u64_at(b, p + w0.len() + w1.len() + w2.len(), v.city_sequence);
    lemma_fi64_at(b, p + w0.len() + w1.len() + w2.len() + w3.len(), v.emitted_at_unix_ms);
    lemma_fi64_at(b, p + w0.len() + w1.len() + w2.len() + w3.len() + w4.len(), v.received_at_unix_ms);
    lemma_fbool_at(b, p + w0.len() + w1.len() + w2.len() + w3.len() + w4.len() + w5.len(), v.snapshot_complete);
}

proof fn lemma_v4_station_part0_at(b: Seq<u8>, p: int, v: StationV4)
    requires
        holds_at(b, p, fx_station_part0(v)),
        b.len() <= u64::MAX,
    ensures
        v4_station_part0_at(b, p) == Some(((v.contract_version@, v.revision, v.climate_event_date@, v.climate_day_start_utc_unix_ms, v.climate_day_end_utc_unix_ms, v.identity@, v.observation_meta@, v.observation@), p + fx_station_part0(v).len())),
{
    reveal(fx_station_part0);
    reveal(v4_station_part0_at);
    let w0 = fixed_str_spec(v.contract_version@);
    let w1 = be_u64(v.revision);
    let w2 = fixed_str_spec(v.climate_event_date@);
    let w3 = be_u64(v.climate_day_start_utc_unix_ms as u64);
    let w4 = be_u64(v.climate_day_end_utc_unix_ms as u64);
    let w5 = fx_station_identity(v.identity);
    let w6 = fx_component_meta(v.observation_meta);
    let w7 = fx_observation(v.observation);
    lemma_holds_split(b, p, w0 + w1 + w2 + w3 + w4 + w5 + w6, w7);
    lemma_holds_split(b, p, w0 + w1 + w2 + w3 + w4 + w5, w6);
    lemma_holds_split(b, p, w0 + w1 + w2 + w3 + w4, w5);
    lemma_holds_split(b, p, w0 + w1 + w2 + w3, w4);
    lemma_holds_split(b, p, w0 + w1 + w2, w3);
    lemma_holds_split(b, p, w0 + w1, w2);
    lemma_holds_split(b, p, w0, w1);
    lemma_fstr_at(b, p, v.contract_version@);
    lemma_fu64_at(b, p + w0.len(), v.revision);
    lemma_fstr_at(b, p + w0.len() + w1.len(), v.climate_event_date@);
    lemma_fi64_at(b, p + w0.len() + w1.len() + w2.len(), v.climate_day_start_utc_unix_ms);
    lemma_fi64_at(b, p + w0.len() + w1.len() + w2.len() + w3.len(), v.climate_day_end_utc_unix_ms);
    lemma_v4_station_identity_at(b, p + w0.len() + w1.len() + w2.len() + w3.len() + w4.len(), v.identity);
    lemma_v4_component_meta_at(b, p + w0.len() + w1.len() + w2.len() + w3.len() + w4.len() + w5.len(), v.observation_meta);
    lemma_v4_observation_at(b, p + w0.len() + w1.len() + w2.len() + w3.len() + w4.len() + w5.len() + w6.len(), v.observation);
}

proof fn lemma_v4_station_part1_at(b: Seq<u8>, p: int, v: StationV4)
    requires
        holds_at(b, p, fx_station_part1(v)),
        b.len() <= u64::MAX,
    ensures
        v4_station_part1_at(b, p) == Some(((v.weather_meta@, v.weather@, v.extrema_meta@, v.extrema@, v.reports_meta@, v.reports@.map_values(v4_report_viewer()), v.weather_events_meta@, v.weather_events@.map_values(v4_weather_event_viewer())), p + fx_station_part1(v).len())),
{
    reveal(fx_station_part1);
    reveal(v4_station_part1_at);
    let w0 = fx_component_meta(v.weather_meta);
    let w1 = fx_weather(v.weather);
    let w2 = fx_component_meta(v.extrema_meta);
    let w3 = fx_extrema(v.extrema);
    let w4 = fx_component_meta(v.reports_meta);
    let w5 = fx_list(v.reports@, fx_report_encoder());
    let w6 = fx_component_meta(v.weather_events_meta);
    let w7 = fx_list(v.weather_events@, fx_weather_event_encoder());
    lemma_holds_split(b, p, w0 + w1 + w2 + w3 + w4 + w5 + w6, w7);
    lemma_holds_split(b, p, w0 + w1 + w2 + w3 + w4 + w5, w6);
    lemma_holds_split(b, p, w0 + w1 + w2 + w3 + w4, w5);
    lemma_holds_split(b, p, w0 + w1 + w2 + w3, w4);
    lemma_holds_split(b, p, w0 + w1 + w2, w3);
    lemma_holds_split(b, p, w0 + w1, w2);
    lemma_holds_split(b, p, w0, w1);
    lemma_v4_component_meta_at(b, p, v.weather_meta);
    lemma_v4_weather_at(b, p + w0.len(), v.weather);
    lemma_v4_component_meta_at(b, p + w0.len() + w1.len(), v.extrema_meta);
    lemma_v4_extrema_at(b, p + w0.len() + w1.len() + w2.len(), v.extrema);
    lemma_v4_component_meta_at(b, p + w0.len() + w1.len() + w2.len() + w3.len(), v.reports_meta);
    lemma_v4_list_report_at(b, p + w0.len() + w1.len() + w2.len() + w3.len() + w4.len(), v.reports);
    lemma_v4_component_meta_at(b, p + w0.len() + w1.len() + w2.len() + w3.len() + w4.len() + w5.len(), v.weather_events_meta);
    lemma_v4_list_weather_event_at(b, p + w0.len() + w1.len() + w2.len() + w3.len() + w4.len() + w5.len() + w6.len(), v.weather_events);
}

proof fn lemma_v4_station_part2_at(b: Seq<u8>, p: int, v: StationV4)
    requires
        holds_at(b, p, fx_station_part2(v)),
        b.len() <= u64::MAX,
    ensures
        v4_station_part2_at(b, p) == Some(((v.forecast_meta@, v.forecast@, v.oracle_meta@, v.oracle@, v.provider_cursor@, v.evidence@.map_values(v4_evidence_viewer())), p + fx_station_part2(v).len())),
{
    reveal(fx_station_part2);
    reveal(v4_station_part2_at);
    let w0 = fx_component_meta(v.forecast_meta);
    let w1 = fx_forecast(v.forecast);
    let w2 = fx_component_meta(v.oracle_meta);
    let w3 = fx_oracle_table(v.oracle);
    let w4 = fx_cursor(v.provider_cursor);
    let w5 = fx_list(v.evidence@, fx_evidence_encoder());
    lemma_holds_split(b, p, w0 + w1 + w2 + w3 + w4, w5);
    lemma_holds_split(b, p, w0 + w1 + w2 + w3, w4);
    lemma_holds_split(b, p, w0 + w1 + w2, w3);
    lemma_holds_split(b, p, w0 + w1, w2);
    lemma_holds_split(b, p, w0, w1);
    lemma_v4_component_meta_at(b, p, v.forecast_meta);
    lemma_v4_forecast_at(b, p + w0.len(), v.forecast);
    lemma_v4_component_meta_at(b, p + w0.len() + w1.len(), v.oracle_meta);
    lemma_v4_oracle_table_at(b, p + w0.len() + w1.len() + w2.len(), v.oracle);
    lemma_v4_cursor_at(b, p + w0.len() + w1.len() + w2.len() + w3.len(), v.provider_cursor);
    lemma_v4_list_evidence_at(b, p + w0.len() + w1.len() + w2.len() + w3.len() + w4.len(), v.evidence);
}

proof fn lemma_v4_station_at(b: Seq<u8>, p: int, v: StationV4)
    requires
        holds_at(b, p, fx_station(v)),
        b.len() <= u64::MAX,
    ensures
        v4_station_at(b, p) == Some((v@, p + fx_station(v).len())),
{
    reveal(fx_station);
    reveal(v4_station_at);
    let w0 = fx_station_part0(v);
    let w1 = fx_station_part1(v);
    let w2 = fx_station_part2(v);
    lemma_holds_split(b, p, w0 + w1, w2);
    lemma_holds_split(b, p, w0, w1);
    lemma_v4_station_part0_at(b, p, v);
    lemma_v4_station_part1_at(b, p + w0.len(), v);
    lemma_v4_station_part2_at(b, p + w0.len() + w1.len(), v);
}

proof fn lemma_v4_market_meta_at(b: Seq<u8>, p: int, v: MarketMetaV4)
    requires
        holds_at(b, p, fx_market_meta(v)),
        b.len() <= u64::MAX,
    ensures
        v4_market_meta_at(b, p) == Some((v@, p + fx_market_meta(v).len())),
{
    reveal(fx_market_meta);
    reveal(v4_market_meta_at);
    let w0 = fx_authority(v.authority);
    let w1 = be_u64(v.revision);
    let w2 = be_u64(v.generation);
    let w3 = fx_opt_i64(v.updated_at_unix_ms);
    let w4 = fx_opt_string(v.expected_version);
    let w5 = fx_opt_string(v.refresh_error);
    let w6 = fx_list(v.provenance@, fx_provenance_encoder());
    lemma_holds_split(b, p, w0 + w1 + w2 + w3 + w4 + w5, w6);
    lemma_holds_split(b, p, w0 + w1 + w2 + w3 + w4, w5);
    lemma_holds_split(b, p, w0 + w1 + w2 + w3, w4);
    lemma_holds_split(b, p, w0 + w1 + w2, w3);
    lemma_holds_split(b, p, w0 + w1, w2);
    lemma_holds_split(b, p, w0, w1);
    lemma_v4_authority_at(b, p, v.authority);
    lemma_fu64_at(b, p + w0.len(), v.revision);
    lemma_fu64_at(b, p + w0.len() + w1.len(), v.generation);
    lemma_v4_opt_i64_at(b, p + w0.len() + w1.len() + w2.len(), v.updated_at_unix_ms);
    lemma_v4_opt_string_at(b, p + w0.len() + w1.len() + w2.len() + w3.len(), v.expected_version);
    lemma_v4_opt_string_at(b, p + w0.len() + w1.len() + w2.len() + w3.len() + w4.len(), v.refresh_error);
    lemma_v4_list_provenance_at(b, p + w0.len() + w1.len() + w2.len() + w3.len() + w4.len() + w5.len(), v.provenance);
}

proof fn lemma_v4_market_identity_part0_at(b: Seq<u8>, p: int, v: MarketIdentityV4)
    requires
        holds_at(b, p, fx_market_identity_part0(v)),
        b.len() <= u64::MAX,
    ensures
        v4_market_identity_part0_at(b, p) == Some(((v.market_id@, v.opportunity_id@, v.venue@, v.event_ticker@, v.series_ticker@, v.strike_type@, v.fee_type@, v.fee_multiplier_millionths), p + fx_market_identity_part0(v).len())),
{
    reveal(fx_market_identity_part0);
    reveal(v4_market_identity_part0_at);
    let w0 = fixed_str_spec(v.market_id@);
    let w1 = fixed_str_spec(v.opportunity_id@);
    let w2 = fixed_str_spec(v.venue@);
    let w3 = fixed_str_spec(v.event_ticker@);
    let w4 = fixed_str_spec(v.series_ticker@);
    let w5 = fixed_str_spec(v.strike_type@);
    let w6 = fixed_str_spec(v.fee_type@);
    let w7 = fx_opt_i64(v.fee_multiplier_millionths);
    lemma_holds_split(b, p, w0 + w1 + w2 + w3 + w4 + w5 + w6, w7);
    lemma_holds_split(b, p, w0 + w1 + w2 + w3 + w4 + w5, w6);
    lemma_holds_split(b, p, w0 + w1 + w2 + w3 + w4, w5);
    lemma_holds_split(b, p, w0 + w1 + w2 + w3, w4);
    lemma_holds_split(b, p, w0 + w1 + w2, w3);
    lemma_holds_split(b, p, w0 + w1, w2);
    lemma_holds_split(b, p, w0, w1);
    lemma_fstr_at(b, p, v.market_id@);
    lemma_fstr_at(b, p + w0.len(), v.opportunity_id@);
    lemma_fstr_at(b, p + w0.len() + w1.len(), v.venue@);
    lemma_fstr_at(b, p + w0.len() + w1.len() + w2.len(), v.event_ticker@);
    lemma_fstr_at(b, p + w0.len() + w1.len() + w2.len() + w3.len(), v.series_ticker@);
    lemma_fstr_at(b, p + w0.len() + w1.len() + w2.len() + w3.len() + w4.len(), v.strike_type@);
    lemma_fstr_at(b, p + w0.len() + w1.len() + w2.len() + w3.len() + w4.len() + w5.len(), v.fee_type@);
    lemma_v4_opt_i64_at(b, p + w0.len() + w1.len() + w2.len() + w3.len() + w4.len() + w5.len() + w6.len(), v.fee_multiplier_millionths);
}

proof fn lemma_v4_market_identity_part1_at(b: Seq<u8>, p: int, v: MarketIdentityV4)
    requires
        holds_at(b, p, fx_market_identity_part1(v)),
        b.len() <= u64::MAX,
    ensures
        v4_market_identity_part1_at(b, p) == Some(((v.floor_strike_milli_c, v.floor_strike_milli_f, v.cap_strike_milli_c, v.close_at_unix_ms, v.expiration_at_unix_ms), p + fx_market_identity_part1(v).len())),
{
    reveal(fx_market_identity_part1);
    reveal(v4_market_identity_part1_at);
    let w0 = fx_opt_i64(v.floor_strike_milli_c);
    let w1 = fx_opt_i64(v.floor_strike_milli_f);
    let w2 = fx_opt_i64(v.cap_strike_milli_c);
    let w3 = fx_opt_i64(v.close_at_unix_ms);
    let w4 = fx_opt_i64(v.expiration_at_unix_ms);
    lemma_holds_split(b, p, w0 + w1 + w2 + w3, w4);
    lemma_holds_split(b, p, w0 + w1 + w2, w3);
    lemma_holds_split(b, p, w0 + w1, w2);
    lemma_holds_split(b, p, w0, w1);
    lemma_v4_opt_i64_at(b, p, v.floor_strike_milli_c);
    lemma_v4_opt_i64_at(b, p + w0.len(), v.floor_strike_milli_f);
    lemma_v4_opt_i64_at(b, p + w0.len() + w1.len(), v.cap_strike_milli_c);
    lemma_v4_opt_i64_at(b, p + w0.len() + w1.len() + w2.len(), v.close_at_unix_ms);
    lemma_v4_opt_i64_at(b, p + w0.len() + w1.len() + w2.len() + w3.len(), v.expiration_at_unix_ms);
}

proof fn lemma_v4_market_identity_at(b: Seq<u8>, p: int, v: MarketIdentityV4)
    requires
        holds_at(b, p, fx_market_identity(v)),
        b.len() <= u64::MAX,
    ensures
        v4_market_identity_at(b, p) == Some((v@, p + fx_market_identity(v).len())),
{
    reveal(fx_market_identity);
    reveal(v4_market_identity_at);
    let w0 = fx_market_identity_part0(v);
    let w1 = fx_market_identity_part1(v);
    lemma_holds_split(b, p, w0, w1);
    lemma_v4_market_identity_part0_at(b, p, v);
    lemma_v4_market_identity_part1_at(b, p + w0.len(), v);
}

proof fn lemma_v4_market_lifecycle_at(b: Seq<u8>, p: int, v: MarketLifecycleV4)
    requires
        holds_at(b, p, fx_market_lifecycle(v)),
        b.len() <= u64::MAX,
    ensures
        v4_market_lifecycle_at(b, p) == Some((v@, p + fx_market_lifecycle(v).len())),
{
    reveal(fx_market_lifecycle);
    reveal(v4_market_lifecycle_at);
    let w0 = fixed_str_spec(v.status@);
    let w1 = fx_opt_string(v.result);
    let w2 = fx_opt_u64(v.connection_epoch);
    let w3 = fx_opt_u64(v.received_frame_ordinal);
    let w4 = fx_opt_i64(v.open_at_unix_ms);
    let w5 = fx_opt_i64(v.close_at_unix_ms);
    let w6 = fx_opt_i64(v.settled_at_unix_ms);
    let w7 = fx_opt_i64(v.updated_at_unix_ms);
    lemma_holds_split(b, p, w0 + w1 + w2 + w3 + w4 + w5 + w6, w7);
    lemma_holds_split(b, p, w0 + w1 + w2 + w3 + w4 + w5, w6);
    lemma_holds_split(b, p, w0 + w1 + w2 + w3 + w4, w5);
    lemma_holds_split(b, p, w0 + w1 + w2 + w3, w4);
    lemma_holds_split(b, p, w0 + w1 + w2, w3);
    lemma_holds_split(b, p, w0 + w1, w2);
    lemma_holds_split(b, p, w0, w1);
    lemma_fstr_at(b, p, v.status@);
    lemma_v4_opt_string_at(b, p + w0.len(), v.result);
    lemma_v4_opt_u64_at(b, p + w0.len() + w1.len(), v.connection_epoch);
    lemma_v4_opt_u64_at(b, p + w0.len() + w1.len() + w2.len(), v.received_frame_ordinal);
    lemma_v4_opt_i64_at(b, p + w0.len() + w1.len() + w2.len() + w3.len(), v.open_at_unix_ms);
    lemma_v4_opt_i64_at(b, p + w0.len() + w1.len() + w2.len() + w3.len() + w4.len(), v.close_at_unix_ms);
    lemma_v4_opt_i64_at(b, p + w0.len() + w1.len() + w2.len() + w3.len() + w4.len() + w5.len(), v.settled_at_unix_ms);
    lemma_v4_opt_i64_at(b, p + w0.len() + w1.len() + w2.len() + w3.len() + w4.len() + w5.len() + w6.len(), v.updated_at_unix_ms);
}

proof fn lemma_v4_ticker_part0_at(b: Seq<u8>, p: int, v: TickerV4)
    requires
        holds_at(b, p, fx_ticker_part0(v)),
        b.len() <= u64::MAX,
    ensures
        v4_ticker_part0_at(b, p) == Some(((v.yes_bid_micros, v.yes_ask_micros, v.no_bid_micros, v.no_ask_micros, v.yes_bid_quantity_hundredths, v.yes_ask_quantity_hundredths, v.no_bid_quantity_hundredths, v.no_ask_quantity_hundredths), p + fx_ticker_part0(v).len())),
{
    reveal(fx_ticker_part0);
    reveal(v4_ticker_part0_at);
    let w0 = fx_opt_u64(v.yes_bid_micros);
    let w1 = fx_opt_u64(v.yes_ask_micros);
    let w2 = fx_opt_u64(v.no_bid_micros);
    let w3 = fx_opt_u64(v.no_ask_micros);
    let w4 = fx_opt_u64(v.yes_bid_quantity_hundredths);
    let w5 = fx_opt_u64(v.yes_ask_quantity_hundredths);
    let w6 = fx_opt_u64(v.no_bid_quantity_hundredths);
    let w7 = fx_opt_u64(v.no_ask_quantity_hundredths);
    lemma_holds_split(b, p, w0 + w1 + w2 + w3 + w4 + w5 + w6, w7);
    lemma_holds_split(b, p, w0 + w1 + w2 + w3 + w4 + w5, w6);
    lemma_holds_split(b, p, w0 + w1 + w2 + w3 + w4, w5);
    lemma_holds_split(b, p, w0 + w1 + w2 + w3, w4);
    lemma_holds_split(b, p, w0 + w1 + w2, w3);
    lemma_holds_split(b, p, w0 + w1, w2);
    lemma_holds_split(b, p, w0, w1);
    lemma_v4_opt_u64_at(b, p, v.yes_bid_micros);
    lemma_v4_opt_u64_at(b, p + w0.len(), v.yes_ask_micros);
    lemma_v4_opt_u64_at(b, p + w0.len() + w1.len(), v.no_bid_micros);
    lemma_v4_opt_u64_at(b, p + w0.len() + w1.len() + w2.len(), v.no_ask_micros);
    lemma_v4_opt_u64_at(b, p + w0.len() + w1.len() + w2.len() + w3.len(), v.yes_bid_quantity_hundredths);
    lemma_v4_opt_u64_at(b, p + w0.len() + w1.len() + w2.len() + w3.len() + w4.len(), v.yes_ask_quantity_hundredths);
    lemma_v4_opt_u64_at(b, p + w0.len() + w1.len() + w2.len() + w3.len() + w4.len() + w5.len(), v.no_bid_quantity_hundredths);
    lemma_v4_opt_u64_at(b, p + w0.len() + w1.len() + w2.len() + w3.len() + w4.len() + w5.len() + w6.len(), v.no_ask_quantity_hundredths);
}

proof fn lemma_v4_ticker_part1_at(b: Seq<u8>, p: int, v: TickerV4)
    requires
        holds_at(b, p, fx_ticker_part1(v)),
        b.len() <= u64::MAX,
    ensures
        v4_ticker_part1_at(b, p) == Some(((v.last_price_micros, v.last_trade_quantity_hundredths, v.volume_hundredths, v.volume_24h_hundredths, v.open_interest_hundredths, v.provider_at_unix_ms), p + fx_ticker_part1(v).len())),
{
    reveal(fx_ticker_part1);
    reveal(v4_ticker_part1_at);
    let w0 = fx_opt_u64(v.last_price_micros);
    let w1 = fx_opt_u64(v.last_trade_quantity_hundredths);
    let w2 = fx_opt_u64(v.volume_hundredths);
    let w3 = fx_opt_u64(v.volume_24h_hundredths);
    let w4 = fx_opt_u64(v.open_interest_hundredths);
    let w5 = fx_opt_i64(v.provider_at_unix_ms);
    lemma_holds_split(b, p, w0 + w1 + w2 + w3 + w4, w5);
    lemma_holds_split(b, p, w0 + w1 + w2 + w3, w4);
    lemma_holds_split(b, p, w0 + w1 + w2, w3);
    lemma_holds_split(b, p, w0 + w1, w2);
    lemma_holds_split(b, p, w0, w1);
    lemma_v4_opt_u64_at(b, p, v.last_price_micros);
    lemma_v4_opt_u64_at(b, p + w0.len(), v.last_trade_quantity_hundredths);
    lemma_v4_opt_u64_at(b, p + w0.len() + w1.len(), v.volume_hundredths);
    lemma_v4_opt_u64_at(b, p + w0.len() + w1.len() + w2.len(), v.volume_24h_hundredths);
    lemma_v4_opt_u64_at(b, p + w0.len() + w1.len() + w2.len() + w3.len(), v.open_interest_hundredths);
    lemma_v4_opt_i64_at(b, p + w0.len() + w1.len() + w2.len() + w3.len() + w4.len(), v.provider_at_unix_ms);
}

proof fn lemma_v4_ticker_at(b: Seq<u8>, p: int, v: TickerV4)
    requires
        holds_at(b, p, fx_ticker(v)),
        b.len() <= u64::MAX,
    ensures
        v4_ticker_at(b, p) == Some((v@, p + fx_ticker(v).len())),
{
    reveal(fx_ticker);
    reveal(v4_ticker_at);
    let w0 = fx_ticker_part0(v);
    let w1 = fx_ticker_part1(v);
    lemma_holds_split(b, p, w0, w1);
    lemma_v4_ticker_part0_at(b, p, v);
    lemma_v4_ticker_part1_at(b, p + w0.len(), v);
}

proof fn lemma_v4_book_level_at(b: Seq<u8>, p: int, v: BookLevelV4)
    requires
        holds_at(b, p, fx_book_level(v)),
        b.len() <= u64::MAX,
    ensures
        v4_book_level_at(b, p) == Some((v@, p + fx_book_level(v).len())),
{
    reveal(fx_book_level);
    reveal(v4_book_level_at);
    let w0 = be_u64(v.price_micros);
    let w1 = be_u64(v.quantity_hundredths);
    lemma_holds_split(b, p, w0, w1);
    lemma_fu64_at(b, p, v.price_micros);
    lemma_fu64_at(b, p + w0.len(), v.quantity_hundredths);
}

proof fn lemma_v4_book_at(b: Seq<u8>, p: int, v: BookV4)
    requires
        holds_at(b, p, fx_book(v)),
        b.len() <= u64::MAX,
    ensures
        v4_book_at(b, p) == Some((v@, p + fx_book(v).len())),
{
    reveal(fx_book);
    reveal(v4_book_at);
    let w0 = fx_opt_u64(v.connection_epoch);
    let w1 = fx_opt_u64(v.sid);
    let w2 = fx_opt_u64(v.sequence);
    let w3 = fx_opt_i64(v.snapshot_at_unix_ms);
    let w4 = wire_bool_spec(v.resync_required);
    let w5 = fx_list(v.yes_bids@, fx_book_level_encoder());
    let w6 = fx_list(v.no_bids@, fx_book_level_encoder());
    lemma_holds_split(b, p, w0 + w1 + w2 + w3 + w4 + w5, w6);
    lemma_holds_split(b, p, w0 + w1 + w2 + w3 + w4, w5);
    lemma_holds_split(b, p, w0 + w1 + w2 + w3, w4);
    lemma_holds_split(b, p, w0 + w1 + w2, w3);
    lemma_holds_split(b, p, w0 + w1, w2);
    lemma_holds_split(b, p, w0, w1);
    lemma_v4_opt_u64_at(b, p, v.connection_epoch);
    lemma_v4_opt_u64_at(b, p + w0.len(), v.sid);
    lemma_v4_opt_u64_at(b, p + w0.len() + w1.len(), v.sequence);
    lemma_v4_opt_i64_at(b, p + w0.len() + w1.len() + w2.len(), v.snapshot_at_unix_ms);
    lemma_fbool_at(b, p + w0.len() + w1.len() + w2.len() + w3.len(), v.resync_required);
    lemma_v4_list_book_level_at(b, p + w0.len() + w1.len() + w2.len() + w3.len() + w4.len(), v.yes_bids);
    lemma_v4_list_book_level_at(b, p + w0.len() + w1.len() + w2.len() + w3.len() + w4.len() + w5.len(), v.no_bids);
}

proof fn lemma_v4_last_trade_at(b: Seq<u8>, p: int, v: LastTradeV4)
    requires
        holds_at(b, p, fx_last_trade(v)),
        b.len() <= u64::MAX,
    ensures
        v4_last_trade_at(b, p) == Some((v@, p + fx_last_trade(v).len())),
{
    reveal(fx_last_trade);
    reveal(v4_last_trade_at);
    let w0 = fixed_str_spec(v.trade_id@);
    let w1 = be_u64(v.yes_price_micros);
    let w2 = be_u64(v.no_price_micros);
    let w3 = be_u64(v.quantity_hundredths);
    let w4 = fx_opt_string(v.taker_side);
    let w5 = be_u64(v.traded_at_unix_ms as u64);
    lemma_holds_split(b, p, w0 + w1 + w2 + w3 + w4, w5);
    lemma_holds_split(b, p, w0 + w1 + w2 + w3, w4);
    lemma_holds_split(b, p, w0 + w1 + w2, w3);
    lemma_holds_split(b, p, w0 + w1, w2);
    lemma_holds_split(b, p, w0, w1);
    lemma_fstr_at(b, p, v.trade_id@);
    lemma_fu64_at(b, p + w0.len(), v.yes_price_micros);
    lemma_fu64_at(b, p + w0.len() + w1.len(), v.no_price_micros);
    lemma_fu64_at(b, p + w0.len() + w1.len() + w2.len(), v.quantity_hundredths);
    lemma_v4_opt_string_at(b, p + w0.len() + w1.len() + w2.len() + w3.len(), v.taker_side);
    lemma_fi64_at(b, p + w0.len() + w1.len() + w2.len() + w3.len() + w4.len(), v.traded_at_unix_ms);
}

proof fn lemma_v4_final_fact_at(b: Seq<u8>, p: int, v: FinalFactV4)
    requires
        holds_at(b, p, fx_final_fact(v)),
        b.len() <= u64::MAX,
    ensures
        v4_final_fact_at(b, p) == Some((v@, p + fx_final_fact(v).len())),
{
    reveal(fx_final_fact);
    reveal(v4_final_fact_at);
    let w0 = fixed_str_spec(v.status@);
    let w1 = fixed_str_spec(v.result@);
    let w2 = fx_opt_i64(v.settlement_value_micros);
    let w3 = fx_opt_u64(v.settled_price_micros);
    let w4 = fx_opt_i64(v.provider_at_unix_ms);
    lemma_holds_split(b, p, w0 + w1 + w2 + w3, w4);
    lemma_holds_split(b, p, w0 + w1 + w2, w3);
    lemma_holds_split(b, p, w0 + w1, w2);
    lemma_holds_split(b, p, w0, w1);
    lemma_fstr_at(b, p, v.status@);
    lemma_fstr_at(b, p + w0.len(), v.result@);
    lemma_v4_opt_i64_at(b, p + w0.len() + w1.len(), v.settlement_value_micros);
    lemma_v4_opt_u64_at(b, p + w0.len() + w1.len() + w2.len(), v.settled_price_micros);
    lemma_v4_opt_i64_at(b, p + w0.len() + w1.len() + w2.len() + w3.len(), v.provider_at_unix_ms);
}

proof fn lemma_v4_market_comparison_part0_at(b: Seq<u8>, p: int, v: MarketComparisonV4)
    requires
        holds_at(b, p, fx_market_comparison_part0(v)),
        b.len() <= u64::MAX,
    ensures
        v4_market_comparison_part0_at(b, p) == Some(((v.source@, v.event_id@, v.event_date@, v.sequence, v.provider_at_unix_ms, v.yes_bid_micros, v.yes_ask_micros, v.no_bid_micros), p + fx_market_comparison_part0(v).len())),
{
    reveal(fx_market_comparison_part0);
    reveal(v4_market_comparison_part0_at);
    let w0 = fixed_str_spec(v.source@);
    let w1 = fixed_str_spec(v.event_id@);
    let w2 = fixed_str_spec(v.event_date@);
    let w3 = be_u64(v.sequence);
    let w4 = be_u64(v.provider_at_unix_ms as u64);
    let w5 = fx_opt_u64(v.yes_bid_micros);
    let w6 = fx_opt_u64(v.yes_ask_micros);
    let w7 = fx_opt_u64(v.no_bid_micros);
    lemma_holds_split(b, p, w0 + w1 + w2 + w3 + w4 + w5 + w6, w7);
    lemma_holds_split(b, p, w0 + w1 + w2 + w3 + w4 + w5, w6);
    lemma_holds_split(b, p, w0 + w1 + w2 + w3 + w4, w5);
    lemma_holds_split(b, p, w0 + w1 + w2 + w3, w4);
    lemma_holds_split(b, p, w0 + w1 + w2, w3);
    lemma_holds_split(b, p, w0 + w1, w2);
    lemma_holds_split(b, p, w0, w1);
    lemma_fstr_at(b, p, v.source@);
    lemma_fstr_at(b, p + w0.len(), v.event_id@);
    lemma_fstr_at(b, p + w0.len() + w1.len(), v.event_date@);
    lemma_fu64_at(b, p + w0.len() + w1.len() + w2.len(), v.sequence);
    lemma_fi64_at(b, p + w0.len() + w1.len() + w2.len() + w3.len(), v.provider_at_unix_ms);
    lemma_v4_opt_u64_at(b, p + w0.len() + w1.len() + w2.len() + w3.len() + w4.len(), v.yes_bid_micros);
    lemma_v4_opt_u64_at(b, p + w0.len() + w1.len() + w2.len() + w3.len() + w4.len() + w5.len(), v.yes_ask_micros);
    lemma_v4_opt_u64_at(b, p + w0.len() + w1.len() + w2.len() + w3.len() + w4.len() + w5.len() + w6.len(), v.no_bid_micros);
}

proof fn lemma_v4_market_comparison_part1_at(b: Seq<u8>, p: int, v: MarketComparisonV4)
    requires
        holds_at(b, p, fx_market_comparison_part1(v)),
        b.len() <= u64::MAX,
    ensures
        v4_market_comparison_part1_at(b, p) == Some(((v.no_ask_micros, v.volume_hundredths, v.evidence_sha256@), p + fx_market_comparison_part1(v).len())),
{
    reveal(fx_market_comparison_part1);
    reveal(v4_market_comparison_part1_at);
    let w0 = fx_opt_u64(v.no_ask_micros);
    let w1 = fx_opt_u64(v.volume_hundredths);
    let w2 = v.evidence_sha256@;
    lemma_holds_split(b, p, w0 + w1, w2);
    lemma_holds_split(b, p, w0, w1);
    lemma_v4_opt_u64_at(b, p, v.no_ask_micros);
    lemma_v4_opt_u64_at(b, p + w0.len(), v.volume_hundredths);
    lemma_farray32_at(b, p + w0.len() + w1.len(), v.evidence_sha256);
}

proof fn lemma_v4_market_comparison_at(b: Seq<u8>, p: int, v: MarketComparisonV4)
    requires
        holds_at(b, p, fx_market_comparison(v)),
        b.len() <= u64::MAX,
    ensures
        v4_market_comparison_at(b, p) == Some((v@, p + fx_market_comparison(v).len())),
{
    reveal(fx_market_comparison);
    reveal(v4_market_comparison_at);
    let w0 = fx_market_comparison_part0(v);
    let w1 = fx_market_comparison_part1(v);
    lemma_holds_split(b, p, w0, w1);
    lemma_v4_market_comparison_part0_at(b, p, v);
    lemma_v4_market_comparison_part1_at(b, p + w0.len(), v);
}

proof fn lemma_v4_market_part0_at(b: Seq<u8>, p: int, v: MarketV4)
    requires
        holds_at(b, p, fx_market_part0(v)),
        b.len() <= u64::MAX,
    ensures
        v4_market_part0_at(b, p) == Some(((v.contract_version@, v.revision, v.identity@, v.lifecycle_meta@, v4_opt_market_lifecycle_model(v.lifecycle), v.ticker_meta@, v4_opt_ticker_model(v.ticker), v.book_meta@), p + fx_market_part0(v).len())),
{
    reveal(fx_market_part0);
    reveal(v4_market_part0_at);
    let w0 = fixed_str_spec(v.contract_version@);
    let w1 = be_u64(v.revision);
    let w2 = fx_market_identity(v.identity);
    let w3 = fx_market_meta(v.lifecycle_meta);
    let w4 = fx_opt_market_lifecycle(v.lifecycle);
    let w5 = fx_market_meta(v.ticker_meta);
    let w6 = fx_opt_ticker(v.ticker);
    let w7 = fx_market_meta(v.book_meta);
    lemma_holds_split(b, p, w0 + w1 + w2 + w3 + w4 + w5 + w6, w7);
    lemma_holds_split(b, p, w0 + w1 + w2 + w3 + w4 + w5, w6);
    lemma_holds_split(b, p, w0 + w1 + w2 + w3 + w4, w5);
    lemma_holds_split(b, p, w0 + w1 + w2 + w3, w4);
    lemma_holds_split(b, p, w0 + w1 + w2, w3);
    lemma_holds_split(b, p, w0 + w1, w2);
    lemma_holds_split(b, p, w0, w1);
    lemma_fstr_at(b, p, v.contract_version@);
    lemma_fu64_at(b, p + w0.len(), v.revision);
    lemma_v4_market_identity_at(b, p + w0.len() + w1.len(), v.identity);
    lemma_v4_market_meta_at(b, p + w0.len() + w1.len() + w2.len(), v.lifecycle_meta);
    lemma_v4_opt_market_lifecycle_at(b, p + w0.len() + w1.len() + w2.len() + w3.len(), v.lifecycle);
    lemma_v4_market_meta_at(b, p + w0.len() + w1.len() + w2.len() + w3.len() + w4.len(), v.ticker_meta);
    lemma_v4_opt_ticker_at(b, p + w0.len() + w1.len() + w2.len() + w3.len() + w4.len() + w5.len(), v.ticker);
    lemma_v4_market_meta_at(b, p + w0.len() + w1.len() + w2.len() + w3.len() + w4.len() + w5.len() + w6.len(), v.book_meta);
}

proof fn lemma_v4_market_part1_at(b: Seq<u8>, p: int, v: MarketV4)
    requires
        holds_at(b, p, fx_market_part1(v)),
        b.len() <= u64::MAX,
    ensures
        v4_market_part1_at(b, p) == Some(((v4_opt_book_model(v.book), v.last_trade_meta@, v4_opt_last_trade_model(v.last_trade), v.final_fact_meta@, v4_opt_final_fact_model(v.final_fact), v.field_provenance@.map_values(v4_string_provenance_pair_viewer()), v.evidence@.map_values(v4_evidence_viewer()), v4_opt_market_comparison_model(v.minutetemp_comparison)), p + fx_market_part1(v).len())),
{
    reveal(fx_market_part1);
    reveal(v4_market_part1_at);
    let w0 = fx_opt_book(v.book);
    let w1 = fx_market_meta(v.last_trade_meta);
    let w2 = fx_opt_last_trade(v.last_trade);
    let w3 = fx_market_meta(v.final_fact_meta);
    let w4 = fx_opt_final_fact(v.final_fact);
    let w5 = fx_list(v.field_provenance@, fx_string_provenance_pair_encoder());
    let w6 = fx_list(v.evidence@, fx_evidence_encoder());
    let w7 = fx_opt_market_comparison(v.minutetemp_comparison);
    lemma_holds_split(b, p, w0 + w1 + w2 + w3 + w4 + w5 + w6, w7);
    lemma_holds_split(b, p, w0 + w1 + w2 + w3 + w4 + w5, w6);
    lemma_holds_split(b, p, w0 + w1 + w2 + w3 + w4, w5);
    lemma_holds_split(b, p, w0 + w1 + w2 + w3, w4);
    lemma_holds_split(b, p, w0 + w1 + w2, w3);
    lemma_holds_split(b, p, w0 + w1, w2);
    lemma_holds_split(b, p, w0, w1);
    lemma_v4_opt_book_at(b, p, v.book);
    lemma_v4_market_meta_at(b, p + w0.len(), v.last_trade_meta);
    lemma_v4_opt_last_trade_at(b, p + w0.len() + w1.len(), v.last_trade);
    lemma_v4_market_meta_at(b, p + w0.len() + w1.len() + w2.len(), v.final_fact_meta);
    lemma_v4_opt_final_fact_at(b, p + w0.len() + w1.len() + w2.len() + w3.len(), v.final_fact);
    lemma_v4_list_string_provenance_pair_at(b, p + w0.len() + w1.len() + w2.len() + w3.len() + w4.len(), v.field_provenance);
    lemma_v4_list_evidence_at(b, p + w0.len() + w1.len() + w2.len() + w3.len() + w4.len() + w5.len(), v.evidence);
    lemma_v4_opt_market_comparison_at(b, p + w0.len() + w1.len() + w2.len() + w3.len() + w4.len() + w5.len() + w6.len(), v.minutetemp_comparison);
}

proof fn lemma_v4_market_part2_at(b: Seq<u8>, p: int, v: MarketV4)
    requires
        holds_at(b, p, fx_market_part2(v)),
        b.len() <= u64::MAX,
    ensures
        v4_market_part2_at(b, p) == Some(((v.uncertain_fields@.map_values(v4_string_viewer()),), p + fx_market_part2(v).len())),
{
    reveal(fx_market_part2);
    reveal(v4_market_part2_at);
    let w0 = fx_list(v.uncertain_fields@, fx_string_encoder());
    lemma_v4_list_string_at(b, p, v.uncertain_fields);
}

proof fn lemma_v4_market_at(b: Seq<u8>, p: int, v: MarketV4)
    requires
        holds_at(b, p, fx_market(v)),
        b.len() <= u64::MAX,
    ensures
        v4_market_at(b, p) == Some((v@, p + fx_market(v).len())),
{
    reveal(fx_market);
    reveal(v4_market_at);
    let w0 = fx_market_part0(v);
    let w1 = fx_market_part1(v);
    let w2 = fx_market_part2(v);
    lemma_holds_split(b, p, w0 + w1, w2);
    lemma_holds_split(b, p, w0, w1);
    lemma_v4_market_part0_at(b, p, v);
    lemma_v4_market_part1_at(b, p + w0.len(), v);
    lemma_v4_market_part2_at(b, p + w0.len() + w1.len(), v);
}

proof fn lemma_v4_opportunity_part0_at(b: Seq<u8>, p: int, v: OpportunityV4)
    requires
        holds_at(b, p, fx_opportunity_part0(v)),
        b.len() <= u64::MAX,
    ensures
        v4_opportunity_part0_at(b, p) == Some(((v.opportunity_id@, v.venue_id@, v.match_profile@, v.resolved_scope@, v.lifecycle, v.close_time_unix_seconds, v.market_ids@.map_values(v4_string_viewer()), v.contributor_stations@.map_values(v4_string_viewer())), p + fx_opportunity_part0(v).len())),
{
    reveal(fx_opportunity_part0);
    reveal(v4_opportunity_part0_at);
    let w0 = fixed_str_spec(v.opportunity_id@);
    let w1 = fixed_str_spec(v.venue_id@);
    let w2 = fixed_str_spec(v.match_profile@);
    let w3 = fixed_str_spec(v.resolved_scope@);
    let w4 = fx_lifecycle(v.lifecycle);
    let w5 = be_u64(v.close_time_unix_seconds);
    let w6 = fx_list(v.market_ids@, fx_string_encoder());
    let w7 = fx_list(v.contributor_stations@, fx_string_encoder());
    lemma_holds_split(b, p, w0 + w1 + w2 + w3 + w4 + w5 + w6, w7);
    lemma_holds_split(b, p, w0 + w1 + w2 + w3 + w4 + w5, w6);
    lemma_holds_split(b, p, w0 + w1 + w2 + w3 + w4, w5);
    lemma_holds_split(b, p, w0 + w1 + w2 + w3, w4);
    lemma_holds_split(b, p, w0 + w1 + w2, w3);
    lemma_holds_split(b, p, w0 + w1, w2);
    lemma_holds_split(b, p, w0, w1);
    lemma_fstr_at(b, p, v.opportunity_id@);
    lemma_fstr_at(b, p + w0.len(), v.venue_id@);
    lemma_fstr_at(b, p + w0.len() + w1.len(), v.match_profile@);
    lemma_fstr_at(b, p + w0.len() + w1.len() + w2.len(), v.resolved_scope@);
    lemma_v4_lifecycle_at(b, p + w0.len() + w1.len() + w2.len() + w3.len(), v.lifecycle);
    lemma_fu64_at(b, p + w0.len() + w1.len() + w2.len() + w3.len() + w4.len(), v.close_time_unix_seconds);
    lemma_v4_list_string_at(b, p + w0.len() + w1.len() + w2.len() + w3.len() + w4.len() + w5.len(), v.market_ids);
    lemma_v4_list_string_at(b, p + w0.len() + w1.len() + w2.len() + w3.len() + w4.len() + w5.len() + w6.len(), v.contributor_stations);
}

proof fn lemma_v4_opportunity_part1_at(b: Seq<u8>, p: int, v: OpportunityV4)
    requires
        holds_at(b, p, fx_opportunity_part1(v)),
        b.len() <= u64::MAX,
    ensures
        v4_opportunity_part1_at(b, p) == Some(((v.authority,), p + fx_opportunity_part1(v).len())),
{
    reveal(fx_opportunity_part1);
    reveal(v4_opportunity_part1_at);
    let w0 = fx_market_authority(v.authority);
    lemma_v4_market_authority_at(b, p, v.authority);
}

proof fn lemma_v4_opportunity_at(b: Seq<u8>, p: int, v: OpportunityV4)
    requires
        holds_at(b, p, fx_opportunity(v)),
        b.len() <= u64::MAX,
    ensures
        v4_opportunity_at(b, p) == Some((v@, p + fx_opportunity(v).len())),
{
    reveal(fx_opportunity);
    reveal(v4_opportunity_at);
    let w0 = fx_opportunity_part0(v);
    let w1 = fx_opportunity_part1(v);
    lemma_holds_split(b, p, w0, w1);
    lemma_v4_opportunity_part0_at(b, p, v);
    lemma_v4_opportunity_part1_at(b, p + w0.len(), v);
}

proof fn lemma_v4_broker_part0_at(b: Seq<u8>, p: int, v: BrokerV4)
    requires
        holds_at(b, p, fx_broker_part0(v)),
        b.len() <= u64::MAX,
    ensures
        v4_broker_part0_at(b, p) == Some(((v.revision, v.venue_account_id@, v.sleeve_id@, v.provider_available_balance, v.locally_reserved_cash, v.portfolio_value, v.allowance_limit, v.current_commitment), p + fx_broker_part0(v).len())),
{
    reveal(fx_broker_part0);
    reveal(v4_broker_part0_at);
    let w0 = be_u64(v.revision);
    let w1 = fixed_str_spec(v.venue_account_id@);
    let w2 = fixed_str_spec(v.sleeve_id@);
    let w3 = be_u64(v.provider_available_balance);
    let w4 = be_u64(v.locally_reserved_cash);
    let w5 = be_u64(v.portfolio_value);
    let w6 = be_u64(v.allowance_limit);
    let w7 = be_u64(v.current_commitment);
    lemma_holds_split(b, p, w0 + w1 + w2 + w3 + w4 + w5 + w6, w7);
    lemma_holds_split(b, p, w0 + w1 + w2 + w3 + w4 + w5, w6);
    lemma_holds_split(b, p, w0 + w1 + w2 + w3 + w4, w5);
    lemma_holds_split(b, p, w0 + w1 + w2 + w3, w4);
    lemma_holds_split(b, p, w0 + w1 + w2, w3);
    lemma_holds_split(b, p, w0 + w1, w2);
    lemma_holds_split(b, p, w0, w1);
    lemma_fu64_at(b, p, v.revision);
    lemma_fstr_at(b, p + w0.len(), v.venue_account_id@);
    lemma_fstr_at(b, p + w0.len() + w1.len(), v.sleeve_id@);
    lemma_fu64_at(b, p + w0.len() + w1.len() + w2.len(), v.provider_available_balance);
    lemma_fu64_at(b, p + w0.len() + w1.len() + w2.len() + w3.len(), v.locally_reserved_cash);
    lemma_fu64_at(b, p + w0.len() + w1.len() + w2.len() + w3.len() + w4.len(), v.portfolio_value);
    lemma_fu64_at(b, p + w0.len() + w1.len() + w2.len() + w3.len() + w4.len() + w5.len(), v.allowance_limit);
    lemma_fu64_at(b, p + w0.len() + w1.len() + w2.len() + w3.len() + w4.len() + w5.len() + w6.len(), v.current_commitment);
}

proof fn lemma_v4_broker_part1_at(b: Seq<u8>, p: int, v: BrokerV4)
    requires
        holds_at(b, p, fx_broker_part1(v)),
        b.len() <= u64::MAX,
    ensures
        v4_broker_part1_at(b, p) == Some(((v.exposure_increase, v.reduce_only_protective, v.cancellation, v.reconciliation_allocation), p + fx_broker_part1(v).len())),
{
    reveal(fx_broker_part1);
    reveal(v4_broker_part1_at);
    let w0 = fx_gate_status(v.exposure_increase);
    let w1 = fx_gate_status(v.reduce_only_protective);
    let w2 = fx_gate_status(v.cancellation);
    let w3 = fx_gate_status(v.reconciliation_allocation);
    lemma_holds_split(b, p, w0 + w1 + w2, w3);
    lemma_holds_split(b, p, w0 + w1, w2);
    lemma_holds_split(b, p, w0, w1);
    lemma_v4_gate_status_at(b, p, v.exposure_increase);
    lemma_v4_gate_status_at(b, p + w0.len(), v.reduce_only_protective);
    lemma_v4_gate_status_at(b, p + w0.len() + w1.len(), v.cancellation);
    lemma_v4_gate_status_at(b, p + w0.len() + w1.len() + w2.len(), v.reconciliation_allocation);
}

proof fn lemma_v4_broker_at(b: Seq<u8>, p: int, v: BrokerV4)
    requires
        holds_at(b, p, fx_broker(v)),
        b.len() <= u64::MAX,
    ensures
        v4_broker_at(b, p) == Some((v@, p + fx_broker(v).len())),
{
    reveal(fx_broker);
    reveal(v4_broker_at);
    let w0 = fx_broker_part0(v);
    let w1 = fx_broker_part1(v);
    lemma_holds_split(b, p, w0, w1);
    lemma_v4_broker_part0_at(b, p, v);
    lemma_v4_broker_part1_at(b, p + w0.len(), v);
}

proof fn lemma_v4_config_at(b: Seq<u8>, p: int, v: ConfigV4)
    requires
        holds_at(b, p, fx_config(v)),
        b.len() <= u64::MAX,
    ensures
        v4_config_at(b, p) == Some((v@, p + fx_config(v).len())),
{
    reveal(fx_config);
    reveal(v4_config_at);
    let w0 = be_u64(v.revision);
    let w1 = fixed_str_spec(v.profile_and_calculator_digest@);
    lemma_holds_split(b, p, w0, w1);
    lemma_fu64_at(b, p, v.revision);
    lemma_fstr_at(b, p + w0.len(), v.profile_and_calculator_digest@);
}

proof fn lemma_v4_supervisor_at(b: Seq<u8>, p: int, v: SupervisorV4)
    requires
        holds_at(b, p, fx_supervisor(v)),
        b.len() <= u64::MAX,
    ensures
        v4_supervisor_at(b, p) == Some((v@, p + fx_supervisor(v).len())),
{
    reveal(fx_supervisor);
    reveal(v4_supervisor_at);
    let w0 = fixed_str_spec(v.sleeve_id@);
    let w1 = be_u64(v.incarnation);
    let w2 = be_u64(v.process_attempt);
    let w3 = be_u64(v.route_epoch);
    lemma_holds_split(b, p, w0 + w1 + w2, w3);
    lemma_holds_split(b, p, w0 + w1, w2);
    lemma_holds_split(b, p, w0, w1);
    lemma_fstr_at(b, p, v.sleeve_id@);
    lemma_fu64_at(b, p + w0.len(), v.incarnation);
    lemma_fu64_at(b, p + w0.len() + w1.len(), v.process_attempt);
    lemma_fu64_at(b, p + w0.len() + w1.len() + w2.len(), v.route_epoch);
}

proof fn lemma_v4_resource_revision_at(b: Seq<u8>, p: int, v: ResourceRevisionV4)
    requires
        holds_at(b, p, fx_resource_revision(v)),
        b.len() <= u64::MAX,
    ensures
        v4_resource_revision_at(b, p) == Some((v@, p + fx_resource_revision(v).len())),
{
    reveal(fx_resource_revision);
    reveal(v4_resource_revision_at);
    let w0 = fixed_str_spec(v.identity@);
    let w1 = be_u64(v.revision);
    let w2 = be_u64(v.generation);
    lemma_holds_split(b, p, w0 + w1, w2);
    lemma_holds_split(b, p, w0, w1);
    lemma_fstr_at(b, p, v.identity@);
    lemma_fu64_at(b, p + w0.len(), v.revision);
    lemma_fu64_at(b, p + w0.len() + w1.len(), v.generation);
}

proof fn lemma_v4_fence_part0_at(b: Seq<u8>, p: int, v: FenceV4)
    requires
        holds_at(b, p, fx_fence_part0(v)),
        b.len() <= u64::MAX,
    ensures
        v4_fence_part0_at(b, p) == Some(((v.sleeve_incarnation, v.config_revision, v.profile_and_calculator_digest@, v.route_epoch, v.route_plan_sha256@, v.source_revision, v.source_generation, v.catalog_revision), p + fx_fence_part0(v).len())),
{
    reveal(fx_fence_part0);
    reveal(v4_fence_part0_at);
    let w0 = be_u64(v.sleeve_incarnation);
    let w1 = be_u64(v.config_revision);
    let w2 = fixed_str_spec(v.profile_and_calculator_digest@);
    let w3 = be_u64(v.route_epoch);
    let w4 = v.route_plan_sha256@;
    let w5 = be_u64(v.source_revision);
    let w6 = be_u64(v.source_generation);
    let w7 = be_u64(v.catalog_revision);
    lemma_holds_split(b, p, w0 + w1 + w2 + w3 + w4 + w5 + w6, w7);
    lemma_holds_split(b, p, w0 + w1 + w2 + w3 + w4 + w5, w6);
    lemma_holds_split(b, p, w0 + w1 + w2 + w3 + w4, w5);
    lemma_holds_split(b, p, w0 + w1 + w2 + w3, w4);
    lemma_holds_split(b, p, w0 + w1 + w2, w3);
    lemma_holds_split(b, p, w0 + w1, w2);
    lemma_holds_split(b, p, w0, w1);
    lemma_fu64_at(b, p, v.sleeve_incarnation);
    lemma_fu64_at(b, p + w0.len(), v.config_revision);
    lemma_fstr_at(b, p + w0.len() + w1.len(), v.profile_and_calculator_digest@);
    lemma_fu64_at(b, p + w0.len() + w1.len() + w2.len(), v.route_epoch);
    lemma_farray32_at(b, p + w0.len() + w1.len() + w2.len() + w3.len(), v.route_plan_sha256);
    lemma_fu64_at(b, p + w0.len() + w1.len() + w2.len() + w3.len() + w4.len(), v.source_revision);
    lemma_fu64_at(b, p + w0.len() + w1.len() + w2.len() + w3.len() + w4.len() + w5.len(), v.source_generation);
    lemma_fu64_at(b, p + w0.len() + w1.len() + w2.len() + w3.len() + w4.len() + w5.len() + w6.len(), v.catalog_revision);
}

proof fn lemma_v4_fence_part1_at(b: Seq<u8>, p: int, v: FenceV4)
    requires
        holds_at(b, p, fx_fence_part1(v)),
        b.len() <= u64::MAX,
    ensures
        v4_fence_part1_at(b, p) == Some(((v.market_authority_generation, v.price_revision, v.broker_revision, v.station_resources@.map_values(v4_resource_revision_viewer()), v.market_revisions@.map_values(v4_resource_revision_viewer())), p + fx_fence_part1(v).len())),
{
    reveal(fx_fence_part1);
    reveal(v4_fence_part1_at);
    let w0 = be_u64(v.market_authority_generation);
    let w1 = be_u64(v.price_revision);
    let w2 = be_u64(v.broker_revision);
    let w3 = fx_list(v.station_resources@, fx_resource_revision_encoder());
    let w4 = fx_list(v.market_revisions@, fx_resource_revision_encoder());
    lemma_holds_split(b, p, w0 + w1 + w2 + w3, w4);
    lemma_holds_split(b, p, w0 + w1 + w2, w3);
    lemma_holds_split(b, p, w0 + w1, w2);
    lemma_holds_split(b, p, w0, w1);
    lemma_fu64_at(b, p, v.market_authority_generation);
    lemma_fu64_at(b, p + w0.len(), v.price_revision);
    lemma_fu64_at(b, p + w0.len() + w1.len(), v.broker_revision);
    lemma_v4_list_resource_revision_at(b, p + w0.len() + w1.len() + w2.len(), v.station_resources);
    lemma_v4_list_resource_revision_at(b, p + w0.len() + w1.len() + w2.len() + w3.len(), v.market_revisions);
}

pub(crate) proof fn lemma_v4_fence_at(b: Seq<u8>, p: int, v: FenceV4)
    requires
        holds_at(b, p, fx_fence(v)),
        b.len() <= u64::MAX,
    ensures
        v4_fence_at(b, p) == Some((v@, p + fx_fence(v).len())),
{
    reveal(fx_fence);
    reveal(v4_fence_at);
    let w0 = fx_fence_part0(v);
    let w1 = fx_fence_part1(v);
    lemma_holds_split(b, p, w0, w1);
    lemma_v4_fence_part0_at(b, p, v);
    lemma_v4_fence_part1_at(b, p + w0.len(), v);
}

proof fn lemma_v4_timer_recovery_at(b: Seq<u8>, p: int, v: TimerRecoveryV4)
    requires
        holds_at(b, p, fx_timer_recovery(v)),
        b.len() <= u64::MAX,
    ensures
        v4_timer_recovery_at(b, p) == Some((v@, p + fx_timer_recovery(v).len())),
{
    reveal(fx_timer_recovery);
    reveal(v4_timer_recovery_at);
    let w0 = fixed_str_spec(v.key@);
    let w1 = be_u64(v.scheduled_at);
    let w2 = fixed_str_spec(v.generation@);
    let w3 = seq![v.admission_state];
    lemma_holds_split(b, p, w0 + w1 + w2, w3);
    lemma_holds_split(b, p, w0 + w1, w2);
    lemma_holds_split(b, p, w0, w1);
    lemma_fstr_at(b, p, v.key@);
    lemma_fu64_at(b, p + w0.len(), v.scheduled_at);
    lemma_fstr_at(b, p + w0.len() + w1.len(), v.generation@);
    lemma_fu8_at(b, p + w0.len() + w1.len() + w2.len(), v.admission_state);
}

proof fn lemma_v4_decision_context_part0_at(b: Seq<u8>, p: int, v: DecisionContextV4)
    requires
        holds_at(b, p, fx_decision_context_part0(v)),
        b.len() <= u64::MAX,
    ensures
        v4_decision_context_part0_at(b, p) == Some(((v.delivery_id@, v.sleeve@, v.trigger@, v.fence@, v.config@, v.stations@.map_values(v4_station_viewer()), v.opportunity@, v.markets@.map_values(v4_market_viewer())), p + fx_decision_context_part0(v).len())),
{
    reveal(fx_decision_context_part0);
    reveal(v4_decision_context_part0_at);
    let w0 = fixed_str_spec(v.delivery_id@);
    let w1 = fx_supervisor(v.sleeve);
    let w2 = fx_trigger(v.trigger);
    let w3 = fx_fence(v.fence);
    let w4 = fx_config(v.config);
    let w5 = fx_list(v.stations@, fx_station_encoder());
    let w6 = fx_opportunity(v.opportunity);
    let w7 = fx_list(v.markets@, fx_market_encoder());
    lemma_holds_split(b, p, w0 + w1 + w2 + w3 + w4 + w5 + w6, w7);
    lemma_holds_split(b, p, w0 + w1 + w2 + w3 + w4 + w5, w6);
    lemma_holds_split(b, p, w0 + w1 + w2 + w3 + w4, w5);
    lemma_holds_split(b, p, w0 + w1 + w2 + w3, w4);
    lemma_holds_split(b, p, w0 + w1 + w2, w3);
    lemma_holds_split(b, p, w0 + w1, w2);
    lemma_holds_split(b, p, w0, w1);
    lemma_fstr_at(b, p, v.delivery_id@);
    lemma_v4_supervisor_at(b, p + w0.len(), v.sleeve);
    lemma_v4_trigger_at(b, p + w0.len() + w1.len(), v.trigger);
    lemma_v4_fence_at(b, p + w0.len() + w1.len() + w2.len(), v.fence);
    lemma_v4_config_at(b, p + w0.len() + w1.len() + w2.len() + w3.len(), v.config);
    lemma_v4_list_station_at(b, p + w0.len() + w1.len() + w2.len() + w3.len() + w4.len(), v.stations);
    lemma_v4_opportunity_at(b, p + w0.len() + w1.len() + w2.len() + w3.len() + w4.len() + w5.len(), v.opportunity);
    lemma_v4_list_market_at(b, p + w0.len() + w1.len() + w2.len() + w3.len() + w4.len() + w5.len() + w6.len(), v.markets);
}

proof fn lemma_v4_decision_context_part1_at(b: Seq<u8>, p: int, v: DecisionContextV4)
    requires
        holds_at(b, p, fx_decision_context_part1(v)),
        b.len() <= u64::MAX,
    ensures
        v4_decision_context_part1_at(b, p) == Some(((v.broker@, v4_opt_list_timer_recovery_model(v.timer_recovery), v.delivered_at_monotonic_ns, v.hard_expires_at_monotonic_ns), p + fx_decision_context_part1(v).len())),
{
    reveal(fx_decision_context_part1);
    reveal(v4_decision_context_part1_at);
    let w0 = fx_broker(v.broker);
    let w1 = fx_opt_list_timer_recovery(v.timer_recovery);
    let w2 = be_u64(v.delivered_at_monotonic_ns);
    let w3 = be_u64(v.hard_expires_at_monotonic_ns);
    lemma_holds_split(b, p, w0 + w1 + w2, w3);
    lemma_holds_split(b, p, w0 + w1, w2);
    lemma_holds_split(b, p, w0, w1);
    lemma_v4_broker_at(b, p, v.broker);
    lemma_v4_opt_list_timer_recovery_at(b, p + w0.len(), v.timer_recovery);
    lemma_fu64_at(b, p + w0.len() + w1.len(), v.delivered_at_monotonic_ns);
    lemma_fu64_at(b, p + w0.len() + w1.len() + w2.len(), v.hard_expires_at_monotonic_ns);
}

proof fn lemma_v4_decision_context_at(b: Seq<u8>, p: int, v: DecisionContextV4)
    requires
        holds_at(b, p, fx_decision_context(v)),
        b.len() <= u64::MAX,
    ensures
        v4_decision_context_at(b, p) == Some((v@, p + fx_decision_context(v).len())),
{
    reveal(fx_decision_context);
    reveal(v4_decision_context_at);
    let w0 = fx_decision_context_part0(v);
    let w1 = fx_decision_context_part1(v);
    lemma_holds_split(b, p, w0, w1);
    lemma_v4_decision_context_part0_at(b, p, v);
    lemma_v4_decision_context_part1_at(b, p + w0.len(), v);
}

// ---------------------------------------------------------------------------------------------
// Reading, executably
// ---------------------------------------------------------------------------------------------

fn take_v4_list_string_provenance_pair(b: &[u8], pos: usize) -> (r: Option<(Vec<(String, ProvenanceV4)>, usize)>)
    requires
        pos <= b@.len(),
    ensures
        match v4_list_string_provenance_pair_at(b@, pos as int) {
            Some((m, e)) => r matches Some((v, end)) && v@.map_values(v4_string_provenance_pair_viewer()) == m && end == e,
            None => r is None,
        },
        r matches Some((_, end)) ==> pos < end <= b@.len(),
{
    let (n, start) = match take_fu64(b, pos) {
        Some(v) => v,
        None => return None,
    };
    let mut out: Vec<(String, ProvenanceV4)> = Vec::new();
    let mut p = start;
    let mut i: u64 = 0;
    while i < n
        invariant
            pos < start <= p <= b@.len(),
            i <= n,
            fu64_at(b@, pos as int) matches Some((x, e)) && x == n && e == start,
            items_at(b@, start as int, i as nat, v4_string_provenance_pair_reader()) == Some(
                (out@.map_values(v4_string_provenance_pair_viewer()), p as int),
            ),
        decreases n - i,
    {
        match take_v4_string_provenance_pair(b, p) {
            Some((item, e)) => {
                let ghost before = out@;
                out.push(item);
                assert(out@.map_values(v4_string_provenance_pair_viewer()) =~= before.map_values(
                    v4_string_provenance_pair_viewer(),
                ).push(v4_string_provenance_pair_viewer()(item)));
                p = e;
            },
            None => {
                proof {
                    assert(v4_string_provenance_pair_reader()(b@, p as int) is None);
                    assert(items_at(b@, start as int, (i + 1) as nat, v4_string_provenance_pair_reader()) is None);
                    lemma_items_stop(b@, start as int, (i + 1) as nat, n as nat, v4_string_provenance_pair_reader());
                }
                return None;
            },
        }
        i += 1;
    }
    Some((out, p))
}

fn take_v4_list_string_string_pair(b: &[u8], pos: usize) -> (r: Option<(Vec<(String, String)>, usize)>)
    requires
        pos <= b@.len(),
    ensures
        match v4_list_string_string_pair_at(b@, pos as int) {
            Some((m, e)) => r matches Some((v, end)) && v@.map_values(v4_string_string_pair_viewer()) == m && end == e,
            None => r is None,
        },
        r matches Some((_, end)) ==> pos < end <= b@.len(),
{
    let (n, start) = match take_fu64(b, pos) {
        Some(v) => v,
        None => return None,
    };
    let mut out: Vec<(String, String)> = Vec::new();
    let mut p = start;
    let mut i: u64 = 0;
    while i < n
        invariant
            pos < start <= p <= b@.len(),
            i <= n,
            fu64_at(b@, pos as int) matches Some((x, e)) && x == n && e == start,
            items_at(b@, start as int, i as nat, v4_string_string_pair_reader()) == Some(
                (out@.map_values(v4_string_string_pair_viewer()), p as int),
            ),
        decreases n - i,
    {
        match take_v4_string_string_pair(b, p) {
            Some((item, e)) => {
                let ghost before = out@;
                out.push(item);
                assert(out@.map_values(v4_string_string_pair_viewer()) =~= before.map_values(
                    v4_string_string_pair_viewer(),
                ).push(v4_string_string_pair_viewer()(item)));
                p = e;
            },
            None => {
                proof {
                    assert(v4_string_string_pair_reader()(b@, p as int) is None);
                    assert(items_at(b@, start as int, (i + 1) as nat, v4_string_string_pair_reader()) is None);
                    lemma_items_stop(b@, start as int, (i + 1) as nat, n as nat, v4_string_string_pair_reader());
                }
                return None;
            },
        }
        i += 1;
    }
    Some((out, p))
}

fn take_v4_list_book_level(b: &[u8], pos: usize) -> (r: Option<(Vec<BookLevelV4>, usize)>)
    requires
        pos <= b@.len(),
    ensures
        match v4_list_book_level_at(b@, pos as int) {
            Some((m, e)) => r matches Some((v, end)) && v@.map_values(v4_book_level_viewer()) == m && end == e,
            None => r is None,
        },
        r matches Some((_, end)) ==> pos < end <= b@.len(),
{
    let (n, start) = match take_fu64(b, pos) {
        Some(v) => v,
        None => return None,
    };
    let mut out: Vec<BookLevelV4> = Vec::new();
    let mut p = start;
    let mut i: u64 = 0;
    while i < n
        invariant
            pos < start <= p <= b@.len(),
            i <= n,
            fu64_at(b@, pos as int) matches Some((x, e)) && x == n && e == start,
            items_at(b@, start as int, i as nat, v4_book_level_reader()) == Some(
                (out@.map_values(v4_book_level_viewer()), p as int),
            ),
        decreases n - i,
    {
        match take_v4_book_level(b, p) {
            Some((item, e)) => {
                let ghost before = out@;
                out.push(item);
                assert(out@.map_values(v4_book_level_viewer()) =~= before.map_values(
                    v4_book_level_viewer(),
                ).push(v4_book_level_viewer()(item)));
                p = e;
            },
            None => {
                proof {
                    assert(v4_book_level_reader()(b@, p as int) is None);
                    assert(items_at(b@, start as int, (i + 1) as nat, v4_book_level_reader()) is None);
                    lemma_items_stop(b@, start as int, (i + 1) as nat, n as nat, v4_book_level_reader());
                }
                return None;
            },
        }
        i += 1;
    }
    Some((out, p))
}

fn take_v4_list_evidence(b: &[u8], pos: usize) -> (r: Option<(Vec<EvidenceV4>, usize)>)
    requires
        pos <= b@.len(),
    ensures
        match v4_list_evidence_at(b@, pos as int) {
            Some((m, e)) => r matches Some((v, end)) && v@.map_values(v4_evidence_viewer()) == m && end == e,
            None => r is None,
        },
        r matches Some((_, end)) ==> pos < end <= b@.len(),
{
    let (n, start) = match take_fu64(b, pos) {
        Some(v) => v,
        None => return None,
    };
    let mut out: Vec<EvidenceV4> = Vec::new();
    let mut p = start;
    let mut i: u64 = 0;
    while i < n
        invariant
            pos < start <= p <= b@.len(),
            i <= n,
            fu64_at(b@, pos as int) matches Some((x, e)) && x == n && e == start,
            items_at(b@, start as int, i as nat, v4_evidence_reader()) == Some(
                (out@.map_values(v4_evidence_viewer()), p as int),
            ),
        decreases n - i,
    {
        match take_v4_evidence(b, p) {
            Some((item, e)) => {
                let ghost before = out@;
                out.push(item);
                assert(out@.map_values(v4_evidence_viewer()) =~= before.map_values(
                    v4_evidence_viewer(),
                ).push(v4_evidence_viewer()(item)));
                p = e;
            },
            None => {
                proof {
                    assert(v4_evidence_reader()(b@, p as int) is None);
                    assert(items_at(b@, start as int, (i + 1) as nat, v4_evidence_reader()) is None);
                    lemma_items_stop(b@, start as int, (i + 1) as nat, n as nat, v4_evidence_reader());
                }
                return None;
            },
        }
        i += 1;
    }
    Some((out, p))
}

fn take_v4_list_forecast_model(b: &[u8], pos: usize) -> (r: Option<(Vec<ForecastModelV4>, usize)>)
    requires
        pos <= b@.len(),
    ensures
        match v4_list_forecast_model_at(b@, pos as int) {
            Some((m, e)) => r matches Some((v, end)) && v@.map_values(v4_forecast_model_viewer()) == m && end == e,
            None => r is None,
        },
        r matches Some((_, end)) ==> pos < end <= b@.len(),
{
    let (n, start) = match take_fu64(b, pos) {
        Some(v) => v,
        None => return None,
    };
    let mut out: Vec<ForecastModelV4> = Vec::new();
    let mut p = start;
    let mut i: u64 = 0;
    while i < n
        invariant
            pos < start <= p <= b@.len(),
            i <= n,
            fu64_at(b@, pos as int) matches Some((x, e)) && x == n && e == start,
            items_at(b@, start as int, i as nat, v4_forecast_model_reader()) == Some(
                (out@.map_values(v4_forecast_model_viewer()), p as int),
            ),
        decreases n - i,
    {
        match take_v4_forecast_model(b, p) {
            Some((item, e)) => {
                let ghost before = out@;
                out.push(item);
                assert(out@.map_values(v4_forecast_model_viewer()) =~= before.map_values(
                    v4_forecast_model_viewer(),
                ).push(v4_forecast_model_viewer()(item)));
                p = e;
            },
            None => {
                proof {
                    assert(v4_forecast_model_reader()(b@, p as int) is None);
                    assert(items_at(b@, start as int, (i + 1) as nat, v4_forecast_model_reader()) is None);
                    lemma_items_stop(b@, start as int, (i + 1) as nat, n as nat, v4_forecast_model_reader());
                }
                return None;
            },
        }
        i += 1;
    }
    Some((out, p))
}

fn take_v4_list_forecast_point(b: &[u8], pos: usize) -> (r: Option<(Vec<ForecastPointV4>, usize)>)
    requires
        pos <= b@.len(),
    ensures
        match v4_list_forecast_point_at(b@, pos as int) {
            Some((m, e)) => r matches Some((v, end)) && v@.map_values(v4_forecast_point_viewer()) == m && end == e,
            None => r is None,
        },
        r matches Some((_, end)) ==> pos < end <= b@.len(),
{
    let (n, start) = match take_fu64(b, pos) {
        Some(v) => v,
        None => return None,
    };
    let mut out: Vec<ForecastPointV4> = Vec::new();
    let mut p = start;
    let mut i: u64 = 0;
    while i < n
        invariant
            pos < start <= p <= b@.len(),
            i <= n,
            fu64_at(b@, pos as int) matches Some((x, e)) && x == n && e == start,
            items_at(b@, start as int, i as nat, v4_forecast_point_reader()) == Some(
                (out@.map_values(v4_forecast_point_viewer()), p as int),
            ),
        decreases n - i,
    {
        match take_v4_forecast_point(b, p) {
            Some((item, e)) => {
                let ghost before = out@;
                out.push(item);
                assert(out@.map_values(v4_forecast_point_viewer()) =~= before.map_values(
                    v4_forecast_point_viewer(),
                ).push(v4_forecast_point_viewer()(item)));
                p = e;
            },
            None => {
                proof {
                    assert(v4_forecast_point_reader()(b@, p as int) is None);
                    assert(items_at(b@, start as int, (i + 1) as nat, v4_forecast_point_reader()) is None);
                    lemma_items_stop(b@, start as int, (i + 1) as nat, n as nat, v4_forecast_point_reader());
                }
                return None;
            },
        }
        i += 1;
    }
    Some((out, p))
}

fn take_v4_list_market(b: &[u8], pos: usize) -> (r: Option<(Vec<MarketV4>, usize)>)
    requires
        pos <= b@.len(),
    ensures
        match v4_list_market_at(b@, pos as int) {
            Some((m, e)) => r matches Some((v, end)) && v@.map_values(v4_market_viewer()) == m && end == e,
            None => r is None,
        },
        r matches Some((_, end)) ==> pos < end <= b@.len(),
{
    let (n, start) = match take_fu64(b, pos) {
        Some(v) => v,
        None => return None,
    };
    let mut out: Vec<MarketV4> = Vec::new();
    let mut p = start;
    let mut i: u64 = 0;
    while i < n
        invariant
            pos < start <= p <= b@.len(),
            i <= n,
            fu64_at(b@, pos as int) matches Some((x, e)) && x == n && e == start,
            items_at(b@, start as int, i as nat, v4_market_reader()) == Some(
                (out@.map_values(v4_market_viewer()), p as int),
            ),
        decreases n - i,
    {
        match take_v4_market(b, p) {
            Some((item, e)) => {
                let ghost before = out@;
                out.push(item);
                assert(out@.map_values(v4_market_viewer()) =~= before.map_values(
                    v4_market_viewer(),
                ).push(v4_market_viewer()(item)));
                p = e;
            },
            None => {
                proof {
                    assert(v4_market_reader()(b@, p as int) is None);
                    assert(items_at(b@, start as int, (i + 1) as nat, v4_market_reader()) is None);
                    lemma_items_stop(b@, start as int, (i + 1) as nat, n as nat, v4_market_reader());
                }
                return None;
            },
        }
        i += 1;
    }
    Some((out, p))
}

fn take_v4_list_oracle_row(b: &[u8], pos: usize) -> (r: Option<(Vec<OracleRowV4>, usize)>)
    requires
        pos <= b@.len(),
    ensures
        match v4_list_oracle_row_at(b@, pos as int) {
            Some((m, e)) => r matches Some((v, end)) && v@.map_values(v4_oracle_row_viewer()) == m && end == e,
            None => r is None,
        },
        r matches Some((_, end)) ==> pos < end <= b@.len(),
{
    let (n, start) = match take_fu64(b, pos) {
        Some(v) => v,
        None => return None,
    };
    let mut out: Vec<OracleRowV4> = Vec::new();
    let mut p = start;
    let mut i: u64 = 0;
    while i < n
        invariant
            pos < start <= p <= b@.len(),
            i <= n,
            fu64_at(b@, pos as int) matches Some((x, e)) && x == n && e == start,
            items_at(b@, start as int, i as nat, v4_oracle_row_reader()) == Some(
                (out@.map_values(v4_oracle_row_viewer()), p as int),
            ),
        decreases n - i,
    {
        match take_v4_oracle_row(b, p) {
            Some((item, e)) => {
                let ghost before = out@;
                out.push(item);
                assert(out@.map_values(v4_oracle_row_viewer()) =~= before.map_values(
                    v4_oracle_row_viewer(),
                ).push(v4_oracle_row_viewer()(item)));
                p = e;
            },
            None => {
                proof {
                    assert(v4_oracle_row_reader()(b@, p as int) is None);
                    assert(items_at(b@, start as int, (i + 1) as nat, v4_oracle_row_reader()) is None);
                    lemma_items_stop(b@, start as int, (i + 1) as nat, n as nat, v4_oracle_row_reader());
                }
                return None;
            },
        }
        i += 1;
    }
    Some((out, p))
}

fn take_v4_list_provenance(b: &[u8], pos: usize) -> (r: Option<(Vec<ProvenanceV4>, usize)>)
    requires
        pos <= b@.len(),
    ensures
        match v4_list_provenance_at(b@, pos as int) {
            Some((m, e)) => r matches Some((v, end)) && v@.map_values(v4_provenance_viewer()) == m && end == e,
            None => r is None,
        },
        r matches Some((_, end)) ==> pos < end <= b@.len(),
{
    let (n, start) = match take_fu64(b, pos) {
        Some(v) => v,
        None => return None,
    };
    let mut out: Vec<ProvenanceV4> = Vec::new();
    let mut p = start;
    let mut i: u64 = 0;
    while i < n
        invariant
            pos < start <= p <= b@.len(),
            i <= n,
            fu64_at(b@, pos as int) matches Some((x, e)) && x == n && e == start,
            items_at(b@, start as int, i as nat, v4_provenance_reader()) == Some(
                (out@.map_values(v4_provenance_viewer()), p as int),
            ),
        decreases n - i,
    {
        match take_v4_provenance(b, p) {
            Some((item, e)) => {
                let ghost before = out@;
                out.push(item);
                assert(out@.map_values(v4_provenance_viewer()) =~= before.map_values(
                    v4_provenance_viewer(),
                ).push(v4_provenance_viewer()(item)));
                p = e;
            },
            None => {
                proof {
                    assert(v4_provenance_reader()(b@, p as int) is None);
                    assert(items_at(b@, start as int, (i + 1) as nat, v4_provenance_reader()) is None);
                    lemma_items_stop(b@, start as int, (i + 1) as nat, n as nat, v4_provenance_reader());
                }
                return None;
            },
        }
        i += 1;
    }
    Some((out, p))
}

fn take_v4_list_report(b: &[u8], pos: usize) -> (r: Option<(Vec<ReportV4>, usize)>)
    requires
        pos <= b@.len(),
    ensures
        match v4_list_report_at(b@, pos as int) {
            Some((m, e)) => r matches Some((v, end)) && v@.map_values(v4_report_viewer()) == m && end == e,
            None => r is None,
        },
        r matches Some((_, end)) ==> pos < end <= b@.len(),
{
    let (n, start) = match take_fu64(b, pos) {
        Some(v) => v,
        None => return None,
    };
    let mut out: Vec<ReportV4> = Vec::new();
    let mut p = start;
    let mut i: u64 = 0;
    while i < n
        invariant
            pos < start <= p <= b@.len(),
            i <= n,
            fu64_at(b@, pos as int) matches Some((x, e)) && x == n && e == start,
            items_at(b@, start as int, i as nat, v4_report_reader()) == Some(
                (out@.map_values(v4_report_viewer()), p as int),
            ),
        decreases n - i,
    {
        match take_v4_report(b, p) {
            Some((item, e)) => {
                let ghost before = out@;
                out.push(item);
                assert(out@.map_values(v4_report_viewer()) =~= before.map_values(
                    v4_report_viewer(),
                ).push(v4_report_viewer()(item)));
                p = e;
            },
            None => {
                proof {
                    assert(v4_report_reader()(b@, p as int) is None);
                    assert(items_at(b@, start as int, (i + 1) as nat, v4_report_reader()) is None);
                    lemma_items_stop(b@, start as int, (i + 1) as nat, n as nat, v4_report_reader());
                }
                return None;
            },
        }
        i += 1;
    }
    Some((out, p))
}

fn take_v4_list_resource_revision(b: &[u8], pos: usize) -> (r: Option<(Vec<ResourceRevisionV4>, usize)>)
    requires
        pos <= b@.len(),
    ensures
        match v4_list_resource_revision_at(b@, pos as int) {
            Some((m, e)) => r matches Some((v, end)) && v@.map_values(v4_resource_revision_viewer()) == m && end == e,
            None => r is None,
        },
        r matches Some((_, end)) ==> pos < end <= b@.len(),
{
    let (n, start) = match take_fu64(b, pos) {
        Some(v) => v,
        None => return None,
    };
    let mut out: Vec<ResourceRevisionV4> = Vec::new();
    let mut p = start;
    let mut i: u64 = 0;
    while i < n
        invariant
            pos < start <= p <= b@.len(),
            i <= n,
            fu64_at(b@, pos as int) matches Some((x, e)) && x == n && e == start,
            items_at(b@, start as int, i as nat, v4_resource_revision_reader()) == Some(
                (out@.map_values(v4_resource_revision_viewer()), p as int),
            ),
        decreases n - i,
    {
        match take_v4_resource_revision(b, p) {
            Some((item, e)) => {
                let ghost before = out@;
                out.push(item);
                assert(out@.map_values(v4_resource_revision_viewer()) =~= before.map_values(
                    v4_resource_revision_viewer(),
                ).push(v4_resource_revision_viewer()(item)));
                p = e;
            },
            None => {
                proof {
                    assert(v4_resource_revision_reader()(b@, p as int) is None);
                    assert(items_at(b@, start as int, (i + 1) as nat, v4_resource_revision_reader()) is None);
                    lemma_items_stop(b@, start as int, (i + 1) as nat, n as nat, v4_resource_revision_reader());
                }
                return None;
            },
        }
        i += 1;
    }
    Some((out, p))
}

fn take_v4_list_station(b: &[u8], pos: usize) -> (r: Option<(Vec<StationV4>, usize)>)
    requires
        pos <= b@.len(),
    ensures
        match v4_list_station_at(b@, pos as int) {
            Some((m, e)) => r matches Some((v, end)) && v@.map_values(v4_station_viewer()) == m && end == e,
            None => r is None,
        },
        r matches Some((_, end)) ==> pos < end <= b@.len(),
{
    let (n, start) = match take_fu64(b, pos) {
        Some(v) => v,
        None => return None,
    };
    let mut out: Vec<StationV4> = Vec::new();
    let mut p = start;
    let mut i: u64 = 0;
    while i < n
        invariant
            pos < start <= p <= b@.len(),
            i <= n,
            fu64_at(b@, pos as int) matches Some((x, e)) && x == n && e == start,
            items_at(b@, start as int, i as nat, v4_station_reader()) == Some(
                (out@.map_values(v4_station_viewer()), p as int),
            ),
        decreases n - i,
    {
        match take_v4_station(b, p) {
            Some((item, e)) => {
                let ghost before = out@;
                out.push(item);
                assert(out@.map_values(v4_station_viewer()) =~= before.map_values(
                    v4_station_viewer(),
                ).push(v4_station_viewer()(item)));
                p = e;
            },
            None => {
                proof {
                    assert(v4_station_reader()(b@, p as int) is None);
                    assert(items_at(b@, start as int, (i + 1) as nat, v4_station_reader()) is None);
                    lemma_items_stop(b@, start as int, (i + 1) as nat, n as nat, v4_station_reader());
                }
                return None;
            },
        }
        i += 1;
    }
    Some((out, p))
}

fn take_v4_list_string(b: &[u8], pos: usize) -> (r: Option<(Vec<String>, usize)>)
    requires
        pos <= b@.len(),
    ensures
        match v4_list_string_at(b@, pos as int) {
            Some((m, e)) => r matches Some((v, end)) && v@.map_values(v4_string_viewer()) == m && end == e,
            None => r is None,
        },
        r matches Some((_, end)) ==> pos < end <= b@.len(),
{
    let (n, start) = match take_fu64(b, pos) {
        Some(v) => v,
        None => return None,
    };
    let mut out: Vec<String> = Vec::new();
    let mut p = start;
    let mut i: u64 = 0;
    while i < n
        invariant
            pos < start <= p <= b@.len(),
            i <= n,
            fu64_at(b@, pos as int) matches Some((x, e)) && x == n && e == start,
            items_at(b@, start as int, i as nat, v4_string_reader()) == Some(
                (out@.map_values(v4_string_viewer()), p as int),
            ),
        decreases n - i,
    {
        match take_fstr(b, p) {
            Some((item, e)) => {
                let ghost before = out@;
                out.push(item);
                assert(out@.map_values(v4_string_viewer()) =~= before.map_values(
                    v4_string_viewer(),
                ).push(v4_string_viewer()(item)));
                p = e;
            },
            None => {
                proof {
                    assert(v4_string_reader()(b@, p as int) is None);
                    assert(items_at(b@, start as int, (i + 1) as nat, v4_string_reader()) is None);
                    lemma_items_stop(b@, start as int, (i + 1) as nat, n as nat, v4_string_reader());
                }
                return None;
            },
        }
        i += 1;
    }
    Some((out, p))
}

fn take_v4_list_timer_recovery(b: &[u8], pos: usize) -> (r: Option<(Vec<TimerRecoveryV4>, usize)>)
    requires
        pos <= b@.len(),
    ensures
        match v4_list_timer_recovery_at(b@, pos as int) {
            Some((m, e)) => r matches Some((v, end)) && v@.map_values(v4_timer_recovery_viewer()) == m && end == e,
            None => r is None,
        },
        r matches Some((_, end)) ==> pos < end <= b@.len(),
{
    let (n, start) = match take_fu64(b, pos) {
        Some(v) => v,
        None => return None,
    };
    let mut out: Vec<TimerRecoveryV4> = Vec::new();
    let mut p = start;
    let mut i: u64 = 0;
    while i < n
        invariant
            pos < start <= p <= b@.len(),
            i <= n,
            fu64_at(b@, pos as int) matches Some((x, e)) && x == n && e == start,
            items_at(b@, start as int, i as nat, v4_timer_recovery_reader()) == Some(
                (out@.map_values(v4_timer_recovery_viewer()), p as int),
            ),
        decreases n - i,
    {
        match take_v4_timer_recovery(b, p) {
            Some((item, e)) => {
                let ghost before = out@;
                out.push(item);
                assert(out@.map_values(v4_timer_recovery_viewer()) =~= before.map_values(
                    v4_timer_recovery_viewer(),
                ).push(v4_timer_recovery_viewer()(item)));
                p = e;
            },
            None => {
                proof {
                    assert(v4_timer_recovery_reader()(b@, p as int) is None);
                    assert(items_at(b@, start as int, (i + 1) as nat, v4_timer_recovery_reader()) is None);
                    lemma_items_stop(b@, start as int, (i + 1) as nat, n as nat, v4_timer_recovery_reader());
                }
                return None;
            },
        }
        i += 1;
    }
    Some((out, p))
}

fn take_v4_list_weather_event(b: &[u8], pos: usize) -> (r: Option<(Vec<WeatherEventV4>, usize)>)
    requires
        pos <= b@.len(),
    ensures
        match v4_list_weather_event_at(b@, pos as int) {
            Some((m, e)) => r matches Some((v, end)) && v@.map_values(v4_weather_event_viewer()) == m && end == e,
            None => r is None,
        },
        r matches Some((_, end)) ==> pos < end <= b@.len(),
{
    let (n, start) = match take_fu64(b, pos) {
        Some(v) => v,
        None => return None,
    };
    let mut out: Vec<WeatherEventV4> = Vec::new();
    let mut p = start;
    let mut i: u64 = 0;
    while i < n
        invariant
            pos < start <= p <= b@.len(),
            i <= n,
            fu64_at(b@, pos as int) matches Some((x, e)) && x == n && e == start,
            items_at(b@, start as int, i as nat, v4_weather_event_reader()) == Some(
                (out@.map_values(v4_weather_event_viewer()), p as int),
            ),
        decreases n - i,
    {
        match take_v4_weather_event(b, p) {
            Some((item, e)) => {
                let ghost before = out@;
                out.push(item);
                assert(out@.map_values(v4_weather_event_viewer()) =~= before.map_values(
                    v4_weather_event_viewer(),
                ).push(v4_weather_event_viewer()(item)));
                p = e;
            },
            None => {
                proof {
                    assert(v4_weather_event_reader()(b@, p as int) is None);
                    assert(items_at(b@, start as int, (i + 1) as nat, v4_weather_event_reader()) is None);
                    lemma_items_stop(b@, start as int, (i + 1) as nat, n as nat, v4_weather_event_reader());
                }
                return None;
            },
        }
        i += 1;
    }
    Some((out, p))
}

fn take_v4_opt_book(b: &[u8], pos: usize) -> (r: Option<(Option<BookV4>, usize)>)
    requires
        pos <= b@.len(),
    ensures
        match v4_opt_book_at(b@, pos as int) {
            Some((m, e)) => r matches Some((v, end)) && v4_opt_book_model(v) == m && end == e,
            None => r is None,
        },
        r matches Some((_, end)) ==> pos < end <= b@.len(),
{
    proof {
        reveal(v4_opt_book_at);
    }
    match take_u8(b, pos) {
        Some((0, e)) => Some((None, e)),
        Some((1, e)) => match take_v4_book(b, e) {
            Some((x, e2)) => Some((Some(x), e2)),
            None => None,
        },
        _ => None,
    }
}

fn take_v4_opt_extreme(b: &[u8], pos: usize) -> (r: Option<(Option<ExtremeV4>, usize)>)
    requires
        pos <= b@.len(),
    ensures
        match v4_opt_extreme_at(b@, pos as int) {
            Some((m, e)) => r matches Some((v, end)) && v4_opt_extreme_model(v) == m && end == e,
            None => r is None,
        },
        r matches Some((_, end)) ==> pos < end <= b@.len(),
{
    proof {
        reveal(v4_opt_extreme_at);
    }
    match take_u8(b, pos) {
        Some((0, e)) => Some((None, e)),
        Some((1, e)) => match take_v4_extreme(b, e) {
            Some((x, e2)) => Some((Some(x), e2)),
            None => None,
        },
        _ => None,
    }
}

fn take_v4_opt_final_fact(b: &[u8], pos: usize) -> (r: Option<(Option<FinalFactV4>, usize)>)
    requires
        pos <= b@.len(),
    ensures
        match v4_opt_final_fact_at(b@, pos as int) {
            Some((m, e)) => r matches Some((v, end)) && v4_opt_final_fact_model(v) == m && end == e,
            None => r is None,
        },
        r matches Some((_, end)) ==> pos < end <= b@.len(),
{
    proof {
        reveal(v4_opt_final_fact_at);
    }
    match take_u8(b, pos) {
        Some((0, e)) => Some((None, e)),
        Some((1, e)) => match take_v4_final_fact(b, e) {
            Some((x, e2)) => Some((Some(x), e2)),
            None => None,
        },
        _ => None,
    }
}

fn take_v4_opt_last_trade(b: &[u8], pos: usize) -> (r: Option<(Option<LastTradeV4>, usize)>)
    requires
        pos <= b@.len(),
    ensures
        match v4_opt_last_trade_at(b@, pos as int) {
            Some((m, e)) => r matches Some((v, end)) && v4_opt_last_trade_model(v) == m && end == e,
            None => r is None,
        },
        r matches Some((_, end)) ==> pos < end <= b@.len(),
{
    proof {
        reveal(v4_opt_last_trade_at);
    }
    match take_u8(b, pos) {
        Some((0, e)) => Some((None, e)),
        Some((1, e)) => match take_v4_last_trade(b, e) {
            Some((x, e2)) => Some((Some(x), e2)),
            None => None,
        },
        _ => None,
    }
}

fn take_v4_opt_market_comparison(b: &[u8], pos: usize) -> (r: Option<(Option<MarketComparisonV4>, usize)>)
    requires
        pos <= b@.len(),
    ensures
        match v4_opt_market_comparison_at(b@, pos as int) {
            Some((m, e)) => r matches Some((v, end)) && v4_opt_market_comparison_model(v) == m && end == e,
            None => r is None,
        },
        r matches Some((_, end)) ==> pos < end <= b@.len(),
{
    proof {
        reveal(v4_opt_market_comparison_at);
    }
    match take_u8(b, pos) {
        Some((0, e)) => Some((None, e)),
        Some((1, e)) => match take_v4_market_comparison(b, e) {
            Some((x, e2)) => Some((Some(x), e2)),
            None => None,
        },
        _ => None,
    }
}

fn take_v4_opt_market_lifecycle(b: &[u8], pos: usize) -> (r: Option<(Option<MarketLifecycleV4>, usize)>)
    requires
        pos <= b@.len(),
    ensures
        match v4_opt_market_lifecycle_at(b@, pos as int) {
            Some((m, e)) => r matches Some((v, end)) && v4_opt_market_lifecycle_model(v) == m && end == e,
            None => r is None,
        },
        r matches Some((_, end)) ==> pos < end <= b@.len(),
{
    proof {
        reveal(v4_opt_market_lifecycle_at);
    }
    match take_u8(b, pos) {
        Some((0, e)) => Some((None, e)),
        Some((1, e)) => match take_v4_market_lifecycle(b, e) {
            Some((x, e2)) => Some((Some(x), e2)),
            None => None,
        },
        _ => None,
    }
}

fn take_v4_opt_string(b: &[u8], pos: usize) -> (r: Option<(Option<String>, usize)>)
    requires
        pos <= b@.len(),
    ensures
        match v4_opt_string_at(b@, pos as int) {
            Some((m, e)) => r matches Some((v, end)) && v4_opt_string_model(v) == m && end == e,
            None => r is None,
        },
        r matches Some((_, end)) ==> pos < end <= b@.len(),
{
    proof {
        reveal(v4_opt_string_at);
    }
    match take_u8(b, pos) {
        Some((0, e)) => Some((None, e)),
        Some((1, e)) => match take_fstr(b, e) {
            Some((x, e2)) => Some((Some(x), e2)),
            None => None,
        },
        _ => None,
    }
}

fn take_v4_opt_ticker(b: &[u8], pos: usize) -> (r: Option<(Option<TickerV4>, usize)>)
    requires
        pos <= b@.len(),
    ensures
        match v4_opt_ticker_at(b@, pos as int) {
            Some((m, e)) => r matches Some((v, end)) && v4_opt_ticker_model(v) == m && end == e,
            None => r is None,
        },
        r matches Some((_, end)) ==> pos < end <= b@.len(),
{
    proof {
        reveal(v4_opt_ticker_at);
    }
    match take_u8(b, pos) {
        Some((0, e)) => Some((None, e)),
        Some((1, e)) => match take_v4_ticker(b, e) {
            Some((x, e2)) => Some((Some(x), e2)),
            None => None,
        },
        _ => None,
    }
}

fn take_v4_opt_list_timer_recovery(b: &[u8], pos: usize) -> (r: Option<(Option<Vec<TimerRecoveryV4>>, usize)>)
    requires
        pos <= b@.len(),
    ensures
        match v4_opt_list_timer_recovery_at(b@, pos as int) {
            Some((m, e)) => r matches Some((v, end)) && v4_opt_list_timer_recovery_model(v) == m && end == e,
            None => r is None,
        },
        r matches Some((_, end)) ==> pos < end <= b@.len(),
{
    proof {
        reveal(v4_opt_list_timer_recovery_at);
    }
    match take_u8(b, pos) {
        Some((0, e)) => Some((None, e)),
        Some((1, e)) => match take_v4_list_timer_recovery(b, e) {
            Some((x, e2)) => Some((Some(x), e2)),
            None => None,
        },
        _ => None,
    }
}

fn take_v4_opt_weather_event_source(b: &[u8], pos: usize) -> (r: Option<(Option<WeatherEventSourceV4>, usize)>)
    requires
        pos <= b@.len(),
    ensures
        match v4_opt_weather_event_source_at(b@, pos as int) {
            Some((m, e)) => r matches Some((v, end)) && v4_opt_weather_event_source_model(v) == m && end == e,
            None => r is None,
        },
        r matches Some((_, end)) ==> pos < end <= b@.len(),
{
    proof {
        reveal(v4_opt_weather_event_source_at);
    }
    match take_u8(b, pos) {
        Some((0, e)) => Some((None, e)),
        Some((1, e)) => match take_v4_weather_event_source(b, e) {
            Some((x, e2)) => Some((Some(x), e2)),
            None => None,
        },
        _ => None,
    }
}

fn take_v4_opt_bool(b: &[u8], pos: usize) -> (r: Option<(Option<bool>, usize)>)
    requires
        pos <= b@.len(),
    ensures
        match v4_opt_bool_at(b@, pos as int) {
            Some((m, e)) => r matches Some((v, end)) && v == m && end == e,
            None => r is None,
        },
        r matches Some((_, end)) ==> pos < end <= b@.len(),
{
    proof {
        reveal(v4_opt_bool_at);
    }
    match take_u8(b, pos) {
        Some((0, e)) => Some((None, e)),
        Some((1, e)) => match take_bool(b, e) {
            Some((x, e2)) => Some((Some(x), e2)),
            None => None,
        },
        _ => None,
    }
}

fn take_v4_opt_i32(b: &[u8], pos: usize) -> (r: Option<(Option<i32>, usize)>)
    requires
        pos <= b@.len(),
    ensures
        match v4_opt_i32_at(b@, pos as int) {
            Some((m, e)) => r matches Some((v, end)) && v == m && end == e,
            None => r is None,
        },
        r matches Some((_, end)) ==> pos < end <= b@.len(),
{
    proof {
        reveal(v4_opt_i32_at);
    }
    match take_u8(b, pos) {
        Some((0, e)) => Some((None, e)),
        Some((1, e)) => match take_fi32(b, e) {
            Some((x, e2)) => Some((Some(x), e2)),
            None => None,
        },
        _ => None,
    }
}

fn take_v4_opt_i64(b: &[u8], pos: usize) -> (r: Option<(Option<i64>, usize)>)
    requires
        pos <= b@.len(),
    ensures
        match v4_opt_i64_at(b@, pos as int) {
            Some((m, e)) => r matches Some((v, end)) && v == m && end == e,
            None => r is None,
        },
        r matches Some((_, end)) ==> pos < end <= b@.len(),
{
    proof {
        reveal(v4_opt_i64_at);
    }
    match take_u8(b, pos) {
        Some((0, e)) => Some((None, e)),
        Some((1, e)) => match take_fi64(b, e) {
            Some((x, e2)) => Some((Some(x), e2)),
            None => None,
        },
        _ => None,
    }
}

fn take_v4_opt_u16(b: &[u8], pos: usize) -> (r: Option<(Option<u16>, usize)>)
    requires
        pos <= b@.len(),
    ensures
        match v4_opt_u16_at(b@, pos as int) {
            Some((m, e)) => r matches Some((v, end)) && v == m && end == e,
            None => r is None,
        },
        r matches Some((_, end)) ==> pos < end <= b@.len(),
{
    proof {
        reveal(v4_opt_u16_at);
    }
    match take_u8(b, pos) {
        Some((0, e)) => Some((None, e)),
        Some((1, e)) => match take_fu16(b, e) {
            Some((x, e2)) => Some((Some(x), e2)),
            None => None,
        },
        _ => None,
    }
}

fn take_v4_opt_u64(b: &[u8], pos: usize) -> (r: Option<(Option<u64>, usize)>)
    requires
        pos <= b@.len(),
    ensures
        match v4_opt_u64_at(b@, pos as int) {
            Some((m, e)) => r matches Some((v, end)) && v == m && end == e,
            None => r is None,
        },
        r matches Some((_, end)) ==> pos < end <= b@.len(),
{
    proof {
        reveal(v4_opt_u64_at);
    }
    match take_u8(b, pos) {
        Some((0, e)) => Some((None, e)),
        Some((1, e)) => match take_fu64(b, e) {
            Some((x, e2)) => Some((Some(x), e2)),
            None => None,
        },
        _ => None,
    }
}

fn take_v4_string_provenance_pair(b: &[u8], pos: usize) -> (r: Option<((String, ProvenanceV4), usize)>)
    requires
        pos <= b@.len(),
    ensures
        match v4_string_provenance_pair_at(b@, pos as int) {
            Some((m, e)) => r matches Some((v, end)) && (v.0@, v.1@) == m && end == e,
            None => r is None,
        },
        r matches Some((_, end)) ==> pos < end <= b@.len(),
{
    proof {
        reveal(v4_string_provenance_pair_at);
    }
    let (x, p1) = match take_fstr(b, pos) {
        Some(v) => v,
        None => return None,
    };
    let (y, p2) = match take_v4_provenance(b, p1) {
        Some(v) => v,
        None => return None,
    };
    Some(((x, y), p2))
}

fn take_v4_string_string_pair(b: &[u8], pos: usize) -> (r: Option<((String, String), usize)>)
    requires
        pos <= b@.len(),
    ensures
        match v4_string_string_pair_at(b@, pos as int) {
            Some((m, e)) => r matches Some((v, end)) && (v.0@, v.1@) == m && end == e,
            None => r is None,
        },
        r matches Some((_, end)) ==> pos < end <= b@.len(),
{
    proof {
        reveal(v4_string_string_pair_at);
    }
    let (x, p1) = match take_fstr(b, pos) {
        Some(v) => v,
        None => return None,
    };
    let (y, p2) = match take_fstr(b, p1) {
        Some(v) => v,
        None => return None,
    };
    Some(((x, y), p2))
}

fn take_v4_trigger(b: &[u8], pos: usize) -> (r: Option<(TriggerV4, usize)>)
    requires
        pos <= b@.len(),
    ensures
        match v4_trigger_at(b@, pos as int) {
            Some((m, e)) => r matches Some((v, end)) && v@ == m && end == e,
            None => r is None,
        },
        r matches Some((_, end)) ==> pos < end <= b@.len(),
{
    proof {
        reveal(v4_trigger_at);
    }
    match take_fu32(b, pos) {
        Some((0, q)) => {
    let (station_id, p1) = match take_fstr(b, q) {
        Some(x) => x,
        None => return None,
    };
    let (source_generation, p2) = match take_fu64(b, p1) {
        Some(x) => x,
        None => return None,
    };
    let (source_sequence, p3) = match take_fu64(b, p2) {
        Some(x) => x,
        None => return None,
    };
    Some((TriggerV4::Weather { station_id, source_generation, source_sequence }, p3))
        },
        Some((1, q)) => {
    let (station_id, p1) = match take_fstr(b, q) {
        Some(x) => x,
        None => return None,
    };
    let (report_id, p2) = match take_fstr(b, p1) {
        Some(x) => x,
        None => return None,
    };
    let (report_type, p3) = match take_fstr(b, p2) {
        Some(x) => x,
        None => return None,
    };
    let (report_revision, p4) = match take_fu64(b, p3) {
        Some(x) => x,
        None => return None,
    };
    let (provider, p5) = match take_fstr(b, p4) {
        Some(x) => x,
        None => return None,
    };
    let (source_generation, p6) = match take_fu64(b, p5) {
        Some(x) => x,
        None => return None,
    };
    let (source_sequence, p7) = match take_fu64(b, p6) {
        Some(x) => x,
        None => return None,
    };
    Some((TriggerV4::StationReport { station_id, report_id, report_type, report_revision, provider, source_generation, source_sequence }, p7))
        },
        Some((2, q)) => {
    let (market_id, p1) = match take_fstr(b, q) {
        Some(x) => x,
        None => return None,
    };
    let (price_revision, p2) = match take_fu64(b, p1) {
        Some(x) => x,
        None => return None,
    };
    Some((TriggerV4::MarketPrice { market_id, price_revision }, p2))
        },
        Some((3, q)) => {
    let (key, p1) = match take_fstr(b, q) {
        Some(x) => x,
        None => return None,
    };
    Some((TriggerV4::Timer { key }, p1))
        },
        Some((4, q)) => Some((TriggerV4::Bootstrap, q)),
        Some((5, q)) => Some((TriggerV4::Recovery, q)),
        _ => None,
    }
}

fn take_v4_authority(b: &[u8], pos: usize) -> (r: Option<(AuthorityV4, usize)>)
    requires
        pos <= b@.len(),
    ensures
        match v4_authority_at(b@, pos as int) {
            Some((m, e)) => r matches Some((v, end)) && v == m && end == e,
            None => r is None,
        },
        r matches Some((_, end)) ==> pos < end <= b@.len(),
{
    proof {
        reveal(v4_authority_at);
    }
    match take_fu32(b, pos) {
        Some((0, q)) => Some((AuthorityV4::Warming, q)),
        Some((1, q)) => Some((AuthorityV4::Current, q)),
        Some((2, q)) => Some((AuthorityV4::RefreshPending, q)),
        Some((3, q)) => Some((AuthorityV4::Uncertain, q)),
        Some((4, q)) => Some((AuthorityV4::Unavailable, q)),
        _ => None,
    }
}

fn take_v4_rank_by(b: &[u8], pos: usize) -> (r: Option<(RankByV4, usize)>)
    requires
        pos <= b@.len(),
    ensures
        match v4_rank_by_at(b@, pos as int) {
            Some((m, e)) => r matches Some((v, end)) && v == m && end == e,
            None => r is None,
        },
        r matches Some((_, end)) ==> pos < end <= b@.len(),
{
    proof {
        reveal(v4_rank_by_at);
    }
    match take_fu32(b, pos) {
        Some((0, q)) => Some((RankByV4::High, q)),
        Some((1, q)) => Some((RankByV4::Low, q)),
        _ => None,
    }
}

fn take_v4_lifecycle(b: &[u8], pos: usize) -> (r: Option<(LifecycleV4, usize)>)
    requires
        pos <= b@.len(),
    ensures
        match v4_lifecycle_at(b@, pos as int) {
            Some((m, e)) => r matches Some((v, end)) && v == m && end == e,
            None => r is None,
        },
        r matches Some((_, end)) ==> pos < end <= b@.len(),
{
    proof {
        reveal(v4_lifecycle_at);
    }
    match take_fu32(b, pos) {
        Some((0, q)) => Some((LifecycleV4::Discovered, q)),
        Some((1, q)) => Some((LifecycleV4::Hydrating, q)),
        Some((2, q)) => Some((LifecycleV4::Eligible, q)),
        Some((3, q)) => Some((LifecycleV4::Uncertain, q)),
        Some((4, q)) => Some((LifecycleV4::Ineligible, q)),
        Some((5, q)) => Some((LifecycleV4::Terminal, q)),
        _ => None,
    }
}

fn take_v4_market_authority(b: &[u8], pos: usize) -> (r: Option<(MarketAuthorityV4, usize)>)
    requires
        pos <= b@.len(),
    ensures
        match v4_market_authority_at(b@, pos as int) {
            Some((m, e)) => r matches Some((v, end)) && v == m && end == e,
            None => r is None,
        },
        r matches Some((_, end)) ==> pos < end <= b@.len(),
{
    proof {
        reveal(v4_market_authority_at);
    }
    match take_fu32(b, pos) {
        Some((0, q)) => Some((MarketAuthorityV4::Current, q)),
        Some((1, q)) => Some((MarketAuthorityV4::Uncertain, q)),
        _ => None,
    }
}

fn take_v4_gate_status(b: &[u8], pos: usize) -> (r: Option<(GateStatusV4, usize)>)
    requires
        pos <= b@.len(),
    ensures
        match v4_gate_status_at(b@, pos as int) {
            Some((m, e)) => r matches Some((v, end)) && v == m && end == e,
            None => r is None,
        },
        r matches Some((_, end)) ==> pos < end <= b@.len(),
{
    proof {
        reveal(v4_gate_status_at);
    }
    match take_fu32(b, pos) {
        Some((0, q)) => Some((GateStatusV4::Open, q)),
        Some((1, q)) => Some((GateStatusV4::ClosedFinanceUnavailable, q)),
        Some((2, q)) => Some((GateStatusV4::ClosedAdmissionDenied, q)),
        Some((3, q)) => Some((GateStatusV4::ClosedRecoveryRequired, q)),
        _ => None,
    }
}

fn take_v4_provenance_part0(b: &[u8], pos: usize) -> (r: Option<((String, String, Option<String>, Option<u64>, Option<u64>, Option<u64>, Option<u64>, Option<u64>), usize)>)
    requires
        pos <= b@.len(),
    ensures
        match v4_provenance_part0_at(b@, pos as int) {
            Some((m, e)) => r matches Some((v, end)) && v.0@ == m.0 && v.1@ == m.1 && v4_opt_string_model(v.2) == m.2 && v.3 == m.3 && v.4 == m.4 && v.5 == m.5 && v.6 == m.6 && v.7 == m.7 && end == e,
            None => r is None,
        },
        r matches Some((_, end)) ==> pos < end <= b@.len(),
{
    proof {
        reveal(v4_provenance_part0_at);
    }
    let (provider, p1) = match take_fstr(b, pos) {
        Some(x) => x,
        None => return None,
    };
    let (source, p2) = match take_fstr(b, p1) {
        Some(x) => x,
        None => return None,
    };
    let (event_id, p3) = match take_v4_opt_string(b, p2) {
        Some(x) => x,
        None => return None,
    };
    let (connection_epoch, p4) = match take_v4_opt_u64(b, p3) {
        Some(x) => x,
        None => return None,
    };
    let (sid, p5) = match take_v4_opt_u64(b, p4) {
        Some(x) => x,
        None => return None,
    };
    let (sequence, p6) = match take_v4_opt_u64(b, p5) {
        Some(x) => x,
        None => return None,
    };
    let (city_sequence, p7) = match take_v4_opt_u64(b, p6) {
        Some(x) => x,
        None => return None,
    };
    let (producer_sequence, p8) = match take_v4_opt_u64(b, p7) {
        Some(x) => x,
        None => return None,
    };
    Some(((provider, source, event_id, connection_epoch, sid, sequence, city_sequence, producer_sequence), p8))
}

fn take_v4_provenance_part1(b: &[u8], pos: usize) -> (r: Option<((Option<u64>, Option<i64>, i64), usize)>)
    requires
        pos <= b@.len(),
    ensures
        match v4_provenance_part1_at(b@, pos as int) {
            Some((m, e)) => r matches Some((v, end)) && v.0 == m.0 && v.1 == m.1 && v.2 == m.2 && end == e,
            None => r is None,
        },
        r matches Some((_, end)) ==> pos < end <= b@.len(),
{
    proof {
        reveal(v4_provenance_part1_at);
    }
    let (received_frame_ordinal, p1) = match take_v4_opt_u64(b, pos) {
        Some(x) => x,
        None => return None,
    };
    let (provider_at_unix_ms, p2) = match take_v4_opt_i64(b, p1) {
        Some(x) => x,
        None => return None,
    };
    let (received_at_unix_ms, p3) = match take_fi64(b, p2) {
        Some(x) => x,
        None => return None,
    };
    Some(((received_frame_ordinal, provider_at_unix_ms, received_at_unix_ms), p3))
}

fn take_v4_provenance(b: &[u8], pos: usize) -> (r: Option<(ProvenanceV4, usize)>)
    requires
        pos <= b@.len(),
    ensures
        match v4_provenance_at(b@, pos as int) {
            Some((m, e)) => r matches Some((v, end)) && v@ == m && end == e,
            None => r is None,
        },
        r matches Some((_, end)) ==> pos < end <= b@.len(),
{
    proof {
        reveal(v4_provenance_at);
    }
    let (c0, q1) = match take_v4_provenance_part0(b, pos) {
        Some(x) => x,
        None => return None,
    };
    let (c1, q2) = match take_v4_provenance_part1(b, q1) {
        Some(x) => x,
        None => return None,
    };
    let (provider, source, event_id, connection_epoch, sid, sequence, city_sequence, producer_sequence) = c0;
    let (received_frame_ordinal, provider_at_unix_ms, received_at_unix_ms) = c1;
    Some((ProvenanceV4 { provider, source, event_id, connection_epoch, sid, sequence, city_sequence, producer_sequence, received_frame_ordinal, provider_at_unix_ms, received_at_unix_ms }, q2))
}

fn take_v4_evidence(b: &[u8], pos: usize) -> (r: Option<(EvidenceV4, usize)>)
    requires
        pos <= b@.len(),
    ensures
        match v4_evidence_at(b@, pos as int) {
            Some((m, e)) => r matches Some((v, end)) && v@ == m && end == e,
            None => r is None,
        },
        r matches Some((_, end)) ==> pos < end <= b@.len(),
{
    proof {
        reveal(v4_evidence_at);
    }
    let (kind, p1) = match take_fstr(b, pos) {
        Some(x) => x,
        None => return None,
    };
    let (sha256, p2) = match take_array32(b, p1) {
        Some(x) => x,
        None => return None,
    };
    let (reference, p3) = match take_fstr(b, p2) {
        Some(x) => x,
        None => return None,
    };
    let (byte_count, p4) = match take_fu64(b, p3) {
        Some(x) => x,
        None => return None,
    };
    Some((EvidenceV4 { kind, sha256, reference, byte_count }, p4))
}

fn take_v4_component_meta(b: &[u8], pos: usize) -> (r: Option<(ComponentMetaV4, usize)>)
    requires
        pos <= b@.len(),
    ensures
        match v4_component_meta_at(b@, pos as int) {
            Some((m, e)) => r matches Some((v, end)) && v@ == m && end == e,
            None => r is None,
        },
        r matches Some((_, end)) ==> pos < end <= b@.len(),
{
    proof {
        reveal(v4_component_meta_at);
    }
    let (authority, p1) = match take_v4_authority(b, pos) {
        Some(x) => x,
        None => return None,
    };
    let (revision, p2) = match take_fu64(b, p1) {
        Some(x) => x,
        None => return None,
    };
    let (generation, p3) = match take_fu64(b, p2) {
        Some(x) => x,
        None => return None,
    };
    let (updated_at_unix_ms, p4) = match take_v4_opt_i64(b, p3) {
        Some(x) => x,
        None => return None,
    };
    let (expected_version, p5) = match take_v4_opt_string(b, p4) {
        Some(x) => x,
        None => return None,
    };
    let (provenance, p6) = match take_v4_list_provenance(b, p5) {
        Some(x) => x,
        None => return None,
    };
    let (refresh_error, p7) = match take_v4_opt_string(b, p6) {
        Some(x) => x,
        None => return None,
    };
    Some((ComponentMetaV4 { authority, revision, generation, updated_at_unix_ms, expected_version, provenance, refresh_error }, p7))
}

fn take_v4_station_identity(b: &[u8], pos: usize) -> (r: Option<(StationIdentityV4, usize)>)
    requires
        pos <= b@.len(),
    ensures
        match v4_station_identity_at(b@, pos as int) {
            Some((m, e)) => r matches Some((v, end)) && v@ == m && end == e,
            None => r is None,
        },
        r matches Some((_, end)) ==> pos < end <= b@.len(),
{
    proof {
        reveal(v4_station_identity_at);
    }
    let (station_id, p1) = match take_fstr(b, pos) {
        Some(x) => x,
        None => return None,
    };
    let (city_id, p2) = match take_v4_opt_string(b, p1) {
        Some(x) => x,
        None => return None,
    };
    let (city_slug, p3) = match take_v4_opt_string(b, p2) {
        Some(x) => x,
        None => return None,
    };
    let (logical_location, p4) = match take_fstr(b, p3) {
        Some(x) => x,
        None => return None,
    };
    let (name, p5) = match take_v4_opt_string(b, p4) {
        Some(x) => x,
        None => return None,
    };
    let (latitude_micros, p6) = match take_v4_opt_i64(b, p5) {
        Some(x) => x,
        None => return None,
    };
    let (longitude_micros, p7) = match take_v4_opt_i64(b, p6) {
        Some(x) => x,
        None => return None,
    };
    let (timezone, p8) = match take_fstr(b, p7) {
        Some(x) => x,
        None => return None,
    };
    Some((StationIdentityV4 { station_id, city_id, city_slug, logical_location, name, latitude_micros, longitude_micros, timezone }, p8))
}

fn take_v4_observation_part0(b: &[u8], pos: usize) -> (r: Option<((String, i64, Option<i64>, Option<i64>, Option<i64>, Option<i64>, bool, Option<String>), usize)>)
    requires
        pos <= b@.len(),
    ensures
        match v4_observation_part0_at(b@, pos as int) {
            Some((m, e)) => r matches Some((v, end)) && v.0@ == m.0 && v.1 == m.1 && v.2 == m.2 && v.3 == m.3 && v.4 == m.4 && v.5 == m.5 && v.6 == m.6 && v4_opt_string_model(v.7) == m.7 && end == e,
            None => r is None,
        },
        r matches Some((_, end)) ==> pos < end <= b@.len(),
{
    proof {
        reveal(v4_observation_part0_at);
    }
    let (station_id, p1) = match take_fstr(b, pos) {
        Some(x) => x,
        None => return None,
    };
    let (observed_at_unix_ms, p2) = match take_fi64(b, p1) {
        Some(x) => x,
        None => return None,
    };
    let (source_timestamp_unix_ms, p3) = match take_v4_opt_i64(b, p2) {
        Some(x) => x,
        None => return None,
    };
    let (producer_received_at_unix_ms, p4) = match take_v4_opt_i64(b, p3) {
        Some(x) => x,
        None => return None,
    };
    let (live_published_at_unix_ms, p5) = match take_v4_opt_i64(b, p4) {
        Some(x) => x,
        None => return None,
    };
    let (lag_ms, p6) = match take_v4_opt_i64(b, p5) {
        Some(x) => x,
        None => return None,
    };
    let (preliminary, p7) = match take_bool(b, p6) {
        Some(x) => x,
        None => return None,
    };
    let (persistence_status, p8) = match take_v4_opt_string(b, p7) {
        Some(x) => x,
        None => return None,
    };
    Some(((station_id, observed_at_unix_ms, source_timestamp_unix_ms, producer_received_at_unix_ms, live_published_at_unix_ms, lag_ms, preliminary, persistence_status), p8))
}

fn take_v4_observation_part1(b: &[u8], pos: usize) -> (r: Option<((Option<i32>, Option<i32>, Option<i32>, Option<i32>, Option<i32>, Option<i32>, Option<i64>, Option<i64>), usize)>)
    requires
        pos <= b@.len(),
    ensures
        match v4_observation_part1_at(b@, pos as int) {
            Some((m, e)) => r matches Some((v, end)) && v.0 == m.0 && v.1 == m.1 && v.2 == m.2 && v.3 == m.3 && v.4 == m.4 && v.5 == m.5 && v.6 == m.6 && v.7 == m.7 && end == e,
            None => r is None,
        },
        r matches Some((_, end)) ==> pos < end <= b@.len(),
{
    proof {
        reveal(v4_observation_part1_at);
    }
    let (temperature_milli_c, p1) = match take_v4_opt_i32(b, pos) {
        Some(x) => x,
        None => return None,
    };
    let (temperature_min_milli_c, p2) = match take_v4_opt_i32(b, p1) {
        Some(x) => x,
        None => return None,
    };
    let (temperature_max_milli_c, p3) = match take_v4_opt_i32(b, p2) {
        Some(x) => x,
        None => return None,
    };
    let (wu_current_temperature_milli_c, p4) = match take_v4_opt_i32(b, p3) {
        Some(x) => x,
        None => return None,
    };
    let (wu_daily_high_milli_c, p5) = match take_v4_opt_i32(b, p4) {
        Some(x) => x,
        None => return None,
    };
    let (wu_daily_low_milli_c, p6) = match take_v4_opt_i32(b, p5) {
        Some(x) => x,
        None => return None,
    };
    let (wu_observation_at_unix_ms, p7) = match take_v4_opt_i64(b, p6) {
        Some(x) => x,
        None => return None,
    };
    let (wu_fetched_at_unix_ms, p8) = match take_v4_opt_i64(b, p7) {
        Some(x) => x,
        None => return None,
    };
    Some(((temperature_milli_c, temperature_min_milli_c, temperature_max_milli_c, wu_current_temperature_milli_c, wu_daily_high_milli_c, wu_daily_low_milli_c, wu_observation_at_unix_ms, wu_fetched_at_unix_ms), p8))
}

fn take_v4_observation_part2(b: &[u8], pos: usize) -> (r: Option<((Option<String>, Option<String>, Option<String>, Option<String>, bool, Option<String>, Option<String>, Option<i64>), usize)>)
    requires
        pos <= b@.len(),
    ensures
        match v4_observation_part2_at(b@, pos as int) {
            Some((m, e)) => r matches Some((v, end)) && v4_opt_string_model(v.0) == m.0 && v4_opt_string_model(v.1) == m.1 && v4_opt_string_model(v.2) == m.2 && v4_opt_string_model(v.3) == m.3 && v.4 == m.4 && v4_opt_string_model(v.5) == m.5 && v4_opt_string_model(v.6) == m.6 && v.7 == m.7 && end == e,
            None => r is None,
        },
        r matches Some((_, end)) ==> pos < end <= b@.len(),
{
    proof {
        reveal(v4_observation_part2_at);
    }
    let (temperature_day_mode, p1) = match take_v4_opt_string(b, pos) {
        Some(x) => x,
        None => return None,
    };
    let (temperature_day_date, p2) = match take_v4_opt_string(b, p1) {
        Some(x) => x,
        None => return None,
    };
    let (wu_day_mode, p3) = match take_v4_opt_string(b, p2) {
        Some(x) => x,
        None => return None,
    };
    let (wu_day_date, p4) = match take_v4_opt_string(b, p3) {
        Some(x) => x,
        None => return None,
    };
    let (is_from_report, p5) = match take_bool(b, p4) {
        Some(x) => x,
        None => return None,
    };
    let (report_type, p6) = match take_v4_opt_string(b, p5) {
        Some(x) => x,
        None => return None,
    };
    let (source_report_id, p7) = match take_v4_opt_string(b, p6) {
        Some(x) => x,
        None => return None,
    };
    let (dewpoint_micros, p8) = match take_v4_opt_i64(b, p7) {
        Some(x) => x,
        None => return None,
    };
    Some(((temperature_day_mode, temperature_day_date, wu_day_mode, wu_day_date, is_from_report, report_type, source_report_id, dewpoint_micros), p8))
}

fn take_v4_observation_part3(b: &[u8], pos: usize) -> (r: Option<((Option<i64>, Option<i64>, Option<i64>, Option<i64>, Option<i64>, Option<i64>, Option<String>, ProvenanceV4), usize)>)
    requires
        pos <= b@.len(),
    ensures
        match v4_observation_part3_at(b@, pos as int) {
            Some((m, e)) => r matches Some((v, end)) && v.0 == m.0 && v.1 == m.1 && v.2 == m.2 && v.3 == m.3 && v.4 == m.4 && v.5 == m.5 && v4_opt_string_model(v.6) == m.6 && v.7@ == m.7 && end == e,
            None => r is None,
        },
        r matches Some((_, end)) ==> pos < end <= b@.len(),
{
    proof {
        reveal(v4_observation_part3_at);
    }
    let (heat_index_micros, p1) = match take_v4_opt_i64(b, pos) {
        Some(x) => x,
        None => return None,
    };
    let (wind_chill_micros, p2) = match take_v4_opt_i64(b, p1) {
        Some(x) => x,
        None => return None,
    };
    let (relative_humidity_micros, p3) = match take_v4_opt_i64(b, p2) {
        Some(x) => x,
        None => return None,
    };
    let (wind_speed_micros, p4) = match take_v4_opt_i64(b, p3) {
        Some(x) => x,
        None => return None,
    };
    let (wind_direction_micros, p5) = match take_v4_opt_i64(b, p4) {
        Some(x) => x,
        None => return None,
    };
    let (wind_gust_micros, p6) = match take_v4_opt_i64(b, p5) {
        Some(x) => x,
        None => return None,
    };
    let (text_description, p7) = match take_v4_opt_string(b, p6) {
        Some(x) => x,
        None => return None,
    };
    let (provenance, p8) = match take_v4_provenance(b, p7) {
        Some(x) => x,
        None => return None,
    };
    Some(((heat_index_micros, wind_chill_micros, relative_humidity_micros, wind_speed_micros, wind_direction_micros, wind_gust_micros, text_description, provenance), p8))
}

fn take_v4_observation(b: &[u8], pos: usize) -> (r: Option<(ObservationV4, usize)>)
    requires
        pos <= b@.len(),
    ensures
        match v4_observation_at(b@, pos as int) {
            Some((m, e)) => r matches Some((v, end)) && v@ == m && end == e,
            None => r is None,
        },
        r matches Some((_, end)) ==> pos < end <= b@.len(),
{
    proof {
        reveal(v4_observation_at);
    }
    let (c0, q1) = match take_v4_observation_part0(b, pos) {
        Some(x) => x,
        None => return None,
    };
    let (c1, q2) = match take_v4_observation_part1(b, q1) {
        Some(x) => x,
        None => return None,
    };
    let (c2, q3) = match take_v4_observation_part2(b, q2) {
        Some(x) => x,
        None => return None,
    };
    let (c3, q4) = match take_v4_observation_part3(b, q3) {
        Some(x) => x,
        None => return None,
    };
    let (station_id, observed_at_unix_ms, source_timestamp_unix_ms, producer_received_at_unix_ms, live_published_at_unix_ms, lag_ms, preliminary, persistence_status) = c0;
    let (temperature_milli_c, temperature_min_milli_c, temperature_max_milli_c, wu_current_temperature_milli_c, wu_daily_high_milli_c, wu_daily_low_milli_c, wu_observation_at_unix_ms, wu_fetched_at_unix_ms) = c1;
    let (temperature_day_mode, temperature_day_date, wu_day_mode, wu_day_date, is_from_report, report_type, source_report_id, dewpoint_micros) = c2;
    let (heat_index_micros, wind_chill_micros, relative_humidity_micros, wind_speed_micros, wind_direction_micros, wind_gust_micros, text_description, provenance) = c3;
    Some((ObservationV4 { station_id, observed_at_unix_ms, source_timestamp_unix_ms, producer_received_at_unix_ms, live_published_at_unix_ms, lag_ms, preliminary, persistence_status, temperature_milli_c, temperature_min_milli_c, temperature_max_milli_c, wu_current_temperature_milli_c, wu_daily_high_milli_c, wu_daily_low_milli_c, wu_observation_at_unix_ms, wu_fetched_at_unix_ms, temperature_day_mode, temperature_day_date, wu_day_mode, wu_day_date, is_from_report, report_type, source_report_id, dewpoint_micros, heat_index_micros, wind_chill_micros, relative_humidity_micros, wind_speed_micros, wind_direction_micros, wind_gust_micros, text_description, provenance }, q4))
}

fn take_v4_weather_part0(b: &[u8], pos: usize) -> (r: Option<((String, Option<i32>, Option<i32>, Option<i32>, Option<i64>, Option<i32>, Option<i32>, Option<i64>), usize)>)
    requires
        pos <= b@.len(),
    ensures
        match v4_weather_part0_at(b@, pos as int) {
            Some((m, e)) => r matches Some((v, end)) && v.0@ == m.0 && v.1 == m.1 && v.2 == m.2 && v.3 == m.3 && v.4 == m.4 && v.5 == m.5 && v.6 == m.6 && v.7 == m.7 && end == e,
            None => r is None,
        },
        r matches Some((_, end)) ==> pos < end <= b@.len(),
{
    proof {
        reveal(v4_weather_part0_at);
    }
    let (station_id, p1) = match take_fstr(b, pos) {
        Some(x) => x,
        None => return None,
    };
    let (current_temperature_milli_c, p2) = match take_v4_opt_i32(b, p1) {
        Some(x) => x,
        None => return None,
    };
    let (running_high_milli_c, p3) = match take_v4_opt_i32(b, p2) {
        Some(x) => x,
        None => return None,
    };
    let (running_low_milli_c, p4) = match take_v4_opt_i32(b, p3) {
        Some(x) => x,
        None => return None,
    };
    let (last_metar_at_unix_ms, p5) = match take_v4_opt_i64(b, p4) {
        Some(x) => x,
        None => return None,
    };
    let (dsm_high_milli_c, p6) = match take_v4_opt_i32(b, p5) {
        Some(x) => x,
        None => return None,
    };
    let (dsm_low_milli_c, p7) = match take_v4_opt_i32(b, p6) {
        Some(x) => x,
        None => return None,
    };
    let (dsm_high_at_unix_ms, p8) = match take_v4_opt_i64(b, p7) {
        Some(x) => x,
        None => return None,
    };
    Some(((station_id, current_temperature_milli_c, running_high_milli_c, running_low_milli_c, last_metar_at_unix_ms, dsm_high_milli_c, dsm_low_milli_c, dsm_high_at_unix_ms), p8))
}

fn take_v4_weather_part1(b: &[u8], pos: usize) -> (r: Option<((Option<i64>, Option<i32>, Option<i32>, Option<i32>, Option<i32>, Option<i32>, Option<i32>, Option<i32>), usize)>)
    requires
        pos <= b@.len(),
    ensures
        match v4_weather_part1_at(b@, pos as int) {
            Some((m, e)) => r matches Some((v, end)) && v.0 == m.0 && v.1 == m.1 && v.2 == m.2 && v.3 == m.3 && v.4 == m.4 && v.5 == m.5 && v.6 == m.6 && v.7 == m.7 && end == e,
            None => r is None,
        },
        r matches Some((_, end)) ==> pos < end <= b@.len(),
{
    proof {
        reveal(v4_weather_part1_at);
    }
    let (dsm_low_at_unix_ms, p1) = match take_v4_opt_i64(b, pos) {
        Some(x) => x,
        None => return None,
    };
    let (six_hour_high_milli_c, p2) = match take_v4_opt_i32(b, p1) {
        Some(x) => x,
        None => return None,
    };
    let (six_hour_low_milli_c, p3) = match take_v4_opt_i32(b, p2) {
        Some(x) => x,
        None => return None,
    };
    let (asos_daily_high_milli_c, p4) = match take_v4_opt_i32(b, p3) {
        Some(x) => x,
        None => return None,
    };
    let (asos_daily_low_milli_c, p5) = match take_v4_opt_i32(b, p4) {
        Some(x) => x,
        None => return None,
    };
    let (wu_current_temperature_milli_c, p6) = match take_v4_opt_i32(b, p5) {
        Some(x) => x,
        None => return None,
    };
    let (wu_daily_high_milli_c, p7) = match take_v4_opt_i32(b, p6) {
        Some(x) => x,
        None => return None,
    };
    let (wu_daily_low_milli_c, p8) = match take_v4_opt_i32(b, p7) {
        Some(x) => x,
        None => return None,
    };
    Some(((dsm_low_at_unix_ms, six_hour_high_milli_c, six_hour_low_milli_c, asos_daily_high_milli_c, asos_daily_low_milli_c, wu_current_temperature_milli_c, wu_daily_high_milli_c, wu_daily_low_milli_c), p8))
}

fn take_v4_weather_part2(b: &[u8], pos: usize) -> (r: Option<((Option<i64>, Option<i64>, Option<i64>, Option<i64>, Option<i64>, Option<i64>, Option<i64>, Option<String>), usize)>)
    requires
        pos <= b@.len(),
    ensures
        match v4_weather_part2_at(b@, pos as int) {
            Some((m, e)) => r matches Some((v, end)) && v.0 == m.0 && v.1 == m.1 && v.2 == m.2 && v.3 == m.3 && v.4 == m.4 && v.5 == m.5 && v.6 == m.6 && v4_opt_string_model(v.7) == m.7 && end == e,
            None => r is None,
        },
        r matches Some((_, end)) ==> pos < end <= b@.len(),
{
    proof {
        reveal(v4_weather_part2_at);
    }
    let (dewpoint_micros, p1) = match take_v4_opt_i64(b, pos) {
        Some(x) => x,
        None => return None,
    };
    let (heat_index_micros, p2) = match take_v4_opt_i64(b, p1) {
        Some(x) => x,
        None => return None,
    };
    let (wind_chill_micros, p3) = match take_v4_opt_i64(b, p2) {
        Some(x) => x,
        None => return None,
    };
    let (relative_humidity_micros, p4) = match take_v4_opt_i64(b, p3) {
        Some(x) => x,
        None => return None,
    };
    let (wind_speed_micros, p5) = match take_v4_opt_i64(b, p4) {
        Some(x) => x,
        None => return None,
    };
    let (wind_direction_micros, p6) = match take_v4_opt_i64(b, p5) {
        Some(x) => x,
        None => return None,
    };
    let (wind_gust_micros, p7) = match take_v4_opt_i64(b, p6) {
        Some(x) => x,
        None => return None,
    };
    let (text_description, p8) = match take_v4_opt_string(b, p7) {
        Some(x) => x,
        None => return None,
    };
    Some(((dewpoint_micros, heat_index_micros, wind_chill_micros, relative_humidity_micros, wind_speed_micros, wind_direction_micros, wind_gust_micros, text_description), p8))
}

fn take_v4_weather_part3(b: &[u8], pos: usize) -> (r: Option<((bool,), usize)>)
    requires
        pos <= b@.len(),
    ensures
        match v4_weather_part3_at(b@, pos as int) {
            Some((m, e)) => r matches Some((v, end)) && v.0 == m.0 && end == e,
            None => r is None,
        },
        r matches Some((_, end)) ==> pos < end <= b@.len(),
{
    proof {
        reveal(v4_weather_part3_at);
    }
    let (preliminary, p1) = match take_bool(b, pos) {
        Some(x) => x,
        None => return None,
    };
    Some(((preliminary,), p1))
}

fn take_v4_weather(b: &[u8], pos: usize) -> (r: Option<(WeatherV4, usize)>)
    requires
        pos <= b@.len(),
    ensures
        match v4_weather_at(b@, pos as int) {
            Some((m, e)) => r matches Some((v, end)) && v@ == m && end == e,
            None => r is None,
        },
        r matches Some((_, end)) ==> pos < end <= b@.len(),
{
    proof {
        reveal(v4_weather_at);
    }
    let (c0, q1) = match take_v4_weather_part0(b, pos) {
        Some(x) => x,
        None => return None,
    };
    let (c1, q2) = match take_v4_weather_part1(b, q1) {
        Some(x) => x,
        None => return None,
    };
    let (c2, q3) = match take_v4_weather_part2(b, q2) {
        Some(x) => x,
        None => return None,
    };
    let (c3, q4) = match take_v4_weather_part3(b, q3) {
        Some(x) => x,
        None => return None,
    };
    let (station_id, current_temperature_milli_c, running_high_milli_c, running_low_milli_c, last_metar_at_unix_ms, dsm_high_milli_c, dsm_low_milli_c, dsm_high_at_unix_ms) = c0;
    let (dsm_low_at_unix_ms, six_hour_high_milli_c, six_hour_low_milli_c, asos_daily_high_milli_c, asos_daily_low_milli_c, wu_current_temperature_milli_c, wu_daily_high_milli_c, wu_daily_low_milli_c) = c1;
    let (dewpoint_micros, heat_index_micros, wind_chill_micros, relative_humidity_micros, wind_speed_micros, wind_direction_micros, wind_gust_micros, text_description) = c2;
    let (preliminary,) = c3;
    Some((WeatherV4 { station_id, current_temperature_milli_c, running_high_milli_c, running_low_milli_c, last_metar_at_unix_ms, dsm_high_milli_c, dsm_low_milli_c, dsm_high_at_unix_ms, dsm_low_at_unix_ms, six_hour_high_milli_c, six_hour_low_milli_c, asos_daily_high_milli_c, asos_daily_low_milli_c, wu_current_temperature_milli_c, wu_daily_high_milli_c, wu_daily_low_milli_c, dewpoint_micros, heat_index_micros, wind_chill_micros, relative_humidity_micros, wind_speed_micros, wind_direction_micros, wind_gust_micros, text_description, preliminary }, q4))
}

fn take_v4_extreme_part0(b: &[u8], pos: usize) -> (r: Option<((i32, Option<i32>, Option<i64>, Option<String>, Option<String>, bool, Option<String>, Option<String>), usize)>)
    requires
        pos <= b@.len(),
    ensures
        match v4_extreme_part0_at(b@, pos as int) {
            Some((m, e)) => r matches Some((v, end)) && v.0 == m.0 && v.1 == m.1 && v.2 == m.2 && v4_opt_string_model(v.3) == m.3 && v4_opt_string_model(v.4) == m.4 && v.5 == m.5 && v4_opt_string_model(v.6) == m.6 && v4_opt_string_model(v.7) == m.7 && end == e,
            None => r is None,
        },
        r matches Some((_, end)) ==> pos < end <= b@.len(),
{
    proof {
        reveal(v4_extreme_part0_at);
    }
    let (value_milli_c, p1) = match take_fi32(b, pos) {
        Some(x) => x,
        None => return None,
    };
    let (previous_value_milli_c, p2) = match take_v4_opt_i32(b, p1) {
        Some(x) => x,
        None => return None,
    };
    let (observed_at_unix_ms, p3) = match take_v4_opt_i64(b, p2) {
        Some(x) => x,
        None => return None,
    };
    let (temperature_day_mode, p4) = match take_v4_opt_string(b, p3) {
        Some(x) => x,
        None => return None,
    };
    let (temperature_day_date, p5) = match take_v4_opt_string(b, p4) {
        Some(x) => x,
        None => return None,
    };
    let (is_from_report, p6) = match take_bool(b, p5) {
        Some(x) => x,
        None => return None,
    };
    let (report_type, p7) = match take_v4_opt_string(b, p6) {
        Some(x) => x,
        None => return None,
    };
    let (source_report_id, p8) = match take_v4_opt_string(b, p7) {
        Some(x) => x,
        None => return None,
    };
    Some(((value_milli_c, previous_value_milli_c, observed_at_unix_ms, temperature_day_mode, temperature_day_date, is_from_report, report_type, source_report_id), p8))
}

fn take_v4_extreme_part1(b: &[u8], pos: usize) -> (r: Option<((ProvenanceV4,), usize)>)
    requires
        pos <= b@.len(),
    ensures
        match v4_extreme_part1_at(b@, pos as int) {
            Some((m, e)) => r matches Some((v, end)) && v.0@ == m.0 && end == e,
            None => r is None,
        },
        r matches Some((_, end)) ==> pos < end <= b@.len(),
{
    proof {
        reveal(v4_extreme_part1_at);
    }
    let (provenance, p1) = match take_v4_provenance(b, pos) {
        Some(x) => x,
        None => return None,
    };
    Some(((provenance,), p1))
}

fn take_v4_extreme(b: &[u8], pos: usize) -> (r: Option<(ExtremeV4, usize)>)
    requires
        pos <= b@.len(),
    ensures
        match v4_extreme_at(b@, pos as int) {
            Some((m, e)) => r matches Some((v, end)) && v@ == m && end == e,
            None => r is None,
        },
        r matches Some((_, end)) ==> pos < end <= b@.len(),
{
    proof {
        reveal(v4_extreme_at);
    }
    let (c0, q1) = match take_v4_extreme_part0(b, pos) {
        Some(x) => x,
        None => return None,
    };
    let (c1, q2) = match take_v4_extreme_part1(b, q1) {
        Some(x) => x,
        None => return None,
    };
    let (value_milli_c, previous_value_milli_c, observed_at_unix_ms, temperature_day_mode, temperature_day_date, is_from_report, report_type, source_report_id) = c0;
    let (provenance,) = c1;
    Some((ExtremeV4 { value_milli_c, previous_value_milli_c, observed_at_unix_ms, temperature_day_mode, temperature_day_date, is_from_report, report_type, source_report_id, provenance }, q2))
}

fn take_v4_extrema(b: &[u8], pos: usize) -> (r: Option<(ExtremaV4, usize)>)
    requires
        pos <= b@.len(),
    ensures
        match v4_extrema_at(b@, pos as int) {
            Some((m, e)) => r matches Some((v, end)) && v@ == m && end == e,
            None => r is None,
        },
        r matches Some((_, end)) ==> pos < end <= b@.len(),
{
    proof {
        reveal(v4_extrema_at);
    }
    let (high, p1) = match take_v4_opt_extreme(b, pos) {
        Some(x) => x,
        None => return None,
    };
    let (low, p2) = match take_v4_opt_extreme(b, p1) {
        Some(x) => x,
        None => return None,
    };
    Some((ExtremaV4 { high, low }, p2))
}

fn take_v4_report_part0(b: &[u8], pos: usize) -> (r: Option<((String, String, String, AuthorityV4, u64, u64, Option<i64>, Option<i64>), usize)>)
    requires
        pos <= b@.len(),
    ensures
        match v4_report_part0_at(b@, pos as int) {
            Some((m, e)) => r matches Some((v, end)) && v.0@ == m.0 && v.1@ == m.1 && v.2@ == m.2 && v.3 == m.3 && v.4 == m.4 && v.5 == m.5 && v.6 == m.6 && v.7 == m.7 && end == e,
            None => r is None,
        },
        r matches Some((_, end)) ==> pos < end <= b@.len(),
{
    proof {
        reveal(v4_report_part0_at);
    }
    let (report_id, p1) = match take_fstr(b, pos) {
        Some(x) => x,
        None => return None,
    };
    let (report_type, p2) = match take_fstr(b, p1) {
        Some(x) => x,
        None => return None,
    };
    let (report_date, p3) = match take_fstr(b, p2) {
        Some(x) => x,
        None => return None,
    };
    let (authority, p4) = match take_v4_authority(b, p3) {
        Some(x) => x,
        None => return None,
    };
    let (revision, p5) = match take_fu64(b, p4) {
        Some(x) => x,
        None => return None,
    };
    let (generation, p6) = match take_fu64(b, p5) {
        Some(x) => x,
        None => return None,
    };
    let (issued_at_unix_ms, p7) = match take_v4_opt_i64(b, p6) {
        Some(x) => x,
        None => return None,
    };
    let (updated_at_unix_ms, p8) = match take_v4_opt_i64(b, p7) {
        Some(x) => x,
        None => return None,
    };
    Some(((report_id, report_type, report_date, authority, revision, generation, issued_at_unix_ms, updated_at_unix_ms), p8))
}

fn take_v4_report_part1(b: &[u8], pos: usize) -> (r: Option<((Option<i64>, String, String, Option<i32>, Option<i32>, Option<i32>, Option<i32>, Option<i64>), usize)>)
    requires
        pos <= b@.len(),
    ensures
        match v4_report_part1_at(b@, pos as int) {
            Some((m, e)) => r matches Some((v, end)) && v.0 == m.0 && v.1@ == m.1 && v.2@ == m.2 && v.3 == m.3 && v.4 == m.4 && v.5 == m.5 && v.6 == m.6 && v.7 == m.7 && end == e,
            None => r is None,
        },
        r matches Some((_, end)) ==> pos < end <= b@.len(),
{
    proof {
        reveal(v4_report_part1_at);
    }
    let (fetched_at_unix_ms, p1) = match take_v4_opt_i64(b, pos) {
        Some(x) => x,
        None => return None,
    };
    let (provider, p2) = match take_fstr(b, p1) {
        Some(x) => x,
        None => return None,
    };
    let (source_url, p3) = match take_fstr(b, p2) {
        Some(x) => x,
        None => return None,
    };
    let (max_temperature_milli_c, p4) = match take_v4_opt_i32(b, p3) {
        Some(x) => x,
        None => return None,
    };
    let (min_temperature_milli_c, p5) = match take_v4_opt_i32(b, p4) {
        Some(x) => x,
        None => return None,
    };
    let (temperature_milli_c, p6) = match take_v4_opt_i32(b, p5) {
        Some(x) => x,
        None => return None,
    };
    let (temperature_milli_f, p7) = match take_v4_opt_i32(b, p6) {
        Some(x) => x,
        None => return None,
    };
    let (max_temperature_at_unix_ms, p8) = match take_v4_opt_i64(b, p7) {
        Some(x) => x,
        None => return None,
    };
    Some(((fetched_at_unix_ms, provider, source_url, max_temperature_milli_c, min_temperature_milli_c, temperature_milli_c, temperature_milli_f, max_temperature_at_unix_ms), p8))
}

fn take_v4_report_part2(b: &[u8], pos: usize) -> (r: Option<((Option<i64>, ProvenanceV4), usize)>)
    requires
        pos <= b@.len(),
    ensures
        match v4_report_part2_at(b@, pos as int) {
            Some((m, e)) => r matches Some((v, end)) && v.0 == m.0 && v.1@ == m.1 && end == e,
            None => r is None,
        },
        r matches Some((_, end)) ==> pos < end <= b@.len(),
{
    proof {
        reveal(v4_report_part2_at);
    }
    let (min_temperature_at_unix_ms, p1) = match take_v4_opt_i64(b, pos) {
        Some(x) => x,
        None => return None,
    };
    let (provenance, p2) = match take_v4_provenance(b, p1) {
        Some(x) => x,
        None => return None,
    };
    Some(((min_temperature_at_unix_ms, provenance), p2))
}

fn take_v4_report(b: &[u8], pos: usize) -> (r: Option<(ReportV4, usize)>)
    requires
        pos <= b@.len(),
    ensures
        match v4_report_at(b@, pos as int) {
            Some((m, e)) => r matches Some((v, end)) && v@ == m && end == e,
            None => r is None,
        },
        r matches Some((_, end)) ==> pos < end <= b@.len(),
{
    proof {
        reveal(v4_report_at);
    }
    let (c0, q1) = match take_v4_report_part0(b, pos) {
        Some(x) => x,
        None => return None,
    };
    let (c1, q2) = match take_v4_report_part1(b, q1) {
        Some(x) => x,
        None => return None,
    };
    let (c2, q3) = match take_v4_report_part2(b, q2) {
        Some(x) => x,
        None => return None,
    };
    let (report_id, report_type, report_date, authority, revision, generation, issued_at_unix_ms, updated_at_unix_ms) = c0;
    let (fetched_at_unix_ms, provider, source_url, max_temperature_milli_c, min_temperature_milli_c, temperature_milli_c, temperature_milli_f, max_temperature_at_unix_ms) = c1;
    let (min_temperature_at_unix_ms, provenance) = c2;
    Some((ReportV4 { report_id, report_type, report_date, authority, revision, generation, issued_at_unix_ms, updated_at_unix_ms, fetched_at_unix_ms, provider, source_url, max_temperature_milli_c, min_temperature_milli_c, temperature_milli_c, temperature_milli_f, max_temperature_at_unix_ms, min_temperature_at_unix_ms, provenance }, q3))
}

fn take_v4_weather_event_source_part0(b: &[u8], pos: usize) -> (r: Option<((Option<String>, Option<String>, Option<String>, Option<String>, Option<i64>, Option<i64>, Option<i64>, Option<i64>), usize)>)
    requires
        pos <= b@.len(),
    ensures
        match v4_weather_event_source_part0_at(b@, pos as int) {
            Some((m, e)) => r matches Some((v, end)) && v4_opt_string_model(v.0) == m.0 && v4_opt_string_model(v.1) == m.1 && v4_opt_string_model(v.2) == m.2 && v4_opt_string_model(v.3) == m.3 && v.4 == m.4 && v.5 == m.5 && v.6 == m.6 && v.7 == m.7 && end == e,
            None => r is None,
        },
        r matches Some((_, end)) ==> pos < end <= b@.len(),
{
    proof {
        reveal(v4_weather_event_source_part0_at);
    }
    let (metar_type, p1) = match take_v4_opt_string(b, pos) {
        Some(x) => x,
        None => return None,
    };
    let (flight_category, p2) = match take_v4_opt_string(b, p1) {
        Some(x) => x,
        None => return None,
    };
    let (wx_string, p3) = match take_v4_opt_string(b, p2) {
        Some(x) => x,
        None => return None,
    };
    let (wx_token, p4) = match take_v4_opt_string(b, p3) {
        Some(x) => x,
        None => return None,
    };
    let (wind_speed_knots_micros, p5) = match take_v4_opt_i64(b, p4) {
        Some(x) => x,
        None => return None,
    };
    let (wind_gust_knots_micros, p6) = match take_v4_opt_i64(b, p5) {
        Some(x) => x,
        None => return None,
    };
    let (peak_wind_knots_micros, p7) = match take_v4_opt_i64(b, p6) {
        Some(x) => x,
        None => return None,
    };
    let (peak_wind_direction, p8) = match take_v4_opt_i64(b, p7) {
        Some(x) => x,
        None => return None,
    };
    Some(((metar_type, flight_category, wx_string, wx_token, wind_speed_knots_micros, wind_gust_knots_micros, peak_wind_knots_micros, peak_wind_direction), p8))
}

fn take_v4_weather_event_source_part1(b: &[u8], pos: usize) -> (r: Option<((Option<i64>, Option<String>), usize)>)
    requires
        pos <= b@.len(),
    ensures
        match v4_weather_event_source_part1_at(b@, pos as int) {
            Some((m, e)) => r matches Some((v, end)) && v.0 == m.0 && v4_opt_string_model(v.1) == m.1 && end == e,
            None => r is None,
        },
        r matches Some((_, end)) ==> pos < end <= b@.len(),
{
    proof {
        reveal(v4_weather_event_source_part1_at);
    }
    let (visibility_miles_micros, p1) = match take_v4_opt_i64(b, pos) {
        Some(x) => x,
        None => return None,
    };
    let (cb_location, p2) = match take_v4_opt_string(b, p1) {
        Some(x) => x,
        None => return None,
    };
    Some(((visibility_miles_micros, cb_location), p2))
}

fn take_v4_weather_event_source(b: &[u8], pos: usize) -> (r: Option<(WeatherEventSourceV4, usize)>)
    requires
        pos <= b@.len(),
    ensures
        match v4_weather_event_source_at(b@, pos as int) {
            Some((m, e)) => r matches Some((v, end)) && v@ == m && end == e,
            None => r is None,
        },
        r matches Some((_, end)) ==> pos < end <= b@.len(),
{
    proof {
        reveal(v4_weather_event_source_at);
    }
    let (c0, q1) = match take_v4_weather_event_source_part0(b, pos) {
        Some(x) => x,
        None => return None,
    };
    let (c1, q2) = match take_v4_weather_event_source_part1(b, q1) {
        Some(x) => x,
        None => return None,
    };
    let (metar_type, flight_category, wx_string, wx_token, wind_speed_knots_micros, wind_gust_knots_micros, peak_wind_knots_micros, peak_wind_direction) = c0;
    let (visibility_miles_micros, cb_location) = c1;
    Some((WeatherEventSourceV4 { metar_type, flight_category, wx_string, wx_token, wind_speed_knots_micros, wind_gust_knots_micros, peak_wind_knots_micros, peak_wind_direction, visibility_miles_micros, cb_location }, q2))
}

fn take_v4_weather_event_part0(b: &[u8], pos: usize) -> (r: Option<((String, String, String, String, AuthorityV4, u64, u64, String), usize)>)
    requires
        pos <= b@.len(),
    ensures
        match v4_weather_event_part0_at(b@, pos as int) {
            Some((m, e)) => r matches Some((v, end)) && v.0@ == m.0 && v.1@ == m.1 && v.2@ == m.2 && v.3@ == m.3 && v.4 == m.4 && v.5 == m.5 && v.6 == m.6 && v.7@ == m.7 && end == e,
            None => r is None,
        },
        r matches Some((_, end)) ==> pos < end <= b@.len(),
{
    proof {
        reveal(v4_weather_event_part0_at);
    }
    let (event_id, p1) = match take_fstr(b, pos) {
        Some(x) => x,
        None => return None,
    };
    let (event_type, p2) = match take_fstr(b, p1) {
        Some(x) => x,
        None => return None,
    };
    let (tier, p3) = match take_fstr(b, p2) {
        Some(x) => x,
        None => return None,
    };
    let (state, p4) = match take_fstr(b, p3) {
        Some(x) => x,
        None => return None,
    };
    let (authority, p5) = match take_v4_authority(b, p4) {
        Some(x) => x,
        None => return None,
    };
    let (revision, p6) = match take_fu64(b, p5) {
        Some(x) => x,
        None => return None,
    };
    let (generation, p7) = match take_fu64(b, p6) {
        Some(x) => x,
        None => return None,
    };
    let (name, p8) = match take_fstr(b, p7) {
        Some(x) => x,
        None => return None,
    };
    Some(((event_id, event_type, tier, state, authority, revision, generation, name), p8))
}

fn take_v4_weather_event_part1(b: &[u8], pos: usize) -> (r: Option<((String, String, String, Option<i64>, Option<i64>, Option<i64>, Option<WeatherEventSourceV4>, ProvenanceV4), usize)>)
    requires
        pos <= b@.len(),
    ensures
        match v4_weather_event_part1_at(b@, pos as int) {
            Some((m, e)) => r matches Some((v, end)) && v.0@ == m.0 && v.1@ == m.1 && v.2@ == m.2 && v.3 == m.3 && v.4 == m.4 && v.5 == m.5 && v4_opt_weather_event_source_model(v.6) == m.6 && v.7@ == m.7 && end == e,
            None => r is None,
        },
        r matches Some((_, end)) ==> pos < end <= b@.len(),
{
    proof {
        reveal(v4_weather_event_part1_at);
    }
    let (badge, p1) = match take_fstr(b, pos) {
        Some(x) => x,
        None => return None,
    };
    let (detail, p2) = match take_fstr(b, p1) {
        Some(x) => x,
        None => return None,
    };
    let (summary, p3) = match take_fstr(b, p2) {
        Some(x) => x,
        None => return None,
    };
    let (started_at_unix_ms, p4) = match take_v4_opt_i64(b, p3) {
        Some(x) => x,
        None => return None,
    };
    let (last_confirmed_at_unix_ms, p5) = match take_v4_opt_i64(b, p4) {
        Some(x) => x,
        None => return None,
    };
    let (ended_at_unix_ms, p6) = match take_v4_opt_i64(b, p5) {
        Some(x) => x,
        None => return None,
    };
    let (source, p7) = match take_v4_opt_weather_event_source(b, p6) {
        Some(x) => x,
        None => return None,
    };
    let (provenance, p8) = match take_v4_provenance(b, p7) {
        Some(x) => x,
        None => return None,
    };
    Some(((badge, detail, summary, started_at_unix_ms, last_confirmed_at_unix_ms, ended_at_unix_ms, source, provenance), p8))
}

fn take_v4_weather_event(b: &[u8], pos: usize) -> (r: Option<(WeatherEventV4, usize)>)
    requires
        pos <= b@.len(),
    ensures
        match v4_weather_event_at(b@, pos as int) {
            Some((m, e)) => r matches Some((v, end)) && v@ == m && end == e,
            None => r is None,
        },
        r matches Some((_, end)) ==> pos < end <= b@.len(),
{
    proof {
        reveal(v4_weather_event_at);
    }
    let (c0, q1) = match take_v4_weather_event_part0(b, pos) {
        Some(x) => x,
        None => return None,
    };
    let (c1, q2) = match take_v4_weather_event_part1(b, q1) {
        Some(x) => x,
        None => return None,
    };
    let (event_id, event_type, tier, state, authority, revision, generation, name) = c0;
    let (badge, detail, summary, started_at_unix_ms, last_confirmed_at_unix_ms, ended_at_unix_ms, source, provenance) = c1;
    Some((WeatherEventV4 { event_id, event_type, tier, state, authority, revision, generation, name, badge, detail, summary, started_at_unix_ms, last_confirmed_at_unix_ms, ended_at_unix_ms, source, provenance }, q2))
}

fn take_v4_forecast_point_part0(b: &[u8], pos: usize) -> (r: Option<((i64, Option<i32>, Option<i32>, Option<i64>, Option<i32>, Option<i64>, Option<i64>, Option<i32>), usize)>)
    requires
        pos <= b@.len(),
    ensures
        match v4_forecast_point_part0_at(b@, pos as int) {
            Some((m, e)) => r matches Some((v, end)) && v.0 == m.0 && v.1 == m.1 && v.2 == m.2 && v.3 == m.3 && v.4 == m.4 && v.5 == m.5 && v.6 == m.6 && v.7 == m.7 && end == e,
            None => r is None,
        },
        r matches Some((_, end)) ==> pos < end <= b@.len(),
{
    proof {
        reveal(v4_forecast_point_part0_at);
    }
    let (at_unix_ms, p1) = match take_fi64(b, pos) {
        Some(x) => x,
        None => return None,
    };
    let (temperature_milli_c, p2) = match take_v4_opt_i32(b, p1) {
        Some(x) => x,
        None => return None,
    };
    let (apparent_temperature_milli_c, p3) = match take_v4_opt_i32(b, p2) {
        Some(x) => x,
        None => return None,
    };
    let (humidity_millionths, p4) = match take_v4_opt_i64(b, p3) {
        Some(x) => x,
        None => return None,
    };
    let (dew_point_milli_c, p5) = match take_v4_opt_i32(b, p4) {
        Some(x) => x,
        None => return None,
    };
    let (pressure_msl_micros, p6) = match take_v4_opt_i64(b, p5) {
        Some(x) => x,
        None => return None,
    };
    let (wind_speed_micros, p7) = match take_v4_opt_i64(b, p6) {
        Some(x) => x,
        None => return None,
    };
    let (wind_direction_degrees, p8) = match take_v4_opt_i32(b, p7) {
        Some(x) => x,
        None => return None,
    };
    Some(((at_unix_ms, temperature_milli_c, apparent_temperature_milli_c, humidity_millionths, dew_point_milli_c, pressure_msl_micros, wind_speed_micros, wind_direction_degrees), p8))
}

fn take_v4_forecast_point_part1(b: &[u8], pos: usize) -> (r: Option<((Option<i64>, Option<i64>, Option<i64>, Option<i32>), usize)>)
    requires
        pos <= b@.len(),
    ensures
        match v4_forecast_point_part1_at(b@, pos as int) {
            Some((m, e)) => r matches Some((v, end)) && v.0 == m.0 && v.1 == m.1 && v.2 == m.2 && v.3 == m.3 && end == e,
            None => r is None,
        },
        r matches Some((_, end)) ==> pos < end <= b@.len(),
{
    proof {
        reveal(v4_forecast_point_part1_at);
    }
    let (wind_gust_micros, p1) = match take_v4_opt_i64(b, pos) {
        Some(x) => x,
        None => return None,
    };
    let (cloud_cover_millionths, p2) = match take_v4_opt_i64(b, p1) {
        Some(x) => x,
        None => return None,
    };
    let (precipitation_probability_millionths, p3) = match take_v4_opt_i64(b, p2) {
        Some(x) => x,
        None => return None,
    };
    let (weather_code, p4) = match take_v4_opt_i32(b, p3) {
        Some(x) => x,
        None => return None,
    };
    Some(((wind_gust_micros, cloud_cover_millionths, precipitation_probability_millionths, weather_code), p4))
}

fn take_v4_forecast_point(b: &[u8], pos: usize) -> (r: Option<(ForecastPointV4, usize)>)
    requires
        pos <= b@.len(),
    ensures
        match v4_forecast_point_at(b@, pos as int) {
            Some((m, e)) => r matches Some((v, end)) && v@ == m && end == e,
            None => r is None,
        },
        r matches Some((_, end)) ==> pos < end <= b@.len(),
{
    proof {
        reveal(v4_forecast_point_at);
    }
    let (c0, q1) = match take_v4_forecast_point_part0(b, pos) {
        Some(x) => x,
        None => return None,
    };
    let (c1, q2) = match take_v4_forecast_point_part1(b, q1) {
        Some(x) => x,
        None => return None,
    };
    let (at_unix_ms, temperature_milli_c, apparent_temperature_milli_c, humidity_millionths, dew_point_milli_c, pressure_msl_micros, wind_speed_micros, wind_direction_degrees) = c0;
    let (wind_gust_micros, cloud_cover_millionths, precipitation_probability_millionths, weather_code) = c1;
    Some((ForecastPointV4 { at_unix_ms, temperature_milli_c, apparent_temperature_milli_c, humidity_millionths, dew_point_milli_c, pressure_msl_micros, wind_speed_micros, wind_direction_degrees, wind_gust_micros, cloud_cover_millionths, precipitation_probability_millionths, weather_code }, q2))
}

fn take_v4_forecast_model(b: &[u8], pos: usize) -> (r: Option<(ForecastModelV4, usize)>)
    requires
        pos <= b@.len(),
    ensures
        match v4_forecast_model_at(b@, pos as int) {
            Some((m, e)) => r matches Some((v, end)) && v@ == m && end == e,
            None => r is None,
        },
        r matches Some((_, end)) ==> pos < end <= b@.len(),
{
    proof {
        reveal(v4_forecast_model_at);
    }
    let (model_id, p1) = match take_fstr(b, pos) {
        Some(x) => x,
        None => return None,
    };
    let (version, p2) = match take_fstr(b, p1) {
        Some(x) => x,
        None => return None,
    };
    let (run_id, p3) = match take_v4_opt_string(b, p2) {
        Some(x) => x,
        None => return None,
    };
    let (fetched_at_unix_ms, p4) = match take_v4_opt_i64(b, p3) {
        Some(x) => x,
        None => return None,
    };
    let (issued_at_unix_ms, p5) = match take_v4_opt_i64(b, p4) {
        Some(x) => x,
        None => return None,
    };
    let (timezone, p6) = match take_v4_opt_string(b, p5) {
        Some(x) => x,
        None => return None,
    };
    let (utc_offset_seconds, p7) = match take_v4_opt_i32(b, p6) {
        Some(x) => x,
        None => return None,
    };
    let (hourly, p8) = match take_v4_list_forecast_point(b, p7) {
        Some(x) => x,
        None => return None,
    };
    Some((ForecastModelV4 { model_id, version, run_id, fetched_at_unix_ms, issued_at_unix_ms, timezone, utc_offset_seconds, hourly }, p8))
}

fn take_v4_forecast(b: &[u8], pos: usize) -> (r: Option<(ForecastV4, usize)>)
    requires
        pos <= b@.len(),
    ensures
        match v4_forecast_at(b@, pos as int) {
            Some((m, e)) => r matches Some((v, end)) && v@ == m && end == e,
            None => r is None,
        },
        r matches Some((_, end)) ==> pos < end <= b@.len(),
{
    proof {
        reveal(v4_forecast_at);
    }
    let (advertised_versions, p1) = match take_v4_list_string_string_pair(b, pos) {
        Some(x) => x,
        None => return None,
    };
    let (models, p2) = match take_v4_list_forecast_model(b, p1) {
        Some(x) => x,
        None => return None,
    };
    Some((ForecastV4 { advertised_versions, models }, p2))
}

fn take_v4_oracle_query(b: &[u8], pos: usize) -> (r: Option<(OracleQueryV4, usize)>)
    requires
        pos <= b@.len(),
    ensures
        match v4_oracle_query_at(b@, pos as int) {
            Some((m, e)) => r matches Some((v, end)) && v@ == m && end == e,
            None => r is None,
        },
        r matches Some((_, end)) ==> pos < end <= b@.len(),
{
    proof {
        reveal(v4_oracle_query_at);
    }
    let (station_id, p1) = match take_fstr(b, pos) {
        Some(x) => x,
        None => return None,
    };
    let (mode, p2) = match take_fstr(b, p1) {
        Some(x) => x,
        None => return None,
    };
    let (rank_by, p3) = match take_v4_rank_by(b, p2) {
        Some(x) => x,
        None => return None,
    };
    let (days, p4) = match take_u8(b, p3) {
        Some(x) => x,
        None => return None,
    };
    Some((OracleQueryV4 { station_id, mode, rank_by, days }, p4))
}

fn take_v4_oracle_row_part0(b: &[u8], pos: usize) -> (r: Option<((u8, String, String, Option<bool>, Option<i64>, Option<i64>, Option<i64>, Option<i64>), usize)>)
    requires
        pos <= b@.len(),
    ensures
        match v4_oracle_row_part0_at(b@, pos as int) {
            Some((m, e)) => r matches Some((v, end)) && v.0 == m.0 && v.1@ == m.1 && v.2@ == m.2 && v.3 == m.3 && v.4 == m.4 && v.5 == m.5 && v.6 == m.6 && v.7 == m.7 && end == e,
            None => r is None,
        },
        r matches Some((_, end)) ==> pos < end <= b@.len(),
{
    proof {
        reveal(v4_oracle_row_part0_at);
    }
    let (rank, p1) = match take_u8(b, pos) {
        Some(x) => x,
        None => return None,
    };
    let (model_id, p2) = match take_fstr(b, p1) {
        Some(x) => x,
        None => return None,
    };
    let (model_name, p3) = match take_fstr(b, p2) {
        Some(x) => x,
        None => return None,
    };
    let (is_public, p4) = match take_v4_opt_bool(b, p3) {
        Some(x) => x,
        None => return None,
    };
    let (high_mae_millionths, p5) = match take_v4_opt_i64(b, p4) {
        Some(x) => x,
        None => return None,
    };
    let (low_mae_millionths, p6) = match take_v4_opt_i64(b, p5) {
        Some(x) => x,
        None => return None,
    };
    let (combined_mae_millionths, p7) = match take_v4_opt_i64(b, p6) {
        Some(x) => x,
        None => return None,
    };
    let (high_bias_millionths, p8) = match take_v4_opt_i64(b, p7) {
        Some(x) => x,
        None => return None,
    };
    Some(((rank, model_id, model_name, is_public, high_mae_millionths, low_mae_millionths, combined_mae_millionths, high_bias_millionths), p8))
}

fn take_v4_oracle_row_part1(b: &[u8], pos: usize) -> (r: Option<((Option<i64>, Option<u16>), usize)>)
    requires
        pos <= b@.len(),
    ensures
        match v4_oracle_row_part1_at(b@, pos as int) {
            Some((m, e)) => r matches Some((v, end)) && v.0 == m.0 && v.1 == m.1 && end == e,
            None => r is None,
        },
        r matches Some((_, end)) ==> pos < end <= b@.len(),
{
    proof {
        reveal(v4_oracle_row_part1_at);
    }
    let (low_bias_millionths, p1) = match take_v4_opt_i64(b, pos) {
        Some(x) => x,
        None => return None,
    };
    let (day_count, p2) = match take_v4_opt_u16(b, p1) {
        Some(x) => x,
        None => return None,
    };
    Some(((low_bias_millionths, day_count), p2))
}

fn take_v4_oracle_row(b: &[u8], pos: usize) -> (r: Option<(OracleRowV4, usize)>)
    requires
        pos <= b@.len(),
    ensures
        match v4_oracle_row_at(b@, pos as int) {
            Some((m, e)) => r matches Some((v, end)) && v@ == m && end == e,
            None => r is None,
        },
        r matches Some((_, end)) ==> pos < end <= b@.len(),
{
    proof {
        reveal(v4_oracle_row_at);
    }
    let (c0, q1) = match take_v4_oracle_row_part0(b, pos) {
        Some(x) => x,
        None => return None,
    };
    let (c1, q2) = match take_v4_oracle_row_part1(b, q1) {
        Some(x) => x,
        None => return None,
    };
    let (rank, model_id, model_name, is_public, high_mae_millionths, low_mae_millionths, combined_mae_millionths, high_bias_millionths) = c0;
    let (low_bias_millionths, day_count) = c1;
    Some((OracleRowV4 { rank, model_id, model_name, is_public, high_mae_millionths, low_mae_millionths, combined_mae_millionths, high_bias_millionths, low_bias_millionths, day_count }, q2))
}

fn take_v4_oracle_table(b: &[u8], pos: usize) -> (r: Option<(OracleTableV4, usize)>)
    requires
        pos <= b@.len(),
    ensures
        match v4_oracle_table_at(b@, pos as int) {
            Some((m, e)) => r matches Some((v, end)) && v@ == m && end == e,
            None => r is None,
        },
        r matches Some((_, end)) ==> pos < end <= b@.len(),
{
    proof {
        reveal(v4_oracle_table_at);
    }
    let (query, p1) = match take_v4_oracle_query(b, pos) {
        Some(x) => x,
        None => return None,
    };
    let (range_start, p2) = match take_fstr(b, p1) {
        Some(x) => x,
        None => return None,
    };
    let (range_end, p3) = match take_fstr(b, p2) {
        Some(x) => x,
        None => return None,
    };
    let (updated_at_unix_ms, p4) = match take_v4_opt_i64(b, p3) {
        Some(x) => x,
        None => return None,
    };
    let (rows, p5) = match take_v4_list_oracle_row(b, p4) {
        Some(x) => x,
        None => return None,
    };
    let (provenance, p6) = match take_v4_provenance(b, p5) {
        Some(x) => x,
        None => return None,
    };
    Some((OracleTableV4 { query, range_start, range_end, updated_at_unix_ms, rows, provenance }, p6))
}

fn take_v4_cursor(b: &[u8], pos: usize) -> (r: Option<(CursorV4, usize)>)
    requires
        pos <= b@.len(),
    ensures
        match v4_cursor_at(b@, pos as int) {
            Some((m, e)) => r matches Some((v, end)) && v@ == m && end == e,
            None => r is None,
        },
        r matches Some((_, end)) ==> pos < end <= b@.len(),
{
    proof {
        reveal(v4_cursor_at);
    }
    let (connection_generation, p1) = match take_fu64(b, pos) {
        Some(x) => x,
        None => return None,
    };
    let (event_id, p2) = match take_fstr(b, p1) {
        Some(x) => x,
        None => return None,
    };
    let (sequence, p3) = match take_fu64(b, p2) {
        Some(x) => x,
        None => return None,
    };
    let (city_sequence, p4) = match take_v4_opt_u64(b, p3) {
        Some(x) => x,
        None => return None,
    };
    let (emitted_at_unix_ms, p5) = match take_fi64(b, p4) {
        Some(x) => x,
        None => return None,
    };
    let (received_at_unix_ms, p6) = match take_fi64(b, p5) {
        Some(x) => x,
        None => return None,
    };
    let (snapshot_complete, p7) = match take_bool(b, p6) {
        Some(x) => x,
        None => return None,
    };
    Some((CursorV4 { connection_generation, event_id, sequence, city_sequence, emitted_at_unix_ms, received_at_unix_ms, snapshot_complete }, p7))
}

fn take_v4_station_part0(b: &[u8], pos: usize) -> (r: Option<((String, u64, String, i64, i64, StationIdentityV4, ComponentMetaV4, ObservationV4), usize)>)
    requires
        pos <= b@.len(),
    ensures
        match v4_station_part0_at(b@, pos as int) {
            Some((m, e)) => r matches Some((v, end)) && v.0@ == m.0 && v.1 == m.1 && v.2@ == m.2 && v.3 == m.3 && v.4 == m.4 && v.5@ == m.5 && v.6@ == m.6 && v.7@ == m.7 && end == e,
            None => r is None,
        },
        r matches Some((_, end)) ==> pos < end <= b@.len(),
{
    proof {
        reveal(v4_station_part0_at);
    }
    let (contract_version, p1) = match take_fstr(b, pos) {
        Some(x) => x,
        None => return None,
    };
    let (revision, p2) = match take_fu64(b, p1) {
        Some(x) => x,
        None => return None,
    };
    let (climate_event_date, p3) = match take_fstr(b, p2) {
        Some(x) => x,
        None => return None,
    };
    let (climate_day_start_utc_unix_ms, p4) = match take_fi64(b, p3) {
        Some(x) => x,
        None => return None,
    };
    let (climate_day_end_utc_unix_ms, p5) = match take_fi64(b, p4) {
        Some(x) => x,
        None => return None,
    };
    let (identity, p6) = match take_v4_station_identity(b, p5) {
        Some(x) => x,
        None => return None,
    };
    let (observation_meta, p7) = match take_v4_component_meta(b, p6) {
        Some(x) => x,
        None => return None,
    };
    let (observation, p8) = match take_v4_observation(b, p7) {
        Some(x) => x,
        None => return None,
    };
    Some(((contract_version, revision, climate_event_date, climate_day_start_utc_unix_ms, climate_day_end_utc_unix_ms, identity, observation_meta, observation), p8))
}

fn take_v4_station_part1(b: &[u8], pos: usize) -> (r: Option<((ComponentMetaV4, WeatherV4, ComponentMetaV4, ExtremaV4, ComponentMetaV4, Vec<ReportV4>, ComponentMetaV4, Vec<WeatherEventV4>), usize)>)
    requires
        pos <= b@.len(),
    ensures
        match v4_station_part1_at(b@, pos as int) {
            Some((m, e)) => r matches Some((v, end)) && v.0@ == m.0 && v.1@ == m.1 && v.2@ == m.2 && v.3@ == m.3 && v.4@ == m.4 && v.5@.map_values(v4_report_viewer()) == m.5 && v.6@ == m.6 && v.7@.map_values(v4_weather_event_viewer()) == m.7 && end == e,
            None => r is None,
        },
        r matches Some((_, end)) ==> pos < end <= b@.len(),
{
    proof {
        reveal(v4_station_part1_at);
    }
    let (weather_meta, p1) = match take_v4_component_meta(b, pos) {
        Some(x) => x,
        None => return None,
    };
    let (weather, p2) = match take_v4_weather(b, p1) {
        Some(x) => x,
        None => return None,
    };
    let (extrema_meta, p3) = match take_v4_component_meta(b, p2) {
        Some(x) => x,
        None => return None,
    };
    let (extrema, p4) = match take_v4_extrema(b, p3) {
        Some(x) => x,
        None => return None,
    };
    let (reports_meta, p5) = match take_v4_component_meta(b, p4) {
        Some(x) => x,
        None => return None,
    };
    let (reports, p6) = match take_v4_list_report(b, p5) {
        Some(x) => x,
        None => return None,
    };
    let (weather_events_meta, p7) = match take_v4_component_meta(b, p6) {
        Some(x) => x,
        None => return None,
    };
    let (weather_events, p8) = match take_v4_list_weather_event(b, p7) {
        Some(x) => x,
        None => return None,
    };
    Some(((weather_meta, weather, extrema_meta, extrema, reports_meta, reports, weather_events_meta, weather_events), p8))
}

fn take_v4_station_part2(b: &[u8], pos: usize) -> (r: Option<((ComponentMetaV4, ForecastV4, ComponentMetaV4, OracleTableV4, CursorV4, Vec<EvidenceV4>), usize)>)
    requires
        pos <= b@.len(),
    ensures
        match v4_station_part2_at(b@, pos as int) {
            Some((m, e)) => r matches Some((v, end)) && v.0@ == m.0 && v.1@ == m.1 && v.2@ == m.2 && v.3@ == m.3 && v.4@ == m.4 && v.5@.map_values(v4_evidence_viewer()) == m.5 && end == e,
            None => r is None,
        },
        r matches Some((_, end)) ==> pos < end <= b@.len(),
{
    proof {
        reveal(v4_station_part2_at);
    }
    let (forecast_meta, p1) = match take_v4_component_meta(b, pos) {
        Some(x) => x,
        None => return None,
    };
    let (forecast, p2) = match take_v4_forecast(b, p1) {
        Some(x) => x,
        None => return None,
    };
    let (oracle_meta, p3) = match take_v4_component_meta(b, p2) {
        Some(x) => x,
        None => return None,
    };
    let (oracle, p4) = match take_v4_oracle_table(b, p3) {
        Some(x) => x,
        None => return None,
    };
    let (provider_cursor, p5) = match take_v4_cursor(b, p4) {
        Some(x) => x,
        None => return None,
    };
    let (evidence, p6) = match take_v4_list_evidence(b, p5) {
        Some(x) => x,
        None => return None,
    };
    Some(((forecast_meta, forecast, oracle_meta, oracle, provider_cursor, evidence), p6))
}

fn take_v4_station(b: &[u8], pos: usize) -> (r: Option<(StationV4, usize)>)
    requires
        pos <= b@.len(),
    ensures
        match v4_station_at(b@, pos as int) {
            Some((m, e)) => r matches Some((v, end)) && v@ == m && end == e,
            None => r is None,
        },
        r matches Some((_, end)) ==> pos < end <= b@.len(),
{
    proof {
        reveal(v4_station_at);
    }
    let (c0, q1) = match take_v4_station_part0(b, pos) {
        Some(x) => x,
        None => return None,
    };
    let (c1, q2) = match take_v4_station_part1(b, q1) {
        Some(x) => x,
        None => return None,
    };
    let (c2, q3) = match take_v4_station_part2(b, q2) {
        Some(x) => x,
        None => return None,
    };
    let (contract_version, revision, climate_event_date, climate_day_start_utc_unix_ms, climate_day_end_utc_unix_ms, identity, observation_meta, observation) = c0;
    let (weather_meta, weather, extrema_meta, extrema, reports_meta, reports, weather_events_meta, weather_events) = c1;
    let (forecast_meta, forecast, oracle_meta, oracle, provider_cursor, evidence) = c2;
    Some((StationV4 { contract_version, revision, climate_event_date, climate_day_start_utc_unix_ms, climate_day_end_utc_unix_ms, identity, observation_meta, observation, weather_meta, weather, extrema_meta, extrema, reports_meta, reports, weather_events_meta, weather_events, forecast_meta, forecast, oracle_meta, oracle, provider_cursor, evidence }, q3))
}

fn take_v4_market_meta(b: &[u8], pos: usize) -> (r: Option<(MarketMetaV4, usize)>)
    requires
        pos <= b@.len(),
    ensures
        match v4_market_meta_at(b@, pos as int) {
            Some((m, e)) => r matches Some((v, end)) && v@ == m && end == e,
            None => r is None,
        },
        r matches Some((_, end)) ==> pos < end <= b@.len(),
{
    proof {
        reveal(v4_market_meta_at);
    }
    let (authority, p1) = match take_v4_authority(b, pos) {
        Some(x) => x,
        None => return None,
    };
    let (revision, p2) = match take_fu64(b, p1) {
        Some(x) => x,
        None => return None,
    };
    let (generation, p3) = match take_fu64(b, p2) {
        Some(x) => x,
        None => return None,
    };
    let (updated_at_unix_ms, p4) = match take_v4_opt_i64(b, p3) {
        Some(x) => x,
        None => return None,
    };
    let (expected_version, p5) = match take_v4_opt_string(b, p4) {
        Some(x) => x,
        None => return None,
    };
    let (refresh_error, p6) = match take_v4_opt_string(b, p5) {
        Some(x) => x,
        None => return None,
    };
    let (provenance, p7) = match take_v4_list_provenance(b, p6) {
        Some(x) => x,
        None => return None,
    };
    Some((MarketMetaV4 { authority, revision, generation, updated_at_unix_ms, expected_version, refresh_error, provenance }, p7))
}

fn take_v4_market_identity_part0(b: &[u8], pos: usize) -> (r: Option<((String, String, String, String, String, String, String, Option<i64>), usize)>)
    requires
        pos <= b@.len(),
    ensures
        match v4_market_identity_part0_at(b@, pos as int) {
            Some((m, e)) => r matches Some((v, end)) && v.0@ == m.0 && v.1@ == m.1 && v.2@ == m.2 && v.3@ == m.3 && v.4@ == m.4 && v.5@ == m.5 && v.6@ == m.6 && v.7 == m.7 && end == e,
            None => r is None,
        },
        r matches Some((_, end)) ==> pos < end <= b@.len(),
{
    proof {
        reveal(v4_market_identity_part0_at);
    }
    let (market_id, p1) = match take_fstr(b, pos) {
        Some(x) => x,
        None => return None,
    };
    let (opportunity_id, p2) = match take_fstr(b, p1) {
        Some(x) => x,
        None => return None,
    };
    let (venue, p3) = match take_fstr(b, p2) {
        Some(x) => x,
        None => return None,
    };
    let (event_ticker, p4) = match take_fstr(b, p3) {
        Some(x) => x,
        None => return None,
    };
    let (series_ticker, p5) = match take_fstr(b, p4) {
        Some(x) => x,
        None => return None,
    };
    let (strike_type, p6) = match take_fstr(b, p5) {
        Some(x) => x,
        None => return None,
    };
    let (fee_type, p7) = match take_fstr(b, p6) {
        Some(x) => x,
        None => return None,
    };
    let (fee_multiplier_millionths, p8) = match take_v4_opt_i64(b, p7) {
        Some(x) => x,
        None => return None,
    };
    Some(((market_id, opportunity_id, venue, event_ticker, series_ticker, strike_type, fee_type, fee_multiplier_millionths), p8))
}

fn take_v4_market_identity_part1(b: &[u8], pos: usize) -> (r: Option<((Option<i64>, Option<i64>, Option<i64>, Option<i64>, Option<i64>), usize)>)
    requires
        pos <= b@.len(),
    ensures
        match v4_market_identity_part1_at(b@, pos as int) {
            Some((m, e)) => r matches Some((v, end)) && v.0 == m.0 && v.1 == m.1 && v.2 == m.2 && v.3 == m.3 && v.4 == m.4 && end == e,
            None => r is None,
        },
        r matches Some((_, end)) ==> pos < end <= b@.len(),
{
    proof {
        reveal(v4_market_identity_part1_at);
    }
    let (floor_strike_milli_c, p1) = match take_v4_opt_i64(b, pos) {
        Some(x) => x,
        None => return None,
    };
    let (floor_strike_milli_f, p2) = match take_v4_opt_i64(b, p1) {
        Some(x) => x,
        None => return None,
    };
    let (cap_strike_milli_c, p3) = match take_v4_opt_i64(b, p2) {
        Some(x) => x,
        None => return None,
    };
    let (close_at_unix_ms, p4) = match take_v4_opt_i64(b, p3) {
        Some(x) => x,
        None => return None,
    };
    let (expiration_at_unix_ms, p5) = match take_v4_opt_i64(b, p4) {
        Some(x) => x,
        None => return None,
    };
    Some(((floor_strike_milli_c, floor_strike_milli_f, cap_strike_milli_c, close_at_unix_ms, expiration_at_unix_ms), p5))
}

fn take_v4_market_identity(b: &[u8], pos: usize) -> (r: Option<(MarketIdentityV4, usize)>)
    requires
        pos <= b@.len(),
    ensures
        match v4_market_identity_at(b@, pos as int) {
            Some((m, e)) => r matches Some((v, end)) && v@ == m && end == e,
            None => r is None,
        },
        r matches Some((_, end)) ==> pos < end <= b@.len(),
{
    proof {
        reveal(v4_market_identity_at);
    }
    let (c0, q1) = match take_v4_market_identity_part0(b, pos) {
        Some(x) => x,
        None => return None,
    };
    let (c1, q2) = match take_v4_market_identity_part1(b, q1) {
        Some(x) => x,
        None => return None,
    };
    let (market_id, opportunity_id, venue, event_ticker, series_ticker, strike_type, fee_type, fee_multiplier_millionths) = c0;
    let (floor_strike_milli_c, floor_strike_milli_f, cap_strike_milli_c, close_at_unix_ms, expiration_at_unix_ms) = c1;
    Some((MarketIdentityV4 { market_id, opportunity_id, venue, event_ticker, series_ticker, strike_type, fee_type, fee_multiplier_millionths, floor_strike_milli_c, floor_strike_milli_f, cap_strike_milli_c, close_at_unix_ms, expiration_at_unix_ms }, q2))
}

fn take_v4_market_lifecycle(b: &[u8], pos: usize) -> (r: Option<(MarketLifecycleV4, usize)>)
    requires
        pos <= b@.len(),
    ensures
        match v4_market_lifecycle_at(b@, pos as int) {
            Some((m, e)) => r matches Some((v, end)) && v@ == m && end == e,
            None => r is None,
        },
        r matches Some((_, end)) ==> pos < end <= b@.len(),
{
    proof {
        reveal(v4_market_lifecycle_at);
    }
    let (status, p1) = match take_fstr(b, pos) {
        Some(x) => x,
        None => return None,
    };
    let (result, p2) = match take_v4_opt_string(b, p1) {
        Some(x) => x,
        None => return None,
    };
    let (connection_epoch, p3) = match take_v4_opt_u64(b, p2) {
        Some(x) => x,
        None => return None,
    };
    let (received_frame_ordinal, p4) = match take_v4_opt_u64(b, p3) {
        Some(x) => x,
        None => return None,
    };
    let (open_at_unix_ms, p5) = match take_v4_opt_i64(b, p4) {
        Some(x) => x,
        None => return None,
    };
    let (close_at_unix_ms, p6) = match take_v4_opt_i64(b, p5) {
        Some(x) => x,
        None => return None,
    };
    let (settled_at_unix_ms, p7) = match take_v4_opt_i64(b, p6) {
        Some(x) => x,
        None => return None,
    };
    let (updated_at_unix_ms, p8) = match take_v4_opt_i64(b, p7) {
        Some(x) => x,
        None => return None,
    };
    Some((MarketLifecycleV4 { status, result, connection_epoch, received_frame_ordinal, open_at_unix_ms, close_at_unix_ms, settled_at_unix_ms, updated_at_unix_ms }, p8))
}

fn take_v4_ticker_part0(b: &[u8], pos: usize) -> (r: Option<((Option<u64>, Option<u64>, Option<u64>, Option<u64>, Option<u64>, Option<u64>, Option<u64>, Option<u64>), usize)>)
    requires
        pos <= b@.len(),
    ensures
        match v4_ticker_part0_at(b@, pos as int) {
            Some((m, e)) => r matches Some((v, end)) && v.0 == m.0 && v.1 == m.1 && v.2 == m.2 && v.3 == m.3 && v.4 == m.4 && v.5 == m.5 && v.6 == m.6 && v.7 == m.7 && end == e,
            None => r is None,
        },
        r matches Some((_, end)) ==> pos < end <= b@.len(),
{
    proof {
        reveal(v4_ticker_part0_at);
    }
    let (yes_bid_micros, p1) = match take_v4_opt_u64(b, pos) {
        Some(x) => x,
        None => return None,
    };
    let (yes_ask_micros, p2) = match take_v4_opt_u64(b, p1) {
        Some(x) => x,
        None => return None,
    };
    let (no_bid_micros, p3) = match take_v4_opt_u64(b, p2) {
        Some(x) => x,
        None => return None,
    };
    let (no_ask_micros, p4) = match take_v4_opt_u64(b, p3) {
        Some(x) => x,
        None => return None,
    };
    let (yes_bid_quantity_hundredths, p5) = match take_v4_opt_u64(b, p4) {
        Some(x) => x,
        None => return None,
    };
    let (yes_ask_quantity_hundredths, p6) = match take_v4_opt_u64(b, p5) {
        Some(x) => x,
        None => return None,
    };
    let (no_bid_quantity_hundredths, p7) = match take_v4_opt_u64(b, p6) {
        Some(x) => x,
        None => return None,
    };
    let (no_ask_quantity_hundredths, p8) = match take_v4_opt_u64(b, p7) {
        Some(x) => x,
        None => return None,
    };
    Some(((yes_bid_micros, yes_ask_micros, no_bid_micros, no_ask_micros, yes_bid_quantity_hundredths, yes_ask_quantity_hundredths, no_bid_quantity_hundredths, no_ask_quantity_hundredths), p8))
}

fn take_v4_ticker_part1(b: &[u8], pos: usize) -> (r: Option<((Option<u64>, Option<u64>, Option<u64>, Option<u64>, Option<u64>, Option<i64>), usize)>)
    requires
        pos <= b@.len(),
    ensures
        match v4_ticker_part1_at(b@, pos as int) {
            Some((m, e)) => r matches Some((v, end)) && v.0 == m.0 && v.1 == m.1 && v.2 == m.2 && v.3 == m.3 && v.4 == m.4 && v.5 == m.5 && end == e,
            None => r is None,
        },
        r matches Some((_, end)) ==> pos < end <= b@.len(),
{
    proof {
        reveal(v4_ticker_part1_at);
    }
    let (last_price_micros, p1) = match take_v4_opt_u64(b, pos) {
        Some(x) => x,
        None => return None,
    };
    let (last_trade_quantity_hundredths, p2) = match take_v4_opt_u64(b, p1) {
        Some(x) => x,
        None => return None,
    };
    let (volume_hundredths, p3) = match take_v4_opt_u64(b, p2) {
        Some(x) => x,
        None => return None,
    };
    let (volume_24h_hundredths, p4) = match take_v4_opt_u64(b, p3) {
        Some(x) => x,
        None => return None,
    };
    let (open_interest_hundredths, p5) = match take_v4_opt_u64(b, p4) {
        Some(x) => x,
        None => return None,
    };
    let (provider_at_unix_ms, p6) = match take_v4_opt_i64(b, p5) {
        Some(x) => x,
        None => return None,
    };
    Some(((last_price_micros, last_trade_quantity_hundredths, volume_hundredths, volume_24h_hundredths, open_interest_hundredths, provider_at_unix_ms), p6))
}

fn take_v4_ticker(b: &[u8], pos: usize) -> (r: Option<(TickerV4, usize)>)
    requires
        pos <= b@.len(),
    ensures
        match v4_ticker_at(b@, pos as int) {
            Some((m, e)) => r matches Some((v, end)) && v@ == m && end == e,
            None => r is None,
        },
        r matches Some((_, end)) ==> pos < end <= b@.len(),
{
    proof {
        reveal(v4_ticker_at);
    }
    let (c0, q1) = match take_v4_ticker_part0(b, pos) {
        Some(x) => x,
        None => return None,
    };
    let (c1, q2) = match take_v4_ticker_part1(b, q1) {
        Some(x) => x,
        None => return None,
    };
    let (yes_bid_micros, yes_ask_micros, no_bid_micros, no_ask_micros, yes_bid_quantity_hundredths, yes_ask_quantity_hundredths, no_bid_quantity_hundredths, no_ask_quantity_hundredths) = c0;
    let (last_price_micros, last_trade_quantity_hundredths, volume_hundredths, volume_24h_hundredths, open_interest_hundredths, provider_at_unix_ms) = c1;
    Some((TickerV4 { yes_bid_micros, yes_ask_micros, no_bid_micros, no_ask_micros, yes_bid_quantity_hundredths, yes_ask_quantity_hundredths, no_bid_quantity_hundredths, no_ask_quantity_hundredths, last_price_micros, last_trade_quantity_hundredths, volume_hundredths, volume_24h_hundredths, open_interest_hundredths, provider_at_unix_ms }, q2))
}

fn take_v4_book_level(b: &[u8], pos: usize) -> (r: Option<(BookLevelV4, usize)>)
    requires
        pos <= b@.len(),
    ensures
        match v4_book_level_at(b@, pos as int) {
            Some((m, e)) => r matches Some((v, end)) && v@ == m && end == e,
            None => r is None,
        },
        r matches Some((_, end)) ==> pos < end <= b@.len(),
{
    proof {
        reveal(v4_book_level_at);
    }
    let (price_micros, p1) = match take_fu64(b, pos) {
        Some(x) => x,
        None => return None,
    };
    let (quantity_hundredths, p2) = match take_fu64(b, p1) {
        Some(x) => x,
        None => return None,
    };
    Some((BookLevelV4 { price_micros, quantity_hundredths }, p2))
}

fn take_v4_book(b: &[u8], pos: usize) -> (r: Option<(BookV4, usize)>)
    requires
        pos <= b@.len(),
    ensures
        match v4_book_at(b@, pos as int) {
            Some((m, e)) => r matches Some((v, end)) && v@ == m && end == e,
            None => r is None,
        },
        r matches Some((_, end)) ==> pos < end <= b@.len(),
{
    proof {
        reveal(v4_book_at);
    }
    let (connection_epoch, p1) = match take_v4_opt_u64(b, pos) {
        Some(x) => x,
        None => return None,
    };
    let (sid, p2) = match take_v4_opt_u64(b, p1) {
        Some(x) => x,
        None => return None,
    };
    let (sequence, p3) = match take_v4_opt_u64(b, p2) {
        Some(x) => x,
        None => return None,
    };
    let (snapshot_at_unix_ms, p4) = match take_v4_opt_i64(b, p3) {
        Some(x) => x,
        None => return None,
    };
    let (resync_required, p5) = match take_bool(b, p4) {
        Some(x) => x,
        None => return None,
    };
    let (yes_bids, p6) = match take_v4_list_book_level(b, p5) {
        Some(x) => x,
        None => return None,
    };
    let (no_bids, p7) = match take_v4_list_book_level(b, p6) {
        Some(x) => x,
        None => return None,
    };
    Some((BookV4 { connection_epoch, sid, sequence, snapshot_at_unix_ms, resync_required, yes_bids, no_bids }, p7))
}

fn take_v4_last_trade(b: &[u8], pos: usize) -> (r: Option<(LastTradeV4, usize)>)
    requires
        pos <= b@.len(),
    ensures
        match v4_last_trade_at(b@, pos as int) {
            Some((m, e)) => r matches Some((v, end)) && v@ == m && end == e,
            None => r is None,
        },
        r matches Some((_, end)) ==> pos < end <= b@.len(),
{
    proof {
        reveal(v4_last_trade_at);
    }
    let (trade_id, p1) = match take_fstr(b, pos) {
        Some(x) => x,
        None => return None,
    };
    let (yes_price_micros, p2) = match take_fu64(b, p1) {
        Some(x) => x,
        None => return None,
    };
    let (no_price_micros, p3) = match take_fu64(b, p2) {
        Some(x) => x,
        None => return None,
    };
    let (quantity_hundredths, p4) = match take_fu64(b, p3) {
        Some(x) => x,
        None => return None,
    };
    let (taker_side, p5) = match take_v4_opt_string(b, p4) {
        Some(x) => x,
        None => return None,
    };
    let (traded_at_unix_ms, p6) = match take_fi64(b, p5) {
        Some(x) => x,
        None => return None,
    };
    Some((LastTradeV4 { trade_id, yes_price_micros, no_price_micros, quantity_hundredths, taker_side, traded_at_unix_ms }, p6))
}

fn take_v4_final_fact(b: &[u8], pos: usize) -> (r: Option<(FinalFactV4, usize)>)
    requires
        pos <= b@.len(),
    ensures
        match v4_final_fact_at(b@, pos as int) {
            Some((m, e)) => r matches Some((v, end)) && v@ == m && end == e,
            None => r is None,
        },
        r matches Some((_, end)) ==> pos < end <= b@.len(),
{
    proof {
        reveal(v4_final_fact_at);
    }
    let (status, p1) = match take_fstr(b, pos) {
        Some(x) => x,
        None => return None,
    };
    let (result, p2) = match take_fstr(b, p1) {
        Some(x) => x,
        None => return None,
    };
    let (settlement_value_micros, p3) = match take_v4_opt_i64(b, p2) {
        Some(x) => x,
        None => return None,
    };
    let (settled_price_micros, p4) = match take_v4_opt_u64(b, p3) {
        Some(x) => x,
        None => return None,
    };
    let (provider_at_unix_ms, p5) = match take_v4_opt_i64(b, p4) {
        Some(x) => x,
        None => return None,
    };
    Some((FinalFactV4 { status, result, settlement_value_micros, settled_price_micros, provider_at_unix_ms }, p5))
}

fn take_v4_market_comparison_part0(b: &[u8], pos: usize) -> (r: Option<((String, String, String, u64, i64, Option<u64>, Option<u64>, Option<u64>), usize)>)
    requires
        pos <= b@.len(),
    ensures
        match v4_market_comparison_part0_at(b@, pos as int) {
            Some((m, e)) => r matches Some((v, end)) && v.0@ == m.0 && v.1@ == m.1 && v.2@ == m.2 && v.3 == m.3 && v.4 == m.4 && v.5 == m.5 && v.6 == m.6 && v.7 == m.7 && end == e,
            None => r is None,
        },
        r matches Some((_, end)) ==> pos < end <= b@.len(),
{
    proof {
        reveal(v4_market_comparison_part0_at);
    }
    let (source, p1) = match take_fstr(b, pos) {
        Some(x) => x,
        None => return None,
    };
    let (event_id, p2) = match take_fstr(b, p1) {
        Some(x) => x,
        None => return None,
    };
    let (event_date, p3) = match take_fstr(b, p2) {
        Some(x) => x,
        None => return None,
    };
    let (sequence, p4) = match take_fu64(b, p3) {
        Some(x) => x,
        None => return None,
    };
    let (provider_at_unix_ms, p5) = match take_fi64(b, p4) {
        Some(x) => x,
        None => return None,
    };
    let (yes_bid_micros, p6) = match take_v4_opt_u64(b, p5) {
        Some(x) => x,
        None => return None,
    };
    let (yes_ask_micros, p7) = match take_v4_opt_u64(b, p6) {
        Some(x) => x,
        None => return None,
    };
    let (no_bid_micros, p8) = match take_v4_opt_u64(b, p7) {
        Some(x) => x,
        None => return None,
    };
    Some(((source, event_id, event_date, sequence, provider_at_unix_ms, yes_bid_micros, yes_ask_micros, no_bid_micros), p8))
}

fn take_v4_market_comparison_part1(b: &[u8], pos: usize) -> (r: Option<((Option<u64>, Option<u64>, [u8; 32]), usize)>)
    requires
        pos <= b@.len(),
    ensures
        match v4_market_comparison_part1_at(b@, pos as int) {
            Some((m, e)) => r matches Some((v, end)) && v.0 == m.0 && v.1 == m.1 && v.2@ == m.2 && end == e,
            None => r is None,
        },
        r matches Some((_, end)) ==> pos < end <= b@.len(),
{
    proof {
        reveal(v4_market_comparison_part1_at);
    }
    let (no_ask_micros, p1) = match take_v4_opt_u64(b, pos) {
        Some(x) => x,
        None => return None,
    };
    let (volume_hundredths, p2) = match take_v4_opt_u64(b, p1) {
        Some(x) => x,
        None => return None,
    };
    let (evidence_sha256, p3) = match take_array32(b, p2) {
        Some(x) => x,
        None => return None,
    };
    Some(((no_ask_micros, volume_hundredths, evidence_sha256), p3))
}

fn take_v4_market_comparison(b: &[u8], pos: usize) -> (r: Option<(MarketComparisonV4, usize)>)
    requires
        pos <= b@.len(),
    ensures
        match v4_market_comparison_at(b@, pos as int) {
            Some((m, e)) => r matches Some((v, end)) && v@ == m && end == e,
            None => r is None,
        },
        r matches Some((_, end)) ==> pos < end <= b@.len(),
{
    proof {
        reveal(v4_market_comparison_at);
    }
    let (c0, q1) = match take_v4_market_comparison_part0(b, pos) {
        Some(x) => x,
        None => return None,
    };
    let (c1, q2) = match take_v4_market_comparison_part1(b, q1) {
        Some(x) => x,
        None => return None,
    };
    let (source, event_id, event_date, sequence, provider_at_unix_ms, yes_bid_micros, yes_ask_micros, no_bid_micros) = c0;
    let (no_ask_micros, volume_hundredths, evidence_sha256) = c1;
    Some((MarketComparisonV4 { source, event_id, event_date, sequence, provider_at_unix_ms, yes_bid_micros, yes_ask_micros, no_bid_micros, no_ask_micros, volume_hundredths, evidence_sha256 }, q2))
}

fn take_v4_market_part0(b: &[u8], pos: usize) -> (r: Option<((String, u64, MarketIdentityV4, MarketMetaV4, Option<MarketLifecycleV4>, MarketMetaV4, Option<TickerV4>, MarketMetaV4), usize)>)
    requires
        pos <= b@.len(),
    ensures
        match v4_market_part0_at(b@, pos as int) {
            Some((m, e)) => r matches Some((v, end)) && v.0@ == m.0 && v.1 == m.1 && v.2@ == m.2 && v.3@ == m.3 && v4_opt_market_lifecycle_model(v.4) == m.4 && v.5@ == m.5 && v4_opt_ticker_model(v.6) == m.6 && v.7@ == m.7 && end == e,
            None => r is None,
        },
        r matches Some((_, end)) ==> pos < end <= b@.len(),
{
    proof {
        reveal(v4_market_part0_at);
    }
    let (contract_version, p1) = match take_fstr(b, pos) {
        Some(x) => x,
        None => return None,
    };
    let (revision, p2) = match take_fu64(b, p1) {
        Some(x) => x,
        None => return None,
    };
    let (identity, p3) = match take_v4_market_identity(b, p2) {
        Some(x) => x,
        None => return None,
    };
    let (lifecycle_meta, p4) = match take_v4_market_meta(b, p3) {
        Some(x) => x,
        None => return None,
    };
    let (lifecycle, p5) = match take_v4_opt_market_lifecycle(b, p4) {
        Some(x) => x,
        None => return None,
    };
    let (ticker_meta, p6) = match take_v4_market_meta(b, p5) {
        Some(x) => x,
        None => return None,
    };
    let (ticker, p7) = match take_v4_opt_ticker(b, p6) {
        Some(x) => x,
        None => return None,
    };
    let (book_meta, p8) = match take_v4_market_meta(b, p7) {
        Some(x) => x,
        None => return None,
    };
    Some(((contract_version, revision, identity, lifecycle_meta, lifecycle, ticker_meta, ticker, book_meta), p8))
}

fn take_v4_market_part1(b: &[u8], pos: usize) -> (r: Option<((Option<BookV4>, MarketMetaV4, Option<LastTradeV4>, MarketMetaV4, Option<FinalFactV4>, Vec<(String, ProvenanceV4)>, Vec<EvidenceV4>, Option<MarketComparisonV4>), usize)>)
    requires
        pos <= b@.len(),
    ensures
        match v4_market_part1_at(b@, pos as int) {
            Some((m, e)) => r matches Some((v, end)) && v4_opt_book_model(v.0) == m.0 && v.1@ == m.1 && v4_opt_last_trade_model(v.2) == m.2 && v.3@ == m.3 && v4_opt_final_fact_model(v.4) == m.4 && v.5@.map_values(v4_string_provenance_pair_viewer()) == m.5 && v.6@.map_values(v4_evidence_viewer()) == m.6 && v4_opt_market_comparison_model(v.7) == m.7 && end == e,
            None => r is None,
        },
        r matches Some((_, end)) ==> pos < end <= b@.len(),
{
    proof {
        reveal(v4_market_part1_at);
    }
    let (book, p1) = match take_v4_opt_book(b, pos) {
        Some(x) => x,
        None => return None,
    };
    let (last_trade_meta, p2) = match take_v4_market_meta(b, p1) {
        Some(x) => x,
        None => return None,
    };
    let (last_trade, p3) = match take_v4_opt_last_trade(b, p2) {
        Some(x) => x,
        None => return None,
    };
    let (final_fact_meta, p4) = match take_v4_market_meta(b, p3) {
        Some(x) => x,
        None => return None,
    };
    let (final_fact, p5) = match take_v4_opt_final_fact(b, p4) {
        Some(x) => x,
        None => return None,
    };
    let (field_provenance, p6) = match take_v4_list_string_provenance_pair(b, p5) {
        Some(x) => x,
        None => return None,
    };
    let (evidence, p7) = match take_v4_list_evidence(b, p6) {
        Some(x) => x,
        None => return None,
    };
    let (minutetemp_comparison, p8) = match take_v4_opt_market_comparison(b, p7) {
        Some(x) => x,
        None => return None,
    };
    Some(((book, last_trade_meta, last_trade, final_fact_meta, final_fact, field_provenance, evidence, minutetemp_comparison), p8))
}

fn take_v4_market_part2(b: &[u8], pos: usize) -> (r: Option<((Vec<String>,), usize)>)
    requires
        pos <= b@.len(),
    ensures
        match v4_market_part2_at(b@, pos as int) {
            Some((m, e)) => r matches Some((v, end)) && v.0@.map_values(v4_string_viewer()) == m.0 && end == e,
            None => r is None,
        },
        r matches Some((_, end)) ==> pos < end <= b@.len(),
{
    proof {
        reveal(v4_market_part2_at);
    }
    let (uncertain_fields, p1) = match take_v4_list_string(b, pos) {
        Some(x) => x,
        None => return None,
    };
    Some(((uncertain_fields,), p1))
}

fn take_v4_market(b: &[u8], pos: usize) -> (r: Option<(MarketV4, usize)>)
    requires
        pos <= b@.len(),
    ensures
        match v4_market_at(b@, pos as int) {
            Some((m, e)) => r matches Some((v, end)) && v@ == m && end == e,
            None => r is None,
        },
        r matches Some((_, end)) ==> pos < end <= b@.len(),
{
    proof {
        reveal(v4_market_at);
    }
    let (c0, q1) = match take_v4_market_part0(b, pos) {
        Some(x) => x,
        None => return None,
    };
    let (c1, q2) = match take_v4_market_part1(b, q1) {
        Some(x) => x,
        None => return None,
    };
    let (c2, q3) = match take_v4_market_part2(b, q2) {
        Some(x) => x,
        None => return None,
    };
    let (contract_version, revision, identity, lifecycle_meta, lifecycle, ticker_meta, ticker, book_meta) = c0;
    let (book, last_trade_meta, last_trade, final_fact_meta, final_fact, field_provenance, evidence, minutetemp_comparison) = c1;
    let (uncertain_fields,) = c2;
    Some((MarketV4 { contract_version, revision, identity, lifecycle_meta, lifecycle, ticker_meta, ticker, book_meta, book, last_trade_meta, last_trade, final_fact_meta, final_fact, field_provenance, evidence, minutetemp_comparison, uncertain_fields }, q3))
}

fn take_v4_opportunity_part0(b: &[u8], pos: usize) -> (r: Option<((String, String, String, String, LifecycleV4, u64, Vec<String>, Vec<String>), usize)>)
    requires
        pos <= b@.len(),
    ensures
        match v4_opportunity_part0_at(b@, pos as int) {
            Some((m, e)) => r matches Some((v, end)) && v.0@ == m.0 && v.1@ == m.1 && v.2@ == m.2 && v.3@ == m.3 && v.4 == m.4 && v.5 == m.5 && v.6@.map_values(v4_string_viewer()) == m.6 && v.7@.map_values(v4_string_viewer()) == m.7 && end == e,
            None => r is None,
        },
        r matches Some((_, end)) ==> pos < end <= b@.len(),
{
    proof {
        reveal(v4_opportunity_part0_at);
    }
    let (opportunity_id, p1) = match take_fstr(b, pos) {
        Some(x) => x,
        None => return None,
    };
    let (venue_id, p2) = match take_fstr(b, p1) {
        Some(x) => x,
        None => return None,
    };
    let (match_profile, p3) = match take_fstr(b, p2) {
        Some(x) => x,
        None => return None,
    };
    let (resolved_scope, p4) = match take_fstr(b, p3) {
        Some(x) => x,
        None => return None,
    };
    let (lifecycle, p5) = match take_v4_lifecycle(b, p4) {
        Some(x) => x,
        None => return None,
    };
    let (close_time_unix_seconds, p6) = match take_fu64(b, p5) {
        Some(x) => x,
        None => return None,
    };
    let (market_ids, p7) = match take_v4_list_string(b, p6) {
        Some(x) => x,
        None => return None,
    };
    let (contributor_stations, p8) = match take_v4_list_string(b, p7) {
        Some(x) => x,
        None => return None,
    };
    Some(((opportunity_id, venue_id, match_profile, resolved_scope, lifecycle, close_time_unix_seconds, market_ids, contributor_stations), p8))
}

fn take_v4_opportunity_part1(b: &[u8], pos: usize) -> (r: Option<((MarketAuthorityV4,), usize)>)
    requires
        pos <= b@.len(),
    ensures
        match v4_opportunity_part1_at(b@, pos as int) {
            Some((m, e)) => r matches Some((v, end)) && v.0 == m.0 && end == e,
            None => r is None,
        },
        r matches Some((_, end)) ==> pos < end <= b@.len(),
{
    proof {
        reveal(v4_opportunity_part1_at);
    }
    let (authority, p1) = match take_v4_market_authority(b, pos) {
        Some(x) => x,
        None => return None,
    };
    Some(((authority,), p1))
}

fn take_v4_opportunity(b: &[u8], pos: usize) -> (r: Option<(OpportunityV4, usize)>)
    requires
        pos <= b@.len(),
    ensures
        match v4_opportunity_at(b@, pos as int) {
            Some((m, e)) => r matches Some((v, end)) && v@ == m && end == e,
            None => r is None,
        },
        r matches Some((_, end)) ==> pos < end <= b@.len(),
{
    proof {
        reveal(v4_opportunity_at);
    }
    let (c0, q1) = match take_v4_opportunity_part0(b, pos) {
        Some(x) => x,
        None => return None,
    };
    let (c1, q2) = match take_v4_opportunity_part1(b, q1) {
        Some(x) => x,
        None => return None,
    };
    let (opportunity_id, venue_id, match_profile, resolved_scope, lifecycle, close_time_unix_seconds, market_ids, contributor_stations) = c0;
    let (authority,) = c1;
    Some((OpportunityV4 { opportunity_id, venue_id, match_profile, resolved_scope, lifecycle, close_time_unix_seconds, market_ids, contributor_stations, authority }, q2))
}

fn take_v4_broker_part0(b: &[u8], pos: usize) -> (r: Option<((u64, String, String, u64, u64, u64, u64, u64), usize)>)
    requires
        pos <= b@.len(),
    ensures
        match v4_broker_part0_at(b@, pos as int) {
            Some((m, e)) => r matches Some((v, end)) && v.0 == m.0 && v.1@ == m.1 && v.2@ == m.2 && v.3 == m.3 && v.4 == m.4 && v.5 == m.5 && v.6 == m.6 && v.7 == m.7 && end == e,
            None => r is None,
        },
        r matches Some((_, end)) ==> pos < end <= b@.len(),
{
    proof {
        reveal(v4_broker_part0_at);
    }
    let (revision, p1) = match take_fu64(b, pos) {
        Some(x) => x,
        None => return None,
    };
    let (venue_account_id, p2) = match take_fstr(b, p1) {
        Some(x) => x,
        None => return None,
    };
    let (sleeve_id, p3) = match take_fstr(b, p2) {
        Some(x) => x,
        None => return None,
    };
    let (provider_available_balance, p4) = match take_fu64(b, p3) {
        Some(x) => x,
        None => return None,
    };
    let (locally_reserved_cash, p5) = match take_fu64(b, p4) {
        Some(x) => x,
        None => return None,
    };
    let (portfolio_value, p6) = match take_fu64(b, p5) {
        Some(x) => x,
        None => return None,
    };
    let (allowance_limit, p7) = match take_fu64(b, p6) {
        Some(x) => x,
        None => return None,
    };
    let (current_commitment, p8) = match take_fu64(b, p7) {
        Some(x) => x,
        None => return None,
    };
    Some(((revision, venue_account_id, sleeve_id, provider_available_balance, locally_reserved_cash, portfolio_value, allowance_limit, current_commitment), p8))
}

fn take_v4_broker_part1(b: &[u8], pos: usize) -> (r: Option<((GateStatusV4, GateStatusV4, GateStatusV4, GateStatusV4), usize)>)
    requires
        pos <= b@.len(),
    ensures
        match v4_broker_part1_at(b@, pos as int) {
            Some((m, e)) => r matches Some((v, end)) && v.0 == m.0 && v.1 == m.1 && v.2 == m.2 && v.3 == m.3 && end == e,
            None => r is None,
        },
        r matches Some((_, end)) ==> pos < end <= b@.len(),
{
    proof {
        reveal(v4_broker_part1_at);
    }
    let (exposure_increase, p1) = match take_v4_gate_status(b, pos) {
        Some(x) => x,
        None => return None,
    };
    let (reduce_only_protective, p2) = match take_v4_gate_status(b, p1) {
        Some(x) => x,
        None => return None,
    };
    let (cancellation, p3) = match take_v4_gate_status(b, p2) {
        Some(x) => x,
        None => return None,
    };
    let (reconciliation_allocation, p4) = match take_v4_gate_status(b, p3) {
        Some(x) => x,
        None => return None,
    };
    Some(((exposure_increase, reduce_only_protective, cancellation, reconciliation_allocation), p4))
}

fn take_v4_broker(b: &[u8], pos: usize) -> (r: Option<(BrokerV4, usize)>)
    requires
        pos <= b@.len(),
    ensures
        match v4_broker_at(b@, pos as int) {
            Some((m, e)) => r matches Some((v, end)) && v@ == m && end == e,
            None => r is None,
        },
        r matches Some((_, end)) ==> pos < end <= b@.len(),
{
    proof {
        reveal(v4_broker_at);
    }
    let (c0, q1) = match take_v4_broker_part0(b, pos) {
        Some(x) => x,
        None => return None,
    };
    let (c1, q2) = match take_v4_broker_part1(b, q1) {
        Some(x) => x,
        None => return None,
    };
    let (revision, venue_account_id, sleeve_id, provider_available_balance, locally_reserved_cash, portfolio_value, allowance_limit, current_commitment) = c0;
    let (exposure_increase, reduce_only_protective, cancellation, reconciliation_allocation) = c1;
    Some((BrokerV4 { revision, venue_account_id, sleeve_id, provider_available_balance, locally_reserved_cash, portfolio_value, allowance_limit, current_commitment, exposure_increase, reduce_only_protective, cancellation, reconciliation_allocation }, q2))
}

fn take_v4_config(b: &[u8], pos: usize) -> (r: Option<(ConfigV4, usize)>)
    requires
        pos <= b@.len(),
    ensures
        match v4_config_at(b@, pos as int) {
            Some((m, e)) => r matches Some((v, end)) && v@ == m && end == e,
            None => r is None,
        },
        r matches Some((_, end)) ==> pos < end <= b@.len(),
{
    proof {
        reveal(v4_config_at);
    }
    let (revision, p1) = match take_fu64(b, pos) {
        Some(x) => x,
        None => return None,
    };
    let (profile_and_calculator_digest, p2) = match take_fstr(b, p1) {
        Some(x) => x,
        None => return None,
    };
    Some((ConfigV4 { revision, profile_and_calculator_digest }, p2))
}

fn take_v4_supervisor(b: &[u8], pos: usize) -> (r: Option<(SupervisorV4, usize)>)
    requires
        pos <= b@.len(),
    ensures
        match v4_supervisor_at(b@, pos as int) {
            Some((m, e)) => r matches Some((v, end)) && v@ == m && end == e,
            None => r is None,
        },
        r matches Some((_, end)) ==> pos < end <= b@.len(),
{
    proof {
        reveal(v4_supervisor_at);
    }
    let (sleeve_id, p1) = match take_fstr(b, pos) {
        Some(x) => x,
        None => return None,
    };
    let (incarnation, p2) = match take_fu64(b, p1) {
        Some(x) => x,
        None => return None,
    };
    let (process_attempt, p3) = match take_fu64(b, p2) {
        Some(x) => x,
        None => return None,
    };
    let (route_epoch, p4) = match take_fu64(b, p3) {
        Some(x) => x,
        None => return None,
    };
    Some((SupervisorV4 { sleeve_id, incarnation, process_attempt, route_epoch }, p4))
}

fn take_v4_resource_revision(b: &[u8], pos: usize) -> (r: Option<(ResourceRevisionV4, usize)>)
    requires
        pos <= b@.len(),
    ensures
        match v4_resource_revision_at(b@, pos as int) {
            Some((m, e)) => r matches Some((v, end)) && v@ == m && end == e,
            None => r is None,
        },
        r matches Some((_, end)) ==> pos < end <= b@.len(),
{
    proof {
        reveal(v4_resource_revision_at);
    }
    let (identity, p1) = match take_fstr(b, pos) {
        Some(x) => x,
        None => return None,
    };
    let (revision, p2) = match take_fu64(b, p1) {
        Some(x) => x,
        None => return None,
    };
    let (generation, p3) = match take_fu64(b, p2) {
        Some(x) => x,
        None => return None,
    };
    Some((ResourceRevisionV4 { identity, revision, generation }, p3))
}

fn take_v4_fence_part0(b: &[u8], pos: usize) -> (r: Option<((u64, u64, String, u64, [u8; 32], u64, u64, u64), usize)>)
    requires
        pos <= b@.len(),
    ensures
        match v4_fence_part0_at(b@, pos as int) {
            Some((m, e)) => r matches Some((v, end)) && v.0 == m.0 && v.1 == m.1 && v.2@ == m.2 && v.3 == m.3 && v.4@ == m.4 && v.5 == m.5 && v.6 == m.6 && v.7 == m.7 && end == e,
            None => r is None,
        },
        r matches Some((_, end)) ==> pos < end <= b@.len(),
{
    proof {
        reveal(v4_fence_part0_at);
    }
    let (sleeve_incarnation, p1) = match take_fu64(b, pos) {
        Some(x) => x,
        None => return None,
    };
    let (config_revision, p2) = match take_fu64(b, p1) {
        Some(x) => x,
        None => return None,
    };
    let (profile_and_calculator_digest, p3) = match take_fstr(b, p2) {
        Some(x) => x,
        None => return None,
    };
    let (route_epoch, p4) = match take_fu64(b, p3) {
        Some(x) => x,
        None => return None,
    };
    let (route_plan_sha256, p5) = match take_array32(b, p4) {
        Some(x) => x,
        None => return None,
    };
    let (source_revision, p6) = match take_fu64(b, p5) {
        Some(x) => x,
        None => return None,
    };
    let (source_generation, p7) = match take_fu64(b, p6) {
        Some(x) => x,
        None => return None,
    };
    let (catalog_revision, p8) = match take_fu64(b, p7) {
        Some(x) => x,
        None => return None,
    };
    Some(((sleeve_incarnation, config_revision, profile_and_calculator_digest, route_epoch, route_plan_sha256, source_revision, source_generation, catalog_revision), p8))
}

fn take_v4_fence_part1(b: &[u8], pos: usize) -> (r: Option<((u64, u64, u64, Vec<ResourceRevisionV4>, Vec<ResourceRevisionV4>), usize)>)
    requires
        pos <= b@.len(),
    ensures
        match v4_fence_part1_at(b@, pos as int) {
            Some((m, e)) => r matches Some((v, end)) && v.0 == m.0 && v.1 == m.1 && v.2 == m.2 && v.3@.map_values(v4_resource_revision_viewer()) == m.3 && v.4@.map_values(v4_resource_revision_viewer()) == m.4 && end == e,
            None => r is None,
        },
        r matches Some((_, end)) ==> pos < end <= b@.len(),
{
    proof {
        reveal(v4_fence_part1_at);
    }
    let (market_authority_generation, p1) = match take_fu64(b, pos) {
        Some(x) => x,
        None => return None,
    };
    let (price_revision, p2) = match take_fu64(b, p1) {
        Some(x) => x,
        None => return None,
    };
    let (broker_revision, p3) = match take_fu64(b, p2) {
        Some(x) => x,
        None => return None,
    };
    let (station_resources, p4) = match take_v4_list_resource_revision(b, p3) {
        Some(x) => x,
        None => return None,
    };
    let (market_revisions, p5) = match take_v4_list_resource_revision(b, p4) {
        Some(x) => x,
        None => return None,
    };
    Some(((market_authority_generation, price_revision, broker_revision, station_resources, market_revisions), p5))
}

fn take_v4_fence(b: &[u8], pos: usize) -> (r: Option<(FenceV4, usize)>)
    requires
        pos <= b@.len(),
    ensures
        match v4_fence_at(b@, pos as int) {
            Some((m, e)) => r matches Some((v, end)) && v@ == m && end == e,
            None => r is None,
        },
        r matches Some((_, end)) ==> pos < end <= b@.len(),
{
    proof {
        reveal(v4_fence_at);
    }
    let (c0, q1) = match take_v4_fence_part0(b, pos) {
        Some(x) => x,
        None => return None,
    };
    let (c1, q2) = match take_v4_fence_part1(b, q1) {
        Some(x) => x,
        None => return None,
    };
    let (sleeve_incarnation, config_revision, profile_and_calculator_digest, route_epoch, route_plan_sha256, source_revision, source_generation, catalog_revision) = c0;
    let (market_authority_generation, price_revision, broker_revision, station_resources, market_revisions) = c1;
    Some((FenceV4 { sleeve_incarnation, config_revision, profile_and_calculator_digest, route_epoch, route_plan_sha256, source_revision, source_generation, catalog_revision, market_authority_generation, price_revision, broker_revision, station_resources, market_revisions }, q2))
}

fn take_v4_timer_recovery(b: &[u8], pos: usize) -> (r: Option<(TimerRecoveryV4, usize)>)
    requires
        pos <= b@.len(),
    ensures
        match v4_timer_recovery_at(b@, pos as int) {
            Some((m, e)) => r matches Some((v, end)) && v@ == m && end == e,
            None => r is None,
        },
        r matches Some((_, end)) ==> pos < end <= b@.len(),
{
    proof {
        reveal(v4_timer_recovery_at);
    }
    let (key, p1) = match take_fstr(b, pos) {
        Some(x) => x,
        None => return None,
    };
    let (scheduled_at, p2) = match take_fu64(b, p1) {
        Some(x) => x,
        None => return None,
    };
    let (generation, p3) = match take_fstr(b, p2) {
        Some(x) => x,
        None => return None,
    };
    let (admission_state, p4) = match take_u8(b, p3) {
        Some(x) => x,
        None => return None,
    };
    Some((TimerRecoveryV4 { key, scheduled_at, generation, admission_state }, p4))
}

fn take_v4_decision_context_part0(b: &[u8], pos: usize) -> (r: Option<((String, SupervisorV4, TriggerV4, FenceV4, ConfigV4, Vec<StationV4>, OpportunityV4, Vec<MarketV4>), usize)>)
    requires
        pos <= b@.len(),
    ensures
        match v4_decision_context_part0_at(b@, pos as int) {
            Some((m, e)) => r matches Some((v, end)) && v.0@ == m.0 && v.1@ == m.1 && v.2@ == m.2 && v.3@ == m.3 && v.4@ == m.4 && v.5@.map_values(v4_station_viewer()) == m.5 && v.6@ == m.6 && v.7@.map_values(v4_market_viewer()) == m.7 && end == e,
            None => r is None,
        },
        r matches Some((_, end)) ==> pos < end <= b@.len(),
{
    proof {
        reveal(v4_decision_context_part0_at);
    }
    let (delivery_id, p1) = match take_fstr(b, pos) {
        Some(x) => x,
        None => return None,
    };
    let (sleeve, p2) = match take_v4_supervisor(b, p1) {
        Some(x) => x,
        None => return None,
    };
    let (trigger, p3) = match take_v4_trigger(b, p2) {
        Some(x) => x,
        None => return None,
    };
    let (fence, p4) = match take_v4_fence(b, p3) {
        Some(x) => x,
        None => return None,
    };
    let (config, p5) = match take_v4_config(b, p4) {
        Some(x) => x,
        None => return None,
    };
    let (stations, p6) = match take_v4_list_station(b, p5) {
        Some(x) => x,
        None => return None,
    };
    let (opportunity, p7) = match take_v4_opportunity(b, p6) {
        Some(x) => x,
        None => return None,
    };
    let (markets, p8) = match take_v4_list_market(b, p7) {
        Some(x) => x,
        None => return None,
    };
    Some(((delivery_id, sleeve, trigger, fence, config, stations, opportunity, markets), p8))
}

fn take_v4_decision_context_part1(b: &[u8], pos: usize) -> (r: Option<((BrokerV4, Option<Vec<TimerRecoveryV4>>, u64, u64), usize)>)
    requires
        pos <= b@.len(),
    ensures
        match v4_decision_context_part1_at(b@, pos as int) {
            Some((m, e)) => r matches Some((v, end)) && v.0@ == m.0 && v4_opt_list_timer_recovery_model(v.1) == m.1 && v.2 == m.2 && v.3 == m.3 && end == e,
            None => r is None,
        },
        r matches Some((_, end)) ==> pos < end <= b@.len(),
{
    proof {
        reveal(v4_decision_context_part1_at);
    }
    let (broker, p1) = match take_v4_broker(b, pos) {
        Some(x) => x,
        None => return None,
    };
    let (timer_recovery, p2) = match take_v4_opt_list_timer_recovery(b, p1) {
        Some(x) => x,
        None => return None,
    };
    let (delivered_at_monotonic_ns, p3) = match take_fu64(b, p2) {
        Some(x) => x,
        None => return None,
    };
    let (hard_expires_at_monotonic_ns, p4) = match take_fu64(b, p3) {
        Some(x) => x,
        None => return None,
    };
    Some(((broker, timer_recovery, delivered_at_monotonic_ns, hard_expires_at_monotonic_ns), p4))
}

fn take_v4_decision_context(b: &[u8], pos: usize) -> (r: Option<(DecisionContextV4, usize)>)
    requires
        pos <= b@.len(),
    ensures
        match v4_decision_context_at(b@, pos as int) {
            Some((m, e)) => r matches Some((v, end)) && v@ == m && end == e,
            None => r is None,
        },
        r matches Some((_, end)) ==> pos < end <= b@.len(),
{
    proof {
        reveal(v4_decision_context_at);
    }
    let (c0, q1) = match take_v4_decision_context_part0(b, pos) {
        Some(x) => x,
        None => return None,
    };
    let (c1, q2) = match take_v4_decision_context_part1(b, q1) {
        Some(x) => x,
        None => return None,
    };
    let (delivery_id, sleeve, trigger, fence, config, stations, opportunity, markets) = c0;
    let (broker, timer_recovery, delivered_at_monotonic_ns, hard_expires_at_monotonic_ns) = c1;
    Some((DecisionContextV4 { delivery_id, sleeve, trigger, fence, config, stations, opportunity, markets, broker, timer_recovery, delivered_at_monotonic_ns, hard_expires_at_monotonic_ns }, q2))
}

// ---------------------------------------------------------------------------------------------
// Decoding
// ---------------------------------------------------------------------------------------------

/// What the bytes of a V4 context read as, before its validity is checked: at most
/// `MAX_DECISION_CONTEXT_V4_BYTES` beginning with the V4 magic, else `InvalidContract`; then a
/// context that takes every remaining byte (`TrailingBytes` when bytes follow it, `Decode` when
/// they do not read as a context).
pub open spec fn decision_context_v4_read(b: Seq<u8>) -> Result<
    DecisionContextV4Model,
    DecisionV4Error,
> {
    if b.len() > MAX_DECISION_CONTEXT_V4_BYTES || !has_prefix(b, DECISION_CONTEXT_V4_MAGIC@) {
        Err(DecisionV4Error::InvalidContract)
    } else {
        match v4_decision_context_at(b, 8) {
            Some((m, e)) => if e == b.len() {
                Ok(m)
            } else {
                Err(DecisionV4Error::TrailingBytes)
            },
            None => Err(DecisionV4Error::Decode),
        }
    }
}

proof fn lemma_models_congruent(s: StationV4, t: StationV4, max_points: nat)
    requires
        s@ == t@,
    ensures
        station_within_bounds(s, max_points) == station_within_bounds(t, max_points),
{
    let ms = s.forecast.models@;
    let mt = t.forecast.models@;
    assert(s@.forecast == t@.forecast);
    assert(ms.map_values(v4_forecast_model_viewer()) == mt.map_values(v4_forecast_model_viewer()));
    assert(ms.map_values(v4_forecast_model_viewer()).len() == ms.len());
    assert(mt.map_values(v4_forecast_model_viewer()).len() == mt.len());
    assert(s.reports@.map_values(v4_report_viewer()).len() == s.reports@.len());
    assert(t.reports@.map_values(v4_report_viewer()).len() == t.reports@.len());
    assert(s.weather_events@.map_values(v4_weather_event_viewer()).len()
        == s.weather_events@.len());
    assert(t.weather_events@.map_values(v4_weather_event_viewer()).len()
        == t.weather_events@.len());
    assert(s.evidence@.map_values(v4_evidence_viewer()).len() == s.evidence@.len());
    assert(t.evidence@.map_values(v4_evidence_viewer()).len() == t.evidence@.len());
    assert(s@.oracle == t@.oracle);
    assert(s.oracle.rows@.map_values(v4_oracle_row_viewer()).len() == s.oracle.rows@.len());
    assert(t.oracle.rows@.map_values(v4_oracle_row_viewer()).len() == t.oracle.rows@.len());
    assert(s@.identity == t@.identity);
    assert forall|k: int|
        #![trigger model_within_bounds(ms[k], s, max_points)]
        #![trigger model_within_bounds(mt[k], t, max_points)]
        0 <= k < ms.len() implies model_within_bounds(ms[k], s, max_points)
        == model_within_bounds(mt[k], t, max_points) by {
        assert(ms.map_values(v4_forecast_model_viewer())[k] == ms[k]@);
        assert(mt.map_values(v4_forecast_model_viewer())[k] == mt[k]@);
        let hs = ms[k].hourly@;
        let ht = mt[k].hourly@;
        assert(hs.map_values(v4_forecast_point_viewer()) == ht.map_values(
            v4_forecast_point_viewer(),
        ));
        assert(hs.map_values(v4_forecast_point_viewer()).len() == hs.len());
        assert(ht.map_values(v4_forecast_point_viewer()).len() == ht.len());
        assert forall|j: int|
            #![trigger point_in_climate_day(hs[j], s)]
            #![trigger point_in_climate_day(ht[j], t)]
            0 <= j < hs.len() implies point_in_climate_day(hs[j], s) == point_in_climate_day(
            ht[j],
            t,
        ) by {
            assert(hs.map_values(v4_forecast_point_viewer())[j] == hs[j]@);
            assert(ht.map_values(v4_forecast_point_viewer())[j] == ht[j]@);
        }
    }
}

proof fn lemma_market_congruent(m: MarketV4, n: MarketV4)
    requires
        m@ == n@,
    ensures
        market_within_bounds(m) == market_within_bounds(n),
{
    assert(m.evidence@.map_values(v4_evidence_viewer()).len() == m.evidence@.len());
    assert(n.evidence@.map_values(v4_evidence_viewer()).len() == n.evidence@.len());
    match (m.book, n.book) {
        (Some(x), Some(y)) => {
            assert(x@ == y@);
            assert(x.yes_bids@.map_values(v4_book_level_viewer()).len() == x.yes_bids@.len());
            assert(y.yes_bids@.map_values(v4_book_level_viewer()).len() == y.yes_bids@.len());
            assert(x.no_bids@.map_values(v4_book_level_viewer()).len() == x.no_bids@.len());
            assert(y.no_bids@.map_values(v4_book_level_viewer()).len() == y.no_bids@.len());
        },
        _ => {},
    }
    match (m.minutetemp_comparison, n.minutetemp_comparison) {
        (Some(x), Some(y)) => {
            assert(x@ == y@);
        },
        _ => {},
    }
}

/// Whether a context is valid, and the error when it is not, depend on its model alone.
pub proof fn context_v4_verdict_depends_on_model(
    a: DecisionContextV4,
    b: DecisionContextV4,
    max_points: nat,
)
    requires
        a@ == b@,
    ensures
        context_v4_verdict(a, max_points) == context_v4_verdict(b, max_points),
{
    let sa = a.stations@;
    let sb = b.stations@;
    assert(sa.map_values(v4_station_viewer()).len() == sa.len());
    assert(sb.map_values(v4_station_viewer()).len() == sb.len());
    let ma = a.markets@;
    let mb = b.markets@;
    assert(ma.map_values(v4_market_viewer()).len() == ma.len());
    assert(mb.map_values(v4_market_viewer()).len() == mb.len());
    assert(a@.fence == b@.fence);
    assert forall|i: int|
        #![trigger station_within_bounds(sa[i], max_points)]
        #![trigger station_within_bounds(sb[i], max_points)]
        0 <= i < sa.len() implies station_within_bounds(sa[i], max_points)
        == station_within_bounds(sb[i], max_points) by {
        assert(sa.map_values(v4_station_viewer())[i] == sa[i]@);
        assert(sb.map_values(v4_station_viewer())[i] == sb[i]@);
        lemma_models_congruent(sa[i], sb[i], max_points);
    }
    assert forall|i: int|
        #![trigger market_within_bounds(ma[i])]
        #![trigger market_within_bounds(mb[i])]
        0 <= i < ma.len() implies market_within_bounds(ma[i]) == market_within_bounds(mb[i]) by {
        assert(ma.map_values(v4_market_viewer())[i] == ma[i]@);
        assert(mb.map_values(v4_market_viewer())[i] == mb[i]@);
        lemma_market_congruent(ma[i], mb[i]);
    }
}

/// Decodes a V4 context and checks it.
///
/// `InvalidContract` when the bytes exceed `MAX_DECISION_CONTEXT_V4_BYTES` or do not begin with
/// the V4 magic; `Decode` when they do not read as a context; `TrailingBytes` when bytes follow
/// it; otherwise the context's own error when it is not valid.
pub fn decode_decision_context_v4(bytes: &[u8]) -> (r: Result<DecisionContextV4, DecisionV4Error>)
    ensures
        match decision_context_v4_read(bytes@) {
            Err(e) => r == Err::<DecisionContextV4, DecisionV4Error>(e),
            Ok(m) => match r {
                Ok(v) => v@ == m && context_v4_verdict(v, MAX_POINTS_PER_MODEL as nat) is Ok,
                Err(e) => forall|v: DecisionContextV4|
                    v@ == m ==> #[trigger] context_v4_verdict(v, MAX_POINTS_PER_MODEL as nat)
                        == Err::<(), DecisionV4Error>(e),
            },
        },
{
    if bytes.len() > MAX_DECISION_CONTEXT_V4_BYTES || !has_magic(bytes, &DECISION_CONTEXT_V4_MAGIC) {
        return Err(DecisionV4Error::InvalidContract);
    }
    let (context, end) = match take_v4_decision_context(bytes, 8) {
        Some(v) => v,
        None => {
            return Err(DecisionV4Error::Decode);
        },
    };
    if end != bytes.len() {
        return Err(DecisionV4Error::TrailingBytes);
    }
    match context.validate() {
        Ok(()) => Ok(context),
        Err(e) => {
            proof {
                assert forall|v: DecisionContextV4| v@ == context@ implies #[trigger] context_v4_verdict(
                    v,
                    MAX_POINTS_PER_MODEL as nat,
                ) == Err::<(), DecisionV4Error>(e) by {
                    context_v4_verdict_depends_on_model(v, context, MAX_POINTS_PER_MODEL as nat);
                }
            }
            Err(e)
        },
    }
}

/// The bytes `encode_decision_context_v4` writes for a valid context read back as that
/// context, and every context with its model is valid, so decoding returns a context equal to
/// it field by field.
pub proof fn context_v4_round_trip(context: DecisionContextV4)
    requires
        context_v4_verdict(context, MAX_POINTS_PER_MODEL as nat) is Ok,
        8 + fx_decision_context(context).len() <= MAX_DECISION_CONTEXT_V4_BYTES,
    ensures
        decision_context_v4_read(DECISION_CONTEXT_V4_MAGIC@ + fx_decision_context(context)) == Ok::<
            DecisionContextV4Model,
            DecisionV4Error,
        >(context@),
        forall|v: DecisionContextV4|
            v@ == context@ ==> #[trigger] context_v4_verdict(v, MAX_POINTS_PER_MODEL as nat) is Ok,
{
    let w = fx_decision_context(context);
    let b = DECISION_CONTEXT_V4_MAGIC@ + w;
    assert(b.subrange(0, 8) =~= DECISION_CONTEXT_V4_MAGIC@);
    assert(b.subrange(8, (8 + w.len()) as int) =~= w);
    lemma_v4_decision_context_at(b, 8, context);
    assert forall|v: DecisionContextV4| v@ == context@ implies #[trigger] context_v4_verdict(
        v,
        MAX_POINTS_PER_MODEL as nat,
    ) is Ok by {
        context_v4_verdict_depends_on_model(v, context, MAX_POINTS_PER_MODEL as nat);
    }
}


} // verus!
