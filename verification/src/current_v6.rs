//! Bounds of the current weather inputs beside the V4 owner projection: text and content
//! fields, provenance, component metadata, and the accepted weather data of an originating
//! packet.
use crate::decision_v4::{
    AuthorityV4, ComponentMetaV4, ExtremeV4, ObservationV4, OracleQueryV4, OracleRowV4,
    OracleTableV4, ProvenanceV4, RankByV4, ReportV4, StationV4, WeatherEventV4,
};
use crate::decision_v6::DecisionV6Error;
use crate::text::{byte_len, byte_length, opt_view, optional_string_eq, string_eq};
use vstd::prelude::*;

verus! {

/// The most bytes a text or content field of the current inputs holds.
pub const MAX_CURRENT_TEXT_BYTES: usize = 2048;

/// The accepted data of an originating weather packet.
#[derive(Clone, Debug, Eq, PartialEq)]
pub enum WeatherDataV6 {
    Observation(ObservationV4),
    Report(ReportV4),
    Extreme { high: bool, value: ExtremeV4 },
    WeatherEvent(WeatherEventV4),
}

/// Non-empty text within the bound.
pub open spec fn text_fits(s: Seq<char>) -> bool {
    0 < byte_len(s) <= MAX_CURRENT_TEXT_BYTES
}

/// Content (possibly empty) within the bound.
pub open spec fn content_fits(s: Seq<char>) -> bool {
    byte_len(s) <= MAX_CURRENT_TEXT_BYTES
}

pub open spec fn optional_text_fits(s: Option<Seq<char>>) -> bool {
    match s {
        Some(v) => text_fits(v),
        None => true,
    }
}

/// A text field: non-empty and at most 2048 bytes, else `BoundExceeded`.
pub fn text(value: &String) -> (r: Result<(), DecisionV6Error>)
    ensures
        r == (if text_fits(value@) {
            Ok(())
        } else {
            Err(DecisionV6Error::BoundExceeded)
        }),
{
    let length = byte_length(value);
    if length == 0 || length > MAX_CURRENT_TEXT_BYTES {
        Err(DecisionV6Error::BoundExceeded)
    } else {
        Ok(())
    }
}

/// A content field: at most 2048 bytes, else `BoundExceeded`.
pub fn content(value: &String) -> (r: Result<(), DecisionV6Error>)
    ensures
        r == (if content_fits(value@) {
            Ok(())
        } else {
            Err(DecisionV6Error::BoundExceeded)
        }),
{
    if byte_length(value) > MAX_CURRENT_TEXT_BYTES {
        Err(DecisionV6Error::BoundExceeded)
    } else {
        Ok(())
    }
}

fn optional_text(value: &Option<String>) -> (r: bool)
    ensures
        r == optional_text_fits(opt_view(*value)),
{
    match value {
        Some(v) => text(v).is_ok(),
        None => true,
    }
}

/// Provider and source are text, and so is the event id when present.
pub open spec fn provenance_fits(p: ProvenanceV4) -> bool {
    text_fits(p.provider@) && text_fits(p.source@) && optional_text_fits(opt_view(p.event_id))
}

pub fn validate_provenance(value: &ProvenanceV4) -> (r: Result<(), DecisionV6Error>)
    ensures
        r == (if provenance_fits(*value) {
            Ok(())
        } else {
            Err(DecisionV6Error::BoundExceeded)
        }),
{
    if text(&value.provider).is_err() || text(&value.source).is_err() || !optional_text(
        &value.event_id,
    ) {
        return Err(DecisionV6Error::BoundExceeded);
    }
    Ok(())
}

/// At most 4 provenance entries and a non-zero revision and generation.
pub open spec fn meta_shape_valid(m: ComponentMetaV4) -> bool {
    m.provenance@.len() <= 4 && m.revision != 0 && m.generation != 0
}

/// Its optional texts and every provenance entry fit.
pub open spec fn meta_texts_fit(m: ComponentMetaV4) -> bool {
    &&& optional_text_fits(opt_view(m.expected_version))
    &&& optional_text_fits(opt_view(m.refresh_error))
    &&& forall|i: int| 0 <= i < m.provenance@.len() ==> #[trigger] provenance_fits(m.provenance@[i])
}

pub open spec fn meta_verdict(m: ComponentMetaV4) -> Result<(), DecisionV6Error> {
    if !meta_shape_valid(m) {
        Err(DecisionV6Error::InvalidContract)
    } else if !meta_texts_fit(m) {
        Err(DecisionV6Error::BoundExceeded)
    } else {
        Ok(())
    }
}

#[verifier::loop_isolation(false)]
pub fn validate_meta(meta: &ComponentMetaV4) -> (r: Result<(), DecisionV6Error>)
    ensures
        r == meta_verdict(*meta),
{
    if meta.provenance.len() > 4 || meta.revision == 0 || meta.generation == 0 {
        return Err(DecisionV6Error::InvalidContract);
    }
    if !optional_text(&meta.expected_version) || !optional_text(&meta.refresh_error) {
        return Err(DecisionV6Error::BoundExceeded);
    }
    let mut i: usize = 0;
    while i < meta.provenance.len()
        invariant
            0 <= i <= meta.provenance@.len(),
            forall|k: int| 0 <= k < i ==> #[trigger] provenance_fits(meta.provenance@[k]),
        decreases meta.provenance@.len() - i,
    {
        if validate_provenance(&meta.provenance[i]).is_err() {
            assert(!provenance_fits(meta.provenance@[i as int]));
            return Err(DecisionV6Error::BoundExceeded);
        }
        i += 1;
    }
    Ok(())
}

/// A weather event state: `active`, `updated` or `ended`.
pub open spec fn known_event_state(s: Seq<char>) -> bool {
    ||| s == seq!['a', 'c', 't', 'i', 'v', 'e']
    ||| s == seq!['u', 'p', 'd', 'a', 't', 'e', 'd']
    ||| s == seq!['e', 'n', 'd', 'e', 'd']
}

pub open spec fn observation_fits(v: ObservationV4) -> bool {
    &&& text_fits(v.station_id@)
    &&& match v.text_description {
        Some(d) => content_fits(d@),
        None => true,
    }
    &&& optional_text_fits(opt_view(v.persistence_status))
    &&& optional_text_fits(opt_view(v.temperature_day_mode))
    &&& optional_text_fits(opt_view(v.temperature_day_date))
    &&& optional_text_fits(opt_view(v.report_type))
    &&& optional_text_fits(opt_view(v.source_report_id))
    &&& provenance_fits(v.provenance)
}

pub open spec fn report_fits(v: ReportV4) -> bool {
    &&& text_fits(v.report_id@)
    &&& text_fits(v.report_type@)
    &&& text_fits(v.report_date@)
    &&& text_fits(v.provider@)
    &&& content_fits(v.source_url@)
    &&& provenance_fits(v.provenance)
}

pub open spec fn extreme_fits(v: ExtremeV4) -> bool {
    &&& optional_text_fits(opt_view(v.temperature_day_mode))
    &&& optional_text_fits(opt_view(v.temperature_day_date))
    &&& optional_text_fits(opt_view(v.report_type))
    &&& optional_text_fits(opt_view(v.source_report_id))
    &&& provenance_fits(v.provenance)
}

/// The header texts of a weather event.
pub open spec fn event_header_fits(v: WeatherEventV4) -> bool {
    text_fits(v.event_id@) && text_fits(v.event_type@) && text_fits(v.tier@) && text_fits(
        v.state@,
    )
}

/// The contents, source texts and provenance of a weather event.
pub open spec fn event_body_fits(v: WeatherEventV4) -> bool {
    &&& content_fits(v.name@)
    &&& content_fits(v.badge@)
    &&& content_fits(v.detail@)
    &&& content_fits(v.summary@)
    &&& match v.source {
        Some(s) => {
            &&& optional_text_fits(opt_view(s.metar_type))
            &&& optional_text_fits(opt_view(s.flight_category))
            &&& optional_text_fits(opt_view(s.wx_string))
            &&& optional_text_fits(opt_view(s.wx_token))
            &&& optional_text_fits(opt_view(s.cb_location))
        },
        None => true,
    }
    &&& provenance_fits(v.provenance)
}

pub open spec fn weather_data_verdict(d: WeatherDataV6) -> Result<(), DecisionV6Error> {
    match d {
        WeatherDataV6::Observation(v) => if observation_fits(v) {
            Ok(())
        } else {
            Err(DecisionV6Error::BoundExceeded)
        },
        WeatherDataV6::Report(v) => if report_fits(v) {
            Ok(())
        } else {
            Err(DecisionV6Error::BoundExceeded)
        },
        WeatherDataV6::Extreme { value, .. } => if extreme_fits(value) {
            Ok(())
        } else {
            Err(DecisionV6Error::BoundExceeded)
        },
        WeatherDataV6::WeatherEvent(v) => if !event_header_fits(v) {
            Err(DecisionV6Error::BoundExceeded)
        } else if !known_event_state(v.state@) {
            Err(DecisionV6Error::InvalidContract)
        } else if !event_body_fits(v) {
            Err(DecisionV6Error::BoundExceeded)
        } else {
            Ok(())
        },
    }
}

fn is_known_event_state(state: &String) -> (r: bool)
    ensures
        r == known_event_state(state@),
{
    proof {
        reveal_strlit("active");
        reveal_strlit("updated");
        reveal_strlit("ended");
    }
    let active = "active".to_owned();
    let updated = "updated".to_owned();
    let ended = "ended".to_owned();
    assert(active@ =~= seq!['a', 'c', 't', 'i', 'v', 'e']);
    assert(updated@ =~= seq!['u', 'p', 'd', 'a', 't', 'e', 'd']);
    assert(ended@ =~= seq!['e', 'n', 'd', 'e', 'd']);
    string_eq(state, &active) || string_eq(state, &updated) || string_eq(state, &ended)
}

impl WeatherDataV6 {
    /// The bounds of the packet's data: its texts, contents and provenance, and a known state
    /// for a weather event.
    pub fn validate(&self) -> (r: Result<(), DecisionV6Error>)
        ensures
            r == weather_data_verdict(*self),
    {
        match self {
            WeatherDataV6::Observation(value) => {
                let description = match &value.text_description {
                    Some(d) => content(d).is_ok(),
                    None => true,
                };
                if text(&value.station_id).is_err() || !description || !optional_text(
                    &value.persistence_status,
                ) || !optional_text(&value.temperature_day_mode) || !optional_text(
                    &value.temperature_day_date,
                ) || !optional_text(&value.report_type) || !optional_text(
                    &value.source_report_id,
                ) || validate_provenance(&value.provenance).is_err() {
                    return Err(DecisionV6Error::BoundExceeded);
                }
                Ok(())
            },
            WeatherDataV6::Report(value) => {
                if text(&value.report_id).is_err() || text(&value.report_type).is_err() || text(
                    &value.report_date,
                ).is_err() || text(&value.provider).is_err() || content(
                    &value.source_url,
                ).is_err() || validate_provenance(&value.provenance).is_err() {
                    return Err(DecisionV6Error::BoundExceeded);
                }
                Ok(())
            },
            WeatherDataV6::Extreme { value, .. } => {
                if !optional_text(&value.temperature_day_mode) || !optional_text(
                    &value.temperature_day_date,
                ) || !optional_text(&value.report_type) || !optional_text(&value.source_report_id)
                    || validate_provenance(&value.provenance).is_err() {
                    return Err(DecisionV6Error::BoundExceeded);
                }
                Ok(())
            },
            WeatherDataV6::WeatherEvent(value) => {
                if text(&value.event_id).is_err() || text(&value.event_type).is_err() || text(
                    &value.tier,
                ).is_err() || text(&value.state).is_err() {
                    return Err(DecisionV6Error::BoundExceeded);
                }
                if !is_known_event_state(&value.state) {
                    return Err(DecisionV6Error::InvalidContract);
                }
                let source = match &value.source {
                    Some(s) => optional_text(&s.metar_type) && optional_text(&s.flight_category)
                        && optional_text(&s.wx_string) && optional_text(&s.wx_token)
                        && optional_text(&s.cb_location),
                    None => true,
                };
                if content(&value.name).is_err() || content(&value.badge).is_err() || content(
                    &value.detail,
                ).is_err() || content(&value.summary).is_err() || !source || validate_provenance(
                    &value.provenance,
                ).is_err() {
                    return Err(DecisionV6Error::BoundExceeded);
                }
                Ok(())
            },
        }
    }
}

/// The oracle tables the host holds for one owner station, beside the owner projection.
#[derive(Clone, Debug, Eq, PartialEq)]
pub struct StationInputsV6 {
    pub station_id: String,
    pub oracles: Vec<OracleInputV6>,
}

/// One current oracle table with its component metadata.
#[derive(Clone, Debug, Eq, PartialEq)]
pub struct OracleInputV6 {
    pub meta: ComponentMetaV4,
    pub table: OracleTableV4,
}

/// The most oracle tables one station carries (one per rank direction).
pub const MAX_STATION_ORACLES: usize = 2;

/// The most rows one oracle table carries.
pub const MAX_ORACLE_ROWS: usize = 32;

/// The days an oracle query covers.
pub const ORACLE_QUERY_DAYS: u8 = 7;

pub open spec fn provenance_same(a: ProvenanceV4, b: ProvenanceV4) -> bool {
    &&& a.provider@ == b.provider@
    &&& a.source@ == b.source@
    &&& opt_view(a.event_id) == opt_view(b.event_id)
    &&& a.connection_epoch == b.connection_epoch
    &&& a.sid == b.sid
    &&& a.sequence == b.sequence
    &&& a.city_sequence == b.city_sequence
    &&& a.producer_sequence == b.producer_sequence
    &&& a.received_frame_ordinal == b.received_frame_ordinal
    &&& a.provider_at_unix_ms == b.provider_at_unix_ms
    &&& a.received_at_unix_ms == b.received_at_unix_ms
}

/// Two component metadata records hold the same values.
pub open spec fn meta_same(a: ComponentMetaV4, b: ComponentMetaV4) -> bool {
    &&& a.authority == b.authority
    &&& a.revision == b.revision
    &&& a.generation == b.generation
    &&& a.updated_at_unix_ms == b.updated_at_unix_ms
    &&& opt_view(a.expected_version) == opt_view(b.expected_version)
    &&& a.provenance@.len() == b.provenance@.len()
    &&& forall|i: int|
        0 <= i < a.provenance@.len() ==> #[trigger] provenance_same(
            a.provenance@[i],
            b.provenance@[i],
        )
    &&& opt_view(a.refresh_error) == opt_view(b.refresh_error)
}

pub open spec fn query_same(a: OracleQueryV4, b: OracleQueryV4) -> bool {
    a.station_id@ == b.station_id@ && a.mode@ == b.mode@ && a.rank_by == b.rank_by && a.days
        == b.days
}

pub open spec fn row_same(a: OracleRowV4, b: OracleRowV4) -> bool {
    &&& a.rank == b.rank
    &&& a.model_id@ == b.model_id@
    &&& a.model_name@ == b.model_name@
    &&& a.is_public == b.is_public
    &&& a.high_mae_millionths == b.high_mae_millionths
    &&& a.low_mae_millionths == b.low_mae_millionths
    &&& a.combined_mae_millionths == b.combined_mae_millionths
    &&& a.high_bias_millionths == b.high_bias_millionths
    &&& a.low_bias_millionths == b.low_bias_millionths
    &&& a.day_count == b.day_count
}

/// Two oracle tables hold the same values.
pub open spec fn table_same(a: OracleTableV4, b: OracleTableV4) -> bool {
    &&& query_same(a.query, b.query)
    &&& a.range_start@ == b.range_start@
    &&& a.range_end@ == b.range_end@
    &&& a.updated_at_unix_ms == b.updated_at_unix_ms
    &&& a.rows@.len() == b.rows@.len()
    &&& forall|i: int| 0 <= i < a.rows@.len() ==> #[trigger] row_same(a.rows@[i], b.rows@[i])
    &&& provenance_same(a.provenance, b.provenance)
}

fn authority_eq(a: &AuthorityV4, b: &AuthorityV4) -> (r: bool)
    ensures
        r == (*a == *b),
{
    match (a, b) {
        (AuthorityV4::Warming, AuthorityV4::Warming) => true,
        (AuthorityV4::Current, AuthorityV4::Current) => true,
        (AuthorityV4::RefreshPending, AuthorityV4::RefreshPending) => true,
        (AuthorityV4::Uncertain, AuthorityV4::Uncertain) => true,
        (AuthorityV4::Unavailable, AuthorityV4::Unavailable) => true,
        _ => false,
    }
}

fn is_low(rank_by: &RankByV4) -> (r: bool)
    ensures
        r == (*rank_by == RankByV4::Low),
{
    match rank_by {
        RankByV4::Low => true,
        RankByV4::High => false,
    }
}

fn provenance_eq(a: &ProvenanceV4, b: &ProvenanceV4) -> (r: bool)
    ensures
        r == provenance_same(*a, *b),
{
    string_eq(&a.provider, &b.provider) && string_eq(&a.source, &b.source) && optional_string_eq(
        &a.event_id,
        &b.event_id,
    ) && a.connection_epoch == b.connection_epoch && a.sid == b.sid && a.sequence == b.sequence
        && a.city_sequence == b.city_sequence && a.producer_sequence == b.producer_sequence
        && a.received_frame_ordinal == b.received_frame_ordinal && a.provider_at_unix_ms
        == b.provider_at_unix_ms && a.received_at_unix_ms == b.received_at_unix_ms
}

fn meta_eq(a: &ComponentMetaV4, b: &ComponentMetaV4) -> (r: bool)
    ensures
        r == meta_same(*a, *b),
{
    if !authority_eq(&a.authority, &b.authority) || a.revision != b.revision || a.generation
        != b.generation || a.updated_at_unix_ms != b.updated_at_unix_ms || !optional_string_eq(
        &a.expected_version,
        &b.expected_version,
    ) || a.provenance.len() != b.provenance.len() || !optional_string_eq(
        &a.refresh_error,
        &b.refresh_error,
    ) {
        return false;
    }
    let mut i: usize = 0;
    while i < a.provenance.len()
        invariant
            0 <= i <= a.provenance@.len(),
            a.provenance@.len() == b.provenance@.len(),
            forall|k: int|
                0 <= k < i ==> #[trigger] provenance_same(a.provenance@[k], b.provenance@[k]),
        decreases a.provenance@.len() - i,
    {
        if !provenance_eq(&a.provenance[i], &b.provenance[i]) {
            return false;
        }
        i += 1;
    }
    true
}

fn query_eq(a: &OracleQueryV4, b: &OracleQueryV4) -> (r: bool)
    ensures
        r == query_same(*a, *b),
{
    string_eq(&a.station_id, &b.station_id) && string_eq(&a.mode, &b.mode) && is_low(&a.rank_by)
        == is_low(&b.rank_by) && a.days == b.days
}

fn row_eq(a: &OracleRowV4, b: &OracleRowV4) -> (r: bool)
    ensures
        r == row_same(*a, *b),
{
    a.rank == b.rank && string_eq(&a.model_id, &b.model_id) && string_eq(
        &a.model_name,
        &b.model_name,
    ) && a.is_public == b.is_public && a.high_mae_millionths == b.high_mae_millionths
        && a.low_mae_millionths == b.low_mae_millionths && a.combined_mae_millionths
        == b.combined_mae_millionths && a.high_bias_millionths == b.high_bias_millionths
        && a.low_bias_millionths == b.low_bias_millionths && a.day_count == b.day_count
}

fn table_eq(a: &OracleTableV4, b: &OracleTableV4) -> (r: bool)
    ensures
        r == table_same(*a, *b),
{
    if !query_eq(&a.query, &b.query) || !string_eq(&a.range_start, &b.range_start) || !string_eq(
        &a.range_end,
        &b.range_end,
    ) || a.updated_at_unix_ms != b.updated_at_unix_ms || a.rows.len() != b.rows.len()
        || !provenance_eq(&a.provenance, &b.provenance) {
        return false;
    }
    let mut i: usize = 0;
    while i < a.rows.len()
        invariant
            0 <= i <= a.rows@.len(),
            a.rows@.len() == b.rows@.len(),
            forall|k: int| 0 <= k < i ==> #[trigger] row_same(a.rows@[k], b.rows@[k]),
        decreases a.rows@.len() - i,
    {
        if !row_eq(&a.rows[i], &b.rows[i]) {
            return false;
        }
        i += 1;
    }
    true
}

/// One row of an oracle table at `index`: ranked `index + 1`, else `InvalidContract`; its
/// model id and name are text, else `BoundExceeded`.
pub open spec fn row_verdict(row: OracleRowV4, index: int) -> Result<(), DecisionV6Error> {
    if row.rank != index + 1 {
        Err(DecisionV6Error::InvalidContract)
    } else if !text_fits(row.model_id@) || !text_fits(row.model_name@) {
        Err(DecisionV6Error::BoundExceeded)
    } else {
        Ok(())
    }
}

/// The first refusal among the first `n` rows, in order.
pub open spec fn rows_verdict(rows: Seq<OracleRowV4>, n: nat) -> Result<(), DecisionV6Error>
    decreases n,
{
    if n == 0 {
        Ok(())
    } else {
        match rows_verdict(rows, (n - 1) as nat) {
            Err(e) => Err(e),
            Ok(_) => row_verdict(rows[n - 1], n - 1),
        }
    }
}

pub open spec fn day_of() -> Seq<char> {
    seq!['d', 'a', 'y', '_', 'o', 'f']
}

/// An oracle input's query names its station, asks `day_of` over 7 days, follows the rank
/// direction of the input before it (high before low), holds at most 32 rows, and its metadata
/// revision is not ahead of the station's.
pub open spec fn oracle_shape_valid(
    input: OracleInputV6,
    station_id: Seq<char>,
    station: StationV4,
    previous_low: Option<bool>,
) -> bool {
    let q = input.table.query;
    let low = q.rank_by == RankByV4::Low;
    &&& q.station_id@ == station_id
    &&& q.mode@ == day_of()
    &&& q.days == ORACLE_QUERY_DAYS
    &&& (previous_low matches Some(prior) ==> !prior && low)
    &&& input.table.rows@.len() <= MAX_ORACLE_ROWS
    &&& input.meta.revision <= station.revision
}

#[verifier::opaque]
/// The verdict on one oracle input: its shape, its metadata, the bounds of its table's texts
/// and rows, and agreement with the station's own table where they answer the same query.
pub open spec fn oracle_input_verdict(
    input: OracleInputV6,
    station_id: Seq<char>,
    station: StationV4,
    previous_low: Option<bool>,
) -> Result<(), DecisionV6Error> {
    let table = input.table;
    if !oracle_shape_valid(input, station_id, station, previous_low) {
        Err(DecisionV6Error::InvalidContract)
    } else if meta_verdict(input.meta) is Err {
        meta_verdict(input.meta)
    } else if !provenance_fits(table.provenance) || !text_fits(table.range_start@) || !text_fits(
        table.range_end@,
    ) {
        Err(DecisionV6Error::BoundExceeded)
    } else if rows_verdict(table.rows@, table.rows@.len()) is Err {
        rows_verdict(table.rows@, table.rows@.len())
    } else if query_same(table.query, station.oracle.query) && (!table_same(table, station.oracle)
        || !meta_same(input.meta, station.oracle_meta)) {
        Err(DecisionV6Error::InvalidContract)
    } else {
        Ok(())
    }
}

pub open spec fn previous_low(oracles: Seq<OracleInputV6>, i: int) -> Option<bool> {
    if i == 0 {
        None
    } else {
        Some(oracles[i - 1].table.query.rank_by == RankByV4::Low)
    }
}

/// The first refusal among the first `n` oracle inputs of a station, in order.
pub open spec fn oracles_verdict(
    oracles: Seq<OracleInputV6>,
    station_id: Seq<char>,
    station: StationV4,
    n: nat,
) -> Result<(), DecisionV6Error>
    decreases n,
{
    if n == 0 {
        Ok(())
    } else {
        match oracles_verdict(oracles, station_id, station, (n - 1) as nat) {
            Err(e) => Err(e),
            Ok(_) => oracle_input_verdict(
                oracles[n - 1],
                station_id,
                station,
                previous_low(oracles, n - 1),
            ),
        }
    }
}

/// The verdict on one station's inputs against the owner station at the same place: the same
/// station id and at most two tables, each valid, one of which answers the station's query.
pub open spec fn station_inputs_verdict(inputs: StationInputsV6, station: StationV4) -> Result<
    (),
    DecisionV6Error,
> {
    let oracles = inputs.oracles@;
    if inputs.station_id@ != station.identity.station_id@ || oracles.len() > MAX_STATION_ORACLES {
        Err(DecisionV6Error::InvalidContract)
    } else if oracles_verdict(oracles, inputs.station_id@, station, oracles.len()) is Err {
        oracles_verdict(oracles, inputs.station_id@, station, oracles.len())
    } else if !(exists|i: int|
        0 <= i < oracles.len() && #[trigger] query_same(
            oracles[i].table.query,
            station.oracle.query,
        )) {
        Err(DecisionV6Error::InvalidContract)
    } else {
        Ok(())
    }
}

/// The first refusal among the first `n` stations, in order.
pub open spec fn stations_inputs_verdict(
    inputs: Seq<StationInputsV6>,
    stations: Seq<StationV4>,
    n: nat,
) -> Result<(), DecisionV6Error>
    decreases n,
{
    if n == 0 {
        Ok(())
    } else {
        match stations_inputs_verdict(inputs, stations, (n - 1) as nat) {
            Err(e) => Err(e),
            Ok(_) => station_inputs_verdict(inputs[n - 1], stations[n - 1]),
        }
    }
}

/// The verdict on the current station inputs: one per owner station, in the owner's order,
/// else `InvalidContract`; then each station's, in order.
pub open spec fn current_stations_verdict(
    inputs: Seq<StationInputsV6>,
    stations: Seq<StationV4>,
) -> Result<(), DecisionV6Error> {
    if inputs.len() != stations.len() {
        Err(DecisionV6Error::InvalidContract)
    } else {
        stations_inputs_verdict(inputs, stations, inputs.len())
    }
}

proof fn lemma_rows_verdict_settles(rows: Seq<OracleRowV4>, k: nat, n: nat)
    requires
        k <= n,
        rows_verdict(rows, k) is Err,
    ensures
        rows_verdict(rows, n) == rows_verdict(rows, k),
    decreases n,
{
    if n > k {
        lemma_rows_verdict_settles(rows, k, (n - 1) as nat);
    }
}

proof fn lemma_oracles_verdict_settles(
    oracles: Seq<OracleInputV6>,
    station_id: Seq<char>,
    station: StationV4,
    k: nat,
    n: nat,
)
    requires
        k <= n,
        oracles_verdict(oracles, station_id, station, k) is Err,
    ensures
        oracles_verdict(oracles, station_id, station, n) == oracles_verdict(
            oracles,
            station_id,
            station,
            k,
        ),
    decreases n,
{
    if n > k {
        lemma_oracles_verdict_settles(oracles, station_id, station, k, (n - 1) as nat);
    }
}

proof fn lemma_stations_verdict_settles(
    inputs: Seq<StationInputsV6>,
    stations: Seq<StationV4>,
    k: nat,
    n: nat,
)
    requires
        k <= n,
        stations_inputs_verdict(inputs, stations, k) is Err,
    ensures
        stations_inputs_verdict(inputs, stations, n) == stations_inputs_verdict(
            inputs,
            stations,
            k,
        ),
    decreases n,
{
    if n > k {
        lemma_stations_verdict_settles(inputs, stations, k, (n - 1) as nat);
    }
}

fn validate_rows(rows: &Vec<OracleRowV4>) -> (r: Result<(), DecisionV6Error>)
    requires
        rows@.len() <= MAX_ORACLE_ROWS,
    ensures
        r == rows_verdict(rows@, rows@.len()),
{
    let mut i: usize = 0;
    while i < rows.len()
        invariant
            0 <= i <= rows@.len() <= MAX_ORACLE_ROWS,
            rows_verdict(rows@, i as nat) is Ok,
        decreases rows@.len() - i,
    {
        let row = &rows[i];
        if row.rank as usize != i + 1 || text(&row.model_id).is_err() || text(
            &row.model_name,
        ).is_err() {
            proof {
                lemma_rows_verdict_settles(rows@, (i + 1) as nat, rows@.len());
            }
            if row.rank as usize != i + 1 {
                return Err(DecisionV6Error::InvalidContract);
            }
            return Err(DecisionV6Error::BoundExceeded);
        }
        i += 1;
    }
    Ok(())
}

fn validate_oracle_input(
    input: &OracleInputV6,
    station_id: &String,
    station: &StationV4,
    previous_low: Option<bool>,
) -> (r: Result<(), DecisionV6Error>)
    ensures
        r == oracle_input_verdict(*input, station_id@, *station, previous_low),
{
    reveal(oracle_input_verdict);
    let table = &input.table;
    let query = &table.query;
    let low = is_low(&query.rank_by);
    let mode = String::from_str("day_of");
    proof {
        reveal_strlit("day_of");
        assert(mode@ =~= day_of());
    }
    let ordered = match previous_low {
        Some(prior) => !prior && low,
        None => true,
    };
    if !string_eq(&query.station_id, station_id) || !string_eq(&query.mode, &mode) || query.days
        != ORACLE_QUERY_DAYS || !ordered || table.rows.len() > MAX_ORACLE_ROWS
        || input.meta.revision > station.revision {
        return Err(DecisionV6Error::InvalidContract);
    }
    let meta = validate_meta(&input.meta);
    if meta.is_err() {
        return meta;
    }
    if validate_provenance(&table.provenance).is_err() || text(&table.range_start).is_err() || text(
        &table.range_end,
    ).is_err() {
        return Err(DecisionV6Error::BoundExceeded);
    }
    let rows = validate_rows(&table.rows);
    if rows.is_err() {
        return rows;
    }
    if query_eq(query, &station.oracle.query) && (!table_eq(table, &station.oracle) || !meta_eq(
        &input.meta,
        &station.oracle_meta,
    )) {
        return Err(DecisionV6Error::InvalidContract);
    }
    Ok(())
}

fn validate_station_inputs(inputs: &StationInputsV6, station: &StationV4) -> (r: Result<
    (),
    DecisionV6Error,
>)
    ensures
        r == station_inputs_verdict(*inputs, *station),
{
    if !string_eq(&inputs.station_id, &station.identity.station_id) || inputs.oracles.len()
        > MAX_STATION_ORACLES {
        return Err(DecisionV6Error::InvalidContract);
    }
    let mut previous: Option<bool> = None;
    let mut i: usize = 0;
    while i < inputs.oracles.len()
        invariant
            0 <= i <= inputs.oracles@.len(),
            previous == previous_low(inputs.oracles@, i as int),
            inputs.station_id@ == station.identity.station_id@,
            inputs.oracles@.len() <= MAX_STATION_ORACLES,
            oracles_verdict(inputs.oracles@, inputs.station_id@, *station, i as nat) is Ok,
        decreases inputs.oracles@.len() - i,
    {
        let checked = validate_oracle_input(&inputs.oracles[i], &inputs.station_id, station, previous);
        if checked.is_err() {
            proof {
                lemma_oracles_verdict_settles(
                    inputs.oracles@,
                    inputs.station_id@,
                    *station,
                    (i + 1) as nat,
                    inputs.oracles@.len(),
                );
            }
            return checked;
        }
        previous = Some(is_low(&inputs.oracles[i].table.query.rank_by));
        i += 1;
    }
    let mut j: usize = 0;
    while j < inputs.oracles.len()
        invariant
            0 <= j <= inputs.oracles@.len(),
            oracles_verdict(inputs.oracles@, inputs.station_id@, *station, inputs.oracles@.len()) is Ok,
            inputs.station_id@ == station.identity.station_id@,
            inputs.oracles@.len() <= MAX_STATION_ORACLES,
            forall|k: int|
                0 <= k < j ==> !#[trigger] query_same(
                    inputs.oracles@[k].table.query,
                    station.oracle.query,
                ),
        decreases inputs.oracles@.len() - j,
    {
        if query_eq(&inputs.oracles[j].table.query, &station.oracle.query) {
            assert(query_same(inputs.oracles@[j as int].table.query, station.oracle.query));
            return Ok(());
        }
        j += 1;
    }
    Err(DecisionV6Error::InvalidContract)
}

/// Checks the current oracle inputs against the owner stations: one entry per station, in
/// the same order, each valid.
pub fn validate_current_stations(inputs: &Vec<StationInputsV6>, stations: &Vec<StationV4>) -> (r:
    Result<(), DecisionV6Error>)
    ensures
        r == current_stations_verdict(inputs@, stations@),
{
    if inputs.len() != stations.len() {
        return Err(DecisionV6Error::InvalidContract);
    }
    let mut i: usize = 0;
    while i < inputs.len()
        invariant
            0 <= i <= inputs@.len(),
            inputs@.len() == stations@.len(),
            stations_inputs_verdict(inputs@, stations@, i as nat) is Ok,
        decreases inputs@.len() - i,
    {
        let checked = validate_station_inputs(&inputs[i], &stations[i]);
        if checked.is_err() {
            proof {
                lemma_stations_verdict_settles(inputs@, stations@, (i + 1) as nat, inputs@.len());
            }
            return checked;
        }
        i += 1;
    }
    Ok(())
}

} // verus!
