use strategy_core_v3::current_v6::{validate_current_stations, OracleInputV6, StationInputsV6};
use strategy_core_v3::decision_v4::{
    AuthorityV4, ComponentMetaV4, OracleQueryV4, OracleRowV4, OracleTableV4, ProvenanceV4,
    RankByV4, StationIdentityV4, StationV4,
};
use strategy_core_v3::decision_v6::DecisionV6Error;

fn s(value: &str) -> String {
    value.to_owned()
}

fn meta(revision: u64) -> ComponentMetaV4 {
    ComponentMetaV4 {
        authority: AuthorityV4::Current,
        revision,
        generation: 1,
        updated_at_unix_ms: Some(10),
        expected_version: None,
        provenance: vec![ProvenanceV4 {
            provider: s("oracle"),
            source: s("rest"),
            ..Default::default()
        }],
        refresh_error: None,
    }
}

fn table(station_id: &str, rank_by: RankByV4) -> OracleTableV4 {
    OracleTableV4 {
        query: OracleQueryV4 {
            station_id: s(station_id),
            mode: s("day_of"),
            rank_by,
            days: 7,
        },
        range_start: s("2026-08-23"),
        range_end: s("2026-08-30"),
        updated_at_unix_ms: Some(10),
        rows: vec![
            OracleRowV4 {
                rank: 1,
                model_id: s("gfs"),
                model_name: s("GFS"),
                ..Default::default()
            },
            OracleRowV4 {
                rank: 2,
                model_id: s("ecmwf"),
                model_name: s("ECMWF"),
                ..Default::default()
            },
        ],
        provenance: ProvenanceV4 {
            provider: s("oracle"),
            source: s("rest"),
            ..Default::default()
        },
    }
}

fn station(station_id: &str) -> StationV4 {
    StationV4 {
        revision: 3,
        identity: StationIdentityV4 {
            station_id: s(station_id),
            ..Default::default()
        },
        oracle_meta: meta(2),
        oracle: table(station_id, RankByV4::High),
        ..Default::default()
    }
}

fn inputs(station_id: &str, oracles: Vec<OracleInputV6>) -> StationInputsV6 {
    StationInputsV6 {
        station_id: s(station_id),
        oracles,
    }
}

fn current(station_id: &str) -> OracleInputV6 {
    OracleInputV6 {
        meta: meta(2),
        table: table(station_id, RankByV4::High),
    }
}

fn low(station_id: &str) -> OracleInputV6 {
    OracleInputV6 {
        meta: meta(1),
        table: table(station_id, RankByV4::Low),
    }
}

#[test]
fn the_station_table_and_its_low_companion_are_accepted() {
    let stations = vec![station("KSEA")];
    assert_eq!(
        validate_current_stations(&vec![inputs("KSEA", vec![current("KSEA")])], &stations),
        Ok(())
    );
    assert_eq!(
        validate_current_stations(
            &vec![inputs("KSEA", vec![current("KSEA"), low("KSEA")])],
            &stations
        ),
        Ok(())
    );
}

#[test]
fn current_inputs_follow_the_owner_stations_one_for_one() {
    let stations = vec![station("KSEA")];
    assert_eq!(
        validate_current_stations(&vec![], &stations),
        Err(DecisionV6Error::InvalidContract)
    );
    assert_eq!(
        validate_current_stations(&vec![inputs("KPDX", vec![current("KPDX")])], &stations),
        Err(DecisionV6Error::InvalidContract)
    );
    assert_eq!(
        validate_current_stations(
            &vec![inputs("KSEA", vec![current("KSEA"), low("KSEA"), low("KSEA")])],
            &stations
        ),
        Err(DecisionV6Error::InvalidContract)
    );
}

#[test]
fn a_high_table_comes_before_a_low_one() {
    let stations = vec![station("KSEA")];
    assert_eq!(
        validate_current_stations(
            &vec![inputs("KSEA", vec![low("KSEA"), current("KSEA")])],
            &stations
        ),
        Err(DecisionV6Error::InvalidContract)
    );
    assert_eq!(
        validate_current_stations(
            &vec![inputs("KSEA", vec![current("KSEA"), current("KSEA")])],
            &stations
        ),
        Err(DecisionV6Error::InvalidContract)
    );
}

#[test]
fn an_oracle_query_is_day_of_over_seven_days_for_its_station() {
    let stations = vec![station("KSEA")];
    let mut other_mode = low("KSEA");
    other_mode.table.query.mode = s("rolling");
    let mut other_days = low("KSEA");
    other_days.table.query.days = 14;
    let mut other_station = low("KSEA");
    other_station.table.query.station_id = s("KPDX");
    for input in [other_mode, other_days, other_station] {
        assert_eq!(
            validate_current_stations(
                &vec![inputs("KSEA", vec![current("KSEA"), input])],
                &stations
            ),
            Err(DecisionV6Error::InvalidContract)
        );
    }
}

#[test]
fn rows_are_ranked_in_order_with_text_model_names() {
    let stations = vec![station("KSEA")];
    let mut misranked = low("KSEA");
    misranked.table.rows[1].rank = 3;
    assert_eq!(
        validate_current_stations(
            &vec![inputs("KSEA", vec![current("KSEA"), misranked])],
            &stations
        ),
        Err(DecisionV6Error::InvalidContract)
    );
    let mut unnamed = low("KSEA");
    unnamed.table.rows[0].model_name = String::new();
    assert_eq!(
        validate_current_stations(
            &vec![inputs("KSEA", vec![current("KSEA"), unnamed])],
            &stations
        ),
        Err(DecisionV6Error::BoundExceeded)
    );
    let mut crowded = low("KSEA");
    crowded.table.rows = (1..=33)
        .map(|rank| OracleRowV4 {
            rank,
            model_id: s("m"),
            model_name: s("M"),
            ..Default::default()
        })
        .collect();
    assert_eq!(
        validate_current_stations(
            &vec![inputs("KSEA", vec![current("KSEA"), crowded])],
            &stations
        ),
        Err(DecisionV6Error::InvalidContract)
    );
}

#[test]
fn oracle_metadata_is_valid_and_not_ahead_of_the_station() {
    let stations = vec![station("KSEA")];
    let mut ahead = low("KSEA");
    ahead.meta.revision = 4;
    assert_eq!(
        validate_current_stations(&vec![inputs("KSEA", vec![current("KSEA"), ahead])], &stations),
        Err(DecisionV6Error::InvalidContract)
    );
    let mut unrevised = low("KSEA");
    unrevised.meta.revision = 0;
    assert_eq!(
        validate_current_stations(
            &vec![inputs("KSEA", vec![current("KSEA"), unrevised])],
            &stations
        ),
        Err(DecisionV6Error::InvalidContract)
    );
    let mut long_error = low("KSEA");
    long_error.meta.refresh_error = Some("x".repeat(2049));
    assert_eq!(
        validate_current_stations(
            &vec![inputs("KSEA", vec![current("KSEA"), long_error])],
            &stations
        ),
        Err(DecisionV6Error::BoundExceeded)
    );
}

#[test]
fn the_table_for_the_station_query_is_the_station_table() {
    let stations = vec![station("KSEA")];
    let mut changed = current("KSEA");
    changed.table.rows[1].model_name = s("ECMWF-IFS");
    assert_eq!(
        validate_current_stations(&vec![inputs("KSEA", vec![changed])], &stations),
        Err(DecisionV6Error::InvalidContract)
    );
    let mut remeta = current("KSEA");
    remeta.meta.authority = AuthorityV4::Uncertain;
    assert_eq!(
        validate_current_stations(&vec![inputs("KSEA", vec![remeta])], &stations),
        Err(DecisionV6Error::InvalidContract)
    );
    assert_eq!(
        validate_current_stations(&vec![inputs("KSEA", vec![low("KSEA")])], &stations),
        Err(DecisionV6Error::InvalidContract)
    );
}
