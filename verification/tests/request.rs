use hegel_session::cbor::{cbor_decode, cbor_encode, get_bool, get_text, get_u64, map_get, CborValue};
use hegel_session::request::{ack_null, ack_true, run_test_message, single_test_case_message};
use hegel_session::settings::{
    health_check_as_str, phase_as_str, Database, HealthCheck, Mode, Phase, Settings, Verbosity,
};

fn text(s: &str) -> CborValue {
    CborValue::Text(s.to_string())
}

fn settings() -> Settings {
    Settings {
        mode: Mode::TestRun,
        test_cases: 100,
        verbosity: Verbosity::Normal,
        seed: None,
        derandomize: false,
        database: Database::Unset,
        suppress_health_check: vec![],
        phases: vec![],
    }
}

#[test]
fn health_checks_have_names() {
    assert_eq!(health_check_as_str(&HealthCheck::FilterTooMuch), "filter_too_much");
    assert_eq!(health_check_as_str(&HealthCheck::TooSlow), "too_slow");
    assert_eq!(health_check_as_str(&HealthCheck::TestCasesTooLarge), "test_cases_too_large");
    assert_eq!(health_check_as_str(&HealthCheck::LargeInitialTestCase), "large_initial_test_case");
}

#[test]
fn phases_have_names() {
    assert_eq!(phase_as_str(&Phase::Explicit), "explicit");
    assert_eq!(phase_as_str(&Phase::Reuse), "reuse");
    assert_eq!(phase_as_str(&Phase::Generate), "generate");
    assert_eq!(phase_as_str(&Phase::Target), "target");
    assert_eq!(phase_as_str(&Phase::Shrink), "shrink");
}

#[test]
fn a_bare_run_is_opened() {
    assert_eq!(
        run_test_message(&settings(), None, 5),
        CborValue::Mapping(vec![
            (text("command"), text("run_test")),
            (text("test_cases"), CborValue::Integer(100)),
            (text("seed"), CborValue::Null),
            (text("stream_id"), CborValue::Integer(5)),
            (text("database_key"), CborValue::Null),
            (text("derandomize"), CborValue::Bool(false)),
            (text("phases"), CborValue::Array(vec![])),
        ])
    );
}

#[test]
fn a_run_with_everything_is_opened() {
    let settings = Settings {
        seed: Some(u64::MAX),
        derandomize: true,
        database: Database::Path("/tmp/db".to_string()),
        suppress_health_check: vec![HealthCheck::TooSlow, HealthCheck::FilterTooMuch],
        phases: vec![Phase::Shrink, Phase::Generate],
        ..settings()
    };
    assert_eq!(
        run_test_message(&settings, Some("k\u{00e9}y"), u32::MAX),
        CborValue::Mapping(vec![
            (text("command"), text("run_test")),
            (text("test_cases"), CborValue::Integer(100)),
            (text("seed"), CborValue::Integer(18446744073709551615)),
            (text("stream_id"), CborValue::Integer(4294967295)),
            (text("database_key"), CborValue::Bytes(vec![b'k', 0xc3, 0xa9, b'y'])),
            (text("derandomize"), CborValue::Bool(true)),
            (text("database"), text("/tmp/db")),
            (
                text("suppress_health_check"),
                CborValue::Array(vec![text("too_slow"), text("filter_too_much")])
            ),
            (text("phases"), CborValue::Array(vec![text("shrink"), text("generate")])),
        ])
    );
}

#[test]
fn a_disabled_database_is_null() {
    let settings = Settings { database: Database::Disabled, ..settings() };
    let message = run_test_message(&settings, None, 1);
    assert_eq!(map_get(&message, "database"), Some(&CborValue::Null));
}

#[test]
fn the_server_finds_the_settings() {
    let settings = Settings { test_cases: 7, seed: Some(3), derandomize: true, ..settings() };
    let message = cbor_decode(&cbor_encode(&run_test_message(&settings, Some("key"), 9))).unwrap();
    assert_eq!(get_text(&message, "command").unwrap(), "run_test");
    assert_eq!(get_u64(&message, "test_cases"), Some(7));
    assert_eq!(get_u64(&message, "seed"), Some(3));
    assert_eq!(get_u64(&message, "stream_id"), Some(9));
    assert_eq!(get_bool(&message, "derandomize"), Some(true));
    assert_eq!(map_get(&message, "database_key"), Some(&CborValue::Bytes(b"key".to_vec())));
    assert_eq!(map_get(&message, "database"), None);
    assert_eq!(map_get(&message, "suppress_health_check"), None);
    assert_eq!(map_get(&message, "phases"), Some(&CborValue::Array(vec![])));
}

#[test]
fn a_single_test_case_is_opened() {
    assert_eq!(
        single_test_case_message(None, 3),
        CborValue::Mapping(vec![
            (text("command"), text("single_test_case")),
            (text("stream_id"), CborValue::Integer(3)),
        ])
    );
    assert_eq!(
        single_test_case_message(Some(11), 3),
        CborValue::Mapping(vec![
            (text("command"), text("single_test_case")),
            (text("stream_id"), CborValue::Integer(3)),
            (text("seed"), CborValue::Integer(11)),
        ])
    );
}

#[test]
fn events_are_answered() {
    assert_eq!(ack_null(), CborValue::Mapping(vec![(text("result"), CborValue::Null)]));
    assert_eq!(ack_true(), CborValue::Mapping(vec![(text("result"), CborValue::Bool(true))]));
}

#[test]
fn a_single_test_case_without_a_seed_has_no_seed_entry() {
    assert_eq!(map_get(&single_test_case_message(None, 3), "seed"), None);
    assert_eq!(
        map_get(&single_test_case_message(Some(11), 3), "seed"),
        Some(&CborValue::Integer(11))
    );
}
