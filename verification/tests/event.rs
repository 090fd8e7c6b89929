use hegel_session::cbor::CborValue;
use hegel_session::event::{read_event, read_final_event, read_results, Event, Summary};
use hegel_session::failure::Failure;
use hegel_session::run::receive_event;

fn text(s: &str) -> CborValue {
    CborValue::Text(s.to_string())
}

fn mapping(entries: Vec<(&str, CborValue)>) -> CborValue {
    CborValue::Mapping(entries.into_iter().map(|(k, v)| (text(k), v)).collect())
}

fn report(key: &str) -> (&str, CborValue) {
    (key, text(&format!("{} text", key)))
}

#[test]
fn a_test_case_names_its_stream() {
    let event = mapping(vec![("event", text("test_case")), ("stream_id", CborValue::Integer(6))]);
    assert_eq!(read_event(&event), Ok(Event::TestCase { stream_id: 6 }));
    assert_eq!(read_final_event(&event), Ok(6));
}

#[test]
fn a_stream_id_is_cut_to_its_low_half() {
    let event = mapping(vec![
        ("event", text("test_case")),
        ("stream_id", CborValue::Integer(0x1_0000_0005)),
    ]);
    assert_eq!(read_event(&event), Ok(Event::TestCase { stream_id: 5 }));
}

#[test]
fn a_test_case_without_a_stream_is_refused() {
    for id in [CborValue::Null, CborValue::Integer(-1), text("6")] {
        let event = mapping(vec![("event", text("test_case")), ("stream_id", id)]);
        assert_eq!(read_event(&event), Err(Failure::NoStreamId));
        assert_eq!(read_final_event(&event), Err(Failure::NoStreamId));
    }
}

#[test]
fn the_end_of_a_search_brings_results() {
    let results = mapping(vec![("passed", CborValue::Bool(false))]);
    let event = mapping(vec![("event", text("test_done")), ("results", results.clone())]);
    assert_eq!(read_event(&event), Ok(Event::TestDone { results }));
    let event = mapping(vec![("event", text("test_done"))]);
    assert_eq!(read_event(&event), Ok(Event::TestDone { results: CborValue::Null }));
}

#[test]
fn an_event_needs_a_known_type() {
    assert_eq!(read_event(&CborValue::Null), Err(Failure::NoEventType));
    assert_eq!(
        read_event(&mapping(vec![("event", CborValue::Integer(1))])),
        Err(Failure::NoEventType)
    );
    assert_eq!(
        read_event(&mapping(vec![("event", text("stop"))])),
        Err(Failure::UnknownEvent("stop".to_string()))
    );
}

#[test]
fn only_a_test_case_can_be_final() {
    assert_eq!(
        read_final_event(&mapping(vec![("event", text("test_done"))])),
        Err(Failure::UnexpectedFinal(Some("test_done".to_string())))
    );
    assert_eq!(read_final_event(&CborValue::Null), Err(Failure::UnexpectedFinal(None)));
}

#[test]
fn results_have_defaults() {
    assert_eq!(read_results(&CborValue::Null), Ok(Summary { interesting: 0, passed: true }));
    assert_eq!(
        read_results(&mapping(vec![
            ("interesting_test_cases", CborValue::Integer(2)),
            ("passed", CborValue::Bool(false)),
        ])),
        Ok(Summary { interesting: 2, passed: false })
    );
    assert_eq!(
        read_results(&mapping(vec![("error", CborValue::Null), ("passed", CborValue::Integer(0))])),
        Ok(Summary { interesting: 0, passed: true })
    );
}

#[test]
fn reports_have_an_order() {
    assert_eq!(
        read_results(&mapping(vec![
            report("flaky"),
            report("health_check_failure"),
            report("error"),
        ])),
        Err(Failure::ServerError("error text".to_string()))
    );
    assert_eq!(
        read_results(&mapping(vec![report("flaky"), report("health_check_failure")])),
        Err(Failure::HealthCheckFailure("health_check_failure text".to_string()))
    );
    assert_eq!(
        read_results(&mapping(vec![report("flaky")])),
        Err(Failure::Flaky("flaky text".to_string()))
    );
}

#[test]
fn an_event_that_does_not_come_is_a_failure() {
    assert_eq!(receive_event(Ok((1, vec![2])), false), Ok((1, vec![2])));
    assert_eq!(receive_event(Ok((1, vec![2])), true), Ok((1, vec![2])));
    assert_eq!(receive_event(Err("gone".to_string()), true), Err(Failure::ServerCrashed));
    assert_eq!(
        receive_event(Err("gone".to_string()), false),
        Err(Failure::NotReceived("gone".to_string()))
    );
}

#[test]
fn failures_have_messages() {
    let e = || "e".to_string();
    for (failure, message) in [
        (
            Failure::NotReceived(e()),
            "internal error: entered unreachable code: \
             Failed to receive event (server still running): e",
        ),
        (Failure::NoEventType, "Expected event in payload"),
        (Failure::UnknownEvent(e()), "unknown event: e"),
        (Failure::NoStreamId, "Missing stream id"),
        (Failure::CaseNotAcked(e()), "Failed to ack test_case: e"),
        (Failure::DoneNotAcked(e()), "Failed to ack test_done: e"),
        (Failure::ServerError(e()), "Server error: e"),
        (Failure::HealthCheckFailure(e()), "Health check failure:\ne"),
        (Failure::Flaky(e()), "Flaky test detected: e"),
        (Failure::FinalNotReceived(e()), "Failed to receive final test_case: e"),
        (
            Failure::UnexpectedFinal(None),
            "assertion `left == right` failed\n  left: None\n right: Some(\"test_case\")",
        ),
        (
            Failure::UnexpectedFinal(Some("a\"b".to_string())),
            "assertion `left == right` failed\n  left: Some(\"a\\\"b\")\n right: Some(\"test_case\")",
        ),
        (Failure::FinalNotAcked(e()), "Failed to ack final test_case: e"),
    ] {
        assert_eq!(failure.message().unwrap(), message);
    }
    for failure in [Failure::Channel(e()), Failure::Undecodable, Failure::ServerCrashed] {
        assert_eq!(failure.message(), None);
    }
}
