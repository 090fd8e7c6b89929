use hegel_session::cbor::{cbor_decode, cbor_encode, get_text, get_u64, CborValue};
use hegel_session::failure::Failure;
use hegel_session::request::{ack_null, ack_true};
use hegel_session::run::{
    Action, Outcome, ServerTestRunner, TestCaseResult, TestRun, TestRunResult,
};
use hegel_session::settings::{Database, Mode, Phase, Settings, Verbosity};

fn settings(mode: Mode) -> Settings {
    Settings {
        mode,
        test_cases: 10,
        verbosity: Verbosity::Quiet,
        seed: Some(4),
        derandomize: false,
        database: Database::Disabled,
        suppress_health_check: vec![],
        phases: vec![Phase::Generate],
    }
}

fn text(s: &str) -> CborValue {
    CborValue::Text(s.to_string())
}

fn mapping(entries: Vec<(&str, CborValue)>) -> CborValue {
    CborValue::Mapping(entries.into_iter().map(|(k, v)| (text(k), v)).collect())
}

fn test_case(stream_id: i128) -> Vec<u8> {
    cbor_encode(&mapping(vec![
        ("event", text("test_case")),
        ("stream_id", CborValue::Integer(stream_id)),
    ]))
}

fn test_done(results: CborValue) -> Vec<u8> {
    cbor_encode(&mapping(vec![("event", text("test_done")), ("results", results)]))
}

fn results(interesting: i128, passed: bool) -> CborValue {
    mapping(vec![
        ("interesting_test_cases", CborValue::Integer(interesting)),
        ("passed", CborValue::Bool(passed)),
    ])
}

fn interesting(message: &str) -> TestCaseResult {
    TestCaseResult::Interesting { panic_message: message.to_string() }
}

fn event(id: u32, payload: Vec<u8>) -> Outcome {
    Outcome::Received { event: Ok((id, payload)), server_exited: false }
}

fn step(run: TestRun, outcome: Outcome) -> (TestRun, Action) {
    assert!(run.ready_for(&outcome));
    run.step(outcome)
}

fn listening(mode: Mode) -> TestRun {
    let (run, _) = ServerTestRunner.run(&settings(mode), None, 1);
    let (run, action) = step(run, Outcome::Sent(Ok(vec![0xf6])));
    assert_eq!(action, Action::Receive);
    run
}

fn connected_and_answered(run: TestRun, id: u32) -> (TestRun, Action) {
    let (run, action) = step(run, Outcome::Connected);
    assert_eq!(action, Action::Reply { event_id: id, payload: cbor_encode(&ack_null()) });
    step(run, Outcome::Replied(Ok(())))
}

fn done(run: TestRun, id: u32, results: CborValue) -> (TestRun, Action) {
    let (run, action) = step(run, event(id, test_done(results)));
    assert_eq!(action, Action::Reply { event_id: id, payload: cbor_encode(&ack_true()) });
    step(run, Outcome::Replied(Ok(())))
}

fn one_case(run: TestRun, id: u32, stream: u32, is_final: bool, result: TestCaseResult) -> TestRun {
    let (run, action) = step(run, event(id, test_case(stream as i128)));
    assert_eq!(action, Action::Connect(stream));
    let (run, action) = connected_and_answered(run, id);
    assert_eq!(action, Action::RunCase { is_final });
    let (run, action) = step(run, Outcome::CaseRun(result));
    assert_eq!(action, Action::Receive);
    run
}

fn final_case(run: TestRun, id: u32, result: TestCaseResult) -> (TestRun, Action) {
    let (run, action) = step(run, Outcome::ReceivedFinal(Ok((id, test_case(id as i128 + 100)))));
    assert_eq!(action, Action::Connect(id + 100));
    let (run, action) = connected_and_answered(run, id);
    assert_eq!(action, Action::RunCase { is_final: true });
    let (run, action) = step(run, Outcome::CaseRun(result));
    assert_eq!(action, Action::CheckServer);
    step(run, Outcome::ServerChecked { exited: false })
}

#[test]
fn a_search_is_opened_with_its_message() {
    let (_, action) = ServerTestRunner.run(&settings(Mode::TestRun), Some("key"), 8);
    let Action::Send(request) = action else { panic!("{:?}", action) };
    let message = cbor_decode(&request).unwrap();
    assert_eq!(get_text(&message, "command").unwrap(), "run_test");
    assert_eq!(get_u64(&message, "stream_id"), Some(8));
}

#[test]
fn a_single_run_is_opened_with_its_message() {
    let (run, action) = ServerTestRunner.run(&settings(Mode::SingleTestCase), Some("key"), 8);
    let Action::Send(request) = action else { panic!("{:?}", action) };
    let message = cbor_decode(&request).unwrap();
    assert_eq!(get_text(&message, "command").unwrap(), "single_test_case");
    assert_eq!(get_u64(&message, "seed"), Some(4));
    let again = ServerTestRunner.run_single_test_case(&settings(Mode::SingleTestCase), 8);
    assert_eq!((run, Action::Send(request)), again);
}

#[test]
fn a_search_without_failures_passes() {
    let run = listening(Mode::TestRun);
    let run = one_case(run, 1, 11, false, TestCaseResult::Valid);
    let run = one_case(run, 2, 12, false, TestCaseResult::Invalid);
    let (run, action) = done(run, 3, results(0, true));
    assert_eq!(action, Action::Finish(TestRunResult { passed: true, failure_message: None }));
    assert!(!run.ready_for(&Outcome::Connected));
}

#[test]
fn the_cases_of_a_search_do_not_count() {
    let run = one_case(listening(Mode::TestRun), 1, 11, false, interesting("early"));
    let (_, action) = done(run, 2, CborValue::Null);
    assert_eq!(action, Action::Finish(TestRunResult { passed: true, failure_message: None }));
}

#[test]
fn failures_are_replayed_and_the_last_one_is_told() {
    let run = one_case(listening(Mode::TestRun), 1, 11, false, interesting("early"));
    let (run, action) = done(run, 2, results(3, false));
    assert_eq!(action, Action::ReceiveFinal);
    let (run, action) = final_case(run, 3, interesting("first"));
    assert_eq!(action, Action::ReceiveFinal);
    let (run, action) = final_case(run, 4, interesting("second"));
    assert_eq!(action, Action::ReceiveFinal);
    let (_, action) = final_case(run, 5, TestCaseResult::Overrun);
    assert_eq!(
        action,
        Action::Finish(TestRunResult {
            passed: false,
            failure_message: Some("second".to_string())
        })
    );
}

#[test]
fn a_single_run_fails_with_its_test_case() {
    let run = one_case(listening(Mode::SingleTestCase), 1, 11, true, interesting("broken"));
    let (_, action) = done(run, 2, results(5, true));
    assert_eq!(
        action,
        Action::Finish(TestRunResult {
            passed: false,
            failure_message: Some("broken".to_string())
        })
    );
}

#[test]
fn a_single_run_passes_without_a_failure() {
    let run = one_case(listening(Mode::SingleTestCase), 1, 11, true, TestCaseResult::Valid);
    let (_, action) = done(run, 2, CborValue::Null);
    assert_eq!(action, Action::Finish(TestRunResult { passed: true, failure_message: None }));
}

#[test]
fn reports_of_the_server_break_a_search_off() {
    for (key, failure) in [
        ("error", Failure::ServerError("r".to_string())),
        ("health_check_failure", Failure::HealthCheckFailure("r".to_string())),
        ("flaky", Failure::Flaky("r".to_string())),
    ] {
        let (_, action) = done(listening(Mode::TestRun), 1, mapping(vec![(key, text("r"))]));
        assert_eq!(action, Action::Fail(failure));
        let (_, action) = done(listening(Mode::SingleTestCase), 1, mapping(vec![(key, text("r"))]));
        assert_eq!(action, Action::Finish(TestRunResult { passed: true, failure_message: None }));
    }
}

#[test]
fn a_request_without_a_reply_breaks_a_run_off() {
    let opened = || ServerTestRunner.run(&settings(Mode::TestRun), None, 1).0;
    let (_, action) = step(opened(), Outcome::Sent(Err("closed".to_string())));
    assert_eq!(action, Action::Fail(Failure::Channel("closed".to_string())));
    let (_, action) = step(opened(), Outcome::Sent(Ok(vec![])));
    assert_eq!(action, Action::Fail(Failure::Undecodable));
}

#[test]
fn an_event_that_cannot_be_read_breaks_a_run_off() {
    let lost = |server_exited| Outcome::Received { event: Err("x".to_string()), server_exited };
    let (_, action) = step(listening(Mode::TestRun), lost(true));
    assert_eq!(action, Action::Fail(Failure::ServerCrashed));
    let (_, action) = step(listening(Mode::TestRun), lost(false));
    assert_eq!(action, Action::Fail(Failure::NotReceived("x".to_string())));
    let (_, action) = step(listening(Mode::TestRun), event(1, vec![0xff]));
    assert_eq!(action, Action::Fail(Failure::Undecodable));
    let (_, action) = step(listening(Mode::TestRun), event(1, vec![0xf6]));
    assert_eq!(action, Action::Fail(Failure::NoEventType));
}

#[test]
fn an_answer_that_cannot_be_sent_breaks_a_run_off() {
    let lost = || Outcome::Replied(Err("x".to_string()));
    let (run, _) = step(listening(Mode::TestRun), event(1, test_case(2)));
    let (run, _) = step(run, Outcome::Connected);
    let (_, action) = step(run, lost());
    assert_eq!(action, Action::Fail(Failure::CaseNotAcked("x".to_string())));
    let (run, _) = step(listening(Mode::TestRun), event(1, test_done(CborValue::Null)));
    let (_, action) = step(run, lost());
    assert_eq!(action, Action::Fail(Failure::DoneNotAcked("x".to_string())));
    let (run, _) = done(listening(Mode::TestRun), 1, results(1, false));
    let (run, _) = step(run, Outcome::ReceivedFinal(Ok((2, test_case(3)))));
    let (run, _) = step(run, Outcome::Connected);
    let (_, action) = step(run, lost());
    assert_eq!(action, Action::Fail(Failure::FinalNotAcked("x".to_string())));
}

#[test]
fn a_final_case_that_does_not_come_breaks_a_run_off() {
    let replaying = || done(listening(Mode::TestRun), 1, results(1, false)).0;
    let (_, action) = step(replaying(), Outcome::ReceivedFinal(Err("x".to_string())));
    assert_eq!(action, Action::Fail(Failure::FinalNotReceived("x".to_string())));
    let (_, action) = step(replaying(), Outcome::ReceivedFinal(Ok((2, vec![]))));
    assert_eq!(action, Action::Fail(Failure::Undecodable));
    let (_, action) =
        step(replaying(), Outcome::ReceivedFinal(Ok((2, test_done(CborValue::Null)))));
    assert_eq!(action, Action::Fail(Failure::UnexpectedFinal(Some("test_done".to_string()))));
}

#[test]
fn a_server_that_dies_in_a_replay_breaks_a_run_off() {
    let (run, _) = done(listening(Mode::TestRun), 1, results(1, false));
    let (run, _) = step(run, Outcome::ReceivedFinal(Ok((2, test_case(3)))));
    let (run, _) = connected_and_answered(run, 2);
    let (run, _) = step(run, Outcome::CaseRun(interesting("m")));
    let (_, action) = step(run, Outcome::ServerChecked { exited: true });
    assert_eq!(action, Action::Fail(Failure::ServerCrashed));
}

#[test]
fn a_run_waits_for_the_outcome_of_its_action_alone() {
    let run = listening(Mode::TestRun);
    assert!(run.ready_for(&event(1, vec![])));
    assert!(!run.ready_for(&Outcome::ReceivedFinal(Ok((1, vec![])))));
    assert!(!run.ready_for(&Outcome::CaseRun(TestCaseResult::Valid)));
    let (run, _) = done(run, 1, results(1, false));
    assert!(!run.ready_for(&event(1, vec![])));
    assert!(run.ready_for(&Outcome::ReceivedFinal(Ok((1, vec![])))));
}

/// Runs on `events` to the end, and counts the test cases that are not final and the final
/// ones.
fn cases_run(mode: Mode, events: Vec<Vec<u8>>) -> (u32, u32) {
    let (mut run, mut action) = ServerTestRunner.run(&settings(mode), None, 1);
    let mut events = events.into_iter();
    let (mut searched, mut replayed) = (0, 0);
    loop {
        let outcome = match action {
            Action::Send(_) => Outcome::Sent(Ok(vec![0xf6])),
            Action::Receive => event(1, events.next().unwrap()),
            Action::ReceiveFinal => Outcome::ReceivedFinal(Ok((1, events.next().unwrap()))),
            Action::Connect(_) => Outcome::Connected,
            Action::Reply { .. } => Outcome::Replied(Ok(())),
            Action::RunCase { is_final } => {
                if is_final {
                    replayed += 1;
                } else {
                    searched += 1;
                }
                Outcome::CaseRun(interesting("m"))
            }
            Action::CheckServer => Outcome::ServerChecked { exited: false },
            Action::Finish(result) => {
                assert!(!result.passed);
                break;
            }
            Action::Fail(failure) => panic!("{:?}", failure),
        };
        (run, action) = step(run, outcome);
    }
    assert_eq!(events.next(), None);
    (searched, replayed)
}

#[test]
fn every_case_of_a_search_is_run_once() {
    let events = vec![
        test_case(1), test_case(2), test_case(3), test_done(results(2, false)), test_case(4),
        test_case(5),
    ];
    assert_eq!(cases_run(Mode::TestRun, events), (3, 2));
}

#[test]
fn every_case_of_a_single_run_is_run_once() {
    let events = vec![test_case(1), test_case(2), test_done(results(2, false))];
    assert_eq!(cases_run(Mode::SingleTestCase, events), (0, 2));
}
