//! What holds of whole runs.

use vstd::prelude::*;

use crate::cbor;
use crate::cbor::Tree;
use crate::event;
use crate::failure::Failure;
use crate::run::{
    Action, ActionModel, CaseModel, Outcome, OutcomeModel, RunModel, Stage, TestCaseResult,
    TestRunResult,
};
use crate::settings::Mode;

verus! {

/// A run of which the message `request` has just gone out.
pub open spec fn opening(mode: Mode, request: Seq<u8>) -> (RunModel, ActionModel) {
    (RunModel::opened(mode), Action::Send(request))
}

/// Where a run stands, and what it asks for, after `outcomes`.
pub open spec fn after(start: (RunModel, ActionModel), outcomes: Seq<OutcomeModel>) -> (
    RunModel,
    ActionModel,
)
    decreases outcomes.len(),
{
    if outcomes.len() == 0 {
        start
    } else {
        after(start, outcomes.drop_last()).0.next(outcomes.last())
    }
}

/// Whether each of `outcomes` is one that the run waits for when it comes.
pub open spec fn proper(start: (RunModel, ActionModel), outcomes: Seq<OutcomeModel>) -> bool
    decreases outcomes.len(),
{
    outcomes.len() > 0 ==> {
        &&& proper(start, outcomes.drop_last())
        &&& after(start, outcomes.drop_last()).0.expects(outcomes.last())
    }
}

/// Whether `outcome` is an outcome of `action`.
pub open spec fn comes_of(outcome: OutcomeModel, action: ActionModel) -> bool {
    match action {
        Action::Send(_) => outcome is Sent,
        Action::Receive => outcome is Received,
        Action::ReceiveFinal => outcome is ReceivedFinal,
        Action::Connect(_) => outcome is Connected,
        Action::Reply { .. } => outcome is Replied,
        Action::RunCase { .. } => outcome is CaseRun,
        Action::CheckServer => outcome is ServerChecked,
        Action::Finish(_) => false,
        Action::Fail(_) => false,
    }
}

/// The results of the test cases that were run as final ones, in the order in which
/// they ran.
pub open spec fn counted(
    start: (RunModel, ActionModel),
    outcomes: Seq<OutcomeModel>,
) -> Seq<CaseModel>
    decreases outcomes.len(),
{
    if outcomes.len() == 0 {
        Seq::empty()
    } else {
        let before = counted(start, outcomes.drop_last());
        match (after(start, outcomes.drop_last()).1, outcomes.last()) {
            (Action::RunCase { is_final: true }, Outcome::CaseRun(result)) => before.push(result),
            _ => before,
        }
    }
}

/// The results of the test cases that were not run as final ones, in the order in which
/// they ran.
pub open spec fn uncounted(
    start: (RunModel, ActionModel),
    outcomes: Seq<OutcomeModel>,
) -> Seq<CaseModel>
    decreases outcomes.len(),
{
    if outcomes.len() == 0 {
        Seq::empty()
    } else {
        let before = uncounted(start, outcomes.drop_last());
        match (after(start, outcomes.drop_last()).1, outcomes.last()) {
            (Action::RunCase { is_final: false }, Outcome::CaseRun(result)) => before.push(result),
            _ => before,
        }
    }
}

/// Whether `outcome` brings the event of a test case, before the end of a search.
pub open spec fn brings_case(outcome: OutcomeModel) -> bool {
    &&& outcome matches Outcome::Received { event: Ok((_, payload)), .. }
    &&& cbor::cbor_decoded(payload) matches Some(tree)
    &&& tree.get("event"@) == Some(Tree::Text("test_case"@))
    &&& tree.get("stream_id"@) matches Some(Tree::Integer(n))
    &&& 0 <= n <= u64::MAX
}

/// Whether `outcome` brings the event of a final test case, after the end of a search.
pub open spec fn brings_final_case(outcome: OutcomeModel) -> bool {
    &&& outcome matches Outcome::ReceivedFinal(Ok((_, payload)))
    &&& cbor::cbor_decoded(payload) matches Some(tree)
    &&& tree.get("event"@) == Some(Tree::Text("test_case"@))
    &&& tree.get("stream_id"@) matches Some(Tree::Integer(n))
    &&& 0 <= n <= u64::MAX
}

/// How many of `outcomes` bring the event of a test case, before the end of a search.
pub open spec fn cases_brought(outcomes: Seq<OutcomeModel>) -> nat {
    outcomes.filter(|outcome: OutcomeModel| brings_case(outcome)).len()
}

/// How many of `outcomes` bring the event of a final test case, after the end of a search.
pub open spec fn final_cases_brought(outcomes: Seq<OutcomeModel>) -> nat {
    outcomes.filter(|outcome: OutcomeModel| brings_final_case(outcome)).len()
}

/// The message of the last failure among `results`.
pub open spec fn last_message(results: Seq<CaseModel>) -> Option<Seq<char>>
    decreases results.len(),
{
    if results.len() == 0 {
        None
    } else {
        match results.last() {
            TestCaseResult::Interesting { panic_message } => Some(panic_message),
            _ => last_message(results.drop_last()),
        }
    }
}

/// The results of the search that `outcome` brings.
pub open spec fn brings_results(outcome: OutcomeModel) -> Option<Tree> {
    match outcome {
        Outcome::Received { event: Ok((_, payload)), .. } => match cbor::cbor_decoded(payload) {
            Some(tree) => if tree.get("event"@) == Some(Tree::Text("test_done"@)) {
                match tree.get("results"@) {
                    Some(results) => Some(results),
                    None => Some(Tree::Null),
                }
            } else {
                None
            },
            None => None,
        },
        _ => None,
    }
}

/// The results of the search, where `outcomes` bring them.
pub open spec fn search_results(outcomes: Seq<OutcomeModel>) -> Option<Tree>
    decreases outcomes.len(),
{
    if outcomes.len() == 0 {
        None
    } else {
        match brings_results(outcomes.last()) {
            Some(results) => Some(results),
            None => search_results(outcomes.drop_last()),
        }
    }
}

/// A run waits for the outcome of the action that it asked for last, and for nothing
/// else; where it is over, for nothing.
pub proof fn law_waits_for_its_action(
    mode: Mode,
    request: Seq<u8>,
    outcomes: Seq<OutcomeModel>,
    outcome: OutcomeModel,
)
    requires
        proper(opening(mode, request), outcomes),
    ensures
        after(opening(mode, request), outcomes).0.well_formed(),
        after(opening(mode, request), outcomes).0.mode == mode,
        after(opening(mode, request), outcomes).0.expects(outcome) <==> comes_of(
            outcome,
            after(opening(mode, request), outcomes).1,
        ),
    decreases outcomes.len(),
{
    if outcomes.len() > 0 {
        law_waits_for_its_action(mode, request, outcomes.drop_last(), outcomes.last());
    }
}

/// Whether `outcome` brings the event `event_id`, which announces a test case on stream
/// `stream_id`.
pub open spec fn announces(outcome: OutcomeModel, event_id: u32, stream_id: u32) -> bool {
    let event = match outcome {
        Outcome::Received { event, .. } => event,
        Outcome::ReceivedFinal(event) => event,
        _ => Err(Seq::empty()),
    };
    &&& event matches Ok((id, payload))
    &&& id == event_id
    &&& cbor::cbor_decoded(payload) matches Some(tree)
    &&& tree.get("event"@) == Some(Tree::Text("test_case"@))
    &&& tree.get("stream_id"@) matches Some(Tree::Integer(n))
    &&& 0 <= n <= u64::MAX
    &&& n <= u32::MAX ==> stream_id == n
    &&& (n - stream_id) % 0x1_0000_0000 == 0
}

/// Whether the last three of `outcomes` are these: the event `event_id` comes, which
/// announces a test case on stream `stream_id`; that stream is connected; and the event
/// is answered.
pub open spec fn answered(
    start: (RunModel, ActionModel),
    outcomes: Seq<OutcomeModel>,
    event_id: u32,
    stream_id: u32,
) -> bool {
    let n = outcomes.len() as int;
    &&& n >= 3
    &&& announces(outcomes[n - 3], event_id, stream_id)
    &&& after(start, outcomes.take(n - 2)).1 == ActionModel::Connect(stream_id)
    &&& outcomes[n - 2] == OutcomeModel::Connected
    &&& after(start, outcomes.take(n - 1)).1 == (ActionModel::Reply {
        event_id,
        payload: cbor::cbor_encoded(Tree::Mapping(seq![(Tree::Text("result"@), Tree::Null)])),
    })
    &&& outcomes[n - 1] matches Outcome::Replied(Ok(_))
}

/// A run connects to a stream only on an event that announces a test case there.
proof fn lemma_announced(run: RunModel, outcome: OutcomeModel)
    requires
        run.expects(outcome),
        run.next(outcome).0.stage is Connecting,
    ensures
        run.next(outcome).1 is Connect,
        announces(
            outcome,
            run.next(outcome).0.stage->event_id,
            run.next(outcome).1->Connect_0,
        ),
{
}

/// A test case runs only after its event has been answered: first the event comes, then
/// the stream that it names is connected, then the event is answered, and then the test
/// case runs.
pub proof fn law_answered_before_run(
    mode: Mode,
    request: Seq<u8>,
    outcomes: Seq<OutcomeModel>,
)
    requires
        proper(opening(mode, request), outcomes),
        after(opening(mode, request), outcomes).1 is RunCase,
    ensures
        exists|event_id: u32, stream_id: u32|
            answered(opening(mode, request), outcomes, event_id, stream_id),
{
    reveal_with_fuel(after, 4);
    reveal_with_fuel(proper, 4);
    let start = opening(mode, request);
    let n = outcomes.len() as int;
    let last = outcomes.drop_last();
    let middle = last.drop_last();
    let first = middle.drop_last();
    assert(outcomes.take(n - 1) =~= last);
    law_waits_for_its_action(mode, request, last, outcomes.last());
    assert(after(start, last).0.stage is Acking);
    assert(last.len() > 0);
    law_waits_for_its_action(mode, request, middle, last.last());
    assert(outcomes.take(n - 2) =~= middle);
    assert(after(start, middle).0.stage is Connecting);
    assert(middle.len() > 0);
    law_waits_for_its_action(mode, request, first, middle.last());
    lemma_announced(after(start, first).0, middle.last());
    let event_id = after(start, middle).0.stage->event_id;
    let stream_id = after(start, middle).1->Connect_0;
    assert(answered(start, outcomes, event_id, stream_id));
}

/// What a run knows at every point of it.
spec fn up_to_date(
    start: (RunModel, ActionModel),
    outcomes: Seq<OutcomeModel>,
) -> bool {
    let (run, action) = after(start, outcomes);
    let results = search_results(outcomes);
    let replayed = counted(start, outcomes).len();
    &&& run.failure_message == last_message(counted(start, outcomes))
    &&& run.mode is SingleTestCase ==> (run.passed <==> run.failure_message is None)
    &&& action matches Action::RunCase { is_final } ==> (is_final <==> run.mode is SingleTestCase
        || run.left is Some)
    &&& run.mode is TestRun && run.left is None ==> replayed == 0
    &&& run.stage matches Stage::Closing { results: closing } ==> results == Some(closing)
    &&& run.left is None && !(run.stage is Closing) && !(run.stage is Stopped) ==> results is None
    &&& run.left matches Some(left) ==> {
        &&& results matches Some(tree)
        &&& event::summary_of(tree) matches Ok(summary)
        &&& run.passed == summary.passed
        &&& run.stage is Checking ==> replayed + left == summary.interesting + 1
        &&& !(run.stage is Checking) && !(action is Fail) ==> replayed + left == summary.interesting
    }
    &&& run.mode is TestRun && action is Finish ==> run.left == Some(0u64)
    &&& action matches Action::Finish(result) ==> {
        &&& results is Some
        &&& result.passed == run.passed
        &&& result.failure_message == run.failure_message
    }
}

/// What a run knows keeps up with what comes.
proof fn lemma_up_to_date(mode: Mode, request: Seq<u8>, outcomes: Seq<OutcomeModel>)
    requires
        proper(opening(mode, request), outcomes),
    ensures
        up_to_date(opening(mode, request), outcomes),
    decreases outcomes.len(),
{
    if outcomes.len() > 0 {
        let before = outcomes.drop_last();
        let outcome = outcomes.last();
        let start = opening(mode, request);
        lemma_up_to_date(mode, request, before);
        law_waits_for_its_action(mode, request, before, outcome);
        event::lemma_names_differ();
        let results = counted(start, before);
        if let Outcome::CaseRun(result) = outcome {
            assert(results.push(result).drop_last() =~= results);
        }
    }
}

/// How many test cases are under way in `run`: one from its event until it has run.
spec fn under_way(run: RunModel) -> nat {
    if run.stage is Connecting || run.stage is Acking || run.stage is Running {
        1
    } else {
        0
    }
}

/// Every test case that has been announced has been run once, but for the one under way.
proof fn lemma_each_case_run_once(mode: Mode, request: Seq<u8>, outcomes: Seq<OutcomeModel>)
    requires
        proper(opening(mode, request), outcomes),
        !(after(opening(mode, request), outcomes).1 is Fail),
    ensures
        ({
            let start = opening(mode, request);
            let run = after(start, outcomes).0;
            let searching = if run.left is None {
                under_way(run)
            } else {
                0
            };
            let replaying = if run.left is None {
                0
            } else {
                under_way(run)
            };
            &&& mode is TestRun ==> cases_brought(outcomes) == uncounted(start, outcomes).len()
                + searching
            &&& mode is TestRun ==> final_cases_brought(outcomes) == counted(start, outcomes).len()
                + replaying
            &&& mode is SingleTestCase ==> cases_brought(outcomes) == counted(
                start,
                outcomes,
            ).len() + searching
            &&& mode is SingleTestCase ==> uncounted(start, outcomes).len() == 0
            &&& mode is SingleTestCase ==> final_cases_brought(outcomes) == 0
        }),
    decreases outcomes.len(),
{
    reveal(Seq::filter);
    if outcomes.len() > 0 {
        let before = outcomes.drop_last();
        law_waits_for_its_action(mode, request, before, outcomes.last());
        lemma_each_case_run_once(mode, request, before);
        lemma_up_to_date(mode, request, before);
    }
}

/// Every test case that the server announces is run exactly once. When a search finishes,
/// as many test cases have been run that are not final as were announced before its end,
/// and as many final ones as were announced after it. When a run of one test case
/// finishes, as many have been run, all of them final, as were announced.
pub proof fn law_each_case_run_once(
    mode: Mode,
    request: Seq<u8>,
    outcomes: Seq<OutcomeModel>,
    result: TestRunResult<Seq<char>>,
)
    requires
        proper(opening(mode, request), outcomes),
        after(opening(mode, request), outcomes).1 == ActionModel::Finish(result),
    ensures
        ({
            let start = opening(mode, request);
            match mode {
                Mode::TestRun => {
                    &&& uncounted(start, outcomes).len() == cases_brought(outcomes)
                    &&& counted(start, outcomes).len() == final_cases_brought(outcomes)
                },
                Mode::SingleTestCase => {
                    &&& counted(start, outcomes).len() == cases_brought(outcomes)
                    &&& uncounted(start, outcomes).len() == 0
                },
            }
        }),
{
    lemma_each_case_run_once(mode, request, outcomes);
    law_waits_for_its_action(mode, request, outcomes, Outcome::Connected);
}

/// The failure message of a run is that of the last failure among the test cases that
/// were run as final ones.
pub proof fn law_failure_message(
    mode: Mode,
    request: Seq<u8>,
    outcomes: Seq<OutcomeModel>,
    result: TestRunResult<Seq<char>>,
)
    requires
        proper(opening(mode, request), outcomes),
        after(opening(mode, request), outcomes).1 == ActionModel::Finish(result),
    ensures
        result.failure_message == last_message(counted(opening(mode, request), outcomes)),
{
    lemma_up_to_date(mode, request, outcomes);
}

/// A run of one test case ends only when the server says that it is done, passes if and
/// only if no test case in it failed, and runs every test case as a final one.
pub proof fn law_single_test_case(request: Seq<u8>, outcomes: Seq<OutcomeModel>)
    requires
        proper(opening(Mode::SingleTestCase, request), outcomes),
    ensures
        ({
            let start = opening(Mode::SingleTestCase, request);
            &&& after(start, outcomes).1 matches Action::Finish(result) ==> {
                &&& search_results(outcomes) is Some
                &&& result.passed <==> forall|i: int|
                    0 <= i < counted(start, outcomes).len() ==> !((#[trigger] counted(
                        start,
                        outcomes,
                    )[i]) is Interesting)
            }
            &&& after(start, outcomes).1 matches Action::RunCase { is_final } ==> is_final
        }),
{
    lemma_up_to_date(Mode::SingleTestCase, request, outcomes);
    law_waits_for_its_action(Mode::SingleTestCase, request, outcomes, Outcome::Connected);
    lemma_last_message(counted(opening(Mode::SingleTestCase, request), outcomes));
}

/// There is a last failure where there is any.
proof fn lemma_last_message(results: Seq<CaseModel>)
    ensures
        last_message(results) is None <==> (forall|i: int|
            0 <= i < results.len() ==> !((#[trigger] results[i]) is Interesting)),
    decreases results.len(),
{
    if results.len() > 0 {
        lemma_last_message(results.drop_last());
        let rest = results.drop_last();
        assert(forall|i: int| 0 <= i < rest.len() ==> rest[i] == results[i]);
        assert(results.last() == results[results.len() - 1]);
        if forall|i: int| 0 <= i < rest.len() ==> !((#[trigger] rest[i]) is Interesting) {
        } else {
            let i = choose|i: int| 0 <= i < rest.len() && (#[trigger] rest[i]) is Interesting;
            assert(results[i] is Interesting);
        }
    }
}

/// A search ends as its results say: they hold no report, it passes where they say so or say
/// nothing, and each failure that they count has been run once more, as a final test case.
pub proof fn law_search(
    request: Seq<u8>,
    outcomes: Seq<OutcomeModel>,
    result: TestRunResult<Seq<char>>,
)
    requires
        proper(opening(Mode::TestRun, request), outcomes),
        after(opening(Mode::TestRun, request), outcomes).1 == ActionModel::Finish(result),
    ensures
        search_results(outcomes) matches Some(results) && event::summary_of(results) matches Ok(
            summary,
        ) && result.passed == summary.passed && counted(
            opening(Mode::TestRun, request),
            outcomes,
        ).len() == summary.interesting,
        ({
            let results = search_results(outcomes)->0;
            &&& !(results.get("error"@) matches Some(Tree::Text(_)))
            &&& !(results.get("health_check_failure"@) matches Some(Tree::Text(_)))
            &&& !(results.get("flaky"@) matches Some(Tree::Text(_)))
            &&& match results.get("passed"@) {
                Some(Tree::Bool(passed)) => result.passed == passed,
                _ => result.passed,
            }
            &&& counted(opening(Mode::TestRun, request), outcomes).len() == match results.get(
                "interesting_test_cases"@,
            ) {
                Some(Tree::Integer(n)) => if 0 <= n <= u64::MAX {
                    n
                } else {
                    0
                },
                _ => 0,
            }
        }),
{
    lemma_up_to_date(Mode::TestRun, request, outcomes);
    law_waits_for_its_action(Mode::TestRun, request, outcomes, Outcome::Connected);
}

/// In a search, a test case is run as a final one if and only if the search is over.
pub proof fn law_final_after_search(
    request: Seq<u8>,
    outcomes: Seq<OutcomeModel>,
    is_final: bool,
)
    requires
        proper(opening(Mode::TestRun, request), outcomes),
        after(opening(Mode::TestRun, request), outcomes).1 == (ActionModel::RunCase { is_final }),
    ensures
        is_final <==> search_results(outcomes) is Some,
{
    lemma_up_to_date(Mode::TestRun, request, outcomes);
    law_waits_for_its_action(Mode::TestRun, request, outcomes, Outcome::Connected);
}

/// The id of the event that came last among `outcomes`.
pub open spec fn last_event_id(outcomes: Seq<OutcomeModel>) -> Option<u32>
    decreases outcomes.len(),
{
    if outcomes.len() == 0 {
        None
    } else {
        match outcomes.last() {
            Outcome::Received { event: Ok((event_id, _)), .. } => Some(event_id),
            Outcome::ReceivedFinal(Ok((event_id, _))) => Some(event_id),
            _ => last_event_id(outcomes.drop_last()),
        }
    }
}

/// A test case that is being connected, or is about to be answered, is that of the event
/// that came last.
proof fn lemma_case_at_hand(mode: Mode, request: Seq<u8>, outcomes: Seq<OutcomeModel>)
    requires
        proper(opening(mode, request), outcomes),
    ensures
        after(opening(mode, request), outcomes).0.stage matches Stage::Connecting { event_id }
            ==> last_event_id(outcomes) == Some(event_id),
    decreases outcomes.len(),
{
    if outcomes.len() > 0 {
        lemma_case_at_hand(mode, request, outcomes.drop_last());
        law_waits_for_its_action(mode, request, outcomes.drop_last(), outcomes.last());
    }
}

/// Every answer goes to the event that came last, under that event's id: with `true` at once
/// on the end of the search, and with nothing on a test case whose stream is connected.
pub proof fn law_answers_go_to_the_last_event(
    mode: Mode,
    request: Seq<u8>,
    outcomes: Seq<OutcomeModel>,
)
    requires
        proper(opening(mode, request), outcomes),
    ensures
        after(opening(mode, request), outcomes).1 matches Action::Reply { event_id, payload } ==> {
            &&& last_event_id(outcomes) == Some(event_id)
            &&& outcomes.len() > 0
            &&& outcomes.last() is Connected || brings_results(outcomes.last()) is Some
            &&& payload == cbor::cbor_encoded(
                Tree::Mapping(
                    seq![
                        (
                            Tree::Text("result"@),
                            if outcomes.last() is Connected {
                                Tree::Null
                            } else {
                                Tree::Bool(true)
                            },
                        ),
                    ],
                ),
            )
        },
{
    if outcomes.len() > 0 {
        let before = outcomes.drop_last();
        law_waits_for_its_action(mode, request, before, outcomes.last());
        lemma_case_at_hand(mode, request, before);
    }
}

/// The end of the search is answered as soon as it comes, under the id of its event.
pub proof fn law_done_answered_at_once(
    mode: Mode,
    request: Seq<u8>,
    outcomes: Seq<OutcomeModel>,
    event_id: u32,
    payload: Seq<u8>,
    server_exited: bool,
)
    requires
        proper(opening(mode, request), outcomes),
        outcomes.len() > 0,
        outcomes.last() == (OutcomeModel::Received {
            event: Ok((event_id, payload)),
            server_exited,
        }),
        cbor::cbor_decoded(payload) is Some,
        cbor::cbor_decoded(payload)->0.get("event"@) == Some(Tree::Text("test_done"@)),
    ensures
        after(opening(mode, request), outcomes).1 == (ActionModel::Reply {
            event_id,
            payload: cbor::cbor_encoded(
                Tree::Mapping(seq![(Tree::Text("result"@), Tree::Bool(true))]),
            ),
        }),
{
    law_waits_for_its_action(mode, request, outcomes.drop_last(), outcomes.last());
    event::lemma_names_differ();
}

/// A test case that is announced is connected to next, on the stream whose id stands in its
/// event, whether it is a final one or not.
pub proof fn law_announced_case_is_connected(
    mode: Mode,
    request: Seq<u8>,
    outcomes: Seq<OutcomeModel>,
    event_id: u32,
    payload: Seq<u8>,
    server_exited: bool,
    n: u32,
)
    requires
        proper(opening(mode, request), outcomes),
        outcomes.len() > 0,
        outcomes.last() == (OutcomeModel::Received {
            event: Ok((event_id, payload)),
            server_exited,
        }) || outcomes.last() == OutcomeModel::ReceivedFinal(Ok((event_id, payload))),
        cbor::cbor_decoded(payload) is Some,
        cbor::cbor_decoded(payload)->0.get("event"@) == Some(Tree::Text("test_case"@)),
        cbor::cbor_decoded(payload)->0.get("stream_id"@) == Some(Tree::Integer(n as int)),
    ensures
        after(opening(mode, request), outcomes).1 == ActionModel::Connect(n),
{
    law_waits_for_its_action(mode, request, outcomes.drop_last(), outcomes.last());
}

/// In a search, whatever comes of a test case, the run goes on to receive the next event as
/// long as the server has not ended the search.
pub proof fn law_search_goes_on(
    request: Seq<u8>,
    outcomes: Seq<OutcomeModel>,
    result: CaseModel,
)
    requires
        proper(opening(Mode::TestRun, request), outcomes),
        outcomes.len() > 0,
        outcomes.last() == OutcomeModel::CaseRun(result),
        forall|i: int|
            0 <= i < outcomes.len() ==> brings_results(#[trigger] outcomes[i]) is None,
    ensures
        after(opening(Mode::TestRun, request), outcomes).1 is Receive,
{
    let before = outcomes.drop_last();
    law_waits_for_its_action(Mode::TestRun, request, before, outcomes.last());
    lemma_up_to_date(Mode::TestRun, request, before);
    assert forall|i: int| 0 <= i < before.len() implies brings_results(
        #[trigger] before[i],
    ) is None by {
        assert(before[i] == outcomes[i]);
    }
    lemma_no_results(before);
}

/// There are no results where none have come.
proof fn lemma_no_results(outcomes: Seq<OutcomeModel>)
    requires
        forall|i: int|
            0 <= i < outcomes.len() ==> brings_results(#[trigger] outcomes[i]) is None,
    ensures
        search_results(outcomes) is None,
    decreases outcomes.len(),
{
    if outcomes.len() > 0 {
        let before = outcomes.drop_last();
        assert forall|i: int| 0 <= i < before.len() implies brings_results(
            #[trigger] before[i],
        ) is None by {
            assert(before[i] == outcomes[i]);
        }
        lemma_no_results(before);
        assert(outcomes.last() == outcomes[outcomes.len() - 1]);
    }
}

/// A run breaks off only for a cause, and it is the outcome at hand that gives it: no reply,
/// no event, bytes that read as nothing, an event that is not known or not complete, an
/// answer that did not go out, a report in the results, or a server that is gone. Neither a
/// connection nor a test case, whatever came of it, ever breaks a run off.
pub proof fn law_breaks_off_only_for_a_cause(
    mode: Mode,
    request: Seq<u8>,
    outcomes: Seq<OutcomeModel>,
    failure: Failure<Seq<char>>,
)
    requires
        proper(opening(mode, request), outcomes),
        after(opening(mode, request), outcomes).1 == ActionModel::Fail(failure),
    ensures
        outcomes.len() > 0,
        match outcomes.last() {
            Outcome::Sent(Err(error)) => failure == Failure::Channel(error),
            Outcome::Sent(Ok(reply)) => failure is Undecodable && cbor::cbor_decoded(reply) is None,
            Outcome::Received { event: Err(error), server_exited } => if server_exited {
                failure is ServerCrashed
            } else {
                failure == Failure::NotReceived(error)
            },
            Outcome::ReceivedFinal(Err(error)) => failure == Failure::FinalNotReceived(error),
            Outcome::Received { event: Ok((_, payload)), .. } => match cbor::cbor_decoded(payload) {
                None => failure is Undecodable,
                Some(tree) => match tree.get("event"@) {
                    Some(Tree::Text(name)) => {
                        &&& name != "test_done"@
                        &&& name == "test_case"@ ==> failure is NoStreamId && !brings_case(
                            outcomes.last(),
                        )
                        &&& name != "test_case"@ ==> failure == Failure::UnknownEvent(name)
                    },
                    _ => failure is NoEventType,
                },
            },
            Outcome::ReceivedFinal(Ok((_, payload))) => match cbor::cbor_decoded(payload) {
                None => failure is Undecodable,
                Some(tree) => match tree.get("event"@) {
                    Some(Tree::Text(name)) => {
                        &&& name == "test_case"@ ==> failure is NoStreamId && !brings_final_case(
                            outcomes.last(),
                        )
                        &&& name != "test_case"@ ==> failure == Failure::UnexpectedFinal(
                            Some(name),
                        )
                    },
                    _ => failure == Failure::<Seq<char>>::UnexpectedFinal(None),
                },
            },
            Outcome::Connected => false,
            Outcome::Replied(Err(error)) => failure == Failure::CaseNotAcked(error) || failure
                == Failure::FinalNotAcked(error) || failure == Failure::DoneNotAcked(error),
            Outcome::Replied(Ok(_)) => mode is TestRun && search_results(outcomes) is Some && {
                let results = search_results(outcomes)->0;
                ||| failure is ServerError && results.get("error"@) == Some(
                    Tree::Text(failure->ServerError_0),
                )
                ||| failure is HealthCheckFailure && results.get("health_check_failure"@) == Some(
                    Tree::Text(failure->HealthCheckFailure_0),
                )
                ||| failure is Flaky && results.get("flaky"@) == Some(
                    Tree::Text(failure->Flaky_0),
                )
            },
            Outcome::CaseRun(_) => false,
            Outcome::ServerChecked { exited } => exited && failure is ServerCrashed,
        },
{
    if outcomes.len() > 0 {
        let before = outcomes.drop_last();
        law_waits_for_its_action(mode, request, before, outcomes.last());
        lemma_up_to_date(mode, request, before);
        event::lemma_names_differ();
    }
}

/// Which outcomes an action can have: its own kind, and none once the run is over.
pub proof fn law_outcomes_of_an_action(outcome: OutcomeModel, action: ActionModel)
    ensures
        comes_of(outcome, action) <==> match outcome {
            Outcome::Sent(_) => action is Send,
            Outcome::Received { .. } => action is Receive,
            Outcome::ReceivedFinal(_) => action is ReceiveFinal,
            Outcome::Connected => action is Connect,
            Outcome::Replied(_) => action is Reply,
            Outcome::CaseRun(_) => action is RunCase,
            Outcome::ServerChecked { .. } => action is CheckServer,
        },
{
}

} // verus!
