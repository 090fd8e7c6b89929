//! What the server sends in the course of a run.

use vstd::prelude::*;

use crate::cbor::{get_bool, get_text, get_u64, map_get, CborValue, Tree};
use crate::failure::Failure;
use crate::text::text_is;

verus! {

/// An event of the search. `V` is the type of the values in it.
#[derive(Debug, PartialEq)]
pub enum Event<V = CborValue> {
    /// A test case is to be run; its data come on stream `stream_id`.
    TestCase { stream_id: u32 },
    /// The search is over.
    TestDone { results: V },
}

impl View for Event {
    type V = Event<Tree>;

    open spec fn view(&self) -> Event<Tree> {
        match *self {
            Event::TestCase { stream_id } => Event::TestCase { stream_id },
            Event::TestDone { results } => Event::TestDone { results: results@ },
        }
    }
}

/// The stream that the event `tree` names: the low half of its id.
pub open spec fn stream_of(tree: Tree) -> Result<u32, Failure<Seq<char>>> {
    match tree.get_u64("stream_id"@) {
        Some(id) => Ok((id % 0x1_0000_0000) as u32),
        None => Err(Failure::NoStreamId),
    }
}

/// What the event `tree` says.
pub open spec fn event_of(tree: Tree) -> Result<Event<Tree>, Failure<Seq<char>>> {
    match tree.get_text("event"@) {
        None => Err(Failure::NoEventType),
        Some(name) => if name == "test_case"@ {
            match stream_of(tree) {
                Ok(stream_id) => Ok(Event::TestCase { stream_id }),
                Err(failure) => Err(failure),
            }
        } else if name == "test_done"@ {
            Ok(
                Event::TestDone {
                    results: match tree.get("results"@) {
                        Some(results) => results,
                        None => Tree::Null,
                    },
                },
            )
        } else {
            Err(Failure::UnknownEvent(name))
        },
    }
}

/// The stream of the final test case that the event `tree` announces.
pub open spec fn final_event_of(tree: Tree) -> Result<u32, Failure<Seq<char>>> {
    if tree.get_text("event"@) == Some("test_case"@) {
        stream_of(tree)
    } else {
        Err(Failure::UnexpectedFinal(tree.get_text("event"@)))
    }
}

/// What the search came to.
#[derive(Debug, Clone, Copy, PartialEq, Eq, Structural)]
pub struct Summary {
    /// How many failures it found, each of which comes once more as a final test case.
    pub interesting: u64,
    /// Whether the test passed.
    pub passed: bool,
}

/// What the results `tree` of a search say. An error of the server comes before a
/// failed health check, and that before a flaky test.
pub open spec fn summary_of(tree: Tree) -> Result<Summary, Failure<Seq<char>>> {
    if let Some(report) = tree.get_text("error"@) {
        Err(Failure::ServerError(report))
    } else if let Some(report) = tree.get_text("health_check_failure"@) {
        Err(Failure::HealthCheckFailure(report))
    } else if let Some(report) = tree.get_text("flaky"@) {
        Err(Failure::Flaky(report))
    } else {
        Ok(
            Summary {
                interesting: match tree.get_u64("interesting_test_cases"@) {
                    Some(n) => n,
                    None => 0,
                },
                passed: match tree.get_bool("passed"@) {
                    Some(passed) => passed,
                    None => true,
                },
            },
        )
    }
}

/// A result over values and texts as one over what they hold.
pub open spec fn event_result(res: Result<Event, Failure>) -> Result<
    Event<Tree>,
    Failure<Seq<char>>,
> {
    match res {
        Ok(event) => Ok(event@),
        Err(failure) => Err(failure@),
    }
}

/// A result with a failure as one with what the failure holds.
pub open spec fn plain_result<T>(res: Result<T, Failure>) -> Result<T, Failure<Seq<char>>> {
    match res {
        Ok(value) => Ok(value),
        Err(failure) => Err(failure@),
    }
}

fn read_stream(event: &CborValue) -> (res: Result<u32, Failure>)
    ensures
        plain_result(res) == stream_of(event@),
{
    match get_u64(event, "stream_id") {
        Some(id) => Ok((id % 0x1_0000_0000) as u32),
        None => Err(Failure::NoStreamId),
    }
}

/// Reads an event of the search.
pub fn read_event(event: &CborValue) -> (res: Result<Event, Failure>)
    ensures
        event_result(res) == event_of(event@),
{
    match get_text(event, "event") {
        None => Err(Failure::NoEventType),
        Some(name) => {
            if text_is(name, "test_case") {
                match read_stream(event) {
                    Ok(stream_id) => Ok(Event::TestCase { stream_id }),
                    Err(failure) => Err(failure),
                }
            } else if text_is(name, "test_done") {
                match map_get(event, "results") {
                    Some(results) => Ok(Event::TestDone { results: results.clone() }),
                    None => Ok(Event::TestDone { results: CborValue::Null }),
                }
            } else {
                Err(Failure::UnknownEvent(name.clone()))
            }
        },
    }
}

/// Reads the event of a final test case, and gives the id of its stream.
pub fn read_final_event(event: &CborValue) -> (res: Result<u32, Failure>)
    ensures
        plain_result(res) == final_event_of(event@),
{
    match get_text(event, "event") {
        None => Err(Failure::UnexpectedFinal(None)),
        Some(name) => {
            if text_is(name, "test_case") {
                read_stream(event)
            } else {
                Err(Failure::UnexpectedFinal(Some(name.clone())))
            }
        },
    }
}

/// Reads the results of a search.
pub fn read_results(results: &CborValue) -> (res: Result<Summary, Failure>)
    ensures
        plain_result(res) == summary_of(results@),
{
    if let Some(report) = get_text(results, "error") {
        return Err(Failure::ServerError(report.clone()));
    }
    if let Some(report) = get_text(results, "health_check_failure") {
        return Err(Failure::HealthCheckFailure(report.clone()));
    }
    if let Some(report) = get_text(results, "flaky") {
        return Err(Failure::Flaky(report.clone()));
    }
    let interesting: u64 = match get_u64(results, "interesting_test_cases") {
        Some(n) => n,
        None => 0,
    };
    let passed = match get_bool(results, "passed") {
        Some(passed) => passed,
        None => true,
    };
    Ok(Summary { interesting, passed })
}

/// The two names of events differ.
pub proof fn lemma_names_differ()
    ensures
        "test_case"@ != "test_done"@,
{
    reveal_strlit("test_case");
    reveal_strlit("test_done");
    assert("test_case"@[5] != "test_done"@[5]);
}

/// The event of a test case names the stream whose id stands in it. Of an id beyond 32 bits
/// the low half counts: the stream differs from it by a multiple of two to the 32.
pub proof fn law_case_names_its_stream(tree: Tree, n: int)
    requires
        tree.get("event"@) == Some(Tree::Text("test_case"@)),
        tree.get("stream_id"@) == Some(Tree::Integer(n)),
        0 <= n <= u64::MAX,
    ensures
        event_of(tree) matches Ok(Event::TestCase { stream_id }) && (n <= u32::MAX ==> stream_id
            == n) && (n - stream_id) % 0x1_0000_0000 == 0,
        final_event_of(tree) matches Ok(stream_id) && (n <= u32::MAX ==> stream_id == n) && (n
            - stream_id) % 0x1_0000_0000 == 0,
        stream_of(tree) matches Ok(stream_id) && (n <= u32::MAX ==> stream_id == n) && (n
            - stream_id) % 0x1_0000_0000 == 0,
{
}

/// A test case without a stream, or with one whose id is no number of 64 bits, is refused.
pub proof fn law_case_without_stream(tree: Tree)
    requires
        tree.get("stream_id"@) matches Some(Tree::Integer(n)) ==> !(0 <= n <= u64::MAX),
    ensures
        stream_of(tree) == Err::<u32, Failure<Seq<char>>>(Failure::NoStreamId),
        tree.get("event"@) == Some(Tree::Text("test_case"@)) ==> event_of(tree) == Err::<
            Event<Tree>,
            Failure<Seq<char>>,
        >(Failure::NoStreamId) && final_event_of(tree) == Err::<u32, Failure<Seq<char>>>(
            Failure::NoStreamId,
        ),
{
}

/// The end of a search carries what stands under `results`, whatever that is, and nothing
/// where nothing stands there. It is no final test case.
pub proof fn law_done_carries_its_results(tree: Tree)
    requires
        tree.get("event"@) == Some(Tree::Text("test_done"@)),
    ensures
        event_of(tree) matches Ok(Event::TestDone { results }) && match tree.get("results"@) {
            Some(entry) => results == entry,
            None => results == Tree::Null,
        },
        final_event_of(tree) == Err::<u32, Failure<Seq<char>>>(
            Failure::UnexpectedFinal(Some("test_done"@)),
        ),
{
    lemma_names_differ();
}

/// An event of any other name is refused under that name, and one without a name as such.
pub proof fn law_other_events_refused(tree: Tree)
    requires
        tree.get("event"@) != Some(Tree::Text("test_case"@)),
        tree.get("event"@) != Some(Tree::Text("test_done"@)),
    ensures
        match tree.get("event"@) {
            Some(Tree::Text(name)) => {
                &&& event_of(tree) == Err::<Event<Tree>, Failure<Seq<char>>>(
                    Failure::UnknownEvent(name),
                )
                &&& final_event_of(tree) == Err::<u32, Failure<Seq<char>>>(
                    Failure::UnexpectedFinal(Some(name)),
                )
            },
            _ => {
                &&& event_of(tree) == Err::<Event<Tree>, Failure<Seq<char>>>(Failure::NoEventType)
                &&& final_event_of(tree) == Err::<u32, Failure<Seq<char>>>(
                    Failure::UnexpectedFinal(None),
                )
            },
        },
{
}

/// Results with a report fail with the text of that report: an error of the server before
/// all, then a failed health check, then a flaky test. Whatever else they say does not count.
pub proof fn law_reports_come_first(tree: Tree)
    ensures
        tree.get("error"@) matches Some(Tree::Text(report)) ==> summary_of(tree) == Err::<
            Summary,
            Failure<Seq<char>>,
        >(Failure::ServerError(report)),
        !(tree.get("error"@) matches Some(Tree::Text(_))) ==> {
            tree.get("health_check_failure"@) matches Some(Tree::Text(report)) ==> summary_of(tree)
                == Err::<Summary, Failure<Seq<char>>>(Failure::HealthCheckFailure(report))
        },
        !(tree.get("error"@) matches Some(Tree::Text(_))) && !(tree.get("health_check_failure"@)
            matches Some(Tree::Text(_))) ==> {
            tree.get("flaky"@) matches Some(Tree::Text(report)) ==> summary_of(tree) == Err::<
                Summary,
                Failure<Seq<char>>,
            >(Failure::Flaky(report))
        },
{
}

/// Results without a report say in two entries how the search went, each read on its own:
/// it passed unless the boolean under `passed` says that it did not, and as many failures
/// come again as the number under `interesting_test_cases` says, and else none.
pub proof fn law_results_are_believed(tree: Tree)
    requires
        !(tree.get("error"@) matches Some(Tree::Text(_))),
        !(tree.get("health_check_failure"@) matches Some(Tree::Text(_))),
        !(tree.get("flaky"@) matches Some(Tree::Text(_))),
    ensures
        summary_of(tree) is Ok,
        !summary_of(tree)->Ok_0.passed <==> tree.get("passed"@) == Some(Tree::Bool(false)),
        match tree.get("interesting_test_cases"@) {
            Some(Tree::Integer(n)) => summary_of(tree)->Ok_0.interesting == if 0 <= n <= u64::MAX {
                n
            } else {
                0
            },
            _ => summary_of(tree)->Ok_0.interesting == 0,
        },
{
}

/// An event holds the stream or the results that it was made with, and what was read stands
/// for itself.
pub proof fn law_reading_is_kept<T>(
    event: Event,
    read: Result<Event, Failure>,
    plain: Result<T, Failure>,
)
    ensures
        match event {
            Event::TestCase { stream_id } => event@ == (Event::<Tree>::TestCase { stream_id }),
            Event::TestDone { results } => event@ == (Event::<Tree>::TestDone {
                results: results@,
            }),
        },
        match read {
            Ok(event) => event_result(read) == Ok::<Event<Tree>, Failure<Seq<char>>>(event@),
            Err(failure) => event_result(read) == Err::<Event<Tree>, Failure<Seq<char>>>(failure@),
        },
        match plain {
            Ok(value) => plain_result(plain) == Ok::<T, Failure<Seq<char>>>(value),
            Err(failure) => plain_result(plain) == Err::<T, Failure<Seq<char>>>(failure@),
        },
{
}

} // verus!
