//! Why a run breaks off.

use vstd::prelude::*;
use vstd::string::*;

use crate::text;
use crate::text::format_debug;

verus! {

/// Why a run breaks off.
///
/// `S` is the type of the texts in it. An error that a failure carries is carried as
/// the text in which its message shows it.
#[derive(Debug, PartialEq)]
pub enum Failure<S = String> {
    /// The server took no request on the control stream, or gave no reply.
    Channel(S),
    /// What the server sent is no CBOR value.
    Undecodable,
    /// The server process is gone.
    ServerCrashed,
    /// No event could be received, though the server is there.
    NotReceived(S),
    /// An event has no type.
    NoEventType,
    /// An event has a type that nobody knows.
    UnknownEvent(S),
    /// A test case comes without the id of its stream.
    NoStreamId,
    /// The event of a test case could not be answered.
    CaseNotAcked(S),
    /// The event of the end of the search could not be answered.
    DoneNotAcked(S),
    /// The server reports an error of its own.
    ServerError(S),
    /// The server reports that a health check failed.
    HealthCheckFailure(S),
    /// The server reports that the test does not behave the same every time.
    Flaky(S),
    /// The event of a final test case could not be received.
    FinalNotReceived(S),
    /// Something else came where a final test case had to come.
    UnexpectedFinal(Option<S>),
    /// The event of a final test case could not be answered.
    FinalNotAcked(S),
}

/// The characters of an optional text.
pub open spec fn optional_text(text: Option<String>) -> Option<Seq<char>> {
    match text {
        Some(text) => Some(text@),
        None => None,
    }
}

impl View for Failure {
    type V = Failure<Seq<char>>;

    open spec fn view(&self) -> Failure<Seq<char>> {
        match *self {
            Failure::Channel(error) => Failure::Channel(error@),
            Failure::Undecodable => Failure::Undecodable,
            Failure::ServerCrashed => Failure::ServerCrashed,
            Failure::NotReceived(error) => Failure::NotReceived(error@),
            Failure::NoEventType => Failure::NoEventType,
            Failure::UnknownEvent(name) => Failure::UnknownEvent(name@),
            Failure::NoStreamId => Failure::NoStreamId,
            Failure::CaseNotAcked(error) => Failure::CaseNotAcked(error@),
            Failure::DoneNotAcked(error) => Failure::DoneNotAcked(error@),
            Failure::ServerError(report) => Failure::ServerError(report@),
            Failure::HealthCheckFailure(report) => Failure::HealthCheckFailure(report@),
            Failure::Flaky(report) => Failure::Flaky(report@),
            Failure::FinalNotReceived(error) => Failure::FinalNotReceived(error@),
            Failure::UnexpectedFinal(name) => Failure::UnexpectedFinal(optional_text(name)),
            Failure::FinalNotAcked(error) => Failure::FinalNotAcked(error@),
        }
    }
}

impl Failure<Seq<char>> {
    /// What `message` says. The three failures that it leaves out are reported by the
    /// parts of the client that notice them, in words of their own.
    pub open spec fn text(self) -> Option<Seq<char>> {
        match self {
            Failure::Channel(_) | Failure::Undecodable | Failure::ServerCrashed => None,
            Failure::NotReceived(error) => Some(
                "internal error: entered unreachable code: Failed to receive event (server still running): "@
                    + error,
            ),
            Failure::NoEventType => Some("Expected event in payload"@),
            Failure::UnknownEvent(name) => Some("unknown event: "@ + name),
            Failure::NoStreamId => Some("Missing stream id"@),
            Failure::CaseNotAcked(error) => Some("Failed to ack test_case: "@ + error),
            Failure::DoneNotAcked(error) => Some("Failed to ack test_done: "@ + error),
            Failure::ServerError(report) => Some("Server error: "@ + report),
            Failure::HealthCheckFailure(report) => Some("Health check failure:\n"@ + report),
            Failure::Flaky(report) => Some("Flaky test detected: "@ + report),
            Failure::FinalNotReceived(error) => Some(
                "Failed to receive final test_case: "@ + error,
            ),
            Failure::UnexpectedFinal(None) => Some(
                "assertion `left == right` failed\n  left: None\n right: Some(\"test_case\")"@,
            ),
            Failure::UnexpectedFinal(Some(name)) => Some(
                "assertion `left == right` failed\n  left: Some("@ + text::debug_text(name)
                    + ")\n right: Some(\"test_case\")"@,
            ),
            Failure::FinalNotAcked(error) => Some("Failed to ack final test_case: "@ + error),
        }
    }
}

fn prefixed(prefix: &str, rest: &String) -> (res: Option<String>)
    ensures
        optional_text(res) == Some(prefix@ + rest@),
{
    Some(prefix.to_owned().concat(rest.as_str()))
}

impl Failure {
    /// Says what happened.
    pub fn message(&self) -> (res: Option<String>)
        ensures
            optional_text(res) == self@.text(),
    {
        match self {
            Failure::Channel(_) => None,
            Failure::Undecodable => None,
            Failure::ServerCrashed => None,
            Failure::NotReceived(error) => prefixed(
                "internal error: entered unreachable code: Failed to receive event (server still running): ",
                error,
            ),
            Failure::NoEventType => Some("Expected event in payload".to_owned()),
            Failure::UnknownEvent(name) => prefixed("unknown event: ", name),
            Failure::NoStreamId => Some("Missing stream id".to_owned()),
            Failure::CaseNotAcked(error) => prefixed("Failed to ack test_case: ", error),
            Failure::DoneNotAcked(error) => prefixed("Failed to ack test_done: ", error),
            Failure::ServerError(report) => prefixed("Server error: ", report),
            Failure::HealthCheckFailure(report) => prefixed("Health check failure:\n", report),
            Failure::Flaky(report) => prefixed("Flaky test detected: ", report),
            Failure::FinalNotReceived(error) => prefixed(
                "Failed to receive final test_case: ",
                error,
            ),
            Failure::UnexpectedFinal(None) => Some(
                "assertion `left == right` failed\n  left: None\n right: Some(\"test_case\")".to_owned(),
            ),
            Failure::UnexpectedFinal(Some(name)) => Some(
                "assertion `left == right` failed\n  left: Some(".to_owned().concat(
                    format_debug(name.as_str()).as_str(),
                ).concat(")\n right: Some(\"test_case\")"),
            ),
            Failure::FinalNotAcked(error) => prefixed("Failed to ack final test_case: ", error),
        }
    }
}

/// A failure is modelled as it is, with the text that it carries.
pub proof fn law_failure_model_is_faithful(failure: Failure, text: Option<String>)
    ensures
        match failure {
            Failure::Channel(error) => failure@ == Failure::Channel(error@),
            Failure::Undecodable => failure@ is Undecodable,
            Failure::ServerCrashed => failure@ is ServerCrashed,
            Failure::NotReceived(error) => failure@ == Failure::NotReceived(error@),
            Failure::NoEventType => failure@ is NoEventType,
            Failure::UnknownEvent(name) => failure@ == Failure::UnknownEvent(name@),
            Failure::NoStreamId => failure@ is NoStreamId,
            Failure::CaseNotAcked(error) => failure@ == Failure::CaseNotAcked(error@),
            Failure::DoneNotAcked(error) => failure@ == Failure::DoneNotAcked(error@),
            Failure::ServerError(report) => failure@ == Failure::ServerError(report@),
            Failure::HealthCheckFailure(report) => failure@ == Failure::HealthCheckFailure(report@),
            Failure::Flaky(report) => failure@ == Failure::Flaky(report@),
            Failure::FinalNotReceived(error) => failure@ == Failure::FinalNotReceived(error@),
            Failure::UnexpectedFinal(Some(name)) => failure@ == Failure::UnexpectedFinal(
                Some(name@),
            ),
            Failure::UnexpectedFinal(None) => failure@ == Failure::<Seq<char>>::UnexpectedFinal(
                None,
            ),
            Failure::FinalNotAcked(error) => failure@ == Failure::FinalNotAcked(error@),
        },
        match text {
            Some(text) => optional_text(Some(text)) == Some(text@),
            None => optional_text(text) is None,
        },
{
}

/// What is said of a failure that carries a text ends with that text, unchanged, behind words
/// that name what happened. Of three failures nothing is said.
pub proof fn law_messages_tell_the_text(text: Seq<char>)
    ensures
        Failure::NotReceived(text).text() == Some(
            "internal error: entered unreachable code: Failed to receive event (server still running): "@
                + text,
        ),
        Failure::UnknownEvent(text).text() == Some("unknown event: "@ + text),
        Failure::CaseNotAcked(text).text() == Some("Failed to ack test_case: "@ + text),
        Failure::DoneNotAcked(text).text() == Some("Failed to ack test_done: "@ + text),
        Failure::ServerError(text).text() == Some("Server error: "@ + text),
        Failure::HealthCheckFailure(text).text() == Some("Health check failure:\n"@ + text),
        Failure::Flaky(text).text() == Some("Flaky test detected: "@ + text),
        Failure::FinalNotReceived(text).text() == Some(
            "Failed to receive final test_case: "@ + text,
        ),
        Failure::FinalNotAcked(text).text() == Some("Failed to ack final test_case: "@ + text),
        Failure::UnexpectedFinal(Some(text)).text() == Some(
            "assertion `left == right` failed\n  left: Some("@ + text::debug_text(text)
                + ")\n right: Some(\"test_case\")"@,
        ),
        Failure::<Seq<char>>::UnexpectedFinal(None).text() == Some(
            "assertion `left == right` failed\n  left: None\n right: Some(\"test_case\")"@,
        ),
        Failure::<Seq<char>>::NoEventType.text() == Some("Expected event in payload"@),
        Failure::<Seq<char>>::NoStreamId.text() == Some("Missing stream id"@),
        Failure::Channel(text).text() is None,
        Failure::<Seq<char>>::Undecodable.text() is None,
        Failure::<Seq<char>>::ServerCrashed.text() is None,
{
}

} // verus!
