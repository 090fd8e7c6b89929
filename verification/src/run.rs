//! The course of a run.
//!
//! A run is a sequence of actions, each of which waits for the outcome of the one
//! before. [`TestRun`] is where a run stands; [`TestRun::step`] takes the outcome of the
//! last action and gives the next one.

use vstd::pervasive::unreached;
use vstd::prelude::*;

use crate::cbor;
use crate::cbor::{cbor_decode, cbor_encode, CborValue, Tree};
use crate::event;
use crate::event::{read_event, read_final_event, read_results, Event};
use crate::failure;
use crate::failure::Failure;
use crate::request;
use crate::request::{ack_null, ack_true, run_test_message, single_test_case_message};
use crate::settings::{Mode, Settings};

verus! {

/// How a test case went.
#[derive(Debug, PartialEq)]
pub enum TestCaseResult<S = String> {
    Valid,
    Invalid,
    Overrun,
    /// The test failed, with this message.
    Interesting { panic_message: S },
}

/// How a run went.
#[derive(Debug, PartialEq)]
pub struct TestRunResult<S = String> {
    pub passed: bool,
    pub failure_message: Option<S>,
}

/// What a run asks for. `B` is the type of bytes, and `S` that of texts.
#[derive(Debug, PartialEq)]
pub enum Action<B = Vec<u8>, S = String> {
    /// Send a request on the control stream, and wait for the reply.
    Send(B),
    /// Receive an event on the stream of the run.
    Receive,
    /// Receive the event of a final test case on the stream of the run.
    ReceiveFinal,
    /// Connect to the stream of a test case.
    Connect(u32),
    /// Answer an event.
    Reply { event_id: u32, payload: B },
    /// Run a test case on the stream that was connected last.
    RunCase { is_final: bool },
    /// Find out whether the server is still there.
    CheckServer,
    /// The run is over.
    Finish(TestRunResult<S>),
    /// The run breaks off.
    Fail(Failure<S>),
}

/// What came of an action.
#[derive(Debug, PartialEq)]
pub enum Outcome<B = Vec<u8>, S = String> {
    /// Of `Send`: the reply, or what went wrong.
    Sent(Result<B, S>),
    /// Of `Receive`: the id and the payload of an event, or what went wrong; and, where
    /// something did, whether the server is gone.
    Received { event: Result<(u32, B), S>, server_exited: bool },
    /// Of `ReceiveFinal`: the id and the payload of an event, or what went wrong.
    ReceivedFinal(Result<(u32, B), S>),
    /// Of `Connect`.
    Connected,
    /// Of `Reply`: what went wrong, if something did.
    Replied(Result<(), S>),
    /// Of `RunCase`.
    CaseRun(TestCaseResult<S>),
    /// Of `CheckServer`: whether the server is gone.
    ServerChecked { exited: bool },
}

/// What a run waits for. `V` is the type of values.
#[derive(Debug, PartialEq)]
pub enum Stage<V = CborValue> {
    /// The reply to the message that opens the run.
    Opening,
    /// An event.
    Listening,
    /// The connection to the stream of the test case that event `event_id` announced.
    Connecting { event_id: u32 },
    /// That the event of a test case has been answered.
    Acking,
    /// The end of a test case.
    Running,
    /// Whether the server is still there.
    Checking,
    /// That the end of the search has been answered.
    Closing { results: V },
    /// Nothing any more.
    Stopped,
}

/// Where a run stands.
#[derive(Debug, PartialEq)]
pub struct TestRun<V = CborValue, S = String> {
    pub mode: Mode,
    pub stage: Stage<V>,
    /// How many final test cases are still to come, with the one at hand; `None` before
    /// the end of the search.
    pub left: Option<u64>,
    /// Whether the test passed, as far as is known.
    pub passed: bool,
    /// The message of the last failure among the test cases that count.
    pub failure_message: Option<S>,
}

/// What [`TestCaseResult`] holds.
pub type CaseModel = TestCaseResult<Seq<char>>;

/// What [`Action`] holds.
pub type ActionModel = Action<Seq<u8>, Seq<char>>;

/// What [`Outcome`] holds.
pub type OutcomeModel = Outcome<Seq<u8>, Seq<char>>;

/// What [`TestRun`] holds.
pub type RunModel = TestRun<Tree, Seq<char>>;

impl View for TestCaseResult {
    type V = CaseModel;

    open spec fn view(&self) -> CaseModel {
        match *self {
            TestCaseResult::Valid => TestCaseResult::Valid,
            TestCaseResult::Invalid => TestCaseResult::Invalid,
            TestCaseResult::Overrun => TestCaseResult::Overrun,
            TestCaseResult::Interesting { panic_message } => TestCaseResult::Interesting {
                panic_message: panic_message@,
            },
        }
    }
}

impl View for TestRunResult {
    type V = TestRunResult<Seq<char>>;

    open spec fn view(&self) -> TestRunResult<Seq<char>> {
        TestRunResult {
            passed: self.passed,
            failure_message: failure::optional_text(self.failure_message),
        }
    }
}

impl View for Action {
    type V = ActionModel;

    open spec fn view(&self) -> ActionModel {
        match *self {
            Action::Send(request) => Action::Send(request@),
            Action::Receive => Action::Receive,
            Action::ReceiveFinal => Action::ReceiveFinal,
            Action::Connect(stream_id) => Action::Connect(stream_id),
            Action::Reply { event_id, payload } => Action::Reply { event_id, payload: payload@ },
            Action::RunCase { is_final } => Action::RunCase { is_final },
            Action::CheckServer => Action::CheckServer,
            Action::Finish(result) => Action::Finish(result@),
            Action::Fail(failure) => Action::Fail(failure@),
        }
    }
}

/// What came on a stream.
pub open spec fn received(event: Result<(u32, Vec<u8>), String>) -> Result<
    (u32, Seq<u8>),
    Seq<char>,
> {
    match event {
        Ok((event_id, payload)) => Ok((event_id, payload@)),
        Err(error) => Err(error@),
    }
}

impl View for Outcome {
    type V = OutcomeModel;

    open spec fn view(&self) -> OutcomeModel {
        match *self {
            Outcome::Sent(Ok(reply)) => Outcome::Sent(Ok(reply@)),
            Outcome::Sent(Err(error)) => Outcome::Sent(Err(error@)),
            Outcome::Received { event, server_exited } => Outcome::Received {
                event: received(event),
                server_exited,
            },
            Outcome::ReceivedFinal(event) => Outcome::ReceivedFinal(received(event)),
            Outcome::Connected => Outcome::Connected,
            Outcome::Replied(Ok(())) => Outcome::Replied(Ok(())),
            Outcome::Replied(Err(error)) => Outcome::Replied(Err(error@)),
            Outcome::CaseRun(result) => Outcome::CaseRun(result@),
            Outcome::ServerChecked { exited } => Outcome::ServerChecked { exited },
        }
    }
}

impl View for Stage {
    type V = Stage<Tree>;

    open spec fn view(&self) -> Stage<Tree> {
        match *self {
            Stage::Opening => Stage::Opening,
            Stage::Listening => Stage::Listening,
            Stage::Connecting { event_id } => Stage::Connecting { event_id },
            Stage::Acking => Stage::Acking,
            Stage::Running => Stage::Running,
            Stage::Checking => Stage::Checking,
            Stage::Closing { results } => Stage::Closing { results: results@ },
            Stage::Stopped => Stage::Stopped,
        }
    }
}

impl View for TestRun {
    type V = RunModel;

    open spec fn view(&self) -> RunModel {
        TestRun {
            mode: self.mode,
            stage: self.stage@,
            left: self.left,
            passed: self.passed,
            failure_message: failure::optional_text(self.failure_message),
        }
    }
}

impl RunModel {
    /// A run of which the opening message has just gone out.
    pub open spec fn opened(mode: Mode) -> RunModel {
        TestRun { mode, stage: Stage::Opening, left: None, passed: true, failure_message: None }
    }

    /// This run, at another stage.
    pub open spec fn at(self, stage: Stage<Tree>) -> RunModel {
        TestRun { stage, ..self }
    }

    /// Whether `outcome` is one that this run waits for.
    pub open spec fn expects(self, outcome: OutcomeModel) -> bool {
        match self.stage {
            Stage::Opening => outcome is Sent,
            Stage::Listening => if self.left is None {
                outcome is Received
            } else {
                outcome is ReceivedFinal
            },
            Stage::Connecting { .. } => outcome is Connected,
            Stage::Acking => outcome is Replied,
            Stage::Running => outcome is CaseRun,
            Stage::Checking => outcome is ServerChecked,
            Stage::Closing { .. } => outcome is Replied,
            Stage::Stopped => false,
        }
    }

    /// Whether the numbers of a run fit together: a final test case is at hand only
    /// where one is to come, and only where the run searches for failures.
    pub open spec fn well_formed(self) -> bool {
        &&& self.left is Some ==> self.mode is TestRun
        &&& !(self.stage is Stopped) && self.left is Some ==> self.left->0 > 0
        &&& self.stage is Checking ==> self.left is Some
        &&& self.stage is Opening || self.stage is Closing ==> self.left is None
    }

    /// Breaking off.
    pub open spec fn fail(self, failure: Failure<Seq<char>>) -> (RunModel, ActionModel) {
        (self.at(Stage::Stopped), Action::Fail(failure))
    }

    /// Coming to the end.
    pub open spec fn finish(self) -> (RunModel, ActionModel) {
        (
            self.at(Stage::Stopped),
            Action::Finish(
                TestRunResult { passed: self.passed, failure_message: self.failure_message },
            ),
        )
    }

    /// Going on with `left` final test cases.
    pub open spec fn replay(self, left: u64) -> (RunModel, ActionModel) {
        let run = TestRun { left: Some(left), ..self };
        if left == 0 {
            run.finish()
        } else {
            (run.at(Stage::Listening), Action::ReceiveFinal)
        }
    }

    /// On the reply to the opening message.
    pub open spec fn on_sent(self, reply: Result<Seq<u8>, Seq<char>>) -> (RunModel, ActionModel) {
        match reply {
            Err(error) => self.fail(Failure::Channel(error)),
            Ok(reply) => match cbor::cbor_decoded(reply) {
                None => self.fail(Failure::Undecodable),
                Some(_) => (self.at(Stage::Listening), Action::Receive),
            },
        }
    }

    /// On the event `event`, whose id is `event_id`.
    pub open spec fn on_event(self, event_id: u32, event: Tree) -> (RunModel, ActionModel) {
        match event::event_of(event) {
            Err(failure) => self.fail(failure),
            Ok(Event::TestCase { stream_id }) => (
                self.at(Stage::Connecting { event_id }),
                Action::Connect(stream_id),
            ),
            Ok(Event::TestDone { results }) => (
                self.at(Stage::Closing { results }),
                Action::Reply {
                    event_id,
                    payload: cbor::cbor_encoded(request::ack_tree(Tree::Bool(true))),
                },
            ),
        }
    }

    /// On what came where an event of the search was to come.
    pub open spec fn on_received(
        self,
        event: Result<(u32, Seq<u8>), Seq<char>>,
        server_exited: bool,
    ) -> (RunModel, ActionModel) {
        match received_event(event, server_exited) {
            Err(failure) => self.fail(failure),
            Ok((event_id, payload)) => match cbor::cbor_decoded(payload) {
                None => self.fail(Failure::Undecodable),
                Some(event) => self.on_event(event_id, event),
            },
        }
    }

    /// On the event `event` of a final test case, whose id is `event_id`.
    pub open spec fn on_final_event(self, event_id: u32, event: Tree) -> (RunModel, ActionModel) {
        match event::final_event_of(event) {
            Err(failure) => self.fail(failure),
            Ok(stream_id) => (
                self.at(Stage::Connecting { event_id }),
                Action::Connect(stream_id),
            ),
        }
    }

    /// On what came where the event of a final test case was to come.
    pub open spec fn on_received_final(self, event: Result<(u32, Seq<u8>), Seq<char>>) -> (
        RunModel,
        ActionModel,
    ) {
        match event {
            Err(error) => self.fail(Failure::FinalNotReceived(error)),
            Ok((event_id, payload)) => match cbor::cbor_decoded(payload) {
                None => self.fail(Failure::Undecodable),
                Some(event) => self.on_final_event(event_id, event),
            },
        }
    }

    /// On the connection to the stream of a test case: its event is answered before it
    /// runs.
    pub open spec fn on_connected(self, event_id: u32) -> (RunModel, ActionModel) {
        (
            self.at(Stage::Acking),
            Action::Reply {
                event_id,
                payload: cbor::cbor_encoded(request::ack_tree(Tree::Null)),
            },
        )
    }

    /// On the answer to the event of a test case.
    pub open spec fn on_case_acked(self, replied: Result<(), Seq<char>>) -> (
        RunModel,
        ActionModel,
    ) {
        match replied {
            Ok(_) => (
                self.at(Stage::Running),
                Action::RunCase { is_final: self.mode is SingleTestCase || self.left is Some },
            ),
            Err(error) => if self.left is None {
                self.fail(Failure::CaseNotAcked(error))
            } else {
                self.fail(Failure::FinalNotAcked(error))
            },
        }
    }

    /// On the end of a test case. One of a search does not count; its failures come
    /// again as final test cases.
    pub open spec fn on_case_run(self, result: CaseModel) -> (RunModel, ActionModel) {
        let counted = match result {
            TestCaseResult::Interesting { panic_message } => TestRun {
                passed: self.passed && !(self.mode is SingleTestCase),
                failure_message: Some(panic_message),
                ..self
            },
            _ => self,
        };
        if self.left is Some {
            (counted.at(Stage::Checking), Action::CheckServer)
        } else if self.mode is SingleTestCase {
            (counted.at(Stage::Listening), Action::Receive)
        } else {
            (self.at(Stage::Listening), Action::Receive)
        }
    }

    /// On whether the server is gone after a final test case.
    pub open spec fn on_server_checked(self, exited: bool) -> (RunModel, ActionModel) {
        if exited {
            self.fail(Failure::ServerCrashed)
        } else {
            self.replay((self.left->0 - 1) as u64)
        }
    }

    /// On the results of a search.
    pub open spec fn on_results(self, results: Tree) -> (RunModel, ActionModel) {
        match event::summary_of(results) {
            Err(failure) => self.fail(failure),
            Ok(summary) => TestRun { passed: summary.passed, ..self }.replay(summary.interesting),
        }
    }

    /// On the answer to the end of the search.
    pub open spec fn on_done_acked(self, results: Tree, replied: Result<(), Seq<char>>) -> (
        RunModel,
        ActionModel,
    ) {
        match replied {
            Err(error) => self.fail(Failure::DoneNotAcked(error)),
            Ok(_) => if self.mode is SingleTestCase {
                self.finish()
            } else {
                self.on_results(results)
            },
        }
    }

    /// Where this run stands after `outcome`, and what it asks for next.
    pub open spec fn next(self, outcome: OutcomeModel) -> (RunModel, ActionModel) {
        match (self.stage, outcome) {
            (Stage::Opening, Outcome::Sent(reply)) => self.on_sent(reply),
            (
                Stage::Listening,
                Outcome::Received { event, server_exited },
            ) => self.on_received(event, server_exited),
            (Stage::Listening, Outcome::ReceivedFinal(event)) => self.on_received_final(event),
            (Stage::Connecting { event_id }, Outcome::Connected) => self.on_connected(event_id),
            (Stage::Acking, Outcome::Replied(replied)) => self.on_case_acked(replied),
            (Stage::Running, Outcome::CaseRun(result)) => self.on_case_run(result),
            (Stage::Checking, Outcome::ServerChecked { exited }) => self.on_server_checked(exited),
            (
                Stage::Closing { results },
                Outcome::Replied(replied),
            ) => self.on_done_acked(results, replied),
            _ => arbitrary(),
        }
    }
}

/// The event that came, or why the run breaks off where none did.
pub open spec fn received_event(
    event: Result<(u32, Seq<u8>), Seq<char>>,
    server_exited: bool,
) -> Result<(u32, Seq<u8>), Failure<Seq<char>>> {
    match event {
        Ok(event) => Ok(event),
        Err(error) => if server_exited {
            Err(Failure::ServerCrashed)
        } else {
            Err(Failure::NotReceived(error))
        },
    }
}

/// The message that opens a run with `settings`.
pub open spec fn opening_tree(
    settings: Settings,
    database_key: Option<Seq<char>>,
    stream_id: u32,
) -> Tree {
    if settings.mode is SingleTestCase {
        request::single_test_case_tree(settings.seed, stream_id)
    } else {
        request::run_test_tree(settings, database_key, stream_id)
    }
}

/// Whether `action` is to send the message `message`, written so that it reads back.
pub open spec fn sends(action: ActionModel, message: Tree) -> bool {
    &&& action == ActionModel::Send(cbor::cbor_encoded(message))
    &&& cbor::cbor_decoded(cbor::cbor_encoded(message)) == Some(message)
}

/// Whether `action`, where it answers an event, does so with `result`, written so that it
/// reads back.
pub open spec fn answers_with(action: ActionModel, result: Tree) -> bool {
    action matches Action::Reply { payload, .. } ==> {
        &&& payload == cbor::cbor_encoded(request::ack_tree(result))
        &&& cbor::cbor_decoded(payload) == Some(request::ack_tree(result))
    }
}

/// Runs tests against the server.
pub struct ServerTestRunner;

impl ServerTestRunner {
    /// Opens a run of one test case, whose events come on stream `stream_id`.
    pub fn run_single_test_case(&self, settings: &Settings, stream_id: u32) -> (res: (
        TestRun,
        Action,
    ))
        ensures
            res.0@ == RunModel::opened(Mode::SingleTestCase),
            sends(res.1@, request::single_test_case_tree(settings.seed, stream_id)),
    {
        let message = single_test_case_message(settings.seed, stream_id);
        (TestRun::open(Mode::SingleTestCase), Action::Send(cbor_encode(&message)))
    }

    /// Opens a run, whose events come on stream `stream_id`.
    pub fn run(&self, settings: &Settings, database_key: Option<&str>, stream_id: u32) -> (res: (
        TestRun,
        Action,
    ))
        ensures
            res.0@ == RunModel::opened(settings.mode),
            sends(
                res.1@,
                opening_tree(
                    *settings,
                    match database_key {
                        Some(key) => Some(key@),
                        None => None,
                    },
                    stream_id,
                ),
            ),
    {
        if settings.mode == Mode::SingleTestCase {
            return self.run_single_test_case(settings, stream_id);
        }
        let message = run_test_message(settings, database_key, stream_id);
        (TestRun::open(Mode::TestRun), Action::Send(cbor_encode(&message)))
    }
}

/// The event that came, or why the run breaks off where none did.
pub fn receive_event(event: Result<(u32, Vec<u8>), String>, server_exited: bool) -> (res: Result<
    (u32, Vec<u8>),
    Failure,
>)
    ensures
        received_event(received(event), server_exited) == match res {
            Ok((event_id, payload)) => Ok((event_id, payload@)),
            Err(failure) => Err(failure@),
        },
{
    match event {
        Ok(event) => Ok(event),
        Err(error) => {
            if server_exited {
                Err(Failure::ServerCrashed)
            } else {
                Err(Failure::NotReceived(error))
            }
        },
    }
}

impl TestRun {
    fn open(mode: Mode) -> (res: TestRun)
        ensures
            res@ == RunModel::opened(mode),
    {
        TestRun { mode, stage: Stage::Opening, left: None, passed: true, failure_message: None }
    }

    fn go(self, stage: Stage) -> (res: TestRun)
        ensures
            res@ == self@.at(stage@),
    {
        TestRun { stage, ..self }
    }

    fn break_off(self, failure: Failure) -> (res: (TestRun, Action))
        ensures
            (res.0@, res.1@) == self@.fail(failure@),
    {
        (self.go(Stage::Stopped), Action::Fail(failure))
    }

    fn conclude(self) -> (res: (TestRun, Action))
        ensures
            (res.0@, res.1@) == self@.finish(),
    {
        let failure_message = match &self.failure_message {
            Some(message) => Some(message.clone()),
            None => None,
        };
        let result = TestRunResult { passed: self.passed, failure_message };
        (self.go(Stage::Stopped), Action::Finish(result))
    }

    fn go_on(self, left: u64) -> (res: (TestRun, Action))
        ensures
            (res.0@, res.1@) == self@.replay(left),
    {
        let run = TestRun { left: Some(left), ..self };
        if left == 0 {
            run.conclude()
        } else {
            (run.go(Stage::Listening), Action::ReceiveFinal)
        }
    }

    /// Takes an event of the search.
    pub fn on_event(self, event_id: u32, event: &CborValue) -> (res: (TestRun, Action))
        ensures
            (res.0@, res.1@) == self@.on_event(event_id, event@),
            answers_with(res.1@, Tree::Bool(true)),
    {
        match read_event(event) {
            Err(failure) => self.break_off(failure),
            Ok(Event::TestCase { stream_id }) => (
                self.go(Stage::Connecting { event_id }),
                Action::Connect(stream_id),
            ),
            Ok(Event::TestDone { results }) => (
                self.go(Stage::Closing { results }),
                Action::Reply { event_id, payload: cbor_encode(&ack_true()) },
            ),
        }
    }

    /// Takes the event of a final test case.
    pub fn on_final_event(self, event_id: u32, event: &CborValue) -> (res: (TestRun, Action))
        ensures
            (res.0@, res.1@) == self@.on_final_event(event_id, event@),
    {
        match read_final_event(event) {
            Err(failure) => self.break_off(failure),
            Ok(stream_id) => (
                self.go(Stage::Connecting { event_id }),
                Action::Connect(stream_id),
            ),
        }
    }

    /// Takes the results of a search.
    pub fn on_results(self, results: &CborValue) -> (res: (TestRun, Action))
        ensures
            (res.0@, res.1@) == self@.on_results(results@),
    {
        match read_results(results) {
            Err(failure) => self.break_off(failure),
            Ok(summary) => TestRun { passed: summary.passed, ..self }.go_on(summary.interesting),
        }
    }

    fn on_sent(self, reply: Result<Vec<u8>, String>) -> (res: (TestRun, Action))
        ensures
            (res.0@, res.1@) == self@.on_sent(
                match reply {
                    Ok(reply) => Ok(reply@),
                    Err(error) => Err(error@),
                },
            ),
    {
        match reply {
            Err(error) => self.break_off(Failure::Channel(error)),
            Ok(reply) => match cbor_decode(reply.as_slice()) {
                None => self.break_off(Failure::Undecodable),
                Some(_) => (self.go(Stage::Listening), Action::Receive),
            },
        }
    }

    fn on_received(self, event: Result<(u32, Vec<u8>), String>, server_exited: bool) -> (res: (
        TestRun,
        Action,
    ))
        ensures
            (res.0@, res.1@) == self@.on_received(received(event), server_exited),
            answers_with(res.1@, Tree::Bool(true)),
    {
        match receive_event(event, server_exited) {
            Err(failure) => self.break_off(failure),
            Ok((event_id, payload)) => match cbor_decode(payload.as_slice()) {
                None => self.break_off(Failure::Undecodable),
                Some(event) => self.on_event(event_id, &event),
            },
        }
    }

    fn on_received_final(self, event: Result<(u32, Vec<u8>), String>) -> (res: (TestRun, Action))
        ensures
            (res.0@, res.1@) == self@.on_received_final(received(event)),
    {
        match event {
            Err(error) => self.break_off(Failure::FinalNotReceived(error)),
            Ok((event_id, payload)) => match cbor_decode(payload.as_slice()) {
                None => self.break_off(Failure::Undecodable),
                Some(event) => self.on_final_event(event_id, &event),
            },
        }
    }

    fn on_case_acked(self, replied: Result<(), String>) -> (res: (TestRun, Action))
        ensures
            (res.0@, res.1@) == self@.on_case_acked(
                match replied {
                    Ok(_) => Ok(()),
                    Err(error) => Err(error@),
                },
            ),
    {
        let is_final = self.mode == Mode::SingleTestCase || self.left.is_some();
        match replied {
            Ok(_) => (self.go(Stage::Running), Action::RunCase { is_final }),
            Err(error) => {
                if self.left.is_none() {
                    self.break_off(Failure::CaseNotAcked(error))
                } else {
                    self.break_off(Failure::FinalNotAcked(error))
                }
            },
        }
    }

    fn on_case_run(self, result: TestCaseResult) -> (res: (TestRun, Action))
        ensures
            (res.0@, res.1@) == self@.on_case_run(result@),
    {
        let single = self.mode == Mode::SingleTestCase;
        if self.left.is_none() && !single {
            return (self.go(Stage::Listening), Action::Receive);
        }
        let replaying = self.left.is_some();
        let counted = match result {
            TestCaseResult::Interesting { panic_message } => TestRun {
                passed: self.passed && !single,
                failure_message: Some(panic_message),
                ..self
            },
            _ => self,
        };
        if replaying {
            (counted.go(Stage::Checking), Action::CheckServer)
        } else {
            (counted.go(Stage::Listening), Action::Receive)
        }
    }

    /// Whether `outcome` is one that this run waits for.
    pub fn ready_for(&self, outcome: &Outcome) -> (res: bool)
        ensures
            res == (self@.well_formed() && self@.expects(outcome@)),
    {
        let left_fits = match self.left {
            Some(left) => self.mode == Mode::TestRun && left > 0,
            None => true,
        };
        left_fits && match (&self.stage, outcome) {
            (Stage::Opening, Outcome::Sent(_)) => self.left.is_none(),
            (Stage::Listening, Outcome::Received { .. }) => self.left.is_none(),
            (Stage::Listening, Outcome::ReceivedFinal(_)) => self.left.is_some(),
            (Stage::Connecting { .. }, Outcome::Connected) => true,
            (Stage::Acking, Outcome::Replied(_)) => true,
            (Stage::Running, Outcome::CaseRun(_)) => true,
            (Stage::Checking, Outcome::ServerChecked { .. }) => self.left.is_some(),
            (Stage::Closing { .. }, Outcome::Replied(_)) => self.left.is_none(),
            _ => false,
        }
    }

    /// Takes the outcome of the last action, and gives the next one.
    pub fn step(self, outcome: Outcome) -> (res: (TestRun, Action))
        requires
            self@.well_formed(),
            self@.expects(outcome@),
        ensures
            (res.0@, res.1@) == self@.next(outcome@),
            res.0@.well_formed(),
            answers_with(
                res.1@,
                if outcome is Connected {
                    Tree::Null
                } else {
                    Tree::Bool(true)
                },
            ),
    {
        match outcome {
            Outcome::Sent(reply) => self.on_sent(reply),
            Outcome::Received { event, server_exited } => self.on_received(event, server_exited),
            Outcome::ReceivedFinal(event) => self.on_received_final(event),
            Outcome::Connected => match self.stage {
                Stage::Connecting { event_id } => (
                    self.go(Stage::Acking),
                    Action::Reply { event_id, payload: cbor_encode(&ack_null()) },
                ),
                _ => unreached(),
            },
            Outcome::Replied(replied) => match &self.stage {
                Stage::Closing { results } => match replied {
                    Err(error) => self.break_off(Failure::DoneNotAcked(error)),
                    Ok(_) => {
                        if self.mode == Mode::SingleTestCase {
                            self.conclude()
                        } else {
                            let results = results.clone();
                            self.on_results(&results)
                        }
                    },
                },
                _ => self.on_case_acked(replied),
            },
            Outcome::CaseRun(result) => self.on_case_run(result),
            Outcome::ServerChecked { exited } => {
                if exited {
                    self.break_off(Failure::ServerCrashed)
                } else {
                    match self.left {
                        Some(left) => self.go_on(left - 1),
                        None => unreached(),
                    }
                }
            },
        }
    }
}

/// A run that has just been opened has passed so far, has no failure to tell, and waits for
/// the reply to its message.
pub proof fn law_opened(mode: Mode)
    ensures
        RunModel::opened(mode).mode == mode,
        RunModel::opened(mode).stage is Opening,
        RunModel::opened(mode).left is None,
        RunModel::opened(mode).passed,
        RunModel::opened(mode).failure_message is None,
        RunModel::opened(mode).well_formed(),
{
}

/// The mode alone decides which message opens a run.
pub proof fn law_mode_decides_message(
    settings: Settings,
    database_key: Option<Seq<char>>,
    stream_id: u32,
)
    ensures
        settings.mode is SingleTestCase ==> opening_tree(settings, database_key, stream_id)
            == request::single_test_case_tree(settings.seed, stream_id),
        settings.mode is TestRun ==> opening_tree(settings, database_key, stream_id)
            == request::run_test_tree(settings, database_key, stream_id),
        opening_tree(settings, database_key, stream_id).get("command"@) == Some(
            Tree::Text(
                if settings.mode is TestRun {
                    "run_test"@
                } else {
                    "single_test_case"@
                },
            ),
        ),
        opening_tree(settings, database_key, stream_id).get("stream_id"@) == Some(
            Tree::Integer(stream_id as int),
        ),
        settings.seed matches Some(seed) ==> opening_tree(settings, database_key, stream_id).get(
            "seed"@,
        ) == Some(Tree::Integer(seed as int)),
{
    request::law_run_test_reads_back(settings, database_key, stream_id);
    request::law_single_test_case_reads_back(settings.seed, stream_id);
}

/// To send a message is to send its bytes, from which it reads back; and so with an answer,
/// a map with the result under its only key.
pub proof fn law_sent_as_written(action: ActionModel, message: Tree)
    ensures
        sends(action, message) <==> action == ActionModel::Send(cbor::cbor_encoded(message))
            && cbor::cbor_decoded(cbor::cbor_encoded(message)) == Some(message),
        answers_with(action, message) <==> (action matches Action::Reply { payload, .. } ==> payload
            == cbor::cbor_encoded(Tree::Mapping(seq![(Tree::Text("result"@), message)]))
            && cbor::cbor_decoded(payload) == Some(
            Tree::Mapping(seq![(Tree::Text("result"@), message)]),
        )),
{
}

/// At which stages an outcome is waited for: of the two kinds of events, one comes before the
/// end of the search and the other after.
pub proof fn law_when_outcomes_are_expected(run: RunModel, outcome: OutcomeModel)
    ensures
        run.expects(outcome) <==> match outcome {
            Outcome::Sent(_) => run.stage is Opening,
            Outcome::Received { .. } => run.stage is Listening && run.left is None,
            Outcome::ReceivedFinal(_) => run.stage is Listening && run.left is Some,
            Outcome::Connected => run.stage is Connecting,
            Outcome::Replied(_) => run.stage is Acking || run.stage is Closing,
            Outcome::CaseRun(_) => run.stage is Running,
            Outcome::ServerChecked { .. } => run.stage is Checking,
        },
{
}

/// Which runs there can be: before the end of a search any but one that looks for the server,
/// and after it those of a search, neither opening nor closing, with a test case left unless
/// they have stopped.
pub proof fn law_which_runs_there_are(run: RunModel)
    ensures
        run.well_formed() <==> match run.left {
            None => !(run.stage is Checking),
            Some(left) => run.mode is TestRun && !(run.stage is Opening) && !(run.stage is Closing)
                && (left > 0 || run.stage is Stopped),
        },
{
}

/// A run that was answered goes on to listen, and stays otherwise as it is. It breaks off
/// only where no reply came, with what went wrong, or where the reply is no value.
pub proof fn law_opening(run: RunModel, reply: Result<Seq<u8>, Seq<char>>)
    requires
        run.stage is Opening,
    ensures
        ({
            let (next, action) = run.next(Outcome::Sent(reply));
            &&& reply matches Ok(bytes) ==> {
                &&& cbor::cbor_decoded(bytes) is Some ==> action is Receive && next == (TestRun {
                    stage: Stage::Listening,
                    ..run
                })
                &&& cbor::cbor_decoded(bytes) is None ==> action == ActionModel::Fail(
                    Failure::Undecodable,
                )
            }
            &&& reply matches Err(error) ==> action == ActionModel::Fail(Failure::Channel(error))
            &&& action is Fail ==> next == (TestRun { stage: Stage::Stopped, ..run })
        }),
{
}

/// Where no event comes, the run breaks off: the server is to blame where it is gone, and
/// else what went wrong is told. What did come is handed on as it came.
pub proof fn law_nothing_received(
    run: RunModel,
    event: Result<(u32, Seq<u8>), Seq<char>>,
    server_exited: bool,
)
    ensures
        event matches Ok(came) ==> received_event(event, server_exited) == Ok::<
            (u32, Seq<u8>),
            Failure<Seq<char>>,
        >(came),
        event matches Err(error) ==> received_event(event, server_exited) == Err::<
            (u32, Seq<u8>),
            Failure<Seq<char>>,
        >(
            if server_exited {
                Failure::ServerCrashed
            } else {
                Failure::NotReceived(error)
            },
        ),
        run.stage is Listening ==> {
            event matches Err(error) ==> {
                &&& run.next(Outcome::Received { event, server_exited: true }) == (
                    (TestRun { stage: Stage::Stopped, ..run }),
                    ActionModel::Fail(Failure::ServerCrashed),
                )
                &&& run.next(Outcome::Received { event, server_exited: false }) == (
                    (TestRun { stage: Stage::Stopped, ..run }),
                    ActionModel::Fail(Failure::NotReceived(error)),
                )
                &&& run.next(Outcome::ReceivedFinal(event)) == (
                    (TestRun { stage: Stage::Stopped, ..run }),
                    ActionModel::Fail(Failure::FinalNotReceived(error)),
                )
            }
        },
{
}

/// An event is taken as what its bytes read as, whether or not the server has meanwhile
/// gone; bytes that read as nothing break the run off.
pub proof fn law_received_is_read(run: RunModel, id: u32, payload: Seq<u8>, server_exited: bool)
    requires
        run.stage is Listening,
    ensures
        ({
            let received = run.next(
                Outcome::Received { event: Ok((id, payload)), server_exited },
            );
            let received_final = run.next(Outcome::ReceivedFinal(Ok((id, payload))));
            match cbor::cbor_decoded(payload) {
                Some(tree) => received == run.on_event(id, tree) && received_final
                    == run.on_final_event(id, tree),
                None => {
                    &&& received == received_final
                    &&& received == (
                        (TestRun { stage: Stage::Stopped, ..run }),
                        ActionModel::Fail(Failure::Undecodable),
                    )
                },
            }
        }),
{
}

/// On the event of a test case the run connects to the stream whose id stands in the event,
/// and keeps the event's own id; all else stays as it is. So it is with final test cases too.
pub proof fn law_case_is_connected(run: RunModel, id: u32, event: Tree, n: int)
    requires
        event.get("event"@) == Some(Tree::Text("test_case"@)),
        event.get("stream_id"@) == Some(Tree::Integer(n)),
        0 <= n <= u64::MAX,
    ensures
        run.on_final_event(id, event) == run.on_event(id, event),
        run.on_event(id, event).0 == (TestRun { stage: Stage::Connecting { event_id: id }, ..run }),
        run.on_event(id, event).1 matches Action::Connect(stream_id) && (n <= u32::MAX ==> stream_id
            == n) && (n - stream_id) % 0x1_0000_0000 == 0,
{
    event::law_case_names_its_stream(event, n);
}

/// The end of the search is answered at once, under the id of its event and with `true`; its
/// results are kept until the answer is out. In place of a final test case it is refused.
pub proof fn law_done_is_answered(run: RunModel, id: u32, event: Tree)
    requires
        event.get("event"@) == Some(Tree::Text("test_done"@)),
    ensures
        run.on_event(id, event).0 == (TestRun {
            stage: Stage::Closing {
                results: match event.get("results"@) {
                    Some(results) => results,
                    None => Tree::Null,
                },
            },
            ..run
        }),
        run.on_event(id, event).1 == (ActionModel::Reply {
            event_id: id,
            payload: cbor::cbor_encoded(
                Tree::Mapping(seq![(Tree::Text("result"@), Tree::Bool(true))]),
            ),
        }),
        run.on_final_event(id, event) == (
            (TestRun { stage: Stage::Stopped, ..run }),
            ActionModel::Fail(Failure::UnexpectedFinal(Some("test_done"@))),
        ),
{
    event::law_done_carries_its_results(event);
}

/// Any other event breaks the run off, under the name that it has, and so does a test case
/// whose stream is missing.
pub proof fn law_other_events_break_off(run: RunModel, id: u32, event: Tree)
    requires
        event.get("event"@) != Some(Tree::Text("test_done"@)),
        event.get("event"@) == Some(Tree::Text("test_case"@)) ==> {
            event.get("stream_id"@) matches Some(Tree::Integer(n)) ==> !(0 <= n <= u64::MAX)
        },
    ensures
        run.on_event(id, event).0 == (TestRun { stage: Stage::Stopped, ..run }),
        run.on_final_event(id, event).0 == (TestRun { stage: Stage::Stopped, ..run }),
        match event.get("event"@) {
            Some(Tree::Text(name)) => if name == "test_case"@ {
                &&& run.on_event(id, event).1 == ActionModel::Fail(Failure::NoStreamId)
                &&& run.on_final_event(id, event).1 == ActionModel::Fail(Failure::NoStreamId)
            } else {
                &&& run.on_event(id, event).1 == ActionModel::Fail(Failure::UnknownEvent(name))
                &&& run.on_final_event(id, event).1 == ActionModel::Fail(
                    Failure::UnexpectedFinal(Some(name)),
                )
            },
            _ => {
                &&& run.on_event(id, event).1 == ActionModel::Fail(Failure::NoEventType)
                &&& run.on_final_event(id, event).1 == ActionModel::Fail(
                    Failure::UnexpectedFinal(None),
                )
            },
        },
{
    if event.get("event"@) == Some(Tree::Text("test_case"@)) {
        event::law_case_without_stream(event);
    } else {
        event::law_other_events_refused(event);
    }
}

/// Once the stream of a test case is connected, the event that announced it is answered with
/// nothing, under its own id; all else stays as it is.
pub proof fn law_connected_case_is_answered(run: RunModel, id: u32)
    requires
        run.stage == (Stage::<Tree>::Connecting { event_id: id }),
    ensures
        run.next(Outcome::Connected) == (
            (TestRun { stage: Stage::Acking, ..run }),
            (ActionModel::Reply {
                event_id: id,
                payload: cbor::cbor_encoded(
                    Tree::Mapping(seq![(Tree::Text("result"@), Tree::Null)]),
                ),
            }),
        ),
{
}

/// A test case whose event was answered runs, as a final one if and only if it is the only
/// one or the search is over. An answer that did not go out breaks the run off.
pub proof fn law_answered_case_runs(run: RunModel, replied: Result<(), Seq<char>>)
    requires
        run.stage is Acking,
    ensures
        match replied {
            Ok(_) => {
                &&& run.next(Outcome::Replied(replied)).0 == (TestRun {
                    stage: Stage::Running,
                    ..run
                })
                &&& run.next(Outcome::Replied(replied)).1 matches Action::RunCase { is_final } && (
                is_final <==> run.mode is SingleTestCase || run.left is Some)
            },
            Err(error) => {
                &&& run.next(Outcome::Replied(replied)).0 == (TestRun {
                    stage: Stage::Stopped,
                    ..run
                })
                &&& run.left is None ==> run.next(Outcome::Replied(replied)).1
                    == ActionModel::Fail(Failure::CaseNotAcked(error))
                &&& run.left is Some ==> run.next(Outcome::Replied(replied)).1
                    == ActionModel::Fail(Failure::FinalNotAcked(error))
            },
        },
{
}

/// A test case of a search leaves no trace: whatever came of it, the run listens for the next
/// event and knows what it knew before.
pub proof fn law_searched_case_leaves_no_trace(run: RunModel, result: CaseModel)
    requires
        run.stage is Running,
        run.mode is TestRun,
        run.left is None,
    ensures
        run.next(Outcome::CaseRun(result)) == (
            (TestRun { stage: Stage::Listening, ..run }),
            ActionModel::Receive,
        ),
{
}

/// A test case that counts is told if it failed, with its own message in place of any before
/// it, and else changes nothing. It fails a run of one test case, but not a search, of which
/// the server has said whether it passed. No test case breaks a run off: that of a single run
/// is followed by the next event, and a final one by a look whether the server is there.
pub proof fn law_counted_case(run: RunModel, result: CaseModel)
    requires
        run.stage is Running,
        run.mode is SingleTestCase || run.left is Some,
        run.well_formed(),
    ensures
        ({
            let (next, action) = run.next(Outcome::CaseRun(result));
            &&& next.mode == run.mode
            &&& next.left == run.left
            &&& result matches TestCaseResult::Interesting { panic_message }
                ==> next.failure_message == Some(panic_message)
            &&& !(result is Interesting) ==> next.failure_message == run.failure_message
            &&& run.mode is SingleTestCase ==> (next.passed <==> run.passed && !(
            result is Interesting))
            &&& run.mode is TestRun ==> next.passed == run.passed
            &&& run.mode is SingleTestCase ==> action is Receive && next.stage is Listening
            &&& run.mode is TestRun ==> action is CheckServer && next.stage is Checking
        }),
{
}

/// After a final test case the run breaks off where the server is gone. Else one test case
/// fewer is left: the next is waited for, and after the last one the run is over, with what
/// it knows.
pub proof fn law_final_cases_are_counted_down(run: RunModel, exited: bool)
    requires
        run.stage is Checking,
        run.well_formed(),
    ensures
        ({
            let (next, action) = run.next(Outcome::ServerChecked { exited });
            &&& next.mode == run.mode
            &&& next.passed == run.passed
            &&& next.failure_message == run.failure_message
            &&& exited ==> action == ActionModel::Fail(Failure::ServerCrashed) && next.left
                == run.left && next.stage is Stopped
            &&& !exited ==> next.left is Some && next.left->0 + 1 == run.left->0
            &&& !exited && run.left->0 > 1 ==> action is ReceiveFinal && next.stage is Listening
            &&& !exited && run.left->0 == 1 ==> next.stage is Stopped && action
                == ActionModel::Finish(
                TestRunResult { passed: run.passed, failure_message: run.failure_message },
            )
        }),
{
}

/// Results with a report break the run off with it. Else the run takes over whether the
/// search passed: it did unless the boolean under `passed` says that it did not. Where the
/// results count failures, these are waited for, and else the run is over.
pub proof fn law_results_decide(run: RunModel, results: Tree)
    ensures
        ({
            let (next, action) = run.on_results(results);
            let reported = results.get("error"@) is Some && results.get("error"@)->0 is Text
                || results.get("health_check_failure"@) is Some && results.get(
                "health_check_failure"@,
            )->0 is Text || results.get("flaky"@) is Some && results.get("flaky"@)->0 is Text;
            let count: int = match results.get("interesting_test_cases"@) {
                Some(Tree::Integer(n)) => if 0 <= n <= u64::MAX {
                    n
                } else {
                    0
                },
                _ => 0,
            };
            &&& next.mode == run.mode
            &&& next.failure_message == run.failure_message
            &&& action is Fail <==> reported
            &&& reported ==> next == (TestRun { stage: Stage::Stopped, ..run })
            &&& action matches Action::Fail(failure) ==> match failure {
                Failure::ServerError(report) => results.get("error"@) == Some(Tree::Text(report)),
                Failure::HealthCheckFailure(report) => results.get("health_check_failure"@) == Some(
                    Tree::Text(report),
                ) && !(results.get("error"@) matches Some(Tree::Text(_))),
                Failure::Flaky(report) => results.get("flaky"@) == Some(Tree::Text(report)) && !(
                results.get("error"@) matches Some(Tree::Text(_))) && !(results.get(
                    "health_check_failure"@,
                ) matches Some(Tree::Text(_))),
                _ => false,
            }
            &&& !reported ==> {
                &&& next.left matches Some(left) && left == count
                &&& !next.passed <==> results.get("passed"@) == Some(Tree::Bool(false))
                &&& count > 0 ==> action is ReceiveFinal && next.stage is Listening
                &&& count == 0 ==> next.stage is Stopped && action is Finish
                &&& action matches Action::Finish(result) ==> {
                    &&& result.failure_message == run.failure_message
                    &&& !result.passed <==> results.get("passed"@) == Some(Tree::Bool(false))
                }
            }
        }),
{
    event::law_reports_come_first(results);
}

/// The results of a search count once the end of the search has been answered. A run of one
/// test case is then over, with what it knows, whatever the results say.
pub proof fn law_end_is_answered_first(
    run: RunModel,
    results: Tree,
    replied: Result<(), Seq<char>>,
)
    requires
        run.stage == (Stage::Closing { results }),
    ensures
        match replied {
            Err(error) => run.next(Outcome::Replied(replied)) == (
                (TestRun { stage: Stage::Stopped, ..run }),
                ActionModel::Fail(Failure::DoneNotAcked(error)),
            ),
            Ok(_) => if run.mode is TestRun {
                run.next(Outcome::Replied(replied)) == run.on_results(results)
            } else {
                run.next(Outcome::Replied(replied)) == (
                    (TestRun { stage: Stage::Stopped, ..run }),
                    ActionModel::Finish(
                        TestRunResult { passed: run.passed, failure_message: run.failure_message },
                    ),
                )
            },
        },
{
}

/// What comes and what goes out is modelled as it is: every id, flag, text and run of bytes
/// in a model is the one in what it models.
pub proof fn law_models_are_faithful(action: Action, outcome: Outcome, result: TestCaseResult)
    ensures
        match action {
            Action::Send(request) => action@ == ActionModel::Send(request@),
            Action::Receive => action@ is Receive,
            Action::ReceiveFinal => action@ is ReceiveFinal,
            Action::Connect(stream_id) => action@ == ActionModel::Connect(stream_id),
            Action::Reply { event_id, payload } => action@ == (ActionModel::Reply {
                event_id,
                payload: payload@,
            }),
            Action::RunCase { is_final } => action@ == (ActionModel::RunCase { is_final }),
            Action::CheckServer => action@ is CheckServer,
            Action::Finish(result) => action@ matches Action::Finish(model) && model.passed
                == result.passed && match result.failure_message {
                Some(message) => model.failure_message == Some(message@),
                None => model.failure_message is None,
            },
            Action::Fail(failure) => action@ == ActionModel::Fail(failure@),
        },
        match outcome {
            Outcome::Sent(Ok(reply)) => outcome@ == OutcomeModel::Sent(Ok(reply@)),
            Outcome::Sent(Err(error)) => outcome@ == OutcomeModel::Sent(Err(error@)),
            Outcome::Received { event: Ok((id, payload)), server_exited } => outcome@ == (
            OutcomeModel::Received { event: Ok((id, payload@)), server_exited }),
            Outcome::Received { event: Err(error), server_exited } => outcome@ == (
            OutcomeModel::Received { event: Err(error@), server_exited }),
            Outcome::ReceivedFinal(Ok((id, payload))) => outcome@ == OutcomeModel::ReceivedFinal(
                Ok((id, payload@)),
            ),
            Outcome::ReceivedFinal(Err(error)) => outcome@ == OutcomeModel::ReceivedFinal(
                Err(error@),
            ),
            Outcome::Connected => outcome@ is Connected,
            Outcome::Replied(Ok(_)) => outcome@ matches Outcome::Replied(Ok(_)),
            Outcome::Replied(Err(error)) => outcome@ == OutcomeModel::Replied(Err(error@)),
            Outcome::CaseRun(result) => outcome@ == OutcomeModel::CaseRun(result@),
            Outcome::ServerChecked { exited } => outcome@ == (OutcomeModel::ServerChecked {
                exited,
            }),
        },
        match result {
            TestCaseResult::Valid => result@ is Valid,
            TestCaseResult::Invalid => result@ is Invalid,
            TestCaseResult::Overrun => result@ is Overrun,
            TestCaseResult::Interesting { panic_message } => result@ == (
            CaseModel::Interesting { panic_message: panic_message@ }),
        },
{
}

/// Where a run stands is modelled as it is.
pub proof fn law_run_model_is_faithful(run: TestRun, event: Result<(u32, Vec<u8>), String>)
    ensures
        run@.mode == run.mode,
        run@.left == run.left,
        run@.passed == run.passed,
        match run.failure_message {
            Some(message) => run@.failure_message == Some(message@),
            None => run@.failure_message is None,
        },
        match run.stage {
            Stage::Opening => run@.stage is Opening,
            Stage::Listening => run@.stage is Listening,
            Stage::Connecting { event_id } => run@.stage == (Stage::<Tree>::Connecting {
                event_id,
            }),
            Stage::Acking => run@.stage is Acking,
            Stage::Running => run@.stage is Running,
            Stage::Checking => run@.stage is Checking,
            Stage::Closing { results } => run@.stage == (Stage::Closing { results: results@ }),
            Stage::Stopped => run@.stage is Stopped,
        },
        match event {
            Ok((id, payload)) => received(event) == Ok::<(u32, Seq<u8>), Seq<char>>((id, payload@)),
            Err(error) => received(event) == Err::<(u32, Seq<u8>), Seq<char>>(error@),
        },
{
}

} // verus!
