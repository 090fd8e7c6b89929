//! The life of a session and of the server process behind it.

use vstd::prelude::*;

verus! {

/// The version of the server that a session starts.
pub const HEGEL_SERVER_VERSION: &'static str = "0.8.1";

/// The name of the variable that keeps the server from holding its output back, and its
/// value.
pub const UNBUFFERED_VARIABLE: &'static str = "PYTHONUNBUFFERED";

pub const UNBUFFERED_VALUE: &'static str = "1";

/// How long the monitor of a server process rests between two looks, in milliseconds.
pub const MONITOR_PAUSE: u64 = 10;

/// The arguments that the server is started with.
pub fn server_arguments() -> (res: Vec<&'static str>)
    ensures
        res@ == seq!["--verbosity", "normal"],
{
    vec!["--verbosity", "normal"]
}

/// Where the session of a call comes from.
#[derive(Debug, Clone, Copy, PartialEq, Eq, Structural)]
pub enum SessionSource {
    /// It is the one that there is.
    Current,
    /// It is a new one, which becomes the current one.
    Fresh,
}

/// Where a session comes from: it is the current one where there is one and its server
/// has not exited, and else a fresh one. `current` says whether there is a session, and
/// of that whether its server has exited.
pub open spec fn source_of(current: Option<bool>) -> SessionSource {
    if current == Some(false) {
        SessionSource::Current
    } else {
        SessionSource::Fresh
    }
}

/// Decides where a session comes from. `current` says whether there is a session, and
/// of that whether its server has exited.
pub fn session_source(current: Option<bool>) -> (res: SessionSource)
    ensures
        res == source_of(current),
        res == SessionSource::Current <==> current == Some(false),
{
    match current {
        Some(exited) => {
            if exited {
                SessionSource::Fresh
            } else {
                SessionSource::Current
            }
        },
        None => SessionSource::Fresh,
    }
}

/// The place of the current session.
pub struct SessionSlot<S> {
    pub current: Option<S>,
}

/// The session that `current` holds, where it is handed out once more. `exited` says
/// whether its server has exited.
pub open spec fn kept<S>(current: Option<S>, exited: bool) -> Option<S> {
    let look = if current is Some {
        Some(exited)
    } else {
        None
    };
    match source_of(look) {
        SessionSource::Current => current,
        SessionSource::Fresh => None,
    }
}

impl<S> SessionSlot<S> {
    /// The session to hand out, or `None` where a fresh one has to be made. `exited` says
    /// whether the server of the current session has exited; where there is no session it
    /// does not count.
    pub fn get(&self, exited: bool) -> (res: Option<&S>)
        ensures
            kept(self.current, exited) == match res {
                Some(session) => Some(*session),
                None => None,
            },
    {
        match &self.current {
            Some(session) => match session_source(Some(exited)) {
                SessionSource::Current => Some(session),
                SessionSource::Fresh => None,
            },
            None => None,
        }
    }

    /// Makes the fresh session `session` the current one.
    pub fn renew(&mut self, session: S)
        ensures
            final(self).current == Some(session),
    {
        self.current = Some(session);
    }
}

/// A call for a session.
pub struct SessionCall<S> {
    /// Whether the server of the current session has exited when the call comes.
    pub exited: bool,
    /// The session that is made, if one is made.
    pub fresh: S,
}

/// The session that a call gets where the slot holds `current`.
pub open spec fn served<S>(current: Option<S>, call: SessionCall<S>) -> S {
    match kept(current, call.exited) {
        Some(session) => session,
        None => call.fresh,
    }
}

/// What the slot holds after `calls`: nothing before the first, and then the session that
/// the last one got.
pub open spec fn held<S>(calls: Seq<SessionCall<S>>) -> Option<S>
    decreases calls.len(),
{
    if calls.len() == 0 {
        None
    } else {
        Some(served(held(calls.drop_last()), calls.last()))
    }
}

/// A call gets a fresh session if and only if it is the first one or the server of the
/// session that the call before it got has exited; else it gets that same session.
pub proof fn law_session_fresh<S>(calls: Seq<SessionCall<S>>, j: int)
    requires
        0 <= j < calls.len(),
    ensures
        kept(held(calls.take(j)), calls[j].exited) is None <==> j == 0 || calls[j].exited,
        held(calls.take(j + 1)) == if j == 0 || calls[j].exited {
            Some(calls[j].fresh)
        } else {
            held(calls.take(j))
        },
        held(calls.take(j + 1)) is Some,
{
    assert(calls.take(j + 1).drop_last() =~= calls.take(j));
    assert(calls.take(j + 1).last() == calls[j]);
}

/// Calls get one and the same session as long as its server has not exited.
pub proof fn law_session_kept<S>(calls: Seq<SessionCall<S>>, i: int, j: int)
    requires
        0 <= i <= j < calls.len(),
        forall|k: int| i < k <= j ==> !(#[trigger] calls[k]).exited,
    ensures
        held(calls.take(i + 1)) is Some,
        held(calls.take(j + 1)) == held(calls.take(i + 1)),
    decreases j,
{
    law_session_fresh(calls, j);
    if i < j {
        law_session_kept(calls, i, j - 1);
    }
}

/// What a look at the server process shows.
#[derive(Debug, Clone, Copy, PartialEq, Eq, Structural)]
pub enum ProcessState {
    Running,
    Exited,
    /// The look failed.
    Unknown,
}

/// What the monitor of a server process does after a look.
#[derive(Debug, Clone, Copy, PartialEq, Eq, Structural)]
pub enum MonitorAction {
    /// Make it known that the server has exited, and end.
    MarkExited,
    /// Rest for so many milliseconds, and look again.
    Rest { millis: u64 },
}

/// What a monitor that goes on does after a look.
pub open spec fn monitor_action(state: ProcessState) -> MonitorAction {
    if state == ProcessState::Exited {
        MonitorAction::MarkExited
    } else {
        MonitorAction::Rest { millis: MONITOR_PAUSE }
    }
}

/// Decides what the monitor of a server process does.
pub fn monitor_step(state: ProcessState) -> (res: MonitorAction)
    ensures
        res == monitor_action(state),
{
    match state {
        ProcessState::Exited => MonitorAction::MarkExited,
        _ => MonitorAction::Rest { millis: MONITOR_PAUSE },
    }
}

/// The monitor of a server process.
#[derive(Debug)]
pub struct Monitor {
    /// Whether it has made it known that the server has exited. It has then ended.
    pub ended: bool,
}

/// What a monitor does after a look, and whether it has then ended. One that had ended
/// before does nothing.
pub open spec fn after_look(ended: bool, state: ProcessState) -> (Option<MonitorAction>, bool) {
    if ended {
        (None, true)
    } else {
        (Some(monitor_action(state)), monitor_action(state) is MarkExited)
    }
}

impl Monitor {
    /// A monitor that has not looked yet.
    pub fn new() -> (res: Monitor)
        ensures
            !res.ended,
    {
        Monitor { ended: false }
    }

    /// Takes a look, and says what to do.
    pub fn look(&mut self, state: ProcessState) -> (res: Option<MonitorAction>)
        ensures
            (res, final(self).ended) == after_look(old(self).ended, state),
    {
        if self.ended {
            return None;
        }
        let action = monitor_step(state);
        self.ended = action == MonitorAction::MarkExited;
        Some(action)
    }
}

/// Whether a new monitor has ended after `looks`.
pub open spec fn has_ended(looks: Seq<ProcessState>) -> bool
    decreases looks.len(),
{
    looks.len() > 0 && after_look(has_ended(looks.drop_last()), looks.last()).1
}

/// What a new monitor does after look `i` of `looks`.
pub open spec fn action_at(looks: Seq<ProcessState>, i: int) -> Option<MonitorAction> {
    after_look(has_ended(looks.take(i)), looks[i]).0
}

/// Whether look `i` is the first of `looks` that shows an exit.
pub open spec fn first_exit(looks: Seq<ProcessState>, i: int) -> bool {
    &&& 0 <= i < looks.len()
    &&& looks[i] == ProcessState::Exited
    &&& forall|j: int| 0 <= j < i ==> looks[j] != ProcessState::Exited
}

proof fn lemma_ended_by_exit(looks: Seq<ProcessState>)
    ensures
        has_ended(looks) <==> looks.contains(ProcessState::Exited),
    decreases looks.len(),
{
    if looks.len() > 0 {
        let before = looks.drop_last();
        lemma_ended_by_exit(before);
        if before.contains(ProcessState::Exited) {
            let j = choose|j: int| 0 <= j < before.len() && before[j] == ProcessState::Exited;
            assert(looks[j] == ProcessState::Exited);
        }
        if looks.contains(ProcessState::Exited) && looks.last() != ProcessState::Exited {
            let j = choose|j: int| 0 <= j < looks.len() && looks[j] == ProcessState::Exited;
            assert(before[j] == ProcessState::Exited);
        }
        assert(looks.last() == looks[looks.len() - 1]);
    }
}

/// However often a monitor looks, it makes the exit of the server known at the first look
/// that shows it and at no other: before, it rests, also where a look fails, and after, it
/// does nothing.
pub proof fn law_marked_once(looks: Seq<ProcessState>, i: int)
    requires
        0 <= i < looks.len(),
    ensures
        action_at(looks, i) == Some(MonitorAction::MarkExited) <==> first_exit(looks, i),
        action_at(looks, i) == Some(MonitorAction::Rest { millis: MONITOR_PAUSE }) <==> (forall|
            j: int,
        |
            0 <= j <= i ==> looks[j] != ProcessState::Exited),
        action_at(looks, i) is None <==> (exists|j: int|
            0 <= j < i && looks[j] == ProcessState::Exited),
{
    let before = looks.take(i);
    lemma_ended_by_exit(before);
    assert(forall|j: int| 0 <= j < i ==> before[j] == looks[j]);
    if before.contains(ProcessState::Exited) {
        let j = choose|j: int| 0 <= j < before.len() && before[j] == ProcessState::Exited;
        assert(looks[j] == ProcessState::Exited);
    }
}

/// The exit of a server is made known where a look shows it, and then once.
pub proof fn law_mark_comes(looks: Seq<ProcessState>)
    requires
        looks.contains(ProcessState::Exited),
    ensures
        exists|i: int|
            0 <= i < looks.len() && #[trigger] action_at(looks, i) == Some(
                MonitorAction::MarkExited,
            ),
        forall|i: int, j: int|
            #![trigger action_at(looks, i), action_at(looks, j)]
            0 <= i < looks.len() && 0 <= j < looks.len() && action_at(looks, i) == Some(
                MonitorAction::MarkExited,
            ) && action_at(looks, j) == Some(MonitorAction::MarkExited) ==> i == j,
{
    let k = choose|k: int| 0 <= k < looks.len() && looks[k] == ProcessState::Exited;
    lemma_first_exit(looks, k);
    law_marked_once(looks, choose|i: int| first_exit(looks, i));
    assert forall|i: int, j: int|
        #![trigger action_at(looks, i), action_at(looks, j)]
        0 <= i < looks.len() && 0 <= j < looks.len() && action_at(looks, i) == Some(
            MonitorAction::MarkExited,
        ) && action_at(looks, j) == Some(MonitorAction::MarkExited) implies i == j by {
        law_marked_once(looks, i);
        law_marked_once(looks, j);
    }
}

proof fn lemma_first_exit(looks: Seq<ProcessState>, k: int)
    requires
        0 <= k < looks.len(),
        looks[k] == ProcessState::Exited,
    ensures
        exists|i: int| #[trigger] first_exit(looks, i),
    decreases k,
{
    if !first_exit(looks, k) {
        let j = choose|j: int| 0 <= j < k && looks[j] == ProcessState::Exited;
        lemma_first_exit(looks, j);
    }
}

/// A session is handed out once more exactly where there is one and its server has not
/// exited, and it is then that very session; in any other case a fresh one is made.
pub proof fn law_living_session_is_kept<S>(session: S, fresh: S, exited: bool)
    ensures
        source_of(Some(exited)) is Current <==> !exited,
        source_of(None) is Fresh,
        kept(Some(session), false) == Some(session),
        kept(Some(session), true) is None,
        kept(None::<S>, exited) is None,
        served(Some(session), SessionCall { exited, fresh }) == if exited {
            fresh
        } else {
            session
        },
        served(None, SessionCall { exited, fresh }) == fresh,
{
}

/// A look that does not show an exit, be it that it failed, is followed by a rest of ten
/// milliseconds and another look; one that shows an exit ends the monitor. One that has
/// ended does nothing and stays ended.
pub proof fn law_monitor_goes_on_until_exit(state: ProcessState)
    ensures
        after_look(false, state) == if state is Exited {
            (Some(MonitorAction::MarkExited), true)
        } else {
            (Some(MonitorAction::Rest { millis: 10 }), false)
        },
        after_look(true, state) == (None::<MonitorAction>, true),
        monitor_action(state) is MarkExited <==> state is Exited,
        monitor_action(state) matches MonitorAction::Rest { millis } ==> millis == 10,
{
}

} // verus!
