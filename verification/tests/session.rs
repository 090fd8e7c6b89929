use hegel_session::session::{
    monitor_step, server_arguments, session_source, Monitor, MonitorAction, ProcessState,
    SessionSlot, SessionSource, HEGEL_SERVER_VERSION,
};

#[test]
fn a_session_is_made_on_first_use() {
    assert_eq!(session_source(None), SessionSource::Fresh);
}

#[test]
fn a_live_session_is_kept() {
    assert_eq!(session_source(Some(false)), SessionSource::Current);
}

#[test]
fn a_session_is_made_when_the_server_has_exited() {
    assert_eq!(session_source(Some(true)), SessionSource::Fresh);
}

#[test]
fn the_monitor_looks_until_the_server_exits() {
    assert_eq!(monitor_step(ProcessState::Running), MonitorAction::Rest { millis: 10 });
    assert_eq!(monitor_step(ProcessState::Unknown), MonitorAction::Rest { millis: 10 });
    assert_eq!(monitor_step(ProcessState::Exited), MonitorAction::MarkExited);
}

#[test]
fn the_server_is_started_with_its_arguments() {
    assert_eq!(server_arguments(), vec!["--verbosity", "normal"]);
    assert_eq!(HEGEL_SERVER_VERSION, "0.8.1");
}

#[test]
fn one_session_serves_until_its_server_exits() {
    let mut slot: SessionSlot<u32> = SessionSlot { current: None };
    let mut served = vec![];
    for (fresh, exited) in [(1, true), (2, false), (3, false), (4, true), (5, false), (6, true)] {
        let session = match slot.get(exited) {
            Some(session) => *session,
            None => {
                slot.renew(fresh);
                fresh
            }
        };
        served.push(session);
        assert_eq!(slot.current, Some(session));
    }
    assert_eq!(served, vec![1, 1, 1, 4, 4, 6]);
}

#[test]
fn a_first_call_gets_a_fresh_session() {
    let slot: SessionSlot<u32> = SessionSlot { current: None };
    assert_eq!(slot.get(false), None);
    assert_eq!(slot.get(true), None);
}

#[test]
fn the_exit_of_a_server_is_marked_once() {
    let mut monitor = Monitor::new();
    let rest = Some(MonitorAction::Rest { millis: 10 });
    assert_eq!(monitor.look(ProcessState::Running), rest);
    assert_eq!(monitor.look(ProcessState::Unknown), rest);
    assert_eq!(monitor.look(ProcessState::Running), rest);
    assert!(!monitor.ended);
    assert_eq!(monitor.look(ProcessState::Exited), Some(MonitorAction::MarkExited));
    assert!(monitor.ended);
    assert_eq!(monitor.look(ProcessState::Exited), None);
    assert_eq!(monitor.look(ProcessState::Running), None);
}
