use stund::cli::StundDaemonOptions;
use stund::daemon::monitor::{
    poll_notifying_child_died, AfterAwaitingChildEvent, AfterNotifyingChildDied,
    AwaitingChildEvent, ChildEvent, NoticeEvent,
};
use stund::daemon::state::{
    AfterStartup, FatalSignal, ServeAction, ServeEvent, Startup, StartupError, StartupEvent,
    StartupRequest, State, TunnelState, PRIVATE_UMASK,
};
use stund::protocol;

fn empty_state() -> State<u32> {
    State::new(StundDaemonOptions { foreground: true }, b"/tmp/sock".to_vec())
}

fn reported(state: &State<u32>, host: &str) -> Option<protocol::TunnelState> {
    let info = state.status();
    let found: Vec<protocol::TunnelState> = info
        .tunnels
        .iter()
        .filter(|t| t.host == host)
        .map(|t| t.state)
        .collect();
    assert!(found.len() <= 1);
    found.first().copied()
}

#[test]
fn a_new_daemon_has_no_tunnels() {
    let state = empty_state();
    assert!(state.status().tunnels.is_empty());
    assert_eq!(state.sock_path(), &b"/tmp/sock".to_vec());
    assert!(state.get(&"host".to_owned()).is_none());
}

#[test]
fn a_host_has_one_tunnel() {
    let mut state = empty_state();
    state.insert("a".to_owned(), TunnelState::Running { tx_kill: 1 });
    state.insert("b".to_owned(), TunnelState::Running { tx_kill: 2 });
    state.insert("a".to_owned(), TunnelState::Exited { status: Some(255) });
    assert_eq!(state.status().tunnels.len(), 2);
    assert_eq!(reported(&state, "a"), Some(protocol::TunnelState::Died));
    assert_eq!(reported(&state, "b"), Some(protocol::TunnelState::Open));
    match state.remove(&"a".to_owned()) {
        Some(TunnelState::Exited { status }) => assert_eq!(status, Some(255)),
        other => panic!("{:?}", other),
    }
    assert_eq!(reported(&state, "a"), None);
    assert_eq!(reported(&state, "b"), Some(protocol::TunnelState::Open));
    assert!(state.remove(&"a".to_owned()).is_none());
}

#[test]
fn tunnels_are_reported_as_open_closed_or_died() {
    assert_eq!(
        TunnelState::Running { tx_kill: 0 }.report(),
        protocol::TunnelState::Open
    );
    assert_eq!(
        TunnelState::<u32>::Exited { status: None }.report(),
        protocol::TunnelState::Closed
    );
    assert_eq!(
        TunnelState::<u32>::Exited { status: Some(0) }.report(),
        protocol::TunnelState::Died
    );
}

fn startup(foreground: bool) -> (Startup, StartupRequest) {
    Startup::begin_in(StundDaemonOptions { foreground }, b"/home/me".to_vec())
}

fn go_on(startup: Startup, event: StartupEvent) -> (Startup, StartupRequest) {
    match startup.next::<u32>(event) {
        AfterStartup::Ask(startup, request) => (startup, request),
        other => panic!("{:?}", other),
    }
}

fn failure(startup: Startup, event: StartupEvent) -> StartupError {
    match startup.next::<u32>(event) {
        AfterStartup::Failed(e) => e,
        other => panic!("{:?}", other),
    }
}

#[test]
fn a_daemon_starts_in_the_background() {
    let (s, request) = startup(false);
    assert_eq!(
        request,
        StartupRequest::Connect(b"/home/me/.ssh/stund.sock".to_vec())
    );
    let (s, request) = go_on(s, StartupEvent::NotConnected);
    assert_eq!(
        request,
        StartupRequest::RemoveSocket(b"/home/me/.ssh/stund.sock".to_vec())
    );
    let (s, request) = go_on(s, StartupEvent::Removed);
    assert_eq!(
        request,
        StartupRequest::OpenLog {
            umask: 0o177,
            file: Some(b"/home/me/.ssh/stund.log".to_vec())
        }
    );
    match s.next::<u32>(StartupEvent::LogOpened) {
        AfterStartup::Ready(state) => {
            assert_eq!(state.sock_path(), &b"/home/me/.ssh/stund.sock".to_vec());
            assert!(state.status().tunnels.is_empty());
        }
        other => panic!("{:?}", other),
    }
}

#[test]
fn a_daemon_in_the_foreground_has_no_log_file() {
    let (s, _) = startup(true);
    let (s, _) = go_on(s, StartupEvent::NotConnected);
    let (_, request) = go_on(s, StartupEvent::NotFound);
    assert_eq!(
        request,
        StartupRequest::OpenLog {
            umask: 0o177,
            file: None
        }
    );
}

#[test]
fn a_second_daemon_refuses_to_start() {
    let (s, _) = startup(false);
    let e = failure(s, StartupEvent::Connected);
    assert_eq!(e, StartupError::AlreadyRunning);
    assert_eq!(
        e.describe(),
        "refusing to start: another daemon is already running"
    );
}

#[test]
fn a_daemon_does_not_start_if_the_system_refuses() {
    let (s, _) = startup(false);
    let (s, _) = go_on(s, StartupEvent::NotConnected);
    let e = failure(s, StartupEvent::RemoveFailed("denied".to_owned()));
    assert_eq!(e, StartupError::System("denied".to_owned()));
    assert_eq!(e.describe(), "denied");

    let (s, _) = startup(false);
    let (s, _) = go_on(s, StartupEvent::NotConnected);
    let (s, _) = go_on(s, StartupEvent::NotFound);
    let e = failure(s, StartupEvent::LogFailed("full".to_owned()));
    assert_eq!(e, StartupError::System("full".to_owned()));
}

#[test]
fn no_home_no_daemon() {
    let e = StartupError::NoHome(protocol::NoHomeDirectory);
    assert_eq!(e.describe(), "unable to determine your home directory");
}

#[test]
fn a_stray_event_does_not_advance_the_start() {
    let (s, _) = startup(false);
    let (_, request) = go_on(s, StartupEvent::LogOpened);
    assert_eq!(
        request,
        StartupRequest::Connect(b"/home/me/.ssh/stund.sock".to_vec())
    );
}

#[test]
fn begin_asks_for_the_socket_of_the_current_user() {
    match Startup::begin(StundDaemonOptions { foreground: true }) {
        Ok((_, StartupRequest::Connect(path))) => assert!(path.ends_with(b"/.ssh/stund.sock")),
        Ok(other) => panic!("{:?}", other),
        Err(e) => assert_eq!(e, StartupError::NoHome(protocol::NoHomeDirectory)),
    }
}

#[test]
fn files_are_private() {
    for mode in [0o777u32, 0o666, 0o644, 0o600] {
        assert_eq!(mode & !PRIVATE_UMASK & 0o077, 0);
    }
    assert_eq!(0o666 & !PRIVATE_UMASK, 0o600);
}

#[test]
fn the_daemon_exits_when_told_to() {
    let state = empty_state();
    assert_eq!(
        state.serve(ServeEvent::Signal(FatalSignal::Term)),
        ServeAction::Exit
    );
    assert_eq!(
        state.serve(ServeEvent::SessionFinished { exit_on_close: true }),
        ServeAction::Exit
    );
    assert_eq!(
        state.serve(ServeEvent::SessionFinished { exit_on_close: false }),
        ServeAction::GoOn
    );
    assert_eq!(state.serve(ServeEvent::SessionFailed), ServeAction::GoOn);
    assert_eq!(
        state.serve(ServeEvent::ClientConnected),
        ServeAction::StartSession
    );
    assert_eq!(
        state.serve(ServeEvent::AcceptFailed),
        ServeAction::StopAccepting
    );
}

fn monitor() -> AwaitingChildEvent {
    AwaitingChildEvent {
        key: "a".to_owned(),
    }
}

#[test]
fn a_child_that_exits_has_died() {
    let mut state = empty_state();
    state.insert("a".to_owned(), TunnelState::Running { tx_kill: 1 });
    match monitor().poll_awaiting_child_event(&mut state, ChildEvent::ChildExited(1)) {
        AfterAwaitingChildEvent::NotifyingChildDied { kill, status } => {
            assert!(!kill);
            assert_eq!(status, Some(1));
        }
        other => panic!("{:?}", other),
    }
    assert_eq!(reported(&state, "a"), Some(protocol::TunnelState::Died));
}

#[test]
fn a_child_that_is_killed_on_order_is_closed() {
    let mut state = empty_state();
    state.insert("a".to_owned(), TunnelState::Running { tx_kill: 1 });
    match monitor().poll_awaiting_child_event(&mut state, ChildEvent::KillOrdered) {
        AfterAwaitingChildEvent::NotifyingChildDied { kill, status } => {
            assert!(kill);
            assert_eq!(status, None);
        }
        other => panic!("{:?}", other),
    }
    assert_eq!(reported(&state, "a"), Some(protocol::TunnelState::Closed));
}

#[test]
fn a_monitor_waits_for_news() {
    let mut state = empty_state();
    state.insert("a".to_owned(), TunnelState::Running { tx_kill: 1 });
    let m = match monitor().poll_awaiting_child_event(&mut state, ChildEvent::ChildPending) {
        AfterAwaitingChildEvent::CheckKill(m) => m,
        other => panic!("{:?}", other),
    };
    let m = match m.poll_awaiting_child_event(&mut state, ChildEvent::KillPending) {
        AfterAwaitingChildEvent::Wait(m) => m,
        other => panic!("{:?}", other),
    };
    assert_eq!(m.key, "a");
    assert!(matches!(
        m.poll_awaiting_child_event(&mut state, ChildEvent::ChildFailed),
        AfterAwaitingChildEvent::ChildError
    ));
    assert!(matches!(
        monitor().poll_awaiting_child_event(&mut state, ChildEvent::KillCanceled),
        AfterAwaitingChildEvent::ChildError
    ));
    assert_eq!(reported(&state, "a"), Some(protocol::TunnelState::Open));
}

#[test]
fn the_notice_of_a_death_gets_out() {
    assert_eq!(
        poll_notifying_child_died(NoticeEvent::Pending),
        AfterNotifyingChildDied::Wait
    );
    assert_eq!(
        poll_notifying_child_died(NoticeEvent::Sent),
        AfterNotifyingChildDied::ChildReaped
    );
    assert_eq!(
        poll_notifying_child_died(NoticeEvent::Failed),
        AfterNotifyingChildDied::ChildError
    );
}
