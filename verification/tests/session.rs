use stund::cli::StundDaemonOptions;
use stund::daemon::monitor::{AwaitingChildEvent, ChildEvent};
use stund::daemon::session::{
    abort_client, kill_sent, poll_aborting, poll_finalizing_txn, prepare_launch, ssh_launch_failed,
    ssh_launched, AfterAborting, AfterAwaitingCommand, AfterCommunicatingForOpen,
    AfterFinalizingTxn, AfterKill, ClientCommonState, CommunicatingForOpen, OpenEvent, OpenRequest,
    SessionError, SshLaunch,
};
use stund::daemon::state::{ServeEvent, State, TunnelState};
use stund::protocol::{
    ClientMessage, CloseParameters, OpenParameters, SendEvent, ServerMessage, TunnelInformation,
};
use stund::protocol;

const KEY: &str = "STUND:AAAAAAAAAAAAAAAAAAAAAAAAAAAAAAAAAAAAAAAAAAA=";

fn empty() -> State<u32> {
    State::new(StundDaemonOptions { foreground: true }, b"/tmp/sock".to_vec())
}

fn open(host: &str) -> Option<ClientMessage> {
    Some(ClientMessage::Open(OpenParameters {
        host: host.to_owned(),
    }))
}

fn close(host: &str) -> Option<ClientMessage> {
    Some(ClientMessage::Close(CloseParameters {
        host: host.to_owned(),
    }))
}

fn reply(after: AfterAwaitingCommand<u32>) -> ServerMessage {
    match after {
        AfterAwaitingCommand::FinalizingTxn(txn) => txn.reply,
        other => panic!("{:?}", other),
    }
}

fn launch() -> SshLaunch {
    prepare_launch(
        OpenParameters {
            host: "example.org".to_owned(),
        },
        &[0u8; 32],
    )
}

#[test]
fn ssh_is_told_to_print_the_key() {
    let launch = launch();
    assert_eq!(launch.host, "example.org");
    assert_eq!(launch.key, KEY);
    assert_eq!(launch.program, "ssh");
    assert_eq!(
        launch.args,
        vec![
            "-t".to_owned(),
            "example.org".to_owned(),
            format!("echo \"{}\" && exec tail -f /dev/null", KEY),
        ]
    );
    assert_eq!(launch.env_remove, "DISPLAY");
}

#[test]
fn opening_a_tunnel_launches_ssh() {
    let mut common = ClientCommonState::new();
    let mut state = empty();
    match common.poll_awaiting_command(&mut state, open("example.org")) {
        AfterAwaitingCommand::LaunchSsh(launch) => {
            assert_eq!(launch.host, "example.org");
            assert_eq!(launch.key.len(), 50);
            assert_eq!(
                launch.args[2],
                format!("echo \"{}\" && exec tail -f /dev/null", launch.key)
            );
        }
        other => panic!("{:?}", other),
    }
    assert!(state.status().tunnels.is_empty());
}

#[test]
fn opening_an_open_tunnel_does_nothing() {
    let mut common = ClientCommonState::new();
    let mut state = empty();
    state.insert("a".to_owned(), TunnelState::Running { tx_kill: 7 });
    let after = common.poll_awaiting_command(&mut state, open("a"));
    assert_eq!(reply(after), ServerMessage::TunnelAlreadyOpen);
    assert!(matches!(
        common.poll_awaiting_command(&mut state, open("b")),
        AfterAwaitingCommand::LaunchSsh(_)
    ));
}

#[test]
fn a_dead_tunnel_can_be_opened_again() {
    let mut common = ClientCommonState::new();
    let mut state = empty();
    state.insert("a".to_owned(), TunnelState::Exited { status: Some(1) });
    assert!(matches!(
        common.poll_awaiting_command(&mut state, open("a")),
        AfterAwaitingCommand::LaunchSsh(_)
    ));
}

#[test]
fn closing_an_open_tunnel_kills_its_process() {
    let mut common = ClientCommonState::new();
    let mut state = empty();
    state.insert("a".to_owned(), TunnelState::Running { tx_kill: 7 });
    state.insert("b".to_owned(), TunnelState::Running { tx_kill: 8 });
    match common.poll_awaiting_command(&mut state, close("a")) {
        AfterAwaitingCommand::SendKill(k) => assert_eq!(k, 7),
        other => panic!("{:?}", other),
    }
    match kill_sent(true) {
        AfterKill::FinalizingTxn(txn) => assert_eq!(txn.reply, ServerMessage::Okay),
        other => panic!("{:?}", other),
    }
    assert!(matches!(
        state.get(&"b".to_owned()),
        Some(TunnelState::Running { tx_kill: 8 })
    ));
}

#[test]
fn a_kill_order_that_nobody_takes_aborts_the_session() {
    match kill_sent(false) {
        AfterKill::Aborting(abort) => assert_eq!(
            abort.reply,
            ServerMessage::Error("failed to send internal kill signal (?)".to_owned())
        ),
        other => panic!("{:?}", other),
    }
}

#[test]
fn closing_what_is_not_open_says_so() {
    let mut common = ClientCommonState::new();
    let mut state = empty();
    state.insert("dead".to_owned(), TunnelState::Exited { status: Some(1) });
    let after = common.poll_awaiting_command(&mut state, close("dead"));
    assert_eq!(reply(after), ServerMessage::TunnelNotOpen);
    let after = common.poll_awaiting_command(&mut state, close("unknown"));
    assert_eq!(reply(after), ServerMessage::TunnelNotOpen);
}

#[test]
fn the_status_lists_closed_and_dead_tunnels() {
    let mut common = ClientCommonState::new();
    let mut state = empty();
    state.insert("a".to_owned(), TunnelState::Running { tx_kill: 7 });
    state.insert("b".to_owned(), TunnelState::Running { tx_kill: 8 });
    state.insert("c".to_owned(), TunnelState::Exited { status: Some(1) });
    common.poll_awaiting_command(&mut state, close("a"));
    common.poll_awaiting_command(&mut state, close("c"));
    let expected = |a: protocol::TunnelState| {
        vec![
            TunnelInformation {
                host: "a".to_owned(),
                state: a,
            },
            TunnelInformation {
                host: "b".to_owned(),
                state: protocol::TunnelState::Open,
            },
            TunnelInformation {
                host: "c".to_owned(),
                state: protocol::TunnelState::Died,
            },
        ]
    };
    let sorted = |state: &mut State<u32>, common: &mut ClientCommonState| {
        match reply(common.poll_awaiting_command(state, Some(ClientMessage::QueryStatus))) {
            ServerMessage::StatusResponse(mut info) => {
                info.tunnels.sort_by(|x, y| x.host.cmp(&y.host));
                info.tunnels
            }
            other => panic!("{:?}", other),
        }
    };
    assert_eq!(
        sorted(&mut state, &mut common),
        expected(protocol::TunnelState::Closed)
    );
    let monitor = AwaitingChildEvent {
        key: "a".to_owned(),
    };
    monitor.poll_awaiting_child_event(&mut state, ChildEvent::KillOrdered);
    assert_eq!(
        sorted(&mut state, &mut common),
        expected(protocol::TunnelState::Closed)
    );
}

#[test]
fn the_daemon_exits_only_if_asked() {
    let mut state = empty();
    let mut common = ClientCommonState::new();
    common.poll_awaiting_command(&mut state, Some(ClientMessage::QueryStatus));
    assert_eq!(
        common.finished(),
        ServeEvent::SessionFinished { exit_on_close: false }
    );
    let after = common.poll_awaiting_command(&mut state, Some(ClientMessage::Exit));
    assert_eq!(reply(after), ServerMessage::Okay);
    common.poll_awaiting_command(&mut state, Some(ClientMessage::QueryStatus));
    assert_eq!(
        common.finished(),
        ServeEvent::SessionFinished { exit_on_close: true }
    );
}

#[test]
fn a_session_ends_with_goodbye_or_hangup() {
    let mut state = empty();
    let mut common = ClientCommonState::new();
    assert!(matches!(
        common.poll_awaiting_command(&mut state, Some(ClientMessage::Goodbye)),
        AfterAwaitingCommand::Finished
    ));
    assert!(matches!(
        common.poll_awaiting_command(&mut state, None),
        AfterAwaitingCommand::Finished
    ));
}

#[test]
fn user_data_is_no_command() {
    let mut state = empty();
    let mut common = ClientCommonState::new();
    match common.poll_awaiting_command(&mut state, Some(ClientMessage::UserData(vec![1]))) {
        AfterAwaitingCommand::Failed(e) => {
            assert_eq!(
                e,
                SessionError::UnexpectedCommand(ClientMessage::UserData(vec![1]))
            );
            assert_eq!(e.describe(), "unexpected message from client: UserData([1])");
        }
        other => panic!("{:?}", other),
    }
}

#[test]
fn a_failed_launch_is_reported() {
    assert_eq!(
        ssh_launch_failed("failed to create PTY").reply,
        ServerMessage::Error("failed to launch SSH: failed to create PTY".to_owned())
    );
    assert_eq!(
        abort_client("why".to_owned()).reply,
        ServerMessage::Error("why".to_owned())
    );
}

#[test]
fn replies_are_sent_before_anything_else() {
    assert!(matches!(
        poll_finalizing_txn(SendEvent::Pending),
        AfterFinalizingTxn::Wait
    ));
    assert!(matches!(
        poll_finalizing_txn(SendEvent::Sent),
        AfterFinalizingTxn::AwaitingCommand
    ));
    assert!(matches!(
        poll_finalizing_txn(SendEvent::Failed("x".to_owned())),
        AfterFinalizingTxn::Failed(SessionError::Transport(_))
    ));
    assert!(matches!(
        poll_aborting(SendEvent::Pending),
        AfterAborting::Wait
    ));
    assert!(matches!(
        poll_aborting(SendEvent::Failed("x".to_owned())),
        AfterAborting::Failed(SessionError::Transport(_))
    ));
    match poll_aborting(SendEvent::Sent) {
        AfterAborting::Failed(e) => {
            assert_eq!(e, SessionError::ClientNotified);
            assert_eq!(
                e.describe(),
                "ending connection now that client has been notified"
            );
        }
        other => panic!("{:?}", other),
    }
}

fn dialogue() -> CommunicatingForOpen {
    let mut state = empty();
    let (session, first) = ssh_launched(&mut state, launch(), 3);
    assert_eq!(first, ServerMessage::Okay);
    assert!(matches!(
        state.get(&"example.org".to_owned()),
        Some(TunnelState::Running { tx_kill: 3 })
    ));
    session
}

fn step(session: CommunicatingForOpen, event: OpenEvent) -> (CommunicatingForOpen, OpenRequest) {
    match session.poll_communicating_for_open(event) {
        AfterCommunicatingForOpen::Ask(session, request) => (session, request),
        other => panic!("{:?}", other),
    }
}

fn reading_ssh() -> CommunicatingForOpen {
    let (s, _) = step(dialogue(), OpenEvent::Wake);
    let (s, request) = step(s, OpenEvent::NotReady);
    assert_eq!(request, OpenRequest::PollSsh);
    s
}

#[test]
fn a_login_dialogue_from_start_to_end() {
    let s = dialogue();
    assert_eq!(s.request(), OpenRequest::Wait);
    let (s, request) = step(s, OpenEvent::Wake);
    assert_eq!(request, OpenRequest::PollClient);
    let (s, request) = step(s, OpenEvent::NotReady);
    assert_eq!(request, OpenRequest::PollSsh);
    let (s, request) = step(s, OpenEvent::FromSsh(b"Password: ".to_vec()));
    assert_eq!(request, OpenRequest::PollSsh);
    let (s, request) = step(s, OpenEvent::NotReady);
    assert_eq!(
        request,
        OpenRequest::SendClient(ServerMessage::SshData(b"Password: ".to_vec()))
    );
    let (s, request) = step(s, OpenEvent::Accepted);
    assert_eq!(request, OpenRequest::FlushClient);
    let (s, request) = step(s, OpenEvent::Flushed);
    assert_eq!(request, OpenRequest::FlushSsh);
    let (s, request) = step(s, OpenEvent::Flushed);
    assert_eq!(request, OpenRequest::Wait);

    let (s, _) = step(s, OpenEvent::Wake);
    let (s, request) = step(
        s,
        OpenEvent::FromClient(ClientMessage::UserData(b"sec".to_vec())),
    );
    assert_eq!(request, OpenRequest::PollClient);
    let (s, _) = step(
        s,
        OpenEvent::FromClient(ClientMessage::UserData(b"ret\n".to_vec())),
    );
    let (s, _) = step(s, OpenEvent::NotReady);
    let (s, request) = step(s, OpenEvent::NotReady);
    assert_eq!(request, OpenRequest::SendSsh(b"secret\n".to_vec()));
    let (s, request) = step(s, OpenEvent::Accepted);
    assert_eq!(request, OpenRequest::FlushClient);
    let (s, _) = step(s, OpenEvent::Flushed);
    let (s, _) = step(s, OpenEvent::Flushed);

    let (s, _) = step(s, OpenEvent::Wake);
    let (s, _) = step(s, OpenEvent::NotReady);
    let (s, _) = step(s, OpenEvent::FromSsh(format!("\r\n{}", &KEY[..20]).into_bytes()));
    let (s, _) = step(s, OpenEvent::FromSsh(format!("{}\r\n", &KEY[20..]).into_bytes()));
    let (s, request) = step(s, OpenEvent::NotReady);
    assert_eq!(
        request,
        OpenRequest::SendClient(ServerMessage::SshData(
            format!("\r\n{}\r\n", KEY).into_bytes()
        ))
    );
    let (s, _) = step(s, OpenEvent::Accepted);
    let (s, _) = step(s, OpenEvent::Flushed);
    match s.poll_communicating_for_open(OpenEvent::Flushed) {
        AfterCommunicatingForOpen::FinalizingTxn(txn) => {
            assert_eq!(txn.reply, ServerMessage::Okay)
        }
        other => panic!("{:?}", other),
    }
}

#[test]
fn what_is_not_taken_is_offered_again() {
    let s = reading_ssh();
    let (s, _) = step(s, OpenEvent::FromSsh(b"one ".to_vec()));
    let (s, _) = step(s, OpenEvent::NotReady);
    let (s, request) = step(s, OpenEvent::Refused);
    assert_eq!(request, OpenRequest::FlushClient);
    let (s, request) = step(s, OpenEvent::NotReady);
    assert_eq!(request, OpenRequest::Wait);
    let (s, _) = step(s, OpenEvent::Wake);
    let (s, _) = step(s, OpenEvent::NotReady);
    let (s, _) = step(s, OpenEvent::FromSsh(b"two".to_vec()));
    let (_, request) = step(s, OpenEvent::NotReady);
    assert_eq!(
        request,
        OpenRequest::SendClient(ServerMessage::SshData(b"one two".to_vec()))
    );
}

#[test]
fn ssh_may_die_during_the_login() {
    match reading_ssh().poll_communicating_for_open(OpenEvent::SshClosed) {
        AfterCommunicatingForOpen::Aborting(abort) => assert_eq!(
            abort.reply,
            ServerMessage::Error("unexpected EOF from SSH (program died?)".to_owned())
        ),
        other => panic!("{:?}", other),
    }
    match reading_ssh().poll_communicating_for_open(OpenEvent::Failed("I/O error".to_owned())) {
        AfterCommunicatingForOpen::Aborting(abort) => assert_eq!(
            abort.reply,
            ServerMessage::Error(
                "something went wrong communicating with the SSH process: I/O error".to_owned()
            )
        ),
        other => panic!("{:?}", other),
    }
}

#[test]
fn the_client_may_misbehave_during_the_login() {
    let (s, _) = step(dialogue(), OpenEvent::Wake);
    match s.poll_communicating_for_open(OpenEvent::FromClient(ClientMessage::Exit)) {
        AfterCommunicatingForOpen::Failed(e) => {
            assert_eq!(e, SessionError::UnexpectedMessage(ClientMessage::Exit));
            assert_eq!(e.describe(), "unexpected message from the client: Exit");
        }
        other => panic!("{:?}", other),
    }
    let (s, _) = step(dialogue(), OpenEvent::Wake);
    match s.poll_communicating_for_open(OpenEvent::ClientClosed) {
        AfterCommunicatingForOpen::Failed(e) => {
            assert_eq!(e, SessionError::ClientClosed);
            assert_eq!(e.describe(), "client connection unexpectedly closed");
        }
        other => panic!("{:?}", other),
    }
    let (s, _) = step(dialogue(), OpenEvent::Wake);
    match s.poll_communicating_for_open(OpenEvent::Failed("reset".to_owned())) {
        AfterCommunicatingForOpen::Failed(e) => {
            assert_eq!(e, SessionError::Transport("reset".to_owned()));
            assert_eq!(e.describe(), "reset");
        }
        other => panic!("{:?}", other),
    }
}

#[test]
fn no_success_without_the_key() {
    let s = reading_ssh();
    let (s, _) = step(s, OpenEvent::FromSsh(KEY.as_bytes()[..49].to_vec()));
    let (s, _) = step(s, OpenEvent::NotReady);
    let (s, _) = step(s, OpenEvent::Accepted);
    let (s, _) = step(s, OpenEvent::Flushed);
    let (_, request) = step(s, OpenEvent::Flushed);
    assert_eq!(request, OpenRequest::Wait);
}

#[test]
fn a_stray_event_changes_nothing_in_the_login() {
    let (s, request) = step(dialogue(), OpenEvent::FromSsh(b"x".to_vec()));
    assert_eq!(request, OpenRequest::Wait);
    assert!(s.cl_buf.is_empty());
}

#[test]
fn a_tunnel_is_closed_once_and_may_be_opened_again() {
    let mut common = ClientCommonState::new();
    let mut state = empty();
    state.insert("a".to_owned(), TunnelState::Running { tx_kill: 7 });
    assert!(matches!(
        common.poll_awaiting_command(&mut state, close("a")),
        AfterAwaitingCommand::SendKill(7)
    ));
    let after = common.poll_awaiting_command(&mut state, close("a"));
    assert_eq!(reply(after), ServerMessage::TunnelNotOpen);
    assert_eq!(state.status().tunnels.len(), 1);
    assert_eq!(
        state.status().tunnels[0].state,
        protocol::TunnelState::Closed
    );
    assert!(matches!(
        common.poll_awaiting_command(&mut state, open("a")),
        AfterAwaitingCommand::LaunchSsh(_)
    ));
}

#[test]
fn a_key_behind_a_false_start_is_found() {
    let s = reading_ssh();
    let (s, _) = step(s, OpenEvent::FromSsh(format!("S{}", KEY).into_bytes()));
    let (s, _) = step(s, OpenEvent::NotReady);
    let (s, _) = step(s, OpenEvent::Accepted);
    let (s, _) = step(s, OpenEvent::Flushed);
    match s.poll_communicating_for_open(OpenEvent::Flushed) {
        AfterCommunicatingForOpen::FinalizingTxn(txn) => {
            assert_eq!(txn.reply, ServerMessage::Okay)
        }
        other => panic!("{:?}", other),
    }
}

#[test]
fn success_waits_until_nothing_is_held() {
    let (s, _) = step(dialogue(), OpenEvent::Wake);
    let (s, _) = step(
        s,
        OpenEvent::FromClient(ClientMessage::UserData(b"x".to_vec())),
    );
    let (s, _) = step(s, OpenEvent::NotReady);
    let (s, _) = step(s, OpenEvent::FromSsh(KEY.as_bytes().to_vec()));
    let (s, _) = step(s, OpenEvent::NotReady);
    let (s, request) = step(s, OpenEvent::Refused);
    assert_eq!(request, OpenRequest::SendSsh(b"x".to_vec()));
    let (s, _) = step(s, OpenEvent::Refused);
    let (s, _) = step(s, OpenEvent::Flushed);
    let (s, request) = step(s, OpenEvent::Flushed);
    assert_eq!(
        request,
        OpenRequest::SendClient(ServerMessage::SshData(KEY.as_bytes().to_vec()))
    );
    let (s, request) = step(s, OpenEvent::Accepted);
    assert_eq!(request, OpenRequest::SendSsh(b"x".to_vec()));
    let (s, _) = step(s, OpenEvent::Accepted);
    let (s, _) = step(s, OpenEvent::Flushed);
    assert!(matches!(
        s.poll_communicating_for_open(OpenEvent::Flushed),
        AfterCommunicatingForOpen::FinalizingTxn(_)
    ));
}

#[test]
fn a_second_close_is_refused_whatever_the_monitor_did() {
    for news in [
        None,
        Some(ChildEvent::KillPending),
        Some(ChildEvent::KillOrdered),
        Some(ChildEvent::ChildExited(9)),
    ] {
        let mut common = ClientCommonState::new();
        let mut state = empty();
        state.insert("a".to_owned(), TunnelState::Running { tx_kill: 7 });
        assert!(matches!(
            common.poll_awaiting_command(&mut state, close("a")),
            AfterAwaitingCommand::SendKill(7)
        ));
        if let Some(news) = news {
            let monitor = AwaitingChildEvent {
                key: "a".to_owned(),
            };
            monitor.poll_awaiting_child_event(&mut state, news);
        }
        let after = common.poll_awaiting_command(&mut state, close("a"));
        assert_eq!(reply(after), ServerMessage::TunnelNotOpen);
    }
}
