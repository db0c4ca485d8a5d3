use stund::client::connection::{Connection, Reply};
use stund::client::error::ClientError;
use stund::client::establish::{
    AfterEstablish, Establish, EstablishError, EstablishEvent, EstablishRequest, LAUNCH_PAUSE_MS,
};
use stund::client::open::{
    AfterCommunicating, AfterFirstAck, AfterIssue, Communicating, DaemonEvent, DialogueEvent,
    DialogueRequest, FirstAck,
};
use stund::protocol::{
    ClientMessage, CloseParameters, CloseResult, OpenParameters, OpenResult, SendEvent,
    ServerMessage, StatusInformation, TunnelInformation, TunnelState,
};

fn next(attempt: Establish, event: EstablishEvent) -> (Establish, EstablishRequest) {
    match attempt.next(event) {
        AfterEstablish::Ask(attempt, request) => (attempt, request),
        other => panic!("{:?}", other),
    }
}

fn failed(attempt: Establish, event: EstablishEvent) -> EstablishError {
    match attempt.next(event) {
        AfterEstablish::Failed(e) => e,
        other => panic!("{:?}", other),
    }
}

#[test]
fn a_running_daemon_answers_at_once() {
    let (attempt, request) = Connection::establish();
    assert_eq!(request, EstablishRequest::Connect);
    assert!(matches!(
        attempt.next(EstablishEvent::Connected),
        AfterEstablish::Established(_)
    ));
}

#[test]
fn a_daemon_is_launched_if_need_be() {
    let (attempt, _) = Connection::establish();
    let (attempt, request) = next(attempt, EstablishEvent::Refused("nobody".to_owned()));
    assert_eq!(request, EstablishRequest::LaunchDaemon);
    let (attempt, request) = next(attempt, EstablishEvent::Launched { success: true });
    assert_eq!(request, EstablishRequest::Pause(LAUNCH_PAUSE_MS));
    assert_eq!(LAUNCH_PAUSE_MS, 300);
    let (attempt, request) = next(attempt, EstablishEvent::Paused);
    assert_eq!(request, EstablishRequest::Connect);
    assert!(matches!(
        attempt.next(EstablishEvent::Connected),
        AfterEstablish::Established(_)
    ));
}

#[test]
fn a_daemon_may_not_come_up() {
    let refused = || EstablishEvent::Refused("nobody".to_owned());
    let (launching, _) = next(Connection::establish().0, refused());
    let e = failed(launching, EstablishEvent::NoExecutable("?".to_owned()));
    assert_eq!(e, EstablishError::NoExecutable("?".to_owned()));
    assert_eq!(e.describe(), "couldn't get current executable path");

    let (launching, _) = next(Connection::establish().0, refused());
    let e = failed(launching, EstablishEvent::LaunchFailed("?".to_owned()));
    assert_eq!(e, EstablishError::LaunchFailed("?".to_owned()));
    assert_eq!(e.describe(), "daemon launcher reported failure");

    let (launching, _) = next(Connection::establish().0, refused());
    let (pausing, request) = next(launching, EstablishEvent::Launched { success: false });
    assert_eq!(request, EstablishRequest::Pause(300));
    let e = failed(pausing, EstablishEvent::Paused);
    assert_eq!(e, EstablishError::LaunchReportedFailure);
    assert_eq!(e.describe(), "failed to launch background daemon");

    let (launching, _) = next(Connection::establish().0, refused());
    let (pausing, _) = next(launching, EstablishEvent::Launched { success: true });
    let (reconnecting, _) = next(pausing, EstablishEvent::Paused);
    let e = failed(reconnecting, refused());
    assert_eq!(e, EstablishError::StillRefused("nobody".to_owned()));
    assert_eq!(
        e.describe(),
        "failed to connect to daemon even after launching it"
    );
}

#[test]
fn no_daemon_is_launched_unless_asked_for() {
    let (attempt, request) = Connection::try_establish();
    assert_eq!(request, EstablishRequest::Connect);
    let (attempt, request) = next(attempt, EstablishEvent::Paused);
    assert_eq!(request, EstablishRequest::Connect);
    assert!(matches!(
        attempt.next(EstablishEvent::Refused("nobody".to_owned())),
        AfterEstablish::NotRunning
    ));
}

#[test]
fn a_session_is_closed_with_goodbye() {
    assert_eq!(Connection {}.close(), ClientMessage::Goodbye);
}

fn close_reply(reply: Reply) -> Result<CloseResult, ClientError> {
    let (pending, msg) = Connection {}.send_close(CloseParameters {
        host: "h".to_owned(),
    });
    assert_eq!(
        msg,
        ClientMessage::Close(CloseParameters {
            host: "h".to_owned()
        })
    );
    pending.reply(reply).map(|(result, _)| result)
}

#[test]
fn replies_to_a_close_command() {
    assert_eq!(
        close_reply(Reply::Message(ServerMessage::Okay)),
        Ok(CloseResult::Success)
    );
    assert_eq!(
        close_reply(Reply::Message(ServerMessage::TunnelNotOpen)),
        Ok(CloseResult::NotOpen)
    );
    let e = close_reply(Reply::Message(ServerMessage::Error("no".to_owned()))).unwrap_err();
    assert_eq!(e, ClientError::Daemon("no".to_owned()));
    assert_eq!(e.describe(), "no");
    let e = close_reply(Reply::Message(ServerMessage::TunnelAlreadyOpen)).unwrap_err();
    assert_eq!(
        e,
        ClientError::UnexpectedReply(ServerMessage::TunnelAlreadyOpen)
    );
    assert_eq!(e.describe(), "unexpected server reply: TunnelAlreadyOpen");
    let e = close_reply(Reply::Disconnected).unwrap_err();
    assert_eq!(e, ClientError::Disconnected);
    assert_eq!(e.describe(), "unexpected disconnection from server");
    let e = close_reply(Reply::Failed("reset".to_owned())).unwrap_err();
    assert_eq!(e, ClientError::Receiving("reset".to_owned()));
    assert_eq!(e.describe(), "error receiving daemon reply: reset");
    let (pending, _) = Connection {}.send_close(CloseParameters {
        host: "h".to_owned(),
    });
    let e = pending.send_failed("broken".to_owned());
    assert_eq!(
        e.describe(),
        "error sending close message to daemon: broken"
    );
}

#[test]
fn replies_to_an_exit_command() {
    let (pending, msg) = Connection {}.send_exit();
    assert_eq!(msg, ClientMessage::Exit);
    assert!(pending.reply(Reply::Message(ServerMessage::Okay)).is_ok());
    let (pending, _) = Connection {}.send_exit();
    let e = pending
        .reply(Reply::Message(ServerMessage::TunnelNotOpen))
        .unwrap_err();
    assert_eq!(e, ClientError::UnexpectedReply(ServerMessage::TunnelNotOpen));
    let (pending, _) = Connection {}.send_exit();
    assert_eq!(
        pending.send_failed("broken".to_owned()).describe(),
        "error sending exit message to daemon: broken"
    );
}

#[test]
fn replies_to_a_status_query() {
    let (pending, msg) = Connection {}.query_status();
    assert_eq!(msg, ClientMessage::QueryStatus);
    let info = || StatusInformation {
        tunnels: vec![TunnelInformation {
            host: "h".to_owned(),
            state: TunnelState::Open,
        }],
    };
    let (got, _) = pending
        .reply(Reply::Message(ServerMessage::StatusResponse(info())))
        .unwrap();
    assert_eq!(got, info());
    let (pending, _) = Connection {}.query_status();
    let e = pending
        .reply(Reply::Message(ServerMessage::Okay))
        .unwrap_err();
    assert_eq!(e, ClientError::UnexpectedReply(ServerMessage::Okay));
    let (pending, _) = Connection {}.query_status();
    assert_eq!(
        pending.send_failed("broken".to_owned()).describe(),
        "error sending status query to daemon: broken"
    );
}

fn first_ack(read_input: bool) -> FirstAck {
    let (issue, msg) = Connection {}.send_open(
        OpenParameters {
            host: "h".to_owned(),
        },
        read_input,
    );
    assert_eq!(
        msg,
        ClientMessage::Open(OpenParameters {
            host: "h".to_owned()
        })
    );
    let issue = match issue.poll_issue(SendEvent::Pending) {
        AfterIssue::Wait(issue) => issue,
        other => panic!("{:?}", other),
    };
    match issue.poll_issue(SendEvent::Sent) {
        AfterIssue::FirstAck(ack) => ack,
        other => panic!("{:?}", other),
    }
}

fn open_failure(ack: FirstAck, event: DaemonEvent) -> ClientError {
    match ack.poll_first_ack(event) {
        AfterFirstAck::Failed(e) => e,
        other => panic!("{:?}", other),
    }
}

fn dialogue(read_input: bool) -> Communicating {
    let ack = match first_ack(read_input).poll_first_ack(DaemonEvent::NotReady) {
        AfterFirstAck::Wait(ack) => ack,
        other => panic!("{:?}", other),
    };
    let ack = match ack.poll_first_ack(DaemonEvent::Message(ServerMessage::Okay)) {
        AfterFirstAck::PollAgain(ack) => ack,
        other => panic!("{:?}", other),
    };
    match ack.poll_first_ack(DaemonEvent::NotReady) {
        AfterFirstAck::Communicating(session) => session,
        other => panic!("{:?}", other),
    }
}

#[test]
fn the_open_command_may_not_be_sent() {
    let (issue, _) = Connection {}.send_open(
        OpenParameters {
            host: "h".to_owned(),
        },
        true,
    );
    match issue.poll_issue(SendEvent::Failed("broken".to_owned())) {
        AfterIssue::Failed(e) => {
            assert_eq!(e, ClientError::Transport("broken".to_owned()));
            assert_eq!(e.describe(), "broken");
        }
        other => panic!("{:?}", other),
    }
}

#[test]
fn first_replies_to_an_open_command() {
    match first_ack(true).poll_first_ack(DaemonEvent::Message(ServerMessage::TunnelAlreadyOpen)) {
        AfterFirstAck::Finished(result, _) => assert_eq!(result, OpenResult::AlreadyOpen),
        other => panic!("{:?}", other),
    }
    assert_eq!(
        open_failure(
            first_ack(true),
            DaemonEvent::Message(ServerMessage::Error("no".to_owned()))
        ),
        ClientError::Daemon("no".to_owned())
    );
    let e = open_failure(
        first_ack(true),
        DaemonEvent::Message(ServerMessage::TunnelNotOpen),
    );
    assert_eq!(
        e,
        ClientError::UnexpectedResponse(ServerMessage::TunnelNotOpen)
    );
    assert_eq!(
        e.describe(),
        "unexpected response from daemon: TunnelNotOpen"
    );
    let e = open_failure(first_ack(true), DaemonEvent::Closed);
    assert_eq!(e, ClientError::ConnectionClosed);
    assert_eq!(e.describe(), "connection closed (?)");
    assert_eq!(
        open_failure(first_ack(true), DaemonEvent::Failed("reset".to_owned())),
        ClientError::Transport("reset".to_owned())
    );
}

fn step(session: Communicating, event: DialogueEvent) -> (Communicating, DialogueRequest) {
    match session.poll_communicating(event) {
        AfterCommunicating::Ask(session, request) => (session, request),
        other => panic!("{:?}", other),
    }
}

fn dialogue_failure(session: Communicating, event: DialogueEvent) -> ClientError {
    match session.poll_communicating(event) {
        AfterCommunicating::Failed(e) => e,
        other => panic!("{:?}", other),
    }
}

#[test]
fn the_client_relays_both_ways() {
    let s = dialogue(true);
    assert_eq!(s.request(), DialogueRequest::Wait);
    let (s, request) = step(s, DialogueEvent::Wake);
    assert_eq!(request, DialogueRequest::PollDaemon);
    let (s, _) = step(
        s,
        DialogueEvent::FromDaemon(ServerMessage::SshData(b"Pass".to_vec())),
    );
    let (s, _) = step(
        s,
        DialogueEvent::FromDaemon(ServerMessage::SshData(b"word: ".to_vec())),
    );
    let (s, request) = step(s, DialogueEvent::NotReady);
    assert_eq!(request, DialogueRequest::PollUser);
    let (s, _) = step(s, DialogueEvent::FromUser(b"se".to_vec()));
    let (s, _) = step(s, DialogueEvent::FromUser(b"cret\n".to_vec()));
    let (s, request) = step(s, DialogueEvent::NotReady);
    assert_eq!(request, DialogueRequest::SendUser(b"Password: ".to_vec()));
    let (s, request) = step(s, DialogueEvent::Refused);
    assert_eq!(
        request,
        DialogueRequest::SendDaemon(ClientMessage::UserData(b"secret\n".to_vec()))
    );
    let (s, request) = step(s, DialogueEvent::Accepted);
    assert_eq!(request, DialogueRequest::FlushUser);
    let (s, request) = step(s, DialogueEvent::Flushed);
    assert_eq!(request, DialogueRequest::FlushDaemon);
    let (s, request) = step(s, DialogueEvent::Flushed);
    assert_eq!(request, DialogueRequest::Wait);
    assert_eq!(s.user_buf, b"Password: ".to_vec());
    assert!(s.ssh_buf.is_empty());

    let (s, _) = step(s, DialogueEvent::Wake);
    let (s, request) = step(s, DialogueEvent::FromDaemon(ServerMessage::Okay));
    assert_eq!(request, DialogueRequest::SendUser(b"Password: ".to_vec()));
    let (s, request) = step(s, DialogueEvent::Accepted);
    assert_eq!(request, DialogueRequest::FlushUser);
    match s.poll_communicating(DialogueEvent::Flushed) {
        AfterCommunicating::Finished(result, _) => assert_eq!(result, OpenResult::Success),
        other => panic!("{:?}", other),
    }
}

#[test]
fn success_without_output_ends_at_once() {
    let (s, _) = step(dialogue(true), DialogueEvent::Wake);
    match s.poll_communicating(DialogueEvent::FromDaemon(ServerMessage::Okay)) {
        AfterCommunicating::Finished(result, _) => assert_eq!(result, OpenResult::Success),
        other => panic!("{:?}", other),
    }
}

#[test]
fn the_last_output_is_reported_before_success() {
    let (s, _) = step(dialogue(true), DialogueEvent::Wake);
    let (s, _) = step(
        s,
        DialogueEvent::FromDaemon(ServerMessage::SshData(b"hi".to_vec())),
    );
    let (s, request) = step(s, DialogueEvent::FromDaemon(ServerMessage::Okay));
    assert_eq!(request, DialogueRequest::SendUser(b"hi".to_vec()));
    let (s, request) = step(s, DialogueEvent::Refused);
    assert_eq!(request, DialogueRequest::FlushUser);
    let (s, request) = step(s, DialogueEvent::NotReady);
    assert_eq!(request, DialogueRequest::Wait);
    let (s, request) = step(s, DialogueEvent::Wake);
    assert_eq!(request, DialogueRequest::SendUser(b"hi".to_vec()));
    let (s, _) = step(s, DialogueEvent::Refused);
    let (s, request) = step(s, DialogueEvent::Flushed);
    assert_eq!(request, DialogueRequest::SendUser(b"hi".to_vec()));
    let (s, _) = step(s, DialogueEvent::Accepted);
    let (s, request) = step(s, DialogueEvent::NotReady);
    assert_eq!(request, DialogueRequest::Wait);
    let (s, request) = step(s, DialogueEvent::Wake);
    assert_eq!(request, DialogueRequest::FlushUser);
    match s.poll_communicating(DialogueEvent::Flushed) {
        AfterCommunicating::Finished(result, _) => assert_eq!(result, OpenResult::Success),
        other => panic!("{:?}", other),
    }
}

#[test]
fn the_last_output_may_not_be_reported() {
    let (s, _) = step(dialogue(true), DialogueEvent::Wake);
    let (s, _) = step(
        s,
        DialogueEvent::FromDaemon(ServerMessage::SshData(b"hi".to_vec())),
    );
    let (s, _) = step(s, DialogueEvent::FromDaemon(ServerMessage::Okay));
    assert_eq!(
        dialogue_failure(s, DialogueEvent::Failed("gone".to_owned())),
        ClientError::Transport("gone".to_owned())
    );
}

#[test]
fn the_user_is_left_alone_without_input() {
    let (s, _) = step(dialogue(false), DialogueEvent::Wake);
    let (s, request) = step(s, DialogueEvent::NotReady);
    assert_eq!(request, DialogueRequest::FlushUser);
    let (s, request) = step(s, DialogueEvent::NotReady);
    assert_eq!(request, DialogueRequest::Wait);
    let (s, _) = step(s, DialogueEvent::Wake);
    let (s, _) = step(
        s,
        DialogueEvent::FromDaemon(ServerMessage::SshData(b"motd".to_vec())),
    );
    let (_, request) = step(s, DialogueEvent::NotReady);
    assert_eq!(request, DialogueRequest::SendUser(b"motd".to_vec()));
}

#[test]
fn the_dialogue_may_fail() {
    let (s, _) = step(dialogue(true), DialogueEvent::Wake);
    assert_eq!(
        dialogue_failure(
            s,
            DialogueEvent::FromDaemon(ServerMessage::Error("died".to_owned()))
        ),
        ClientError::Daemon("died".to_owned())
    );
    let (s, _) = step(dialogue(true), DialogueEvent::Wake);
    let e = dialogue_failure(s, DialogueEvent::FromDaemon(ServerMessage::TunnelNotOpen));
    assert_eq!(
        e,
        ClientError::UnexpectedMessage(ServerMessage::TunnelNotOpen)
    );
    assert_eq!(
        e.describe(),
        "unexpected message from the daemon: TunnelNotOpen"
    );
    let (s, _) = step(dialogue(true), DialogueEvent::Wake);
    let (s, _) = step(s, DialogueEvent::NotReady);
    let e = dialogue_failure(s, DialogueEvent::UserClosed);
    assert_eq!(e, ClientError::TerminalEof);
    assert_eq!(e.describe(), "EOF on terminal (?)");
    let (s, _) = step(dialogue(true), DialogueEvent::Wake);
    assert_eq!(
        dialogue_failure(s, DialogueEvent::Failed("reset".to_owned())),
        ClientError::Transport("reset".to_owned())
    );
}

#[test]
fn a_daemon_that_hangs_up_in_the_dialogue_is_polled_on() {
    let (s, _) = step(dialogue(true), DialogueEvent::Wake);
    let (_, request) = step(s, DialogueEvent::DaemonClosed);
    assert_eq!(request, DialogueRequest::PollDaemon);
}
