use stund::cli::StundOpenOptions;
use stund::console::cleanup::{
    AfterCleaningUpIo, CleaningUpIo, CleanupEvent, CleanupRequest, Front,
};
use stund::console::connection::{
    dialogue_begins, new_open, new_open_ended, plan_connection, ConnectPlan, Connection,
    ConsoleAction, BANNER, SUCCESS,
};
use stund::console::error::ConsoleError;
use stund::console::finish::FinishCommunicationState;
use stund::console::open::{
    AfterCommunicating, AfterFirstAck, AfterIssue, Communicating, DaemonEvent, DialogueEvent,
    DialogueRequest, FirstAck, Issue,
};
use stund::console::protocol::{ClientMessage, OpenParameters, ServerMessage};
use stund::protocol::{NoHomeDirectory, SendEvent, LINGER_SECONDS};

type F = FinishCommunicationState;

fn typed(text: &str) -> FinishCommunicationState {
    FinishCommunicationState::SawFirstEnter.transition_all(text.as_bytes())
}

#[test]
fn every_transition() {
    assert_eq!(F::NoLeads.transition(0x0A), F::SawFirstEnter);
    assert_eq!(F::NoLeads.transition(0x2E), F::NoLeads);
    assert_eq!(F::SawFirstEnter.transition(0x2E), F::SawPeriod);
    assert_eq!(F::SawFirstEnter.transition(0x0A), F::NoLeads);
    assert_eq!(F::SawFirstEnter.transition(b'x'), F::NoLeads);
    assert_eq!(F::SawPeriod.transition(0x0A), F::SawSecondEnter);
    assert_eq!(F::SawPeriod.transition(0x2E), F::NoLeads);
    assert_eq!(F::SawSecondEnter.transition(0x0A), F::SawSecondEnter);
    assert_eq!(F::SawSecondEnter.transition(b'x'), F::SawSecondEnter);
}

#[test]
fn the_user_is_done_after_a_lone_period() {
    assert_eq!(typed(".\n"), FinishCommunicationState::SawSecondEnter);
    assert_eq!(
        typed("secret\n.\n"),
        FinishCommunicationState::SawSecondEnter
    );
    assert_eq!(
        typed("a.\n.\n"),
        FinishCommunicationState::SawSecondEnter
    );
}

#[test]
fn the_user_is_not_done_before() {
    assert_eq!(typed("secret.\n"), FinishCommunicationState::SawFirstEnter);
    assert_eq!(typed("..\n"), FinishCommunicationState::SawFirstEnter);
    assert_eq!(typed("."), FinishCommunicationState::SawPeriod);
    assert_eq!(typed(""), FinishCommunicationState::SawFirstEnter);
}

#[test]
fn an_empty_line_before_the_period_hides_it() {
    assert_eq!(typed("\n.\n"), FinishCommunicationState::SawFirstEnter);
}

#[test]
fn the_input_may_come_in_parts() {
    let state = typed("secret\n").transition_all(b".").transition_all(b"\n");
    assert_eq!(state, FinishCommunicationState::SawSecondEnter);
    assert_eq!(
        state.transition_all(b"more\n"),
        FinishCommunicationState::SawSecondEnter
    );
}

#[test]
fn the_open_command_of_the_terminal() {
    let opts = StundOpenOptions {
        host: "h".to_owned(),
        quiet: false,
        no_input: false,
        after_command: Vec::new(),
    };
    let (issue, msg) = new_open(&opts);
    assert_eq!(issue.front, Front::Terminal);
    assert_eq!(
        msg,
        ClientMessage::Open(OpenParameters {
            host: "h".to_owned()
        })
    );
    assert_eq!(
        BANNER,
        "[Begin SSH login; type \".\" on an empty line when login has succeeded.]"
    );
    assert_eq!(SUCCESS, "[Success]");
}

#[test]
fn the_open_command_of_streams() {
    let (issue, msg) = Connection {}.send_open(OpenParameters {
        host: "h".to_owned(),
    });
    assert_eq!(issue.front, Front::Streams);
    assert_eq!(
        msg,
        ClientMessage::Open(OpenParameters {
            host: "h".to_owned()
        })
    );
    assert_eq!(Connection {}.close(), ClientMessage::Goodbye);
}

#[test]
fn how_the_console_connects() {
    match Connection::establish() {
        Ok(plan) => {
            assert!(plan.path.ends_with(b"/.ssh/stund.sock"));
            assert_eq!(plan.linger_seconds, LINGER_SECONDS);
            assert_eq!(plan.linger_seconds, 2);
        }
        Err(e) => assert_eq!(e, NoHomeDirectory),
    }
}

fn ack(front: Front) -> FirstAck {
    let issue = match (Issue { front }).poll_issue(SendEvent::Pending) {
        AfterIssue::Wait(issue) => issue,
        other => panic!("{:?}", other),
    };
    match issue.poll_issue(SendEvent::Sent) {
        AfterIssue::FirstAck(ack) => ack,
        other => panic!("{:?}", other),
    }
}

fn ack_failure(front: Front, event: DaemonEvent) -> ConsoleError {
    match ack(front).poll_first_ack(event) {
        AfterFirstAck::Failed(e) => e,
        other => panic!("{:?}", other),
    }
}

fn console_dialogue(front: Front) -> Communicating {
    match ack(front).poll_first_ack(DaemonEvent::Message(ServerMessage::Okay)) {
        AfterFirstAck::Communicating(session) => session,
        other => panic!("{:?}", other),
    }
}

#[test]
fn the_console_may_not_get_a_dialogue() {
    match (Issue {
        front: Front::Streams,
    })
    .poll_issue(SendEvent::Failed("broken".to_owned()))
    {
        AfterIssue::Failed(e) => {
            assert_eq!(e, ConsoleError::Transport("broken".to_owned()));
            assert_eq!(e.describe(), "broken");
        }
        other => panic!("{:?}", other),
    }
    let e = ack_failure(
        Front::Streams,
        DaemonEvent::Message(ServerMessage::Error("no".to_owned())),
    );
    assert_eq!(e, ConsoleError::Daemon("no".to_owned()));
    assert_eq!(e.describe(), "no");
    let e = ack_failure(
        Front::Terminal,
        DaemonEvent::Message(ServerMessage::SshData(vec![1])),
    );
    assert_eq!(
        e,
        ConsoleError::UnexpectedResponse(ServerMessage::SshData(vec![1]))
    );
    assert_eq!(e.describe(), "unexpected response from daemon: SshData([1])");
    let e = ack_failure(Front::Streams, DaemonEvent::Closed);
    assert_eq!(e, ConsoleError::ConnectionClosed);
    assert_eq!(e.describe(), "connection closed (?)");
    assert!(matches!(
        ack(Front::Terminal).poll_first_ack(DaemonEvent::Closed),
        AfterFirstAck::PollAgain(_)
    ));
    assert!(matches!(
        ack(Front::Terminal).poll_first_ack(DaemonEvent::NotReady),
        AfterFirstAck::Wait(_)
    ));
    assert_eq!(
        ack_failure(Front::Terminal, DaemonEvent::Failed("reset".to_owned())),
        ConsoleError::Transport("reset".to_owned())
    );
}

fn tell(session: Communicating, event: DialogueEvent) -> (Communicating, DialogueRequest) {
    match session.poll_communicating(event) {
        AfterCommunicating::Ask(session, request) => (session, request),
        other => panic!("{:?}", other),
    }
}

fn fail(session: Communicating, event: DialogueEvent) -> (bool, ConsoleError) {
    match session.poll_communicating(event) {
        AfterCommunicating::Failed { newline, error } => (newline, error),
        other => panic!("{:?}", other),
    }
}

#[test]
fn a_dialogue_at_the_terminal() {
    let s = console_dialogue(Front::Terminal);
    assert_eq!(s.request(), DialogueRequest::PollDaemon);
    let (s, request) = tell(
        s,
        DialogueEvent::FromDaemon(ServerMessage::SshData(b"Password: ".to_vec())),
    );
    assert_eq!(request, DialogueRequest::Print(b"Password: ".to_vec()));
    let (s, request) = tell(s, DialogueEvent::Printed);
    assert_eq!(request, DialogueRequest::PollUser);
    let (s, request) = tell(s, DialogueEvent::FromUser(b"x".to_vec()));
    assert_eq!(
        request,
        DialogueRequest::StartSend(ClientMessage::UserData(b"x".to_vec()))
    );
    let (s, request) = tell(s, DialogueEvent::Started);
    assert_eq!(request, DialogueRequest::PollDaemon);
    let (s, _) = tell(s, DialogueEvent::NotReady);
    let (s, request) = tell(s, DialogueEvent::FromUser(b"\n".to_vec()));
    assert_eq!(request, DialogueRequest::PollSend);
    let (s, request) = tell(s, DialogueEvent::NotReady);
    assert_eq!(request, DialogueRequest::Wait);
    let (s, request) = tell(s, DialogueEvent::Wake);
    assert_eq!(request, DialogueRequest::PollDaemon);
    let (s, _) = tell(s, DialogueEvent::DaemonClosed);
    let (s, request) = tell(s, DialogueEvent::UserClosed);
    assert_eq!(request, DialogueRequest::PollSend);
    let (s, request) = tell(s, DialogueEvent::Sent);
    assert_eq!(request, DialogueRequest::PollDaemon);
    let (s, _) = tell(s, DialogueEvent::NotReady);
    let (s, request) = tell(s, DialogueEvent::FromUser(b".".to_vec()));
    assert_eq!(
        request,
        DialogueRequest::StartSend(ClientMessage::UserData(b"\n.".to_vec()))
    );
    let (s, _) = tell(s, DialogueEvent::Started);
    let (s, _) = tell(s, DialogueEvent::NotReady);
    let (s, _) = tell(s, DialogueEvent::FromUser(b"\n".to_vec()));
    match s.poll_communicating(DialogueEvent::Sent) {
        AfterCommunicating::CleaningUpIo(session, request) => {
            assert_eq!(session.front, Front::Terminal);
            assert_eq!(
                request,
                CleanupRequest::StartSend(ClientMessage::EndOfUserData)
            );
        }
        other => panic!("{:?}", other),
    }
}

#[test]
fn a_dialogue_between_streams() {
    let s = console_dialogue(Front::Streams);
    let (s, request) = tell(
        s,
        DialogueEvent::FromDaemon(ServerMessage::SshData(b"Pass".to_vec())),
    );
    assert_eq!(request, DialogueRequest::PollUser);
    let (s, request) = tell(s, DialogueEvent::NotReady);
    assert_eq!(request, DialogueRequest::StartUserSend(b"Pass".to_vec()));
    let (s, request) = tell(s, DialogueEvent::Started);
    assert_eq!(request, DialogueRequest::PollDaemon);
    let (s, _) = tell(
        s,
        DialogueEvent::FromDaemon(ServerMessage::SshData(b"word: ".to_vec())),
    );
    let (s, request) = tell(s, DialogueEvent::NotReady);
    assert_eq!(request, DialogueRequest::PollUserSend);
    let (s, request) = tell(s, DialogueEvent::NotReady);
    assert_eq!(request, DialogueRequest::Wait);
    let (s, _) = tell(s, DialogueEvent::Wake);
    let (s, _) = tell(s, DialogueEvent::NotReady);
    let (s, _) = tell(s, DialogueEvent::NotReady);
    let (s, request) = tell(s, DialogueEvent::Sent);
    assert_eq!(request, DialogueRequest::PollDaemon);
    let (s, _) = tell(s, DialogueEvent::NotReady);
    let (s, request) = tell(s, DialogueEvent::FromUser(b"secret\n.\n".to_vec()));
    assert_eq!(
        request,
        DialogueRequest::StartSend(ClientMessage::UserData(b"secret\n.\n".to_vec()))
    );
    let (s, request) = tell(s, DialogueEvent::Started);
    assert_eq!(request, DialogueRequest::StartUserSend(b"word: ".to_vec()));
    match s.poll_communicating(DialogueEvent::Started) {
        AfterCommunicating::CleaningUpIo(_, request) => {
            assert_eq!(request, CleanupRequest::PollSend)
        }
        other => panic!("{:?}", other),
    }
}

#[test]
fn nothing_to_do_is_waited_out() {
    let s = console_dialogue(Front::Streams);
    let (s, _) = tell(s, DialogueEvent::NotReady);
    let (_, request) = tell(s, DialogueEvent::NotReady);
    assert_eq!(request, DialogueRequest::Wait);
}

#[test]
fn a_console_dialogue_may_fail() {
    let daemon_error = || DialogueEvent::FromDaemon(ServerMessage::Error("died".to_owned()));
    assert_eq!(
        fail(console_dialogue(Front::Terminal), daemon_error()),
        (true, ConsoleError::Daemon("died".to_owned()))
    );
    assert_eq!(
        fail(console_dialogue(Front::Streams), daemon_error()),
        (false, ConsoleError::Daemon("died".to_owned()))
    );
    let (newline, e) = fail(
        console_dialogue(Front::Terminal),
        DialogueEvent::FromDaemon(ServerMessage::Okay),
    );
    assert!(newline);
    assert_eq!(e, ConsoleError::UnexpectedMessage(ServerMessage::Okay));
    assert_eq!(e.describe(), "unexpected message from the daemon: Ok");
    let (s, _) = tell(console_dialogue(Front::Streams), DialogueEvent::NotReady);
    let (_, e) = fail(s, DialogueEvent::UserClosed);
    assert_eq!(e, ConsoleError::TerminalEof);
    assert_eq!(e.describe(), "EOF on terminal (?)");
    let (s, _) = tell(console_dialogue(Front::Streams), DialogueEvent::NotReady);
    let (_, e) = fail(s, DialogueEvent::Failed("?".to_owned()));
    assert_eq!(e, ConsoleError::TerminalError);
    assert_eq!(e.describe(), "error reading from the terminal");
    assert_eq!(
        fail(
            console_dialogue(Front::Terminal),
            DialogueEvent::Failed("reset".to_owned())
        ),
        (false, ConsoleError::Transport("reset".to_owned()))
    );
}

fn clean(session: CleaningUpIo, event: CleanupEvent) -> (CleaningUpIo, CleanupRequest) {
    match session.poll_cleaning_up_io(event) {
        AfterCleaningUpIo::Ask(session, request) => (session, request),
        other => panic!("{:?}", other),
    }
}

#[test]
fn the_end_of_a_session() {
    let s = CleaningUpIo::enter(Front::Streams, true);
    assert_eq!(s.request(), CleanupRequest::PollSend);
    let (s, request) = clean(s, CleanupEvent::NotReady);
    assert_eq!(request, CleanupRequest::Wait);
    let (s, request) = clean(s, CleanupEvent::Wake);
    assert_eq!(request, CleanupRequest::PollSend);
    let (s, request) = clean(s, CleanupEvent::Sent);
    assert_eq!(request, CleanupRequest::PollDaemon);
    let (s, request) = clean(s, CleanupEvent::FromDaemon(ServerMessage::Okay));
    assert_eq!(
        request,
        CleanupRequest::StartSend(ClientMessage::EndOfUserData)
    );
    let (s, request) = clean(s, CleanupEvent::Started);
    assert_eq!(request, CleanupRequest::PollDaemon);
    let (s, request) = clean(s, CleanupEvent::NotReady);
    assert_eq!(request, CleanupRequest::PollSend);
    let (s, request) = clean(s, CleanupEvent::Sent);
    assert_eq!(request, CleanupRequest::PollDaemon);
    let (s, request) = clean(s, CleanupEvent::NotReady);
    assert_eq!(request, CleanupRequest::Wait);
    let (s, request) = clean(s, CleanupEvent::Wake);
    assert_eq!(request, CleanupRequest::PollDaemon);
    let (s, request) = clean(
        s,
        CleanupEvent::FromDaemon(ServerMessage::SshData(b"bye".to_vec())),
    );
    assert_eq!(request, CleanupRequest::PollDaemon);
    assert!(matches!(
        s.poll_cleaning_up_io(CleanupEvent::FromDaemon(ServerMessage::Okay)),
        AfterCleaningUpIo::Finished
    ));
}

#[test]
fn trailing_output_is_shown_on_the_terminal() {
    let s = CleaningUpIo::enter(Front::Terminal, false);
    assert_eq!(
        s.request(),
        CleanupRequest::StartSend(ClientMessage::EndOfUserData)
    );
    let (s, request) = clean(s, CleanupEvent::Started);
    assert_eq!(request, CleanupRequest::PollSend);
    let (s, _) = clean(s, CleanupEvent::Sent);
    let (s, request) = clean(
        s,
        CleanupEvent::FromDaemon(ServerMessage::SshData(b"bye".to_vec())),
    );
    assert_eq!(request, CleanupRequest::Print(b"bye".to_vec()));
    let (_, request) = clean(s, CleanupEvent::Printed);
    assert_eq!(request, CleanupRequest::PollDaemon);
}

#[test]
fn the_end_of_a_session_may_fail() {
    let reading = |front: Front| {
        let (s, _) = clean(CleaningUpIo::enter(front, false), CleanupEvent::Started);
        clean(s, CleanupEvent::Sent).0
    };
    let error = || CleanupEvent::FromDaemon(ServerMessage::Error("died".to_owned()));
    match reading(Front::Terminal).poll_cleaning_up_io(error()) {
        AfterCleaningUpIo::Failed { newline, error } => {
            assert!(newline);
            assert_eq!(error, ConsoleError::Daemon("died".to_owned()));
        }
        other => panic!("{:?}", other),
    }
    match reading(Front::Streams).poll_cleaning_up_io(CleanupEvent::Failed("reset".to_owned())) {
        AfterCleaningUpIo::Failed { newline, error } => {
            assert!(!newline);
            assert_eq!(error, ConsoleError::Transport("reset".to_owned()));
        }
        other => panic!("{:?}", other),
    }
}

#[test]
fn how_to_connect_follows_from_the_path() {
    assert_eq!(
        plan_connection(Ok(b"/home/me/.ssh/stund.sock".to_vec())),
        Ok(ConnectPlan {
            path: b"/home/me/.ssh/stund.sock".to_vec(),
            linger_seconds: 2,
        })
    );
    assert_eq!(plan_connection(Err(NoHomeDirectory)), Err(NoHomeDirectory));
}

#[test]
fn input_that_is_held_at_the_end_is_dropped() {
    let (s, _) = tell(console_dialogue(Front::Terminal), DialogueEvent::NotReady);
    let (s, _) = tell(s, DialogueEvent::FromUser(b"x\n".to_vec()));
    let (s, _) = tell(s, DialogueEvent::Started);
    let (s, _) = tell(s, DialogueEvent::NotReady);
    let (s, request) = tell(s, DialogueEvent::FromUser(b".\n".to_vec()));
    assert_eq!(request, DialogueRequest::PollSend);
    assert_eq!(s.buf, b".\n".to_vec());
    match s.poll_communicating(DialogueEvent::Sent) {
        AfterCommunicating::CleaningUpIo(_, request) => assert_eq!(
            request,
            CleanupRequest::StartSend(ClientMessage::EndOfUserData)
        ),
        other => panic!("{:?}", other),
    }
}

#[test]
fn how_the_dialogue_begins() {
    assert_eq!(
        dialogue_begins::<String>(Front::Terminal),
        vec![
            ConsoleAction::Print(
                "[Begin SSH login; type \".\" on an empty line when login has succeeded.]".to_owned()
            ),
            ConsoleAction::Echo(false),
        ]
    );
    assert_eq!(dialogue_begins::<String>(Front::Streams), Vec::new());
}

#[test]
fn how_an_open_command_ends() {
    assert_eq!(
        new_open_ended::<String>(Ok(())),
        vec![
            ConsoleAction::Echo(true),
            ConsoleAction::Print("[Success]".to_owned()),
            ConsoleAction::Send(ClientMessage::Goodbye),
        ]
    );
    assert_eq!(
        new_open_ended(Err("died".to_owned())),
        vec![
            ConsoleAction::Echo(true),
            ConsoleAction::Fail("died".to_owned())
        ]
    );
}
