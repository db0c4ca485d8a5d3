use stund::daemon::log::LogEntry;
use stund::daemon::monitor::ChildEvent;
use stund::protocol::{ClientMessage, CloseParameters, OpenParameters, ServerMessage};

fn host() -> String {
    "example.org".to_owned()
}

#[test]
fn every_line_of_the_log() {
    let why = || "why".to_owned();
    for (entry, line) in [
        (LogEntry::StartingUp, "starting up"),
        (LogEntry::Signal(15), "exiting on signal 15"),
        (LogEntry::AcceptError(why()), "accept error: why"),
        (
            LogEntry::OpenCommand(host()),
            "got command to spawn SSH for example.org",
        ),
        (
            LogEntry::AlreadyOpen,
            "tunnel already open -- notifying client",
        ),
        (
            LogEntry::CloseCommand(host()),
            "got command to close tunnel SSH for example.org",
        ),
        (LogEntry::NotOpen, "no such tunnel -- notifying client"),
        (
            LogEntry::ExitCommand,
            "commanded to exit after client disconnects",
        ),
        (
            LogEntry::KillOrdered(host()),
            "ordered to kill SSH child for example.org",
        ),
        (
            LogEntry::ChildDied {
                host: host(),
                status: "ExitStatus(1)".to_owned(),
            },
            "SSH child for example.org unexpectedly died: ExitStatus(1)",
        ),
        (LogEntry::SshOutput("b\"x\"".to_owned()), "SSH: b\"x\""),
        (LogEntry::SshError(why()), "error polling SSH: why"),
        (
            LogEntry::SessionFinished { exit_on_close: true },
            "client session finished (exit? true)",
        ),
        (
            LogEntry::SessionFinished {
                exit_on_close: false,
            },
            "client session finished (exit? false)",
        ),
        (
            LogEntry::SessionFailed(why()),
            "error from client session: why",
        ),
    ] {
        assert_eq!(entry.line(), line);
    }
}

#[test]
fn which_commands_are_logged() {
    assert_eq!(
        LogEntry::of_command(&Some(ClientMessage::Open(OpenParameters { host: host() }))),
        Some(LogEntry::OpenCommand(host()))
    );
    assert_eq!(
        LogEntry::of_command(&Some(ClientMessage::Close(CloseParameters { host: host() }))),
        Some(LogEntry::CloseCommand(host()))
    );
    assert_eq!(
        LogEntry::of_command(&Some(ClientMessage::Exit)),
        Some(LogEntry::ExitCommand)
    );
    assert_eq!(LogEntry::of_command(&Some(ClientMessage::Goodbye)), None);
    assert_eq!(LogEntry::of_command(&None), None);
}

#[test]
fn which_replies_are_logged() {
    assert_eq!(
        LogEntry::of_reply(&ServerMessage::TunnelAlreadyOpen),
        Some(LogEntry::AlreadyOpen)
    );
    assert_eq!(
        LogEntry::of_reply(&ServerMessage::TunnelNotOpen),
        Some(LogEntry::NotOpen)
    );
    assert_eq!(LogEntry::of_reply(&ServerMessage::Okay), None);
}

#[test]
fn which_news_of_ssh_is_logged() {
    let status = || "status".to_owned();
    assert_eq!(
        LogEntry::of_child(&host(), ChildEvent::ChildExited(1), status()),
        Some(LogEntry::ChildDied {
            host: host(),
            status: status()
        })
    );
    assert_eq!(
        LogEntry::of_child(&host(), ChildEvent::KillOrdered, status()),
        Some(LogEntry::KillOrdered(host()))
    );
    assert_eq!(
        LogEntry::of_child(&host(), ChildEvent::ChildPending, status()),
        None
    );
}

#[test]
fn how_the_end_of_a_session_is_logged() {
    assert_eq!(
        LogEntry::of_session(Ok(true)),
        LogEntry::SessionFinished { exit_on_close: true }
    );
    assert_eq!(
        LogEntry::of_session(Err("why".to_owned())),
        LogEntry::SessionFailed("why".to_owned())
    );
}
