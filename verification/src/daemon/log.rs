//! What the daemon writes to its log, one line per entry.

use vstd::prelude::*;

use crate::daemon::monitor::ChildEvent;
use crate::protocol::{ClientMessage, ClientMessageView, ServerMessage, ServerMessageView};
use crate::text;

verus! {

/// An entry of the log. Where it holds the text of an error, an exit status or
/// some output, the text is as the system shows it.
#[derive(Debug, PartialEq)]
pub enum LogEntry {
    /// The daemon begins to serve.
    StartingUp,
    /// A signal arrived on which the daemon exits.
    Signal(i32),
    /// No more clients can be accepted.
    AcceptError(String),
    /// A client asked for a tunnel to be opened.
    OpenCommand(String),
    /// The tunnel is open already.
    AlreadyOpen,
    /// A client asked for a tunnel to be closed.
    CloseCommand(String),
    /// There is no such tunnel to close.
    NotOpen,
    /// A client asked the daemon to exit.
    ExitCommand,
    /// An SSH process is to be killed.
    KillOrdered(String),
    /// An SSH process exited by itself.
    ChildDied { host: String, status: String },
    /// SSH printed something after the login.
    SshOutput(String),
    /// SSH's output can no longer be read.
    SshError(String),
    /// A client's session ended as it should.
    SessionFinished { exit_on_close: bool },
    /// A client's session broke down.
    SessionFailed(String),
}

/// What a [`LogEntry`] says.
pub enum LogEntryView {
    StartingUp,
    Signal(i32),
    AcceptError(Seq<char>),
    OpenCommand(Seq<char>),
    AlreadyOpen,
    CloseCommand(Seq<char>),
    NotOpen,
    ExitCommand,
    KillOrdered(Seq<char>),
    ChildDied { host: Seq<char>, status: Seq<char> },
    SshOutput(Seq<char>),
    SshError(Seq<char>),
    SessionFinished { exit_on_close: bool },
    SessionFailed(Seq<char>),
}

impl View for LogEntry {
    type V = LogEntryView;

    open spec fn view(&self) -> LogEntryView {
        match self {
            LogEntry::StartingUp => LogEntryView::StartingUp,
            LogEntry::Signal(number) => LogEntryView::Signal(*number),
            LogEntry::AcceptError(cause) => LogEntryView::AcceptError(cause@),
            LogEntry::OpenCommand(host) => LogEntryView::OpenCommand(host@),
            LogEntry::AlreadyOpen => LogEntryView::AlreadyOpen,
            LogEntry::CloseCommand(host) => LogEntryView::CloseCommand(host@),
            LogEntry::NotOpen => LogEntryView::NotOpen,
            LogEntry::ExitCommand => LogEntryView::ExitCommand,
            LogEntry::KillOrdered(host) => LogEntryView::KillOrdered(host@),
            LogEntry::ChildDied { host, status } => LogEntryView::ChildDied {
                host: host@,
                status: status@,
            },
            LogEntry::SshOutput(bytes) => LogEntryView::SshOutput(bytes@),
            LogEntry::SshError(cause) => LogEntryView::SshError(cause@),
            LogEntry::SessionFinished { exit_on_close } => LogEntryView::SessionFinished {
                exit_on_close: *exit_on_close,
            },
            LogEntry::SessionFailed(cause) => LogEntryView::SessionFailed(cause@),
        }
    }
}

impl LogEntryView {
    /// The line that is written.
    pub open spec fn text(self) -> Seq<char> {
        match self {
            LogEntryView::StartingUp => "starting up"@,
            LogEntryView::Signal(number) => "exiting on signal "@ + text::signed_text(
                number as int,
            ),
            LogEntryView::AcceptError(cause) => "accept error: "@ + cause,
            LogEntryView::OpenCommand(host) => "got command to spawn SSH for "@ + host,
            LogEntryView::AlreadyOpen => "tunnel already open -- notifying client"@,
            LogEntryView::CloseCommand(host) => "got command to close tunnel SSH for "@ + host,
            LogEntryView::NotOpen => "no such tunnel -- notifying client"@,
            LogEntryView::ExitCommand => "commanded to exit after client disconnects"@,
            LogEntryView::KillOrdered(host) => "ordered to kill SSH child for "@ + host,
            LogEntryView::ChildDied { host, status } => "SSH child for "@ + host
                + " unexpectedly died: "@ + status,
            LogEntryView::SshOutput(bytes) => "SSH: "@ + bytes,
            LogEntryView::SshError(cause) => "error polling SSH: "@ + cause,
            LogEntryView::SessionFinished { exit_on_close } => if exit_on_close {
                "client session finished (exit? true)"@
            } else {
                "client session finished (exit? false)"@
            },
            LogEntryView::SessionFailed(cause) => "error from client session: "@ + cause,
        }
    }

    /// The entry about a client's command, if there is one.
    pub open spec fn of_command(msg: Option<ClientMessageView>) -> Option<LogEntryView> {
        match msg {
            Some(ClientMessageView::Open(host)) => Some(LogEntryView::OpenCommand(host)),
            Some(ClientMessageView::Close(host)) => Some(LogEntryView::CloseCommand(host)),
            Some(ClientMessageView::Exit) => Some(LogEntryView::ExitCommand),
            _ => None,
        }
    }

    /// The entry about the reply to a client's command, if there is one.
    pub open spec fn of_reply(reply: ServerMessageView) -> Option<LogEntryView> {
        match reply {
            ServerMessageView::TunnelAlreadyOpen => Some(LogEntryView::AlreadyOpen),
            ServerMessageView::TunnelNotOpen => Some(LogEntryView::NotOpen),
            _ => None,
        }
    }

    /// The entry about news of the SSH process for `host`, if there is one.
    /// `status` is how the exit status is shown.
    pub open spec fn of_child(host: Seq<char>, event: ChildEvent, status: Seq<char>) -> Option<
        LogEntryView,
    > {
        match event {
            ChildEvent::ChildExited(_) => Some(LogEntryView::ChildDied { host, status }),
            ChildEvent::KillOrdered => Some(LogEntryView::KillOrdered(host)),
            _ => None,
        }
    }
}

/// What an entry says, if there is one.
pub open spec fn entry_view(entry: Option<LogEntry>) -> Option<LogEntryView> {
    match entry {
        Some(e) => Some(e@),
        None => None,
    }
}

impl LogEntry {
    /// Compose the line to be written.
    pub fn line(&self) -> (line: String)
        ensures
            line@ == self@.text(),
    {
        match self {
            LogEntry::StartingUp => "starting up".to_owned(),
            LogEntry::Signal(number) => text::both(
                "exiting on signal ",
                &text::show_signed(*number),
            ),
            LogEntry::AcceptError(cause) => text::both("accept error: ", cause),
            LogEntry::OpenCommand(host) => text::both("got command to spawn SSH for ", host),
            LogEntry::AlreadyOpen => "tunnel already open -- notifying client".to_owned(),
            LogEntry::CloseCommand(host) => text::both(
                "got command to close tunnel SSH for ",
                host,
            ),
            LogEntry::NotOpen => "no such tunnel -- notifying client".to_owned(),
            LogEntry::ExitCommand => "commanded to exit after client disconnects".to_owned(),
            LogEntry::KillOrdered(host) => text::both("ordered to kill SSH child for ", host),
            LogEntry::ChildDied { host, status } => {
                let mut line = text::both("SSH child for ", host);
                line.append(" unexpectedly died: ");
                line.append(status.as_str());
                line
            },
            LogEntry::SshOutput(bytes) => text::both("SSH: ", bytes),
            LogEntry::SshError(cause) => text::both("error polling SSH: ", cause),
            LogEntry::SessionFinished { exit_on_close } => if *exit_on_close {
                "client session finished (exit? true)".to_owned()
            } else {
                "client session finished (exit? false)".to_owned()
            },
            LogEntry::SessionFailed(cause) => text::both("error from client session: ", cause),
        }
    }

    /// The entry about a client's command, if there is one. `None` stands for the
    /// end of the connection.
    pub fn of_command(msg: &Option<ClientMessage>) -> (entry: Option<LogEntry>)
        ensures
            entry_view(entry) == LogEntryView::of_command(
                match msg {
                    Some(m) => Some(m@),
                    None => None,
                },
            ),
    {
        match msg {
            Some(ClientMessage::Open(params)) => Some(LogEntry::OpenCommand(params.host.clone())),
            Some(ClientMessage::Close(params)) => Some(LogEntry::CloseCommand(params.host.clone())),
            Some(ClientMessage::Exit) => Some(LogEntry::ExitCommand),
            _ => None,
        }
    }

    /// The entry about the reply to a client's command, if there is one.
    pub fn of_reply(reply: &ServerMessage) -> (entry: Option<LogEntry>)
        ensures
            entry_view(entry) == LogEntryView::of_reply(reply@),
    {
        match reply {
            ServerMessage::TunnelAlreadyOpen => Some(LogEntry::AlreadyOpen),
            ServerMessage::TunnelNotOpen => Some(LogEntry::NotOpen),
            _ => None,
        }
    }

    /// The entry about news of the SSH process for `host`, if there is one.
    pub fn of_child(host: &String, event: ChildEvent, status: String) -> (entry: Option<LogEntry>)
        ensures
            entry_view(entry) == LogEntryView::of_child(host@, event, status@),
    {
        match event {
            ChildEvent::ChildExited(_) => Some(LogEntry::ChildDied { host: host.clone(), status }),
            ChildEvent::KillOrdered => Some(LogEntry::KillOrdered(host.clone())),
            _ => None,
        }
    }

    /// The entry about the end of a session: whether the daemon is to exit, or
    /// why the session broke down.
    pub fn of_session(outcome: Result<bool, String>) -> (entry: LogEntry)
        ensures
            entry@ == match outcome {
                Ok(exit_on_close) => LogEntryView::SessionFinished { exit_on_close },
                Err(cause) => LogEntryView::SessionFailed(cause@),
            },
    {
        match outcome {
            Ok(exit_on_close) => LogEntry::SessionFinished { exit_on_close },
            Err(cause) => LogEntry::SessionFailed(cause),
        }
    }
}

} // verus!
