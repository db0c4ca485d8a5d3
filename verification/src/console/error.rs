//! What can go wrong in a console session.

use vstd::prelude::*;

use crate::console::protocol::{ServerMessage, ServerMessageView};
use crate::text::both;

verus! {

/// Why a console session fails.
#[derive(Debug, PartialEq)]
pub enum ConsoleError {
    /// The daemon reported an error.
    Daemon(String),
    /// The daemon's first reply makes no sense.
    UnexpectedResponse(ServerMessage),
    /// The daemon said something out of place in the login dialogue.
    UnexpectedMessage(ServerMessage),
    /// The daemon hung up before the login dialogue.
    ConnectionClosed,
    /// The user's input ended.
    TerminalEof,
    /// The user's input could not be read.
    TerminalError,
    /// The connection, or the terminal, failed.
    Transport(String),
}

/// What a [`ConsoleError`] says.
pub enum ConsoleErrorView {
    Daemon(Seq<char>),
    UnexpectedResponse(ServerMessageView),
    UnexpectedMessage(ServerMessageView),
    ConnectionClosed,
    TerminalEof,
    TerminalError,
    Transport(Seq<char>),
}

impl View for ConsoleError {
    type V = ConsoleErrorView;

    open spec fn view(&self) -> ConsoleErrorView {
        match self {
            ConsoleError::Daemon(text) => ConsoleErrorView::Daemon(text@),
            ConsoleError::UnexpectedResponse(msg) => ConsoleErrorView::UnexpectedResponse(msg@),
            ConsoleError::UnexpectedMessage(msg) => ConsoleErrorView::UnexpectedMessage(msg@),
            ConsoleError::ConnectionClosed => ConsoleErrorView::ConnectionClosed,
            ConsoleError::TerminalEof => ConsoleErrorView::TerminalEof,
            ConsoleError::TerminalError => ConsoleErrorView::TerminalError,
            ConsoleError::Transport(cause) => ConsoleErrorView::Transport(cause@),
        }
    }
}

impl ConsoleError {
    /// What to tell the user.
    pub fn describe(&self) -> (text: String)
        ensures
            text@ == match self {
                ConsoleError::Daemon(text) => text@,
                ConsoleError::UnexpectedResponse(msg) =>
                    "unexpected response from daemon: "@ + msg@.text(),
                ConsoleError::UnexpectedMessage(msg) =>
                    "unexpected message from the daemon: "@ + msg@.text(),
                ConsoleError::ConnectionClosed => "connection closed (?)"@,
                ConsoleError::TerminalEof => "EOF on terminal (?)"@,
                ConsoleError::TerminalError => "error reading from the terminal"@,
                ConsoleError::Transport(cause) => cause@,
            },
    {
        match self {
            ConsoleError::Daemon(text) => text.clone(),
            ConsoleError::UnexpectedResponse(msg) =>
                both("unexpected response from daemon: ", &msg.show()),
            ConsoleError::UnexpectedMessage(msg) =>
                both("unexpected message from the daemon: ", &msg.show()),
            ConsoleError::ConnectionClosed => "connection closed (?)".to_owned(),
            ConsoleError::TerminalEof => "EOF on terminal (?)".to_owned(),
            ConsoleError::TerminalError => "error reading from the terminal".to_owned(),
            ConsoleError::Transport(cause) => cause.clone(),
        }
    }
}

} // verus!
