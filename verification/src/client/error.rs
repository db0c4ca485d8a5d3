//! What can go wrong in a conversation with the daemon.

use vstd::prelude::*;

use crate::protocol::{ServerMessage, ServerMessageView};
use crate::text::both;

verus! {

/// Why a command fails.
#[derive(Debug, PartialEq)]
pub enum ClientError {
    /// The close command could not be sent.
    SendingClose(String),
    /// The exit command could not be sent.
    SendingExit(String),
    /// The status query could not be sent.
    SendingQuery(String),
    /// The daemon's reply could not be received.
    Receiving(String),
    /// The daemon reported an error.
    Daemon(String),
    /// The daemon's reply makes no sense.
    UnexpectedReply(ServerMessage),
    /// The daemon's first reply to the open command makes no sense.
    UnexpectedResponse(ServerMessage),
    /// The daemon said something out of place in the login dialogue.
    UnexpectedMessage(ServerMessage),
    /// The daemon hung up instead of replying.
    Disconnected,
    /// The daemon hung up before the login dialogue.
    ConnectionClosed,
    /// The user's input ended in the login dialogue.
    TerminalEof,
    /// The connection, or the terminal, failed.
    Transport(String),
}

/// What a [`ClientError`] says.
pub enum ClientErrorView {
    SendingClose(Seq<char>),
    SendingExit(Seq<char>),
    SendingQuery(Seq<char>),
    Receiving(Seq<char>),
    Daemon(Seq<char>),
    UnexpectedReply(ServerMessageView),
    UnexpectedResponse(ServerMessageView),
    UnexpectedMessage(ServerMessageView),
    Disconnected,
    ConnectionClosed,
    TerminalEof,
    Transport(Seq<char>),
}

impl View for ClientError {
    type V = ClientErrorView;

    open spec fn view(&self) -> ClientErrorView {
        match self {
            ClientError::SendingClose(cause) => ClientErrorView::SendingClose(cause@),
            ClientError::SendingExit(cause) => ClientErrorView::SendingExit(cause@),
            ClientError::SendingQuery(cause) => ClientErrorView::SendingQuery(cause@),
            ClientError::Receiving(cause) => ClientErrorView::Receiving(cause@),
            ClientError::Daemon(text) => ClientErrorView::Daemon(text@),
            ClientError::UnexpectedReply(msg) => ClientErrorView::UnexpectedReply(msg@),
            ClientError::UnexpectedResponse(msg) => ClientErrorView::UnexpectedResponse(msg@),
            ClientError::UnexpectedMessage(msg) => ClientErrorView::UnexpectedMessage(msg@),
            ClientError::Disconnected => ClientErrorView::Disconnected,
            ClientError::ConnectionClosed => ClientErrorView::ConnectionClosed,
            ClientError::TerminalEof => ClientErrorView::TerminalEof,
            ClientError::Transport(cause) => ClientErrorView::Transport(cause@),
        }
    }
}

impl ClientErrorView {
    /// What the user is told.
    pub open spec fn text(self) -> Seq<char> {
        match self {
            ClientErrorView::SendingClose(cause) => "error sending close message to daemon: "@
                + cause,
            ClientErrorView::SendingExit(cause) => "error sending exit message to daemon: "@
                + cause,
            ClientErrorView::SendingQuery(cause) => "error sending status query to daemon: "@
                + cause,
            ClientErrorView::Receiving(cause) => "error receiving daemon reply: "@ + cause,
            ClientErrorView::Daemon(text) => text,
            ClientErrorView::UnexpectedReply(msg) => "unexpected server reply: "@ + msg.text(),
            ClientErrorView::UnexpectedResponse(msg) =>
                "unexpected response from daemon: "@ + msg.text(),
            ClientErrorView::UnexpectedMessage(msg) =>
                "unexpected message from the daemon: "@ + msg.text(),
            ClientErrorView::Disconnected => "unexpected disconnection from server"@,
            ClientErrorView::ConnectionClosed => "connection closed (?)"@,
            ClientErrorView::TerminalEof => "EOF on terminal (?)"@,
            ClientErrorView::Transport(cause) => cause,
        }
    }
}

impl ClientError {
    /// What to tell the user.
    pub fn describe(&self) -> (text: String)
        ensures
            text@ == self@.text(),
    {
        match self {
            ClientError::SendingClose(cause) => both(
                "error sending close message to daemon: ",
                cause,
            ),
            ClientError::SendingExit(cause) => both("error sending exit message to daemon: ", cause),
            ClientError::SendingQuery(cause) => both(
                "error sending status query to daemon: ",
                cause,
            ),
            ClientError::Receiving(cause) => both("error receiving daemon reply: ", cause),
            ClientError::Daemon(text) => text.clone(),
            ClientError::UnexpectedReply(msg) => both("unexpected server reply: ", &msg.show()),
            ClientError::UnexpectedResponse(msg) =>
                both("unexpected response from daemon: ", &msg.show()),
            ClientError::UnexpectedMessage(msg) =>
                both("unexpected message from the daemon: ", &msg.show()),
            ClientError::Disconnected => "unexpected disconnection from server".to_owned(),
            ClientError::ConnectionClosed => "connection closed (?)".to_owned(),
            ClientError::TerminalEof => "EOF on terminal (?)".to_owned(),
            ClientError::Transport(cause) => cause.clone(),
        }
    }
}

} // verus!
