//! The messages of the console variant.

use vstd::prelude::*;

use crate::text;

verus! {

/// A message that the client may send to the daemon.
#[derive(Debug, PartialEq)]
pub enum ClientMessage {
    /// Open an SSH tunnel.
    Open(OpenParameters),
    /// User input to be sent to SSH.
    UserData(Vec<u8>),
    /// User input has concluded.
    EndOfUserData,
    /// Tell the daemon to exit.
    Exit,
    /// End the session.
    Goodbye,
}

/// A message that the daemon may send to the client.
#[derive(Debug, PartialEq)]
pub enum ServerMessage {
    /// Success.
    Okay,
    /// Output from SSH.
    SshData(Vec<u8>),
    /// An error.
    Error(String),
}

/// Parameters to the "Open" command.
#[derive(Debug, PartialEq)]
pub struct OpenParameters {
    /// The host to which to connect.
    pub host: String,
}

/// What a [`ClientMessage`] says.
pub enum ClientMessageView {
    Open(Seq<char>),
    UserData(Seq<u8>),
    EndOfUserData,
    Exit,
    Goodbye,
}

/// What a [`ServerMessage`] says.
pub enum ServerMessageView {
    Okay,
    SshData(Seq<u8>),
    Error(Seq<char>),
}

impl View for ClientMessage {
    type V = ClientMessageView;

    open spec fn view(&self) -> ClientMessageView {
        match self {
            ClientMessage::Open(p) => ClientMessageView::Open(p.host@),
            ClientMessage::UserData(d) => ClientMessageView::UserData(d@),
            ClientMessage::EndOfUserData => ClientMessageView::EndOfUserData,
            ClientMessage::Exit => ClientMessageView::Exit,
            ClientMessage::Goodbye => ClientMessageView::Goodbye,
        }
    }
}

impl View for ServerMessage {
    type V = ServerMessageView;

    open spec fn view(&self) -> ServerMessageView {
        match self {
            ServerMessage::Okay => ServerMessageView::Okay,
            ServerMessage::SshData(d) => ServerMessageView::SshData(d@),
            ServerMessage::Error(text) => ServerMessageView::Error(text@),
        }
    }
}

impl ServerMessageView {
    /// How a message is written in error messages.
    pub open spec fn text(self) -> Seq<char> {
        match self {
            ServerMessageView::Okay => "Ok"@,
            ServerMessageView::SshData(data) => text::holding_text(
                "SshData"@,
                text::bytes_text(data),
            ),
            ServerMessageView::Error(error) => text::holding_text(
                "Error"@,
                text::quoted_text(error),
            ),
        }
    }
}

impl ServerMessage {
    /// Write the message.
    pub fn show(&self) -> (shown: String)
        ensures
            shown@ == self@.text(),
    {
        match self {
            ServerMessage::Okay => "Ok".to_owned(),
            ServerMessage::SshData(data) => text::show_holding("SshData", text::show_bytes(data)),
            ServerMessage::Error(error) => text::show_holding("Error", text::quote(error.as_str())),
        }
    }
}

} // verus!
