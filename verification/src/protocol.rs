//! The messages that a client and the daemon exchange, and the path of the
//! socket over which they do so.

use vstd::prelude::*;

use crate::text;

verus! {

/// A message that the client may send to the server.
///
/// Some messages are only allowed in certain contexts.
#[derive(Debug, PartialEq)]
pub enum ClientMessage {
    /// Open an SSH tunnel.
    Open(OpenParameters),
    /// User input to be sent to SSH.
    UserData(Vec<u8>),
    /// Close an existing tunnel.
    Close(CloseParameters),
    /// Ask the daemon about its status.
    QueryStatus,
    /// Tell the daemon to exit.
    Exit,
    /// End the session.
    Goodbye,
}

/// A message that the server may send to the client.
#[derive(Debug, PartialEq)]
pub enum ServerMessage {
    /// Success with whatever the client was asking for.
    Okay,
    /// An error with whatever the client was asking for.
    Error(String),
    /// Output from an SSH process to be reported to the user by the client.
    SshData(Vec<u8>),
    /// In response to an `Open` message: this tunnel is already open.
    TunnelAlreadyOpen,
    /// In response to a `Close` message: no such tunnel was open.
    TunnelNotOpen,
    /// In response to a `QueryStatus` message: the status of the server.
    StatusResponse(StatusInformation),
}

/// Parameters to the "Open" command.
///
/// Details like user names belong in the SSH configuration file, so the host
/// is all there is.
#[derive(Debug, PartialEq)]
pub struct OpenParameters {
    /// The host to which to connect.
    pub host: String,
}

/// Possible outcomes of the "Open" command, besides an error message.
#[derive(Clone, Copy, Debug, Eq, PartialEq, Structural)]
pub enum OpenResult {
    /// The tunnel was opened.
    Success,
    /// Nothing was done: a tunnel to the host was already open.
    AlreadyOpen,
}

/// Parameters to the "Close" command.
#[derive(Debug, PartialEq)]
pub struct CloseParameters {
    /// The host of the tunnel to be closed.
    pub host: String,
}

/// Possible outcomes of the "Close" command, besides an error message.
#[derive(Clone, Copy, Debug, Eq, PartialEq, Structural)]
pub enum CloseResult {
    /// The tunnel was closed.
    Success,
    /// Nothing was done: no tunnel to the host was open.
    NotOpen,
}

/// Information about the current status of the server.
#[derive(Debug, PartialEq)]
pub struct StatusInformation {
    /// The tunnels that have been opened during this server's lifetime,
    /// whether or not they are still open.
    pub tunnels: Vec<TunnelInformation>,
}

/// Information about a single tunnel opened by the server.
#[derive(Debug, PartialEq)]
pub struct TunnelInformation {
    /// The host at the other end of the tunnel.
    pub host: String,
    /// The current state of the SSH tunnel.
    pub state: TunnelState,
}

/// The state of a single tunnel opened by the server.
#[derive(Clone, Copy, Debug, Eq, PartialEq, Structural)]
pub enum TunnelState {
    /// The tunnel is currently open.
    Open,
    /// The tunnel was opened but then was manually closed.
    Closed,
    /// The tunnel was opened but died unexpectedly, be it for a dropped
    /// connection or because someone killed the SSH process.
    Died,
}

/// How the sending of a message is doing.
#[derive(Debug, PartialEq)]
pub enum SendEvent {
    /// It is not sent yet.
    Pending,
    /// It is sent.
    Sent,
    /// It cannot be sent.
    Failed(String),
}

/// What a [`ClientMessage`] says.
pub enum ClientMessageView {
    Open(Seq<char>),
    UserData(Seq<u8>),
    Close(Seq<char>),
    QueryStatus,
    Exit,
    Goodbye,
}

/// What a [`ServerMessage`] says. A status is the sequence of hosts, each
/// with the state of its tunnel.
pub enum ServerMessageView {
    Okay,
    Error(Seq<char>),
    SshData(Seq<u8>),
    TunnelAlreadyOpen,
    TunnelNotOpen,
    StatusResponse(Seq<(Seq<char>, TunnelState)>),
}

impl View for ClientMessage {
    type V = ClientMessageView;

    open spec fn view(&self) -> ClientMessageView {
        match self {
            ClientMessage::Open(p) => ClientMessageView::Open(p.host@),
            ClientMessage::UserData(d) => ClientMessageView::UserData(d@),
            ClientMessage::Close(p) => ClientMessageView::Close(p.host@),
            ClientMessage::QueryStatus => ClientMessageView::QueryStatus,
            ClientMessage::Exit => ClientMessageView::Exit,
            ClientMessage::Goodbye => ClientMessageView::Goodbye,
        }
    }
}

impl View for TunnelInformation {
    type V = (Seq<char>, TunnelState);

    open spec fn view(&self) -> (Seq<char>, TunnelState) {
        (self.host@, self.state)
    }
}

impl View for StatusInformation {
    type V = Seq<(Seq<char>, TunnelState)>;

    open spec fn view(&self) -> Seq<(Seq<char>, TunnelState)> {
        self.tunnels@.map_values(|t: TunnelInformation| t@)
    }
}

impl View for ServerMessage {
    type V = ServerMessageView;

    open spec fn view(&self) -> ServerMessageView {
        match self {
            ServerMessage::Okay => ServerMessageView::Okay,
            ServerMessage::Error(text) => ServerMessageView::Error(text@),
            ServerMessage::SshData(d) => ServerMessageView::SshData(d@),
            ServerMessage::TunnelAlreadyOpen => ServerMessageView::TunnelAlreadyOpen,
            ServerMessage::TunnelNotOpen => ServerMessageView::TunnelNotOpen,
            ServerMessage::StatusResponse(info) => ServerMessageView::StatusResponse(info@),
        }
    }
}

impl TunnelState {
    /// How a state is written.
    pub open spec fn text(self) -> Seq<char> {
        match self {
            TunnelState::Open => "Open"@,
            TunnelState::Closed => "Closed"@,
            TunnelState::Died => "Died"@,
        }
    }

    /// Write the state.
    pub fn show(&self) -> (text: String)
        ensures
            text@ == self.text(),
    {
        match self {
            TunnelState::Open => "Open".to_owned(),
            TunnelState::Closed => "Closed".to_owned(),
            TunnelState::Died => "Died".to_owned(),
        }
    }
}

/// How what is known of a tunnel is written in error messages.
pub open spec fn tunnel_text(tunnel: (Seq<char>, TunnelState)) -> Seq<char> {
    "TunnelInformation { host: "@ + text::quoted_text(tunnel.0) + ", state: "@ + tunnel.1.text()
        + " }"@
}

/// How what is known of some tunnels is written, with commas between them.
pub open spec fn tunnels_text(tunnels: Seq<(Seq<char>, TunnelState)>) -> Seq<char>
    decreases tunnels.len(),
{
    if tunnels.len() == 0 {
        Seq::empty()
    } else if tunnels.len() == 1 {
        tunnel_text(tunnels[0])
    } else {
        tunnels_text(tunnels.drop_last()) + ", "@ + tunnel_text(tunnels.last())
    }
}

impl ClientMessageView {
    /// How a message is written in error messages.
    pub open spec fn text(self) -> Seq<char> {
        match self {
            ClientMessageView::Open(host) => text::holding_text(
                "Open"@,
                text::host_text("OpenParameters"@, host),
            ),
            ClientMessageView::UserData(data) => text::holding_text(
                "UserData"@,
                text::bytes_text(data),
            ),
            ClientMessageView::Close(host) => text::holding_text(
                "Close"@,
                text::host_text("CloseParameters"@, host),
            ),
            ClientMessageView::QueryStatus => "QueryStatus"@,
            ClientMessageView::Exit => "Exit"@,
            ClientMessageView::Goodbye => "Goodbye"@,
        }
    }
}

impl ServerMessageView {
    /// How a message is written in error messages.
    pub open spec fn text(self) -> Seq<char> {
        match self {
            ServerMessageView::Okay => "Ok"@,
            ServerMessageView::Error(error) => text::holding_text(
                "Error"@,
                text::quoted_text(error),
            ),
            ServerMessageView::SshData(data) => text::holding_text(
                "SshData"@,
                text::bytes_text(data),
            ),
            ServerMessageView::TunnelAlreadyOpen => "TunnelAlreadyOpen"@,
            ServerMessageView::TunnelNotOpen => "TunnelNotOpen"@,
            ServerMessageView::StatusResponse(tunnels) => text::holding_text(
                "StatusResponse"@,
                "StatusInformation { tunnels: ["@ + tunnels_text(tunnels) + "] }"@,
            ),
        }
    }
}

impl ClientMessage {
    /// Write the message.
    pub fn show(&self) -> (shown: String)
        ensures
            shown@ == self@.text(),
    {
        match self {
            ClientMessage::Open(params) => text::show_holding(
                "Open",
                text::show_host("OpenParameters", &params.host),
            ),
            ClientMessage::UserData(data) => text::show_holding("UserData", text::show_bytes(data)),
            ClientMessage::Close(params) => text::show_holding(
                "Close",
                text::show_host("CloseParameters", &params.host),
            ),
            ClientMessage::QueryStatus => "QueryStatus".to_owned(),
            ClientMessage::Exit => "Exit".to_owned(),
            ClientMessage::Goodbye => "Goodbye".to_owned(),
        }
    }
}

impl StatusInformation {
    /// Write the status.
    fn show(&self) -> (shown: String)
        ensures
            shown@ == "StatusInformation { tunnels: ["@ + tunnels_text(self@) + "] }"@,
    {
        let mut line = "StatusInformation { tunnels: [".to_owned();
        let ghost head = line@;
        let mut i: usize = 0;
        proof {
            assert(line@ =~= head + tunnels_text(self@.take(0)));
        }
        while i < self.tunnels.len()
            invariant
                i <= self.tunnels.len(),
                line@ == head + tunnels_text(self@.take(i as int)),
            decreases self.tunnels.len() - i,
        {
            if i > 0 {
                line.append(", ");
            }
            line.append("TunnelInformation { host: ");
            line.append(text::quote(self.tunnels[i].host.as_str()).as_str());
            line.append(", state: ");
            line.append(self.tunnels[i].state.show().as_str());
            line.append(" }");
            proof {
                let upto = self@.take(i + 1);
                assert(upto.drop_last() =~= self@.take(i as int));
                assert(upto.last() == self.tunnels[i as int]@);
                assert(line@ =~= head + tunnels_text(upto));
            }
            i = i + 1;
        }
        proof {
            assert(self@.take(i as int) =~= self@);
        }
        line.append("] }");
        line
    }
}

impl ServerMessage {
    /// Write the message.
    pub fn show(&self) -> (shown: String)
        ensures
            shown@ == self@.text(),
    {
        match self {
            ServerMessage::Okay => "Ok".to_owned(),
            ServerMessage::Error(error) => text::show_holding("Error", text::quote(error.as_str())),
            ServerMessage::SshData(data) => text::show_holding("SshData", text::show_bytes(data)),
            ServerMessage::TunnelAlreadyOpen => "TunnelAlreadyOpen".to_owned(),
            ServerMessage::TunnelNotOpen => "TunnelNotOpen".to_owned(),
            ServerMessage::StatusResponse(info) => text::show_holding(
                "StatusResponse",
                info.show(),
            ),
        }
    }
}

/// A path with one more relative component at its end.
pub open spec fn joined(base: Seq<u8>, part: Seq<u8>) -> Seq<u8> {
    if base.len() == 0 || base.last() == 0x2F {
        base + part
    } else {
        base.push(0x2F) + part
    }
}

/// The path of a file of ours, below the home directory.
pub open spec fn path_of(home: Seq<u8>, name: Seq<char>) -> Seq<u8> {
    joined(joined(home, vstd::utf8::encode_utf8(".ssh"@)), vstd::utf8::encode_utf8(name))
}

/// The path of the socket, `$HOME/.ssh/stund.sock`.
pub open spec fn socket_path(home: Seq<u8>) -> Seq<u8> {
    path_of(home, "stund.sock"@)
}

/// The path of the daemon's log, which lies beside the socket.
pub open spec fn log_path(home: Seq<u8>) -> Seq<u8> {
    path_of(home, "stund.log"@)
}

/// For how many seconds a connection lingers when it is closed, so that the
/// last bytes of the session are not lost. That this cannot be had is no error.
pub const LINGER_SECONDS: i32 = 2;

/// There is no home directory to put the socket in.
#[derive(Clone, Copy, Debug, Eq, PartialEq, Structural)]
pub struct NoHomeDirectory;

impl NoHomeDirectory {
    /// What to tell the user.
    pub fn describe(&self) -> (text: String)
        ensures
            text@ == "unable to determine your home directory"@,
    {
        "unable to determine your home directory".to_owned()
    }
}

/// Calls `dirs::home_dir` and hands out the bytes of the path. Believed of
/// it: a path that it finds is not empty. Which path, if any, is up to the
/// environment.
#[verifier::external_body]
pub(crate) fn home_dir() -> (home: Option<Vec<u8>>)
    ensures
        home matches Some(path) ==> path@.len() > 0,
{
    dirs::home_dir().map(|path| path.into_os_string().into_encoded_bytes())
}

/// Append a relative component to a path.
fn join(base: &mut Vec<u8>, part: &str)
    ensures
        final(base)@ == joined(old(base)@, vstd::utf8::encode_utf8(part@)),
{
    if base.len() > 0 && base[base.len() - 1] != 0x2F {
        base.push(0x2F);
    }
    base.extend_from_slice(part.as_bytes());
}

/// The path of a file of ours, when the home directory is known.
fn file_in(home: &Vec<u8>, name: &str) -> (path: Vec<u8>)
    ensures
        path@ == path_of(home@, name@),
{
    let mut path = home.clone();
    join(&mut path, ".ssh");
    join(&mut path, name);
    path
}

/// The path of the socket, when the home directory is known.
pub fn socket_path_in(home: &Vec<u8>) -> (path: Vec<u8>)
    ensures
        path@ == socket_path(home@),
{
    file_in(home, "stund.sock")
}

/// The path of the daemon's log, when the home directory is known.
pub fn log_path_in(home: &Vec<u8>) -> (path: Vec<u8>)
    ensures
        path@ == log_path(home@),
{
    file_in(home, "stund.log")
}

/// The path of the socket, if a home directory was found.
pub fn socket_path_found(home: Option<Vec<u8>>) -> (path: Result<Vec<u8>, NoHomeDirectory>)
    ensures
        match home {
            Some(h) => path matches Ok(p) && p@ == socket_path(h@),
            None => path == Err::<Vec<u8>, NoHomeDirectory>(NoHomeDirectory),
        },
{
    match home {
        Some(home) => Ok(socket_path_in(&home)),
        None => Err(NoHomeDirectory),
    }
}

/// Get the path to the Unix domain socket used for client/server communication.
///
/// It is fixed to `$HOME/.ssh/stund.sock`. Whether there is a home directory is
/// up to the environment; [`socket_path_found`] says what follows either way.
pub fn get_socket_path() -> (path: Result<Vec<u8>, NoHomeDirectory>)
    ensures
        path matches Ok(p) ==> exists|home: Seq<u8>|
            home.len() > 0 && p@ == #[trigger] socket_path(home),
{
    socket_path_found(home_dir())
}

/// The log has the path of the socket, but for the extension.
pub proof fn law_log_beside_socket(home: Seq<u8>)
    ensures
        exists|base: Seq<u8>|
            {
                &&& socket_path(home) == #[trigger] (base + vstd::utf8::encode_utf8("sock"@))
                &&& log_path(home) == base + vstd::utf8::encode_utf8("log"@)
            },
{
    reveal_strlit("stund.sock");
    reveal_strlit("stund.log");
    reveal_strlit("sock");
    reveal_strlit("log");
    vstd::utf8::is_ascii_chars_encode_utf8("stund.sock"@);
    vstd::utf8::is_ascii_chars_encode_utf8("stund.log"@);
    vstd::utf8::is_ascii_chars_encode_utf8("sock"@);
    vstd::utf8::is_ascii_chars_encode_utf8("log"@);
    let socket = socket_path(home);
    let base = socket.take(socket.len() - 4);
    assert(socket =~= base + vstd::utf8::encode_utf8("sock"@));
    assert(log_path(home) =~= base + vstd::utf8::encode_utf8("log"@));
}

} // verus!
