//! An established connection: which commands it carries, and what the
//! daemon's replies to them mean.

use vstd::prelude::*;

use crate::client::error::{ClientError, ClientErrorView};
use crate::client::open::Issue;
use crate::protocol::{
    ClientMessage, ClientMessageView, CloseParameters, CloseResult, OpenParameters, ServerMessage,
    ServerMessageView, StatusInformation,
};

verus! {

/// A connection to the daemon over which the next command may be sent.
#[derive(Debug)]
pub struct Connection {}

/// A connection over which a close command is on its way.
#[derive(Debug)]
pub struct PendingClose {}

/// A connection over which an exit command is on its way.
#[derive(Debug)]
pub struct PendingExit {}

/// A connection over which a status query is on its way.
#[derive(Debug)]
pub struct PendingStatus {}

/// What came back from the daemon.
#[derive(Debug, PartialEq)]
pub enum Reply {
    /// A message.
    Message(ServerMessage),
    /// The daemon hung up.
    Disconnected,
    /// The message could not be received.
    Failed(String),
}

/// What a [`Reply`] says.
pub enum ReplyView {
    Message(ServerMessageView),
    Disconnected,
    Failed(Seq<char>),
}

impl View for Reply {
    type V = ReplyView;

    open spec fn view(&self) -> ReplyView {
        match self {
            Reply::Message(msg) => ReplyView::Message(msg@),
            Reply::Disconnected => ReplyView::Disconnected,
            Reply::Failed(cause) => ReplyView::Failed(cause@),
        }
    }
}

impl ReplyView {
    /// The error that a reply stands for, to a command that it does not answer.
    pub open spec fn error(self) -> ClientErrorView {
        match self {
            ReplyView::Message(ServerMessageView::Error(text)) => ClientErrorView::Daemon(text),
            ReplyView::Message(msg) => ClientErrorView::UnexpectedReply(msg),
            ReplyView::Disconnected => ClientErrorView::Disconnected,
            ReplyView::Failed(cause) => ClientErrorView::Receiving(cause),
        }
    }

    /// The outcome of a close command, if the reply tells of one.
    pub open spec fn close_result(self) -> Option<CloseResult> {
        match self {
            ReplyView::Message(ServerMessageView::Okay) => Some(CloseResult::Success),
            ReplyView::Message(ServerMessageView::TunnelNotOpen) => Some(CloseResult::NotOpen),
            _ => None,
        }
    }
}

impl Reply {
    /// The error that the reply stands for.
    fn into_error(self) -> (e: ClientError)
        ensures
            e@ == self@.error(),
    {
        match self {
            Reply::Message(ServerMessage::Error(text)) => ClientError::Daemon(text),
            Reply::Message(msg) => ClientError::UnexpectedReply(msg),
            Reply::Disconnected => ClientError::Disconnected,
            Reply::Failed(cause) => ClientError::Receiving(cause),
        }
    }
}

impl Connection {
    /// End the session: say goodbye.
    pub fn close(self) -> (msg: ClientMessage)
        ensures
            msg@ == ClientMessageView::Goodbye,
    {
        ClientMessage::Goodbye
    }

    /// Ask for a tunnel to be opened. The user takes part in the login
    /// dialogue only if `read_input` says so.
    pub fn send_open(self, params: OpenParameters, read_input: bool) -> (r: (Issue, ClientMessage))
        ensures
            r.0.read_input == read_input,
            r.1@ == ClientMessageView::Open(params.host@),
    {
        (Issue { read_input }, ClientMessage::Open(params))
    }

    /// Ask for a tunnel to be closed.
    pub fn send_close(self, params: CloseParameters) -> (r: (PendingClose, ClientMessage))
        ensures
            r.1@ == ClientMessageView::Close(params.host@),
    {
        (PendingClose {  }, ClientMessage::Close(params))
    }

    /// Tell the daemon to exit.
    pub fn send_exit(self) -> (r: (PendingExit, ClientMessage))
        ensures
            r.1@ == ClientMessageView::Exit,
    {
        (PendingExit {  }, ClientMessage::Exit)
    }

    /// Ask for the daemon's status.
    pub fn query_status(self) -> (r: (PendingStatus, ClientMessage))
        ensures
            r.1@ == ClientMessageView::QueryStatus,
    {
        (PendingStatus {  }, ClientMessage::QueryStatus)
    }
}

impl PendingClose {
    /// The command could not be sent.
    pub fn send_failed(self, cause: String) -> (e: ClientError)
        ensures
            e@ == ClientErrorView::SendingClose(cause@),
    {
        ClientError::SendingClose(cause)
    }

    /// What the daemon's reply means.
    pub fn reply(self, reply: Reply) -> (r: Result<(CloseResult, Connection), ClientError>)
        ensures
            match reply@.close_result() {
                Some(result) => r matches Ok((got, _)) && got == result,
                None => r matches Err(e) && e@ == reply@.error(),
            },
    {
        match reply {
            Reply::Message(ServerMessage::Okay) => Ok((CloseResult::Success, Connection {  })),
            Reply::Message(ServerMessage::TunnelNotOpen) => Ok(
                (CloseResult::NotOpen, Connection {  }),
            ),
            other => Err(other.into_error()),
        }
    }
}

impl PendingExit {
    /// The command could not be sent.
    pub fn send_failed(self, cause: String) -> (e: ClientError)
        ensures
            e@ == ClientErrorView::SendingExit(cause@),
    {
        ClientError::SendingExit(cause)
    }

    /// What the daemon's reply means.
    pub fn reply(self, reply: Reply) -> (r: Result<Connection, ClientError>)
        ensures
            if reply@ == ReplyView::Message(ServerMessageView::Okay) {
                r is Ok
            } else {
                r matches Err(e) && e@ == reply@.error()
            },
    {
        match reply {
            Reply::Message(ServerMessage::Okay) => Ok(Connection {  }),
            other => Err(other.into_error()),
        }
    }
}

impl PendingStatus {
    /// The query could not be sent.
    pub fn send_failed(self, cause: String) -> (e: ClientError)
        ensures
            e@ == ClientErrorView::SendingQuery(cause@),
    {
        ClientError::SendingQuery(cause)
    }

    /// What the daemon's reply means.
    pub fn reply(self, reply: Reply) -> (r: Result<(StatusInformation, Connection), ClientError>)
        ensures
            match reply@ {
                ReplyView::Message(ServerMessageView::StatusResponse(info)) => r matches Ok((got, _))
                    && got@ == info,
                other => r matches Err(e) && e@ == other.error(),
            },
    {
        match reply {
            Reply::Message(ServerMessage::StatusResponse(info)) => Ok((info, Connection {  })),
            other => Err(other.into_error()),
        }
    }
}

} // verus!
