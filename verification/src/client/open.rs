//! Opening a tunnel: the open command, and the login dialogue that follows it.

use vstd::prelude::*;

use crate::client::connection::Connection;
use crate::client::error::{ClientError, ClientErrorView};
use crate::protocol::{
    ClientMessage, ClientMessageView, OpenResult, SendEvent, ServerMessage, ServerMessageView,
};

verus! {

/// The open command is being sent.
#[derive(Debug)]
pub struct Issue {
    /// The user takes part in the login dialogue.
    pub read_input: bool,
}

/// The daemon is about to start SSH.
#[derive(Debug)]
pub struct FirstAck {
    /// The user takes part in the login dialogue.
    pub read_input: bool,
    /// The daemon said that SSH is running.
    pub saw_ok: bool,
}

/// News from the daemon.
#[derive(Debug, PartialEq)]
pub enum DaemonEvent {
    /// There is none.
    NotReady,
    /// A message.
    Message(ServerMessage),
    /// The daemon hung up.
    Closed,
    /// The connection failed.
    Failed(String),
}

/// What comes next while the open command is being sent.
#[derive(Debug)]
pub enum AfterIssue {
    Wait(Issue),
    FirstAck(FirstAck),
    Failed(ClientError),
}

/// What comes next before the login dialogue.
#[derive(Debug)]
pub enum AfterFirstAck {
    /// See if there is more news from the daemon.
    PollAgain(FirstAck),
    /// Wait for news.
    Wait(FirstAck),
    /// SSH is running: on with the login dialogue.
    Communicating(Communicating),
    /// The command is done.
    Finished(OpenResult, Connection),
    Failed(ClientError),
}

impl Issue {
    /// Once the command is sent, wait for the daemon's first reply.
    pub fn poll_issue(self, event: SendEvent) -> (after: AfterIssue)
        ensures
            match event {
                SendEvent::Pending => after == AfterIssue::Wait(self),
                SendEvent::Sent => after == AfterIssue::FirstAck(
                    FirstAck { read_input: self.read_input, saw_ok: false },
                ),
                SendEvent::Failed(cause) => after matches AfterIssue::Failed(e) && e@
                    == ClientErrorView::Transport(cause@),
            },
    {
        match event {
            SendEvent::Pending => AfterIssue::Wait(self),
            SendEvent::Sent => AfterIssue::FirstAck(
                FirstAck { read_input: self.read_input, saw_ok: false },
            ),
            SendEvent::Failed(cause) => AfterIssue::Failed(ClientError::Transport(cause)),
        }
    }
}

impl FirstAck {
    /// Act on news from the daemon. All that there is to read is read before
    /// the login dialogue begins.
    pub fn poll_first_ack(self, event: DaemonEvent) -> (after: AfterFirstAck)
        ensures
            match event {
                DaemonEvent::Message(ServerMessage::Okay) => after == AfterFirstAck::PollAgain(
                    FirstAck { read_input: self.read_input, saw_ok: true },
                ),
                DaemonEvent::Message(ServerMessage::TunnelAlreadyOpen) => {
                    after matches AfterFirstAck::Finished(result, _) && result
                        == OpenResult::AlreadyOpen
                },
                DaemonEvent::Message(ServerMessage::Error(text)) => {
                    after matches AfterFirstAck::Failed(e) && e@ == ClientErrorView::Daemon(text@)
                },
                DaemonEvent::Message(other) => {
                    after matches AfterFirstAck::Failed(e) && e@
                        == ClientErrorView::UnexpectedResponse(other@)
                },
                DaemonEvent::Closed => {
                    after matches AfterFirstAck::Failed(e) && e@ == ClientErrorView::ConnectionClosed
                },
                DaemonEvent::Failed(cause) => {
                    after matches AfterFirstAck::Failed(e) && e@ == ClientErrorView::Transport(
                        cause@,
                    )
                },
                DaemonEvent::NotReady => if self.saw_ok {
                    after matches AfterFirstAck::Communicating(session) && session@
                        == DialogueModel::start(self.read_input)
                } else {
                    after == AfterFirstAck::Wait(self)
                },
            },
    {
        match event {
            DaemonEvent::Message(ServerMessage::Okay) => AfterFirstAck::PollAgain(
                FirstAck { read_input: self.read_input, saw_ok: true },
            ),
            DaemonEvent::Message(ServerMessage::Error(text)) => AfterFirstAck::Failed(
                ClientError::Daemon(text),
            ),
            DaemonEvent::Message(ServerMessage::TunnelAlreadyOpen) => AfterFirstAck::Finished(
                OpenResult::AlreadyOpen,
                Connection {  },
            ),
            DaemonEvent::Message(other) => AfterFirstAck::Failed(
                ClientError::UnexpectedResponse(other),
            ),
            DaemonEvent::Closed => AfterFirstAck::Failed(ClientError::ConnectionClosed),
            DaemonEvent::Failed(cause) => AfterFirstAck::Failed(ClientError::Transport(cause)),
            DaemonEvent::NotReady => if self.saw_ok {
                AfterFirstAck::Communicating(
                    Communicating {
                        turn: Turn::Idle,
                        read_input: self.read_input,
                        succeeded: false,
                        user_buf: Vec::new(),
                        ssh_buf: Vec::new(),
                    },
                )
            } else {
                AfterFirstAck::Wait(self)
            },
        }
    }
}

/// Where the login dialogue stands: what it is waiting for.
#[derive(Clone, Copy, Debug, Eq, PartialEq, Structural)]
pub enum Turn {
    /// Something to happen.
    Idle,
    /// News from the daemon.
    ReadDaemon,
    /// Input from the user.
    ReadUser,
    /// The user's terminal to take SSH's output.
    OfferUser,
    /// The connection to take the user's input.
    OfferDaemon,
    /// The user's terminal to be flushed.
    FlushUser,
    /// The connection to be flushed.
    FlushDaemon,
}

/// The login dialogue between the user and SSH, through the daemon.
#[derive(Debug)]
pub struct Communicating {
    pub turn: Turn,
    /// The user takes part in it.
    pub read_input: bool,
    /// The daemon said that the tunnel is open: what is left to do is to report
    /// SSH's last output.
    pub succeeded: bool,
    /// Output of SSH that the user has not got yet.
    pub user_buf: Vec<u8>,
    /// Input of the user that the daemon has not got yet.
    pub ssh_buf: Vec<u8>,
}

/// What happened in the login dialogue.
#[derive(Debug, PartialEq)]
pub enum DialogueEvent {
    /// It is time to look again.
    Wake,
    /// What was asked for is not ready.
    NotReady,
    /// The daemon said something.
    FromDaemon(ServerMessage),
    /// The daemon hung up.
    DaemonClosed,
    /// The user typed something.
    FromUser(Vec<u8>),
    /// The user will type no more.
    UserClosed,
    /// What was offered has been taken.
    Accepted,
    /// What was offered has not been taken.
    Refused,
    /// All that was taken has been sent.
    Flushed,
    /// What was asked for failed.
    Failed(String),
}

/// What the login dialogue needs done.
#[derive(Debug, PartialEq)]
pub enum DialogueRequest {
    /// Wait for something to happen.
    Wait,
    /// See if the daemon said something.
    PollDaemon,
    /// See if the user typed something.
    PollUser,
    /// Offer output to the user's terminal.
    SendUser(Vec<u8>),
    /// Offer a message to the connection.
    SendDaemon(ClientMessage),
    /// Flush the user's terminal.
    FlushUser,
    /// Flush the connection.
    FlushDaemon,
}

/// What comes next in the login dialogue.
#[derive(Debug)]
pub enum AfterCommunicating {
    /// Something has to be done first.
    Ask(Communicating, DialogueRequest),
    /// The command is done.
    Finished(OpenResult, Connection),
    Failed(ClientError),
}

/// What a [`DialogueEvent`] says.
pub enum DialogueEventView {
    Wake,
    NotReady,
    FromDaemon(ServerMessageView),
    DaemonClosed,
    FromUser(Seq<u8>),
    UserClosed,
    Accepted,
    Refused,
    Flushed,
    Failed(Seq<char>),
}

/// What a [`DialogueRequest`] asks for.
pub enum DialogueRequestView {
    Wait,
    PollDaemon,
    PollUser,
    SendUser(Seq<u8>),
    SendDaemon(ClientMessageView),
    FlushUser,
    FlushDaemon,
}

/// The login dialogue as a value.
pub struct DialogueModel {
    pub turn: Turn,
    pub read_input: bool,
    pub succeeded: bool,
    pub user_buf: Seq<u8>,
    pub ssh_buf: Seq<u8>,
}

/// What an [`AfterCommunicating`] says. What is asked for follows from the
/// state of the dialogue.
pub enum DialogueStep {
    Ask(DialogueModel),
    Finished(OpenResult),
    Failed(ClientErrorView),
}

impl View for DialogueEvent {
    type V = DialogueEventView;

    open spec fn view(&self) -> DialogueEventView {
        match self {
            DialogueEvent::Wake => DialogueEventView::Wake,
            DialogueEvent::NotReady => DialogueEventView::NotReady,
            DialogueEvent::FromDaemon(msg) => DialogueEventView::FromDaemon(msg@),
            DialogueEvent::DaemonClosed => DialogueEventView::DaemonClosed,
            DialogueEvent::FromUser(bytes) => DialogueEventView::FromUser(bytes@),
            DialogueEvent::UserClosed => DialogueEventView::UserClosed,
            DialogueEvent::Accepted => DialogueEventView::Accepted,
            DialogueEvent::Refused => DialogueEventView::Refused,
            DialogueEvent::Flushed => DialogueEventView::Flushed,
            DialogueEvent::Failed(cause) => DialogueEventView::Failed(cause@),
        }
    }
}

impl View for DialogueRequest {
    type V = DialogueRequestView;

    open spec fn view(&self) -> DialogueRequestView {
        match self {
            DialogueRequest::Wait => DialogueRequestView::Wait,
            DialogueRequest::PollDaemon => DialogueRequestView::PollDaemon,
            DialogueRequest::PollUser => DialogueRequestView::PollUser,
            DialogueRequest::SendUser(bytes) => DialogueRequestView::SendUser(bytes@),
            DialogueRequest::SendDaemon(msg) => DialogueRequestView::SendDaemon(msg@),
            DialogueRequest::FlushUser => DialogueRequestView::FlushUser,
            DialogueRequest::FlushDaemon => DialogueRequestView::FlushDaemon,
        }
    }
}

impl View for Communicating {
    type V = DialogueModel;

    open spec fn view(&self) -> DialogueModel {
        DialogueModel {
            turn: self.turn,
            read_input: self.read_input,
            succeeded: self.succeeded,
            user_buf: self.user_buf@,
            ssh_buf: self.ssh_buf@,
        }
    }
}

impl View for AfterCommunicating {
    type V = DialogueStep;

    open spec fn view(&self) -> DialogueStep {
        match self {
            AfterCommunicating::Ask(session, _) => DialogueStep::Ask(session@),
            AfterCommunicating::Finished(result, _) => DialogueStep::Finished(*result),
            AfterCommunicating::Failed(e) => DialogueStep::Failed(e@),
        }
    }
}

impl DialogueModel {
    /// The dialogue before anything happened.
    pub open spec fn start(read_input: bool) -> DialogueModel {
        DialogueModel {
            turn: Turn::Idle,
            read_input,
            succeeded: false,
            user_buf: Seq::empty(),
            ssh_buf: Seq::empty(),
        }
    }

    /// What is asked for, in the state that the dialogue is in.
    pub open spec fn request(self) -> DialogueRequestView {
        match self.turn {
            Turn::Idle => DialogueRequestView::Wait,
            Turn::ReadDaemon => DialogueRequestView::PollDaemon,
            Turn::ReadUser => DialogueRequestView::PollUser,
            Turn::OfferUser => DialogueRequestView::SendUser(self.user_buf),
            Turn::OfferDaemon => DialogueRequestView::SendDaemon(
                ClientMessageView::UserData(self.ssh_buf),
            ),
            Turn::FlushUser => DialogueRequestView::FlushUser,
            Turn::FlushDaemon => DialogueRequestView::FlushDaemon,
        }
    }

    pub open spec fn at(self, turn: Turn) -> DialogueModel {
        DialogueModel { turn, ..self }
    }

    /// Look round. Once the tunnel is open, all that is looked at is whether the
    /// user has got SSH's last output.
    pub open spec fn look(self) -> DialogueModel {
        if self.succeeded {
            self.report()
        } else {
            self.at(Turn::ReadDaemon)
        }
    }

    /// Offer SSH's last output to the user, or see that it is flushed.
    pub open spec fn report(self) -> DialogueModel {
        if self.user_buf.len() != 0 {
            self.at(Turn::OfferUser)
        } else {
            self.at(Turn::FlushUser)
        }
    }

    /// Go on after SSH's output was offered to the user.
    pub open spec fn offered_user(self) -> DialogueModel {
        if self.succeeded {
            self.at(Turn::FlushUser)
        } else {
            self.offer_daemon()
        }
    }

    /// Read the user's input, if the user takes part.
    pub open spec fn read_user(self) -> DialogueModel {
        if self.read_input {
            self.at(Turn::ReadUser)
        } else {
            self.offer_user()
        }
    }

    /// Offer SSH's output to the user, if there is any.
    pub open spec fn offer_user(self) -> DialogueModel {
        if self.user_buf.len() != 0 {
            self.at(Turn::OfferUser)
        } else {
            self.offer_daemon()
        }
    }

    /// Offer the user's input to the daemon, if there is any.
    pub open spec fn offer_daemon(self) -> DialogueModel {
        if self.ssh_buf.len() != 0 {
            self.at(Turn::OfferDaemon)
        } else {
            self.at(Turn::FlushUser)
        }
    }

    /// What comes next. Each time that something happens, all that the daemon
    /// and the user have to say is read, then what there is for either is
    /// offered and flushed. Once the daemon says that the tunnel is open, the
    /// dialogue is over as soon as the user has got all of SSH's output. An event
    /// that is no answer to what was asked changes nothing.
    pub open spec fn step(self, event: DialogueEventView) -> DialogueStep {
        match (self.turn, event) {
            (Turn::Idle, DialogueEventView::Wake) => DialogueStep::Ask(self.look()),
            (
                Turn::ReadDaemon,
                DialogueEventView::FromDaemon(ServerMessageView::SshData(data)),
            ) => DialogueStep::Ask(DialogueModel { user_buf: self.user_buf + data, ..self }),
            (
                Turn::ReadDaemon,
                DialogueEventView::FromDaemon(ServerMessageView::Okay),
            ) => if self.user_buf.len() == 0 {
                DialogueStep::Finished(OpenResult::Success)
            } else {
                DialogueStep::Ask(DialogueModel { succeeded: true, ..self }.report())
            },
            (
                Turn::ReadDaemon,
                DialogueEventView::FromDaemon(ServerMessageView::Error(text)),
            ) => DialogueStep::Failed(ClientErrorView::Daemon(text)),
            (Turn::ReadDaemon, DialogueEventView::FromDaemon(msg)) => DialogueStep::Failed(
                ClientErrorView::UnexpectedMessage(msg),
            ),
            (Turn::ReadDaemon, DialogueEventView::NotReady) => DialogueStep::Ask(self.read_user()),
            (Turn::ReadUser, DialogueEventView::FromUser(bytes)) => DialogueStep::Ask(
                DialogueModel { ssh_buf: self.ssh_buf + bytes, ..self },
            ),
            (Turn::ReadUser, DialogueEventView::UserClosed) => DialogueStep::Failed(
                ClientErrorView::TerminalEof,
            ),
            (Turn::ReadUser, DialogueEventView::NotReady) => DialogueStep::Ask(self.offer_user()),
            (Turn::OfferUser, DialogueEventView::Accepted) => DialogueStep::Ask(
                DialogueModel { user_buf: Seq::empty(), ..self }.offered_user(),
            ),
            (Turn::OfferUser, DialogueEventView::Refused) => DialogueStep::Ask(self.offered_user()),
            (Turn::OfferDaemon, DialogueEventView::Accepted) => DialogueStep::Ask(
                DialogueModel { ssh_buf: Seq::empty(), ..self }.at(Turn::FlushUser),
            ),
            (Turn::OfferDaemon, DialogueEventView::Refused) => DialogueStep::Ask(
                self.at(Turn::FlushUser),
            ),
            (Turn::FlushUser, DialogueEventView::Flushed) => if !self.succeeded {
                DialogueStep::Ask(self.at(Turn::FlushDaemon))
            } else if self.user_buf.len() == 0 {
                DialogueStep::Finished(OpenResult::Success)
            } else {
                DialogueStep::Ask(self.report())
            },
            (Turn::FlushUser, DialogueEventView::NotReady) => DialogueStep::Ask(self.at(Turn::Idle)),
            (Turn::FlushDaemon, DialogueEventView::Flushed) => DialogueStep::Ask(
                self.at(Turn::Idle),
            ),
            (Turn::FlushDaemon, DialogueEventView::NotReady) => DialogueStep::Ask(
                self.at(Turn::Idle),
            ),
            (Turn::Idle, _) => DialogueStep::Ask(self),
            (_, DialogueEventView::Failed(cause)) => DialogueStep::Failed(
                ClientErrorView::Transport(cause),
            ),
            _ => DialogueStep::Ask(self),
        }
    }
}

impl Communicating {
    /// What is asked for, in the state that the dialogue is in.
    pub fn request(&self) -> (request: DialogueRequest)
        ensures
            request@ == self@.request(),
    {
        match self.turn {
            Turn::Idle => DialogueRequest::Wait,
            Turn::ReadDaemon => DialogueRequest::PollDaemon,
            Turn::ReadUser => DialogueRequest::PollUser,
            Turn::OfferUser => DialogueRequest::SendUser(self.user_buf.clone()),
            Turn::OfferDaemon => DialogueRequest::SendDaemon(
                ClientMessage::UserData(self.ssh_buf.clone()),
            ),
            Turn::FlushUser => DialogueRequest::FlushUser,
            Turn::FlushDaemon => DialogueRequest::FlushDaemon,
        }
    }

    fn turn_to_look(&self) -> (turn: Turn)
        ensures
            self@.at(turn) == self@.look(),
    {
        if self.succeeded {
            self.turn_to_report()
        } else {
            Turn::ReadDaemon
        }
    }

    fn turn_to_report(&self) -> (turn: Turn)
        ensures
            self@.at(turn) == self@.report(),
    {
        if self.user_buf.len() != 0 {
            Turn::OfferUser
        } else {
            Turn::FlushUser
        }
    }

    fn turn_after_offer(&self) -> (turn: Turn)
        ensures
            self@.at(turn) == self@.offered_user(),
    {
        if self.succeeded {
            Turn::FlushUser
        } else {
            self.turn_to_offer_daemon()
        }
    }

    fn turn_to_read_user(&self) -> (turn: Turn)
        ensures
            self@.at(turn) == self@.read_user(),
    {
        if self.read_input {
            Turn::ReadUser
        } else {
            self.turn_to_offer_user()
        }
    }

    fn turn_to_offer_user(&self) -> (turn: Turn)
        ensures
            self@.at(turn) == self@.offer_user(),
    {
        if self.user_buf.len() != 0 {
            Turn::OfferUser
        } else {
            self.turn_to_offer_daemon()
        }
    }

    fn turn_to_offer_daemon(&self) -> (turn: Turn)
        ensures
            self@.at(turn) == self@.offer_daemon(),
    {
        if self.ssh_buf.len() != 0 {
            Turn::OfferDaemon
        } else {
            Turn::FlushUser
        }
    }

    /// Act on an event in the login dialogue.
    pub fn poll_communicating(self, event: DialogueEvent) -> (after: AfterCommunicating)
        ensures
            after@ == self@.step(event@),
            after matches AfterCommunicating::Ask(session, request) ==> request@
                == session@.request(),
    {
        let mut session = self;
        match (session.turn, event) {
            (Turn::Idle, DialogueEvent::Wake) => {
                session.turn = session.turn_to_look();
            },
            (Turn::Idle, _) => {},
            (Turn::ReadDaemon, DialogueEvent::FromDaemon(msg)) => match msg {
                ServerMessage::SshData(data) => {
                    session.user_buf.extend_from_slice(&data);
                    proof {
                        assert(session.user_buf@ =~= self.user_buf@ + data@);
                    }
                },
                ServerMessage::Okay => {
                    if session.user_buf.len() == 0 {
                        return AfterCommunicating::Finished(OpenResult::Success, Connection {  });
                    }
                    session.succeeded = true;
                    session.turn = session.turn_to_report();
                },
                ServerMessage::Error(text) => {
                    return AfterCommunicating::Failed(ClientError::Daemon(text));
                },
                other => {
                    return AfterCommunicating::Failed(ClientError::UnexpectedMessage(other));
                },
            },
            (Turn::ReadDaemon, DialogueEvent::NotReady) => {
                session.turn = session.turn_to_read_user();
            },
            (Turn::ReadUser, DialogueEvent::FromUser(bytes)) => {
                session.ssh_buf.extend_from_slice(&bytes);
                proof {
                    assert(session.ssh_buf@ =~= self.ssh_buf@ + bytes@);
                }
            },
            (Turn::ReadUser, DialogueEvent::UserClosed) => {
                return AfterCommunicating::Failed(ClientError::TerminalEof);
            },
            (Turn::ReadUser, DialogueEvent::NotReady) => {
                session.turn = session.turn_to_offer_user();
            },
            (Turn::OfferUser, DialogueEvent::Accepted) => {
                session.user_buf.clear();
                session.turn = session.turn_after_offer();
            },
            (Turn::OfferUser, DialogueEvent::Refused) => {
                session.turn = session.turn_after_offer();
            },
            (Turn::OfferDaemon, DialogueEvent::Accepted) => {
                session.ssh_buf.clear();
                session.turn = Turn::FlushUser;
            },
            (Turn::OfferDaemon, DialogueEvent::Refused) => {
                session.turn = Turn::FlushUser;
            },
            (Turn::FlushUser, DialogueEvent::Flushed) => {
                if !session.succeeded {
                    session.turn = Turn::FlushDaemon;
                } else if session.user_buf.len() == 0 {
                    return AfterCommunicating::Finished(OpenResult::Success, Connection {  });
                } else {
                    session.turn = session.turn_to_report();
                }
            },
            (Turn::FlushUser, DialogueEvent::NotReady) => {
                session.turn = Turn::Idle;
            },
            (Turn::FlushDaemon, DialogueEvent::Flushed) => {
                session.turn = Turn::Idle;
            },
            (Turn::FlushDaemon, DialogueEvent::NotReady) => {
                session.turn = Turn::Idle;
            },
            (_, DialogueEvent::Failed(cause)) => {
                return AfterCommunicating::Failed(ClientError::Transport(cause));
            },
            (_, _) => {},
        }
        let request = session.request();
        AfterCommunicating::Ask(session, request)
    }
}

/// A stretch of the login dialogue: how it stands, and what has gone where.
pub struct DialogueTrace {
    pub model: DialogueModel,
    /// What the daemon passed on from SSH.
    pub from_ssh: Seq<u8>,
    /// What the user's terminal took of it.
    pub to_user: Seq<u8>,
    /// What the user typed.
    pub from_user: Seq<u8>,
    /// What the connection took of it.
    pub to_daemon: Seq<u8>,
}

impl DialogueTrace {
    /// What there is after one more event, while the dialogue goes on.
    pub open spec fn extend(self, event: DialogueEventView) -> Option<DialogueTrace> {
        match self.model.step(event) {
            DialogueStep::Ask(model) => Some(
                DialogueTrace {
                    model,
                    from_ssh: match (self.model.turn, event) {
                        (
                            Turn::ReadDaemon,
                            DialogueEventView::FromDaemon(ServerMessageView::SshData(data)),
                        ) => self.from_ssh + data,
                        _ => self.from_ssh,
                    },
                    to_user: match (self.model.request(), event) {
                        (
                            DialogueRequestView::SendUser(bytes),
                            DialogueEventView::Accepted,
                        ) => self.to_user + bytes,
                        _ => self.to_user,
                    },
                    from_user: match (self.model.turn, event) {
                        (Turn::ReadUser, DialogueEventView::FromUser(bytes)) => self.from_user
                            + bytes,
                        _ => self.from_user,
                    },
                    to_daemon: match (self.model.request(), event) {
                        (
                            DialogueRequestView::SendDaemon(ClientMessageView::UserData(bytes)),
                            DialogueEventView::Accepted,
                        ) => self.to_daemon + bytes,
                        _ => self.to_daemon,
                    },
                },
            ),
            _ => None,
        }
    }

    /// What there is after `events`, if the dialogue goes on so far.
    pub open spec fn of(read_input: bool, events: Seq<DialogueEventView>) -> Option<DialogueTrace>
        decreases events.len(),
    {
        if events.len() == 0 {
            Some(
                DialogueTrace {
                    model: DialogueModel::start(read_input),
                    from_ssh: Seq::empty(),
                    to_user: Seq::empty(),
                    from_user: Seq::empty(),
                    to_daemon: Seq::empty(),
                },
            )
        } else {
            match DialogueTrace::of(read_input, events.drop_last()) {
                Some(trace) => trace.extend(events.last()),
                None => None,
            }
        }
    }
}

/// The client relays faithfully: at any time while the dialogue goes on, what
/// the daemon passed on from SSH is what the user's terminal took, followed by
/// what is still held for it; likewise for what the user typed. Nothing is lost,
/// doubled or out of order.
pub proof fn law_client_relay_is_faithful(read_input: bool, events: Seq<DialogueEventView>)
    ensures
        DialogueTrace::of(read_input, events) matches Some(trace) ==> {
            &&& trace.from_ssh == trace.to_user + trace.model.user_buf
            &&& trace.from_user == trace.to_daemon + trace.model.ssh_buf
            &&& trace.model.read_input == read_input
        },
    decreases events.len(),
{
    if events.len() == 0 {
        let trace = DialogueTrace::of(read_input, events)->0;
        assert(trace.from_ssh =~= trace.to_user + trace.model.user_buf);
        assert(trace.from_user =~= trace.to_daemon + trace.model.ssh_buf);
    } else {
        law_client_relay_is_faithful(read_input, events.drop_last());
        if let Some(before) = DialogueTrace::of(read_input, events.drop_last()) {
            if let Some(trace) = before.extend(events.last()) {
                assert(trace.from_ssh =~= trace.to_user + trace.model.user_buf);
                assert(trace.from_user =~= trace.to_daemon + trace.model.ssh_buf);
            }
        }
    }
}

/// When the tunnel is open, the user's terminal has taken all that the daemon
/// passed on from SSH: none of it is left behind.
pub proof fn law_success_leaves_no_output_behind(
    read_input: bool,
    events: Seq<DialogueEventView>,
    event: DialogueEventView,
)
    requires
        DialogueTrace::of(read_input, events) is Some,
        DialogueTrace::of(read_input, events)->0.model.step(event) == DialogueStep::Finished(
            OpenResult::Success,
        ),
    ensures
        DialogueTrace::of(read_input, events)->0.to_user == DialogueTrace::of(
            read_input,
            events,
        )->0.from_ssh,
{
    law_client_relay_is_faithful(read_input, events);
    let trace = DialogueTrace::of(read_input, events)->0;
    assert(trace.to_user + trace.model.user_buf =~= trace.to_user);
}

/// The dialogue comes to a good end only after the daemon said that the tunnel
/// is open.
pub proof fn law_success_is_the_daemons_word(
    read_input: bool,
    events: Seq<DialogueEventView>,
    event: DialogueEventView,
)
    requires
        DialogueTrace::of(read_input, events) is Some,
        DialogueTrace::of(read_input, events)->0.model.step(event) == DialogueStep::Finished(
            OpenResult::Success,
        ),
    ensures
        events.push(event).contains(DialogueEventView::FromDaemon(ServerMessageView::Okay)),
{
    let okay = DialogueEventView::FromDaemon(ServerMessageView::Okay);
    let all = events.push(event);
    lemma_succeeded(read_input, events);
    if event == okay {
        assert(all[all.len() - 1] == okay);
    } else {
        let i = choose|i: int| 0 <= i < events.len() && events[i] == okay;
        assert(all[i] == okay);
    }
}

proof fn lemma_succeeded(read_input: bool, events: Seq<DialogueEventView>)
    ensures
        DialogueTrace::of(read_input, events) matches Some(trace) ==> trace.model.succeeded
            ==> events.contains(DialogueEventView::FromDaemon(ServerMessageView::Okay)),
    decreases events.len(),
{
    if events.len() > 0 {
        let init = events.drop_last();
        let okay = DialogueEventView::FromDaemon(ServerMessageView::Okay);
        lemma_succeeded(read_input, init);
        if init.contains(okay) {
            let i = choose|i: int| 0 <= i < init.len() && init[i] == okay;
            assert(events[i] == okay);
        }
        if events.last() == okay {
            assert(events[events.len() - 1] == okay);
        }
    }
}

/// Without the user taking part, no input is read, and none is sent.
pub proof fn law_no_input_is_read(events: Seq<DialogueEventView>)
    ensures
        DialogueTrace::of(false, events) matches Some(trace) ==> {
            &&& trace.model.request() != DialogueRequestView::PollUser
            &&& trace.to_daemon == Seq::<u8>::empty()
        },
{
    lemma_no_input_is_read(events);
}

proof fn lemma_no_input_is_read(events: Seq<DialogueEventView>)
    ensures
        DialogueTrace::of(false, events) matches Some(trace) ==> {
            &&& trace.model.turn != Turn::ReadUser
            &&& trace.model.turn != Turn::OfferDaemon
            &&& trace.model.ssh_buf.len() == 0
            &&& !trace.model.read_input
            &&& trace.to_daemon == Seq::<u8>::empty()
        },
    decreases events.len(),
{
    if events.len() > 0 {
        lemma_no_input_is_read(events.drop_last());
    }
}

} // verus!
