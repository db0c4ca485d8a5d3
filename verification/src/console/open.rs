//! Opening a tunnel from the console: the open command, and the login dialogue
//! that follows it, until the user says that the login has succeeded.

use vstd::prelude::*;

use crate::console::cleanup::{CleaningUpIo, CleanupModel, CleanupRequest, Front};
use crate::console::error::{ConsoleError, ConsoleErrorView};
use crate::console::finish::FinishCommunicationState;
use crate::console::protocol::{ClientMessage, ClientMessageView, ServerMessage, ServerMessageView};
use crate::protocol::SendEvent;

verus! {

/// The open command is being sent.
#[derive(Debug)]
pub struct Issue {
    pub front: Front,
}

/// The daemon is about to start SSH.
#[derive(Debug)]
pub struct FirstAck {
    pub front: Front,
}

/// News from the daemon.
#[derive(Debug, PartialEq)]
pub enum DaemonEvent {
    /// There is none.
    NotReady,
    /// A message.
    Message(ServerMessage),
    /// The daemon hung up.
    Closed,
    /// The connection failed.
    Failed(String),
}

/// What comes next while the open command is being sent.
#[derive(Debug)]
pub enum AfterIssue {
    Wait(Issue),
    FirstAck(FirstAck),
    Failed(ConsoleError),
}

/// What comes next before the login dialogue.
#[derive(Debug)]
pub enum AfterFirstAck {
    /// See if there is more news from the daemon.
    PollAgain(FirstAck),
    /// Wait for news.
    Wait(FirstAck),
    /// SSH is running: on with the login dialogue.
    Communicating(Communicating),
    Failed(ConsoleError),
}

impl Issue {
    /// Once the command is sent, wait for the daemon's first reply.
    pub fn poll_issue(self, event: SendEvent) -> (after: AfterIssue)
        ensures
            match event {
                SendEvent::Pending => after == AfterIssue::Wait(self),
                SendEvent::Sent => after == AfterIssue::FirstAck(FirstAck { front: self.front }),
                SendEvent::Failed(cause) => after matches AfterIssue::Failed(e) && e@
                    == ConsoleErrorView::Transport(cause@),
            },
    {
        match event {
            SendEvent::Pending => AfterIssue::Wait(self),
            SendEvent::Sent => AfterIssue::FirstAck(FirstAck { front: self.front }),
            SendEvent::Failed(cause) => AfterIssue::Failed(ConsoleError::Transport(cause)),
        }
    }
}

impl FirstAck {
    /// Act on news from the daemon.
    pub fn poll_first_ack(self, event: DaemonEvent) -> (after: AfterFirstAck)
        ensures
            match event {
                DaemonEvent::NotReady => after == AfterFirstAck::Wait(self),
                DaemonEvent::Message(ServerMessage::Okay) => {
                    after matches AfterFirstAck::Communicating(session) && session@
                        == DialogueModel::start(self.front)
                },
                DaemonEvent::Message(ServerMessage::Error(text)) => {
                    after matches AfterFirstAck::Failed(e) && e@ == ConsoleErrorView::Daemon(text@)
                },
                DaemonEvent::Message(other) => {
                    after matches AfterFirstAck::Failed(e) && e@
                        == ConsoleErrorView::UnexpectedResponse(other@)
                },
                DaemonEvent::Closed => match self.front {
                    Front::Terminal => after == AfterFirstAck::PollAgain(self),
                    Front::Streams => after matches AfterFirstAck::Failed(e) && e@
                        == ConsoleErrorView::ConnectionClosed,
                },
                DaemonEvent::Failed(cause) => {
                    after matches AfterFirstAck::Failed(e) && e@ == ConsoleErrorView::Transport(
                        cause@,
                    )
                },
            },
    {
        match event {
            DaemonEvent::NotReady => AfterFirstAck::Wait(self),
            DaemonEvent::Message(ServerMessage::Okay) => AfterFirstAck::Communicating(
                Communicating::start(self.front),
            ),
            DaemonEvent::Message(ServerMessage::Error(text)) => AfterFirstAck::Failed(
                ConsoleError::Daemon(text),
            ),
            DaemonEvent::Message(other) => AfterFirstAck::Failed(
                ConsoleError::UnexpectedResponse(other),
            ),
            DaemonEvent::Closed => match self.front {
                Front::Terminal => AfterFirstAck::PollAgain(self),
                Front::Streams => AfterFirstAck::Failed(ConsoleError::ConnectionClosed),
            },
            DaemonEvent::Failed(cause) => AfterFirstAck::Failed(ConsoleError::Transport(cause)),
        }
    }
}

/// Where the login dialogue stands: what it is waiting for.
#[derive(Clone, Copy, Debug, Eq, PartialEq, Structural)]
pub enum Turn {
    /// Something to happen.
    Idle,
    /// News from the daemon.
    ReadDaemon,
    /// The terminal to show SSH's output.
    Print,
    /// Input from the user.
    ReadUser,
    /// The user's input to be put on its way to the daemon.
    StartDaemon,
    /// A message that is on its way to the daemon to arrive.
    AwaitDaemon,
    /// SSH's output to be put on its way to the user.
    StartUser,
    /// Output that is on its way to the user to arrive.
    AwaitUser,
}

/// The login dialogue between the user and SSH, through the daemon.
#[derive(Debug)]
pub struct Communicating {
    pub front: Front,
    pub turn: Turn,
    /// Something came of looking round this time.
    pub progress: bool,
    /// A message is on its way to the daemon.
    pub busy: bool,
    /// Output is on its way to the user.
    pub user_busy: bool,
    /// How far the user is with saying that the login has succeeded.
    pub finished: FinishCommunicationState,
    /// Input of the user that is to go to the daemon.
    pub buf: Vec<u8>,
    /// Output of SSH that is to go to the user.
    pub user_buf: Vec<u8>,
}

/// What happened in the login dialogue.
#[derive(Debug, PartialEq)]
pub enum DialogueEvent {
    /// It is time to look again.
    Wake,
    /// What was asked for is not ready.
    NotReady,
    /// The daemon said something.
    FromDaemon(ServerMessage),
    /// The daemon hung up.
    DaemonClosed,
    /// The user typed something.
    FromUser(Vec<u8>),
    /// The user will type no more.
    UserClosed,
    /// The terminal has shown it.
    Printed,
    /// It is on its way.
    Started,
    /// It has arrived.
    Sent,
    /// What was asked for failed.
    Failed(String),
}

/// What the login dialogue needs done.
#[derive(Debug, PartialEq)]
pub enum DialogueRequest {
    /// Wait for something to happen.
    Wait,
    /// See if the daemon said something.
    PollDaemon,
    /// Show output on the terminal.
    Print(Vec<u8>),
    /// See if the user typed something.
    PollUser,
    /// Put a message on its way to the daemon.
    StartSend(ClientMessage),
    /// See if the message that is on its way has arrived.
    PollSend,
    /// Put output on its way to the user.
    StartUserSend(Vec<u8>),
    /// See if the output that is on its way has arrived.
    PollUserSend,
}

/// What comes next in the login dialogue.
#[derive(Debug)]
pub enum AfterCommunicating {
    /// Something has to be done first.
    Ask(Communicating, DialogueRequest),
    /// The user is done: on with the end of the session. No more input is
    /// wanted.
    CleaningUpIo(CleaningUpIo, CleanupRequest),
    /// The session fails. A terminal begins a new line first, if `newline`
    /// says so.
    Failed { newline: bool, error: ConsoleError },
}

/// What a [`DialogueEvent`] says.
pub enum DialogueEventView {
    Wake,
    NotReady,
    FromDaemon(ServerMessageView),
    DaemonClosed,
    FromUser(Seq<u8>),
    UserClosed,
    Printed,
    Started,
    Sent,
    Failed(Seq<char>),
}

/// What a [`DialogueRequest`] asks for.
pub enum DialogueRequestView {
    Wait,
    PollDaemon,
    Print(Seq<u8>),
    PollUser,
    StartSend(ClientMessageView),
    PollSend,
    StartUserSend(Seq<u8>),
    PollUserSend,
}

/// The login dialogue as a value.
pub struct DialogueModel {
    pub front: Front,
    pub turn: Turn,
    pub progress: bool,
    pub busy: bool,
    pub user_busy: bool,
    pub finished: FinishCommunicationState,
    pub buf: Seq<u8>,
    pub user_buf: Seq<u8>,
}

/// What an [`AfterCommunicating`] says. What is asked for follows from the
/// state of the session.
pub enum DialogueStep {
    Ask(DialogueModel),
    CleaningUpIo(CleanupModel),
    Failed { newline: bool, error: ConsoleErrorView },
}

impl View for DialogueEvent {
    type V = DialogueEventView;

    open spec fn view(&self) -> DialogueEventView {
        match self {
            DialogueEvent::Wake => DialogueEventView::Wake,
            DialogueEvent::NotReady => DialogueEventView::NotReady,
            DialogueEvent::FromDaemon(msg) => DialogueEventView::FromDaemon(msg@),
            DialogueEvent::DaemonClosed => DialogueEventView::DaemonClosed,
            DialogueEvent::FromUser(bytes) => DialogueEventView::FromUser(bytes@),
            DialogueEvent::UserClosed => DialogueEventView::UserClosed,
            DialogueEvent::Printed => DialogueEventView::Printed,
            DialogueEvent::Started => DialogueEventView::Started,
            DialogueEvent::Sent => DialogueEventView::Sent,
            DialogueEvent::Failed(cause) => DialogueEventView::Failed(cause@),
        }
    }
}

impl View for DialogueRequest {
    type V = DialogueRequestView;

    open spec fn view(&self) -> DialogueRequestView {
        match self {
            DialogueRequest::Wait => DialogueRequestView::Wait,
            DialogueRequest::PollDaemon => DialogueRequestView::PollDaemon,
            DialogueRequest::Print(bytes) => DialogueRequestView::Print(bytes@),
            DialogueRequest::PollUser => DialogueRequestView::PollUser,
            DialogueRequest::StartSend(msg) => DialogueRequestView::StartSend(msg@),
            DialogueRequest::PollSend => DialogueRequestView::PollSend,
            DialogueRequest::StartUserSend(bytes) => DialogueRequestView::StartUserSend(bytes@),
            DialogueRequest::PollUserSend => DialogueRequestView::PollUserSend,
        }
    }
}

impl View for Communicating {
    type V = DialogueModel;

    open spec fn view(&self) -> DialogueModel {
        DialogueModel {
            front: self.front,
            turn: self.turn,
            progress: self.progress,
            busy: self.busy,
            user_busy: self.user_busy,
            finished: self.finished,
            buf: self.buf@,
            user_buf: self.user_buf@,
        }
    }
}

impl View for AfterCommunicating {
    type V = DialogueStep;

    open spec fn view(&self) -> DialogueStep {
        match self {
            AfterCommunicating::Ask(session, _) => DialogueStep::Ask(session@),
            AfterCommunicating::CleaningUpIo(session, _) => DialogueStep::CleaningUpIo(session@),
            AfterCommunicating::Failed { newline, error } => DialogueStep::Failed {
                newline: *newline,
                error: error@,
            },
        }
    }
}

impl DialogueModel {
    /// The dialogue before anything happened. The user is at the start of a
    /// line.
    pub open spec fn start(front: Front) -> DialogueModel {
        DialogueModel {
            front,
            turn: Turn::ReadDaemon,
            progress: false,
            busy: false,
            user_busy: false,
            finished: FinishCommunicationState::SawFirstEnter,
            buf: Seq::empty(),
            user_buf: Seq::empty(),
        }
    }

    /// What is asked for, in the state that the dialogue is in.
    pub open spec fn request(self) -> DialogueRequestView {
        match self.turn {
            Turn::Idle => DialogueRequestView::Wait,
            Turn::ReadDaemon => DialogueRequestView::PollDaemon,
            Turn::Print => DialogueRequestView::Print(self.user_buf),
            Turn::ReadUser => DialogueRequestView::PollUser,
            Turn::StartDaemon => DialogueRequestView::StartSend(
                ClientMessageView::UserData(self.buf),
            ),
            Turn::AwaitDaemon => DialogueRequestView::PollSend,
            Turn::StartUser => DialogueRequestView::StartUserSend(self.user_buf),
            Turn::AwaitUser => DialogueRequestView::PollUserSend,
        }
    }

    pub open spec fn at(self, turn: Turn) -> DialogueModel {
        DialogueModel { turn, ..self }
    }

    /// Look round again.
    pub open spec fn look(self) -> DialogueModel {
        DialogueModel { turn: Turn::ReadDaemon, progress: false, ..self }
    }

    /// See to the messages for the daemon, then to the output for the user.
    pub open spec fn serve_daemon(self) -> DialogueStep {
        if self.busy {
            DialogueStep::Ask(self.at(Turn::AwaitDaemon))
        } else if self.buf.len() != 0 {
            DialogueStep::Ask(self.at(Turn::StartDaemon))
        } else {
            self.serve_user()
        }
    }

    /// See to the output for the user. A terminal has got its output already.
    pub open spec fn serve_user(self) -> DialogueStep {
        if self.front == Front::Terminal {
            self.conclude()
        } else if self.user_busy {
            DialogueStep::Ask(self.at(Turn::AwaitUser))
        } else if self.user_buf.len() != 0 {
            DialogueStep::Ask(self.at(Turn::StartUser))
        } else {
            self.conclude()
        }
    }

    /// See if the user is done. If not, look round again, or wait if nothing
    /// came of it this time.
    pub open spec fn conclude(self) -> DialogueStep {
        if self.finished == FinishCommunicationState::SawSecondEnter {
            DialogueStep::CleaningUpIo(CleanupModel::enter(self.front, self.busy))
        } else if self.progress {
            DialogueStep::Ask(self.look())
        } else {
            DialogueStep::Ask(self.at(Turn::Idle))
        }
    }

    /// What comes next. An event that is no answer to what was asked changes
    /// nothing.
    pub open spec fn step(self, event: DialogueEventView) -> DialogueStep {
        match (self.turn, event) {
            (Turn::Idle, DialogueEventView::Wake) => DialogueStep::Ask(self.look()),
            (
                Turn::ReadDaemon,
                DialogueEventView::FromDaemon(ServerMessageView::SshData(data)),
            ) => DialogueStep::Ask(
                DialogueModel {
                    turn: match self.front {
                        Front::Terminal => Turn::Print,
                        Front::Streams => Turn::ReadUser,
                    },
                    progress: true,
                    user_buf: self.user_buf + data,
                    ..self
                },
            ),
            (
                Turn::ReadDaemon,
                DialogueEventView::FromDaemon(ServerMessageView::Error(text)),
            ) => DialogueStep::Failed {
                newline: self.front == Front::Terminal,
                error: ConsoleErrorView::Daemon(text),
            },
            (Turn::ReadDaemon, DialogueEventView::FromDaemon(msg)) => DialogueStep::Failed {
                newline: self.front == Front::Terminal,
                error: ConsoleErrorView::UnexpectedMessage(msg),
            },
            (Turn::ReadDaemon, DialogueEventView::DaemonClosed) => DialogueStep::Ask(
                self.at(Turn::ReadUser),
            ),
            (Turn::ReadDaemon, DialogueEventView::NotReady) => DialogueStep::Ask(
                self.at(Turn::ReadUser),
            ),
            (Turn::Print, DialogueEventView::Printed) => DialogueStep::Ask(
                DialogueModel { turn: Turn::ReadUser, user_buf: Seq::empty(), ..self },
            ),
            (Turn::ReadUser, DialogueEventView::FromUser(bytes)) => DialogueModel {
                progress: true,
                buf: self.buf + bytes,
                finished: self.finished.after(bytes),
                ..self
            }.serve_daemon(),
            (Turn::ReadUser, DialogueEventView::UserClosed) => match self.front {
                Front::Terminal => self.serve_daemon(),
                Front::Streams => DialogueStep::Failed {
                    newline: false,
                    error: ConsoleErrorView::TerminalEof,
                },
            },
            (Turn::ReadUser, DialogueEventView::NotReady) => self.serve_daemon(),
            (Turn::ReadUser, DialogueEventView::Failed(_)) => DialogueStep::Failed {
                newline: false,
                error: ConsoleErrorView::TerminalError,
            },
            (Turn::StartDaemon, DialogueEventView::Started) => DialogueModel {
                progress: true,
                busy: true,
                buf: Seq::empty(),
                ..self
            }.serve_user(),
            (Turn::AwaitDaemon, DialogueEventView::Sent) => DialogueModel {
                progress: true,
                busy: false,
                ..self
            }.serve_user(),
            (Turn::AwaitDaemon, DialogueEventView::NotReady) => DialogueStep::Ask(
                self.at(Turn::Idle),
            ),
            (Turn::StartUser, DialogueEventView::Started) => DialogueModel {
                progress: true,
                user_busy: true,
                user_buf: Seq::empty(),
                ..self
            }.conclude(),
            (Turn::AwaitUser, DialogueEventView::Sent) => DialogueModel {
                progress: true,
                user_busy: false,
                ..self
            }.conclude(),
            (Turn::AwaitUser, DialogueEventView::NotReady) => DialogueStep::Ask(
                self.at(Turn::Idle),
            ),
            (Turn::Idle, _) => DialogueStep::Ask(self),
            (_, DialogueEventView::Failed(cause)) => DialogueStep::Failed {
                newline: false,
                error: ConsoleErrorView::Transport(cause),
            },
            _ => DialogueStep::Ask(self),
        }
    }
}

impl Communicating {
    /// The dialogue before anything happened.
    fn start(front: Front) -> (session: Communicating)
        ensures
            session@ == DialogueModel::start(front),
    {
        Communicating {
            front,
            turn: Turn::ReadDaemon,
            progress: false,
            busy: false,
            user_busy: false,
            finished: FinishCommunicationState::SawFirstEnter,
            buf: Vec::new(),
            user_buf: Vec::new(),
        }
    }

    /// What is asked for, in the state that the dialogue is in.
    pub fn request(&self) -> (request: DialogueRequest)
        ensures
            request@ == self@.request(),
    {
        match self.turn {
            Turn::Idle => DialogueRequest::Wait,
            Turn::ReadDaemon => DialogueRequest::PollDaemon,
            Turn::Print => DialogueRequest::Print(self.user_buf.clone()),
            Turn::ReadUser => DialogueRequest::PollUser,
            Turn::StartDaemon => DialogueRequest::StartSend(
                ClientMessage::UserData(self.buf.clone()),
            ),
            Turn::AwaitDaemon => DialogueRequest::PollSend,
            Turn::StartUser => DialogueRequest::StartUserSend(self.user_buf.clone()),
            Turn::AwaitUser => DialogueRequest::PollUserSend,
        }
    }

    fn ask(self, turn: Turn) -> (after: AfterCommunicating)
        ensures
            after@ == DialogueStep::Ask(self@.at(turn)),
            after matches AfterCommunicating::Ask(session, request) && request@
                == session@.request(),
    {
        let mut session = self;
        session.turn = turn;
        let request = session.request();
        AfterCommunicating::Ask(session, request)
    }

    /// Look round again.
    fn look(self) -> (after: AfterCommunicating)
        ensures
            after@ == DialogueStep::Ask(self@.look()),
            after matches AfterCommunicating::Ask(session, request) && request@
                == session@.request(),
    {
        let mut session = self;
        session.progress = false;
        session.ask(Turn::ReadDaemon)
    }

    /// See to the messages for the daemon, then to the output for the user.
    fn serve_daemon(self) -> (after: AfterCommunicating)
        ensures
            after@ == self@.serve_daemon(),
            after.is_consistent(),
    {
        if self.busy {
            self.ask(Turn::AwaitDaemon)
        } else if self.buf.len() != 0 {
            self.ask(Turn::StartDaemon)
        } else {
            self.serve_user()
        }
    }

    /// See to the output for the user.
    fn serve_user(self) -> (after: AfterCommunicating)
        ensures
            after@ == self@.serve_user(),
            after.is_consistent(),
    {
        if self.front == Front::Terminal {
            self.conclude()
        } else if self.user_busy {
            self.ask(Turn::AwaitUser)
        } else if self.user_buf.len() != 0 {
            self.ask(Turn::StartUser)
        } else {
            self.conclude()
        }
    }

    /// See if the user is done.
    fn conclude(self) -> (after: AfterCommunicating)
        ensures
            after@ == self@.conclude(),
            after.is_consistent(),
    {
        if self.finished == FinishCommunicationState::SawSecondEnter {
            let session = CleaningUpIo::enter(self.front, self.busy);
            let request = session.request();
            AfterCommunicating::CleaningUpIo(session, request)
        } else if self.progress {
            self.look()
        } else {
            self.ask(Turn::Idle)
        }
    }

    /// Act on an event in the login dialogue.
    pub fn poll_communicating(self, event: DialogueEvent) -> (after: AfterCommunicating)
        ensures
            after@ == self@.step(event@),
            after.is_consistent(),
    {
        let mut session = self;
        match (session.turn, event) {
            (Turn::Idle, DialogueEvent::Wake) => session.look(),
            (Turn::Idle, _) => session.ask(Turn::Idle),
            (Turn::ReadDaemon, DialogueEvent::FromDaemon(msg)) => match msg {
                ServerMessage::SshData(data) => {
                    session.user_buf.extend_from_slice(&data);
                    session.progress = true;
                    proof {
                        assert(session.user_buf@ =~= self.user_buf@ + data@);
                    }
                    match session.front {
                        Front::Terminal => session.ask(Turn::Print),
                        Front::Streams => session.ask(Turn::ReadUser),
                    }
                },
                ServerMessage::Error(text) => AfterCommunicating::Failed {
                    newline: session.front == Front::Terminal,
                    error: ConsoleError::Daemon(text),
                },
                other => AfterCommunicating::Failed {
                    newline: session.front == Front::Terminal,
                    error: ConsoleError::UnexpectedMessage(other),
                },
            },
            (Turn::ReadDaemon, DialogueEvent::DaemonClosed) => session.ask(Turn::ReadUser),
            (Turn::ReadDaemon, DialogueEvent::NotReady) => session.ask(Turn::ReadUser),
            (Turn::Print, DialogueEvent::Printed) => {
                session.user_buf.clear();
                session.ask(Turn::ReadUser)
            },
            (Turn::ReadUser, DialogueEvent::FromUser(bytes)) => {
                session.buf.extend_from_slice(&bytes);
                session.finished = session.finished.transition_all(&bytes);
                session.progress = true;
                proof {
                    assert(session.buf@ =~= self.buf@ + bytes@);
                }
                session.serve_daemon()
            },
            (Turn::ReadUser, DialogueEvent::UserClosed) => match session.front {
                Front::Terminal => session.serve_daemon(),
                Front::Streams => AfterCommunicating::Failed {
                    newline: false,
                    error: ConsoleError::TerminalEof,
                },
            },
            (Turn::ReadUser, DialogueEvent::NotReady) => session.serve_daemon(),
            (Turn::ReadUser, DialogueEvent::Failed(_)) => AfterCommunicating::Failed {
                newline: false,
                error: ConsoleError::TerminalError,
            },
            (Turn::StartDaemon, DialogueEvent::Started) => {
                session.buf.clear();
                session.busy = true;
                session.progress = true;
                session.serve_user()
            },
            (Turn::AwaitDaemon, DialogueEvent::Sent) => {
                session.busy = false;
                session.progress = true;
                session.serve_user()
            },
            (Turn::AwaitDaemon, DialogueEvent::NotReady) => session.ask(Turn::Idle),
            (Turn::StartUser, DialogueEvent::Started) => {
                session.user_buf.clear();
                session.user_busy = true;
                session.progress = true;
                session.conclude()
            },
            (Turn::AwaitUser, DialogueEvent::Sent) => {
                session.user_busy = false;
                session.progress = true;
                session.conclude()
            },
            (Turn::AwaitUser, DialogueEvent::NotReady) => session.ask(Turn::Idle),
            (_, DialogueEvent::Failed(cause)) => AfterCommunicating::Failed {
                newline: false,
                error: ConsoleError::Transport(cause),
            },
            (_, _) => {
                let turn = session.turn;
                session.ask(turn)
            },
        }
    }
}

impl AfterCommunicating {
    /// What is asked for is what the state of the session asks for.
    pub open spec fn is_consistent(&self) -> bool {
        match self {
            AfterCommunicating::Ask(session, request) => request@ == session@.request(),
            AfterCommunicating::CleaningUpIo(session, request) => request@ == session@.request(),
            AfterCommunicating::Failed { .. } => true,
        }
    }
}

/// A stretch of the login dialogue: how it stands, and what has gone where.
pub struct DialogueTrace {
    pub model: DialogueModel,
    /// What the daemon passed on from SSH.
    pub from_ssh: Seq<u8>,
    /// What was put on its way to the user of it.
    pub to_user: Seq<u8>,
    /// What the user typed.
    pub from_user: Seq<u8>,
    /// What was put on its way to the daemon of it.
    pub to_daemon: Seq<u8>,
}

impl DialogueTrace {
    /// What there is after one more event, while the dialogue goes on.
    pub open spec fn extend(self, event: DialogueEventView) -> Option<DialogueTrace> {
        match self.model.step(event) {
            DialogueStep::Ask(model) => Some(
                DialogueTrace {
                    model,
                    from_ssh: match (self.model.turn, event) {
                        (
                            Turn::ReadDaemon,
                            DialogueEventView::FromDaemon(ServerMessageView::SshData(data)),
                        ) => self.from_ssh + data,
                        _ => self.from_ssh,
                    },
                    to_user: self.shown_after(event),
                    from_user: self.typed_after(event),
                    to_daemon: self.sent_after(event),
                },
            ),
            _ => None,
        }
    }

    /// What the user has typed after one more event.
    pub open spec fn typed_after(self, event: DialogueEventView) -> Seq<u8> {
        match (self.model.turn, event) {
            (Turn::ReadUser, DialogueEventView::FromUser(bytes)) => self.from_user + bytes,
            _ => self.from_user,
        }
    }

    /// What has gone to the user after one more event.
    pub open spec fn shown_after(self, event: DialogueEventView) -> Seq<u8> {
        match (self.model.request(), event) {
            (DialogueRequestView::Print(bytes), DialogueEventView::Printed) => self.to_user + bytes,
            (
                DialogueRequestView::StartUserSend(bytes),
                DialogueEventView::Started,
            ) => self.to_user + bytes,
            _ => self.to_user,
        }
    }

    /// What has been put on its way to the daemon after one more event.
    pub open spec fn sent_after(self, event: DialogueEventView) -> Seq<u8> {
        match (self.model.request(), event) {
            (
                DialogueRequestView::StartSend(ClientMessageView::UserData(bytes)),
                DialogueEventView::Started,
            ) => self.to_daemon + bytes,
            _ => self.to_daemon,
        }
    }

    /// The input that is held after one more event.
    pub open spec fn input_held_after(self, event: DialogueEventView) -> Seq<u8> {
        match (self.model.turn, event) {
            (Turn::ReadUser, DialogueEventView::FromUser(bytes)) => self.model.buf + bytes,
            (Turn::StartDaemon, DialogueEventView::Started) => Seq::empty(),
            _ => self.model.buf,
        }
    }

    /// The output that is held after one more event, at the end of the dialogue.
    pub open spec fn output_held_after(self, event: DialogueEventView) -> Seq<u8> {
        match (self.model.turn, event) {
            (Turn::StartUser, DialogueEventView::Started) => Seq::empty(),
            _ => self.model.user_buf,
        }
    }

    /// What there is after `events`, if the dialogue goes on so far.
    pub open spec fn of(front: Front, events: Seq<DialogueEventView>) -> Option<DialogueTrace>
        decreases events.len(),
    {
        if events.len() == 0 {
            Some(
                DialogueTrace {
                    model: DialogueModel::start(front),
                    from_ssh: Seq::empty(),
                    to_user: Seq::empty(),
                    from_user: Seq::empty(),
                    to_daemon: Seq::empty(),
                },
            )
        } else {
            match DialogueTrace::of(front, events.drop_last()) {
                Some(trace) => trace.extend(events.last()),
                None => None,
            }
        }
    }
}

/// The console relays faithfully: at any time while the dialogue goes on, what
/// the daemon passed on from SSH is what went to the user, followed by what is
/// still held; likewise for what the user typed. Nothing is lost, doubled or out
/// of order.
pub proof fn law_console_relay_is_faithful(front: Front, events: Seq<DialogueEventView>)
    ensures
        DialogueTrace::of(front, events) matches Some(trace) ==> {
            &&& trace.from_ssh == trace.to_user + trace.model.user_buf
            &&& trace.from_user == trace.to_daemon + trace.model.buf
        },
    decreases events.len(),
{
    if events.len() == 0 {
        let trace = DialogueTrace::of(front, events)->0;
        assert(trace.from_ssh =~= trace.to_user + trace.model.user_buf);
        assert(trace.from_user =~= trace.to_daemon + trace.model.buf);
    } else {
        law_console_relay_is_faithful(front, events.drop_last());
        if let Some(before) = DialogueTrace::of(front, events.drop_last()) {
            if let Some(trace) = before.extend(events.last()) {
                assert(trace.from_ssh =~= trace.to_user + trace.model.user_buf);
                assert(trace.from_user =~= trace.to_daemon + trace.model.buf);
            }
        }
    }
}

/// When the dialogue comes to its end, what the user typed is what has been put
/// on its way to the daemon, followed by what is dropped; likewise for SSH's
/// output, of which a terminal has been shown all. Input is dropped only if the
/// end comes when an earlier message has arrived, at a terminal, or when that or
/// the output for the user has been seen to, between streams.
pub proof fn law_console_end_drops_only_what_is_held(
    front: Front,
    events: Seq<DialogueEventView>,
    event: DialogueEventView,
)
    requires
        DialogueTrace::of(front, events) is Some,
        DialogueTrace::of(front, events)->0.model.step(event) is CleaningUpIo,
    ensures
        ({
            let trace = DialogueTrace::of(front, events)->0;
            let turn = trace.model.turn;
            &&& trace.typed_after(event) == trace.sent_after(event) + trace.input_held_after(event)
            &&& trace.from_ssh == trace.shown_after(event) + trace.output_held_after(event)
            &&& trace.input_held_after(event).len() > 0 ==> turn is AwaitDaemon || turn is StartUser
                || turn is AwaitUser
            &&& front == Front::Terminal ==> {
                &&& trace.input_held_after(event).len() > 0 ==> turn is AwaitDaemon && event
                    == DialogueEventView::Sent
                &&& trace.output_held_after(event).len() == 0
            }
        }),
{
    law_console_relay_is_faithful(front, events);
    lemma_front(front, events);
    let trace = DialogueTrace::of(front, events)->0;
    assert(trace.typed_after(event) =~= trace.sent_after(event) + trace.input_held_after(event));
    assert(trace.from_ssh =~= trace.shown_after(event) + trace.output_held_after(event));
}

proof fn lemma_front(front: Front, events: Seq<DialogueEventView>)
    ensures
        DialogueTrace::of(front, events) matches Some(trace) ==> {
            &&& trace.model.front == front
            &&& front == Front::Terminal ==> {
                &&& !(trace.model.turn is StartUser)
                &&& !(trace.model.turn is AwaitUser)
                &&& trace.model.user_buf.len() > 0 ==> trace.model.turn is Print
            }
        },
    decreases events.len(),
{
    if events.len() > 0 {
        lemma_front(front, events.drop_last());
    }
}

/// The dialogue keeps note of all that the user typed, as if the user had
/// begun at the start of a line.
pub proof fn law_console_heeds_the_user(front: Front, events: Seq<DialogueEventView>)
    ensures
        DialogueTrace::of(front, events) matches Some(trace) ==> trace.model.finished
            == FinishCommunicationState::SawFirstEnter.after(trace.from_user),
    decreases events.len(),
{
    if events.len() > 0 {
        law_console_heeds_the_user(front, events.drop_last());
        if let Some(before) = DialogueTrace::of(front, events.drop_last()) {
            if let (Turn::ReadUser, DialogueEventView::FromUser(bytes)) = (
                before.model.turn,
                events.last(),
            ) {
                crate::console::finish::law_finish_in_parts(
                    FinishCommunicationState::SawFirstEnter,
                    before.from_user,
                    bytes,
                );
            }
        }
    }
}

/// The dialogue comes to its end only when the user has typed a period on a
/// line of its own.
pub proof fn law_console_ends_on_the_period(
    front: Front,
    events: Seq<DialogueEventView>,
    event: DialogueEventView,
)
    requires
        DialogueTrace::of(front, events) is Some,
        DialogueTrace::of(front, events)->0.model.step(event) is CleaningUpIo,
    ensures
        FinishCommunicationState::SawFirstEnter.after(
            DialogueTrace::of(front, events)->0.typed_after(event),
        ) == FinishCommunicationState::SawSecondEnter,
{
    law_console_heeds_the_user(front, events);
    let before = DialogueTrace::of(front, events)->0;
    if let (Turn::ReadUser, DialogueEventView::FromUser(bytes)) = (before.model.turn, event) {
        crate::console::finish::law_finish_in_parts(
            FinishCommunicationState::SawFirstEnter,
            before.from_user,
            bytes,
        );
    }
}

} // verus!
