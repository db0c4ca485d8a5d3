//! The end of a console session, after the user said that the login has
//! succeeded: the daemon is told so, and says that it agrees.

use vstd::prelude::*;

use crate::console::error::{ConsoleError, ConsoleErrorView};
use crate::console::protocol::{ClientMessage, ClientMessageView, ServerMessage, ServerMessageView};

verus! {

/// What is at the user's end.
#[derive(Clone, Copy, Debug, Eq, PartialEq, Structural)]
pub enum Front {
    /// The terminal itself: it is read byte by byte, and written to at once.
    Terminal,
    /// A pair of streams, which carry chunks of bytes.
    Streams,
}

/// What the end of the session is waiting for.
#[derive(Clone, Copy, Debug, Eq, PartialEq, Structural)]
pub enum CleanupTurn {
    /// Something to happen.
    Idle,
    /// The end of the user's input to be put on its way, before all else.
    Enter,
    /// The end of the user's input to be put on its way.
    Start,
    /// A message that is on its way to the daemon to arrive.
    Await,
    /// News from the daemon.
    ReadDaemon,
    /// The terminal to show SSH's last output.
    Print,
}

/// The end of a console session.
#[derive(Debug)]
pub struct CleaningUpIo {
    pub front: Front,
    pub turn: CleanupTurn,
    /// A message is on its way to the daemon.
    pub busy: bool,
    /// The end of the user's input has been put on its way.
    pub sent_finished_message: bool,
    /// The end of the user's input has arrived.
    pub msg_flushed: bool,
    /// Output of SSH for the terminal to show.
    pub trailing: Vec<u8>,
}

/// What happened.
#[derive(Debug, PartialEq)]
pub enum CleanupEvent {
    /// It is time to look again.
    Wake,
    /// What was asked for is not ready.
    NotReady,
    /// The message is on its way.
    Started,
    /// The message has arrived.
    Sent,
    /// The daemon said something.
    FromDaemon(ServerMessage),
    /// The daemon hung up.
    DaemonClosed,
    /// The terminal has shown it.
    Printed,
    /// What was asked for failed.
    Failed(String),
}

/// What the end of the session needs done.
#[derive(Debug, PartialEq)]
pub enum CleanupRequest {
    /// Wait for something to happen.
    Wait,
    /// Put a message on its way to the daemon.
    StartSend(ClientMessage),
    /// See if the message that is on its way has arrived.
    PollSend,
    /// See if the daemon said something.
    PollDaemon,
    /// Show output on the terminal.
    Print(Vec<u8>),
}

/// What comes next.
#[derive(Debug)]
pub enum AfterCleaningUpIo {
    /// Something has to be done first.
    Ask(CleaningUpIo, CleanupRequest),
    /// The session is over.
    Finished,
    /// The session fails. A terminal begins a new line first, if `newline`
    /// says so.
    Failed { newline: bool, error: ConsoleError },
}

/// What a [`CleanupEvent`] says.
pub enum CleanupEventView {
    Wake,
    NotReady,
    Started,
    Sent,
    FromDaemon(ServerMessageView),
    DaemonClosed,
    Printed,
    Failed(Seq<char>),
}

/// What a [`CleanupRequest`] asks for.
pub enum CleanupRequestView {
    Wait,
    StartSend(ClientMessageView),
    PollSend,
    PollDaemon,
    Print(Seq<u8>),
}

/// The end of a session as a value.
pub struct CleanupModel {
    pub front: Front,
    pub turn: CleanupTurn,
    pub busy: bool,
    pub sent_finished_message: bool,
    pub msg_flushed: bool,
    pub trailing: Seq<u8>,
}

/// What an [`AfterCleaningUpIo`] says. What is asked for follows from the
/// state of the session.
pub enum CleanupStep {
    Ask(CleanupModel),
    Finished,
    Failed { newline: bool, error: ConsoleErrorView },
}

impl View for CleanupEvent {
    type V = CleanupEventView;

    open spec fn view(&self) -> CleanupEventView {
        match self {
            CleanupEvent::Wake => CleanupEventView::Wake,
            CleanupEvent::NotReady => CleanupEventView::NotReady,
            CleanupEvent::Started => CleanupEventView::Started,
            CleanupEvent::Sent => CleanupEventView::Sent,
            CleanupEvent::FromDaemon(msg) => CleanupEventView::FromDaemon(msg@),
            CleanupEvent::DaemonClosed => CleanupEventView::DaemonClosed,
            CleanupEvent::Printed => CleanupEventView::Printed,
            CleanupEvent::Failed(cause) => CleanupEventView::Failed(cause@),
        }
    }
}

impl View for CleanupRequest {
    type V = CleanupRequestView;

    open spec fn view(&self) -> CleanupRequestView {
        match self {
            CleanupRequest::Wait => CleanupRequestView::Wait,
            CleanupRequest::StartSend(msg) => CleanupRequestView::StartSend(msg@),
            CleanupRequest::PollSend => CleanupRequestView::PollSend,
            CleanupRequest::PollDaemon => CleanupRequestView::PollDaemon,
            CleanupRequest::Print(bytes) => CleanupRequestView::Print(bytes@),
        }
    }
}

impl View for CleaningUpIo {
    type V = CleanupModel;

    open spec fn view(&self) -> CleanupModel {
        CleanupModel {
            front: self.front,
            turn: self.turn,
            busy: self.busy,
            sent_finished_message: self.sent_finished_message,
            msg_flushed: self.msg_flushed,
            trailing: self.trailing@,
        }
    }
}

impl View for AfterCleaningUpIo {
    type V = CleanupStep;

    open spec fn view(&self) -> CleanupStep {
        match self {
            AfterCleaningUpIo::Ask(session, _) => CleanupStep::Ask(session@),
            AfterCleaningUpIo::Finished => CleanupStep::Finished,
            AfterCleaningUpIo::Failed { newline, error } => CleanupStep::Failed {
                newline: *newline,
                error: error@,
            },
        }
    }
}

impl CleanupModel {
    /// The end of a session in which a message to the daemon is on its way, or
    /// not. If not, the end of the user's input is put on its way at once.
    pub open spec fn enter(front: Front, busy: bool) -> CleanupModel {
        CleanupModel {
            front,
            turn: if busy {
                CleanupTurn::Await
            } else {
                CleanupTurn::Enter
            },
            busy,
            sent_finished_message: false,
            msg_flushed: false,
            trailing: Seq::empty(),
        }
    }

    pub open spec fn at(self, turn: CleanupTurn) -> CleanupModel {
        CleanupModel { turn, ..self }
    }

    /// What is asked for, in the state that the session is in.
    pub open spec fn request(self) -> CleanupRequestView {
        match self.turn {
            CleanupTurn::Idle => CleanupRequestView::Wait,
            CleanupTurn::Enter => CleanupRequestView::StartSend(ClientMessageView::EndOfUserData),
            CleanupTurn::Start => CleanupRequestView::StartSend(ClientMessageView::EndOfUserData),
            CleanupTurn::Await => CleanupRequestView::PollSend,
            CleanupTurn::ReadDaemon => CleanupRequestView::PollDaemon,
            CleanupTurn::Print => CleanupRequestView::Print(self.trailing),
        }
    }

    /// See to the messages for the daemon, then to those from the daemon.
    pub open spec fn look(self) -> CleanupModel {
        if self.busy {
            self.at(CleanupTurn::Await)
        } else if !self.sent_finished_message {
            self.at(CleanupTurn::Start)
        } else {
            CleanupModel { turn: CleanupTurn::ReadDaemon, msg_flushed: true, ..self }
        }
    }

    /// See to the messages for the daemon, unless the daemon's word is all that
    /// is missing: then wait for it.
    pub open spec fn look_or_wait(self) -> CleanupModel {
        if !self.busy && self.sent_finished_message {
            self.at(CleanupTurn::Idle)
        } else {
            self.look()
        }
    }

    /// What comes next. An event that is no answer to what was asked changes
    /// nothing.
    pub open spec fn step(self, event: CleanupEventView) -> CleanupStep {
        match (self.turn, event) {
            (CleanupTurn::Idle, CleanupEventView::Wake) => CleanupStep::Ask(self.look()),
            (CleanupTurn::Enter, CleanupEventView::Started) => CleanupStep::Ask(
                CleanupModel { busy: true, sent_finished_message: true, ..self }.look(),
            ),
            (CleanupTurn::Start, CleanupEventView::Started) => CleanupStep::Ask(
                CleanupModel {
                    turn: CleanupTurn::ReadDaemon,
                    busy: true,
                    sent_finished_message: true,
                    msg_flushed: false,
                    ..self
                },
            ),
            (CleanupTurn::Await, CleanupEventView::Sent) => CleanupStep::Ask(
                CleanupModel {
                    turn: CleanupTurn::ReadDaemon,
                    busy: false,
                    msg_flushed: self.sent_finished_message,
                    ..self
                },
            ),
            (CleanupTurn::Await, CleanupEventView::NotReady) => CleanupStep::Ask(
                self.at(CleanupTurn::Idle),
            ),
            (
                CleanupTurn::ReadDaemon,
                CleanupEventView::FromDaemon(ServerMessageView::Okay),
            ) => if self.msg_flushed {
                CleanupStep::Finished
            } else {
                CleanupStep::Ask(self.look())
            },
            (
                CleanupTurn::ReadDaemon,
                CleanupEventView::FromDaemon(ServerMessageView::SshData(data)),
            ) => match self.front {
                Front::Terminal => CleanupStep::Ask(
                    CleanupModel { turn: CleanupTurn::Print, trailing: data, ..self },
                ),
                Front::Streams => CleanupStep::Ask(self.look()),
            },
            (
                CleanupTurn::ReadDaemon,
                CleanupEventView::FromDaemon(ServerMessageView::Error(text)),
            ) => CleanupStep::Failed {
                newline: self.front == Front::Terminal,
                error: ConsoleErrorView::Daemon(text),
            },
            (CleanupTurn::ReadDaemon, CleanupEventView::DaemonClosed) => CleanupStep::Ask(
                self.look_or_wait(),
            ),
            (CleanupTurn::ReadDaemon, CleanupEventView::NotReady) => CleanupStep::Ask(
                self.look_or_wait(),
            ),
            (CleanupTurn::Print, CleanupEventView::Printed) => CleanupStep::Ask(
                CleanupModel { trailing: Seq::empty(), ..self }.look(),
            ),
            (CleanupTurn::Idle, _) => CleanupStep::Ask(self),
            (_, CleanupEventView::Failed(cause)) => CleanupStep::Failed {
                newline: false,
                error: ConsoleErrorView::Transport(cause),
            },
            _ => CleanupStep::Ask(self),
        }
    }
}

impl CleaningUpIo {
    /// Begin the end of a session in which a message to the daemon is on its
    /// way, or not.
    pub fn enter(front: Front, busy: bool) -> (session: CleaningUpIo)
        ensures
            session@ == CleanupModel::enter(front, busy),
    {
        CleaningUpIo {
            front,
            turn: if busy {
                CleanupTurn::Await
            } else {
                CleanupTurn::Enter
            },
            busy,
            sent_finished_message: false,
            msg_flushed: false,
            trailing: Vec::new(),
        }
    }

    /// What is asked for, in the state that the session is in.
    pub fn request(&self) -> (request: CleanupRequest)
        ensures
            request@ == self@.request(),
    {
        match self.turn {
            CleanupTurn::Idle => CleanupRequest::Wait,
            CleanupTurn::Enter => CleanupRequest::StartSend(ClientMessage::EndOfUserData),
            CleanupTurn::Start => CleanupRequest::StartSend(ClientMessage::EndOfUserData),
            CleanupTurn::Await => CleanupRequest::PollSend,
            CleanupTurn::ReadDaemon => CleanupRequest::PollDaemon,
            CleanupTurn::Print => CleanupRequest::Print(self.trailing.clone()),
        }
    }

    /// See to the messages for the daemon, then to those from the daemon.
    fn look(&mut self)
        ensures
            final(self)@ == old(self)@.look(),
    {
        if self.busy {
            self.turn = CleanupTurn::Await;
        } else if !self.sent_finished_message {
            self.turn = CleanupTurn::Start;
        } else {
            self.turn = CleanupTurn::ReadDaemon;
            self.msg_flushed = true;
        }
    }

    /// See to the messages for the daemon, unless the daemon's word is all that
    /// is missing: then wait for it.
    fn look_or_wait(&mut self)
        ensures
            final(self)@ == old(self)@.look_or_wait(),
    {
        if !self.busy && self.sent_finished_message {
            self.turn = CleanupTurn::Idle;
        } else {
            self.look();
        }
    }

    /// Act on an event at the end of the session.
    pub fn poll_cleaning_up_io(self, event: CleanupEvent) -> (after: AfterCleaningUpIo)
        ensures
            after@ == self@.step(event@),
            after matches AfterCleaningUpIo::Ask(session, request) ==> request@
                == session@.request(),
    {
        let mut session = self;
        match (session.turn, event) {
            (CleanupTurn::Idle, CleanupEvent::Wake) => {
                session.look();
            },
            (CleanupTurn::Idle, _) => {},
            (CleanupTurn::Enter, CleanupEvent::Started) => {
                session.busy = true;
                session.sent_finished_message = true;
                session.look();
            },
            (CleanupTurn::Start, CleanupEvent::Started) => {
                session.busy = true;
                session.sent_finished_message = true;
                session.msg_flushed = false;
                session.turn = CleanupTurn::ReadDaemon;
            },
            (CleanupTurn::Await, CleanupEvent::Sent) => {
                session.busy = false;
                session.msg_flushed = session.sent_finished_message;
                session.turn = CleanupTurn::ReadDaemon;
            },
            (CleanupTurn::Await, CleanupEvent::NotReady) => {
                session.turn = CleanupTurn::Idle;
            },
            (CleanupTurn::ReadDaemon, CleanupEvent::FromDaemon(msg)) => match msg {
                ServerMessage::Okay => {
                    if session.msg_flushed {
                        return AfterCleaningUpIo::Finished;
                    }
                    session.look();
                },
                ServerMessage::SshData(data) => match session.front {
                    Front::Terminal => {
                        session.trailing = data;
                        session.turn = CleanupTurn::Print;
                    },
                    Front::Streams => {
                        session.look();
                    },
                },
                ServerMessage::Error(text) => {
                    return AfterCleaningUpIo::Failed {
                        newline: session.front == Front::Terminal,
                        error: ConsoleError::Daemon(text),
                    };
                },
            },
            (CleanupTurn::ReadDaemon, CleanupEvent::DaemonClosed) => {
                session.look_or_wait();
            },
            (CleanupTurn::ReadDaemon, CleanupEvent::NotReady) => {
                session.look_or_wait();
            },
            (CleanupTurn::Print, CleanupEvent::Printed) => {
                session.trailing.clear();
                session.look();
            },
            (_, CleanupEvent::Failed(cause)) => {
                return AfterCleaningUpIo::Failed {
                    newline: false,
                    error: ConsoleError::Transport(cause),
                };
            },
            (_, _) => {},
        }
        let request = session.request();
        AfterCleaningUpIo::Ask(session, request)
    }
}

/// A stretch of the end of a session, and how often the end of the user's
/// input was put on its way in it.
pub struct CleanupTrace {
    pub model: CleanupModel,
    pub ends_sent: nat,
}

impl CleanupTrace {
    /// What there is after one more event, while the session goes on.
    pub open spec fn extend(self, event: CleanupEventView) -> Option<CleanupTrace> {
        match self.model.step(event) {
            CleanupStep::Ask(model) => Some(
                CleanupTrace {
                    model,
                    ends_sent: match (self.model.request(), event) {
                        (
                            CleanupRequestView::StartSend(ClientMessageView::EndOfUserData),
                            CleanupEventView::Started,
                        ) => self.ends_sent + 1,
                        _ => self.ends_sent,
                    },
                },
            ),
            _ => None,
        }
    }

    /// What there is after `events`, if the session goes on so far.
    pub open spec fn of(front: Front, busy: bool, events: Seq<CleanupEventView>) -> Option<
        CleanupTrace,
    >
        decreases events.len(),
    {
        if events.len() == 0 {
            Some(CleanupTrace { model: CleanupModel::enter(front, busy), ends_sent: 0 })
        } else {
            match CleanupTrace::of(front, busy, events.drop_last()) {
                Some(trace) => trace.extend(events.last()),
                None => None,
            }
        }
    }
}

proof fn lemma_cleanup(front: Front, busy: bool, events: Seq<CleanupEventView>)
    ensures
        CleanupTrace::of(front, busy, events) matches Some(trace) ==> {
            let m = trace.model;
            &&& m.sent_finished_message <==> trace.ends_sent == 1
            &&& !m.sent_finished_message <==> trace.ends_sent == 0
            &&& m.msg_flushed ==> m.sent_finished_message && !m.busy
            &&& (m.turn is Enter || m.turn is Start) ==> !m.sent_finished_message && !m.busy
            &&& m.turn is Await ==> m.busy
        },
    decreases events.len(),
{
    if events.len() > 0 {
        lemma_cleanup(front, busy, events.drop_last());
    }
}

/// The daemon is told of the end of the user's input at most once, and never
/// while another message is on its way.
pub proof fn law_end_of_input_is_sent_once(front: Front, busy: bool, events: Seq<CleanupEventView>)
    ensures
        CleanupTrace::of(front, busy, events) matches Some(trace) ==> {
            &&& trace.ends_sent <= 1
            &&& trace.model.request() is StartSend ==> trace.ends_sent == 0 && !trace.model.busy
        },
{
    lemma_cleanup(front, busy, events);
}

/// A session is over only after the daemon was told of the end of the user's
/// input, and with no message still on its way.
pub proof fn law_session_ends_clean(
    front: Front,
    busy: bool,
    events: Seq<CleanupEventView>,
    event: CleanupEventView,
)
    requires
        CleanupTrace::of(front, busy, events) is Some,
        CleanupTrace::of(front, busy, events)->0.model.step(event) is Finished,
    ensures
        CleanupTrace::of(front, busy, events)->0.ends_sent == 1,
        !CleanupTrace::of(front, busy, events)->0.model.busy,
        event == CleanupEventView::FromDaemon(ServerMessageView::Okay),
{
    lemma_cleanup(front, busy, events);
}

} // verus!
