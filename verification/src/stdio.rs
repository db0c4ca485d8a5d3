//! Borrowing the standard streams: threads read the standard input and write
//! the standard output, and exchange packets with the rest of the program
//! through channels.

use vstd::prelude::*;

verus! {

/// The most bytes that are read from the standard input at a time.
pub const STDIN_CHUNK: usize = 512;

/// What was read from the standard input. `E` is the error of a read; `eof`
/// says if the error is that the input ended unexpectedly.
#[derive(Debug, PartialEq)]
pub enum StdioPacket<E> {
    Data(Vec<u8>),
    Failed { eof: bool, error: E },
}

/// What the thread that reads the standard input is about to do.
#[derive(Clone, Copy, Debug, Eq, PartialEq, Structural)]
pub enum StdinTurn {
    /// Start to run.
    Start,
    /// See if it is to stop.
    CheckStop,
    /// See if the last packet has been taken.
    AwaitSend,
    /// Read.
    Read,
}

/// The thread that reads the standard input.
#[derive(Clone, Copy, Debug, Eq, PartialEq, Structural)]
pub struct StdinState {
    pub turn: StdinTurn,
    /// A packet is on its way.
    pub sending: bool,
}

/// What happened to the thread that reads the standard input.
#[derive(Debug, PartialEq)]
pub enum StdinEvent<E> {
    /// It is running.
    Running,
    /// What was asked for is not ready.
    NotReady,
    /// It is to stop, or nobody can tell it to any more.
    Stop,
    /// The last packet has been taken.
    Sent,
    /// The last packet cannot be delivered.
    SendFailed,
    /// Something was read.
    Packet(StdioPacket<E>),
}

/// What comes next for the thread that reads the standard input.
#[derive(Debug, PartialEq)]
pub enum AfterStdin<E> {
    /// Do what its turn says.
    Continue(StdinState),
    /// Put a packet on its way, then do what its turn says.
    Send(StdinState, StdioPacket<E>),
    /// It is done.
    Break,
    /// It fails, as the last packet cannot be delivered.
    Failed,
}

impl StdinState {
    /// The thread before it runs.
    pub open spec fn start() -> StdinState {
        StdinState { turn: StdinTurn::Start, sending: false }
    }

    /// What comes next. An event that is no answer to what was asked changes
    /// nothing.
    pub open spec fn step<E>(self, event: StdinEvent<E>) -> AfterStdin<E> {
        match (self.turn, event) {
            (StdinTurn::Start, StdinEvent::Running) => AfterStdin::Continue(
                StdinState { turn: StdinTurn::CheckStop, ..self },
            ),
            (StdinTurn::CheckStop, StdinEvent::NotReady) => AfterStdin::Continue(
                StdinState {
                    turn: if self.sending {
                        StdinTurn::AwaitSend
                    } else {
                        StdinTurn::Read
                    },
                    ..self
                },
            ),
            (StdinTurn::CheckStop, StdinEvent::Stop) => AfterStdin::Break,
            (StdinTurn::AwaitSend, StdinEvent::NotReady) => AfterStdin::Continue(
                StdinState { turn: StdinTurn::CheckStop, ..self },
            ),
            (StdinTurn::AwaitSend, StdinEvent::Sent) => AfterStdin::Continue(
                StdinState { turn: StdinTurn::Read, sending: false },
            ),
            (StdinTurn::AwaitSend, StdinEvent::SendFailed) => AfterStdin::Failed,
            (StdinTurn::Read, StdinEvent::Packet(packet)) => AfterStdin::Send(
                StdinState { turn: StdinTurn::CheckStop, sending: true },
                packet,
            ),
            _ => AfterStdin::Continue(self),
        }
    }

    /// A thread that does not run yet.
    pub fn new() -> (state: StdinState)
        ensures
            state == StdinState::start(),
    {
        StdinState { turn: StdinTurn::Start, sending: false }
    }

    /// Act on what happened.
    pub fn next<E>(self, event: StdinEvent<E>) -> (after: AfterStdin<E>)
        ensures
            after == self.step(event),
    {
        match (self.turn, event) {
            (StdinTurn::Start, StdinEvent::Running) => AfterStdin::Continue(
                StdinState { turn: StdinTurn::CheckStop, sending: self.sending },
            ),
            (StdinTurn::CheckStop, StdinEvent::NotReady) => {
                let turn = if self.sending {
                    StdinTurn::AwaitSend
                } else {
                    StdinTurn::Read
                };
                AfterStdin::Continue(StdinState { turn, sending: self.sending })
            },
            (StdinTurn::CheckStop, StdinEvent::Stop) => AfterStdin::Break,
            (StdinTurn::AwaitSend, StdinEvent::NotReady) => AfterStdin::Continue(
                StdinState { turn: StdinTurn::CheckStop, sending: self.sending },
            ),
            (StdinTurn::AwaitSend, StdinEvent::Sent) => AfterStdin::Continue(
                StdinState { turn: StdinTurn::Read, sending: false },
            ),
            (StdinTurn::AwaitSend, StdinEvent::SendFailed) => AfterStdin::Failed,
            (StdinTurn::Read, StdinEvent::Packet(packet)) => AfterStdin::Send(
                StdinState { turn: StdinTurn::CheckStop, sending: true },
                packet,
            ),
            (_, _) => AfterStdin::Continue(self),
        }
    }
}

/// A stretch in the life of the thread that reads the standard input: which
/// packets it has read, which it has put on their way, and how many of those
/// have been taken.
pub struct StdinTrace<E> {
    pub state: StdinState,
    pub read: Seq<StdioPacket<E>>,
    pub sent: Seq<StdioPacket<E>>,
    pub taken: nat,
}

impl<E> StdinTrace<E> {
    /// What there is after one more event, while the thread goes on.
    pub open spec fn extend(self, event: StdinEvent<E>) -> Option<StdinTrace<E>> {
        let read = match (self.state.turn, event) {
            (StdinTurn::Read, StdinEvent::Packet(packet)) => self.read.push(packet),
            _ => self.read,
        };
        let taken = match (self.state.turn, event) {
            (StdinTurn::AwaitSend, StdinEvent::Sent) => self.taken + 1,
            _ => self.taken,
        };
        match self.state.step(event) {
            AfterStdin::Continue(state) => Some(StdinTrace { state, read, taken, ..self }),
            AfterStdin::Send(state, packet) => Some(
                StdinTrace { state, read, taken, sent: self.sent.push(packet) },
            ),
            _ => None,
        }
    }

    /// What there is after `events`, if the thread goes on so far.
    pub open spec fn of(events: Seq<StdinEvent<E>>) -> Option<StdinTrace<E>>
        decreases events.len(),
    {
        if events.len() == 0 {
            Some(
                StdinTrace {
                    state: StdinState::start(),
                    read: Seq::empty(),
                    sent: Seq::empty(),
                    taken: 0,
                },
            )
        } else {
            match StdinTrace::of(events.drop_last()) {
                Some(trace) => trace.extend(events.last()),
                None => None,
            }
        }
    }
}

/// All that is read from the standard input is put on its way, in order. It is
/// read only when all that was read before has been taken, so at most one
/// packet is under way when the thread is told to stop.
pub proof fn law_stdin_is_passed_on<E>(events: Seq<StdinEvent<E>>)
    ensures
        StdinTrace::of(events) matches Some(trace) ==> {
            &&& trace.sent == trace.read
            &&& trace.sent.len() == trace.taken + (if trace.state.sending {
                1int
            } else {
                0int
            })
            &&& trace.state.turn is Read ==> trace.sent.len() == trace.taken
        },
{
    lemma_stdin(events);
}

proof fn lemma_stdin<E>(events: Seq<StdinEvent<E>>)
    ensures
        StdinTrace::of(events) matches Some(trace) ==> {
            &&& trace.sent == trace.read
            &&& trace.sent.len() == trace.taken + (if trace.state.sending {
                1int
            } else {
                0int
            })
            &&& trace.state.turn is Read ==> !trace.state.sending
            &&& trace.state.turn is AwaitSend ==> trace.state.sending
        },
    decreases events.len(),
{
    if events.len() > 0 {
        lemma_stdin(events.drop_last());
    }
}

/// What the channel from the reading thread has.
#[derive(Debug, PartialEq)]
pub enum ChannelEvent<E> {
    /// It is broken.
    Broken,
    /// There is nothing yet.
    NotReady,
    /// There will be nothing more.
    Closed,
    /// A packet.
    Packet(StdioPacket<E>),
}

/// What the stream of input gives.
#[derive(Debug, PartialEq)]
pub enum StdinPoll<E> {
    NotReady,
    Data(Vec<u8>),
    End,
    /// The error of the read.
    Failed(E),
    /// An error of which no more is known.
    FailedOther,
}

/// A stream of bytes from the standard input.
#[derive(Clone, Copy, Debug, Eq, PartialEq, Structural)]
pub struct StdinStream {}

impl StdinStream {
    /// The input ends with the channel, with an empty packet, or with an
    /// unexpected end.
    pub fn poll<E>(&self, event: ChannelEvent<E>) -> (item: StdinPoll<E>)
        ensures
            item == match event {
                ChannelEvent::Broken => StdinPoll::FailedOther,
                ChannelEvent::NotReady => StdinPoll::NotReady,
                ChannelEvent::Closed => StdinPoll::End,
                ChannelEvent::Packet(StdioPacket::Data(data)) => if data@.len() == 0 {
                    StdinPoll::End
                } else {
                    StdinPoll::Data(data)
                },
                ChannelEvent::Packet(StdioPacket::Failed { eof, error }) => if eof {
                    StdinPoll::End
                } else {
                    StdinPoll::Failed(error)
                },
            },
    {
        match event {
            ChannelEvent::Broken => StdinPoll::FailedOther,
            ChannelEvent::NotReady => StdinPoll::NotReady,
            ChannelEvent::Closed => StdinPoll::End,
            ChannelEvent::Packet(packet) => match packet {
                StdioPacket::Data(data) => {
                    if data.len() == 0 {
                        StdinPoll::End
                    } else {
                        StdinPoll::Data(data)
                    }
                },
                StdioPacket::Failed { eof, error } => {
                    if eof {
                        StdinPoll::End
                    } else {
                        StdinPoll::Failed(error)
                    }
                },
            },
        }
    }
}

/// What the channel to the writing thread made of a command.
#[derive(Debug, PartialEq)]
pub enum OfferEvent {
    /// It is broken.
    Broken,
    /// The command is taken.
    Taken,
    /// The channel is full: the command is handed back.
    Full(Option<Vec<u8>>),
}

/// What became of an item that was to be written.
#[derive(Debug, PartialEq)]
pub enum StartSend {
    Ready,
    NotReady(Vec<u8>),
    FailedOther,
}

/// How the flushing of a channel is doing.
#[derive(Clone, Copy, Debug, Eq, PartialEq, Structural)]
pub enum FlushEvent {
    Broken,
    NotReady,
    Flushed,
}

/// How the flushing of the sink is doing.
#[derive(Clone, Copy, Debug, Eq, PartialEq, Structural)]
pub enum FlushPoll {
    NotReady,
    Ready,
    FailedOther,
}

/// A sink of bytes for the standard output. Its thread takes commands: `None`
/// to stop, or bytes to write.
#[derive(Clone, Copy, Debug, Eq, PartialEq, Structural)]
pub struct StdoutSink {}

impl StdoutSink {
    /// The command by which an item is written.
    pub fn command(&self, item: Vec<u8>) -> (command: Option<Vec<u8>>)
        ensures
            command == Some(item),
    {
        Some(item)
    }

    /// What became of the item, after its command was offered to the channel.
    pub fn start_send(&self, event: OfferEvent) -> (r: StartSend)
        requires
            event matches OfferEvent::Full(command) ==> command is Some,
        ensures
            r == match event {
                OfferEvent::Broken => StartSend::FailedOther,
                OfferEvent::Taken => StartSend::Ready,
                OfferEvent::Full(command) => StartSend::NotReady(command->0),
            },
    {
        match event {
            OfferEvent::Broken => StartSend::FailedOther,
            OfferEvent::Taken => StartSend::Ready,
            OfferEvent::Full(command) => StartSend::NotReady(command.unwrap()),
        }
    }

    /// How the flushing is doing.
    pub fn poll_complete(&self, event: FlushEvent) -> (r: FlushPoll)
        ensures
            r == match event {
                FlushEvent::Broken => FlushPoll::FailedOther,
                FlushEvent::NotReady => FlushPoll::NotReady,
                FlushEvent::Flushed => FlushPoll::Ready,
            },
    {
        match event {
            FlushEvent::Broken => FlushPoll::FailedOther,
            FlushEvent::NotReady => FlushPoll::NotReady,
            FlushEvent::Flushed => FlushPoll::Ready,
        }
    }
}

/// What the thread that writes the standard output does next.
#[derive(Debug, PartialEq)]
pub enum StdoutAction {
    /// Write bytes and flush, whether or not that succeeds; then take the next
    /// command.
    Write(Vec<u8>),
    /// Take the next command.
    Skip,
    /// Stop.
    Break,
}

/// What the writing thread does about a command, or about none that could be
/// received.
pub fn write_next(command: Result<Option<Vec<u8>>, ()>) -> (action: StdoutAction)
    ensures
        action == match command {
            Ok(None) => StdoutAction::Break,
            Ok(Some(data)) => StdoutAction::Write(data),
            Err(_) => StdoutAction::Skip,
        },
{
    match command {
        Ok(None) => StdoutAction::Break,
        Ok(Some(data)) => StdoutAction::Write(data),
        Err(_) => StdoutAction::Skip,
    }
}

} // verus!
