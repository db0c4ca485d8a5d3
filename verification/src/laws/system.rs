//! Pseudo-terminals, child processes, the standard streams, the terminal's echo
//! and the codec, told of what goes in and what comes out.

use vstd::prelude::*;

use crate::codecs::{CodecError, FailureBytesCodec};
use crate::pty;
use crate::pty::{
    AfterOpenCall, AfterSetupCall, AfterSpawnStep, AsyncPtyMasterReadHalf, AsyncPtyMasterWriteHalf,
    Child, ExitEvent, ExitStep, FdPoll, HalfStep, IoError, IoErrorKind, OpenCall, Opening,
    SetupCall, SpawnStep, Spawning,
};
use crate::stdio;
use crate::stdio::{
    AfterStdin, ChannelEvent, FlushEvent, FlushPoll, OfferEvent, StartSend, StdinEvent, StdinPoll,
    StdinState, StdinStream, StdinTurn, StdioPacket, StdoutAction, StdoutSink,
};
use crate::terminal;
use crate::terminal::EchoRequest;

verus! {

/// A master is opened by `posix_openpt`, then granted, then unlocked; then it is
/// open, unless it is to be made nonblocking. Each failure ends it.
pub proof fn law_how_a_master_is_opened(opening: Opening, r: i32, after: AfterOpenCall)
    requires
        call_ensures(Opening::returned, (opening, r), after),
    ensures
        opening.call is OpenPt || opening.call is GetFlags || opening.call is SetFlags ==> (after
            is Failed <==> r < 0),
        opening.call is GrantPt || opening.call is UnlockPt ==> (after is Failed <==> r != 0),
        opening.call is OpenPt && r >= 0 ==> after == AfterOpenCall::Call(
            Opening { nonblock: opening.nonblock, fd: r, call: OpenCall::GrantPt },
        ),
        opening.call is GrantPt && r == 0 ==> after == AfterOpenCall::Call(
            Opening { nonblock: opening.nonblock, fd: opening.fd, call: OpenCall::UnlockPt },
        ),
        opening.call is UnlockPt && r == 0 && opening.nonblock is None ==> after
            == AfterOpenCall::Opened(opening.fd),
        opening.call is UnlockPt && r == 0 && opening.nonblock is Some ==> after
            == AfterOpenCall::Call(
            Opening { nonblock: opening.nonblock, fd: opening.fd, call: OpenCall::GetFlags },
        ),
        opening.call is GetFlags && r >= 0 && opening.nonblock is Some ==> after
            == AfterOpenCall::Call(
            Opening {
                nonblock: opening.nonblock,
                fd: opening.fd,
                call: OpenCall::SetFlags(r | opening.nonblock->0),
            },
        ),
        opening.call is SetFlags && r >= 0 ==> after == AfterOpenCall::Opened(opening.fd),
{
}

/// The opening of a master begins with `posix_openpt`, before there is a file.
pub proof fn law_how_an_opening_begins(nonblock: Option<i32>, opening: Opening)
    requires
        call_ensures(Opening::begin, (nonblock,), opening),
    ensures
        opening.call == OpenCall::OpenPt,
        opening.nonblock == nonblock,
        opening.fd < 0,
{
}

/// The name of a slave is all that stands before the first zero byte.
pub proof fn law_a_name_ends_at_the_first_zero(buf: &[u8], name: Vec<u8>, end: int)
    requires
        0 <= end < buf@.len(),
        buf@[end] == 0,
        forall|i: int| 0 <= i < end ==> buf@[i] != 0,
        call_ensures(pty::pts_name, (buf,), name),
    ensures
        name@ == buf@.take(end),
{
    let n = name@.len() as int;
    if n > end {
        assert(name@[end] == buf@[end]);
        assert(name@.contains(0));
    } else if n < end {
        assert(buf@[n] != 0);
    }
}

/// The set-up of a child process goes on only if each call succeeds, in this order:
/// raw mode, if it is wanted, leaving the master, a session of its own, and the
/// slave as its terminal.
pub proof fn law_how_a_child_is_set_up(
    raw: bool,
    begun: SetupCall,
    call: SetupCall,
    r: i32,
    after: AfterSetupCall,
)
    requires
        call_ensures(SetupCall::begin, (raw,), begun),
        call_ensures(SetupCall::returned, (call, r), after),
    ensures
        raw ==> begun == SetupCall::GetAttributes,
        !raw ==> begun == SetupCall::CloseMaster,
        call is NewSession ==> (after is Failed <==> r < 0),
        !(call is NewSession) ==> (after is Failed <==> r != 0),
        !(after is Failed) ==> {
            &&& call is GetAttributes <==> after == AfterSetupCall::Call(SetupCall::SetRaw)
            &&& call is SetRaw <==> after == AfterSetupCall::Call(SetupCall::CloseMaster)
            &&& call is CloseMaster <==> after == AfterSetupCall::Call(SetupCall::NewSession)
            &&& call is NewSession <==> after == AfterSetupCall::Call(SetupCall::ControlTerminal)
            &&& call is ControlTerminal <==> after == AfterSetupCall::Ready
        },
{
}

/// A program is started once its three streams are on the slave; each failure ends
/// it; and raw mode is what the two ways to begin differ in.
pub proof fn law_how_a_program_is_started(
    async_one: Spawning,
    pristine: Spawning,
    spawning: Spawning,
    success: bool,
    after: AfterSpawnStep,
)
    requires
        call_ensures(Spawning::spawn_pty_async, (), async_one),
        call_ensures(Spawning::spawn_pty_async_pristine, (), pristine),
        call_ensures(Spawning::next, (spawning, success), after),
    ensures
        async_one.raw,
        !pristine.raw,
        async_one.step == SpawnStep::OpenSlave,
        pristine.step == SpawnStep::OpenSlave,
        after is Failed <==> !success,
        success ==> {
            &&& spawning.step is OpenSlave <==> after == AfterSpawnStep::Step(SpawnStep::Stdin)
            &&& spawning.step is Stdin <==> after == AfterSpawnStep::Step(SpawnStep::Stdout)
            &&& spawning.step is Stdout <==> after == AfterSpawnStep::Step(SpawnStep::Stderr)
            &&& spawning.step is Stderr && spawning.raw ==> after == AfterSpawnStep::Step(
                SpawnStep::Spawn(SetupCall::GetAttributes),
            )
            &&& spawning.step is Stderr && !spawning.raw ==> after == AfterSpawnStep::Step(
                SpawnStep::Spawn(SetupCall::CloseMaster),
            )
            &&& spawning.step is Spawn <==> after == AfterSpawnStep::Spawned
        },
{
}

/// How the exit of a child process is awaited: `waitpid` is called when there is
/// reason to, again if it was interrupted; if the process is still there, a signal
/// is awaited. Its exit is reported with the status that it left.
pub proof fn law_how_an_exit_is_awaited(child: &mut Child, event: ExitEvent, step: ExitStep)
    requires
        !old(child).is_reaped(),
        event matches ExitEvent::Waited(result) ==> result.n > 0 ==> result.n == old(child).pid(),
        call_ensures(Child::poll_exit, (child, event), step),
    ensures
        event is Wake || event is SignalReady ==> step == ExitStep::Wait,
        event is SignalNotReady ==> step == ExitStep::NotReady,
        event is SignalFailed ==> step == ExitStep::Failed,
        event matches ExitEvent::Waited(result) ==> {
            &&& result.n == 0 <==> step == ExitStep::PollSignal
            &&& result.n > 0 <==> step == ExitStep::Ready(result.status)
            &&& result.n < 0 && result.interrupted <==> step == ExitStep::Wait
            &&& result.n < 0 && !result.interrupted <==> step == ExitStep::Failed
        },
{
}

/// A process that was seen to exit is never sent a signal, and every other one is
/// sent one when it is to be killed.
pub proof fn law_the_dead_get_no_signals(
    child: &mut Child,
    event: ExitEvent,
    step: ExitStep,
    later: &Child,
    exited: bool,
    kill: bool,
)
    requires
        !old(child).is_reaped(),
        event matches ExitEvent::Waited(result) ==> result.n > 0 ==> result.n == old(child).pid(),
        call_ensures(Child::poll_exit, (child, event), step),
        *later == *final(child),
        call_ensures(Child::has_exited, (later,), exited),
        call_ensures(Child::kill, (later,), kill),
    ensures
        exited <==> step is Ready,
        kill <==> !exited,
        later.pid() == old(child).pid(),
{
}

/// A process that was just started is killed when its value goes, unless the
/// process is to live on without it.
pub proof fn law_a_child_dies_with_its_value(
    pid: u32,
    child: Child,
    id: u32,
    exited: bool,
    kill: bool,
    killed: bool,
    forgotten: Child,
    still_killed: bool,
    forgotten_id: u32,
)
    requires
        call_ensures(Child::new, (pid,), child),
        call_ensures(Child::id, (&child,), id),
        call_ensures(Child::has_exited, (&child,), exited),
        call_ensures(Child::kill, (&child,), kill),
        call_ensures(Child::dropped, (&child,), killed),
        call_ensures(Child::forget, (child,), forgotten),
        call_ensures(Child::dropped, (&forgotten,), still_killed),
        call_ensures(Child::id, (&forgotten,), forgotten_id),
    ensures
        id == pid,
        !exited,
        kill,
        killed,
        !still_killed,
        forgotten_id == pid,
{
}

/// Whether a value that goes takes its process with it: only if it is meant to, and
/// never a process that has exited.
pub proof fn law_when_a_dropped_child_is_killed(
    child: Child,
    killed: bool,
    exited: bool,
    forgotten: Child,
    still_killed: bool,
    still_exited: bool,
)
    requires
        call_ensures(Child::dropped, (&child,), killed),
        call_ensures(Child::has_exited, (&child,), exited),
        call_ensures(Child::forget, (child,), forgotten),
        call_ensures(Child::dropped, (&forgotten,), still_killed),
        call_ensures(Child::has_exited, (&forgotten,), still_exited),
    ensures
        exited ==> !killed,
        !exited ==> killed == child.kills_on_drop(),
        !still_killed,
        still_exited == exited,
{
}

/// Either half of a master uses it if it can lock it. If not, what cannot wait
/// fails, with an error that says that it would block, and what can wait is told to.
pub proof fn law_how_halves_use_the_master(
    fd: i32,
    halves: (AsyncPtyMasterReadHalf, AsyncPtyMasterWriteHalf),
    locked: bool,
    at_once: [HalfStep; 3],
    when_ready: [HalfStep; 3],
    files: (FdPoll, FdPoll),
    i: int,
)
    requires
        call_ensures(pty::split, (fd,), halves),
        call_ensures(AsyncPtyMasterReadHalf::read, (&halves.0, locked), at_once@[0]),
        call_ensures(AsyncPtyMasterWriteHalf::write, (&halves.1, locked), at_once@[1]),
        call_ensures(AsyncPtyMasterWriteHalf::flush, (&halves.1, locked), at_once@[2]),
        call_ensures(AsyncPtyMasterReadHalf::read_buf, (&halves.0, locked), when_ready@[0]),
        call_ensures(AsyncPtyMasterWriteHalf::shutdown, (&halves.1, locked), when_ready@[1]),
        call_ensures(AsyncPtyMasterWriteHalf::write_buf, (&halves.1, locked), when_ready@[2]),
        call_ensures(AsyncPtyMasterReadHalf::as_async_pty_fd, (&halves.0, locked), files.0),
        call_ensures(AsyncPtyMasterWriteHalf::as_async_pty_fd, (&halves.1, locked), files.1),
        0 <= i < 3,
    ensures
        locked ==> at_once@[i] == HalfStep::Proceed && when_ready@[i] == HalfStep::Proceed,
        locked ==> files.0 == FdPoll::Ready(fd) && files.1 == FdPoll::Ready(fd),
        !locked ==> at_once@[i] is Failed && at_once@[i]->Failed_0.kind == IoErrorKind::WouldBlock
            && at_once@[i]->Failed_0.text@ == "would block"@,
        !locked ==> when_ready@[i] == HalfStep::NotReady,
        !locked ==> files.0 == FdPoll::NotReady && files.1 == FdPoll::NotReady,
{
    assert(i == 0 || i == 1 || i == 2);
}

/// What the thread that reads the standard input does: it reads only if it is not to
/// stop and if its last packet has been taken, and passes on just what it read.
pub proof fn law_how_input_is_read<E>(state: StdinState, event: StdinEvent<E>, after: AfterStdin<E>)
    requires
        call_ensures(StdinState::next::<E>, (state, event), after),
    ensures
        state.turn is Start && event is Running ==> after == AfterStdin::<E>::Continue(
            StdinState { turn: StdinTurn::CheckStop, sending: state.sending },
        ),
        state.turn is CheckStop && event is NotReady && state.sending ==> after == AfterStdin::<
            E,
        >::Continue(StdinState { turn: StdinTurn::AwaitSend, sending: true }),
        state.turn is CheckStop && event is NotReady && !state.sending ==> after == AfterStdin::<
            E,
        >::Continue(StdinState { turn: StdinTurn::Read, sending: false }),
        after is Break <==> state.turn is CheckStop && event is Stop,
        state.turn is AwaitSend && event is NotReady ==> after == AfterStdin::<E>::Continue(
            StdinState { turn: StdinTurn::CheckStop, sending: state.sending },
        ),
        state.turn is AwaitSend && event is Sent ==> after == AfterStdin::<E>::Continue(
            StdinState { turn: StdinTurn::Read, sending: false },
        ),
        after is Failed <==> state.turn is AwaitSend && event is SendFailed,
        after is Send <==> state.turn is Read && event is Packet,
        event matches StdinEvent::Packet(packet) ==> (state.turn is Read ==> after
            == AfterStdin::Send(
            StdinState { turn: StdinTurn::CheckStop, sending: true },
            packet,
        )),
{
}

/// An event that is no answer to what the reading thread is about to do changes
/// nothing, and a new thread has nothing under way.
pub proof fn law_what_reading_ignores<E>(
    begun: StdinState,
    state: StdinState,
    event: StdinEvent<E>,
    after: AfterStdin<E>,
)
    requires
        call_ensures(StdinState::new, (), begun),
        call_ensures(StdinState::next::<E>, (state, event), after),
        state.turn is Start ==> !(event is Running),
        state.turn is CheckStop ==> !(event is NotReady) && !(event is Stop),
        state.turn is AwaitSend ==> !(event is NotReady) && !(event is Sent) && !(event
            is SendFailed),
        state.turn is Read ==> !(event is Packet),
    ensures
        after == AfterStdin::<E>::Continue(state),
        begun.turn is Start,
        !begun.sending,
{
}

/// What the stream of input gives: all data that is not empty, just as it came, and
/// the end where the input ends.
pub proof fn law_what_input_gives<E>(
    stream: &StdinStream,
    event: ChannelEvent<E>,
    item: StdinPoll<E>,
)
    requires
        call_ensures(StdinStream::poll::<E>, (stream, event), item),
    ensures
        event is NotReady <==> item is NotReady,
        event is Broken <==> item is FailedOther,
        event is Closed ==> item is End,
        event matches ChannelEvent::Packet(StdioPacket::Data(data)) ==> {
            &&& data@.len() == 0 ==> item is End
            &&& data@.len() > 0 ==> item == StdinPoll::<E>::Data(data)
        },
        event matches ChannelEvent::Packet(StdioPacket::Failed { eof, error }) ==> {
            &&& eof ==> item is End
            &&& !eof ==> item == StdinPoll::Failed(error)
        },
{
}

/// What is to be written is written just as it came, or handed back just as it came
/// if it cannot be taken yet.
pub proof fn law_what_output_takes(
    sink: &StdoutSink,
    item: Vec<u8>,
    command: Option<Vec<u8>>,
    action: StdoutAction,
    back: StartSend,
    taken: StartSend,
    broken: StartSend,
)
    requires
        call_ensures(StdoutSink::command, (sink, item), command),
        call_ensures(stdio::write_next, (Ok(command),), action),
        call_ensures(StdoutSink::start_send, (sink, OfferEvent::Full(command)), back),
        call_ensures(StdoutSink::start_send, (sink, OfferEvent::Taken), taken),
        call_ensures(StdoutSink::start_send, (sink, OfferEvent::Broken), broken),
    ensures
        action == StdoutAction::Write(item),
        back == StartSend::NotReady(item),
        taken == StartSend::Ready,
        broken == StartSend::FailedOther,
{
}

/// The writing thread stops if it is told to, and does not mind a command that could
/// not be received.
pub proof fn law_when_output_stops(stop: StdoutAction, skip: StdoutAction)
    requires
        call_ensures(stdio::write_next, (Ok(None),), stop),
        call_ensures(stdio::write_next, (Err(()),), skip),
    ensures
        stop == StdoutAction::Break,
        skip == StdoutAction::Skip,
{
}

/// The sink is flushed when its channel is.
pub proof fn law_when_output_is_flushed(sink: &StdoutSink, event: FlushEvent, poll: FlushPoll)
    requires
        call_ensures(StdoutSink::poll_complete, (sink, event), poll),
    ensures
        event is Flushed <==> poll is Ready,
        event is NotReady <==> poll is NotReady,
        event is Broken <==> poll is FailedOther,
{
}

/// The echo of a terminal is switched as wanted, with all its other modes as they
/// were. What is not a terminal is left alone, and failures are told.
pub proof fn law_how_the_echo_is_switched(
    on_terminal: bool,
    begun: EchoRequest,
    outcome: i32,
    c_lflag: u32,
    echo: u32,
    active: bool,
    request: EchoRequest,
    set_outcome: i32,
    end: EchoRequest,
)
    requires
        call_ensures(terminal::toggle_terminal_echo, (on_terminal,), begun),
        call_ensures(terminal::echo_queried, (outcome, c_lflag, echo, active), request),
        call_ensures(terminal::echo_set, (set_outcome,), end),
    ensures
        on_terminal ==> begun is Query,
        !on_terminal ==> begun is Nothing,
        outcome != 0 ==> request is Print && request->Print_0@
            == "error querying terminal attributes?!"@,
        outcome == 0 ==> {
            &&& request is Change
            &&& request->c_lflag & !echo == c_lflag & !echo
            &&& active ==> request->c_lflag & echo == echo
            &&& !active ==> request->c_lflag & echo == 0
        },
        set_outcome != 0 ==> end is Print && end->Print_0@
            == "error setting terminal attributes?!"@,
        set_outcome == 0 ==> end is Nothing,
{
    terminal::law_only_the_echo_changes(c_lflag, echo, active);
}

/// What is decoded is all that came in, and nothing is kept back; there is an item
/// exactly if something came in.
pub proof fn law_all_that_came_in_is_decoded(
    codec: &mut FailureBytesCodec,
    src: &mut Vec<u8>,
    r: Result<Option<Vec<u8>>, CodecError>,
)
    requires
        call_ensures(FailureBytesCodec::decode, (codec, src), r),
    ensures
        r is Ok,
        r->Ok_0 is Some <==> old(src)@.len() > 0,
        r->Ok_0 matches Some(item) ==> item@ == old(src)@,
        final(src)@.len() == 0,
{
}

/// What is encoded stands behind what was waiting, with nothing added and nothing
/// dropped.
pub proof fn law_all_that_goes_out_is_encoded(
    codec: &mut FailureBytesCodec,
    item: Vec<u8>,
    dst: &mut Vec<u8>,
    r: Result<(), CodecError>,
)
    requires
        old(dst)@.len() > 0 ==> old(dst)@.len() + item@.len() <= isize::MAX,
        call_ensures(FailureBytesCodec::encode, (codec, item, dst), r),
    ensures
        r is Ok,
        final(dst)@ == old(dst)@ + item@,
{
}

/// The error of what would have to wait says so, in kind and in words.
pub proof fn law_what_would_block_says(error: IoError)
    requires
        call_ensures(pty::would_block, (), error),
    ensures
        error.kind == IoErrorKind::WouldBlock,
        error.text@ == "would block"@,
{
}

} // verus!
