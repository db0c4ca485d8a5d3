//! How the daemon starts and how a client gets in touch with it, told of what
//! happens and of what is asked for.

use vstd::prelude::*;

use crate::cli::StundDaemonOptions;
use crate::client::connection::Connection;
use crate::client::establish::{
    AfterEstablish, Establish, EstablishError, EstablishEvent, EstablishRequest, EstablishStage,
};
use crate::client::open::{AfterFirstAck, AfterIssue, DaemonEvent, FirstAck, Issue, Turn};
use crate::daemon::state::{
    AfterStartup, Startup, StartupError, StartupEvent, StartupRequest, State, TunnelState,
};
use crate::protocol;
use crate::protocol::{OpenResult, SendEvent, ServerMessage};

verus! {

/// What a daemon that starts asks for at each stage: first if another one answers on
/// the socket, then that the socket's file be removed, then the log, which nobody but
/// the owner may read, unless it stays in the foreground.
pub proof fn law_what_a_start_asks_for(
    startup: Startup,
    request: StartupRequest,
    socket: Vec<u8>,
    log: Vec<u8>,
)
    requires
        call_ensures(Startup::request, (&startup,), request),
        call_ensures(protocol::socket_path_in, (&startup.home,), socket),
        call_ensures(protocol::log_path_in, (&startup.home,), log),
    ensures
        startup.stage is Probing ==> request is Connect && request->Connect_0@ == socket@,
        startup.stage is Removing ==> request is RemoveSocket && request->RemoveSocket_0@
            == socket@,
        startup.stage is OpeningLog ==> request is OpenLog && request->umask == 0o177,
        startup.stage is OpeningLog && startup.opts.foreground ==> request->file is None,
        startup.stage is OpeningLog && !startup.opts.foreground ==> request->file is Some
            && request->file->0@ == log@,
{
}

/// A start begins by probing the socket, for the options and the home directory that
/// were given.
pub proof fn law_how_a_start_begins(
    opts: StundDaemonOptions,
    home: Vec<u8>,
    begun: (Startup, StartupRequest),
    socket: Vec<u8>,
)
    requires
        call_ensures(Startup::begin_in, (opts, home), begun),
        call_ensures(protocol::socket_path_in, (&home,), socket),
    ensures
        begun.0.opts == opts,
        begun.0.home == home,
        begun.0.stage is Probing,
        begun.1 is Connect,
        begun.1->Connect_0@ == socket@,
{
}

/// A daemon starts only if no other answers, if the socket's file is out of the way
/// and if its log is open. It then knows no tunnels, and serves the socket.
pub proof fn law_how_a_start_goes_on<K>(
    startup: Startup,
    event: StartupEvent,
    after: AfterStartup<K>,
    socket: Vec<u8>,
    host: Seq<char>,
)
    requires
        call_ensures(Startup::next::<K>, (startup, event), after),
        call_ensures(protocol::socket_path_in, (&startup.home,), socket),
    ensures
        startup.stage is Probing && event is Connected ==> after is Failed && after->Failed_0
            is AlreadyRunning,
        startup.stage is Probing && event is NotConnected ==> {
            &&& after is Ask
            &&& after->Ask_0.stage is Removing
            &&& after->Ask_1 is RemoveSocket
            &&& after->Ask_1->RemoveSocket_0@ == socket@
        },
        startup.stage is Removing && (event is Removed || event is NotFound) ==> {
            &&& after is Ask
            &&& after->Ask_0.stage is OpeningLog
            &&& after->Ask_1 is OpenLog
            &&& after->Ask_1->umask == 0o177
            &&& after->Ask_1->file is None <==> startup.opts.foreground
        },
        event matches StartupEvent::RemoveFailed(cause) ==> (startup.stage is Removing ==> after
            == AfterStartup::<K>::Failed(StartupError::System(cause))),
        event matches StartupEvent::LogFailed(cause) ==> (startup.stage is OpeningLog ==> after
            == AfterStartup::<K>::Failed(StartupError::System(cause))),
        startup.stage is OpeningLog && event is LogOpened ==> {
            &&& after is Ready
            &&& after->Ready_0.wf()
            &&& !after->Ready_0@.contains_key(host)
            &&& after->Ready_0.path() == socket@
            &&& after->Ready_0.in_foreground() == startup.opts.foreground
        },
        after is Ask ==> after->Ask_0.opts == startup.opts && after->Ask_0.home == startup.home,
{
}

/// An event that is no answer to what was asked does not move a start.
pub proof fn law_what_a_start_ignores<K>(
    startup: Startup,
    event: StartupEvent,
    after: AfterStartup<K>,
)
    requires
        call_ensures(Startup::next::<K>, (startup, event), after),
        startup.stage is Probing ==> !(event is Connected) && !(event is NotConnected),
        startup.stage is Removing ==> !(event is Removed) && !(event is NotFound) && !(event
            is RemoveFailed),
        startup.stage is OpeningLog ==> !(event is LogOpened) && !(event is LogFailed),
    ensures
        after is Ask,
        after->Ask_0 == startup,
{
}

/// A daemon that starts afresh knows no tunnels and serves the path that was given.
pub proof fn law_a_new_daemon_knows_no_tunnels<K>(
    opts: StundDaemonOptions,
    sock_path: Vec<u8>,
    daemon: State<K>,
    path: &Vec<u8>,
    host: String,
    found: Option<&TunnelState<K>>,
)
    requires
        call_ensures(State::<K>::new, (opts, sock_path), daemon),
        call_ensures(State::<K>::sock_path, (&daemon,), path),
        call_ensures(State::<K>::get, (&daemon, &host), found),
    ensures
        path@ == sock_path@,
        found is None,
{
}

/// An attempt to get in touch begins by connecting. Only one of the two ways to
/// begin may launch a daemon.
pub proof fn law_how_an_attempt_begins(
    launching: (Establish, EstablishRequest),
    trying: (Establish, EstablishRequest),
)
    requires
        call_ensures(Connection::establish, (), launching),
        call_ensures(Connection::try_establish, (), trying),
    ensures
        launching.0.autolaunch,
        !trying.0.autolaunch,
        launching.0.stage is Connecting,
        trying.0.stage is Connecting,
        launching.1 == EstablishRequest::Connect,
        trying.1 == EstablishRequest::Connect,
{
}

/// How an attempt goes on: if nobody answers, a daemon is launched, if that is
/// allowed, given time to come up, and tried once more. Each failure on the way is
/// told with its cause.
pub proof fn law_how_an_attempt_goes_on(
    attempt: Establish,
    event: EstablishEvent,
    after: AfterEstablish,
)
    requires
        call_ensures(Establish::next, (attempt, event), after),
    ensures
        attempt.stage is Connecting || attempt.stage is Reconnecting ==> (event is Connected
            <==> after is Established),
        attempt.stage is Connecting && event is Refused ==> (if attempt.autolaunch {
            &&& after is Ask
            &&& after->Ask_0 == (Establish {
                autolaunch: attempt.autolaunch,
                stage: EstablishStage::Launching,
            })
            &&& after->Ask_1 == EstablishRequest::LaunchDaemon
        } else {
            after is NotRunning
        }),
        attempt.stage is Launching ==> (event matches EstablishEvent::Launched { success } ==> {
            &&& after is Ask
            &&& after->Ask_0 == (Establish {
                autolaunch: attempt.autolaunch,
                stage: EstablishStage::Pausing { launched: success },
            })
            &&& after->Ask_1 == EstablishRequest::Pause(300)
        }),
        attempt.stage is Launching ==> (event matches EstablishEvent::NoExecutable(cause) ==> after
            == AfterEstablish::Failed(EstablishError::NoExecutable(cause))),
        attempt.stage is Launching ==> (event matches EstablishEvent::LaunchFailed(cause) ==> after
            == AfterEstablish::Failed(EstablishError::LaunchFailed(cause))),
        attempt.stage == (EstablishStage::Pausing { launched: true }) && event is Paused ==> {
            &&& after is Ask
            &&& after->Ask_0 == (Establish {
                autolaunch: attempt.autolaunch,
                stage: EstablishStage::Reconnecting,
            })
            &&& after->Ask_1 == EstablishRequest::Connect
        },
        attempt.stage == (EstablishStage::Pausing { launched: false }) && event is Paused ==> after
            == AfterEstablish::Failed(EstablishError::LaunchReportedFailure),
        attempt.stage is Reconnecting ==> (event matches EstablishEvent::Refused(cause) ==> after
            == AfterEstablish::Failed(EstablishError::StillRefused(cause))),
        after is NotRunning ==> !attempt.autolaunch && attempt.stage is Connecting,
{
}

/// An event that is no answer to what was asked does not move an attempt: the same is
/// asked for again.
pub proof fn law_what_an_attempt_ignores(
    attempt: Establish,
    event: EstablishEvent,
    after: AfterEstablish,
)
    requires
        call_ensures(Establish::next, (attempt, event), after),
        attempt.stage is Connecting || attempt.stage is Reconnecting ==> !(event is Connected)
            && !(event is Refused),
        attempt.stage is Launching ==> !(event is Launched) && !(event is NoExecutable) && !(event
            is LaunchFailed),
        attempt.stage is Pausing ==> !(event is Paused),
    ensures
        after is Ask,
        after->Ask_0 == attempt,
        attempt.stage is Connecting || attempt.stage is Reconnecting ==> after->Ask_1
            == EstablishRequest::Connect,
        attempt.stage is Launching ==> after->Ask_1 == EstablishRequest::LaunchDaemon,
        attempt.stage is Pausing ==> after->Ask_1 == EstablishRequest::Pause(300),
{
}

/// Once the open command is sent, the daemon's first reply is awaited.
pub proof fn law_how_an_open_command_is_sent(issue: Issue, event: SendEvent, after: AfterIssue)
    requires
        call_ensures(Issue::poll_issue, (issue, event), after),
    ensures
        event is Pending ==> after == AfterIssue::Wait(issue),
        event is Sent ==> after is FirstAck && after->FirstAck_0.read_input == issue.read_input
            && !after->FirstAck_0.saw_ok,
        event matches SendEvent::Failed(cause) ==> after is Failed && after->Failed_0 is Transport
            && after->Failed_0->Transport_0@ == cause@,
{
}

/// What the daemon's first reply to an open command leads to: a login dialogue, which
/// begins with nothing held, once SSH runs and all is read; the end, if the tunnel was
/// open; or an error, with just what came.
pub proof fn law_what_the_first_reply_leads_to(
    ack: FirstAck,
    event: DaemonEvent,
    after: AfterFirstAck,
)
    requires
        call_ensures(FirstAck::poll_first_ack, (ack, event), after),
    ensures
        event == DaemonEvent::Message(ServerMessage::Okay) ==> after == AfterFirstAck::PollAgain(
            FirstAck { read_input: ack.read_input, saw_ok: true },
        ),
        event == DaemonEvent::Message(ServerMessage::TunnelAlreadyOpen) <==> after is Finished,
        after is Finished ==> after->Finished_0 == OpenResult::AlreadyOpen,
        event is NotReady && !ack.saw_ok ==> after == AfterFirstAck::Wait(ack),
        event is NotReady && ack.saw_ok <==> after is Communicating,
        after matches AfterFirstAck::Communicating(session) ==> {
            &&& session.turn == Turn::Idle
            &&& session.read_input == ack.read_input
            &&& !session.succeeded
            &&& session.user_buf@.len() == 0
            &&& session.ssh_buf@.len() == 0
        },
        event matches DaemonEvent::Message(ServerMessage::Error(words)) ==> after is Failed
            && after->Failed_0 is Daemon && after->Failed_0->Daemon_0@ == words@,
        event matches DaemonEvent::Message(ServerMessage::SshData(data)) ==> after is Failed
            && after->Failed_0 is UnexpectedResponse && after->Failed_0->UnexpectedResponse_0
            is SshData && after->Failed_0->UnexpectedResponse_0->SshData_0@ == data@,
        event == DaemonEvent::Message(ServerMessage::TunnelNotOpen) ==> after is Failed
            && after->Failed_0 is UnexpectedResponse && after->Failed_0->UnexpectedResponse_0
            is TunnelNotOpen,
        event matches DaemonEvent::Message(ServerMessage::StatusResponse(info)) ==> after is Failed
            && after->Failed_0 is UnexpectedResponse && after->Failed_0->UnexpectedResponse_0
            is StatusResponse && after->Failed_0->UnexpectedResponse_0->StatusResponse_0@ == info@,
        event is Closed ==> after is Failed && after->Failed_0 is ConnectionClosed,
        event matches DaemonEvent::Failed(cause) ==> after is Failed && after->Failed_0
            is Transport && after->Failed_0->Transport_0@ == cause@,
{
}

} // verus!
