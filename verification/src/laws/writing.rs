//! How things are written: numbers, messages, errors, lines of the log and paths,
//! told of what is written and of the text that comes out.

use vstd::prelude::*;

use crate::cli::StundDaemonOptions;
use crate::client::error::ClientError;
use crate::client::establish::EstablishError;
use crate::console::connection;
use crate::console::connection::ConnectPlan;
use crate::daemon::log::LogEntry;
use crate::daemon::monitor::ChildEvent;
use crate::daemon::state::{Startup, StartupError, StartupRequest};
use crate::protocol;
use crate::protocol::{
    ClientMessage, CloseParameters, NoHomeDirectory, OpenParameters, ServerMessage,
    StatusInformation, TunnelInformation, TunnelState,
};
use crate::text;

verus! {

/// What number some decimal digits stand for.
pub open spec fn number_of(digits: Seq<char>) -> int
    decreases digits.len(),
{
    if digits.len() == 0 {
        0
    } else {
        10 * number_of(digits.drop_last()) + (digits.last() as int - '0' as int)
    }
}

/// Whether a text is made of decimal digits, with no zero in front of others.
pub open spec fn is_decimal(digits: Seq<char>) -> bool {
    &&& digits.len() > 0
    &&& forall|i: int| 0 <= i < digits.len() ==> '0' <= #[trigger] digits[i] <= '9'
    &&& digits.len() > 1 ==> digits[0] != '0'
}

proof fn lemma_digit(d: int)
    requires
        0 <= d < 10,
    ensures
        text::digit_text(d).len() == 1,
        text::digit_text(d)[0] as int == '0' as int + d,
{
    reveal_strlit("0123456789");
}

proof fn lemma_decimal(n: nat)
    ensures
        is_decimal(text::decimal_text(n)),
        number_of(text::decimal_text(n)) == n,
        n > 0 ==> text::decimal_text(n)[0] != '0',
    decreases n,
{
    reveal_with_fuel(number_of, 2);
    if n < 10 {
        lemma_digit(n as int);
        assert(text::decimal_text(n).drop_last() =~= Seq::empty());
    } else {
        let front = text::decimal_text(n / 10);
        let digits = text::decimal_text(n);
        lemma_decimal(n / 10);
        lemma_digit((n % 10) as int);
        assert(digits.drop_last() =~= front);
        assert(digits[0] == front[0]);
        assert forall|i: int| 0 <= i < digits.len() implies '0' <= #[trigger] digits[i] <= '9' by {
            if i < front.len() {
                assert(digits[i] == front[i]);
            }
        }
    }
}

/// A number that is written can be read back: its digits stand for it, there are no
/// more of them than needed, and a negative one has a sign in front.
pub proof fn law_numbers_can_be_read_back(n: i32, shown: String)
    requires
        call_ensures(text::show_signed, (n,), shown),
    ensures
        n >= 0 ==> is_decimal(shown@) && number_of(shown@) == n,
        n < 0 ==> shown@.len() > 0 && shown@[0] == '-' && is_decimal(shown@.skip(1)) && number_of(
            shown@.skip(1),
        ) == -n,
{
    reveal_strlit("-");
    if n < 0 {
        lemma_decimal((-n) as nat);
        assert(shown@.skip(1) =~= text::decimal_text((-n) as nat));
    } else {
        lemma_decimal(n as nat);
    }
}

/// Bytes are written in brackets, as numbers with commas between them: none is left
/// out, in their order.
pub proof fn law_every_byte_is_written(
    bytes: Vec<u8>,
    longer: Vec<u8>,
    last: u8,
    shown: String,
    longer_shown: String,
    number: String,
)
    requires
        longer@ == bytes@.push(last),
        call_ensures(text::show_bytes, (&bytes,), shown),
        call_ensures(text::show_bytes, (&longer,), longer_shown),
        call_ensures(text::show_signed, (last as i32,), number),
    ensures
        bytes@.len() == 0 ==> shown@ == "[]"@ && longer_shown@ == "["@ + number@ + "]"@,
        bytes@.len() > 0 ==> longer_shown@ == shown@.drop_last() + ", "@ + number@ + "]"@,
{
    reveal_strlit("[");
    reveal_strlit("]");
    reveal_strlit("[]");
    assert(longer@.drop_last() =~= bytes@);
    assert(longer@.last() == last);
    if bytes@.len() == 0 {
        assert(shown@ =~= "[]"@);
    } else {
        assert(shown@.drop_last() =~= "["@ + text::listed_text(bytes@));
        assert(longer_shown@ =~= shown@.drop_last() + ", "@ + number@ + "]"@);
    }
}

/// How what holds something, and what has a host, is written.
pub proof fn law_what_is_held_is_written(
    name: &str,
    held: String,
    holding: String,
    host: String,
    parameters: String,
    joined: String,
)
    requires
        call_ensures(text::show_holding, (name, held), holding),
        call_ensures(text::show_host, (name, &host), parameters),
        call_ensures(text::both, (name, &host), joined),
    ensures
        holding@ == name@ + "("@ + held@ + ")"@,
        parameters@ == name@ + " { host: "@ + text::quoted_text(host@) + " }"@,
        joined@ == name@ + host@,
{
}

/// A state is written by its name.
pub proof fn law_states_have_names(open: String, closed: String, died: String)
    requires
        call_ensures(TunnelState::show, (&TunnelState::Open,), open),
        call_ensures(TunnelState::show, (&TunnelState::Closed,), closed),
        call_ensures(TunnelState::show, (&TunnelState::Died,), died),
    ensures
        open@ == "Open"@,
        closed@ == "Closed"@,
        died@ == "Died"@,
{
}

/// How a client's message is written: by its name, with all that it holds.
pub proof fn law_client_messages_are_written_in_full(msg: ClientMessage, shown: String)
    requires
        call_ensures(ClientMessage::show, (&msg,), shown),
    ensures
        msg matches ClientMessage::Open(params) ==> shown@ == "Open"@ + "("@ + (
        "OpenParameters"@ + " { host: "@ + text::quoted_text(params.host@) + " }"@) + ")"@,
        msg matches ClientMessage::Close(params) ==> shown@ == "Close"@ + "("@ + (
        "CloseParameters"@ + " { host: "@ + text::quoted_text(params.host@) + " }"@) + ")"@,
        msg is QueryStatus ==> shown@ == "QueryStatus"@,
        msg is Exit ==> shown@ == "Exit"@,
        msg is Goodbye ==> shown@ == "Goodbye"@,
{
}

/// How a server's message is written: by its name, with all that it holds.
pub proof fn law_server_messages_are_written_in_full(msg: ServerMessage, shown: String)
    requires
        call_ensures(ServerMessage::show, (&msg,), shown),
    ensures
        msg is Okay ==> shown@ == "Ok"@,
        msg matches ServerMessage::Error(error) ==> shown@ == "Error"@ + "("@ + text::quoted_text(
            error@,
        ) + ")"@,
        msg is TunnelAlreadyOpen ==> shown@ == "TunnelAlreadyOpen"@,
        msg is TunnelNotOpen ==> shown@ == "TunnelNotOpen"@,
{
}

/// Data is written in full, whoever sends it.
pub proof fn law_data_is_written_in_full(
    data: Vec<u8>,
    bytes: String,
    from_user: String,
    from_ssh: String,
)
    requires
        call_ensures(text::show_bytes, (&data,), bytes),
        call_ensures(ClientMessage::show, (&ClientMessage::UserData(data),), from_user),
        call_ensures(ServerMessage::show, (&ServerMessage::SshData(data),), from_ssh),
    ensures
        from_user@ == "UserData"@ + "("@ + bytes@ + ")"@,
        from_ssh@ == "SshData"@ + "("@ + bytes@ + ")"@,
{
}

/// A status is written with every tunnel that it tells of, in their order: the entry
/// of one more tunnel stands behind those of the others.
pub proof fn law_every_tunnel_is_written(
    info: StatusInformation,
    longer: StatusInformation,
    last: TunnelInformation,
    state: String,
    shown: String,
    longer_shown: String,
)
    requires
        longer.tunnels@ == info.tunnels@.push(last),
        call_ensures(TunnelState::show, (&last.state,), state),
        call_ensures(ServerMessage::show, (&ServerMessage::StatusResponse(info),), shown),
        call_ensures(ServerMessage::show, (&ServerMessage::StatusResponse(longer),), longer_shown),
    ensures
        ({
            let front = "StatusResponse(StatusInformation { tunnels: ["@;
            let entry = "TunnelInformation { host: "@ + text::quoted_text(last.host@)
                + ", state: "@ + state@ + " }"@;
            let back = "] })"@;
            &&& info.tunnels@.len() == 0 ==> shown@ == front + back
            &&& info.tunnels@.len() == 0 ==> longer_shown@ == front + entry + back
            &&& info.tunnels@.len() > 0 ==> longer_shown@ == shown@.take(shown@.len() - 4) + ", "@
                + entry + back
            &&& shown@.skip(shown@.len() - 4) == back
        }),
{
    reveal_strlit("StatusResponse");
    reveal_strlit("StatusInformation { tunnels: [");
    reveal_strlit("StatusResponse(StatusInformation { tunnels: [");
    reveal_strlit("(");
    reveal_strlit(")");
    reveal_strlit("] }");
    reveal_strlit("] })");
    let front = "StatusResponse(StatusInformation { tunnels: ["@;
    let back = "] })"@;
    let entry = protocol::tunnel_text((last.host@, last.state));
    assert(front =~= "StatusResponse"@ + "("@ + "StatusInformation { tunnels: ["@);
    assert(back =~= "] }"@ + ")"@);
    assert(longer@.drop_last() =~= info@);
    assert(longer@.last() == (last.host@, last.state));
    let listed = protocol::tunnels_text(info@);
    assert(shown@ =~= front + listed + back);
    assert(shown@.take(shown@.len() - 4) =~= front + listed);
    assert(shown@.skip(shown@.len() - 4) =~= back);
    assert(longer_shown@ =~= front + protocol::tunnels_text(longer@) + back);
    if info@.len() == 0 {
        assert(listed =~= Seq::<char>::empty());
        assert(longer@[0] == longer@.last());
        assert(front + listed + back =~= front + back);
    } else {
        assert(longer_shown@ =~= shown@.take(shown@.len() - 4) + ", "@ + entry + back);
    }
}

/// Messages that hold different things of one kind are different to those who read
/// them.
pub proof fn law_messages_say_what_they_hold(
    open: OpenParameters,
    close: CloseParameters,
    bytes: Vec<u8>,
    error: String,
)
    ensures
        ClientMessage::Open(open)@ == protocol::ClientMessageView::Open(open.host@),
        ClientMessage::Close(close)@ == protocol::ClientMessageView::Close(close.host@),
        ClientMessage::UserData(bytes)@ == protocol::ClientMessageView::UserData(bytes@),
        ServerMessage::SshData(bytes)@ == protocol::ServerMessageView::SshData(bytes@),
        ServerMessage::Error(error)@ == protocol::ServerMessageView::Error(error@),
{
}

/// The socket lies at `.ssh/stund.sock` below the home directory, and the log at
/// `.ssh/stund.log`, whatever that directory is called.
pub proof fn law_where_the_files_lie(home: Vec<u8>, socket: Vec<u8>, log: Vec<u8>)
    requires
        home@.len() > 0,
        call_ensures(protocol::socket_path_in, (&home,), socket),
        call_ensures(protocol::log_path_in, (&home,), log),
    ensures
        home@.last() != 0x2F ==> socket@ == home@ + vstd::utf8::encode_utf8("/.ssh/stund.sock"@),
        home@.last() != 0x2F ==> log@ == home@ + vstd::utf8::encode_utf8("/.ssh/stund.log"@),
        home@.last() == 0x2F ==> socket@ == home@ + vstd::utf8::encode_utf8(".ssh/stund.sock"@),
        home@.last() == 0x2F ==> log@ == home@ + vstd::utf8::encode_utf8(".ssh/stund.log"@),
{
    lemma_paths();
    let ssh = vstd::utf8::encode_utf8(".ssh"@);
    let dir = protocol::joined(home@, ssh);
    assert(ssh.len() == 4 && ssh[3] == 0x68);
    assert(dir.last() == ssh.last());
    if home@.last() != 0x2F {
        assert(socket@ =~= home@ + vstd::utf8::encode_utf8("/.ssh/stund.sock"@));
        assert(log@ =~= home@ + vstd::utf8::encode_utf8("/.ssh/stund.log"@));
    } else {
        assert(socket@ =~= home@ + vstd::utf8::encode_utf8(".ssh/stund.sock"@));
        assert(log@ =~= home@ + vstd::utf8::encode_utf8(".ssh/stund.log"@));
    }
}

proof fn lemma_paths()
    ensures
        vstd::utf8::encode_utf8(".ssh"@) == seq![0x2Eu8, 0x73u8, 0x73u8, 0x68u8],
        vstd::utf8::encode_utf8(".ssh/stund.sock"@) == vstd::utf8::encode_utf8(".ssh"@).push(0x2F)
            + vstd::utf8::encode_utf8("stund.sock"@),
        vstd::utf8::encode_utf8(".ssh/stund.log"@) == vstd::utf8::encode_utf8(".ssh"@).push(0x2F)
            + vstd::utf8::encode_utf8("stund.log"@),
        vstd::utf8::encode_utf8("/.ssh/stund.sock"@) == seq![0x2Fu8] + vstd::utf8::encode_utf8(
            ".ssh/stund.sock"@,
        ),
        vstd::utf8::encode_utf8("/.ssh/stund.log"@) == seq![0x2Fu8] + vstd::utf8::encode_utf8(
            ".ssh/stund.log"@,
        ),
{
    reveal_strlit(".ssh");
    reveal_strlit("stund.sock");
    reveal_strlit("stund.log");
    reveal_strlit(".ssh/stund.sock");
    reveal_strlit(".ssh/stund.log");
    reveal_strlit("/.ssh/stund.sock");
    reveal_strlit("/.ssh/stund.log");
    vstd::utf8::is_ascii_chars_encode_utf8(".ssh"@);
    vstd::utf8::is_ascii_chars_encode_utf8("stund.sock"@);
    vstd::utf8::is_ascii_chars_encode_utf8("stund.log"@);
    vstd::utf8::is_ascii_chars_encode_utf8(".ssh/stund.sock"@);
    vstd::utf8::is_ascii_chars_encode_utf8(".ssh/stund.log"@);
    vstd::utf8::is_ascii_chars_encode_utf8("/.ssh/stund.sock"@);
    vstd::utf8::is_ascii_chars_encode_utf8("/.ssh/stund.log"@);
    assert(vstd::utf8::encode_utf8(".ssh"@) =~= seq![0x2Eu8, 0x73u8, 0x73u8, 0x68u8]);
    assert(vstd::utf8::encode_utf8(".ssh/stund.sock"@) =~= vstd::utf8::encode_utf8(".ssh"@).push(
        0x2F,
    ) + vstd::utf8::encode_utf8("stund.sock"@));
    assert(vstd::utf8::encode_utf8(".ssh/stund.log"@) =~= vstd::utf8::encode_utf8(".ssh"@).push(
        0x2F,
    ) + vstd::utf8::encode_utf8("stund.log"@));
    assert(vstd::utf8::encode_utf8("/.ssh/stund.sock"@) =~= seq![0x2Fu8]
        + vstd::utf8::encode_utf8(".ssh/stund.sock"@));
    assert(vstd::utf8::encode_utf8("/.ssh/stund.log"@) =~= seq![0x2Fu8]
        + vstd::utf8::encode_utf8(".ssh/stund.log"@));
}

/// The socket is where the home directory says, if there is one, and there is an
/// error if there is none.
pub proof fn law_no_socket_without_a_home(
    home: Option<Vec<u8>>,
    path: Result<Vec<u8>, NoHomeDirectory>,
    known: Vec<u8>,
    none: String,
)
    requires
        call_ensures(protocol::socket_path_found, (home,), path),
        home is Some ==> call_ensures(protocol::socket_path_in, (&home->0,), known),
        call_ensures(NoHomeDirectory::describe, (&NoHomeDirectory,), none),
    ensures
        home is Some ==> path is Ok && path->Ok_0@ == known@,
        home is None ==> path is Err,
        none@ == "unable to determine your home directory"@,
{
}

/// What each line of the log says.
pub proof fn law_what_the_log_says(entry: LogEntry, line: String)
    requires
        call_ensures(LogEntry::line, (&entry,), line),
    ensures
        entry is StartingUp ==> line@ == "starting up"@,
        entry matches LogEntry::AcceptError(cause) ==> line@ == "accept error: "@ + cause@,
        entry matches LogEntry::OpenCommand(host) ==> line@ == "got command to spawn SSH for "@
            + host@,
        entry is AlreadyOpen ==> line@ == "tunnel already open -- notifying client"@,
        entry matches LogEntry::CloseCommand(host) ==> line@
            == "got command to close tunnel SSH for "@ + host@,
        entry is NotOpen ==> line@ == "no such tunnel -- notifying client"@,
        entry is ExitCommand ==> line@ == "commanded to exit after client disconnects"@,
        entry matches LogEntry::KillOrdered(host) ==> line@ == "ordered to kill SSH child for "@
            + host@,
        entry matches LogEntry::ChildDied { host, status } ==> line@ == "SSH child for "@ + host@
            + " unexpectedly died: "@ + status@,
        entry matches LogEntry::SshOutput(bytes) ==> line@ == "SSH: "@ + bytes@,
        entry matches LogEntry::SshError(cause) ==> line@ == "error polling SSH: "@ + cause@,
        entry == (LogEntry::SessionFinished { exit_on_close: true }) ==> line@
            == "client session finished (exit? true)"@,
        entry == (LogEntry::SessionFinished { exit_on_close: false }) ==> line@
            == "client session finished (exit? false)"@,
        entry matches LogEntry::SessionFailed(cause) ==> line@ == "error from client session: "@
            + cause@,
{
}

/// The log names the signal on which the daemon exits.
pub proof fn law_signals_are_logged_by_number(number: i32, line: String, shown: String)
    requires
        call_ensures(LogEntry::line, (&LogEntry::Signal(number),), line),
        call_ensures(text::show_signed, (number,), shown),
    ensures
        line@ == "exiting on signal "@ + shown@,
{
}

/// Which commands are logged, and as what: those that open or close a tunnel, with
/// the host, and the order to exit.
pub proof fn law_which_commands_are_logged(msg: Option<ClientMessage>, entry: Option<LogEntry>)
    requires
        call_ensures(LogEntry::of_command, (&msg,), entry),
    ensures
        msg matches Some(ClientMessage::Open(params)) ==> entry is Some && entry->0 is OpenCommand
            && entry->0->OpenCommand_0@ == params.host@,
        msg matches Some(ClientMessage::Close(params)) ==> entry is Some && entry->0 is CloseCommand
            && entry->0->CloseCommand_0@ == params.host@,
        msg == Some(ClientMessage::Exit) ==> entry == Some(LogEntry::ExitCommand),
        msg is None || msg->0 is UserData || msg->0 is QueryStatus || msg->0 is Goodbye ==> entry
            is None,
{
}

/// Which replies are logged, and as what: those that say that nothing was done.
pub proof fn law_which_replies_are_logged(reply: ServerMessage, entry: Option<LogEntry>)
    requires
        call_ensures(LogEntry::of_reply, (&reply,), entry),
    ensures
        reply is TunnelAlreadyOpen <==> entry == Some(LogEntry::AlreadyOpen),
        reply is TunnelNotOpen <==> entry == Some(LogEntry::NotOpen),
        entry is Some ==> reply is TunnelAlreadyOpen || reply is TunnelNotOpen,
{
}

/// Which news of SSH processes is logged, and as what: that one is to be killed, and
/// that one exited by itself, with its host.
pub proof fn law_which_news_is_logged(
    host: String,
    event: ChildEvent,
    status: String,
    entry: Option<LogEntry>,
)
    requires
        call_ensures(LogEntry::of_child, (&host, event, status), entry),
    ensures
        event is ChildExited ==> entry is Some && entry->0 is ChildDied && entry->0->host@ == host@
            && entry->0->status@ == status@,
        event is KillOrdered ==> entry is Some && entry->0 is KillOrdered
            && entry->0->KillOrdered_0@ == host@,
        !(event is ChildExited) && !(event is KillOrdered) ==> entry is None,
{
}

/// The end of each session is logged as what it was.
pub proof fn law_ends_of_sessions_are_logged(outcome: Result<bool, String>, entry: LogEntry)
    requires
        call_ensures(LogEntry::of_session, (outcome,), entry),
    ensures
        outcome matches Ok(exit_on_close) ==> entry == (LogEntry::SessionFinished {
            exit_on_close,
        }),
        outcome matches Err(cause) ==> entry is SessionFailed && entry->SessionFailed_0@ == cause@,
{
}

/// What the user is told of each error of a command.
pub proof fn law_what_errors_say(error: ClientError, said: String)
    requires
        call_ensures(ClientError::describe, (&error,), said),
    ensures
        error matches ClientError::SendingClose(cause) ==> said@
            == "error sending close message to daemon: "@ + cause@,
        error matches ClientError::SendingExit(cause) ==> said@
            == "error sending exit message to daemon: "@ + cause@,
        error matches ClientError::SendingQuery(cause) ==> said@
            == "error sending status query to daemon: "@ + cause@,
        error matches ClientError::Receiving(cause) ==> said@ == "error receiving daemon reply: "@
            + cause@,
        error matches ClientError::Daemon(words) ==> said@ == words@,
        error is Disconnected ==> said@ == "unexpected disconnection from server"@,
        error is ConnectionClosed ==> said@ == "connection closed (?)"@,
        error is TerminalEof ==> said@ == "EOF on terminal (?)"@,
        error matches ClientError::Transport(cause) ==> said@ == cause@,
{
}

/// A message that makes no sense is shown to the user in full.
pub proof fn law_senseless_messages_are_shown(
    msg: ServerMessage,
    shown: String,
    reply: String,
    response: String,
    message: String,
)
    requires
        call_ensures(ServerMessage::show, (&msg,), shown),
        call_ensures(ClientError::describe, (&ClientError::UnexpectedReply(msg),), reply),
        call_ensures(ClientError::describe, (&ClientError::UnexpectedResponse(msg),), response),
        call_ensures(ClientError::describe, (&ClientError::UnexpectedMessage(msg),), message),
    ensures
        reply@ == "unexpected server reply: "@ + shown@,
        response@ == "unexpected response from daemon: "@ + shown@,
        message@ == "unexpected message from the daemon: "@ + shown@,
{
}

/// What the user is told first if there is no connection to the daemon.
pub proof fn law_why_there_is_no_connection(error: EstablishError, said: String)
    requires
        call_ensures(EstablishError::describe, (&error,), said),
    ensures
        error is NoExecutable ==> said@ == "couldn't get current executable path"@,
        error is LaunchFailed ==> said@ == "daemon launcher reported failure"@,
        error is LaunchReportedFailure ==> said@ == "failed to launch background daemon"@,
        error is StillRefused ==> said@ == "failed to connect to daemon even after launching it"@,
{
}

/// What the user is told if the daemon does not start.
pub proof fn law_why_the_daemon_does_not_start(error: StartupError, said: String)
    requires
        call_ensures(StartupError::describe, (&error,), said),
    ensures
        error is NoHome ==> said@ == "unable to determine your home directory"@,
        error is AlreadyRunning ==> said@
            == "refusing to start: another daemon is already running"@,
        error matches StartupError::System(cause) ==> said@ == cause@,
{
}

/// Wherever the home directory is, the path of the socket ends in the same way.
pub proof fn law_the_socket_has_one_name(path: Result<Vec<u8>, NoHomeDirectory>)
    requires
        call_ensures(protocol::get_socket_path, (), path),
    ensures
        path matches Ok(p) ==> {
            &&& p@.len() > 15
            &&& p@.skip(p@.len() - 15) == vstd::utf8::encode_utf8(".ssh/stund.sock"@)
        },
{
    if let Ok(p) = path {
        let home = choose|home: Seq<u8>|
            home.len() > 0 && p@ == #[trigger] protocol::socket_path(home);
        lemma_paths();
        lemma_ends_in_the_name(home);
    }
}

proof fn lemma_ends_in_the_name(home: Seq<u8>)
    requires
        home.len() > 0,
    ensures
        protocol::socket_path(home).len() > 15,
        protocol::socket_path(home).skip(protocol::socket_path(home).len() - 15)
            == vstd::utf8::encode_utf8(".ssh/stund.sock"@),
{
    lemma_paths();
    reveal_strlit("stund.sock");
    vstd::utf8::is_ascii_chars_encode_utf8("stund.sock"@);
    let ssh = vstd::utf8::encode_utf8(".ssh"@);
    let path = protocol::socket_path(home);
    assert(protocol::joined(home, ssh).last() == ssh.last());
    assert(path.skip(path.len() - 15) =~= vstd::utf8::encode_utf8(".ssh/stund.sock"@));
}

/// The console connects to the same socket.
pub proof fn law_the_console_uses_the_same_socket(plan: Result<ConnectPlan, NoHomeDirectory>)
    requires
        call_ensures(connection::Connection::establish, (), plan),
    ensures
        plan matches Ok(p) ==> {
            &&& p.linger_seconds == 2
            &&& p.path@.len() > 15
            &&& p.path@.skip(p.path@.len() - 15) == vstd::utf8::encode_utf8(".ssh/stund.sock"@)
        },
{
    if let Ok(p) = plan {
        let home = choose|home: Seq<u8>|
            home.len() > 0 && p.path@ == #[trigger] protocol::socket_path(home);
        lemma_ends_in_the_name(home);
    }
}

/// So does a daemon that starts: it asks first if another one answers there.
pub proof fn law_a_start_probes_the_same_socket(
    opts: StundDaemonOptions,
    begun: Result<(Startup, StartupRequest), StartupError>,
)
    requires
        call_ensures(Startup::begin, (opts,), begun),
    ensures
        begun matches Err(e) ==> e is NoHome,
        begun matches Ok((startup, request)) ==> {
            &&& startup.opts == opts
            &&& startup.stage is Probing
            &&& request is Connect
            &&& request->Connect_0@.len() > 15
            &&& request->Connect_0@.skip(request->Connect_0@.len() - 15)
                == vstd::utf8::encode_utf8(".ssh/stund.sock"@)
        },
{
    if let Ok((startup, request)) = begun {
        lemma_ends_in_the_name(startup.home@);
    }
}

} // verus!
