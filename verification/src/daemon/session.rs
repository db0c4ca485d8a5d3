//! The daemon's side of a session with one client.

use vstd::prelude::*;

use crate::daemon::state;
use crate::daemon::state::{ServeEvent, State, TunnelState};
use crate::marker;
use crate::marker::SshKeyStatus;
use crate::protocol::{
    ClientMessage, ClientMessageView, CloseParameters, OpenParameters, SendEvent, ServerMessage,
    ServerMessageView,
};
use crate::text::both;

verus! {

/// What a session carries along from one command to the next.
#[derive(Debug)]
pub struct ClientCommonState {
    /// The client asked the daemon to exit. It does so when the client
    /// disconnects, so that the connection can be closed in a nice way.
    pub exit_on_close: bool,
}

/// Why a session breaks down.
#[derive(Debug, PartialEq)]
pub enum SessionError {
    /// The client said something that is no command.
    UnexpectedCommand(ClientMessage),
    /// The client said something out of place while a tunnel is being opened.
    UnexpectedMessage(ClientMessage),
    /// The client left while a tunnel is being opened.
    ClientClosed,
    /// The client has been told that its command failed.
    ClientNotified,
    /// The connection failed.
    Transport(String),
}

/// What a [`SessionError`] says.
pub enum SessionErrorView {
    UnexpectedCommand(ClientMessageView),
    UnexpectedMessage(ClientMessageView),
    ClientClosed,
    ClientNotified,
    Transport(Seq<char>),
}

impl View for SessionError {
    type V = SessionErrorView;

    open spec fn view(&self) -> SessionErrorView {
        match self {
            SessionError::UnexpectedCommand(msg) => SessionErrorView::UnexpectedCommand(msg@),
            SessionError::UnexpectedMessage(msg) => SessionErrorView::UnexpectedMessage(msg@),
            SessionError::ClientClosed => SessionErrorView::ClientClosed,
            SessionError::ClientNotified => SessionErrorView::ClientNotified,
            SessionError::Transport(cause) => SessionErrorView::Transport(cause@),
        }
    }
}

impl SessionError {
    /// What to write to the log.
    pub fn describe(&self) -> (text: String)
        ensures
            text@ == match self {
                SessionError::UnexpectedCommand(msg) =>
                    "unexpected message from client: "@ + msg@.text(),
                SessionError::UnexpectedMessage(msg) =>
                    "unexpected message from the client: "@ + msg@.text(),
                SessionError::ClientClosed => "client connection unexpectedly closed"@,
                SessionError::ClientNotified =>
                    "ending connection now that client has been notified"@,
                SessionError::Transport(cause) => cause@,
            },
    {
        match self {
            SessionError::UnexpectedCommand(msg) =>
                both("unexpected message from client: ", &msg.show()),
            SessionError::UnexpectedMessage(msg) =>
                both("unexpected message from the client: ", &msg.show()),
            SessionError::ClientClosed => "client connection unexpectedly closed".to_owned(),
            SessionError::ClientNotified =>
                "ending connection now that client has been notified".to_owned(),
            SessionError::Transport(cause) => cause.clone(),
        }
    }
}

/// Send the reply, then wait for the next command.
#[derive(Debug)]
pub struct FinalizingTxn {
    pub reply: ServerMessage,
}

/// Send the error message, then end the session.
#[derive(Debug)]
pub struct Aborting {
    pub reply: ServerMessage,
}

/// An SSH process to be started.
#[derive(Debug)]
pub struct SshLaunch {
    /// The host to log in to.
    pub host: String,
    /// The text that the remote host prints after the login.
    pub key: String,
    /// The program to run.
    pub program: String,
    /// Its arguments.
    pub args: Vec<String>,
    /// The environment variable that it must not see.
    pub env_remove: String,
}

/// What the remote host is told to run: print the key, then sit there.
pub open spec fn remote_command(key: Seq<char>) -> Seq<char> {
    "echo \""@ + key + "\" && exec tail -f /dev/null"@
}

impl SshLaunch {
    /// The process that logs in to `host` and makes it print `key`.
    ///
    /// The `-t` allocates a terminal for the remote command, so that it dies
    /// with SSH. Otherwise it would linger forever.
    pub open spec fn logs_in(&self, host: Seq<char>, key: Seq<char>) -> bool {
        &&& self.host@ == host
        &&& self.key@ == key
        &&& self.program@ == "ssh"@
        &&& self.args@.map_values(|arg: String| arg@) == seq!["-t"@, host, remote_command(key)]
        &&& self.env_remove@ == "DISPLAY"@
    }
}

/// What comes next after a client's command.
#[derive(Debug)]
pub enum AfterAwaitingCommand<K> {
    /// Start SSH. [`ssh_launched`] or [`ssh_launch_failed`] comes after it.
    LaunchSsh(SshLaunch),
    /// Order that the SSH process be killed. [`kill_sent`] comes after it.
    SendKill(K),
    /// Reply.
    FinalizingTxn(FinalizingTxn),
    /// The session is over.
    Finished,
    /// The session breaks down.
    Failed(SessionError),
}

/// What comes next after the order to kill an SSH process.
#[derive(Debug)]
pub enum AfterKill {
    FinalizingTxn(FinalizingTxn),
    Aborting(Aborting),
}

/// The process to start for an open command, given 32 random bytes.
pub fn prepare_launch(params: OpenParameters, random: &[u8; 32]) -> (launch: SshLaunch)
    ensures
        launch.logs_in(params.host@, marker::key_text(random@)),
        marker::is_key(launch.key@),
{
    let key = marker::make_key(random);
    launch_with_key(params, key)
}

/// The process to start for an open command, given the key.
fn launch_with_key(params: OpenParameters, key: String) -> (launch: SshLaunch)
    ensures
        launch.logs_in(params.host@, key@),
{
    let mut command = "echo \"".to_owned();
    command.append(key.as_str());
    command.append("\" && exec tail -f /dev/null");
    let mut args: Vec<String> = Vec::new();
    args.push("-t".to_owned());
    args.push(params.host.clone());
    args.push(command);
    let launch = SshLaunch {
        host: params.host,
        key,
        program: "ssh".to_owned(),
        args,
        env_remove: "DISPLAY".to_owned(),
    };
    proof {
        assert(launch.args@.map_values(|arg: String| arg@) =~= seq![
            "-t"@,
            params.host@,
            remote_command(key@),
        ]);
    }
    launch
}

/// Open a tunnel: if none is open to the host, log in to it.
pub fn process_open_command<K>(state: &State<K>, params: OpenParameters) -> (after:
    AfterAwaitingCommand<K>)
    requires
        state.wf(),
    ensures
        if state.is_running(params.host@) {
            &&& after matches AfterAwaitingCommand::FinalizingTxn(txn)
            &&& txn.reply@ == ServerMessageView::TunnelAlreadyOpen
        } else {
            &&& after matches AfterAwaitingCommand::LaunchSsh(launch)
            &&& launch.logs_in(params.host@, launch.key@)
            &&& marker::is_key(launch.key@)
            &&& exists|random: Seq<u8>|
                random.len() == 32 && launch.key@ == #[trigger] marker::key_text(random)
        },
{
    if let Some(TunnelState::Running { .. }) = state.get(&params.host) {
        return AfterAwaitingCommand::FinalizingTxn(
            FinalizingTxn { reply: ServerMessage::TunnelAlreadyOpen },
        );
    }
    let key = marker::generate_key();
    AfterAwaitingCommand::LaunchSsh(launch_with_key(params, key))
}

/// What is done about a close command.
pub enum CloseAnswer<K> {
    /// The process is ordered killed.
    Kill(K),
    /// A reply, and nothing else.
    Reply(ServerMessageView),
}

/// What is done about a command to close the tunnel to `host`.
pub open spec fn close_answer<K>(
    tunnels: Map<Seq<char>, TunnelState<K>>,
    host: Seq<char>,
) -> CloseAnswer<K> {
    if tunnels.contains_key(host) && tunnels[host] is Running {
        CloseAnswer::Kill(tunnels[host]->tx_kill)
    } else {
        CloseAnswer::Reply(ServerMessageView::TunnelNotOpen)
    }
}

/// Close a tunnel: if it is open, have its process killed, and remember it as
/// closed.
pub fn process_close_command<K>(state: &mut State<K>, params: CloseParameters) -> (after:
    AfterAwaitingCommand<K>)
    requires
        old(state).wf(),
    ensures
        final(state).wf(),
        final(state).path() == old(state).path(),
        final(state).in_foreground() == old(state).in_foreground(),
        final(state)@ == state::closed(old(state)@, params.host@),
        match close_answer(old(state)@, params.host@) {
            CloseAnswer::Kill(tx_kill) => after == AfterAwaitingCommand::SendKill(tx_kill),
            CloseAnswer::Reply(msg) => {
                &&& after matches AfterAwaitingCommand::FinalizingTxn(txn)
                &&& txn.reply@ == msg
            },
        },
{
    let ghost before = state@;
    match state.remove(&params.host) {
        Some(TunnelState::Running { tx_kill }) => {
            let ghost host = params.host@;
            state.insert(params.host, TunnelState::Exited { status: None });
            proof {
                assert(state@ =~= before.insert(host, TunnelState::Exited { status: None }));
            }
            AfterAwaitingCommand::SendKill(tx_kill)
        },
        Some(exited) => {
            state.insert(params.host, exited);
            proof {
                assert(state@ =~= before);
            }
            AfterAwaitingCommand::FinalizingTxn(
                FinalizingTxn { reply: ServerMessage::TunnelNotOpen },
            )
        },
        None => {
            proof {
                assert(state@ =~= before);
            }
            AfterAwaitingCommand::FinalizingTxn(
                FinalizingTxn { reply: ServerMessage::TunnelNotOpen },
            )
        },
    }
}

/// Tell the client of all tunnels.
pub fn process_status_query<K>(state: &State<K>) -> (after: AfterAwaitingCommand<K>)
    requires
        state.wf(),
    ensures
        after matches AfterAwaitingCommand::FinalizingTxn(txn)
            && txn.reply@ matches ServerMessageView::StatusResponse(info)
            && state::tells_of(info, state@),
{
    AfterAwaitingCommand::FinalizingTxn(
        FinalizingTxn { reply: ServerMessage::StatusResponse(state.status()) },
    )
}

/// Whether the daemon is to exit after a session, once one more command came
/// in.
pub open spec fn exit_ordered(before: bool, msg: Option<ClientMessage>) -> bool {
    before || msg == Some(ClientMessage::Exit)
}

/// Whether the daemon is to exit after a session with these commands.
pub open spec fn exits_after(msgs: Seq<Option<ClientMessage>>) -> bool
    decreases msgs.len(),
{
    if msgs.len() == 0 {
        false
    } else {
        exit_ordered(exits_after(msgs.drop_last()), msgs.last())
    }
}

/// The daemon exits after a session if and only if the client asked for it at
/// some time in the session.
pub proof fn law_exit_only_if_asked(msgs: Seq<Option<ClientMessage>>)
    ensures
        exits_after(msgs) <==> msgs.contains(Some(ClientMessage::Exit)),
    decreases msgs.len(),
{
    if msgs.len() > 0 {
        let before = msgs.drop_last();
        law_exit_only_if_asked(before);
        assert(msgs =~= before.push(msgs.last()));
        if before.contains(Some(ClientMessage::Exit)) {
            let i = choose|i: int| 0 <= i < before.len() && before[i] == Some(ClientMessage::Exit);
            assert(msgs[i] == Some(ClientMessage::Exit));
        }
        if msgs.last() == Some(ClientMessage::Exit) {
            assert(msgs[msgs.len() - 1] == Some(ClientMessage::Exit));
        }
    }
}

impl ClientCommonState {
    /// A session in which nothing has been said yet.
    pub fn new() -> (common: ClientCommonState)
        ensures
            !common.exit_on_close,
    {
        ClientCommonState { exit_on_close: false }
    }

    /// Act on a command. `None` stands for the end of the connection.
    pub fn poll_awaiting_command<K>(
        &mut self,
        state: &mut State<K>,
        msg: Option<ClientMessage>,
    ) -> (after: AfterAwaitingCommand<K>)
        requires
            old(state).wf(),
        ensures
            final(state).wf(),
            final(state).path() == old(state).path(),
            final(state).in_foreground() == old(state).in_foreground(),
            final(state)@ == match msg {
                Some(ClientMessage::Close(params)) => state::closed(old(state)@, params.host@),
                _ => old(state)@,
            },
            final(self).exit_on_close == exit_ordered(old(self).exit_on_close, msg),
            match msg {
                None | Some(ClientMessage::Goodbye) => after == AfterAwaitingCommand::<K>::Finished,
                Some(ClientMessage::Open(params)) => if old(state).is_running(params.host@) {
                    &&& after matches AfterAwaitingCommand::FinalizingTxn(txn)
                    &&& txn.reply@ == ServerMessageView::TunnelAlreadyOpen
                } else {
                    &&& after matches AfterAwaitingCommand::LaunchSsh(launch)
                    &&& launch.logs_in(params.host@, launch.key@)
                    &&& marker::is_key(launch.key@)
                    &&& exists|random: Seq<u8>|
                        random.len() == 32 && launch.key@ == #[trigger] marker::key_text(random)
                },
                Some(ClientMessage::Close(params)) => match close_answer(
                    old(state)@,
                    params.host@,
                ) {
                    CloseAnswer::Kill(tx_kill) => after == AfterAwaitingCommand::SendKill(tx_kill),
                    CloseAnswer::Reply(msg) => {
                        &&& after matches AfterAwaitingCommand::FinalizingTxn(txn)
                        &&& txn.reply@ == msg
                    },
                },
                Some(ClientMessage::Exit) => {
                    &&& after matches AfterAwaitingCommand::FinalizingTxn(txn)
                    &&& txn.reply@ == ServerMessageView::Okay
                },
                Some(ClientMessage::QueryStatus) => {
                    &&& after matches AfterAwaitingCommand::FinalizingTxn(txn)
                    &&& txn.reply@ matches ServerMessageView::StatusResponse(info)
                    &&& state::tells_of(info, old(state)@)
                },
                Some(ClientMessage::UserData(data)) => {
                    &&& after matches AfterAwaitingCommand::Failed(e)
                    &&& e@ == SessionErrorView::UnexpectedCommand(ClientMessageView::UserData(data@))
                },
            },
    {
        match msg {
            None => AfterAwaitingCommand::Finished,
            Some(ClientMessage::Close(params)) => process_close_command(state, params),
            Some(ClientMessage::Open(params)) => process_open_command(state, params),
            Some(ClientMessage::Exit) => {
                self.exit_on_close = true;
                AfterAwaitingCommand::FinalizingTxn(FinalizingTxn { reply: ServerMessage::Okay })
            },
            Some(ClientMessage::Goodbye) => AfterAwaitingCommand::Finished,
            Some(ClientMessage::QueryStatus) => process_status_query(state),
            Some(other) => AfterAwaitingCommand::Failed(SessionError::UnexpectedCommand(other)),
        }
    }

    /// What the end of the session means to the daemon.
    pub fn finished(&self) -> (event: ServeEvent)
        ensures
            event == (ServeEvent::SessionFinished { exit_on_close: self.exit_on_close }),
    {
        ServeEvent::SessionFinished { exit_on_close: self.exit_on_close }
    }
}

/// Reply after the order to kill an SSH process, which was taken or not.
pub fn kill_sent(taken: bool) -> (after: AfterKill)
    ensures
        if taken {
            after matches AfterKill::FinalizingTxn(txn) && txn.reply@ == ServerMessageView::Okay
        } else {
            after matches AfterKill::Aborting(abort) && abort.reply@ == ServerMessageView::Error(
                "failed to send internal kill signal (?)"@,
            )
        },
{
    if taken {
        AfterKill::FinalizingTxn(FinalizingTxn { reply: ServerMessage::Okay })
    } else {
        AfterKill::Aborting(abort_client("failed to send internal kill signal (?)".to_owned()))
    }
}

/// End the session, but tell the client why.
pub fn abort_client(message: String) -> (abort: Aborting)
    ensures
        abort.reply@ == ServerMessageView::Error(message@),
{
    Aborting { reply: ServerMessage::Error(message) }
}

/// SSH is running: remember it, and go on to the login dialogue, after a first
/// reply to the client.
pub fn ssh_launched<K>(state: &mut State<K>, launch: SshLaunch, tx_kill: K) -> (r: (
    CommunicatingForOpen,
    ServerMessage,
))
    requires
        old(state).wf(),
        marker::is_key(launch.key@),
    ensures
        final(state).wf(),
        final(state).path() == old(state).path(),
        final(state).in_foreground() == old(state).in_foreground(),
        final(state)@ == old(state)@.insert(launch.host@, TunnelState::Running { tx_kill }),
        r.0.wf(),
        r.0@ == OpenModel::start(vstd::utf8::encode_utf8(launch.key@)),
        r.1@ == ServerMessageView::Okay,
{
    proof {
        marker::law_key_is_one_line(launch.key@);
    }
    let ssh_key = marker::key_bytes(launch.key.as_str());
    state.insert(launch.host, TunnelState::Running { tx_kill });
    let session = CommunicatingForOpen {
        turn: Turn::Idle,
        cl_buf: Vec::new(),
        ssh_buf: Vec::new(),
        ssh_key,
        ssh_key_status: SshKeyStatus::Searching(0),
    };
    (session, ServerMessage::Okay)
}

/// SSH could not be started.
pub fn ssh_launch_failed(cause: &str) -> (abort: Aborting)
    ensures
        abort.reply@ == ServerMessageView::Error("failed to launch SSH: "@ + cause@),
{
    let mut message = "failed to launch SSH: ".to_owned();
    message.append(cause);
    abort_client(message)
}

/// What comes next while a reply is being sent.
#[derive(Debug)]
pub enum AfterFinalizingTxn {
    Wait,
    AwaitingCommand,
    Failed(SessionError),
}

/// What comes next while an error message is being sent.
#[derive(Debug)]
pub enum AfterAborting {
    Wait,
    Failed(SessionError),
}

/// Once the client has received its reply, wait for its next command.
pub fn poll_finalizing_txn(event: SendEvent) -> (after: AfterFinalizingTxn)
    ensures
        match event {
            SendEvent::Pending => after is Wait,
            SendEvent::Sent => after is AwaitingCommand,
            SendEvent::Failed(cause) => after matches AfterFinalizingTxn::Failed(e) && e@
                == SessionErrorView::Transport(cause@),
        },
{
    match event {
        SendEvent::Pending => AfterFinalizingTxn::Wait,
        SendEvent::Sent => AfterFinalizingTxn::AwaitingCommand,
        SendEvent::Failed(cause) => AfterFinalizingTxn::Failed(SessionError::Transport(cause)),
    }
}

/// Make sure that the error message gets out before the session ends.
pub fn poll_aborting(event: SendEvent) -> (after: AfterAborting)
    ensures
        match event {
            SendEvent::Pending => after is Wait,
            SendEvent::Sent => after matches AfterAborting::Failed(e) && e@
                == SessionErrorView::ClientNotified,
            SendEvent::Failed(cause) => after matches AfterAborting::Failed(e) && e@
                == SessionErrorView::Transport(cause@),
        },
{
    match event {
        SendEvent::Pending => AfterAborting::Wait,
        SendEvent::Sent => AfterAborting::Failed(SessionError::ClientNotified),
        SendEvent::Failed(cause) => AfterAborting::Failed(SessionError::Transport(cause)),
    }
}

/// Where the login dialogue stands: what it is waiting for.
#[derive(Clone, Copy, Debug, Eq, PartialEq, Structural)]
pub enum Turn {
    /// Something to happen.
    Idle,
    /// News from the client.
    ReadClient,
    /// News from SSH.
    ReadSsh,
    /// The client's connection to take SSH's output.
    OfferClient,
    /// SSH to take the client's input.
    OfferSsh,
    /// The client's connection to be flushed.
    FlushClient,
    /// SSH's terminal to be flushed.
    FlushSsh,
}

/// The login dialogue between the user, through the client, and SSH.
#[derive(Debug)]
pub struct CommunicatingForOpen {
    pub turn: Turn,
    /// Output of SSH that the client has not got yet.
    pub cl_buf: Vec<u8>,
    /// Input of the user that SSH has not got yet.
    pub ssh_buf: Vec<u8>,
    /// What the remote host prints after the login.
    pub ssh_key: Vec<u8>,
    pub ssh_key_status: SshKeyStatus,
}

/// What happened in the login dialogue.
#[derive(Debug, PartialEq)]
pub enum OpenEvent {
    /// It is time to look again.
    Wake,
    /// What was asked for is not ready.
    NotReady,
    /// The client said something.
    FromClient(ClientMessage),
    /// The client left.
    ClientClosed,
    /// SSH printed something.
    FromSsh(Vec<u8>),
    /// SSH will print no more.
    SshClosed,
    /// What was offered has been taken.
    Accepted,
    /// What was offered has not been taken.
    Refused,
    /// All that was taken has been sent.
    Flushed,
    /// What was asked for failed.
    Failed(String),
}

/// What the login dialogue needs done.
#[derive(Debug, PartialEq)]
pub enum OpenRequest {
    /// Wait for something to happen.
    Wait,
    /// See if the client said something.
    PollClient,
    /// See if SSH printed something.
    PollSsh,
    /// Offer a message to the client's connection.
    SendClient(ServerMessage),
    /// Offer input to SSH.
    SendSsh(Vec<u8>),
    /// Flush the client's connection.
    FlushClient,
    /// Flush SSH's terminal.
    FlushSsh,
}

/// What comes next in the login dialogue.
#[derive(Debug)]
pub enum AfterCommunicatingForOpen {
    /// Something has to be done first.
    Ask(CommunicatingForOpen, OpenRequest),
    /// The user is logged in: let SSH run on by itself, and reply.
    FinalizingTxn(FinalizingTxn),
    /// The login failed: tell the client.
    Aborting(Aborting),
    /// The session breaks down.
    Failed(SessionError),
}

/// What an [`OpenEvent`] says.
pub enum OpenEventView {
    Wake,
    NotReady,
    FromClient(ClientMessageView),
    ClientClosed,
    FromSsh(Seq<u8>),
    SshClosed,
    Accepted,
    Refused,
    Flushed,
    Failed(Seq<char>),
}

/// What an [`OpenRequest`] asks for.
pub enum OpenRequestView {
    Wait,
    PollClient,
    PollSsh,
    SendClient(ServerMessageView),
    SendSsh(Seq<u8>),
    FlushClient,
    FlushSsh,
}

/// The login dialogue as a value.
pub struct OpenModel {
    pub turn: Turn,
    pub cl_buf: Seq<u8>,
    pub ssh_buf: Seq<u8>,
    pub key: Seq<u8>,
    /// How many bytes of the key are matched.
    pub progress: nat,
}

/// What an [`AfterCommunicatingForOpen`] says. What is asked for follows from
/// the state of the dialogue.
pub enum OpenStep {
    Ask(OpenModel),
    FinalizingTxn(ServerMessageView),
    Aborting(ServerMessageView),
    Failed(SessionErrorView),
}

impl View for OpenEvent {
    type V = OpenEventView;

    open spec fn view(&self) -> OpenEventView {
        match self {
            OpenEvent::Wake => OpenEventView::Wake,
            OpenEvent::NotReady => OpenEventView::NotReady,
            OpenEvent::FromClient(msg) => OpenEventView::FromClient(msg@),
            OpenEvent::ClientClosed => OpenEventView::ClientClosed,
            OpenEvent::FromSsh(bytes) => OpenEventView::FromSsh(bytes@),
            OpenEvent::SshClosed => OpenEventView::SshClosed,
            OpenEvent::Accepted => OpenEventView::Accepted,
            OpenEvent::Refused => OpenEventView::Refused,
            OpenEvent::Flushed => OpenEventView::Flushed,
            OpenEvent::Failed(cause) => OpenEventView::Failed(cause@),
        }
    }
}

impl View for OpenRequest {
    type V = OpenRequestView;

    open spec fn view(&self) -> OpenRequestView {
        match self {
            OpenRequest::Wait => OpenRequestView::Wait,
            OpenRequest::PollClient => OpenRequestView::PollClient,
            OpenRequest::PollSsh => OpenRequestView::PollSsh,
            OpenRequest::SendClient(msg) => OpenRequestView::SendClient(msg@),
            OpenRequest::SendSsh(bytes) => OpenRequestView::SendSsh(bytes@),
            OpenRequest::FlushClient => OpenRequestView::FlushClient,
            OpenRequest::FlushSsh => OpenRequestView::FlushSsh,
        }
    }
}

impl View for CommunicatingForOpen {
    type V = OpenModel;

    open spec fn view(&self) -> OpenModel {
        OpenModel {
            turn: self.turn,
            cl_buf: self.cl_buf@,
            ssh_buf: self.ssh_buf@,
            key: self.ssh_key@,
            progress: self.ssh_key_status.progress(self.ssh_key@),
        }
    }
}

impl View for AfterCommunicatingForOpen {
    type V = OpenStep;

    open spec fn view(&self) -> OpenStep {
        match self {
            AfterCommunicatingForOpen::Ask(session, _) => OpenStep::Ask(session@),
            AfterCommunicatingForOpen::FinalizingTxn(txn) => OpenStep::FinalizingTxn(txn.reply@),
            AfterCommunicatingForOpen::Aborting(abort) => OpenStep::Aborting(abort.reply@),
            AfterCommunicatingForOpen::Failed(e) => OpenStep::Failed(e@),
        }
    }
}

impl OpenModel {
    /// The dialogue before anything happened.
    pub open spec fn start(key: Seq<u8>) -> OpenModel {
        OpenModel {
            turn: Turn::Idle,
            cl_buf: Seq::empty(),
            ssh_buf: Seq::empty(),
            key,
            progress: 0,
        }
    }

    /// Whether SSH has printed the key.
    pub open spec fn found(self) -> bool {
        self.progress == self.key.len()
    }

    /// What is asked for, in the state that the dialogue is in.
    pub open spec fn request(self) -> OpenRequestView {
        match self.turn {
            Turn::Idle => OpenRequestView::Wait,
            Turn::ReadClient => OpenRequestView::PollClient,
            Turn::ReadSsh => OpenRequestView::PollSsh,
            Turn::OfferClient => OpenRequestView::SendClient(
                ServerMessageView::SshData(self.cl_buf),
            ),
            Turn::OfferSsh => OpenRequestView::SendSsh(self.ssh_buf),
            Turn::FlushClient => OpenRequestView::FlushClient,
            Turn::FlushSsh => OpenRequestView::FlushSsh,
        }
    }

    pub open spec fn at(self, turn: Turn) -> OpenModel {
        OpenModel { turn, ..self }
    }

    /// Offer SSH's output to the client, if there is any.
    pub open spec fn offer_client(self) -> OpenModel {
        if self.cl_buf.len() != 0 {
            self.at(Turn::OfferClient)
        } else {
            self.offer_ssh()
        }
    }

    /// Offer the user's input to SSH, if there is any.
    pub open spec fn offer_ssh(self) -> OpenModel {
        if self.ssh_buf.len() != 0 {
            self.at(Turn::OfferSsh)
        } else {
            self.at(Turn::FlushClient)
        }
    }

    /// What comes next. Each time that something happens, all that the client
    /// and SSH have to say is read, then what there is for either is offered
    /// and flushed. Once the user is logged in, what is still held for either is
    /// offered again until it is taken, and the dialogue is over. An event that
    /// is no answer to what was asked changes nothing.
    pub open spec fn step(self, event: OpenEventView) -> OpenStep {
        match (self.turn, event) {
            (Turn::Idle, OpenEventView::Wake) => OpenStep::Ask(self.at(Turn::ReadClient)),
            (
                Turn::ReadClient,
                OpenEventView::FromClient(ClientMessageView::UserData(data)),
            ) => OpenStep::Ask(OpenModel { ssh_buf: self.ssh_buf + data, ..self }),
            (Turn::ReadClient, OpenEventView::FromClient(msg)) => OpenStep::Failed(
                SessionErrorView::UnexpectedMessage(msg),
            ),
            (Turn::ReadClient, OpenEventView::ClientClosed) => OpenStep::Failed(
                SessionErrorView::ClientClosed,
            ),
            (Turn::ReadClient, OpenEventView::NotReady) => OpenStep::Ask(self.at(Turn::ReadSsh)),
            (Turn::ReadSsh, OpenEventView::FromSsh(bytes)) => OpenStep::Ask(
                OpenModel {
                    cl_buf: self.cl_buf + bytes,
                    progress: marker::matched(self.key, self.progress, bytes),
                    ..self
                },
            ),
            (Turn::ReadSsh, OpenEventView::SshClosed) => OpenStep::Aborting(
                ServerMessageView::Error("unexpected EOF from SSH (program died?)"@),
            ),
            (Turn::ReadSsh, OpenEventView::Failed(cause)) => OpenStep::Aborting(
                ServerMessageView::Error(
                    "something went wrong communicating with the SSH process: "@ + cause,
                ),
            ),
            (Turn::ReadSsh, OpenEventView::NotReady) => OpenStep::Ask(self.offer_client()),
            (Turn::OfferClient, OpenEventView::Accepted) => OpenStep::Ask(
                OpenModel { cl_buf: Seq::empty(), ..self }.offer_ssh(),
            ),
            (Turn::OfferClient, OpenEventView::Refused) => OpenStep::Ask(self.offer_ssh()),
            (Turn::OfferSsh, OpenEventView::Accepted) => OpenStep::Ask(
                OpenModel { ssh_buf: Seq::empty(), ..self }.at(Turn::FlushClient),
            ),
            (Turn::OfferSsh, OpenEventView::Refused) => OpenStep::Ask(self.at(Turn::FlushClient)),
            (Turn::FlushClient, OpenEventView::Flushed) => OpenStep::Ask(self.at(Turn::FlushSsh)),
            (Turn::FlushClient, OpenEventView::NotReady) => OpenStep::Ask(self.at(Turn::Idle)),
            (Turn::FlushSsh, OpenEventView::Flushed) => if !self.found() {
                OpenStep::Ask(self.at(Turn::Idle))
            } else if self.cl_buf.len() == 0 && self.ssh_buf.len() == 0 {
                OpenStep::FinalizingTxn(ServerMessageView::Okay)
            } else {
                OpenStep::Ask(self.offer_client())
            },
            (Turn::FlushSsh, OpenEventView::NotReady) => OpenStep::Ask(self.at(Turn::Idle)),
            (Turn::Idle, _) => OpenStep::Ask(self),
            (_, OpenEventView::Failed(cause)) => OpenStep::Failed(
                SessionErrorView::Transport(cause),
            ),
            _ => OpenStep::Ask(self),
        }
    }
}

impl CommunicatingForOpen {
    /// The search for the key is sound.
    pub open spec fn wf(&self) -> bool {
        self.ssh_key_status.wf(self.ssh_key@)
    }

    /// What is asked for, in the state that the dialogue is in.
    pub fn request(&self) -> (request: OpenRequest)
        ensures
            request@ == self@.request(),
    {
        match self.turn {
            Turn::Idle => OpenRequest::Wait,
            Turn::ReadClient => OpenRequest::PollClient,
            Turn::ReadSsh => OpenRequest::PollSsh,
            Turn::OfferClient => OpenRequest::SendClient(
                ServerMessage::SshData(self.cl_buf.clone()),
            ),
            Turn::OfferSsh => OpenRequest::SendSsh(self.ssh_buf.clone()),
            Turn::FlushClient => OpenRequest::FlushClient,
            Turn::FlushSsh => OpenRequest::FlushSsh,
        }
    }

    /// The turn in which SSH's output is offered to the client, if there is any.
    fn turn_to_offer_client(&self) -> (turn: Turn)
        ensures
            self@.at(turn) == self@.offer_client(),
    {
        if self.cl_buf.len() != 0 {
            Turn::OfferClient
        } else {
            self.turn_to_offer_ssh()
        }
    }

    /// The turn in which the user's input is offered to SSH, if there is any.
    fn turn_to_offer_ssh(&self) -> (turn: Turn)
        ensures
            self@.at(turn) == self@.offer_ssh(),
    {
        if self.ssh_buf.len() != 0 {
            Turn::OfferSsh
        } else {
            Turn::FlushClient
        }
    }

    /// Ask for what the dialogue needs.
    fn ask(self) -> (after: AfterCommunicatingForOpen)
        ensures
            after matches AfterCommunicatingForOpen::Ask(session, request) && session == self
                && request@ == self@.request(),
    {
        let request = self.request();
        AfterCommunicatingForOpen::Ask(self, request)
    }

    /// Act on an event in the login dialogue.
    pub fn poll_communicating_for_open(self, event: OpenEvent) -> (after: AfterCommunicatingForOpen)
        requires
            self.wf(),
        ensures
            after@ == self@.step(event@),
            after matches AfterCommunicatingForOpen::Ask(session, request) ==> session.wf()
                && request@ == session@.request(),
    {
        let mut session = self;
        match (session.turn, event) {
            (Turn::Idle, OpenEvent::Wake) => {
                session.turn = Turn::ReadClient;
            },
            (Turn::Idle, _) => {},
            (Turn::ReadClient, OpenEvent::FromClient(msg)) => match msg {
                ClientMessage::UserData(data) => {
                    session.ssh_buf.extend_from_slice(&data);
                    proof {
                        assert(session.ssh_buf@ =~= self.ssh_buf@ + data@);
                    }
                },
                other => {
                    return AfterCommunicatingForOpen::Failed(
                        SessionError::UnexpectedMessage(other),
                    );
                },
            },
            (Turn::ReadClient, OpenEvent::ClientClosed) => {
                return AfterCommunicatingForOpen::Failed(SessionError::ClientClosed);
            },
            (Turn::ReadClient, OpenEvent::NotReady) => {
                session.turn = Turn::ReadSsh;
            },
            (Turn::ReadSsh, OpenEvent::FromSsh(bytes)) => {
                session.ssh_key_status = session.ssh_key_status.advance(&session.ssh_key, &bytes);
                session.cl_buf.extend_from_slice(&bytes);
                proof {
                    assert(session.cl_buf@ =~= self.cl_buf@ + bytes@);
                }
            },
            (Turn::ReadSsh, OpenEvent::SshClosed) => {
                return AfterCommunicatingForOpen::Aborting(
                    abort_client("unexpected EOF from SSH (program died?)".to_owned()),
                );
            },
            (Turn::ReadSsh, OpenEvent::Failed(cause)) => {
                let mut message =
                    "something went wrong communicating with the SSH process: ".to_owned();
                message.append(cause.as_str());
                return AfterCommunicatingForOpen::Aborting(abort_client(message));
            },
            (Turn::ReadSsh, OpenEvent::NotReady) => {
                session.turn = session.turn_to_offer_client();
            },
            (Turn::OfferClient, OpenEvent::Accepted) => {
                session.cl_buf.clear();
                session.turn = session.turn_to_offer_ssh();
            },
            (Turn::OfferClient, OpenEvent::Refused) => {
                session.turn = session.turn_to_offer_ssh();
            },
            (Turn::OfferSsh, OpenEvent::Accepted) => {
                session.ssh_buf.clear();
                session.turn = Turn::FlushClient;
            },
            (Turn::OfferSsh, OpenEvent::Refused) => {
                session.turn = Turn::FlushClient;
            },
            (Turn::FlushClient, OpenEvent::Flushed) => {
                session.turn = Turn::FlushSsh;
            },
            (Turn::FlushClient, OpenEvent::NotReady) => {
                session.turn = Turn::Idle;
            },
            (Turn::FlushSsh, OpenEvent::Flushed) => {
                if let SshKeyStatus::FoundIt = session.ssh_key_status {
                    if session.cl_buf.len() == 0 && session.ssh_buf.len() == 0 {
                        return AfterCommunicatingForOpen::FinalizingTxn(
                            FinalizingTxn { reply: ServerMessage::Okay },
                        );
                    }
                    session.turn = session.turn_to_offer_client();
                } else {
                    session.turn = Turn::Idle;
                }
            },
            (Turn::FlushSsh, OpenEvent::NotReady) => {
                session.turn = Turn::Idle;
            },
            (_, OpenEvent::Failed(cause)) => {
                return AfterCommunicatingForOpen::Failed(SessionError::Transport(cause));
            },
            (_, _) => {},
        }
        session.ask()
    }
}

/// A stretch of the login dialogue: how it stands, and what has gone where.
pub struct OpenTrace {
    pub model: OpenModel,
    /// What SSH printed.
    pub from_ssh: Seq<u8>,
    /// What the client's connection took of it.
    pub to_client: Seq<u8>,
    /// What the user typed.
    pub from_client: Seq<u8>,
    /// What SSH took of it.
    pub to_ssh: Seq<u8>,
}

impl OpenTrace {
    /// What there is after one more event, while the dialogue goes on.
    pub open spec fn extend(self, event: OpenEventView) -> Option<OpenTrace> {
        match self.model.step(event) {
            OpenStep::Ask(model) => Some(
                OpenTrace {
                    model,
                    from_ssh: match (self.model.turn, event) {
                        (Turn::ReadSsh, OpenEventView::FromSsh(bytes)) => self.from_ssh + bytes,
                        _ => self.from_ssh,
                    },
                    to_client: match (self.model.request(), event) {
                        (
                            OpenRequestView::SendClient(ServerMessageView::SshData(bytes)),
                            OpenEventView::Accepted,
                        ) => self.to_client + bytes,
                        _ => self.to_client,
                    },
                    from_client: match (self.model.turn, event) {
                        (
                            Turn::ReadClient,
                            OpenEventView::FromClient(ClientMessageView::UserData(data)),
                        ) => self.from_client + data,
                        _ => self.from_client,
                    },
                    to_ssh: match (self.model.request(), event) {
                        (
                            OpenRequestView::SendSsh(bytes),
                            OpenEventView::Accepted,
                        ) => self.to_ssh + bytes,
                        _ => self.to_ssh,
                    },
                },
            ),
            _ => None,
        }
    }

    /// What there is after `events`, if the dialogue goes on so far.
    pub open spec fn of(key: Seq<u8>, events: Seq<OpenEventView>) -> Option<OpenTrace>
        decreases events.len(),
    {
        if events.len() == 0 {
            Some(
                OpenTrace {
                    model: OpenModel::start(key),
                    from_ssh: Seq::empty(),
                    to_client: Seq::empty(),
                    from_client: Seq::empty(),
                    to_ssh: Seq::empty(),
                },
            )
        } else {
            match OpenTrace::of(key, events.drop_last()) {
                Some(trace) => trace.extend(events.last()),
                None => None,
            }
        }
    }
}

/// The daemon relays faithfully: at any time while the dialogue goes on, what
/// SSH printed is what the client's connection took, followed by what is still
/// held for it; likewise for what the user typed. Nothing is lost, doubled or out
/// of order. And the search for the key has covered all that SSH printed.
pub proof fn law_relay_is_faithful(key: Seq<u8>, events: Seq<OpenEventView>)
    ensures
        OpenTrace::of(key, events) matches Some(trace) ==> {
            &&& trace.from_ssh == trace.to_client + trace.model.cl_buf
            &&& trace.from_client == trace.to_ssh + trace.model.ssh_buf
            &&& trace.model.key == key
            &&& trace.model.progress == marker::matched(key, 0, trace.from_ssh)
        },
    decreases events.len(),
{
    if events.len() == 0 {
        let trace = OpenTrace::of(key, events)->0;
        marker::law_nothing_matched_at_first(key);
        assert(trace.from_ssh =~= trace.to_client + trace.model.cl_buf);
        assert(trace.from_client =~= trace.to_ssh + trace.model.ssh_buf);
    } else {
        law_relay_is_faithful(key, events.drop_last());
        if let Some(before) = OpenTrace::of(key, events.drop_last()) {
            if let Some(trace) = before.extend(events.last()) {
                assert(trace.from_ssh =~= trace.to_client + trace.model.cl_buf);
                assert(trace.from_client =~= trace.to_ssh + trace.model.ssh_buf);
                if let OpenEventView::FromSsh(bytes) = events.last() {
                    marker::law_matched_in_parts(key, 0, before.from_ssh, bytes);
                }
            }
        }
    }
}

/// The client is told that the tunnel is open only if SSH has printed the key.
pub proof fn law_success_means_login(key: Seq<u8>, events: Seq<OpenEventView>, event: OpenEventView)
    requires
        OpenTrace::of(key, events) is Some,
        OpenTrace::of(key, events)->0.model.step(event) is FinalizingTxn,
    ensures
        exists|p: int| #[trigger]
            marker::occurs_at(key, OpenTrace::of(key, events)->0.from_ssh, p),
{
    law_relay_is_faithful(key, events);
    marker::law_found_iff_printed(key, OpenTrace::of(key, events)->0.from_ssh);
}

/// After SSH has printed the key, the client is told that the tunnel is open as
/// soon as all that was taken has been sent, or else what is still held is
/// offered at once.
pub proof fn law_login_means_success(key: Seq<u8>, events: Seq<OpenEventView>, p: int)
    requires
        OpenTrace::of(key, events) is Some,
        marker::occurs_at(key, OpenTrace::of(key, events)->0.from_ssh, p),
        OpenTrace::of(key, events)->0.model.turn == Turn::FlushSsh,
    ensures
        ({
            let model = OpenTrace::of(key, events)->0.model;
            model.step(OpenEventView::Flushed) == if model.cl_buf.len() == 0
                && model.ssh_buf.len() == 0 {
                OpenStep::FinalizingTxn(ServerMessageView::Okay)
            } else {
                OpenStep::Ask(model.offer_client())
            }
        }),
        ({
            let model = OpenTrace::of(key, events)->0.model;
            model.cl_buf.len() > 0 || model.ssh_buf.len() > 0 ==> {
                &&& model.step(OpenEventView::Flushed) matches OpenStep::Ask(next)
                &&& next.cl_buf == model.cl_buf
                &&& next.ssh_buf == model.ssh_buf
                &&& next.request() == if model.cl_buf.len() > 0 {
                    OpenRequestView::SendClient(ServerMessageView::SshData(model.cl_buf))
                } else {
                    OpenRequestView::SendSsh(model.ssh_buf)
                }
            }
        }),
{
    law_relay_is_faithful(key, events);
    marker::law_found_iff_printed(key, OpenTrace::of(key, events)->0.from_ssh);
}

/// When the client is told that the tunnel is open, its connection has taken
/// all that SSH printed, and SSH has taken all that the user typed.
pub proof fn law_nothing_is_held_at_success(
    key: Seq<u8>,
    events: Seq<OpenEventView>,
    event: OpenEventView,
)
    requires
        OpenTrace::of(key, events) is Some,
        OpenTrace::of(key, events)->0.model.step(event) is FinalizingTxn,
    ensures
        OpenTrace::of(key, events)->0.to_client == OpenTrace::of(key, events)->0.from_ssh,
        OpenTrace::of(key, events)->0.to_ssh == OpenTrace::of(key, events)->0.from_client,
{
    law_relay_is_faithful(key, events);
    let trace = OpenTrace::of(key, events)->0;
    assert(trace.to_client + trace.model.cl_buf =~= trace.to_client);
    assert(trace.to_ssh + trace.model.ssh_buf =~= trace.to_ssh);
}

} // verus!
