//! What the daemon does about a client's commands and about news of its SSH
//! processes, told of what goes in and what comes out.

use vstd::prelude::*;

use crate::daemon::history;
use crate::daemon::history::TunnelEvent;
use crate::daemon::monitor;
use crate::daemon::monitor::{
    AfterAwaitingChildEvent, AfterNotifyingChildDied, AwaitingChildEvent, ChildEvent, NoticeEvent,
};
use crate::daemon::session;
use crate::daemon::session::{
    Aborting, AfterAborting, AfterAwaitingCommand, AfterFinalizingTxn, AfterKill,
    ClientCommonState, CloseAnswer, CommunicatingForOpen, SessionError, SshLaunch, Turn,
};
use crate::daemon::state;
use crate::daemon::state::{ServeAction, ServeEvent, State, TunnelState};
use crate::marker;
use crate::protocol;
use crate::protocol::{
    ClientMessage, CloseParameters, OpenParameters, SendEvent, ServerMessage, ServerMessageView,
    StatusInformation,
};

verus! {

/// Closing a tunnel that is running has its process killed, by the very means
/// that were remembered for it, and the tunnel is remembered as closed on command.
/// Nothing else that is known of any tunnel changes. That is so whatever the host.
pub proof fn law_close_kills_what_is_running<K>(
    state: &mut State<K>,
    params: CloseParameters,
    after: AfterAwaitingCommand<K>,
    other: Seq<char>,
)
    requires
        call_ensures(session::process_close_command::<K>, (state, params), after),
        old(state).wf(),
        old(state)@.contains_key(params.host@),
        old(state)@[params.host@] is Running,
    ensures
        old(state)@[params.host@] == (TunnelState::Running { tx_kill: after->SendKill_0 }),
        after is SendKill,
        final(state)@.contains_key(params.host@),
        final(state)@[params.host@] == (TunnelState::<K>::Exited { status: None }),
        other != params.host@ ==> final(state)@.contains_key(other) == old(state)@.contains_key(
            other,
        ) && final(state)@[other] == old(state)@[other],
{
}

/// Closing a tunnel that is not known, or no longer running, kills nothing and
/// changes nothing, and the client is told that there was none to close.
pub proof fn law_close_spares_what_is_not_running<K>(
    state: &mut State<K>,
    params: CloseParameters,
    after: AfterAwaitingCommand<K>,
)
    requires
        call_ensures(session::process_close_command::<K>, (state, params), after),
        old(state).wf(),
        !old(state)@.contains_key(params.host@) || old(state)@[params.host@] is Exited,
    ensures
        after is FinalizingTxn,
        after->FinalizingTxn_0.reply is TunnelNotOpen,
        final(state)@ == old(state)@,
{
}

/// A close command is answered with an order to kill exactly if, had the client
/// asked for the status just before, it would have been told that the tunnel is
/// open.
pub proof fn law_close_kills_what_status_calls_open<K>(
    tunnels: &State<K>,
    info: StatusInformation,
    state: &mut State<K>,
    params: CloseParameters,
    after: AfterAwaitingCommand<K>,
)
    requires
        tunnels.wf(),
        call_ensures(State::<K>::status, (tunnels,), info),
        tunnels@ == old(state)@,
        call_ensures(session::process_close_command::<K>, (state, params), after),
    ensures
        after is SendKill <==> exists|i: int|
            0 <= i < info.tunnels@.len() && (#[trigger] info.tunnels@[i]).host@ == params.host@
                && info.tunnels@[i].state == protocol::TunnelState::Open,
{
    let host = params.host@;
    assert forall|i: int| 0 <= i < info.tunnels@.len() implies info@[i] == (
        (#[trigger] info.tunnels@[i]).host@,
        info.tunnels@[i].state,
    ) by {}
    assert(info@.len() == info.tunnels@.len());
    if after is SendKill {
        let i = choose|i: int| 0 <= i < info@.len() && (#[trigger] info@[i]).0 == host;
        assert(info.tunnels@[i].host@ == host);
    }
    if exists|i: int|
        0 <= i < info.tunnels@.len() && (#[trigger] info.tunnels@[i]).host@ == host
            && info.tunnels@[i].state == protocol::TunnelState::Open {
        let i = choose|i: int|
            0 <= i < info.tunnels@.len() && (#[trigger] info.tunnels@[i]).host@ == host
                && info.tunnels@[i].state == protocol::TunnelState::Open;
        assert(info@[i].0 == host);
    }
}

/// The status has an entry for each tunnel that is known, whatever its host: open
/// if its process is running, closed if it was killed on command, died if it exited
/// by itself. It has no other entry, and none twice.
pub proof fn law_status_tells_of_every_tunnel<K>(
    tunnels: &State<K>,
    info: StatusInformation,
    host: Seq<char>,
)
    requires
        tunnels.wf(),
        call_ensures(State::<K>::status, (tunnels,), info),
    ensures
        tunnels@.contains_key(host) <==> exists|i: int|
            0 <= i < info.tunnels@.len() && (#[trigger] info.tunnels@[i]).host@ == host,
        forall|i: int|
            0 <= i < info.tunnels@.len() && (#[trigger] info.tunnels@[i]).host@ == host ==> {
                &&& info.tunnels@[i].state == protocol::TunnelState::Open <==> tunnels@[host]
                    is Running
                &&& info.tunnels@[i].state == protocol::TunnelState::Closed <==> tunnels@[host]
                    == (TunnelState::<K>::Exited { status: None })
                &&& info.tunnels@[i].state == protocol::TunnelState::Died <==> (tunnels@[host]
                    is Exited && tunnels@[host]->status is Some)
            },
        forall|i: int, j: int|
            0 <= i < info.tunnels@.len() && 0 <= j < info.tunnels@.len() && (
            #[trigger] info.tunnels@[i]).host@ == host && (#[trigger] info.tunnels@[j]).host@
                == host ==> i == j,
{
    assert forall|i: int| 0 <= i < info.tunnels@.len() implies info@[i] == (
        (#[trigger] info.tunnels@[i]).host@,
        info.tunnels@[i].state,
    ) by {}
    assert(info@.len() == info.tunnels@.len());
    if tunnels@.contains_key(host) {
        let i = choose|i: int| 0 <= i < info@.len() && (#[trigger] info@[i]).0 == host;
        assert(info.tunnels@[i].host@ == host);
    }
    assert forall|i: int, j: int|
        0 <= i < info.tunnels@.len() && 0 <= j < info.tunnels@.len() && (
        #[trigger] info.tunnels@[i]).host@ == host && (#[trigger] info.tunnels@[j]).host@
            == host implies i == j by {
        assert(info@[i].0 == info@[j].0);
        if i < j {
            assert(info@[i].0 != info@[j].0);
        } else if j < i {
            assert(info@[j].0 != info@[i].0);
        }
    }
}

/// The reply to a status query is the status: what is told of a tunnel is what
/// is known of it.
pub proof fn law_a_query_is_answered_with_the_status<K>(
    tunnels: &State<K>,
    after: AfterAwaitingCommand<K>,
    host: Seq<char>,
)
    requires
        tunnels.wf(),
        call_ensures(session::process_status_query::<K>, (tunnels,), after),
    ensures
        after is FinalizingTxn,
        after->FinalizingTxn_0.reply is StatusResponse,
        ({
            let told = after->FinalizingTxn_0.reply->StatusResponse_0.tunnels@;
            &&& tunnels@.contains_key(host) <==> exists|i: int|
                0 <= i < told.len() && (#[trigger] told[i]).host@ == host
            &&& forall|i: int|
                0 <= i < told.len() && (#[trigger] told[i]).host@ == host ==> {
                    &&& told[i].state == protocol::TunnelState::Open <==> tunnels@[host] is Running
                    &&& told[i].state == protocol::TunnelState::Closed <==> tunnels@[host] == (
                    TunnelState::<K>::Exited { status: None })
                }
        }),
{
    let info = after->FinalizingTxn_0.reply->StatusResponse_0;
    assert forall|i: int| 0 <= i < info.tunnels@.len() implies info@[i] == (
        (#[trigger] info.tunnels@[i]).host@,
        info.tunnels@[i].state,
    ) by {}
    assert(info@.len() == info.tunnels@.len());
    if tunnels@.contains_key(host) {
        let i = choose|i: int| 0 <= i < info@.len() && (#[trigger] info@[i]).0 == host;
        assert(info.tunnels@[i].host@ == host);
    }
}

/// Opening a tunnel that is running starts nothing; the client is told that it is
/// open. In all other cases SSH is started for that very host.
pub proof fn law_open_starts_what_is_not_running<K>(
    tunnels: &State<K>,
    params: OpenParameters,
    after: AfterAwaitingCommand<K>,
)
    requires
        tunnels.wf(),
        call_ensures(session::process_open_command::<K>, (tunnels, params), after),
    ensures
        tunnels@.contains_key(params.host@) && tunnels@[params.host@] is Running ==> after
            is FinalizingTxn && after->FinalizingTxn_0.reply is TunnelAlreadyOpen,
        !tunnels@.contains_key(params.host@) || tunnels@[params.host@] is Exited ==> after
            is LaunchSsh && after->LaunchSsh_0.host@ == params.host@ && marker::is_key(
            after->LaunchSsh_0.key@,
        ) && after->LaunchSsh_0.logs_in(params.host@, after->LaunchSsh_0.key@),
{
}

/// How SSH is started for a host: in a terminal, without the display, with a
/// command for the remote host that prints the key and then lasts.
pub proof fn law_how_ssh_is_started(launch: SshLaunch, host: Seq<char>, key: Seq<char>)
    requires
        launch.logs_in(host, key),
    ensures
        launch.program@ == "ssh"@,
        launch.args@.len() == 3,
        launch.args@[0]@ == "-t"@,
        launch.args@[1]@ == host,
        launch.args@[2]@ == "echo \""@ + key + "\" && exec tail -f /dev/null"@,
        launch.env_remove@ == "DISPLAY"@,
        launch.host@ == host,
        launch.key@ == key,
{
    let said = launch.args@.map_values(|arg: String| arg@);
    assert(said.len() == 3);
    assert(said[0] == launch.args@[0]@);
    assert(said[1] == launch.args@[1]@);
    assert(said[2] == launch.args@[2]@);
}

/// The key of a process that is prepared is made of all the random bytes.
pub proof fn law_launch_is_made_of_its_random_bytes(
    params: OpenParameters,
    random: [u8; 32],
    launch: SshLaunch,
)
    requires
        call_ensures(session::prepare_launch, (params, &random), launch),
    ensures
        launch.logs_in(params.host@, "STUND:"@ + marker::base64_text(random@)),
        launch.key@ == "STUND:"@ + marker::base64_text(random@),
{
}

/// What a session makes of each command: a close command is carried out, and so
/// is an open command, a status query is answered from what is known, an order to
/// exit is agreed to, and the session is over when the client says goodbye or
/// leaves.
pub proof fn law_what_a_session_does<K>(
    common: &mut ClientCommonState,
    state: &mut State<K>,
    msg: Option<ClientMessage>,
    after: AfterAwaitingCommand<K>,
)
    requires
        old(state).wf(),
        call_ensures(
            ClientCommonState::poll_awaiting_command::<K>,
            (common, state, msg),
            after,
        ),
    ensures
        msg is None ==> after is Finished,
        msg == Some(ClientMessage::Goodbye) ==> after is Finished,
        msg == Some(ClientMessage::Exit) ==> after is FinalizingTxn
            && after->FinalizingTxn_0.reply is Okay,
        msg == Some(ClientMessage::QueryStatus) ==> after is FinalizingTxn
            && after->FinalizingTxn_0.reply is StatusResponse,
        msg matches Some(ClientMessage::UserData(data)) ==> after is Failed && after->Failed_0
            is UnexpectedCommand && after->Failed_0->UnexpectedCommand_0 is UserData
            && after->Failed_0->UnexpectedCommand_0->UserData_0@ == data@,
        msg matches Some(ClientMessage::Open(params)) ==> {
            let host = params.host@;
            if old(state)@.contains_key(host) && old(state)@[host] is Running {
                after is FinalizingTxn && after->FinalizingTxn_0.reply is TunnelAlreadyOpen
            } else {
                after is LaunchSsh && after->LaunchSsh_0.host@ == host
            }
        },
        msg matches Some(ClientMessage::Close(params)) ==> {
            let host = params.host@;
            if old(state)@.contains_key(host) && old(state)@[host] is Running {
                &&& after is SendKill
                &&& old(state)@[host] == (TunnelState::Running { tx_kill: after->SendKill_0 })
                &&& final(state)@ == old(state)@.insert(
                    host,
                    TunnelState::Exited { status: None },
                )
            } else {
                &&& after is FinalizingTxn
                &&& after->FinalizingTxn_0.reply is TunnelNotOpen
                &&& final(state)@ == old(state)@
            }
        },
        !(msg matches Some(ClientMessage::Close(_))) ==> final(state)@ == old(state)@,
        final(common).exit_on_close <==> old(common).exit_on_close || msg == Some(
            ClientMessage::Exit,
        ),
{
}

/// The answer to a status query in a session tells of every tunnel, in the state
/// that it is in.
pub proof fn law_a_session_tells_of_every_tunnel<K>(
    common: &mut ClientCommonState,
    state: &mut State<K>,
    after: AfterAwaitingCommand<K>,
    host: Seq<char>,
)
    requires
        old(state).wf(),
        call_ensures(
            ClientCommonState::poll_awaiting_command::<K>,
            (common, state, Some(ClientMessage::QueryStatus)),
            after,
        ),
    ensures
        ({
            let told = after->FinalizingTxn_0.reply->StatusResponse_0.tunnels@;
            &&& old(state)@.contains_key(host) <==> exists|i: int|
                0 <= i < told.len() && (#[trigger] told[i]).host@ == host
            &&& forall|i: int|
                0 <= i < told.len() && (#[trigger] told[i]).host@ == host ==> {
                    &&& told[i].state == protocol::TunnelState::Open <==> old(state)@[host]
                        is Running
                    &&& told[i].state == protocol::TunnelState::Closed <==> old(state)@[host] == (
                    TunnelState::<K>::Exited { status: None })
                }
        }),
{
    let info = after->FinalizingTxn_0.reply->StatusResponse_0;
    assert forall|i: int| 0 <= i < info.tunnels@.len() implies info@[i] == (
        (#[trigger] info.tunnels@[i]).host@,
        info.tunnels@[i].state,
    ) by {}
    assert(info@.len() == info.tunnels@.len());
    if old(state)@.contains_key(host) {
        let i = choose|i: int| 0 <= i < info@.len() && (#[trigger] info@[i]).0 == host;
        assert(info.tunnels@[i].host@ == host);
    }
}

/// SSH that was launched is remembered as running for its host, with the means to
/// kill it, in place of what was known of that host and of no other. The client
/// is told so, and the login dialogue begins with nothing held and with all of the
/// key to be found.
pub proof fn law_what_is_launched_is_remembered<K>(
    state: &mut State<K>,
    launch: SshLaunch,
    tx_kill: K,
    r: (CommunicatingForOpen, ServerMessage),
)
    requires
        old(state).wf(),
        marker::is_key(launch.key@),
        call_ensures(session::ssh_launched::<K>, (state, launch, tx_kill), r),
    ensures
        final(state)@ == old(state)@.insert(launch.host@, TunnelState::Running { tx_kill }),
        r.1 is Okay,
        r.0.turn == Turn::Idle,
        r.0.cl_buf@.len() == 0,
        r.0.ssh_buf@.len() == 0,
        r.0.ssh_key@ == vstd::utf8::encode_utf8(launch.key@),
        r.0.ssh_key_status.progress(r.0.ssh_key@) == 0,
{
}

/// A tunnel that was launched, and not heard of since, is killed by a close command
/// through the means that its launch gave, whatever happened before it or to other
/// tunnels.
pub proof fn law_close_kills_the_last_launch<K>(
    before: Seq<TunnelEvent<K>>,
    later: Seq<TunnelEvent<K>>,
    host: Seq<char>,
    tx_kill: K,
)
    requires
        forall|i: int| 0 <= i < later.len() ==> (#[trigger] later[i]).host() != host,
    ensures
        session::close_answer(
            history::known_after(before.push(TunnelEvent::Launched(host, tx_kill)) + later),
            host,
        ) == CloseAnswer::Kill(tx_kill),
    decreases later.len(),
{
    let launched = before.push(TunnelEvent::Launched(host, tx_kill));
    if later.len() == 0 {
        assert(launched + later =~= launched);
        assert(launched.drop_last() =~= before);
    } else {
        let init = later.drop_last();
        assert forall|i: int| 0 <= i < init.len() implies (#[trigger] init[i]).host() != host by {
            assert(init[i] == later[i]);
        }
        law_close_kills_the_last_launch(before, init, host, tx_kill);
        assert((launched + later).drop_last() =~= launched + init);
        assert((launched + later).last() == later[later.len() - 1]);
        assert(later[later.len() - 1].host() != host);
    }
}

/// What is done about a close command depends on what is known of that host alone:
/// a running tunnel is killed, by its own means.
pub proof fn law_close_depends_on_its_host_alone<K>(
    tunnels: Map<Seq<char>, TunnelState<K>>,
    others: Map<Seq<char>, TunnelState<K>>,
    host: Seq<char>,
    tx_kill: K,
)
    requires
        tunnels.contains_key(host) == others.contains_key(host),
        tunnels[host] == others[host],
    ensures
        session::close_answer(tunnels, host) == session::close_answer(others, host),
        tunnels.contains_key(host) && tunnels[host] == (TunnelState::Running { tx_kill })
            ==> session::close_answer(tunnels, host) == CloseAnswer::Kill(tx_kill),
        !tunnels.contains_key(host) || tunnels[host] is Exited ==> session::close_answer(
            tunnels,
            host,
        ) == CloseAnswer::<K>::Reply(ServerMessageView::TunnelNotOpen),
{
}

/// Closing changes a running tunnel to one that was closed on command, and leaves
/// all that is not running as it is.
pub proof fn law_what_closing_changes<K>(
    tunnels: Map<Seq<char>, TunnelState<K>>,
    host: Seq<char>,
)
    ensures
        tunnels.contains_key(host) && tunnels[host] is Running ==> state::closed(tunnels, host)
            == tunnels.insert(host, TunnelState::Exited { status: None }),
        !tunnels.contains_key(host) || tunnels[host] is Exited ==> state::closed(tunnels, host)
            == tunnels,
{
}

/// The client is told of the order to kill: that it was taken, or that it could
/// not be given.
pub proof fn law_kill_is_reported(taken: bool, after: AfterKill)
    requires
        call_ensures(session::kill_sent, (taken,), after),
    ensures
        taken ==> after is FinalizingTxn && after->FinalizingTxn_0.reply is Okay,
        !taken ==> after is Aborting && after->Aborting_0.reply is Error
            && after->Aborting_0.reply->Error_0@ == "failed to send internal kill signal (?)"@,
{
}

/// A client whose command fails is told why, in full.
pub proof fn law_failures_are_told(message: String, cause: &str, abort: Aborting, failed: Aborting)
    requires
        call_ensures(session::abort_client, (message,), abort),
        call_ensures(session::ssh_launch_failed, (cause,), failed),
    ensures
        abort.reply is Error,
        abort.reply->Error_0@ == message@,
        failed.reply is Error,
        failed.reply->Error_0@ == "failed to launch SSH: "@ + cause@,
{
}

/// After a reply the next command is awaited; after an error message the session
/// is over; either only once the message is out.
pub proof fn law_replies_get_out(
    event: SendEvent,
    finalizing: AfterFinalizingTxn,
    aborting: AfterAborting,
)
    requires
        call_ensures(session::poll_finalizing_txn, (event,), finalizing),
        call_ensures(session::poll_aborting, (event,), aborting),
    ensures
        event is Pending <==> finalizing is Wait,
        event is Sent <==> finalizing is AwaitingCommand,
        event is Pending <==> aborting is Wait,
        event is Sent <==> aborting is Failed && aborting->Failed_0
            is ClientNotified,
        event matches SendEvent::Failed(cause) ==> {
            &&& finalizing is Failed
            &&& finalizing->Failed_0 is Transport
            &&& finalizing->Failed_0->Transport_0@ == cause@
            &&& aborting is Failed
            &&& aborting->Failed_0 is Transport
            &&& aborting->Failed_0->Transport_0@ == cause@
        },
{
}

/// News of an SSH process is remembered for its host alone: a process that was
/// killed as closed on command, one that exited by itself as dead, with its status.
/// Other news changes nothing.
pub proof fn law_news_is_remembered<K>(
    child: AwaitingChildEvent,
    state: &mut State<K>,
    event: ChildEvent,
    after: AfterAwaitingChildEvent,
)
    requires
        old(state).wf(),
        call_ensures(
            AwaitingChildEvent::poll_awaiting_child_event::<K>,
            (child, state, event),
            after,
        ),
    ensures
        event matches ChildEvent::ChildExited(status) ==> {
            &&& final(state)@ == old(state)@.insert(
                child.key@,
                TunnelState::Exited { status: Some(status) },
            )
            &&& after == (AfterAwaitingChildEvent::NotifyingChildDied {
                kill: false,
                status: Some(status),
            })
        },
        event is KillOrdered ==> {
            &&& final(state)@ == old(state)@.insert(
                child.key@,
                TunnelState::Exited { status: None },
            )
            &&& after == (AfterAwaitingChildEvent::NotifyingChildDied { kill: true, status: None })
        },
        !(event is ChildExited) && !(event is KillOrdered) ==> final(state)@ == old(state)@,
        event is ChildPending ==> after == AfterAwaitingChildEvent::CheckKill(child),
        event is KillPending ==> after == AfterAwaitingChildEvent::Wait(child),
        event is ChildFailed || event is KillCanceled ==> after is ChildError,
{
}

/// The process is killed exactly if its death is ordered.
pub proof fn law_killed_only_on_order<K>(
    child: AwaitingChildEvent,
    state: &mut State<K>,
    event: ChildEvent,
    after: AfterAwaitingChildEvent,
)
    requires
        old(state).wf(),
        call_ensures(
            AwaitingChildEvent::poll_awaiting_child_event::<K>,
            (child, state, event),
            after,
        ),
    ensures
        event is KillOrdered <==> after is NotifyingChildDied && after->kill,
        after is NotifyingChildDied <==> event is KillOrdered || event is ChildExited,
{
}

/// The monitor of a dead process ends once the notice of the death is out, or
/// cannot be got out.
pub proof fn law_death_notices(event: NoticeEvent, after: AfterNotifyingChildDied)
    requires
        call_ensures(monitor::poll_notifying_child_died, (event,), after),
    ensures
        event is Pending <==> after is Wait,
        event is Sent <==> after is ChildReaped,
        event is Failed <==> after is ChildError,
{
}

/// A daemon that was just started knows no tunnels. What was remembered is found
/// again until it is replaced or forgotten.
pub proof fn law_what_is_remembered_is_found<K>(
    state: &mut State<K>,
    host: String,
    child: TunnelState<K>,
    later: &State<K>,
    asked: String,
    found: Option<&TunnelState<K>>,
)
    requires
        old(state).wf(),
        call_ensures(State::<K>::insert, (state, host, child), ()),
        later@ == final(state)@,
        call_ensures(State::<K>::get, (later, &asked), found),
    ensures
        asked@ == host@ ==> found is Some && *found->0 == child,
        asked@ != host@ ==> (found is Some <==> old(state)@.contains_key(asked@)),
        asked@ != host@ ==> (found matches Some(t) ==> *t == old(state)@[asked@]),
{
}

/// A tunnel that is forgotten is handed out, if it was known, and is not found any
/// more; the others are as before.
pub proof fn law_what_is_forgotten_is_gone<K>(
    state: &mut State<K>,
    host: String,
    child: Option<TunnelState<K>>,
    other: Seq<char>,
)
    requires
        old(state).wf(),
        call_ensures(State::<K>::remove, (state, &host), child),
    ensures
        child is Some <==> old(state)@.contains_key(host@),
        child matches Some(t) ==> t == old(state)@[host@],
        !final(state)@.contains_key(host@),
        other != host@ ==> final(state)@.contains_key(other) == old(state)@.contains_key(other)
            && final(state)@[other] == old(state)@[other],
{
}

/// A serving daemon exits on any signal and after a session in which that was
/// asked for, and on nothing else. It starts a session for each client.
pub proof fn law_when_the_daemon_exits<K>(
    daemon: &State<K>,
    common: ClientCommonState,
    event: ServeEvent,
    finished: ServeEvent,
    action: ServeAction,
)
    requires
        call_ensures(State::<K>::serve, (daemon, event), action),
        call_ensures(ClientCommonState::finished, (&common,), finished),
    ensures
        event is Signal ==> action == ServeAction::Exit,
        event == finished ==> (action == ServeAction::Exit <==> common.exit_on_close),
        event is ClientConnected <==> action == ServeAction::StartSession,
        event is AcceptFailed <==> action == ServeAction::StopAccepting,
        event is SessionFailed ==> action == ServeAction::GoOn,
        event == (ServeEvent::SessionFinished { exit_on_close: false }) ==> action
            == ServeAction::GoOn,
{
}

/// A session in which nothing was said yet does not make the daemon exit.
pub proof fn law_a_session_begins_without_orders(common: ClientCommonState)
    requires
        call_ensures(ClientCommonState::new, (), common),
    ensures
        !common.exit_on_close,
{
}

/// What is written to the log of a session that breaks down.
pub proof fn law_what_is_said_of_a_broken_session(
    msg: ClientMessage,
    shown: String,
    cause: String,
    command: String,
    message: String,
    closed: String,
    notified: String,
    transport: String,
)
    requires
        call_ensures(ClientMessage::show, (&msg,), shown),
        call_ensures(
            SessionError::describe,
            (&SessionError::UnexpectedCommand(msg),),
            command,
        ),
        call_ensures(
            SessionError::describe,
            (&SessionError::UnexpectedMessage(msg),),
            message,
        ),
        call_ensures(SessionError::describe, (&SessionError::ClientClosed,), closed),
        call_ensures(SessionError::describe, (&SessionError::ClientNotified,), notified),
        call_ensures(SessionError::describe, (&SessionError::Transport(cause),), transport),
    ensures
        command@ == "unexpected message from client: "@ + shown@,
        message@ == "unexpected message from the client: "@ + shown@,
        closed@ == "client connection unexpectedly closed"@,
        notified@ == "ending connection now that client has been notified"@,
        transport@ == cause@,
{
}

/// What is reported of a tunnel: open if its process is running, closed if it was
/// killed on command, died if it exited by itself, whatever its status.
pub proof fn law_what_is_reported<K>(tunnel: TunnelState<K>, state: protocol::TunnelState)
    requires
        call_ensures(TunnelState::<K>::report, (&tunnel,), state),
    ensures
        tunnel is Running <==> state == protocol::TunnelState::Open,
        tunnel is Exited && tunnel->status is None <==> state == protocol::TunnelState::Closed,
        tunnel is Exited && tunnel->status is Some <==> state == protocol::TunnelState::Died,
{
}

/// What the daemon knows changes as its history says: by a launch, by a close command,
/// and by news of an SSH process.
pub proof fn law_the_daemon_follows_its_history<K>(
    launched: &mut State<K>,
    launch: SshLaunch,
    tx_kill: K,
    begun: (CommunicatingForOpen, ServerMessage),
    commanded: &mut State<K>,
    params: CloseParameters,
    after: AfterAwaitingCommand<K>,
    told: &mut State<K>,
    child: AwaitingChildEvent,
    event: ChildEvent,
    news: AfterAwaitingChildEvent,
)
    requires
        call_ensures(session::ssh_launched::<K>, (launched, launch, tx_kill), begun),
        call_ensures(session::process_close_command::<K>, (commanded, params), after),
        call_ensures(
            AwaitingChildEvent::poll_awaiting_child_event::<K>,
            (child, told, event),
            news,
        ),
    ensures
        final(launched)@ == TunnelEvent::Launched(launch.host@, tx_kill).apply(old(launched)@),
        final(commanded)@ == TunnelEvent::CloseCommand(params.host@).apply(old(commanded)@),
        final(told)@ == TunnelEvent::ChildNews(child.key@, event).apply(old(told)@),
{
}

/// An event in the history of one tunnel leaves what is known of the others as it is.
pub proof fn law_events_concern_one_tunnel<K>(
    event: TunnelEvent<K>,
    tunnels: Map<Seq<char>, TunnelState<K>>,
    other: Seq<char>,
)
    requires
        match event {
            TunnelEvent::Launched(host, _) => other != host,
            TunnelEvent::CloseCommand(host) => other != host,
            TunnelEvent::ChildNews(host, _) => other != host,
        },
    ensures
        event.apply(tunnels).contains_key(other) == tunnels.contains_key(other),
        tunnels.contains_key(other) ==> event.apply(tunnels)[other] == tunnels[other],
{
}

} // verus!
