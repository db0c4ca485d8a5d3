//! The login dialogue in the client: what the daemon passes on is shown to the
//! user, what the user types is passed on, whatever the length; and getting in
//! touch with the daemon, and what its replies mean.

use vstd::prelude::*;

use crate::client::connection::{
    Connection, PendingClose, PendingExit, PendingStatus, Reply, ReplyView,
};
use crate::client::error::{ClientError, ClientErrorView};
use crate::client::establish::{
    AfterEstablish, Establish, EstablishError, EstablishEvent, EstablishRequest, EstablishStage,
};
use crate::client::open::{
    AfterCommunicating, Communicating, DialogueEvent, DialogueEventView, DialogueModel,
    DialogueRequest, DialogueRequestView, DialogueStep, DialogueTrace, Issue,
};
use crate::protocol::{
    ClientMessage, ClientMessageView, CloseParameters, CloseResult, OpenParameters, OpenResult,
    ServerMessage, ServerMessageView, StatusInformation,
};

verus! {

/// How a dialogue stands after `events`, if it goes on so far.
pub open spec fn dialogue_after(model: DialogueModel, events: Seq<DialogueEventView>) -> Option<
    DialogueModel,
>
    decreases events.len(),
{
    if events.len() == 0 {
        Some(model)
    } else {
        match dialogue_after(model, events.drop_last()) {
            Some(before) => match before.step(events.last()) {
                DialogueStep::Ask(next) => Some(next),
                _ => None,
            },
            None => None,
        }
    }
}

/// Whether `request` is made after `events`.
pub open spec fn asks_after(
    model: DialogueModel,
    events: Seq<DialogueEventView>,
    request: DialogueRequestView,
) -> bool {
    dialogue_after(model, events) matches Some(at) && at.request() == request
}

/// Whether `request` is made at some time in the course of `events`.
pub open spec fn is_asked(
    model: DialogueModel,
    events: Seq<DialogueEventView>,
    request: DialogueRequestView,
) -> bool {
    exists|i: int|
        0 <= i <= events.len() && #[trigger] asks_after(model, events.take(i), request)
}

proof fn lemma_asked_later(
    model: DialogueModel,
    events: Seq<DialogueEventView>,
    request: DialogueRequestView,
)
    requires
        events.len() > 0,
        is_asked(model, events.drop_last(), request),
    ensures
        is_asked(model, events, request),
{
    let init = events.drop_last();
    let i = choose|i: int|
        0 <= i <= init.len() && #[trigger] asks_after(model, init.take(i), request);
    assert(init.take(i) =~= events.take(i));
    assert(asks_after(model, events.take(i), request));
}

proof fn lemma_asked_now(
    model: DialogueModel,
    events: Seq<DialogueEventView>,
    request: DialogueRequestView,
)
    requires
        asks_after(model, events, request),
    ensures
        is_asked(model, events, request),
{
    assert(events.take(events.len() as int) =~= events);
    assert(asks_after(model, events.take(events.len() as int), request));
}

/// Whether the next thing that is not ready is the last of what there is to read:
/// the user's input, or the daemon's where the user takes no part.
pub open spec fn reads_last(model: DialogueModel) -> bool {
    ||| model.request() == DialogueRequestView::PollUser
    ||| model.request() == DialogueRequestView::PollDaemon && !model.read_input
}

proof fn lemma_offers(model: DialogueModel, events: Seq<DialogueEventView>)
    requires
        reads_last(model),
        events.len() > 0,
        events[0] == DialogueEventView::NotReady,
    ensures
        dialogue_after(model, events) matches Some(now) ==> {
            ||| now.request() == DialogueRequestView::SendUser(model.user_buf) && now.ssh_buf
                == model.ssh_buf && model.user_buf.len() > 0 && now.succeeded == model.succeeded
            ||| (model.user_buf.len() > 0 ==> is_asked(
                model,
                events,
                DialogueRequestView::SendUser(model.user_buf),
            )) && (model.ssh_buf.len() > 0 && !model.succeeded ==> is_asked(
                model,
                events,
                DialogueRequestView::SendDaemon(ClientMessageView::UserData(model.ssh_buf)),
            ))
        },
    decreases events.len(),
{
    let init = events.drop_last();
    let to_user = DialogueRequestView::SendUser(model.user_buf);
    let to_daemon = DialogueRequestView::SendDaemon(ClientMessageView::UserData(model.ssh_buf));
    if init.len() == 0 {
        assert(dialogue_after(model, init) == Some(model));
        assert(events.last() == DialogueEventView::NotReady);
        if dialogue_after(model, events) is Some && model.user_buf.len() == 0
            && model.ssh_buf.len() > 0 {
            lemma_asked_now(model, events, to_daemon);
        }
    } else {
        assert(init[0] == events[0]);
        lemma_offers(model, init);
        if let Some(before) = dialogue_after(model, init) {
            if let Some(now) = dialogue_after(model, events) {
                if before.request() == to_user && before.ssh_buf == model.ssh_buf
                    && model.user_buf.len() > 0 && before.succeeded == model.succeeded {
                    lemma_asked_now(model, init, to_user);
                    lemma_asked_later(model, events, to_user);
                    if now.request() == to_daemon {
                        lemma_asked_now(model, events, to_daemon);
                    }
                } else {
                    if is_asked(model, init, to_user) {
                        lemma_asked_later(model, events, to_user);
                    }
                    if is_asked(model, init, to_daemon) {
                        lemma_asked_later(model, events, to_daemon);
                    }
                }
            }
        }
    }
}

/// Progress of the relay: once all that there is has been read, all of SSH's
/// output that is held is offered to the user, and all of the user's input that
/// is held is offered to the daemon, before anything is flushed and before the
/// dialogue waits again. That is so whatever the length of what is held, and
/// whatever events come in; the user's share is offered also once the tunnel is
/// open, when there is nothing more to say to the daemon.
pub proof fn law_what_is_held_is_offered(model: DialogueModel, events: Seq<DialogueEventView>)
    requires
        reads_last(model),
        events.len() > 0,
        events[0] == DialogueEventView::NotReady,
        dialogue_after(model, events) is Some,
        ({
            let now = dialogue_after(model, events)->0.request();
            now == DialogueRequestView::FlushUser || now == DialogueRequestView::FlushDaemon || now
                == DialogueRequestView::Wait
        }),
    ensures
        model.user_buf.len() > 0 ==> is_asked(
            model,
            events,
            DialogueRequestView::SendUser(model.user_buf),
        ),
        model.ssh_buf.len() > 0 && !model.succeeded ==> is_asked(
            model,
            events,
            DialogueRequestView::SendDaemon(ClientMessageView::UserData(model.ssh_buf)),
        ),
{
    lemma_offers(model, events);
}

/// Right after all has been read, what is asked for is to send what is held, the
/// user's share first; with nothing held, the user's terminal is flushed.
pub proof fn law_offers_follow_at_once(model: DialogueModel)
    requires
        reads_last(model),
    ensures
        ({
            &&& model.step(DialogueEventView::NotReady) matches DialogueStep::Ask(next)
            &&& (DialogueModel { turn: model.turn, ..next }) == model
            &&& next.request() == if model.user_buf.len() > 0 {
                DialogueRequestView::SendUser(model.user_buf)
            } else if model.ssh_buf.len() > 0 {
                DialogueRequestView::SendDaemon(ClientMessageView::UserData(model.ssh_buf))
            } else {
                DialogueRequestView::FlushUser
            }
        }),
{
}

/// What an offer does: what was taken is no longer held, what was refused is held
/// still. After the user it is the daemon's turn, unless the tunnel is open.
pub proof fn law_offers_are_taken_or_kept(model: DialogueModel, taken: bool)
    ensures
        model.request() matches DialogueRequestView::SendUser(bytes) ==> {
            let answer = if taken {
                DialogueEventView::Accepted
            } else {
                DialogueEventView::Refused
            };
            &&& bytes == model.user_buf
            &&& model.step(answer) matches DialogueStep::Ask(next)
            &&& next.user_buf == (if taken {
                Seq::<u8>::empty()
            } else {
                model.user_buf
            })
            &&& next.ssh_buf == model.ssh_buf
            &&& next.succeeded == model.succeeded
            &&& next.read_input == model.read_input
            &&& next.request() == if model.ssh_buf.len() > 0 && !model.succeeded {
                DialogueRequestView::SendDaemon(ClientMessageView::UserData(model.ssh_buf))
            } else {
                DialogueRequestView::FlushUser
            }
        },
        model.request() matches DialogueRequestView::SendDaemon(msg) ==> {
            let answer = if taken {
                DialogueEventView::Accepted
            } else {
                DialogueEventView::Refused
            };
            &&& msg == ClientMessageView::UserData(model.ssh_buf)
            &&& model.step(answer) matches DialogueStep::Ask(next)
            &&& next.ssh_buf == (if taken {
                Seq::<u8>::empty()
            } else {
                model.ssh_buf
            })
            &&& next.user_buf == model.user_buf
            &&& next.succeeded == model.succeeded
            &&& next.read_input == model.read_input
            &&& next.request() == DialogueRequestView::FlushUser
        },
{
}

/// What is read is put behind what is held, and read on.
pub proof fn law_all_that_is_read_is_held(model: DialogueModel, data: Seq<u8>)
    ensures
        model.request() is PollDaemon ==> {
            &&& model.step(
                DialogueEventView::FromDaemon(ServerMessageView::SshData(data)),
            ) matches DialogueStep::Ask(next)
            &&& next.request() is PollDaemon
            &&& next.user_buf == model.user_buf + data
            &&& next.ssh_buf == model.ssh_buf
            &&& next.succeeded == model.succeeded
            &&& next.read_input == model.read_input
        },
        model.request() is PollUser ==> {
            &&& model.step(DialogueEventView::FromUser(data)) matches DialogueStep::Ask(next)
            &&& next.request() is PollUser
            &&& next.ssh_buf == model.ssh_buf + data
            &&& next.user_buf == model.user_buf
            &&& next.succeeded == model.succeeded
            &&& next.read_input == model.read_input
        },
{
}

/// The order of a round: woken, the daemon is read, then the user, if the user
/// takes part; flushes that are not done end the round, and nothing is forgotten
/// on the way.
pub proof fn law_order_of_a_round(model: DialogueModel)
    ensures
        model.request() is Wait && !model.succeeded ==> {
            &&& model.step(DialogueEventView::Wake) matches DialogueStep::Ask(next)
            &&& next.request() is PollDaemon
            &&& (DialogueModel { turn: model.turn, ..next }) == model
        },
        model.request() is Wait && model.succeeded && model.user_buf.len() > 0 ==> {
            &&& model.step(DialogueEventView::Wake) matches DialogueStep::Ask(next)
            &&& next.request() == DialogueRequestView::SendUser(model.user_buf)
            &&& (DialogueModel { turn: model.turn, ..next }) == model
        },
        model.request() is Wait && model.succeeded && model.user_buf.len() == 0 ==> {
            &&& model.step(DialogueEventView::Wake) matches DialogueStep::Ask(next)
            &&& next.request() is FlushUser
            &&& (DialogueModel { turn: model.turn, ..next }) == model
        },
        model.request() is PollDaemon && model.read_input ==> {
            &&& model.step(DialogueEventView::NotReady) matches DialogueStep::Ask(next)
            &&& next.request() is PollUser
            &&& (DialogueModel { turn: model.turn, ..next }) == model
        },
        model.request() is FlushUser && !model.succeeded ==> {
            &&& model.step(DialogueEventView::Flushed) matches DialogueStep::Ask(next)
            &&& next.request() is FlushDaemon
            &&& (DialogueModel { turn: model.turn, ..next }) == model
        },
        model.request() is FlushUser ==> {
            &&& model.step(DialogueEventView::NotReady) matches DialogueStep::Ask(next)
            &&& next.request() is Wait
            &&& (DialogueModel { turn: model.turn, ..next }) == model
        },
        model.request() is FlushDaemon ==> {
            &&& model.step(DialogueEventView::Flushed) matches DialogueStep::Ask(next)
            &&& next.request() is Wait
            &&& (DialogueModel { turn: model.turn, ..next }) == model
        },
        model.request() is FlushDaemon ==> {
            &&& model.step(DialogueEventView::NotReady) matches DialogueStep::Ask(next)
            &&& next.request() is Wait
            &&& (DialogueModel { turn: model.turn, ..next }) == model
        },
        model.request() is PollDaemon ==> {
            &&& model.step(DialogueEventView::DaemonClosed) matches DialogueStep::Ask(next)
            &&& next == model
        },
{
}

/// The daemon's word that the tunnel is open ends the dialogue at once if no
/// output is held; else all that is held is offered to the user first, again and
/// again until it is taken, and the end comes when it has been flushed.
pub proof fn law_success_ends_the_dialogue(model: DialogueModel)
    ensures
        model.request() is PollDaemon && model.user_buf.len() == 0 ==> model.step(
            DialogueEventView::FromDaemon(ServerMessageView::Okay),
        ) == DialogueStep::Finished(OpenResult::Success),
        model.request() is PollDaemon && model.user_buf.len() > 0 ==> {
            &&& model.step(
                DialogueEventView::FromDaemon(ServerMessageView::Okay),
            ) matches DialogueStep::Ask(next)
            &&& next.request() == DialogueRequestView::SendUser(model.user_buf)
            &&& next.succeeded
        },
        model.request() is FlushUser && model.succeeded && model.user_buf.len() == 0 ==> model.step(
            DialogueEventView::Flushed,
        ) == DialogueStep::Finished(OpenResult::Success),
        model.request() is FlushUser && model.succeeded && model.user_buf.len() > 0 ==> {
            &&& model.step(DialogueEventView::Flushed) matches DialogueStep::Ask(next)
            &&& next.request() == DialogueRequestView::SendUser(model.user_buf)
            &&& next.succeeded
        },
{
}

/// How a dialogue fails: with the daemon's own words, with the message that is out
/// of place, at the end of the user's input, or with what the system says.
pub proof fn law_how_a_dialogue_fails(
    model: DialogueModel,
    msg: ServerMessageView,
    text: Seq<char>,
)
    ensures
        model.request() is PollDaemon ==> model.step(
            DialogueEventView::FromDaemon(ServerMessageView::Error(text)),
        ) == DialogueStep::Failed(ClientErrorView::Daemon(text)),
        model.request() is PollDaemon && !(msg is Okay) && !(msg is Error) && !(msg is SshData)
            ==> model.step(DialogueEventView::FromDaemon(msg)) == DialogueStep::Failed(
            ClientErrorView::UnexpectedMessage(msg),
        ),
        model.request() is PollUser ==> model.step(DialogueEventView::UserClosed)
            == DialogueStep::Failed(ClientErrorView::TerminalEof),
        !(model.request() is Wait) ==> model.step(DialogueEventView::Failed(text))
            == DialogueStep::Failed(ClientErrorView::Transport(text)),
{
}

/// A dialogue that waits is stirred by nothing but being woken.
pub proof fn law_waiting_is_undisturbed(model: DialogueModel, event: DialogueEventView)
    requires
        model.request() is Wait,
        event != DialogueEventView::Wake,
    ensures
        model.step(event) == DialogueStep::Ask(model),
{
}

/// A dialogue begins by waiting, with nothing held.
pub proof fn law_a_dialogue_begins_empty(read_input: bool)
    ensures
        DialogueModel::start(read_input).request() is Wait,
        DialogueModel::start(read_input).user_buf.len() == 0,
        DialogueModel::start(read_input).ssh_buf.len() == 0,
        DialogueModel::start(read_input).read_input == read_input,
        !DialogueModel::start(read_input).succeeded,
{
}

/// Only what is held is ever offered, all of it, and never nothing.
pub proof fn law_offers_are_all_that_is_held(read_input: bool, events: Seq<DialogueEventView>)
    ensures
        DialogueTrace::of(read_input, events) matches Some(trace) ==> {
            &&& trace.model.request() matches DialogueRequestView::SendUser(bytes) ==> bytes
                == trace.model.user_buf && bytes.len() > 0
            &&& trace.model.request() matches DialogueRequestView::SendDaemon(msg) ==> msg
                == ClientMessageView::UserData(trace.model.ssh_buf) && trace.model.ssh_buf.len() > 0
        },
    decreases events.len(),
{
    if events.len() > 0 {
        law_offers_are_all_that_is_held(read_input, events.drop_last());
    }
}

/// The daemon is connected to if it answers, at the first try or after it was
/// launched.
pub proof fn law_an_answer_connects(attempt: Establish)
    requires
        attempt.asks() == EstablishRequest::Connect,
    ensures
        attempt.step(EstablishEvent::Connected) == AfterEstablish::Established(Connection {  }),
{
}

/// A daemon that does not answer is launched once, if it may be, given time, and
/// tried again; each failure on the way is told as what it is, with its cause.
pub proof fn law_how_a_daemon_is_launched(cause: String, autolaunch: bool)
    ensures
        ({
            let first = Establish { autolaunch, stage: EstablishStage::Connecting };
            &&& first.asks() == EstablishRequest::Connect
            &&& !autolaunch ==> first.step(EstablishEvent::Refused(cause))
                == AfterEstablish::NotRunning
            &&& autolaunch ==> {
                &&& first.step(EstablishEvent::Refused(cause)) matches AfterEstablish::Ask(
                    launching,
                    request,
                )
                &&& request == EstablishRequest::LaunchDaemon
                &&& launching.asks() == request
                &&& launching.step(EstablishEvent::NoExecutable(cause)) == AfterEstablish::Failed(
                    EstablishError::NoExecutable(cause),
                )
                &&& launching.step(EstablishEvent::LaunchFailed(cause)) == AfterEstablish::Failed(
                    EstablishError::LaunchFailed(cause),
                )
                &&& launching.step(
                    EstablishEvent::Launched { success: true },
                ) matches AfterEstablish::Ask(pausing, request)
                &&& request == EstablishRequest::Pause(300)
                &&& pausing.step(EstablishEvent::Paused) matches AfterEstablish::Ask(again, request)
                &&& request == EstablishRequest::Connect
                &&& again.asks() == EstablishRequest::Connect
                &&& again.step(EstablishEvent::Refused(cause)) == AfterEstablish::Failed(
                    EstablishError::StillRefused(cause),
                )
                &&& launching.step(
                    EstablishEvent::Launched { success: false },
                ) matches AfterEstablish::Ask(failing, request)
                &&& request == EstablishRequest::Pause(300)
                &&& failing.step(EstablishEvent::Paused) == AfterEstablish::Failed(
                    EstablishError::LaunchReportedFailure,
                )
            }
        }),
{
}

/// What a reply to a close command means: done, nothing was open, or an error
/// that tells just what came.
pub proof fn law_replies_to_close(msg: ServerMessageView, text: Seq<char>)
    ensures
        ReplyView::Message(ServerMessageView::Okay).close_result() == Some(CloseResult::Success),
        ReplyView::Message(ServerMessageView::TunnelNotOpen).close_result() == Some(
            CloseResult::NotOpen,
        ),
        !(msg is Okay) && !(msg is TunnelNotOpen) ==> ReplyView::Message(
            msg,
        ).close_result() is None,
        ReplyView::Disconnected.close_result() is None,
        ReplyView::Failed(text).close_result() is None,
{
}

/// The error that a reply stands for tells just what came.
pub proof fn law_replies_that_are_errors(msg: ServerMessageView, text: Seq<char>)
    ensures
        ReplyView::Message(ServerMessageView::Error(text)).error() == ClientErrorView::Daemon(text),
        !(msg is Error) ==> ReplyView::Message(msg).error() == ClientErrorView::UnexpectedReply(
            msg,
        ),
        ReplyView::Disconnected.error() == ClientErrorView::Disconnected,
        ReplyView::Failed(text).error() == ClientErrorView::Receiving(text),
{
}

/// An event that is no answer to what was asked changes nothing.
pub proof fn law_what_a_dialogue_ignores(model: DialogueModel, event: DialogueEventView)
    requires
        model.request() is Wait ==> !(event is Wake),
        model.request() is PollDaemon ==> !(event is FromDaemon) && !(event is NotReady) && !(event
            is Failed),
        model.request() is PollUser ==> !(event is FromUser) && !(event is UserClosed) && !(event
            is NotReady) && !(event is Failed),
        model.request() is SendUser || model.request() is SendDaemon ==> !(event is Accepted)
            && !(event is Refused) && !(event is Failed),
        model.request() is FlushUser || model.request() is FlushDaemon ==> !(event is Flushed)
            && !(event is NotReady) && !(event is Failed),
    ensures
        model.step(event) == DialogueStep::Ask(model),
{
}

/// The session does what its model does, and asks for what the model asks for. The
/// model holds all that the session holds.
pub proof fn law_the_session_follows_its_model(
    session: Communicating,
    event: DialogueEvent,
    after: AfterCommunicating,
    asked: DialogueRequest,
)
    requires
        call_ensures(Communicating::poll_communicating, (session, event), after),
        call_ensures(Communicating::request, (&session,), asked),
    ensures
        asked@ == session@.request(),
        after matches AfterCommunicating::Ask(next, request) ==> session@.step(event@)
            == DialogueStep::Ask(next@) && request@ == next@.request(),
        after matches AfterCommunicating::Finished(result, _) ==> session@.step(event@)
            == DialogueStep::Finished(result),
        after matches AfterCommunicating::Failed(e) ==> session@.step(event@)
            == DialogueStep::Failed(e@),
        session@.turn == session.turn,
        session@.read_input == session.read_input,
        session@.succeeded == session.succeeded,
        session@.user_buf == session.user_buf@,
        session@.ssh_buf == session.ssh_buf@,
{
}

/// What a session holds is offered, in full, to whom it is for, once the user has been
/// heard, whatever the length of what is held.
pub proof fn law_a_session_offers_all_that_it_holds(
    session: Communicating,
    asked: DialogueRequest,
    after: AfterCommunicating,
)
    requires
        call_ensures(Communicating::request, (&session,), asked),
        asked is PollUser || (asked is PollDaemon && !session.read_input),
        call_ensures(
            Communicating::poll_communicating,
            (session, DialogueEvent::NotReady),
            after,
        ),
    ensures
        after is Ask,
        session.user_buf@.len() > 0 ==> after->Ask_1 is SendUser && after->Ask_1->SendUser_0@
            == session.user_buf@,
        session.user_buf@.len() == 0 && session.ssh_buf@.len() > 0 ==> after->Ask_1 is SendDaemon
            && after->Ask_1->SendDaemon_0 is UserData && after->Ask_1->SendDaemon_0->UserData_0@
            == session.ssh_buf@,
        session.user_buf@.len() == 0 && session.ssh_buf@.len() == 0 ==> after->Ask_1 is FlushUser,
        after->Ask_0.user_buf@ == session.user_buf@,
        after->Ask_0.ssh_buf@ == session.ssh_buf@,
{
}

/// When the daemon says that the tunnel is open, all output that is held is offered to
/// the user, whatever its length, before the dialogue may end.
pub proof fn law_output_comes_before_success(
    session: Communicating,
    asked: DialogueRequest,
    after: AfterCommunicating,
)
    requires
        call_ensures(Communicating::request, (&session,), asked),
        asked is PollDaemon,
        call_ensures(
            Communicating::poll_communicating,
            (session, DialogueEvent::FromDaemon(ServerMessage::Okay)),
            after,
        ),
    ensures
        session.user_buf@.len() > 0 ==> after is Ask && after->Ask_1 is SendUser
            && after->Ask_1->SendUser_0@ == session.user_buf@ && after->Ask_0.succeeded,
        session.user_buf@.len() == 0 ==> after is Finished && after->Finished_0
            == OpenResult::Success,
{
}

/// Events, requests, replies and errors hold just what they say.
pub proof fn law_events_and_requests_say_what_they_hold(
    event: DialogueEvent,
    request: DialogueRequest,
    msg: ServerMessage,
    sent: ClientMessage,
    bytes: Vec<u8>,
    cause: String,
)
    ensures
        DialogueEvent::FromDaemon(msg)@ == DialogueEventView::FromDaemon(msg@),
        DialogueEvent::FromUser(bytes)@ == DialogueEventView::FromUser(bytes@),
        DialogueEvent::Failed(cause)@ == DialogueEventView::Failed(cause@),
        DialogueRequest::SendUser(bytes)@ == DialogueRequestView::SendUser(bytes@),
        DialogueRequest::SendDaemon(sent)@ == DialogueRequestView::SendDaemon(sent@),
        event is Wake <==> event@ is Wake,
        event is NotReady <==> event@ is NotReady,
        event is DaemonClosed <==> event@ is DaemonClosed,
        event is UserClosed <==> event@ is UserClosed,
        event is Accepted <==> event@ is Accepted,
        event is Refused <==> event@ is Refused,
        event is Flushed <==> event@ is Flushed,
        request is Wait <==> request@ is Wait,
        request is PollDaemon <==> request@ is PollDaemon,
        request is PollUser <==> request@ is PollUser,
        request is FlushUser <==> request@ is FlushUser,
        request is FlushDaemon <==> request@ is FlushDaemon,
        Reply::Message(msg)@ == ReplyView::Message(msg@),
        Reply::Failed(cause)@ == ReplyView::Failed(cause@),
        Reply::Disconnected@ == ReplyView::Disconnected,
        ClientError::Daemon(cause)@ == ClientErrorView::Daemon(cause@),
        ClientError::Transport(cause)@ == ClientErrorView::Transport(cause@),
        ClientError::Receiving(cause)@ == ClientErrorView::Receiving(cause@),
        ClientError::UnexpectedMessage(msg)@ == ClientErrorView::UnexpectedMessage(msg@),
        ClientError::UnexpectedReply(msg)@ == ClientErrorView::UnexpectedReply(msg@),
        ClientError::UnexpectedResponse(msg)@ == ClientErrorView::UnexpectedResponse(msg@),
        ClientError::TerminalEof@ == ClientErrorView::TerminalEof,
        ClientError::Disconnected@ == ClientErrorView::Disconnected,
        ClientError::ConnectionClosed@ == ClientErrorView::ConnectionClosed,
{
}

/// The command that is sent is the one that was meant, for the host that was meant.
pub proof fn law_what_is_sent(
    connection: Connection,
    goodbye: ClientMessage,
    params: OpenParameters,
    read_input: bool,
    open: (Issue, ClientMessage),
    close_params: CloseParameters,
    close: (PendingClose, ClientMessage),
    exit: (PendingExit, ClientMessage),
    query: (PendingStatus, ClientMessage),
)
    requires
        call_ensures(Connection::close, (connection,), goodbye),
        call_ensures(Connection::send_open, (connection, params, read_input), open),
        call_ensures(Connection::send_close, (connection, close_params), close),
        call_ensures(Connection::send_exit, (connection,), exit),
        call_ensures(Connection::query_status, (connection,), query),
    ensures
        goodbye is Goodbye,
        open.0.read_input == read_input,
        open.1 is Open,
        open.1->Open_0.host@ == params.host@,
        close.1 is Close,
        close.1->Close_0.host@ == close_params.host@,
        exit.1 is Exit,
        query.1 is QueryStatus,
{
}

/// The cause is told of a command that could not be sent.
pub proof fn law_what_could_not_be_sent(
    cause: String,
    close: PendingClose,
    exit: PendingExit,
    query: PendingStatus,
    errors: [ClientError; 3],
)
    requires
        call_ensures(PendingClose::send_failed, (close, cause), errors@[0]),
        call_ensures(PendingExit::send_failed, (exit, cause), errors@[1]),
        call_ensures(PendingStatus::send_failed, (query, cause), errors@[2]),
    ensures
        errors@[0] is SendingClose,
        errors@[0]->SendingClose_0@ == cause@,
        errors@[1] is SendingExit,
        errors@[1]->SendingExit_0@ == cause@,
        errors@[2] is SendingQuery,
        errors@[2]->SendingQuery_0@ == cause@,
{
}

/// What a reply means to the command that it answers.
pub proof fn law_what_replies_mean(
    reply: Reply,
    pending_close: PendingClose,
    pending_exit: PendingExit,
    pending_status: PendingStatus,
    close: Result<(CloseResult, Connection), ClientError>,
    exit: Result<Connection, ClientError>,
    status: Result<(StatusInformation, Connection), ClientError>,
)
    requires
        call_ensures(PendingClose::reply, (pending_close, reply), close),
        call_ensures(PendingExit::reply, (pending_exit, reply), exit),
        call_ensures(PendingStatus::reply, (pending_status, reply), status),
    ensures
        reply == Reply::Message(ServerMessage::Okay) <==> close is Ok && close->Ok_0.0
            == CloseResult::Success,
        reply == Reply::Message(ServerMessage::TunnelNotOpen) <==> close is Ok && close->Ok_0.0
            == CloseResult::NotOpen,
        reply == Reply::Message(ServerMessage::Okay) <==> exit is Ok,
        reply matches Reply::Message(ServerMessage::StatusResponse(info)) ==> status is Ok
            && status->Ok_0.0@ == info@,
        status is Ok ==> reply is Message && reply->Message_0 is StatusResponse,
{
}

/// A reply that is no answer is told as an error, with just what came.
pub proof fn law_what_senseless_replies_mean(
    reply: Reply,
    pending_close: PendingClose,
    pending_exit: PendingExit,
    pending_status: PendingStatus,
    close: Result<(CloseResult, Connection), ClientError>,
    exit: Result<Connection, ClientError>,
    status: Result<(StatusInformation, Connection), ClientError>,
    e: ClientError,
)
    requires
        call_ensures(PendingClose::reply, (pending_close, reply), close),
        call_ensures(PendingExit::reply, (pending_exit, reply), exit),
        call_ensures(PendingStatus::reply, (pending_status, reply), status),
        (close is Err && e == close->Err_0) || (exit is Err && e == exit->Err_0) || (status is Err
            && e == status->Err_0),
    ensures
        reply is Disconnected <==> e is Disconnected,
        reply matches Reply::Failed(cause) ==> e is Receiving && e->Receiving_0@ == cause@,
        reply matches Reply::Message(ServerMessage::Error(words)) ==> e is Daemon && e->Daemon_0@
            == words@,
        reply matches Reply::Message(msg) ==> (!(msg is Error) ==> e is UnexpectedReply
            && e->UnexpectedReply_0@ == msg@),
{
}

} // verus!
