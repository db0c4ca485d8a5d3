//! The console variant: its login dialogue, the end of its sessions, and what the
//! user is told, stated of what happens and of what is asked for.

use vstd::prelude::*;

use crate::cli::StundOpenOptions;
use crate::console::cleanup::{
    AfterCleaningUpIo, CleaningUpIo, CleanupEvent, CleanupEventView, CleanupModel, CleanupRequest,
    CleanupRequestView, CleanupStep, Front,
};
use crate::console::connection;
use crate::console::connection::{ConnectPlan, Connection, ConsoleAction};
use crate::console::error::{ConsoleError, ConsoleErrorView};
use crate::console::finish;
use crate::console::finish::FinishCommunicationState;
use crate::console::open::{
    AfterCommunicating, AfterFirstAck, AfterIssue, Communicating, DaemonEvent, DialogueEvent,
    DialogueEventView, DialogueModel, DialogueRequest, DialogueRequestView, DialogueStep, FirstAck,
    Issue, Turn,
};
use crate::console::protocol::{
    ClientMessage, ClientMessageView, OpenParameters, ServerMessage, ServerMessageView,
};
use crate::protocol::{NoHomeDirectory, SendEvent};
use crate::text;

verus! {

/// Whether `step` is what is due once the daemon and the user have been seen to, in a
/// dialogue that stands at `model`: its end if the user is done; another look round if
/// something came of this one; and waiting if nothing did.
pub open spec fn is_due_at_the_end(model: DialogueModel, step: DialogueStep) -> bool {
    if model.finished is SawSecondEnter {
        &&& step matches DialogueStep::CleaningUpIo(end)
        &&& end.front == model.front
        &&& end.busy == model.busy
        &&& !end.sent_finished_message
        &&& !end.msg_flushed
        &&& end.trailing.len() == 0
        &&& end.request() == if model.busy {
            CleanupRequestView::PollSend
        } else {
            CleanupRequestView::StartSend(ClientMessageView::EndOfUserData)
        }
    } else {
        &&& step matches DialogueStep::Ask(next)
        &&& next.request() == if model.progress {
            DialogueRequestView::PollDaemon
        } else {
            DialogueRequestView::Wait
        }
        &&& !next.progress
        &&& (DialogueModel { turn: model.turn, progress: model.progress, ..next }) == model
    }
}

/// Whether `step` is what is due once the daemon has been seen to: between streams, all
/// the output that is held is put on its way to the user, one piece at a time. A
/// terminal has got its output already.
pub open spec fn is_due_to_the_user(model: DialogueModel, step: DialogueStep) -> bool {
    if model.front is Streams && model.user_busy {
        &&& step matches DialogueStep::Ask(next)
        &&& next.request() is PollUserSend
        &&& (DialogueModel { turn: model.turn, ..next }) == model
    } else if model.front is Streams && model.user_buf.len() > 0 {
        &&& step matches DialogueStep::Ask(next)
        &&& next.request() == DialogueRequestView::StartUserSend(model.user_buf)
        &&& (DialogueModel { turn: model.turn, ..next }) == model
    } else {
        is_due_at_the_end(model, step)
    }
}

/// Whether `step` is what is due once the user has been heard: all the input that is
/// held is put on its way to the daemon, one message at a time.
pub open spec fn is_due_to_the_daemon(model: DialogueModel, step: DialogueStep) -> bool {
    if model.busy {
        &&& step matches DialogueStep::Ask(next)
        &&& next.request() is PollSend
        &&& (DialogueModel { turn: model.turn, ..next }) == model
    } else if model.buf.len() > 0 {
        &&& step matches DialogueStep::Ask(next)
        &&& next.request() == DialogueRequestView::StartSend(
            ClientMessageView::UserData(model.buf),
        )
        &&& (DialogueModel { turn: model.turn, ..next }) == model
    } else {
        is_due_to_the_user(model, step)
    }
}

/// What SSH prints is put behind what is held, whatever its length. A terminal is then
/// shown all that is held; between streams, the user is heard next.
pub proof fn law_output_is_held_and_shown(model: DialogueModel, data: Seq<u8>)
    requires
        model.request() is PollDaemon,
    ensures
        ({
            &&& model.step(
                DialogueEventView::FromDaemon(ServerMessageView::SshData(data)),
            ) matches DialogueStep::Ask(next)
            &&& next.progress
            &&& next.user_buf == model.user_buf + data
            &&& next.request() == if model.front is Terminal {
                DialogueRequestView::Print(model.user_buf + data)
            } else {
                DialogueRequestView::PollUser
            }
            &&& (DialogueModel {
                turn: model.turn,
                progress: model.progress,
                user_buf: model.user_buf,
                ..next
            }) == model
        }),
{
}

/// Once a terminal has shown all that was held, nothing of it is held any more, and the
/// user is heard.
pub proof fn law_what_is_shown_is_no_longer_held(model: DialogueModel)
    requires
        model.request() is Print,
    ensures
        model.request() == DialogueRequestView::Print(model.user_buf),
        ({
            &&& model.step(DialogueEventView::Printed) matches DialogueStep::Ask(next)
            &&& next.request() is PollUser
            &&& next.user_buf.len() == 0
            &&& (DialogueModel { turn: model.turn, user_buf: model.user_buf, ..next }) == model
        }),
{
}

/// What the user types is put behind what is held, whatever its length; note is taken
/// of all of it; and what is held is put on its way to the daemon, at the latest when
/// the message before it has arrived.
pub proof fn law_input_is_held_and_sent(model: DialogueModel, bytes: Seq<u8>)
    requires
        model.request() is PollUser,
    ensures
        is_due_to_the_daemon(
            DialogueModel {
                progress: true,
                buf: model.buf + bytes,
                finished: model.finished.after(bytes),
                ..model
            },
            model.step(DialogueEventView::FromUser(bytes)),
        ),
{
}

/// If the user types nothing, what is held is put on its way all the same. So it is
/// where a terminal's input has ended; between streams that is an error.
pub proof fn law_held_input_is_sent_without_new(model: DialogueModel)
    requires
        model.request() is PollUser,
    ensures
        is_due_to_the_daemon(model, model.step(DialogueEventView::NotReady)),
        model.front is Terminal ==> is_due_to_the_daemon(
            model,
            model.step(DialogueEventView::UserClosed),
        ),
        model.front is Streams ==> model.step(DialogueEventView::UserClosed) == (
        DialogueStep::Failed { newline: false, error: ConsoleErrorView::TerminalEof }),
{
}

/// What has been put on its way to the daemon is no longer held, and was all that was
/// held. When it has arrived the next message may follow; while it has not, the dialogue
/// waits.
pub proof fn law_how_input_is_sent(model: DialogueModel)
    ensures
        model.request() is StartSend ==> {
            &&& model.request() == DialogueRequestView::StartSend(
                ClientMessageView::UserData(model.buf),
            )
            &&& is_due_to_the_user(
                DialogueModel { progress: true, busy: true, buf: Seq::empty(), ..model },
                model.step(DialogueEventView::Started),
            )
        },
        model.request() is PollSend ==> is_due_to_the_user(
            DialogueModel { progress: true, busy: false, ..model },
            model.step(DialogueEventView::Sent),
        ),
        model.request() is PollSend ==> {
            &&& model.step(DialogueEventView::NotReady) matches DialogueStep::Ask(next)
            &&& next.request() is Wait
            &&& (DialogueModel { turn: model.turn, ..next }) == model
        },
{
}

/// What has been put on its way to the user is no longer held, and was all that was
/// held. When it has arrived more may follow; while it has not, the dialogue waits.
pub proof fn law_how_output_is_sent(model: DialogueModel)
    ensures
        model.request() is StartUserSend ==> {
            &&& model.request() == DialogueRequestView::StartUserSend(model.user_buf)
            &&& is_due_at_the_end(
                DialogueModel { progress: true, user_busy: true, user_buf: Seq::empty(), ..model },
                model.step(DialogueEventView::Started),
            )
        },
        model.request() is PollUserSend ==> is_due_at_the_end(
            DialogueModel { progress: true, user_busy: false, ..model },
            model.step(DialogueEventView::Sent),
        ),
        model.request() is PollUserSend ==> {
            &&& model.step(DialogueEventView::NotReady) matches DialogueStep::Ask(next)
            &&& next.request() is Wait
            &&& (DialogueModel { turn: model.turn, ..next }) == model
        },
{
}

/// A round begins with the daemon when the dialogue is woken, and goes on with the user
/// when the daemon has nothing to say, or has hung up.
pub proof fn law_how_a_round_begins(model: DialogueModel)
    ensures
        model.request() is Wait ==> {
            &&& model.step(DialogueEventView::Wake) matches DialogueStep::Ask(next)
            &&& next.request() is PollDaemon
            &&& !next.progress
            &&& (DialogueModel { turn: model.turn, progress: model.progress, ..next }) == model
        },
        model.request() is PollDaemon ==> {
            &&& model.step(DialogueEventView::NotReady) matches DialogueStep::Ask(next)
            &&& next.request() is PollUser
            &&& (DialogueModel { turn: model.turn, ..next }) == model
        },
        model.request() is PollDaemon ==> {
            &&& model.step(DialogueEventView::DaemonClosed) matches DialogueStep::Ask(next)
            &&& next.request() is PollUser
            &&& (DialogueModel { turn: model.turn, ..next }) == model
        },
{
}

/// How a dialogue fails: with the daemon's own words, with the message that is out of
/// place, or with what the system says. A terminal begins a new line first if it was the
/// daemon that spoke.
pub proof fn law_how_a_dialogue_fails(
    model: DialogueModel,
    msg: ServerMessageView,
    words: Seq<char>,
)
    ensures
        model.request() is PollDaemon ==> model.step(
            DialogueEventView::FromDaemon(ServerMessageView::Error(words)),
        ) == (DialogueStep::Failed {
            newline: model.front is Terminal,
            error: ConsoleErrorView::Daemon(words),
        }),
        model.request() is PollDaemon && msg is Okay ==> model.step(
            DialogueEventView::FromDaemon(msg),
        ) == (DialogueStep::Failed {
            newline: model.front is Terminal,
            error: ConsoleErrorView::UnexpectedMessage(msg),
        }),
        model.request() is PollUser ==> model.step(DialogueEventView::Failed(words)) == (
        DialogueStep::Failed { newline: false, error: ConsoleErrorView::TerminalError }),
        !(model.request() is PollUser) && !(model.request() is Wait) ==> model.step(
            DialogueEventView::Failed(words),
        ) == (DialogueStep::Failed { newline: false, error: ConsoleErrorView::Transport(words) }),
{
}

/// An event that is no answer to what was asked changes nothing.
pub proof fn law_what_a_dialogue_ignores(model: DialogueModel, event: DialogueEventView)
    requires
        model.request() is Wait ==> !(event is Wake),
        model.request() is PollDaemon ==> !(event is NotReady) && !(event is FromDaemon) && !(event
            is DaemonClosed) && !(event is Failed),
        model.request() is Print ==> !(event is Printed) && !(event is Failed),
        model.request() is PollUser ==> !(event is NotReady) && !(event is FromUser) && !(event
            is UserClosed) && !(event is Failed),
        model.request() is StartSend || model.request() is StartUserSend ==> !(event is Started)
            && !(event is Failed),
        model.request() is PollSend || model.request() is PollUserSend ==> !(event is Sent)
            && !(event is NotReady) && !(event is Failed),
    ensures
        model.step(event) == DialogueStep::Ask(model),
{
}

/// A dialogue begins by reading from the daemon, with nothing held or under way, and
/// with the user at the start of a line.
pub proof fn law_how_a_dialogue_begins(front: Front)
    ensures
        DialogueModel::start(front).request() is PollDaemon,
        DialogueModel::start(front).front == front,
        !DialogueModel::start(front).progress,
        !DialogueModel::start(front).busy,
        !DialogueModel::start(front).user_busy,
        DialogueModel::start(front).finished is SawFirstEnter,
        DialogueModel::start(front).buf.len() == 0,
        DialogueModel::start(front).user_buf.len() == 0,
{
}

/// The session does what its model does, and asks for what the model asks for. The model
/// holds all that the session holds.
pub proof fn law_the_session_follows_its_model(
    session: Communicating,
    event: DialogueEvent,
    after: AfterCommunicating,
    asked: DialogueRequest,
)
    requires
        call_ensures(Communicating::poll_communicating, (session, event), after),
        call_ensures(Communicating::request, (&session,), asked),
    ensures
        asked@ == session@.request(),
        after matches AfterCommunicating::Ask(next, request) ==> session@.step(event@)
            == DialogueStep::Ask(next@) && request@ == next@.request(),
        after matches AfterCommunicating::CleaningUpIo(end, request) ==> session@.step(event@)
            == DialogueStep::CleaningUpIo(end@) && request@ == end@.request(),
        after matches AfterCommunicating::Failed { newline, error } ==> session@.step(event@) == (
        DialogueStep::Failed { newline, error: error@ }),
        session@.front == session.front,
        session@.turn == session.turn,
        session@.progress == session.progress,
        session@.busy == session.busy,
        session@.user_busy == session.user_busy,
        session@.finished == session.finished,
        session@.buf == session.buf@,
        session@.user_buf == session.user_buf@,
{
}

/// Events and requests hold just what they say.
pub proof fn law_events_and_requests_say_what_they_hold(
    msg: ServerMessage,
    sent: ClientMessage,
    bytes: Vec<u8>,
    cause: String,
    params: OpenParameters,
)
    ensures
        DialogueEvent::FromDaemon(msg)@ == DialogueEventView::FromDaemon(msg@),
        DialogueEvent::FromUser(bytes)@ == DialogueEventView::FromUser(bytes@),
        DialogueEvent::Failed(cause)@ == DialogueEventView::Failed(cause@),
        DialogueRequest::Print(bytes)@ == DialogueRequestView::Print(bytes@),
        DialogueRequest::StartSend(sent)@ == DialogueRequestView::StartSend(sent@),
        DialogueRequest::StartUserSend(bytes)@ == DialogueRequestView::StartUserSend(bytes@),
        CleanupEvent::FromDaemon(msg)@ == CleanupEventView::FromDaemon(msg@),
        CleanupEvent::Failed(cause)@ == CleanupEventView::Failed(cause@),
        CleanupRequest::StartSend(sent)@ == CleanupRequestView::StartSend(sent@),
        CleanupRequest::Print(bytes)@ == CleanupRequestView::Print(bytes@),
        ClientMessage::UserData(bytes)@ == ClientMessageView::UserData(bytes@),
        ClientMessage::Open(params)@ == ClientMessageView::Open(params.host@),
        ServerMessage::SshData(bytes)@ == ServerMessageView::SshData(bytes@),
        ServerMessage::Error(cause)@ == ServerMessageView::Error(cause@),
        ConsoleError::Daemon(cause)@ == ConsoleErrorView::Daemon(cause@),
        ConsoleError::Transport(cause)@ == ConsoleErrorView::Transport(cause@),
        ConsoleError::UnexpectedMessage(msg)@ == ConsoleErrorView::UnexpectedMessage(msg@),
        ConsoleError::UnexpectedResponse(msg)@ == ConsoleErrorView::UnexpectedResponse(msg@),
{
}

/// Events, requests and errors that hold nothing are told apart.
pub proof fn law_plain_events_are_told_apart(
    event: DialogueEvent,
    request: DialogueRequest,
    end_event: CleanupEvent,
    end_request: CleanupRequest,
    msg: ServerMessage,
    sent: ClientMessage,
    error: ConsoleError,
)
    ensures
        event is Wake <==> event@ is Wake,
        event is NotReady <==> event@ is NotReady,
        event is DaemonClosed <==> event@ is DaemonClosed,
        event is UserClosed <==> event@ is UserClosed,
        event is Printed <==> event@ is Printed,
        event is Started <==> event@ is Started,
        event is Sent <==> event@ is Sent,
        request is Wait <==> request@ is Wait,
        request is PollDaemon <==> request@ is PollDaemon,
        request is PollUser <==> request@ is PollUser,
        request is PollSend <==> request@ is PollSend,
        request is PollUserSend <==> request@ is PollUserSend,
        end_event is Wake <==> end_event@ is Wake,
        end_event is NotReady <==> end_event@ is NotReady,
        end_event is Started <==> end_event@ is Started,
        end_event is Sent <==> end_event@ is Sent,
        end_event is DaemonClosed <==> end_event@ is DaemonClosed,
        end_event is Printed <==> end_event@ is Printed,
        end_request is Wait <==> end_request@ is Wait,
        end_request is PollSend <==> end_request@ is PollSend,
        end_request is PollDaemon <==> end_request@ is PollDaemon,
        msg is Okay <==> msg@ is Okay,
        sent is EndOfUserData <==> sent@ is EndOfUserData,
        sent is Exit <==> sent@ is Exit,
        sent is Goodbye <==> sent@ is Goodbye,
        error is ConnectionClosed <==> error@ is ConnectionClosed,
        error is TerminalEof <==> error@ is TerminalEof,
        error is TerminalError <==> error@ is TerminalError,
{
}

/// What is looked after at the end of a session: a message that is under way, then the
/// end of the user's input, then the daemon's word.
pub open spec fn looks(model: CleanupModel, next: CleanupModel) -> bool {
    if model.busy {
        &&& next.request() is PollSend
        &&& (CleanupModel { turn: model.turn, ..next }) == model
    } else if !model.sent_finished_message {
        &&& next.request() == CleanupRequestView::StartSend(ClientMessageView::EndOfUserData)
        &&& (CleanupModel { turn: model.turn, ..next }) == model
    } else {
        &&& next.request() is PollDaemon
        &&& next.msg_flushed
        &&& (CleanupModel { turn: model.turn, msg_flushed: model.msg_flushed, ..next }) == model
    }
}

/// The end of a session begins with the message that is under way, if one is, and else
/// with the end of the user's input. When woken, it looks after what is missing.
pub proof fn law_how_the_end_begins(front: Front, busy: bool, model: CleanupModel)
    ensures
        CleanupModel::enter(front, busy).request() == if busy {
            CleanupRequestView::PollSend
        } else {
            CleanupRequestView::StartSend(ClientMessageView::EndOfUserData)
        },
        CleanupModel::enter(front, busy).front == front,
        CleanupModel::enter(front, busy).busy == busy,
        !CleanupModel::enter(front, busy).sent_finished_message,
        !CleanupModel::enter(front, busy).msg_flushed,
        CleanupModel::enter(front, busy).trailing.len() == 0,
        model.request() is Wait ==> {
            &&& model.step(CleanupEventView::Wake) matches CleanupStep::Ask(next)
            &&& looks(model, next)
        },
{
}

/// How the end of the user's input gets to the daemon: it is put on its way, and has
/// arrived when it was the last message that was under way.
pub proof fn law_how_the_end_is_sent(model: CleanupModel)
    ensures
        model.request() is StartSend ==> {
            &&& model.request() == CleanupRequestView::StartSend(ClientMessageView::EndOfUserData)
            &&& model.step(CleanupEventView::Started) matches CleanupStep::Ask(next)
            &&& next.busy
            &&& next.sent_finished_message
            &&& next.request() is PollSend || next.request() is PollDaemon
            &&& next.front == model.front
            &&& next.trailing == model.trailing
        },
        model.turn is Enter ==> {
            &&& model.step(CleanupEventView::Started) matches CleanupStep::Ask(next)
            &&& next.request() is PollSend
            &&& next.msg_flushed == model.msg_flushed
        },
        model.turn is Start ==> {
            &&& model.step(CleanupEventView::Started) matches CleanupStep::Ask(next)
            &&& next.request() is PollDaemon
            &&& !next.msg_flushed
        },
        model.request() is PollSend ==> {
            &&& model.step(CleanupEventView::Sent) matches CleanupStep::Ask(next)
            &&& !next.busy
            &&& next.msg_flushed == model.sent_finished_message
            &&& next.request() is PollDaemon
            &&& next.sent_finished_message == model.sent_finished_message
            &&& next.front == model.front
            &&& next.trailing == model.trailing
        },
        model.request() is PollSend ==> {
            &&& model.step(CleanupEventView::NotReady) matches CleanupStep::Ask(next)
            &&& next.request() is Wait
            &&& (CleanupModel { turn: model.turn, ..next }) == model
        },
{
}

/// What is made of the daemon's words at the end of a session: its agreement ends the
/// session once the end of the user's input has arrived; output is shown, in full, by a
/// terminal; an error is told in its own words.
pub proof fn law_what_the_daemon_says_at_the_end(
    model: CleanupModel,
    data: Seq<u8>,
    words: Seq<char>,
)
    requires
        model.request() is PollDaemon,
    ensures
        model.msg_flushed ==> model.step(CleanupEventView::FromDaemon(ServerMessageView::Okay))
            == CleanupStep::Finished,
        !model.msg_flushed ==> {
            &&& model.step(
                CleanupEventView::FromDaemon(ServerMessageView::Okay),
            ) matches CleanupStep::Ask(next)
            &&& looks(model, next)
        },
        model.front is Terminal ==> {
            &&& model.step(
                CleanupEventView::FromDaemon(ServerMessageView::SshData(data)),
            ) matches CleanupStep::Ask(next)
            &&& next.request() == CleanupRequestView::Print(data)
            &&& (CleanupModel { turn: model.turn, trailing: model.trailing, ..next }) == model
        },
        model.front is Streams ==> {
            &&& model.step(
                CleanupEventView::FromDaemon(ServerMessageView::SshData(data)),
            ) matches CleanupStep::Ask(next)
            &&& looks(model, next)
        },
        model.step(CleanupEventView::FromDaemon(ServerMessageView::Error(words))) == (
        CleanupStep::Failed {
            newline: model.front is Terminal,
            error: ConsoleErrorView::Daemon(words),
        }),
{
}

/// If the daemon has nothing to say, the session waits if only the daemon's word is
/// missing, and else looks after what is.
pub proof fn law_what_silence_means_at_the_end(model: CleanupModel, hung_up: bool)
    requires
        model.request() is PollDaemon,
    ensures
        ({
            let event = if hung_up {
                CleanupEventView::DaemonClosed
            } else {
                CleanupEventView::NotReady
            };
            &&& model.step(event) matches CleanupStep::Ask(next)
            &&& if !model.busy && model.sent_finished_message {
                next.request() is Wait && (CleanupModel { turn: model.turn, ..next }) == model
            } else {
                looks(model, next)
            }
        }),
{
}

/// After SSH's last output is shown, nothing of it is held, and the session goes on.
pub proof fn law_last_output_is_shown_once(model: CleanupModel)
    requires
        model.request() is Print,
    ensures
        model.request() == CleanupRequestView::Print(model.trailing),
        ({
            &&& model.step(CleanupEventView::Printed) matches CleanupStep::Ask(next)
            &&& looks(CleanupModel { trailing: Seq::empty(), ..model }, next)
        }),
{
}

/// What the system says ends the session, unless it waits; and an event that is no answer
/// to what was asked changes nothing.
pub proof fn law_failures_and_strays_at_the_end(
    model: CleanupModel,
    cause: Seq<char>,
    stray: CleanupEventView,
)
    requires
        model.request() is Wait ==> !(stray is Wake),
        model.request() is StartSend ==> !(stray is Started) && !(stray is Failed),
        model.request() is PollSend ==> !(stray is Sent) && !(stray is NotReady) && !(stray
            is Failed),
        model.request() is PollDaemon ==> !(stray is FromDaemon) && !(stray is DaemonClosed)
            && !(stray is NotReady) && !(stray is Failed),
        model.request() is Print ==> !(stray is Printed) && !(stray is Failed),
    ensures
        model.step(stray) == CleanupStep::Ask(model),
        !(model.request() is Wait) ==> model.step(CleanupEventView::Failed(cause)) == (
        CleanupStep::Failed { newline: false, error: ConsoleErrorView::Transport(cause) }),
{
}

/// The end of a session does what its model does, and asks for what the model asks for.
pub proof fn law_the_end_follows_its_model(
    front: Front,
    busy: bool,
    entered: CleaningUpIo,
    session: CleaningUpIo,
    event: CleanupEvent,
    after: AfterCleaningUpIo,
    asked: CleanupRequest,
)
    requires
        call_ensures(CleaningUpIo::enter, (front, busy), entered),
        call_ensures(CleaningUpIo::poll_cleaning_up_io, (session, event), after),
        call_ensures(CleaningUpIo::request, (&session,), asked),
    ensures
        entered@ == CleanupModel::enter(front, busy),
        asked@ == session@.request(),
        after matches AfterCleaningUpIo::Ask(next, request) ==> session@.step(event@)
            == CleanupStep::Ask(next@) && request@ == next@.request(),
        after is Finished <==> session@.step(event@) is Finished,
        after matches AfterCleaningUpIo::Failed { newline, error } ==> session@.step(event@) == (
        CleanupStep::Failed { newline, error: error@ }),
        session@.front == session.front,
        session@.turn == session.turn,
        session@.busy == session.busy,
        session@.sent_finished_message == session.sent_finished_message,
        session@.msg_flushed == session.msg_flushed,
        session@.trailing == session.trailing@,
{
}

/// What each byte that the user types means: newline, period, newline in a row, and
/// nothing else, lead to the end; from there nothing leads away.
pub proof fn law_what_a_byte_means(
    state: FinishCommunicationState,
    byte: u8,
    next: FinishCommunicationState,
)
    requires
        call_ensures(FinishCommunicationState::transition, (&state, byte), next),
    ensures
        next is SawFirstEnter <==> state is NoLeads && byte == 0x0A,
        next is SawPeriod <==> state is SawFirstEnter && byte == 0x2E,
        next is SawSecondEnter <==> state is SawSecondEnter || (state is SawPeriod && byte == 0x0A),
{
}

/// Of all that the user types, note is taken byte by byte, in order.
pub proof fn law_every_byte_is_heeded(
    state: FinishCommunicationState,
    bytes: &[u8],
    longer: &[u8],
    last: u8,
    next: FinishCommunicationState,
    later: FinishCommunicationState,
    longer_next: FinishCommunicationState,
)
    requires
        longer@ == bytes@.push(last),
        call_ensures(FinishCommunicationState::transition_all, (&state, bytes), next),
        call_ensures(FinishCommunicationState::transition, (&next, last), later),
        call_ensures(FinishCommunicationState::transition_all, (&state, longer), longer_next),
    ensures
        longer_next == later,
        bytes@.len() == 0 ==> next == state,
{
    assert(longer@.drop_last() =~= bytes@);
}

/// A user who types nothing but a period and a newline at the start of a line is done.
pub proof fn law_a_lone_period_ends_the_dialogue(
    typed: &[u8],
    next: FinishCommunicationState,
)
    requires
        typed@.len() >= 2,
        typed@[0] == 0x2E,
        typed@[1] == 0x0A,
        call_ensures(
            FinishCommunicationState::transition_all,
            (&FinishCommunicationState::SawFirstEnter, typed),
            next,
        ),
    ensures
        next is SawSecondEnter,
{
    finish::law_finish_at_once(typed@.skip(2));
    assert(typed@ =~= seq![finish::PERIOD, finish::ENTER] + typed@.skip(2));
}

/// Once the open command is sent, the daemon's first reply is awaited.
pub proof fn law_how_an_open_command_is_sent(issue: Issue, event: SendEvent, after: AfterIssue)
    requires
        call_ensures(Issue::poll_issue, (issue, event), after),
    ensures
        event is Pending ==> after == AfterIssue::Wait(issue),
        event is Sent ==> after is FirstAck && after->FirstAck_0.front == issue.front,
        event matches SendEvent::Failed(cause) ==> after is Failed && after->Failed_0 is Transport
            && after->Failed_0->Transport_0@ == cause@,
{
}

/// What the daemon's first reply leads to: a login dialogue, which begins with nothing
/// held, or an error with just what came. A terminal goes on looking where the daemon has
/// hung up.
pub proof fn law_what_the_first_reply_leads_to(
    ack: FirstAck,
    event: DaemonEvent,
    after: AfterFirstAck,
)
    requires
        call_ensures(FirstAck::poll_first_ack, (ack, event), after),
    ensures
        event == DaemonEvent::Message(ServerMessage::Okay) <==> after is Communicating,
        after matches AfterFirstAck::Communicating(session) ==> {
            &&& session.front == ack.front
            &&& session.turn == Turn::ReadDaemon
            &&& !session.progress
            &&& !session.busy
            &&& !session.user_busy
            &&& session.finished is SawFirstEnter
            &&& session.buf@.len() == 0
            &&& session.user_buf@.len() == 0
        },
        event is NotReady <==> after == AfterFirstAck::Wait(ack),
        event matches DaemonEvent::Message(ServerMessage::Error(words)) ==> after is Failed
            && after->Failed_0 is Daemon && after->Failed_0->Daemon_0@ == words@,
        event matches DaemonEvent::Message(ServerMessage::SshData(data)) ==> after is Failed
            && after->Failed_0 is UnexpectedResponse && after->Failed_0->UnexpectedResponse_0
            is SshData && after->Failed_0->UnexpectedResponse_0->SshData_0@ == data@,
        event is Closed && ack.front is Terminal ==> after == AfterFirstAck::PollAgain(ack),
        event is Closed && ack.front is Streams ==> after is Failed && after->Failed_0
            is ConnectionClosed,
        event matches DaemonEvent::Failed(cause) ==> after is Failed && after->Failed_0
            is Transport && after->Failed_0->Transport_0@ == cause@,
{
}

/// The command that is sent is the one that was meant, for the host that was meant, with
/// the dialogue where it was meant to be.
pub proof fn law_what_is_sent(
    connection: Connection,
    params: OpenParameters,
    opts: &StundOpenOptions,
    streams: (Issue, ClientMessage),
    terminal: (Issue, ClientMessage),
    goodbye: ClientMessage,
)
    requires
        call_ensures(Connection::send_open, (connection, params), streams),
        call_ensures(connection::new_open, (opts,), terminal),
        call_ensures(Connection::close, (connection,), goodbye),
    ensures
        streams.0.front is Streams,
        streams.1 is Open,
        streams.1->Open_0.host@ == params.host@,
        terminal.0.front is Terminal,
        terminal.1 is Open,
        terminal.1->Open_0.host@ == opts.host@,
        goodbye is Goodbye,
{
}

/// The console connects to the path of the socket, if that is known, and lingers when it
/// closes.
pub proof fn law_how_the_console_connects(
    path: Result<Vec<u8>, NoHomeDirectory>,
    plan: Result<ConnectPlan, NoHomeDirectory>,
)
    requires
        call_ensures(connection::plan_connection, (path,), plan),
    ensures
        path is Ok <==> plan is Ok,
        plan matches Ok(p) ==> p.path == path->Ok_0 && p.linger_seconds == 2,
{
}

/// At a terminal, the user is told how the dialogue ends before the echo goes off.
/// Between streams nothing is done.
pub proof fn law_how_the_user_is_received<E>(front: Front, actions: Vec<ConsoleAction<E>>)
    requires
        call_ensures(connection::dialogue_begins::<E>, (front,), actions),
    ensures
        front is Streams ==> actions@.len() == 0,
        front is Terminal ==> {
            &&& actions@.len() == 2
            &&& actions@[0] is Print
            &&& actions@[0]->Print_0@
                == "[Begin SSH login; type \".\" on an empty line when login has succeeded.]"@
            &&& actions@[1] == ConsoleAction::<E>::Echo(false)
        },
{
    let said = connection::console_plan(actions@);
    assert(said.len() == actions@.len());
    if front is Terminal {
        assert(said[0] == actions@[0]@);
        assert(said[1] == actions@[1]@);
    }
}

/// At the end of an open command the echo comes back first, whatever came of it. Success
/// is told, and the session closed; a failure is handed on as it is.
pub proof fn law_how_the_user_is_dismissed<E>(
    outcome: Result<(), E>,
    actions: Vec<ConsoleAction<E>>,
)
    requires
        call_ensures(connection::new_open_ended::<E>, (outcome,), actions),
    ensures
        actions@.len() >= 2,
        actions@[0] == ConsoleAction::<E>::Echo(true),
        outcome is Ok ==> {
            &&& actions@.len() == 3
            &&& actions@[1] is Print
            &&& actions@[1]->Print_0@ == "[Success]"@
            &&& actions@[2] is Send
            &&& actions@[2]->Send_0 is Goodbye
        },
        outcome matches Err(e) ==> actions@.len() == 2 && actions@[1] == ConsoleAction::<E>::Fail(
            e,
        ),
{
    let said = connection::console_plan(actions@);
    assert(said.len() == actions@.len());
    assert(said[0] == actions@[0]@);
    assert(said[1] == actions@[1]@);
    if outcome is Ok {
        assert(said[2] == actions@[2]@);
    }
}

/// What the user is told of each error of a session.
pub proof fn law_what_errors_say(error: ConsoleError, said: String)
    requires
        call_ensures(ConsoleError::describe, (&error,), said),
    ensures
        error matches ConsoleError::Daemon(words) ==> said@ == words@,
        error is ConnectionClosed ==> said@ == "connection closed (?)"@,
        error is TerminalEof ==> said@ == "EOF on terminal (?)"@,
        error is TerminalError ==> said@ == "error reading from the terminal"@,
        error matches ConsoleError::Transport(cause) ==> said@ == cause@,
{
}

/// A message that makes no sense is shown to the user in full.
pub proof fn law_senseless_messages_are_shown(
    msg: ServerMessage,
    shown: String,
    response: String,
    message: String,
)
    requires
        call_ensures(ServerMessage::show, (&msg,), shown),
        call_ensures(ConsoleError::describe, (&ConsoleError::UnexpectedResponse(msg),), response),
        call_ensures(ConsoleError::describe, (&ConsoleError::UnexpectedMessage(msg),), message),
    ensures
        response@ == "unexpected response from daemon: "@ + shown@,
        message@ == "unexpected message from the daemon: "@ + shown@,
        msg is Okay ==> shown@ == "Ok"@,
        msg matches ServerMessage::Error(words) ==> shown@ == "Error"@ + "("@ + text::quoted_text(
            words@,
        ) + ")"@,
{
}

/// Data is shown in full.
pub proof fn law_data_is_shown_in_full(data: Vec<u8>, bytes: String, shown: String)
    requires
        call_ensures(text::show_bytes, (&data,), bytes),
        call_ensures(ServerMessage::show, (&ServerMessage::SshData(data),), shown),
    ensures
        shown@ == "SshData"@ + "("@ + bytes@ + ")"@,
{
}

} // verus!
