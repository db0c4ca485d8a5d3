//! The login dialogue in the daemon: what is read is passed on, whatever its
//! length, and the login is recognized by the key.

use vstd::prelude::*;

use crate::daemon::session::{
    AfterCommunicatingForOpen, CommunicatingForOpen, OpenEvent, OpenEventView, OpenModel,
    OpenRequest, OpenRequestView, OpenStep, OpenTrace, SessionError, SessionErrorView,
};
use crate::marker;
use crate::marker::SshKeyStatus;
use crate::protocol::{ClientMessage, ClientMessageView, ServerMessage, ServerMessageView};

verus! {

/// How a dialogue stands after `events`, if it goes on so far.
pub open spec fn dialogue_after(model: OpenModel, events: Seq<OpenEventView>) -> Option<OpenModel>
    decreases events.len(),
{
    if events.len() == 0 {
        Some(model)
    } else {
        match dialogue_after(model, events.drop_last()) {
            Some(before) => match before.step(events.last()) {
                OpenStep::Ask(next) => Some(next),
                _ => None,
            },
            None => None,
        }
    }
}

/// Whether `request` is made after `events`.
pub open spec fn asks_after(
    model: OpenModel,
    events: Seq<OpenEventView>,
    request: OpenRequestView,
) -> bool {
    dialogue_after(model, events) matches Some(at) && at.request() == request
}

/// Whether `request` is made at some time in the course of `events`.
pub open spec fn is_asked(
    model: OpenModel,
    events: Seq<OpenEventView>,
    request: OpenRequestView,
) -> bool {
    exists|i: int|
        0 <= i <= events.len() && #[trigger] asks_after(model, events.take(i), request)
}

proof fn lemma_asked_later(
    model: OpenModel,
    events: Seq<OpenEventView>,
    request: OpenRequestView,
)
    requires
        events.len() > 0,
        is_asked(model, events.drop_last(), request),
    ensures
        is_asked(model, events, request),
{
    let init = events.drop_last();
    let i = choose|i: int|
        0 <= i <= init.len() && #[trigger] asks_after(model, init.take(i), request);
    assert(init.take(i) =~= events.take(i));
    assert(asks_after(model, events.take(i), request));
}

proof fn lemma_asked_now(model: OpenModel, events: Seq<OpenEventView>, request: OpenRequestView)
    requires
        asks_after(model, events, request),
    ensures
        is_asked(model, events, request),
{
    assert(events.take(events.len() as int) =~= events);
    assert(asks_after(model, events.take(events.len() as int), request));
}

proof fn lemma_offers(model: OpenModel, events: Seq<OpenEventView>)
    requires
        model.request() == OpenRequestView::PollSsh,
        events.len() > 0,
        events[0] == OpenEventView::NotReady,
    ensures
        dialogue_after(model, events) matches Some(now) ==> {
            ||| now.request() == OpenRequestView::SendClient(
                ServerMessageView::SshData(model.cl_buf),
            ) && now.ssh_buf == model.ssh_buf && model.cl_buf.len() > 0
            ||| (model.cl_buf.len() > 0 ==> is_asked(
                model,
                events,
                OpenRequestView::SendClient(ServerMessageView::SshData(model.cl_buf)),
            )) && (model.ssh_buf.len() > 0 ==> is_asked(
                model,
                events,
                OpenRequestView::SendSsh(model.ssh_buf),
            ))
        },
    decreases events.len(),
{
    let init = events.drop_last();
    let to_client = OpenRequestView::SendClient(ServerMessageView::SshData(model.cl_buf));
    let to_ssh = OpenRequestView::SendSsh(model.ssh_buf);
    if init.len() == 0 {
        assert(dialogue_after(model, init) == Some(model));
        assert(events.last() == OpenEventView::NotReady);
        if dialogue_after(model, events) is Some && model.cl_buf.len() == 0 && model.ssh_buf.len()
            > 0 {
            lemma_asked_now(model, events, to_ssh);
        }
    } else {
        assert(init[0] == events[0]);
        lemma_offers(model, init);
        if let Some(before) = dialogue_after(model, init) {
            if let Some(now) = dialogue_after(model, events) {
                if before.request() == to_client && before.ssh_buf == model.ssh_buf
                    && model.cl_buf.len() > 0 {
                    lemma_asked_now(model, init, to_client);
                    lemma_asked_later(model, events, to_client);
                    if now.request() == to_ssh {
                        lemma_asked_now(model, events, to_ssh);
                    }
                } else {
                    if is_asked(model, init, to_client) {
                        lemma_asked_later(model, events, to_client);
                    }
                    if is_asked(model, init, to_ssh) {
                        lemma_asked_later(model, events, to_ssh);
                    }
                }
            }
        }
    }
}

/// Progress of the relay: once all that there is has been read, all that is held
/// for the client is offered to it, and all that is held for SSH is offered to
/// SSH, before anything is flushed and before the dialogue waits again. That is
/// so whatever the length of what is held, and whatever events come in.
pub proof fn law_what_is_held_is_offered(model: OpenModel, events: Seq<OpenEventView>)
    requires
        model.request() == OpenRequestView::PollSsh,
        events.len() > 0,
        events[0] == OpenEventView::NotReady,
        dialogue_after(model, events) is Some,
        ({
            let now = dialogue_after(model, events)->0.request();
            now == OpenRequestView::FlushClient || now == OpenRequestView::FlushSsh || now
                == OpenRequestView::Wait
        }),
    ensures
        model.cl_buf.len() > 0 ==> is_asked(
            model,
            events,
            OpenRequestView::SendClient(ServerMessageView::SshData(model.cl_buf)),
        ),
        model.ssh_buf.len() > 0 ==> is_asked(
            model,
            events,
            OpenRequestView::SendSsh(model.ssh_buf),
        ),
{
    lemma_offers(model, events);
}

/// Right after all has been read, what is asked for is to send what is held,
/// the client's share first; with nothing held, the client is flushed.
pub proof fn law_offers_follow_at_once(model: OpenModel)
    requires
        model.request() == OpenRequestView::PollSsh,
    ensures
        model.step(OpenEventView::NotReady) matches OpenStep::Ask(next) && {
            &&& next.cl_buf == model.cl_buf && next.ssh_buf == model.ssh_buf
            &&& next.request() == if model.cl_buf.len() > 0 {
                OpenRequestView::SendClient(ServerMessageView::SshData(model.cl_buf))
            } else if model.ssh_buf.len() > 0 {
                OpenRequestView::SendSsh(model.ssh_buf)
            } else {
                OpenRequestView::FlushClient
            }
        },
{
}

/// What an offer does: what was taken is no longer held, what was refused is
/// held still; and after the client it is SSH's turn, then the flushes.
pub proof fn law_offers_are_taken_or_kept(model: OpenModel, taken: bool)
    ensures
        model.request() matches OpenRequestView::SendClient(msg) ==> {
            &&& msg == ServerMessageView::SshData(model.cl_buf)
            &&& model.step(
                if taken {
                    OpenEventView::Accepted
                } else {
                    OpenEventView::Refused
                },
            ) matches OpenStep::Ask(next) && {
                &&& next.cl_buf == (if taken {
                    Seq::<u8>::empty()
                } else {
                    model.cl_buf
                })
                &&& next.ssh_buf == model.ssh_buf
                &&& next.progress == model.progress && next.key == model.key
                &&& next.request() == if model.ssh_buf.len() > 0 {
                    OpenRequestView::SendSsh(model.ssh_buf)
                } else {
                    OpenRequestView::FlushClient
                }
            }
        },
        model.request() matches OpenRequestView::SendSsh(bytes) ==> {
            &&& bytes == model.ssh_buf
            &&& model.step(
                if taken {
                    OpenEventView::Accepted
                } else {
                    OpenEventView::Refused
                },
            ) matches OpenStep::Ask(next) && {
                &&& next.ssh_buf == (if taken {
                    Seq::<u8>::empty()
                } else {
                    model.ssh_buf
                })
                &&& next.cl_buf == model.cl_buf
                &&& next.progress == model.progress && next.key == model.key
                &&& next.request() == OpenRequestView::FlushClient
            }
        },
{
}

/// What is read is put behind what is held, and read on; a byte of it more or
/// less makes a difference only to what is held and to the search for the key.
pub proof fn law_all_that_is_read_is_held(model: OpenModel, data: Seq<u8>)
    ensures
        model.request() is PollClient ==> {
            &&& model.step(
                OpenEventView::FromClient(ClientMessageView::UserData(data)),
            ) matches OpenStep::Ask(next)
            &&& next.request() is PollClient
            &&& next.ssh_buf == model.ssh_buf + data
            &&& next.cl_buf == model.cl_buf
            &&& next.progress == model.progress
            &&& next.key == model.key
        },
        model.request() is PollSsh ==> {
            &&& model.step(OpenEventView::FromSsh(data)) matches OpenStep::Ask(next)
            &&& next.request() is PollSsh
            &&& next.cl_buf == model.cl_buf + data
            &&& next.ssh_buf == model.ssh_buf
            &&& next.progress == marker::matched(model.key, model.progress, data)
            &&& next.key == model.key
        },
{
}

/// The order of a round: woken, the client is read, then SSH; flushes that are
/// not done end the round, and nothing is forgotten on the way.
pub proof fn law_order_of_a_round(model: OpenModel)
    ensures
        model.request() is Wait ==> {
            &&& model.step(OpenEventView::Wake) matches OpenStep::Ask(next)
            &&& next.request() is PollClient
            &&& (OpenModel { turn: model.turn, ..next }) == model
        },
        model.request() is PollClient ==> {
            &&& model.step(OpenEventView::NotReady) matches OpenStep::Ask(next)
            &&& next.request() is PollSsh
            &&& (OpenModel { turn: model.turn, ..next }) == model
        },
        model.request() is FlushClient ==> {
            &&& model.step(OpenEventView::Flushed) matches OpenStep::Ask(next)
            &&& next.request() is FlushSsh
            &&& (OpenModel { turn: model.turn, ..next }) == model
        },
        model.request() is FlushClient ==> {
            &&& model.step(OpenEventView::NotReady) matches OpenStep::Ask(next)
            &&& next.request() is Wait
            &&& (OpenModel { turn: model.turn, ..next }) == model
        },
        model.request() is FlushSsh ==> {
            &&& model.step(OpenEventView::NotReady) matches OpenStep::Ask(next)
            &&& next.request() is Wait
            &&& (OpenModel { turn: model.turn, ..next }) == model
        },
        model.request() is FlushSsh && model.progress < model.key.len() ==> {
            &&& model.step(OpenEventView::Flushed) matches OpenStep::Ask(next)
            &&& next.request() is Wait
            &&& (OpenModel { turn: model.turn, ..next }) == model
        },
{
}

/// After the login, the client is told so once nothing is held; until then, what
/// is held is offered again.
pub proof fn law_success_once_nothing_is_held(model: OpenModel)
    requires
        model.request() is FlushSsh,
        model.progress == model.key.len(),
    ensures
        model.cl_buf.len() == 0 && model.ssh_buf.len() == 0 ==> model.step(OpenEventView::Flushed)
            == OpenStep::FinalizingTxn(ServerMessageView::Okay),
        model.cl_buf.len() > 0 ==> {
            &&& model.step(OpenEventView::Flushed) matches OpenStep::Ask(next)
            &&& next.request() == OpenRequestView::SendClient(
                ServerMessageView::SshData(model.cl_buf),
            )
            &&& next.ssh_buf == model.ssh_buf
        },
        model.cl_buf.len() == 0 && model.ssh_buf.len() > 0 ==> {
            &&& model.step(OpenEventView::Flushed) matches OpenStep::Ask(next)
            &&& next.request() == OpenRequestView::SendSsh(model.ssh_buf)
        },
{
}

/// How a login dialogue breaks down.
pub proof fn law_how_a_login_fails(model: OpenModel, msg: ClientMessageView, cause: Seq<char>)
    ensures
        model.request() is PollClient && !(msg is UserData) ==> model.step(
            OpenEventView::FromClient(msg),
        ) == OpenStep::Failed(SessionErrorView::UnexpectedMessage(msg)),
        model.request() is PollClient ==> model.step(OpenEventView::ClientClosed)
            == OpenStep::Failed(SessionErrorView::ClientClosed),
        model.request() is PollSsh ==> model.step(OpenEventView::SshClosed) == OpenStep::Aborting(
            ServerMessageView::Error("unexpected EOF from SSH (program died?)"@),
        ),
        model.request() is PollSsh ==> model.step(OpenEventView::Failed(cause))
            == OpenStep::Aborting(
            ServerMessageView::Error(
                "something went wrong communicating with the SSH process: "@ + cause,
            ),
        ),
        !(model.request() is PollSsh) && !(model.request() is Wait) ==> model.step(
            OpenEventView::Failed(cause),
        ) == OpenStep::Failed(SessionErrorView::Transport(cause)),
{
}

/// A dialogue that waits is stirred by nothing but being woken.
pub proof fn law_waiting_is_undisturbed(model: OpenModel, event: OpenEventView)
    requires
        model.request() is Wait,
        event != OpenEventView::Wake,
    ensures
        model.step(event) == OpenStep::Ask(model),
{
}

/// A dialogue begins by waiting, with nothing held and nothing of the key
/// matched.
pub proof fn law_a_dialogue_begins_empty(key: Seq<u8>)
    ensures
        OpenModel::start(key).request() is Wait,
        OpenModel::start(key).cl_buf.len() == 0,
        OpenModel::start(key).ssh_buf.len() == 0,
        OpenModel::start(key).progress == 0,
        OpenModel::start(key).key == key,
{
}

/// Only what is held is ever offered, all of it, and never nothing.
pub proof fn law_offers_are_all_that_is_held(key: Seq<u8>, events: Seq<OpenEventView>)
    ensures
        OpenTrace::of(key, events) matches Some(trace) ==> {
            &&& trace.model.request() matches OpenRequestView::SendClient(msg) ==> msg
                == ServerMessageView::SshData(trace.model.cl_buf) && trace.model.cl_buf.len() > 0
            &&& trace.model.request() matches OpenRequestView::SendSsh(bytes) ==> bytes
                == trace.model.ssh_buf && bytes.len() > 0
        },
    decreases events.len(),
{
    if events.len() > 0 {
        law_offers_are_all_that_is_held(key, events.drop_last());
    }
}

/// The key is found in any output that holds it, whatever stands before and
/// behind it.
pub proof fn law_key_is_found_anywhere(key: Seq<u8>, before: Seq<u8>, after: Seq<u8>)
    ensures
        marker::matched(key, 0, before + key + after) == key.len(),
{
    let output = before + key + after;
    let p = before.len() as int;
    assert(output.subrange(p, p + key.len()) =~= key);
    assert(marker::occurs_at(key, output, p));
    marker::law_found_iff_printed(key, output);
}

/// If the search is done, the output holds the key: it is something, the key,
/// and something again.
pub proof fn law_found_key_was_printed(key: Seq<u8>, output: Seq<u8>)
    requires
        marker::matched(key, 0, output) == key.len(),
    ensures
        exists|before: Seq<u8>, after: Seq<u8>| output == #[trigger] (before + key + after),
{
    marker::law_found_iff_printed(key, output);
    let p = choose|p: int| #[trigger] marker::occurs_at(key, output, p);
    let before = output.take(p);
    let after = output.skip(p + key.len());
    assert(output =~= before + output.subrange(p, p + key.len()) + after);
    assert(output == before + key + after);
}

/// A key is the prefix, then the base64 text of all the random bytes.
pub proof fn law_key_holds_all_random_bytes(random: Seq<u8>)
    ensures
        marker::key_text(random) == "STUND:"@ + marker::base64_text(random),
{
}

/// An event that is no answer to what was asked changes nothing.
pub proof fn law_what_a_login_ignores(model: OpenModel, event: OpenEventView)
    requires
        model.request() is Wait ==> !(event is Wake),
        model.request() is PollClient ==> !(event is FromClient) && !(event is ClientClosed)
            && !(event is NotReady) && !(event is Failed),
        model.request() is PollSsh ==> !(event is FromSsh) && !(event is SshClosed) && !(event
            is NotReady) && !(event is Failed),
        model.request() is SendClient || model.request() is SendSsh ==> !(event is Accepted)
            && !(event is Refused) && !(event is Failed),
        model.request() is FlushClient || model.request() is FlushSsh ==> !(event is Flushed)
            && !(event is NotReady) && !(event is Failed),
    ensures
        model.step(event) == OpenStep::Ask(model),
{
}

/// The session does what its model does, and asks for what the model asks for. The
/// model holds all that the session holds.
pub proof fn law_the_session_follows_its_model(
    session: CommunicatingForOpen,
    event: OpenEvent,
    after: AfterCommunicatingForOpen,
    asked: OpenRequest,
)
    requires
        session.wf(),
        call_ensures(CommunicatingForOpen::poll_communicating_for_open, (session, event), after),
        call_ensures(CommunicatingForOpen::request, (&session,), asked),
    ensures
        asked@ == session@.request(),
        after matches AfterCommunicatingForOpen::Ask(next, request) ==> session@.step(event@)
            == OpenStep::Ask(next@) && request@ == next@.request() && next.wf(),
        after matches AfterCommunicatingForOpen::FinalizingTxn(txn) ==> session@.step(event@)
            == OpenStep::FinalizingTxn(txn.reply@),
        after matches AfterCommunicatingForOpen::Aborting(abort) ==> session@.step(event@)
            == OpenStep::Aborting(abort.reply@),
        after matches AfterCommunicatingForOpen::Failed(e) ==> session@.step(event@)
            == OpenStep::Failed(e@),
        session@.turn == session.turn,
        session@.cl_buf == session.cl_buf@,
        session@.ssh_buf == session.ssh_buf@,
        session@.key == session.ssh_key@,
        session.ssh_key_status is FoundIt <==> session@.progress == session@.key.len(),
        session.ssh_key_status matches SshKeyStatus::Searching(n) ==> session@.progress == n,
{
}

/// What a session holds is offered, in full, to whom it is for, once SSH has been read,
/// whatever the length of what is held.
pub proof fn law_a_session_offers_all_that_it_holds(
    session: CommunicatingForOpen,
    asked: OpenRequest,
    after: AfterCommunicatingForOpen,
)
    requires
        session.wf(),
        call_ensures(CommunicatingForOpen::request, (&session,), asked),
        asked is PollSsh,
        call_ensures(
            CommunicatingForOpen::poll_communicating_for_open,
            (session, OpenEvent::NotReady),
            after,
        ),
    ensures
        after is Ask,
        session.cl_buf@.len() > 0 ==> after->Ask_1 is SendClient && after->Ask_1->SendClient_0
            is SshData && after->Ask_1->SendClient_0->SshData_0@ == session.cl_buf@,
        session.cl_buf@.len() == 0 && session.ssh_buf@.len() > 0 ==> after->Ask_1 is SendSsh
            && after->Ask_1->SendSsh_0@ == session.ssh_buf@,
        session.cl_buf@.len() == 0 && session.ssh_buf@.len() == 0 ==> after->Ask_1 is FlushClient,
        after->Ask_0.cl_buf@ == session.cl_buf@,
        after->Ask_0.ssh_buf@ == session.ssh_buf@,
{
}

/// After the client has been offered its share, taken or not, all of SSH's share is
/// offered to SSH, whatever its length.
pub proof fn law_ssh_is_offered_its_share(
    session: CommunicatingForOpen,
    asked: OpenRequest,
    taken: bool,
    after: AfterCommunicatingForOpen,
)
    requires
        session.wf(),
        call_ensures(CommunicatingForOpen::request, (&session,), asked),
        asked is SendClient,
        call_ensures(
            CommunicatingForOpen::poll_communicating_for_open,
            (
                session,
                if taken {
                    OpenEvent::Accepted
                } else {
                    OpenEvent::Refused
                },
            ),
            after,
        ),
    ensures
        after is Ask,
        session.ssh_buf@.len() > 0 ==> after->Ask_1 is SendSsh && after->Ask_1->SendSsh_0@
            == session.ssh_buf@,
        session.ssh_buf@.len() == 0 ==> after->Ask_1 is FlushClient,
        taken ==> after->Ask_0.cl_buf@.len() == 0,
        !taken ==> after->Ask_0.cl_buf@ == session.cl_buf@,
        after->Ask_0.ssh_buf@ == session.ssh_buf@,
{
}

/// Events, requests and errors hold just what they say.
pub proof fn law_events_and_requests_say_what_they_hold(
    event: OpenEvent,
    request: OpenRequest,
    msg: ClientMessage,
    sent: ServerMessage,
    bytes: Vec<u8>,
    cause: String,
)
    ensures
        OpenEvent::FromClient(msg)@ == OpenEventView::FromClient(msg@),
        OpenEvent::FromSsh(bytes)@ == OpenEventView::FromSsh(bytes@),
        OpenEvent::Failed(cause)@ == OpenEventView::Failed(cause@),
        OpenRequest::SendClient(sent)@ == OpenRequestView::SendClient(sent@),
        OpenRequest::SendSsh(bytes)@ == OpenRequestView::SendSsh(bytes@),
        event is Wake <==> event@ is Wake,
        event is NotReady <==> event@ is NotReady,
        event is ClientClosed <==> event@ is ClientClosed,
        event is SshClosed <==> event@ is SshClosed,
        event is Accepted <==> event@ is Accepted,
        event is Refused <==> event@ is Refused,
        event is Flushed <==> event@ is Flushed,
        request is Wait <==> request@ is Wait,
        request is PollClient <==> request@ is PollClient,
        request is PollSsh <==> request@ is PollSsh,
        request is FlushClient <==> request@ is FlushClient,
        request is FlushSsh <==> request@ is FlushSsh,
        SessionError::UnexpectedMessage(msg)@ == SessionErrorView::UnexpectedMessage(msg@),
        SessionError::UnexpectedCommand(msg)@ == SessionErrorView::UnexpectedCommand(msg@),
        SessionError::Transport(cause)@ == SessionErrorView::Transport(cause@),
        SessionError::ClientClosed@ == SessionErrorView::ClientClosed,
        SessionError::ClientNotified@ == SessionErrorView::ClientNotified,
{
}

/// The key is found in what was read in two goes exactly if it stands somewhere in the
/// two together, also across the seam.
pub proof fn law_key_is_found_across_reads(
    key: &[u8],
    first: &[u8],
    second: &[u8],
    between: SshKeyStatus,
    end: SshKeyStatus,
)
    requires
        key@.len() > 0,
        call_ensures(SshKeyStatus::advance, (SshKeyStatus::Searching(0), key, first), between),
        call_ensures(SshKeyStatus::advance, (between, key, second), end),
    ensures
        end is FoundIt <==> exists|before: Seq<u8>, after: Seq<u8>|
            first@ + second@ == #[trigger] (before + key@ + after),
        between is FoundIt ==> end is FoundIt,
{
    let output = first@ + second@;
    marker::law_matched_in_parts(key@, 0, first@, second@);
    if end is FoundIt {
        law_found_key_was_printed(key@, output);
    }
    if exists|before: Seq<u8>, after: Seq<u8>| output == #[trigger] (before + key@ + after) {
        let (before, after) = choose|before: Seq<u8>, after: Seq<u8>|
            output == #[trigger] (before + key@ + after);
        law_key_is_found_anywhere(key@, before, after);
    }
    if between is FoundIt {
        law_found_key_was_printed(key@, first@);
        let (before, after) = choose|before: Seq<u8>, after: Seq<u8>|
            first@ == #[trigger] (before + key@ + after);
        assert(output =~= before + key@ + (after + second@));
        law_key_is_found_anywhere(key@, before, after + second@);
    }
}

/// A key is recognizable: it begins with the prefix, and what follows are the 44
/// characters of a base64 text. What SSH prints of it are its bytes.
pub proof fn law_what_a_key_looks_like(
    random: [u8; 32],
    made: String,
    generated: String,
    text: &str,
    bytes: Vec<u8>,
    i: int,
)
    requires
        call_ensures(marker::make_key, (&random,), made),
        call_ensures(marker::generate_key, (), generated),
        call_ensures(marker::key_bytes, (text,), bytes),
        0 <= i < 44,
    ensures
        made@ == "STUND:"@ + marker::base64_text(random@),
        made@.len() == 50,
        generated@.len() == 50,
        generated@.take(6) == "STUND:"@,
        ({
            let c = generated@[6 + i];
            'A' <= c <= 'Z' || 'a' <= c <= 'z' || '0' <= c <= '9' || c == '+' || c == '/' || c
                == '='
        }),
        bytes@ == vstd::utf8::encode_utf8(text@),
{
}

} // verus!
