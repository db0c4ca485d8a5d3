//! What the daemon knows of its tunnels, as a matter of what has happened.

use vstd::prelude::*;

use crate::daemon::monitor::{AwaitingChildEvent, ChildEvent};
use crate::daemon::session;
use crate::daemon::state;
use crate::daemon::state::TunnelState;
use crate::daemon::session::CloseAnswer;
use crate::protocol;
use crate::protocol::ServerMessageView;

verus! {

/// Something that changes what the daemon knows of the tunnel to a host.
pub enum TunnelEvent<K> {
    /// SSH was launched.
    Launched(Seq<char>, K),
    /// A client asked to close the tunnel.
    CloseCommand(Seq<char>),
    /// There was news of an SSH process.
    ChildNews(Seq<char>, ChildEvent),
}

impl<K> TunnelEvent<K> {
    /// The host that the event is about.
    pub open spec fn host(self) -> Seq<char> {
        match self {
            TunnelEvent::Launched(host, _) => host,
            TunnelEvent::CloseCommand(host) => host,
            TunnelEvent::ChildNews(host, _) => host,
        }
    }

    /// What the daemon knows after the event.
    pub open spec fn apply(self, tunnels: Map<Seq<char>, TunnelState<K>>) -> Map<
        Seq<char>,
        TunnelState<K>,
    > {
        match self {
            TunnelEvent::Launched(host, tx_kill) => tunnels.insert(
                host,
                TunnelState::Running { tx_kill },
            ),
            TunnelEvent::CloseCommand(host) => state::closed(tunnels, host),
            TunnelEvent::ChildNews(host, news) => match AwaitingChildEvent::remembered::<K>(news) {
                Some(child) => tunnels.insert(host, child),
                None => tunnels,
            },
        }
    }
}

/// What a daemon knows that was started without tunnels.
pub open spec fn known_after<K>(events: Seq<TunnelEvent<K>>) -> Map<Seq<char>, TunnelState<K>>
    decreases events.len(),
{
    if events.len() == 0 {
        Map::empty()
    } else {
        events.last().apply(known_after(events.drop_last()))
    }
}

/// What has become of the tunnel to `host`: it is open once it is launched,
/// closed once it is closed on command while open, or killed, and died once its
/// process exits by itself.
pub open spec fn last_word<K>(events: Seq<TunnelEvent<K>>, host: Seq<char>) -> Option<
    protocol::TunnelState,
>
    decreases events.len(),
{
    if events.len() == 0 {
        None
    } else {
        let before = last_word(events.drop_last(), host);
        if events.last().host() != host {
            before
        } else {
            match events.last() {
                TunnelEvent::Launched(_, _) => Some(protocol::TunnelState::Open),
                TunnelEvent::CloseCommand(_) => if before == Some(protocol::TunnelState::Open) {
                    Some(protocol::TunnelState::Closed)
                } else {
                    before
                },
                TunnelEvent::ChildNews(_, ChildEvent::KillOrdered) => Some(
                    protocol::TunnelState::Closed,
                ),
                TunnelEvent::ChildNews(_, ChildEvent::ChildExited(_)) => Some(
                    protocol::TunnelState::Died,
                ),
                TunnelEvent::ChildNews(_, _) => before,
            }
        }
    }
}

/// Clients are told of each tunnel in the state that it was last brought into.
pub proof fn law_status_tells_the_last_word<K>(events: Seq<TunnelEvent<K>>, host: Seq<char>)
    ensures
        match last_word(events, host) {
            Some(state) => known_after(events).contains_key(host)
                && known_after(events)[host].reported() == state,
            None => !known_after(events).contains_key(host),
        },
    decreases events.len(),
{
    if events.len() > 0 {
        law_status_tells_the_last_word(events.drop_last(), host);
    }
}

/// Whether SSH was launched for `host`.
pub open spec fn launched<K>(events: Seq<TunnelEvent<K>>, host: Seq<char>) -> bool {
    exists|i: int|
        0 <= i < events.len() && (#[trigger] events[i]) is Launched && events[i].host() == host
}

/// Whether news of a process comes only after its launch.
pub open spec fn news_after_launch<K>(events: Seq<TunnelEvent<K>>) -> bool {
    forall|i: int|
        0 <= i < events.len() && (#[trigger] events[i]) is ChildNews ==> launched(
            events.take(i),
            events[i].host(),
        )
}

/// Clients are told of exactly the tunnels that have been opened during this
/// daemon's lifetime, whether or not they are still open.
pub proof fn law_status_lists_every_tunnel<K>(events: Seq<TunnelEvent<K>>, host: Seq<char>)
    requires
        news_after_launch(events),
    ensures
        known_after(events).contains_key(host) <==> launched(events, host),
    decreases events.len(),
{
    if events.len() > 0 {
        let before = events.drop_last();
        let last = events.len() - 1;
        assert(events.take(last) =~= before);
        assert forall|i: int| 0 <= i < before.len() && (#[trigger] before[i]) is ChildNews implies
            launched(before.take(i), before[i].host()) by {
            assert(events[i] is ChildNews);
            assert(before.take(i) =~= events.take(i));
        }
        law_status_lists_every_tunnel(before, host);
        assert(launched(before, host) ==> launched(events, host)) by {
            if launched(before, host) {
                let i = choose|i: int|
                    0 <= i < before.len() && (#[trigger] before[i]) is Launched
                        && before[i].host() == host;
                assert(events[i] is Launched);
            }
        }
        assert(launched(events, host) ==> launched(before, host) || (events.last() is Launched
            && events.last().host() == host)) by {
            if launched(events, host) {
                let i = choose|i: int|
                    0 <= i < events.len() && (#[trigger] events[i]) is Launched
                        && events[i].host() == host;
                if i < last {
                    assert(before[i] is Launched);
                }
            }
        }
        assert(events[last] == events.last());
    }
}

/// The request to open a tunnel is turned down exactly when clients are told
/// that the tunnel is open.
pub proof fn law_already_open_iff_reported_open<K>(
    tunnels: Map<Seq<char>, TunnelState<K>>,
    host: Seq<char>,
)
    requires
        tunnels.contains_key(host),
    ensures
        tunnels[host] is Running <==> tunnels[host].reported() == protocol::TunnelState::Open,
{
}

/// A tunnel that has been closed may be opened again, and closing it once more
/// changes nothing. The other tunnels are as before, and no tunnel is forgotten
/// or made up.
pub proof fn law_close_is_done_once<K>(
    tunnels: Map<Seq<char>, TunnelState<K>>,
    host: Seq<char>,
    other: Seq<char>,
)
    requires
        other != host,
    ensures
        state::closed(tunnels, host).contains_key(host) ==> !(state::closed(
            tunnels,
            host,
        )[host] is Running),
        state::closed(state::closed(tunnels, host), host) == state::closed(tunnels, host),
        state::closed(tunnels, host).dom() == tunnels.dom(),
        state::closed(tunnels, host)[other] == tunnels[other],
{
    assert(state::closed(tunnels, host).dom() =~= tunnels.dom());
}

/// Once a tunnel has been closed on command, and until it is launched again, a
/// further close command is answered that no such tunnel was open, and kills
/// nothing, whatever news of the process came in between.
pub proof fn law_second_close_is_refused<K>(
    before: Seq<TunnelEvent<K>>,
    later: Seq<TunnelEvent<K>>,
    host: Seq<char>,
)
    requires
        forall|i: int|
            0 <= i < later.len() && (#[trigger] later[i]) is Launched ==> later[i].host() != host,
    ensures
        session::close_answer(
            known_after(before.push(TunnelEvent::CloseCommand(host)) + later),
            host,
        ) == CloseAnswer::<K>::Reply(ServerMessageView::TunnelNotOpen),
    decreases later.len(),
{
    let closed = before.push(TunnelEvent::CloseCommand(host));
    if later.len() == 0 {
        assert(closed + later =~= closed);
        assert(closed.drop_last() =~= before);
    } else {
        let init = later.drop_last();
        assert forall|i: int| 0 <= i < init.len() && (#[trigger] init[i]) is Launched implies
            init[i].host() != host by {
            assert(later[i] is Launched);
        }
        law_second_close_is_refused(before, init, host);
        assert((closed + later).drop_last() =~= closed + init);
        assert((closed + later).last() == later[later.len() - 1]);
    }
}

/// A tunnel that is open and then closed on command is reported as closed at
/// once, and stays so when its process is killed. The other tunnels are as
/// before.
pub proof fn law_closed_on_command<K>(
    events: Seq<TunnelEvent<K>>,
    host: Seq<char>,
    other: Seq<char>,
)
    requires
        last_word(events, host) == Some(protocol::TunnelState::Open),
        other != host,
    ensures
        ({
            let closed = events.push(TunnelEvent::CloseCommand(host));
            let killed = closed.push(TunnelEvent::ChildNews(host, ChildEvent::KillOrdered));
            &&& last_word(closed, host) == Some(protocol::TunnelState::Closed)
            &&& last_word(killed, host) == Some(protocol::TunnelState::Closed)
            &&& known_after(killed).contains_key(other) == known_after(events).contains_key(other)
            &&& known_after(killed)[other] == known_after(events)[other]
        }),
{
    let closed = events.push(TunnelEvent::CloseCommand(host));
    let killed = closed.push(TunnelEvent::ChildNews(host, ChildEvent::KillOrdered));
    assert(killed.drop_last() =~= closed);
    assert(closed.drop_last() =~= events);
    assert(known_after(killed) == killed.last().apply(known_after(closed)));
    assert(known_after(closed) == closed.last().apply(known_after(events)));
}

} // verus!
