//! The console's connection to the daemon.

use vstd::prelude::*;

use crate::cli::StundOpenOptions;
use crate::console::cleanup::Front;
use crate::console::open::Issue;
use crate::console::protocol::{ClientMessage, ClientMessageView, OpenParameters};
use crate::protocol;
use crate::protocol::NoHomeDirectory;

verus! {

/// A connection to the daemon over which the next command may be sent.
#[derive(Debug)]
pub struct Connection {}

/// How to connect to the daemon.
#[derive(Debug, PartialEq)]
pub struct ConnectPlan {
    /// The path of the daemon's socket.
    pub path: Vec<u8>,
    /// How many seconds the socket lingers when it is closed.
    pub linger_seconds: i32,
}

/// What to tell the user when the login dialogue begins.
pub const BANNER: &'static str =
    "[Begin SSH login; type \".\" on an empty line when login has succeeded.]";

/// What to tell the user when the tunnel is open.
pub const SUCCESS: &'static str = "[Success]";

/// How to connect to the daemon, if the path of its socket is known.
pub fn plan_connection(path: Result<Vec<u8>, NoHomeDirectory>) -> (plan: Result<
    ConnectPlan,
    NoHomeDirectory,
>)
    ensures
        match path {
            Ok(p) => plan == Ok::<ConnectPlan, NoHomeDirectory>(
                (ConnectPlan { path: p, linger_seconds: protocol::LINGER_SECONDS }),
            ),
            Err(e) => plan == Err::<ConnectPlan, NoHomeDirectory>(e),
        },
{
    match path {
        Ok(path) => Ok(ConnectPlan { path, linger_seconds: protocol::LINGER_SECONDS }),
        Err(e) => Err(e),
    }
}

impl Connection {
    /// Find out how to connect to the daemon. It is not launched. Whether the
    /// path of its socket is known is up to the environment;
    /// [`plan_connection`] says what follows either way.
    pub fn establish() -> (plan: Result<ConnectPlan, NoHomeDirectory>)
        ensures
            plan matches Ok(p) ==> {
                &&& p.linger_seconds == protocol::LINGER_SECONDS
                &&& exists|home: Seq<u8>|
                    home.len() > 0 && p.path@ == #[trigger] protocol::socket_path(home)
            },
    {
        plan_connection(protocol::get_socket_path())
    }

    /// End the session: say goodbye.
    pub fn close(self) -> (msg: ClientMessage)
        ensures
            msg@ == ClientMessageView::Goodbye,
    {
        ClientMessage::Goodbye
    }

    /// Ask for a tunnel to be opened, with the login dialogue between streams.
    pub fn send_open(self, params: OpenParameters) -> (r: (Issue, ClientMessage))
        ensures
            r.0.front == Front::Streams,
            r.1@ == ClientMessageView::Open(params.host@),
    {
        (Issue { front: Front::Streams }, ClientMessage::Open(params))
    }
}

/// Ask for a tunnel to be opened, with the login dialogue at the terminal.
pub fn new_open(opts: &StundOpenOptions) -> (r: (Issue, ClientMessage))
    ensures
        r.0.front == Front::Terminal,
        r.1@ == ClientMessageView::Open(opts.host@),
{
    (
        Issue { front: Front::Terminal },
        ClientMessage::Open(OpenParameters { host: opts.host.clone() }),
    )
}

/// One of the things that the console does around the login dialogue, in their
/// order. `E` is why an open command failed.
#[derive(Debug, PartialEq)]
pub enum ConsoleAction<E> {
    /// Switch the terminal's echo on or off.
    Echo(bool),
    /// Print a line.
    Print(String),
    /// Send a message to the daemon, and fail if that fails.
    Send(ClientMessage),
    /// Fail.
    Fail(E),
}

/// What a [`ConsoleAction`] says.
pub enum ConsoleActionView<E> {
    Echo(bool),
    Print(Seq<char>),
    Send(ClientMessageView),
    Fail(E),
}

impl<E> View for ConsoleAction<E> {
    type V = ConsoleActionView<E>;

    open spec fn view(&self) -> ConsoleActionView<E> {
        match self {
            ConsoleAction::Echo(active) => ConsoleActionView::Echo(*active),
            ConsoleAction::Print(line) => ConsoleActionView::Print(line@),
            ConsoleAction::Send(msg) => ConsoleActionView::Send(msg@),
            ConsoleAction::Fail(e) => ConsoleActionView::Fail(*e),
        }
    }
}

/// What some actions say.
pub open spec fn console_plan<E>(actions: Seq<ConsoleAction<E>>) -> Seq<ConsoleActionView<E>> {
    actions.map_values(|a: ConsoleAction<E>| a@)
}

/// What the console does when the login dialogue begins.
pub open spec fn begin_plan<E>(front: Front) -> Seq<ConsoleActionView<E>> {
    match front {
        Front::Terminal => seq![
            ConsoleActionView::Print(BANNER@),
            ConsoleActionView::Echo(false),
        ],
        Front::Streams => Seq::empty(),
    }
}

/// What the console does when an open command at the terminal has ended.
pub open spec fn end_plan<E>(outcome: Result<(), E>) -> Seq<ConsoleActionView<E>> {
    match outcome {
        Ok(_) => seq![
            ConsoleActionView::Echo(true),
            ConsoleActionView::Print(SUCCESS@),
            ConsoleActionView::Send(ClientMessageView::Goodbye),
        ],
        Err(e) => seq![ConsoleActionView::Echo(true), ConsoleActionView::Fail(e)],
    }
}

/// Begin the login dialogue: at the terminal, tell the user how it ends, and
/// switch the echo off.
pub fn dialogue_begins<E>(front: Front) -> (actions: Vec<ConsoleAction<E>>)
    ensures
        console_plan(actions@) == begin_plan::<E>(front),
{
    let mut actions: Vec<ConsoleAction<E>> = Vec::new();
    match front {
        Front::Terminal => {
            actions.push(ConsoleAction::Print(BANNER.to_owned()));
            actions.push(ConsoleAction::Echo(false));
        },
        Front::Streams => {},
    }
    proof {
        assert(console_plan(actions@) =~= begin_plan::<E>(front));
    }
    actions
}

/// End an open command at the terminal. The echo comes back in any case; only
/// after success is the user told of it, and the session closed.
pub fn new_open_ended<E>(outcome: Result<(), E>) -> (actions: Vec<ConsoleAction<E>>)
    ensures
        console_plan(actions@) == end_plan(outcome),
{
    let mut actions: Vec<ConsoleAction<E>> = Vec::new();
    actions.push(ConsoleAction::Echo(true));
    match outcome {
        Ok(_) => {
            actions.push(ConsoleAction::Print(SUCCESS.to_owned()));
            actions.push(ConsoleAction::Send(Connection {  }.close()));
        },
        Err(e) => {
            actions.push(ConsoleAction::Fail(e));
        },
    }
    proof {
        assert(console_plan(actions@) =~= end_plan(outcome));
    }
    actions
}

/// Whatever comes of an open command at the terminal, the echo comes back first;
/// the session is closed, and success told, exactly if it succeeded.
pub proof fn law_console_restores_the_echo<E>(outcome: Result<(), E>)
    ensures
        end_plan(outcome)[0] == ConsoleActionView::<E>::Echo(true),
        outcome is Ok <==> end_plan(outcome).contains(
            ConsoleActionView::Send(ClientMessageView::Goodbye),
        ),
        outcome is Ok <==> end_plan(outcome).contains(ConsoleActionView::Print(SUCCESS@)),
{
    if outcome is Ok {
        assert(end_plan(outcome)[1] == ConsoleActionView::<E>::Print(SUCCESS@));
        assert(end_plan(outcome)[2] == ConsoleActionView::<E>::Send(ClientMessageView::Goodbye));
    }
}

} // verus!
