//! What the daemon knows of its tunnels, how it starts up and when it exits.

use vstd::prelude::*;

use crate::cli::StundDaemonOptions;
use crate::protocol;
use crate::protocol::{StatusInformation, TunnelInformation};

verus! {

/// An SSH process, as the daemon remembers it. `K` is whatever the program
/// uses to order that the process be killed.
#[derive(Debug)]
pub enum TunnelState<K> {
    /// An SSH process that we have launched and is, as far as we know, still
    /// running.
    Running { tx_kill: K },
    /// An SSH process that we launched but is now dead. If the exit status is
    /// `None`, we explicitly killed it; otherwise, it's whatever status the
    /// process died with.
    Exited { status: Option<i32> },
}

impl<K> TunnelState<K> {
    /// What clients are told of the tunnel.
    pub open spec fn reported(self) -> protocol::TunnelState {
        match self {
            TunnelState::Running { .. } => protocol::TunnelState::Open,
            TunnelState::Exited { status: None } => protocol::TunnelState::Closed,
            TunnelState::Exited { status: Some(_) } => protocol::TunnelState::Died,
        }
    }

    /// What to tell clients of the tunnel.
    pub fn report(&self) -> (state: protocol::TunnelState)
        ensures
            state == self.reported(),
    {
        match self {
            TunnelState::Running { .. } => protocol::TunnelState::Open,
            TunnelState::Exited { status } => match status {
                None => protocol::TunnelState::Closed,
                Some(_) => protocol::TunnelState::Died,
            },
        }
    }
}

/// Whether `info` tells of each of the `tunnels`, of each once, and of no others.
pub open spec fn tells_of<K>(
    info: Seq<(Seq<char>, protocol::TunnelState)>,
    tunnels: Map<Seq<char>, TunnelState<K>>,
) -> bool {
    &&& forall|i: int, j: int| 0 <= i < j < info.len() ==> (#[trigger] info[i]).0 != (
        #[trigger] info[j]).0
    &&& forall|i: int|
        0 <= i < info.len() ==> {
            &&& tunnels.contains_key((#[trigger] info[i]).0)
            &&& info[i].1 == tunnels[info[i].0].reported()
        }
    &&& forall|host: Seq<char>| #[trigger]
        tunnels.contains_key(host) ==> exists|i: int|
            0 <= i < info.len() && (#[trigger] info[i]).0 == host
}

/// What is known of the tunnels once the one to `host` is closed on command. A
/// tunnel that is not open stays as it is.
pub open spec fn closed<K>(tunnels: Map<Seq<char>, TunnelState<K>>, host: Seq<char>) -> Map<
    Seq<char>,
    TunnelState<K>,
> {
    if tunnels.contains_key(host) && tunnels[host] is Running {
        tunnels.insert(host, TunnelState::Exited { status: None })
    } else {
        tunnels
    }
}

/// The daemon's state: at most one SSH process per host.
#[derive(Debug)]
pub struct State<K> {
    sock_path: Vec<u8>,
    opts: StundDaemonOptions,
    children: Vec<(String, TunnelState<K>)>,
}

/// Whether `host` stands at position `i` of the list.
spec fn listed_at<K>(children: Seq<(String, TunnelState<K>)>, host: Seq<char>, i: int) -> bool {
    0 <= i < children.len() && children[i].0@ == host
}

/// The list as a map from hosts to processes.
spec fn as_map<K>(children: Seq<(String, TunnelState<K>)>) -> Map<Seq<char>, TunnelState<K>> {
    Map::new(
        |host: Seq<char>| exists|i: int| listed_at(children, host, i),
        |host: Seq<char>| children[choose|i: int| listed_at(children, host, i)].1,
    )
}

/// No host is listed twice.
spec fn no_twins<K>(children: Seq<(String, TunnelState<K>)>) -> bool {
    forall|i: int, j: int|
        0 <= i < children.len() && 0 <= j < children.len() && #[trigger] children[i].0@
            == #[trigger] children[j].0@ ==> i == j
}

proof fn lemma_listed<K>(children: Seq<(String, TunnelState<K>)>, host: Seq<char>, i: int)
    requires
        no_twins(children),
        listed_at(children, host, i),
    ensures
        as_map(children).contains_key(host),
        as_map(children)[host] == children[i].1,
{
    let j = choose|j: int| listed_at(children, host, j);
    assert(listed_at(children, host, j));
    assert(children[i].0@ == children[j].0@);
}

impl<K> View for State<K> {
    type V = Map<Seq<char>, TunnelState<K>>;

    /// The SSH processes by host.
    closed spec fn view(&self) -> Map<Seq<char>, TunnelState<K>> {
        as_map(self.children@)
    }
}

impl<K> State<K> {
    /// No host has two SSH processes.
    pub closed spec fn wf(&self) -> bool {
        no_twins(self.children@)
    }

    /// The path of the socket that the daemon serves.
    pub closed spec fn path(&self) -> Seq<u8> {
        self.sock_path@
    }

    /// Whether the daemon stays in the foreground.
    pub closed spec fn in_foreground(&self) -> bool {
        self.opts.foreground
    }

    /// Whether an SSH process for `host` is running.
    pub open spec fn is_running(&self, host: Seq<char>) -> bool {
        self@.contains_key(host) && self@[host] is Running
    }

    /// A daemon that has not opened any tunnel yet.
    pub fn new(opts: StundDaemonOptions, sock_path: Vec<u8>) -> (state: State<K>)
        ensures
            state.wf(),
            state@ == Map::<Seq<char>, TunnelState<K>>::empty(),
            state.path() == sock_path@,
            state.in_foreground() == opts.foreground,
    {
        let state = State { sock_path, opts, children: Vec::new() };
        proof {
            assert(state@ =~= Map::<Seq<char>, TunnelState<K>>::empty());
        }
        state
    }

    /// The path of the socket that the daemon serves.
    pub fn sock_path(&self) -> (path: &Vec<u8>)
        ensures
            path@ == self.path(),
    {
        &self.sock_path
    }

    /// Tell of all tunnels.
    pub fn status(&self) -> (info: StatusInformation)
        requires
            self.wf(),
        ensures
            tells_of(info@, self@),
    {
        let mut tunnels: Vec<TunnelInformation> = Vec::new();
        let mut i: usize = 0;
        while i < self.children.len()
            invariant
                i <= self.children.len(),
                tunnels.len() == i,
                forall|j: int|
                    0 <= j < i ==> (#[trigger] tunnels[j])@ == (
                        self.children[j].0@,
                        self.children[j].1.reported(),
                    ),
            decreases self.children.len() - i,
        {
            tunnels.push(
                TunnelInformation {
                    host: self.children[i].0.clone(),
                    state: self.children[i].1.report(),
                },
            );
            i = i + 1;
        }
        let info = StatusInformation { tunnels };
        proof {
            assert forall|j: int| 0 <= j < info@.len() implies (#[trigger] info@[j]) == (
                self.children[j].0@,
                self.children[j].1.reported(),
            ) && self@.contains_key(info@[j].0) && self@[info@[j].0] == self.children[j].1 by {
                assert(info@[j] == info.tunnels[j]@);
                assert(listed_at(self.children@, self.children[j].0@, j));
                lemma_listed(self.children@, self.children[j].0@, j);
            }
            assert forall|host: Seq<char>| #[trigger] self@.contains_key(host) implies exists|
                j: int,
            | 0 <= j < info@.len() && (#[trigger] info@[j]).0 == host by {
                let j = choose|j: int| listed_at(self.children@, host, j);
                assert(listed_at(self.children@, host, j));
                assert(info@[j].0 == host);
            }
            assert forall|a: int, b: int| 0 <= a < b < info@.len() implies (#[trigger] info@[a]).0
                != (#[trigger] info@[b]).0 by {
                assert(self.children[a].0@ == info@[a].0);
                assert(self.children[b].0@ == info@[b].0);
            }
        }
        info
    }

    /// Where `host` is listed, if it is.
    fn find(&self, host: &String) -> (found: Option<usize>)
        ensures
            match found {
                Some(i) => listed_at(self.children@, host@, i as int),
                None => !self@.contains_key(host@),
            },
    {
        let mut i: usize = 0;
        while i < self.children.len()
            invariant
                i <= self.children.len(),
                forall|j: int| 0 <= j < i ==> !listed_at(self.children@, host@, j),
            decreases self.children.len() - i,
        {
            if self.children[i].0 == *host {
                return Some(i);
            }
            i = i + 1;
        }
        None
    }

    /// Look up the SSH process for `host`.
    pub fn get(&self, host: &String) -> (child: Option<&TunnelState<K>>)
        requires
            self.wf(),
        ensures
            match child {
                Some(t) => self@.contains_key(host@) && *t == self@[host@],
                None => !self@.contains_key(host@),
            },
    {
        match self.find(host) {
            Some(i) => {
                proof {
                    lemma_listed(self.children@, host@, i as int);
                }
                Some(&self.children[i].1)
            },
            None => None,
        }
    }

    /// Remember an SSH process for `host` in place of any other.
    pub fn insert(&mut self, host: String, child: TunnelState<K>)
        requires
            old(self).wf(),
        ensures
            final(self).wf(),
            final(self)@ == old(self)@.insert(host@, child),
            final(self).path() == old(self).path(),
            final(self).in_foreground() == old(self).in_foreground(),
    {
        let ghost before = self.children@;
        let ghost name = host@;
        match self.find(&host) {
            Some(i) => {
                self.children.set(i, (host, child));
                proof {
                    lemma_insert(before, self.children@, name, child, i as int);
                }
            },
            None => {
                self.children.push((host, child));
                proof {
                    assert forall|j: int| !listed_at(before, name, j) by {
                        if listed_at(before, name, j) {
                            assert(as_map(before).contains_key(name));
                        }
                    }
                    lemma_insert(before, self.children@, name, child, before.len() as int);
                }
            },
        }
    }

    /// Forget the SSH process for `host`, and hand it out.
    pub fn remove(&mut self, host: &String) -> (child: Option<TunnelState<K>>)
        requires
            old(self).wf(),
        ensures
            final(self).wf(),
            final(self)@ == old(self)@.remove(host@),
            final(self).path() == old(self).path(),
            final(self).in_foreground() == old(self).in_foreground(),
            match child {
                Some(t) => old(self)@.contains_key(host@) && t == old(self)@[host@],
                None => !old(self)@.contains_key(host@),
            },
    {
        let ghost before = self.children@;
        match self.find(host) {
            Some(i) => {
                proof {
                    lemma_listed(before, host@, i as int);
                }
                let (_, child) = self.children.remove(i);
                proof {
                    lemma_remove(before, self.children@, host@, i as int);
                }
                Some(child)
            },
            None => {
                proof {
                    assert(as_map(before).remove(host@) =~= as_map(before));
                }
                None
            },
        }
    }
}

/// Writing at the place of a host, or behind the list if it has none.
proof fn lemma_insert<K>(
    before: Seq<(String, TunnelState<K>)>,
    after: Seq<(String, TunnelState<K>)>,
    host: Seq<char>,
    child: TunnelState<K>,
    i: int,
)
    requires
        no_twins(before),
        0 <= i < after.len(),
        after[i].0@ == host,
        after[i].1 == child,
        i < before.len() ==> before[i].0@ == host && after.len() == before.len(),
        i >= before.len() ==> i == before.len() && after.len() == before.len() + 1 && forall|j: int|
            !listed_at(before, host, j),
        forall|j: int| 0 <= j < before.len() && j != i ==> after[j] == before[j],
    ensures
        no_twins(after),
        as_map(after) == as_map(before).insert(host, child),
{
    assert forall|j: int| 0 <= j < after.len() && j != i implies #[trigger] after[j].0@ != host by {
        assert(after[j] == before[j]);
        if after[j].0@ == host {
            assert(listed_at(before, host, j));
        }
    }
    assert forall|a: int, b: int|
        0 <= a < after.len() && 0 <= b < after.len() && #[trigger] after[a].0@
            == #[trigger] after[b].0@ implies a == b by {
        if a != i && b != i {
            assert(after[a] == before[a]);
            assert(after[b] == before[b]);
        }
    }
    let target = as_map(before).insert(host, child);
    assert forall|h: Seq<char>|
        #![trigger as_map(after).dom().contains(h)]
        #![trigger target.dom().contains(h)]
        as_map(after).dom().contains(h) == target.dom().contains(h) && (as_map(
            after,
        ).dom().contains(h) ==> as_map(after)[h] == target[h]) by {
        if h == host {
            assert(listed_at(after, h, i));
            lemma_listed(after, h, i);
        } else {
            if as_map(after).contains_key(h) {
                let j = choose|j: int| listed_at(after, h, j);
                assert(listed_at(after, h, j));
                assert(after[j] == before[j]);
                assert(listed_at(before, h, j));
                lemma_listed(after, h, j);
                lemma_listed(before, h, j);
            }
            if as_map(before).contains_key(h) {
                let j = choose|j: int| listed_at(before, h, j);
                assert(listed_at(before, h, j));
                assert(after[j] == before[j]);
                assert(listed_at(after, h, j));
            }
        }
    }
    assert(as_map(after) =~= target);
}

/// Taking a host out of the list.
proof fn lemma_remove<K>(
    before: Seq<(String, TunnelState<K>)>,
    after: Seq<(String, TunnelState<K>)>,
    host: Seq<char>,
    i: int,
)
    requires
        no_twins(before),
        listed_at(before, host, i),
        after == before.remove(i),
    ensures
        no_twins(after),
        as_map(after) == as_map(before).remove(host),
{
    assert forall|a: int, b: int|
        0 <= a < after.len() && 0 <= b < after.len() && #[trigger] after[a].0@
            == #[trigger] after[b].0@ implies a == b by {
        let x = if a < i { a } else { a + 1 };
        let y = if b < i { b } else { b + 1 };
        assert(after[a] == before[x]);
        assert(after[b] == before[y]);
    }
    let target = as_map(before).remove(host);
    assert forall|h: Seq<char>|
        #![trigger as_map(after).dom().contains(h)]
        #![trigger target.dom().contains(h)]
        as_map(after).dom().contains(h) == target.dom().contains(h) && (as_map(
            after,
        ).dom().contains(h) ==> as_map(after)[h] == target[h]) by {
        if as_map(after).contains_key(h) {
            let a = choose|a: int| listed_at(after, h, a);
            assert(listed_at(after, h, a));
            let x = if a < i { a } else { a + 1 };
            assert(after[a] == before[x]);
            assert(listed_at(before, h, x));
            lemma_listed(after, h, a);
            lemma_listed(before, h, x);
            if h == host {
                assert(before[x].0@ == before[i].0@);
            }
        }
        if h != host && as_map(before).contains_key(h) {
            let x = choose|x: int| listed_at(before, h, x);
            assert(listed_at(before, h, x));
            let a = if x < i { x } else { x - 1 };
            assert(after[a] == before[x]);
            assert(listed_at(after, h, a));
        }
    }
    assert(as_map(after) =~= target);
}

/// What the daemon needs done while it starts up.
#[derive(Debug, PartialEq)]
pub enum StartupRequest {
    /// Try to connect to the socket, to see if a daemon answers.
    Connect(Vec<u8>),
    /// Remove the socket's file.
    RemoveSocket(Vec<u8>),
    /// Set the umask. Then create the log file and go into the background; or
    /// stay in the foreground and log to the standard output, if there is no
    /// file named.
    OpenLog { umask: u32, file: Option<Vec<u8>> },
}

/// What a [`StartupRequest`] asks for.
pub enum StartupRequestView {
    Connect(Seq<u8>),
    RemoveSocket(Seq<u8>),
    OpenLog { umask: u32, file: Option<Seq<u8>> },
}

impl View for StartupRequest {
    type V = StartupRequestView;

    open spec fn view(&self) -> StartupRequestView {
        match self {
            StartupRequest::Connect(path) => StartupRequestView::Connect(path@),
            StartupRequest::RemoveSocket(path) => StartupRequestView::RemoveSocket(path@),
            StartupRequest::OpenLog { umask, file } => StartupRequestView::OpenLog {
                umask: *umask,
                file: match file {
                    Some(path) => Some(path@),
                    None => None,
                },
            },
        }
    }
}

/// What became of a [`StartupRequest`].
#[derive(Debug, PartialEq)]
pub enum StartupEvent {
    /// A daemon answered on the socket.
    Connected,
    /// Nobody answered on the socket.
    NotConnected,
    /// The socket's file is gone.
    Removed,
    /// There was no file to remove.
    NotFound,
    /// The socket's file could not be removed.
    RemoveFailed(String),
    /// The log is open, and the daemon is where it belongs.
    LogOpened,
    /// The log could not be opened, or the daemon not sent to the background.
    LogFailed(String),
}

/// Why the daemon does not start.
#[derive(Debug, PartialEq)]
pub enum StartupError {
    /// There is no home directory.
    NoHome(protocol::NoHomeDirectory),
    /// Another daemon is running.
    AlreadyRunning,
    /// The system refused something.
    System(String),
}

impl StartupError {
    /// What to tell the user.
    pub fn describe(&self) -> (text: String)
        ensures
            text@ == match self {
                StartupError::NoHome(_) => "unable to determine your home directory"@,
                StartupError::AlreadyRunning =>
                    "refusing to start: another daemon is already running"@,
                StartupError::System(cause) => cause@,
            },
    {
        match self {
            StartupError::NoHome(e) => e.describe(),
            StartupError::AlreadyRunning =>
                "refusing to start: another daemon is already running".to_owned(),
            StartupError::System(cause) => cause.clone(),
        }
    }
}

/// How far the start has come.
#[derive(Clone, Copy, Debug, Eq, PartialEq, Structural)]
pub enum StartupStage {
    /// Seeing if another daemon is running.
    Probing,
    /// Removing the socket that an earlier daemon left behind.
    Removing,
    /// Opening the log.
    OpeningLog,
}

/// A daemon that is starting up.
#[derive(Debug)]
pub struct Startup {
    pub opts: StundDaemonOptions,
    pub home: Vec<u8>,
    pub stage: StartupStage,
}

/// What comes next in the daemon's start.
#[derive(Debug)]
pub enum AfterStartup<K> {
    /// Something has to be done first.
    Ask(Startup, StartupRequest),
    /// The daemon is up, and may serve.
    Ready(State<K>),
    /// The daemon does not start.
    Failed(StartupError),
}

/// What to tell the user of a daemon that stays in the foreground.
pub const FOREGROUND_NOTICE: &'static str = "stund daemon: staying in foreground";

/// Nobody but the owner may use the files that the daemon creates.
pub const PRIVATE_UMASK: u32 = 0o177;

impl Startup {
    /// What has to be done at this stage.
    pub open spec fn asks(&self) -> StartupRequestView {
        match self.stage {
            StartupStage::Probing => StartupRequestView::Connect(
                protocol::socket_path(self.home@),
            ),
            StartupStage::Removing => StartupRequestView::RemoveSocket(
                protocol::socket_path(self.home@),
            ),
            StartupStage::OpeningLog => StartupRequestView::OpenLog {
                umask: PRIVATE_UMASK,
                file: if self.opts.foreground {
                    None
                } else {
                    Some(protocol::log_path(self.home@))
                },
            },
        }
    }

    /// The stage that follows on an event, if one does.
    pub open spec fn stage_after(stage: StartupStage, event: StartupEvent) -> Option<StartupStage> {
        match (stage, event) {
            (StartupStage::Probing, StartupEvent::NotConnected) => Some(StartupStage::Removing),
            (StartupStage::Removing, StartupEvent::Removed) => Some(StartupStage::OpeningLog),
            (StartupStage::Removing, StartupEvent::NotFound) => Some(StartupStage::OpeningLog),
            _ => None,
        }
    }

    /// Begin to start a daemon for the user whose home directory is known.
    pub fn begin_in(opts: StundDaemonOptions, home: Vec<u8>) -> (r: (Startup, StartupRequest))
        ensures
            r.0.opts == opts,
            r.0.home == home,
            r.0.stage == StartupStage::Probing,
            r.1@ == r.0.asks(),
    {
        let startup = Startup { opts, home, stage: StartupStage::Probing };
        let request = startup.request();
        (startup, request)
    }

    /// Begin to start a daemon for the current user.
    pub fn begin(opts: StundDaemonOptions) -> (r: Result<(Startup, StartupRequest), StartupError>)
        ensures
            match r {
                Ok((startup, request)) => {
                    &&& startup.opts == opts
                    &&& startup.home@.len() > 0
                    &&& startup.stage == StartupStage::Probing
                    &&& request@ == startup.asks()
                },
                Err(e) => e is NoHome,
            },
    {
        match protocol::home_dir() {
            Some(home) => Ok(Startup::begin_in(opts, home)),
            None => Err(StartupError::NoHome(protocol::NoHomeDirectory)),
        }
    }

    /// What has to be done at this stage.
    pub fn request(&self) -> (request: StartupRequest)
        ensures
            request@ == self.asks(),
    {
        match self.stage {
            StartupStage::Probing => StartupRequest::Connect(protocol::socket_path_in(&self.home)),
            StartupStage::Removing => StartupRequest::RemoveSocket(
                protocol::socket_path_in(&self.home),
            ),
            StartupStage::OpeningLog => {
                let file = if self.opts.foreground {
                    None
                } else {
                    Some(protocol::log_path_in(&self.home))
                };
                StartupRequest::OpenLog { umask: PRIVATE_UMASK, file }
            },
        }
    }

    /// Go on with the start. An event that is no answer to what was asked
    /// changes nothing.
    pub fn next<K>(self, event: StartupEvent) -> (after: AfterStartup<K>)
        ensures
            match (self.stage, event) {
                (StartupStage::Probing, StartupEvent::Connected) => after
                    == AfterStartup::<K>::Failed(StartupError::AlreadyRunning),
                (StartupStage::Removing, StartupEvent::RemoveFailed(cause)) => after
                    == AfterStartup::<K>::Failed(StartupError::System(cause)),
                (StartupStage::OpeningLog, StartupEvent::LogFailed(cause)) => after
                    == AfterStartup::<K>::Failed(StartupError::System(cause)),
                (StartupStage::OpeningLog, StartupEvent::LogOpened) => {
                    &&& after matches AfterStartup::Ready(state)
                    &&& state.wf()
                    &&& state@ == Map::<Seq<char>, TunnelState<K>>::empty()
                    &&& state.path() == protocol::socket_path(self.home@)
                    &&& state.in_foreground() == self.opts.foreground
                },
                _ => {
                    &&& after matches AfterStartup::Ask(startup, request)
                    &&& startup.opts == self.opts
                    &&& startup.home == self.home
                    &&& startup.stage == match Startup::stage_after(self.stage, event) {
                        Some(stage) => stage,
                        None => self.stage,
                    }
                    &&& request@ == startup.asks()
                },
            },
    {
        let stage = match (self.stage, event) {
            (StartupStage::Probing, StartupEvent::Connected) => {
                return AfterStartup::Failed(StartupError::AlreadyRunning);
            },
            (StartupStage::Probing, StartupEvent::NotConnected) => StartupStage::Removing,
            (StartupStage::Removing, StartupEvent::Removed) => StartupStage::OpeningLog,
            (StartupStage::Removing, StartupEvent::NotFound) => StartupStage::OpeningLog,
            (StartupStage::Removing, StartupEvent::RemoveFailed(cause)) => {
                return AfterStartup::Failed(StartupError::System(cause));
            },
            (StartupStage::OpeningLog, StartupEvent::LogFailed(cause)) => {
                return AfterStartup::Failed(StartupError::System(cause));
            },
            (StartupStage::OpeningLog, StartupEvent::LogOpened) => {
                let sock_path = protocol::socket_path_in(&self.home);
                return AfterStartup::Ready(State::new(self.opts, sock_path));
            },
            (stage, _) => stage,
        };
        let startup = Startup { opts: self.opts, home: self.home, stage };
        let request = startup.request();
        AfterStartup::Ask(startup, request)
    }
}

/// Whatever permissions a file is created with, under the daemon's umask the
/// group and others get none of them.
pub proof fn law_files_are_private(mode: u32)
    ensures
        (mode & !PRIVATE_UMASK) & 0o077 == 0,
{
    assert((mode & !0o177u32) & 0o077 == 0) by (bit_vector);
}

/// A signal on which the daemon exits.
#[derive(Clone, Copy, Debug, Eq, PartialEq, Structural)]
pub enum FatalSignal {
    Abort,
    Bus,
    Fpe,
    Hangup,
    Ill,
    Interrupt,
    Kill,
    Quit,
    Term,
    Trap,
}

/// Something that happens to a serving daemon.
#[derive(Clone, Copy, Debug, Eq, PartialEq, Structural)]
pub enum ServeEvent {
    /// A signal arrived.
    Signal(FatalSignal),
    /// A client connected.
    ClientConnected,
    /// No more clients can be accepted.
    AcceptFailed,
    /// A client's session ended as it should.
    SessionFinished { exit_on_close: bool },
    /// A client's session broke down.
    SessionFailed,
}

/// What a serving daemon does.
#[derive(Clone, Copy, Debug, Eq, PartialEq, Structural)]
pub enum ServeAction {
    /// Exit. The SSH processes exit too, when their terminal goes away.
    Exit,
    /// Start a session with the client.
    StartSession,
    /// Serve the clients that are connected, and no others.
    StopAccepting,
    /// Go on.
    GoOn,
}

impl<K> State<K> {
    /// Serve: exit on a signal, and after a session in which the client asked
    /// for it.
    pub fn serve(&self, event: ServeEvent) -> (action: ServeAction)
        ensures
            action is Exit <==> (event is Signal || event == (ServeEvent::SessionFinished {
                exit_on_close: true,
            })),
            action is StartSession <==> event is ClientConnected,
            action is StopAccepting <==> event is AcceptFailed,
    {
        match event {
            ServeEvent::Signal(_) => ServeAction::Exit,
            ServeEvent::ClientConnected => ServeAction::StartSession,
            ServeEvent::AcceptFailed => ServeAction::StopAccepting,
            ServeEvent::SessionFinished { exit_on_close } => if exit_on_close {
                ServeAction::Exit
            } else {
                ServeAction::GoOn
            },
            ServeEvent::SessionFailed => ServeAction::GoOn,
        }
    }
}

} // verus!
