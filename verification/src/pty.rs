//! Pseudo-terminals, and the child processes that run in them.

use vstd::prelude::*;

verus! {

/// The system call that is next, when a pseudo-terminal master is opened.
#[derive(Clone, Copy, Debug, Eq, PartialEq, Structural)]
pub enum OpenCall {
    /// `posix_openpt`, for reading and writing, not as the controlling terminal.
    OpenPt,
    /// `grantpt`.
    GrantPt,
    /// `unlockpt`.
    UnlockPt,
    /// `fcntl`, to get the file's flags.
    GetFlags,
    /// `fcntl`, to set the file's flags to these.
    SetFlags(i32),
}

/// What stands for a file as long as there is none.
pub const NO_FILE: i32 = -1;

/// A pseudo-terminal master that is being opened.
#[derive(Clone, Copy, Debug, Eq, PartialEq, Structural)]
pub struct Opening {
    /// The flag by which the file is made nonblocking, if it is to be.
    pub nonblock: Option<i32>,
    /// The file, once there is one.
    pub fd: i32,
    pub call: OpenCall,
}

/// What comes next, when a pseudo-terminal master is opened.
#[derive(Clone, Copy, Debug, Eq, PartialEq, Structural)]
pub enum AfterOpenCall {
    /// Make the next system call.
    Call(Opening),
    /// The master is open, as this file.
    Opened(i32),
    /// The last system call failed: report the system's error.
    Failed,
}

impl Opening {
    /// Before the first system call.
    pub open spec fn start(nonblock: Option<i32>) -> Opening {
        Opening { nonblock, fd: NO_FILE, call: OpenCall::OpenPt }
    }

    /// What comes next, when the system call returns `r`.
    pub open spec fn step(self, r: i32) -> AfterOpenCall {
        match self.call {
            OpenCall::OpenPt => if r < 0 {
                AfterOpenCall::Failed
            } else {
                AfterOpenCall::Call(Opening { fd: r, call: OpenCall::GrantPt, ..self })
            },
            OpenCall::GrantPt => if r != 0 {
                AfterOpenCall::Failed
            } else {
                AfterOpenCall::Call(Opening { call: OpenCall::UnlockPt, ..self })
            },
            OpenCall::UnlockPt => if r != 0 {
                AfterOpenCall::Failed
            } else if self.nonblock is Some {
                AfterOpenCall::Call(Opening { call: OpenCall::GetFlags, ..self })
            } else {
                AfterOpenCall::Opened(self.fd)
            },
            OpenCall::GetFlags => if r < 0 {
                AfterOpenCall::Failed
            } else {
                match self.nonblock {
                    Some(flag) => AfterOpenCall::Call(
                        Opening { call: OpenCall::SetFlags(r | flag), ..self },
                    ),
                    None => AfterOpenCall::Opened(self.fd),
                }
            },
            OpenCall::SetFlags(_) => if r < 0 {
                AfterOpenCall::Failed
            } else {
                AfterOpenCall::Opened(self.fd)
            },
        }
    }

    /// What comes of it, when the system calls return `results`, one after the
    /// other, as far as they are made.
    pub open spec fn run(self, results: Seq<i32>) -> AfterOpenCall
        decreases results.len(),
    {
        if results.len() == 0 {
            AfterOpenCall::Call(self)
        } else {
            match self.step(results[0]) {
                AfterOpenCall::Call(next) => next.run(results.skip(1)),
                end => end,
            }
        }
    }

    /// Begin to open a master. With a flag, the file is made nonblocking.
    pub fn begin(nonblock: Option<i32>) -> (opening: Opening)
        ensures
            opening == Opening::start(nonblock),
    {
        Opening { nonblock, fd: NO_FILE, call: OpenCall::OpenPt }
    }

    /// Go on when the system call returned `r`.
    pub fn returned(self, r: i32) -> (after: AfterOpenCall)
        ensures
            after == self.step(r),
    {
        let next = match self.call {
            OpenCall::OpenPt => {
                if r < 0 {
                    return AfterOpenCall::Failed;
                }
                Opening { nonblock: self.nonblock, fd: r, call: OpenCall::GrantPt }
            },
            OpenCall::GrantPt => {
                if r != 0 {
                    return AfterOpenCall::Failed;
                }
                Opening { nonblock: self.nonblock, fd: self.fd, call: OpenCall::UnlockPt }
            },
            OpenCall::UnlockPt => {
                if r != 0 {
                    return AfterOpenCall::Failed;
                }
                if self.nonblock.is_none() {
                    return AfterOpenCall::Opened(self.fd);
                }
                Opening { nonblock: self.nonblock, fd: self.fd, call: OpenCall::GetFlags }
            },
            OpenCall::GetFlags => {
                if r < 0 {
                    return AfterOpenCall::Failed;
                }
                match self.nonblock {
                    Some(flag) => Opening {
                        nonblock: self.nonblock,
                        fd: self.fd,
                        call: OpenCall::SetFlags(r | flag),
                    },
                    None => {
                        return AfterOpenCall::Opened(self.fd);
                    },
                }
            },
            OpenCall::SetFlags(_) => {
                if r < 0 {
                    return AfterOpenCall::Failed;
                }
                return AfterOpenCall::Opened(self.fd);
            },
        };
        AfterOpenCall::Call(next)
    }
}

/// A master that stays blocking is open once it was opened, granted and
/// unlocked, and not before. What is open is the file that was opened first.
pub proof fn law_blocking_master(results: Seq<i32>)
    ensures
        Opening::start(None).run(results) matches AfterOpenCall::Opened(fd) ==> {
            &&& results.len() >= 3
            &&& fd == results[0]
            &&& fd >= 0
            &&& results[1] == 0
            &&& results[2] == 0
        },
        results.len() >= 3 && results[0] >= 0 && results[1] == 0 && results[2] == 0
            ==> Opening::start(None).run(results) == AfterOpenCall::Opened(results[0]),
{
    reveal_with_fuel(Opening::run, 4);
}

/// A master is nonblocking once it was opened, granted and unlocked, and its
/// flags, with the nonblocking flag added to them, have been set; not before.
pub proof fn law_nonblocking_master(flag: i32, results: Seq<i32>)
    ensures
        Opening::start(Some(flag)).run(results) matches AfterOpenCall::Opened(fd) ==> {
            &&& results.len() >= 5
            &&& fd == results[0]
            &&& fd >= 0
            &&& results[1] == 0
            &&& results[2] == 0
            &&& results[3] >= 0
            &&& results[4] >= 0
            &&& Opening::start(Some(flag)).run(results.take(4)) matches AfterOpenCall::Call(next)
            &&& next.call == OpenCall::SetFlags(results[3] | flag)
        },
        results.len() >= 5 && results[0] >= 0 && results[1] == 0 && results[2] == 0 && results[3]
            >= 0 && results[4] >= 0 ==> Opening::start(Some(flag)).run(results)
            == AfterOpenCall::Opened(results[0]),
{
    reveal_with_fuel(Opening::run, 6);
    if results.len() >= 5 {
        let t = results.take(4);
        assert(t.skip(1).skip(1).skip(1).skip(1).len() == 0);
    }
}

/// The most bytes that the name of a pseudo-terminal slave may take.
pub const PTS_NAME_CAPACITY: usize = 512;

/// Read the name of a slave out of the buffer that the system wrote it to, up
/// to the zero byte behind it.
pub fn pts_name(buf: &[u8]) -> (name: Vec<u8>)
    requires
        buf@.contains(0),
    ensures
        name@.len() < buf@.len(),
        name@ == buf@.take(name@.len() as int),
        !name@.contains(0),
        buf@[name@.len() as int] == 0,
{
    let mut name: Vec<u8> = Vec::new();
    let mut i: usize = 0;
    proof {
        let end = choose|k: int| 0 <= k < buf@.len() && buf@[k] == 0;
        assert(0 <= end < buf@.len());
    }
    while i < buf.len() && buf[i] != 0
        invariant
            i <= buf.len(),
            buf@.contains(0),
            name@ == buf@.take(i as int),
            forall|k: int| 0 <= k < i ==> buf@[k] != 0,
        decreases buf.len() - i,
    {
        name.push(buf[i]);
        proof {
            assert(name@ =~= buf@.take(i + 1));
        }
        i = i + 1;
    }
    name
}

/// The system call that is next, in a child process that is about to run its
/// program in a pseudo-terminal.
#[derive(Clone, Copy, Debug, Eq, PartialEq, Structural)]
pub enum SetupCall {
    /// `tcgetattr` on the slave.
    GetAttributes,
    /// `cfmakeraw` and `tcsetattr` on the slave, at once.
    SetRaw,
    /// `close` on the master, which is the parent's business.
    CloseMaster,
    /// `setsid`.
    NewSession,
    /// `ioctl`, to make the slave the controlling terminal.
    ControlTerminal,
}

/// What comes next in a child process.
#[derive(Clone, Copy, Debug, Eq, PartialEq, Structural)]
pub enum AfterSetupCall {
    /// Make the next system call.
    Call(SetupCall),
    /// Run the program.
    Ready,
    /// The last system call failed: report the system's error.
    Failed,
}

impl SetupCall {
    /// The first system call. The slave is set to raw mode only if `raw` says
    /// so.
    pub open spec fn first(raw: bool) -> SetupCall {
        if raw {
            SetupCall::GetAttributes
        } else {
            SetupCall::CloseMaster
        }
    }

    /// Whether the system call failed, as it returned `r`.
    pub open spec fn fails(self, r: i32) -> bool {
        match self {
            SetupCall::NewSession => r < 0,
            _ => r != 0,
        }
    }

    /// The system call after this one.
    pub open spec fn following(self) -> Option<SetupCall> {
        match self {
            SetupCall::GetAttributes => Some(SetupCall::SetRaw),
            SetupCall::SetRaw => Some(SetupCall::CloseMaster),
            SetupCall::CloseMaster => Some(SetupCall::NewSession),
            SetupCall::NewSession => Some(SetupCall::ControlTerminal),
            SetupCall::ControlTerminal => None,
        }
    }

    /// How many system calls may follow.
    pub open spec fn rank(self) -> nat {
        match self {
            SetupCall::GetAttributes => 4,
            SetupCall::SetRaw => 3,
            SetupCall::CloseMaster => 2,
            SetupCall::NewSession => 1,
            SetupCall::ControlTerminal => 0,
        }
    }

    /// This system call and all that follow, if none fails.
    pub open spec fn calls(self) -> Seq<SetupCall>
        decreases self.rank(),
    {
        match self.following() {
            Some(call) => seq![self] + call.calls(),
            None => seq![self],
        }
    }

    /// Begin to set up a child process.
    pub fn begin(raw: bool) -> (call: SetupCall)
        ensures
            call == SetupCall::first(raw),
    {
        if raw {
            SetupCall::GetAttributes
        } else {
            SetupCall::CloseMaster
        }
    }

    /// Go on when the system call returned `r`.
    pub fn returned(self, r: i32) -> (after: AfterSetupCall)
        ensures
            after == if self.fails(r) {
                AfterSetupCall::Failed
            } else {
                match self.following() {
                    Some(call) => AfterSetupCall::Call(call),
                    None => AfterSetupCall::Ready,
                }
            },
    {
        match self {
            SetupCall::GetAttributes => if r != 0 {
                AfterSetupCall::Failed
            } else {
                AfterSetupCall::Call(SetupCall::SetRaw)
            },
            SetupCall::SetRaw => if r != 0 {
                AfterSetupCall::Failed
            } else {
                AfterSetupCall::Call(SetupCall::CloseMaster)
            },
            SetupCall::CloseMaster => if r != 0 {
                AfterSetupCall::Failed
            } else {
                AfterSetupCall::Call(SetupCall::NewSession)
            },
            SetupCall::NewSession => if r < 0 {
                AfterSetupCall::Failed
            } else {
                AfterSetupCall::Call(SetupCall::ControlTerminal)
            },
            SetupCall::ControlTerminal => if r != 0 {
                AfterSetupCall::Failed
            } else {
                AfterSetupCall::Ready
            },
        }
    }
}

/// What is next, when a program is started in a pseudo-terminal. The child
/// process is set up by system calls of its own before it runs the program.
#[derive(Clone, Copy, Debug, Eq, PartialEq, Structural)]
pub enum SpawnStep {
    /// Open the slave.
    OpenSlave,
    /// Make a handle of the slave the program's standard input.
    Stdin,
    /// Make a handle of the slave the program's standard output.
    Stdout,
    /// Make the slave the program's standard error.
    Stderr,
    /// Start the child process, with this as the first call of its set-up.
    Spawn(SetupCall),
}

/// What comes next, when a program is started in a pseudo-terminal.
#[derive(Clone, Copy, Debug, Eq, PartialEq, Structural)]
pub enum AfterSpawnStep {
    /// Take the next step.
    Step(SpawnStep),
    /// The program has been started.
    Spawned,
    /// The last step failed: report its error.
    Failed,
}

/// A program that is being started in a pseudo-terminal. With `raw`, the slave
/// is set to raw mode.
#[derive(Clone, Copy, Debug, Eq, PartialEq, Structural)]
pub struct Spawning {
    pub raw: bool,
    pub step: SpawnStep,
}

impl Spawning {
    /// The step after this one, if there is one.
    pub open spec fn following(self) -> Option<SpawnStep> {
        match self.step {
            SpawnStep::OpenSlave => Some(SpawnStep::Stdin),
            SpawnStep::Stdin => Some(SpawnStep::Stdout),
            SpawnStep::Stdout => Some(SpawnStep::Stderr),
            SpawnStep::Stderr => Some(SpawnStep::Spawn(SetupCall::first(self.raw))),
            SpawnStep::Spawn(_) => None,
        }
    }

    /// How many steps may follow.
    pub open spec fn rank(self) -> nat {
        match self.step {
            SpawnStep::OpenSlave => 4,
            SpawnStep::Stdin => 3,
            SpawnStep::Stdout => 2,
            SpawnStep::Stderr => 1,
            SpawnStep::Spawn(_) => 0,
        }
    }

    /// This step and all that follow, if none fails.
    pub open spec fn steps(self) -> Seq<SpawnStep>
        decreases self.rank(),
    {
        match self.following() {
            Some(step) => seq![self.step] + Spawning { step, ..self }.steps(),
            None => seq![self.step],
        }
    }

    /// Begin to start a program, in a slave that is set to raw mode.
    pub fn spawn_pty_async() -> (spawning: Spawning)
        ensures
            spawning == (Spawning { raw: true, step: SpawnStep::OpenSlave }),
    {
        Spawning { raw: true, step: SpawnStep::OpenSlave }
    }

    /// Begin to start a program, in a slave that is left as it is.
    pub fn spawn_pty_async_pristine() -> (spawning: Spawning)
        ensures
            spawning == (Spawning { raw: false, step: SpawnStep::OpenSlave }),
    {
        Spawning { raw: false, step: SpawnStep::OpenSlave }
    }

    /// Go on when the step succeeded, or not.
    pub fn next(self, success: bool) -> (after: AfterSpawnStep)
        ensures
            after == if !success {
                AfterSpawnStep::Failed
            } else {
                match self.following() {
                    Some(step) => AfterSpawnStep::Step(step),
                    None => AfterSpawnStep::Spawned,
                }
            },
    {
        if !success {
            return AfterSpawnStep::Failed;
        }
        match self.step {
            SpawnStep::OpenSlave => AfterSpawnStep::Step(SpawnStep::Stdin),
            SpawnStep::Stdin => AfterSpawnStep::Step(SpawnStep::Stdout),
            SpawnStep::Stdout => AfterSpawnStep::Step(SpawnStep::Stderr),
            SpawnStep::Stderr => AfterSpawnStep::Step(
                SpawnStep::Spawn(SetupCall::begin(self.raw)),
            ),
            SpawnStep::Spawn(_) => AfterSpawnStep::Spawned,
        }
    }
}

/// A program starts with its three standard streams on the slave, in either
/// mode. Its child process leaves the master, begins a session and takes the
/// slave as the controlling terminal; in raw mode it sets the slave to that
/// before, and else it makes no other call: the slave's attributes are left as
/// they were.
pub proof fn law_pristine_differs_in_raw_mode_only()
    ensures
        forall|raw: bool|
            (#[trigger] Spawning { raw, step: SpawnStep::OpenSlave }.steps()) == seq![
                SpawnStep::OpenSlave,
                SpawnStep::Stdin,
                SpawnStep::Stdout,
                SpawnStep::Stderr,
                SpawnStep::Spawn(SetupCall::first(raw)),
            ],
        SetupCall::first(false).calls() == seq![
            SetupCall::CloseMaster,
            SetupCall::NewSession,
            SetupCall::ControlTerminal,
        ],
        SetupCall::first(true).calls() == seq![SetupCall::GetAttributes, SetupCall::SetRaw]
            + SetupCall::first(false).calls(),
{
    assert forall|raw: bool|
        (#[trigger] Spawning { raw, step: SpawnStep::OpenSlave }.steps()) == seq![
            SpawnStep::OpenSlave,
            SpawnStep::Stdin,
            SpawnStep::Stdout,
            SpawnStep::Stderr,
            SpawnStep::Spawn(SetupCall::first(raw)),
        ] by {
        reveal_with_fuel(Spawning::steps, 6);
        assert(Spawning { raw, step: SpawnStep::OpenSlave }.steps() =~= seq![
            SpawnStep::OpenSlave,
            SpawnStep::Stdin,
            SpawnStep::Stdout,
            SpawnStep::Stderr,
            SpawnStep::Spawn(SetupCall::first(raw)),
        ]);
    }
    reveal_with_fuel(SetupCall::calls, 6);
    assert(SetupCall::first(false).calls() =~= seq![
        SetupCall::CloseMaster,
        SetupCall::NewSession,
        SetupCall::ControlTerminal,
    ]);
    assert(SetupCall::first(true).calls() =~= seq![SetupCall::GetAttributes, SetupCall::SetRaw]
        + SetupCall::first(false).calls());
}

/// A child process in a pseudo-terminal.
#[derive(Debug)]
pub struct Child {
    pid: u32,
    kill_on_drop: bool,
    reaped: bool,
}

/// What became of a child process.
#[derive(Clone, Copy, Debug, Eq, PartialEq, Structural)]
pub enum WaitOutcome {
    /// It has not exited yet.
    NotYet,
    /// The wait was interrupted: wait again.
    Retry,
    /// The wait failed: report the system's error.
    Failed,
    /// It has exited, with this raw status.
    Exited(i32),
}

/// What `waitpid` returned, without waiting: the process or an error code; if
/// the latter, whether the wait was interrupted; and if the former, the
/// status that it left.
#[derive(Clone, Copy, Debug, Eq, PartialEq, Structural)]
pub struct WaitResult {
    pub n: i32,
    pub interrupted: bool,
    pub status: i32,
}

impl WaitResult {
    /// What became of the child process.
    pub open spec fn outcome(self) -> WaitOutcome {
        if self.n == 0 {
            WaitOutcome::NotYet
        } else if self.n > 0 {
            WaitOutcome::Exited(self.status)
        } else if self.interrupted {
            WaitOutcome::Retry
        } else {
            WaitOutcome::Failed
        }
    }
}

/// What happened, while the exit of a child process is awaited.
#[derive(Clone, Copy, Debug, Eq, PartialEq, Structural)]
pub enum ExitEvent {
    /// It is time to look again.
    Wake,
    /// `waitpid` returned.
    Waited(WaitResult),
    /// Some child process may have changed.
    SignalReady,
    /// No signal has come in.
    SignalNotReady,
    /// The signals cannot be received.
    SignalFailed,
}

/// What comes next, while the exit of a child process is awaited.
#[derive(Clone, Copy, Debug, Eq, PartialEq, Structural)]
pub enum ExitStep {
    /// Call `waitpid`.
    Wait,
    /// See if a signal has come in.
    PollSignal,
    /// Wait for a signal.
    NotReady,
    /// The process exited, with this raw status.
    Ready(i32),
    /// The last call failed: report the error.
    Failed,
}

impl ExitStep {
    /// What comes next.
    pub open spec fn after(event: ExitEvent) -> ExitStep {
        match event {
            ExitEvent::Wake => ExitStep::Wait,
            ExitEvent::Waited(result) => match result.outcome() {
                WaitOutcome::NotYet => ExitStep::PollSignal,
                WaitOutcome::Retry => ExitStep::Wait,
                WaitOutcome::Failed => ExitStep::Failed,
                WaitOutcome::Exited(status) => ExitStep::Ready(status),
            },
            ExitEvent::SignalReady => ExitStep::Wait,
            ExitEvent::SignalNotReady => ExitStep::NotReady,
            ExitEvent::SignalFailed => ExitStep::Failed,
        }
    }
}

impl Child {
    /// The process identifier.
    pub closed spec fn pid(&self) -> u32 {
        self.pid
    }

    /// Whether the exit of the process has been seen. Its identifier may belong
    /// to another process by now.
    pub closed spec fn is_reaped(&self) -> bool {
        self.reaped
    }

    /// Whether the process is not to outlive the value.
    pub closed spec fn kills_on_drop(&self) -> bool {
        self.kill_on_drop
    }

    /// A process that was just started.
    pub fn new(pid: u32) -> (child: Child)
        ensures
            child.pid() == pid,
            !child.is_reaped(),
            child.kills_on_drop(),
    {
        Child { pid, kill_on_drop: true, reaped: false }
    }

    /// Returns the OS-assigned process identifier associated with this child.
    pub fn id(&self) -> (pid: u32)
        ensures
            pid == self.pid(),
    {
        self.pid
    }

    /// Whether the child has been seen to exit.
    pub fn has_exited(&self) -> (exited: bool)
        ensures
            exited == self.is_reaped(),
    {
        self.reaped
    }

    /// Forces the child to exit: whether a signal has to be sent for that. A
    /// process that has been reaped is never sent one.
    pub fn kill(&self) -> (send_signal: bool)
        ensures
            send_signal == !self.is_reaped(),
    {
        if self.reaped {
            false
        } else {
            true
        }
    }

    /// Let the process live on without this value.
    pub fn forget(self) -> (child: Child)
        ensures
            !child.kills_on_drop(),
            child.pid() == self.pid(),
            child.is_reaped() == self.is_reaped(),
    {
        Child { pid: self.pid, kill_on_drop: false, reaped: self.reaped }
    }

    /// The value is about to go: whether a signal has to be sent to the process.
    pub fn dropped(&self) -> (send_signal: bool)
        ensures
            send_signal == (self.kills_on_drop() && !self.is_reaped()),
    {
        if self.kill_on_drop {
            self.kill()
        } else {
            false
        }
    }

    /// What became of the process, by what `waitpid` returned for it.
    fn try_wait(&self, result: WaitResult) -> (outcome: WaitOutcome)
        requires
            result.n > 0 ==> result.n == self.pid(),
        ensures
            outcome == result.outcome(),
    {
        if result.n == 0 {
            WaitOutcome::NotYet
        } else if result.n < 0 {
            if result.interrupted {
                WaitOutcome::Retry
            } else {
                WaitOutcome::Failed
            }
        } else {
            WaitOutcome::Exited(result.status)
        }
    }

    /// Check whether this child has exited yet. It must not have been seen to
    /// exit before, and `waitpid` tells of no other process.
    pub fn poll_exit(&mut self, event: ExitEvent) -> (step: ExitStep)
        requires
            !old(self).is_reaped(),
            event matches ExitEvent::Waited(result) ==> result.n > 0 ==> result.n == old(
                self,
            ).pid(),
        ensures
            step == ExitStep::after(event),
            final(self).is_reaped() == (step is Ready),
            final(self).pid() == old(self).pid(),
            final(self).kills_on_drop() == old(self).kills_on_drop(),
    {
        match event {
            ExitEvent::Wake => ExitStep::Wait,
            ExitEvent::Waited(result) => match self.try_wait(result) {
                WaitOutcome::NotYet => ExitStep::PollSignal,
                WaitOutcome::Retry => ExitStep::Wait,
                WaitOutcome::Failed => ExitStep::Failed,
                WaitOutcome::Exited(status) => {
                    self.reaped = true;
                    ExitStep::Ready(status)
                },
            },
            ExitEvent::SignalReady => ExitStep::Wait,
            ExitEvent::SignalNotReady => ExitStep::NotReady,
            ExitEvent::SignalFailed => ExitStep::Failed,
        }
    }
}

/// The kind of an I/O error.
#[derive(Clone, Copy, Debug, Eq, PartialEq, Structural)]
pub enum IoErrorKind {
    /// The operation would have to wait: it may be tried again.
    WouldBlock,
    /// Anything else.
    Other,
}

/// An I/O error.
#[derive(Debug, PartialEq)]
pub struct IoError {
    pub kind: IoErrorKind,
    pub text: String,
}

/// The error of an operation that would have to wait.
pub fn would_block() -> (error: IoError)
    ensures
        error.kind == IoErrorKind::WouldBlock,
        error.text@ == "would block"@,
{
    IoError { kind: IoErrorKind::WouldBlock, text: "would block".to_owned() }
}

/// What one half of a master that is split in two does, when the other half
/// may hold it.
#[derive(Debug, PartialEq)]
pub enum HalfStep {
    /// Use the master.
    Proceed,
    /// Report that it is not ready, and be woken once it is.
    NotReady,
    /// Fail.
    Failed(IoError),
}

impl HalfStep {
    /// Whether this is to use the master, or else to fail as it would have to
    /// be waited for.
    pub open spec fn at_once(self, locked: bool) -> bool {
        if locked {
            self == HalfStep::Proceed
        } else {
            &&& self matches HalfStep::Failed(error)
            &&& error.kind == IoErrorKind::WouldBlock
            &&& error.text@ == "would block"@
        }
    }

    /// Whether this is to use the master, or else to wait for it.
    pub open spec fn when_ready(self, locked: bool) -> bool {
        self == if locked {
            HalfStep::Proceed
        } else {
            HalfStep::NotReady
        }
    }
}

/// What a half does to use the master at once, if it could lock it or not.
fn half_at_once(locked: bool) -> (step: HalfStep)
    ensures
        step.at_once(locked),
{
    if locked {
        HalfStep::Proceed
    } else {
        HalfStep::Failed(would_block())
    }
}

/// What a half does to use the master when it can.
fn half_when_ready(locked: bool) -> (step: HalfStep)
    ensures
        step.when_ready(locked),
{
    if locked {
        HalfStep::Proceed
    } else {
        HalfStep::NotReady
    }
}

/// The file that stands for a half, if that can be told.
#[derive(Clone, Copy, Debug, Eq, PartialEq, Structural)]
pub enum FdPoll {
    Ready(i32),
    NotReady,
}

/// Read half of a master.
#[derive(Clone, Copy, Debug, Eq, PartialEq, Structural)]
pub struct AsyncPtyMasterReadHalf {
    /// The master's file.
    pub fd: i32,
}

/// Write half of a master.
#[derive(Clone, Copy, Debug, Eq, PartialEq, Structural)]
pub struct AsyncPtyMasterWriteHalf {
    /// The master's file.
    pub fd: i32,
}

/// Split a master, which has this file, into halves that share it. In what the
/// halves do, `locked` says if the master could be locked.
pub fn split(fd: i32) -> (halves: (AsyncPtyMasterReadHalf, AsyncPtyMasterWriteHalf))
    ensures
        halves.0.fd == fd,
        halves.1.fd == fd,
{
    (AsyncPtyMasterReadHalf { fd }, AsyncPtyMasterWriteHalf { fd })
}

/// The file of a half: the master's, once it can be locked.
pub open spec fn half_fd(fd: i32, locked: bool) -> FdPoll {
    if locked {
        FdPoll::Ready(fd)
    } else {
        FdPoll::NotReady
    }
}

impl AsyncPtyMasterReadHalf {
    /// The file that stands for this half.
    pub fn as_async_pty_fd(&self, locked: bool) -> (poll: FdPoll)
        ensures
            poll == half_fd(self.fd, locked),
    {
        if locked {
            FdPoll::Ready(self.fd)
        } else {
            FdPoll::NotReady
        }
    }

    /// Read at once.
    pub fn read(&self, locked: bool) -> (step: HalfStep)
        ensures
            step.at_once(locked),
    {
        half_at_once(locked)
    }

    /// Read when there is something to read.
    pub fn read_buf(&self, locked: bool) -> (step: HalfStep)
        ensures
            step.when_ready(locked),
    {
        half_when_ready(locked)
    }
}

impl AsyncPtyMasterWriteHalf {
    /// The file that stands for this half.
    pub fn as_async_pty_fd(&self, locked: bool) -> (poll: FdPoll)
        ensures
            poll == half_fd(self.fd, locked),
    {
        if locked {
            FdPoll::Ready(self.fd)
        } else {
            FdPoll::NotReady
        }
    }

    /// Write at once.
    pub fn write(&self, locked: bool) -> (step: HalfStep)
        ensures
            step.at_once(locked),
    {
        half_at_once(locked)
    }

    /// Flush at once.
    pub fn flush(&self, locked: bool) -> (step: HalfStep)
        ensures
            step.at_once(locked),
    {
        half_at_once(locked)
    }

    /// Shut down when possible.
    pub fn shutdown(&self, locked: bool) -> (step: HalfStep)
        ensures
            step.when_ready(locked),
    {
        half_when_ready(locked)
    }

    /// Write when possible.
    pub fn write_buf(&self, locked: bool) -> (step: HalfStep)
        ensures
            step.when_ready(locked),
    {
        half_when_ready(locked)
    }
}

/// Both halves of a master stand for its one file, and tell it whenever the
/// other half does not hold the master.
pub proof fn law_halves_share_the_master(
    fd: i32,
    halves: (AsyncPtyMasterReadHalf, AsyncPtyMasterWriteHalf),
    locked: bool,
)
    requires
        halves.0.fd == fd,
        halves.1.fd == fd,
    ensures
        half_fd(halves.0.fd, locked) == half_fd(halves.1.fd, locked),
        half_fd(halves.0.fd, true) == FdPoll::Ready(fd),
        half_fd(halves.0.fd, false) == FdPoll::NotReady,
{
}

} // verus!
