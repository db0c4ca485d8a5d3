//! The command line: what each command asks of the daemon, and what it tells
//! the user about the outcome.

use vstd::prelude::*;

use crate::protocol::{
    CloseParameters, CloseResult, OpenParameters, OpenResult, StatusInformation, TunnelInformation,
    TunnelState,
};

verus! {

/// The `close` command: close an existing SSH tunnel.
#[derive(Debug, PartialEq)]
pub struct StundCloseOptions {
    /// The host for which the tunnel should be closed.
    pub host: String,
}

/// The `daemon` command: start the daemon that manages the tunnels.
#[derive(Clone, Copy, Debug, Eq, PartialEq, Structural)]
pub struct StundDaemonOptions {
    /// Stay in the foreground and log to the standard output.
    pub foreground: bool,
}

/// The `exit` command: tell the daemon to shut down.
#[derive(Debug, PartialEq)]
pub struct StundExitOptions {}

/// The `open` command: open a new SSH tunnel.
#[derive(Debug, PartialEq)]
pub struct StundOpenOptions {
    /// The host for which the tunnel should be opened.
    pub host: String,
    /// Suppress low-importance UI messages.
    pub quiet: bool,
    /// Do not try to read any user input when logging in.
    pub no_input: bool,
    /// If specified, exec this command after opening the tunnel.
    pub after_command: Vec<String>,
}

/// The `status` command: get information about known SSH tunnels.
#[derive(Debug, PartialEq)]
pub struct StundStatusOptions {}

/// A command line.
#[derive(Debug, PartialEq)]
pub enum StundCli {
    Close(StundCloseOptions),
    Daemon(StundDaemonOptions),
    Exit(StundExitOptions),
    Open(StundOpenOptions),
    Status(StundStatusOptions),
}

/// What a command begins with.
#[derive(Debug, PartialEq)]
pub enum CliRequest {
    /// Be the daemon.
    Serve(StundDaemonOptions),
    /// Connect to the daemon, and launch it if it is not running; then send a
    /// command.
    Establish(Command),
    /// Connect to the daemon if it is running; then send a command.
    TryEstablish(Command),
}

/// A command for the daemon.
#[derive(Debug, PartialEq)]
pub enum Command {
    Close(CloseParameters),
    Exit,
    /// While the user takes part in the login, the terminal shows SSH's output.
    /// Otherwise that output is dropped.
    Open { params: OpenParameters, read_input: bool },
    QueryStatus,
}

/// One of the things that a command does at its end, in their order.
#[derive(Debug, PartialEq)]
pub enum CliAction {
    /// Print a line.
    Print(String),
    /// Say goodbye to the daemon, and fail if that fails.
    Disconnect,
    /// Become another program, with arguments. If that fails, the command
    /// fails, with [`EXEC_FAILED`] as the first cause.
    Exec { program: String, args: Vec<String> },
    /// Exit with this code.
    Exit(i32),
}

/// What a `daemon` command does once it has tried to start the daemon.
#[derive(Debug, PartialEq)]
pub enum DaemonStep<S, E> {
    /// Serve.
    Serve(S),
    /// Fail, without serving.
    Failed(E),
}

/// What to say if the program to run after opening a tunnel cannot be run.
pub const EXEC_FAILED: &'static str = "failed to exec post-open command";

/// What a [`CliRequest`] asks for.
pub enum CliRequestView {
    Serve(StundDaemonOptions),
    Establish(CommandView),
    TryEstablish(CommandView),
}

/// What a [`Command`] says.
pub enum CommandView {
    Close(Seq<char>),
    Exit,
    Open { host: Seq<char>, read_input: bool },
    QueryStatus,
}

/// What a [`CliAction`] says.
pub enum CliActionView {
    Print(Seq<char>),
    Disconnect,
    Exec { program: Seq<char>, args: Seq<Seq<char>> },
    Exit(i32),
}

impl View for Command {
    type V = CommandView;

    open spec fn view(&self) -> CommandView {
        match self {
            Command::Close(params) => CommandView::Close(params.host@),
            Command::Exit => CommandView::Exit,
            Command::Open { params, read_input } => CommandView::Open {
                host: params.host@,
                read_input: *read_input,
            },
            Command::QueryStatus => CommandView::QueryStatus,
        }
    }
}

impl View for CliRequest {
    type V = CliRequestView;

    open spec fn view(&self) -> CliRequestView {
        match self {
            CliRequest::Serve(opts) => CliRequestView::Serve(*opts),
            CliRequest::Establish(command) => CliRequestView::Establish(command@),
            CliRequest::TryEstablish(command) => CliRequestView::TryEstablish(command@),
        }
    }
}

impl View for CliAction {
    type V = CliActionView;

    open spec fn view(&self) -> CliActionView {
        match self {
            CliAction::Print(line) => CliActionView::Print(line@),
            CliAction::Disconnect => CliActionView::Disconnect,
            CliAction::Exec { program, args } => CliActionView::Exec {
                program: program@,
                args: texts(args@),
            },
            CliAction::Exit(code) => CliActionView::Exit(*code),
        }
    }
}

/// What some strings say.
pub open spec fn texts(strings: Seq<String>) -> Seq<Seq<char>> {
    strings.map_values(|s: String| s@)
}

/// What some actions say.
pub open spec fn plan(actions: Seq<CliAction>) -> Seq<CliActionView> {
    actions.map_values(|a: CliAction| a@)
}

/// The line that says that there was nothing to close.
pub open spec fn nothing_closed_line(host: Seq<char>) -> Seq<char> {
    "[No tunnel for \""@ + host + "\" was open.]"@
}

/// What a `close` command does at its end.
pub open spec fn close_plan(host: Seq<char>, result: CloseResult) -> Seq<CliActionView> {
    match result {
        CloseResult::Success => seq![CliActionView::Disconnect, CliActionView::Exit(0)],
        CloseResult::NotOpen => seq![
            CliActionView::Print(nothing_closed_line(host)),
            CliActionView::Disconnect,
            CliActionView::Exit(0),
        ],
    }
}

/// The line that tells the outcome of an `open` command.
pub open spec fn open_line(result: OpenResult) -> Seq<char> {
    match result {
        OpenResult::Success => "[Tunnel successfully opened.]"@,
        OpenResult::AlreadyOpen => "[Tunnel is already open.]"@,
    }
}

/// How the terminal's echo is switched before the login dialogue: off, if the
/// user takes part in it.
pub open spec fn echo_before(read_input: bool) -> Option<bool> {
    if read_input {
        Some(false)
    } else {
        None
    }
}

/// How the terminal's echo is switched after the login dialogue, whatever came
/// of that: on, if the user took part in it.
pub open spec fn echo_after(read_input: bool) -> Option<bool> {
    if read_input {
        Some(true)
    } else {
        None
    }
}

/// The echo is switched off exactly if the user takes part in the login
/// dialogue, and switched on again exactly if it was switched off.
pub proof fn law_echo_is_restored(read_input: bool)
    ensures
        echo_before(read_input) == Some(false) <==> read_input,
        echo_after(read_input) == Some(true) <==> echo_before(read_input) == Some(false),
        echo_after(read_input) is None <==> echo_before(read_input) is None,
{
}

/// What an `open` command does at its end.
pub open spec fn open_plan(quiet: bool, after_command: Seq<Seq<char>>, result: OpenResult) -> Seq<
    CliActionView,
> {
    let told: Seq<CliActionView> = if quiet {
        Seq::empty()
    } else {
        seq![CliActionView::Print(open_line(result))]
    };
    let last = if after_command.len() > 0 {
        CliActionView::Exec { program: after_command[0], args: after_command.skip(1) }
    } else {
        CliActionView::Exit(0)
    };
    told + seq![CliActionView::Disconnect, last]
}

/// `text`, with blanks behind it so that there are at least `width` characters.
pub open spec fn padded(text: Seq<char>, width: nat) -> Seq<char> {
    if text.len() < width {
        text + Seq::new((width - text.len()) as nat, |i: int| ' ')
    } else {
        text
    }
}

/// The width of the column of hosts: room for the longest of them, and for its
/// title. Hosts are measured in bytes.
pub open spec fn host_width(tunnels: Seq<(Seq<char>, TunnelState)>) -> nat
    decreases tunnels.len(),
{
    if tunnels.len() == 0 {
        4
    } else {
        let others = host_width(tunnels.drop_last());
        let own = vstd::utf8::encode_utf8(tunnels.last().0).len();
        if own > others {
            own
        } else {
            others
        }
    }
}

/// A line of the table of tunnels.
pub open spec fn table_line(host: Seq<char>, width: nat, state: Seq<char>) -> Seq<char> {
    padded(host, width) + "  "@ + state
}

/// What a `status` command does at its end: it prints a table of the tunnels,
/// if there are any.
pub open spec fn status_plan(tunnels: Seq<(Seq<char>, TunnelState)>) -> Seq<CliActionView> {
    if tunnels.len() == 0 {
        seq![
            CliActionView::Disconnect,
            CliActionView::Print("No tunnels are open."@),
            CliActionView::Exit(0),
        ]
    } else {
        let width = host_width(tunnels);
        seq![
            CliActionView::Disconnect,
            CliActionView::Print(table_line("Host"@, width, "Status"@)),
            CliActionView::Print(""@),
        ] + tunnels.map_values(
            |t: (Seq<char>, TunnelState)|
                CliActionView::Print(table_line(t.0, width, t.1.text())),
        ) + seq![CliActionView::Exit(0)]
    }
}

impl StundCloseOptions {
    /// Close the tunnel. The daemon is launched if need be.
    pub fn cli(&self) -> (request: CliRequest)
        ensures
            request@ == CliRequestView::Establish(CommandView::Close(self.host@)),
    {
        CliRequest::Establish(Command::Close(CloseParameters { host: self.host.clone() }))
    }

    /// Tell the user if there was nothing to close.
    pub fn closed(&self, result: CloseResult) -> (actions: Vec<CliAction>)
        ensures
            plan(actions@) == close_plan(self.host@, result),
    {
        let mut actions: Vec<CliAction> = Vec::new();
        match result {
            CloseResult::Success => {},
            CloseResult::NotOpen => {
                let mut line = "[No tunnel for \"".to_owned();
                line.append(self.host.as_str());
                line.append("\" was open.]");
                actions.push(CliAction::Print(line));
            },
        }
        actions.push(CliAction::Disconnect);
        actions.push(CliAction::Exit(0));
        proof {
            assert(plan(actions@) =~= close_plan(self.host@, result));
        }
        actions
    }
}

impl StundDaemonOptions {
    /// Be the daemon.
    pub fn cli(&self) -> (request: CliRequest)
        ensures
            request@ == CliRequestView::Serve(*self),
    {
        CliRequest::Serve(*self)
    }

    /// Go on once the daemon is up, or fail as it did. `S` is a daemon that may
    /// serve, and `E` the error of one that did not start.
    pub fn started<S, E>(&self, outcome: Result<S, E>) -> (step: DaemonStep<S, E>)
        ensures
            step == match outcome {
                Ok(daemon) => DaemonStep::Serve(daemon),
                Err(e) => DaemonStep::Failed(e),
            },
    {
        match outcome {
            Ok(daemon) => DaemonStep::Serve(daemon),
            Err(e) => DaemonStep::Failed(e),
        }
    }

    /// The daemon has come to its end. The command fails as the daemon did.
    pub fn served<E>(&self, outcome: Result<(), E>) -> (result: Result<Vec<CliAction>, E>)
        ensures
            match outcome {
                Ok(_) => result matches Ok(actions) && plan(actions@) == seq![
                    CliActionView::Exit(0),
                ],
                Err(e) => result == Err::<Vec<CliAction>, E>(e),
            },
    {
        match outcome {
            Ok(_) => {
                let mut actions: Vec<CliAction> = Vec::new();
                actions.push(CliAction::Exit(0));
                proof {
                    assert(plan(actions@) =~= seq![CliActionView::Exit(0)]);
                }
                Ok(actions)
            },
            Err(e) => Err(e),
        }
    }
}

impl StundExitOptions {
    /// Tell the daemon to exit, if it is running.
    pub fn cli(&self) -> (request: CliRequest)
        ensures
            request@ == CliRequestView::TryEstablish(CommandView::Exit),
    {
        CliRequest::TryEstablish(Command::Exit)
    }

    /// There is no daemon.
    pub fn not_running(&self) -> (actions: Vec<CliAction>)
        ensures
            plan(actions@) == seq![
                CliActionView::Print("[Daemon not running; doing nothing.]"@),
                CliActionView::Exit(0),
            ],
    {
        let mut actions: Vec<CliAction> = Vec::new();
        actions.push(CliAction::Print("[Daemon not running; doing nothing.]".to_owned()));
        actions.push(CliAction::Exit(0));
        proof {
            assert(plan(actions@) =~= seq![
                CliActionView::Print("[Daemon not running; doing nothing.]"@),
                CliActionView::Exit(0),
            ]);
        }
        actions
    }

    /// The daemon has agreed.
    pub fn exited(&self) -> (actions: Vec<CliAction>)
        ensures
            plan(actions@) == seq![CliActionView::Disconnect, CliActionView::Exit(0)],
    {
        let mut actions: Vec<CliAction> = Vec::new();
        actions.push(CliAction::Disconnect);
        actions.push(CliAction::Exit(0));
        proof {
            assert(plan(actions@) =~= seq![CliActionView::Disconnect, CliActionView::Exit(0)]);
        }
        actions
    }
}

/// A copy of the strings from position `from` on.
fn copy_from(strings: &Vec<String>, from: usize) -> (copies: Vec<String>)
    requires
        from <= strings.len(),
    ensures
        texts(copies@) == texts(strings@).skip(from as int),
{
    let mut copies: Vec<String> = Vec::new();
    let mut i: usize = from;
    while i < strings.len()
        invariant
            from <= i <= strings.len(),
            copies.len() == i - from,
            forall|j: int| 0 <= j < copies.len() ==> (#[trigger] copies[j])@ == strings[from + j]@,
        decreases strings.len() - i,
    {
        copies.push(strings[i].clone());
        i = i + 1;
    }
    proof {
        assert(texts(copies@) =~= texts(strings@).skip(from as int));
    }
    copies
}

impl StundOpenOptions {
    /// Open the tunnel. The daemon is launched if need be.
    pub fn cli(&self) -> (request: CliRequest)
        ensures
            request@ == CliRequestView::Establish(
                (CommandView::Open { host: self.host@, read_input: !self.no_input }),
            ),
    {
        CliRequest::Establish(
            Command::Open {
                params: OpenParameters { host: self.host.clone() },
                read_input: !self.no_input,
            },
        )
    }

    /// How the terminal's echo is switched before the login dialogue, if it is.
    pub fn echo_before_dialogue(&self) -> (echo: Option<bool>)
        ensures
            echo == echo_before(!self.no_input),
    {
        if self.no_input {
            None
        } else {
            Some(false)
        }
    }

    /// The login dialogue had some outcome: how the terminal's echo is switched
    /// then, if it is. The outcome is handed on after that, whatever it is.
    pub fn dialogue_ended<T, E>(&self, outcome: Result<T, E>) -> (r: (Option<bool>, Result<T, E>))
        ensures
            r.0 == echo_after(!self.no_input),
            r.1 == outcome,
    {
        if self.no_input {
            (None, outcome)
        } else {
            (Some(true), outcome)
        }
    }

    /// Tell the user the outcome, and go on with the program to run after
    /// opening the tunnel, if there is one.
    pub fn opened(&self, result: OpenResult) -> (actions: Vec<CliAction>)
        ensures
            plan(actions@) == open_plan(self.quiet, texts(self.after_command@), result),
    {
        let mut actions: Vec<CliAction> = Vec::new();
        if !self.quiet {
            let line = match result {
                OpenResult::Success => "[Tunnel successfully opened.]".to_owned(),
                OpenResult::AlreadyOpen => "[Tunnel is already open.]".to_owned(),
            };
            actions.push(CliAction::Print(line));
        }
        actions.push(CliAction::Disconnect);
        if self.after_command.len() > 0 {
            let program = self.after_command[0].clone();
            let args = copy_from(&self.after_command, 1);
            actions.push(CliAction::Exec { program, args });
        } else {
            actions.push(CliAction::Exit(0));
        }
        proof {
            assert(plan(actions@) =~= open_plan(self.quiet, texts(self.after_command@), result));
        }
        actions
    }
}

/// Write `text`, with blanks behind it up to `width` characters.
pub fn pad(text: &str, width: usize) -> (line: String)
    ensures
        line@ == padded(text@, width as nat),
{
    let mut line = text.to_owned();
    let mut n: usize = text.unicode_len();
    while n < width
        invariant
            n == line@.len(),
            n >= text@.len(),
            line@ == padded(text@, n as nat),
            n <= width || n == text@.len(),
        decreases width - n,
    {
        line.append(" ");
        n = n + 1;
        proof {
            reveal_strlit(" ");
            assert(line@ =~= padded(text@, n as nat));
        }
    }
    line
}

/// Measure the column of hosts.
fn measure_hosts(tunnels: &Vec<TunnelInformation>) -> (width: usize)
    ensures
        width == host_width(tunnels@.map_values(|t: TunnelInformation| t@)),
{
    let ghost all = tunnels@.map_values(|t: TunnelInformation| t@);
    let mut width: usize = 4;
    let mut i: usize = 0;
    while i < tunnels.len()
        invariant
            i <= tunnels.len(),
            all == tunnels@.map_values(|t: TunnelInformation| t@),
            width == host_width(all.take(i as int)),
        decreases tunnels.len() - i,
    {
        let own: usize = tunnels[i].host.as_str().as_bytes().len();
        if own > width {
            width = own;
        }
        proof {
            assert(all.take(i + 1).drop_last() =~= all.take(i as int));
            assert(all.take(i + 1).last() == tunnels[i as int]@);
        }
        i = i + 1;
    }
    proof {
        assert(all.take(i as int) =~= all);
    }
    width
}

/// Write a line of the table of tunnels.
fn write_line(host: &str, width: usize, state: &str) -> (line: String)
    ensures
        line@ == table_line(host@, width as nat, state@),
{
    let mut line = pad(host, width);
    line.append("  ");
    line.append(state);
    line
}

impl StundStatusOptions {
    /// Ask about the tunnels, if the daemon is running.
    pub fn cli(&self) -> (request: CliRequest)
        ensures
            request@ == CliRequestView::TryEstablish(CommandView::QueryStatus),
    {
        CliRequest::TryEstablish(Command::QueryStatus)
    }

    /// There is no daemon.
    pub fn not_running(&self) -> (actions: Vec<CliAction>)
        ensures
            plan(actions@) == seq![
                CliActionView::Print("Daemon is not running."@),
                CliActionView::Exit(0),
            ],
    {
        let mut actions: Vec<CliAction> = Vec::new();
        actions.push(CliAction::Print("Daemon is not running.".to_owned()));
        actions.push(CliAction::Exit(0));
        proof {
            assert(plan(actions@) =~= seq![
                CliActionView::Print("Daemon is not running."@),
                CliActionView::Exit(0),
            ]);
        }
        actions
    }

    /// Show what the daemon said about its tunnels.
    pub fn told(&self, info: &StatusInformation) -> (actions: Vec<CliAction>)
        ensures
            plan(actions@) == status_plan(info@),
    {
        let mut actions: Vec<CliAction> = Vec::new();
        actions.push(CliAction::Disconnect);
        if info.tunnels.len() == 0 {
            actions.push(CliAction::Print("No tunnels are open.".to_owned()));
        } else {
            let width = measure_hosts(&info.tunnels);
            actions.push(CliAction::Print(write_line("Host", width, "Status")));
            actions.push(CliAction::Print("".to_owned()));
            let ghost head = plan(actions@);
            let ghost rows = info@.map_values(
                |t: (Seq<char>, TunnelState)|
                    CliActionView::Print(table_line(t.0, width as nat, t.1.text())),
            );
            let mut i: usize = 0;
            while i < info.tunnels.len()
                invariant
                    i <= info.tunnels.len(),
                    rows == info@.map_values(
                        |t: (Seq<char>, TunnelState)|
                            CliActionView::Print(table_line(t.0, width as nat, t.1.text())),
                    ),
                    plan(actions@) == head + rows.take(i as int),
                decreases info.tunnels.len() - i,
            {
                let state = info.tunnels[i].state.show();
                let line = write_line(info.tunnels[i].host.as_str(), width, state.as_str());
                let ghost before = actions@;
                actions.push(CliAction::Print(line));
                proof {
                    assert(info@[i as int] == info.tunnels[i as int]@);
                    assert(plan(actions@) =~= plan(before).push(CliActionView::Print(line@)));
                    assert(plan(actions@) =~= head + rows.take(i + 1));
                }
                i = i + 1;
            }
            proof {
                assert(rows.take(i as int) =~= rows);
            }
        }
        let ghost before = actions@;
        actions.push(CliAction::Exit(0));
        proof {
            assert(plan(actions@) =~= plan(before).push(CliActionView::Exit(0)));
            assert(plan(actions@) =~= status_plan(info@));
        }
        actions
    }
}

impl StundCli {
    /// What the command begins with.
    pub open spec fn request(self) -> CliRequestView {
        match self {
            StundCli::Close(opts) => CliRequestView::Establish(CommandView::Close(opts.host@)),
            StundCli::Daemon(opts) => CliRequestView::Serve(opts),
            StundCli::Exit(_) => CliRequestView::TryEstablish(CommandView::Exit),
            StundCli::Open(opts) => CliRequestView::Establish(
                CommandView::Open { host: opts.host@, read_input: !opts.no_input },
            ),
            StundCli::Status(_) => CliRequestView::TryEstablish(CommandView::QueryStatus),
        }
    }

    /// Begin the command.
    pub fn cli(&self) -> (request: CliRequest)
        ensures
            request@ == self.request(),
    {
        match self {
            StundCli::Close(opts) => opts.cli(),
            StundCli::Daemon(opts) => opts.cli(),
            StundCli::Exit(opts) => opts.cli(),
            StundCli::Open(opts) => opts.cli(),
            StundCli::Status(opts) => opts.cli(),
        }
    }
}

/// What the user is told of a fatal error with these causes, the outermost
/// first.
pub open spec fn fatal_report(causes: Seq<Seq<char>>) -> Seq<Seq<char>> {
    seq!["fatal error in stund"@] + causes.map_values(|c: Seq<char>| "  caused by: "@ + c)
}

/// The code to exit with after a fatal error.
pub const FATAL_EXIT_CODE: i32 = 1;

/// Tell the user of a fatal error.
pub fn report_fatal(causes: &Vec<String>) -> (lines: Vec<String>)
    ensures
        texts(lines@) == fatal_report(texts(causes@)),
{
    let mut lines: Vec<String> = Vec::new();
    lines.push("fatal error in stund".to_owned());
    let ghost report = fatal_report(texts(causes@));
    let mut i: usize = 0;
    while i < causes.len()
        invariant
            i <= causes.len(),
            report == fatal_report(texts(causes@)),
            lines.len() == i + 1,
            forall|j: int| 0 <= j <= i ==> (#[trigger] lines[j])@ == report[j],
        decreases causes.len() - i,
    {
        let mut line = "  caused by: ".to_owned();
        line.append(causes[i].as_str());
        lines.push(line);
        proof {
            assert(report[i + 1] == "  caused by: "@ + texts(causes@)[i as int]);
        }
        i = i + 1;
    }
    proof {
        assert(texts(lines@) =~= report);
    }
    lines
}

/// In the table of tunnels, the states stand below each other and below their
/// title: no host sticks out of its column.
pub proof fn law_table_is_aligned(tunnels: Seq<(Seq<char>, TunnelState)>, i: int)
    requires
        0 <= i < tunnels.len(),
    ensures
        padded("Host"@, host_width(tunnels)).len() == host_width(tunnels),
        padded(tunnels[i].0, host_width(tunnels)).len() == host_width(tunnels),
{
    reveal_strlit("Host");
    lemma_host_width(tunnels, i);
    lemma_chars_fit(tunnels[i].0);
}

proof fn lemma_host_width(tunnels: Seq<(Seq<char>, TunnelState)>, i: int)
    requires
        0 <= i < tunnels.len(),
    ensures
        host_width(tunnels) >= 4,
        host_width(tunnels) >= vstd::utf8::encode_utf8(tunnels[i].0).len(),
    decreases tunnels.len(),
{
    let others = tunnels.drop_last();
    if i < others.len() {
        lemma_host_width(others, i);
    } else if others.len() > 0 {
        lemma_host_width(others, 0);
    }
}

/// A text has no more characters than bytes.
proof fn lemma_chars_fit(text: Seq<char>)
    ensures
        text.len() <= vstd::utf8::encode_utf8(text).len(),
    decreases text.len(),
{
    if text.len() > 0 {
        lemma_chars_fit(text.drop_first());
    }
}

} // verus!
