//! The command line: what each command asks for, and what the user gets to see
//! and to run in the end, told of the options, the outcome and the actions.

use vstd::prelude::*;

use crate::cli;
use crate::cli::{
    CliAction, CliRequest, DaemonStep, StundCli, StundCloseOptions, StundDaemonOptions,
    StundExitOptions, StundOpenOptions, StundStatusOptions,
};
use crate::protocol::{CloseResult, OpenResult, StatusInformation, TunnelState};

verus! {

/// The name of a state.
pub open spec fn name_of(state: TunnelState) -> Seq<char> {
    match state {
        TunnelState::Open => "Open"@,
        TunnelState::Closed => "Closed"@,
        TunnelState::Died => "Died"@,
    }
}

/// Whether `line` is `first` in a column of `width`, then two blanks, then
/// `second`.
pub open spec fn in_columns(
    line: Seq<char>,
    first: Seq<char>,
    width: nat,
    second: Seq<char>,
) -> bool {
    &&& first.len() <= width
    &&& line.len() == width + 2 + second.len()
    &&& line.take(first.len() as int) == first
    &&& forall|j: int| first.len() <= j < width + 2 ==> #[trigger] line[j] == ' '
    &&& line.skip(width as int + 2) == second
}

/// Whether a column of `width` has just enough room for its title and for the
/// hosts of all tunnels, which are measured in bytes.
pub open spec fn just_fits(info: StatusInformation, width: nat) -> bool {
    &&& width >= 4
    &&& forall|i: int|
        0 <= i < info.tunnels@.len() ==> vstd::utf8::encode_utf8(
            (#[trigger] info.tunnels@[i]).host@,
        ).len() <= width
    &&& width == 4 || exists|i: int|
        0 <= i < info.tunnels@.len() && vstd::utf8::encode_utf8(
            (#[trigger] info.tunnels@[i]).host@,
        ).len() == width
}

proof fn lemma_plan(actions: Seq<CliAction>, i: int)
    requires
        0 <= i < actions.len(),
    ensures
        cli::plan(actions).len() == actions.len(),
        cli::plan(actions)[i] == actions[i]@,
{
}

proof fn lemma_padded_in_columns(first: Seq<char>, width: nat, second: Seq<char>)
    requires
        first.len() <= width,
    ensures
        in_columns(cli::table_line(first, width, second), first, width, second),
{
    reveal_strlit("  ");
    let line = cli::table_line(first, width, second);
    assert(line.take(first.len() as int) =~= first);
    assert(line.skip(width as int + 2) =~= second);
}

proof fn lemma_width_is_attained(tunnels: Seq<(Seq<char>, TunnelState)>)
    ensures
        cli::host_width(tunnels) >= 4,
        forall|i: int|
            0 <= i < tunnels.len() ==> vstd::utf8::encode_utf8((#[trigger] tunnels[i]).0).len()
                <= cli::host_width(tunnels),
        cli::host_width(tunnels) == 4 || exists|i: int|
            0 <= i < tunnels.len() && vstd::utf8::encode_utf8((#[trigger] tunnels[i]).0).len()
                == cli::host_width(tunnels),
    decreases tunnels.len(),
{
    if tunnels.len() > 0 {
        let others = tunnels.drop_last();
        lemma_width_is_attained(others);
        assert forall|i: int| 0 <= i < tunnels.len() implies vstd::utf8::encode_utf8(
            (#[trigger] tunnels[i]).0,
        ).len() <= cli::host_width(tunnels) by {
            if i < others.len() {
                assert(others[i] == tunnels[i]);
            }
        }
        if cli::host_width(tunnels) != 4 {
            if cli::host_width(tunnels) == cli::host_width(others) {
                let i = choose|i: int|
                    0 <= i < others.len() && vstd::utf8::encode_utf8((#[trigger] others[i]).0).len()
                        == cli::host_width(others);
                assert(tunnels[i] == others[i]);
            } else {
                assert(tunnels[tunnels.len() - 1] == tunnels.last());
            }
        }
    }
}

proof fn lemma_info(info: StatusInformation)
    ensures
        info@.len() == info.tunnels@.len(),
        forall|i: int|
            0 <= i < info.tunnels@.len() ==> info@[i].0 == (#[trigger] info.tunnels@[i]).host@
                && info@[i].1 == info.tunnels@[i].state,
        just_fits(info, cli::host_width(info@)),
{
    lemma_width_is_attained(info@);
    let width = cli::host_width(info@);
    assert forall|i: int| 0 <= i < info.tunnels@.len() implies vstd::utf8::encode_utf8(
        (#[trigger] info.tunnels@[i]).host@,
    ).len() <= width by {
        assert(info@[i].0 == info.tunnels@[i].host@);
    }
    if width != 4 {
        let i = choose|i: int|
            0 <= i < info@.len() && vstd::utf8::encode_utf8((#[trigger] info@[i]).0).len() == width;
        assert(info.tunnels@[i].host@ == info@[i].0);
    }
}

/// The table shows every tunnel that the daemon told of, one per line, in their
/// order: its host, in a column that has just enough room for all of them, then the
/// name of its state. A title and an empty line stand above. That is so whatever
/// the hosts and however many there are.
pub proof fn law_the_table_shows_every_tunnel(
    opts: &StundStatusOptions,
    info: StatusInformation,
    actions: Vec<CliAction>,
    i: int,
)
    requires
        call_ensures(StundStatusOptions::told, (opts, &info), actions),
        0 <= i < info.tunnels@.len(),
    ensures
        actions@.len() == info.tunnels@.len() + 4,
        exists|width: nat|
            {
                &&& #[trigger] just_fits(info, width)
                &&& actions@[1] is Print
                &&& in_columns(actions@[1]->Print_0@, "Host"@, width, "Status"@)
                &&& actions@[3 + i] is Print
                &&& in_columns(
                    actions@[3 + i]->Print_0@,
                    info.tunnels@[i].host@,
                    width,
                    name_of(info.tunnels@[i].state),
                )
            },
        actions@[2] is Print,
        actions@[2]->Print_0@ == ""@,
{
    let width = cli::host_width(info@);
    lemma_info(info);
    lemma_plan(actions@, 1);
    lemma_plan(actions@, 2);
    lemma_plan(actions@, 3 + i);
    cli::law_table_is_aligned(info@, i);
    assert(info@[i].0 == info.tunnels@[i].host@);
    lemma_fits(info.tunnels@[i].host@, width);
    reveal_strlit("Host");
    lemma_padded_in_columns("Host"@, width, "Status"@);
    lemma_padded_in_columns(info.tunnels@[i].host@, width, name_of(info.tunnels@[i].state));
    assert(just_fits(info, width));
}

proof fn lemma_fits(text: Seq<char>, width: nat)
    requires
        cli::padded(text, width).len() == width,
    ensures
        text.len() <= width,
{
}

/// Every line of the table has its state at the same place.
pub proof fn law_states_stand_below_each_other(
    opts: &StundStatusOptions,
    info: StatusInformation,
    actions: Vec<CliAction>,
    i: int,
    j: int,
)
    requires
        call_ensures(StundStatusOptions::told, (opts, &info), actions),
        0 <= i < info.tunnels@.len(),
        0 <= j < info.tunnels@.len(),
    ensures
        exists|width: nat|
            {
                &&& #[trigger] just_fits(info, width)
                &&& actions@[3 + i]->Print_0@.skip(width as int + 2) == name_of(
                    info.tunnels@[i].state,
                )
                &&& actions@[3 + j]->Print_0@.skip(width as int + 2) == name_of(
                    info.tunnels@[j].state,
                )
            },
{
    law_the_table_shows_every_tunnel(opts, info, actions, i);
    law_the_table_shows_every_tunnel(opts, info, actions, j);
    lemma_one_width(info);
}

proof fn lemma_one_width(info: StatusInformation)
    ensures
        forall|a: nat, b: nat| #[trigger]
            just_fits(info, a) && #[trigger] just_fits(info, b) ==> a == b,
{
    assert forall|a: nat, b: nat| #[trigger]
        just_fits(info, a) && #[trigger] just_fits(info, b) implies a == b by {
        if a < b {
            let i = choose|i: int|
                0 <= i < info.tunnels@.len() && vstd::utf8::encode_utf8(
                    (#[trigger] info.tunnels@[i]).host@,
                ).len() == b;
            assert(vstd::utf8::encode_utf8(info.tunnels@[i].host@).len() <= a);
        } else if b < a {
            let i = choose|i: int|
                0 <= i < info.tunnels@.len() && vstd::utf8::encode_utf8(
                    (#[trigger] info.tunnels@[i]).host@,
                ).len() == a;
            assert(vstd::utf8::encode_utf8(info.tunnels@[i].host@).len() <= b);
        }
    }
}

/// A status command says goodbye to the daemon before it prints anything, and
/// ends well. That there are no tunnels is said exactly if the daemon told of none.
pub proof fn law_how_a_status_command_ends(
    opts: &StundStatusOptions,
    info: StatusInformation,
    actions: Vec<CliAction>,
)
    requires
        call_ensures(StundStatusOptions::told, (opts, &info), actions),
    ensures
        actions@.len() >= 3,
        actions@[0] is Disconnect,
        actions@.last() == CliAction::Exit(0),
        forall|k: int| 0 < k < actions@.len() - 1 ==> (#[trigger] actions@[k]) is Print,
        info.tunnels@.len() == 0 ==> actions@.len() == 3 && actions@[1]->Print_0@
            == "No tunnels are open."@,
        info.tunnels@.len() > 0 ==> actions@.len() == info.tunnels@.len() + 4,
{
    lemma_info(info);
    let said = cli::plan(actions@);
    assert(said.len() == actions@.len());
    assert forall|k: int| 0 <= k < actions@.len() implies said[k] == (#[trigger] actions@[k])@ by {}
    assert(said[0] == actions@[0]@);
    assert(said[1] == actions@[1]@);
    assert(said[said.len() - 1] == actions@.last()@);
    assert forall|k: int| 0 < k < actions@.len() - 1 implies (#[trigger] actions@[k]) is Print by {
        assert(said[k] is Print);
    }
}

/// What a status command does if there is no daemon.
pub proof fn law_status_without_a_daemon(opts: &StundStatusOptions, actions: Vec<CliAction>)
    requires
        call_ensures(StundStatusOptions::not_running, (opts,), actions),
    ensures
        actions@.len() == 2,
        actions@[0] is Print,
        actions@[0]->Print_0@ == "Daemon is not running."@,
        actions@[1] == CliAction::Exit(0),
{
    let said = cli::plan(actions@);
    assert(said.len() == actions@.len());
    assert(said[0] == actions@[0]@);
    assert(said[1] == actions@[1]@);
}

/// Whatever came of an open command, whether the tunnel was opened or was open
/// before, and whether or not the command is quiet, it ends in the same way.
pub proof fn law_the_end_does_not_depend_on_the_result(
    one: &StundOpenOptions,
    other: &StundOpenOptions,
    result: OpenResult,
    other_result: OpenResult,
    actions: Vec<CliAction>,
    other_actions: Vec<CliAction>,
)
    requires
        one.after_command == other.after_command,
        call_ensures(StundOpenOptions::opened, (one, result), actions),
        call_ensures(StundOpenOptions::opened, (other, other_result), other_actions),
    ensures
        actions@.len() >= 2,
        other_actions@.len() >= 2,
        actions@.last()@ == other_actions@.last()@,
        actions@[actions@.len() - 2] is Disconnect,
        other_actions@[other_actions@.len() - 2] is Disconnect,
{
    let said = cli::plan(actions@);
    let other_said = cli::plan(other_actions@);
    assert(said.len() == actions@.len());
    assert(other_said.len() == other_actions@.len());
    assert(said[said.len() - 1] == actions@.last()@);
    assert(said[said.len() - 2] == actions@[actions@.len() - 2]@);
    assert(other_said[other_said.len() - 1] == other_actions@.last()@);
    assert(other_said[other_said.len() - 2] == other_actions@[other_actions@.len() - 2]@);
}

/// An open command ends by running the program that was given, with just the
/// arguments that were given, if one was given; else it exits, with success. That
/// is so whatever the result.
pub proof fn law_how_an_open_command_ends(
    opts: &StundOpenOptions,
    result: OpenResult,
    actions: Vec<CliAction>,
)
    requires
        call_ensures(StundOpenOptions::opened, (opts, result), actions),
    ensures
        actions@.len() >= 2,
        actions@[actions@.len() - 2] is Disconnect,
        opts.after_command@.len() == 0 ==> actions@.last() == CliAction::Exit(0),
        opts.after_command@.len() > 0 ==> {
            &&& actions@.last() is Exec
            &&& actions@.last()->program@ == opts.after_command@[0]@
            &&& actions@.last()->args@.len() == opts.after_command@.len() - 1
            &&& forall|i: int|
                0 <= i < actions@.last()->args@.len() ==> (#[trigger] actions@.last()->args@[i])@
                    == opts.after_command@[i + 1]@
        },
{
    let said = cli::plan(actions@);
    let words = cli::texts(opts.after_command@);
    assert(said.len() == actions@.len());
    assert(said[said.len() - 1] == actions@.last()@);
    assert(said[said.len() - 2] == actions@[actions@.len() - 2]@);
    assert(words.len() == opts.after_command@.len());
    if opts.after_command@.len() > 0 {
        let args = actions@.last()->args@;
        assert(words[0] == opts.after_command@[0]@);
        assert(cli::texts(args) == words.skip(1));
        assert(args.len() == cli::texts(args).len());
        assert forall|i: int| 0 <= i < args.len() implies (#[trigger] args[i])@
            == opts.after_command@[i + 1]@ by {
            assert(cli::texts(args)[i] == args[i]@);
            assert(words.skip(1)[i] == words[i + 1]);
        }
    }
}

/// What an open command tells the user: nothing if it is quiet, else in one line
/// what the result was.
pub proof fn law_what_an_open_command_tells(
    opts: &StundOpenOptions,
    result: OpenResult,
    actions: Vec<CliAction>,
)
    requires
        call_ensures(StundOpenOptions::opened, (opts, result), actions),
    ensures
        opts.quiet ==> actions@.len() == 2,
        !opts.quiet ==> actions@.len() == 3 && actions@[0] is Print,
        !opts.quiet && result == OpenResult::Success ==> actions@[0]->Print_0@
            == "[Tunnel successfully opened.]"@,
        !opts.quiet && result == OpenResult::AlreadyOpen ==> actions@[0]->Print_0@
            == "[Tunnel is already open.]"@,
{
    let said = cli::plan(actions@);
    assert(said.len() == actions@.len());
    assert(said[0] == actions@[0]@);
}

/// A close command ends well and says goodbye whether or not there was something to
/// close, and tells the user, naming the host, exactly if there was not.
pub proof fn law_how_a_close_command_ends(
    opts: &StundCloseOptions,
    result: CloseResult,
    actions: Vec<CliAction>,
)
    requires
        call_ensures(StundCloseOptions::closed, (opts, result), actions),
    ensures
        actions@.len() >= 2,
        actions@.last() == CliAction::Exit(0),
        actions@[actions@.len() - 2] is Disconnect,
        result == CloseResult::Success ==> actions@.len() == 2,
        result == CloseResult::NotOpen ==> actions@.len() == 3 && actions@[0] is Print
            && actions@[0]->Print_0@ == "[No tunnel for \""@ + opts.host@ + "\" was open.]"@,
{
    let said = cli::plan(actions@);
    assert(said.len() == actions@.len());
    assert(said[0] == actions@[0]@);
    assert(said[said.len() - 1] == actions@.last()@);
    assert(said[said.len() - 2] == actions@[actions@.len() - 2]@);
}

/// An exit command ends well, whether or not there is a daemon. It tells the user
/// if there is none, and says goodbye if there is one.
pub proof fn law_how_an_exit_command_ends(
    opts: &StundExitOptions,
    exited: Vec<CliAction>,
    not_running: Vec<CliAction>,
)
    requires
        call_ensures(StundExitOptions::exited, (opts,), exited),
        call_ensures(StundExitOptions::not_running, (opts,), not_running),
    ensures
        exited@.len() == 2,
        exited@[0] is Disconnect,
        exited@[1] == CliAction::Exit(0),
        not_running@.len() == 2,
        not_running@[0] is Print,
        not_running@[0]->Print_0@ == "[Daemon not running; doing nothing.]"@,
        not_running@[1] == CliAction::Exit(0),
{
    let said = cli::plan(exited@);
    assert(said.len() == exited@.len());
    assert(said[0] == exited@[0]@);
    assert(said[1] == exited@[1]@);
    let other = cli::plan(not_running@);
    assert(other.len() == not_running@.len());
    assert(other[0] == not_running@[0]@);
    assert(other[1] == not_running@[1]@);
}

/// A daemon command serves if the daemon started, and fails as the daemon did; it
/// ends well if the daemon did.
pub proof fn law_how_a_daemon_command_ends<S, E>(
    opts: &StundDaemonOptions,
    start: Result<S, E>,
    step: DaemonStep<S, E>,
    end: Result<(), E>,
    actions: Result<Vec<CliAction>, E>,
)
    requires
        call_ensures(StundDaemonOptions::started::<S, E>, (opts, start), step),
        call_ensures(StundDaemonOptions::served::<E>, (opts, end), actions),
    ensures
        start matches Ok(daemon) ==> step == DaemonStep::<S, E>::Serve(daemon),
        start matches Err(e) ==> step == DaemonStep::<S, E>::Failed(e),
        end is Ok ==> actions is Ok && actions->Ok_0@.len() == 1 && actions->Ok_0@[0]
            == CliAction::Exit(0),
        end matches Err(e) ==> actions == Err::<Vec<CliAction>, E>(e),
{
    if end is Ok {
        let said = cli::plan(actions->Ok_0@);
        assert(said.len() == actions->Ok_0@.len());
        assert(said[0] == actions->Ok_0@[0]@);
    }
}

/// What each command begins with. Opening and closing launch the daemon if need
/// be, the others do not; a tunnel is opened, or closed, for the host that was given;
/// and the user takes part in the login unless that was declined.
pub proof fn law_what_commands_begin_with(command: StundCli, request: CliRequest)
    requires
        call_ensures(StundCli::cli, (&command,), request),
    ensures
        command matches StundCli::Open(opts) ==> {
            &&& request is Establish
            &&& request->Establish_0 is Open
            &&& request->Establish_0->params.host@ == opts.host@
            &&& request->Establish_0->read_input == !opts.no_input
        },
        command matches StundCli::Close(opts) ==> {
            &&& request is Establish
            &&& request->Establish_0 is Close
            &&& request->Establish_0->Close_0.host@ == opts.host@
        },
        command is Exit ==> request is TryEstablish && request->TryEstablish_0 is Exit,
        command is Status ==> request is TryEstablish && request->TryEstablish_0 is QueryStatus,
        command matches StundCli::Daemon(opts) ==> request == CliRequest::Serve(opts),
{
}

/// Each command's own options lead to the same beginning.
pub proof fn law_what_options_begin_with(
    close: &StundCloseOptions,
    daemon: &StundDaemonOptions,
    exit: &StundExitOptions,
    open: &StundOpenOptions,
    status: &StundStatusOptions,
    requests: [CliRequest; 5],
)
    requires
        call_ensures(StundCloseOptions::cli, (close,), requests@[0]),
        call_ensures(StundDaemonOptions::cli, (daemon,), requests@[1]),
        call_ensures(StundExitOptions::cli, (exit,), requests@[2]),
        call_ensures(StundOpenOptions::cli, (open,), requests@[3]),
        call_ensures(StundStatusOptions::cli, (status,), requests@[4]),
    ensures
        requests@[0] is Establish,
        requests@[0]->Establish_0 is Close,
        requests@[0]->Establish_0->Close_0.host@ == close.host@,
        requests@[1] == CliRequest::Serve(*daemon),
        requests@[2] is TryEstablish,
        requests@[2]->TryEstablish_0 is Exit,
        requests@[3] is Establish,
        requests@[3]->Establish_0 is Open,
        requests@[3]->Establish_0->params.host@ == open.host@,
        requests@[3]->Establish_0->read_input == !open.no_input,
        requests@[4] is TryEstablish,
        requests@[4]->TryEstablish_0 is QueryStatus,
{
}

/// The terminal's echo is off during the login dialogue, and on again after it,
/// exactly if the user takes part in it. The outcome is handed on as it is.
pub proof fn law_echo_around_the_dialogue<T, E>(
    opts: &StundOpenOptions,
    outcome: Result<T, E>,
    before: Option<bool>,
    after: (Option<bool>, Result<T, E>),
)
    requires
        call_ensures(StundOpenOptions::echo_before_dialogue, (opts,), before),
        call_ensures(StundOpenOptions::dialogue_ended::<T, E>, (opts, outcome), after),
    ensures
        !opts.no_input ==> before == Some(false) && after.0 == Some(true),
        opts.no_input ==> before is None && after.0 is None,
        after.1 == outcome,
{
}

/// Padding keeps the text, puts nothing but blanks behind it, and stops at the
/// width.
pub proof fn law_padding_adds_blanks_only(text: &str, width: usize, line: String)
    requires
        call_ensures(cli::pad, (text, width), line),
    ensures
        line@.len() == if text@.len() < width {
            width as nat
        } else {
            text@.len()
        },
        line@.take(text@.len() as int) == text@,
        forall|j: int| text@.len() <= j < line@.len() ==> #[trigger] line@[j] == ' ',
{
    assert(line@.take(text@.len() as int) =~= text@);
}

/// The report of a fatal error has one line for each cause, in their order, below
/// the title.
pub proof fn law_every_cause_is_reported(causes: Vec<String>, lines: Vec<String>)
    requires
        call_ensures(cli::report_fatal, (&causes,), lines),
    ensures
        lines@.len() == causes@.len() + 1,
        lines@[0]@ == "fatal error in stund"@,
        forall|i: int|
            0 <= i < causes@.len() ==> lines@[i + 1]@ == "  caused by: "@ + (
            #[trigger] causes@[i])@,
{
    let said = cli::texts(lines@);
    let words = cli::texts(causes@);
    assert(said.len() == lines@.len());
    assert(words.len() == causes@.len());
    assert(said[0] == lines@[0]@);
    assert forall|i: int| 0 <= i < causes@.len() implies lines@[i + 1]@ == "  caused by: "@ + (
    #[trigger] causes@[i])@ by {
        assert(said[i + 1] == lines@[i + 1]@);
        assert(words[i] == causes@[i]@);
    }
}

} // verus!
