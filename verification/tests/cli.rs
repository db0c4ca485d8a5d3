use stund::cli::{
    pad, report_fatal, CliAction, CliRequest, Command, DaemonStep, StundCli, StundCloseOptions,
    StundDaemonOptions, StundExitOptions, StundOpenOptions, StundStatusOptions, EXEC_FAILED,
    FATAL_EXIT_CODE,
};
use stund::protocol::{
    CloseParameters, CloseResult, OpenParameters, OpenResult, StatusInformation,
    TunnelInformation, TunnelState,
};

fn open_options(quiet: bool, no_input: bool, after: &[&str]) -> StundOpenOptions {
    StundOpenOptions {
        host: "login.mydomain.org".to_owned(),
        quiet,
        no_input,
        after_command: after.iter().map(|s| s.to_string()).collect(),
    }
}

fn print(line: &str) -> CliAction {
    CliAction::Print(line.to_owned())
}

#[test]
fn what_each_command_begins_with() {
    assert_eq!(
        StundCli::Close(StundCloseOptions {
            host: "h".to_owned()
        })
        .cli(),
        CliRequest::Establish(Command::Close(CloseParameters {
            host: "h".to_owned()
        }))
    );
    assert_eq!(
        StundCli::Daemon(StundDaemonOptions { foreground: true }).cli(),
        CliRequest::Serve(StundDaemonOptions { foreground: true })
    );
    assert_eq!(
        StundCli::Exit(StundExitOptions {}).cli(),
        CliRequest::TryEstablish(Command::Exit)
    );
    assert_eq!(
        StundCli::Status(StundStatusOptions {}).cli(),
        CliRequest::TryEstablish(Command::QueryStatus)
    );
    for no_input in [false, true] {
        assert_eq!(
            StundCli::Open(open_options(false, no_input, &[])).cli(),
            CliRequest::Establish(Command::Open {
                params: OpenParameters {
                    host: "login.mydomain.org".to_owned()
                },
                read_input: !no_input,
            })
        );
    }
}

#[test]
fn the_end_of_a_close_command() {
    let opts = StundCloseOptions {
        host: "h".to_owned(),
    };
    assert_eq!(
        opts.closed(CloseResult::Success),
        vec![CliAction::Disconnect, CliAction::Exit(0)]
    );
    assert_eq!(
        opts.closed(CloseResult::NotOpen),
        vec![
            print("[No tunnel for \"h\" was open.]"),
            CliAction::Disconnect,
            CliAction::Exit(0),
        ]
    );
}

#[test]
fn the_end_of_an_exit_command() {
    assert_eq!(
        StundExitOptions {}.not_running(),
        vec![
            print("[Daemon not running; doing nothing.]"),
            CliAction::Exit(0)
        ]
    );
    assert_eq!(
        StundExitOptions {}.exited(),
        vec![CliAction::Disconnect, CliAction::Exit(0)]
    );
}

#[test]
fn the_end_of_a_daemon_command() {
    let opts = StundDaemonOptions { foreground: false };
    assert_eq!(
        opts.started::<u32, String>(Ok(7)),
        DaemonStep::Serve(7)
    );
    assert_eq!(
        opts.started::<u32, String>(Err("no".to_owned())),
        DaemonStep::Failed("no".to_owned())
    );
    assert_eq!(
        opts.served::<String>(Ok(())),
        Ok(vec![CliAction::Exit(0)])
    );
    assert_eq!(
        opts.served(Err("broken".to_owned())),
        Err("broken".to_owned())
    );
}

#[test]
fn the_end_of_an_open_command() {
    assert_eq!(
        open_options(false, false, &[]).opened(OpenResult::Success),
        vec![
            print("[Tunnel successfully opened.]"),
            CliAction::Disconnect,
            CliAction::Exit(0),
        ]
    );
    assert_eq!(
        open_options(false, false, &[]).opened(OpenResult::AlreadyOpen),
        vec![
            print("[Tunnel is already open.]"),
            CliAction::Disconnect,
            CliAction::Exit(0),
        ]
    );
    assert_eq!(
        open_options(true, true, &[]).opened(OpenResult::Success),
        vec![CliAction::Disconnect, CliAction::Exit(0)]
    );
    assert_eq!(
        open_options(true, false, &["ssh", "-J", "gateway", "inner"]).opened(OpenResult::Success),
        vec![
            CliAction::Disconnect,
            CliAction::Exec {
                program: "ssh".to_owned(),
                args: vec!["-J".to_owned(), "gateway".to_owned(), "inner".to_owned()],
            },
        ]
    );
    assert_eq!(EXEC_FAILED, "failed to exec post-open command");
}

fn tunnel(host: &str, state: TunnelState) -> TunnelInformation {
    TunnelInformation {
        host: host.to_owned(),
        state,
    }
}

#[test]
fn the_status_of_no_tunnels() {
    assert_eq!(
        StundStatusOptions {}.not_running(),
        vec![print("Daemon is not running."), CliAction::Exit(0)]
    );
    assert_eq!(
        StundStatusOptions {}.told(&StatusInformation {
            tunnels: Vec::new()
        }),
        vec![
            CliAction::Disconnect,
            print("No tunnels are open."),
            CliAction::Exit(0)
        ]
    );
}

#[test]
fn the_status_of_some_tunnels() {
    let info = StatusInformation {
        tunnels: vec![
            tunnel("a.example.org", TunnelState::Open),
            tunnel("b", TunnelState::Closed),
            tunnel("", TunnelState::Died),
        ],
    };
    assert_eq!(
        StundStatusOptions {}.told(&info),
        vec![
            CliAction::Disconnect,
            print("Host           Status"),
            print(""),
            print("a.example.org  Open"),
            print("b              Closed"),
            print("               Died"),
            CliAction::Exit(0),
        ]
    );
}

#[test]
fn short_hosts_leave_room_for_the_title() {
    let info = StatusInformation {
        tunnels: vec![tunnel("ab", TunnelState::Open)],
    };
    assert_eq!(
        StundStatusOptions {}.told(&info),
        vec![
            CliAction::Disconnect,
            print("Host  Status"),
            print(""),
            print("ab    Open"),
            CliAction::Exit(0),
        ]
    );
}

#[test]
fn hosts_are_measured_in_bytes_and_padded_in_characters() {
    let info = StatusInformation {
        tunnels: vec![tunnel("\u{e9}\u{e9}\u{e9}", TunnelState::Open)],
    };
    assert_eq!(
        StundStatusOptions {}.told(&info)[1..4],
        [
            print("Host    Status"),
            print(""),
            print("\u{e9}\u{e9}\u{e9}     Open")
        ]
    );
}

#[test]
fn padding_is_that_of_the_formatter() {
    for text in ["", "Host", "h\u{e9}te", "longer than that"] {
        for width in [0usize, 3, 4, 5, 20] {
            assert_eq!(pad(text, width), format!("{:1$}", text, width));
        }
    }
}

#[test]
fn states_are_written_as_they_are_named() {
    for state in [TunnelState::Open, TunnelState::Closed, TunnelState::Died] {
        assert_eq!(state.show(), format!("{:?}", state));
    }
}

#[test]
fn fatal_errors_are_reported_with_their_causes() {
    assert_eq!(
        report_fatal(&vec!["outer".to_owned(), "inner".to_owned()]),
        vec![
            "fatal error in stund".to_owned(),
            "  caused by: outer".to_owned(),
            "  caused by: inner".to_owned(),
        ]
    );
    assert_eq!(
        report_fatal(&Vec::new()),
        vec!["fatal error in stund".to_owned()]
    );
    assert_eq!(FATAL_EXIT_CODE, 1);
}

#[test]
fn the_echo_goes_off_only_while_the_user_takes_part() {
    let takes_part = open_options(false, false, &[]);
    assert_eq!(takes_part.echo_before_dialogue(), Some(false));
    assert_eq!(
        takes_part.dialogue_ended::<u32, String>(Ok(1)),
        (Some(true), Ok(1))
    );
    assert_eq!(
        takes_part.dialogue_ended::<u32, String>(Err("no".to_owned())),
        (Some(true), Err("no".to_owned()))
    );
    let left_alone = open_options(false, true, &[]);
    assert_eq!(left_alone.echo_before_dialogue(), None);
    assert_eq!(
        left_alone.dialogue_ended::<u32, String>(Ok(1)),
        (None, Ok(1))
    );
    assert_eq!(
        left_alone.dialogue_ended::<u32, String>(Err("no".to_owned())),
        (None, Err("no".to_owned()))
    );
}
