use stund::terminal::{echo_queried, echo_set, toggle_terminal_echo, EchoRequest};

const ECHO: u32 = 0o10;

#[test]
fn the_echo_is_switched() {
    assert_eq!(toggle_terminal_echo(true), EchoRequest::Query);
    assert_eq!(
        echo_queried(0, 0o105073, ECHO, false),
        EchoRequest::Change { c_lflag: 0o105063 }
    );
    assert_eq!(
        echo_queried(0, 0o105063, ECHO, true),
        EchoRequest::Change { c_lflag: 0o105073 }
    );
    assert_eq!(echo_set(0), EchoRequest::Nothing);
}

#[test]
fn nothing_is_switched_without_a_terminal() {
    assert_eq!(toggle_terminal_echo(false), EchoRequest::Nothing);
}

#[test]
fn the_echo_may_not_be_switched() {
    assert_eq!(
        echo_queried(-1, 0, ECHO, true),
        EchoRequest::Print("error querying terminal attributes?!".to_owned())
    );
    assert_eq!(
        echo_set(-1),
        EchoRequest::Print("error setting terminal attributes?!".to_owned())
    );
}
