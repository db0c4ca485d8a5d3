use stund::protocol::{
    ClientMessage, CloseParameters, OpenParameters, ServerMessage, StatusInformation,
    TunnelInformation, TunnelState,
};
use stund::text::{show_bytes, show_signed};

#[test]
fn bytes_are_listed_in_decimal() {
    assert_eq!(show_bytes(&Vec::new()), "[]");
    let all: Vec<u8> = (0..=255).collect();
    assert_eq!(show_bytes(&all), format!("{:?}", all));
}

#[test]
fn client_messages_are_written() {
    let host = || "a \"b\"\n\u{e9}\\".to_owned();
    for msg in [
        ClientMessage::Open(OpenParameters { host: host() }),
        ClientMessage::UserData(vec![0, 10, 255]),
        ClientMessage::Close(CloseParameters { host: host() }),
        ClientMessage::QueryStatus,
        ClientMessage::Exit,
        ClientMessage::Goodbye,
    ] {
        assert_eq!(msg.show(), format!("{:?}", msg));
    }
    assert_eq!(
        ClientMessage::Open(OpenParameters { host: host() }).show(),
        "Open(OpenParameters { host: \"a \\\"b\\\"\\n\u{e9}\\\\\" })"
    );
}

#[test]
fn server_messages_are_written() {
    assert_eq!(ServerMessage::Okay.show(), "Ok");
    let tunnel = |host: &str, state| TunnelInformation {
        host: host.to_owned(),
        state,
    };
    for msg in [
        ServerMessage::Error("it's \"broken\"".to_owned()),
        ServerMessage::SshData(vec![1]),
        ServerMessage::TunnelAlreadyOpen,
        ServerMessage::TunnelNotOpen,
        ServerMessage::StatusResponse(StatusInformation {
            tunnels: Vec::new(),
        }),
        ServerMessage::StatusResponse(StatusInformation {
            tunnels: vec![tunnel("a", TunnelState::Open)],
        }),
        ServerMessage::StatusResponse(StatusInformation {
            tunnels: vec![
                tunnel("a", TunnelState::Open),
                tunnel("b", TunnelState::Closed),
                tunnel("", TunnelState::Died),
            ],
        }),
    ] {
        assert_eq!(msg.show(), format!("{:?}", msg));
    }
}

#[test]
fn numbers_are_written_in_decimal() {
    for n in [0, 9, 10, 15, 255, 1_000_000, i32::MAX, -1, -10, i32::MIN] {
        assert_eq!(show_signed(n), format!("{}", n));
    }
}
