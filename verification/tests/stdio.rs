use stund::stdio::{
    write_next, AfterStdin, ChannelEvent, FlushEvent, FlushPoll, OfferEvent, StartSend,
    StdinEvent, StdinPoll, StdinState, StdinStream, StdinTurn, StdioPacket, StdoutAction,
    StdoutSink, STDIN_CHUNK,
};

type Event = StdinEvent<String>;

fn go(state: StdinState, event: Event) -> StdinState {
    match state.next(event) {
        AfterStdin::Continue(state) => state,
        other => panic!("{:?}", other),
    }
}

#[test]
fn the_reading_thread_passes_packets_on() {
    let s = StdinState::new();
    assert_eq!(s.turn, StdinTurn::Start);
    let s = go(s, StdinEvent::Running);
    assert_eq!(s.turn, StdinTurn::CheckStop);
    let s = go(s, StdinEvent::NotReady);
    assert_eq!(s.turn, StdinTurn::Read);
    let (s, packet) = match s.next::<String>(StdinEvent::Packet(StdioPacket::Data(vec![1, 2]))) {
        AfterStdin::Send(s, packet) => (s, packet),
        other => panic!("{:?}", other),
    };
    assert_eq!(packet, StdioPacket::Data(vec![1, 2]));
    let s = go(s, StdinEvent::NotReady);
    assert_eq!(s.turn, StdinTurn::AwaitSend);
    let s = go(s, StdinEvent::NotReady);
    assert_eq!(s.turn, StdinTurn::CheckStop);
    let s = go(s, StdinEvent::NotReady);
    let s = go(s, StdinEvent::Sent);
    assert_eq!(s.turn, StdinTurn::Read);
    assert!(!s.sending);
    assert_eq!(STDIN_CHUNK, 512);
}

#[test]
fn the_reading_thread_stops() {
    let s = go(StdinState::new(), StdinEvent::Running);
    assert_eq!(s.next::<String>(StdinEvent::Stop), AfterStdin::Break);
    let s = go(s, StdinEvent::NotReady);
    assert_eq!(go(s, StdinEvent::Stop), s);
    let waiting = StdinState {
        turn: StdinTurn::AwaitSend,
        sending: true,
    };
    assert_eq!(
        waiting.next::<String>(StdinEvent::SendFailed),
        AfterStdin::Failed
    );
}

#[test]
fn what_the_input_stream_gives() {
    let stream = StdinStream {};
    assert_eq!(
        stream.poll::<String>(ChannelEvent::Broken),
        StdinPoll::FailedOther
    );
    assert_eq!(
        stream.poll::<String>(ChannelEvent::NotReady),
        StdinPoll::NotReady
    );
    assert_eq!(stream.poll::<String>(ChannelEvent::Closed), StdinPoll::End);
    assert_eq!(
        stream.poll::<String>(ChannelEvent::Packet(StdioPacket::Data(vec![7]))),
        StdinPoll::Data(vec![7])
    );
    assert_eq!(
        stream.poll::<String>(ChannelEvent::Packet(StdioPacket::Data(Vec::new()))),
        StdinPoll::End
    );
    assert_eq!(
        stream.poll(ChannelEvent::Packet(StdioPacket::Failed {
            eof: true,
            error: "eof".to_owned()
        })),
        StdinPoll::End
    );
    assert_eq!(
        stream.poll(ChannelEvent::Packet(StdioPacket::Failed {
            eof: false,
            error: "io".to_owned()
        })),
        StdinPoll::Failed("io".to_owned())
    );
}

#[test]
fn what_becomes_of_output() {
    let sink = StdoutSink {};
    assert_eq!(sink.command(vec![1]), Some(vec![1]));
    assert_eq!(sink.start_send(OfferEvent::Taken), StartSend::Ready);
    assert_eq!(sink.start_send(OfferEvent::Broken), StartSend::FailedOther);
    assert_eq!(
        sink.start_send(OfferEvent::Full(Some(vec![1]))),
        StartSend::NotReady(vec![1])
    );
    assert_eq!(sink.poll_complete(FlushEvent::Flushed), FlushPoll::Ready);
    assert_eq!(
        sink.poll_complete(FlushEvent::NotReady),
        FlushPoll::NotReady
    );
    assert_eq!(
        sink.poll_complete(FlushEvent::Broken),
        FlushPoll::FailedOther
    );
}

#[test]
fn what_the_writing_thread_does() {
    assert_eq!(write_next(Ok(None)), StdoutAction::Break);
    assert_eq!(
        write_next(Ok(Some(vec![1]))),
        StdoutAction::Write(vec![1])
    );
    assert_eq!(write_next(Err(())), StdoutAction::Skip);
}
