use stund::pty::{
    pts_name, split, would_block, AfterOpenCall, AfterSetupCall, AfterSpawnStep, Child, ExitEvent,
    ExitStep, FdPoll, HalfStep, IoErrorKind, OpenCall, Opening, SetupCall, SpawnStep, Spawning,
    WaitResult, PTS_NAME_CAPACITY,
};

fn run(nonblock: Option<i32>, results: &[i32]) -> AfterOpenCall {
    let mut opening = Opening::begin(nonblock);
    for r in results {
        match opening.returned(*r) {
            AfterOpenCall::Call(next) => opening = next,
            end => return end,
        }
    }
    AfterOpenCall::Call(opening)
}

#[test]
fn a_blocking_master_takes_three_calls() {
    assert_eq!(run(None, &[5, 0, 0]), AfterOpenCall::Opened(5));
    assert_eq!(run(None, &[-1]), AfterOpenCall::Failed);
    assert_eq!(run(None, &[5, -1]), AfterOpenCall::Failed);
    assert_eq!(run(None, &[5, 0, 1]), AfterOpenCall::Failed);
}

#[test]
fn a_nonblocking_master_takes_five_calls() {
    let flag = 0o4000;
    assert_eq!(
        run(Some(flag), &[0, 0, 0, 2, 0]),
        AfterOpenCall::Opened(0)
    );
    match run(Some(flag), &[5, 0, 0, 2]) {
        AfterOpenCall::Call(next) => {
            assert_eq!(next.call, OpenCall::SetFlags(0o4002));
            assert_eq!(next.fd, 5);
        }
        other => panic!("{:?}", other),
    }
    assert_eq!(run(Some(flag), &[5, 0, 0, -1]), AfterOpenCall::Failed);
    assert_eq!(run(Some(flag), &[5, 0, 0, 2, -1]), AfterOpenCall::Failed);
}

#[test]
fn the_name_of_a_slave_ends_at_the_zero() {
    let mut buf = [0u8; PTS_NAME_CAPACITY];
    buf[..10].copy_from_slice(b"/dev/pts/7");
    assert_eq!(pts_name(&buf), b"/dev/pts/7".to_vec());
    assert_eq!(pts_name(&[0, 1, 2]), Vec::<u8>::new());
}

fn setup(raw: bool, results: &[i32]) -> (Vec<SetupCall>, AfterSetupCall) {
    let mut call = SetupCall::begin(raw);
    let mut calls = vec![call];
    for r in results {
        match call.returned(*r) {
            AfterSetupCall::Call(next) => {
                call = next;
                calls.push(next);
            }
            end => return (calls, end),
        }
    }
    (calls, AfterSetupCall::Call(call))
}

#[test]
fn a_child_process_is_set_up() {
    let (calls, end) = setup(true, &[0, 0, 0, 1234, 0]);
    assert_eq!(
        calls,
        vec![
            SetupCall::GetAttributes,
            SetupCall::SetRaw,
            SetupCall::CloseMaster,
            SetupCall::NewSession,
            SetupCall::ControlTerminal,
        ]
    );
    assert_eq!(end, AfterSetupCall::Ready);
    let (calls, end) = setup(false, &[0, 1234, 0]);
    assert_eq!(calls.len(), 3);
    assert_eq!(end, AfterSetupCall::Ready);
}

#[test]
fn the_setup_of_a_child_process_may_fail() {
    assert_eq!(setup(true, &[-1]).1, AfterSetupCall::Failed);
    assert_eq!(setup(true, &[0, -1]).1, AfterSetupCall::Failed);
    assert_eq!(setup(false, &[-1]).1, AfterSetupCall::Failed);
    assert_eq!(setup(false, &[0, -1]).1, AfterSetupCall::Failed);
    assert_eq!(setup(false, &[0, 1, -1]).1, AfterSetupCall::Failed);
}

fn waited(n: i32, interrupted: bool, status: i32) -> ExitEvent {
    ExitEvent::Waited(WaitResult {
        n,
        interrupted,
        status,
    })
}

#[test]
fn a_child_is_awaited() {
    let mut child = Child::new(42);
    assert_eq!(child.id(), 42);
    assert_eq!(child.poll_exit(ExitEvent::Wake), ExitStep::Wait);
    assert_eq!(child.poll_exit(waited(0, false, 0)), ExitStep::PollSignal);
    assert_eq!(
        child.poll_exit(ExitEvent::SignalNotReady),
        ExitStep::NotReady
    );
    assert_eq!(child.poll_exit(ExitEvent::SignalReady), ExitStep::Wait);
    assert_eq!(child.poll_exit(waited(-1, true, 0)), ExitStep::Wait);
    assert_eq!(child.poll_exit(waited(-1, false, 0)), ExitStep::Failed);
    assert_eq!(child.poll_exit(ExitEvent::SignalFailed), ExitStep::Failed);
    assert!(!child.has_exited());
    assert!(child.kill());
    assert_eq!(child.poll_exit(waited(42, false, 256)), ExitStep::Ready(256));
    assert!(child.has_exited());
}

#[test]
fn a_reaped_child_is_never_signalled() {
    let mut child = Child::new(42);
    assert!(child.dropped());
    child.poll_exit(waited(42, false, 0));
    assert!(!child.kill());
    assert!(!child.dropped());
}

#[test]
fn a_forgotten_child_lives_on() {
    let child = Child::new(42).forget();
    assert!(!child.dropped());
    assert!(child.kill());
    assert_eq!(child.id(), 42);
}

#[test]
fn halves_take_turns() {
    let error = would_block();
    assert_eq!(error.kind, IoErrorKind::WouldBlock);
    assert_eq!(error.text, "would block");
    let (r, w) = split(5);
    for step in [r.read(true), w.write(true), w.flush(true)] {
        assert_eq!(step, HalfStep::Proceed);
    }
    for step in [r.read(false), w.write(false), w.flush(false)] {
        assert_eq!(step, HalfStep::Failed(would_block()));
    }
    for step in [r.read_buf(true), w.write_buf(true), w.shutdown(true)] {
        assert_eq!(step, HalfStep::Proceed);
    }
    for step in [r.read_buf(false), w.write_buf(false), w.shutdown(false)] {
        assert_eq!(step, HalfStep::NotReady);
    }
}

#[test]
fn halves_share_the_master() {
    let (r, w) = split(5);
    assert_eq!(r.as_async_pty_fd(true), FdPoll::Ready(5));
    assert_eq!(w.as_async_pty_fd(true), FdPoll::Ready(5));
    assert_eq!(r.as_async_pty_fd(false), FdPoll::NotReady);
    assert_eq!(w.as_async_pty_fd(false), FdPoll::NotReady);
}

fn spawn_steps(begin: Spawning) -> Vec<SpawnStep> {
    let mut spawning = begin;
    let mut steps = vec![spawning.step];
    loop {
        assert_eq!(spawning.next(false), AfterSpawnStep::Failed);
        match spawning.next(true) {
            AfterSpawnStep::Step(step) => {
                spawning.step = step;
                steps.push(step);
            }
            AfterSpawnStep::Spawned => return steps,
            AfterSpawnStep::Failed => unreachable!(),
        }
    }
}

#[test]
fn a_pristine_slave_differs_in_raw_mode_only() {
    let streams = [
        SpawnStep::OpenSlave,
        SpawnStep::Stdin,
        SpawnStep::Stdout,
        SpawnStep::Stderr,
    ];
    let raw = spawn_steps(Spawning::spawn_pty_async());
    let pristine = spawn_steps(Spawning::spawn_pty_async_pristine());
    assert_eq!(raw[..4], streams);
    assert_eq!(pristine[..4], streams);
    assert_eq!(raw[4..], [SpawnStep::Spawn(SetupCall::GetAttributes)]);
    assert_eq!(pristine[4..], [SpawnStep::Spawn(SetupCall::CloseMaster)]);
    assert_eq!(
        setup(true, &[0, 0, 0, 1, 0]).0[2..],
        setup(false, &[0, 1, 0]).0[..]
    );
}
