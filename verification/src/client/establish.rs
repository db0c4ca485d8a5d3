//! Getting in touch with the daemon, and starting one if need be.

use vstd::prelude::*;

use crate::client::connection::Connection;

verus! {

/// How far the attempt to get in touch has come.
#[derive(Clone, Copy, Debug, Eq, PartialEq, Structural)]
pub enum EstablishStage {
    /// Trying to connect.
    Connecting,
    /// Nobody answered: starting a daemon.
    Launching,
    /// Giving the daemon time to come up, if it started at all.
    Pausing { launched: bool },
    /// Trying to connect to the daemon that was started.
    Reconnecting,
}

/// An attempt to get in touch with the daemon.
#[derive(Clone, Copy, Debug, Eq, PartialEq, Structural)]
pub struct Establish {
    /// Start a daemon if none is running.
    pub autolaunch: bool,
    pub stage: EstablishStage,
}

/// What an attempt needs done.
#[derive(Clone, Copy, Debug, Eq, PartialEq, Structural)]
pub enum EstablishRequest {
    /// Connect to the daemon's socket.
    Connect,
    /// Run this program again, as the daemon.
    LaunchDaemon,
    /// Let so many milliseconds pass.
    Pause(u64),
}

/// What became of an [`EstablishRequest`].
#[derive(Debug, PartialEq)]
pub enum EstablishEvent {
    /// The daemon answered.
    Connected,
    /// Nobody answered.
    Refused(String),
    /// There is no telling where this program is.
    NoExecutable(String),
    /// This program could not be run.
    LaunchFailed(String),
    /// The program was run, and went well or not.
    Launched { success: bool },
    /// The time has passed.
    Paused,
}

/// Why there is no connection.
#[derive(Debug, PartialEq)]
pub enum EstablishError {
    NoExecutable(String),
    LaunchFailed(String),
    LaunchReportedFailure,
    StillRefused(String),
}

impl EstablishError {
    /// What to tell the user first. What the system said comes behind it.
    pub fn describe(&self) -> (text: String)
        ensures
            text@ == match self {
                EstablishError::NoExecutable(_) => "couldn't get current executable path"@,
                EstablishError::LaunchFailed(_) => "daemon launcher reported failure"@,
                EstablishError::LaunchReportedFailure => "failed to launch background daemon"@,
                EstablishError::StillRefused(_) =>
                    "failed to connect to daemon even after launching it"@,
            },
    {
        match self {
            EstablishError::NoExecutable(_) => "couldn't get current executable path".to_owned(),
            EstablishError::LaunchFailed(_) => "daemon launcher reported failure".to_owned(),
            EstablishError::LaunchReportedFailure =>
                "failed to launch background daemon".to_owned(),
            EstablishError::StillRefused(_) =>
                "failed to connect to daemon even after launching it".to_owned(),
        }
    }
}

/// What comes next in the attempt.
#[derive(Debug)]
pub enum AfterEstablish {
    /// Something has to be done first.
    Ask(Establish, EstablishRequest),
    /// The client is connected.
    Established(Connection),
    /// No daemon is running, and none was to be started.
    NotRunning,
    /// The attempt failed.
    Failed(EstablishError),
}

/// What to tell the user first if the path of the socket is not known.
pub const NO_SOCKET_PATH: &'static str = "couldn't get path to talk to daemon";

/// How long a new daemon is given to come up.
pub const LAUNCH_PAUSE_MS: u64 = 300;

impl Establish {
    /// What has to be done at this stage.
    pub open spec fn asks(self) -> EstablishRequest {
        match self.stage {
            EstablishStage::Connecting => EstablishRequest::Connect,
            EstablishStage::Launching => EstablishRequest::LaunchDaemon,
            EstablishStage::Pausing { .. } => EstablishRequest::Pause(LAUNCH_PAUSE_MS),
            EstablishStage::Reconnecting => EstablishRequest::Connect,
        }
    }

    /// What comes next. An event that is no answer to what was asked changes
    /// nothing.
    pub open spec fn step(self, event: EstablishEvent) -> AfterEstablish {
        match (self.stage, event) {
            (EstablishStage::Connecting, EstablishEvent::Connected) => AfterEstablish::Established(
                Connection { },
            ),
            (EstablishStage::Connecting, EstablishEvent::Refused(_)) => if self.autolaunch {
                self.on(EstablishStage::Launching)
            } else {
                AfterEstablish::NotRunning
            },
            (EstablishStage::Launching, EstablishEvent::NoExecutable(cause)) =>
                AfterEstablish::Failed(EstablishError::NoExecutable(cause)),
            (EstablishStage::Launching, EstablishEvent::LaunchFailed(cause)) =>
                AfterEstablish::Failed(EstablishError::LaunchFailed(cause)),
            (EstablishStage::Launching, EstablishEvent::Launched { success }) => self.on(
                EstablishStage::Pausing { launched: success },
            ),
            (EstablishStage::Pausing { launched }, EstablishEvent::Paused) => if launched {
                self.on(EstablishStage::Reconnecting)
            } else {
                AfterEstablish::Failed(EstablishError::LaunchReportedFailure)
            },
            (EstablishStage::Reconnecting, EstablishEvent::Connected) =>
                AfterEstablish::Established(Connection { }),
            (EstablishStage::Reconnecting, EstablishEvent::Refused(cause)) =>
                AfterEstablish::Failed(EstablishError::StillRefused(cause)),
            (stage, _) => self.on(stage),
        }
    }

    /// Go on at a stage.
    pub open spec fn on(self, stage: EstablishStage) -> AfterEstablish {
        let next = Establish { stage, ..self };
        AfterEstablish::Ask(next, next.asks())
    }

    fn go_on(self, stage: EstablishStage) -> (after: AfterEstablish)
        ensures
            after == self.on(stage),
    {
        let next = Establish { autolaunch: self.autolaunch, stage };
        let request = match stage {
            EstablishStage::Connecting => EstablishRequest::Connect,
            EstablishStage::Launching => EstablishRequest::LaunchDaemon,
            EstablishStage::Pausing { .. } => EstablishRequest::Pause(LAUNCH_PAUSE_MS),
            EstablishStage::Reconnecting => EstablishRequest::Connect,
        };
        AfterEstablish::Ask(next, request)
    }

    /// Go on with the attempt.
    pub fn next(self, event: EstablishEvent) -> (after: AfterEstablish)
        ensures
            after == self.step(event),
    {
        match (self.stage, event) {
            (EstablishStage::Connecting, EstablishEvent::Connected) => AfterEstablish::Established(
                Connection { },
            ),
            (EstablishStage::Connecting, EstablishEvent::Refused(_)) => if self.autolaunch {
                self.go_on(EstablishStage::Launching)
            } else {
                AfterEstablish::NotRunning
            },
            (EstablishStage::Launching, EstablishEvent::NoExecutable(cause)) =>
                AfterEstablish::Failed(EstablishError::NoExecutable(cause)),
            (EstablishStage::Launching, EstablishEvent::LaunchFailed(cause)) =>
                AfterEstablish::Failed(EstablishError::LaunchFailed(cause)),
            (EstablishStage::Launching, EstablishEvent::Launched { success }) => self.go_on(
                EstablishStage::Pausing { launched: success },
            ),
            (EstablishStage::Pausing { launched }, EstablishEvent::Paused) => if launched {
                self.go_on(EstablishStage::Reconnecting)
            } else {
                AfterEstablish::Failed(EstablishError::LaunchReportedFailure)
            },
            (EstablishStage::Reconnecting, EstablishEvent::Connected) =>
                AfterEstablish::Established(Connection { }),
            (EstablishStage::Reconnecting, EstablishEvent::Refused(cause)) =>
                AfterEstablish::Failed(EstablishError::StillRefused(cause)),
            (stage, _) => self.go_on(stage),
        }
    }
}

impl Connection {
    /// Get in touch with the daemon, starting one only if `autolaunch` says so.
    fn establish_inner(autolaunch: bool) -> (r: (Establish, EstablishRequest))
        ensures
            r.0 == (Establish { autolaunch, stage: EstablishStage::Connecting }),
            r.1 == r.0.asks(),
    {
        (Establish { autolaunch, stage: EstablishStage::Connecting }, EstablishRequest::Connect)
    }

    /// Get in touch with the daemon if it is running.
    pub fn try_establish() -> (r: (Establish, EstablishRequest))
        ensures
            r.0 == (Establish { autolaunch: false, stage: EstablishStage::Connecting }),
            r.1 == r.0.asks(),
    {
        Connection::establish_inner(false)
    }

    /// Get in touch with the daemon, and start one if none is running.
    pub fn establish() -> (r: (Establish, EstablishRequest))
        ensures
            r.0 == (Establish { autolaunch: true, stage: EstablishStage::Connecting }),
            r.1 == r.0.asks(),
    {
        Connection::establish_inner(true)
    }
}

/// How an attempt stands after `events`, if it is still on.
pub open spec fn attempt_after(start: Establish, events: Seq<EstablishEvent>) -> Option<Establish>
    decreases events.len(),
{
    if events.len() == 0 {
        Some(start)
    } else {
        match attempt_after(start, events.drop_last()) {
            Some(attempt) => match attempt.step(events.last()) {
                AfterEstablish::Ask(next, _) => Some(next),
                _ => None,
            },
            None => None,
        }
    }
}

/// An attempt that may start a daemon never ends with none running: it
/// connects, or fails with an error.
pub proof fn law_establish_never_gives_up(events: Seq<EstablishEvent>, event: EstablishEvent)
    ensures
        attempt_after(
            Establish { autolaunch: true, stage: EstablishStage::Connecting },
            events,
        ) matches Some(attempt) ==> !(attempt.step(event) is NotRunning),
{
    lemma_autolaunch_stays(
        Establish { autolaunch: true, stage: EstablishStage::Connecting },
        events,
    );
}

/// An attempt that may not start a daemon never asks for one to be started.
pub proof fn law_try_establish_never_launches(events: Seq<EstablishEvent>)
    ensures
        attempt_after(
            Establish { autolaunch: false, stage: EstablishStage::Connecting },
            events,
        ) matches Some(attempt) ==> attempt.asks() == EstablishRequest::Connect,
{
    lemma_stays_connecting(events);
}

proof fn lemma_stays_connecting(events: Seq<EstablishEvent>)
    ensures
        attempt_after(
            Establish { autolaunch: false, stage: EstablishStage::Connecting },
            events,
        ) matches Some(attempt) ==> attempt.stage is Connecting && !attempt.autolaunch,
    decreases events.len(),
{
    if events.len() > 0 {
        lemma_stays_connecting(events.drop_last());
    }
}

proof fn lemma_autolaunch_stays(start: Establish, events: Seq<EstablishEvent>)
    ensures
        attempt_after(start, events) matches Some(attempt) ==> attempt.autolaunch
            == start.autolaunch,
    decreases events.len(),
{
    if events.len() > 0 {
        lemma_autolaunch_stays(start, events.drop_last());
    }
}

} // verus!
