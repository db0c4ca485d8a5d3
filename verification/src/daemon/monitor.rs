//! The task that watches over one SSH process until it is dead.

use vstd::prelude::*;

use crate::daemon::state::{State, TunnelState};

verus! {

/// Waiting for the SSH process to exit, or for the order to kill it.
#[derive(Debug)]
pub struct AwaitingChildEvent {
    /// The host of the tunnel.
    pub key: String,
}

/// News of an SSH process.
#[derive(Clone, Copy, Debug, Eq, PartialEq, Structural)]
pub enum ChildEvent {
    /// Nothing can be learnt about the process.
    ChildFailed,
    /// The process exited, with this status.
    ChildExited(i32),
    /// The process is still running.
    ChildPending,
    /// Nobody can order the process killed any more.
    KillCanceled,
    /// The process is to be killed.
    KillOrdered,
    /// There is no order to kill the process yet.
    KillPending,
}

/// What comes next for the monitor.
#[derive(Debug)]
pub enum AfterAwaitingChildEvent {
    /// See if there is an order to kill the process.
    CheckKill(AwaitingChildEvent),
    /// Wait for news.
    Wait(AwaitingChildEvent),
    /// Kill the process, if it still has to be; take no more orders; and tell
    /// whoever cares the status that the process exited with, or `None` if it
    /// was killed.
    NotifyingChildDied { kill: bool, status: Option<i32> },
    /// Give up.
    ChildError,
}

/// How the notice of the process's death is doing.
#[derive(Clone, Copy, Debug, Eq, PartialEq, Structural)]
pub enum NoticeEvent {
    Failed,
    Sent,
    Pending,
}

/// What comes next for a monitor whose process is dead.
#[derive(Clone, Copy, Debug, Eq, PartialEq, Structural)]
pub enum AfterNotifyingChildDied {
    Wait,
    ChildReaped,
    ChildError,
}

impl AwaitingChildEvent {
    /// How a process is remembered after news of it, if it is dead then.
    pub open spec fn remembered<K>(event: ChildEvent) -> Option<TunnelState<K>> {
        match event {
            ChildEvent::ChildExited(status) => Some(TunnelState::Exited { status: Some(status) }),
            ChildEvent::KillOrdered => Some(TunnelState::Exited { status: None }),
            _ => None,
        }
    }

    /// Act on news of the process. If it is dead, or about to be, the daemon
    /// remembers it as such.
    pub fn poll_awaiting_child_event<K>(self, state: &mut State<K>, event: ChildEvent) -> (after:
        AfterAwaitingChildEvent)
        requires
            old(state).wf(),
        ensures
            final(state).wf(),
            final(state).path() == old(state).path(),
            final(state).in_foreground() == old(state).in_foreground(),
            final(state)@ == match Self::remembered::<K>(event) {
                Some(child) => old(state)@.insert(self.key@, child),
                None => old(state)@,
            },
            after == match event {
                ChildEvent::ChildPending => AfterAwaitingChildEvent::CheckKill(self),
                ChildEvent::KillPending => AfterAwaitingChildEvent::Wait(self),
                ChildEvent::ChildExited(status) => AfterAwaitingChildEvent::NotifyingChildDied {
                    kill: false,
                    status: Some(status),
                },
                ChildEvent::KillOrdered => AfterAwaitingChildEvent::NotifyingChildDied {
                    kill: true,
                    status: None,
                },
                ChildEvent::ChildFailed => AfterAwaitingChildEvent::ChildError,
                ChildEvent::KillCanceled => AfterAwaitingChildEvent::ChildError,
            },
    {
        match event {
            ChildEvent::ChildFailed => AfterAwaitingChildEvent::ChildError,
            ChildEvent::ChildExited(status) => {
                state.insert(self.key, TunnelState::Exited { status: Some(status) });
                AfterAwaitingChildEvent::NotifyingChildDied { kill: false, status: Some(status) }
            },
            ChildEvent::ChildPending => AfterAwaitingChildEvent::CheckKill(self),
            ChildEvent::KillCanceled => AfterAwaitingChildEvent::ChildError,
            ChildEvent::KillOrdered => {
                state.insert(self.key, TunnelState::Exited { status: None });
                AfterAwaitingChildEvent::NotifyingChildDied { kill: true, status: None }
            },
            ChildEvent::KillPending => AfterAwaitingChildEvent::Wait(self),
        }
    }
}

/// See to it that the notice of the process's death gets out.
pub fn poll_notifying_child_died(event: NoticeEvent) -> (after: AfterNotifyingChildDied)
    ensures
        after == match event {
            NoticeEvent::Failed => AfterNotifyingChildDied::ChildError,
            NoticeEvent::Sent => AfterNotifyingChildDied::ChildReaped,
            NoticeEvent::Pending => AfterNotifyingChildDied::Wait,
        },
{
    match event {
        NoticeEvent::Failed => AfterNotifyingChildDied::ChildError,
        NoticeEvent::Sent => AfterNotifyingChildDied::ChildReaped,
        NoticeEvent::Pending => AfterNotifyingChildDied::Wait,
    }
}

} // verus!
