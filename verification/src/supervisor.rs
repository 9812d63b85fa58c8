//! The reconnect policy. The runtime's outer loop runs forever: connect,
//! hand the transport to a fresh actor, and when that run ends — for any
//! reason — come back here. The policy decides what one iteration owes:
//! whether the published status must be demoted, and how long to wait
//! before the next attempt. There is no backoff and no retry ceiling.

use vstd::prelude::*;

verus! {

/// The fixed delay before retrying a failed connection attempt.
pub const RETRY_DELAY_SECS: u64 = 5;

/// The idle interval after which the actor sends a keepalive ping.
pub const PING_INTERVAL_SECS: u64 = 10;

/// What ended the last iteration of the reconnect loop.
#[derive(Debug, Clone, PartialEq, Eq)]
pub enum SupervisorEvent {
    /// The transport could not be established.
    ConnectFailed,
    /// A connection was established and its actor's run ended, by
    /// whatever path — transport failure, close frame, or rejected
    /// authentication, which is retried no differently.
    ActorExited { auth_failure: bool },
}

/// What the loop must do before its next connection attempt.
#[derive(Debug, Clone, Copy, PartialEq, Eq, Structural)]
pub struct SupervisorStep {
    /// Demote the published status to disconnected, the instant the
    /// owning actor is gone.
    pub set_disconnected: bool,
    /// Wait this long before reconnecting.
    pub delay_secs: u64,
}

/// One reconnect decision: a failed connection attempt is retried after
/// the fixed delay; an ended actor run first demotes the status and then
/// reconnects. Authentication failure takes the same path as any other
/// failure. The loop never gives up.
pub fn supervise(e: &SupervisorEvent) -> (r: SupervisorStep)
    ensures
        match *e {
            SupervisorEvent::ConnectFailed => r == (SupervisorStep {
                set_disconnected: false,
                delay_secs: RETRY_DELAY_SECS,
            }),
            SupervisorEvent::ActorExited { .. } => r == (SupervisorStep {
                set_disconnected: true,
                delay_secs: RETRY_DELAY_SECS,
            }),
        },
{
    match e {
        SupervisorEvent::ConnectFailed => SupervisorStep {
            set_disconnected: false,
            delay_secs: RETRY_DELAY_SECS,
        },
        SupervisorEvent::ActorExited { .. } => SupervisorStep {
            set_disconnected: true,
            delay_secs: RETRY_DELAY_SECS,
        },
    }
}

} // verus!
