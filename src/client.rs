//! The client's decisions: when to spawn the daemon, when to retry the
//! connection and when to give up, and what to do with each response frame.
//! The program performs the connects, the sleeps and the printing.

use vstd::prelude::*;

use crate::error::Error;
use crate::ipc::{is_client_error, error_from_response, Response};

verus! {

/// How long the client waits for a spawned daemon, in milliseconds.
pub const CONNECT_TIMEOUT_MS: u64 = 5000;

/// The pause between two connection attempts, in milliseconds.
pub const RETRY_INTERVAL_MS: u64 = 100;

/// What one connection attempt gave.
#[derive(Debug, PartialEq, Eq)]
pub enum ConnectOutcome {
    /// The socket accepted the connection.
    Connected,
    /// No daemon listens yet: the socket file is missing or refuses connections.
    Unavailable,
    /// Any other failure, with its description.
    Failed(String),
}

/// What the client does next while connecting.
#[derive(Debug, PartialEq, Eq)]
pub enum ConnectAction {
    /// The connection is up.
    Ready,
    /// Start the daemon, then report back with `on_spawned`.
    Spawn,
    /// Wait this many milliseconds, then attempt again.
    RetryAfter(u64),
    /// Give up with this error.
    Fail(Error),
}

/// Milliseconds from `start` to `now` on a monotonic clock.
pub open spec fn elapsed(start: u64, now: u64) -> int {
    if now >= start {
        now - start
    } else {
        0
    }
}

/// The connect-or-spawn handshake: one attempt, a spawn when no daemon
/// listens, then retries until the deadline.
pub struct ConnectPlan {
    spawned_at: Option<u64>,
}

impl ConnectPlan {
    /// When the daemon was spawned, if it was.
    pub closed spec fn spawn_time(&self) -> Option<u64> {
        self.spawned_at
    }

    /// Nothing attempted yet.
    pub fn new() -> (r: ConnectPlan)
        ensures
            r.spawn_time() is None,
    {
        ConnectPlan { spawned_at: None }
    }

    /// Decides after an attempt made at `now` (milliseconds).
    pub fn on_attempt(&mut self, outcome: ConnectOutcome, now: u64) -> (r: ConnectAction)
        ensures
            final(self).spawn_time() == old(self).spawn_time(),
            outcome is Connected ==> r == ConnectAction::Ready,
            outcome matches ConnectOutcome::Failed(m) ==> r matches ConnectAction::Fail(Error::Io(
                e,
            )) && e@ == m@,
            outcome is Unavailable && old(self).spawn_time() is None ==> r == ConnectAction::Spawn,
            outcome is Unavailable && old(self).spawn_time() is Some ==> if elapsed(
                old(self).spawn_time()->Some_0,
                now,
            ) >= CONNECT_TIMEOUT_MS {
                r == ConnectAction::Fail(Error::Timeout)
            } else {
                r == ConnectAction::RetryAfter(RETRY_INTERVAL_MS)
            },
    {
        match outcome {
            ConnectOutcome::Connected => ConnectAction::Ready,
            ConnectOutcome::Failed(m) => ConnectAction::Fail(Error::Io(m)),
            ConnectOutcome::Unavailable => match self.spawned_at {
                None => ConnectAction::Spawn,
                Some(start) => self.deadline_check(start, now),
            },
        }
    }

    /// Records the spawn made at `now` and schedules the first retry.
    pub fn on_spawned(&mut self, now: u64) -> (r: ConnectAction)
        ensures
            final(self).spawn_time() == Some(now),
            r == ConnectAction::RetryAfter(RETRY_INTERVAL_MS),
    {
        self.spawned_at = Some(now);
        self.deadline_check(now, now)
    }

    fn deadline_check(&self, start: u64, now: u64) -> (r: ConnectAction)
        ensures
            elapsed(start, now) >= CONNECT_TIMEOUT_MS ==> r == ConnectAction::Fail(Error::Timeout),
            elapsed(start, now) < CONNECT_TIMEOUT_MS ==> r == ConnectAction::RetryAfter(
                RETRY_INTERVAL_MS,
            ),
    {
        let waited = if now >= start {
            now - start
        } else {
            0
        };
        if waited >= CONNECT_TIMEOUT_MS {
            ConnectAction::Fail(Error::Timeout)
        } else {
            ConnectAction::RetryAfter(RETRY_INTERVAL_MS)
        }
    }
}

/// What the client does with one response frame.
#[derive(Debug, PartialEq, Eq)]
pub enum ClientStep {
    /// Print the token, if any, at once; stop after it when `done` is set.
    Emit { token: Option<String>, done: bool },
    /// Stop with the daemon's error.
    Abort(Error),
}

/// Reads one response frame: an error frame aborts, a token frame is printed.
pub fn on_response(resp: Response) -> (r: ClientStep)
    ensures
        resp matches Response::Token(t) ==> r == (ClientStep::Emit { token: t.token, done: t.eos }),
        resp matches Response::Error(e) ==> r matches ClientStep::Abort(err) && is_client_error(
            e.error@,
            e.error_type@,
            err,
        ),
{
    match resp {
        Response::Token(t) => ClientStep::Emit { token: t.token, done: t.eos },
        Response::Error(e) => ClientStep::Abort(error_from_response(&e)),
    }
}

} // verus!
