//! The daemon's shared record: the loaded backend, if any, and the time of
//! the last generation step. The daemon keeps one behind a mutex; every
//! method here runs with that mutex held.

use vstd::prelude::*;

use crate::error::Error;
use crate::ipc::{token_frame, token_response, TokenResponse};
use crate::model::{dotted_words, BoxedModelBackend};

verus! {

/// Seconds without activity after which the idle task unloads the model.
pub const IDLE_TIMEOUT_SECS: u64 = 300;

/// How often the idle task wakes, in seconds.
pub const IDLE_CHECK_INTERVAL_SECS: u64 = 5;

/// Milliseconds from `last` to `now` on a monotonic clock.
pub open spec fn idle_ms(last: u64, now: u64) -> int {
    if now >= last {
        now - last
    } else {
        0
    }
}

/// A backend last used at `last` has been idle for longer than `timeout_secs` at `now`.
pub open spec fn is_idle(last: u64, now: u64, timeout_secs: u64) -> bool {
    idle_ms(last, now) > timeout_secs * 1000
}

/// What one wake of the idle task did.
#[derive(Debug, PartialEq, Eq)]
pub enum IdleOutcome {
    /// No backend was loaded.
    Empty,
    /// The backend has been used recently and stays.
    Kept,
    /// The backend was taken out of the slot and unloaded.
    Unloaded,
    /// The backend was taken out of the slot; unloading it reported this error.
    UnloadFailed(Error),
}

/// The daemon's state. Times are milliseconds since the daemon started.
pub struct DaemonState {
    pub model: Option<BoxedModelBackend>,
    pub last_activity: u64,
}

impl Default for DaemonState {
    fn default() -> (r: DaemonState)
        ensures
            r.model is None,
            r.last_activity == 0,
    {
        DaemonState { model: None, last_activity: 0 }
    }
}

impl DaemonState {
    /// A backend is loaded and usable.
    pub open spec fn loaded(&self) -> bool {
        self.model matches Some(m) && m.is_loaded()
    }

    /// Whether a request must load a backend first.
    pub fn needs_backend(&self) -> (r: bool)
        ensures
            r == (self.model is None),
    {
        self.model.is_none()
    }

    /// Installs the backend a request loaded at time `now`, which counts as
    /// activity; a failed load leaves the state as it was.
    pub fn install_backend(&mut self, loaded: Result<BoxedModelBackend, Error>, now: u64) -> (r: Result<
        (),
        Error,
    >)
        ensures
            loaded is Ok ==> r is Ok && final(self).model == Some(loaded->Ok_0)
                && final(self).last_activity == now,
            loaded is Err ==> r == Err::<(), Error>(loaded->Err_0) && *final(self) == *old(self),
    {
        match loaded {
            Ok(b) => {
                self.model = Some(b);
                self.last_activity = now;
                Ok(())
            },
            Err(e) => Err(e),
        }
    }

    /// Starts a generation over `prompt` on the loaded backend at time `now`;
    /// a successful prompt counts as activity.
    pub fn start_generation(&mut self, prompt: &str, now: u64) -> (r: Result<(), Error>)
        ensures
            old(self).model is None ==> r is Err && r->Err_0 is ModelLoad && *final(self) == *old(self),
            old(self).loaded() && r is Err ==> r->Err_0 is ModelLoad,
            final(self).model is Some == old(self).model is Some,
            old(self).model is Some ==> final(self).model->Some_0.is_loaded()
                == old(self).model->Some_0.is_loaded(),
            r is Ok ==> final(self).last_activity == now,
            r is Err ==> final(self).last_activity == old(self).last_activity,
            old(self).loaded() && r is Ok ==> final(self).model->Some_0.prompt_text() == Some(prompt@)
                && final(self).model->Some_0.emitted().len() == 0,
            old(self).model is Some && old(self).model->Some_0.dummy_pending() is Some ==> r is Ok
                && final(self).model->Some_0.dummy_pending() == Some(
                old(self).model->Some_0.dummy_pending()->Some_0 + dotted_words(prompt@),
            ),
    {
        match &mut self.model {
            Some(m) => {
                m.prompt(prompt)?;
                self.last_activity = now;
                Ok(())
            },
            None => Err(Error::ModelLoad("no model is loaded".to_owned())),
        }
    }

    /// Takes one step of the generation at time `now` and builds its frame.
    /// A step marks activity; the frame carries the token the backend handed
    /// out, and ends the stream exactly when the backend has none left.
    pub fn next_response(&mut self, now: u64) -> (r: Result<TokenResponse, Error>)
        ensures
            old(self).model is None ==> r is Err && r->Err_0 is ModelLoad && *final(self) == *old(self),
            final(self).model is Some == old(self).model is Some,
            r is Ok ==> final(self).last_activity == now,
            r is Ok ==> r->Ok_0 == token_frame(r->Ok_0.token),
            r is Ok && r->Ok_0.eos ==> final(self).model->Some_0.finished(),
            old(self).model matches Some(m) && m.finished() ==> r is Ok && r->Ok_0.eos
                && final(self).model->Some_0.finished(),
            old(self).model is Some ==> final(self).model->Some_0.prompt_text()
                == old(self).model->Some_0.prompt_text(),
            r is Ok && r->Ok_0.token is Some ==> final(self).model->Some_0.emitted()
                == old(self).model->Some_0.emitted().push(r->Ok_0.token->Some_0@),
            r is Ok && r->Ok_0.token is None ==> final(self).model->Some_0.emitted()
                == old(self).model->Some_0.emitted(),
            old(self).model is Some && old(self).model->Some_0.dummy_pending() is Some ==> {
                let p = old(self).model->Some_0.dummy_pending()->Some_0;
                &&& r is Ok
                &&& p.len() > 0 ==> r->Ok_0.token is Some && r->Ok_0.token->Some_0@ == p[0]
                    && final(self).model->Some_0.dummy_pending() == Some(p.drop_first())
                &&& p.len() == 0 ==> r->Ok_0.eos
            },
    {
        match &mut self.model {
            Some(m) => {
                let tok = m.next_token()?;
                self.last_activity = now;
                Ok(token_response(tok))
            },
            None => Err(Error::ModelLoad("no model is loaded".to_owned())),
        }
    }

    /// One wake of the idle task at time `now`: a backend idle for more than
    /// `timeout_secs` seconds is taken out of the slot and unloaded. The
    /// outcome is `Unloaded` exactly when the backend's unload succeeded.
    pub fn evict_if_idle(&mut self, now: u64, timeout_secs: u64) -> (r: IdleOutcome)
        ensures
            final(self).last_activity == old(self).last_activity,
            old(self).model is None ==> r == IdleOutcome::Empty && final(self).model is None,
            old(self).model is Some && is_idle(old(self).last_activity, now, timeout_secs)
                ==> final(self).model is None && match old(self).model->Some_0.unload_result() {
                Ok(()) => r == IdleOutcome::Unloaded,
                Err(e) => r == IdleOutcome::UnloadFailed(e),
            },
            old(self).model is Some && !is_idle(old(self).last_activity, now, timeout_secs) ==> r
                == IdleOutcome::Kept && final(self).model == old(self).model,
    {
        if self.model.is_none() {
            return IdleOutcome::Empty;
        }
        let waited: u64 = if now >= self.last_activity {
            now - self.last_activity
        } else {
            0
        };
        if timeout_secs > u64::MAX / 1000 || waited <= timeout_secs * 1000 {
            return IdleOutcome::Kept;
        }
        match self.model.take() {
            Some(mut m) => match m.unload() {
                Ok(()) => IdleOutcome::Unloaded,
                Err(e) => IdleOutcome::UnloadFailed(e),
            },
            None => IdleOutcome::Empty,
        }
    }
}

} // verus!
