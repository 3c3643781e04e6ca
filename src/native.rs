//! The decisions of the native generator adapter. The adapter drives a
//! blocking inference library from a dedicated worker thread and reads its
//! chunks from a bounded channel; the thread, the channel and the library
//! calls belong to the daemon program, which consults these rules at each step.

use vstd::prelude::*;

verus! {

/// The chat template wrapped around a raw prompt (system, user and assistant turns).
pub open spec fn chat_template(text: Seq<char>) -> Seq<char> {
    "<|system|>\nYou are a helpful assistant.</s>\n<|user|>\n"@ + text + "</s>\n<|assistant|>\n"@
}

/// Formats a raw prompt into the chat template the model expects.
pub fn chat_prompt(text: &str) -> (r: String)
    ensures
        r@ == chat_template(text@),
{
    "<|system|>\nYou are a helpful assistant.</s>\n<|user|>\n".to_owned().concat(text).concat(
        "</s>\n<|assistant|>\n",
    )
}

/// What the worker does after one look at its stop signal and its source.
#[derive(Debug, PartialEq, Eq)]
pub enum WorkerAction {
    /// Send this chunk and keep going.
    Forward(String),
    /// Send the end-of-generation marker and exit.
    Finish,
}

/// The worker's rule: a stop request or an exhausted source ends the stream
/// with the terminal marker; otherwise the chunk is forwarded.
pub fn worker_action(stop_requested: bool, chunk: Option<String>) -> (r: WorkerAction)
    ensures
        stop_requested ==> r == WorkerAction::Finish,
        !stop_requested && chunk is None ==> r == WorkerAction::Finish,
        !stop_requested && chunk is Some ==> r == WorkerAction::Forward(chunk->Some_0),
{
    if stop_requested {
        WorkerAction::Finish
    } else {
        match chunk {
            Some(t) => WorkerAction::Forward(t),
            None => WorkerAction::Finish,
        }
    }
}

/// What one blocking receive on the token channel gave.
#[derive(Debug, PartialEq, Eq)]
pub enum Received {
    /// A chunk of generated text.
    Token(String),
    /// The worker's end-of-generation marker.
    End,
    /// The worker is gone and the channel is closed.
    Disconnected,
}

/// The outcome of reading one token through the adapter.
#[derive(Debug, PartialEq, Eq)]
pub struct Delivery {
    /// The token handed to the caller, `None` at the end of the generation.
    pub token: Option<String>,
    /// The worker's resources (stop sender, thread, receiver) must now be released.
    pub release: bool,
}

/// Whether a generation's worker and channel exist, and whether its stream
/// has already delivered its end.
pub struct Generation {
    running: bool,
    ended: bool,
}

impl Generation {
    /// A worker thread and its channel are held.
    pub closed spec fn is_running(&self) -> bool {
        self.running
    }

    /// The generation has ended: no further token comes until the next prompt.
    pub closed spec fn finished(&self) -> bool {
        !self.running || self.ended
    }

    /// No generation yet.
    pub fn idle() -> (r: Generation)
        ensures
            !r.is_running(),
            r.finished(),
    {
        Generation { running: false, ended: false }
    }

    /// A new prompt: says whether the previous worker must be stopped and
    /// joined first. Afterwards the new worker is running and its stream is open.
    pub fn restart(&mut self) -> (stop_previous: bool)
        ensures
            stop_previous == old(self).is_running(),
            final(self).is_running(),
            !final(self).finished(),
    {
        let stop_previous = self.running;
        self.running = true;
        self.ended = false;
        stop_previous
    }

    /// Whether `next_token` has to block on the channel.
    pub fn wants_receive(&self) -> (r: bool)
        ensures
            r == !self.finished(),
    {
        self.running && !self.ended
    }

    /// Interprets a receive. A closed channel ends the generation and releases
    /// the worker, as `unload` does.
    pub fn on_received(&mut self, msg: Received) -> (r: Delivery)
        requires
            !old(self).finished(),
        ensures
            msg is Token ==> r.token == Some(msg->Token_0) && !r.release && !final(self).finished()
                && final(self).is_running(),
            msg is End ==> r.token is None && !r.release && final(self).finished()
                && final(self).is_running(),
            msg is Disconnected ==> r.token is None && r.release && final(self).finished()
                && !final(self).is_running(),
    {
        match msg {
            Received::Token(t) => Delivery { token: Some(t), release: false },
            Received::End => {
                self.ended = true;
                Delivery { token: None, release: false }
            },
            Received::Disconnected => {
                self.running = false;
                Delivery { token: None, release: true }
            },
        }
    }

    /// A read after the end: nothing is received and nothing comes out.
    pub fn after_end(&self) -> (r: Delivery)
        requires
            self.finished(),
        ensures
            r.token is None,
            !r.release,
    {
        Delivery { token: None, release: false }
    }

    /// Unloading: says whether a worker must be stopped and joined.
    pub fn stop(&mut self) -> (stop_running: bool)
        ensures
            stop_running == old(self).is_running(),
            !final(self).is_running(),
            final(self).finished(),
    {
        let stop_running = self.running;
        self.running = false;
        self.ended = false;
        stop_running
    }
}

} // verus!
