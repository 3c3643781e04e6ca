//! One connection's response stream. The daemon program reads the request,
//! loads a backend when the slot is empty and writes each frame; the stream
//! decides which frame comes next and when the connection is done.

use vstd::prelude::*;

use crate::error::Error;
use crate::ipc::{token_frame, TokenResponse};
use crate::state::DaemonState;

verus! {

/// Frames of a stream still in progress: none ends it, each carries a token.
pub open spec fn open_frames(frames: Seq<TokenResponse>) -> bool {
    forall|i: int| 0 <= i < frames.len() ==> !(#[trigger] frames[i]).eos && frames[i].token is Some
}

/// Frames of a finished stream: the last one, and only it, ends the stream;
/// every earlier one carries a token.
pub open spec fn ends_once(frames: Seq<TokenResponse>) -> bool {
    &&& frames.len() > 0
    &&& forall|i: int| 0 <= i < frames.len() ==> ((#[trigger] frames[i]).eos <==> i == frames.len() - 1)
    &&& open_frames(frames.drop_last())
}

/// The frames sent so far on one connection.
pub struct ResponseStream {
    ended: bool,
    sent: Ghost<Seq<TokenResponse>>,
}

impl ResponseStream {
    /// The frames handed out so far, in order.
    pub closed spec fn frames(&self) -> Seq<TokenResponse> {
        self.sent@
    }

    /// The end-of-stream frame has been handed out.
    pub closed spec fn is_ended(&self) -> bool {
        self.ended
    }

    /// The stream's invariant: open frames while in progress, exactly one
    /// final end-of-stream frame once ended.
    pub open spec fn wf(&self) -> bool {
        if self.is_ended() {
            ends_once(self.frames())
        } else {
            open_frames(self.frames())
        }
    }

    /// A stream with nothing sent.
    pub fn new() -> (r: ResponseStream)
        ensures
            r.wf(),
            !r.is_ended(),
            r.frames() == Seq::<TokenResponse>::empty(),
    {
        ResponseStream { ended: false, sent: Ghost(Seq::empty()) }
    }

    /// The next frame to write, taken from the shared state at time `now`,
    /// or `None` once the end-of-stream frame has gone out.
    pub fn next_frame(&mut self, state: &mut DaemonState, now: u64) -> (r: Result<
        Option<TokenResponse>,
        Error,
    >)
        requires
            old(self).wf(),
        ensures
            final(self).wf(),
            old(self).is_ended() ==> r == Ok::<Option<TokenResponse>, Error>(None) && *final(self)
                == *old(self) && *final(state) == *old(state),
            !old(self).is_ended() ==> r is Err || r matches Ok(Some(_)),
            r matches Ok(Some(f)) ==> f == token_frame(f.token) && final(self).frames()
                == old(self).frames().push(f) && final(self).is_ended() == f.eos,
            r matches Ok(Some(f)) && f.eos ==> final(state).model->Some_0.finished(),
            r is Err ==> *final(self) == *old(self),
            r is Ok && !old(self).is_ended() ==> final(state).last_activity == now,
            !old(self).is_ended() && old(state).model is None ==> r is Err && r->Err_0 is ModelLoad
                && *final(state) == *old(state),
            !old(self).is_ended() && old(state).model is Some && old(state).model->Some_0.finished()
                ==> r is Ok && r->Ok_0 is Some && r->Ok_0->Some_0.eos,
            !old(self).is_ended() && old(state).model is Some && old(state).model->Some_0.dummy_pending() is Some
                ==> r matches Ok(Some(_)),
            r is Ok && r->Ok_0 is Some && r->Ok_0->Some_0.token is Some
                ==> final(state).model->Some_0.emitted()
                == old(state).model->Some_0.emitted().push(r->Ok_0->Some_0.token->Some_0@),
            old(state).model is Some ==> final(state).model is Some
                && final(state).model->Some_0.prompt_text() == old(state).model->Some_0.prompt_text(),
    {
        if self.ended {
            return Ok(None);
        }
        let frame = state.next_response(now)?;
        let ghost old_frames = self.sent@;
        self.sent = Ghost(old_frames.push(frame));
        self.ended = frame.eos;
        proof {
            let fs = self.sent@;
            assert(fs.drop_last() =~= old_frames);
            assert forall|i: int| 0 <= i < fs.len() implies ((#[trigger] fs[i]).eos <==> i == fs.len()
                - 1) || !frame.eos by {
                if i < fs.len() - 1 {
                    assert(fs[i] == old_frames[i]);
                }
            }
            assert forall|i: int| 0 <= i < fs.len() implies !(#[trigger] fs[i]).eos && fs[i].token is Some
                || frame.eos by {
                if i < fs.len() - 1 {
                    assert(fs[i] == old_frames[i]);
                }
            }
        }
        Ok(Some(frame))
    }
}

} // verus!
