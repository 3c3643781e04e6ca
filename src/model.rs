//! The generator contract shared by every inference backend, the deterministic
//! dummy backend, and the owner that the daemon keeps in its state slot.

use std::collections::VecDeque;
use vstd::prelude::*;

use crate::error::Error;

verus! {

/// The generators that can be selected at daemon start.
#[derive(Debug, Clone, Copy, PartialEq, Eq, Structural)]
pub enum BackendKind {
    /// Deterministic text, for tests and bring-up.
    Dummy,
    /// An in-process inference library driven from its own worker thread.
    Native,
}

/// A language-model generator: loaded from a path, prompted, then drained
/// token by token.
pub trait ModelBackend: Send {
    /// The current generation has ended: `next_token` yields nothing until
    /// the next successful `prompt`.
    spec fn finished(&self) -> bool;

    /// The text of the current generation's prompt, if one was given.
    spec fn prompt_text(&self) -> Option<Seq<char>>;

    /// The tokens the current generation has handed out so far, in order.
    spec fn emitted(&self) -> Seq<Seq<char>>;

    /// The result `unload` gives from this state.
    spec fn unload_result(&self) -> Result<(), Error>;

    /// Opens the model stored at `model_path`; any failure is a load failure.
    fn load(model_path: &str) -> (r: Result<Self, Error>)
        where Self: Sized
        ensures
            r is Err ==> r->Err_0 is ModelLoad,
            r is Ok ==> r->Ok_0.prompt_text() is None && r->Ok_0.emitted().len() == 0,
    ;

    /// Begins a new generation over `text`, replacing any generation in
    /// progress; a session that cannot be created is a load failure.
    fn prompt(&mut self, text: &str) -> (r: Result<(), Error>)
        ensures
            r is Err ==> r->Err_0 is ModelLoad,
            r is Ok ==> final(self).prompt_text() == Some(text@) && final(self).emitted().len() == 0,
    ;

    /// The next produced chunk, or `None` once the generation has ended.
    fn next_token(&mut self) -> (r: Result<Option<String>, Error>)
        ensures
            old(self).finished() ==> r == Ok::<Option<String>, Error>(None) && final(self).finished(),
            r == Ok::<Option<String>, Error>(None) ==> final(self).finished(),
            final(self).prompt_text() == old(self).prompt_text(),
            r matches Ok(Some(t)) ==> final(self).emitted() == old(self).emitted().push(t@),
            r matches Ok(None) ==> final(self).emitted() == old(self).emitted(),
    ;

    /// Releases the resources held by the backend.
    fn unload(&mut self) -> (r: Result<(), Error>)
        ensures
            r == old(self).unload_result(),
            r is Ok ==> final(self).finished(),
    ;
}

/// True of the characters that split the words of a prompt (Unicode `White_Space`).
pub open spec fn is_space(c: char) -> bool {
    let n = c as u32;
    (9 <= n <= 13) || n == 32 || n == 0x85 || n == 0xa0 || n == 0x1680 || (0x2000 <= n <= 0x200a)
        || n == 0x2028 || n == 0x2029 || n == 0x202f || n == 0x205f || n == 0x3000
}

/// The word in progress, as a list of at most one word.
pub open spec fn flush(cur: Seq<char>) -> Seq<Seq<char>> {
    if cur.len() == 0 {
        Seq::empty()
    } else {
        seq![cur]
    }
}

/// The words of `s` from position `i` on, when `cur` holds the word read so far.
pub open spec fn words_from(s: Seq<char>, i: int, cur: Seq<char>) -> Seq<Seq<char>>
    decreases s.len() - i,
{
    if i >= s.len() {
        flush(cur)
    } else if is_space(s[i]) {
        flush(cur) + words_from(s, i + 1, Seq::empty())
    } else {
        words_from(s, i + 1, cur.push(s[i]))
    }
}

/// The maximal runs of non-space characters of `s`, in order.
pub open spec fn words(s: Seq<char>) -> Seq<Seq<char>> {
    words_from(s, 0, Seq::empty())
}

/// The tokens a prompt adds to the dummy backend: each word followed by a period.
pub open spec fn dotted_words(s: Seq<char>) -> Seq<Seq<char>> {
    words(s).map_values(|w: Seq<char>| w + "."@)
}

/// The words the dummy backend holds right after loading.
pub open spec fn seed_words() -> Seq<Seq<char>> {
    seq![
        "lorem"@, "ipsum"@, "dolor"@, "sit"@, "amet"@, "consectetur"@, "adipiscing"@, "elit"@,
        "sed"@, "do"@, "eiusmod"@, "tempor"@, "incididunt"@, "ut"@, "labore"@, "et"@, "dolore"@,
        "magna"@, "aliqua"@, "enim"@, "ad"@, "minim"@, "veniam"@, "quis"@, "nostrud"@,
    ]
}

/// Tests whether `c` is white space.
pub fn char_is_space(c: char) -> (r: bool)
    ensures
        r == is_space(c),
{
    let n = c as u32;
    (9 <= n && n <= 13) || n == 32 || n == 0x85 || n == 0xa0 || n == 0x1680 || (0x2000 <= n && n
        <= 0x200a) || n == 0x2028 || n == 0x2029 || n == 0x202f || n == 0x205f || n == 0x3000
}

/// Splits `text` into its white-space separated words.
pub fn split_words(text: &str) -> (r: Vec<String>)
    ensures
        r@.map_values(|w: String| w@) == words(text@),
{
    let n = text.unicode_len();
    let ghost s = text@;
    let mut out: Vec<String> = Vec::new();
    let mut start: usize = 0;
    let mut in_word = false;
    let mut i: usize = 0;
    proof {
        assert(s.subrange(0, 0) =~= Seq::<char>::empty());
        assert(out@.map_values(|w: String| w@) =~= Seq::<Seq<char>>::empty());
        assert(Seq::<Seq<char>>::empty() + words(s) =~= words(s));
    }
    while i < n
        invariant
            n == s.len(),
            s == text@,
            i <= n,
            start <= i,
            !in_word ==> start == i,
            in_word ==> start < i,
            out@.map_values(|w: String| w@) + words_from(s, i as int, s.subrange(start as int, i as int))
                == words(s),
        decreases n - i,
    {
        let c = text.get_char(i);
        let ghost cur = s.subrange(start as int, i as int);
        if char_is_space(c) {
            if in_word {
                let w = text.substring_char(start, i).to_owned();
                proof {
                    let old_out = out@.map_values(|w: String| w@);
                    let rest = words_from(s, i + 1, Seq::empty());
                    assert(out@.push(w).map_values(|w: String| w@) =~= old_out.push(cur));
                    assert(flush(cur) =~= seq![cur]);
                    assert(old_out + (seq![cur] + rest) =~= old_out.push(cur) + rest);
                }
                out.push(w);
            } else {
                proof {
                    let old_out = out@.map_values(|w: String| w@);
                    let rest = words_from(s, i + 1, Seq::empty());
                    assert(flush(cur) =~= Seq::<Seq<char>>::empty());
                    assert(Seq::<Seq<char>>::empty() + rest =~= rest);
                }
            }
            proof {
                assert(s.subrange(i + 1, i + 1) =~= Seq::<char>::empty());
            }
            i = i + 1;
            start = i;
            in_word = false;
        } else {
            if !in_word {
                start = i;
            }
            proof {
                assert(s.subrange(start as int, i + 1) =~= s.subrange(start as int, i as int).push(
                    s[i as int],
                ));
            }
            i = i + 1;
            in_word = true;
        }
    }
    let ghost cur = s.subrange(start as int, i as int);
    if in_word {
        let w = text.substring_char(start, i).to_owned();
        proof {
            let old_out = out@.map_values(|w: String| w@);
            assert(out@.push(w).map_values(|w: String| w@) =~= old_out.push(cur));
            assert(flush(cur) =~= seq![cur]);
            assert(old_out + seq![cur] =~= old_out.push(cur));
        }
        out.push(w);
    } else {
        assert(flush(cur) =~= Seq::<Seq<char>>::empty());
        assert(out@.map_values(|w: String| w@) + Seq::<Seq<char>>::empty() =~= out@.map_values(
            |w: String| w@,
        ));
    }
    out
}

/// The deterministic backend: a queue of seed words, extended by each prompt.
pub struct DummyBackend {
    tokens: VecDeque<String>,
    prompted: Ghost<Option<Seq<char>>>,
    handed_out: Ghost<Seq<Seq<char>>>,
}

/// Appends one token to a queue.
fn push_token(tokens: &mut VecDeque<String>, t: String)
    ensures
        final(tokens)@.map_values(|x: String| x@) == old(tokens)@.map_values(|x: String| x@).push(t@),
{
    tokens.push_back(t);
    assert(tokens@.map_values(|x: String| x@) =~= old(tokens)@.map_values(|x: String| x@).push(t@));
}

impl DummyBackend {
    /// The tokens still to be handed out, front first.
    pub closed spec fn pending(&self) -> Seq<Seq<char>> {
        self.tokens@.map_values(|x: String| x@)
    }

    /// A backend holding the seed words, not yet prompted.
    pub fn seeded() -> (r: DummyBackend)
        ensures
            r.pending() == seed_words(),
            r.prompt_text() is None,
            r.emitted().len() == 0,
    {
        let mut tokens: VecDeque<String> = VecDeque::new();
        assert(tokens@.map_values(|x: String| x@) =~= Seq::<Seq<char>>::empty());
        push_token(&mut tokens, "lorem".to_owned());
        push_token(&mut tokens, "ipsum".to_owned());
        push_token(&mut tokens, "dolor".to_owned());
        push_token(&mut tokens, "sit".to_owned());
        push_token(&mut tokens, "amet".to_owned());
        push_token(&mut tokens, "consectetur".to_owned());
        push_token(&mut tokens, "adipiscing".to_owned());
        push_token(&mut tokens, "elit".to_owned());
        push_token(&mut tokens, "sed".to_owned());
        push_token(&mut tokens, "do".to_owned());
        push_token(&mut tokens, "eiusmod".to_owned());
        push_token(&mut tokens, "tempor".to_owned());
        push_token(&mut tokens, "incididunt".to_owned());
        push_token(&mut tokens, "ut".to_owned());
        push_token(&mut tokens, "labore".to_owned());
        push_token(&mut tokens, "et".to_owned());
        push_token(&mut tokens, "dolore".to_owned());
        push_token(&mut tokens, "magna".to_owned());
        push_token(&mut tokens, "aliqua".to_owned());
        push_token(&mut tokens, "enim".to_owned());
        push_token(&mut tokens, "ad".to_owned());
        push_token(&mut tokens, "minim".to_owned());
        push_token(&mut tokens, "veniam".to_owned());
        push_token(&mut tokens, "quis".to_owned());
        push_token(&mut tokens, "nostrud".to_owned());
        DummyBackend { tokens, prompted: Ghost(None), handed_out: Ghost(Seq::empty()) }
    }
}

impl ModelBackend for DummyBackend {
    open spec fn finished(&self) -> bool {
        self.pending().len() == 0
    }

    closed spec fn prompt_text(&self) -> Option<Seq<char>> {
        self.prompted@
    }

    closed spec fn emitted(&self) -> Seq<Seq<char>> {
        self.handed_out@
    }

    open spec fn unload_result(&self) -> Result<(), Error> {
        Ok(())
    }

    /// Ignores the path: the dummy backend holds no model file.
    fn load(_model_path: &str) -> (r: Result<Self, Error>)
        ensures
            r is Ok,
            r->Ok_0.pending() == seed_words(),
    {
        Ok(DummyBackend::seeded())
    }

    fn prompt(&mut self, text: &str) -> (r: Result<(), Error>)
        ensures
            r is Ok,
            final(self).pending() == old(self).pending() + dotted_words(text@),
    {
        let ws = split_words(text);
        let ghost base = self.pending();
        let ghost all = ws@.map_values(|w: String| w@);
        let mut i: usize = 0;
        assert(base + Seq::<Seq<char>>::empty() =~= base);
        while i < ws.len()
            invariant
                0 <= i <= ws@.len(),
                all == ws@.map_values(|w: String| w@),
                all == words(text@),
                self.pending() == base + all.subrange(0, i as int).map_values(|w: Seq<char>| w + "."@),
            decreases ws.len() - i,
        {
            let t = ws[i].clone().concat(".");
            push_token(&mut self.tokens, t);
            proof {
                assert(all.subrange(0, i + 1).map_values(|w: Seq<char>| w + "."@) =~= all.subrange(
                    0,
                    i as int,
                ).map_values(|w: Seq<char>| w + "."@).push(all[i as int] + "."@));
            }
            i = i + 1;
        }
        assert(all.subrange(0, i as int) =~= all);
        self.prompted = Ghost(Some(text@));
        self.handed_out = Ghost(Seq::empty());
        Ok(())
    }

    fn next_token(&mut self) -> (r: Result<Option<String>, Error>)
        ensures
            old(self).pending().len() == 0 ==> r == Ok::<Option<String>, Error>(None)
                && final(self).pending() == old(self).pending(),
            old(self).pending().len() > 0 ==> r is Ok && r->Ok_0 is Some && r->Ok_0->Some_0@
                == old(self).pending()[0] && final(self).pending() == old(self).pending().drop_first(),
    {
        let t = self.tokens.pop_front();
        assert(self.pending() =~= old(self).pending().subrange(1, old(self).pending().len() as int)
            || self.pending() =~= old(self).pending());
        match &t {
            Some(s) => {
                self.handed_out = Ghost(self.handed_out@.push(s@));
            },
            None => {},
        }
        Ok(t)
    }

    fn unload(&mut self) -> (r: Result<(), Error>)
        ensures
            r is Ok,
            final(self).pending().len() == 0,
    {
        self.tokens.clear();
        assert(self.pending() =~= Seq::<Seq<char>>::empty());
        Ok(())
    }
}

/// A held backend: the library's own dummy, or any other behind a trait object.
pub enum HeldBackend {
    Dummy(DummyBackend),
    Other(Box<dyn ModelBackend>),
}

impl HeldBackend {
    /// The held backend's generation has ended.
    pub open spec fn finished(&self) -> bool {
        match self {
            HeldBackend::Dummy(d) => d.finished(),
            HeldBackend::Other(b) => b.finished(),
        }
    }

    /// The held backend's current prompt.
    pub open spec fn prompt_text(&self) -> Option<Seq<char>> {
        match self {
            HeldBackend::Dummy(d) => d.prompt_text(),
            HeldBackend::Other(b) => b.prompt_text(),
        }
    }

    /// The tokens the held backend's generation has handed out.
    pub open spec fn emitted(&self) -> Seq<Seq<char>> {
        match self {
            HeldBackend::Dummy(d) => d.emitted(),
            HeldBackend::Other(b) => b.emitted(),
        }
    }

    /// The result unloading the held backend gives.
    pub open spec fn unload_result(&self) -> Result<(), Error> {
        match self {
            HeldBackend::Dummy(d) => d.unload_result(),
            HeldBackend::Other(b) => b.unload_result(),
        }
    }
}

/// The owner of a loaded backend. Once unloaded, the slot is empty and every
/// generator call fails.
pub struct BoxedModelBackend {
    inner: Option<HeldBackend>,
}

impl BoxedModelBackend {
    /// A backend is held.
    pub closed spec fn is_loaded(&self) -> bool {
        self.inner is Some
    }

    /// A backend is held and its current generation has ended.
    pub closed spec fn finished(&self) -> bool {
        &&& self.inner is Some
        &&& self.inner->Some_0.finished()
    }

    /// The held backend's current prompt.
    pub closed spec fn prompt_text(&self) -> Option<Seq<char>> {
        match self.inner {
            Some(b) => b.prompt_text(),
            None => None,
        }
    }

    /// The tokens the held backend's current generation has handed out.
    pub closed spec fn emitted(&self) -> Seq<Seq<char>> {
        match self.inner {
            Some(b) => b.emitted(),
            None => Seq::empty(),
        }
    }

    /// The result unloading the held backend gives; nothing to release is a success.
    pub closed spec fn unload_result(&self) -> Result<(), Error> {
        match self.inner {
            Some(b) => b.unload_result(),
            None => Ok(()),
        }
    }

    /// The tokens a held dummy backend has still to hand out.
    pub closed spec fn dummy_pending(&self) -> Option<Seq<Seq<char>>> {
        match self.inner {
            Some(HeldBackend::Dummy(d)) => Some(d.pending()),
            _ => None,
        }
    }

    /// Takes ownership of a loaded backend held through a trait object; its
    /// contract is the trait's.
    pub fn new(backend: Box<dyn ModelBackend>) -> (r: Self)
        ensures
            r.is_loaded(),
    {
        BoxedModelBackend { inner: Some(HeldBackend::Other(backend)) }
    }

    /// Takes ownership of a dummy backend.
    pub fn from_dummy(backend: DummyBackend) -> (r: Self)
        ensures
            r.is_loaded(),
            r.finished() == backend.finished(),
            r.prompt_text() == backend.prompt_text(),
            r.emitted() == backend.emitted(),
            r.unload_result() == backend.unload_result(),
            r.dummy_pending() == Some(backend.pending()),
    {
        BoxedModelBackend { inner: Some(HeldBackend::Dummy(backend)) }
    }

    /// Begins a generation on the held backend and returns its result.
    pub fn prompt(&mut self, text: &str) -> (r: Result<(), Error>)
        ensures
            final(self).is_loaded() == old(self).is_loaded(),
            !old(self).is_loaded() ==> r == Err::<(), Error>(Error::Unknown),
            old(self).is_loaded() && r is Err ==> r->Err_0 is ModelLoad,
            old(self).is_loaded() && r is Ok ==> final(self).prompt_text() == Some(text@)
                && final(self).emitted().len() == 0,
            old(self).dummy_pending() is Some ==> r is Ok && final(self).dummy_pending() == Some(
                old(self).dummy_pending()->Some_0 + dotted_words(text@),
            ),
    {
        match &mut self.inner {
            Some(HeldBackend::Dummy(d)) => d.prompt(text),
            Some(HeldBackend::Other(b)) => b.prompt(text),
            None => Err(Error::Unknown),
        }
    }

    /// The next token of the held backend's generation.
    pub fn next_token(&mut self) -> (r: Result<Option<String>, Error>)
        ensures
            final(self).is_loaded() == old(self).is_loaded(),
            !old(self).is_loaded() ==> r == Err::<Option<String>, Error>(Error::Unknown),
            old(self).finished() ==> r == Ok::<Option<String>, Error>(None) && final(self).finished(),
            r == Ok::<Option<String>, Error>(None) ==> final(self).finished(),
            final(self).prompt_text() == old(self).prompt_text(),
            r matches Ok(Some(t)) ==> final(self).emitted() == old(self).emitted().push(t@),
            r matches Ok(None) ==> final(self).emitted() == old(self).emitted(),
            old(self).dummy_pending() is Some ==> r is Ok && final(self).dummy_pending() is Some,
            old(self).dummy_pending() is Some && old(self).dummy_pending()->Some_0.len() == 0 ==> r
                == Ok::<Option<String>, Error>(None),
            old(self).dummy_pending() is Some && old(self).dummy_pending()->Some_0.len() > 0 ==> r is Ok
                && r->Ok_0 is Some && r->Ok_0->Some_0@ == old(self).dummy_pending()->Some_0[0]
                && final(self).dummy_pending()->Some_0 == old(self).dummy_pending()->Some_0.drop_first(),
    {
        match &mut self.inner {
            Some(HeldBackend::Dummy(d)) => d.next_token(),
            Some(HeldBackend::Other(b)) => b.next_token(),
            None => Err(Error::Unknown),
        }
    }

    /// Releases the held backend and returns its result; the slot is emptied
    /// on success and keeps the backend on failure.
    pub fn unload(&mut self) -> (r: Result<(), Error>)
        ensures
            r == old(self).unload_result(),
            r is Ok ==> !final(self).is_loaded(),
            r is Err ==> final(self).is_loaded(),
    {
        let r = match &mut self.inner {
            Some(HeldBackend::Dummy(d)) => d.unload(),
            Some(HeldBackend::Other(b)) => b.unload(),
            None => Ok(()),
        };
        if r.is_ok() {
            self.inner = None;
        }
        r
    }
}

/// The kinds `load_backend` constructs by itself.
pub open spec fn loads(kind: BackendKind) -> bool {
    kind == BackendKind::Dummy
}

/// Opens a backend of the given kind. The native generator runs on a worker
/// thread that the daemon program owns, so only the dummy kind is built here.
pub fn load_backend(kind: BackendKind, path: &str) -> (r: Result<BoxedModelBackend, Error>)
    ensures
        loads(kind) <==> r is Ok,
        r is Ok ==> r->Ok_0.is_loaded() && !r->Ok_0.finished() && r->Ok_0.prompt_text() is None
            && r->Ok_0.emitted().len() == 0 && r->Ok_0.unload_result() is Ok,
        r is Ok ==> r->Ok_0.dummy_pending() == Some(seed_words()),
        !loads(kind) ==> r is Err && r->Err_0 is ModelLoad,
{
    match kind {
        BackendKind::Dummy => {
            let backend = DummyBackend::load(path)?;
            Ok(BoxedModelBackend::from_dummy(backend))
        },
        BackendKind::Native => Err(
            Error::ModelLoad("the native backend is provided by the daemon program".to_owned()),
        ),
    }
}

} // verus!
