use vstd::prelude::*;
use vstd::string::*;
use vstd::utf8::*;

use crate::context::{trimmed, truncate_prompt_tokens, MAX_CONTEXT};
use crate::detokenizer::{
    accept_step,
    concat_pieces,
    flush_text,
    lemma_accept_step_bytes,
    lemma_concat_pieces_push,
    lemma_decode_after_text,
    lemma_encode_concat,
    TokenOutputStream,
};
use crate::error::GenerationError;
use crate::which::{ModelFamily, Which};

verus! {

/// Where one generation run stands.
#[derive(Clone, Copy, Debug, PartialEq, Eq, Structural)]
pub enum Phase {
    /// Waiting for the encoded prompt.
    Encoding,
    /// Waiting for the token sampled after the forward pass over the prompt.
    PromptForward,
    /// Waiting for the token sampled after a single-token forward pass.
    Decoding,
    Completed,
    Cancelled,
    Failed,
}

/// What the caller reports back after doing the work an action asked for.
pub enum Event {
    /// The prompt was encoded; `eos` is the vocabulary id of the family's
    /// end-of-sequence marker, if the vocabulary has it.
    Encoded { tokens: Vec<u32>, eos: Option<u32> },
    /// The tokenizer rejected the prompt.
    EncodeFailed,
    /// A forward pass ran and `token` was sampled from its scores; `piece`
    /// holds the bytes the token stands for.
    Sampled { token: u32, piece: Vec<u8> },
    /// The forward pass or the sampler failed.
    InferenceFailed,
}

/// What the run finished with.
pub struct GenerationResult {
    /// All text emitted during the run.
    pub text: String,
    /// Length of the prompt after trimming.
    pub prompt_tokens: usize,
    /// Tokens sampled after the first one.
    pub sampled: usize,
}

/// What the caller is to do next.
pub enum Action {
    /// Hand `emit` to the output sink, run one forward pass over `tokens`
    /// starting at `position`, down-weight the ids in `window` by the repeat
    /// penalty, sample one token and report it.
    Forward { tokens: Vec<u32>, position: usize, window: Vec<u32>, emit: Option<String> },
    /// Hand `emit`, then `rest`, to the output sink; the run succeeded.
    Complete { emit: Option<String>, rest: Option<String>, result: GenerationResult },
    /// The run ended in failure; text produced so far is discarded.
    Abort(GenerationError),
}

pub open spec fn opt_text(o: Option<String>) -> Seq<char> {
    match o {
        Some(s) => s@,
        None => Seq::empty(),
    }
}

/// Decode steps that follow the token sampled from the prompt.
pub open spec fn steps_of(sample_len: nat) -> nat {
    if sample_len == 0 {
        0
    } else {
        (sample_len - 1) as nat
    }
}

/// The last `n` ids of `tokens`, or all of them when there are fewer.
pub open spec fn window_of(tokens: Seq<u32>, n: nat) -> Seq<u32> {
    if tokens.len() <= n {
        tokens
    } else {
        tokens.subrange(tokens.len() - n, tokens.len() as int)
    }
}

/// `a` asks for a forward pass over `tokens` at `position`, with the repeat
/// penalty over `window`, after emitting `emit`.
pub open spec fn is_forward(a: Action, tokens: Seq<u32>, position: int, window: Seq<u32>, emit: Seq<char>) -> bool {
    a matches Action::Forward { tokens: t, position: p, window: w, emit: e } && t@ == tokens && p
        == position && w@ == window && opt_text(e) == emit
}

/// `a` ends the run with success after emitting `emit` and then `rest`.
pub open spec fn is_complete(
    a: Action,
    emit: Seq<char>,
    rest: Seq<char>,
    text: Seq<char>,
    prompt_tokens: nat,
    sampled: nat,
) -> bool {
    a matches Action::Complete { emit: e, rest: r, result } && opt_text(e) == emit && opt_text(r)
        == rest && result.text@ == text && result.prompt_tokens == prompt_tokens && result.sampled
        == sampled
}

pub open spec fn same_params(a: GenerationView, b: GenerationView) -> bool {
    a.which == b.which && a.sample_len == b.sample_len && a.repeat_last_n == b.repeat_last_n
        && a.max_context == b.max_context
}

/// `f` failed with `e`, and `a` reports it.
pub open spec fn aborted(f: GenerationView, a: Action, e: GenerationError) -> bool {
    &&& f.phase == if e == GenerationError::Cancelled {
        Phase::Cancelled
    } else {
        Phase::Failed
    }
    &&& a == Action::Abort(e)
}

pub struct GenerationView {
    pub which: Which,
    pub sample_len: nat,
    pub repeat_last_n: nat,
    pub max_context: nat,
    pub phase: Phase,
    pub prompt_len: nat,
    pub sampled: nat,
    pub eos: Option<u32>,
    pub tokens: Seq<u32>,
    pub text: Seq<char>,
    pub pending: Seq<u8>,
    /// The bytes of every token accepted since the prompt was encoded.
    pub pieces: Seq<Seq<u8>>,
}

/// The decisions of one generation run, driven by events that report the
/// outside work (encoding, forward passes, sampling) and the cancellation
/// flag.
pub struct Generation {
    which: Which,
    sample_len: usize,
    repeat_last_n: usize,
    max_context: usize,
    phase: Phase,
    prompt_len: usize,
    sampled: usize,
    eos: Option<u32>,
    tokens: Vec<u32>,
    text: String,
    stream: TokenOutputStream,
    pieces: Ghost<Seq<Seq<u8>>>,
}

impl View for Generation {
    type V = GenerationView;

    closed spec fn view(&self) -> GenerationView {
        GenerationView {
            which: self.which,
            sample_len: self.sample_len as nat,
            repeat_last_n: self.repeat_last_n as nat,
            max_context: self.max_context as nat,
            phase: self.phase,
            prompt_len: self.prompt_len as nat,
            sampled: self.sampled as nat,
            eos: self.eos,
            tokens: self.tokens@,
            text: self.text@,
            pending: self.stream.pending_bytes(),
            pieces: self.pieces@,
        }
    }
}

impl Generation {
    pub open spec fn running(&self) -> bool {
        self@.phase == Phase::Encoding || self@.phase == Phase::PromptForward || self@.phase
            == Phase::Decoding
    }

    /// Positions stay addressable: the prompt and every decode step fit in
    /// the context, or the prompt was trimmed away entirely.
    pub closed spec fn wf(&self) -> bool {
        &&& (self.phase == Phase::PromptForward || self.phase == Phase::Decoding) ==> (
        self.prompt_len == 0 || self.prompt_len + steps_of(self.sample_len as nat)
            <= self.max_context)
        &&& self.phase == Phase::Decoding ==> self.sampled < steps_of(self.sample_len as nat)
        &&& (self.phase == Phase::PromptForward || self.phase == Phase::Decoding) ==> encode_utf8(
            self.text@,
        ) + self.stream.pending_bytes() == concat_pieces(self.pieces@)
    }

    /// Starts a run for the family that samples at most `sample_len` tokens,
    /// penalises repeats among the last `repeat_last_n` ones and fits prompt
    /// and continuation in `max_context` tokens. Fails with `ModelUnavailable`
    /// exactly when the family is not marked available.
    pub fn with_max_context(family: ModelFamily, sample_len: usize, repeat_last_n: usize, max_context: usize) -> (r:
        Result<Generation, GenerationError>)
        ensures
            r is Err <==> !family.available,
            r is Err ==> r->Err_0 == GenerationError::ModelUnavailable,
            r is Ok ==> r->Ok_0.wf() && r->Ok_0@ == (GenerationView {
                which: family.which,
                sample_len: sample_len as nat,
                repeat_last_n: repeat_last_n as nat,
                max_context: max_context as nat,
                phase: Phase::Encoding,
                prompt_len: 0,
                sampled: 0,
                eos: None,
                tokens: Seq::empty(),
                text: Seq::empty(),
                pending: Seq::empty(),
                pieces: Seq::empty(),
            }),
    {
        if !family.is_available() {
            return Err(GenerationError::ModelUnavailable);
        }
        Ok(
            Generation {
                which: family.which,
                sample_len,
                repeat_last_n,
                max_context,
                phase: Phase::Encoding,
                prompt_len: 0,
                sampled: 0,
                eos: None,
                tokens: Vec::new(),
                text: String::new(),
                stream: TokenOutputStream::new(),
                pieces: Ghost(Seq::empty()),
            },
        )
    }

    /// A run with the default context of `MAX_CONTEXT` tokens.
    pub fn new(family: ModelFamily, sample_len: usize, repeat_last_n: usize) -> (r: Result<
        Generation,
        GenerationError,
    >)
        ensures
            r is Err <==> !family.available,
            r is Err ==> r->Err_0 == GenerationError::ModelUnavailable,
            r is Ok ==> r->Ok_0.wf() && r->Ok_0@ == (GenerationView {
                which: family.which,
                sample_len: sample_len as nat,
                repeat_last_n: repeat_last_n as nat,
                max_context: MAX_CONTEXT as nat,
                phase: Phase::Encoding,
                prompt_len: 0,
                sampled: 0,
                eos: None,
                tokens: Seq::empty(),
                text: Seq::empty(),
                pending: Seq::empty(),
                pieces: Seq::empty(),
            }),
    {
        Generation::with_max_context(family, sample_len, repeat_last_n, MAX_CONTEXT)
    }

    /// Whether the run still waits for events.
    pub fn is_running(&self) -> (r: bool)
        ensures
            r == self.running(),
    {
        match self.phase {
            Phase::Encoding | Phase::PromptForward | Phase::Decoding => true,
            _ => false,
        }
    }

    /// The phase the run is in.
    pub fn phase(&self) -> (r: Phase)
        ensures
            r == self@.phase,
    {
        self.phase
    }

    fn abort(&mut self, e: GenerationError) -> (r: Action)
        ensures
            aborted(final(self)@, r, e),
            final(self)@ == (GenerationView { phase: final(self)@.phase, ..old(self)@ }),
            final(self).wf(),
    {
        self.phase = if matches!(e, GenerationError::Cancelled) {
            Phase::Cancelled
        } else {
            Phase::Failed
        };
        Action::Abort(e)
    }

    /// Accepts `token`, adds its text, and either ends the run or asks for
    /// the next forward pass.
    fn take_token(&mut self, token: u32, piece: &Vec<u8>, cancelled: bool, first: bool) -> (r: Action)
        requires
            old(self).wf(),
            first ==> old(self)@.phase == Phase::PromptForward,
            !first ==> old(self)@.phase == Phase::Decoding,
        ensures
            ({
                let v = old(self)@;
                let f = final(self)@;
                let (frag, pend) = accept_step(v.pending, piece@);
                let n: nat = if first { 0 } else { v.sampled + 1 };
                let done = (!first && v.eos == Some(token)) || (n == steps_of(v.sample_len)
                    && !cancelled);
                &&& same_params(f, v)
                &&& f.tokens == v.tokens.push(token)
                &&& f.sampled == n
                &&& f.prompt_len == v.prompt_len
                &&& f.eos == v.eos
                &&& f.pieces == v.pieces.push(piece@)
                &&& done ==> (valid_utf8(concat_pieces(f.pieces)) ==> f.text == decode_utf8(
                    concat_pieces(f.pieces),
                ))
                &&& done ==> f.phase == Phase::Completed && f.text == v.text + frag + flush_text(pend)
                    && f.pending == Seq::<u8>::empty() && is_complete(
                    r,
                    frag,
                    flush_text(pend),
                    f.text,
                    v.prompt_len,
                    n,
                )
                &&& (!done && cancelled) ==> aborted(f, r, GenerationError::Cancelled)
                &&& (!done && !cancelled) ==> f.phase == Phase::Decoding && f.text == v.text + frag
                    && f.pending == pend && is_forward(
                    r,
                    seq![token],
                    (v.prompt_len + n) as int,
                    window_of(f.tokens, v.repeat_last_n),
                    frag,
                )
            }),
            final(self).wf(),
    {
        self.tokens.push(token);
        self.pieces = Ghost(self.pieces@.push(piece@));
        let emit = self.stream.next_token(token, piece.as_slice());
        if let Some(t) = &emit {
            self.text.append(t.as_str());
        }
        proof {
            let v = old(self)@;
            let (frag, pend) = accept_step(v.pending, piece@);
            assert(self.text@ =~= v.text + frag);
            lemma_encode_concat(v.text, frag);
            lemma_accept_step_bytes(v.pending, piece@);
            lemma_concat_pieces_push(v.pieces, piece@);
            assert(encode_utf8(v.text) + encode_utf8(frag) + pend =~= encode_utf8(v.text) + (
            encode_utf8(frag) + pend));
            assert(encode_utf8(v.text) + (v.pending + piece@) =~= (encode_utf8(v.text)
                + v.pending) + piece@);
            assert(encode_utf8(self.text@) + pend == concat_pieces(self.pieces@));
        }
        let n: usize = if first { 0 } else { self.sampled + 1 };
        self.sampled = n;
        let steps: usize = if self.sample_len == 0 { 0 } else { self.sample_len - 1 };
        let eos_hit = match self.eos {
            Some(e) => !first && e == token,
            None => false,
        };
        if eos_hit || (n == steps && !cancelled) {
            let rest = self.stream.decode_rest();
            proof {
                let pend = accept_step(old(self)@.pending, piece@).1;
                if valid_utf8(concat_pieces(self.pieces@)) {
                    lemma_decode_after_text(self.text@, pend);
                }
                if pend.len() == 0 {
                    assert(valid_utf8(pend));
                    assert(decode_utf8(pend) =~= Seq::<char>::empty());
                }
            }
            if let Some(t) = &rest {
                self.text.append(t.as_str());
            }
            self.phase = Phase::Completed;
            let result = GenerationResult {
                text: self.text.clone(),
                prompt_tokens: self.prompt_len,
                sampled: self.sampled,
            };
            return Action::Complete { emit, rest, result };
        }
        if cancelled {
            return self.abort(GenerationError::Cancelled);
        }
        self.phase = Phase::Decoding;
        let window = self.window();
        let mut next: Vec<u32> = Vec::new();
        next.push(token);
        proof {
            assert(next@ =~= seq![token]);
        }
        Action::Forward { tokens: next, position: self.prompt_len + n, window, emit }
    }

    /// Advances the run by one event. `cancelled` is the cancellation flag as
    /// read right after the reported work, which is also right before the
    /// forward pass that the returned action may ask for.
    pub fn step(&mut self, event: Event, cancelled: bool) -> (r: Action)
        requires
            old(self).wf(),
            old(self).running(),
        ensures
            final(self).wf(),
            same_params(final(self)@, old(self)@),
            ({
                let v = old(self)@;
                let f = final(self)@;
                &&& v.phase != Phase::Encoding ==> f.prompt_len == v.prompt_len && f.eos == v.eos
                &&& v.phase == Phase::Encoding ==> match event {
                    Event::Encoded { tokens, eos } => if cancelled {
                        aborted(f, r, GenerationError::Cancelled)
                    } else {
                        let p = trimmed(tokens@, v.sample_len as int, v.max_context as int);
                        &&& f.phase == Phase::PromptForward
                        &&& f.prompt_len == p.len()
                        &&& f.eos == eos
                        &&& f.sampled == 0
                        &&& f.tokens == Seq::<u32>::empty()
                        &&& f.text == Seq::<char>::empty()
                        &&& f.pending == Seq::<u8>::empty()
                        &&& f.pieces == Seq::<Seq<u8>>::empty()
                        &&& is_forward(r, p, 0, Seq::empty(), Seq::empty())
                    },
                    Event::EncodeFailed => aborted(f, r, GenerationError::EncodingFailure),
                    _ => aborted(f, r, GenerationError::InferenceFailure),
                }
                &&& v.phase == Phase::PromptForward ==> match event {
                    Event::Sampled { token, piece } => {
                        let (frag, pend) = accept_step(v.pending, piece@);
                        if cancelled {
                            aborted(f, r, GenerationError::Cancelled)
                        } else if steps_of(v.sample_len) == 0 {
                            &&& f.phase == Phase::Completed
                            &&& f.tokens == v.tokens.push(token)
                            &&& f.text == v.text + frag + flush_text(pend)
                            &&& f.pieces == v.pieces.push(piece@)
                            &&& valid_utf8(concat_pieces(f.pieces)) ==> f.text == decode_utf8(
                                concat_pieces(f.pieces),
                            )
                            &&& is_complete(r, frag, flush_text(pend), f.text, v.prompt_len, 0)
                        } else {
                            &&& f.phase == Phase::Decoding
                            &&& f.tokens == v.tokens.push(token)
                            &&& f.sampled == 0
                            &&& f.text == v.text + frag
                            &&& f.pending == pend
                            &&& f.pieces == v.pieces.push(piece@)
                            &&& is_forward(
                                r,
                                seq![token],
                                v.prompt_len as int,
                                window_of(f.tokens, v.repeat_last_n),
                                frag,
                            )
                        }
                    },
                    _ => aborted(f, r, GenerationError::InferenceFailure),
                }
                &&& v.phase == Phase::Decoding ==> match event {
                    Event::Sampled { token, piece } => {
                        let (frag, pend) = accept_step(v.pending, piece@);
                        let n = v.sampled + 1;
                        if v.eos == Some(token) || (n == steps_of(v.sample_len) && !cancelled) {
                            &&& f.phase == Phase::Completed
                            &&& f.tokens == v.tokens.push(token)
                            &&& f.text == v.text + frag + flush_text(pend)
                            &&& f.pieces == v.pieces.push(piece@)
                            &&& valid_utf8(concat_pieces(f.pieces)) ==> f.text == decode_utf8(
                                concat_pieces(f.pieces),
                            )
                            &&& is_complete(r, frag, flush_text(pend), f.text, v.prompt_len, n)
                        } else if cancelled {
                            aborted(f, r, GenerationError::Cancelled)
                        } else {
                            &&& f.phase == Phase::Decoding
                            &&& f.tokens == v.tokens.push(token)
                            &&& f.sampled == n
                            &&& f.text == v.text + frag
                            &&& f.pending == pend
                            &&& f.pieces == v.pieces.push(piece@)
                            &&& is_forward(
                                r,
                                seq![token],
                                (v.prompt_len + n) as int,
                                window_of(f.tokens, v.repeat_last_n),
                                frag,
                            )
                        }
                    },
                    _ => aborted(f, r, GenerationError::InferenceFailure),
                }
            }),
    {
        match self.phase {
            Phase::Encoding => match event {
                Event::Encoded { tokens, eos } => {
                    if cancelled {
                        return self.abort(GenerationError::Cancelled);
                    }
                    let prompt = truncate_prompt_tokens(tokens, self.sample_len, self.max_context);
                    self.stream.clear();
                    self.tokens.clear();
                    self.text = String::new();
                    self.pieces = Ghost(Seq::empty());
                    self.prompt_len = prompt.len();
                    self.sampled = 0;
                    self.eos = eos;
                    self.phase = Phase::PromptForward;
                    Action::Forward { tokens: prompt, position: 0, window: Vec::new(), emit: None }
                },
                Event::EncodeFailed => self.abort(GenerationError::EncodingFailure),
                _ => self.abort(GenerationError::InferenceFailure),
            },
            Phase::PromptForward => match event {
                Event::Sampled { token, piece } => {
                    if cancelled {
                        return self.abort(GenerationError::Cancelled);
                    }
                    self.take_token(token, &piece, cancelled, true)
                },
                _ => self.abort(GenerationError::InferenceFailure),
            },
            _ => match event {
                Event::Sampled { token, piece } => self.take_token(token, &piece, cancelled, false),
                _ => self.abort(GenerationError::InferenceFailure),
            },
        }
    }

    fn window(&self) -> (r: Vec<u32>)
        ensures
            r@ == window_of(self.tokens@, self.repeat_last_n as nat),
    {
        let len = self.tokens.len();
        let start: usize = if len <= self.repeat_last_n {
            0
        } else {
            len - self.repeat_last_n
        };
        let mut out: Vec<u32> = Vec::new();
        let mut i: usize = start;
        while i < len
            invariant
                start <= i <= len,
                len == self.tokens@.len(),
                out@ == self.tokens@.subrange(start as int, i as int),
            decreases len - i,
        {
            out.push(self.tokens[i]);
            i += 1;
        }
        proof {
            if len <= self.repeat_last_n {
                assert(self.tokens@.subrange(0, len as int) =~= self.tokens@);
            }
        }
        out
    }
}

} // verus!
