use vstd::prelude::*;

use crate::config::{BATCH_TOKENS, DEFAULT_CONTEXT_TOKENS, MAX_GENERATED_TOKENS};
use crate::error::RewriteError;

verus! {

/// Whether a prompt of `prompt_tokens` tokens leaves room in the context for
/// a full generation.
pub open spec fn spec_prompt_fits(prompt_tokens: nat) -> bool {
    prompt_tokens + MAX_GENERATED_TOKENS < DEFAULT_CONTEXT_TOKENS
}

/// Token capacity of the batch that carries the prompt and, later, each
/// generated token: the prompt length, but at least the batch size.
pub fn batch_capacity(prompt_tokens: usize) -> (capacity: usize)
    ensures
        capacity == if prompt_tokens < BATCH_TOKENS { BATCH_TOKENS as usize } else { prompt_tokens },
{
    if prompt_tokens < BATCH_TOKENS as usize {
        BATCH_TOKENS as usize
    } else {
        prompt_tokens
    }
}

/// Progress of one generation: the prompt length, how many generated tokens
/// have been fed back to the model, and whether the model has ended its
/// output.
pub struct Generation {
    prompt_tokens: usize,
    produced: usize,
    finished: bool,
}

/// A generation's progress, as numbers.
pub struct GenerationView {
    pub prompt_tokens: nat,
    pub produced: nat,
    pub finished: bool,
}

impl GenerationView {
    /// The prompt left room for a full generation, and no more tokens than
    /// allowed have been generated.
    pub open spec fn wf(self) -> bool {
        &&& spec_prompt_fits(self.prompt_tokens)
        &&& self.produced <= MAX_GENERATED_TOKENS
    }

    /// Whether the next token should be sampled.
    pub open spec fn wants_token(self) -> bool {
        !self.finished && self.produced < MAX_GENERATED_TOKENS
    }

    /// Context position of the next generated token.
    pub open spec fn next_position(self) -> nat {
        self.prompt_tokens + self.produced
    }
}

impl View for Generation {
    type V = GenerationView;

    closed spec fn view(&self) -> GenerationView {
        GenerationView {
            prompt_tokens: self.prompt_tokens as nat,
            produced: self.produced as nat,
            finished: self.finished,
        }
    }
}

/// What to do with a sampled token.
#[derive(Clone, Copy, Debug, PartialEq, Eq, Structural)]
pub enum GenerationStep {
    /// The model ended its output: stop generating.
    Finish,
    /// Accept the token, show its text, and feed it back at `position`.
    Feed { position: i32 },
}

impl Generation {
    /// Starts a generation after a prompt of `prompt_tokens` tokens; refuses
    /// a prompt that leaves no room for a full generation in the context.
    pub fn start(prompt_tokens: usize) -> (r: Result<Generation, RewriteError>)
        ensures
            r is Ok <==> spec_prompt_fits(prompt_tokens as nat),
            r matches Err(e) ==> e == RewriteError::InputTooLong,
            r matches Ok(g) ==> g@ == (GenerationView {
                prompt_tokens: prompt_tokens as nat,
                produced: 0,
                finished: false,
            }) && g@.wf(),
    {
        if prompt_tokens >= DEFAULT_CONTEXT_TOKENS as usize - MAX_GENERATED_TOKENS {
            Err(RewriteError::InputTooLong)
        } else {
            Ok(Generation { prompt_tokens, produced: 0, finished: false })
        }
    }

    /// Number of generated tokens fed back so far.
    pub fn produced(&self) -> (n: usize)
        ensures
            n == self@.produced,
    {
        self.produced
    }

    /// Whether another token should be sampled: the model has not ended
    /// its output and fewer than the allowed number have been generated.
    pub fn wants_token(&self) -> (b: bool)
        ensures
            b == self@.wants_token(),
    {
        !self.finished && self.produced < MAX_GENERATED_TOKENS
    }

    /// Decides what to do with a freshly sampled token: stop at the end of
    /// the model's output, otherwise feed the token back at the next
    /// position, right after the prompt and the tokens before it.
    pub fn step(&mut self, end_of_generation: bool) -> (s: GenerationStep)
        requires
            old(self)@.wf(),
            old(self)@.wants_token(),
        ensures
            final(self)@.wf(),
            final(self)@.prompt_tokens == old(self)@.prompt_tokens,
            end_of_generation ==> s == GenerationStep::Finish && final(self)@ == (GenerationView {
                finished: true,
                ..old(self)@
            }),
            !end_of_generation ==> s == (GenerationStep::Feed {
                position: old(self)@.next_position() as i32,
            }) && final(self)@ == (GenerationView { produced: old(self)@.produced + 1, ..old(self)@ }),
            s matches GenerationStep::Feed { position } ==> 0 <= position < DEFAULT_CONTEXT_TOKENS,
    {
        if end_of_generation {
            self.finished = true;
            GenerationStep::Finish
        } else {
            let position = (self.prompt_tokens + self.produced) as i32;
            self.produced = self.produced + 1;
            GenerationStep::Feed { position }
        }
    }
}

/// A prompt is accepted exactly when it has at most 3395 tokens, so that the
/// 700 tokens of a full generation still fit in the 4096-token context.
pub proof fn lemma_start_accepts_exactly(prompt_tokens: nat)
    ensures
        spec_prompt_fits(prompt_tokens) <==> prompt_tokens <= 3395,
        spec_prompt_fits(prompt_tokens) <==> prompt_tokens + 700 < 4096,
{
}

/// Another token is wanted exactly while the model has not ended its
/// output and fewer than 700 tokens have been generated, whatever the
/// prompt's length.
pub proof fn lemma_wants_token_exactly(g: GenerationView)
    ensures
        g.wants_token() <==> !g.finished && g.produced < 700,
{
}

/// When the model never ends its output, a generation after any accepted
/// prompt of `p` tokens feeds exactly 700 tokens, the `k`-th of them at
/// position `p + k`: after `k < 700` tokens another one is wanted and goes
/// right after the prompt and the ones before it, and after 700 none is.
pub proof fn lemma_uninterrupted_generation(p: nat, k: nat)
    requires
        spec_prompt_fits(p),
    ensures
        k < 700 ==> (GenerationView { prompt_tokens: p, produced: k, finished: false }).wants_token(),
        k < 700 ==> (GenerationView { prompt_tokens: p, produced: k, finished: false }).next_position()
            == p + k,
        k <= 700 ==> (GenerationView { prompt_tokens: p, produced: k, finished: false }).wf(),
        !(GenerationView { prompt_tokens: p, produced: 700, finished: false }).wants_token(),
{
}

/// However the steps of a generation go, the prompt and every generated
/// token fit in the context, no more than the allowed number of tokens is
/// generated, and once that many are in, sampling stops.
pub proof fn lemma_generation_within_bounds(g: GenerationView)
    requires
        g.wf(),
    ensures
        g.prompt_tokens + g.produced < DEFAULT_CONTEXT_TOKENS,
        g.produced <= MAX_GENERATED_TOKENS,
        g.wants_token() ==> g.next_position() + 1 < DEFAULT_CONTEXT_TOKENS,
        g.produced == MAX_GENERATED_TOKENS ==> !g.wants_token(),
        g.finished ==> !g.wants_token(),
{
}

} // verus!
