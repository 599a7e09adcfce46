use vstd::prelude::*;

verus! {

/// The context length of the supported models, in tokens.
pub const MAX_CONTEXT: usize = 4096;

/// Tokens kept free beyond the requested continuation when trimming.
pub const SAFETY_MARGIN: usize = 10;

/// How many prompt tokens survive trimming: all of them when prompt and
/// continuation fit, else the context minus continuation and margin, at least
/// zero and at most the prompt.
pub open spec fn kept_len(prompt_len: int, continuation: int, max_context: int) -> int {
    if prompt_len + continuation <= max_context {
        prompt_len
    } else {
        let keep = max_context - continuation - SAFETY_MARGIN;
        if keep <= 0 {
            0
        } else if keep >= prompt_len {
            prompt_len
        } else {
            keep
        }
    }
}

/// The trailing `kept_len` tokens of the prompt.
pub open spec fn trimmed(prompt: Seq<u32>, continuation: int, max_context: int) -> Seq<u32> {
    prompt.subrange(prompt.len() - kept_len(prompt.len() as int, continuation, max_context), prompt.len() as int)
}

/// When prompt and continuation overflow the default context, exactly the
/// trailing `MAX_CONTEXT - continuation - SAFETY_MARGIN` tokens are kept, or
/// none when that is not positive.
pub proof fn lemma_truncation_arithmetic(prompt: Seq<u32>, continuation: int)
    requires
        continuation >= 0,
        prompt.len() + continuation > MAX_CONTEXT,
    ensures
        ({
            let keep = if MAX_CONTEXT - continuation - SAFETY_MARGIN > 0 {
                MAX_CONTEXT - continuation - SAFETY_MARGIN
            } else {
                0
            };
            &&& trimmed(prompt, continuation, MAX_CONTEXT as int).len() == keep
            &&& trimmed(prompt, continuation, MAX_CONTEXT as int) == prompt.subrange(
                prompt.len() - keep,
                prompt.len() as int,
            )
        }),
{
}

/// Drops the oldest prompt tokens so that the prompt and `continuation` more
/// tokens fit in `max_context`, keeping a margin of `SAFETY_MARGIN` tokens
/// whenever trimming happens.
pub fn truncate_prompt_tokens(prompt_tokens: Vec<u32>, continuation: usize, max_context: usize) -> (r: Vec<u32>)
    ensures
        r@ == trimmed(prompt_tokens@, continuation as int, max_context as int),
{
    let len = prompt_tokens.len();
    if continuation <= max_context && len <= max_context - continuation {
        return prompt_tokens;
    }
    let keep: usize = if continuation <= max_context && max_context - continuation >= SAFETY_MARGIN {
        max_context - continuation - SAFETY_MARGIN
    } else {
        0
    };
    let keep: usize = if keep > len { len } else { keep };
    let start = len - keep;
    let mut out: Vec<u32> = Vec::new();
    let mut i: usize = start;
    while i < len
        invariant
            start <= i <= len,
            len == prompt_tokens@.len(),
            out@ == prompt_tokens@.subrange(start as int, i as int),
        decreases len - i,
    {
        out.push(prompt_tokens[i]);
        i += 1;
    }
    out
}

} // verus!
