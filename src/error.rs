use vstd::prelude::*;

verus! {

/// The ways one generation run can end without a result.
#[derive(Clone, Copy, Debug, PartialEq, Eq, Structural)]
pub enum GenerationError {
    /// The requested model family is not ready for use.
    ModelUnavailable,
    /// The tokenizer rejected the prompt.
    EncodingFailure,
    /// The forward pass or the sampler failed.
    InferenceFailure,
    /// The cancellation token was observed set at a checkpoint.
    Cancelled,
}

} // verus!
