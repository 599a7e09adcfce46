//! On-device chat text generation: model families, prompt templates,
//! context-window trimming, streaming detokenization and the decision logic
//! of one generation run.
pub mod error;
pub mod prompt;
pub mod which;
pub mod context;
pub mod detokenizer;
pub mod generation;
pub mod device;
pub mod vocab;
