//! Verified core of a local academic-text rewriter: input handling, prompt
//! construction, model-state bookkeeping, the token-generation budget and
//! the streaming decoder for generated pieces.

pub mod text;
pub mod config;
pub mod decode;
pub mod error;
pub mod generation;
pub mod prompt;
pub mod rewrite;
pub mod state;
