use vstd::prelude::*;

verus! {

/// Why a rewrite request fails inside the library.
#[derive(Clone, Copy, Debug, PartialEq, Eq, Structural)]
pub enum RewriteError {
    /// The text is empty once surrounding white space is removed.
    EmptyInput,
    /// No inference backend has been initialized yet.
    BackendNotInitialized,
    /// No model is in memory yet.
    ModelNotLoaded,
    /// The prompt leaves no room in the context for a full generation.
    InputTooLong,
    /// The text decoder did not take in all the bytes of a generated piece.
    PieceNotDecoded,
}

/// The user-facing text of an error.
pub open spec fn spec_error_message(e: RewriteError) -> Seq<char> {
    match e {
        RewriteError::EmptyInput => "Input text is empty"@,
        RewriteError::BackendNotInitialized => "LLM backend is not initialized. Run Setup or Load Model first."@,
        RewriteError::ModelNotLoaded => "LLM model is not loaded. Run Setup or Load Model first."@,
        RewriteError::InputTooLong => "Input is too long for the current 4096-token local context"@,
        RewriteError::PieceNotDecoded => "Failed to decode generated token: the decoder left bytes unread"@,
    }
}

impl RewriteError {
    /// The user-facing text of this error.
    pub fn message(&self) -> (m: String)
        ensures
            m@ == spec_error_message(*self),
    {
        match self {
            RewriteError::EmptyInput => String::from_str("Input text is empty"),
            RewriteError::BackendNotInitialized => String::from_str(
                "LLM backend is not initialized. Run Setup or Load Model first.",
            ),
            RewriteError::ModelNotLoaded => String::from_str(
                "LLM model is not loaded. Run Setup or Load Model first.",
            ),
            RewriteError::InputTooLong => String::from_str(
                "Input is too long for the current 4096-token local context",
            ),
            RewriteError::PieceNotDecoded => String::from_str(
                "Failed to decode generated token: the decoder left bytes unread",
            ),
        }
    }
}

} // verus!
