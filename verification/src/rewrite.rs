use vstd::prelude::*;

use crate::error::RewriteError;
use crate::text::{is_white_space, lemma_trim_shape, trim, trim_white_space};

verus! {

/// Status message while the model generates a rewrite.
pub const RUNNING_MESSAGE: &'static str = "Running local LLM inference";

/// Status message after a rewrite finished without error.
pub const COMPLETE_MESSAGE: &'static str = "Rewrite complete";

/// The text a rewrite request works on: the request's text without
/// surrounding white space, which must not be empty.
pub open spec fn spec_rewrite_input(text: Seq<char>) -> Result<Seq<char>, RewriteError> {
    if trim(text).len() == 0 {
        Err(RewriteError::EmptyInput)
    } else {
        Ok(trim(text))
    }
}

/// A request made only of white space (or of nothing) is refused as empty;
/// any request with a character that is not white space is accepted, and
/// the text worked on is the part of the request from its first to its last
/// such character, everything in between kept as it was.
pub proof fn lemma_rewrite_input_keeps_inner_text(text: Seq<char>)
    ensures
        (forall|i: int| 0 <= i < text.len() ==> is_white_space(#[trigger] text[i]))
            ==> spec_rewrite_input(text) == Err::<Seq<char>, RewriteError>(RewriteError::EmptyInput),
        (exists|i: int| 0 <= i < text.len() && !is_white_space(#[trigger] text[i])) ==> {
            &&& spec_rewrite_input(text) is Ok
            &&& spec_rewrite_input(text)->Ok_0.len() > 0
            &&& !is_white_space(spec_rewrite_input(text)->Ok_0[0])
            &&& !is_white_space(spec_rewrite_input(text)->Ok_0.last())
            &&& exists|a: int, b: int|
                0 <= a <= b <= text.len() && spec_rewrite_input(text)->Ok_0 == text.subrange(a, b)
                    && (forall|i: int| 0 <= i < a ==> is_white_space(#[trigger] text[i])) && (
                forall|i: int| b <= i < text.len() ==> is_white_space(#[trigger] text[i]))
        },
{
    lemma_trim_shape(text);
    let t = trim(text);
    let (a, b) = choose|a: int, b: int|
        0 <= a <= b <= text.len() && t == text.subrange(a, b) && (forall|i: int|
            0 <= i < a ==> is_white_space(#[trigger] text[i])) && (forall|i: int|
            b <= i < text.len() ==> is_white_space(#[trigger] text[i]));
    if exists|i: int| 0 <= i < text.len() && !is_white_space(#[trigger] text[i]) {
        let i = choose|i: int| 0 <= i < text.len() && !is_white_space(#[trigger] text[i]);
        assert(a <= i < b);
        assert(t[i - a] == text[i]);
        assert(t.len() > 0);
    }
    if forall|i: int| 0 <= i < text.len() ==> is_white_space(#[trigger] text[i]) {
        if t.len() > 0 {
            assert(t[0] == text[a]);
        }
    }
}

/// Takes the text of a rewrite request: surrounding white space removed,
/// refused when nothing is left.
pub fn rewrite_input(text: &str) -> (r: Result<&str, RewriteError>)
    ensures
        match r {
            Ok(t) => spec_rewrite_input(text@) == Ok::<Seq<char>, RewriteError>(t@),
            Err(e) => spec_rewrite_input(text@) == Err::<Seq<char>, RewriteError>(e),
        },
{
    let trimmed = trim_white_space(text);
    if trimmed.is_empty() {
        Err(RewriteError::EmptyInput)
    } else {
        Ok(trimmed)
    }
}

/// The rewrite-status event sent to the user interface.
#[derive(Clone, Debug, PartialEq, Eq)]
pub struct RewriteStatus {
    pub message: String,
    pub busy: bool,
}

/// The status announced when a rewrite ends: not busy, with the completion
/// message on success and the error's text on failure.
pub fn finished_status(outcome: &Result<(), String>) -> (status: RewriteStatus)
    ensures
        !status.busy,
        outcome is Ok ==> status.message@ == COMPLETE_MESSAGE@,
        outcome matches Err(e) ==> status.message@ == e@,
{
    let message = match outcome {
        Ok(()) => String::from_str(COMPLETE_MESSAGE),
        Err(error) => error.clone(),
    };
    RewriteStatus { message, busy: false }
}

} // verus!
