//! Validity filter for user questions.

use vstd::prelude::*;

verus! {

/// Whether `question` is accepted: it must not be empty.
pub fn filter_question(question: &str) -> (r: Result<bool, String>)
    ensures
        r matches Ok(b) && b == (question@.len() > 0),
{
    Ok(!question.is_empty())
}

} // verus!
