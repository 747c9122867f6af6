//! Analysis of a user's question ahead of the reading.

use vstd::prelude::*;

verus! {

/// Prepares `question` for the reading stage.
pub fn analyze_question(question: &str) -> (r: Result<String, String>)
    ensures
        r matches Ok(s) && s@ == "Analyzed question: "@ + question@,
{
    let mut s = "Analyzed question: ".to_owned();
    s.append(question);
    Ok(s)
}

} // verus!
