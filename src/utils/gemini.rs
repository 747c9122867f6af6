//! The language model client.

use vstd::prelude::*;

verus! {

/// The model's answer to `prompt`.
pub fn call_gemini(prompt: &str) -> (r: Result<String, String>)
    ensures
        r matches Ok(s) && s@ == "Response to prompt: "@ + prompt@,
{
    let mut s = "Response to prompt: ".to_owned();
    s.append(prompt);
    Ok(s)
}

} // verus!
