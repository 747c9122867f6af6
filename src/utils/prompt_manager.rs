//! System prompts of the pipeline's stages.

use vstd::prelude::*;

verus! {

/// The system prompt of the stage `agent_name`.
pub fn load_prompt(agent_name: &str) -> (r: Result<String, String>)
    ensures
        r matches Ok(s) && s@ == "Prompt for agent: "@ + agent_name@,
{
    let mut s = "Prompt for agent: ".to_owned();
    s.append(agent_name);
    Ok(s)
}

} // verus!
