//! The restart request that a session sends to its supervisor, and the prompt a
//! fresh session starts with.
use vstd::prelude::*;
use vstd::string::StringExecFns;

verus! {

/// Asks the supervisor to replace the running session by a fresh one that
/// starts from the project map `map`, in `cwd`, with `model`.
pub struct RestartRequest {
    pub map: String,
    pub cwd: String,
    pub model: String,
}

/// The first prompt of a fresh session that continues from the map `map`.
pub open spec fn handoff_prompt_spec(map: Seq<char>) -> Seq<char> {
    "Read "@ + map
        + ". Use its Objective, Cursor, and Next action. Continue immediately from local HEAD. Open a referenced raw log only if a specific ambiguity blocks the next action."@
}

/// The first prompt of a fresh session that continues from the map `map`.
pub fn handoff_prompt(map: &str) -> (r: String)
    ensures
        r@ == handoff_prompt_spec(map@),
{
    let mut r = String::from_str("Read ");
    r.append(map);
    r.append(
        ". Use its Objective, Cursor, and Next action. Continue immediately from local HEAD. Open a referenced raw log only if a specific ambiguity blocks the next action.",
    );
    r
}

} // verus!
