//! Helpers for looking into an agent.

use vstd::prelude::*;
use crate::agent::Agent;

verus! {

/// What a dump of an agent says: that there is none to be had.
pub open spec fn no_dump() -> Seq<char> {
    "Agent state dump not yet implemented"@
}

/// A dump of the agent's state for a reader. The library has none to give
/// and says so, whatever the agent.
pub fn dump_agent_state(_agent: &Agent) -> (r: String)
    ensures
        r@ == no_dump(),
{
    "Agent state dump not yet implemented".to_string()
}

} // verus!
