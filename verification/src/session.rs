//! Sessions that are kept from one run to the next.

use vstd::prelude::*;
use crate::agent::Agent;
use crate::clock::Timestamp;
use crate::dict::Dictionary;
use crate::error::{AgentError, AgentErrorView};

verus! {

/// Keeps the sessions of agents.
#[derive(Debug)]
pub struct SessionManager {}

/// The error of a session that cannot be brought back.
pub open spec fn no_restoration() -> AgentErrorView {
    AgentErrorView::Generic { message: "Session restoration not yet implemented"@ }
}

impl SessionManager {
    /// A manager that keeps no session yet.
    pub fn new() -> SessionManager {
        SessionManager {  }
    }

    /// Keeps the state of `agent`. The manager has no store: it keeps
    /// nothing and reports success.
    pub fn save_state(&self, _agent: &Agent) -> (r: Result<(), AgentError>)
        ensures
            r is Ok,
    {
        Ok(())
    }

    /// Brings an agent back from what was kept. The manager has no store:
    /// this always fails, and says why.
    pub fn restore_state(&self) -> (r: Result<Agent, AgentError>)
        ensures
            r matches Err(e) && e@ == no_restoration(),
    {
        Err(AgentError::Generic { message: "Session restoration not yet implemented".to_string() })
    }

    /// The sessions that were kept: none, as the manager has no store.
    pub fn list_sessions(&self) -> (r: Result<Vec<SessionInfo>, AgentError>)
        ensures
            r matches Ok(sessions) && sessions@.len() == 0,
    {
        Ok(Vec::new())
    }

    /// Forgets the session `session_id`. The manager has no store: there is
    /// nothing to forget, and this reports success.
    pub fn delete_session(&self, _session_id: &str) -> (r: Result<(), AgentError>)
        ensures
            r is Ok,
    {
        Ok(())
    }
}

impl Default for SessionManager {
    fn default() -> SessionManager {
        SessionManager::new()
    }
}

/// What is known of a session that was kept.
#[derive(Debug)]
pub struct SessionInfo {
    pub id: String,
    pub name: String,
    pub created_at: Timestamp,
    pub modified_at: Timestamp,
    /// The size of what was kept, in bytes.
    pub size_bytes: u64,
    pub metadata: Dictionary<String>,
}

} // verus!
