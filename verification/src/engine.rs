//! The boundary to the engine that answers: what is handed to it and what
//! it reports back, as plain data.

use vstd::prelude::*;
use crate::json::JsonValue;
use crate::plan::UpdatePlanArgs;

verus! {

/// One piece of a submission.
#[derive(Debug, PartialEq, Eq)]
pub enum InputItem {
    Text { text: String },
    Image { image_url: String },
}

/// What is asked of the engine.
#[derive(Debug, PartialEq, Eq)]
pub enum Op {
    UserInput { items: Vec<InputItem> },
}

/// A request to the engine, with the identifier by which its events are told
/// apart from those of other requests.
#[derive(Debug, PartialEq, Eq)]
pub struct Submission {
    pub id: String,
    pub op: Op,
}

/// An event of the engine, reduced to what the session reads of it.
#[derive(Debug)]
pub enum EngineEvent {
    /// The engine has answered in full.
    AgentMessage { message: String },
    /// A fragment of an answer.
    AgentMessageDelta { delta: String },
    /// A summary of the engine's reasoning.
    AgentReasoning { text: String },
    /// A fragment of such a summary.
    AgentReasoningDelta { delta: String },
    /// The engine's reasoning as it stands.
    AgentReasoningRawContent { text: String },
    /// A fragment of it.
    AgentReasoningRawContentDelta { delta: String },
    /// The task is done.
    TaskComplete,
    /// The task has begun.
    TaskStarted,
    /// The engine reports an error.
    Error { message: String },
    /// A command is about to run.
    ExecCommandBegin { command: Vec<String> },
    /// A command has ended.
    ExecCommandEnd { exit_code: i32, call_id: String },
    /// A tool of an MCP server is about to be called.
    McpToolCallBegin { server: String, tool: String, arguments: Option<JsonValue> },
    /// A call of a tool of an MCP server has ended; `result` is what came
    /// back, success or failure.
    McpToolCallEnd { server: String, tool: String, success: bool, result: JsonValue },
    /// A web search is about to be made.
    WebSearchBegin { query: String },
    /// A patch with `changes_count` changes is about to be applied.
    PatchApplyBegin { changes_count: usize },
    /// A patch has been applied, or not.
    PatchApplyEnd { success: bool },
    /// A running command has written `chunk`.
    ExecCommandOutputDelta { chunk: Vec<u8> },
    /// The stream from the model broke and is being taken up again.
    StreamError { message: String },
    /// An account of the tokens used.
    TokenCount,
    /// The session has been set up.
    SessionConfigured,
    /// The history of the conversation.
    ConversationHistory,
    /// The tools that the MCP servers offer.
    McpListToolsResponse,
    /// An entry of the history.
    GetHistoryEntryResponse,
    /// The engine's plan has changed.
    PlanUpdate { args: UpdatePlanArgs },
    /// The turn was broken off.
    TurnAborted,
    /// The engine has shut down.
    ShutdownComplete,
    /// Any other event.
    Other,
}

impl EngineEvent {
    /// Whether the event ends the turn it belongs to: the task is done, or
    /// the turn was broken off.
    pub open spec fn is_terminal(self) -> bool {
        self is TaskComplete || self is TurnAborted
    }

    /// Whether the event ends the turn it belongs to.
    pub fn ends_turn(&self) -> (r: bool)
        ensures
            r == self.is_terminal(),
    {
        matches!(self, EngineEvent::TaskComplete | EngineEvent::TurnAborted)
    }
}

} // verus!
