//! Error values: what an operation of the library reports, and what a turn
//! reports on the output stream.

use vstd::prelude::*;
use crate::text::{join, quote, quoted_text};

verus! {

/// An error reported by an operation of the library. Each variant carries
/// the text that describes the failure.
#[derive(Debug, PartialEq, Eq)]
pub enum AgentError {
    /// The configuration cannot be used.
    Config { message: String },
    /// The engine reported a failure; the text is the engine's own.
    Codex(String),
    /// An I/O operation failed; the text is the system's own.
    Io(String),
    /// A JSON document could not be written or read.
    Json(String),
    /// A value could not be sent on a channel.
    ChannelSend { message: String },
    /// A value could not be received from a channel.
    ChannelReceive { message: String },
    /// The execution of the agent failed.
    Execution { message: String },
    /// A tool failed.
    Tool { message: String },
    /// An MCP server failed.
    Mcp { message: String },
    /// Any other failure.
    Generic { message: String },
}

/// What an [`AgentError`] stands for.
pub enum AgentErrorView {
    Config { message: Seq<char> },
    Codex(Seq<char>),
    Io(Seq<char>),
    Json(Seq<char>),
    ChannelSend { message: Seq<char> },
    ChannelReceive { message: Seq<char> },
    Execution { message: Seq<char> },
    Tool { message: Seq<char> },
    Mcp { message: Seq<char> },
    Generic { message: Seq<char> },
}

impl AgentErrorView {
    /// The line that describes the error to a reader.
    pub open spec fn text(self) -> Seq<char> {
        match self {
            AgentErrorView::Config { message } => "Configuration error: "@ + message,
            AgentErrorView::Codex(message) => "Codex error: "@ + message,
            AgentErrorView::Io(message) => "I/O error: "@ + message,
            AgentErrorView::Json(message) => "JSON error: "@ + message,
            AgentErrorView::ChannelSend { message } => "Channel send error: "@ + message,
            AgentErrorView::ChannelReceive { message } => "Channel receive error: "@ + message,
            AgentErrorView::Execution { message } => "Agent execution error: "@ + message,
            AgentErrorView::Tool { message } => "Tool execution error: "@ + message,
            AgentErrorView::Mcp { message } => "MCP server error: "@ + message,
            AgentErrorView::Generic { message } => "Agent error: "@ + message,
        }
    }
}

impl View for AgentError {
    type V = AgentErrorView;

    open spec fn view(&self) -> AgentErrorView {
        match *self {
            AgentError::Config { message } => AgentErrorView::Config { message: message@ },
            AgentError::Codex(message) => AgentErrorView::Codex(message@),
            AgentError::Io(message) => AgentErrorView::Io(message@),
            AgentError::Json(message) => AgentErrorView::Json(message@),
            AgentError::ChannelSend { message } => AgentErrorView::ChannelSend {
                message: message@,
            },
            AgentError::ChannelReceive { message } => AgentErrorView::ChannelReceive {
                message: message@,
            },
            AgentError::Execution { message } => AgentErrorView::Execution { message: message@ },
            AgentError::Tool { message } => AgentErrorView::Tool { message: message@ },
            AgentError::Mcp { message } => AgentErrorView::Mcp { message: message@ },
            AgentError::Generic { message } => AgentErrorView::Generic { message: message@ },
        }
    }
}

impl Clone for AgentError {
    fn clone(&self) -> (r: AgentError)
        ensures
            r@ == self@,
    {
        match self {
            AgentError::Config { message } => AgentError::Config { message: message.clone() },
            AgentError::Codex(message) => AgentError::Codex(message.clone()),
            AgentError::Io(message) => AgentError::Io(message.clone()),
            AgentError::Json(message) => AgentError::Json(message.clone()),
            AgentError::ChannelSend { message } => AgentError::ChannelSend {
                message: message.clone(),
            },
            AgentError::ChannelReceive { message } => AgentError::ChannelReceive {
                message: message.clone(),
            },
            AgentError::Execution { message } => AgentError::Execution {
                message: message.clone(),
            },
            AgentError::Tool { message } => AgentError::Tool { message: message.clone() },
            AgentError::Mcp { message } => AgentError::Mcp { message: message.clone() },
            AgentError::Generic { message } => AgentError::Generic { message: message.clone() },
        }
    }
}

impl AgentError {
    /// The line that describes the error to a reader.
    pub fn to_text(&self) -> (r: String)
        ensures
            r@ == self@.text(),
    {
        match self {
            AgentError::Config { message } => join("Configuration error: ", message.as_str()),
            AgentError::Codex(message) => join("Codex error: ", message.as_str()),
            AgentError::Io(message) => join("I/O error: ", message.as_str()),
            AgentError::Json(message) => join("JSON error: ", message.as_str()),
            AgentError::ChannelSend { message } => join("Channel send error: ", message.as_str()),
            AgentError::ChannelReceive { message } => join(
                "Channel receive error: ",
                message.as_str(),
            ),
            AgentError::Execution { message } => join("Agent execution error: ", message.as_str()),
            AgentError::Tool { message } => join("Tool execution error: ", message.as_str()),
            AgentError::Mcp { message } => join("MCP server error: ", message.as_str()),
            AgentError::Generic { message } => join("Agent error: ", message.as_str()),
        }
    }

    /// The generic error with the given text.
    pub fn generic(message: &str) -> (r: AgentError)
        ensures
            r@ == (AgentErrorView::Generic { message: message@ }),
    {
        AgentError::Generic { message: message.to_string() }
    }
}

/// An error reported to the consumer of a turn's output.
#[derive(Debug, PartialEq, Eq)]
pub enum OutputError {
    /// A tool failed.
    ToolExecutionFailed { tool_name: String, error: String },
    /// The request to the model failed.
    ModelRequestFailed { error: String },
    /// The configuration cannot be used.
    ConfigurationError { error: String },
    /// A command broke the sandbox policy.
    SandboxViolation { command: String, reason: String },
    /// An operation was not permitted.
    PermissionDenied { operation: String, reason: String },
    /// A resource limit was passed.
    ResourceLimitExceeded { resource: String, limit: String },
    /// Any other failure.
    General { message: String },
}

/// What an [`OutputError`] stands for.
pub enum OutputErrorView {
    ToolExecutionFailed { tool_name: Seq<char>, error: Seq<char> },
    ModelRequestFailed { error: Seq<char> },
    ConfigurationError { error: Seq<char> },
    SandboxViolation { command: Seq<char>, reason: Seq<char> },
    PermissionDenied { operation: Seq<char>, reason: Seq<char> },
    ResourceLimitExceeded { resource: Seq<char>, limit: Seq<char> },
    General { message: Seq<char> },
}

/// A variant with one field, written the way `{:?}` writes it.
pub open spec fn one_field_text(head: Seq<char>, value: Seq<char>) -> Seq<char> {
    head + quoted_text(value) + " }"@
}

/// A variant with two fields, written the way `{:?}` writes it.
pub open spec fn two_field_text(
    head: Seq<char>,
    first: Seq<char>,
    middle: Seq<char>,
    second: Seq<char>,
) -> Seq<char> {
    head + quoted_text(first) + middle + quoted_text(second) + " }"@
}

impl OutputErrorView {
    /// The error written the way `{:?}` writes a value of this shape: the
    /// variant's name, then its fields by name, each string quoted.
    pub open spec fn debug_text(self) -> Seq<char> {
        match self {
            OutputErrorView::ToolExecutionFailed { tool_name, error } => two_field_text(
                "ToolExecutionFailed { tool_name: "@,
                tool_name,
                ", error: "@,
                error,
            ),
            OutputErrorView::ModelRequestFailed { error } => one_field_text(
                "ModelRequestFailed { error: "@,
                error,
            ),
            OutputErrorView::ConfigurationError { error } => one_field_text(
                "ConfigurationError { error: "@,
                error,
            ),
            OutputErrorView::SandboxViolation { command, reason } => two_field_text(
                "SandboxViolation { command: "@,
                command,
                ", reason: "@,
                reason,
            ),
            OutputErrorView::PermissionDenied { operation, reason } => two_field_text(
                "PermissionDenied { operation: "@,
                operation,
                ", reason: "@,
                reason,
            ),
            OutputErrorView::ResourceLimitExceeded { resource, limit } => two_field_text(
                "ResourceLimitExceeded { resource: "@,
                resource,
                ", limit: "@,
                limit,
            ),
            OutputErrorView::General { message } => one_field_text(
                "General { message: "@,
                message,
            ),
        }
    }
}

impl View for OutputError {
    type V = OutputErrorView;

    open spec fn view(&self) -> OutputErrorView {
        match *self {
            OutputError::ToolExecutionFailed { tool_name, error } => {
                OutputErrorView::ToolExecutionFailed { tool_name: tool_name@, error: error@ }
            },
            OutputError::ModelRequestFailed { error } => OutputErrorView::ModelRequestFailed {
                error: error@,
            },
            OutputError::ConfigurationError { error } => OutputErrorView::ConfigurationError {
                error: error@,
            },
            OutputError::SandboxViolation { command, reason } => {
                OutputErrorView::SandboxViolation { command: command@, reason: reason@ }
            },
            OutputError::PermissionDenied { operation, reason } => {
                OutputErrorView::PermissionDenied { operation: operation@, reason: reason@ }
            },
            OutputError::ResourceLimitExceeded { resource, limit } => {
                OutputErrorView::ResourceLimitExceeded { resource: resource@, limit: limit@ }
            },
            OutputError::General { message } => OutputErrorView::General { message: message@ },
        }
    }
}

impl Clone for OutputError {
    fn clone(&self) -> (r: OutputError)
        ensures
            r@ == self@,
    {
        match self {
            OutputError::ToolExecutionFailed { tool_name, error } => {
                OutputError::ToolExecutionFailed {
                    tool_name: tool_name.clone(),
                    error: error.clone(),
                }
            },
            OutputError::ModelRequestFailed { error } => OutputError::ModelRequestFailed {
                error: error.clone(),
            },
            OutputError::ConfigurationError { error } => OutputError::ConfigurationError {
                error: error.clone(),
            },
            OutputError::SandboxViolation { command, reason } => OutputError::SandboxViolation {
                command: command.clone(),
                reason: reason.clone(),
            },
            OutputError::PermissionDenied { operation, reason } => OutputError::PermissionDenied {
                operation: operation.clone(),
                reason: reason.clone(),
            },
            OutputError::ResourceLimitExceeded { resource, limit } => {
                OutputError::ResourceLimitExceeded {
                    resource: resource.clone(),
                    limit: limit.clone(),
                }
            },
            OutputError::General { message } => OutputError::General { message: message.clone() },
        }
    }
}

fn one_field(head: &str, value: &String) -> (r: String)
    ensures
        r@ == one_field_text(head@, value@),
{
    let mut out = head.to_string();
    let quoted = quote(value.as_str());
    out.append(quoted.as_str());
    out.append(" }");
    out
}

fn two_fields(head: &str, first: &String, middle: &str, second: &String) -> (r: String)
    ensures
        r@ == two_field_text(head@, first@, middle@, second@),
{
    let mut out = head.to_string();
    let quoted_first = quote(first.as_str());
    out.append(quoted_first.as_str());
    out.append(middle);
    let quoted_second = quote(second.as_str());
    out.append(quoted_second.as_str());
    out.append(" }");
    out
}

impl OutputError {
    /// The general error with the given text.
    pub fn general(message: &str) -> (r: OutputError)
        ensures
            r@ == (OutputErrorView::General { message: message@ }),
    {
        OutputError::General { message: message.to_string() }
    }

    /// The error written the way `{:?}` writes it.
    pub fn debug_text(&self) -> (r: String)
        ensures
            r@ == self@.debug_text(),
    {
        match self {
            OutputError::ToolExecutionFailed { tool_name, error } => two_fields(
                "ToolExecutionFailed { tool_name: ",
                tool_name,
                ", error: ",
                error,
            ),
            OutputError::ModelRequestFailed { error } => one_field(
                "ModelRequestFailed { error: ",
                error,
            ),
            OutputError::ConfigurationError { error } => one_field(
                "ConfigurationError { error: ",
                error,
            ),
            OutputError::SandboxViolation { command, reason } => two_fields(
                "SandboxViolation { command: ",
                command,
                ", reason: ",
                reason,
            ),
            OutputError::PermissionDenied { operation, reason } => two_fields(
                "PermissionDenied { operation: ",
                operation,
                ", reason: ",
                reason,
            ),
            OutputError::ResourceLimitExceeded { resource, limit } => two_fields(
                "ResourceLimitExceeded { resource: ",
                resource,
                ", limit: ",
                limit,
            ),
            OutputError::General { message } => one_field("General { message: ", message),
        }
    }
}

} // verus!
