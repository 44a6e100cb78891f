//! An agent that answers inputs turn by turn, under the control of whoever
//! holds its session: the session can be paused, resumed and stopped, and its
//! state can be read at any time.

pub mod agent;
pub mod clock;
pub mod config;
pub mod controller;
pub mod dict;
pub mod engine;
pub mod error;
pub mod execution;
pub mod ident;
pub mod json;
pub mod mcp;
pub mod messages;
pub mod plan;
pub mod session;
pub mod text;
pub mod tools;
pub mod utils;

pub use agent::{Agent, AgentHandle};
pub use config::{AgentConfig, AgentConfigBuilder, AskForApproval, SandboxPolicy};
pub use controller::AgentController;
pub use error::{AgentError, OutputError};
pub use mcp::McpServerConfig;
pub use messages::{ImageInput, InputMessage, OutputData, OutputMessage};
pub use plan::{PlanMessage, PlanMetadata, TodoItem, TodoStatus};
pub use tools::{CustomToolHandler, ToolConfig};
