//! The tools the agent can call: their descriptions and the decisions of a run.

pub mod file;
pub mod json;
pub mod shell;
pub mod traits;

pub use file::FileTool;
pub use shell::ShellTool;
pub use traits::{ToolArgument, ToolDefinition, ToolResult};
