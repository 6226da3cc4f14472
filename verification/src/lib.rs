//! `torii`: the intake layer of the task pipeline.
//!
//! The library builds raw intake snapshots ([`RawItem`]), maps a model's
//! `create_task` tool call onto a provider-neutral [`TaskDraft`], keeps the
//! catalogue of the intake prompts, and holds the decisions of the intake
//! MCP surface. It performs no storage I/O: the server persists snapshots.
//! A new raw item is always `raw`; there is no update or routing API.

pub mod ai;
pub mod error;
pub mod id;
pub mod mcp;
pub mod parse;
pub mod prompts;
pub mod raw_item;
pub mod task;
pub mod text;
pub mod time;

pub use ai::{create_task_tool, AiOutput, ToolCall, ToolParameter, ToolSchema};
pub use error::IntakeError;
pub use id::RawItemId;
pub use parse::{draft_from_arguments, draft_from_fields, draft_from_outputs, parse_priority, parse_status};
pub use prompts::PromptRegistry;
pub use raw_item::{ItemLink, NewRawItem, RawItem, RawItemKind, RawItemStatus};
pub use task::{Priority, Status, TaskDraft};
pub use time::Timestamp;
