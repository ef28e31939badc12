//! MiniBot: the decision logic of a small AI agent runtime, with contracts.
//!
//! The library holds the conversation history, the message catalog, the
//! provider and tool data types, and the decisions that the gateway, the
//! providers and the tools take between their I/O steps.

pub mod agent;
pub mod gateway;
pub mod i18n;
pub mod memory;
pub mod providers;
pub mod text;
pub mod tools;

pub use i18n::{I18n, Locale};
