//! The agent's conversation state.

pub mod history;

pub use history::History;
