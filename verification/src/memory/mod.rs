//! Long-term memory: the entries the agent stores and reads back.

pub mod traits;

pub use traits::MemoryEntry;
