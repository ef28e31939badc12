//! A stored memory entry.

use vstd::prelude::*;

verus! {

/// One remembered item, filed under a category and a key, with its creation
/// and last-update times.
#[derive(Debug, Clone)]
pub struct MemoryEntry {
    pub id: String,
    pub category: String,
    pub key: String,
    pub content: String,
    pub created_at: i64,
    pub updated_at: i64,
}

} // verus!
