//! A directory under which repositories are discovered.
use vstd::prelude::*;

use super::DomainResult;

verus! {

/// Identifier of a tracked root.
#[derive(Debug, Clone, Copy, PartialEq, Eq, Hash, Structural)]
pub struct RootId(pub i64);

/// A tracked root directory; `path` is the directory's path as text.
#[derive(Debug, Clone)]
pub struct TrackedRoot {
    pub id: RootId,
    pub path: String,
    pub is_enabled: bool,
    pub updated_at: String,
}

impl TrackedRoot {
    /// Creates a tracked root; always succeeds.
    pub fn new(id: RootId, path: String, is_enabled: bool, updated_at: String) -> (r: DomainResult<
        TrackedRoot,
    >)
        ensures
            r matches Ok(t) && t == (TrackedRoot { id, path, is_enabled, updated_at }),
    {
        Ok(TrackedRoot { id, path, is_enabled, updated_at })
    }

    /// Whether the root is scanned.
    pub fn is_enabled(&self) -> (b: bool)
        ensures
            b == self.is_enabled,
    {
        self.is_enabled
    }
}

} // verus!
