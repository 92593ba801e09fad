//! Stored tracked roots and ignored roots.
use vstd::prelude::*;

verus! {

/// A directory whose repositories are tracked.
#[derive(Debug, Clone)]
pub struct TrackedRoot {
    pub id: i64,
    pub path: String,
    pub is_enabled: bool,
    pub created_at: String,
    pub updated_at: String,
}

/// A directory excluded from tracking.
#[derive(Debug, Clone)]
pub struct TrackIgnoreRoot {
    pub id: i64,
    pub path: String,
    pub created_at: String,
    pub updated_at: String,
}

} // verus!
