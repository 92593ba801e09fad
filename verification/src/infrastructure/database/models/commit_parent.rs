//! A parent link of a stored commit; `parent_index` orders the parents.
use vstd::prelude::*;

verus! {

/// A parent link of a stored commit; `parent_index` orders the parents.
#[derive(Debug, Clone)]
pub struct CommitParent {
    pub id: i64,
    pub repo_id: i64,
    pub commit_hash: String,
    pub parent_hash: String,
    pub parent_index: i32,
}

} // verus!
