//! Branches as the user interface receives them, with their derived verdicts.
use vstd::prelude::*;

use crate::domain::branch::{
    branch_stale, branch_type_name, importance_for, importance_name, merge_advised, status_for,
    status_text, Branch,
};
use crate::text::opt_view;

verus! {

/// A branch with its sync state, merge advice, staleness and importance.
#[derive(Debug, Clone)]
pub struct BranchResponse {
    pub id: i64,
    pub repo_id: i64,
    pub name: String,
    pub branch_type: String,
    pub is_head: bool,
    pub is_default: bool,
    pub last_commit_hash: Option<String>,
    pub ahead_count_from_remote: u32,
    pub behind_count_from_remote: u32,
    pub ahead_count_from_default: u32,
    pub behind_count_from_default: u32,
    pub status: String,
    pub should_merge: bool,
    pub is_stale: bool,
    pub importance: String,
}

impl BranchResponse {
    /// Describes a branch: its fields, and the verdicts that the branch rules
    /// give on it, each as text where the interface shows text.
    pub fn from_branch(b: Branch) -> (r: Self)
        ensures
            r.id == b.id.0,
            r.repo_id == b.repo_id,
            r.name@ == b.name@,
            r.branch_type@ == branch_type_name(b.branch_type),
            r.is_head == b.is_head,
            r.is_default == b.is_default,
            opt_view(r.last_commit_hash) == opt_view(b.last_commit_hash),
            r.ahead_count_from_remote == b.ahead_count_from_remote,
            r.behind_count_from_remote == b.behind_count_from_remote,
            r.ahead_count_from_default == b.ahead_count_from_default,
            r.behind_count_from_default == b.behind_count_from_default,
            r.status@ == status_text(
                status_for(b.ahead_count_from_default, b.behind_count_from_default),
            ),
            r.should_merge == merge_advised(b),
            r.is_stale == branch_stale(b),
            r.importance@ == importance_name(importance_for(b.branch_type, b.is_head)),
    {
        let status = b.status().to_string();
        let should_merge = b.should_merge();
        let is_stale = b.is_stale();
        let importance = b.importance().name().to_owned();
        let branch_type = b.branch_type.name().to_owned();
        BranchResponse {
            id: b.id.0,
            repo_id: b.repo_id,
            name: b.name,
            branch_type,
            is_head: b.is_head,
            is_default: b.is_default,
            last_commit_hash: b.last_commit_hash,
            ahead_count_from_remote: b.ahead_count_from_remote,
            behind_count_from_remote: b.behind_count_from_remote,
            ahead_count_from_default: b.ahead_count_from_default,
            behind_count_from_default: b.behind_count_from_default,
            status,
            should_merge,
            is_stale,
            importance,
        }
    }
}

} // verus!
