//! Commits and commit graph nodes as the user interface receives them.
use vstd::prelude::*;

use crate::domain::commit::{short_hash, Commit, CommitGraphNode};
use crate::text::{opt_view, string_views};

verus! {

/// A commit with its short hash and its kind.
#[derive(Debug, Clone)]
pub struct CommitResponse {
    pub id: i64,
    pub hash: String,
    pub short_hash: String,
    pub author_name: String,
    pub author_email: String,
    pub committer_name: String,
    pub committer_email: String,
    pub subject: String,
    pub body: Option<String>,
    pub parent_count: u32,
    pub committed_at: String,
    pub is_significant: bool,
    pub is_merge_commit: bool,
    pub is_root_commit: bool,
}

impl CommitResponse {
    /// Describes a commit: its fields, its short hash and whether it is a
    /// merge or a root commit.
    pub fn from_commit(c: Commit) -> (r: Self)
        ensures
            r.id == c.id.0,
            r.hash@ == c.hash.0@,
            r.short_hash@ == short_hash(c.hash.0@),
            r.author_name@ == c.author_name@,
            r.author_email@ == c.author_email@,
            r.committer_name@ == c.committer_name@,
            r.committer_email@ == c.committer_email@,
            r.subject@ == c.subject@,
            opt_view(r.body) == opt_view(c.body),
            r.parent_count == c.parent_count,
            r.committed_at@ == c.committed_at@,
            r.is_significant == c.is_significant,
            r.is_merge_commit == (c.parent_count >= 2),
            r.is_root_commit == (c.parent_count == 0),
    {
        let merge = c.is_merge_commit();
        let root = c.is_root_commit();
        let short = c.hash.short();
        let hash = c.hash.full().to_owned();
        CommitResponse {
            id: c.id.0,
            hash,
            short_hash: short,
            author_name: c.author_name,
            author_email: c.author_email,
            committer_name: c.committer_name,
            committer_email: c.committer_email,
            subject: c.subject,
            body: c.body,
            parent_count: c.parent_count,
            committed_at: c.committed_at,
            is_significant: c.is_significant,
            is_merge_commit: merge,
            is_root_commit: root,
        }
    }
}

/// A node of the commit graph, with the first of its branches singled out.
#[derive(Debug, Clone)]
pub struct CommitGraphNodeResponse {
    pub hash: String,
    pub branch_name: Option<String>,
    pub branch_names: Vec<String>,
    pub author_name: String,
    pub author_email: String,
    pub subject: String,
    pub committed_at: String,
    pub additions: i32,
    pub deletions: i32,
    pub total_changed_files_count: i32,
    pub parent_hashes: Vec<String>,
}

impl CommitGraphNodeResponse {
    /// Describes a graph node; its branch name is the first of its branches,
    /// if it has any.
    pub fn from_node(node: CommitGraphNode) -> (r: Self)
        ensures
            r.hash@ == node.hash@,
            opt_view(r.branch_name) == (if node.branches@.len() > 0 {
                Some(node.branches@[0]@)
            } else {
                None::<Seq<char>>
            }),
            string_views(r.branch_names@) == string_views(node.branches@),
            r.author_name@ == node.author_name@,
            r.author_email@ == node.author_email@,
            r.subject@ == node.subject@,
            r.committed_at@ == node.committed_at@,
            r.additions == node.total_additions,
            r.deletions == node.total_deletions,
            r.total_changed_files_count == node.total_files_changed,
            string_views(r.parent_hashes@) == string_views(node.parents@),
    {
        let branch_name = if node.branches.len() > 0 {
            Some(node.branches[0].clone())
        } else {
            None
        };
        CommitGraphNodeResponse {
            hash: node.hash,
            branch_name,
            branch_names: node.branches,
            author_name: node.author_name,
            author_email: node.author_email,
            subject: node.subject,
            committed_at: node.committed_at,
            additions: node.total_additions,
            deletions: node.total_deletions,
            total_changed_files_count: node.total_files_changed,
            parent_hashes: node.parents,
        }
    }
}

} // verus!
