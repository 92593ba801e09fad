//! Queries over the contributors of a repository.
use vstd::prelude::*;

use super::query::{limit_text, push_limit};

verus! {

/// The contributors of the repository bound as the first parameter, by
/// number of commits, most first.
pub open spec fn top_contributors_select() -> Seq<char> {
    "SELECT id, repo_id, author_name, author_email, commit_count, additions, deletions, active_days, last_commit_at, updated_at FROM contributors WHERE repo_id = ?1 ORDER BY commit_count DESC"@
}

/// The query for the top contributors of a repository, capped at `limit`
/// rows.
pub fn top_contributors_query(limit: Option<i32>) -> (sql: String)
    ensures
        sql@ == top_contributors_select() + limit_text(limit),
{
    let mut sql = "SELECT id, repo_id, author_name, author_email, commit_count, additions, deletions, active_days, last_commit_at, updated_at FROM contributors WHERE repo_id = ?1 ORDER BY commit_count DESC".to_owned();
    push_limit(&mut sql, limit);
    sql
}

} // verus!
