//! Rules and queries of indexing jobs.
use vstd::prelude::*;

use super::query::{limit_text, push_limit};

verus! {

/// A job in one of these states is over: it gets its completion time.
pub open spec fn is_final_status(status: Seq<char>) -> bool {
    status == "completed"@ || status == "failed"@
}

/// Whether a status change to `status` completes the job.
pub fn completes_job(status: &str) -> (b: bool)
    ensures
        b == is_final_status(status@),
{
    let s = status.to_owned();
    s == "completed".to_owned() || s == "failed".to_owned()
}

/// The jobs of the repository bound as the first parameter, newest first.
pub open spec fn jobs_by_repo_select() -> Seq<char> {
    "\n        SELECT id, repo_id, job_type, status, progress, total_items, processed_items, \n            error_message, started_at, completed_at, created_at, updated_at \n        FROM indexing_jobs \n        WHERE repo_id = ?1 \n        ORDER BY created_at DESC\n    "@
}

/// The query for the indexing jobs of a repository, capped at `limit` rows.
pub fn indexing_jobs_by_repo_query(limit: Option<i32>) -> (sql: String)
    ensures
        sql@ == jobs_by_repo_select() + limit_text(limit),
{
    let mut sql = "\n        SELECT id, repo_id, job_type, status, progress, total_items, processed_items, \n            error_message, started_at, completed_at, created_at, updated_at \n        FROM indexing_jobs \n        WHERE repo_id = ?1 \n        ORDER BY created_at DESC\n    ".to_owned();
    push_limit(&mut sql, limit);
    sql
}

} // verus!
