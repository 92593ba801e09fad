//! Daily repository activity as the user interface receives it.
use vstd::prelude::*;

use crate::domain::RepositoryActivityDaily;

verus! {

/// The activity of a repository on one day.
#[derive(Debug, Clone)]
pub struct RepositoryActivityDailyResponse {
    pub id: i64,
    pub repo_id: i64,
    pub activity_date: String,
    pub commit_count: i32,
    pub additions: i32,
    pub deletions: i32,
    pub files_changed: i32,
}

impl RepositoryActivityDailyResponse {
    /// Carries every figure of a day's activity over unchanged.
    pub fn from_activity(a: RepositoryActivityDaily) -> (r: Self)
        ensures
            r == (RepositoryActivityDailyResponse {
                id: a.id,
                repo_id: a.repo_id,
                activity_date: a.activity_date,
                commit_count: a.commit_count,
                additions: a.additions,
                deletions: a.deletions,
                files_changed: a.files_changed,
            }),
    {
        RepositoryActivityDailyResponse {
            id: a.id,
            repo_id: a.repo_id,
            activity_date: a.activity_date,
            commit_count: a.commit_count,
            additions: a.additions,
            deletions: a.deletions,
            files_changed: a.files_changed,
        }
    }
}

} // verus!
