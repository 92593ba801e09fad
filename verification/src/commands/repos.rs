//! Tracked roots as the user interface receives them, and the figures that a
//! listed repository shows.
use vstd::prelude::*;

use crate::domain::value_objects::{activity_for, activity_name, ActivityLevel};
use crate::domain::TrackedRoot;

verus! {

/// A tracked root directory.
#[derive(Debug, Clone)]
pub struct TrackedRootResponse {
    pub id: i64,
    pub path: String,
    pub is_enabled: bool,
    pub updated_at: String,
}

impl TrackedRootResponse {
    /// Carries a tracked root over unchanged.
    pub fn from_root(root: TrackedRoot) -> (r: Self)
        ensures
            r == (TrackedRootResponse {
                id: root.id.0,
                path: root.path,
                is_enabled: root.is_enabled,
                updated_at: root.updated_at,
            }),
    {
        TrackedRootResponse {
            id: root.id.0,
            path: root.path,
            is_enabled: root.is_enabled,
            updated_at: root.updated_at,
        }
    }
}

/// The figures a listed repository shows, derived from its stored summary.
#[derive(Debug, Clone)]
pub struct ListedRepositoryFigures {
    pub root_id: Option<i64>,
    pub activity_level: String,
    pub total_commits: u32,
    pub unique_contributors: u32,
}

/// A stored count, zero where there is none.
pub open spec fn count_or_zero(n: Option<i64>) -> i64 {
    match n {
        Some(v) => v,
        None => 0,
    }
}

/// The figures of a listed repository: its first root, the name of the
/// activity level of its weekly commit count, and its commit and contributor
/// counts; absent counts read as zero, and counts are taken as `u32`, by
/// their low 32 bits as `as` does.
pub fn listed_repository_figures(
    root_ids: &Vec<i64>,
    weekly_commits: Option<i64>,
    total_commits: Option<i64>,
    unique_contributors: Option<i64>,
) -> (f: ListedRepositoryFigures)
    ensures
        f.root_id == (if root_ids@.len() > 0 {
            Some(root_ids@[0])
        } else {
            None::<i64>
        }),
        f.activity_level@ == activity_name(activity_for(count_or_zero(weekly_commits) as u32)),
        f.total_commits == count_or_zero(total_commits) as u32,
        f.unique_contributors == count_or_zero(unique_contributors) as u32,
{
    let root_id = if root_ids.len() > 0 {
        Some(root_ids[0])
    } else {
        None
    };
    let weekly: i64 = match weekly_commits {
        Some(v) => v,
        None => 0,
    };
    let total: i64 = match total_commits {
        Some(v) => v,
        None => 0,
    };
    let contributors: i64 = match unique_contributors {
        Some(v) => v,
        None => 0,
    };
    let level = ActivityLevel::from_weekly_commits(weekly as u32);
    ListedRepositoryFigures {
        root_id,
        activity_level: level.name().to_owned(),
        total_commits: total as u32,
        unique_contributors: contributors as u32,
    }
}

} // verus!
