//! Repository status rules: the classification of a repository from its
//! health verdict, activity level, commit count and contributor count.
use vstd::prelude::*;

use super::value_objects::{activity_text, level_is_active, ActivityLevel, CommitCount};
use super::{DomainError, DomainResult};
use crate::discovery::paths::{file_name, path_file_name};
use crate::text::{chars_of, decimal, opt_view, push_decimal};

verus! {

/// Combined health and activity state of a repository.
#[derive(Debug, Clone, Copy, PartialEq, Eq, Structural)]
pub enum RepositoryStatus {
    HealthyAndActive,
    HealthyButInactive,
    UnhealthyButActive,
    UnhealthyAndInactive,
}

/// The status for a health verdict and an activity level.
pub open spec fn status_for(is_healthy: bool, level: ActivityLevel) -> RepositoryStatus {
    if is_healthy {
        if level_is_active(level) {
            RepositoryStatus::HealthyAndActive
        } else {
            RepositoryStatus::HealthyButInactive
        }
    } else if level_is_active(level) {
        RepositoryStatus::UnhealthyButActive
    } else {
        RepositoryStatus::UnhealthyAndInactive
    }
}

/// The display text of a status.
pub open spec fn status_text(s: RepositoryStatus) -> Seq<char> {
    match s {
        RepositoryStatus::HealthyAndActive => "Healthy & Active"@,
        RepositoryStatus::HealthyButInactive => "Healthy but Inactive"@,
        RepositoryStatus::UnhealthyButActive => "Unhealthy but Active"@,
        RepositoryStatus::UnhealthyAndInactive => "Unhealthy & Inactive"@,
    }
}

/// The variant name of a status, as `{:?}` prints it.
pub open spec fn status_name(s: RepositoryStatus) -> Seq<char> {
    match s {
        RepositoryStatus::HealthyAndActive => "HealthyAndActive"@,
        RepositoryStatus::HealthyButInactive => "HealthyButInactive"@,
        RepositoryStatus::UnhealthyButActive => "UnhealthyButActive"@,
        RepositoryStatus::UnhealthyAndInactive => "UnhealthyAndInactive"@,
    }
}

impl RepositoryStatus {
    /// Classifies a repository by whether it is healthy and how active it is.
    pub fn from_health_and_activity(is_healthy: bool, level: ActivityLevel) -> (s:
        RepositoryStatus)
        ensures
            s == status_for(is_healthy, level),
    {
        match (is_healthy, level.is_active()) {
            (true, true) => RepositoryStatus::HealthyAndActive,
            (true, false) => RepositoryStatus::HealthyButInactive,
            (false, true) => RepositoryStatus::UnhealthyButActive,
            (false, false) => RepositoryStatus::UnhealthyAndInactive,
        }
    }

    /// The display text of the status.
    pub fn to_string(&self) -> (s: String)
        ensures
            s@ == status_text(*self),
    {
        match self {
            RepositoryStatus::HealthyAndActive => "Healthy & Active".to_owned(),
            RepositoryStatus::HealthyButInactive => "Healthy but Inactive".to_owned(),
            RepositoryStatus::UnhealthyButActive => "Unhealthy but Active".to_owned(),
            RepositoryStatus::UnhealthyAndInactive => "Unhealthy & Inactive".to_owned(),
        }
    }

    /// The variant name, as `{:?}` prints it.
    pub fn name(&self) -> (s: &'static str)
        ensures
            s@ == status_name(*self),
    {
        match self {
            RepositoryStatus::HealthyAndActive => "HealthyAndActive",
            RepositoryStatus::HealthyButInactive => "HealthyButInactive",
            RepositoryStatus::UnhealthyButActive => "UnhealthyButActive",
            RepositoryStatus::UnhealthyAndInactive => "UnhealthyAndInactive",
        }
    }
}

/// Urgency of maintenance, from none up to critical.
#[derive(Debug, Clone, Copy, PartialEq, Eq, PartialOrd, Ord, Structural)]
pub enum MaintenancePriority {
    NotNeeded,
    Low,
    Medium,
    High,
    Critical,
}

/// The display text of a maintenance priority.
pub open spec fn priority_text(p: MaintenancePriority) -> Seq<char> {
    match p {
        MaintenancePriority::NotNeeded => "No maintenance needed"@,
        MaintenancePriority::Low => "Low priority"@,
        MaintenancePriority::Medium => "Medium priority"@,
        MaintenancePriority::High => "High priority"@,
        MaintenancePriority::Critical => "Critical"@,
    }
}

/// The rank of a priority, from 0 (none) to 4 (critical).
pub open spec fn priority_rank(p: MaintenancePriority) -> int {
    match p {
        MaintenancePriority::NotNeeded => 0,
        MaintenancePriority::Low => 1,
        MaintenancePriority::Medium => 2,
        MaintenancePriority::High => 3,
        MaintenancePriority::Critical => 4,
    }
}

impl MaintenancePriority {
    /// The display text of the priority.
    pub fn to_string(&self) -> (s: String)
        ensures
            s@ == priority_text(*self),
    {
        match self {
            MaintenancePriority::NotNeeded => "No maintenance needed".to_owned(),
            MaintenancePriority::Low => "Low priority".to_owned(),
            MaintenancePriority::Medium => "Medium priority".to_owned(),
            MaintenancePriority::High => "High priority".to_owned(),
            MaintenancePriority::Critical => "Critical".to_owned(),
        }
    }

    /// The rank of the priority: 0 for none up to 4 for critical.
    pub fn rank(&self) -> (r: u8)
        ensures
            r == priority_rank(*self),
    {
        match self {
            MaintenancePriority::NotNeeded => 0,
            MaintenancePriority::Low => 1,
            MaintenancePriority::Medium => 2,
            MaintenancePriority::High => 3,
            MaintenancePriority::Critical => 4,
        }
    }
}

/// A repository needs maintenance when it is unhealthy or not active.
pub open spec fn maintenance_needed(is_healthy: bool, level: ActivityLevel) -> bool {
    !is_healthy || !level_is_active(level)
}

/// A repository is dormant when it has no commits and is not active.
pub open spec fn dormant(total_commits: CommitCount, level: ActivityLevel) -> bool {
    total_commits.0 == 0 && !level_is_active(level)
}

/// A repository needs maintenance exactly when its status is anything but
/// healthy and active.
pub proof fn law_maintenance_unless_thriving(is_healthy: bool, level: ActivityLevel)
    ensures
        maintenance_needed(is_healthy, level) <==> status_for(is_healthy, level)
            != RepositoryStatus::HealthyAndActive,
{
}

/// A dormant repository always needs maintenance, healthy or not.
pub proof fn law_dormant_needs_maintenance(
    is_healthy: bool,
    total_commits: CommitCount,
    level: ActivityLevel,
)
    requires
        dormant(total_commits, level),
    ensures
        maintenance_needed(is_healthy, level),
{
}

/// Whether a repository needs maintenance.
pub fn needs_maintenance(is_healthy: bool, level: ActivityLevel) -> (b: bool)
    ensures
        b == maintenance_needed(is_healthy, level),
{
    !is_healthy || !level.is_active()
}

/// Whether a repository is dormant.
pub fn is_dormant(total_commits: CommitCount, level: ActivityLevel) -> (b: bool)
    ensures
        b == dormant(total_commits, level),
{
    total_commits.is_empty() && !level.is_active()
}

/// How the number of contributors reads in an activity description.
pub open spec fn contributors_text(n: u32) -> Seq<char> {
    if n == 0 {
        "no contributors"@
    } else if n == 1 {
        "1 contributor"@
    } else {
        decimal(n as nat) + " contributors"@
    }
}

/// The activity description of a repository: its activity level and its
/// number of contributors.
pub open spec fn activity_description_text(level: ActivityLevel, contributors: u32) -> Seq<
    char,
> {
    activity_text(level) + " with "@ + contributors_text(contributors)
}

/// Describes a repository's activity, as in "Moderate - Regular updates
/// with 3 contributors".
pub fn activity_description(level: ActivityLevel, unique_contributors: u32) -> (s: String)
    ensures
        s@ == activity_description_text(level, unique_contributors),
{
    let mut s = level.description().to_owned();
    s.append(" with ");
    if unique_contributors == 0 {
        s.append("no contributors");
    } else if unique_contributors == 1 {
        s.append("1 contributor");
    } else {
        push_decimal(&mut s, unique_contributors as u64);
        s.append(" contributors");
    }
    s
}

/// A repository's paths are valid when its path is not empty and its Git
/// directory, where one is given, has `.git` as the last component, here
/// given as `git_dir_name`.
pub open spec fn paths_error_named(path: Seq<char>, git_dir: Seq<char>, git_dir_name: Option<Seq<char>>) -> Option<Seq<char>> {
    if path.len() == 0 {
        Some("Repository path cannot be empty"@)
    } else if git_dir.len() > 0 && git_dir_name != Some(".git"@) {
        Some("Git directory must end with .git"@)
    } else {
        None
    }
}

/// A repository's paths are valid when its path is not empty and its Git
/// directory, where one is given, ends in a `.git` component.
pub open spec fn paths_error(path: Seq<char>, git_dir: Seq<char>) -> Option<Seq<char>> {
    paths_error_named(path, git_dir, path_file_name(git_dir))
}

/// Checks a repository's path and its Git directory, whose last component
/// is `git_dir_name`.
pub fn validate_paths_named(path: &str, git_dir: &str, git_dir_name: Option<String>) -> (r:
    DomainResult<()>)
    ensures
        match paths_error_named(path@, git_dir@, opt_view(git_dir_name)) {
            Some(m) => r matches Err(DomainError::InvalidRepository(e)) && e@ == m,
            None => r is Ok,
        },
{
    if chars_of(path).len() == 0 {
        return Err(DomainError::InvalidRepository("Repository path cannot be empty".to_owned()));
    }
    if chars_of(git_dir).len() > 0 {
        let ends_in_git = match &git_dir_name {
            Some(n) => *n == ".git".to_owned(),
            None => false,
        };
        if !ends_in_git {
            return Err(
                DomainError::InvalidRepository("Git directory must end with .git".to_owned()),
            );
        }
    }
    Ok(())
}

/// Checks a repository's path and Git directory.
pub fn validate_paths(path: &str, git_dir: &str) -> (r: DomainResult<()>)
    ensures
        match paths_error(path@, git_dir@) {
            Some(m) => r matches Err(DomainError::InvalidRepository(e)) && e@ == m,
            None => r is Ok,
        },
{
    validate_paths_named(path, git_dir, file_name(git_dir))
}

} // verus!
