//! Contributor entity: activity, per-commit change volume, role and summary.
use vstd::prelude::*;

use super::{DomainError, DomainResult};
use crate::text::{decimal, push_decimal};

verus! {

/// Identifier of a stored contributor.
#[derive(Debug, Clone, Copy, PartialEq, Eq, Hash, Structural)]
pub struct ContributorId(pub i64);

/// Tier of a contributor, from minimal to core maintainer.
#[derive(Debug, Clone, Copy, PartialEq, Eq, PartialOrd, Ord, Structural)]
pub enum ContributorLevel {
    Minimal,
    Occasional,
    RegularContributor,
    MajorContributor,
    CoreMaintainer,
}

/// Role of a contributor, combining tier and recent activity.
#[derive(Debug, Clone, Copy, PartialEq, Eq, Structural)]
pub enum ContributorRole {
    ActiveMaintainer,
    InactiveMaintainer,
    ActiveContributor,
    InactiveContributor,
    Contributor,
}

/// A contributor of a repository with their metrics.
#[derive(Debug, Clone)]
pub struct Contributor {
    pub id: ContributorId,
    pub repo_id: i64,
    pub name: String,
    pub email: String,
    pub commit_count: u32,
    pub additions: u32,
    pub deletions: u32,
    pub active_days: u32,
    pub last_commit_at: Option<String>,
}

/// The display name of a tier.
pub open spec fn level_text(l: ContributorLevel) -> Seq<char> {
    match l {
        ContributorLevel::Minimal => "Minimal"@,
        ContributorLevel::Occasional => "Occasional"@,
        ContributorLevel::RegularContributor => "Regular"@,
        ContributorLevel::MajorContributor => "Major"@,
        ContributorLevel::CoreMaintainer => "Core Maintainer"@,
    }
}

/// The display name of a role.
pub open spec fn role_text(r: ContributorRole) -> Seq<char> {
    match r {
        ContributorRole::ActiveMaintainer => "Active Maintainer"@,
        ContributorRole::InactiveMaintainer => "Inactive Maintainer"@,
        ContributorRole::ActiveContributor => "Active Contributor"@,
        ContributorRole::InactiveContributor => "Inactive Contributor"@,
        ContributorRole::Contributor => "Contributor"@,
    }
}

/// A contributor is active when a non-empty last-commit time is recorded.
pub open spec fn contributor_active(c: Contributor) -> bool {
    c.last_commit_at matches Some(t) && t@.len() > 0
}

/// The role of a contributor of the given tier and activity: core maintainers
/// and major contributors are told apart by activity, everyone else is a
/// plain contributor.
pub open spec fn role_for(level: ContributorLevel, active: bool) -> ContributorRole {
    match level {
        ContributorLevel::CoreMaintainer => if active {
            ContributorRole::ActiveMaintainer
        } else {
            ContributorRole::InactiveMaintainer
        },
        ContributorLevel::MajorContributor => if active {
            ContributorRole::ActiveContributor
        } else {
            ContributorRole::InactiveContributor
        },
        _ => ContributorRole::Contributor,
    }
}

/// Only core maintainers get a maintainer role and only major contributors a
/// contributor role; of those, the active ones get the active role.
pub proof fn law_roles_follow_tier(level: ContributorLevel, active: bool)
    ensures
        (role_for(level, active) == ContributorRole::ActiveMaintainer || role_for(level, active)
            == ContributorRole::InactiveMaintainer) <==> level == ContributorLevel::CoreMaintainer,
        (role_for(level, active) == ContributorRole::ActiveContributor || role_for(level, active)
            == ContributorRole::InactiveContributor) <==> level
            == ContributorLevel::MajorContributor,
        (role_for(level, active) == ContributorRole::ActiveMaintainer || role_for(level, active)
            == ContributorRole::ActiveContributor) ==> active,
{
}

/// The average number of changed lines per commit, rounded down; zero
/// without commits.
pub open spec fn average_changes(c: Contributor) -> int {
    if c.commit_count == 0 {
        0
    } else {
        (c.additions + c.deletions) / (c.commit_count as int)
    }
}

/// The average, times the number of commits, falls short of the changed
/// lines by less than one commit's worth.
pub proof fn law_average_changes_bounds(c: Contributor)
    requires
        c.commit_count > 0,
    ensures
        average_changes(c) * c.commit_count <= c.additions + c.deletions < (average_changes(c) + 1)
            * c.commit_count,
{
    let total = c.additions + c.deletions;
    let n = c.commit_count as int;
    vstd::arithmetic::div_mod::lemma_fundamental_div_mod(total, n);
    assert(0 <= total % n < n);
    assert(average_changes(c) * n + total % n == total) by (nonlinear_arith)
        requires
            total == n * (total / n) + total % n,
            average_changes(c) == total / n,
    ;
    assert((average_changes(c) + 1) * n == average_changes(c) * n + n) by (nonlinear_arith);
}

/// The one-line summary of a contributor's metrics.
pub open spec fn summary_text(c: Contributor) -> Seq<char> {
    decimal(c.commit_count as nat) + " commits, "@ + decimal(c.additions as nat) + " added, "@
        + decimal(c.deletions as nat) + " removed, "@ + decimal(c.active_days as nat)
        + " active days"@
}

impl ContributorLevel {
    /// The display name of the tier.
    pub fn to_string(&self) -> (s: String)
        ensures
            s@ == level_text(*self),
    {
        match self {
            ContributorLevel::Minimal => "Minimal".to_owned(),
            ContributorLevel::Occasional => "Occasional".to_owned(),
            ContributorLevel::RegularContributor => "Regular".to_owned(),
            ContributorLevel::MajorContributor => "Major".to_owned(),
            ContributorLevel::CoreMaintainer => "Core Maintainer".to_owned(),
        }
    }
}

impl ContributorRole {
    /// The display name of the role.
    pub fn to_string(&self) -> (s: String)
        ensures
            s@ == role_text(*self),
    {
        match self {
            ContributorRole::ActiveMaintainer => "Active Maintainer".to_owned(),
            ContributorRole::InactiveMaintainer => "Inactive Maintainer".to_owned(),
            ContributorRole::ActiveContributor => "Active Contributor".to_owned(),
            ContributorRole::InactiveContributor => "Inactive Contributor".to_owned(),
            ContributorRole::Contributor => "Contributor".to_owned(),
        }
    }
}

impl Contributor {
    /// Creates a contributor with all metrics at zero; the name must not be empty.
    pub fn new(id: i64, repo_id: i64, name: String, email: String) -> (r: DomainResult<
        Contributor,
    >)
        ensures
            name@.len() == 0 ==> (r matches Err(DomainError::InvalidCommit(m)) && m@
                == "Contributor name cannot be empty"@),
            name@.len() > 0 ==> (r matches Ok(c) && c == (Contributor {
                id: ContributorId(id),
                repo_id,
                name,
                email,
                commit_count: 0,
                additions: 0,
                deletions: 0,
                active_days: 0,
                last_commit_at: None,
            })),
    {
        if name.as_str().is_empty() {
            return Err(DomainError::InvalidCommit("Contributor name cannot be empty".to_owned()));
        }
        Ok(Contributor {
            id: ContributorId(id),
            repo_id,
            name,
            email,
            commit_count: 0,
            additions: 0,
            deletions: 0,
            active_days: 0,
            last_commit_at: None,
        })
    }

    /// Average number of changed lines per commit, rounded down; zero without commits.
    pub fn changes_per_commit(&self) -> (n: u32)
        requires
            self.additions + self.deletions <= u32::MAX,
        ensures
            n == average_changes(*self),
    {
        if self.commit_count == 0 {
            return 0;
        }
        (self.additions + self.deletions) / self.commit_count
    }

    /// Whether a last-commit time is recorded (and not empty).
    pub fn is_active(&self) -> (b: bool)
        ensures
            b == contributor_active(*self),
    {
        match &self.last_commit_at {
            Some(t) => !t.as_str().is_empty(),
            None => false,
        }
    }

    /// The role of the contributor, given the tier that their impact puts them in.
    pub fn get_role(&self, level: ContributorLevel) -> (r: ContributorRole)
        ensures
            r == role_for(level, contributor_active(*self)),
    {
        match (level, self.is_active()) {
            (ContributorLevel::CoreMaintainer, true) => ContributorRole::ActiveMaintainer,
            (ContributorLevel::CoreMaintainer, false) => ContributorRole::InactiveMaintainer,
            (ContributorLevel::MajorContributor, true) => ContributorRole::ActiveContributor,
            (ContributorLevel::MajorContributor, false) => ContributorRole::InactiveContributor,
            _ => ContributorRole::Contributor,
        }
    }

    /// A summary of commits, added and removed lines and active days.
    pub fn contribution_summary(&self) -> (s: String)
        ensures
            s@ == summary_text(*self),
    {
        let mut s = String::new();
        push_decimal(&mut s, self.commit_count as u64);
        s.append(" commits, ");
        push_decimal(&mut s, self.additions as u64);
        s.append(" added, ");
        push_decimal(&mut s, self.deletions as u64);
        s.append(" removed, ");
        push_decimal(&mut s, self.active_days as u64);
        s.append(" active days");
        s
    }

    /// Replaces the change and activity metrics.
    pub fn update_metrics(&mut self, additions: u32, deletions: u32, active_days: u32)
        ensures
            *final(self) == (Contributor { additions, deletions, active_days, ..*old(self) }),
    {
        self.additions = additions;
        self.deletions = deletions;
        self.active_days = active_days;
    }

    /// Counts one more commit.
    pub fn increment_commit_count(&mut self)
        requires
            old(self).commit_count < u32::MAX,
        ensures
            *final(self) == (Contributor {
                commit_count: (old(self).commit_count + 1) as u32,
                ..*old(self)
            }),
    {
        self.commit_count = self.commit_count + 1;
    }

    /// Records the time of the contributor's last commit.
    pub fn set_last_commit(&mut self, timestamp: String)
        ensures
            *final(self) == (Contributor { last_commit_at: Some(timestamp), ..*old(self) }),
    {
        self.last_commit_at = Some(timestamp);
    }
}

} // verus!
