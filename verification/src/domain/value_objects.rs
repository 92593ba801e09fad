//! Value objects: activity levels, identifiers and commit counts.
use vstd::prelude::*;

verus! {

/// Health band of a repository, from excellent down to critical.
#[derive(Debug, Clone, Copy, PartialEq, Eq, Structural)]
pub enum HealthStatus {
    Excellent,
    Good,
    Fair,
    Poor,
    Critical,
}

/// The description shown for a health band.
pub open spec fn health_text(s: HealthStatus) -> Seq<char> {
    match s {
        HealthStatus::Excellent => "Repository is in excellent condition"@,
        HealthStatus::Good => "Repository is in good condition"@,
        HealthStatus::Fair => "Repository has some issues"@,
        HealthStatus::Poor => "Repository needs attention"@,
        HealthStatus::Critical => "Repository requires immediate attention"@,
    }
}

impl HealthStatus {
    /// The description shown for the band.
    pub fn description(&self) -> (s: &'static str)
        ensures
            s@ == health_text(*self),
    {
        match self {
            HealthStatus::Excellent => "Repository is in excellent condition",
            HealthStatus::Good => "Repository is in good condition",
            HealthStatus::Fair => "Repository has some issues",
            HealthStatus::Poor => "Repository needs attention",
            HealthStatus::Critical => "Repository requires immediate attention",
        }
    }

    /// The display name of the band.
    pub fn to_string(&self) -> (s: String)
        ensures
            s@ == (match *self {
                HealthStatus::Excellent => "Excellent"@,
                HealthStatus::Good => "Good"@,
                HealthStatus::Fair => "Fair"@,
                HealthStatus::Poor => "Poor"@,
                HealthStatus::Critical => "Critical"@,
            }),
    {
        match self {
            HealthStatus::Excellent => "Excellent".to_owned(),
            HealthStatus::Good => "Good".to_owned(),
            HealthStatus::Fair => "Fair".to_owned(),
            HealthStatus::Poor => "Poor".to_owned(),
            HealthStatus::Critical => "Critical".to_owned(),
        }
    }
}

/// How often a repository receives commits.
#[derive(Debug, Clone, Copy, PartialEq, Eq, PartialOrd, Ord, Structural)]
pub enum ActivityLevel {
    VeryLow,
    Low,
    Moderate,
    High,
    VeryHigh,
}

/// The activity level for a number of commits made in the last seven days.
pub open spec fn activity_for(commit_count: u32) -> ActivityLevel {
    if commit_count == 0 {
        ActivityLevel::VeryLow
    } else if commit_count <= 3 {
        ActivityLevel::Low
    } else if commit_count <= 10 {
        ActivityLevel::Moderate
    } else if commit_count <= 20 {
        ActivityLevel::High
    } else {
        ActivityLevel::VeryHigh
    }
}

/// Moderate, high and very high activity count as actively maintained.
pub open spec fn level_is_active(level: ActivityLevel) -> bool {
    level == ActivityLevel::Moderate || level == ActivityLevel::High || level
        == ActivityLevel::VeryHigh
}

/// The human-readable description of an activity level.
pub open spec fn activity_text(level: ActivityLevel) -> Seq<char> {
    match level {
        ActivityLevel::VeryLow => "Very Low - Rarely updated"@,
        ActivityLevel::Low => "Low - Occasional updates"@,
        ActivityLevel::Moderate => "Moderate - Regular updates"@,
        ActivityLevel::High => "High - Frequent updates"@,
        ActivityLevel::VeryHigh => "Very High - Very active development"@,
    }
}

/// The name of an activity level as its derived `Debug` prints it.
pub open spec fn activity_name(level: ActivityLevel) -> Seq<char> {
    match level {
        ActivityLevel::VeryLow => "VeryLow"@,
        ActivityLevel::Low => "Low"@,
        ActivityLevel::Moderate => "Moderate"@,
        ActivityLevel::High => "High"@,
        ActivityLevel::VeryHigh => "VeryHigh"@,
    }
}

/// The position of a level, from 0 for very low to 4 for very high.
pub open spec fn activity_rank(level: ActivityLevel) -> int {
    match level {
        ActivityLevel::VeryLow => 0,
        ActivityLevel::Low => 1,
        ActivityLevel::Moderate => 2,
        ActivityLevel::High => 3,
        ActivityLevel::VeryHigh => 4,
    }
}

/// More commits never give a lower activity level.
pub proof fn law_activity_monotone(fewer: u32, more: u32)
    requires
        fewer <= more,
    ensures
        activity_rank(activity_for(fewer)) <= activity_rank(activity_for(more)),
{
}

/// A repository counts as active exactly from four commits a week on.
pub proof fn law_active_from_four_commits(commit_count: u32)
    ensures
        level_is_active(activity_for(commit_count)) <==> commit_count >= 4,
{
}

impl ActivityLevel {
    /// Classifies the number of commits of the last seven days.
    pub fn from_weekly_commits(commit_count: u32) -> (level: ActivityLevel)
        ensures
            level == activity_for(commit_count),
    {
        if commit_count == 0 {
            ActivityLevel::VeryLow
        } else if commit_count <= 3 {
            ActivityLevel::Low
        } else if commit_count <= 10 {
            ActivityLevel::Moderate
        } else if commit_count <= 20 {
            ActivityLevel::High
        } else {
            ActivityLevel::VeryHigh
        }
    }

    /// Human-readable description of the level.
    pub fn description(&self) -> (s: &'static str)
        ensures
            s@ == activity_text(*self),
    {
        match self {
            ActivityLevel::VeryLow => "Very Low - Rarely updated",
            ActivityLevel::Low => "Low - Occasional updates",
            ActivityLevel::Moderate => "Moderate - Regular updates",
            ActivityLevel::High => "High - Frequent updates",
            ActivityLevel::VeryHigh => "Very High - Very active development",
        }
    }

    /// Whether the level means the repository is actively maintained.
    pub fn is_active(&self) -> (b: bool)
        ensures
            b == level_is_active(*self),
    {
        match self {
            ActivityLevel::Moderate | ActivityLevel::High | ActivityLevel::VeryHigh => true,
            _ => false,
        }
    }

    /// The variant name, as `{:?}` prints it.
    pub fn name(&self) -> (s: &'static str)
        ensures
            s@ == activity_name(*self),
    {
        match self {
            ActivityLevel::VeryLow => "VeryLow",
            ActivityLevel::Low => "Low",
            ActivityLevel::Moderate => "Moderate",
            ActivityLevel::High => "High",
            ActivityLevel::VeryHigh => "VeryHigh",
        }
    }
}

/// Identifier of a stored repository; always positive.
#[derive(Debug, Clone, Copy, PartialEq, Eq, Hash, Structural)]
pub struct RepositoryId(pub i64);

impl RepositoryId {
    /// Accepts positive identifiers only.
    pub fn new(id: i64) -> (r: Result<RepositoryId, String>)
        ensures
            id > 0 ==> r == Ok::<RepositoryId, String>(RepositoryId(id)),
            id <= 0 ==> (r matches Err(msg) && msg@ == "Repository ID must be positive"@),
    {
        if id <= 0 {
            return Err("Repository ID must be positive".to_owned());
        }
        Ok(RepositoryId(id))
    }

    /// The numeric identifier.
    pub fn value(&self) -> (v: i64)
        ensures
            v == self.0,
    {
        self.0
    }
}

/// A number of commits within some period.
#[derive(Debug, Clone, Copy, PartialEq, Eq, Structural)]
pub struct CommitCount(pub u32);

impl CommitCount {
    /// Wraps a count.
    pub fn new(count: u32) -> (c: CommitCount)
        ensures
            c.0 == count,
    {
        CommitCount(count)
    }

    /// The wrapped count.
    pub fn value(&self) -> (v: u32)
        ensures
            v == self.0,
    {
        self.0
    }

    /// Whether no commit was counted.
    pub fn is_empty(&self) -> (b: bool)
        ensures
            b == (self.0 == 0),
    {
        self.0 == 0
    }
}

impl From<u32> for CommitCount {
    fn from(value: u32) -> (c: CommitCount) {
        CommitCount(value)
    }
}

impl vstd::std_specs::convert::FromSpecImpl<u32> for CommitCount {
    open spec fn obeys_from_spec() -> bool {
        true
    }

    open spec fn from_spec(v: u32) -> CommitCount {
        CommitCount(v)
    }
}

} // verus!
