//! Branch entity: classification by name, sync state against the default
//! branch, merge recommendation and importance.
use vstd::prelude::*;

use super::{DomainError, DomainResult};
use crate::text::{chars_of, decimal, has_prefix, is_prefix, push_decimal, same_chars};

verus! {

/// Identifier of a stored branch.
#[derive(Debug, Clone, Copy, PartialEq, Eq, Hash, Structural)]
pub struct BranchId(pub i64);

/// Kind of branch, derived from its name.
#[derive(Debug, Clone, Copy, PartialEq, Eq, Structural)]
pub enum BranchType {
    Main,
    Develop,
    Release,
    Hotfix,
    Feature,
    Other,
}

/// Sync state of a branch against the default branch.
#[derive(Debug, Clone, Copy, PartialEq, Eq, Structural)]
pub enum BranchStatus {
    InSync,
    Ahead,
    Behind,
    Diverged,
}

/// How much attention a branch deserves, from low to critical.
#[derive(Debug, Clone, Copy, PartialEq, Eq, PartialOrd, Ord, Structural)]
pub enum BranchImportance {
    Low,
    Medium,
    High,
    Critical,
}

/// A branch of a repository with its sync counters.
#[derive(Debug, Clone)]
pub struct Branch {
    pub id: BranchId,
    pub repo_id: i64,
    pub name: String,
    pub branch_type: BranchType,
    pub is_head: bool,
    pub is_default: bool,
    pub last_commit_hash: Option<String>,
    pub ahead_count_from_remote: u32,
    pub behind_count_from_remote: u32,
    pub ahead_count_from_default: u32,
    pub behind_count_from_default: u32,
}

/// The branch type that a name denotes: `main`/`master`, `develop`/`development`,
/// then the prefixes `release/` `release-`, `hotfix/` `hotfix-` `fix/` `fix-`,
/// `feature/` `feature-`, tried in that order; anything else is `Other`.
pub open spec fn branch_type_of(name: Seq<char>) -> BranchType {
    if name == "main"@ || name == "master"@ {
        BranchType::Main
    } else if name == "develop"@ || name == "development"@ {
        BranchType::Develop
    } else if is_prefix("release/"@, name) || is_prefix("release-"@, name) {
        BranchType::Release
    } else if is_prefix("hotfix/"@, name) || is_prefix("hotfix-"@, name) || is_prefix("fix/"@, name)
        || is_prefix("fix-"@, name) {
        BranchType::Hotfix
    } else if is_prefix("feature/"@, name) || is_prefix("feature-"@, name) {
        BranchType::Feature
    } else {
        BranchType::Other
    }
}

/// The first two characters of a text that starts with `p` (of at least two
/// characters) are those of `p`.
proof fn lemma_prefix_start(p: Seq<char>, s: Seq<char>)
    requires
        p.len() >= 2,
    ensures
        is_prefix(p, s) ==> s.len() >= 2 && s[0] == p[0] && s[1] == p[1],
{
    if is_prefix(p, s) {
        assert(s.subrange(0, p.len() as int)[0] == s[0]);
        assert(s.subrange(0, p.len() as int)[1] == s[1]);
    }
}

/// Branches are classified by the exact names and name prefixes of the
/// branching conventions: `main` and `master` are main branches,
/// `develop` and `development` develop branches, names starting with
/// `release/` or `release-` release branches, names starting with
/// `hotfix/`, `hotfix-`, `fix/` or `fix-` hotfix branches, names starting
/// with `feature/` or `feature-` feature branches, and every other name is
/// of no known kind.
pub proof fn law_branch_type_by_name(name: Seq<char>)
    ensures
        (branch_type_of(name) == BranchType::Main) <==> (name == "main"@ || name == "master"@),
        (branch_type_of(name) == BranchType::Develop) <==> (name == "develop"@ || name
            == "development"@),
        (branch_type_of(name) == BranchType::Release) <==> (is_prefix("release/"@, name)
            || is_prefix("release-"@, name)),
        (branch_type_of(name) == BranchType::Hotfix) <==> (is_prefix("hotfix/"@, name)
            || is_prefix("hotfix-"@, name) || is_prefix("fix/"@, name) || is_prefix(
            "fix-"@,
            name,
        )),
        (branch_type_of(name) == BranchType::Feature) <==> (is_prefix("feature/"@, name)
            || is_prefix("feature-"@, name)),
        (branch_type_of(name) == BranchType::Other) <==> !(name == "main"@ || name == "master"@
            || name == "develop"@ || name == "development"@ || is_prefix("release/"@, name)
            || is_prefix("release-"@, name) || is_prefix("hotfix/"@, name) || is_prefix(
            "hotfix-"@,
            name,
        ) || is_prefix("fix/"@, name) || is_prefix("fix-"@, name) || is_prefix(
            "feature/"@,
            name,
        ) || is_prefix("feature-"@, name)),
{
    reveal_strlit("main");
    reveal_strlit("master");
    reveal_strlit("develop");
    reveal_strlit("development");
    reveal_strlit("release/");
    reveal_strlit("release-");
    reveal_strlit("hotfix/");
    reveal_strlit("hotfix-");
    reveal_strlit("fix/");
    reveal_strlit("fix-");
    reveal_strlit("feature/");
    reveal_strlit("feature-");
    lemma_prefix_start("release/"@, name);
    lemma_prefix_start("release-"@, name);
    lemma_prefix_start("hotfix/"@, name);
    lemma_prefix_start("hotfix-"@, name);
    lemma_prefix_start("fix/"@, name);
    lemma_prefix_start("fix-"@, name);
    lemma_prefix_start("feature/"@, name);
    lemma_prefix_start("feature-"@, name);
    if name == "main"@ || name == "master"@ || name == "develop"@ || name == "development"@ {
        assert(name[0] == 'm' || name[0] == 'd');
    }
}

/// Main, develop, release and hotfix branches are special.
pub open spec fn type_is_special(t: BranchType) -> bool {
    t == BranchType::Main || t == BranchType::Develop || t == BranchType::Release || t
        == BranchType::Hotfix
}

/// The naming template of a branch type.
pub open spec fn template_text(t: BranchType) -> Seq<char> {
    match t {
        BranchType::Main => "main/master"@,
        BranchType::Develop => "develop"@,
        BranchType::Release => "release/*"@,
        BranchType::Hotfix => "fix/*"@,
        BranchType::Feature => "feature/*"@,
        BranchType::Other => "other"@,
    }
}

/// The name of a branch type as `{:?}` prints it.
pub open spec fn branch_type_name(t: BranchType) -> Seq<char> {
    match t {
        BranchType::Main => "Main"@,
        BranchType::Develop => "Develop"@,
        BranchType::Release => "Release"@,
        BranchType::Hotfix => "Hotfix"@,
        BranchType::Feature => "Feature"@,
        BranchType::Other => "Other"@,
    }
}

/// The sync state for the given counts ahead of and behind the default branch.
pub open spec fn status_for(ahead: u32, behind: u32) -> BranchStatus {
    if ahead > 0 && behind > 0 {
        BranchStatus::Diverged
    } else if ahead > 0 {
        BranchStatus::Ahead
    } else if behind > 0 {
        BranchStatus::Behind
    } else {
        BranchStatus::InSync
    }
}

/// The display text of a sync state.
pub open spec fn status_text(s: BranchStatus) -> Seq<char> {
    match s {
        BranchStatus::InSync => "In Sync"@,
        BranchStatus::Ahead => "Ahead"@,
        BranchStatus::Behind => "Behind"@,
        BranchStatus::Diverged => "Diverged"@,
    }
}

/// The name of an importance level as `{:?}` prints it.
pub open spec fn importance_name(i: BranchImportance) -> Seq<char> {
    match i {
        BranchImportance::Low => "Low"@,
        BranchImportance::Medium => "Medium"@,
        BranchImportance::High => "High"@,
        BranchImportance::Critical => "Critical"@,
    }
}

/// `""` for one, `"s"` for any other count.
pub open spec fn plural(n: u32) -> Seq<char> {
    if n == 1 {
        Seq::empty()
    } else {
        seq!['s']
    }
}

/// The sync message shown for a branch that is `ahead` commits ahead of and
/// `behind` commits behind the default branch.
pub open spec fn sync_text(ahead: u32, behind: u32) -> Seq<char> {
    match status_for(ahead, behind) {
        BranchStatus::InSync => "In sync with default"@,
        BranchStatus::Ahead => "Ahead by "@ + decimal(ahead as nat) + " commit"@ + plural(ahead)
            + " from default"@,
        BranchStatus::Behind => "Behind by "@ + decimal(behind as nat) + " commit"@ + plural(
            behind,
        ) + " from default"@,
        BranchStatus::Diverged => "Ahead by "@ + decimal(ahead as nat) + " commit"@ + plural(ahead)
            + " and behind by "@ + decimal(behind as nat) + " commit"@ + plural(behind)
            + " from default"@,
    }
}

/// The importance of a branch of type `t`; among other branches only the
/// checked-out one is of medium importance.
pub open spec fn importance_for(t: BranchType, is_head: bool) -> BranchImportance {
    match t {
        BranchType::Main => BranchImportance::Critical,
        BranchType::Develop => BranchImportance::High,
        BranchType::Release => BranchImportance::High,
        BranchType::Hotfix => BranchImportance::High,
        BranchType::Feature => BranchImportance::Medium,
        BranchType::Other => if is_head {
            BranchImportance::Medium
        } else {
            BranchImportance::Low
        },
    }
}

/// Merging into the default branch is advised for a branch other than the
/// default one that is ahead of it and not behind it.
pub open spec fn merge_advised(b: Branch) -> bool {
    b.ahead_count_from_default > 0 && b.behind_count_from_default == 0 && !b.is_default
}

/// A branch is stale when it is not checked out and more than fifty commits
/// behind the default branch.
pub open spec fn branch_stale(b: Branch) -> bool {
    b.behind_count_from_default > 50 && !b.is_head
}

/// The sync state sorts the counts into four cases: in sync when neither
/// count is positive, ahead or behind when just that count is, and diverged
/// when both are.
pub proof fn law_status_partition(ahead: u32, behind: u32)
    ensures
        (status_for(ahead, behind) == BranchStatus::InSync) <==> (ahead == 0 && behind == 0),
        (status_for(ahead, behind) == BranchStatus::Ahead) <==> (ahead > 0 && behind == 0),
        (status_for(ahead, behind) == BranchStatus::Behind) <==> (ahead == 0 && behind > 0),
        (status_for(ahead, behind) == BranchStatus::Diverged) <==> (ahead > 0 && behind > 0),
{
}

/// A branch for which merging is advised is ahead of the default branch and
/// has not diverged from it.
pub proof fn law_merge_advice_means_ahead(b: Branch)
    requires
        merge_advised(b),
    ensures
        status_for(b.ahead_count_from_default, b.behind_count_from_default) == BranchStatus::Ahead,
{
}

/// A stale branch is behind the default branch, alone or diverged, and is
/// never advised for merging.
pub proof fn law_stale_means_behind(b: Branch)
    requires
        branch_stale(b),
    ensures
        status_for(b.ahead_count_from_default, b.behind_count_from_default) == BranchStatus::Behind
            || status_for(b.ahead_count_from_default, b.behind_count_from_default)
            == BranchStatus::Diverged,
        !merge_advised(b),
{
}

/// After the counts of a branch are updated, its sync state and the merge
/// advice follow the new counts alone.
pub proof fn law_update_decides_status(b: Branch, ahead: u32, behind: u32)
    ensures
        ({
            let u = Branch { ahead_count_from_default: ahead, behind_count_from_default: behind, ..b };
            &&& status_for(u.ahead_count_from_default, u.behind_count_from_default) == status_for(
                ahead,
                behind,
            )
            &&& merge_advised(u) == (ahead > 0 && behind == 0 && !b.is_default)
        }),
{
}

/// Merging is never advised for the default branch itself.
pub proof fn law_default_branch_never_merged(b: Branch)
    requires
        b.is_default,
    ensures
        !merge_advised(b),
{
}

/// A branch of a special type (main, develop, release, hotfix) is never of
/// low importance, checked out or not.
pub proof fn law_special_types_matter(t: BranchType, is_head: bool)
    requires
        type_is_special(t),
    ensures
        importance_for(t, is_head) != BranchImportance::Low,
{
}

fn push_plural(s: &mut String, n: u32)
    ensures
        final(s)@ == old(s)@ + plural(n),
{
    if n != 1 {
        s.push('s');
    } else {
        assert(old(s)@ + plural(n) =~= old(s)@);
    }
}

impl BranchType {
    /// Classifies a branch by its name.
    pub fn from_name(name: &str) -> (t: BranchType)
        ensures
            t == branch_type_of(name@),
    {
        let n = chars_of(name);
        if same_chars(&n, &chars_of("main")) || same_chars(&n, &chars_of("master")) {
            BranchType::Main
        } else if same_chars(&n, &chars_of("develop")) || same_chars(&n, &chars_of("development")) {
            BranchType::Develop
        } else if has_prefix(&n, &chars_of("release/")) || has_prefix(&n, &chars_of("release-")) {
            BranchType::Release
        } else if has_prefix(&n, &chars_of("hotfix/")) || has_prefix(&n, &chars_of("hotfix-"))
            || has_prefix(&n, &chars_of("fix/")) || has_prefix(&n, &chars_of("fix-")) {
            BranchType::Hotfix
        } else if has_prefix(&n, &chars_of("feature/")) || has_prefix(&n, &chars_of("feature-")) {
            BranchType::Feature
        } else {
            BranchType::Other
        }
    }

    /// Whether the branch type is one of the special, long-lived kinds.
    pub fn is_special(&self) -> (b: bool)
        ensures
            b == type_is_special(*self),
    {
        match self {
            BranchType::Main | BranchType::Develop | BranchType::Release | BranchType::Hotfix => true,
            _ => false,
        }
    }

    /// The naming template of the branch type.
    pub fn template_name(&self) -> (s: &'static str)
        ensures
            s@ == template_text(*self),
    {
        match self {
            BranchType::Main => "main/master",
            BranchType::Develop => "develop",
            BranchType::Release => "release/*",
            BranchType::Hotfix => "fix/*",
            BranchType::Feature => "feature/*",
            BranchType::Other => "other",
        }
    }

    /// The variant name, as `{:?}` prints it.
    pub fn name(&self) -> (s: &'static str)
        ensures
            s@ == branch_type_name(*self),
    {
        match self {
            BranchType::Main => "Main",
            BranchType::Develop => "Develop",
            BranchType::Release => "Release",
            BranchType::Hotfix => "Hotfix",
            BranchType::Feature => "Feature",
            BranchType::Other => "Other",
        }
    }
}

impl BranchStatus {
    /// The display text of the state.
    pub fn to_string(&self) -> (s: String)
        ensures
            s@ == status_text(*self),
    {
        match self {
            BranchStatus::InSync => "In Sync".to_owned(),
            BranchStatus::Ahead => "Ahead".to_owned(),
            BranchStatus::Behind => "Behind".to_owned(),
            BranchStatus::Diverged => "Diverged".to_owned(),
        }
    }
}

impl BranchImportance {
    /// The variant name, as `{:?}` prints it.
    pub fn name(&self) -> (s: &'static str)
        ensures
            s@ == importance_name(*self),
    {
        match self {
            BranchImportance::Low => "Low",
            BranchImportance::Medium => "Medium",
            BranchImportance::High => "High",
            BranchImportance::Critical => "Critical",
        }
    }
}

impl Branch {
    /// Creates a branch with no recorded commit and all counters at zero;
    /// the name must not be empty.
    pub fn new(id: i64, repo_id: i64, name: String, is_head: bool, is_default: bool) -> (r:
        DomainResult<Branch>)
        ensures
            name@.len() == 0 ==> (r matches Err(DomainError::InvalidBranch(m)) && m@
                == "Branch name cannot be empty"@),
            name@.len() > 0 ==> (r matches Ok(b) && b == (Branch {
                id: BranchId(id),
                repo_id,
                name,
                branch_type: branch_type_of(name@),
                is_head,
                is_default,
                last_commit_hash: None,
                ahead_count_from_remote: 0,
                behind_count_from_remote: 0,
                ahead_count_from_default: 0,
                behind_count_from_default: 0,
            })),
    {
        if name.as_str().is_empty() {
            return Err(DomainError::InvalidBranch("Branch name cannot be empty".to_owned()));
        }
        let branch_type = BranchType::from_name(name.as_str());
        Ok(Branch {
            id: BranchId(id),
            repo_id,
            name,
            branch_type,
            is_head,
            is_default,
            last_commit_hash: None,
            ahead_count_from_remote: 0,
            behind_count_from_remote: 0,
            ahead_count_from_default: 0,
            behind_count_from_default: 0,
        })
    }

    /// Whether the branch has commits that the default branch lacks.
    pub fn is_ahead(&self) -> (b: bool)
        ensures
            b == (self.ahead_count_from_default > 0),
    {
        self.ahead_count_from_default > 0
    }

    /// Whether the default branch has commits that this branch lacks.
    pub fn is_behind(&self) -> (b: bool)
        ensures
            b == (self.behind_count_from_default > 0),
    {
        self.behind_count_from_default > 0
    }

    /// Whether the branch is neither ahead nor behind.
    pub fn is_in_sync(&self) -> (b: bool)
        ensures
            b == (self.ahead_count_from_default == 0 && self.behind_count_from_default == 0),
    {
        self.ahead_count_from_default == 0 && self.behind_count_from_default == 0
    }

    /// The sync state against the default branch.
    pub fn status(&self) -> (s: BranchStatus)
        ensures
            s == status_for(self.ahead_count_from_default, self.behind_count_from_default),
    {
        match (self.is_ahead(), self.is_behind()) {
            (true, true) => BranchStatus::Diverged,
            (true, false) => BranchStatus::Ahead,
            (false, true) => BranchStatus::Behind,
            (false, false) => BranchStatus::InSync,
        }
    }

    /// The sync message for the user interface.
    pub fn sync_message(&self) -> (s: String)
        ensures
            s@ == sync_text(self.ahead_count_from_default, self.behind_count_from_default),
    {
        let ahead = self.ahead_count_from_default;
        let behind = self.behind_count_from_default;
        match self.status() {
            BranchStatus::InSync => "In sync with default".to_owned(),
            BranchStatus::Ahead => {
                let mut s = "Ahead by ".to_owned();
                push_decimal(&mut s, ahead as u64);
                s.append(" commit");
                push_plural(&mut s, ahead);
                s.append(" from default");
                s
            },
            BranchStatus::Behind => {
                let mut s = "Behind by ".to_owned();
                push_decimal(&mut s, behind as u64);
                s.append(" commit");
                push_plural(&mut s, behind);
                s.append(" from default");
                s
            },
            BranchStatus::Diverged => {
                let mut s = "Ahead by ".to_owned();
                push_decimal(&mut s, ahead as u64);
                s.append(" commit");
                push_plural(&mut s, ahead);
                s.append(" and behind by ");
                push_decimal(&mut s, behind as u64);
                s.append(" commit");
                push_plural(&mut s, behind);
                s.append(" from default");
                s
            },
        }
    }

    /// Merging is recommended for a non-default branch that is ahead and not behind.
    pub fn should_merge(&self) -> (b: bool)
        ensures
            b == merge_advised(*self),
    {
        self.is_ahead() && !self.is_behind() && !self.is_default
    }

    /// A branch that is not checked out and more than fifty commits behind is stale.
    pub fn is_stale(&self) -> (b: bool)
        ensures
            b == branch_stale(*self),
    {
        self.behind_count_from_default > 50 && !self.is_head
    }

    /// The importance of the branch.
    pub fn importance(&self) -> (i: BranchImportance)
        ensures
            i == importance_for(self.branch_type, self.is_head),
    {
        match self.branch_type {
            BranchType::Main => BranchImportance::Critical,
            BranchType::Develop => BranchImportance::High,
            BranchType::Release => BranchImportance::High,
            BranchType::Hotfix => BranchImportance::High,
            BranchType::Feature => BranchImportance::Medium,
            BranchType::Other => {
                if self.is_head {
                    BranchImportance::Medium
                } else {
                    BranchImportance::Low
                }
            },
        }
    }

    /// Records how far the branch is ahead of and behind the default branch.
    pub fn update_sync_info(&mut self, ahead: u32, behind: u32)
        ensures
            *final(self) == (Branch {
                ahead_count_from_default: ahead,
                behind_count_from_default: behind,
                ..*old(self)
            }),
    {
        self.ahead_count_from_default = ahead;
        self.behind_count_from_default = behind;
    }

    /// Records the hash of the branch's last commit.
    pub fn set_last_commit(&mut self, hash: String)
        ensures
            *final(self) == (Branch { last_commit_hash: Some(hash), ..*old(self) }),
    {
        self.last_commit_hash = Some(hash);
    }
}

} // verus!
