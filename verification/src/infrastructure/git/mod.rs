//! Git data shapes: discovered repositories, commits, branches, working-tree
//! status, graph nodes and commit diffs.
use vstd::prelude::*;
use crate::text::opt_view;

pub mod branch;
pub mod commit;
pub mod file;
pub mod graph;
pub mod repo;
pub mod status;

verus! {

/// How a repository is laid out on disk.
#[derive(Debug, Clone, Copy, PartialEq, Eq, Hash, Structural)]
pub enum RepositoryType {
    Standard,
    Submodule,
    Worktree,
}

/// A repository found below a tracked root.
#[derive(Debug, Clone, PartialEq, Eq)]
pub struct DiscoveredRepository {
    pub name: String,
    pub path: String,
    pub git_dir: String,
    pub repo_type: RepositoryType,
}

/// Remote and default branch of a repository.
#[derive(Debug, Clone, PartialEq, Eq)]
pub struct RepositoryInfo {
    pub remote_url: Option<String>,
    pub default_branch: Option<String>,
}

/// A commit as read from Git, before it is stored.
#[derive(Debug, Clone, PartialEq, Eq)]
pub struct NewCommit {
    pub hash: String,
    pub author_name: Option<String>,
    pub author_email: Option<String>,
    pub committer_name: Option<String>,
    pub committer_email: Option<String>,
    pub subject: String,
    pub body: Option<String>,
    pub parent_count: i32,
    pub committed_at: String,
}

/// A branch as read from Git.
#[derive(Debug, Clone, PartialEq, Eq)]
pub struct NewBranch {
    pub name: String,
    pub is_head: bool,
}

/// The last commit of a branch.
#[derive(Debug, Clone, PartialEq, Eq)]
pub struct LastCommit {
    pub hash: String,
    pub committed_at: String,
}

/// Paths of the working tree by kind of change.
#[derive(Debug, Clone, PartialEq, Eq)]
pub struct WorkingTreeStatus {
    pub added: Vec<String>,
    pub modified: Vec<String>,
    pub deleted: Vec<String>,
    pub renamed: Vec<(String, String)>,
}

impl Default for WorkingTreeStatus {
    fn default() -> (s: WorkingTreeStatus)
        ensures
            s.added@.len() == 0,
            s.modified@.len() == 0,
            s.deleted@.len() == 0,
            s.renamed@.len() == 0,
    {
        WorkingTreeStatus {
            added: Vec::new(),
            modified: Vec::new(),
            deleted: Vec::new(),
            renamed: Vec::new(),
        }
    }
}

/// A commit of the history graph as Git reports it.
#[derive(Debug, Clone, PartialEq, Eq)]
pub struct GraphNode {
    pub hash: String,
    pub message: String,
    pub author_name: Option<String>,
    pub author_email: Option<String>,
    pub committed_at: i64,
    pub parent_hashes: Vec<String>,
}

/// How one commit changed one file.
#[derive(Debug, Clone, PartialEq, Eq)]
pub struct FileHotspotPerCommit {
    pub file_path: String,
    pub addions: i32,
    pub deletions: i32,
    pub change_type: ChangeType,
}

/// Kind of change to a file.
#[derive(Debug, Clone, Copy, PartialEq, Eq, Hash, Structural)]
pub enum ChangeType {
    Added,
    Modified,
    Deleted,
    Renamed,
    Copied,
}

/// The status Git reports for a file of a diff, one variant for each of Git's.
#[derive(Debug, Clone, Copy, PartialEq, Eq, Hash, Structural)]
pub enum DeltaKind {
    Unmodified,
    Added,
    Deleted,
    Modified,
    Renamed,
    Copied,
    Ignored,
    Untracked,
    Typechange,
    Unreadable,
    Conflicted,
}

/// The change type recorded for a Git file status: added, deleted, renamed
/// and copied keep their kind, every other status counts as modified.
pub open spec fn change_type_of(status: DeltaKind) -> ChangeType {
    match status {
        DeltaKind::Added => ChangeType::Added,
        DeltaKind::Deleted => ChangeType::Deleted,
        DeltaKind::Renamed => ChangeType::Renamed,
        DeltaKind::Copied => ChangeType::Copied,
        _ => ChangeType::Modified,
    }
}

/// The name of a repository layout.
pub open spec fn repository_type_text(t: RepositoryType) -> Seq<char> {
    match t {
        RepositoryType::Standard => "Standard"@,
        RepositoryType::Submodule => "Submodule"@,
        RepositoryType::Worktree => "Worktree"@,
    }
}

/// The name of a change type.
pub open spec fn change_type_text(t: ChangeType) -> Seq<char> {
    match t {
        ChangeType::Added => "Added"@,
        ChangeType::Modified => "Modified"@,
        ChangeType::Deleted => "Deleted"@,
        ChangeType::Renamed => "Renamed"@,
        ChangeType::Copied => "Copied"@,
    }
}

impl RepositoryType {
    /// The name of the layout.
    pub fn as_str(&self) -> (s: &'static str)
        ensures
            s@ == repository_type_text(*self),
    {
        match self {
            RepositoryType::Standard => "Standard",
            RepositoryType::Submodule => "Submodule",
            RepositoryType::Worktree => "Worktree",
        }
    }
}

impl ChangeType {
    /// The name of the change type.
    pub fn as_str(&self) -> (s: &'static str)
        ensures
            s@ == change_type_text(*self),
    {
        match self {
            ChangeType::Added => "Added",
            ChangeType::Modified => "Modified",
            ChangeType::Deleted => "Deleted",
            ChangeType::Renamed => "Renamed",
            ChangeType::Copied => "Copied",
        }
    }
}

/// Whether the change type `t` keeps Git's kind of change for `status`: an
/// added, deleted, renamed or copied file is reported as such, and every
/// other status, and only those, as modified.
pub open spec fn keeps_git_kind(status: DeltaKind, t: ChangeType) -> bool {
    &&& (t == ChangeType::Added <==> status == DeltaKind::Added)
    &&& (t == ChangeType::Deleted <==> status == DeltaKind::Deleted)
    &&& (t == ChangeType::Renamed <==> status == DeltaKind::Renamed)
    &&& (t == ChangeType::Copied <==> status == DeltaKind::Copied)
    &&& (t == ChangeType::Modified <==> !(status == DeltaKind::Added || status
        == DeltaKind::Deleted || status == DeltaKind::Renamed || status == DeltaKind::Copied))
}

/// Every Git file status gets a change type that keeps Git's kind of change.
pub proof fn law_change_type_keeps_git_kind(status: DeltaKind)
    ensures
        keeps_git_kind(status, change_type_of(status)),
{
}

/// The change type for a Git file status.
pub fn change_type(status: DeltaKind) -> (t: ChangeType)
    ensures
        t == change_type_of(status),
        keeps_git_kind(status, t),
{
    match status {
        DeltaKind::Added => ChangeType::Added,
        DeltaKind::Deleted => ChangeType::Deleted,
        DeltaKind::Renamed => ChangeType::Renamed,
        DeltaKind::Copied => ChangeType::Copied,
        _ => ChangeType::Modified,
    }
}

/// Kind of a line of a diff.
#[derive(Debug, Clone, Copy, PartialEq, Eq, Hash, Structural)]
pub enum DiffLineType {
    Context,
    Added,
    Removed,
}

/// One line of a diff hunk.
#[derive(Debug, Clone, PartialEq, Eq)]
pub struct DiffLine {
    pub line_type: DiffLineType,
    pub old_line_number: Option<u32>,
    pub new_line_number: Option<u32>,
    pub content: String,
}

/// A hunk of a file diff: its header ranges and its lines.
#[derive(Debug, Clone, PartialEq, Eq)]
pub struct DiffHunk {
    pub old_start: i32,
    pub old_lines: i32,
    pub new_start: i32,
    pub new_lines: i32,
    pub lines: Vec<DiffLine>,
}

/// The diff of one file in a commit.
#[derive(Debug, Clone, PartialEq, Eq)]
pub struct FileDiff {
    pub old_path: Option<String>,
    pub new_path: String,
    pub change_type: ChangeType,
    pub additions: i32,
    pub deletions: i32,
    pub hunks: Vec<DiffHunk>,
}

/// The diff of a commit against its first parent.
#[derive(Debug, Clone, PartialEq, Eq)]
pub struct CommitDiff {
    pub commit_hash: String,
    pub files: Vec<FileDiff>,
}

/// A line of a file shown whole, with the changes of a commit merged in.
#[derive(Debug, Clone, PartialEq, Eq)]
pub struct InlineDiffLine {
    pub old_line_number: Option<u32>,
    pub new_line_number: Option<u32>,
    pub content: String,
    pub line_type: DiffLineType,
}

/// A file of a commit shown whole, with its changes merged in.
#[derive(Debug, Clone, PartialEq, Eq)]
pub struct InlineFileDiff {
    pub old_path: Option<String>,
    pub new_path: String,
    pub change_type: ChangeType,
    pub lines: Vec<InlineDiffLine>,
}

/// The files of a commit shown whole, with its changes merged in.
#[derive(Debug, Clone, PartialEq, Eq)]
pub struct CommitInlineDiff {
    pub commit_hash: String,
    pub files: Vec<InlineFileDiff>,
}

/// The abstract content of a diff line.
pub struct DiffLineView {
    pub line_type: DiffLineType,
    pub old_line_number: Option<u32>,
    pub new_line_number: Option<u32>,
    pub content: Seq<char>,
}

/// The abstract content of a hunk.
pub struct DiffHunkView {
    pub old_start: i32,
    pub old_lines: i32,
    pub new_start: i32,
    pub new_lines: i32,
    pub lines: Seq<DiffLineView>,
}

/// The abstract content of a file diff.
pub struct FileDiffView {
    pub old_path: Option<Seq<char>>,
    pub new_path: Seq<char>,
    pub change_type: ChangeType,
    pub additions: i32,
    pub deletions: i32,
    pub hunks: Seq<DiffHunkView>,
}

/// The abstract content of a commit diff.
pub struct CommitDiffView {
    pub commit_hash: Seq<char>,
    pub files: Seq<FileDiffView>,
}

/// The abstract content of an inline line.
pub struct InlineLineView {
    pub old_line_number: Option<u32>,
    pub new_line_number: Option<u32>,
    pub content: Seq<char>,
    pub line_type: DiffLineType,
}

/// The abstract content of an inline file.
pub struct InlineFileView {
    pub old_path: Option<Seq<char>>,
    pub new_path: Seq<char>,
    pub change_type: ChangeType,
    pub lines: Seq<InlineLineView>,
}

/// The abstract content of a commit's files shown whole.
pub struct CommitInlineView {
    pub commit_hash: Seq<char>,
    pub files: Seq<InlineFileView>,
}


impl View for DiffLine {
    type V = DiffLineView;

    open spec fn view(&self) -> DiffLineView {
        DiffLineView {
            line_type: self.line_type,
            old_line_number: self.old_line_number,
            new_line_number: self.new_line_number,
            content: self.content@,
        }
    }
}

impl View for DiffHunk {
    type V = DiffHunkView;

    open spec fn view(&self) -> DiffHunkView {
        DiffHunkView {
            old_start: self.old_start,
            old_lines: self.old_lines,
            new_start: self.new_start,
            new_lines: self.new_lines,
            lines: self.lines@.map_values(|l: DiffLine| l@),
        }
    }
}

impl View for FileDiff {
    type V = FileDiffView;

    open spec fn view(&self) -> FileDiffView {
        FileDiffView {
            old_path: opt_view(self.old_path),
            new_path: self.new_path@,
            change_type: self.change_type,
            additions: self.additions,
            deletions: self.deletions,
            hunks: self.hunks@.map_values(|h: DiffHunk| h@),
        }
    }
}

impl View for CommitDiff {
    type V = CommitDiffView;

    open spec fn view(&self) -> CommitDiffView {
        CommitDiffView {
            commit_hash: self.commit_hash@,
            files: self.files@.map_values(|f: FileDiff| f@),
        }
    }
}

impl View for InlineDiffLine {
    type V = InlineLineView;

    open spec fn view(&self) -> InlineLineView {
        InlineLineView {
            old_line_number: self.old_line_number,
            new_line_number: self.new_line_number,
            content: self.content@,
            line_type: self.line_type,
        }
    }
}

impl View for InlineFileDiff {
    type V = InlineFileView;

    open spec fn view(&self) -> InlineFileView {
        InlineFileView {
            old_path: opt_view(self.old_path),
            new_path: self.new_path@,
            change_type: self.change_type,
            lines: self.lines@.map_values(|l: InlineDiffLine| l@),
        }
    }
}

impl View for CommitInlineDiff {
    type V = CommitInlineView;

    open spec fn view(&self) -> CommitInlineView {
        CommitInlineView {
            commit_hash: self.commit_hash@,
            files: self.files@.map_values(|f: InlineFileDiff| f@),
        }
    }
}

} // verus!
