//! Plain records about files, file changes, daily activity and languages.
use vstd::prelude::*;

verus! {

/// A file tracked in a repository.
#[derive(Debug, Clone)]
pub struct RepositoryFile {
    pub id: i64,
    pub repo_id: i64,
    pub path: String,
    pub name: String,
    pub extension: Option<String>,
    pub size_bytes: Option<i64>,
    pub is_binary: bool,
    pub last_modified_at: Option<String>,
}

/// How one commit changed one file.
#[derive(Debug, Clone)]
pub struct CommitFileStat {
    pub id: i64,
    pub repo_id: i64,
    pub commit_hash: String,
    pub file_path: String,
    pub change_type: String,
    pub additions: i32,
    pub deletions: i32,
    pub total_changes: i32,
}

/// The activity of a repository on one day.
#[derive(Debug, Clone)]
pub struct RepositoryActivityDaily {
    pub id: i64,
    pub repo_id: i64,
    pub activity_date: String,
    pub commit_count: i32,
    pub additions: i32,
    pub deletions: i32,
    pub files_changed: i32,
}

/// Bytes per language in a repository.
#[derive(Debug, Clone)]
pub struct LanguageStats {
    pub total_bytes: u64,
    pub languages: Vec<LanguageStat>,
}

/// Bytes of one language.
#[derive(Debug, Clone)]
pub struct LanguageStat {
    pub language: String,
    pub bytes: u64,
}

/// A node of a file tree: a directory with children or a file.
#[derive(Debug)]
pub struct FileTreeNode {
    pub name: String,
    pub path: String,
    pub is_directory: bool,
    pub size_or_file_count: u64,
    pub children: Vec<FileTreeNode>,
}

/// The content of a file with its MIME type.
#[derive(Debug, Clone)]
pub struct FileData {
    pub mime_type: String,
    pub data: Vec<u8>,
}

} // verus!
