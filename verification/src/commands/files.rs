//! Repository files, file statistics and language statistics as the user
//! interface receives them.
use vstd::prelude::*;

use crate::domain::{CommitFileStat, LanguageStat, LanguageStats, RepositoryFile};

verus! {

/// A file of a repository.
#[derive(Debug, Clone)]
pub struct RepositoryFileResponse {
    pub id: i64,
    pub repo_id: i64,
    pub path: String,
    pub name: String,
    pub extension: Option<String>,
    pub size_bytes: Option<i64>,
    pub is_binary: bool,
    pub last_modified_at: Option<String>,
}

impl RepositoryFileResponse {
    /// Carries every field of a file over unchanged.
    pub fn from_file(f: RepositoryFile) -> (r: Self)
        ensures
            r == (RepositoryFileResponse {
                id: f.id,
                repo_id: f.repo_id,
                path: f.path,
                name: f.name,
                extension: f.extension,
                size_bytes: f.size_bytes,
                is_binary: f.is_binary,
                last_modified_at: f.last_modified_at,
            }),
    {
        RepositoryFileResponse {
            id: f.id,
            repo_id: f.repo_id,
            path: f.path,
            name: f.name,
            extension: f.extension,
            size_bytes: f.size_bytes,
            is_binary: f.is_binary,
            last_modified_at: f.last_modified_at,
        }
    }
}

/// The changes a commit made to one file.
#[derive(Debug, Clone)]
pub struct CommitFileStatResponse {
    pub id: i64,
    pub repo_id: i64,
    pub commit_hash: String,
    pub file_path: String,
    pub change_type: String,
    pub additions: i32,
    pub deletions: i32,
    pub total_changes: i32,
}

impl CommitFileStatResponse {
    /// Carries every field of a file statistic over unchanged.
    pub fn from_stat(s: CommitFileStat) -> (r: Self)
        ensures
            r == (CommitFileStatResponse {
                id: s.id,
                repo_id: s.repo_id,
                commit_hash: s.commit_hash,
                file_path: s.file_path,
                change_type: s.change_type,
                additions: s.additions,
                deletions: s.deletions,
                total_changes: s.total_changes,
            }),
    {
        CommitFileStatResponse {
            id: s.id,
            repo_id: s.repo_id,
            commit_hash: s.commit_hash,
            file_path: s.file_path,
            change_type: s.change_type,
            additions: s.additions,
            deletions: s.deletions,
            total_changes: s.total_changes,
        }
    }
}

/// The size of a repository's code in one language.
#[derive(Debug, Clone)]
pub struct LanguageStatResponse {
    pub language: String,
    pub bytes: u64,
}

impl LanguageStatResponse {
    /// Carries a language statistic over unchanged.
    pub fn from_stat(l: LanguageStat) -> (r: Self)
        ensures
            r == (LanguageStatResponse { language: l.language, bytes: l.bytes }),
    {
        LanguageStatResponse { language: l.language, bytes: l.bytes }
    }
}

/// The size of a repository's code, in all and per language.
#[derive(Debug, Clone)]
pub struct LanguageStatsResponse {
    pub total_bytes: u64,
    pub languages: Vec<LanguageStatResponse>,
}

impl LanguageStatsResponse {
    /// Carries the total and each language's statistic over, in order.
    pub fn from_stats(s: LanguageStats) -> (r: Self)
        ensures
            r.total_bytes == s.total_bytes,
            r.languages@.len() == s.languages@.len(),
            forall|i: int|
                0 <= i < s.languages@.len() ==> #[trigger] r.languages@[i] == (
                LanguageStatResponse {
                    language: s.languages@[i].language,
                    bytes: s.languages@[i].bytes,
                }),
    {
        let mut languages: Vec<LanguageStatResponse> = Vec::new();
        let mut i: usize = 0;
        while i < s.languages.len()
            invariant
                i <= s.languages@.len(),
                languages@.len() == i,
                forall|j: int|
                    0 <= j < i ==> #[trigger] languages@[j] == (LanguageStatResponse {
                        language: s.languages@[j].language,
                        bytes: s.languages@[j].bytes,
                    }),
            decreases s.languages.len() - i,
        {
            let l = &s.languages[i];
            languages.push(LanguageStatResponse { language: l.language.clone(), bytes: l.bytes });
            i = i + 1;
        }
        LanguageStatsResponse { total_bytes: s.total_bytes, languages }
    }
}

} // verus!
