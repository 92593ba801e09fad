//! Domain entities and value objects, independent of storage and Git access.
use vstd::prelude::*;

pub mod branch;
pub mod commit;
pub mod contributor;
pub mod file;
pub mod repository;
pub mod tracked_root;
pub mod value_objects;

pub use branch::{Branch, BranchType};
pub use commit::{Commit, CommitInfo};
pub use contributor::Contributor;
pub use file::{
    CommitFileStat, FileData, FileTreeNode, LanguageStat, LanguageStats, RepositoryActivityDaily,
    RepositoryFile,
};
pub use tracked_root::TrackedRoot;
pub use value_objects::{ActivityLevel, RepositoryId};

verus! {

/// Errors of domain operations; each carries a human-readable reason.
#[derive(Debug)]
pub enum DomainError {
    InvalidRepository(String),
    InvalidCommit(String),
    InvalidBranch(String),
    HealthCheckFailed(String),
    ActivityCalculationFailed(String),
}

/// Result type of domain operations.
pub type DomainResult<T> = Result<T, DomainError>;

/// The text of a domain error, as the user sees it.
pub open spec fn domain_error_text(e: DomainError) -> Seq<char> {
    match e {
        DomainError::InvalidRepository(m) => "Invalid repository: "@ + m@,
        DomainError::InvalidCommit(m) => "Invalid commit: "@ + m@,
        DomainError::InvalidBranch(m) => "Invalid branch: "@ + m@,
        DomainError::HealthCheckFailed(m) => "Health check failed: "@ + m@,
        DomainError::ActivityCalculationFailed(m) => "Activity calculation failed: "@ + m@,
    }
}

impl DomainError {
    /// The user-facing text of the error.
    pub fn to_string(&self) -> (s: String)
        ensures
            s@ == domain_error_text(*self),
    {
        let (prefix, msg) = match self {
            DomainError::InvalidRepository(m) => ("Invalid repository: ", m),
            DomainError::InvalidCommit(m) => ("Invalid commit: ", m),
            DomainError::InvalidBranch(m) => ("Invalid branch: ", m),
            DomainError::HealthCheckFailed(m) => ("Health check failed: ", m),
            DomainError::ActivityCalculationFailed(m) => ("Activity calculation failed: ", m),
        };
        let mut s = prefix.to_owned();
        s.append(msg.as_str());
        s
    }
}

} // verus!
