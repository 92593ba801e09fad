//! Records as stored in the database.
pub mod audit_log;
pub mod branch;
pub mod commit;
pub mod commit_parent;
pub mod indexing_job;
pub mod repository;
pub mod search_index;
pub mod tracked_root;
pub mod working_tree;

pub use audit_log::AuditLog;
pub use branch::Branch;
pub use commit::{Commit, CommitGraphNode};
pub use commit_parent::CommitParent;
pub use indexing_job::IndexingJob;
pub use repository::{Repository, RepositoryRoot};
pub use search_index::{SearchHit, SearchIndexEntry};
pub use tracked_root::{TrackIgnoreRoot, TrackedRoot};
pub use working_tree::WorkingTreeStatus;
