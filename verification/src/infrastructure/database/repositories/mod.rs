//! Query construction and result shaping for the database tables.
pub mod activity;
pub mod audit_logs;
pub mod commit_parents;
pub mod commits;
pub mod contributors;
pub mod indexing_jobs;
pub mod query;
pub mod repositories;
pub mod search_index;
pub mod settings;
