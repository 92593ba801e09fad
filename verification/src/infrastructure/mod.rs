//! Infrastructure: Git data shapes and the decisions around Git and database access.
pub mod database;
pub mod git;
