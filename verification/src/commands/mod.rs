//! The shapes in which the application hands results to its user interface,
//! and the conversions from domain values into them.
pub mod analytics;
pub mod branches;
pub mod commits;
pub mod files;
pub mod repos;
pub mod search;
