//! Database records and the query decisions made around the database.
pub mod migrations;
pub mod models;
pub mod repositories;
