//! Verified core of a desktop Git repository dashboard: the domain model of
//! repositories, branches, commits and contributors, the assembly of commit
//! diffs, working-tree summaries, search expressions and page windows.
use vstd::prelude::*;

pub mod commands;
pub mod discovery;
pub mod domain;
pub mod infrastructure;
pub mod text;

verus! {
} // verus!
