//! Documents of the full-text search index and the hits a search returns.
use vstd::prelude::*;

verus! {

/// A searchable document produced while a repository is synced.
///
/// `entity_type` names the kind of source record ("commit", "contributor",
/// "file", "branch") and `entity_id` points back to that record.
#[derive(Debug, Clone)]
pub struct SearchIndexEntry {
    pub repo_id: i64,
    pub entity_type: String,
    pub entity_id: i64,
    pub title: String,
    pub body: String,
}

/// A search hit, with the name of the repository it belongs to.
#[derive(Debug, Clone)]
pub struct SearchHit {
    pub repo_id: i64,
    pub repo_name: String,
    pub entity_type: String,
    pub entity_id: i64,
    pub title: String,
    pub body: String,
}

} // verus!
