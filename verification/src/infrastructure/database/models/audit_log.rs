//! An entry of the audit log.
use vstd::prelude::*;

verus! {

/// An entry of the audit log: an action taken on an entity.
#[derive(Debug, Clone)]
pub struct AuditLog {
    pub id: i64,
    pub action: String,
    pub entity_type: String,
    pub entity_id: String,
    pub details: Option<String>,
    pub created_at: String,
}

} // verus!
