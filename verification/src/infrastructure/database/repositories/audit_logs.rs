//! Queries over the audit log.
use vstd::prelude::*;

use super::query::{limit_text, push_limit};

verus! {

/// The columns of an audit log entry, read from the whole log.
pub open spec fn audit_select() -> Seq<char> {
    "SELECT id, action, entity_type, entity_id, details, created_at FROM audit_logs"@
}

/// The filter and order of an audit log query: entries of the given entity
/// type and entity identifier, when given, newest first.
pub open spec fn audit_filter_text(entity_type: Option<Seq<char>>, entity_id: Option<Seq<char>>) -> Seq<
    char,
> {
    match (entity_type, entity_id) {
        (Some(et), Some(ei)) => " WHERE entity_type = '"@ + et + "' AND entity_id = '"@ + ei
            + "' ORDER BY created_at DESC"@,
        (Some(et), None) => " WHERE entity_type = '"@ + et + "' ORDER BY created_at DESC"@,
        (None, Some(ei)) => " WHERE entity_id = '"@ + ei + "' ORDER BY created_at DESC"@,
        (None, None) => " ORDER BY created_at DESC"@,
    }
}

/// The view of an optional text.
pub open spec fn opt_text(s: Option<&str>) -> Option<Seq<char>> {
    match s {
        Some(t) => Some(t@),
        None => None,
    }
}

/// The query for audit log entries, filtered by entity type and entity
/// identifier where they are given, newest first, capped at `limit` rows.
/// The filter values are written into the text between single quotes.
pub fn audit_logs_query(entity_type: Option<&str>, entity_id: Option<&str>, limit: Option<i32>) -> (sql:
    String)
    ensures
        sql@ == audit_select() + audit_filter_text(opt_text(entity_type), opt_text(entity_id))
            + limit_text(limit),
{
    let mut sql = "SELECT id, action, entity_type, entity_id, details, created_at FROM audit_logs".to_owned();
    match (entity_type, entity_id) {
        (Some(et), Some(ei)) => {
            sql.append(" WHERE entity_type = '");
            sql.append(et);
            sql.append("' AND entity_id = '");
            sql.append(ei);
            sql.append("' ORDER BY created_at DESC");
        },
        (Some(et), None) => {
            sql.append(" WHERE entity_type = '");
            sql.append(et);
            sql.append("' ORDER BY created_at DESC");
        },
        (None, Some(ei)) => {
            sql.append(" WHERE entity_id = '");
            sql.append(ei);
            sql.append("' ORDER BY created_at DESC");
        },
        (None, None) => {
            sql.append(" ORDER BY created_at DESC");
        },
    }
    push_limit(&mut sql, limit);
    sql
}

/// The query for the audit log entries of one action (bound as the first
/// parameter), newest first.
pub open spec fn audit_by_action_select() -> Seq<char> {
    "SELECT id, action, entity_type, entity_id, details, created_at \n                   FROM audit_logs WHERE action = ?1 ORDER BY created_at DESC"@
}

/// The query for the audit log entries of one action, newest first, capped
/// at `limit` rows.
pub fn audit_logs_by_action_query(limit: Option<i32>) -> (sql: String)
    ensures
        sql@ == audit_by_action_select() + limit_text(limit),
{
    let mut sql = "SELECT id, action, entity_type, entity_id, details, created_at \n                   FROM audit_logs WHERE action = ?1 ORDER BY created_at DESC".to_owned();
    push_limit(&mut sql, limit);
    sql
}

} // verus!
