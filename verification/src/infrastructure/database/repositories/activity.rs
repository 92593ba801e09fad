//! Queries over the daily activity of a repository.
use vstd::prelude::*;

use super::audit_logs::opt_text;
use super::query::{limit_text, push_limit};
use super::repositories::{SqlValue, SqlValueView};

verus! {

/// The conditions on the activity date: from `start` and up to `end`, each
/// where given, written into the text between single quotes.
pub open spec fn date_range_text(start: Option<Seq<char>>, end: Option<Seq<char>>) -> Seq<char> {
    let from = match start {
        Some(s) => " AND activity_date >= '"@ + s + "'"@,
        None => Seq::empty(),
    };
    let to = match end {
        Some(e) => " AND activity_date <= '"@ + e + "'"@,
        None => Seq::empty(),
    };
    from + to
}

fn push_date_range(sql: &mut String, start_date: Option<&str>, end_date: Option<&str>)
    ensures
        final(sql)@ == old(sql)@ + date_range_text(opt_text(start_date), opt_text(end_date)),
{
    if let Some(s) = start_date {
        sql.append(" AND activity_date >= '");
        sql.append(s);
        sql.append("'");
    }
    if let Some(e) = end_date {
        sql.append(" AND activity_date <= '");
        sql.append(e);
        sql.append("'");
    }
    assert(final(sql)@ =~= old(sql)@ + date_range_text(opt_text(start_date), opt_text(end_date)));
}

/// The daily activity rows of the repository bound as the first parameter.
pub open spec fn activity_select() -> Seq<char> {
    "SELECT id, repo_id, activity_date, commit_count, additions, deletions, files_changed \n                   FROM repo_activity_daily \n                   WHERE repo_id = ?1"@
}

/// The query for a repository's daily activity within the date range, newest
/// day first, capped at `limit` rows.
pub fn repo_activity_query(start_date: Option<&str>, end_date: Option<&str>, limit: Option<i32>) -> (sql:
    String)
    ensures
        sql@ == activity_select() + date_range_text(opt_text(start_date), opt_text(end_date))
            + " ORDER BY activity_date DESC"@ + limit_text(limit),
{
    let mut sql = "SELECT id, repo_id, activity_date, commit_count, additions, deletions, files_changed \n                   FROM repo_activity_daily \n                   WHERE repo_id = ?1".to_owned();
    push_date_range(&mut sql, start_date, end_date);
    sql.append(" ORDER BY activity_date DESC");
    push_limit(&mut sql, limit);
    sql
}

/// The sums of a repository's daily activity.
pub open spec fn activity_sums_select() -> Seq<char> {
    "SELECT SUM(commit_count), SUM(additions), SUM(deletions), SUM(files_changed) \n                   FROM repo_activity_daily \n                   WHERE repo_id = ?1"@
}

/// The query for the sums of a repository's daily activity within the date
/// range.
pub fn activity_summary_query(start_date: Option<&str>, end_date: Option<&str>) -> (sql: String)
    ensures
        sql@ == activity_sums_select() + date_range_text(opt_text(start_date), opt_text(end_date)),
{
    let mut sql = "SELECT SUM(commit_count), SUM(additions), SUM(deletions), SUM(files_changed) \n                   FROM repo_activity_daily \n                   WHERE repo_id = ?1".to_owned();
    push_date_range(&mut sql, start_date, end_date);
    sql
}

/// A query text with the values of its parameters.
#[derive(Debug)]
pub struct BoundQuery {
    pub sql: String,
    pub params: Vec<SqlValue>,
}

/// The daily activity rows of a repository, the variant that binds the dates
/// as parameters.
pub open spec fn daily_select() -> Seq<char> {
    "SELECT id, repo_id, activity_date, commit_count, additions, deletions, files_changed \n                   FROM repo_activity_daily WHERE repo_id = ?1"@
}

/// The text and parameters of the bound daily activity query: the repository
/// first, then the start date and the end date where given, each condition
/// naming the position of its parameter.
pub open spec fn daily_query_view(repo_id: i64, start: Option<Seq<char>>, end: Option<Seq<char>>) -> (Seq<
    char,
>, Seq<SqlValueView>) {
    let from: Seq<char> = match start {
        Some(_) => " AND activity_date >= ?2"@,
        None => Seq::empty(),
    };
    let to: Seq<char> = match end {
        Some(_) => if start is Some {
            " AND activity_date <= ?3"@
        } else {
            " AND activity_date <= ?2"@
        },
        None => Seq::empty(),
    };
    let p1 = seq![SqlValueView::Integer(repo_id)];
    let p2 = match start {
        Some(s) => p1.push(SqlValueView::Text(s)),
        None => p1,
    };
    let p3 = match end {
        Some(e) => p2.push(SqlValueView::Text(e)),
        None => p2,
    };
    (daily_select() + from + to + " ORDER BY activity_date DESC"@, p3)
}

/// Builds the daily activity query of a repository with its dates bound as
/// parameters.
pub fn daily_activity_query(repo_id: i64, start_date: Option<&str>, end_date: Option<&str>) -> (q:
    BoundQuery)
    ensures
        ({
            let (sql, params) = daily_query_view(repo_id, opt_text(start_date), opt_text(end_date));
            &&& q.sql@ == sql
            &&& q.params@.map_values(|p: SqlValue| p@) == params
        }),
{
    let mut sql = "SELECT id, repo_id, activity_date, commit_count, additions, deletions, files_changed \n                   FROM repo_activity_daily WHERE repo_id = ?1".to_owned();
    let mut params: Vec<SqlValue> = Vec::new();
    params.push(SqlValue::Integer(repo_id));
    let ghost sql0 = sql@;
    if let Some(s) = start_date {
        sql.append(" AND activity_date >= ?2");
        params.push(SqlValue::Text(s.to_owned()));
    }
    let ghost from: Seq<char> = if start_date.is_some() {
        " AND activity_date >= ?2"@
    } else {
        Seq::empty()
    };
    assert(sql@ =~= sql0 + from);
    let ghost sql1 = sql@;
    if let Some(e) = end_date {
        if start_date.is_some() {
            sql.append(" AND activity_date <= ?3");
        } else {
            sql.append(" AND activity_date <= ?2");
        }
        params.push(SqlValue::Text(e.to_owned()));
    }
    let ghost to: Seq<char> = if end_date.is_some() {
        if start_date.is_some() {
            " AND activity_date <= ?3"@
        } else {
            " AND activity_date <= ?2"@
        }
    } else {
        Seq::empty()
    };
    assert(sql@ =~= sql1 + to);
    sql.append(" ORDER BY activity_date DESC");
    proof {
        let (vs, vp) = daily_query_view(repo_id, opt_text(start_date), opt_text(end_date));
        assert(sql@ =~= vs);
        assert(params@.map_values(|p: SqlValue| p@) =~= vp);
    }
    BoundQuery { sql, params }
}

} // verus!
