//! Repository listing queries: the filtered, cursor-paged repository list and
//! the cut of a fetched page.
use vstd::prelude::*;

use crate::text::{
    chars_of, concat3, decimal, join_strings, join_with, push_decimal, string_from_chars,
    string_views, trim, trim_chars,
};

verus! {

/// Commit and contributor figures of a repository.
#[derive(Debug, Clone)]
pub struct RepositoryMetrics {
    pub total_commits: i64,
    pub weekly_commits: i64,
    pub last_commit_at: Option<String>,
    pub unique_contributors: i64,
}

/// A value bound to a query parameter.
#[derive(Debug, Clone, PartialEq, Eq)]
pub enum SqlValue {
    Text(String),
    Integer(i64),
}

/// The abstract content of a bound value.
pub enum SqlValueView {
    Text(Seq<char>),
    Integer(i64),
}

impl View for SqlValue {
    type V = SqlValueView;

    open spec fn view(&self) -> SqlValueView {
        match self {
            SqlValue::Text(s) => SqlValueView::Text(s@),
            SqlValue::Integer(i) => SqlValueView::Integer(*i),
        }
    }
}

/// The counting query and the page query of a repository list request, with
/// the values of their parameters.
#[derive(Debug)]
pub struct RepositoryPageQuery {
    pub count_sql: String,
    pub count_params: Vec<SqlValue>,
    pub page_sql: String,
    pub page_params: Vec<SqlValue>,
}

/// The lower-case form of a text, as `str::to_lowercase` computes it.
pub uninterp spec fn lowercase(s: Seq<char>) -> Seq<char>;

/// `str::to_lowercase`; its result is named by `lowercase` and nothing more
/// is claimed of it.
#[verifier::external_body]
fn to_lowercase(s: &str) -> (r: String)
    ensures
        r@ == lowercase(s@),
{
    s.to_lowercase()
}

/// The condition that a lower-case list filter adds; an unknown filter adds
/// none.
pub open spec fn lowered_filter_condition(f: Seq<char>) -> Option<Seq<char>> {
    if f == "clean"@ {
        Some("is_dirty = 0"@)
    } else if f == "modified"@ {
        Some("is_dirty = 1"@)
    } else if f == "unhealthy"@ {
        Some("health_score < 0.7"@)
    } else if f == "enabled"@ {
        Some("is_enabled = 1"@)
    } else if f == "disabled"@ {
        Some("is_enabled = 0"@)
    } else {
        None
    }
}

/// The condition that a list filter adds, matched without regard to case.
pub open spec fn filter_condition(filter: Seq<char>) -> Option<Seq<char>> {
    lowered_filter_condition(lowercase(filter))
}

/// The condition for a list filter already in lower case.
pub fn lowered_filter_clause(f: &str) -> (c: Option<&'static str>)
    ensures
        match lowered_filter_condition(f@) {
            Some(t) => c matches Some(s) && s@ == t,
            None => c is None,
        },
{
    let f = f.to_owned();
    if f == "clean".to_owned() {
        Some("is_dirty = 0")
    } else if f == "modified".to_owned() {
        Some("is_dirty = 1")
    } else if f == "unhealthy".to_owned() {
        Some("health_score < 0.7")
    } else if f == "enabled".to_owned() {
        Some("is_enabled = 1")
    } else if f == "disabled".to_owned() {
        Some("is_enabled = 0")
    } else {
        None
    }
}

/// The condition for a list filter, matched without regard to case.
pub fn filter_clause(filter: &str) -> (c: Option<&'static str>)
    ensures
        match filter_condition(filter@) {
            Some(t) => c matches Some(s) && s@ == t,
            None => c is None,
        },
{
    let f = to_lowercase(filter);
    lowered_filter_clause(f.as_str())
}

/// The columns read for a repository summary, up to where the page
/// conditions go.
pub open spec fn page_select() -> Seq<char> {
    "SELECT id, name, path, git_dir_path, repo_type, is_enabled, health_score, default_branch, head_branch,\n                remote_url, is_dirty, last_commit_hash, last_commit_at, last_scanned_at, last_indexed_at, index_status, \n                created_at, updated_at, total_commits, weekly_commits, unique_contributors\n         FROM repository_summary\n         "@
}

/// `WHERE` with the conditions joined by `AND`, or nothing without conditions.
pub open spec fn where_text(conds: Seq<Seq<char>>) -> Seq<char> {
    if conds.len() == 0 {
        Seq::empty()
    } else {
        "WHERE "@ + join_with(conds, " AND "@)
    }
}

/// A search text counts only when it holds more than white space.
pub open spec fn search_used(search: Option<&str>) -> bool {
    search matches Some(s) && trim(s@).len() > 0
}

/// The conditions of the search and the filter, in that order; the search
/// matches name or path against the first parameter.
pub open spec fn list_conditions(search: Option<&str>, filter: Option<&str>) -> Seq<Seq<char>> {
    let s: Seq<Seq<char>> = if search_used(search) {
        seq!["(name LIKE ?1 OR path LIKE ?1)"@]
    } else {
        seq![]
    };
    match filter {
        Some(f) => match filter_condition(f@) {
            Some(c) => s.push(c),
            None => s,
        },
        None => s,
    }
}

/// The parameters of the search: the trimmed search text inside `%` wildcards.
pub open spec fn search_params(search: Option<&str>) -> Seq<SqlValueView> {
    if search_used(search) {
        seq![SqlValueView::Text("%"@ + trim(search.unwrap()@) + "%"@)]
    } else {
        seq![]
    }
}

/// The page conditions: the list conditions, then `id < ?n` for a cursor,
/// where `n` is the cursor's parameter position.
pub open spec fn page_conditions(search: Option<&str>, filter: Option<&str>, cursor: Option<i64>) -> Seq<Seq<char>> {
    let n = search_params(search).len() + 1;
    match cursor {
        Some(_) => list_conditions(search, filter).push("id < ?"@ + decimal(n)),
        None => list_conditions(search, filter),
    }
}

/// The page parameters: the search parameters, the cursor if any, then the
/// number of rows to fetch, one more than the page size.
pub open spec fn page_params_of(search: Option<&str>, cursor: Option<i64>, limit: usize) -> Seq<SqlValueView> {
    let p = match cursor {
        Some(c) => search_params(search).push(SqlValueView::Integer(c)),
        None => search_params(search),
    };
    p.push(SqlValueView::Integer((limit + 1) as i64))
}

/// The query pair for a repository list request: a count of all matching
/// repositories, and a page of them by descending id below the cursor,
/// fetching one row more than the page size to tell whether more follow.
pub open spec fn page_query_view(search: Option<&str>, filter: Option<&str>, limit: usize, cursor: Option<i64>) -> (Seq<char>, Seq<SqlValueView>, Seq<char>, Seq<SqlValueView>) {
    let pp = page_params_of(search, cursor, limit);
    (
        "SELECT COUNT(*) FROM repository_summary "@ + where_text(list_conditions(search, filter)),
        search_params(search),
        page_select() + where_text(page_conditions(search, filter, cursor))
            + "\n         ORDER BY id DESC\n         LIMIT ?"@ + decimal(pp.len()),
        pp,
    )
}

fn where_clause(conds: &Vec<String>) -> (s: String)
    ensures
        s@ == where_text(string_views(conds@)),
{
    if conds.len() == 0 {
        String::new()
    } else {
        let mut s = "WHERE ".to_owned();
        let j = join_strings(conds, " AND ");
        s.append(j.as_str());
        s
    }
}

/// Builds the count and page queries of a repository list request.
pub fn build_page_query(search: Option<&str>, filter: Option<&str>, limit: usize, cursor: Option<i64>) -> (q:
    RepositoryPageQuery)
    requires
        limit < usize::MAX,
    ensures
        ({
            let (cs, cp, ps, pp) = page_query_view(search, filter, limit, cursor);
            &&& q.count_sql@ == cs
            &&& q.count_params@.map_values(|p: SqlValue| p@) == cp
            &&& q.page_sql@ == ps
            &&& q.page_params@.map_values(|p: SqlValue| p@) == pp
        }),
{
    let mut conds: Vec<String> = Vec::new();
    let mut params: Vec<SqlValue> = Vec::new();
    let mut used = false;
    match search {
        Some(s) => {
            let t = trim_chars(&chars_of(s));
            if t.len() > 0 {
                used = true;
                let pattern = concat3("%", string_from_chars(&t).as_str(), "%");
                params.push(SqlValue::Text(pattern));
                conds.push("(name LIKE ?1 OR path LIKE ?1)".to_owned());
            }
        },
        None => {},
    }
    assert(used == search_used(search));
    assert(string_views(conds@) =~= (if used {
        seq!["(name LIKE ?1 OR path LIKE ?1)"@]
    } else {
        seq![]
    }));
    assert(params@.map_values(|p: SqlValue| p@) =~= search_params(search));
    match filter {
        Some(f) => match filter_clause(f) {
            Some(c) => {
                let ghost before = string_views(conds@);
                conds.push(c.to_owned());
                assert(string_views(conds@) =~= before.push(c@));
            },
            None => {},
        },
        None => {},
    }
    assert(string_views(conds@) == list_conditions(search, filter));
    let mut count_sql = "SELECT COUNT(*) FROM repository_summary ".to_owned();
    let w = where_clause(&conds);
    count_sql.append(w.as_str());
    let count_params = clone_params(&params);
    match cursor {
        Some(c) => {
            params.push(SqlValue::Integer(c));
            let mut cond = "id < ?".to_owned();
            push_decimal(&mut cond, params.len() as u64);
            let ghost before = string_views(conds@);
            conds.push(cond);
            assert(string_views(conds@) =~= before.push("id < ?"@ + decimal(params@.len() as nat)));
        },
        None => {},
    }
    params.push(SqlValue::Integer((limit + 1) as i64));
    let mut page_sql = "SELECT id, name, path, git_dir_path, repo_type, is_enabled, health_score, default_branch, head_branch,\n                remote_url, is_dirty, last_commit_hash, last_commit_at, last_scanned_at, last_indexed_at, index_status, \n                created_at, updated_at, total_commits, weekly_commits, unique_contributors\n         FROM repository_summary\n         ".to_owned();
    let pw = where_clause(&conds);
    page_sql.append(pw.as_str());
    page_sql.append("\n         ORDER BY id DESC\n         LIMIT ?");
    push_decimal(&mut page_sql, params.len() as u64);
    proof {
        let (cs, cp, ps, pp) = page_query_view(search, filter, limit, cursor);
        assert(params@.map_values(|p: SqlValue| p@) =~= pp);
        assert(string_views(conds@) =~= page_conditions(search, filter, cursor));
    }
    RepositoryPageQuery { count_sql, count_params, page_sql, page_params: params }
}

fn clone_params(v: &Vec<SqlValue>) -> (r: Vec<SqlValue>)
    ensures
        r@.map_values(|p: SqlValue| p@) == v@.map_values(|p: SqlValue| p@),
{
    let mut r: Vec<SqlValue> = Vec::new();
    let mut i: usize = 0;
    while i < v.len()
        invariant
            i <= v.len(),
            r@.map_values(|p: SqlValue| p@) == v@.map_values(|p: SqlValue| p@).take(i as int),
        decreases v.len() - i,
    {
        let p = match &v[i] {
            SqlValue::Text(s) => SqlValue::Text(s.clone()),
            SqlValue::Integer(n) => SqlValue::Integer(*n),
        };
        let ghost before = r@.map_values(|p: SqlValue| p@);
        r.push(p);
        assert(r@.map_values(|p: SqlValue| p@) =~= before.push(v@[i as int]@));
        assert(v@.map_values(|p: SqlValue| p@).take(i + 1) =~= v@.map_values(|p: SqlValue| p@).take(i as int).push(v@[i as int]@));
        i = i + 1;
    }
    assert(v@.map_values(|p: SqlValue| p@).take(v.len() as int) =~= v@.map_values(|p: SqlValue| p@));
    r
}

/// How a fetched page is cut: how many rows to keep, whether more rows
/// follow, and the cursor of the next page.
#[derive(Debug, Clone, Copy, PartialEq, Eq, Structural)]
pub struct PageCut {
    pub keep: usize,
    pub has_more: bool,
    pub next_cursor: Option<i64>,
}

/// Having fetched one row more than the page size tells that more rows
/// follow; the page keeps `limit` rows then, and the next page starts below
/// the id of the last row kept.
pub open spec fn page_cut_of(ids: Seq<i64>, limit: usize) -> PageCut {
    let has_more = ids.len() > limit;
    PageCut {
        keep: if has_more {
            limit
        } else {
            ids.len() as usize
        },
        has_more,
        next_cursor: if has_more && limit > 0 {
            Some(ids[limit - 1])
        } else {
            None
        },
    }
}

/// A cut page keeps at most `limit` rows, all of them when no more follow;
/// more follow exactly when more than `limit` rows were fetched; the next
/// cursor is the id of the last row kept, given exactly when more follow and
/// the page is not empty.
pub proof fn law_page_cut_bounds(ids: Seq<i64>, limit: usize)
    requires
        ids.len() <= usize::MAX,
    ensures
        ({
            let c = page_cut_of(ids, limit);
            &&& c.keep <= limit && c.keep <= ids.len()
            &&& c.has_more <==> ids.len() > limit
            &&& !c.has_more ==> c.keep == ids.len()
            &&& (c.next_cursor is Some <==> c.has_more && limit > 0)
            &&& c.next_cursor is Some ==> c.next_cursor == Some(ids[c.keep - 1])
        }),
{
}

/// Consecutive pages neither overlap nor leave rows out: when the rows come
/// by strictly descending id, the rows below the next cursor are exactly
/// those after the ones kept.
pub proof fn law_pages_follow_on(ids: Seq<i64>, limit: usize)
    requires
        ids.len() <= usize::MAX,
        forall|i: int, j: int| 0 <= i < j < ids.len() ==> ids[i] > ids[j],
        page_cut_of(ids, limit).next_cursor is Some,
    ensures
        forall|i: int|
            0 <= i < ids.len() ==> (#[trigger] ids[i] < page_cut_of(ids, limit).next_cursor->0
                <==> i >= page_cut_of(ids, limit).keep),
{
    let c = page_cut_of(ids, limit);
    let last = c.keep - 1;
    assert forall|i: int| 0 <= i < ids.len() implies (#[trigger] ids[i] < c.next_cursor->0 <==> i
        >= c.keep) by {
        if i < last {
            assert(ids[i] > ids[last]);
        } else if i > last {
            assert(ids[last] > ids[i]);
        }
    }
}

/// The rows that a page query with `cursor` reads from the matching rows
/// `ids`, in order: all of them without a cursor, else those with an id
/// below it (the query's `id < ?` condition).
pub open spec fn rows_below(ids: Seq<i64>, cursor: Option<i64>) -> Seq<i64>
    decreases ids.len(),
{
    match cursor {
        None => ids,
        Some(c) => if ids.len() == 0 {
            seq![]
        } else if ids.last() < c {
            rows_below(ids.drop_last(), cursor).push(ids.last())
        } else {
            rows_below(ids.drop_last(), cursor)
        },
    }
}

/// The rows a page query fetches: at most one more than the page size.
pub open spec fn fetched_rows(ids: Seq<i64>, cursor: Option<i64>, limit: usize) -> Seq<i64> {
    let rows = rows_below(ids, cursor);
    if rows.len() <= limit + 1 {
        rows
    } else {
        rows.take(limit + 1)
    }
}

/// Paging through the matching rows `ids` from `cursor` on, at most `steps`
/// more pages after this one: the rows listed, page after page, and whether
/// the last page read said that no more follow.
pub open spec fn listed_pages(ids: Seq<i64>, cursor: Option<i64>, limit: usize, steps: nat) -> (Seq<
    i64,
>, bool)
    decreases steps,
{
    let fetched = fetched_rows(ids, cursor, limit);
    let cut = page_cut_of(fetched, limit);
    let items = fetched.take(cut.keep as int);
    if !cut.has_more {
        (items, true)
    } else if steps == 0 {
        (items, false)
    } else {
        let (rest, ended) = listed_pages(ids, cut.next_cursor, limit, (steps - 1) as nat);
        (items + rest, ended)
    }
}

proof fn lemma_rows_below_suffix(ids: Seq<i64>, c: i64, p: int)
    requires
        0 <= p <= ids.len(),
        forall|i: int| 0 <= i < p ==> ids[i] >= c,
        forall|i: int| p <= i < ids.len() ==> ids[i] < c,
    ensures
        rows_below(ids, Some(c)) == ids.skip(p),
    decreases ids.len(),
{
    if ids.len() == 0 {
        assert(ids.skip(p) =~= Seq::<i64>::empty());
    } else {
        let n = ids.len() as int;
        let rest = ids.drop_last();
        if p == n {
            lemma_rows_below_suffix(rest, c, n - 1);
            assert(rest.skip(n - 1) =~= Seq::<i64>::empty());
            assert(ids.skip(p) =~= Seq::<i64>::empty());
        } else {
            lemma_rows_below_suffix(rest, c, p);
            assert(ids.skip(p) =~= rest.skip(p).push(ids.last()));
        }
    }
}

proof fn lemma_pages_from(ids: Seq<i64>, p: int, limit: usize, steps: nat)
    requires
        forall|i: int, j: int| 0 <= i < j < ids.len() ==> ids[i] > ids[j],
        ids.len() <= usize::MAX,
        limit >= 1,
        0 <= p <= ids.len(),
        steps >= ids.len() - p,
    ensures
        listed_pages(ids, if p == 0 {
            None
        } else {
            Some(ids[p - 1])
        }, limit, steps) == (ids.skip(p), true),
    decreases ids.len() - p,
{
    let cursor = if p == 0 {
        None
    } else {
        Some(ids[p - 1])
    };
    if p == 0 {
        assert(ids.skip(0) =~= ids);
    } else {
        lemma_rows_below_suffix(ids, ids[p - 1], p);
    }
    let rows = rows_below(ids, cursor);
    assert(rows == ids.skip(p));
    let fetched = fetched_rows(ids, cursor, limit);
    let cut = page_cut_of(fetched, limit);
    if !cut.has_more {
        assert(fetched == rows);
        assert(fetched.take(cut.keep as int) =~= rows);
    } else {
        assert(fetched.len() == limit + 1);
        assert(cut.keep == limit);
        assert(fetched[limit - 1] == ids[p + limit - 1]);
        let np = p + limit;
        assert(steps >= 1);
        lemma_pages_from(ids, np, limit, (steps - 1) as nat);
        assert(fetched.take(cut.keep as int) =~= ids.skip(p).take(limit as int));
        assert(ids.skip(p).take(limit as int) + ids.skip(np) =~= ids.skip(p));
    }
}

/// Paging through the whole list ends and lists every matching row exactly
/// once, in order: when the matching rows come by strictly descending id,
/// starting without a cursor and following each page's next cursor while
/// more follow, the pages read, one after another, are exactly the matching
/// rows, and the last page says that no more follow; as many pages as rows
/// are always enough.
pub proof fn law_paging_lists_every_row_once(ids: Seq<i64>, limit: usize)
    requires
        forall|i: int, j: int| 0 <= i < j < ids.len() ==> ids[i] > ids[j],
        ids.len() <= usize::MAX,
        limit >= 1,
    ensures
        listed_pages(ids, None, limit, ids.len()) == (ids, true),
{
    lemma_pages_from(ids, 0, limit, ids.len());
    assert(ids.skip(0) =~= ids);
}

/// The count query of a listing does not depend on the cursor or the page
/// size, so every page of one listing reports the same total.
pub proof fn law_count_ignores_paging(
    search: Option<&str>,
    filter: Option<&str>,
    limit1: usize,
    cursor1: Option<i64>,
    limit2: usize,
    cursor2: Option<i64>,
)
    ensures
        page_query_view(search, filter, limit1, cursor1).0 == page_query_view(
            search,
            filter,
            limit2,
            cursor2,
        ).0,
        page_query_view(search, filter, limit1, cursor1).1 == page_query_view(
            search,
            filter,
            limit2,
            cursor2,
        ).1,
{
}

/// Cuts a fetched page whose rows have the ids `ids`, in order.
pub fn cut_page(ids: &Vec<i64>, limit: usize) -> (c: PageCut)
    ensures
        c == page_cut_of(ids@, limit),
{
    let has_more = ids.len() > limit;
    let keep = if has_more {
        limit
    } else {
        ids.len()
    };
    let next_cursor = if has_more && keep > 0 {
        Some(ids[keep - 1])
    } else {
        None
    };
    PageCut { keep, has_more, next_cursor }
}

} // verus!
