//! Parent links of commits: their numbering and the graph data read back.
use vstd::prelude::*;

use super::query::{limit_text, push_limit};
use crate::text::{chars_of, pieces, split_pieces, string_from_chars, string_views, views};

verus! {

/// The parent links of a commit: each parent hash with its position among
/// the parents, as an `i32`.
pub open spec fn parent_links_of(parent_hashes: Seq<String>) -> Seq<(Seq<char>, i32)> {
    Seq::new(parent_hashes.len(), |i: int| (parent_hashes[i]@, i as i32))
}

/// Numbers the parents of a commit in order, from zero.
pub fn parent_links(parent_hashes: &Vec<String>) -> (links: Vec<(String, i32)>)
    ensures
        links@.map_values(|l: (String, i32)| (l.0@, l.1)) == parent_links_of(parent_hashes@),
{
    let mut links: Vec<(String, i32)> = Vec::new();
    let mut i: usize = 0;
    while i < parent_hashes.len()
        invariant
            i <= parent_hashes@.len(),
            links@.map_values(|l: (String, i32)| (l.0@, l.1)) == parent_links_of(
                parent_hashes@,
            ).take(i as int),
        decreases parent_hashes.len() - i,
    {
        let ghost before = links@.map_values(|l: (String, i32)| (l.0@, l.1));
        links.push((parent_hashes[i].clone(), i as i32));
        assert(links@.map_values(|l: (String, i32)| (l.0@, l.1)) =~= before.push(
            (parent_hashes@[i as int]@, i as i32),
        ));
        assert(parent_links_of(parent_hashes@).take(i + 1) =~= parent_links_of(
            parent_hashes@,
        ).take(i as int).push((parent_hashes@[i as int]@, i as i32)));
        i = i + 1;
    }
    assert(parent_links_of(parent_hashes@).take(i as int) =~= parent_links_of(parent_hashes@));
    links
}

/// The parent hashes of a graph row: every piece of the comma-separated
/// list, empty ones included; none without a list.
pub open spec fn parent_pieces(csv: Option<Seq<char>>) -> Seq<Seq<char>> {
    match csv {
        Some(s) => pieces(s, ','),
        None => Seq::empty(),
    }
}

/// Splits the comma-separated parent list of a graph row.
pub fn split_parent_list(csv: Option<String>) -> (parents: Vec<String>)
    ensures
        string_views(parents@) == parent_pieces(match csv {
            Some(s) => Some(s@),
            None => None,
        }),
{
    match csv {
        None => Vec::new(),
        Some(s) => {
            let ps = split_pieces(&chars_of(s.as_str()), ',');
            let mut out: Vec<String> = Vec::new();
            let mut i: usize = 0;
            while i < ps.len()
                invariant
                    i <= ps@.len(),
                    out@.len() == i,
                    views(ps@) == pieces(s@, ','),
                    string_views(out@) == views(ps@).take(i as int),
                decreases ps.len() - i,
            {
                out.push(string_from_chars(&ps[i]));
                assert(views(ps@)[i as int] == ps@[i as int]@);
                assert(string_views(out@) =~= views(ps@).take(i as int + 1));
                i = i + 1;
            }
            assert(views(ps@).take(i as int) =~= views(ps@));
            out
        },
    }
}

/// The commits of a repository with their parents aggregated.
pub open spec fn graph_data_select() -> Seq<char> {
    "SELECT DISTINCT cp.commit_hash, GROUP_CONCAT(cp.parent_hash, ',') \n                   FROM commit_parents cp \n                   WHERE cp.repo_id = ?1 \n                   GROUP BY cp.commit_hash"@
}

/// The query for the commit graph data of a repository, capped at `limit`
/// rows.
pub fn commit_graph_data_query(limit: Option<i32>) -> (sql: String)
    ensures
        sql@ == graph_data_select() + limit_text(limit),
{
    let mut sql = "SELECT DISTINCT cp.commit_hash, GROUP_CONCAT(cp.parent_hash, ',') \n                   FROM commit_parents cp \n                   WHERE cp.repo_id = ?1 \n                   GROUP BY cp.commit_hash".to_owned();
    push_limit(&mut sql, limit);
    sql
}

/// The commits of a repository, oldest first.
pub open spec fn commits_with_parents_select() -> Seq<char> {
    "SELECT c.id, c.repo_id, c.hash, c.author_name, c.author_email, c.committer_name, c.committer_email, \n                          c.subject, c.body, c.parent_count, c.committed_at, c.inserted_at \n                   FROM commits c \n                   WHERE c.repo_id = ?1 \n                   ORDER BY c.committed_at ASC"@
}

/// The query for the commits of a repository, oldest first, capped at
/// `limit` rows; their parents are read one commit at a time.
pub fn commits_with_parents_query(limit: Option<i32>) -> (sql: String)
    ensures
        sql@ == commits_with_parents_select() + limit_text(limit),
{
    let mut sql = "SELECT c.id, c.repo_id, c.hash, c.author_name, c.author_email, c.committer_name, c.committer_email, \n                          c.subject, c.body, c.parent_count, c.committed_at, c.inserted_at \n                   FROM commits c \n                   WHERE c.repo_id = ?1 \n                   ORDER BY c.committed_at ASC".to_owned();
    push_limit(&mut sql, limit);
    sql
}

} // verus!
