//! Search results as the user interface receives them.
use vstd::prelude::*;

use crate::infrastructure::database::models::SearchHit;

verus! {

/// One search hit.
#[derive(Debug, Clone)]
pub struct SearchHitResponse {
    pub repo_id: i64,
    pub repo_name: String,
    pub entity_type: String,
    pub entity_id: i64,
    pub title: String,
    pub body: String,
}

impl SearchHitResponse {
    /// Carries a search hit over unchanged.
    pub fn from_hit(hit: SearchHit) -> (r: Self)
        ensures
            r == (SearchHitResponse {
                repo_id: hit.repo_id,
                repo_name: hit.repo_name,
                entity_type: hit.entity_type,
                entity_id: hit.entity_id,
                title: hit.title,
                body: hit.body,
            }),
    {
        SearchHitResponse {
            repo_id: hit.repo_id,
            repo_name: hit.repo_name,
            entity_type: hit.entity_type,
            entity_id: hit.entity_id,
            title: hit.title,
            body: hit.body,
        }
    }
}

/// The answer to a search: the query, its hits in order, and their number.
#[derive(Debug, Clone)]
pub struct SearchResponse {
    pub query: String,
    pub items: Vec<SearchHitResponse>,
    pub total_count: usize,
}

/// The view of a search hit, field by field.
pub open spec fn hit_response_of(hit: SearchHit) -> SearchHitResponse {
    SearchHitResponse {
        repo_id: hit.repo_id,
        repo_name: hit.repo_name,
        entity_type: hit.entity_type,
        entity_id: hit.entity_id,
        title: hit.title,
        body: hit.body,
    }
}

impl SearchResponse {
    /// The answer to `query`: every hit, in the order found, and how many
    /// there are.
    pub fn from_hits(query: String, hits: Vec<SearchHit>) -> (r: Self)
        ensures
            r.query == query,
            r.total_count == hits@.len(),
            r.items@ == hits@.map_values(|h: SearchHit| hit_response_of(h)),
            r.items@.len() == hits@.len(),
            forall|i: int|
                0 <= i < hits@.len() ==> {
                    let item = #[trigger] r.items@[i];
                    let hit = hits@[i];
                    &&& item.repo_id == hit.repo_id
                    &&& item.repo_name == hit.repo_name
                    &&& item.entity_type == hit.entity_type
                    &&& item.entity_id == hit.entity_id
                    &&& item.title == hit.title
                    &&& item.body == hit.body
                },
    {
        let total_count = hits.len();
        let mut items: Vec<SearchHitResponse> = Vec::new();
        let mut i: usize = 0;
        while i < hits.len()
            invariant
                i <= hits@.len(),
                items@ == hits@.take(i as int).map_values(|h: SearchHit| hit_response_of(h)),
            decreases hits.len() - i,
        {
            let h = &hits[i];
            items.push(
                SearchHitResponse {
                    repo_id: h.repo_id,
                    repo_name: h.repo_name.clone(),
                    entity_type: h.entity_type.clone(),
                    entity_id: h.entity_id,
                    title: h.title.clone(),
                    body: h.body.clone(),
                },
            );
            proof {
                assert(hits@.take(i as int + 1) =~= hits@.take(i as int).push(hits@[i as int]));
                assert(items@ =~= hits@.take(i as int + 1).map_values(
                    |h: SearchHit| hit_response_of(h),
                ));
            }
            i = i + 1;
        }
        proof {
            assert(hits@.take(i as int) =~= hits@);
        }
        SearchResponse { query, items, total_count }
    }
}

} // verus!
