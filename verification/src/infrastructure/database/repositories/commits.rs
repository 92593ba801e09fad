//! Shaping of commit graph rows.
use vstd::prelude::*;

use crate::text::{
    chars_of, law_runs_are_clean, runs, split_runs, string_from_chars, string_views, views,
    Separator,
};

verus! {

/// The items of a comma-separated list as the graph query aggregates it,
/// empty items left out; an absent list has none.
pub open spec fn list_items(list: Option<Seq<char>>) -> Seq<Seq<char>> {
    match list {
        Some(s) => runs(s, Separator::Char(',')),
        None => Seq::empty(),
    }
}

/// Every item of an aggregated list is non-empty and holds no comma.
pub proof fn law_list_items_are_clean(list: Option<Seq<char>>)
    ensures
        forall|i: int|
            0 <= i < list_items(list).len() ==> (#[trigger] list_items(list)[i]).len() > 0
                && !list_items(list)[i].contains(','),
{
    if let Some(s) = list {
        law_runs_are_clean(s, Separator::Char(','));
        assert forall|i: int| 0 <= i < list_items(list).len() implies (#[trigger] list_items(
            list,
        )[i]).len() > 0 && !list_items(list)[i].contains(',') by {
            let item = list_items(list)[i];
            if item.contains(',') {
                let k = choose|k: int| 0 <= k < item.len() && item[k] == ',';
                assert(!crate::text::separates(Separator::Char(','), runs(s, Separator::Char(','))[i][k]));
            }
        }
    }
}

/// Splits an aggregated, comma-separated list (branch names or parent
/// hashes) into its non-empty items, in order.
pub fn split_aggregated_list(list: Option<String>) -> (items: Vec<String>)
    ensures
        string_views(items@) == list_items(match list {
            Some(s) => Some(s@),
            None => None,
        }),
{
    match list {
        None => Vec::new(),
        Some(s) => {
            let cs = chars_of(s.as_str());
            let parts = split_runs(&cs, Separator::Char(','));
            let mut out: Vec<String> = Vec::new();
            let mut i: usize = 0;
            while i < parts.len()
                invariant
                    i <= parts.len(),
                    out.len() == i,
                    views(parts@) == runs(s@, Separator::Char(',')),
                    string_views(out@) == views(parts@).take(i as int),
                decreases parts.len() - i,
            {
                let item = string_from_chars(&parts[i]);
                out.push(item);
                proof {
                    assert(views(parts@)[i as int] == parts@[i as int]@);
                    assert(string_views(out@) =~= views(parts@).take(i as int + 1));
                }
                i = i + 1;
            }
            proof {
                assert(views(parts@).take(i as int) =~= views(parts@));
            }
            out
        },
    }
}

} // verus!
