//! Decisions around reading branches from Git.
use vstd::prelude::*;

use super::NewBranch;

verus! {

/// What looking a branch up in Git found.
#[derive(Debug)]
pub enum BranchLookup {
    Found,
    NotFound,
    Failed(String),
}

/// A branch as Git lists it; its name is absent when it is not valid UTF-8.
#[derive(Debug)]
pub struct ListedBranch {
    pub name: Option<String>,
    pub is_head: bool,
}

/// Whether a branch exists: a branch that Git does not find does not exist;
/// any other failure is reported with the branch's name.
pub fn branch_exists_result(lookup: BranchLookup, branch_name: &str) -> (r: Result<bool, String>)
    ensures
        lookup is Found ==> r == Ok::<bool, String>(true),
        lookup is NotFound ==> r == Ok::<bool, String>(false),
        lookup matches BranchLookup::Failed(e) ==> (r matches Err(m) && m@ == "Failed to check branch '"@
            + branch_name@ + "': "@ + e@),
{
    match lookup {
        BranchLookup::Found => Ok(true),
        BranchLookup::NotFound => Ok(false),
        BranchLookup::Failed(e) => {
            let mut m = "Failed to check branch '".to_owned();
            m.append(branch_name);
            m.append("': ");
            m.append(e.as_str());
            Err(m)
        },
    }
}

/// The named branches, in Git's order; a branch without a readable name is left out.
pub open spec fn named(listed: Seq<ListedBranch>) -> Seq<(Seq<char>, bool)>
    decreases listed.len(),
{
    if listed.len() == 0 {
        seq![]
    } else {
        match listed.last().name {
            Some(n) => named(listed.drop_last()).push((n@, listed.last().is_head)),
            None => named(listed.drop_last()),
        }
    }
}

/// A listed branch as its name and head flag, where it has a name.
pub open spec fn name_and_head(b: ListedBranch) -> Option<(Seq<char>, bool)> {
    match b.name {
        Some(n) => Some((n@, b.is_head)),
        None => None,
    }
}

/// The branches kept are the listed branches that have a name, in Git's
/// order, each with its own name and its own head flag: a branch is marked
/// as checked out exactly when Git lists it so.
pub proof fn law_named_keeps_name_and_head(listed: Seq<ListedBranch>)
    ensures
        named(listed) == listed.filter_map(|b: ListedBranch| name_and_head(b)),
    decreases listed.len(),
{
    if listed.len() > 0 {
        law_named_keeps_name_and_head(listed.drop_last());
        match listed.last().name {
            Some(n) => {
                assert(named(listed.drop_last()).push((n@, listed.last().is_head)) =~= named(
                    listed.drop_last(),
                ) + seq![(n@, listed.last().is_head)]);
            },
            None => {},
        }
    }
}

/// Keeps the branches that have a name.
pub fn named_branches(listed: Vec<ListedBranch>) -> (out: Vec<NewBranch>)
    ensures
        out@.map_values(|b: NewBranch| (b.name@, b.is_head)) == named(listed@),
        out@.map_values(|b: NewBranch| (b.name@, b.is_head)) == listed@.filter_map(
            |b: ListedBranch| name_and_head(b),
        ),
{
    let mut out: Vec<NewBranch> = Vec::new();
    let mut i: usize = 0;
    assert(listed@.take(0) =~= Seq::<ListedBranch>::empty());
    assert(out@.map_values(|b: NewBranch| (b.name@, b.is_head)) =~= seq![]);
    while i < listed.len()
        invariant
            i <= listed.len(),
            out@.map_values(|b: NewBranch| (b.name@, b.is_head)) == named(listed@.take(i as int)),
        decreases listed.len() - i,
    {
        let b = &listed[i];
        assert(listed@.take(i + 1).drop_last() =~= listed@.take(i as int));
        assert(listed@.take(i + 1).last() == *b);
        let ghost before = out@.map_values(|b: NewBranch| (b.name@, b.is_head));
        match &b.name {
            Some(n) => {
                out.push(NewBranch { name: n.clone(), is_head: b.is_head });
                assert(out@.map_values(|b: NewBranch| (b.name@, b.is_head)) =~= before.push(
                    (n@, b.is_head),
                ));
            },
            None => {},
        }
        i = i + 1;
    }
    assert(listed@.take(listed.len() as int) =~= listed@);
    proof {
        law_named_keeps_name_and_head(listed@);
    }
    out
}

} // verus!
