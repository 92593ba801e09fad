//! Paging through the commit history walk.
use vstd::prelude::*;

verus! {

/// What to do with the next commit of the history walk.
#[derive(Debug, Clone, Copy, PartialEq, Eq, Structural)]
pub enum WalkStep {
    Skip,
    Take,
    Stop,
}

/// The step for the commit at `index` of the walk, when `collected` nodes
/// have been taken: commits before `skip` are skipped, and the walk stops
/// once `node_count` nodes are taken.
pub open spec fn walk_step(index: usize, collected: usize, skip: usize, node_count: usize) -> WalkStep {
    if index < skip {
        WalkStep::Skip
    } else if collected >= node_count {
        WalkStep::Stop
    } else {
        WalkStep::Take
    }
}

/// Decides about the commit at `index` of the history walk.
pub fn revwalk_step(index: usize, collected: usize, skip: usize, node_count: usize) -> (s: WalkStep)
    ensures
        s == walk_step(index, collected, skip, node_count),
{
    if index < skip {
        WalkStep::Skip
    } else if collected >= node_count {
        WalkStep::Stop
    } else {
        WalkStep::Take
    }
}

/// How many nodes the walk has collected when it reaches the commit at
/// `index`: none before `skip`, then one per commit, up to `node_count`.
pub open spec fn collected_before(index: int, skip: int, node_count: int) -> int {
    if index <= skip {
        0
    } else if index - skip < node_count {
        index - skip
    } else {
        node_count
    }
}

/// The walk takes exactly the commits at positions `skip` up to (not
/// including) `skip + node_count`: reaching the commit at `index` with the
/// nodes collected so far, it skips it before `skip`, takes it inside that
/// window, and stops at the first position past the window; each commit
/// taken adds one node.
pub proof fn law_walk_window(index: usize, skip: usize, node_count: usize)
    ensures
        ({
            let collected = collected_before(index as int, skip as int, node_count as int);
            let step = walk_step(index, collected as usize, skip, node_count);
            &&& 0 <= collected <= node_count
            &&& (step == WalkStep::Skip <==> index < skip)
            &&& (step == WalkStep::Take <==> skip <= index < skip + node_count)
            &&& (step == WalkStep::Stop <==> skip + node_count <= index)
            &&& collected_before(index + 1, skip as int, node_count as int) == collected + (if step
                == WalkStep::Take {
                1int
            } else {
                0int
            })
        }),
{
}

} // verus!
