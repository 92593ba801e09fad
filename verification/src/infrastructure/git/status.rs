//! Summarizing the working-tree status of a repository: which paths are new,
//! modified, deleted or renamed.
use vstd::prelude::*;

use super::WorkingTreeStatus;

verus! {

/// The old and new path Git reports for a working-tree rename; a path is
/// absent when Git does not report it.
#[derive(Debug, Clone)]
pub struct RenamePaths {
    pub old_path: Option<String>,
    pub new_path: Option<String>,
}

/// One entry of Git's status list: its working-tree flags, its rename
/// details (absent when Git gives none), and its path (or Git's error text).
#[derive(Debug)]
pub struct StatusEntry {
    pub wt_renamed: bool,
    pub wt_new: bool,
    pub wt_deleted: bool,
    pub wt_modified: bool,
    pub rename: Option<RenamePaths>,
    pub path: Result<String, String>,
}

/// What one status entry contributes.
pub enum EntryOutcome {
    Failed(Seq<char>),
    Renamed(Seq<char>, Seq<char>),
    Added(Seq<char>),
    Deleted(Seq<char>),
    Modified(Seq<char>),
    Skipped,
}

/// The contribution of an entry: a rename needs its details and both paths;
/// otherwise the entry needs its path, and counts as new, else deleted, else
/// modified, else not at all.
pub open spec fn outcome(e: StatusEntry) -> EntryOutcome {
    if e.wt_renamed {
        match e.rename {
            None => EntryOutcome::Failed(
                "Git reported a working-tree rename without rename details"@,
            ),
            Some(r) => match r.old_path {
                None => EntryOutcome::Failed("Git reported a rename without an old path"@),
                Some(o) => match r.new_path {
                    None => EntryOutcome::Failed("Git reported a rename without a new path"@),
                    Some(n) => EntryOutcome::Renamed(o@, n@),
                },
            },
        }
    } else {
        match e.path {
            Err(m) => EntryOutcome::Failed("Failed to read status path: "@ + m@),
            Ok(p) => if e.wt_new {
                EntryOutcome::Added(p@)
            } else if e.wt_deleted {
                EntryOutcome::Deleted(p@)
            } else if e.wt_modified {
                EntryOutcome::Modified(p@)
            } else {
                EntryOutcome::Skipped
            },
        }
    }
}

/// The abstract content of a working-tree summary.
pub struct StatusView {
    pub added: Seq<Seq<char>>,
    pub modified: Seq<Seq<char>>,
    pub deleted: Seq<Seq<char>>,
    pub renamed: Seq<(Seq<char>, Seq<char>)>,
}

/// The summary of the entries, in order; the first entry that fails makes the
/// whole summary fail with its message.
pub open spec fn summarize(es: Seq<StatusEntry>) -> Result<StatusView, Seq<char>>
    decreases es.len(),
{
    if es.len() == 0 {
        Ok(StatusView { added: seq![], modified: seq![], deleted: seq![], renamed: seq![] })
    } else {
        match summarize(es.drop_last()) {
            Err(m) => Err(m),
            Ok(v) => match outcome(es.last()) {
                EntryOutcome::Failed(m) => Err(m),
                EntryOutcome::Renamed(o, n) => Ok(StatusView { renamed: v.renamed.push((o, n)), ..v }),
                EntryOutcome::Added(p) => Ok(StatusView { added: v.added.push(p), ..v }),
                EntryOutcome::Deleted(p) => Ok(StatusView { deleted: v.deleted.push(p), ..v }),
                EntryOutcome::Modified(p) => Ok(StatusView { modified: v.modified.push(p), ..v }),
                EntryOutcome::Skipped => Ok(v),
            },
        }
    }
}

/// The abstract content of a working-tree status.
pub open spec fn status_view(s: WorkingTreeStatus) -> StatusView {
    StatusView {
        added: crate::text::string_views(s.added@),
        modified: crate::text::string_views(s.modified@),
        deleted: crate::text::string_views(s.deleted@),
        renamed: s.renamed@.map_values(|p: (String, String)| (p.0@, p.1@)),
    }
}

fn failure(prefix: &str, detail: &str) -> (s: String)
    ensures
        s@ == prefix@ + detail@,
{
    let mut s = prefix.to_owned();
    s.append(detail);
    s
}

/// The first failing entry decides: once the entries up to some point fail,
/// the whole summary fails with the same message, whatever follows.
pub proof fn law_first_failure_decides(es: Seq<StatusEntry>, k: int, m: Seq<char>)
    requires
        0 <= k <= es.len(),
        summarize(es.take(k)) == Err::<StatusView, Seq<char>>(m),
    ensures
        summarize(es) == Err::<StatusView, Seq<char>>(m),
    decreases es.len(),
{
    if k == es.len() {
        assert(es.take(k) =~= es);
    } else {
        assert(es.take(k) =~= es.drop_last().take(k));
        law_first_failure_decides(es.drop_last(), k, m);
    }
}

/// Each entry lands in at most one list of a summary: the lists together
/// hold no more paths than there are entries.
pub proof fn law_summary_size(es: Seq<StatusEntry>)
    ensures
        summarize(es) matches Ok(v) ==> v.added.len() + v.modified.len() + v.deleted.len()
            + v.renamed.len() <= es.len(),
    decreases es.len(),
{
    if es.len() > 0 {
        law_summary_size(es.drop_last());
    }
}

/// Summarizes Git's status entries of a working tree.
pub fn summarize_statuses(entries: &Vec<StatusEntry>) -> (r: Result<WorkingTreeStatus, String>)
    ensures
        match summarize(entries@) {
            Ok(v) => r matches Ok(s) && status_view(s) == v,
            Err(m) => r matches Err(e) && e@ == m,
        },
{
    let mut st = WorkingTreeStatus {
        added: Vec::new(),
        modified: Vec::new(),
        deleted: Vec::new(),
        renamed: Vec::new(),
    };
    let mut i: usize = 0;
    assert(entries@.take(0) =~= Seq::<StatusEntry>::empty());
    assert(status_view(st).added =~= seq![]);
    assert(status_view(st).modified =~= seq![]);
    assert(status_view(st).deleted =~= seq![]);
    assert(status_view(st).renamed =~= seq![]);
    while i < entries.len()
        invariant
            i <= entries.len(),
            summarize(entries@.take(i as int)) == Ok::<StatusView, Seq<char>>(status_view(st)),
        decreases entries.len() - i,
    {
        let e = &entries[i];
        let ghost v = status_view(st);
        assert(entries@.take(i + 1).drop_last() =~= entries@.take(i as int));
        assert(entries@.take(i + 1).last() == *e);
        if e.wt_renamed {
            match &e.rename {
                None => {
                    proof {
                        law_first_failure_decides(entries@, i + 1, "Git reported a working-tree rename without rename details"@);
                    }
                    return Err(
                        "Git reported a working-tree rename without rename details".to_owned(),
                    );
                },
                Some(r) => match (&r.old_path, &r.new_path) {
                    (None, _) => {
                        proof {
                            law_first_failure_decides(entries@, i + 1, "Git reported a rename without an old path"@);
                        }
                        return Err("Git reported a rename without an old path".to_owned());
                    },
                    (Some(_), None) => {
                        proof {
                            law_first_failure_decides(entries@, i + 1, "Git reported a rename without a new path"@);
                        }
                        return Err("Git reported a rename without a new path".to_owned());
                    },
                    (Some(o), Some(n)) => {
                        st.renamed.push((o.clone(), n.clone()));
                        assert(status_view(st).renamed =~= v.renamed.push((o@, n@)));
                    },
                },
            }
        } else {
            match &e.path {
                Err(m) => {
                    proof {
                        law_first_failure_decides(entries@, i + 1, "Failed to read status path: "@ + m@);
                    }
                    return Err(failure("Failed to read status path: ", m.as_str()));
                },
                Ok(p) => {
                    if e.wt_new {
                        st.added.push(p.clone());
                        assert(status_view(st).added =~= v.added.push(p@));
                    } else if e.wt_deleted {
                        st.deleted.push(p.clone());
                        assert(status_view(st).deleted =~= v.deleted.push(p@));
                    } else if e.wt_modified {
                        st.modified.push(p.clone());
                        assert(status_view(st).modified =~= v.modified.push(p@));
                    }
                },
            }
        }
        assert(summarize(entries@.take(i + 1)) == Ok::<StatusView, Seq<char>>(status_view(st)));
        i = i + 1;
    }
    assert(entries@.take(entries.len() as int) =~= entries@);
    Ok(st)
}

} // verus!
