//! The decisions of a walk over directories in search of repositories: which
//! entries are repositories, which are walked into, and the list of found
//! repositories, which never holds one path twice.
use vstd::prelude::*;

use super::paths::{file_name, path_file_name};
use crate::text::opt_view;

verus! {

/// A repository found on disk.
#[derive(Debug, Clone)]
pub struct Repo {
    pub name: String,
    pub path: String,
}

impl View for Repo {
    type V = (Seq<char>, Seq<char>);

    open spec fn view(&self) -> (Seq<char>, Seq<char>) {
        (self.name@, self.path@)
    }
}

/// What the walk does with one directory entry.
#[derive(Debug, Clone, Copy, PartialEq, Eq, Structural)]
pub enum EntryAction {
    /// Not a directory: nothing to do.
    Skip,
    /// A directory holding a `.git` directory: a repository, not walked into.
    Record,
    /// Any other directory: walked into.
    Descend,
}

/// The action for an entry, from whether it is a directory and whether it
/// holds a `.git` directory.
pub open spec fn entry_action(is_dir: bool, has_git_dir: bool) -> EntryAction {
    if !is_dir {
        EntryAction::Skip
    } else if has_git_dir {
        EntryAction::Record
    } else {
        EntryAction::Descend
    }
}

/// The name a found repository gets from the last component of its path,
/// or nothing where the path has none.
pub open spec fn repo_name_from(name: Option<Seq<char>>) -> Seq<char> {
    match name {
        Some(n) => n,
        None => Seq::empty(),
    }
}

/// The name a found repository gets: the last component of its path, or
/// nothing where the path has none.
pub open spec fn repo_name_of(path: Seq<char>) -> Seq<char> {
    repo_name_from(path_file_name(path))
}

/// Whether a path is among the paths of found repositories.
pub open spec fn has_path(repos: Seq<(Seq<char>, Seq<char>)>, path: Seq<char>) -> bool {
    exists|i: int| 0 <= i < repos.len() && (#[trigger] repos[i]).1 == path
}

/// No two found repositories share a path.
pub open spec fn distinct_paths(repos: Seq<(Seq<char>, Seq<char>)>) -> bool {
    forall|i: int, j: int|
        0 <= i < repos.len() && 0 <= j < repos.len() && i != j ==> (#[trigger] repos[i]).1 != (
        #[trigger] repos[j]).1
}

/// Once a repository is recorded, its path is known: visiting it again
/// records nothing more.
pub proof fn law_recorded_path_is_known(
    repos: Seq<(Seq<char>, Seq<char>)>,
    name: Seq<char>,
    path: Seq<char>,
)
    ensures
        has_path(repos.push((name, path)), path),
{
    assert(repos.push((name, path))[repos.len() as int].1 == path);
}

/// The repositories found so far by a walk.
pub struct RepoScan {
    repos: Vec<Repo>,
}

impl View for RepoScan {
    type V = Seq<(Seq<char>, Seq<char>)>;

    closed spec fn view(&self) -> Seq<(Seq<char>, Seq<char>)> {
        self.repos@.map_values(|r: Repo| r@)
    }
}

impl RepoScan {
    /// The found repositories never repeat a path.
    #[verifier::type_invariant]
    closed spec fn no_repeated_path(&self) -> bool {
        distinct_paths(self@)
    }

    /// A walk that has found nothing yet.
    pub fn new() -> (s: RepoScan)
        ensures
            s@ == Seq::<(Seq<char>, Seq<char>)>::empty(),
    {
        let s = RepoScan { repos: Vec::new() };
        assert(s@ =~= Seq::<(Seq<char>, Seq<char>)>::empty());
        s
    }

    /// Whether a repository with this path was found already.
    pub fn contains_path(&self, path: &str) -> (b: bool)
        ensures
            b == has_path(self@, path@),
    {
        let p = path.to_owned();
        let mut i: usize = 0;
        while i < self.repos.len()
            invariant
                i <= self.repos@.len(),
                p@ == path@,
                forall|j: int| 0 <= j < i ==> (#[trigger] self@[j]).1 != path@,
            decreases self.repos.len() - i,
        {
            if self.repos[i].path == p {
                assert(self@[i as int].1 == path@);
                return true;
            }
            i = i + 1;
        }
        false
    }

    /// Takes one directory entry of the walk: reports what to do with it and,
    /// for a repository whose path was not found before, records it under
    /// the last component of its path.
    pub fn visit_entry(&mut self, path: String, is_dir: bool, has_git_dir: bool) -> (a:
        EntryAction)
        ensures
            a == entry_action(is_dir, has_git_dir),
            final(self)@ == (if a == EntryAction::Record && !has_path(old(self)@, path@) {
                old(self)@.push((repo_name_of(path@), path@))
            } else {
                old(self)@
            }),
    {
        if !is_dir {
            return EntryAction::Skip;
        }
        if !has_git_dir {
            return EntryAction::Descend;
        }
        let name = file_name(path.as_str());
        self.record_named(path, name);
        EntryAction::Record
    }

    /// Records the repository at `path`, whose last component is `name`,
    /// unless a repository with this path was found before.
    pub fn record_named(&mut self, path: String, name: Option<String>)
        ensures
            final(self)@ == (if !has_path(old(self)@, path@) {
                old(self)@.push((repo_name_from(opt_view(name)), path@))
            } else {
                old(self)@
            }),
    {
        if !self.contains_path(path.as_str()) {
            let name = match name {
                Some(n) => n,
                None => String::new(),
            };
            proof {
                use_type_invariant(&*self);
            }
            let ghost before = self@;
            let repo = Repo { name, path };
            proof {
                let after = before.push(repo@);
                assert forall|i: int, j: int|
                    0 <= i < after.len() && 0 <= j < after.len() && i != j implies (
                    #[trigger] after[i]).1 != (#[trigger] after[j]).1 by {
                    if i == before.len() {
                        assert(after[j] == before[j]);
                    } else if j == before.len() {
                        assert(after[i] == before[i]);
                    }
                }
            }
            self.push_repo(repo);
        }
    }

    fn push_repo(&mut self, repo: Repo)
        requires
            distinct_paths(old(self)@.push(repo@)),
        ensures
            final(self)@ == old(self)@.push(repo@),
    {
        let ghost before = self@;
        let mut repos: Vec<Repo> = Vec::new();
        std::mem::swap(&mut repos, &mut self.repos);
        repos.push(repo);
        assert(repos@.map_values(|x: Repo| x@) =~= before.push(repo@));
        self.repos = repos;
    }

    /// The found repositories, in the order found.
    pub fn finish(self) -> (r: Result<Vec<Repo>, String>)
        ensures
            r matches Ok(v) && v@.map_values(|x: Repo| x@) == self@,
    {
        Ok(self.repos)
    }
}

} // verus!
