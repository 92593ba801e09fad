//! Registration of a repository directory that is not stored yet.
use vstd::prelude::*;

use super::paths::{file_name, git_dir_of, join_git_dir, path_file_name};
use crate::text::{opt_view, string_views};

verus! {

/// Keeps one repository directory registered in the database.
#[derive(Debug, Clone)]
pub struct RepositorySync {
    pub repo_path: String,
}

/// The fields of a repository to be stored.
#[derive(Debug, Clone)]
pub struct NewRepositoryRecord {
    pub name: String,
    pub path: String,
    pub git_dir_path: String,
}

/// The name a registered repository gets from the last component of its
/// path, or "Unknown" where the path has none.
pub open spec fn registered_name_from(name: Option<Seq<char>>) -> Seq<char> {
    match name {
        Some(n) => n,
        None => "Unknown"@,
    }
}

/// The name a registered repository gets: the last component of its path,
/// or "Unknown" where the path has none.
pub open spec fn registered_name(path: Seq<char>) -> Seq<char> {
    registered_name_from(path_file_name(path))
}

impl RepositorySync {
    /// Keeps the directory at `repo_path` registered.
    pub fn new(repo_path: String) -> (s: Self)
        ensures
            s.repo_path == repo_path,
    {
        RepositorySync { repo_path }
    }

    /// The repository to store, or nothing when a stored repository already
    /// has this path; `name` is the last component of the path.
    pub fn registration_named(&self, stored_paths: &Vec<String>, name: Option<String>) -> (r: Option<
        NewRepositoryRecord,
    >)
        ensures
            string_views(stored_paths@).contains(self.repo_path@) ==> r is None,
            !string_views(stored_paths@).contains(self.repo_path@) ==> (r matches Some(rec)
                && rec.name@ == registered_name_from(opt_view(name)) && rec.path@
                == self.repo_path@ && rec.git_dir_path@ == git_dir_of(self.repo_path@)),
    {
        let mut i: usize = 0;
        while i < stored_paths.len()
            invariant
                i <= stored_paths@.len(),
                forall|j: int| 0 <= j < i ==> (#[trigger] stored_paths@[j])@ != self.repo_path@,
            decreases stored_paths.len() - i,
        {
            if stored_paths[i] == self.repo_path {
                assert(string_views(stored_paths@)[i as int] == self.repo_path@);
                return None;
            }
            i = i + 1;
        }
        assert(!string_views(stored_paths@).contains(self.repo_path@)) by {
            if string_views(stored_paths@).contains(self.repo_path@) {
                let k = choose|k: int|
                    0 <= k < string_views(stored_paths@).len() && string_views(stored_paths@)[k]
                        == self.repo_path@;
                assert(stored_paths@[k]@ == self.repo_path@);
            }
        }
        let name = match name {
            Some(n) => n,
            None => "Unknown".to_owned(),
        };
        Some(
            NewRepositoryRecord {
                name,
                path: self.repo_path.clone(),
                git_dir_path: join_git_dir(self.repo_path.as_str()),
            },
        )
    }

    /// The repository to store, or nothing when a stored repository already
    /// has this path.
    pub fn registration(&self, stored_paths: &Vec<String>) -> (r: Option<NewRepositoryRecord>)
        ensures
            string_views(stored_paths@).contains(self.repo_path@) ==> r is None,
            !string_views(stored_paths@).contains(self.repo_path@) ==> (r matches Some(rec)
                && rec.name@ == registered_name(self.repo_path@) && rec.path@ == self.repo_path@
                && rec.git_dir_path@ == git_dir_of(self.repo_path@)),
    {
        self.registration_named(stored_paths, file_name(self.repo_path.as_str()))
    }
}

} // verus!
