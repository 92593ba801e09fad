//! Recognizing how a discovered repository is laid out.
use vstd::prelude::*;

use super::{DiscoveredRepository, RepositoryType};
use crate::discovery::paths::{file_name, git_dir_of, join_git_dir, path_file_name};
use crate::text::{chars_of, contains_run, occurs_in};

verus! {

/// A `.git` directory is a standard repository; a `.git` file points elsewhere:
/// into `/worktrees/` for a worktree, into `/modules/` for a submodule.
pub open spec fn layout_of(git_dir_is_file: bool, content: Seq<char>) -> RepositoryType {
    if !git_dir_is_file {
        RepositoryType::Standard
    } else if occurs_in("/worktrees/"@, content) {
        RepositoryType::Worktree
    } else if occurs_in("/modules/"@, content) {
        RepositoryType::Submodule
    } else {
        RepositoryType::Standard
    }
}

/// The layout of a repository, from whether its `.git` entry is a file and
/// that file's content.
pub fn repository_type_for(git_dir_is_file: bool, content: &str) -> (t: RepositoryType)
    ensures
        t == layout_of(git_dir_is_file, content@),
{
    if !git_dir_is_file {
        return RepositoryType::Standard;
    }
    let c = chars_of(content);
    if contains_run(&c, &chars_of("/worktrees/")) {
        RepositoryType::Worktree
    } else if contains_run(&c, &chars_of("/modules/")) {
        RepositoryType::Submodule
    } else {
        RepositoryType::Standard
    }
}

/// The repository found at the directory `path`, whose last component is
/// `name`: named by it, with its `.git` entry inside it and the layout that
/// entry shows; nothing when the path has no last component to name it.
pub fn discovered_repository_named(
    path: &str,
    name: Option<String>,
    git_dir_is_file: bool,
    content: &str,
) -> (r: Option<DiscoveredRepository>)
    ensures
        name is None ==> r is None,
        name matches Some(n) ==> (r matches Some(d) && d.name@ == n@ && d.path@ == path@
            && d.git_dir@ == git_dir_of(path@) && d.repo_type == layout_of(
            git_dir_is_file,
            content@,
        )),
{
    match name {
        None => None,
        Some(name) => Some(
            DiscoveredRepository {
                name,
                path: path.to_owned(),
                git_dir: join_git_dir(path),
                repo_type: repository_type_for(git_dir_is_file, content),
            },
        ),
    }
}

/// The repository found at the directory `path`: named by the last
/// component of the path, with its `.git` entry inside it and the layout
/// that entry shows; nothing when the path has no last component to name it.
pub fn discovered_repository(path: &str, git_dir_is_file: bool, content: &str) -> (r: Option<
    DiscoveredRepository,
>)
    ensures
        path_file_name(path@) is None ==> r is None,
        path_file_name(path@) matches Some(name) ==> (r matches Some(d) && d.name@ == name
            && d.path@ == path@ && d.git_dir@ == git_dir_of(path@) && d.repo_type == layout_of(
            git_dir_is_file,
            content@,
        )),
{
    discovered_repository_named(path, file_name(path), git_dir_is_file, content)
}

} // verus!
