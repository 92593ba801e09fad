//! Path arithmetic on textual paths.
use vstd::prelude::*;

use crate::text::{chars_of, opt_view};

verus! {

/// The last component of a path, as `Path::file_name` yields it (`None`
/// where the path ends in `..` or has no normal component).
pub uninterp spec fn path_file_name(path: Seq<char>) -> Option<Seq<char>>;

/// `Path::file_name`, taken as text (the name of a path given as text is
/// text, so the conversion loses nothing); its result is named by
/// `path_file_name` and nothing more is claimed of it.
#[verifier::external_body]
pub(crate) fn file_name(path: &str) -> (r: Option<String>)
    ensures
        opt_view(r) == path_file_name(path@),
{
    match std::path::Path::new(path).file_name() {
        Some(n) => Some(n.to_string_lossy().into_owned()),
        None => None,
    }
}

/// The path of the `.git` entry inside a directory, as `Path::join` forms
/// it: a separator goes between the two unless the directory path is empty
/// or already ends in one.
pub open spec fn git_dir_of(dir: Seq<char>) -> Seq<char> {
    if dir.len() == 0 || dir.last() == '/' {
        dir + ".git"@
    } else {
        dir + "/.git"@
    }
}

/// The path of the `.git` entry inside the directory `dir`.
pub fn join_git_dir(dir: &str) -> (p: String)
    ensures
        p@ == git_dir_of(dir@),
{
    let cs = chars_of(dir);
    let mut p = dir.to_owned();
    let n = cs.len();
    if n == 0 || cs[n - 1] == '/' {
        p.append(".git");
    } else {
        p.append("/.git");
    }
    p
}

} // verus!
