//! Paths as they are shown in a report: relative to the root of the walk.

use vstd::prelude::*;
use vstd::string::StringExecFns;

verus! {

/// What `pathdiff::diff_paths` makes of a path and a base, both read by the
/// rules of the platform's path syntax: the way from the base to the path, or
/// nothing where there is none.
pub uninterp spec fn relative_to(path: Seq<char>, base: Seq<char>) -> Option<Seq<char>>;

/// Computes the way from `base` to `path`.
///
/// Calls `pathdiff::diff_paths`, which compares the two paths component by
/// component and never touches the file system. The outcome depends on the
/// two texts alone; the contract gives it a name and claims nothing else.
#[verifier::external_body]
fn diff_paths(path: &str, base: &str) -> (way: Option<String>)
    ensures
        way.deep_view() == relative_to(path@, base@),
{
    pathdiff::diff_paths(path, base).map(|way| way.display().to_string())
}

/// The path to show: the relative one where there is one, else the full one.
pub open spec fn shown_path(way: Option<Seq<char>>, path: Seq<char>) -> Seq<char> {
    match way {
        Some(relative) => relative,
        None => path,
    }
}

/// The path of an entry as a report shows it, for a walk rooted at `dir`.
pub open spec fn relative_path(dir: Seq<char>, path: Seq<char>) -> Seq<char> {
    shown_path(relative_to(path, dir), path)
}

/// Chooses the path to show, given the way from the root if there is one.
pub fn display_path(way: Option<String>, path: &str) -> (shown: String)
    ensures
        shown@ == shown_path(way.deep_view(), path@),
{
    match way {
        Some(relative) => relative,
        None => String::from_str(path),
    }
}

/// Gives the path of an entry relative to the root of the walk, and the full
/// path where no relative one can be computed.
pub fn get_relative_path(dir_path: &str, path: &str) -> (shown: String)
    ensures
        shown@ == relative_path(dir_path@, path@),
{
    display_path(diff_paths(path, dir_path), path)
}

} // verus!
