//! Paths as text, and the parts of them that `std::path` picks out.
//!
//! The library holds a path as a string. How a path falls into directory,
//! file name and stem is decided by `std::path::Path`, which goes by the
//! text alone, read by the rules of the platform that the library is built
//! for, and never looks at the file system. What it returns is given a name
//! here, so that contracts can speak of it.

use vstd::prelude::*;
use std::path::Path;

verus! {

/// The stem that `Path::file_stem` finds in the path written as `path`:
/// the file name without its extension, or `None` if the path has no file
/// name.
pub uninterp spec fn path_file_stem(path: Seq<char>) -> Option<Seq<char>>;

/// The file name that `Path::file_name` finds in the path written as `path`:
/// its last component, or `None` if the path ends in `..` or has no
/// component.
pub uninterp spec fn path_file_name(path: Seq<char>) -> Option<Seq<char>>;

/// The parent that `Path::parent` finds for the path written as `path`: the
/// path without its last component, or `None` if the path ends in a root or
/// prefix, or is empty.
pub uninterp spec fn path_parent(path: Seq<char>) -> Option<Seq<char>>;

/// The path that `Path::join` makes of the path written as `base` and the
/// path written as `path`.
pub uninterp spec fn path_join(base: Seq<char>, path: Seq<char>) -> Seq<char>;

/// Calls `std::path::Path::file_stem` on `path`. Trusted: the result is what
/// [`path_file_stem`] names. The stem of a path that is valid UTF-8 is valid
/// UTF-8 too, so nothing is lost in turning it into a `String`.
#[verifier::external_body]
pub(crate) fn file_stem(path: &str) -> (stem: Option<String>)
    ensures
        match stem {
            Some(s) => path_file_stem(path@) == Some(s@),
            None => path_file_stem(path@) is None,
        },
{
    match Path::new(path).file_stem() {
        Some(stem) => Some(stem.to_string_lossy().into_owned()),
        None => None,
    }
}

/// Calls `std::path::Path::file_name` on `path`. Trusted: the result is what
/// [`path_file_name`] names.
#[verifier::external_body]
pub(crate) fn file_name(path: &str) -> (name: Option<String>)
    ensures
        match name {
            Some(s) => path_file_name(path@) == Some(s@),
            None => path_file_name(path@) is None,
        },
{
    match Path::new(path).file_name() {
        Some(name) => Some(name.to_string_lossy().into_owned()),
        None => None,
    }
}

/// Calls `std::path::Path::parent` on `path`. Trusted: the result is what
/// [`path_parent`] names.
#[verifier::external_body]
pub(crate) fn parent(path: &str) -> (dir: Option<String>)
    ensures
        match dir {
            Some(s) => path_parent(path@) == Some(s@),
            None => path_parent(path@) is None,
        },
{
    match Path::new(path).parent() {
        Some(dir) => Some(dir.to_string_lossy().into_owned()),
        None => None,
    }
}

/// Calls `std::path::Path::join` on `base` with `path`. Trusted: the result
/// is what [`path_join`] names.
#[verifier::external_body]
pub(crate) fn join(base: &str, path: &str) -> (joined: String)
    ensures
        joined@ == path_join(base@, path@),
{
    Path::new(base).join(path).to_string_lossy().into_owned()
}

} // verus!
