//! Splitting a path into its directory and its final segment. The splitting
//! itself is the standard library's, for the platform the crate is built for.

use vstd::prelude::*;
use crate::error::StoreError;

verus! {

/// The parent of a path as `std::path::Path::parent` gives it, `None` where the
/// path has none.
pub uninterp spec fn parent_of(path: Seq<char>) -> Option<Seq<char>>;

/// The final segment of a path as `std::path::Path::file_name` gives it, `None`
/// where the path has none.
pub uninterp spec fn file_name_of(path: Seq<char>) -> Option<Seq<char>>;

/// The characters of an optional string.
pub open spec fn text_of(value: Option<String>) -> Option<Seq<char>> {
    match value {
        Some(s) => Some(s@),
        None => None,
    }
}

/// The name to show for a path: its final segment, or the whole path where it
/// has none.
pub open spec fn name_of(path: Seq<char>) -> Seq<char> {
    match file_name_of(path) {
        Some(name) => name,
        None => path,
    }
}

/// Calls `std::path::Path::parent` on `path` and hands the parent back as a
/// string. Trusted: the result is what the standard library computes from the
/// characters of `path`, which [`parent_of`] names.
#[verifier::external_body]
fn std_parent(path: &str) -> (dir: Option<String>)
    ensures
        text_of(dir) == parent_of(path@),
{
    let parent = std::path::Path::new(path).parent()?;
    Some(parent.to_str()?.to_string())
}

/// Calls `std::path::Path::file_name` on `path` and hands the segment back as a
/// string. Trusted: the result is what the standard library computes from the
/// characters of `path`, which [`file_name_of`] names.
#[verifier::external_body]
fn std_file_name(path: &str) -> (segment: Option<String>)
    ensures
        text_of(segment) == file_name_of(path@),
{
    let name = std::path::Path::new(path).file_name()?;
    Some(name.to_str()?.to_string())
}

/// Turns the parent that was found for a path into the answer for the caller:
/// the directory, or [`StoreError::Path`] where there is none.
pub fn dir_from_parent(parent: Option<String>) -> (dir: Result<String, StoreError>)
    ensures
        match parent {
            Some(p) => dir == Ok::<String, StoreError>(p),
            None => dir == Err::<String, StoreError>(StoreError::Path),
        },
{
    match parent {
        Some(p) => Ok(p),
        None => Err(StoreError::Path),
    }
}

/// The directory that holds `path`; [`StoreError::Path`] exactly where the
/// path has no parent.
pub fn get_file_dir(path: String) -> (dir: Result<String, StoreError>)
    ensures
        match parent_of(path@) {
            Some(p) => dir is Ok && dir->Ok_0@ == p,
            None => dir == Err::<String, StoreError>(StoreError::Path),
        },
{
    dir_from_parent(std_parent(path.as_str()))
}

/// Picks the name to show: the final segment where one was found, else the
/// whole path.
pub fn name_from_segment(segment: Option<String>, path: &String) -> (name: String)
    ensures
        name@ == match segment {
            Some(s) => s@,
            None => path@,
        },
{
    match segment {
        Some(s) => s,
        None => path.clone(),
    }
}

/// The name to show for `path`.
pub fn display_name(path: &String) -> (name: String)
    ensures
        name@ == name_of(path@),
{
    name_from_segment(std_file_name(path.as_str()), path)
}

} // verus!
