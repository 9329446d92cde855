//! Resolving names against the root directory.
//!
//! Paths are joined as `std::path` joins them; nothing keeps a name from
//! leading out of the root.

use crate::scanner::text_view;
use crate::state::AppState;
use std::path::Path;
use vstd::prelude::*;

verus! {

/// The path that `Path::join` gives when `tail` is adjoined to `base`.
pub uninterp spec fn joined_path(base: Seq<char>, tail: Seq<char>) -> Seq<char>;

/// The final component that `Path::file_name` finds in `path`, if any.
pub uninterp spec fn final_component(path: Seq<char>) -> Option<Seq<char>>;

/// Calls `Path::join`. Nothing is proved of it: the contract only gives the
/// result its name, since the call looks at its two arguments alone and
/// touches no file system.
#[verifier::external_body]
fn join_path(base: &str, tail: &str) -> (joined: String)
    ensures
        joined@ == joined_path(base@, tail@),
{
    Path::new(base).join(tail).to_string_lossy().into_owned()
}

/// Calls `Path::file_name`. Nothing is proved of it: the contract only gives
/// the result its name, since the call looks at the path's text alone and
/// touches no file system.
#[verifier::external_body]
fn file_name(path: &str) -> (name: Option<String>)
    ensures
        text_view(name) == final_component(path@),
{
    match Path::new(path).file_name() {
        Some(name) => Some(name.to_string_lossy().into_owned()),
        None => None,
    }
}

/// The directory that holds the media files of a root.
pub open spec fn media_dir_of(root: Seq<char>) -> Seq<char> {
    joined_path(root, "media"@)
}

/// Where a file at `source` lands when it is moved into `media_dir`: under
/// its own file name. A source without a file name has no destination.
pub open spec fn destination_of(media_dir: Seq<char>, source: Seq<char>) -> Option<Seq<char>> {
    match final_component(source) {
        Some(name) => Some(joined_path(media_dir, name)),
        None => None,
    }
}

/// The path of the document `filename` under the current root.
pub fn resolve(state: &AppState, filename: &str) -> (path: String)
    ensures
        path@ == joined_path(state@, filename@),
{
    join_path(state.files_dir.as_str(), filename)
}

/// The media directory under the current root.
pub fn media_dir(state: &AppState) -> (dir: String)
    ensures
        dir@ == media_dir_of(state@),
{
    join_path(state.files_dir.as_str(), "media")
}

/// See [`destination_of`].
pub fn media_destination(media_dir: &str, source: &str) -> (destination: Option<String>)
    ensures
        text_view(destination) == destination_of(media_dir@, source@),
{
    match file_name(source) {
        Some(name) => Some(join_path(media_dir, name.as_str())),
        None => None,
    }
}

} // verus!
