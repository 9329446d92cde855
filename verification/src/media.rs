//! The media registry: the files of the `media` directory under the root.
//!
//! Each of the first three functions begins one operation: it resolves the
//! media directory against the root in effect at that moment and names the
//! first request. [`crate::machine::resume`] carries the operation on.

use crate::error::{ErrorView, StoreError};
use crate::paths::{destination_of, media_destination, media_dir, media_dir_of};
use crate::protocol::{texts_view, FsRequest, RequestView, Stage, StageView, Step, StepView};
use crate::scanner::{entries_view, EntryView, MediaEntry};
use crate::state::AppState;
use vstd::prelude::*;

verus! {

/// The message of the error for a source path without a file name.
pub open spec fn invalid_source_message() -> Seq<char> {
    "Invalid source path"@
}

/// The first step of listing the media directory: ask whether it exists.
pub open spec fn list_media_step(root: Seq<char>) -> StepView {
    StepView::Perform {
        request: RequestView::Exists { path: media_dir_of(root) },
        stage: StageView::ProbingMediaForList { media_dir: media_dir_of(root) },
    }
}

/// The first step of moving the file at `source` into the media directory:
/// ask whether the directory exists. The destination is fixed here already.
pub open spec fn move_media_step(root: Seq<char>, source: Seq<char>) -> StepView {
    StepView::Perform {
        request: RequestView::Exists { path: media_dir_of(root) },
        stage: StageView::ProbingMediaForMove {
            media_dir: media_dir_of(root),
            source,
            destination: destination_of(media_dir_of(root), source),
        },
    }
}

/// The first step of scanning `content`: list the media directory. A scan
/// does not create the directory.
pub open spec fn scan_content_step(root: Seq<char>, content: Seq<char>) -> StepView {
    StepView::Perform {
        request: RequestView::ReadDir { path: media_dir_of(root) },
        stage: StageView::ScanningMedia { content },
    }
}

/// The step of a move once the media directory exists: move the source to
/// its destination, or fail with `InvalidPath` where it has none.
pub open spec fn move_step(source: Seq<char>, destination: Option<Seq<char>>) -> StepView {
    match destination {
        Some(to) => StepView::Perform {
            request: RequestView::Rename { from: source, to },
            stage: StageView::MovingMedia { target: to },
        },
        None => StepView::Finished(Err(ErrorView::InvalidPath(invalid_source_message()))),
    }
}

/// The paths of the entries of a listing, in order. An entry whose path is
/// not text is left out.
pub open spec fn listed_paths(entries: Seq<EntryView>) -> Seq<Seq<char>>
    decreases entries.len(),
{
    if entries.len() == 0 {
        Seq::empty()
    } else {
        let before = listed_paths(entries.drop_last());
        match entries.last().path {
            Some(path) => before.push(path),
            None => before,
        }
    }
}

/// Begins to list the media directory.
pub fn list_media(state: &AppState) -> (step: Step)
    ensures
        step@ == list_media_step(state@),
{
    let dir = media_dir(state);
    let probed = dir.clone();
    Step::Perform {
        request: FsRequest::Exists { path: probed },
        stage: Stage::ProbingMediaForList { media_dir: dir },
    }
}

/// Begins to move the file at `path` into the media directory.
pub fn move_media(state: &AppState, path: String) -> (step: Step)
    ensures
        step@ == move_media_step(state@, path@),
{
    let dir = media_dir(state);
    let destination = media_destination(dir.as_str(), path.as_str());
    let probed = dir.clone();
    Step::Perform {
        request: FsRequest::Exists { path: probed },
        stage: Stage::ProbingMediaForMove { media_dir: dir, source: path, destination },
    }
}

/// Begins to scan `content` for the names of the media files.
pub fn scan_content_for_media(state: &AppState, content: String) -> (step: Step)
    ensures
        step@ == scan_content_step(state@, content@),
{
    let dir = media_dir(state);
    Step::Perform {
        request: FsRequest::ReadDir { path: dir },
        stage: Stage::ScanningMedia { content },
    }
}

/// See [`move_step`].
pub fn plan_move(source: String, destination: Option<String>) -> (step: Step)
    ensures
        step@ == move_step(source@, crate::scanner::text_view(destination)),
{
    match destination {
        Some(to) => {
            let moved_to = to.clone();
            Step::Perform {
                request: FsRequest::Rename { from: source, to },
                stage: Stage::MovingMedia { target: moved_to },
            }
        },
        None => Step::Finished(
            Err(StoreError::InvalidPath(String::from_str("Invalid source path"))),
        ),
    }
}

/// See [`listed_paths`].
pub fn list_paths(entries: &Vec<MediaEntry>) -> (paths: Vec<String>)
    ensures
        texts_view(paths@) == listed_paths(entries_view(entries@)),
{
    let ghost listing = entries_view(entries@);
    let mut paths: Vec<String> = Vec::new();
    let mut i: usize = 0;
    while i < entries.len()
        invariant
            i <= entries.len(),
            listing == entries_view(entries@),
            texts_view(paths@) == listed_paths(listing.take(i as int)),
        decreases entries.len() - i,
    {
        proof {
            assert(listing.take(i + 1).drop_last() =~= listing.take(i as int));
        }
        let ghost earlier = texts_view(paths@);
        let entry = &entries[i];
        if let Some(path) = &entry.path {
            let kept = path.clone();
            paths.push(kept);
            assert(texts_view(paths@) =~= earlier.push(kept@));
        }
        i = i + 1;
    }
    proof {
        assert(listing.take(entries.len() as int) =~= listing);
    }
    paths
}

} // verus!
