//! The transitions of the operations: from the stage an operation stands at
//! and the host's reply to the next step.

use crate::documents::{
    file_deleted_message, file_not_found_message, file_updated_message, file_written_message,
};
use crate::error::{error_as_io, error_by_kind, ErrorView, StoreError};
use crate::media::{invalid_source_message, list_paths, listed_paths, move_step, plan_move};
use crate::paths::{destination_of, media_dir_of};
use crate::protocol::{
    FsReply, FsRequest, ReplyView, RequestView, Response, ResponseView, Stage, StageView, Step,
    StepView,
};
use crate::scanner::{scan_entries, scan_model};
use crate::state::FileResponse;
use vstd::prelude::*;

verus! {

/// The message of the error for a reply that does not answer the request.
pub open spec fn unexpected_reply_message() -> Seq<char> {
    "Unexpected file-system reply"@
}

/// The step that ends an operation whose request got a reply of the wrong
/// kind.
pub open spec fn unexpected_reply() -> StepView {
    StepView::Finished(Err(ErrorView::IoError(unexpected_reply_message())))
}

/// The step that ends an operation with an acknowledgement.
pub open spec fn acknowledged(message: Seq<char>) -> StepView {
    StepView::Finished(Ok(ResponseView::Ack(message)))
}

/// The step that lists the media directory `media_dir`.
pub open spec fn listing_step(media_dir: Seq<char>) -> StepView {
    StepView::Perform {
        request: RequestView::ReadDir { path: media_dir },
        stage: StageView::ListingMedia,
    }
}

/// The step that follows when an operation at `stage` receives `reply`.
///
/// A failed read or removal is `NotFound` if the target is missing and
/// `IoError` otherwise; any other failed call is `IoError`. An update writes
/// only if its document exists. A listing or a move creates the media
/// directory first if it is missing. A reply that does not answer the
/// stage's request ends the operation with an `IoError`.
pub open spec fn next_step(stage: StageView, reply: ReplyView) -> StepView {
    match stage {
        StageView::ReadingFile => match reply {
            ReplyView::Text(text) => StepView::Finished(Ok(ResponseView::Text(text))),
            ReplyView::Failed(failure) => StepView::Finished(Err(error_by_kind(failure))),
            _ => unexpected_reply(),
        },
        StageView::WritingFile => match reply {
            ReplyView::Done => acknowledged(file_written_message()),
            ReplyView::Failed(failure) => StepView::Finished(Err(error_as_io(failure))),
            _ => unexpected_reply(),
        },
        StageView::ProbingFile { path, content } => match reply {
            ReplyView::Exists(true) => StepView::Perform {
                request: RequestView::WriteText { path, content },
                stage: StageView::UpdatingFile,
            },
            ReplyView::Exists(false) => StepView::Finished(
                Err(ErrorView::NotFound(file_not_found_message())),
            ),
            _ => unexpected_reply(),
        },
        StageView::UpdatingFile => match reply {
            ReplyView::Done => acknowledged(file_updated_message()),
            ReplyView::Failed(failure) => StepView::Finished(Err(error_as_io(failure))),
            _ => unexpected_reply(),
        },
        StageView::DeletingFile => match reply {
            ReplyView::Done => acknowledged(file_deleted_message()),
            ReplyView::Failed(failure) => StepView::Finished(Err(error_by_kind(failure))),
            _ => unexpected_reply(),
        },
        StageView::ProbingMediaForList { media_dir } => match reply {
            ReplyView::Exists(true) => listing_step(media_dir),
            ReplyView::Exists(false) => StepView::Perform {
                request: RequestView::CreateDirAll { path: media_dir },
                stage: StageView::CreatingMediaForList { media_dir },
            },
            _ => unexpected_reply(),
        },
        StageView::CreatingMediaForList { media_dir } => match reply {
            ReplyView::Done => listing_step(media_dir),
            ReplyView::Failed(failure) => StepView::Finished(Err(error_as_io(failure))),
            _ => unexpected_reply(),
        },
        StageView::ListingMedia => match reply {
            ReplyView::Entries(entries) => StepView::Finished(
                Ok(ResponseView::Paths(listed_paths(entries))),
            ),
            ReplyView::Failed(failure) => StepView::Finished(Err(error_as_io(failure))),
            _ => unexpected_reply(),
        },
        StageView::ProbingMediaForMove { media_dir, source, destination } => match reply {
            ReplyView::Exists(true) => move_step(source, destination),
            ReplyView::Exists(false) => StepView::Perform {
                request: RequestView::CreateDirAll { path: media_dir },
                stage: StageView::CreatingMediaForMove { source, destination },
            },
            _ => unexpected_reply(),
        },
        StageView::CreatingMediaForMove { source, destination } => match reply {
            ReplyView::Done => move_step(source, destination),
            ReplyView::Failed(failure) => StepView::Finished(Err(error_as_io(failure))),
            _ => unexpected_reply(),
        },
        StageView::MovingMedia { target } => match reply {
            ReplyView::Done => StepView::Finished(Ok(ResponseView::Text(target))),
            ReplyView::Failed(failure) => StepView::Finished(Err(error_as_io(failure))),
            _ => unexpected_reply(),
        },
        StageView::ScanningMedia { content } => match reply {
            ReplyView::Entries(entries) => StepView::Finished(
                Ok(ResponseView::Scan(scan_model(content, entries))),
            ),
            ReplyView::Failed(failure) => StepView::Finished(Err(error_as_io(failure))),
            _ => unexpected_reply(),
        },
    }
}

/// How many requests an operation at `stage` may still make after the one
/// that is under way.
pub open spec fn requests_left(stage: StageView) -> nat {
    match stage {
        StageView::ProbingFile { .. } => 1,
        StageView::ProbingMediaForList { .. } => 2,
        StageView::CreatingMediaForList { .. } => 1,
        StageView::ProbingMediaForMove { .. } => 2,
        StageView::CreatingMediaForMove { .. } => 1,
        _ => 0,
    }
}

/// Every operation ends: whatever the host replies, the next step either
/// finishes the operation or stands at a stage with fewer requests left. No
/// operation makes more than three requests.
pub proof fn lemma_operations_end(stage: StageView, reply: ReplyView)
    ensures
        requests_left(stage) <= 2,
        match next_step(stage, reply) {
            StepView::Perform { stage: next, .. } => requests_left(next) < requests_left(stage),
            StepView::Finished(_) => true,
        },
{
}

/// An update never writes to a document that does not exist: told that the
/// document is missing, it ends with `NotFound` and makes no further request.
pub proof fn lemma_update_of_missing_document(path: Seq<char>, content: Seq<char>)
    ensures
        next_step(StageView::ProbingFile { path, content }, ReplyView::Exists(false))
            == StepView::Finished(Err(ErrorView::NotFound(file_not_found_message()))),
{
}

/// A listing of a media directory that does not exist creates the directory,
/// then lists it, and hands out the paths of what the listing holds: none,
/// if the new directory is empty. A listing of a directory that exists lists
/// it at once.
pub proof fn lemma_listing_creates_media_directory(media_dir: Seq<char>)
    ensures
        next_step(StageView::ProbingMediaForList { media_dir }, ReplyView::Exists(false)) == (
        StepView::Perform {
            request: RequestView::CreateDirAll { path: media_dir },
            stage: StageView::CreatingMediaForList { media_dir },
        }),
        next_step(StageView::CreatingMediaForList { media_dir }, ReplyView::Done) == listing_step(
            media_dir,
        ),
        next_step(StageView::ProbingMediaForList { media_dir }, ReplyView::Exists(true))
            == listing_step(media_dir),
        next_step(StageView::ListingMedia, ReplyView::Entries(Seq::empty())) == StepView::Finished(
            Ok(ResponseView::Paths(Seq::empty())),
        ),
{
}

/// A move into a media directory that exists renames the source to its
/// destination, the media directory joined with the source's file name, and
/// once the rename succeeds it hands out that destination. A source without
/// a file name is refused with `InvalidPath` before anything is renamed.
pub proof fn lemma_move_lands_in_media_directory(root: Seq<char>, source: Seq<char>)
    ensures
        ({
            let media_dir = media_dir_of(root);
            let probing = StageView::ProbingMediaForMove {
                media_dir,
                source,
                destination: destination_of(media_dir, source),
            };
            match destination_of(media_dir, source) {
                Some(to) => {
                    &&& next_step(probing, ReplyView::Exists(true)) == (StepView::Perform {
                        request: RequestView::Rename { from: source, to },
                        stage: StageView::MovingMedia { target: to },
                    })
                    &&& next_step(StageView::MovingMedia { target: to }, ReplyView::Done)
                        == StepView::Finished(Ok(ResponseView::Text(to)))
                },
                None => next_step(probing, ReplyView::Exists(true)) == StepView::Finished(
                    Err(ErrorView::InvalidPath(invalid_source_message())),
                ),
            }
        }),
{
}

fn reject_reply() -> (step: Step)
    ensures
        step@ == unexpected_reply(),
{
    Step::Finished(Err(StoreError::IoError(String::from_str("Unexpected file-system reply"))))
}

fn acknowledge(message: &str) -> (step: Step)
    ensures
        step@ == acknowledged(message@),
{
    Step::Finished(Ok(Response::Ack(FileResponse { message: String::from_str(message) })))
}

fn list_directory(media_dir: String) -> (step: Step)
    ensures
        step@ == listing_step(media_dir@),
{
    Step::Perform { request: FsRequest::ReadDir { path: media_dir }, stage: Stage::ListingMedia }
}

/// Carries an operation on: given the stage it stands at and the reply to
/// its request, the next step.
pub fn resume(stage: Stage, reply: FsReply) -> (step: Step)
    ensures
        step@ == next_step(stage@, reply@),
{
    match stage {
        Stage::ReadingFile => match reply {
            FsReply::Text(text) => Step::Finished(Ok(Response::Text(text))),
            FsReply::Failed(failure) => Step::Finished(Err(StoreError::by_kind(failure))),
            _ => reject_reply(),
        },
        Stage::WritingFile => match reply {
            FsReply::Done => acknowledge("File written successfully"),
            FsReply::Failed(failure) => Step::Finished(Err(StoreError::as_io(failure))),
            _ => reject_reply(),
        },
        Stage::ProbingFile { path, content } => match reply {
            FsReply::Exists(exists) => {
                if exists {
                    Step::Perform {
                        request: FsRequest::WriteText { path, content },
                        stage: Stage::UpdatingFile,
                    }
                } else {
                    Step::Finished(Err(StoreError::NotFound(String::from_str("File not found"))))
                }
            },
            _ => reject_reply(),
        },
        Stage::UpdatingFile => match reply {
            FsReply::Done => acknowledge("File updated successfully"),
            FsReply::Failed(failure) => Step::Finished(Err(StoreError::as_io(failure))),
            _ => reject_reply(),
        },
        Stage::DeletingFile => match reply {
            FsReply::Done => acknowledge("File deleted successfully"),
            FsReply::Failed(failure) => Step::Finished(Err(StoreError::by_kind(failure))),
            _ => reject_reply(),
        },
        Stage::ProbingMediaForList { media_dir } => match reply {
            FsReply::Exists(exists) => {
                if exists {
                    list_directory(media_dir)
                } else {
                    let created = media_dir.clone();
                    Step::Perform {
                        request: FsRequest::CreateDirAll { path: created },
                        stage: Stage::CreatingMediaForList { media_dir },
                    }
                }
            },
            _ => reject_reply(),
        },
        Stage::CreatingMediaForList { media_dir } => match reply {
            FsReply::Done => list_directory(media_dir),
            FsReply::Failed(failure) => Step::Finished(Err(StoreError::as_io(failure))),
            _ => reject_reply(),
        },
        Stage::ListingMedia => match reply {
            FsReply::Entries(entries) => Step::Finished(
                Ok(Response::Paths(list_paths(&entries))),
            ),
            FsReply::Failed(failure) => Step::Finished(Err(StoreError::as_io(failure))),
            _ => reject_reply(),
        },
        Stage::ProbingMediaForMove { media_dir, source, destination } => match reply {
            FsReply::Exists(exists) => {
                if exists {
                    plan_move(source, destination)
                } else {
                    Step::Perform {
                        request: FsRequest::CreateDirAll { path: media_dir },
                        stage: Stage::CreatingMediaForMove { source, destination },
                    }
                }
            },
            _ => reject_reply(),
        },
        Stage::CreatingMediaForMove { source, destination } => match reply {
            FsReply::Done => plan_move(source, destination),
            FsReply::Failed(failure) => Step::Finished(Err(StoreError::as_io(failure))),
            _ => reject_reply(),
        },
        Stage::MovingMedia { target } => match reply {
            FsReply::Done => Step::Finished(Ok(Response::Text(target))),
            FsReply::Failed(failure) => Step::Finished(Err(StoreError::as_io(failure))),
            _ => reject_reply(),
        },
        Stage::ScanningMedia { content } => match reply {
            FsReply::Entries(entries) => Step::Finished(
                Ok(Response::Scan(scan_entries(content.as_str(), &entries))),
            ),
            FsReply::Failed(failure) => Step::Finished(Err(StoreError::as_io(failure))),
            _ => reject_reply(),
        },
    }
}

} // verus!
