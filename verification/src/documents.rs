//! The document store: text documents under the root directory.
//!
//! Each function here begins one operation: it resolves the document's path
//! against the root in effect at that moment and names the first request.
//! [`crate::machine::resume`] carries the operation on from the reply.

use crate::paths::{joined_path, resolve};
use crate::protocol::{FsRequest, RequestView, Stage, StageView, Step, StepView};
use crate::state::AppState;
use vstd::prelude::*;

verus! {

/// The message that acknowledges a write.
pub open spec fn file_written_message() -> Seq<char> {
    "File written successfully"@
}

/// The message that acknowledges an update.
pub open spec fn file_updated_message() -> Seq<char> {
    "File updated successfully"@
}

/// The message that acknowledges a removal.
pub open spec fn file_deleted_message() -> Seq<char> {
    "File deleted successfully"@
}

/// The message of the error for an update of a document that does not exist.
pub open spec fn file_not_found_message() -> Seq<char> {
    "File not found"@
}

/// The first step of reading the document `filename`: read the file at its
/// path under the root.
pub open spec fn read_file_step(root: Seq<char>, filename: Seq<char>) -> StepView {
    StepView::Perform {
        request: RequestView::ReadText { path: joined_path(root, filename) },
        stage: StageView::ReadingFile,
    }
}

/// The first step of writing `content` to the document `filename`: write the
/// file at its path under the root, whether or not it exists.
pub open spec fn write_file_step(
    root: Seq<char>,
    filename: Seq<char>,
    content: Seq<char>,
) -> StepView {
    StepView::Perform {
        request: RequestView::WriteText { path: joined_path(root, filename), content },
        stage: StageView::WritingFile,
    }
}

/// The first step of updating the document `filename`: ask whether the file
/// at its path under the root exists. Nothing is written yet.
pub open spec fn update_file_step(
    root: Seq<char>,
    filename: Seq<char>,
    content: Seq<char>,
) -> StepView {
    StepView::Perform {
        request: RequestView::Exists { path: joined_path(root, filename) },
        stage: StageView::ProbingFile { path: joined_path(root, filename), content },
    }
}

/// The first step of deleting the document `filename`: remove the file at
/// its path under the root.
pub open spec fn delete_file_step(root: Seq<char>, filename: Seq<char>) -> StepView {
    StepView::Perform {
        request: RequestView::RemoveFile { path: joined_path(root, filename) },
        stage: StageView::DeletingFile,
    }
}

/// Begins to read the document `filename`.
pub fn read_file(state: &AppState, filename: &str) -> (step: Step)
    ensures
        step@ == read_file_step(state@, filename@),
{
    let path = resolve(state, filename);
    Step::Perform { request: FsRequest::ReadText { path }, stage: Stage::ReadingFile }
}

/// Begins to write `content` to the document `filename`, creating or
/// replacing it.
pub fn write_file(state: &AppState, filename: &str, content: String) -> (step: Step)
    ensures
        step@ == write_file_step(state@, filename@, content@),
{
    let path = resolve(state, filename);
    Step::Perform { request: FsRequest::WriteText { path, content }, stage: Stage::WritingFile }
}

/// Begins to update the document `filename`, which must exist already.
pub fn update_file(state: &AppState, filename: &str, content: String) -> (step: Step)
    ensures
        step@ == update_file_step(state@, filename@, content@),
{
    let path = resolve(state, filename);
    let probed = path.clone();
    Step::Perform {
        request: FsRequest::Exists { path: probed },
        stage: Stage::ProbingFile { path, content },
    }
}

/// Begins to delete the document `filename`.
pub fn delete_file(state: &AppState, filename: &str) -> (step: Step)
    ensures
        step@ == delete_file_step(state@, filename@),
{
    let path = resolve(state, filename);
    Step::Perform { request: FsRequest::RemoveFile { path }, stage: Stage::DeletingFile }
}

} // verus!
