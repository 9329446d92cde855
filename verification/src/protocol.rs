//! What passes between the store and its host.
//!
//! An operation is a sequence of [`Step`]s. A step either asks the host to
//! perform one file-system request and to come back with the reply, or it
//! finishes the operation with its result. The [`Stage`] that goes with a
//! request is all that the operation remembers until the reply arrives.

use crate::error::{ErrorView, FailureView, IoFailure, StoreError};
use crate::scanner::{entries_view, EntryView, MediaEntry, ScanResult, ScanView};
use crate::state::FileResponse;
use vstd::prelude::*;

verus! {

/// One call on the file system, for the host to perform.
#[derive(Debug, PartialEq, Eq)]
pub enum FsRequest {
    /// Read the whole file as text.
    ReadText { path: String },
    /// Create the file or replace its content.
    WriteText { path: String, content: String },
    /// Tell whether anything exists at the path.
    Exists { path: String },
    /// Remove the file.
    RemoveFile { path: String },
    /// Create the directory and the missing directories above it.
    CreateDirAll { path: String },
    /// List what stands directly in the directory.
    ReadDir { path: String },
    /// Move the file at `from` to `to`, replacing what is there.
    Rename { from: String, to: String },
}

/// The mathematical value of an [`FsRequest`].
pub enum RequestView {
    ReadText { path: Seq<char> },
    WriteText { path: Seq<char>, content: Seq<char> },
    Exists { path: Seq<char> },
    RemoveFile { path: Seq<char> },
    CreateDirAll { path: Seq<char> },
    ReadDir { path: Seq<char> },
    Rename { from: Seq<char>, to: Seq<char> },
}

impl View for FsRequest {
    type V = RequestView;

    open spec fn view(&self) -> RequestView {
        match self {
            FsRequest::ReadText { path } => RequestView::ReadText { path: path@ },
            FsRequest::WriteText { path, content } => RequestView::WriteText {
                path: path@,
                content: content@,
            },
            FsRequest::Exists { path } => RequestView::Exists { path: path@ },
            FsRequest::RemoveFile { path } => RequestView::RemoveFile { path: path@ },
            FsRequest::CreateDirAll { path } => RequestView::CreateDirAll { path: path@ },
            FsRequest::ReadDir { path } => RequestView::ReadDir { path: path@ },
            FsRequest::Rename { from, to } => RequestView::Rename { from: from@, to: to@ },
        }
    }
}

/// What the host found when it performed a request.
#[derive(Debug, PartialEq, Eq)]
pub enum FsReply {
    /// The content of the file read.
    Text(String),
    /// The write, removal, directory creation or move succeeded.
    Done,
    /// Whether anything exists at the path.
    Exists(bool),
    /// The entries of the directory, in the order the file system gave them.
    Entries(Vec<MediaEntry>),
    /// The call failed.
    Failed(IoFailure),
}

/// The mathematical value of an [`FsReply`].
pub enum ReplyView {
    Text(Seq<char>),
    Done,
    Exists(bool),
    Entries(Seq<EntryView>),
    Failed(FailureView),
}

impl View for FsReply {
    type V = ReplyView;

    open spec fn view(&self) -> ReplyView {
        match self {
            FsReply::Text(text) => ReplyView::Text(text@),
            FsReply::Done => ReplyView::Done,
            FsReply::Exists(exists) => ReplyView::Exists(*exists),
            FsReply::Entries(entries) => ReplyView::Entries(entries_view(entries@)),
            FsReply::Failed(failure) => ReplyView::Failed(failure@),
        }
    }
}

/// Where an operation stands while the host performs its request.
#[derive(Debug, PartialEq, Eq)]
pub enum Stage {
    /// A document is being read.
    ReadingFile,
    /// A document is being written unconditionally.
    WritingFile,
    /// An update waits to learn whether its document exists.
    ProbingFile { path: String, content: String },
    /// An update's document is being written.
    UpdatingFile,
    /// A document is being removed.
    DeletingFile,
    /// A listing waits to learn whether the media directory exists.
    ProbingMediaForList { media_dir: String },
    /// A listing's media directory is being created.
    CreatingMediaForList { media_dir: String },
    /// The media directory is being listed.
    ListingMedia,
    /// A move waits to learn whether the media directory exists.
    ProbingMediaForMove { media_dir: String, source: String, destination: Option<String> },
    /// A move's media directory is being created.
    CreatingMediaForMove { source: String, destination: Option<String> },
    /// The file is being moved to its destination.
    MovingMedia { target: String },
    /// The media directory is being listed for a scan of `content`.
    ScanningMedia { content: String },
}

/// The mathematical value of a [`Stage`].
pub enum StageView {
    ReadingFile,
    WritingFile,
    ProbingFile { path: Seq<char>, content: Seq<char> },
    UpdatingFile,
    DeletingFile,
    ProbingMediaForList { media_dir: Seq<char> },
    CreatingMediaForList { media_dir: Seq<char> },
    ListingMedia,
    ProbingMediaForMove {
        media_dir: Seq<char>,
        source: Seq<char>,
        destination: Option<Seq<char>>,
    },
    CreatingMediaForMove { source: Seq<char>, destination: Option<Seq<char>> },
    MovingMedia { target: Seq<char> },
    ScanningMedia { content: Seq<char> },
}

impl View for Stage {
    type V = StageView;

    open spec fn view(&self) -> StageView {
        match self {
            Stage::ReadingFile => StageView::ReadingFile,
            Stage::WritingFile => StageView::WritingFile,
            Stage::ProbingFile { path, content } => StageView::ProbingFile {
                path: path@,
                content: content@,
            },
            Stage::UpdatingFile => StageView::UpdatingFile,
            Stage::DeletingFile => StageView::DeletingFile,
            Stage::ProbingMediaForList { media_dir } => StageView::ProbingMediaForList {
                media_dir: media_dir@,
            },
            Stage::CreatingMediaForList { media_dir } => StageView::CreatingMediaForList {
                media_dir: media_dir@,
            },
            Stage::ListingMedia => StageView::ListingMedia,
            Stage::ProbingMediaForMove {
                media_dir,
                source,
                destination,
            } => StageView::ProbingMediaForMove {
                media_dir: media_dir@,
                source: source@,
                destination: crate::scanner::text_view(*destination),
            },
            Stage::CreatingMediaForMove { source, destination } => StageView::CreatingMediaForMove {
                source: source@,
                destination: crate::scanner::text_view(*destination),
            },
            Stage::MovingMedia { target } => StageView::MovingMedia { target: target@ },
            Stage::ScanningMedia { content } => StageView::ScanningMedia { content: content@ },
        }
    }
}

/// What a finished operation hands to its caller.
#[derive(Debug, PartialEq, Eq)]
pub enum Response {
    /// A document's content, or the path a media file was moved to.
    Text(String),
    /// The acknowledgement of a write, an update or a removal.
    Ack(FileResponse),
    /// The paths of the media directory's entries.
    Paths(Vec<String>),
    /// The result of a scan.
    Scan(ScanResult),
}

/// The mathematical value of a [`Response`].
pub enum ResponseView {
    Text(Seq<char>),
    Ack(Seq<char>),
    Paths(Seq<Seq<char>>),
    Scan(ScanView),
}

/// The values of a list of strings, in order.
pub open spec fn texts_view(texts: Seq<String>) -> Seq<Seq<char>> {
    texts.map_values(|text: String| text@)
}

impl View for Response {
    type V = ResponseView;

    open spec fn view(&self) -> ResponseView {
        match self {
            Response::Text(text) => ResponseView::Text(text@),
            Response::Ack(ack) => ResponseView::Ack(ack@),
            Response::Paths(paths) => ResponseView::Paths(texts_view(paths@)),
            Response::Scan(result) => ResponseView::Scan(result@),
        }
    }
}

/// The value of an operation's result.
pub open spec fn outcome_view(outcome: Result<Response, StoreError>) -> Result<
    ResponseView,
    ErrorView,
> {
    match outcome {
        Ok(response) => Ok(response@),
        Err(error) => Err(error@),
    }
}

/// One step of an operation.
#[derive(Debug, PartialEq, Eq)]
pub enum Step {
    /// The host performs `request` and resumes the operation at `stage` with
    /// the reply.
    Perform { request: FsRequest, stage: Stage },
    /// The operation is over, with this result.
    Finished(Result<Response, StoreError>),
}

/// The mathematical value of a [`Step`].
pub enum StepView {
    Perform { request: RequestView, stage: StageView },
    Finished(Result<ResponseView, ErrorView>),
}

impl View for Step {
    type V = StepView;

    open spec fn view(&self) -> StepView {
        match self {
            Step::Perform { request, stage } => StepView::Perform {
                request: request@,
                stage: stage@,
            },
            Step::Finished(outcome) => StepView::Finished(outcome_view(*outcome)),
        }
    }
}

} // verus!
