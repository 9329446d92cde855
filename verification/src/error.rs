//! Failures: what the host reports of a file-system call, and what an
//! operation of the store reports to its caller.

use vstd::prelude::*;

verus! {

/// What the store needs to know of a failed file-system call's cause.
#[derive(Debug, Clone, Copy, PartialEq, Eq)]
pub enum FailureKind {
    /// The target does not exist.
    NotFound,
    /// Any other cause: permissions, the disk, a move across devices.
    Other,
}

/// A failed file-system call, as the host reports it.
#[derive(Debug, PartialEq, Eq)]
pub struct IoFailure {
    pub kind: FailureKind,
    /// The message of the underlying error.
    pub message: String,
}

/// The mathematical value of an [`IoFailure`].
pub struct FailureView {
    pub kind: FailureKind,
    pub message: Seq<char>,
}

impl View for IoFailure {
    type V = FailureView;

    open spec fn view(&self) -> FailureView {
        FailureView { kind: self.kind, message: self.message@ }
    }
}

/// The failure of an operation of the store. Each carries a message for the
/// user.
#[derive(Debug, PartialEq, Eq)]
pub enum StoreError {
    /// The target document or media file is absent.
    NotFound(String),
    /// A file-system call failed.
    IoError(String),
    /// A path has no file name that could be taken from it.
    InvalidPath(String),
}

/// The mathematical value of a [`StoreError`].
pub enum ErrorView {
    NotFound(Seq<char>),
    IoError(Seq<char>),
    InvalidPath(Seq<char>),
}

impl View for StoreError {
    type V = ErrorView;

    open spec fn view(&self) -> ErrorView {
        match self {
            StoreError::NotFound(message) => ErrorView::NotFound(message@),
            StoreError::IoError(message) => ErrorView::IoError(message@),
            StoreError::InvalidPath(message) => ErrorView::InvalidPath(message@),
        }
    }
}

impl ErrorView {
    /// The message that the error carries.
    pub open spec fn message(self) -> Seq<char> {
        match self {
            ErrorView::NotFound(message) => message,
            ErrorView::IoError(message) => message,
            ErrorView::InvalidPath(message) => message,
        }
    }
}

/// The error for a failed call on a target that may be missing: `NotFound`
/// if the target does not exist, `IoError` for any other cause. The message
/// is that of the failure.
pub open spec fn error_by_kind(failure: FailureView) -> ErrorView {
    match failure.kind {
        FailureKind::NotFound => ErrorView::NotFound(failure.message),
        FailureKind::Other => ErrorView::IoError(failure.message),
    }
}

/// The error for a failed call that is reported as `IoError` whatever its
/// cause. The message is that of the failure.
pub open spec fn error_as_io(failure: FailureView) -> ErrorView {
    ErrorView::IoError(failure.message)
}

impl StoreError {
    /// The message that the error carries.
    pub fn message(&self) -> (message: &String)
        ensures
            message@ == self@.message(),
    {
        match self {
            StoreError::NotFound(message) => message,
            StoreError::IoError(message) => message,
            StoreError::InvalidPath(message) => message,
        }
    }

    /// See [`error_by_kind`].
    pub fn by_kind(failure: IoFailure) -> (error: StoreError)
        ensures
            error@ == error_by_kind(failure@),
    {
        match failure.kind {
            FailureKind::NotFound => StoreError::NotFound(failure.message),
            FailureKind::Other => StoreError::IoError(failure.message),
        }
    }

    /// See [`error_as_io`].
    pub fn as_io(failure: IoFailure) -> (error: StoreError)
        ensures
            error@ == error_as_io(failure@),
    {
        StoreError::IoError(failure.message)
    }
}

} // verus!
