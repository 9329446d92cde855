//! A flat store of files, to state what the document operations achieve
//! from end to end.
//!
//! The store holds text files by path and nothing else: it has no
//! directories, and it fails only where a file is missing. Against it every
//! operation can be run to its result, which is how the statements on
//! sequences of operations below are made.

use crate::documents::{
    delete_file_step, file_deleted_message, file_not_found_message, file_written_message,
    read_file_step, update_file_step, write_file_step,
};
use crate::error::{ErrorView, FailureKind, FailureView};
use crate::machine::{next_step, requests_left};
use crate::paths::joined_path;
use crate::protocol::{ReplyView, RequestView, ResponseView, StepView};
use vstd::prelude::*;

verus! {

/// The files of a flat store: content by path.
pub type Files = Map<Seq<char>, Seq<char>>;

/// The failure of a call on a path at which the store holds nothing.
pub open spec fn missing() -> FailureView {
    FailureView { kind: FailureKind::NotFound, message: "No such file or directory"@ }
}

/// The failure of a call that a flat store cannot serve.
pub open spec fn unsupported() -> FailureView {
    FailureView { kind: FailureKind::Other, message: "Not supported"@ }
}

/// How the flat store answers a request, and what it holds afterwards.
pub open spec fn answer(files: Files, request: RequestView) -> (Files, ReplyView) {
    match request {
        RequestView::ReadText { path } => if files.contains_key(path) {
            (files, ReplyView::Text(files[path]))
        } else {
            (files, ReplyView::Failed(missing()))
        },
        RequestView::WriteText { path, content } => (files.insert(path, content), ReplyView::Done),
        RequestView::Exists { path } => (files, ReplyView::Exists(files.contains_key(path))),
        RequestView::RemoveFile { path } => if files.contains_key(path) {
            (files.remove(path), ReplyView::Done)
        } else {
            (files, ReplyView::Failed(missing()))
        },
        RequestView::Rename { from, to } => if files.contains_key(from) {
            (files.remove(from).insert(to, files[from]), ReplyView::Done)
        } else {
            (files, ReplyView::Failed(missing()))
        },
        RequestView::CreateDirAll { .. } => (files, ReplyView::Failed(unsupported())),
        RequestView::ReadDir { .. } => (files, ReplyView::Failed(missing())),
    }
}

/// How many requests an operation that stands at `step` may still make.
pub open spec fn steps_left(step: StepView) -> nat {
    match step {
        StepView::Perform { stage, .. } => requests_left(stage) + 1,
        StepView::Finished(_) => 0,
    }
}

/// Runs an operation from `step` to its end against the flat store: the
/// files afterwards, and the operation's result.
pub open spec fn run(files: Files, step: StepView) -> (Files, Result<ResponseView, ErrorView>)
    decreases steps_left(step),
{
    match step {
        StepView::Finished(outcome) => (files, outcome),
        StepView::Perform { request, stage } => {
            let (after, reply) = answer(files, request);
            run(after, next_step(stage, reply))
        },
    }
}

/// A document that was written reads back as it was written: after
/// `write(f, c)`, which succeeds, `read(f)` under the same root gives
/// exactly `c`.
pub proof fn lemma_write_then_read(
    files: Files,
    root: Seq<char>,
    filename: Seq<char>,
    content: Seq<char>,
)
    ensures
        ({
            let (written, ack) = run(files, write_file_step(root, filename, content));
            let (read, text) = run(written, read_file_step(root, filename));
            &&& ack == Ok::<ResponseView, ErrorView>(ResponseView::Ack(file_written_message()))
            &&& text == Ok::<ResponseView, ErrorView>(ResponseView::Text(content))
            &&& read == written
        }),
{
    reveal_with_fuel(run, 3);
}

/// An update of a document that does not exist fails with `NotFound` and
/// leaves the store as it was: the document is not created.
pub proof fn lemma_update_needs_document(
    files: Files,
    root: Seq<char>,
    filename: Seq<char>,
    content: Seq<char>,
)
    requires
        !files.contains_key(joined_path(root, filename)),
    ensures
        run(files, update_file_step(root, filename, content)) == (
            files,
            Err::<ResponseView, ErrorView>(ErrorView::NotFound(file_not_found_message())),
        ),
{
    reveal_with_fuel(run, 3);
}

/// An update of a document that exists replaces its content, as a write
/// does.
pub proof fn lemma_update_replaces_document(
    files: Files,
    root: Seq<char>,
    filename: Seq<char>,
    content: Seq<char>,
)
    requires
        files.contains_key(joined_path(root, filename)),
    ensures
        run(files, update_file_step(root, filename, content)).0 == run(
            files,
            write_file_step(root, filename, content),
        ).0,
        run(files, update_file_step(root, filename, content)).1 is Ok,
{
    reveal_with_fuel(run, 3);
}

/// The removal of a document that does not exist fails with `NotFound` and
/// leaves the store as it was.
pub proof fn lemma_delete_needs_document(files: Files, root: Seq<char>, filename: Seq<char>)
    requires
        !files.contains_key(joined_path(root, filename)),
    ensures
        run(files, delete_file_step(root, filename)) == (
            files,
            Err::<ResponseView, ErrorView>(ErrorView::NotFound(missing().message)),
        ),
{
    reveal_with_fuel(run, 3);
}

/// A document that was written and then removed is gone: the removal
/// succeeds, and a read after it fails with `NotFound`.
pub proof fn lemma_write_delete_read(
    files: Files,
    root: Seq<char>,
    filename: Seq<char>,
    content: Seq<char>,
)
    ensures
        ({
            let written = run(files, write_file_step(root, filename, content)).0;
            let (removed, ack) = run(written, delete_file_step(root, filename));
            let text = run(removed, read_file_step(root, filename)).1;
            &&& ack == Ok::<ResponseView, ErrorView>(ResponseView::Ack(file_deleted_message()))
            &&& text == Err::<ResponseView, ErrorView>(ErrorView::NotFound(missing().message))
        }),
{
    reveal_with_fuel(run, 3);
}

/// A change of the root is immediate and total: a document written under
/// one root is not found under another root, unless both roots resolve the
/// name to one path or the other root held such a document before.
pub proof fn lemma_roots_do_not_share(
    files: Files,
    first_root: Seq<char>,
    second_root: Seq<char>,
    filename: Seq<char>,
    content: Seq<char>,
)
    requires
        joined_path(first_root, filename) != joined_path(second_root, filename),
        !files.contains_key(joined_path(second_root, filename)),
    ensures
        ({
            let written = run(files, write_file_step(first_root, filename, content)).0;
            run(written, read_file_step(second_root, filename)).1 == Err::<
                ResponseView,
                ErrorView,
            >(ErrorView::NotFound(missing().message))
        }),
{
    reveal_with_fuel(run, 3);
}

} // verus!
