use note_store::documents::{delete_file, read_file, update_file, write_file};
use note_store::machine::resume;
use note_store::media::{list_media, list_paths, move_media, plan_move, scan_content_for_media};
use note_store::{
    AppState, FailureKind, FileResponse, FsReply, FsRequest, IoFailure, MediaEntry, Response,
    Stage, Step, StoreError,
};

fn rooted(root: &str) -> AppState {
    AppState { files_dir: root.to_string() }
}

fn failure(kind: FailureKind, message: &str) -> FsReply {
    FsReply::Failed(IoFailure { kind, message: message.to_string() })
}

fn rejected() -> Step {
    Step::Finished(Err(StoreError::IoError("Unexpected file-system reply".to_string())))
}

fn acknowledged(message: &str) -> Step {
    Step::Finished(Ok(Response::Ack(FileResponse { message: message.to_string() })))
}

#[test]
fn read_begins_with_a_read_of_the_resolved_path() {
    assert_eq!(
        read_file(&rooted("/r"), "a.md"),
        Step::Perform {
            request: FsRequest::ReadText { path: "/r/a.md".to_string() },
            stage: Stage::ReadingFile,
        }
    );
}

#[test]
fn write_begins_with_the_write_itself() {
    assert_eq!(
        write_file(&rooted("/r"), "a.md", "body".to_string()),
        Step::Perform {
            request: FsRequest::WriteText { path: "/r/a.md".to_string(), content: "body".to_string() },
            stage: Stage::WritingFile,
        }
    );
}

#[test]
fn update_begins_with_a_probe() {
    assert_eq!(
        update_file(&rooted("/r"), "a.md", "body".to_string()),
        Step::Perform {
            request: FsRequest::Exists { path: "/r/a.md".to_string() },
            stage: Stage::ProbingFile { path: "/r/a.md".to_string(), content: "body".to_string() },
        }
    );
}

#[test]
fn delete_begins_with_the_removal() {
    assert_eq!(
        delete_file(&rooted("/r"), "a.md"),
        Step::Perform {
            request: FsRequest::RemoveFile { path: "/r/a.md".to_string() },
            stage: Stage::DeletingFile,
        }
    );
}

#[test]
fn list_begins_with_a_probe_of_the_media_directory() {
    assert_eq!(
        list_media(&rooted("/r")),
        Step::Perform {
            request: FsRequest::Exists { path: "/r/media".to_string() },
            stage: Stage::ProbingMediaForList { media_dir: "/r/media".to_string() },
        }
    );
}

#[test]
fn move_fixes_its_destination_at_the_start() {
    assert_eq!(
        move_media(&rooted("R"), "/tmp/x/photo.png".to_string()),
        Step::Perform {
            request: FsRequest::Exists { path: "R/media".to_string() },
            stage: Stage::ProbingMediaForMove {
                media_dir: "R/media".to_string(),
                source: "/tmp/x/photo.png".to_string(),
                destination: Some("R/media/photo.png".to_string()),
            },
        }
    );
}

#[test]
fn scan_begins_with_a_listing_and_creates_nothing() {
    assert_eq!(
        scan_content_for_media(&rooted("/r"), "text".to_string()),
        Step::Perform {
            request: FsRequest::ReadDir { path: "/r/media".to_string() },
            stage: Stage::ScanningMedia { content: "text".to_string() },
        }
    );
}

#[test]
fn failed_read_is_told_apart_by_its_cause() {
    assert_eq!(
        resume(Stage::ReadingFile, failure(FailureKind::NotFound, "gone")),
        Step::Finished(Err(StoreError::NotFound("gone".to_string())))
    );
    assert_eq!(
        resume(Stage::ReadingFile, failure(FailureKind::Other, "denied")),
        Step::Finished(Err(StoreError::IoError("denied".to_string())))
    );
}

#[test]
fn failed_removal_is_told_apart_by_its_cause() {
    assert_eq!(
        resume(Stage::DeletingFile, failure(FailureKind::NotFound, "gone")),
        Step::Finished(Err(StoreError::NotFound("gone".to_string())))
    );
    assert_eq!(
        resume(Stage::DeletingFile, failure(FailureKind::Other, "denied")),
        Step::Finished(Err(StoreError::IoError("denied".to_string())))
    );
    assert_eq!(resume(Stage::DeletingFile, FsReply::Done), acknowledged("File deleted successfully"));
}

#[test]
fn failed_write_is_always_an_io_error() {
    let io = Step::Finished(Err(StoreError::IoError("gone".to_string())));
    assert_eq!(resume(Stage::WritingFile, failure(FailureKind::NotFound, "gone")), io);
    assert_eq!(resume(Stage::UpdatingFile, failure(FailureKind::NotFound, "gone")), io);
    assert_eq!(resume(Stage::WritingFile, FsReply::Done), acknowledged("File written successfully"));
    assert_eq!(resume(Stage::UpdatingFile, FsReply::Done), acknowledged("File updated successfully"));
}

#[test]
fn update_writes_only_to_an_existing_document() {
    let probing = || Stage::ProbingFile { path: "/r/a".to_string(), content: "c".to_string() };
    assert_eq!(
        resume(probing(), FsReply::Exists(true)),
        Step::Perform {
            request: FsRequest::WriteText { path: "/r/a".to_string(), content: "c".to_string() },
            stage: Stage::UpdatingFile,
        }
    );
    assert_eq!(
        resume(probing(), FsReply::Exists(false)),
        Step::Finished(Err(StoreError::NotFound("File not found".to_string())))
    );
}

#[test]
fn failed_directory_calls_are_io_errors() {
    let io = Step::Finished(Err(StoreError::IoError("denied".to_string())));
    let creating = Stage::CreatingMediaForList { media_dir: "/r/media".to_string() };
    assert_eq!(resume(creating, failure(FailureKind::Other, "denied")), io);
    assert_eq!(resume(Stage::ListingMedia, failure(FailureKind::NotFound, "denied")), io);
    let creating = Stage::CreatingMediaForMove { source: "/s/a".to_string(), destination: None };
    assert_eq!(resume(creating, failure(FailureKind::Other, "denied")), io);
    let moving = Stage::MovingMedia { target: "/r/media/a".to_string() };
    assert_eq!(resume(moving, failure(FailureKind::Other, "denied")), io);
    let scanning = Stage::ScanningMedia { content: "c".to_string() };
    assert_eq!(resume(scanning, failure(FailureKind::NotFound, "denied")), io);
}

#[test]
fn move_creates_the_directory_before_it_judges_the_source() {
    let probing = Stage::ProbingMediaForMove {
        media_dir: "/r/media".to_string(),
        source: "/".to_string(),
        destination: None,
    };
    let step = resume(probing, FsReply::Exists(false));
    assert_eq!(
        step,
        Step::Perform {
            request: FsRequest::CreateDirAll { path: "/r/media".to_string() },
            stage: Stage::CreatingMediaForMove { source: "/".to_string(), destination: None },
        }
    );
    let creating = Stage::CreatingMediaForMove { source: "/".to_string(), destination: None };
    assert_eq!(
        resume(creating, FsReply::Done),
        Step::Finished(Err(StoreError::InvalidPath("Invalid source path".to_string())))
    );
}

#[test]
fn plan_move_renames_to_the_destination() {
    assert_eq!(
        plan_move("/s/a.png".to_string(), Some("/r/media/a.png".to_string())),
        Step::Perform {
            request: FsRequest::Rename {
                from: "/s/a.png".to_string(),
                to: "/r/media/a.png".to_string(),
            },
            stage: Stage::MovingMedia { target: "/r/media/a.png".to_string() },
        }
    );
    assert_eq!(
        plan_move("/".to_string(), None),
        Step::Finished(Err(StoreError::InvalidPath("Invalid source path".to_string())))
    );
    let moving = Stage::MovingMedia { target: "/r/media/a.png".to_string() };
    assert_eq!(
        resume(moving, FsReply::Done),
        Step::Finished(Ok(Response::Text("/r/media/a.png".to_string())))
    );
}

#[test]
fn listing_skips_entries_whose_path_is_not_text() {
    let entries = vec![
        MediaEntry { file_name: Some("a".to_string()), path: Some("/m/a".to_string()) },
        MediaEntry { file_name: Some("b".to_string()), path: None },
        MediaEntry { file_name: None, path: None },
        MediaEntry { file_name: None, path: Some("/m/c".to_string()) },
    ];
    assert_eq!(list_paths(&entries), vec!["/m/a".to_string(), "/m/c".to_string()]);
    assert_eq!(
        resume(Stage::ListingMedia, FsReply::Entries(entries)),
        Step::Finished(Ok(Response::Paths(vec!["/m/a".to_string(), "/m/c".to_string()])))
    );
}

#[test]
fn reply_of_the_wrong_kind_ends_the_operation() {
    assert_eq!(resume(Stage::ReadingFile, FsReply::Done), rejected());
    assert_eq!(resume(Stage::WritingFile, FsReply::Text("t".to_string())), rejected());
    assert_eq!(resume(Stage::DeletingFile, FsReply::Exists(true)), rejected());
    assert_eq!(resume(Stage::ListingMedia, FsReply::Done), rejected());
    let probing = Stage::ProbingFile { path: "/r/a".to_string(), content: "c".to_string() };
    assert_eq!(resume(probing, failure(FailureKind::Other, "denied")), rejected());
    let scanning = Stage::ScanningMedia { content: "c".to_string() };
    assert_eq!(resume(scanning, FsReply::Exists(true)), rejected());
}

#[test]
fn error_hands_out_its_message() {
    assert_eq!(StoreError::NotFound("a".to_string()).message(), "a");
    assert_eq!(StoreError::IoError("b".to_string()).message(), "b");
    assert_eq!(StoreError::InvalidPath("c".to_string()).message(), "c");
    let gone = IoFailure { kind: FailureKind::NotFound, message: "gone".to_string() };
    assert_eq!(StoreError::by_kind(gone), StoreError::NotFound("gone".to_string()));
    let gone = IoFailure { kind: FailureKind::NotFound, message: "gone".to_string() };
    assert_eq!(StoreError::as_io(gone), StoreError::IoError("gone".to_string()));
}
