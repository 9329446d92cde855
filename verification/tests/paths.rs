use note_store::paths::{media_destination, media_dir, resolve};
use note_store::{init_app_state, set_directory, AppState};

fn rooted(root: &str) -> AppState {
    AppState { files_dir: root.to_string() }
}

#[test]
fn fresh_state_has_an_empty_root() {
    let state = init_app_state();
    assert_eq!(state.files_dir, "");
    assert_eq!(state.root(), "");
}

#[test]
fn set_directory_replaces_the_root() {
    let mut state = init_app_state();
    let ack = set_directory(&mut state, "/notes".to_string());
    assert_eq!(ack.message, "Directory path set successfully");
    assert_eq!(state.files_dir, "/notes");
    let ack = set_directory(&mut state, "relative/dir that is not there".to_string());
    assert_eq!(ack.message, "Directory path set successfully");
    assert_eq!(state.root(), "relative/dir that is not there");
}

#[test]
fn resolve_joins_root_and_name() {
    assert_eq!(resolve(&rooted("/notes"), "plan.txt"), "/notes/plan.txt");
    assert_eq!(resolve(&rooted("/notes/"), "plan.txt"), "/notes/plan.txt");
    assert_eq!(resolve(&rooted("notes"), "sub/plan.txt"), "notes/sub/plan.txt");
}

#[test]
fn resolve_under_the_empty_root_is_the_name() {
    assert_eq!(resolve(&init_app_state(), "plan.txt"), "plan.txt");
}

#[test]
fn resolve_does_not_confine_names_to_the_root() {
    assert_eq!(resolve(&rooted("/notes"), "/etc/hosts"), "/etc/hosts");
    assert_eq!(resolve(&rooted("/notes"), "../other"), "/notes/../other");
}

#[test]
fn media_dir_stands_under_the_root() {
    assert_eq!(media_dir(&rooted("/notes")), "/notes/media");
    assert_eq!(media_dir(&init_app_state()), "media");
}

#[test]
fn destination_keeps_the_file_name() {
    assert_eq!(
        media_destination("/r/media", "/tmp/x/photo.png"),
        Some("/r/media/photo.png".to_string())
    );
    assert_eq!(media_destination("/r/media", "photo.png"), Some("/r/media/photo.png".to_string()));
    assert_eq!(media_destination("/r/media", "/tmp/dir/"), Some("/r/media/dir".to_string()));
}

#[test]
fn source_without_file_name_has_no_destination() {
    assert_eq!(media_destination("/r/media", ""), None);
    assert_eq!(media_destination("/r/media", "/"), None);
    assert_eq!(media_destination("/r/media", "/tmp/.."), None);
}
