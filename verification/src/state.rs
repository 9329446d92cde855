//! The root directory that every operation resolves its paths against.

use vstd::prelude::*;

verus! {

/// The configuration shared by all operations: the current root directory.
///
/// The host keeps the one live value behind its own lock and lends it to an
/// operation only while that operation resolves its paths.
pub struct AppState {
    pub files_dir: String,
}

impl View for AppState {
    type V = Seq<char>;

    /// The root directory as a sequence of characters.
    open spec fn view(&self) -> Seq<char> {
        self.files_dir@
    }
}

/// The acknowledgement that a side-effecting operation finishes with.
#[derive(Debug, PartialEq, Eq)]
pub struct FileResponse {
    pub message: String,
}

impl View for FileResponse {
    type V = Seq<char>;

    /// The acknowledgement's message.
    open spec fn view(&self) -> Seq<char> {
        self.message@
    }
}

/// The message that acknowledges a change of the root directory.
pub open spec fn directory_set_message() -> Seq<char> {
    "Directory path set successfully"@
}

/// A fresh state: the root directory is the empty string.
pub fn init_app_state() -> (state: AppState)
    ensures
        state@ == Seq::<char>::empty(),
{
    AppState { files_dir: String::new() }
}

impl AppState {
    /// The current root directory.
    pub fn root(&self) -> (root: &String)
        ensures
            root@ == self@,
    {
        &self.files_dir
    }
}

/// Replaces the root directory by `path`, whatever it was and whatever `path`
/// is: nothing is validated, and the change cannot fail.
pub fn set_directory(state: &mut AppState, path: String) -> (ack: FileResponse)
    ensures
        final(state)@ == path@,
        ack@ == directory_set_message(),
{
    state.files_dir = path;
    FileResponse { message: String::from_str("Directory path set successfully") }
}

} // verus!
