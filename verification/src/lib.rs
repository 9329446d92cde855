//! Storage core of a desktop note and media editor.
//!
//! The library owns every decision of the store and performs no file-system
//! call itself: each operation is a small state machine that names the next
//! file-system request and, given the reply, either names another request or
//! finishes with a typed result. The host performs the requests.

pub mod documents;
pub mod error;
pub mod machine;
pub mod media;
pub mod menu;
pub mod model;
pub mod paths;
pub mod protocol;
pub mod scanner;
pub mod state;

pub use error::{FailureKind, IoFailure, StoreError};
pub use menu::{build_menu, MenuEntry, MenuItemConfig, Submenu};
pub use protocol::{FsReply, FsRequest, Response, Stage, Step};
pub use scanner::{ContentRange, MediaEntry, MediaMatch, ScanResult};
pub use state::{init_app_state, set_directory, AppState, FileResponse};
