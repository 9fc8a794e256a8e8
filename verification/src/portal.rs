//! Requests to XDG desktop portals: opening files and links, choosing files,
//! and global shortcuts.

pub mod file_dialog;
pub mod open_uri;
pub mod shortcuts;
