//! Reusable widgets supplied by `egelm`.

pub use crate::window::about_dialog::AboutDialog;
