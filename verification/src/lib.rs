//! Build event-driven desktop interfaces with `egui`.
//!
//! `egelm` supplies a small widget lifecycle, typed message routing, window
//! state, storage backends and reusable dialogs on top of `egui`.

pub mod channel;
pub mod emoji;
pub mod error;
pub mod lifecycle;
pub mod native;
pub mod portal;
pub mod prelude;
pub mod storage;
pub mod text;
pub mod theme;
pub mod widgets;
pub mod window;

