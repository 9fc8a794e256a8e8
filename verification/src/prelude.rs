//! Common imports for building an `egelm` application: the widget traits,
//! application types, common `egui` types, and [`crate::emoji::emoji`].

pub use crate::emoji::emoji;
pub use crate::native::{Frame, Handle};
pub use crate::window::{App, AutoLifecycle, Context, LeafWidget, Managed, RootWidget, Sender, Widget};
pub use egui::{self, Align, Color32, Image, Label, Layout, Modal, RichText, ScrollArea, TextBuffer, TextEdit, TextStyle, TextWrapMode, ViewportBuilder};
