//! Verified core of a terminal "now playing" panel: layout splitting,
//! a format-string compiler producing styled text, a progress-bar model,
//! terminal graphics protocol selection, and the cover-image render
//! state machine with its temp-file janitor.

pub mod buffer;
pub mod config;
pub mod format;
pub mod image;
pub mod layout;
pub mod progress;
pub mod protocol;
pub mod rect;
pub mod render;
pub mod shaping;
pub mod snapshot;
pub mod style;
pub mod text;

pub use rect::Rect;
