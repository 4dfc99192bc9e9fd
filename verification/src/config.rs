//! The slice of application configuration this core consumes.

use vstd::prelude::*;

verus! {

/// Where the playback panel sits relative to the rest of the screen.
#[derive(Clone, Copy, Debug, PartialEq, Eq, Structural)]
pub enum Position {
    Top,
    Bottom,
}

/// Which gauge widget draws the progress bar.
#[derive(Clone, Copy, Debug, PartialEq, Eq, Structural)]
pub enum ProgressBarType {
    Line,
    Rectangle,
}

/// Configuration the panel reads. Icons and the format string are
/// user-chosen; image support is a runtime capability switch rather
/// than a compile-time feature.
pub struct PanelConfig {
    /// Preferred inner height of the panel, without borders.
    pub playback_window_height: u16,
    pub playback_window_position: Position,
    /// Target width of the cover image, in cells.
    pub cover_img_width: u16,
    /// Target height of the cover image, in cells.
    pub cover_img_length: u16,
    /// Whether cover-image rendering is available at all.
    pub image_enabled: bool,
    pub progress_bar_type: ProgressBarType,
    pub play_icon: String,
    pub pause_icon: String,
    pub liked_icon: String,
    /// The format string the playback text is compiled from.
    pub playback_format: String,
    /// Which metadata fields `{metadata}` shows, in order.
    pub playback_metadata_fields: Vec<String>,
    /// Explicit image-protocol override, if the user set one.
    pub image_protocol: Option<String>,
}

} // verus!
