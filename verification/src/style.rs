//! Style identifiers for styled text and buffer cells.
//!
//! The surrounding application maps each identifier to a concrete
//! terminal style (colors, modifiers) from its theme; the core only
//! decides which identifier each piece of text carries.

use vstd::prelude::*;

verus! {

/// The theme slot a span or cell is drawn with.
#[derive(Clone, Copy, Debug, PartialEq, Eq, Structural)]
pub enum SpanStyle {
    /// Unstyled literal text from the format string.
    Plain,
    /// The play/pause status icon.
    PlaybackStatus,
    /// The liked-track icon.
    Like,
    /// Track or episode title.
    Track,
    /// Artist names or episode publisher.
    Artists,
    /// Album or show name.
    Album,
    /// The joined metadata fields.
    Metadata,
    /// The application's base style, used when blanking cells.
    App,
}

} // verus!
