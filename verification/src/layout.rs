//! Partitioning of the screen and of the panel rectangle: panel versus
//! rest of the screen, border inset, progress-bar row, and the
//! image/metadata columns.

use vstd::prelude::*;

use crate::config::{PanelConfig, Position};
use crate::rect::Rect;

verus! {

/// Height a square cover image of width `w` needs in cells: terminal
/// cells are roughly twice as tall as wide, so the image takes about
/// `w / 2` rows, at least one, and never more than the configured
/// image height.
pub open spec fn spec_image_height(w: int, cfg: PanelConfig) -> int {
    let half = w / 2;
    let at_least_one = if half > 1 {
        half
    } else {
        1
    };
    if at_least_one < cfg.cover_img_length as int {
        at_least_one
    } else {
        cfg.cover_img_length as int
    }
}

/// The square-image height for the configured image width.
pub open spec fn spec_square_image_height(cfg: PanelConfig) -> int {
    spec_image_height(cfg.cover_img_width as int, cfg)
}

/// The panel's full height: the configured height, raised when image
/// rendering is enabled so the image plus the progress-bar row fit,
/// plus two rows of border.
pub open spec fn spec_panel_height(cfg: PanelConfig) -> int {
    let base = cfg.playback_window_height as int;
    let raised = if cfg.image_enabled && spec_square_image_height(cfg) + 1 > base {
        spec_square_image_height(cfg) + 1
    } else {
        base
    };
    raised + 2
}

/// The panel/rest split: the panel gets `spec_panel_height` rows
/// (clamped to what is available), at the top or the bottom as
/// configured, the other rectangle the remaining rows.
pub open spec fn spec_split_panel(rect: Rect, cfg: PanelConfig) -> (Rect, Rect) {
    let h = if spec_panel_height(cfg) < rect.height as int {
        spec_panel_height(cfg)
    } else {
        rect.height as int
    };
    match cfg.playback_window_position {
        Position::Top => (
            Rect { x: rect.x, y: rect.y, width: rect.width, height: h as u16 },
            Rect {
                x: rect.x,
                y: (rect.y + h) as u16,
                width: rect.width,
                height: (rect.height - h) as u16,
            },
        ),
        Position::Bottom => (
            Rect {
                x: rect.x,
                y: (rect.y + rect.height - h) as u16,
                width: rect.width,
                height: h as u16,
            },
            Rect { x: rect.x, y: rect.y, width: rect.width, height: (rect.height - h) as u16 },
        ),
    }
}

/// Split the given area in two: the playback panel and the rest of
/// the screen.
pub fn split_rect_for_playback_window(rect: Rect, cfg: &PanelConfig) -> (r: (Rect, Rect))
    requires
        rect.wf(),
    ensures
        r == spec_split_panel(rect, *cfg),
        r.0.wf(),
        r.1.wf(),
{
    let half: u16 = cfg.cover_img_width / 2;
    let at_least_one: u16 = if half > 1 {
        half
    } else {
        1
    };
    let img_h: u16 = if at_least_one < cfg.cover_img_length {
        at_least_one
    } else {
        cfg.cover_img_length
    };
    let base: u32 = cfg.playback_window_height as u32;
    let raised: u32 = if cfg.image_enabled && img_h as u32 + 1 > base {
        img_h as u32 + 1
    } else {
        base
    };
    let full: u32 = raised + 2;
    let h: u16 = if full < rect.height as u32 {
        full as u16
    } else {
        rect.height
    };
    match cfg.playback_window_position {
        Position::Top => {
            let panel = Rect { x: rect.x, y: rect.y, width: rect.width, height: h };
            let other = Rect {
                x: rect.x,
                y: rect.y + h,
                width: rect.width,
                height: rect.height - h,
            };
            (panel, other)
        },
        Position::Bottom => {
            let other = Rect {
                x: rect.x,
                y: rect.y,
                width: rect.width,
                height: rect.height - h,
            };
            let panel = Rect {
                x: rect.x,
                y: rect.y + (rect.height - h),
                width: rect.width,
                height: h,
            };
            (panel, other)
        },
    }
}


/// The panel split is a partition: panel and rest share the full
/// width, their heights sum to the area's height, and no cell lies in
/// both.
pub proof fn lemma_split_panel_partitions(rect: Rect, cfg: PanelConfig)
    requires
        rect.wf(),
    ensures
        ({
            let r = spec_split_panel(rect, cfg);
            &&& r.0.height + r.1.height == rect.height
            &&& r.0.width == rect.width
            &&& r.1.width == rect.width
            &&& forall|cx: int, cy: int|
                #[trigger] r.0.spec_contains(cx, cy) ==> !r.1.spec_contains(cx, cy)
        }),
{
}

/// The area inside a one-cell border, empty when the rectangle is too
/// small to have one.
pub open spec fn spec_inner_rect(rect: Rect) -> Rect {
    if rect.width >= 2 && rect.height >= 2 {
        Rect {
            x: (rect.x + 1) as u16,
            y: (rect.y + 1) as u16,
            width: (rect.width - 2) as u16,
            height: (rect.height - 2) as u16,
        }
    } else {
        Rect { x: rect.x, y: rect.y, width: 0, height: 0 }
    }
}

/// Inset a rectangle by its one-cell border.
pub fn inner_rect(rect: Rect) -> (r: Rect)
    requires
        rect.wf(),
    ensures
        r == spec_inner_rect(rect),
        r.wf(),
{
    if rect.width >= 2 && rect.height >= 2 {
        Rect { x: rect.x + 1, y: rect.y + 1, width: rect.width - 2, height: rect.height - 2 }
    } else {
        Rect { x: rect.x, y: rect.y, width: 0, height: 0 }
    }
}

/// The metadata/progress-bar split: the bottom row is the bar, the
/// rows above it the metadata area.
pub open spec fn spec_split_progress(rect: Rect) -> (Rect, Rect) {
    let bar_h = if rect.height as int >= 1 {
        1int
    } else {
        0int
    };
    (
        Rect { x: rect.x, y: rect.y, width: rect.width, height: (rect.height - bar_h) as u16 },
        Rect {
            x: rect.x,
            y: (rect.y + rect.height - bar_h) as u16,
            width: rect.width,
            height: bar_h as u16,
        },
    )
}

/// Reserve the bottom row of the panel's inner area for the progress
/// bar.
pub fn split_progress_bar(rect: Rect) -> (r: (Rect, Rect))
    requires
        rect.wf(),
    ensures
        r == spec_split_progress(rect),
        r.0.wf(),
        r.1.wf(),
{
    let bar_h: u16 = if rect.height >= 1 {
        1
    } else {
        0
    };
    let upper = Rect { x: rect.x, y: rect.y, width: rect.width, height: rect.height - bar_h };
    let bar = Rect {
        x: rect.x,
        y: rect.y + (rect.height - bar_h),
        width: rect.width,
        height: bar_h,
    };
    (upper, bar)
}

/// The text/image column split: the image column on the left (its
/// configured width clamped to what is available), one spacing column
/// where room remains, the text area on the right; the image
/// rectangle's height is the square-image height clamped to the
/// column's height.
pub open spec fn spec_split_meta_cover(rect: Rect, cfg: PanelConfig) -> (Rect, Rect) {
    let col_w = if (cfg.cover_img_width as int) < rect.width as int {
        cfg.cover_img_width as int
    } else {
        rect.width as int
    };
    let spacing = if rect.width as int - col_w >= 1 {
        1int
    } else {
        0int
    };
    let img_h = if spec_image_height(col_w, cfg) < rect.height as int {
        spec_image_height(col_w, cfg)
    } else {
        rect.height as int
    };
    (
        Rect {
            x: (rect.x + col_w + spacing) as u16,
            y: rect.y,
            width: (rect.width - col_w - spacing) as u16,
            height: rect.height,
        },
        Rect { x: rect.x, y: rect.y, width: col_w as u16, height: img_h as u16 },
    )
}

/// Split the metadata area into the text area and the image column.
pub fn split_metadata_and_cover(rect: Rect, cfg: &PanelConfig) -> (r: (Rect, Rect))
    requires
        rect.wf(),
    ensures
        r == spec_split_meta_cover(rect, *cfg),
        r.0.wf(),
        r.1.wf(),
{
    let col_w: u16 = if cfg.cover_img_width < rect.width {
        cfg.cover_img_width
    } else {
        rect.width
    };
    let spacing: u16 = if rect.width - col_w >= 1 {
        1
    } else {
        0
    };
    let half: u16 = col_w / 2;
    let at_least_one: u16 = if half > 1 {
        half
    } else {
        1
    };
    let sq: u16 = if at_least_one < cfg.cover_img_length {
        at_least_one
    } else {
        cfg.cover_img_length
    };
    let img_h: u16 = if sq < rect.height {
        sq
    } else {
        rect.height
    };
    let metadata = Rect {
        x: rect.x + col_w + spacing,
        y: rect.y,
        width: rect.width - col_w - spacing,
        height: rect.height,
    };
    let cover = Rect { x: rect.x, y: rect.y, width: col_w, height: img_h };
    (metadata, cover)
}

} // verus!
