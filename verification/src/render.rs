//! One frame of the playback panel: splits the area, runs the image
//! state machine against the frame buffer, compiles the playback text,
//! and computes the progress bar. Drawing text and painting pixels is
//! left to the caller; everything decided here is returned as plain
//! values.

use vstd::prelude::*;

use crate::buffer::{clear_area, protect_area, Buffer, Cell};
use crate::config::PanelConfig;
use crate::format::{construct_playback_text, spec_playback_text, views_of_lines, StyledLine};
use crate::image::{
    plan_image_step, spec_step_plan, spec_step_state, spec_url_view, ImageStepPlan,
    ImageRenderState,
};
use crate::layout::{
    inner_rect, spec_inner_rect, spec_split_meta_cover, spec_split_panel, spec_split_progress,
    split_metadata_and_cover, split_progress_bar, split_rect_for_playback_window,
};
use crate::progress::{
    render_playback_progress_bar, spec_clamped_secs, spec_progress_label, ProgressRender,
};
use crate::protocol::ProtocolChoice;
use crate::rect::Rect;
use crate::snapshot::{PlayableItem, PlaybackMetadata};
use crate::style::SpanStyle;

verus! {

/// The state one UI session owns across frames.
pub struct UiSessionState {
    /// What the terminal currently shows for the cover image.
    pub last_cover_image_render_info: ImageRenderState,
    /// Where the progress bar was last drawn, for seek-click mapping.
    pub playback_progress_bar_rect: Rect,
}

/// A request to paint the cover image, handed to the caller who owns
/// the terminal and the decoded-image cache.
pub struct PaintRequest {
    pub url: String,
    pub rect: Rect,
    pub protocol: ProtocolChoice,
}

/// Everything one frame decided.
pub struct PanelOutput {
    /// The whole panel rectangle (the caller draws its border).
    pub panel_rect: Rect,
    /// Where the playback text goes, when there is any.
    pub metadata_rect: Rect,
    /// The compiled playback text, when playback metadata is known.
    pub text: Option<Vec<StyledLine>>,
    /// The progress bar, when an item is playing.
    pub progress: Option<ProgressRender>,
    /// The image directives this frame ran, when image support is on.
    pub image_plan: Option<ImageStepPlan>,
    /// A paint to attempt, when the plan asks for one and a protocol
    /// is selected.
    pub paint_request: Option<PaintRequest>,
    /// No playback: the caller shows its placeholder message instead.
    pub no_playback: bool,
}

/// Whether a cell lies in an optional rectangle.
pub open spec fn in_opt(r: Option<Rect>, cx: int, cy: int) -> bool {
    match r {
        Some(a) => a.spec_contains(cx, cy),
        None => false,
    }
}

/// A clear directive is applied only when its rectangle lies inside
/// the buffer; a stale area from before a terminal resize is skipped.
pub open spec fn eff_rect(b: Buffer, r: Option<Rect>) -> Option<Rect> {
    match r {
        Some(a) => if a.wf() && b.spec_fits(a) {
            Some(a)
        } else {
            None
        },
        None => None,
    }
}

/// One cell after the frame's image operations: blanked by a clear,
/// protected by a protect, untouched otherwise.
pub open spec fn spec_frame_effect(
    oldc: Cell,
    clear_old: Option<Rect>,
    clear_new: Option<Rect>,
    protect: Option<Rect>,
    cx: int,
    cy: int,
) -> Cell {
    let cleared = in_opt(clear_old, cx, cy) || in_opt(clear_new, cx, cy);
    Cell {
        ch: if cleared {
            ' '
        } else {
            oldc.ch
        },
        style: if cleared {
            SpanStyle::App
        } else {
            oldc.style
        },
        skip: if in_opt(protect, cx, cy) {
            true
        } else {
            oldc.skip
        },
    }
}

/// The image URL the current item resolves to.
pub open spec fn spec_item_url(item: PlayableItem) -> Option<String> {
    item.spec_image_url()
}

/// Render one frame of the playback panel into the given area.
///
/// Returns the frame's decisions and the rectangle left for the rest
/// of the application. The image state machine runs only when image
/// support is enabled; with no playing item it falls back to clearing
/// whatever was rendered. All buffer writes this function makes are
/// the plan's clears (old area only if it still fits the buffer) and
/// the protect marking; nothing else is touched.
pub fn render_playback_window(
    frame: &mut Buffer,
    item: &Option<PlayableItem>,
    meta: &Option<PlaybackMetadata>,
    progress_secs: i64,
    liked_track_uris: &Vec<String>,
    cfg: &PanelConfig,
    protocol: ProtocolChoice,
    ui: &mut UiSessionState,
    rect: Rect,
) -> (out: (PanelOutput, Rect))
    requires
        rect.wf(),
        old(frame).wf(),
        old(frame).spec_fits(rect),
    ensures
        ({
            let panel = spec_split_panel(rect, *cfg).0;
            let other = spec_split_panel(rect, *cfg).1;
            let inner = spec_inner_rect(panel);
            let upper = spec_split_progress(inner).0;
            let bar_rect = spec_split_progress(inner).1;
            let meta_rect = spec_split_meta_cover(upper, *cfg).0;
            let cover_rect = spec_split_meta_cover(upper, *cfg).1;
            let url = match item {
                Some(it) => spec_url_view(spec_item_url(*it)),
                None => None,
            };
            let plan = spec_step_plan(old(ui).last_cover_image_render_info@, url, cover_rect);
            &&& out.1 == other
            &&& out.0.panel_rect == panel
            &&& out.0.no_playback == (item is None)
            &&& out.0.metadata_rect == if cfg.image_enabled {
                meta_rect
            } else {
                upper
            }
            &&& out.0.image_plan == if cfg.image_enabled {
                Some(plan)
            } else {
                None
            }
            &&& final(ui).last_cover_image_render_info@ == if cfg.image_enabled {
                spec_step_state(old(ui).last_cover_image_render_info@, url, cover_rect)
            } else {
                old(ui).last_cover_image_render_info@
            }
            &&& out.0.paint_request matches Some(req) ==> (cfg.image_enabled
                && plan.attempt_paint && protocol != ProtocolChoice::NoneSelected
                && req.url@ == final(ui).last_cover_image_render_info.url@ && req.rect
                == cover_rect && req.protocol == protocol)
            &&& (cfg.image_enabled && plan.attempt_paint && protocol
                != ProtocolChoice::NoneSelected) ==> out.0.paint_request is Some
            &&& (match (item, meta) {
                (Some(it), Some(m)) => out.0.text matches Some(t) && views_of_lines(t@)
                    == spec_playback_text(
                    cfg.playback_format@,
                    *it,
                    *m,
                    *cfg,
                    liked_track_uris@,
                ),
                _ => out.0.text is None,
            })
            &&& (match item {
                Some(it) => {
                    let dur = it.spec_duration_secs();
                    let elapsed = if progress_secs < dur {
                        progress_secs
                    } else {
                        dur
                    };
                    &&& out.0.progress matches Some(p) && p.ratio.wf() && p.ratio.num
                        == spec_clamped_secs(elapsed, dur) && p.label@ == spec_progress_label(
                        elapsed,
                        dur,
                    ) && p.rect == bar_rect && p.bar_type == cfg.progress_bar_type
                    &&& final(ui).playback_progress_bar_rect == bar_rect
                },
                None => {
                    &&& out.0.progress is None
                    &&& final(ui).playback_progress_bar_rect == old(
                        ui,
                    ).playback_progress_bar_rect
                },
            })
            &&& final(frame).wf()
            &&& final(frame).width == old(frame).width
            &&& final(frame).height == old(frame).height
            &&& ({
                let co = if cfg.image_enabled {
                    eff_rect(*old(frame), plan.clear_old)
                } else {
                    None
                };
                let cn = if cfg.image_enabled {
                    eff_rect(*old(frame), plan.clear_new)
                } else {
                    None
                };
                let pr = if cfg.image_enabled {
                    eff_rect(*old(frame), plan.protect)
                } else {
                    None
                };
                forall|cx: int, cy: int|
                    0 <= cx < final(frame).width && 0 <= cy < final(frame).height
                        ==> #[trigger] final(frame).cell_at(cx, cy) == spec_frame_effect(
                        old(frame).cell_at(cx, cy),
                        co,
                        cn,
                        pr,
                        cx,
                        cy,
                    )
            })
        }),
{
    let (panel, other) = split_rect_for_playback_window(rect, cfg);
    let inner = inner_rect(panel);
    let (upper, bar_rect) = split_progress_bar(inner);
    let (meta_rect, cover_rect) = split_metadata_and_cover(upper, cfg);

    let mut image_plan: Option<ImageStepPlan> = None;
    let mut paint_request: Option<PaintRequest> = None;
    if cfg.image_enabled {
        let no_url: Option<String> = None;
        let plan = match item {
            Some(it) => plan_image_step(
                &mut ui.last_cover_image_render_info,
                it.image_url(),
                cover_rect,
            ),
            None => plan_image_step(&mut ui.last_cover_image_render_info, &no_url, cover_rect),
        };
        match plan.clear_old {
            Some(area) => {
                if area.x as u32 + area.width as u32 <= frame.width as u32 && area.y as u32
                    + area.height as u32 <= frame.height as u32 {
                    clear_area(frame, area, SpanStyle::App);
                }
            },
            None => {},
        }
        match plan.clear_new {
            Some(area) => {
                if area.x as u32 + area.width as u32 <= frame.width as u32 && area.y as u32
                    + area.height as u32 <= frame.height as u32 {
                    clear_area(frame, area, SpanStyle::App);
                }
            },
            None => {},
        }
        match plan.protect {
            Some(area) => {
                if area.x as u32 + area.width as u32 <= frame.width as u32 && area.y as u32
                    + area.height as u32 <= frame.height as u32 {
                    protect_area(frame, area);
                }
            },
            None => {},
        }
        if plan.attempt_paint && !matches!(protocol, ProtocolChoice::NoneSelected) {
            paint_request = Some(
                PaintRequest {
                    url: ui.last_cover_image_render_info.url.clone(),
                    rect: cover_rect,
                    protocol,
                },
            );
        }
        image_plan = Some(plan);
    }

    let text: Option<Vec<StyledLine>> = match (item, meta) {
        (Some(it), Some(m)) => Some(construct_playback_text(it, m, cfg, liked_track_uris)),
        _ => None,
    };

    let progress: Option<ProgressRender> = match item {
        Some(it) => {
            let dur = it.duration_secs();
            let elapsed = if progress_secs < dur {
                progress_secs
            } else {
                dur
            };
            Some(
                render_playback_progress_bar(
                    elapsed,
                    dur,
                    bar_rect,
                    cfg.progress_bar_type,
                    &mut ui.playback_progress_bar_rect,
                ),
            )
        },
        None => None,
    };

    let out = PanelOutput {
        panel_rect: panel,
        metadata_rect: if cfg.image_enabled {
            meta_rect
        } else {
            upper
        },
        text,
        progress,
        image_plan,
        paint_request,
        no_playback: item.is_none(),
    };
    (out, other)
}

} // verus!
