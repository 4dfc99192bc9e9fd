//! The playback progress bar: a clamped completion ratio and its
//! `elapsed/total` label. Upstream timing jitter can report elapsed
//! values below zero or beyond the total, so clamping is part of the
//! contract, not a convenience.

use vstd::prelude::*;

use crate::config::ProgressBarType;
use crate::rect::Rect;
use crate::text::{duration_text, format_duration};

verus! {

/// An exact completion ratio: `num / den`, always within `[0, 1]`.
#[derive(Clone, Copy, Debug, PartialEq, Eq, Structural)]
pub struct Ratio {
    pub num: u64,
    pub den: u64,
}

impl Ratio {
    /// The ratio is a well-formed fraction in the unit interval.
    pub open spec fn wf(self) -> bool {
        self.num <= self.den && 1 <= self.den
    }
}

/// The elapsed seconds clamped into `[0, total]` (and to 0 when the
/// total itself is not positive).
pub open spec fn spec_clamped_secs(elapsed: i64, total: i64) -> int {
    if total <= 0 {
        0
    } else if elapsed < 0 {
        0
    } else if elapsed > total {
        total as int
    } else {
        elapsed as int
    }
}

/// The completion ratio for the given durations. For every input —
/// elapsed negative, beyond the total, or a non-positive total — the
/// result is a fraction within `[0, 1]`.
pub fn progress_ratio(elapsed: i64, total: i64) -> (r: Ratio)
    ensures
        r.wf(),
        r.num == spec_clamped_secs(elapsed, total),
        r.den == if total <= 0 {
            1int
        } else {
            total as int
        },
        0 <= r.num <= r.den,
{
    if total <= 0 {
        Ratio { num: 0, den: 1 }
    } else if elapsed < 0 {
        Ratio { num: 0, den: total as u64 }
    } else if elapsed > total {
        Ratio { num: total as u64, den: total as u64 }
    } else {
        Ratio { num: elapsed as u64, den: total as u64 }
    }
}

/// Everything the caller needs to draw the progress bar: the clamped
/// ratio, the bolded `elapsed/total` label, the configured gauge kind,
/// and the rectangle it fills.
pub struct ProgressRender {
    pub ratio: Ratio,
    pub label: String,
    pub bar_type: ProgressBarType,
    pub rect: Rect,
}

/// The label: clamped elapsed and total, both as `minutes:seconds`,
/// joined with a slash.
pub open spec fn spec_progress_label(elapsed: i64, total: i64) -> Seq<char> {
    duration_text(spec_clamped_secs(elapsed, total) as nat) + "/"@ + duration_text(
        (if total <= 0 {
            0
        } else {
            total as int
        }) as nat,
    )
}

/// Compute everything one frame's progress bar shows, and record the
/// rectangle used so a later input-handling layer can map seek clicks
/// to a position.
pub fn render_playback_progress_bar(
    elapsed: i64,
    total: i64,
    rect: Rect,
    bar_type: ProgressBarType,
    bar_rect_store: &mut Rect,
) -> (r: ProgressRender)
    ensures
        r.ratio.wf(),
        r.ratio.num == spec_clamped_secs(elapsed, total),
        r.ratio.den == if total <= 0 {
            1int
        } else {
            total as int
        },
        r.label@ == spec_progress_label(elapsed, total),
        r.bar_type == bar_type,
        r.rect == rect,
        *final(bar_rect_store) == rect,
{
    let ratio = progress_ratio(elapsed, total);
    let mut label = format_duration(ratio.num);
    proof {
        reveal_strlit("/");
    }
    label.append("/");
    let total_secs: u64 = if total <= 0 {
        0
    } else {
        total as u64
    };
    let total_str = format_duration(total_secs);
    label.append(total_str.as_str());
    proof {
        assert(label@ =~= spec_progress_label(elapsed, total));
    }
    *bar_rect_store = rect;
    ProgressRender { ratio, label, bar_type, rect }
}

} // verus!
