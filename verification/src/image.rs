//! The cover-image render manager: a small state machine that tracks
//! what is on screen, decides what must be cleared, when a paint may
//! be attempted, and which area must be protected from text writes;
//! plus the janitor that picks protocol temp files for deletion and
//! the geometry of the centered square crop.

use vstd::prelude::*;

use crate::rect::Rect;
use crate::text::{spec_contains_sub, str_contains};

verus! {

/// What the terminal currently shows for the cover image. The
/// invariant maintained across frames: `rendered` implies the terminal
/// displays pixels for `url` at `render_area`.
pub struct ImageRenderState {
    pub url: String,
    pub render_area: Rect,
    pub rendered: bool,
}

/// The mathematical shape of the render state.
pub struct ImageStateV {
    pub url: Seq<char>,
    pub render_area: Rect,
    pub rendered: bool,
}

impl View for ImageRenderState {
    type V = ImageStateV;

    open spec fn view(&self) -> ImageStateV {
        ImageStateV { url: self.url@, render_area: self.render_area, rendered: self.rendered }
    }
}

/// The idle state: nothing tracked, nothing rendered.
pub open spec fn spec_idle() -> ImageStateV {
    ImageStateV {
        url: Seq::empty(),
        render_area: Rect { x: 0, y: 0, width: 0, height: 0 },
        rendered: false,
    }
}

impl ImageRenderState {
    /// The idle state.
    pub fn idle() -> (r: ImageRenderState)
        ensures
            r@ == spec_idle(),
    {
        let r = ImageRenderState {
            url: String::new(),
            render_area: Rect { x: 0, y: 0, width: 0, height: 0 },
            rendered: false,
        };
        proof {
            assert(r@ =~= spec_idle());
        }
        r
    }
}

impl Default for ImageRenderState {
    fn default() -> (r: ImageRenderState)
        ensures
            r@ == spec_idle(),
    {
        ImageRenderState::idle()
    }
}

/// What one frame must do about the image, decided before any drawing.
#[derive(Clone, Copy, Debug)]
pub struct ImageStepPlan {
    /// The previously tracked area to blank, if any.
    pub clear_old: Option<Rect>,
    /// The new target area to blank, if any.
    pub clear_new: Option<Rect>,
    /// Whether a paint may be attempted this frame.
    pub attempt_paint: bool,
    /// The area whose cells must be protected from text writes.
    pub protect: Option<Rect>,
}

/// The tracked state matches the frame's inputs.
pub open spec fn spec_matches(st: ImageStateV, url: Seq<char>, target: Rect) -> bool {
    st.url == url && st.render_area == target
}

/// The state after one frame's decision (before any paint outcome).
pub open spec fn spec_step_state(
    st: ImageStateV,
    url: Option<Seq<char>>,
    target: Rect,
) -> ImageStateV {
    match url {
        None => if st.rendered {
            spec_idle()
        } else {
            st
        },
        Some(u) => if !spec_matches(st, u, target) {
            ImageStateV { url: u, render_area: target, rendered: false }
        } else {
            st
        },
    }
}

/// The directives for one frame.
pub open spec fn spec_step_plan(
    st: ImageStateV,
    url: Option<Seq<char>>,
    target: Rect,
) -> ImageStepPlan {
    match url {
        None => ImageStepPlan {
            clear_old: if st.rendered {
                Some(st.render_area)
            } else {
                None
            },
            clear_new: None,
            attempt_paint: false,
            protect: None,
        },
        Some(u) => if !spec_matches(st, u, target) {
            ImageStepPlan {
                clear_old: Some(st.render_area),
                clear_new: Some(target),
                attempt_paint: false,
                protect: None,
            }
        } else {
            ImageStepPlan {
                clear_old: None,
                clear_new: None,
                attempt_paint: !st.rendered,
                protect: Some(target),
            }
        },
    }
}

/// The view of an optional URL.
pub open spec fn spec_url_view(url: Option<String>) -> Option<Seq<char>> {
    match url {
        Some(u) => Some(u@),
        None => None,
    }
}

/// Decide one frame of the image state machine.
///
/// With no URL resolvable, a previously rendered area is cleared once
/// and the state returns to idle. A changed URL or target clears both
/// the old and the new area (defensively, even when they coincide) and
/// the tracked state is replaced with `rendered` false. When tracked
/// state and inputs agree, nothing is cleared, the area is protected,
/// and a paint is attempted only while nothing is rendered yet.
pub fn plan_image_step(st: &mut ImageRenderState, url: &Option<String>, target: Rect) -> (plan:
    ImageStepPlan)
    ensures
        final(st)@ == spec_step_state(old(st)@, spec_url_view(*url), target),
        plan == spec_step_plan(old(st)@, spec_url_view(*url), target),
{
    match url {
        None => {
            if st.rendered {
                let area = st.render_area;
                *st = ImageRenderState::idle();
                ImageStepPlan {
                    clear_old: Some(area),
                    clear_new: None,
                    attempt_paint: false,
                    protect: None,
                }
            } else {
                ImageStepPlan {
                    clear_old: None,
                    clear_new: None,
                    attempt_paint: false,
                    protect: None,
                }
            }
        },
        Some(u) => {
            let same_url = st.url.eq(u);
            let same_area = st.render_area.x == target.x && st.render_area.y == target.y
                && st.render_area.width == target.width && st.render_area.height == target.height;
            if !(same_url && same_area) {
                let old_area = st.render_area;
                *st = ImageRenderState { url: u.clone(), render_area: target, rendered: false };
                ImageStepPlan {
                    clear_old: Some(old_area),
                    clear_new: Some(target),
                    attempt_paint: false,
                    protect: None,
                }
            } else {
                ImageStepPlan {
                    clear_old: None,
                    clear_new: None,
                    attempt_paint: !st.rendered,
                    protect: Some(target),
                }
            }
        },
    }
}

/// Record the outcome of a paint attempt: success marks the tracked
/// state rendered; failure leaves it as it was, so the paint is
/// retried next frame.
pub fn note_paint_result(st: &mut ImageRenderState, success: bool)
    ensures
        final(st).url@ == old(st).url@,
        final(st).render_area == old(st).render_area,
        final(st).rendered == (old(st).rendered || success),
{
    if success {
        st.rendered = true;
    }
}

/// Re-running a frame with unchanged inputs is idempotent: after one
/// pass the tracked state agrees with the inputs, so a second pass
/// issues no clears and leaves the state unchanged, whether or not a
/// successful paint was recorded in between.
pub proof fn lemma_rerender_idempotent(st: ImageStateV, u: Seq<char>, target: Rect)
    ensures
        ({
            let st1 = spec_step_state(st, Some(u), target);
            let painted = ImageStateV { url: st1.url, render_area: st1.render_area, rendered: true };
            &&& spec_matches(st1, u, target)
            &&& spec_step_plan(st1, Some(u), target).clear_old is None
            &&& spec_step_plan(st1, Some(u), target).clear_new is None
            &&& spec_step_state(st1, Some(u), target) == st1
            &&& spec_step_plan(painted, Some(u), target).clear_old is None
            &&& spec_step_plan(painted, Some(u), target).clear_new is None
            &&& spec_step_plan(painted, Some(u), target).attempt_paint == false
            &&& spec_step_state(painted, Some(u), target) == painted
        }),
{
}


/// The tracked state's invariant across mutation: whenever a frame
/// changes the tracked URL or area, the same frame's plan clears the
/// previously tracked area first (and the new target, when there is
/// one), and the rendered flag comes out false.
pub proof fn lemma_mutation_clears(st: ImageStateV, url: Option<Seq<char>>, target: Rect)
    ensures
        ({
            let st2 = spec_step_state(st, url, target);
            let plan = spec_step_plan(st, url, target);
            (st2.url != st.url || st2.render_area != st.render_area) ==> {
                &&& plan.clear_old == Some(st.render_area)
                &&& st2.rendered == false
                &&& url is Some ==> plan.clear_new == Some(target)
            }
        }),
{
}

/// Geometry of the centered square crop of a `w` by `h` image: the
/// offsets and the side length.
pub fn square_crop(w: u32, h: u32) -> (r: (u32, u32, u32))
    ensures
        ({
            let side = if w < h {
                w as int
            } else {
                h as int
            };
            &&& r.2 == side
            &&& r.0 == (w - side) / 2
            &&& r.1 == (h - side) / 2
            &&& r.0 + side <= w
            &&& r.1 + side <= h
        }),
{
    let side = if w < h {
        w
    } else {
        h
    };
    let x_off = (w - side) / 2;
    let y_off = (h - side) / 2;
    (x_off, y_off, side)
}

/// The pixel box a paint targets: the configured image size clamped to
/// the target rectangle.
pub fn paint_box(cfg_width: u16, cfg_length: u16, rect: Rect) -> (r: (u32, u32))
    ensures
        r.0 == if cfg_width < rect.width {
            cfg_width as int
        } else {
            rect.width as int
        },
        r.1 == if cfg_length < rect.height {
            cfg_length as int
        } else {
            rect.height as int
        },
{
    let w: u16 = if cfg_width < rect.width {
        cfg_width
    } else {
        rect.width
    };
    let h: u16 = if cfg_length < rect.height {
        cfg_length
    } else {
        rect.height
    };
    (w as u32, h as u32)
}

/// The substring that marks a temp file as owned by the image
/// protocol: the prefix viuer's kitty printer gives its temp files.
pub open spec fn spec_temp_marker() -> Seq<char> {
    ".tty-graphics-protocol.viuer"@
}

/// The marker as a string.
pub fn temp_file_marker() -> (r: &'static str)
    ensures
        r@ == spec_temp_marker(),
{
    ".tty-graphics-protocol.viuer"
}

/// Whether a path belongs to the image protocol's temp files.
pub fn is_protocol_temp_file(path: &str) -> (r: bool)
    ensures
        r == spec_contains_sub(path@, spec_temp_marker()),
{
    str_contains(path, temp_file_marker())
}

/// Pick, out of the paths of a temp directory, exactly those the image
/// protocol owns: the janitor deletes these and no others.
pub fn select_temp_files(paths: &Vec<String>) -> (r: Vec<String>)
    ensures
        r@.map_values(|p: String| p@) == paths@.map_values(|p: String| p@).filter(
            |p: Seq<char>| spec_contains_sub(p, spec_temp_marker()),
        ),
{
    let ghost views = paths@.map_values(|p: String| p@);
    let ghost pred = |p: Seq<char>| spec_contains_sub(p, spec_temp_marker());
    let mut r: Vec<String> = Vec::new();
    let mut i: usize = 0;
    proof {
        assert(views.take(0) =~= Seq::<Seq<char>>::empty());
        reveal(Seq::filter);
    }
    while i < paths.len()
        invariant
            i <= paths@.len(),
            views == paths@.map_values(|p: String| p@),
            pred == (|p: Seq<char>| spec_contains_sub(p, spec_temp_marker())),
            r@.map_values(|p: String| p@) == views.take(i as int).filter(pred),
        decreases paths@.len() - i,
    {
        let ghost prev = r@.map_values(|p: String| p@);
        if is_protocol_temp_file(paths[i].as_str()) {
            r.push(paths[i].clone());
            proof {
                assert(r@.map_values(|p: String| p@) =~= prev.push(views[i as int]));
            }
        }
        proof {
            reveal(Seq::filter);
            assert(views.take(i + 1).drop_last() =~= views.take(i as int));
            assert(views.take(i + 1).last() == views[i as int]);
            assert(r@.map_values(|p: String| p@) =~= views.take(i + 1).filter(pred));
        }
        i = i + 1;
    }
    proof {
        assert(views.take(paths@.len() as int) =~= views);
    }
    r
}

} // verus!
