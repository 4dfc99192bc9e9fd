use playback_panel::image::{
    is_protocol_temp_file, note_paint_result, plan_image_step, select_temp_files, square_crop,
    paint_box, ImageRenderState,
};
use playback_panel::rect::Rect;

fn rect(x: u16, y: u16, w: u16, h: u16) -> Rect {
    Rect { x, y, width: w, height: h }
}

#[test]
fn state_machine_clears_then_renders_then_idles() {
    let mut st = ImageRenderState::idle();
    let area = rect(2, 3, 10, 5);
    let url = Some(String::from("http://img/1"));

    // A resolved URL from idle: both areas cleared, nothing painted yet.
    let plan = plan_image_step(&mut st, &url, area);
    assert_eq!(plan.clear_old, Some(rect(0, 0, 0, 0)));
    assert_eq!(plan.clear_new, Some(area));
    assert!(!plan.attempt_paint);
    assert_eq!(plan.protect, None);
    assert_eq!(st.url, "http://img/1");
    assert_eq!(st.render_area, area);
    assert!(!st.rendered);

    // Same inputs next frame: paint attempted, area protected.
    let plan = plan_image_step(&mut st, &url, area);
    assert_eq!(plan.clear_old, None);
    assert_eq!(plan.clear_new, None);
    assert!(plan.attempt_paint);
    assert_eq!(plan.protect, Some(area));

    // A successful paint marks the state rendered.
    note_paint_result(&mut st, true);
    assert!(st.rendered);

    // Rendered and unchanged: nothing to do but protect.
    let plan = plan_image_step(&mut st, &url, area);
    assert!(!plan.attempt_paint);
    assert_eq!(plan.clear_old, None);
    assert_eq!(plan.clear_new, None);
    assert_eq!(plan.protect, Some(area));

    // Changing only the rectangle clears both old and new areas.
    let moved = rect(4, 3, 10, 5);
    let plan = plan_image_step(&mut st, &url, moved);
    assert_eq!(plan.clear_old, Some(area));
    assert_eq!(plan.clear_new, Some(moved));
    assert!(!st.rendered);

    // Paint again, successfully.
    let plan = plan_image_step(&mut st, &url, moved);
    assert!(plan.attempt_paint);
    note_paint_result(&mut st, true);

    // Losing the URL clears the rendered area exactly once and idles.
    let plan = plan_image_step(&mut st, &None, moved);
    assert_eq!(plan.clear_old, Some(moved));
    assert_eq!(plan.clear_new, None);
    assert_eq!(st.url, "");
    assert!(!st.rendered);

    // Still no URL: nothing left to clear.
    let plan = plan_image_step(&mut st, &None, moved);
    assert_eq!(plan.clear_old, None);
    assert_eq!(plan.clear_new, None);
}

#[test]
fn failed_paint_leaves_state_cleared_and_retries_next_frame() {
    let mut st = ImageRenderState::idle();
    let area = rect(0, 0, 8, 4);
    let url = Some(String::from("u"));
    let _ = plan_image_step(&mut st, &url, area);
    let plan = plan_image_step(&mut st, &url, area);
    assert!(plan.attempt_paint);
    note_paint_result(&mut st, false);
    assert!(!st.rendered);
    let plan = plan_image_step(&mut st, &url, area);
    assert!(plan.attempt_paint);
}

#[test]
fn rerender_with_unchanged_inputs_is_idempotent() {
    let mut st = ImageRenderState::idle();
    let area = rect(1, 1, 6, 3);
    let url = Some(String::from("same"));
    let _ = plan_image_step(&mut st, &url, area);
    let plan = plan_image_step(&mut st, &url, area);
    note_paint_result(&mut st, true);
    assert!(plan.clear_old.is_none() && plan.clear_new.is_none());

    let before_url = st.url.clone();
    let before_area = st.render_area;
    let before_rendered = st.rendered;
    let plan = plan_image_step(&mut st, &url, area);
    assert!(plan.clear_old.is_none() && plan.clear_new.is_none());
    assert!(!plan.attempt_paint);
    assert_eq!(st.url, before_url);
    assert_eq!(st.render_area, before_area);
    assert_eq!(st.rendered, before_rendered);
}

#[test]
fn janitor_selects_only_protocol_temp_files() {
    let paths = vec![
        String::from("/tmp/.tty-graphics-protocol.viuer.abc123"),
        String::from("/tmp/report.txt"),
        String::from("/tmp/nested/.tty-graphics-protocol.viuer.z"),
        String::from("/tmp/viuer.log"),
    ];
    let picked = select_temp_files(&paths);
    assert_eq!(picked.len(), 2);
    assert_eq!(picked[0], "/tmp/.tty-graphics-protocol.viuer.abc123");
    assert_eq!(picked[1], "/tmp/nested/.tty-graphics-protocol.viuer.z");

    assert!(is_protocol_temp_file("/x/.tty-graphics-protocol.viuer.1"));
    assert!(!is_protocol_temp_file("/x/unrelated"));
}

#[test]
fn square_crop_is_centered_with_min_side() {
    assert_eq!(square_crop(100, 60), (20, 0, 60));
    assert_eq!(square_crop(60, 100), (0, 20, 60));
    assert_eq!(square_crop(50, 50), (0, 0, 50));
}

#[test]
fn paint_box_clamps_to_target_rectangle() {
    let r = rect(0, 0, 10, 4);
    assert_eq!(paint_box(20, 3, r), (10, 3));
    assert_eq!(paint_box(8, 9, r), (8, 4));
}
