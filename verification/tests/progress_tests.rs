use playback_panel::config::ProgressBarType;
use playback_panel::progress::{progress_ratio, render_playback_progress_bar};
use playback_panel::rect::Rect;
use playback_panel::text::{format_duration, u64_to_string};

#[test]
fn ratio_is_clamped_to_unit_interval() {
    let r = progress_ratio(30, 120);
    assert_eq!(r.num, 30);
    assert_eq!(r.den, 120);

    let r = progress_ratio(-5, 120);
    assert_eq!(r.num, 0);
    assert_eq!(r.den, 120);

    let r = progress_ratio(500, 120);
    assert_eq!(r.num, 120);
    assert_eq!(r.den, 120);

    let r = progress_ratio(10, 0);
    assert_eq!(r.num, 0);
    assert_eq!(r.den, 1);

    let r = progress_ratio(10, -3);
    assert_eq!(r.num, 0);
    assert_eq!(r.den, 1);
}

#[test]
fn decimal_rendering_is_exact() {
    assert_eq!(u64_to_string(0), "0");
    assert_eq!(u64_to_string(7), "7");
    assert_eq!(u64_to_string(50), "50");
    assert_eq!(u64_to_string(12345), "12345");
}

#[test]
fn durations_format_as_minutes_and_padded_seconds() {
    assert_eq!(format_duration(0), "0:00");
    assert_eq!(format_duration(59), "0:59");
    assert_eq!(format_duration(61), "1:01");
    assert_eq!(format_duration(600), "10:00");
    assert_eq!(format_duration(3661), "61:01");
}

#[test]
fn progress_bar_labels_and_records_rect() {
    let rect = Rect { x: 1, y: 10, width: 30, height: 1 };
    let mut store = Rect { x: 0, y: 0, width: 0, height: 0 };
    let p = render_playback_progress_bar(30, 120, rect, ProgressBarType::Line, &mut store);
    assert_eq!(p.label, "0:30/2:00");
    assert_eq!(p.ratio.num, 30);
    assert_eq!(p.ratio.den, 120);
    assert_eq!(p.rect, rect);
    assert_eq!(store, rect);
    assert!(matches!(p.bar_type, ProgressBarType::Line));
}

#[test]
fn progress_bar_label_clamps_negative_elapsed() {
    let rect = Rect { x: 0, y: 0, width: 10, height: 1 };
    let mut store = Rect { x: 0, y: 0, width: 0, height: 0 };
    let p = render_playback_progress_bar(-7, 90, rect, ProgressBarType::Rectangle, &mut store);
    assert_eq!(p.label, "0:00/1:30");
    assert_eq!(p.ratio.num, 0);
}
