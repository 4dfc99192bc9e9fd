use playback_panel::buffer::{clear_area, protect_area, Buffer};
use playback_panel::config::{PanelConfig, Position, ProgressBarType};
use playback_panel::layout::{
    inner_rect, split_metadata_and_cover, split_progress_bar, split_rect_for_playback_window,
};
use playback_panel::rect::Rect;
use playback_panel::style::SpanStyle;

fn cfg(height: u16, img_w: u16, img_l: u16, image: bool, pos: Position) -> PanelConfig {
    PanelConfig {
        playback_window_height: height,
        playback_window_position: pos,
        cover_img_width: img_w,
        cover_img_length: img_l,
        image_enabled: image,
        progress_bar_type: ProgressBarType::Rectangle,
        play_icon: String::new(),
        pause_icon: String::new(),
        liked_icon: String::new(),
        playback_format: String::new(),
        playback_metadata_fields: Vec::new(),
        image_protocol: None,
    }
}

fn rect(x: u16, y: u16, w: u16, h: u16) -> Rect {
    Rect { x, y, width: w, height: h }
}

#[test]
fn panel_split_top_and_bottom() {
    let area = rect(0, 0, 80, 24);
    let c = cfg(6, 0, 0, false, Position::Top);
    let (panel, other) = split_rect_for_playback_window(area, &c);
    assert_eq!(panel, rect(0, 0, 80, 8));
    assert_eq!(other, rect(0, 8, 80, 16));

    let c = cfg(6, 0, 0, false, Position::Bottom);
    let (panel, other) = split_rect_for_playback_window(area, &c);
    assert_eq!(panel, rect(0, 16, 80, 8));
    assert_eq!(other, rect(0, 0, 80, 16));
}

#[test]
fn panel_height_raised_for_square_image() {
    // A 20-cell-wide image needs 10 rows, plus the progress row and
    // two border rows: 13 in all, more than the configured 6 + 2.
    let area = rect(0, 0, 80, 24);
    let c = cfg(6, 20, 30, true, Position::Top);
    let (panel, _) = split_rect_for_playback_window(area, &c);
    assert_eq!(panel.height, 13);

    // Image disabled: the configured height stands.
    let c = cfg(6, 20, 30, false, Position::Top);
    let (panel, _) = split_rect_for_playback_window(area, &c);
    assert_eq!(panel.height, 8);
}

#[test]
fn panel_height_clamps_to_available_rows() {
    let area = rect(0, 0, 80, 5);
    let c = cfg(10, 0, 0, false, Position::Top);
    let (panel, other) = split_rect_for_playback_window(area, &c);
    assert_eq!(panel.height, 5);
    assert_eq!(other.height, 0);
}

#[test]
fn inner_rect_insets_the_border() {
    assert_eq!(inner_rect(rect(2, 3, 10, 6)), rect(3, 4, 8, 4));
    assert_eq!(inner_rect(rect(2, 3, 1, 6)), rect(2, 3, 0, 0));
}

#[test]
fn progress_bar_takes_the_bottom_row() {
    let (upper, bar) = split_progress_bar(rect(1, 1, 20, 6));
    assert_eq!(upper, rect(1, 1, 20, 5));
    assert_eq!(bar, rect(1, 6, 20, 1));

    let (upper, bar) = split_progress_bar(rect(1, 1, 20, 0));
    assert_eq!(upper.height, 0);
    assert_eq!(bar.height, 0);
}

#[test]
fn metadata_and_cover_split_exactly() {
    let c = cfg(6, 10, 8, true, Position::Top);
    let (meta, cover) = split_metadata_and_cover(rect(0, 0, 40, 6), &c);
    // Image column 10 wide, one spacing column, text gets the rest.
    assert_eq!(cover, rect(0, 0, 10, 5));
    assert_eq!(meta, rect(11, 0, 29, 6));

    // A narrow area clamps the column and drops the spacing.
    let (meta, cover) = split_metadata_and_cover(rect(0, 0, 10, 6), &c);
    assert_eq!(cover, rect(0, 0, 10, 5));
    assert_eq!(meta.width, 0);
}

#[test]
fn clear_area_blanks_cells_and_keeps_skip() {
    let mut buf = Buffer::new(6, 4);
    protect_area(&mut buf, rect(1, 1, 2, 1));
    clear_area(&mut buf, rect(1, 1, 3, 2), SpanStyle::App);
    // Inside the cleared area: blank, skip preserved from before.
    assert_eq!(buf.rows[1][1].ch, ' ');
    assert!(buf.rows[1][1].skip);
    assert!(!buf.rows[2][1].skip);
    // Outside: untouched.
    assert!(!buf.rows[0][0].skip);
    assert_eq!(buf.rows[0][0].ch, ' ');
}

#[test]
fn protect_area_marks_only_its_rectangle() {
    let mut buf = Buffer::new(5, 3);
    protect_area(&mut buf, rect(2, 1, 2, 2));
    for y in 0..3u16 {
        for x in 0..5u16 {
            let inside = (2..4).contains(&x) && (1..3).contains(&y);
            assert_eq!(buf.rows[y as usize][x as usize].skip, inside);
        }
    }
}
