//! Geometry and text of the screen.

use spot_defy::clock::Moment;
use spot_defy::layout::{FontSize, Rect};
use spot_defy::view::geometry::{
    cells_for_pixels, centered_album_art_area, content_area, progress_cells, shows_artwork,
    volume_popup_area, volume_popup_state, PopupState,
};
use spot_defy::view::lines::now_playing_line;
use unicode_width::UnicodeWidthStr;

#[test]
fn progress_cells_spans_zero_to_full() {
    assert_eq!(progress_cells(100, 0, 200), 0);
    assert_eq!(progress_cells(100, 100, 200), 50);
    assert_eq!(progress_cells(100, 200, 200), 100);
}

#[test]
fn progress_cells_handles_zero_duration_and_overrun() {
    assert_eq!(progress_cells(100, 50, 0), 0);
    // Position past the end is clamped to a full bar.
    assert_eq!(progress_cells(40, 999, 200), 40);
}

#[test]
fn now_playing_line_is_exactly_width_with_right_aligned_timing() {
    let line = now_playing_line(30, "Artist — Title", "1:00 / 3:00");
    assert_eq!(line.chars().count(), 30);
    assert!(line.starts_with("Artist — Title"));
    assert!(line.ends_with("1:00 / 3:00"));
}

#[test]
fn now_playing_line_truncates_an_overlong_label() {
    let line = now_playing_line(20, "A really long artist and title here", "0:10 / 4:00");
    assert_eq!(line.chars().count(), 20);
    assert!(line.ends_with("0:10 / 4:00"));
}

#[test]
fn now_playing_line_measures_wide_chars_by_display_width() {
    // CJK glyphs are two cells wide; the line must still be exactly `width`
    // display cells and keep the timing flush right.
    let line = now_playing_line(24, "日本語のアーティスト — 曲名", "1:00 / 3:00");
    assert_eq!(UnicodeWidthStr::width(line.as_str()), 24);
    assert!(line.ends_with("1:00 / 3:00"));
}

#[test]
fn centered_album_art_area_keeps_pixel_square_centered() {
    let area = Rect::new(10, 4, 80, 80);
    let font_size = Some(FontSize::new(8, 16));

    let centered = centered_album_art_area(area, font_size);

    assert_eq!(centered, Rect::new(10, 24, 80, 40));
}

#[test]
fn centered_album_art_area_caps_to_available_area() {
    let area = Rect::new(2, 3, 30, 20);
    let font_size = Some(FontSize::new(8, 16));

    let centered = centered_album_art_area(area, font_size);

    assert_eq!(centered, Rect::new(2, 5, 30, 15));
}

#[test]
fn content_area_keeps_a_margin_on_large_terminals_only() {
    assert_eq!(content_area(Rect::new(0, 0, 120, 40)), Rect::new(1, 1, 118, 38));
    assert_eq!(content_area(Rect::new(0, 0, 40, 16)), Rect::new(0, 0, 40, 16));
    assert_eq!(content_area(Rect::new(0, 0, 41, 16)), Rect::new(1, 0, 39, 16));
}

#[test]
fn artwork_column_needs_ninety_six_columns() {
    assert!(!shows_artwork(95));
    assert!(shows_artwork(96));
}

#[test]
fn cells_for_pixels_rounds_up_within_the_pane() {
    assert_eq!(cells_for_pixels(17, 8, 80), 3);
    assert_eq!(cells_for_pixels(0, 8, 80), 1);
    assert_eq!(cells_for_pixels(1_000_000, 8, 80), 80);
}

#[test]
fn centered_album_art_area_assumes_tall_cells_and_leaves_empty_panes_alone() {
    // Without a font size a cell counts as one by two pixels.
    assert_eq!(
        centered_album_art_area(Rect::new(0, 0, 20, 20), None),
        Rect::new(0, 5, 20, 10)
    );
    let empty = Rect::new(3, 3, 0, 9);
    assert_eq!(centered_album_art_area(empty, None), empty);
}

#[test]
fn volume_popup_sits_at_the_bottom_right() {
    assert_eq!(
        volume_popup_area(Rect::new(1, 1, 118, 38)),
        Rect::new(84, 29, 34, 5)
    );
    // A surface narrower than the popup is filled, and the top row is never left.
    assert_eq!(volume_popup_area(Rect::new(2, 3, 20, 4)), Rect::new(2, 3, 20, 4));
}

#[test]
fn volume_popup_fades_then_hides() {
    let area = Rect::new(0, 0, 100, 30);
    let now = Moment { nanos: 5_000_000_000 };
    let at = |millis: i64| Some(Moment { nanos: now.nanos + millis * 1_000_000 });
    assert_eq!(volume_popup_state(None, now, area), PopupState::Hidden);
    assert_eq!(volume_popup_state(at(0), now, area), PopupState::Hidden);
    assert_eq!(volume_popup_state(at(400), now, area), PopupState::Fading);
    assert_eq!(volume_popup_state(at(401), now, area), PopupState::Bright);
    let small = Rect::new(0, 0, 23, 30);
    assert_eq!(volume_popup_state(at(1_000), now, small), PopupState::Hidden);
}
