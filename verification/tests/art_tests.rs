//! Choosing and loading cover art.

use spot_defy::app::{
    album_art_edge_px, pane_edge_px, select_album_art_candidate, ArtState, DEFAULT_ART_EDGE_PX,
};
use spot_defy::layout::{FontSize, Rect};
use spot_defy::model::AlbumArtImage;

fn art(url: &str, size: Option<u32>) -> AlbumArtImage {
    AlbumArtImage {
        url: url.to_owned(),
        width: size,
        height: size,
    }
}

#[test]
fn selects_smallest_art_that_satisfies_target() {
    let candidates = vec![
        art("https://example.test/640.jpg", Some(640)),
        art("https://example.test/300.jpg", Some(300)),
        art("https://example.test/64.jpg", Some(64)),
    ];

    let selected = select_album_art_candidate(&candidates, 280);

    assert_eq!(
        selected.map(|image| image.url.as_str()),
        Some("https://example.test/300.jpg")
    );
}

#[test]
fn selects_largest_art_when_target_exceeds_available() {
    let candidates = vec![
        art("https://example.test/640.jpg", Some(640)),
        art("https://example.test/300.jpg", Some(300)),
        art("https://example.test/64.jpg", Some(64)),
    ];

    let selected = select_album_art_candidate(&candidates, 900);

    assert_eq!(
        selected.map(|image| image.url.as_str()),
        Some("https://example.test/640.jpg")
    );
}

#[test]
fn falls_back_to_first_art_without_dimensions() {
    let candidates = vec![art("https://example.test/unknown.jpg", None)];

    let selected = select_album_art_candidate(&candidates, 300);

    assert_eq!(
        selected.map(|image| image.url.as_str()),
        Some("https://example.test/unknown.jpg")
    );
}

#[test]
fn art_edge_uses_smaller_dimension_when_rectangular() {
    let image = AlbumArtImage {
        url: "https://example.test/art.jpg".to_owned(),
        width: Some(640),
        height: Some(300),
    };

    assert_eq!(album_art_edge_px(&image), Some(300));
}

#[test]
fn pane_edge_px_uses_terminal_cell_dimensions() {
    let area = Rect::new(0, 0, 30, 20);
    let font = FontSize::new(8, 16);

    assert_eq!(pane_edge_px(area, font), Some(240));
}

#[test]
fn equal_covers_resolve_to_the_first_fit_and_the_last_largest() {
    let candidates = vec![art("a", Some(300)), art("b", Some(300)), art("c", None)];
    let fit = select_album_art_candidate(&candidates, 200);
    assert_eq!(fit.map(|image| image.url.as_str()), Some("a"));
    let largest = select_album_art_candidate(&candidates, 900);
    assert_eq!(largest.map(|image| image.url.as_str()), Some("b"));
    assert!(select_album_art_candidate(&Vec::new(), 1).is_none());
}

#[test]
fn an_empty_pane_has_no_edge() {
    assert_eq!(pane_edge_px(Rect::new(0, 0, 0, 20), FontSize::new(8, 16)), None);
    assert_eq!(pane_edge_px(Rect::new(0, 0, 3, 2), FontSize::new(0, 0)), Some(2));
}

#[test]
fn art_is_loaded_once_and_upgraded_when_the_pane_grows() {
    let font = FontSize::new(8, 16);
    let mut state = ArtState::new();
    assert_eq!(state.target_album_art_edge_px(Some(font)), DEFAULT_ART_EDGE_PX);
    state.set_album_art_candidates(vec![
        art("large", Some(640)),
        art("medium", Some(300)),
        art("small", Some(64)),
    ]);
    // Nothing is loaded before the pane is measured.
    assert_eq!(state.maybe_load_responsive_art(font), None);
    state.area = Some(Rect::new(0, 0, 30, 20));
    assert_eq!(state.maybe_load_responsive_art(font), Some("medium".to_owned()));
    assert_eq!(state.maybe_load_responsive_art(font), None);
    assert!(state.accepts("medium"));
    assert!(!state.accepts("large"));
    // A pane of 640 pixels asks for the large cover.
    state.area = Some(Rect::new(0, 0, 80, 40));
    assert_eq!(state.maybe_load_responsive_art(font), Some("large".to_owned()));
    assert!(!state.accepts("medium"));
    // The smaller pane is satisfied by the cover already loaded.
    state.area = Some(Rect::new(0, 0, 30, 20));
    assert_eq!(state.maybe_load_responsive_art(font), None);
    // A new track starts over.
    state.set_album_art_candidates(vec![art("next", None)]);
    assert_eq!(state.maybe_load_responsive_art(font), Some("next".to_owned()));
}
