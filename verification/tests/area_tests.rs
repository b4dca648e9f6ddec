//! How the screen is divided.

use spot_defy::layout::Rect;
use spot_defy::state::Screen;
use spot_defy::view::areas::{
    body_areas, body_extents, body_of, frame_areas, frame_extents, frame_of, popup_areas,
    popup_extents, popup_of, screen_areas, screen_extents, screen_of, BodyAreas, Extent,
    FrameAreas, PopupAreas, ScreenAreas,
};

fn parts(count: u16) -> Vec<Rect> {
    (0..count).map(|n| Rect::new(n, n + 1, n + 2, n + 3)).collect()
}

#[test]
fn the_frame_has_four_rows() {
    assert_eq!(
        frame_extents(),
        vec![Extent::Length(3), Extent::Min(1), Extent::Length(3), Extent::Length(1)]
    );
    assert_eq!(
        frame_areas(Rect::new(1, 1, 98, 38)),
        FrameAreas {
            header: Rect::new(1, 1, 98, 3),
            body: Rect::new(1, 4, 98, 31),
            footer: Rect::new(1, 35, 98, 3),
            help: Rect::new(1, 38, 98, 1),
        }
    );
    let rows = parts(4);
    let named = frame_of(&rows);
    assert_eq!(vec![named.header, named.body, named.footer, named.help], rows);
}

#[test]
fn the_body_takes_the_rows_that_are_left() {
    for height in (8..=400).chain([1_000, 30_000, 40_000, 65_535]) {
        for y in [0, 1, 7, 65_535 - height] {
            if y > 65_535 - height {
                continue;
            }
            let rows = frame_areas(Rect::new(3, y, 80, height));
            assert_eq!(rows.header, Rect::new(3, y, 80, 3));
            assert_eq!(rows.body, Rect::new(3, y + 3, 80, height - 7));
            assert_eq!(rows.footer, Rect::new(3, y + (height - 4), 80, 3));
            assert_eq!(rows.help, Rect::new(3, y + (height - 1), 80, 1));
        }
    }
}

#[test]
fn a_low_surface_still_holds_its_parts() {
    for height in 0..8 {
        for area in [Rect::new(2, 5, 30, height), Rect::new(0, 65_535, 30, height)] {
            let frame = frame_areas(area);
            let screen = screen_areas(Screen::Search, area);
            let popup = popup_areas(area);
            for part in [
                frame.header,
                frame.body,
                frame.footer,
                frame.help,
                screen.list,
                popup.label,
                popup.gauge,
            ] {
                assert_eq!((part.x, part.width), (area.x, area.width));
                assert!(part.y >= area.y);
                let end = u32::from(part.y) + u32::from(part.height);
                assert!(end <= u32::from(area.y) + u32::from(area.height));
            }
        }
    }
}

#[test]
fn the_artwork_column_is_a_third() {
    for width in (96..=1_000).chain((1_001..=65_535).step_by(331)).chain([65_533, 65_534]) {
        for x in [0, 1, 65_535 - width] {
            if x > 65_535 - width {
                continue;
            }
            let body = Rect::new(x, 4, width, 9);
            let main = ((2 * (u32::from(width) - 1) + 1) / 3) as u16;
            let areas = body_areas(body);
            assert_eq!(areas.main, Rect::new(x, 4, main, 9));
            assert_eq!(areas.artwork, Some(Rect::new(x + main + 1, 4, width - main - 1, 9)));
        }
    }
}

#[test]
fn the_list_takes_the_rows_that_are_left() {
    for height in (5..=300).chain([40_000, 65_000]) {
        let area = Rect::new(1, 2, 50, height);
        let search = screen_areas(Screen::Search, area);
        assert_eq!(search.search_box, Some(Rect::new(1, 2, 50, 3)));
        assert_eq!(search.tabs, Some(Rect::new(1, 5, 50, 1)));
        assert_eq!(search.list, Rect::new(1, 6, 50, height - 4));
        let library = screen_areas(Screen::Library, area);
        assert_eq!(library.tabs, Some(Rect::new(1, 2, 50, 1)));
        assert_eq!(library.list, Rect::new(1, 3, 50, height - 1));
        let popup = popup_areas(area);
        assert_eq!(popup.label, Rect::new(1, 2, 50, 1));
        assert_eq!(popup.gauge, Rect::new(1, 3, 50, 1));
    }
}

#[test]
fn a_wide_body_has_an_artwork_column() {
    assert_eq!(body_extents(), vec![Extent::Fill(2), Extent::Length(1), Extent::Fill(1)]);
    let wide = Rect::new(2, 3, 100, 30);
    assert_eq!(
        body_areas(wide),
        BodyAreas {
            main: Rect::new(2, 3, 66, 30),
            artwork: Some(Rect::new(69, 3, 33, 30)),
        }
    );
    let narrow = Rect::new(2, 3, 95, 30);
    assert_eq!(body_areas(narrow), BodyAreas { main: narrow, artwork: None });
    let columns = parts(3);
    assert_eq!(
        body_of(wide, &columns),
        BodyAreas { main: columns[0], artwork: Some(columns[2]) }
    );
    assert_eq!(body_of(narrow, &columns), BodyAreas { main: narrow, artwork: None });
}

#[test]
fn screens_have_their_bars_above_the_list() {
    let area = Rect::new(0, 4, 60, 20);
    assert_eq!(
        screen_extents(Screen::Search),
        vec![Extent::Length(3), Extent::Length(1), Extent::Min(1)]
    );
    assert_eq!(
        screen_areas(Screen::Search, area),
        ScreenAreas {
            search_box: Some(Rect::new(0, 4, 60, 3)),
            tabs: Some(Rect::new(0, 7, 60, 1)),
            list: Rect::new(0, 8, 60, 16),
        }
    );
    assert_eq!(screen_extents(Screen::Library), vec![Extent::Length(1), Extent::Min(1)]);
    assert_eq!(
        screen_areas(Screen::Library, area),
        ScreenAreas {
            search_box: None,
            tabs: Some(Rect::new(0, 4, 60, 1)),
            list: Rect::new(0, 5, 60, 19),
        }
    );
    let rows = parts(3);
    assert_eq!(
        screen_of(Screen::Search, area, &rows),
        ScreenAreas { search_box: Some(rows[0]), tabs: Some(rows[1]), list: rows[2] }
    );
    assert_eq!(
        screen_of(Screen::Library, area, &parts(2)),
        ScreenAreas { search_box: None, tabs: Some(rows[0]), list: rows[1] }
    );
    for screen in [Screen::Playlists, Screen::Tracks, Screen::Queue] {
        let alone = ScreenAreas { search_box: None, tabs: None, list: area };
        assert_eq!(screen_extents(screen), vec![Extent::Min(1)]);
        assert_eq!(screen_areas(screen, area), alone);
        assert_eq!(screen_of(screen, area, &parts(1)), alone);
    }
}

#[test]
fn the_popup_has_a_label_over_a_gauge() {
    assert_eq!(popup_extents(), vec![Extent::Length(1), Extent::Length(1)]);
    assert_eq!(
        popup_areas(Rect::new(70, 30, 20, 2)),
        PopupAreas {
            label: Rect::new(70, 30, 20, 1),
            gauge: Rect::new(70, 31, 20, 1),
        }
    );
    let rows = parts(2);
    assert_eq!(popup_of(&rows), PopupAreas { label: rows[0], gauge: rows[1] });
}
