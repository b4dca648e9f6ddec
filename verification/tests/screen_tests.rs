//! Lists, tabs, hints and lines as they show on screen.

use spot_defy::clock::Moment;
use spot_defy::layout::Rect;
use spot_defy::model::{
    AlbumId, AlbumItem, ArtistId, ArtistItem, PlaybackState, PlaylistId, PlaylistItem, TrackId,
    TrackItem,
};
use spot_defy::state::{
    LibraryTab, LoadPhase, Mode, Model, RepeatMode, Screen, SearchTab,
};
use spot_defy::view::lines::{
    fmt_ms, footer_line, help_text, key_label, keys_for, mode_indicators, place_search_box,
    search_box_of, search_box_title, state_symbol, truncate_to_width, volume_label,
    volume_percent,
};
use spot_defy::view::lists::{
    active_tab, header_tabs, library_tabs, list_panel, needs_scrollbar, search_tabs, selected_row,
    selection_counter, sidebar_text, Row, Tone,
};

fn track(title: &str) -> TrackItem {
    TrackItem {
        id: TrackId(title.to_owned()),
        title: title.to_owned(),
        artist: "Air".to_owned(),
        album: "Moon Safari".to_owned(),
        duration_ms: 61_999,
        album_art_images: Vec::new(),
    }
}

fn shown(row: &Row) -> String {
    row.spans.iter().map(|span| span.text.as_str()).collect()
}

fn tones(row: &Row) -> Vec<Tone> {
    row.spans.iter().map(|span| span.tone).collect()
}

#[test]
fn times_show_minutes_and_seconds() {
    assert_eq!(fmt_ms(0), "0:00");
    assert_eq!(fmt_ms(61_999), "1:01");
    assert_eq!(fmt_ms(3_600_000), "60:00");
    assert_eq!(fmt_ms(u32::MAX), "71582:47");
}

#[test]
fn rows_show_their_fields_in_tone() {
    let mut model = Model::new();
    model.screen = Screen::Queue;
    model.playback_queue = vec![track("Talisman"), track("Kelly")];
    model.playback_queue_cursor = Some(1);
    let panel = list_panel(&model);
    assert_eq!(panel.title, "Queue");
    assert_eq!(shown(&panel.rows[0]), "Air  —  Talisman   1:01");
    assert_eq!(
        tones(&panel.rows[0]),
        vec![Tone::Accent, Tone::Dim, Tone::Plain, Tone::Plain, Tone::Progress]
    );
    assert_eq!(shown(&panel.rows[1]), "♪ Air  —  Kelly   1:01");
    assert_eq!(tones(&panel.rows[1])[1], Tone::AccentBold);

    model.screen = Screen::Playlists;
    model.playlists = vec![PlaylistItem {
        id: PlaylistId("p".to_owned()),
        name: "Mix".to_owned(),
        owner: "Owner".to_owned(),
        track_count: 12,
    }];
    assert_eq!(shown(&list_panel(&model).rows[0]), "Mix  ·  12 tracks  ·  Owner");

    model.screen = Screen::Library;
    model.library_tab = LibraryTab::Albums;
    model.albums = vec![AlbumItem {
        id: AlbumId("a".to_owned()),
        name: "10 000 Hz".to_owned(),
        artist: "Air".to_owned(),
    }];
    let panel = list_panel(&model);
    assert_eq!((panel.title, shown(&panel.rows[0]).as_str()), ("Albums", "Air  —  10 000 Hz"));
    model.library_tab = LibraryTab::TopArtists;
    model.artists = vec![ArtistItem { id: ArtistId("a".to_owned()), name: "Air".to_owned() }];
    assert_eq!(shown(&list_panel(&model).rows[0]), "Air");
}

#[test]
fn empty_lists_are_honest_about_their_phase() {
    let mut model = Model::new();
    assert_eq!(list_panel(&model).empty, "No results yet. Press / to search.");
    model.search_phase = LoadPhase::Loading;
    assert_eq!(list_panel(&model).empty, "Searching…");
    model.search_phase = LoadPhase::Loaded(Moment { nanos: 0 });
    assert_eq!(list_panel(&model).empty, "No results for this query.");
    // A lane that failed does not pass for a search without matches.
    model.search_results.failed_lanes = vec!["Tracks"];
    assert_eq!(list_panel(&model).empty, "Search failed — press r to retry.");
    model.search_tab = SearchTab::Albums;
    assert_eq!(list_panel(&model).empty, "No results for this query.");

    model.screen = Screen::Playlists;
    assert_eq!(list_panel(&model).empty, "Loading playlists…");
    model.playlists_phase = LoadPhase::Failed;
    assert_eq!(list_panel(&model).empty, "Couldn't load — press r to retry.");
    model.keybindings.down = 'r';
    assert_eq!(
        list_panel(&model).empty,
        "Couldn't load — leave and re-enter to retry."
    );
    model.screen = Screen::Library;
    model.library_tab = LibraryTab::Saved;
    assert_eq!(list_panel(&model).empty, "Loading your saved tracks…");
    model.tracks_phase = LoadPhase::Loaded(Moment { nanos: 0 });
    assert_eq!(list_panel(&model).empty, "No saved tracks.");
    model.screen = Screen::Tracks;
    assert_eq!(list_panel(&model).empty, "No tracks here.");
}

#[test]
fn a_drilled_in_list_belongs_to_its_origin() {
    let mut model = Model::new();
    model.screen = Screen::Tracks;
    for (origin, tab) in [
        (Screen::Search, Screen::Search),
        (Screen::Library, Screen::Library),
        (Screen::Playlists, Screen::Playlists),
        (Screen::Queue, Screen::Playlists),
    ] {
        model.tracks_origin = origin;
        assert_eq!(active_tab(&model), tab);
    }
    model.screen = Screen::Queue;
    let active: Vec<(&str, bool)> =
        header_tabs(&model).iter().map(|tab| (tab.label, tab.active)).collect();
    assert_eq!(
        active,
        vec![
            ("1 Search", false),
            ("2 Playlists", false),
            ("3 Library", false),
            ("4 Queue", true),
        ]
    );
}

#[test]
fn tab_bars_mark_the_current_tab() {
    for tab in LibraryTab::ALL {
        let bar = library_tabs(tab);
        assert_eq!(bar.len(), 5);
        assert!(bar.iter().all(|shown| shown.active == (shown.label == tab.label())));
    }
    for lane in SearchTab::ALL {
        let bar = search_tabs(lane);
        assert_eq!(bar.len(), 4);
        assert!(bar.iter().all(|shown| shown.active == (shown.label == lane.label())));
    }
}

#[test]
fn counters_and_scrollbars_follow_the_list() {
    assert_eq!(selected_row(None, 3), 0);
    assert_eq!(selected_row(Some(usize::MAX), 3), 2);
    assert_eq!(selection_counter(2, 30), " 3/30 ");
    assert!(needs_scrollbar(9, 10));
    assert!(!needs_scrollbar(8, 10));
    assert!(!needs_scrollbar(8, 2));
}

#[test]
fn hints_advertise_only_free_keys() {
    let mut model = Model::new();
    assert_eq!(
        keys_for(&model),
        "/ edit · Tab lane · ↵ play · a queue · r refresh · Space pause · n/p skip · -/+ vol · q quit"
    );
    model.screen = Screen::Playlists;
    assert_eq!(
        keys_for(&model),
        "↵ open · j/k move · r refresh · Space pause · n/p skip · ←/→ seek · -/+ vol · q quit"
    );
    model.screen = Screen::Tracks;
    model.keybindings.next = 'a';
    assert_eq!(
        keys_for(&model),
        "↵ play · Esc back · r refresh · Space pause · a/p skip · ←/→ seek · -/+ vol · q quit"
    );
    model.screen = Screen::Library;
    model.keybindings.previous = 'r';
    assert_eq!(
        keys_for(&model),
        "Tab tab · ↵ play · Space pause · a/r skip · ←/→ seek · -/+ vol · q quit"
    );
    model.screen = Screen::Queue;
    assert_eq!(
        keys_for(&model),
        "↵ jump · x remove · s/R modes · Space pause · a/r skip · ←/→ seek · -/+ vol · q quit"
    );
    model.keybindings.up = 'R';
    model.keybindings.down = 'x';
    assert!(keys_for(&model).starts_with("↵ jump · s shuffle · Space"));
    model.keybindings.up = 's';
    assert!(keys_for(&model).starts_with("↵ jump · R repeat · Space"));
    model.keybindings.search = 'R';
    assert!(keys_for(&model).starts_with("↵ jump · Space"));
}

#[test]
fn a_status_replaces_the_hints() {
    let mut model = Model::new();
    model.mode = Mode::Insert;
    assert_eq!(help_text(&model), (false, " Enter submit · Esc cancel ".to_owned()));
    model.status = Some("oops".to_owned());
    assert_eq!(help_text(&model), (true, " oops ".to_owned()));
}

#[test]
fn keys_without_a_glyph_are_named() {
    assert_eq!(key_label(' '), "Space");
    assert_eq!(key_label('\t'), "Tab");
    assert_eq!(key_label('\n'), "Enter");
    assert_eq!(key_label('é'), "é");
}

#[test]
fn the_footer_shows_track_modes_and_times() {
    let mut model = Model::new();
    model.now_playing.state = PlaybackState::Paused;
    model.now_playing.artist = Some("Air".to_owned());
    model.now_playing.position_ms = 5_000;
    model.now_playing.duration_ms = 65_000;
    model.shuffle = true;
    model.repeat = RepeatMode::One;
    assert_eq!(footer_line(&model, 34), "⏸ Air — —       ⇄ ⟳1 · 0:05 / 1:05");
    assert_eq!(mode_indicators(&model), "⇄ ⟳1 · ");
    model.repeat = RepeatMode::All;
    assert_eq!(mode_indicators(&model), "⇄ ⟳ · ");
    model.shuffle = false;
    assert_eq!(mode_indicators(&model), "⟳ · ");
    assert_eq!(footer_line(&model, 0), "");
    assert_eq!(state_symbol(PlaybackState::Stopped), "■");
}

#[test]
fn truncation_counts_columns_not_characters() {
    assert_eq!(truncate_to_width("日本語", 5), "日本");
    assert_eq!(truncate_to_width("日本語", 6), "日本語");
    assert_eq!(truncate_to_width("a\u{301}bc", 2), "a\u{301}b");
    assert_eq!(truncate_to_width("abc", 0), "");
}

#[test]
fn the_search_box_scrolls_with_the_cursor() {
    let area = Rect::new(10, 2, 12, 3);
    let placed = place_search_box(true, area, 4);
    assert_eq!((placed.scroll, placed.cursor_x), (0, Some(15)));
    let placed = place_search_box(true, area, 20);
    assert_eq!((placed.scroll, placed.cursor_x), (11, Some(20)));
    let placed = place_search_box(false, area, 20);
    assert_eq!((placed.scroll, placed.cursor_x), (0, None));
}

#[test]
fn the_search_cursor_is_measured_in_columns() {
    let mut model = Model::new();
    model.mode = Mode::Insert;
    model.search.query = "日本x".to_owned();
    model.search.cursor = 6;
    let placed = search_box_of(&model, Rect::new(0, 0, 30, 3));
    assert_eq!(placed.cursor_x, Some(5));
    assert_eq!(search_box_title(&model), "Search (typing)");
    model.mode = Mode::Normal;
    assert_eq!(search_box_title(&model), "Search (press / to edit)");
}

#[test]
fn the_sidebar_names_the_track() {
    let mut model = Model::new();
    assert_eq!(sidebar_text(&model), ("Now Playing".to_owned(), "no track playing"));
    model.now_playing.track = Some("Kelly".to_owned());
    assert_eq!(sidebar_text(&model), ("Kelly".to_owned(), "♪"));
}

#[test]
fn the_volume_popup_shows_a_percentage() {
    assert_eq!((volume_label(7).as_str(), volume_percent(7)), ("7%", 7));
    assert_eq!((volume_label(250).as_str(), volume_percent(250)), ("250%", 100));
}
