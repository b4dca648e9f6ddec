//! Key-routing behavior of the reducer.

use spot_defy::config::Keybindings;
use spot_defy::keys::{KeyCode, KeyEvent, KeyEventKind, KeyModifiers};
use spot_defy::message::{Action, Message};
use spot_defy::model::{PlaybackState, TimeRange, TrackId, TrackItem};
use spot_defy::state::{LibraryTab, LoadPhase, Mode, Model, Screen, SearchTab};
use spot_defy::update::update;

/// A navigation-mode key press.
fn key(code: KeyCode) -> Message {
    Message::KeyPress(KeyEvent::new(code, KeyModifiers::none()))
}

#[test]
fn slash_key_enters_search_insert_mode() {
    let mut model = Model::new();
    model.screen = Screen::Library;
    update(&mut model, key(KeyCode::Char('/')));
    assert_eq!(model.screen, Screen::Search);
    assert_eq!(model.mode, Mode::Insert);
}

#[test]
fn number_keys_switch_screens() {
    let mut model = Model::new();
    update(&mut model, key(KeyCode::Char('2')));
    assert_eq!(model.screen, Screen::Playlists);
    update(&mut model, key(KeyCode::Char('3')));
    assert_eq!(model.screen, Screen::Library);
    update(&mut model, key(KeyCode::Char('1')));
    assert_eq!(model.screen, Screen::Search);
}

#[test]
fn insert_mode_typing_then_esc_exits() {
    let mut model = Model::new();
    update(&mut model, Message::EnterInsertMode);
    update(&mut model, key(KeyCode::Char('h')));
    update(&mut model, key(KeyCode::Char('i')));
    assert_eq!(model.search.query, "hi");
    update(&mut model, key(KeyCode::Esc));
    assert_eq!(model.mode, Mode::Normal);
}

#[test]
fn insert_mode_enter_submits_and_returns_to_normal() {
    let mut model = Model::new();
    update(&mut model, Message::EnterInsertMode);
    update(&mut model, key(KeyCode::Char('x')));
    let actions = update(&mut model, key(KeyCode::Enter));
    assert_eq!(model.mode, Mode::Normal);
    assert_eq!(
        actions,
        vec![Action::Search {
            query: "x".to_owned(),
            limit: 10,
        }]
    );
}

#[test]
fn ctrl_c_quits() {
    let mut model = Model::new();
    let msg = Message::KeyPress(KeyEvent::new(KeyCode::Char('c'), KeyModifiers::control()));
    update(&mut model, msg);
    assert!(model.should_quit);
}

#[test]
fn key_release_is_ignored() {
    let mut model = Model::new();
    let mut event = KeyEvent::new(KeyCode::Char('q'), KeyModifiers::none());
    event.kind = KeyEventKind::Release;
    update(&mut model, Message::KeyPress(event));
    assert!(!model.should_quit);
}

#[test]
fn esc_in_tracks_returns_to_the_drill_in_origin() {
    let mut model = Model::new();
    model.screen = Screen::Tracks;
    model.tracks_origin = Screen::Playlists;
    let actions = update(&mut model, key(KeyCode::Esc));
    assert_eq!(model.screen, Screen::Playlists);
    assert_eq!(actions, vec![Action::LoadPlaylists]);

    // Drilled in from Search: Esc returns there without any load.
    model.screen = Screen::Tracks;
    model.tracks_origin = Screen::Search;
    let actions = update(&mut model, key(KeyCode::Esc));
    assert_eq!(model.screen, Screen::Search);
    assert!(actions.is_empty());
}

#[test]
fn space_key_toggles_playback() {
    let mut model = Model::new();
    model.now_playing.state = PlaybackState::Playing;
    let actions = update(&mut model, key(KeyCode::Char(' ')));
    assert_eq!(actions, vec![Action::PlayerPause]);
}

#[test]
fn configured_keys_override_default_character_bindings() {
    let mut model = Model::new();
    model.keybindings = Keybindings {
        quit: 'x',
        down: 's',
        up: 'w',
        play_pause: 'b',
        next: 'l',
        previous: 'h',
        search: 'f',
    };

    update(&mut model, key(KeyCode::Char('q')));
    assert!(!model.should_quit);
    update(&mut model, key(KeyCode::Char('x')));
    assert!(model.should_quit);

    model.should_quit = false;
    model.now_playing.state = PlaybackState::Playing;
    assert_eq!(
        update(&mut model, key(KeyCode::Char('b'))),
        vec![Action::PlayerPause]
    );
    assert_eq!(
        update(&mut model, key(KeyCode::Char('l'))),
        vec![Action::PlayerNext]
    );
    assert_eq!(
        update(&mut model, key(KeyCode::Char('h'))),
        vec![Action::PlayerPrev]
    );
    update(&mut model, key(KeyCode::Char('f')));
    assert_eq!(model.screen, Screen::Search);
    assert_eq!(model.mode, Mode::Insert);
}

#[test]
fn arrow_keys_seek() {
    let mut model = Model::new();
    model.now_playing.duration_ms = 60_000;
    model.now_playing.position_ms = 30_000;
    let fwd = update(&mut model, key(KeyCode::Right));
    assert_eq!(fwd, vec![Action::PlayerSeek(35_000)]);
    let back = update(&mut model, key(KeyCode::Left));
    assert_eq!(back, vec![Action::PlayerSeek(25_000)]);
}

#[test]
fn plus_minus_keys_change_volume() {
    let mut model = Model::new();
    model.now_playing.volume = 50;
    let up = update(&mut model, key(KeyCode::Char('+')));
    assert_eq!(up, vec![Action::PlayerSetVolume(55)]);
    let down = update(&mut model, key(KeyCode::Char('-')));
    assert_eq!(down, vec![Action::PlayerSetVolume(50)]);
}

#[test]
fn jk_keys_move_selection() {
    let mut model = Model::new();
    update(&mut model, key(KeyCode::Char('j')));
    assert_eq!(model.list_state.selected(), Some(0));
}

#[test]
fn tab_cycles_library_tabs_and_loads_each_once() {
    let mut model = Model::new();
    model.screen = Screen::Library;

    let actions = update(&mut model, key(KeyCode::Tab));
    assert_eq!(model.library_tab, LibraryTab::Albums);
    assert_eq!(actions, vec![Action::LoadSavedAlbums]);

    let actions = update(&mut model, key(KeyCode::Tab));
    assert_eq!(model.library_tab, LibraryTab::TopArtists);
    assert_eq!(actions, vec![Action::LoadTopArtists(TimeRange::MediumTerm)]);

    let actions = update(&mut model, key(KeyCode::Tab));
    assert_eq!(model.library_tab, LibraryTab::RecentlyPlayed);
    assert_eq!(actions, vec![Action::LoadRecentlyPlayed]);

    // Cycling back to a tab whose request is still in flight does NOT
    // refire the load: the freshness cache dedups it.
    let actions = update(&mut model, key(KeyCode::BackTab));
    assert_eq!(model.library_tab, LibraryTab::TopArtists);
    assert!(actions.is_empty());
}

#[test]
fn refresh_key_forces_a_reload_of_fresh_data() {
    let mut model = Model::new();
    model.screen = Screen::Playlists;
    model.playlists_phase = LoadPhase::Loaded(model.clock.now());

    // Fresh data: re-entering the screen loads nothing…
    assert!(update(&mut model, key(KeyCode::Char('2'))).is_empty());
    // …but `r` bypasses the cache.
    let actions = update(&mut model, key(KeyCode::Char('r')));
    assert_eq!(actions, vec![Action::LoadPlaylists]);
}

#[test]
fn page_keys_jump_selection_by_a_page() {
    let mut model = Model::new();
    model.screen = Screen::Tracks;
    model.tracks = (0..40)
        .map(|i| TrackItem {
            id: TrackId(format!("t{i}")),
            title: format!("T{i}"),
            artist: "A".to_owned(),
            album: "L".to_owned(),
            duration_ms: 1000,
            album_art_images: Vec::new(),
        })
        .collect();
    model.list_state.select(Some(0));

    update(&mut model, key(KeyCode::PageDown));
    assert_eq!(model.list_state.selected(), Some(15));
    update(&mut model, key(KeyCode::PageDown));
    assert_eq!(model.list_state.selected(), Some(30));
    // Clamped at the end, then a page back up.
    update(&mut model, key(KeyCode::PageDown));
    assert_eq!(model.list_state.selected(), Some(39));
    update(&mut model, key(KeyCode::PageUp));
    assert_eq!(model.list_state.selected(), Some(24));
}

#[test]
fn insert_mode_cursor_keys_edit_mid_query() {
    let mut model = Model::new();
    update(&mut model, Message::EnterInsertMode);
    update(&mut model, key(KeyCode::Char('a')));
    update(&mut model, key(KeyCode::Char('b')));
    // Move left and insert: cursor editing, not append-only.
    update(&mut model, key(KeyCode::Left));
    update(&mut model, key(KeyCode::Char('c')));
    assert_eq!(model.search.query, "acb");
    // Home + Delete removes the first character.
    update(&mut model, key(KeyCode::Home));
    update(&mut model, key(KeyCode::Delete));
    assert_eq!(model.search.query, "cb");
    // End puts the cursor back at the tail for appends.
    update(&mut model, key(KeyCode::End));
    update(&mut model, key(KeyCode::Char('d')));
    assert_eq!(model.search.query, "cbd");
    // Ctrl-U clears the whole query.
    let ctrl_u = Message::KeyPress(KeyEvent::new(KeyCode::Char('u'), KeyModifiers::control()));
    update(&mut model, ctrl_u);
    assert_eq!(model.search.query, "");
    assert_eq!(model.search.cursor, 0);
}

#[test]
fn tab_cycles_search_lanes_without_loading() {
    let mut model = Model::new();
    model.screen = Screen::Search;

    let actions = update(&mut model, key(KeyCode::Tab));
    assert_eq!(model.search_tab, SearchTab::Albums);
    assert!(actions.is_empty());

    let actions = update(&mut model, key(KeyCode::BackTab));
    assert_eq!(model.search_tab, SearchTab::Tracks);
    assert!(actions.is_empty());
}
