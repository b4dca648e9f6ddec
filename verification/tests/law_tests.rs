//! What holds across messages, on concrete values.

use spot_defy::clock::{Clock, Moment};
use spot_defy::error::ApiError;
use spot_defy::keys::{KeyCode, KeyEvent, KeyModifiers};
use spot_defy::message::{Action, Message};
use spot_defy::model::{PlaybackState, PlaylistId, TrackId, TrackItem, TrackListSource};
use spot_defy::player::PlaybackEvent;
use spot_defy::state::{
    LibraryTab, LoadPhase, Mode, Model, PlaybackHealth, RepeatMode, Screen, SearchTab,
};
use spot_defy::update::shuffle::{drop_from_order, find_place, shuffle};
use spot_defy::update::{update, update_at};
use std::time::Instant;

fn track(id: &str) -> TrackItem {
    TrackItem {
        id: TrackId(id.to_owned()),
        title: id.to_uppercase(),
        artist: "Artist".to_owned(),
        album: "Album".to_owned(),
        duration_ms: 1_000,
        album_art_images: Vec::new(),
    }
}

fn queue(ids: &[&str]) -> Vec<TrackItem> {
    ids.iter().map(|id| track(id)).collect()
}

fn ids(model: &Model) -> Vec<&str> {
    model.playback_queue.iter().map(|t| t.id.0.as_str()).collect()
}

fn press(model: &mut Model, code: KeyCode) -> Vec<Action> {
    update(model, Message::KeyPress(KeyEvent::new(code, KeyModifiers::none())))
}

fn event(model: &mut Model, event: PlaybackEvent) -> Vec<Action> {
    update(model, Message::PlaybackEvent(event))
}

fn id(name: &str) -> TrackId {
    TrackId(name.to_owned())
}

#[test]
fn backspace_undoes_typing_in_the_middle_of_wide_text() {
    let mut model = Model::new();
    for c in ['日', 'é', 'a'] {
        update(&mut model, Message::SearchInputChar(c));
    }
    update(&mut model, Message::EnterInsertMode);
    press(&mut model, KeyCode::Left);
    let (query, cursor) = (model.search.query.clone(), model.search.cursor);
    assert_eq!((query.as_str(), cursor), ("日éa", 5));
    press(&mut model, KeyCode::Char('😀'));
    assert_eq!(model.search.query, "日é😀a");
    assert_eq!(model.search.cursor, 9);
    press(&mut model, KeyCode::Backspace);
    assert_eq!((model.search.query, model.search.cursor), (query, cursor));
}

#[test]
fn cursor_moves_by_characters_and_stops_at_both_ends() {
    let mut model = Model::new();
    update(&mut model, Message::EnterInsertMode);
    press(&mut model, KeyCode::Char('日'));
    press(&mut model, KeyCode::Right);
    assert_eq!(model.search.cursor, 3);
    press(&mut model, KeyCode::Left);
    press(&mut model, KeyCode::Left);
    assert_eq!(model.search.cursor, 0);
    press(&mut model, KeyCode::Right);
    assert_eq!(model.search.cursor, 3);
    // Delete at the end does nothing.
    press(&mut model, KeyCode::Delete);
    assert_eq!(model.search.query, "日");
}

#[test]
fn deleting_the_last_character_disarms_the_debounce() {
    let mut model = Model::new();
    update(&mut model, Message::SearchInputChar('a'));
    update(&mut model, Message::SearchBackspace);
    assert!(!model.search.pending);
}

#[test]
fn a_pending_search_is_asked_for_once() {
    let mut model = Model::new();
    let typed = Moment { nanos: 1_000_000_000 };
    update_at(&mut model, Message::SearchInputChar('x'), typed);
    let at = |millis: i64| Moment { nanos: typed.nanos + millis * 1_000_000 };
    assert!(update_at(&mut model, Message::Tick, at(299)).is_empty());
    assert_eq!(update_at(&mut model, Message::Tick, at(300)).len(), 1);
    assert_eq!(model.search_phase, LoadPhase::Loading);
    assert!(update_at(&mut model, Message::Tick, at(900)).is_empty());
}

#[test]
fn data_is_reused_for_five_minutes() {
    let mut model = Model::new();
    let loaded = Moment { nanos: 7 };
    let enter = || Message::EnterScreen(Screen::Playlists);
    update_at(&mut model, Message::PlaylistsLoaded(Ok(Vec::new())), loaded);
    let later = |nanos: i64| Moment { nanos: 7 + 300 * 1_000_000_000 + nanos };
    assert!(update_at(&mut model, enter(), later(-1)).is_empty());
    assert_eq!(update_at(&mut model, enter(), later(0)), vec![Action::LoadPlaylists]);
}

#[test]
fn volume_popup_lasts_a_bit_over_a_second() {
    let mut model = Model::new();
    let now = Moment { nanos: 10 };
    update_at(&mut model, Message::VolumeDelta(5), now);
    assert_eq!(
        model.volume_overlay_until,
        Some(Moment { nanos: 10 + 1_200 * 1_000_000 })
    );
    // Far in the future the deadline is held to the largest moment.
    update_at(&mut model, Message::VolumeDelta(5), Moment { nanos: i64::MAX - 1 });
    assert_eq!(model.volume_overlay_until, Some(Moment { nanos: i64::MAX }));
}

#[test]
fn stale_events_change_nothing() {
    let mut model = Model::new();
    model.now_playing_track = Some(id("current"));
    model.now_playing.state = PlaybackState::Playing;
    let stale = || id("old");
    let events = vec![
        PlaybackEvent::Loading { track: stale() },
        PlaybackEvent::Playing { track: stale(), position_ms: 9 },
        PlaybackEvent::Paused { track: stale(), position_ms: 9 },
        PlaybackEvent::EndOfTrack { track: stale() },
        PlaybackEvent::PreloadNext { track: stale() },
        PlaybackEvent::Stopped { track: stale() },
        PlaybackEvent::Unavailable { track: stale() },
    ];
    for stale_event in events {
        assert!(event(&mut model, stale_event).is_empty());
        assert_eq!(model.now_playing_track, Some(id("current")));
        assert_eq!(model.now_playing.state, PlaybackState::Playing);
        assert_eq!(model.playback_health, PlaybackHealth::Healthy);
    }
}

#[test]
fn paused_events_pause_and_volume_events_publish() {
    let mut model = Model::new();
    model.now_playing_track = Some(id("t"));
    model.now_playing_metadata_track = Some(id("t"));
    let paused = event(&mut model, PlaybackEvent::Paused { track: id("t"), position_ms: 4 });
    assert!(matches!(paused.as_slice(), [Action::PublishNowPlaying(s)]
        if s.state == PlaybackState::Paused && s.position_ms == 4));
    let volume = event(&mut model, PlaybackEvent::VolumeChanged { volume: 33 });
    assert!(matches!(volume.as_slice(), [Action::PublishNowPlaying(s)] if s.volume == 33));
}

#[test]
fn failing_tracks_skip_reconnect_skip_and_stop() {
    let mut model = Model::new();
    model.playback_queue = queue(&["a", "b", "c", "d"]);
    model.playback_queue_cursor = Some(0);
    model.now_playing_track = Some(id("a"));
    let mut fail = |model: &mut Model| {
        let track = model.now_playing_track.clone().unwrap();
        event(model, PlaybackEvent::Unavailable { track })
    };
    assert_eq!(fail(&mut model).last(), Some(&Action::PlayerPlayIndex(1)));
    assert_eq!(model.playback_health, PlaybackHealth::Skipping(1));
    assert_eq!(fail(&mut model), vec![Action::PlayerReconnect]);
    assert_eq!(model.playback_health, PlaybackHealth::Reconnecting(0));
    assert_eq!(fail(&mut model).last(), Some(&Action::PlayerPlayIndex(2)));
    assert_eq!(model.playback_health, PlaybackHealth::Reconnecting(1));
    assert!(fail(&mut model).is_empty());
    assert_eq!(model.now_playing.state, PlaybackState::Stopped);
    assert_eq!(model.playback_health, PlaybackHealth::Healthy);
}

#[test]
fn a_list_played_while_shuffled_plays_in_its_own_order() {
    let mut model = Model::new();
    model.playback_queue = queue(&["a", "b"]);
    update(&mut model, Message::ToggleShuffle);
    model.screen = Screen::Tracks;
    model.tracks = queue(&["x", "y", "z"]);
    model.list_state.select(Some(1));
    let actions = update(&mut model, Message::ActivateSelection);
    assert!(!model.shuffle);
    assert_eq!(model.shuffle_order, None);
    assert_eq!(
        actions[2],
        Action::PlayerLoad { queue: vec![id("x"), id("y"), id("z")], index: 1 }
    );
}

#[test]
fn every_shuffle_is_an_order_and_differs_by_seed() {
    let mut sorted = shuffle(50, 12_345);
    assert_ne!(sorted, shuffle(50, 54_321));
    assert_ne!(sorted, (0..50).collect::<Vec<usize>>());
    sorted.sort_unstable();
    assert_eq!(sorted, (0..50).collect::<Vec<usize>>());
    assert_eq!(shuffle(0, 1), Vec::<usize>::new());
    assert_eq!(shuffle(1, 1), vec![0]);
    assert_eq!(find_place(&vec![2, 0, 1], 1), Some(2));
    assert_eq!(find_place(&vec![2, 0, 1], 3), None);
    assert_eq!(drop_from_order(&vec![2, 0, 3, 1], 0), vec![0, 2, 1]);
}

#[test]
fn shuffle_off_gives_back_duplicates_one_by_one() {
    let mut model = Model::new();
    model.playback_queue = queue(&["a", "b", "a", "c", "a"]);
    model.playback_queue[2].title = "second A".to_owned();
    model.playback_queue_cursor = Some(2);
    let original = model.playback_queue.clone();
    update(&mut model, Message::ToggleShuffle);
    assert_eq!(
        model.playback_queue[model.playback_queue_cursor.unwrap()].title,
        "second A"
    );
    update(&mut model, Message::ToggleShuffle);
    assert_eq!(model.playback_queue, original);
    assert_eq!(model.playback_queue_cursor, Some(2));
}

#[test]
fn a_track_queued_while_shuffled_comes_last_when_restored() {
    let mut model = Model::new();
    model.playback_queue = queue(&["c", "a", "b"]);
    model.shuffle = true;
    model.shuffle_order = Some(vec![2, 0, 1]);
    model.playback_queue_cursor = Some(0);
    model.screen = Screen::Tracks;
    model.tracks = queue(&["z"]);
    model.list_state.select(Some(0));
    let actions = press(&mut model, KeyCode::Char('a'));
    assert_eq!(
        actions,
        vec![Action::PlayerSetQueue {
            queue: vec![id("c"), id("a"), id("b"), id("z")],
            cursor: Some(0),
        }]
    );
    press(&mut model, KeyCode::Char('s'));
    assert_eq!(ids(&model), vec!["a", "b", "c", "z"]);
    assert_eq!(model.playback_queue_cursor, Some(2));
}

#[test]
fn an_unusable_order_leaves_the_queue_alone() {
    let mut model = Model::new();
    model.playback_queue = queue(&["a", "b"]);
    model.shuffle = true;
    model.shuffle_order = Some(vec![0, 0]);
    update(&mut model, Message::ToggleShuffle);
    assert!(!model.shuffle);
    assert_eq!(ids(&model), vec!["a", "b"]);
}

#[test]
fn removing_rows_keeps_the_selection_on_a_row() {
    let mut model = Model::new();
    model.screen = Screen::Queue;
    model.playback_queue = queue(&["a", "b"]);
    model.list_state.select(Some(1));
    press(&mut model, KeyCode::Char('x'));
    assert_eq!(model.list_state.selected(), Some(0));
    let last = press(&mut model, KeyCode::Char('x'));
    assert_eq!(last, vec![Action::PlayerSetQueue { queue: Vec::new(), cursor: None }]);
    assert_eq!(model.list_state.selected(), None);
    assert!(press(&mut model, KeyCode::Char('x')).is_empty());
}

#[test]
fn queue_rows_are_removed_on_the_queue_screen_only() {
    let mut model = Model::new();
    model.playback_queue = queue(&["a", "b"]);
    model.list_state.select(Some(0));
    assert!(update(&mut model, Message::RemoveQueued).is_empty());
    assert_eq!(model.playback_queue.len(), 2);
}

#[test]
fn queueing_without_a_selected_track_explains_itself() {
    let mut model = Model::new();
    model.screen = Screen::Playlists;
    assert!(update(&mut model, Message::QueueSelected).is_empty());
    assert_eq!(model.status.as_deref(), Some("select a track to queue"));
}

#[test]
fn skip_keys_walk_the_queue() {
    let mut model = Model::new();
    model.playback_queue = queue(&["a", "b"]);
    model.playback_queue_cursor = Some(0);
    let next = press(&mut model, KeyCode::Char('n'));
    assert_eq!(next.last(), Some(&Action::PlayerPlayIndex(1)));
    let end = press(&mut model, KeyCode::Char('n'));
    assert_eq!(end, vec![Action::PlayerStop]);
    let back = press(&mut model, KeyCode::Char('p'));
    assert_eq!(back.last(), Some(&Action::PlayerPlayIndex(0)));
    // At the first entry, and on no entry, the skip is left to the player.
    assert_eq!(press(&mut model, KeyCode::Char('p')), vec![Action::PlayerPrev]);
    assert_eq!(model.playback_queue_cursor, Some(0));
    model.playback_queue_cursor = None;
    assert_eq!(update(&mut model, Message::PrevTrack), vec![Action::PlayerPrev]);
}

#[test]
fn preload_wraps_with_the_queue() {
    let mut model = Model::new();
    model.playback_queue = queue(&["a", "b"]);
    model.playback_queue_cursor = Some(1);
    model.now_playing_track = Some(id("b"));
    let hint = || PlaybackEvent::PreloadNext { track: id("b") };
    assert!(event(&mut model, hint()).is_empty());
    model.repeat = RepeatMode::All;
    assert_eq!(event(&mut model, hint()), vec![Action::PlayerPreload(id("a"))]);
}

#[test]
fn repeat_and_tabs_cycle_back() {
    let mut model = Model::new();
    for expected in [RepeatMode::All, RepeatMode::One, RepeatMode::Off] {
        press(&mut model, KeyCode::Char('R'));
        assert_eq!(model.repeat, expected);
    }
    for tab in LibraryTab::ALL {
        assert_eq!(tab.cycled(true).cycled(false), tab);
    }
    for lane in SearchTab::ALL {
        assert_eq!(lane.cycled(false).cycled(true), lane);
    }
    assert_eq!(LibraryTab::Saved.cycled(true), LibraryTab::TopTracks);
    assert_eq!(SearchTab::Tracks.cycled(false), SearchTab::Playlists);
    assert_eq!(LibraryTab::RecentlyPlayed.label(), "Recently Played");
    assert_eq!(SearchTab::Artists.label(), "Artists");
}

#[test]
fn built_in_letters_yield_to_bindings() {
    let mut model = Model::new();
    model.keybindings.down = 'r';
    model.screen = Screen::Playlists;
    assert!(press(&mut model, KeyCode::Char('r')).is_empty());
    assert_eq!(model.list_state.selected(), Some(0));
}

#[test]
fn the_queue_screen_has_its_key() {
    let mut model = Model::new();
    model.playback_queue = queue(&["a", "b"]);
    assert!(press(&mut model, KeyCode::Char('4')).is_empty());
    assert_eq!(model.screen, Screen::Queue);
    assert_eq!(model.list_state.selected(), Some(0));
    assert_eq!(model.active_len(), 2);
    // Reloading the queue asks for nothing.
    assert!(press(&mut model, KeyCode::Char('r')).is_empty());
}

#[test]
fn the_queue_selection_follows_the_cursor_instance() {
    let mut model = Model::new();
    model.screen = Screen::Queue;
    model.playback_queue = queue(&["a", "b", "a"]);
    model.playback_queue_cursor = Some(1);
    model.now_playing_track = Some(id("b"));
    event(&mut model, PlaybackEvent::EndOfTrack { track: id("b") });
    assert_eq!(model.playback_queue_cursor, Some(2));
    assert_eq!(model.list_state.selected(), Some(2));
}

#[test]
fn paging_past_the_last_row_stays_on_it() {
    let mut model = Model::new();
    model.screen = Screen::Queue;
    model.playback_queue = queue(&["a", "b", "c"]);
    update(&mut model, Message::SelectLast);
    press(&mut model, KeyCode::PageDown);
    assert_eq!(model.list_state.selected(), Some(2));
    update(&mut model, Message::SelectPrevious);
    assert_eq!(model.list_state.selected(), Some(1));
    update(&mut model, Message::SelectFirst);
    assert_eq!(model.list_state.selected(), Some(0));
    update(&mut model, Message::SelectPrevious);
    assert_eq!(model.list_state.selected(), Some(0));
}

#[test]
fn paging_back_lands_on_a_row() {
    let names: Vec<String> = (0..40).map(|n: u32| n.to_string()).collect();
    let names: Vec<&str> = names.iter().map(String::as_str).collect();
    let mut model = Model::new();
    model.screen = Screen::Queue;
    model.playback_queue = queue(&names);
    // A row well past the list: one page back would still be past it.
    model.list_state.selected = Some(100);
    press(&mut model, KeyCode::PageUp);
    assert_eq!(model.list_state.selected(), Some(39));
    press(&mut model, KeyCode::PageUp);
    assert_eq!(model.list_state.selected(), Some(24));
    // The end key asks for the largest row there is.
    update(&mut model, Message::SelectLast);
    press(&mut model, KeyCode::PageUp);
    assert_eq!(model.list_state.selected(), Some(39));
    model.list_state.selected = Some(4);
    press(&mut model, KeyCode::PageUp);
    assert_eq!(model.list_state.selected(), Some(0));
}

#[test]
fn published_snapshots_are_the_ones_after_the_step() {
    let mut model = Model::new();
    model.playback_queue = queue(&["a", "b"]);
    model.playback_queue_cursor = Some(0);
    let mut published = 0;
    for step in [
        PlaybackEvent::Loading { track: id("a") },
        PlaybackEvent::Playing { track: id("a"), position_ms: 10 },
        PlaybackEvent::VolumeChanged { volume: 40 },
        PlaybackEvent::Paused { track: id("a"), position_ms: 20 },
        PlaybackEvent::EndOfTrack { track: id("a") },
        PlaybackEvent::Unavailable { track: id("b") },
        PlaybackEvent::SessionDisconnected,
    ] {
        for action in event(&mut model, step) {
            if let Action::PublishNowPlaying(snapshot) = action {
                assert_eq!(snapshot, model.now_playing);
                published += 1;
            }
        }
    }
    assert!(published >= 4);
}

#[test]
fn failed_replies_surface_and_keep_the_data() {
    let mut model = Model::new();
    let down = || ApiError::Request("down".to_owned());
    model.tracks = queue(&["kept"]);
    let source = TrackListSource::Playlist(PlaylistId("p".to_owned()));
    model.track_list_source = Some(source.clone());
    update(&mut model, Message::TrackListLoaded { source, result: Err(down()) });
    assert_eq!(model.tracks_phase, LoadPhase::Failed);
    assert_eq!(model.tracks.len(), 1);
    assert_eq!(
        model.status.as_deref(),
        Some("loading tracks failed: spotify api request failed: down")
    );
    update(&mut model, Message::TopArtistsLoaded(Err(down())));
    assert_eq!(model.artists_phase, LoadPhase::Failed);
    update(&mut model, Message::SavedAlbumsLoaded(Err(down())));
    assert_eq!(model.albums_phase, LoadPhase::Failed);
    update(&mut model, Message::SearchResults(Err(down())));
    assert_eq!(model.search_phase, LoadPhase::Failed);
    assert_eq!(
        model.status.as_deref(),
        Some("search failed: spotify api request failed: down")
    );
    update(&mut model, Message::SavedToggled(Err(down())));
    assert_eq!(
        model.status.as_deref(),
        Some("updating your library failed: spotify api request failed: down")
    );
    update(&mut model, Message::Error("boom".to_owned()));
    assert_eq!(model.status.as_deref(), Some("boom"));
    // Any navigation key clears the status.
    press(&mut model, KeyCode::Down);
    assert_eq!(model.status, None);
}

#[test]
fn failed_lanes_are_named_with_the_key_that_retries() {
    let mut model = Model::new();
    let mut results = spot_defy::api::SearchResultset::default();
    results.failed_lanes = vec!["Albums", "Artists"];
    update(&mut model, Message::SearchResults(Ok(results.clone())));
    assert_eq!(
        model.status.as_deref(),
        Some("search failed for Albums, Artists; press r to retry")
    );
    model.keybindings.quit = 'r';
    update(&mut model, Message::SearchResults(Ok(results)));
    assert_eq!(
        model.status.as_deref(),
        Some("search failed for Albums, Artists; edit the query and press Enter")
    );
}

#[test]
fn leaving_search_ends_insert_mode() {
    let mut model = Model::new();
    update(&mut model, Message::EnterInsertMode);
    update(&mut model, Message::EnterScreen(Screen::Search));
    assert_eq!(model.mode, Mode::Insert);
    update(&mut model, Message::EnterScreen(Screen::Queue));
    assert_eq!(model.mode, Mode::Normal);
    assert!(update(&mut model, Message::Resize(80, 24)).is_empty());
}

#[test]
fn the_clock_never_runs_backwards_past_its_start() {
    let model = Model::new();
    let first = model.clock.now();
    let second = model.clock.now();
    assert!(first.nanos >= 0 && second.nanos >= first.nanos);
    assert_eq!(Moment { nanos: 5 }.nanos_since(Moment { nanos: 9 }), 0);
    assert_eq!(Moment { nanos: i64::MAX }.nanos_since(Moment { nanos: i64::MIN }), u128::from(u64::MAX));
}

#[test]
fn a_clock_counts_from_its_origin() {
    let origin = Instant::now();
    let clock = Clock::starting_at(origin);
    let before = origin.elapsed().as_nanos();
    let read = u128::try_from(clock.now().nanos).unwrap();
    let after = origin.elapsed().as_nanos();
    assert!(before <= read && read <= after);
}

#[test]
fn readings_are_held_to_the_largest_moment() {
    assert_eq!(Moment::after_start(0), Moment { nanos: 0 });
    assert_eq!(Moment::after_start(1_234), Moment { nanos: 1_234 });
    assert_eq!(Moment::after_start(u128::MAX), Moment { nanos: i64::MAX });
}
