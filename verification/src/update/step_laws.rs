//! One pass over every message: the facts that the laws about all steps rest
//! on.

use vstd::prelude::*;
use crate::clock::Moment;
use crate::keys::{KeyCode, KeyEvent};
use crate::message::{ActionView, Message};
use crate::model::{
    lemma_first_with_id, track_ids, PlaybackState, SnapshotView, SourceView, TimeRange, TrackView,
};
use crate::player::librespot_player::index_before;
use crate::player::PlaybackEvent;
use crate::state::{LibraryTab, LoadPhase, Mode, ModelView, PlaybackHealth, Screen};
use crate::update::activate::activated;
use crate::update::key_routing::{
    global_keyed, insert_keyed, inserting, keyed, navigation_keyed, normal_keyed, quitting,
    repeat_cycled, tab_keyed, transport_keyed, SEEK_STEP_MS, VOLUME_STEP,
};
use crate::update::laws::same_query;
use crate::update::loading::{
    albums_asked, artists_asked, drilled, fetch_of, paged, playlists_asked, refreshed, row_after,
    row_before, screen_entered, tab_asked, tracks_asked, with_selection,
};
use crate::update::playback::{
    advanced, engine_reported, jumped, loading_track, next_entry, on_track, played_from,
    skipped_dead, sought, toggled, transport_reported, unavailable, volume_changed, went_back,
    RECONNECT_AFTER_FAILURES,
};
use crate::update::playback_laws::publishes_current;
use crate::update::queue::{
    queued_selected, removed_queued, seed_at, shuffle_toggled, synced_queue,
};
use crate::update::queue_laws::{asks_reconnect, keeps_playback_sound, queue_consistent};
use crate::update::search::submitted;
use crate::update::shuffle::{
    index_of_place, lemma_index_of_place, order_is_one_to_one, restoring_after_a_removal,
    restoring_after_an_append, shuffle_is_an_order, shuffled_order,
};
use crate::update::{stepped, Step};

verus! {

/// Whether the queue is consistent and short of the largest length.
pub open spec fn queue_ready(m: ModelView) -> bool {
    queue_consistent(m) && m.queue.len() < usize::MAX
}

/// What every step keeps of playback: published snapshots are current, and a
/// consistent queue keeps playback sound.
#[verifier::opaque]
pub open spec fn playback_kept(m: ModelView, step: Step) -> bool {
    publishes_current(step) && (queue_ready(m) ==> keeps_playback_sound(m, step))
}

/// The same, with the query left alone.
#[verifier::opaque]
pub open spec fn all_kept(m: ModelView, step: Step) -> bool {
    playback_kept(m, step) && same_query(step.0, m)
}

/// Whether two models agree on the queue.
spec fn same_queue(a: ModelView, b: ModelView) -> bool {
    &&& a.queue == b.queue
    &&& a.cursor == b.cursor
    &&& a.shuffle == b.shuffle
    &&& a.shuffle_order == b.shuffle_order
}

/// Whether a step has no action that concerns playback as a whole.
spec fn plain_actions(step: Step) -> bool {
    forall|i: int|
        0 <= i < step.1.len() ==> !((#[trigger] step.1[i]) is PlayerReconnect)
            && !(step.1[i] is PublishNowPlaying)
}

/// A step that leaves the queue alone and has only plain actions.
proof fn lemma_untouched(m: ModelView, step: Step)
    requires
        same_queue(step.0, m),
        plain_actions(step),
    ensures
        playback_kept(m, step),
        same_query(step.0, m) ==> all_kept(m, step),
{
    reveal(playback_kept);
    reveal(all_kept);
}

/// A step without actions that leaves queue and query alone.
proof fn lemma_quiet(m: ModelView, after: ModelView)
    requires
        same_queue(after, m),
        same_query(after, m),
    ensures
        all_kept(m, (after, Seq::empty())),
{
    lemma_untouched(m, (after, Seq::empty()));
}

/// What is kept depends on the queue, the health and the query alone.
proof fn lemma_same_start(a: ModelView, b: ModelView, step: Step)
    requires
        same_queue(a, b),
        a.health == b.health,
        same_query(a, b),
        all_kept(a, step),
    ensures
        all_kept(b, step),
{
    reveal(playback_kept);
    reveal(all_kept);
}

/// Coming onto a track keeps the queue and leaves the cursor on an entry.
proof fn lemma_on_track(m: ModelView, id: Seq<char>)
    ensures
        queue_ready(m) ==> queue_consistent(on_track(m, id)),
        on_track(m, id).queue == m.queue,
        on_track(m, id).health == m.health,
        same_query(on_track(m, id), m),
{
    lemma_first_with_id(m.queue, id);
}

/// Jumping to an entry.
proof fn lemma_jump(m: ModelView, index: int)
    requires
        0 <= index < m.queue.len(),
    ensures
        all_kept(m, jumped(m, index)),
        !asks_reconnect(jumped(m, index)),
        jumped(m, index).0.queue == m.queue,
{
    reveal(playback_kept);
    reveal(all_kept);
    lemma_first_with_id(m.queue, m.queue[index].id);
}

/// Playing a list.
proof fn lemma_play_from(m: ModelView, tracks: Seq<TrackView>, index: int)
    requires
        0 <= index <= usize::MAX,
    ensures
        all_kept(m, played_from(m, tracks, index)),
{
    reveal(playback_kept);
    reveal(all_kept);
    if index < tracks.len() {
        lemma_first_with_id(tracks, tracks[index].id);
        let step = played_from(m, tracks, index);
        assert(step.1.last() == (ActionView::PlayerLoad { queue: track_ids(tracks), index }));
        assert(step.0.cursor == Some(index as usize));
        assert(!asks_reconnect(step));
    }
}

/// Advancing and going back.
proof fn lemma_skip(m: ModelView, skipped: bool)
    ensures
        all_kept(m, advanced(m, skipped)),
        all_kept(m, went_back(m)),
        !asks_reconnect(advanced(m, skipped)),
        !asks_reconnect(went_back(m)),
{
    lemma_quiet(m, m);
    lemma_untouched(m, (m, seq![ActionView::PlayerStop]));
    lemma_untouched(m, (m, seq![ActionView::PlayerPrev]));
    if let Some(index) = next_entry(m, skipped) {
        lemma_jump(m, index);
    }
    if let Some(index) = index_before(m.cursor) {
        if index < m.queue.len() {
            lemma_jump(m, index);
        }
    }
}

/// Skipping a dead track never reconnects.
proof fn lemma_skip_dead(m: ModelView, health: PlaybackHealth, status: Option<Seq<char>>)
    ensures
        all_kept(m, skipped_dead(m, health, status)),
        !asks_reconnect(skipped_dead(m, health, status)),
{
    let marked = ModelView { health, status, ..m };
    let step = advanced(marked, true);
    lemma_skip(marked, true);
    assert(all_kept(m, step)) by {
        reveal(playback_kept);
        reveal(all_kept);
    }
    if skipped_dead(m, health, status) != step {
        lemma_untouched(m, skipped_dead(m, health, status));
    }
}

/// An unavailable track.
proof fn lemma_unavailable(m: ModelView)
    ensures
        all_kept(m, unavailable(m)),
{
    let status = Some("track unavailable here — skipping"@);
    match m.health {
        PlaybackHealth::Healthy => {
            lemma_skip_dead(m, PlaybackHealth::Skipping(1), status);
        },
        PlaybackHealth::Skipping(count) => {
            lemma_skip_dead(m, PlaybackHealth::Skipping((count + 1) as u32), status);
            if count + 1 >= RECONNECT_AFTER_FAILURES {
                reveal(playback_kept);
                reveal(all_kept);
            }
        },
        PlaybackHealth::Reconnecting(count) => {
            lemma_skip_dead(m, PlaybackHealth::Reconnecting((count + 1) as u32), m.status);
            if count + 1 >= RECONNECT_AFTER_FAILURES {
                lemma_quiet(m, unavailable(m).0);
            }
        },
    }
}

/// A report that the track plays or pauses.
proof fn lemma_transport(
    m: ModelView,
    id: Seq<char>,
    position_ms: u32,
    state: PlaybackState,
    health: PlaybackHealth,
)
    ensures
        all_kept(m, transport_reported(m, id, position_ms, state, health)),
{
    reveal(playback_kept);
    reveal(all_kept);
    lemma_on_track(m, id);
    assert(!asks_reconnect(transport_reported(m, id, position_ms, state, health)));
}

/// A report that a track loads.
proof fn lemma_loading(m: ModelView, event: PlaybackEvent)
    requires
        event is Loading,
    ensures
        all_kept(m, engine_reported(m, event)),
{
    reveal(playback_kept);
    reveal(all_kept);
    let id = event->Loading_track@;
    let silent = ModelView {
        now_playing: SnapshotView {
            state: PlaybackState::Loading,
            position_ms: 0,
            ..m.now_playing
        },
        ..m
    };
    lemma_on_track(silent, id);
    assert(loading_track(m, id) == on_track(silent, id));
    assert(!asks_reconnect(engine_reported(m, event)));
}

/// The remaining events.
proof fn lemma_plain_event(m: ModelView, event: PlaybackEvent)
    requires
        event is PositionUpdate || event is VolumeChanged || event is Stopped
            || event is PreloadNext || event is SessionDisconnected,
    ensures
        all_kept(m, engine_reported(m, event)),
{
    reveal(playback_kept);
    reveal(all_kept);
}

/// Every event of the streaming engine.
proof fn lemma_event(m: ModelView, event: PlaybackEvent)
    ensures
        all_kept(m, engine_reported(m, event)),
{
    lemma_quiet(m, m);
    match event {
        PlaybackEvent::Loading { track } => {
            lemma_loading(m, event);
        },
        PlaybackEvent::Playing { track, position_ms } => {
            lemma_transport(
                m,
                track@,
                position_ms,
                PlaybackState::Playing,
                PlaybackHealth::Healthy,
            );
        },
        PlaybackEvent::Paused { track, position_ms } => {
            lemma_transport(m, track@, position_ms, PlaybackState::Paused, m.health);
        },
        PlaybackEvent::EndOfTrack { .. } => {
            lemma_skip(m, false);
        },
        PlaybackEvent::Unavailable { .. } => {
            lemma_unavailable(m);
        },
        _ => {
            lemma_plain_event(m, event);
        },
    }
}

/// Toggling shuffle.
proof fn lemma_shuffle(m: ModelView, now: Moment)
    ensures
        all_kept(m, shuffle_toggled(m, now)),
{
    reveal(playback_kept);
    reveal(all_kept);
    let len = m.queue.len() as int;
    let step = shuffle_toggled(m, now);
    if queue_ready(m) {
        if m.shuffle {
            order_is_one_to_one(m.shuffle_order->0, len);
            assert(step.1 == synced_queue(step.0));
        } else if len > 0 {
            let order = shuffled_order(len, seed_at(now));
            shuffle_is_an_order(len, seed_at(now));
            if let Some(at) = m.cursor {
                assert(index_of_place(order, at as int) is Some);
                lemma_index_of_place(order, at as int);
            }
            assert(step.1 == synced_queue(step.0));
        }
    }
}

/// Appending the selected track.
proof fn lemma_append(m: ModelView)
    ensures
        all_kept(m, queued_selected(m)),
{
    reveal(playback_kept);
    reveal(all_kept);
    let step = queued_selected(m);
    if queue_ready(m) && step.0.queue != m.queue {
        if m.shuffle_order is Some {
            restoring_after_an_append(m.queue, m.shuffle_order->0, step.0.queue.last());
        }
        assert(step.1 == synced_queue(step.0));
    }
}

/// Removing the selected row.
proof fn lemma_remove(m: ModelView)
    ensures
        all_kept(m, removed_queued(m)),
{
    reveal(playback_kept);
    reveal(all_kept);
    let step = removed_queued(m);
    if let Some(row) = m.list.selected {
        if queue_ready(m) && m.screen == Screen::Queue && row < m.queue.len() && m.cursor != Some(
            row,
        ) {
            if m.shuffle_order is Some {
                restoring_after_a_removal(m.queue, m.shuffle_order->0, row as int);
            }
            assert(step.1 == synced_queue(step.0));
        }
    }
}

/// Asking for a track list.
proof fn lemma_tracks_asked(m: ModelView, source: SourceView, force: bool, now: Moment)
    ensures
        all_kept(m, tracks_asked(m, source, force, now)),
{
    lemma_untouched(m, tracks_asked(m, source, force, now));
}

/// Opening a list.
proof fn lemma_drilled(m: ModelView, origin: Screen, source: SourceView, now: Moment)
    ensures
        all_kept(m, drilled(m, origin, source, now)),
{
    lemma_untouched(m, drilled(m, origin, source, now));
}

/// Activating a row.
proof fn lemma_activate(m: ModelView, now: Moment)
    ensures
        all_kept(m, activated(m, now)),
{
    lemma_quiet(m, m);
    if let Some(row) = m.list.selected {
        let row = row as int;
        let results = m.search_results;
        lemma_play_from(m, m.tracks, row);
        lemma_play_from(m, results.tracks, row);
        if row < m.queue.len() {
            lemma_jump(m, row);
        }
        lemma_drilled(m, Screen::Playlists, SourceView::Playlist(m.playlists[row].id), now);
        lemma_drilled(m, Screen::Library, SourceView::Album(m.albums[row].id), now);
        lemma_drilled(m, Screen::Search, SourceView::Playlist(results.playlists[row].id), now);
        lemma_drilled(m, Screen::Search, SourceView::Album(results.albums[row].id), now);
    }
}

/// Asking for the data of a Library tab.
proof fn lemma_tab_asked(m: ModelView, tab: LibraryTab, force: bool, now: Moment)
    ensures
        all_kept(m, tab_asked(m, tab, force, now)),
{
    lemma_tracks_asked(m, SourceView::TopTracks(TimeRange::MediumTerm), force, now);
    lemma_tracks_asked(m, SourceView::RecentlyPlayed, force, now);
    lemma_tracks_asked(m, SourceView::SavedTracks, force, now);
    lemma_untouched(m, albums_asked(m, force, now));
    lemma_untouched(m, artists_asked(m, force, now));
}

/// Entering a screen.
proof fn lemma_screen_entered(m: ModelView, screen: Screen, now: Moment)
    ensures
        all_kept(m, screen_entered(m, screen, now)),
{
    let moved = ModelView { screen, ..m };
    let placed = if m.screen != screen {
        moved.selection_reset()
    } else {
        moved
    };
    let mode = if screen != Screen::Search {
        Mode::Normal
    } else {
        m.mode
    };
    let shown = ModelView { mode, ..placed };
    lemma_quiet(m, shown);
    lemma_untouched(shown, playlists_asked(shown, false, now));
    lemma_same_start(shown, m, playlists_asked(shown, false, now));
    lemma_tab_asked(shown, m.library_tab, false, now);
    lemma_same_start(shown, m, tab_asked(shown, m.library_tab, false, now));
}

/// Submitting the query, and reloading.
proof fn lemma_refreshed(m: ModelView, now: Moment)
    ensures
        all_kept(m, submitted(m)),
        all_kept(m, refreshed(m, now)),
{
    lemma_quiet(m, m);
    lemma_untouched(m, submitted(m));
    lemma_untouched(m, playlists_asked(m, true, now));
    lemma_tab_asked(m, m.library_tab, true, now);
    if let Some(source) = m.track_list_source {
        lemma_untouched(
            m,
            (ModelView { tracks_phase: LoadPhase::Loading, ..m }, seq![fetch_of(source)]),
        );
    }
}

/// Tab keys.
proof fn lemma_tab_key(m: ModelView, code: KeyCode, now: Moment)
    ensures
        tab_keyed(m, code, now) is Some ==> all_kept(m, tab_keyed(m, code, now)->0),
{
    let forward = code == KeyCode::Tab;
    let tab = m.library_tab.moved(forward);
    let placed = ModelView { library_tab: tab, ..m }.selection_reset();
    lemma_tab_asked(placed, tab, false, now);
    lemma_same_start(placed, m, tab_asked(placed, tab, false, now));
    lemma_quiet(
        m,
        ModelView { search_tab: m.search_tab.moved(forward), ..m }.selection_reset(),
    );
}

/// Global keys.
proof fn lemma_global_key(m: ModelView, code: KeyCode, now: Moment)
    ensures
        global_keyed(m, code, now) is Some ==> all_kept(m, global_keyed(m, code, now)->0),
{
    lemma_quiet(m, quitting(m));
    lemma_quiet(m, inserting(ModelView { screen: Screen::Search, ..m }));
    lemma_quiet(m, repeat_cycled(m));
    lemma_screen_entered(m, Screen::Search, now);
    lemma_screen_entered(m, Screen::Playlists, now);
    lemma_screen_entered(m, Screen::Library, now);
    lemma_screen_entered(m, Screen::Queue, now);
    lemma_refreshed(m, now);
    lemma_shuffle(m, now);
    lemma_append(m);
    lemma_remove(m);
}

/// Moving the selection.
proof fn lemma_selections(m: ModelView)
    ensures
        all_kept(m, (with_selection(m, row_after(m.list)), Seq::empty())),
        all_kept(m, (with_selection(m, row_before(m.list)), Seq::empty())),
        all_kept(m, (with_selection(m, 0), Seq::empty())),
        all_kept(m, (with_selection(m, usize::MAX), Seq::empty())),
        all_kept(m, (paged(m, true), Seq::empty())),
        all_kept(m, (paged(m, false), Seq::empty())),
{
    lemma_quiet(m, with_selection(m, row_after(m.list)));
    lemma_quiet(m, with_selection(m, row_before(m.list)));
    lemma_quiet(m, with_selection(m, 0));
    lemma_quiet(m, with_selection(m, usize::MAX));
    lemma_quiet(m, paged(m, true));
    lemma_quiet(m, paged(m, false));
}

/// Navigation keys.
proof fn lemma_navigation_key(m: ModelView, code: KeyCode, now: Moment)
    ensures
        navigation_keyed(m, code, now) is Some ==> all_kept(m, navigation_keyed(m, code, now)->0),
{
    lemma_quiet(m, m);
    lemma_selections(m);
    lemma_activate(m, now);
    lemma_screen_entered(m, m.tracks_origin, now);
}

/// Transport keys.
proof fn lemma_transport_key(m: ModelView, code: KeyCode, now: Moment)
    ensures
        all_kept(m, transport_keyed(m, code, now)),
{
    lemma_quiet(m, m);
    lemma_skip(m, true);
    lemma_untouched(m, (m, toggled(m)));
    lemma_untouched(m, (m, seq![ActionView::PlayerNext]));
    lemma_untouched(m, (m, seq![ActionView::PlayerPrev]));
    lemma_untouched(m, (m, sought(m, SEEK_STEP_MS as int)));
    lemma_untouched(m, (m, sought(m, -SEEK_STEP_MS)));
    lemma_untouched(m, volume_changed(m, VOLUME_STEP as int, now));
    lemma_untouched(m, volume_changed(m, -VOLUME_STEP, now));
}

/// Keys in navigation mode.
pub proof fn lemma_normal_key(m: ModelView, key: KeyEvent, now: Moment)
    ensures
        all_kept(m, normal_keyed(m, key, now)),
{
    let plain = ModelView { status: None, ..m };
    let step = normal_keyed(m, key, now);
    lemma_quiet(plain, quitting(plain));
    lemma_tab_key(plain, key.code, now);
    lemma_global_key(plain, key.code, now);
    lemma_navigation_key(plain, key.code, now);
    lemma_transport_key(plain, key.code, now);
    lemma_same_start(plain, m, step);
}

/// Keys in the search box.
proof fn lemma_insert_key(m: ModelView, key: KeyEvent, now: Moment)
    ensures
        playback_kept(m, insert_keyed(m, key, now)),
{
    lemma_untouched(m, insert_keyed(m, key, now));
}

/// Every key.
proof fn lemma_key(m: ModelView, key: KeyEvent, now: Moment)
    ensures
        playback_kept(m, keyed(m, key, now)),
{
    lemma_quiet(m, m);
    lemma_normal_key(m, key, now);
    lemma_insert_key(m, key, now);
    reveal(all_kept);
}

/// Replies.
proof fn lemma_replies(m: ModelView, msg: Message, now: Moment)
    requires
        msg is SearchResults || msg is PlaylistsLoaded || msg is TrackListLoaded
            || msg is TopArtistsLoaded || msg is SavedAlbumsLoaded || msg is SavedToggled,
    ensures
        all_kept(m, stepped(m, msg, now)),
{
    lemma_untouched(m, stepped(m, msg, now));
}

/// Selection, mode and status messages.
proof fn lemma_plain_messages(m: ModelView, msg: Message, now: Moment)
    requires
        msg is SelectNext || msg is SelectPrevious || msg is SelectFirst || msg is SelectLast
            || msg is Quit || msg is Resize || msg is EnterInsertMode || msg is ExitInsertMode
            || msg is Error || msg is CycleRepeat,
    ensures
        all_kept(m, stepped(m, msg, now)),
{
    lemma_untouched(m, stepped(m, msg, now));
}

/// Edits of the query.
proof fn lemma_edits(m: ModelView, msg: Message, now: Moment)
    requires
        msg is SearchInputChar || msg is SearchBackspace,
    ensures
        playback_kept(m, stepped(m, msg, now)),
{
    lemma_untouched(m, stepped(m, msg, now));
}

/// Ticks, submits, transport and likes.
proof fn lemma_ticks(m: ModelView, msg: Message, now: Moment)
    requires
        msg is Tick || msg is SearchSubmit || msg is TogglePlayPause || msg is SeekRelative
            || msg is VolumeDelta || msg is ToggleLike,
    ensures
        all_kept(m, stepped(m, msg, now)),
{
    lemma_untouched(m, stepped(m, msg, now));
}

/// Opening a screen or a row, and skips.
proof fn lemma_active_messages(m: ModelView, msg: Message, now: Moment)
    requires
        msg is EnterScreen || msg is ActivateSelection || msg is NextTrack || msg is PrevTrack,
    ensures
        all_kept(m, stepped(m, msg, now)),
{
    if let Message::EnterScreen(screen) = msg {
        lemma_screen_entered(m, screen, now);
    }
    lemma_activate(m, now);
    lemma_skip(m, true);
}

/// Queue edits.
proof fn lemma_queue_messages(m: ModelView, msg: Message, now: Moment)
    requires
        msg is ToggleShuffle || msg is QueueSelected || msg is RemoveQueued,
    ensures
        all_kept(m, stepped(m, msg, now)),
{
    lemma_shuffle(m, now);
    lemma_append(m);
    lemma_remove(m);
}

/// Engine events, as messages.
proof fn lemma_event_messages(m: ModelView, msg: Message, now: Moment)
    requires
        msg is PlaybackEvent,
    ensures
        all_kept(m, stepped(m, msg, now)),
{
    lemma_event(m, msg->PlaybackEvent_0);
}

/// Keys, as messages.
proof fn lemma_key_messages(m: ModelView, msg: Message, now: Moment)
    requires
        msg is KeyPress,
    ensures
        playback_kept(m, stepped(m, msg, now)),
{
    lemma_key(m, msg->KeyPress_0, now);
}

/// Every message: playback is kept, and the query too where the message is
/// neither a key nor an edit.
pub proof fn lemma_step(m: ModelView, msg: Message, now: Moment)
    ensures
        playback_kept(m, stepped(m, msg, now)),
        !(msg is KeyPress) && !(msg is SearchInputChar) && !(msg is SearchBackspace)
            ==> same_query(stepped(m, msg, now).0, m),
{
    reveal(all_kept);
    match msg {
        Message::SearchResults(_)
        | Message::PlaylistsLoaded(_)
        | Message::TrackListLoaded { .. }
        | Message::TopArtistsLoaded(_)
        | Message::SavedAlbumsLoaded(_)
        | Message::SavedToggled(_) => {
            lemma_replies(m, msg, now);
        },
        Message::Tick
        | Message::SearchSubmit
        | Message::TogglePlayPause
        | Message::SeekRelative(_)
        | Message::VolumeDelta(_)
        | Message::ToggleLike => {
            lemma_ticks(m, msg, now);
        },
        Message::EnterScreen(_)
        | Message::ActivateSelection
        | Message::NextTrack
        | Message::PrevTrack => {
            lemma_active_messages(m, msg, now);
        },
        Message::ToggleShuffle | Message::QueueSelected | Message::RemoveQueued => {
            lemma_queue_messages(m, msg, now);
        },
        Message::PlaybackEvent(_) => {
            lemma_event_messages(m, msg, now);
        },
        Message::KeyPress(_) => {
            lemma_key_messages(m, msg, now);
        },
        Message::SearchInputChar(_) | Message::SearchBackspace => {
            lemma_edits(m, msg, now);
        },
        _ => {
            lemma_plain_messages(m, msg, now);
        },
    }
}

} // verus!
