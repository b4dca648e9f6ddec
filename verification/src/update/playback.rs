//! Playback: the queue cursor, the events of the streaming engine, and what to
//! do when tracks cannot be played.

use vstd::prelude::*;
use crate::clock::{moment_after, Moment};
use crate::message::{no_actions, one_action, push_action, Action, ActionView};
use crate::model::{
    clone_art, clone_text, clone_track_id, first_with_id, ids_of, names_track, position_of,
    stopped_snapshot, track_ids, AlbumArtImage, ArtView, PlaybackSnapshot, PlaybackState,
    SnapshotView, TrackId, TrackItem, TrackView,
};
use crate::player::librespot_player::{index_after, index_before, next_index, previous_index};
use crate::player::PlaybackEvent;
use crate::state::{
    find_in, found, LibraryTab, Model, ModelView, PlaybackHealth, RepeatMode, Screen, SearchTab,
};
use crate::text::{view_of, views};
use crate::update::Step;

verus! {

/// How long to keep the transient volume popup visible after user input.
pub const VOLUME_OVERLAY_MS: u32 = 1_200;

/// Consecutive unavailable tracks that trigger a streaming-session reconnect
/// rather than continuing to skip. One region-locked track is skipped; this
/// many failures in a row means the session is dead, not the tracks.
pub const RECONNECT_AFTER_FAILURES: u32 = 2;

/// The track list currently shown on screen, empty where the active screen/tab
/// shows no playable track list.
pub open spec fn shown_tracks(m: ModelView) -> Seq<TrackView> {
    match m.screen {
        Screen::Tracks => m.tracks,
        Screen::Library => match m.library_tab {
            LibraryTab::TopTracks | LibraryTab::RecentlyPlayed | LibraryTab::Saved => m.tracks,
            LibraryTab::Albums | LibraryTab::TopArtists => Seq::empty(),
        },
        Screen::Search => if m.search_tab == SearchTab::Tracks {
            m.search_results.tracks
        } else {
            Seq::empty()
        },
        Screen::Queue => m.queue,
        Screen::Playlists => Seq::empty(),
    }
}

/// The metadata of a playing track: from the queue first, then from the list
/// on screen, then from anything loaded.
pub open spec fn metadata_of(m: ModelView, id: Seq<char>) -> Option<TrackView> {
    match found(m.queue, id) {
        Some(track) => Some(track),
        None => match found(shown_tracks(m), id) {
            Some(track) => Some(track),
            None => m.loaded_track(id),
        },
    }
}

/// Whether the queue cursor is on an entry with the id `id`.
pub open spec fn cursor_holds(m: ModelView, id: Seq<char>) -> bool {
    match m.cursor {
        Some(at) => at < m.queue.len() && m.queue[at as int].id == id,
        None => false,
    }
}

/// The queue cursor once `id` plays: it stays where its entry already has that
/// id, so a track queued twice keeps the instance that was chosen; otherwise it
/// goes to the first entry that has it, if any.
pub open spec fn cursor_for(m: ModelView, id: Seq<char>) -> Option<usize> {
    if cursor_holds(m, id) {
        m.cursor
    } else {
        match first_with_id(m.queue, id) {
            Some(index) => Some(index as usize),
            None => m.cursor,
        }
    }
}

/// The row that shows the playing track `id`: the cursor's own row on the
/// Queue screen, elsewhere the first row with that id.
pub open spec fn row_of_playing(m: ModelView, id: Seq<char>) -> Option<usize> {
    if m.screen == Screen::Queue {
        if cursor_holds(m, id) {
            m.cursor
        } else {
            None
        }
    } else {
        match first_with_id(shown_tracks(m), id) {
            Some(index) => Some(index as usize),
            None => None,
        }
    }
}

/// The model with the selection on the playing track `id`, where it is shown.
pub open spec fn following(m: ModelView, id: Seq<char>) -> ModelView {
    match row_of_playing(m, id) {
        Some(row) => ModelView { list: m.list.selecting(Some(row)), ..m },
        None => m,
    }
}

/// The snapshot with the metadata of `track`, or without any.
pub open spec fn described(np: SnapshotView, track: Option<TrackView>) -> SnapshotView {
    match track {
        Some(track) => SnapshotView {
            track: Some(track.title),
            artist: Some(track.artist),
            duration_ms: track.duration_ms,
            ..np
        },
        None => SnapshotView { track: None, artist: None, duration_ms: 0, ..np },
    }
}

/// The model once `id` is the playing track: expected, shown and described.
pub open spec fn on_track(m: ModelView, id: Seq<char>) -> ModelView {
    let placed = following(
        ModelView {
            now_playing_track: Some(id),
            now_playing_metadata_track: Some(id),
            cursor: cursor_for(m, id),
            ..m
        },
        id,
    );
    ModelView { now_playing: described(m.now_playing, metadata_of(placed, id)), ..placed }
}

/// The model once `id` starts loading.
pub open spec fn loading_track(m: ModelView, id: Seq<char>) -> ModelView {
    on_track(
        ModelView {
            now_playing: SnapshotView {
                state: PlaybackState::Loading,
                position_ms: 0,
                ..m.now_playing
            },
            ..m
        },
        id,
    )
}

/// The album art of a playing track.
pub open spec fn art_of(m: ModelView, id: Seq<char>) -> Seq<ArtView> {
    match metadata_of(m, id) {
        Some(track) => track.album_art_images,
        None => Seq::empty(),
    }
}

/// The requests that follow a change of the playing track: its art, and the
/// new snapshot.
pub open spec fn announced(m: ModelView, id: Seq<char>) -> Seq<ActionView> {
    seq![
        ActionView::LoadAlbumArt(art_of(m, id)),
        ActionView::PublishNowPlaying(m.now_playing),
    ]
}

/// The expected track is staged before the player reports it: it shows as
/// loading, and events of the track before it are stale from now on.
pub open spec fn staged(m: ModelView) -> Step {
    match m.now_playing_track {
        None => (m, Seq::empty()),
        Some(id) => {
            let loading = loading_track(m, id);
            (loading, announced(loading, id))
        },
    }
}

/// Playback moves to the queue entry at `index`.
pub open spec fn jumped(m: ModelView, index: int) -> Step {
    let (moved, announcements) = staged(
        ModelView {
            cursor: Some(index as usize),
            now_playing_track: Some(m.queue[index].id),
            ..m
        },
    );
    (moved, announcements.push(ActionView::PlayerPlayIndex(index)))
}

/// The queue entry that comes next. A track that ended by itself is replayed
/// in repeat-one; a skip always moves on. At the end the queue starts over in
/// repeat-all and ends otherwise.
pub open spec fn next_entry(m: ModelView, skipped: bool) -> Option<int> {
    let replay = match m.cursor {
        Some(at) => !skipped && m.repeat == RepeatMode::One && at < m.queue.len(),
        None => false,
    };
    if replay {
        Some(m.cursor->0 as int)
    } else {
        match index_after(m.cursor, m.queue.len() as int) {
            Some(index) => Some(index),
            None => if m.repeat == RepeatMode::All && m.queue.len() > 0 {
                Some(0)
            } else {
                None
            },
        }
    }
}

/// Playback advances: to the next entry, or to a stop at the end of the queue;
/// without a queue nothing happens.
pub open spec fn advanced(m: ModelView, skipped: bool) -> Step {
    match next_entry(m, skipped) {
        Some(index) => jumped(m, index),
        None => if m.queue.len() == 0 {
            (m, Seq::empty())
        } else {
            (m, seq![ActionView::PlayerStop])
        },
    }
}

/// Playback goes back one entry. At the start of the queue, or where playback is
/// on no entry, the skip is handed to the player; with no queue nothing happens.
pub open spec fn went_back(m: ModelView) -> Step {
    match index_before(m.cursor) {
        Some(index) if index < m.queue.len() => jumped(m, index),
        _ => if m.queue.len() == 0 {
            (m, Seq::empty())
        } else {
            (m, seq![ActionView::PlayerPrev])
        },
    }
}

/// Playing a list from `index`: the whole list becomes the queue, in its own
/// order.
pub open spec fn played_from(m: ModelView, tracks: Seq<TrackView>, index: int) -> Step {
    if index >= tracks.len() {
        (m, Seq::empty())
    } else {
        let (playing, announcements) = staged(
            ModelView {
                queue: tracks,
                now_playing_track: Some(tracks[index].id),
                cursor: Some(index as usize),
                shuffle: false,
                shuffle_order: None,
                ..m
            },
        );
        (
            playing,
            announcements.push(ActionView::PlayerLoad { queue: track_ids(tracks), index }),
        )
    }
}

/// What toggling play/pause asks of the player.
pub open spec fn toggled(m: ModelView) -> Seq<ActionView> {
    match m.now_playing.state {
        PlaybackState::Playing => seq![ActionView::PlayerPause],
        PlaybackState::Paused => seq![ActionView::PlayerPlay],
        PlaybackState::Loading | PlaybackState::Stopped => Seq::empty(),
    }
}

/// `value` held to the range from `low` to `high`.
pub open spec fn held_between(value: int, low: int, high: int) -> int {
    if value < low {
        low
    } else if value > high {
        high
    } else {
        value
    }
}

/// What a relative seek asks of the player: an absolute position within the
/// track, and nothing where no track is loaded.
pub open spec fn sought(m: ModelView, delta: int) -> Seq<ActionView> {
    if m.now_playing.duration_ms == 0 {
        Seq::empty()
    } else {
        seq![
            ActionView::PlayerSeek(
                held_between(m.now_playing.position_ms + delta, 0, m.now_playing.duration_ms as int),
            ),
        ]
    }
}

/// A relative volume change: an absolute volume within 0 to 100, and the
/// popup that shows it.
pub open spec fn volume_changed(m: ModelView, delta: int, now: Moment) -> Step {
    let volume = held_between(m.now_playing.volume + delta, 0, 100);
    (
        ModelView {
            now_playing: SnapshotView { volume: volume as u16, ..m.now_playing },
            volume_overlay_until: Some(moment_after(now, VOLUME_OVERLAY_MS as int)),
            ..m
        },
        seq![ActionView::PlayerSetVolume(volume)],
    )
}

/// Whether `id` is the track playback is expected to be on.
pub open spec fn is_expected(m: ModelView, id: Seq<char>) -> bool {
    m.now_playing_track == Some(id)
}

/// Whether an event of the track `id` is current: it is the expected track, or
/// none is expected.
pub open spec fn accepts(m: ModelView, id: Seq<char>) -> bool {
    m.now_playing_track is None || is_expected(m, id)
}

/// Playback stopped: nothing is playing, and only the volume is kept.
pub open spec fn stopped(m: ModelView) -> ModelView {
    ModelView {
        now_playing: stopped_snapshot(m.now_playing.volume),
        now_playing_track: None,
        now_playing_metadata_track: None,
        cursor: None,
        health: PlaybackHealth::Healthy,
        ..m
    }
}

/// Skipping a track that cannot be played, with the health that this leads to.
/// Where the skip would come back to the same entry, playback stops instead.
pub open spec fn skipped_dead(
    m: ModelView,
    health: PlaybackHealth,
    status: Option<Seq<char>>,
) -> Step {
    if m.cursor is Some && next_entry(m, true) == Some(m.cursor->0 as int) {
        (
            ModelView {
                health: PlaybackHealth::Healthy,
                now_playing: SnapshotView { state: PlaybackState::Stopped, ..m.now_playing },
                status: Some("no playable tracks here — stopped"@),
                ..m
            },
            seq![ActionView::PlayerStop],
        )
    } else {
        advanced(ModelView { health, status, ..m }, true)
    }
}

/// The playing track turned out to be unavailable. An isolated failure is
/// skipped; [`RECONNECT_AFTER_FAILURES`] in a row mean that the session is dead,
/// so it is rebuilt once; after that as many failures again stop playback.
pub open spec fn unavailable(m: ModelView) -> Step {
    match m.health {
        PlaybackHealth::Healthy => skipped_dead(
            m,
            PlaybackHealth::Skipping(1),
            Some("track unavailable here — skipping"@),
        ),
        PlaybackHealth::Skipping(count) => if count + 1 >= RECONNECT_AFTER_FAILURES {
            (
                ModelView {
                    health: PlaybackHealth::Reconnecting(0),
                    status: Some("streaming connection lost — reconnecting"@),
                    ..m
                },
                seq![ActionView::PlayerReconnect],
            )
        } else {
            skipped_dead(
                m,
                PlaybackHealth::Skipping((count + 1) as u32),
                Some("track unavailable here — skipping"@),
            )
        },
        PlaybackHealth::Reconnecting(count) => if count + 1 >= RECONNECT_AFTER_FAILURES {
            (
                ModelView {
                    health: PlaybackHealth::Healthy,
                    now_playing: SnapshotView { state: PlaybackState::Stopped, ..m.now_playing },
                    status: Some("no playable tracks here — stopped"@),
                    ..m
                },
                Seq::empty(),
            )
        } else {
            skipped_dead(m, PlaybackHealth::Reconnecting((count + 1) as u32), m.status)
        },
    }
}

/// The session dropped: playback shows as stopped, and a reconnect is asked
/// for unless one is already under way.
pub open spec fn disconnected(m: ModelView) -> Step {
    let silent = ModelView {
        now_playing: SnapshotView { state: PlaybackState::Stopped, ..m.now_playing },
        ..m
    };
    match m.health {
        PlaybackHealth::Reconnecting(_) => (
            silent.with_status("streaming session disconnected"@),
            Seq::empty(),
        ),
        _ => (
            ModelView {
                health: PlaybackHealth::Reconnecting(0),
                status: Some("streaming session lost — reconnecting"@),
                ..silent
            },
            seq![ActionView::PlayerReconnect],
        ),
    }
}

/// The model and its snapshot, published.
pub open spec fn published(m: ModelView) -> Step {
    (m, seq![ActionView::PublishNowPlaying(m.now_playing)])
}

/// What to preload while the current track plays: the entry that comes next,
/// where it is another one.
pub open spec fn preloaded(m: ModelView) -> Seq<ActionView> {
    match (m.cursor, next_entry(m, false)) {
        (Some(at), Some(index)) => if index != at {
            seq![ActionView::PlayerPreload(m.queue[index].id)]
        } else {
            Seq::empty()
        },
        _ => Seq::empty(),
    }
}

/// The track starts or resumes (`Playing`) or pauses (`Paused`).
pub open spec fn transport_reported(
    m: ModelView,
    id: Seq<char>,
    position_ms: u32,
    state: PlaybackState,
    health: PlaybackHealth,
) -> Step {
    let changed = m.now_playing_metadata_track != Some(id);
    let synced = if changed {
        on_track(m, id)
    } else {
        m
    };
    let reported = ModelView {
        now_playing: SnapshotView { state, position_ms, ..synced.now_playing },
        health,
        ..synced
    };
    if changed {
        (reported, announced(reported, id))
    } else {
        published(reported)
    }
}

/// An event of the streaming engine. Events of a track that is not the
/// expected one are stale and change nothing.
pub open spec fn engine_reported(m: ModelView, event: PlaybackEvent) -> Step {
    match event {
        PlaybackEvent::Loading { track } => if accepts(m, track@) {
            let loading = loading_track(m, track@);
            if m.now_playing_metadata_track != Some(track@) {
                (loading, announced(loading, track@))
            } else {
                published(loading)
            }
        } else {
            (m, Seq::empty())
        },
        PlaybackEvent::Playing { track, position_ms } => if accepts(m, track@) {
            transport_reported(
                m,
                track@,
                position_ms,
                PlaybackState::Playing,
                PlaybackHealth::Healthy,
            )
        } else {
            (m, Seq::empty())
        },
        PlaybackEvent::Paused { track, position_ms } => if accepts(m, track@) {
            transport_reported(m, track@, position_ms, PlaybackState::Paused, m.health)
        } else {
            (m, Seq::empty())
        },
        PlaybackEvent::PositionUpdate { position_ms } => if m.now_playing.state
            == PlaybackState::Loading {
            (m, Seq::empty())
        } else {
            published(
                ModelView { now_playing: SnapshotView { position_ms, ..m.now_playing }, ..m },
            )
        },
        PlaybackEvent::VolumeChanged { volume } => published(
            ModelView { now_playing: SnapshotView { volume, ..m.now_playing }, ..m },
        ),
        PlaybackEvent::Stopped { track } => if track@.len() == 0 || is_expected(m, track@) {
            published(stopped(m))
        } else {
            (m, Seq::empty())
        },
        PlaybackEvent::PreloadNext { track } => if is_expected(m, track@) {
            (m, preloaded(m))
        } else {
            (m, Seq::empty())
        },
        PlaybackEvent::EndOfTrack { track } => if is_expected(m, track@) {
            advanced(m, false)
        } else {
            (m, Seq::empty())
        },
        PlaybackEvent::Unavailable { track } => if is_expected(m, track@) {
            unavailable(m)
        } else {
            (m, Seq::empty())
        },
        PlaybackEvent::SessionDisconnected => disconnected(m),
    }
}

/// The track list currently shown on screen, or `None` when the active
/// screen/tab shows no playable track list.
pub fn active_track_list(model: &Model) -> (tracks: Option<&Vec<TrackItem>>)
    ensures
        match tracks {
            Some(tracks) => views(tracks@) == shown_tracks(model@),
            None => shown_tracks(model@) == Seq::<TrackView>::empty(),
        },
{
    match model.screen {
        Screen::Tracks => Some(&model.tracks),
        Screen::Library => match model.library_tab {
            LibraryTab::TopTracks | LibraryTab::RecentlyPlayed | LibraryTab::Saved => Some(
                &model.tracks,
            ),
            LibraryTab::Albums | LibraryTab::TopArtists => None,
        },
        Screen::Search => if model.search_tab == SearchTab::Tracks {
            Some(&model.search_results.tracks)
        } else {
            None
        },
        Screen::Queue => Some(&model.playback_queue),
        Screen::Playlists => None,
    }
}

/// Resolve metadata for the active playback queue first, then any currently
/// visible/loaded track list. This prevents a previous list with the same id
/// from supplying stale title/art for a newly launched queue.
pub fn find_playback_track<'a>(model: &'a Model, track: &TrackId) -> (item: Option<&'a TrackItem>)
    ensures
        view_of(item) == metadata_of(model@, track@),
{
    match find_in(&model.playback_queue, track) {
        Some(item) => Some(item),
        None => {
            let shown = match active_track_list(model) {
                Some(tracks) => find_in(tracks, track),
                None => None,
            };
            match shown {
                Some(item) => Some(item),
                None => model.find_track(track),
            }
        },
    }
}

/// Whether the queue cursor is on an entry with the id `track`.
fn cursor_is_on(model: &Model, track: &TrackId) -> (yes: bool)
    ensures
        yes == cursor_holds(model@, track@),
{
    match model.playback_queue_cursor {
        Some(at) => at < model.playback_queue.len() && model.playback_queue[at].id.same(track),
        None => false,
    }
}

/// Move the list selection to follow the now-playing `track` when it appears in
/// the active screen's track list, so an auto-advanced track stays highlighted.
fn follow_now_playing(model: &mut Model, track: &TrackId)
    ensures
        final(model)@ == following(old(model)@, track@),
{
    if model.screen == Screen::Queue {
        if cursor_is_on(model, track) {
            let row = model.playback_queue_cursor;
            model.list_state.select(row);
        }
        return;
    }
    let row: Option<usize> = match active_track_list(model) {
        Some(tracks) => position_of(tracks, track),
        None => None,
    };
    if let Some(index) = row {
        model.list_state.select(Some(index));
    }
}

/// Point the queue cursor at the playing `track`, unless it is there already.
fn sync_cursor(model: &mut Model, track: &TrackId)
    ensures
        final(model)@ == (ModelView { cursor: cursor_for(old(model)@, track@), ..old(model)@ }),
{
    if cursor_is_on(model, track) {
        return;
    }
    if let Some(index) = position_of(&model.playback_queue, track) {
        model.playback_queue_cursor = Some(index);
    }
}

/// Show the metadata of the playing `track`, or none if it cannot be resolved.
fn describe_now_playing(model: &mut Model, track: &TrackId)
    ensures
        final(model)@ == (ModelView {
            now_playing: described(old(model)@.now_playing, metadata_of(old(model)@, track@)),
            ..old(model)@
        }),
{
    let metadata: Option<(String, String, u32)> = match find_playback_track(model, track) {
        Some(item) => Some((item.title.clone(), item.artist.clone(), item.duration_ms)),
        None => None,
    };
    match metadata {
        Some((title, artist, duration_ms)) => {
            model.now_playing.track = Some(title);
            model.now_playing.artist = Some(artist);
            model.now_playing.duration_ms = duration_ms;
        },
        None => {
            model.now_playing.track = None;
            model.now_playing.artist = None;
            model.now_playing.duration_ms = 0;
        },
    }
}

/// Update the now-playing identity from the current app-side queue or visible
/// lists, clearing stale metadata if the track cannot be resolved.
fn sync_now_playing_track(model: &mut Model, track: &TrackId)
    ensures
        final(model)@ == on_track(old(model)@, track@),
{
    sync_cursor(model, track);
    model.now_playing_track = Some(track.clone());
    model.now_playing_metadata_track = Some(track.clone());
    follow_now_playing(model, track);
    describe_now_playing(model, track);
}

/// Populate the now-playing metadata for a newly loading track.
fn apply_loading(model: &mut Model, track: &TrackId)
    ensures
        final(model)@ == loading_track(old(model)@, track@),
{
    model.now_playing.state = PlaybackState::Loading;
    model.now_playing.position_ms = 0;
    sync_now_playing_track(model, track);
}

/// The album art of a playing track.
fn album_art_for(model: &Model, track: &TrackId) -> (images: Vec<AlbumArtImage>)
    ensures
        views(images@) == art_of(model@, track@),
{
    match find_playback_track(model, track) {
        Some(item) => clone_art(&item.album_art_images),
        None => {
            let images: Vec<AlbumArtImage> = Vec::new();
            assert(views(images@) =~= Seq::<ArtView>::empty());
            images
        },
    }
}

/// The requests that follow a change of the playing track.
fn track_identity_actions(model: &Model, track: &TrackId) -> (actions: Vec<Action>)
    ensures
        views(actions@) == announced(model@, track@),
{
    let mut actions = one_action(Action::LoadAlbumArt(album_art_for(model, track)));
    push_action(&mut actions, Action::PublishNowPlaying(model.now_playing.clone()));
    assert(views(actions@) =~= announced(model@, track@));
    actions
}

/// Stage the expected track: show it as loading before the player reports it.
fn stage_expected_track(model: &mut Model) -> (actions: Vec<Action>)
    ensures
        (final(model)@, views(actions@)) == staged(old(model)@),
{
    match clone_track_id(&model.now_playing_track) {
        None => no_actions(),
        Some(track) => {
            apply_loading(model, &track);
            track_identity_actions(model, &track)
        },
    }
}

/// Move playback to the queue entry at `index`, updating the expected track
/// before the player emits events so stale events from the old track are
/// ignored.
pub fn play_index(model: &mut Model, index: usize) -> (actions: Vec<Action>)
    requires
        index < old(model).playback_queue@.len(),
    ensures
        (final(model)@, views(actions@)) == jumped(old(model)@, index as int),
{
    model.now_playing_track = Some(model.playback_queue[index].id.clone());
    model.playback_queue_cursor = Some(index);
    let mut actions = stage_expected_track(model);
    push_action(&mut actions, Action::PlayerPlayIndex(index));
    actions
}

/// The queue entry that comes next.
pub fn next_queue_entry(model: &Model, skipped: bool) -> (next: Option<usize>)
    ensures
        match next {
            Some(index) => next_entry(model@, skipped) == Some(index as int) && index
                < model.playback_queue@.len(),
            None => next_entry(model@, skipped) is None,
        },
{
    let len: usize = model.playback_queue.len();
    if let Some(at) = model.playback_queue_cursor {
        if !skipped && model.repeat == RepeatMode::One && at < len {
            return Some(at);
        }
    }
    match next_index(model.playback_queue_cursor, len) {
        Some(index) => Some(index),
        None => if model.repeat == RepeatMode::All && len > 0 {
            Some(0)
        } else {
            None
        },
    }
}

/// Advance playback to the next queue entry, or stop at the end of the queue.
fn advance(model: &mut Model, skipped: bool) -> (actions: Vec<Action>)
    ensures
        (final(model)@, views(actions@)) == advanced(old(model)@, skipped),
{
    match next_queue_entry(model, skipped) {
        Some(index) => play_index(model, index),
        None => if model.playback_queue.len() == 0 {
            no_actions()
        } else {
            one_action(Action::PlayerStop)
        },
    }
}

/// Skip to the next queue entry.
pub fn next_track(model: &mut Model) -> (actions: Vec<Action>)
    ensures
        (final(model)@, views(actions@)) == advanced(old(model)@, true),
{
    advance(model, true)
}

/// Move playback to the previous queue entry.
pub fn previous_track(model: &mut Model) -> (actions: Vec<Action>)
    ensures
        (final(model)@, views(actions@)) == went_back(old(model)@),
{
    if let Some(index) = previous_index(model.playback_queue_cursor) {
        if index < model.playback_queue.len() {
            return play_index(model, index);
        }
    }
    if model.playback_queue.len() == 0 {
        no_actions()
    } else {
        one_action(Action::PlayerPrev)
    }
}

/// Queue `tracks` and start at `index`.
pub fn play_from(model: &mut Model, tracks: Vec<TrackItem>, index: usize) -> (actions: Vec<Action>)
    ensures
        (final(model)@, views(actions@)) == played_from(
            old(model)@,
            views(tracks@),
            index as int,
        ),
{
    if index >= tracks.len() {
        return no_actions();
    }
    let queue = ids_of(&tracks);
    model.now_playing_track = Some(tracks[index].id.clone());
    model.playback_queue = tracks;
    model.playback_queue_cursor = Some(index);
    model.shuffle = false;
    model.shuffle_order = None;
    let mut actions = stage_expected_track(model);
    push_action(&mut actions, Action::PlayerLoad { queue, index });
    actions
}

/// Toggle between play and pause based on the current playback state.
pub fn toggle_play_pause(model: &Model) -> (actions: Vec<Action>)
    ensures
        views(actions@) == toggled(model@),
{
    match model.now_playing.state {
        PlaybackState::Playing => one_action(Action::PlayerPause),
        PlaybackState::Paused => one_action(Action::PlayerPlay),
        PlaybackState::Loading | PlaybackState::Stopped => no_actions(),
    }
}

/// Translate a relative seek into an absolute seek action, clamped to `[0, dur]`.
pub fn seek_relative(model: &Model, delta: i32) -> (actions: Vec<Action>)
    ensures
        views(actions@) == sought(model@, delta as int),
{
    let duration: u32 = model.now_playing.duration_ms;
    if duration == 0 {
        return no_actions();
    }
    let target: i64 = model.now_playing.position_ms as i64 + delta as i64;
    let clamped: i64 = if target < 0 {
        0
    } else if target > duration as i64 {
        duration as i64
    } else {
        target
    };
    one_action(Action::PlayerSeek(clamped as u32))
}

/// Translate a relative volume change into an absolute set, clamped to `0..=100`.
pub fn volume_delta(model: &mut Model, delta: i16, now: Moment) -> (actions: Vec<Action>)
    ensures
        (final(model)@, views(actions@)) == volume_changed(old(model)@, delta as int, now),
{
    let target: i32 = model.now_playing.volume as i32 + delta as i32;
    let clamped: i32 = if target < 0 {
        0
    } else if target > 100 {
        100
    } else {
        target
    };
    let volume: u16 = clamped as u16;
    model.now_playing.volume = volume;
    model.volume_overlay_until = Some(now.plus_millis(VOLUME_OVERLAY_MS));
    one_action(Action::PlayerSetVolume(volume))
}

/// Whether `track` is the expected track.
fn is_current_track(model: &Model, track: &TrackId) -> (yes: bool)
    ensures
        yes == is_expected(model@, track@),
{
    names_track(&model.now_playing_track, track)
}

/// Whether an event of `track` is current.
fn accept_track_event(model: &Model, track: &TrackId) -> (yes: bool)
    ensures
        yes == accepts(model@, track@),
{
    model.now_playing_track.is_none() || is_current_track(model, track)
}

/// Clear now-playing metadata after playback stops at queue end or by command.
fn apply_stopped(model: &mut Model)
    ensures
        final(model)@ == stopped(old(model)@),
{
    let volume: u16 = model.now_playing.volume;
    let mut snapshot = PlaybackSnapshot::default();
    snapshot.volume = volume;
    model.now_playing = snapshot;
    model.now_playing_track = None;
    model.now_playing_metadata_track = None;
    model.playback_queue_cursor = None;
    model.playback_health = PlaybackHealth::Healthy;
}

/// Skip a track that cannot be played, or stop where the skip would come back
/// to the same entry.
fn skip_dead_track(model: &mut Model, health: PlaybackHealth, status: Option<String>) -> (actions:
    Vec<Action>)
    ensures
        (final(model)@, views(actions@)) == skipped_dead(old(model)@, health, view_of(status)),
{
    let returns_here: bool = match (model.playback_queue_cursor, next_queue_entry(model, true)) {
        (Some(at), Some(index)) => at == index,
        _ => false,
    };
    if returns_here {
        model.playback_health = PlaybackHealth::Healthy;
        model.now_playing.state = PlaybackState::Stopped;
        model.set_error("no playable tracks here — stopped".to_owned());
        return one_action(Action::PlayerStop);
    }
    model.playback_health = health;
    model.status = status;
    advance(model, true)
}

/// React to a track the streaming engine could not play.
///
/// librespot reports a track it cannot load (usually region-restricted or
/// relinked) as unavailable — it does not mean Premium is missing. An isolated
/// failure is skipped, but [`RECONNECT_AFTER_FAILURES`] in a row means the
/// session is dead (a broken pipe drops the audio-key channel, so every track
/// fails), so reconnect once instead of skipping through the entire queue.
pub fn track_unavailable(model: &mut Model) -> (actions: Vec<Action>)
    ensures
        (final(model)@, views(actions@)) == unavailable(old(model)@),
{
    match model.playback_health {
        PlaybackHealth::Healthy => skip_dead_track(
            model,
            PlaybackHealth::Skipping(1),
            Some("track unavailable here — skipping".to_owned()),
        ),
        PlaybackHealth::Skipping(count) => {
            if count >= RECONNECT_AFTER_FAILURES - 1 {
                model.playback_health = PlaybackHealth::Reconnecting(0);
                model.set_error("streaming connection lost — reconnecting".to_owned());
                one_action(Action::PlayerReconnect)
            } else {
                skip_dead_track(
                    model,
                    PlaybackHealth::Skipping(count + 1),
                    Some("track unavailable here — skipping".to_owned()),
                )
            }
        },
        // After a reconnect, a few more failures means the tracks themselves are
        // unplayable (not the session): skip a bounded number, then stop rather
        // than skip-storming the rest of the queue.
        PlaybackHealth::Reconnecting(count) => {
            if count >= RECONNECT_AFTER_FAILURES - 1 {
                model.playback_health = PlaybackHealth::Healthy;
                model.now_playing.state = PlaybackState::Stopped;
                model.set_error("no playable tracks here — stopped".to_owned());
                no_actions()
            } else {
                let status = clone_text(&model.status);
                skip_dead_track(model, PlaybackHealth::Reconnecting(count + 1), status)
            }
        },
    }
}

/// React to the streaming session dropping: reconnect once, marking stopped.
fn session_disconnected(model: &mut Model) -> (actions: Vec<Action>)
    ensures
        (final(model)@, views(actions@)) == disconnected(old(model)@),
{
    model.now_playing.state = PlaybackState::Stopped;
    match model.playback_health {
        PlaybackHealth::Reconnecting(_) => {
            // A reconnect is already in flight; don't stack another.
            model.set_error("streaming session disconnected".to_owned());
            no_actions()
        },
        _ => {
            model.playback_health = PlaybackHealth::Reconnecting(0);
            model.set_error("streaming session lost — reconnecting".to_owned());
            one_action(Action::PlayerReconnect)
        },
    }
}

/// Publish the current snapshot.
fn publish(model: &Model) -> (actions: Vec<Action>)
    ensures
        (model@, views(actions@)) == published(model@),
{
    one_action(Action::PublishNowPlaying(model.now_playing.clone()))
}

/// Record that the track plays or pauses at `position_ms`.
fn report_transport(
    model: &mut Model,
    track: &TrackId,
    position_ms: u32,
    state: PlaybackState,
    health: PlaybackHealth,
) -> (actions: Vec<Action>)
    ensures
        (final(model)@, views(actions@)) == transport_reported(
            old(model)@,
            track@,
            position_ms,
            state,
            health,
        ),
{
    let changed = !names_track(&model.now_playing_metadata_track, track);
    if changed {
        sync_now_playing_track(model, track);
    }
    model.now_playing.state = state;
    model.now_playing.position_ms = position_ms;
    model.playback_health = health;
    if changed {
        track_identity_actions(model, track)
    } else {
        publish(model)
    }
}

/// What to preload while the current track plays.
fn preload_next(model: &Model) -> (actions: Vec<Action>)
    ensures
        views(actions@) == preloaded(model@),
{
    match (model.playback_queue_cursor, next_queue_entry(model, false)) {
        (Some(at), Some(index)) => if index != at {
            one_action(Action::PlayerPreload(model.playback_queue[index].id.clone()))
        } else {
            no_actions()
        },
        _ => no_actions(),
    }
}

/// Fold a streaming event into the now-playing snapshot.
pub fn playback_event(model: &mut Model, event: PlaybackEvent) -> (actions: Vec<Action>)
    ensures
        (final(model)@, views(actions@)) == engine_reported(old(model)@, event),
{
    match event {
        PlaybackEvent::Loading { track } => {
            if !accept_track_event(model, &track) {
                return no_actions();
            }
            let changed = !names_track(&model.now_playing_metadata_track, &track);
            apply_loading(model, &track);
            if changed {
                track_identity_actions(model, &track)
            } else {
                publish(model)
            }
        },
        PlaybackEvent::Playing { track, position_ms } => {
            if !accept_track_event(model, &track) {
                return no_actions();
            }
            // A successful play clears any in-progress skip/reconnect streak.
            report_transport(
                model,
                &track,
                position_ms,
                PlaybackState::Playing,
                PlaybackHealth::Healthy,
            )
        },
        PlaybackEvent::Paused { track, position_ms } => {
            if !accept_track_event(model, &track) {
                return no_actions();
            }
            let health = model.playback_health;
            report_transport(model, &track, position_ms, PlaybackState::Paused, health)
        },
        PlaybackEvent::PositionUpdate { position_ms } => {
            if model.now_playing.state == PlaybackState::Loading {
                return no_actions();
            }
            model.now_playing.position_ms = position_ms;
            publish(model)
        },
        PlaybackEvent::VolumeChanged { volume } => {
            model.now_playing.volume = volume;
            publish(model)
        },
        PlaybackEvent::Stopped { track } => {
            if track.0.as_str().is_empty() || is_current_track(model, &track) {
                apply_stopped(model);
                publish(model)
            } else {
                no_actions()
            }
        },
        PlaybackEvent::PreloadNext { track } => {
            if is_current_track(model, &track) {
                preload_next(model)
            } else {
                no_actions()
            }
        },
        PlaybackEvent::EndOfTrack { track } => {
            if is_current_track(model, &track) {
                advance(model, false)
            } else {
                no_actions()
            }
        },
        PlaybackEvent::Unavailable { track } => {
            if is_current_track(model, &track) {
                track_unavailable(model)
            } else {
                no_actions()
            }
        },
        PlaybackEvent::SessionDisconnected => session_disconnected(model),
    }
}

} // verus!
