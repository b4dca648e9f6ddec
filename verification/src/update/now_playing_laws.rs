//! Laws of what is playing: how the snapshot describes a track, and what each
//! report of the engine changes.

use vstd::prelude::*;
use crate::clock::Moment;
use crate::message::{ActionView, Message};
use crate::model::{
    first_with_id, lemma_first_with_id, PlaybackState, SnapshotView, TrackView,
};
use crate::player::PlaybackEvent;
use crate::state::{ModelView, PlaybackHealth, RepeatMode, Screen};
use crate::update::browse_laws::plays_from;
use crate::update::playback::{announced, described, metadata_of, on_track, shown_tracks};
use crate::update::transport_laws::{first_entry, only_playback_moved, shows_track};
use crate::update::{stepped, Step};

verus! {

/// Whether no track of `tracks` has the id `id`.
pub open spec fn lacks(tracks: Seq<TrackView>, id: Seq<char>) -> bool {
    forall|k: int| 0 <= k < tracks.len() ==> (#[trigger] tracks[k]).id != id
}

/// Whether `track` is what a model knows of the track `id`: the first entry of
/// the queue with that id; where the queue has none, the first such row of the
/// track list on screen, then of the track list, then of the search results.
pub open spec fn knows(m: ModelView, id: Seq<char>, track: TrackView) -> bool {
    ||| exists|k: int| #[trigger] first_entry(m.queue, id, k) && track == m.queue[k]
    ||| {
        &&& lacks(m.queue, id)
        &&& exists|tracks: Seq<TrackView>, k: int| #[trigger]
            plays_from(m, tracks) && #[trigger] first_entry(tracks, id, k) && track == tracks[k]
    }
    ||| {
        &&& lacks(m.queue, id)
        &&& forall|tracks: Seq<TrackView>| #[trigger] plays_from(m, tracks) ==> lacks(tracks, id)
        &&& exists|k: int| #[trigger] first_entry(m.tracks, id, k) && track == m.tracks[k]
    }
    ||| {
        &&& lacks(m.queue, id)
        &&& forall|tracks: Seq<TrackView>| #[trigger] plays_from(m, tracks) ==> lacks(tracks, id)
        &&& lacks(m.tracks, id)
        &&& exists|k: int| #[trigger]
            first_entry(m.search_results.tracks, id, k) && track == m.search_results.tracks[k]
    }
}

/// Whether a model knows nothing of the track `id`.
pub open spec fn unknown(m: ModelView, id: Seq<char>) -> bool {
    &&& lacks(m.queue, id)
    &&& lacks(m.tracks, id)
    &&& lacks(m.search_results.tracks, id)
}

/// Whether a snapshot describes the track `id`: by what the model knows of it,
/// or by nothing where it knows nothing.
pub open spec fn describes(m: ModelView, id: Seq<char>, np: SnapshotView) -> bool {
    &&& forall|track: TrackView| #[trigger] knows(m, id, track) ==> shows_track(np, track)
    &&& unknown(m, id) ==> np.track is None && np.artist is None && np.duration_ms == 0
    &&& unknown(m, id) || exists|track: TrackView| #[trigger] knows(m, id, track)
}

/// The screen shows at most one list of tracks.
proof fn lemma_shown(m: ModelView)
    ensures
        forall|tracks: Seq<TrackView>| #[trigger]
            plays_from(m, tracks) ==> tracks == shown_tracks(m),
        plays_from(m, shown_tracks(m)) || shown_tracks(m).len() == 0 || m.screen == Screen::Queue,
        m.screen == Screen::Queue ==> shown_tracks(m) == m.queue,
{
}

/// A track that carries the id is found, by the first that does.
proof fn lemma_lookup(tracks: Seq<TrackView>, id: Seq<char>) -> (k: int)
    ensures
        lacks(tracks, id) == (first_with_id(tracks, id) is None),
        first_with_id(tracks, id) is Some ==> first_entry(tracks, id, k) && first_with_id(
            tracks,
            id,
        ) == Some(k),
        forall|j: int| #[trigger] first_entry(tracks, id, j) ==> j == k && !lacks(tracks, id),
{
    lemma_first_with_id(tracks, id);
    match first_with_id(tracks, id) {
        Some(k) => {
            assert(tracks[k].id == id);
            k
        },
        None => 0,
    }
}

/// What is looked up of a track is what the model knows of it.
pub proof fn lemma_metadata(m: ModelView, id: Seq<char>)
    ensures
        match metadata_of(m, id) {
            Some(found) => knows(m, id, found) && (forall|track: TrackView| #[trigger]
                knows(m, id, track) ==> track == found) && !unknown(m, id),
            None => unknown(m, id) && (forall|track: TrackView| !#[trigger] knows(m, id, track)),
        },
{
    lemma_shown(m);
    let shown = shown_tracks(m);
    let a = lemma_lookup(m.queue, id);
    let b = lemma_lookup(shown, id);
    let c = lemma_lookup(m.tracks, id);
    let d = lemma_lookup(m.search_results.tracks, id);
}

/// Whether the cursor is on an entry of the queue with the id `id`.
pub open spec fn on_entry(m: ModelView, id: Seq<char>) -> bool {
    m.cursor is Some && m.cursor->0 < m.queue.len() && m.queue[m.cursor->0 as int].id == id
}

/// Whether the cursor has come to the track `id`: it stays on an entry of that
/// track, else goes to the first one, and stays where the queue has none.
pub open spec fn cursor_follows(before: ModelView, after: ModelView, id: Seq<char>) -> bool {
    &&& on_entry(before, id) ==> after.cursor == before.cursor
    &&& !on_entry(before, id) ==> forall|k: int| #[trigger]
        first_entry(before.queue, id, k) ==> after.cursor == Some(k as usize)
    &&& !on_entry(before, id) && lacks(before.queue, id) ==> after.cursor == before.cursor
}

/// Whether the selection has come to the track `id` where the screen lists it:
/// to the entry under the cursor on Queue, to the first row of that track on a
/// list of tracks. It stays where the screen does not list the track.
pub open spec fn selection_follows(before: ModelView, after: ModelView, id: Seq<char>) -> bool {
    let shows = forall|tracks: Seq<TrackView>| #[trigger] plays_from(before, tracks) ==> lacks(
        tracks,
        id,
    );
    &&& before.screen == Screen::Queue && on_entry(after, id) ==> after.list.selected
        == after.cursor && after.list.offset == before.list.offset
    &&& before.screen == Screen::Queue && !on_entry(after, id) ==> after.list == before.list
    &&& forall|tracks: Seq<TrackView>, k: int| #[trigger]
        plays_from(before, tracks) && #[trigger] first_entry(tracks, id, k) ==> after.list.selected
            == Some(k as usize) && after.list.offset == before.list.offset
    &&& before.screen != Screen::Queue && shows ==> after.list == before.list
}

/// Whether playback has come onto the track `id`: it is expected and described,
/// cursor and selection have come along, and nothing else has changed but the
/// health of the session.
#[verifier::opaque]
pub open spec fn comes_onto(before: ModelView, after: ModelView, id: Seq<char>) -> bool {
    &&& only_playback_moved(ModelView { health: after.health, ..before }, after)
    &&& after.queue == before.queue
    &&& after.shuffle == before.shuffle
    &&& after.shuffle_order == before.shuffle_order
    &&& after.now_playing_track == Some(id)
    &&& after.now_playing_metadata_track == Some(id)
    &&& after.now_playing.volume == before.now_playing.volume
    &&& describes(before, id, after.now_playing)
    &&& cursor_follows(before, after, id)
    &&& selection_follows(before, after, id)
}

/// Whether `asked` announces the track `id`: the covers of what the model knows
/// of it, and the snapshot `np`.
pub open spec fn announces(
    m: ModelView,
    id: Seq<char>,
    np: SnapshotView,
    asked: Seq<ActionView>,
) -> bool {
    &&& asked.len() == 2
    &&& asked[0] is LoadAlbumArt
    &&& forall|track: TrackView| #[trigger]
        knows(m, id, track) ==> asked[0]->LoadAlbumArt_0 == track.album_art_images
    &&& unknown(m, id) ==> asked[0]->LoadAlbumArt_0.len() == 0
    &&& asked[1] == ActionView::PublishNowPlaying(np)
}

/// Two models with the same lists know the same of every track.
proof fn lemma_same_knowledge(a: ModelView, b: ModelView, id: Seq<char>)
    requires
        a.queue == b.queue,
        a.tracks == b.tracks,
        a.search_results == b.search_results,
        a.screen == b.screen,
        a.library_tab == b.library_tab,
        a.search_tab == b.search_tab,
    ensures
        metadata_of(a, id) == metadata_of(b, id),
{
}

/// Making a track the playing one comes onto it.
proof fn lemma_on_track(m: ModelView, id: Seq<char>)
    requires
        m.queue.len() <= usize::MAX,
    ensures
        comes_onto(m, on_track(m, id), id),
        on_track(m, id).now_playing.state == m.now_playing.state,
        on_track(m, id).now_playing.position_ms == m.now_playing.position_ms,
        on_track(m, id).health == m.health,
{
    reveal(comes_onto);
    let after = on_track(m, id);
    let q = lemma_lookup(m.queue, id);
    let s = lemma_lookup(shown_tracks(m), id);
    lemma_shown(m);
    lemma_metadata(m, id);
    lemma_same_knowledge(m, after, id);
    let placed = ModelView { now_playing: m.now_playing, ..after };
    lemma_same_knowledge(m, placed, id);
    assert(after.now_playing == described(m.now_playing, metadata_of(placed, id)));
}

/// Whether a model comes onto a track depends on neither the state and position
/// that are shown nor the health of the session.
proof fn lemma_onto(
    before: ModelView,
    after: ModelView,
    other_before: ModelView,
    other_after: ModelView,
    id: Seq<char>,
)
    requires
        comes_onto(before, after, id),
        other_before == (ModelView { now_playing: other_before.now_playing, ..before }),
        other_before.now_playing.volume == before.now_playing.volume,
        other_after == (ModelView {
            now_playing: SnapshotView {
                state: other_after.now_playing.state,
                position_ms: other_after.now_playing.position_ms,
                ..after.now_playing
            },
            health: other_after.health,
            ..after
        }),
    ensures
        comes_onto(other_before, other_after, id),
{
    reveal(comes_onto);
    lemma_metadata(before, id);
    lemma_metadata(other_before, id);
    lemma_same_knowledge(before, other_before, id);
    lemma_shown(before);
    assert(forall|tracks: Seq<TrackView>| #[trigger]
        plays_from(before, tracks) == plays_from(other_before, tracks));
    let shown = shown_tracks(before);
    assert(plays_from(before, shown) == plays_from(other_before, shown));
}

/// A track that starts to load is come onto, from its start: it shows as
/// loading, and is announced where it was not the one shown before.
pub proof fn a_loading_track_shows(m: ModelView, event: PlaybackEvent, now: Moment)
    requires
        m.queue.len() <= usize::MAX,
        event is Loading,
        m.now_playing_track is None || m.now_playing_track == Some(event->Loading_track@),
    ensures
        ({
            let id = event->Loading_track@;
            let (after, asked) = stepped(m, Message::PlaybackEvent(event), now);
            &&& comes_onto(m, after, id)
            &&& after.now_playing.state == PlaybackState::Loading
            &&& after.now_playing.position_ms == 0
            &&& after.health == m.health
            &&& m.now_playing_metadata_track != Some(id) ==> announces(
                m,
                id,
                after.now_playing,
                asked,
            )
            &&& m.now_playing_metadata_track == Some(id) ==> asked == seq![
                ActionView::PublishNowPlaying(after.now_playing),
            ]
        }),
{
    let id = event->Loading_track@;
    let fresh = ModelView {
        now_playing: SnapshotView {
            state: PlaybackState::Loading,
            position_ms: 0,
            ..m.now_playing
        },
        ..m
    };
    lemma_on_track(fresh, id);
    let after = on_track(fresh, id);
    lemma_onto(fresh, after, m, after, id);
    lemma_announced(m, after, id);
}

/// What is announced of a track is what the model knows of it.
proof fn lemma_announced(m: ModelView, after: ModelView, id: Seq<char>)
    requires
        after.queue == m.queue,
        after.tracks == m.tracks,
        after.search_results == m.search_results,
        after.screen == m.screen,
        after.library_tab == m.library_tab,
        after.search_tab == m.search_tab,
    ensures
        announces(m, id, after.now_playing, announced(after, id)),
{
    lemma_metadata(m, id);
    lemma_same_knowledge(m, after, id);
}

/// The step of a report that a track plays or pauses: the state and the position
/// are the reported ones. A track that was not shown yet is come onto and
/// announced; one that was is only published.
pub open spec fn shows_transport(
    m: ModelView,
    step: Step,
    id: Seq<char>,
    position_ms: u32,
    state: PlaybackState,
) -> bool {
    let (after, asked) = step;
    &&& after.now_playing.state == state
    &&& after.now_playing.position_ms == position_ms
    &&& m.now_playing_metadata_track != Some(id) ==> comes_onto(m, after, id) && announces(
        m,
        id,
        after.now_playing,
        asked,
    )
    &&& m.now_playing_metadata_track == Some(id) ==> asked == seq![
        ActionView::PublishNowPlaying(after.now_playing),
    ] && after == ModelView {
        now_playing: SnapshotView { state, position_ms, ..m.now_playing },
        health: after.health,
        ..m
    }
}

/// A track that plays shows as playing at the reported position, and the session
/// is healthy again.
pub proof fn a_playing_track_shows(m: ModelView, event: PlaybackEvent, now: Moment)
    requires
        m.queue.len() <= usize::MAX,
        event is Playing,
        m.now_playing_track is None || m.now_playing_track == Some(event->Playing_track@),
    ensures
        ({
            let step = stepped(m, Message::PlaybackEvent(event), now);
            &&& shows_transport(
                m,
                step,
                event->Playing_track@,
                event->Playing_position_ms,
                PlaybackState::Playing,
            )
            &&& step.0.health == PlaybackHealth::Healthy
        }),
{
    let id = event->Playing_track@;
    let after = stepped(m, Message::PlaybackEvent(event), now).0;
    if m.now_playing_metadata_track != Some(id) {
        lemma_on_track(m, id);
        lemma_onto(m, on_track(m, id), m, after, id);
        lemma_announced(m, after, id);
    }
}

/// A track that pauses shows as paused at the reported position; the health of
/// the session is what it was.
pub proof fn a_paused_track_shows(m: ModelView, event: PlaybackEvent, now: Moment)
    requires
        m.queue.len() <= usize::MAX,
        event is Paused,
        m.now_playing_track is None || m.now_playing_track == Some(event->Paused_track@),
    ensures
        ({
            let step = stepped(m, Message::PlaybackEvent(event), now);
            &&& shows_transport(
                m,
                step,
                event->Paused_track@,
                event->Paused_position_ms,
                PlaybackState::Paused,
            )
            &&& step.0.health == m.health
        }),
{
    let id = event->Paused_track@;
    let after = stepped(m, Message::PlaybackEvent(event), now).0;
    if m.now_playing_metadata_track != Some(id) {
        lemma_on_track(m, id);
        lemma_onto(m, on_track(m, id), m, after, id);
        lemma_announced(m, after, id);
    }
}

/// After a step that makes a track of the queue the playing one, the snapshot
/// carries the title, the artist and the duration of an entry of the queue with
/// that id.
pub proof fn a_queued_track_is_described_by_its_entry(
    before: ModelView,
    after: ModelView,
    id: Seq<char>,
    at: int,
)
    requires
        comes_onto(before, after, id),
        0 <= at < before.queue.len(),
        before.queue[at].id == id,
    ensures
        exists|k: int|
            0 <= k <= at && (#[trigger] before.queue[k]).id == id && after.now_playing.track == Some(
                before.queue[k].title,
            ) && after.now_playing.artist == Some(before.queue[k].artist)
                && after.now_playing.duration_ms == before.queue[k].duration_ms,
{
    reveal(comes_onto);
    let k = lemma_lookup(before.queue, id);
    assert(first_entry(before.queue, id, k)) by {
        if lacks(before.queue, id) {
            assert(before.queue[at].id != id);
        }
    }
    assert(knows(before, id, before.queue[k]));
    assert(before.queue[k].id == id);
}

/// A reported position is the position from then on, and a reported volume the
/// volume; both are published, and nothing else changes.
pub proof fn reports_of_position_and_volume_show(
    m: ModelView,
    position_ms: u32,
    volume: u16,
    now: Moment,
)
    ensures
        ({
            let at = PlaybackEvent::PositionUpdate { position_ms };
            let (moved, a) = stepped(m, Message::PlaybackEvent(at), now);
            let loud = PlaybackEvent::VolumeChanged { volume };
            let (turned, b) = stepped(m, Message::PlaybackEvent(loud), now);
            &&& m.now_playing.state != PlaybackState::Loading ==> moved == ModelView {
                now_playing: SnapshotView { position_ms, ..m.now_playing },
                ..m
            } && a == seq![ActionView::PublishNowPlaying(moved.now_playing)]
            &&& turned == ModelView {
                now_playing: SnapshotView { volume, ..m.now_playing },
                ..m
            } && b == seq![ActionView::PublishNowPlaying(turned.now_playing)]
        }),
{
}

/// A stop of the playing track, or of whatever plays, leaves nothing playing:
/// no track, no entry, no position; the volume stays, the queue stays, and the
/// empty snapshot is published.
pub proof fn a_stop_shows_nothing(m: ModelView, event: PlaybackEvent, now: Moment)
    requires
        event is Stopped,
        event->Stopped_track@.len() == 0 || m.now_playing_track == Some(event->Stopped_track@),
    ensures
        ({
            let (after, asked) = stepped(m, Message::PlaybackEvent(event), now);
            let np = after.now_playing;
            &&& after == ModelView {
                now_playing: np,
                now_playing_track: None,
                now_playing_metadata_track: None,
                cursor: None,
                health: PlaybackHealth::Healthy,
                ..m
            }
            &&& np.track is None && np.artist is None && np.state == PlaybackState::Stopped
            &&& np.position_ms == 0 && np.duration_ms == 0 && np.volume == m.now_playing.volume
            &&& asked == seq![ActionView::PublishNowPlaying(np)]
        }),
{
}

/// A dropped session shows as stopped, keeps track and queue for the resumption,
/// and asks for a reconnect exactly where none is under way.
pub proof fn a_dropped_session_is_rebuilt_once(m: ModelView, now: Moment)
    ensures
        ({
            let dropped = Message::PlaybackEvent(PlaybackEvent::SessionDisconnected);
            let (after, asked) = stepped(m, dropped, now);
            &&& after == ModelView {
                now_playing: SnapshotView { state: PlaybackState::Stopped, ..m.now_playing },
                health: after.health,
                status: after.status,
                ..m
            }
            &&& after.status is Some
            &&& m.health is Reconnecting ==> asked.len() == 0 && after.health == m.health
            &&& !(m.health is Reconnecting) ==> asked == seq![ActionView::PlayerReconnect]
                && after.health == PlaybackHealth::Reconnecting(0)
        }),
{
}

/// A track that cannot be played is skipped as the skip key would, with the
/// failure counted and named, as long as the failures in a row are few and the
/// skip leads to another entry.
pub proof fn an_unavailable_track_is_skipped(m: ModelView, event: PlaybackEvent, now: Moment)
    requires
        event is Unavailable,
        m.now_playing_track == Some(event->Unavailable_track@),
        m.cursor is Some,
        1 < m.queue.len() <= usize::MAX,
        m.cursor->0 < m.queue.len(),
    ensures
        ({
            let step = stepped(m, Message::PlaybackEvent(event), now);
            let skip = |health: PlaybackHealth, status: Option<Seq<char>>|
                stepped(ModelView { health, status, ..m }, Message::NextTrack, now);
            &&& m.health == PlaybackHealth::Healthy ==> step == skip(
                PlaybackHealth::Skipping(1),
                Some("track unavailable here — skipping"@),
            )
            &&& m.health == PlaybackHealth::Skipping(1) ==> step == (
                ModelView {
                    health: PlaybackHealth::Reconnecting(0),
                    status: Some("streaming connection lost — reconnecting"@),
                    ..m
                },
                seq![ActionView::PlayerReconnect],
            )
            &&& m.health == PlaybackHealth::Reconnecting(0) ==> step == skip(
                PlaybackHealth::Reconnecting(1),
                m.status,
            )
            &&& m.health == PlaybackHealth::Reconnecting(1) ==> step == (
                ModelView {
                    health: PlaybackHealth::Healthy,
                    now_playing: SnapshotView { state: PlaybackState::Stopped, ..m.now_playing },
                    status: Some("no playable tracks here — stopped"@),
                    ..m
                },
                Seq::<ActionView>::empty(),
            )
        }),
{
}

/// Where the skip would come back to the same entry, playback stops instead of
/// trying it forever.
pub proof fn a_lone_unavailable_track_stops(m: ModelView, event: PlaybackEvent, now: Moment)
    requires
        event is Unavailable,
        m.now_playing_track == Some(event->Unavailable_track@),
        m.cursor == Some(0usize),
        m.queue.len() == 1,
        m.repeat == RepeatMode::All,
        m.health == PlaybackHealth::Healthy,
    ensures
        ({
            let (after, asked) = stepped(m, Message::PlaybackEvent(event), now);
            &&& asked == seq![ActionView::PlayerStop]
            &&& after == ModelView {
                now_playing: SnapshotView { state: PlaybackState::Stopped, ..m.now_playing },
                status: Some("no playable tracks here — stopped"@),
                ..m
            }
        }),
{
}

} // verus!
