//! Laws of transport: where a seek leads, what the volume becomes, and which
//! entry of the queue plays next.

use vstd::prelude::*;
use crate::clock::Moment;
use crate::message::{ActionView, Message};
use crate::model::{
    first_with_id, lemma_first_with_id, track_ids, PlaybackState, SnapshotView, TrackView,
};
use crate::player::PlaybackEvent;
use crate::state::{found, ModelView, RepeatMode};
use crate::update::playback::{jumped, played_from};
use crate::update::{stepped, Step};

verus! {

/// Whether a snapshot names `track`: its title, its artist and its duration.
pub open spec fn shows_track(np: SnapshotView, track: TrackView) -> bool {
    &&& np.track == Some(track.title)
    &&& np.artist == Some(track.artist)
    &&& np.duration_ms == track.duration_ms
}

/// Whether entry `k` is the first one of `tracks` with the id `id`.
pub open spec fn first_entry(tracks: Seq<TrackView>, id: Seq<char>, k: int) -> bool {
    &&& 0 <= k < tracks.len()
    &&& tracks[k].id == id
    &&& forall|j: int| 0 <= j < k ==> (#[trigger] tracks[j]).id != id
}

/// Whether `after` is `before` but for what playback is on: the queue with its
/// cursor and order, the snapshot, the expected track, and the selection that
/// follows it.
pub open spec fn only_playback_moved(before: ModelView, after: ModelView) -> bool {
    after == ModelView {
        queue: after.queue,
        cursor: after.cursor,
        shuffle: after.shuffle,
        shuffle_order: after.shuffle_order,
        list: after.list,
        now_playing: after.now_playing,
        now_playing_track: after.now_playing_track,
        now_playing_metadata_track: after.now_playing_metadata_track,
        ..before
    }
}

/// Whether a step puts playback on entry `i` of the queue: the entry is under
/// the cursor and expected, it shows as loading from its start, the snapshot and
/// the art are those of its track, and the last request is `told`.
pub open spec fn starts_entry(before: ModelView, step: Step, i: int, told: ActionView) -> bool {
    let after = step.0;
    let id = after.queue[i].id;
    &&& only_playback_moved(before, after)
    &&& 0 <= i < after.queue.len()
    &&& after.cursor == Some(i as usize)
    &&& after.now_playing_track == Some(id)
    &&& after.now_playing_metadata_track == Some(id)
    &&& after.now_playing.state == PlaybackState::Loading
    &&& after.now_playing.position_ms == 0
    &&& after.now_playing.volume == before.now_playing.volume
    &&& step.1.len() == 3
    &&& exists|k: int| #[trigger]
        first_entry(after.queue, id, k) && shows_track(after.now_playing, after.queue[k])
            && step.1[0] == ActionView::LoadAlbumArt(after.queue[k].album_art_images)
    &&& step.1[1] == ActionView::PublishNowPlaying(after.now_playing)
    &&& step.1[2] == told
}

/// A relative seek asks for exactly the position `delta` away, as long as that
/// lies within the track, and for the nearer end of the track otherwise. It
/// leaves the model alone, and asks for nothing where no track is loaded.
pub proof fn a_seek_moves_by_its_delta(m: ModelView, delta: i32, now: Moment)
    ensures
        ({
            let (after, asked) = stepped(m, Message::SeekRelative(delta), now);
            let target = m.now_playing.position_ms + delta;
            let duration = m.now_playing.duration_ms;
            &&& after == m
            &&& duration == 0 ==> asked.len() == 0
            &&& duration > 0 ==> asked.len() == 1
            &&& 0 < duration && 0 <= target <= duration ==> asked[0] == ActionView::PlayerSeek(
                target,
            )
            &&& 0 < duration && target < 0 ==> asked[0] == ActionView::PlayerSeek(0)
            &&& 0 < duration < target ==> asked[0] == ActionView::PlayerSeek(duration as int)
        }),
{
}

/// A larger step never leads to an earlier position, nor does a later position
/// lead to an earlier target; a step of nothing stays where playback is.
pub proof fn seeks_keep_their_order(
    m: ModelView,
    small: i32,
    large: i32,
    later_ms: u32,
    now: Moment,
)
    requires
        small <= large,
        m.now_playing.position_ms <= later_ms,
        0 < m.now_playing.duration_ms,
    ensures
        ({
            let later = ModelView {
                now_playing: SnapshotView { position_ms: later_ms, ..m.now_playing },
                ..m
            };
            let from = stepped(m, Message::SeekRelative(small), now).1[0]->PlayerSeek_0;
            let further = stepped(m, Message::SeekRelative(large), now).1[0]->PlayerSeek_0;
            let after = stepped(later, Message::SeekRelative(small), now).1[0]->PlayerSeek_0;
            let still = stepped(m, Message::SeekRelative(0), now).1[0]->PlayerSeek_0;
            &&& from <= further
            &&& from <= after
            &&& m.now_playing.position_ms <= m.now_playing.duration_ms ==> still
                == m.now_playing.position_ms
        }),
{
}

/// Seeking forward and then, once the player is there, back by the same step
/// comes back to where playback was, as long as neither end of the track was
/// hit.
pub proof fn seeking_back_undoes_seeking_forward(m: ModelView, delta: i32, now: Moment)
    requires
        0 < m.now_playing.duration_ms,
        0 <= m.now_playing.position_ms <= m.now_playing.duration_ms,
        0 <= m.now_playing.position_ms + delta <= m.now_playing.duration_ms,
        delta > i32::MIN,
        m.now_playing.state != PlaybackState::Loading,
    ensures
        ({
            let target = stepped(m, Message::SeekRelative(delta), now).1[0]->PlayerSeek_0;
            let position_ms = target as u32;
            let report = PlaybackEvent::PositionUpdate { position_ms };
            let there = stepped(m, Message::PlaybackEvent(report), now).0;
            stepped(there, Message::SeekRelative((-delta) as i32), now).1 == seq![
                ActionView::PlayerSeek(m.now_playing.position_ms as int),
            ]
        }),
{
}

/// A volume change moves the volume by exactly its delta, held to 0 and 100,
/// tells the player the new volume, and shows the popup for 1.2 seconds;
/// nothing else changes.
pub proof fn a_volume_change_moves_by_its_delta(m: ModelView, delta: i16, now: Moment)
    ensures
        ({
            let (after, asked) = stepped(m, Message::VolumeDelta(delta), now);
            let target = m.now_playing.volume + delta;
            let volume = after.now_playing.volume;
            &&& 0 <= target <= 100 ==> volume == target
            &&& target < 0 ==> volume == 0
            &&& 100 < target ==> volume == 100
            &&& asked == seq![ActionView::PlayerSetVolume(volume as int)]
            &&& after.volume_overlay_until is Some
            &&& now.nanos + 1_200_000_000 <= i64::MAX ==> after.volume_overlay_until->0.nanos
                == now.nanos + 1_200_000_000
            &&& after == ModelView {
                now_playing: SnapshotView { volume, ..m.now_playing },
                volume_overlay_until: after.volume_overlay_until,
                ..m
            }
        }),
{
    let asked = stepped(m, Message::VolumeDelta(delta), now).1;
    let volume = stepped(m, Message::VolumeDelta(delta), now).0.now_playing.volume;
    assert(asked =~= seq![ActionView::PlayerSetVolume(volume as int)]);
}

/// Turning the volume up and down by the same step comes back to the same
/// volume, as long as neither end was hit.
pub proof fn turning_down_undoes_turning_up(m: ModelView, delta: i16, up: Moment, down: Moment)
    requires
        0 <= m.now_playing.volume + delta <= 100,
        m.now_playing.volume <= 100,
        delta > i16::MIN,
    ensures
        ({
            let louder = stepped(m, Message::VolumeDelta(delta), up).0;
            stepped(louder, Message::VolumeDelta((-delta) as i16), down).0.now_playing
                == m.now_playing
        }),
{
}

/// The popup stays until its deadline and is gone from then on.
pub proof fn the_volume_popup_goes_at_its_deadline(m: ModelView, deadline: Moment, now: Moment)
    requires
        m.volume_overlay_until == Some(deadline),
    ensures
        (stepped(m, Message::Tick, now).0.volume_overlay_until is Some) == (now.nanos
            < deadline.nanos),
        now.nanos < deadline.nanos ==> stepped(m, Message::Tick, now).0.volume_overlay_until
            == Some(deadline),
{
}

/// The toggle pauses what plays, resumes what is paused, and asks for nothing
/// while a track loads or none is there; the state changes only once the player
/// reports it.
pub proof fn the_toggle_turns_playback_over(m: ModelView, now: Moment)
    ensures
        ({
            let (after, asked) = stepped(m, Message::TogglePlayPause, now);
            &&& after == m
            &&& asked.len() <= 1
            &&& (asked.len() == 1 && asked[0] == ActionView::PlayerPause) == (m.now_playing.state
                == PlaybackState::Playing)
            &&& (asked.len() == 1 && asked[0] == ActionView::PlayerPlay) == (m.now_playing.state
                == PlaybackState::Paused)
            &&& (asked.len() == 0) == (m.now_playing.state == PlaybackState::Loading
                || m.now_playing.state == PlaybackState::Stopped)
        }),
{
}

/// The first entry with the id of entry `i`.
pub proof fn lemma_first_entry(queue: Seq<TrackView>, i: int) -> (k: int)
    requires
        0 <= i < queue.len(),
    ensures
        first_entry(queue, queue[i].id, k),
        found(queue, queue[i].id) == Some(queue[k]),
{
    lemma_first_with_id(queue, queue[i].id);
    first_with_id(queue, queue[i].id)->0
}

/// A jump puts playback on the entry and keeps the queue.
pub proof fn lemma_jump_starts(m: ModelView, i: int)
    requires
        0 <= i < m.queue.len() <= usize::MAX,
    ensures
        starts_entry(m, jumped(m, i), i, ActionView::PlayerPlayIndex(i)),
        jumped(m, i).0.queue == m.queue,
        jumped(m, i).0.shuffle == m.shuffle,
        jumped(m, i).0.shuffle_order == m.shuffle_order,
{
    let k = lemma_first_entry(m.queue, i);
    assert(first_entry(jumped(m, i).0.queue, m.queue[i].id, k));
}

/// Playing a list from `i` makes it the queue, in its own order, and puts
/// playback on that entry.
pub proof fn lemma_play_starts(m: ModelView, tracks: Seq<TrackView>, i: int)
    requires
        0 <= i < tracks.len() <= usize::MAX,
    ensures
        starts_entry(
            m,
            played_from(m, tracks, i),
            i,
            ActionView::PlayerLoad { queue: track_ids(tracks), index: i },
        ),
        played_from(m, tracks, i).0.queue == tracks,
        !played_from(m, tracks, i).0.shuffle,
        played_from(m, tracks, i).0.shuffle_order is None,
{
    let k = lemma_first_entry(tracks, i);
    assert(first_entry(played_from(m, tracks, i).0.queue, tracks[i].id, k));
}

/// Whether playback has moved onto entry `i` of the same queue, and the player
/// was told so.
pub open spec fn moves_to(m: ModelView, step: Step, i: int) -> bool {
    &&& starts_entry(m, step, i, ActionView::PlayerPlayIndex(i))
    &&& step.0.queue == m.queue
    &&& step.0.shuffle == m.shuffle
    &&& step.0.shuffle_order == m.shuffle_order
}

/// A skip plays the entry after the current one, and the first where playback is
/// on none. After the last entry it starts over with repeat-all and stops
/// otherwise; without a queue nothing happens.
pub proof fn a_skip_plays_the_next_entry(m: ModelView, now: Moment)
    requires
        m.queue.len() <= usize::MAX,
        m.cursor is Some ==> m.cursor->0 < m.queue.len(),
    ensures
        ({
            let step = stepped(m, Message::NextTrack, now);
            let at: int = match m.cursor {
                Some(at) => at as int,
                None => -1,
            };
            &&& at + 1 < m.queue.len() ==> moves_to(m, step, at + 1)
            &&& 0 < m.queue.len() == at + 1 && m.repeat == RepeatMode::All ==> moves_to(m, step, 0)
            &&& 0 < m.queue.len() == at + 1 && m.repeat != RepeatMode::All ==> step == (
                m,
                seq![ActionView::PlayerStop],
            )
            &&& m.queue.len() == 0 ==> step == (m, Seq::<ActionView>::empty())
        }),
{
    let at: int = match m.cursor {
        Some(at) => at as int,
        None => -1,
    };
    if at + 1 < m.queue.len() {
        lemma_jump_starts(m, at + 1);
    } else if m.queue.len() > 0 {
        lemma_jump_starts(m, 0);
    }
}

/// Going back plays the entry before the current one. At the first entry, and
/// where playback is on none, the player is asked instead.
pub proof fn going_back_plays_the_entry_before(m: ModelView, now: Moment)
    requires
        m.queue.len() <= usize::MAX,
        m.cursor is Some ==> m.cursor->0 < m.queue.len(),
    ensures
        ({
            let step = stepped(m, Message::PrevTrack, now);
            let inside = m.cursor is Some && m.cursor->0 > 0;
            &&& inside ==> moves_to(m, step, m.cursor->0 - 1)
            &&& !inside && m.queue.len() > 0 ==> step == (m, seq![ActionView::PlayerPrev])
            &&& m.queue.len() == 0 ==> step == (m, Seq::<ActionView>::empty())
        }),
{
    if m.cursor is Some && m.cursor->0 > 0 {
        lemma_jump_starts(m, m.cursor->0 - 1);
    }
}

/// Going back undoes a skip: playback is on the entry it was on.
pub proof fn going_back_undoes_a_skip(m: ModelView, skip: Moment, back: Moment)
    requires
        m.queue.len() <= usize::MAX,
        m.cursor is Some,
        m.cursor->0 + 1 < m.queue.len(),
    ensures
        ({
            let skipped = stepped(m, Message::NextTrack, skip).0;
            let returned = stepped(skipped, Message::PrevTrack, back).0;
            &&& returned.cursor == m.cursor
            &&& returned.queue == m.queue
            &&& returned.now_playing_track == Some(m.queue[m.cursor->0 as int].id)
        }),
{
    a_skip_plays_the_next_entry(m, skip);
    going_back_plays_the_entry_before(stepped(m, Message::NextTrack, skip).0, back);
}

/// A track that ended by itself leads to the same entry with repeat-one, and
/// otherwise to where a skip leads.
pub proof fn an_ended_track_leads_on(m: ModelView, event: PlaybackEvent, now: Moment)
    requires
        m.queue.len() <= usize::MAX,
        m.cursor is Some,
        m.cursor->0 < m.queue.len(),
        event is EndOfTrack,
        m.now_playing_track == Some(event->EndOfTrack_track@),
    ensures
        ({
            let step = stepped(m, Message::PlaybackEvent(event), now);
            &&& m.repeat == RepeatMode::One ==> moves_to(m, step, m.cursor->0 as int)
            &&& m.repeat != RepeatMode::One ==> step == stepped(m, Message::NextTrack, now)
        }),
{
    lemma_jump_starts(m, m.cursor->0 as int);
}

/// What is preloaded while a track plays is what plays once it has ended, where
/// that is another entry; and where another entry will play, it is preloaded.
pub proof fn the_preloaded_track_plays_next(
    m: ModelView,
    hint: PlaybackEvent,
    end: PlaybackEvent,
    now: Moment,
    later: Moment,
)
    requires
        m.queue.len() <= usize::MAX,
        m.cursor is Some,
        m.cursor->0 < m.queue.len(),
        hint is PreloadNext,
        end is EndOfTrack,
        m.now_playing_track == Some(hint->PreloadNext_track@),
        m.now_playing_track == Some(end->EndOfTrack_track@),
    ensures
        ({
            let (same, asked) = stepped(m, Message::PlaybackEvent(hint), now);
            let (after, told) = stepped(m, Message::PlaybackEvent(end), later);
            &&& same == m
            &&& asked.len() <= 1
            &&& asked.len() == 1 ==> after.now_playing_track is Some && asked[0]
                == ActionView::PlayerPreload(after.now_playing_track->0)
            &&& (asked.len() == 1) == (told.len() == 3 && after.cursor != m.cursor)
        }),
{
    an_ended_track_leads_on(m, end, later);
    a_skip_plays_the_next_entry(m, later);
}

} // verus!
