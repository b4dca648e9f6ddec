//! Laws of playback: stale events, bounded skipping, volume and seeking.

use vstd::prelude::*;
use crate::clock::Moment;
use crate::message::{ActionView, Message};
use crate::model::PlaybackState;
use crate::player::PlaybackEvent;
use crate::state::{ModelView, PlaybackHealth, RepeatMode};
use crate::update::playback::{
    announced, disconnected, engine_reported, jumped, next_entry, sought, stopped, unavailable,
    volume_changed, RECONNECT_AFTER_FAILURES,
};
use crate::update::queue_laws::{asks_reconnect, queue_consistent};
use crate::update::step_laws::{lemma_step, playback_kept};
use crate::update::{stepped, Step};

verus! {

/// The track an event is about, where it is about one.
pub open spec fn track_of(event: PlaybackEvent) -> Option<Seq<char>> {
    match event {
        PlaybackEvent::Loading { track } => Some(track@),
        PlaybackEvent::Playing { track, .. } => Some(track@),
        PlaybackEvent::Paused { track, .. } => Some(track@),
        PlaybackEvent::EndOfTrack { track } => Some(track@),
        PlaybackEvent::PreloadNext { track } => Some(track@),
        PlaybackEvent::Stopped { track } => Some(track@),
        PlaybackEvent::Unavailable { track } => Some(track@),
        PlaybackEvent::PositionUpdate { .. } => None,
        PlaybackEvent::VolumeChanged { .. } => None,
        PlaybackEvent::SessionDisconnected => None,
    }
}

/// An event of a track other than the expected one changes nothing and asks
/// for nothing. (A stop without a track concerns whatever is playing.)
pub proof fn stale_events_change_nothing(m: ModelView, event: PlaybackEvent)
    requires
        m.now_playing_track is Some,
        track_of(event) is Some,
        track_of(event) != m.now_playing_track,
        event is Stopped ==> track_of(event)->0.len() > 0,
    ensures
        engine_reported(m, event).0 == m,
        engine_reported(m, event).1.len() == 0,
{
}

/// Whether every snapshot that a step publishes is the one after the step.
pub open spec fn publishes_current(step: Step) -> bool {
    forall|i: int|
        0 <= i < step.1.len() && (#[trigger] step.1[i]) is PublishNowPlaying ==> step.1[i]
            == ActionView::PublishNowPlaying(step.0.now_playing)
}

/// Whatever the message, a published snapshot shows playback as it is after the
/// step, never as it was before.
pub proof fn published_snapshots_are_current(m: ModelView, msg: Message, now: Moment)
    ensures
        publishes_current(stepped(m, msg, now)),
{
    lemma_step(m, msg, now);
    reveal(playback_kept);
}

/// A position reported while the next track loads belongs to the track before
/// it, and is dropped.
pub proof fn positions_while_loading_are_dropped(m: ModelView, position_ms: u32)
    requires
        m.now_playing.state == PlaybackState::Loading,
    ensures
        engine_reported(m, PlaybackEvent::PositionUpdate { position_ms }).0 == m,
        engine_reported(m, PlaybackEvent::PositionUpdate { position_ms }).1.len() == 0,
{
}

/// A skip onto an entry makes its track the expected one, so that events of the
/// track before it are stale from then on; art and snapshot are announced before
/// the player is told.
pub proof fn a_jump_sets_the_expected_track(m: ModelView, index: int)
    requires
        0 <= index < m.queue.len(),
    ensures
        jumped(m, index).0.now_playing_track == Some(m.queue[index].id),
        jumped(m, index).0.now_playing_metadata_track == Some(m.queue[index].id),
        jumped(m, index).0.now_playing.state == PlaybackState::Loading,
        jumped(m, index).0.now_playing.position_ms == 0,
        jumped(m, index).1 == announced(jumped(m, index).0, m.queue[index].id).push(
            ActionView::PlayerPlayIndex(index),
        ),
{
}

/// The entry that comes next is an entry of the queue.
pub proof fn the_next_entry_is_in_the_queue(m: ModelView, skipped: bool)
    ensures
        next_entry(m, skipped) is Some ==> 0 <= next_entry(m, skipped)->0 < m.queue.len(),
{
}

/// A skip moves on even in repeat-one; only a track that ended by itself is
/// replayed.
pub proof fn a_skip_moves_on(m: ModelView)
    requires
        queue_consistent(m),
        m.cursor is Some,
        m.queue.len() > 1,
    ensures
        next_entry(m, true) != Some(m.cursor->0 as int),
        m.repeat == RepeatMode::One ==> next_entry(m, false) == Some(m.cursor->0 as int),
{
}

/// In repeat-all the queue never ends.
pub proof fn repeat_all_never_ends(m: ModelView, skipped: bool)
    requires
        m.repeat == RepeatMode::All,
        m.queue.len() > 0,
    ensures
        next_entry(m, skipped) is Some,
{
}

/// The volume after a relative change lies within 0 to 100, and is what the
/// player is told.
pub proof fn volume_stays_in_range(m: ModelView, delta: int, now: Moment)
    ensures
        ({
            let step = volume_changed(m, delta, now);
            &&& 0 <= step.0.now_playing.volume <= 100
            &&& step.1 == seq![ActionView::PlayerSetVolume(step.0.now_playing.volume as int)]
            &&& step.0.volume_overlay_until is Some
        }),
{
}

/// A seek never leaves the track.
pub proof fn seeks_stay_within_the_track(m: ModelView, delta: int)
    ensures
        m.now_playing.duration_ms == 0 ==> sought(m, delta).len() == 0,
        m.now_playing.duration_ms > 0 ==> exists|position: int|
            sought(m, delta) == seq![ActionView::PlayerSeek(position)] && 0 <= position
                <= m.now_playing.duration_ms,
{
    if m.now_playing.duration_ms > 0 {
        let position = sought(m, delta)[0]->PlayerSeek_0;
        assert(sought(m, delta) =~= seq![ActionView::PlayerSeek(position)]);
    }
}

/// A reconnect under way is not asked for again, neither by another
/// disconnect nor by tracks that cannot be played.
pub proof fn reconnects_do_not_stack(m: ModelView)
    requires
        m.health is Reconnecting,
    ensures
        !asks_reconnect(disconnected(m)),
        !asks_reconnect(unavailable(m)),
        disconnected(m).0.health == m.health,
{
}

/// Whether a step ends playback: it shows as stopped, with the streak of
/// failures over.
pub open spec fn ends_playback(step: Step) -> bool {
    step.0.health == PlaybackHealth::Healthy && step.0.now_playing.state == PlaybackState::Stopped
}

/// Tracks that keep failing run through skips, one reconnect and more skips to
/// a stop: each failure either ends playback or moves one step further on that
/// way, and [`RECONNECT_AFTER_FAILURES`] bounds both runs of skips.
pub proof fn failures_lead_to_a_stop(m: ModelView)
    ensures
        match m.health {
            PlaybackHealth::Healthy => ends_playback(unavailable(m)) || unavailable(m).0.health
                == PlaybackHealth::Skipping(1),
            PlaybackHealth::Skipping(count) => if count + 1 < RECONNECT_AFTER_FAILURES {
                ends_playback(unavailable(m)) || unavailable(m).0.health
                    == PlaybackHealth::Skipping((count + 1) as u32)
            } else {
                unavailable(m).0.health == PlaybackHealth::Reconnecting(0) && asks_reconnect(
                    unavailable(m),
                )
            },
            PlaybackHealth::Reconnecting(count) => if count + 1 < RECONNECT_AFTER_FAILURES {
                ends_playback(unavailable(m)) || unavailable(m).0.health
                    == PlaybackHealth::Reconnecting((count + 1) as u32)
            } else {
                ends_playback(unavailable(m)) && unavailable(m).1.len() == 0
            },
        },
{
    match m.health {
        PlaybackHealth::Skipping(count) if count + 1 >= RECONNECT_AFTER_FAILURES => {
            assert(unavailable(m).1[0] is PlayerReconnect);
        },
        _ => {},
    }
}

/// A single failure is skipped, never answered with a reconnect.
pub proof fn a_single_failure_is_only_skipped(m: ModelView)
    requires
        m.health == PlaybackHealth::Healthy,
    ensures
        !asks_reconnect(unavailable(m)),
{
}

/// A track that plays ends any streak of failures.
pub proof fn a_playing_track_heals(m: ModelView, event: PlaybackEvent)
    requires
        event is Playing,
        m.now_playing_track is None || m.now_playing_track == track_of(event),
    ensures
        engine_reported(m, event).0.health == PlaybackHealth::Healthy,
        engine_reported(m, event).0.now_playing.state == PlaybackState::Playing,
{
}

/// A stop forgets what was playing and keeps the volume, so that a later
/// disconnect may reconnect again.
pub proof fn a_stop_clears_playback(m: ModelView)
    ensures
        stopped(m).health == PlaybackHealth::Healthy,
        stopped(m).now_playing.volume == m.now_playing.volume,
        stopped(m).now_playing.state == PlaybackState::Stopped,
        stopped(m).now_playing_track is None,
        asks_reconnect(disconnected(stopped(m))),
{
    assert(disconnected(stopped(m)).1[0] is PlayerReconnect);
}

} // verus!
