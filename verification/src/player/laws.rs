//! Laws of the player: the volume scales, the queue cursor, and what the UI is
//! told of the engine's events.

use vstd::prelude::*;
use crate::player::librespot_player::{
    base62_digit, base62_value, index_after, index_before, is_id_of, mixer_value, percent_value,
    preload_candidate, reported_as, spelled_id, EngineUri, PlayerEvent,
};
use crate::player::PlaybackEvent;
use crate::text::{decimal, separated};

verus! {

/// Silence is silence and full volume is full volume on both scales, and what
/// is louder on one is no softer on the other.
pub proof fn volume_scales_agree(softer: int, louder: int)
    requires
        0 <= softer <= louder,
    ensures
        mixer_value(0) == 0,
        mixer_value(100) == 65_535,
        percent_value(0) == 0,
        percent_value(65_535) == 100,
        mixer_value(softer) <= mixer_value(louder),
        percent_value(softer) <= percent_value(louder),
        louder > 100 ==> mixer_value(louder) == 65_535,
{
}

/// A percentage has its share of the mixer's scale, to less than one step.
pub proof fn a_percentage_has_its_share(percent: int)
    requires
        0 <= percent <= 100,
    ensures
        100 * mixer_value(percent) <= percent * 65_535 < 100 * (mixer_value(percent) + 1),
{
}

/// A mixer value has its share of the percentages, to less than one point.
pub proof fn a_mixer_value_has_its_share(raw: int)
    requires
        0 <= raw <= 65_535,
    ensures
        65_535 * percent_value(raw) <= raw * 100 < 65_535 * (percent_value(raw) + 1),
{
}

/// Going forward leads to the next entry, to the first where playback is on
/// none, and nowhere from the last; going back leads to the entry before, and
/// nowhere from the first.
pub proof fn the_cursor_walks_entry_by_entry(at: usize, len: int)
    requires
        0 <= len,
    ensures
        at + 1 < len ==> index_after(Some(at), len) == Some(at + 1),
        at + 1 >= len ==> index_after(Some(at), len) is None,
        len > 0 ==> index_after(None, len) == Some(0int),
        len == 0 ==> index_after(None, len) is None,
        at > 0 ==> index_before(Some(at)) == Some(at - 1),
        at == 0 ==> index_before(Some(at)) is None,
        index_before(None) is None,
{
}

/// What is preloaded is what is played next: the entry after the one that
/// plays, where the cursor is on it.
pub proof fn the_next_entry_is_preloaded(queue: Seq<Seq<char>>, at: usize, current: Seq<char>)
    ensures
        at + 1 < queue.len() && queue[at as int] == current ==> preload_candidate(
            queue,
            Some(at),
            current,
        ) == Some(queue[at + 1]),
        at + 1 >= queue.len() || queue[at as int] != current ==> preload_candidate(
            queue,
            Some(at),
            current,
        ) is None,
        preload_candidate(queue, None, current) is None,
{
}

/// Digits come first, then small letters, then capitals; each is worth one more
/// than the one before it.
pub proof fn base62_digits_are_in_order(c: char)
    ensures
        '0' <= c <= '9' ==> base62_digit(c) == Some(c as int - '0' as int),
        'a' <= c <= 'z' ==> base62_digit(c) == Some(10 + c as int - 'a' as int),
        'A' <= c <= 'Z' ==> base62_digit(c) == Some(36 + c as int - 'A' as int),
        !('0' <= c <= '9') && !('a' <= c <= 'z') && !('A' <= c <= 'Z') ==> base62_digit(c) is None,
{
}

/// A digit added at the end makes the number sixty-two times as large, and adds
/// what it is worth.
pub proof fn base62_places_count_sixty_two_fold(digits: Seq<char>, c: char)
    ensures
        base62_value(digits) is Some && base62_digit(c) is Some ==> base62_value(digits.push(c))
            == Some(base62_value(digits)->0 * 62 + base62_digit(c)->0),
        base62_value(Seq::empty()) == Some(0int),
{
    assert(digits.push(c).drop_last() =~= digits);
}

/// Base-62 digits stand for no negative number.
proof fn lemma_not_negative(digits: Seq<char>)
    ensures
        base62_value(digits) is Some ==> base62_value(digits)->0 >= 0,
    decreases digits.len(),
{
    if digits.len() > 0 {
        lemma_not_negative(digits.drop_last());
    }
}

/// An id has twenty-two digits; any other text is none.
pub proof fn an_id_has_twenty_two_digits(text: Seq<char>)
    ensures
        spelled_id(text) is Some ==> text.len() == 22 && base62_value(text) == Some(
            spelled_id(text)->0 as int,
        ),
        text.len() == 22 && base62_value(text) is Some && base62_value(text)->0 <= u128::MAX
            ==> spelled_id(text) is Some,
{
    lemma_not_negative(text);
}

/// An item is named by the digits of its number, a local file by its artist,
/// album, title and length with colons between, anything else by its own text.
pub proof fn items_are_named_by_their_fields(
    id: u128,
    artist: String,
    album: String,
    title: String,
    secs: u64,
    text: Seq<char>,
)
    ensures
        is_id_of(EngineUri::Item { id }, text) == (spelled_id(text) == Some(id)),
        is_id_of(
            EngineUri::Local {
                artist,
                album_title: album,
                track_title: title,
                duration_secs: secs,
            },
            text,
        ) == (text == separated(
            seq![artist@, album@, title@, decimal(secs as nat)],
            ":"@,
        )),
        is_id_of(EngineUri::Unknown { text: title }, text) == (text == title@),
{
    let parts = seq![artist@, album@, title@, decimal(secs as nat)];
    let three = parts.drop_last();
    let two = three.drop_last();
    let one = two.drop_last();
    reveal_with_fuel(separated, 5);
    assert(one =~= seq![artist@]);
    assert(two =~= seq![artist@, album@]);
    assert(three =~= seq![artist@, album@, title@]);
}

/// The UI is told of an event as what it is: the track, the position and the
/// volume are those of the event.
pub proof fn events_are_told_as_they_are(
    track_id: EngineUri,
    position: u32,
    volume: u16,
    mapped: PlaybackEvent,
)
    ensures
        ({
            let told = Some(mapped);
            &&& reported_as(PlayerEvent::Playing { track_id, position_ms: position }, told)
                ==> mapped is Playing && mapped->Playing_position_ms == position && is_id_of(
                track_id,
                mapped->Playing_track@,
            )
            &&& reported_as(PlayerEvent::Paused { track_id, position_ms: position }, told)
                ==> mapped is Paused && mapped->Paused_position_ms == position && is_id_of(
                track_id,
                mapped->Paused_track@,
            )
            &&& reported_as(PlayerEvent::Loading { track_id }, told) ==> mapped is Loading
                && is_id_of(track_id, mapped->Loading_track@)
            &&& reported_as(PlayerEvent::Stopped { track_id }, told) ==> mapped is Stopped
                && is_id_of(track_id, mapped->Stopped_track@)
            &&& reported_as(PlayerEvent::EndOfTrack { track_id }, told) ==> mapped is EndOfTrack
                && is_id_of(track_id, mapped->EndOfTrack_track@)
            &&& reported_as(PlayerEvent::Unavailable { track_id }, told) ==> mapped is Unavailable
                && is_id_of(track_id, mapped->Unavailable_track@)
            &&& reported_as(PlayerEvent::TimeToPreloadNextTrack { track_id }, told)
                ==> mapped is PreloadNext && is_id_of(track_id, mapped->PreloadNext_track@)
            &&& reported_as(PlayerEvent::VolumeChanged { volume }, told) ==> mapped is VolumeChanged
                && mapped->VolumeChanged_volume <= 100 && 65_535 * mapped->VolumeChanged_volume
                <= volume * 100 < 65_535 * (mapped->VolumeChanged_volume + 1)
            &&& reported_as(PlayerEvent::SessionDisconnected, told)
                ==> mapped is SessionDisconnected
        }),
{
}

/// A seek, a correction and a regular position all only move the playhead, and
/// an event that the UI does not consume is not told.
pub proof fn positions_only_move_the_playhead(position: u32, mapped: Option<PlaybackEvent>)
    ensures
        ({
            let moved = Some(PlaybackEvent::PositionUpdate { position_ms: position });
            &&& reported_as(PlayerEvent::PositionChanged { position_ms: position }, mapped) == (
            mapped == moved)
            &&& reported_as(PlayerEvent::PositionCorrection { position_ms: position }, mapped) == (
            mapped == moved)
            &&& reported_as(PlayerEvent::Seeked { position_ms: position }, mapped) == (mapped
                == moved)
            &&& reported_as(PlayerEvent::Other, mapped) == (mapped is None)
        }),
{
}

} // verus!
