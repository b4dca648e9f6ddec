//! Rules of the librespot-backed player: volume scales and the queue cursor.
//!
//! librespot's bare player has no queue of its own, so `next` and `previous`
//! walk a cursor over a list of track ids kept beside it.

use std::time::Duration;
use librespot_core::spotify_id::SpotifyId;
use librespot_core::spotify_uri::SpotifyUri;
use vstd::prelude::*;
use vstd::string::*;
use crate::error::PlayerError;
use crate::model::TrackId;
use crate::player::PlaybackEvent;
use crate::text::{decimal, joined, push_decimal, views};

verus! {

/// Full volume on the contract's percentage scale.
pub const PERCENT_MAX: u16 = 100;

/// Full volume on librespot's mixer scale.
pub const MIXER_MAX: u32 = 65_535;

/// The mixer value of a percentage: its share of the full scale, rounded down,
/// with percentages over 100 taken as 100.
pub open spec fn mixer_value(percent: int) -> int {
    (if percent <= PERCENT_MAX {
        percent
    } else {
        PERCENT_MAX as int
    }) * MIXER_MAX / PERCENT_MAX as int
}

/// The percentage of a mixer value, rounded down.
pub open spec fn percent_value(raw: int) -> int {
    raw * PERCENT_MAX / MIXER_MAX as int
}

/// Convert a 0..=100 contract percentage to librespot's `0..=u16::MAX` scale.
pub fn percent_to_mixer(percent: u16) -> (raw: u16)
    ensures
        raw == mixer_value(percent as int),
{
    let clamped: u16 = if percent <= PERCENT_MAX {
        percent
    } else {
        PERCENT_MAX
    };
    let scaled: u32 = clamped as u32 * MIXER_MAX / PERCENT_MAX as u32;
    scaled as u16
}

/// Convert librespot's `0..=u16::MAX` volume to a 0..=100 contract percentage.
pub fn mixer_to_percent(raw: u16) -> (percent: u16)
    ensures
        percent == percent_value(raw as int),
        percent <= PERCENT_MAX,
{
    let scaled: u32 = raw as u32 * PERCENT_MAX as u32 / MIXER_MAX;
    scaled as u16
}

/// A percentage sent to the mixer and read back differs by at most one point.
pub proof fn volume_round_trip(percent: int)
    requires
        0 <= percent <= PERCENT_MAX,
    ensures
        percent - 1 <= percent_value(mixer_value(percent)) <= percent,
        0 <= mixer_value(percent) <= MIXER_MAX,
{
}

/// The index after the cursor: the first entry where playback is on none, and
/// none past the end.
pub open spec fn index_after(cursor: Option<usize>, len: int) -> Option<int> {
    let next: int = match cursor {
        Some(current) => current + 1,
        None => 0,
    };
    if next < len {
        Some(next)
    } else {
        None
    }
}

/// Compute the index of the next queue entry, or `None` at the end / when empty.
pub fn next_index(cursor: Option<usize>, len: usize) -> (next: Option<usize>)
    ensures
        match next {
            Some(index) => index_after(cursor, len as int) == Some(index as int) && index < len,
            None => index_after(cursor, len as int) is None,
        },
{
    match cursor {
        Some(current) => if current < len && current + 1 < len {
            Some(current + 1)
        } else {
            None
        },
        None => if 0 < len {
            Some(0)
        } else {
            None
        },
    }
}

/// The index before the cursor; none before the first, nor where playback is
/// on no entry.
pub open spec fn index_before(cursor: Option<usize>) -> Option<int> {
    match cursor {
        Some(current) if current > 0 => Some(current - 1),
        _ => None,
    }
}

/// Compute the index of the previous queue entry, or `None` at the start.
pub fn previous_index(cursor: Option<usize>) -> (previous: Option<usize>)
    ensures
        match previous {
            Some(index) => index_before(cursor) == Some(index as int),
            None => index_before(cursor) is None,
        },
{
    match cursor {
        Some(current) => if current > 0 {
            Some(current - 1)
        } else {
            None
        },
        None => None,
    }
}

/// Going back undoes going forward, wherever both lead somewhere.
pub proof fn going_back_undoes_going_forward(cursor: usize, len: int)
    requires
        index_after(Some(cursor), len) is Some,
        len <= usize::MAX,
    ensures
        index_before(Some(index_after(Some(cursor), len)->0 as usize)) == Some(cursor as int),
{
}

/// The queue item to preload while `current` plays: the one after the cursor,
/// where the cursor is on `current`.
pub open spec fn preload_candidate(
    queue: Seq<Seq<char>>,
    cursor: Option<usize>,
    current: Seq<char>,
) -> Option<Seq<char>> {
    match cursor {
        Some(at) if at < queue.len() && queue[at as int] == current && at + 1 < queue.len() => Some(
            queue[at + 1],
        ),
        _ => None,
    }
}

/// Return the queue item to preload for a current-track hint.
pub fn next_track_to_preload<'a>(
    queue: &'a Vec<TrackId>,
    cursor: Option<usize>,
    current: &TrackId,
) -> (track: Option<&'a TrackId>)
    ensures
        match track {
            Some(id) => preload_candidate(views(queue@), cursor, current@) == Some(id@),
            None => preload_candidate(views(queue@), cursor, current@) is None,
        },
{
    match cursor {
        None => None,
        Some(at) => {
            if at >= queue.len() {
                return None;
            }
            assert(views(queue@)[at as int] == queue@[at as int]@);
            if !queue[at].same(current) {
                return None;
            }
            match next_index(cursor, queue.len()) {
                Some(index) => Some(&queue[index]),
                None => None,
            }
        },
    }
}

/// How often librespot emits a position event while playing, in milliseconds.
pub const POSITION_UPDATE_INTERVAL_MS: u64 = 500;

/// What an engine event is about.
#[derive(Debug, PartialEq, Eq)]
pub enum EngineUri {
    /// A track, or another item that Spotify numbers.
    Item { id: u128 },
    /// A file on the user's machine.
    Local { artist: String, album_title: String, track_title: String, duration_secs: u64 },
    /// Something of another kind, by the text that stands for it.
    Unknown { text: String },
}

/// An event of the audio engine.
#[derive(Debug, PartialEq, Eq)]
pub enum PlayerEvent {
    Stopped { track_id: EngineUri },
    Loading { track_id: EngineUri },
    Playing { track_id: EngineUri, position_ms: u32 },
    Paused { track_id: EngineUri, position_ms: u32 },
    PositionChanged { position_ms: u32 },
    PositionCorrection { position_ms: u32 },
    Seeked { position_ms: u32 },
    EndOfTrack { track_id: EngineUri },
    TimeToPreloadNextTrack { track_id: EngineUri },
    Unavailable { track_id: EngineUri },
    /// The volume on the mixer scale.
    VolumeChanged { volume: u16 },
    SessionDisconnected,
    /// An event the UI does not consume.
    Other,
}

/// Whether `text` is the id of `uri`: the number of an item in 22 base-62
/// digits, the fields of a local file with colons between them.
pub open spec fn is_id_of(uri: EngineUri, text: Seq<char>) -> bool {
    match uri {
        EngineUri::Item { id } => spelled_id(text) == Some(id),
        EngineUri::Local { artist, album_title, track_title, duration_secs } => text == artist@
            + ":"@ + album_title@ + ":"@ + track_title@ + ":"@ + decimal(duration_secs as nat),
        EngineUri::Unknown { text: held } => text == held@,
    }
}

/// librespot's `SpotifyUri::to_id` writes the id of a URI, and never fails: a
/// number as the 22 base-62 digits that spell it, a local file by its fields, an
/// unknown URI by the text that it holds. All numbered kinds are written alike, so
/// a track stands for them.
#[verifier::external_body]
fn id_of_uri(uri: EngineUri) -> (id: Option<String>)
    ensures
        id is Some && is_id_of(uri, id->0@),
{
    let uri = match uri {
        EngineUri::Item { id } => SpotifyUri::Track { id: SpotifyId { id } },
        EngineUri::Local { artist, album_title, track_title, duration_secs } => {
            let duration = Duration::from_secs(duration_secs);
            SpotifyUri::Local { artist, album_title, track_title, duration }
        },
        EngineUri::Unknown { text } => SpotifyUri::Unknown { kind: "".into(), id: text },
    };
    uri.to_id().ok()
}

/// Recover a [`TrackId`] from an engine URI.
pub fn uri_to_track_id(uri: EngineUri) -> (track: TrackId)
    ensures
        is_id_of(uri, track@),
{
    match id_of_uri(uri) {
        Some(id) => TrackId(id),
        None => TrackId(String::new()),
    }
}

/// Whether `mapped` is what the UI is told of `event`. Seeks and position
/// corrections only move the playhead: they must not flip the transport state.
pub open spec fn reported_as(event: PlayerEvent, mapped: Option<PlaybackEvent>) -> bool {
    match event {
        PlayerEvent::Stopped { track_id } => mapped matches Some(
            PlaybackEvent::Stopped { track },
        ) && is_id_of(track_id, track@),
        PlayerEvent::Loading { track_id } => mapped matches Some(
            PlaybackEvent::Loading { track },
        ) && is_id_of(track_id, track@),
        PlayerEvent::Playing { track_id, position_ms } => mapped matches Some(
            PlaybackEvent::Playing { track, position_ms: shown },
        ) && is_id_of(track_id, track@) && shown == position_ms,
        PlayerEvent::Paused { track_id, position_ms } => mapped matches Some(
            PlaybackEvent::Paused { track, position_ms: shown },
        ) && is_id_of(track_id, track@) && shown == position_ms,
        PlayerEvent::PositionChanged { position_ms } => mapped == Some(
            PlaybackEvent::PositionUpdate { position_ms },
        ),
        PlayerEvent::PositionCorrection { position_ms } => mapped == Some(
            PlaybackEvent::PositionUpdate { position_ms },
        ),
        PlayerEvent::Seeked { position_ms } => mapped == Some(
            PlaybackEvent::PositionUpdate { position_ms },
        ),
        PlayerEvent::EndOfTrack { track_id } => mapped matches Some(
            PlaybackEvent::EndOfTrack { track },
        ) && is_id_of(track_id, track@),
        PlayerEvent::TimeToPreloadNextTrack { track_id } => mapped matches Some(
            PlaybackEvent::PreloadNext { track },
        ) && is_id_of(track_id, track@),
        PlayerEvent::Unavailable { track_id } => mapped matches Some(
            PlaybackEvent::Unavailable { track },
        ) && is_id_of(track_id, track@),
        PlayerEvent::VolumeChanged { volume } => mapped matches Some(
            PlaybackEvent::VolumeChanged { volume: percent },
        ) && percent == percent_value(volume as int),
        PlayerEvent::SessionDisconnected => mapped == Some(PlaybackEvent::SessionDisconnected),
        PlayerEvent::Other => mapped is None,
    }
}

/// Map an engine event to the UI's [`PlaybackEvent`].
///
/// Returns `None` for events the UI does not consume (preload progress,
/// session-metadata notices). Volume is converted from librespot's `0..=u16::MAX`
/// scale to the 0..=100 percentage.
pub fn map_player_event(event: PlayerEvent) -> (mapped: Option<PlaybackEvent>)
    ensures
        reported_as(event, mapped),
{
    match event {
        PlayerEvent::Stopped { track_id } => Some(
            PlaybackEvent::Stopped { track: uri_to_track_id(track_id) },
        ),
        PlayerEvent::Loading { track_id } => Some(
            PlaybackEvent::Loading { track: uri_to_track_id(track_id) },
        ),
        PlayerEvent::Playing { track_id, position_ms } => Some(
            PlaybackEvent::Playing { track: uri_to_track_id(track_id), position_ms },
        ),
        PlayerEvent::Paused { track_id, position_ms } => Some(
            PlaybackEvent::Paused { track: uri_to_track_id(track_id), position_ms },
        ),
        PlayerEvent::PositionChanged { position_ms } => Some(
            PlaybackEvent::PositionUpdate { position_ms },
        ),
        PlayerEvent::PositionCorrection { position_ms } => Some(
            PlaybackEvent::PositionUpdate { position_ms },
        ),
        PlayerEvent::Seeked { position_ms } => Some(PlaybackEvent::PositionUpdate { position_ms }),
        PlayerEvent::EndOfTrack { track_id } => Some(
            PlaybackEvent::EndOfTrack { track: uri_to_track_id(track_id) },
        ),
        PlayerEvent::TimeToPreloadNextTrack { track_id } => Some(
            PlaybackEvent::PreloadNext { track: uri_to_track_id(track_id) },
        ),
        PlayerEvent::Unavailable { track_id } => Some(
            PlaybackEvent::Unavailable { track: uri_to_track_id(track_id) },
        ),
        PlayerEvent::VolumeChanged { volume } => Some(
            PlaybackEvent::VolumeChanged { volume: mixer_to_percent(volume) },
        ),
        PlayerEvent::SessionDisconnected => Some(PlaybackEvent::SessionDisconnected),
        PlayerEvent::Other => None,
    }
}

/// What to do with an event of the session numbered `generation`: only the
/// current session's events reach the UI.
pub fn bridge_event(generation: u64, current: u64, event: PlayerEvent) -> (mapped: Option<
    PlaybackEvent,
>)
    ensures
        generation == current ==> reported_as(event, mapped),
        generation != current ==> mapped is None,
{
    if generation == current {
        map_player_event(event)
    } else {
        None
    }
}

/// What to report once the event stream of the session numbered `generation`
/// ends: a session that was already replaced stays silent, so that the dead
/// session cannot trigger a spurious reconnect.
pub fn bridge_end(generation: u64, current: u64) -> (mapped: Option<PlaybackEvent>)
    ensures
        generation == current ==> mapped == Some(PlaybackEvent::SessionDisconnected),
        generation != current ==> mapped is None,
{
    if generation == current {
        Some(PlaybackEvent::SessionDisconnected)
    } else {
        None
    }
}

/// The error where no session is connected.
pub fn not_connected(op: &str) -> (error: PlayerError)
    ensures
        error is Session,
        error->Session_0@ == op@ + ": no streaming session"@,
{
    PlayerError::Session(joined(op, ": no streaming session"))
}

/// The value of a base-62 digit: `0` to `9`, then `a` to `z`, then `A` to `Z`.
pub open spec fn base62_digit(c: char) -> Option<int> {
    let code = c as u32;
    if 0x30 <= code <= 0x39 {
        Some(code - 0x30)
    } else if 0x61 <= code <= 0x7a {
        Some(code - 0x61 + 10)
    } else if 0x41 <= code <= 0x5a {
        Some(code - 0x41 + 36)
    } else {
        None
    }
}

/// The number that base-62 digits stand for, or `None` where some character is
/// no such digit.
pub open spec fn base62_value(digits: Seq<char>) -> Option<int>
    decreases digits.len(),
{
    if digits.len() == 0 {
        Some(0)
    } else {
        match (base62_value(digits.drop_last()), base62_digit(digits.last())) {
            (Some(before), Some(last)) => Some(before * 62 + last),
            _ => None,
        }
    }
}

/// The 128-bit id that `text` spells: 22 base-62 digits whose number fits.
pub open spec fn spelled_id(text: Seq<char>) -> Option<u128> {
    match base62_value(text) {
        Some(value) => if text.len() == 22 && value <= u128::MAX {
            Some(value as u128)
        } else {
            None
        },
        None => None,
    }
}

/// librespot's `SpotifyId::from_base62` reads 22 base-62 digits into a 128-bit
/// id, and rejects any other text with one and the same error, whose text is
/// given here.
#[verifier::external_body]
fn parse_base62(text: &str) -> (id: Result<u128, String>)
    ensures
        match spelled_id(text@) {
            Some(value) => id == Ok::<u128, String>(value),
            None => id is Err && id->Err_0@
                == "Client specified an invalid argument { ID cannot be parsed }"@,
        },
{
    SpotifyId::from_base62(text).map(|id| id.id).map_err(|e| e.to_string())
}

/// `text` in quotes, as the standard library's debug format writes it.
pub uninterp spec fn quoted_text(text: Seq<char>) -> Seq<char>;

/// The standard library's debug format of a string: the text in quotes, with
/// special characters escaped, a function of the text alone.
#[verifier::external_body]
fn quoted(text: &str) -> (result: String)
    ensures
        result@ == quoted_text(text@),
{
    format!("{:?}", text)
}

/// A playable track: the 128-bit id behind its `spotify:track:` URI.
#[derive(Debug, Clone, Copy, PartialEq, Eq, Structural)]
pub struct TrackUri {
    pub id: u128,
}

/// The error where a track id is not one.
pub fn invalid_track_id(quoted: &str, detail: &str) -> (error: PlayerError)
    ensures
        error is Control,
        error->Control_0@ == "invalid track id "@ + quoted@ + ": "@ + detail@,
{
    let mut text = "invalid track id ".to_owned();
    text.append(quoted);
    text.append(": ");
    text.append(detail);
    PlayerError::Control(text)
}

/// Build a playable track URI from a base-62 [`TrackId`].
pub fn track_uri(track: &TrackId) -> (uri: Result<TrackUri, PlayerError>)
    ensures
        match spelled_id(track@) {
            Some(id) => uri == Ok::<TrackUri, PlayerError>(TrackUri { id }),
            None => uri is Err && uri->Err_0 is Control && uri->Err_0->Control_0@
                == "invalid track id "@ + quoted_text(track@) + ": "@
                + "Client specified an invalid argument { ID cannot be parsed }"@,
        },
{
    match parse_base62(track.0.as_str()) {
        Ok(id) => Ok(TrackUri { id }),
        Err(detail) => {
            let shown = quoted(track.0.as_str());
            Err(invalid_track_id(shown.as_str(), detail.as_str()))
        },
    }
}

/// No two characters are the same digit.
proof fn lemma_base62_digit_is_unique(a: char, b: char)
    requires
        base62_digit(a) is Some,
        base62_digit(a) == base62_digit(b),
    ensures
        a == b,
{
}

/// Base-62 digits stand for no negative number.
proof fn lemma_base62_is_not_negative(digits: Seq<char>)
    ensures
        base62_value(digits) is Some ==> base62_value(digits)->0 >= 0,
    decreases digits.len(),
{
    if digits.len() > 0 {
        lemma_base62_is_not_negative(digits.drop_last());
    }
}

/// Two texts of base-62 digits, of one length and of one number, are the same.
proof fn lemma_base62_is_unique(a: Seq<char>, b: Seq<char>)
    requires
        a.len() == b.len(),
        base62_value(a) is Some,
        base62_value(a) == base62_value(b),
    ensures
        a == b,
    decreases a.len(),
{
    if a.len() > 0 {
        let (before_a, last_a) = (base62_value(a.drop_last())->0, base62_digit(a.last())->0);
        let (before_b, last_b) = (base62_value(b.drop_last())->0, base62_digit(b.last())->0);
        assert(before_a * 62 + last_a == before_b * 62 + last_b);
        assert(0 <= last_a < 62 && 0 <= last_b < 62);
        assert(before_a == before_b && last_a == last_b);
        lemma_base62_digit_is_unique(a.last(), b.last());
        lemma_base62_is_unique(a.drop_last(), b.drop_last());
        assert(a =~= a.drop_last().push(a.last()));
        assert(b =~= b.drop_last().push(b.last()));
    } else {
        assert(a =~= b);
    }
}

/// The URI of a track gives its id back: whatever id is recovered from the URI
/// that was built for `track` is `track`.
pub proof fn a_track_uri_gives_its_id_back(track: Seq<char>, id: u128, recovered: Seq<char>)
    requires
        spelled_id(track) == Some(id),
        is_id_of(EngineUri::Item { id }, recovered),
    ensures
        recovered == track,
{
    lemma_base62_is_not_negative(recovered);
    lemma_base62_is_not_negative(track);
    lemma_base62_is_unique(recovered, track);
}

/// The player's own copy of the queue, and the entry that is loaded.
#[derive(Debug)]
pub struct PlayerQueue {
    /// App-side list of tracks (librespot has no built-in queue).
    pub queue: Vec<TrackId>,
    /// Index into `queue` of the currently loaded track, if any.
    pub cursor: Option<usize>,
}

/// What skipping does.
#[derive(Debug, PartialEq, Eq)]
pub enum SkipStep {
    /// Load this entry and play it.
    Load(usize),
    /// The queue ended: stop.
    Stop,
    /// There is nothing before this entry: stay.
    Stay,
    /// There is no queue to skip in.
    Fail(PlayerError),
}

/// Whether `step` reports that there is no queue to skip in.
pub open spec fn reports_empty_queue(step: SkipStep) -> bool {
    step is Fail && step->Fail_0 is Control && step->Fail_0->Control_0@
        == "cannot skip in an empty queue"@
}

impl PlayerQueue {
    /// An empty queue.
    pub fn new() -> (queue: PlayerQueue)
        ensures
            queue.queue@.len() == 0,
            queue.cursor is None,
    {
        PlayerQueue { queue: Vec::new(), cursor: None }
    }

    /// Replace the queue and give the index to start at, held to the queue. An
    /// empty queue is refused and nothing changes.
    pub fn load_queue(&mut self, tracks: Vec<TrackId>, start_index: usize) -> (result: Result<
        usize,
        PlayerError,
    >)
        ensures
            result is Ok == (tracks@.len() > 0),
            result is Ok ==> {
                &&& final(self).queue == tracks
                &&& final(self).cursor == old(self).cursor
                &&& result->Ok_0 == (if start_index < tracks@.len() {
                    start_index as int
                } else {
                    tracks@.len() - 1
                })
            },
            result is Err ==> {
                &&& *final(self) == *old(self)
                &&& result->Err_0 is Control
                &&& result->Err_0->Control_0@ == "cannot play an empty queue"@
            },
    {
        if tracks.len() == 0 {
            return Err(PlayerError::Control("cannot play an empty queue".to_owned()));
        }
        let last: usize = tracks.len() - 1;
        self.queue = tracks;
        Ok(
            if start_index <= last {
                start_index
            } else {
                last
            },
        )
    }

    /// Replace the queue and the cursor without touching playback.
    pub fn set_queue(&mut self, tracks: Vec<TrackId>, cursor: Option<usize>)
        ensures
            final(self).queue == tracks,
            final(self).cursor == cursor,
    {
        self.queue = tracks;
        self.cursor = cursor;
    }

    /// The track at `index`, or an error past the end.
    pub fn track_at(&self, index: usize) -> (result: Result<TrackId, PlayerError>)
        ensures
            result is Ok == (index < self.queue@.len()),
            result is Ok ==> result->Ok_0@ == self.queue@[index as int]@,
            result is Err ==> result->Err_0 is Control && result->Err_0->Control_0@
                == "queue index "@ + decimal(index as nat) + " out of range"@,
    {
        if index < self.queue.len() {
            return Ok(self.queue[index].clone());
        }
        let mut text = "queue index ".to_owned();
        push_decimal(&mut text, index as u64);
        text.append(" out of range");
        Err(PlayerError::Control(text))
    }

    /// The track at `index` was handed to the engine.
    pub fn mark_loaded(&mut self, index: usize)
        ensures
            final(self).queue == old(self).queue,
            final(self).cursor == Some(index),
    {
        self.cursor = Some(index);
    }

    /// Playback stopped: no entry is loaded.
    pub fn mark_stopped(&mut self)
        ensures
            final(self).queue == old(self).queue,
            final(self).cursor is None,
    {
        self.cursor = None;
    }

    /// Whether a track is loaded, which `op` needs: playing, pausing and seeking
    /// fail without one.
    pub fn require_loaded(&self, op: &str) -> (result: Result<(), PlayerError>)
        ensures
            result is Ok == (self.cursor is Some),
            result is Err ==> result->Err_0 is Control && result->Err_0->Control_0@ == op@
                + ": no track loaded"@,
    {
        match self.cursor {
            Some(_) => Ok(()),
            None => Err(PlayerError::Control(joined(op, ": no track loaded"))),
        }
    }

    /// Skip forward: to the next entry, or to a stop at the end of the queue. An
    /// empty queue is an error.
    pub fn next(&self) -> (step: SkipStep)
        ensures
            self.queue@.len() == 0 ==> reports_empty_queue(step),
            self.queue@.len() > 0 ==> match index_after(self.cursor, self.queue@.len() as int) {
                Some(index) => step is Load && step->Load_0 == index,
                None => step is Stop,
            },
    {
        if self.queue.len() == 0 {
            return SkipStep::Fail(
                PlayerError::Control("cannot skip in an empty queue".to_owned()),
            );
        }
        match next_index(self.cursor, self.queue.len()) {
            Some(index) => SkipStep::Load(index),
            None => SkipStep::Stop,
        }
    }

    /// Skip back: to the previous entry; nothing at the first one. An empty
    /// queue is an error.
    pub fn previous(&self) -> (step: SkipStep)
        ensures
            self.queue@.len() == 0 ==> reports_empty_queue(step),
            self.queue@.len() > 0 ==> match index_before(self.cursor) {
                Some(index) => step is Load && step->Load_0 == index,
                None => step is Stay,
            },
    {
        if self.queue.len() == 0 {
            return SkipStep::Fail(
                PlayerError::Control("cannot skip in an empty queue".to_owned()),
            );
        }
        match previous_index(self.cursor) {
            Some(index) => SkipStep::Load(index),
            None => SkipStep::Stay,
        }
    }
}

} // verus!
