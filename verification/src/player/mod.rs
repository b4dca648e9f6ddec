//! The streaming boundary: events of the audio engine and the rules around it.

use vstd::prelude::*;
use crate::model::TrackId;

pub mod laws;
pub mod librespot_player;

verus! {

/// A normalized subset of the streaming engine's events, surfaced to the UI.
#[derive(Debug, Clone, PartialEq, Eq)]
pub enum PlaybackEvent {
    /// A track started loading.
    Loading { track: TrackId },
    /// Playback started or resumed.
    Playing { track: TrackId, position_ms: u32 },
    /// Playback paused.
    Paused { track: TrackId, position_ms: u32 },
    /// The current track finished.
    EndOfTrack { track: TrackId },
    /// The current track is close enough to ending that the next queue item
    /// should be preloaded.
    PreloadNext { track: TrackId },
    /// Playback stopped without loading another track.
    Stopped { track: TrackId },
    /// A periodic position update while playing.
    PositionUpdate { position_ms: u32 },
    /// App (librespot) volume changed (0..=100 percentage).
    VolumeChanged { volume: u16 },
    /// The track is unavailable (region-restricted or not playable) — not a
    /// Premium gate.
    Unavailable { track: TrackId },
    /// The streaming session ended or errored.
    SessionDisconnected,
}

} // verus!
