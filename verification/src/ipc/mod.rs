//! Now-playing IPC contract: the wire payload and where the socket lives.
//!
//! The running TUI serves a Unix socket; `spot-defy now-playing` connects,
//! reads one snapshot, and prints a tmux-safe status line. It never starts
//! librespot or the TUI, so it is safe to poll on a short interval:
//!
//! ```tmux
//! set -g status-interval 5
//! set -g status-right-length 100
//! set -g status-right "#(/path/to/spot-defy now-playing)"
//! ```

use vstd::prelude::*;
use crate::model::{clone_text, PlaybackSnapshot, PlaybackState, SnapshotView};
use crate::text::view_of;

pub mod laws;
pub mod now_playing_client;
pub mod server;

verus! {

/// The directory of the socket under the runtime/cache directory.
pub const SOCKET_DIR: &'static str = "spot-defy";

/// The Unix socket filename under the runtime/cache directory.
pub const SOCKET_FILE: &'static str = "spot-defy.sock";

/// The payload exchanged over the now-playing socket.
#[derive(Debug, PartialEq, Eq)]
pub struct NowPlayingPayload {
    pub track: Option<String>,
    pub artist: Option<String>,
    pub state: PlaybackState,
    pub position_ms: u32,
    pub duration_ms: u32,
}

/// What a [`NowPlayingPayload`] stands for.
#[verifier::ext_equal]
pub struct PayloadView {
    pub track: Option<Seq<char>>,
    pub artist: Option<Seq<char>>,
    pub state: PlaybackState,
    pub position_ms: u32,
    pub duration_ms: u32,
}

impl View for NowPlayingPayload {
    type V = PayloadView;

    open spec fn view(&self) -> PayloadView {
        PayloadView {
            track: view_of(self.track),
            artist: view_of(self.artist),
            state: self.state,
            position_ms: self.position_ms,
            duration_ms: self.duration_ms,
        }
    }
}

impl Clone for NowPlayingPayload {
    fn clone(&self) -> (copy: Self)
        ensures
            copy@ == self@,
    {
        NowPlayingPayload {
            track: clone_text(&self.track),
            artist: clone_text(&self.artist),
            state: self.state,
            position_ms: self.position_ms,
            duration_ms: self.duration_ms,
        }
    }
}

impl Default for NowPlayingPayload {
    fn default() -> (payload: Self)
        ensures
            payload@ == (PayloadView {
                track: None,
                artist: None,
                state: PlaybackState::Stopped,
                position_ms: 0,
                duration_ms: 0,
            }),
    {
        NowPlayingPayload {
            track: None,
            artist: None,
            state: PlaybackState::Stopped,
            position_ms: 0,
            duration_ms: 0,
        }
    }
}

/// The part of a snapshot that goes over the wire: all of it but the volume,
/// which the status line never shows.
pub open spec fn wire_part(snapshot: SnapshotView) -> PayloadView {
    PayloadView {
        track: snapshot.track,
        artist: snapshot.artist,
        state: snapshot.state,
        position_ms: snapshot.position_ms,
        duration_ms: snapshot.duration_ms,
    }
}

impl From<&PlaybackSnapshot> for NowPlayingPayload {
    /// Project a full [`PlaybackSnapshot`] onto the narrower IPC wire payload.
    fn from(snapshot: &PlaybackSnapshot) -> (payload: Self) {
        NowPlayingPayload {
            track: clone_text(&snapshot.track),
            artist: clone_text(&snapshot.artist),
            state: snapshot.state,
            position_ms: snapshot.position_ms,
            duration_ms: snapshot.duration_ms,
        }
    }
}

impl vstd::std_specs::convert::FromSpecImpl<&PlaybackSnapshot> for NowPlayingPayload {
    open spec fn obeys_from_spec() -> bool {
        true
    }

    open spec fn from_spec(snapshot: &PlaybackSnapshot) -> Self {
        NowPlayingPayload {
            track: snapshot.track,
            artist: snapshot.artist,
            state: snapshot.state,
            position_ms: snapshot.position_ms,
            duration_ms: snapshot.duration_ms,
        }
    }
}

/// The payload of a snapshot stands for its wire part.
pub proof fn the_payload_is_the_wire_part(snapshot: &PlaybackSnapshot)
    ensures
        <NowPlayingPayload as vstd::std_specs::convert::FromSpec<&PlaybackSnapshot>>::from_spec(
            snapshot,
        )@ == wire_part(snapshot@),
{
}

} // verus!
