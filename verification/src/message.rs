//! The `Message`/`Action` split.
//!
//! A [`Message`] is an input event fed to the reducer; it changes the model and
//! yields [`Action`]s. An [`Action`] is a side-effecting request that the event
//! loop carries out, sending further messages back.

use vstd::prelude::*;
use crate::api::SearchResultset;
use crate::error::ApiError;
use crate::keys::KeyEvent;
use crate::model::{
    AlbumArtImage, AlbumId, AlbumItem, ArtistItem, ArtView, PlaybackSnapshot, PlaylistId,
    PlaylistItem, SnapshotView, TimeRange, TrackId, TrackItem, TrackListSource,
};
use crate::player::PlaybackEvent;
use crate::state::Screen;
use crate::text::views;

verus! {

/// An event delivered to the reducer.
#[derive(Debug)]
pub enum Message {
    /// User requested to quit.
    Quit,
    /// Periodic tick (drives debounce + position interpolation).
    Tick,
    /// A raw key event.
    KeyPress(KeyEvent),
    /// The terminal was resized.
    Resize(u16, u16),
    /// Switch to a different screen.
    EnterScreen(Screen),
    /// Enter text-insertion mode.
    EnterInsertMode,
    /// Leave text-insertion mode.
    ExitInsertMode,
    /// A character was typed into the search box.
    SearchInputChar(char),
    /// Backspace in the search box.
    SearchBackspace,
    /// Submit the current search query.
    SearchSubmit,
    /// Search results returned from the API.
    SearchResults(Result<SearchResultset, ApiError>),
    /// Move selection to the next item.
    SelectNext,
    /// Move selection to the previous item.
    SelectPrevious,
    /// Move selection to the first item.
    SelectFirst,
    /// Move selection to the last item.
    SelectLast,
    /// Activate the selected item (open playlist, play track, ...).
    ActivateSelection,
    /// The user's playlists finished loading.
    PlaylistsLoaded(Result<Vec<PlaylistItem>, ApiError>),
    /// A requested track list finished loading.
    TrackListLoaded { source: TrackListSource, result: Result<Vec<TrackItem>, ApiError> },
    /// Top artists finished loading.
    TopArtistsLoaded(Result<Vec<ArtistItem>, ApiError>),
    /// Saved albums finished loading.
    SavedAlbumsLoaded(Result<Vec<AlbumItem>, ApiError>),
    /// A normalized playback event from the streaming engine.
    PlaybackEvent(PlaybackEvent),
    /// Toggle between play and pause.
    TogglePlayPause,
    /// Skip to the next queued track.
    NextTrack,
    /// Skip to the previous queued track.
    PrevTrack,
    /// Seek by a relative number of milliseconds (may be negative).
    SeekRelative(i32),
    /// Change the app (librespot) volume by a relative percentage.
    VolumeDelta(i16),
    /// Shuffle the queue, or restore its original order.
    ToggleShuffle,
    /// Switch to the next repeat mode.
    CycleRepeat,
    /// Like or unlike the playing track.
    ToggleLike,
    /// A like/unlike request was answered: whether the track is now saved.
    SavedToggled(Result<bool, ApiError>),
    /// Append the selected track to the queue.
    QueueSelected,
    /// Remove the selected queue row.
    RemoveQueued,
    /// A non-fatal error to surface in the UI.
    Error(String),
}

/// A side-effecting request produced by the reducer, executed by the event loop.
#[derive(Debug, Clone, PartialEq, Eq)]
pub enum Action {
    /// Run a search query.
    Search { query: String, limit: u32 },
    /// Load the user's playlists.
    LoadPlaylists,
    /// Load a playlist's tracks.
    LoadPlaylistTracks(PlaylistId),
    /// Load top tracks for a time window.
    LoadTopTracks(TimeRange),
    /// Load top artists for a time window.
    LoadTopArtists(TimeRange),
    /// Load recently played tracks.
    LoadRecentlyPlayed,
    /// Load saved tracks.
    LoadSavedTracks,
    /// Load the user's saved albums.
    LoadSavedAlbums,
    /// Load an album's tracks (then drill into the Tracks screen).
    LoadAlbumTracks(AlbumId),
    /// Load a list of tracks as the play queue, starting at `index`.
    PlayerLoad { queue: Vec<TrackId>, index: usize },
    /// Play the queue entry at this index.
    PlayerPlayIndex(usize),
    /// Replace the player's copy of the queue without touching playback.
    PlayerSetQueue { queue: Vec<TrackId>, cursor: Option<usize> },
    /// Resume playback.
    PlayerPlay,
    /// Pause playback.
    PlayerPause,
    /// Stop playback.
    PlayerStop,
    /// Advance to whatever the player considers next.
    PlayerNext,
    /// Preload this track while the current one is still playing.
    PlayerPreload(TrackId),
    /// Go back to whatever the player considers previous.
    PlayerPrev,
    /// Rebuild the dropped streaming session and resume the current track.
    PlayerReconnect,
    /// Seek to an absolute position.
    PlayerSeek(u32),
    /// Set absolute app (librespot) volume (0..=100).
    PlayerSetVolume(u16),
    /// Save the track to the library, or remove it where it is saved.
    ToggleSaved(TrackId),
    /// Download + decode the best now-playing album-art candidate for the pane.
    LoadAlbumArt(Vec<AlbumArtImage>),
    /// Publish a now-playing snapshot to the IPC layer.
    PublishNowPlaying(PlaybackSnapshot),
}

/// What an [`Action`] stands for.
pub enum ActionView {
    Search { query: Seq<char>, limit: u32 },
    LoadPlaylists,
    LoadPlaylistTracks(Seq<char>),
    LoadTopTracks(TimeRange),
    LoadTopArtists(TimeRange),
    LoadRecentlyPlayed,
    LoadSavedTracks,
    LoadSavedAlbums,
    LoadAlbumTracks(Seq<char>),
    PlayerLoad { queue: Seq<Seq<char>>, index: int },
    PlayerPlayIndex(int),
    PlayerSetQueue { queue: Seq<Seq<char>>, cursor: Option<usize> },
    PlayerPlay,
    PlayerPause,
    PlayerStop,
    PlayerNext,
    PlayerPreload(Seq<char>),
    PlayerPrev,
    PlayerReconnect,
    PlayerSeek(int),
    PlayerSetVolume(int),
    ToggleSaved(Seq<char>),
    LoadAlbumArt(Seq<ArtView>),
    PublishNowPlaying(SnapshotView),
}

impl View for Action {
    type V = ActionView;

    open spec fn view(&self) -> ActionView {
        match self {
            Action::Search { query, limit } => ActionView::Search { query: query@, limit: *limit },
            Action::LoadPlaylists => ActionView::LoadPlaylists,
            Action::LoadPlaylistTracks(id) => ActionView::LoadPlaylistTracks(id@),
            Action::LoadTopTracks(range) => ActionView::LoadTopTracks(*range),
            Action::LoadTopArtists(range) => ActionView::LoadTopArtists(*range),
            Action::LoadRecentlyPlayed => ActionView::LoadRecentlyPlayed,
            Action::LoadSavedTracks => ActionView::LoadSavedTracks,
            Action::LoadSavedAlbums => ActionView::LoadSavedAlbums,
            Action::LoadAlbumTracks(id) => ActionView::LoadAlbumTracks(id@),
            Action::PlayerLoad { queue, index } => ActionView::PlayerLoad {
                queue: views(queue@),
                index: *index as int,
            },
            Action::PlayerPlayIndex(index) => ActionView::PlayerPlayIndex(*index as int),
            Action::PlayerSetQueue { queue, cursor } => ActionView::PlayerSetQueue {
                queue: views(queue@),
                cursor: *cursor,
            },
            Action::PlayerPlay => ActionView::PlayerPlay,
            Action::PlayerPause => ActionView::PlayerPause,
            Action::PlayerStop => ActionView::PlayerStop,
            Action::PlayerNext => ActionView::PlayerNext,
            Action::PlayerPreload(id) => ActionView::PlayerPreload(id@),
            Action::PlayerPrev => ActionView::PlayerPrev,
            Action::PlayerReconnect => ActionView::PlayerReconnect,
            Action::PlayerSeek(position_ms) => ActionView::PlayerSeek(*position_ms as int),
            Action::PlayerSetVolume(volume) => ActionView::PlayerSetVolume(*volume as int),
            Action::ToggleSaved(id) => ActionView::ToggleSaved(id@),
            Action::LoadAlbumArt(images) => ActionView::LoadAlbumArt(views(images@)),
            Action::PublishNowPlaying(snapshot) => ActionView::PublishNowPlaying(snapshot@),
        }
    }
}

/// No action.
pub fn no_actions() -> (actions: Vec<Action>)
    ensures
        views(actions@) == Seq::<ActionView>::empty(),
{
    let actions: Vec<Action> = Vec::new();
    assert(views(actions@) =~= Seq::<ActionView>::empty());
    actions
}

/// One action.
pub fn one_action(action: Action) -> (actions: Vec<Action>)
    ensures
        views(actions@) == seq![action@],
{
    let mut actions: Vec<Action> = Vec::new();
    actions.push(action);
    assert(views(actions@) =~= seq![action@]);
    actions
}

/// Appends `action` to `actions`.
pub fn push_action(actions: &mut Vec<Action>, action: Action)
    ensures
        views(final(actions)@) == views(old(actions)@).push(action@),
{
    actions.push(action);
    assert(views(actions@) =~= views(old(actions)@).push(action@));
}

} // verus!
