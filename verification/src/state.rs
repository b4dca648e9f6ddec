//! The `Model`: all UI state, including widget state carried across frames.
//!
//! Screens and input modes are enums, not boolean flags. [`ModelView`] is the
//! mathematical value of a model; the reducer's rules are stated over it.

use vstd::prelude::*;
use crate::api::{no_results, SearchResultset, SearchResultsView};
use crate::clock::{nanos_between, Clock, Moment};
use crate::config::{
    binding_names, Color, Config, ConfigError, ConfigErrorView, Keybindings, ThemeColors,
};
use crate::model::{
    first_with_id, position_of, stopped_snapshot, AlbumItem, AlbumView, ArtistItem, ArtistView,
    PlaybackSnapshot, PlaylistItem, PlaylistView, SnapshotView, SourceView, TrackId, TrackItem,
    TrackListSource, TrackView,
};
use crate::text::{utf8_total, view_of, views};

verus! {

/// Top-level screen the user is currently viewing.
#[derive(Debug, Clone, Copy, PartialEq, Eq, Structural)]
pub enum Screen {
    /// Search across tracks/albums/artists/playlists.
    Search,
    /// The user's playlists.
    Playlists,
    /// Tracks of the selected playlist or album.
    Tracks,
    /// Library / top-items discovery.
    Library,
    /// The playback queue.
    Queue,
}

/// Input mode (vim-style): `Normal` for navigation, `Insert` for text entry.
#[derive(Debug, Clone, Copy, PartialEq, Eq, Structural)]
pub enum Mode {
    /// Key presses navigate and trigger actions.
    Normal,
    /// Key presses edit the search query.
    Insert,
}

/// Health of the streaming playback session.
///
/// Distinguishes a single unplayable track (skip it) from a dead session where
/// every track fails (reconnect once, instead of skipping the whole queue).
#[derive(Debug, Clone, Copy, PartialEq, Eq, Structural)]
pub enum PlaybackHealth {
    /// The last load succeeded, or none has been attempted: the normal state.
    Healthy,
    /// `n` consecutive tracks were unavailable, still below the reconnect
    /// threshold, so keep skipping.
    Skipping(u32),
    /// A reconnect has been requested; `n` counts failures skipped since, bounded
    /// so a fully-unplayable queue stops rather than skip-storming to the end.
    Reconnecting(u32),
}

/// What playback does when a track or the queue ends.
#[derive(Debug, Clone, Copy, PartialEq, Eq, Structural)]
pub enum RepeatMode {
    /// Stop after the last queued track.
    Off,
    /// Start over from the first queued track.
    All,
    /// Play the same track again.
    One,
}

impl RepeatMode {
    /// The mode after this one: off, all, one, and off again.
    pub open spec fn following(self) -> RepeatMode {
        match self {
            RepeatMode::Off => RepeatMode::All,
            RepeatMode::All => RepeatMode::One,
            RepeatMode::One => RepeatMode::Off,
        }
    }

    /// The mode after this one: off, all, one, and off again.
    pub fn cycled(self) -> (mode: RepeatMode)
        ensures
            mode == self.following(),
    {
        match self {
            RepeatMode::Off => RepeatMode::All,
            RepeatMode::All => RepeatMode::One,
            RepeatMode::One => RepeatMode::Off,
        }
    }
}

/// Where a dataset stands: never asked for, in flight, loaded, or failed.
#[derive(Debug, Clone, Copy, PartialEq, Eq, Structural)]
pub enum LoadPhase {
    /// Not requested, or no longer trusted.
    Idle,
    /// A request is in flight.
    Loading,
    /// The data arrived at this moment.
    Loaded(Moment),
    /// The last request failed.
    Failed,
}

impl LoadPhase {
    /// Whether the data arrived less than `ttl_secs` seconds before `now`.
    pub open spec fn fresh(self, now: Moment, ttl_secs: int) -> bool {
        match self {
            LoadPhase::Loaded(at) => nanos_between(at, now) < ttl_secs * 1_000_000_000,
            _ => false,
        }
    }

    /// Whether the data arrived less than `ttl_secs` seconds before `now`.
    pub fn is_fresh(self, now: Moment, ttl_secs: u64) -> (fresh: bool)
        ensures
            fresh == self.fresh(now, ttl_secs as int),
    {
        match self {
            LoadPhase::Loaded(at) => {
                let ttl_nanos: u128 = ttl_secs as u128 * 1_000_000_000;
                now.nanos_since(at) < ttl_nanos
            },
            _ => false,
        }
    }
}

/// Sub-views of the Library/discovery screen, cycled with Tab/Shift-Tab.
#[derive(Debug, Clone, Copy, PartialEq, Eq, Structural)]
pub enum LibraryTab {
    /// The user's top tracks (`/me/top/tracks`).
    TopTracks,
    /// The user's saved albums (`/me/albums`).
    Albums,
    /// The user's top artists (`/me/top/artists`).
    TopArtists,
    /// Recently played tracks.
    RecentlyPlayed,
    /// Saved (liked) tracks.
    Saved,
}

impl LibraryTab {
    /// All tabs in display/cycle order.
    pub const ALL: [LibraryTab; 5] = [
        LibraryTab::TopTracks,
        LibraryTab::Albums,
        LibraryTab::TopArtists,
        LibraryTab::RecentlyPlayed,
        LibraryTab::Saved,
    ];

    /// The place of this tab in display/cycle order.
    pub open spec fn place(self) -> int {
        match self {
            LibraryTab::TopTracks => 0,
            LibraryTab::Albums => 1,
            LibraryTab::TopArtists => 2,
            LibraryTab::RecentlyPlayed => 3,
            LibraryTab::Saved => 4,
        }
    }

    /// Short label for the tab bar.
    pub open spec fn label_text(self) -> Seq<char> {
        match self {
            LibraryTab::TopTracks => "Top Tracks"@,
            LibraryTab::Albums => "Albums"@,
            LibraryTab::TopArtists => "Top Artists"@,
            LibraryTab::RecentlyPlayed => "Recently Played"@,
            LibraryTab::Saved => "Saved"@,
        }
    }

    /// Short label for the tab bar.
    #[must_use]
    pub fn label(self) -> (label: &'static str)
        ensures
            label@ == self.label_text(),
    {
        match self {
            LibraryTab::TopTracks => "Top Tracks",
            LibraryTab::Albums => "Albums",
            LibraryTab::TopArtists => "Top Artists",
            LibraryTab::RecentlyPlayed => "Recently Played",
            LibraryTab::Saved => "Saved",
        }
    }

    /// The neighbouring tab, wrapping around.
    pub open spec fn moved(self, forward: bool) -> LibraryTab {
        let place = (self.place() + if forward { 1int } else { 4int }) % 5;
        if place == 0 {
            LibraryTab::TopTracks
        } else if place == 1 {
            LibraryTab::Albums
        } else if place == 2 {
            LibraryTab::TopArtists
        } else if place == 3 {
            LibraryTab::RecentlyPlayed
        } else {
            LibraryTab::Saved
        }
    }

    /// The next (`forward`) or previous tab, wrapping around.
    #[must_use]
    pub fn cycled(self, forward: bool) -> (tab: LibraryTab)
        ensures
            tab == self.moved(forward),
            tab.place() == (self.place() + if forward { 1int } else { 4int }) % 5,
    {
        match (self, forward) {
            (LibraryTab::Saved, true) | (LibraryTab::Albums, false) => LibraryTab::TopTracks,
            (LibraryTab::TopTracks, true) | (LibraryTab::TopArtists, false) => LibraryTab::Albums,
            (LibraryTab::Albums, true) | (LibraryTab::RecentlyPlayed, false) =>
                LibraryTab::TopArtists,
            (LibraryTab::TopArtists, true) | (LibraryTab::Saved, false) =>
                LibraryTab::RecentlyPlayed,
            (LibraryTab::RecentlyPlayed, true) | (LibraryTab::TopTracks, false) =>
                LibraryTab::Saved,
        }
    }
}

/// Result lanes of the Search screen, cycled with Tab/Shift-Tab.
#[derive(Debug, Clone, Copy, PartialEq, Eq, Structural)]
pub enum SearchTab {
    /// Track results (the primary lane).
    Tracks,
    /// Album results.
    Albums,
    /// Artist results.
    Artists,
    /// Playlist results.
    Playlists,
}

impl SearchTab {
    /// All lanes in display/cycle order.
    pub const ALL: [SearchTab; 4] = [
        SearchTab::Tracks,
        SearchTab::Albums,
        SearchTab::Artists,
        SearchTab::Playlists,
    ];

    /// The place of this lane in display/cycle order.
    pub open spec fn place(self) -> int {
        match self {
            SearchTab::Tracks => 0,
            SearchTab::Albums => 1,
            SearchTab::Artists => 2,
            SearchTab::Playlists => 3,
        }
    }

    /// Short label for the lane tab bar.
    pub open spec fn label_text(self) -> Seq<char> {
        match self {
            SearchTab::Tracks => "Tracks"@,
            SearchTab::Albums => "Albums"@,
            SearchTab::Artists => "Artists"@,
            SearchTab::Playlists => "Playlists"@,
        }
    }

    /// Short label for the lane tab bar.
    #[must_use]
    pub fn label(self) -> (label: &'static str)
        ensures
            label@ == self.label_text(),
    {
        match self {
            SearchTab::Tracks => "Tracks",
            SearchTab::Albums => "Albums",
            SearchTab::Artists => "Artists",
            SearchTab::Playlists => "Playlists",
        }
    }

    /// The neighbouring lane, wrapping around.
    pub open spec fn moved(self, forward: bool) -> SearchTab {
        let place = (self.place() + if forward { 1int } else { 3int }) % 4;
        if place == 0 {
            SearchTab::Tracks
        } else if place == 1 {
            SearchTab::Albums
        } else if place == 2 {
            SearchTab::Artists
        } else {
            SearchTab::Playlists
        }
    }

    /// The next (`forward`) or previous lane, wrapping around.
    #[must_use]
    pub fn cycled(self, forward: bool) -> (tab: SearchTab)
        ensures
            tab == self.moved(forward),
            tab.place() == (self.place() + if forward { 1int } else { 3int }) % 4,
    {
        match (self, forward) {
            (SearchTab::Playlists, true) | (SearchTab::Albums, false) => SearchTab::Tracks,
            (SearchTab::Tracks, true) | (SearchTab::Artists, false) => SearchTab::Albums,
            (SearchTab::Albums, true) | (SearchTab::Playlists, false) => SearchTab::Artists,
            (SearchTab::Artists, true) | (SearchTab::Tracks, false) => SearchTab::Playlists,
        }
    }
}

/// Search input buffer and debounce bookkeeping.
#[derive(Debug)]
pub struct SearchState {
    /// Current query text.
    pub query: String,
    /// Cursor byte offset within `query`.
    pub cursor: usize,
    /// When the last character was entered (for debounce).
    pub last_input: Moment,
    /// Whether a debounced search is pending dispatch.
    pub pending: bool,
}

/// What a [`SearchState`] stands for.
#[verifier::ext_equal]
pub struct SearchView {
    pub query: Seq<char>,
    /// Cursor byte offset within the query.
    pub cursor: int,
    pub last_input: Moment,
    pub pending: bool,
}

impl View for SearchState {
    type V = SearchView;

    open spec fn view(&self) -> SearchView {
        SearchView {
            query: self.query@,
            cursor: self.cursor as int,
            last_input: self.last_input,
            pending: self.pending,
        }
    }
}

impl SearchView {
    /// Whether the cursor sits before the character at index `at` (or at the
    /// end, where `at` is the number of characters).
    pub open spec fn cursor_at(self, at: int) -> bool {
        0 <= at <= self.query.len() && utf8_total(self.query.take(at)) == self.cursor
    }

    /// Whether the cursor sits on a character boundary of the query.
    pub open spec fn wf(self) -> bool {
        exists|at: int| self.cursor_at(at)
    }
}

impl SearchState {
    /// An empty query, last edited at `now`.
    pub fn new(now: Moment) -> (search: SearchState)
        ensures
            search@ == (SearchView {
                query: Seq::empty(),
                cursor: 0,
                last_input: now,
                pending: false,
            }),
            search@.wf(),
    {
        let search = SearchState {
            query: String::new(),
            cursor: 0,
            last_input: now,
            pending: false,
        };
        assert(search.query@ =~= Seq::<char>::empty());
        assert(search@.cursor_at(0));
        search
    }
}

/// Selection and scroll position of the active list.
#[derive(Debug, Clone, Copy, PartialEq, Eq, Structural)]
pub struct ListState {
    pub offset: usize,
    pub selected: Option<usize>,
}

impl ListState {
    /// The state with `index` selected; clearing the selection scrolls back to
    /// the top.
    pub open spec fn selecting(self, index: Option<usize>) -> ListState {
        ListState {
            offset: if index is None {
                0
            } else {
                self.offset
            },
            selected: index,
        }
    }

    /// The selected row.
    pub fn selected(&self) -> (index: Option<usize>)
        ensures
            index == self.selected,
    {
        self.selected
    }

    /// Select a row, or none; clearing the selection scrolls back to the top.
    pub fn select(&mut self, index: Option<usize>)
        ensures
            *final(self) == old(self).selecting(index),
    {
        self.selected = index;
        if index.is_none() {
            self.offset = 0;
        }
    }
}

/// The complete UI model.
#[derive(Debug)]
pub struct Model {
    /// User-configured normal-mode keybindings.
    pub keybindings: Keybindings,
    /// User-configured renderer colors.
    pub theme: ThemeColors,
    /// Active screen.
    pub screen: Screen,
    /// Active input mode.
    pub mode: Mode,
    /// Search buffer and debounce state.
    pub search: SearchState,
    /// Active result lane on the Search screen.
    pub search_tab: SearchTab,
    /// Active sub-tab on the Library screen.
    pub library_tab: LibraryTab,
    /// Selection state for the active list.
    pub list_state: ListState,
    /// Loaded playlists (Playlists screen).
    pub playlists: Vec<PlaylistItem>,
    /// Where the playlists stand.
    pub playlists_phase: LoadPhase,
    /// Loaded tracks (playlist tracks or the track-based Library tabs).
    pub tracks: Vec<TrackItem>,
    /// Where the tracks stand.
    pub tracks_phase: LoadPhase,
    /// Source that most recently requested ownership of `tracks`.
    pub track_list_source: Option<TrackListSource>,
    /// The screen the Tracks screen was entered from.
    pub tracks_origin: Screen,
    /// Loaded artists (the Library "Top Artists" tab).
    pub artists: Vec<ArtistItem>,
    /// Where the artists stand.
    pub artists_phase: LoadPhase,
    /// Loaded saved albums (the Library "Albums" tab).
    pub albums: Vec<AlbumItem>,
    /// Where the albums stand.
    pub albums_phase: LoadPhase,
    /// The latest multi-lane search results (Search screen).
    pub search_results: SearchResultset,
    /// Where the search stands.
    pub search_phase: LoadPhase,
    /// Latest now-playing snapshot rendered in the footer.
    pub now_playing: PlaybackSnapshot,
    /// The track playback is expected to be on; events of others are stale.
    pub now_playing_track: Option<TrackId>,
    /// The track whose metadata `now_playing` shows.
    pub now_playing_metadata_track: Option<TrackId>,
    /// The playback queue, in play order.
    pub playback_queue: Vec<TrackItem>,
    /// The queue entry playback is on.
    pub playback_queue_cursor: Option<usize>,
    /// Whether the queue is shuffled.
    pub shuffle: bool,
    /// While shuffled: for each queue entry, its place in the original order.
    pub shuffle_order: Option<Vec<usize>>,
    /// What happens when a track or the queue ends.
    pub repeat: RepeatMode,
    /// Streaming-session health, tracking consecutive unavailable tracks so a
    /// dead session reconnects instead of skipping the whole queue.
    pub playback_health: PlaybackHealth,
    /// Transient error/status message shown in the footer, if any.
    pub status: Option<String>,
    /// Deadline for the transient volume popup after a user volume change.
    pub volume_overlay_until: Option<Moment>,
    /// Whether a like/unlike request is still unanswered.
    pub like_in_flight: bool,
    /// Set when the event loop should exit.
    pub should_quit: bool,
    /// The clock that the reducer reads.
    pub clock: Clock,
}

/// What a [`Model`] stands for.
#[verifier::ext_equal]
pub struct ModelView {
    pub keybindings: Keybindings,
    pub theme: ThemeColors,
    pub screen: Screen,
    pub mode: Mode,
    pub search: SearchView,
    pub search_tab: SearchTab,
    pub library_tab: LibraryTab,
    pub list: ListState,
    pub playlists: Seq<PlaylistView>,
    pub playlists_phase: LoadPhase,
    pub tracks: Seq<TrackView>,
    pub tracks_phase: LoadPhase,
    pub track_list_source: Option<SourceView>,
    pub tracks_origin: Screen,
    pub artists: Seq<ArtistView>,
    pub artists_phase: LoadPhase,
    pub albums: Seq<AlbumView>,
    pub albums_phase: LoadPhase,
    pub search_results: SearchResultsView,
    pub search_phase: LoadPhase,
    pub now_playing: SnapshotView,
    pub now_playing_track: Option<Seq<char>>,
    pub now_playing_metadata_track: Option<Seq<char>>,
    pub queue: Seq<TrackView>,
    pub cursor: Option<usize>,
    pub shuffle: bool,
    pub shuffle_order: Option<Seq<usize>>,
    pub repeat: RepeatMode,
    pub health: PlaybackHealth,
    pub status: Option<Seq<char>>,
    pub volume_overlay_until: Option<Moment>,
    pub like_in_flight: bool,
    pub should_quit: bool,
    pub clock: Clock,
}

impl View for Model {
    type V = ModelView;

    open spec fn view(&self) -> ModelView {
        ModelView {
            keybindings: self.keybindings,
            theme: self.theme,
            screen: self.screen,
            mode: self.mode,
            search: self.search@,
            search_tab: self.search_tab,
            library_tab: self.library_tab,
            list: self.list_state,
            playlists: views(self.playlists@),
            playlists_phase: self.playlists_phase,
            tracks: views(self.tracks@),
            tracks_phase: self.tracks_phase,
            track_list_source: view_of(self.track_list_source),
            tracks_origin: self.tracks_origin,
            artists: views(self.artists@),
            artists_phase: self.artists_phase,
            albums: views(self.albums@),
            albums_phase: self.albums_phase,
            search_results: self.search_results@,
            search_phase: self.search_phase,
            now_playing: self.now_playing@,
            now_playing_track: view_of(self.now_playing_track),
            now_playing_metadata_track: view_of(self.now_playing_metadata_track),
            queue: views(self.playback_queue@),
            cursor: self.playback_queue_cursor,
            shuffle: self.shuffle,
            shuffle_order: view_of(self.shuffle_order),
            repeat: self.repeat,
            health: self.playback_health,
            status: view_of(self.status),
            volume_overlay_until: self.volume_overlay_until,
            like_in_flight: self.like_in_flight,
            should_quit: self.should_quit,
            clock: self.clock,
        }
    }
}

impl ModelView {
    /// Whether the search cursor sits on a character boundary.
    pub open spec fn wf(self) -> bool {
        self.search.wf()
    }

    /// Number of rows in the list currently visible for the active screen/tab.
    pub open spec fn active_len(self) -> nat {
        match self.screen {
            Screen::Playlists => self.playlists.len(),
            Screen::Tracks => self.tracks.len(),
            Screen::Library => match self.library_tab {
                LibraryTab::Albums => self.albums.len(),
                LibraryTab::TopArtists => self.artists.len(),
                LibraryTab::TopTracks | LibraryTab::RecentlyPlayed | LibraryTab::Saved =>
                    self.tracks.len(),
            },
            Screen::Search => match self.search_tab {
                SearchTab::Tracks => self.search_results.tracks.len(),
                SearchTab::Albums => self.search_results.albums.len(),
                SearchTab::Artists => self.search_results.artists.len(),
                SearchTab::Playlists => self.search_results.playlists.len(),
            },
            Screen::Queue => self.queue.len(),
        }
    }

    /// The model with the first row selected, or nothing where the visible list
    /// is empty.
    pub open spec fn selection_reset(self) -> ModelView {
        ModelView {
            list: self.list.selecting(
                if self.active_len() > 0 {
                    Some(0usize)
                } else {
                    None
                },
            ),
            ..self
        }
    }

    /// The model showing `text` in the footer.
    pub open spec fn with_status(self, text: Seq<char>) -> ModelView {
        ModelView { status: Some(text), ..self }
    }

    /// The first loaded track with the id `id`, looking through the track list
    /// and then the search results.
    pub open spec fn loaded_track(self, id: Seq<char>) -> Option<TrackView> {
        match found(self.tracks, id) {
            Some(track) => Some(track),
            None => found(self.search_results.tracks, id),
        }
    }
}

/// The first of `tracks` with the id `id`.
pub open spec fn found(tracks: Seq<TrackView>, id: Seq<char>) -> Option<TrackView> {
    match first_with_id(tracks, id) {
        Some(index) => Some(tracks[index]),
        None => None,
    }
}

/// The first of `tracks` with the id `id`.
pub fn find_in<'a>(tracks: &'a Vec<TrackItem>, id: &TrackId) -> (track: Option<&'a TrackItem>)
    ensures
        view_of(track) == found(views(tracks@), id@),
{
    match position_of(tracks, id) {
        Some(index) => Some(&tracks[index]),
        None => None,
    }
}

/// The state of a fresh model over `clock`, started at `now`.
pub open spec fn fresh_model(
    clock: Clock,
    now: Moment,
    keybindings: Keybindings,
    theme: ThemeColors,
) -> ModelView {
    ModelView {
        keybindings,
        theme,
        screen: Screen::Search,
        mode: Mode::Normal,
        search: SearchView { query: Seq::empty(), cursor: 0, last_input: now, pending: false },
        search_tab: SearchTab::Tracks,
        library_tab: LibraryTab::TopTracks,
        list: ListState { offset: 0, selected: None },
        playlists: Seq::empty(),
        playlists_phase: LoadPhase::Idle,
        tracks: Seq::empty(),
        tracks_phase: LoadPhase::Idle,
        track_list_source: None,
        tracks_origin: Screen::Search,
        artists: Seq::empty(),
        artists_phase: LoadPhase::Idle,
        albums: Seq::empty(),
        albums_phase: LoadPhase::Idle,
        search_results: no_results(),
        search_phase: LoadPhase::Idle,
        now_playing: stopped_snapshot(0),
        now_playing_track: None,
        now_playing_metadata_track: None,
        queue: Seq::empty(),
        cursor: None,
        shuffle: false,
        shuffle_order: None,
        repeat: RepeatMode::Off,
        health: PlaybackHealth::Healthy,
        status: None,
        volume_overlay_until: None,
        like_in_flight: false,
        should_quit: false,
        clock,
    }
}

impl Model {
    /// A fresh model over `clock`, started at `now`.
    fn fresh(
        clock: Clock,
        now: Moment,
        keybindings: Keybindings,
        theme: ThemeColors,
    ) -> (model: Model)
        ensures
            model@ == fresh_model(clock, now, keybindings, theme),
            model@.wf(),
    {
        let model = Model {
            keybindings,
            theme,
            screen: Screen::Search,
            mode: Mode::Normal,
            search: SearchState::new(now),
            search_tab: SearchTab::Tracks,
            library_tab: LibraryTab::TopTracks,
            list_state: ListState { offset: 0, selected: None },
            playlists: Vec::new(),
            playlists_phase: LoadPhase::Idle,
            tracks: Vec::new(),
            tracks_phase: LoadPhase::Idle,
            track_list_source: None,
            tracks_origin: Screen::Search,
            artists: Vec::new(),
            artists_phase: LoadPhase::Idle,
            albums: Vec::new(),
            albums_phase: LoadPhase::Idle,
            search_results: SearchResultset::default(),
            search_phase: LoadPhase::Idle,
            now_playing: PlaybackSnapshot::default(),
            now_playing_track: None,
            now_playing_metadata_track: None,
            playback_queue: Vec::new(),
            playback_queue_cursor: None,
            shuffle: false,
            shuffle_order: None,
            repeat: RepeatMode::Off,
            playback_health: PlaybackHealth::Healthy,
            status: None,
            volume_overlay_until: None,
            like_in_flight: false,
            should_quit: false,
            clock,
        };
        assert(model@ =~= fresh_model(clock, now, keybindings, theme));
        model
    }

    /// Create a fresh model with default state.
    #[must_use]
    pub fn new() -> (model: Model)
        ensures
            model@ == fresh_model(
                model.clock,
                model.search.last_input,
                model.keybindings,
                model.theme,
            ),
            model.keybindings.keys() == seq!['q', 'j', 'k', ' ', 'n', 'p', '/'],
            model.theme == (ThemeColors {
                accent: Color::Green,
                progress: Color::Cyan,
                dim: Color::Gray,
            }),
            model@.wf(),
    {
        let clock = Clock::start();
        Model::fresh(clock, clock.now(), Keybindings::default(), ThemeColors::default())
    }

    /// Create a fresh model using the loaded user config, rejecting
    /// keybindings that conflict and theme colors that name no color.
    pub fn from_config(config: &Config) -> (result: Result<Model, ConfigError>)
        ensures
            result is Ok == (config.keybindings.distinct() && config.theme.colors_spec() is Ok),
            result is Ok ==> ({
                let model = result->Ok_0;
                &&& config.theme.colors_spec() == Ok::<ThemeColors, ConfigErrorView>(model.theme)
                &&& model@ == fresh_model(
                    model.clock,
                    model.search.last_input,
                    config.keybindings,
                    model.theme,
                )
                &&& model@.wf()
            }),
            result is Err && config.keybindings.distinct() ==> config.theme.colors_spec() == Err::<
                ThemeColors,
                ConfigErrorView,
            >(result->Err_0@),
            result is Err && !config.keybindings.distinct() ==> exists|i: int, j: int| #[trigger]
                config.keybindings.first_conflict(i, j) && result->Err_0@
                    == ConfigErrorView::DuplicateKey(binding_names()[i], binding_names()[j]),
    {
        match config.validate() {
            Err(error) => Err(error),
            Ok(()) => match config.theme.colors() {
                Err(error) => Err(error),
                Ok(theme) => {
                    let clock = Clock::start();
                    Ok(Model::fresh(clock, clock.now(), config.keybindings, theme))
                },
            },
        }
    }

    /// Record a transient status/error message for the footer.
    pub fn set_error(&mut self, message: String)
        ensures
            final(self)@ == old(self)@.with_status(message@),
    {
        self.status = Some(message);
    }

    /// Clear any transient status/error message.
    pub fn clear_status(&mut self)
        ensures
            final(self)@ == (ModelView { status: None, ..old(self)@ }),
    {
        self.status = None;
    }

    /// Reset the selection cursor when the active list contents change.
    ///
    /// Selects the first row when the visible list is non-empty, otherwise
    /// clears the selection so the highlight does not point past the end.
    pub fn reset_selection(&mut self)
        ensures
            final(self)@ == old(self)@.selection_reset(),
    {
        let selected: Option<usize> = if self.active_len() > 0 {
            Some(0)
        } else {
            None
        };
        self.list_state.select(selected);
    }

    /// Number of rows in the list currently visible for the active screen/tab.
    #[must_use]
    pub fn active_len(&self) -> (len: usize)
        ensures
            len == self@.active_len(),
    {
        match self.screen {
            Screen::Playlists => self.playlists.len(),
            Screen::Tracks => self.tracks.len(),
            Screen::Library => match self.library_tab {
                LibraryTab::Albums => self.albums.len(),
                LibraryTab::TopArtists => self.artists.len(),
                LibraryTab::TopTracks | LibraryTab::RecentlyPlayed | LibraryTab::Saved =>
                    self.tracks.len(),
            },
            Screen::Search => match self.search_tab {
                SearchTab::Tracks => self.search_results.tracks.len(),
                SearchTab::Albums => self.search_results.albums.len(),
                SearchTab::Artists => self.search_results.artists.len(),
                SearchTab::Playlists => self.search_results.playlists.len(),
            },
            Screen::Queue => self.playback_queue.len(),
        }
    }

    /// Find a loaded track by id across the playlist/library and search lanes.
    ///
    /// Playback can be started from either the track lists or the search
    /// results, so now-playing metadata is resolved from both.
    #[must_use]
    pub fn find_track(&self, id: &TrackId) -> (track: Option<&TrackItem>)
        ensures
            view_of(track) == self@.loaded_track(id@),
    {
        match find_in(&self.tracks, id) {
            Some(track) => Some(track),
            None => find_in(&self.search_results.tracks, id),
        }
    }
}

} // verus!
