//! Lists on screen: tabs, rows, titles and empty-state hints.

use vstd::prelude::*;
use vstd::string::*;
use crate::model::{
    AlbumItem, AlbumView, ArtistItem, ArtistView, PlaylistItem, PlaylistView, TrackItem, TrackView,
};
use crate::state::{LibraryTab, LoadPhase, Model, ModelView, Screen, SearchTab};
use crate::text::{decimal, push_decimal, same_text, views};
use crate::view::lines::{clock_text, fmt_ms};

verus! {

/// How a piece of text is colored.
#[derive(Debug, Clone, Copy, PartialEq, Eq, Structural)]
pub enum Tone {
    Plain,
    Bold,
    Dim,
    Accent,
    AccentBold,
    Progress,
}

/// A piece of text in one tone.
#[derive(Debug, PartialEq, Eq)]
pub struct Span {
    pub text: String,
    pub tone: Tone,
}

/// What a [`Span`] stands for.
#[verifier::ext_equal]
pub struct SpanView {
    pub text: Seq<char>,
    pub tone: Tone,
}

impl View for Span {
    type V = SpanView;

    open spec fn view(&self) -> SpanView {
        SpanView { text: self.text@, tone: self.tone }
    }
}

/// One row of a list.
#[derive(Debug, PartialEq, Eq)]
pub struct Row {
    pub spans: Vec<Span>,
}

impl View for Row {
    type V = Seq<SpanView>;

    open spec fn view(&self) -> Seq<SpanView> {
        views(self.spans@)
    }
}

/// A span of `text` in `tone`.
pub open spec fn span_of(text: Seq<char>, tone: Tone) -> SpanView {
    SpanView { text, tone }
}

/// A span of `text` in `tone`.
fn span(text: &str, tone: Tone) -> (result: Span)
    ensures
        result@ == span_of(text@, tone),
{
    Span { text: text.to_owned(), tone }
}

/// `Artist  —  Title   M:SS`.
pub open spec fn track_spans(track: TrackView) -> Seq<SpanView> {
    seq![
        span_of(track.artist, Tone::Accent),
        span_of("  —  "@, Tone::Dim),
        span_of(track.title, Tone::Plain),
        span_of("   "@, Tone::Plain),
        span_of(clock_text(track.duration_ms as nat), Tone::Progress),
    ]
}

/// The same behind a note, for the playing row of the queue.
pub open spec fn playing_spans(track: TrackView) -> Seq<SpanView> {
    seq![
        span_of("♪ "@, Tone::Progress),
        span_of(track.artist, Tone::AccentBold),
        span_of("  —  "@, Tone::Dim),
        span_of(track.title, Tone::Bold),
        span_of("   "@, Tone::Plain),
        span_of(clock_text(track.duration_ms as nat), Tone::Progress),
    ]
}

/// `Artist  —  Album`.
pub open spec fn album_spans(album: AlbumView) -> Seq<SpanView> {
    seq![
        span_of(album.artist, Tone::Accent),
        span_of("  —  "@, Tone::Dim),
        span_of(album.name, Tone::Plain),
    ]
}

/// The artist's name.
pub open spec fn artist_spans(artist: ArtistView) -> Seq<SpanView> {
    seq![span_of(artist.name, Tone::Accent)]
}

/// `Name  ·  N tracks  ·  Owner`.
pub open spec fn playlist_spans(playlist: PlaylistView) -> Seq<SpanView> {
    seq![
        span_of(playlist.name, Tone::Plain),
        span_of("  ·  "@ + decimal(playlist.track_count as nat) + " tracks  ·  "@, Tone::Dim),
        span_of(playlist.owner, Tone::Dim),
    ]
}

/// Format a single track row as `Artist — Title   M:SS`.
pub fn track_row(track: &TrackItem) -> (row: Row)
    ensures
        row@ == track_spans(track@),
{
    let mut spans: Vec<Span> = Vec::new();
    spans.push(span(track.artist.as_str(), Tone::Accent));
    spans.push(span("  —  ", Tone::Dim));
    spans.push(span(track.title.as_str(), Tone::Plain));
    spans.push(span("   ", Tone::Plain));
    spans.push(span(fmt_ms(track.duration_ms).as_str(), Tone::Progress));
    assert(views(spans@) =~= track_spans(track@));
    Row { spans }
}

/// Format the queue row for the currently playing track: `♪` marker, accented.
pub fn now_playing_row(track: &TrackItem) -> (row: Row)
    ensures
        row@ == playing_spans(track@),
{
    let mut spans: Vec<Span> = Vec::new();
    spans.push(span("♪ ", Tone::Progress));
    spans.push(span(track.artist.as_str(), Tone::AccentBold));
    spans.push(span("  —  ", Tone::Dim));
    spans.push(span(track.title.as_str(), Tone::Bold));
    spans.push(span("   ", Tone::Plain));
    spans.push(span(fmt_ms(track.duration_ms).as_str(), Tone::Progress));
    assert(views(spans@) =~= playing_spans(track@));
    Row { spans }
}

/// Format a single album row as `Artist — Album`.
pub fn album_row(album: &AlbumItem) -> (row: Row)
    ensures
        row@ == album_spans(album@),
{
    let mut spans: Vec<Span> = Vec::new();
    spans.push(span(album.artist.as_str(), Tone::Accent));
    spans.push(span("  —  ", Tone::Dim));
    spans.push(span(album.name.as_str(), Tone::Plain));
    assert(views(spans@) =~= album_spans(album@));
    Row { spans }
}

/// Format a single artist row.
pub fn artist_row(artist: &ArtistItem) -> (row: Row)
    ensures
        row@ == artist_spans(artist@),
{
    let mut spans: Vec<Span> = Vec::new();
    spans.push(span(artist.name.as_str(), Tone::Accent));
    assert(views(spans@) =~= artist_spans(artist@));
    Row { spans }
}

/// Format a single playlist row as `Name · N tracks · Owner`.
pub fn playlist_row(playlist: &PlaylistItem) -> (row: Row)
    ensures
        row@ == playlist_spans(playlist@),
{
    let mut count = "  ·  ".to_owned();
    push_decimal(&mut count, playlist.track_count as u64);
    count.append(" tracks  ·  ");
    let mut spans: Vec<Span> = Vec::new();
    spans.push(span(playlist.name.as_str(), Tone::Plain));
    spans.push(span(count.as_str(), Tone::Dim));
    spans.push(span(playlist.owner.as_str(), Tone::Dim));
    assert(views(spans@) =~= playlist_spans(playlist@));
    Row { spans }
}

/// The rows of a track list.
pub open spec fn track_rows_of(tracks: Seq<TrackView>) -> Seq<Seq<SpanView>> {
    Seq::new(tracks.len(), |i: int| track_spans(tracks[i]))
}

/// The rows of the queue, the playing one marked.
pub open spec fn queue_rows_of(queue: Seq<TrackView>, cursor: Option<usize>) -> Seq<
    Seq<SpanView>,
> {
    Seq::new(
        queue.len(),
        |i: int|
            if cursor == Some(i as usize) {
                playing_spans(queue[i])
            } else {
                track_spans(queue[i])
            },
    )
}

/// The rows of a track list.
fn track_rows(tracks: &Vec<TrackItem>) -> (rows: Vec<Row>)
    ensures
        views(rows@) == track_rows_of(views(tracks@)),
{
    let mut rows: Vec<Row> = Vec::new();
    let mut i: usize = 0;
    while i < tracks.len()
        invariant
            i <= tracks@.len(),
            rows@.len() == i,
            forall|k: int| 0 <= k < i ==> (#[trigger] rows@[k])@ == track_spans(tracks@[k]@),
        decreases tracks@.len() - i,
    {
        rows.push(track_row(&tracks[i]));
        i = i + 1;
    }
    assert(views(rows@) =~= track_rows_of(views(tracks@)));
    rows
}

/// The rows of the queue, the playing one marked.
fn queue_rows(queue: &Vec<TrackItem>, cursor: Option<usize>) -> (rows: Vec<Row>)
    ensures
        views(rows@) == queue_rows_of(views(queue@), cursor),
{
    let mut rows: Vec<Row> = Vec::new();
    let mut i: usize = 0;
    while i < queue.len()
        invariant
            i <= queue@.len(),
            rows@.len() == i,
            forall|k: int|
                0 <= k < i ==> (#[trigger] rows@[k])@ == (if cursor == Some(k as usize) {
                    playing_spans(queue@[k]@)
                } else {
                    track_spans(queue@[k]@)
                }),
        decreases queue@.len() - i,
    {
        let playing: bool = match cursor {
            Some(at) => at == i,
            None => false,
        };
        if playing {
            rows.push(now_playing_row(&queue[i]));
        } else {
            rows.push(track_row(&queue[i]));
        }
        i = i + 1;
    }
    assert(views(rows@) =~= queue_rows_of(views(queue@), cursor));
    rows
}

/// The rows of an album list.
pub open spec fn album_rows_of(albums: Seq<AlbumView>) -> Seq<Seq<SpanView>> {
    Seq::new(albums.len(), |i: int| album_spans(albums[i]))
}

/// The rows of an album list.
fn album_rows(albums: &Vec<AlbumItem>) -> (rows: Vec<Row>)
    ensures
        views(rows@) == album_rows_of(views(albums@)),
{
    let mut rows: Vec<Row> = Vec::new();
    let mut i: usize = 0;
    while i < albums.len()
        invariant
            i <= albums@.len(),
            rows@.len() == i,
            forall|k: int| 0 <= k < i ==> (#[trigger] rows@[k])@ == album_spans(albums@[k]@),
        decreases albums@.len() - i,
    {
        rows.push(album_row(&albums[i]));
        i = i + 1;
    }
    assert(views(rows@) =~= album_rows_of(views(albums@)));
    rows
}

/// The rows of an artist list.
pub open spec fn artist_rows_of(artists: Seq<ArtistView>) -> Seq<Seq<SpanView>> {
    Seq::new(artists.len(), |i: int| artist_spans(artists[i]))
}

/// The rows of an artist list.
fn artist_rows(artists: &Vec<ArtistItem>) -> (rows: Vec<Row>)
    ensures
        views(rows@) == artist_rows_of(views(artists@)),
{
    let mut rows: Vec<Row> = Vec::new();
    let mut i: usize = 0;
    while i < artists.len()
        invariant
            i <= artists@.len(),
            rows@.len() == i,
            forall|k: int| 0 <= k < i ==> (#[trigger] rows@[k])@ == artist_spans(artists@[k]@),
        decreases artists@.len() - i,
    {
        rows.push(artist_row(&artists[i]));
        i = i + 1;
    }
    assert(views(rows@) =~= artist_rows_of(views(artists@)));
    rows
}

/// The rows of a playlist list.
pub open spec fn playlist_rows_of(playlists: Seq<PlaylistView>) -> Seq<Seq<SpanView>> {
    Seq::new(playlists.len(), |i: int| playlist_spans(playlists[i]))
}

/// The rows of a playlist list.
fn playlist_rows(playlists: &Vec<PlaylistItem>) -> (rows: Vec<Row>)
    ensures
        views(rows@) == playlist_rows_of(views(playlists@)),
{
    let mut rows: Vec<Row> = Vec::new();
    let mut i: usize = 0;
    while i < playlists.len()
        invariant
            i <= playlists@.len(),
            rows@.len() == i,
            forall|k: int|
                0 <= k < i ==> (#[trigger] rows@[k])@ == playlist_spans(playlists@[k]@),
        decreases playlists@.len() - i,
    {
        rows.push(playlist_row(&playlists[i]));
        i = i + 1;
    }
    assert(views(rows@) =~= playlist_rows_of(views(playlists@)));
    rows
}

/// Retry hint for a failed search.
pub open spec fn search_retry(m: ModelView) -> Seq<char> {
    if m.keybindings.keys().contains('r') {
        "Search failed — edit the query and press Enter."@
    } else {
        "Search failed — press r to retry."@
    }
}

/// Retry hint for a failed search, honest about which key actually retries.
pub fn search_retry_hint(model: &Model) -> (hint: &'static str)
    ensures
        hint@ == search_retry(model@),
{
    if model.keybindings.uses('r') {
        "Search failed — edit the query and press Enter."
    } else {
        "Search failed — press r to retry."
    }
}

/// Retry hint for a failed list load.
pub open spec fn load_retry(m: ModelView) -> Seq<char> {
    if m.keybindings.keys().contains('r') {
        "Couldn't load — leave and re-enter to retry."@
    } else {
        "Couldn't load — press r to retry."@
    }
}

/// Retry hint for a failed list load, honest about which key actually retries.
pub fn load_retry_hint(model: &Model) -> (hint: &'static str)
    ensures
        hint@ == load_retry(model@),
{
    if model.keybindings.uses('r') {
        "Couldn't load — leave and re-enter to retry."
    } else {
        "Couldn't load — press r to retry."
    }
}

/// Empty-state hint for a Library sub-tab.
pub open spec fn library_hint(tab: LibraryTab, phase: LoadPhase, retry: Seq<char>) -> Seq<char> {
    match phase {
        LoadPhase::Idle | LoadPhase::Loading => match tab {
            LibraryTab::TopTracks => "Loading your top tracks…"@,
            LibraryTab::Albums => "Loading your albums…"@,
            LibraryTab::TopArtists => "Loading your top artists…"@,
            LibraryTab::RecentlyPlayed => "Loading recently played…"@,
            LibraryTab::Saved => "Loading your saved tracks…"@,
        },
        LoadPhase::Loaded(_) => match tab {
            LibraryTab::TopTracks => "No top tracks yet."@,
            LibraryTab::Albums => "No saved albums."@,
            LibraryTab::TopArtists => "No top artists yet."@,
            LibraryTab::RecentlyPlayed => "Nothing played recently."@,
            LibraryTab::Saved => "No saved tracks."@,
        },
        LoadPhase::Failed => retry,
    }
}

/// Empty-state hint for a Library sub-tab, honest about its load phase.
/// `retry` is the caller-selected copy for the failed state (see
/// [`load_retry_hint`]).
pub fn library_empty_hint(tab: LibraryTab, phase: LoadPhase, retry: &'static str) -> (hint:
    &'static str)
    ensures
        hint@ == library_hint(tab, phase, retry@),
{
    match phase {
        LoadPhase::Idle | LoadPhase::Loading => match tab {
            LibraryTab::TopTracks => "Loading your top tracks…",
            LibraryTab::Albums => "Loading your albums…",
            LibraryTab::TopArtists => "Loading your top artists…",
            LibraryTab::RecentlyPlayed => "Loading recently played…",
            LibraryTab::Saved => "Loading your saved tracks…",
        },
        LoadPhase::Loaded(_) => match tab {
            LibraryTab::TopTracks => "No top tracks yet.",
            LibraryTab::Albums => "No saved albums.",
            LibraryTab::TopArtists => "No top artists yet.",
            LibraryTab::RecentlyPlayed => "Nothing played recently.",
            LibraryTab::Saved => "No saved tracks.",
        },
        LoadPhase::Failed => retry,
    }
}

/// The hint of an empty search lane. A lane whose query failed must not
/// masquerade as a genuine zero-match.
pub open spec fn lane_hint(m: ModelView) -> Seq<char> {
    if m.search_results.failed_lanes.contains(m.search_tab.label_text()) {
        search_retry(m)
    } else {
        match m.search_phase {
            LoadPhase::Idle => "No results yet. Press / to search."@,
            LoadPhase::Loading => "Searching…"@,
            LoadPhase::Loaded(_) => "No results for this query."@,
            LoadPhase::Failed => search_retry(m),
        }
    }
}

/// The hint of the list on screen where it has no rows.
pub open spec fn empty_hint(m: ModelView) -> Seq<char> {
    match m.screen {
        Screen::Search => lane_hint(m),
        Screen::Playlists => match m.playlists_phase {
            LoadPhase::Idle | LoadPhase::Loading => "Loading playlists…"@,
            LoadPhase::Loaded(_) => "No playlists found."@,
            LoadPhase::Failed => load_retry(m),
        },
        Screen::Tracks => match m.tracks_phase {
            LoadPhase::Idle | LoadPhase::Loading => "Loading tracks…"@,
            LoadPhase::Loaded(_) => "No tracks here."@,
            LoadPhase::Failed => load_retry(m),
        },
        Screen::Library => library_hint(
            m.library_tab,
            match m.library_tab {
                LibraryTab::Albums => m.albums_phase,
                LibraryTab::TopArtists => m.artists_phase,
                LibraryTab::TopTracks | LibraryTab::RecentlyPlayed | LibraryTab::Saved =>
                    m.tracks_phase,
            },
            load_retry(m),
        ),
        Screen::Queue => "Queue is empty — play a track (↵) or add one (a)."@,
    }
}

/// The title of the list on screen.
pub open spec fn list_title(m: ModelView) -> Seq<char> {
    match m.screen {
        Screen::Search => m.search_tab.label_text(),
        Screen::Playlists => "Playlists"@,
        Screen::Tracks => "Tracks"@,
        Screen::Library => m.library_tab.label_text(),
        Screen::Queue => "Queue"@,
    }
}

/// The rows of the list on screen.
pub open spec fn list_rows(m: ModelView) -> Seq<Seq<SpanView>> {
    match m.screen {
        Screen::Search => match m.search_tab {
            SearchTab::Tracks => track_rows_of(m.search_results.tracks),
            SearchTab::Albums => album_rows_of(m.search_results.albums),
            SearchTab::Artists => artist_rows_of(m.search_results.artists),
            SearchTab::Playlists => playlist_rows_of(m.search_results.playlists),
        },
        Screen::Playlists => playlist_rows_of(m.playlists),
        Screen::Tracks => track_rows_of(m.tracks),
        Screen::Library => match m.library_tab {
            LibraryTab::Albums => album_rows_of(m.albums),
            LibraryTab::TopArtists => artist_rows_of(m.artists),
            LibraryTab::TopTracks | LibraryTab::RecentlyPlayed | LibraryTab::Saved =>
                track_rows_of(m.tracks),
        },
        Screen::Queue => queue_rows_of(m.queue, m.cursor),
    }
}

/// A list on screen.
#[derive(Debug, PartialEq, Eq)]
pub struct ListPanel {
    pub title: &'static str,
    pub rows: Vec<Row>,
    /// Shown in place of rows where there are none.
    pub empty: &'static str,
}

/// Whether the lane `label` failed.
fn lane_failed(model: &Model, label: &str) -> (failed: bool)
    ensures
        failed == model@.search_results.failed_lanes.contains(label@),
{
    let mut i: usize = 0;
    let ghost lanes = model@.search_results.failed_lanes;
    while i < model.search_results.failed_lanes.len()
        invariant
            i <= model.search_results.failed_lanes@.len(),
            lanes == views(model.search_results.failed_lanes@),
            forall|k: int| 0 <= k < i ==> #[trigger] lanes[k] != label@,
        decreases model.search_results.failed_lanes@.len() - i,
    {
        assert(lanes[i as int] == model.search_results.failed_lanes@[i as int]@);
        if same_text(model.search_results.failed_lanes[i], label) {
            return true;
        }
        i = i + 1;
    }
    false
}

/// The hint of the list on screen where it has no rows.
fn empty_list_hint(model: &Model) -> (hint: &'static str)
    ensures
        hint@ == empty_hint(model@),
{
    match model.screen {
        Screen::Search => if lane_failed(model, model.search_tab.label()) {
            search_retry_hint(model)
        } else {
            match model.search_phase {
                LoadPhase::Idle => "No results yet. Press / to search.",
                LoadPhase::Loading => "Searching…",
                LoadPhase::Loaded(_) => "No results for this query.",
                LoadPhase::Failed => search_retry_hint(model),
            }
        },
        Screen::Playlists => match model.playlists_phase {
            LoadPhase::Idle | LoadPhase::Loading => "Loading playlists…",
            LoadPhase::Loaded(_) => "No playlists found.",
            LoadPhase::Failed => load_retry_hint(model),
        },
        Screen::Tracks => match model.tracks_phase {
            LoadPhase::Idle | LoadPhase::Loading => "Loading tracks…",
            LoadPhase::Loaded(_) => "No tracks here.",
            LoadPhase::Failed => load_retry_hint(model),
        },
        Screen::Library => {
            let phase = match model.library_tab {
                LibraryTab::Albums => model.albums_phase,
                LibraryTab::TopArtists => model.artists_phase,
                LibraryTab::TopTracks | LibraryTab::RecentlyPlayed | LibraryTab::Saved =>
                    model.tracks_phase,
            };
            library_empty_hint(model.library_tab, phase, load_retry_hint(model))
        },
        Screen::Queue => "Queue is empty — play a track (↵) or add one (a).",
    }
}

/// The title of the list on screen.
fn title_of_list(model: &Model) -> (title: &'static str)
    ensures
        title@ == list_title(model@),
{
    match model.screen {
        Screen::Search => model.search_tab.label(),
        Screen::Playlists => "Playlists",
        Screen::Tracks => "Tracks",
        Screen::Library => model.library_tab.label(),
        Screen::Queue => "Queue",
    }
}

/// The rows of the list on screen.
fn rows_of_list(model: &Model) -> (rows: Vec<Row>)
    ensures
        views(rows@) == list_rows(model@),
{
    match model.screen {
        Screen::Search => match model.search_tab {
            SearchTab::Tracks => track_rows(&model.search_results.tracks),
            SearchTab::Albums => album_rows(&model.search_results.albums),
            SearchTab::Artists => artist_rows(&model.search_results.artists),
            SearchTab::Playlists => playlist_rows(&model.search_results.playlists),
        },
        Screen::Playlists => playlist_rows(&model.playlists),
        Screen::Tracks => track_rows(&model.tracks),
        Screen::Library => match model.library_tab {
            LibraryTab::Albums => album_rows(&model.albums),
            LibraryTab::TopArtists => artist_rows(&model.artists),
            LibraryTab::TopTracks | LibraryTab::RecentlyPlayed | LibraryTab::Saved => track_rows(
                &model.tracks,
            ),
        },
        Screen::Queue => queue_rows(&model.playback_queue, model.playback_queue_cursor),
    }
}

/// The list on screen.
pub fn list_panel(model: &Model) -> (panel: ListPanel)
    ensures
        panel.title@ == list_title(model@),
        views(panel.rows@) == list_rows(model@),
        panel.empty@ == empty_hint(model@),
{
    ListPanel {
        title: title_of_list(model),
        rows: rows_of_list(model),
        empty: empty_list_hint(model),
    }
}

/// The list on screen has one row for each entry that the selection ranges
/// over.
pub proof fn every_entry_has_a_row(m: ModelView)
    ensures
        list_rows(m).len() == m.active_len(),
{
}

/// The row that counts as selected: the first without a selection, and never
/// past the end.
pub open spec fn shown_selection(selected: Option<usize>, len: int) -> int {
    let row: int = match selected {
        Some(row) => row as int,
        None => 0,
    };
    if row < len {
        row
    } else {
        len - 1
    }
}

/// The row that counts as selected in a list with `len` rows.
pub fn selected_row(selected: Option<usize>, len: usize) -> (row: usize)
    requires
        len > 0,
    ensures
        row == shown_selection(selected, len as int),
        row < len,
{
    let row: usize = match selected {
        Some(row) => row,
        None => 0,
    };
    if row < len {
        row
    } else {
        len - 1
    }
}

/// The ` selected/total ` counter in the bottom border of a list.
pub fn selection_counter(row: usize, len: usize) -> (text: String)
    requires
        row < len <= u64::MAX,
    ensures
        text@ == " "@ + decimal((row + 1) as nat) + "/"@ + decimal(len as nat) + " "@,
{
    let mut text = " ".to_owned();
    push_decimal(&mut text, row as u64 + 1);
    text.append("/");
    push_decimal(&mut text, len as u64);
    text.append(" ");
    text
}

/// Whether a list of `len` rows in a pane of `height` rows, borders included,
/// needs a scrollbar.
pub fn needs_scrollbar(len: usize, height: u16) -> (yes: bool)
    ensures
        yes == (height > 2 && len > height - 2),
{
    let viewport: usize = height.saturating_sub(2) as usize;
    len > viewport && viewport > 0
}

/// The top-level tab of a screen: a drilled-in track list belongs to the tab
/// it was entered from.
pub open spec fn owning_tab(m: ModelView) -> Screen {
    match m.screen {
        Screen::Tracks => match m.tracks_origin {
            Screen::Search => Screen::Search,
            Screen::Library => Screen::Library,
            Screen::Playlists | Screen::Tracks | Screen::Queue => Screen::Playlists,
        },
        other => other,
    }
}

/// Map the active screen onto its owning top-level tab. A drilled-in track
/// list highlights the tab it was entered from, not always Playlists.
pub fn active_tab(model: &Model) -> (tab: Screen)
    ensures
        tab == owning_tab(model@),
{
    match model.screen {
        Screen::Tracks => match model.tracks_origin {
            Screen::Search => Screen::Search,
            Screen::Library => Screen::Library,
            Screen::Playlists | Screen::Tracks | Screen::Queue => Screen::Playlists,
        },
        other => other,
    }
}

/// A tab of a tab bar.
#[derive(Debug, Clone, Copy, PartialEq, Eq)]
pub struct Tab {
    pub label: &'static str,
    pub active: bool,
}

impl View for Tab {
    type V = (Seq<char>, bool);

    open spec fn view(&self) -> (Seq<char>, bool) {
        (self.label@, self.active)
    }
}

/// The tabs of the header, the one that owns the screen active.
pub open spec fn header_of(m: ModelView) -> Seq<(Seq<char>, bool)> {
    seq![
        ("1 Search"@, owning_tab(m) == Screen::Search),
        ("2 Playlists"@, owning_tab(m) == Screen::Playlists),
        ("3 Library"@, owning_tab(m) == Screen::Library),
        ("4 Queue"@, owning_tab(m) == Screen::Queue),
    ]
}

/// The tabs of the header, with the active screen highlighted.
pub fn header_tabs(model: &Model) -> (tabs: Vec<Tab>)
    ensures
        views(tabs@) == header_of(model@),
{
    let active = active_tab(model);
    let mut tabs: Vec<Tab> = Vec::new();
    tabs.push(Tab { label: "1 Search", active: active == Screen::Search });
    tabs.push(Tab { label: "2 Playlists", active: active == Screen::Playlists });
    tabs.push(Tab { label: "3 Library", active: active == Screen::Library });
    tabs.push(Tab { label: "4 Queue", active: active == Screen::Queue });
    assert(views(tabs@) =~= header_of(model@));
    tabs
}

/// The Library tab bar: every tab in order, the current one active.
pub open spec fn library_bar(current: LibraryTab) -> Seq<(Seq<char>, bool)> {
    seq![
        (LibraryTab::TopTracks.label_text(), current == LibraryTab::TopTracks),
        (LibraryTab::Albums.label_text(), current == LibraryTab::Albums),
        (LibraryTab::TopArtists.label_text(), current == LibraryTab::TopArtists),
        (LibraryTab::RecentlyPlayed.label_text(), current == LibraryTab::RecentlyPlayed),
        (LibraryTab::Saved.label_text(), current == LibraryTab::Saved),
    ]
}

/// The Search tab bar: every lane in order, the current one active.
pub open spec fn search_bar(current: SearchTab) -> Seq<(Seq<char>, bool)> {
    seq![
        (SearchTab::Tracks.label_text(), current == SearchTab::Tracks),
        (SearchTab::Albums.label_text(), current == SearchTab::Albums),
        (SearchTab::Artists.label_text(), current == SearchTab::Artists),
        (SearchTab::Playlists.label_text(), current == SearchTab::Playlists),
    ]
}

/// The Library tab bar.
pub fn library_tabs(current: LibraryTab) -> (tabs: Vec<Tab>)
    ensures
        views(tabs@) == library_bar(current),
{
    let mut tabs: Vec<Tab> = Vec::new();
    let mut tab = LibraryTab::TopTracks;
    tabs.push(Tab { label: tab.label(), active: current == tab });
    tab = LibraryTab::Albums;
    tabs.push(Tab { label: tab.label(), active: current == tab });
    tab = LibraryTab::TopArtists;
    tabs.push(Tab { label: tab.label(), active: current == tab });
    tab = LibraryTab::RecentlyPlayed;
    tabs.push(Tab { label: tab.label(), active: current == tab });
    tab = LibraryTab::Saved;
    tabs.push(Tab { label: tab.label(), active: current == tab });
    assert(views(tabs@) =~= library_bar(current));
    tabs
}

/// The Search tab bar.
pub fn search_tabs(current: SearchTab) -> (tabs: Vec<Tab>)
    ensures
        views(tabs@) == search_bar(current),
{
    let mut tabs: Vec<Tab> = Vec::new();
    let mut tab = SearchTab::Tracks;
    tabs.push(Tab { label: tab.label(), active: current == tab });
    tab = SearchTab::Albums;
    tabs.push(Tab { label: tab.label(), active: current == tab });
    tab = SearchTab::Artists;
    tabs.push(Tab { label: tab.label(), active: current == tab });
    tab = SearchTab::Playlists;
    tabs.push(Tab { label: tab.label(), active: current == tab });
    assert(views(tabs@) =~= search_bar(current));
    tabs
}

/// The title of the artwork pane, and its text where there is no artwork.
pub fn sidebar_text(model: &Model) -> (text: (String, &'static str))
    ensures
        model@.now_playing.track is Some ==> text.0@ == model@.now_playing.track->0 && text.1@
            == "♪"@,
        model@.now_playing.track is None ==> text.0@ == "Now Playing"@ && text.1@
            == "no track playing"@,
{
    match &model.now_playing.track {
        Some(track) => (track.clone(), "♪"),
        None => ("Now Playing".to_owned(), "no track playing"),
    }
}

} // verus!
