//! Screens, selection, and the datasets behind them: what is requested, what
//! is reused, and what happens to each reply.

use vstd::prelude::*;
use crate::api::SearchResultset;
use crate::clock::Moment;
use crate::config::Keybindings;
use crate::error::ApiError;
use crate::layout::{larger, smaller};
use crate::message::{no_actions, one_action, Action, ActionView};
use crate::model::{
    AlbumItem, ArtistItem, PlaylistItem, SourceView, TimeRange, TrackItem, TrackListSource,
};
use crate::state::{LibraryTab, ListState, LoadPhase, Mode, Model, ModelView, Screen};
use crate::text::{joined, separate_labels, separated, views};
use crate::update::search::{search_submit, submitted};
use crate::update::Step;

verus! {

/// Library/playlist data younger than this many seconds is reused on re-entry
/// instead of refetched, sparing the rate-limited shared client id; `r` forces a
/// reload.
pub const LIBRARY_TTL_SECS: u64 = 300;

/// Rows jumped by one PageUp/PageDown press.
pub const PAGE_STEP: usize = 15;

/// What to do about a failed search lane.
pub open spec fn lane_retry_text(keys: Keybindings) -> Seq<char> {
    if keys.keys().contains('r') {
        "edit the query and press Enter"@
    } else {
        "press r to retry"@
    }
}

/// The status that names the search lanes that failed.
pub open spec fn lanes_failed_text(keys: Keybindings, lanes: Seq<Seq<char>>) -> Seq<char> {
    "search failed for "@ + separated(lanes, ", "@) + "; "@ + lane_retry_text(keys)
}

/// A search was answered. Results are stored, naming the lanes that failed;
/// the selection moves only where the Search screen is showing.
pub open spec fn search_answered(
    m: ModelView,
    result: Result<SearchResultset, ApiError>,
    now: Moment,
) -> ModelView {
    match result {
        Ok(results) => {
            let named = if results@.failed_lanes.len() == 0 {
                m
            } else {
                m.with_status(lanes_failed_text(m.keybindings, results@.failed_lanes))
            };
            let stored = ModelView {
                search_results: results@,
                search_phase: LoadPhase::Loaded(now),
                ..named
            };
            if m.screen == Screen::Search {
                stored.selection_reset()
            } else {
                stored
            }
        },
        Err(err) => ModelView { search_phase: LoadPhase::Failed, ..m }.with_status(
            "search failed: "@ + err.text(),
        ),
    }
}

/// Store the multi-lane search results and reset the selection cursor.
pub fn search_results(
    model: &mut Model,
    result: Result<SearchResultset, ApiError>,
    now: Moment,
) -> (actions: Vec<Action>)
    ensures
        final(model)@ == search_answered(old(model)@, result, now),
        views(actions@) == Seq::<ActionView>::empty(),
{
    match result {
        Ok(results) => {
            // Partial failures still render, but never silently: name the
            // lanes that failed in the status bar.
            if results.failed_lanes.len() > 0 {
                let retry = if model.keybindings.uses('r') {
                    "edit the query and press Enter"
                } else {
                    "press r to retry"
                };
                let lanes = separate_labels(&results.failed_lanes, ", ");
                let head = joined("search failed for ", lanes.as_str());
                let middle = joined(head.as_str(), "; ");
                model.set_error(joined(middle.as_str(), retry));
            }
            model.search_results = results;
            model.search_phase = LoadPhase::Loaded(now);
            // Only move the cursor if the user is still on this screen; a late
            // response must not clobber the selection of a screen they left.
            if model.screen == Screen::Search {
                model.reset_selection();
            }
        },
        Err(err) => {
            model.search_phase = LoadPhase::Failed;
            let text = err.message();
            model.set_error(joined("search failed: ", text.as_str()));
        },
    }
    no_actions()
}

/// Top artists were answered.
pub open spec fn artists_answered(
    m: ModelView,
    result: Result<Vec<ArtistItem>, ApiError>,
    now: Moment,
) -> ModelView {
    match result {
        Ok(artists) => {
            let stored = ModelView {
                artists: views(artists@),
                artists_phase: LoadPhase::Loaded(now),
                ..m
            };
            if m.screen == Screen::Library && m.library_tab == LibraryTab::TopArtists {
                stored.selection_reset()
            } else {
                stored
            }
        },
        Err(err) => ModelView { artists_phase: LoadPhase::Failed, ..m }.with_status(
            "loading top artists failed: "@ + err.text(),
        ),
    }
}

/// Store loaded top artists (the Library "Top Artists" tab).
pub fn top_artists_loaded(
    model: &mut Model,
    result: Result<Vec<ArtistItem>, ApiError>,
    now: Moment,
) -> (actions: Vec<Action>)
    ensures
        final(model)@ == artists_answered(old(model)@, result, now),
        views(actions@) == Seq::<ActionView>::empty(),
{
    match result {
        Ok(artists) => {
            model.artists = artists;
            model.artists_phase = LoadPhase::Loaded(now);
            if model.screen == Screen::Library && model.library_tab == LibraryTab::TopArtists {
                model.reset_selection();
            }
        },
        Err(err) => {
            model.artists_phase = LoadPhase::Failed;
            let text = err.message();
            model.set_error(joined("loading top artists failed: ", text.as_str()));
        },
    }
    no_actions()
}

/// Saved albums were answered.
pub open spec fn albums_answered(
    m: ModelView,
    result: Result<Vec<AlbumItem>, ApiError>,
    now: Moment,
) -> ModelView {
    match result {
        Ok(albums) => {
            let stored = ModelView {
                albums: views(albums@),
                albums_phase: LoadPhase::Loaded(now),
                ..m
            };
            if m.screen == Screen::Library && m.library_tab == LibraryTab::Albums {
                stored.selection_reset()
            } else {
                stored
            }
        },
        Err(err) => ModelView { albums_phase: LoadPhase::Failed, ..m }.with_status(
            "loading albums failed: "@ + err.text(),
        ),
    }
}

/// Store loaded saved albums (the Library "Albums" tab).
pub fn albums_loaded(
    model: &mut Model,
    result: Result<Vec<AlbumItem>, ApiError>,
    now: Moment,
) -> (actions: Vec<Action>)
    ensures
        final(model)@ == albums_answered(old(model)@, result, now),
        views(actions@) == Seq::<ActionView>::empty(),
{
    match result {
        Ok(albums) => {
            model.albums = albums;
            model.albums_phase = LoadPhase::Loaded(now);
            if model.screen == Screen::Library && model.library_tab == LibraryTab::Albums {
                model.reset_selection();
            }
        },
        Err(err) => {
            model.albums_phase = LoadPhase::Failed;
            let text = err.message();
            model.set_error(joined("loading albums failed: ", text.as_str()));
        },
    }
    no_actions()
}

/// Playlists were answered.
pub open spec fn playlists_answered(
    m: ModelView,
    result: Result<Vec<PlaylistItem>, ApiError>,
    now: Moment,
) -> ModelView {
    match result {
        Ok(playlists) => {
            let stored = ModelView {
                playlists: views(playlists@),
                playlists_phase: LoadPhase::Loaded(now),
                ..m
            };
            if m.screen == Screen::Playlists {
                stored.selection_reset()
            } else {
                stored
            }
        },
        Err(err) => ModelView { playlists_phase: LoadPhase::Failed, ..m }.with_status(
            "loading playlists failed: "@ + err.text(),
        ),
    }
}

/// Store loaded playlists and reset the selection cursor.
pub fn playlists_loaded(
    model: &mut Model,
    result: Result<Vec<PlaylistItem>, ApiError>,
    now: Moment,
) -> (actions: Vec<Action>)
    ensures
        final(model)@ == playlists_answered(old(model)@, result, now),
        views(actions@) == Seq::<ActionView>::empty(),
{
    match result {
        Ok(playlists) => {
            model.playlists = playlists;
            model.playlists_phase = LoadPhase::Loaded(now);
            if model.screen == Screen::Playlists {
                model.reset_selection();
            }
        },
        Err(err) => {
            model.playlists_phase = LoadPhase::Failed;
            let text = err.message();
            model.set_error(joined("loading playlists failed: ", text.as_str()));
        },
    }
    no_actions()
}

/// Whether the track view fed by `source` is what the user is looking at.
pub open spec fn shows_source(m: ModelView, source: SourceView) -> bool {
    match source {
        SourceView::Playlist(_) | SourceView::Album(_) => m.screen == Screen::Tracks,
        SourceView::TopTracks(_) => m.screen == Screen::Library && m.library_tab
            == LibraryTab::TopTracks,
        SourceView::RecentlyPlayed => m.screen == Screen::Library && m.library_tab
            == LibraryTab::RecentlyPlayed,
        SourceView::SavedTracks => m.screen == Screen::Library && m.library_tab
            == LibraryTab::Saved,
    }
}

/// Whether the track view fed by `source` is what the user is looking at.
fn track_view_active(model: &Model, source: &TrackListSource) -> (active: bool)
    ensures
        active == shows_source(model@, source@),
{
    match source {
        TrackListSource::Playlist(_) | TrackListSource::Album(_) => model.screen == Screen::Tracks,
        TrackListSource::TopTracks(_) => model.screen == Screen::Library && model.library_tab
            == LibraryTab::TopTracks,
        TrackListSource::RecentlyPlayed => model.screen == Screen::Library && model.library_tab
            == LibraryTab::RecentlyPlayed,
        TrackListSource::SavedTracks => model.screen == Screen::Library && model.library_tab
            == LibraryTab::Saved,
    }
}

/// A track list was answered. Its tracks are stored only where `source` still
/// owns the track list; an error is always surfaced.
pub open spec fn tracks_answered(
    m: ModelView,
    source: SourceView,
    result: Result<Vec<TrackItem>, ApiError>,
    now: Moment,
) -> ModelView {
    let owns = m.track_list_source == Some(source);
    match result {
        Ok(tracks) => if owns {
            let stored = ModelView {
                tracks: views(tracks@),
                tracks_phase: LoadPhase::Loaded(now),
                ..m
            };
            if shows_source(m, source) {
                stored.selection_reset()
            } else {
                stored
            }
        } else {
            m
        },
        Err(err) => ModelView {
            tracks_phase: if owns {
                LoadPhase::Failed
            } else {
                m.tracks_phase
            },
            ..m
        }.with_status("loading tracks failed: "@ + err.text()),
    }
}

/// Whether `source` owns the track list.
fn owns_tracks(model: &Model, source: &TrackListSource) -> (owns: bool)
    ensures
        owns == (model@.track_list_source == Some(source@)),
{
    match &model.track_list_source {
        Some(owner) => owner.same(source),
        None => false,
    }
}

/// Store a loaded track list (playlist tracks, top tracks, recent, or saved).
///
/// A load error is always surfaced. Data (and its load phase) is stored when
/// `source` still owns `model.tracks` — a stale response for a source the user
/// has since navigated away from is dropped. The selection cursor is only
/// touched when the track view is actually on screen.
pub fn tracks_loaded(
    model: &mut Model,
    source: &TrackListSource,
    result: Result<Vec<TrackItem>, ApiError>,
    now: Moment,
) -> (actions: Vec<Action>)
    ensures
        final(model)@ == tracks_answered(old(model)@, source@, result, now),
        views(actions@) == Seq::<ActionView>::empty(),
{
    let owns = owns_tracks(model, source);
    match result {
        Ok(tracks) => {
            if owns {
                model.tracks = tracks;
                model.tracks_phase = LoadPhase::Loaded(now);
                if track_view_active(model, source) {
                    model.reset_selection();
                }
            }
        },
        Err(err) => {
            let text = err.message();
            model.set_error(joined("loading tracks failed: ", text.as_str()));
            if owns {
                model.tracks_phase = LoadPhase::Failed;
            }
        },
    }
    no_actions()
}

/// The model with `index` selected.
pub open spec fn with_selection(m: ModelView, index: usize) -> ModelView {
    ModelView { list: m.list.selecting(Some(index)), ..m }
}

/// The row after the selected one, or the first where none is.
pub open spec fn row_after(list: ListState) -> usize {
    match list.selected {
        None => 0,
        Some(index) => if index < usize::MAX {
            (index + 1) as usize
        } else {
            index
        },
    }
}

/// The row before the selected one, or the last where none is. The last row
/// is the largest index: drawing holds it to the length of the list.
pub open spec fn row_before(list: ListState) -> usize {
    match list.selected {
        None => usize::MAX,
        Some(index) => if index > 0 {
            (index - 1) as usize
        } else {
            0
        },
    }
}

/// Move selection to the next item in the active widget.
pub fn select_next(model: &mut Model) -> (actions: Vec<Action>)
    ensures
        final(model)@ == with_selection(old(model)@, row_after(old(model)@.list)),
        views(actions@) == Seq::<ActionView>::empty(),
{
    let index: usize = match model.list_state.selected() {
        None => 0,
        Some(index) => index.saturating_add(1),
    };
    model.list_state.select(Some(index));
    no_actions()
}

/// Move selection to the previous item in the active widget.
pub fn select_previous(model: &mut Model) -> (actions: Vec<Action>)
    ensures
        final(model)@ == with_selection(old(model)@, row_before(old(model)@.list)),
        views(actions@) == Seq::<ActionView>::empty(),
{
    let index: usize = match model.list_state.selected() {
        None => usize::MAX,
        Some(index) => index.saturating_sub(1),
    };
    model.list_state.select(Some(index));
    no_actions()
}

/// Move selection to the first item.
pub fn select_first(model: &mut Model) -> (actions: Vec<Action>)
    ensures
        final(model)@ == with_selection(old(model)@, 0),
        views(actions@) == Seq::<ActionView>::empty(),
{
    model.list_state.select(Some(0));
    no_actions()
}

/// Move selection to the last item.
pub fn select_last(model: &mut Model) -> (actions: Vec<Action>)
    ensures
        final(model)@ == with_selection(old(model)@, usize::MAX),
        views(actions@) == Seq::<ActionView>::empty(),
{
    model.list_state.select(Some(usize::MAX));
    no_actions()
}

/// The selection a page further on or back, held to the rows of the list: never
/// before the first and never past the last, wherever it was before. An empty
/// list keeps its selection.
pub open spec fn paged(m: ModelView, forward: bool) -> ModelView {
    let current: int = match m.list.selected {
        Some(index) => index as int,
        None => 0,
    };
    let target = if forward {
        current + PAGE_STEP
    } else {
        current - PAGE_STEP
    };
    if m.active_len() == 0 {
        m
    } else {
        with_selection(m, smaller(larger(target, 0), m.active_len() - 1) as usize)
    }
}

/// Jump the selection a page's worth of rows, clamped to the list bounds.
pub fn select_page(model: &mut Model, forward: bool) -> (actions: Vec<Action>)
    ensures
        final(model)@ == paged(old(model)@, forward),
        old(model)@.active_len() > 0 ==> final(model)@.list.selected is Some,
        old(model)@.active_len() > 0 ==> final(model)@.list.selected->0 < final(model)@.active_len(),
        views(actions@) == Seq::<ActionView>::empty(),
{
    let len: usize = model.active_len();
    if len == 0 {
        return no_actions();
    }
    let current: usize = match model.list_state.selected() {
        Some(index) => index,
        None => 0,
    };
    let wanted: usize = if forward {
        current.saturating_add(PAGE_STEP)
    } else {
        current.saturating_sub(PAGE_STEP)
    };
    let target: usize = if wanted <= len - 1 {
        wanted
    } else {
        len - 1
    };
    model.list_state.select(Some(target));
    no_actions()
}

/// Whether a dataset in `phase` needs a request: it is forced, or the data is
/// neither in flight nor fresh.
pub open spec fn needs_request(phase: LoadPhase, force: bool, now: Moment) -> bool {
    force || !(phase == LoadPhase::Loading || phase.fresh(now, LIBRARY_TTL_SECS as int))
}

/// Whether a dataset in `phase` needs a request (not in flight, not fresh).
pub fn should_request(phase: LoadPhase, force: bool, now: Moment) -> (needed: bool)
    ensures
        needed == needs_request(phase, force, now),
{
    force || !(phase == LoadPhase::Loading || phase.is_fresh(now, LIBRARY_TTL_SECS))
}

/// Asking for the playlists, where they need asking for.
pub open spec fn playlists_asked(m: ModelView, force: bool, now: Moment) -> Step {
    if needs_request(m.playlists_phase, force, now) {
        (
            ModelView { playlists_phase: LoadPhase::Loading, ..m },
            seq![ActionView::LoadPlaylists],
        )
    } else {
        (m, Seq::empty())
    }
}

/// Asking for the saved albums, where they need asking for.
pub open spec fn albums_asked(m: ModelView, force: bool, now: Moment) -> Step {
    if needs_request(m.albums_phase, force, now) {
        (ModelView { albums_phase: LoadPhase::Loading, ..m }, seq![ActionView::LoadSavedAlbums])
    } else {
        (m, Seq::empty())
    }
}

/// Asking for the top artists, where they need asking for.
pub open spec fn artists_asked(m: ModelView, force: bool, now: Moment) -> Step {
    if needs_request(m.artists_phase, force, now) {
        (
            ModelView { artists_phase: LoadPhase::Loading, ..m },
            seq![ActionView::LoadTopArtists(TimeRange::MediumTerm)],
        )
    } else {
        (m, Seq::empty())
    }
}

/// The request that fetches a given track-list source.
pub open spec fn fetch_of(source: SourceView) -> ActionView {
    match source {
        SourceView::Playlist(id) => ActionView::LoadPlaylistTracks(id),
        SourceView::Album(id) => ActionView::LoadAlbumTracks(id),
        SourceView::TopTracks(range) => ActionView::LoadTopTracks(range),
        SourceView::RecentlyPlayed => ActionView::LoadRecentlyPlayed,
        SourceView::SavedTracks => ActionView::LoadSavedTracks,
    }
}

/// Pointing the track list at `source`, where it needs asking for. Switching
/// sources empties the list.
pub open spec fn tracks_asked(m: ModelView, source: SourceView, force: bool, now: Moment) -> Step {
    let same = m.track_list_source == Some(source);
    if same && !needs_request(m.tracks_phase, force, now) {
        (m, Seq::empty())
    } else {
        (
            ModelView {
                tracks: if same {
                    m.tracks
                } else {
                    Seq::empty()
                },
                track_list_source: Some(source),
                tracks_phase: LoadPhase::Loading,
                ..m
            },
            seq![fetch_of(source)],
        )
    }
}

/// Asking for a Library sub-tab's data, where it needs asking for.
pub open spec fn tab_asked(m: ModelView, tab: LibraryTab, force: bool, now: Moment) -> Step {
    match tab {
        LibraryTab::TopTracks => tracks_asked(
            m,
            SourceView::TopTracks(TimeRange::MediumTerm),
            force,
            now,
        ),
        LibraryTab::Albums => albums_asked(m, force, now),
        LibraryTab::TopArtists => artists_asked(m, force, now),
        LibraryTab::RecentlyPlayed => tracks_asked(m, SourceView::RecentlyPlayed, force, now),
        LibraryTab::Saved => tracks_asked(m, SourceView::SavedTracks, force, now),
    }
}

/// Switching to `screen`: the selection starts over on a change, insert mode
/// ends anywhere but on Search, and the screen's data is asked for where it
/// needs to be.
pub open spec fn screen_entered(m: ModelView, screen: Screen, now: Moment) -> Step {
    let moved = ModelView { screen, ..m };
    let placed = if m.screen != screen {
        moved.selection_reset()
    } else {
        moved
    };
    let shown = ModelView {
        mode: if screen != Screen::Search {
            Mode::Normal
        } else {
            m.mode
        },
        ..placed
    };
    match screen {
        Screen::Playlists => playlists_asked(shown, false, now),
        Screen::Library => tab_asked(shown, m.library_tab, false, now),
        Screen::Search | Screen::Tracks | Screen::Queue => (shown, Seq::empty()),
    }
}

/// Forcing a reload of whatever the active screen/tab is showing.
pub open spec fn refreshed(m: ModelView, now: Moment) -> Step {
    match m.screen {
        Screen::Playlists => playlists_asked(m, true, now),
        Screen::Library => tab_asked(m, m.library_tab, true, now),
        Screen::Search => submitted(m),
        Screen::Tracks => match m.track_list_source {
            Some(source) => (
                ModelView { tracks_phase: LoadPhase::Loading, ..m },
                seq![fetch_of(source)],
            ),
            None => (m, Seq::empty()),
        },
        Screen::Queue => (m, Seq::empty()),
    }
}

/// Entering the Tracks screen from `origin` to show `source`.
pub open spec fn drilled(m: ModelView, origin: Screen, source: SourceView, now: Moment) -> Step {
    let (shown, fetch) = tracks_asked(
        ModelView { tracks_origin: origin, screen: Screen::Tracks, ..m },
        source,
        false,
        now,
    );
    (shown.selection_reset(), fetch)
}

/// Request the user's playlists unless they are already fresh or loading.
fn request_playlists(model: &mut Model, force: bool, now: Moment) -> (actions: Vec<Action>)
    ensures
        (final(model)@, views(actions@)) == playlists_asked(old(model)@, force, now),
{
    if !should_request(model.playlists_phase, force, now) {
        return no_actions();
    }
    model.playlists_phase = LoadPhase::Loading;
    one_action(Action::LoadPlaylists)
}

/// Request saved albums unless they are already fresh or loading.
fn request_albums(model: &mut Model, force: bool, now: Moment) -> (actions: Vec<Action>)
    ensures
        (final(model)@, views(actions@)) == albums_asked(old(model)@, force, now),
{
    if !should_request(model.albums_phase, force, now) {
        return no_actions();
    }
    model.albums_phase = LoadPhase::Loading;
    one_action(Action::LoadSavedAlbums)
}

/// Request top artists unless they are already fresh or loading.
fn request_artists(model: &mut Model, force: bool, now: Moment) -> (actions: Vec<Action>)
    ensures
        (final(model)@, views(actions@)) == artists_asked(old(model)@, force, now),
{
    if !should_request(model.artists_phase, force, now) {
        return no_actions();
    }
    model.artists_phase = LoadPhase::Loading;
    one_action(Action::LoadTopArtists(TimeRange::default()))
}

/// The [`Action`] that fetches a given track-list source.
fn source_load_action(source: TrackListSource) -> (action: Action)
    ensures
        action@ == fetch_of(source@),
{
    match source {
        TrackListSource::Playlist(id) => Action::LoadPlaylistTracks(id),
        TrackListSource::Album(id) => Action::LoadAlbumTracks(id),
        TrackListSource::TopTracks(range) => Action::LoadTopTracks(range),
        TrackListSource::RecentlyPlayed => Action::LoadRecentlyPlayed,
        TrackListSource::SavedTracks => Action::LoadSavedTracks,
    }
}

/// Point `model.tracks` at `source`, loading it unless the same source is
/// already fresh or in flight. Switching sources clears the stale list so the
/// view shows a loading state instead of the previous source's rows.
fn track_tab_load(
    model: &mut Model,
    source: TrackListSource,
    force: bool,
    now: Moment,
) -> (actions: Vec<Action>)
    ensures
        (final(model)@, views(actions@)) == tracks_asked(old(model)@, source@, force, now),
{
    let same = owns_tracks(model, &source);
    if same && !should_request(model.tracks_phase, force, now) {
        return no_actions();
    }
    if !same {
        model.tracks = Vec::new();
        assert(views(model.tracks@) =~= Seq::empty());
    }
    model.track_list_source = Some(source.clone());
    model.tracks_phase = LoadPhase::Loading;
    one_action(source_load_action(source))
}

/// Request a Library sub-tab's data, honoring the freshness cache unless forced.
pub fn library_tab_request(
    model: &mut Model,
    tab: LibraryTab,
    force: bool,
    now: Moment,
) -> (actions: Vec<Action>)
    ensures
        (final(model)@, views(actions@)) == tab_asked(old(model)@, tab, force, now),
{
    match tab {
        LibraryTab::TopTracks => track_tab_load(
            model,
            TrackListSource::TopTracks(TimeRange::default()),
            force,
            now,
        ),
        LibraryTab::Albums => request_albums(model, force, now),
        LibraryTab::TopArtists => request_artists(model, force, now),
        LibraryTab::RecentlyPlayed => track_tab_load(
            model,
            TrackListSource::RecentlyPlayed,
            force,
            now,
        ),
        LibraryTab::Saved => track_tab_load(model, TrackListSource::SavedTracks, force, now),
    }
}

/// Switch screens and kick off any load action the screen needs. Loads are
/// skipped when the target's data is already fresh or in flight (see
/// [`LIBRARY_TTL_SECS`]); `r` forces a reload via [`refresh_active`].
pub fn enter_screen(model: &mut Model, screen: Screen, now: Moment) -> (actions: Vec<Action>)
    ensures
        (final(model)@, views(actions@)) == screen_entered(old(model)@, screen, now),
{
    let changed = model.screen != screen;
    model.screen = screen;
    if changed {
        model.reset_selection();
    }
    if model.mode == Mode::Insert && screen != Screen::Search {
        model.mode = Mode::Normal;
    }
    match screen {
        Screen::Playlists => request_playlists(model, false, now),
        Screen::Library => {
            let tab = model.library_tab;
            library_tab_request(model, tab, false, now)
        },
        Screen::Search | Screen::Tracks | Screen::Queue => no_actions(),
    }
}

/// Force-reload whatever the active screen/tab is showing (`r`).
pub fn refresh_active(model: &mut Model, now: Moment) -> (actions: Vec<Action>)
    ensures
        (final(model)@, views(actions@)) == refreshed(old(model)@, now),
{
    match model.screen {
        Screen::Playlists => request_playlists(model, true, now),
        Screen::Library => {
            let tab = model.library_tab;
            library_tab_request(model, tab, true, now)
        },
        Screen::Search => search_submit(model),
        Screen::Tracks => {
            let source: TrackListSource = match &model.track_list_source {
                Some(source) => source.clone(),
                None => {
                    return no_actions();
                },
            };
            model.tracks_phase = LoadPhase::Loading;
            one_action(source_load_action(source))
        },
        Screen::Queue => no_actions(),
    }
}

/// Enter the Tracks screen from `origin`, loading `source` unless it is the
/// still-fresh current source (re-opening the same playlist/album is instant).
pub fn drill_into_tracks(
    model: &mut Model,
    origin: Screen,
    source: TrackListSource,
    now: Moment,
) -> (actions: Vec<Action>)
    ensures
        (final(model)@, views(actions@)) == drilled(old(model)@, origin, source@, now),
{
    model.tracks_origin = origin;
    model.screen = Screen::Tracks;
    let actions = track_tab_load(model, source, false, now);
    model.reset_selection();
    actions
}

} // verus!
