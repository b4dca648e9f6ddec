//! Laws of browsing: what Enter does to the selected row, which data a screen
//! or tab asks for, where a reply goes, and how the selection moves.

use vstd::prelude::*;
use crate::api::SearchResultset;
use crate::clock::Moment;
use crate::config::Keybindings;
use crate::error::ApiError;
use crate::keys::KeyCode;
use crate::message::{ActionView, Message};
use crate::model::{
    AlbumItem, ArtistItem, PlaylistItem, SourceView, TimeRange, TrackItem, TrackListSource,
    TrackView,
};
use crate::state::{LibraryTab, ListState, LoadPhase, Mode, ModelView, Screen, SearchTab};
use crate::text::{separated, views};
use crate::update::key_routing::{escaped, tab_keyed};
use crate::update::loading::{drilled, lanes_failed_text, paged, refreshed, tab_asked};
use crate::update::transport_laws::{lemma_jump_starts, lemma_play_starts, moves_to, starts_entry};
use crate::update::{stepped, Step};

verus! {

/// Whether the screen shows a list of tracks to play from, and `tracks` is it:
/// the Tracks screen, the Library tabs that list tracks, and the Tracks lane of
/// Search.
pub open spec fn plays_from(m: ModelView, tracks: Seq<TrackView>) -> bool {
    ||| m.screen == Screen::Tracks && tracks == m.tracks
    ||| m.screen == Screen::Library && m.library_tab == LibraryTab::TopTracks && tracks == m.tracks
    ||| m.screen == Screen::Library && m.library_tab == LibraryTab::RecentlyPlayed && tracks
        == m.tracks
    ||| m.screen == Screen::Library && m.library_tab == LibraryTab::Saved && tracks == m.tracks
    ||| m.screen == Screen::Search && m.search_tab == SearchTab::Tracks && tracks
        == m.search_results.tracks
}

/// Enter on row `row` of a list of tracks plays that very track: the whole list
/// becomes the queue, in its own order, with playback on the entry `row`, and
/// the player is handed the ids of the list and that row.
pub proof fn enter_plays_the_selected_track(
    m: ModelView,
    tracks: Seq<TrackView>,
    row: usize,
    now: Moment,
)
    requires
        plays_from(m, tracks),
        m.list.selected == Some(row),
        row < tracks.len() <= usize::MAX,
    ensures
        ({
            let step = stepped(m, Message::ActivateSelection, now);
            &&& step.0.queue == tracks
            &&& step.0.now_playing_track == Some(tracks[row as int].id)
            &&& step.0.cursor == Some(row)
            &&& starts_entry(m, step, row as int, step.1[2])
            &&& step.1[2] is PlayerLoad
            &&& step.1[2]->PlayerLoad_index == row
            &&& step.1[2]->PlayerLoad_queue.len() == tracks.len()
            &&& forall|i: int|
                0 <= i < tracks.len() ==> #[trigger] step.1[2]->PlayerLoad_queue[i] == tracks[i].id
            &&& !step.0.shuffle
            &&& step.0.shuffle_order is None
        }),
{
    lemma_play_starts(m, tracks, row as int);
}

/// Enter on a row of the queue plays that entry of it.
pub proof fn enter_plays_the_selected_queue_entry(m: ModelView, row: usize, now: Moment)
    requires
        m.screen == Screen::Queue,
        m.list.selected == Some(row),
        row < m.queue.len() <= usize::MAX,
    ensures
        moves_to(m, stepped(m, Message::ActivateSelection, now), row as int),
{
    lemma_jump_starts(m, row as int);
}

/// Whether a step opens `source` from `origin`: the Tracks screen shows it, Esc
/// leads back, and it is asked for by `fetch` unless it is there already.
#[verifier::opaque]
pub open spec fn opens(
    before: ModelView,
    step: Step,
    origin: Screen,
    source: SourceView,
    fetch: ActionView,
) -> bool {
    let after = step.0;
    let kept = before.track_list_source == Some(source);
    &&& after == ModelView {
        screen: Screen::Tracks,
        tracks_origin: origin,
        track_list_source: Some(source),
        tracks: after.tracks,
        tracks_phase: after.tracks_phase,
        list: after.list,
        ..before
    }
    &&& kept ==> after.tracks == before.tracks
    &&& !kept ==> after.tracks.len() == 0 && step.1 == seq![fetch]
    &&& step.1.len() == 0 || step.1 == seq![fetch]
    &&& step.1.len() > 0 ==> after.tracks_phase == LoadPhase::Loading
    &&& step.1.len() == 0 ==> after.tracks_phase == before.tracks_phase
    &&& after.list.selected is Some == (after.tracks.len() > 0)
    &&& after.list.selected is Some ==> after.list.selected->0 == 0
}

/// Drilling into a list opens it.
proof fn lemma_drilled_opens(
    m: ModelView,
    origin: Screen,
    source: SourceView,
    fetch: ActionView,
    now: Moment,
)
    requires
        fetches(fetch, source),
    ensures
        opens(m, drilled(m, origin, source, now), origin, source, fetch),
{
    reveal(opens);
}

/// Enter on a playlist or an album opens that very one, on each screen that
/// lists them.
pub proof fn enter_opens_the_selected_list(m: ModelView, row: usize, now: Moment)
    requires
        m.list.selected == Some(row),
    ensures
        ({
            let step = stepped(m, Message::ActivateSelection, now);
            let found = m.search_results;
            let row = row as int;
            &&& m.screen == Screen::Playlists && row < m.playlists.len() ==> opens(
                m,
                step,
                Screen::Playlists,
                SourceView::Playlist(m.playlists[row].id),
                ActionView::LoadPlaylistTracks(m.playlists[row].id),
            )
            &&& m.screen == Screen::Library && m.library_tab == LibraryTab::Albums && row
                < m.albums.len() ==> opens(
                m,
                step,
                Screen::Library,
                SourceView::Album(m.albums[row].id),
                ActionView::LoadAlbumTracks(m.albums[row].id),
            )
            &&& m.screen == Screen::Search && m.search_tab == SearchTab::Albums && row
                < found.albums.len() ==> opens(
                m,
                step,
                Screen::Search,
                SourceView::Album(found.albums[row].id),
                ActionView::LoadAlbumTracks(found.albums[row].id),
            )
            &&& m.screen == Screen::Search && m.search_tab == SearchTab::Playlists && row
                < found.playlists.len() ==> opens(
                m,
                step,
                Screen::Search,
                SourceView::Playlist(found.playlists[row].id),
                ActionView::LoadPlaylistTracks(found.playlists[row].id),
            )
        }),
{
    let found = m.search_results;
    let row = row as int;
    match m.screen {
        Screen::Playlists => {
            let id = m.playlists[row].id;
            lemma_drilled_opens(
                m,
                Screen::Playlists,
                SourceView::Playlist(id),
                ActionView::LoadPlaylistTracks(id),
                now,
            );
        },
        Screen::Library => {
            let id = m.albums[row].id;
            lemma_drilled_opens(
                m,
                Screen::Library,
                SourceView::Album(id),
                ActionView::LoadAlbumTracks(id),
                now,
            );
        },
        Screen::Search => {
            let album = found.albums[row].id;
            let playlist = found.playlists[row].id;
            lemma_drilled_opens(
                m,
                Screen::Search,
                SourceView::Album(album),
                ActionView::LoadAlbumTracks(album),
                now,
            );
            lemma_drilled_opens(
                m,
                Screen::Search,
                SourceView::Playlist(playlist),
                ActionView::LoadPlaylistTracks(playlist),
                now,
            );
        },
        _ => {},
    }
}

/// Enter does nothing without a selected row, on a row that is not there, and on
/// artists, which neither play nor open.
pub proof fn enter_needs_a_row(m: ModelView, now: Moment)
    requires
        ({
            ||| m.list.selected is None
            ||| m.list.selected->0 >= m.active_len()
            ||| m.screen == Screen::Library && m.library_tab == LibraryTab::TopArtists
            ||| m.screen == Screen::Search && m.search_tab == SearchTab::Artists
        }),
    ensures
        stepped(m, Message::ActivateSelection, now) == (m, Seq::<ActionView>::empty()),
{
}

/// The track list that a Library tab shows, where it shows one.
pub open spec fn tab_lists(tab: LibraryTab, source: SourceView) -> bool {
    match source {
        SourceView::TopTracks(range) => tab == LibraryTab::TopTracks && range
            == TimeRange::MediumTerm,
        SourceView::RecentlyPlayed => tab == LibraryTab::RecentlyPlayed,
        SourceView::SavedTracks => tab == LibraryTab::Saved,
        SourceView::Playlist(_) | SourceView::Album(_) => false,
    }
}

/// Whether `fetch` is the request behind `source`.
pub open spec fn fetches(fetch: ActionView, source: SourceView) -> bool {
    match fetch {
        ActionView::LoadPlaylistTracks(id) => source == SourceView::Playlist(id),
        ActionView::LoadAlbumTracks(id) => source == SourceView::Album(id),
        ActionView::LoadTopTracks(range) => source == SourceView::TopTracks(range),
        ActionView::LoadRecentlyPlayed => source == SourceView::RecentlyPlayed,
        ActionView::LoadSavedTracks => source == SourceView::SavedTracks,
        _ => false,
    }
}

/// Whether data that arrived at `at` is five minutes old by `now`.
pub open spec fn is_old(at: Moment, now: Moment) -> bool {
    now.nanos - at.nanos >= 300_000_000_000
}

/// Whether data in `phase` is to be asked for at `now`: it is not on its way,
/// and what is there, if anything, is five minutes old.
pub open spec fn is_due(phase: LoadPhase, now: Moment) -> bool {
    match phase {
        LoadPhase::Idle | LoadPhase::Failed => true,
        LoadPhase::Loading => false,
        LoadPhase::Loaded(at) => is_old(at, now),
    }
}

/// Whether a step has asked for the data of a Library tab, `forced` or only
/// where it is due: a tab that lists tracks points the track list at the tracks
/// that it shows, Albums and Top Artists ask for theirs, and what is asked for
/// is marked as on its way.
#[verifier::opaque]
pub open spec fn asks_for_tab(
    before: ModelView,
    step: Step,
    tab: LibraryTab,
    forced: bool,
    now: Moment,
) -> bool {
    let (after, asked) = step;
    match tab {
        LibraryTab::Albums => {
            &&& after == ModelView { albums_phase: after.albums_phase, ..before }
            &&& (asked.len() == 0) == !(forced || is_due(before.albums_phase, now))
            &&& asked.len() > 0 ==> asked == seq![ActionView::LoadSavedAlbums] && after.albums_phase
                == LoadPhase::Loading
            &&& asked.len() == 0 ==> after == before
        },
        LibraryTab::TopArtists => {
            &&& after == ModelView { artists_phase: after.artists_phase, ..before }
            &&& (asked.len() == 0) == !(forced || is_due(before.artists_phase, now))
            &&& asked.len() > 0 ==> asked == seq![
                ActionView::LoadTopArtists(TimeRange::MediumTerm),
            ] && after.artists_phase == LoadPhase::Loading
            &&& asked.len() == 0 ==> after == before
        },
        _ => {
            &&& after.track_list_source is Some
            &&& tab_lists(tab, after.track_list_source->0)
            &&& after == ModelView {
                tracks: after.tracks,
                tracks_phase: after.tracks_phase,
                track_list_source: after.track_list_source,
                ..before
            }
            &&& (asked.len() == 0) == (before.track_list_source == after.track_list_source && !(
            forced || is_due(before.tracks_phase, now)))
            &&& asked.len() > 0 ==> asked.len() == 1 && fetches(
                asked[0],
                after.track_list_source->0,
            ) && after.tracks_phase == LoadPhase::Loading
            &&& asked.len() == 0 ==> after == before
            &&& after.tracks == if before.track_list_source == after.track_list_source {
                before.tracks
            } else {
                Seq::empty()
            }
        },
    }
}

/// Whether `after` is `before` on another screen, its first row selected where
/// it has rows. Typing goes on only where Search shows.
#[verifier::opaque]
pub open spec fn shows_screen(before: ModelView, after: ModelView, screen: Screen) -> bool {
    &&& after == ModelView { screen, mode: after.mode, list: after.list, ..before }
    &&& after.mode == if screen == Screen::Search {
        before.mode
    } else {
        Mode::Normal
    }
    &&& before.screen == screen ==> after.list == before.list
    &&& before.screen != screen ==> (after.list.selected is Some) == (after.active_len() > 0)
    &&& before.screen != screen && after.list.selected is Some ==> after.list.selected->0 == 0
        && after.list.offset == before.list.offset
}

/// Asking for a tab asks for what it shows.
proof fn lemma_tab_is_asked_for(m: ModelView, tab: LibraryTab, forced: bool, now: Moment)
    ensures
        asks_for_tab(m, tab_asked(m, tab, forced, now), tab, forced, now),
{
    reveal(asks_for_tab);
}

/// The model as a screen first shows, before its data is asked for.
spec fn turned_to(m: ModelView, screen: Screen) -> ModelView {
    let moved = ModelView { screen, ..m };
    let placed = if m.screen != screen {
        moved.selection_reset()
    } else {
        moved
    };
    ModelView {
        mode: if screen != Screen::Search {
            Mode::Normal
        } else {
            m.mode
        },
        ..placed
    }
}

/// Turning to a screen shows it.
proof fn lemma_turned_shows(m: ModelView, screen: Screen)
    ensures
        shows_screen(m, turned_to(m, screen), screen),
{
    reveal(shows_screen);
}

/// Entering Library, or reloading it, asks for what the current tab lists.
pub proof fn library_asks_for_its_tab(m: ModelView, now: Moment)
    ensures
        ({
            let step = stepped(m, Message::EnterScreen(Screen::Library), now);
            exists|shown: ModelView| #[trigger]
                shows_screen(m, shown, Screen::Library) && asks_for_tab(
                    shown,
                    step,
                    m.library_tab,
                    false,
                    now,
                )
        }),
        m.screen == Screen::Library ==> asks_for_tab(
            m,
            refreshed(m, now),
            m.library_tab,
            true,
            now,
        ),
{
    let shown = turned_to(m, Screen::Library);
    lemma_turned_shows(m, Screen::Library);
    lemma_tab_is_asked_for(shown, m.library_tab, false, now);
    lemma_tab_is_asked_for(m, m.library_tab, true, now);
    assert(stepped(m, Message::EnterScreen(Screen::Library), now) == tab_asked(
        shown,
        m.library_tab,
        false,
        now,
    ));
}

/// Whether a step has asked for the playlists, `forced` or only where they are
/// due.
pub open spec fn asks_for_playlists(
    before: ModelView,
    step: Step,
    forced: bool,
    now: Moment,
) -> bool {
    if forced || is_due(before.playlists_phase, now) {
        step == (
            ModelView { playlists_phase: LoadPhase::Loading, ..before },
            seq![ActionView::LoadPlaylists],
        )
    } else {
        step == (before, Seq::<ActionView>::empty())
    }
}

/// Entering Playlists, or reloading it, asks for the playlists; the other
/// screens have nothing to ask for when they are entered.
pub proof fn playlists_are_asked_for(m: ModelView, screen: Screen, now: Moment)
    requires
        screen != Screen::Library,
    ensures
        ({
            let step = stepped(m, Message::EnterScreen(screen), now);
            exists|shown: ModelView| #[trigger]
                shows_screen(m, shown, screen) && if screen == Screen::Playlists {
                    asks_for_playlists(shown, step, false, now)
                } else {
                    step == (shown, Seq::<ActionView>::empty())
                }
        }),
        m.screen == Screen::Playlists ==> asks_for_playlists(m, refreshed(m, now), true, now),
{
    lemma_turned_shows(m, screen);
}

/// A reload of an opened list asks for the list that is open, whatever its
/// phase.
pub proof fn a_reload_asks_for_the_open_list(m: ModelView, now: Moment)
    requires
        m.screen == Screen::Tracks,
        m.track_list_source is Some,
    ensures
        ({
            let (after, asked) = refreshed(m, now);
            &&& asked.len() == 1
            &&& fetches(asked[0], m.track_list_source->0)
            &&& after == ModelView { tracks_phase: LoadPhase::Loading, ..m }
        }),
{
}

/// Tab and Shift-Tab on Library lead to the neighbouring tab, select its first
/// row and ask for what it lists; on Search they lead to the neighbouring lane.
pub proof fn the_tab_key_asks_for_what_it_lists(m: ModelView, forward: bool, now: Moment)
    requires
        m.screen == Screen::Library || m.screen == Screen::Search,
    ensures
        ({
            let code = if forward {
                KeyCode::Tab
            } else {
                KeyCode::BackTab
            };
            let keyed = tab_keyed(m, code, now);
            &&& keyed is Some
            &&& m.screen == Screen::Library ==> {
                let tab = m.library_tab.moved(forward);
                let shown = ModelView { library_tab: tab, ..m }.selection_reset();
                asks_for_tab(shown, keyed->0, tab, false, now)
            }
            &&& m.screen == Screen::Search ==> {
                let lane = m.search_tab.moved(forward);
                keyed->0 == (
                    ModelView { search_tab: lane, ..m }.selection_reset(),
                    Seq::<ActionView>::empty(),
                )
            }
        }),
{
    let tab = m.library_tab.moved(forward);
    lemma_tab_is_asked_for(ModelView { library_tab: tab, ..m }.selection_reset(), tab, false, now);
}

/// What a Library tab asked for is what it then shows: the reply for the track
/// list of the tab is stored, its first row is selected, and it counts as fresh
/// from then on.
pub proof fn a_tab_shows_what_it_asked_for(
    m: ModelView,
    step: Step,
    source: TrackListSource,
    tracks: Vec<TrackItem>,
    asked: Moment,
    answered: Moment,
)
    requires
        m.screen == Screen::Library,
        m.library_tab == LibraryTab::TopTracks || m.library_tab == LibraryTab::RecentlyPlayed
            || m.library_tab == LibraryTab::Saved,
        asks_for_tab(m, step, m.library_tab, false, asked),
        tab_lists(m.library_tab, source@),
    ensures
        ({
            let reply = Message::TrackListLoaded { source, result: Ok(tracks) };
            let (after, requests) = stepped(step.0, reply, answered);
            &&& after == ModelView {
                tracks: views(tracks@),
                tracks_phase: LoadPhase::Loaded(answered),
                list: after.list,
                ..step.0
            }
            &&& (after.list.selected is Some) == (tracks@.len() > 0)
            &&& after.list.selected is Some ==> after.list.selected->0 == 0
            &&& requests.len() == 0
        }),
{
    assert(step.0.track_list_source == Some(source@) && step.0.screen == Screen::Library
        && step.0.library_tab == m.library_tab) by {
        reveal(asks_for_tab);
    }
}

/// Two Library tabs never list the same tracks.
pub proof fn tabs_list_different_tracks(a: LibraryTab, b: LibraryTab, source: SourceView)
    requires
        tab_lists(a, source),
        tab_lists(b, source),
    ensures
        a == b,
{
}

/// Whether the footer says what failed, and why.
pub open spec fn shows_failure(after: ModelView, what: Seq<char>, err: ApiError) -> bool {
    after.status == Some(what + err.text())
}

/// The selection after new rows have come: the first of them where the list
/// `shows`, and untouched where it does not.
pub open spec fn selects_first(
    before: ListState,
    after: ListState,
    shows: bool,
    rows: nat,
) -> bool {
    if shows {
        &&& after.selected == if rows > 0 {
            Some(0usize)
        } else {
            None
        }
        &&& rows > 0 ==> after.offset == before.offset
    } else {
        after == before
    }
}

/// Playlists that arrive are the playlists of the model, fresh from then on, and
/// show from their first row where Playlists shows; a failure is named and keeps
/// the playlists. Nothing else changes, and nothing is asked for.
pub proof fn playlists_go_to_the_playlists(
    m: ModelView,
    result: Result<Vec<PlaylistItem>, ApiError>,
    now: Moment,
)
    ensures
        ({
            let (after, asked) = stepped(m, Message::PlaylistsLoaded(result), now);
            &&& asked.len() == 0
            &&& match result {
                Ok(playlists) => after == ModelView {
                    playlists: views(playlists@),
                    playlists_phase: LoadPhase::Loaded(now),
                    list: after.list,
                    ..m
                } && selects_first(
                    m.list,
                    after.list,
                    m.screen == Screen::Playlists,
                    playlists@.len(),
                ),
                Err(err) => after == ModelView {
                    playlists_phase: LoadPhase::Failed,
                    status: after.status,
                    ..m
                } && shows_failure(after, "loading playlists failed: "@, err),
            }
        }),
{
}

/// The same of the saved albums, which show on their Library tab.
pub proof fn albums_go_to_the_albums(
    m: ModelView,
    result: Result<Vec<AlbumItem>, ApiError>,
    now: Moment,
)
    ensures
        ({
            let (after, asked) = stepped(m, Message::SavedAlbumsLoaded(result), now);
            &&& asked.len() == 0
            &&& match result {
                Ok(albums) => after == ModelView {
                    albums: views(albums@),
                    albums_phase: LoadPhase::Loaded(now),
                    list: after.list,
                    ..m
                } && selects_first(
                    m.list,
                    after.list,
                    m.screen == Screen::Library && m.library_tab == LibraryTab::Albums,
                    albums@.len(),
                ),
                Err(err) => after == ModelView {
                    albums_phase: LoadPhase::Failed,
                    status: after.status,
                    ..m
                } && shows_failure(after, "loading albums failed: "@, err),
            }
        }),
{
}

/// The same of the top artists, which show on their Library tab.
pub proof fn artists_go_to_the_artists(
    m: ModelView,
    result: Result<Vec<ArtistItem>, ApiError>,
    now: Moment,
)
    ensures
        ({
            let (after, asked) = stepped(m, Message::TopArtistsLoaded(result), now);
            &&& asked.len() == 0
            &&& match result {
                Ok(artists) => after == ModelView {
                    artists: views(artists@),
                    artists_phase: LoadPhase::Loaded(now),
                    list: after.list,
                    ..m
                } && selects_first(
                    m.list,
                    after.list,
                    m.screen == Screen::Library && m.library_tab == LibraryTab::TopArtists,
                    artists@.len(),
                ),
                Err(err) => after == ModelView {
                    artists_phase: LoadPhase::Failed,
                    status: after.status,
                    ..m
                } && shows_failure(after, "loading top artists failed: "@, err),
            }
        }),
{
}

/// Lanes that failed are named in their order, with what can be done about it:
/// the reload key where that is free, else another go at the query.
pub proof fn failed_lanes_say_how_to_retry(keys: Keybindings, lanes: Seq<Seq<char>>)
    ensures
        lanes_failed_text(keys, lanes) == "search failed for "@ + separated(lanes, ", "@) + "; "@
            + if keys.keys().contains('r') {
            "edit the query and press Enter"@
        } else {
            "press r to retry"@
        },
{
}

/// Search results are those of the model from then on, lane by lane, and show
/// from the first row of the lane where Search shows. Lanes that failed are
/// named; where the whole search failed, the results before it stay.
pub proof fn results_go_to_the_search(
    m: ModelView,
    result: Result<SearchResultset, ApiError>,
    now: Moment,
)
    ensures
        ({
            let (after, asked) = stepped(m, Message::SearchResults(result), now);
            &&& asked.len() == 0
            &&& match result {
                Ok(results) => {
                    &&& after == ModelView {
                        search_results: results@,
                        search_phase: LoadPhase::Loaded(now),
                        status: after.status,
                        list: after.list,
                        ..m
                    }
                    &&& results@.failed_lanes.len() == 0 ==> after.status == m.status
                    &&& results@.failed_lanes.len() > 0 ==> after.status is Some && (
                    "search failed for "@ + separated(
                        results@.failed_lanes,
                        ", "@,
                    )).is_prefix_of(after.status->0)
                    &&& selects_first(
                        m.list,
                        after.list,
                        m.screen == Screen::Search,
                        after.active_len(),
                    )
                },
                Err(err) => after == ModelView {
                    search_phase: LoadPhase::Failed,
                    status: after.status,
                    ..m
                } && shows_failure(after, "search failed: "@, err),
            }
        }),
{
    if let Ok(results) = result {
        if results@.failed_lanes.len() > 0 {
            let status = stepped(m, Message::SearchResults(result), now).0.status->0;
            let named = "search failed for "@ + separated(results@.failed_lanes, ", "@);
            assert(named =~= status.subrange(0, named.len() as int));
        }
    }
}

/// Tracks that arrive for the list that the model points at are its tracks from
/// then on; a failure of that list is named and keeps the tracks.
pub proof fn tracks_go_to_the_track_list(
    m: ModelView,
    source: TrackListSource,
    result: Result<Vec<TrackItem>, ApiError>,
    now: Moment,
)
    requires
        m.track_list_source == Some(source@),
    ensures
        ({
            let (after, asked) = stepped(m, Message::TrackListLoaded { source, result }, now);
            let opened = source@ is Playlist || source@ is Album;
            &&& asked.len() == 0
            &&& match result {
                Ok(tracks) => after == ModelView {
                    tracks: views(tracks@),
                    tracks_phase: LoadPhase::Loaded(now),
                    list: after.list,
                    ..m
                } && selects_first(
                    m.list,
                    after.list,
                    (opened && m.screen == Screen::Tracks) || (m.screen == Screen::Library && (
                    source@ is TopTracks && m.library_tab == LibraryTab::TopTracks
                        || source@ is RecentlyPlayed && m.library_tab == LibraryTab::RecentlyPlayed
                        || source@ is SavedTracks && m.library_tab == LibraryTab::Saved)),
                    tracks@.len(),
                ),
                Err(err) => after == ModelView {
                    tracks_phase: LoadPhase::Failed,
                    status: after.status,
                    ..m
                } && shows_failure(after, "loading tracks failed: "@, err),
            }
        }),
{
}

/// The selection moves one row down or up, to the first row, or to the last; it
/// stays where it is at either end. Nothing else changes, and nothing is asked
/// for.
pub proof fn the_selection_moves_row_by_row(m: ModelView, row: usize, now: Moment)
    requires
        m.list.selected == Some(row),
    ensures
        ({
            let (down, a) = stepped(m, Message::SelectNext, now);
            let (up, b) = stepped(m, Message::SelectPrevious, now);
            let (first, c) = stepped(m, Message::SelectFirst, now);
            let (last, d) = stepped(m, Message::SelectLast, now);
            &&& a.len() == 0 && b.len() == 0 && c.len() == 0 && d.len() == 0
            &&& down == ModelView { list: down.list, ..m } && down.list.offset == m.list.offset
            &&& up == ModelView { list: up.list, ..m } && up.list.offset == m.list.offset
            &&& first == ModelView { list: first.list, ..m } && first.list.offset == m.list.offset
            &&& last == ModelView { list: last.list, ..m } && last.list.offset == m.list.offset
            &&& down.list.selected is Some && up.list.selected is Some
            &&& row < usize::MAX ==> down.list.selected->0 == row + 1
            &&& row > 0 ==> up.list.selected->0 == row - 1
            &&& row == 0 ==> up.list.selected->0 == 0
            &&& first.list.selected == Some(0usize)
            &&& last.list.selected is Some && last.list.selected->0 + 1 >= m.active_len()
                || m.active_len() > usize::MAX
            &&& row < usize::MAX ==> stepped(down, Message::SelectPrevious, now).0.list.selected
                == Some(row)
        }),
{
}

/// A page further on or back is fifteen rows, as far as the list has them.
pub proof fn a_page_is_fifteen_rows(m: ModelView, row: usize)
    requires
        m.list.selected == Some(row),
        row < m.active_len() <= usize::MAX,
    ensures
        ({
            let down = paged(m, true);
            let up = paged(m, false);
            let last = m.active_len() - 1;
            &&& down == ModelView { list: down.list, ..m } && up == ModelView { list: up.list, ..m }
            &&& down.list.selected is Some && up.list.selected is Some
            &&& row + 15 <= last ==> down.list.selected->0 == row + 15
            &&& row + 15 > last ==> down.list.selected->0 == last
            &&& row >= 15 ==> up.list.selected->0 == row - 15
            &&& row < 15 ==> up.list.selected->0 == 0
        }),
{
}

/// The number of rows that the selection ranges over is that of the list that
/// the screen and its tab show.
pub proof fn the_active_list_is_the_one_on_screen(m: ModelView)
    ensures
        m.screen == Screen::Playlists ==> m.active_len() == m.playlists.len(),
        m.screen == Screen::Tracks ==> m.active_len() == m.tracks.len(),
        m.screen == Screen::Queue ==> m.active_len() == m.queue.len(),
        m.screen == Screen::Library && m.library_tab == LibraryTab::Albums ==> m.active_len()
            == m.albums.len(),
        m.screen == Screen::Library && m.library_tab == LibraryTab::TopArtists ==> m.active_len()
            == m.artists.len(),
        forall|tracks: Seq<TrackView>| #[trigger]
            plays_from(m, tracks) ==> m.active_len() == tracks.len(),
        m.screen == Screen::Search && m.search_tab == SearchTab::Albums ==> m.active_len()
            == m.search_results.albums.len(),
        m.screen == Screen::Search && m.search_tab == SearchTab::Artists ==> m.active_len()
            == m.search_results.artists.len(),
        m.screen == Screen::Search && m.search_tab == SearchTab::Playlists ==> m.active_len()
            == m.search_results.playlists.len(),
{
}

/// Esc leads from an opened list back to the screen that it was opened from, and
/// does nothing elsewhere.
pub proof fn escape_leaves_an_opened_list(m: ModelView, now: Moment)
    ensures
        m.screen == Screen::Tracks ==> escaped(m, now) == stepped(
            m,
            Message::EnterScreen(m.tracks_origin),
            now,
        ),
        m.screen != Screen::Tracks ==> escaped(m, now) == (m, Seq::<ActionView>::empty()),
{
}

} // verus!
