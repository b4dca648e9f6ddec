//! Laws of requests and replies: nothing is fetched twice, stale replies are
//! dropped, and a typed search is asked for once.

use vstd::prelude::*;
use crate::clock::{nanos_between, Moment};
use crate::error::ApiError;
use crate::message::ActionView;
use crate::model::{SourceView, TrackItem};
use crate::state::{LibraryTab, LoadPhase, ModelView, RepeatMode, Screen, SearchTab, SearchView};
use crate::text::lemma_utf8_total_push;
use crate::update::key_routing::escaped;
use crate::update::loading::{
    drilled, needs_request, paged, refreshed, screen_entered, shows_source, tab_asked, tracks_answered,
    LIBRARY_TTL_SECS,
};
use crate::update::queue::like_toggled;
use crate::update::search::{
    backspaced, chars_before, lemma_cursor_place, moved_left, moved_right, ticked, typed,
};
use crate::update::SEARCH_DEBOUNCE_MS;

verus! {

/// A request in flight, and data younger than the limit, need no request.
pub proof fn fresh_and_pending_data_is_not_asked_for(phase: LoadPhase, at: Moment, now: Moment)
    ensures
        !needs_request(LoadPhase::Loading, false, now),
        needs_request(LoadPhase::Loaded(at), false, now) == (nanos_between(at, now)
            >= LIBRARY_TTL_SECS * 1_000_000_000),
        needs_request(LoadPhase::Idle, false, now),
        needs_request(LoadPhase::Failed, false, now),
        needs_request(phase, true, now),
{
}

/// Entering a screen again while its request is in flight asks for nothing.
pub proof fn reentering_asks_once(m: ModelView, screen: Screen, now: Moment, later: Moment)
    requires
        screen_entered(m, screen, now).1.len() > 0,
    ensures
        screen_entered(screen_entered(m, screen, now).0, screen, later).1.len() == 0,
{
}

/// Asking for a Library tab again while its request is in flight asks for
/// nothing.
pub proof fn a_tab_is_asked_for_once(m: ModelView, tab: LibraryTab, now: Moment, later: Moment)
    requires
        tab_asked(m, tab, false, now).1.len() > 0,
    ensures
        tab_asked(tab_asked(m, tab, false, now).0, tab, false, later).1.len() == 0,
{
}

/// Opening another list never shows the rows of the one before it.
pub proof fn opening_another_list_shows_no_stale_rows(
    m: ModelView,
    origin: Screen,
    source: SourceView,
    now: Moment,
)
    requires
        m.track_list_source != Some(source),
    ensures
        ({
            let step = drilled(m, origin, source, now);
            &&& step.0.tracks.len() == 0
            &&& step.0.tracks_phase == LoadPhase::Loading
            &&& step.0.track_list_source == Some(source)
            &&& step.0.screen == Screen::Tracks
            &&& step.0.tracks_origin == origin
            &&& step.1.len() == 1
        }),
{
}

/// Escape leads from a drilled-in list back to the screen it was entered from,
/// whatever was loaded in between.
pub proof fn escape_returns_to_the_origin(
    m: ModelView,
    origin: Screen,
    source: SourceView,
    entered: Moment,
    left: Moment,
)
    ensures
        escaped(drilled(m, origin, source, entered).0, left).0.screen == origin,
{
}

/// A forced reload asks for the data of the active screen even where it is
/// fresh or on its way.
pub proof fn a_reload_always_asks(m: ModelView, now: Moment)
    requires
        m.screen == Screen::Playlists || m.screen == Screen::Library || (m.screen == Screen::Tracks
            && m.track_list_source is Some) || (m.screen == Screen::Search
            && m.search.query.len() > 0),
    ensures
        refreshed(m, now).1.len() == 1,
{
}

/// A reply for a source that no longer owns the track list leaves the tracks
/// and their phase alone; where it succeeded it changes nothing at all.
pub proof fn stale_replies_are_dropped(
    m: ModelView,
    source: SourceView,
    result: Result<Vec<TrackItem>, ApiError>,
    now: Moment,
)
    requires
        m.track_list_source != Some(source),
    ensures
        tracks_answered(m, source, result, now).tracks == m.tracks,
        tracks_answered(m, source, result, now).tracks_phase == m.tracks_phase,
        tracks_answered(m, source, result, now).list == m.list,
        result is Ok ==> tracks_answered(m, source, result, now) == m,
{
}

/// A reply never moves the selection of a screen that does not show it.
pub proof fn late_replies_keep_the_selection(
    m: ModelView,
    source: SourceView,
    result: Result<Vec<TrackItem>, ApiError>,
    now: Moment,
)
    requires
        !shows_source(m, source),
    ensures
        tracks_answered(m, source, result, now).list == m.list,
{
}

/// The selection after a reset is the first row of the visible list, or none
/// where it is empty.
pub proof fn a_reset_selects_a_visible_row(m: ModelView)
    ensures
        m.selection_reset().list.selected is Some == (m.active_len() > 0),
        m.selection_reset().list.selected is Some ==> m.selection_reset().list.selected->0 == 0,
{
}

/// Paging always lands on a row of a list that has rows, wherever the selection
/// was before.
pub proof fn paging_lands_on_a_row(m: ModelView, forward: bool)
    requires
        0 < m.active_len() <= usize::MAX,
    ensures
        paged(m, forward).list.selected is Some,
        paged(m, forward).list.selected->0 < m.active_len(),
{
}

/// A typed character is asked for exactly when the debounce window has passed,
/// and then only once.
pub proof fn a_typed_search_is_asked_for_once(m: ModelView, now: Moment, later: Moment)
    requires
        m.search.pending,
        m.search.query.len() > 0,
    ensures
        (ticked(m, now).1.len() > 0) == (nanos_between(m.search.last_input, now)
            >= SEARCH_DEBOUNCE_MS * 1_000_000),
        ticked(m, now).1.len() > 0 ==> ticked(ticked(m, now).0, later).1.len() == 0,
{
}

/// Backspace undoes typing: query and cursor are those from before.
pub proof fn backspace_undoes_typing(search: SearchView, c: char, now: Moment, later: Moment)
    requires
        search.wf(),
    ensures
        backspaced(typed(search, c, now), later).query == search.query,
        backspaced(typed(search, c, now), later).cursor == search.cursor,
{
    let at = chars_before(search);
    assert(search.cursor_at(at));
    let longer = typed(search, c, now);
    assert(longer.query.take(at + 1) =~= search.query.take(at).push(c));
    lemma_utf8_total_push(search.query.take(at), c);
    lemma_cursor_place(longer, at + 1);
    assert(longer.query.remove(at) =~= search.query);
}

/// Moving right and then left comes back to the same place, unless the cursor
/// was at the end.
pub proof fn moving_left_undoes_moving_right(search: SearchView)
    requires
        search.wf(),
        chars_before(search) < search.query.len(),
    ensures
        moved_left(moved_right(search)) == search,
{
    let at = chars_before(search);
    assert(search.cursor_at(at));
    assert(search.query.take(at + 1) =~= search.query.take(at).push(search.query[at]));
    lemma_utf8_total_push(search.query.take(at), search.query[at]);
    lemma_cursor_place(moved_right(search), at + 1);
}

/// A second like while the first is unanswered asks for nothing.
pub proof fn likes_are_single_flight(m: ModelView)
    ensures
        like_toggled(m).1.len() > 0 ==> like_toggled(like_toggled(m).0) == (
            like_toggled(m).0,
            Seq::<ActionView>::empty(),
        ),
{
}

/// Cycling tabs forward and back returns to the same tab, and going round
/// visits every tab once.
pub proof fn tabs_cycle(tab: LibraryTab, lane: SearchTab)
    ensures
        tab.moved(true).moved(false) == tab,
        tab.moved(false).moved(true) == tab,
        tab.moved(true).moved(true).moved(true).moved(true).moved(true) == tab,
        lane.moved(true).moved(false) == lane,
        lane.moved(false).moved(true) == lane,
        lane.moved(true).moved(true).moved(true).moved(true) == lane,
{
}

/// Three presses of the repeat key come back to the same mode, through both
/// others.
pub proof fn repeat_modes_cycle(mode: RepeatMode)
    ensures
        mode.following().following().following() == mode,
        mode.following() != mode,
        mode.following().following() != mode,
        mode.following().following() != mode.following(),
{
}

} // verus!
