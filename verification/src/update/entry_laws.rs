//! Laws of the queue's entries and of the simple switches: what is added is what
//! was selected, what is removed is the selected row, and liking, repeating and
//! messages change nothing else.

use vstd::prelude::*;
use crate::clock::{Clock, Moment};
use crate::config::{Keybindings, ThemeColors};
use crate::error::ApiError;
use crate::message::{ActionView, Message};
use crate::model::{lemma_first_with_id, track_ids, PlaybackState, SourceView, TrackView};
use crate::state::{
    fresh_model, found, LibraryTab, ListState, LoadPhase, Mode, ModelView, PlaybackHealth,
    RepeatMode, Screen, SearchTab,
};
use crate::update::queue::{queued_selected, removed_queued};
use crate::update::{stepped, Step};

verus! {

/// Whether `track` is on the selected row of a list of tracks.
pub open spec fn is_selected(m: ModelView, track: TrackView) -> bool {
    &&& m.list.selected is Some
    &&& {
        let row = m.list.selected->0 as int;
        ||| m.screen == Screen::Tracks && row < m.tracks.len() && m.tracks[row] == track
        ||| m.screen == Screen::Library && m.library_tab != LibraryTab::Albums && m.library_tab
            != LibraryTab::TopArtists && row < m.tracks.len() && m.tracks[row] == track
        ||| m.screen == Screen::Search && m.search_tab == SearchTab::Tracks && row
            < m.search_results.tracks.len() && m.search_results.tracks[row] == track
        ||| m.screen == Screen::Queue && row < m.queue.len() && m.queue[row] == track
    }
}

/// Whether a step hands the player the ids of `queue`, with the cursor.
#[verifier::opaque]
pub open spec fn hands_over(step: Step, queue: Seq<TrackView>, cursor: Option<usize>) -> bool {
    step.1 == seq![ActionView::PlayerSetQueue { queue: track_ids(queue), cursor }]
}

/// Whether a step only puts a message into the footer.
#[verifier::opaque]
pub open spec fn only_says(m: ModelView, step: Step) -> bool {
    &&& step.1.len() == 0
    &&& step.0.status is Some
    &&& step.0 == ModelView { status: step.0.status, ..m }
}

/// The ids handed over are those of the entries, place by place.
pub proof fn ids_keep_their_places(tracks: Seq<TrackView>, at: int)
    requires
        0 <= at < tracks.len(),
    ensures
        track_ids(tracks).len() == tracks.len(),
        track_ids(tracks)[at] == tracks[at].id,
{
}

/// A queue key does what its step does.
proof fn lemma_queue_messages(m: ModelView, now: Moment)
    ensures
        stepped(m, Message::QueueSelected, now) == queued_selected(m),
        stepped(m, Message::RemoveQueued, now) == removed_queued(m),
{
}

/// What [`queueing_appends_the_selected_track`] states, of the step itself.
proof fn lemma_queueing(m: ModelView, track: TrackView)
    requires
        is_selected(m, track),
        m.queue.len() > 0,
        m.cursor is Some,
    ensures
        ({
            let (after, asked) = queued_selected(m);
            &&& after.queue.len() == m.queue.len() + 1
            &&& after.queue.last() == track
            &&& forall|i: int| 0 <= i < m.queue.len() ==> #[trigger] after.queue[i] == m.queue[i]
            &&& after == ModelView { queue: after.queue, shuffle_order: after.shuffle_order, ..m }
            &&& hands_over((after, asked), after.queue, m.cursor)
            &&& m.shuffle_order is None ==> after.shuffle_order is None
        }),
{
    reveal(hands_over);
}

/// Queueing adds the selected track behind all entries, and tells the player;
/// playback stays where it is.
pub proof fn queueing_appends_the_selected_track(m: ModelView, track: TrackView, now: Moment)
    requires
        is_selected(m, track),
        m.queue.len() > 0,
        m.cursor is Some,
    ensures
        ({
            let (after, asked) = stepped(m, Message::QueueSelected, now);
            &&& after.queue.len() == m.queue.len() + 1
            &&& after.queue.last() == track
            &&& forall|i: int| 0 <= i < m.queue.len() ==> #[trigger] after.queue[i] == m.queue[i]
            &&& after == ModelView { queue: after.queue, shuffle_order: after.shuffle_order, ..m }
            &&& hands_over((after, asked), after.queue, m.cursor)
            &&& m.shuffle_order is None ==> after.shuffle_order is None
        }),
{
    lemma_queue_messages(m, now);
    lemma_queueing(m, track);
}

/// Without playback nothing is queued.
pub proof fn queueing_needs_playback(m: ModelView, now: Moment)
    requires
        m.queue.len() == 0 || m.cursor is None || m.list.selected is None,
    ensures
        only_says(m, stepped(m, Message::QueueSelected, now)),
{
    lemma_queue_messages(m, now);
    reveal(only_says);
}

/// What [`removing_takes_the_selected_row_out`] states, of the step itself.
proof fn lemma_removing(m: ModelView, row: usize)
    requires
        m.screen == Screen::Queue,
        m.list.selected == Some(row),
        row < m.queue.len(),
        m.cursor != Some(row),
    ensures
        ({
            let (after, asked) = removed_queued(m);
            &&& after.queue.len() == m.queue.len() - 1
            &&& forall|i: int| 0 <= i < row ==> #[trigger] after.queue[i] == m.queue[i]
            &&& forall|i: int|
                row <= i < after.queue.len() ==> #[trigger] after.queue[i] == m.queue[i + 1]
            &&& after == ModelView {
                queue: after.queue,
                cursor: after.cursor,
                shuffle_order: after.shuffle_order,
                list: after.list,
                ..m
            }
            &&& m.cursor is Some == after.cursor is Some
            &&& m.cursor is Some && m.cursor->0 < m.queue.len() ==> after.cursor->0
                < after.queue.len() && after.queue[after.cursor->0 as int]
                == m.queue[m.cursor->0 as int]
            &&& hands_over((after, asked), after.queue, after.cursor)
        }),
{
    reveal(hands_over);
}

/// Removing takes exactly the selected row out of the queue and tells the
/// player; the entry under the cursor stays under it.
pub proof fn removing_takes_the_selected_row_out(m: ModelView, row: usize, now: Moment)
    requires
        m.screen == Screen::Queue,
        m.list.selected == Some(row),
        row < m.queue.len(),
        m.cursor != Some(row),
    ensures
        ({
            let (after, asked) = stepped(m, Message::RemoveQueued, now);
            &&& after.queue.len() == m.queue.len() - 1
            &&& forall|i: int| 0 <= i < row ==> #[trigger] after.queue[i] == m.queue[i]
            &&& forall|i: int|
                row <= i < after.queue.len() ==> #[trigger] after.queue[i] == m.queue[i + 1]
            &&& after == ModelView {
                queue: after.queue,
                cursor: after.cursor,
                shuffle_order: after.shuffle_order,
                list: after.list,
                ..m
            }
            &&& m.cursor is Some == after.cursor is Some
            &&& m.cursor is Some && m.cursor->0 < m.queue.len() ==> after.cursor->0
                < after.queue.len() && after.queue[after.cursor->0 as int]
                == m.queue[m.cursor->0 as int]
            &&& hands_over((after, asked), after.queue, after.cursor)
        }),
{
    lemma_queue_messages(m, now);
    lemma_removing(m, row);
}

/// The selection stays on its row after a removal, and moves to the last one
/// where that row is gone.
pub proof fn the_selection_survives_a_removal(m: ModelView, row: usize, now: Moment)
    requires
        m.screen == Screen::Queue,
        m.list.selected == Some(row),
        row < m.queue.len(),
        m.cursor != Some(row),
    ensures
        ({
            let list = stepped(m, Message::RemoveQueued, now).0.list;
            &&& row < m.queue.len() - 1 ==> list == m.list
            &&& row == m.queue.len() - 1 && row > 0 ==> list.selected == Some((row - 1) as usize)
            &&& m.queue.len() == 1 ==> list == (ListState { offset: 0, selected: None })
        }),
{
    lemma_queue_messages(m, now);
}

/// The playing entry cannot be removed, and elsewhere than on the Queue screen
/// nothing is.
pub proof fn the_playing_entry_stays(m: ModelView, now: Moment)
    ensures
        m.screen == Screen::Queue && m.list.selected is Some && m.list.selected == m.cursor
            && m.cursor->0 < m.queue.len() ==> only_says(m, stepped(m, Message::RemoveQueued, now)),
        m.screen != Screen::Queue || m.list.selected is None || m.list.selected->0 >= m.queue.len()
            ==> stepped(m, Message::RemoveQueued, now) == (m, Seq::<ActionView>::empty()),
{
    lemma_queue_messages(m, now);
    reveal(only_says);
}

/// Removing the row that was just queued gives back the queue and the cursor.
pub proof fn removing_undoes_queueing(m: ModelView, track: TrackView)
    requires
        is_selected(m, track),
        m.queue.len() > 0,
        m.queue.len() < usize::MAX,
        m.cursor is Some,
        m.cursor->0 < m.queue.len(),
    ensures
        ({
            let longer = queued_selected(m).0;
            let there = ModelView {
                screen: Screen::Queue,
                list: ListState { offset: 0, selected: Some(m.queue.len() as usize) },
                ..longer
            };
            let after = removed_queued(there).0;
            after.queue == m.queue && after.cursor == m.cursor
        }),
{
    lemma_queueing(m, track);
    let longer = queued_selected(m).0;
    let there = ModelView {
        screen: Screen::Queue,
        list: ListState { offset: 0, selected: Some(m.queue.len() as usize) },
        ..longer
    };
    lemma_removing(there, m.queue.len() as usize);
    let after = removed_queued(there).0;
    assert(after.queue =~= m.queue);
}

/// Liking asks for the playing track, once at a time: while an answer is due,
/// nothing more is asked for, and without a playing track there is nothing to
/// like.
pub proof fn liking_asks_for_the_playing_track(m: ModelView, now: Moment)
    ensures
        ({
            let step = stepped(m, Message::ToggleLike, now);
            &&& m.like_in_flight ==> step == (m, Seq::<ActionView>::empty())
            &&& !m.like_in_flight && m.now_playing_track is Some ==> step == (
                ModelView { like_in_flight: true, ..m },
                seq![ActionView::ToggleSaved(m.now_playing_track->0)],
            )
            &&& !m.like_in_flight && m.now_playing_track is None ==> only_says(m, step)
        }),
{
    reveal(only_says);
}

/// The answer to a like says what became of the track, and allows the next one.
/// Where the saved tracks are the list at hand, they are due for a reload.
pub proof fn a_like_is_answered(m: ModelView, result: Result<bool, ApiError>, now: Moment)
    ensures
        ({
            let (after, asked) = stepped(m, Message::SavedToggled(result), now);
            &&& asked.len() == 0
            &&& after == ModelView {
                like_in_flight: false,
                tracks_phase: after.tracks_phase,
                status: after.status,
                ..m
            }
            &&& result is Ok && m.track_list_source == Some(SourceView::SavedTracks)
                ==> after.tracks_phase == LoadPhase::Idle
            &&& result is Err || m.track_list_source != Some(SourceView::SavedTracks)
                ==> after.tracks_phase == m.tracks_phase
            &&& result == Ok::<bool, ApiError>(true) ==> after.status == Some(
                "saved to your library"@,
            )
            &&& result == Ok::<bool, ApiError>(false) ==> after.status == Some(
                "removed from your library"@,
            )
            &&& result is Err ==> after.status == Some(
                "updating your library failed: "@ + result->Err_0.text(),
            )
        }),
{
}

/// The repeat key goes from off to all to one and back to off, and changes
/// nothing else.
pub proof fn repeat_goes_round(m: ModelView, now: Moment)
    ensures
        ({
            let (after, asked) = stepped(m, Message::CycleRepeat, now);
            &&& asked.len() == 0
            &&& after == ModelView { repeat: after.repeat, ..m }
            &&& m.repeat == RepeatMode::Off ==> after.repeat == RepeatMode::All
            &&& m.repeat == RepeatMode::All ==> after.repeat == RepeatMode::One
            &&& m.repeat == RepeatMode::One ==> after.repeat == RepeatMode::Off
        }),
{
}

/// An error shows in the footer as it is said, a resize changes nothing, and
/// entering or leaving the search box changes the input mode alone.
pub proof fn plain_messages_change_one_thing(m: ModelView, text: String, now: Moment)
    ensures
        stepped(m, Message::Error(text), now) == (
            ModelView { status: Some(text@), ..m },
            Seq::<ActionView>::empty(),
        ),
        stepped(m, Message::EnterInsertMode, now) == (
            ModelView { mode: Mode::Insert, ..m },
            Seq::<ActionView>::empty(),
        ),
        stepped(m, Message::ExitInsertMode, now) == (
            ModelView { mode: Mode::Normal, ..m },
            Seq::<ActionView>::empty(),
        ),
        forall|width: u16, height: u16|
            #[trigger] stepped(m, Message::Resize(width, height), now) == (
                m,
                Seq::<ActionView>::empty(),
            ),
{
}

/// A track is found by its id: it is the first of the list that has it, and
/// none where no track does.
pub proof fn tracks_are_found_by_id(tracks: Seq<TrackView>, id: Seq<char>)
    ensures
        found(tracks, id) is Some ==> exists|at: int|
            {
                &&& 0 <= at < tracks.len()
                &&& #[trigger] tracks[at] == found(tracks, id)->0
                &&& tracks[at].id == id
                &&& forall|k: int| 0 <= k < at ==> (#[trigger] tracks[k]).id != id
            },
        found(tracks, id) is None ==> forall|k: int|
            0 <= k < tracks.len() ==> (#[trigger] tracks[k]).id != id,
{
    lemma_first_with_id(tracks, id);
}

/// Starting over selects the first row of the list on screen, or none of an
/// empty one, and changes nothing else.
pub proof fn starting_over_selects_the_first_row(m: ModelView)
    ensures
        ({
            let after = m.selection_reset();
            &&& after == ModelView { list: after.list, ..m }
            &&& m.active_len() > 0 ==> after.list.selected == Some(0usize) && after.list.offset
                == m.list.offset
            &&& m.active_len() == 0 ==> after.list.selected is None && after.list.offset == 0
        }),
{
}

/// A fresh model shows the empty search, with nothing loaded, nothing playing
/// and nothing asked for.
pub proof fn a_fresh_model_is_empty(
    clock: Clock,
    now: Moment,
    keybindings: Keybindings,
    theme: ThemeColors,
)
    ensures
        ({
            let m = fresh_model(clock, now, keybindings, theme);
            &&& m.keybindings == keybindings && m.theme == theme && m.clock == clock
            &&& m.screen == Screen::Search && m.mode == Mode::Normal
            &&& m.search.query.len() == 0 && m.search.cursor == 0 && !m.search.pending
            &&& m.search_tab == SearchTab::Tracks && m.library_tab == LibraryTab::TopTracks
            &&& m.list.selected is None && m.list.offset == 0
            &&& m.playlists.len() == 0 && m.playlists_phase == LoadPhase::Idle
            &&& m.tracks.len() == 0 && m.tracks_phase == LoadPhase::Idle
            &&& m.track_list_source is None
            &&& m.artists.len() == 0 && m.artists_phase == LoadPhase::Idle
            &&& m.albums.len() == 0 && m.albums_phase == LoadPhase::Idle
            &&& m.search_results.tracks.len() == 0 && m.search_results.albums.len() == 0
            &&& m.search_results.artists.len() == 0 && m.search_results.playlists.len() == 0
            &&& m.search_results.failed_lanes.len() == 0 && m.search_phase == LoadPhase::Idle
            &&& m.now_playing.track is None && m.now_playing.artist is None
            &&& m.now_playing.state == PlaybackState::Stopped && m.now_playing.volume == 0
            &&& m.now_playing.position_ms == 0 && m.now_playing.duration_ms == 0
            &&& m.now_playing_track is None && m.now_playing_metadata_track is None
            &&& m.queue.len() == 0 && m.cursor is None && !m.shuffle && m.shuffle_order is None
            &&& m.repeat == RepeatMode::Off && m.health == PlaybackHealth::Healthy
            &&& m.status is None && m.volume_overlay_until is None
            &&& !m.like_in_flight && !m.should_quit
        }),
{
}

} // verus!
