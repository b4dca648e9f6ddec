//! The reducer: from a model and a message to the next model and the actions to
//! carry out.
//!
//! It performs no I/O; each rule is stated as a function from one model value to
//! the next and proved of the code beside it.

use vstd::prelude::*;
use crate::clock::Moment;
use crate::message::{no_actions, Action, ActionView, Message};
use crate::state::{Model, ModelView};
use crate::text::views;
use crate::update::activate::{activate_selection, activated};
use crate::update::key_routing::{
    cycle_repeat, enter_insert, exit_insert, inserting, key_press, keyed, navigating, quiet, quit,
    quitting, repeat_cycled,
};
use crate::update::laws::cursor_stays_on_a_boundary;
use crate::update::loading::{
    albums_answered, albums_loaded, artists_answered, enter_screen, playlists_answered,
    playlists_loaded, row_after, row_before, screen_entered, search_answered, search_results,
    select_first, select_last, select_next, select_previous, top_artists_loaded, tracks_answered,
    tracks_loaded, with_selection,
};
use crate::update::playback::{
    advanced, engine_reported, next_track, playback_event, previous_track, seek_relative, sought,
    toggle_play_pause, toggled, volume_changed, volume_delta, went_back,
};
use crate::update::queue::{
    like_answered, like_toggled, queue_selected, queued_selected, remove_queued, removed_queued,
    saved_toggled, shuffle_toggled, toggle_like, toggle_shuffle,
};
use crate::update::search::{
    backspaced, search_backspace, search_input_char, search_submit, submitted, tick, ticked, typed,
    with_search,
};

pub mod activate;
pub mod browse_laws;
pub mod entry_laws;
pub mod key_laws;
pub mod key_routing;
pub mod laws;
pub mod loading;
pub mod loading_laws;
pub mod now_playing_laws;
pub mod playback;
pub mod playback_laws;
pub mod queue;
pub mod queue_laws;
pub mod search;
pub mod search_laws;
pub mod shuffle;
pub mod shuffle_laws;
pub mod step_laws;
pub mod transport_laws;

verus! {

/// Debounce window (milliseconds) before a typed query is dispatched.
pub const SEARCH_DEBOUNCE_MS: u128 = 300;

/// The next model and the actions to carry out.
pub type Step = (ModelView, Seq<ActionView>);

/// What a message does to the model at the moment `now`, and what it asks for.
pub open spec fn stepped(m: ModelView, msg: Message, now: Moment) -> Step {
    match msg {
        Message::Quit => quiet(quitting(m)),
        Message::Tick => ticked(m, now),
        Message::KeyPress(key) => keyed(m, key, now),
        Message::Resize(_, _) => quiet(m),
        Message::EnterScreen(screen) => screen_entered(m, screen, now),
        Message::EnterInsertMode => quiet(inserting(m)),
        Message::ExitInsertMode => quiet(navigating(m)),
        Message::SearchInputChar(c) => quiet(with_search(m, typed(m.search, c, now))),
        Message::SearchBackspace => quiet(with_search(m, backspaced(m.search, now))),
        Message::SearchSubmit => submitted(m),
        Message::SearchResults(result) => quiet(search_answered(m, result, now)),
        Message::SelectNext => quiet(with_selection(m, row_after(m.list))),
        Message::SelectPrevious => quiet(with_selection(m, row_before(m.list))),
        Message::SelectFirst => quiet(with_selection(m, 0)),
        Message::SelectLast => quiet(with_selection(m, usize::MAX)),
        Message::ActivateSelection => activated(m, now),
        Message::PlaylistsLoaded(result) => quiet(playlists_answered(m, result, now)),
        Message::TrackListLoaded { source, result } => quiet(
            tracks_answered(m, source@, result, now),
        ),
        Message::TopArtistsLoaded(result) => quiet(artists_answered(m, result, now)),
        Message::SavedAlbumsLoaded(result) => quiet(albums_answered(m, result, now)),
        Message::PlaybackEvent(event) => engine_reported(m, event),
        Message::TogglePlayPause => (m, toggled(m)),
        Message::NextTrack => advanced(m, true),
        Message::PrevTrack => went_back(m),
        Message::SeekRelative(delta) => (m, sought(m, delta as int)),
        Message::VolumeDelta(delta) => volume_changed(m, delta as int, now),
        Message::ToggleShuffle => shuffle_toggled(m, now),
        Message::CycleRepeat => quiet(repeat_cycled(m)),
        Message::ToggleLike => like_toggled(m),
        Message::SavedToggled(result) => quiet(like_answered(m, result)),
        Message::QueueSelected => queued_selected(m),
        Message::RemoveQueued => removed_queued(m),
        Message::Error(text) => quiet(m.with_status(text@)),
    }
}

/// Apply `msg` to `model` at the moment `now`, returning the actions to execute.
pub fn update_at(model: &mut Model, msg: Message, now: Moment) -> (actions: Vec<Action>)
    requires
        old(model)@.wf(),
    ensures
        (final(model)@, views(actions@)) == stepped(old(model)@, msg, now),
        final(model)@.wf(),
{
    proof {
        cursor_stays_on_a_boundary(model@, msg, now);
    }
    match msg {
        Message::Quit => quit(model),
        Message::Tick => tick(model, now),
        Message::KeyPress(key) => key_press(model, key, now),
        Message::EnterScreen(screen) => enter_screen(model, screen, now),
        Message::EnterInsertMode => enter_insert(model),
        Message::ExitInsertMode => exit_insert(model),
        Message::SearchInputChar(c) => search_input_char(model, c, now),
        Message::SearchBackspace => search_backspace(model, now),
        Message::SearchSubmit => search_submit(model),
        Message::SearchResults(result) => search_results(model, result, now),
        Message::SelectNext => select_next(model),
        Message::SelectPrevious => select_previous(model),
        Message::SelectFirst => select_first(model),
        Message::SelectLast => select_last(model),
        Message::ActivateSelection => activate_selection(model, now),
        Message::PlaylistsLoaded(result) => playlists_loaded(model, result, now),
        Message::TrackListLoaded { source, result } => tracks_loaded(model, &source, result, now),
        Message::SavedAlbumsLoaded(result) => albums_loaded(model, result, now),
        Message::TopArtistsLoaded(result) => top_artists_loaded(model, result, now),
        Message::PlaybackEvent(event) => playback_event(model, event),
        Message::TogglePlayPause => toggle_play_pause(model),
        Message::NextTrack => next_track(model),
        Message::PrevTrack => previous_track(model),
        Message::SeekRelative(delta) => seek_relative(model, delta),
        Message::VolumeDelta(delta) => volume_delta(model, delta, now),
        Message::ToggleShuffle => toggle_shuffle(model, now),
        Message::CycleRepeat => cycle_repeat(model),
        Message::ToggleLike => toggle_like(model),
        Message::SavedToggled(result) => saved_toggled(model, result),
        Message::QueueSelected => queue_selected(model),
        Message::RemoveQueued => remove_queued(model),
        // Window resize is handled by the next draw, not the model.
        Message::Resize(_, _) => no_actions(),
        Message::Error(text) => {
            model.set_error(text);
            no_actions()
        },
    }
}

/// Apply `msg` to `model`, returning the actions to execute.
///
/// The moment is the reading of the model's own clock: whatever it reads, the
/// step is the one for that moment.
pub fn update(model: &mut Model, msg: Message) -> (actions: Vec<Action>)
    requires
        old(model)@.wf(),
    ensures
        exists|now: Moment|
            now.nanos >= 0 && (final(model)@, views(actions@)) == #[trigger] stepped(
                old(model)@,
                msg,
                now,
            ),
        final(model)@.wf(),
{
    let now = model.clock.now();
    update_at(model, msg, now)
}

} // verus!
