//! Editing the playback queue: shuffle, append, remove, and likes.

use vstd::prelude::*;
use crate::clock::Moment;
use crate::error::ApiError;
use crate::message::{no_actions, one_action, Action, ActionView};
use crate::model::{
    clone_track_id, ids_of, track_ids, SourceView, TrackItem, TrackListSource, TrackView,
};
use crate::state::{ListState, LoadPhase, Model, ModelView, Screen};
use crate::text::{joined, view_of, views};
use crate::update::playback::{active_track_list, shown_tracks};
use crate::update::shuffle::{
    drop_from_order, find_place, index_of_place, is_order, order_without, permute, permuted, restore,
    restored, shuffle, shuffled_order,
};
use crate::update::Step;

verus! {

/// The player's copy of the queue, brought in line with the model's.
pub open spec fn synced_queue(m: ModelView) -> Seq<ActionView> {
    seq![ActionView::PlayerSetQueue { queue: track_ids(m.queue), cursor: m.cursor }]
}

/// Shuffling the queue into `order`; the cursor stays on the same entry.
pub open spec fn shuffled_into(m: ModelView, order: Seq<usize>) -> ModelView {
    ModelView {
        queue: permuted(m.queue, order),
        cursor: match m.cursor {
            Some(at) => match index_of_place(order, at as int) {
                Some(index) => Some(index as usize),
                None => None,
            },
            None => None,
        },
        shuffle: true,
        shuffle_order: Some(order),
        ..m
    }
}

/// Putting a shuffled queue back in its original order; the cursor stays on
/// the same entry. A queue without a usable order stays as it is.
pub open spec fn unshuffled(m: ModelView) -> ModelView {
    let plain = ModelView { shuffle: false, shuffle_order: None, ..m };
    match m.shuffle_order {
        Some(order) => if is_order(order, m.queue.len() as int) {
            ModelView {
                queue: restored(m.queue, order),
                cursor: match m.cursor {
                    Some(at) => if at < order.len() {
                        Some(order[at as int])
                    } else {
                        None
                    },
                    None => None,
                },
                ..plain
            }
        } else {
            plain
        },
        None => plain,
    }
}

/// The seed of a shuffle made at `now`.
pub open spec fn seed_at(now: Moment) -> u64 {
    if now.nanos >= 0 {
        now.nanos as u64
    } else {
        0
    }
}

/// Toggling shuffle. It can always be turned off; turning it on takes a queue.
pub open spec fn shuffle_toggled(m: ModelView, now: Moment) -> Step {
    if m.shuffle {
        let plain = unshuffled(m);
        (plain, synced_queue(plain))
    } else if m.queue.len() == 0 {
        (m.with_status("nothing in the queue to shuffle"@), Seq::empty())
    } else {
        let mixed = shuffled_into(m, shuffled_order(m.queue.len() as int, seed_at(now)));
        (mixed, synced_queue(mixed))
    }
}

/// Bring the player's copy of the queue in line with the model's.
fn sync_queue(model: &Model) -> (actions: Vec<Action>)
    ensures
        views(actions@) == synced_queue(model@),
{
    one_action(
        Action::PlayerSetQueue {
            queue: ids_of(&model.playback_queue),
            cursor: model.playback_queue_cursor,
        },
    )
}

/// Shuffle the queue, keeping the cursor on the playing entry.
fn shuffle_on(model: &mut Model, now: Moment) -> (actions: Vec<Action>)
    requires
        !old(model).shuffle,
        old(model).playback_queue@.len() > 0,
    ensures
        (final(model)@, views(actions@)) == shuffle_toggled(old(model)@, now),
{
    let seed: u64 = if now.nanos >= 0 {
        now.nanos as u64
    } else {
        0
    };
    let order = shuffle(model.playback_queue.len(), seed);
    let queue = permute(&model.playback_queue, &order);
    let cursor: Option<usize> = match model.playback_queue_cursor {
        Some(at) => find_place(&order, at),
        None => None,
    };
    model.playback_queue = queue;
    model.playback_queue_cursor = cursor;
    model.shuffle = true;
    model.shuffle_order = Some(order);
    sync_queue(model)
}

/// Restore the queue's original order, keeping the cursor on the playing entry.
fn shuffle_off(model: &mut Model) -> (actions: Vec<Action>)
    ensures
        final(model)@ == unshuffled(old(model)@),
        views(actions@) == synced_queue(unshuffled(old(model)@)),
{
    let put_back: Option<(Vec<TrackItem>, Option<usize>)> = match &model.shuffle_order {
        Some(order) => match restore(&model.playback_queue, order) {
            Some(queue) => {
                let cursor: Option<usize> = match model.playback_queue_cursor {
                    Some(at) => if at < order.len() {
                        Some(order[at])
                    } else {
                        None
                    },
                    None => None,
                };
                Some((queue, cursor))
            },
            None => None,
        },
        None => None,
    };
    if let Some((queue, cursor)) = put_back {
        model.playback_queue = queue;
        model.playback_queue_cursor = cursor;
    }
    model.shuffle = false;
    model.shuffle_order = None;
    sync_queue(model)
}

/// Shuffle the queue, or restore its original order.
pub fn toggle_shuffle(model: &mut Model, now: Moment) -> (actions: Vec<Action>)
    ensures
        (final(model)@, views(actions@)) == shuffle_toggled(old(model)@, now),
{
    if model.shuffle {
        return shuffle_off(model);
    }
    if model.playback_queue.len() == 0 {
        model.set_error("nothing in the queue to shuffle".to_owned());
        return no_actions();
    }
    shuffle_on(model, now)
}

/// Liking the playing track: one request at a time, and an explanation where
/// nothing is playing.
pub open spec fn like_toggled(m: ModelView) -> Step {
    if m.like_in_flight {
        (m, Seq::empty())
    } else {
        match m.now_playing_track {
            Some(id) => (
                ModelView { like_in_flight: true, ..m },
                seq![ActionView::ToggleSaved(id)],
            ),
            None => (m.with_status("nothing playing to like"@), Seq::empty()),
        }
    }
}

/// Like or unlike the playing track.
pub fn toggle_like(model: &mut Model) -> (actions: Vec<Action>)
    ensures
        (final(model)@, views(actions@)) == like_toggled(old(model)@),
{
    if model.like_in_flight {
        return no_actions();
    }
    match clone_track_id(&model.now_playing_track) {
        Some(id) => {
            model.like_in_flight = true;
            one_action(Action::ToggleSaved(id))
        },
        None => {
            model.set_error("nothing playing to like".to_owned());
            no_actions()
        },
    }
}

/// A like was answered: the outcome shows in the footer, and the Saved tab is
/// asked for anew.
pub open spec fn like_answered(m: ModelView, result: Result<bool, ApiError>) -> ModelView {
    let armed = ModelView { like_in_flight: false, ..m };
    match result {
        Ok(saved) => ModelView {
            tracks_phase: if m.track_list_source == Some(SourceView::SavedTracks) {
                LoadPhase::Idle
            } else {
                m.tracks_phase
            },
            ..armed
        }.with_status(
            if saved {
                "saved to your library"@
            } else {
                "removed from your library"@
            },
        ),
        Err(err) => armed.with_status("updating your library failed: "@ + err.text()),
    }
}

/// Record the outcome of a like/unlike request.
pub fn saved_toggled(model: &mut Model, result: Result<bool, ApiError>) -> (actions: Vec<Action>)
    ensures
        final(model)@ == like_answered(old(model)@, result),
        views(actions@) == Seq::<ActionView>::empty(),
{
    model.like_in_flight = false;
    match result {
        Ok(saved) => {
            if saved {
                model.set_error("saved to your library".to_owned());
            } else {
                model.set_error("removed from your library".to_owned());
            }
            let shows_saved: bool = match &model.track_list_source {
                Some(TrackListSource::SavedTracks) => true,
                _ => false,
            };
            if shows_saved {
                model.tracks_phase = LoadPhase::Idle;
            }
        },
        Err(err) => {
            let text = err.message();
            model.set_error(joined("updating your library failed: ", text.as_str()));
        },
    }
    no_actions()
}

/// The selected row of the track list on screen.
pub open spec fn selected_track(m: ModelView) -> Option<TrackView> {
    match m.list.selected {
        Some(row) => if row < shown_tracks(m).len() {
            Some(shown_tracks(m)[row as int])
        } else {
            None
        },
        None => None,
    }
}

/// Queueing the selected track: it goes to the end of the queue, and comes
/// last in the original order too. Without a track to queue, or with nothing
/// playing, the footer explains.
pub open spec fn queued_selected(m: ModelView) -> Step {
    match selected_track(m) {
        None => (m.with_status("select a track to queue"@), Seq::empty()),
        Some(track) => if m.queue.len() == 0 || m.cursor is None {
            (m.with_status("nothing playing — press Enter to play"@), Seq::empty())
        } else {
            let longer = ModelView {
                queue: m.queue.push(track),
                shuffle_order: match m.shuffle_order {
                    Some(order) => Some(order.push(m.queue.len() as usize)),
                    None => None,
                },
                ..m
            };
            (longer, synced_queue(longer))
        },
    }
}

/// The selected row of the track list on screen.
fn selected_item(model: &Model) -> (item: Option<TrackItem>)
    ensures
        view_of(item) == selected_track(model@),
{
    match (model.list_state.selected(), active_track_list(model)) {
        (Some(row), Some(tracks)) => if row < tracks.len() {
            Some(tracks[row].clone())
        } else {
            None
        },
        _ => None,
    }
}

/// Append the selected track to the queue.
pub fn queue_selected(model: &mut Model) -> (actions: Vec<Action>)
    ensures
        (final(model)@, views(actions@)) == queued_selected(old(model)@),
{
    match selected_item(model) {
        None => {
            model.set_error("select a track to queue".to_owned());
            no_actions()
        },
        Some(track) => {
            let len: usize = model.playback_queue.len();
            if len == 0 || model.playback_queue_cursor.is_none() {
                model.set_error("nothing playing — press Enter to play".to_owned());
                return no_actions();
            }
            model.playback_queue.push(track);
            assert(views(model.playback_queue@) =~= old(model)@.queue.push(track@));
            let order = model.shuffle_order.take();
            model.shuffle_order = match order {
                Some(mut order) => {
                    order.push(len);
                    Some(order)
                },
                None => None,
            };
            sync_queue(model)
        },
    }
}

/// The selection after a row leaves a list that now has `len` rows: it stays
/// on a row, or on none where no row is left.
pub open spec fn selection_within(list: ListState, row: int, len: int) -> ListState {
    if row < len {
        list
    } else if len > 0 {
        list.selecting(Some((len - 1) as usize))
    } else {
        list.selecting(None)
    }
}

/// The cursor after `row`, another row, leaves the queue.
pub open spec fn cursor_without(cursor: Option<usize>, row: int) -> Option<usize> {
    match cursor {
        Some(at) => if row < at {
            Some((at - 1) as usize)
        } else {
            Some(at)
        },
        None => None,
    }
}

/// The original order after `row` leaves the queue.
pub open spec fn places_without(order: Option<Seq<usize>>, row: int) -> Option<Seq<usize>> {
    match order {
        Some(order) => if row < order.len() {
            Some(order_without(order, row))
        } else {
            Some(order)
        },
        None => None,
    }
}

/// The queue without `row`, which is not the playing one. The cursor keeps its
/// entry, the original order closes up, and the selection stays on a row.
pub open spec fn without_row(m: ModelView, row: int) -> ModelView {
    ModelView {
        queue: m.queue.remove(row),
        cursor: cursor_without(m.cursor, row),
        shuffle_order: places_without(m.shuffle_order, row),
        list: selection_within(m.list, row, m.queue.len() - 1),
        ..m
    }
}

/// Removing the selected queue row; the playing row stays, and the footer
/// says so.
pub open spec fn removed_queued(m: ModelView) -> Step {
    match m.list.selected {
        Some(row) if m.screen == Screen::Queue && row < m.queue.len() => if m.cursor == Some(row) {
            (m.with_status("the playing track stays in the queue"@), Seq::empty())
        } else {
            let shorter = without_row(m, row as int);
            (shorter, synced_queue(shorter))
        },
        _ => (m, Seq::empty()),
    }
}

/// The original order after `row` leaves the queue.
fn drop_place(order: Option<Vec<usize>>, row: usize) -> (result: Option<Vec<usize>>)
    ensures
        view_of(result) == places_without(view_of(order), row as int),
{
    match order {
        Some(order) => if row < order.len() {
            Some(drop_from_order(&order, row))
        } else {
            Some(order)
        },
        None => None,
    }
}

/// The selection after `row` leaves a list that now has `len` rows.
fn keep_selection_within(list: &mut ListState, row: usize, len: usize)
    ensures
        *final(list) == selection_within(*old(list), row as int, len as int),
{
    if row >= len {
        if len > 0 {
            list.select(Some(len - 1));
        } else {
            list.select(None);
        }
    }
}

/// Take `row`, which is not the playing one, out of the queue.
fn take_row(model: &mut Model, row: usize)
    requires
        row < old(model).playback_queue@.len(),
    ensures
        final(model)@ == without_row(old(model)@, row as int),
{
    if let Some(at) = model.playback_queue_cursor {
        if row < at {
            model.playback_queue_cursor = Some(at - 1);
        }
    }
    let _ = model.playback_queue.remove(row);
    assert(views(model.playback_queue@) =~= old(model)@.queue.remove(row as int));
    let order = model.shuffle_order.take();
    model.shuffle_order = drop_place(order, row);
    let len: usize = model.playback_queue.len();
    keep_selection_within(&mut model.list_state, row, len);
}

/// Remove the selected queue row.
pub fn remove_queued(model: &mut Model) -> (actions: Vec<Action>)
    ensures
        (final(model)@, views(actions@)) == removed_queued(old(model)@),
{
    let row: usize = match model.list_state.selected() {
        Some(row) => row,
        None => {
            return no_actions();
        },
    };
    if model.screen != Screen::Queue || row >= model.playback_queue.len() {
        return no_actions();
    }
    let playing: bool = match model.playback_queue_cursor {
        Some(at) => at == row,
        None => false,
    };
    if playing {
        model.set_error("the playing track stays in the queue".to_owned());
        return no_actions();
    }
    take_row(model, row);
    sync_queue(model)
}

} // verus!
