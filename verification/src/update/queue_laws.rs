//! Laws of the queue: it stays consistent, the player always knows it, and
//! shuffling can be undone exactly.

use vstd::prelude::*;
use crate::clock::Moment;
use crate::message::{ActionView, Message};
use crate::model::track_ids;
use crate::state::{ModelView, PlaybackHealth};
use crate::update::queue::{seed_at, shuffle_toggled};
use crate::update::shuffle::{
    index_of_place, is_order, lemma_index_of_place, order_is_one_to_one,
    restoring_undoes_permuting, shuffle_is_an_order, shuffled_order,
};
use crate::update::step_laws::{lemma_step, playback_kept};
use crate::update::{stepped, Step};

verus! {

/// The queue is consistent: the cursor is on an entry, and an original order is
/// kept exactly while the queue is shuffled, one place for each entry.
pub open spec fn queue_consistent(m: ModelView) -> bool {
    &&& m.cursor is Some ==> m.cursor->0 < m.queue.len()
    &&& match m.shuffle_order {
        Some(order) => m.shuffle && is_order(order, m.queue.len() as int),
        None => !m.shuffle,
    }
}

/// The last request of a step hands the player the queue and the cursor.
pub open spec fn queue_handed_over(step: Step) -> bool {
    step.1.len() > 0 && match step.1.last() {
        ActionView::PlayerLoad { queue, index } => queue == track_ids(step.0.queue)
            && step.0.cursor == Some(index as usize),
        ActionView::PlayerSetQueue { queue, cursor } => queue == track_ids(step.0.queue) && cursor
            == step.0.cursor,
        _ => false,
    }
}

/// Whether a step asks for a reconnect.
pub open spec fn asks_reconnect(step: Step) -> bool {
    exists|i: int| 0 <= i < step.1.len() && (#[trigger] step.1[i]) is PlayerReconnect
}

/// What every step keeps: the queue stays consistent, a change of the queue is
/// handed to the player, and a reconnect is asked for only where none is under
/// way, which it then is.
pub open spec fn keeps_playback_sound(m: ModelView, step: Step) -> bool {
    &&& queue_consistent(step.0)
    &&& step.0.queue == m.queue || queue_handed_over(step)
    &&& asks_reconnect(step) ==> !(m.health is Reconnecting) && step.0.health
        == PlaybackHealth::Reconnecting(0)
}

/// Whatever the message: the queue stays consistent, a changed queue is handed
/// to the player in the same step, and a reconnect is never asked for while one
/// is under way.
pub proof fn every_step_keeps_playback_sound(m: ModelView, msg: Message, now: Moment)
    requires
        queue_consistent(m),
        m.queue.len() < usize::MAX,
    ensures
        keeps_playback_sound(m, stepped(m, msg, now)),
{
    lemma_step(m, msg, now);
    reveal(playback_kept);
}

/// Shuffling the queue and then turning shuffle off gives back the queue and
/// the cursor exactly as they were.
pub proof fn shuffle_can_be_undone(m: ModelView, on: Moment, off: Moment)
    requires
        queue_consistent(m),
        !m.shuffle,
        0 < m.queue.len() <= usize::MAX,
    ensures
        shuffle_toggled(shuffle_toggled(m, on).0, off).0 == m,
{
    let len = m.queue.len() as int;
    let order = shuffled_order(len, seed_at(on));
    shuffle_is_an_order(len, seed_at(on));
    restoring_undoes_permuting(m.queue, order);
    if let Some(at) = m.cursor {
        assert(index_of_place(order, at as int) is Some);
        lemma_index_of_place(order, at as int);
    }
    assert(shuffle_toggled(shuffle_toggled(m, on).0, off).0 =~= m);
}

/// A shuffle keeps the playing entry under the cursor.
pub proof fn shuffle_keeps_the_playing_entry(m: ModelView, now: Moment)
    requires
        queue_consistent(m),
        m.cursor is Some,
        m.queue.len() <= usize::MAX,
    ensures
        ({
            let after = shuffle_toggled(m, now).0;
            &&& after.cursor is Some
            &&& after.cursor->0 < after.queue.len()
            &&& after.queue[after.cursor->0 as int] == m.queue[m.cursor->0 as int]
        }),
{
    let len = m.queue.len() as int;
    let at = m.cursor->0 as int;
    if m.shuffle {
        let order = m.shuffle_order->0;
        order_is_one_to_one(order, len);
        assert(index_of_place(order, order[at] as int) == Some(at));
    } else {
        let order = shuffled_order(len, seed_at(now));
        shuffle_is_an_order(len, seed_at(now));
        assert(index_of_place(order, at) is Some);
        lemma_index_of_place(order, at);
    }
}

/// Shuffle can always be turned off, whatever state the queue is in.
pub proof fn shuffle_never_sticks(m: ModelView, now: Moment)
    requires
        m.shuffle,
    ensures
        !shuffle_toggled(m, now).0.shuffle,
{
}

} // verus!
