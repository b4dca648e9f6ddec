//! Laws of a shuffle: where each entry comes from, and that every entry can
//! come to every place.

use vstd::arithmetic::div_mod::{
    lemma_fundamental_div_mod, lemma_fundamental_div_mod_converse,
};
use vstd::prelude::*;
use crate::clock::Moment;
use crate::message::Message;
use crate::state::ModelView;
use crate::update::entry_laws::{hands_over, only_says};
use crate::update::queue::{seed_at, shuffle_toggled};
use crate::update::shuffle::{
    drawn, exchanged, identity_order, index_of_place, lemma_index_of_place, mixed, next_seed,
    shuffle_is_an_order, shuffled_order,
};
use crate::update::stepped;

verus! {

/// An index is drawn from the upper half of the seed, evenly among those that
/// can be drawn.
pub proof fn an_index_is_drawn_from_the_upper_half(upper: u64, lower: u64, last: int)
    requires
        upper < 0x1_0000_0000,
        lower < 0x1_0000_0000,
        0 <= last,
    ensures
        0 <= drawn((upper * 0x1_0000_0000 + lower) as u64, last) <= last,
        drawn((upper * 0x1_0000_0000 + lower) as u64, last) == upper as int % (last + 1),
{
    let seed = (upper * 0x1_0000_0000 + lower) as u64;
    assert(seed == upper * 0x1_0000_0000 + lower);
    assert(seed / 0x1_0000_0000 == upper);
}

/// Every index up to the last can be drawn.
pub proof fn every_index_can_be_drawn(index: int, last: int)
    requires
        0 <= index <= last < 0x1_0000_0000,
    ensures
        drawn((index * 0x1_0000_0000) as u64, last) == index,
{
    an_index_is_drawn_from_the_upper_half(index as u64, 0, last);
    assert(index as u64 * 0x1_0000_0000 + 0 == index * 0x1_0000_0000);
    assert(index % (last + 1) == index) by (nonlinear_arith)
        requires
            0 <= index <= last,
    ;
}

/// The next seed is that of a linear congruential generator on 64 bits.
pub proof fn seeds_follow_one_another(seed: u64)
    ensures
        next_seed(seed) == (seed * 6364136223846793005 + 1442695040888963407)
            % 0x1_0000_0000_0000_0000,
{
    let size: int = 0x1_0000_0000_0000_0000;
    let product: int = seed * 6364136223846793005;
    let whole: int = product / size;
    let rest: int = product % size;
    lemma_fundamental_div_mod(product, size);
    assert(0 <= rest < size);
    assert(seed.wrapping_mul(6364136223846793005) == rest);
    let sum: int = product + 1442695040888963407;
    if rest + 1442695040888963407 < size {
        lemma_fundamental_div_mod_converse(sum, size, whole, rest + 1442695040888963407);
    } else {
        lemma_fundamental_div_mod_converse(
            sum,
            size,
            whole + 1,
            rest + 1442695040888963407 - size,
        );
    }
}

/// Two entries are exchanged, and no other moves.
pub proof fn an_exchange_moves_two_entries(order: Seq<usize>, i: int, j: int, k: int)
    requires
        0 <= i < order.len(),
        0 <= j < order.len(),
        0 <= k < order.len(),
    ensures
        exchanged(order, i, j).len() == order.len(),
        exchanged(order, i, j)[i] == order[j],
        exchanged(order, i, j)[j] == order[i],
        k != i && k != j ==> exchanged(order, i, j)[k] == order[k],
{
}

/// The entries behind the part that is shuffled stay where they are.
proof fn lemma_the_rest_stays(order: Seq<usize>, last: int, seed: u64, k: int)
    requires
        last < k < order.len(),
    ensures
        mixed(order, last, seed).len() == order.len(),
        mixed(order, last, seed)[k] == order[k],
    decreases last,
{
    if last > 0 {
        let next = next_seed(seed);
        let index = drawn(next, last);
        assert(0 <= index <= last);
        lemma_the_rest_stays(exchanged(order, last, index), last - 1, next, k);
    }
}

/// A shuffle fills its places from the last: each with the entry drawn among
/// those that are left, as the next seed says.
pub proof fn places_are_filled_by_drawing(order: Seq<usize>, last: int, seed: u64)
    requires
        0 < last < order.len(),
    ensures
        mixed(order, last, seed)[last] == order[drawn(next_seed(seed), last)],
        mixed(order, last, seed) == mixed(
            exchanged(order, last, drawn(next_seed(seed), last)),
            last - 1,
            next_seed(seed),
        ),
{
    let next = next_seed(seed);
    let index = drawn(next, last);
    assert(0 <= index <= last);
    lemma_the_rest_stays(exchanged(order, last, index), last - 1, next, last);
}

/// The last entry of a shuffled queue is the one drawn among all of them.
pub proof fn the_last_entry_is_drawn_among_all(len: int, seed: u64)
    requires
        1 < len <= usize::MAX,
    ensures
        shuffled_order(len, seed)[len - 1] == drawn(next_seed(seed), len - 1),
{
    places_are_filled_by_drawing(identity_order(len), len - 1, seed);
    assert(0 <= drawn(next_seed(seed), len - 1) <= len - 1);
}

/// A shuffle is seeded by the moment, so that different moments seed
/// differently.
pub proof fn moments_seed_differently(a: Moment, b: Moment)
    requires
        a.nanos >= 0,
        b.nanos >= 0,
        a != b,
    ensures
        seed_at(a) == a.nanos,
        seed_at(a) != seed_at(b),
{
}

/// Turning shuffle on puts the queue into the order that the moment gives, with
/// the cursor on the entry that it was on, and tells the player; an empty queue
/// cannot be shuffled.
pub proof fn shuffling_orders_the_queue(m: ModelView, now: Moment)
    requires
        !m.shuffle,
        now.nanos >= 0,
        m.queue.len() <= usize::MAX,
        m.cursor is Some ==> m.cursor->0 < m.queue.len(),
    ensures
        m.queue.len() == 0 ==> only_says(m, stepped(m, Message::ToggleShuffle, now)),
        m.queue.len() > 0 ==> {
            let (after, asked) = stepped(m, Message::ToggleShuffle, now);
            let order = shuffled_order(m.queue.len() as int, now.nanos as u64);
            &&& after == ModelView {
                queue: after.queue,
                cursor: after.cursor,
                shuffle: true,
                shuffle_order: Some(order),
                ..m
            }
            &&& after.queue.len() == m.queue.len()
            &&& forall|i: int|
                0 <= i < m.queue.len() ==> #[trigger] after.queue[i] == m.queue[order[i] as int]
            &&& m.cursor is None ==> after.cursor is None
            &&& m.cursor is Some ==> after.cursor is Some && order[after.cursor->0 as int]
                == m.cursor->0
            &&& hands_over((after, asked), after.queue, after.cursor)
        },
{
    reveal(only_says);
    reveal(hands_over);
    assert(stepped(m, Message::ToggleShuffle, now) == shuffle_toggled(m, now));
    if m.queue.len() > 0 {
        let len = m.queue.len() as int;
        let order = shuffled_order(len, seed_at(now));
        shuffle_is_an_order(len, seed_at(now));
        if let Some(at) = m.cursor {
            assert(index_of_place(order, at as int) is Some);
            lemma_index_of_place(order, at as int);
        }
    }
}

} // verus!
