//! Orders of the queue: shuffling it, and putting it back exactly.
//!
//! While the queue is shuffled, an order remembers for each entry its place in
//! the original queue. Entries are told apart by place, never by track id, so a
//! queue that holds one track twice is restored instance by instance.

use vstd::prelude::*;
use vstd::set_lib::*;
use crate::model::{TrackItem, TrackView};
use crate::text::views;

verus! {

/// The first index at which `order` holds `place`.
pub open spec fn index_of_place(order: Seq<usize>, place: int) -> Option<int>
    decreases order.len(),
{
    if order.len() == 0 {
        None
    } else {
        match index_of_place(order.drop_last(), place) {
            Some(index) => Some(index),
            None => if order.last() == place {
                Some(order.len() - 1)
            } else {
                None
            },
        }
    }
}

/// Whether `order` is an order of `len` entries: it has that many and names
/// every place.
pub open spec fn is_order(order: Seq<usize>, len: int) -> bool {
    &&& order.len() == len
    &&& forall|place: int| 0 <= place < len ==> #[trigger] index_of_place(order, place) is Some
}

/// What [`index_of_place`] finds holds the place; where it finds nothing, no
/// index does.
pub proof fn lemma_index_of_place(order: Seq<usize>, place: int)
    ensures
        match index_of_place(order, place) {
            Some(index) => 0 <= index < order.len() && order[index] == place,
            None => forall|k: int| 0 <= k < order.len() ==> #[trigger] order[k] != place,
        },
    decreases order.len(),
{
    if order.len() > 0 {
        let shorter = order.drop_last();
        lemma_index_of_place(shorter, place);
        assert forall|k: int| 0 <= k < shorter.len() implies shorter[k] == #[trigger] order[k] by {}
    }
}

/// What is found in a prefix is what is found in the whole.
proof fn lemma_index_in_prefix(order: Seq<usize>, place: int, len: int)
    requires
        0 <= len <= order.len(),
        index_of_place(order.take(len), place) is Some,
    ensures
        index_of_place(order, place) == index_of_place(order.take(len), place),
    decreases order.len() - len,
{
    if len == order.len() {
        assert(order.take(len) =~= order);
    } else {
        assert(order.take(len + 1).drop_last() =~= order.take(len));
        lemma_index_in_prefix(order, place, len + 1);
    }
}

/// The first index at which `order` holds `place`.
pub fn find_place(order: &Vec<usize>, place: usize) -> (index: Option<usize>)
    ensures
        match index {
            Some(i) => index_of_place(order@, place as int) == Some(i as int) && i < order@.len(),
            None => index_of_place(order@, place as int) is None,
        },
{
    let mut i: usize = 0;
    assert(order@.take(0) =~= Seq::<usize>::empty());
    while i < order.len()
        invariant
            i <= order@.len(),
            index_of_place(order@.take(i as int), place as int) is None,
        decreases order@.len() - i,
    {
        proof {
            let longer = order@.take(i + 1);
            assert(longer.drop_last() =~= order@.take(i as int));
            assert(longer.last() == order@[i as int]);
        }
        if order[i] == place {
            proof {
                lemma_index_in_prefix(order@, place as int, i + 1);
            }
            return Some(i);
        }
        i = i + 1;
    }
    assert(order@.take(order@.len() as int) =~= order@);
    None
}

/// The queue with its entries in the given order: entry `i` is the one at
/// place `order[i]`.
pub open spec fn permuted(queue: Seq<TrackView>, order: Seq<usize>) -> Seq<TrackView> {
    Seq::new(queue.len(), |i: int| queue[order[i] as int])
}

/// The queue back in its original order: place `i` holds the entry whose place
/// is `i`.
pub open spec fn restored(queue: Seq<TrackView>, order: Seq<usize>) -> Seq<TrackView> {
    Seq::new(queue.len(), |i: int| queue[index_of_place(order, i)->0])
}

/// The pseudo-random sequence behind a shuffle: one step of a linear
/// congruential generator.
pub open spec fn next_seed(seed: u64) -> u64 {
    seed.wrapping_mul(6364136223846793005).wrapping_add(1442695040888963407)
}

/// The index in `0..=last` that `seed` draws, from its upper bits.
pub open spec fn drawn(seed: u64, last: int) -> int {
    ((seed / 0x1_0000_0000) as int) % (last + 1)
}

/// `order` with the entries at `i` and `j` exchanged.
pub open spec fn exchanged(order: Seq<usize>, i: int, j: int) -> Seq<usize> {
    order.update(i, order[j]).update(j, order[i])
}

/// `order` with its first `last + 1` entries shuffled: the entry at `last` is
/// exchanged with a drawn one, then the entries before it are shuffled.
pub open spec fn mixed(order: Seq<usize>, last: int, seed: u64) -> Seq<usize>
    decreases last,
{
    if last <= 0 {
        order
    } else {
        let drawn_seed = next_seed(seed);
        mixed(exchanged(order, last, drawn(drawn_seed, last)), last - 1, drawn_seed)
    }
}

/// The places `0, 1, ..` in order.
pub open spec fn identity_order(len: int) -> Seq<usize> {
    Seq::new(len as nat, |i: int| i as usize)
}

/// The shuffle of `len` entries that `seed` gives.
pub open spec fn shuffled_order(len: int, seed: u64) -> Seq<usize> {
    mixed(identity_order(len), len - 1, seed)
}

/// Whether some entry of `order` holds `place`.
spec fn holds(order: Seq<usize>, place: int) -> bool {
    exists|k: int| 0 <= k < order.len() && #[trigger] order[k] == place
}

/// Whether `order` holds every place below `len`.
spec fn holds_all(order: Seq<usize>, len: int) -> bool {
    &&& order.len() == len
    &&& forall|place: int| 0 <= place < len ==> #[trigger] holds(order, place)
}

/// Exchanging two entries keeps every place.
proof fn lemma_exchange_keeps(order: Seq<usize>, len: int, i: int, j: int)
    requires
        holds_all(order, len),
        0 <= i < len,
        0 <= j < len,
    ensures
        holds_all(exchanged(order, i, j), len),
{
    let after = exchanged(order, i, j);
    assert forall|place: int| 0 <= place < len implies #[trigger] holds(after, place) by {
        assert(holds(order, place));
        let k = choose|k: int| 0 <= k < order.len() && #[trigger] order[k] == place;
        if k == i {
            assert(after[j] == place);
        } else if k == j {
            assert(after[i] == place);
        } else {
            assert(after[k] == place);
        }
    }
}

/// Shuffling keeps every place.
proof fn lemma_mixed_keeps(order: Seq<usize>, len: int, last: int, seed: u64)
    requires
        holds_all(order, len),
        last < len,
    ensures
        holds_all(mixed(order, last, seed), len),
    decreases last,
{
    if last > 0 {
        let s = next_seed(seed);
        lemma_exchange_keeps(order, len, last, drawn(s, last));
        lemma_mixed_keeps(exchanged(order, last, drawn(s, last)), len, last - 1, s);
    }
}

/// Every place can be found in an order that holds every place.
proof fn lemma_holds_all_is_order(order: Seq<usize>, len: int)
    requires
        holds_all(order, len),
    ensures
        is_order(order, len),
{
    assert forall|place: int| 0 <= place < len implies #[trigger] index_of_place(
        order,
        place,
    ) is Some by {
        lemma_index_of_place(order, place);
        assert(holds(order, place));
    }
}

/// Every shuffle of `len` entries is an order of them: nothing is lost or
/// doubled, whatever the seed.
pub proof fn shuffle_is_an_order(len: int, seed: u64)
    requires
        0 <= len <= usize::MAX,
    ensures
        is_order(shuffled_order(len, seed), len),
{
    let start = identity_order(len);
    assert forall|place: int| 0 <= place < len implies #[trigger] holds(start, place) by {
        assert(start[place] == place);
    }
    lemma_mixed_keeps(start, len, len - 1, seed);
    lemma_holds_all_is_order(shuffled_order(len, seed), len);
}

/// Whether some choice is `k`.
spec fn reaches(chosen: Seq<int>, k: int) -> bool {
    exists|p: int| 0 <= p < chosen.len() && #[trigger] chosen[p] == k
}

/// A one-to-one choice of `len` indices below `len` reaches every index.
proof fn lemma_injection_covers(chosen: Seq<int>, len: int)
    requires
        chosen.len() == len,
        forall|p: int| 0 <= p < len ==> 0 <= #[trigger] chosen[p] < len,
        chosen.no_duplicates(),
    ensures
        forall|k: int| 0 <= k < len ==> #[trigger] reaches(chosen, k),
{
    let reached = chosen.to_set();
    let all = set_int_range(0, len);
    chosen.unique_seq_to_set();
    lemma_int_range(0, len);
    assert(reached.subset_of(all));
    lemma_subset_equality(reached, all);
    assert forall|k: int| 0 <= k < len implies #[trigger] reaches(chosen, k) by {
        assert(reached.contains(k));
    }
}

/// An order names only places below its length, and each one once.
pub proof fn order_is_one_to_one(order: Seq<usize>, len: int)
    requires
        is_order(order, len),
    ensures
        forall|k: int| 0 <= k < len ==> 0 <= #[trigger] order[k] < len,
        order.no_duplicates(),
        forall|k: int|
            0 <= k < len ==> index_of_place(order, #[trigger] order[k] as int) == Some(k),
{
    let chosen = Seq::new(len as nat, |p: int| index_of_place(order, p)->0);
    assert forall|p: int| 0 <= p < len implies 0 <= #[trigger] chosen[p] < len && order[chosen[p]]
        == p by {
        lemma_index_of_place(order, p);
        assert(index_of_place(order, p) is Some);
    }
    lemma_injection_covers(chosen, len);
    assert forall|k: int| 0 <= k < len implies 0 <= #[trigger] order[k] < len && index_of_place(
        order,
        order[k] as int,
    ) == Some(k) by {
        assert(reaches(chosen, k));
        let p = choose|p: int| 0 <= p < chosen.len() && #[trigger] chosen[p] == k;
        assert(order[chosen[p]] == p);
        assert(index_of_place(order, p) is Some);
    }
    assert forall|a: int, b: int| 0 <= a < len && 0 <= b < len && a != b implies order[a]
        != order[b] by {
        assert(reaches(chosen, a));
        let p = choose|p: int| 0 <= p < chosen.len() && #[trigger] chosen[p] == a;
        assert(reaches(chosen, b));
        let q = choose|q: int| 0 <= q < chosen.len() && #[trigger] chosen[q] == b;
        assert(order[chosen[p]] == p);
        assert(order[chosen[q]] == q);
    }
}

/// Putting a shuffled queue back gives the queue that was shuffled.
pub proof fn restoring_undoes_permuting(queue: Seq<TrackView>, order: Seq<usize>)
    requires
        is_order(order, queue.len() as int),
    ensures
        restored(permuted(queue, order), order) == queue,
{
    assert forall|i: int| 0 <= i < queue.len() implies restored(permuted(queue, order), order)[i]
        == #[trigger] queue[i] by {
        assert(index_of_place(order, i) is Some);
        lemma_index_of_place(order, i);
    }
    assert(restored(permuted(queue, order), order) =~= queue);
}

/// The order after the entry at `row` leaves the queue: its place closes up.
pub open spec fn order_without(order: Seq<usize>, row: int) -> Seq<usize> {
    Seq::new(
        (order.len() - 1) as nat,
        |i: int|
            {
                let place = order[if i < row { i } else { i + 1 }];
                if place > order[row] {
                    (place - 1) as usize
                } else {
                    place
                }
            },
    )
}

/// Removing an entry from a shuffled queue and then restoring the order gives
/// the restored queue without that very entry.
pub proof fn restoring_after_a_removal(queue: Seq<TrackView>, order: Seq<usize>, row: int)
    requires
        is_order(order, queue.len() as int),
        0 <= row < queue.len(),
    ensures
        is_order(order_without(order, row), queue.len() - 1),
        restored(queue.remove(row), order_without(order, row)) == restored(queue, order).remove(
            order[row] as int,
        ),
{
    let len = queue.len() as int;
    let shorter = order_without(order, row);
    let gone = order[row] as int;
    order_is_one_to_one(order, len);
    assert forall|q: int| 0 <= q < len - 1 implies #[trigger] index_of_place(shorter, q) is Some by {
        let place = if q < gone { q } else { q + 1 };
        assert(index_of_place(order, place) is Some);
        lemma_index_of_place(order, place);
        let j = index_of_place(order, place)->0;
        assert(j != row);
        let k = if j < row { j } else { j - 1 };
        assert(shorter[k] == q);
        lemma_index_of_place(shorter, q);
    }
    let left = restored(queue.remove(row), shorter);
    let right = restored(queue, order).remove(gone);
    assert forall|q: int| 0 <= q < len - 1 implies #[trigger] left[q] == right[q] by {
        assert(index_of_place(shorter, q) is Some);
        lemma_index_of_place(shorter, q);
        let k = index_of_place(shorter, q)->0;
        let j = if k < row { k } else { k + 1 };
        let place = if q < gone { q } else { q + 1 };
        assert(order[j] != gone);
        assert(order[j] == place);
        assert(index_of_place(order, order[j] as int) == Some(j));
        assert(queue.remove(row)[k] == queue[j]);
    }
    assert(left =~= right);
}

/// An entry appended to a shuffled queue comes last in the restored one.
pub proof fn restoring_after_an_append(queue: Seq<TrackView>, order: Seq<usize>, track: TrackView)
    requires
        is_order(order, queue.len() as int),
        queue.len() <= usize::MAX,
    ensures
        is_order(order.push(queue.len() as usize), (queue.len() + 1) as int),
        restored(queue.push(track), order.push(queue.len() as usize)) == restored(
            queue,
            order,
        ).push(track),
{
    let len = queue.len() as int;
    let longer = order.push(len as usize);
    order_is_one_to_one(order, len);
    assert(longer.drop_last() =~= order);
    lemma_index_of_place(order, len);
    assert(index_of_place(longer, len) == Some(len));
    assert forall|q: int| 0 <= q < len implies #[trigger] index_of_place(longer, q)
        == index_of_place(order, q) && index_of_place(longer, q) is Some by {
        assert(index_of_place(order, q) is Some);
    }
    assert forall|q: int| 0 <= q < len implies 0 <= (
        #[trigger] index_of_place(order, q))->0 < len by {
        lemma_index_of_place(order, q);
        assert(index_of_place(order, q) is Some);
    }
    assert(restored(queue.push(track), longer) =~= restored(queue, order).push(track));
}

/// One step of the generator.
fn step_seed(seed: u64) -> (next: u64)
    ensures
        next == next_seed(seed),
{
    seed.wrapping_mul(6364136223846793005).wrapping_add(1442695040888963407)
}

/// Shuffles `len` entries by exchanging each with one drawn from those before
/// it, from the last down.
pub fn shuffle(len: usize, seed: u64) -> (order: Vec<usize>)
    ensures
        order@ == shuffled_order(len as int, seed),
        is_order(order@, len as int),
{
    let mut order: Vec<usize> = Vec::new();
    let mut i: usize = 0;
    while i < len
        invariant
            i <= len,
            order@ == identity_order(i as int),
        decreases len - i,
    {
        order.push(i);
        i = i + 1;
        assert(order@ =~= identity_order(i as int));
    }
    let mut rest: usize = len;
    let mut current: u64 = seed;
    while rest > 1
        invariant
            rest <= len,
            order@.len() == len,
            mixed(order@, rest - 1, current) == shuffled_order(len as int, seed),
        decreases rest,
    {
        let last: usize = rest - 1;
        current = step_seed(current);
        let pick: u64 = current / 0x1_0000_0000 % rest as u64;
        let pick: usize = pick as usize;
        let held: usize = order[last];
        let other: usize = order[pick];
        order.set(last, other);
        order.set(pick, held);
        rest = last;
    }
    proof {
        shuffle_is_an_order(len as int, seed);
    }
    order
}

/// The tracks of `queue` at the given places.
pub fn permute(queue: &Vec<TrackItem>, order: &Vec<usize>) -> (result: Vec<TrackItem>)
    requires
        is_order(order@, queue@.len() as int),
    ensures
        views(result@) == permuted(views(queue@), order@),
{
    let mut result: Vec<TrackItem> = Vec::new();
    let mut i: usize = 0;
    proof {
        order_is_one_to_one(order@, queue@.len() as int);
    }
    while i < order.len()
        invariant
            i <= order@.len() == queue@.len(),
            result@.len() == i,
            forall|k: int| 0 <= k < order@.len() ==> 0 <= #[trigger] order@[k] < queue@.len(),
            forall|k: int|
                0 <= k < i ==> (#[trigger] result@[k])@ == queue@[order@[k] as int]@,
        decreases order@.len() - i,
    {
        result.push(queue[order[i]].clone());
        i = i + 1;
    }
    assert(views(result@) =~= permuted(views(queue@), order@));
    result
}

/// The queue back in its original order, or `None` where `order` is no order
/// of it.
pub fn restore(queue: &Vec<TrackItem>, order: &Vec<usize>) -> (result: Option<Vec<TrackItem>>)
    ensures
        result is Some == is_order(order@, queue@.len() as int),
        result is Some ==> views(result->0@) == restored(views(queue@), order@),
{
    if order.len() != queue.len() {
        return None;
    }
    let mut result: Vec<TrackItem> = Vec::new();
    let mut place: usize = 0;
    while place < queue.len()
        invariant
            place <= queue@.len() == order@.len(),
            result@.len() == place,
            forall|p: int|
                0 <= p < place ==> #[trigger] index_of_place(order@, p) is Some && 0
                    <= index_of_place(order@, p)->0 < queue@.len(),
            forall|p: int|
                0 <= p < place ==> (#[trigger] result@[p])@ == queue@[index_of_place(
                    order@,
                    p,
                )->0]@,
        decreases queue@.len() - place,
    {
        match find_place(order, place) {
            Some(index) => {
                result.push(queue[index].clone());
            },
            None => {
                return None;
            },
        }
        place = place + 1;
    }
    assert forall|p: int| 0 <= p < queue@.len() implies (#[trigger] views(result@)[p]) == restored(
        views(queue@),
        order@,
    )[p] by {
        assert(index_of_place(order@, p) is Some);
        assert(result@[p]@ == queue@[index_of_place(order@, p)->0]@);
    }
    assert(views(result@) =~= restored(views(queue@), order@));
    Some(result)
}

/// The order after the entry at `row` leaves the queue.
pub fn drop_from_order(order: &Vec<usize>, row: usize) -> (result: Vec<usize>)
    requires
        row < order@.len(),
    ensures
        result@ == order_without(order@, row as int),
{
    let gone: usize = order[row];
    let mut result: Vec<usize> = Vec::new();
    let mut i: usize = 0;
    while i < order.len() - 1
        invariant
            row < order@.len(),
            i < order@.len(),
            gone == order@[row as int],
            result@ == order_without(order@, row as int).take(i as int),
        decreases order@.len() - i,
    {
        let place: usize = if i < row {
            order[i]
        } else {
            order[i + 1]
        };
        result.push(
            if place > gone {
                place - 1
            } else {
                place
            },
        );
        i = i + 1;
        assert(result@ =~= order_without(order@, row as int).take(i as int));
    }
    assert(order_without(order@, row as int).take(i as int) =~= order_without(order@, row as int));
    result
}

} // verus!
