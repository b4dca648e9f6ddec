//! Laws of the reducer: what holds of every message in every state.

use vstd::prelude::*;
use crate::clock::Moment;
use crate::keys::{KeyCode, KeyEvent};
use crate::message::Message;
use crate::state::{ModelView, SearchView};
use crate::update::key_routing::{lemma_same_search, normal_keyed};
use crate::update::search::{
    backspaced, chars_before, cleared, deleted, lemma_prefix_step, moved_end, moved_home,
    moved_left, moved_right, typed,
};
use crate::update::step_laws::{all_kept, lemma_normal_key, lemma_step};
use crate::update::stepped;

verus! {

/// Every edit of the query and every cursor movement leaves the cursor on a
/// character boundary.
pub proof fn edits_keep_the_cursor_on_a_boundary(search: SearchView, c: char, now: Moment)
    requires
        search.wf(),
    ensures
        typed(search, c, now).wf(),
        backspaced(search, now).wf(),
        deleted(search, now).wf(),
        cleared(search).wf(),
        moved_left(search).wf(),
        moved_right(search).wf(),
        moved_home(search).wf(),
        moved_end(search).wf(),
{
    let at = chars_before(search);
    let query = search.query;
    assert(search.cursor_at(at));
    assert(query.take(0) =~= Seq::<char>::empty());
    assert(query.take(query.len() as int) =~= query);

    let longer = typed(search, c, now);
    assert(longer.query.take(at) =~= query.take(at));
    lemma_prefix_step(longer.query, at);
    assert(longer.cursor_at(at + 1));

    if at > 0 {
        lemma_prefix_step(query, at - 1);
        let shorter = backspaced(search, now);
        assert(query.remove(at - 1).take(at - 1) =~= query.take(at - 1));
        assert(shorter.cursor_at(at - 1));
        assert(moved_left(search).cursor_at(at - 1));
    } else {
        assert(backspaced(search, now).cursor_at(at));
        assert(moved_left(search).cursor_at(at));
    }
    if at < query.len() {
        lemma_prefix_step(query, at);
        assert(query.remove(at).take(at) =~= query.take(at));
        assert(deleted(search, now).cursor_at(at));
        assert(moved_right(search).cursor_at(at + 1));
    } else {
        assert(deleted(search, now).cursor_at(at));
        assert(moved_right(search).cursor_at(at));
    }
    assert(cleared(search).query.take(0) =~= Seq::<char>::empty());
    assert(cleared(search).cursor_at(0));
    assert(moved_home(search).cursor_at(0));
    assert(moved_end(search).cursor_at(query.len() as int));
}

/// Whether two models hold the same query, with the cursor at the same place.
pub open spec fn same_query(a: ModelView, b: ModelView) -> bool {
    a.search.query == b.search.query && a.search.cursor == b.search.cursor
}

/// In navigation mode no key touches the query or its cursor.
pub proof fn normal_keys_keep_the_query(m: ModelView, key: KeyEvent, now: Moment)
    ensures
        same_query(normal_keyed(m, key, now).0, m),
{
    lemma_normal_key(m, key, now);
    reveal(all_kept);
}

/// Messages that are neither keys nor edits leave the query and its cursor
/// alone.
pub proof fn other_messages_keep_the_query(m: ModelView, msg: Message, now: Moment)
    requires
        !(msg is KeyPress),
        !(msg is SearchInputChar),
        !(msg is SearchBackspace),
    ensures
        same_query(stepped(m, msg, now).0, m),
{
    lemma_step(m, msg, now);
}

/// Whatever the message, the search cursor stays on a character boundary of the
/// query.
pub proof fn cursor_stays_on_a_boundary(m: ModelView, msg: Message, now: Moment)
    requires
        m.wf(),
    ensures
        stepped(m, msg, now).0.wf(),
{
    let after = stepped(m, msg, now).0;
    match msg {
        Message::KeyPress(key) => {
            edits_keep_the_cursor_on_a_boundary(
                m.search,
                if let KeyCode::Char(c) = key.code {
                    c
                } else {
                    ' '
                },
                now,
            );
            normal_keys_keep_the_query(m, key, now);
            if same_query(after, m) {
                lemma_same_search(m, after);
            }
        },
        Message::SearchInputChar(c) => {
            edits_keep_the_cursor_on_a_boundary(m.search, c, now);
        },
        Message::SearchBackspace => {
            edits_keep_the_cursor_on_a_boundary(m.search, ' ', now);
        },
        _ => {
            other_messages_keep_the_query(m, msg, now);
            lemma_same_search(m, after);
        },
    }
}

} // verus!
