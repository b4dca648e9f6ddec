//! Laws of the search box: what each edit does to the query and its cursor, and
//! when the query is asked for.

use vstd::prelude::*;
use crate::clock::Moment;
use crate::keys::{KeyCode, KeyEvent, KeyEventKind, KeyModifiers};
use crate::message::{ActionView, Message};
use crate::state::{LoadPhase, Mode, ModelView, Screen};
use crate::update::loading::refreshed;
use crate::update::search::{lemma_cursor_place, lemma_prefix_step};
use crate::update::{stepped, Step};

verus! {

/// The press of a key on its own.
#[verifier::inline]
pub open spec fn pressed(code: KeyCode) -> Message {
    Message::KeyPress(
        KeyEvent {
            code,
            modifiers: KeyModifiers { shift: false, control: false, alt: false },
            kind: KeyEventKind::Press,
        },
    )
}

/// Whether a step has changed nothing but the search box, which holds `query`
/// with the cursor before the character `at`, and has asked for nothing.
pub open spec fn edits(before: ModelView, step: Step, query: Seq<char>, at: int) -> bool {
    &&& step.0 == ModelView { search: step.0.search, ..before }
    &&& step.0.search.query == query
    &&& step.0.search.cursor_at(at)
    &&& step.1.len() == 0
}

/// Typing puts the character where the cursor is and the cursor behind it, and
/// arms the debounce.
pub proof fn typing_inserts_at_the_cursor(m: ModelView, c: char, at: int, now: Moment)
    requires
        m.search.cursor_at(at),
    ensures
        ({
            let step = stepped(m, Message::SearchInputChar(c), now);
            let query = m.search.query;
            &&& edits(m, step, query.take(at) + seq![c] + query.skip(at), at + 1)
            &&& step.0.search.pending
            &&& step.0.search.last_input == now
        }),
{
    lemma_cursor_place(m.search, at);
    let step = stepped(m, Message::SearchInputChar(c), now);
    let query = m.search.query;
    let longer = query.take(at) + seq![c] + query.skip(at);
    assert(step.0.search.query =~= longer);
    assert(longer.take(at) =~= query.take(at));
    lemma_prefix_step(longer, at);
}

/// Backspace takes the character before the cursor, and nothing at the start.
/// The search is asked for anew unless nothing is left of the query.
pub proof fn backspace_takes_the_character_before(m: ModelView, at: int, now: Moment)
    requires
        m.search.cursor_at(at),
    ensures
        ({
            let step = stepped(m, Message::SearchBackspace, now);
            let query = m.search.query;
            &&& at > 0 ==> edits(m, step, query.take(at - 1) + query.skip(at), at - 1)
            &&& at > 0 ==> step.0.search.pending == (query.len() > 1)
            &&& at > 0 ==> step.0.search.last_input == now
            &&& at == 0 ==> step == (m, Seq::<ActionView>::empty())
        }),
{
    lemma_cursor_place(m.search, at);
    let step = stepped(m, Message::SearchBackspace, now);
    let query = m.search.query;
    assert(query.take(0) =~= Seq::<char>::empty());
    if at > 0 {
        lemma_prefix_step(query, at - 1);
        assert(step.0.search.query =~= query.take(at - 1) + query.skip(at));
        assert(step.0.search.query.take(at - 1) =~= query.take(at - 1));
    } else {
        assert(m.search.cursor == 0);
    }
}

/// Delete takes the character after the cursor, which stays; at the end there is
/// none.
pub proof fn delete_takes_the_character_after(m: ModelView, at: int, now: Moment)
    requires
        m.mode == Mode::Insert,
        m.search.cursor_at(at),
    ensures
        ({
            let step = stepped(m, pressed(KeyCode::Delete), now);
            let query = m.search.query;
            &&& at < query.len() ==> edits(m, step, query.take(at) + query.skip(at + 1), at)
            &&& at < query.len() ==> step.0.search.pending == (query.len() > 1)
            &&& at < query.len() ==> step.0.search.last_input == now
            &&& at == query.len() ==> step == (m, Seq::<ActionView>::empty())
        }),
{
    lemma_cursor_place(m.search, at);
    let step = stepped(m, pressed(KeyCode::Delete), now);
    let query = m.search.query;
    if at < query.len() {
        assert(step.0.search.query =~= query.take(at) + query.skip(at + 1));
        assert(step.0.search.query.take(at) =~= query.take(at));
    }
}

/// Left and Right move the cursor by one character, Home and End to either end
/// of the query; at the end that it would leave, the cursor stays. The query and
/// its debounce stay as they are.
pub proof fn arrows_move_the_cursor(m: ModelView, at: int, now: Moment)
    requires
        m.mode == Mode::Insert,
        m.search.cursor_at(at),
    ensures
        ({
            let query = m.search.query;
            let left = stepped(m, pressed(KeyCode::Left), now);
            let right = stepped(m, pressed(KeyCode::Right), now);
            let home = stepped(m, pressed(KeyCode::Home), now);
            let end = stepped(m, pressed(KeyCode::End), now);
            let rests = |step: Step|
                step.0.search.pending == m.search.pending && step.0.search.last_input
                    == m.search.last_input;
            &&& edits(
                m,
                left,
                query,
                if at > 0 {
                    at - 1
                } else {
                    at
                },
            )
            &&& edits(
                m,
                right,
                query,
                if at < query.len() {
                    at + 1
                } else {
                    at
                },
            )
            &&& edits(m, home, query, 0)
            &&& edits(m, end, query, query.len() as int)
            &&& rests(left) && rests(right) && rests(home) && rests(end)
        }),
{
    lemma_cursor_place(m.search, at);
    let query = m.search.query;
    if at > 0 {
        lemma_prefix_step(query, at - 1);
    }
    if at < query.len() {
        lemma_prefix_step(query, at);
    }
    assert(query.take(0) =~= Seq::<char>::empty());
    assert(query.take(query.len() as int) =~= query);
}

/// Ctrl-U empties the query, and nothing is pending any more.
pub proof fn clearing_empties_the_query(m: ModelView, now: Moment)
    requires
        m.mode == Mode::Insert,
    ensures
        ({
            let key = KeyEvent {
                code: KeyCode::Char('u'),
                modifiers: KeyModifiers { shift: false, control: true, alt: false },
                kind: KeyEventKind::Press,
            };
            let step = stepped(m, Message::KeyPress(key), now);
            edits(m, step, Seq::empty(), 0) && !step.0.search.pending
        }),
{
    assert(Seq::<char>::empty().take(0) =~= Seq::<char>::empty());
}

/// Whether a step asks for the query of the search box: exactly one search, for
/// that very query, ten results to a lane, with the results marked as on their
/// way; an empty query is not asked for. Either way nothing stays pending.
pub open spec fn asks_for_the_query(before: ModelView, step: Step) -> bool {
    let query = before.search.query;
    let (after, asked) = step;
    &&& !after.search.pending
    &&& after.search.query == query
    &&& after.search.cursor == before.search.cursor
    &&& after.search.last_input == before.search.last_input
    &&& after == ModelView { search: after.search, search_phase: after.search_phase, ..before }
    &&& query.len() == 0 ==> asked.len() == 0 && after.search_phase == before.search_phase
    &&& query.len() > 0 ==> asked == seq![ActionView::Search { query, limit: 10 }]
        && after.search_phase == LoadPhase::Loading
}

/// Submitting asks for the query at once; so does Enter in the search box, which
/// ends typing, and a reload of the Search screen.
pub proof fn submitting_asks_for_the_query(m: ModelView, now: Moment)
    ensures
        asks_for_the_query(m, stepped(m, Message::SearchSubmit, now)),
        m.mode == Mode::Insert ==> asks_for_the_query(
            ModelView { mode: Mode::Normal, ..m },
            stepped(m, pressed(KeyCode::Enter), now),
        ),
        m.screen == Screen::Search ==> asks_for_the_query(m, refreshed(m, now)),
{
}

/// A tick asks for a pending query exactly once 300 milliseconds have passed
/// since the last edit; before that, and with nothing pending, it asks for
/// nothing and leaves the search alone.
pub proof fn a_pending_query_is_asked_for_after_its_pause(m: ModelView, now: Moment)
    ensures
        ({
            let step = stepped(m, Message::Tick, now);
            let shown = ModelView { volume_overlay_until: step.0.volume_overlay_until, ..m };
            let over = m.search.pending && now.nanos - m.search.last_input.nanos >= 300_000_000;
            &&& over ==> asks_for_the_query(shown, step)
            &&& !over ==> step == (shown, Seq::<ActionView>::empty())
        }),
{
}

/// Esc ends typing and keeps the query.
pub proof fn escape_ends_typing(m: ModelView, now: Moment)
    requires
        m.mode == Mode::Insert,
    ensures
        stepped(m, pressed(KeyCode::Esc), now) == (
            ModelView { mode: Mode::Normal, ..m },
            Seq::<ActionView>::empty(),
        ),
{
}

} // verus!
