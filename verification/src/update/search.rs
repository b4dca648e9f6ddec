//! Editing and submitting the search query.

use vstd::prelude::*;
use crate::api::SEARCH_LIMIT_MAX;
use crate::clock::{nanos_between, Moment};
use crate::message::{no_actions, one_action, Action, ActionView};
use crate::state::{LoadPhase, Model, ModelView, SearchState, SearchView};
use crate::text::{
    byte_len, chars_of, lemma_utf8_total_grows, lemma_utf8_total_push, text_from, utf8_len,
    utf8_size, utf8_total, views,
};
use crate::update::{Step, SEARCH_DEBOUNCE_MS};

verus! {

/// The number of characters before the cursor.
pub open spec fn chars_before(search: SearchView) -> int {
    choose|at: int| search.cursor_at(at)
}

/// The cursor sits at one place only.
pub proof fn lemma_cursor_place(search: SearchView, at: int)
    requires
        search.cursor_at(at),
    ensures
        chars_before(search) == at,
        search.wf(),
{
    let chosen = chars_before(search);
    assert(search.cursor_at(chosen));
    if chosen < at {
        lemma_utf8_total_grows(search.query, chosen, at);
    } else if at < chosen {
        lemma_utf8_total_grows(search.query, at, chosen);
    }
}

/// The query with `c` typed at the cursor, and the debounce armed.
pub open spec fn typed(search: SearchView, c: char, now: Moment) -> SearchView {
    SearchView {
        query: search.query.insert(chars_before(search), c),
        cursor: search.cursor + utf8_size(c),
        last_input: now,
        pending: true,
    }
}

/// The query without the character before the cursor; at the start of the
/// query nothing changes.
pub open spec fn backspaced(search: SearchView, now: Moment) -> SearchView {
    let at = chars_before(search);
    if search.cursor == 0 {
        search
    } else {
        SearchView {
            query: search.query.remove(at - 1),
            cursor: search.cursor - utf8_size(search.query[at - 1]),
            last_input: now,
            pending: search.query.len() > 1,
        }
    }
}

/// The query without the character after the cursor; at the end of the query
/// nothing changes.
pub open spec fn deleted(search: SearchView, now: Moment) -> SearchView {
    let at = chars_before(search);
    if at == search.query.len() {
        search
    } else {
        SearchView {
            query: search.query.remove(at),
            cursor: search.cursor,
            last_input: now,
            pending: search.query.len() > 1,
        }
    }
}

/// The empty query, with nothing pending.
pub open spec fn cleared(search: SearchView) -> SearchView {
    SearchView { query: Seq::empty(), cursor: 0, last_input: search.last_input, pending: false }
}

/// The cursor one character further left, as far as there is one.
pub open spec fn moved_left(search: SearchView) -> SearchView {
    let at = chars_before(search);
    if at == 0 {
        search
    } else {
        SearchView { cursor: search.cursor - utf8_size(search.query[at - 1]), ..search }
    }
}

/// The cursor one character further right, as far as there is one.
pub open spec fn moved_right(search: SearchView) -> SearchView {
    let at = chars_before(search);
    if at == search.query.len() {
        search
    } else {
        SearchView { cursor: search.cursor + utf8_size(search.query[at]), ..search }
    }
}

/// The cursor before the first character.
pub open spec fn moved_home(search: SearchView) -> SearchView {
    SearchView { cursor: 0, ..search }
}

/// The cursor after the last character.
pub open spec fn moved_end(search: SearchView) -> SearchView {
    SearchView { cursor: utf8_total(search.query) as int, ..search }
}

/// The model with its search box replaced.
pub open spec fn with_search(m: ModelView, search: SearchView) -> ModelView {
    ModelView { search, ..m }
}

/// The first `at + 1` characters take the bytes of the first `at` and of the
/// character there.
pub proof fn lemma_prefix_step(query: Seq<char>, at: int)
    requires
        0 <= at < query.len(),
    ensures
        utf8_total(query.take(at + 1)) == utf8_total(query.take(at)) + utf8_size(query[at]),
{
    assert(query.take(at + 1) =~= query.take(at).push(query[at]));
    lemma_utf8_total_push(query.take(at), query[at]);
}

/// A prefix takes no more bytes than the whole.
proof fn lemma_prefix_fits(query: Seq<char>, at: int)
    requires
        0 <= at <= query.len(),
    ensures
        utf8_total(query.take(at)) <= utf8_total(query),
{
    assert(query.take(query.len() as int) =~= query);
    if at < query.len() {
        lemma_utf8_total_grows(query, at, query.len() as int);
    }
}

/// Counts the characters before the cursor.
pub fn count_before(search: &SearchState, chars: &Vec<char>) -> (at: usize)
    requires
        search@.wf(),
        chars@ == search.query@,
    ensures
        search@.cursor_at(at as int),
        at == chars_before(search@),
        at <= chars@.len(),
{
    let ghost target = chars_before(search@);
    assert(search@.cursor_at(target));
    let mut i: usize = 0;
    let mut bytes: usize = 0;
    assert(chars@.take(0) =~= Seq::<char>::empty());
    while bytes < search.cursor
        invariant
            chars@ == search.query@,
            search@.cursor_at(target),
            0 <= i <= target,
            bytes == utf8_total(chars@.take(i as int)),
        decreases target - i,
    {
        assert(i < target <= chars.len());
        proof {
            lemma_prefix_step(chars@, i as int);
            if i + 1 < target {
                lemma_utf8_total_grows(chars@, i + 1, target);
            }
        }
        bytes = bytes + utf8_len(chars[i]);
        i = i + 1;
    }
    proof {
        if i < target {
            lemma_utf8_total_grows(chars@, i as int, target);
        }
        lemma_cursor_place(search@, i as int);
    }
    i
}

/// Insert a character into the search buffer and arm the debounce.
pub fn search_input_char(model: &mut Model, c: char, now: Moment) -> (actions: Vec<Action>)
    requires
        old(model)@.wf(),
    ensures
        final(model)@ == with_search(old(model)@, typed(old(model)@.search, c, now)),
        final(model)@.wf(),
        views(actions@) == Seq::<ActionView>::empty(),
{
    let mut chars = chars_of(model.search.query.as_str());
    let at = count_before(&model.search, &chars);
    chars.insert(at, c);
    let query = text_from(&chars);
    // The new query exists, so its length in bytes is within range.
    let _total: usize = byte_len(query.as_str());
    proof {
        let before = old(model)@.search.query;
        let after = query@;
        assert(after.take(at as int) =~= before.take(at as int));
        lemma_prefix_step(after, at as int);
        lemma_prefix_fits(after, at + 1);
    }
    model.search.query = query;
    model.search.cursor = model.search.cursor + utf8_len(c);
    model.search.last_input = now;
    model.search.pending = true;
    proof {
        assert(model@.search.cursor_at(at + 1));
    }
    no_actions()
}

/// Delete the character before the cursor and re-arm the debounce.
pub fn search_backspace(model: &mut Model, now: Moment) -> (actions: Vec<Action>)
    requires
        old(model)@.wf(),
    ensures
        final(model)@ == with_search(old(model)@, backspaced(old(model)@.search, now)),
        final(model)@.wf(),
        views(actions@) == Seq::<ActionView>::empty(),
{
    if model.search.cursor == 0 {
        return no_actions();
    }
    let mut chars = chars_of(model.search.query.as_str());
    let at = count_before(&model.search, &chars);
    assert(at > 0) by {
        assert(chars@.take(0) =~= Seq::<char>::empty());
    }
    proof {
        lemma_prefix_step(chars@, at - 1);
    }
    let size = utf8_len(chars[at - 1]);
    let _ = chars.remove(at - 1);
    let query = text_from(&chars);
    proof {
        let before = old(model)@.search.query;
        assert(query@.take(at - 1) =~= before.take(at - 1));
    }
    model.search.pending = chars.len() > 0;
    model.search.query = query;
    model.search.cursor = model.search.cursor - size;
    model.search.last_input = now;
    proof {
        assert(model@.search.cursor_at(at - 1));
    }
    no_actions()
}

/// Delete the character at (after) the cursor and re-arm the debounce.
pub fn search_delete(model: &mut Model, now: Moment) -> (actions: Vec<Action>)
    requires
        old(model)@.wf(),
    ensures
        final(model)@ == with_search(old(model)@, deleted(old(model)@.search, now)),
        final(model)@.wf(),
        views(actions@) == Seq::<ActionView>::empty(),
{
    let mut chars = chars_of(model.search.query.as_str());
    let at = count_before(&model.search, &chars);
    if at == chars.len() {
        return no_actions();
    }
    let _ = chars.remove(at);
    let query = text_from(&chars);
    proof {
        let before = old(model)@.search.query;
        assert(query@.take(at as int) =~= before.take(at as int));
    }
    model.search.pending = chars.len() > 0;
    model.search.query = query;
    model.search.last_input = now;
    proof {
        assert(model@.search.cursor_at(at as int));
    }
    no_actions()
}

/// Clear the whole query (Ctrl-U), leaving the results untouched.
pub fn search_clear(model: &mut Model) -> (actions: Vec<Action>)
    ensures
        final(model)@ == with_search(old(model)@, cleared(old(model)@.search)),
        final(model)@.wf(),
        views(actions@) == Seq::<ActionView>::empty(),
{
    model.search.query = String::new();
    model.search.cursor = 0;
    model.search.pending = false;
    proof {
        assert(model.search.query@ =~= Seq::<char>::empty());
        assert(model@.search.query.take(0) =~= Seq::<char>::empty());
        assert(model@.search.cursor_at(0));
    }
    no_actions()
}

/// Move the edit cursor one character left.
pub fn search_cursor_left(model: &mut Model) -> (actions: Vec<Action>)
    requires
        old(model)@.wf(),
    ensures
        final(model)@ == with_search(old(model)@, moved_left(old(model)@.search)),
        final(model)@.wf(),
        views(actions@) == Seq::<ActionView>::empty(),
{
    let chars = chars_of(model.search.query.as_str());
    let at = count_before(&model.search, &chars);
    if at == 0 {
        return no_actions();
    }
    proof {
        lemma_prefix_step(chars@, at - 1);
    }
    model.search.cursor = model.search.cursor - utf8_len(chars[at - 1]);
    proof {
        assert(model@.search.cursor_at(at - 1));
    }
    no_actions()
}

/// Move the edit cursor one character right.
pub fn search_cursor_right(model: &mut Model) -> (actions: Vec<Action>)
    requires
        old(model)@.wf(),
    ensures
        final(model)@ == with_search(old(model)@, moved_right(old(model)@.search)),
        final(model)@.wf(),
        views(actions@) == Seq::<ActionView>::empty(),
{
    let chars = chars_of(model.search.query.as_str());
    let at = count_before(&model.search, &chars);
    if at == chars.len() {
        return no_actions();
    }
    // The query exists, so its length in bytes is within range.
    let _total: usize = byte_len(model.search.query.as_str());
    proof {
        lemma_prefix_step(chars@, at as int);
        lemma_prefix_fits(chars@, at + 1);
    }
    model.search.cursor = model.search.cursor + utf8_len(chars[at]);
    proof {
        assert(model@.search.cursor_at(at + 1));
    }
    no_actions()
}

/// Move the edit cursor to the start of the query.
pub fn search_cursor_home(model: &mut Model) -> (actions: Vec<Action>)
    ensures
        final(model)@ == with_search(old(model)@, moved_home(old(model)@.search)),
        final(model)@.wf(),
        views(actions@) == Seq::<ActionView>::empty(),
{
    model.search.cursor = 0;
    proof {
        assert(model@.search.query.take(0) =~= Seq::<char>::empty());
        assert(model@.search.cursor_at(0));
    }
    no_actions()
}

/// Move the edit cursor to the end of the query.
pub fn search_cursor_end(model: &mut Model) -> (actions: Vec<Action>)
    ensures
        final(model)@ == with_search(old(model)@, moved_end(old(model)@.search)),
        final(model)@.wf(),
        views(actions@) == Seq::<ActionView>::empty(),
{
    model.search.cursor = byte_len(model.search.query.as_str());
    proof {
        let query = model@.search.query;
        assert(query.take(query.len() as int) =~= query);
        assert(model@.search.cursor_at(query.len() as int));
    }
    no_actions()
}

/// Asking for the current query: nothing where it is empty, otherwise one
/// search request, with the results marked as loading.
pub open spec fn asked(m: ModelView) -> Step {
    if m.search.query.len() == 0 {
        (m, Seq::empty())
    } else {
        (
            ModelView { search_phase: LoadPhase::Loading, ..m },
            seq![ActionView::Search { query: m.search.query, limit: SEARCH_LIMIT_MAX }],
        )
    }
}

/// Submitting the query: it is asked for at once and no longer pending.
pub open spec fn submitted(m: ModelView) -> Step {
    asked(with_search(m, SearchView { pending: false, ..m.search }))
}

/// Build the search action for the current query, or nothing when it is empty.
fn search_action(model: &mut Model) -> (actions: Vec<Action>)
    ensures
        (final(model)@, views(actions@)) == asked(old(model)@),
{
    if model.search.query.as_str().is_empty() {
        return no_actions();
    }
    model.search_phase = LoadPhase::Loading;
    one_action(Action::Search { query: model.search.query.clone(), limit: SEARCH_LIMIT_MAX })
}

/// Submit the search immediately, bypassing the debounce.
pub fn search_submit(model: &mut Model) -> (actions: Vec<Action>)
    ensures
        (final(model)@, views(actions@)) == submitted(old(model)@),
{
    model.search.pending = false;
    search_action(model)
}

/// Whether the debounce window of a pending search has passed.
pub open spec fn debounce_over(search: SearchView, now: Moment) -> bool {
    search.pending && nanos_between(search.last_input, now) >= SEARCH_DEBOUNCE_MS * 1_000_000
}

/// The periodic tick: an expired volume popup goes, and a pending search whose
/// debounce window has passed is asked for.
pub open spec fn ticked(m: ModelView, now: Moment) -> Step {
    let shown = ModelView {
        volume_overlay_until: match m.volume_overlay_until {
            Some(deadline) if now.nanos >= deadline.nanos => None,
            other => other,
        },
        ..m
    };
    if debounce_over(m.search, now) {
        submitted(shown)
    } else {
        (shown, Seq::empty())
    }
}

/// Hide the transient volume popup once its display window has elapsed.
fn expire_volume_overlay(model: &mut Model, now: Moment)
    ensures
        final(model)@ == (ModelView {
            volume_overlay_until: match old(model)@.volume_overlay_until {
                Some(deadline) if now.nanos >= deadline.nanos => None,
                other => other,
            },
            ..old(model)@
        }),
{
    if let Some(deadline) = model.volume_overlay_until {
        if now.nanos >= deadline.nanos {
            model.volume_overlay_until = None;
        }
    }
}

/// Handle the periodic tick: fire a debounced search once the window elapses.
pub fn tick(model: &mut Model, now: Moment) -> (actions: Vec<Action>)
    ensures
        (final(model)@, views(actions@)) == ticked(old(model)@, now),
{
    expire_volume_overlay(model, now);
    if model.search.pending && now.nanos_since(model.search.last_input) >= SEARCH_DEBOUNCE_MS
        * 1_000_000 {
        return search_submit(model);
    }
    no_actions()
}

} // verus!
