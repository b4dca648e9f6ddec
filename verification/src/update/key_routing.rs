//! From key events to what they do, in each input mode.

use vstd::prelude::*;
use crate::clock::Moment;
use crate::keys::{KeyCode, KeyEvent, KeyEventKind};
use crate::message::{no_actions, one_action, Action, ActionView};
use crate::state::{Mode, Model, ModelView, Screen};
use crate::text::views;
use crate::update::activate::{activate_selection, activated};
use crate::update::loading::{
    enter_screen, library_tab_request, paged, refresh_active, refreshed, row_after, row_before,
    screen_entered, select_first, select_last, select_next, select_page, select_previous, tab_asked,
    with_selection,
};
use crate::update::playback::{
    advanced, next_track, previous_track, seek_relative, sought, toggle_play_pause, toggled,
    volume_changed, volume_delta, went_back,
};
use crate::update::queue::{
    queue_selected, queued_selected, remove_queued, removed_queued, shuffle_toggled, toggle_shuffle,
};
use crate::update::search::{
    backspaced, cleared, deleted, moved_end, moved_home, moved_left, moved_right, search_backspace,
    search_clear, search_cursor_end, search_cursor_home, search_cursor_left, search_cursor_right,
    search_delete, search_input_char, search_submit, submitted, typed, with_search,
};
use crate::update::Step;

verus! {

/// Seek step in milliseconds for a single left/right key press.
pub const SEEK_STEP_MS: i32 = 5_000;

/// Volume step (percentage points) for a single volume key press.
pub const VOLUME_STEP: i16 = 5;

/// A step without actions.
pub open spec fn quiet(m: ModelView) -> Step {
    (m, Seq::empty())
}

/// The model marked for shutdown.
pub open spec fn quitting(m: ModelView) -> ModelView {
    ModelView { should_quit: true, ..m }
}

/// The model in text-insertion mode.
pub open spec fn inserting(m: ModelView) -> ModelView {
    ModelView { mode: Mode::Insert, ..m }
}

/// The model in navigation mode.
pub open spec fn navigating(m: ModelView) -> ModelView {
    ModelView { mode: Mode::Normal, ..m }
}

/// The model in the repeat mode after its current one.
pub open spec fn repeat_cycled(m: ModelView) -> ModelView {
    ModelView { repeat: m.repeat.following(), ..m }
}

/// A key while the search box is edited.
pub open spec fn insert_keyed(m: ModelView, key: KeyEvent, now: Moment) -> Step {
    if key.modifiers.control && key.code == KeyCode::Char('u') {
        quiet(with_search(m, cleared(m.search)))
    } else {
        match key.code {
            KeyCode::Esc => quiet(navigating(m)),
            KeyCode::Enter => submitted(navigating(m)),
            KeyCode::Backspace => quiet(with_search(m, backspaced(m.search, now))),
            KeyCode::Delete => quiet(with_search(m, deleted(m.search, now))),
            KeyCode::Left => quiet(with_search(m, moved_left(m.search))),
            KeyCode::Right => quiet(with_search(m, moved_right(m.search))),
            KeyCode::Home => quiet(with_search(m, moved_home(m.search))),
            KeyCode::End => quiet(with_search(m, moved_end(m.search))),
            KeyCode::Char(c) => quiet(with_search(m, typed(m.search, c, now))),
            _ => quiet(m),
        }
    }
}

/// Tab and Shift-Tab, on the screens that have tabs.
pub open spec fn tab_keyed(m: ModelView, code: KeyCode, now: Moment) -> Option<Step> {
    if code != KeyCode::Tab && code != KeyCode::BackTab {
        None
    } else {
        let forward = code == KeyCode::Tab;
        match m.screen {
            Screen::Library => {
                let tab = m.library_tab.moved(forward);
                Some(
                    tab_asked(
                        ModelView { library_tab: tab, ..m }.selection_reset(),
                        tab,
                        false,
                        now,
                    ),
                )
            },
            Screen::Search => Some(
                quiet(
                    ModelView {
                        search_tab: m.search_tab.moved(forward),
                        ..m
                    }.selection_reset(),
                ),
            ),
            Screen::Playlists | Screen::Tracks | Screen::Queue => None,
        }
    }
}

/// Whether `key` has its built-in meaning: no action is bound to it.
pub open spec fn unbound(m: ModelView, key: char) -> bool {
    !m.keybindings.keys().contains(key)
}

/// Keys available everywhere: quit, search, screens, reload, queue and modes.
/// A built-in letter yields to a user binding.
pub open spec fn global_keyed(m: ModelView, code: KeyCode, now: Moment) -> Option<Step> {
    if code == KeyCode::Char(m.keybindings.quit) {
        Some(quiet(quitting(m)))
    } else if code == KeyCode::Char(m.keybindings.search) {
        Some(quiet(inserting(ModelView { screen: Screen::Search, ..m })))
    } else {
        match code {
            KeyCode::Char('1') => Some(screen_entered(m, Screen::Search, now)),
            KeyCode::Char('2') => Some(screen_entered(m, Screen::Playlists, now)),
            KeyCode::Char('3') => Some(screen_entered(m, Screen::Library, now)),
            KeyCode::Char('4') => Some(screen_entered(m, Screen::Queue, now)),
            KeyCode::Char('r') if unbound(m, 'r') => Some(refreshed(m, now)),
            KeyCode::Char('s') if unbound(m, 's') => Some(shuffle_toggled(m, now)),
            KeyCode::Char('R') if unbound(m, 'R') => Some(quiet(repeat_cycled(m))),
            KeyCode::Char('a') if unbound(m, 'a') => Some(queued_selected(m)),
            KeyCode::Char('x') if unbound(m, 'x') => Some(removed_queued(m)),
            _ => None,
        }
    }
}

/// `Esc` in navigation mode: back out of a drilled-in track list, to the
/// screen it was entered from.
pub open spec fn escaped(m: ModelView, now: Moment) -> Step {
    if m.screen == Screen::Tracks {
        screen_entered(m, m.tracks_origin, now)
    } else {
        quiet(m)
    }
}

/// List navigation and selection keys.
pub open spec fn navigation_keyed(m: ModelView, code: KeyCode, now: Moment) -> Option<Step> {
    if code == KeyCode::Down || code == KeyCode::Char(m.keybindings.down) {
        Some(quiet(with_selection(m, row_after(m.list))))
    } else if code == KeyCode::Up || code == KeyCode::Char(m.keybindings.up) {
        Some(quiet(with_selection(m, row_before(m.list))))
    } else {
        match code {
            KeyCode::Home | KeyCode::Char('g') => Some(quiet(with_selection(m, 0))),
            KeyCode::End | KeyCode::Char('G') => Some(quiet(with_selection(m, usize::MAX))),
            KeyCode::PageDown => Some(quiet(paged(m, true))),
            KeyCode::PageUp => Some(quiet(paged(m, false))),
            KeyCode::Enter => Some(activated(m, now)),
            KeyCode::Esc => Some(escaped(m, now)),
            _ => None,
        }
    }
}

/// The skip key: the queue advances; with no queue in the model the skip is
/// handed to the player.
pub open spec fn next_keyed(m: ModelView) -> Step {
    if m.queue.len() == 0 {
        (m, seq![ActionView::PlayerNext])
    } else {
        advanced(m, true)
    }
}

/// The back key: the queue goes back; with no queue in the model the skip is
/// handed to the player.
pub open spec fn previous_keyed(m: ModelView) -> Step {
    if m.queue.len() == 0 {
        (m, seq![ActionView::PlayerPrev])
    } else {
        went_back(m)
    }
}

/// Playback transport keys. Keys without a meaning do nothing.
pub open spec fn transport_keyed(m: ModelView, code: KeyCode, now: Moment) -> Step {
    if code == KeyCode::Char(m.keybindings.play_pause) {
        (m, toggled(m))
    } else if code == KeyCode::Char(m.keybindings.next) {
        next_keyed(m)
    } else if code == KeyCode::Char(m.keybindings.previous) {
        previous_keyed(m)
    } else {
        match code {
            KeyCode::Right | KeyCode::Char('l') => (m, sought(m, SEEK_STEP_MS as int)),
            KeyCode::Left | KeyCode::Char('h') => (m, sought(m, -SEEK_STEP_MS)),
            KeyCode::Char('+') | KeyCode::Char('=') => volume_changed(m, VOLUME_STEP as int, now),
            KeyCode::Char('-') | KeyCode::Char('_') => volume_changed(m, -VOLUME_STEP, now),
            _ => quiet(m),
        }
    }
}

/// A key in navigation mode: the status clears, and the first group of keys
/// that knows the key decides.
pub open spec fn normal_keyed(before: ModelView, key: KeyEvent, now: Moment) -> Step {
    let m = ModelView { status: None, ..before };
    if key.modifiers.control && key.code == KeyCode::Char('c') {
        quiet(quitting(m))
    } else {
        match tab_keyed(m, key.code, now) {
            Some(step) => step,
            None => match global_keyed(m, key.code, now) {
                Some(step) => step,
                None => match navigation_keyed(m, key.code, now) {
                    Some(step) => step,
                    None => transport_keyed(m, key.code, now),
                },
            },
        }
    }
}

/// A key event; releases are ignored.
pub open spec fn keyed(m: ModelView, key: KeyEvent, now: Moment) -> Step {
    if key.kind == KeyEventKind::Release {
        quiet(m)
    } else {
        match m.mode {
            Mode::Insert => insert_keyed(m, key, now),
            Mode::Normal => normal_keyed(m, key, now),
        }
    }
}

/// Mark the model for shutdown.
pub fn quit(model: &mut Model) -> (actions: Vec<Action>)
    ensures
        (final(model)@, views(actions@)) == quiet(quitting(old(model)@)),
{
    model.should_quit = true;
    no_actions()
}

/// Enter text-insertion mode (only meaningful on the search screen).
pub fn enter_insert(model: &mut Model) -> (actions: Vec<Action>)
    ensures
        (final(model)@, views(actions@)) == quiet(inserting(old(model)@)),
{
    model.mode = Mode::Insert;
    no_actions()
}

/// Leave text-insertion mode.
pub fn exit_insert(model: &mut Model) -> (actions: Vec<Action>)
    ensures
        (final(model)@, views(actions@)) == quiet(navigating(old(model)@)),
{
    model.mode = Mode::Normal;
    no_actions()
}

/// Switch to the next repeat mode.
pub fn cycle_repeat(model: &mut Model) -> (actions: Vec<Action>)
    ensures
        (final(model)@, views(actions@)) == quiet(repeat_cycled(old(model)@)),
{
    model.repeat = model.repeat.cycled();
    no_actions()
}

/// Whether the key is the character `binding`.
fn char_key(code: KeyCode, binding: char) -> (yes: bool)
    ensures
        yes == (code == KeyCode::Char(binding)),
{
    match code {
        KeyCode::Char(key) => key == binding,
        _ => false,
    }
}

/// Handle keys while editing the search box.
fn key_press_insert(model: &mut Model, key: KeyEvent, now: Moment) -> (actions: Vec<Action>)
    requires
        old(model)@.wf(),
    ensures
        (final(model)@, views(actions@)) == insert_keyed(old(model)@, key, now),
        final(model)@.wf(),
{
    if key.modifiers.control && char_key(key.code, 'u') {
        return search_clear(model);
    }
    match key.code {
        KeyCode::Esc => exit_insert(model),
        KeyCode::Enter => {
            model.mode = Mode::Normal;
            let actions = search_submit(model);
            proof {
                lemma_same_search(old(model)@, model@);
            }
            actions
        },
        KeyCode::Backspace => search_backspace(model, now),
        KeyCode::Delete => search_delete(model, now),
        KeyCode::Left => search_cursor_left(model),
        KeyCode::Right => search_cursor_right(model),
        KeyCode::Home => search_cursor_home(model),
        KeyCode::End => search_cursor_end(model),
        KeyCode::Char(c) => search_input_char(model, c, now),
        _ => no_actions(),
    }
}

/// A model whose query and cursor are those of a well-formed one is
/// well-formed.
pub proof fn lemma_same_search(before: ModelView, after: ModelView)
    requires
        before.wf(),
        after.search.query == before.search.query,
        after.search.cursor == before.search.cursor,
    ensures
        after.wf(),
{
    let at = choose|at: int| before.search.cursor_at(at);
    assert(after.search.cursor_at(at));
}

/// Cycle the active sub-tab with Tab/Shift-Tab on the Library and Search screens.
fn tab_key(model: &mut Model, code: KeyCode, now: Moment) -> (actions: Option<Vec<Action>>)
    ensures
        match actions {
            Some(actions) => tab_keyed(old(model)@, code, now) == Some(
                (final(model)@, views(actions@)),
            ),
            None => tab_keyed(old(model)@, code, now) is None && final(model)@ == old(model)@,
        },
{
    let forward: bool = match code {
        KeyCode::Tab => true,
        KeyCode::BackTab => false,
        _ => {
            return None;
        },
    };
    match model.screen {
        Screen::Library => {
            model.library_tab = model.library_tab.cycled(forward);
            model.reset_selection();
            let tab = model.library_tab;
            Some(library_tab_request(model, tab, false, now))
        },
        Screen::Search => {
            model.search_tab = model.search_tab.cycled(forward);
            model.reset_selection();
            Some(no_actions())
        },
        Screen::Playlists | Screen::Tracks | Screen::Queue => None,
    }
}

/// Screen-switching, quit, search-entry and queue keys available everywhere.
fn global_key(model: &mut Model, code: KeyCode, now: Moment) -> (actions: Option<Vec<Action>>)
    ensures
        match actions {
            Some(actions) => global_keyed(old(model)@, code, now) == Some(
                (final(model)@, views(actions@)),
            ),
            None => global_keyed(old(model)@, code, now) is None && final(model)@ == old(model)@,
        },
{
    if char_key(code, model.keybindings.quit) {
        return Some(quit(model));
    }
    if char_key(code, model.keybindings.search) {
        model.screen = Screen::Search;
        return Some(enter_insert(model));
    }
    match code {
        KeyCode::Char('1') => Some(enter_screen(model, Screen::Search, now)),
        KeyCode::Char('2') => Some(enter_screen(model, Screen::Playlists, now)),
        KeyCode::Char('3') => Some(enter_screen(model, Screen::Library, now)),
        KeyCode::Char('4') => Some(enter_screen(model, Screen::Queue, now)),
        // The remaining letters yield to a user binding, so that a configured
        // key keeps its configured meaning.
        KeyCode::Char(key) => {
            if model.keybindings.uses(key) {
                return None;
            }
            match key {
                'r' => Some(refresh_active(model, now)),
                's' => Some(toggle_shuffle(model, now)),
                'R' => Some(cycle_repeat(model)),
                'a' => Some(queue_selected(model)),
                'x' => Some(remove_queued(model)),
                _ => None,
            }
        },
        _ => None,
    }
}

/// `Esc` in navigation mode steps back out of a drilled-in track list, to
/// whichever screen the user drilled in from (playlists, library, or search).
fn escape(model: &mut Model, now: Moment) -> (actions: Vec<Action>)
    ensures
        (final(model)@, views(actions@)) == escaped(old(model)@, now),
{
    if model.screen == Screen::Tracks {
        let origin = model.tracks_origin;
        return enter_screen(model, origin, now);
    }
    no_actions()
}

/// List navigation and selection keys.
fn navigation_key(model: &mut Model, code: KeyCode, now: Moment) -> (actions: Option<Vec<Action>>)
    ensures
        match actions {
            Some(actions) => navigation_keyed(old(model)@, code, now) == Some(
                (final(model)@, views(actions@)),
            ),
            None => navigation_keyed(old(model)@, code, now) is None && final(model)@ == old(
                model,
            )@,
        },
{
    if code == KeyCode::Down || char_key(code, model.keybindings.down) {
        return Some(select_next(model));
    }
    if code == KeyCode::Up || char_key(code, model.keybindings.up) {
        return Some(select_previous(model));
    }
    match code {
        KeyCode::Home | KeyCode::Char('g') => Some(select_first(model)),
        KeyCode::End | KeyCode::Char('G') => Some(select_last(model)),
        KeyCode::PageDown => Some(select_page(model, true)),
        KeyCode::PageUp => Some(select_page(model, false)),
        KeyCode::Enter => Some(activate_selection(model, now)),
        KeyCode::Esc => Some(escape(model, now)),
        _ => None,
    }
}

/// Playback transport keys (play/pause, skip, seek).
fn transport_key(model: &mut Model, code: KeyCode, now: Moment) -> (actions: Vec<Action>)
    ensures
        (final(model)@, views(actions@)) == transport_keyed(old(model)@, code, now),
{
    if char_key(code, model.keybindings.play_pause) {
        return toggle_play_pause(model);
    }
    if char_key(code, model.keybindings.next) {
        if model.playback_queue.len() == 0 {
            return one_action(Action::PlayerNext);
        }
        return next_track(model);
    }
    if char_key(code, model.keybindings.previous) {
        if model.playback_queue.len() == 0 {
            return one_action(Action::PlayerPrev);
        }
        return previous_track(model);
    }
    match code {
        KeyCode::Right | KeyCode::Char('l') => seek_relative(model, SEEK_STEP_MS),
        KeyCode::Left | KeyCode::Char('h') => seek_relative(model, -SEEK_STEP_MS),
        KeyCode::Char('+') | KeyCode::Char('=') => volume_delta(model, VOLUME_STEP, now),
        KeyCode::Char('-') | KeyCode::Char('_') => volume_delta(model, -VOLUME_STEP, now),
        _ => no_actions(),
    }
}

/// Handle keys in navigation mode, common to every screen.
fn key_press_normal(model: &mut Model, key: KeyEvent, now: Moment) -> (actions: Vec<Action>)
    ensures
        (final(model)@, views(actions@)) == normal_keyed(old(model)@, key, now),
{
    model.clear_status();
    if key.modifiers.control && char_key(key.code, 'c') {
        return quit(model);
    }
    if let Some(actions) = tab_key(model, key.code, now) {
        return actions;
    }
    if let Some(actions) = global_key(model, key.code, now) {
        return actions;
    }
    if let Some(actions) = navigation_key(model, key.code, now) {
        return actions;
    }
    transport_key(model, key.code, now)
}

/// Route a raw key event through the active input mode.
pub fn key_press(model: &mut Model, key: KeyEvent, now: Moment) -> (actions: Vec<Action>)
    requires
        old(model)@.wf(),
    ensures
        (final(model)@, views(actions@)) == keyed(old(model)@, key, now),
{
    if key.kind == KeyEventKind::Release {
        return no_actions();
    }
    match model.mode {
        Mode::Insert => key_press_insert(model, key, now),
        Mode::Normal => key_press_normal(model, key, now),
    }
}

} // verus!
