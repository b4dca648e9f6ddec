//! Laws of the keys: which message each key stands for, in each input mode.

use vstd::prelude::*;
use crate::clock::Moment;
use crate::config::Keybindings;
use crate::keys::{KeyCode, KeyEvent, KeyEventKind, KeyModifiers};
use crate::message::{ActionView, Message};
use crate::state::{Mode, ModelView, Screen};
use crate::update::key_routing::{
    global_keyed, navigation_keyed, normal_keyed, tab_keyed, transport_keyed, unbound,
};
use crate::update::loading::{paged, refreshed};
use crate::update::search_laws::pressed;
use crate::update::{stepped, Step};

verus! {

/// Whether the user bound `key` to some action.
pub open spec fn is_bound(keys: Keybindings, key: char) -> bool {
    ||| key == keys.quit
    ||| key == keys.down
    ||| key == keys.up
    ||| key == keys.play_pause
    ||| key == keys.next
    ||| key == keys.previous
    ||| key == keys.search
}

/// The model with no message in the footer, which any key clears.
pub open spec fn calm(m: ModelView) -> ModelView {
    ModelView { status: None, ..m }
}

/// Whether pressing the key leads to `step`.
#[verifier::opaque]
pub open spec fn gives(m: ModelView, code: KeyCode, step: Step, now: Moment) -> bool {
    stepped(m, pressed(code), now) == step
}

/// Whether the key does in navigation mode what `msg` does.
#[verifier::opaque]
pub open spec fn means(m: ModelView, code: KeyCode, msg: Message, now: Moment) -> bool {
    stepped(m, pressed(code), now) == stepped(calm(m), msg, now)
}

/// The key event behind [`pressed`].
spec fn press(code: KeyCode) -> KeyEvent {
    KeyEvent {
        code,
        modifiers: KeyModifiers { shift: false, control: false, alt: false },
        kind: KeyEventKind::Press,
    }
}

/// What the groups of keys make of a key other than the tab keys.
spec fn routed(m: ModelView, code: KeyCode, now: Moment) -> Step {
    match global_keyed(m, code, now) {
        Some(step) => step,
        None => match navigation_keyed(m, code, now) {
            Some(step) => step,
            None => transport_keyed(m, code, now),
        },
    }
}

/// A key is bound where one of the bindings is that key.
proof fn lemma_bound(m: ModelView, key: char)
    ensures
        unbound(m, key) == !is_bound(m.keybindings, key),
{
    let keys = m.keybindings.keys();
    assert(keys[0] == m.keybindings.quit && keys[1] == m.keybindings.down && keys[2]
        == m.keybindings.up && keys[3] == m.keybindings.play_pause && keys[4] == m.keybindings.next
        && keys[5] == m.keybindings.previous && keys[6] == m.keybindings.search);
}

/// Distinct bindings differ pair by pair.
proof fn lemma_distinct(keys: Keybindings)
    requires
        keys.distinct(),
    ensures
        keys.quit != keys.down && keys.quit != keys.up && keys.quit != keys.play_pause,
        keys.quit != keys.next && keys.quit != keys.previous && keys.quit != keys.search,
        keys.down != keys.up && keys.down != keys.play_pause && keys.down != keys.next,
        keys.down != keys.previous && keys.down != keys.search,
        keys.up != keys.play_pause && keys.up != keys.next && keys.up != keys.previous,
        keys.up != keys.search,
        keys.play_pause != keys.next && keys.play_pause != keys.previous,
        keys.play_pause != keys.search,
        keys.next != keys.previous && keys.next != keys.search && keys.previous != keys.search,
{
    let all = keys.keys();
    assert(all[0] == keys.quit && all[1] == keys.down && all[2] == keys.up && all[3]
        == keys.play_pause && all[4] == keys.next && all[5] == keys.previous && all[6]
        == keys.search);
}

/// In navigation mode the groups of keys decide.
proof fn lemma_gives(m: ModelView, code: KeyCode, now: Moment)
    requires
        m.mode == Mode::Normal,
        code != KeyCode::Tab,
        code != KeyCode::BackTab,
    ensures
        gives(m, code, routed(calm(m), code, now), now),
{
    reveal(gives);
    assert(stepped(m, pressed(code), now) == normal_keyed(m, press(code), now));
    assert(normal_keyed(m, press(code), now) == routed(calm(m), code, now));
}

/// A key whose step is that of a message stands for the message.
proof fn lemma_means(m: ModelView, code: KeyCode, msg: Message, now: Moment)
    requires
        m.mode == Mode::Normal,
        code != KeyCode::Tab,
        code != KeyCode::BackTab,
        routed(calm(m), code, now) == stepped(calm(m), msg, now),
    ensures
        means(m, code, msg, now),
{
    lemma_gives(m, code, now);
    reveal(gives);
    reveal(means);
}

/// The keys that move the selection row by row.
proof fn lemma_row_key(m: ModelView, code: KeyCode, msg: Message, now: Moment)
    requires
        m.mode == Mode::Normal,
        code == KeyCode::Down && msg == Message::SelectNext || code == KeyCode::Up && msg
            == Message::SelectPrevious,
    ensures
        means(m, code, msg, now),
{
    lemma_means(m, code, msg, now);
}

/// The keys that lead to the ends of the list.
proof fn lemma_end_key(m: ModelView, code: KeyCode, msg: Message, now: Moment)
    requires
        m.mode == Mode::Normal,
        code == KeyCode::Home && msg == Message::SelectFirst || code == KeyCode::End && msg
            == Message::SelectLast,
    ensures
        means(m, code, msg, now),
{
    lemma_means(m, code, msg, now);
}

/// The keys that move the selection.
pub proof fn arrows_move_the_selection(m: ModelView, now: Moment)
    requires
        m.mode == Mode::Normal,
    ensures
        means(m, KeyCode::Down, Message::SelectNext, now),
        means(m, KeyCode::Up, Message::SelectPrevious, now),
        means(m, KeyCode::Home, Message::SelectFirst, now),
        means(m, KeyCode::End, Message::SelectLast, now),
        gives(m, KeyCode::PageDown, (paged(calm(m), true), Seq::<ActionView>::empty()), now),
        gives(m, KeyCode::PageUp, (paged(calm(m), false), Seq::<ActionView>::empty()), now),
{
    lemma_row_key(m, KeyCode::Down, Message::SelectNext, now);
    lemma_row_key(m, KeyCode::Up, Message::SelectPrevious, now);
    lemma_end_key(m, KeyCode::Home, Message::SelectFirst, now);
    lemma_end_key(m, KeyCode::End, Message::SelectLast, now);
    lemma_gives(m, KeyCode::PageDown, now);
    lemma_gives(m, KeyCode::PageUp, now);
}

/// Enter stands for the activation of the selected row.
proof fn lemma_enter(m: ModelView, now: Moment)
    requires
        m.mode == Mode::Normal,
    ensures
        means(m, KeyCode::Enter, Message::ActivateSelection, now),
{
    lemma_means(m, KeyCode::Enter, Message::ActivateSelection, now);
}

/// Esc leaves an opened list for the screen it was opened from.
proof fn lemma_escape(m: ModelView, now: Moment)
    requires
        m.mode == Mode::Normal,
        m.screen == Screen::Tracks,
    ensures
        means(m, KeyCode::Esc, Message::EnterScreen(m.tracks_origin), now),
{
    lemma_means(m, KeyCode::Esc, Message::EnterScreen(m.tracks_origin), now);
}

/// Enter activates the selected row, and Esc leaves an opened list.
pub proof fn enter_and_escape(m: ModelView, now: Moment)
    requires
        m.mode == Mode::Normal,
    ensures
        means(m, KeyCode::Enter, Message::ActivateSelection, now),
        m.screen == Screen::Tracks ==> means(
            m,
            KeyCode::Esc,
            Message::EnterScreen(m.tracks_origin),
            now,
        ),
        m.screen != Screen::Tracks ==> gives(
            m,
            KeyCode::Esc,
            (calm(m), Seq::<ActionView>::empty()),
            now,
        ),
{
    lemma_enter(m, now);
    if m.screen == Screen::Tracks {
        lemma_escape(m, now);
    } else {
        lemma_gives(m, KeyCode::Esc, now);
    }
}

/// The keys that seek forward.
proof fn lemma_forward_key(m: ModelView, code: KeyCode, now: Moment)
    requires
        m.mode == Mode::Normal,
        code == KeyCode::Right || code == KeyCode::Char('l') && !is_bound(m.keybindings, 'l'),
    ensures
        means(m, code, Message::SeekRelative(5_000), now),
{
    lemma_means(m, code, Message::SeekRelative(5_000), now);
}

/// The keys that seek back.
proof fn lemma_back_key(m: ModelView, code: KeyCode, now: Moment)
    requires
        m.mode == Mode::Normal,
        code == KeyCode::Left || code == KeyCode::Char('h') && !is_bound(m.keybindings, 'h'),
    ensures
        means(m, code, Message::SeekRelative((-5_000) as i32), now),
{
    lemma_means(m, code, Message::SeekRelative((-5_000) as i32), now);
}

/// Right and Left seek five seconds forward and back.
pub proof fn arrows_seek_five_seconds(m: ModelView, now: Moment)
    requires
        m.mode == Mode::Normal,
    ensures
        means(m, KeyCode::Right, Message::SeekRelative(5_000), now),
        means(m, KeyCode::Left, Message::SeekRelative((-5_000) as i32), now),
        !is_bound(m.keybindings, 'l') ==> means(
            m,
            KeyCode::Char('l'),
            Message::SeekRelative(5_000),
            now,
        ),
        !is_bound(m.keybindings, 'h') ==> means(
            m,
            KeyCode::Char('h'),
            Message::SeekRelative((-5_000) as i32),
            now,
        ),
{
    lemma_forward_key(m, KeyCode::Right, now);
    lemma_back_key(m, KeyCode::Left, now);
    if !is_bound(m.keybindings, 'l') {
        lemma_forward_key(m, KeyCode::Char('l'), now);
    }
    if !is_bound(m.keybindings, 'h') {
        lemma_back_key(m, KeyCode::Char('h'), now);
    }
}

/// The keys that turn the volume up.
proof fn lemma_louder_key(m: ModelView, key: char, now: Moment)
    requires
        m.mode == Mode::Normal,
        key == '+' || key == '=',
        !is_bound(m.keybindings, key),
    ensures
        means(m, KeyCode::Char(key), Message::VolumeDelta(5), now),
{
    lemma_means(m, KeyCode::Char(key), Message::VolumeDelta(5), now);
}

/// The keys that turn the volume down.
proof fn lemma_softer_key(m: ModelView, key: char, now: Moment)
    requires
        m.mode == Mode::Normal,
        key == '-' || key == '_',
        !is_bound(m.keybindings, key),
    ensures
        means(m, KeyCode::Char(key), Message::VolumeDelta((-5) as i16), now),
{
    lemma_means(m, KeyCode::Char(key), Message::VolumeDelta((-5) as i16), now);
}

/// The volume keys turn the volume up and down by five points.
pub proof fn volume_keys_move_five_points(m: ModelView, now: Moment)
    requires
        m.mode == Mode::Normal,
    ensures
        !is_bound(m.keybindings, '+') ==> means(
            m,
            KeyCode::Char('+'),
            Message::VolumeDelta(5),
            now,
        ),
        !is_bound(m.keybindings, '=') ==> means(
            m,
            KeyCode::Char('='),
            Message::VolumeDelta(5),
            now,
        ),
        !is_bound(m.keybindings, '-') ==> means(
            m,
            KeyCode::Char('-'),
            Message::VolumeDelta((-5) as i16),
            now,
        ),
        !is_bound(m.keybindings, '_') ==> means(
            m,
            KeyCode::Char('_'),
            Message::VolumeDelta((-5) as i16),
            now,
        ),
{
    if !is_bound(m.keybindings, '+') {
        lemma_louder_key(m, '+', now);
    }
    if !is_bound(m.keybindings, '=') {
        lemma_louder_key(m, '=', now);
    }
    if !is_bound(m.keybindings, '-') {
        lemma_softer_key(m, '-', now);
    }
    if !is_bound(m.keybindings, '_') {
        lemma_softer_key(m, '_', now);
    }
}

/// The digits of the screens.
proof fn lemma_digit(m: ModelView, key: char, screen: Screen, now: Moment)
    requires
        m.mode == Mode::Normal,
        !is_bound(m.keybindings, key),
        (key == '1' && screen == Screen::Search) || (key == '2' && screen == Screen::Playlists) || (
        key == '3' && screen == Screen::Library) || (key == '4' && screen == Screen::Queue),
    ensures
        means(m, KeyCode::Char(key), Message::EnterScreen(screen), now),
{
    lemma_means(m, KeyCode::Char(key), Message::EnterScreen(screen), now);
}

/// The digits lead to the four screens of the header.
pub proof fn digits_lead_to_the_screens(m: ModelView, now: Moment)
    requires
        m.mode == Mode::Normal,
    ensures
        !is_bound(m.keybindings, '1') ==> means(
            m,
            KeyCode::Char('1'),
            Message::EnterScreen(Screen::Search),
            now,
        ),
        !is_bound(m.keybindings, '2') ==> means(
            m,
            KeyCode::Char('2'),
            Message::EnterScreen(Screen::Playlists),
            now,
        ),
        !is_bound(m.keybindings, '3') ==> means(
            m,
            KeyCode::Char('3'),
            Message::EnterScreen(Screen::Library),
            now,
        ),
        !is_bound(m.keybindings, '4') ==> means(
            m,
            KeyCode::Char('4'),
            Message::EnterScreen(Screen::Queue),
            now,
        ),
{
    if !is_bound(m.keybindings, '1') {
        lemma_digit(m, '1', Screen::Search, now);
    }
    if !is_bound(m.keybindings, '2') {
        lemma_digit(m, '2', Screen::Playlists, now);
    }
    if !is_bound(m.keybindings, '3') {
        lemma_digit(m, '3', Screen::Library, now);
    }
    if !is_bound(m.keybindings, '4') {
        lemma_digit(m, '4', Screen::Queue, now);
    }
}

/// The letter s, while it is free.
proof fn lemma_shuffle_letter(m: ModelView, now: Moment)
    requires
        m.mode == Mode::Normal,
        !is_bound(m.keybindings, 's'),
    ensures
        means(m, KeyCode::Char('s'), Message::ToggleShuffle, now),
{
    lemma_bound(calm(m), 's');
    lemma_means(m, KeyCode::Char('s'), Message::ToggleShuffle, now);
}

/// The letter R, while it is free.
proof fn lemma_repeat_letter(m: ModelView, now: Moment)
    requires
        m.mode == Mode::Normal,
        !is_bound(m.keybindings, 'R'),
    ensures
        means(m, KeyCode::Char('R'), Message::CycleRepeat, now),
{
    lemma_bound(calm(m), 'R');
    lemma_means(m, KeyCode::Char('R'), Message::CycleRepeat, now);
}

/// The letter a, while it is free.
proof fn lemma_queue_letter(m: ModelView, now: Moment)
    requires
        m.mode == Mode::Normal,
        !is_bound(m.keybindings, 'a'),
    ensures
        means(m, KeyCode::Char('a'), Message::QueueSelected, now),
{
    lemma_bound(calm(m), 'a');
    lemma_means(m, KeyCode::Char('a'), Message::QueueSelected, now);
}

/// The letter x, while it is free.
proof fn lemma_remove_letter(m: ModelView, now: Moment)
    requires
        m.mode == Mode::Normal,
        !is_bound(m.keybindings, 'x'),
    ensures
        means(m, KeyCode::Char('x'), Message::RemoveQueued, now),
{
    lemma_bound(calm(m), 'x');
    lemma_means(m, KeyCode::Char('x'), Message::RemoveQueued, now);
}

/// The letter g, while it is free.
proof fn lemma_first_letter(m: ModelView, now: Moment)
    requires
        m.mode == Mode::Normal,
        !is_bound(m.keybindings, 'g'),
    ensures
        means(m, KeyCode::Char('g'), Message::SelectFirst, now),
{
    lemma_means(m, KeyCode::Char('g'), Message::SelectFirst, now);
}

/// The letter G, while it is free.
proof fn lemma_last_letter(m: ModelView, now: Moment)
    requires
        m.mode == Mode::Normal,
        !is_bound(m.keybindings, 'G'),
    ensures
        means(m, KeyCode::Char('G'), Message::SelectLast, now),
{
    lemma_means(m, KeyCode::Char('G'), Message::SelectLast, now);
}

/// The letters with a meaning of their own, as long as the user has not bound
/// them: reload, shuffle, repeat, queue, remove, and both ends of the list.
pub proof fn free_letters_keep_their_meaning(m: ModelView, now: Moment)
    requires
        m.mode == Mode::Normal,
    ensures
        !is_bound(m.keybindings, 'r') ==> gives(
            m,
            KeyCode::Char('r'),
            refreshed(calm(m), now),
            now,
        ),
        !is_bound(m.keybindings, 's') ==> means(m, KeyCode::Char('s'), Message::ToggleShuffle, now),
        !is_bound(m.keybindings, 'R') ==> means(m, KeyCode::Char('R'), Message::CycleRepeat, now),
        !is_bound(m.keybindings, 'a') ==> means(m, KeyCode::Char('a'), Message::QueueSelected, now),
        !is_bound(m.keybindings, 'x') ==> means(m, KeyCode::Char('x'), Message::RemoveQueued, now),
        !is_bound(m.keybindings, 'g') ==> means(m, KeyCode::Char('g'), Message::SelectFirst, now),
        !is_bound(m.keybindings, 'G') ==> means(m, KeyCode::Char('G'), Message::SelectLast, now),
{
    if !is_bound(m.keybindings, 'r') {
        lemma_bound(calm(m), 'r');
        lemma_gives(m, KeyCode::Char('r'), now);
    }
    if !is_bound(m.keybindings, 's') {
        lemma_shuffle_letter(m, now);
    }
    if !is_bound(m.keybindings, 'R') {
        lemma_repeat_letter(m, now);
    }
    if !is_bound(m.keybindings, 'a') {
        lemma_queue_letter(m, now);
    }
    if !is_bound(m.keybindings, 'x') {
        lemma_remove_letter(m, now);
    }
    if !is_bound(m.keybindings, 'g') {
        lemma_first_letter(m, now);
    }
    if !is_bound(m.keybindings, 'G') {
        lemma_last_letter(m, now);
    }
}

/// Whether `key` leads to a screen or to an end of the list on its own.
pub open spec fn is_fixed(key: char) -> bool {
    key == '1' || key == '2' || key == '3' || key == '4' || key == 'g' || key == 'G'
}

/// The key bound to `quit`.
proof fn lemma_bound_to_quit(m: ModelView, key: char, now: Moment)
    requires
        m.mode == Mode::Normal,
        m.keybindings.distinct(),
        !is_fixed(key),
        key == m.keybindings.quit,
    ensures
        means(m, KeyCode::Char(key), Message::Quit, now),
{
    lemma_distinct(m.keybindings);
    lemma_bound(calm(m), key);
    lemma_means(m, KeyCode::Char(key), Message::Quit, now);
}

/// The key bound to `down`.
proof fn lemma_bound_to_down(m: ModelView, key: char, now: Moment)
    requires
        m.mode == Mode::Normal,
        m.keybindings.distinct(),
        !is_fixed(key),
        key == m.keybindings.down,
    ensures
        means(m, KeyCode::Char(key), Message::SelectNext, now),
{
    lemma_distinct(m.keybindings);
    lemma_bound(calm(m), key);
    lemma_means(m, KeyCode::Char(key), Message::SelectNext, now);
}

/// The key bound to `up`.
proof fn lemma_bound_to_up(m: ModelView, key: char, now: Moment)
    requires
        m.mode == Mode::Normal,
        m.keybindings.distinct(),
        !is_fixed(key),
        key == m.keybindings.up,
    ensures
        means(m, KeyCode::Char(key), Message::SelectPrevious, now),
{
    lemma_distinct(m.keybindings);
    lemma_bound(calm(m), key);
    lemma_means(m, KeyCode::Char(key), Message::SelectPrevious, now);
}

/// The key bound to `play_pause`.
proof fn lemma_bound_to_play_pause(m: ModelView, key: char, now: Moment)
    requires
        m.mode == Mode::Normal,
        m.keybindings.distinct(),
        !is_fixed(key),
        key == m.keybindings.play_pause,
    ensures
        means(m, KeyCode::Char(key), Message::TogglePlayPause, now),
{
    lemma_distinct(m.keybindings);
    lemma_bound(calm(m), key);
    lemma_means(m, KeyCode::Char(key), Message::TogglePlayPause, now);
}

/// The key bound to `next`.
proof fn lemma_bound_to_next(m: ModelView, key: char, now: Moment)
    requires
        m.mode == Mode::Normal,
        m.keybindings.distinct(),
        !is_fixed(key),
        key == m.keybindings.next,
        m.queue.len() > 0,
    ensures
        means(m, KeyCode::Char(key), Message::NextTrack, now),
{
    lemma_distinct(m.keybindings);
    lemma_bound(calm(m), key);
    lemma_means(m, KeyCode::Char(key), Message::NextTrack, now);
}

/// The key bound to `previous`.
proof fn lemma_bound_to_previous(m: ModelView, key: char, now: Moment)
    requires
        m.mode == Mode::Normal,
        m.keybindings.distinct(),
        !is_fixed(key),
        key == m.keybindings.previous,
        m.queue.len() > 0,
    ensures
        means(m, KeyCode::Char(key), Message::PrevTrack, now),
{
    lemma_distinct(m.keybindings);
    lemma_bound(calm(m), key);
    lemma_means(m, KeyCode::Char(key), Message::PrevTrack, now);
}

/// The key bound to `search`.
proof fn lemma_bound_to_search(m: ModelView, key: char, now: Moment)
    requires
        m.mode == Mode::Normal,
        m.keybindings.distinct(),
        !is_fixed(key),
        key == m.keybindings.search,
    ensures
        gives(m, KeyCode::Char(key), (
            ModelView { screen: Screen::Search, mode: Mode::Insert, ..calm(m) },
            Seq::<ActionView>::empty(),
        ), now),
{
    lemma_distinct(m.keybindings);
    lemma_bound(calm(m), key);
    lemma_gives(m, KeyCode::Char(key), now);
}

/// The key bound to `next`, with no queue.
proof fn lemma_bound_to_next_alone(m: ModelView, key: char, now: Moment)
    requires
        m.mode == Mode::Normal,
        m.keybindings.distinct(),
        !is_fixed(key),
        key == m.keybindings.next,
        m.queue.len() == 0,
    ensures
        gives(m, KeyCode::Char(key), (calm(m), seq![ActionView::PlayerNext]), now),
{
    lemma_distinct(m.keybindings);
    lemma_bound(calm(m), key);
    lemma_gives(m, KeyCode::Char(key), now);
}

/// The key bound to `previous`, with no queue.
proof fn lemma_bound_to_previous_alone(m: ModelView, key: char, now: Moment)
    requires
        m.mode == Mode::Normal,
        m.keybindings.distinct(),
        !is_fixed(key),
        key == m.keybindings.previous,
        m.queue.len() == 0,
    ensures
        gives(m, KeyCode::Char(key), (calm(m), seq![ActionView::PlayerPrev]), now),
{
    lemma_distinct(m.keybindings);
    lemma_bound(calm(m), key);
    lemma_gives(m, KeyCode::Char(key), now);
}

/// A bound key does what it is bound to. (Bindings are distinct, or the
/// configuration is rejected; the digits of the screens and the letters of the
/// list ends come before a binding other than quit and search.)
pub proof fn bound_keys_do_what_they_are_bound_to(m: ModelView, key: char, now: Moment)
    requires
        m.mode == Mode::Normal,
        m.keybindings.distinct(),
        !is_fixed(key),
    ensures
        ({
            let keys = m.keybindings;
            let code = KeyCode::Char(key);
            let typing = ModelView { screen: Screen::Search, mode: Mode::Insert, ..calm(m) };
            &&& key == keys.quit ==> means(m, code, Message::Quit, now)
            &&& key == keys.search ==> gives(m, code, (typing, Seq::<ActionView>::empty()), now)
            &&& key == keys.down ==> means(m, code, Message::SelectNext, now)
            &&& key == keys.up ==> means(m, code, Message::SelectPrevious, now)
            &&& key == keys.play_pause ==> means(m, code, Message::TogglePlayPause, now)
            &&& key == keys.next && m.queue.len() > 0 ==> means(m, code, Message::NextTrack, now)
            &&& key == keys.next && m.queue.len() == 0 ==> gives(
                m,
                code,
                (calm(m), seq![ActionView::PlayerNext]),
                now,
            )
            &&& key == keys.previous && m.queue.len() > 0 ==> means(
                m,
                code,
                Message::PrevTrack,
                now,
            )
            &&& key == keys.previous && m.queue.len() == 0 ==> gives(
                m,
                code,
                (calm(m), seq![ActionView::PlayerPrev]),
                now,
            )
        }),
{
    let keys = m.keybindings;
    if key == keys.quit {
        lemma_bound_to_quit(m, key, now);
    }
    if key == keys.search {
        lemma_bound_to_search(m, key, now);
    }
    if key == keys.down {
        lemma_bound_to_down(m, key, now);
    }
    if key == keys.up {
        lemma_bound_to_up(m, key, now);
    }
    if key == keys.play_pause {
        lemma_bound_to_play_pause(m, key, now);
    }
    if key == keys.next {
        if m.queue.len() > 0 {
            lemma_bound_to_next(m, key, now);
        } else {
            lemma_bound_to_next_alone(m, key, now);
        }
    }
    if key == keys.previous {
        if m.queue.len() > 0 {
            lemma_bound_to_previous(m, key, now);
        } else {
            lemma_bound_to_previous_alone(m, key, now);
        }
    }
}

/// Ctrl-C quits, a key that goes up does nothing at all, and keys without a
/// meaning only clear the footer.
pub proof fn other_keys(m: ModelView, key: KeyEvent, now: Moment)
    ensures
        key.kind == KeyEventKind::Release ==> stepped(m, Message::KeyPress(key), now) == (
            m,
            Seq::<ActionView>::empty(),
        ),
        m.mode == Mode::Normal && key.kind != KeyEventKind::Release && key.modifiers.control
            && key.code == KeyCode::Char('c') ==> stepped(m, Message::KeyPress(key), now)
            == stepped(calm(m), Message::Quit, now),
        m.mode == Mode::Normal && key.kind != KeyEventKind::Release && (key.code
            == KeyCode::Backspace || key.code == KeyCode::Delete || key.code == KeyCode::Insert
            || key.code == KeyCode::Other) ==> stepped(m, Message::KeyPress(key), now) == (
            calm(m),
            Seq::<ActionView>::empty(),
        ),
{
}

/// Quitting asks the program to end and changes nothing else.
pub proof fn quitting_ends_the_program(m: ModelView, now: Moment)
    ensures
        stepped(m, Message::Quit, now) == (
            ModelView { should_quit: true, ..m },
            Seq::<ActionView>::empty(),
        ),
{
}

/// While typing, a character goes into the query whatever it is bound to, and
/// Backspace takes one out.
pub proof fn typed_keys_edit_the_query(m: ModelView, c: char, now: Moment)
    requires
        m.mode == Mode::Insert,
    ensures
        stepped(m, pressed(KeyCode::Char(c)), now) == stepped(m, Message::SearchInputChar(c), now),
        stepped(m, pressed(KeyCode::Backspace), now) == stepped(m, Message::SearchBackspace, now),
{
}

/// Tab leads to the tab key's step on the screens that have tabs, and does
/// nothing on the others.
pub proof fn tab_moves_between_tabs(m: ModelView, forward: bool, now: Moment)
    requires
        m.mode == Mode::Normal,
    ensures
        ({
            let code = if forward {
                KeyCode::Tab
            } else {
                KeyCode::BackTab
            };
            let step = stepped(m, pressed(code), now);
            &&& m.screen == Screen::Library || m.screen == Screen::Search ==> tab_keyed(
                calm(m),
                code,
                now,
            ) == Some(step)
            &&& m.screen != Screen::Library && m.screen != Screen::Search ==> step == (
                calm(m),
                Seq::<ActionView>::empty(),
            )
        }),
{
    reveal(gives);
    let key = press(
        if forward {
            KeyCode::Tab
        } else {
            KeyCode::BackTab
        },
    );
    assert(stepped(m, Message::KeyPress(key), now) == normal_keyed(m, key, now));
}

} // verus!
