//! Single lines of text: the footer, the help bar, and the search box.

use unicode_width::{UnicodeWidthChar, UnicodeWidthStr};
use vstd::prelude::*;
use vstd::string::*;
use crate::config::Keybindings;
use crate::layout::{larger, smaller, Rect};
use crate::model::{PlaybackState, SnapshotView};
use crate::state::{Mode, Model, ModelView, RepeatMode, Screen};
use crate::text::{
    chars_of, decimal, digit, digit_char, is_control, push_decimal, text_between, view_of,
};
use crate::update::search::{chars_before, count_before};

verus! {

/// The columns that `c` takes in a terminal, or `None` for a control
/// character.
pub uninterp spec fn char_columns(c: char) -> Option<usize>;

/// The columns that `text` takes in a terminal.
pub uninterp spec fn text_columns(text: Seq<char>) -> usize;

/// unicode-width's `<char as UnicodeWidthChar>::width`: the width by Unicode's
/// tables, a function of the character alone. Control characters, and only
/// they, have none; printable ASCII takes one column.
#[verifier::external_body]
fn char_width(c: char) -> (columns: Option<usize>)
    ensures
        columns == char_columns(c),
        columns is None == is_control(c),
        0x20 <= c as u32 <= 0x7e ==> columns == Some(1usize),
{
    UnicodeWidthChar::width(c)
}

/// unicode-width's `<str as UnicodeWidthStr>::width`: the width by Unicode's
/// tables, a function of the text alone. It is not claimed to be the sum of
/// the widths of the characters, which sequences such as emoji do not keep.
#[verifier::external_body]
fn text_width(text: &str) -> (columns: usize)
    ensures
        columns == text_columns(text@),
{
    UnicodeWidthStr::width(text)
}

/// The columns of `text`, character by character; control characters take
/// none.
pub open spec fn columns_sum(text: Seq<char>) -> int
    decreases text.len(),
{
    if text.len() == 0 {
        0
    } else {
        columns_sum(text.drop_last()) + match char_columns(text.last()) {
            Some(columns) => columns as int,
            None => 0,
        }
    }
}

/// The longest prefix of `text` that takes at most `max_width` columns.
pub open spec fn fitting(text: Seq<char>, max_width: int) -> Seq<char>
    decreases text.len(),
{
    if text.len() == 0 || columns_sum(text) <= max_width {
        text
    } else {
        fitting(text.drop_last(), max_width)
    }
}

/// A longer prefix takes no fewer columns.
proof fn lemma_columns_grow(text: Seq<char>, shorter: int, longer: int)
    requires
        0 <= shorter <= longer <= text.len(),
    ensures
        0 <= columns_sum(text.take(shorter)) <= columns_sum(text.take(longer)),
    decreases longer,
{
    if shorter < longer {
        lemma_columns_grow(text, shorter, longer - 1);
        assert(text.take(longer).drop_last() =~= text.take(longer - 1));
    } else if shorter > 0 {
        lemma_columns_grow(text, shorter - 1, shorter - 1);
        assert(text.take(shorter).drop_last() =~= text.take(shorter - 1));
    }
}

/// Where a prefix fits and the next longer one does not, it is the longest
/// that fits.
proof fn lemma_fitting_is(text: Seq<char>, len: int, max_width: int)
    requires
        0 <= len <= text.len(),
        columns_sum(text.take(len)) <= max_width,
        len < text.len() ==> columns_sum(text.take(len + 1)) > max_width,
    ensures
        fitting(text, max_width) == text.take(len),
    decreases text.len(),
{
    assert(text.take(text.len() as int) =~= text);
    if len < text.len() {
        lemma_columns_grow(text, len + 1, text.len() as int);
        let shorter = text.drop_last();
        assert(shorter.take(len) =~= text.take(len));
        if len < shorter.len() {
            assert(shorter.take(len + 1) =~= text.take(len + 1));
        }
        lemma_fitting_is(shorter, len, max_width);
    }
}

/// A truncated text is a prefix of the text and takes at most `max_width`
/// columns, counted character by character.
pub proof fn truncated_text_fits(text: Seq<char>, max_width: int)
    requires
        0 <= max_width,
    ensures
        fitting(text, max_width).is_prefix_of(text),
        columns_sum(fitting(text, max_width)) <= max_width,
    decreases text.len(),
{
    if text.len() > 0 && columns_sum(text) > max_width {
        truncated_text_fits(text.drop_last(), max_width);
        let cut = fitting(text, max_width);
        assert(cut =~= text.drop_last().subrange(0, cut.len() as int));
        assert(cut =~= text.subrange(0, cut.len() as int));
    } else {
        assert(text =~= text.subrange(0, text.len() as int));
    }
}

/// Truncate `text` so its terminal display width is at most `max_width`.
pub fn truncate_to_width(text: &str, max_width: usize) -> (out: String)
    ensures
        out@ == fitting(text@, max_width as int),
{
    let chars = chars_of(text);
    let mut used: usize = 0;
    let mut i: usize = 0;
    assert(chars@.take(0) =~= Seq::<char>::empty());
    while i < chars.len()
        invariant
            i <= chars@.len(),
            chars@ == text@,
            used <= max_width,
            used == columns_sum(chars@.take(i as int)),
        decreases chars@.len() - i,
    {
        let w: usize = match char_width(chars[i]) {
            Some(columns) => columns,
            None => 0,
        };
        assert(chars@.take(i + 1).drop_last() =~= chars@.take(i as int));
        assert(chars@.take(i + 1).last() == chars@[i as int]);
        if w > max_width - used {
            proof {
                lemma_fitting_is(chars@, i as int, max_width as int);
                assert(chars@.subrange(0, i as int) =~= chars@.take(i as int));
            }
            return text_between(&chars, 0, i);
        }
        used = used + w;
        i = i + 1;
    }
    proof {
        lemma_fitting_is(chars@, i as int, max_width as int);
        assert(chars@.subrange(0, i as int) =~= chars@.take(i as int));
    }
    text_between(&chars, 0, i)
}

/// `count` spaces.
pub open spec fn spaces(count: int) -> Seq<char> {
    Seq::new(
        (if count > 0 {
            count
        } else {
            0
        }) as nat,
        |i: int| ' ',
    )
}

/// A line of `width` columns with `left` at its start and `right` at its end:
/// both cut to fit, with a column between them, and padded in between.
pub open spec fn spread(width: int, left: Seq<char>, right: Seq<char>) -> Seq<char> {
    if width == 0 {
        Seq::empty()
    } else {
        let shown_right = fitting(right, width);
        let budget = larger(larger(width - text_columns(shown_right), 0) - 1, 0);
        let shown_left = fitting(left, budget);
        shown_left + spaces(
            width - text_columns(shown_left) - text_columns(shown_right),
        ) + shown_right
    }
}

/// Compose a fixed-`width` line with `left` label and `right` timing
/// right-aligned, padded between. Widths are terminal *display* widths (so
/// CJK/emoji titles align correctly), and both fields are truncated to fit.
pub fn now_playing_line(width: usize, left: &str, right: &str) -> (line: String)
    ensures
        line@ == spread(width as int, left@, right@),
{
    if width == 0 {
        let line = String::new();
        assert(line@ =~= Seq::<char>::empty());
        return line;
    }
    let shown_right = truncate_to_width(right, width);
    let right_w: usize = text_width(shown_right.as_str());
    let budget: usize = width.saturating_sub(right_w).saturating_sub(1);
    let shown_left = truncate_to_width(left, budget);
    let left_w: usize = text_width(shown_left.as_str());
    let pad: usize = width.saturating_sub(left_w).saturating_sub(right_w);
    let ghost start = shown_left@;
    let mut line = shown_left;
    let mut i: usize = 0;
    assert(line@ =~= start + spaces(0));
    while i < pad
        invariant
            i <= pad,
            line@ == start + spaces(i as int),
        decreases pad - i,
    {
        line.push(' ');
        i = i + 1;
        assert(line@ =~= start + spaces(i as int));
    }
    assert(spaces(pad as int) =~= spaces(
        width - text_columns(start) - text_columns(shown_right@),
    ));
    line.append(shown_right.as_str());
    line
}

/// `M:SS` of a number of milliseconds, rounded down to the second.
pub open spec fn clock_text(ms: nat) -> Seq<char> {
    let seconds = ms / 1000;
    decimal(seconds / 60) + ":"@ + seq![
        digit((seconds % 60 / 10) as int),
        digit((seconds % 60 % 10) as int),
    ]
}

/// Format milliseconds as `M:SS`.
pub fn fmt_ms(ms: u32) -> (text: String)
    ensures
        text@ == clock_text(ms as nat),
{
    let seconds: u64 = ms as u64 / 1000;
    let mut text = String::new();
    push_decimal(&mut text, seconds / 60);
    text.append(":");
    text.push(digit_char(seconds % 60 / 10));
    text.push(digit_char(seconds % 60 % 10));
    assert(text@ =~= clock_text(ms as nat));
    text
}

/// The glyph of a playback state.
pub open spec fn glyph(state: PlaybackState) -> Seq<char> {
    match state {
        PlaybackState::Playing => "▶"@,
        PlaybackState::Paused => "⏸"@,
        PlaybackState::Loading => "…"@,
        PlaybackState::Stopped => "■"@,
    }
}

/// Glyph for a playback state.
pub fn state_symbol(state: PlaybackState) -> (symbol: &'static str)
    ensures
        symbol@ == glyph(state),
{
    match state {
        PlaybackState::Playing => "▶",
        PlaybackState::Paused => "⏸",
        PlaybackState::Loading => "…",
        PlaybackState::Stopped => "■",
    }
}

/// The shuffle and repeat glyphs.
pub open spec fn mode_glyphs(shuffle: bool, repeat: RepeatMode) -> Seq<char> {
    match (shuffle, repeat) {
        (false, RepeatMode::Off) => ""@,
        (false, RepeatMode::All) => "⟳ · "@,
        (false, RepeatMode::One) => "⟳1 · "@,
        (true, RepeatMode::Off) => "⇄ · "@,
        (true, RepeatMode::All) => "⇄ ⟳ · "@,
        (true, RepeatMode::One) => "⇄ ⟳1 · "@,
    }
}

/// Shuffle/repeat glyphs for the footer's right segment (empty when both off).
pub fn mode_indicators(model: &Model) -> (glyphs: &'static str)
    ensures
        glyphs@ == mode_glyphs(model@.shuffle, model@.repeat),
{
    match (model.shuffle, model.repeat) {
        (false, RepeatMode::Off) => "",
        (false, RepeatMode::All) => "⟳ · ",
        (false, RepeatMode::One) => "⟳1 · ",
        (true, RepeatMode::Off) => "⇄ · ",
        (true, RepeatMode::All) => "⇄ ⟳ · ",
        (true, RepeatMode::One) => "⇄ ⟳1 · ",
    }
}

/// A name, or a dash where there is none.
pub open spec fn name_or_dash(name: Option<Seq<char>>) -> Seq<char> {
    match name {
        Some(name) => name,
        None => "—"@,
    }
}

/// The left end of the footer: glyph, artist and track.
pub open spec fn footer_left(np: SnapshotView) -> Seq<char> {
    glyph(np.state) + " "@ + name_or_dash(np.artist) + " — "@ + name_or_dash(np.track)
}

/// The right end of the footer: modes, position and duration.
pub open spec fn footer_right(m: ModelView) -> Seq<char> {
    mode_glyphs(m.shuffle, m.repeat) + clock_text(m.now_playing.position_ms as nat) + " / "@
        + clock_text(m.now_playing.duration_ms as nat)
}

/// A name, or a dash where there is none.
fn or_dash(name: &Option<String>) -> (text: &str)
    ensures
        text@ == name_or_dash(view_of(*name)),
{
    match name {
        Some(name) => name.as_str(),
        None => "—",
    }
}

/// The footer's track line, `width` columns wide.
pub fn footer_line(model: &Model, width: usize) -> (line: String)
    ensures
        line@ == spread(width as int, footer_left(model@.now_playing), footer_right(model@)),
{
    let mut left = state_symbol(model.now_playing.state).to_owned();
    left.append(" ");
    left.append(or_dash(&model.now_playing.artist));
    left.append(" — ");
    left.append(or_dash(&model.now_playing.track));
    let mut right = mode_indicators(model).to_owned();
    right.append(fmt_ms(model.now_playing.position_ms).as_str());
    right.append(" / ");
    right.append(fmt_ms(model.now_playing.duration_ms).as_str());
    now_playing_line(width, left.as_str(), right.as_str())
}

/// The name of a key in hints.
pub open spec fn key_name(key: char) -> Seq<char> {
    if key == ' ' {
        "Space"@
    } else if key == '\t' {
        "Tab"@
    } else if key == '\n' {
        "Enter"@
    } else {
        seq![key]
    }
}

/// The name of a key in hints.
pub fn key_label(key: char) -> (label: String)
    ensures
        label@ == key_name(key),
{
    match key {
        ' ' => "Space".to_owned(),
        '\t' => "Tab".to_owned(),
        '\n' => "Enter".to_owned(),
        _ => {
            let mut label = String::new();
            label.push(key);
            assert(label@ =~= seq![key]);
            label
        },
    }
}

/// `hint`, unless the user bound `key` to something else.
pub open spec fn hint_unless_bound(keys: Keybindings, key: char, hint: Seq<char>) -> Seq<char> {
    if keys.keys().contains(key) {
        ""@
    } else {
        hint
    }
}

/// The hint for the mode keys, as far as they are free.
pub open spec fn modes_hint(keys: Keybindings) -> Seq<char> {
    match (keys.keys().contains('s'), keys.keys().contains('R')) {
        (false, false) => "s/R modes · "@,
        (false, true) => "s shuffle · "@,
        (true, false) => "R repeat · "@,
        (true, true) => ""@,
    }
}

/// The hints that close every line: pause, skip, (seek,) volume and quit.
pub open spec fn closing_hints(keys: Keybindings, seek: bool) -> Seq<char> {
    key_name(keys.play_pause) + " pause · "@ + key_name(keys.next) + "/"@ + key_name(keys.previous)
        + " skip · "@ + (if seek {
        "←/→ seek · "@
    } else {
        ""@
    }) + "-/+ vol · "@ + key_name(keys.quit) + " quit"@
}

/// The keybinding hints of a screen: only keys that are actually free are
/// advertised.
pub open spec fn hints(keys: Keybindings, screen: Screen) -> Seq<char> {
    let refresh = hint_unless_bound(keys, 'r', "r refresh · "@);
    let add = hint_unless_bound(keys, 'a', "a queue · "@);
    match screen {
        Screen::Search => key_name(keys.search) + " edit · Tab lane · ↵ play · "@ + add + refresh
            + closing_hints(keys, false),
        Screen::Playlists => "↵ open · "@ + key_name(keys.down) + "/"@ + key_name(keys.up)
            + " move · "@ + refresh + closing_hints(keys, true),
        Screen::Tracks => "↵ play · Esc back · "@ + add + refresh + closing_hints(keys, true),
        Screen::Library => "Tab tab · ↵ play · "@ + add + refresh + closing_hints(keys, true),
        Screen::Queue => "↵ jump · "@ + hint_unless_bound(keys, 'x', "x remove · "@) + modes_hint(
            keys,
        ) + closing_hints(keys, true),
    }
}

/// `hint`, unless the user bound `key` to something else.
fn free_hint(keys: &Keybindings, key: char, hint: &'static str) -> (text: &'static str)
    ensures
        text@ == hint_unless_bound(*keys, key, hint@),
{
    if keys.uses(key) {
        ""
    } else {
        hint
    }
}

/// The hint for the mode keys, as far as they are free.
fn free_modes(keys: &Keybindings) -> (text: &'static str)
    ensures
        text@ == modes_hint(*keys),
{
    match (keys.uses('s'), keys.uses('R')) {
        (false, false) => "s/R modes · ",
        (false, true) => "s shuffle · ",
        (true, false) => "R repeat · ",
        (true, true) => "",
    }
}

/// The hints that close every line.
fn closing(keys: &Keybindings, seek: bool) -> (text: String)
    ensures
        text@ == closing_hints(*keys, seek),
{
    let mut text = key_label(keys.play_pause);
    text.append(" pause · ");
    text.append(key_label(keys.next).as_str());
    text.append("/");
    text.append(key_label(keys.previous).as_str());
    text.append(" skip · ");
    text.append(
        if seek {
            "←/→ seek · "
        } else {
            ""
        },
    );
    text.append("-/+ vol · ");
    text.append(key_label(keys.quit).as_str());
    text.append(" quit");
    text
}

/// Keybinding hint string for the active screen in navigation mode.
pub fn keys_for(model: &Model) -> (text: String)
    ensures
        text@ == hints(model@.keybindings, model@.screen),
{
    let keys = &model.keybindings;
    // Only advertise hardcoded keys while they are actually free.
    let refresh = free_hint(keys, 'r', "r refresh · ");
    let add = free_hint(keys, 'a', "a queue · ");
    match model.screen {
        Screen::Search => {
            let mut text = key_label(keys.search);
            text.append(" edit · Tab lane · ↵ play · ");
            text.append(add);
            text.append(refresh);
            text.append(closing(keys, false).as_str());
            text
        },
        Screen::Playlists => {
            let mut text = "↵ open · ".to_owned();
            text.append(key_label(keys.down).as_str());
            text.append("/");
            text.append(key_label(keys.up).as_str());
            text.append(" move · ");
            text.append(refresh);
            text.append(closing(keys, true).as_str());
            text
        },
        Screen::Tracks => {
            let mut text = "↵ play · Esc back · ".to_owned();
            text.append(add);
            text.append(refresh);
            text.append(closing(keys, true).as_str());
            text
        },
        Screen::Library => {
            let mut text = "Tab tab · ↵ play · ".to_owned();
            text.append(add);
            text.append(refresh);
            text.append(closing(keys, true).as_str());
            text
        },
        Screen::Queue => {
            let mut text = "↵ jump · ".to_owned();
            text.append(free_hint(keys, 'x', "x remove · "));
            text.append(free_modes(keys));
            text.append(closing(keys, true).as_str());
            text
        },
    }
}

/// The bottom bar: a status where there is one (`true`), else the hints of
/// the input mode.
pub open spec fn help_bar(m: ModelView) -> (bool, Seq<char>) {
    match m.status {
        Some(status) => (true, " "@ + status + " "@),
        None => (
            false,
            match m.mode {
                Mode::Insert => " Enter submit · Esc cancel "@,
                Mode::Normal => hints(m.keybindings, m.screen),
            },
        ),
    }
}

/// The bottom help/keybindings bar, and whether it is a transient status
/// message.
pub fn help_text(model: &Model) -> (bar: (bool, String))
    ensures
        (bar.0, bar.1@) == help_bar(model@),
{
    match &model.status {
        Some(status) => {
            let mut text = " ".to_owned();
            text.append(status.as_str());
            text.append(" ");
            (true, text)
        },
        None => match model.mode {
            Mode::Insert => (false, " Enter submit · Esc cancel ".to_owned()),
            Mode::Normal => (false, keys_for(model)),
        },
    }
}

/// The title of the search box.
pub open spec fn search_title(m: ModelView) -> Seq<char> {
    if m.mode == Mode::Insert {
        "Search (typing)"@
    } else {
        "Search (press "@ + key_name(m.keybindings.search) + " to edit)"@
    }
}

/// The title of the search box.
pub fn search_box_title(model: &Model) -> (title: String)
    ensures
        title@ == search_title(model@),
{
    if model.mode == Mode::Insert {
        "Search (typing)".to_owned()
    } else {
        let mut title = "Search (press ".to_owned();
        title.append(key_label(model.keybindings.search).as_str());
        title.append(" to edit)");
        title
    }
}

/// Where the text of the search box starts, and where its cursor shows.
#[derive(Debug, Clone, Copy, PartialEq, Eq, Structural)]
pub struct SearchBox {
    /// Columns of the query scrolled out on the left.
    pub scroll: u16,
    /// The column of the edit cursor, while typing.
    pub cursor_x: Option<u16>,
}

/// A number held to the range of a coordinate.
pub open spec fn coordinate(value: int) -> u16 {
    smaller(value, u16::MAX as int) as u16
}

/// The search box in `area`, where the query up to the cursor takes
/// `cursor_width` columns: while typing, the text scrolls so far that the
/// cursor stays over the character being edited.
pub open spec fn search_box(typing: bool, area: Rect, cursor_width: int) -> SearchBox {
    let inner_width = larger(area.width - 2, 0);
    let scroll = if typing {
        larger(cursor_width - larger(inner_width - 1, 0), 0)
    } else {
        0
    };
    let right = smaller(area.x + area.width, u16::MAX as int);
    SearchBox {
        scroll: coordinate(scroll),
        cursor_x: if typing {
            Some(
                smaller(
                    coordinate(coordinate(area.x + 1) + coordinate(cursor_width - scroll)) as int,
                    larger(right - 2, 0),
                ) as u16,
            )
        } else {
            None
        },
    }
}

/// Places text and cursor of the search box.
pub fn place_search_box(typing: bool, area: Rect, cursor_width: usize) -> (placed: SearchBox)
    ensures
        placed == search_box(typing, area, cursor_width as int),
{
    let inner_width: usize = area.width.saturating_sub(2) as usize;
    let scroll: usize = if typing {
        cursor_width.saturating_sub(inner_width.saturating_sub(1))
    } else {
        0
    };
    let rest: usize = cursor_width - scroll;
    let offset: u16 = if rest <= u16::MAX as usize {
        rest as u16
    } else {
        u16::MAX
    };
    let wanted: u16 = area.x.saturating_add(1).saturating_add(offset);
    let edge: u16 = area.x.saturating_add(area.width).saturating_sub(2);
    SearchBox {
        scroll: if scroll <= u16::MAX as usize {
            scroll as u16
        } else {
            u16::MAX
        },
        cursor_x: if typing {
            Some(
                if wanted <= edge {
                    wanted
                } else {
                    edge
                },
            )
        } else {
            None
        },
    }
}

/// The text before the cursor.
fn text_before_cursor(model: &Model) -> (text: String)
    requires
        model@.wf(),
    ensures
        text@ == model@.search.query.take(chars_before(model@.search)),
{
    let chars = chars_of(model.search.query.as_str());
    let ghost target = chars_before(model@.search);
    assert(model@.search.cursor_at(target));
    let at: usize = count_before(&model.search, &chars);
    assert(chars@.subrange(0, at as int) =~= chars@.take(at as int));
    text_between(&chars, 0, at)
}

/// The search box of the model in `area`.
pub fn search_box_of(model: &Model, area: Rect) -> (placed: SearchBox)
    requires
        model@.wf(),
    ensures
        placed == search_box(
            model@.mode == Mode::Insert,
            area,
            text_columns(model@.search.query.take(chars_before(model@.search))) as int,
        ),
{
    let before = text_before_cursor(model);
    place_search_box(model.mode == Mode::Insert, area, text_width(before.as_str()))
}

/// The text of the volume popup.
pub fn volume_label(volume: u16) -> (text: String)
    ensures
        text@ == decimal(volume as nat) + "%"@,
{
    let mut text = String::new();
    push_decimal(&mut text, volume as u64);
    text.append("%");
    assert(text@ =~= decimal(volume as nat) + "%"@);
    text
}

/// The fill of the volume popup, in percent.
pub fn volume_percent(volume: u16) -> (percent: u16)
    ensures
        percent == smaller(volume as int, 100),
{
    if volume <= 100 {
        volume
    } else {
        100
    }
}

} // verus!
