//! The status line of `spot-defy now-playing`.
//!
//! The line is printed into a tmux status bar: it is always a single line, and
//! no song title can inject a tmux format directive. With nothing to show, it
//! is empty.

use vstd::prelude::*;
use vstd::string::*;
use crate::ipc::{NowPlayingPayload, PayloadView};
use crate::model::PlaybackState;
use crate::text::{
    chars_of, is_control, is_control_char, is_space, text_between, text_from, trim_chars, trimmed,
    trimmed_end, trimmed_start, view_of,
};

verus! {

/// Hard timeout for the whole query, in milliseconds; tmux refreshes frequently
/// so fail fast.
pub const QUERY_TIMEOUT_MS: u64 = 400;

/// Placeholder shown when a track or artist name is absent.
pub const MISSING_FIELD: &'static str = "—";

/// Maximum number of characters kept from each of the artist and track names.
///
/// tmux truncates the status itself via `status-right-length`, but capping each
/// field here keeps a pathological title from dominating the line and bounds
/// the work done formatting it.
pub const MAX_FIELD_CHARS: usize = 40;

/// `text` with control characters (newlines and tabs among them) replaced by
/// spaces.
pub open spec fn flattened(text: Seq<char>) -> Seq<char> {
    Seq::new(
        text.len(),
        |i: int|
            if is_control(text[i]) {
                ' '
            } else {
                text[i]
            },
    )
}

/// `text` cut to at most `max` characters, the last one an ellipsis where
/// something was cut and there is room for one.
pub open spec fn shortened(text: Seq<char>, max: int) -> Seq<char> {
    if text.len() <= max {
        text
    } else if max <= 0 {
        Seq::empty()
    } else {
        text.take(max - 1).push('…')
    }
}

/// One name field of the line: on a single line, trimmed and short, or the
/// placeholder where nothing is left.
pub open spec fn shown_field(value: Option<Seq<char>>) -> Seq<char> {
    match value {
        None => "—"@,
        Some(raw) => {
            let cleaned = trimmed(flattened(raw));
            if cleaned.len() == 0 {
                "—"@
            } else {
                shortened(cleaned, MAX_FIELD_CHARS as int)
            }
        },
    }
}

/// `text` with every `#` doubled.
pub open spec fn hashes_doubled(text: Seq<char>) -> Seq<char>
    decreases text.len(),
{
    if text.len() == 0 {
        Seq::empty()
    } else if text.last() == '#' {
        hashes_doubled(text.drop_last()).push('#').push('#')
    } else {
        hashes_doubled(text.drop_last()).push(text.last())
    }
}

/// The glyph of a playback state, where something is shown for it.
pub open spec fn symbol_of(state: PlaybackState) -> Option<Seq<char>> {
    match state {
        PlaybackState::Playing => Some("▶"@),
        PlaybackState::Paused => Some("⏸"@),
        PlaybackState::Loading => Some("…"@),
        PlaybackState::Stopped => None,
    }
}

/// The status line for a payload: `symbol artist — track`, with hashes
/// doubled, or nothing for a stopped player.
pub open spec fn status_text(payload: PayloadView) -> Seq<char> {
    match symbol_of(payload.state) {
        None => Seq::empty(),
        Some(symbol) => hashes_doubled(
            symbol + " "@ + shown_field(payload.artist) + " — "@ + shown_field(payload.track),
        ),
    }
}

/// Replaces control characters with spaces.
fn flatten(chars: &Vec<char>) -> (result: Vec<char>)
    ensures
        result@ == flattened(chars@),
{
    let mut result: Vec<char> = Vec::new();
    let mut i: usize = 0;
    while i < chars.len()
        invariant
            i <= chars@.len(),
            result@ == flattened(chars@).take(i as int),
        decreases chars@.len() - i,
    {
        result.push(
            if is_control_char(chars[i]) {
                ' '
            } else {
                chars[i]
            },
        );
        i = i + 1;
        assert(result@ =~= flattened(chars@).take(i as int));
    }
    assert(result@ =~= flattened(chars@));
    result
}

/// Truncate `chars` to at most `max` characters, ending in `…` when cut.
pub fn truncate_chars(chars: &Vec<char>, max: usize) -> (text: String)
    ensures
        text@ == shortened(chars@, max as int),
        text@.len() <= max,
{
    if chars.len() <= max {
        return text_from(chars);
    }
    if max == 0 {
        let text = String::new();
        assert(text@ =~= Seq::<char>::empty());
        return text;
    }
    let mut text = text_between(chars, 0, max - 1);
    text.push('…');
    assert(chars@.subrange(0, max - 1) =~= chars@.take(max - 1));
    text
}

/// Sanitize one name field for single-line, tmux-safe output.
///
/// Replaces control characters with spaces, collapses leading/trailing
/// whitespace, truncates to [`MAX_FIELD_CHARS`] (appending an ellipsis when
/// shortened), and falls back to [`MISSING_FIELD`] when the field is absent or
/// empty after cleanup.
pub fn sanitize_field(value: &Option<String>) -> (field: String)
    ensures
        field@ == shown_field(view_of(*value)),
{
    match value {
        None => MISSING_FIELD.to_owned(),
        Some(raw) => {
            let chars = chars_of(raw.as_str());
            let cleaned = trim_chars(&flatten(&chars));
            if cleaned.len() == 0 {
                return MISSING_FIELD.to_owned();
            }
            truncate_chars(&cleaned, MAX_FIELD_CHARS)
        },
    }
}

/// Doubles every `#`.
fn double_hashes(text: &str) -> (result: String)
    ensures
        result@ == hashes_doubled(text@),
{
    let chars = chars_of(text);
    let mut result = String::new();
    let mut i: usize = 0;
    assert(result@ =~= hashes_doubled(chars@.take(0)));
    while i < chars.len()
        invariant
            i <= chars@.len(),
            result@ == hashes_doubled(chars@.take(i as int)),
        decreases chars@.len() - i,
    {
        let c = chars[i];
        result.push(c);
        if c == '#' {
            result.push(c);
        }
        i = i + 1;
        assert(chars@.take(i as int).drop_last() =~= chars@.take(i - 1));
    }
    assert(chars@.take(chars@.len() as int) =~= chars@);
    result
}

/// Format a payload into a one-line, tmux-safe status string.
///
/// The output is guaranteed to be a single line: control characters (including
/// newlines and tabs) in track and artist names are replaced with spaces, each
/// field is truncated to [`MAX_FIELD_CHARS`], and `#` is escaped as `##` so a
/// song title can never inject a tmux format directive. A stopped player yields
/// an empty string so the status bar shows nothing.
pub fn format_line(payload: &NowPlayingPayload) -> (line: String)
    ensures
        line@ == status_text(payload@),
{
    let symbol = match payload.state {
        PlaybackState::Playing => "▶",
        PlaybackState::Paused => "⏸",
        PlaybackState::Loading => "…",
        PlaybackState::Stopped => {
            let line = String::new();
            assert(line@ =~= Seq::<char>::empty());
            return line;
        },
    };
    let artist = sanitize_field(&payload.artist);
    let track = sanitize_field(&payload.track);
    let mut text = symbol.to_owned();
    text.append(" ");
    text.append(artist.as_str());
    text.append(" — ");
    text.append(track.as_str());
    double_hashes(text.as_str())
}

/// The line printed for a reply: that of its payload, and an empty one where
/// there was no reply.
pub fn status_line(reply: &Option<NowPlayingPayload>) -> (line: String)
    ensures
        line@ == match view_of(*reply) {
            Some(payload) => status_text(payload),
            None => Seq::<char>::empty(),
        },
{
    match reply {
        Some(payload) => format_line(payload),
        None => {
            let line = String::new();
            assert(line@ =~= Seq::<char>::empty());
            line
        },
    }
}

/// Whether no character of `text` is a control character.
pub open spec fn single_line(text: Seq<char>) -> bool {
    forall|i: int| 0 <= i < text.len() ==> !is_control(#[trigger] text[i])
}

/// Whether every `#` of `text` stands in a pair of two.
pub open spec fn hashes_paired(text: Seq<char>) -> bool
    decreases text.len(),
{
    if text.len() == 0 {
        true
    } else if text.last() != '#' {
        hashes_paired(text.drop_last())
    } else {
        text.len() >= 2 && text[text.len() - 2] == '#' && hashes_paired(text.drop_last().drop_last())
    }
}

/// Doubling hashes pairs them, and keeps a single line single.
proof fn lemma_doubled(text: Seq<char>)
    ensures
        hashes_paired(hashes_doubled(text)),
        single_line(text) ==> single_line(hashes_doubled(text)),
    decreases text.len(),
{
    if text.len() > 0 {
        let shorter = text.drop_last();
        lemma_doubled(shorter);
        let before = hashes_doubled(shorter);
        let after = hashes_doubled(text);
        assert(single_line(text) ==> single_line(shorter)) by {
            assert forall|i: int| single_line(text) && 0 <= i < shorter.len() implies !is_control(
                #[trigger] shorter[i],
            ) by {
                assert(shorter[i] == text[i]);
            }
        }
        if text.last() == '#' {
            assert(after.drop_last() =~= before.push('#'));
            assert(after.drop_last().drop_last() =~= before);
            assert(after[after.len() - 2] == '#');
        } else {
            assert(after.drop_last() =~= before);
        }
        if single_line(text) {
            assert(!is_control(text[text.len() - 1]));
            assert forall|i: int| 0 <= i < after.len() implies !is_control(
                #[trigger] after[i],
            ) by {
                if i < before.len() {
                    assert(after[i] == before[i]);
                }
            }
        }
    }
}

/// Trimming the start keeps a single line single.
proof fn lemma_trimmed_start_single(text: Seq<char>)
    requires
        single_line(text),
    ensures
        single_line(trimmed_start(text)),
    decreases text.len(),
{
    let shorter = text.drop_first();
    if text.len() > 0 {
        assert forall|i: int| 0 <= i < shorter.len() implies !is_control(#[trigger] shorter[i]) by {
            assert(shorter[i] == text[i + 1]);
        }
        lemma_trimmed_start_single(shorter);
    }
}

/// Trimming the end keeps a single line single.
proof fn lemma_trimmed_end_single(text: Seq<char>)
    requires
        single_line(text),
    ensures
        single_line(trimmed_end(text)),
    decreases text.len(),
{
    let shorter = text.drop_last();
    if text.len() > 0 {
        assert forall|i: int| 0 <= i < shorter.len() implies !is_control(#[trigger] shorter[i]) by {
            assert(shorter[i] == text[i]);
        }
        lemma_trimmed_end_single(shorter);
    }
}

/// A shown field is on a single line, is never empty and holds at most
/// [`MAX_FIELD_CHARS`] characters.
pub proof fn a_field_is_short_and_on_one_line(value: Option<Seq<char>>)
    ensures
        single_line(shown_field(value)),
        0 < shown_field(value).len() <= MAX_FIELD_CHARS,
{
    reveal_strlit("—");
    if let Some(raw) = value {
        let flat = flattened(raw);
        assert(single_line(flat));
        lemma_trimmed_start_single(flat);
        lemma_trimmed_end_single(trimmed_start(flat));
        let cleaned = trimmed(flat);
        let cut = shortened(cleaned, MAX_FIELD_CHARS as int);
        assert forall|i: int| 0 <= i < cut.len() implies !is_control(#[trigger] cut[i]) by {
            if i < cleaned.len() {
                assert(!is_control(cleaned[i]));
            }
        }
    }
}

/// What is left after trimming neither starts nor ends with white space.
proof fn lemma_trimmed_ends(text: Seq<char>)
    ensures
        trimmed_start(text).len() > 0 ==> !is_space(trimmed_start(text)[0]),
        trimmed_end(text).len() > 0 ==> !is_space(trimmed_end(text).last()) && trimmed_end(text)[0]
            == text[0],
    decreases text.len(),
{
    if text.len() > 0 {
        if is_space(text[0]) {
            lemma_trimmed_ends(text.drop_first());
        }
        if is_space(text.last()) {
            lemma_trimmed_ends(text.drop_last());
            if trimmed_end(text).len() > 0 {
                assert(text.drop_last().len() > 0) by {
                    if text.drop_last().len() == 0 {
                        assert(trimmed_end(text.drop_last()) == text.drop_last());
                    }
                }
            }
        }
    }
}

/// Cleaning a field that is clean already changes nothing.
pub proof fn cleaning_a_clean_field_changes_nothing(value: Option<Seq<char>>)
    ensures
        shown_field(Some(shown_field(value))) == shown_field(value),
{
    let field = shown_field(value);
    reveal_strlit("—");
    a_field_is_short_and_on_one_line(value);
    if let Some(raw) = value {
        let flat = flattened(raw);
        lemma_trimmed_ends(flat);
        lemma_trimmed_ends(trimmed_start(flat));
    }
    assert(!is_space(field[0]) && !is_space(field.last()));
    assert(flattened(field) =~= field);
    assert(trimmed_start(field) == field);
    assert(trimmed_end(field) == field);
}

/// Joining single lines gives a single line.
proof fn lemma_joined_single(a: Seq<char>, b: Seq<char>)
    requires
        single_line(a),
        single_line(b),
    ensures
        single_line(a + b),
{
    assert forall|i: int| 0 <= i < (a + b).len() implies !is_control(#[trigger] (a + b)[i]) by {
        if i < a.len() {
            assert((a + b)[i] == a[i]);
        } else {
            assert((a + b)[i] == b[i - a.len()]);
        }
    }
}

/// Whatever the names of track and artist, the status line is a single line
/// in which every `#` is doubled, so that nothing in it reads as a tmux
/// directive; for a stopped player it is empty.
pub proof fn the_status_line_is_safe(payload: PayloadView)
    ensures
        single_line(status_text(payload)),
        hashes_paired(status_text(payload)),
        (status_text(payload).len() == 0) == (payload.state == PlaybackState::Stopped),
{
    if payload.state != PlaybackState::Stopped {
        reveal_strlit("▶");
        reveal_strlit("⏸");
        reveal_strlit("…");
        reveal_strlit(" ");
        reveal_strlit(" — ");
        let symbol = symbol_of(payload.state)->0;
        let artist = shown_field(payload.artist);
        let track = shown_field(payload.track);
        a_field_is_short_and_on_one_line(payload.artist);
        a_field_is_short_and_on_one_line(payload.track);
        assert(single_line(symbol));
        assert(single_line(" "@));
        assert(single_line(" — "@));
        lemma_joined_single(symbol, " "@);
        lemma_joined_single(symbol + " "@, artist);
        lemma_joined_single(symbol + " "@ + artist, " — "@);
        lemma_joined_single(symbol + " "@ + artist + " — "@, track);
        lemma_doubled(symbol + " "@ + artist + " — "@ + track);
    }
}

} // verus!
