//! Laws of the status line: what it shows of a payload, and in which order.

use vstd::prelude::*;
use vstd::string::*;
use crate::ipc::now_playing_client::{
    flattened, hashes_doubled, shortened, shown_field, status_text, symbol_of,
};
use crate::ipc::{wire_part, PayloadView};
use crate::model::{PlaybackState, SnapshotView};
use crate::text::{is_control, is_space};
use crate::text_laws::trimming_takes_only_white_space;

verus! {

/// Hashes are doubled where they stand: what comes of two texts is what comes
/// of the first and then what comes of the second.
pub proof fn hashes_are_doubled_in_place(a: Seq<char>, b: Seq<char>)
    ensures
        hashes_doubled(a + b) == hashes_doubled(a) + hashes_doubled(b),
    decreases b.len(),
{
    if b.len() == 0 {
        assert(a + b =~= a);
        assert(hashes_doubled(a) + hashes_doubled(b) =~= hashes_doubled(a));
    } else {
        hashes_are_doubled_in_place(a, b.drop_last());
        assert((a + b).drop_last() =~= a + b.drop_last());
        assert((a + b).last() == b.last());
        assert(hashes_doubled(a + b) =~= hashes_doubled(a) + hashes_doubled(b));
    }
}

/// A single hash becomes two, and any other character stays as it is.
pub proof fn a_hash_becomes_two(c: char)
    ensures
        c == '#' ==> hashes_doubled(seq![c]) == seq!['#', '#'],
        c != '#' ==> hashes_doubled(seq![c]) == seq![c],
{
    assert(seq![c].drop_last() =~= Seq::<char>::empty());
    assert(seq![c].last() == c);
    assert(hashes_doubled(Seq::<char>::empty()) =~= Seq::<char>::empty());
    assert(c == '#' ==> hashes_doubled(seq![c]) =~= seq!['#', '#']);
    assert(c != '#' ==> hashes_doubled(seq![c]) =~= seq![c]);
}

/// A text without hashes stays as it is.
pub proof fn text_without_hashes_stays(text: Seq<char>)
    requires
        forall|i: int| 0 <= i < text.len() ==> (#[trigger] text[i]) != '#',
    ensures
        hashes_doubled(text) == text,
    decreases text.len(),
{
    if text.len() > 0 {
        let shorter = text.drop_last();
        assert forall|i: int| 0 <= i < shorter.len() implies (#[trigger] shorter[i]) != '#' by {
            assert(shorter[i] == text[i]);
        }
        text_without_hashes_stays(shorter);
        assert(hashes_doubled(text) =~= text);
    }
}

/// A name that is short, on one line and without white space at its ends shows
/// as it is, whatever white space is around it; without a name a dash shows.
pub proof fn a_clean_name_shows_as_it_is(name: Seq<char>, front: Seq<char>, back: Seq<char>)
    requires
        0 < name.len() <= 40,
        forall|i: int| 0 <= i < name.len() ==> !is_control(#[trigger] name[i]),
        !is_space(name[0]),
        !is_space(name.last()),
        forall|i: int| 0 <= i < front.len() ==> (#[trigger] front[i]) == ' ' || front[i] == '\n',
        forall|i: int| 0 <= i < back.len() ==> (#[trigger] back[i]) == ' ' || back[i] == '\n',
    ensures
        shown_field(Some(front + name + back)) == name,
        shown_field(None) == "—"@,
        shown_field(Some(front)) == "—"@,
{
    let flat_front = flattened(front);
    let flat_back = flattened(back);
    assert forall|i: int| 0 <= i < flat_front.len() implies is_space(#[trigger] flat_front[i]) by {
        assert(front[i] == ' ' || front[i] == '\n');
    }
    assert forall|i: int| 0 <= i < flat_back.len() implies is_space(#[trigger] flat_back[i]) by {
        assert(back[i] == ' ' || back[i] == '\n');
    }
    assert(flattened(front + name + back) =~= flat_front + name + flat_back);
    trimming_takes_only_white_space(flat_front, name, flat_back);
    let nothing = Seq::<char>::empty();
    trimming_takes_only_white_space(flat_front, nothing, nothing);
    assert(flat_front + nothing + nothing =~= flat_front);
}

/// A control character within a name shows as a blank, at its place; nothing
/// else changes.
pub proof fn control_characters_show_as_blanks(text: Seq<char>, at: int)
    requires
        0 <= at < text.len(),
    ensures
        flattened(text).len() == text.len(),
        is_control(text[at]) ==> flattened(text)[at] == ' ',
        !is_control(text[at]) ==> flattened(text)[at] == text[at],
{
}

/// Line breaks, tabs and escapes are control characters; no printable ASCII
/// character is.
pub proof fn what_control_characters_are(c: char)
    ensures
        c == '\n' || c == '\r' || c == '\t' || c as u32 == 0x1b || c as u32 == 0x7f ==> is_control(
            c,
        ),
        ' ' <= c <= '~' ==> !is_control(c),
{
}

/// A text that is too long is cut from its front part: as many characters as
/// there is room for beside the ellipsis that stands for the rest.
pub proof fn long_text_is_cut_at_its_end(text: Seq<char>, max: int)
    requires
        max > 0,
    ensures
        text.len() <= max ==> shortened(text, max) == text,
        text.len() > max ==> {
            let cut = shortened(text, max);
            &&& cut.len() == max
            &&& cut.last() == '…'
            &&& forall|i: int| 0 <= i < max - 1 ==> #[trigger] cut[i] == text[i]
        },
{
}

/// The state shows as a sign of its own, and a stopped player shows nothing.
pub proof fn every_state_has_its_own_sign(a: PlaybackState, b: PlaybackState)
    ensures
        symbol_of(a) is None == (a == PlaybackState::Stopped),
        a != b && a != PlaybackState::Stopped && b != PlaybackState::Stopped ==> symbol_of(a)
            != symbol_of(b),
        a == PlaybackState::Playing ==> symbol_of(a)->0[0] == '▶',
        a == PlaybackState::Paused ==> symbol_of(a)->0[0] == '⏸',
        a == PlaybackState::Loading ==> symbol_of(a)->0[0] == '…',
{
    reveal_strlit("▶");
    reveal_strlit("⏸");
    reveal_strlit("…");
    assert(symbol_of(PlaybackState::Playing)->0[0] == '▶');
    assert(symbol_of(PlaybackState::Paused)->0[0] == '⏸');
    assert(symbol_of(PlaybackState::Loading)->0[0] == '…');
}

/// The line shows the sign of the state, the artist and then the track, each
/// with its hashes doubled.
pub proof fn the_line_shows_artist_and_track(payload: PayloadView)
    requires
        payload.state != PlaybackState::Stopped,
    ensures
        status_text(payload) == symbol_of(payload.state)->0 + seq![' '] + hashes_doubled(
            shown_field(payload.artist),
        ) + seq![' ', '—', ' '] + hashes_doubled(shown_field(payload.track)),
{
    reveal_strlit("▶");
    reveal_strlit("⏸");
    reveal_strlit("…");
    reveal_strlit(" ");
    reveal_strlit(" — ");
    let sign = symbol_of(payload.state)->0;
    let artist = shown_field(payload.artist);
    let track = shown_field(payload.track);
    let dash = seq![' ', '—', ' '];
    assert(" "@ =~= seq![' ']);
    assert(" — "@ =~= dash);
    text_without_hashes_stays(sign);
    text_without_hashes_stays(seq![' ']);
    text_without_hashes_stays(dash);
    hashes_are_doubled_in_place(sign, seq![' ']);
    hashes_are_doubled_in_place(sign + seq![' '], artist);
    hashes_are_doubled_in_place(sign + seq![' '] + artist, dash);
    hashes_are_doubled_in_place(sign + seq![' '] + artist + dash, track);
}

/// The payload carries the track, the artist, the state and both times of the
/// snapshot, each in its own place.
pub proof fn the_payload_carries_the_snapshot(snapshot: SnapshotView)
    ensures
        wire_part(snapshot).track == snapshot.track,
        wire_part(snapshot).artist == snapshot.artist,
        wire_part(snapshot).state == snapshot.state,
        wire_part(snapshot).position_ms == snapshot.position_ms,
        wire_part(snapshot).duration_ms == snapshot.duration_ms,
{
}

} // verus!
