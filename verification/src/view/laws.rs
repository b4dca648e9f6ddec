//! Laws of what is on screen: each row shows its entry, each bar its current
//! tab, and each rectangle lies where it should.

use vstd::arithmetic::div_mod::lemma_fundamental_div_mod;
use vstd::prelude::*;
use vstd::string::*;
use crate::clock::Moment;
use crate::config::Keybindings;
use crate::layout::{FontSize, Rect};
use crate::model::{
    AlbumView, ArtistView, PlaybackState, PlaylistView, SnapshotView, TrackView,
};
use crate::state::{LibraryTab, LoadPhase, Mode, ModelView, RepeatMode, Screen, SearchTab};
use crate::text::{decimal, digit};
use crate::view::areas::two_thirds;
use crate::view::geometry::{
    cells_covering, centered_square, filled, font_or_default, popup_rect, popup_state, surface,
    PopupState,
};
use crate::view::lines::{
    clock_text, closing_hints, columns_sum, fitting, footer_left, footer_right, glyph, help_bar,
    hint_unless_bound, hints, key_name, mode_glyphs, modes_hint, name_or_dash, search_box,
    search_title, spaces, spread, text_columns,
};
use crate::view::lists::{
    album_spans, artist_spans, empty_hint, header_of, library_bar, list_rows, list_title,
    load_retry, playing_spans, playlist_spans, search_bar, search_retry, shown_selection,
    track_spans, SpanView, Tone,
};

verus! {

/// Whether a row shows an artist, a title and a duration, in this order.
pub open spec fn row_shows(
    row: Seq<SpanView>,
    artist: Seq<char>,
    title: Seq<char>,
    duration_ms: u32,
) -> bool {
    let at = row.len() - 5;
    &&& at >= 0
    &&& row[at].text == artist
    &&& row[at + 2].text == title
    &&& row[at + 4].text == clock_text(duration_ms as nat)
}

/// A row of tracks shows the track at its place, on every screen that lists
/// tracks; in the queue the entry under the cursor is marked, and no other.
pub proof fn rows_show_their_tracks(m: ModelView, row: int)
    requires
        0 <= row,
    ensures
        m.screen == Screen::Tracks && row < m.tracks.len() ==> row_shows(
            list_rows(m)[row],
            m.tracks[row].artist,
            m.tracks[row].title,
            m.tracks[row].duration_ms,
        ),
        m.screen == Screen::Library && m.library_tab != LibraryTab::Albums && m.library_tab
            != LibraryTab::TopArtists && row < m.tracks.len() ==> row_shows(
            list_rows(m)[row],
            m.tracks[row].artist,
            m.tracks[row].title,
            m.tracks[row].duration_ms,
        ),
        m.screen == Screen::Search && m.search_tab == SearchTab::Tracks && row
            < m.search_results.tracks.len() ==> row_shows(
            list_rows(m)[row],
            m.search_results.tracks[row].artist,
            m.search_results.tracks[row].title,
            m.search_results.tracks[row].duration_ms,
        ),
        m.screen == Screen::Queue && row < m.queue.len() ==> row_shows(
            list_rows(m)[row],
            m.queue[row].artist,
            m.queue[row].title,
            m.queue[row].duration_ms,
        ),
        m.screen == Screen::Queue && row < m.queue.len() && row <= usize::MAX ==> (
        list_rows(m)[row].len() == 6 <==> m.cursor == Some(row as usize)),
{
}

/// Rows of albums, artists and playlists show the one at their place.
pub proof fn rows_show_their_lists(m: ModelView, row: int)
    requires
        0 <= row < m.active_len(),
    ensures
        ({
            let shown = list_rows(m)[row];
            &&& m.screen == Screen::Library && m.library_tab == LibraryTab::Albums
                ==> shown[0].text == m.albums[row].artist && shown[2].text == m.albums[row].name
            &&& m.screen == Screen::Search && m.search_tab == SearchTab::Albums ==> shown[0].text
                == m.search_results.albums[row].artist && shown[2].text
                == m.search_results.albums[row].name
            &&& m.screen == Screen::Library && m.library_tab == LibraryTab::TopArtists
                ==> shown[0].text == m.artists[row].name
            &&& m.screen == Screen::Search && m.search_tab == SearchTab::Artists ==> shown[0].text
                == m.search_results.artists[row].name
            &&& m.screen == Screen::Playlists ==> shown[0].text == m.playlists[row].name
                && shown[1].text == "  ·  "@ + decimal(m.playlists[row].track_count as nat)
                + " tracks  ·  "@ && shown[2].text == m.playlists[row].owner
            &&& m.screen == Screen::Search && m.search_tab == SearchTab::Playlists
                ==> shown[0].text == m.search_results.playlists[row].name && shown[2].text
                == m.search_results.playlists[row].owner
        }),
{
}

/// In a row of tracks the artist is accented, the title is plain and the time
/// has the color of progress; the entry that plays is marked and bold.
pub proof fn rows_have_their_tones(track: TrackView)
    ensures
        ({
            let (row, playing) = (track_spans(track), playing_spans(track));
            &&& row.len() == 5 && playing.len() == 6
            &&& row[0].tone == Tone::Accent && row[1].tone == Tone::Dim
            &&& row[2].tone == Tone::Plain && row[4].tone == Tone::Progress
            &&& playing[0].text == "♪ "@ && playing[0].tone == Tone::Progress
            &&& playing[1].tone == Tone::AccentBold && playing[2].tone == Tone::Dim
            &&& playing[3].tone == Tone::Bold && playing[5].tone == Tone::Progress
            &&& row[1].text == "  —  "@ && playing[2].text == "  —  "@
            &&& row[3].text == "   "@ && playing[4].text == "   "@
        }),
{
}

/// In rows of albums and artists the artist is accented; in rows of playlists
/// all but the name is dim.
pub proof fn other_rows_have_their_tones(
    album: AlbumView,
    artist: ArtistView,
    playlist: PlaylistView,
)
    ensures
        album_spans(album).len() == 3,
        album_spans(album)[0].tone == Tone::Accent,
        album_spans(album)[1] == (SpanView { text: "  —  "@, tone: Tone::Dim }),
        album_spans(album)[2].tone == Tone::Plain,
        artist_spans(artist).len() == 1,
        artist_spans(artist)[0].tone == Tone::Accent,
        playlist_spans(playlist).len() == 3,
        playlist_spans(playlist)[0].tone == Tone::Plain,
        playlist_spans(playlist)[1].tone == Tone::Dim,
        playlist_spans(playlist)[2].tone == Tone::Dim,
{
}

/// A time shows its minutes, a colon, and its seconds in two digits; what is
/// left of a second does not show.
pub proof fn the_clock_counts_minutes_and_seconds(minutes: nat, seconds: nat, rest: nat)
    requires
        seconds < 60,
        rest < 1000,
    ensures
        ({
            let text = clock_text(minutes * 60_000 + seconds * 1000 + rest);
            let len = text.len() as int;
            &&& len >= 4
            &&& text.take(len - 3) == decimal(minutes)
            &&& text[len - 3] == ':'
            &&& text[len - 2] as u32 == 0x30 + seconds / 10
            &&& text[len - 1] as u32 == 0x30 + seconds % 10
        }),
{
    let ms = minutes * 60_000 + seconds * 1000 + rest;
    reveal_strlit(":");
    assert(ms / 1000 == minutes * 60 + seconds);
    assert((minutes * 60 + seconds) / 60 == minutes);
    assert((minutes * 60 + seconds) % 60 == seconds);
    let tail = seq![digit((seconds / 10) as int), digit((seconds % 10) as int)];
    let text = clock_text(ms);
    assert(seconds / 10 < 6 && seconds % 10 < 10);
    assert(text == decimal(minutes) + ":"@ + tail);
    assert(text.take(text.len() - 3) =~= decimal(minutes));
    assert(decimal(minutes).len() > 0);
}

/// The bar is filled in proportion: as many cells as the share of the position
/// in the duration covers whole, all of them at the end.
pub proof fn the_bar_is_filled_in_proportion(width: int, position: int, duration: int)
    requires
        0 <= width,
        0 <= position,
        0 <= duration,
    ensures
        duration > 0 && position <= duration ==> duration * filled(width, position, duration)
            <= width * position < duration * (filled(width, position, duration) + 1),
        duration > 0 && position >= duration ==> filled(width, position, duration) == width,
        duration == 0 ==> filled(width, position, duration) == 0,
{
    if duration > 0 && position <= duration {
        let whole = width * position;
        lemma_fundamental_div_mod(whole, duration);
        let share = whole / duration;
        assert(0 <= whole % duration < duration);
        assert(duration * (share + 1) == duration * share + duration) by (nonlinear_arith);
    }
    if duration > 0 && position >= duration {
        assert(width * duration / duration == width) by (nonlinear_arith)
            requires
                duration > 0,
        ;
    }
}

/// The header names the four screens behind their digits and marks exactly the
/// one that is open; an opened list counts to the screen it was opened from.
pub proof fn the_header_marks_the_screen(m: ModelView, at: int)
    requires
        0 <= at < 4,
    ensures
        header_of(m).len() == 4,
        header_of(m)[at].0[0] as u32 == 0x31 + at,
        ({
            let from = if m.screen == Screen::Tracks {
                m.tracks_origin
            } else {
                m.screen
            };
            &&& from == Screen::Search ==> (header_of(m)[at].1 <==> at == 0)
            &&& from == Screen::Playlists ==> (header_of(m)[at].1 <==> at == 1)
            &&& from == Screen::Library ==> (header_of(m)[at].1 <==> at == 2)
            &&& m.screen == Screen::Queue ==> (header_of(m)[at].1 <==> at == 3)
        }),
{
    reveal_strlit("1 Search");
    reveal_strlit("2 Playlists");
    reveal_strlit("3 Library");
    reveal_strlit("4 Queue");
}

/// A tab bar names its tabs in their order and marks exactly the current one.
pub proof fn a_bar_marks_the_current_tab(library: LibraryTab, search: SearchTab, at: int)
    ensures
        library_bar(library).len() == 5,
        0 <= at < 5 ==> (library_bar(library)[at].1 <==> at == library.place()),
        library_bar(library)[library.place()].0 == library.label_text(),
        search_bar(search).len() == 4,
        0 <= at < 4 ==> (search_bar(search)[at].1 <==> at == search.place()),
        search_bar(search)[search.place()].0 == search.label_text(),
{
}

/// Tab leads to the next tab of the bar, back to the first from the last, and
/// Shift-Tab undoes it.
pub proof fn tabs_follow_the_bar(library: LibraryTab, search: SearchTab)
    ensures
        library.place() < 4 ==> library.moved(true).place() == library.place() + 1,
        library.place() == 4 ==> library.moved(true).place() == 0,
        library.moved(true).moved(false) == library,
        library.moved(false).moved(true) == library,
        search.place() < 3 ==> search.moved(true).place() == search.place() + 1,
        search.place() == 3 ==> search.moved(true).place() == 0,
        search.moved(true).moved(false) == search,
        search.moved(false).moved(true) == search,
{
}

/// The tabs of the library are the top tracks, the albums, the top artists, the
/// recently played and the saved tracks, in this order; those of the search its
/// tracks, albums, artists and playlists.
pub proof fn tabs_have_their_order()
    ensures
        LibraryTab::TopTracks.moved(true) == LibraryTab::Albums,
        LibraryTab::Albums.moved(true) == LibraryTab::TopArtists,
        LibraryTab::TopArtists.moved(true) == LibraryTab::RecentlyPlayed,
        LibraryTab::RecentlyPlayed.moved(true) == LibraryTab::Saved,
        LibraryTab::Saved.moved(true) == LibraryTab::TopTracks,
        SearchTab::Tracks.moved(true) == SearchTab::Albums,
        SearchTab::Albums.moved(true) == SearchTab::Artists,
        SearchTab::Artists.moved(true) == SearchTab::Playlists,
        SearchTab::Playlists.moved(true) == SearchTab::Tracks,
{
}

/// Every tab has a name of its own, which is the title of its list.
pub proof fn tabs_are_named_apart(m: ModelView, library: LibraryTab, search: SearchTab)
    ensures
        library != m.library_tab ==> library.label_text() != m.library_tab.label_text(),
        search != m.search_tab ==> search.label_text() != m.search_tab.label_text(),
        m.screen == Screen::Library ==> list_title(m) == m.library_tab.label_text(),
        m.screen == Screen::Search ==> list_title(m) == m.search_tab.label_text(),
        m.screen == Screen::Playlists ==> list_title(m) == "Playlists"@,
        m.screen == Screen::Tracks ==> list_title(m) == "Tracks"@,
        m.screen == Screen::Queue ==> list_title(m) == "Queue"@,
{
    reveal_strlit("Top Tracks");
    reveal_strlit("Albums");
    reveal_strlit("Top Artists");
    reveal_strlit("Recently Played");
    reveal_strlit("Saved");
    reveal_strlit("Tracks");
    reveal_strlit("Artists");
    reveal_strlit("Playlists");
    assert("Top Tracks"@.len() == 10 && "Top Artists"@.len() == 11);
    assert("Recently Played"@.len() == 15);
    assert("Albums"@.len() == 6 && "Saved"@.len() == 5 && "Artists"@.len() == 7);
    assert("Tracks"@[0] == 'T' && "Albums"@[0] == 'A' && "Tracks"@.len() == 6);
    assert("Playlists"@.len() == 9);
}

/// The selected row shows as selected; past the end the last one does, and
/// without a selection the first.
pub proof fn the_selected_row_shows(selected: Option<usize>, len: int)
    requires
        len > 0,
    ensures
        selected is Some && selected->0 < len ==> shown_selection(selected, len) == selected->0,
        selected is Some && selected->0 >= len ==> shown_selection(selected, len) == len - 1,
        selected is None ==> shown_selection(selected, len) == 0,
{
}

/// While typing, the text cursor stands behind the characters before it, and
/// where these do not fit, at the right end of a box that scrolls.
pub proof fn the_text_cursor_stays_in_its_box(area: Rect, columns: int)
    requires
        area.fits(),
        area.width >= 3,
        0 <= columns <= u16::MAX,
    ensures
        ({
            let shown = search_box(true, area, columns);
            let room = area.width - 3;
            &&& shown.cursor_x is Some
            &&& columns <= room ==> shown.scroll == 0 && shown.cursor_x->0 == area.x + 1 + columns
            &&& columns > room ==> shown.scroll == columns - room && shown.cursor_x->0 == area.x
                + area.width - 2
        }),
        search_box(false, area, columns).cursor_x is None,
        search_box(false, area, columns).scroll == 0,
{
}

/// A large terminal keeps one column and one row free on each side, a small one
/// none.
pub proof fn the_surface_keeps_a_margin(area: Rect)
    requires
        area.fits(),
    ensures
        ({
            let inner = surface(area);
            &&& area.holds(inner)
            &&& area.width > 40 ==> inner.x == area.x + 1 && inner.width == area.width - 2
            &&& area.width <= 40 ==> inner.x == area.x && inner.width == area.width
            &&& area.height > 16 ==> inner.y == area.y + 1 && inner.height == area.height - 2
            &&& area.height <= 16 ==> inner.y == area.y && inner.height == area.height
        }),
{
}

/// Two thirds are two thirds to the nearest cell.
pub proof fn two_thirds_to_the_nearest_cell(cells: int)
    requires
        0 <= cells,
    ensures
        -1 <= 3 * two_thirds(cells) - 2 * cells <= 1,
        0 <= two_thirds(cells) <= cells,
{
}

/// As many cells cover a run of pixels as it takes, and not one more, as far as
/// there are cells.
pub proof fn cells_cover_their_pixels(pixels: int, cell: int, most: int)
    requires
        0 < pixels,
        0 < cell,
        1 <= most,
    ensures
        ({
            let cells = cells_covering(pixels, cell, most);
            &&& 1 <= cells <= most
            &&& cells < most ==> pixels <= cells * cell
            &&& (cells - 1) * cell < pixels
        }),
{
    let whole = (pixels + cell - 1) / cell;
    lemma_fundamental_div_mod(pixels + cell - 1, cell);
    let cells = cells_covering(pixels, cell, most);
    assert(cell * whole == whole * cell) by (nonlinear_arith);
    assert(whole >= 1) by {
        if whole <= 0 {
            assert(whole * cell <= 0) by (nonlinear_arith)
                requires
                    whole <= 0,
                    cell > 0,
            ;
        }
    }
    assert((cells - 1) * cell <= (whole - 1) * cell) by (nonlinear_arith)
        requires
            cells <= whole,
            cell > 0,
    ;
    assert((whole - 1) * cell == whole * cell - cell) by (nonlinear_arith);
}

/// The cover lies within its pane, in the middle of it to a cell.
pub proof fn the_cover_is_centered(area: Rect, font: FontSize)
    requires
        area.fits(),
        area.width > 0,
        area.height > 0,
    ensures
        ({
            let cover = centered_square(area, font);
            let left = cover.x - area.x;
            let right = (area.x + area.width) - (cover.x + cover.width);
            let above = cover.y - area.y;
            let below = (area.y + area.height) - (cover.y + cover.height);
            &&& area.holds(cover)
            &&& cover.width > 0 && cover.height > 0
            &&& left <= right <= left + 1
            &&& above <= below <= above + 1
        }),
{
    let side = crate::layout::square_edge(area, font);
    assert(area.width * font.cell_width() > 0) by (nonlinear_arith)
        requires
            area.width > 0,
            font.cell_width() > 0,
    ;
    assert(area.height * font.cell_height() > 0) by (nonlinear_arith)
        requires
            area.height > 0,
            font.cell_height() > 0,
    ;
    cells_cover_their_pixels(side, font.cell_width(), area.width as int);
    cells_cover_their_pixels(side, font.cell_height(), area.height as int);
}

/// The volume popup lies within its area, a column from the right and five rows
/// above the bottom, where there is room for it.
pub proof fn the_popup_lies_above_the_footer(area: Rect)
    requires
        area.fits(),
        area.width > 35,
        area.height >= 10,
    ensures
        ({
            let popup = popup_rect(area);
            &&& area.holds(popup)
            &&& popup.width == 34 && popup.height == 5
            &&& popup.x + popup.width + 1 == area.x + area.width
            &&& popup.y + popup.height + 5 == area.y + area.height
        }),
{
}

/// The popup shows until its deadline, fading in the last moments, and only
/// where there is room for it.
pub proof fn the_popup_fades_out(deadline: Moment, now: Moment, area: Rect)
    ensures
        popup_state(None, now, area) == PopupState::Hidden,
        ({
            let shown = popup_state(Some(deadline), now, area);
            let roomy = area.width >= 24 && area.height >= 8;
            let left = deadline.nanos - now.nanos;
            &&& (left <= 0 || !roomy) == (shown == PopupState::Hidden)
            &&& roomy && 0 < left <= 400_000_000 ==> shown == PopupState::Fading
            &&& roomy && left > 400_000_000 ==> shown == PopupState::Bright
        }),
{
}

/// Every state shows by a sign of its own.
pub proof fn states_show_apart(a: PlaybackState, b: PlaybackState)
    ensures
        a != b ==> glyph(a) != glyph(b),
        a == PlaybackState::Playing ==> glyph(a) == seq!['▶'],
        a == PlaybackState::Paused ==> glyph(a) == seq!['⏸'],
        a == PlaybackState::Loading ==> glyph(a) == seq!['…'],
        a == PlaybackState::Stopped ==> glyph(a) == seq!['■'],
{
    reveal_strlit("▶");
    reveal_strlit("⏸");
    reveal_strlit("…");
    reveal_strlit("■");
    assert(glyph(PlaybackState::Playing)[0] == '▶');
    assert(glyph(PlaybackState::Paused)[0] == '⏸');
    assert(glyph(PlaybackState::Loading)[0] == '…');
    assert(glyph(PlaybackState::Stopped)[0] == '■');
}

/// The modes show where they are on: shuffle by its arrows, repeat by its
/// circle, with a one where a single track is repeated.
pub proof fn modes_show_while_on(shuffle: bool, repeat: RepeatMode)
    ensures
        ({
            let text = mode_glyphs(shuffle, repeat);
            let at = if shuffle {
                2int
            } else {
                0
            };
            &&& shuffle ==> text.len() >= 2 && text[0] == '⇄'
            &&& repeat != RepeatMode::Off ==> text.len() > at && text[at] == '⟳'
            &&& repeat == RepeatMode::One ==> text[at + 1] == '1'
            &&& repeat == RepeatMode::All ==> text[at + 1] == ' '
            &&& repeat == RepeatMode::Off && shuffle ==> text[2] == '·'
            &&& repeat == RepeatMode::Off && !shuffle ==> text.len() == 0
        }),
{
    reveal_strlit("");
    reveal_strlit("⟳ · ");
    reveal_strlit("⟳1 · ");
    reveal_strlit("⇄ · ");
    reveal_strlit("⇄ ⟳ · ");
    reveal_strlit("⇄ ⟳1 · ");
}

/// The footer shows the state, the artist and the track on its left, and the
/// modes, the position and the duration on its right.
pub proof fn the_footer_shows_what_plays(m: ModelView, np: SnapshotView)
    ensures
        np.artist is Some && np.track is Some ==> footer_left(np) == glyph(np.state) + " "@
            + np.artist->0 + " — "@ + np.track->0,
        np.artist is None ==> name_or_dash(np.artist) == "—"@,
        footer_right(m) == mode_glyphs(m.shuffle, m.repeat) + (clock_text(
            m.now_playing.position_ms as nat,
        ) + " / "@ + clock_text(m.now_playing.duration_ms as nat)),
{
    assert(footer_right(m) =~= mode_glyphs(m.shuffle, m.repeat) + (clock_text(
        m.now_playing.position_ms as nat,
    ) + " / "@ + clock_text(m.now_playing.duration_ms as nat)));
}

/// A text is cut to its longest beginning that fits.
pub proof fn the_longest_beginning_shows(text: Seq<char>, width: int)
    requires
        0 <= width,
    ensures
        fitting(text, width).len() <= text.len(),
        fitting(text, width) == text.take(fitting(text, width).len() as int),
        fitting(text, width).len() < text.len() ==> columns_sum(
            text.take(fitting(text, width).len() as int + 1),
        ) > width,
        columns_sum(fitting(text, width)) <= width,
    decreases text.len(),
{
    assert(text.take(text.len() as int) =~= text);
    if text.len() > 0 && columns_sum(text) > width {
        let shorter = text.drop_last();
        the_longest_beginning_shows(shorter, width);
        let kept = fitting(shorter, width).len() as int;
        assert(shorter.take(kept) =~= text.take(kept));
        if kept < shorter.len() {
            assert(shorter.take(kept + 1) =~= text.take(kept + 1));
        } else {
            assert(text.take(kept + 1) =~= text);
        }
    }
}

/// Two texts that fit side by side show whole, at the two ends of the line,
/// with blanks between.
pub proof fn both_ends_show_where_there_is_room(width: int, left: Seq<char>, right: Seq<char>)
    requires
        columns_sum(left) + columns_sum(right) < width,
        columns_sum(left) >= 0,
        columns_sum(right) >= 0,
        text_columns(right) == columns_sum(right),
        text_columns(left) == columns_sum(left),
    ensures
        spread(width, left, right) == left + spaces(width - columns_sum(left) - columns_sum(right))
            + right,
        spaces(width).len() == width,
        forall|i: int| 0 <= i < width ==> #[trigger] spaces(width)[i] == ' ',
{
    assert(fitting(right, width) == right);
    assert(fitting(left, width - columns_sum(right) - 1) == left);
}

/// A key shows as itself, but for the ones that leave no mark.
pub proof fn keys_show_as_themselves(key: char)
    ensures
        key != ' ' && key != '\t' && key != '\n' ==> key_name(key) == seq![key],
        key == ' ' ==> key_name(key) == "Space"@,
        key == '\t' ==> key_name(key) == "Tab"@,
        key == '\n' ==> key_name(key) == "Enter"@,
{
}

/// A hint shows where its letter is free, and is left out where the user bound
/// the letter to something else.
pub proof fn hints_yield_to_bindings(keys: Keybindings, key: char, hint: Seq<char>)
    ensures
        (keys.quit == key || keys.down == key || keys.up == key || keys.play_pause == key
            || keys.next == key || keys.previous == key || keys.search == key)
            ==> hint_unless_bound(keys, key, hint).len() == 0,
        keys.quit != key && keys.down != key && keys.up != key && keys.play_pause != key
            && keys.next != key && keys.previous != key && keys.search != key
            ==> hint_unless_bound(keys, key, hint) == hint,
{
    reveal_strlit("");
    let all = keys.keys();
    assert(all[0] == keys.quit && all[1] == keys.down && all[2] == keys.up && all[3]
        == keys.play_pause && all[4] == keys.next && all[5] == keys.previous && all[6]
        == keys.search);
}

/// The hint of the modes names the letters that are free.
pub proof fn the_mode_hint_names_free_letters(keys: Keybindings)
    ensures
        ({
            let (s, r) = (keys.keys().contains('s'), keys.keys().contains('R'));
            let text = modes_hint(keys);
            &&& s && r ==> text.len() == 0
            &&& !s ==> text.len() > 2 && text[0] == 's'
            &&& s && !r ==> text.len() > 2 && text[0] == 'R'
            &&& !s && !r ==> text[2] == 'R'
            &&& !s && r ==> text[2] == 's'
        }),
{
    reveal_strlit("s/R modes · ");
    reveal_strlit("s shuffle · ");
    reveal_strlit("R repeat · ");
    reveal_strlit("");
}

/// Whether `text` begins with `start`.
pub open spec fn begins_with(text: Seq<char>, start: Seq<char>) -> bool {
    text.len() >= start.len() && text.take(start.len() as int) == start
}

/// Whether `text` ends with `end`.
pub open spec fn ends_with(text: Seq<char>, end: Seq<char>) -> bool {
    text.len() >= end.len() && text.skip(text.len() - end.len()) == end
}

/// The closing hints name the keys of pausing, of both skips and of quitting,
/// in this order.
pub proof fn closing_hints_name_the_bound_keys(keys: Keybindings, seek: bool)
    ensures
        begins_with(
            closing_hints(keys, seek),
            key_name(keys.play_pause) + " pause · "@ + key_name(keys.next) + "/"@ + key_name(
                keys.previous,
            ) + " skip · "@,
        ),
        ends_with(closing_hints(keys, seek), key_name(keys.quit) + " quit"@),
{
    let start = key_name(keys.play_pause) + " pause · "@ + key_name(keys.next) + "/"@ + key_name(
        keys.previous,
    ) + " skip · "@;
    let end = key_name(keys.quit) + " quit"@;
    let text = closing_hints(keys, seek);
    assert(text.take(start.len() as int) =~= start);
    assert(text.skip(text.len() - end.len()) =~= end);
}

/// The help bar shows the message of the footer where there is one; otherwise
/// it shows how to end typing, or the hints of the screen, which close with the
/// keys of playback.
pub proof fn the_help_bar_follows_the_screen(m: ModelView)
    ensures
        m.status is Some ==> help_bar(m) == (true, " "@ + m.status->0 + " "@),
        m.status is None ==> !help_bar(m).0,
        m.status is None && m.mode == Mode::Insert ==> help_bar(m).1
            == " Enter submit · Esc cancel "@,
        m.status is None && m.mode == Mode::Normal ==> ends_with(
            help_bar(m).1,
            closing_hints(m.keybindings, m.screen != Screen::Search),
        ),
        m.status is None && m.mode == Mode::Normal && m.screen == Screen::Search ==> begins_with(
            help_bar(m).1,
            key_name(m.keybindings.search),
        ),
        m.status is None && m.mode == Mode::Normal && m.screen == Screen::Playlists ==> begins_with(
            help_bar(m).1,
            "↵ open · "@ + key_name(m.keybindings.down) + "/"@ + key_name(m.keybindings.up),
        ),
        m.status is None && m.mode == Mode::Normal && m.screen == Screen::Tracks ==> begins_with(
            help_bar(m).1,
            "↵ play · Esc back · "@,
        ),
        m.status is None && m.mode == Mode::Normal && m.screen == Screen::Library ==> begins_with(
            help_bar(m).1,
            "Tab tab · ↵ play · "@,
        ),
        m.status is None && m.mode == Mode::Normal && m.screen == Screen::Queue ==> begins_with(
            help_bar(m).1,
            "↵ jump · "@,
        ),
{
    let keys = m.keybindings;
    let text = hints(keys, m.screen);
    let end = closing_hints(keys, m.screen != Screen::Search);
    assert(text.skip(text.len() - end.len()) =~= end);
    match m.screen {
        Screen::Search => {
            let start = key_name(keys.search);
            assert(text.take(start.len() as int) =~= start);
        },
        Screen::Playlists => {
            let start = "↵ open · "@ + key_name(keys.down) + "/"@ + key_name(keys.up);
            assert(text.take(start.len() as int) =~= start);
        },
        Screen::Tracks => {
            let start = "↵ play · Esc back · "@;
            assert(text.take(start.len() as int) =~= start);
        },
        Screen::Library => {
            let start = "Tab tab · ↵ play · "@;
            assert(text.take(start.len() as int) =~= start);
        },
        Screen::Queue => {
            let start = "↵ jump · "@;
            assert(text.take(start.len() as int) =~= start);
        },
    }
}

/// The hints of a screen name what Enter does there, then the letters that are
/// free, then the keys of playback.
pub proof fn free_letters_show_in_the_hints(keys: Keybindings)
    ensures
        ({
            let bound = keys.keys();
            let add = if bound.contains('a') {
                ""@
            } else {
                "a queue · "@
            };
            let refresh = if bound.contains('r') {
                ""@
            } else {
                "r refresh · "@
            };
            let remove = if bound.contains('x') {
                ""@
            } else {
                "x remove · "@
            };
            &&& hints(keys, Screen::Search) == key_name(keys.search)
                + " edit · Tab lane · ↵ play · "@ + add + refresh + closing_hints(keys, false)
            &&& hints(keys, Screen::Playlists) == "↵ open · "@ + key_name(keys.down) + "/"@
                + key_name(keys.up) + " move · "@ + refresh + closing_hints(keys, true)
            &&& hints(keys, Screen::Tracks) == "↵ play · Esc back · "@ + add + refresh
                + closing_hints(keys, true)
            &&& hints(keys, Screen::Library) == "Tab tab · ↵ play · "@ + add + refresh
                + closing_hints(keys, true)
            &&& hints(keys, Screen::Queue) == "↵ jump · "@ + remove + modes_hint(keys)
                + closing_hints(keys, true)
        }),
{
}

/// The title of the search box says whether it takes characters, and otherwise
/// which key makes it.
pub proof fn the_search_title_names_its_key(m: ModelView)
    ensures
        m.mode == Mode::Insert ==> search_title(m) == "Search (typing)"@,
        m.mode == Mode::Normal ==> search_title(m) == "Search (press "@ + key_name(
            m.keybindings.search,
        ) + " to edit)"@,
{
}

/// An empty list that failed says how to try again: by the reload key where that
/// is free. Each list goes by its own answer.
pub proof fn a_failed_list_says_how_to_retry(m: ModelView)
    ensures
        m.screen == Screen::Playlists && m.playlists_phase == LoadPhase::Failed ==> empty_hint(m)
            == load_retry(m),
        m.screen == Screen::Tracks && m.tracks_phase == LoadPhase::Failed ==> empty_hint(m)
            == load_retry(m),
        m.screen == Screen::Library && m.library_tab == LibraryTab::Albums && m.albums_phase
            == LoadPhase::Failed ==> empty_hint(m) == load_retry(m),
        m.screen == Screen::Library && m.library_tab == LibraryTab::TopArtists && m.artists_phase
            == LoadPhase::Failed ==> empty_hint(m) == load_retry(m),
        m.screen == Screen::Library && m.library_tab != LibraryTab::Albums && m.library_tab
            != LibraryTab::TopArtists && m.tracks_phase == LoadPhase::Failed ==> empty_hint(m)
            == load_retry(m),
        m.screen == Screen::Search && (m.search_phase == LoadPhase::Failed
            || m.search_results.failed_lanes.contains(m.search_tab.label_text())) ==> empty_hint(m)
            == search_retry(m),
        !m.keybindings.keys().contains('r') ==> load_retry(m)
            == "Couldn't load — press r to retry."@ && search_retry(m)
            == "Search failed — press r to retry."@,
        m.keybindings.keys().contains('r') ==> load_retry(m)
            == "Couldn't load — leave and re-enter to retry."@ && search_retry(m)
            == "Search failed — edit the query and press Enter."@,
{
}

/// An empty lane of a search says how the search stands.
pub proof fn an_empty_lane_says_why(m: ModelView)
    requires
        m.screen == Screen::Search,
        !m.search_results.failed_lanes.contains(m.search_tab.label_text()),
    ensures
        m.search_phase == LoadPhase::Idle ==> empty_hint(m)
            == "No results yet. Press / to search."@,
        m.search_phase == LoadPhase::Loading ==> empty_hint(m) == "Searching…"@,
        m.search_phase is Loaded ==> empty_hint(m) == "No results for this query."@,
{
}

/// An empty queue says how to fill it.
pub proof fn an_empty_queue_says_how_to_fill_it(m: ModelView)
    requires
        m.screen == Screen::Queue,
    ensures
        empty_hint(m) == "Queue is empty — play a track (↵) or add one (a)."@,
{
}

/// A terminal that does not tell its cell size is taken to have cells twice as
/// high as wide.
pub proof fn unknown_cells_are_twice_as_high(font: FontSize)
    ensures
        font_or_default(Some(font)) == font,
        font_or_default(None).height == 2 * font_or_default(None).width,
        font_or_default(None).width == 1,
{
}

/// A list that is being loaded says so, and one that came back empty says that
/// there is nothing.
pub proof fn an_empty_list_says_why(m: ModelView)
    requires
        m.screen == Screen::Library || m.screen == Screen::Playlists || m.screen == Screen::Tracks,
    ensures
        ({
            let phase = if m.screen == Screen::Playlists {
                m.playlists_phase
            } else if m.screen == Screen::Library && m.library_tab == LibraryTab::Albums {
                m.albums_phase
            } else if m.screen == Screen::Library && m.library_tab == LibraryTab::TopArtists {
                m.artists_phase
            } else {
                m.tracks_phase
            };
            let text = empty_hint(m);
            &&& phase == LoadPhase::Idle || phase == LoadPhase::Loading ==> text.len() > 7
                && text[0] == 'L' && text[6] == 'g'
            &&& phase is Loaded ==> text.len() > 7 && text[0] == 'N' && text[1] == 'o'
        }),
{
    reveal_strlit("Loading playlists…");
    reveal_strlit("No playlists found.");
    reveal_strlit("Loading tracks…");
    reveal_strlit("No tracks here.");
    reveal_strlit("Loading your top tracks…");
    reveal_strlit("Loading your albums…");
    reveal_strlit("Loading your top artists…");
    reveal_strlit("Loading recently played…");
    reveal_strlit("Loading your saved tracks…");
    reveal_strlit("No top tracks yet.");
    reveal_strlit("No saved albums.");
    reveal_strlit("No top artists yet.");
    reveal_strlit("Nothing played recently.");
    reveal_strlit("No saved tracks.");
}

} // verus!
