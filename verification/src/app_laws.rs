//! Laws of the event loop's decisions and of what they build on: covers, lanes,
//! moments, rectangles, settings and errors.

use vstd::prelude::*;
use vstd::string::*;
use crate::app::{
    art_edge, best_cover, failed_lanes, lane_items, large_enough, pane_edge, reconnect_failure,
    satisfied_by, source_behind, ArtState,
};
use crate::clock::{moment_after, nanos_between, Moment};
use crate::config::{
    binding_names, resolved, Color, ConfigError, ConfigErrorView, Keybindings, ThemeColors,
};
use crate::error::{ApiError, AuthError, IpcError, PlayerError};
use crate::layout::{inset, larger, smaller, square_edge, FontSize, Rect};
use crate::message::ActionView;
use crate::model::{ArtView, SourceView};

verus! {

/// A cover counts by its shorter side, by the only one known where one is
/// missing, and not at all where both are.
pub proof fn a_cover_counts_by_its_shorter_side(image: ArtView)
    ensures
        art_edge(image) is None == (image.width is None && image.height is None),
        art_edge(image) is Some ==> {
            let edge = art_edge(image)->0;
            &&& image.width is Some ==> edge <= image.width->0
            &&& image.height is Some ==> edge <= image.height->0
            &&& image.width == Some(edge) || image.height == Some(edge)
        },
{
}

/// The cover to show fills the pane where some cover does, and then no smaller
/// one does; otherwise no known cover is larger.
pub proof fn the_best_cover_wastes_nothing(
    images: Seq<ArtView>,
    index: int,
    other: int,
    target: u32,
)
    requires
        best_cover(images, index, target),
        0 <= other < images.len(),
        art_edge(images[other]) is Some,
    ensures
        0 <= index < images.len(),
        art_edge(images[index]) is Some,
        ({
            let (shown, rival) = (art_edge(images[index])->0, art_edge(images[other])->0);
            &&& rival >= target ==> target <= shown <= rival
            &&& shown < target ==> rival <= shown
        }),
{
    assert(large_enough(images, other, 0));
    if art_edge(images[other])->0 >= target {
        assert(large_enough(images, other, target));
    }
}

/// The first of equal covers that fill the pane is shown, and where no size is
/// known, the first of all.
pub proof fn the_first_cover_wins(images: Seq<ArtView>, index: int, other: int, target: u32)
    requires
        best_cover(images, index, target),
        0 <= other < images.len(),
    ensures
        art_edge(images[other]) == art_edge(images[index]) && art_edge(images[index]) is Some
            && art_edge(images[index])->0 >= target ==> index <= other,
        (forall|k: int| 0 <= k < images.len() ==> art_edge(#[trigger] images[k]) is None) ==> index
            == 0,
{
    if art_edge(images[other]) == art_edge(images[index]) && art_edge(images[index]) is Some
        && art_edge(images[index])->0 >= target {
        assert(large_enough(images, other, target));
    }
    if forall|k: int| 0 <= k < images.len() ==> art_edge(#[trigger] images[k]) is None {
        assert forall|k: int| !#[trigger] large_enough(images, k, target) by {}
        assert forall|k: int| !#[trigger] large_enough(images, k, 0) by {}
    }
}

/// Where no cover fills the pane, the last of the largest is shown.
pub proof fn the_last_of_the_largest_wins(
    images: Seq<ArtView>,
    index: int,
    other: int,
    target: u32,
)
    requires
        best_cover(images, index, target),
        0 <= other < images.len(),
        art_edge(images[index]) is Some,
        art_edge(images[index])->0 < target,
        art_edge(images[other]) == art_edge(images[index]),
    ensures
        other <= index,
{
    assert(large_enough(images, other, 0));
}

/// A pane asks for a cover as wide as its shorter side in pixels; one that is
/// not measured, or has no room, asks for a middling cover.
pub proof fn a_pane_asks_for_its_shorter_side(state: ArtState, font: FontSize)
    requires
        font.width >= 1,
        font.height >= 1,
    ensures
        state.area is None ==> state.target(Some(font)) == 300,
        state.target(None) == 300,
        state.area is Some ==> {
            let area = state.area->0;
            let (width, height) = (area.width * font.width, area.height * font.height);
            &&& area.width > 0 && area.height > 0 && width <= height ==> state.target(Some(font))
                == width
            &&& area.width > 0 && area.height > 0 && height <= width ==> state.target(Some(font))
                == height
            &&& area.width == 0 || area.height == 0 ==> state.target(Some(font)) == 300
        },
{
    if let Some(area) = state.area {
        assert(0 <= area.width * font.width <= 65535 * 65535) by (nonlinear_arith)
            requires
                0 <= area.width <= 65535,
                0 <= font.width <= 65535,
        ;
        assert(0 <= area.height * font.height <= 65535 * 65535) by (nonlinear_arith)
            requires
                0 <= area.height <= 65535,
                0 <= font.height <= 65535,
        ;
        if area.width > 0 && area.height > 0 {
            assert(pane_edge(area, font) == Some(square_edge(area, font)));
        }
    }
}

/// A loaded cover is kept where it is one of the track's and large enough, and
/// not where it is none of them.
pub proof fn a_loaded_cover_is_kept(images: Seq<ArtView>, url: Seq<char>, at: int, target: u32)
    requires
        0 <= at < images.len(),
        images[at].url == url,
        forall|k: int| 0 <= k < at ==> (#[trigger] images[k]).url != url,
    ensures
        satisfied_by(images, Some(url), target) == (art_edge(images[at]) is Some && art_edge(
            images[at],
        )->0 >= target),
        !satisfied_by(images, None, target),
{
    if satisfied_by(images, Some(url), target) {
        let i = choose|i: int|
            {
                &&& 0 <= i < images.len()
                &&& (#[trigger] images[i]).url == url
                &&& forall|k: int| 0 <= k < i ==> (#[trigger] images[k]).url != url
                &&& art_edge(images[i]) is Some
                &&& art_edge(images[i])->0 >= target
            };
        assert(i == at);
    }
}

/// A request for a track list is known by the list it asks for, and no other
/// request is taken for one.
pub proof fn requests_are_known_by_their_list(source: SourceView, action: ActionView)
    ensures
        source_behind(action) == Some(source) <==> match source {
            SourceView::Playlist(id) => action == ActionView::LoadPlaylistTracks(id),
            SourceView::Album(id) => action == ActionView::LoadAlbumTracks(id),
            SourceView::TopTracks(range) => action == ActionView::LoadTopTracks(range),
            SourceView::RecentlyPlayed => action == ActionView::LoadRecentlyPlayed,
            SourceView::SavedTracks => action == ActionView::LoadSavedTracks,
        },
{
}

/// One for a lane that failed, and none for one that did not.
pub open spec fn count_of(failed: bool) -> int {
    if failed {
        1
    } else {
        0
    }
}

/// A lane is named among the failed ones exactly where it failed, and the lanes
/// are named in the order of the tabs.
pub proof fn failed_lanes_are_named(tracks: bool, albums: bool, artists: bool, playlists: bool)
    ensures
        ({
            let named = failed_lanes(tracks, albums, artists, playlists);
            let before = (count_of(tracks), count_of(albums));
            &&& tracks ==> named.len() > 0 && named[0] == "Tracks"@
            &&& albums ==> named.len() > before.0 && named[before.0] == "Albums"@
            &&& artists ==> named.len() > before.0 + before.1 && named[before.0 + before.1]
                == "Artists"@
            &&& playlists ==> named.len() > 0 && named.last() == "Playlists"@
            &&& named.len() == before.0 + before.1 + count_of(artists) + count_of(playlists)
        }),
{
}

/// A lane that was answered shows every item of its answer, in order; one that
/// failed shows none.
pub proof fn a_lane_shows_its_answer<T: View>(items: Vec<T>, error: ApiError)
    ensures
        lane_items(Ok(items)).len() == items@.len(),
        forall|i: int|
            0 <= i < items@.len() ==> #[trigger] lane_items(Ok(items))[i] == items@[i]@,
        lane_items::<T>(Err(error)).len() == 0,
{
}

/// The time between two moments is what has to be added to the earlier to reach
/// the later; there is none the other way round.
pub proof fn time_passes_forward(earlier: Moment, later: Moment)
    requires
        earlier.nanos <= later.nanos,
    ensures
        earlier.nanos + nanos_between(earlier, later) == later.nanos,
        nanos_between(later, earlier) == 0,
{
}

/// A moment some milliseconds ahead is a million times as many nanoseconds
/// ahead, as long as the clock can count that far, and never lies before.
pub proof fn a_millisecond_is_a_million_nanoseconds(from: Moment, millis: int)
    requires
        0 <= millis,
    ensures
        from.nanos + millis * 1_000_000 <= i64::MAX ==> moment_after(from, millis).nanos
            == from.nanos + millis * 1_000_000,
        from.nanos + millis * 1_000_000 > i64::MAX ==> moment_after(from, millis).nanos
            == i64::MAX,
        from.nanos <= moment_after(from, millis).nanos,
{
}

/// Of two numbers one is the smaller and the other the larger.
pub proof fn one_is_the_smaller(a: int, b: int)
    ensures
        a <= b ==> smaller(a, b) == a && larger(a, b) == b,
        a >= b ==> smaller(a, b) == b && larger(a, b) == a,
{
}

/// A margin is the same on both sides, and what it leaves lies within.
pub proof fn margins_are_even(area: Rect, horizontal: int, vertical: int)
    requires
        0 <= horizontal <= 1,
        0 <= vertical <= 1,
        area.fits(),
    ensures
        ({
            let inner = inset(area, horizontal, vertical);
            &&& area.width >= 2 * horizontal && area.height >= 2 * vertical ==> {
                &&& area.holds(inner)
                &&& inner.x - area.x == horizontal
                &&& (area.x + area.width) - (inner.x + inner.width) == horizontal
                &&& inner.y - area.y == vertical
                &&& (area.y + area.height) - (inner.y + inner.height) == vertical
            }
            &&& area.width < 2 * horizontal || area.height < 2 * vertical ==> inner.width == 0
                && inner.height == 0
        }),
{
}

/// Bindings are distinct where each of the seven actions has a key of its own.
pub proof fn distinct_bindings_differ(keys: Keybindings)
    ensures
        keys.distinct() == {
            let k = keys;
            &&& k.quit != k.down && k.quit != k.up && k.quit != k.play_pause && k.quit != k.next
            &&& k.quit != k.previous && k.quit != k.search
            &&& k.down != k.up && k.down != k.play_pause && k.down != k.next
            &&& k.down != k.previous && k.down != k.search
            &&& k.up != k.play_pause && k.up != k.next && k.up != k.previous && k.up != k.search
            &&& k.play_pause != k.next && k.play_pause != k.previous && k.play_pause != k.search
            &&& k.next != k.previous && k.next != k.search && k.previous != k.search
        },
{
    let all = keys.keys();
    assert(all[0] == keys.quit && all[1] == keys.down && all[2] == keys.up && all[3]
        == keys.play_pause && all[4] == keys.next && all[5] == keys.previous && all[6]
        == keys.search);
}

/// A conflict names the two actions that share the key.
pub proof fn a_conflict_names_its_actions(keys: Keybindings, i: int)
    requires
        0 <= i < 7,
    ensures
        binding_names()[i] == "quit"@ && keys.keys()[i] == keys.quit || binding_names()[i]
            == "down"@ && keys.keys()[i] == keys.down || binding_names()[i] == "up"@
            && keys.keys()[i] == keys.up || binding_names()[i] == "play_pause"@ && keys.keys()[i]
            == keys.play_pause || binding_names()[i] == "next"@ && keys.keys()[i] == keys.next
            || binding_names()[i] == "previous"@ && keys.keys()[i] == keys.previous
            || binding_names()[i] == "search"@ && keys.keys()[i] == keys.search,
{
}

/// The conflict that is reported comes before every other one.
pub proof fn the_first_conflict_is_reported(keys: Keybindings, i: int, j: int, a: int, b: int)
    requires
        keys.first_conflict(i, j),
        0 <= a < b < 7,
        keys.keys()[a] == keys.keys()[b],
    ensures
        0 <= i < j < 7,
        keys.keys()[i] == keys.keys()[j],
        i < a || i == a && j <= b,
{
}

/// A theme has its three colors where every name is one, each for its own
/// entry; otherwise the first entry that names none is reported, with the name.
pub proof fn a_theme_needs_three_colors(
    accent: Option<Color>,
    progress: Option<Color>,
    dim: Option<Color>,
    names: (Seq<char>, Seq<char>, Seq<char>),
)
    ensures
        ({
            let result = resolved(accent, progress, dim, names);
            &&& result is Ok == (accent is Some && progress is Some && dim is Some)
            &&& result is Ok ==> accent == Some(result->Ok_0.accent) && progress == Some(
                result->Ok_0.progress,
            ) && dim == Some(result->Ok_0.dim)
            &&& accent is None ==> result == Err::<ThemeColors, ConfigErrorView>(
                ConfigErrorView::UnknownColor("accent"@, names.0),
            )
            &&& accent is Some && progress is None ==> result == Err::<
                ThemeColors,
                ConfigErrorView,
            >(ConfigErrorView::UnknownColor("progress"@, names.1))
            &&& accent is Some && progress is Some && dim is None ==> result == Err::<
                ThemeColors,
                ConfigErrorView,
            >(ConfigErrorView::UnknownColor("dim"@, names.2))
        }),
{
}

/// An error says what was being done and, behind it, what is known of the
/// trouble.
pub proof fn errors_end_in_their_detail(detail: String)
    ensures
        AuthError::Login(detail).text() == "oauth login failed: "@ + detail@,
        AuthError::Refresh(detail).text() == "token refresh failed: "@ + detail@,
        AuthError::Keychain(detail).text() == "keychain access failed: "@ + detail@,
        AuthError::Mapping(detail).text() == "token mapping failed: "@ + detail@,
        ApiError::Request(detail).text() == "spotify api request failed: "@ + detail@,
        ApiError::Response(detail).text() == "spotify api returned an error: "@ + detail@,
        ApiError::Mapping(detail).text() == "failed to map spotify response: "@ + detail@,
        PlayerError::Session(detail).text() == "streaming session error: "@ + detail@,
        PlayerError::Control(detail).text() == "playback control failed: "@ + detail@,
        PlayerError::AudioBackend(detail).text() == "audio backend error: "@ + detail@,
        PlayerError::PremiumRequired.text() == "spotify premium is required for streaming"@,
        IpcError::Socket(detail).text() == "ipc socket error: "@ + detail@,
        IpcError::Payload(detail).text() == "ipc payload error: "@ + detail@,
        IpcError::Timeout.text() == "ipc request timed out"@,
        reconnect_failure(detail@) == "streaming reconnect failed: "@ + detail@,
{
}

/// A configuration error names both actions of a conflict, or the entry and the
/// name that is no color.
pub proof fn configuration_errors_name_their_cause(
    first: &'static str,
    second: &'static str,
    name: String,
)
    ensures
        (ConfigError::DuplicateKey { first, second }).text() == "keybindings conflict: "@ + first@
            + " and "@ + second@,
        (ConfigError::UnknownColor { entry: first, name }).text() == "invalid theme color for "@
            + first@ + ": "@ + name@,
{
}

} // verus!
