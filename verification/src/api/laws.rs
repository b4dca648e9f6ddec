//! Laws of the Web API client: which rows a page holds, how rows are made, and
//! what a failed call means.

use vstd::prelude::*;
use vstd::string::*;
use crate::api::rspotify_client::{
    accepted_limit, backoff_secs, client_error, http_error, invalid_id, is_ascii_alphanumeric,
    is_plain_id, offset_of, retry_after_value, retry_wait, row_duration, row_of_album,
    row_of_album_track, row_of_found_album, row_of_playlist, row_of_raw, rows_of_entries,
    rows_of_found_albums, rows_of_page, status_error, time_range_text, ClientFailure, FullAlbum,
    HttpFailure, RawTrack, RawTrackView, SimplifiedAlbum, SimplifiedArtist, SimplifiedPlaylist,
    SimplifiedTrack, MAX_LIBRARY_PAGES, PAGE_LIMIT,
};
use crate::error::ApiErrorView;
use crate::model::{ArtView, TimeRange};
use crate::text::{decimal, digit_value, separated, views};
use crate::text_laws::{
    a_list_reads_from_the_front, decimals_are_distinct, numbers_read_back,
    trimming_takes_only_white_space,
};

verus! {

/// The first page starts at the first row, and each further page starts
/// [`PAGE_LIMIT`] rows after the one before it.
pub proof fn each_page_starts_where_the_one_before_ends(page: int)
    ensures
        offset_of(0) == 0,
        offset_of(page + 1) == offset_of(page) + PAGE_LIMIT,
{
    assert((page + 1) * PAGE_LIMIT == page * PAGE_LIMIT + PAGE_LIMIT) by (nonlinear_arith);
}

/// Pages neither overlap nor leave a row out: of the rows within the cap, each
/// is on one page, and on no other.
pub proof fn every_row_is_on_one_page(row: int)
    requires
        0 <= row < MAX_LIBRARY_PAGES * PAGE_LIMIT,
    ensures
        exists|page: int|
            0 <= page < MAX_LIBRARY_PAGES && #[trigger] offset_of(page) <= row < offset_of(page)
                + PAGE_LIMIT,
        forall|a: int, b: int|
            (#[trigger] offset_of(a)) <= row < offset_of(a) + PAGE_LIMIT && (#[trigger] offset_of(
                b,
            )) <= row < offset_of(b) + PAGE_LIMIT ==> a == b,
{
    let page = row / 50;
    assert(offset_of(page) <= row < offset_of(page) + PAGE_LIMIT);
}

/// A page holds fifty rows, and no more than forty pages are walked.
pub proof fn a_library_walk_is_bounded()
    ensures
        PAGE_LIMIT == 50,
        offset_of(MAX_LIBRARY_PAGES as int) == 2000,
{
}

/// A row shows its track: the title, the album, the covers, the duration as far
/// as a row can hold it, and the artists from the first to the last. A track
/// without an id keeps an empty one.
pub proof fn a_row_shows_its_track(track: RawTrack)
    ensures
        ({
            let row = row_of_raw(track@);
            let names = views(track.artists@);
            &&& row.title == track.name@
            &&& row.album == track.album.name@
            &&& track.id is Some ==> row.id == track.id->0@
            &&& track.id is None ==> row.id.len() == 0
            &&& track.duration_ms <= u32::MAX ==> row.duration_ms == track.duration_ms
            &&& track.duration_ms > u32::MAX ==> row.duration_ms == u32::MAX
            &&& row.album_art_images.len() == track.album.images@.len()
            &&& forall|i: int|
                0 <= i < row.album_art_images.len() ==> {
                    let image = track.album.images@[i];
                    let shown = #[trigger] row.album_art_images[i];
                    shown.url == image.url@ && shown.width == image.width && shown.height
                        == image.height
                }
            &&& names.len() == track.artists@.len()
            &&& forall|i: int|
                0 <= i < names.len() ==> #[trigger] names[i] == track.artists@[i].name@
            &&& row.artist == separated(names, ", "@)
            &&& names.len() == 1 ==> row.artist == track.artists@[0].name@
            &&& names.len() == 2 ==> row.artist == track.artists@[0].name@ + ", "@
                + track.artists@[1].name@
        }),
{
    let names = views(track.artists@);
    if names.len() == 1 {
        a_list_reads_from_the_front(names[0], Seq::empty(), ", "@);
        assert(names =~= seq![names[0]] + Seq::<Seq<char>>::empty());
    }
    if names.len() == 2 {
        a_list_reads_from_the_front(names[0], seq![names[1]], ", "@);
        a_list_reads_from_the_front(names[1], Seq::empty(), ", "@);
        assert(names =~= seq![names[0]] + seq![names[1]]);
        assert(seq![names[1]] + Seq::<Seq<char>>::empty() =~= seq![names[1]]);
    }
}

/// The names of artists, in their order.
pub open spec fn names_of(artists: Seq<SimplifiedArtist>) -> Seq<Seq<char>> {
    Seq::new(artists.len(), |i: int| artists[i].name@)
}

/// The names of artists are what they stand for.
proof fn lemma_names(artists: Seq<SimplifiedArtist>)
    ensures
        names_of(artists) == views(artists),
{
    assert(names_of(artists) =~= views(artists));
}

/// A track of an album shows as a track does, with the name and the covers of
/// the album; a negative duration shows as none.
pub proof fn an_album_track_shows_its_album(
    track: SimplifiedTrack,
    album: Seq<char>,
    art: Seq<ArtView>,
)
    ensures
        ({
            let row = row_of_album_track(track, album, art);
            &&& row.title == track.name@
            &&& row.album == album
            &&& row.album_art_images == art
            &&& track.id is Some ==> row.id == track.id->0@
            &&& track.id is None ==> row.id.len() == 0
            &&& 0 <= track.duration_ms <= u32::MAX ==> row.duration_ms == track.duration_ms
            &&& track.duration_ms < 0 ==> row.duration_ms == 0
            &&& track.duration_ms > u32::MAX ==> row.duration_ms == u32::MAX
            &&& row.artist == separated(names_of(track.artists@), ", "@)
        }),
{
    lemma_names(track.artists@);
}

/// Longer tracks have no shorter durations.
pub proof fn durations_keep_their_order(a: int, b: int)
    requires
        a <= b,
    ensures
        row_duration(a) <= row_duration(b),
{
}

/// A page of wrapped rows is mapped row by row, in order: what comes of two
/// runs is what comes of the first and then what comes of the second.
pub proof fn entries_are_mapped_in_order(
    a: Seq<Option<RawTrackView>>,
    b: Seq<Option<RawTrackView>>,
)
    ensures
        rows_of_entries(a + b) == rows_of_entries(a) + rows_of_entries(b),
    decreases b.len(),
{
    if b.len() == 0 {
        assert(a + b =~= a);
        assert(rows_of_entries(a) + rows_of_entries(b) =~= rows_of_entries(a));
    } else {
        entries_are_mapped_in_order(a, b.drop_last());
        assert((a + b).drop_last() =~= a + b.drop_last());
        assert((a + b).last() == b.last());
        assert(rows_of_entries(a + b) =~= rows_of_entries(a) + rows_of_entries(b));
    }
}

/// An entry gives its track's row where it holds a track, and none where it is
/// empty or holds something else, such as an episode.
pub proof fn an_entry_gives_its_track(entry: Option<RawTrackView>)
    ensures
        entry is Some && entry->0.kind == Some("track"@) ==> rows_of_entries(seq![entry]) == seq![
            row_of_raw(entry->0),
        ],
        entry is None || entry->0.kind is None || entry->0.kind->0 != "track"@
            ==> rows_of_entries(seq![entry]).len() == 0,
{
    assert(seq![entry].drop_last() =~= Seq::<Option<RawTrackView>>::empty());
    assert(seq![entry].last() == entry);
    assert(rows_of_entries(Seq::<Option<RawTrackView>>::empty()) =~= Seq::empty());
    if let Some(track) = entry {
        if track.kind == Some("track"@) {
            assert(rows_of_entries(seq![entry]) =~= seq![row_of_raw(track)]);
        }
    }
}

/// Bare tracks are mapped one by one, each at its place.
pub proof fn bare_tracks_keep_their_places(tracks: Seq<RawTrackView>, at: int)
    requires
        0 <= at < tracks.len(),
    ensures
        rows_of_page(tracks).len() == tracks.len(),
        rows_of_page(tracks)[at].title == tracks[at].name,
        rows_of_page(tracks)[at].album == tracks[at].album,
        rows_of_page(tracks)[at].artist == separated(tracks[at].artists, ", "@),
        tracks[at].id is Some ==> rows_of_page(tracks)[at].id == tracks[at].id->0,
{
}

/// An album shows its name, its id and its artists, wherever it comes from; a
/// search result without an id is dropped.
pub proof fn an_album_shows_its_name(album: FullAlbum, found: SimplifiedAlbum)
    ensures
        row_of_album(album).id == album.id@,
        row_of_album(album).name == album.name@,
        row_of_album(album).artist == separated(names_of(album.artists@), ", "@),
        row_of_found_album(found) is Some == found.id is Some,
        found.id is Some ==> {
            let row = row_of_found_album(found)->0;
            &&& row.id == found.id->0@
            &&& row.name == found.name@
            &&& row.artist == separated(names_of(found.artists@), ", "@)
        },
{
    lemma_names(album.artists@);
    lemma_names(found.artists@);
}

/// Albums of a search are mapped in order: what comes of two runs is what comes
/// of the first and then what comes of the second.
pub proof fn found_albums_are_mapped_in_order(a: Seq<SimplifiedAlbum>, b: Seq<SimplifiedAlbum>)
    ensures
        rows_of_found_albums(a + b) == rows_of_found_albums(a) + rows_of_found_albums(b),
    decreases b.len(),
{
    if b.len() == 0 {
        assert(a + b =~= a);
        assert(rows_of_found_albums(a) + rows_of_found_albums(b) =~= rows_of_found_albums(a));
    } else {
        found_albums_are_mapped_in_order(a, b.drop_last());
        assert((a + b).drop_last() =~= a + b.drop_last());
        assert((a + b).last() == b.last());
        assert(rows_of_found_albums(a + b) =~= rows_of_found_albums(a) + rows_of_found_albums(b));
    }
}

/// A single album of a search gives one row where it has an id, and none
/// otherwise.
pub proof fn a_found_album_gives_a_row(album: SimplifiedAlbum)
    ensures
        album.id is Some ==> rows_of_found_albums(seq![album]).len() == 1 && rows_of_found_albums(
            seq![album],
        )[0].id == album.id->0@ && rows_of_found_albums(seq![album])[0].name == album.name@,
        album.id is None ==> rows_of_found_albums(seq![album]).len() == 0,
{
    assert(seq![album].drop_last() =~= Seq::<SimplifiedAlbum>::empty());
    assert(seq![album].last() == album);
    assert(rows_of_found_albums(Seq::<SimplifiedAlbum>::empty()) =~= Seq::empty());
}

/// A playlist shows its name, its size and its owner, who is named by the
/// display name where there is one.
pub proof fn a_playlist_shows_its_owner(playlist: SimplifiedPlaylist)
    ensures
        ({
            let row = row_of_playlist(playlist);
            let named = playlist.owner_display_name;
            &&& row.id == playlist.id@
            &&& row.name == playlist.name@
            &&& row.track_count == playlist.total
            &&& named is Some && named->0@.len() > 0 ==> row.owner == named->0@
            &&& named is None || named->0@.len() == 0 ==> row.owner == playlist.owner_id@
        }),
{
}

/// A search limit is kept where Spotify accepts it, and is the nearest accepted
/// one otherwise.
pub proof fn limits_are_kept_within_range(limit: u32)
    ensures
        1 <= accepted_limit(limit) <= 10,
        1 <= limit <= 10 ==> accepted_limit(limit) == limit,
        limit == 0 ==> accepted_limit(limit) == 1,
        limit > 10 ==> accepted_limit(limit) == 10,
{
}

/// The three time ranges are told apart by how they begin, and all end alike.
pub proof fn time_ranges_are_told_apart(range: TimeRange)
    ensures
        ({
            let text = time_range_text(range);
            &&& text.len() > 5 && text.skip(text.len() - 5) == "_term"@
            &&& range == TimeRange::ShortTerm ==> text.take(text.len() - 5) == "short"@
            &&& range == TimeRange::MediumTerm ==> text.take(text.len() - 5) == "medium"@
            &&& range == TimeRange::LongTerm ==> text.take(text.len() - 5) == "long"@
        }),
{
    reveal_strlit("short_term");
    reveal_strlit("medium_term");
    reveal_strlit("long_term");
    reveal_strlit("short");
    reveal_strlit("medium");
    reveal_strlit("long");
    reveal_strlit("_term");
}

/// The ASCII letters and digits.
proof fn lemma_alphanumeric(c: char)
    ensures
        is_ascii_alphanumeric(c) == ('0' <= c <= '9' || 'A' <= c <= 'Z' || 'a' <= c <= 'z'),
{
}

/// An id is accepted where every character is an ASCII letter or digit, and the
/// error for another names it.
pub proof fn ids_are_letters_and_digits(id: Seq<char>, what: Seq<char>)
    ensures
        is_plain_id(id) == forall|i: int|
            0 <= i < id.len() ==> {
                let c = #[trigger] id[i];
                '0' <= c <= '9' || 'A' <= c <= 'Z' || 'a' <= c <= 'z'
            },
        invalid_id(what, id) == ApiErrorView::Mapping(
            "invalid "@ + what + " id "@ + id + ": "@ + "InvalidId"@,
        ),
{
    assert forall|i: int| 0 <= i < id.len() implies is_ascii_alphanumeric(#[trigger] id[i]) == {
        let c = id[i];
        '0' <= c <= '9' || 'A' <= c <= 'Z' || 'a' <= c <= 'z'
    } by {
        lemma_alphanumeric(id[i]);
    }
}

/// Only status 429 is a rate limit, which passes the server's hint on; any
/// other status is an answer of Spotify's.
pub proof fn only_429_is_a_rate_limit(status: u16, hint: Option<u64>)
    ensures
        status == 429 ==> status_error(status, hint) == ApiErrorView::RateLimited(hint),
        status != 429 ==> status_error(status, hint) is Response,
{
}

/// Other statuses are named in the error, so that two of them never read alike.
pub proof fn statuses_read_differently(a: u16, b: u16, hint: Option<u64>)
    requires
        a != b,
        a != 401 && a != 429,
        b != 401 && b != 429,
    ensures
        status_error(a, hint) != status_error(b, hint),
{
    decimals_are_distinct(a as nat, b as nat);
    let lead = "spotify returned status code "@;
    let left = lead + decimal(a as nat);
    let right = lead + decimal(b as nat);
    assert(left.skip(lead.len() as int) =~= decimal(a as nat));
    assert(right.skip(lead.len() as int) =~= decimal(b as nat));
    assert(status_error(a, hint) == ApiErrorView::Response(left));
    assert(status_error(b, hint) == ApiErrorView::Response(right));
}

/// A hint of the server's in its `Retry-After` header is read whatever blanks
/// are around it, and is what a rate limit passes on.
pub proof fn the_server_hint_is_read(secs: u64, retry_after: String, blanks: nat)
    requires
        retry_after@ == Seq::new(blanks, |i: int| ' ') + decimal(secs as nat),
    ensures
        retry_after_value(Some(retry_after@)) == Some(secs),
        http_error(HttpFailure::Status { code: 429, retry_after: Some(retry_after) })
            == ApiErrorView::RateLimited(Some(secs)),
{
    let space = Seq::new(blanks, |i: int| ' ');
    let text = decimal(secs as nat);
    numbers_read_back(secs);
    lemma_ends_are_digits(secs as nat);
    trimming_takes_only_white_space(space, text, Seq::empty());
    assert(space + text + Seq::<char>::empty() =~= space + text);
}

/// A number in decimal begins and ends with a digit, which is no white space.
proof fn lemma_ends_are_digits(value: nat)
    ensures
        decimal(value).len() > 0,
        digit_value(decimal(value)[0]) is Some,
        digit_value(decimal(value).last()) is Some,
    decreases value,
{
    if value >= 10 {
        lemma_ends_are_digits(value / 10);
    }
}

/// A call that got no answer is a failed request, with what was said of it.
pub proof fn no_answer_is_a_failed_request(detail: String)
    ensures
        http_error(HttpFailure::Transport(detail)) == ApiErrorView::Request(detail@),
        client_error(ClientFailure::Http(HttpFailure::Transport(detail))) == ApiErrorView::Request(
            detail@,
        ),
{
}

/// What a failed call means: a reply that could not be understood is a mapping
/// error, trouble on the way is a request error, and a token that is not
/// accepted is an answer. What was said of the failure is kept.
pub proof fn failures_keep_their_detail(detail: String, addr: String)
    ensures
        client_error(ClientFailure::ParseJson(detail)) == ApiErrorView::Mapping(detail@),
        client_error(ClientFailure::Model(detail)) == ApiErrorView::Mapping(detail@),
        client_error(ClientFailure::Io(detail)) == ApiErrorView::Request(detail@),
        client_error(ClientFailure::ParseUrl(detail)) == ApiErrorView::Request(detail@),
        client_error(ClientFailure::CacheFile(detail)) == ApiErrorView::Request(detail@),
        client_error(ClientFailure::AuthCodeListenerParse(detail)) == ApiErrorView::Request(
            detail@,
        ),
        client_error(ClientFailure::TokenCallbackFn(detail)) == ApiErrorView::Response(detail@),
        client_error(ClientFailure::InvalidToken) is Response,
        client_error(ClientFailure::AuthCodeListener) is Request,
        client_error(ClientFailure::AuthCodeListenerBind { addr, detail }) is Request,
{
}

/// A wait is as long as the server asks for, two seconds where it does not say,
/// and a minute at most.
pub proof fn waits_follow_the_hint(hint: Option<u64>)
    ensures
        hint is Some && hint->0 <= 60 ==> backoff_secs(hint) == hint->0,
        hint is Some && hint->0 > 60 ==> backoff_secs(hint) == 60,
        hint is None ==> backoff_secs(hint) == 2,
{
}

/// A call is made again after a rate limit, twice at most; any other error is
/// surfaced at once.
pub proof fn only_rate_limits_are_retried(retries: int, error: ApiErrorView)
    requires
        retries >= 0,
    ensures
        retry_wait(retries, error) is Some == (error is RateLimited && retries < 2),
        error is RateLimited && error->RateLimited_0 is Some && error->RateLimited_0->0 <= 60
            && retries < 2 ==> retry_wait(retries, error) == error->RateLimited_0,
{
}

} // verus!
