//! The Web API client's rules: which requests are made, how rows are mapped,
//! how errors are classified, and when a call is retried.
//!
//! Track lists are parsed with the lenient `Raw*` shapes below: a row that
//! Spotify strips down (a local playlist file, a relinked ghost) must never fail
//! the page it is on. Only still-live endpoints are asked for.

use rspotify::model::{AlbumId as RsAlbumId, PlaylistId as RsPlaylistId, TrackId as RsTrackId};
use vstd::prelude::*;
use vstd::string::*;
use crate::api::SEARCH_LIMIT_MAX;
use crate::error::{ApiError, ApiErrorView};
use crate::model::{
    clone_art, AlbumArtImage, AlbumId, AlbumItem, AlbumView, ArtistId, ArtistItem, ArtistView,
    ArtView, PlaylistId, PlaylistItem, PlaylistView, TimeRange, TrackId, TrackItem, TrackView,
};
use crate::text::{
    chars_of, decimal, decimal_of, parse_u64, push_decimal, same_text, separate, separated,
    spelled_u64, trim_chars, trimmed, view_of, views,
};

verus! {

/// Page size for non-search library/discovery queries. Spotify caps most of
/// these endpoints at 50 items per request.
pub const PAGE_LIMIT: u32 = 50;

/// Spotify's hard cap for the recently-played endpoint.
pub const RECENTLY_PLAYED_MAX: u32 = 50;

/// Cap on paginated library fetches (playlists, saved albums): pages × 50 items.
pub const MAX_LIBRARY_PAGES: u32 = 40;

/// Maximum automatic retries on HTTP 429 before surfacing the error.
pub const MAX_RATE_LIMIT_RETRIES: u32 = 2;

/// Backoff used when a 429 response carries no `Retry-After` header.
pub const DEFAULT_RETRY_SECS: u64 = 2;

/// Cap on how long a single `Retry-After` is honored, to bound UI latency.
pub const MAX_RETRY_SECS: u64 = 60;

/// Lenient track object: only the fields the UI renders, so a stripped-down row
/// (local file, relinked ghost) never fails a page.
#[derive(Debug, PartialEq, Eq)]
pub struct RawTrack {
    pub id: Option<String>,
    pub name: String,
    pub artists: Vec<RawArtist>,
    pub album: RawAlbumRef,
    pub duration_ms: u64,
    /// `"track"` or `"episode"`; playlists can contain both.
    pub kind: Option<String>,
}

/// An artist of a [`RawTrack`].
#[derive(Debug, PartialEq, Eq)]
pub struct RawArtist {
    pub name: String,
}

/// The album of a [`RawTrack`].
#[derive(Debug, PartialEq, Eq)]
pub struct RawAlbumRef {
    pub name: String,
    pub images: Vec<RawImage>,
}

/// A cover of a [`RawAlbumRef`].
#[derive(Debug, PartialEq, Eq)]
pub struct RawImage {
    pub url: String,
    pub width: Option<u32>,
    pub height: Option<u32>,
}

/// A page of bare track objects (`/me/top/tracks`, search's `tracks.items`).
#[derive(Debug, PartialEq, Eq)]
pub struct RawTrackPage {
    pub items: Vec<RawTrack>,
}

/// A page of wrapped track rows (`{"items": [{"track": {…}}]}`): playlist
/// items, saved tracks, and recently played all share this shape.
#[derive(Debug, PartialEq, Eq)]
pub struct RawTrackEntries {
    pub items: Vec<RawTrackEntry>,
}

/// A wrapped track row; empty slots hold nothing.
#[derive(Debug, PartialEq, Eq)]
pub struct RawTrackEntry {
    pub track: Option<RawTrack>,
}

/// The `tracks` lane of a search response.
#[derive(Debug, PartialEq, Eq)]
pub struct RawSearchTracks {
    pub tracks: RawTrackPage,
}

/// What a [`RawTrack`] stands for.
#[verifier::ext_equal]
pub struct RawTrackView {
    pub id: Option<Seq<char>>,
    pub name: Seq<char>,
    pub artists: Seq<Seq<char>>,
    pub album: Seq<char>,
    pub images: Seq<ArtView>,
    pub duration_ms: u64,
    pub kind: Option<Seq<char>>,
}

impl View for RawArtist {
    type V = Seq<char>;

    open spec fn view(&self) -> Seq<char> {
        self.name@
    }
}

impl View for RawImage {
    type V = ArtView;

    open spec fn view(&self) -> ArtView {
        ArtView { url: self.url@, width: self.width, height: self.height }
    }
}

impl View for RawTrack {
    type V = RawTrackView;

    open spec fn view(&self) -> RawTrackView {
        RawTrackView {
            id: view_of(self.id),
            name: self.name@,
            artists: views(self.artists@),
            album: self.album.name@,
            images: views(self.album.images@),
            duration_ms: self.duration_ms,
            kind: view_of(self.kind),
        }
    }
}

impl View for RawTrackEntry {
    type V = Option<RawTrackView>;

    open spec fn view(&self) -> Option<RawTrackView> {
        view_of(self.track)
    }
}

/// A text, or the empty one where there is none.
pub open spec fn text_or_empty(text: Option<Seq<char>>) -> Seq<char> {
    match text {
        Some(text) => text,
        None => Seq::empty(),
    }
}

/// A duration held to the range that rows can hold.
pub open spec fn row_duration(ms: int) -> u32 {
    if ms < 0 {
        0
    } else if ms <= u32::MAX {
        ms as u32
    } else {
        u32::MAX
    }
}

/// The row of a lenient raw track. A local track keeps an empty id: it is
/// still shown, and not playable.
pub open spec fn row_of_raw(track: RawTrackView) -> TrackView {
    TrackView {
        id: text_or_empty(track.id),
        title: track.name,
        artist: separated(track.artists, ", "@),
        album: track.album,
        duration_ms: row_duration(track.duration_ms as int),
        album_art_images: track.images,
    }
}

/// The rows of wrapped entries: empty slots and non-track rows (episodes) are
/// dropped.
pub open spec fn rows_of_entries(entries: Seq<Option<RawTrackView>>) -> Seq<TrackView>
    decreases entries.len(),
{
    if entries.len() == 0 {
        Seq::empty()
    } else {
        let before = rows_of_entries(entries.drop_last());
        match entries.last() {
            Some(track) => if track.kind == Some("track"@) {
                before.push(row_of_raw(track))
            } else {
                before
            },
            None => before,
        }
    }
}

/// A text, or the empty one where there is none.
fn or_empty(text: &Option<String>) -> (result: String)
    ensures
        result@ == text_or_empty(view_of(*text)),
{
    match text {
        Some(text) => text.clone(),
        None => {
            let result = String::new();
            assert(result@ =~= Seq::<char>::empty());
            result
        },
    }
}

/// The names of `artists`, `", "`-separated.
fn join_raw_artists(artists: &Vec<RawArtist>) -> (text: String)
    ensures
        text@ == separated(views(artists@), ", "@),
{
    let mut names: Vec<String> = Vec::new();
    let mut i: usize = 0;
    while i < artists.len()
        invariant
            i <= artists@.len(),
            names@.len() == i,
            forall|k: int| 0 <= k < i ==> (#[trigger] names@[k])@ == artists@[k]@,
        decreases artists@.len() - i,
    {
        names.push(artists[i].name.clone());
        i = i + 1;
    }
    assert(views(names@) =~= views(artists@));
    separate(&names, ", ")
}

/// The covers of a raw album.
fn raw_images(images: &Vec<RawImage>) -> (result: Vec<AlbumArtImage>)
    ensures
        views(result@) == views(images@),
{
    let mut result: Vec<AlbumArtImage> = Vec::new();
    let mut i: usize = 0;
    while i < images.len()
        invariant
            i <= images@.len(),
            result@.len() == i,
            forall|k: int| 0 <= k < i ==> (#[trigger] result@[k])@ == images@[k]@,
        decreases images@.len() - i,
    {
        let image = &images[i];
        result.push(
            AlbumArtImage { url: image.url.clone(), width: image.width, height: image.height },
        );
        i = i + 1;
    }
    assert(views(result@) =~= views(images@));
    result
}

/// The row of a lenient raw track.
fn raw_row(track: &RawTrack) -> (item: TrackItem)
    ensures
        item@ == row_of_raw(track@),
{
    TrackItem {
        id: TrackId(or_empty(&track.id)),
        title: track.name.clone(),
        artist: join_raw_artists(&track.artists),
        album: track.album.name.clone(),
        duration_ms: if track.duration_ms <= u32::MAX as u64 {
            track.duration_ms as u32
        } else {
            u32::MAX
        },
        album_art_images: raw_images(&track.album.images),
    }
}

/// Map a lenient raw track into the UI's [`TrackItem`]. Local tracks keep an
/// empty id (still rendered, not playable).
pub fn lenient_track_item(track: RawTrack) -> (item: TrackItem)
    ensures
        item@ == row_of_raw(track@),
{
    raw_row(&track)
}

/// Whether the row is a track.
fn is_track(track: &RawTrack) -> (yes: bool)
    ensures
        yes == (track@.kind == Some("track"@)),
{
    match &track.kind {
        Some(kind) => same_text(kind.as_str(), "track"),
        None => false,
    }
}

/// Flatten wrapped track rows, dropping empty slots and non-track rows
/// (episodes).
pub fn lenient_track_items(entries: RawTrackEntries) -> (items: Vec<TrackItem>)
    ensures
        views(items@) == rows_of_entries(views(entries.items@)),
{
    let ghost all = views(entries.items@);
    let mut items: Vec<TrackItem> = Vec::new();
    let mut i: usize = 0;
    assert(views(items@) =~= rows_of_entries(all.take(0)));
    while i < entries.items.len()
        invariant
            i <= entries.items@.len(),
            all == views(entries.items@),
            views(items@) == rows_of_entries(all.take(i as int)),
        decreases entries.items@.len() - i,
    {
        proof {
            assert(all.take(i + 1).drop_last() =~= all.take(i as int));
            assert(all.take(i + 1).last() == entries.items@[i as int]@);
        }
        if let Some(track) = &entries.items[i].track {
            if is_track(track) {
                let ghost before = views(items@);
                items.push(raw_row(track));
                assert(views(items@) =~= before.push(row_of_raw(track@)));
            }
        }
        i = i + 1;
    }
    assert(all.take(i as int) =~= all);
    items
}

/// The rows of bare tracks, one for each.
pub open spec fn rows_of_page(tracks: Seq<RawTrackView>) -> Seq<TrackView> {
    Seq::new(tracks.len(), |i: int| row_of_raw(tracks[i]))
}

/// The rows of a page of bare tracks, one for each.
pub fn lenient_page_items(page: RawTrackPage) -> (items: Vec<TrackItem>)
    ensures
        views(items@) == rows_of_page(views(page.items@)),
{
    let mut items: Vec<TrackItem> = Vec::new();
    let mut i: usize = 0;
    while i < page.items.len()
        invariant
            i <= page.items@.len(),
            items@.len() == i,
            forall|k: int| 0 <= k < i ==> (#[trigger] items@[k])@ == row_of_raw(page.items@[k]@),
        decreases page.items@.len() - i,
    {
        items.push(raw_row(&page.items[i]));
        i = i + 1;
    }
    assert(views(items@) =~= rows_of_page(views(page.items@)));
    items
}

/// An artist, as albums and tracks carry it.
#[derive(Debug, PartialEq, Eq)]
pub struct SimplifiedArtist {
    pub name: String,
}

impl View for SimplifiedArtist {
    type V = Seq<char>;

    open spec fn view(&self) -> Seq<char> {
        self.name@
    }
}

/// A cover, as the Web API describes it.
#[derive(Debug, PartialEq, Eq)]
pub struct Image {
    pub url: String,
    pub width: Option<u32>,
    pub height: Option<u32>,
}

impl View for Image {
    type V = ArtView;

    open spec fn view(&self) -> ArtView {
        ArtView { url: self.url@, width: self.width, height: self.height }
    }
}

/// An artist with an id.
#[derive(Debug, PartialEq, Eq)]
pub struct FullArtist {
    pub id: String,
    pub name: String,
}

/// An album with an id.
#[derive(Debug, PartialEq, Eq)]
pub struct FullAlbum {
    pub id: String,
    pub name: String,
    pub artists: Vec<SimplifiedArtist>,
}

/// An album in search results; placeholders have no id.
#[derive(Debug, PartialEq, Eq)]
pub struct SimplifiedAlbum {
    pub id: Option<String>,
    pub name: String,
    pub artists: Vec<SimplifiedArtist>,
}

/// A track of an album, without metadata of the album.
#[derive(Debug, PartialEq, Eq)]
pub struct SimplifiedTrack {
    pub id: Option<String>,
    pub name: String,
    pub artists: Vec<SimplifiedArtist>,
    pub duration_ms: i64,
}

/// A playlist, with its owner and size.
#[derive(Debug, PartialEq, Eq)]
pub struct SimplifiedPlaylist {
    pub id: String,
    pub name: String,
    pub owner_display_name: Option<String>,
    pub owner_id: String,
    pub total: u32,
}

/// Join the names of `artists` into a display string (`", "`-separated).
pub fn join_artists(artists: &Vec<SimplifiedArtist>) -> (text: String)
    ensures
        text@ == separated(views(artists@), ", "@),
{
    let mut names: Vec<String> = Vec::new();
    let mut i: usize = 0;
    while i < artists.len()
        invariant
            i <= artists@.len(),
            names@.len() == i,
            forall|k: int| 0 <= k < i ==> (#[trigger] names@[k])@ == artists@[k]@,
        decreases artists@.len() - i,
    {
        names.push(artists[i].name.clone());
        i = i + 1;
    }
    assert(views(names@) =~= views(artists@));
    separate(&names, ", ")
}

/// Preserve Spotify's album-cover candidates so the TUI can choose the smallest
/// image that satisfies the current terminal art pane.
pub fn album_art_images(images: &Vec<Image>) -> (result: Vec<AlbumArtImage>)
    ensures
        views(result@) == views(images@),
{
    let mut result: Vec<AlbumArtImage> = Vec::new();
    let mut i: usize = 0;
    while i < images.len()
        invariant
            i <= images@.len(),
            result@.len() == i,
            forall|k: int| 0 <= k < i ==> (#[trigger] result@[k])@ == images@[k]@,
        decreases images@.len() - i,
    {
        let image = &images[i];
        result.push(
            AlbumArtImage { url: image.url.clone(), width: image.width, height: image.height },
        );
        i = i + 1;
    }
    assert(views(result@) =~= views(images@));
    result
}

/// The row of a full album.
pub open spec fn row_of_album(album: FullAlbum) -> AlbumView {
    AlbumView {
        id: album.id@,
        name: album.name@,
        artist: separated(views(album.artists@), ", "@),
    }
}

/// Map a [`FullAlbum`] into an [`AlbumItem`].
pub fn map_full_album(album: &FullAlbum) -> (item: AlbumItem)
    ensures
        item@ == row_of_album(*album),
{
    AlbumItem {
        id: AlbumId(album.id.clone()),
        name: album.name.clone(),
        artist: join_artists(&album.artists),
    }
}

/// The row of an album in search results, where it has an id.
pub open spec fn row_of_found_album(album: SimplifiedAlbum) -> Option<AlbumView> {
    match album.id {
        Some(id) => Some(
            AlbumView {
                id: id@,
                name: album.name@,
                artist: separated(views(album.artists@), ", "@),
            },
        ),
        None => None,
    }
}

/// Map a [`SimplifiedAlbum`] into an [`AlbumItem`].
///
/// Returns `None` when the album has no id (Spotify occasionally returns
/// id-less placeholders); such rows cannot be acted on and are dropped.
pub fn map_simplified_album(album: &SimplifiedAlbum) -> (item: Option<AlbumItem>)
    ensures
        view_of(item) == row_of_found_album(*album),
{
    match &album.id {
        Some(id) => Some(
            AlbumItem {
                id: AlbumId(id.clone()),
                name: album.name.clone(),
                artist: join_artists(&album.artists),
            },
        ),
        None => None,
    }
}

/// The rows of albums in search results: those with an id.
pub open spec fn rows_of_found_albums(albums: Seq<SimplifiedAlbum>) -> Seq<AlbumView>
    decreases albums.len(),
{
    if albums.len() == 0 {
        Seq::empty()
    } else {
        let before = rows_of_found_albums(albums.drop_last());
        match row_of_found_album(albums.last()) {
            Some(row) => before.push(row),
            None => before,
        }
    }
}

/// The rows of albums in search results, dropping those without an id.
pub fn map_simplified_albums(albums: &Vec<SimplifiedAlbum>) -> (items: Vec<AlbumItem>)
    ensures
        views(items@) == rows_of_found_albums(albums@),
{
    let mut items: Vec<AlbumItem> = Vec::new();
    let mut i: usize = 0;
    assert(views(items@) =~= rows_of_found_albums(albums@.take(0)));
    while i < albums.len()
        invariant
            i <= albums@.len(),
            views(items@) == rows_of_found_albums(albums@.take(i as int)),
        decreases albums@.len() - i,
    {
        assert(albums@.take(i + 1).drop_last() =~= albums@.take(i as int));
        let ghost before = views(items@);
        if let Some(item) = map_simplified_album(&albums[i]) {
            items.push(item);
            assert(views(items@) =~= before.push(item@));
        }
        i = i + 1;
    }
    assert(albums@.take(i as int) =~= albums@);
    items
}

/// The row of a track of an album, with the name and the covers of the album.
pub open spec fn row_of_album_track(
    track: SimplifiedTrack,
    album_name: Seq<char>,
    art: Seq<ArtView>,
) -> TrackView {
    TrackView {
        id: text_or_empty(view_of(track.id)),
        title: track.name@,
        artist: separated(views(track.artists@), ", "@),
        album: album_name,
        duration_ms: row_duration(track.duration_ms as int),
        album_art_images: art,
    }
}

/// Map an album's [`SimplifiedTrack`] into a [`TrackItem`], carrying the album
/// name and cover candidates (a simplified track lacks its own album metadata).
pub fn map_album_track(
    track: &SimplifiedTrack,
    album_name: &str,
    art: &Vec<AlbumArtImage>,
) -> (item: TrackItem)
    ensures
        item@ == row_of_album_track(*track, album_name@, views(art@)),
{
    let duration_ms: u32 = if track.duration_ms < 0 {
        0
    } else if track.duration_ms <= u32::MAX as i64 {
        track.duration_ms as u32
    } else {
        u32::MAX
    };
    TrackItem {
        id: TrackId(or_empty(&track.id)),
        title: track.name.clone(),
        artist: join_artists(&track.artists),
        album: album_name.to_owned(),
        duration_ms,
        album_art_images: clone_art(art),
    }
}

/// The rows of an album's tracks, one for each.
pub fn map_album_tracks(
    tracks: &Vec<SimplifiedTrack>,
    album_name: &str,
    images: &Vec<Image>,
) -> (items: Vec<TrackItem>)
    ensures
        items@.len() == tracks@.len(),
        forall|i: int|
            0 <= i < tracks@.len() ==> (#[trigger] items@[i])@ == row_of_album_track(
                tracks@[i],
                album_name@,
                views(images@),
            ),
{
    let art = album_art_images(images);
    let mut items: Vec<TrackItem> = Vec::new();
    let mut i: usize = 0;
    while i < tracks.len()
        invariant
            i <= tracks@.len(),
            items@.len() == i,
            views(art@) == views(images@),
            forall|k: int|
                0 <= k < i ==> (#[trigger] items@[k])@ == row_of_album_track(
                    tracks@[k],
                    album_name@,
                    views(images@),
                ),
        decreases tracks@.len() - i,
    {
        items.push(map_album_track(&tracks[i], album_name, &art));
        i = i + 1;
    }
    items
}

/// Map a [`FullArtist`] into an [`ArtistItem`].
pub fn map_full_artist(artist: &FullArtist) -> (item: ArtistItem)
    ensures
        item@ == (ArtistView { id: artist.id@, name: artist.name@ }),
{
    ArtistItem { id: ArtistId(artist.id.clone()), name: artist.name.clone() }
}

/// The row of a playlist: its owner shows by name, or by id where the name is
/// missing or empty.
pub open spec fn row_of_playlist(playlist: SimplifiedPlaylist) -> PlaylistView {
    PlaylistView {
        id: playlist.id@,
        name: playlist.name@,
        owner: match playlist.owner_display_name {
            Some(name) => if name@.len() > 0 {
                name@
            } else {
                playlist.owner_id@
            },
            None => playlist.owner_id@,
        },
        track_count: playlist.total,
    }
}

/// Map a [`SimplifiedPlaylist`] into a [`PlaylistItem`].
///
/// Falls back to the owner id where the owner has no display name.
pub fn map_simplified_playlist(playlist: &SimplifiedPlaylist) -> (item: PlaylistItem)
    ensures
        item@ == row_of_playlist(*playlist),
{
    let owner: String = match &playlist.owner_display_name {
        Some(name) => if name.as_str().is_empty() {
            playlist.owner_id.clone()
        } else {
            name.clone()
        },
        None => playlist.owner_id.clone(),
    };
    PlaylistItem {
        id: PlaylistId(playlist.id.clone()),
        name: playlist.name.clone(),
        owner,
        track_count: playlist.total,
    }
}

/// The Web API's query-string value of a time range.
pub open spec fn time_range_text(range: TimeRange) -> Seq<char> {
    match range {
        TimeRange::ShortTerm => "short_term"@,
        TimeRange::MediumTerm => "medium_term"@,
        TimeRange::LongTerm => "long_term"@,
    }
}

/// Map our [`TimeRange`] to the Web API's query-string value.
pub fn time_range_param(range: TimeRange) -> (text: &'static str)
    ensures
        text@ == time_range_text(range),
{
    match range {
        TimeRange::ShortTerm => "short_term",
        TimeRange::MediumTerm => "medium_term",
        TimeRange::LongTerm => "long_term",
    }
}

/// A GET request: the endpoint below the API root, and its query parameters.
#[derive(Debug, PartialEq, Eq)]
pub struct ApiRequest {
    pub endpoint: String,
    pub params: Vec<QueryParam>,
}

/// A query parameter.
#[derive(Debug, PartialEq, Eq)]
pub struct QueryParam {
    pub name: &'static str,
    pub value: String,
}

impl View for QueryParam {
    type V = (Seq<char>, Seq<char>);

    open spec fn view(&self) -> (Seq<char>, Seq<char>) {
        (self.name@, self.value@)
    }
}

impl View for ApiRequest {
    type V = (Seq<char>, Seq<(Seq<char>, Seq<char>)>);

    open spec fn view(&self) -> (Seq<char>, Seq<(Seq<char>, Seq<char>)>) {
        (self.endpoint@, views(self.params@))
    }
}

/// A request with no parameters yet.
fn request(endpoint: String) -> (result: ApiRequest)
    ensures
        result@ == (endpoint@, Seq::<(Seq<char>, Seq<char>)>::empty()),
{
    let result = ApiRequest { endpoint, params: Vec::new() };
    assert(views(result.params@) =~= Seq::<(Seq<char>, Seq<char>)>::empty());
    result
}

/// Adds a query parameter.
fn add_param(request: &mut ApiRequest, name: &'static str, value: String)
    ensures
        final(request)@ == (old(request)@.0, old(request)@.1.push((name@, value@))),
{
    request.params.push(QueryParam { name, value });
    assert(views(request.params@) =~= old(request)@.1.push((name@, value@)));
}

/// A search limit within what Spotify accepts.
pub open spec fn accepted_limit(limit: u32) -> u32 {
    if limit < 1 {
        1
    } else if limit > SEARCH_LIMIT_MAX {
        SEARCH_LIMIT_MAX
    } else {
        limit
    }
}

/// Clamp a search limit to `1..=`[`SEARCH_LIMIT_MAX`].
pub fn clamp_search_limit(limit: u32) -> (accepted: u32)
    ensures
        accepted == accepted_limit(limit),
        1 <= accepted <= SEARCH_LIMIT_MAX,
{
    if limit < 1 {
        1
    } else if limit > SEARCH_LIMIT_MAX {
        SEARCH_LIMIT_MAX
    } else {
        limit
    }
}

/// The request that searches tracks matching `query`.
pub fn search_tracks_request(query: &str, limit: u32) -> (result: ApiRequest)
    ensures
        result@ == (
            "search"@,
            seq![
                ("q"@, query@),
                ("type"@, "track"@),
                ("limit"@, decimal(accepted_limit(limit) as nat)),
                ("offset"@, "0"@),
            ],
        ),
{
    let mut result = request("search".to_owned());
    add_param(&mut result, "q", query.to_owned());
    add_param(&mut result, "type", "track".to_owned());
    add_param(&mut result, "limit", decimal_of(clamp_search_limit(limit) as u64));
    add_param(&mut result, "offset", "0".to_owned());
    assert(result@.1 =~= seq![
        ("q"@, query@),
        ("type"@, "track"@),
        ("limit"@, decimal(accepted_limit(limit) as nat)),
        ("offset"@, "0"@),
    ]);
    result
}

/// Whether `id` is made of ASCII letters and digits only.
pub open spec fn is_plain_id(id: Seq<char>) -> bool {
    forall|i: int| 0 <= i < id.len() ==> is_ascii_alphanumeric(#[trigger] id[i])
}

/// Whether `c` is an ASCII letter or digit.
pub open spec fn is_ascii_alphanumeric(c: char) -> bool {
    let code = c as u32;
    0x30 <= code <= 0x39 || 0x41 <= code <= 0x5a || 0x61 <= code <= 0x7a
}

/// rspotify's `PlaylistId::from_id` accepts an id made of ASCII letters and
/// digits only, the empty one among them, and rejects any other as
/// `InvalidId`, which is what the error shows.
#[verifier::external_body]
fn check_playlist_id(id: &str) -> (result: Result<(), String>)
    ensures
        result is Ok == is_plain_id(id@),
        result is Err ==> result->Err_0@ == "InvalidId"@,
{
    RsPlaylistId::from_id(id).map(|_| ()).map_err(|e| e.to_string())
}

/// rspotify's `AlbumId::from_id` accepts an id made of ASCII letters and digits
/// only, the empty one among them, and rejects any other as `InvalidId`, which
/// is what the error shows.
#[verifier::external_body]
fn check_album_id(id: &str) -> (result: Result<(), String>)
    ensures
        result is Ok == is_plain_id(id@),
        result is Err ==> result->Err_0@ == "InvalidId"@,
{
    RsAlbumId::from_id(id).map(|_| ()).map_err(|e| e.to_string())
}

/// rspotify's `TrackId::from_id` accepts an id made of ASCII letters and digits
/// only, the empty one among them, and rejects any other as `InvalidId`, which
/// is what the error shows.
#[verifier::external_body]
fn check_track_id(id: &str) -> (result: Result<(), String>)
    ensures
        result is Ok == is_plain_id(id@),
        result is Err ==> result->Err_0@ == "InvalidId"@,
{
    RsTrackId::from_id(id).map(|_| ()).map_err(|e| e.to_string())
}

/// The error for an id that is not one.
pub open spec fn invalid_id(what: Seq<char>, id: Seq<char>) -> ApiErrorView {
    ApiErrorView::Mapping("invalid "@ + what + " id "@ + id + ": "@ + "InvalidId"@)
}

/// The error for an id that is not one.
fn invalid_id_error(what: &str, id: &str, detail: &str) -> (error: ApiError)
    ensures
        error@ == ApiErrorView::Mapping("invalid "@ + what@ + " id "@ + id@ + ": "@ + detail@),
{
    let mut text = "invalid ".to_owned();
    text.append(what);
    text.append(" id ");
    text.append(id);
    text.append(": ");
    text.append(detail);
    ApiError::Mapping(text)
}

/// The request that lists a playlist's tracks. The id is checked before it is
/// spliced into the endpoint path.
pub fn playlist_tracks_request(id: &PlaylistId) -> (result: Result<ApiRequest, ApiError>)
    ensures
        result is Ok == is_plain_id(id@),
        result is Ok ==> result->Ok_0@ == (
            "playlists/"@ + id@ + "/tracks"@,
            seq![
                ("limit"@, decimal(PAGE_LIMIT as nat)),
                ("offset"@, "0"@),
                ("additional_types"@, "track"@),
            ],
        ),
        result is Err ==> result->Err_0@ == invalid_id("playlist"@, id@),
{
    match check_playlist_id(id.0.as_str()) {
        Err(detail) => Err(invalid_id_error("playlist", id.0.as_str(), detail.as_str())),
        Ok(()) => {
            let mut endpoint = "playlists/".to_owned();
            endpoint.append(id.0.as_str());
            endpoint.append("/tracks");
            let mut result = request(endpoint);
            add_param(&mut result, "limit", decimal_of(PAGE_LIMIT as u64));
            add_param(&mut result, "offset", "0".to_owned());
            add_param(&mut result, "additional_types", "track".to_owned());
            assert(result@.1 =~= seq![
                ("limit"@, decimal(PAGE_LIMIT as nat)),
                ("offset"@, "0"@),
                ("additional_types"@, "track"@),
            ]);
            Ok(result)
        },
    }
}

/// Checks an album id before the album is asked for.
pub fn check_album(id: &AlbumId) -> (result: Result<(), ApiError>)
    ensures
        result is Ok == is_plain_id(id@),
        result is Err ==> result->Err_0@ == invalid_id("album"@, id@),
{
    match check_album_id(id.0.as_str()) {
        Err(detail) => Err(invalid_id_error("album", id.0.as_str(), detail.as_str())),
        Ok(()) => Ok(()),
    }
}

/// Checks a track id before the library is asked about it.
pub fn check_track(id: &TrackId) -> (result: Result<(), ApiError>)
    ensures
        result is Ok == is_plain_id(id@),
        result is Err ==> result->Err_0@ == invalid_id("track"@, id@),
{
    match check_track_id(id.0.as_str()) {
        Err(detail) => Err(invalid_id_error("track", id.0.as_str(), detail.as_str())),
        Ok(()) => Ok(()),
    }
}

/// The request for the user's top tracks.
pub fn top_tracks_request(range: TimeRange) -> (result: ApiRequest)
    ensures
        result@ == (
            "me/top/tracks"@,
            seq![
                ("time_range"@, time_range_text(range)),
                ("limit"@, decimal(PAGE_LIMIT as nat)),
                ("offset"@, "0"@),
            ],
        ),
{
    let mut result = request("me/top/tracks".to_owned());
    add_param(&mut result, "time_range", time_range_param(range).to_owned());
    add_param(&mut result, "limit", decimal_of(PAGE_LIMIT as u64));
    add_param(&mut result, "offset", "0".to_owned());
    assert(result@.1 =~= seq![
        ("time_range"@, time_range_text(range)),
        ("limit"@, decimal(PAGE_LIMIT as nat)),
        ("offset"@, "0"@),
    ]);
    result
}

/// The request for the user's recently played tracks.
pub fn recently_played_request() -> (result: ApiRequest)
    ensures
        result@ == (
            "me/player/recently-played"@,
            seq![("limit"@, decimal(RECENTLY_PLAYED_MAX as nat))],
        ),
{
    let mut result = request("me/player/recently-played".to_owned());
    add_param(&mut result, "limit", decimal_of(RECENTLY_PLAYED_MAX as u64));
    assert(result@.1 =~= seq![("limit"@, decimal(RECENTLY_PLAYED_MAX as nat))]);
    result
}

/// The request for the user's saved tracks.
pub fn saved_tracks_request() -> (result: ApiRequest)
    ensures
        result@ == (
            "me/tracks"@,
            seq![("limit"@, decimal(PAGE_LIMIT as nat)), ("offset"@, "0"@)],
        ),
{
    let mut result = request("me/tracks".to_owned());
    add_param(&mut result, "limit", decimal_of(PAGE_LIMIT as u64));
    add_param(&mut result, "offset", "0".to_owned());
    assert(result@.1 =~= seq![("limit"@, decimal(PAGE_LIMIT as nat)), ("offset"@, "0"@)]);
    result
}

/// The error for a reply that could not be parsed.
pub fn unexpected_payload(endpoint: &str, detail: &str) -> (error: ApiError)
    ensures
        error@ == ApiErrorView::Mapping("unexpected "@ + endpoint@ + " payload: "@ + detail@),
{
    let mut text = "unexpected ".to_owned();
    text.append(endpoint);
    text.append(" payload: ");
    text.append(detail);
    ApiError::Mapping(text)
}

/// Build a [`ApiError`] for a search response whose payload variant did not
/// match the requested type (defensive — Spotify echoes the requested `type`).
pub fn unexpected_search_result(expected: &str, got: &str) -> (error: ApiError)
    ensures
        error@ == ApiErrorView::Mapping(
            "search returned unexpected payload (expected "@ + expected@ + ", got "@ + got@ + ")"@,
        ),
{
    let mut text = "search returned unexpected payload (expected ".to_owned();
    text.append(expected);
    text.append(", got ");
    text.append(got);
    text.append(")");
    ApiError::Mapping(text)
}

/// Whether the first answer says that the track is saved.
pub fn first_contained(contained: &Vec<bool>) -> (saved: bool)
    ensures
        saved == (contained@.len() > 0 && contained@[0]),
{
    contained.len() > 0 && contained[0]
}

/// What an HTTP status means for the caller.
pub open spec fn status_error(status: u16, retry_after_secs: Option<u64>) -> ApiErrorView {
    if status == 401 {
        ApiErrorView::Response("unauthorized (401); access token expired, refresh required"@)
    } else if status == 429 {
        ApiErrorView::RateLimited(retry_after_secs)
    } else {
        ApiErrorView::Response("spotify returned status code "@ + decimal(status as nat))
    }
}

/// Turn an HTTP status code into an [`ApiError`] with caller-facing context.
///
/// `retry_after_secs` is the parsed `Retry-After` header, forwarded on 429 so
/// the retry layer can honor the server's backoff hint.
pub fn classify_status(status: u16, retry_after_secs: Option<u64>) -> (error: ApiError)
    ensures
        error@ == status_error(status, retry_after_secs),
{
    match status {
        401 => ApiError::Response(
            "unauthorized (401); access token expired, refresh required".to_owned(),
        ),
        429 => ApiError::RateLimited { retry_after_secs },
        other => {
            let mut text = "spotify returned status code ".to_owned();
            push_decimal(&mut text, other as u64);
            ApiError::Response(text)
        },
    }
}

/// How an HTTP call failed.
#[derive(Debug, PartialEq, Eq)]
pub enum HttpFailure {
    /// The server answered with an error status; the text of its `Retry-After`
    /// header, where it had one.
    Status { code: u16, retry_after: Option<String> },
    /// There was no answer.
    Transport(String),
}

/// The seconds of a `Retry-After` header, where it holds a number.
pub open spec fn retry_after_value(header: Option<Seq<char>>) -> Option<u64> {
    match header {
        Some(text) => spelled_u64(trimmed(text)),
        None => None,
    }
}

/// What a failed HTTP call means for the caller.
pub open spec fn http_error(failure: HttpFailure) -> ApiErrorView {
    match failure {
        HttpFailure::Status { code, retry_after } => status_error(
            code,
            retry_after_value(view_of(retry_after)),
        ),
        HttpFailure::Transport(detail) => ApiErrorView::Request(detail@),
    }
}

/// Map a failed HTTP call into our [`ApiError`] using the real status code,
/// attaching actionable context for the expired-token (401) and rate-limit
/// (429) cases. Transport failures (no status) become [`ApiError::Request`].
pub fn map_http_error(failure: HttpFailure) -> (error: ApiError)
    ensures
        error@ == http_error(failure),
{
    match failure {
        HttpFailure::Status { code, retry_after } => {
            let seconds: Option<u64> = match &retry_after {
                Some(text) => {
                    let chars = chars_of(text.as_str());
                    parse_u64(&trim_chars(&chars))
                },
                None => None,
            };
            classify_status(code, seconds)
        },
        HttpFailure::Transport(detail) => ApiError::Request(detail),
    }
}

/// How a Web API call failed.
#[derive(Debug, PartialEq, Eq)]
pub enum ClientFailure {
    /// The access token is expired or invalid.
    InvalidToken,
    /// The HTTP call failed.
    Http(HttpFailure),
    /// The reply was not the JSON that was expected.
    ParseJson(String),
    /// The reply did not fit the model.
    Model(String),
    /// Reading or writing failed.
    Io(String),
    /// A URL could not be parsed.
    ParseUrl(String),
    /// The token cache file could not be used.
    CacheFile(String),
    /// The loopback listener got something it could not parse.
    AuthCodeListenerParse(String),
    /// The token callback failed.
    TokenCallbackFn(String),
    /// The loopback listener could not be bound.
    AuthCodeListenerBind { addr: String, detail: String },
    /// The loopback listener failed otherwise.
    AuthCodeListener,
}

/// What a failed Web API call means for the caller.
pub open spec fn client_error(failure: ClientFailure) -> ApiErrorView {
    match failure {
        ClientFailure::InvalidToken => ApiErrorView::Response(
            "access token expired or invalid; refresh required"@,
        ),
        ClientFailure::Http(http) => http_error(http),
        ClientFailure::ParseJson(detail) => ApiErrorView::Mapping(detail@),
        ClientFailure::Model(detail) => ApiErrorView::Mapping(detail@),
        ClientFailure::Io(detail) => ApiErrorView::Request(detail@),
        ClientFailure::ParseUrl(detail) => ApiErrorView::Request(detail@),
        ClientFailure::CacheFile(detail) => ApiErrorView::Request(detail@),
        ClientFailure::AuthCodeListenerParse(detail) => ApiErrorView::Request(detail@),
        ClientFailure::TokenCallbackFn(detail) => ApiErrorView::Response(detail@),
        ClientFailure::AuthCodeListenerBind { addr, detail } => ApiErrorView::Request(
            "oauth listener bind failed on "@ + addr@ + ": "@ + detail@,
        ),
        ClientFailure::AuthCodeListener => ApiErrorView::Request("oauth loopback listener failed"@),
    }
}

/// Map a failed Web API call into our [`ApiError`], distinguishing transport
/// failures from HTTP error statuses and adding context for the expired-token
/// (401) and rate-limit (429) cases the caller must handle.
pub fn map_client_error(failure: ClientFailure) -> (error: ApiError)
    ensures
        error@ == client_error(failure),
{
    match failure {
        ClientFailure::InvalidToken => ApiError::Response(
            "access token expired or invalid; refresh required".to_owned(),
        ),
        ClientFailure::Http(http) => map_http_error(http),
        ClientFailure::ParseJson(detail) => ApiError::Mapping(detail),
        ClientFailure::Model(detail) => ApiError::Mapping(detail),
        ClientFailure::Io(detail) => ApiError::Request(detail),
        ClientFailure::ParseUrl(detail) => ApiError::Request(detail),
        ClientFailure::CacheFile(detail) => ApiError::Request(detail),
        ClientFailure::AuthCodeListenerParse(detail) => ApiError::Request(detail),
        ClientFailure::TokenCallbackFn(detail) => ApiError::Response(detail),
        ClientFailure::AuthCodeListenerBind { addr, detail } => {
            let mut text = "oauth listener bind failed on ".to_owned();
            text.append(addr.as_str());
            text.append(": ");
            text.append(detail.as_str());
            ApiError::Request(text)
        },
        ClientFailure::AuthCodeListener => ApiError::Request(
            "oauth loopback listener failed".to_owned(),
        ),
    }
}

/// What to do about a failed call.
#[derive(Debug, PartialEq, Eq)]
pub enum RetryStep {
    /// Surface the error.
    GiveUp(ApiError),
    /// Wait this many seconds, then call again.
    Wait { secs: u64 },
}

/// How long to back off after a rate limit: what the server hints, or the
/// default, and never longer than the cap.
pub open spec fn backoff_secs(hint: Option<u64>) -> u64 {
    let secs = match hint {
        Some(secs) => secs,
        None => DEFAULT_RETRY_SECS,
    };
    if secs <= MAX_RETRY_SECS {
        secs
    } else {
        MAX_RETRY_SECS
    }
}

/// How long to wait before calling again after `retries` retries, where it is
/// worth calling again: only after a rate limit, and only so many times.
pub open spec fn retry_wait(retries: int, error: ApiErrorView) -> Option<u64> {
    match error {
        ApiErrorView::RateLimited(hint) => if retries < MAX_RATE_LIMIT_RETRIES {
            Some(backoff_secs(hint))
        } else {
            None
        },
        _ => None,
    }
}

/// Decide about a call that failed after `retries` retries: a rate limit is
/// waited out up to [`MAX_RATE_LIMIT_RETRIES`] times, honoring the server's
/// `Retry-After` up to [`MAX_RETRY_SECS`]; any other error is surfaced at once.
pub fn after_failure(retries: u32, failure: ClientFailure) -> (step: RetryStep)
    ensures
        match retry_wait(retries as int, client_error(failure)) {
            Some(secs) => step == (RetryStep::Wait { secs }),
            None => step is GiveUp && step->GiveUp_0@ == client_error(failure),
        },
{
    let error = map_client_error(failure);
    match error {
        ApiError::RateLimited { retry_after_secs } => {
            if retries >= MAX_RATE_LIMIT_RETRIES {
                return RetryStep::GiveUp(ApiError::RateLimited { retry_after_secs });
            }
            let hint: u64 = match retry_after_secs {
                Some(secs) => secs,
                None => DEFAULT_RETRY_SECS,
            };
            RetryStep::Wait {
                secs: if hint <= MAX_RETRY_SECS {
                    hint
                } else {
                    MAX_RETRY_SECS
                },
            }
        },
        other => RetryStep::GiveUp(other),
    }
}

/// The offset of a page.
pub open spec fn offset_of(page: int) -> int {
    page * PAGE_LIMIT
}

/// Walks the pages of a library list by explicit offset: the `next` link of a
/// page only says whether there are more, and is never followed.
#[derive(Debug, Clone, Copy, PartialEq, Eq, Structural)]
pub struct Pager {
    /// Pages fetched so far.
    pub page: u32,
}

impl Pager {
    /// Before the first page.
    pub fn new() -> (pager: Pager)
        ensures
            pager.page == 0,
    {
        Pager { page: 0 }
    }

    /// Whether the page about to be fetched is within the cap.
    pub open spec fn wf(self) -> bool {
        self.page < MAX_LIBRARY_PAGES
    }

    /// The offset of the page to fetch.
    pub fn offset(&self) -> (offset: u32)
        requires
            self.wf(),
        ensures
            offset == offset_of(self.page as int),
    {
        self.page * PAGE_LIMIT
    }

    /// Whether to go on after a page: it said that there are more, it was not
    /// empty, and the cap on pages is not reached. A short page does not end the
    /// list: Spotify can return fewer than the requested items on a non-final
    /// page.
    pub fn advance(&mut self, has_next: bool, items: usize) -> (more: bool)
        requires
            old(self).wf(),
        ensures
            final(self).page == old(self).page + 1,
            more == (has_next && items > 0 && final(self).page < MAX_LIBRARY_PAGES),
            more ==> final(self).wf(),
    {
        self.page = self.page + 1;
        has_next && items > 0 && self.page < MAX_LIBRARY_PAGES
    }

    /// Takes in a fetched page, of one row per item: its rows follow those of the
    /// pages before it. Says whether to go on (see [`Pager::advance`]).
    pub fn take_page<T>(&mut self, rows: &mut Vec<T>, page: Vec<T>, has_next: bool) -> (more: bool)
        requires
            old(self).wf(),
        ensures
            final(rows)@ == old(rows)@ + page@,
            final(self).page == old(self).page + 1,
            more == (has_next && page@.len() > 0 && final(self).page < MAX_LIBRARY_PAGES),
            more ==> final(self).wf(),
    {
        let items: usize = page.len();
        let mut page = page;
        rows.append(&mut page);
        self.advance(has_next, items)
    }
}

/// A call is retried at most [`MAX_RATE_LIMIT_RETRIES`] times, and each wait
/// is at most [`MAX_RETRY_SECS`] long.
pub proof fn retries_are_bounded(retries: int, error: ApiErrorView)
    ensures
        retry_wait(retries, error) is Some ==> retries < MAX_RATE_LIMIT_RETRIES && retry_wait(
            retries,
            error,
        )->0 <= MAX_RETRY_SECS,
{
}

/// Dropping rows never adds any: the rows of entries are at most as many, and
/// all of them where every entry is a track.
pub proof fn entries_are_kept_or_dropped(entries: Seq<Option<RawTrackView>>)
    ensures
        rows_of_entries(entries).len() <= entries.len(),
        (forall|i: int|
            0 <= i < entries.len() ==> (#[trigger] entries[i]) is Some && entries[i]->0.kind
                == Some("track"@)) ==> rows_of_entries(entries).len() == entries.len(),
    decreases entries.len(),
{
    if entries.len() > 0 {
        let shorter = entries.drop_last();
        entries_are_kept_or_dropped(shorter);
        assert forall|i: int| 0 <= i < shorter.len() implies shorter[i]
            == #[trigger] entries[i] by {}
        assert(entries.last() == entries[entries.len() - 1]);
    }
}

} // verus!
