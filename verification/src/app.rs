//! Decisions of the event loop: which cover to load, how replies become
//! messages, when to renew the access token, and how a reconnect proceeds.

use vstd::prelude::*;
use crate::api::SearchResultset;
use crate::clock::Moment;
use crate::error::{ApiError, AuthError, PlayerError};
use crate::layout::{larger, square_edge, square_edge_px, FontSize, Rect};
use crate::message::{Action, ActionView, Message};
use crate::model::{
    AlbumArtImage, AlbumItem, ArtistItem, ArtView, PlaylistItem, SourceView, TrackItem,
    TrackListSource,
};
use crate::state::{LoadPhase, ModelView};
use crate::text::{joined, same_text, view_of, views};
use crate::update::loading::{fetch_of, tracks_answered, tracks_asked};

verus! {

/// Tick interval, in milliseconds, driving search debounce and footer position
/// interpolation.
pub const TICK_INTERVAL_MS: u64 = 250;

/// Fallback cover-art target when the pane is not measured yet.
pub const DEFAULT_ART_EDGE_PX: u32 = 300;

/// Renew the access token this many milliseconds before it expires.
pub const REFRESH_LEAD_MS: u64 = 60_000;

/// Back off this many milliseconds after a failed refresh before retrying.
pub const REFRESH_RETRY_MS: u64 = 30_000;

/// The edge of a cover: the smaller of its known dimensions.
pub open spec fn art_edge(image: ArtView) -> Option<u32> {
    match (image.width, image.height) {
        (Some(width), Some(height)) => Some(
            if width <= height {
                width
            } else {
                height
            },
        ),
        (Some(width), None) => Some(width),
        (None, Some(height)) => Some(height),
        (None, None) => None,
    }
}

/// Conservative square edge for a source image. Spotify art is square in
/// practice, but optional dimensions mean callers must tolerate partial data.
pub fn album_art_edge_px(image: &AlbumArtImage) -> (edge: Option<u32>)
    ensures
        edge == art_edge(image@),
{
    match (image.width, image.height) {
        (Some(width), Some(height)) => Some(
            if width <= height {
                width
            } else {
                height
            },
        ),
        (Some(width), None) => Some(width),
        (None, Some(height)) => Some(height),
        (None, None) => None,
    }
}

/// The square source edge that can fill `area` without cropping.
pub open spec fn pane_edge(area: Rect, font: FontSize) -> Option<int> {
    if area.width == 0 || area.height == 0 {
        None
    } else {
        Some(square_edge(area, font))
    }
}

/// Convert a terminal area plus font cell size into the square source-art edge
/// that can fill it without cropping.
pub fn pane_edge_px(area: Rect, font_size: FontSize) -> (edge: Option<u32>)
    ensures
        match edge {
            Some(edge) => pane_edge(area, font_size) == Some(edge as int),
            None => pane_edge(area, font_size) is None,
        },
{
    if area.width == 0 || area.height == 0 {
        return None;
    }
    Some(square_edge_px(area, font_size))
}

/// Whether the cover at `index` has a known edge of at least `target`.
pub open spec fn large_enough(images: Seq<ArtView>, index: int, target: u32) -> bool {
    0 <= index < images.len() && art_edge(images[index]) is Some && art_edge(images[index])->0
        >= target
}

/// Whether `index` is the first of the smallest covers that are large enough.
pub open spec fn smallest_fit(images: Seq<ArtView>, index: int, target: u32) -> bool {
    &&& large_enough(images, index, target)
    &&& forall|k: int| #[trigger]
        large_enough(images, k, target) ==> art_edge(images[index])->0 < art_edge(images[k])->0 || (
        art_edge(images[index])->0 == art_edge(images[k])->0 && index <= k)
}

/// Whether `index` is the last of the largest covers.
pub open spec fn largest_known(images: Seq<ArtView>, index: int) -> bool {
    &&& large_enough(images, index, 0)
    &&& forall|k: int| #[trigger]
        large_enough(images, k, 0) ==> art_edge(images[index])->0 > art_edge(images[k])->0 || (
        art_edge(images[index])->0 == art_edge(images[k])->0 && index >= k)
}

/// Whether `index` is the cover to show in a pane of the edge `target`: the
/// smallest that fills it, else the largest known, else the first.
pub open spec fn best_cover(images: Seq<ArtView>, index: int, target: u32) -> bool {
    if exists|k: int| large_enough(images, k, target) {
        smallest_fit(images, index, target)
    } else if exists|k: int| large_enough(images, k, 0) {
        largest_known(images, index)
    } else {
        index == 0 && images.len() > 0
    }
}

/// Finds the first of the smallest covers that are large enough.
fn find_smallest_fit(images: &Vec<AlbumArtImage>, target: u32) -> (found: Option<usize>)
    ensures
        match found {
            Some(index) => smallest_fit(views(images@), index as int, target),
            None => forall|k: int| !#[trigger] large_enough(views(images@), k, target),
        },
{
    let mut best: Option<(usize, u32)> = None;
    let mut i: usize = 0;
    let ghost all = views(images@);
    while i < images.len()
        invariant
            i <= images@.len(),
            all == views(images@),
            match best {
                Some((index, edge)) => {
                    &&& index < i
                    &&& large_enough(all, index as int, target)
                    &&& art_edge(all[index as int]) == Some(edge)
                    &&& forall|k: int|
                        k < i && #[trigger] large_enough(all, k, target) ==> edge < art_edge(
                            all[k],
                        )->0 || (edge == art_edge(all[k])->0 && index <= k)
                },
                None => forall|k: int| k < i ==> !#[trigger] large_enough(all, k, target),
            },
        decreases images@.len() - i,
    {
        assert(all[i as int] == images@[i as int]@);
        if let Some(edge) = album_art_edge_px(&images[i]) {
            if edge >= target {
                assert(large_enough(all, i as int, target));
                let better: bool = match best {
                    Some((_, held)) => edge < held,
                    None => true,
                };
                if better {
                    best = Some((i, edge));
                }
            }
        }
        i = i + 1;
    }
    match best {
        Some((index, _)) => Some(index),
        None => None,
    }
}

/// Finds the last of the largest covers.
fn find_largest_known(images: &Vec<AlbumArtImage>) -> (found: Option<usize>)
    ensures
        match found {
            Some(index) => largest_known(views(images@), index as int),
            None => forall|k: int| !#[trigger] large_enough(views(images@), k, 0),
        },
{
    let mut best: Option<(usize, u32)> = None;
    let mut i: usize = 0;
    let ghost all = views(images@);
    while i < images.len()
        invariant
            i <= images@.len(),
            all == views(images@),
            match best {
                Some((index, edge)) => {
                    &&& index < i
                    &&& large_enough(all, index as int, 0)
                    &&& art_edge(all[index as int]) == Some(edge)
                    &&& forall|k: int|
                        k < i && #[trigger] large_enough(all, k, 0) ==> edge > art_edge(all[k])->0
                            || (edge == art_edge(all[k])->0 && index >= k)
                },
                None => forall|k: int| k < i ==> !#[trigger] large_enough(all, k, 0),
            },
        decreases images@.len() - i,
    {
        assert(all[i as int] == images@[i as int]@);
        if let Some(edge) = album_art_edge_px(&images[i]) {
            assert(large_enough(all, i as int, 0));
            let better: bool = match best {
                Some((_, held)) => edge >= held,
                None => true,
            };
            if better {
                best = Some((i, edge));
            }
        }
        i = i + 1;
    }
    match best {
        Some((index, _)) => Some(index),
        None => None,
    }
}

/// Pick the smallest known Spotify cover that satisfies the target edge, or
/// the largest available cover when the pane is bigger than every candidate.
pub fn select_album_art_candidate(
    candidates: &Vec<AlbumArtImage>,
    target_edge_px: u32,
) -> (selected: Option<&AlbumArtImage>)
    ensures
        match selected {
            Some(image) => exists|index: int| #[trigger]
                best_cover(views(candidates@), index, target_edge_px) && 0 <= index
                    < candidates@.len() && *image == candidates@[index],
            None => candidates@.len() == 0,
        },
{
    if let Some(index) = find_smallest_fit(candidates, target_edge_px) {
        assert(best_cover(views(candidates@), index as int, target_edge_px));
        return Some(&candidates[index]);
    }
    if let Some(index) = find_largest_known(candidates) {
        assert(best_cover(views(candidates@), index as int, target_edge_px));
        return Some(&candidates[index]);
    }
    if candidates.len() > 0 {
        assert(best_cover(views(candidates@), 0, target_edge_px));
        Some(&candidates[0])
    } else {
        None
    }
}

/// There is exactly one cover to show, where there is any cover.
pub proof fn the_best_cover_is_unique(images: Seq<ArtView>, a: int, b: int, target: u32)
    requires
        best_cover(images, a, target),
        best_cover(images, b, target),
    ensures
        a == b,
{
}

/// Cover art of the now-playing track: what could be loaded, where it would be
/// shown, and what is loaded or loading.
#[derive(Debug)]
pub struct ArtState {
    /// Spotify-provided candidates for the now-playing track.
    pub candidates: Vec<AlbumArtImage>,
    /// Last measured render area.
    pub area: Option<Rect>,
    /// The URL currently loaded/loading, to skip redundant downloads and reject
    /// results that arrive after the track has already changed.
    pub url: Option<String>,
}

/// Whether the cover loaded from `url` is among `images` and, by the first one
/// that has this URL, at least `target` wide.
pub open spec fn satisfied_by(images: Seq<ArtView>, url: Option<Seq<char>>, target: u32) -> bool {
    url is Some && exists|i: int|
        {
            &&& 0 <= i < images.len()
            &&& (#[trigger] images[i]).url == url->0
            &&& forall|k: int| 0 <= k < i ==> (#[trigger] images[k]).url != url->0
            &&& art_edge(images[i]) is Some
            &&& art_edge(images[i])->0 >= target
        }
}

impl ArtState {
    /// No track, nothing measured, nothing loaded.
    pub fn new() -> (state: ArtState)
        ensures
            state.candidates@.len() == 0,
            state.area is None,
            state.url is None,
    {
        ArtState { candidates: Vec::new(), area: None, url: None }
    }

    /// The edge, in source pixels, that the measured area asks for.
    pub open spec fn target(&self, font: Option<FontSize>) -> u32 {
        match (self.area, font) {
            (Some(area), Some(font)) => match pane_edge(area, font) {
                Some(edge) => edge as u32,
                None => DEFAULT_ART_EDGE_PX,
            },
            _ => DEFAULT_ART_EDGE_PX,
        }
    }

    /// Target edge length, in source pixels, for the measured art render area.
    pub fn target_album_art_edge_px(&self, font: Option<FontSize>) -> (edge: u32)
        ensures
            edge == self.target(font),
    {
        match (self.area, font) {
            (Some(area), Some(font)) => match pane_edge_px(area, font) {
                Some(edge) => edge,
                None => DEFAULT_ART_EDGE_PX,
            },
            _ => DEFAULT_ART_EDGE_PX,
        }
    }

    /// Whether the already-loaded/loading URL is large enough for
    /// `target_edge_px`.
    pub fn current_art_satisfies(&self, target_edge_px: u32) -> (yes: bool)
        ensures
            yes == satisfied_by(views(self.candidates@), view_of(self.url), target_edge_px),
    {
        let ghost all = views(self.candidates@);
        match &self.url {
            None => false,
            Some(url) => {
                let mut i: usize = 0;
                while i < self.candidates.len()
                    invariant
                        i <= self.candidates@.len(),
                        all == views(self.candidates@),
                        view_of(self.url) == Some(url@),
                        forall|k: int| 0 <= k < i ==> (#[trigger] all[k]).url != url@,
                    decreases self.candidates@.len() - i,
                {
                    assert(all[i as int] == self.candidates@[i as int]@);
                    if self.candidates[i].url == *url {
                        let fits: bool = match album_art_edge_px(&self.candidates[i]) {
                            Some(edge) => edge >= target_edge_px,
                            None => false,
                        };
                        return fits;
                    }
                    i = i + 1;
                }
                false
            },
        }
    }

    /// Install the current track's candidates; nothing of them is loaded yet.
    pub fn set_album_art_candidates(&mut self, candidates: Vec<AlbumArtImage>)
        ensures
            final(self).candidates == candidates,
            final(self).url is None,
            final(self).area == old(self).area,
    {
        self.candidates = candidates;
        self.url = None;
    }

    /// Whether a download is due: there are candidates, the pane is measured,
    /// and the best cover for it is neither loaded nor loading.
    pub open spec fn wants(&self, font: FontSize, url: Seq<char>) -> bool {
        let all = views(self.candidates@);
        let target = self.target(Some(font));
        &&& self.area is Some
        &&& !satisfied_by(all, view_of(self.url), target)
        &&& exists|index: int| #[trigger]
            best_cover(all, index, target) && 0 <= index < all.len() && all[index].url == url
        &&& view_of(self.url) != Some(url)
    }

    /// The URL to download for the measured pane, where a download is due; it
    /// counts as loading from then on.
    ///
    /// This keeps normal terminals on Spotify's smaller images, while large
    /// panes upgrade to the wider cover only when it can actually be displayed.
    pub fn maybe_load_responsive_art(&mut self, font: FontSize) -> (url: Option<String>)
        ensures
            final(self).candidates == old(self).candidates,
            final(self).area == old(self).area,
            match url {
                Some(url) => old(self).wants(font, url@) && view_of(final(self).url) == Some(url@),
                None => final(self).url == old(self).url && forall|other: Seq<char>|
                    !#[trigger] old(self).wants(font, other),
            },
    {
        let ghost all = views(self.candidates@);
        if self.area.is_none() {
            return None;
        }
        let target = self.target_album_art_edge_px(Some(font));
        if self.current_art_satisfies(target) {
            return None;
        }
        let url = match select_album_art_candidate(&self.candidates, target) {
            None => {
                return None;
            },
            Some(candidate) => candidate.url.clone(),
        };
        proof {
            let index = choose|index: int| #[trigger]
                best_cover(all, index, target) && 0 <= index < all.len() && all[index].url == url@;
            assert forall|other: Seq<char>| #[trigger] old(self).wants(font, other) implies other
                == url@ by {
                let another = choose|k: int| #[trigger]
                    best_cover(all, k, target) && 0 <= k < all.len() && all[k].url == other;
                the_best_cover_is_unique(all, index, another, target);
            }
        }
        if let Some(held) = &self.url {
            if *held == url {
                return None;
            }
        }
        self.url = Some(url.clone());
        Some(url)
    }

    /// Whether a finished download is still the one wanted, so that a slow
    /// earlier download cannot overwrite newer art.
    pub fn accepts(&self, url: &str) -> (yes: bool)
        ensures
            yes == (view_of(self.url) == Some(url@)),
    {
        match &self.url {
            Some(held) => same_text(held.as_str(), url),
            None => false,
        }
    }
}

/// The track-list source behind a request, where it asks for a track list.
pub open spec fn source_behind(action: ActionView) -> Option<SourceView> {
    match action {
        ActionView::LoadPlaylistTracks(id) => Some(SourceView::Playlist(id)),
        ActionView::LoadAlbumTracks(id) => Some(SourceView::Album(id)),
        ActionView::LoadTopTracks(range) => Some(SourceView::TopTracks(range)),
        ActionView::LoadRecentlyPlayed => Some(SourceView::RecentlyPlayed),
        ActionView::LoadSavedTracks => Some(SourceView::SavedTracks),
        _ => None,
    }
}

/// The track-list source that the reply to `action` is for, where it asks for a
/// track list.
pub fn reply_source(action: &Action) -> (source: Option<TrackListSource>)
    ensures
        view_of(source) == source_behind(action@),
{
    match action {
        Action::LoadPlaylistTracks(id) => Some(TrackListSource::Playlist(id.clone())),
        Action::LoadAlbumTracks(id) => Some(TrackListSource::Album(id.clone())),
        Action::LoadTopTracks(range) => Some(TrackListSource::TopTracks(*range)),
        Action::LoadRecentlyPlayed => Some(TrackListSource::RecentlyPlayed),
        Action::LoadSavedTracks => Some(TrackListSource::SavedTracks),
        _ => None,
    }
}

/// The reply to the request for `source`, which the API answered with `result`.
pub fn track_list_reply(
    source: TrackListSource,
    result: Result<Vec<TrackItem>, ApiError>,
) -> (message: Message)
    ensures
        message == (Message::TrackListLoaded { source, result }),
{
    Message::TrackListLoaded { source, result }
}

/// A track-list request is answered by a reply that names exactly the source
/// that was asked for and carries what the API returned, an error as well as a
/// list: `named` is the source found behind the request.
pub proof fn a_reply_carries_its_result(
    source: TrackListSource,
    request: Action,
    named: TrackListSource,
    result: Result<Vec<TrackItem>, ApiError>,
    message: Message,
)
    requires
        request@ == fetch_of(source@),
        source_behind(request@) == Some(named@),
        message == (Message::TrackListLoaded { source: named, result }),
    ensures
        message is TrackListLoaded,
        message->TrackListLoaded_source@ == source@,
        message->TrackListLoaded_result == result,
{
}

/// The reply to a track-list request names the source that was asked for, so
/// that it is not taken for a stale one: where nothing else was asked for in the
/// meantime, the tracks are stored.
pub proof fn a_reply_is_for_its_request(
    m: ModelView,
    source: SourceView,
    force: bool,
    asked: Moment,
    tracks: Vec<TrackItem>,
    answered: Moment,
)
    ensures
        source_behind(fetch_of(source)) == Some(source),
        ({
            let after = tracks_answered(
                tracks_asked(m, source, force, asked).0,
                source,
                Ok(tracks),
                answered,
            );
            after.tracks == views(tracks@) && after.tracks_phase == LoadPhase::Loaded(answered)
        }),
{
}

/// Turn a player control result into an error message, or nothing on success.
pub fn player_result(result: Result<(), PlayerError>) -> (message: Option<Message>)
    ensures
        result is Ok ==> message is None,
        result is Err ==> message is Some && message->0 is Error && message->0->Error_0@
            == result->Err_0.text(),
{
    match result {
        Ok(()) => None,
        Err(err) => Some(Message::Error(err.message())),
    }
}

/// The lanes of a search that failed, by their labels.
pub open spec fn failed_lanes(tracks: bool, albums: bool, artists: bool, playlists: bool) -> Seq<
    Seq<char>,
> {
    let none = Seq::<Seq<char>>::empty();
    (if tracks { seq!["Tracks"@] } else { none }) + (if albums { seq!["Albums"@] } else { none })
        + (if artists { seq!["Artists"@] } else { none }) + (if playlists {
        seq!["Playlists"@]
    } else {
        none
    })
}

/// A lane's items, or none where it failed.
pub open spec fn lane_items<T: View>(lane: Result<Vec<T>, ApiError>) -> Seq<T::V> {
    match lane {
        Ok(items) => views(items@),
        Err(_) => Seq::empty(),
    }
}

/// Adds `label` to the lanes that failed.
fn note_failure(failed: &mut Vec<&'static str>, label: &'static str)
    ensures
        views(final(failed)@) == views(old(failed)@).push(label@),
{
    failed.push(label);
    assert(views(failed@) =~= views(old(failed)@).push(label@));
}

/// Puts the four lanes of a search together. A lane that failed is empty and
/// named; where every lane failed, the search failed, with the error of the
/// tracks lane.
pub fn combine_search(
    tracks: Result<Vec<TrackItem>, ApiError>,
    albums: Result<Vec<AlbumItem>, ApiError>,
    artists: Result<Vec<ArtistItem>, ApiError>,
    playlists: Result<Vec<PlaylistItem>, ApiError>,
) -> (result: Result<SearchResultset, ApiError>)
    ensures
        result is Err == (tracks is Err && albums is Err && artists is Err && playlists is Err),
        result is Err ==> result->Err_0@ == tracks->Err_0@,
        result is Ok ==> {
            &&& result->Ok_0@.tracks == lane_items(tracks)
            &&& result->Ok_0@.albums == lane_items(albums)
            &&& result->Ok_0@.artists == lane_items(artists)
            &&& result->Ok_0@.playlists == lane_items(playlists)
            &&& result->Ok_0@.failed_lanes == failed_lanes(
                tracks is Err,
                albums is Err,
                artists is Err,
                playlists is Err,
            )
        },
{
    let mut results = SearchResultset::default();
    let mut failed: Vec<&'static str> = Vec::new();
    let mut first_error: Option<ApiError> = None;
    let mut any: bool = false;
    assert(views(failed@) =~= Seq::<Seq<char>>::empty());
    match tracks {
        Ok(items) => {
            results.tracks = items;
            any = true;
        },
        Err(err) => {
            note_failure(&mut failed, "Tracks");
            first_error = Some(err);
        },
    }
    match albums {
        Ok(items) => {
            results.albums = items;
            any = true;
        },
        Err(_) => {
            note_failure(&mut failed, "Albums");
        },
    }
    match artists {
        Ok(items) => {
            results.artists = items;
            any = true;
        },
        Err(_) => {
            note_failure(&mut failed, "Artists");
        },
    }
    match playlists {
        Ok(items) => {
            results.playlists = items;
            any = true;
        },
        Err(_) => {
            note_failure(&mut failed, "Playlists");
        },
    }
    if !any {
        if let Some(err) = first_error {
            return Err(err);
        }
    }
    proof {
        let named = failed_lanes(tracks is Err, albums is Err, artists is Err, playlists is Err);
        assert(views(failed@) =~= named);
    }
    results.failed_lanes = failed;
    Ok(results)
}

/// What liking or unliking a track asks of the library.
#[derive(Debug, Clone, Copy, PartialEq, Eq, Structural)]
pub enum SaveStep {
    /// Save the track.
    Save,
    /// Remove it.
    Remove,
}

/// What to do once it is known whether the track is saved: a saved track is
/// removed, any other is saved.
pub fn after_saved_check(saved: bool) -> (step: SaveStep)
    ensures
        (step is Remove) == saved,
        (step is Save) == !saved,
{
    if saved {
        SaveStep::Remove
    } else {
        SaveStep::Save
    }
}

/// Whether the track is saved once `step` succeeded.
pub fn saved_after(step: SaveStep) -> (saved: bool)
    ensures
        saved == (step is Save),
{
    match step {
        SaveStep::Save => true,
        SaveStep::Remove => false,
    }
}

/// What to do after a reconnect attempt.
#[derive(Debug, PartialEq, Eq)]
pub enum ReconnectStep {
    /// The session is back; the resumed track's events update the UI.
    Done,
    /// The cached token was rejected: obtain a fresh one and try once more.
    ObtainToken,
    /// Give up, with this message.
    Fail(String),
}

/// The message of a reconnect that failed for good.
pub open spec fn reconnect_failure(detail: Seq<char>) -> Seq<char> {
    "streaming reconnect failed: "@ + detail
}

/// After an attempt with the cached token (`fresh` is false) or with a freshly
/// obtained one: a rejected cached token is worth one more try, a rejected
/// fresh one is not.
pub fn after_reconnect(fresh: bool, result: Result<(), PlayerError>) -> (step: ReconnectStep)
    ensures
        (step is Done) == (result is Ok),
        (step is ObtainToken) == (result is Err && !fresh),
        result is Err && fresh ==> step is Fail && step->Fail_0@ == reconnect_failure(
            result->Err_0.text(),
        ),
{
    match result {
        Ok(()) => ReconnectStep::Done,
        Err(err) => if fresh {
            let detail = err.message();
            ReconnectStep::Fail(joined("streaming reconnect failed: ", detail.as_str()))
        } else {
            ReconnectStep::ObtainToken
        },
    }
}

/// The message where no fresh token could be obtained.
pub fn token_unavailable(err: &AuthError) -> (message: String)
    ensures
        message@ == reconnect_failure(err.text()),
{
    let detail = err.message();
    joined("streaming reconnect failed: ", detail.as_str())
}

/// How long to wait before renewing a token that expires in `until_expiry_ms`:
/// up to [`REFRESH_LEAD_MS`] before its expiry, at once where that has passed.
pub fn refresh_wait_ms(until_expiry_ms: u64) -> (wait: u64)
    ensures
        wait == larger(until_expiry_ms - REFRESH_LEAD_MS, 0),
{
    until_expiry_ms.saturating_sub(REFRESH_LEAD_MS)
}

} // verus!
