//! The Web API boundary: what a search returns and how much to ask for.

use vstd::prelude::*;
use crate::model::{
    AlbumItem, AlbumView, ArtistItem, ArtistView, PlaylistItem, PlaylistView, TrackItem, TrackView,
};
use crate::text::views;

pub mod laws;
pub mod rspotify_client;

verus! {

/// The maximum `limit` Spotify accepts for search. Callers must clamp to this
/// value.
pub const SEARCH_LIMIT_MAX: u32 = 10;

/// The bundled results of a single multi-type search query.
///
/// A lane that failed upstream is empty here and named in `failed_lanes`.
#[derive(Debug, Clone, PartialEq, Eq)]
pub struct SearchResultset {
    pub tracks: Vec<TrackItem>,
    pub albums: Vec<AlbumItem>,
    pub artists: Vec<ArtistItem>,
    pub playlists: Vec<PlaylistItem>,
    pub failed_lanes: Vec<&'static str>,
}

/// What a [`SearchResultset`] stands for.
#[verifier::ext_equal]
pub struct SearchResultsView {
    pub tracks: Seq<TrackView>,
    pub albums: Seq<AlbumView>,
    pub artists: Seq<ArtistView>,
    pub playlists: Seq<PlaylistView>,
    pub failed_lanes: Seq<Seq<char>>,
}

impl View for SearchResultset {
    type V = SearchResultsView;

    open spec fn view(&self) -> SearchResultsView {
        SearchResultsView {
            tracks: views(self.tracks@),
            albums: views(self.albums@),
            artists: views(self.artists@),
            playlists: views(self.playlists@),
            failed_lanes: views(self.failed_lanes@),
        }
    }
}

/// No results in any lane, and no lane failed.
pub open spec fn no_results() -> SearchResultsView {
    SearchResultsView {
        tracks: Seq::empty(),
        albums: Seq::empty(),
        artists: Seq::empty(),
        playlists: Seq::empty(),
        failed_lanes: Seq::empty(),
    }
}

impl Default for SearchResultset {
    fn default() -> (results: Self)
        ensures
            results@ == no_results(),
    {
        let results = SearchResultset {
            tracks: Vec::new(),
            albums: Vec::new(),
            artists: Vec::new(),
            playlists: Vec::new(),
            failed_lanes: Vec::new(),
        };
        assert(results@ =~= no_results());
        results
    }
}

} // verus!
