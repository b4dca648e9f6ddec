//! Shared domain types: identifiers, rows, and the playback snapshot.
//!
//! Every identifier is a newtype over `String`, so a track id and an album id
//! cannot be confused. Each type has a view made of plain mathematical values,
//! which is what contracts speak of.

use vstd::prelude::*;
use crate::text::{view_of, views};

verus! {

/// A Spotify track identifier (the base-62 id, not the full `spotify:track:` URI).
#[derive(Debug, PartialEq, Eq, Hash)]
pub struct TrackId(pub String);

/// A Spotify album identifier.
#[derive(Debug, PartialEq, Eq, Hash)]
pub struct AlbumId(pub String);

/// A Spotify artist identifier.
#[derive(Debug, PartialEq, Eq, Hash)]
pub struct ArtistId(pub String);

/// A Spotify playlist identifier.
#[derive(Debug, PartialEq, Eq, Hash)]
pub struct PlaylistId(pub String);

impl View for TrackId {
    type V = Seq<char>;

    open spec fn view(&self) -> Seq<char> {
        self.0@
    }
}

impl View for AlbumId {
    type V = Seq<char>;

    open spec fn view(&self) -> Seq<char> {
        self.0@
    }
}

impl View for ArtistId {
    type V = Seq<char>;

    open spec fn view(&self) -> Seq<char> {
        self.0@
    }
}

impl View for PlaylistId {
    type V = Seq<char>;

    open spec fn view(&self) -> Seq<char> {
        self.0@
    }
}

impl Clone for TrackId {
    fn clone(&self) -> (copy: Self)
        ensures
            copy@ == self@,
    {
        TrackId(self.0.clone())
    }
}

impl Clone for AlbumId {
    fn clone(&self) -> (copy: Self)
        ensures
            copy@ == self@,
    {
        AlbumId(self.0.clone())
    }
}

impl Clone for ArtistId {
    fn clone(&self) -> (copy: Self)
        ensures
            copy@ == self@,
    {
        ArtistId(self.0.clone())
    }
}

impl Clone for PlaylistId {
    fn clone(&self) -> (copy: Self)
        ensures
            copy@ == self@,
    {
        PlaylistId(self.0.clone())
    }
}

impl TrackId {
    /// Whether both name the same track.
    pub fn same(&self, other: &TrackId) -> (same: bool)
        ensures
            same == (self@ == other@),
    {
        self.0 == other.0
    }
}

/// Time window for top-items discovery queries.
#[derive(Debug, Clone, Copy, PartialEq, Eq, Structural)]
pub enum TimeRange {
    /// Approximately the last four weeks.
    ShortTerm,
    /// Approximately the last six months.
    MediumTerm,
    /// Calculated from several years of listening history.
    LongTerm,
}

impl Default for TimeRange {
    fn default() -> (range: Self)
        ensures
            range == TimeRange::MediumTerm,
    {
        TimeRange::MediumTerm
    }
}

/// The request that currently owns `Model::tracks`.
#[derive(Debug, PartialEq, Eq)]
pub enum TrackListSource {
    /// Tracks for a playlist drilled into from Playlists/Search.
    Playlist(PlaylistId),
    /// The user's top tracks for a time window.
    TopTracks(TimeRange),
    /// The user's recently played tracks.
    RecentlyPlayed,
    /// The user's saved/liked tracks.
    SavedTracks,
    /// Tracks for an album drilled into from Library/Search.
    Album(AlbumId),
}

/// What a [`TrackListSource`] stands for.
pub enum SourceView {
    Playlist(Seq<char>),
    TopTracks(TimeRange),
    RecentlyPlayed,
    SavedTracks,
    Album(Seq<char>),
}

impl View for TrackListSource {
    type V = SourceView;

    open spec fn view(&self) -> SourceView {
        match self {
            TrackListSource::Playlist(id) => SourceView::Playlist(id@),
            TrackListSource::TopTracks(range) => SourceView::TopTracks(*range),
            TrackListSource::RecentlyPlayed => SourceView::RecentlyPlayed,
            TrackListSource::SavedTracks => SourceView::SavedTracks,
            TrackListSource::Album(id) => SourceView::Album(id@),
        }
    }
}

impl Clone for TrackListSource {
    fn clone(&self) -> (copy: Self)
        ensures
            copy@ == self@,
    {
        match self {
            TrackListSource::Playlist(id) => TrackListSource::Playlist(id.clone()),
            TrackListSource::TopTracks(range) => TrackListSource::TopTracks(*range),
            TrackListSource::RecentlyPlayed => TrackListSource::RecentlyPlayed,
            TrackListSource::SavedTracks => TrackListSource::SavedTracks,
            TrackListSource::Album(id) => TrackListSource::Album(id.clone()),
        }
    }
}

impl TrackListSource {
    /// Whether both name the same request.
    pub fn same(&self, other: &TrackListSource) -> (same: bool)
        ensures
            same == (self@ == other@),
    {
        match (self, other) {
            (TrackListSource::Playlist(a), TrackListSource::Playlist(b)) => a.0 == b.0,
            (TrackListSource::TopTracks(a), TrackListSource::TopTracks(b)) => *a == *b,
            (TrackListSource::RecentlyPlayed, TrackListSource::RecentlyPlayed) => true,
            (TrackListSource::SavedTracks, TrackListSource::SavedTracks) => true,
            (TrackListSource::Album(a), TrackListSource::Album(b)) => a.0 == b.0,
            _ => false,
        }
    }
}

/// A Spotify album-art candidate with its source dimensions, when provided.
#[derive(Debug, PartialEq, Eq)]
pub struct AlbumArtImage {
    pub url: String,
    pub width: Option<u32>,
    pub height: Option<u32>,
}

/// What an [`AlbumArtImage`] stands for.
#[verifier::ext_equal]
pub struct ArtView {
    pub url: Seq<char>,
    pub width: Option<u32>,
    pub height: Option<u32>,
}

impl View for AlbumArtImage {
    type V = ArtView;

    open spec fn view(&self) -> ArtView {
        ArtView { url: self.url@, width: self.width, height: self.height }
    }
}

impl Clone for AlbumArtImage {
    fn clone(&self) -> (copy: Self)
        ensures
            copy@ == self@,
    {
        AlbumArtImage { url: self.url.clone(), width: self.width, height: self.height }
    }
}

/// Clones a list of album-art candidates.
pub fn clone_art(images: &Vec<AlbumArtImage>) -> (copy: Vec<AlbumArtImage>)
    ensures
        views(copy@) == views(images@),
{
    let copy = images.clone();
    assert(views(copy@) =~= views(images@));
    copy
}

/// A single track row as rendered in lists and tables.
#[derive(Debug, PartialEq, Eq)]
pub struct TrackItem {
    pub id: TrackId,
    pub title: String,
    pub artist: String,
    pub album: String,
    /// Track duration in milliseconds.
    pub duration_ms: u32,
    /// Album cover images in Spotify's returned order, usually widest first.
    pub album_art_images: Vec<AlbumArtImage>,
}

/// What a [`TrackItem`] stands for.
#[verifier::ext_equal]
pub struct TrackView {
    pub id: Seq<char>,
    pub title: Seq<char>,
    pub artist: Seq<char>,
    pub album: Seq<char>,
    pub duration_ms: u32,
    pub album_art_images: Seq<ArtView>,
}

impl View for TrackItem {
    type V = TrackView;

    open spec fn view(&self) -> TrackView {
        TrackView {
            id: self.id@,
            title: self.title@,
            artist: self.artist@,
            album: self.album@,
            duration_ms: self.duration_ms,
            album_art_images: views(self.album_art_images@),
        }
    }
}

impl Clone for TrackItem {
    fn clone(&self) -> (copy: Self)
        ensures
            copy@ == self@,
    {
        TrackItem {
            id: self.id.clone(),
            title: self.title.clone(),
            artist: self.artist.clone(),
            album: self.album.clone(),
            duration_ms: self.duration_ms,
            album_art_images: clone_art(&self.album_art_images),
        }
    }
}

/// Clones a track list.
pub fn clone_tracks(tracks: &Vec<TrackItem>) -> (copy: Vec<TrackItem>)
    ensures
        views(copy@) == views(tracks@),
{
    let copy = tracks.clone();
    assert(views(copy@) =~= views(tracks@));
    copy
}

/// The ids of a track list, in order.
pub open spec fn track_ids(tracks: Seq<TrackView>) -> Seq<Seq<char>> {
    Seq::new(tracks.len(), |i: int| tracks[i].id)
}

/// The ids of a track list, in order.
pub fn ids_of(tracks: &Vec<TrackItem>) -> (ids: Vec<TrackId>)
    ensures
        views(ids@) == track_ids(views(tracks@)),
{
    let mut ids: Vec<TrackId> = Vec::new();
    let mut i: usize = 0;
    while i < tracks.len()
        invariant
            i <= tracks@.len(),
            ids@.len() == i,
            forall|k: int| 0 <= k < i ==> (#[trigger] ids@[k])@ == tracks@[k].id@,
        decreases tracks@.len() - i,
    {
        ids.push(tracks[i].id.clone());
        i = i + 1;
    }
    assert(views(ids@) =~= track_ids(views(tracks@)));
    ids
}

/// A single album row.
#[derive(Debug, PartialEq, Eq)]
pub struct AlbumItem {
    pub id: AlbumId,
    pub name: String,
    pub artist: String,
}

/// What an [`AlbumItem`] stands for.
#[verifier::ext_equal]
pub struct AlbumView {
    pub id: Seq<char>,
    pub name: Seq<char>,
    pub artist: Seq<char>,
}

impl View for AlbumItem {
    type V = AlbumView;

    open spec fn view(&self) -> AlbumView {
        AlbumView { id: self.id@, name: self.name@, artist: self.artist@ }
    }
}

impl Clone for AlbumItem {
    fn clone(&self) -> (copy: Self)
        ensures
            copy@ == self@,
    {
        AlbumItem { id: self.id.clone(), name: self.name.clone(), artist: self.artist.clone() }
    }
}

/// A single artist row.
#[derive(Debug, PartialEq, Eq)]
pub struct ArtistItem {
    pub id: ArtistId,
    pub name: String,
}

/// What an [`ArtistItem`] stands for.
#[verifier::ext_equal]
pub struct ArtistView {
    pub id: Seq<char>,
    pub name: Seq<char>,
}

impl View for ArtistItem {
    type V = ArtistView;

    open spec fn view(&self) -> ArtistView {
        ArtistView { id: self.id@, name: self.name@ }
    }
}

impl Clone for ArtistItem {
    fn clone(&self) -> (copy: Self)
        ensures
            copy@ == self@,
    {
        ArtistItem { id: self.id.clone(), name: self.name.clone() }
    }
}

/// A single playlist row.
#[derive(Debug, PartialEq, Eq)]
pub struct PlaylistItem {
    pub id: PlaylistId,
    pub name: String,
    pub owner: String,
    pub track_count: u32,
}

/// What a [`PlaylistItem`] stands for.
#[verifier::ext_equal]
pub struct PlaylistView {
    pub id: Seq<char>,
    pub name: Seq<char>,
    pub owner: Seq<char>,
    pub track_count: u32,
}

impl View for PlaylistItem {
    type V = PlaylistView;

    open spec fn view(&self) -> PlaylistView {
        PlaylistView {
            id: self.id@,
            name: self.name@,
            owner: self.owner@,
            track_count: self.track_count,
        }
    }
}

impl Clone for PlaylistItem {
    fn clone(&self) -> (copy: Self)
        ensures
            copy@ == self@,
    {
        PlaylistItem {
            id: self.id.clone(),
            name: self.name.clone(),
            owner: self.owner.clone(),
            track_count: self.track_count,
        }
    }
}

/// High-level playback lifecycle, modeled as a state machine rather than flags.
#[derive(Debug, Clone, Copy, PartialEq, Eq, Structural)]
pub enum PlaybackState {
    /// No track loaded.
    Stopped,
    /// A track is buffering/loading before audio starts.
    Loading,
    /// Audio is actively playing.
    Playing,
    /// A track is loaded but paused.
    Paused,
}

impl Default for PlaybackState {
    fn default() -> (state: Self)
        ensures
            state == PlaybackState::Stopped,
    {
        PlaybackState::Stopped
    }
}

/// A point-in-time snapshot of what is playing, shared with the IPC layer.
#[derive(Debug, PartialEq, Eq)]
pub struct PlaybackSnapshot {
    pub track: Option<String>,
    pub artist: Option<String>,
    pub state: PlaybackState,
    pub position_ms: u32,
    pub duration_ms: u32,
    /// App (librespot) volume as a 0..=100 percentage.
    pub volume: u16,
}

/// What a [`PlaybackSnapshot`] stands for.
#[verifier::ext_equal]
pub struct SnapshotView {
    pub track: Option<Seq<char>>,
    pub artist: Option<Seq<char>>,
    pub state: PlaybackState,
    pub position_ms: u32,
    pub duration_ms: u32,
    pub volume: u16,
}

impl View for PlaybackSnapshot {
    type V = SnapshotView;

    open spec fn view(&self) -> SnapshotView {
        SnapshotView {
            track: view_of(self.track),
            artist: view_of(self.artist),
            state: self.state,
            position_ms: self.position_ms,
            duration_ms: self.duration_ms,
            volume: self.volume,
        }
    }
}

impl Clone for PlaybackSnapshot {
    fn clone(&self) -> (copy: Self)
        ensures
            copy@ == self@,
    {
        PlaybackSnapshot {
            track: clone_text(&self.track),
            artist: clone_text(&self.artist),
            state: self.state,
            position_ms: self.position_ms,
            duration_ms: self.duration_ms,
            volume: self.volume,
        }
    }
}

/// The snapshot of a player that has nothing loaded, at volume `volume`.
pub open spec fn stopped_snapshot(volume: u16) -> SnapshotView {
    SnapshotView {
        track: None,
        artist: None,
        state: PlaybackState::Stopped,
        position_ms: 0,
        duration_ms: 0,
        volume,
    }
}

impl Default for PlaybackSnapshot {
    fn default() -> (snapshot: Self)
        ensures
            snapshot@ == stopped_snapshot(0),
    {
        PlaybackSnapshot {
            track: None,
            artist: None,
            state: PlaybackState::Stopped,
            position_ms: 0,
            duration_ms: 0,
            volume: 0,
        }
    }
}

/// Clones an optional text.
pub fn clone_text(text: &Option<String>) -> (copy: Option<String>)
    ensures
        copy == *text,
{
    match text {
        Some(inner) => Some(inner.clone()),
        None => None,
    }
}

/// Clones an optional track id.
pub fn clone_track_id(id: &Option<TrackId>) -> (copy: Option<TrackId>)
    ensures
        view_of(copy) == view_of(*id),
{
    match id {
        Some(inner) => Some(inner.clone()),
        None => None,
    }
}

/// Whether `id` is `Some` of `track`.
pub fn names_track(id: &Option<TrackId>, track: &TrackId) -> (yes: bool)
    ensures
        yes == (view_of(*id) == Some(track@)),
{
    match id {
        Some(inner) => inner.same(track),
        None => false,
    }
}

/// The index of the first track with the id `id`, if there is one.
pub open spec fn first_with_id(tracks: Seq<TrackView>, id: Seq<char>) -> Option<int>
    decreases tracks.len(),
{
    if tracks.len() == 0 {
        None
    } else {
        match first_with_id(tracks.drop_last(), id) {
            Some(index) => Some(index),
            None => if tracks.last().id == id {
                Some(tracks.len() - 1)
            } else {
                None
            },
        }
    }
}

/// What [`first_with_id`] finds: the track carries the id and no earlier one
/// does; it finds nothing exactly when no track carries the id.
pub proof fn lemma_first_with_id(tracks: Seq<TrackView>, id: Seq<char>)
    ensures
        match first_with_id(tracks, id) {
            Some(index) => 0 <= index < tracks.len() && tracks[index].id == id && forall|k: int|
                0 <= k < index ==> (#[trigger] tracks[k]).id != id,
            None => forall|k: int| 0 <= k < tracks.len() ==> (#[trigger] tracks[k]).id != id,
        },
    decreases tracks.len(),
{
    if tracks.len() > 0 {
        let shorter = tracks.drop_last();
        lemma_first_with_id(shorter, id);
        assert forall|k: int| 0 <= k < shorter.len() implies shorter[k] == #[trigger] tracks[k] by {}
    }
}

/// The index of the first track with the id `id`, if there is one.
pub fn position_of(tracks: &Vec<TrackItem>, id: &TrackId) -> (index: Option<usize>)
    ensures
        match index {
            Some(i) => first_with_id(views(tracks@), id@) == Some(i as int) && i < tracks@.len(),
            None => first_with_id(views(tracks@), id@) is None,
        },
{
    let mut i: usize = 0;
    assert(views(tracks@).take(0) =~= Seq::<TrackView>::empty());
    while i < tracks.len()
        invariant
            i <= tracks@.len(),
            first_with_id(views(tracks@).take(i as int), id@) is None,
        decreases tracks@.len() - i,
    {
        proof {
            let longer = views(tracks@).take(i + 1);
            assert(longer.drop_last() =~= views(tracks@).take(i as int));
            assert(longer.last() == tracks@[i as int]@);
        }
        if tracks[i].id.same(id) {
            proof {
                lemma_first_with_id_prefix(views(tracks@), id@, i + 1);
            }
            return Some(i);
        }
        i = i + 1;
    }
    assert(views(tracks@).take(tracks@.len() as int) =~= views(tracks@));
    None
}

/// What is found in a prefix is what is found in the whole.
pub proof fn lemma_first_with_id_prefix(tracks: Seq<TrackView>, id: Seq<char>, len: int)
    requires
        0 <= len <= tracks.len(),
        first_with_id(tracks.take(len), id) is Some,
    ensures
        first_with_id(tracks, id) == first_with_id(tracks.take(len), id),
    decreases tracks.len() - len,
{
    if len == tracks.len() {
        assert(tracks.take(len) =~= tracks);
    } else {
        assert(tracks.take(len + 1).drop_last() =~= tracks.take(len));
        lemma_first_with_id_prefix(tracks, id, len + 1);
    }
}

} // verus!
