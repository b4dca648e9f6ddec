//! Requests, row mapping, error classification and retries of the Web API
//! client.

use spot_defy::api::rspotify_client::{
    after_failure, album_art_images, check_album, check_track, clamp_search_limit, classify_status,
    first_contained, join_artists, lenient_page_items, lenient_track_item, lenient_track_items,
    map_album_tracks, map_client_error, map_full_album, map_full_artist, map_http_error,
    map_simplified_album, map_simplified_albums, map_simplified_playlist, playlist_tracks_request,
    recently_played_request, saved_tracks_request, search_tracks_request, time_range_param,
    top_tracks_request, unexpected_payload, unexpected_search_result, ApiRequest, ClientFailure,
    FullAlbum, FullArtist, HttpFailure, Image, Pager, RawAlbumRef, RawArtist, RawImage,
    RawSearchTracks, RawTrack, RawTrackEntries, RawTrackEntry, RawTrackPage, RetryStep,
    SimplifiedAlbum, SimplifiedArtist, SimplifiedPlaylist, SimplifiedTrack,
};
use spot_defy::api::SearchResultset;
use spot_defy::app::{
    after_saved_check, combine_search, refresh_wait_ms, reply_source, saved_after,
    track_list_reply, SaveStep,
};
use spot_defy::error::ApiError;
use spot_defy::message::{Action, Message};
use spot_defy::model::{
    AlbumId, PlaylistId, TimeRange, TrackId, TrackItem, TrackListSource,
};

fn text(value: &str) -> String {
    value.to_owned()
}

fn raw_image(size: u32, url: &str) -> RawImage {
    RawImage {
        url: text(url),
        width: Some(size),
        height: Some(size),
    }
}

fn full_track() -> RawTrack {
    RawTrack {
        id: Some(text("06AKEBrKUckW0KREUWRnvT")),
        name: text("Feel This Moment"),
        artists: vec![
            RawArtist { name: text("Pitbull") },
            RawArtist { name: text("Christina Aguilera") },
        ],
        album: RawAlbumRef {
            name: text("Global Warming"),
            images: vec![
                raw_image(640, "https://i.scdn.co/image/large"),
                raw_image(300, "https://i.scdn.co/image/medium"),
                raw_image(64, "https://i.scdn.co/image/small"),
            ],
        },
        duration_ms: 229_400,
        kind: Some(text("track")),
    }
}

/// A local playlist file: no id, barely any album metadata.
fn local_track() -> RawTrack {
    RawTrack {
        id: None,
        name: text("Old Demo"),
        artists: vec![RawArtist { name: text("Basement Tape") }],
        album: RawAlbumRef { name: String::new(), images: Vec::new() },
        duration_ms: 187_000,
        kind: Some(text("track")),
    }
}

fn episode() -> RawTrack {
    RawTrack {
        id: None,
        name: text("Some Podcast"),
        artists: Vec::new(),
        album: RawAlbumRef { name: String::new(), images: Vec::new() },
        duration_ms: 100,
        kind: Some(text("episode")),
    }
}

fn params(request: &ApiRequest) -> Vec<(&str, &str)> {
    request
        .params
        .iter()
        .map(|param| (param.name, param.value.as_str()))
        .collect()
}

#[test]
fn lenient_track_maps_all_rendered_fields() {
    let item = lenient_track_item(full_track());
    assert_eq!(item.id.0, "06AKEBrKUckW0KREUWRnvT");
    assert_eq!(item.title, "Feel This Moment");
    assert_eq!(item.artist, "Pitbull, Christina Aguilera");
    assert_eq!(item.album, "Global Warming");
    assert_eq!(item.duration_ms, 229_400);
    assert_eq!(item.album_art_images.len(), 3);
    assert_eq!(item.album_art_images[0].width, Some(640));
    assert_eq!(
        item.album_art_images[1].url,
        "https://i.scdn.co/image/medium"
    );
}

#[test]
fn playlist_page_with_local_track_missing_external_ids_still_parses() {
    let page = RawTrackEntries {
        items: vec![
            RawTrackEntry { track: Some(full_track()) },
            RawTrackEntry { track: Some(local_track()) },
            RawTrackEntry { track: Some(episode()) },
            RawTrackEntry { track: None },
        ],
    };

    let items = lenient_track_items(page);

    assert_eq!(items.len(), 2);
    assert_eq!(items[0].title, "Feel This Moment");
    assert_eq!(items[1].title, "Old Demo");
    assert_eq!(items[1].id.0, "", "local files keep an empty id");
    assert_eq!(items[1].artist, "Basement Tape");
}

#[test]
fn search_tracks_page_parses_leniently() {
    let page = RawSearchTracks {
        tracks: RawTrackPage { items: vec![full_track()] },
    };
    assert_eq!(page.tracks.items.len(), 1);
    let item = lenient_track_item(
        page.tracks
            .items
            .into_iter()
            .next()
            .expect("one search row"),
    );
    assert_eq!(item.title, "Feel This Moment");
}

#[test]
fn bare_pages_keep_every_row() {
    let page = RawTrackPage { items: vec![local_track(), episode()] };
    let titles: Vec<String> = lenient_page_items(page)
        .into_iter()
        .map(|item| item.title)
        .collect();
    assert_eq!(titles, vec![text("Old Demo"), text("Some Podcast")]);
}

#[test]
fn overlong_durations_are_held_to_the_row_range() {
    let mut track = full_track();
    track.duration_ms = u64::MAX;
    assert_eq!(lenient_track_item(track).duration_ms, u32::MAX);
}

#[test]
fn time_range_param_matches_web_api_values() {
    assert_eq!(time_range_param(TimeRange::ShortTerm), "short_term");
    assert_eq!(time_range_param(TimeRange::MediumTerm), "medium_term");
    assert_eq!(time_range_param(TimeRange::LongTerm), "long_term");
    assert_eq!(TimeRange::default(), TimeRange::MediumTerm);
}

#[test]
fn join_artists_uses_comma_separator() {
    let artists = vec![
        SimplifiedArtist { name: text("A") },
        SimplifiedArtist { name: text("B") },
    ];
    assert_eq!(join_artists(&artists), "A, B");
    assert_eq!(join_artists(&Vec::new()), "");
}

#[test]
fn album_art_images_preserves_spotify_dimensions() {
    let images = vec![
        Image {
            height: Some(640),
            url: "large".to_owned(),
            width: Some(640),
        },
        Image {
            height: None,
            url: "unknown".to_owned(),
            width: None,
        },
    ];

    let mapped = album_art_images(&images);

    assert_eq!(mapped.len(), 2);
    assert_eq!(mapped[0].url, "large");
    assert_eq!(mapped[0].height, Some(640));
    assert_eq!(mapped[1].width, None);
}

#[test]
fn maps_simplified_album_and_drops_idless() {
    let album = SimplifiedAlbum {
        id: Some(text("4m2880jivSbbyEGAKfITt1")),
        name: text("Random Access Memories"),
        artists: vec![SimplifiedArtist { name: text("Daft Punk") }],
    };
    let mapped = map_simplified_album(&album).expect("album with id maps");
    assert_eq!(mapped.id.0, "4m2880jivSbbyEGAKfITt1");
    assert_eq!(mapped.name, "Random Access Memories");
    assert_eq!(mapped.artist, "Daft Punk");

    let idless = SimplifiedAlbum {
        id: None,
        name: text("Untitled"),
        artists: Vec::new(),
    };
    assert!(map_simplified_album(&idless).is_none());
    assert_eq!(map_simplified_albums(&vec![idless, album]).len(), 1);
}

#[test]
fn maps_full_artist() {
    let artist = FullArtist {
        id: text("0OdUWJ0sBjDrqHygGUXeCF"),
        name: text("Band of Horses"),
    };
    let mapped = map_full_artist(&artist);
    assert_eq!(mapped.id.0, "0OdUWJ0sBjDrqHygGUXeCF");
    assert_eq!(mapped.name, "Band of Horses");
}

#[test]
fn full_albums_and_their_tracks_map() {
    let album = FullAlbum {
        id: text("al"),
        name: text("Moon Safari"),
        artists: vec![SimplifiedArtist { name: text("Air") }],
    };
    let mapped = map_full_album(&album);
    assert_eq!((mapped.id, mapped.name.as_str()), (AlbumId(text("al")), "Moon Safari"));
    assert_eq!(mapped.artist, "Air");

    let tracks = vec![
        SimplifiedTrack {
            id: Some(text("t1")),
            name: text("Talisman"),
            artists: vec![SimplifiedArtist { name: text("Air") }],
            duration_ms: 256_000,
        },
        SimplifiedTrack {
            id: None,
            name: text("Ghost"),
            artists: Vec::new(),
            duration_ms: -5,
        },
    ];
    let images = vec![Image { url: text("cover"), width: Some(64), height: Some(64) }];
    let items = map_album_tracks(&tracks, "Moon Safari", &images);
    assert_eq!(items[0].id, TrackId(text("t1")));
    assert_eq!(items[0].album, "Moon Safari");
    assert_eq!(items[0].duration_ms, 256_000);
    assert_eq!(items[0].album_art_images[0].url, "cover");
    assert_eq!(items[1].id, TrackId(String::new()));
    assert_eq!(items[1].duration_ms, 0);
}

#[test]
fn maps_simplified_playlist_with_owner_and_count() {
    let playlist = SimplifiedPlaylist {
        id: text("37i9dQZF1DXcBWIGoYBM5M"),
        name: text("Today's Top Hits"),
        owner_display_name: Some(text("Spotify")),
        owner_id: text("spotify"),
        total: 50,
    };
    let mapped = map_simplified_playlist(&playlist);
    assert_eq!(mapped.id.0, "37i9dQZF1DXcBWIGoYBM5M");
    assert_eq!(mapped.name, "Today's Top Hits");
    assert_eq!(mapped.owner, "Spotify");
    assert_eq!(mapped.track_count, 50);
}

#[test]
fn playlist_owner_falls_back_to_id_when_no_display_name() {
    let playlist = |display_name: Option<String>| SimplifiedPlaylist {
        id: text("37i9dQZF1DXcBWIGoYBM5M"),
        name: text("Mix"),
        owner_display_name: display_name,
        owner_id: text("user-123"),
        total: 3,
    };
    assert_eq!(map_simplified_playlist(&playlist(None)).owner, "user-123");
    assert_eq!(
        map_simplified_playlist(&playlist(Some(String::new()))).owner,
        "user-123"
    );
}

#[test]
fn classify_status_detects_known_codes() {
    match classify_status(401, None) {
        ApiError::Response(msg) => assert!(msg.contains("401")),
        other => panic!("expected 401 response error, got {other:?}"),
    }
    match classify_status(429, Some(5)) {
        ApiError::RateLimited { retry_after_secs } => assert_eq!(retry_after_secs, Some(5)),
        other => panic!("expected rate-limited error, got {other:?}"),
    }
    match classify_status(503, None) {
        ApiError::Response(msg) => assert!(msg.contains("503")),
        other => panic!("expected generic response error, got {other:?}"),
    }
}

#[test]
fn retry_after_headers_are_read_leniently() {
    let limited = |header: Option<&str>| {
        map_http_error(HttpFailure::Status {
            code: 429,
            retry_after: header.map(str::to_owned),
        })
    };
    let secs = |retry_after_secs| ApiError::RateLimited { retry_after_secs };
    assert_eq!(limited(Some(" 7\t")), secs(Some(7)));
    assert_eq!(limited(Some("+12")), secs(Some(12)));
    assert_eq!(limited(Some("18446744073709551615")), secs(Some(u64::MAX)));
    assert_eq!(limited(Some("18446744073709551616")), secs(None));
    assert_eq!(limited(Some("Wed, 21 Oct")), secs(None));
    assert_eq!(limited(Some("+")), secs(None));
    assert_eq!(limited(Some("")), secs(None));
    assert_eq!(limited(None), secs(None));
    assert_eq!(
        map_http_error(HttpFailure::Transport(text("dns"))),
        ApiError::Request(text("dns"))
    );
}

#[test]
fn client_failures_map_to_their_meaning() {
    let cases = vec![
        (
            ClientFailure::InvalidToken,
            ApiError::Response(text("access token expired or invalid; refresh required")),
        ),
        (
            ClientFailure::Http(HttpFailure::Status { code: 500, retry_after: None }),
            ApiError::Response(text("spotify returned status code 500")),
        ),
        (ClientFailure::ParseJson(text("a")), ApiError::Mapping(text("a"))),
        (ClientFailure::Model(text("b")), ApiError::Mapping(text("b"))),
        (ClientFailure::Io(text("c")), ApiError::Request(text("c"))),
        (ClientFailure::ParseUrl(text("d")), ApiError::Request(text("d"))),
        (ClientFailure::CacheFile(text("e")), ApiError::Request(text("e"))),
        (
            ClientFailure::AuthCodeListenerParse(text("f")),
            ApiError::Request(text("f")),
        ),
        (
            ClientFailure::TokenCallbackFn(text("g")),
            ApiError::Response(text("g")),
        ),
        (
            ClientFailure::AuthCodeListenerBind { addr: text("h"), detail: text("i") },
            ApiError::Request(text("oauth listener bind failed on h: i")),
        ),
        (
            ClientFailure::AuthCodeListener,
            ApiError::Request(text("oauth loopback listener failed")),
        ),
    ];
    for (failure, expected) in cases {
        assert_eq!(map_client_error(failure), expected);
    }
}

#[test]
fn rate_limits_are_waited_out_twice() {
    let limited = |header: Option<&str>| {
        ClientFailure::Http(HttpFailure::Status {
            code: 429,
            retry_after: header.map(str::to_owned),
        })
    };
    assert_eq!(after_failure(0, limited(None)), RetryStep::Wait { secs: 2 });
    assert_eq!(after_failure(1, limited(Some("5"))), RetryStep::Wait { secs: 5 });
    assert_eq!(after_failure(1, limited(Some("600"))), RetryStep::Wait { secs: 60 });
    assert_eq!(
        after_failure(2, limited(Some("5"))),
        RetryStep::GiveUp(ApiError::RateLimited { retry_after_secs: Some(5) })
    );
    assert_eq!(
        after_failure(0, ClientFailure::Io(text("down"))),
        RetryStep::GiveUp(ApiError::Request(text("down")))
    );
}

#[test]
fn pages_are_walked_by_offset_up_to_the_cap() {
    let mut pager = Pager::new();
    assert_eq!(pager.offset(), 0);
    // A short page is not the end of the list.
    assert!(pager.advance(true, 3));
    assert_eq!(pager.offset(), 50);
    assert!(!Pager::new().advance(false, 50));
    assert!(!Pager::new().advance(true, 0));
    let mut pages = 1;
    let mut walker = Pager::new();
    while walker.advance(true, 50) {
        pages += 1;
    }
    assert_eq!(pages, 40);
}

#[test]
fn pages_are_gathered_in_order() {
    let mut rows: Vec<u32> = Vec::new();
    let mut pager = Pager::new();
    assert!(pager.take_page(&mut rows, vec![1, 2], true));
    assert_eq!(pager.offset(), 50);
    assert!(pager.take_page(&mut rows, vec![3], true));
    assert!(!pager.take_page(&mut rows, vec![4, 5], false));
    assert_eq!(rows, vec![1, 2, 3, 4, 5]);
    assert!(!Pager::new().take_page(&mut rows, Vec::new(), true));
    assert_eq!(rows.len(), 5);
    // The cap on pages ends a list that never says it is over.
    let mut pager = Pager::new();
    let mut pages: u32 = 1;
    while pager.take_page(&mut rows, vec![0], true) {
        pages += 1;
    }
    assert_eq!(pages, pager.page);
    assert_eq!(rows.len() as u32, 5 + pages);
}

#[test]
fn replies_carry_what_the_api_returned() {
    let source = || TrackListSource::Album(AlbumId(text("a")));
    let reply = track_list_reply(source(), Err(ApiError::NotImplemented("x")));
    assert!(matches!(
        reply,
        Message::TrackListLoaded { source: named, result: Err(ApiError::NotImplemented("x")) }
            if named == source()
    ));
    let action = Action::LoadAlbumTracks(AlbumId(text("a")));
    let named = reply_source(&action).expect("a track list");
    let reply = track_list_reply(named, Ok(Vec::new()));
    assert!(matches!(
        reply,
        Message::TrackListLoaded { source: named, result: Ok(tracks) }
            if named == source() && tracks.is_empty()
    ));
}

#[test]
fn requests_name_endpoint_and_parameters() {
    let search = search_tracks_request("daft punk", 99);
    assert_eq!(search.endpoint, "search");
    assert_eq!(
        params(&search),
        vec![("q", "daft punk"), ("type", "track"), ("limit", "10"), ("offset", "0")]
    );
    let top = top_tracks_request(TimeRange::LongTerm);
    assert_eq!(top.endpoint, "me/top/tracks");
    assert_eq!(
        params(&top),
        vec![("time_range", "long_term"), ("limit", "50"), ("offset", "0")]
    );
    let recent = recently_played_request();
    assert_eq!(recent.endpoint, "me/player/recently-played");
    assert_eq!(params(&recent), vec![("limit", "50")]);
    let saved = saved_tracks_request();
    assert_eq!(saved.endpoint, "me/tracks");
    assert_eq!(params(&saved), vec![("limit", "50"), ("offset", "0")]);
}

#[test]
fn search_limits_are_clamped() {
    assert_eq!(clamp_search_limit(0), 1);
    assert_eq!(clamp_search_limit(7), 7);
    assert_eq!(clamp_search_limit(11), 10);
}

#[test]
fn ids_are_checked_before_they_reach_a_path() {
    let request = playlist_tracks_request(&PlaylistId(text("37i9dQZF1DXcBWIGoYBM5M")))
        .expect("a plain id is accepted");
    assert_eq!(request.endpoint, "playlists/37i9dQZF1DXcBWIGoYBM5M/tracks");
    assert_eq!(
        params(&request),
        vec![("limit", "50"), ("offset", "0"), ("additional_types", "track")]
    );
    assert_eq!(
        playlist_tracks_request(&PlaylistId(text("../me"))),
        Err(ApiError::Mapping(text("invalid playlist id ../me: InvalidId")))
    );
    assert_eq!(check_album(&AlbumId(text("4m2880jivSbbyEGAKfITt1"))), Ok(()));
    assert_eq!(
        check_album(&AlbumId(text("a b"))),
        Err(ApiError::Mapping(text("invalid album id a b: InvalidId")))
    );
    assert_eq!(check_track(&TrackId(text("4uLU6hMCjMI75M1A2tKUQC"))), Ok(()));
    assert_eq!(
        check_track(&TrackId(text("é"))),
        Err(ApiError::Mapping(text("invalid track id é: InvalidId")))
    );
}

#[test]
fn unexpected_replies_are_described() {
    assert_eq!(
        unexpected_payload("me/tracks", "eof"),
        ApiError::Mapping(text("unexpected me/tracks payload: eof"))
    );
    assert_eq!(
        unexpected_search_result("albums", "Tracks"),
        ApiError::Mapping(text(
            "search returned unexpected payload (expected albums, got Tracks)"
        ))
    );
    assert!(first_contained(&vec![true, false]));
    assert!(!first_contained(&vec![false]));
    assert!(!first_contained(&Vec::new()));
}

#[test]
fn api_errors_say_what_failed() {
    assert_eq!(
        ApiError::Request(text("x")).message(),
        "spotify api request failed: x"
    );
    assert_eq!(
        ApiError::Response(text("x")).message(),
        "spotify api returned an error: x"
    );
    assert_eq!(
        ApiError::RateLimited { retry_after_secs: None }.message(),
        "rate limited by spotify (429); retried but still limited"
    );
    assert_eq!(
        ApiError::Mapping(text("x")).message(),
        "failed to map spotify response: x"
    );
    assert_eq!(
        ApiError::NotImplemented("x").message(),
        "api capability not implemented: x"
    );
}

#[test]
fn a_search_keeps_the_lanes_that_worked() {
    let down = || ApiError::Request(text("down"));
    let found: Vec<TrackItem> = vec![lenient_track_item(full_track())];
    let results = combine_search(Ok(found), Err(down()), Ok(Vec::new()), Err(down()))
        .expect("one lane is enough");
    assert_eq!(results.tracks.len(), 1);
    assert_eq!(results.failed_lanes, vec!["Albums", "Playlists"]);

    let none = combine_search(
        Err(ApiError::Response(text("first"))),
        Err(down()),
        Err(down()),
        Err(down()),
    );
    assert_eq!(none, Err(ApiError::Response(text("first"))));
    assert_eq!(
        combine_search(Ok(Vec::new()), Ok(Vec::new()), Ok(Vec::new()), Ok(Vec::new())),
        Ok(SearchResultset::default())
    );
}

#[test]
fn a_saved_track_is_removed_and_any_other_is_saved() {
    assert_eq!(after_saved_check(true), SaveStep::Remove);
    assert_eq!(after_saved_check(false), SaveStep::Save);
    assert!(saved_after(SaveStep::Save));
    assert!(!saved_after(SaveStep::Remove));
    for saved in [false, true] {
        assert_eq!(saved_after(after_saved_check(saved)), !saved);
    }
}

#[test]
fn tokens_are_renewed_a_minute_early() {
    assert_eq!(refresh_wait_ms(3_600_000), 3_540_000);
    assert_eq!(refresh_wait_ms(59_999), 0);
}

#[test]
fn replies_name_the_source_that_was_asked_for() {
    let playlist = || PlaylistId(text("p"));
    let album = || AlbumId(text("a"));
    let cases = vec![
        (Action::LoadPlaylistTracks(playlist()), Some(TrackListSource::Playlist(playlist()))),
        (Action::LoadAlbumTracks(album()), Some(TrackListSource::Album(album()))),
        (
            Action::LoadTopTracks(TimeRange::ShortTerm),
            Some(TrackListSource::TopTracks(TimeRange::ShortTerm)),
        ),
        (Action::LoadRecentlyPlayed, Some(TrackListSource::RecentlyPlayed)),
        (Action::LoadSavedTracks, Some(TrackListSource::SavedTracks)),
        (Action::LoadPlaylists, None),
        (Action::PlayerStop, None),
    ];
    for (action, source) in cases {
        assert_eq!(reply_source(&action), source);
    }
}
