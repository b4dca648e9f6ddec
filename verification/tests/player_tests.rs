//! Volume scales, the queue cursor, and the events of the audio engine.

use librespot_core::spotify_id::SpotifyId;
use spot_defy::app::{after_reconnect, player_result, token_unavailable, ReconnectStep};
use spot_defy::error::{AuthError, PlayerError};
use spot_defy::message::Message;
use spot_defy::model::TrackId;
use spot_defy::player::librespot_player::{
    bridge_end, bridge_event, invalid_track_id, map_player_event, mixer_to_percent, next_index,
    next_track_to_preload, not_connected, percent_to_mixer, previous_index, track_uri,
    uri_to_track_id, EngineUri, PlayerEvent, PlayerQueue, SkipStep, TrackUri,
};
use spot_defy::player::PlaybackEvent;

fn item(id: &str) -> EngineUri {
    EngineUri::Item { id: SpotifyId::from_base62(id).expect("valid id").id }
}

#[test]
fn percent_to_mixer_maps_endpoints() {
    assert_eq!(percent_to_mixer(0), 0);
    assert_eq!(percent_to_mixer(100), u16::MAX);
}

#[test]
fn percent_to_mixer_clamps_over_100() {
    assert_eq!(percent_to_mixer(150), u16::MAX);
}

#[test]
fn percent_to_mixer_midpoint_is_about_half() {
    let half = percent_to_mixer(50);
    assert!((32_000..=33_000).contains(&half), "got {half}");
}

#[test]
fn mixer_to_percent_maps_endpoints() {
    assert_eq!(mixer_to_percent(0), 0);
    assert_eq!(mixer_to_percent(u16::MAX), 100);
}

#[test]
fn volume_round_trips_within_one_percent() {
    for percent in [0_u16, 10, 25, 50, 75, 100] {
        let back = mixer_to_percent(percent_to_mixer(percent));
        assert!(back.abs_diff(percent) <= 1, "percent {percent} -> {back}");
    }
}

#[test]
fn next_index_walks_then_stops_at_end() {
    assert_eq!(next_index(None, 3), Some(0));
    assert_eq!(next_index(Some(0), 3), Some(1));
    assert_eq!(next_index(Some(2), 3), None);
}

#[test]
fn next_index_empty_queue_is_none() {
    assert_eq!(next_index(None, 0), None);
}

#[test]
fn next_track_to_preload_requires_matching_cursor() {
    let queue = vec![
        TrackId("track-a".to_owned()),
        TrackId("track-b".to_owned()),
        TrackId("track-c".to_owned()),
    ];

    assert_eq!(
        next_track_to_preload(&queue, Some(0), &TrackId("track-a".to_owned())),
        Some(&TrackId("track-b".to_owned()))
    );
    assert_eq!(
        next_track_to_preload(&queue, Some(0), &TrackId("track-c".to_owned())),
        None
    );
}

#[test]
fn next_track_to_preload_stops_at_queue_end() {
    let queue = vec![TrackId("track-a".to_owned())];

    assert_eq!(
        next_track_to_preload(&queue, Some(0), &TrackId("track-a".to_owned())),
        None
    );
}

#[test]
fn previous_index_walks_then_stops_at_start() {
    assert_eq!(previous_index(Some(2)), Some(1));
    assert_eq!(previous_index(Some(0)), None);
    assert_eq!(previous_index(None), None);
}

#[test]
fn track_uri_builds_track_variant_from_base62() {
    let id = "4uLU6hMCjMI75M1A2tKUQC";
    let uri = track_uri(&TrackId(id.to_owned())).expect("valid base62 id");
    let parsed = SpotifyId { id: uri.id };
    assert_eq!(parsed.to_base62().expect("base62"), id);
}

#[test]
fn track_uri_rejects_invalid_id() {
    let err = track_uri(&TrackId("not-a-valid-id".to_owned())).unwrap_err();
    assert!(err.message().contains("invalid track id"));
    assert_eq!(
        err.message(),
        "playback control failed: invalid track id \"not-a-valid-id\": \
         Client specified an invalid argument { ID cannot be parsed }"
    );
}

#[test]
fn track_uri_quotes_special_characters() {
    let err = track_uri(&TrackId("a\"\n".to_owned())).unwrap_err();
    assert!(err.message().contains("invalid track id \"a\\\"\\n\": "));
}

#[test]
fn track_uri_reads_digits_and_refuses_overflow() {
    let zeros = "0".repeat(20);
    assert_eq!(track_uri(&TrackId(format!("{zeros}10"))), Ok(TrackUri { id: 62 }));
    assert_eq!(track_uri(&TrackId(format!("{zeros}zZ"))), Ok(TrackUri { id: 35 * 62 + 61 }));
    assert!(track_uri(&TrackId("Z".repeat(22))).is_err());
    assert!(track_uri(&TrackId("0".repeat(21))).is_err());
    assert!(track_uri(&TrackId("é".repeat(11))).is_err());
}

#[test]
fn uri_to_track_id_round_trips_base62() {
    let id = "4uLU6hMCjMI75M1A2tKUQC";
    let spotify_id = SpotifyId::from_base62(id).expect("valid id");
    let uri = EngineUri::Item { id: spotify_id.id };
    assert_eq!(uri_to_track_id(uri), TrackId(id.to_owned()));
}

#[test]
fn a_track_uri_gives_its_track_back() {
    let zero = "0".repeat(22);
    let largest = "7N42dgm5tFLK9N8MT7fHC7";
    for id in ["4uLU6hMCjMI75M1A2tKUQC", "0000000000000000000010", &zero, largest] {
        let track = TrackId(id.to_owned());
        let uri = track_uri(&track).expect("valid base62 id");
        assert_eq!(uri_to_track_id(EngineUri::Item { id: uri.id }), track);
    }
    assert_eq!(track_uri(&TrackId(largest.to_owned())), Ok(TrackUri { id: u128::MAX }));
}

#[test]
fn other_uris_are_known_by_their_text() {
    let file = EngineUri::Local {
        artist: "Air".to_owned(),
        album_title: "Moon Safari".to_owned(),
        track_title: "Talisman".to_owned(),
        duration_secs: 256,
    };
    let id = TrackId("Air:Moon Safari:Talisman:256".to_owned());
    assert_eq!(uri_to_track_id(file), id);
    let other = EngineUri::Unknown { text: "x y".to_owned() };
    assert_eq!(uri_to_track_id(other), TrackId("x y".to_owned()));
}

#[test]
fn stopped_event_maps_to_playback_stopped() {
    let id = TrackId("4uLU6hMCjMI75M1A2tKUQC".to_owned());
    let event = PlayerEvent::Stopped {
        track_id: item("4uLU6hMCjMI75M1A2tKUQC"),
    };

    let mapped = map_player_event(event);

    assert_eq!(mapped, Some(PlaybackEvent::Stopped { track: id }));
}

#[test]
fn preload_hint_maps_to_playback_preload_next() {
    let id = TrackId("4uLU6hMCjMI75M1A2tKUQC".to_owned());
    let event = PlayerEvent::TimeToPreloadNextTrack {
        track_id: item("4uLU6hMCjMI75M1A2tKUQC"),
    };

    let mapped = map_player_event(event);

    assert_eq!(mapped, Some(PlaybackEvent::PreloadNext { track: id }));
}

#[test]
fn engine_events_map_one_for_one() {
    let id = || item("4uLU6hMCjMI75M1A2tKUQC");
    let track = || TrackId("4uLU6hMCjMI75M1A2tKUQC".to_owned());
    let cases = vec![
        (
            PlayerEvent::Loading { track_id: id() },
            Some(PlaybackEvent::Loading { track: track() }),
        ),
        (
            PlayerEvent::Playing { track_id: id(), position_ms: 3 },
            Some(PlaybackEvent::Playing { track: track(), position_ms: 3 }),
        ),
        (
            PlayerEvent::Paused { track_id: id(), position_ms: 4 },
            Some(PlaybackEvent::Paused { track: track(), position_ms: 4 }),
        ),
        (
            PlayerEvent::Seeked { position_ms: 5 },
            Some(PlaybackEvent::PositionUpdate { position_ms: 5 }),
        ),
        (
            PlayerEvent::PositionChanged { position_ms: 6 },
            Some(PlaybackEvent::PositionUpdate { position_ms: 6 }),
        ),
        (
            PlayerEvent::PositionCorrection { position_ms: 7 },
            Some(PlaybackEvent::PositionUpdate { position_ms: 7 }),
        ),
        (
            PlayerEvent::EndOfTrack { track_id: id() },
            Some(PlaybackEvent::EndOfTrack { track: track() }),
        ),
        (
            PlayerEvent::Unavailable { track_id: id() },
            Some(PlaybackEvent::Unavailable { track: track() }),
        ),
        (
            PlayerEvent::VolumeChanged { volume: u16::MAX },
            Some(PlaybackEvent::VolumeChanged { volume: 100 }),
        ),
        (
            PlayerEvent::SessionDisconnected,
            Some(PlaybackEvent::SessionDisconnected),
        ),
        (PlayerEvent::Other, None),
    ];
    for (event, expected) in cases {
        assert_eq!(map_player_event(event), expected);
    }
}

#[test]
fn a_replaced_session_stays_silent() {
    let event = || PlayerEvent::Seeked { position_ms: 1 };
    assert_eq!(
        bridge_event(2, 2, event()),
        Some(PlaybackEvent::PositionUpdate { position_ms: 1 })
    );
    assert_eq!(bridge_event(1, 2, event()), None);
    assert_eq!(bridge_end(2, 2), Some(PlaybackEvent::SessionDisconnected));
    assert_eq!(bridge_end(1, 2), None);
}

#[test]
fn going_back_undoes_going_forward() {
    for cursor in 0..4 {
        assert_eq!(previous_index(next_index(Some(cursor), 5)), Some(cursor));
    }
}

#[test]
fn player_queue_walks_and_stops() {
    let id = |name: &str| TrackId(name.to_owned());
    let mut queue = PlayerQueue::new();
    let refused = queue.load_queue(Vec::new(), 0);
    assert_eq!(
        refused,
        Err(PlayerError::Control("cannot play an empty queue".to_owned()))
    );
    // The start index is held to the queue.
    assert_eq!(queue.load_queue(vec![id("a"), id("b")], 9), Ok(1));
    assert_eq!(queue.track_at(1), Ok(id("b")));
    assert_eq!(
        queue.track_at(2),
        Err(PlayerError::Control("queue index 2 out of range".to_owned()))
    );
    assert_eq!(queue.next(), SkipStep::Load(0));
    queue.mark_loaded(1);
    assert_eq!(queue.next(), SkipStep::Stop);
    assert_eq!(queue.previous(), SkipStep::Load(0));
    queue.mark_loaded(0);
    assert_eq!(queue.previous(), SkipStep::Stay);
    queue.mark_stopped();
    assert_eq!(queue.previous(), SkipStep::Stay);
    queue.set_queue(vec![id("c")], Some(0));
    assert_eq!(queue.next(), SkipStep::Stop);
    assert_eq!(queue.queue, vec![id("c")]);
}

#[test]
fn skipping_in_an_empty_queue_is_an_error() {
    let failed =
        || SkipStep::Fail(PlayerError::Control("cannot skip in an empty queue".to_owned()));
    let mut queue = PlayerQueue::new();
    assert_eq!(queue.next(), failed());
    assert_eq!(queue.previous(), failed());
    queue.set_queue(Vec::new(), Some(3));
    assert_eq!(queue.next(), failed());
    assert_eq!(queue.previous(), failed());
}

#[test]
fn transport_needs_a_loaded_track() {
    let mut queue = PlayerQueue::new();
    assert_eq!(
        queue.require_loaded("seek"),
        Err(PlayerError::Control("seek: no track loaded".to_owned()))
    );
    queue.set_queue(vec![TrackId("a".to_owned())], None);
    assert_eq!(
        queue.require_loaded("play"),
        Err(PlayerError::Control("play: no track loaded".to_owned()))
    );
    queue.mark_loaded(0);
    assert_eq!(queue.require_loaded("pause"), Ok(()));
    queue.mark_stopped();
    assert!(queue.require_loaded("pause").is_err());
}

#[test]
fn player_errors_say_what_failed() {
    assert_eq!(
        not_connected("play").message(),
        "streaming session error: play: no streaming session"
    );
    assert_eq!(
        invalid_track_id("\"x\"", "bad").message(),
        "playback control failed: invalid track id \"x\": bad"
    );
    assert_eq!(
        PlayerError::PremiumRequired.message(),
        "spotify premium is required for streaming"
    );
    assert_eq!(
        PlayerError::AudioBackend("none".to_owned()).message(),
        "audio backend error: none"
    );
    assert_eq!(
        PlayerError::NotImplemented("x").message(),
        "player capability not implemented: x"
    );
}

#[test]
fn player_results_surface_errors_only() {
    assert!(player_result(Ok(())).is_none());
    let message = player_result(Err(PlayerError::PremiumRequired));
    assert!(matches!(
        message,
        Some(Message::Error(text)) if text == "spotify premium is required for streaming"
    ));
}

#[test]
fn a_reconnect_is_tried_with_a_fresh_token_once() {
    let failed = || Err(PlayerError::Session("gone".to_owned()));
    assert_eq!(after_reconnect(false, Ok(())), ReconnectStep::Done);
    assert_eq!(after_reconnect(false, failed()), ReconnectStep::ObtainToken);
    assert_eq!(after_reconnect(true, Ok(())), ReconnectStep::Done);
    assert_eq!(
        after_reconnect(true, failed()),
        ReconnectStep::Fail(
            "streaming reconnect failed: streaming session error: gone".to_owned()
        )
    );
    assert_eq!(
        token_unavailable(&AuthError::Login("no".to_owned())),
        "streaming reconnect failed: oauth login failed: no"
    );
}
