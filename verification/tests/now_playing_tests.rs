//! The status line of `spot-defy now-playing`.

use spot_defy::ipc::now_playing_client::{
    format_line, sanitize_field, status_line, truncate_chars, MAX_FIELD_CHARS, MISSING_FIELD,
};
use spot_defy::ipc::NowPlayingPayload;
use spot_defy::model::{PlaybackSnapshot, PlaybackState};

fn payload(
    state: PlaybackState,
    artist: Option<&str>,
    track: Option<&str>,
) -> NowPlayingPayload {
    NowPlayingPayload {
        track: track.map(str::to_owned),
        artist: artist.map(str::to_owned),
        state,
        position_ms: 0,
        duration_ms: 0,
    }
}

#[test]
fn playing_renders_play_symbol_artist_and_track() {
    let line = format_line(&payload(
        PlaybackState::Playing,
        Some("Daft Punk"),
        Some("Aerodynamic"),
    ));
    assert_eq!(line, "▶ Daft Punk — Aerodynamic");
}

#[test]
fn paused_renders_pause_symbol() {
    let line = format_line(&payload(
        PlaybackState::Paused,
        Some("Air"),
        Some("La Femme"),
    ));
    assert!(
        line.starts_with("⏸ "),
        "expected pause symbol prefix, got {line:?}"
    );
}

#[test]
fn loading_renders_ellipsis_symbol() {
    let line = format_line(&payload(
        PlaybackState::Loading,
        Some("Boards"),
        Some("Roygbiv"),
    ));
    assert!(
        line.starts_with("… "),
        "expected loading symbol prefix, got {line:?}"
    );
}

#[test]
fn stopped_renders_empty_line() {
    let line = format_line(&payload(
        PlaybackState::Stopped,
        Some("ignored"),
        Some("ignored"),
    ));
    assert!(line.is_empty());
}

#[test]
fn missing_fields_fall_back_to_placeholder() {
    let line = format_line(&payload(PlaybackState::Playing, None, None));
    assert_eq!(line, format!("▶ {MISSING_FIELD} — {MISSING_FIELD}"));
}

#[test]
fn blank_field_after_trim_uses_placeholder() {
    let line = format_line(&payload(
        PlaybackState::Playing,
        Some("   "),
        Some("Real Track"),
    ));
    assert_eq!(line, format!("▶ {MISSING_FIELD} — Real Track"));
}

#[test]
fn hash_is_escaped_so_tmux_cannot_interpret_a_directive() {
    let line = format_line(&payload(
        PlaybackState::Playing,
        Some("P!nk"),
        Some("#1 Crush"),
    ));
    assert!(
        line.contains("##1 Crush"),
        "expected escaped hash, got {line:?}"
    );
    // Every `#` must be part of a doubled `##`; no lone `#` may survive.
    assert!(
        !line.replace("##", "").contains('#'),
        "unescaped hash leaked through, got {line:?}",
    );
}

#[test]
fn newlines_and_tabs_are_flattened_to_a_single_line() {
    let line = format_line(&payload(
        PlaybackState::Playing,
        Some("Multi\nLine"),
        Some("Tab\tName\rHere"),
    ));
    assert!(
        !line.contains('\n'),
        "output must be single line, got {line:?}"
    );
    assert!(!line.contains('\t'), "tabs must be stripped, got {line:?}");
    assert!(
        !line.contains('\r'),
        "carriage returns must be stripped, got {line:?}"
    );
    assert!(line.contains("Multi Line"));
    assert!(line.contains("Tab Name Here"));
}

#[test]
fn long_title_is_truncated_with_an_ellipsis() {
    let long = "A".repeat(120);
    let line = format_line(&payload(
        PlaybackState::Playing,
        Some("Artist"),
        Some(&long),
    ));
    let track = line
        .rsplit(" — ")
        .next()
        .expect("track segment present after separator");
    assert_eq!(track.chars().count(), MAX_FIELD_CHARS);
    assert!(
        track.ends_with('…'),
        "truncated field must end with ellipsis"
    );
}

#[test]
fn field_at_exactly_the_limit_is_not_truncated() {
    let exact = "B".repeat(MAX_FIELD_CHARS);
    let line = format_line(&payload(
        PlaybackState::Playing,
        Some("Artist"),
        Some(&exact),
    ));
    assert!(
        line.ends_with(&exact),
        "exact-length field must be kept whole"
    );
    assert!(!line.contains('…'));
}

#[test]
fn no_reply_prints_an_empty_line() {
    assert_eq!(status_line(&None), "");
    let reply = Some(payload(PlaybackState::Paused, Some("Air"), Some("Talisman")));
    assert_eq!(status_line(&reply), "⏸ Air — Talisman");
}

#[test]
fn field_one_over_the_limit_keeps_thirty_nine_characters() {
    let long = "C".repeat(MAX_FIELD_CHARS + 1);
    let line = format_line(&payload(PlaybackState::Playing, Some("A"), Some(&long)));
    assert_eq!(line, format!("▶ A — {}…", "C".repeat(MAX_FIELD_CHARS - 1)));
}

#[test]
fn unicode_white_space_is_trimmed() {
    let line = format_line(&payload(
        PlaybackState::Playing,
        Some("\u{3000}Air\u{a0}"),
        Some("\u{85}"),
    ));
    assert_eq!(line, "▶ Air — —");
}

#[test]
fn payload_drops_only_the_volume() {
    let snapshot = PlaybackSnapshot {
        track: Some("Title".to_owned()),
        artist: None,
        state: PlaybackState::Loading,
        position_ms: 7,
        duration_ms: 9,
        volume: 42,
    };
    let sent = NowPlayingPayload::from(&snapshot);
    assert_eq!(
        sent,
        NowPlayingPayload {
            track: Some("Title".to_owned()),
            artist: None,
            state: PlaybackState::Loading,
            position_ms: 7,
            duration_ms: 9,
        }
    );
    assert_eq!(NowPlayingPayload::default().state, PlaybackState::Stopped);
    assert_eq!(sent.clone(), sent);
}

#[test]
fn truncated_text_is_never_longer_than_its_limit() {
    let chars = vec!['a', 'b', 'c'];
    assert_eq!(truncate_chars(&chars, 0), "");
    assert_eq!(truncate_chars(&chars, 1), "…");
    assert_eq!(truncate_chars(&chars, 2), "a…");
    assert_eq!(truncate_chars(&chars, 3), "abc");
    assert_eq!(truncate_chars(&Vec::new(), 0), "");
}

#[test]
fn cleaning_a_clean_field_again_changes_nothing() {
    let long = format!(" \t{}#\n{} ", "a".repeat(30), "b".repeat(30));
    for raw in [None, Some(String::new()), Some(" Air\n".to_owned()), Some(long)] {
        let once = sanitize_field(&raw);
        assert_eq!(sanitize_field(&Some(once.clone())), once);
    }
}
