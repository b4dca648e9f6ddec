//! Which log events reach the log file.

use spot_defy::logging::{is_logged, is_noise, is_redacted, Level};

#[test]
fn drops_trace_from_secret_targets() {
    assert!(is_redacted("librespot_core::token", Level::Trace));
    assert!(is_redacted("librespot_oauth", Level::Trace));
    assert!(is_redacted("librespot_connect::spirc", Level::Trace));
}

#[test]
fn keeps_debug_and_non_secret_targets() {
    // DEBUG diagnostics are kept — tokens are only ever logged at TRACE.
    assert!(!is_redacted("librespot_core::token", Level::Debug));
    assert!(!is_redacted("librespot_playback::player", Level::Trace));
    assert!(!is_redacted("spot_defy::auth", Level::Trace));
}

#[test]
fn drops_symphonia_spam_below_error() {
    assert!(is_noise("symphonia_bundle_mp3::demuxer", Level::Warn));
    assert!(is_noise("symphonia", Level::Info));
}

#[test]
fn keeps_symphonia_errors_and_other_targets() {
    // Real errors survive; unrelated targets are never treated as noise.
    assert!(!is_noise("symphonia_bundle_mp3::demuxer", Level::Error));
    assert!(!is_noise("librespot_playback::player", Level::Warn));
}

#[test]
fn only_redacted_and_noisy_events_are_withheld() {
    assert!(!is_logged("librespot_core::session", Level::Trace));
    assert!(!is_logged("symphonia_core", Level::Debug));
    assert!(is_logged("librespot_core::session", Level::Debug));
    assert!(is_logged("symphonia_core", Level::Error));
    assert!(is_logged("librespot", Level::Trace));
}
