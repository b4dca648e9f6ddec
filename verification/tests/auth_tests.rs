//! Tokens, scopes, logins and the Keychain.

use spot_defy::auth::{
    after_background_exchange, after_browser, after_refresh_exchange, background_refresh_start,
    client_build_failure, login_start, scopes, streaming_scopes, to_rspotify_token, token_set_from,
    webapi_redirect_uri, LoginStep, OAuthToken, Secret, TokenSet,
};
use spot_defy::cli::{logout_tokens, AuthCommand, Cli, Command};
use spot_defy::error::AuthError;
use spot_defy::secrets::{
    clear_refresh_token, load_refresh_token, open_failure, store_refresh_token, KeychainFailure,
    TokenKind,
};
use std::time::{Duration, Instant};

fn sample_tokens() -> TokenSet {
    TokenSet {
        access: Secret::new("access-abc".to_owned()),
        refresh: Secret::new("refresh-xyz".to_owned()),
        expires_at: Instant::now(),
    }
}

fn sample_oauth_token() -> OAuthToken {
    OAuthToken {
        access_token: "access-123".to_string(),
        refresh_token: "refresh-456".to_string(),
        expires_at: Instant::now() + Duration::from_secs(3600),
    }
}

#[test]
fn token_set_from_wraps_both_tokens_as_secrets() {
    let set = token_set_from(sample_oauth_token());
    assert_eq!(set.access.expose(), "access-123");
    assert_eq!(set.refresh.expose(), "refresh-456");
}

#[test]
fn token_set_from_preserves_the_expiry_instant() {
    let oauth = sample_oauth_token();
    let expected = oauth.expires_at;
    let set = token_set_from(oauth);
    assert_eq!(set.expires_at, expected);
}

#[test]
fn to_rspotify_token_maps_tokens_and_scopes() {
    let set = token_set_from(sample_oauth_token());
    let token = to_rspotify_token(&set);
    assert_eq!(token.access_token, "access-123");
    assert_eq!(token.refresh_token.as_deref(), Some("refresh-456"));
    assert!(token.scopes.contains(&"user-top-read"));
}

#[test]
fn to_rspotify_token_maps_access_and_refresh() {
    let tokens = sample_tokens();
    let token = to_rspotify_token(&tokens);
    assert_eq!(token.access_token, "access-abc");
    assert_eq!(token.refresh_token.as_deref(), Some("refresh-xyz"));
}

#[test]
fn to_rspotify_token_carries_all_scopes() {
    let tokens = sample_tokens();
    let token = to_rspotify_token(&tokens);
    for scope in scopes() {
        assert!(
            token.scopes.contains(&scope),
            "missing scope {scope} in mapped token"
        );
    }
}

#[test]
fn scopes_cover_the_used_read_endpoints() {
    let scopes = scopes();
    assert!(scopes.contains(&"playlist-read-private"));
    assert!(scopes.contains(&"user-library-read"));
    assert!(scopes.contains(&"user-top-read"));
    assert!(scopes.contains(&"user-read-recently-played"));
}

#[test]
fn scopes_are_minimal() {
    // Privacy guard: the Web API token requests only the scopes the features
    // use. The single write scope is user-library-modify (the like/unlike key);
    // playback-control, profile, streaming, and deprecated-endpoint scopes must
    // never appear. Adding a scope here is a deliberate decision that must
    // update this test.
    let scopes = scopes();
    assert_eq!(scopes.len(), 5, "unexpected scope added: {scopes:?}");
    for scope in &scopes {
        assert!(
            !scope.contains("modify") || *scope == "user-library-modify",
            "unexpected write scope: {scope}"
        );
    }
    assert!(!scopes.contains(&"streaming"));
    assert!(!scopes.contains(&"user-read-private"));
    assert!(!scopes.iter().any(|s| s.contains("playback-state")));
    assert!(!scopes.iter().any(|s| s.contains("currently-playing")));
    assert!(
        !scopes
            .iter()
            .any(|s| s.contains("recommend") || s.contains("featured"))
    );
}

#[test]
fn token_set_debug_redacts_secrets() {
    let tokens = sample_tokens();
    let rendered = format!("{tokens:?}");
    assert!(
        !rendered.contains("access-abc"),
        "access token leaked into Debug output: {rendered}"
    );
    assert!(
        !rendered.contains("refresh-xyz"),
        "refresh token leaked into Debug output: {rendered}"
    );
}

#[test]
fn a_cloned_token_set_holds_the_same_tokens() {
    let tokens = sample_tokens();
    let copy = tokens.clone();
    assert_eq!(copy.access.expose(), "access-abc");
    assert_eq!(copy.refresh.expose(), "refresh-xyz");
    assert_eq!(copy.expires_at, tokens.expires_at);
}

#[test]
fn redirect_uri_carries_the_port() {
    assert_eq!(webapi_redirect_uri(8899), "http://127.0.0.1:8899/login");
    assert_eq!(webapi_redirect_uri(0), "http://127.0.0.1:0/login");
    assert_eq!(streaming_scopes()[0], "streaming");
    assert_eq!(streaming_scopes().len(), 5);
}

#[test]
fn a_login_falls_back_to_the_browser() {
    assert_eq!(login_start(true), LoginStep::Refresh);
    assert_eq!(login_start(false), LoginStep::Browser);
    assert_eq!(after_refresh_exchange(true), LoginStep::Store);
    assert_eq!(after_refresh_exchange(false), LoginStep::Browser);
    assert_eq!(after_browser(Ok(())), LoginStep::Store);
    assert_eq!(
        after_browser(Err("closed".to_owned())),
        LoginStep::Fail(AuthError::Login("closed".to_owned()))
    );
}

#[test]
fn the_background_refresh_never_opens_a_browser() {
    assert_eq!(background_refresh_start(true), LoginStep::Refresh);
    assert_eq!(
        background_refresh_start(false),
        LoginStep::Fail(AuthError::Refresh("no stored web-api refresh token".to_owned()))
    );
    assert_eq!(after_background_exchange(Ok(())), LoginStep::Store);
    assert_eq!(
        after_background_exchange(Err("revoked".to_owned())),
        LoginStep::Fail(AuthError::Refresh("revoked".to_owned()))
    );
}

#[test]
fn auth_errors_say_what_failed() {
    assert_eq!(
        client_build_failure("bad uri").message(),
        "oauth login failed: failed to build oauth client: bad uri"
    );
    assert_eq!(
        AuthError::Refresh("x".to_owned()).message(),
        "token refresh failed: x"
    );
    assert_eq!(
        AuthError::Keychain("x".to_owned()).message(),
        "keychain access failed: x"
    );
    assert_eq!(
        AuthError::Mapping("x".to_owned()).message(),
        "token mapping failed: x"
    );
}

#[test]
fn keychain_answers_have_their_meaning() {
    let other = || KeychainFailure::Other("locked".to_owned());
    assert_eq!(load_refresh_token(Ok(7)), Ok(Some(7)));
    assert_eq!(load_refresh_token::<u8>(Err(KeychainFailure::NoEntry)), Ok(None));
    assert_eq!(
        load_refresh_token::<u8>(Err(other())),
        Err(AuthError::Keychain("reading refresh token failed: locked".to_owned()))
    );
    assert_eq!(store_refresh_token(Ok(())), Ok(()));
    assert_eq!(
        store_refresh_token(Err("full".to_owned())),
        Err(AuthError::Keychain("writing refresh token failed: full".to_owned()))
    );
    assert_eq!(clear_refresh_token(Ok(())), Ok(()));
    assert_eq!(clear_refresh_token(Err(KeychainFailure::NoEntry)), Ok(()));
    assert_eq!(
        clear_refresh_token(Err(other())),
        Err(AuthError::Keychain("deleting refresh token failed: locked".to_owned()))
    );
    assert_eq!(
        open_failure("no store"),
        AuthError::Keychain("opening keychain entry failed: no store".to_owned())
    );
}

#[test]
fn each_flow_has_its_own_account() {
    assert_eq!(TokenKind::Streaming.account(), "oauth-refresh-streaming");
    assert_eq!(TokenKind::WebApi.account(), "oauth-refresh-webapi");
    assert_eq!((TokenKind::Streaming.name(), TokenKind::WebApi.name()), ("streaming", "web-api"));
    assert_eq!(logout_tokens(), vec![TokenKind::Streaming, TokenKind::WebApi]);
}

#[test]
fn only_the_status_reader_runs_without_a_keychain() {
    let needs_keychain = |command| Cli { command }.needs_keychain();
    assert!(needs_keychain(None));
    assert!(needs_keychain(Some(Command::Auth(AuthCommand::Login))));
    assert!(needs_keychain(Some(Command::Auth(AuthCommand::Logout))));
    assert!(!needs_keychain(Some(Command::NowPlaying)));
}
