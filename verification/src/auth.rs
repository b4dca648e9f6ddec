//! Two OAuth flows: one bootstraps the librespot streaming session, the other
//! authenticates the Web API.
//!
//! Spotify returns HTTP 429 for Web API calls authenticated with the librespot
//! client id, so the Web API runs on a separate client id with extended quota.
//! Each flow keeps its own rotating refresh token in the Keychain; access tokens
//! live in memory only, as secrets that no log or debug output shows.

use secrecy::{ExposeSecret, SecretString};
use std::time::Instant;
use vstd::prelude::*;
use vstd::string::*;
use crate::error::AuthError;
use crate::text::{decimal, joined, push_decimal, views};

verus! {

/// librespot's client id. Used only to connect the streaming session: Spotify
/// answers every Web API call made with it with 429, so the Web API uses a
/// different client id (see [`webapi_client_id_default`]).
pub const STREAMING_CLIENT_ID: &'static str = "65b708073fc0480ea92a077233ca87bd";

/// Default Web API client id — the extended-quota id shared by ncspot and
/// spotify-player. Overridable via `config.client_id` to point at your own app.
const WEBAPI_CLIENT_ID: &'static str = "d420a117a32841c2b3474932e49fb54b";

/// Loopback redirect for the streaming flow.
pub const STREAMING_REDIRECT_URI: &'static str = "http://127.0.0.1:8898/login";

/// HTML returned to the browser after each authorization, so the user knows to
/// return to the terminal.
pub const BROWSER_MESSAGE: &'static str =
    "<!doctype html><html><body><h1>spot-defy is authorized</h1><p>You can close this tab and return to your terminal.</p></body></html>";

/// The default Web API client id.
pub open spec fn client_id_default() -> Seq<char> {
    "d420a117a32841c2b3474932e49fb54b"@
}

/// The default Web API client id (extended quota). Used as the config default.
#[must_use]
pub fn webapi_client_id_default() -> (id: &'static str)
    ensures
        id@ == client_id_default(),
{
    WEBAPI_CLIENT_ID
}

/// The scopes of the Web API token.
pub open spec fn web_scopes() -> Seq<Seq<char>> {
    seq![
        "playlist-read-private"@,
        "user-library-read"@,
        "user-top-read"@,
        "user-read-recently-played"@,
        "user-library-modify"@,
    ]
}

/// The Web API OAuth scopes — the minimal set the app's features actually use:
/// reading your playlists, top items, recently played, and saved tracks, and
/// the single write scope behind liking a track. Search needs no scope. No
/// playback-control scopes (playback is local via librespot), no profile/email
/// scope, and no deprecated-endpoint scopes are requested.
#[must_use]
pub fn scopes() -> (scopes: Vec<&'static str>)
    ensures
        views(scopes@) == web_scopes(),
{
    let scopes = vec![
        "playlist-read-private",
        "user-library-read",
        "user-top-read",
        "user-read-recently-played",
        "user-library-modify",
    ];
    assert(views(scopes@) =~= web_scopes());
    scopes
}

/// The scopes of the streaming session.
pub open spec fn session_scopes() -> Seq<Seq<char>> {
    seq![
        "streaming"@,
        "user-read-private"@,
        "user-read-playback-state"@,
        "user-modify-playback-state"@,
        "user-read-currently-playing"@,
    ]
}

/// Scopes for the streaming session bootstrap. librespot's own OAuth example
/// requests this set; `["streaming"]` alone can leave the access-point session
/// under-provisioned for loading tracks after the first.
pub fn streaming_scopes() -> (scopes: Vec<&'static str>)
    ensures
        views(scopes@) == session_scopes(),
{
    let scopes = vec![
        "streaming",
        "user-read-private",
        "user-read-playback-state",
        "user-modify-playback-state",
        "user-read-currently-playing",
    ];
    assert(views(scopes@) =~= session_scopes());
    scopes
}

/// The loopback redirect URI for the Web API flow on `port`.
pub fn webapi_redirect_uri(port: u16) -> (uri: String)
    ensures
        uri@ == "http://127.0.0.1:"@ + decimal(port as nat) + "/login"@,
{
    let mut uri = "http://127.0.0.1:".to_owned();
    push_decimal(&mut uri, port as u64);
    uri.append("/login");
    uri
}

/// A token held as secrecy's `SecretString`: debug output shows it redacted,
/// and its memory is wiped when it is dropped.
#[verifier::external_body]
#[derive(Debug)]
pub struct Secret {
    inner: SecretString,
}

/// The text that a secret holds.
pub uninterp spec fn secret_text(secret: Secret) -> Seq<char>;

/// secrecy's `SecretString::from` takes a text into a secret that holds it.
#[verifier::external_body]
fn seal(text: String) -> (secret: Secret)
    ensures
        secret_text(secret) == text@,
{
    Secret { inner: SecretString::from(text) }
}

/// secrecy's `expose_secret` gives the text that a secret holds.
#[verifier::external_body]
fn reveal_text(secret: &Secret) -> (text: &str)
    ensures
        text@ == secret_text(*secret),
{
    secret.inner.expose_secret()
}

/// secrecy's `Clone` for `SecretString` makes a secret that holds the same
/// text.
#[verifier::external_body]
fn copy_secret(secret: &Secret) -> (copy: Secret)
    ensures
        secret_text(copy) == secret_text(*secret),
{
    Secret { inner: secret.inner.clone() }
}

impl View for Secret {
    type V = Seq<char>;

    open spec fn view(&self) -> Seq<char> {
        secret_text(*self)
    }
}

impl Secret {
    /// Takes a text into a secret.
    pub fn new(text: String) -> (secret: Secret)
        ensures
            secret@ == text@,
    {
        seal(text)
    }

    /// The text, for the one call that needs it.
    pub fn expose(&self) -> (text: &str)
        ensures
            text@ == self@,
    {
        reveal_text(self)
    }
}

impl Clone for Secret {
    fn clone(&self) -> (copy: Self)
        ensures
            copy@ == self@,
    {
        copy_secret(self)
    }
}

/// The tokens of one OAuth exchange, as the OAuth client returns them.
pub struct OAuthToken {
    pub access_token: String,
    pub refresh_token: String,
    pub expires_at: Instant,
}

/// The full set of in-memory tokens produced by one OAuth exchange.
#[derive(Debug)]
pub struct TokenSet {
    /// Short-lived (~1h) access token.
    pub access: Secret,
    /// Rotating, single-use refresh token persisted to the Keychain.
    pub refresh: Secret,
    /// Monotonic instant at which `access` expires.
    pub expires_at: Instant,
}

impl Clone for TokenSet {
    fn clone(&self) -> (copy: Self)
        ensures
            copy.access@ == self.access@,
            copy.refresh@ == self.refresh@,
            copy.expires_at == self.expires_at,
    {
        TokenSet {
            access: self.access.clone(),
            refresh: self.refresh.clone(),
            expires_at: self.expires_at,
        }
    }
}

/// Convert an [`OAuthToken`] into an in-memory [`TokenSet`], wrapping both token
/// strings as secrets immediately.
pub fn token_set_from(token: OAuthToken) -> (tokens: TokenSet)
    ensures
        tokens.access@ == token.access_token@,
        tokens.refresh@ == token.refresh_token@,
        tokens.expires_at == token.expires_at,
{
    TokenSet {
        access: Secret::new(token.access_token),
        refresh: Secret::new(token.refresh_token),
        expires_at: token.expires_at,
    }
}

/// What the Web API client is built from.
pub struct WebApiToken {
    pub access_token: String,
    pub refresh_token: Option<String>,
    pub scopes: Vec<&'static str>,
}

/// Map an in-memory Web API [`TokenSet`] into the token of the Web API client.
///
/// The access token is exposed only at this HTTP-boundary call site.
#[must_use]
pub fn to_rspotify_token(tokens: &TokenSet) -> (token: WebApiToken)
    ensures
        token.access_token@ == tokens.access@,
        token.refresh_token is Some,
        token.refresh_token->0@ == tokens.refresh@,
        views(token.scopes@) == web_scopes(),
{
    WebApiToken {
        access_token: tokens.access.expose().to_owned(),
        refresh_token: Some(tokens.refresh.expose().to_owned()),
        scopes: scopes(),
    }
}

/// Where a login stands.
#[derive(Debug, PartialEq, Eq)]
pub enum LoginStep {
    /// Mint a token from the stored refresh token.
    Refresh,
    /// Run the interactive browser flow.
    Browser,
    /// Persist the rotated refresh token; the login is then done.
    Store,
    /// The login failed.
    Fail(AuthError),
}

/// How a login starts: with the stored refresh token where there is one, else
/// in the browser.
pub fn login_start(stored: bool) -> (step: LoginStep)
    ensures
        (step is Refresh) == stored,
        (step is Browser) == !stored,
{
    if stored {
        LoginStep::Refresh
    } else {
        LoginStep::Browser
    }
}

/// After the refresh exchange: a rejected (revoked or rotated) refresh token
/// falls back to the browser, so a stale entry never bricks login.
pub fn after_refresh_exchange(accepted: bool) -> (step: LoginStep)
    ensures
        (step is Store) == accepted,
        (step is Browser) == !accepted,
{
    if accepted {
        LoginStep::Store
    } else {
        LoginStep::Browser
    }
}

/// After the browser flow: its failure is final.
pub fn after_browser(result: Result<(), String>) -> (step: LoginStep)
    ensures
        (step is Store) == (result is Ok),
        result is Err ==> step is Fail && step->Fail_0 is Login && step->Fail_0->Login_0@
            == result->Err_0@,
{
    match result {
        Ok(()) => LoginStep::Store,
        Err(detail) => LoginStep::Fail(AuthError::Login(detail)),
    }
}

/// The background refresh performs no browser fallback: without a stored
/// refresh token it fails.
pub fn background_refresh_start(stored: bool) -> (step: LoginStep)
    ensures
        (step is Refresh) == stored,
        !stored ==> step is Fail && step->Fail_0 is Refresh && step->Fail_0->Refresh_0@
            == "no stored web-api refresh token"@,
{
    if stored {
        LoginStep::Refresh
    } else {
        LoginStep::Fail(AuthError::Refresh("no stored web-api refresh token".to_owned()))
    }
}

/// After the exchange of the background refresh: a rejection is final.
pub fn after_background_exchange(result: Result<(), String>) -> (step: LoginStep)
    ensures
        (step is Store) == (result is Ok),
        result is Err ==> step is Fail && step->Fail_0 is Refresh && step->Fail_0->Refresh_0@
            == result->Err_0@,
{
    match result {
        Ok(()) => LoginStep::Store,
        Err(detail) => LoginStep::Fail(AuthError::Refresh(detail)),
    }
}

/// The error where the OAuth client cannot be built.
pub fn client_build_failure(detail: &str) -> (error: AuthError)
    ensures
        error is Login,
        error->Login_0@ == "failed to build oauth client: "@ + detail@,
{
    AuthError::Login(joined("failed to build oauth client: ", detail))
}

/// Every list that the client asks for has its scope, and so has liking; nothing
/// beyond them is asked for.
pub proof fn every_feature_has_its_scope(scope: Seq<char>)
    ensures
        web_scopes().contains(scope) == (scope == "playlist-read-private"@ || scope
            == "user-library-read"@ || scope == "user-top-read"@ || scope
            == "user-read-recently-played"@ || scope == "user-library-modify"@),
        session_scopes().contains("streaming"@),
{
    let all = web_scopes();
    assert(all[0] == "playlist-read-private"@ && all[1] == "user-library-read"@ && all[2]
        == "user-top-read"@ && all[3] == "user-read-recently-played"@ && all[4]
        == "user-library-modify"@);
    assert(session_scopes()[0] == "streaming"@);
}

} // verus!
