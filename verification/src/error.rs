//! Error enums shared across modules, with the text each one shows.
//!
//! No variant ever carries a token or other secret in its text.

use vstd::prelude::*;
use crate::text::joined;

verus! {

/// Errors raised by the OAuth / token lifecycle.
#[derive(Debug, PartialEq, Eq)]
pub enum AuthError {
    /// The interactive PKCE loopback flow failed to complete.
    Login(String),
    /// Minting a fresh access token from the stored refresh token failed.
    Refresh(String),
    /// Reading or writing the rotating refresh token in the Keychain failed.
    Keychain(String),
    /// A token field could not be mapped into the target credential type.
    Mapping(String),
}

impl AuthError {
    /// The text shown for this error.
    pub open spec fn text(&self) -> Seq<char> {
        match self {
            AuthError::Login(detail) => "oauth login failed: "@ + detail@,
            AuthError::Refresh(detail) => "token refresh failed: "@ + detail@,
            AuthError::Keychain(detail) => "keychain access failed: "@ + detail@,
            AuthError::Mapping(detail) => "token mapping failed: "@ + detail@,
        }
    }

    /// The text shown for this error.
    pub fn message(&self) -> (text: String)
        ensures
            text@ == self.text(),
    {
        match self {
            AuthError::Login(detail) => joined("oauth login failed: ", detail.as_str()),
            AuthError::Refresh(detail) => joined("token refresh failed: ", detail.as_str()),
            AuthError::Keychain(detail) => joined("keychain access failed: ", detail.as_str()),
            AuthError::Mapping(detail) => joined("token mapping failed: ", detail.as_str()),
        }
    }
}

/// Errors raised by the Web API layer.
#[derive(Debug, PartialEq, Eq)]
pub enum ApiError {
    /// The underlying HTTP request failed (network, TLS, timeout).
    Request(String),
    /// The Spotify API returned an error status (auth, 4xx/5xx).
    Response(String),
    /// Spotify rate-limited the request (HTTP 429). `retry_after_secs` carries
    /// the server's `Retry-After` hint when present.
    RateLimited { retry_after_secs: Option<u64> },
    /// A response payload could not be mapped into a domain type.
    Mapping(String),
    /// The requested capability is not yet implemented.
    NotImplemented(&'static str),
}

/// What an [`ApiError`] stands for.
pub enum ApiErrorView {
    Request(Seq<char>),
    Response(Seq<char>),
    RateLimited(Option<u64>),
    Mapping(Seq<char>),
    NotImplemented(Seq<char>),
}

impl View for ApiError {
    type V = ApiErrorView;

    open spec fn view(&self) -> ApiErrorView {
        match self {
            ApiError::Request(detail) => ApiErrorView::Request(detail@),
            ApiError::Response(detail) => ApiErrorView::Response(detail@),
            ApiError::RateLimited { retry_after_secs } => ApiErrorView::RateLimited(
                *retry_after_secs,
            ),
            ApiError::Mapping(detail) => ApiErrorView::Mapping(detail@),
            ApiError::NotImplemented(what) => ApiErrorView::NotImplemented(what@),
        }
    }
}

impl ApiError {
    /// The text shown for this error.
    pub open spec fn text(&self) -> Seq<char> {
        match self {
            ApiError::Request(detail) => "spotify api request failed: "@ + detail@,
            ApiError::Response(detail) => "spotify api returned an error: "@ + detail@,
            ApiError::RateLimited { .. } =>
                "rate limited by spotify (429); retried but still limited"@,
            ApiError::Mapping(detail) => "failed to map spotify response: "@ + detail@,
            ApiError::NotImplemented(what) => "api capability not implemented: "@ + what@,
        }
    }

    /// The text shown for this error.
    pub fn message(&self) -> (text: String)
        ensures
            text@ == self.text(),
    {
        match self {
            ApiError::Request(detail) => joined("spotify api request failed: ", detail.as_str()),
            ApiError::Response(detail) => joined(
                "spotify api returned an error: ",
                detail.as_str(),
            ),
            ApiError::RateLimited { .. } =>
                "rate limited by spotify (429); retried but still limited".to_owned(),
            ApiError::Mapping(detail) => joined(
                "failed to map spotify response: ",
                detail.as_str(),
            ),
            ApiError::NotImplemented(what) => joined("api capability not implemented: ", what),
        }
    }
}

/// Errors raised by the streaming/playback layer.
#[derive(Debug, PartialEq, Eq)]
pub enum PlayerError {
    /// Establishing or refreshing the librespot streaming session failed.
    Session(String),
    /// The account is not Premium, so streaming is unavailable.
    PremiumRequired,
    /// A load/play/seek control command failed.
    Control(String),
    /// The audio backend could not be initialized.
    AudioBackend(String),
    /// The requested capability is not yet implemented.
    NotImplemented(&'static str),
}

impl PlayerError {
    /// The text shown for this error.
    pub open spec fn text(&self) -> Seq<char> {
        match self {
            PlayerError::Session(detail) => "streaming session error: "@ + detail@,
            PlayerError::PremiumRequired => "spotify premium is required for streaming"@,
            PlayerError::Control(detail) => "playback control failed: "@ + detail@,
            PlayerError::AudioBackend(detail) => "audio backend error: "@ + detail@,
            PlayerError::NotImplemented(what) => "player capability not implemented: "@ + what@,
        }
    }

    /// The text shown for this error.
    pub fn message(&self) -> (text: String)
        ensures
            text@ == self.text(),
    {
        match self {
            PlayerError::Session(detail) => joined("streaming session error: ", detail.as_str()),
            PlayerError::PremiumRequired => "spotify premium is required for streaming".to_owned(),
            PlayerError::Control(detail) => joined("playback control failed: ", detail.as_str()),
            PlayerError::AudioBackend(detail) => joined("audio backend error: ", detail.as_str()),
            PlayerError::NotImplemented(what) => joined(
                "player capability not implemented: ",
                what,
            ),
        }
    }
}

/// Errors raised by the now-playing IPC layer.
#[derive(Debug, PartialEq, Eq)]
pub enum IpcError {
    /// Binding, connecting to, or unlinking the Unix socket failed.
    Socket(String),
    /// Serializing or deserializing the wire payload failed.
    Payload(String),
    /// The client timed out waiting for the server to respond.
    Timeout,
}

impl IpcError {
    /// The text shown for this error.
    pub open spec fn text(&self) -> Seq<char> {
        match self {
            IpcError::Socket(detail) => "ipc socket error: "@ + detail@,
            IpcError::Payload(detail) => "ipc payload error: "@ + detail@,
            IpcError::Timeout => "ipc request timed out"@,
        }
    }

    /// The text shown for this error.
    pub fn message(&self) -> (text: String)
        ensures
            text@ == self.text(),
    {
        match self {
            IpcError::Socket(detail) => joined("ipc socket error: ", detail.as_str()),
            IpcError::Payload(detail) => joined("ipc payload error: ", detail.as_str()),
            IpcError::Timeout => "ipc request timed out".to_owned(),
        }
    }
}

} // verus!
