//! Keychain storage of the rotating OAuth refresh tokens: which entry holds
//! which token, and what the Keychain's answers mean.
//!
//! The refresh tokens are the only secrets persisted; access tokens stay in
//! memory and are never written to disk.

use vstd::prelude::*;
use crate::error::AuthError;
use crate::text::joined;

verus! {

/// Keychain service name (the application identifier).
pub const SERVICE: &'static str = "spot-defy";

/// Which OAuth flow a refresh token belongs to. The streaming and Web API flows
/// use separate client ids, so their rotating refresh tokens are stored under
/// distinct Keychain accounts.
#[derive(Debug, Clone, Copy, PartialEq, Eq, Structural)]
pub enum TokenKind {
    /// The librespot streaming-session refresh token.
    Streaming,
    /// The Web API (extended-quota client) refresh token.
    WebApi,
}

impl TokenKind {
    /// The Keychain account name for this token kind.
    pub open spec fn account_text(self) -> Seq<char> {
        match self {
            TokenKind::Streaming => "oauth-refresh-streaming"@,
            TokenKind::WebApi => "oauth-refresh-webapi"@,
        }
    }

    /// The token's name in messages to the user.
    pub open spec fn name_text(self) -> Seq<char> {
        match self {
            TokenKind::Streaming => "streaming"@,
            TokenKind::WebApi => "web-api"@,
        }
    }

    /// The token's name in messages to the user.
    pub fn name(self) -> (name: &'static str)
        ensures
            name@ == self.name_text(),
    {
        match self {
            TokenKind::Streaming => "streaming",
            TokenKind::WebApi => "web-api",
        }
    }

    /// The Keychain account name for this token kind.
    pub fn account(self) -> (account: &'static str)
        ensures
            account@ == self.account_text(),
    {
        match self {
            TokenKind::Streaming => "oauth-refresh-streaming",
            TokenKind::WebApi => "oauth-refresh-webapi",
        }
    }
}

/// The two token kinds never share a Keychain account.
pub proof fn accounts_are_distinct()
    ensures
        TokenKind::Streaming.account_text() != TokenKind::WebApi.account_text(),
{
    reveal_strlit("oauth-refresh-streaming");
    reveal_strlit("oauth-refresh-webapi");
    assert("oauth-refresh-streaming"@.len() != "oauth-refresh-webapi"@.len());
}

/// How a Keychain call failed.
#[derive(Debug, PartialEq, Eq)]
pub enum KeychainFailure {
    /// There is no such entry.
    NoEntry,
    /// Anything else.
    Other(String),
}

/// The meaning of a failed entry construction.
pub fn open_failure(detail: &str) -> (error: AuthError)
    ensures
        error is Keychain,
        error->Keychain_0@ == "opening keychain entry failed: "@ + detail@,
{
    AuthError::Keychain(joined("opening keychain entry failed: ", detail))
}

/// Load a refresh token, given what the Keychain answered: a missing entry is no
/// token (first launch, or after logout), any other failure is an error.
pub fn load_refresh_token<T>(reply: Result<T, KeychainFailure>) -> (result: Result<
    Option<T>,
    AuthError,
>)
    ensures
        reply is Ok ==> result == Ok::<Option<T>, AuthError>(Some(reply->Ok_0)),
        reply is Err && reply->Err_0 is NoEntry ==> result == Ok::<Option<T>, AuthError>(None),
        reply is Err && reply->Err_0 is Other ==> result is Err && result->Err_0 is Keychain
            && result->Err_0->Keychain_0@ == "reading refresh token failed: "@
            + reply->Err_0->Other_0@,
{
    match reply {
        Ok(token) => Ok(Some(token)),
        Err(KeychainFailure::NoEntry) => Ok(None),
        Err(KeychainFailure::Other(detail)) => Err(
            AuthError::Keychain(joined("reading refresh token failed: ", detail.as_str())),
        ),
    }
}

/// Persist a refresh token, given what the Keychain answered.
pub fn store_refresh_token(reply: Result<(), String>) -> (result: Result<(), AuthError>)
    ensures
        result is Ok == reply is Ok,
        reply is Err ==> result->Err_0 is Keychain && result->Err_0->Keychain_0@
            == "writing refresh token failed: "@ + reply->Err_0@,
{
    match reply {
        Ok(()) => Ok(()),
        Err(detail) => Err(
            AuthError::Keychain(joined("writing refresh token failed: ", detail.as_str())),
        ),
    }
}

/// Remove a refresh token (logout), given what the Keychain answered. Deleting a
/// missing entry is a success, so logout is idempotent and never errors on a
/// fresh install.
pub fn clear_refresh_token(reply: Result<(), KeychainFailure>) -> (result: Result<(), AuthError>)
    ensures
        result is Ok == (reply is Ok || reply->Err_0 is NoEntry),
        result is Err ==> result->Err_0 is Keychain && result->Err_0->Keychain_0@
            == "deleting refresh token failed: "@ + reply->Err_0->Other_0@,
{
    match reply {
        Ok(()) => Ok(()),
        Err(KeychainFailure::NoEntry) => Ok(()),
        Err(KeychainFailure::Other(detail)) => Err(
            AuthError::Keychain(joined("deleting refresh token failed: ", detail.as_str())),
        ),
    }
}

} // verus!
