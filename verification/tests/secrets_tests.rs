//! Keychain answers, from an in-memory credential store.

use keyring_core::mock::{Cred, Store as MockStore};
use keyring_core::{Entry, Error as KeyringError};
use spot_defy::auth::Secret;
use spot_defy::error::AuthError;
use spot_defy::secrets::{
    clear_refresh_token, load_refresh_token, store_refresh_token, KeychainFailure,
};

/// Keep credentials in memory, without touching a real Keychain.
fn install_mock_store() {
    keyring_core::set_default_store(MockStore::new().expect("mock store builds"));
}

fn failure(err: KeyringError) -> KeychainFailure {
    match err {
        KeyringError::NoEntry => KeychainFailure::NoEntry,
        other => KeychainFailure::Other(other.to_string()),
    }
}

fn load_from(service: &str, account: &str) -> Result<Option<Secret>, AuthError> {
    let entry = Entry::new(service, account).expect("entry opens");
    load_refresh_token(entry.get_password().map(Secret::new).map_err(failure))
}

fn store_into(service: &str, account: &str, token: &Secret) -> Result<(), AuthError> {
    let entry = Entry::new(service, account).expect("entry opens");
    let reply = entry.set_password(token.expose());
    store_refresh_token(reply.map_err(|err| err.to_string()))
}

fn clear_from(service: &str, account: &str) -> Result<(), AuthError> {
    let entry = Entry::new(service, account).expect("entry opens");
    clear_refresh_token(entry.delete_credential().map_err(failure))
}

fn secret(text: &str) -> Secret {
    Secret::new(text.to_owned())
}

#[test]
fn load_returns_none_when_no_entry_exists() {
    install_mock_store();
    let loaded = load_from("spot-defy-test-missing", "acct").expect("load succeeds");
    assert!(loaded.is_none(), "expected no token for a fresh entry");
}

#[test]
fn store_then_load_round_trips_the_secret() {
    install_mock_store();
    let (service, account) = ("spot-defy-test-roundtrip", "acct");
    let token = secret("refresh-rotating-123");
    store_into(service, account, &token).expect("store succeeds");
    let loaded = load_from(service, account)
        .expect("load succeeds")
        .expect("token present after store");
    assert_eq!(loaded.expose(), "refresh-rotating-123");
}

#[test]
fn store_overwrites_a_prior_token() {
    install_mock_store();
    let (service, account) = ("spot-defy-test-overwrite", "acct");
    store_into(service, account, &secret("old")).expect("first store");
    store_into(service, account, &secret("new")).expect("second store");
    let loaded = load_from(service, account)
        .expect("load succeeds")
        .expect("token present");
    assert_eq!(loaded.expose(), "new");
}

#[test]
fn clear_removes_a_stored_token() {
    install_mock_store();
    let (service, account) = ("spot-defy-test-clear", "acct");
    store_into(service, account, &secret("doomed")).expect("store succeeds");
    clear_from(service, account).expect("clear succeeds");
    let loaded = load_from(service, account).expect("load succeeds");
    assert!(loaded.is_none(), "token should be gone after clear");
}

#[test]
fn clear_is_idempotent_on_missing_entry() {
    install_mock_store();
    clear_from("spot-defy-test-idempotent", "acct").expect("clearing a missing entry succeeds");
}

#[test]
fn load_surfaces_non_missing_keychain_errors() {
    install_mock_store();
    let (service, account) = ("spot-defy-test-error", "acct");
    // Create the entry, then arm the mock to fail the next read with a
    // platform-style error that is not a missing entry.
    store_into(service, account, &secret("present")).expect("store succeeds");
    let entry = Entry::new(service, account).expect("entry opens");
    let mock: &Cred = entry.as_any().downcast_ref().expect("mock credential");
    mock.set_error(KeyringError::Invalid(
        "mock".to_string(),
        "forced read failure".to_string(),
    ));
    let result = load_from(service, account);
    assert!(result.is_err(), "non-NoEntry errors must propagate");
}
