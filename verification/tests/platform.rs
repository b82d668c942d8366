use credential_store::commands::{keyring_delete, keyring_get, keyring_set};
use credential_store::error::{Fault, Stage, StoreError};
use credential_store::store::CredentialStore;

fn fresh_account(tag: &str) -> String {
    let nanos = std::time::SystemTime::now()
        .duration_since(std::time::UNIX_EPOCH)
        .map(|d| d.as_nanos())
        .unwrap_or(0);
    format!("{}-{}", tag, nanos)
}

fn from_backend(fault: &Fault) -> bool {
    fault.stage == Stage::Resolve || fault.error != StoreError::InvalidIdentity
}

const SERVICE: &str = "credential_store.tests";

#[test]
fn platform_turns_away_an_empty_identity() {
    let invalid = Fault { stage: Stage::Resolve, error: StoreError::InvalidIdentity };
    let mut store = CredentialStore::platform();
    assert_eq!(store.set("", "user", "secret"), Err(invalid));
    assert_eq!(store.get(SERVICE, ""), Err(invalid));
    assert_eq!(store.delete("", ""), Err(invalid));
}

#[test]
fn platform_get_of_an_identity_never_stored_fails() {
    let account = fresh_account("never-stored");
    let store = CredentialStore::platform();
    let read = keyring_get(&store, SERVICE, &account);
    let fault = read.outcome.clone().expect_err("nothing was stored under this identity");
    assert!(from_backend(&fault));
    assert_eq!(read.log.len(), 2);
    assert_eq!(
        read.log[0],
        format!("Rust: Getting keyring - service: {}, account: {}", SERVICE, account)
    );
    assert_eq!(read.into_result(), Err(fault.error.message()));
}

#[test]
fn platform_delete_of_an_identity_never_stored_fails() {
    let account = fresh_account("never-deleted");
    let mut store = CredentialStore::platform();
    let deleted = keyring_delete(&mut store, SERVICE, &account);
    let fault = deleted.outcome.expect_err("nothing was stored under this identity");
    assert!(from_backend(&fault));
    assert_eq!(deleted.log.len(), 2);
    assert_eq!(
        deleted.log[0],
        format!("Rust: Deleting keyring - service: {}, account: {}", SERVICE, account)
    );
    assert!(deleted.log[1].ends_with(&fault.error.message()));
}

#[test]
fn platform_reads_back_what_it_stored() {
    let account = fresh_account("round-trip");
    let secret = "sk-12345";
    let mut store = CredentialStore::platform();
    let stored = keyring_set(&mut store, SERVICE, &account, secret);
    assert_eq!(stored.log.len(), 2);
    for line in &stored.log {
        assert!(!line.contains(secret));
    }
    match stored.outcome {
        Ok(()) => {
            assert_eq!(stored.log[1], "Rust: Password set successfully");
            if let Ok(found) = store.get(SERVICE, &account) {
                assert_eq!(found, secret);
            }
            if let Err(fault) = store.delete(SERVICE, &account) {
                assert!(from_backend(&fault));
            }
        }
        Err(fault) => {
            assert!(from_backend(&fault));
            assert_ne!(fault.error, StoreError::NotFound);
            assert!(stored.log[1].ends_with(&fault.error.message()));
        }
    }
}

#[test]
fn platform_set_never_answers_not_found() {
    let mut store = CredentialStore::platform();
    for secret in ["sk-12345", ""] {
        let account = fresh_account("write");
        if let Err(fault) = store.set(SERVICE, &account, secret) {
            assert!(from_backend(&fault));
            assert_ne!(fault.error, StoreError::NotFound);
        } else {
            let _ = store.delete(SERVICE, &account);
        }
    }
}
