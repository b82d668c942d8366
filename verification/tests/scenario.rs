use credential_store::commands::{keyring_delete, keyring_get, keyring_set};
use credential_store::error::{Fault, Stage, StoreError};
use credential_store::store::CredentialStore;

fn not_found() -> Fault {
    Fault { stage: Stage::Access, error: StoreError::NotFound }
}

fn invalid() -> Fault {
    Fault { stage: Stage::Resolve, error: StoreError::InvalidIdentity }
}

#[test]
fn set_get_delete_get() {
    let mut store = CredentialStore::in_memory();
    let stored = keyring_set(&mut store, "myapp", "apikey", "sk-12345");
    assert_eq!(stored.outcome, Ok(()));
    let read = keyring_get(&store, "myapp", "apikey");
    assert_eq!(read.outcome, Ok("sk-12345".to_string()));
    let deleted = keyring_delete(&mut store, "myapp", "apikey");
    assert_eq!(deleted.outcome, Ok(()));
    let read_again = keyring_get(&store, "myapp", "apikey");
    assert_eq!(read_again.outcome, Err(not_found()));
}

#[test]
fn scenario_as_the_caller_sees_it() {
    let mut store = CredentialStore::in_memory();
    assert_eq!(keyring_set(&mut store, "myapp", "apikey", "sk-12345").into_result(), Ok(()));
    assert_eq!(
        keyring_get(&store, "myapp", "apikey").into_result(),
        Ok("sk-12345".to_string())
    );
    assert_eq!(keyring_delete(&mut store, "myapp", "apikey").into_result(), Ok(()));
    assert_eq!(
        keyring_get(&store, "myapp", "apikey").into_result(),
        Err("no matching credential found".to_string())
    );
}

#[test]
fn round_trip_returns_the_secret_verbatim() {
    let mut store = CredentialStore::in_memory();
    let secret = "  p\u{e4}ss w\u{f6}rd\n\twith \"quotes\" and \u{1f511} ";
    assert_eq!(store.set("svc", "user", secret), Ok(()));
    assert_eq!(store.get("svc", "user"), Ok(secret.to_string()));
}

#[test]
fn empty_secret_is_stored_and_read_back() {
    let mut store = CredentialStore::in_memory();
    assert_eq!(store.set("svc", "user", ""), Ok(()));
    assert_eq!(store.get("svc", "user"), Ok(String::new()));
}

#[test]
fn second_set_overwrites_the_first() {
    let mut store = CredentialStore::in_memory();
    assert_eq!(store.set("svc", "user", "first"), Ok(()));
    assert_eq!(store.set("svc", "user", "second"), Ok(()));
    assert_eq!(store.get("svc", "user"), Ok("second".to_string()));
    assert_eq!(store.delete("svc", "user"), Ok(()));
    assert_eq!(store.get("svc", "user"), Err(not_found()));
}

#[test]
fn delete_removes_the_credential() {
    let mut store = CredentialStore::in_memory();
    assert_eq!(store.set("svc", "user", "secret"), Ok(()));
    assert_eq!(store.delete("svc", "user"), Ok(()));
    assert_eq!(store.get("svc", "user"), Err(not_found()));
}

#[test]
fn delete_of_nothing_fails_with_not_found() {
    let mut store = CredentialStore::in_memory();
    assert_eq!(store.delete("svc", "user"), Err(not_found()));
    assert_eq!(store.set("svc", "user", "secret"), Ok(()));
    assert_eq!(store.delete("svc", "user"), Ok(()));
    assert_eq!(store.delete("svc", "user"), Err(not_found()));
}

#[test]
fn get_of_nothing_fails_with_not_found() {
    let store = CredentialStore::in_memory();
    assert_eq!(store.get("svc", "user"), Err(not_found()));
}

#[test]
fn identities_are_isolated() {
    let mut store = CredentialStore::in_memory();
    assert_eq!(store.set("svc", "a1", "s1"), Ok(()));
    assert_eq!(store.set("svc", "a2", "s2"), Ok(()));
    assert_eq!(store.get("svc", "a1"), Ok("s1".to_string()));
    assert_eq!(store.get("svc", "a2"), Ok("s2".to_string()));
    assert_eq!(store.delete("svc", "a1"), Ok(()));
    assert_eq!(store.get("svc", "a1"), Err(not_found()));
    assert_eq!(store.get("svc", "a2"), Ok("s2".to_string()));
}

#[test]
fn service_and_account_are_not_run_together() {
    let mut store = CredentialStore::in_memory();
    assert_eq!(store.set("ab", "c", "one"), Ok(()));
    assert_eq!(store.set("a", "bc", "two"), Ok(()));
    assert_eq!(store.set("c", "ab", "three"), Ok(()));
    assert_eq!(store.get("ab", "c"), Ok("one".to_string()));
    assert_eq!(store.get("a", "bc"), Ok("two".to_string()));
    assert_eq!(store.get("c", "ab"), Ok("three".to_string()));
    assert_eq!(store.get("abc", "abc"), Err(not_found()));
}

#[test]
fn empty_service_or_account_is_turned_away() {
    let mut store = CredentialStore::in_memory();
    assert_eq!(store.set("", "user", "secret"), Err(invalid()));
    assert_eq!(store.set("svc", "", "secret"), Err(invalid()));
    assert_eq!(store.set("", "", "secret"), Err(invalid()));
    assert_eq!(store.get("", "user"), Err(invalid()));
    assert_eq!(store.get("svc", ""), Err(invalid()));
    assert_eq!(store.delete("", "user"), Err(invalid()));
    assert_eq!(store.delete("svc", ""), Err(invalid()));
    assert_eq!(store.set("svc", "user", "secret"), Ok(()));
    assert_eq!(store.delete("", "user"), Err(invalid()));
    assert_eq!(store.get("svc", "user"), Ok("secret".to_string()));
}

#[test]
fn many_credentials_keep_their_own_secrets() {
    let mut store = CredentialStore::in_memory();
    for i in 0..40 {
        let account = format!("user{}", i);
        let secret = format!("secret{}", i);
        assert_eq!(store.set("svc", &account, &secret), Ok(()));
    }
    for i in (0..40).step_by(2) {
        let account = format!("user{}", i);
        assert_eq!(store.delete("svc", &account), Ok(()));
    }
    for i in 0..40 {
        let account = format!("user{}", i);
        let expected = if i % 2 == 0 { Err(not_found()) } else { Ok(format!("secret{}", i)) };
        assert_eq!(store.get("svc", &account), expected);
    }
}
