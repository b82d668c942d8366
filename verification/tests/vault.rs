use credential_store::vault::Vault;

#[test]
fn new_vault_holds_nothing() {
    let vault = Vault::new();
    assert_eq!(vault.lookup("svc", "user"), None);
}

#[test]
fn put_then_lookup() {
    let mut vault = Vault::new();
    vault.put("svc", "user", "secret");
    assert_eq!(vault.lookup("svc", "user"), Some("secret".to_string()));
    assert_eq!(vault.lookup("svc", "other"), None);
    assert_eq!(vault.lookup("other", "user"), None);
}

#[test]
fn put_replaces_in_place() {
    let mut vault = Vault::new();
    vault.put("svc", "a", "1");
    vault.put("svc", "b", "2");
    vault.put("svc", "a", "3");
    assert_eq!(vault.lookup("svc", "a"), Some("3".to_string()));
    assert_eq!(vault.lookup("svc", "b"), Some("2".to_string()));
    assert!(vault.remove("svc", "a"));
    assert_eq!(vault.lookup("svc", "a"), None);
    assert!(!vault.remove("svc", "a"));
}

#[test]
fn remove_tells_whether_anything_was_kept() {
    let mut vault = Vault::new();
    assert!(!vault.remove("svc", "user"));
    vault.put("svc", "user", "secret");
    vault.put("svc", "next", "other");
    assert!(vault.remove("svc", "user"));
    assert!(!vault.remove("svc", "user"));
    assert_eq!(vault.lookup("svc", "next"), Some("other".to_string()));
}
