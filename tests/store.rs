use sentiment_session::{load_credential, CredentialStore};

#[test]
fn missing_file_holds_no_credential() {
    assert_eq!(load_credential(None), None);
}

#[test]
fn empty_file_holds_no_credential() {
    assert_eq!(load_credential(Some(String::new())), None);
    assert_eq!(load_credential(Some(String::new())), load_credential(None));
}

#[test]
fn stored_credential_is_returned_verbatim() {
    assert_eq!(load_credential(Some("hf_abc123".to_string())), Some("hf_abc123".to_string()));
}

#[test]
fn load_after_save_returns_saved_value() {
    let mut store = CredentialStore::from_contents(None);
    assert_eq!(store.load(), None);
    store.save("hf_token");
    assert_eq!(store.load(), Some("hf_token".to_string()));
    assert_eq!(store.contents(), Some("hf_token".to_string()));
}

#[test]
fn saving_loaded_value_again_changes_nothing() {
    let mut store = CredentialStore::from_contents(Some("hf_token".to_string()));
    let first = store.load().unwrap();
    store.save(&first);
    assert_eq!(store.load(), Some(first));
}

#[test]
fn save_overwrites_existing_content() {
    let mut store = CredentialStore::from_contents(Some("old".to_string()));
    store.save("new");
    assert_eq!(store.contents(), Some("new".to_string()));
}

#[test]
fn store_from_empty_file_loads_nothing() {
    let store = CredentialStore::from_contents(Some(String::new()));
    assert_eq!(store.load(), None);
    assert_eq!(store.contents(), Some(String::new()));
}
