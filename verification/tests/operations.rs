use keyring_core::mock;
use keyring_core::Error as KeyringError;
use secure_store::{
    secure_delete, secure_exists, secure_get, secure_set, SecureDeleteRequest,
    SecureExistsRequest, SecureGetRequest, SecureKey, SecureSetRequest,
};
use std::sync::{Arc, Once};

// Every test in this file runs against the in-memory mock store of
// keyring_core, and uses a service of its own.

static START: Once = Once::new();

fn use_mock_store() -> Arc<keyring_core::CredentialStore> {
    START.call_once(|| keyring_core::set_default_store(mock::Store::new().unwrap()));
    keyring_core::get_default_store().unwrap()
}

fn key(service: &str, user: &str) -> SecureKey {
    SecureKey { service: service.to_string(), user: user.to_string() }
}

fn store_value(service: &str, user: &str, value: &str) -> Result<(), String> {
    secure_set(SecureSetRequest { key: key(service, user), value: value.to_string() })
}

fn fetch(service: &str, user: &str) -> Result<Option<String>, String> {
    secure_get(SecureGetRequest { key: key(service, user) })
}

fn remove(service: &str, user: &str) -> Result<(), String> {
    secure_delete(SecureDeleteRequest { key: key(service, user) })
}

fn present(service: &str, user: &str) -> Result<bool, String> {
    secure_exists(SecureExistsRequest { key: key(service, user) })
}

fn fail_next_call(service: &str, user: &str, error: KeyringError) {
    let entry = keyring_core::Entry::new(service, user).unwrap();
    let cred: &mock::Cred = entry.as_any().downcast_ref().unwrap();
    cred.set_error(error);
}

fn platform(reason: &str) -> Box<dyn std::error::Error + Send + Sync> {
    Box::new(std::io::Error::other(reason.to_string()))
}

#[test]
fn set_get_exists_delete_in_turn() {
    use_mock_store();
    assert_eq!(store_value("app", "alice", "secret123"), Ok(()));
    assert_eq!(fetch("app", "alice"), Ok(Some("secret123".to_string())));
    assert_eq!(present("app", "alice"), Ok(true));
    assert_eq!(remove("app", "alice"), Ok(()));
    assert_eq!(fetch("app", "alice"), Ok(None));
    assert_eq!(present("app", "alice"), Ok(false));
}

#[test]
fn get_returns_what_was_set() {
    use_mock_store();
    for value in ["v", "", " padded ", "line\nbreak", "p\u{e4}ssw\u{f6}rd \u{1f511}"] {
        assert_eq!(store_value("round-trip", "alice", value), Ok(()));
        assert_eq!(fetch("round-trip", "alice"), Ok(Some(value.to_string())));
    }
}

#[test]
fn the_last_set_wins() {
    use_mock_store();
    assert_eq!(store_value("overwrite", "alice", "first"), Ok(()));
    assert_eq!(store_value("overwrite", "alice", "second"), Ok(()));
    assert_eq!(fetch("overwrite", "alice"), Ok(Some("second".to_string())));
}

#[test]
fn delete_of_a_missing_record_succeeds() {
    use_mock_store();
    assert_eq!(remove("never-set", "alice"), Ok(()));
    assert_eq!(store_value("twice", "alice", "v"), Ok(()));
    assert_eq!(remove("twice", "alice"), Ok(()));
    assert_eq!(remove("twice", "alice"), Ok(()));
    assert_eq!(fetch("twice", "alice"), Ok(None));
}

#[test]
fn exists_is_false_exactly_when_get_is_none() {
    use_mock_store();
    assert_eq!(fetch("presence", "alice"), Ok(None));
    assert_eq!(present("presence", "alice"), Ok(false));
    assert_eq!(store_value("presence", "alice", "v"), Ok(()));
    assert!(matches!(fetch("presence", "alice"), Ok(Some(_))));
    assert_eq!(present("presence", "alice"), Ok(true));
    assert_eq!(remove("presence", "alice"), Ok(()));
    assert_eq!(fetch("presence", "alice"), Ok(None));
    assert_eq!(present("presence", "alice"), Ok(false));
}

#[test]
fn keys_are_told_apart_exactly() {
    use_mock_store();
    assert_eq!(store_value("exact", "alice", "a"), Ok(()));
    assert_eq!(store_value("exact", "Alice", "b"), Ok(()));
    assert_eq!(store_value("exact", " alice", "c"), Ok(()));
    assert_eq!(fetch("exact", "alice"), Ok(Some("a".to_string())));
    assert_eq!(fetch("exact", "Alice"), Ok(Some("b".to_string())));
    assert_eq!(fetch("exact", " alice"), Ok(Some("c".to_string())));
    assert_eq!(fetch("exact", "alice "), Ok(None));
    assert_eq!(fetch("Exact", "alice"), Ok(None));
}

#[test]
fn a_blank_key_fails_every_operation_before_the_backend_is_asked() {
    let store = use_mock_store();
    for (service, user, message) in [
        ("", "alice", "INVALID_INPUT: service is required"),
        ("   ", "alice", "INVALID_INPUT: service is required"),
        ("\t\n", "", "INVALID_INPUT: service is required"),
        ("blank", "", "INVALID_INPUT: user is required"),
        ("blank", " \u{3000} ", "INVALID_INPUT: user is required"),
    ] {
        assert_eq!(store_value(service, user, "v"), Err(message.to_string()));
        assert_eq!(fetch(service, user), Err(message.to_string()));
        assert_eq!(remove(service, user), Err(message.to_string()));
        assert_eq!(present(service, user), Err(message.to_string()));
    }
    let store: &mock::Store = store.as_any().downcast_ref().unwrap();
    let guard = store.inner.lock().unwrap();
    for cred in guard.borrow().iter() {
        assert!(!cred.specifiers.0.trim().is_empty(), "opened {:?}", cred.specifiers);
        assert!(!cred.specifiers.1.trim().is_empty(), "opened {:?}", cred.specifiers);
    }
}

#[test]
fn an_empty_service_is_named_by_every_operation() {
    use_mock_store();
    let message = "INVALID_INPUT: service is required".to_string();
    assert_eq!(store_value("", "alice", "v"), Err(message.clone()));
    assert_eq!(fetch("", "alice"), Err(message.clone()));
    assert_eq!(remove("", "alice"), Err(message.clone()));
    assert_eq!(present("", "alice"), Err(message));
}

#[test]
fn a_refused_read_is_permission_denied() {
    use_mock_store();
    assert_eq!(store_value("refused", "alice", "v"), Ok(()));
    fail_next_call("refused", "alice", KeyringError::NoStorageAccess(platform("locked")));
    assert_eq!(
        fetch("refused", "alice"),
        Err("PERMISSION_DENIED: secure store is not accessible (locked)".to_string())
    );
    assert_eq!(fetch("refused", "alice"), Ok(Some("v".to_string())));
    fail_next_call("refused", "alice", KeyringError::NoStorageAccess(platform("locked")));
    assert_eq!(
        present("refused", "alice"),
        Err("PERMISSION_DENIED: secure store is not accessible (locked)".to_string())
    );
}

#[test]
fn a_failed_write_is_reported_under_its_category() {
    use_mock_store();
    fail_next_call("write", "alice", KeyringError::TooLong("password".to_string(), 2560));
    assert_eq!(
        store_value("write", "alice", "v"),
        Err("INVALID_INPUT: password exceeds platform limit 2560".to_string())
    );
    fail_next_call("write", "alice", KeyringError::NoEntry);
    assert_eq!(store_value("write", "alice", "v"), Err("NOT_FOUND: credential does not exist".to_string()));
    assert_eq!(fetch("write", "alice"), Ok(None));
}

#[test]
fn a_failed_removal_is_reported_under_its_category() {
    use_mock_store();
    assert_eq!(store_value("removal", "alice", "v"), Ok(()));
    fail_next_call("removal", "alice", KeyringError::PlatformFailure(platform("status -25300")));
    assert_eq!(
        remove("removal", "alice"),
        Err("INTERNAL: platform secure storage failure (status -25300)".to_string())
    );
    fail_next_call("removal", "alice", KeyringError::Ambiguous(Vec::new()));
    assert_eq!(
        remove("removal", "alice"),
        Err("INTERNAL: more than one credential matched the same key".to_string())
    );
    assert_eq!(fetch("removal", "alice"), Ok(Some("v".to_string())));
}

#[test]
fn an_undecodable_value_is_internal() {
    use_mock_store();
    let entry = keyring_core::Entry::new("bytes", "alice").unwrap();
    entry.set_secret(&[0x80, 0xbf]).unwrap();
    assert_eq!(fetch("bytes", "alice"), Err("INTERNAL: secure value has invalid encoding".to_string()));
    assert_eq!(
        present("bytes", "alice"),
        Err("INTERNAL: secure value has invalid encoding".to_string())
    );
}

#[test]
fn the_backend_is_asked_with_the_fields_and_the_value_as_given() {
    let store = use_mock_store();
    assert_eq!(store_value("  as given ", " Alice\t", "  secret  "), Ok(()));
    let store: &mock::Store = store.as_any().downcast_ref().unwrap();
    let guard = store.inner.lock().unwrap();
    let creds = guard.borrow();
    let cred = creds.iter().find(|cred| cred.specifiers.0.contains("as given")).unwrap();
    assert_eq!(cred.specifiers, ("  as given ".to_string(), " Alice\t".to_string()));
    let kept = cred.inner.lock().unwrap().borrow().secret.clone();
    assert_eq!(kept, Some("  secret  ".as_bytes().to_vec()));
}

#[test]
fn an_entry_is_opened_for_the_pair_it_was_asked_for() {
    use_mock_store();
    let entry = keyring_core::Entry::new("pair", "alice").unwrap();
    assert_eq!(entry.get_specifiers(), Some(("pair".to_string(), "alice".to_string())));
}

#[test]
fn the_secret_of_a_set_request_is_its_value() {
    let request = SecureSetRequest { key: key("app", "alice"), value: " v ".to_string() };
    assert_eq!(request.secret(), " v ");
}
