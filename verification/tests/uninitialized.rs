use secure_store::{
    secure_delete, secure_exists, secure_get, secure_set, SecureDeleteRequest,
    SecureExistsRequest, SecureGetRequest, SecureKey, SecureSetRequest,
};

// No test in this file activates a backend.

fn key(service: &str, user: &str) -> SecureKey {
    SecureKey { service: service.to_string(), user: user.to_string() }
}

#[test]
fn get_without_a_backend_is_unavailable() {
    assert_eq!(
        secure_get(SecureGetRequest { key: key("app", "alice") }),
        Err("UNAVAILABLE: secure store is not initialized".to_string())
    );
}

#[test]
fn every_operation_without_a_backend_is_unavailable() {
    let expected = "UNAVAILABLE: secure store is not initialized".to_string();
    assert_eq!(
        secure_set(SecureSetRequest { key: key("app", "alice"), value: "v".to_string() }),
        Err(expected.clone())
    );
    assert_eq!(secure_delete(SecureDeleteRequest { key: key("app", "alice") }), Err(expected.clone()));
    assert_eq!(secure_exists(SecureExistsRequest { key: key("app", "alice") }), Err(expected));
}

#[test]
fn a_blank_key_is_rejected_even_without_a_backend() {
    assert_eq!(
        secure_get(SecureGetRequest { key: key("", "alice") }),
        Err("INVALID_INPUT: service is required".to_string())
    );
    assert_eq!(
        secure_set(SecureSetRequest { key: key("app", " "), value: "v".to_string() }),
        Err("INVALID_INPUT: user is required".to_string())
    );
}
