//! A small facade over the operating system's secure credential storage:
//! choosing the backend for the host, validating keys, the four credential
//! operations, and a closed vocabulary of error categories.

pub mod backend;
pub mod error;
pub mod key;
pub mod laws;
pub mod store;
pub mod text;

pub use backend::Attempt;
pub use error::{encode_error, map_keyring_error, BackendFailure, ErrorCategory};
pub use key::{
    validate_key, SecureDeleteRequest, SecureExistsRequest, SecureGetRequest, SecureKey,
    SecureSetRequest,
};
pub use store::{
    delete_result, exists_result, get_result, init_result, init_secure_store, secure_delete,
    secure_exists, secure_get, secure_set, select_store_name, set_result, HostOs,
};
