//! The credential store: choosing the backend for the host, reporting how
//! its activation went, and the four operations Set, Get, Delete and Exists.
//!
//! Each operation validates its key, asks the backend, and turns the
//! backend's answer into its reply. What the backend answers is not known
//! here, so the last step is a function of its own, from the answer to the
//! reply, with an exact contract.

use crate::backend::{
    attempt_read, attempt_remove, attempt_write, get_entry, read_outcome, Attempt,
};
use crate::error::{
    encode_error, error_message, map_keyring_error, BackendFailure, ErrorCategory,
};
use crate::key::{
    validate_key, KeyView, SecureDeleteRequest, SecureExistsRequest, SecureGetRequest,
    SecureSetRequest,
};
use keyring_core::Error as KeyringError;
use vstd::prelude::*;

verus! {

/// The operating systems a backend is chosen for.
#[derive(Clone, Copy, Debug, PartialEq, Eq, Structural)]
pub enum HostOs {
    Android,
    Ios,
    MacOs,
    Windows,
    Linux,
    /// Any other system.
    Other,
}

/// The name of the backend that serves `os`. A system with no backend of its
/// own is served by the sample store.
pub open spec fn store_name(os: HostOs) -> Seq<char> {
    match os {
        HostOs::Android => "android"@,
        HostOs::Ios => "protected"@,
        HostOs::MacOs => "keychain"@,
        HostOs::Windows => "windows"@,
        HostOs::Linux => "keyutils"@,
        HostOs::Other => "sample"@,
    }
}

/// Chooses the backend for `os`.
pub fn select_store_name(os: HostOs) -> (name: &'static str)
    ensures
        name@ == store_name(os),
{
    match os {
        HostOs::Android => "android",
        HostOs::Ios => "protected",
        HostOs::MacOs => "keychain",
        HostOs::Windows => "windows",
        HostOs::Linux => "keyutils",
        HostOs::Other => "sample",
    }
}

/// A reply as plain text.
pub open spec fn reply_view<T: DeepView>(reply: Result<T, String>) -> Result<T::V, Seq<char>> {
    match reply {
        Ok(value) => Ok(value.deep_view()),
        Err(message) => Err(message@),
    }
}

/// What an operation on `key` replies, where `reply` is what it would reply
/// to a valid key: a key that is not valid is rejected whatever the backend
/// holds.
pub open spec fn answer<T>(key: KeyView, reply: Result<T, Seq<char>>) -> Result<T, Seq<char>> {
    if key.is_valid() {
        reply
    } else {
        Err(key.rejection())
    }
}

/// The reply to activating a backend: a failure to activate, whatever its
/// kind, is reported as `Unavailable`, with the detail of the failure.
pub open spec fn init_reply(outcome: Result<(), BackendFailure>) -> Result<(), Seq<char>> {
    match outcome {
        Ok(_) => Ok(()),
        Err(failure) => Err(error_message(ErrorCategory::Unavailable, failure.detail())),
    }
}

/// The reply of Set: every failure is an error.
pub open spec fn set_reply(attempt: Attempt<()>) -> Result<(), Seq<char>> {
    match attempt {
        Attempt::Done(_) => Ok(()),
        Attempt::Failed(failure) => Err(failure.message()),
        Attempt::Unresolved(failure) => Err(failure.message()),
    }
}

/// The reply of Get: a missing record is a reply of its own, not an error.
pub open spec fn get_reply(attempt: Attempt<Seq<char>>) -> Result<Option<Seq<char>>, Seq<char>> {
    match attempt {
        Attempt::Done(value) => Ok(Some(value)),
        Attempt::Failed(BackendFailure::NoEntry) => Ok(None),
        Attempt::Failed(failure) => Err(failure.message()),
        Attempt::Unresolved(failure) => Err(failure.message()),
    }
}

/// The reply of Delete: removing a record that is not there succeeds.
pub open spec fn delete_reply(attempt: Attempt<()>) -> Result<(), Seq<char>> {
    match attempt {
        Attempt::Done(_) => Ok(()),
        Attempt::Failed(BackendFailure::NoEntry) => Ok(()),
        Attempt::Failed(failure) => Err(failure.message()),
        Attempt::Unresolved(failure) => Err(failure.message()),
    }
}

/// The reply of Exists: whether reading the record gave a value.
pub open spec fn exists_reply(attempt: Attempt<Seq<char>>) -> Result<bool, Seq<char>> {
    match attempt {
        Attempt::Done(_) => Ok(true),
        Attempt::Failed(BackendFailure::NoEntry) => Ok(false),
        Attempt::Failed(failure) => Err(failure.message()),
        Attempt::Unresolved(failure) => Err(failure.message()),
    }
}

/// Turns the outcome of activating a backend into the reply.
pub fn init_result(outcome: Result<(), BackendFailure>) -> (reply: Result<(), String>)
    ensures
        reply_view(reply) == init_reply(outcome),
{
    match outcome {
        Ok(()) => Ok(()),
        Err(failure) => {
            let detail = failure.describe();
            Err(encode_error(ErrorCategory::Unavailable, detail.as_str()))
        },
    }
}

/// Turns the backend's answer to a write into the reply of Set.
pub fn set_result(attempt: Attempt<()>) -> (reply: Result<(), String>)
    ensures
        reply_view(reply) == set_reply(attempt),
{
    match attempt {
        Attempt::Done(()) => Ok(()),
        Attempt::Failed(failure) => Err(map_keyring_error(&failure)),
        Attempt::Unresolved(failure) => Err(map_keyring_error(&failure)),
    }
}

/// Turns the backend's answer to a read into the reply of Get.
pub fn get_result(attempt: Attempt<String>) -> (reply: Result<Option<String>, String>)
    ensures
        reply_view(reply) == get_reply(attempt.deep_view()),
{
    match attempt {
        Attempt::Done(value) => Ok(Some(value)),
        Attempt::Failed(BackendFailure::NoEntry) => Ok(None),
        Attempt::Failed(failure) => Err(map_keyring_error(&failure)),
        Attempt::Unresolved(failure) => Err(map_keyring_error(&failure)),
    }
}

/// Turns the backend's answer to a removal into the reply of Delete.
pub fn delete_result(attempt: Attempt<()>) -> (reply: Result<(), String>)
    ensures
        reply_view(reply) == delete_reply(attempt),
{
    match attempt {
        Attempt::Done(()) => Ok(()),
        Attempt::Failed(BackendFailure::NoEntry) => Ok(()),
        Attempt::Failed(failure) => Err(map_keyring_error(&failure)),
        Attempt::Unresolved(failure) => Err(map_keyring_error(&failure)),
    }
}

/// Turns the backend's answer to a read into the reply of Exists.
pub fn exists_result(attempt: Attempt<String>) -> (reply: Result<bool, String>)
    ensures
        reply_view(reply) == exists_reply(attempt.deep_view()),
{
    match attempt {
        Attempt::Done(_) => Ok(true),
        Attempt::Failed(BackendFailure::NoEntry) => Ok(false),
        Attempt::Failed(failure) => Err(map_keyring_error(&failure)),
        Attempt::Unresolved(failure) => Err(map_keyring_error(&failure)),
    }
}

/// Reports how the activation of the backend went. The backend that serves
/// the host is named by [`select_store_name`]; making it the default store of
/// the process is done once, before any operation, and what that gave is
/// handed in here. An activation that went well is reported as such; one that
/// failed is reported as `Unavailable`, whatever the failure, with the detail
/// of the failure.
pub fn init_secure_store(activation: Result<(), KeyringError>) -> (reply: Result<(), String>)
    ensures
        activation is Ok <==> reply is Ok,
        reply matches Err(message) ==> exists|failure: BackendFailure|
            message@ == error_message(ErrorCategory::Unavailable, #[trigger] failure.detail()),
{
    let outcome = read_outcome(activation);
    let ghost read = outcome;
    let reply = init_result(outcome);
    proof {
        if let Err(failure) = read {
            assert(reply->Err_0@ == error_message(ErrorCategory::Unavailable, failure.detail()));
        }
    }
    reply
}

/// Set: stores the value of the request under its key, replacing what was
/// stored there. A key that is not valid is rejected before the backend is
/// asked; otherwise the reply is that of Set to some answer of the backend.
pub fn secure_set(request: SecureSetRequest) -> (reply: Result<(), String>)
    ensures
        !request.key@.is_valid() ==> reply_view(reply) == Err::<(), Seq<char>>(
            request.key@.rejection(),
        ),
        exists|attempt: Attempt<()>|
            reply_view(reply) == answer(request.key@, #[trigger] set_reply(attempt)),
{
    match validate_key(&request.key) {
        Err(message) => {
            assert(reply_view(Err::<(), String>(message)) == answer(
                request.key@,
                set_reply(Attempt::Done(())),
            ));
            Err(message)
        },
        Ok(()) => set_result(attempt_write(get_entry(&request.key), request.secret())),
    }
}

/// Get: the value stored under the key of the request, or `None` where no
/// record exists. A key that is not valid is rejected before the backend is
/// asked; otherwise the reply is that of Get to some answer of the backend.
pub fn secure_get(request: SecureGetRequest) -> (reply: Result<Option<String>, String>)
    ensures
        !request.key@.is_valid() ==> reply_view(reply) == Err::<Option<Seq<char>>, Seq<char>>(
            request.key@.rejection(),
        ),
        exists|attempt: Attempt<Seq<char>>|
            reply_view(reply) == answer(request.key@, #[trigger] get_reply(attempt)),
{
    match validate_key(&request.key) {
        Err(message) => {
            assert(reply_view(Err::<Option<String>, String>(message)) == answer(
                request.key@,
                get_reply(Attempt::Failed(BackendFailure::NoEntry)),
            ));
            Err(message)
        },
        Ok(()) => get_result(attempt_read(get_entry(&request.key))),
    }
}

/// Delete: removes the record stored under the key of the request; where no
/// record exists this succeeds and changes nothing. A key that is not valid is
/// rejected before the backend is asked; otherwise the reply is that of Delete
/// to some answer of the backend.
pub fn secure_delete(request: SecureDeleteRequest) -> (reply: Result<(), String>)
    ensures
        !request.key@.is_valid() ==> reply_view(reply) == Err::<(), Seq<char>>(
            request.key@.rejection(),
        ),
        exists|attempt: Attempt<()>|
            reply_view(reply) == answer(request.key@, #[trigger] delete_reply(attempt)),
{
    match validate_key(&request.key) {
        Err(message) => {
            assert(reply_view(Err::<(), String>(message)) == answer(
                request.key@,
                delete_reply(Attempt::Done(())),
            ));
            Err(message)
        },
        Ok(()) => delete_result(attempt_remove(get_entry(&request.key))),
    }
}

/// Exists: whether a record is stored under the key of the request. A key
/// that is not valid is rejected before the backend is asked; otherwise the
/// reply is that of Exists to some answer of the backend.
pub fn secure_exists(request: SecureExistsRequest) -> (reply: Result<bool, String>)
    ensures
        !request.key@.is_valid() ==> reply_view(reply) == Err::<bool, Seq<char>>(
            request.key@.rejection(),
        ),
        exists|attempt: Attempt<Seq<char>>|
            reply_view(reply) == answer(request.key@, #[trigger] exists_reply(attempt)),
{
    match validate_key(&request.key) {
        Err(message) => {
            assert(reply_view(Err::<bool, String>(message)) == answer(
                request.key@,
                exists_reply(Attempt::Failed(BackendFailure::NoEntry)),
            ));
            Err(message)
        },
        Ok(()) => exists_result(attempt_read(get_entry(&request.key))),
    }
}

} // verus!
