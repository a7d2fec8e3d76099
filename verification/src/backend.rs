//! The calls into the keyring crates. Nothing is known of what a backend
//! answers, so nothing is claimed of it here but which pair an entry was
//! opened for: each call is made, and its answer is handed on as an
//! [`Attempt`] for verified code to judge.

use crate::error::BackendFailure;
use crate::key::SecureKey;
use keyring_core::{Entry, Error as KeyringError};
use vstd::prelude::*;

verus! {

/// `keyring_core::Entry`, a handle on one record of the default store. It is
/// carried from the call that opens it to the call that uses it and is never
/// looked into.
#[verifier::external_type_specification]
#[verifier::external_body]
pub struct ExEntry(keyring_core::Entry);

/// `keyring_core::Error`, what every call into the keyring crates fails with.
/// It is never looked into but by [`read_failure`].
#[verifier::external_type_specification]
#[verifier::external_body]
pub struct ExKeyringError(keyring_core::Error);

/// The service and the user that an entry was opened for.
pub uninterp spec fn entry_pair(entry: keyring_core::Entry) -> (Seq<char>, Seq<char>);

/// `keyring_core::Entry::new` opens an entry for the pair in the default
/// store: it hands the two texts, as they are, to the store's builder. An
/// entry that comes back was opened for that pair. Nothing else is claimed:
/// whether one comes back depends on which store is the default, if any, and
/// on what that store makes of the pair. It panics only if the lock that
/// guards the default store was poisoned by a panic in another thread, or
/// where the store itself does.
pub assume_specification[ keyring_core::Entry::new ](service: &str, user: &str) -> (r: Result<
    keyring_core::Entry,
    keyring_core::Error,
>)
    ensures
        r matches Ok(entry) ==> entry_pair(entry) == (service@, user@),
;

/// `keyring_core::Entry::set_password` asks the entry's store to keep the
/// password. Nothing is claimed of what it returns: the store decides.
pub assume_specification[ keyring_core::Entry::set_password ](
    entry: &keyring_core::Entry,
    password: &str,
) -> (r: Result<(), keyring_core::Error>)
;

/// `keyring_core::Entry::get_password` asks the entry's store for the
/// password it keeps. Nothing is claimed of what it returns: it depends on
/// what the store holds.
pub assume_specification[ keyring_core::Entry::get_password ](
    entry: &keyring_core::Entry,
) -> (r: Result<String, keyring_core::Error>)
;

/// `keyring_core::Entry::delete_credential` asks the entry's store to remove
/// the record. Nothing is claimed of what it returns: it depends on what the
/// store holds.
pub assume_specification[ keyring_core::Entry::delete_credential ](
    entry: &keyring_core::Entry,
) -> (r: Result<(), keyring_core::Error>)
;

/// Reads a `keyring_core::Error` into a [`BackendFailure`]: one variant for
/// each variant that is told apart, with the texts and the number it carries;
/// a platform error is kept as the text it displays as; any other variant is
/// kept as the text the whole error displays as. Nothing is claimed of the
/// result: the text of a platform error is the platform's to word, in the
/// language of the system it runs on.
#[verifier::external_body]
pub(crate) fn read_failure(error: KeyringError) -> (failure: BackendFailure) {
    match error {
        KeyringError::NoEntry => BackendFailure::NoEntry,
        KeyringError::NoStorageAccess(e) => BackendFailure::NoStorageAccess(e.to_string()),
        KeyringError::NoDefaultStore => BackendFailure::NoDefaultStore,
        KeyringError::NotSupportedByStore(v) => BackendFailure::NotSupportedByStore(v),
        KeyringError::Invalid(f, r) => BackendFailure::Invalid(f, r),
        KeyringError::TooLong(f, l) => BackendFailure::TooLong(f, l),
        KeyringError::PlatformFailure(e) => BackendFailure::PlatformFailure(e.to_string()),
        KeyringError::BadEncoding(_) => BackendFailure::BadEncoding,
        KeyringError::BadDataFormat(_, e) => BackendFailure::BadDataFormat(e.to_string()),
        KeyringError::Ambiguous(_) => BackendFailure::Ambiguous,
        other => BackendFailure::Other(other.to_string()),
    }
}

/// How the backend answered one operation.
#[derive(Debug)]
pub enum Attempt<T> {
    /// No entry could be opened for the key.
    Unresolved(BackendFailure),
    /// The entry was opened, and the call on it failed.
    Failed(BackendFailure),
    /// The entry was opened, and the call on it gave this.
    Done(T),
}

impl<T: DeepView> DeepView for Attempt<T> {
    type V = Attempt<T::V>;

    open spec fn deep_view(&self) -> Attempt<T::V> {
        match self {
            Attempt::Unresolved(failure) => Attempt::Unresolved(*failure),
            Attempt::Failed(failure) => Attempt::Failed(*failure),
            Attempt::Done(value) => Attempt::Done(value.deep_view()),
        }
    }
}

/// Opens the entry for `key` in the default store. The fields are handed on
/// as they were given, so an entry that comes back was opened for exactly the
/// service and the user of the key. Whether one comes back is for the backend
/// to say.
pub(crate) fn get_entry(key: &SecureKey) -> (r: Result<Entry, BackendFailure>)
    ensures
        r matches Ok(entry) ==> entry_pair(entry) == key@.pair(),
{
    read_outcome(Entry::new(key.service.as_str(), key.user.as_str()))
}

/// Asks the backend to keep `value` in the entry that was opened. Where none
/// was opened the backend is not asked, and the attempt is unresolved with the
/// failure to open; where one was, the attempt is what the call on it gave.
pub(crate) fn attempt_write(
    opened: Result<Entry, BackendFailure>,
    value: &str,
) -> (attempt: Attempt<()>)
    ensures
        opened matches Err(failure) ==> attempt == Attempt::<()>::Unresolved(failure),
        opened is Ok ==> attempt is Failed || attempt is Done,
{
    match opened {
        Err(failure) => Attempt::Unresolved(failure),
        Ok(entry) => performed(read_outcome(entry.set_password(value))),
    }
}

/// Asks the backend for the value kept in the entry that was opened. Where
/// none was opened the backend is not asked, and the attempt is unresolved
/// with the failure to open; where one was, the attempt is what the call on it
/// gave.
pub(crate) fn attempt_read(opened: Result<Entry, BackendFailure>) -> (attempt: Attempt<String>)
    ensures
        opened matches Err(failure) ==> attempt == Attempt::<String>::Unresolved(failure),
        opened is Ok ==> attempt is Failed || attempt is Done,
{
    match opened {
        Err(failure) => Attempt::Unresolved(failure),
        Ok(entry) => performed(read_outcome(entry.get_password())),
    }
}

/// Asks the backend to remove the record of the entry that was opened. Where
/// none was opened the backend is not asked, and the attempt is unresolved
/// with the failure to open; where one was, the attempt is what the call on it
/// gave.
pub(crate) fn attempt_remove(opened: Result<Entry, BackendFailure>) -> (attempt: Attempt<()>)
    ensures
        opened matches Err(failure) ==> attempt == Attempt::<()>::Unresolved(failure),
        opened is Ok ==> attempt is Failed || attempt is Done,
{
    match opened {
        Err(failure) => Attempt::Unresolved(failure),
        Ok(entry) => performed(read_outcome(entry.delete_credential())),
    }
}

/// Reads what a call into the keyring crates gave: a success is kept as it
/// is, an error is read into a [`BackendFailure`].
pub(crate) fn read_outcome<T>(outcome: Result<T, KeyringError>) -> (r: Result<T, BackendFailure>)
    ensures
        outcome matches Ok(value) ==> r == Ok::<T, BackendFailure>(value),
        outcome is Err ==> r is Err,
{
    match outcome {
        Ok(value) => Ok(value),
        Err(error) => Err(read_failure(error)),
    }
}

/// The attempt on an entry that was opened, from what the call on it gave.
pub(crate) fn performed<T>(outcome: Result<T, BackendFailure>) -> (attempt: Attempt<T>)
    ensures
        attempt == (match outcome {
            Ok(value) => Attempt::Done(value),
            Err(failure) => Attempt::Failed(failure),
        }),
{
    match outcome {
        Ok(value) => Attempt::Done(value),
        Err(failure) => Attempt::Failed(failure),
    }
}

} // verus!
