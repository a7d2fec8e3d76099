//! What the four operations promise together.
//!
//! The replies of Get and Exists to one answer of the backend are compared
//! directly. What follows one operation after another depends on what the
//! backend keeps in between, which is stated here of a vault: a backend that
//! keeps each value under the pair its entry was opened for, hands back what
//! it keeps, and reports a record it does not hold as missing. An operation
//! opens its entry for the pair of its key and, for Set, hands on the value of
//! its request; the vault is asked with just these.

use crate::backend::Attempt;
use crate::error::{
    error_message, lemma_message_determines_category, BackendFailure, ErrorCategory,
};
use crate::key::KeyView;
use crate::store::{answer, delete_reply, exists_reply, get_reply, set_reply};
use crate::text::blank;
use vstd::prelude::*;

verus! {

/// The records a vault holds, by the pair of service and user.
pub type Vault = Map<(Seq<char>, Seq<char>), Seq<char>>;

/// What a vault answers to a read.
pub open spec fn vault_read(vault: Vault, key: KeyView) -> Attempt<Seq<char>> {
    if vault.contains_key(key.pair()) {
        Attempt::Done(vault[key.pair()])
    } else {
        Attempt::Failed(BackendFailure::NoEntry)
    }
}

/// What a vault answers to a removal.
pub open spec fn vault_remove(vault: Vault, key: KeyView) -> Attempt<()> {
    if vault.contains_key(key.pair()) {
        Attempt::Done(())
    } else {
        Attempt::Failed(BackendFailure::NoEntry)
    }
}

/// The reply of Set on a vault, which accepts every write.
pub open spec fn set_on(vault: Vault, key: KeyView, value: Seq<char>) -> Result<(), Seq<char>> {
    answer(key, set_reply(Attempt::Done(())))
}

/// The vault after Set: a key that is not valid never reaches it.
pub open spec fn after_set(vault: Vault, key: KeyView, value: Seq<char>) -> Vault {
    if key.is_valid() {
        vault.insert(key.pair(), value)
    } else {
        vault
    }
}

/// The reply of Get on a vault.
pub open spec fn get_on(vault: Vault, key: KeyView) -> Result<Option<Seq<char>>, Seq<char>> {
    answer(key, get_reply(vault_read(vault, key)))
}

/// The reply of Exists on a vault.
pub open spec fn exists_on(vault: Vault, key: KeyView) -> Result<bool, Seq<char>> {
    answer(key, exists_reply(vault_read(vault, key)))
}

/// The reply of Delete on a vault.
pub open spec fn delete_on(vault: Vault, key: KeyView) -> Result<(), Seq<char>> {
    answer(key, delete_reply(vault_remove(vault, key)))
}

/// The vault after Delete: a key that is not valid never reaches it.
pub open spec fn after_delete(vault: Vault, key: KeyView) -> Vault {
    if key.is_valid() {
        vault.remove(key.pair())
    } else {
        vault
    }
}

/// Whether `message` is an error of one of the five categories.
pub open spec fn categorized(message: Seq<char>) -> bool {
    exists|category: ErrorCategory, detail: Seq<char>|
        message == #[trigger] error_message(category, detail)
}

/// Every error an operation replies with is of one of the five categories,
/// whatever the key and whatever the backend answered.
pub proof fn lemma_every_error_is_categorized(
    key: KeyView,
    write: Attempt<()>,
    read: Attempt<Seq<char>>,
    removal: Attempt<()>,
)
    ensures
        answer(key, set_reply(write)) matches Err(message) ==> categorized(message),
        answer(key, get_reply(read)) matches Err(message) ==> categorized(message),
        answer(key, delete_reply(removal)) matches Err(message) ==> categorized(message),
        answer(key, exists_reply(read)) matches Err(message) ==> categorized(message),
{
    assert forall|failure: BackendFailure| categorized(#[trigger] failure.message()) by {
        assert(failure.message() == error_message(failure.category(), failure.detail()));
    }
    if !key.is_valid() {
        if blank(key.service) {
            assert(key.rejection() == error_message(
                ErrorCategory::InvalidInput,
                "service is required"@,
            ));
        } else {
            assert(key.rejection() == error_message(
                ErrorCategory::InvalidInput,
                "user is required"@,
            ));
        }
    }
}

/// A missing record is never an error of Get, Delete or Exists: once the
/// entry of the key has been opened, none of them replies with a `NotFound`
/// error, whatever its detail.
pub proof fn lemma_missing_record_is_no_error(
    key: KeyView,
    read: Attempt<Seq<char>>,
    removal: Attempt<()>,
    detail: Seq<char>,
)
    requires
        !(read is Unresolved),
        !(removal is Unresolved),
    ensures
        answer(key, get_reply(read)) != Err::<Option<Seq<char>>, Seq<char>>(
            error_message(ErrorCategory::NotFound, detail),
        ),
        answer(key, delete_reply(removal)) != Err::<(), Seq<char>>(
            error_message(ErrorCategory::NotFound, detail),
        ),
        answer(key, exists_reply(read)) != Err::<bool, Seq<char>>(
            error_message(ErrorCategory::NotFound, detail),
        ),
{
    let not_found = error_message(ErrorCategory::NotFound, detail);
    if !key.is_valid() {
        if key.rejection() == not_found {
            if blank(key.service) {
                lemma_message_determines_category(
                    ErrorCategory::InvalidInput,
                    "service is required"@,
                    ErrorCategory::NotFound,
                    detail,
                );
            } else {
                lemma_message_determines_category(
                    ErrorCategory::InvalidInput,
                    "user is required"@,
                    ErrorCategory::NotFound,
                    detail,
                );
            }
        }
    } else {
        if let Attempt::Failed(failure) = read {
            if failure.message() == not_found {
                lemma_message_determines_category(
                    failure.category(),
                    failure.detail(),
                    ErrorCategory::NotFound,
                    detail,
                );
            }
        }
        if let Attempt::Failed(failure) = removal {
            if failure.message() == not_found {
                lemma_message_determines_category(
                    failure.category(),
                    failure.detail(),
                    ErrorCategory::NotFound,
                    detail,
                );
            }
        }
    }
}

/// A key with a blank field is rejected by every operation, whatever the
/// backend would have answered: the reply is an `InvalidInput` error that
/// names the first blank field.
pub proof fn lemma_blank_key_is_rejected(
    key: KeyView,
    write: Attempt<()>,
    read: Attempt<Seq<char>>,
    removal: Attempt<()>,
)
    requires
        !key.is_valid(),
    ensures
        answer(key, set_reply(write)) == Err::<(), Seq<char>>(key.rejection()),
        answer(key, get_reply(read)) == Err::<Option<Seq<char>>, Seq<char>>(key.rejection()),
        answer(key, delete_reply(removal)) == Err::<(), Seq<char>>(key.rejection()),
        answer(key, exists_reply(read)) == Err::<bool, Seq<char>>(key.rejection()),
        exists|detail: Seq<char>|
            key.rejection() == #[trigger] error_message(ErrorCategory::InvalidInput, detail),
{
    if blank(key.service) {
        assert(key.rejection() == error_message(
            ErrorCategory::InvalidInput,
            "service is required"@,
        ));
    } else {
        assert(key.rejection() == error_message(ErrorCategory::InvalidInput, "user is required"@));
    }
}

/// A key with a blank field leaves a vault as it was.
pub proof fn lemma_blank_key_leaves_vault(vault: Vault, key: KeyView, value: Seq<char>)
    requires
        !key.is_valid(),
    ensures
        after_set(vault, key, value) == vault,
        after_delete(vault, key) == vault,
{
}

/// Exists and Get agree on every key and every answer of the backend: Exists
/// replies `false` exactly when Get replies `None`, `true` exactly when Get
/// replies with a value, and fails exactly when Get fails, with the same
/// error.
pub proof fn lemma_exists_agrees_with_get(key: KeyView, read: Attempt<Seq<char>>)
    ensures
        answer(key, exists_reply(read)) == Ok::<bool, Seq<char>>(false) <==> answer(
            key,
            get_reply(read),
        ) == Ok::<Option<Seq<char>>, Seq<char>>(None),
        answer(key, exists_reply(read)) == Ok::<bool, Seq<char>>(true) <==> (answer(
            key,
            get_reply(read),
        ) matches Ok(Some(_))),
        answer(key, exists_reply(read)) matches Err(message) ==> answer(key, get_reply(read))
            == Err::<Option<Seq<char>>, Seq<char>>(message),
        answer(key, get_reply(read)) matches Err(message) ==> answer(key, exists_reply(read))
            == Err::<bool, Seq<char>>(message),
{
}

/// Round trip: on a vault, Set succeeds for a valid key, and Get then replies
/// with the value that was set.
pub proof fn lemma_set_then_get(vault: Vault, key: KeyView, value: Seq<char>)
    requires
        key.is_valid(),
    ensures
        set_on(vault, key, value) == Ok::<(), Seq<char>>(()),
        get_on(after_set(vault, key, value), key) == Ok::<Option<Seq<char>>, Seq<char>>(
            Some(value),
        ),
        exists_on(after_set(vault, key, value), key) == Ok::<bool, Seq<char>>(true),
{
}

/// Overwriting: on a vault, after two Sets under one key Get replies with the
/// value set last.
pub proof fn lemma_last_set_wins(vault: Vault, key: KeyView, first: Seq<char>, last: Seq<char>)
    requires
        key.is_valid(),
    ensures
        get_on(after_set(after_set(vault, key, first), key, last), key) == Ok::<
            Option<Seq<char>>,
            Seq<char>,
        >(Some(last)),
{
}

/// Delete is idempotent: on a vault, Delete succeeds for a valid key whether
/// or not a record exists; where none exists the vault is left as it was; and
/// a second Delete succeeds as the first did.
pub proof fn lemma_delete_is_idempotent(vault: Vault, key: KeyView)
    requires
        key.is_valid(),
    ensures
        delete_on(vault, key) == Ok::<(), Seq<char>>(()),
        !vault.contains_key(key.pair()) ==> after_delete(vault, key) == vault,
        delete_on(after_delete(vault, key), key) == delete_on(vault, key),
        after_delete(after_delete(vault, key), key) == after_delete(vault, key),
        get_on(after_delete(vault, key), key) == Ok::<Option<Seq<char>>, Seq<char>>(None),
        exists_on(after_delete(vault, key), key) == Ok::<bool, Seq<char>>(false),
{
}

/// Set and Delete change at most the record of their own key: the record of
/// every other pair, be it an other service, an other user, or the same text
/// in another case or with other spaces, is left as it was.
pub proof fn lemma_other_records_are_kept(
    vault: Vault,
    key: KeyView,
    value: Seq<char>,
    other: (Seq<char>, Seq<char>),
)
    requires
        other != key.pair(),
    ensures
        after_set(vault, key, value).contains_key(other) == vault.contains_key(other),
        after_set(vault, key, value)[other] == vault[other],
        after_delete(vault, key).contains_key(other) == vault.contains_key(other),
        after_delete(vault, key)[other] == vault[other],
{
}

/// Keys are told apart by their fields alone: two keys have the same pair
/// exactly when they are the same key.
pub proof fn lemma_pair_determines_key(a: KeyView, b: KeyView)
    ensures
        a.pair() == b.pair() <==> a == b,
{
}

} // verus!
