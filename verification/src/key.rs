//! Credential keys, the four requests, and key validation.

use crate::error::{encode_error, error_message, ErrorCategory};
use crate::text::{blank, is_blank, lemma_blank_iff_trimmed_empty, trimmed};
use vstd::prelude::*;

verus! {

/// Identifies a credential: the service it belongs to and the user it is for.
#[derive(Debug)]
pub struct SecureKey {
    pub service: String,
    pub user: String,
}

/// A key as plain text.
pub struct KeyView {
    pub service: Seq<char>,
    pub user: Seq<char>,
}

impl View for SecureKey {
    type V = KeyView;

    open spec fn view(&self) -> KeyView {
        KeyView { service: self.service@, user: self.user@ }
    }
}

impl KeyView {
    /// The service and the user as the backend is given them: the two fields,
    /// as they are.
    pub open spec fn pair(self) -> (Seq<char>, Seq<char>) {
        (self.service, self.user)
    }

    /// A key is valid when neither field is blank.
    pub open spec fn is_valid(self) -> bool {
        !blank(self.service) && !blank(self.user)
    }

    /// The error a key that is not valid is rejected with: it names the first
    /// blank field, the service before the user.
    pub open spec fn rejection(self) -> Seq<char> {
        if blank(self.service) {
            error_message(ErrorCategory::InvalidInput, "service is required"@)
        } else {
            error_message(ErrorCategory::InvalidInput, "user is required"@)
        }
    }
}

impl PartialEq for SecureKey {
    /// Two keys are equal when both fields hold the same text.
    fn eq(&self, other: &SecureKey) -> (r: bool) {
        self.service == other.service && self.user == other.user
    }
}

impl vstd::std_specs::cmp::PartialEqSpecImpl for SecureKey {
    open spec fn obeys_eq_spec() -> bool {
        true
    }

    open spec fn eq_spec(&self, other: &SecureKey) -> bool {
        self@ == other@
    }
}

/// Asks to store `value` under `key`.
#[derive(Debug)]
pub struct SecureSetRequest {
    pub key: SecureKey,
    pub value: String,
}

impl SecureSetRequest {
    /// The secret that Set hands to the backend: the value of the request, as
    /// it was given.
    pub fn secret(&self) -> (text: &str)
        ensures
            text@ == self.value@,
    {
        self.value.as_str()
    }
}

/// Asks for the value stored under `key`.
#[derive(Debug)]
pub struct SecureGetRequest {
    pub key: SecureKey,
}

/// Asks to remove the record stored under `key`.
#[derive(Debug)]
pub struct SecureDeleteRequest {
    pub key: SecureKey,
}

/// Asks whether a record is stored under `key`.
#[derive(Debug)]
pub struct SecureExistsRequest {
    pub key: SecureKey,
}

/// Accepts a key exactly when neither field is empty after trimming. The
/// fields are only looked at: a key that is accepted is used as it was given.
pub fn validate_key(key: &SecureKey) -> (r: Result<(), String>)
    ensures
        r is Ok <==> key@.is_valid(),
        r matches Err(message) ==> message@ == key@.rejection(),
        r is Ok <==> trimmed(key.service@).len() > 0 && trimmed(key.user@).len() > 0,
{
    proof {
        lemma_blank_iff_trimmed_empty(key.service@);
        lemma_blank_iff_trimmed_empty(key.user@);
    }
    if is_blank(key.service.as_str()) {
        return Err(encode_error(ErrorCategory::InvalidInput, "service is required"));
    }
    if is_blank(key.user.as_str()) {
        return Err(encode_error(ErrorCategory::InvalidInput, "user is required"));
    }
    Ok(())
}

} // verus!
