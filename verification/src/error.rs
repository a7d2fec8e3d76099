//! The error vocabulary: five stable categories, the text that carries a
//! category and its detail to the caller, and the translation of every
//! backend failure into that text.

use crate::text::{decimal, decimal_text};
use vstd::prelude::*;
use vstd::string::StringExecFns;

verus! {

/// The categories a caller can branch on.
#[derive(Clone, Copy, Debug, PartialEq, Eq, Structural)]
pub enum ErrorCategory {
    /// A field of the request was rejected.
    InvalidInput,
    /// The record does not exist.
    NotFound,
    /// The storage exists but access to it was refused.
    PermissionDenied,
    /// No backend is active, or the backend cannot do what was asked.
    Unavailable,
    /// The platform malfunctioned, or the failure is of no other category.
    Internal,
}

impl ErrorCategory {
    /// The machine-readable tag of the category.
    pub open spec fn tag(self) -> Seq<char> {
        match self {
            ErrorCategory::InvalidInput => "INVALID_INPUT"@,
            ErrorCategory::NotFound => "NOT_FOUND"@,
            ErrorCategory::PermissionDenied => "PERMISSION_DENIED"@,
            ErrorCategory::Unavailable => "UNAVAILABLE"@,
            ErrorCategory::Internal => "INTERNAL"@,
        }
    }

    /// The machine-readable tag of the category.
    pub fn as_str(self) -> (t: &'static str)
        ensures
            t@ == self.tag(),
    {
        match self {
            ErrorCategory::InvalidInput => "INVALID_INPUT",
            ErrorCategory::NotFound => "NOT_FOUND",
            ErrorCategory::PermissionDenied => "PERMISSION_DENIED",
            ErrorCategory::Unavailable => "UNAVAILABLE",
            ErrorCategory::Internal => "INTERNAL",
        }
    }
}

/// The text of an error: the tag, a colon and a space, then the detail.
pub open spec fn error_message(category: ErrorCategory, detail: Seq<char>) -> Seq<char> {
    category.tag() + ": "@ + detail
}

/// Writes an error of `category` with `detail` as text.
pub fn encode_error(category: ErrorCategory, detail: &str) -> (message: String)
    ensures
        message@ == error_message(category, detail@),
{
    let mut message = String::from_str(category.as_str());
    message.append(": ");
    message.append(detail);
    message
}

/// A message carries its category and its detail: two messages are the same
/// text only if they were written from the same category and the same detail.
pub proof fn lemma_message_determines_category(
    c1: ErrorCategory,
    d1: Seq<char>,
    c2: ErrorCategory,
    d2: Seq<char>,
)
    requires
        error_message(c1, d1) == error_message(c2, d2),
    ensures
        c1 == c2,
        d1 == d2,
{
    reveal_strlit("INVALID_INPUT");
    reveal_strlit("NOT_FOUND");
    reveal_strlit("PERMISSION_DENIED");
    reveal_strlit("UNAVAILABLE");
    reveal_strlit("INTERNAL");
    reveal_strlit(": ");
    let m1 = error_message(c1, d1);
    let m2 = error_message(c2, d2);
    assert(m1[0] == c1.tag()[0] && m1[2] == c1.tag()[2]);
    assert(m2[0] == c2.tag()[0] && m2[2] == c2.tag()[2]);
    assert(c1 == c2);
    let head = c1.tag() + ": "@;
    assert(m1 == head + d1);
    assert(m2 == head + d2);
    assert(d1 =~= m1.subrange(head.len() as int, m1.len() as int));
    assert(d2 =~= m2.subrange(head.len() as int, m2.len() as int));
}

/// A failure reported by the storage backend, with what the translation
/// reads of it held as plain values.
#[derive(Debug, PartialEq, Eq)]
pub enum BackendFailure {
    /// No record exists for the entry.
    NoEntry,
    /// The storage could not be accessed; the platform's reason.
    NoStorageAccess(String),
    /// No backend has been made the default.
    NoDefaultStore,
    /// The backend does not support the operation; the backend's reason.
    NotSupportedByStore(String),
    /// A field was rejected by the backend; the field and the reason.
    Invalid(String, String),
    /// A field is longer than the platform allows; the field and the limit.
    TooLong(String, u32),
    /// The platform's storage failed; the platform's reason.
    PlatformFailure(String),
    /// The stored value is not valid text.
    BadEncoding,
    /// The stored value is malformed; what is wrong with it.
    BadDataFormat(String),
    /// More than one record matches the entry.
    Ambiguous,
    /// Any other failure; the backend's own message.
    Other(String),
}

impl BackendFailure {
    /// The category the failure is reported under.
    pub open spec fn category(self) -> ErrorCategory {
        match self {
            BackendFailure::NoEntry => ErrorCategory::NotFound,
            BackendFailure::NoStorageAccess(_) => ErrorCategory::PermissionDenied,
            BackendFailure::NoDefaultStore => ErrorCategory::Unavailable,
            BackendFailure::NotSupportedByStore(_) => ErrorCategory::Unavailable,
            BackendFailure::Invalid(_, _) => ErrorCategory::InvalidInput,
            BackendFailure::TooLong(_, _) => ErrorCategory::InvalidInput,
            BackendFailure::PlatformFailure(_) => ErrorCategory::Internal,
            BackendFailure::BadEncoding => ErrorCategory::Internal,
            BackendFailure::BadDataFormat(_) => ErrorCategory::Internal,
            BackendFailure::Ambiguous => ErrorCategory::Internal,
            BackendFailure::Other(_) => ErrorCategory::Internal,
        }
    }

    /// The free-text detail the failure is reported with.
    pub open spec fn detail(self) -> Seq<char> {
        match self {
            BackendFailure::NoEntry => "credential does not exist"@,
            BackendFailure::NoStorageAccess(reason) => "secure store is not accessible ("@
                + reason@ + ")"@,
            BackendFailure::NoDefaultStore => "secure store is not initialized"@,
            BackendFailure::NotSupportedByStore(reason) => "store does not support this operation ("@
                + reason@ + ")"@,
            BackendFailure::Invalid(field, reason) => field@ + " "@ + reason@,
            BackendFailure::TooLong(field, limit) => field@ + " exceeds platform limit "@
                + decimal(limit as nat),
            BackendFailure::PlatformFailure(reason) => "platform secure storage failure ("@
                + reason@ + ")"@,
            BackendFailure::BadEncoding => "secure value has invalid encoding"@,
            BackendFailure::BadDataFormat(reason) => "secure value format error ("@ + reason@
                + ")"@,
            BackendFailure::Ambiguous => "more than one credential matched the same key"@,
            BackendFailure::Other(message) => message@,
        }
    }

    /// The text the failure is reported as.
    pub open spec fn message(self) -> Seq<char> {
        error_message(self.category(), self.detail())
    }

    /// The category the failure is reported under.
    pub fn classify(&self) -> (category: ErrorCategory)
        ensures
            category == self.category(),
    {
        match self {
            BackendFailure::NoEntry => ErrorCategory::NotFound,
            BackendFailure::NoStorageAccess(_) => ErrorCategory::PermissionDenied,
            BackendFailure::NoDefaultStore | BackendFailure::NotSupportedByStore(_) => {
                ErrorCategory::Unavailable
            },
            BackendFailure::Invalid(_, _) | BackendFailure::TooLong(_, _) => {
                ErrorCategory::InvalidInput
            },
            _ => ErrorCategory::Internal,
        }
    }

    /// The free-text detail the failure is reported with.
    pub fn describe(&self) -> (detail: String)
        ensures
            detail@ == self.detail(),
    {
        match self {
            BackendFailure::NoEntry => String::from_str("credential does not exist"),
            BackendFailure::NoStorageAccess(reason) => bracketed(
                "secure store is not accessible (",
                reason.as_str(),
            ),
            BackendFailure::NoDefaultStore => String::from_str("secure store is not initialized"),
            BackendFailure::NotSupportedByStore(reason) => bracketed(
                "store does not support this operation (",
                reason.as_str(),
            ),
            BackendFailure::Invalid(field, reason) => {
                let mut detail = field.clone();
                detail.append(" ");
                detail.append(reason.as_str());
                detail
            },
            BackendFailure::TooLong(field, limit) => {
                let mut detail = field.clone();
                detail.append(" exceeds platform limit ");
                detail.append(decimal_text(*limit).as_str());
                detail
            },
            BackendFailure::PlatformFailure(reason) => bracketed(
                "platform secure storage failure (",
                reason.as_str(),
            ),
            BackendFailure::BadEncoding => String::from_str("secure value has invalid encoding"),
            BackendFailure::BadDataFormat(reason) => bracketed(
                "secure value format error (",
                reason.as_str(),
            ),
            BackendFailure::Ambiguous => String::from_str(
                "more than one credential matched the same key",
            ),
            BackendFailure::Other(message) => message.clone(),
        }
    }
}

fn bracketed(opening: &str, reason: &str) -> (detail: String)
    ensures
        detail@ == opening@ + reason@ + ")"@,
{
    let mut detail = String::from_str(opening);
    detail.append(reason);
    detail.append(")");
    detail
}

/// Translates a failure of the keyring backend into the text reported to the
/// caller. Every failure has a category: what is of no other category is
/// `Internal`.
pub fn map_keyring_error(failure: &BackendFailure) -> (message: String)
    ensures
        message@ == failure.message(),
{
    let detail = failure.describe();
    encode_error(failure.classify(), detail.as_str())
}

} // verus!
