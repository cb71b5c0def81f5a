//! Shared helpers: the error type and identifier validation.

use vstd::prelude::*;
use crate::text::{is_blank_spec, trim, trim_spec};

verus! {

/// What went wrong.
#[derive(Debug, Clone, Copy, PartialEq, Eq, Structural)]
pub enum ErrorKind {
    /// A value supplied by the caller was rejected.
    Invalid,
    /// A row that the request names does not exist.
    NotFound,
    /// The stored data is in a state that the schema forbids.
    Corrupt,
    /// SQLite failed a statement, or a row could not be read.
    Db,
}

/// An error, with a human-readable message and, where the error adds
/// context to an earlier one, that earlier error's text as its cause.
#[derive(Debug, Clone)]
pub struct DataError {
    pub kind: ErrorKind,
    /// The outermost message (what the error says on its own).
    pub message: String,
    /// The text of the error this one gives context to, if any.
    pub cause: Option<String>,
}

/// The full text of an error, its message followed by its causes:
/// `"<message>: <cause>"`.
pub open spec fn error_text(e: DataError) -> Seq<char> {
    match e.cause {
        Some(c) => e.message@ + ": "@ + c@,
        None => e.message@,
    }
}

/// `e` is of kind `kind` and its full text is `message`.
pub open spec fn is_error(e: DataError, kind: ErrorKind, message: Seq<char>) -> bool {
    e.kind == kind && error_text(e) == message
}

/// The only way `r` fails is a database failure.
pub open spec fn fails_only_in_db<T>(r: Result<T, DataError>) -> bool {
    r matches Err(e) ==> e.kind == ErrorKind::Db
}

/// `"<label> must be non-empty"`.
pub open spec fn non_empty_msg(label: Seq<char>) -> Seq<char> {
    label + " must be non-empty"@
}

impl DataError {
    /// The text of the error.
    pub fn message(&self) -> (r: String)
        ensures
            r@ == self.message@,
    {
        self.message.clone()
    }

    /// The full text: the message followed by the cause, if any.
    pub fn text(&self) -> (r: String)
        ensures
            r@ == error_text(*self),
    {
        match &self.cause {
            Some(c) => concat3(self.message.as_str(), ": ", c.as_str()),
            None => self.message.clone(),
        }
    }

    pub fn new(kind: ErrorKind, message: String) -> (r: DataError)
        ensures
            r.kind == kind,
            r.message == message,
            r.cause is None,
    {
        DataError { kind, message, cause: None }
    }

    /// An error that gives context `message` to an earlier error whose text
    /// is `cause`.
    pub fn with_cause(kind: ErrorKind, message: String, cause: String) -> (r: DataError)
        ensures
            r.kind == kind,
            r.message == message,
            r.cause == Some(cause),
    {
        DataError { kind, message, cause: Some(cause) }
    }

    pub fn invalid(message: &str) -> (r: DataError)
        ensures
            is_error(r, ErrorKind::Invalid, message@),
            r.cause is None,
    {
        DataError { kind: ErrorKind::Invalid, message: message.to_owned(), cause: None }
    }
}

/// `a` followed by `b`.
pub fn concat2(a: &str, b: &str) -> (r: String)
    ensures
        r@ == a@ + b@,
{
    a.to_owned().concat(b)
}

/// `a`, `b` and `c`, one after the other.
pub fn concat3(a: &str, b: &str, c: &str) -> (r: String)
    ensures
        r@ == a@ + b@ + c@,
{
    a.to_owned().concat(b).concat(c)
}

/// Trims a user-provided identifier and checks that something is left.
///
/// Returns the trimmed text, or an `Invalid` error
/// `"<field_label> must be non-empty"`.
pub fn require_non_empty_trimmed<'a>(field_label: &str, value: &'a str) -> (r: Result<
    &'a str,
    DataError,
>)
    ensures
        is_blank_spec(value@) ==> (r matches Err(e) && is_error(
            e,
            ErrorKind::Invalid,
            non_empty_msg(field_label@),
        )),
        !is_blank_spec(value@) ==> (r matches Ok(t) && t@ == trim_spec(value@)),
{
    let trimmed = trim(value);
    if trimmed.is_empty() {
        return Err(DataError::new(ErrorKind::Invalid, concat2(field_label, " must be non-empty")));
    }
    Ok(trimmed)
}

} // verus!
