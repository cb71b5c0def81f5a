//! Parsing of form text inputs.
//!
//! An error's message says what is wrong with the field (`"Strength must
//! be an integer"`); why the text is not a number is its cause, which the
//! editor shows after a colon (`"Strength must be an integer: invalid digit
//! found in string"`).

use vstd::prelude::*;
use crate::num::{int_error_message, int_error_text, parse_int, parse_int_result, IntErrorKind};
use crate::shared::{concat2, error_text, is_error, DataError, ErrorKind};
use crate::text::{is_blank_spec, trim, trim_spec};

verus! {

/// `"<label> must not be empty"`.
pub open spec fn not_empty_msg(label: Seq<char>) -> Seq<char> {
    label + " must not be empty"@
}

/// `"<label> must be an integer"`, the message of a field that is not a
/// number.
pub open spec fn not_integer_msg(label: Seq<char>) -> Seq<char> {
    label + " must be an integer"@
}

/// `"<label> must be an integer: <why>"`, the full text of that error.
pub open spec fn integer_msg(label: Seq<char>, k: IntErrorKind) -> Seq<char> {
    label + " must be an integer: "@ + int_error_text(k)
}

/// What `i64::from_str` makes of the trimmed input.
pub open spec fn trimmed_i64(s: Seq<char>) -> Result<int, IntErrorKind> {
    parse_int_result(trim_spec(s), i64::MIN as int, i64::MAX as int)
}

/// What a required integer field holds: the number, or why not.
pub open spec fn required_i64_spec(label: Seq<char>, s: Seq<char>) -> Result<i64, Seq<char>> {
    if is_blank_spec(s) {
        Err(not_empty_msg(label))
    } else {
        match trimmed_i64(s) {
            Ok(v) => Ok(v as i64),
            Err(k) => Err(integer_msg(label, k)),
        }
    }
}

/// What an optional integer field holds: nothing, the number, or why not.
pub open spec fn optional_i64_spec(label: Seq<char>, s: Seq<char>) -> Result<Option<i64>, Seq<char>> {
    if is_blank_spec(s) {
        Ok(None)
    } else {
        match trimmed_i64(s) {
            Ok(v) => Ok(Some(v as i64)),
            Err(k) => Err(integer_msg(label, k)),
        }
    }
}

/// `r` is `s`, with an `Invalid` error for each message (its full text).
pub open spec fn form_result<T>(r: Result<T, DataError>, s: Result<T, Seq<char>>) -> bool {
    match s {
        Ok(v) => r == Ok::<T, DataError>(v),
        Err(m) => r matches Err(e) && is_error(e, ErrorKind::Invalid, m),
    }
}

/// The message of a failed integer field: `"<label> must not be empty"` for
/// a blank input, else `"<label> must be an integer"` (the cause follows in
/// the full text).
pub open spec fn integer_field_message(label: Seq<char>, s: Seq<char>) -> Seq<char> {
    if is_blank_spec(s) {
        not_empty_msg(label)
    } else {
        not_integer_msg(label)
    }
}

/// `"<label> must be an integer"`, with why the text is not a number as its
/// cause.
fn integer_error(label: &str, k: IntErrorKind) -> (e: DataError)
    ensures
        is_error(e, ErrorKind::Invalid, integer_msg(label@, k)),
        e.message@ == not_integer_msg(label@),
{
    let e = DataError::with_cause(
        ErrorKind::Invalid,
        concat2(label, " must be an integer"),
        int_error_message(k).to_owned(),
    );
    proof {
        reveal_strlit(" must be an integer");
        reveal_strlit(": ");
        reveal_strlit(" must be an integer: ");
        assert(label@ + " must be an integer"@ + ": "@ + int_error_text(k) =~= label@
            + " must be an integer: "@ + int_error_text(k));
    }
    e
}

/// Parses a required `i64` field: the input is trimmed, must not be empty,
/// and must be the decimal text of an `i64`.
pub fn parse_i64_required(label: &str, s: &str) -> (r: Result<i64, DataError>)
    ensures
        form_result(r, required_i64_spec(label@, s@)),
        r matches Err(e) ==> e.message@ == integer_field_message(label@, s@),
{
    let trimmed = trim(s);
    if trimmed.is_empty() {
        return Err(DataError::new(ErrorKind::Invalid, concat2(label, " must not be empty")));
    }
    match parse_int(trimmed, -9223372036854775808, 9223372036854775807) {
        Ok(v) => Ok(v),
        Err(k) => Err(integer_error(label, k)),
    }
}

/// Parses an optional `i64` field: blank input is `None`, otherwise the
/// trimmed input must be the decimal text of an `i64`.
pub fn parse_i64_optional(label: &str, s: &str) -> (r: Result<Option<i64>, DataError>)
    ensures
        form_result(r, optional_i64_spec(label@, s@)),
        r matches Err(e) ==> e.message@ == not_integer_msg(label@),
{
    let trimmed = trim(s);
    if trimmed.is_empty() {
        return Ok(None);
    }
    match parse_int(trimmed, -9223372036854775808, 9223372036854775807) {
        Ok(v) => Ok(Some(v)),
        Err(k) => Err(integer_error(label, k)),
    }
}

/// Parses a "pick one of these" input with `parse`: the input is trimmed and
/// must not be empty; a failure of `parse` is reported as `"Invalid
/// <label>"`, with the failure's text as its cause (full text `"Invalid
/// <label>: <why>"`).
pub fn parse_choice<T, F: FnOnce(&str) -> Result<T, DataError>>(label: &str, raw: &str, parse: F) -> (r:
    Result<T, DataError>)
    requires
        forall|s: &str| #[trigger] parse.requires((s,)),
    ensures
        is_blank_spec(raw@) ==> (r matches Err(e) && is_error(
            e,
            ErrorKind::Invalid,
            not_empty_msg(label@),
        )),
        !is_blank_spec(raw@) ==> exists|s: &str, p: Result<T, DataError>|
            s@ == trim_spec(raw@) && parse.ensures((s,), p) && match p {
                Ok(v) => r == Ok::<T, DataError>(v),
                Err(pe) => r matches Err(e) && (e.kind == ErrorKind::Invalid && e.message@
                    == "Invalid "@ + label@ && (e.cause matches Some(c) && c@ == error_text(pe))),
            },
{
    let trimmed = trim(raw);
    if trimmed.is_empty() {
        return Err(DataError::new(ErrorKind::Invalid, concat2(label, " must not be empty")));
    }
    match parse(trimmed) {
        Ok(v) => Ok(v),
        Err(pe) => Err(DataError::with_cause(ErrorKind::Invalid, concat2("Invalid ", label), pe.text())),
    }
}

} // verus!
