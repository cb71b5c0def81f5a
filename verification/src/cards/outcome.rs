//! What a card write makes of what SQLite reports back: the number of rows
//! a statement changed, and the card read back after it.

use vstd::prelude::*;
use crate::shared::{is_error, DataError, ErrorKind};

verus! {

/// Whether a delete removed the card: it did when it changed a row.
pub fn removed_any(changed: usize) -> (r: bool)
    ensures
        r == (changed > 0),
{
    changed > 0
}

/// The result of an update or rename that changed `changed` rows: no card
/// when it changed none (the card did not exist); otherwise the card as
/// `reload` reads it back (`reload` is not run when nothing changed).
pub fn after_change<T, F: FnOnce() -> Result<Option<T>, DataError>>(changed: usize, reload: F) -> (r:
    Result<Option<T>, DataError>)
    requires
        changed > 0 ==> reload.requires(()),
    ensures
        changed == 0 ==> r == Ok::<Option<T>, DataError>(None),
        changed > 0 ==> reload.ensures((), r),
{
    if changed == 0 {
        Ok(None)
    } else {
        reload()
    }
}

/// The result of a create, given the card read back after the insert: that
/// card, or the `Db` error `missing` when it cannot be found.
pub fn after_save<T>(reloaded: Option<T>, missing: String) -> (r: Result<T, DataError>)
    ensures
        match reloaded {
            Some(a) => r == Ok::<T, DataError>(a),
            None => r matches Err(e) && is_error(e, ErrorKind::Db, missing@),
        },
{
    match reloaded {
        Some(a) => Ok(a),
        None => Err(DataError::new(ErrorKind::Db, missing)),
    }
}

} // verus!
