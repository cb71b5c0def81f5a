//! The editor's database work, and what it shows afterwards.
//!
//! Each task receives the outcome of opening the database. What a statement
//! does depends on what is stored, so where a task reaches the database its
//! contract says what holds of every outcome: either the status line shows
//! an error and nothing else changed, or the task's success state.

use vstd::prelude::*;
use crate::db::db_error;
use crate::shared::{error_text, DataError, ErrorKind};
use crate::tools::gui::state::ToolsGuiView;

verus! {

/// The text of a failure to open the database, if it failed.
pub open spec fn conn_error(conn: Result<rusqlite::Connection, String>) -> Option<Seq<char>> {
    match conn {
        Ok(_) => None,
        Err(s) => Some(s@),
    }
}

/// Only the status line changed, and it shows something.
pub open spec fn status_only(pre: ToolsGuiView, post: ToolsGuiView) -> bool {
    post.status is Some && post == pre.with_status(post.status.unwrap())
}

/// The opened connection, or the failure to open it as a database error.
pub fn opened(conn: Result<rusqlite::Connection, String>) -> (r: Result<rusqlite::Connection, DataError>)
    ensures
        match conn {
            Ok(c) => r == Ok::<rusqlite::Connection, DataError>(c),
            Err(s) => r matches Err(e) && e.kind == ErrorKind::Db && error_text(e) == s@,
        },
{
    match conn {
        Ok(c) => Ok(c),
        Err(s) => Err(DataError::new(ErrorKind::Db, s)),
    }
}

/// A failed statement with context `ctx`: the message is `ctx`, the cause
/// the SQLite error.
pub fn db_context(ctx: &str, e: rusqlite::Error) -> (r: DataError)
    ensures
        r.kind == ErrorKind::Db,
        r.message@ == ctx@,
        r.cause is Some,
{
    let inner = db_error(e);
    DataError::with_cause(ErrorKind::Db, ctx.to_owned(), inner.text())
}

/// The outcome of work that either fails, showing why and asking
/// `err_eff`, or succeeds, leaving `ok_post` and asking `ok_eff`.
pub open spec fn outcome(
    pre: ToolsGuiView,
    post: ToolsGuiView,
    eff: crate::tools::gui::effects::ToolsEffect,
    ok_post: ToolsGuiView,
    ok_eff: crate::tools::gui::effects::ToolsEffect,
    err_eff: crate::tools::gui::effects::ToolsEffect,
) -> bool {
    (status_only(pre, post) && eff == err_eff) || (post == ok_post && eff == ok_eff)
}

/// Like `outcome`, for work that opens the database first.
pub open spec fn conn_outcome(
    pre: ToolsGuiView,
    conn_err: Option<Seq<char>>,
    post: ToolsGuiView,
    eff: crate::tools::gui::effects::ToolsEffect,
    ok_post: ToolsGuiView,
    ok_eff: crate::tools::gui::effects::ToolsEffect,
    err_eff: crate::tools::gui::effects::ToolsEffect,
) -> bool {
    match conn_err {
        Some(s) => post == pre.with_status(s) && eff == err_eff,
        None => outcome(pre, post, eff, ok_post, ok_eff, err_eff),
    }
}

} // verus!
