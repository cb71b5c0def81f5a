//! Levels: named cards with a text.

use vstd::prelude::*;
use crate::cards::outcome::{after_change, after_save, removed_any};
use crate::db::{
    run, SqlStatement, db_failure, bad_row, col_text, answered, fetch_all, fetch_first, first_answered, text_param, read_text,
    SqlParam, SqlValue,
};
use crate::shared::{
    concat3, fails_only_in_db, is_error, non_empty_msg, require_non_empty_trimmed, DataError,
    ErrorKind,
};
use crate::text::{trim_spec, is_blank_spec, str_eq, trim};

verus! {

#[derive(Debug, Clone, PartialEq, Eq)]
pub struct Level {
    pub name: String,
    pub text: String,
}

/// Why a level may not be stored, if it may not.
pub open spec fn level_problem(card: Level) -> Option<Seq<char>> {
    if is_blank_spec(card.name@) {
        Some(non_empty_msg("Level.name"@))
    } else if is_blank_spec(card.text@) {
        Some(non_empty_msg("Level.text"@))
    } else {
        None
    }
}

/// Checks that the level's name and text are not blank.
pub fn validate_card(card: &Level) -> (r: Result<(), DataError>)
    ensures
        match level_problem(*card) {
            Some(m) => r matches Err(e) && is_error(e, ErrorKind::Invalid, m),
            None => r is Ok,
        },
{
    require_non_empty_trimmed("Level.name", card.name.as_str())?;
    require_non_empty_trimmed("Level.text", card.text.as_str())?;
    Ok(())
}

/// The level a row `name, text` holds.
pub open spec fn level_of_row(row: Seq<SqlValue>) -> Option<Level> {
    match (col_text(row[0]), col_text(row[1])) {
        (Some(name), Some(text)) => Some(Level { name, text }),
        _ => None,
    }
}

/// Reads a level from a row `name, text`.
pub fn level_from_row(row: &Vec<SqlValue>) -> (r: Result<Level, DataError>)
    requires
        row@.len() == 2,
    ensures
        match level_of_row(row@) {
            Some(a) => r == Ok::<Level, DataError>(a),
            None => r matches Err(e) && e.kind == ErrorKind::Db,
        },
{
    let name = match read_text(&row[0]) {
        Some(v) => v,
        None => return Err(bad_row("levels.name")),
    };
    let text = match read_text(&row[1]) {
        Some(v) => v,
        None => return Err(bad_row("levels.text")),
    };
    Ok(Level { name, text })
}

pub open spec fn levels_of_rows(rows: Seq<Vec<SqlValue>>, out: Seq<Level>) -> bool {
    &&& out.len() == rows.len()
    &&& forall|i: int| 0 <= i < rows.len() ==> level_of_row(#[trigger] rows[i]@) == Some(out[i])
}

/// Reads levels from rows, in row order.
pub fn levels_from_rows(rows: &Vec<Vec<SqlValue>>) -> (r: Result<Vec<Level>, DataError>)
    requires
        forall|i: int| 0 <= i < rows@.len() ==> #[trigger] rows@[i]@.len() == 2,
    ensures
        match r {
            Ok(v) => levels_of_rows(rows@, v@),
            Err(e) => e.kind == ErrorKind::Db && exists|i: int|
                0 <= i < rows@.len() && level_of_row(#[trigger] rows@[i]@) is None,
        },
{
    let mut out: Vec<Level> = Vec::new();
    let mut i: usize = 0;
    while i < rows.len()
        invariant
            i <= rows@.len(),
            forall|k: int| 0 <= k < rows@.len() ==> #[trigger] rows@[k]@.len() == 2,
            levels_of_rows(rows@.subrange(0, i as int), out@),
        decreases rows@.len() - i,
    {
        let a = match level_from_row(&rows[i]) {
            Ok(a) => a,
            Err(e) => return Err(e),
        };
        out.push(a);
        i = i + 1;
        assert forall|k: int| 0 <= k < i implies level_of_row(
            #[trigger] rows@.subrange(0, i as int)[k]@,
        ) == Some(out@[k]) by {
            if k < i - 1 {
                assert(rows@.subrange(0, i as int)[k] == rows@.subrange(0, i - 1)[k]);
            }
        }
    }
    assert(rows@.subrange(0, i as int) =~= rows@);
    Ok(out)
}

/// The errors of a write that validates `card` first.
pub open spec fn write_errors<T>(card: Level, r: Result<T, DataError>) -> bool {
    &&& level_problem(card) matches Some(m) ==> (r matches Err(e) && is_error(
        e,
        ErrorKind::Invalid,
        m,
    ))
    &&& level_problem(card) is None ==> fails_only_in_db(r)
}

/// The text of the query that reads one card by name.
pub open spec fn select_one_sql() -> Seq<char> {
    "SELECT name, text FROM levels WHERE name = ?1"@
}

/// The text of the query that reads every card.
pub open spec fn select_all_sql() -> Seq<char> {
    "SELECT name, text FROM levels ORDER BY name ASC"@
}

/// The query that reads the level called `name`.
pub fn select_by_name_statement(name: &str) -> (r: SqlStatement)
    ensures
        r.sql@ == "SELECT name, text FROM levels WHERE name = ?1"@,
        r.params@.len() == 1,
        r.params@[0] matches SqlParam::Text(t) && t@ == name@,
{
    SqlStatement {
        sql: "SELECT name, text FROM levels WHERE name = ?1",
        params: vec![SqlParam::Text(name.to_owned())],
    }
}

/// The query that reads every level, ordered by name.
pub fn select_all_statement() -> (r: SqlStatement)
    ensures
        r.sql@ == "SELECT name, text FROM levels ORDER BY name ASC"@,
        r.params@.len() == 0,
{
    SqlStatement {
        sql: "SELECT name, text FROM levels ORDER BY name ASC",
        params: Vec::new(),
    }
}

/// Lists levels ordered by name (ascending).
pub fn list_cards(conn: &rusqlite::Connection) -> (r: Result<Vec<Level>, DataError>)
    ensures
        r matches Ok(v) ==> exists|rows: Seq<Vec<SqlValue>>| #[trigger] levels_of_rows(rows, v@),
        r matches Ok(v) ==> exists|rows: Seq<Vec<SqlValue>>| answered(select_all_sql(), seq![], 2, rows)
            && #[trigger] levels_of_rows(rows, v@),
        fails_only_in_db(r),
{
    let st = select_all_statement();
    let found = fetch_all(conn, &st, 2);
    proof {
        if let Ok(rows) = &found {
            assert(st.params@ =~= seq![]);
            assert(answered(select_all_sql(), seq![], 2, rows@));
        }
    }
    match found {
        Ok(rows) => levels_from_rows(&rows),
        Err(e) => Err(db_failure("Failed to query levels".to_owned(), e)),
    }
}

/// The statement that creates level `card` (a plain insert: an existing name makes it fail).
pub fn insert_statement(card: &Level) -> (r: SqlStatement)
    ensures
        r.sql@ == "INSERT INTO levels (name, text) VALUES (?1, ?2)"@,
        r.params@.len() == 2,
        r.params@[0] matches SqlParam::Text(t) && t@ == card.name@,
        r.params@[1] matches SqlParam::Text(t) && t@ == card.text@,
{
    SqlStatement {
        sql: "INSERT INTO levels (name, text) VALUES (?1, ?2)",
        params: vec![SqlParam::Text(card.name.clone()), SqlParam::Text(card.text.clone())],
    }
}

/// The statement that sets the text of the level named `card.name` (an update only: it never
/// inserts).
pub fn update_statement(card: &Level) -> (r: SqlStatement)
    ensures
        r.sql@ == "UPDATE levels SET text = ?2 WHERE name = ?1"@,
        r.params@.len() == 2,
        r.params@[0] matches SqlParam::Text(t) && t@ == card.name@,
        r.params@[1] matches SqlParam::Text(t) && t@ == card.text@,
{
    SqlStatement {
        sql: "UPDATE levels SET text = ?2 WHERE name = ?1",
        params: vec![SqlParam::Text(card.name.clone()), SqlParam::Text(card.text.clone())],
    }
}

/// The statement that renames the level `old_name` to `card.name` and sets its text.
pub fn rename_statement(old_name: &str, card: &Level) -> (r: SqlStatement)
    ensures
        r.sql@ == "UPDATE levels SET name = ?2, text = ?3 WHERE name = ?1"@,
        r.params@.len() == 3,
        r.params@[0] matches SqlParam::Text(t) && t@ == old_name@,
        r.params@[1] matches SqlParam::Text(t) && t@ == card.name@,
        r.params@[2] matches SqlParam::Text(t) && t@ == card.text@,
{
    SqlStatement {
        sql: "UPDATE levels SET name = ?2, text = ?3 WHERE name = ?1",
        params: vec![
            SqlParam::Text(old_name.to_owned()),
            SqlParam::Text(card.name.clone()),
            SqlParam::Text(card.text.clone()),
        ],
    }
}

/// The statement that deletes the level named `name`.
pub fn delete_statement(name: &str) -> (r: SqlStatement)
    ensures
        r.sql@ == "DELETE FROM levels WHERE name = ?1"@,
        r.params@.len() == 1,
        r.params@[0] matches SqlParam::Text(t) && t@ == name@,
{
    SqlStatement {
        sql: "DELETE FROM levels WHERE name = ?1",
        params: vec![SqlParam::Text(name.to_owned())],
    }
}

/// Inserts a new level and returns it as stored; an existing level with the
/// same name makes the insert fail ("create" semantics).
pub fn save_card(conn: &rusqlite::Connection, card: &Level) -> (r: Result<Level, DataError>)
    ensures
        write_errors(*card, r),
{
    validate_card(card)?;
    let st = insert_statement(card);
    if let Err(e) = run(conn, &st) {
        return Err(db_failure(concat3("Failed to save level `", card.name.as_str(), "`"), e));
    }
    let reloaded = get_card(conn, card.name.as_str())?;
    after_save(reloaded, concat3("Level `", card.name.as_str(), "` was saved but could not be reloaded"))
}

/// Updates the text of an existing level (by name); `Ok(None)` if no level
/// has that name.
pub fn update_card(conn: &rusqlite::Connection, card: &Level) -> (r: Result<Option<Level>, DataError>)
    ensures
        write_errors(*card, r),
{
    validate_card(card)?;
    let st = update_statement(card);
    let changed = match run(conn, &st) {
        Ok(n) => n,
        Err(e) => return Err(db_failure(concat3("Failed to update level `", card.name.as_str(), "`"), e)),
    };
    let reload = || -> (r: Result<Option<Level>, DataError>)
        ensures
            fails_only_in_db(r),
        {
            let found = get_card(conn, card.name.as_str());
            found
        };
    after_change(changed, reload)
}

/// Renames a level (updates the primary key `name`) and updates its text.
///
/// When both names trim to the same text this behaves like `update_card`.
/// Returns `Ok(None)` if no level with `old_name` exists.
pub fn rename_card(conn: &rusqlite::Connection, old_name: &str, card: &Level) -> (r: Result<
    Option<Level>,
    DataError,
>)
    ensures
        is_blank_spec(old_name@) ==> (r matches Err(e) && is_error(
            e,
            ErrorKind::Invalid,
            non_empty_msg("old_name"@),
        )),
        !is_blank_spec(old_name@) ==> write_errors(*card, r),
{
    let old_name = require_non_empty_trimmed("old_name", old_name)?;
    validate_card(card)?;
    if str_eq(old_name, trim(card.name.as_str())) {
        return update_card(conn, card);
    }
    let st = rename_statement(old_name, card);
    let changed = match run(conn, &st) {
        Ok(n) => n,
        Err(e) => return Err(db_failure(concat3(concat3("Failed to rename level `", old_name, "` to `").as_str(), card.name.as_str(), "`"), e)),
    };
    let reload = || -> (r: Result<Option<Level>, DataError>)
        ensures
            fails_only_in_db(r),
        {
            let found = get_card(conn, card.name.as_str());
            found
        };
    after_change(changed, reload)
}

/// Deletes a level by name: `Ok(true)` if a row was deleted, `Ok(false)` if
/// nothing matched (a blank name matches nothing).
pub fn delete_card(conn: &rusqlite::Connection, name: &str) -> (r: Result<bool, DataError>)
    ensures
        is_blank_spec(name@) ==> r == Ok::<bool, DataError>(false),
        fails_only_in_db(r),
        r matches Err(e) ==> e.message@ == "Failed to delete level `"@ + trim_spec(name@) + "`"@,
{
    let name = trim(name);
    if name.is_empty() {
        return Ok(false);
    }
    let st = delete_statement(name);
    match run(conn, &st) {
        Ok(n) => Ok(removed_any(n)),
        Err(e) => Err(db_failure(concat3("Failed to delete level `", name, "`"), e)),
    }
}

/// Loads a level by exact (trimmed) name; `Ok(None)` if not found.
pub fn get_card(conn: &rusqlite::Connection, name: &str) -> (r: Result<Option<Level>, DataError>)
    ensures
        is_blank_spec(name@) ==> r == Ok::<Option<Level>, DataError>(None),
        fails_only_in_db(r),
        r matches Ok(Some(c)) ==> exists|row: Seq<SqlValue>| #[trigger] level_of_row(row) == Some(c),
        r matches Ok(Some(c)) ==> exists|row: Vec<SqlValue>, p: Seq<SqlParam>|
            #![trigger first_answered(select_one_sql(), p, 2, Some(row))]
            text_param(p, trim_spec(name@)) && first_answered(select_one_sql(), p, 2, Some(row))
                && level_of_row(row@) == Some(c),
        !is_blank_spec(name@) && r == Ok::<Option<Level>, DataError>(None) ==> exists|p: Seq<SqlParam>|
            #![trigger first_answered(select_one_sql(), p, 2, None)]
            text_param(p, trim_spec(name@)) && first_answered(select_one_sql(), p, 2, None),
{
    let name = trim(name);
    if name.is_empty() {
        return Ok(None);
    }
    let st = select_by_name_statement(name);
    let found = fetch_first(conn, &st, 2);
    proof {
        if let Ok(Some(row)) = &found {
            assert(first_answered(select_one_sql(), st.params@, 2, Some(*row)));
        }
        if let Ok(None) = &found {
            assert(first_answered(select_one_sql(), st.params@, 2, None));
        }
    }
    match found {
        Ok(Some(row)) => match level_from_row(&row) {
            Ok(a) => Ok(Some(a)),
            Err(e) => Err(e),
        },
        Ok(None) => Ok(None),
        Err(e) => Err(db_failure(concat3("Failed to fetch level `", name, "`"), e)),
    }
}

} // verus!
