//! Units: named cards with five stats.

use vstd::prelude::*;
use crate::cards::outcome::{after_change, after_save, removed_any};
use crate::db::{
    run, SqlStatement, db_failure, bad_row, col_i64, col_text, db_error, answered, fetch_all, fetch_first, first_answered, text_param,
    read_i64, read_text, SqlParam, SqlValue,
};
use crate::shared::{
    concat3, fails_only_in_db, is_error, non_empty_msg, require_non_empty_trimmed, DataError,
    ErrorKind,
};
use crate::text::{trim_spec, is_blank_spec, str_eq, trim};

verus! {

#[derive(Debug, Clone, PartialEq, Eq)]
pub struct Unit {
    pub name: String,
    pub strength: i64,
    pub focus: i64,
    pub intelligence: i64,
    pub agility: i64,
    pub knowledge: i64,
}

/// Why a unit may not be stored, if it may not.
pub open spec fn unit_problem(card: Unit) -> Option<Seq<char>> {
    if is_blank_spec(card.name@) {
        Some(non_empty_msg("Unit.name"@))
    } else {
        None
    }
}

/// Checks that the unit's name is not blank.
pub fn validate_card(card: &Unit) -> (r: Result<(), DataError>)
    ensures
        match unit_problem(*card) {
            Some(m) => r matches Err(e) && is_error(e, ErrorKind::Invalid, m),
            None => r is Ok,
        },
{
    require_non_empty_trimmed("Unit.name", card.name.as_str())?;
    Ok(())
}

/// The unit a row `name, strength, focus, intelligence, agility, knowledge` holds.
pub open spec fn unit_of_row(row: Seq<SqlValue>) -> Option<Unit> {
    match (
        col_text(row[0]),
        col_i64(row[1]),
        col_i64(row[2]),
        col_i64(row[3]),
        col_i64(row[4]),
        col_i64(row[5]),
    ) {
        (
            Some(name),
            Some(strength),
            Some(focus),
            Some(intelligence),
            Some(agility),
            Some(knowledge),
        ) => Some(Unit { name, strength, focus, intelligence, agility, knowledge }),
        _ => None,
    }
}

/// Reads a unit from a row `name, strength, focus, intelligence, agility,
/// knowledge`.
pub fn unit_from_row(row: &Vec<SqlValue>) -> (r: Result<Unit, DataError>)
    requires
        row@.len() == 6,
    ensures
        match unit_of_row(row@) {
            Some(a) => r == Ok::<Unit, DataError>(a),
            None => r matches Err(e) && e.kind == ErrorKind::Db,
        },
{
    let name = match read_text(&row[0]) {
        Some(v) => v,
        None => return Err(bad_row("units.name")),
    };
    let strength = match read_i64(&row[1]) {
        Some(v) => v,
        None => return Err(bad_row("units.strength")),
    };
    let focus = match read_i64(&row[2]) {
        Some(v) => v,
        None => return Err(bad_row("units.focus")),
    };
    let intelligence = match read_i64(&row[3]) {
        Some(v) => v,
        None => return Err(bad_row("units.intelligence")),
    };
    let agility = match read_i64(&row[4]) {
        Some(v) => v,
        None => return Err(bad_row("units.agility")),
    };
    let knowledge = match read_i64(&row[5]) {
        Some(v) => v,
        None => return Err(bad_row("units.knowledge")),
    };
    Ok(Unit { name, strength, focus, intelligence, agility, knowledge })
}

pub open spec fn units_of_rows(rows: Seq<Vec<SqlValue>>, out: Seq<Unit>) -> bool {
    &&& out.len() == rows.len()
    &&& forall|i: int| 0 <= i < rows.len() ==> unit_of_row(#[trigger] rows[i]@) == Some(out[i])
}

/// Reads units from rows, in row order.
pub fn units_from_rows(rows: &Vec<Vec<SqlValue>>) -> (r: Result<Vec<Unit>, DataError>)
    requires
        forall|i: int| 0 <= i < rows@.len() ==> #[trigger] rows@[i]@.len() == 6,
    ensures
        match r {
            Ok(v) => units_of_rows(rows@, v@),
            Err(e) => e.kind == ErrorKind::Db && exists|i: int|
                0 <= i < rows@.len() && unit_of_row(#[trigger] rows@[i]@) is None,
        },
{
    let mut out: Vec<Unit> = Vec::new();
    let mut i: usize = 0;
    while i < rows.len()
        invariant
            i <= rows@.len(),
            forall|k: int| 0 <= k < rows@.len() ==> #[trigger] rows@[k]@.len() == 6,
            units_of_rows(rows@.subrange(0, i as int), out@),
        decreases rows@.len() - i,
    {
        let a = match unit_from_row(&rows[i]) {
            Ok(a) => a,
            Err(e) => return Err(e),
        };
        out.push(a);
        i = i + 1;
        assert forall|k: int| 0 <= k < i implies unit_of_row(
            #[trigger] rows@.subrange(0, i as int)[k]@,
        ) == Some(out@[k]) by {
            if k < i - 1 {
                assert(rows@.subrange(0, i as int)[k] == rows@.subrange(0, i - 1)[k]);
            }
        }
    }
    assert(rows@.subrange(0, i as int) =~= rows@);
    Ok(out)
}

/// The parameters `name, strength, focus, intelligence, agility, knowledge`.
pub fn unit_params(card: &Unit) -> (r: Vec<SqlParam>)
    ensures
        r@ == seq![
            SqlParam::Text(card.name),
            SqlParam::Integer(card.strength),
            SqlParam::Integer(card.focus),
            SqlParam::Integer(card.intelligence),
            SqlParam::Integer(card.agility),
            SqlParam::Integer(card.knowledge),
        ],
{
    vec![
        SqlParam::Text(card.name.clone()),
        SqlParam::Integer(card.strength),
        SqlParam::Integer(card.focus),
        SqlParam::Integer(card.intelligence),
        SqlParam::Integer(card.agility),
        SqlParam::Integer(card.knowledge),
    ]
}

/// The errors of a write that validates `card` first.
pub open spec fn write_errors<T>(card: Unit, r: Result<T, DataError>) -> bool {
    &&& unit_problem(card) matches Some(m) ==> (r matches Err(e) && is_error(
        e,
        ErrorKind::Invalid,
        m,
    ))
    &&& unit_problem(card) is None ==> fails_only_in_db(r)
}

/// The text of the query that reads one card by name.
pub open spec fn select_one_sql() -> Seq<char> {
    "SELECT name, strength, focus, intelligence, agility, knowledge FROM units WHERE name = ?1"@
}

/// The text of the query that reads every card.
pub open spec fn select_all_sql() -> Seq<char> {
    "SELECT name, strength, focus, intelligence, agility, knowledge FROM units ORDER BY name ASC"@
}

/// The query that reads the unit called `name`.
pub fn select_by_name_statement(name: &str) -> (r: SqlStatement)
    ensures
        r.sql@ == "SELECT name, strength, focus, intelligence, agility, knowledge FROM units WHERE name = ?1"@,
        r.params@.len() == 1,
        r.params@[0] matches SqlParam::Text(t) && t@ == name@,
{
    SqlStatement {
        sql: "SELECT name, strength, focus, intelligence, agility, knowledge FROM units WHERE name = ?1",
        params: vec![SqlParam::Text(name.to_owned())],
    }
}

/// The query that reads every unit, ordered by name.
pub fn select_all_statement() -> (r: SqlStatement)
    ensures
        r.sql@ == "SELECT name, strength, focus, intelligence, agility, knowledge FROM units ORDER BY name ASC"@,
        r.params@.len() == 0,
{
    SqlStatement {
        sql: "SELECT name, strength, focus, intelligence, agility, knowledge FROM units ORDER BY name ASC",
        params: Vec::new(),
    }
}

/// Lists units ordered by name (ascending).
pub fn list_cards(conn: &rusqlite::Connection) -> (r: Result<Vec<Unit>, DataError>)
    ensures
        r matches Ok(v) ==> exists|rows: Seq<Vec<SqlValue>>| #[trigger] units_of_rows(rows, v@),
        r matches Ok(v) ==> exists|rows: Seq<Vec<SqlValue>>| answered(select_all_sql(), seq![], 6, rows)
            && #[trigger] units_of_rows(rows, v@),
        fails_only_in_db(r),
{
    let st = select_all_statement();
    let found = fetch_all(conn, &st, 6);
    proof {
        if let Ok(rows) = &found {
            assert(st.params@ =~= seq![]);
            assert(answered(select_all_sql(), seq![], 6, rows@));
        }
    }
    match found {
        Ok(rows) => units_from_rows(&rows),
        Err(e) => Err(db_error(e)),
    }
}

/// The statement that creates unit `card` (a plain insert: an existing name makes it fail).
pub fn insert_statement(card: &Unit) -> (r: SqlStatement)
    ensures
        r.sql@ == "INSERT INTO units (name, strength, focus, intelligence, agility, knowledge) VALUES (?1, ?2, ?3, ?4, ?5, ?6)"@,
        r.params@.len() == 6,
        r.params@[0] matches SqlParam::Text(t) && t@ == card.name@,
        r.params@[1] == SqlParam::Integer(card.strength),
        r.params@[2] == SqlParam::Integer(card.focus),
        r.params@[3] == SqlParam::Integer(card.intelligence),
        r.params@[4] == SqlParam::Integer(card.agility),
        r.params@[5] == SqlParam::Integer(card.knowledge),
{
    SqlStatement {
        sql: "INSERT INTO units (name, strength, focus, intelligence, agility, knowledge) VALUES (?1, ?2, ?3, ?4, ?5, ?6)",
        params: unit_params(card),
    }
}

/// The statement that updates the stats of the unit named `card.name` (an update only: it never
/// inserts).
pub fn update_statement(card: &Unit) -> (r: SqlStatement)
    ensures
        r.sql@ == "UPDATE units SET strength = ?2, focus = ?3, intelligence = ?4, agility = ?5, knowledge = ?6 WHERE name = ?1"@,
        r.params@.len() == 6,
        r.params@[0] matches SqlParam::Text(t) && t@ == card.name@,
        r.params@[1] == SqlParam::Integer(card.strength),
        r.params@[2] == SqlParam::Integer(card.focus),
        r.params@[3] == SqlParam::Integer(card.intelligence),
        r.params@[4] == SqlParam::Integer(card.agility),
        r.params@[5] == SqlParam::Integer(card.knowledge),
{
    SqlStatement {
        sql: "UPDATE units SET strength = ?2, focus = ?3, intelligence = ?4, agility = ?5, knowledge = ?6 WHERE name = ?1",
        params: unit_params(card),
    }
}

/// The statement that renames the unit `old_name` to `card.name` and sets its stats.
pub fn rename_statement(old_name: &str, card: &Unit) -> (r: SqlStatement)
    ensures
        r.sql@ == "UPDATE units SET name = ?2, strength = ?3, focus = ?4, intelligence = ?5, agility = ?6, knowledge = ?7 WHERE name = ?1"@,
        r.params@.len() == 7,
        r.params@[0] matches SqlParam::Text(t) && t@ == old_name@,
        r.params@[1] matches SqlParam::Text(t) && t@ == card.name@,
        r.params@[2] == SqlParam::Integer(card.strength),
        r.params@[3] == SqlParam::Integer(card.focus),
        r.params@[4] == SqlParam::Integer(card.intelligence),
        r.params@[5] == SqlParam::Integer(card.agility),
        r.params@[6] == SqlParam::Integer(card.knowledge),
{
    SqlStatement {
        sql: "UPDATE units SET name = ?2, strength = ?3, focus = ?4, intelligence = ?5, agility = ?6, knowledge = ?7 WHERE name = ?1",
        params: vec![
            SqlParam::Text(old_name.to_owned()),
            SqlParam::Text(card.name.clone()),
            SqlParam::Integer(card.strength),
            SqlParam::Integer(card.focus),
            SqlParam::Integer(card.intelligence),
            SqlParam::Integer(card.agility),
            SqlParam::Integer(card.knowledge),
        ],
    }
}

/// The statement that deletes the unit named `name`.
pub fn delete_statement(name: &str) -> (r: SqlStatement)
    ensures
        r.sql@ == "DELETE FROM units WHERE name = ?1"@,
        r.params@.len() == 1,
        r.params@[0] matches SqlParam::Text(t) && t@ == name@,
{
    SqlStatement {
        sql: "DELETE FROM units WHERE name = ?1",
        params: vec![SqlParam::Text(name.to_owned())],
    }
}

/// Inserts a new unit and returns it as stored; an existing unit with the
/// same name makes the insert fail ("create" semantics).
pub fn save_card(conn: &rusqlite::Connection, card: &Unit) -> (r: Result<Unit, DataError>)
    ensures
        write_errors(*card, r),
{
    validate_card(card)?;
    let st = insert_statement(card);
    if let Err(e) = run(conn, &st) {
        return Err(db_failure(concat3("Failed to save unit `", card.name.as_str(), "`"), e));
    }
    let reloaded = get_card(conn, card.name.as_str())?;
    after_save(reloaded, concat3("Unit `", card.name.as_str(), "` was saved but could not be reloaded"))
}

/// Updates the stats of an existing unit (by name); `Ok(None)` if no unit
/// has that name.
pub fn update_card(conn: &rusqlite::Connection, card: &Unit) -> (r: Result<Option<Unit>, DataError>)
    ensures
        write_errors(*card, r),
{
    validate_card(card)?;
    let st = update_statement(card);
    let changed = match run(conn, &st) {
        Ok(n) => n,
        Err(e) => return Err(db_failure(concat3("Failed to update unit `", card.name.as_str(), "`"), e)),
    };
    let reload = || -> (r: Result<Option<Unit>, DataError>)
        ensures
            fails_only_in_db(r),
        {
            let found = get_card(conn, card.name.as_str());
            found
        };
    after_change(changed, reload)
}

/// Renames a unit (updates the primary key `name`) and updates all fields.
///
/// When both names trim to the same text this behaves like `update_card`.
/// Returns `Ok(None)` if no unit with `old_name` exists.
pub fn rename_and_update_card(conn: &rusqlite::Connection, old_name: &str, card: &Unit) -> (r: Result<
    Option<Unit>,
    DataError,
>)
    ensures
        is_blank_spec(old_name@) ==> (r matches Err(e) && is_error(
            e,
            ErrorKind::Invalid,
            non_empty_msg("old_name"@),
        )),
        !is_blank_spec(old_name@) ==> write_errors(*card, r),
{
    let old_name = require_non_empty_trimmed("old_name", old_name)?;
    validate_card(card)?;
    if str_eq(old_name, trim(card.name.as_str())) {
        return update_card(conn, card);
    }
    let st = rename_statement(old_name, card);
    let changed = match run(conn, &st) {
        Ok(n) => n,
        Err(e) => {
            let head = concat3("Failed to rename unit `", old_name, "` to `");
            return Err(db_failure(concat3(head.as_str(), card.name.as_str(), "`"), e));
        },
    };
    let reload = || -> (r: Result<Option<Unit>, DataError>)
        ensures
            fails_only_in_db(r),
        {
            let found = get_card(conn, card.name.as_str());
            found
        };
    after_change(changed, reload)
}

/// Deletes a unit by name: `Ok(true)` if a row was deleted, `Ok(false)` if
/// nothing matched (a blank name matches nothing).
pub fn delete_card(conn: &rusqlite::Connection, name: &str) -> (r: Result<bool, DataError>)
    ensures
        is_blank_spec(name@) ==> r == Ok::<bool, DataError>(false),
        fails_only_in_db(r),
        r matches Err(e) ==> e.message@ == "Failed to delete unit `"@ + trim_spec(name@) + "`"@,
{
    let name = trim(name);
    if name.is_empty() {
        return Ok(false);
    }
    let st = delete_statement(name);
    match run(conn, &st) {
        Ok(n) => Ok(removed_any(n)),
        Err(e) => Err(db_failure(concat3("Failed to delete unit `", name, "`"), e)),
    }
}

/// Loads a unit by exact (trimmed) name; `Ok(None)` if not found.
pub fn get_card(conn: &rusqlite::Connection, name: &str) -> (r: Result<Option<Unit>, DataError>)
    ensures
        is_blank_spec(name@) ==> r == Ok::<Option<Unit>, DataError>(None),
        fails_only_in_db(r),
        r matches Ok(Some(c)) ==> exists|row: Seq<SqlValue>| #[trigger] unit_of_row(row) == Some(c),
        r matches Ok(Some(c)) ==> exists|row: Vec<SqlValue>, p: Seq<SqlParam>|
            #![trigger first_answered(select_one_sql(), p, 6, Some(row))]
            text_param(p, trim_spec(name@)) && first_answered(select_one_sql(), p, 6, Some(row))
                && unit_of_row(row@) == Some(c),
        !is_blank_spec(name@) && r == Ok::<Option<Unit>, DataError>(None) ==> exists|p: Seq<SqlParam>|
            #![trigger first_answered(select_one_sql(), p, 6, None)]
            text_param(p, trim_spec(name@)) && first_answered(select_one_sql(), p, 6, None),
{
    let name = trim(name);
    if name.is_empty() {
        return Ok(None);
    }
    let st = select_by_name_statement(name);
    let found = fetch_first(conn, &st, 6);
    proof {
        if let Ok(Some(row)) = &found {
            assert(first_answered(select_one_sql(), st.params@, 6, Some(*row)));
        }
        if let Ok(None) = &found {
            assert(first_answered(select_one_sql(), st.params@, 6, None));
        }
    }
    match found {
        Ok(Some(row)) => match unit_from_row(&row) {
            Ok(a) => Ok(Some(a)),
            Err(e) => Err(e),
        },
        Ok(None) => Ok(None),
        Err(e) => Err(db_failure(concat3("Failed to fetch unit `", name, "`"), e)),
    }
}

} // verus!
