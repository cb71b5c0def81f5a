//! Stat modifiers: add to or subtract from one stat, each optionally linked
//! to one unit, item or level.

use vstd::prelude::*;
use crate::db::{
    bad_row, begin_transaction, col_i64, col_opt_text, col_text, commit, db_error, fetch_all,
    fetch_first, last_insert_rowid, read_bool, read_i64, read_opt_text, read_text, run,
    transaction_connection, SqlParam, SqlStatement, SqlValue,
};
use crate::num::{decimal_spec, i64_to_string};
use crate::shared::{concat2, concat3, fails_only_in_db, is_error, DataError, ErrorKind};
use crate::text::str_eq;

verus! {

#[derive(Debug, Clone, Copy, PartialEq, Eq, Structural)]
pub enum Stat {
    Strength,
    Focus,
    Intelligence,
    Knowledge,
    Agility,
}

pub open spec fn stat_text(s: Stat) -> Seq<char> {
    match s {
        Stat::Strength => "Strength"@,
        Stat::Focus => "Focus"@,
        Stat::Intelligence => "Intelligence"@,
        Stat::Knowledge => "Knowledge"@,
        Stat::Agility => "Agility"@,
    }
}

pub open spec fn stat_from_text(s: Seq<char>) -> Option<Stat> {
    if s == "Strength"@ {
        Some(Stat::Strength)
    } else if s == "Focus"@ {
        Some(Stat::Focus)
    } else if s == "Intelligence"@ {
        Some(Stat::Intelligence)
    } else if s == "Knowledge"@ {
        Some(Stat::Knowledge)
    } else if s == "Agility"@ {
        Some(Stat::Agility)
    } else {
        None
    }
}

impl Stat {
    pub fn as_str(&self) -> (r: &'static str)
        ensures
            r@ == stat_text(*self),
    {
        match self {
            Stat::Strength => "Strength",
            Stat::Focus => "Focus",
            Stat::Intelligence => "Intelligence",
            Stat::Knowledge => "Knowledge",
            Stat::Agility => "Agility",
        }
    }

    pub fn parse(s: &str) -> (r: Result<Stat, DataError>)
        ensures
            match stat_from_text(s@) {
                Some(v) => r == Ok::<Stat, DataError>(v),
                None => r matches Err(e) && is_error(e, ErrorKind::Invalid, "invalid Stat: "@ + s@),
            },
    {
        if str_eq(s, "Strength") {
            Ok(Stat::Strength)
        } else if str_eq(s, "Focus") {
            Ok(Stat::Focus)
        } else if str_eq(s, "Intelligence") {
            Ok(Stat::Intelligence)
        } else if str_eq(s, "Knowledge") {
            Ok(Stat::Knowledge)
        } else if str_eq(s, "Agility") {
            Ok(Stat::Agility)
        } else {
            Err(DataError::new(ErrorKind::Invalid, concat2("invalid Stat: ", s)))
        }
    }
}

/// Reading back the text of a stat gives the same stat.
pub proof fn lemma_stat_text_roundtrip(v: Stat)
    ensures
        stat_from_text(stat_text(v)) == Some(v),
{
    reveal_strlit("Strength");
    reveal_strlit("Focus");
    reveal_strlit("Intelligence");
    reveal_strlit("Knowledge");
    reveal_strlit("Agility");
    assert("Strength"@[0] != "Focus"@[0] && "Strength"@[0] != "Intelligence"@[0] && "Strength"@[0]
        != "Knowledge"@[0] && "Strength"@[0] != "Agility"@[0]);
    assert("Focus"@[0] != "Intelligence"@[0] && "Focus"@[0] != "Knowledge"@[0] && "Focus"@[0]
        != "Agility"@[0]);
    assert("Intelligence"@[0] != "Knowledge"@[0] && "Intelligence"@[0] != "Agility"@[0]);
    assert("Knowledge"@[0] != "Agility"@[0]);
}

#[derive(Debug, Clone, Copy, PartialEq, Eq, Structural)]
pub enum StatModifierOperator {
    Add,
    Subtract,
}

pub open spec fn operator_text(o: StatModifierOperator) -> Seq<char> {
    match o {
        StatModifierOperator::Add => "Add"@,
        StatModifierOperator::Subtract => "Subtract"@,
    }
}

pub open spec fn operator_from_text(s: Seq<char>) -> Option<StatModifierOperator> {
    if s == "Add"@ {
        Some(StatModifierOperator::Add)
    } else if s == "Subtract"@ {
        Some(StatModifierOperator::Subtract)
    } else {
        None
    }
}

impl StatModifierOperator {
    pub fn as_str(&self) -> (r: &'static str)
        ensures
            r@ == operator_text(*self),
    {
        match self {
            StatModifierOperator::Add => "Add",
            StatModifierOperator::Subtract => "Subtract",
        }
    }

    pub fn parse(s: &str) -> (r: Result<StatModifierOperator, DataError>)
        ensures
            match operator_from_text(s@) {
                Some(v) => r == Ok::<StatModifierOperator, DataError>(v),
                None => r matches Err(e) && is_error(
                    e,
                    ErrorKind::Invalid,
                    "invalid StatModifierOperator: "@ + s@,
                ),
            },
    {
        if str_eq(s, "Add") {
            Ok(StatModifierOperator::Add)
        } else if str_eq(s, "Subtract") {
            Ok(StatModifierOperator::Subtract)
        } else {
            Err(DataError::new(ErrorKind::Invalid, concat2("invalid StatModifierOperator: ", s)))
        }
    }
}

/// Reading back the text of an operator gives the same operator.
pub proof fn lemma_operator_text_roundtrip(v: StatModifierOperator)
    ensures
        operator_from_text(operator_text(v)) == Some(v),
{
    reveal_strlit("Add");
    reveal_strlit("Subtract");
    assert("Add"@[0] != "Subtract"@[0]);
}

#[derive(Debug, Clone, PartialEq, Eq)]
pub struct StatModifier {
    pub stat: Stat,
    pub value: i64,
    pub operator: StatModifierOperator,
}

/// Row returned from list/get APIs, with the optional association names.
#[derive(Debug, Clone, PartialEq, Eq)]
pub struct StatModifierRow {
    pub id: i64,
    pub stat: String,
    pub value: i64,
    pub operator: String,
    // Optional association (at most one is Some at a time, or all None).
    pub unit_name: Option<String>,
    pub item_name: Option<String>,
    pub level_name: Option<String>,
}

#[derive(Debug, Clone, Copy, PartialEq, Eq, Structural)]
pub enum StatModifierAssociationKind {
    /// Linked to nothing.
    Unlinked,
    Unit,
    Item,
    Level,
}

pub fn modifier_params(sm: &StatModifier) -> (r: Vec<SqlParam>)
    ensures
        r@.len() == 3,
        r@[0] matches SqlParam::Text(t) && t@ == stat_text(sm.stat),
        r@[1] == SqlParam::Integer(sm.value),
        r@[2] matches SqlParam::Text(t) && t@ == operator_text(sm.operator),
{
    vec![
        SqlParam::Text(sm.stat.as_str().to_owned()),
        SqlParam::Integer(sm.value),
        SqlParam::Text(sm.operator.as_str().to_owned()),
    ]
}

/// The statement that stores a new stat modifier.
pub fn insert_statement(sm: &StatModifier) -> (r: SqlStatement)
    ensures
        r.sql@ == "INSERT INTO stat_modifiers (stat, value, operator) VALUES (?1, ?2, ?3)"@,
        r.params@.len() == 3,
        r.params@[0] matches SqlParam::Text(t) && t@ == stat_text(sm.stat),
        r.params@[1] == SqlParam::Integer(sm.value),
        r.params@[2] matches SqlParam::Text(t) && t@ == operator_text(sm.operator),
{
    SqlStatement {
        sql: "INSERT INTO stat_modifiers (stat, value, operator) VALUES (?1, ?2, ?3)",
        params: modifier_params(sm),
    }
}

/// The statement that overwrites stat modifier `id` with `sm`; it touches no
/// other row and inserts none.
pub fn update_statement(id: i64, sm: &StatModifier) -> (r: SqlStatement)
    ensures
        r.sql@ == "UPDATE stat_modifiers SET stat = ?1, value = ?2, operator = ?3 WHERE id = ?4"@,
        r.params@.len() == 4,
        r.params@[0] matches SqlParam::Text(t) && t@ == stat_text(sm.stat),
        r.params@[1] == SqlParam::Integer(sm.value),
        r.params@[2] matches SqlParam::Text(t) && t@ == operator_text(sm.operator),
        r.params@[3] == SqlParam::Integer(id),
{
    SqlStatement {
        sql: "UPDATE stat_modifiers SET stat = ?1, value = ?2, operator = ?3 WHERE id = ?4",
        params: vec![
            SqlParam::Text(sm.stat.as_str().to_owned()),
            SqlParam::Integer(sm.value),
            SqlParam::Text(sm.operator.as_str().to_owned()),
            SqlParam::Integer(id),
        ],
    }
}

/// The statement that removes stat modifier `id`.
pub fn delete_statement(id: i64) -> (r: SqlStatement)
    ensures
        r.sql@ == "DELETE FROM stat_modifiers WHERE id = ?1"@,
        r.params@ == seq![SqlParam::Integer(id)],
{
    SqlStatement { sql: "DELETE FROM stat_modifiers WHERE id = ?1", params: vec![SqlParam::Integer(id)] }
}

/// Inserts a new stat modifier.
pub fn insert(conn: &rusqlite::Connection, sm: &StatModifier) -> (r: Result<(), DataError>)
    ensures
        fails_only_in_db(r),
{
    let st = insert_statement(sm);
    match run(conn, &st) {
        Ok(_) => Ok(()),
        Err(e) => Err(db_error(e)),
    }
}

/// Inserts a new stat modifier and returns its new `id`.
pub fn insert_returning_id(conn: &rusqlite::Connection, sm: &StatModifier) -> (r: Result<
    i64,
    DataError,
>)
    ensures
        fails_only_in_db(r),
{
    insert(conn, sm)?;
    Ok(last_insert_rowid(conn))
}

/// `"no stat_modifiers row found for id=<id>"`.
pub open spec fn stat_not_found_msg(id: i64) -> Seq<char> {
    "no stat_modifiers row found for id="@ + decimal_spec(id as int)
}

fn not_found(id: i64) -> (r: DataError)
    ensures
        is_error(r, ErrorKind::NotFound, stat_not_found_msg(id)),
{
    let digits = i64_to_string(id);
    DataError::new(ErrorKind::NotFound, concat2("no stat_modifiers row found for id=", digits.as_str()))
}

/// What an update or delete of stat modifier `id` that changed `changed`
/// rows reports: success, or `NotFound` when there is no such modifier.
pub fn changed_or_missing(changed: usize, id: i64) -> (r: Result<(), DataError>)
    ensures
        changed == 0 ==> (r matches Err(e) && is_error(e, ErrorKind::NotFound, stat_not_found_msg(id))),
        changed > 0 ==> r is Ok,
{
    if changed == 0 {
        return Err(not_found(id));
    }
    Ok(())
}

/// Updates an existing stat modifier by id.
pub fn update_by_id(conn: &rusqlite::Connection, id: i64, sm: &StatModifier) -> (r: Result<
    (),
    DataError,
>)
    ensures
        r matches Err(e) ==> (e.kind == ErrorKind::Db || is_error(
            e,
            ErrorKind::NotFound,
            stat_not_found_msg(id),
        )),
{
    let st = update_statement(id, sm);
    let changed = match run(conn, &st) {
        Ok(n) => n,
        Err(e) => return Err(db_error(e)),
    };
    changed_or_missing(changed, id)
}

/// Deletes a stat modifier by id (its link rows go with it, by cascade).
pub fn delete_by_id(conn: &rusqlite::Connection, id: i64) -> (r: Result<(), DataError>)
    ensures
        r matches Err(e) ==> (e.kind == ErrorKind::Db || is_error(
            e,
            ErrorKind::NotFound,
            stat_not_found_msg(id),
        )),
{
    let st = delete_statement(id);
    let changed = match run(conn, &st) {
        Ok(n) => n,
        Err(e) => return Err(db_error(e)),
    };
    changed_or_missing(changed, id)
}

/// The stat modifier a row `id, stat, value, operator, unit name, item name,
/// level name` holds.
pub open spec fn stat_row_of(row: Seq<SqlValue>) -> Option<StatModifierRow> {
    match (
        col_i64(row[0]),
        col_text(row[1]),
        col_i64(row[2]),
        col_text(row[3]),
        col_opt_text(row[4]),
        col_opt_text(row[5]),
        col_opt_text(row[6]),
    ) {
        (
            Some(id),
            Some(stat),
            Some(value),
            Some(operator),
            Some(unit_name),
            Some(item_name),
            Some(level_name),
        ) => Some(StatModifierRow { id, stat, value, operator, unit_name, item_name, level_name }),
        _ => None,
    }
}

/// Reads a stat modifier from a row `id, stat, value, operator, unit name,
/// item name, level name`.
pub fn stat_row_from_row(row: &Vec<SqlValue>) -> (r: Result<StatModifierRow, DataError>)
    requires
        row@.len() == 7,
    ensures
        match stat_row_of(row@) {
            Some(a) => r == Ok::<StatModifierRow, DataError>(a),
            None => r matches Err(e) && e.kind == ErrorKind::Db,
        },
{
    let id = match read_i64(&row[0]) {
        Some(v) => v,
        None => return Err(bad_row("stat_modifiers.id")),
    };
    let stat = match read_text(&row[1]) {
        Some(v) => v,
        None => return Err(bad_row("stat_modifiers.stat")),
    };
    let value = match read_i64(&row[2]) {
        Some(v) => v,
        None => return Err(bad_row("stat_modifiers.value")),
    };
    let operator = match read_text(&row[3]) {
        Some(v) => v,
        None => return Err(bad_row("stat_modifiers.operator")),
    };
    let unit_name = match read_opt_text(&row[4]) {
        Some(v) => v,
        None => return Err(bad_row("units.name")),
    };
    let item_name = match read_opt_text(&row[5]) {
        Some(v) => v,
        None => return Err(bad_row("items.name")),
    };
    let level_name = match read_opt_text(&row[6]) {
        Some(v) => v,
        None => return Err(bad_row("levels.name")),
    };
    Ok(StatModifierRow { id, stat, value, operator, unit_name, item_name, level_name })
}

pub open spec fn stat_rows_of(rows: Seq<Vec<SqlValue>>, out: Seq<StatModifierRow>) -> bool {
    &&& out.len() == rows.len()
    &&& forall|i: int| 0 <= i < rows.len() ==> stat_row_of(#[trigger] rows[i]@) == Some(out[i])
}

/// Reads stat modifiers from rows, in row order.
pub fn stat_rows_from_rows(rows: &Vec<Vec<SqlValue>>) -> (r: Result<
    Vec<StatModifierRow>,
    DataError,
>)
    requires
        forall|i: int| 0 <= i < rows@.len() ==> #[trigger] rows@[i]@.len() == 7,
    ensures
        match r {
            Ok(v) => stat_rows_of(rows@, v@),
            Err(e) => e.kind == ErrorKind::Db && exists|i: int|
                0 <= i < rows@.len() && stat_row_of(#[trigger] rows@[i]@) is None,
        },
{
    let mut out: Vec<StatModifierRow> = Vec::new();
    let mut i: usize = 0;
    while i < rows.len()
        invariant
            i <= rows@.len(),
            forall|k: int| 0 <= k < rows@.len() ==> #[trigger] rows@[k]@.len() == 7,
            stat_rows_of(rows@.subrange(0, i as int), out@),
        decreases rows@.len() - i,
    {
        let a = match stat_row_from_row(&rows[i]) {
            Ok(a) => a,
            Err(e) => return Err(e),
        };
        out.push(a);
        i = i + 1;
        assert forall|k: int| 0 <= k < i implies stat_row_of(
            #[trigger] rows@.subrange(0, i as int)[k]@,
        ) == Some(out@[k]) by {
            if k < i - 1 {
                assert(rows@.subrange(0, i as int)[k] == rows@.subrange(0, i - 1)[k]);
            }
        }
    }
    assert(rows@.subrange(0, i as int) =~= rows@);
    Ok(out)
}

/// The query that reads the stat modifier with id `id`, with any association names.
pub fn select_by_id_statement(id: i64) -> (r: SqlStatement)
    ensures
        r.sql@ == "SELECT sm.id, sm.stat, sm.value, sm.operator, u.name AS unit_name, i.name AS item_name, l.name AS level_name FROM stat_modifiers sm LEFT JOIN unit_stat_modifiers usm ON usm.stat_modifier_id = sm.id LEFT JOIN units u ON u.id = usm.unit_id LEFT JOIN item_stat_modifiers ism ON ism.stat_modifier_id = sm.id LEFT JOIN items i ON i.id = ism.item_id LEFT JOIN level_stat_modifiers lsm ON lsm.stat_modifier_id = sm.id LEFT JOIN levels l ON l.id = lsm.level_id WHERE sm.id = ?1"@,
        r.params@ == seq![SqlParam::Integer(id)],
{
    SqlStatement {
        sql: "SELECT sm.id, sm.stat, sm.value, sm.operator, u.name AS unit_name, i.name AS item_name, l.name AS level_name FROM stat_modifiers sm LEFT JOIN unit_stat_modifiers usm ON usm.stat_modifier_id = sm.id LEFT JOIN units u ON u.id = usm.unit_id LEFT JOIN item_stat_modifiers ism ON ism.stat_modifier_id = sm.id LEFT JOIN items i ON i.id = ism.item_id LEFT JOIN level_stat_modifiers lsm ON lsm.stat_modifier_id = sm.id LEFT JOIN levels l ON l.id = lsm.level_id WHERE sm.id = ?1",
        params: vec![SqlParam::Integer(id)],
    }
}

/// The query that reads every stat modifier, ordered by id, with any association names.
pub fn select_all_statement() -> (r: SqlStatement)
    ensures
        r.sql@ == "SELECT sm.id, sm.stat, sm.value, sm.operator, u.name AS unit_name, i.name AS item_name, l.name AS level_name FROM stat_modifiers sm LEFT JOIN unit_stat_modifiers usm ON usm.stat_modifier_id = sm.id LEFT JOIN units u ON u.id = usm.unit_id LEFT JOIN item_stat_modifiers ism ON ism.stat_modifier_id = sm.id LEFT JOIN items i ON i.id = ism.item_id LEFT JOIN level_stat_modifiers lsm ON lsm.stat_modifier_id = sm.id LEFT JOIN levels l ON l.id = lsm.level_id ORDER BY sm.id ASC"@,
        r.params@.len() == 0,
{
    SqlStatement {
        sql: "SELECT sm.id, sm.stat, sm.value, sm.operator, u.name AS unit_name, i.name AS item_name, l.name AS level_name FROM stat_modifiers sm LEFT JOIN unit_stat_modifiers usm ON usm.stat_modifier_id = sm.id LEFT JOIN units u ON u.id = usm.unit_id LEFT JOIN item_stat_modifiers ism ON ism.stat_modifier_id = sm.id LEFT JOIN items i ON i.id = ism.item_id LEFT JOIN level_stat_modifiers lsm ON lsm.stat_modifier_id = sm.id LEFT JOIN levels l ON l.id = lsm.level_id ORDER BY sm.id ASC",
        params: Vec::new(),
    }
}

/// The query that reads the stat modifiers of unit `unit_name`, ordered by id, with any association names.
pub fn select_for_unit_statement(unit_name: &str) -> (r: SqlStatement)
    ensures
        r.sql@ == "SELECT sm.id, sm.stat, sm.value, sm.operator, u.name AS unit_name, NULL AS item_name, NULL AS level_name FROM unit_stat_modifiers usm JOIN units u ON u.id = usm.unit_id JOIN stat_modifiers sm ON sm.id = usm.stat_modifier_id WHERE u.name = ?1 ORDER BY sm.id ASC"@,
        r.params@.len() == 1,
        r.params@[0] matches SqlParam::Text(t) && t@ == unit_name@,
{
    SqlStatement {
        sql: "SELECT sm.id, sm.stat, sm.value, sm.operator, u.name AS unit_name, NULL AS item_name, NULL AS level_name FROM unit_stat_modifiers usm JOIN units u ON u.id = usm.unit_id JOIN stat_modifiers sm ON sm.id = usm.stat_modifier_id WHERE u.name = ?1 ORDER BY sm.id ASC",
        params: vec![SqlParam::Text(unit_name.to_owned())],
    }
}

/// The query that reads the stat modifiers of item `item_name`, ordered by id, with any association names.
pub fn select_for_item_statement(item_name: &str) -> (r: SqlStatement)
    ensures
        r.sql@ == "SELECT sm.id, sm.stat, sm.value, sm.operator, NULL AS unit_name, i.name AS item_name, NULL AS level_name FROM item_stat_modifiers ism JOIN items i ON i.id = ism.item_id JOIN stat_modifiers sm ON sm.id = ism.stat_modifier_id WHERE i.name = ?1 ORDER BY sm.id ASC"@,
        r.params@.len() == 1,
        r.params@[0] matches SqlParam::Text(t) && t@ == item_name@,
{
    SqlStatement {
        sql: "SELECT sm.id, sm.stat, sm.value, sm.operator, NULL AS unit_name, i.name AS item_name, NULL AS level_name FROM item_stat_modifiers ism JOIN items i ON i.id = ism.item_id JOIN stat_modifiers sm ON sm.id = ism.stat_modifier_id WHERE i.name = ?1 ORDER BY sm.id ASC",
        params: vec![SqlParam::Text(item_name.to_owned())],
    }
}

/// The query that reads the stat modifiers of level `level_name`, ordered by id, with any association names.
pub fn select_for_level_statement(level_name: &str) -> (r: SqlStatement)
    ensures
        r.sql@ == "SELECT sm.id, sm.stat, sm.value, sm.operator, NULL AS unit_name, NULL AS item_name, l.name AS level_name FROM level_stat_modifiers lsm JOIN levels l ON l.id = lsm.level_id JOIN stat_modifiers sm ON sm.id = lsm.stat_modifier_id WHERE l.name = ?1 ORDER BY sm.id ASC"@,
        r.params@.len() == 1,
        r.params@[0] matches SqlParam::Text(t) && t@ == level_name@,
{
    SqlStatement {
        sql: "SELECT sm.id, sm.stat, sm.value, sm.operator, NULL AS unit_name, NULL AS item_name, l.name AS level_name FROM level_stat_modifiers lsm JOIN levels l ON l.id = lsm.level_id JOIN stat_modifiers sm ON sm.id = lsm.stat_modifier_id WHERE l.name = ?1 ORDER BY sm.id ASC",
        params: vec![SqlParam::Text(level_name.to_owned())],
    }
}

fn list_query(conn: &rusqlite::Connection, st: &SqlStatement) -> (r: Result<
    Vec<StatModifierRow>,
    DataError,
>)
    ensures
        fails_only_in_db(r),
        r matches Ok(v) ==> exists|rows: Seq<Vec<SqlValue>>| #[trigger] stat_rows_of(rows, v@),
{
    match fetch_all(conn, st, 7) {
        Ok(rows) => stat_rows_from_rows(&rows),
        Err(e) => Err(db_error(e)),
    }
}

/// Gets a stat modifier by id, with any association names.
pub fn get_by_id(conn: &rusqlite::Connection, id: i64) -> (r: Result<
    Option<StatModifierRow>,
    DataError,
>)
    ensures
        fails_only_in_db(r),
        r matches Ok(Some(c)) ==> exists|row: Seq<SqlValue>| #[trigger] stat_row_of(row) == Some(c),
{
    let st = select_by_id_statement(id);
    match fetch_first(conn, &st, 7) {
        Ok(Some(row)) => match stat_row_from_row(&row) {
            Ok(a) => Ok(Some(a)),
            Err(e) => Err(e),
        },
        Ok(None) => Ok(None),
        Err(e) => Err(db_error(e)),
    }
}

/// Lists all stat modifiers (ordered by id), with any association names.
pub fn list_all(conn: &rusqlite::Connection) -> (r: Result<Vec<StatModifierRow>, DataError>)
    ensures
        fails_only_in_db(r),
        r matches Ok(v) ==> exists|rows: Seq<Vec<SqlValue>>| #[trigger] stat_rows_of(rows, v@),
{
    let st = select_all_statement();
    list_query(conn, &st)
}

/// Lists the stat modifiers linked to a unit (by name), ordered by id.
pub fn list_for_unit(conn: &rusqlite::Connection, unit_name: &str) -> (r: Result<
    Vec<StatModifierRow>,
    DataError,
>)
    ensures
        fails_only_in_db(r),
        r matches Ok(v) ==> exists|rows: Seq<Vec<SqlValue>>| #[trigger] stat_rows_of(rows, v@),
{
    let st = select_for_unit_statement(unit_name);
    list_query(conn, &st)
}

/// Lists the stat modifiers linked to an item (by name), ordered by id.
pub fn list_for_item(conn: &rusqlite::Connection, item_name: &str) -> (r: Result<
    Vec<StatModifierRow>,
    DataError,
>)
    ensures
        fails_only_in_db(r),
        r matches Ok(v) ==> exists|rows: Seq<Vec<SqlValue>>| #[trigger] stat_rows_of(rows, v@),
{
    let st = select_for_item_statement(item_name);
    list_query(conn, &st)
}

/// Lists the stat modifiers linked to a level (by name), ordered by id.
pub fn list_for_level(conn: &rusqlite::Connection, level_name: &str) -> (r: Result<
    Vec<StatModifierRow>,
    DataError,
>)
    ensures
        fails_only_in_db(r),
        r matches Ok(v) ==> exists|rows: Seq<Vec<SqlValue>>| #[trigger] stat_rows_of(rows, v@),
{
    let st = select_for_level_statement(level_name);
    list_query(conn, &st)
}

/// The association kind that three link flags describe; more than one link
/// is a state the schema forbids.
pub open spec fn stat_association_kind_spec(unit: bool, item: bool, level: bool) -> Option<
    StatModifierAssociationKind,
> {
    let count = (if unit { 1int } else { 0 }) + (if item { 1int } else { 0 }) + (if level {
        1int
    } else {
        0
    });
    if count == 0 {
        Some(StatModifierAssociationKind::Unlinked)
    } else if count > 1 {
        None
    } else if unit {
        Some(StatModifierAssociationKind::Unit)
    } else if item {
        Some(StatModifierAssociationKind::Item)
    } else {
        Some(StatModifierAssociationKind::Level)
    }
}

/// `"stat_modifier id=<id> is linked to multiple card types (corrupt state)"`.
pub open spec fn multiple_links_msg(id: i64) -> Seq<char> {
    "stat_modifier id="@ + decimal_spec(id as int)
        + " is linked to multiple card types (corrupt state)"@
}

/// Decides the association kind of stat modifier `id` from its three link
/// flags.
pub fn association_kind_from_links(
    stat_modifier_id: i64,
    unit_link: bool,
    item_link: bool,
    level_link: bool,
) -> (r: Result<StatModifierAssociationKind, DataError>)
    ensures
        match stat_association_kind_spec(unit_link, item_link, level_link) {
            Some(k) => r == Ok::<StatModifierAssociationKind, DataError>(k),
            None => r matches Err(e) && is_error(
                e,
                ErrorKind::Corrupt,
                multiple_links_msg(stat_modifier_id),
            ),
        },
{
    let count: u8 = (if unit_link {
        1
    } else {
        0
    }) + (if item_link {
        1
    } else {
        0
    }) + (if level_link {
        1
    } else {
        0
    });
    if count == 0 {
        return Ok(StatModifierAssociationKind::Unlinked);
    }
    if count > 1 {
        let digits = i64_to_string(stat_modifier_id);
        return Err(
            DataError::new(
                ErrorKind::Corrupt,
                concat3(
                    "stat_modifier id=",
                    digits.as_str(),
                    " is linked to multiple card types (corrupt state)",
                ),
            ),
        );
    }
    if unit_link {
        Ok(StatModifierAssociationKind::Unit)
    } else if item_link {
        Ok(StatModifierAssociationKind::Item)
    } else {
        Ok(StatModifierAssociationKind::Level)
    }
}

/// The query that finds whether stat modifier `stat_modifier_id` has a
/// link of `kind`.
pub fn link_lookup_statement(kind: StatModifierAssociationKind, stat_modifier_id: i64) -> (r: SqlStatement)
    requires
        kind != StatModifierAssociationKind::Unlinked,
    ensures
        kind == StatModifierAssociationKind::Unit
            ==> r.sql@ == "SELECT EXISTS(SELECT 1 FROM unit_stat_modifiers WHERE stat_modifier_id = ?1)"@,
        kind == StatModifierAssociationKind::Item
            ==> r.sql@ == "SELECT EXISTS(SELECT 1 FROM item_stat_modifiers WHERE stat_modifier_id = ?1)"@,
        kind == StatModifierAssociationKind::Level
            ==> r.sql@ == "SELECT EXISTS(SELECT 1 FROM level_stat_modifiers WHERE stat_modifier_id = ?1)"@,
        r.params@ == seq![SqlParam::Integer(stat_modifier_id)],
{
    let params = vec![SqlParam::Integer(stat_modifier_id)];
    match kind {
        StatModifierAssociationKind::Unit => SqlStatement {
            sql: "SELECT EXISTS(SELECT 1 FROM unit_stat_modifiers WHERE stat_modifier_id = ?1)",
            params,
        },
        StatModifierAssociationKind::Item => SqlStatement {
            sql: "SELECT EXISTS(SELECT 1 FROM item_stat_modifiers WHERE stat_modifier_id = ?1)",
            params,
        },
        _ => SqlStatement {
            sql: "SELECT EXISTS(SELECT 1 FROM level_stat_modifiers WHERE stat_modifier_id = ?1)",
            params,
        },
    }
}

/// The query that reads the id of the unit, item or level (by `kind`)
/// called `name`.
pub fn card_lookup_statement(kind: StatModifierAssociationKind, name: &str) -> (r: SqlStatement)
    requires
        kind != StatModifierAssociationKind::Unlinked,
    ensures
        kind == StatModifierAssociationKind::Unit ==> r.sql@ == "SELECT id FROM units WHERE name = ?1"@,
        kind == StatModifierAssociationKind::Item ==> r.sql@ == "SELECT id FROM items WHERE name = ?1"@,
        kind == StatModifierAssociationKind::Level ==> r.sql@ == "SELECT id FROM levels WHERE name = ?1"@,
        r.params@.len() == 1,
        r.params@[0] matches SqlParam::Text(t) && t@ == name@,
{
    let params = vec![SqlParam::Text(name.to_owned())];
    match kind {
        StatModifierAssociationKind::Unit => SqlStatement { sql: "SELECT id FROM units WHERE name = ?1", params },
        StatModifierAssociationKind::Item => SqlStatement { sql: "SELECT id FROM items WHERE name = ?1", params },
        _ => SqlStatement { sql: "SELECT id FROM levels WHERE name = ?1", params },
    }
}

/// The boolean that query `st` (a `SELECT EXISTS(..)`) returns.
fn link_exists(conn: &rusqlite::Connection, st: &SqlStatement) -> (r: Result<bool, DataError>)
    ensures
        fails_only_in_db(r),
{
    match fetch_first(conn, st, 1) {
        Ok(Some(row)) => match read_bool(&row[0]) {
            Some(b) => Ok(b),
            None => Err(bad_row("EXISTS")),
        },
        Ok(None) => Err(bad_row("EXISTS")),
        Err(e) => Err(db_error(e)),
    }
}

/// Returns which kind of association this stat modifier currently has.
pub fn get_association_kind(conn: &rusqlite::Connection, stat_modifier_id: i64) -> (r: Result<
    StatModifierAssociationKind,
    DataError,
>)
    ensures
        r matches Err(e) ==> (e.kind == ErrorKind::Db || is_error(
            e,
            ErrorKind::Corrupt,
            multiple_links_msg(stat_modifier_id),
        )),
{
    let unit_link = link_exists(conn, &link_lookup_statement(StatModifierAssociationKind::Unit, stat_modifier_id))?;
    let item_link = link_exists(conn, &link_lookup_statement(StatModifierAssociationKind::Item, stat_modifier_id))?;
    let level_link = link_exists(conn, &link_lookup_statement(StatModifierAssociationKind::Level, stat_modifier_id))?;
    association_kind_from_links(stat_modifier_id, unit_link, item_link, level_link)
}

/// The errors of linking: an unknown card is `NotFound`, any other failure
/// (including the link constraints of the schema) is `Db`.
pub open spec fn link_errors<T>(r: Result<T, DataError>) -> bool {
    r matches Err(e) ==> (e.kind == ErrorKind::Db || e.kind == ErrorKind::NotFound)
}

/// The error for a link whose card was not found:
/// `"resolve <what> id by name: <name>"`.
pub fn card_missing(what: &str, name: &str) -> (r: DataError)
    ensures
        is_error(r, ErrorKind::NotFound, "resolve "@ + what@ + " id by name: "@ + name@),
{
    let tail = concat2(" id by name: ", name);
    let msg = concat3("resolve ", what, tail.as_str());
    assert(msg@ =~= "resolve "@ + what@ + " id by name: "@ + name@);
    DataError::new(ErrorKind::NotFound, msg)
}

/// The statement that links stat modifier `stat_modifier_id` to the unit,
/// item or level (by `kind`) with id `card_id`.
pub fn link_statement(kind: StatModifierAssociationKind, card_id: i64, stat_modifier_id: i64) -> (r: SqlStatement)
    requires
        kind != StatModifierAssociationKind::Unlinked,
    ensures
        kind == StatModifierAssociationKind::Unit
            ==> r.sql@ == "INSERT INTO unit_stat_modifiers (unit_id, stat_modifier_id) VALUES (?1, ?2)"@,
        kind == StatModifierAssociationKind::Item
            ==> r.sql@ == "INSERT INTO item_stat_modifiers (item_id, stat_modifier_id) VALUES (?1, ?2)"@,
        kind == StatModifierAssociationKind::Level
            ==> r.sql@ == "INSERT INTO level_stat_modifiers (level_id, stat_modifier_id) VALUES (?1, ?2)"@,
        r.params@ == seq![SqlParam::Integer(card_id), SqlParam::Integer(stat_modifier_id)],
{
    let params = vec![SqlParam::Integer(card_id), SqlParam::Integer(stat_modifier_id)];
    match kind {
        StatModifierAssociationKind::Unit => SqlStatement {
            sql: "INSERT INTO unit_stat_modifiers (unit_id, stat_modifier_id) VALUES (?1, ?2)",
            params,
        },
        StatModifierAssociationKind::Item => SqlStatement {
            sql: "INSERT INTO item_stat_modifiers (item_id, stat_modifier_id) VALUES (?1, ?2)",
            params,
        },
        _ => SqlStatement {
            sql: "INSERT INTO level_stat_modifiers (level_id, stat_modifier_id) VALUES (?1, ?2)",
            params,
        },
    }
}

/// The statements that remove every link of stat modifier
/// `stat_modifier_id`, in order: its unit, item and level links.
pub fn clear_statements(stat_modifier_id: i64) -> (r: Vec<SqlStatement>)
    ensures
        r@.len() == 3,
        r@[0].sql@ == "DELETE FROM unit_stat_modifiers WHERE stat_modifier_id = ?1"@,
        r@[1].sql@ == "DELETE FROM item_stat_modifiers WHERE stat_modifier_id = ?1"@,
        r@[2].sql@ == "DELETE FROM level_stat_modifiers WHERE stat_modifier_id = ?1"@,
        forall|i: int| 0 <= i < 3 ==> #[trigger] r@[i].params@ == seq![SqlParam::Integer(stat_modifier_id)],
{
    vec![
        SqlStatement {
            sql: "DELETE FROM unit_stat_modifiers WHERE stat_modifier_id = ?1",
            params: vec![SqlParam::Integer(stat_modifier_id)],
        },
        SqlStatement {
            sql: "DELETE FROM item_stat_modifiers WHERE stat_modifier_id = ?1",
            params: vec![SqlParam::Integer(stat_modifier_id)],
        },
        SqlStatement {
            sql: "DELETE FROM level_stat_modifiers WHERE stat_modifier_id = ?1",
            params: vec![SqlParam::Integer(stat_modifier_id)],
        },
    ]
}

/// Links a stat modifier to a card: the card of `kind` is found by name,
/// then the link row `(card id, modifier id)` for `kind` is inserted.
fn link_by_name(
    conn: &rusqlite::Connection,
    stat_modifier_id: i64,
    name: &str,
    kind: StatModifierAssociationKind,
    what: &str,
) -> (r: Result<(), DataError>)
    requires
        kind != StatModifierAssociationKind::Unlinked,
    ensures
        link_errors(r),
{
    let lookup = card_lookup_statement(kind, name);
    let card_id = match fetch_first(conn, &lookup, 1) {
        Ok(Some(row)) => match read_i64(&row[0]) {
            Some(v) => v,
            None => return Err(bad_row("id")),
        },
        Ok(None) => return Err(card_missing(what, name)),
        Err(e) => return Err(db_error(e)),
    };
    let st = link_statement(kind, card_id, stat_modifier_id);
    match run(conn, &st) {
        Ok(_) => Ok(()),
        Err(e) => Err(db_error(e)),
    }
}

/// Links a stat modifier to a unit by unit name.
pub fn link_to_unit_by_name(
    conn: &rusqlite::Connection,
    stat_modifier_id: i64,
    unit_name: &str,
) -> (r: Result<(), DataError>)
    ensures
        link_errors(r),
{
    link_by_name(
        conn,
        stat_modifier_id,
        unit_name,
        StatModifierAssociationKind::Unit,
        "unit",
    )
}

/// Links a stat modifier to an item by item name.
pub fn link_to_item_by_name(
    conn: &rusqlite::Connection,
    stat_modifier_id: i64,
    item_name: &str,
) -> (r: Result<(), DataError>)
    ensures
        link_errors(r),
{
    link_by_name(
        conn,
        stat_modifier_id,
        item_name,
        StatModifierAssociationKind::Item,
        "item",
    )
}

/// Links a stat modifier to a level by level name.
pub fn link_to_level_by_name(
    conn: &rusqlite::Connection,
    stat_modifier_id: i64,
    level_name: &str,
) -> (r: Result<(), DataError>)
    ensures
        link_errors(r),
{
    link_by_name(
        conn,
        stat_modifier_id,
        level_name,
        StatModifierAssociationKind::Level,
        "level",
    )
}

/// Removes any association (unit, item or level) of the stat modifier.
pub fn clear_association(conn: &rusqlite::Connection, stat_modifier_id: i64) -> (r: Result<
    (),
    DataError,
>)
    ensures
        fails_only_in_db(r),
{
    let statements = clear_statements(stat_modifier_id);
    let mut i: usize = 0;
    while i < statements.len()
        invariant
            0 <= i <= statements@.len(),
        decreases statements@.len() - i,
    {
        if let Err(e) = run(conn, &statements[i]) {
            return Err(db_error(e));
        }
        i = i + 1;
    }
    Ok(())
}

/// Creates a stat modifier and links it to a unit by name in one
/// transaction; returns the new id.
pub fn create_and_link_to_unit_by_name(
    conn: &mut rusqlite::Connection,
    sm: &StatModifier,
    unit_name: &str,
) -> (r: Result<i64, DataError>)
    ensures
        link_errors(r),
{
    let tx = match begin_transaction(conn) {
        Ok(tx) => tx,
        Err(e) => return Err(db_error(e)),
    };
    let id = {
        let c = transaction_connection(&tx);
        let id = insert_returning_id(c, sm)?;
        link_to_unit_by_name(c, id, unit_name)?;
        id
    };
    match commit(tx) {
        Ok(()) => Ok(id),
        Err(e) => Err(db_error(e)),
    }
}

/// Creates a stat modifier and links it to an item by name in one
/// transaction; returns the new id.
pub fn create_and_link_to_item_by_name(
    conn: &mut rusqlite::Connection,
    sm: &StatModifier,
    item_name: &str,
) -> (r: Result<i64, DataError>)
    ensures
        link_errors(r),
{
    let tx = match begin_transaction(conn) {
        Ok(tx) => tx,
        Err(e) => return Err(db_error(e)),
    };
    let id = {
        let c = transaction_connection(&tx);
        let id = insert_returning_id(c, sm)?;
        link_to_item_by_name(c, id, item_name)?;
        id
    };
    match commit(tx) {
        Ok(()) => Ok(id),
        Err(e) => Err(db_error(e)),
    }
}

/// Creates a stat modifier and links it to a level by name in one
/// transaction; returns the new id.
pub fn create_and_link_to_level_by_name(
    conn: &mut rusqlite::Connection,
    sm: &StatModifier,
    level_name: &str,
) -> (r: Result<i64, DataError>)
    ensures
        link_errors(r),
{
    let tx = match begin_transaction(conn) {
        Ok(tx) => tx,
        Err(e) => return Err(db_error(e)),
    };
    let id = {
        let c = transaction_connection(&tx);
        let id = insert_returning_id(c, sm)?;
        link_to_level_by_name(c, id, level_name)?;
        id
    };
    match commit(tx) {
        Ok(()) => Ok(id),
        Err(e) => Err(db_error(e)),
    }
}

} // verus!
