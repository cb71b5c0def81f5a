//! Actions: named cards with an action point cost, a type and a text, each
//! optionally linked to one unit, item or level.

use vstd::prelude::*;
use crate::cards::outcome::{after_change, after_save, removed_any};
use crate::db::{
    answered, bad_row, col_i64, col_opt_text, col_text, db_error, db_failure, fetch_all, fetch_first, text_param,
    first_answered, read_i64, read_opt_text, read_text, run, SqlParam, SqlStatement, SqlValue,
};
use crate::shared::{
    concat2, concat3, fails_only_in_db, is_error, non_empty_msg, require_non_empty_trimmed,
    DataError, ErrorKind,
};
use crate::text::{is_blank_spec, str_eq, trim, trim_spec};

verus! {

#[derive(Debug, Clone, Copy, PartialEq, Eq, Structural)]
pub enum ActionType {
    Interaction,
    Attack,
}

/// The stored text of an action type.
pub open spec fn action_type_text(t: ActionType) -> Seq<char> {
    match t {
        ActionType::Interaction => "Interaction"@,
        ActionType::Attack => "Attack"@,
    }
}

/// The action type whose stored text is `s`, if any.
pub open spec fn action_type_from_text(s: Seq<char>) -> Option<ActionType> {
    if s == "Interaction"@ {
        Some(ActionType::Interaction)
    } else if s == "Attack"@ {
        Some(ActionType::Attack)
    } else {
        None
    }
}

impl ActionType {
    pub fn as_str(self) -> (r: &'static str)
        ensures
            r@ == action_type_text(self),
    {
        match self {
            ActionType::Interaction => "Interaction",
            ActionType::Attack => "Attack",
        }
    }

    /// The text stored in the `actions.action_type` column.
    pub fn to_db(self) -> (r: &'static str)
        ensures
            r@ == action_type_text(self),
    {
        self.as_str()
    }

    pub fn parse(s: &str) -> (r: Result<ActionType, DataError>)
        ensures
            match action_type_from_text(s@) {
                Some(t) => r == Ok::<ActionType, DataError>(t),
                None => r matches Err(e) && is_error(
                    e,
                    ErrorKind::Invalid,
                    "Invalid ActionType `"@ + s@ + "`"@,
                ),
            },
    {
        if str_eq(s, "Interaction") {
            Ok(ActionType::Interaction)
        } else if str_eq(s, "Attack") {
            Ok(ActionType::Attack)
        } else {
            Err(DataError::new(ErrorKind::Invalid, concat3("Invalid ActionType `", s, "`")))
        }
    }
}

/// Reading back the stored text of an action type gives the same type.
pub proof fn lemma_action_type_text_roundtrip(t: ActionType)
    ensures
        action_type_from_text(action_type_text(t)) == Some(t),
{
    reveal_strlit("Interaction");
    reveal_strlit("Attack");
    assert("Attack"@.len() != "Interaction"@.len());
}

#[derive(Debug, Clone, PartialEq, Eq)]
pub struct Action {
    pub name: String,
    pub action_point_cost: i64,
    pub action_type: ActionType,
    pub text: String,
}

/// Optional association for an Action.
///
/// At most one association is present at a time; the schema enforces this.
#[derive(Debug, Clone, PartialEq, Eq)]
pub enum ActionAssociation {
    Unit { unit_name: String },
    Item { item_name: String },
    Level { level_name: String },
}

/// Why an action may not be stored, if it may not.
pub open spec fn action_problem(card: Action) -> Option<Seq<char>> {
    if is_blank_spec(card.name@) {
        Some(non_empty_msg("Action.name"@))
    } else if is_blank_spec(card.text@) {
        Some(non_empty_msg("Action.text"@))
    } else if card.action_point_cost < 0 {
        Some("Action.action_point_cost must be >= 0"@)
    } else {
        None
    }
}

/// Checks the fields of an action: a name and a text that are not blank and
/// a cost that is not negative.
pub fn validate_card(card: &Action) -> (r: Result<(), DataError>)
    ensures
        match action_problem(*card) {
            Some(m) => r matches Err(e) && is_error(e, ErrorKind::Invalid, m),
            None => r is Ok,
        },
{
    require_non_empty_trimmed("Action.name", card.name.as_str())?;
    require_non_empty_trimmed("Action.text", card.text.as_str())?;
    if card.action_point_cost < 0 {
        return Err(DataError::invalid("Action.action_point_cost must be >= 0"));
    }
    Ok(())
}

/// The action that a row `name, action_point_cost, action_type, text` holds.
pub open spec fn action_of_row(row: Seq<SqlValue>) -> Option<Action> {
    match (col_text(row[0]), col_i64(row[1]), col_text(row[2]), col_text(row[3])) {
        (Some(name), Some(cost), Some(t), Some(text)) => match action_type_from_text(t@) {
            Some(at) => Some(Action { name, action_point_cost: cost, action_type: at, text }),
            None => None,
        },
        _ => None,
    }
}

/// Reads an action from a row `name, action_point_cost, action_type, text`.
pub fn action_from_row(row: &Vec<SqlValue>) -> (r: Result<Action, DataError>)
    requires
        row@.len() == 4,
    ensures
        match action_of_row(row@) {
            Some(a) => r == Ok::<Action, DataError>(a),
            None => r matches Err(e) && e.kind == ErrorKind::Db,
        },
{
    let t = match read_text(&row[2]) {
        Some(t) => t,
        None => return Err(bad_row("actions.action_type")),
    };
    let action_type = match ActionType::parse(t.as_str()) {
        Ok(at) => at,
        Err(_) => return Err(bad_row("actions.action_type")),
    };
    let name = match read_text(&row[0]) {
        Some(v) => v,
        None => return Err(bad_row("actions.name")),
    };
    let cost = match read_i64(&row[1]) {
        Some(v) => v,
        None => return Err(bad_row("actions.action_point_cost")),
    };
    let text = match read_text(&row[3]) {
        Some(v) => v,
        None => return Err(bad_row("actions.text")),
    };
    Ok(Action { name, action_point_cost: cost, action_type, text })
}

/// The actions that rows `name, action_point_cost, action_type, text` hold,
/// in row order, if every row holds one.
pub open spec fn actions_of_rows(rows: Seq<Vec<SqlValue>>, out: Seq<Action>) -> bool {
    &&& out.len() == rows.len()
    &&& forall|i: int| 0 <= i < rows.len() ==> action_of_row(#[trigger] rows[i]@) == Some(out[i])
}

/// Reads actions from rows `name, action_point_cost, action_type, text`.
pub fn actions_from_rows(rows: &Vec<Vec<SqlValue>>) -> (r: Result<Vec<Action>, DataError>)
    requires
        forall|i: int| 0 <= i < rows@.len() ==> #[trigger] rows@[i]@.len() == 4,
    ensures
        match r {
            Ok(v) => actions_of_rows(rows@, v@),
            Err(e) => e.kind == ErrorKind::Db && exists|i: int|
                0 <= i < rows@.len() && action_of_row(#[trigger] rows@[i]@) is None,
        },
{
    let mut out: Vec<Action> = Vec::new();
    let mut i: usize = 0;
    while i < rows.len()
        invariant
            i <= rows@.len(),
            forall|k: int| 0 <= k < rows@.len() ==> #[trigger] rows@[k]@.len() == 4,
            actions_of_rows(rows@.subrange(0, i as int), out@),
        decreases rows@.len() - i,
    {
        let a = match action_from_row(&rows[i]) {
            Ok(a) => a,
            Err(e) => return Err(e),
        };
        out.push(a);
        i = i + 1;
        assert forall|k: int| 0 <= k < i implies action_of_row(
            #[trigger] rows@.subrange(0, i as int)[k]@,
        ) == Some(out@[k]) by {
            if k < i - 1 {
                assert(rows@.subrange(0, i as int)[k] == rows@.subrange(0, i - 1)[k]);
            }
        }
    }
    assert(rows@.subrange(0, i as int) =~= rows@);
    Ok(out)
}

/// The text of the query that reads one card by name.
pub open spec fn select_one_sql() -> Seq<char> {
    "SELECT name, action_point_cost, action_type, text FROM actions WHERE name = ?1"@
}

/// The text of the query that reads every card.
pub open spec fn select_all_sql() -> Seq<char> {
    "SELECT name, action_point_cost, action_type, text FROM actions ORDER BY name ASC"@
}

/// The query that reads the action called `name`.
pub fn select_by_name_statement(name: &str) -> (r: SqlStatement)
    ensures
        r.sql@ == "SELECT name, action_point_cost, action_type, text FROM actions WHERE name = ?1"@,
        r.params@.len() == 1,
        r.params@[0] matches SqlParam::Text(t) && t@ == name@,
{
    SqlStatement {
        sql: "SELECT name, action_point_cost, action_type, text FROM actions WHERE name = ?1",
        params: vec![SqlParam::Text(name.to_owned())],
    }
}

/// The query that reads every action, ordered by name.
pub fn select_all_statement() -> (r: SqlStatement)
    ensures
        r.sql@ == "SELECT name, action_point_cost, action_type, text FROM actions ORDER BY name ASC"@,
        r.params@.len() == 0,
{
    SqlStatement {
        sql: "SELECT name, action_point_cost, action_type, text FROM actions ORDER BY name ASC",
        params: Vec::new(),
    }
}

/// The query that reads the names of the unit, item and level linked to
/// the action called `action_name` (each `NULL` when not linked).
pub fn select_association_statement(action_name: &str) -> (r: SqlStatement)
    ensures
        r.sql@ == "SELECT u.name, i.name, l.name FROM actions a LEFT JOIN units u ON u.id = a.unit_id LEFT JOIN items i ON i.id = a.item_id LEFT JOIN levels l ON l.id = a.level_id WHERE a.name = ?1"@,
        r.params@.len() == 1,
        r.params@[0] matches SqlParam::Text(t) && t@ == action_name@,
{
    SqlStatement {
        sql: "SELECT u.name, i.name, l.name FROM actions a LEFT JOIN units u ON u.id = a.unit_id LEFT JOIN items i ON i.id = a.item_id LEFT JOIN levels l ON l.id = a.level_id WHERE a.name = ?1",
        params: vec![SqlParam::Text(action_name.to_owned())],
    }
}

/// The text of the query that reads the id, by name, of the card that link
/// column `fk_col` of `actions` refers to.
pub open spec fn card_id_sql(fk_col: Seq<char>) -> Seq<char> {
    if fk_col == "unit_id"@ {
        "SELECT id FROM units WHERE name = ?1"@
    } else if fk_col == "item_id"@ {
        "SELECT id FROM items WHERE name = ?1"@
    } else {
        "SELECT id FROM levels WHERE name = ?1"@
    }
}

/// The text of the query that reads, ordered by name, the actions whose
/// link column `fk_col` holds a given id.
pub open spec fn actions_by_link_sql(fk_col: Seq<char>) -> Seq<char> {
    if fk_col == "unit_id"@ {
        "SELECT name, action_point_cost, action_type, text FROM actions WHERE unit_id = ?1 ORDER BY name ASC"@
    } else if fk_col == "item_id"@ {
        "SELECT name, action_point_cost, action_type, text FROM actions WHERE item_id = ?1 ORDER BY name ASC"@
    } else {
        "SELECT name, action_point_cost, action_type, text FROM actions WHERE level_id = ?1 ORDER BY name ASC"@
    }
}

/// `id` is the id that the lookup, by `name`, of the card that link column
/// `fk_col` refers to gave.
pub open spec fn resolved_id(fk_col: Seq<char>, name: Seq<char>, id: i64) -> bool {
    exists|row: Vec<SqlValue>, t: String|
        #![trigger first_answered(card_id_sql(fk_col), seq![SqlParam::Text(t)], 1, Some(row))]
        t@ == name && first_answered(card_id_sql(fk_col), seq![SqlParam::Text(t)], 1, Some(row))
            && col_i64(row@[0]) == Some(id)
}

/// `v` are exactly the actions that the query for link column `fk_col`
/// holding `id` gave, decoded row by row and in the order of the rows (by
/// name).
pub open spec fn linked_actions(fk_col: Seq<char>, id: i64, v: Seq<Action>) -> bool {
    exists|rows: Seq<Vec<SqlValue>>| answered(actions_by_link_sql(fk_col), seq![SqlParam::Integer(id)], 4, rows)
        && #[trigger] actions_of_rows(rows, v)
}

/// The query that reads the id, by name, of the card that link column
/// `fk_col` of `actions` refers to.
pub fn card_id_statement(fk_col: &str, name: &str) -> (r: SqlStatement)
    requires
        is_link_column(fk_col@),
    ensures
        fk_col@ == "unit_id"@ ==> r.sql@ == "SELECT id FROM units WHERE name = ?1"@,
        fk_col@ == "item_id"@ ==> r.sql@ == "SELECT id FROM items WHERE name = ?1"@,
        fk_col@ == "level_id"@ ==> r.sql@ == "SELECT id FROM levels WHERE name = ?1"@,
        r.params@.len() == 1,
        r.params@[0] matches SqlParam::Text(t) && t@ == name@,
{
    proof {
        reveal_strlit("unit_id");
        reveal_strlit("item_id");
        reveal_strlit("level_id");
        assert("unit_id"@[0] != "item_id"@[0] && "unit_id"@[0] != "level_id"@[0]);
        assert("item_id"@[0] != "level_id"@[0]);
    }
    let params = vec![SqlParam::Text(name.to_owned())];
    if str_eq(fk_col, "unit_id") {
        SqlStatement { sql: "SELECT id FROM units WHERE name = ?1", params }
    } else if str_eq(fk_col, "item_id") {
        SqlStatement { sql: "SELECT id FROM items WHERE name = ?1", params }
    } else {
        SqlStatement { sql: "SELECT id FROM levels WHERE name = ?1", params }
    }
}

/// The query that reads the actions whose link column `fk_col` is `fk_id`,
/// ordered by name.
pub fn actions_by_link_statement(fk_col: &str, fk_id: i64) -> (r: SqlStatement)
    requires
        is_link_column(fk_col@),
    ensures
        fk_col@ == "unit_id"@ ==> r.sql@
            == "SELECT name, action_point_cost, action_type, text FROM actions WHERE unit_id = ?1 ORDER BY name ASC"@,
        fk_col@ == "item_id"@ ==> r.sql@
            == "SELECT name, action_point_cost, action_type, text FROM actions WHERE item_id = ?1 ORDER BY name ASC"@,
        fk_col@ == "level_id"@ ==> r.sql@
            == "SELECT name, action_point_cost, action_type, text FROM actions WHERE level_id = ?1 ORDER BY name ASC"@,
        r.params@ == seq![SqlParam::Integer(fk_id)],
{
    proof {
        reveal_strlit("unit_id");
        reveal_strlit("item_id");
        reveal_strlit("level_id");
        assert("unit_id"@[0] != "item_id"@[0] && "unit_id"@[0] != "level_id"@[0]);
        assert("item_id"@[0] != "level_id"@[0]);
    }
    let params = vec![SqlParam::Integer(fk_id)];
    if str_eq(fk_col, "unit_id") {
        SqlStatement {
            sql: "SELECT name, action_point_cost, action_type, text FROM actions WHERE unit_id = ?1 ORDER BY name ASC",
            params,
        }
    } else if str_eq(fk_col, "item_id") {
        SqlStatement {
            sql: "SELECT name, action_point_cost, action_type, text FROM actions WHERE item_id = ?1 ORDER BY name ASC",
            params,
        }
    } else {
        SqlStatement {
            sql: "SELECT name, action_point_cost, action_type, text FROM actions WHERE level_id = ?1 ORDER BY name ASC",
            params,
        }
    }
}

/// The id in the first row of query `st`, if any.
fn lookup_id(conn: &rusqlite::Connection, st: &SqlStatement) -> (r: Result<Option<i64>, DataError>)
    ensures
        fails_only_in_db(r),
        r matches Ok(Some(id)) ==> exists|row: Vec<SqlValue>| first_answered(st.sql@, st.params@, 1, Some(row))
            && #[trigger] col_i64(row@[0]) == Some(id),
{
    match fetch_first(conn, st, 1) {
        Ok(Some(row)) => match read_i64(&row[0]) {
            Some(id) => Ok(Some(id)),
            None => Err(bad_row("id")),
        },
        Ok(None) => Ok(None),
        Err(e) => Err(db_error(e)),
    }
}

/// The errors of resolving a card name to its id: a blank name is
/// `Invalid`, an unknown one `NotFound`, and SQLite failures `Db`.
pub open spec fn resolve_errors<T>(label: Seq<char>, name: Seq<char>, r: Result<T, DataError>) -> bool {
    &&& is_blank_spec(name) ==> (r matches Err(e) && is_error(e, ErrorKind::Invalid, non_empty_msg(label)))
    &&& !is_blank_spec(name) ==> (r matches Err(e) ==> e.kind == ErrorKind::Db || e.kind
        == ErrorKind::NotFound)
}

fn resolve_id(conn: &rusqlite::Connection, label: &str, kind: &str, fk_col: &str, name: &str) -> (r:
    Result<i64, DataError>)
    requires
        is_link_column(fk_col@),
    ensures
        resolve_errors(label@, name@, r),
        r matches Ok(id) ==> resolved_id(fk_col@, trim_spec(name@), id),
{
    let name = require_non_empty_trimmed(label, name)?;
    let st = card_id_statement(fk_col, name);
    proof {
        reveal_strlit("unit_id");
        reveal_strlit("item_id");
        reveal_strlit("level_id");
        assert("unit_id"@[0] != "item_id"@[0] && "unit_id"@[0] != "level_id"@[0]);
        assert("item_id"@[0] != "level_id"@[0]);
        assert(st.sql@ == card_id_sql(fk_col@));
        let t = st.params@[0]->Text_0;
        assert(st.params@ == seq![SqlParam::Text(t)]);
    }
    match lookup_id(conn, &st)? {
        Some(id) => {
            proof {
                let t = st.params@[0]->Text_0;
                let row = choose|row: Vec<SqlValue>| first_answered(st.sql@, st.params@, 1, Some(row))
                    && #[trigger] col_i64(row@[0]) == Some(id);
                assert(first_answered(card_id_sql(fk_col@), seq![SqlParam::Text(t)], 1, Some(row)));
            }
            Ok(id)
        },
        None => Err(
            DataError::new(
                ErrorKind::NotFound,
                concat2(concat3("Failed to resolve ", kind, " `").as_str(), concat2(name, "` id").as_str()),
            ),
        ),
    }
}

fn get_unit_id(conn: &rusqlite::Connection, unit_name: &str) -> (r: Result<i64, DataError>)
    ensures
        resolve_errors("unit_name"@, unit_name@, r),
        r matches Ok(id) ==> resolved_id("unit_id"@, trim_spec(unit_name@), id),
{
    resolve_id(conn, "unit_name", "Unit", "unit_id", unit_name)
}

fn get_item_id(conn: &rusqlite::Connection, item_name: &str) -> (r: Result<i64, DataError>)
    ensures
        resolve_errors("item_name"@, item_name@, r),
        r matches Ok(id) ==> resolved_id("item_id"@, trim_spec(item_name@), id),
{
    resolve_id(conn, "item_name", "Item", "item_id", item_name)
}

fn get_level_id(conn: &rusqlite::Connection, level_name: &str) -> (r: Result<i64, DataError>)
    ensures
        resolve_errors("level_name"@, level_name@, r),
        r matches Ok(id) ==> resolved_id("level_id"@, trim_spec(level_name@), id),
{
    resolve_id(conn, "level_name", "Level", "level_id", level_name)
}

/// `"Action `<name>` not found"`.
pub open spec fn action_not_found_msg(name: Seq<char>) -> Seq<char> {
    "Action `"@ + name + "` not found"@
}

/// Runs an update of one action's links and reports a missing action.
fn update_links(conn: &rusqlite::Connection, st: &SqlStatement, action_name: &str) -> (r:
    Result<(), DataError>)
    ensures
        r matches Err(e) ==> (e.kind == ErrorKind::Db || is_error(
            e,
            ErrorKind::NotFound,
            action_not_found_msg(action_name@),
        )),
{
    let changed = match run(conn, st) {
        Ok(n) => n,
        Err(e) => return Err(db_error(e)),
    };
    link_outcome(changed, action_name)
}

/// What a link update of action `action_name` that changed `changed` rows
/// reports: success, or `NotFound` when no action has that name.
pub fn link_outcome(changed: usize, action_name: &str) -> (r: Result<(), DataError>)
    ensures
        changed == 0 ==> (r matches Err(e) && is_error(
            e,
            ErrorKind::NotFound,
            action_not_found_msg(action_name@),
        )),
        changed > 0 ==> r is Ok,
{
    if changed == 0 {
        return Err(DataError::new(ErrorKind::NotFound, concat3("Action `", action_name, "` not found")));
    }
    Ok(())
}

/// The statement that links an action (`?1`, by name) to the card of
/// `association` (`?2`, by id): it sets that one link column and clears the
/// other two.
pub open spec fn link_sql(association: ActionAssociation) -> Seq<char> {
    match association {
        ActionAssociation::Unit { .. } => "UPDATE actions SET unit_id = ?2, item_id = NULL, level_id = NULL WHERE name = ?1"@,
        ActionAssociation::Item { .. } => "UPDATE actions SET item_id = ?2, unit_id = NULL, level_id = NULL WHERE name = ?1"@,
        ActionAssociation::Level { .. } => "UPDATE actions SET level_id = ?2, unit_id = NULL, item_id = NULL WHERE name = ?1"@,
    }
}

/// The statement `set_association` runs for `association` (see
/// `link_sql`): action `action_name` gets card id `card_id`.
pub fn link_statement(association: &ActionAssociation, action_name: &str, card_id: i64) -> (r: SqlStatement)
    ensures
        r.sql@ == link_sql(*association),
        r.params@.len() == 2,
        r.params@[0] matches SqlParam::Text(t) && t@ == action_name@,
        r.params@[1] == SqlParam::Integer(card_id),
{
    let params = vec![SqlParam::Text(action_name.to_owned()), SqlParam::Integer(card_id)];
    match association {
        ActionAssociation::Unit { .. } => SqlStatement {
            sql: "UPDATE actions SET unit_id = ?2, item_id = NULL, level_id = NULL WHERE name = ?1",
            params,
        },
        ActionAssociation::Item { .. } => SqlStatement {
            sql: "UPDATE actions SET item_id = ?2, unit_id = NULL, level_id = NULL WHERE name = ?1",
            params,
        },
        ActionAssociation::Level { .. } => SqlStatement {
            sql: "UPDATE actions SET level_id = ?2, unit_id = NULL, item_id = NULL WHERE name = ?1",
            params,
        },
    }
}

/// The statement `clear_association` runs: action `action_name` loses all
/// three links.
pub fn clear_links_statement(action_name: &str) -> (r: SqlStatement)
    ensures
        r.sql@ == "UPDATE actions SET unit_id = NULL, item_id = NULL, level_id = NULL WHERE name = ?1"@,
        r.params@.len() == 1,
        r.params@[0] matches SqlParam::Text(t) && t@ == action_name@,
{
    SqlStatement {
        sql: "UPDATE actions SET unit_id = NULL, item_id = NULL, level_id = NULL WHERE name = ?1",
        params: vec![SqlParam::Text(action_name.to_owned())],
    }
}

/// Clears any Unit/Item/Level association for the given action.
pub fn clear_association(conn: &rusqlite::Connection, action_name: &str) -> (r: Result<
    (),
    DataError,
>)
    ensures
        is_blank_spec(action_name@) ==> (r matches Err(e) && is_error(
            e,
            ErrorKind::Invalid,
            non_empty_msg("action_name"@),
        )),
        !is_blank_spec(action_name@) ==> (r matches Err(e) ==> (e.kind == ErrorKind::Db
            || is_error(e, ErrorKind::NotFound, action_not_found_msg(trim_spec(action_name@))))),
{
    let action_name = require_non_empty_trimmed("action_name", action_name)?;
    let st = clear_links_statement(action_name);
    update_links(conn, &st, action_name)
}

/// The name of the card an association points to.
pub open spec fn association_target(a: ActionAssociation) -> Seq<char> {
    match a {
        ActionAssociation::Unit { unit_name } => unit_name@,
        ActionAssociation::Item { item_name } => item_name@,
        ActionAssociation::Level { level_name } => level_name@,
    }
}

/// The label under which a blank target name is reported.
pub open spec fn association_label(a: ActionAssociation) -> Seq<char> {
    match a {
        ActionAssociation::Unit { .. } => "unit_name"@,
        ActionAssociation::Item { .. } => "item_name"@,
        ActionAssociation::Level { .. } => "level_name"@,
    }
}

/// Sets the action association to exactly one of Unit/Item/Level (and
/// clears the others).
///
/// A blank action name is rejected first, then a blank target name; an
/// unknown target or action is `NotFound`.
pub fn set_association(
    conn: &rusqlite::Connection,
    action_name: &str,
    association: &ActionAssociation,
) -> (r: Result<(), DataError>)
    ensures
        is_blank_spec(action_name@) ==> (r matches Err(e) && is_error(
            e,
            ErrorKind::Invalid,
            non_empty_msg("action_name"@),
        )),
        !is_blank_spec(action_name@) ==> resolve_errors(
            association_label(*association),
            association_target(*association),
            r,
        ),
{
    let action_name = require_non_empty_trimmed("action_name", action_name)?;
    match association {
        ActionAssociation::Unit { unit_name } => {
            let unit_id = get_unit_id(conn, unit_name.as_str())?;
            let st = link_statement(association, action_name, unit_id);
            update_links(conn, &st, action_name)
        },
        ActionAssociation::Item { item_name } => {
            let item_id = get_item_id(conn, item_name.as_str())?;
            let st = link_statement(association, action_name, item_id);
            update_links(conn, &st, action_name)
        },
        ActionAssociation::Level { level_name } => {
            let level_id = get_level_id(conn, level_name.as_str())?;
            let st = link_statement(association, action_name, level_id);
            update_links(conn, &st, action_name)
        },
    }
}

/// The association that the linked card names `unit, item, level` describe:
/// `Some(None)` for no link, `None` when more than one is set.
pub open spec fn association_of_names(
    unit: Option<String>,
    item: Option<String>,
    level: Option<String>,
) -> Option<Option<ActionAssociation>> {
    match (unit, item, level) {
        (Some(u), None, None) => Some(Some(ActionAssociation::Unit { unit_name: u })),
        (None, Some(i), None) => Some(Some(ActionAssociation::Item { item_name: i })),
        (None, None, Some(l)) => Some(Some(ActionAssociation::Level { level_name: l })),
        (None, None, None) => Some(None),
        _ => None,
    }
}

/// The association a row `unit name, item name, level name` describes.
pub open spec fn association_of_row(row: Seq<SqlValue>) -> Option<Option<ActionAssociation>> {
    match (col_opt_text(row[0]), col_opt_text(row[1]), col_opt_text(row[2])) {
        (Some(u), Some(i), Some(l)) => association_of_names(u, i, l),
        _ => None,
    }
}

/// `"Failed to fetch association for action `<name>`"`, the context of
/// every failure to read an action's association.
pub open spec fn fetch_association_ctx(action_name: Seq<char>) -> Seq<char> {
    "Failed to fetch association for action `"@ + action_name + "`"@
}

/// The text SQLite's row reader reports for a row that links an action to
/// more than one card: a text conversion failure at column 0 whose reason is
/// `"Invalid action association state for `<name>` (multiple links set)"`.
pub open spec fn multiple_links_text(action_name: Seq<char>) -> Seq<char> {
    "Conversion error from type Text at index: 0, Invalid action association state for `"@
        + action_name + "` (multiple links set)"@
}

/// Reads the association from a row `unit name, item name, level name`.
///
/// More than one link is a `Corrupt` state, reported with the context of
/// [`get_association`] and, as its cause, the conversion failure that
/// SQLite's row reader reports for it.
pub fn association_from_row(row: &Vec<SqlValue>, action_name: &str) -> (r: Result<
    Option<ActionAssociation>,
    DataError,
>)
    requires
        row@.len() == 3,
    ensures
        match association_of_row(row@) {
            Some(a) => r == Ok::<Option<ActionAssociation>, DataError>(a),
            None => r matches Err(e) && e.message@ == fetch_association_ctx(action_name@) && (
                e.kind == ErrorKind::Db || (e.kind == ErrorKind::Corrupt && (e.cause matches Some(c)
                    && c@ == multiple_links_text(action_name@)))),
        },
        (col_opt_text(row@[0]) is Some && col_opt_text(row@[1]) is Some && col_opt_text(row@[2]) is Some
            && association_of_row(row@) is None) ==> (r matches Err(e) && e.kind == ErrorKind::Corrupt),
{
    let ctx = concat3("Failed to fetch association for action `", action_name, "`");
    let unit = match read_opt_text(&row[0]) {
        Some(v) => v,
        None => return Err(DataError::with_cause(ErrorKind::Db, ctx, bad_row("units.name").message)),
    };
    let item = match read_opt_text(&row[1]) {
        Some(v) => v,
        None => return Err(DataError::with_cause(ErrorKind::Db, ctx, bad_row("items.name").message)),
    };
    let level = match read_opt_text(&row[2]) {
        Some(v) => v,
        None => return Err(DataError::with_cause(ErrorKind::Db, ctx, bad_row("levels.name").message)),
    };
    match (unit, item, level) {
        (Some(unit_name), None, None) => Ok(Some(ActionAssociation::Unit { unit_name })),
        (None, Some(item_name), None) => Ok(Some(ActionAssociation::Item { item_name })),
        (None, None, Some(level_name)) => Ok(Some(ActionAssociation::Level { level_name })),
        (None, None, None) => Ok(None),
        _ => {
            let reason = concat3(
                "Conversion error from type Text at index: 0, Invalid action association state for `",
                action_name,
                "` (multiple links set)",
            );
            Err(DataError::with_cause(ErrorKind::Corrupt, ctx, reason))
        },
    }
}

/// Returns the association (if any) for a given action; a blank name has
/// none. Every failure carries the context
/// `"Failed to fetch association for action `<name>`"`.
pub fn get_association(conn: &rusqlite::Connection, action_name: &str) -> (r: Result<
    Option<ActionAssociation>,
    DataError,
>)
    ensures
        is_blank_spec(action_name@) ==> r == Ok::<Option<ActionAssociation>, DataError>(None),
        r matches Err(e) ==> (e.kind == ErrorKind::Db || e.kind == ErrorKind::Corrupt)
            && e.message@ == fetch_association_ctx(trim_spec(action_name@)),
        r matches Ok(Some(a)) ==> exists|row: Seq<SqlValue>| #[trigger] association_of_row(row) == Some(
            Some(a),
        ),
{
    let action_name = trim(action_name);
    if action_name.is_empty() {
        return Ok(None);
    }
    let st = select_association_statement(action_name);
    let row = match fetch_first(conn, &st, 3) {
        Ok(Some(row)) => row,
        Ok(None) => return Ok(None),
        Err(e) => {
            return Err(db_failure(concat3("Failed to fetch association for action `", action_name, "`"), e));
        },
    };
    association_from_row(&row, action_name)
}

/// Lists all actions associated with a given Unit (by unit name), ordered by
/// action name (ascending).
pub fn list_actions_for_unit(conn: &rusqlite::Connection, unit_name: &str) -> (r: Result<
    Vec<Action>,
    DataError,
>)
    ensures
        resolve_errors("unit_name"@, unit_name@, r),
        r matches Ok(v) ==> exists|id: i64| resolved_id("unit_id"@, trim_spec(unit_name@), id)
            && #[trigger] linked_actions("unit_id"@, id, v@),
{
    let unit_id = get_unit_id(conn, unit_name)?;
    list_actions_by_fk(conn, "unit_id", unit_id)
}

/// Lists all actions associated with a given Item (by item name), ordered by
/// action name (ascending).
pub fn list_actions_for_item(conn: &rusqlite::Connection, item_name: &str) -> (r: Result<
    Vec<Action>,
    DataError,
>)
    ensures
        resolve_errors("item_name"@, item_name@, r),
        r matches Ok(v) ==> exists|id: i64| resolved_id("item_id"@, trim_spec(item_name@), id)
            && #[trigger] linked_actions("item_id"@, id, v@),
{
    let item_id = get_item_id(conn, item_name)?;
    list_actions_by_fk(conn, "item_id", item_id)
}

/// Lists all actions associated with a given Level (by level name), ordered
/// by action name (ascending).
pub fn list_actions_for_level(conn: &rusqlite::Connection, level_name: &str) -> (r: Result<
    Vec<Action>,
    DataError,
>)
    ensures
        resolve_errors("level_name"@, level_name@, r),
        r matches Ok(v) ==> exists|id: i64| resolved_id("level_id"@, trim_spec(level_name@), id)
            && #[trigger] linked_actions("level_id"@, id, v@),
{
    let level_id = get_level_id(conn, level_name)?;
    list_actions_by_fk(conn, "level_id", level_id)
}

/// The link columns of the `actions` table.
pub open spec fn is_link_column(c: Seq<char>) -> bool {
    c == "unit_id"@ || c == "item_id"@ || c == "level_id"@
}

fn list_actions_by_fk(conn: &rusqlite::Connection, fk_col: &str, fk_id: i64) -> (r: Result<
    Vec<Action>,
    DataError,
>)
    ensures
        !is_link_column(fk_col@) ==> (r matches Err(e) && is_error(
            e,
            ErrorKind::Invalid,
            "Invalid foreign key column `"@ + fk_col@ + "` for listing associated actions"@,
        )),
        is_link_column(fk_col@) ==> fails_only_in_db(r),
        r matches Ok(v) ==> linked_actions(fk_col@, fk_id, v@),
{
    if !(str_eq(fk_col, "unit_id") || str_eq(fk_col, "item_id") || str_eq(fk_col, "level_id")) {
        return Err(
            DataError::new(
                ErrorKind::Invalid,
                concat3("Invalid foreign key column `", fk_col, "` for listing associated actions"),
            ),
        );
    }
    let st = actions_by_link_statement(fk_col, fk_id);
    match fetch_all(conn, &st, 4) {
        Ok(rows) => actions_from_rows(&rows),
        Err(e) => Err(db_error(e)),
    }
}

/// Lists actions ordered by name (ascending).
pub fn list_cards(conn: &rusqlite::Connection) -> (r: Result<Vec<Action>, DataError>)
    ensures
        r matches Ok(v) ==> exists|rows: Seq<Vec<SqlValue>>| #[trigger] actions_of_rows(rows, v@),
        r matches Ok(v) ==> exists|rows: Seq<Vec<SqlValue>>| answered(select_all_sql(), seq![], 4, rows)
            && #[trigger] actions_of_rows(rows, v@),
        fails_only_in_db(r),
{
    let st = select_all_statement();
    let found = fetch_all(conn, &st, 4);
    proof {
        if let Ok(rows) = &found {
            assert(st.params@ =~= seq![]);
            assert(answered(select_all_sql(), seq![], 4, rows@));
        }
    }
    match found {
        Ok(rows) => actions_from_rows(&rows),
        Err(e) => Err(db_failure("Failed to query actions".to_owned(), e)),
    }
}

/// The parameters `name, action_point_cost, action_type, text` of an action.
pub fn action_params(card: &Action) -> (r: Vec<SqlParam>)
    ensures
        r@.len() == 4,
        r@[0] == SqlParam::Text(card.name),
        r@[1] == SqlParam::Integer(card.action_point_cost),
        r@[2] matches SqlParam::Text(t) && t@ == action_type_text(card.action_type),
        r@[3] == SqlParam::Text(card.text),
{
    vec![
        SqlParam::Text(card.name.clone()),
        SqlParam::Integer(card.action_point_cost),
        SqlParam::Text(card.action_type.to_db().to_owned()),
        SqlParam::Text(card.text.clone()),
    ]
}

/// The errors of a write that validates `card` first: exactly the problem of
/// the card when it has one, and otherwise only database failures.
pub open spec fn write_errors<T>(card: Action, r: Result<T, DataError>) -> bool {
    &&& action_problem(card) matches Some(m) ==> (r matches Err(e) && is_error(
        e,
        ErrorKind::Invalid,
        m,
    ))
    &&& action_problem(card) is None ==> fails_only_in_db(r)
}

/// The statement that creates action `card` (a plain insert: an existing name makes it fail).
pub fn insert_statement(card: &Action) -> (r: SqlStatement)
    ensures
        r.sql@ == "INSERT INTO actions (name, action_point_cost, action_type, text) VALUES (?1, ?2, ?3, ?4)"@,
        r.params@.len() == 4,
        r.params@[0] matches SqlParam::Text(t) && t@ == card.name@,
        r.params@[1] == SqlParam::Integer(card.action_point_cost),
        r.params@[2] matches SqlParam::Text(t) && t@ == action_type_text(card.action_type),
        r.params@[3] matches SqlParam::Text(t) && t@ == card.text@,
{
    SqlStatement {
        sql: "INSERT INTO actions (name, action_point_cost, action_type, text) VALUES (?1, ?2, ?3, ?4)",
        params: action_params(card),
    }
}

/// The statement that updates the action named `card.name` (an update only: it never inserts).
pub fn update_statement(card: &Action) -> (r: SqlStatement)
    ensures
        r.sql@ == "UPDATE actions SET action_point_cost = ?2, action_type = ?3, text = ?4 WHERE name = ?1"@,
        r.params@.len() == 4,
        r.params@[0] matches SqlParam::Text(t) && t@ == card.name@,
        r.params@[1] == SqlParam::Integer(card.action_point_cost),
        r.params@[2] matches SqlParam::Text(t) && t@ == action_type_text(card.action_type),
        r.params@[3] matches SqlParam::Text(t) && t@ == card.text@,
{
    SqlStatement {
        sql: "UPDATE actions SET action_point_cost = ?2, action_type = ?3, text = ?4 WHERE name = ?1",
        params: action_params(card),
    }
}

/// The statement that renames the action `old_name` to `card.name` and sets its fields.
pub fn rename_statement(old_name: &str, card: &Action) -> (r: SqlStatement)
    ensures
        r.sql@ == "UPDATE actions SET name = ?2, action_point_cost = ?3, action_type = ?4, text = ?5 WHERE name = ?1"@,
        r.params@.len() == 5,
        r.params@[0] matches SqlParam::Text(t) && t@ == old_name@,
        r.params@[1] matches SqlParam::Text(t) && t@ == card.name@,
        r.params@[2] == SqlParam::Integer(card.action_point_cost),
        r.params@[3] matches SqlParam::Text(t) && t@ == action_type_text(card.action_type),
        r.params@[4] matches SqlParam::Text(t) && t@ == card.text@,
{
    SqlStatement {
        sql: "UPDATE actions SET name = ?2, action_point_cost = ?3, action_type = ?4, text = ?5 WHERE name = ?1",
        params: vec![
            SqlParam::Text(old_name.to_owned()),
            SqlParam::Text(card.name.clone()),
            SqlParam::Integer(card.action_point_cost),
            SqlParam::Text(card.action_type.to_db().to_owned()),
            SqlParam::Text(card.text.clone()),
        ],
    }
}

/// The statement that deletes the action named `name`.
pub fn delete_statement(name: &str) -> (r: SqlStatement)
    ensures
        r.sql@ == "DELETE FROM actions WHERE name = ?1"@,
        r.params@.len() == 1,
        r.params@[0] matches SqlParam::Text(t) && t@ == name@,
{
    SqlStatement {
        sql: "DELETE FROM actions WHERE name = ?1",
        params: vec![SqlParam::Text(name.to_owned())],
    }
}

/// Inserts a new action and returns it as stored.
///
/// An action with the same name already existing makes the insert fail
/// (`save_card` has "create" semantics).
pub fn save_card(conn: &rusqlite::Connection, card: &Action) -> (r: Result<Action, DataError>)
    ensures
        write_errors(*card, r),
{
    validate_card(card)?;
    let st = insert_statement(card);
    if let Err(e) = run(conn, &st) {
        return Err(db_failure(concat3("Failed to save action `", card.name.as_str(), "`"), e));
    }
    let reloaded = get_card(conn, card.name.as_str())?;
    after_save(reloaded, concat3("Action `", card.name.as_str(), "` was saved but could not be reloaded"))
}

/// Inserts a new action with an optional association to a Unit/Item/Level
/// (`save_card`, then `set_association`).
pub fn save_card_with_association(
    conn: &rusqlite::Connection,
    card: &Action,
    association: Option<&ActionAssociation>,
) -> (r: Result<Action, DataError>)
    ensures
        action_problem(*card) matches Some(m) ==> (r matches Err(e) && is_error(
            e,
            ErrorKind::Invalid,
            m,
        )),
{
    let saved = save_card(conn, card)?;
    if let Some(assoc) = association {
        set_association(conn, saved.name.as_str(), assoc)?;
    }
    match get_card(conn, saved.name.as_str())? {
        Some(a) => Ok(a),
        None => Err(
            DataError::new(
                ErrorKind::Db,
                concat3("Action `", saved.name.as_str(), "` disappeared after save"),
            ),
        ),
    }
}

/// Updates an existing action (by name); `Ok(None)` when no action has that
/// name.
pub fn update_card(conn: &rusqlite::Connection, card: &Action) -> (r: Result<
    Option<Action>,
    DataError,
>)
    ensures
        write_errors(*card, r),
{
    validate_card(card)?;
    let st = update_statement(card);
    let changed = match run(conn, &st) {
        Ok(n) => n,
        Err(e) => return Err(db_failure(concat3("Failed to update action `", card.name.as_str(), "`"), e)),
    };
    let reload = || -> (r: Result<Option<Action>, DataError>)
        ensures
            fails_only_in_db(r),
        {
            let found = get_card(conn, card.name.as_str());
            found
        };
    after_change(changed, reload)
}

/// Updates an existing action and sets (or, given `None`, clears) its
/// association.
pub fn update_card_with_association(
    conn: &rusqlite::Connection,
    card: &Action,
    association: Option<&ActionAssociation>,
) -> (r: Result<Option<Action>, DataError>)
    ensures
        action_problem(*card) matches Some(m) ==> (r matches Err(e) && is_error(
            e,
            ErrorKind::Invalid,
            m,
        )),
{
    let updated = update_card(conn, card)?;
    if updated.is_none() {
        return Ok(None);
    }
    match association {
        Some(assoc) => set_association(conn, card.name.as_str(), assoc)?,
        None => clear_association(conn, card.name.as_str())?,
    }
    get_card(conn, card.name.as_str())
}

/// Renames an action (updates the primary key `name`) and updates all
/// fields.
///
/// - `old_name` identifies the existing row; `card.name` is the new name.
/// - When both trim to the same text, this behaves like `update_card`.
///
/// Returns `Ok(None)` if no action with `old_name` exists.
pub fn rename_and_update_card(
    conn: &rusqlite::Connection,
    old_name: &str,
    card: &Action,
) -> (r: Result<Option<Action>, DataError>)
    ensures
        is_blank_spec(old_name@) ==> (r matches Err(e) && is_error(
            e,
            ErrorKind::Invalid,
            non_empty_msg("old_name"@),
        )),
        !is_blank_spec(old_name@) ==> write_errors(*card, r),
{
    let old_name = require_non_empty_trimmed("old_name", old_name)?;
    validate_card(card)?;
    if str_eq(old_name, trim(card.name.as_str())) {
        return update_card(conn, card);
    }
    let st = rename_statement(old_name, card);
    let changed = match run(conn, &st) {
        Ok(n) => n,
        Err(e) => return Err(db_failure(concat3(concat3("Failed to rename action `", old_name, "` to `").as_str(), card.name.as_str(), "`"), e)),
    };
    let reload = || -> (r: Result<Option<Action>, DataError>)
        ensures
            fails_only_in_db(r),
        {
            let found = get_card(conn, card.name.as_str());
            found
        };
    after_change(changed, reload)
}

/// Deletes an action by name: `Ok(true)` if a row was deleted, `Ok(false)`
/// if nothing matched (a blank name matches nothing).
pub fn delete_card(conn: &rusqlite::Connection, name: &str) -> (r: Result<bool, DataError>)
    ensures
        is_blank_spec(name@) ==> r == Ok::<bool, DataError>(false),
        fails_only_in_db(r),
        r matches Err(e) ==> e.message@ == "Failed to delete action `"@ + trim_spec(name@) + "`"@,
{
    let name = trim(name);
    if name.is_empty() {
        return Ok(false);
    }
    let st = delete_statement(name);
    match run(conn, &st) {
        Ok(n) => Ok(removed_any(n)),
        Err(e) => Err(db_failure(concat3("Failed to delete action `", name, "`"), e)),
    }
}

/// Loads an action by exact (trimmed) name; `Ok(None)` if not found.
pub fn get_card(conn: &rusqlite::Connection, name: &str) -> (r: Result<Option<Action>, DataError>)
    ensures
        is_blank_spec(name@) ==> r == Ok::<Option<Action>, DataError>(None),
        fails_only_in_db(r),
        r matches Ok(Some(a)) ==> exists|row: Seq<SqlValue>| #[trigger] action_of_row(row) == Some(a),
        r matches Ok(Some(a)) ==> exists|row: Vec<SqlValue>, p: Seq<SqlParam>|
            #![trigger first_answered(select_one_sql(), p, 4, Some(row))]
            text_param(p, trim_spec(name@)) && first_answered(select_one_sql(), p, 4, Some(row))
                && action_of_row(row@) == Some(a),
        !is_blank_spec(name@) && r == Ok::<Option<Action>, DataError>(None) ==> exists|p: Seq<SqlParam>|
            #![trigger first_answered(select_one_sql(), p, 4, None)]
            text_param(p, trim_spec(name@)) && first_answered(select_one_sql(), p, 4, None),
{
    let name = trim(name);
    if name.is_empty() {
        return Ok(None);
    }
    let st = select_by_name_statement(name);
    let found = fetch_first(conn, &st, 4);
    proof {
        if let Ok(Some(row)) = &found {
            assert(first_answered(select_one_sql(), st.params@, 4, Some(*row)));
        }
        if let Ok(None) = &found {
            assert(first_answered(select_one_sql(), st.params@, 4, None));
        }
    }
    match found {
        Ok(Some(row)) => match action_from_row(&row) {
            Ok(a) => Ok(Some(a)),
            Err(e) => Err(e),
        },
        Ok(None) => Ok(None),
        Err(e) => Err(db_failure(concat3("Failed to fetch action `", name, "`"), e)),
    }
}

} // verus!
