//! Interactions: the interaction details of an action (at most one per
//! action).

use vstd::prelude::*;
use crate::cards::outcome::{after_change, after_save, removed_any};
use crate::db::{
    run, SqlStatement, db_failure, bad_row, col_i64, col_opt_i64, col_text, db_error, answered, fetch_all,
    fetch_first, first_answered, text_param, read_i64, read_opt_i64, read_text, SqlParam, SqlValue,
};
use crate::shared::{
    concat3, fails_only_in_db, is_error, non_empty_msg, require_non_empty_trimmed, DataError,
    ErrorKind,
};
use crate::text::{is_blank_spec, str_eq, trim, trim_spec};

verus! {

#[derive(Debug, Clone, Copy, PartialEq, Eq, Structural)]
pub enum Skill {
    Strength,
    Focus,
    Intelligence,
    Knowledge,
    Agility,
}

pub open spec fn skill_text(s: Skill) -> Seq<char> {
    match s {
        Skill::Strength => "Strength"@,
        Skill::Focus => "Focus"@,
        Skill::Intelligence => "Intelligence"@,
        Skill::Knowledge => "Knowledge"@,
        Skill::Agility => "Agility"@,
    }
}

pub open spec fn skill_from_text(s: Seq<char>) -> Option<Skill> {
    if s == "Strength"@ {
        Some(Skill::Strength)
    } else if s == "Focus"@ {
        Some(Skill::Focus)
    } else if s == "Intelligence"@ {
        Some(Skill::Intelligence)
    } else if s == "Knowledge"@ {
        Some(Skill::Knowledge)
    } else if s == "Agility"@ {
        Some(Skill::Agility)
    } else {
        None
    }
}

impl Skill {
    pub fn as_str(self) -> (r: &'static str)
        ensures
            r@ == skill_text(self),
    {
        match self {
            Skill::Strength => "Strength",
            Skill::Focus => "Focus",
            Skill::Intelligence => "Intelligence",
            Skill::Knowledge => "Knowledge",
            Skill::Agility => "Agility",
        }
    }

    pub fn parse(s: &str) -> (r: Result<Skill, DataError>)
        ensures
            match skill_from_text(s@) {
                Some(v) => r == Ok::<Skill, DataError>(v),
                None => r matches Err(e) && is_error(
                    e,
                    ErrorKind::Invalid,
                    "Invalid Skill `"@ + s@ + "`"@,
                ),
            },
    {
        if str_eq(s, "Strength") {
            Ok(Skill::Strength)
        } else if str_eq(s, "Focus") {
            Ok(Skill::Focus)
        } else if str_eq(s, "Intelligence") {
            Ok(Skill::Intelligence)
        } else if str_eq(s, "Knowledge") {
            Ok(Skill::Knowledge)
        } else if str_eq(s, "Agility") {
            Ok(Skill::Agility)
        } else {
            Err(DataError::new(ErrorKind::Invalid, concat3("Invalid Skill `", s, "`")))
        }
    }
}

/// Reading back the text of a skill gives the same skill.
pub proof fn lemma_skill_text_roundtrip(v: Skill)
    ensures
        skill_from_text(skill_text(v)) == Some(v),
{
    reveal_strlit("Strength");
    reveal_strlit("Focus");
    reveal_strlit("Intelligence");
    reveal_strlit("Knowledge");
    reveal_strlit("Agility");
    assert("Strength"@[0] != "Focus"@[0] && "Strength"@[0] != "Intelligence"@[0] && "Strength"@[0]
        != "Knowledge"@[0] && "Strength"@[0] != "Agility"@[0]);
    assert("Focus"@[0] != "Intelligence"@[0] && "Focus"@[0] != "Knowledge"@[0] && "Focus"@[0]
        != "Agility"@[0]);
    assert("Intelligence"@[0] != "Knowledge"@[0] && "Intelligence"@[0] != "Agility"@[0]);
    assert("Knowledge"@[0] != "Agility"@[0]);
}

#[derive(Debug, Clone, PartialEq, Eq)]
pub struct Interaction {
    /// The `actions.name` this interaction belongs to.
    pub action_name: String,
    pub range: i64,
    pub skill: Skill,
    /// 1-14 inclusive, or none.
    pub target: Option<i64>,
}

/// Why an interaction may not be stored, if it may not.
pub open spec fn interaction_problem(card: Interaction) -> Option<Seq<char>> {
    if is_blank_spec(card.action_name@) {
        Some(non_empty_msg("Interaction.action_name"@))
    } else if card.range < 0 {
        Some("Interaction.range must be >= 0"@)
    } else if card.target matches Some(t) && (t < 1 || t > 14) {
        Some("Interaction.target must be between 1 and 14 (inclusive) when present"@)
    } else {
        None
    }
}

/// Checks the fields of an interaction: a non-blank action name, a range
/// that is not negative and, when present, a target in 1..=14.
pub fn validate_card(card: &Interaction) -> (r: Result<(), DataError>)
    ensures
        match interaction_problem(*card) {
            Some(m) => r matches Err(e) && is_error(e, ErrorKind::Invalid, m),
            None => r is Ok,
        },
{
    require_non_empty_trimmed("Interaction.action_name", card.action_name.as_str())?;
    if card.range < 0 {
        return Err(DataError::invalid("Interaction.range must be >= 0"));
    }
    if let Some(target) = card.target {
        if target < 1 || target > 14 {
            return Err(
                DataError::invalid(
                    "Interaction.target must be between 1 and 14 (inclusive) when present",
                ),
            );
        }
    }
    Ok(())
}

/// The interaction a row `action name, range, skill, target` holds.
pub open spec fn interaction_of_row(row: Seq<SqlValue>) -> Option<Interaction> {
    match (col_text(row[0]), col_i64(row[1]), col_text(row[2]), col_opt_i64(row[3])) {
        (Some(action_name), Some(range), Some(s), Some(target)) => match skill_from_text(s@) {
            Some(skill) => Some(Interaction { action_name, range, skill, target }),
            None => None,
        },
        _ => None,
    }
}

/// Reads an interaction from a row `action name, range, skill, target`.
pub fn interaction_from_row(row: &Vec<SqlValue>) -> (r: Result<Interaction, DataError>)
    requires
        row@.len() == 4,
    ensures
        match interaction_of_row(row@) {
            Some(a) => r == Ok::<Interaction, DataError>(a),
            None => r matches Err(e) && e.kind == ErrorKind::Db,
        },
{
    let skill = match read_text(&row[2]) {
        Some(t) => match Skill::parse(t.as_str()) {
            Ok(v) => v,
            Err(_) => return Err(bad_row("interactions.skill")),
        },
        None => return Err(bad_row("interactions.skill")),
    };
    let action_name = match read_text(&row[0]) {
        Some(v) => v,
        None => return Err(bad_row("actions.name")),
    };
    let range = match read_i64(&row[1]) {
        Some(v) => v,
        None => return Err(bad_row("interactions.range")),
    };
    let target = match read_opt_i64(&row[3]) {
        Some(v) => v,
        None => return Err(bad_row("interactions.target")),
    };
    Ok(Interaction { action_name, range, skill, target })
}

pub open spec fn interactions_of_rows(rows: Seq<Vec<SqlValue>>, out: Seq<Interaction>) -> bool {
    &&& out.len() == rows.len()
    &&& forall|i: int| 0 <= i < rows.len() ==> interaction_of_row(#[trigger] rows[i]@) == Some(out[i])
}

/// Reads interactions from rows, in row order.
pub fn interactions_from_rows(rows: &Vec<Vec<SqlValue>>) -> (r: Result<Vec<Interaction>, DataError>)
    requires
        forall|i: int| 0 <= i < rows@.len() ==> #[trigger] rows@[i]@.len() == 4,
    ensures
        match r {
            Ok(v) => interactions_of_rows(rows@, v@),
            Err(e) => e.kind == ErrorKind::Db && exists|i: int|
                0 <= i < rows@.len() && interaction_of_row(#[trigger] rows@[i]@) is None,
        },
{
    let mut out: Vec<Interaction> = Vec::new();
    let mut i: usize = 0;
    while i < rows.len()
        invariant
            i <= rows@.len(),
            forall|k: int| 0 <= k < rows@.len() ==> #[trigger] rows@[k]@.len() == 4,
            interactions_of_rows(rows@.subrange(0, i as int), out@),
        decreases rows@.len() - i,
    {
        let a = match interaction_from_row(&rows[i]) {
            Ok(a) => a,
            Err(e) => return Err(e),
        };
        out.push(a);
        i = i + 1;
        assert forall|k: int| 0 <= k < i implies interaction_of_row(
            #[trigger] rows@.subrange(0, i as int)[k]@,
        ) == Some(out@[k]) by {
            if k < i - 1 {
                assert(rows@.subrange(0, i as int)[k] == rows@.subrange(0, i - 1)[k]);
            }
        }
    }
    assert(rows@.subrange(0, i as int) =~= rows@);
    Ok(out)
}

/// The text of the query that reads one card by action name.
pub open spec fn select_one_sql() -> Seq<char> {
    "SELECT a.name, i.range, i.skill, i.target FROM interactions i JOIN actions a ON a.id = i.action_id WHERE a.name = ?1"@
}

/// The text of the query that reads every card.
pub open spec fn select_all_sql() -> Seq<char> {
    "SELECT a.name, i.range, i.skill, i.target FROM interactions i JOIN actions a ON a.id = i.action_id ORDER BY a.name ASC"@
}

/// The query that reads the interaction of the action called `action_name`.
pub fn select_by_action_statement(action_name: &str) -> (r: SqlStatement)
    ensures
        r.sql@ == "SELECT a.name, i.range, i.skill, i.target FROM interactions i JOIN actions a ON a.id = i.action_id WHERE a.name = ?1"@,
        r.params@.len() == 1,
        r.params@[0] matches SqlParam::Text(t) && t@ == action_name@,
{
    SqlStatement {
        sql: "SELECT a.name, i.range, i.skill, i.target FROM interactions i JOIN actions a ON a.id = i.action_id WHERE a.name = ?1",
        params: vec![SqlParam::Text(action_name.to_owned())],
    }
}

/// The query that reads every interaction, ordered by action name.
pub fn select_all_statement() -> (r: SqlStatement)
    ensures
        r.sql@ == "SELECT a.name, i.range, i.skill, i.target FROM interactions i JOIN actions a ON a.id = i.action_id ORDER BY a.name ASC"@,
        r.params@.len() == 0,
{
    SqlStatement {
        sql: "SELECT a.name, i.range, i.skill, i.target FROM interactions i JOIN actions a ON a.id = i.action_id ORDER BY a.name ASC",
        params: Vec::new(),
    }
}

/// The query that reads the id of the action called `action_name`.
pub fn action_id_statement(action_name: &str) -> (r: SqlStatement)
    ensures
        r.sql@ == "SELECT id FROM actions WHERE name = ?1"@,
        r.params@.len() == 1,
        r.params@[0] matches SqlParam::Text(t) && t@ == action_name@,
{
    SqlStatement {
        sql: "SELECT id FROM actions WHERE name = ?1",
        params: vec![SqlParam::Text(action_name.to_owned())],
    }
}

/// The query that finds whether action `action_id` has an interaction.
pub fn exists_statement(action_id: i64) -> (r: SqlStatement)
    ensures
        r.sql@ == "SELECT 1 FROM interactions WHERE action_id = ?1"@,
        r.params@ == seq![SqlParam::Integer(action_id)],
{
    SqlStatement {
        sql: "SELECT 1 FROM interactions WHERE action_id = ?1",
        params: vec![SqlParam::Integer(action_id)],
    }
}

/// Lists interactions ordered by action name (ascending).
pub fn list_cards(conn: &rusqlite::Connection) -> (r: Result<Vec<Interaction>, DataError>)
    ensures
        r matches Ok(v) ==> exists|rows: Seq<Vec<SqlValue>>| #[trigger] interactions_of_rows(rows, v@),
        r matches Ok(v) ==> exists|rows: Seq<Vec<SqlValue>>| answered(select_all_sql(), seq![], 4, rows)
            && #[trigger] interactions_of_rows(rows, v@),
        fails_only_in_db(r),
{
    let st = select_all_statement();
    let found = fetch_all(conn, &st, 4);
    proof {
        if let Ok(rows) = &found {
            assert(st.params@ =~= seq![]);
            assert(answered(select_all_sql(), seq![], 4, rows@));
        }
    }
    match found {
        Ok(rows) => interactions_from_rows(&rows),
        Err(e) => Err(db_failure("Failed to query interactions".to_owned(), e)),
    }
}

/// The id of the action with the given (trimmed) name; a blank name has none.
fn get_action_id(conn: &rusqlite::Connection, action_name: &str) -> (r: Result<
    Option<i64>,
    DataError,
>)
    ensures
        is_blank_spec(action_name@) ==> r == Ok::<Option<i64>, DataError>(None),
        fails_only_in_db(r),
{
    let action_name = trim(action_name);
    if action_name.is_empty() {
        return Ok(None);
    }
    let st = action_id_statement(action_name);
    match fetch_first(conn, &st, 1) {
        Ok(Some(row)) => match read_i64(&row[0]) {
            Some(v) => Ok(Some(v)),
            None => Err(bad_row("actions.id")),
        },
        Ok(None) => Ok(None),
        Err(e) => Err(db_error(e)),
    }
}

pub fn target_param(target: Option<i64>) -> (r: SqlParam)
    ensures
        r == (match target {
            Some(t) => SqlParam::Integer(t),
            None => SqlParam::Null,
        }),
{
    match target {
        Some(t) => SqlParam::Integer(t),
        None => SqlParam::Null,
    }
}

/// The errors of a write that validates `card` first.
pub open spec fn write_errors<T>(card: Interaction, r: Result<T, DataError>) -> bool {
    &&& interaction_problem(card) matches Some(m) ==> (r matches Err(e) && is_error(
        e,
        ErrorKind::Invalid,
        m,
    ))
    &&& interaction_problem(card) is None ==> fails_only_in_db(r)
}

/// The statement that creates the interaction `card` of action `action_id` (a plain insert: one
/// interaction per action).
pub fn insert_statement(action_id: i64, card: &Interaction) -> (r: SqlStatement)
    ensures
        r.sql@ == "INSERT INTO interactions (action_id, range, skill, target) VALUES (?1, ?2, ?3, ?4)"@,
        r.params@.len() == 4,
        r.params@[0] == SqlParam::Integer(action_id),
        r.params@[1] == SqlParam::Integer(card.range),
        r.params@[2] matches SqlParam::Text(t) && t@ == skill_text(card.skill),
        r.params@[3] == (match card.target { Some(t) => SqlParam::Integer(t), None => SqlParam::Null }),
{
    SqlStatement {
        sql: "INSERT INTO interactions (action_id, range, skill, target) VALUES (?1, ?2, ?3, ?4)",
        params: vec![
            SqlParam::Integer(action_id),
            SqlParam::Integer(card.range),
            SqlParam::Text(card.skill.as_str().to_owned()),
            target_param(card.target),
        ],
    }
}

/// The statement that updates the interaction of action `action_id` (an update only: it never
/// inserts).
pub fn update_statement(action_id: i64, card: &Interaction) -> (r: SqlStatement)
    ensures
        r.sql@ == "UPDATE interactions SET range = ?2, skill = ?3, target = ?4 WHERE action_id = ?1"@,
        r.params@.len() == 4,
        r.params@[0] == SqlParam::Integer(action_id),
        r.params@[1] == SqlParam::Integer(card.range),
        r.params@[2] matches SqlParam::Text(t) && t@ == skill_text(card.skill),
        r.params@[3] == (match card.target { Some(t) => SqlParam::Integer(t), None => SqlParam::Null }),
{
    SqlStatement {
        sql: "UPDATE interactions SET range = ?2, skill = ?3, target = ?4 WHERE action_id = ?1",
        params: vec![
            SqlParam::Integer(action_id),
            SqlParam::Integer(card.range),
            SqlParam::Text(card.skill.as_str().to_owned()),
            target_param(card.target),
        ],
    }
}

/// The statement that moves the interaction of action `old_action_id` to action `new_action_id` and
/// sets its fields.
pub fn move_statement(old_action_id: i64, new_action_id: i64, card: &Interaction) -> (r: SqlStatement)
    ensures
        r.sql@ == "UPDATE interactions SET action_id = ?2, range = ?3, skill = ?4, target = ?5 WHERE action_id = ?1"@,
        r.params@.len() == 5,
        r.params@[0] == SqlParam::Integer(old_action_id),
        r.params@[1] == SqlParam::Integer(new_action_id),
        r.params@[2] == SqlParam::Integer(card.range),
        r.params@[3] matches SqlParam::Text(t) && t@ == skill_text(card.skill),
        r.params@[4] == (match card.target { Some(t) => SqlParam::Integer(t), None => SqlParam::Null }),
{
    SqlStatement {
        sql: "UPDATE interactions SET action_id = ?2, range = ?3, skill = ?4, target = ?5 WHERE action_id = ?1",
        params: vec![
            SqlParam::Integer(old_action_id),
            SqlParam::Integer(new_action_id),
            SqlParam::Integer(card.range),
            SqlParam::Text(card.skill.as_str().to_owned()),
            target_param(card.target),
        ],
    }
}

/// The statement that deletes the interaction of action `action_id`.
pub fn delete_statement(action_id: i64) -> (r: SqlStatement)
    ensures
        r.sql@ == "DELETE FROM interactions WHERE action_id = ?1"@,
        r.params@.len() == 1,
        r.params@[0] == SqlParam::Integer(action_id),
{
    SqlStatement {
        sql: "DELETE FROM interactions WHERE action_id = ?1",
        params: vec![SqlParam::Integer(action_id)],
    }
}

/// Inserts a new interaction for an existing action (by action name).
///
/// The action must exist (`NotFound` otherwise); there is at most one
/// interaction per action (the schema's `UNIQUE(action_id)`).
pub fn save_card(conn: &rusqlite::Connection, card: &Interaction) -> (r: Result<Interaction, DataError>)
    ensures
        interaction_problem(*card) matches Some(m) ==> (r matches Err(e) && is_error(
            e,
            ErrorKind::Invalid,
            m,
        )),
        interaction_problem(*card) is None ==> (r matches Err(e) ==> (e.kind == ErrorKind::Db
            || is_error(
            e,
            ErrorKind::NotFound,
            "Action `"@ + card.action_name@ + "` not found"@,
        ))),
{
    validate_card(card)?;
    let action_id = match get_action_id(conn, card.action_name.as_str())? {
        Some(id) => id,
        None => {
            return Err(
                DataError::new(
                    ErrorKind::NotFound,
                    concat3("Action `", card.action_name.as_str(), "` not found"),
                ),
            )
        },
    };
    let st = insert_statement(action_id, card);
    if let Err(e) = run(conn, &st) {
        return Err(db_failure(concat3("Failed to save interaction for action `", card.action_name.as_str(), "`"), e));
    }
    let reloaded = get_card(conn, card.action_name.as_str())?;
    after_save(reloaded, concat3("Interaction for action `", card.action_name.as_str(), "` was saved but could not be reloaded"))
}

/// Updates the interaction of an existing action; `Ok(None)` if the action
/// does not exist or has no interaction yet.
pub fn update_card(conn: &rusqlite::Connection, card: &Interaction) -> (r: Result<
    Option<Interaction>,
    DataError,
>)
    ensures
        write_errors(*card, r),
{
    validate_card(card)?;
    let action_id = match get_action_id(conn, card.action_name.as_str())? {
        Some(id) => id,
        None => return Ok(None),
    };
    let st = update_statement(action_id, card);
    let changed = match run(conn, &st) {
        Ok(n) => n,
        Err(e) => return Err(db_failure(concat3("Failed to update interaction for action `", card.action_name.as_str(), "`"), e)),
    };
    let reload = || -> (r: Result<Option<Interaction>, DataError>)
        ensures
            fails_only_in_db(r),
        {
            let found = get_card(conn, card.action_name.as_str());
            found
        };
    after_change(changed, reload)
}

/// Moves an interaction to another action (by name) and updates its fields.
///
/// When both names trim to the same text this behaves like `update_card`.
/// Returns `Ok(None)` if the old action does not exist or has no
/// interaction, or if the new action does not exist.
pub fn rename_and_update_card(
    conn: &rusqlite::Connection,
    old_action_name: &str,
    card: &Interaction,
) -> (r: Result<Option<Interaction>, DataError>)
    ensures
        is_blank_spec(old_action_name@) ==> (r matches Err(e) && is_error(
            e,
            ErrorKind::Invalid,
            non_empty_msg("old_action_name"@),
        )),
        !is_blank_spec(old_action_name@) ==> write_errors(*card, r),
{
    let old_action_name = require_non_empty_trimmed("old_action_name", old_action_name)?;
    validate_card(card)?;
    if str_eq(old_action_name, trim(card.action_name.as_str())) {
        return update_card(conn, card);
    }
    let old_action_id = match get_action_id(conn, old_action_name)? {
        Some(id) => id,
        None => return Ok(None),
    };
    let check = exists_statement(old_action_id);
    match fetch_first(conn, &check, 1) {
        Ok(Some(_)) => {},
        Ok(None) => return Ok(None),
        Err(e) => return Err(db_error(e)),
    }
    let new_action_id = match get_action_id(conn, card.action_name.as_str())? {
        Some(id) => id,
        None => return Ok(None),
    };
    let st = move_statement(old_action_id, new_action_id, card);
    let changed = match run(conn, &st) {
        Ok(n) => n,
        Err(e) => return Err(db_failure(concat3(concat3("Failed to move/update interaction from action `", old_action_name, "` to `").as_str(), card.action_name.as_str(), "`"), e)),
    };
    let reload = || -> (r: Result<Option<Interaction>, DataError>)
        ensures
            fails_only_in_db(r),
        {
            let found = get_card(conn, card.action_name.as_str());
            found
        };
    after_change(changed, reload)
}

/// Deletes the interaction of an action (by name): `Ok(true)` if a row was
/// deleted, `Ok(false)` if nothing matched.
pub fn delete_card(conn: &rusqlite::Connection, action_name: &str) -> (r: Result<bool, DataError>)
    ensures
        is_blank_spec(action_name@) ==> r == Ok::<bool, DataError>(false),
        fails_only_in_db(r),
{
    let action_name = trim(action_name);
    if action_name.is_empty() {
        return Ok(false);
    }
    let action_id = match get_action_id(conn, action_name)? {
        Some(id) => id,
        None => return Ok(false),
    };
    let st = delete_statement(action_id);
    match run(conn, &st) {
        Ok(n) => Ok(removed_any(n)),
        Err(e) => Err(db_failure(concat3("Failed to delete interaction for action `", action_name, "`"), e)),
    }
}

/// Loads the interaction of an action (by trimmed name); `Ok(None)` if not
/// found.
pub fn get_card(conn: &rusqlite::Connection, action_name: &str) -> (r: Result<
    Option<Interaction>,
    DataError,
>)
    ensures
        is_blank_spec(action_name@) ==> r == Ok::<Option<Interaction>, DataError>(None),
        fails_only_in_db(r),
        r matches Ok(Some(c)) ==> exists|row: Seq<SqlValue>| #[trigger] interaction_of_row(row) == Some(c),
        r matches Ok(Some(c)) ==> exists|row: Vec<SqlValue>, p: Seq<SqlParam>|
            #![trigger first_answered(select_one_sql(), p, 4, Some(row))]
            text_param(p, trim_spec(action_name@)) && first_answered(select_one_sql(), p, 4, Some(row))
                && interaction_of_row(row@) == Some(c),
        !is_blank_spec(action_name@) && r == Ok::<Option<Interaction>, DataError>(None) ==> exists|p: Seq<SqlParam>|
            #![trigger first_answered(select_one_sql(), p, 4, None)]
            text_param(p, trim_spec(action_name@)) && first_answered(select_one_sql(), p, 4, None),
{
    let action_name = trim(action_name);
    if action_name.is_empty() {
        return Ok(None);
    }
    let st = select_by_action_statement(action_name);
    let found = fetch_first(conn, &st, 4);
    proof {
        if let Ok(Some(row)) = &found {
            assert(first_answered(select_one_sql(), st.params@, 4, Some(*row)));
        }
        if let Ok(None) = &found {
            assert(first_answered(select_one_sql(), st.params@, 4, None));
        }
    }
    match found {
        Ok(Some(row)) => match interaction_from_row(&row) {
            Ok(a) => Ok(Some(a)),
            Err(e) => Err(e),
        },
        Ok(None) => Ok(None),
        Err(e) => Err(db_failure(concat3("Failed to fetch interaction for action `", action_name, "`"), e)),
    }
}

} // verus!
