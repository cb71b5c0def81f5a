//! Attacks: the attack details of an action (at most one per action).

use vstd::prelude::*;
use crate::cards::outcome::{after_change, after_save, removed_any};
use crate::db::{
    run, SqlStatement, db_failure, bad_row, col_i64, col_text, db_error, answered, fetch_all, fetch_first, first_answered, text_param,
    read_i64, read_text, SqlParam, SqlValue,
};
use crate::shared::{
    concat3, fails_only_in_db, is_error, non_empty_msg, require_non_empty_trimmed, DataError,
    ErrorKind,
};
use crate::text::{is_blank_spec, str_eq, trim, trim_spec};

verus! {

#[derive(Debug, Clone, Copy, PartialEq, Eq, Structural)]
pub enum DamageType {
    Arcane,
    Physical,
}

pub open spec fn damage_type_text(d: DamageType) -> Seq<char> {
    match d {
        DamageType::Arcane => "Arcane"@,
        DamageType::Physical => "Physical"@,
    }
}

pub open spec fn damage_type_from_text(s: Seq<char>) -> Option<DamageType> {
    if s == "Arcane"@ {
        Some(DamageType::Arcane)
    } else if s == "Physical"@ {
        Some(DamageType::Physical)
    } else {
        None
    }
}

impl DamageType {
    pub fn as_str(self) -> (r: &'static str)
        ensures
            r@ == damage_type_text(self),
    {
        match self {
            DamageType::Arcane => "Arcane",
            DamageType::Physical => "Physical",
        }
    }

    pub fn parse(s: &str) -> (r: Result<DamageType, DataError>)
        ensures
            match damage_type_from_text(s@) {
                Some(v) => r == Ok::<DamageType, DataError>(v),
                None => r matches Err(e) && is_error(
                    e,
                    ErrorKind::Invalid,
                    "Invalid DamageType `"@ + s@ + "`"@,
                ),
            },
    {
        if str_eq(s, "Arcane") {
            Ok(DamageType::Arcane)
        } else if str_eq(s, "Physical") {
            Ok(DamageType::Physical)
        } else {
            Err(DataError::new(ErrorKind::Invalid, concat3("Invalid DamageType `", s, "`")))
        }
    }
}

/// Reading back the text of a damage type gives the same damage type.
pub proof fn lemma_damage_type_text_roundtrip(v: DamageType)
    ensures
        damage_type_from_text(damage_type_text(v)) == Some(v),
{
    reveal_strlit("Arcane");
    reveal_strlit("Physical");
    assert("Arcane"@[0] != "Physical"@[0]);
}

#[derive(Debug, Clone, Copy, PartialEq, Eq, Structural)]
pub enum Skill {
    Strength,
    Focus,
    Intelligence,
    Knowledge,
    Agility,
}

pub open spec fn skill_text(s: Skill) -> Seq<char> {
    match s {
        Skill::Strength => "Strength"@,
        Skill::Focus => "Focus"@,
        Skill::Intelligence => "Intelligence"@,
        Skill::Knowledge => "Knowledge"@,
        Skill::Agility => "Agility"@,
    }
}

pub open spec fn skill_from_text(s: Seq<char>) -> Option<Skill> {
    if s == "Strength"@ {
        Some(Skill::Strength)
    } else if s == "Focus"@ {
        Some(Skill::Focus)
    } else if s == "Intelligence"@ {
        Some(Skill::Intelligence)
    } else if s == "Knowledge"@ {
        Some(Skill::Knowledge)
    } else if s == "Agility"@ {
        Some(Skill::Agility)
    } else {
        None
    }
}

impl Skill {
    pub fn as_str(self) -> (r: &'static str)
        ensures
            r@ == skill_text(self),
    {
        match self {
            Skill::Strength => "Strength",
            Skill::Focus => "Focus",
            Skill::Intelligence => "Intelligence",
            Skill::Knowledge => "Knowledge",
            Skill::Agility => "Agility",
        }
    }

    pub fn parse(s: &str) -> (r: Result<Skill, DataError>)
        ensures
            match skill_from_text(s@) {
                Some(v) => r == Ok::<Skill, DataError>(v),
                None => r matches Err(e) && is_error(
                    e,
                    ErrorKind::Invalid,
                    "Invalid Skill `"@ + s@ + "`"@,
                ),
            },
    {
        if str_eq(s, "Strength") {
            Ok(Skill::Strength)
        } else if str_eq(s, "Focus") {
            Ok(Skill::Focus)
        } else if str_eq(s, "Intelligence") {
            Ok(Skill::Intelligence)
        } else if str_eq(s, "Knowledge") {
            Ok(Skill::Knowledge)
        } else if str_eq(s, "Agility") {
            Ok(Skill::Agility)
        } else {
            Err(DataError::new(ErrorKind::Invalid, concat3("Invalid Skill `", s, "`")))
        }
    }
}

/// Reading back the text of a skill gives the same skill.
pub proof fn lemma_skill_text_roundtrip(v: Skill)
    ensures
        skill_from_text(skill_text(v)) == Some(v),
{
    reveal_strlit("Strength");
    reveal_strlit("Focus");
    reveal_strlit("Intelligence");
    reveal_strlit("Knowledge");
    reveal_strlit("Agility");
    assert("Strength"@[0] != "Focus"@[0] && "Strength"@[0] != "Intelligence"@[0] && "Strength"@[0]
        != "Knowledge"@[0] && "Strength"@[0] != "Agility"@[0]);
    assert("Focus"@[0] != "Intelligence"@[0] && "Focus"@[0] != "Knowledge"@[0] && "Focus"@[0]
        != "Agility"@[0]);
    assert("Intelligence"@[0] != "Knowledge"@[0] && "Intelligence"@[0] != "Agility"@[0]);
    assert("Knowledge"@[0] != "Agility"@[0]);
}

#[derive(Debug, Clone, PartialEq, Eq)]
pub struct Attack {
    /// The `actions.name` this attack belongs to.
    pub action_name: String,
    pub damage: i64,
    pub damage_type: DamageType,
    pub skill: Skill,
    /// 1-14 inclusive.
    pub target: i64,
    pub range: i64,
}

/// Why an attack may not be stored, if it may not.
pub open spec fn attack_problem(card: Attack) -> Option<Seq<char>> {
    if is_blank_spec(card.action_name@) {
        Some(non_empty_msg("Attack.action_name"@))
    } else if card.target < 1 || card.target > 14 {
        Some("Attack.target must be between 1 and 14 (inclusive)"@)
    } else if card.damage < 0 {
        Some("Attack.damage must be >= 0"@)
    } else if card.range < 0 {
        Some("Attack.range must be >= 0"@)
    } else {
        None
    }
}

/// Checks the fields of an attack: a non-blank action name, a target in
/// 1..=14 and a damage and range that are not negative.
pub fn validate_card(card: &Attack) -> (r: Result<(), DataError>)
    ensures
        match attack_problem(*card) {
            Some(m) => r matches Err(e) && is_error(e, ErrorKind::Invalid, m),
            None => r is Ok,
        },
{
    require_non_empty_trimmed("Attack.action_name", card.action_name.as_str())?;
    if card.target < 1 || card.target > 14 {
        return Err(DataError::invalid("Attack.target must be between 1 and 14 (inclusive)"));
    }
    if card.damage < 0 {
        return Err(DataError::invalid("Attack.damage must be >= 0"));
    }
    if card.range < 0 {
        return Err(DataError::invalid("Attack.range must be >= 0"));
    }
    Ok(())
}

/// The attack a row `action name, damage, damage_type, skill, target, range`
/// holds.
pub open spec fn attack_of_row(row: Seq<SqlValue>) -> Option<Attack> {
    match (
        col_text(row[0]),
        col_i64(row[1]),
        col_text(row[2]),
        col_text(row[3]),
        col_i64(row[4]),
        col_i64(row[5]),
    ) {
        (Some(action_name), Some(damage), Some(d), Some(s), Some(target), Some(range)) => match (
            damage_type_from_text(d@),
            skill_from_text(s@),
        ) {
            (Some(damage_type), Some(skill)) => Some(
                Attack { action_name, damage, damage_type, skill, target, range },
            ),
            _ => None,
        },
        _ => None,
    }
}

/// Reads an attack from a row `action name, damage, damage_type, skill,
/// target, range`.
pub fn attack_from_row(row: &Vec<SqlValue>) -> (r: Result<Attack, DataError>)
    requires
        row@.len() == 6,
    ensures
        match attack_of_row(row@) {
            Some(a) => r == Ok::<Attack, DataError>(a),
            None => r matches Err(e) && e.kind == ErrorKind::Db,
        },
{
    let damage_type = match read_text(&row[2]) {
        Some(t) => match DamageType::parse(t.as_str()) {
            Ok(v) => v,
            Err(_) => return Err(bad_row("attacks.damage_type")),
        },
        None => return Err(bad_row("attacks.damage_type")),
    };
    let skill = match read_text(&row[3]) {
        Some(t) => match Skill::parse(t.as_str()) {
            Ok(v) => v,
            Err(_) => return Err(bad_row("attacks.skill")),
        },
        None => return Err(bad_row("attacks.skill")),
    };
    let action_name = match read_text(&row[0]) {
        Some(v) => v,
        None => return Err(bad_row("actions.name")),
    };
    let damage = match read_i64(&row[1]) {
        Some(v) => v,
        None => return Err(bad_row("attacks.damage")),
    };
    let target = match read_i64(&row[4]) {
        Some(v) => v,
        None => return Err(bad_row("attacks.target")),
    };
    let range = match read_i64(&row[5]) {
        Some(v) => v,
        None => return Err(bad_row("attacks.range")),
    };
    Ok(Attack { action_name, damage, damage_type, skill, target, range })
}

pub open spec fn attacks_of_rows(rows: Seq<Vec<SqlValue>>, out: Seq<Attack>) -> bool {
    &&& out.len() == rows.len()
    &&& forall|i: int| 0 <= i < rows.len() ==> attack_of_row(#[trigger] rows[i]@) == Some(out[i])
}

/// Reads attacks from rows, in row order.
pub fn attacks_from_rows(rows: &Vec<Vec<SqlValue>>) -> (r: Result<Vec<Attack>, DataError>)
    requires
        forall|i: int| 0 <= i < rows@.len() ==> #[trigger] rows@[i]@.len() == 6,
    ensures
        match r {
            Ok(v) => attacks_of_rows(rows@, v@),
            Err(e) => e.kind == ErrorKind::Db && exists|i: int|
                0 <= i < rows@.len() && attack_of_row(#[trigger] rows@[i]@) is None,
        },
{
    let mut out: Vec<Attack> = Vec::new();
    let mut i: usize = 0;
    while i < rows.len()
        invariant
            i <= rows@.len(),
            forall|k: int| 0 <= k < rows@.len() ==> #[trigger] rows@[k]@.len() == 6,
            attacks_of_rows(rows@.subrange(0, i as int), out@),
        decreases rows@.len() - i,
    {
        let a = match attack_from_row(&rows[i]) {
            Ok(a) => a,
            Err(e) => return Err(e),
        };
        out.push(a);
        i = i + 1;
        assert forall|k: int| 0 <= k < i implies attack_of_row(
            #[trigger] rows@.subrange(0, i as int)[k]@,
        ) == Some(out@[k]) by {
            if k < i - 1 {
                assert(rows@.subrange(0, i as int)[k] == rows@.subrange(0, i - 1)[k]);
            }
        }
    }
    assert(rows@.subrange(0, i as int) =~= rows@);
    Ok(out)
}

/// The text of the query that reads one card by action name.
pub open spec fn select_one_sql() -> Seq<char> {
    "SELECT a.name, atk.damage, atk.damage_type, atk.skill, atk.target, atk.range FROM attacks atk JOIN actions a ON a.id = atk.action_id WHERE a.name = ?1"@
}

/// The text of the query that reads every card.
pub open spec fn select_all_sql() -> Seq<char> {
    "SELECT a.name, atk.damage, atk.damage_type, atk.skill, atk.target, atk.range FROM attacks atk JOIN actions a ON a.id = atk.action_id ORDER BY a.name ASC"@
}

/// The query that reads the attack of the action called `action_name`.
pub fn select_by_action_statement(action_name: &str) -> (r: SqlStatement)
    ensures
        r.sql@ == "SELECT a.name, atk.damage, atk.damage_type, atk.skill, atk.target, atk.range FROM attacks atk JOIN actions a ON a.id = atk.action_id WHERE a.name = ?1"@,
        r.params@.len() == 1,
        r.params@[0] matches SqlParam::Text(t) && t@ == action_name@,
{
    SqlStatement {
        sql: "SELECT a.name, atk.damage, atk.damage_type, atk.skill, atk.target, atk.range FROM attacks atk JOIN actions a ON a.id = atk.action_id WHERE a.name = ?1",
        params: vec![SqlParam::Text(action_name.to_owned())],
    }
}

/// The query that reads every attack, ordered by action name.
pub fn select_all_statement() -> (r: SqlStatement)
    ensures
        r.sql@ == "SELECT a.name, atk.damage, atk.damage_type, atk.skill, atk.target, atk.range FROM attacks atk JOIN actions a ON a.id = atk.action_id ORDER BY a.name ASC"@,
        r.params@.len() == 0,
{
    SqlStatement {
        sql: "SELECT a.name, atk.damage, atk.damage_type, atk.skill, atk.target, atk.range FROM attacks atk JOIN actions a ON a.id = atk.action_id ORDER BY a.name ASC",
        params: Vec::new(),
    }
}

/// The query that reads the id of the action called `action_name`.
pub fn action_id_statement(action_name: &str) -> (r: SqlStatement)
    ensures
        r.sql@ == "SELECT id FROM actions WHERE name = ?1"@,
        r.params@.len() == 1,
        r.params@[0] matches SqlParam::Text(t) && t@ == action_name@,
{
    SqlStatement {
        sql: "SELECT id FROM actions WHERE name = ?1",
        params: vec![SqlParam::Text(action_name.to_owned())],
    }
}

/// The query that finds whether action `action_id` has an attack.
pub fn exists_statement(action_id: i64) -> (r: SqlStatement)
    ensures
        r.sql@ == "SELECT 1 FROM attacks WHERE action_id = ?1"@,
        r.params@ == seq![SqlParam::Integer(action_id)],
{
    SqlStatement {
        sql: "SELECT 1 FROM attacks WHERE action_id = ?1",
        params: vec![SqlParam::Integer(action_id)],
    }
}

/// Lists attacks ordered by action name (ascending).
pub fn list_cards(conn: &rusqlite::Connection) -> (r: Result<Vec<Attack>, DataError>)
    ensures
        r matches Ok(v) ==> exists|rows: Seq<Vec<SqlValue>>| #[trigger] attacks_of_rows(rows, v@),
        r matches Ok(v) ==> exists|rows: Seq<Vec<SqlValue>>| answered(select_all_sql(), seq![], 6, rows)
            && #[trigger] attacks_of_rows(rows, v@),
        fails_only_in_db(r),
{
    let st = select_all_statement();
    let found = fetch_all(conn, &st, 6);
    proof {
        if let Ok(rows) = &found {
            assert(st.params@ =~= seq![]);
            assert(answered(select_all_sql(), seq![], 6, rows@));
        }
    }
    match found {
        Ok(rows) => attacks_from_rows(&rows),
        Err(e) => Err(db_failure("Failed to query attacks".to_owned(), e)),
    }
}

/// The id of the action with the given (trimmed) name; a blank name has none.
fn get_action_id(conn: &rusqlite::Connection, action_name: &str) -> (r: Result<
    Option<i64>,
    DataError,
>)
    ensures
        is_blank_spec(action_name@) ==> r == Ok::<Option<i64>, DataError>(None),
        fails_only_in_db(r),
{
    let action_name = trim(action_name);
    if action_name.is_empty() {
        return Ok(None);
    }
    let st = action_id_statement(action_name);
    match fetch_first(conn, &st, 1) {
        Ok(Some(row)) => match read_i64(&row[0]) {
            Some(v) => Ok(Some(v)),
            None => Err(bad_row("actions.id")),
        },
        Ok(None) => Ok(None),
        Err(e) => Err(db_error(e)),
    }
}

/// The errors of a write that validates `card` first.
pub open spec fn write_errors<T>(card: Attack, r: Result<T, DataError>) -> bool {
    &&& attack_problem(card) matches Some(m) ==> (r matches Err(e) && is_error(
        e,
        ErrorKind::Invalid,
        m,
    ))
    &&& attack_problem(card) is None ==> fails_only_in_db(r)
}

/// The statement that creates the attack `card` of action `action_id` (a plain insert: one attack
/// per action).
pub fn insert_statement(action_id: i64, card: &Attack) -> (r: SqlStatement)
    ensures
        r.sql@ == "INSERT INTO attacks (action_id, damage, damage_type, skill, target, range) VALUES (?1, ?2, ?3, ?4, ?5, ?6)"@,
        r.params@.len() == 6,
        r.params@[0] == SqlParam::Integer(action_id),
        r.params@[1] == SqlParam::Integer(card.damage),
        r.params@[2] matches SqlParam::Text(t) && t@ == damage_type_text(card.damage_type),
        r.params@[3] matches SqlParam::Text(t) && t@ == skill_text(card.skill),
        r.params@[4] == SqlParam::Integer(card.target),
        r.params@[5] == SqlParam::Integer(card.range),
{
    SqlStatement {
        sql: "INSERT INTO attacks (action_id, damage, damage_type, skill, target, range) VALUES (?1, ?2, ?3, ?4, ?5, ?6)",
        params: vec![
            SqlParam::Integer(action_id),
            SqlParam::Integer(card.damage),
            SqlParam::Text(card.damage_type.as_str().to_owned()),
            SqlParam::Text(card.skill.as_str().to_owned()),
            SqlParam::Integer(card.target),
            SqlParam::Integer(card.range),
        ],
    }
}

/// The statement that updates the attack of action `action_id` (an update only: it never inserts).
pub fn update_statement(action_id: i64, card: &Attack) -> (r: SqlStatement)
    ensures
        r.sql@ == "UPDATE attacks SET damage = ?2, damage_type = ?3, skill = ?4, target = ?5, range = ?6 WHERE action_id = ?1"@,
        r.params@.len() == 6,
        r.params@[0] == SqlParam::Integer(action_id),
        r.params@[1] == SqlParam::Integer(card.damage),
        r.params@[2] matches SqlParam::Text(t) && t@ == damage_type_text(card.damage_type),
        r.params@[3] matches SqlParam::Text(t) && t@ == skill_text(card.skill),
        r.params@[4] == SqlParam::Integer(card.target),
        r.params@[5] == SqlParam::Integer(card.range),
{
    SqlStatement {
        sql: "UPDATE attacks SET damage = ?2, damage_type = ?3, skill = ?4, target = ?5, range = ?6 WHERE action_id = ?1",
        params: vec![
            SqlParam::Integer(action_id),
            SqlParam::Integer(card.damage),
            SqlParam::Text(card.damage_type.as_str().to_owned()),
            SqlParam::Text(card.skill.as_str().to_owned()),
            SqlParam::Integer(card.target),
            SqlParam::Integer(card.range),
        ],
    }
}

/// The statement that moves the attack of action `old_action_id` to action `new_action_id` and sets
/// its fields.
pub fn move_statement(old_action_id: i64, new_action_id: i64, card: &Attack) -> (r: SqlStatement)
    ensures
        r.sql@ == "UPDATE attacks SET action_id = ?2, damage = ?3, damage_type = ?4, skill = ?5, target = ?6, range = ?7 WHERE action_id = ?1"@,
        r.params@.len() == 7,
        r.params@[0] == SqlParam::Integer(old_action_id),
        r.params@[1] == SqlParam::Integer(new_action_id),
        r.params@[2] == SqlParam::Integer(card.damage),
        r.params@[3] matches SqlParam::Text(t) && t@ == damage_type_text(card.damage_type),
        r.params@[4] matches SqlParam::Text(t) && t@ == skill_text(card.skill),
        r.params@[5] == SqlParam::Integer(card.target),
        r.params@[6] == SqlParam::Integer(card.range),
{
    SqlStatement {
        sql: "UPDATE attacks SET action_id = ?2, damage = ?3, damage_type = ?4, skill = ?5, target = ?6, range = ?7 WHERE action_id = ?1",
        params: vec![
            SqlParam::Integer(old_action_id),
            SqlParam::Integer(new_action_id),
            SqlParam::Integer(card.damage),
            SqlParam::Text(card.damage_type.as_str().to_owned()),
            SqlParam::Text(card.skill.as_str().to_owned()),
            SqlParam::Integer(card.target),
            SqlParam::Integer(card.range),
        ],
    }
}

/// The statement that deletes the attack of action `action_id`.
pub fn delete_statement(action_id: i64) -> (r: SqlStatement)
    ensures
        r.sql@ == "DELETE FROM attacks WHERE action_id = ?1"@,
        r.params@.len() == 1,
        r.params@[0] == SqlParam::Integer(action_id),
{
    SqlStatement {
        sql: "DELETE FROM attacks WHERE action_id = ?1",
        params: vec![SqlParam::Integer(action_id)],
    }
}

/// Inserts a new attack for an existing action (by action name).
///
/// The action must exist (`NotFound` otherwise); there is at most one attack
/// per action (the schema's `UNIQUE(action_id)`).
pub fn save_card(conn: &rusqlite::Connection, card: &Attack) -> (r: Result<Attack, DataError>)
    ensures
        attack_problem(*card) matches Some(m) ==> (r matches Err(e) && is_error(
            e,
            ErrorKind::Invalid,
            m,
        )),
        attack_problem(*card) is None ==> (r matches Err(e) ==> (e.kind == ErrorKind::Db
            || is_error(
            e,
            ErrorKind::NotFound,
            "Action `"@ + card.action_name@ + "` not found"@,
        ))),
{
    validate_card(card)?;
    let action_id = match get_action_id(conn, card.action_name.as_str())? {
        Some(id) => id,
        None => {
            return Err(
                DataError::new(
                    ErrorKind::NotFound,
                    concat3("Action `", card.action_name.as_str(), "` not found"),
                ),
            )
        },
    };
    let st = insert_statement(action_id, card);
    if let Err(e) = run(conn, &st) {
        return Err(db_failure(concat3("Failed to save attack for action `", card.action_name.as_str(), "`"), e));
    }
    let reloaded = get_card(conn, card.action_name.as_str())?;
    after_save(reloaded, concat3("Attack for action `", card.action_name.as_str(), "` was saved but could not be reloaded"))
}

/// Updates the attack of an existing action; `Ok(None)` if the action does
/// not exist or has no attack yet.
pub fn update_card(conn: &rusqlite::Connection, card: &Attack) -> (r: Result<
    Option<Attack>,
    DataError,
>)
    ensures
        write_errors(*card, r),
{
    validate_card(card)?;
    let action_id = match get_action_id(conn, card.action_name.as_str())? {
        Some(id) => id,
        None => return Ok(None),
    };
    let st = update_statement(action_id, card);
    let changed = match run(conn, &st) {
        Ok(n) => n,
        Err(e) => return Err(db_failure(concat3("Failed to update attack for action `", card.action_name.as_str(), "`"), e)),
    };
    let reload = || -> (r: Result<Option<Attack>, DataError>)
        ensures
            fails_only_in_db(r),
        {
            let found = get_card(conn, card.action_name.as_str());
            found
        };
    after_change(changed, reload)
}

/// Moves an attack to another action (by name) and updates its fields.
///
/// When both names trim to the same text this behaves like `update_card`.
/// Returns `Ok(None)` if the old action does not exist or has no attack, or
/// if the new action does not exist.
pub fn rename_and_update_card(
    conn: &rusqlite::Connection,
    old_action_name: &str,
    card: &Attack,
) -> (r: Result<Option<Attack>, DataError>)
    ensures
        is_blank_spec(old_action_name@) ==> (r matches Err(e) && is_error(
            e,
            ErrorKind::Invalid,
            non_empty_msg("old_action_name"@),
        )),
        !is_blank_spec(old_action_name@) ==> write_errors(*card, r),
{
    let old_action_name = require_non_empty_trimmed("old_action_name", old_action_name)?;
    validate_card(card)?;
    if str_eq(old_action_name, trim(card.action_name.as_str())) {
        return update_card(conn, card);
    }
    let old_action_id = match get_action_id(conn, old_action_name)? {
        Some(id) => id,
        None => return Ok(None),
    };
    let check = exists_statement(old_action_id);
    match fetch_first(conn, &check, 1) {
        Ok(Some(_)) => {},
        Ok(None) => return Ok(None),
        Err(e) => return Err(db_error(e)),
    }
    let new_action_id = match get_action_id(conn, card.action_name.as_str())? {
        Some(id) => id,
        None => return Ok(None),
    };
    let st = move_statement(old_action_id, new_action_id, card);
    let changed = match run(conn, &st) {
        Ok(n) => n,
        Err(e) => return Err(db_failure(concat3(concat3("Failed to move/update attack from action `", old_action_name, "` to `").as_str(), card.action_name.as_str(), "`"), e)),
    };
    let reload = || -> (r: Result<Option<Attack>, DataError>)
        ensures
            fails_only_in_db(r),
        {
            let found = get_card(conn, card.action_name.as_str());
            found
        };
    after_change(changed, reload)
}

/// Deletes the attack of an action (by name): `Ok(true)` if a row was
/// deleted, `Ok(false)` if nothing matched.
pub fn delete_card(conn: &rusqlite::Connection, action_name: &str) -> (r: Result<bool, DataError>)
    ensures
        is_blank_spec(action_name@) ==> r == Ok::<bool, DataError>(false),
        fails_only_in_db(r),
{
    let action_name = trim(action_name);
    if action_name.is_empty() {
        return Ok(false);
    }
    let action_id = match get_action_id(conn, action_name)? {
        Some(id) => id,
        None => return Ok(false),
    };
    let st = delete_statement(action_id);
    match run(conn, &st) {
        Ok(n) => Ok(removed_any(n)),
        Err(e) => Err(db_failure(concat3("Failed to delete attack for action `", action_name, "`"), e)),
    }
}

/// Loads the attack of an action (by trimmed name); `Ok(None)` if not found.
pub fn get_card(conn: &rusqlite::Connection, action_name: &str) -> (r: Result<
    Option<Attack>,
    DataError,
>)
    ensures
        is_blank_spec(action_name@) ==> r == Ok::<Option<Attack>, DataError>(None),
        fails_only_in_db(r),
        r matches Ok(Some(c)) ==> exists|row: Seq<SqlValue>| #[trigger] attack_of_row(row) == Some(c),
        r matches Ok(Some(c)) ==> exists|row: Vec<SqlValue>, p: Seq<SqlParam>|
            #![trigger first_answered(select_one_sql(), p, 6, Some(row))]
            text_param(p, trim_spec(action_name@)) && first_answered(select_one_sql(), p, 6, Some(row))
                && attack_of_row(row@) == Some(c),
        !is_blank_spec(action_name@) && r == Ok::<Option<Attack>, DataError>(None) ==> exists|p: Seq<SqlParam>|
            #![trigger first_answered(select_one_sql(), p, 6, None)]
            text_param(p, trim_spec(action_name@)) && first_answered(select_one_sql(), p, 6, None),
{
    let action_name = trim(action_name);
    if action_name.is_empty() {
        return Ok(None);
    }
    let st = select_by_action_statement(action_name);
    let found = fetch_first(conn, &st, 6);
    proof {
        if let Ok(Some(row)) = &found {
            assert(first_answered(select_one_sql(), st.params@, 6, Some(*row)));
        }
        if let Ok(None) = &found {
            assert(first_answered(select_one_sql(), st.params@, 6, None));
        }
    }
    match found {
        Ok(Some(row)) => match attack_from_row(&row) {
            Ok(a) => Ok(Some(a)),
            Err(e) => Err(e),
        },
        Ok(None) => Ok(None),
        Err(e) => Err(db_failure(concat3("Failed to fetch attack for action `", action_name, "`"), e)),
    }
}

} // verus!
