//! Armor modifiers: a value with a suit and a damage type, each optionally
//! linked to one item or one level.

use vstd::prelude::*;
use crate::db::{
    db_failure, bad_row, begin_transaction, col_i64, col_opt_text, col_text, commit, db_error,
    fetch_all, fetch_first, last_insert_rowid, read_i64, read_opt_text, read_text, run,
    transaction_connection, SqlParam, SqlStatement, SqlValue,
};
use crate::num::{decimal_spec, i64_to_string};
use crate::shared::{concat2, concat3, fails_only_in_db, is_error, DataError, ErrorKind};
use crate::text::str_eq;

verus! {

#[derive(Debug, Clone, Copy, PartialEq, Eq, Structural)]
pub enum Suit {
    Spades,
    Clubs,
    Diamonds,
    Hearts,
}

pub open spec fn suit_text(s: Suit) -> Seq<char> {
    match s {
        Suit::Spades => "Spades"@,
        Suit::Clubs => "Clubs"@,
        Suit::Diamonds => "Diamonds"@,
        Suit::Hearts => "Hearts"@,
    }
}

pub open spec fn suit_from_text(s: Seq<char>) -> Option<Suit> {
    if s == "Spades"@ {
        Some(Suit::Spades)
    } else if s == "Clubs"@ {
        Some(Suit::Clubs)
    } else if s == "Diamonds"@ {
        Some(Suit::Diamonds)
    } else if s == "Hearts"@ {
        Some(Suit::Hearts)
    } else {
        None
    }
}

impl Suit {
    pub fn as_str(self) -> (r: &'static str)
        ensures
            r@ == suit_text(self),
    {
        match self {
            Suit::Spades => "Spades",
            Suit::Clubs => "Clubs",
            Suit::Diamonds => "Diamonds",
            Suit::Hearts => "Hearts",
        }
    }

    pub fn parse(s: &str) -> (r: Result<Suit, DataError>)
        ensures
            match suit_from_text(s@) {
                Some(v) => r == Ok::<Suit, DataError>(v),
                None => r matches Err(e) && is_error(e, ErrorKind::Invalid, "Invalid suit: "@ + s@),
            },
    {
        if str_eq(s, "Spades") {
            Ok(Suit::Spades)
        } else if str_eq(s, "Clubs") {
            Ok(Suit::Clubs)
        } else if str_eq(s, "Diamonds") {
            Ok(Suit::Diamonds)
        } else if str_eq(s, "Hearts") {
            Ok(Suit::Hearts)
        } else {
            Err(DataError::new(ErrorKind::Invalid, crate::shared::concat2("Invalid suit: ", s)))
        }
    }
}

/// Reading back the text of a suit gives the same suit.
pub proof fn lemma_suit_text_roundtrip(v: Suit)
    ensures
        suit_from_text(suit_text(v)) == Some(v),
{
    reveal_strlit("Spades");
    reveal_strlit("Clubs");
    reveal_strlit("Diamonds");
    reveal_strlit("Hearts");
    assert("Spades"@ != "Clubs"@ && "Spades"@ != "Diamonds"@ && "Spades"@ != "Hearts"@) by {
        assert("Spades"@[0] != "Clubs"@[0]);
        assert("Spades"@[0] != "Diamonds"@[0]);
        assert("Spades"@[0] != "Hearts"@[0]);
    }
    assert("Clubs"@ != "Diamonds"@ && "Clubs"@ != "Hearts"@) by {
        assert("Clubs"@[0] != "Diamonds"@[0]);
        assert("Clubs"@[0] != "Hearts"@[0]);
    }
    assert("Diamonds"@ != "Hearts"@) by {
        assert("Diamonds"@[0] != "Hearts"@[0]);
    }
}

#[derive(Debug, Clone, Copy, PartialEq, Eq, Structural)]
pub enum DamageType {
    Arcane,
    Physical,
}

pub open spec fn damage_type_text(d: DamageType) -> Seq<char> {
    match d {
        DamageType::Arcane => "Arcane"@,
        DamageType::Physical => "Physical"@,
    }
}

pub open spec fn damage_type_from_text(s: Seq<char>) -> Option<DamageType> {
    if s == "Arcane"@ {
        Some(DamageType::Arcane)
    } else if s == "Physical"@ {
        Some(DamageType::Physical)
    } else {
        None
    }
}

impl DamageType {
    pub fn as_str(self) -> (r: &'static str)
        ensures
            r@ == damage_type_text(self),
    {
        match self {
            DamageType::Arcane => "Arcane",
            DamageType::Physical => "Physical",
        }
    }

    pub fn parse(s: &str) -> (r: Result<DamageType, DataError>)
        ensures
            match damage_type_from_text(s@) {
                Some(v) => r == Ok::<DamageType, DataError>(v),
                None => r matches Err(e) && is_error(
                    e,
                    ErrorKind::Invalid,
                    "Invalid damage type: "@ + s@,
                ),
            },
    {
        if str_eq(s, "Arcane") {
            Ok(DamageType::Arcane)
        } else if str_eq(s, "Physical") {
            Ok(DamageType::Physical)
        } else {
            Err(
                DataError::new(
                    ErrorKind::Invalid,
                    crate::shared::concat2("Invalid damage type: ", s),
                ),
            )
        }
    }
}

/// Reading back the text of a damage type gives the same damage type.
pub proof fn lemma_damage_type_text_roundtrip(v: DamageType)
    ensures
        damage_type_from_text(damage_type_text(v)) == Some(v),
{
    reveal_strlit("Arcane");
    reveal_strlit("Physical");
    assert("Arcane"@[0] != "Physical"@[0]);
}

#[derive(Debug, Clone, PartialEq, Eq)]
pub struct ArmorModifier {
    pub card_id: i64,
    pub value: i64,
    pub suit: Suit,
    pub damage_type: DamageType,
}

#[derive(Debug, Clone, PartialEq, Eq)]
pub struct ArmorModifierRow {
    pub id: i64,
    pub card_id: i64,
    pub value: i64,
    pub suit: Suit,
    pub damage_type: DamageType,
    // Association (at most one is Some at a time, or both None).
    pub item_name: Option<String>,
    pub level_name: Option<String>,
}

#[derive(Debug, Clone, Copy, PartialEq, Eq, Structural)]
pub enum ArmorModifierAssociationKind {
    /// Linked to nothing.
    Unlinked,
    Item,
    Level,
}

/// `"Armor modifier not found (id=<id>)"`.
pub open spec fn armor_not_found_msg(id: i64) -> Seq<char> {
    "Armor modifier not found (id="@ + decimal_spec(id as int) + ")"@
}

fn not_found(id: i64) -> (r: DataError)
    ensures
        is_error(r, ErrorKind::NotFound, armor_not_found_msg(id)),
{
    let digits = i64_to_string(id);
    DataError::new(
        ErrorKind::NotFound,
        concat3("Armor modifier not found (id=", digits.as_str(), ")"),
    )
}

pub fn armor_params(armor: &ArmorModifier) -> (r: Vec<SqlParam>)
    ensures
        r@.len() == 4,
        r@[0] == SqlParam::Integer(armor.card_id),
        r@[1] == SqlParam::Integer(armor.value),
        r@[2] matches SqlParam::Text(t) && t@ == suit_text(armor.suit),
        r@[3] matches SqlParam::Text(t) && t@ == damage_type_text(armor.damage_type),
{
    vec![
        SqlParam::Integer(armor.card_id),
        SqlParam::Integer(armor.value),
        SqlParam::Text(armor.suit.as_str().to_owned()),
        SqlParam::Text(armor.damage_type.as_str().to_owned()),
    ]
}

/// What an update or delete of armor modifier `id` that changed `changed`
/// rows reports: success, or `NotFound` when there is no such modifier.
pub fn changed_or_missing(changed: usize, id: i64) -> (r: Result<(), DataError>)
    ensures
        changed == 0 ==> (r matches Err(e) && is_error(e, ErrorKind::NotFound, armor_not_found_msg(id))),
        changed > 0 ==> r is Ok,
{
    if changed == 0 {
        return Err(not_found(id));
    }
    Ok(())
}

/// The statement that stores a new armor modifier.
pub fn insert_statement(armor: &ArmorModifier) -> (r: SqlStatement)
    ensures
        r.sql@ == "INSERT INTO armor_modifiers (card_id, value, suit, damage_type) VALUES (?1, ?2, ?3, ?4)"@,
        r.params@.len() == 4,
        r.params@[0] == SqlParam::Integer(armor.card_id),
        r.params@[1] == SqlParam::Integer(armor.value),
        r.params@[2] matches SqlParam::Text(t) && t@ == suit_text(armor.suit),
        r.params@[3] matches SqlParam::Text(t) && t@ == damage_type_text(armor.damage_type),
{
    SqlStatement {
        sql: "INSERT INTO armor_modifiers (card_id, value, suit, damage_type) VALUES (?1, ?2, ?3, ?4)",
        params: armor_params(armor),
    }
}

/// The statement that overwrites armor modifier `id` with `armor`; it
/// touches no other row and inserts none.
pub fn update_statement(id: i64, armor: &ArmorModifier) -> (r: SqlStatement)
    ensures
        r.sql@ == "UPDATE armor_modifiers SET card_id = ?2, value = ?3, suit = ?4, damage_type = ?5 WHERE id = ?1"@,
        r.params@.len() == 5,
        r.params@[0] == SqlParam::Integer(id),
        r.params@[1] == SqlParam::Integer(armor.card_id),
        r.params@[2] == SqlParam::Integer(armor.value),
        r.params@[3] matches SqlParam::Text(t) && t@ == suit_text(armor.suit),
        r.params@[4] matches SqlParam::Text(t) && t@ == damage_type_text(armor.damage_type),
{
    SqlStatement {
        sql: "UPDATE armor_modifiers SET card_id = ?2, value = ?3, suit = ?4, damage_type = ?5 WHERE id = ?1",
        params: vec![
            SqlParam::Integer(id),
            SqlParam::Integer(armor.card_id),
            SqlParam::Integer(armor.value),
            SqlParam::Text(armor.suit.as_str().to_owned()),
            SqlParam::Text(armor.damage_type.as_str().to_owned()),
        ],
    }
}

/// The statement that removes armor modifier `id`.
pub fn delete_statement(id: i64) -> (r: SqlStatement)
    ensures
        r.sql@ == "DELETE FROM armor_modifiers WHERE id = ?1"@,
        r.params@ == seq![SqlParam::Integer(id)],
{
    SqlStatement { sql: "DELETE FROM armor_modifiers WHERE id = ?1", params: vec![SqlParam::Integer(id)] }
}

/// The statement that links armor modifier `armor_modifier_id` to the item
/// (`to_item`) or level with id `card_id`.
pub fn link_statement(to_item: bool, card_id: i64, armor_modifier_id: i64) -> (r: SqlStatement)
    ensures
        to_item ==> r.sql@ == "INSERT INTO item_armor_modifiers (item_id, armor_modifier_id) VALUES (?1, ?2)"@,
        !to_item ==> r.sql@ == "INSERT INTO level_armor_modifiers (level_id, armor_modifier_id) VALUES (?1, ?2)"@,
        r.params@ == seq![SqlParam::Integer(card_id), SqlParam::Integer(armor_modifier_id)],
{
    let params = vec![SqlParam::Integer(card_id), SqlParam::Integer(armor_modifier_id)];
    if to_item {
        SqlStatement {
            sql: "INSERT INTO item_armor_modifiers (item_id, armor_modifier_id) VALUES (?1, ?2)",
            params,
        }
    } else {
        SqlStatement {
            sql: "INSERT INTO level_armor_modifiers (level_id, armor_modifier_id) VALUES (?1, ?2)",
            params,
        }
    }
}

/// The two statements that remove every link of armor modifier
/// `armor_modifier_id`: first its item link, then its level link.
pub fn clear_statements(armor_modifier_id: i64) -> (r: (SqlStatement, SqlStatement))
    ensures
        r.0.sql@ == "DELETE FROM item_armor_modifiers WHERE armor_modifier_id = ?1"@,
        r.0.params@ == seq![SqlParam::Integer(armor_modifier_id)],
        r.1.sql@ == "DELETE FROM level_armor_modifiers WHERE armor_modifier_id = ?1"@,
        r.1.params@ == seq![SqlParam::Integer(armor_modifier_id)],
{
    (
        SqlStatement {
            sql: "DELETE FROM item_armor_modifiers WHERE armor_modifier_id = ?1",
            params: vec![SqlParam::Integer(armor_modifier_id)],
        },
        SqlStatement {
            sql: "DELETE FROM level_armor_modifiers WHERE armor_modifier_id = ?1",
            params: vec![SqlParam::Integer(armor_modifier_id)],
        },
    )
}

/// Inserts a new armor modifier.
pub fn insert(conn: &rusqlite::Connection, armor: &ArmorModifier) -> (r: Result<(), DataError>)
    ensures
        fails_only_in_db(r),
{
    let st = insert_statement(armor);
    match run(conn, &st) {
        Ok(_) => Ok(()),
        Err(e) => {
            let ctx = concat3("insert armor modifier (card_id=", i64_to_string(armor.card_id).as_str(), ")");
            Err(db_failure(ctx, e))
        },
    }
}

/// Inserts a new armor modifier and returns its new `id`.
pub fn insert_returning_id(conn: &rusqlite::Connection, armor: &ArmorModifier) -> (r: Result<
    i64,
    DataError,
>)
    ensures
        fails_only_in_db(r),
{
    insert(conn, armor)?;
    Ok(last_insert_rowid(conn))
}

/// Updates an existing armor modifier by id.
pub fn update_by_id(conn: &rusqlite::Connection, id: i64, armor: &ArmorModifier) -> (r: Result<
    (),
    DataError,
>)
    ensures
        r matches Err(e) ==> (e.kind == ErrorKind::Db || is_error(
            e,
            ErrorKind::NotFound,
            armor_not_found_msg(id),
        )),
{
    let st = update_statement(id, armor);
    let changed = match run(conn, &st) {
        Ok(n) => n,
        Err(e) => return Err(db_failure(concat2("update armor modifier id=", i64_to_string(id).as_str()), e)),
    };
    changed_or_missing(changed, id)
}

/// Deletes an armor modifier by id.
pub fn delete_by_id(conn: &rusqlite::Connection, id: i64) -> (r: Result<(), DataError>)
    ensures
        r matches Err(e) ==> (e.kind == ErrorKind::Db || is_error(
            e,
            ErrorKind::NotFound,
            armor_not_found_msg(id),
        )),
{
    let st = delete_statement(id);
    let changed = match run(conn, &st) {
        Ok(n) => n,
        Err(e) => return Err(db_failure(concat2("delete armor modifier id=", i64_to_string(id).as_str()), e)),
    };
    changed_or_missing(changed, id)
}

/// The armor modifier a row `id, card_id, value, suit, damage_type,
/// item name, level name` holds.
pub open spec fn armor_row_of(row: Seq<SqlValue>) -> Option<ArmorModifierRow> {
    match (
        col_i64(row[0]),
        col_i64(row[1]),
        col_i64(row[2]),
        col_text(row[3]),
        col_text(row[4]),
        col_opt_text(row[5]),
        col_opt_text(row[6]),
    ) {
        (Some(id), Some(card_id), Some(value), Some(s), Some(d), Some(item_name), Some(level_name)) => {
            match (suit_from_text(s@), damage_type_from_text(d@)) {
                (Some(suit), Some(damage_type)) => Some(
                    ArmorModifierRow { id, card_id, value, suit, damage_type, item_name, level_name },
                ),
                _ => None,
            }
        },
        _ => None,
    }
}

/// Reads an armor modifier from a row `id, card_id, value, suit,
/// damage_type, item name, level name`.
pub fn armor_row_from_row(row: &Vec<SqlValue>) -> (r: Result<ArmorModifierRow, DataError>)
    requires
        row@.len() == 7,
    ensures
        match armor_row_of(row@) {
            Some(a) => r == Ok::<ArmorModifierRow, DataError>(a),
            None => r matches Err(e) && e.kind == ErrorKind::Db,
        },
{
    let suit = match read_text(&row[3]) {
        Some(t) => match Suit::parse(t.as_str()) {
            Ok(s) => s,
            Err(_) => return Err(bad_row("armor_modifiers.suit")),
        },
        None => return Err(bad_row("armor_modifiers.suit")),
    };
    let damage_type = match read_text(&row[4]) {
        Some(t) => match DamageType::parse(t.as_str()) {
            Ok(d) => d,
            Err(_) => return Err(bad_row("armor_modifiers.damage_type")),
        },
        None => return Err(bad_row("armor_modifiers.damage_type")),
    };
    let id = match read_i64(&row[0]) {
        Some(v) => v,
        None => return Err(bad_row("armor_modifiers.id")),
    };
    let card_id = match read_i64(&row[1]) {
        Some(v) => v,
        None => return Err(bad_row("armor_modifiers.card_id")),
    };
    let value = match read_i64(&row[2]) {
        Some(v) => v,
        None => return Err(bad_row("armor_modifiers.value")),
    };
    let item_name = match read_opt_text(&row[5]) {
        Some(v) => v,
        None => return Err(bad_row("items.name")),
    };
    let level_name = match read_opt_text(&row[6]) {
        Some(v) => v,
        None => return Err(bad_row("levels.name")),
    };
    Ok(ArmorModifierRow { id, card_id, value, suit, damage_type, item_name, level_name })
}

pub open spec fn armor_rows_of(rows: Seq<Vec<SqlValue>>, out: Seq<ArmorModifierRow>) -> bool {
    &&& out.len() == rows.len()
    &&& forall|i: int| 0 <= i < rows.len() ==> armor_row_of(#[trigger] rows[i]@) == Some(out[i])
}

/// Reads armor modifiers from rows, in row order.
pub fn armor_rows_from_rows(rows: &Vec<Vec<SqlValue>>) -> (r: Result<
    Vec<ArmorModifierRow>,
    DataError,
>)
    requires
        forall|i: int| 0 <= i < rows@.len() ==> #[trigger] rows@[i]@.len() == 7,
    ensures
        match r {
            Ok(v) => armor_rows_of(rows@, v@),
            Err(e) => e.kind == ErrorKind::Db && exists|i: int|
                0 <= i < rows@.len() && armor_row_of(#[trigger] rows@[i]@) is None,
        },
{
    let mut out: Vec<ArmorModifierRow> = Vec::new();
    let mut i: usize = 0;
    while i < rows.len()
        invariant
            i <= rows@.len(),
            forall|k: int| 0 <= k < rows@.len() ==> #[trigger] rows@[k]@.len() == 7,
            armor_rows_of(rows@.subrange(0, i as int), out@),
        decreases rows@.len() - i,
    {
        let a = match armor_row_from_row(&rows[i]) {
            Ok(a) => a,
            Err(e) => return Err(e),
        };
        out.push(a);
        i = i + 1;
        assert forall|k: int| 0 <= k < i implies armor_row_of(
            #[trigger] rows@.subrange(0, i as int)[k]@,
        ) == Some(out@[k]) by {
            if k < i - 1 {
                assert(rows@.subrange(0, i as int)[k] == rows@.subrange(0, i - 1)[k]);
            }
        }
    }
    assert(rows@.subrange(0, i as int) =~= rows@);
    Ok(out)
}

/// The query that reads the armor modifier with id `id`, with any association names.
pub fn select_by_id_statement(id: i64) -> (r: SqlStatement)
    ensures
        r.sql@ == "SELECT am.id, am.card_id, am.value, am.suit, am.damage_type, i.name AS item_name, l.name AS level_name FROM armor_modifiers am LEFT JOIN item_armor_modifiers iam ON iam.armor_modifier_id = am.id LEFT JOIN items i ON i.id = iam.item_id LEFT JOIN level_armor_modifiers lam ON lam.armor_modifier_id = am.id LEFT JOIN levels l ON l.id = lam.level_id WHERE am.id = ?1"@,
        r.params@ == seq![SqlParam::Integer(id)],
{
    SqlStatement {
        sql: "SELECT am.id, am.card_id, am.value, am.suit, am.damage_type, i.name AS item_name, l.name AS level_name FROM armor_modifiers am LEFT JOIN item_armor_modifiers iam ON iam.armor_modifier_id = am.id LEFT JOIN items i ON i.id = iam.item_id LEFT JOIN level_armor_modifiers lam ON lam.armor_modifier_id = am.id LEFT JOIN levels l ON l.id = lam.level_id WHERE am.id = ?1",
        params: vec![SqlParam::Integer(id)],
    }
}

/// The query that reads every armor modifier, ordered by id, with any association names.
pub fn select_all_statement() -> (r: SqlStatement)
    ensures
        r.sql@ == "SELECT am.id, am.card_id, am.value, am.suit, am.damage_type, i.name AS item_name, l.name AS level_name FROM armor_modifiers am LEFT JOIN item_armor_modifiers iam ON iam.armor_modifier_id = am.id LEFT JOIN items i ON i.id = iam.item_id LEFT JOIN level_armor_modifiers lam ON lam.armor_modifier_id = am.id LEFT JOIN levels l ON l.id = lam.level_id ORDER BY am.id ASC"@,
        r.params@.len() == 0,
{
    SqlStatement {
        sql: "SELECT am.id, am.card_id, am.value, am.suit, am.damage_type, i.name AS item_name, l.name AS level_name FROM armor_modifiers am LEFT JOIN item_armor_modifiers iam ON iam.armor_modifier_id = am.id LEFT JOIN items i ON i.id = iam.item_id LEFT JOIN level_armor_modifiers lam ON lam.armor_modifier_id = am.id LEFT JOIN levels l ON l.id = lam.level_id ORDER BY am.id ASC",
        params: Vec::new(),
    }
}

/// The query that reads the armor modifiers of item `item_name`, ordered by id, with any association names.
pub fn select_for_item_statement(item_name: &str) -> (r: SqlStatement)
    ensures
        r.sql@ == "SELECT am.id, am.card_id, am.value, am.suit, am.damage_type, i.name AS item_name, NULL AS level_name FROM items i JOIN item_armor_modifiers iam ON iam.item_id = i.id JOIN armor_modifiers am ON am.id = iam.armor_modifier_id WHERE i.name = ?1 ORDER BY am.id ASC"@,
        r.params@.len() == 1,
        r.params@[0] matches SqlParam::Text(t) && t@ == item_name@,
{
    SqlStatement {
        sql: "SELECT am.id, am.card_id, am.value, am.suit, am.damage_type, i.name AS item_name, NULL AS level_name FROM items i JOIN item_armor_modifiers iam ON iam.item_id = i.id JOIN armor_modifiers am ON am.id = iam.armor_modifier_id WHERE i.name = ?1 ORDER BY am.id ASC",
        params: vec![SqlParam::Text(item_name.to_owned())],
    }
}

/// The query that reads the armor modifiers of level `level_name`, ordered by id, with any association names.
pub fn select_for_level_statement(level_name: &str) -> (r: SqlStatement)
    ensures
        r.sql@ == "SELECT am.id, am.card_id, am.value, am.suit, am.damage_type, NULL AS item_name, l.name AS level_name FROM levels l JOIN level_armor_modifiers lam ON lam.level_id = l.id JOIN armor_modifiers am ON am.id = lam.armor_modifier_id WHERE l.name = ?1 ORDER BY am.id ASC"@,
        r.params@.len() == 1,
        r.params@[0] matches SqlParam::Text(t) && t@ == level_name@,
{
    SqlStatement {
        sql: "SELECT am.id, am.card_id, am.value, am.suit, am.damage_type, NULL AS item_name, l.name AS level_name FROM levels l JOIN level_armor_modifiers lam ON lam.level_id = l.id JOIN armor_modifiers am ON am.id = lam.armor_modifier_id WHERE l.name = ?1 ORDER BY am.id ASC",
        params: vec![SqlParam::Text(level_name.to_owned())],
    }
}

fn list_query(conn: &rusqlite::Connection, st: &SqlStatement) -> (r: Result<
    Vec<ArmorModifierRow>,
    DataError,
>)
    ensures
        fails_only_in_db(r),
        r matches Ok(v) ==> exists|rows: Seq<Vec<SqlValue>>| #[trigger] armor_rows_of(rows, v@),
{
    match fetch_all(conn, st, 7) {
        Ok(rows) => armor_rows_from_rows(&rows),
        Err(e) => Err(db_error(e)),
    }
}

/// Gets an armor modifier by id, including any item/level association names.
pub fn get_by_id(conn: &rusqlite::Connection, id: i64) -> (r: Result<
    Option<ArmorModifierRow>,
    DataError,
>)
    ensures
        fails_only_in_db(r),
        r matches Ok(Some(c)) ==> exists|row: Seq<SqlValue>| #[trigger] armor_row_of(row) == Some(c),
{
    let st = select_by_id_statement(id);
    match fetch_first(conn, &st, 7) {
        Ok(Some(row)) => match armor_row_from_row(&row) {
            Ok(a) => Ok(Some(a)),
            Err(e) => Err(e),
        },
        Ok(None) => Ok(None),
        Err(e) => Err(db_error(e)),
    }
}

/// Lists all armor modifiers (ordered by id), including any item/level
/// association names.
pub fn list_all(conn: &rusqlite::Connection) -> (r: Result<Vec<ArmorModifierRow>, DataError>)
    ensures
        fails_only_in_db(r),
        r matches Ok(v) ==> exists|rows: Seq<Vec<SqlValue>>| #[trigger] armor_rows_of(rows, v@),
{
    let st = select_all_statement();
    list_query(conn, &st)
}

/// Lists armor modifiers for a specific item (by item name), ordered by id.
pub fn list_for_item(conn: &rusqlite::Connection, item_name: &str) -> (r: Result<
    Vec<ArmorModifierRow>,
    DataError,
>)
    ensures
        fails_only_in_db(r),
        r matches Ok(v) ==> exists|rows: Seq<Vec<SqlValue>>| #[trigger] armor_rows_of(rows, v@),
{
    let st = select_for_item_statement(item_name);
    list_query(conn, &st)
}

/// Lists armor modifiers for a specific level (by level name), ordered by id.
pub fn list_for_level(conn: &rusqlite::Connection, level_name: &str) -> (r: Result<
    Vec<ArmorModifierRow>,
    DataError,
>)
    ensures
        fails_only_in_db(r),
        r matches Ok(v) ==> exists|rows: Seq<Vec<SqlValue>>| #[trigger] armor_rows_of(rows, v@),
{
    let st = select_for_level_statement(level_name);
    list_query(conn, &st)
}

/// The association kind that an item link and a level link describe; both
/// at once is a state the schema forbids.
pub open spec fn association_kind_spec(item_link: bool, level_link: bool) -> Option<
    ArmorModifierAssociationKind,
> {
    if item_link && level_link {
        None
    } else if item_link {
        Some(ArmorModifierAssociationKind::Item)
    } else if level_link {
        Some(ArmorModifierAssociationKind::Level)
    } else {
        Some(ArmorModifierAssociationKind::Unlinked)
    }
}

/// Decides the association kind from whether an item link and a level link
/// exist.
pub fn association_kind_from_links(item_link: Option<i64>, level_link: Option<i64>) -> (r: Result<
    ArmorModifierAssociationKind,
    DataError,
>)
    ensures
        match association_kind_spec(item_link is Some, level_link is Some) {
            Some(k) => r == Ok::<ArmorModifierAssociationKind, DataError>(k),
            None => r matches Err(e) && is_error(
                e,
                ErrorKind::Corrupt,
                "Invalid armor modifier association state (linked to both item and level)"@,
            ),
        },
{
    match (item_link, level_link) {
        (None, None) => Ok(ArmorModifierAssociationKind::Unlinked),
        (Some(_), None) => Ok(ArmorModifierAssociationKind::Item),
        (None, Some(_)) => Ok(ArmorModifierAssociationKind::Level),
        (Some(_), Some(_)) => Err(
            DataError::new(
                ErrorKind::Corrupt,
                "Invalid armor modifier association state (linked to both item and level)".to_owned(),
            ),
        ),
    }
}

/// The query that reads the item (`to_item`) or level link of armor
/// modifier `armor_modifier_id`.
pub fn link_lookup_statement(to_item: bool, armor_modifier_id: i64) -> (r: SqlStatement)
    ensures
        to_item ==> r.sql@ == "SELECT item_id FROM item_armor_modifiers WHERE armor_modifier_id = ?1"@,
        !to_item ==> r.sql@ == "SELECT level_id FROM level_armor_modifiers WHERE armor_modifier_id = ?1"@,
        r.params@ == seq![SqlParam::Integer(armor_modifier_id)],
{
    let params = vec![SqlParam::Integer(armor_modifier_id)];
    if to_item {
        SqlStatement { sql: "SELECT item_id FROM item_armor_modifiers WHERE armor_modifier_id = ?1", params }
    } else {
        SqlStatement { sql: "SELECT level_id FROM level_armor_modifiers WHERE armor_modifier_id = ?1", params }
    }
}

/// The query that finds whether armor modifier `armor_modifier_id` exists.
pub fn modifier_lookup_statement(armor_modifier_id: i64) -> (r: SqlStatement)
    ensures
        r.sql@ == "SELECT id FROM armor_modifiers WHERE id = ?1"@,
        r.params@ == seq![SqlParam::Integer(armor_modifier_id)],
{
    SqlStatement {
        sql: "SELECT id FROM armor_modifiers WHERE id = ?1",
        params: vec![SqlParam::Integer(armor_modifier_id)],
    }
}

/// The query that reads the id of the item (`to_item`) or level called
/// `name`.
pub fn card_lookup_statement(to_item: bool, name: &str) -> (r: SqlStatement)
    ensures
        to_item ==> r.sql@ == "SELECT id FROM items WHERE name = ?1"@,
        !to_item ==> r.sql@ == "SELECT id FROM levels WHERE name = ?1"@,
        r.params@.len() == 1,
        r.params@[0] matches SqlParam::Text(t) && t@ == name@,
{
    let params = vec![SqlParam::Text(name.to_owned())];
    if to_item {
        SqlStatement { sql: "SELECT id FROM items WHERE name = ?1", params }
    } else {
        SqlStatement { sql: "SELECT id FROM levels WHERE name = ?1", params }
    }
}

/// The id in the first column of the first row of query `st`, if any.
fn first_id(conn: &rusqlite::Connection, st: &SqlStatement) -> (r: Result<Option<i64>, DataError>)
    ensures
        fails_only_in_db(r),
{
    match fetch_first(conn, st, 1) {
        Ok(Some(row)) => match read_i64(&row[0]) {
            Some(v) => Ok(Some(v)),
            None => Err(bad_row("id")),
        },
        Ok(None) => Ok(None),
        Err(e) => Err(db_error(e)),
    }
}

/// Returns which kind of association this armor modifier currently has.
pub fn get_association_kind(conn: &rusqlite::Connection, armor_modifier_id: i64) -> (r: Result<
    ArmorModifierAssociationKind,
    DataError,
>)
    ensures
        r matches Err(e) ==> (e.kind == ErrorKind::Db || e.kind == ErrorKind::Corrupt),
{
    let item_link = first_id(conn, &link_lookup_statement(true, armor_modifier_id))?;
    let level_link = first_id(conn, &link_lookup_statement(false, armor_modifier_id))?;
    association_kind_from_links(item_link, level_link)
}

/// The errors of linking: an unknown card or modifier is `NotFound`, any
/// other failure (including the link constraints of the schema) is `Db`.
pub open spec fn link_errors<T>(r: Result<T, DataError>) -> bool {
    r matches Err(e) ==> (e.kind == ErrorKind::Db || e.kind == ErrorKind::NotFound)
}

/// The card a link names, by the id its lookup found: that id, or
/// `NotFound` `"<missing_label><name>`"` (such as ``"Item not found: `Shield`"``).
pub fn card_found(found: Option<i64>, missing_label: &str, name: &str) -> (r: Result<i64, DataError>)
    ensures
        match found {
            Some(id) => r == Ok::<i64, DataError>(id),
            None => r matches Err(e) && is_error(e, ErrorKind::NotFound, missing_label@ + name@ + "`"@),
        },
{
    match found {
        Some(id) => Ok(id),
        None => Err(DataError::new(ErrorKind::NotFound, concat3(missing_label, name, "`"))),
    }
}

/// Whether the armor modifier a link names was found: `NotFound`
/// `"Armor modifier not found (id=<id>)"` when its lookup found nothing.
pub fn modifier_found(found: Option<i64>, armor_modifier_id: i64) -> (r: Result<(), DataError>)
    ensures
        match found {
            Some(_) => r is Ok,
            None => r matches Err(e) && is_error(e, ErrorKind::NotFound, armor_not_found_msg(armor_modifier_id)),
        },
{
    match found {
        Some(_) => Ok(()),
        None => Err(not_found(armor_modifier_id)),
    }
}

/// Links an armor modifier to a card: the item (`to_item`) or level is
/// found by name, then the link row `(card id, modifier id)` of an item (`to_item`) or a
/// level is inserted.
fn link_by_name(
    conn: &rusqlite::Connection,
    armor_modifier_id: i64,
    name: &str,
    to_item: bool,
    missing_label: &str,
) -> (r: Result<(), DataError>)
    ensures
        link_errors(r),
{
    let found_card = first_id(conn, &card_lookup_statement(to_item, name))?;
    let card_id = card_found(found_card, missing_label, name)?;
    let found_modifier = first_id(conn, &modifier_lookup_statement(armor_modifier_id))?;
    modifier_found(found_modifier, armor_modifier_id)?;
    let st = link_statement(to_item, card_id, armor_modifier_id);
    match run(conn, &st) {
        Ok(_) => Ok(()),
        Err(e) => Err(db_error(e)),
    }
}

/// Links an armor modifier to an item by item name.
///
/// Fails if the item or the modifier does not exist, or if the modifier is
/// already linked (the schema allows one link per modifier).
pub fn link_to_item_by_name(
    conn: &rusqlite::Connection,
    armor_modifier_id: i64,
    item_name: &str,
) -> (r: Result<(), DataError>)
    ensures
        link_errors(r),
{
    link_by_name(
        conn,
        armor_modifier_id,
        item_name,
        true,
        "Item not found: `",
    )
}

/// Links an armor modifier to a level by level name.
///
/// Fails if the level or the modifier does not exist, or if the modifier is
/// already linked (the schema allows one link per modifier).
pub fn link_to_level_by_name(
    conn: &rusqlite::Connection,
    armor_modifier_id: i64,
    level_name: &str,
) -> (r: Result<(), DataError>)
    ensures
        link_errors(r),
{
    link_by_name(
        conn,
        armor_modifier_id,
        level_name,
        false,
        "Level not found: `",
    )
}

/// Removes any association (item or level) for the armor modifier id.
pub fn clear_association(conn: &rusqlite::Connection, armor_modifier_id: i64) -> (r: Result<
    (),
    DataError,
>)
    ensures
        fails_only_in_db(r),
{
    let (item_links, level_links) = clear_statements(armor_modifier_id);
    if let Err(e) = run(conn, &item_links) {
        return Err(db_error(e));
    }
    match run(conn, &level_links) {
        Ok(_) => Ok(()),
        Err(e) => Err(db_error(e)),
    }
}

/// Creates an armor modifier and links it to an item by name in a single
/// transaction; returns the new id.
pub fn create_and_link_to_item_by_name(
    conn: &mut rusqlite::Connection,
    armor: &ArmorModifier,
    item_name: &str,
) -> (r: Result<i64, DataError>)
    ensures
        link_errors(r),
{
    let tx = match begin_transaction(conn) {
        Ok(tx) => tx,
        Err(e) => return Err(db_error(e)),
    };
    let id = {
        let c = transaction_connection(&tx);
        let id = insert_returning_id(c, armor)?;
        link_to_item_by_name(c, id, item_name)?;
        id
    };
    match commit(tx) {
        Ok(()) => Ok(id),
        Err(e) => Err(db_error(e)),
    }
}

/// Creates an armor modifier and links it to a level by name in a single
/// transaction; returns the new id.
pub fn create_and_link_to_level_by_name(
    conn: &mut rusqlite::Connection,
    armor: &ArmorModifier,
    level_name: &str,
) -> (r: Result<i64, DataError>)
    ensures
        link_errors(r),
{
    let tx = match begin_transaction(conn) {
        Ok(tx) => tx,
        Err(e) => return Err(db_error(e)),
    };
    let id = {
        let c = transaction_connection(&tx);
        let id = insert_returning_id(c, armor)?;
        link_to_level_by_name(c, id, level_name)?;
        id
    };
    match commit(tx) {
        Ok(()) => Ok(id),
        Err(e) => Err(db_error(e)),
    }
}

} // verus!
