//! The lists the editor shows, read from the database, and the rows of one
//! card's associated actions.

use vstd::prelude::*;
use crate::cards::action::{self, action_type_text, ActionAssociation};
use crate::cards::item::{self, Item};
use crate::cards::level::{self, Level};
use crate::cards::stat_modifier;
use crate::cards::unit::{self, Unit};
use crate::db::{
    bad_row, col_i32, col_i64, col_opt_text, col_text, db_error, fetch_all, read_i32, read_i64,
    read_opt_text, read_text, SqlStatement, SqlValue,
};
use crate::shared::{fails_only_in_db, DataError, ErrorKind};
use crate::text::opt_text;
use crate::tools::gui::types::{
    ActionRow, ArmorModifierRow, HexGridRow, ItemRow, LevelRow, StatModifierRow, UnitRow,
};

verus! {

/// The list row of a unit.
pub open spec fn unit_row_of(u: Unit) -> UnitRow {
    UnitRow {
        name: u.name,
        strength: u.strength,
        focus: u.focus,
        intelligence: u.intelligence,
        agility: u.agility,
        knowledge: u.knowledge,
    }
}

/// The list rows of units, in order.
pub fn unit_rows(units: &Vec<Unit>) -> (r: Vec<UnitRow>)
    ensures
        r@ == units@.map_values(|u: Unit| unit_row_of(u)),
{
    let mut out: Vec<UnitRow> = Vec::new();
    let mut i: usize = 0;
    while i < units.len()
        invariant
            i <= units@.len(),
            out@ == units@.subrange(0, i as int).map_values(|u: Unit| unit_row_of(u)),
        decreases units@.len() - i,
    {
        let u = &units[i];
        out.push(
            UnitRow {
                name: u.name.clone(),
                strength: u.strength,
                focus: u.focus,
                intelligence: u.intelligence,
                agility: u.agility,
                knowledge: u.knowledge,
            },
        );
        i = i + 1;
        assert(out@ =~= units@.subrange(0, i as int).map_values(|u: Unit| unit_row_of(u)));
    }
    assert(units@.subrange(0, i as int) =~= units@);
    out
}

/// Lists units ordered by name (ascending).
pub fn list_units(conn: &rusqlite::Connection) -> (r: Result<Vec<UnitRow>, DataError>)
    ensures
        fails_only_in_db(r),
{
    let units = unit::list_cards(conn)?;
    Ok(unit_rows(&units))
}

/// Lists items ordered by name (ascending).
pub fn list_items(conn: &rusqlite::Connection) -> (r: Result<Vec<ItemRow>, DataError>)
    ensures
        fails_only_in_db(r),
{
    let items = item::list_cards(conn)?;
    let mut out: Vec<ItemRow> = Vec::new();
    let mut i: usize = 0;
    while i < items.len()
        invariant
            i <= items@.len(),
            out@.len() == i,
            forall|k: int| 0 <= k < i ==> #[trigger] out@[k].name == items@[k].name,
        decreases items@.len() - i,
    {
        out.push(ItemRow { name: items[i].name.clone() });
        i = i + 1;
    }
    Ok(out)
}

/// Lists levels ordered by name (ascending).
pub fn list_levels(conn: &rusqlite::Connection) -> (r: Result<Vec<LevelRow>, DataError>)
    ensures
        fails_only_in_db(r),
{
    let levels = level::list_cards(conn)?;
    let mut out: Vec<LevelRow> = Vec::new();
    let mut i: usize = 0;
    while i < levels.len()
        invariant
            i <= levels@.len(),
            out@.len() == i,
            forall|k: int| 0 <= k < i ==> #[trigger] out@[k] == (LevelRow {
                name: levels@[k].name,
                text: levels@[k].text,
            }),
        decreases levels@.len() - i,
    {
        out.push(LevelRow { name: levels[i].name.clone(), text: levels[i].text.clone() });
        i = i + 1;
    }
    Ok(out)
}

/// `row` shows action `a` with association `assoc`.
pub open spec fn is_action_row(row: ActionRow, a: action::Action, assoc: Option<ActionAssociation>) -> bool {
    &&& row.name == a.name
    &&& row.action_point_cost == a.action_point_cost
    &&& row.action_type@ == action_type_text(a.action_type)
    &&& row.text == a.text
    &&& row.unit_name == (match assoc {
        Some(ActionAssociation::Unit { unit_name }) => Some(unit_name),
        _ => None,
    })
    &&& row.item_name == (match assoc {
        Some(ActionAssociation::Item { item_name }) => Some(item_name),
        _ => None,
    })
    &&& row.level_name == (match assoc {
        Some(ActionAssociation::Level { level_name }) => Some(level_name),
        _ => None,
    })
}

/// The list row of action `a` with association `assoc`.
pub fn action_row(a: &action::Action, assoc: Option<ActionAssociation>) -> (r: ActionRow)
    ensures
        is_action_row(r, *a, assoc),
{
    let (unit_name, item_name, level_name) = match assoc {
        Some(ActionAssociation::Unit { unit_name }) => (Some(unit_name), None, None),
        Some(ActionAssociation::Item { item_name }) => (None, Some(item_name), None),
        Some(ActionAssociation::Level { level_name }) => (None, None, Some(level_name)),
        None => (None, None, None),
    };
    ActionRow {
        name: a.name.clone(),
        action_point_cost: a.action_point_cost,
        action_type: a.action_type.as_str().to_owned(),
        text: a.text.clone(),
        unit_name,
        item_name,
        level_name,
    }
}

/// Lists actions ordered by name (ascending), each with its association.
pub fn list_actions(conn: &rusqlite::Connection) -> (r: Result<Vec<ActionRow>, DataError>)
    ensures
        r matches Err(e) ==> (e.kind == ErrorKind::Db || e.kind == ErrorKind::Corrupt),
{
    let actions = match action::list_cards(conn) {
        Ok(a) => a,
        Err(e) => return Err(DataError::with_cause(e.kind, "list actions".to_owned(), e.text())),
    };
    let mut out: Vec<ActionRow> = Vec::new();
    let ghost mut assocs: Seq<Option<ActionAssociation>> = Seq::empty();
    let mut i: usize = 0;
    while i < actions.len()
        invariant
            i <= actions@.len(),
            out@.len() == i,
            assocs.len() == i,
            forall|k: int| 0 <= k < i ==> is_action_row(#[trigger] out@[k], actions@[k], assocs[k]),
        decreases actions@.len() - i,
    {
        let assoc = action::get_association(conn, actions[i].name.as_str())?;
        proof {
            assocs = assocs.push(assoc);
        }
        let row = action_row(&actions[i], assoc);
        out.push(row);
        i = i + 1;
    }
    Ok(out)
}

/// The armor modifier list row a row `id, card_id, value, suit,
/// damage_type, item name, level name` holds.
pub open spec fn armor_list_row_of(row: Seq<SqlValue>) -> Option<ArmorModifierRow> {
    match (
        col_i64(row[0]),
        col_i64(row[1]),
        col_i64(row[2]),
        col_text(row[3]),
        col_text(row[4]),
        col_opt_text(row[5]),
        col_opt_text(row[6]),
    ) {
        (
            Some(id),
            Some(card_id),
            Some(value),
            Some(suit),
            Some(damage_type),
            Some(item_name),
            Some(level_name),
        ) => Some(ArmorModifierRow { id, card_id, value, suit, damage_type, item_name, level_name }),
        _ => None,
    }
}

/// `out` is what `rows` decode to, row by row.
pub open spec fn armor_list_rows_of(rows: Seq<Vec<SqlValue>>, out: Seq<ArmorModifierRow>) -> bool {
    &&& out.len() == rows.len()
    &&& forall|i: int| 0 <= i < rows.len() ==> armor_list_row_of(#[trigger] rows[i]@) == Some(out[i])
}

/// Reads armor modifier list rows, in row order.
pub fn armor_list_rows_from_rows(rows: &Vec<Vec<SqlValue>>) -> (r: Result<
    Vec<ArmorModifierRow>,
    DataError,
>)
    requires
        forall|i: int| 0 <= i < rows@.len() ==> #[trigger] rows@[i]@.len() == 7,
    ensures
        match r {
            Ok(v) => armor_list_rows_of(rows@, v@),
            Err(e) => e.kind == ErrorKind::Db && exists|i: int|
                0 <= i < rows@.len() && armor_list_row_of(#[trigger] rows@[i]@) is None,
        },
{
    let mut out: Vec<ArmorModifierRow> = Vec::new();
    let mut i: usize = 0;
    while i < rows.len()
        invariant
            i <= rows@.len(),
            forall|k: int| 0 <= k < rows@.len() ==> #[trigger] rows@[k]@.len() == 7,
            out@.len() == i,
            forall|k: int| 0 <= k < i ==> armor_list_row_of(#[trigger] rows@[k]@) == Some(out@[k]),
        decreases rows@.len() - i,
    {
        let row = &rows[i];
        let id = match read_i64(&row[0]) {
            Some(v) => v,
            None => return Err(bad_row("armor_modifiers.id")),
        };
        let card_id = match read_i64(&row[1]) {
            Some(v) => v,
            None => return Err(bad_row("armor_modifiers.card_id")),
        };
        let value = match read_i64(&row[2]) {
            Some(v) => v,
            None => return Err(bad_row("armor_modifiers.value")),
        };
        let suit = match read_text(&row[3]) {
            Some(v) => v,
            None => return Err(bad_row("armor_modifiers.suit")),
        };
        let damage_type = match read_text(&row[4]) {
            Some(v) => v,
            None => return Err(bad_row("armor_modifiers.damage_type")),
        };
        let item_name = match read_opt_text(&row[5]) {
            Some(v) => v,
            None => return Err(bad_row("items.name")),
        };
        let level_name = match read_opt_text(&row[6]) {
            Some(v) => v,
            None => return Err(bad_row("levels.name")),
        };
        out.push(ArmorModifierRow { id, card_id, value, suit, damage_type, item_name, level_name });
        i = i + 1;
    }
    Ok(out)
}

/// The query that reads every armor modifier by id, with the item or level
/// each is linked to.
pub fn armor_modifiers_statement() -> (r: SqlStatement)
    ensures
        r.sql@ == "SELECT am.id, am.card_id, am.value, am.suit, am.damage_type, i.name AS item_name, l.name AS level_name FROM armor_modifiers am LEFT JOIN item_armor_modifiers iam ON iam.armor_modifier_id = am.id LEFT JOIN items i ON i.id = iam.item_id LEFT JOIN level_armor_modifiers lam ON lam.armor_modifier_id = am.id LEFT JOIN levels l ON l.id = lam.level_id ORDER BY am.id ASC"@,
        r.params@.len() == 0,
{
    SqlStatement {
        sql: "SELECT am.id, am.card_id, am.value, am.suit, am.damage_type, i.name AS item_name, l.name AS level_name FROM armor_modifiers am LEFT JOIN item_armor_modifiers iam ON iam.armor_modifier_id = am.id LEFT JOIN items i ON i.id = iam.item_id LEFT JOIN level_armor_modifiers lam ON lam.armor_modifier_id = am.id LEFT JOIN levels l ON l.id = lam.level_id ORDER BY am.id ASC",
        params: Vec::new(),
    }
}

/// Lists armor modifiers by id, with the item or level each is linked to.
pub fn list_armor_modifiers(conn: &rusqlite::Connection) -> (r: Result<
    Vec<ArmorModifierRow>,
    DataError,
>)
    ensures
        fails_only_in_db(r),
        r matches Ok(v) ==> exists|rows: Seq<Vec<SqlValue>>| #[trigger] armor_list_rows_of(rows, v@),
{
    let st = armor_modifiers_statement();
    match fetch_all(conn, &st, 7) {
        Ok(rows) => armor_list_rows_from_rows(&rows),
        Err(e) => Err(db_error(e)),
    }
}

/// The editor's row of a stored stat modifier: the same fields.
pub open spec fn stat_list_row_of(r: stat_modifier::StatModifierRow) -> StatModifierRow {
    StatModifierRow {
        id: r.id,
        stat: r.stat,
        value: r.value,
        operator: r.operator,
        unit_name: r.unit_name,
        item_name: r.item_name,
        level_name: r.level_name,
    }
}

/// Lists stat modifiers by id, with any association names.
pub fn list_stat_modifiers(conn: &rusqlite::Connection) -> (r: Result<
    Vec<StatModifierRow>,
    DataError,
>)
    ensures
        fails_only_in_db(r),
{
    let rows = stat_modifier::list_all(conn)?;
    let mut out: Vec<StatModifierRow> = Vec::new();
    let mut i: usize = 0;
    while i < rows.len()
        invariant
            i <= rows@.len(),
            out@ == rows@.subrange(0, i as int).map_values(
                |r: stat_modifier::StatModifierRow| stat_list_row_of(r),
            ),
        decreases rows@.len() - i,
    {
        let r = &rows[i];
        out.push(
            StatModifierRow {
                id: r.id,
                stat: r.stat.clone(),
                value: r.value,
                operator: r.operator.clone(),
                unit_name: r.unit_name.clone(),
                item_name: r.item_name.clone(),
                level_name: r.level_name.clone(),
            },
        );
        i = i + 1;
        assert(out@ =~= rows@.subrange(0, i as int).map_values(
            |r: stat_modifier::StatModifierRow| stat_list_row_of(r),
        ));
    }
    Ok(out)
}

/// The hex grid list row a row `id, name, width, height` holds.
pub open spec fn hex_grid_row_of(row: Seq<SqlValue>) -> Option<HexGridRow> {
    match (col_i64(row[0]), col_text(row[1]), col_i32(row[2]), col_i32(row[3])) {
        (Some(id), Some(name), Some(width), Some(height)) => Some(
            HexGridRow { id, name, width, height },
        ),
        _ => None,
    }
}

/// `out` is what `rows` decode to, row by row.
pub open spec fn hex_grid_rows_of(rows: Seq<Vec<SqlValue>>, out: Seq<HexGridRow>) -> bool {
    &&& out.len() == rows.len()
    &&& forall|i: int| 0 <= i < rows.len() ==> hex_grid_row_of(#[trigger] rows[i]@) == Some(out[i])
}

/// Reads hex grid list rows, in row order.
pub fn hex_grid_rows_from_rows(rows: &Vec<Vec<SqlValue>>) -> (r: Result<Vec<HexGridRow>, DataError>)
    requires
        forall|i: int| 0 <= i < rows@.len() ==> #[trigger] rows@[i]@.len() == 4,
    ensures
        match r {
            Ok(v) => hex_grid_rows_of(rows@, v@),
            Err(e) => e.kind == ErrorKind::Db && exists|i: int|
                0 <= i < rows@.len() && hex_grid_row_of(#[trigger] rows@[i]@) is None,
        },
{
    let mut out: Vec<HexGridRow> = Vec::new();
    let mut i: usize = 0;
    while i < rows.len()
        invariant
            i <= rows@.len(),
            forall|k: int| 0 <= k < rows@.len() ==> #[trigger] rows@[k]@.len() == 4,
            out@.len() == i,
            forall|k: int| 0 <= k < i ==> hex_grid_row_of(#[trigger] rows@[k]@) == Some(out@[k]),
        decreases rows@.len() - i,
    {
        let row = &rows[i];
        let id = match read_i64(&row[0]) {
            Some(v) => v,
            None => return Err(bad_row("hex_grids.id")),
        };
        let name = match read_text(&row[1]) {
            Some(v) => v,
            None => return Err(bad_row("hex_grids.name")),
        };
        let width = match read_i32(&row[2]) {
            Some(v) => v,
            None => return Err(bad_row("hex_grids.width")),
        };
        let height = match read_i32(&row[3]) {
            Some(v) => v,
            None => return Err(bad_row("hex_grids.height")),
        };
        out.push(HexGridRow { id, name, width, height });
        i = i + 1;
    }
    Ok(out)
}

/// The query that reads every stored hex grid, most recently updated first.
pub fn hex_grid_rows_statement() -> (r: SqlStatement)
    ensures
        r.sql@ == "SELECT id, name, width, height FROM hex_grids ORDER BY updated_at DESC, id DESC"@,
        r.params@.len() == 0,
{
    SqlStatement {
        sql: "SELECT id, name, width, height FROM hex_grids ORDER BY updated_at DESC, id DESC",
        params: Vec::new(),
    }
}

/// Lists the stored hex grids, most recently updated first.
pub fn list_hex_grid_rows(conn: &rusqlite::Connection) -> (r: Result<Vec<HexGridRow>, DataError>)
    ensures
        fails_only_in_db(r),
        r matches Ok(v) ==> exists|rows: Seq<Vec<SqlValue>>| #[trigger] hex_grid_rows_of(rows, v@),
{
    let st = hex_grid_rows_statement();
    match fetch_all(conn, &st, 4) {
        Ok(rows) => hex_grid_rows_from_rows(&rows),
        Err(e) => Err(db_error(e)),
    }
}

/// Which association of an action row a card's editor looks at.
pub open spec fn row_unit(a: ActionRow) -> Option<Seq<char>> {
    opt_text(a.unit_name)
}

pub open spec fn row_item(a: ActionRow) -> Option<Seq<char>> {
    opt_text(a.item_name)
}

pub open spec fn row_level(a: ActionRow) -> Option<Seq<char>> {
    opt_text(a.level_name)
}

/// The actions whose unit is `unit_name`, in list order.
pub fn collect_for_unit<'a>(all_actions: &'a [ActionRow], unit_name: &str) -> (r: Vec<&'a ActionRow>)
    ensures
        r@.map_values(|a: &ActionRow| *a) == all_actions@.filter(
            |a: ActionRow| row_unit(a) == Some(unit_name@),
        ),
{
    let mut out: Vec<&'a ActionRow> = Vec::new();
    let mut i: usize = 0;
    while i < all_actions.len()
        invariant
            i <= all_actions@.len(),
            out@.map_values(|a: &ActionRow| *a) == all_actions@.subrange(0, i as int).filter(
                |a: ActionRow| row_unit(a) == Some(unit_name@),
            ),
        decreases all_actions@.len() - i,
    {
        let a = &all_actions[i];
        proof {
            reveal(Seq::filter);
            assert(all_actions@.subrange(0, i + 1).drop_last() =~= all_actions@.subrange(0, i as int));
        }
        let hit = match &a.unit_name {
            Some(n) => crate::text::str_eq(n.as_str(), unit_name),
            None => false,
        };
        if hit {
            out.push(a);
        }
        i = i + 1;
        assert(out@.map_values(|a: &ActionRow| *a) =~= all_actions@.subrange(0, i as int).filter(
            |a: ActionRow| row_unit(a) == Some(unit_name@),
        ));
    }
    assert(all_actions@.subrange(0, i as int) =~= all_actions@);
    out
}

/// The actions whose item is `item_name`, in list order.
pub fn collect_for_item<'a>(all_actions: &'a [ActionRow], item_name: &str) -> (r: Vec<&'a ActionRow>)
    ensures
        r@.map_values(|a: &ActionRow| *a) == all_actions@.filter(
            |a: ActionRow| row_item(a) == Some(item_name@),
        ),
{
    let mut out: Vec<&'a ActionRow> = Vec::new();
    let mut i: usize = 0;
    while i < all_actions.len()
        invariant
            i <= all_actions@.len(),
            out@.map_values(|a: &ActionRow| *a) == all_actions@.subrange(0, i as int).filter(
                |a: ActionRow| row_item(a) == Some(item_name@),
            ),
        decreases all_actions@.len() - i,
    {
        let a = &all_actions[i];
        proof {
            reveal(Seq::filter);
            assert(all_actions@.subrange(0, i + 1).drop_last() =~= all_actions@.subrange(0, i as int));
        }
        let hit = match &a.item_name {
            Some(n) => crate::text::str_eq(n.as_str(), item_name),
            None => false,
        };
        if hit {
            out.push(a);
        }
        i = i + 1;
        assert(out@.map_values(|a: &ActionRow| *a) =~= all_actions@.subrange(0, i as int).filter(
            |a: ActionRow| row_item(a) == Some(item_name@),
        ));
    }
    assert(all_actions@.subrange(0, i as int) =~= all_actions@);
    out
}

/// The actions whose level is `level_name`, in list order.
pub fn collect_for_level<'a>(all_actions: &'a [ActionRow], level_name: &str) -> (r: Vec<&'a ActionRow>)
    ensures
        r@.map_values(|a: &ActionRow| *a) == all_actions@.filter(
            |a: ActionRow| row_level(a) == Some(level_name@),
        ),
{
    let mut out: Vec<&'a ActionRow> = Vec::new();
    let mut i: usize = 0;
    while i < all_actions.len()
        invariant
            i <= all_actions@.len(),
            out@.map_values(|a: &ActionRow| *a) == all_actions@.subrange(0, i as int).filter(
                |a: ActionRow| row_level(a) == Some(level_name@),
            ),
        decreases all_actions@.len() - i,
    {
        let a = &all_actions[i];
        proof {
            reveal(Seq::filter);
            assert(all_actions@.subrange(0, i + 1).drop_last() =~= all_actions@.subrange(0, i as int));
        }
        let hit = match &a.level_name {
            Some(n) => crate::text::str_eq(n.as_str(), level_name),
            None => false,
        };
        if hit {
            out.push(a);
        }
        i = i + 1;
        assert(out@.map_values(|a: &ActionRow| *a) =~= all_actions@.subrange(0, i as int).filter(
            |a: ActionRow| row_level(a) == Some(level_name@),
        ));
    }
    assert(all_actions@.subrange(0, i as int) =~= all_actions@);
    out
}

} // verus!
