use std::collections::BTreeSet;

use rusqlite::Connection;
use std::path::PathBuf;

use tabletop::cards::action::{
    actions_by_link_statement, association_from_row, card_id_statement, delete_statement as action_delete,
    select_by_name_statement as action_by_name,
};
use tabletop::cards::armor_modifier::{self, ArmorModifier, DamageType, Suit};
use tabletop::cards::stat_modifier::{self, Stat, StatModifier, StatModifierAssociationKind, StatModifierOperator};
use tabletop::cards::unit::{self, Unit};
use tabletop::db::{SqlParam, SqlStatement, SqlValue};
use tabletop::hex_grids::{
    grid_insert_statement, grid_select_statement, tile_put_statement, tile_select_statement, tiles_select_statement,
    HexCoord, HexGrid,
};
use tabletop::migrations::{applied_lookup_statement, hash_lookup_statement, hashed_record_statement, record_statement};
use tabletop::shared::ErrorKind;
use tabletop::simulator::db::campaign_insert_statement;
use tabletop::simulator::handlers::campaign_needs_database;
use tabletop::simulator::state::Simulator;
use tabletop::tools::gui::state::ToolsGui;
use tabletop::tools::gui::tasks_hex::{
    GridWrite,
    grid_delete_statement, run_tile_statements, tile_association_statement, tile_sync_statements,
    tile_touch_statement,
};

#[derive(Debug, PartialEq)]
enum P {
    Null,
    I(i64),
    T(String),
}

fn params(st: &SqlStatement) -> Vec<P> {
    st.params
        .iter()
        .map(|p| match p {
            SqlParam::Null => P::Null,
            SqlParam::Integer(i) => P::I(*i),
            SqlParam::Text(t) => P::T(t.clone()),
        })
        .collect()
}

fn t(s: &str) -> P {
    P::T(s.to_string())
}

fn hero() -> Unit {
    Unit {
        name: "Hero".to_string(),
        strength: 1,
        focus: 2,
        intelligence: 3,
        agility: 4,
        knowledge: 5,
    }
}

#[test]
fn unit_statements_are_create_update_and_delete_by_name() {
    let ins = unit::insert_statement(&hero());
    assert_eq!(
        ins.sql,
        "INSERT INTO units (name, strength, focus, intelligence, agility, knowledge) VALUES (?1, ?2, ?3, ?4, ?5, ?6)"
    );
    assert_eq!(params(&ins), vec![t("Hero"), P::I(1), P::I(2), P::I(3), P::I(4), P::I(5)]);
    let upd = unit::update_statement(&hero());
    assert!(upd.sql.starts_with("UPDATE units SET"));
    assert!(!upd.sql.contains("INSERT"));
    let del = unit::delete_statement("Hero");
    assert_eq!(del.sql, "DELETE FROM units WHERE name = ?1");
    assert_eq!(params(&del), vec![t("Hero")]);
    let ren = unit::rename_statement("Old", &hero());
    assert_eq!(params(&ren)[0], t("Old"));
    assert_eq!(params(&ren)[1], t("Hero"));
}

#[test]
fn action_delete_statement_binds_the_name() {
    let del = action_delete("Slash");
    assert_eq!(del.sql, "DELETE FROM actions WHERE name = ?1");
    assert_eq!(params(&del), vec![t("Slash")]);
}

#[test]
fn armor_statements_bind_every_field() {
    let armor = ArmorModifier {
        card_id: 7,
        value: 3,
        suit: Suit::Hearts,
        damage_type: DamageType::Arcane,
    };
    let ins = armor_modifier::insert_statement(&armor);
    assert_eq!(
        ins.sql,
        "INSERT INTO armor_modifiers (card_id, value, suit, damage_type) VALUES (?1, ?2, ?3, ?4)"
    );
    assert_eq!(params(&ins), vec![P::I(7), P::I(3), t("Hearts"), t("Arcane")]);
    let upd = armor_modifier::update_statement(11, &armor);
    assert_eq!(params(&upd), vec![P::I(11), P::I(7), P::I(3), t("Hearts"), t("Arcane")]);
    let del = armor_modifier::delete_statement(11);
    assert_eq!(del.sql, "DELETE FROM armor_modifiers WHERE id = ?1");
    assert_eq!(params(&del), vec![P::I(11)]);
    let link = armor_modifier::link_statement(false, 4, 11);
    assert_eq!(
        link.sql,
        "INSERT INTO level_armor_modifiers (level_id, armor_modifier_id) VALUES (?1, ?2)"
    );
    assert_eq!(params(&link), vec![P::I(4), P::I(11)]);
    let (items, levels) = armor_modifier::clear_statements(11);
    assert!(items.sql.starts_with("DELETE FROM item_armor_modifiers"));
    assert!(levels.sql.starts_with("DELETE FROM level_armor_modifiers"));
}

#[test]
fn stat_statements_bind_every_field() {
    let sm = StatModifier {
        stat: Stat::Focus,
        value: 2,
        operator: StatModifierOperator::Subtract,
    };
    let ins = stat_modifier::insert_statement(&sm);
    assert_eq!(ins.sql, "INSERT INTO stat_modifiers (stat, value, operator) VALUES (?1, ?2, ?3)");
    assert_eq!(params(&ins), vec![t(Stat::Focus.as_str()), P::I(2), t(StatModifierOperator::Subtract.as_str())]);
    let upd = stat_modifier::update_statement(9, &sm);
    assert_eq!(
        upd.sql,
        "UPDATE stat_modifiers SET stat = ?1, value = ?2, operator = ?3 WHERE id = ?4"
    );
    assert_eq!(params(&upd)[3], P::I(9));
    let link = stat_modifier::link_statement(StatModifierAssociationKind::Item, 5, 9);
    assert_eq!(
        link.sql,
        "INSERT INTO item_stat_modifiers (item_id, stat_modifier_id) VALUES (?1, ?2)"
    );
    let clears = stat_modifier::clear_statements(9);
    assert_eq!(clears.len(), 3);
    assert!(clears[0].sql.starts_with("DELETE FROM unit_stat_modifiers"));
    assert!(clears[2].sql.starts_with("DELETE FROM level_stat_modifiers"));
}

#[test]
fn hex_grid_statements_insert_and_upsert() {
    let grid = HexGrid::generate("Map", 3, 2).unwrap();
    let ins = grid_insert_statement(&grid);
    assert_eq!(ins.sql, "INSERT INTO hex_grids (name, width, height) VALUES (?1, ?2, ?3)");
    assert_eq!(params(&ins), vec![t("Map"), P::I(3), P::I(2)]);
    let put = tile_put_statement(1, HexCoord::new(2, 1), Some("{}"));
    assert!(put.sql.contains("ON CONFLICT(hex_grid_id, x, y) DO UPDATE SET user_data_json = excluded.user_data_json"));
    assert_eq!(params(&put), vec![P::I(1), P::I(2), P::I(1), t("{}")]);
    let del = grid_delete_statement(5);
    assert_eq!(del.sql, "DELETE FROM hex_grids WHERE id = ?1");
    let touch = tile_touch_statement(5, 0, 1);
    assert_eq!(params(&touch), vec![P::I(5), P::I(0), P::I(1)]);
    let assoc = tile_association_statement(5, 0, 1, None, Some(8), None, &Some("forest".to_string()));
    assert_eq!(
        params(&assoc),
        vec![P::Null, P::I(8), P::Null, t("forest"), P::I(5), P::I(0), P::I(1)]
    );
}

#[test]
fn a_save_stores_present_tiles_and_clears_the_rest() {
    let mut present = BTreeSet::new();
    present.insert((0, 0));
    present.insert((5, 5));
    let stmts = tile_sync_statements(&present, 3, 2, 1);
    assert_eq!(stmts.len(), 2);
    assert!(stmts[0].sql.starts_with("INSERT INTO hex_tiles"));
    assert_eq!(params(&stmts[0]), vec![P::I(3), P::I(0), P::I(0)]);
    assert_eq!(stmts[1].sql, "DELETE FROM hex_tiles WHERE hex_grid_id = ?1 AND x = ?2 AND y = ?3");
    assert_eq!(params(&stmts[1]), vec![P::I(3), P::I(1), P::I(0)]);
}

#[test]
fn tile_statements_run_in_order_against_sqlite() {
    let conn = Connection::open_in_memory().unwrap();
    conn.execute_batch(
        "CREATE TABLE hex_tiles (hex_grid_id INTEGER NOT NULL, x INTEGER NOT NULL, y INTEGER NOT NULL, \
         updated_at TEXT, PRIMARY KEY (hex_grid_id, x, y));
         INSERT INTO hex_tiles (hex_grid_id, x, y) VALUES (3, 1, 0);",
    )
    .unwrap();
    let mut present = BTreeSet::new();
    present.insert((0, 0));
    let stmts = tile_sync_statements(&present, 3, 2, 1);
    assert_eq!(run_tile_statements(&conn, &stmts).unwrap(), 2);
    let stored: Vec<(i64, i64)> = conn
        .prepare("SELECT x, y FROM hex_tiles ORDER BY x")
        .unwrap()
        .query_map([], |r| Ok((r.get(0)?, r.get(1)?)))
        .unwrap()
        .map(|r| r.unwrap())
        .collect();
    assert_eq!(stored, vec![(0, 0)]);
}

#[test]
fn a_failed_tile_statement_names_the_tile() {
    let conn = Connection::open_in_memory().unwrap();
    let mut present = BTreeSet::new();
    present.insert((1, 0));
    let stmts = tile_sync_statements(&present, 3, 2, 1);
    let e = run_tile_statements(&conn, &stmts).unwrap_err();
    assert_eq!(e.kind, ErrorKind::Db);
    assert_eq!(e.message(), "Upsert hex tile (1,0)");
}

#[test]
fn migration_and_campaign_records_bind_their_values() {
    let rec = record_statement("0001_init.sql");
    assert_eq!(rec.sql, "INSERT INTO migrations (filename) VALUES (?1)");
    assert_eq!(params(&rec), vec![t("0001_init.sql")]);
    let hashed = hashed_record_statement("0001_init.sql", "abc".to_string());
    assert_eq!(params(&hashed), vec![t("0001_init.sql"), t("abc")]);
    let camp = campaign_insert_statement("Hero");
    assert_eq!(camp.sql, "INSERT INTO campaigns (hero_unit_name) VALUES (?1)");
    assert_eq!(params(&camp), vec![t("Hero")]);
}

#[test]
fn an_action_linked_twice_reports_the_conversion_failure() {
    let row = vec![
        SqlValue::Text("Hero".to_string()),
        SqlValue::Text("Sword".to_string()),
        SqlValue::Null,
    ];
    let e = association_from_row(&row, "Slash").unwrap_err();
    assert_eq!(e.kind, ErrorKind::Corrupt);
    assert_eq!(e.message(), "Failed to fetch association for action `Slash`");
    assert_eq!(
        e.text(),
        "Failed to fetch association for action `Slash`: Conversion error from type Text at index: 0, \
         Invalid action association state for `Slash` (multiple links set)"
    );
}

#[test]
fn only_a_selected_hero_needs_the_simulator_database() {
    let mut app = Simulator::new();
    assert!(!campaign_needs_database(&app));
    app.selected_hero = Some("Hero".to_string());
    assert!(campaign_needs_database(&app));
}

#[test]
fn card_reads_select_by_the_trimmed_name() {
    let st = action_by_name("Slash");
    assert_eq!(st.sql, "SELECT name, action_point_cost, action_type, text FROM actions WHERE name = ?1");
    assert_eq!(params(&st), vec![t("Slash")]);
    let st = unit::select_by_name_statement("Hero");
    assert_eq!(st.sql, "SELECT name, strength, focus, intelligence, agility, knowledge FROM units WHERE name = ?1");
    assert_eq!(unit::select_all_statement().params.len(), 0);
    let st = card_id_statement("level_id", "Cave");
    assert_eq!(st.sql, "SELECT id FROM levels WHERE name = ?1");
    assert_eq!(params(&st), vec![t("Cave")]);
    let st = actions_by_link_statement("item_id", 4);
    assert!(st.sql.contains("WHERE item_id = ?1 ORDER BY name ASC"));
    assert_eq!(params(&st), vec![P::I(4)]);
    let st = armor_modifier::select_by_id_statement(6);
    assert!(st.sql.ends_with("WHERE am.id = ?1"));
    assert_eq!(params(&st), vec![P::I(6)]);
    let st = stat_modifier::select_for_unit_statement("Hero");
    assert!(st.sql.contains("WHERE u.name = ?1 ORDER BY sm.id ASC"));
}

#[test]
fn hex_and_migration_reads_bind_their_keys() {
    assert_eq!(params(&grid_select_statement(2)), vec![P::I(2)]);
    let st = tile_select_statement(2, HexCoord::new(1, 3));
    assert_eq!(params(&st), vec![P::I(2), P::I(1), P::I(3)]);
    assert!(tiles_select_statement(2).sql.ends_with("ORDER BY y ASC, x ASC"));
    let st = applied_lookup_statement("0001_init.sql");
    assert_eq!(st.sql, "SELECT 1 FROM migrations WHERE filename = ?1 LIMIT 1");
    assert_eq!(params(&hash_lookup_statement("0001_init.sql")), vec![t("0001_init.sql")]);
}

fn editor_with_grid(name: &str, width: &str, height: &str) -> ToolsGui {
    let mut gui = ToolsGui::new(PathBuf::from("."), PathBuf::from("db"), PathBuf::from("migrations"));
    gui.hex_grid_name = name.to_string();
    gui.hex_grid_width = width.to_string();
    gui.hex_grid_height = height.to_string();
    gui
}

#[test]
fn a_grid_save_plans_its_writes_from_the_form() {
    let mut gui = editor_with_grid(" Arena ", "3", "1");
    let (w, st) = gui.hex_grid_write_plan(None).unwrap();
    assert_eq!(w, GridWrite::Insert);
    assert_eq!(params(&st), vec![t("Arena"), P::I(3), P::I(1)]);
    let (w, st) = gui.hex_grid_write_plan(Some(8)).unwrap();
    assert_eq!(w, GridWrite::UpdateSameName(8));
    assert_eq!(params(&st), vec![P::I(3), P::I(1), P::I(8)]);
    gui.hex_grid_tiles_present = BTreeSet::new();
    gui.hex_grid_tiles_present.insert((2, 0));
    let (oob, sync) = gui.hex_grid_tile_plan(8).unwrap();
    assert_eq!(params(&oob), vec![P::I(8), P::I(3), P::I(1)]);
    assert_eq!(sync.len(), 3);
    assert_eq!(params(&sync[0]), vec![P::I(8), P::I(2), P::I(0)]);
    assert!(sync[0].sql.starts_with("INSERT INTO hex_tiles"));
    assert!(sync[1].sql.starts_with("DELETE FROM hex_tiles"));
    assert_eq!(params(&sync[1]), vec![P::I(8), P::I(0), P::I(0)]);
    let bad = editor_with_grid("Arena", "0", "1");
    assert_eq!(bad.hex_grid_tile_plan(8).unwrap_err().message(), "Width/height must be > 0");
}
