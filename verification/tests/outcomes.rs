use std::collections::BTreeSet;

use rusqlite::Connection;
use tabletop::cards::action::{link_outcome, link_statement, ActionAssociation};
use tabletop::cards::armor_modifier::{card_found, modifier_found};
use tabletop::cards::item::{self, Item};
use tabletop::cards::outcome::{after_save, removed_any};
use tabletop::db::{SqlParam, SqlValue};
use tabletop::hex_grids::{grid_lookup_outcome, tile_lookup_outcome, tile_write_params, HexCoord};
use tabletop::migrations::{recorded_step, MigrationStep};
use tabletop::shared::ErrorKind;
use tabletop::simulator::handlers::{apply_campaign_created, apply_hex_grids_result};
use tabletop::simulator::state::{HexGridSummary, Simulator};
use tabletop::tools::gui::tasks_hex::{grid_write, tile_plan, GridWrite};

#[test]
fn deletes_report_whether_a_row_went() {
    assert!(removed_any(1));
    assert!(!removed_any(0));
}

#[test]
fn a_save_that_cannot_reload_is_a_database_error() {
    assert_eq!(after_save(Some(7), "x".to_string()).unwrap(), 7);
    let e = after_save::<i32>(None, "Item `A` was saved but could not be reloaded".to_string()).unwrap_err();
    assert_eq!(e.kind, ErrorKind::Db);
    assert_eq!(e.message(), "Item `A` was saved but could not be reloaded");
}

#[test]
fn link_updates_report_missing_actions() {
    assert!(link_outcome(1, "Strike").is_ok());
    let e = link_outcome(0, "Strike").unwrap_err();
    assert_eq!((e.kind, e.message()), (ErrorKind::NotFound, "Action `Strike` not found".to_string()));
    let s = link_statement(&ActionAssociation::Item { item_name: "Shield".to_string() }, "Strike", 4);
    assert_eq!(s.sql, "UPDATE actions SET item_id = ?2, unit_id = NULL, level_id = NULL WHERE name = ?1");
    assert!(matches!(&s.params[..], [SqlParam::Text(n), SqlParam::Integer(4)] if n == "Strike"));
}

#[test]
fn armor_links_name_what_is_missing() {
    assert_eq!(card_found(Some(3), "Item not found: `", "Shield").unwrap(), 3);
    let e = card_found(None, "Item not found: `", "Shield").unwrap_err();
    assert_eq!(e.message(), "Item not found: `Shield`");
    let e = modifier_found(None, 9).unwrap_err();
    assert_eq!(e.message(), "Armor modifier not found (id=9)");
    assert!(modifier_found(Some(9), 9).is_ok());
}

#[test]
fn grid_and_tile_lookups() {
    let e = grid_lookup_outcome(5, None).unwrap_err();
    assert_eq!((e.kind, e.message()), (ErrorKind::NotFound, "hex grid not found: id=5".to_string()));
    let row = vec![
        SqlValue::Integer(5),
        SqlValue::Text("Arena".to_string()),
        SqlValue::Integer(2),
        SqlValue::Integer(3),
    ];
    let g = grid_lookup_outcome(5, Some(row)).unwrap();
    assert_eq!((g.id, g.width, g.height), (Some(5), 2, 3));
    assert_eq!(tile_lookup_outcome(None).unwrap(), None);
    let t = tile_lookup_outcome(Some(vec![SqlValue::Integer(1), SqlValue::Integer(2), SqlValue::Null]))
        .unwrap()
        .unwrap();
    assert_eq!(t.coord, HexCoord { x: 1, y: 2 });
    let p = tile_write_params(4, HexCoord { x: 1, y: 2 }, Some("{}"));
    assert!(matches!(p[1], SqlParam::Integer(1)));
    assert!(matches!(p[2], SqlParam::Integer(2)));
    assert!(matches!(&p[3], SqlParam::Text(t) if t == "{}"));
}

#[test]
fn grid_saves_pick_their_row_and_tiles() {
    assert_eq!(grid_write(Some(4), Some(9)), GridWrite::UpdateEditorGrid(4));
    assert_eq!(grid_write(None, Some(9)), GridWrite::UpdateSameName(9));
    assert_eq!(grid_write(None, None), GridWrite::Insert);
    let present: BTreeSet<(i32, i32)> = [(0, 0), (1, 1), (5, 5)].into_iter().collect();
    let (store, clear) = tile_plan(&present, 2, 2);
    assert_eq!(store, vec![(0, 0), (1, 1)]);
    assert_eq!(clear, vec![(1, 0), (0, 1)]);
}

#[test]
fn recorded_migrations_are_skipped() {
    assert_eq!(recorded_step(true), MigrationStep::Skip);
    assert_eq!(recorded_step(false), MigrationStep::Apply);
}

#[test]
fn loads_land_in_the_simulator_state() {
    let mut app = Simulator::new();
    apply_hex_grids_result(&mut app, Ok(vec![HexGridSummary { id: 1, name: "A".to_string() }]));
    assert_eq!(app.scenario_hex_grids.len(), 1);
    assert_eq!(app.load_error, None);
    apply_hex_grids_result(&mut app, Err("boom".to_string()));
    assert!(app.scenario_hex_grids.is_empty());
    assert_eq!(app.load_error.as_deref(), Some("boom"));
    apply_campaign_created(&mut app, Err("no table".to_string()));
    assert_eq!(app.load_error.as_deref(), Some("Failed to create campaign: no table"));
    apply_campaign_created(&mut app, Ok(()));
    assert_eq!(app.campaign_saved.as_deref(), Some("Campaign created and saved to simulator database."));
    assert_eq!(app.load_error, None);
}

#[test]
fn a_duplicate_item_name_fails_with_its_context() {
    let conn = Connection::open_in_memory().unwrap();
    conn.execute_batch("CREATE TABLE items (id INTEGER PRIMARY KEY AUTOINCREMENT, name TEXT NOT NULL UNIQUE);")
        .unwrap();
    let card = Item { name: "Shield".to_string() };
    item::save_card(&conn, &card).unwrap();
    let e = item::save_card(&conn, &card).unwrap_err();
    assert_eq!(e.kind, ErrorKind::Db);
    assert_eq!(e.message(), "Failed to save item `Shield`");
    assert!(e.text().starts_with("Failed to save item `Shield`: "));
    assert_eq!(item::update_card(&conn, &Item { name: "Sword".to_string() }).unwrap(), None);
    assert!(!item::delete_card(&conn, "Sword").unwrap());
    assert!(item::delete_card(&conn, "Shield").unwrap());
}
