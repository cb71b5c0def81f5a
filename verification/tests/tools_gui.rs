use std::path::PathBuf;

use rusqlite::Connection;
use tabletop::tools::gui::effects::{DbTask, ToolsEffect};
use tabletop::tools::gui::state::ToolsGui;
use tabletop::tools::gui::types::{ActiveView, Message, Tab};

const SCHEMA: &str = r#"
        CREATE TABLE units (
            id            INTEGER PRIMARY KEY AUTOINCREMENT,
            name          TEXT NOT NULL UNIQUE,

            strength      INTEGER NOT NULL,
            focus         INTEGER NOT NULL,
            intelligence  INTEGER NOT NULL,
            agility       INTEGER NOT NULL,
            knowledge     INTEGER NOT NULL,

            created_at    TEXT NOT NULL DEFAULT (strftime('%Y-%m-%dT%H:%M:%fZ', 'now')),
            updated_at    TEXT NOT NULL DEFAULT (strftime('%Y-%m-%dT%H:%M:%fZ', 'now')),

            CHECK (length(trim(name)) > 0)
        );

        CREATE TABLE items (
            id            INTEGER PRIMARY KEY AUTOINCREMENT,
            name          TEXT NOT NULL UNIQUE,

            created_at    TEXT NOT NULL DEFAULT (strftime('%Y-%m-%dT%H:%M:%fZ', 'now')),
            updated_at    TEXT NOT NULL DEFAULT (strftime('%Y-%m-%dT%H:%M:%fZ', 'now')),

            CHECK (length(trim(name)) > 0)
        );

        CREATE TABLE levels (
            id            INTEGER PRIMARY KEY AUTOINCREMENT,
            name          TEXT NOT NULL UNIQUE,
            text          TEXT NOT NULL,

            created_at    TEXT NOT NULL DEFAULT (strftime('%Y-%m-%dT%H:%M:%fZ', 'now')),
            updated_at    TEXT NOT NULL DEFAULT (strftime('%Y-%m-%dT%H:%M:%fZ', 'now')),

            CHECK (length(trim(name)) > 0),
            CHECK (length(trim(text)) > 0)
        );

        CREATE TABLE actions (
            id                 INTEGER PRIMARY KEY AUTOINCREMENT,
            name               TEXT NOT NULL UNIQUE,
            action_point_cost  INTEGER NOT NULL,
            action_type        TEXT NOT NULL,
            text               TEXT NOT NULL,

            -- Optional association: an action can belong to at most one of:
            -- - a unit, item, or level (enforced by triggers below)
            unit_id            INTEGER NULL,
            item_id            INTEGER NULL,
            level_id           INTEGER NULL,

            created_at         TEXT NOT NULL DEFAULT (strftime('%Y-%m-%dT%H:%M:%fZ', 'now')),
            updated_at         TEXT NOT NULL DEFAULT (strftime('%Y-%m-%dT%H:%M:%fZ', 'now')),

            CHECK (length(trim(name)) > 0),
            CHECK (length(trim(text)) > 0),
            CHECK (action_point_cost >= 0),
            CHECK (action_type IN ('Interaction', 'Attack'))
        );

        -- NOTE: We intentionally do NOT enforce "one action per card".
        -- Multiple actions may be associated with the same unit/item/level.
        --
        -- Validate links and enforce "at most one of unit_id/item_id/level_id".
        CREATE TRIGGER trg_actions_validate_action_links_insert
        BEFORE INSERT ON actions
        FOR EACH ROW
        BEGIN
            SELECT
                CASE
                    WHEN
                        (NEW.unit_id IS NOT NULL AND (NEW.item_id IS NOT NULL OR NEW.level_id IS NOT NULL))
                        OR (NEW.item_id IS NOT NULL AND NEW.level_id IS NOT NULL)
                    THEN
                        RAISE(ABORT, 'actions may be linked to at most one of unit_id, item_id, level_id')
                END;

            SELECT
                CASE
                    WHEN NEW.unit_id IS NOT NULL
                         AND (SELECT id FROM units WHERE id = NEW.unit_id) IS NULL
                    THEN RAISE(ABORT, 'actions.unit_id references missing units.id')
                END;

            SELECT
                CASE
                    WHEN NEW.item_id IS NOT NULL
                         AND (SELECT id FROM items WHERE id = NEW.item_id) IS NULL
                    THEN RAISE(ABORT, 'actions.item_id references missing items.id')
                END;

            SELECT
                CASE
                    WHEN NEW.level_id IS NOT NULL
                         AND (SELECT id FROM levels WHERE id = NEW.level_id) IS NULL
                    THEN RAISE(ABORT, 'actions.level_id references missing levels.id')
                END;
        END;

        CREATE TRIGGER trg_actions_validate_action_links_update
        BEFORE UPDATE OF unit_id, item_id, level_id ON actions
        FOR EACH ROW
        BEGIN
            SELECT
                CASE
                    WHEN
                        (NEW.unit_id IS NOT NULL AND (NEW.item_id IS NOT NULL OR NEW.level_id IS NOT NULL))
                        OR (NEW.item_id IS NOT NULL AND NEW.level_id IS NOT NULL)
                    THEN
                        RAISE(ABORT, 'actions may be linked to at most one of unit_id, item_id, level_id')
                END;

            SELECT
                CASE
                    WHEN NEW.unit_id IS NOT NULL
                         AND (SELECT id FROM units WHERE id = NEW.unit_id) IS NULL
                    THEN RAISE(ABORT, 'actions.unit_id references missing units.id')
                END;

            SELECT
                CASE
                    WHEN NEW.item_id IS NOT NULL
                         AND (SELECT id FROM items WHERE id = NEW.item_id) IS NULL
                    THEN RAISE(ABORT, 'actions.item_id references missing items.id')
                END;

            SELECT
                CASE
                    WHEN NEW.level_id IS NOT NULL
                         AND (SELECT id FROM levels WHERE id = NEW.level_id) IS NULL
                    THEN RAISE(ABORT, 'actions.level_id references missing levels.id')
                END;
        END;

        CREATE TABLE attacks (
            id           INTEGER PRIMARY KEY AUTOINCREMENT,
            action_id    INTEGER NOT NULL UNIQUE,
            damage       INTEGER NOT NULL,
            damage_type  TEXT NOT NULL,
            skill        TEXT NOT NULL,
            target       INTEGER NOT NULL,
            range        INTEGER NOT NULL,

            created_at   TEXT NOT NULL DEFAULT (strftime('%Y-%m-%dT%H:%M:%fZ', 'now')),
            updated_at   TEXT NOT NULL DEFAULT (strftime('%Y-%m-%dT%H:%M:%fZ', 'now')),

            FOREIGN KEY (action_id) REFERENCES actions(id) ON DELETE CASCADE,

            CHECK (damage >= 0),
            CHECK (range >= 0),
            CHECK (target BETWEEN 1 AND 14),
            CHECK (damage_type IN ('Arcane', 'Physical')),
            CHECK (skill IN ('Strength', 'Focus', 'Intelligence', 'Knowledge', 'Agility'))
        );

        CREATE TABLE interactions (
            id         INTEGER PRIMARY KEY AUTOINCREMENT,
            action_id  INTEGER NOT NULL UNIQUE,
            range      INTEGER NOT NULL,
            skill      TEXT NOT NULL,
            target     INTEGER NULL,

            created_at TEXT NOT NULL DEFAULT (strftime('%Y-%m-%dT%H:%M:%fZ', 'now')),
            updated_at TEXT NOT NULL DEFAULT (strftime('%Y-%m-%dT%H:%M:%fZ', 'now')),

            FOREIGN KEY (action_id) REFERENCES actions(id) ON DELETE CASCADE,

            CHECK (range >= 0),
            CHECK (target IS NULL OR target BETWEEN 1 AND 14),
            CHECK (skill IN ('Strength', 'Focus', 'Intelligence', 'Knowledge', 'Agility'))
        );

        -- Emulate ON DELETE SET NULL by clearing links when a card is deleted.
        CREATE TRIGGER trg_units_delete_clear_actions
        AFTER DELETE ON units
        FOR EACH ROW
        BEGIN
            UPDATE actions SET unit_id = NULL WHERE unit_id = OLD.id;
        END;

        CREATE TRIGGER trg_items_delete_clear_actions
        AFTER DELETE ON items
        FOR EACH ROW
        BEGIN
            UPDATE actions SET item_id = NULL WHERE item_id = OLD.id;
        END;

        CREATE TRIGGER trg_levels_delete_clear_actions
        AFTER DELETE ON levels
        FOR EACH ROW
        BEGIN
            UPDATE actions SET level_id = NULL WHERE level_id = OLD.id;
        END;
        
CREATE TABLE stat_modifiers (
    id INTEGER PRIMARY KEY AUTOINCREMENT,
    stat TEXT NOT NULL,
    value INTEGER NOT NULL,
    operator TEXT NOT NULL
);
CREATE TABLE unit_stat_modifiers (
    unit_id INTEGER NOT NULL REFERENCES units(id) ON DELETE CASCADE,
    stat_modifier_id INTEGER NOT NULL UNIQUE REFERENCES stat_modifiers(id) ON DELETE CASCADE
);
CREATE TABLE item_stat_modifiers (
    item_id INTEGER NOT NULL REFERENCES items(id) ON DELETE CASCADE,
    stat_modifier_id INTEGER NOT NULL UNIQUE REFERENCES stat_modifiers(id) ON DELETE CASCADE
);
CREATE TABLE level_stat_modifiers (
    level_id INTEGER NOT NULL REFERENCES levels(id) ON DELETE CASCADE,
    stat_modifier_id INTEGER NOT NULL UNIQUE REFERENCES stat_modifiers(id) ON DELETE CASCADE
);
CREATE TABLE armor_modifiers (
    id INTEGER PRIMARY KEY AUTOINCREMENT,
    card_id INTEGER NOT NULL,
    value INTEGER NOT NULL,
    suit TEXT NOT NULL,
    damage_type TEXT NOT NULL
);
CREATE TABLE item_armor_modifiers (
    item_id INTEGER NOT NULL REFERENCES items(id) ON DELETE CASCADE,
    armor_modifier_id INTEGER NOT NULL UNIQUE REFERENCES armor_modifiers(id) ON DELETE CASCADE
);
CREATE TABLE level_armor_modifiers (
    level_id INTEGER NOT NULL REFERENCES levels(id) ON DELETE CASCADE,
    armor_modifier_id INTEGER NOT NULL UNIQUE REFERENCES armor_modifiers(id) ON DELETE CASCADE
);
CREATE TABLE hex_grids (
    id INTEGER PRIMARY KEY AUTOINCREMENT,
    name TEXT NOT NULL UNIQUE,
    width INTEGER NOT NULL,
    height INTEGER NOT NULL,
    created_at TEXT NOT NULL DEFAULT (strftime('%Y-%m-%dT%H:%M:%fZ', 'now')),
    updated_at TEXT NOT NULL DEFAULT (strftime('%Y-%m-%dT%H:%M:%fZ', 'now'))
);
CREATE TABLE hex_tiles (
    id INTEGER PRIMARY KEY AUTOINCREMENT,
    hex_grid_id INTEGER NOT NULL REFERENCES hex_grids(id) ON DELETE CASCADE,
    x INTEGER NOT NULL,
    y INTEGER NOT NULL,
    user_data_json TEXT NULL,
    unit_id INTEGER NULL,
    item_id INTEGER NULL,
    level_id INTEGER NULL,
    type TEXT NULL,
    created_at TEXT NOT NULL DEFAULT (strftime('%Y-%m-%dT%H:%M:%fZ', 'now')),
    updated_at TEXT NOT NULL DEFAULT (strftime('%Y-%m-%dT%H:%M:%fZ', 'now')),
    UNIQUE (hex_grid_id, x, y)
);
"#;

/// A database shared by every connection opened under `name` while the
/// returned connection stays open.
fn shared_db(name: &str) -> Connection {
    let conn = Connection::open(format!("file:{name}?mode=memory&cache=shared")).expect("open db");
    conn.pragma_update(None, "foreign_keys", "ON").expect("foreign keys");
    conn.execute_batch(SCHEMA).expect("schema");
    conn
}

fn open(name: &str) -> Result<Connection, String> {
    let conn = Connection::open(format!("file:{name}?mode=memory&cache=shared"))
        .map_err(|e| e.to_string())?;
    conn.pragma_update(None, "foreign_keys", "ON").map_err(|e| e.to_string())?;
    Ok(conn)
}

fn editor() -> ToolsGui {
    ToolsGui::new(
        PathBuf::from("."),
        PathBuf::from("tabletop.sqlite3"),
        PathBuf::from("migrations"),
    )
}

/// Decides `m` and runs whatever database work and follow-up messages it
/// asks for, as the host application does.
fn send(gui: &mut ToolsGui, db: &str, m: Message) {
    let mut next = Some(m);
    while let Some(m) = next.take() {
        let mut eff = gui.update(m);
        loop {
            eff = match eff {
                ToolsEffect::Nothing => break,
                ToolsEffect::Refresh => {
                    next = Some(Message::Refresh);
                    break;
                }
                ToolsEffect::RefreshHexGrids => {
                    next = Some(Message::RefreshHexGrids);
                    break;
                }
                ToolsEffect::EnsureDbReady => gui.db_ready(Ok(())),
                ToolsEffect::OpenDb(task) => gui.run_task(task, open(db)),
            };
        }
    }
}

fn status(gui: &ToolsGui) -> String {
    gui.status.clone().unwrap_or_default()
}

#[test]
fn new_editor_has_a_full_nine_by_nine_draft() {
    let gui = editor();
    assert_eq!(gui.tab, Tab::Units);
    assert_eq!(gui.hex_grid_tiles_present.len(), 81);
    assert!(gui.hex_grid_tiles_present.contains(&(8, 8)));
    assert!(!gui.hex_grid_tiles_present.contains(&(9, 0)));
    assert!(gui.hex_grid_tiles_with_data.is_empty());
    assert_eq!(gui.unit_strength, "0");
    assert_eq!(gui.action_type, "Interaction");
    assert_eq!(gui.attack_target, "1");
    assert_eq!(gui.hex_grid_name, "New Hex Grid");
    assert_eq!(gui.active_view, ActiveView::List);
}

#[test]
fn switching_to_hex_grids_refreshes_the_grid_list() {
    let mut gui = editor();
    gui.active_view = ActiveView::EditUnit { original_name: "A".to_string() };
    assert_eq!(gui.update(Message::SwitchTab(Tab::HexGrids)), ToolsEffect::RefreshHexGrids);
    assert_eq!(gui.tab, Tab::HexGrids);
    assert_eq!(gui.active_view, ActiveView::List);
    assert_eq!(gui.update(Message::SwitchTab(Tab::Items)), ToolsEffect::Nothing);
}

#[test]
fn new_hex_grid_uses_typed_size_with_defaults() {
    let mut gui = editor();
    gui.update(Message::HexGridWidthChanged(" 3 ".to_string()));
    gui.update(Message::HexGridHeightChanged("2".to_string()));
    gui.hex_grid_id = Some(7);
    gui.hex_grid_selected_x = Some(1);
    gui.hex_grid_selected_y = Some(1);
    gui.update(Message::CreateNewHexGrid);
    assert_eq!(gui.hex_grid_tiles_present.len(), 6);
    assert_eq!(gui.hex_grid_id, None);
    assert_eq!(gui.hex_grid_selected_x, None);

    gui.update(Message::HexGridWidthChanged("wide".to_string()));
    gui.update(Message::HexGridHeightChanged("-4".to_string()));
    gui.update(Message::CreateNewHexGrid);
    // 9 columns by default, at least 1 row
    assert_eq!(gui.hex_grid_tiles_present.len(), 9);
}

#[test]
fn resize_keeps_in_bounds_tiles_and_drops_selection_outside() {
    let mut gui = editor();
    gui.update(Message::HexGridTileClicked(5, 5));
    gui.update(Message::HexGridTileClear(0, 0));
    gui.update(Message::HexGridWidthChanged("2".to_string()));
    gui.update(Message::HexGridHeightChanged("2".to_string()));
    gui.update(Message::HexGridApplyResize);
    assert_eq!(gui.hex_grid_tiles_present.len(), 3);
    assert!(!gui.hex_grid_tiles_present.contains(&(0, 0)));
    assert_eq!(gui.hex_grid_selected_x, None);
    assert_eq!(gui.hex_grid_width, "2");

    gui.update(Message::HexGridWidthChanged("0".to_string()));
    gui.update(Message::HexGridApplyResize);
    assert_eq!(status(&gui), "Width/height must be positive integers");
    assert_eq!(gui.hex_grid_tiles_present.len(), 3);
}

#[test]
fn clicking_and_clearing_tiles() {
    let mut gui = editor();
    gui.update(Message::HexGridTileClear(2, 3));
    assert!(!gui.hex_grid_tiles_present.contains(&(2, 3)));
    // A click on an empty coordinate creates the tile; with no stored grid,
    // nothing is loaded.
    assert_eq!(gui.update(Message::HexGridTileClicked(2, 3)), ToolsEffect::Nothing);
    assert!(gui.hex_grid_tiles_present.contains(&(2, 3)));
    assert_eq!(gui.hex_grid_selected_x, Some(2));
    gui.hex_grid_id = Some(4);
    assert_eq!(
        gui.update(Message::HexGridTileClicked(1, 1)),
        ToolsEffect::OpenDb(DbTask::LoadTile { grid_id: 4, x: 1, y: 1 })
    );
    gui.update(Message::HexTileTypeChanged("water".to_string()));
    gui.update(Message::HexGridTileClear(1, 1));
    assert_eq!(gui.hex_grid_selected_x, None);
    assert_eq!(gui.hex_tile_type, "");
}

#[test]
fn tile_association_inputs_are_exclusive() {
    let mut gui = editor();
    gui.update(Message::HexTileUnitQueryChanged("Hero".to_string()));
    gui.update(Message::HexTileItemQueryChanged("Potion".to_string()));
    assert_eq!(gui.hex_tile_unit_query, "");
    assert_eq!(gui.hex_tile_item_query, "Potion");
    gui.update(Message::HexTileTypeChanged("  ".to_string()));
    assert_eq!(gui.hex_tile_item_query, "Potion");
    gui.update(Message::HexTileTypeChanged("lava".to_string()));
    assert_eq!(gui.hex_tile_item_query, "");
    assert_eq!(gui.tile_inputs_chosen(), 1);
}

#[test]
fn picking_a_unit_by_name_needs_a_known_unit() {
    let mut gui = editor();
    gui.units.push(tabletop::tools::gui::types::UnitRow {
        name: "Hero".to_string(),
        strength: 1,
        focus: 1,
        intelligence: 1,
        agility: 1,
        knowledge: 1,
    });
    gui.update(Message::HexTileTypeChanged("lava".to_string()));
    gui.update(Message::HexTilePickUnitByName("Villain".to_string()));
    assert_eq!(gui.hex_tile_type, "lava");
    gui.update(Message::HexTilePickUnitByName("Hero".to_string()));
    assert_eq!(gui.hex_tile_type, "");
    assert_eq!(gui.hex_tile_unit_query, "Hero");
    assert_eq!(gui.hex_tile_unit_name.as_deref(), Some("Hero"));
}

#[test]
fn saving_tile_associations_checks_grid_and_selection() {
    let mut gui = editor();
    assert_eq!(gui.update(Message::SaveHexTileAssociations), ToolsEffect::Nothing);
    assert_eq!(status(&gui), "Save the hex grid first (no grid id yet)");
    gui.hex_grid_id = Some(1);
    gui.update(Message::SaveHexTileAssociations);
    assert_eq!(status(&gui), "Select a tile first");
}

#[test]
fn queued_armor_modifiers_are_checked_and_reset() {
    let mut gui = editor();
    gui.update(Message::ArmorModifierValueChanged("x".to_string()));
    gui.update(Message::AddPendingArmorModifier);
    assert_eq!(status(&gui), "Value must be an integer: invalid digit found in string");
    assert!(gui.pending_armor_modifiers.is_empty());

    gui.update(Message::ArmorModifierValueChanged("3".to_string()));
    gui.update(Message::ArmorModifierSuitChanged("Clover".to_string()));
    gui.update(Message::AddPendingArmorModifier);
    assert_eq!(
        status(&gui),
        "Invalid Suit (expected Spades, Clubs, Diamonds, or Hearts): Invalid suit: Clover"
    );

    gui.update(Message::ArmorModifierSuitChanged(" Hearts ".to_string()));
    gui.update(Message::AddPendingArmorModifier);
    assert_eq!(status(&gui), "Armor modifier queued");
    assert_eq!(gui.pending_armor_modifiers.len(), 1);
    assert_eq!(gui.pending_armor_modifiers[0].value, 3);
    assert_eq!(gui.armor_modifier_value, "0");
    assert_eq!(gui.armor_modifier_suit, "Spades");
    gui.update(Message::RemovePendingArmorModifier(5));
    assert_eq!(gui.pending_armor_modifiers.len(), 1);
    gui.update(Message::RemovePendingArmorModifier(0));
    assert!(gui.pending_armor_modifiers.is_empty());
}

#[test]
fn queued_stat_modifiers_need_a_known_stat_and_a_value() {
    let mut gui = editor();
    gui.update(Message::StatModifierStatChanged("Wisdom".to_string()));
    gui.update(Message::AddPendingStatModifier);
    assert_eq!(
        status(&gui),
        "Stat is required (Strength, Focus, Intelligence, Knowledge, or Agility): Stat must be one of Strength, Focus, Intelligence, Knowledge, Agility (got: Wisdom)"
    );
    gui.update(Message::StatModifierStatChanged("Focus".to_string()));
    gui.update(Message::StatModifierValueChanged(" ".to_string()));
    gui.update(Message::AddPendingStatModifier);
    assert_eq!(status(&gui), "Value must be a number");
    gui.update(Message::StatModifierValueChanged("12a".to_string()));
    gui.update(Message::AddPendingStatModifier);
    assert_eq!(
        status(&gui),
        "Value must be an integer (or empty): invalid digit found in string"
    );
    gui.update(Message::StatModifierValueChanged("-2".to_string()));
    gui.update(Message::AddPendingStatModifier);
    assert_eq!(gui.pending_stat_modifiers.len(), 1);
    assert_eq!(gui.pending_stat_modifiers[0].value, -2);
    gui.update(Message::ClearPendingStatModifiers);
    assert!(gui.pending_stat_modifiers.is_empty());
}

#[test]
fn edits_need_the_matching_editor() {
    let mut gui = editor();
    assert_eq!(gui.update(Message::SaveUnitEdits), ToolsEffect::Nothing);
    assert_eq!(status(&gui), "Not currently editing a unit");
    gui.update(Message::SaveActionEdits);
    assert_eq!(status(&gui), "Not currently editing an action");
    gui.update(Message::CreateItemStatModifier);
    assert_eq!(status(&gui), "not editing an item");
    gui.update(Message::ClearStatus);
    assert_eq!(gui.status, None);
}

#[test]
fn failure_to_open_the_database_is_shown() {
    let mut gui = editor();
    let eff = gui.run_task(DbTask::CreateUnit, Err("cannot open".to_string()));
    assert_eq!(eff, ToolsEffect::Refresh);
    assert_eq!(status(&gui), "cannot open");
    assert_eq!(gui.db_ready(Err("no dir".to_string())), ToolsEffect::Nothing);
    assert_eq!(status(&gui), "DB init failed: no dir");
}

#[test]
fn unit_round_trip_through_the_editor() {
    let db = "gui_units";
    let _keep = shared_db(db);
    let mut gui = editor();

    gui.update(Message::UnitNameChanged("  Hero ".to_string()));
    gui.update(Message::UnitStrengthChanged("7".to_string()));
    send(&mut gui, db, Message::CreateUnit);
    assert_eq!(status(&gui), "Unit created");
    assert_eq!(gui.unit_name, "");
    assert_eq!(gui.units.len(), 1);
    assert_eq!(gui.units[0].name, "Hero");
    assert_eq!(gui.units[0].strength, 7);

    gui.update(Message::UnitStrengthChanged("x".to_string()));
    send(&mut gui, db, Message::CreateUnit);
    assert_eq!(status(&gui), "Strength must be an integer: invalid digit found in string");

    send(&mut gui, db, Message::EditUnit("Hero".to_string()));
    assert_eq!(gui.unit_name, "Hero");
    assert_eq!(gui.unit_strength, "7");
    assert_eq!(gui.active_view, ActiveView::EditUnit { original_name: "Hero".to_string() });

    gui.update(Message::UnitNameChanged("Champion".to_string()));
    gui.update(Message::UnitFocusChanged("4".to_string()));
    send(&mut gui, db, Message::SaveUnitEdits);
    assert_eq!(status(&gui), "Unit updated");
    assert_eq!(gui.active_view, ActiveView::List);
    assert_eq!(gui.units[0].name, "Champion");
    assert_eq!(gui.units[0].focus, 4);

    send(&mut gui, db, Message::EditUnit("Nobody".to_string()));
    assert_eq!(status(&gui), "Unit `Nobody` not found");

    send(&mut gui, db, Message::DeleteUnit("Champion".to_string()));
    assert_eq!(status(&gui), "Deleted unit `Champion`");
    assert!(gui.units.is_empty());
}

#[test]
fn actions_and_their_associations_through_the_editor() {
    let db = "gui_actions";
    let _keep = shared_db(db);
    let mut gui = editor();

    gui.update(Message::UnitNameChanged("Hero".to_string()));
    send(&mut gui, db, Message::CreateUnit);

    gui.update(Message::ActionNameChanged("Strike".to_string()));
    gui.update(Message::ActionTypeChanged("Attack".to_string()));
    gui.update(Message::ActionTextChanged("Deal damage.".to_string()));
    gui.update(Message::AttackDamageChanged("3".to_string()));
    gui.update(Message::AttackTargetChanged("10".to_string()));
    send(&mut gui, db, Message::CreateAction);
    assert_eq!(status(&gui), "Action created");
    assert_eq!(gui.actions.len(), 1);
    assert_eq!(gui.actions[0].action_type, "Attack");

    gui.update(Message::ActionTypeChanged("Spell".to_string()));
    send(&mut gui, db, Message::CreateAction);
    assert_eq!(status(&gui), "Action Type must be `Interaction` or `Attack` (got `Spell`)");

    send(&mut gui, db, Message::EditUnit("Hero".to_string()));
    gui.update(Message::UnitAssocActionNameChanged(" ".to_string()));
    send(&mut gui, db, Message::AddUnitAssociation);
    assert_eq!(status(&gui), "Select an Action (or use Clear) to associate with this Unit");
    gui.update(Message::UnitAssocActionNameChanged("Strike".to_string()));
    send(&mut gui, db, Message::AddUnitAssociation);
    assert_eq!(status(&gui), "Unit association added");
    assert_eq!(gui.actions[0].unit_name.as_deref(), Some("Hero"));

    send(&mut gui, db, Message::EditUnit("Hero".to_string()));
    assert_eq!(gui.unit_assoc_action_name, "Strike");

    send(&mut gui, db, Message::EditAction("Strike".to_string()));
    assert_eq!(gui.tab, Tab::Actions);
    assert_eq!(gui.attack_damage, "3");
    assert_eq!(gui.attack_target, "10");
    assert_eq!(gui.action_point_cost, "0");

    gui.update(Message::AttackDamageChanged("5".to_string()));
    send(&mut gui, db, Message::SaveAttackEdits);
    assert_eq!(status(&gui), "Attack saved");

    send(&mut gui, db, Message::EditUnit("Hero".to_string()));
    send(&mut gui, db, Message::RemoveUnitAssociation("Strike".to_string()));
    assert_eq!(status(&gui), "Unit association removed");
    send(&mut gui, db, Message::RemoveUnitAssociation("Strike".to_string()));
    assert_eq!(status(&gui), "Action `Strike` not found (or has no association)");
}

#[test]
fn modifiers_through_the_editor() {
    let db = "gui_modifiers";
    let _keep = shared_db(db);
    let mut gui = editor();

    gui.update(Message::ArmorModifierValueChanged("2".to_string()));
    gui.update(Message::AddPendingArmorModifier);
    gui.update(Message::StatModifierValueChanged("1".to_string()));
    gui.update(Message::AddPendingStatModifier);
    gui.update(Message::ItemNameChanged("Shield".to_string()));
    send(&mut gui, db, Message::CreateItemAndMaybeAssociate);
    assert_eq!(status(&gui), "Item created");
    assert!(gui.pending_armor_modifiers.is_empty());
    assert!(gui.pending_stat_modifiers.is_empty());
    assert_eq!(gui.armor_modifiers.len(), 1);
    assert_eq!(gui.armor_modifiers[0].item_name.as_deref(), Some("Shield"));
    assert_eq!(gui.armor_modifiers[0].suit, "Spades");
    assert_eq!(gui.stat_modifiers.len(), 1);

    send(&mut gui, db, Message::CreateArmorModifier);
    assert_eq!(
        status(&gui),
        "From create-card views, queue armor modifiers with 'AddPendingArmorModifier' and they will be saved when the card is created"
    );

    send(&mut gui, db, Message::EditItem("Shield".to_string()));
    gui.update(Message::ArmorModifierValueChanged("4".to_string()));
    gui.update(Message::ArmorModifierDamageTypeChanged("Arcane".to_string()));
    send(&mut gui, db, Message::CreateArmorModifier);
    assert_eq!(status(&gui), "Armor modifier created");
    assert_eq!(gui.armor_modifiers.len(), 2);
    assert_eq!(gui.armor_modifiers[1].damage_type, "Arcane");

    let id = gui.armor_modifiers[1].id;
    send(&mut gui, db, Message::EditArmorModifier(id));
    assert_eq!(gui.armor_modifier_value, "4");
    assert_eq!(gui.armor_modifier_damage_type, "Arcane");
    gui.update(Message::ArmorModifierValueChanged("6".to_string()));
    send(&mut gui, db, Message::SaveArmorModifierEdits);
    assert_eq!(status(&gui), "Armor modifier updated");
    assert_eq!(gui.armor_modifiers[1].value, 6);

    send(&mut gui, db, Message::RemoveArmorModifierLink(id));
    assert_eq!(status(&gui), format!("Removed armor modifier link (id={id})"));
    assert_eq!(gui.armor_modifiers[1].item_name, None);

    send(&mut gui, db, Message::DeleteArmorModifier(id));
    assert_eq!(status(&gui), format!("Deleted armor modifier id={id}"));
    assert_eq!(gui.armor_modifiers.len(), 1);

    let stat_id = gui.stat_modifiers[0].id;
    send(&mut gui, db, Message::DeleteStatModifier(stat_id));
    assert!(gui.stat_modifiers.is_empty());
}

#[test]
fn hex_grid_save_load_and_tile_associations() {
    let db = "gui_hex";
    let _keep = shared_db(db);
    let mut gui = editor();

    gui.update(Message::HexGridNameChanged("  ".to_string()));
    gui.update(Message::SaveHexGrid);
    assert_eq!(status(&gui), "Hex grid name cannot be empty");
    gui.update(Message::HexGridNameChanged("Arena".to_string()));
    gui.update(Message::HexGridWidthChanged("two".to_string()));
    gui.update(Message::SaveHexGrid);
    assert_eq!(status(&gui), "Invalid width: two: invalid digit found in string");

    gui.update(Message::HexGridWidthChanged("2".to_string()));
    gui.update(Message::HexGridHeightChanged("2".to_string()));
    gui.update(Message::HexGridApplyResize);
    gui.update(Message::HexGridTileClear(1, 1));
    send(&mut gui, db, Message::SaveHexGrid);
    assert_eq!(status(&gui), "Hex grid saved (id=1)");
    assert_eq!(gui.hex_grid_id, Some(1));
    assert_eq!(gui.hex_grids.len(), 1);
    assert_eq!(gui.hex_grids[0].name, "Arena");

    gui.update(Message::UnitNameChanged("Hero".to_string()));
    send(&mut gui, db, Message::CreateUnit);

    send(&mut gui, db, Message::HexGridTileClicked(0, 1));
    gui.update(Message::HexTileUnitQueryChanged("Hero".to_string()));
    send(&mut gui, db, Message::SaveHexTileAssociations);
    assert_eq!(status(&gui), "Hex tile associations saved");
    assert_eq!(gui.hex_tile_unit_id, Some(1));
    assert!(gui.hex_grid_tiles_with_data.contains(&(0, 1)));

    send(&mut gui, db, Message::CreateNewHexGrid);
    send(&mut gui, db, Message::LoadHexGridById(1));
    assert_eq!(gui.hex_grid_name, "Arena");
    assert_eq!(gui.hex_grid_width, "2");
    assert_eq!(gui.hex_grid_tiles_present.len(), 3);
    assert!(!gui.hex_grid_tiles_present.contains(&(1, 1)));
    assert!(gui.hex_grid_tiles_with_data.contains(&(0, 1)));
    assert_eq!(gui.hex_grid_tiles_with_data.len(), 1);

    send(&mut gui, db, Message::HexGridTileClicked(0, 1));
    assert_eq!(gui.hex_tile_unit_id, Some(1));
    assert_eq!(gui.hex_tile_unit_query, "");

    send(&mut gui, db, Message::DeleteHexGridById(1));
    assert_eq!(gui.hex_grid_id, None);
    assert!(gui.hex_grids.is_empty());
}
