use rusqlite::Connection;
use tabletop::cards::level::{delete_card, get_card, rename_card, save_card, update_card, Level};

fn open_in_memory_db() -> Connection {
    let conn = Connection::open_in_memory().expect("open in-memory sqlite db");
    conn.pragma_update(None, "foreign_keys", "ON")
        .expect("enable foreign_keys");
    conn
}

fn create_schema(conn: &Connection) {
    conn.execute_batch(
        r#"
        CREATE TABLE units (
            id            INTEGER PRIMARY KEY AUTOINCREMENT,
            name          TEXT NOT NULL UNIQUE,

            strength      INTEGER NOT NULL,
            focus         INTEGER NOT NULL,
            intelligence  INTEGER NOT NULL,
            agility       INTEGER NOT NULL,
            knowledge     INTEGER NOT NULL,

            created_at    TEXT NOT NULL DEFAULT (strftime('%Y-%m-%dT%H:%M:%fZ', 'now')),
            updated_at    TEXT NOT NULL DEFAULT (strftime('%Y-%m-%dT%H:%M:%fZ', 'now')),

            CHECK (length(trim(name)) > 0)
        );

        CREATE TABLE items (
            id            INTEGER PRIMARY KEY AUTOINCREMENT,
            name          TEXT NOT NULL UNIQUE,

            created_at    TEXT NOT NULL DEFAULT (strftime('%Y-%m-%dT%H:%M:%fZ', 'now')),
            updated_at    TEXT NOT NULL DEFAULT (strftime('%Y-%m-%dT%H:%M:%fZ', 'now')),

            CHECK (length(trim(name)) > 0)
        );

        CREATE TABLE levels (
            id            INTEGER PRIMARY KEY AUTOINCREMENT,
            name          TEXT NOT NULL UNIQUE,
            text          TEXT NOT NULL,

            created_at    TEXT NOT NULL DEFAULT (strftime('%Y-%m-%dT%H:%M:%fZ', 'now')),
            updated_at    TEXT NOT NULL DEFAULT (strftime('%Y-%m-%dT%H:%M:%fZ', 'now')),

            CHECK (length(trim(name)) > 0),
            CHECK (length(trim(text)) > 0)
        );

        CREATE TABLE actions (
            id                 INTEGER PRIMARY KEY AUTOINCREMENT,
            name               TEXT NOT NULL UNIQUE,
            action_point_cost  INTEGER NOT NULL,
            action_type        TEXT NOT NULL,
            text               TEXT NOT NULL,

            -- Optional association: an action can belong to at most one of:
            -- - a unit, item, or level (enforced by triggers below)
            unit_id            INTEGER NULL,
            item_id            INTEGER NULL,
            level_id           INTEGER NULL,

            created_at         TEXT NOT NULL DEFAULT (strftime('%Y-%m-%dT%H:%M:%fZ', 'now')),
            updated_at         TEXT NOT NULL DEFAULT (strftime('%Y-%m-%dT%H:%M:%fZ', 'now')),

            CHECK (length(trim(name)) > 0),
            CHECK (length(trim(text)) > 0),
            CHECK (action_point_cost >= 0),
            CHECK (action_type IN ('Interaction', 'Attack'))
        );

        -- NOTE: We intentionally do NOT enforce "one action per card".
        -- Multiple actions may be associated with the same unit/item/level.
        --
        -- Validate links and enforce "at most one of unit_id/item_id/level_id".
        CREATE TRIGGER trg_actions_validate_action_links_insert
        BEFORE INSERT ON actions
        FOR EACH ROW
        BEGIN
            SELECT
                CASE
                    WHEN
                        (NEW.unit_id IS NOT NULL AND (NEW.item_id IS NOT NULL OR NEW.level_id IS NOT NULL))
                        OR (NEW.item_id IS NOT NULL AND NEW.level_id IS NOT NULL)
                    THEN
                        RAISE(ABORT, 'actions may be linked to at most one of unit_id, item_id, level_id')
                END;

            SELECT
                CASE
                    WHEN NEW.unit_id IS NOT NULL
                         AND (SELECT id FROM units WHERE id = NEW.unit_id) IS NULL
                    THEN RAISE(ABORT, 'actions.unit_id references missing units.id')
                END;

            SELECT
                CASE
                    WHEN NEW.item_id IS NOT NULL
                         AND (SELECT id FROM items WHERE id = NEW.item_id) IS NULL
                    THEN RAISE(ABORT, 'actions.item_id references missing items.id')
                END;

            SELECT
                CASE
                    WHEN NEW.level_id IS NOT NULL
                         AND (SELECT id FROM levels WHERE id = NEW.level_id) IS NULL
                    THEN RAISE(ABORT, 'actions.level_id references missing levels.id')
                END;
        END;

        CREATE TRIGGER trg_actions_validate_action_links_update
        BEFORE UPDATE OF unit_id, item_id, level_id ON actions
        FOR EACH ROW
        BEGIN
            SELECT
                CASE
                    WHEN
                        (NEW.unit_id IS NOT NULL AND (NEW.item_id IS NOT NULL OR NEW.level_id IS NOT NULL))
                        OR (NEW.item_id IS NOT NULL AND NEW.level_id IS NOT NULL)
                    THEN
                        RAISE(ABORT, 'actions may be linked to at most one of unit_id, item_id, level_id')
                END;

            SELECT
                CASE
                    WHEN NEW.unit_id IS NOT NULL
                         AND (SELECT id FROM units WHERE id = NEW.unit_id) IS NULL
                    THEN RAISE(ABORT, 'actions.unit_id references missing units.id')
                END;

            SELECT
                CASE
                    WHEN NEW.item_id IS NOT NULL
                         AND (SELECT id FROM items WHERE id = NEW.item_id) IS NULL
                    THEN RAISE(ABORT, 'actions.item_id references missing items.id')
                END;

            SELECT
                CASE
                    WHEN NEW.level_id IS NOT NULL
                         AND (SELECT id FROM levels WHERE id = NEW.level_id) IS NULL
                    THEN RAISE(ABORT, 'actions.level_id references missing levels.id')
                END;
        END;

        CREATE TABLE attacks (
            id           INTEGER PRIMARY KEY AUTOINCREMENT,
            action_id    INTEGER NOT NULL UNIQUE,
            damage       INTEGER NOT NULL,
            damage_type  TEXT NOT NULL,
            skill        TEXT NOT NULL,
            target       INTEGER NOT NULL,
            range        INTEGER NOT NULL,

            created_at   TEXT NOT NULL DEFAULT (strftime('%Y-%m-%dT%H:%M:%fZ', 'now')),
            updated_at   TEXT NOT NULL DEFAULT (strftime('%Y-%m-%dT%H:%M:%fZ', 'now')),

            FOREIGN KEY (action_id) REFERENCES actions(id) ON DELETE CASCADE,

            CHECK (damage >= 0),
            CHECK (range >= 0),
            CHECK (target BETWEEN 1 AND 14),
            CHECK (damage_type IN ('Arcane', 'Physical')),
            CHECK (skill IN ('Strength', 'Focus', 'Intelligence', 'Knowledge', 'Agility'))
        );

        CREATE TABLE interactions (
            id         INTEGER PRIMARY KEY AUTOINCREMENT,
            action_id  INTEGER NOT NULL UNIQUE,
            range      INTEGER NOT NULL,
            skill      TEXT NOT NULL,
            target     INTEGER NULL,

            created_at TEXT NOT NULL DEFAULT (strftime('%Y-%m-%dT%H:%M:%fZ', 'now')),
            updated_at TEXT NOT NULL DEFAULT (strftime('%Y-%m-%dT%H:%M:%fZ', 'now')),

            FOREIGN KEY (action_id) REFERENCES actions(id) ON DELETE CASCADE,

            CHECK (range >= 0),
            CHECK (target IS NULL OR target BETWEEN 1 AND 14),
            CHECK (skill IN ('Strength', 'Focus', 'Intelligence', 'Knowledge', 'Agility'))
        );

        -- Emulate ON DELETE SET NULL by clearing links when a card is deleted.
        CREATE TRIGGER trg_units_delete_clear_actions
        AFTER DELETE ON units
        FOR EACH ROW
        BEGIN
            UPDATE actions SET unit_id = NULL WHERE unit_id = OLD.id;
        END;

        CREATE TRIGGER trg_items_delete_clear_actions
        AFTER DELETE ON items
        FOR EACH ROW
        BEGIN
            UPDATE actions SET item_id = NULL WHERE item_id = OLD.id;
        END;

        CREATE TRIGGER trg_levels_delete_clear_actions
        AFTER DELETE ON levels
        FOR EACH ROW
        BEGIN
            UPDATE actions SET level_id = NULL WHERE level_id = OLD.id;
        END;
        "#,
    )
    .expect("create test schema");
}

#[test]
fn level_save_card_persists_to_database() {
    let conn = open_in_memory_db();
    create_schema(&conn);

    let lv = Level {
        name: "Dungeon 1".to_string(),
        text: "A damp corridor lit by torches.".to_string(),
    };

    let saved = save_card(&conn, &lv).expect("save_card should succeed");
    assert_eq!(saved, lv);

    let reloaded = get_card(&conn, "Dungeon 1")
        .expect("get_card should succeed")
        .expect("saved card should exist");
    assert_eq!(reloaded, lv);
}

#[test]
fn level_get_card_returns_none_for_missing() {
    let conn = open_in_memory_db();
    create_schema(&conn);

    let missing = get_card(&conn, "Missing").expect("get_card should succeed");
    assert!(missing.is_none());
}

#[test]
fn update_card_updates_text_if_exists() {
    let conn = open_in_memory_db();
    create_schema(&conn);

    let lv = Level { name: "Dungeon 1".to_string(), text: "Old text".to_string() };
    save_card(&conn, &lv).expect("save level");

    let updated_lv = Level { name: "Dungeon 1".to_string(), text: "New text".to_string() };

    let updated = update_card(&conn, &updated_lv)
        .expect("update_card should succeed")
        .expect("row should exist");
    assert_eq!(updated, updated_lv);

    let reloaded = get_card(&conn, "Dungeon 1")
        .expect("get_card should succeed")
        .expect("card should exist");
    assert_eq!(reloaded, updated_lv);
}

#[test]
fn rename_card_renames_primary_key_and_updates_text() {
    let conn = open_in_memory_db();
    create_schema(&conn);

    let lv1 = Level { name: "Dungeon 1".to_string(), text: "Text 1".to_string() };
    save_card(&conn, &lv1).expect("save level");

    let lv2 = Level { name: "Dungeon 2".to_string(), text: "Text 2".to_string() };

    let renamed = rename_card(&conn, "Dungeon 1", &lv2)
        .expect("rename_card should succeed")
        .expect("row should exist to rename");
    assert_eq!(renamed, lv2);

    let old = get_card(&conn, "Dungeon 1").expect("get old after rename");
    assert!(old.is_none());

    let new = get_card(&conn, "Dungeon 2")
        .expect("get new after rename")
        .expect("renamed card should exist");
    assert_eq!(new, lv2);
}

#[test]
fn level_update_card_returns_none_if_missing() {
    let conn = open_in_memory_db();
    create_schema(&conn);

    let lv = Level { name: "Nope".to_string(), text: "Does not exist".to_string() };

    let updated = update_card(&conn, &lv).expect("update_card should succeed");
    assert!(updated.is_none());
}

#[test]
fn level_delete_card_removes_row() {
    let conn = open_in_memory_db();
    create_schema(&conn);

    let lv = Level { name: "Dungeon 1".to_string(), text: "Text".to_string() };
    save_card(&conn, &lv).expect("save level");

    let deleted = delete_card(&conn, "Dungeon 1").expect("delete_card should succeed");
    assert!(deleted);

    let after = get_card(&conn, "Dungeon 1").expect("get_card after delete");
    assert!(after.is_none());
}

#[test]
fn level_delete_card_returns_false_if_missing() {
    let conn = open_in_memory_db();
    create_schema(&conn);

    let deleted = delete_card(&conn, "Missing").expect("delete_card should succeed");
    assert!(!deleted);
}
