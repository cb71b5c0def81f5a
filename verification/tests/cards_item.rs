use rusqlite::Connection;
use tabletop::cards::item::{delete_card, get_card, list_cards, rename_card, save_card, update_card, Item};

fn open_in_memory_db() -> Connection {
    let conn = Connection::open_in_memory().expect("open in-memory sqlite db");
    conn.pragma_update(None, "foreign_keys", "ON")
        .expect("enable foreign_keys");
    conn
}

fn create_schema(conn: &Connection) {
    conn.execute_batch(
        r#"
        CREATE TABLE units (
            id            INTEGER PRIMARY KEY AUTOINCREMENT,
            name          TEXT NOT NULL UNIQUE,

            strength      INTEGER NOT NULL,
            focus         INTEGER NOT NULL,
            intelligence  INTEGER NOT NULL,
            agility       INTEGER NOT NULL,
            knowledge     INTEGER NOT NULL,

            created_at    TEXT NOT NULL DEFAULT (strftime('%Y-%m-%dT%H:%M:%fZ', 'now')),
            updated_at    TEXT NOT NULL DEFAULT (strftime('%Y-%m-%dT%H:%M:%fZ', 'now')),

            CHECK (length(trim(name)) > 0)
        );

        CREATE TABLE items (
            id            INTEGER PRIMARY KEY AUTOINCREMENT,
            name          TEXT NOT NULL UNIQUE,

            created_at    TEXT NOT NULL DEFAULT (strftime('%Y-%m-%dT%H:%M:%fZ', 'now')),
            updated_at    TEXT NOT NULL DEFAULT (strftime('%Y-%m-%dT%H:%M:%fZ', 'now')),

            CHECK (length(trim(name)) > 0)
        );

        CREATE TABLE levels (
            id            INTEGER PRIMARY KEY AUTOINCREMENT,
            name          TEXT NOT NULL UNIQUE,
            text          TEXT NOT NULL,

            created_at    TEXT NOT NULL DEFAULT (strftime('%Y-%m-%dT%H:%M:%fZ', 'now')),
            updated_at    TEXT NOT NULL DEFAULT (strftime('%Y-%m-%dT%H:%M:%fZ', 'now')),

            CHECK (length(trim(name)) > 0),
            CHECK (length(trim(text)) > 0)
        );

        CREATE TABLE actions (
            id                 INTEGER PRIMARY KEY AUTOINCREMENT,
            name               TEXT NOT NULL UNIQUE,
            action_point_cost  INTEGER NOT NULL,
            action_type        TEXT NOT NULL,
            text               TEXT NOT NULL,

            -- Optional association: an action can belong to at most one of:
            -- - a unit, item, or level (enforced by triggers below)
            unit_id            INTEGER NULL,
            item_id            INTEGER NULL,
            level_id           INTEGER NULL,

            created_at         TEXT NOT NULL DEFAULT (strftime('%Y-%m-%dT%H:%M:%fZ', 'now')),
            updated_at         TEXT NOT NULL DEFAULT (strftime('%Y-%m-%dT%H:%M:%fZ', 'now')),

            CHECK (length(trim(name)) > 0),
            CHECK (length(trim(text)) > 0),
            CHECK (action_point_cost >= 0),
            CHECK (action_type IN ('Interaction', 'Attack'))
        );

        -- NOTE: We intentionally do NOT enforce "one action per card".
        -- Multiple actions may be associated with the same unit/item/level.
        --
        -- Validate links and enforce "at most one of unit_id/item_id/level_id".
        CREATE TRIGGER trg_actions_validate_action_links_insert
        BEFORE INSERT ON actions
        FOR EACH ROW
        BEGIN
            SELECT
                CASE
                    WHEN
                        (NEW.unit_id IS NOT NULL AND (NEW.item_id IS NOT NULL OR NEW.level_id IS NOT NULL))
                        OR (NEW.item_id IS NOT NULL AND NEW.level_id IS NOT NULL)
                    THEN
                        RAISE(ABORT, 'actions may be linked to at most one of unit_id, item_id, level_id')
                END;

            SELECT
                CASE
                    WHEN NEW.unit_id IS NOT NULL
                         AND (SELECT id FROM units WHERE id = NEW.unit_id) IS NULL
                    THEN RAISE(ABORT, 'actions.unit_id references missing units.id')
                END;

            SELECT
                CASE
                    WHEN NEW.item_id IS NOT NULL
                         AND (SELECT id FROM items WHERE id = NEW.item_id) IS NULL
                    THEN RAISE(ABORT, 'actions.item_id references missing items.id')
                END;

            SELECT
                CASE
                    WHEN NEW.level_id IS NOT NULL
                         AND (SELECT id FROM levels WHERE id = NEW.level_id) IS NULL
                    THEN RAISE(ABORT, 'actions.level_id references missing levels.id')
                END;
        END;

        CREATE TRIGGER trg_actions_validate_action_links_update
        BEFORE UPDATE OF unit_id, item_id, level_id ON actions
        FOR EACH ROW
        BEGIN
            SELECT
                CASE
                    WHEN
                        (NEW.unit_id IS NOT NULL AND (NEW.item_id IS NOT NULL OR NEW.level_id IS NOT NULL))
                        OR (NEW.item_id IS NOT NULL AND NEW.level_id IS NOT NULL)
                    THEN
                        RAISE(ABORT, 'actions may be linked to at most one of unit_id, item_id, level_id')
                END;

            SELECT
                CASE
                    WHEN NEW.unit_id IS NOT NULL
                         AND (SELECT id FROM units WHERE id = NEW.unit_id) IS NULL
                    THEN RAISE(ABORT, 'actions.unit_id references missing units.id')
                END;

            SELECT
                CASE
                    WHEN NEW.item_id IS NOT NULL
                         AND (SELECT id FROM items WHERE id = NEW.item_id) IS NULL
                    THEN RAISE(ABORT, 'actions.item_id references missing items.id')
                END;

            SELECT
                CASE
                    WHEN NEW.level_id IS NOT NULL
                         AND (SELECT id FROM levels WHERE id = NEW.level_id) IS NULL
                    THEN RAISE(ABORT, 'actions.level_id references missing levels.id')
                END;
        END;

        CREATE TABLE attacks (
            id           INTEGER PRIMARY KEY AUTOINCREMENT,
            action_id    INTEGER NOT NULL UNIQUE,
            damage       INTEGER NOT NULL,
            damage_type  TEXT NOT NULL,
            skill        TEXT NOT NULL,
            target       INTEGER NOT NULL,
            range        INTEGER NOT NULL,

            created_at   TEXT NOT NULL DEFAULT (strftime('%Y-%m-%dT%H:%M:%fZ', 'now')),
            updated_at   TEXT NOT NULL DEFAULT (strftime('%Y-%m-%dT%H:%M:%fZ', 'now')),

            FOREIGN KEY (action_id) REFERENCES actions(id) ON DELETE CASCADE,

            CHECK (damage >= 0),
            CHECK (range >= 0),
            CHECK (target BETWEEN 1 AND 14),
            CHECK (damage_type IN ('Arcane', 'Physical')),
            CHECK (skill IN ('Strength', 'Focus', 'Intelligence', 'Knowledge', 'Agility'))
        );

        CREATE TABLE interactions (
            id         INTEGER PRIMARY KEY AUTOINCREMENT,
            action_id  INTEGER NOT NULL UNIQUE,
            range      INTEGER NOT NULL,
            skill      TEXT NOT NULL,
            target     INTEGER NULL,

            created_at TEXT NOT NULL DEFAULT (strftime('%Y-%m-%dT%H:%M:%fZ', 'now')),
            updated_at TEXT NOT NULL DEFAULT (strftime('%Y-%m-%dT%H:%M:%fZ', 'now')),

            FOREIGN KEY (action_id) REFERENCES actions(id) ON DELETE CASCADE,

            CHECK (range >= 0),
            CHECK (target IS NULL OR target BETWEEN 1 AND 14),
            CHECK (skill IN ('Strength', 'Focus', 'Intelligence', 'Knowledge', 'Agility'))
        );

        -- Emulate ON DELETE SET NULL by clearing links when a card is deleted.
        CREATE TRIGGER trg_units_delete_clear_actions
        AFTER DELETE ON units
        FOR EACH ROW
        BEGIN
            UPDATE actions SET unit_id = NULL WHERE unit_id = OLD.id;
        END;

        CREATE TRIGGER trg_items_delete_clear_actions
        AFTER DELETE ON items
        FOR EACH ROW
        BEGIN
            UPDATE actions SET item_id = NULL WHERE item_id = OLD.id;
        END;

        CREATE TRIGGER trg_levels_delete_clear_actions
        AFTER DELETE ON levels
        FOR EACH ROW
        BEGIN
            UPDATE actions SET level_id = NULL WHERE level_id = OLD.id;
        END;
        "#,
    )
    .expect("create test schema");
}

fn potion() -> Item {
    Item { name: "Potion".to_string() }
}

#[test]
fn item_save_card_persists_to_database() {
    let conn = open_in_memory_db();
    create_schema(&conn);

    let it = potion();
    let saved = save_card(&conn, &it).expect("save_card should succeed");
    assert_eq!(saved, it);

    let reloaded = get_card(&conn, "Potion")
        .expect("get_card should succeed")
        .expect("saved card should exist");
    assert_eq!(reloaded, it);
}

#[test]
fn item_get_card_returns_none_for_missing() {
    let conn = open_in_memory_db();
    create_schema(&conn);

    let missing = get_card(&conn, "Missing").expect("get_card should succeed for missing row");
    assert!(missing.is_none());
}

#[test]
fn update_card_returns_some_if_exists() {
    let conn = open_in_memory_db();
    create_schema(&conn);

    let it = potion();
    save_card(&conn, &it).expect("save item");

    let updated = update_card(&conn, &it)
        .expect("update_card should succeed")
        .expect("row should exist");
    assert_eq!(updated, it);

    let reloaded = get_card(&conn, "Potion")
        .expect("get_card should succeed")
        .expect("card should exist");
    assert_eq!(reloaded, it);
}

#[test]
fn item_update_card_returns_some_if_exists() {
    let conn = open_in_memory_db();
    create_schema(&conn);

    let it = potion();
    save_card(&conn, &it).expect("save item");

    let updated = update_card(&conn, &it)
        .expect("update_card should succeed")
        .expect("row should exist");
    assert_eq!(updated, it);

    let reloaded = get_card(&conn, "Potion")
        .expect("get_card should succeed")
        .expect("card should exist");
    assert_eq!(reloaded, it);
}

#[test]
fn rename_card_renames_primary_key() {
    let conn = open_in_memory_db();
    create_schema(&conn);

    let it1 = potion();
    save_card(&conn, &it1).expect("save item");

    let it2 = Item { name: "Elixir".to_string() };

    let renamed = rename_card(&conn, "Potion", &it2)
        .expect("rename_card should succeed")
        .expect("row should exist to rename");
    assert_eq!(renamed, it2);

    let old = get_card(&conn, "Potion").expect("get old after rename");
    assert!(old.is_none());

    let new = get_card(&conn, "Elixir")
        .expect("get new after rename")
        .expect("renamed card should exist");
    assert_eq!(new, it2);
}

#[test]
fn item_update_card_returns_none_if_missing() {
    let conn = open_in_memory_db();
    create_schema(&conn);

    let it = Item { name: "Nope".to_string() };

    let updated = update_card(&conn, &it).expect("update_card should succeed");
    assert!(updated.is_none());
}

#[test]
fn item_delete_card_removes_row() {
    let conn = open_in_memory_db();
    create_schema(&conn);

    let it = potion();
    save_card(&conn, &it).expect("save item");

    let deleted = delete_card(&conn, "Potion").expect("delete_card should succeed");
    assert!(deleted);

    let after = get_card(&conn, "Potion").expect("get_card after delete");
    assert!(after.is_none());
}

#[test]
fn item_delete_card_returns_false_if_missing() {
    let conn = open_in_memory_db();
    create_schema(&conn);

    let deleted = delete_card(&conn, "Missing").expect("delete_card should succeed");
    assert!(!deleted);
}

#[test]
fn item_list_cards_orders_by_name() {
    let conn = open_in_memory_db();
    create_schema(&conn);

    save_card(&conn, &Item { name: "Shield".to_string() }).expect("save shield");
    save_card(&conn, &Item { name: "Axe".to_string() }).expect("save axe");

    let names: Vec<String> = list_cards(&conn).expect("list").into_iter().map(|i| i.name).collect();
    assert_eq!(names, vec!["Axe".to_string(), "Shield".to_string()]);
}

#[test]
fn item_save_rejects_blank_name() {
    let conn = open_in_memory_db();
    create_schema(&conn);

    let err = save_card(&conn, &Item { name: "   ".to_string() }).unwrap_err();
    assert_eq!(err.message(), "Item.name must be non-empty");
}
