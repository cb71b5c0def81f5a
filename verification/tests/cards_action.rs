use rusqlite::Connection;
use tabletop::cards::action::{
    delete_card, get_card, rename_and_update_card, save_card, update_card, Action, ActionType,
};

fn open_in_memory_db() -> Connection {
    let conn = Connection::open_in_memory().expect("open in-memory sqlite db");
    conn.pragma_update(None, "foreign_keys", "ON")
        .expect("enable foreign_keys");
    conn
}

fn create_schema(conn: &Connection) {
    conn.execute_batch(
        r#"
            CREATE TABLE units (
                id            INTEGER PRIMARY KEY AUTOINCREMENT,
                name          TEXT NOT NULL UNIQUE,
                strength      INTEGER NOT NULL,
                focus         INTEGER NOT NULL,
                intelligence  INTEGER NOT NULL,
                agility       INTEGER NOT NULL,
                knowledge     INTEGER NOT NULL,
                created_at    TEXT NOT NULL DEFAULT (strftime('%Y-%m-%dT%H:%M:%fZ', 'now')),
                updated_at    TEXT NOT NULL DEFAULT (strftime('%Y-%m-%dT%H:%M:%fZ', 'now')),
                CHECK (length(trim(name)) > 0)
            );

            CREATE TABLE items (
                id            INTEGER PRIMARY KEY AUTOINCREMENT,
                name          TEXT NOT NULL UNIQUE,
                created_at    TEXT NOT NULL DEFAULT (strftime('%Y-%m-%dT%H:%M:%fZ', 'now')),
                updated_at    TEXT NOT NULL DEFAULT (strftime('%Y-%m-%dT%H:%M:%fZ', 'now')),
                CHECK (length(trim(name)) > 0)
            );

            CREATE TABLE levels (
                id            INTEGER PRIMARY KEY AUTOINCREMENT,
                name          TEXT NOT NULL UNIQUE,
                text          TEXT NOT NULL,
                created_at    TEXT NOT NULL DEFAULT (strftime('%Y-%m-%dT%H:%M:%fZ', 'now')),
                updated_at    TEXT NOT NULL DEFAULT (strftime('%Y-%m-%dT%H:%M:%fZ', 'now')),
                CHECK (length(trim(name)) > 0),
                CHECK (length(trim(text)) > 0)
            );

            CREATE TABLE actions (
                id                 INTEGER PRIMARY KEY AUTOINCREMENT,
                name               TEXT NOT NULL UNIQUE,
                action_point_cost  INTEGER NOT NULL,
                action_type        TEXT NOT NULL,
                text               TEXT NOT NULL,

                -- Optional association
                unit_id            INTEGER NULL,
                item_id            INTEGER NULL,
                level_id           INTEGER NULL,

                created_at         TEXT NOT NULL DEFAULT (strftime('%Y-%m-%dT%H:%M:%fZ', 'now')),
                updated_at         TEXT NOT NULL DEFAULT (strftime('%Y-%m-%dT%H:%M:%fZ', 'now')),

                CHECK (length(trim(name)) > 0),
                CHECK (length(trim(text)) > 0),
                CHECK (action_point_cost >= 0),
                CHECK (action_type IN ('Interaction', 'Attack'))
            );

            -- NOTE: We intentionally do NOT enforce "one action per card".
            -- Multiple actions may be associated with the same unit/item/level.
            --
            -- Enforce "at most one association" and validate referenced rows exist.
            CREATE TRIGGER trg_actions_validate_action_links_insert
            BEFORE INSERT ON actions
            FOR EACH ROW
            BEGIN
                SELECT
                    CASE
                        WHEN
                            (NEW.unit_id IS NOT NULL AND (NEW.item_id IS NOT NULL OR NEW.level_id IS NOT NULL))
                            OR (NEW.item_id IS NOT NULL AND NEW.level_id IS NOT NULL)
                        THEN
                            RAISE(ABORT, 'actions may be linked to at most one of unit_id, item_id, level_id')
                    END;

                SELECT
                    CASE
                        WHEN NEW.unit_id IS NOT NULL
                             AND (SELECT id FROM units WHERE id = NEW.unit_id) IS NULL
                        THEN RAISE(ABORT, 'actions.unit_id references missing units.id')
                    END;

                SELECT
                    CASE
                        WHEN NEW.item_id IS NOT NULL
                             AND (SELECT id FROM items WHERE id = NEW.item_id) IS NULL
                        THEN RAISE(ABORT, 'actions.item_id references missing items.id')
                    END;

                SELECT
                    CASE
                        WHEN NEW.level_id IS NOT NULL
                             AND (SELECT id FROM levels WHERE id = NEW.level_id) IS NULL
                        THEN RAISE(ABORT, 'actions.level_id references missing levels.id')
                    END;
            END;

            CREATE TRIGGER trg_actions_validate_action_links_update
            BEFORE UPDATE OF unit_id, item_id, level_id ON actions
            FOR EACH ROW
            BEGIN
                SELECT
                    CASE
                        WHEN
                            (NEW.unit_id IS NOT NULL AND (NEW.item_id IS NOT NULL OR NEW.level_id IS NOT NULL))
                            OR (NEW.item_id IS NOT NULL AND NEW.level_id IS NOT NULL)
                        THEN
                            RAISE(ABORT, 'actions may be linked to at most one of unit_id, item_id, level_id')
                    END;

                SELECT
                    CASE
                        WHEN NEW.unit_id IS NOT NULL
                             AND (SELECT id FROM units WHERE id = NEW.unit_id) IS NULL
                        THEN RAISE(ABORT, 'actions.unit_id references missing units.id')
                    END;

                SELECT
                    CASE
                        WHEN NEW.item_id IS NOT NULL
                             AND (SELECT id FROM items WHERE id = NEW.item_id) IS NULL
                        THEN RAISE(ABORT, 'actions.item_id references missing items.id')
                    END;

                SELECT
                    CASE
                        WHEN NEW.level_id IS NOT NULL
                             AND (SELECT id FROM levels WHERE id = NEW.level_id) IS NULL
                        THEN RAISE(ABORT, 'actions.level_id references missing levels.id')
                    END;
            END;
            "#,
    )
    .expect("create schema");
}

fn create_cascade_schema(conn: &Connection) {
    conn.execute_batch(
        r#"
            CREATE TABLE actions (
                id                 INTEGER PRIMARY KEY AUTOINCREMENT,
                name               TEXT NOT NULL UNIQUE,
                action_point_cost  INTEGER NOT NULL,
                action_type        TEXT NOT NULL,
                text               TEXT NOT NULL,

                created_at         TEXT NOT NULL DEFAULT (strftime('%Y-%m-%dT%H:%M:%fZ', 'now')),
                updated_at         TEXT NOT NULL DEFAULT (strftime('%Y-%m-%dT%H:%M:%fZ', 'now')),

                CHECK (length(trim(name)) > 0),
                CHECK (length(trim(text)) > 0),
                CHECK (action_point_cost >= 0),
                CHECK (action_type IN ('Interaction', 'Attack'))
            );

            CREATE TABLE attacks (
                id           INTEGER PRIMARY KEY AUTOINCREMENT,
                action_id    INTEGER NOT NULL UNIQUE,

                damage       INTEGER NOT NULL,
                damage_type  TEXT NOT NULL,
                skill        TEXT NOT NULL,
                target       INTEGER NOT NULL,
                range        INTEGER NOT NULL,

                created_at   TEXT NOT NULL DEFAULT (strftime('%Y-%m-%dT%H:%M:%fZ', 'now')),
                updated_at   TEXT NOT NULL DEFAULT (strftime('%Y-%m-%dT%H:%M:%fZ', 'now')),

                FOREIGN KEY (action_id) REFERENCES actions(id) ON DELETE CASCADE,

                CHECK (damage >= 0),
                CHECK (range >= 0),
                CHECK (target BETWEEN 1 AND 14),
                CHECK (damage_type IN ('Arcane', 'Physical')),
                CHECK (skill IN ('Strength', 'Focus', 'Intelligence', 'Knowledge', 'Agility'))
            );

            CREATE TABLE interactions (
                id         INTEGER PRIMARY KEY AUTOINCREMENT,
                action_id  INTEGER NOT NULL UNIQUE,

                range      INTEGER NOT NULL,
                skill      TEXT NOT NULL,
                target     INTEGER NULL,

                created_at TEXT NOT NULL DEFAULT (strftime('%Y-%m-%dT%H:%M:%fZ', 'now')),
                updated_at TEXT NOT NULL DEFAULT (strftime('%Y-%m-%dT%H:%M:%fZ', 'now')),

                FOREIGN KEY (action_id) REFERENCES actions(id) ON DELETE CASCADE,

                CHECK (range >= 0),
                CHECK (target IS NULL OR target BETWEEN 1 AND 14),
                CHECK (skill IN ('Strength', 'Focus', 'Intelligence', 'Knowledge', 'Agility'))
            );
            "#,
    )
    .expect("create schema");
}

#[test]
fn action_save_card_persists_to_database() {
    let conn = open_in_memory_db();
    create_schema(&conn);

    let a = Action {
        name: "Strike".to_string(),
        action_point_cost: 2,
        action_type: ActionType::Attack,
        text: "Deal damage.".to_string(),
    };

    let saved = save_card(&conn, &a).expect("save_card should succeed");
    assert_eq!(saved, a);

    let reloaded = get_card(&conn, "Strike")
        .expect("get_card should succeed")
        .expect("saved card should exist");
    assert_eq!(reloaded, a);
}

#[test]
fn action_get_card_returns_none_for_missing() {
    let conn = open_in_memory_db();
    create_schema(&conn);

    let missing = get_card(&conn, "Missing").expect("get_card should succeed");
    assert!(missing.is_none());
}

#[test]
fn action_update_card_persists_changes() {
    let conn = open_in_memory_db();
    create_schema(&conn);

    let a1 = Action {
        name: "Strike".to_string(),
        action_point_cost: 2,
        action_type: ActionType::Attack,
        text: "Deal damage.".to_string(),
    };
    save_card(&conn, &a1).expect("save initial action");

    let a2 = Action {
        action_point_cost: 3,
        text: "Deal lots of damage.".to_string(),
        ..a1.clone()
    };

    let updated = update_card(&conn, &a2)
        .expect("update_card should succeed")
        .expect("row should exist to update");
    assert_eq!(updated, a2);

    let reloaded = get_card(&conn, "Strike")
        .expect("get_card should succeed")
        .expect("card should still exist");
    assert_eq!(reloaded, a2);
}

#[test]
fn rename_and_update_card_renames_primary_key_and_updates_fields() {
    let conn = open_in_memory_db();
    create_schema(&conn);

    let a1 = Action {
        name: "Strike".to_string(),
        action_point_cost: 2,
        action_type: ActionType::Attack,
        text: "Deal damage.".to_string(),
    };
    save_card(&conn, &a1).expect("save initial action");

    let a2 = Action {
        name: "Heavy Strike".to_string(),
        action_point_cost: 4,
        action_type: ActionType::Attack,
        text: "Deal heavy damage.".to_string(),
    };

    let renamed = rename_and_update_card(&conn, "Strike", &a2)
        .expect("rename_and_update_card should succeed")
        .expect("row should exist to rename");
    assert_eq!(renamed, a2);

    let old = get_card(&conn, "Strike").expect("get old after rename");
    assert!(old.is_none());

    let new = get_card(&conn, "Heavy Strike")
        .expect("get new after rename")
        .expect("renamed card should exist");
    assert_eq!(new, a2);
}

#[test]
fn action_update_card_returns_none_if_missing() {
    let conn = open_in_memory_db();
    create_schema(&conn);

    let a = Action {
        name: "Nope".to_string(),
        action_point_cost: 1,
        action_type: ActionType::Interaction,
        text: "Nothing.".to_string(),
    };

    let updated = update_card(&conn, &a).expect("update_card should succeed");
    assert!(updated.is_none());
}

#[test]
fn action_delete_card_removes_row() {
    let conn = open_in_memory_db();
    create_schema(&conn);

    let a = Action {
        name: "Strike".to_string(),
        action_point_cost: 2,
        action_type: ActionType::Attack,
        text: "Deal damage.".to_string(),
    };
    save_card(&conn, &a).expect("save action");

    let deleted = delete_card(&conn, "Strike").expect("delete_card should succeed");
    assert!(deleted);

    let after = get_card(&conn, "Strike").expect("get_card after delete");
    assert!(after.is_none());
}

#[test]
fn action_delete_card_returns_false_if_missing() {
    let conn = open_in_memory_db();
    create_schema(&conn);

    let deleted = delete_card(&conn, "Missing").expect("delete_card should succeed");
    assert!(!deleted);
}

fn insert_action(conn: &Connection, action: &Action) -> i64 {
    let action_type = match action.action_type {
        ActionType::Interaction => "Interaction",
        ActionType::Attack => "Attack",
    };
    conn.execute(
        "INSERT INTO actions (name, action_point_cost, action_type, text) VALUES (?1, ?2, ?3, ?4)",
        [
            &action.name as &dyn rusqlite::ToSql,
            &action.action_point_cost,
            &action_type,
            &action.text,
        ],
    )
    .expect("insert action");

    conn.query_row(
        "SELECT id FROM actions WHERE name = ?1",
        [&action.name as &dyn rusqlite::ToSql],
        |row| row.get(0),
    )
    .expect("load action id")
}

#[test]
fn delete_action_cascades_to_attack() {
    let conn = open_in_memory_db();
    create_cascade_schema(&conn);

    let action = Action {
        name: "Strike".to_string(),
        action_point_cost: 1,
        action_type: ActionType::Attack,
        text: "Deal damage".to_string(),
    };
    let action_id = insert_action(&conn, &action);

    conn.execute(
        "INSERT INTO attacks (action_id, damage, damage_type, skill, target, range) VALUES (?1, 3, 'Physical', 'Strength', 10, 1)",
        [&action_id as &dyn rusqlite::ToSql],
    )
    .expect("insert attack");

    let deleted = delete_card(&conn, "Strike").expect("delete action");
    assert!(deleted, "expected delete_card to delete the action row");

    let remaining_attacks: i64 = conn
        .query_row(
            "SELECT COUNT(*) FROM attacks WHERE action_id = ?1",
            [&action_id as &dyn rusqlite::ToSql],
            |row| row.get(0),
        )
        .expect("count attacks");
    assert_eq!(remaining_attacks, 0, "attack row should be deleted via cascade");
}

#[test]
fn delete_action_cascades_to_interaction() {
    let conn = open_in_memory_db();
    create_cascade_schema(&conn);

    let action = Action {
        name: "Talk".to_string(),
        action_point_cost: 1,
        action_type: ActionType::Interaction,
        text: "Speak".to_string(),
    };
    let action_id = insert_action(&conn, &action);

    conn.execute(
        "INSERT INTO interactions (action_id, range, skill, target) VALUES (?1, 2, 'Knowledge', 9)",
        [&action_id as &dyn rusqlite::ToSql],
    )
    .expect("insert interaction");

    let deleted = delete_card(&conn, "Talk").expect("delete action");
    assert!(deleted, "expected delete_card to delete the action row");

    let remaining_interactions: i64 = conn
        .query_row(
            "SELECT COUNT(*) FROM interactions WHERE action_id = ?1",
            [&action_id as &dyn rusqlite::ToSql],
            |row| row.get(0),
        )
        .expect("count interactions");
    assert_eq!(
        remaining_interactions, 0,
        "interaction row should be deleted via cascade"
    );
}
