use rusqlite::Connection;
use tabletop::cards::action::{self, Action, ActionType};
use tabletop::cards::interaction::{delete_card, get_card, save_card, update_card, Interaction, Skill};

fn open_in_memory_db() -> Connection {
    let conn = Connection::open_in_memory().expect("open in-memory sqlite db");
    conn.pragma_update(None, "foreign_keys", "ON")
        .expect("enable foreign_keys");
    conn
}

fn create_schema(conn: &Connection) {
    conn.execute_batch(
        r#"
            CREATE TABLE actions (
                id                 INTEGER PRIMARY KEY AUTOINCREMENT,
                name               TEXT NOT NULL UNIQUE,
                action_point_cost  INTEGER NOT NULL,
                action_type        TEXT NOT NULL,
                text               TEXT NOT NULL,
                created_at         TEXT NOT NULL DEFAULT (strftime('%Y-%m-%dT%H:%M:%fZ', 'now')),
                updated_at         TEXT NOT NULL DEFAULT (strftime('%Y-%m-%dT%H:%M:%fZ', 'now')),
                CHECK (length(trim(name)) > 0),
                CHECK (length(trim(text)) > 0),
                CHECK (action_point_cost >= 0),
                CHECK (action_type IN ('Interaction', 'Attack'))
            );
            CREATE TABLE interactions (
                id         INTEGER PRIMARY KEY AUTOINCREMENT,
                action_id  INTEGER NOT NULL UNIQUE,
                range      INTEGER NOT NULL,
                skill      TEXT NOT NULL,
                target     INTEGER NULL,
                created_at TEXT NOT NULL DEFAULT (strftime('%Y-%m-%dT%H:%M:%fZ', 'now')),
                updated_at TEXT NOT NULL DEFAULT (strftime('%Y-%m-%dT%H:%M:%fZ', 'now')),
                FOREIGN KEY (action_id) REFERENCES actions(id) ON DELETE CASCADE,
                CHECK (range >= 0),
                CHECK (target IS NULL OR target BETWEEN 1 AND 14),
                CHECK (skill IN ('Strength', 'Focus', 'Intelligence', 'Knowledge', 'Agility'))
            );
            "#,
    )
    .expect("create schema");
}

fn seed_action(conn: &Connection, name: &str) {
    let a = Action {
        name: name.to_string(),
        action_point_cost: 1,
        action_type: ActionType::Interaction,
        text: "desc".to_string(),
    };
    action::save_card(conn, &a).expect("seed action");
}

fn talk() -> Interaction {
    Interaction {
        action_name: "Talk".to_string(),
        range: 2,
        skill: Skill::Knowledge,
        target: Some(9),
    }
}

#[test]
fn interaction_save_card_persists_to_database() {
    let conn = open_in_memory_db();
    create_schema(&conn);
    seed_action(&conn, "Talk");

    let i = talk();
    let saved = save_card(&conn, &i).expect("save_card should succeed");
    assert_eq!(saved, i);

    let reloaded = get_card(&conn, "Talk")
        .expect("get_card should succeed")
        .expect("saved card should exist");
    assert_eq!(reloaded, i);
}

#[test]
fn save_card_allows_null_target() {
    let conn = open_in_memory_db();
    create_schema(&conn);
    seed_action(&conn, "Look");

    let i = Interaction {
        action_name: "Look".to_string(),
        range: 5,
        skill: Skill::Focus,
        target: None,
    };

    let saved = save_card(&conn, &i).expect("save_card should succeed");
    assert_eq!(saved, i);

    let reloaded = get_card(&conn, "Look")
        .expect("get_card should succeed")
        .expect("saved card should exist");
    assert_eq!(reloaded, i);
}

#[test]
fn interaction_get_card_returns_none_for_missing() {
    let conn = open_in_memory_db();
    create_schema(&conn);

    let missing = get_card(&conn, "Missing").expect("get_card should succeed");
    assert!(missing.is_none());
}

#[test]
fn interaction_update_card_persists_changes() {
    let conn = open_in_memory_db();
    create_schema(&conn);
    seed_action(&conn, "Talk");

    let i1 = talk();
    save_card(&conn, &i1).expect("save initial interaction");

    let i2 = Interaction {
        range: 3,
        skill: Skill::Intelligence,
        target: None,
        ..i1.clone()
    };

    let updated = update_card(&conn, &i2)
        .expect("update_card should succeed")
        .expect("row should exist to update");
    assert_eq!(updated, i2);

    let reloaded = get_card(&conn, "Talk")
        .expect("get_card should succeed")
        .expect("card should still exist");
    assert_eq!(reloaded, i2);
}

#[test]
fn interaction_delete_card_removes_row() {
    let conn = open_in_memory_db();
    create_schema(&conn);
    seed_action(&conn, "Talk");

    let i = talk();
    save_card(&conn, &i).expect("save interaction");

    let deleted = delete_card(&conn, "Talk").expect("delete_card should succeed");
    assert!(deleted);

    let after = get_card(&conn, "Talk").expect("get_card after delete");
    assert!(after.is_none());
}

#[test]
fn interaction_delete_card_returns_false_if_action_missing() {
    let conn = open_in_memory_db();
    create_schema(&conn);

    let deleted = delete_card(&conn, "Missing").expect("delete_card should succeed");
    assert!(!deleted);
}
