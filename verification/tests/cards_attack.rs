use rusqlite::Connection;
use tabletop::cards::action::{self, Action, ActionType};
use tabletop::cards::attack::{delete_card, get_card, save_card, update_card, Attack, DamageType, Skill};

fn open_in_memory_db() -> Connection {
    let conn = Connection::open_in_memory().expect("open in-memory sqlite db");
    conn.pragma_update(None, "foreign_keys", "ON")
        .expect("enable foreign_keys");
    conn
}

fn create_schema(conn: &Connection) {
    conn.execute_batch(
        r#"
            CREATE TABLE actions (
                id                 INTEGER PRIMARY KEY AUTOINCREMENT,
                name               TEXT NOT NULL UNIQUE,
                action_point_cost  INTEGER NOT NULL,
                action_type        TEXT NOT NULL,
                text               TEXT NOT NULL,
                created_at         TEXT NOT NULL DEFAULT (strftime('%Y-%m-%dT%H:%M:%fZ', 'now')),
                updated_at         TEXT NOT NULL DEFAULT (strftime('%Y-%m-%dT%H:%M:%fZ', 'now')),
                CHECK (length(trim(name)) > 0),
                CHECK (length(trim(text)) > 0),
                CHECK (action_point_cost >= 0),
                CHECK (action_type IN ('Interaction', 'Attack'))
            );

            CREATE TABLE attacks (
                id           INTEGER PRIMARY KEY AUTOINCREMENT,
                action_id    INTEGER NOT NULL UNIQUE,
                damage       INTEGER NOT NULL,
                damage_type  TEXT NOT NULL,
                skill        TEXT NOT NULL,
                target       INTEGER NOT NULL,
                range        INTEGER NOT NULL,
                created_at   TEXT NOT NULL DEFAULT (strftime('%Y-%m-%dT%H:%M:%fZ', 'now')),
                updated_at   TEXT NOT NULL DEFAULT (strftime('%Y-%m-%dT%H:%M:%fZ', 'now')),
                FOREIGN KEY (action_id) REFERENCES actions(id) ON DELETE CASCADE,
                CHECK (damage >= 0),
                CHECK (range >= 0),
                CHECK (target BETWEEN 1 AND 14),
                CHECK (damage_type IN ('Arcane', 'Physical')),
                CHECK (skill IN ('Strength', 'Focus', 'Intelligence', 'Knowledge', 'Agility'))
            );
            "#,
    )
    .expect("create schema");
}

fn seed_action(conn: &Connection, name: &str) {
    let a = Action {
        name: name.to_string(),
        action_point_cost: 1,
        action_type: ActionType::Attack,
        text: "desc".to_string(),
    };
    action::save_card(conn, &a).expect("seed action");
}

fn strike() -> Attack {
    Attack {
        action_name: "Strike".to_string(),
        damage: 3,
        damage_type: DamageType::Physical,
        skill: Skill::Strength,
        target: 10,
        range: 1,
    }
}

#[test]
fn attack_save_card_persists_to_database() {
    let conn = open_in_memory_db();
    create_schema(&conn);
    seed_action(&conn, "Strike");

    let atk = strike();
    let saved = save_card(&conn, &atk).expect("save_card should succeed");
    assert_eq!(saved, atk);

    let reloaded = get_card(&conn, "Strike")
        .expect("get_card should succeed")
        .expect("saved card should exist");
    assert_eq!(reloaded, atk);
}

#[test]
fn attack_get_card_returns_none_for_missing() {
    let conn = open_in_memory_db();
    create_schema(&conn);

    let missing = get_card(&conn, "Missing").expect("get_card should succeed");
    assert!(missing.is_none());
}

#[test]
fn attack_update_card_persists_changes() {
    let conn = open_in_memory_db();
    create_schema(&conn);
    seed_action(&conn, "Strike");

    let atk1 = strike();
    save_card(&conn, &atk1).expect("save initial attack");

    let atk2 = Attack {
        damage: 7,
        damage_type: DamageType::Arcane,
        skill: Skill::Focus,
        target: 12,
        range: 2,
        ..atk1.clone()
    };

    let updated = update_card(&conn, &atk2)
        .expect("update_card should succeed")
        .expect("row should exist to update");
    assert_eq!(updated, atk2);

    let reloaded = get_card(&conn, "Strike")
        .expect("get_card should succeed")
        .expect("card should still exist");
    assert_eq!(reloaded, atk2);
}

#[test]
fn attack_delete_card_removes_row() {
    let conn = open_in_memory_db();
    create_schema(&conn);
    seed_action(&conn, "Strike");

    let atk = strike();
    save_card(&conn, &atk).expect("save attack");

    let deleted = delete_card(&conn, "Strike").expect("delete_card should succeed");
    assert!(deleted);

    let after = get_card(&conn, "Strike").expect("get_card after delete");
    assert!(after.is_none());
}

#[test]
fn attack_delete_card_returns_false_if_action_missing() {
    let conn = open_in_memory_db();
    create_schema(&conn);

    let deleted = delete_card(&conn, "Missing").expect("delete_card should succeed");
    assert!(!deleted);
}
