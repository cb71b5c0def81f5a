use rusqlite::Connection;
use tabletop::migrations::{
    apply_hashed_migrations, apply_migration, init_db, migration_already_applied, migration_step,
    sha256_hex, MigrationStep,
};
use tabletop::shared::ErrorKind;
use tabletop::simulator::db::{apply_migrations, create_campaign, list_campaigns};

fn count(conn: &Connection, sql: &str) -> i64 {
    conn.query_row(sql, [], |r| r.get(0)).expect("count")
}

#[test]
fn sha256_hex_of_known_texts() {
    assert_eq!(
        sha256_hex("abc"),
        "ba7816bf8f01cfea414140de5dae2223b00361a396177a9cb410ff61f20015ad"
    );
    assert_eq!(
        sha256_hex(""),
        "e3b0c44298fc1c149afbf4c8996fb92427ae41e4649b934ca495991b7852b855"
    );
}

#[test]
fn migration_step_decides_by_hash() {
    assert_eq!(migration_step("a.sql", None, "x").unwrap(), MigrationStep::Apply);
    assert_eq!(migration_step("a.sql", Some("x"), "x").unwrap(), MigrationStep::Skip);
    let e = migration_step("a.sql", Some("old"), "new").unwrap_err();
    assert_eq!(e.kind, ErrorKind::Corrupt);
    assert_eq!(
        e.message(),
        "migration a.sql was already applied but its contents changed (db sha256=old, file sha256=new)"
    );
}

#[test]
fn hashed_migrations_apply_once_and_refuse_changes() {
    let mut conn = Connection::open_in_memory().expect("open");
    let files = vec![
        ("0001_a.sql".to_string(), "CREATE TABLE a (x INTEGER);".to_string()),
        ("0002_b.sql".to_string(), "CREATE TABLE b (y INTEGER);".to_string()),
    ];
    apply_hashed_migrations(&mut conn, &files).expect("first run");
    assert_eq!(count(&conn, "SELECT COUNT(*) FROM schema_migrations"), 2);
    apply_hashed_migrations(&mut conn, &files).expect("second run skips");
    assert_eq!(count(&conn, "SELECT COUNT(*) FROM schema_migrations"), 2);

    let changed = vec![("0001_a.sql".to_string(), "CREATE TABLE a (z INTEGER);".to_string())];
    let e = apply_hashed_migrations(&mut conn, &changed).unwrap_err();
    assert_eq!(e.kind, ErrorKind::Corrupt);
    assert!(e.message().starts_with("migration 0001_a.sql was already applied but its contents changed"));
}

#[test]
fn hashed_migrations_roll_back_on_failure() {
    let mut conn = Connection::open_in_memory().expect("open");
    let files = vec![
        ("0001_a.sql".to_string(), "CREATE TABLE a (x INTEGER);".to_string()),
        ("0002_bad.sql".to_string(), "CREATE TABLE nonsense (".to_string()),
    ];
    let e = apply_hashed_migrations(&mut conn, &files).unwrap_err();
    assert_eq!(e.kind, ErrorKind::Db);
    assert_eq!(count(&conn, "SELECT COUNT(*) FROM sqlite_master WHERE name = 'a'"), 0);
}

#[test]
fn file_migrations_are_recorded_by_name() {
    let mut conn = Connection::open_in_memory().expect("open");
    init_db(&conn).expect("init");
    assert!(!migration_already_applied(&conn, "0001.sql").unwrap());
    apply_migration(&mut conn, "0001.sql", "CREATE TABLE t (x INTEGER);").expect("apply");
    assert!(migration_already_applied(&conn, "0001.sql").unwrap());
    let e = apply_migration(&mut conn, "0002.sql", "NOT SQL").unwrap_err();
    assert_eq!(e.message(), "Migration `0002.sql` failed");
    assert!(e.text().starts_with("Migration `0002.sql` failed: "));
    assert!(!migration_already_applied(&conn, "0002.sql").unwrap());
}

#[test]
fn simulator_migrations_and_campaigns() {
    let mut conn = Connection::open_in_memory().expect("open");
    apply_migrations(&mut conn).expect("migrate");
    apply_migrations(&mut conn).expect("migrate again");
    assert_eq!(count(&conn, "SELECT COUNT(*) FROM migrations"), 1);

    create_campaign(&conn, "  Hero ").expect("create");
    create_campaign(&conn, "Mage").expect("create");
    let e = create_campaign(&conn, "   ").unwrap_err();
    assert_eq!(e.message(), "hero_unit_name must be non-empty");

    let campaigns = list_campaigns(&conn).expect("list");
    assert_eq!(campaigns.len(), 2);
    assert_eq!(campaigns[0].hero_unit_name, "Mage");
    assert_eq!(campaigns[1].hero_unit_name, "Hero");
}
