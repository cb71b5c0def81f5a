use rusqlite::Connection;
use tabletop::cards::armor_modifier::{
    self, ArmorModifier, ArmorModifierAssociationKind, DamageType, Suit,
};
use tabletop::cards::stat_modifier::{
    self, Stat, StatModifier, StatModifierAssociationKind, StatModifierOperator,
};
use tabletop::shared::ErrorKind;

const SCHEMA: &str = r#"
CREATE TABLE units (id INTEGER PRIMARY KEY AUTOINCREMENT, name TEXT NOT NULL UNIQUE);
CREATE TABLE items (id INTEGER PRIMARY KEY AUTOINCREMENT, name TEXT NOT NULL UNIQUE);
CREATE TABLE levels (id INTEGER PRIMARY KEY AUTOINCREMENT, name TEXT NOT NULL UNIQUE);
CREATE TABLE stat_modifiers (
    id INTEGER PRIMARY KEY AUTOINCREMENT,
    stat TEXT NOT NULL,
    value INTEGER NOT NULL,
    operator TEXT NOT NULL
);
CREATE TABLE unit_stat_modifiers (
    unit_id INTEGER NOT NULL REFERENCES units(id) ON DELETE CASCADE,
    stat_modifier_id INTEGER NOT NULL UNIQUE REFERENCES stat_modifiers(id) ON DELETE CASCADE
);
CREATE TABLE item_stat_modifiers (
    item_id INTEGER NOT NULL REFERENCES items(id) ON DELETE CASCADE,
    stat_modifier_id INTEGER NOT NULL UNIQUE REFERENCES stat_modifiers(id) ON DELETE CASCADE
);
CREATE TABLE level_stat_modifiers (
    level_id INTEGER NOT NULL REFERENCES levels(id) ON DELETE CASCADE,
    stat_modifier_id INTEGER NOT NULL UNIQUE REFERENCES stat_modifiers(id) ON DELETE CASCADE
);
CREATE TABLE armor_modifiers (
    id INTEGER PRIMARY KEY AUTOINCREMENT,
    card_id INTEGER NOT NULL,
    value INTEGER NOT NULL,
    suit TEXT NOT NULL,
    damage_type TEXT NOT NULL
);
CREATE TABLE item_armor_modifiers (
    item_id INTEGER NOT NULL REFERENCES items(id) ON DELETE CASCADE,
    armor_modifier_id INTEGER NOT NULL UNIQUE REFERENCES armor_modifiers(id) ON DELETE CASCADE
);
CREATE TABLE level_armor_modifiers (
    level_id INTEGER NOT NULL REFERENCES levels(id) ON DELETE CASCADE,
    armor_modifier_id INTEGER NOT NULL UNIQUE REFERENCES armor_modifiers(id) ON DELETE CASCADE
);
INSERT INTO units (name) VALUES ('Knight');
INSERT INTO items (name) VALUES ('Shield');
INSERT INTO levels (name) VALUES ('Crypt');
"#;

fn db() -> Connection {
    let conn = Connection::open_in_memory().expect("open db");
    conn.pragma_update(None, "foreign_keys", "ON").expect("foreign keys");
    conn.execute_batch(SCHEMA).expect("schema");
    conn
}

fn plus_two_strength() -> StatModifier {
    StatModifier {
        stat: Stat::Strength,
        value: 2,
        operator: StatModifierOperator::Add,
    }
}

fn one_spade() -> ArmorModifier {
    ArmorModifier {
        card_id: 0,
        value: 1,
        suit: Suit::Spades,
        damage_type: DamageType::Physical,
    }
}

#[test]
fn stat_texts_read_back() {
    for s in [
        Stat::Strength,
        Stat::Focus,
        Stat::Intelligence,
        Stat::Knowledge,
        Stat::Agility,
    ] {
        assert_eq!(Stat::parse(s.as_str()).unwrap(), s);
    }
    for o in [StatModifierOperator::Add, StatModifierOperator::Subtract] {
        assert_eq!(StatModifierOperator::parse(o.as_str()).unwrap(), o);
    }
    assert_eq!(Stat::Intelligence.as_str(), "Intelligence");
    assert_eq!(StatModifierOperator::Subtract.as_str(), "Subtract");
}

#[test]
fn unknown_stat_and_operator_are_rejected() {
    let e = Stat::parse("strength").unwrap_err();
    assert_eq!(e.kind, ErrorKind::Invalid);
    assert_eq!(e.message(), "invalid Stat: strength");
    let e = StatModifierOperator::parse("Multiply").unwrap_err();
    assert_eq!(e.kind, ErrorKind::Invalid);
    assert_eq!(e.message(), "invalid StatModifierOperator: Multiply");
}

#[test]
fn suit_and_damage_type_texts_read_back() {
    for s in [Suit::Spades, Suit::Clubs, Suit::Diamonds, Suit::Hearts] {
        assert_eq!(Suit::parse(s.as_str()).unwrap(), s);
    }
    for d in [DamageType::Arcane, DamageType::Physical] {
        assert_eq!(DamageType::parse(d.as_str()).unwrap(), d);
    }
    let e = Suit::parse("Stars").unwrap_err();
    assert_eq!(e.kind, ErrorKind::Invalid);
    assert_eq!(e.message(), "Invalid suit: Stars");
}

#[test]
fn stat_association_kind_follows_the_links() {
    assert_eq!(
        stat_modifier::association_kind_from_links(7, false, false, false).unwrap(),
        StatModifierAssociationKind::Unlinked
    );
    assert_eq!(
        stat_modifier::association_kind_from_links(7, true, false, false).unwrap(),
        StatModifierAssociationKind::Unit
    );
    assert_eq!(
        stat_modifier::association_kind_from_links(7, false, true, false).unwrap(),
        StatModifierAssociationKind::Item
    );
    assert_eq!(
        stat_modifier::association_kind_from_links(7, false, false, true).unwrap(),
        StatModifierAssociationKind::Level
    );
    let e = stat_modifier::association_kind_from_links(7, true, false, true).unwrap_err();
    assert_eq!(e.kind, ErrorKind::Corrupt);
    assert_eq!(
        e.message(),
        "stat_modifier id=7 is linked to multiple card types (corrupt state)"
    );
}

#[test]
fn armor_association_kind_follows_the_links() {
    assert_eq!(
        armor_modifier::association_kind_from_links(None, None).unwrap(),
        ArmorModifierAssociationKind::Unlinked
    );
    assert_eq!(
        armor_modifier::association_kind_from_links(Some(1), None).unwrap(),
        ArmorModifierAssociationKind::Item
    );
    assert_eq!(
        armor_modifier::association_kind_from_links(None, Some(1)).unwrap(),
        ArmorModifierAssociationKind::Level
    );
    assert!(armor_modifier::association_kind_from_links(Some(1), Some(2)).is_err());
}

#[test]
fn stat_modifier_is_stored_updated_and_deleted() {
    let conn = db();
    let id = stat_modifier::insert_returning_id(&conn, &plus_two_strength()).unwrap();
    let row = stat_modifier::get_by_id(&conn, id).unwrap().unwrap();
    assert_eq!(row.stat, "Strength");
    assert_eq!(row.value, 2);
    assert_eq!(row.operator, "Add");
    assert_eq!(row.unit_name, None);

    let changed = StatModifier {
        stat: Stat::Focus,
        value: 3,
        operator: StatModifierOperator::Subtract,
    };
    stat_modifier::update_by_id(&conn, id, &changed).unwrap();
    let row = stat_modifier::get_by_id(&conn, id).unwrap().unwrap();
    assert_eq!((row.stat.as_str(), row.value, row.operator.as_str()), ("Focus", 3, "Subtract"));

    stat_modifier::delete_by_id(&conn, id).unwrap();
    assert!(stat_modifier::get_by_id(&conn, id).unwrap().is_none());
}

#[test]
fn stat_modifier_links_to_one_card() {
    let mut conn = db();
    let id = stat_modifier::create_and_link_to_unit_by_name(&mut conn, &plus_two_strength(), "Knight")
        .unwrap();
    assert_eq!(
        stat_modifier::get_association_kind(&conn, id).unwrap(),
        StatModifierAssociationKind::Unit
    );
    let for_unit = stat_modifier::list_for_unit(&conn, "Knight").unwrap();
    assert_eq!(for_unit.len(), 1);
    assert_eq!(for_unit[0].unit_name.as_deref(), Some("Knight"));

    stat_modifier::clear_association(&conn, id).unwrap();
    assert_eq!(
        stat_modifier::get_association_kind(&conn, id).unwrap(),
        StatModifierAssociationKind::Unlinked
    );
    assert!(stat_modifier::list_for_unit(&conn, "Knight").unwrap().is_empty());
    assert_eq!(stat_modifier::list_all(&conn).unwrap().len(), 1);
}

#[test]
fn armor_modifier_links_to_an_item_or_level() {
    let mut conn = db();
    let id = armor_modifier::create_and_link_to_item_by_name(&mut conn, &one_spade(), "Shield").unwrap();
    let row = armor_modifier::get_by_id(&conn, id).unwrap().unwrap();
    assert_eq!(row.suit, Suit::Spades);
    assert_eq!(row.damage_type, DamageType::Physical);
    assert_eq!(row.item_name.as_deref(), Some("Shield"));
    assert_eq!(
        armor_modifier::get_association_kind(&conn, id).unwrap(),
        ArmorModifierAssociationKind::Item
    );
    assert_eq!(armor_modifier::list_for_item(&conn, "Shield").unwrap().len(), 1);

    armor_modifier::clear_association(&conn, id).unwrap();
    armor_modifier::link_to_level_by_name(&conn, id, "Crypt").unwrap();
    assert_eq!(
        armor_modifier::get_association_kind(&conn, id).unwrap(),
        ArmorModifierAssociationKind::Level
    );
    assert_eq!(armor_modifier::list_for_level(&conn, "Crypt").unwrap().len(), 1);
}

#[test]
fn linking_to_a_missing_card_is_not_found() {
    let conn = db();
    let id = armor_modifier::insert_returning_id(&conn, &one_spade()).unwrap();
    let e = armor_modifier::link_to_item_by_name(&conn, id, "Sword").unwrap_err();
    assert_eq!(e.kind, ErrorKind::NotFound);
    assert_eq!(e.message(), "Item not found: `Sword`");
    let e = armor_modifier::link_to_level_by_name(&conn, 99, "Crypt").unwrap_err();
    assert_eq!(e.kind, ErrorKind::NotFound);
    assert_eq!(e.message(), "Armor modifier not found (id=99)");
}
