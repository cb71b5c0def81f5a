use tabletop::tools::gui::matching::{
    association_label, contains_case_insensitive, damage_type_choices, normalize_for_match,
    parse_dim, preview_text, suit_choices, ActionTypeChoice, DamageTypeChoice, SkillChoice,
};
use tabletop::tools::gui::types::{ArmorModifierRow, Tab};

#[test]
fn matching_ignores_case_and_surrounding_space() {
    assert_eq!(normalize_for_match("  HeLLo World "), "hello world");
    assert!(contains_case_insensitive("Fire Bolt", "  bolt "));
    assert!(contains_case_insensitive("Fire Bolt", "   "));
    assert!(contains_case_insensitive("", ""));
    assert!(!contains_case_insensitive("Fire Bolt", "ice"));
}

#[test]
fn tab_labels() {
    assert_eq!(Tab::Units.label(), "Units");
    assert_eq!(Tab::ArmorModifiers.label(), "Armor Modifiers");
    assert_eq!(Tab::HexGrids.label(), "Hex Grids");
}

#[test]
fn grid_dimensions_typed_in() {
    assert_eq!(parse_dim(" 4 "), Some(4));
    assert_eq!(parse_dim("0"), None);
    assert_eq!(parse_dim(""), None);
    assert_eq!(parse_dim("-2"), None);
    assert_eq!(parse_dim("3x"), None);
}

fn row(item: Option<&str>, level: Option<&str>) -> ArmorModifierRow {
    ArmorModifierRow {
        id: 1,
        card_id: 1,
        value: 1,
        suit: "Spades".to_string(),
        damage_type: "Physical".to_string(),
        item_name: item.map(|s| s.to_string()),
        level_name: level.map(|s| s.to_string()),
    }
}

#[test]
fn armor_association_labels() {
    assert_eq!(association_label(&row(Some("Shield"), None)), "Associated Item: Shield");
    assert_eq!(association_label(&row(None, Some("Cave"))), "Associated Level: Cave");
    assert_eq!(association_label(&row(None, None)), "Associated: (none)");
    assert_eq!(
        association_label(&row(Some("A"), Some("B"))),
        "Associated: INVALID (item=A, level=B)"
    );
}

#[test]
fn form_choices() {
    assert_eq!(suit_choices(), vec!["Spades", "Clubs", "Diamonds", "Hearts"]);
    assert_eq!(damage_type_choices(), vec!["Physical", "Arcane"]);
    assert_eq!(DamageTypeChoice::from_str(" Arcane "), Some(DamageTypeChoice::Arcane));
    assert_eq!(DamageTypeChoice::from_str("arcane"), None);
    assert_eq!(SkillChoice::from_str("Agility"), Some(SkillChoice::Agility));
    assert_eq!(SkillChoice::all().len(), 5);
    assert_eq!(SkillChoice::Knowledge.label(), "Knowledge");
    assert_eq!(ActionTypeChoice::from_str("Attack"), Some(ActionTypeChoice::Attack));
    assert_eq!(ActionTypeChoice::all()[0].label(), "Interaction");
}

#[test]
fn preview_of_blank_text_is_marked_empty() {
    assert_eq!(preview_text(" \n\t "), "(empty)");
}

#[test]
fn preview_puts_the_text_on_one_line() {
    assert_eq!(preview_text("  Dark   room\r\n\n with  a door  "), "Dark room with a door");
    assert_eq!(preview_text("a\tb"), "a\tb");
}

#[test]
fn preview_cuts_long_text_after_its_first_bytes() {
    let exact = "x".repeat(120);
    assert_eq!(preview_text(&exact), exact);
    let long = "y".repeat(130);
    assert_eq!(preview_text(&long), format!("{}…", "y".repeat(120)));
    let wide = "é".repeat(61);
    assert_eq!(preview_text(&wide), format!("{}…", "é".repeat(60)));
}
