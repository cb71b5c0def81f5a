use tabletop::tools::gui::choices::{action_choices, selected_choice, text_le_exec};
use tabletop::tools::gui::types::ActionRow;

fn action(name: &str) -> ActionRow {
    ActionRow {
        name: name.to_string(),
        action_point_cost: 1,
        action_type: "Attack".to_string(),
        text: String::new(),
        unit_name: None,
        item_name: None,
        level_name: None,
    }
}

fn actions() -> Vec<ActionRow> {
    vec![action("Slash"), action("Fire Bolt"), action("bolt of ice"), action("Block")]
}

#[test]
fn blank_filter_offers_every_action_in_order() {
    assert_eq!(
        action_choices(&actions(), "   "),
        vec!["Block", "Fire Bolt", "Slash", "bolt of ice"]
    );
}

#[test]
fn filter_matches_names_ignoring_case_and_spaces() {
    assert_eq!(action_choices(&actions(), "  BOLT "), vec!["Fire Bolt", "bolt of ice"]);
    assert_eq!(action_choices(&actions(), "lo"), vec!["Block"]);
    assert_eq!(action_choices(&actions(), "O"), vec!["Block", "Fire Bolt", "bolt of ice"]);
    assert!(action_choices(&actions(), "heal").is_empty());
}

#[test]
fn code_point_order_of_texts() {
    assert!(text_le_exec("Bolt", "Bolt"));
    assert!(text_le_exec("Bo", "Bolt"));
    assert!(!text_le_exec("Bolt", "Bo"));
    assert!(text_le_exec("Z", "a"));
    assert!(text_le_exec("é", "ê"));
}

#[test]
fn typed_text_selects_its_trimmed_name() {
    assert_eq!(selected_choice("  Fire Bolt "), Some("Fire Bolt".to_string()));
    assert_eq!(selected_choice(" \t"), None);
}
