//! The card editor's state, its value model, and its initial state.

use vstd::prelude::*;
use std::collections::BTreeSet;
use std::path::PathBuf;
use crate::cards::armor_modifier::ArmorModifier;
use crate::cards::stat_modifier::StatModifier;
use crate::text::opt_text;
use crate::tools::gui::types::{
    ActionRow, ActiveView, ArmorModifierRow, HexGridRow, ItemRow, LevelRow, StatModifierRow,
    Tab, UnitRow,
};

verus! {

broadcast use vstd::laws_cmp::group_laws_cmp;

#[verifier::external_type_specification]
#[verifier::external_body]
pub struct ExPathBuf(std::path::PathBuf);

/// The card editor's state.
pub struct ToolsGui {
    pub tab: Tab,
    pub tabletop_dir: PathBuf,
    pub db_path: PathBuf,
    pub migrations_dir: PathBuf,
    // Units form / edit buffer
    pub unit_name: String,
    pub unit_strength: String,
    pub unit_focus: String,
    pub unit_intelligence: String,
    pub unit_agility: String,
    pub unit_knowledge: String,
    // Unit -> Action association buffer (set from Unit edit view)
    pub unit_assoc_action_name: String,
    // Items form / edit buffer
    pub item_name: String,
    // Item -> Action association buffer (set from Item edit view)
    pub item_assoc_action_name: String,
    // Levels form / edit buffer
    pub level_name: String,
    pub level_text: String,
    // Level -> Action association buffer (set from Level edit view)
    pub level_assoc_action_name: String,
    // Actions form / edit buffer
    pub action_name: String,
    pub action_point_cost: String,
    pub action_type: String,
    pub action_text: String,
    // Attack subform buffer (for action edit view)
    pub attack_damage: String,
    pub attack_damage_type: String,
    pub attack_skill: String,
    pub attack_target: String,
    pub attack_range: String,
    // Interaction subform buffer (for action edit view)
    pub interaction_range: String,
    pub interaction_skill: String,
    pub interaction_target: String,
    // Armor modifiers form / edit buffer (single draft row)
    pub armor_modifier_value: String,
    pub armor_modifier_suit: String,
    pub armor_modifier_damage_type: String,
    // Stat modifiers form / edit buffer (single draft row)
    pub stat_modifier_value: String,
    pub stat_modifier_stat: String,
    pub stat_modifier_operator: String,
    // Pending stat modifiers (used by Item/Level create flows; linked on create)
    pub pending_stat_modifiers: Vec<StatModifier>,
    // Hex grid editor
    pub hex_grid_width: String,
    pub hex_grid_height: String,
    pub hex_grid_name: String,
    pub hex_grid_id: Option<i64>,
    // Loaded list of existing grids
    pub hex_grids: Vec<HexGridRow>,
    pub hex_grid_selected_x: Option<i32>,
    pub hex_grid_selected_y: Option<i32>,
    // Selected tile association editor buffers (persisted on SaveHexTileAssociations)
    pub hex_tile_unit_query: String,
    pub hex_tile_item_query: String,
    pub hex_tile_level_query: String,
    pub hex_tile_unit_id: Option<i64>,
    pub hex_tile_item_id: Option<i64>,
    pub hex_tile_level_id: Option<i64>,
    pub hex_tile_unit_name: Option<String>,
    pub hex_tile_item_name: Option<String>,
    pub hex_tile_level_name: Option<String>,
    pub hex_tile_type: String,
    // Coordinates that currently contain a tile
    pub hex_grid_tiles_present: BTreeSet<(i32, i32)>,
    // Coordinates whose stored tile has an association or a type
    pub hex_grid_tiles_with_data: BTreeSet<(i32, i32)>,
    // Pending armor modifiers (used by create-card flows; linked on create)
    pub pending_armor_modifiers: Vec<ArmorModifier>,
    // loaded data
    pub units: Vec<UnitRow>,
    pub items: Vec<ItemRow>,
    pub levels: Vec<LevelRow>,
    pub actions: Vec<ActionRow>,
    pub armor_modifiers: Vec<ArmorModifierRow>,
    pub stat_modifiers: Vec<StatModifierRow>,
    // ui state
    pub status: Option<String>,
    pub active_view: ActiveView,
}

/// The editor's state as values.
pub struct ToolsGuiView {
    pub tab: Tab,
    pub tabletop_dir: PathBuf,
    pub db_path: PathBuf,
    pub migrations_dir: PathBuf,
    pub unit_name: Seq<char>,
    pub unit_strength: Seq<char>,
    pub unit_focus: Seq<char>,
    pub unit_intelligence: Seq<char>,
    pub unit_agility: Seq<char>,
    pub unit_knowledge: Seq<char>,
    pub unit_assoc_action_name: Seq<char>,
    pub item_name: Seq<char>,
    pub item_assoc_action_name: Seq<char>,
    pub level_name: Seq<char>,
    pub level_text: Seq<char>,
    pub level_assoc_action_name: Seq<char>,
    pub action_name: Seq<char>,
    pub action_point_cost: Seq<char>,
    pub action_type: Seq<char>,
    pub action_text: Seq<char>,
    pub attack_damage: Seq<char>,
    pub attack_damage_type: Seq<char>,
    pub attack_skill: Seq<char>,
    pub attack_target: Seq<char>,
    pub attack_range: Seq<char>,
    pub interaction_range: Seq<char>,
    pub interaction_skill: Seq<char>,
    pub interaction_target: Seq<char>,
    pub armor_modifier_value: Seq<char>,
    pub armor_modifier_suit: Seq<char>,
    pub armor_modifier_damage_type: Seq<char>,
    pub stat_modifier_value: Seq<char>,
    pub stat_modifier_stat: Seq<char>,
    pub stat_modifier_operator: Seq<char>,
    pub pending_stat_modifiers: Seq<StatModifier>,
    pub hex_grid_width: Seq<char>,
    pub hex_grid_height: Seq<char>,
    pub hex_grid_name: Seq<char>,
    pub hex_grid_id: Option<i64>,
    pub hex_grids: Seq<HexGridRow>,
    pub hex_grid_selected_x: Option<i32>,
    pub hex_grid_selected_y: Option<i32>,
    pub hex_tile_unit_query: Seq<char>,
    pub hex_tile_item_query: Seq<char>,
    pub hex_tile_level_query: Seq<char>,
    pub hex_tile_unit_id: Option<i64>,
    pub hex_tile_item_id: Option<i64>,
    pub hex_tile_level_id: Option<i64>,
    pub hex_tile_unit_name: Option<Seq<char>>,
    pub hex_tile_item_name: Option<Seq<char>>,
    pub hex_tile_level_name: Option<Seq<char>>,
    pub hex_tile_type: Seq<char>,
    pub hex_grid_tiles_present: Set<(i32, i32)>,
    pub hex_grid_tiles_with_data: Set<(i32, i32)>,
    pub pending_armor_modifiers: Seq<ArmorModifier>,
    pub units: Seq<UnitRow>,
    pub items: Seq<ItemRow>,
    pub levels: Seq<LevelRow>,
    pub actions: Seq<ActionRow>,
    pub armor_modifiers: Seq<ArmorModifierRow>,
    pub stat_modifiers: Seq<StatModifierRow>,
    pub status: Option<Seq<char>>,
    pub active_view: ActiveView,
}

impl View for ToolsGui {
    type V = ToolsGuiView;

    open spec fn view(&self) -> ToolsGuiView {
        ToolsGuiView {
            tab: self.tab,
            tabletop_dir: self.tabletop_dir,
            db_path: self.db_path,
            migrations_dir: self.migrations_dir,
            unit_name: self.unit_name@,
            unit_strength: self.unit_strength@,
            unit_focus: self.unit_focus@,
            unit_intelligence: self.unit_intelligence@,
            unit_agility: self.unit_agility@,
            unit_knowledge: self.unit_knowledge@,
            unit_assoc_action_name: self.unit_assoc_action_name@,
            item_name: self.item_name@,
            item_assoc_action_name: self.item_assoc_action_name@,
            level_name: self.level_name@,
            level_text: self.level_text@,
            level_assoc_action_name: self.level_assoc_action_name@,
            action_name: self.action_name@,
            action_point_cost: self.action_point_cost@,
            action_type: self.action_type@,
            action_text: self.action_text@,
            attack_damage: self.attack_damage@,
            attack_damage_type: self.attack_damage_type@,
            attack_skill: self.attack_skill@,
            attack_target: self.attack_target@,
            attack_range: self.attack_range@,
            interaction_range: self.interaction_range@,
            interaction_skill: self.interaction_skill@,
            interaction_target: self.interaction_target@,
            armor_modifier_value: self.armor_modifier_value@,
            armor_modifier_suit: self.armor_modifier_suit@,
            armor_modifier_damage_type: self.armor_modifier_damage_type@,
            stat_modifier_value: self.stat_modifier_value@,
            stat_modifier_stat: self.stat_modifier_stat@,
            stat_modifier_operator: self.stat_modifier_operator@,
            pending_stat_modifiers: self.pending_stat_modifiers@,
            hex_grid_width: self.hex_grid_width@,
            hex_grid_height: self.hex_grid_height@,
            hex_grid_name: self.hex_grid_name@,
            hex_grid_id: self.hex_grid_id,
            hex_grids: self.hex_grids@,
            hex_grid_selected_x: self.hex_grid_selected_x,
            hex_grid_selected_y: self.hex_grid_selected_y,
            hex_tile_unit_query: self.hex_tile_unit_query@,
            hex_tile_item_query: self.hex_tile_item_query@,
            hex_tile_level_query: self.hex_tile_level_query@,
            hex_tile_unit_id: self.hex_tile_unit_id,
            hex_tile_item_id: self.hex_tile_item_id,
            hex_tile_level_id: self.hex_tile_level_id,
            hex_tile_unit_name: opt_text(self.hex_tile_unit_name),
            hex_tile_item_name: opt_text(self.hex_tile_item_name),
            hex_tile_level_name: opt_text(self.hex_tile_level_name),
            hex_tile_type: self.hex_tile_type@,
            hex_grid_tiles_present: self.hex_grid_tiles_present@,
            hex_grid_tiles_with_data: self.hex_grid_tiles_with_data@,
            pending_armor_modifiers: self.pending_armor_modifiers@,
            units: self.units@,
            items: self.items@,
            levels: self.levels@,
            actions: self.actions@,
            armor_modifiers: self.armor_modifiers@,
            stat_modifiers: self.stat_modifiers@,
            status: opt_text(self.status),
            active_view: self.active_view,
        }
    }
}

/// Every coordinate `(x, y)` with `0 <= x < width` and `0 <= y < height`.
pub open spec fn full_grid(width: int, height: int) -> Set<(i32, i32)> {
    Set::new(|c: (i32, i32)| 0 <= c.0 < width && 0 <= c.1 < height)
}

/// The set of every in-bounds coordinate of a `width` x `height` grid.
pub fn full_tile_set(width: i32, height: i32) -> (r: BTreeSet<(i32, i32)>)
    ensures
        r@ == full_grid(width as int, height as int),
{
    let mut s: BTreeSet<(i32, i32)> = BTreeSet::new();
    let mut y: i32 = 0;
    while y < height
        invariant
            0 <= y,
            y == 0 || y <= height,
            s@ == full_grid(width as int, y as int),
        decreases height - y,
    {
        let mut x: i32 = 0;
        while x < width
            invariant
                0 <= x,
                x == 0 || x <= width,
                0 <= y < height,
                s@ == full_grid(width as int, y as int).union(
                    Set::new(|c: (i32, i32)| 0 <= c.0 < x && c.1 == y),
                ),
            decreases width - x,
        {
            s.insert((x, y));
            x = x + 1;
            assert(s@ =~= full_grid(width as int, y as int).union(
                Set::new(|c: (i32, i32)| 0 <= c.0 < x && c.1 == y),
            ));
        }
        y = y + 1;
        assert(s@ =~= full_grid(width as int, y as int));
    }
    assert(s@ =~= full_grid(width as int, height as int));
    s
}

impl ToolsGuiView {
    /// The state of a fresh editor over the given paths.
    pub open spec fn initial(tabletop_dir: PathBuf, db_path: PathBuf, migrations_dir: PathBuf) -> ToolsGuiView {
        ToolsGuiView {
            tab: Tab::Units,
            tabletop_dir,
            db_path,
            migrations_dir,
            unit_name: Seq::empty(),
            unit_strength: "0"@,
            unit_focus: "0"@,
            unit_intelligence: "0"@,
            unit_agility: "0"@,
            unit_knowledge: "0"@,
            unit_assoc_action_name: Seq::empty(),
            item_name: Seq::empty(),
            item_assoc_action_name: Seq::empty(),
            level_name: Seq::empty(),
            level_text: Seq::empty(),
            level_assoc_action_name: Seq::empty(),
            action_name: Seq::empty(),
            action_point_cost: "0"@,
            action_type: "Interaction"@,
            action_text: Seq::empty(),
            attack_damage: "0"@,
            attack_damage_type: "Physical"@,
            attack_skill: "Strength"@,
            attack_target: "1"@,
            attack_range: "0"@,
            interaction_range: "0"@,
            interaction_skill: "Strength"@,
            interaction_target: Seq::empty(),
            armor_modifier_value: "0"@,
            armor_modifier_suit: "Spades"@,
            armor_modifier_damage_type: "Physical"@,
            stat_modifier_value: "0"@,
            stat_modifier_stat: "Strength"@,
            stat_modifier_operator: "Add"@,
            pending_stat_modifiers: Seq::empty(),
            hex_grid_width: "9"@,
            hex_grid_height: "9"@,
            hex_grid_name: "New Hex Grid"@,
            hex_grid_id: None,
            hex_grids: Seq::empty(),
            hex_grid_selected_x: None,
            hex_grid_selected_y: None,
            hex_tile_unit_query: Seq::empty(),
            hex_tile_item_query: Seq::empty(),
            hex_tile_level_query: Seq::empty(),
            hex_tile_unit_id: None,
            hex_tile_item_id: None,
            hex_tile_level_id: None,
            hex_tile_unit_name: None,
            hex_tile_item_name: None,
            hex_tile_level_name: None,
            hex_tile_type: Seq::empty(),
            hex_grid_tiles_present: full_grid(9, 9),
            hex_grid_tiles_with_data: Set::empty(),
            pending_armor_modifiers: Seq::empty(),
            units: Seq::empty(),
            items: Seq::empty(),
            levels: Seq::empty(),
            actions: Seq::empty(),
            armor_modifiers: Seq::empty(),
            stat_modifiers: Seq::empty(),
            status: None,
            active_view: ActiveView::List,
        }
    }

    /// The same state with `s` as the status line.
    pub open spec fn with_status(self, s: Seq<char>) -> ToolsGuiView {
        ToolsGuiView { status: Some(s), ..self }
    }

    /// The same state with the selected tile's association buffers emptied.
    pub open spec fn tile_buffers_cleared(self) -> ToolsGuiView {
        ToolsGuiView {
            hex_tile_unit_query: Seq::empty(),
            hex_tile_item_query: Seq::empty(),
            hex_tile_level_query: Seq::empty(),
            hex_tile_unit_id: None,
            hex_tile_item_id: None,
            hex_tile_level_id: None,
            hex_tile_unit_name: None,
            hex_tile_item_name: None,
            hex_tile_level_name: None,
            hex_tile_type: Seq::empty(),
            ..self
        }
    }

    /// The same state with no tile selected and the tile buffers emptied.
    pub open spec fn selection_cleared(self) -> ToolsGuiView {
        ToolsGuiView {
            hex_grid_selected_x: None,
            hex_grid_selected_y: None,
            ..self.tile_buffers_cleared()
        }
    }

    /// The armor modifier draft back at its defaults.
    pub open spec fn armor_form_reset(self) -> ToolsGuiView {
        ToolsGuiView {
            armor_modifier_value: "0"@,
            armor_modifier_suit: "Spades"@,
            armor_modifier_damage_type: "Physical"@,
            ..self
        }
    }
}

impl ToolsGui {
    /// A fresh editor over the given paths: the Units tab, default form
    /// values, and a 9 x 9 hex grid draft with every tile present.
    pub fn new(tabletop_dir: PathBuf, db_path: PathBuf, migrations_dir: PathBuf) -> (r: ToolsGui)
        ensures
            r@ == ToolsGuiView::initial(tabletop_dir, db_path, migrations_dir),
    {
        ToolsGui {
            tab: Tab::Units,
            tabletop_dir,
            db_path,
            migrations_dir,
            unit_name: String::new(),
            unit_strength: "0".to_owned(),
            unit_focus: "0".to_owned(),
            unit_intelligence: "0".to_owned(),
            unit_agility: "0".to_owned(),
            unit_knowledge: "0".to_owned(),
            unit_assoc_action_name: String::new(),
            item_name: String::new(),
            item_assoc_action_name: String::new(),
            level_name: String::new(),
            level_text: String::new(),
            level_assoc_action_name: String::new(),
            action_name: String::new(),
            action_point_cost: "0".to_owned(),
            action_type: "Interaction".to_owned(),
            action_text: String::new(),
            attack_damage: "0".to_owned(),
            attack_damage_type: "Physical".to_owned(),
            attack_skill: "Strength".to_owned(),
            attack_target: "1".to_owned(),
            attack_range: "0".to_owned(),
            interaction_range: "0".to_owned(),
            interaction_skill: "Strength".to_owned(),
            interaction_target: String::new(),
            armor_modifier_value: "0".to_owned(),
            armor_modifier_suit: "Spades".to_owned(),
            armor_modifier_damage_type: "Physical".to_owned(),
            stat_modifier_value: "0".to_owned(),
            stat_modifier_stat: "Strength".to_owned(),
            stat_modifier_operator: "Add".to_owned(),
            pending_stat_modifiers: Vec::new(),
            hex_grid_width: "9".to_owned(),
            hex_grid_height: "9".to_owned(),
            hex_grid_name: "New Hex Grid".to_owned(),
            hex_grid_id: None,
            hex_grids: Vec::new(),
            hex_grid_selected_x: None,
            hex_grid_selected_y: None,
            hex_tile_unit_query: String::new(),
            hex_tile_item_query: String::new(),
            hex_tile_level_query: String::new(),
            hex_tile_unit_id: None,
            hex_tile_item_id: None,
            hex_tile_level_id: None,
            hex_tile_unit_name: None,
            hex_tile_item_name: None,
            hex_tile_level_name: None,
            hex_tile_type: String::new(),
            hex_grid_tiles_present: full_tile_set(9, 9),
            hex_grid_tiles_with_data: BTreeSet::new(),
            pending_armor_modifiers: Vec::new(),
            units: Vec::new(),
            items: Vec::new(),
            levels: Vec::new(),
            actions: Vec::new(),
            armor_modifiers: Vec::new(),
            stat_modifiers: Vec::new(),
            status: None,
            active_view: ActiveView::List,
        }
    }
}

} // verus!
