//! The card editor's tabs, views, messages and list rows.

use vstd::prelude::*;

verus! {

/// Which association an action's editor shows.
#[derive(Debug, Clone, Copy, PartialEq, Eq, Structural)]
pub enum ActionAssociationKind {
    /// Linked to nothing.
    Unlinked,
    Unit,
    Item,
    Level,
}

/// The editor's tabs.
#[derive(Debug, Clone, Copy, PartialEq, Eq, Structural)]
pub enum Tab {
    Units,
    Items,
    Levels,
    Actions,
    ArmorModifiers,
    HexGrids,
}

/// The caption of a tab.
pub open spec fn tab_label(t: Tab) -> Seq<char> {
    match t {
        Tab::Units => "Units"@,
        Tab::Items => "Items"@,
        Tab::Levels => "Levels"@,
        Tab::Actions => "Actions"@,
        Tab::ArmorModifiers => "Armor Modifiers"@,
        Tab::HexGrids => "Hex Grids"@,
    }
}

impl Tab {
    /// The caption of the tab.
    pub fn label(self) -> (r: &'static str)
        ensures
            r@ == tab_label(self),
    {
        match self {
            Tab::Units => "Units",
            Tab::Items => "Items",
            Tab::Levels => "Levels",
            Tab::Actions => "Actions",
            Tab::ArmorModifiers => "Armor Modifiers",
            Tab::HexGrids => "Hex Grids",
        }
    }
}

/// What the current tab shows: its list, or the editor of one record.
#[derive(Debug, Clone, PartialEq, Eq)]
pub enum ActiveView {
    List,
    EditUnit { original_name: String },
    EditItem { original_name: String },
    EditLevel { original_name: String },
    EditAction { original_name: String },
    EditArmorModifier { id: i64 },
}

/// What the user did.
#[derive(Debug, Clone)]
pub enum Message {
    Tick,
    SwitchTab(Tab),
    // Refresh data
    Refresh,
    // Stat modifiers form buffers
    StatModifierValueChanged(String),
    StatModifierStatChanged(String),
    StatModifierOperatorChanged(String),
    // Queue stat modifiers during create flows (Item/Level)
    AddPendingStatModifier,
    RemovePendingStatModifier(usize),
    ClearPendingStatModifiers,
    // Create stat modifiers while editing cards
    CreateUnitStatModifier,
    CreateItemStatModifier,
    CreateLevelStatModifier,
    // Delete stat modifiers from card views
    DeleteStatModifier(i64),
    // Hex grid editor
    HexGridWidthChanged(String),
    HexGridHeightChanged(String),
    HexGridNameChanged(String),
    CreateNewHexGrid,
    SaveHexGrid,
    RefreshHexGrids,
    LoadHexGridById(i64),
    DeleteHexGridById(i64),
    HexGridApplyResize,
    HexGridTileClicked(i32, i32),
    HexGridTileClear(i32, i32),
    HexTileUnitQueryChanged(String),
    HexTileItemQueryChanged(String),
    HexTileLevelQueryChanged(String),
    HexTilePickUnitByName(String),
    HexTilePickItemByName(String),
    HexTilePickLevelByName(String),
    HexTileTypeChanged(String),
    SaveHexTileAssociations,
    ClearHexTileAssociations,
    ArmorModifierValueChanged(String),
    ArmorModifierSuitChanged(String),
    ArmorModifierDamageTypeChanged(String),
    AddPendingArmorModifier,
    RemovePendingArmorModifier(usize),
    ClearPendingArmorModifiers,
    CreateArmorModifier,
    RemoveArmorModifierLink(i64),
    EditArmorModifier(i64),
    SaveArmorModifierEdits,
    DeleteArmorModifier(i64),
    UnitNameChanged(String),
    UnitStrengthChanged(String),
    UnitFocusChanged(String),
    UnitIntelligenceChanged(String),
    UnitAgilityChanged(String),
    UnitKnowledgeChanged(String),
    CreateUnit,
    ItemNameChanged(String),
    CreateItem,
    LevelNameChanged(String),
    LevelTextChanged(String),
    CreateLevel,
    ActionNameChanged(String),
    ActionPointCostChanged(String),
    ActionTypeChanged(String),
    ActionTextChanged(String),
    CreateAction,
    UnitAssocActionNameChanged(String),
    ItemAssocActionNameChanged(String),
    LevelAssocActionNameChanged(String),
    AddUnitAssociation,
    RemoveUnitAssociation(String),
    AddItemAssociation,
    RemoveItemAssociation(String),
    AddLevelAssociation,
    RemoveLevelAssociation(String),
    CreateUnitAndMaybeAssociate,
    CreateItemAndMaybeAssociate,
    CreateLevelAndMaybeAssociate,
    AttackDamageChanged(String),
    AttackDamageTypeChanged(String),
    AttackSkillChanged(String),
    AttackTargetChanged(String),
    AttackRangeChanged(String),
    SaveAttackEdits,
    DeleteAttack,
    InteractionRangeChanged(String),
    InteractionSkillChanged(String),
    InteractionTargetChanged(String),
    SaveInteractionEdits,
    DeleteInteraction,
    EditUnit(String),
    EditItem(String),
    EditLevel(String),
    EditAction(String),
    CancelEdit,
    SaveUnitEdits,
    SaveItemEdits,
    SaveLevelEdits,
    SaveActionEdits,
    DeleteUnit(String),
    DeleteItem(String),
    DeleteLevel(String),
    DeleteAction(String),
    // Status
    ClearStatus,
}

#[derive(Debug, Clone, PartialEq, Eq)]
pub struct UnitRow {
    pub name: String,
    pub strength: i64,
    pub focus: i64,
    pub intelligence: i64,
    pub agility: i64,
    pub knowledge: i64,
}

#[derive(Debug, Clone, PartialEq, Eq)]
pub struct ItemRow {
    pub name: String,
}

#[derive(Debug, Clone, PartialEq, Eq)]
pub struct LevelRow {
    pub name: String,
    pub text: String,
}

#[derive(Debug, Clone, PartialEq, Eq)]
pub struct ActionRow {
    pub name: String,
    pub action_point_cost: i64,
    pub action_type: String,
    pub text: String,
    // Optional association (exactly one of these is Some at a time, or all None).
    pub unit_name: Option<String>,
    pub item_name: Option<String>,
    pub level_name: Option<String>,
}

#[derive(Debug, Clone, PartialEq, Eq)]
pub struct ArmorModifierRow {
    pub id: i64,
    pub card_id: i64,
    pub value: i64,
    pub suit: String,
    pub damage_type: String,
    // Optional association (at most one is Some at a time, or all None).
    pub item_name: Option<String>,
    pub level_name: Option<String>,
}

#[derive(Debug, Clone, PartialEq, Eq)]
pub struct StatModifierRow {
    pub id: i64,
    pub stat: String,
    pub value: i64,
    pub operator: String,
    // Optional association (at most one is Some at a time, or all None).
    pub unit_name: Option<String>,
    pub item_name: Option<String>,
    pub level_name: Option<String>,
}

#[derive(Debug, Clone, PartialEq, Eq)]
pub struct HexGridRow {
    pub id: i64,
    pub name: String,
    pub width: i32,
    pub height: i32,
}

} // verus!
