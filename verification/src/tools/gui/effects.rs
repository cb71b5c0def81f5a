//! What the host application does after the editor has decided a message.

use vstd::prelude::*;

verus! {

/// A piece of work that needs a database connection. The host opens the
/// connection (which also brings the schema up to date) and hands the result
/// to `ToolsGui::run_task`.
#[derive(Debug, Clone, PartialEq, Eq)]
pub enum DbTask {
    CreateUnitStatModifier,
    CreateItemStatModifier,
    CreateLevelStatModifier,
    DeleteStatModifier(i64),
    SaveHexGrid,
    RefreshHexGrids,
    LoadHexGridById(i64),
    DeleteHexGridById(i64),
    /// Load the stored associations of tile `(x, y)` of grid `grid_id`.
    LoadTile { grid_id: i64, x: i32, y: i32 },
    SaveTileAssociations,
    CreateArmorModifier,
    RemoveArmorModifierLink(i64),
    EditArmorModifier(i64),
    SaveArmorModifierEdits,
    DeleteArmorModifier(i64),
    RefreshLists,
    CreateUnit,
    AddUnitAssociation,
    RemoveUnitAssociation(String),
    CreateUnitAndMaybeAssociate,
    CreateItem,
    CreateItemAndMaybeAssociate,
    AddItemAssociation,
    RemoveItemAssociation(String),
    CreateLevel,
    CreateLevelAndMaybeAssociate,
    AddLevelAssociation,
    RemoveLevelAssociation(String),
    CreateAction,
    SaveAttackEdits,
    DeleteAttack,
    SaveInteractionEdits,
    DeleteInteraction,
    EditUnit(String),
    EditItem(String),
    EditLevel(String),
    EditAction(String),
    SaveUnitEdits,
    SaveItemEdits,
    SaveLevelEdits,
    SaveActionEdits,
    DeleteUnit(String),
    DeleteItem(String),
    DeleteLevel(String),
    DeleteAction(String),
}

/// What the host does next.
#[derive(Debug, Clone, PartialEq, Eq)]
pub enum ToolsEffect {
    /// Nothing more.
    Nothing,
    /// Feed `Message::Refresh` back in.
    Refresh,
    /// Feed `Message::RefreshHexGrids` back in.
    RefreshHexGrids,
    /// Create the directories and the database, bring the schema up to
    /// date, and hand the outcome to `ToolsGui::db_ready`.
    EnsureDbReady,
    /// Open the database and hand the connection to `ToolsGui::run_task`.
    OpenDb(DbTask),
}

} // verus!
