//! What every decision of the editor keeps.

use vstd::prelude::*;
use crate::num::{decimal_spec, lemma_decimal_edges, lemma_parse_decimal_roundtrip};
use crate::text::lemma_trim_keeps;
use crate::tools::form_parsing::required_i64_spec;
use crate::tools::gui::dispatch::task_spec;
use crate::tools::gui::effects::{DbTask, ToolsEffect};
use crate::tools::gui::state::{full_grid, ToolsGuiView};
use crate::tools::gui::types::Message;
use crate::tools::gui::update::{chosen_count, selected, update_spec};

verus! {

/// The hex grid draft is consistent: every tile marked as holding data is a
/// present tile, and the selected tile, if any, is present.
pub open spec fn tiles_consistent(v: ToolsGuiView) -> bool {
    &&& v.hex_grid_tiles_with_data.subset_of(v.hex_grid_tiles_present)
    &&& (selected(v) matches Some(c) ==> v.hex_grid_tiles_present.contains(c))
}

/// A fresh editor's draft is consistent and has no tile association
/// filled in.
pub proof fn lemma_initial_consistent(
    tabletop_dir: std::path::PathBuf,
    db_path: std::path::PathBuf,
    migrations_dir: std::path::PathBuf,
)
    ensures
        tiles_consistent(ToolsGuiView::initial(tabletop_dir, db_path, migrations_dir)),
        chosen_count(ToolsGuiView::initial(tabletop_dir, db_path, migrations_dir)) == 0,
        ToolsGuiView::initial(tabletop_dir, db_path, migrations_dir).hex_grid_tiles_present
            == full_grid(9, 9),
{
    crate::text::lemma_blank_iff_all_ws(Seq::<char>::empty());
}

/// Every message keeps the hex grid draft consistent.
pub proof fn lemma_update_keeps_tiles_consistent(
    pre: ToolsGuiView,
    m: Message,
    post: ToolsGuiView,
    eff: ToolsEffect,
)
    requires
        tiles_consistent(pre),
        update_spec(pre, m, post, eff),
    ensures
        tiles_consistent(post),
{
    match m {
        Message::HexGridApplyResize => {
            assert(post.hex_grid_tiles_with_data.subset_of(post.hex_grid_tiles_present));
        },
        Message::HexGridTileClear(x, y) => {
            assert(post.hex_grid_tiles_with_data.subset_of(post.hex_grid_tiles_present));
        },
        _ => {},
    }
}

/// Every database task keeps the hex grid draft consistent, whatever the
/// database holds.
pub proof fn lemma_task_keeps_tiles_consistent(
    pre: ToolsGuiView,
    t: DbTask,
    c: Option<Seq<char>>,
    post: ToolsGuiView,
    eff: ToolsEffect,
)
    requires
        tiles_consistent(pre),
        task_spec(pre, t, c, post, eff),
    ensures
        tiles_consistent(post),
{
    match t {
        DbTask::CreateUnitStatModifier => {},
        DbTask::CreateItemStatModifier => {},
        DbTask::CreateLevelStatModifier => {},
        DbTask::DeleteStatModifier(..) => {},
        DbTask::SaveHexGrid => {},
        DbTask::RefreshHexGrids => {},
        DbTask::LoadHexGridById(..) => {},
        DbTask::DeleteHexGridById(..) => {},
        DbTask::LoadTile { .. } => {},
        DbTask::SaveTileAssociations => {},
        DbTask::CreateArmorModifier => {},
        DbTask::RemoveArmorModifierLink(..) => {},
        DbTask::EditArmorModifier(..) => {},
        DbTask::SaveArmorModifierEdits => {},
        DbTask::DeleteArmorModifier(..) => {},
        DbTask::RefreshLists => {},
        DbTask::CreateUnit => {},
        DbTask::AddUnitAssociation => {},
        DbTask::RemoveUnitAssociation(..) => {},
        DbTask::CreateUnitAndMaybeAssociate => {},
        DbTask::CreateItem => {},
        DbTask::CreateItemAndMaybeAssociate => {},
        DbTask::AddItemAssociation => {},
        DbTask::RemoveItemAssociation(..) => {},
        DbTask::CreateLevel => {},
        DbTask::CreateLevelAndMaybeAssociate => {},
        DbTask::AddLevelAssociation => {},
        DbTask::RemoveLevelAssociation(..) => {},
        DbTask::CreateAction => {},
        DbTask::SaveAttackEdits => {},
        DbTask::DeleteAttack => {},
        DbTask::SaveInteractionEdits => {},
        DbTask::DeleteInteraction => {},
        DbTask::EditUnit(..) => {},
        DbTask::EditItem(..) => {},
        DbTask::EditLevel(..) => {},
        DbTask::EditAction(..) => {},
        DbTask::SaveUnitEdits => {},
        DbTask::SaveItemEdits => {},
        DbTask::SaveLevelEdits => {},
        DbTask::SaveActionEdits => {},
        DbTask::DeleteUnit(..) => {},
        DbTask::DeleteItem(..) => {},
        DbTask::DeleteLevel(..) => {},
        DbTask::DeleteAction(..) => {},
    }
}

/// Every message keeps at most one of the selected tile's association
/// inputs (unit, item, level, type) filled in.
pub proof fn lemma_update_keeps_one_tile_association(
    pre: ToolsGuiView,
    m: Message,
    post: ToolsGuiView,
    eff: ToolsEffect,
)
    requires
        chosen_count(pre) <= 1,
        update_spec(pre, m, post, eff),
    ensures
        chosen_count(post) <= 1,
{
    crate::text::lemma_blank_iff_all_ws(Seq::<char>::empty());
}

/// Every database task keeps at most one tile association input filled
/// in.
pub proof fn lemma_task_keeps_one_tile_association(
    pre: ToolsGuiView,
    t: DbTask,
    c: Option<Seq<char>>,
    post: ToolsGuiView,
    eff: ToolsEffect,
)
    requires
        chosen_count(pre) <= 1,
        task_spec(pre, t, c, post, eff),
    ensures
        chosen_count(post) <= 1,
{
    crate::text::lemma_blank_iff_all_ws(Seq::<char>::empty());
    match t {
        DbTask::CreateUnitStatModifier => {},
        DbTask::CreateItemStatModifier => {},
        DbTask::CreateLevelStatModifier => {},
        DbTask::DeleteStatModifier(..) => {},
        DbTask::SaveHexGrid => {},
        DbTask::RefreshHexGrids => {},
        DbTask::LoadHexGridById(..) => {},
        DbTask::DeleteHexGridById(..) => {},
        DbTask::LoadTile { .. } => {},
        DbTask::SaveTileAssociations => {},
        DbTask::CreateArmorModifier => {},
        DbTask::RemoveArmorModifierLink(..) => {},
        DbTask::EditArmorModifier(..) => {},
        DbTask::SaveArmorModifierEdits => {},
        DbTask::DeleteArmorModifier(..) => {},
        DbTask::RefreshLists => {},
        DbTask::CreateUnit => {},
        DbTask::AddUnitAssociation => {},
        DbTask::RemoveUnitAssociation(..) => {},
        DbTask::CreateUnitAndMaybeAssociate => {},
        DbTask::CreateItem => {},
        DbTask::CreateItemAndMaybeAssociate => {},
        DbTask::AddItemAssociation => {},
        DbTask::RemoveItemAssociation(..) => {},
        DbTask::CreateLevel => {},
        DbTask::CreateLevelAndMaybeAssociate => {},
        DbTask::AddLevelAssociation => {},
        DbTask::RemoveLevelAssociation(..) => {},
        DbTask::CreateAction => {},
        DbTask::SaveAttackEdits => {},
        DbTask::DeleteAttack => {},
        DbTask::SaveInteractionEdits => {},
        DbTask::DeleteInteraction => {},
        DbTask::EditUnit(..) => {},
        DbTask::EditItem(..) => {},
        DbTask::EditLevel(..) => {},
        DbTask::EditAction(..) => {},
        DbTask::SaveUnitEdits => {},
        DbTask::SaveItemEdits => {},
        DbTask::SaveLevelEdits => {},
        DbTask::SaveActionEdits => {},
        DbTask::DeleteUnit(..) => {},
        DbTask::DeleteItem(..) => {},
        DbTask::DeleteLevel(..) => {},
        DbTask::DeleteAction(..) => {},
    }
}

/// A number the editor writes into a form (as when a card is loaded into
/// its editor) reads back as the same number when the form is saved.
pub proof fn lemma_form_number_roundtrip(label: Seq<char>, v: i64)
    ensures
        required_i64_spec(label, decimal_spec(v as int)) == Ok::<i64, Seq<char>>(v),
{
    let s = decimal_spec(v as int);
    lemma_decimal_edges(v as int);
    lemma_trim_keeps(s);
    lemma_parse_decimal_roundtrip(v);
}

/// Removing queued stat modifier `i` deletes exactly that entry: the ones
/// before it stay where they were, the ones after it move up by one; an
/// index past the end changes nothing.
pub proof fn lemma_remove_pending_stat_modifier(pre: ToolsGuiView, i: usize, post: ToolsGuiView, eff: ToolsEffect)
    requires
        update_spec(pre, Message::RemovePendingStatModifier(i), post, eff),
    ensures
        eff == ToolsEffect::Nothing,
        i < pre.pending_stat_modifiers.len() ==> {
            &&& post.pending_stat_modifiers.len() == pre.pending_stat_modifiers.len() - 1
            &&& forall|k: int| 0 <= k < i ==> post.pending_stat_modifiers[k] == pre.pending_stat_modifiers[k]
            &&& forall|k: int| i <= k < post.pending_stat_modifiers.len() ==> post.pending_stat_modifiers[k]
                == pre.pending_stat_modifiers[k + 1]
        },
        i >= pre.pending_stat_modifiers.len() ==> post == pre,
        post.pending_armor_modifiers == pre.pending_armor_modifiers,
{
}

/// Removing queued armor modifier `i` deletes exactly that entry: the ones
/// before it stay where they were, the ones after it move up by one; an
/// index past the end changes nothing.
pub proof fn lemma_remove_pending_armor_modifier(pre: ToolsGuiView, i: usize, post: ToolsGuiView, eff: ToolsEffect)
    requires
        update_spec(pre, Message::RemovePendingArmorModifier(i), post, eff),
    ensures
        eff == ToolsEffect::Nothing,
        i < pre.pending_armor_modifiers.len() ==> {
            &&& post.pending_armor_modifiers.len() == pre.pending_armor_modifiers.len() - 1
            &&& forall|k: int| 0 <= k < i ==> post.pending_armor_modifiers[k] == pre.pending_armor_modifiers[k]
            &&& forall|k: int| i <= k < post.pending_armor_modifiers.len() ==> post.pending_armor_modifiers[k]
                == pre.pending_armor_modifiers[k + 1]
        },
        i >= pre.pending_armor_modifiers.len() ==> post == pre,
        post.pending_stat_modifiers == pre.pending_stat_modifiers,
{
}

} // verus!
