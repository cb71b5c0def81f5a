//! Running a database task once the host has opened the database.

use vstd::prelude::*;
use crate::shared::concat2;
use crate::tools::gui::effects::{DbTask, ToolsEffect};
use crate::tools::gui::state::{ToolsGui, ToolsGuiView};
use crate::tools::gui::tasks::{conn_error, conn_outcome};
use crate::tools::gui::tasks_actions::{
    create_action_spec, delete_subform_spec, edit_action_spec, save_action_spec,
    save_subform_spec,
};
use crate::tools::gui::tasks_cards::{
    add_assoc_spec, create_item_spec, create_level_spec, create_unit_spec, edit_item_spec,
    edit_level_spec, edit_unit_spec, kind_word, remove_assoc_spec, save_item_spec,
    save_level_spec, save_unit_spec, CardKind,
};
use crate::tools::gui::tasks_hex::{
    load_grid_task_spec, load_tile_task_spec, save_grid_task_spec, save_tile_task_spec,
};
use crate::tools::gui::tasks_mods::{
    armor_begin_edit_spec, armor_edit_task_spec, armor_task_spec, refresh_task_spec,
    stat_task_spec, StatTarget,
};
use crate::tools::gui::tasks::status_only;
use crate::num::decimal_spec;

verus! {

/// What running `t` does, given the outcome of opening the database.
pub open spec fn task_spec(
    pre: ToolsGuiView,
    t: DbTask,
    c: Option<Seq<char>>,
    post: ToolsGuiView,
    eff: ToolsEffect,
) -> bool {
    match t {
        DbTask::CreateUnitStatModifier => stat_task_spec(pre, StatTarget::Unit, c, post, eff),
        DbTask::CreateItemStatModifier => stat_task_spec(pre, StatTarget::Item, c, post, eff),
        DbTask::CreateLevelStatModifier => stat_task_spec(pre, StatTarget::Level, c, post, eff),
        DbTask::DeleteStatModifier(_) => conn_outcome(
            pre,
            c,
            post,
            eff,
            pre,
            ToolsEffect::Refresh,
            ToolsEffect::Nothing,
        ),
        DbTask::SaveHexGrid => save_grid_task_spec(pre, c, post, eff),
        DbTask::RefreshHexGrids => eff == ToolsEffect::Nothing && match c {
            Some(s) => post == pre.with_status(s),
            None => status_only(pre, post) || post == (ToolsGuiView {
                hex_grids: post.hex_grids,
                ..pre
            }),
        },
        DbTask::LoadHexGridById(id) => eff == ToolsEffect::Nothing && load_grid_task_spec(
            pre,
            id,
            c,
            post,
        ),
        DbTask::DeleteHexGridById(id) => match c {
            Some(s) => post == pre.with_status(s) && eff == ToolsEffect::Nothing,
            None => (status_only(pre, post) && eff == ToolsEffect::Nothing) || (post
                == (ToolsGuiView {
                hex_grid_id: if pre.hex_grid_id == Some(id) {
                    None
                } else {
                    pre.hex_grid_id
                },
                ..pre
            }) && eff == ToolsEffect::RefreshHexGrids),
        },
        DbTask::LoadTile { .. } => eff == ToolsEffect::Nothing && load_tile_task_spec(pre, post),
        DbTask::SaveTileAssociations => eff == ToolsEffect::Nothing && save_tile_task_spec(
            pre,
            c,
            post,
        ),
        DbTask::CreateArmorModifier => armor_task_spec(pre, c, post, eff),
        DbTask::RemoveArmorModifierLink(id) => conn_outcome(
            pre,
            c,
            post,
            eff,
            pre.with_status("Removed armor modifier link (id="@ + decimal_spec(id as int) + ")"@),
            ToolsEffect::Refresh,
            ToolsEffect::Nothing,
        ),
        DbTask::EditArmorModifier(id) => eff == ToolsEffect::Nothing && armor_begin_edit_spec(
            pre,
            id,
            c,
            post,
        ),
        DbTask::SaveArmorModifierEdits => armor_edit_task_spec(pre, c, post, eff),
        DbTask::DeleteArmorModifier(id) => conn_outcome(
            pre,
            c,
            post,
            eff,
            pre.with_status("Deleted armor modifier id="@ + decimal_spec(id as int) + ""@),
            ToolsEffect::Refresh,
            ToolsEffect::Refresh,
        ),
        DbTask::RefreshLists => eff == ToolsEffect::Nothing && refresh_task_spec(pre, c, post),
        DbTask::CreateUnit => create_unit_spec(pre, false, c, post, eff),
        DbTask::AddUnitAssociation => add_assoc_spec(pre, CardKind::Unit, c, post, eff),
        DbTask::RemoveUnitAssociation(_) => remove_assoc_spec(pre, CardKind::Unit, c, post, eff),
        DbTask::CreateUnitAndMaybeAssociate => create_unit_spec(pre, true, c, post, eff),
        DbTask::CreateItem => create_item_spec(pre, false, c, post, eff),
        DbTask::CreateItemAndMaybeAssociate => create_item_spec(pre, true, c, post, eff),
        DbTask::AddItemAssociation => add_assoc_spec(pre, CardKind::Item, c, post, eff),
        DbTask::RemoveItemAssociation(_) => remove_assoc_spec(pre, CardKind::Item, c, post, eff),
        DbTask::CreateLevel => create_level_spec(pre, false, c, post, eff),
        DbTask::CreateLevelAndMaybeAssociate => create_level_spec(pre, true, c, post, eff),
        DbTask::AddLevelAssociation => add_assoc_spec(pre, CardKind::Level, c, post, eff),
        DbTask::RemoveLevelAssociation(_) => remove_assoc_spec(pre, CardKind::Level, c, post, eff),
        DbTask::CreateAction => create_action_spec(pre, c, post, eff),
        DbTask::SaveAttackEdits => save_subform_spec(pre, true, c, post, eff),
        DbTask::DeleteAttack => delete_subform_spec(pre, true, c, post, eff),
        DbTask::SaveInteractionEdits => save_subform_spec(pre, false, c, post, eff),
        DbTask::DeleteInteraction => delete_subform_spec(pre, false, c, post, eff),
        DbTask::EditUnit(_) => eff == ToolsEffect::Nothing && edit_unit_spec(pre, c, post),
        DbTask::EditItem(_) => eff == ToolsEffect::Nothing && edit_item_spec(pre, c, post),
        DbTask::EditLevel(_) => eff == ToolsEffect::Nothing && edit_level_spec(pre, c, post),
        DbTask::EditAction(_) => eff == ToolsEffect::Nothing && edit_action_spec(pre, c, post),
        DbTask::SaveUnitEdits => save_unit_spec(pre, c, post, eff),
        DbTask::SaveItemEdits => save_item_spec(pre, c, post, eff),
        DbTask::SaveLevelEdits => save_level_spec(pre, c, post, eff),
        DbTask::SaveActionEdits => save_action_spec(pre, c, post, eff),
        DbTask::DeleteUnit(n) => conn_outcome(
            pre,
            c,
            post,
            eff,
            pre.with_status("Deleted "@ + kind_word(CardKind::Unit) + " `"@ + n@ + "`"@),
            ToolsEffect::Refresh,
            ToolsEffect::Refresh,
        ),
        DbTask::DeleteItem(n) => conn_outcome(
            pre,
            c,
            post,
            eff,
            pre.with_status("Deleted "@ + kind_word(CardKind::Item) + " `"@ + n@ + "`"@),
            ToolsEffect::Refresh,
            ToolsEffect::Refresh,
        ),
        DbTask::DeleteLevel(n) => conn_outcome(
            pre,
            c,
            post,
            eff,
            pre.with_status("Deleted "@ + kind_word(CardKind::Level) + " `"@ + n@ + "`"@),
            ToolsEffect::Refresh,
            ToolsEffect::Refresh,
        ),
        DbTask::DeleteAction(n) => conn_outcome(
            pre,
            c,
            post,
            eff,
            pre.with_status("Deleted action `"@ + n@ + "`"@),
            ToolsEffect::Refresh,
            ToolsEffect::Refresh,
        ),
    }
}

impl ToolsGui {
    /// The outcome of bringing the database up to date (`Refresh`): a
    /// failure is shown as `"DB init failed: <why>"`; otherwise the host is
    /// asked to open the database and reload the lists.
    pub fn db_ready(&mut self, ready: Result<(), String>) -> (eff: ToolsEffect)
        ensures
            match ready {
                Err(s) => final(self)@ == old(self)@.with_status("DB init failed: "@ + s@) && eff
                    == ToolsEffect::Nothing,
                Ok(()) => final(self)@ == old(self)@ && eff == ToolsEffect::OpenDb(
                    DbTask::RefreshLists,
                ),
            },
    {
        match ready {
            Err(s) => {
                self.status = Some(concat2("DB init failed: ", s.as_str()));
                ToolsEffect::Nothing
            },
            Ok(()) => ToolsEffect::OpenDb(DbTask::RefreshLists),
        }
    }

    /// Runs task `t` with the outcome of opening the database.
    pub fn run_task(&mut self, t: DbTask, conn: Result<rusqlite::Connection, String>) -> (eff: ToolsEffect)
        ensures
            task_spec(old(self)@, t, conn_error(conn), final(self)@, eff),
    {
        match t {
            DbTask::CreateUnitStatModifier => self.task_create_stat_modifier(StatTarget::Unit, conn),
            DbTask::CreateItemStatModifier => self.task_create_stat_modifier(StatTarget::Item, conn),
            DbTask::CreateLevelStatModifier => self.task_create_stat_modifier(
                StatTarget::Level,
                conn,
            ),
            DbTask::DeleteStatModifier(id) => self.task_delete_stat_modifier(id, conn),
            DbTask::SaveHexGrid => self.task_save_hex_grid(conn),
            DbTask::RefreshHexGrids => {
                self.task_refresh_hex_grids(conn);
                ToolsEffect::Nothing
            },
            DbTask::LoadHexGridById(id) => {
                self.task_load_hex_grid(id, conn);
                ToolsEffect::Nothing
            },
            DbTask::DeleteHexGridById(id) => self.task_delete_hex_grid(id, conn),
            DbTask::LoadTile { grid_id, x, y } => {
                self.task_load_tile(grid_id, x, y, conn);
                ToolsEffect::Nothing
            },
            DbTask::SaveTileAssociations => {
                self.task_save_tile_associations(conn);
                ToolsEffect::Nothing
            },
            DbTask::CreateArmorModifier => self.task_create_armor_modifier(conn),
            DbTask::RemoveArmorModifierLink(id) => self.task_remove_armor_modifier_link(id, conn),
            DbTask::EditArmorModifier(id) => {
                self.task_edit_armor_modifier(id, conn);
                ToolsEffect::Nothing
            },
            DbTask::SaveArmorModifierEdits => self.task_save_armor_modifier_edits(conn),
            DbTask::DeleteArmorModifier(id) => self.task_delete_armor_modifier(id, conn),
            DbTask::RefreshLists => {
                self.task_refresh_lists(conn);
                ToolsEffect::Nothing
            },
            DbTask::CreateUnit => self.task_create_unit(false, conn),
            DbTask::AddUnitAssociation => self.task_add_association(CardKind::Unit, conn),
            DbTask::RemoveUnitAssociation(a) => self.task_remove_association(
                CardKind::Unit,
                a.as_str(),
                conn,
            ),
            DbTask::CreateUnitAndMaybeAssociate => self.task_create_unit(true, conn),
            DbTask::CreateItem => self.task_create_item(false, conn),
            DbTask::CreateItemAndMaybeAssociate => self.task_create_item(true, conn),
            DbTask::AddItemAssociation => self.task_add_association(CardKind::Item, conn),
            DbTask::RemoveItemAssociation(a) => self.task_remove_association(
                CardKind::Item,
                a.as_str(),
                conn,
            ),
            DbTask::CreateLevel => self.task_create_level(false, conn),
            DbTask::CreateLevelAndMaybeAssociate => self.task_create_level(true, conn),
            DbTask::AddLevelAssociation => self.task_add_association(CardKind::Level, conn),
            DbTask::RemoveLevelAssociation(a) => self.task_remove_association(
                CardKind::Level,
                a.as_str(),
                conn,
            ),
            DbTask::CreateAction => self.task_create_action(conn),
            DbTask::SaveAttackEdits => self.task_save_attack_edits(conn),
            DbTask::DeleteAttack => self.task_delete_attack(conn),
            DbTask::SaveInteractionEdits => self.task_save_interaction_edits(conn),
            DbTask::DeleteInteraction => self.task_delete_interaction(conn),
            DbTask::EditUnit(n) => {
                self.task_edit_unit(n.as_str(), conn);
                ToolsEffect::Nothing
            },
            DbTask::EditItem(n) => {
                self.task_edit_item(n.as_str(), conn);
                ToolsEffect::Nothing
            },
            DbTask::EditLevel(n) => {
                self.task_edit_level(n.as_str(), conn);
                ToolsEffect::Nothing
            },
            DbTask::EditAction(n) => {
                self.task_edit_action(n.as_str(), conn);
                ToolsEffect::Nothing
            },
            DbTask::SaveUnitEdits => self.task_save_unit_edits(conn),
            DbTask::SaveItemEdits => self.task_save_item_edits(conn),
            DbTask::SaveLevelEdits => self.task_save_level_edits(conn),
            DbTask::SaveActionEdits => self.task_save_action_edits(conn),
            DbTask::DeleteUnit(n) => self.task_delete_card(CardKind::Unit, n.as_str(), conn),
            DbTask::DeleteItem(n) => self.task_delete_card(CardKind::Item, n.as_str(), conn),
            DbTask::DeleteLevel(n) => self.task_delete_card(CardKind::Level, n.as_str(), conn),
            DbTask::DeleteAction(n) => self.task_delete_action(n.as_str(), conn),
        }
    }
}

} // verus!
