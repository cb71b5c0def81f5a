//! The editor's decision on each message.
//!
//! Messages that only change the editor's buffers are decided here in full.
//! A message that needs the database is checked as far as the editor checks
//! it before it opens a connection; if that passes, the state is unchanged
//! and the host is asked to open the database for the matching `DbTask`.

use vstd::prelude::*;
use std::collections::BTreeSet;
use crate::cards::armor_modifier::ArmorModifier;
use crate::num::{decimal_spec, i64_to_string, parse_int, parse_int_result};
use crate::text::{is_blank, is_blank_spec, str_eq, trim, trim_spec};
use crate::tools::gui::effects::{DbTask, ToolsEffect};
use crate::tools::gui::forms::{armor_form_spec, stat_form_spec};
use crate::tools::gui::state::{full_grid, full_tile_set, ToolsGui, ToolsGuiView};
use crate::tools::gui::types::{ActiveView, Message, Tab};

verus! {

broadcast use vstd::laws_cmp::group_laws_cmp;

/// A positive grid dimension typed into a form, if the input is one.
pub open spec fn pos_dim(s: Seq<char>) -> Option<i32> {
    match parse_int_result(trim_spec(s), i32::MIN as int, i32::MAX as int) {
        Ok(v) => if v > 0 {
            Some(v as i32)
        } else {
            None
        },
        Err(_) => None,
    }
}

/// A grid dimension typed into a form: 9 if it is not an `i32`, and at
/// least 1.
pub open spec fn dim_or_default(s: Seq<char>) -> i32 {
    match parse_int_result(trim_spec(s), i32::MIN as int, i32::MAX as int) {
        Ok(v) => if v < 1 {
            1
        } else {
            v as i32
        },
        Err(_) => 9,
    }
}

/// The coordinates of `s` inside a `width` x `height` grid.
pub open spec fn within(s: Set<(i32, i32)>, width: int, height: int) -> Set<(i32, i32)> {
    s.intersect(full_grid(width, height))
}

/// The tile the editor has selected, if any.
pub open spec fn selected(v: ToolsGuiView) -> Option<(i32, i32)> {
    match (v.hex_grid_selected_x, v.hex_grid_selected_y) {
        (Some(x), Some(y)) => Some((x, y)),
        _ => None,
    }
}

/// The editor after "new hex grid": an unsaved, fully populated grid of the
/// typed size.
pub open spec fn new_grid_spec(pre: ToolsGuiView) -> ToolsGuiView {
    ToolsGuiView {
        hex_grid_id: None,
        hex_grid_name: "New Hex Grid"@,
        hex_grid_tiles_present: full_grid(
            dim_or_default(pre.hex_grid_width) as int,
            dim_or_default(pre.hex_grid_height) as int,
        ),
        hex_grid_tiles_with_data: Set::empty(),
        ..pre.selection_cleared()
    }
}

/// The editor after "apply resize".
pub open spec fn resize_spec(pre: ToolsGuiView) -> ToolsGuiView {
    match (pos_dim(pre.hex_grid_width), pos_dim(pre.hex_grid_height)) {
        (Some(w), Some(h)) => {
            let sel_out = match selected(pre) {
                Some((x, y)) => x < 0 || y < 0 || x >= w || y >= h,
                None => false,
            };
            ToolsGuiView {
                hex_grid_tiles_present: within(pre.hex_grid_tiles_present, w as int, h as int),
                hex_grid_tiles_with_data: within(pre.hex_grid_tiles_with_data, w as int, h as int),
                hex_grid_selected_x: if sel_out {
                    None
                } else {
                    pre.hex_grid_selected_x
                },
                hex_grid_selected_y: if sel_out {
                    None
                } else {
                    pre.hex_grid_selected_y
                },
                hex_grid_width: decimal_spec(w as int),
                hex_grid_height: decimal_spec(h as int),
                ..pre
            }
        },
        _ => pre.with_status("Width/height must be positive integers"@),
    }
}

/// The editor after a right click on `(x, y)`: no tile there, and the
/// selection dropped if it was that tile.
pub open spec fn tile_clear_spec(pre: ToolsGuiView, x: i32, y: i32) -> ToolsGuiView {
    let removed = ToolsGuiView {
        hex_grid_tiles_present: pre.hex_grid_tiles_present.remove((x, y)),
        hex_grid_tiles_with_data: pre.hex_grid_tiles_with_data.remove((x, y)),
        ..pre
    };
    if selected(pre) == Some((x, y)) {
        removed.selection_cleared()
    } else {
        removed
    }
}

/// The tile buffers with everything but the unit emptied.
pub open spec fn only_unit(v: ToolsGuiView) -> ToolsGuiView {
    ToolsGuiView {
        hex_tile_item_query: Seq::empty(),
        hex_tile_level_query: Seq::empty(),
        hex_tile_type: Seq::empty(),
        hex_tile_item_id: None,
        hex_tile_level_id: None,
        hex_tile_item_name: None,
        hex_tile_level_name: None,
        ..v
    }
}

/// The tile buffers with everything but the item emptied.
pub open spec fn only_item(v: ToolsGuiView) -> ToolsGuiView {
    ToolsGuiView {
        hex_tile_unit_query: Seq::empty(),
        hex_tile_level_query: Seq::empty(),
        hex_tile_type: Seq::empty(),
        hex_tile_unit_id: None,
        hex_tile_level_id: None,
        hex_tile_unit_name: None,
        hex_tile_level_name: None,
        ..v
    }
}

/// The tile buffers with everything but the level emptied.
pub open spec fn only_level(v: ToolsGuiView) -> ToolsGuiView {
    ToolsGuiView {
        hex_tile_unit_query: Seq::empty(),
        hex_tile_item_query: Seq::empty(),
        hex_tile_type: Seq::empty(),
        hex_tile_unit_id: None,
        hex_tile_item_id: None,
        hex_tile_unit_name: None,
        hex_tile_item_name: None,
        ..v
    }
}

/// The tile buffers with everything but the type emptied.
pub open spec fn only_type(v: ToolsGuiView) -> ToolsGuiView {
    ToolsGuiView {
        hex_tile_unit_query: Seq::empty(),
        hex_tile_item_query: Seq::empty(),
        hex_tile_level_query: Seq::empty(),
        hex_tile_unit_id: None,
        hex_tile_item_id: None,
        hex_tile_level_id: None,
        hex_tile_unit_name: None,
        hex_tile_item_name: None,
        hex_tile_level_name: None,
        ..v
    }
}

/// How many of the four tile association inputs are filled in.
pub open spec fn chosen_count(v: ToolsGuiView) -> int {
    (if is_blank_spec(v.hex_tile_unit_query) { 0int } else { 1int }) + (if is_blank_spec(
        v.hex_tile_item_query,
    ) {
        0int
    } else {
        1int
    }) + (if is_blank_spec(v.hex_tile_level_query) { 0int } else { 1int }) + (if is_blank_spec(
        v.hex_tile_type,
    ) {
        0int
    } else {
        1int
    })
}

/// The message shown when more than one tile association is filled in.
pub open spec fn only_one_msg() -> Seq<char> {
    "Choose only ONE association: Unit OR Level OR Item OR Type (clear the others first)"@
}

/// The decision on "save tile associations" before the database is opened.
pub open spec fn save_tile_spec(pre: ToolsGuiView, post: ToolsGuiView, eff: ToolsEffect) -> bool {
    match pre.hex_grid_id {
        None => post == pre.with_status("Save the hex grid first (no grid id yet)"@) && eff
            == ToolsEffect::Nothing,
        Some(_) => match selected(pre) {
            None => post == pre.with_status("Select a tile first"@) && eff == ToolsEffect::Nothing,
            Some(c) => {
                let inserted = ToolsGuiView {
                    hex_grid_tiles_present: pre.hex_grid_tiles_present.insert(c),
                    ..pre
                };
                if chosen_count(pre) > 1 {
                    post == inserted.with_status(only_one_msg()) && eff == ToolsEffect::Nothing
                } else {
                    post == inserted && eff == ToolsEffect::OpenDb(DbTask::SaveTileAssociations)
                }
            },
        },
    }
}

/// A decision that needs the database right away: nothing changes yet.
pub open spec fn opens(pre: ToolsGuiView, post: ToolsGuiView, eff: ToolsEffect, t: DbTask) -> bool {
    post == pre && eff == ToolsEffect::OpenDb(t)
}

/// A decision that first checks which record the editor shows.
pub open spec fn checks_view(
    pre: ToolsGuiView,
    post: ToolsGuiView,
    eff: ToolsEffect,
    ok: bool,
    msg: Seq<char>,
    t: DbTask,
) -> bool {
    if ok {
        opens(pre, post, eff, t)
    } else {
        post == pre.with_status(msg) && eff == ToolsEffect::Nothing
    }
}

pub open spec fn editing_unit(v: ToolsGuiView) -> bool {
    v.active_view is EditUnit
}

pub open spec fn editing_item(v: ToolsGuiView) -> bool {
    v.active_view is EditItem
}

pub open spec fn editing_level(v: ToolsGuiView) -> bool {
    v.active_view is EditLevel
}

pub open spec fn editing_action(v: ToolsGuiView) -> bool {
    v.active_view is EditAction
}

/// Some unit row is named `name`.
pub open spec fn has_unit_row(v: ToolsGuiView, name: Seq<char>) -> bool {
    exists|i: int| 0 <= i < v.units.len() && #[trigger] v.units[i].name@ == name
}

pub open spec fn has_item_row(v: ToolsGuiView, name: Seq<char>) -> bool {
    exists|i: int| 0 <= i < v.items.len() && #[trigger] v.items[i].name@ == name
}

pub open spec fn has_level_row(v: ToolsGuiView, name: Seq<char>) -> bool {
    exists|i: int| 0 <= i < v.levels.len() && #[trigger] v.levels[i].name@ == name
}

/// The editor's decision on `m` in state `pre`: the state it leaves, `post`,
/// and what the host does next, `eff`.
pub open spec fn update_spec(pre: ToolsGuiView, m: Message, post: ToolsGuiView, eff: ToolsEffect) -> bool {
    match m {
        Message::Tick => post == pre && eff == ToolsEffect::Nothing,
        Message::SwitchTab(t) => post == (ToolsGuiView { tab: t, active_view: ActiveView::List, ..pre })
            && eff == (if t == Tab::HexGrids {
            ToolsEffect::RefreshHexGrids
        } else {
            ToolsEffect::Nothing
        }),
        Message::Refresh => post == pre && eff == ToolsEffect::EnsureDbReady,
        Message::StatModifierValueChanged(v) => post == (ToolsGuiView {
            stat_modifier_value: v@,
            ..pre
        }) && eff == ToolsEffect::Nothing,
        Message::StatModifierStatChanged(v) => post == (ToolsGuiView {
            stat_modifier_stat: v@,
            ..pre
        }) && eff == ToolsEffect::Nothing,
        Message::StatModifierOperatorChanged(v) => post == (ToolsGuiView {
            stat_modifier_operator: v@,
            ..pre
        }) && eff == ToolsEffect::Nothing,
        Message::AddPendingStatModifier => eff == ToolsEffect::Nothing && match stat_form_spec(pre) {
            Ok(sm) => post == (ToolsGuiView {
                pending_stat_modifiers: pre.pending_stat_modifiers.push(sm),
                ..pre
            }),
            Err(e) => post == pre.with_status(e),
        },
        Message::RemovePendingStatModifier(i) => eff == ToolsEffect::Nothing && post == (if i
            < pre.pending_stat_modifiers.len() {
            ToolsGuiView {
                pending_stat_modifiers: pre.pending_stat_modifiers.remove(i as int),
                ..pre
            }
        } else {
            pre
        }),
        Message::ClearPendingStatModifiers => eff == ToolsEffect::Nothing && post == (ToolsGuiView {
            pending_stat_modifiers: Seq::empty(),
            ..pre
        }),
        Message::CreateUnitStatModifier => checks_view(
            pre,
            post,
            eff,
            editing_unit(pre),
            "not editing a unit"@,
            DbTask::CreateUnitStatModifier,
        ),
        Message::CreateItemStatModifier => checks_view(
            pre,
            post,
            eff,
            editing_item(pre),
            "not editing an item"@,
            DbTask::CreateItemStatModifier,
        ),
        Message::CreateLevelStatModifier => checks_view(
            pre,
            post,
            eff,
            editing_level(pre),
            "not editing a level"@,
            DbTask::CreateLevelStatModifier,
        ),
        Message::DeleteStatModifier(id) => opens(pre, post, eff, DbTask::DeleteStatModifier(id)),
        Message::HexGridWidthChanged(v) => post == (ToolsGuiView { hex_grid_width: v@, ..pre })
            && eff == ToolsEffect::Nothing,
        Message::HexGridHeightChanged(v) => post == (ToolsGuiView { hex_grid_height: v@, ..pre })
            && eff == ToolsEffect::Nothing,
        Message::HexGridNameChanged(v) => post == (ToolsGuiView { hex_grid_name: v@, ..pre })
            && eff == ToolsEffect::Nothing,
        Message::CreateNewHexGrid => post == new_grid_spec(pre) && eff == ToolsEffect::Nothing,
        Message::SaveHexGrid => match hex_grid_form_spec(pre) {
            Err(e) => post == pre.with_status(e) && eff == ToolsEffect::Nothing,
            Ok(_) => opens(pre, post, eff, DbTask::SaveHexGrid),
        },
        Message::RefreshHexGrids => opens(pre, post, eff, DbTask::RefreshHexGrids),
        Message::LoadHexGridById(id) => opens(pre, post, eff, DbTask::LoadHexGridById(id)),
        Message::DeleteHexGridById(id) => opens(pre, post, eff, DbTask::DeleteHexGridById(id)),
        Message::HexGridApplyResize => post == resize_spec(pre) && eff == ToolsEffect::Nothing,
        Message::HexGridTileClicked(x, y) => {
            &&& post == (ToolsGuiView {
                hex_grid_selected_x: Some(x),
                hex_grid_selected_y: Some(y),
                hex_grid_tiles_present: pre.hex_grid_tiles_present.insert((x, y)),
                ..pre
            })
            &&& eff == match pre.hex_grid_id {
                Some(grid_id) => ToolsEffect::OpenDb(DbTask::LoadTile { grid_id, x, y }),
                None => ToolsEffect::Nothing,
            }
        },
        Message::HexGridTileClear(x, y) => post == tile_clear_spec(pre, x, y) && eff
            == ToolsEffect::Nothing,
        Message::HexTileUnitQueryChanged(v) => eff == ToolsEffect::Nothing && {
            let set = ToolsGuiView { hex_tile_unit_query: v@, ..pre };
            post == if is_blank_spec(v@) {
                set
            } else {
                only_unit(set)
            }
        },
        Message::HexTileItemQueryChanged(v) => eff == ToolsEffect::Nothing && {
            let set = ToolsGuiView { hex_tile_item_query: v@, ..pre };
            post == if is_blank_spec(v@) {
                set
            } else {
                only_item(set)
            }
        },
        Message::HexTileLevelQueryChanged(v) => eff == ToolsEffect::Nothing && {
            let set = ToolsGuiView { hex_tile_level_query: v@, ..pre };
            post == if is_blank_spec(v@) {
                set
            } else {
                only_level(set)
            }
        },
        Message::HexTilePickUnitByName(n) => eff == ToolsEffect::Nothing && post == if has_unit_row(
            pre,
            n@,
        ) {
            ToolsGuiView {
                hex_tile_unit_name: Some(n@),
                hex_tile_unit_query: n@,
                ..only_unit(pre)
            }
        } else {
            pre
        },
        Message::HexTilePickItemByName(n) => eff == ToolsEffect::Nothing && post == if has_item_row(
            pre,
            n@,
        ) {
            ToolsGuiView {
                hex_tile_item_name: Some(n@),
                hex_tile_item_query: n@,
                ..only_item(pre)
            }
        } else {
            pre
        },
        Message::HexTilePickLevelByName(n) => eff == ToolsEffect::Nothing && post
            == if has_level_row(pre, n@) {
            ToolsGuiView {
                hex_tile_level_name: Some(n@),
                hex_tile_level_query: n@,
                ..only_level(pre)
            }
        } else {
            pre
        },
        Message::HexTileTypeChanged(v) => eff == ToolsEffect::Nothing && {
            let set = ToolsGuiView { hex_tile_type: v@, ..pre };
            post == if is_blank_spec(v@) {
                set
            } else {
                only_type(set)
            }
        },
        Message::SaveHexTileAssociations => save_tile_spec(pre, post, eff),
        Message::ClearHexTileAssociations => post == pre.tile_buffers_cleared() && eff
            == ToolsEffect::Nothing,
        Message::ArmorModifierValueChanged(v) => post == (ToolsGuiView {
            armor_modifier_value: v@,
            ..pre
        }) && eff == ToolsEffect::Nothing,
        Message::ArmorModifierSuitChanged(v) => post == (ToolsGuiView {
            armor_modifier_suit: v@,
            ..pre
        }) && eff == ToolsEffect::Nothing,
        Message::ArmorModifierDamageTypeChanged(v) => post == (ToolsGuiView {
            armor_modifier_damage_type: v@,
            ..pre
        }) && eff == ToolsEffect::Nothing,
        Message::AddPendingArmorModifier => eff == ToolsEffect::Nothing && match armor_form_spec(
            pre,
        ) {
            Ok((value, suit, damage_type)) => post == (ToolsGuiView {
                pending_armor_modifiers: pre.pending_armor_modifiers.push(
                    ArmorModifier { card_id: 0, value, suit, damage_type },
                ),
                ..pre.armor_form_reset()
            }).with_status("Armor modifier queued"@),
            Err(e) => post == pre.with_status(e),
        },
        Message::RemovePendingArmorModifier(i) => eff == ToolsEffect::Nothing && post == (if i
            < pre.pending_armor_modifiers.len() {
            ToolsGuiView {
                pending_armor_modifiers: pre.pending_armor_modifiers.remove(i as int),
                ..pre
            }
        } else {
            pre
        }),
        Message::ClearPendingArmorModifiers => eff == ToolsEffect::Nothing && post == (ToolsGuiView {
            pending_armor_modifiers: Seq::empty(),
            ..pre
        }),
        Message::CreateArmorModifier => opens(pre, post, eff, DbTask::CreateArmorModifier),
        Message::RemoveArmorModifierLink(id) => opens(
            pre,
            post,
            eff,
            DbTask::RemoveArmorModifierLink(id),
        ),
        Message::EditArmorModifier(id) => opens(pre, post, eff, DbTask::EditArmorModifier(id)),
        Message::SaveArmorModifierEdits => opens(pre, post, eff, DbTask::SaveArmorModifierEdits),
        Message::DeleteArmorModifier(id) => opens(pre, post, eff, DbTask::DeleteArmorModifier(id)),
        Message::UnitNameChanged(v) => post == (ToolsGuiView { unit_name: v@, ..pre }) && eff
            == ToolsEffect::Nothing,
        Message::UnitStrengthChanged(v) => post == (ToolsGuiView { unit_strength: v@, ..pre })
            && eff == ToolsEffect::Nothing,
        Message::UnitFocusChanged(v) => post == (ToolsGuiView { unit_focus: v@, ..pre }) && eff
            == ToolsEffect::Nothing,
        Message::UnitIntelligenceChanged(v) => post == (ToolsGuiView {
            unit_intelligence: v@,
            ..pre
        }) && eff == ToolsEffect::Nothing,
        Message::UnitAgilityChanged(v) => post == (ToolsGuiView { unit_agility: v@, ..pre })
            && eff == ToolsEffect::Nothing,
        Message::UnitKnowledgeChanged(v) => post == (ToolsGuiView { unit_knowledge: v@, ..pre })
            && eff == ToolsEffect::Nothing,
        Message::CreateUnit => opens(pre, post, eff, DbTask::CreateUnit),
        Message::ItemNameChanged(v) => post == (ToolsGuiView { item_name: v@, ..pre }) && eff
            == ToolsEffect::Nothing,
        Message::CreateItem => opens(pre, post, eff, DbTask::CreateItem),
        Message::LevelNameChanged(v) => post == (ToolsGuiView { level_name: v@, ..pre }) && eff
            == ToolsEffect::Nothing,
        Message::LevelTextChanged(v) => post == (ToolsGuiView { level_text: v@, ..pre }) && eff
            == ToolsEffect::Nothing,
        Message::CreateLevel => opens(pre, post, eff, DbTask::CreateLevel),
        Message::ActionNameChanged(v) => post == (ToolsGuiView { action_name: v@, ..pre }) && eff
            == ToolsEffect::Nothing,
        Message::ActionPointCostChanged(v) => post == (ToolsGuiView {
            action_point_cost: v@,
            ..pre
        }) && eff == ToolsEffect::Nothing,
        Message::ActionTypeChanged(v) => post == (ToolsGuiView { action_type: v@, ..pre }) && eff
            == ToolsEffect::Nothing,
        Message::ActionTextChanged(v) => post == (ToolsGuiView { action_text: v@, ..pre }) && eff
            == ToolsEffect::Nothing,
        Message::CreateAction => opens(pre, post, eff, DbTask::CreateAction),
        Message::UnitAssocActionNameChanged(v) => post == (ToolsGuiView {
            unit_assoc_action_name: v@,
            ..pre
        }) && eff == ToolsEffect::Nothing,
        Message::ItemAssocActionNameChanged(v) => post == (ToolsGuiView {
            item_assoc_action_name: v@,
            ..pre
        }) && eff == ToolsEffect::Nothing,
        Message::LevelAssocActionNameChanged(v) => post == (ToolsGuiView {
            level_assoc_action_name: v@,
            ..pre
        }) && eff == ToolsEffect::Nothing,
        Message::AddUnitAssociation => checks_view(
            pre,
            post,
            eff,
            editing_unit(pre),
            "Not currently editing a unit"@,
            DbTask::AddUnitAssociation,
        ),
        Message::RemoveUnitAssociation(a) => checks_view(
            pre,
            post,
            eff,
            editing_unit(pre),
            "Not currently editing a unit"@,
            DbTask::RemoveUnitAssociation(a),
        ),
        Message::AddItemAssociation => checks_view(
            pre,
            post,
            eff,
            editing_item(pre),
            "Not currently editing an item"@,
            DbTask::AddItemAssociation,
        ),
        Message::RemoveItemAssociation(a) => checks_view(
            pre,
            post,
            eff,
            editing_item(pre),
            "Not currently editing an item"@,
            DbTask::RemoveItemAssociation(a),
        ),
        Message::AddLevelAssociation => checks_view(
            pre,
            post,
            eff,
            editing_level(pre),
            "Not currently editing a level"@,
            DbTask::AddLevelAssociation,
        ),
        Message::RemoveLevelAssociation(a) => checks_view(
            pre,
            post,
            eff,
            editing_level(pre),
            "Not currently editing a level"@,
            DbTask::RemoveLevelAssociation(a),
        ),
        Message::CreateUnitAndMaybeAssociate => opens(
            pre,
            post,
            eff,
            DbTask::CreateUnitAndMaybeAssociate,
        ),
        Message::CreateItemAndMaybeAssociate => opens(
            pre,
            post,
            eff,
            DbTask::CreateItemAndMaybeAssociate,
        ),
        Message::CreateLevelAndMaybeAssociate => opens(
            pre,
            post,
            eff,
            DbTask::CreateLevelAndMaybeAssociate,
        ),
        Message::AttackDamageChanged(v) => post == (ToolsGuiView { attack_damage: v@, ..pre })
            && eff == ToolsEffect::Nothing,
        Message::AttackDamageTypeChanged(v) => post == (ToolsGuiView {
            attack_damage_type: v@,
            ..pre
        }) && eff == ToolsEffect::Nothing,
        Message::AttackSkillChanged(v) => post == (ToolsGuiView { attack_skill: v@, ..pre })
            && eff == ToolsEffect::Nothing,
        Message::AttackTargetChanged(v) => post == (ToolsGuiView { attack_target: v@, ..pre })
            && eff == ToolsEffect::Nothing,
        Message::AttackRangeChanged(v) => post == (ToolsGuiView { attack_range: v@, ..pre })
            && eff == ToolsEffect::Nothing,
        Message::SaveAttackEdits => opens(pre, post, eff, DbTask::SaveAttackEdits),
        Message::DeleteAttack => opens(pre, post, eff, DbTask::DeleteAttack),
        Message::InteractionRangeChanged(v) => post == (ToolsGuiView {
            interaction_range: v@,
            ..pre
        }) && eff == ToolsEffect::Nothing,
        Message::InteractionSkillChanged(v) => post == (ToolsGuiView {
            interaction_skill: v@,
            ..pre
        }) && eff == ToolsEffect::Nothing,
        Message::InteractionTargetChanged(v) => post == (ToolsGuiView {
            interaction_target: v@,
            ..pre
        }) && eff == ToolsEffect::Nothing,
        Message::SaveInteractionEdits => opens(pre, post, eff, DbTask::SaveInteractionEdits),
        Message::DeleteInteraction => opens(pre, post, eff, DbTask::DeleteInteraction),
        Message::EditUnit(n) => opens(pre, post, eff, DbTask::EditUnit(n)),
        Message::EditItem(n) => opens(pre, post, eff, DbTask::EditItem(n)),
        Message::EditLevel(n) => opens(pre, post, eff, DbTask::EditLevel(n)),
        Message::EditAction(n) => post == (ToolsGuiView { tab: Tab::Actions, ..pre }) && eff
            == ToolsEffect::OpenDb(DbTask::EditAction(n)),
        Message::CancelEdit => post == (ToolsGuiView { active_view: ActiveView::List, ..pre })
            && eff == ToolsEffect::Nothing,
        Message::SaveUnitEdits => checks_view(
            pre,
            post,
            eff,
            editing_unit(pre),
            "Not currently editing a unit"@,
            DbTask::SaveUnitEdits,
        ),
        Message::SaveItemEdits => checks_view(
            pre,
            post,
            eff,
            editing_item(pre),
            "Not currently editing an item"@,
            DbTask::SaveItemEdits,
        ),
        Message::SaveLevelEdits => checks_view(
            pre,
            post,
            eff,
            editing_level(pre),
            "Not currently editing a level"@,
            DbTask::SaveLevelEdits,
        ),
        Message::SaveActionEdits => checks_view(
            pre,
            post,
            eff,
            editing_action(pre),
            "Not currently editing an action"@,
            DbTask::SaveActionEdits,
        ),
        Message::DeleteUnit(n) => opens(pre, post, eff, DbTask::DeleteUnit(n)),
        Message::DeleteItem(n) => opens(pre, post, eff, DbTask::DeleteItem(n)),
        Message::DeleteLevel(n) => opens(pre, post, eff, DbTask::DeleteLevel(n)),
        Message::DeleteAction(n) => opens(pre, post, eff, DbTask::DeleteAction(n)),
        Message::ClearStatus => post == (ToolsGuiView { status: None, ..pre }) && eff
            == ToolsEffect::Nothing,
    }
}

/// The name, width and height the hex grid form holds, or why not.
pub open spec fn hex_grid_form_spec(v: ToolsGuiView) -> Result<(Seq<char>, i32, i32), Seq<char>> {
    if is_blank_spec(v.hex_grid_name) {
        Err("Hex grid name cannot be empty"@)
    } else {
        match parse_int_result(trim_spec(v.hex_grid_width), i32::MIN as int, i32::MAX as int) {
            Err(k) => Err("Invalid width: "@ + v.hex_grid_width + ": "@
                + crate::num::int_error_text(k)),
            Ok(w) => match parse_int_result(
                trim_spec(v.hex_grid_height),
                i32::MIN as int,
                i32::MAX as int,
            ) {
                Err(k) => Err("Invalid height: "@ + v.hex_grid_height + ": "@
                    + crate::num::int_error_text(k)),
                Ok(h) => if w <= 0 || h <= 0 {
                    Err("Width/height must be > 0"@)
                } else {
                    Ok((trim_spec(v.hex_grid_name), w as i32, h as i32))
                },
            },
        }
    }
}

/// Reads an `i32` typed into a form, as `str::parse::<i32>` on the
/// trimmed input does.
fn parse_i32_input(s: &str) -> (r: Result<i32, crate::num::IntErrorKind>)
    ensures
        match parse_int_result(trim_spec(s@), i32::MIN as int, i32::MAX as int) {
            Ok(v) => (r matches Ok(x) && x as int == v),
            Err(k) => r == Err::<i32, crate::num::IntErrorKind>(k),
        },
{
    match parse_int(trim(s), -2147483648, 2147483647) {
        Ok(v) => Ok(v as i32),
        Err(k) => Err(k),
    }
}

/// A positive grid dimension typed into a form, if the input is one.
fn parse_pos_dim(s: &str) -> (r: Option<i32>)
    ensures
        r == pos_dim(s@),
        r matches Some(v) ==> v > 0,
{
    match parse_i32_input(s) {
        Ok(v) => if v > 0 {
            Some(v)
        } else {
            None
        },
        Err(_) => None,
    }
}

/// The set of the coordinates of `s` inside a `width` x `height` grid.
fn within_set(s: &BTreeSet<(i32, i32)>, width: i32, height: i32) -> (r: BTreeSet<(i32, i32)>)
    requires
        width > 0,
        height > 0,
    ensures
        r@ == within(s@, width as int, height as int),
{
    let mut out: BTreeSet<(i32, i32)> = BTreeSet::new();
    let mut y: i32 = 0;
    while y < height
        invariant
            0 <= y <= height,
            width > 0,
            out@ == within(s@, width as int, y as int),
        decreases height - y,
    {
        let mut x: i32 = 0;
        while x < width
            invariant
                0 <= x <= width,
                0 <= y < height,
                width > 0,
                out@ == within(s@, width as int, y as int).union(
                    Set::new(|c: (i32, i32)| 0 <= c.0 < x && c.1 == y && s@.contains(c)),
                ),
            decreases width - x,
        {
            if s.contains(&(x, y)) {
                out.insert((x, y));
            }
            x = x + 1;
            assert(out@ =~= within(s@, width as int, y as int).union(
                Set::new(|c: (i32, i32)| 0 <= c.0 < x && c.1 == y && s@.contains(c)),
            ));
        }
        y = y + 1;
        assert(out@ =~= within(s@, width as int, y as int));
    }
    out
}

impl ToolsGui {
    /// Empties the selected tile's association buffers.
    pub fn clear_tile_buffers(&mut self)
        ensures
            final(self)@ == old(self)@.tile_buffers_cleared(),
    {
        self.hex_tile_unit_query = String::new();
        self.hex_tile_item_query = String::new();
        self.hex_tile_level_query = String::new();
        self.hex_tile_unit_id = None;
        self.hex_tile_item_id = None;
        self.hex_tile_level_id = None;
        self.hex_tile_unit_name = None;
        self.hex_tile_item_name = None;
        self.hex_tile_level_name = None;
        self.hex_tile_type = String::new();
    }

    /// Drops the tile selection and empties the tile buffers.
    pub fn clear_selection(&mut self)
        ensures
            final(self)@ == old(self)@.selection_cleared(),
    {
        self.hex_grid_selected_x = None;
        self.hex_grid_selected_y = None;
        self.clear_tile_buffers();
    }

    /// Reads the hex grid form: the trimmed name, the width and the height.
    pub fn hex_grid_form(&self) -> (r: Result<(String, i32, i32), crate::shared::DataError>)
        ensures
            match hex_grid_form_spec(self@) {
                Ok((n, w, h)) => r matches Ok((rn, rw, rh)) && rn@ == n && rw == w && rh == h,
                Err(m) => r matches Err(e) && crate::shared::is_error(
                    e,
                    crate::shared::ErrorKind::Invalid,
                    m,
                ),
            },
            r matches Ok((_, w, h)) ==> w > 0 && h > 0,
    {
        let name = trim(self.hex_grid_name.as_str());
        if name.is_empty() {
            return Err(crate::shared::DataError::invalid("Hex grid name cannot be empty"));
        }
        let width = match parse_i32_input(self.hex_grid_width.as_str()) {
            Ok(w) => w,
            Err(k) => {
                let head = crate::shared::concat3("Invalid width: ", self.hex_grid_width.as_str(), ": ");
                return Err(crate::shared::DataError::new(
                    crate::shared::ErrorKind::Invalid,
                    crate::shared::concat2(head.as_str(), crate::num::int_error_message(k)),
                ));
            },
        };
        let height = match parse_i32_input(self.hex_grid_height.as_str()) {
            Ok(h) => h,
            Err(k) => {
                let head = crate::shared::concat3("Invalid height: ", self.hex_grid_height.as_str(), ": ");
                return Err(crate::shared::DataError::new(
                    crate::shared::ErrorKind::Invalid,
                    crate::shared::concat2(head.as_str(), crate::num::int_error_message(k)),
                ));
            },
        };
        if width <= 0 || height <= 0 {
            return Err(crate::shared::DataError::invalid("Width/height must be > 0"));
        }
        Ok((name.to_owned(), width, height))
    }

    /// Whether some unit row is named `name`.
    fn find_unit_row(&self, name: &str) -> (r: bool)
        ensures
            r == has_unit_row(self@, name@),
    {
        let mut i: usize = 0;
        while i < self.units.len()
            invariant
                i <= self.units@.len(),
                forall|k: int| 0 <= k < i ==> #[trigger] self.units@[k].name@ != name@,
            decreases self.units@.len() - i,
        {
            if str_eq(self.units[i].name.as_str(), name) {
                proof {
                    assert(self@.units[i as int].name@ == name@);
                }
                return true;
            }
            i = i + 1;
        }
        false
    }

    /// Whether some item row is named `name`.
    #[verifier::spinoff_prover]
    fn find_item_row(&self, name: &str) -> (r: bool)
        ensures
            r == has_item_row(self@, name@),
    {
        let mut i: usize = 0;
        while i < self.items.len()
            invariant
                i <= self.items@.len(),
                forall|k: int| 0 <= k < i ==> #[trigger] self.items@[k].name@ != name@,
            decreases self.items@.len() - i,
        {
            if str_eq(self.items[i].name.as_str(), name) {
                proof {
                    assert(self@.items[i as int].name@ == name@);
                }
                return true;
            }
            i = i + 1;
        }
        false
    }

    /// Whether some level row is named `name`.
    fn find_level_row(&self, name: &str) -> (r: bool)
        ensures
            r == has_level_row(self@, name@),
    {
        let mut i: usize = 0;
        while i < self.levels.len()
            invariant
                i <= self.levels@.len(),
                forall|k: int| 0 <= k < i ==> #[trigger] self.levels@[k].name@ != name@,
            decreases self.levels@.len() - i,
        {
            if str_eq(self.levels[i].name.as_str(), name) {
                proof {
                    assert(self@.levels[i as int].name@ == name@);
                }
                return true;
            }
            i = i + 1;
        }
        false
    }

    /// "New hex grid": an unsaved grid of the typed size, every tile present.
    fn new_hex_grid(&mut self)
        ensures
            final(self)@ == new_grid_spec(old(self)@),
    {
        let width: i32 = match parse_i32_input(self.hex_grid_width.as_str()) {
            Ok(w) => if w < 1 {
                1
            } else {
                w
            },
            Err(_) => 9,
        };
        let height: i32 = match parse_i32_input(self.hex_grid_height.as_str()) {
            Ok(h) => if h < 1 {
                1
            } else {
                h
            },
            Err(_) => 9,
        };
        self.hex_grid_id = None;
        self.hex_grid_name = "New Hex Grid".to_owned();
        self.hex_grid_tiles_present = full_tile_set(width, height);
        self.hex_grid_tiles_with_data = BTreeSet::new();
        self.clear_selection();
    }

    /// "Apply resize": keeps the tiles that are still in bounds.
    fn apply_resize(&mut self)
        ensures
            final(self)@ == resize_spec(old(self)@),
    {
        let new_w = parse_pos_dim(self.hex_grid_width.as_str());
        let new_h = parse_pos_dim(self.hex_grid_height.as_str());
        match (new_w, new_h) {
            (Some(w), Some(h)) => {
                self.hex_grid_tiles_present = within_set(&self.hex_grid_tiles_present, w, h);
                self.hex_grid_tiles_with_data = within_set(&self.hex_grid_tiles_with_data, w, h);
                match (self.hex_grid_selected_x, self.hex_grid_selected_y) {
                    (Some(x), Some(y)) => {
                        if x < 0 || y < 0 || x >= w || y >= h {
                            self.hex_grid_selected_x = None;
                            self.hex_grid_selected_y = None;
                        }
                    },
                    _ => {},
                }
                self.hex_grid_width = i64_to_string(w as i64);
                self.hex_grid_height = i64_to_string(h as i64);
            },
            _ => {
                self.status = Some("Width/height must be positive integers".to_owned());
            },
        }
    }

    /// A right click on `(x, y)`: removes the tile there.
    fn clear_tile(&mut self, x: i32, y: i32)
        ensures
            final(self)@ == tile_clear_spec(old(self)@, x, y),
    {
        self.hex_grid_tiles_present.remove(&(x, y));
        self.hex_grid_tiles_with_data.remove(&(x, y));
        if self.hex_grid_selected_x == Some(x) && self.hex_grid_selected_y == Some(y) {
            self.clear_selection();
        }
    }
}

impl ToolsGui {
    /// Decides `message`: changes the editor's state and says what the host
    /// does next.
    #[verifier::rlimit(50)]
    pub fn update(&mut self, message: Message) -> (eff: ToolsEffect)
        ensures
            update_spec(old(self)@, message, final(self)@, eff),
    {
        match message {
            Message::Tick => ToolsEffect::Nothing,
            Message::SwitchTab(tab) => {
                self.tab = tab;
                self.active_view = ActiveView::List;
                if tab == Tab::HexGrids {
                    ToolsEffect::RefreshHexGrids
                } else {
                    ToolsEffect::Nothing
                }
            },
            Message::Refresh => ToolsEffect::EnsureDbReady,
            Message::StatModifierValueChanged(v) => {
                self.stat_modifier_value = v;
                ToolsEffect::Nothing
            },
            Message::StatModifierStatChanged(v) => {
                self.stat_modifier_stat = v;
                ToolsEffect::Nothing
            },
            Message::StatModifierOperatorChanged(v) => {
                self.stat_modifier_operator = v;
                ToolsEffect::Nothing
            },
            Message::AddPendingStatModifier => {
                match self.stat_modifier_from_form() {
                    Ok(sm) => self.pending_stat_modifiers.push(sm),
                    Err(e) => self.status = Some(e.text()),
                }
                ToolsEffect::Nothing
            },
            Message::RemovePendingStatModifier(idx) => {
                if idx < self.pending_stat_modifiers.len() {
                    self.pending_stat_modifiers.remove(idx);
                }
                ToolsEffect::Nothing
            },
            Message::ClearPendingStatModifiers => {
                self.pending_stat_modifiers.clear();
                ToolsEffect::Nothing
            },
            Message::CreateUnitStatModifier => {
                if matches!(self.active_view, ActiveView::EditUnit { .. }) {
                    ToolsEffect::OpenDb(DbTask::CreateUnitStatModifier)
                } else {
                    self.status = Some("not editing a unit".to_owned());
                    ToolsEffect::Nothing
                }
            },
            Message::CreateItemStatModifier => {
                if matches!(self.active_view, ActiveView::EditItem { .. }) {
                    ToolsEffect::OpenDb(DbTask::CreateItemStatModifier)
                } else {
                    self.status = Some("not editing an item".to_owned());
                    ToolsEffect::Nothing
                }
            },
            Message::CreateLevelStatModifier => {
                if matches!(self.active_view, ActiveView::EditLevel { .. }) {
                    ToolsEffect::OpenDb(DbTask::CreateLevelStatModifier)
                } else {
                    self.status = Some("not editing a level".to_owned());
                    ToolsEffect::Nothing
                }
            },
            Message::DeleteStatModifier(id) => ToolsEffect::OpenDb(DbTask::DeleteStatModifier(id)),
            Message::HexGridWidthChanged(v) => {
                self.hex_grid_width = v;
                ToolsEffect::Nothing
            },
            Message::HexGridHeightChanged(v) => {
                self.hex_grid_height = v;
                ToolsEffect::Nothing
            },
            Message::HexGridNameChanged(v) => {
                self.hex_grid_name = v;
                ToolsEffect::Nothing
            },
            Message::CreateNewHexGrid => {
                self.new_hex_grid();
                ToolsEffect::Nothing
            },
            Message::SaveHexGrid => match self.hex_grid_form() {
                Err(e) => {
                    self.status = Some(e.text());
                    ToolsEffect::Nothing
                },
                Ok(_) => ToolsEffect::OpenDb(DbTask::SaveHexGrid),
            },
            Message::RefreshHexGrids => ToolsEffect::OpenDb(DbTask::RefreshHexGrids),
            Message::LoadHexGridById(id) => ToolsEffect::OpenDb(DbTask::LoadHexGridById(id)),
            Message::DeleteHexGridById(id) => ToolsEffect::OpenDb(DbTask::DeleteHexGridById(id)),
            Message::HexGridApplyResize => {
                self.apply_resize();
                ToolsEffect::Nothing
            },
            Message::HexGridTileClicked(x, y) => {
                self.hex_grid_selected_x = Some(x);
                self.hex_grid_selected_y = Some(y);
                self.hex_grid_tiles_present.insert((x, y));
                match self.hex_grid_id {
                    Some(grid_id) => ToolsEffect::OpenDb(DbTask::LoadTile { grid_id, x, y }),
                    None => ToolsEffect::Nothing,
                }
            },
            Message::HexGridTileClear(x, y) => {
                self.clear_tile(x, y);
                ToolsEffect::Nothing
            },
            Message::HexTileUnitQueryChanged(v) => {
                let blank = is_blank(v.as_str());
                self.hex_tile_unit_query = v;
                if !blank {
                    self.hex_tile_item_query = String::new();
                    self.hex_tile_level_query = String::new();
                    self.hex_tile_type = String::new();
                    self.hex_tile_item_id = None;
                    self.hex_tile_level_id = None;
                    self.hex_tile_item_name = None;
                    self.hex_tile_level_name = None;
                }
                ToolsEffect::Nothing
            },
            Message::HexTileItemQueryChanged(v) => {
                let blank = is_blank(v.as_str());
                self.hex_tile_item_query = v;
                if !blank {
                    self.hex_tile_unit_query = String::new();
                    self.hex_tile_level_query = String::new();
                    self.hex_tile_type = String::new();
                    self.hex_tile_unit_id = None;
                    self.hex_tile_level_id = None;
                    self.hex_tile_unit_name = None;
                    self.hex_tile_level_name = None;
                }
                ToolsEffect::Nothing
            },
            Message::HexTileLevelQueryChanged(v) => {
                let blank = is_blank(v.as_str());
                self.hex_tile_level_query = v;
                if !blank {
                    self.hex_tile_unit_query = String::new();
                    self.hex_tile_item_query = String::new();
                    self.hex_tile_type = String::new();
                    self.hex_tile_unit_id = None;
                    self.hex_tile_item_id = None;
                    self.hex_tile_unit_name = None;
                    self.hex_tile_item_name = None;
                }
                ToolsEffect::Nothing
            },
            Message::HexTilePickUnitByName(name) => {
                if self.find_unit_row(name.as_str()) {
                    self.hex_tile_item_query = String::new();
                    self.hex_tile_level_query = String::new();
                    self.hex_tile_type = String::new();
                    self.hex_tile_item_id = None;
                    self.hex_tile_level_id = None;
                    self.hex_tile_item_name = None;
                    self.hex_tile_level_name = None;
                    self.hex_tile_unit_name = Some(name.clone());
                    self.hex_tile_unit_query = name;
                }
                ToolsEffect::Nothing
            },
            Message::HexTilePickItemByName(name) => {
                if self.find_item_row(name.as_str()) {
                    self.hex_tile_unit_query = String::new();
                    self.hex_tile_level_query = String::new();
                    self.hex_tile_type = String::new();
                    self.hex_tile_unit_id = None;
                    self.hex_tile_level_id = None;
                    self.hex_tile_unit_name = None;
                    self.hex_tile_level_name = None;
                    self.hex_tile_item_name = Some(name.clone());
                    self.hex_tile_item_query = name;
                }
                ToolsEffect::Nothing
            },
            Message::HexTilePickLevelByName(name) => {
                if self.find_level_row(name.as_str()) {
                    self.hex_tile_unit_query = String::new();
                    self.hex_tile_item_query = String::new();
                    self.hex_tile_type = String::new();
                    self.hex_tile_unit_id = None;
                    self.hex_tile_item_id = None;
                    self.hex_tile_unit_name = None;
                    self.hex_tile_item_name = None;
                    self.hex_tile_level_name = Some(name.clone());
                    self.hex_tile_level_query = name;
                }
                ToolsEffect::Nothing
            },
            Message::HexTileTypeChanged(v) => {
                let blank = is_blank(v.as_str());
                self.hex_tile_type = v;
                if !blank {
                    self.hex_tile_unit_query = String::new();
                    self.hex_tile_item_query = String::new();
                    self.hex_tile_level_query = String::new();
                    self.hex_tile_unit_id = None;
                    self.hex_tile_item_id = None;
                    self.hex_tile_level_id = None;
                    self.hex_tile_unit_name = None;
                    self.hex_tile_item_name = None;
                    self.hex_tile_level_name = None;
                }
                ToolsEffect::Nothing
            },
            Message::SaveHexTileAssociations => self.check_tile_save(),
            Message::ClearHexTileAssociations => {
                self.clear_tile_buffers();
                ToolsEffect::Nothing
            },
            Message::ArmorModifierValueChanged(v) => {
                self.armor_modifier_value = v;
                ToolsEffect::Nothing
            },
            Message::ArmorModifierSuitChanged(v) => {
                self.armor_modifier_suit = v;
                ToolsEffect::Nothing
            },
            Message::ArmorModifierDamageTypeChanged(v) => {
                self.armor_modifier_damage_type = v;
                ToolsEffect::Nothing
            },
            Message::AddPendingArmorModifier => {
                match self.armor_fields_from_form() {
                    Ok((value, suit, damage_type)) => {
                        self.pending_armor_modifiers.push(
                            ArmorModifier { card_id: 0, value, suit, damage_type },
                        );
                        self.status = Some("Armor modifier queued".to_owned());
                        self.armor_modifier_value = "0".to_owned();
                        self.armor_modifier_suit = "Spades".to_owned();
                        self.armor_modifier_damage_type = "Physical".to_owned();
                    },
                    Err(e) => self.status = Some(e.text()),
                }
                ToolsEffect::Nothing
            },
            Message::RemovePendingArmorModifier(idx) => {
                if idx < self.pending_armor_modifiers.len() {
                    self.pending_armor_modifiers.remove(idx);
                }
                ToolsEffect::Nothing
            },
            Message::ClearPendingArmorModifiers => {
                self.pending_armor_modifiers.clear();
                ToolsEffect::Nothing
            },
            Message::CreateArmorModifier => ToolsEffect::OpenDb(DbTask::CreateArmorModifier),
            Message::RemoveArmorModifierLink(id) => ToolsEffect::OpenDb(
                DbTask::RemoveArmorModifierLink(id),
            ),
            Message::EditArmorModifier(id) => ToolsEffect::OpenDb(DbTask::EditArmorModifier(id)),
            Message::SaveArmorModifierEdits => ToolsEffect::OpenDb(DbTask::SaveArmorModifierEdits),
            Message::DeleteArmorModifier(id) => ToolsEffect::OpenDb(DbTask::DeleteArmorModifier(id)),
            Message::UnitNameChanged(v) => {
                self.unit_name = v;
                ToolsEffect::Nothing
            },
            Message::UnitStrengthChanged(v) => {
                self.unit_strength = v;
                ToolsEffect::Nothing
            },
            Message::UnitFocusChanged(v) => {
                self.unit_focus = v;
                ToolsEffect::Nothing
            },
            Message::UnitIntelligenceChanged(v) => {
                self.unit_intelligence = v;
                ToolsEffect::Nothing
            },
            Message::UnitAgilityChanged(v) => {
                self.unit_agility = v;
                ToolsEffect::Nothing
            },
            Message::UnitKnowledgeChanged(v) => {
                self.unit_knowledge = v;
                ToolsEffect::Nothing
            },
            Message::CreateUnit => ToolsEffect::OpenDb(DbTask::CreateUnit),
            Message::ItemNameChanged(v) => {
                self.item_name = v;
                ToolsEffect::Nothing
            },
            Message::CreateItem => ToolsEffect::OpenDb(DbTask::CreateItem),
            Message::LevelNameChanged(v) => {
                self.level_name = v;
                ToolsEffect::Nothing
            },
            Message::LevelTextChanged(v) => {
                self.level_text = v;
                ToolsEffect::Nothing
            },
            Message::CreateLevel => ToolsEffect::OpenDb(DbTask::CreateLevel),
            Message::ActionNameChanged(v) => {
                self.action_name = v;
                ToolsEffect::Nothing
            },
            Message::ActionPointCostChanged(v) => {
                self.action_point_cost = v;
                ToolsEffect::Nothing
            },
            Message::ActionTypeChanged(v) => {
                self.action_type = v;
                ToolsEffect::Nothing
            },
            Message::ActionTextChanged(v) => {
                self.action_text = v;
                ToolsEffect::Nothing
            },
            Message::CreateAction => ToolsEffect::OpenDb(DbTask::CreateAction),
            Message::UnitAssocActionNameChanged(v) => {
                self.unit_assoc_action_name = v;
                ToolsEffect::Nothing
            },
            Message::ItemAssocActionNameChanged(v) => {
                self.item_assoc_action_name = v;
                ToolsEffect::Nothing
            },
            Message::LevelAssocActionNameChanged(v) => {
                self.level_assoc_action_name = v;
                ToolsEffect::Nothing
            },
            Message::AddUnitAssociation => self.check_view(
                matches!(self.active_view, ActiveView::EditUnit { .. }),
                "Not currently editing a unit",
                DbTask::AddUnitAssociation,
            ),
            Message::RemoveUnitAssociation(a) => self.check_view(
                matches!(self.active_view, ActiveView::EditUnit { .. }),
                "Not currently editing a unit",
                DbTask::RemoveUnitAssociation(a),
            ),
            Message::AddItemAssociation => self.check_view(
                matches!(self.active_view, ActiveView::EditItem { .. }),
                "Not currently editing an item",
                DbTask::AddItemAssociation,
            ),
            Message::RemoveItemAssociation(a) => self.check_view(
                matches!(self.active_view, ActiveView::EditItem { .. }),
                "Not currently editing an item",
                DbTask::RemoveItemAssociation(a),
            ),
            Message::AddLevelAssociation => self.check_view(
                matches!(self.active_view, ActiveView::EditLevel { .. }),
                "Not currently editing a level",
                DbTask::AddLevelAssociation,
            ),
            Message::RemoveLevelAssociation(a) => self.check_view(
                matches!(self.active_view, ActiveView::EditLevel { .. }),
                "Not currently editing a level",
                DbTask::RemoveLevelAssociation(a),
            ),
            Message::CreateUnitAndMaybeAssociate => ToolsEffect::OpenDb(
                DbTask::CreateUnitAndMaybeAssociate,
            ),
            Message::CreateItemAndMaybeAssociate => ToolsEffect::OpenDb(
                DbTask::CreateItemAndMaybeAssociate,
            ),
            Message::CreateLevelAndMaybeAssociate => ToolsEffect::OpenDb(
                DbTask::CreateLevelAndMaybeAssociate,
            ),
            Message::AttackDamageChanged(v) => {
                self.attack_damage = v;
                ToolsEffect::Nothing
            },
            Message::AttackDamageTypeChanged(v) => {
                self.attack_damage_type = v;
                ToolsEffect::Nothing
            },
            Message::AttackSkillChanged(v) => {
                self.attack_skill = v;
                ToolsEffect::Nothing
            },
            Message::AttackTargetChanged(v) => {
                self.attack_target = v;
                ToolsEffect::Nothing
            },
            Message::AttackRangeChanged(v) => {
                self.attack_range = v;
                ToolsEffect::Nothing
            },
            Message::SaveAttackEdits => ToolsEffect::OpenDb(DbTask::SaveAttackEdits),
            Message::DeleteAttack => ToolsEffect::OpenDb(DbTask::DeleteAttack),
            Message::InteractionRangeChanged(v) => {
                self.interaction_range = v;
                ToolsEffect::Nothing
            },
            Message::InteractionSkillChanged(v) => {
                self.interaction_skill = v;
                ToolsEffect::Nothing
            },
            Message::InteractionTargetChanged(v) => {
                self.interaction_target = v;
                ToolsEffect::Nothing
            },
            Message::SaveInteractionEdits => ToolsEffect::OpenDb(DbTask::SaveInteractionEdits),
            Message::DeleteInteraction => ToolsEffect::OpenDb(DbTask::DeleteInteraction),
            Message::EditUnit(n) => ToolsEffect::OpenDb(DbTask::EditUnit(n)),
            Message::EditItem(n) => ToolsEffect::OpenDb(DbTask::EditItem(n)),
            Message::EditLevel(n) => ToolsEffect::OpenDb(DbTask::EditLevel(n)),
            Message::EditAction(n) => {
                // Opening an action from another tab switches to the Actions tab.
                self.tab = Tab::Actions;
                ToolsEffect::OpenDb(DbTask::EditAction(n))
            },
            Message::CancelEdit => {
                self.active_view = ActiveView::List;
                ToolsEffect::Nothing
            },
            Message::SaveUnitEdits => self.check_view(
                matches!(self.active_view, ActiveView::EditUnit { .. }),
                "Not currently editing a unit",
                DbTask::SaveUnitEdits,
            ),
            Message::SaveItemEdits => self.check_view(
                matches!(self.active_view, ActiveView::EditItem { .. }),
                "Not currently editing an item",
                DbTask::SaveItemEdits,
            ),
            Message::SaveLevelEdits => self.check_view(
                matches!(self.active_view, ActiveView::EditLevel { .. }),
                "Not currently editing a level",
                DbTask::SaveLevelEdits,
            ),
            Message::SaveActionEdits => self.check_view(
                matches!(self.active_view, ActiveView::EditAction { .. }),
                "Not currently editing an action",
                DbTask::SaveActionEdits,
            ),
            Message::DeleteUnit(n) => ToolsEffect::OpenDb(DbTask::DeleteUnit(n)),
            Message::DeleteItem(n) => ToolsEffect::OpenDb(DbTask::DeleteItem(n)),
            Message::DeleteLevel(n) => ToolsEffect::OpenDb(DbTask::DeleteLevel(n)),
            Message::DeleteAction(n) => ToolsEffect::OpenDb(DbTask::DeleteAction(n)),
            Message::ClearStatus => {
                self.status = None;
                ToolsEffect::Nothing
            },
        }
    }

    /// Asks for the database when `ok`, and otherwise shows `msg`.
    fn check_view(&mut self, ok: bool, msg: &str, t: DbTask) -> (eff: ToolsEffect)
        ensures
            checks_view(old(self)@, final(self)@, eff, ok, msg@, t),
    {
        if ok {
            ToolsEffect::OpenDb(t)
        } else {
            self.status = Some(msg.to_owned());
            ToolsEffect::Nothing
        }
    }

    /// The checks of "save tile associations" made before the database is
    /// opened.
    fn check_tile_save(&mut self) -> (eff: ToolsEffect)
        ensures
            save_tile_spec(old(self)@, final(self)@, eff),
    {
        if self.hex_grid_id.is_none() {
            self.status = Some("Save the hex grid first (no grid id yet)".to_owned());
            return ToolsEffect::Nothing;
        }
        let (x, y) = match (self.hex_grid_selected_x, self.hex_grid_selected_y) {
            (Some(x), Some(y)) => (x, y),
            _ => {
                self.status = Some("Select a tile first".to_owned());
                return ToolsEffect::Nothing;
            },
        };
        self.hex_grid_tiles_present.insert((x, y));
        if self.tile_inputs_chosen() > 1 {
            self.status = Some(
                "Choose only ONE association: Unit OR Level OR Item OR Type (clear the others first)".to_owned(),
            );
            return ToolsEffect::Nothing;
        }
        ToolsEffect::OpenDb(DbTask::SaveTileAssociations)
    }

    /// How many of the four tile association inputs are filled in.
    pub fn tile_inputs_chosen(&self) -> (r: u8)
        ensures
            r == chosen_count(self@),
    {
        let mut n: u8 = 0;
        if !is_blank(self.hex_tile_unit_query.as_str()) {
            n = n + 1;
        }
        if !is_blank(self.hex_tile_item_query.as_str()) {
            n = n + 1;
        }
        if !is_blank(self.hex_tile_level_query.as_str()) {
            n = n + 1;
        }
        if !is_blank(self.hex_tile_type.as_str()) {
            n = n + 1;
        }
        n
    }
}

} // verus!
