//! The editor's database work on stat and armor modifiers, and the
//! refresh of its lists.

use vstd::prelude::*;
use crate::cards::armor_modifier::{self, damage_type_text, suit_text, ArmorModifier};
use crate::cards::stat_modifier;
use crate::num::{decimal_spec, i64_to_string};
use crate::cards::action::{card_id_statement, is_link_column};
use crate::db::{fetch_first, read_i64};
use crate::shared::{error_text, concat2, concat3, DataError, ErrorKind};
use crate::tools::gui::effects::ToolsEffect;
use crate::tools::gui::forms::{armor_form_spec, stat_form_spec};
use crate::tools::gui::lists::{
    list_actions, list_armor_modifiers, list_items, list_levels, list_stat_modifiers,
    list_units,
};
use crate::tools::gui::state::{ToolsGui, ToolsGuiView};
use crate::tools::gui::tasks::{conn_error, conn_outcome, db_context, opened, outcome, status_only};
use crate::tools::gui::types::ActiveView;
use crate::tools::gui::update::{editing_item, editing_level, editing_unit};

verus! {

/// Which card the editor shows, for a new stat modifier.
pub enum StatTarget {
    Unit,
    Item,
    Level,
}

pub open spec fn stat_target_ok(pre: ToolsGuiView, t: StatTarget) -> bool {
    match t {
        StatTarget::Unit => editing_unit(pre),
        StatTarget::Item => editing_item(pre),
        StatTarget::Level => editing_level(pre),
    }
}

pub open spec fn stat_target_msg(t: StatTarget) -> Seq<char> {
    match t {
        StatTarget::Unit => "not editing a unit"@,
        StatTarget::Item => "not editing an item"@,
        StatTarget::Level => "not editing a level"@,
    }
}

/// After "create a stat modifier for the card being edited".
pub open spec fn stat_task_spec(
    pre: ToolsGuiView,
    t: StatTarget,
    conn_err: Option<Seq<char>>,
    post: ToolsGuiView,
    eff: ToolsEffect,
) -> bool {
    if !stat_target_ok(pre, t) {
        post == pre.with_status(stat_target_msg(t)) && eff == ToolsEffect::Nothing
    } else {
        match conn_err {
            Some(s) => post == pre.with_status(s) && eff == ToolsEffect::Nothing,
            None => match stat_form_spec(pre) {
                Err(m) => post == pre.with_status(m) && eff == ToolsEffect::Nothing,
                Ok(_) => outcome(pre, post, eff, pre, ToolsEffect::Refresh, ToolsEffect::Nothing),
            },
        }
    }
}

/// After "create an armor modifier for the card being edited".
pub open spec fn armor_task_spec(
    pre: ToolsGuiView,
    conn_err: Option<Seq<char>>,
    post: ToolsGuiView,
    eff: ToolsEffect,
) -> bool {
    &&& eff == ToolsEffect::Refresh
    &&& match conn_err {
        Some(s) => post == pre.with_status(s),
        None => match armor_form_spec(pre) {
            Err(m) => post == pre.with_status(m),
            Ok(_) => if !(editing_item(pre) || editing_level(pre)) {
                post == pre.with_status(
                    "From create-card views, queue armor modifiers with 'AddPendingArmorModifier' and they will be saved when the card is created"@,
                )
            } else {
                status_only(pre, post) || post == pre.armor_form_reset().with_status(
                    "Armor modifier created"@,
                )
            },
        },
    }
}

/// After "save armor modifier edits".
pub open spec fn armor_edit_task_spec(
    pre: ToolsGuiView,
    conn_err: Option<Seq<char>>,
    post: ToolsGuiView,
    eff: ToolsEffect,
) -> bool {
    match conn_err {
        Some(s) => post == pre.with_status(s) && eff == ToolsEffect::Nothing,
        None => if !(pre.active_view is EditArmorModifier) {
            post == pre.with_status("Not currently editing an armor modifier"@) && eff
                == ToolsEffect::Nothing
        } else {
            match armor_form_spec(pre) {
                Err(m) => post == pre.with_status(m) && eff == ToolsEffect::Nothing,
                Ok(_) => outcome(
                    pre,
                    post,
                    eff,
                    (ToolsGuiView { active_view: ActiveView::List, ..pre }).with_status(
                        "Armor modifier updated"@,
                    ),
                    ToolsEffect::Refresh,
                    ToolsEffect::Nothing,
                ),
            }
        },
    }
}

/// After "edit armor modifier `id`": the failure, or its value, suit and
/// damage type in the draft row and its editor shown.
pub open spec fn armor_begin_edit_spec(
    pre: ToolsGuiView,
    id: i64,
    conn_err: Option<Seq<char>>,
    post: ToolsGuiView,
) -> bool {
    match conn_err {
        Some(s) => post == pre.with_status(s),
        None => status_only(pre, post) || exists|v: i64, s: armor_modifier::Suit, d: armor_modifier::DamageType|
            #![trigger decimal_spec(v as int), suit_text(s), damage_type_text(d)]
            post == (ToolsGuiView {
                armor_modifier_value: decimal_spec(v as int),
                armor_modifier_suit: suit_text(s),
                armor_modifier_damage_type: damage_type_text(d),
                active_view: ActiveView::EditArmorModifier { id },
                ..pre
            }),
    }
}

/// After reloading the lists: the lists replaced, and the status line
/// showing a failure if one stopped the reload part way.
pub open spec fn refresh_task_spec(
    pre: ToolsGuiView,
    conn_err: Option<Seq<char>>,
    post: ToolsGuiView,
) -> bool {
    match conn_err {
        Some(s) => post == pre.with_status(s),
        None => {
            &&& post == (ToolsGuiView {
                units: post.units,
                items: post.items,
                levels: post.levels,
                actions: post.actions,
                armor_modifiers: post.armor_modifiers,
                stat_modifiers: post.stat_modifiers,
                status: post.status,
                ..pre
            })
            &&& (post.status == pre.status || post.status is Some)
        },
    }
}

/// `"<head><id><tail>"`.
fn id_message(head: &str, id: i64, tail: &str) -> (r: String)
    ensures
        r@ == head@ + decimal_spec(id as int) + tail@,
{
    let ids = i64_to_string(id);
    concat3(head, ids.as_str(), tail)
}

/// The id of the card, by `name`, that link column `fk_col` refers to (the
/// query of `card_id_statement`); no row is an error with the context
/// `"<what> `<name>`"`.
fn lookup_card_id(conn: &rusqlite::Connection, fk_col: &str, what: &str, name: &str) -> (r: Result<
    i64,
    DataError,
>)
    requires
        is_link_column(fk_col@),
    ensures
        r matches Err(e) ==> e.kind == ErrorKind::Db,
{
    let st = card_id_statement(fk_col, name);
    let head = concat3(what, " `", name);
    let ctx = concat2(head.as_str(), "`");
    match fetch_first(conn, &st, 1) {
        Ok(Some(row)) => match read_i64(&row[0]) {
            Some(id) => Ok(id),
            None => Err(crate::db::bad_row("id")),
        },
        Ok(None) => Err(
            DataError::new(ErrorKind::Db, concat2(ctx.as_str(), ": Query returned no rows")),
        ),
        Err(e) => Err(db_context(ctx.as_str(), e)),
    }
}

impl ToolsGui {
    /// Creates a stat modifier from the draft row and links it to the card
    /// being edited.
    pub fn task_create_stat_modifier(&mut self, t: StatTarget, conn: Result<rusqlite::Connection, String>) -> (eff:
        ToolsEffect)
        ensures
            stat_task_spec(old(self)@, t, conn_error(conn), final(self)@, eff),
    {
        let original_name = match (&t, &self.active_view) {
            (StatTarget::Unit, ActiveView::EditUnit { original_name }) => original_name.clone(),
            (StatTarget::Item, ActiveView::EditItem { original_name }) => original_name.clone(),
            (StatTarget::Level, ActiveView::EditLevel { original_name }) => original_name.clone(),
            _ => {
                let msg = match t {
                    StatTarget::Unit => "not editing a unit",
                    StatTarget::Item => "not editing an item",
                    StatTarget::Level => "not editing a level",
                };
                self.status = Some(msg.to_owned());
                return ToolsEffect::Nothing;
            },
        };
        let mut conn = match opened(conn) {
            Ok(c) => c,
            Err(e) => {
                self.status = Some(e.text());
                return ToolsEffect::Nothing;
            },
        };
        let sm = match self.stat_modifier_from_form() {
            Ok(sm) => sm,
            Err(e) => {
                self.status = Some(e.text());
                return ToolsEffect::Nothing;
            },
        };
        let r = match t {
            StatTarget::Unit => stat_modifier::create_and_link_to_unit_by_name(
                &mut conn,
                &sm,
                original_name.as_str(),
            ),
            StatTarget::Item => stat_modifier::create_and_link_to_item_by_name(
                &mut conn,
                &sm,
                original_name.as_str(),
            ),
            StatTarget::Level => stat_modifier::create_and_link_to_level_by_name(
                &mut conn,
                &sm,
                original_name.as_str(),
            ),
        };
        match r {
            Ok(_) => ToolsEffect::Refresh,
            Err(e) => {
                self.status = Some(e.text());
                ToolsEffect::Nothing
            },
        }
    }

    /// Deletes stat modifier `id`.
    pub fn task_delete_stat_modifier(&mut self, id: i64, conn: Result<rusqlite::Connection, String>) -> (eff:
        ToolsEffect)
        ensures
            conn_outcome(
                old(self)@,
                conn_error(conn),
                final(self)@,
                eff,
                old(self)@,
                ToolsEffect::Refresh,
                ToolsEffect::Nothing,
            ),
    {
        let conn = match opened(conn) {
            Ok(c) => c,
            Err(e) => {
                self.status = Some(e.text());
                return ToolsEffect::Nothing;
            },
        };
        match stat_modifier::delete_by_id(&conn, id) {
            Ok(()) => ToolsEffect::Refresh,
            Err(e) => {
                self.status = Some(e.text());
                ToolsEffect::Nothing
            },
        }
    }

    /// Creates an armor modifier from the draft row for the item or level
    /// being edited (its card id is that card's id) and links it to it.
    pub fn task_create_armor_modifier(&mut self, conn: Result<rusqlite::Connection, String>) -> (eff:
        ToolsEffect)
        ensures
            armor_task_spec(old(self)@, conn_error(conn), final(self)@, eff),
    {
        let r = self.create_armor_modifier_from_form(conn);
        match r {
            Err(e) => self.status = Some(e.text()),
            Ok(()) => {
                self.status = Some("Armor modifier created".to_owned());
                self.armor_modifier_value = "0".to_owned();
                self.armor_modifier_suit = "Spades".to_owned();
                self.armor_modifier_damage_type = "Physical".to_owned();
            },
        }
        ToolsEffect::Refresh
    }

    fn create_armor_modifier_from_form(&self, conn: Result<rusqlite::Connection, String>) -> (r: Result<
        (),
        DataError,
    >)
        ensures
            match conn_error(conn) {
                Some(s) => r matches Err(e) && error_text(e) == s,
                None => match armor_form_spec(self@) {
                    Err(m) => r matches Err(e) && error_text(e) == m,
                    Ok(_) => !(editing_item(self@) || editing_level(self@)) ==> (r matches Err(e)
                        && error_text(e)
                        == "From create-card views, queue armor modifiers with 'AddPendingArmorModifier' and they will be saved when the card is created"@),
                },
            },
    {
        let mut conn = opened(conn)?;
        let (value, suit, damage_type) = self.armor_fields_from_form()?;
        match &self.active_view {
            ActiveView::EditItem { original_name } => {
                let item_id = lookup_card_id(
                    &conn,
                    "item_id",
                    "Lookup item id for",
                    original_name.as_str(),
                )?;
                let armor = ArmorModifier { card_id: item_id, value, suit, damage_type };
                armor_modifier::create_and_link_to_item_by_name(&mut conn, &armor, original_name.as_str())?;
                Ok(())
            },
            ActiveView::EditLevel { original_name } => {
                let level_id = lookup_card_id(
                    &conn,
                    "level_id",
                    "Lookup level id for",
                    original_name.as_str(),
                )?;
                let armor = ArmorModifier { card_id: level_id, value, suit, damage_type };
                armor_modifier::create_and_link_to_level_by_name(&mut conn, &armor, original_name.as_str())?;
                Ok(())
            },
            _ => Err(
                DataError::invalid(
                    "From create-card views, queue armor modifiers with 'AddPendingArmorModifier' and they will be saved when the card is created",
                ),
            ),
        }
    }

    /// Unlinks armor modifier `id` from its item or level.
    pub fn task_remove_armor_modifier_link(&mut self, id: i64, conn: Result<rusqlite::Connection, String>) -> (eff:
        ToolsEffect)
        ensures
            conn_outcome(
                old(self)@,
                conn_error(conn),
                final(self)@,
                eff,
                old(self)@.with_status(
                    "Removed armor modifier link (id="@ + decimal_spec(id as int) + ")"@,
                ),
                ToolsEffect::Refresh,
                ToolsEffect::Nothing,
            ),
    {
        let conn = match opened(conn) {
            Ok(c) => c,
            Err(e) => {
                self.status = Some(e.text());
                return ToolsEffect::Nothing;
            },
        };
        match armor_modifier::clear_association(&conn, id) {
            Ok(()) => {
                self.status = Some(id_message("Removed armor modifier link (id=", id, ")"));
                ToolsEffect::Refresh
            },
            Err(e) => {
                self.status = Some(e.text());
                ToolsEffect::Nothing
            },
        }
    }

    /// Loads armor modifier `id` into the draft row and shows its editor.
    pub fn task_edit_armor_modifier(&mut self, id: i64, conn: Result<rusqlite::Connection, String>)
        ensures
            armor_begin_edit_spec(old(self)@, id, conn_error(conn), final(self)@),
    {
        let conn = match opened(conn) {
            Ok(c) => c,
            Err(e) => {
                self.status = Some(e.text());
                return;
            },
        };
        match armor_modifier::get_by_id(&conn, id) {
            Err(e) => self.status = Some(e.text()),
            Ok(None) => self.status = Some(id_message("Armor modifier not found (id=", id, ")")),
            Ok(Some(row)) => {
                self.armor_modifier_value = i64_to_string(row.value);
                self.armor_modifier_suit = row.suit.as_str().to_owned();
                self.armor_modifier_damage_type = row.damage_type.as_str().to_owned();
                self.active_view = ActiveView::EditArmorModifier { id };
                proof {
                    assert(self@ == (ToolsGuiView {
                        armor_modifier_value: decimal_spec(row.value as int),
                        armor_modifier_suit: suit_text(row.suit),
                        armor_modifier_damage_type: damage_type_text(row.damage_type),
                        active_view: ActiveView::EditArmorModifier { id },
                        ..old(self)@
                    }));
                }
            },
        }
    }

    /// Saves the draft row over the armor modifier being edited, keeping its
    /// card id.
    pub fn task_save_armor_modifier_edits(&mut self, conn: Result<rusqlite::Connection, String>) -> (eff:
        ToolsEffect)
        ensures
            armor_edit_task_spec(old(self)@, conn_error(conn), final(self)@, eff),
    {
        let conn = match opened(conn) {
            Ok(c) => c,
            Err(e) => {
                self.status = Some(e.text());
                return ToolsEffect::Nothing;
            },
        };
        let id = match &self.active_view {
            ActiveView::EditArmorModifier { id } => *id,
            _ => {
                self.status = Some("Not currently editing an armor modifier".to_owned());
                return ToolsEffect::Nothing;
            },
        };
        let (value, suit, damage_type) = match self.armor_fields_from_form() {
            Ok(f) => f,
            Err(e) => {
                self.status = Some(e.text());
                return ToolsEffect::Nothing;
            },
        };
        let existing = match armor_modifier::get_by_id(&conn, id) {
            Ok(Some(row)) => row,
            Ok(None) => {
                self.status = Some(id_message("Armor modifier not found (id=", id, ")"));
                return ToolsEffect::Nothing;
            },
            Err(e) => {
                self.status = Some(e.text());
                return ToolsEffect::Nothing;
            },
        };
        let armor = ArmorModifier { card_id: existing.card_id, value, suit, damage_type };
        match armor_modifier::update_by_id(&conn, id, &armor) {
            Ok(()) => {
                self.status = Some("Armor modifier updated".to_owned());
                self.active_view = ActiveView::List;
                ToolsEffect::Refresh
            },
            Err(e) => {
                self.status = Some(e.text());
                ToolsEffect::Nothing
            },
        }
    }

    /// Deletes armor modifier `id`.
    pub fn task_delete_armor_modifier(&mut self, id: i64, conn: Result<rusqlite::Connection, String>) -> (eff:
        ToolsEffect)
        ensures
            conn_outcome(
                old(self)@,
                conn_error(conn),
                final(self)@,
                eff,
                old(self)@.with_status("Deleted armor modifier id="@ + decimal_spec(id as int) + ""@),
                ToolsEffect::Refresh,
                ToolsEffect::Refresh,
            ),
    {
        let conn = match opened(conn) {
            Ok(c) => c,
            Err(e) => {
                self.status = Some(e.text());
                return ToolsEffect::Refresh;
            },
        };
        match armor_modifier::delete_by_id(&conn, id) {
            Ok(()) => self.status = Some(id_message("Deleted armor modifier id=", id, "")),
            Err(e) => self.status = Some(e.text()),
        }
        ToolsEffect::Refresh
    }

    /// Reloads every list the editor shows, in turn; a failure stops the
    /// reload and is shown.
    pub fn task_refresh_lists(&mut self, conn: Result<rusqlite::Connection, String>)
        ensures
            refresh_task_spec(old(self)@, conn_error(conn), final(self)@),
    {
        let conn = match opened(conn) {
            Ok(c) => c,
            Err(e) => {
                self.status = Some(e.text());
                return;
            },
        };
        match list_units(&conn) {
            Ok(v) => self.units = v,
            Err(e) => {
                self.status = Some(e.text());
                return;
            },
        }
        match list_items(&conn) {
            Ok(v) => self.items = v,
            Err(e) => {
                self.status = Some(e.text());
                return;
            },
        }
        match list_levels(&conn) {
            Ok(v) => self.levels = v,
            Err(e) => {
                self.status = Some(e.text());
                return;
            },
        }
        match list_actions(&conn) {
            Ok(v) => self.actions = v,
            Err(e) => {
                self.status = Some(e.text());
                return;
            },
        }
        match list_armor_modifiers(&conn) {
            Ok(v) => self.armor_modifiers = v,
            Err(e) => {
                self.status = Some(e.text());
                return;
            },
        }
        match list_stat_modifiers(&conn) {
            Ok(v) => self.stat_modifiers = v,
            Err(e) => {
                self.status = Some(e.text());
                return;
            },
        }
    }
}

} // verus!
