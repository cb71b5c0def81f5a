//! The editor's database work on actions and their attack or interaction.

use vstd::prelude::*;
use crate::cards::action::{self, Action, ActionType};
use crate::cards::attack::{self, Attack};
use crate::cards::interaction::{self, Interaction};
use crate::num::i64_to_string;
use crate::shared::{error_text, concat3, is_error, non_empty_msg, DataError, ErrorKind};
use crate::text::{is_blank_spec, trim, trim_spec};
use crate::tools::gui::effects::ToolsEffect;
use crate::tools::gui::forms::{action_core_spec, attack_form_spec, interaction_form_spec};
use crate::tools::gui::state::{ToolsGui, ToolsGuiView};
use crate::tools::gui::tasks::{conn_error, conn_outcome, opened, outcome, status_only};
use crate::tools::gui::types::ActiveView;
use crate::tools::gui::update::editing_action;

verus! {

/// The problem of the action the create form describes (name and text
/// trimmed, point cost `cost`), as `save_card` reports it.
pub open spec fn new_action_problem(v: ToolsGuiView, cost: i64) -> Option<Seq<char>> {
    if is_blank_spec(trim_spec(v.action_name)) {
        Some(non_empty_msg("Action.name"@))
    } else if is_blank_spec(trim_spec(v.action_text)) {
        Some(non_empty_msg("Action.text"@))
    } else if cost < 0 {
        Some("Action.action_point_cost must be >= 0"@)
    } else {
        None
    }
}

/// The error of the attack or interaction form for an action of type `t`,
/// if any.
pub open spec fn subtype_form_error(v: ToolsGuiView, t: ActionType) -> Option<Seq<char>> {
    match t {
        ActionType::Attack => match attack_form_spec(v) {
            Err(m) => Some(m),
            Ok(_) => None,
        },
        ActionType::Interaction => match interaction_form_spec(v) {
            Err(m) => Some(m),
            Ok(_) => None,
        },
    }
}

/// After "create action": the failure to open, a problem with the point
/// cost or type, any other failure, or the name and text emptied.
pub open spec fn create_action_spec(
    pre: ToolsGuiView,
    conn_err: Option<Seq<char>>,
    post: ToolsGuiView,
    eff: ToolsEffect,
) -> bool {
    &&& eff == ToolsEffect::Refresh
    &&& match conn_err {
        Some(s) => post == pre.with_status(s),
        None => match action_core_spec(pre) {
            Err(m) => post == pre.with_status(m),
            Ok(_) => status_only(pre, post) || post == (ToolsGuiView {
                action_name: Seq::empty(),
                action_text: Seq::empty(),
                ..pre
            }).with_status("Action created"@),
        },
    }
}

/// After "edit action": only the action, attack and interaction buffers,
/// the view and the status change; either the status shows a failure and
/// the view is unchanged, or the action's editor is shown for the loaded
/// name.
pub open spec fn edit_action_spec(pre: ToolsGuiView, conn_err: Option<Seq<char>>, post: ToolsGuiView) -> bool {
    match conn_err {
        Some(s) => post == pre.with_status(s),
        None => {
            &&& post == (ToolsGuiView {
                action_name: post.action_name,
                action_point_cost: post.action_point_cost,
                action_type: post.action_type,
                action_text: post.action_text,
                attack_damage: post.attack_damage,
                attack_damage_type: post.attack_damage_type,
                attack_skill: post.attack_skill,
                attack_target: post.attack_target,
                attack_range: post.attack_range,
                interaction_range: post.interaction_range,
                interaction_skill: post.interaction_skill,
                interaction_target: post.interaction_target,
                active_view: post.active_view,
                status: post.status,
                ..pre
            })
            &&& {
                ||| (post.status is Some && post.active_view == pre.active_view)
                ||| (post.status == pre.status && (post.active_view matches ActiveView::EditAction {
                    original_name,
                } && original_name@ == post.action_name))
            }
        },
    }
}

/// After "save action edits".
pub open spec fn save_action_spec(
    pre: ToolsGuiView,
    conn_err: Option<Seq<char>>,
    post: ToolsGuiView,
    eff: ToolsEffect,
) -> bool {
    if !editing_action(pre) {
        post == pre.with_status("Not currently editing an action"@) && eff == ToolsEffect::Nothing
    } else {
        match conn_err {
            Some(s) => post == pre.with_status(s) && eff == ToolsEffect::Nothing,
            None => if is_blank_spec(pre.action_name) {
                post == pre.with_status("Action.name must be non-empty"@) && eff
                    == ToolsEffect::Nothing
            } else {
                match action_core_spec(pre) {
                    Err(m) => post == pre.with_status(m) && eff == ToolsEffect::Nothing,
                    Ok(_) => if is_blank_spec(pre.action_text) {
                        post == pre.with_status("Action.text must be non-empty"@) && eff
                            == ToolsEffect::Nothing
                    } else {
                        outcome(
                            pre,
                            post,
                            eff,
                            (ToolsGuiView { active_view: ActiveView::List, ..pre }).with_status(
                                "Action updated"@,
                            ),
                            ToolsEffect::Refresh,
                            ToolsEffect::Nothing,
                        )
                    },
                }
            },
        }
    }
}

/// Why the attack or interaction of the edited action cannot be changed, if
/// it cannot.
pub open spec fn subform_problem(pre: ToolsGuiView) -> Option<Seq<char>> {
    if !editing_action(pre) {
        Some("Attack/Interaction edits are only available while editing an action"@)
    } else if is_blank_spec(pre.action_name) {
        Some("Action.name must be non-empty to edit Attack/Interaction"@)
    } else {
        None
    }
}

/// After "save attack edits" (`attack`) or "save interaction edits".
pub open spec fn save_subform_spec(
    pre: ToolsGuiView,
    is_attack: bool,
    conn_err: Option<Seq<char>>,
    post: ToolsGuiView,
    eff: ToolsEffect,
) -> bool {
    match conn_err {
        Some(s) => post == pre.with_status(s) && eff == ToolsEffect::Nothing,
        None => match subform_problem(pre) {
            Some(m) => post == pre.with_status(m) && eff == ToolsEffect::Nothing,
            None => {
                let form_err = if is_attack {
                    attack_form_spec(pre) is Err
                } else {
                    interaction_form_spec(pre) is Err
                };
                let form_msg = if is_attack {
                    attack_form_spec(pre)->Err_0
                } else {
                    interaction_form_spec(pre)->Err_0
                };
                if form_err {
                    post == pre.with_status(form_msg) && eff == ToolsEffect::Nothing
                } else {
                    outcome(
                        pre,
                        post,
                        eff,
                        pre.with_status(
                            if is_attack {
                                "Attack saved"@
                            } else {
                                "Interaction saved"@
                            },
                        ),
                        ToolsEffect::Refresh,
                        ToolsEffect::Nothing,
                    )
                }
            },
        },
    }
}

/// After "delete attack" (`is_attack`) or "delete interaction".
pub open spec fn delete_subform_spec(
    pre: ToolsGuiView,
    is_attack: bool,
    conn_err: Option<Seq<char>>,
    post: ToolsGuiView,
    eff: ToolsEffect,
) -> bool {
    &&& eff == ToolsEffect::Refresh
    &&& match conn_err {
        Some(s) => post == pre.with_status(s),
        None => match subform_problem(pre) {
            Some(m) => post == pre.with_status(m),
            None => status_only(pre, post) || post == pre.with_status(
                if is_attack {
                    "Attack deleted"@
                } else {
                    "Interaction deleted"@
                },
            ),
        },
    }
}

impl ToolsGui {
    /// Creates an action from the form and then its attack or interaction,
    /// as its type says.
    pub fn task_create_action(&mut self, conn: Result<rusqlite::Connection, String>) -> (eff: ToolsEffect)
        ensures
            create_action_spec(old(self)@, conn_error(conn), final(self)@, eff),
    {
        match self.create_action_with_subtype_from_form(conn) {
            Err(e) => self.status = Some(e.text()),
            Ok(()) => {
                self.status = Some("Action created".to_owned());
                self.action_name = String::new();
                self.action_text = String::new();
            },
        }
        ToolsEffect::Refresh
    }

    fn create_action_with_subtype_from_form(&self, conn: Result<rusqlite::Connection, String>) -> (r:
        Result<(), DataError>)
        ensures
            match conn_error(conn) {
                Some(s) => r matches Err(e) && error_text(e) == s,
                None => match action_core_spec(self@) {
                    Err(m) => r matches Err(e) && error_text(e) == m,
                    Ok((cost, t)) => {
                        &&& new_action_problem(self@, cost) matches Some(m) ==> (r matches Err(e)
                            && is_error(e, ErrorKind::Invalid, m))
                        &&& new_action_problem(self@, cost) is None ==> (subtype_form_error(self@, t)
                            matches Some(m) ==> (r matches Err(e) && (is_error(e, ErrorKind::Invalid, m)
                            || e.kind == ErrorKind::Db)))
                        &&& r matches Err(e) ==> (e.kind == ErrorKind::Db || e.kind == ErrorKind::Invalid
                            || e.kind == ErrorKind::NotFound)
                    },
                },
            },
    {
        let conn = opened(conn)?;
        let a = self.action_from_form()?;
        let action_name = a.name.clone();
        let action_type = a.action_type;
        action::save_card(&conn, &a)?;
        assert(action::action_problem(a) is None);
        assert(new_action_problem(self@, a.action_point_cost) is None);
        assert(action_core_spec(self@) == Ok::<(i64, ActionType), Seq<char>>((a.action_point_cost, action_type)));
        match action_type {
            ActionType::Attack => {
                let atk = self.attack_from_form(action_name)?;
                attack::save_card(&conn, &atk)?;
            },
            ActionType::Interaction => {
                let ix = self.interaction_from_form(action_name)?;
                interaction::save_card(&conn, &ix)?;
            },
        }
        Ok(())
    }

    /// Loads action `name`, and its attack and interaction if it has them,
    /// into the forms and shows its editor.
    pub fn task_edit_action(&mut self, name: &str, conn: Result<rusqlite::Connection, String>)
        ensures
            edit_action_spec(old(self)@, conn_error(conn), final(self)@),
    {
        let conn = match opened(conn) {
            Ok(c) => c,
            Err(e) => {
                self.status = Some(e.text());
                return;
            },
        };
        let a = match action::get_card(&conn, name) {
            Ok(Some(a)) => a,
            Ok(None) => {
                self.status = Some(concat3("Action `", name, "` not found"));
                return;
            },
            Err(e) => {
                self.status = Some(e.text());
                return;
            },
        };
        self.action_name = a.name.clone();
        self.action_point_cost = i64_to_string(a.action_point_cost);
        self.action_type = a.action_type.as_str().to_owned();
        self.action_text = a.text.clone();
        match attack::get_card(&conn, a.name.as_str()) {
            Ok(Some(atk)) => {
                self.attack_damage = i64_to_string(atk.damage);
                self.attack_damage_type = atk.damage_type.as_str().to_owned();
                self.attack_skill = atk.skill.as_str().to_owned();
                self.attack_target = i64_to_string(atk.target);
                self.attack_range = i64_to_string(atk.range);
            },
            Ok(None) => {},
            Err(e) => {
                self.status = Some(e.text());
                return;
            },
        }
        match interaction::get_card(&conn, a.name.as_str()) {
            Ok(Some(ix)) => {
                self.interaction_range = i64_to_string(ix.range);
                self.interaction_skill = ix.skill.as_str().to_owned();
                self.interaction_target = match ix.target {
                    Some(t) => i64_to_string(t),
                    None => String::new(),
                };
            },
            Ok(None) => {},
            Err(e) => {
                self.status = Some(e.text());
                return;
            },
        }
        self.active_view = ActiveView::EditAction { original_name: a.name };
    }

    /// Saves the form over the action being edited (renaming it if the name
    /// changed).
    pub fn task_save_action_edits(&mut self, conn: Result<rusqlite::Connection, String>) -> (eff:
        ToolsEffect)
        ensures
            save_action_spec(old(self)@, conn_error(conn), final(self)@, eff),
    {
        let original_name = match &self.active_view {
            ActiveView::EditAction { original_name } => original_name.clone(),
            _ => {
                self.status = Some("Not currently editing an action".to_owned());
                return ToolsEffect::Nothing;
            },
        };
        let conn = match opened(conn) {
            Ok(c) => c,
            Err(e) => {
                self.status = Some(e.text());
                return ToolsEffect::Nothing;
            },
        };
        let new_name = trim(self.action_name.as_str());
        if new_name.is_empty() {
            self.status = Some("Action.name must be non-empty".to_owned());
            return ToolsEffect::Nothing;
        }
        let (action_point_cost, action_type) = match self.action_core_from_form() {
            Ok(v) => v,
            Err(e) => {
                self.status = Some(e.text());
                return ToolsEffect::Nothing;
            },
        };
        let text = trim(self.action_text.as_str());
        if text.is_empty() {
            self.status = Some("Action.text must be non-empty".to_owned());
            return ToolsEffect::Nothing;
        }
        let a = Action {
            name: new_name.to_owned(),
            action_point_cost,
            action_type,
            text: text.to_owned(),
        };
        match action::rename_and_update_card(&conn, original_name.as_str(), &a) {
            Ok(Some(_)) => {
                self.status = Some("Action updated".to_owned());
                self.active_view = ActiveView::List;
                ToolsEffect::Refresh
            },
            Ok(None) => {
                self.status = Some(
                    concat3("Action `", original_name.as_str(), "` does not exist"),
                );
                ToolsEffect::Nothing
            },
            Err(e) => {
                self.status = Some(e.text());
                ToolsEffect::Nothing
            },
        }
    }

    /// The trimmed name of the action whose attack or interaction is being
    /// edited.
    fn current_action_name_for_subforms(&self) -> (r: Result<&str, DataError>)
        ensures
            match subform_problem(self@) {
                Some(m) => r matches Err(e) && error_text(e) == m,
                None => r is Ok,
            },
    {
        if !matches!(self.active_view, ActiveView::EditAction { .. }) {
            return Err(
                DataError::invalid(
                    "Attack/Interaction edits are only available while editing an action",
                ),
            );
        }
        let name = trim(self.action_name.as_str());
        if name.is_empty() {
            return Err(DataError::invalid("Action.name must be non-empty to edit Attack/Interaction"));
        }
        Ok(name)
    }

    /// Stores the attack form for the action being edited: updates its
    /// attack, or creates it if it has none.
    pub fn task_save_attack_edits(&mut self, conn: Result<rusqlite::Connection, String>) -> (eff:
        ToolsEffect)
        ensures
            save_subform_spec(old(self)@, true, conn_error(conn), final(self)@, eff),
    {
        let conn = match opened(conn) {
            Ok(c) => c,
            Err(e) => {
                self.status = Some(e.text());
                return ToolsEffect::Nothing;
            },
        };
        let r = self.save_attack(&conn);
        match r {
            Ok(()) => {
                self.status = Some("Attack saved".to_owned());
                ToolsEffect::Refresh
            },
            Err(e) => {
                self.status = Some(e.text());
                ToolsEffect::Nothing
            },
        }
    }

    fn save_attack(&self, conn: &rusqlite::Connection) -> (r: Result<(), DataError>)
        ensures
            match subform_problem(self@) {
                Some(m) => r matches Err(e) && error_text(e) == m,
                None => match attack_form_spec(self@) {
                    Err(m) => r matches Err(e) && error_text(e) == m,
                    Ok(_) => true,
                },
            },
    {
        let action_name = self.current_action_name_for_subforms()?.to_owned();
        let (damage, range, target, damage_type, skill) = self.attack_fields_from_form()?;
        let atk = Attack { action_name, damage, damage_type, skill, target, range };
        if attack::update_card(conn, &atk)?.is_none() {
            attack::save_card(conn, &atk)?;
        }
        Ok(())
    }

    /// Deletes the attack of the action being edited.
    pub fn task_delete_attack(&mut self, conn: Result<rusqlite::Connection, String>) -> (eff: ToolsEffect)
        ensures
            delete_subform_spec(old(self)@, true, conn_error(conn), final(self)@, eff),
    {
        let conn = match opened(conn) {
            Ok(c) => c,
            Err(e) => {
                self.status = Some(e.text());
                return ToolsEffect::Refresh;
            },
        };
        let r = match self.current_action_name_for_subforms() {
            Ok(name) => attack::delete_card(&conn, name),
            Err(e) => Err(e),
        };
        match r {
            Ok(_) => self.status = Some("Attack deleted".to_owned()),
            Err(e) => self.status = Some(e.text()),
        }
        ToolsEffect::Refresh
    }

    /// Stores the interaction form for the action being edited: updates its
    /// interaction, or creates it if it has none.
    pub fn task_save_interaction_edits(&mut self, conn: Result<rusqlite::Connection, String>) -> (eff:
        ToolsEffect)
        ensures
            save_subform_spec(old(self)@, false, conn_error(conn), final(self)@, eff),
    {
        let conn = match opened(conn) {
            Ok(c) => c,
            Err(e) => {
                self.status = Some(e.text());
                return ToolsEffect::Nothing;
            },
        };
        let r = self.save_interaction(&conn);
        match r {
            Ok(()) => {
                self.status = Some("Interaction saved".to_owned());
                ToolsEffect::Refresh
            },
            Err(e) => {
                self.status = Some(e.text());
                ToolsEffect::Nothing
            },
        }
    }

    fn save_interaction(&self, conn: &rusqlite::Connection) -> (r: Result<(), DataError>)
        ensures
            match subform_problem(self@) {
                Some(m) => r matches Err(e) && error_text(e) == m,
                None => match interaction_form_spec(self@) {
                    Err(m) => r matches Err(e) && error_text(e) == m,
                    Ok(_) => true,
                },
            },
    {
        let action_name = self.current_action_name_for_subforms()?.to_owned();
        let (range, target, skill) = self.interaction_fields_from_form()?;
        let ix = Interaction { action_name, range, skill, target };
        if interaction::update_card(conn, &ix)?.is_none() {
            interaction::save_card(conn, &ix)?;
        }
        Ok(())
    }

    /// Deletes the interaction of the action being edited.
    pub fn task_delete_interaction(&mut self, conn: Result<rusqlite::Connection, String>) -> (eff:
        ToolsEffect)
        ensures
            delete_subform_spec(old(self)@, false, conn_error(conn), final(self)@, eff),
    {
        let conn = match opened(conn) {
            Ok(c) => c,
            Err(e) => {
                self.status = Some(e.text());
                return ToolsEffect::Refresh;
            },
        };
        let r = match self.current_action_name_for_subforms() {
            Ok(name) => interaction::delete_card(&conn, name),
            Err(e) => Err(e),
        };
        match r {
            Ok(_) => self.status = Some("Interaction deleted".to_owned()),
            Err(e) => self.status = Some(e.text()),
        }
        ToolsEffect::Refresh
    }

    /// Deletes action `name` (its attack or interaction goes with it).
    pub fn task_delete_action(&mut self, name: &str, conn: Result<rusqlite::Connection, String>) -> (eff:
        ToolsEffect)
        ensures
            conn_outcome(
                old(self)@,
                conn_error(conn),
                final(self)@,
                eff,
                old(self)@.with_status("Deleted action `"@ + name@ + "`"@),
                ToolsEffect::Refresh,
                ToolsEffect::Refresh,
            ),
    {
        let conn = match opened(conn) {
            Ok(c) => c,
            Err(e) => {
                self.status = Some(e.text());
                return ToolsEffect::Refresh;
            },
        };
        match action::delete_card(&conn, name) {
            Ok(_) => self.status = Some(concat3("Deleted action `", name, "`")),
            Err(e) => self.status = Some(e.text()),
        }
        ToolsEffect::Refresh
    }
}

} // verus!
