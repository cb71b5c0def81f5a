//! The editor's database work on units, items and levels.

use vstd::prelude::*;
use crate::cards::action::{self, ActionAssociation};
use crate::cards::armor_modifier;
use crate::cards::item::{self, Item};
use crate::cards::level::{self, Level};
use crate::cards::stat_modifier;
use crate::cards::unit;
use crate::num::i64_to_string;
use crate::shared::{concat2, concat3};
use crate::text::{is_blank_spec, str_eq, trim};
use crate::tools::gui::effects::ToolsEffect;
use crate::tools::gui::forms::unit_stats_spec;
use crate::tools::gui::lists::{row_item, row_level, row_unit};
use crate::tools::gui::state::{ToolsGui, ToolsGuiView};
use crate::tools::gui::tasks::{conn_error, conn_outcome, opened, outcome, status_only};
use crate::tools::gui::types::{ActionRow, ActiveView};
use crate::tools::gui::update::{editing_item, editing_level, editing_unit};

verus! {

/// A kind of card that actions can be linked to.
#[derive(Debug, Clone, Copy, PartialEq, Eq, Structural)]
pub enum CardKind {
    Unit,
    Item,
    Level,
}

pub open spec fn editing_kind(v: ToolsGuiView, k: CardKind) -> bool {
    match k {
        CardKind::Unit => editing_unit(v),
        CardKind::Item => editing_item(v),
        CardKind::Level => editing_level(v),
    }
}

/// `"Not currently editing a unit"`, and so on.
pub open spec fn not_editing_msg(k: CardKind) -> Seq<char> {
    match k {
        CardKind::Unit => "Not currently editing a unit"@,
        CardKind::Item => "Not currently editing an item"@,
        CardKind::Level => "Not currently editing a level"@,
    }
}

/// `"Unit"`, `"Item"`, `"Level"`.
pub open spec fn kind_title(k: CardKind) -> Seq<char> {
    match k {
        CardKind::Unit => "Unit"@,
        CardKind::Item => "Item"@,
        CardKind::Level => "Level"@,
    }
}

/// `"unit"`, `"item"`, `"level"`.
pub open spec fn kind_word(k: CardKind) -> Seq<char> {
    match k {
        CardKind::Unit => "unit"@,
        CardKind::Item => "item"@,
        CardKind::Level => "level"@,
    }
}

/// The action-name buffer of a card kind's editor.
pub open spec fn assoc_buffer(v: ToolsGuiView, k: CardKind) -> Seq<char> {
    match k {
        CardKind::Unit => v.unit_assoc_action_name,
        CardKind::Item => v.item_assoc_action_name,
        CardKind::Level => v.level_assoc_action_name,
    }
}

/// The same state with that buffer emptied.
pub open spec fn assoc_cleared(v: ToolsGuiView, k: CardKind) -> ToolsGuiView {
    match k {
        CardKind::Unit => ToolsGuiView { unit_assoc_action_name: Seq::empty(), ..v },
        CardKind::Item => ToolsGuiView { item_assoc_action_name: Seq::empty(), ..v },
        CardKind::Level => ToolsGuiView { level_assoc_action_name: Seq::empty(), ..v },
    }
}

/// After "add association": the view check, the failure to open, a blank
/// action name, any other failure, or the buffer emptied.
pub open spec fn add_assoc_spec(
    pre: ToolsGuiView,
    k: CardKind,
    conn_err: Option<Seq<char>>,
    post: ToolsGuiView,
    eff: ToolsEffect,
) -> bool {
    if !editing_kind(pre, k) {
        post == pre.with_status(not_editing_msg(k)) && eff == ToolsEffect::Nothing
    } else {
        match conn_err {
            Some(s) => post == pre.with_status(s) && eff == ToolsEffect::Nothing,
            None => if is_blank_spec(assoc_buffer(pre, k)) {
                post == pre.with_status(
                    "Select an Action (or use Clear) to associate with this "@ + kind_title(k),
                ) && eff == ToolsEffect::Nothing
            } else {
                outcome(
                    pre,
                    post,
                    eff,
                    assoc_cleared(pre, k).with_status(kind_title(k) + " association added"@),
                    ToolsEffect::Refresh,
                    ToolsEffect::Nothing,
                )
            },
        }
    }
}

/// After "remove association".
pub open spec fn remove_assoc_spec(
    pre: ToolsGuiView,
    k: CardKind,
    conn_err: Option<Seq<char>>,
    post: ToolsGuiView,
    eff: ToolsEffect,
) -> bool {
    if !editing_kind(pre, k) {
        post == pre.with_status(not_editing_msg(k)) && eff == ToolsEffect::Nothing
    } else {
        conn_outcome(
            pre,
            conn_err,
            post,
            eff,
            pre.with_status(kind_title(k) + " association removed"@),
            ToolsEffect::Refresh,
            ToolsEffect::Nothing,
        )
    }
}

/// The name of the first action of `actions` whose `f` is `name`, or
/// empty text.
pub open spec fn first_action_for(
    actions: Seq<ActionRow>,
    f: spec_fn(ActionRow) -> Option<Seq<char>>,
    name: Seq<char>,
) -> Seq<char>
    decreases actions.len(),
{
    if actions.len() == 0 {
        Seq::empty()
    } else if f(actions[0]) == Some(name) {
        actions[0].name@
    } else {
        first_action_for(actions.drop_first(), f, name)
    }
}

pub open spec fn kind_field(k: CardKind) -> spec_fn(ActionRow) -> Option<Seq<char>> {
    match k {
        CardKind::Unit => |a: ActionRow| row_unit(a),
        CardKind::Item => |a: ActionRow| row_item(a),
        CardKind::Level => |a: ActionRow| row_level(a),
    }
}

/// The association text of action `a` for a card kind.
fn action_link(a: &ActionRow, k: CardKind) -> (r: Option<&String>)
    ensures
        match r {
            Some(s) => (kind_field(k))(*a) == Some(s@),
            None => (kind_field(k))(*a) is None,
        },
{
    match k {
        CardKind::Unit => a.unit_name.as_ref(),
        CardKind::Item => a.item_name.as_ref(),
        CardKind::Level => a.level_name.as_ref(),
    }
}

/// The name of the first loaded action linked to the card `name` of kind
/// `k`, or empty text.
fn first_linked_action(actions: &Vec<ActionRow>, k: CardKind, name: &str) -> (r: String)
    ensures
        r@ == first_action_for(actions@, kind_field(k), name@),
{
    let mut i: usize = 0;
    proof {
        assert(actions@.subrange(0, actions@.len() as int) =~= actions@);
    }
    while i < actions.len()
        invariant
            i <= actions@.len(),
            first_action_for(actions@, kind_field(k), name@) == first_action_for(
                actions@.subrange(i as int, actions@.len() as int),
                kind_field(k),
                name@,
            ),
        decreases actions@.len() - i,
    {
        let rest = Ghost(actions@.subrange(i as int, actions@.len() as int));
        proof {
            assert(rest@.drop_first() =~= actions@.subrange(i + 1, actions@.len() as int));
            assert(rest@[0] == actions@[i as int]);
        }
        let hit = match action_link(&actions[i], k) {
            Some(s) => str_eq(s.as_str(), name),
            None => false,
        };
        if hit {
            return actions[i].name.clone();
        }
        i = i + 1;
    }
    String::new()
}

/// After "edit unit `name`": the failure, or the unit's fields in the form,
/// the name of its first linked action in the association buffer, and its
/// editor shown.
pub open spec fn edit_unit_spec(pre: ToolsGuiView, conn_err: Option<Seq<char>>, post: ToolsGuiView) -> bool {
    match conn_err {
        Some(s) => post == pre.with_status(s),
        None => status_only(pre, post) || {
            &&& post == (ToolsGuiView {
                unit_name: post.unit_name,
                unit_strength: post.unit_strength,
                unit_focus: post.unit_focus,
                unit_intelligence: post.unit_intelligence,
                unit_agility: post.unit_agility,
                unit_knowledge: post.unit_knowledge,
                unit_assoc_action_name: first_action_for(
                    pre.actions,
                    kind_field(CardKind::Unit),
                    post.unit_name,
                ),
                active_view: post.active_view,
                ..pre
            })
            &&& (post.active_view matches ActiveView::EditUnit { original_name }
                && original_name@ == post.unit_name)
        },
    }
}

/// After "edit item `name`".
pub open spec fn edit_item_spec(pre: ToolsGuiView, conn_err: Option<Seq<char>>, post: ToolsGuiView) -> bool {
    match conn_err {
        Some(s) => post == pre.with_status(s),
        None => status_only(pre, post) || {
            &&& post == (ToolsGuiView {
                item_name: post.item_name,
                item_assoc_action_name: first_action_for(
                    pre.actions,
                    kind_field(CardKind::Item),
                    post.item_name,
                ),
                active_view: post.active_view,
                ..pre
            })
            &&& (post.active_view matches ActiveView::EditItem { original_name }
                && original_name@ == post.item_name)
        },
    }
}

/// After "edit level `name`".
pub open spec fn edit_level_spec(pre: ToolsGuiView, conn_err: Option<Seq<char>>, post: ToolsGuiView) -> bool {
    match conn_err {
        Some(s) => post == pre.with_status(s),
        None => status_only(pre, post) || {
            &&& post == (ToolsGuiView {
                level_name: post.level_name,
                level_text: post.level_text,
                level_assoc_action_name: first_action_for(
                    pre.actions,
                    kind_field(CardKind::Level),
                    post.level_name,
                ),
                active_view: post.active_view,
                ..pre
            })
            &&& (post.active_view matches ActiveView::EditLevel { original_name }
                && original_name@ == post.level_name)
        },
    }
}

/// After "create unit" (with an optional association): the failure to
/// open, a form problem, any other failure, or the form emptied.
pub open spec fn create_unit_spec(
    pre: ToolsGuiView,
    with_assoc: bool,
    conn_err: Option<Seq<char>>,
    post: ToolsGuiView,
    eff: ToolsEffect,
) -> bool {
    &&& eff == ToolsEffect::Refresh
    &&& match conn_err {
        Some(s) => post == pre.with_status(s),
        None => match unit_stats_spec(pre) {
            Err(m) => post == pre.with_status(m),
            Ok(_) => status_only(pre, post) || post == (ToolsGuiView {
                unit_name: Seq::empty(),
                unit_assoc_action_name: if with_assoc {
                    Seq::empty()
                } else {
                    pre.unit_assoc_action_name
                },
                ..pre
            }).with_status("Unit created"@),
        },
    }
}

/// After "create item" (with an optional association and the queued
/// modifiers).
pub open spec fn create_item_spec(
    pre: ToolsGuiView,
    full: bool,
    conn_err: Option<Seq<char>>,
    post: ToolsGuiView,
    eff: ToolsEffect,
) -> bool {
    &&& eff == ToolsEffect::Refresh
    &&& match conn_err {
        Some(s) => post == pre.with_status(s),
        None => status_only(pre, post) || post == (if full {
            ToolsGuiView {
                item_name: Seq::empty(),
                item_assoc_action_name: Seq::empty(),
                pending_armor_modifiers: Seq::empty(),
                pending_stat_modifiers: Seq::empty(),
                ..pre
            }
        } else {
            ToolsGuiView { item_name: Seq::empty(), ..pre }
        }).with_status("Item created"@),
    }
}

/// After "create level" (with an optional association and the queued
/// modifiers).
pub open spec fn create_level_spec(
    pre: ToolsGuiView,
    full: bool,
    conn_err: Option<Seq<char>>,
    post: ToolsGuiView,
    eff: ToolsEffect,
) -> bool {
    &&& eff == ToolsEffect::Refresh
    &&& match conn_err {
        Some(s) => post == pre.with_status(s),
        None => status_only(pre, post) || post == (if full {
            ToolsGuiView {
                level_name: Seq::empty(),
                level_text: Seq::empty(),
                level_assoc_action_name: Seq::empty(),
                pending_armor_modifiers: Seq::empty(),
                pending_stat_modifiers: Seq::empty(),
                ..pre
            }
        } else {
            ToolsGuiView { level_name: Seq::empty(), level_text: Seq::empty(), ..pre }
        }).with_status("Level created"@),
    }
}

/// After "save unit edits".
pub open spec fn save_unit_spec(
    pre: ToolsGuiView,
    conn_err: Option<Seq<char>>,
    post: ToolsGuiView,
    eff: ToolsEffect,
) -> bool {
    if !editing_unit(pre) {
        post == pre.with_status("Not currently editing a unit"@) && eff == ToolsEffect::Nothing
    } else {
        match conn_err {
            Some(s) => post == pre.with_status(s) && eff == ToolsEffect::Nothing,
            None => if is_blank_spec(pre.unit_name) {
                post == pre.with_status("Unit.name must be non-empty"@) && eff
                    == ToolsEffect::Nothing
            } else {
                match unit_stats_spec(pre) {
                    Err(m) => post == pre.with_status(m) && eff == ToolsEffect::Nothing,
                    Ok(_) => outcome(
                        pre,
                        post,
                        eff,
                        (ToolsGuiView { active_view: ActiveView::List, ..pre }).with_status(
                            "Unit updated"@,
                        ),
                        ToolsEffect::Refresh,
                        ToolsEffect::Nothing,
                    ),
                }
            },
        }
    }
}

/// After "save item edits".
pub open spec fn save_item_spec(
    pre: ToolsGuiView,
    conn_err: Option<Seq<char>>,
    post: ToolsGuiView,
    eff: ToolsEffect,
) -> bool {
    if !editing_item(pre) {
        post == pre.with_status("Not currently editing an item"@) && eff == ToolsEffect::Nothing
    } else {
        match conn_err {
            Some(s) => post == pre.with_status(s) && eff == ToolsEffect::Nothing,
            None => if is_blank_spec(pre.item_name) {
                post == pre.with_status("Item.name must be non-empty"@) && eff
                    == ToolsEffect::Nothing
            } else {
                outcome(
                    pre,
                    post,
                    eff,
                    (ToolsGuiView { active_view: ActiveView::List, ..pre }).with_status(
                        "Item updated"@,
                    ),
                    ToolsEffect::Refresh,
                    ToolsEffect::Nothing,
                )
            },
        }
    }
}

/// After "save level edits".
pub open spec fn save_level_spec(
    pre: ToolsGuiView,
    conn_err: Option<Seq<char>>,
    post: ToolsGuiView,
    eff: ToolsEffect,
) -> bool {
    if !editing_level(pre) {
        post == pre.with_status("Not currently editing a level"@) && eff == ToolsEffect::Nothing
    } else {
        match conn_err {
            Some(s) => post == pre.with_status(s) && eff == ToolsEffect::Nothing,
            None => if is_blank_spec(pre.level_name) {
                post == pre.with_status("Level.name must be non-empty"@) && eff
                    == ToolsEffect::Nothing
            } else if is_blank_spec(pre.level_text) {
                post == pre.with_status("Level.text must be non-empty"@) && eff
                    == ToolsEffect::Nothing
            } else {
                outcome(
                    pre,
                    post,
                    eff,
                    (ToolsGuiView { active_view: ActiveView::List, ..pre }).with_status(
                        "Level updated"@,
                    ),
                    ToolsEffect::Refresh,
                    ToolsEffect::Nothing,
                )
            },
        }
    }
}

/// `"<head><name><tail>"` as a status line.
fn named(head: &str, name: &str, tail: &str) -> (r: Option<String>)
    ensures
        r == Some(r->0) && r->0@ == head@ + name@ + tail@,
{
    Some(concat3(head, name, tail))
}

impl ToolsGui {
    /// The original name of the card of kind `k` being edited.
    fn editing_name(&self, k: CardKind) -> (r: Option<String>)
        ensures
            r is Some <==> editing_kind(self@, k),
    {
        match (k, &self.active_view) {
            (CardKind::Unit, ActiveView::EditUnit { original_name }) => Some(original_name.clone()),
            (CardKind::Item, ActiveView::EditItem { original_name }) => Some(original_name.clone()),
            (CardKind::Level, ActiveView::EditLevel { original_name }) => Some(
                original_name.clone(),
            ),
            _ => None,
        }
    }

    /// Links the action named in the association buffer to the card being
    /// edited.
    pub fn task_add_association(&mut self, k: CardKind, conn: Result<rusqlite::Connection, String>) -> (eff:
        ToolsEffect)
        ensures
            add_assoc_spec(old(self)@, k, conn_error(conn), final(self)@, eff),
    {
        let original_name = match self.editing_name(k) {
            Some(n) => n,
            None => {
                let msg = match k {
                    CardKind::Unit => "Not currently editing a unit",
                    CardKind::Item => "Not currently editing an item",
                    CardKind::Level => "Not currently editing a level",
                };
                self.status = Some(msg.to_owned());
                return ToolsEffect::Nothing;
            },
        };
        let conn = match opened(conn) {
            Ok(c) => c,
            Err(e) => {
                self.status = Some(e.text());
                return ToolsEffect::Nothing;
            },
        };
        let buffer = match k {
            CardKind::Unit => self.unit_assoc_action_name.as_str(),
            CardKind::Item => self.item_assoc_action_name.as_str(),
            CardKind::Level => self.level_assoc_action_name.as_str(),
        };
        let action_name = trim(buffer);
        let title = match k {
            CardKind::Unit => "Unit",
            CardKind::Item => "Item",
            CardKind::Level => "Level",
        };
        if action_name.is_empty() {
            self.status = Some(
                concat2("Select an Action (or use Clear) to associate with this ", title),
            );
            return ToolsEffect::Nothing;
        }
        let assoc = match k {
            CardKind::Unit => ActionAssociation::Unit { unit_name: original_name },
            CardKind::Item => ActionAssociation::Item { item_name: original_name },
            CardKind::Level => ActionAssociation::Level { level_name: original_name },
        };
        match action::set_association(&conn, action_name, &assoc) {
            Ok(()) => {
                self.status = Some(concat2(title, " association added"));
                match k {
                    CardKind::Unit => self.unit_assoc_action_name = String::new(),
                    CardKind::Item => self.item_assoc_action_name = String::new(),
                    CardKind::Level => self.level_assoc_action_name = String::new(),
                }
                ToolsEffect::Refresh
            },
            Err(e) => {
                self.status = Some(e.text());
                ToolsEffect::Nothing
            },
        }
    }

    /// Unlinks action `action_name` from the card being edited, if it is
    /// linked to it.
    pub fn task_remove_association(
        &mut self,
        k: CardKind,
        action_name: &str,
        conn: Result<rusqlite::Connection, String>,
    ) -> (eff: ToolsEffect)
        ensures
            remove_assoc_spec(old(self)@, k, conn_error(conn), final(self)@, eff),
    {
        let original_name = match self.editing_name(k) {
            Some(n) => n,
            None => {
                let msg = match k {
                    CardKind::Unit => "Not currently editing a unit",
                    CardKind::Item => "Not currently editing an item",
                    CardKind::Level => "Not currently editing a level",
                };
                self.status = Some(msg.to_owned());
                return ToolsEffect::Nothing;
            },
        };
        let conn = match opened(conn) {
            Ok(c) => c,
            Err(e) => {
                self.status = Some(e.text());
                return ToolsEffect::Nothing;
            },
        };
        let title = match k {
            CardKind::Unit => "Unit",
            CardKind::Item => "Item",
            CardKind::Level => "Level",
        };
        let linked = match action::get_association(&conn, action_name) {
            Err(e) => {
                self.status = Some(e.text());
                return ToolsEffect::Nothing;
            },
            Ok(None) => {
                self.status = named("Action `", action_name, "` not found (or has no association)");
                return ToolsEffect::Nothing;
            },
            Ok(Some(a)) => match (k, a) {
                (CardKind::Unit, ActionAssociation::Unit { unit_name }) => str_eq(
                    unit_name.as_str(),
                    original_name.as_str(),
                ),
                (CardKind::Item, ActionAssociation::Item { item_name }) => str_eq(
                    item_name.as_str(),
                    original_name.as_str(),
                ),
                (CardKind::Level, ActionAssociation::Level { level_name }) => str_eq(
                    level_name.as_str(),
                    original_name.as_str(),
                ),
                _ => false,
            },
        };
        if !linked {
            let head = concat3("Action `", action_name, "` is not associated with this ");
            self.status = Some(concat2(head.as_str(), title));
            return ToolsEffect::Nothing;
        }
        match action::clear_association(&conn, action_name) {
            Ok(()) => {
                self.status = Some(concat2(title, " association removed"));
                ToolsEffect::Refresh
            },
            Err(e) => {
                self.status = Some(e.text());
                ToolsEffect::Nothing
            },
        }
    }

    /// Deletes the card `name` of kind `k`.
    pub fn task_delete_card(&mut self, k: CardKind, name: &str, conn: Result<rusqlite::Connection, String>) -> (eff:
        ToolsEffect)
        ensures
            conn_outcome(
                old(self)@,
                conn_error(conn),
                final(self)@,
                eff,
                old(self)@.with_status("Deleted "@ + kind_word(k) + " `"@ + name@ + "`"@),
                ToolsEffect::Refresh,
                ToolsEffect::Refresh,
            ),
    {
        let conn = match opened(conn) {
            Ok(c) => c,
            Err(e) => {
                self.status = Some(e.text());
                return ToolsEffect::Refresh;
            },
        };
        let r = match k {
            CardKind::Unit => unit::delete_card(&conn, name),
            CardKind::Item => item::delete_card(&conn, name),
            CardKind::Level => level::delete_card(&conn, name),
        };
        match r {
            Ok(_) => {
                let head = match k {
                    CardKind::Unit => "Deleted unit `",
                    CardKind::Item => "Deleted item `",
                    CardKind::Level => "Deleted level `",
                };
                proof {
                    reveal_strlit("Deleted unit `");
                    reveal_strlit("Deleted item `");
                    reveal_strlit("Deleted level `");
                    reveal_strlit("Deleted ");
                    reveal_strlit("unit");
                    reveal_strlit("item");
                    reveal_strlit("level");
                    reveal_strlit(" `");
                    assert(head@ =~= "Deleted "@ + kind_word(k) + " `"@);
                }
                self.status = Some(concat3(head, name, "`"));
            },
            Err(e) => self.status = Some(e.text()),
        }
        ToolsEffect::Refresh
    }

    /// Creates a unit from the form; with `with_assoc`, also links the
    /// action named in the association buffer to it.
    pub fn task_create_unit(&mut self, with_assoc: bool, conn: Result<rusqlite::Connection, String>) -> (eff:
        ToolsEffect)
        ensures
            create_unit_spec(old(self)@, with_assoc, conn_error(conn), final(self)@, eff),
    {
        let conn = match opened(conn) {
            Ok(c) => c,
            Err(e) => {
                self.status = Some(e.text());
                return ToolsEffect::Refresh;
            },
        };
        let u = match self.unit_from_form() {
            Ok(u) => u,
            Err(e) => {
                self.status = Some(e.text());
                return ToolsEffect::Refresh;
            },
        };
        let unit_name = u.name.clone();
        if let Err(e) = unit::save_card(&conn, &u) {
            self.status = Some(e.text());
            return ToolsEffect::Refresh;
        }
        if with_assoc {
            let action_name = trim(self.unit_assoc_action_name.as_str());
            if !action_name.is_empty() {
                if let Err(e) = action::set_association(
                    &conn,
                    action_name,
                    &ActionAssociation::Unit { unit_name },
                ) {
                    self.status = Some(e.text());
                    return ToolsEffect::Refresh;
                }
            }
        }
        self.status = Some("Unit created".to_owned());
        self.unit_name = String::new();
        if with_assoc {
            self.unit_assoc_action_name = String::new();
        }
        ToolsEffect::Refresh
    }

    /// Creates an item from the form; with `full`, also links the action
    /// named in the association buffer and the queued modifiers to it.
    #[verifier::loop_isolation(false)]
    pub fn task_create_item(&mut self, full: bool, conn: Result<rusqlite::Connection, String>) -> (eff:
        ToolsEffect)
        ensures
            create_item_spec(old(self)@, full, conn_error(conn), final(self)@, eff),
    {
        let mut conn = match opened(conn) {
            Ok(c) => c,
            Err(e) => {
                self.status = Some(e.text());
                return ToolsEffect::Refresh;
            },
        };
        let it = Item { name: trim(self.item_name.as_str()).to_owned() };
        let item_name = it.name.clone();
        if let Err(e) = item::save_card(&conn, &it) {
            self.status = Some(e.text());
            return ToolsEffect::Refresh;
        }
        if full {
            let action_name = trim(self.item_assoc_action_name.as_str());
            if !action_name.is_empty() {
                if let Err(e) = action::set_association(
                    &conn,
                    action_name,
                    &ActionAssociation::Item { item_name: item_name.clone() },
                ) {
                    self.status = Some(e.text());
                    return ToolsEffect::Refresh;
                }
            }
            let mut i: usize = 0;
            while i < self.pending_armor_modifiers.len()
                invariant
                    self@ == old(self)@,
                decreases self.pending_armor_modifiers@.len() - i,
            {
                if let Err(e) = armor_modifier::create_and_link_to_item_by_name(
                    &mut conn,
                    &self.pending_armor_modifiers[i],
                    item_name.as_str(),
                ) {
                    self.status = Some(e.text());
                    return ToolsEffect::Refresh;
                }
                i = i + 1;
            }
            let mut i: usize = 0;
            while i < self.pending_stat_modifiers.len()
                invariant
                    self@ == old(self)@,
                decreases self.pending_stat_modifiers@.len() - i,
            {
                if let Err(e) = stat_modifier::create_and_link_to_item_by_name(
                    &mut conn,
                    &self.pending_stat_modifiers[i],
                    item_name.as_str(),
                ) {
                    self.status = Some(e.text());
                    return ToolsEffect::Refresh;
                }
                i = i + 1;
            }
        }
        self.status = Some("Item created".to_owned());
        self.item_name = String::new();
        if full {
            self.item_assoc_action_name = String::new();
            self.pending_armor_modifiers.clear();
            self.pending_stat_modifiers.clear();
        }
        ToolsEffect::Refresh
    }

    /// Creates a level from the form; with `full`, also links the action
    /// named in the association buffer and the queued modifiers to it.
    #[verifier::loop_isolation(false)]
    pub fn task_create_level(&mut self, full: bool, conn: Result<rusqlite::Connection, String>) -> (eff:
        ToolsEffect)
        ensures
            create_level_spec(old(self)@, full, conn_error(conn), final(self)@, eff),
    {
        let mut conn = match opened(conn) {
            Ok(c) => c,
            Err(e) => {
                self.status = Some(e.text());
                return ToolsEffect::Refresh;
            },
        };
        let lv = Level {
            name: trim(self.level_name.as_str()).to_owned(),
            text: trim(self.level_text.as_str()).to_owned(),
        };
        let level_name = lv.name.clone();
        if let Err(e) = level::save_card(&conn, &lv) {
            self.status = Some(e.text());
            return ToolsEffect::Refresh;
        }
        if full {
            let action_name = trim(self.level_assoc_action_name.as_str());
            if !action_name.is_empty() {
                if let Err(e) = action::set_association(
                    &conn,
                    action_name,
                    &ActionAssociation::Level { level_name: level_name.clone() },
                ) {
                    self.status = Some(e.text());
                    return ToolsEffect::Refresh;
                }
            }
            let mut i: usize = 0;
            while i < self.pending_armor_modifiers.len()
                invariant
                    self@ == old(self)@,
                decreases self.pending_armor_modifiers@.len() - i,
            {
                if let Err(e) = armor_modifier::create_and_link_to_level_by_name(
                    &mut conn,
                    &self.pending_armor_modifiers[i],
                    level_name.as_str(),
                ) {
                    self.status = Some(e.text());
                    return ToolsEffect::Refresh;
                }
                i = i + 1;
            }
            let mut i: usize = 0;
            while i < self.pending_stat_modifiers.len()
                invariant
                    self@ == old(self)@,
                decreases self.pending_stat_modifiers@.len() - i,
            {
                if let Err(e) = stat_modifier::create_and_link_to_level_by_name(
                    &mut conn,
                    &self.pending_stat_modifiers[i],
                    level_name.as_str(),
                ) {
                    self.status = Some(e.text());
                    return ToolsEffect::Refresh;
                }
                i = i + 1;
            }
        }
        self.status = Some("Level created".to_owned());
        self.level_name = String::new();
        self.level_text = String::new();
        if full {
            self.level_assoc_action_name = String::new();
            self.pending_armor_modifiers.clear();
            self.pending_stat_modifiers.clear();
        }
        ToolsEffect::Refresh
    }

    /// Loads unit `name` into the form and shows its editor.
    pub fn task_edit_unit(&mut self, name: &str, conn: Result<rusqlite::Connection, String>)
        ensures
            edit_unit_spec(old(self)@, conn_error(conn), final(self)@),
    {
        let conn = match opened(conn) {
            Ok(c) => c,
            Err(e) => {
                self.status = Some(e.text());
                return;
            },
        };
        let u = match unit::get_card(&conn, name) {
            Ok(Some(u)) => u,
            Ok(None) => {
                self.status = named("Unit `", name, "` not found");
                return;
            },
            Err(e) => {
                self.status = Some(e.text());
                return;
            },
        };
        self.unit_name = u.name.clone();
        self.unit_strength = i64_to_string(u.strength);
        self.unit_focus = i64_to_string(u.focus);
        self.unit_intelligence = i64_to_string(u.intelligence);
        self.unit_agility = i64_to_string(u.agility);
        self.unit_knowledge = i64_to_string(u.knowledge);
        self.unit_assoc_action_name = first_linked_action(&self.actions, CardKind::Unit, u.name.as_str());
        self.active_view = ActiveView::EditUnit { original_name: u.name };
    }

    /// Loads item `name` into the form and shows its editor.
    pub fn task_edit_item(&mut self, name: &str, conn: Result<rusqlite::Connection, String>)
        ensures
            edit_item_spec(old(self)@, conn_error(conn), final(self)@),
    {
        let conn = match opened(conn) {
            Ok(c) => c,
            Err(e) => {
                self.status = Some(e.text());
                return;
            },
        };
        let it = match item::get_card(&conn, name) {
            Ok(Some(it)) => it,
            Ok(None) => {
                self.status = named("Item `", name, "` not found");
                return;
            },
            Err(e) => {
                self.status = Some(e.text());
                return;
            },
        };
        self.item_name = it.name.clone();
        self.item_assoc_action_name = first_linked_action(&self.actions, CardKind::Item, it.name.as_str());
        self.active_view = ActiveView::EditItem { original_name: it.name };
    }

    /// Loads level `name` into the form and shows its editor.
    pub fn task_edit_level(&mut self, name: &str, conn: Result<rusqlite::Connection, String>)
        ensures
            edit_level_spec(old(self)@, conn_error(conn), final(self)@),
    {
        let conn = match opened(conn) {
            Ok(c) => c,
            Err(e) => {
                self.status = Some(e.text());
                return;
            },
        };
        let lv = match level::get_card(&conn, name) {
            Ok(Some(lv)) => lv,
            Ok(None) => {
                self.status = named("Level `", name, "` not found");
                return;
            },
            Err(e) => {
                self.status = Some(e.text());
                return;
            },
        };
        self.level_name = lv.name.clone();
        self.level_text = lv.text.clone();
        self.level_assoc_action_name = first_linked_action(
            &self.actions,
            CardKind::Level,
            lv.name.as_str(),
        );
        self.active_view = ActiveView::EditLevel { original_name: lv.name };
    }

    /// Saves the form over the unit being edited (renaming it if the name
    /// changed).
    pub fn task_save_unit_edits(&mut self, conn: Result<rusqlite::Connection, String>) -> (eff: ToolsEffect)
        ensures
            save_unit_spec(old(self)@, conn_error(conn), final(self)@, eff),
    {
        let original_name = match self.editing_name(CardKind::Unit) {
            Some(n) => n,
            None => {
                self.status = Some("Not currently editing a unit".to_owned());
                return ToolsEffect::Nothing;
            },
        };
        let conn = match opened(conn) {
            Ok(c) => c,
            Err(e) => {
                self.status = Some(e.text());
                return ToolsEffect::Nothing;
            },
        };
        if trim(self.unit_name.as_str()).is_empty() {
            self.status = Some("Unit.name must be non-empty".to_owned());
            return ToolsEffect::Nothing;
        }
        let u = match self.unit_from_form() {
            Ok(u) => u,
            Err(e) => {
                self.status = Some(e.text());
                return ToolsEffect::Nothing;
            },
        };
        match unit::rename_and_update_card(&conn, original_name.as_str(), &u) {
            Ok(Some(_)) => {
                self.status = Some("Unit updated".to_owned());
                self.active_view = ActiveView::List;
                ToolsEffect::Refresh
            },
            Ok(None) => {
                self.status = named("Unit `", original_name.as_str(), "` does not exist");
                ToolsEffect::Nothing
            },
            Err(e) => {
                self.status = Some(e.text());
                ToolsEffect::Nothing
            },
        }
    }

    /// Saves the form over the item being edited (renaming it).
    pub fn task_save_item_edits(&mut self, conn: Result<rusqlite::Connection, String>) -> (eff: ToolsEffect)
        ensures
            save_item_spec(old(self)@, conn_error(conn), final(self)@, eff),
    {
        let original_name = match self.editing_name(CardKind::Item) {
            Some(n) => n,
            None => {
                self.status = Some("Not currently editing an item".to_owned());
                return ToolsEffect::Nothing;
            },
        };
        let conn = match opened(conn) {
            Ok(c) => c,
            Err(e) => {
                self.status = Some(e.text());
                return ToolsEffect::Nothing;
            },
        };
        let new_name = trim(self.item_name.as_str());
        if new_name.is_empty() {
            self.status = Some("Item.name must be non-empty".to_owned());
            return ToolsEffect::Nothing;
        }
        let it = Item { name: new_name.to_owned() };
        match item::rename_card(&conn, original_name.as_str(), &it) {
            Ok(Some(_)) => {
                self.status = Some("Item updated".to_owned());
                self.active_view = ActiveView::List;
                ToolsEffect::Refresh
            },
            Ok(None) => {
                self.status = named("Item `", original_name.as_str(), "` does not exist");
                ToolsEffect::Nothing
            },
            Err(e) => {
                self.status = Some(e.text());
                ToolsEffect::Nothing
            },
        }
    }

    /// Saves the form over the level being edited (renaming it).
    pub fn task_save_level_edits(&mut self, conn: Result<rusqlite::Connection, String>) -> (eff: ToolsEffect)
        ensures
            save_level_spec(old(self)@, conn_error(conn), final(self)@, eff),
    {
        let original_name = match self.editing_name(CardKind::Level) {
            Some(n) => n,
            None => {
                self.status = Some("Not currently editing a level".to_owned());
                return ToolsEffect::Nothing;
            },
        };
        let conn = match opened(conn) {
            Ok(c) => c,
            Err(e) => {
                self.status = Some(e.text());
                return ToolsEffect::Nothing;
            },
        };
        let new_name = trim(self.level_name.as_str());
        if new_name.is_empty() {
            self.status = Some("Level.name must be non-empty".to_owned());
            return ToolsEffect::Nothing;
        }
        let new_text = trim(self.level_text.as_str());
        if new_text.is_empty() {
            self.status = Some("Level.text must be non-empty".to_owned());
            return ToolsEffect::Nothing;
        }
        let lv = Level { name: new_name.to_owned(), text: new_text.to_owned() };
        match level::rename_card(&conn, original_name.as_str(), &lv) {
            Ok(Some(_)) => {
                self.status = Some("Level updated".to_owned());
                self.active_view = ActiveView::List;
                ToolsEffect::Refresh
            },
            Ok(None) => {
                self.status = named("Level `", original_name.as_str(), "` does not exist");
                ToolsEffect::Nothing
            },
            Err(e) => {
                self.status = Some(e.text());
                ToolsEffect::Nothing
            },
        }
    }
}

} // verus!
