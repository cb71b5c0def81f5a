//! Reading the editor's form buffers into cards.
//!
//! Each reader checks the fields in the order the editor does and reports
//! the first problem, with its cause after a colon.

use vstd::prelude::*;
use crate::cards::armor_modifier::{self, damage_type_from_text, suit_from_text, Suit};
use crate::cards::action::{Action, ActionType};
use crate::cards::attack;
use crate::cards::interaction;
use crate::cards::stat_modifier::{Stat, StatModifier, StatModifierOperator};
use crate::cards::unit::Unit;
use crate::num::{int_error_message, int_error_text, parse_int};
use crate::shared::{error_text, concat2, concat3, is_error, DataError, ErrorKind};
use crate::text::{is_blank_spec, str_eq, trim, trim_spec};
use crate::tools::form_parsing::{
    form_result, optional_i64_spec, parse_i64_optional, parse_i64_required, required_i64_spec,
    trimmed_i64,
};
use crate::tools::gui::state::{ToolsGui, ToolsGuiView};

verus! {

/// `ctx: inner`, the way the editor shows an error with a context.
pub fn with_context(ctx: &str, e: DataError) -> (r: DataError)
    ensures
        r.kind == e.kind,
        r.message@ == ctx@,
        error_text(r) == ctx@ + ": "@ + error_text(e),
{
    DataError::with_cause(e.kind, ctx.to_owned(), e.text())
}

/// What the optional "Value"-like input of a stat modifier holds.
pub open spec fn optional_input_spec(label: Seq<char>, s: Seq<char>) -> Result<Option<i64>, Seq<char>> {
    if is_blank_spec(s) {
        Ok(None)
    } else {
        match trimmed_i64(s) {
            Ok(v) => Ok(Some(v as i64)),
            Err(k) => Err(label + " must be an integer (or empty): "@ + int_error_text(k)),
        }
    }
}

/// Parses an optional integer input: blank is `None`.
pub fn parse_optional_i64_from_input(label: &str, s: &str) -> (r: Result<Option<i64>, DataError>)
    ensures
        form_result(r, optional_input_spec(label@, s@)),
{
    let t = trim(s);
    if t.is_empty() {
        return Ok(None);
    }
    match parse_int(t, -9223372036854775808, 9223372036854775807) {
        Ok(v) => Ok(Some(v)),
        Err(k) => {
            let head = concat2(label, " must be an integer (or empty): ");
            Err(DataError::new(ErrorKind::Invalid, concat2(head.as_str(), int_error_message(k))))
        },
    }
}

/// The stat a stat-choice input names (trimmed), or why not.
pub open spec fn stat_choice_spec(s: Seq<char>) -> Result<Stat, Seq<char>> {
    let t = trim_spec(s);
    if t == "Strength"@ {
        Ok(Stat::Strength)
    } else if t == "Focus"@ {
        Ok(Stat::Focus)
    } else if t == "Intelligence"@ {
        Ok(Stat::Intelligence)
    } else if t == "Knowledge"@ {
        Ok(Stat::Knowledge)
    } else if t == "Agility"@ {
        Ok(Stat::Agility)
    } else {
        Err("Stat must be one of Strength, Focus, Intelligence, Knowledge, Agility (got: "@ + t
            + ")"@)
    }
}

/// Parses a stat choice.
pub fn parse_stat_choice(s: &str) -> (r: Result<Stat, DataError>)
    ensures
        form_result(r, stat_choice_spec(s@)),
{
    let t = trim(s);
    if str_eq(t, "Strength") {
        Ok(Stat::Strength)
    } else if str_eq(t, "Focus") {
        Ok(Stat::Focus)
    } else if str_eq(t, "Intelligence") {
        Ok(Stat::Intelligence)
    } else if str_eq(t, "Knowledge") {
        Ok(Stat::Knowledge)
    } else if str_eq(t, "Agility") {
        Ok(Stat::Agility)
    } else {
        Err(
            DataError::new(
                ErrorKind::Invalid,
                concat3(
                    "Stat must be one of Strength, Focus, Intelligence, Knowledge, Agility (got: ",
                    t,
                    ")",
                ),
            ),
        )
    }
}

/// The operator an operator-choice input names (trimmed), or why not.
pub open spec fn operator_choice_spec(s: Seq<char>) -> Result<StatModifierOperator, Seq<char>> {
    let t = trim_spec(s);
    if t == "Add"@ {
        Ok(StatModifierOperator::Add)
    } else if t == "Subtract"@ {
        Ok(StatModifierOperator::Subtract)
    } else {
        Err("Operator must be Add or Subtract (got: "@ + t + ")"@)
    }
}

/// Parses a stat modifier operator choice.
pub fn parse_stat_operator_choice(s: &str) -> (r: Result<StatModifierOperator, DataError>)
    ensures
        form_result(r, operator_choice_spec(s@)),
{
    let t = trim(s);
    if str_eq(t, "Add") {
        Ok(StatModifierOperator::Add)
    } else if str_eq(t, "Subtract") {
        Ok(StatModifierOperator::Subtract)
    } else {
        Err(
            DataError::new(
                ErrorKind::Invalid,
                concat3("Operator must be Add or Subtract (got: ", t, ")"),
            ),
        )
    }
}

/// The stat modifier the draft row describes, or why not.
pub open spec fn stat_form_spec(v: ToolsGuiView) -> Result<StatModifier, Seq<char>> {
    match stat_choice_spec(v.stat_modifier_stat) {
        Err(m) => Err("Stat is required (Strength, Focus, Intelligence, Knowledge, or Agility)"@
            + ": "@ + m),
        Ok(stat) => match operator_choice_spec(v.stat_modifier_operator) {
            Err(m) => Err("Operator is required (Add or Subtract)"@ + ": "@ + m),
            Ok(operator) => match optional_input_spec("Value"@, v.stat_modifier_value) {
                Err(m) => Err(m),
                Ok(None) => Err("Value must be a number"@),
                Ok(Some(value)) => Ok(StatModifier { stat, value, operator }),
            },
        },
    }
}

/// The armor modifier draft's fields (value, suit, damage type), or why not.
pub open spec fn armor_form_spec(v: ToolsGuiView) -> Result<(i64, Suit, armor_modifier::DamageType), Seq<char>> {
    match required_i64_spec("Value"@, trim_spec(v.armor_modifier_value)) {
        Err(m) => Err(m),
        Ok(value) => match suit_from_text(trim_spec(v.armor_modifier_suit)) {
            None => Err("Invalid Suit (expected Spades, Clubs, Diamonds, or Hearts)"@ + ": "@ + (
            "Invalid suit: "@ + trim_spec(v.armor_modifier_suit))),
            Some(suit) => match damage_type_from_text(trim_spec(v.armor_modifier_damage_type)) {
                None => Err("Invalid DamageType (expected Arcane or Physical)"@ + ": "@ + (
                "Invalid damage type: "@ + trim_spec(v.armor_modifier_damage_type))),
                Some(d) => Ok((value, suit, d)),
            },
        },
    }
}

/// The unit draft's stats (strength, focus, intelligence, agility,
/// knowledge), or why not.
pub open spec fn unit_stats_spec(v: ToolsGuiView) -> Result<(i64, i64, i64, i64, i64), Seq<char>> {
    match required_i64_spec("Strength"@, v.unit_strength) {
        Err(m) => Err(m),
        Ok(s) => match required_i64_spec("Focus"@, v.unit_focus) {
            Err(m) => Err(m),
            Ok(f) => match required_i64_spec("Intelligence"@, v.unit_intelligence) {
                Err(m) => Err(m),
                Ok(i) => match required_i64_spec("Agility"@, v.unit_agility) {
                    Err(m) => Err(m),
                    Ok(a) => match required_i64_spec("Knowledge"@, v.unit_knowledge) {
                        Err(m) => Err(m),
                        Ok(k) => Ok((s, f, i, a, k)),
                    },
                },
            },
        },
    }
}

/// The action draft's point cost and type, or why not.
pub open spec fn action_core_spec(v: ToolsGuiView) -> Result<(i64, ActionType), Seq<char>> {
    match required_i64_spec("Action Point Cost"@, v.action_point_cost) {
        Err(m) => Err(m),
        Ok(cost) => {
            let t = trim_spec(v.action_type);
            if t == "Interaction"@ {
                Ok((cost, ActionType::Interaction))
            } else if t == "Attack"@ {
                Ok((cost, ActionType::Attack))
            } else {
                Err("Action Type must be `Interaction` or `Attack` (got `"@ + t + "`)"@)
            }
        },
    }
}

/// The skill a skill input names (trimmed), or why not.
pub open spec fn skill_choice_msg(t: Seq<char>) -> Seq<char> {
    "Skill must be Strength/Focus/Intelligence/Knowledge/Agility (got `"@ + t + "`)"@
}

/// The attack draft's damage, range, target, damage type and skill, or why
/// not.
pub open spec fn attack_form_spec(v: ToolsGuiView) -> Result<
    (i64, i64, i64, attack::DamageType, attack::Skill),
    Seq<char>,
> {
    match required_i64_spec("Damage"@, v.attack_damage) {
        Err(m) => Err(m),
        Ok(damage) => match required_i64_spec("Range"@, v.attack_range) {
            Err(m) => Err(m),
            Ok(range) => match required_i64_spec("Target"@, v.attack_target) {
                Err(m) => Err(m),
                Ok(target) => match attack::damage_type_from_text(trim_spec(v.attack_damage_type)) {
                    None => Err("Damage Type must be `Arcane` or `Physical` (got `"@ + trim_spec(
                        v.attack_damage_type,
                    ) + "`)"@),
                    Some(d) => match attack::skill_from_text(trim_spec(v.attack_skill)) {
                        None => Err(skill_choice_msg(trim_spec(v.attack_skill))),
                        Some(skill) => Ok((damage, range, target, d, skill)),
                    },
                },
            },
        },
    }
}

/// The interaction draft's range, target and skill, or why not.
pub open spec fn interaction_form_spec(v: ToolsGuiView) -> Result<
    (i64, Option<i64>, interaction::Skill),
    Seq<char>,
> {
    match required_i64_spec("Range"@, v.interaction_range) {
        Err(m) => Err(m),
        Ok(range) => match optional_i64_spec("Target"@, v.interaction_target) {
            Err(m) => Err(m),
            Ok(target) => match interaction::skill_from_text(trim_spec(v.interaction_skill)) {
                None => Err(skill_choice_msg(trim_spec(v.interaction_skill))),
                Some(skill) => Ok((range, target, skill)),
            },
        },
    }
}

impl ToolsGui {
    /// Reads the stat modifier draft row.
    pub fn stat_modifier_from_form(&self) -> (r: Result<StatModifier, DataError>)
        ensures
            form_result(r, stat_form_spec(self@)),
    {
        let stat = match parse_stat_choice(self.stat_modifier_stat.as_str()) {
            Ok(s) => s,
            Err(e) => {
                return Err(
                    with_context(
                        "Stat is required (Strength, Focus, Intelligence, Knowledge, or Agility)",
                        e,
                    ),
                )
            },
        };
        let operator = match parse_stat_operator_choice(self.stat_modifier_operator.as_str()) {
            Ok(o) => o,
            Err(e) => return Err(with_context("Operator is required (Add or Subtract)", e)),
        };
        match parse_optional_i64_from_input("Value", self.stat_modifier_value.as_str())? {
            Some(value) => Ok(StatModifier { stat, value, operator }),
            None => Err(DataError::new(ErrorKind::Invalid, "Value must be a number".to_owned())),
        }
    }

    /// Reads the armor modifier draft row: its value, suit and damage type.
    pub fn armor_fields_from_form(&self) -> (r: Result<(i64, Suit, armor_modifier::DamageType), DataError>)
        ensures
            form_result(r, armor_form_spec(self@)),
    {
        let value = parse_i64_required("Value", trim(self.armor_modifier_value.as_str()))?;
        let suit = match Suit::parse(trim(self.armor_modifier_suit.as_str())) {
            Ok(s) => s,
            Err(e) => {
                return Err(with_context("Invalid Suit (expected Spades, Clubs, Diamonds, or Hearts)", e))
            },
        };
        let damage_type = match armor_modifier::DamageType::parse(
            trim(self.armor_modifier_damage_type.as_str()),
        ) {
            Ok(d) => d,
            Err(e) => return Err(with_context("Invalid DamageType (expected Arcane or Physical)", e)),
        };
        Ok((value, suit, damage_type))
    }

    /// Reads the unit draft: the trimmed name and the five stats.
    pub fn unit_from_form(&self) -> (r: Result<Unit, DataError>)
        ensures
            match unit_stats_spec(self@) {
                Ok((s, f, i, a, k)) => r matches Ok(u) && u.name@ == trim_spec(self@.unit_name)
                    && u.strength == s && u.focus == f && u.intelligence == i && u.agility == a
                    && u.knowledge == k,
                Err(m) => r matches Err(e) && is_error(e, ErrorKind::Invalid, m),
            },
    {
        let name = trim(self.unit_name.as_str()).to_owned();
        let strength = parse_i64_required("Strength", self.unit_strength.as_str())?;
        let focus = parse_i64_required("Focus", self.unit_focus.as_str())?;
        let intelligence = parse_i64_required("Intelligence", self.unit_intelligence.as_str())?;
        let agility = parse_i64_required("Agility", self.unit_agility.as_str())?;
        let knowledge = parse_i64_required("Knowledge", self.unit_knowledge.as_str())?;
        Ok(Unit { name, strength, focus, intelligence, agility, knowledge })
    }

    /// Reads the action draft's point cost and type.
    pub fn action_core_from_form(&self) -> (r: Result<(i64, ActionType), DataError>)
        ensures
            form_result(r, action_core_spec(self@)),
    {
        let cost = parse_i64_required("Action Point Cost", self.action_point_cost.as_str())?;
        let t = trim(self.action_type.as_str());
        if str_eq(t, "Interaction") {
            Ok((cost, ActionType::Interaction))
        } else if str_eq(t, "Attack") {
            Ok((cost, ActionType::Attack))
        } else {
            Err(
                DataError::new(
                    ErrorKind::Invalid,
                    concat3("Action Type must be `Interaction` or `Attack` (got `", t, "`)"),
                ),
            )
        }
    }

    /// Reads the attack draft.
    pub fn attack_fields_from_form(&self) -> (r: Result<
        (i64, i64, i64, attack::DamageType, attack::Skill),
        DataError,
    >)
        ensures
            form_result(r, attack_form_spec(self@)),
    {
        let damage = parse_i64_required("Damage", self.attack_damage.as_str())?;
        let range = parse_i64_required("Range", self.attack_range.as_str())?;
        let target = parse_i64_required("Target", self.attack_target.as_str())?;
        let dt = trim(self.attack_damage_type.as_str());
        let damage_type = match attack::DamageType::parse(dt) {
            Ok(d) => d,
            Err(_) => {
                return Err(
                    DataError::new(
                        ErrorKind::Invalid,
                        concat3("Damage Type must be `Arcane` or `Physical` (got `", dt, "`)"),
                    ),
                )
            },
        };
        let st = trim(self.attack_skill.as_str());
        let skill = match attack::Skill::parse(st) {
            Ok(s) => s,
            Err(_) => {
                return Err(
                    DataError::new(
                        ErrorKind::Invalid,
                        concat3(
                            "Skill must be Strength/Focus/Intelligence/Knowledge/Agility (got `",
                            st,
                            "`)",
                        ),
                    ),
                )
            },
        };
        Ok((damage, range, target, damage_type, skill))
    }

    /// Reads the interaction draft.
    pub fn interaction_fields_from_form(&self) -> (r: Result<
        (i64, Option<i64>, interaction::Skill),
        DataError,
    >)
        ensures
            form_result(r, interaction_form_spec(self@)),
    {
        let range = parse_i64_required("Range", self.interaction_range.as_str())?;
        let target = parse_i64_optional("Target", self.interaction_target.as_str())?;
        let st = trim(self.interaction_skill.as_str());
        let skill = match interaction::Skill::parse(st) {
            Ok(s) => s,
            Err(_) => {
                return Err(
                    DataError::new(
                        ErrorKind::Invalid,
                        concat3(
                            "Skill must be Strength/Focus/Intelligence/Knowledge/Agility (got `",
                            st,
                            "`)",
                        ),
                    ),
                )
            },
        };
        Ok((range, target, skill))
    }

    /// The action the create form describes: the trimmed name and text, with
    /// the parsed point cost and type.
    pub fn action_from_form(&self) -> (r: Result<Action, DataError>)
        ensures
            match action_core_spec(self@) {
                Err(m) => r matches Err(e) && is_error(e, ErrorKind::Invalid, m),
                Ok((cost, t)) => r matches Ok(a) && a.name@ == trim_spec(self@.action_name) && a.text@
                    == trim_spec(self@.action_text) && a.action_point_cost == cost && a.action_type
                    == t,
            },
    {
        let (action_point_cost, action_type) = self.action_core_from_form()?;
        let name = trim(self.action_name.as_str()).to_owned();
        let text = trim(self.action_text.as_str()).to_owned();
        Ok(Action { name, action_point_cost, action_type, text })
    }

    /// The attack the attack form describes, for action `action_name`.
    pub fn attack_from_form(&self, action_name: String) -> (r: Result<attack::Attack, DataError>)
        ensures
            match attack_form_spec(self@) {
                Err(m) => r matches Err(e) && is_error(e, ErrorKind::Invalid, m),
                Ok((damage, range, target, damage_type, skill)) => r matches Ok(a) && a
                    == (attack::Attack { action_name, damage, damage_type, skill, target, range }),
            },
    {
        let (damage, range, target, damage_type, skill) = self.attack_fields_from_form()?;
        Ok(attack::Attack { action_name, damage, damage_type, skill, target, range })
    }

    /// The interaction the interaction form describes, for action
    /// `action_name`.
    pub fn interaction_from_form(&self, action_name: String) -> (r: Result<interaction::Interaction, DataError>)
        ensures
            match interaction_form_spec(self@) {
                Err(m) => r matches Err(e) && is_error(e, ErrorKind::Invalid, m),
                Ok((range, target, skill)) => r matches Ok(a) && a == (interaction::Interaction {
                    action_name,
                    range,
                    skill,
                    target,
                }),
            },
    {
        let (range, target, skill) = self.interaction_fields_from_form()?;
        Ok(interaction::Interaction { action_name, range, skill, target })
    }
}

} // verus!
