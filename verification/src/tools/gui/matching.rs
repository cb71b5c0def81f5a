//! Case-insensitive name matching for the editor's search boxes, and the
//! small texts its lists show.

use vstd::prelude::*;
use vstd::utf8::{decode_utf8, encode_utf8, is_char_boundary};
use crate::cards::action::{action_type_from_text, ActionType};
use crate::cards::attack;
use crate::num::parse_int;
use crate::shared::{concat2, concat3};
use crate::text::{
    contains_spec, contains_text, is_blank, is_blank_spec, lowercase_of, opt_text, str_eq,
    to_lowercase, trim, trim_spec,
};
use crate::tools::gui::types::ArmorModifierRow;
use crate::tools::gui::update::pos_dim;

verus! {

/// A text as the search boxes compare it: trimmed, then lower-cased.
pub open spec fn normalized(s: Seq<char>) -> Seq<char> {
    lowercase_of(trim_spec(s))
}

/// Trims and lower-cases a text for matching.
pub fn normalize_for_match(s: &str) -> (r: String)
    ensures
        r@ == normalized(s@),
{
    to_lowercase(trim(s))
}

/// Whether `needle` occurs in `haystack`, ignoring case and surrounding
/// whitespace; a blank needle matches everything.
pub fn contains_case_insensitive(haystack: &str, needle: &str) -> (r: bool)
    ensures
        r == (is_blank_spec(needle@) || contains_spec(normalized(haystack@), normalized(needle@))),
{
    if is_blank(needle) {
        return true;
    }
    let h = normalize_for_match(haystack);
    let n = normalize_for_match(needle);
    contains_text(h.as_str(), n.as_str())
}

/// A positive grid dimension typed into a form, if the input is one.
pub fn parse_dim(s: &str) -> (r: Option<i32>)
    ensures
        r == pos_dim(s@),
{
    let t = trim(s);
    match parse_int(t, -2147483648, 2147483647) {
        Ok(v) => if v > 0 {
            Some(v as i32)
        } else {
            None
        },
        Err(_) => None,
    }
}

/// The association line of an armor modifier in the list.
pub open spec fn association_label_spec(item: Option<Seq<char>>, level: Option<Seq<char>>) -> Seq<char> {
    match (item, level) {
        (Some(i), None) => "Associated Item: "@ + i,
        (None, Some(l)) => "Associated Level: "@ + l,
        (None, None) => "Associated: (none)"@,
        (Some(i), Some(l)) => "Associated: INVALID (item="@ + i + ", level="@ + l + ")"@,
    }
}

/// The association line of an armor modifier in the list.
pub fn association_label(am: &ArmorModifierRow) -> (r: String)
    ensures
        r@ == association_label_spec(opt_text(am.item_name), opt_text(am.level_name)),
{
    match (&am.item_name, &am.level_name) {
        (Some(item), None) => concat2("Associated Item: ", item.as_str()),
        (None, Some(level)) => concat2("Associated Level: ", level.as_str()),
        (None, None) => "Associated: (none)".to_owned(),
        (Some(item), Some(level)) => {
            let head = concat3("Associated: INVALID (item=", item.as_str(), ", level=");
            concat3(head.as_str(), level.as_str(), ")")
        },
    }
}

/// The suits the armor modifier form offers, in order.
pub fn suit_choices() -> (r: Vec<String>)
    ensures
        r@.len() == 4,
        r@[0]@ == "Spades"@,
        r@[1]@ == "Clubs"@,
        r@[2]@ == "Diamonds"@,
        r@[3]@ == "Hearts"@,
{
    vec!["Spades".to_owned(), "Clubs".to_owned(), "Diamonds".to_owned(), "Hearts".to_owned()]
}

/// The damage types the armor modifier form offers, in order.
pub fn damage_type_choices() -> (r: Vec<String>)
    ensures
        r@.len() == 2,
        r@[0]@ == "Physical"@,
        r@[1]@ == "Arcane"@,
{
    vec!["Physical".to_owned(), "Arcane".to_owned()]
}

/// The damage type choices of the attack form.
#[derive(Debug, Clone, Copy, PartialEq, Eq, Structural)]
pub enum DamageTypeChoice {
    Arcane,
    Physical,
}

impl DamageTypeChoice {
    pub fn label(self) -> (r: &'static str)
        ensures
            r@ == attack::damage_type_text(
                match self {
                    DamageTypeChoice::Arcane => attack::DamageType::Arcane,
                    DamageTypeChoice::Physical => attack::DamageType::Physical,
                },
            ),
    {
        match self {
            DamageTypeChoice::Arcane => "Arcane",
            DamageTypeChoice::Physical => "Physical",
        }
    }

    pub fn all() -> (r: [DamageTypeChoice; 2])
        ensures
            r@ == seq![DamageTypeChoice::Arcane, DamageTypeChoice::Physical],
    {
        [DamageTypeChoice::Arcane, DamageTypeChoice::Physical]
    }

    /// The choice a (trimmed) text names.
    pub fn from_str(s: &str) -> (r: Option<DamageTypeChoice>)
        ensures
            r == match attack::damage_type_from_text(trim_spec(s@)) {
                Some(attack::DamageType::Arcane) => Some(DamageTypeChoice::Arcane),
                Some(attack::DamageType::Physical) => Some(DamageTypeChoice::Physical),
                None => None::<DamageTypeChoice>,
            },
    {
        let t = trim(s);
        if str_eq(t, "Arcane") {
            Some(DamageTypeChoice::Arcane)
        } else if str_eq(t, "Physical") {
            Some(DamageTypeChoice::Physical)
        } else {
            None
        }
    }
}

/// The skill choices of the attack and interaction forms.
#[derive(Debug, Clone, Copy, PartialEq, Eq, Structural)]
pub enum SkillChoice {
    Strength,
    Focus,
    Intelligence,
    Knowledge,
    Agility,
}

/// The skill a choice stands for.
pub open spec fn skill_of_choice(c: SkillChoice) -> attack::Skill {
    match c {
        SkillChoice::Strength => attack::Skill::Strength,
        SkillChoice::Focus => attack::Skill::Focus,
        SkillChoice::Intelligence => attack::Skill::Intelligence,
        SkillChoice::Knowledge => attack::Skill::Knowledge,
        SkillChoice::Agility => attack::Skill::Agility,
    }
}

impl SkillChoice {
    pub fn label(self) -> (r: &'static str)
        ensures
            r@ == attack::skill_text(skill_of_choice(self)),
    {
        match self {
            SkillChoice::Strength => "Strength",
            SkillChoice::Focus => "Focus",
            SkillChoice::Intelligence => "Intelligence",
            SkillChoice::Knowledge => "Knowledge",
            SkillChoice::Agility => "Agility",
        }
    }

    pub fn all() -> (r: [SkillChoice; 5])
        ensures
            r@ == seq![
                SkillChoice::Strength,
                SkillChoice::Focus,
                SkillChoice::Intelligence,
                SkillChoice::Knowledge,
                SkillChoice::Agility,
            ],
    {
        [
            SkillChoice::Strength,
            SkillChoice::Focus,
            SkillChoice::Intelligence,
            SkillChoice::Knowledge,
            SkillChoice::Agility,
        ]
    }

    /// The choice a (trimmed) text names.
    pub fn from_str(s: &str) -> (r: Option<SkillChoice>)
        ensures
            match attack::skill_from_text(trim_spec(s@)) {
                Some(k) => r matches Some(c) && skill_of_choice(c) == k,
                None => r is None,
            },
    {
        let t = trim(s);
        if str_eq(t, "Strength") {
            Some(SkillChoice::Strength)
        } else if str_eq(t, "Focus") {
            Some(SkillChoice::Focus)
        } else if str_eq(t, "Intelligence") {
            Some(SkillChoice::Intelligence)
        } else if str_eq(t, "Knowledge") {
            Some(SkillChoice::Knowledge)
        } else if str_eq(t, "Agility") {
            Some(SkillChoice::Agility)
        } else {
            None
        }
    }
}

/// The action type choices of the action form.
#[derive(Debug, Clone, Copy, PartialEq, Eq, Structural)]
pub enum ActionTypeChoice {
    Interaction,
    Attack,
}

/// The action type a choice stands for.
pub open spec fn type_of_choice(c: ActionTypeChoice) -> ActionType {
    match c {
        ActionTypeChoice::Interaction => ActionType::Interaction,
        ActionTypeChoice::Attack => ActionType::Attack,
    }
}

impl ActionTypeChoice {
    pub fn label(self) -> (r: &'static str)
        ensures
            r@ == crate::cards::action::action_type_text(type_of_choice(self)),
    {
        match self {
            ActionTypeChoice::Interaction => "Interaction",
            ActionTypeChoice::Attack => "Attack",
        }
    }

    pub fn all() -> (r: [ActionTypeChoice; 2])
        ensures
            r@ == seq![ActionTypeChoice::Interaction, ActionTypeChoice::Attack],
    {
        [ActionTypeChoice::Interaction, ActionTypeChoice::Attack]
    }

    /// The choice a (trimmed) text names.
    pub fn from_str(s: &str) -> (r: Option<ActionTypeChoice>)
        ensures
            match action_type_from_text(trim_spec(s@)) {
                Some(k) => r matches Some(c) && type_of_choice(c) == k,
                None => r is None,
            },
    {
        let t = trim(s);
        if str_eq(t, "Interaction") {
            Some(ActionTypeChoice::Interaction)
        } else if str_eq(t, "Attack") {
            Some(ActionTypeChoice::Attack)
        } else {
            None
        }
    }
}

/// A character of a one-line preview: line breaks read as spaces.
pub open spec fn preview_char(c: char) -> char {
    if c == '\n' || c == '\r' {
        ' '
    } else {
        c
    }
}

/// `s` on one line: line breaks become spaces, and each run of spaces is
/// one space.
pub open spec fn one_line(s: Seq<char>) -> Seq<char>
    decreases s.len(),
{
    if s.len() == 0 {
        Seq::empty()
    } else {
        let prev = one_line(s.drop_last());
        let c = preview_char(s.last());
        if c == ' ' && prev.len() > 0 && prev.last() == ' ' {
            prev
        } else {
            prev.push(c)
        }
    }
}

/// The longest preview, in UTF-8 bytes, before it is cut.
pub const PREVIEW_MAX_BYTES: usize = 120;

/// The preview of a level's text in the list: `"(empty)"` for a blank
/// text; otherwise the trimmed text on one line, cut after its first 120
/// bytes with `"…"` appended when it is longer.
pub open spec fn preview_spec(s: Seq<char>) -> Seq<char> {
    let t = trim_spec(s);
    let o = one_line(t);
    if t.len() == 0 {
        "(empty)"@
    } else if encode_utf8(o).len() > PREVIEW_MAX_BYTES {
        decode_utf8(encode_utf8(o).subrange(0, PREVIEW_MAX_BYTES as int)) + "…"@
    } else {
        o
    }
}

/// Whether the preview of `s` can be cut after 120 bytes: the cut falls
/// between two characters, or the text is short enough not to be cut.
pub open spec fn preview_cut_ok(s: Seq<char>) -> bool {
    let o = one_line(trim_spec(s));
    encode_utf8(o).len() > PREVIEW_MAX_BYTES ==> is_char_boundary(
        encode_utf8(o),
        PREVIEW_MAX_BYTES as int,
    )
}

/// The one-line preview of a level's text (see `preview_spec`).
pub fn preview_text(s: &str) -> (r: String)
    requires
        preview_cut_ok(s@),
    ensures
        r@ == preview_spec(s@),
{
    let t = trim(s);
    if t.is_empty() {
        return "(empty)".to_owned();
    }
    let n = t.unicode_len();
    let mut out = String::new();
    let mut last_space = false;
    let mut i: usize = 0;
    while i < n
        invariant
            n == t@.len(),
            i <= n,
            out@ == one_line(t@.subrange(0, i as int)),
            last_space == (out@.len() > 0 && out@.last() == ' '),
        decreases n - i,
    {
        let c = t.get_char(i);
        proof {
            assert(t@.subrange(0, i + 1).drop_last() =~= t@.subrange(0, i as int));
            assert(t@.subrange(0, i + 1).last() == c);
        }
        if c == '\n' || c == '\r' || c == ' ' {
            if !last_space {
                out.append(" ");
                proof {
                    reveal_strlit(" ");
                }
                last_space = true;
            }
        } else {
            let piece = t.substring_char(i, i + 1);
            proof {
                assert(piece@ =~= seq![c]);
            }
            out.append(piece);
            last_space = false;
        }
        i = i + 1;
    }
    proof {
        assert(t@.subrange(0, n as int) =~= t@);
    }
    let whole = out.as_str();
    assert(whole@ == out@);
    let bytes = whole.as_bytes();
    if bytes.len() > PREVIEW_MAX_BYTES {
        let (head, _rest) = whole.split_at(PREVIEW_MAX_BYTES);
        proof {
            vstd::utf8::encode_utf8_decode_utf8(head@);
            assert(head@ == decode_utf8(encode_utf8(out@).subrange(0, PREVIEW_MAX_BYTES as int)));
        }
        concat2(head, "…")
    } else {
        out.clone()
    }
}

} // verus!
