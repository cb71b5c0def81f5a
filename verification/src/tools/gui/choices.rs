//! The "Add Action" pickers of the unit, item and level forms: which
//! action names they offer for what the user typed, in which order, and
//! which name is selected.

use vstd::prelude::*;
use vstd::relations::{sorted_by, total_ordering};
use crate::text::{chars_of, contains_spec, contains_text, trim, trim_spec};
use crate::tools::gui::matching::{normalize_for_match, normalized};
use crate::tools::gui::types::ActionRow;

verus! {

broadcast use {vstd::seq_lib::to_multiset_insert, vstd::seq_lib::group_to_multiset_ensures};

/// Texts in code-point order, which is the order of `str`'s `Ord` (UTF-8
/// keeps the order of code points).
pub open spec fn text_le(a: Seq<char>, b: Seq<char>) -> bool
    decreases a.len(),
{
    if a.len() == 0 {
        true
    } else if b.len() == 0 {
        false
    } else if a[0] == b[0] {
        text_le(a.drop_first(), b.drop_first())
    } else {
        (a[0] as u32) < (b[0] as u32)
    }
}

/// `text_le` as a relation.
pub open spec fn text_order() -> spec_fn(Seq<char>, Seq<char>) -> bool {
    |a: Seq<char>, b: Seq<char>| text_le(a, b)
}

proof fn lemma_text_le_reflexive(a: Seq<char>)
    ensures
        text_le(a, a),
    decreases a.len(),
{
    if a.len() > 0 {
        lemma_text_le_reflexive(a.drop_first());
    }
}

proof fn lemma_text_le_antisymmetric(a: Seq<char>, b: Seq<char>)
    requires
        text_le(a, b),
        text_le(b, a),
    ensures
        a == b,
    decreases a.len(),
{
    if a.len() > 0 && b.len() > 0 {
        if a[0] == b[0] {
            lemma_text_le_antisymmetric(a.drop_first(), b.drop_first());
            assert(a =~= seq![a[0]] + a.drop_first());
            assert(b =~= seq![b[0]] + b.drop_first());
        }
    }
    assert(a =~= b);
}

proof fn lemma_text_le_transitive(a: Seq<char>, b: Seq<char>, c: Seq<char>)
    requires
        text_le(a, b),
        text_le(b, c),
    ensures
        text_le(a, c),
    decreases a.len(),
{
    if a.len() > 0 && b.len() > 0 && c.len() > 0 {
        if a[0] == b[0] && b[0] == c[0] {
            lemma_text_le_transitive(a.drop_first(), b.drop_first(), c.drop_first());
        }
    }
}

proof fn lemma_text_le_total(a: Seq<char>, b: Seq<char>)
    ensures
        text_le(a, b) || text_le(b, a),
    decreases a.len(),
{
    if a.len() > 0 && b.len() > 0 {
        if a[0] == b[0] {
            lemma_text_le_total(a.drop_first(), b.drop_first());
        } else {
            vstd::utf8::char_u32_cast(a[0], a[0] as u32);
            vstd::utf8::char_u32_cast(b[0], b[0] as u32);
        }
    }
}

/// Code-point order is a total order.
pub proof fn lemma_text_order_total()
    ensures
        total_ordering(text_order()),
{
    assert forall|a: Seq<char>| #[trigger] text_order()(a, a) by {
        lemma_text_le_reflexive(a);
    }
    assert forall|a: Seq<char>, b: Seq<char>|
        #[trigger] text_order()(a, b) && #[trigger] text_order()(b, a) implies a == b by {
        lemma_text_le_antisymmetric(a, b);
    }
    assert forall|a: Seq<char>, b: Seq<char>, c: Seq<char>|
        #[trigger] text_order()(a, b) && #[trigger] text_order()(b, c) implies text_order()(
        a,
        c,
    ) by {
        lemma_text_le_transitive(a, b, c);
    }
    assert forall|a: Seq<char>, b: Seq<char>|
        #[trigger] text_order()(a, b) || #[trigger] text_order()(b, a) by {
        lemma_text_le_total(a, b);
    }
}

/// Whether `a` comes no later than `b` in code-point order.
pub fn text_le_exec(a: &str, b: &str) -> (r: bool)
    ensures
        r == text_le(a@, b@),
{
    let av = chars_of(a);
    let bv = chars_of(b);
    let mut i: usize = 0;
    assert(a@.skip(0) =~= a@ && b@.skip(0) =~= b@);
    while i < av.len() && i < bv.len() && av[i] == bv[i]
        invariant
            av@ == a@,
            bv@ == b@,
            i <= av@.len(),
            i <= bv@.len(),
            text_le(a@, b@) == text_le(a@.skip(i as int), b@.skip(i as int)),
        decreases av@.len() - i,
    {
        proof {
            assert(a@.skip(i as int).drop_first() =~= a@.skip(i + 1));
            assert(b@.skip(i as int).drop_first() =~= b@.skip(i + 1));
        }
        i = i + 1;
    }
    if i == av.len() {
        true
    } else if i == bv.len() {
        false
    } else {
        assert(a@.skip(i as int)[0] == av@[i as int]);
        assert(b@.skip(i as int)[0] == bv@[i as int]);
        (av[i] as u32) < (bv[i] as u32)
    }
}

/// Whether a picker offers name `n` for the typed text `filter`: the
/// trimmed, lower-cased name contains the trimmed, lower-cased filter (so
/// a blank filter offers every name).
pub open spec fn offered(filter: Seq<char>) -> spec_fn(Seq<char>) -> bool {
    |n: Seq<char>| contains_spec(normalized(n), normalized(filter))
}

/// The names of a list of actions.
pub open spec fn action_names(actions: Seq<ActionRow>) -> Seq<Seq<char>> {
    actions.map_values(|a: ActionRow| a.name@)
}

/// The texts of a list of strings.
pub open spec fn texts(v: Seq<String>) -> Seq<Seq<char>> {
    v.map_values(|s: String| s@)
}

/// Whether a picker offers `name` for the typed text `filter`.
fn offers(filter_norm: &str, name: &str) -> (r: bool)
    ensures
        filter_norm@.len() == 0 ==> r,
        filter_norm@.len() > 0 ==> r == contains_spec(normalized(name@), filter_norm@),
{
    if filter_norm.is_empty() {
        true
    } else {
        let n = normalize_for_match(name);
        let r = contains_text(n.as_str(), filter_norm);
        assert(n@ == normalized(name@));
        r
    }
}

/// The action names an "Add Action" picker offers for the typed text
/// `filter`: the names that match it (see `offered`), in code-point order.
pub fn action_choices(actions: &Vec<ActionRow>, filter: &str) -> (r: Vec<String>)
    ensures
        texts(r@) == action_names(actions@).filter(offered(filter@)).sort_by(text_order()),
{
    let f = normalize_for_match(filter);
    let ghost pred = offered(filter@);
    let ghost names = action_names(actions@);
    let mut out: Vec<String> = Vec::new();
    let mut i: usize = 0;
    proof {
        reveal(Seq::filter);
        assert(texts(out@) =~= Seq::<Seq<char>>::empty());
        assert(names.subrange(0, 0).filter(pred) =~= Seq::<Seq<char>>::empty());
    }
    while i < actions.len()
        invariant
            i <= actions@.len(),
            f@ == normalized(filter@),
            pred == offered(filter@),
            names == action_names(actions@),
            sorted_by(texts(out@), text_order()),
            texts(out@).to_multiset() == names.subrange(0, i as int).filter(pred).to_multiset(),
        decreases actions@.len() - i,
    {
        let name = &actions[i].name;
        proof {
            reveal(Seq::filter);
            assert(names.subrange(0, i + 1).drop_last() =~= names.subrange(0, i as int));
            assert(names.subrange(0, i + 1).last() == name@);
            if f@.len() == 0 {
                assert(normalized(name@).subrange(0, 0 + f@.len() as int) =~= f@);
                assert(contains_spec(normalized(name@), f@));
            }
        }
        let hit = offers(f.as_str(), name.as_str());
        let ghost prev_out = texts(out@);
        assert(hit == pred(name@));
        if hit {
            let mut pos: usize = 0;
            while pos < out.len() && text_le_exec(out[pos].as_str(), name.as_str())
                invariant
                    pos <= out@.len(),
                    forall|k: int| 0 <= k < pos ==> text_le(#[trigger] out@[k]@, name@),
                decreases out@.len() - pos,
            {
                pos = pos + 1;
            }
            let ghost old_texts = texts(out@);
            proof {
                lemma_text_order_total();
                if pos < out@.len() {
                    lemma_text_le_total(out@[pos as int]@, name@);
                    assert forall|k: int| pos <= k < old_texts.len() implies text_le(
                        name@,
                        #[trigger] old_texts[k],
                    ) by {
                        if k > pos {
                            assert(text_order()(old_texts[pos as int], old_texts[k]));
                            lemma_text_le_transitive(name@, old_texts[pos as int], old_texts[k]);
                        }
                    }
                }
            }
            out.insert(pos, name.clone());
            proof {
                assert(texts(out@) =~= old_texts.insert(pos as int, name@));
                assert(texts(out@).to_multiset() == old_texts.to_multiset().insert(name@));
                let nt = texts(out@);
                assert forall|a: int, b: int| 0 <= a < b < nt.len() implies #[trigger] text_order()(
                    nt[a],
                    nt[b],
                ) by {
                    if b < pos {
                        assert(text_order()(old_texts[a], old_texts[b]));
                    } else if b == pos {
                        assert(text_le(old_texts[a], name@));
                    } else if a < pos {
                        assert(text_le(old_texts[a], name@));
                        assert(text_le(name@, old_texts[b - 1]));
                        lemma_text_le_transitive(old_texts[a], name@, old_texts[b - 1]);
                    } else if a == pos {
                        assert(text_le(name@, old_texts[b - 1]));
                    } else {
                        assert(text_order()(old_texts[a - 1], old_texts[b - 1]));
                    }
                }
            }
        }
        proof {
            let prev = names.subrange(0, i as int).filter(pred);
            if hit {
                assert(names.subrange(0, i + 1).filter(pred) == prev.push(name@));
                assert(prev.push(name@).to_multiset() =~= prev.to_multiset().insert(name@));
            } else {
                assert(names.subrange(0, i + 1).filter(pred) == prev);
                assert(texts(out@) == prev_out);
            }
        }
        i = i + 1;
    }
    proof {
        assert(names.subrange(0, i as int) =~= names);
        let filtered = names.filter(pred);
        lemma_text_order_total();
        filtered.lemma_sort_by_ensures(text_order());
        vstd::seq_lib::lemma_sorted_unique(texts(out@), filtered.sort_by(text_order()), text_order());
    }
    out
}

/// The action name selected in a picker: the trimmed typed text, if any.
pub fn selected_choice(typed: &str) -> (r: Option<String>)
    ensures
        trim_spec(typed@).len() == 0 ==> r is None,
        trim_spec(typed@).len() > 0 ==> (r matches Some(s) && s@ == trim_spec(typed@)),
{
    let t = trim(typed);
    if t.is_empty() {
        None
    } else {
        Some(t.to_owned())
    }
}

} // verus!
