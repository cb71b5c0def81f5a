//! Text helpers over `&str`: whitespace trimming and exact comparison.
//!
//! Whitespace follows the Unicode `White_Space` property, which is what
//! `char::is_whitespace` and `str::trim` use.

use vstd::prelude::*;

verus! {

/// The Unicode `White_Space` code points.
pub open spec fn is_ws(c: char) -> bool {
    let u = c as u32;
    ||| (0x9 <= u && u <= 0xd)
    ||| u == 0x20
    ||| u == 0x85
    ||| u == 0xa0
    ||| u == 0x1680
    ||| (0x2000 <= u && u <= 0x200a)
    ||| u == 0x2028
    ||| u == 0x2029
    ||| u == 0x202f
    ||| u == 0x205f
    ||| u == 0x3000
}

/// `s` without its leading whitespace.
pub open spec fn trim_start_spec(s: Seq<char>) -> Seq<char>
    decreases s.len(),
{
    if s.len() > 0 && is_ws(s[0]) {
        trim_start_spec(s.drop_first())
    } else {
        s
    }
}

/// `s` without its trailing whitespace.
pub open spec fn trim_end_spec(s: Seq<char>) -> Seq<char>
    decreases s.len(),
{
    if s.len() > 0 && is_ws(s.last()) {
        trim_end_spec(s.drop_last())
    } else {
        s
    }
}

/// `s` without leading and trailing whitespace.
pub open spec fn trim_spec(s: Seq<char>) -> Seq<char> {
    trim_end_spec(trim_start_spec(s))
}

/// Every character of `s` is whitespace (so `s` trims to nothing).
pub open spec fn all_ws(s: Seq<char>) -> bool {
    forall|k: int| 0 <= k < s.len() ==> is_ws(#[trigger] s[k])
}

/// `s` trims to the empty text.
pub open spec fn is_blank_spec(s: Seq<char>) -> bool {
    trim_spec(s).len() == 0
}

proof fn lemma_trim_start_at(s: Seq<char>, i: int)
    requires
        0 <= i <= s.len(),
        forall|k: int| 0 <= k < i ==> is_ws(#[trigger] s[k]),
        i == s.len() || !is_ws(s[i]),
    ensures
        trim_start_spec(s) == s.subrange(i, s.len() as int),
    decreases i,
{
    if i == 0 {
        assert(s.subrange(0, s.len() as int) =~= s);
    } else {
        let t = s.drop_first();
        assert forall|k: int| 0 <= k < i - 1 implies is_ws(#[trigger] t[k]) by {
            assert(t[k] == s[k + 1]);
        }
        if i < s.len() {
            assert(t[i - 1] == s[i]);
        }
        lemma_trim_start_at(t, i - 1);
        assert(t.subrange(i - 1, t.len() as int) =~= s.subrange(i, s.len() as int));
    }
}

proof fn lemma_trim_end_at(s: Seq<char>, j: int)
    requires
        0 <= j <= s.len(),
        forall|k: int| j <= k < s.len() ==> is_ws(#[trigger] s[k]),
        j == 0 || !is_ws(s[j - 1]),
    ensures
        trim_end_spec(s) == s.subrange(0, j),
    decreases s.len() - j,
{
    if j == s.len() {
        assert(s.subrange(0, j) =~= s);
    } else {
        let t = s.drop_last();
        assert forall|k: int| j <= k < t.len() implies is_ws(#[trigger] t[k]) by {
            assert(t[k] == s[k]);
        }
        if j > 0 {
            assert(t[j - 1] == s[j - 1]);
        }
        lemma_trim_end_at(t, j);
        assert(t.subrange(0, j) =~= s.subrange(0, j));
    }
}

/// A text that neither starts nor ends with whitespace trims to itself.
pub proof fn lemma_trim_keeps(s: Seq<char>)
    requires
        s.len() > 0,
        !is_ws(s[0]),
        !is_ws(s.last()),
    ensures
        trim_spec(s) == s,
        !is_blank_spec(s),
{
    lemma_trim_start_at(s, 0);
    assert(s.subrange(0, s.len() as int) =~= s);
    lemma_trim_end_at(s, s.len() as int);
}

/// A text trims to nothing exactly when all its characters are whitespace.
pub proof fn lemma_blank_iff_all_ws(s: Seq<char>)
    ensures
        is_blank_spec(s) <==> all_ws(s),
    decreases s.len(),
{
    if s.len() > 0 && is_ws(s[0]) {
        let t = s.drop_first();
        lemma_blank_iff_all_ws(t);
        assert(trim_spec(s) == trim_spec(t));
        if all_ws(t) {
            assert forall|k: int| 0 <= k < s.len() implies is_ws(#[trigger] s[k]) by {
                if k > 0 {
                    assert(s[k] == t[k - 1]);
                }
            }
        }
        if all_ws(s) {
            assert forall|k: int| 0 <= k < t.len() implies is_ws(#[trigger] t[k]) by {
                assert(t[k] == s[k + 1]);
            }
        }
    } else if s.len() > 0 {
        // first character is not whitespace: it survives trimming
        assert(trim_start_spec(s) == s);
        lemma_trim_end_keeps_first(s);
        assert(!is_ws(s[0]));
    }
}

proof fn lemma_trim_end_keeps_first(s: Seq<char>)
    requires
        s.len() > 0,
        !is_ws(s[0]),
    ensures
        trim_end_spec(s).len() > 0,
    decreases s.len(),
{
    if is_ws(s.last()) {
        assert(s.len() > 1);
        let t = s.drop_last();
        assert(t[0] == s[0]);
        lemma_trim_end_keeps_first(t);
    }
}

/// The text of an optional string.
pub open spec fn opt_text(o: Option<String>) -> Option<Seq<char>> {
    match o {
        Some(s) => Some(s@),
        None => None,
    }
}

/// Whether `c` is Unicode whitespace.
pub fn is_whitespace(c: char) -> (r: bool)
    ensures
        r == is_ws(c),
{
    let u = c as u32;
    (0x9 <= u && u <= 0xd) || u == 0x20 || u == 0x85 || u == 0xa0 || u == 0x1680 || (0x2000 <= u
        && u <= 0x200a) || u == 0x2028 || u == 0x2029 || u == 0x202f || u == 0x205f || u == 0x3000
}

/// `s` with leading and trailing whitespace removed.
pub fn trim(s: &str) -> (r: &str)
    ensures
        r@ == trim_spec(s@),
{
    let n = s.unicode_len();
    let mut i: usize = 0;
    while i < n && is_whitespace(s.get_char(i))
        invariant
            n == s@.len(),
            0 <= i <= n,
            forall|k: int| 0 <= k < i ==> is_ws(#[trigger] s@[k]),
        decreases n - i,
    {
        i = i + 1;
    }
    proof {
        lemma_trim_start_at(s@, i as int);
    }
    let mut j: usize = n;
    while j > i && is_whitespace(s.get_char(j - 1))
        invariant
            n == s@.len(),
            0 <= i <= j <= n,
            forall|k: int| j <= k < n ==> is_ws(#[trigger] s@[k]),
            i == n || !is_ws(s@[i as int]),
        decreases j,
    {
        j = j - 1;
    }
    proof {
        let t = s@.subrange(i as int, n as int);
        let jj = j - i;
        assert forall|k: int| jj <= k < t.len() implies is_ws(#[trigger] t[k]) by {
            assert(t[k] == s@[k + i]);
        }
        if jj > 0 {
            assert(t[jj - 1] == s@[j - 1]);
            if j == i + 1 {
                assert(!is_ws(s@[i as int]));
            }
        }
        lemma_trim_end_at(t, jj as int);
        assert(t.subrange(0, jj as int) =~= s@.subrange(i as int, j as int));
    }
    s.substring_char(i, j)
}

/// Whether `s` is empty once trimmed.
pub fn is_blank(s: &str) -> (r: bool)
    ensures
        r == is_blank_spec(s@),
        r == all_ws(s@),
{
    proof {
        lemma_blank_iff_all_ws(s@);
    }
    trim(s).is_empty()
}

/// The trimmed text of `s`, as an owned string.
pub fn trimmed(s: &str) -> (r: String)
    ensures
        r@ == trim_spec(s@),
{
    trim(s).to_owned()
}

/// Exact equality of two texts.
pub fn str_eq(a: &str, b: &str) -> (r: bool)
    ensures
        r == (a@ == b@),
{
    let x = a.to_owned();
    let y = b.to_owned();
    x == y
}

/// `needle` occurs in `hay` as a contiguous run of characters.
pub open spec fn contains_spec(hay: Seq<char>, needle: Seq<char>) -> bool {
    exists|i: int|
        0 <= i && i + needle.len() <= hay.len() && #[trigger] hay.subrange(i, i + needle.len())
            == needle
}

/// The characters of `s`.
pub fn chars_of(s: &str) -> (v: Vec<char>)
    ensures
        v@ == s@,
{
    let n = s.unicode_len();
    let mut v: Vec<char> = Vec::new();
    let mut i: usize = 0;
    while i < n
        invariant
            n == s@.len(),
            i <= n,
            v@ == s@.subrange(0, i as int),
        decreases n - i,
    {
        v.push(s.get_char(i));
        i = i + 1;
        assert(v@ =~= s@.subrange(0, i as int));
    }
    assert(v@ =~= s@);
    v
}

/// Whether `hay[start..start + needle.len()]` equals `needle`.
fn matches_at(hay: &Vec<char>, needle: &Vec<char>, start: usize) -> (r: bool)
    requires
        start + needle@.len() <= hay@.len(),
    ensures
        r == (hay@.subrange(start as int, start + needle@.len()) == needle@),
{
    let m = needle.len();
    let hl = hay.len();
    let mut k: usize = 0;
    while k < m
        invariant
            m == needle@.len(),
            start + m <= hay@.len(),
            hl == hay@.len(),
            k <= m,
            forall|j: int| 0 <= j < k ==> hay@[start + j] == needle@[j],
        decreases m - k,
    {
        if hay[start + k] != needle[k] {
            assert(hay@.subrange(start as int, start + m)[k as int] != needle@[k as int]);
            return false;
        }
        k = k + 1;
    }
    assert(hay@.subrange(start as int, start + m) =~= needle@);
    true
}

/// Whether `needle` occurs in `hay`, as `str::contains` with a `&str` pattern.
pub fn contains_text(hay: &str, needle: &str) -> (r: bool)
    ensures
        r == contains_spec(hay@, needle@),
{
    let h = chars_of(hay);
    let n = chars_of(needle);
    if n.len() > h.len() {
        return false;
    }
    let last = h.len() - n.len();
    let mut i: usize = 0;
    loop
        invariant
            h@ == hay@,
            n@ == needle@,
            last == h@.len() - n@.len(),
            n@.len() <= h@.len(),
            i <= last,
            forall|j: int| 0 <= j < i ==> #[trigger] h@.subrange(j, j + n@.len()) != n@,
        decreases last - i,
    {
        if matches_at(&h, &n, i) {
            return true;
        }
        if i == last {
            assert forall|j: int|
                0 <= j && j + needle@.len() <= hay@.len() implies #[trigger] hay@.subrange(
                j,
                j + needle@.len(),
            ) != needle@ by {
                assert(j <= i);
            }
            return false;
        }
        i = i + 1;
    }
}

/// The lower-case form of a text, as `str::to_lowercase` computes it
/// (Unicode `Lowercase_Mapping`, including its context-dependent rule for
/// final sigma).
pub uninterp spec fn lowercase_of(s: Seq<char>) -> Seq<char>;

/// Calls `str::to_lowercase`, whose result this crate names `lowercase_of`;
/// it depends on the text alone.
#[verifier::external_body]
pub(crate) fn to_lowercase(s: &str) -> (r: String)
    ensures
        r@ == lowercase_of(s@),
{
    s.to_lowercase()
}


/// `a` comes strictly before `b` in the order of `str`'s `Ord`: character
/// by character by code point (the byte order of their UTF-8 text), a
/// proper prefix first.
pub open spec fn text_before(a: Seq<char>, b: Seq<char>) -> bool
    decreases a.len(),
{
    if a.len() == 0 {
        b.len() > 0
    } else if b.len() == 0 {
        false
    } else if a[0] != b[0] {
        (a[0] as u32) < (b[0] as u32)
    } else {
        text_before(a.drop_first(), b.drop_first())
    }
}

/// No text comes before itself.
pub proof fn lemma_text_before_irreflexive(a: Seq<char>)
    ensures
        !text_before(a, a),
    decreases a.len(),
{
    if a.len() > 0 {
        lemma_text_before_irreflexive(a.drop_first());
    }
}

/// The order of texts is transitive.
pub proof fn lemma_text_before_transitive(a: Seq<char>, b: Seq<char>, c: Seq<char>)
    requires
        text_before(a, b),
        text_before(b, c),
    ensures
        text_before(a, c),
    decreases a.len(),
{
    if a.len() > 0 && b.len() > 0 && c.len() > 0 && a[0] == b[0] && b[0] == c[0] {
        lemma_text_before_transitive(a.drop_first(), b.drop_first(), c.drop_first());
    }
}

/// Whether `a` comes strictly before `b` (as `a < b` on `str`).
pub fn text_is_before(a: &str, b: &str) -> (r: bool)
    ensures
        r == text_before(a@, b@),
{
    let av = chars_of(a);
    let bv = chars_of(b);
    let mut i: usize = 0;
    assert(a@.skip(0) =~= a@);
    assert(b@.skip(0) =~= b@);
    while i < av.len() && i < bv.len() && av[i] == bv[i]
        invariant
            av@ == a@,
            bv@ == b@,
            i <= av@.len(),
            i <= bv@.len(),
            text_before(a@, b@) == text_before(a@.skip(i as int), b@.skip(i as int)),
        decreases av@.len() - i,
    {
        assert(a@.skip(i as int).drop_first() =~= a@.skip(i + 1));
        assert(b@.skip(i as int).drop_first() =~= b@.skip(i + 1));
        i = i + 1;
    }
    proof {
        let sa = a@.skip(i as int);
        let sb = b@.skip(i as int);
        if i < av@.len() && i < bv@.len() {
            assert(sa[0] == a@[i as int] && sb[0] == b@[i as int]);
        }
        assert(sa.len() == a@.len() - i && sb.len() == b@.len() - i);
    }
    if i == av.len() {
        i < bv.len()
    } else if i == bv.len() {
        false
    } else {
        let x: u32 = av[i] as u32;
        let y: u32 = bv[i] as u32;
        x < y
    }
}

/// No text of `s` comes before an earlier one.
pub open spec fn texts_sorted(s: Seq<String>) -> bool {
    forall|i: int, j: int| 0 <= i < j < s.len() ==> !text_before(#[trigger] s[j]@, #[trigger] s[i]@)
}

/// The texts of `names` in the order of `str`'s `Ord` (as `sort` orders
/// them): the same texts, each as often, none before an earlier one.
pub fn sort_texts(names: &Vec<String>) -> (r: Vec<String>)
    ensures
        r@.to_multiset() == names@.to_multiset(),
        texts_sorted(r@),
{
    let mut out: Vec<String> = Vec::new();
    let mut k: usize = 0;
    assert(out@ =~= names@.subrange(0, 0));
    while k < names.len()
        invariant
            k <= names@.len(),
            out@.to_multiset() == names@.subrange(0, k as int).to_multiset(),
            texts_sorted(out@),
        decreases names@.len() - k,
    {
        let x = names[k].clone();
        let mut p: usize = 0;
        while p < out.len() && !text_is_before(x.as_str(), out[p].as_str())
            invariant
                p <= out@.len(),
                forall|i: int| 0 <= i < p ==> !text_before(x@, #[trigger] out@[i]@),
            decreases out@.len() - p,
        {
            p = p + 1;
        }
        let ghost s = out@;
        proof {
            assert forall|j: int| p <= j < s.len() implies !text_before(#[trigger] s[j]@, x@) by {
                if text_before(s[j]@, x@) {
                    lemma_text_before_transitive(s[j]@, x@, s[p as int]@);
                    if j == p {
                        lemma_text_before_irreflexive(s[j]@);
                    } else {
                        assert(!text_before(s[j]@, s[p as int]@));
                    }
                }
            }
        }
        out.insert(p, x);
        proof {
            let t = out@;
            assert(t == s.insert(p as int, x));
            assert forall|i: int, j: int| 0 <= i < j < t.len() implies !text_before(#[trigger] t[j]@, #[trigger] t[i]@) by {
                if j < p {
                    assert(t[i] == s[i] && t[j] == s[j]);
                } else if j == p {
                    assert(t[i] == s[i]);
                } else if i < p {
                    assert(t[i] == s[i] && t[j] == s[j - 1]);
                } else if i == p {
                    assert(t[j] == s[j - 1]);
                } else {
                    assert(t[i] == s[i - 1] && t[j] == s[j - 1]);
                }
            }
            vstd::seq_lib::to_multiset_insert(s, p as int, x);
            assert(names@.subrange(0, k + 1) =~= names@.subrange(0, k as int).push(names@[k as int]));
            vstd::seq_lib::to_multiset_build(names@.subrange(0, k as int), names@[k as int]);
        }
        k = k + 1;
    }
    assert(names@.subrange(0, names@.len() as int) =~= names@);
    out
}

} // verus!
