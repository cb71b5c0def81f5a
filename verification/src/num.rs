//! Decimal text for `i64`: parsing (the grammar of `i64::from_str`) and
//! formatting (the text of `i64::to_string`).

use vstd::prelude::*;


verus! {

pub open spec fn is_digit(c: char) -> bool {
    '0' as u32 <= c as u32 && c as u32 <= '9' as u32
}

pub open spec fn digit_val(c: char) -> int {
    c as u32 - '0' as u32
}

pub open spec fn all_digits(s: Seq<char>) -> bool {
    forall|k: int| 0 <= k < s.len() ==> is_digit(#[trigger] s[k])
}

/// Why a text is not the decimal text of an integer (the kinds of
/// `core::num::ParseIntError`).
#[derive(Debug, Clone, Copy, PartialEq, Eq, Structural)]
pub enum IntErrorKind {
    Empty,
    InvalidDigit,
    PosOverflow,
    NegOverflow,
}

/// Reads the digits of `s` left to right, as `from_str` does, stopping at
/// the first character that is not a digit or at the first prefix whose
/// value exceeds `limit`.
pub open spec fn scan_digits(s: Seq<char>, limit: int, neg: bool) -> Result<int, IntErrorKind>
    decreases s.len(),
{
    if s.len() == 0 {
        Ok(0)
    } else {
        match scan_digits(s.drop_last(), limit, neg) {
            Err(e) => Err(e),
            Ok(v) => if !is_digit(s.last()) {
                Err(IntErrorKind::InvalidDigit)
            } else {
                let w = v * 10 + digit_val(s.last());
                if w > limit {
                    Err(
                        if neg {
                            IntErrorKind::NegOverflow
                        } else {
                            IntErrorKind::PosOverflow
                        },
                    )
                } else {
                    Ok(w)
                }
            },
        }
    }
}

/// What `from_str` gives for a signed integer type with bounds `min..=max`:
/// an optional `+` or `-`, then one or more ASCII digits.
pub open spec fn parse_int_result(s: Seq<char>, min: int, max: int) -> Result<int, IntErrorKind> {
    if s.len() == 0 {
        Err(IntErrorKind::Empty)
    } else {
        let neg = s[0] == '-';
        let body = if s[0] == '-' || s[0] == '+' {
            s.drop_first()
        } else {
            s
        };
        if body.len() == 0 {
            Err(IntErrorKind::InvalidDigit)
        } else {
            match scan_digits(body, if neg { -min } else { max }, neg) {
                Ok(v) => Ok(if neg { -v } else { v }),
                Err(e) => Err(e),
            }
        }
    }
}

/// What `i64::from_str` accepts, and the number it reads.
pub open spec fn parse_i64_spec(s: Seq<char>) -> Option<i64> {
    match parse_int_result(s, i64::MIN as int, i64::MAX as int) {
        Ok(v) => Some(v as i64),
        Err(_) => None,
    }
}

/// What `i32::from_str` accepts, and the number it reads.
pub open spec fn parse_i32_spec(s: Seq<char>) -> Option<i32> {
    match parse_int_result(s, i32::MIN as int, i32::MAX as int) {
        Ok(v) => Some(v as i32),
        Err(_) => None,
    }
}

/// The text of a `ParseIntError` of the given kind.
pub open spec fn int_error_text(k: IntErrorKind) -> Seq<char> {
    match k {
        IntErrorKind::Empty => "cannot parse integer from empty string"@,
        IntErrorKind::InvalidDigit => "invalid digit found in string"@,
        IntErrorKind::PosOverflow => "number too large to fit in target type"@,
        IntErrorKind::NegOverflow => "number too small to fit in target type"@,
    }
}

/// The text of a `ParseIntError` of the given kind.
pub fn int_error_message(k: IntErrorKind) -> (r: &'static str)
    ensures
        r@ == int_error_text(k),
{
    match k {
        IntErrorKind::Empty => "cannot parse integer from empty string",
        IntErrorKind::InvalidDigit => "invalid digit found in string",
        IntErrorKind::PosOverflow => "number too large to fit in target type",
        IntErrorKind::NegOverflow => "number too small to fit in target type",
    }
}

proof fn lemma_scan_bounds(s: Seq<char>, limit: int, neg: bool)
    requires
        limit >= 0,
    ensures
        scan_digits(s, limit, neg) matches Ok(v) ==> 0 <= v <= limit,
    decreases s.len(),
{
    if s.len() > 0 {
        lemma_scan_bounds(s.drop_last(), limit, neg);
    }
}

proof fn lemma_scan_err_extends(s: Seq<char>, k: int, limit: int, neg: bool)
    requires
        0 <= k <= s.len(),
        scan_digits(s.subrange(0, k), limit, neg) is Err,
    ensures
        scan_digits(s, limit, neg) == scan_digits(s.subrange(0, k), limit, neg),
    decreases s.len() - k,
{
    if k == s.len() {
        assert(s.subrange(0, k) =~= s);
    } else {
        let t = s.drop_last();
        assert(t.subrange(0, k) =~= s.subrange(0, k));
        lemma_scan_err_extends(t, k, limit, neg);
    }
}

pub open spec fn digit_char(d: nat) -> char {
    if d == 0 {
        '0'
    } else if d == 1 {
        '1'
    } else if d == 2 {
        '2'
    } else if d == 3 {
        '3'
    } else if d == 4 {
        '4'
    } else if d == 5 {
        '5'
    } else if d == 6 {
        '6'
    } else if d == 7 {
        '7'
    } else if d == 8 {
        '8'
    } else {
        '9'
    }
}

/// The decimal digits of `n`, without leading zeros.
pub open spec fn nat_digits(n: nat) -> Seq<char>
    decreases n,
{
    if n < 10 {
        seq![digit_char(n)]
    } else {
        nat_digits(n / 10).push(digit_char(n % 10))
    }
}

/// The text `i64::to_string` gives for `v`.
pub open spec fn decimal_spec(v: int) -> Seq<char> {
    if v < 0 {
        seq!['-'] + nat_digits((-v) as nat)
    } else {
        nat_digits(v as nat)
    }
}

/// Parses the decimal text of a signed integer within `min..=max`, as
/// `from_str` does for a signed integer type with those bounds.
pub fn parse_int(s: &str, min: i64, max: i64) -> (r: Result<i64, IntErrorKind>)
    requires
        min < 0 < max,
        min == -max - 1,
    ensures
        match parse_int_result(s@, min as int, max as int) {
            Ok(v) => (r matches Ok(x) && x as int == v),
            Err(e) => r == Err::<i64, IntErrorKind>(e),
        },
        r matches Ok(v) ==> min <= v <= max,
{
    let n = s.unicode_len();
    if n == 0 {
        return Err(IntErrorKind::Empty);
    }
    let c0 = s.get_char(0);
    let neg = c0 == '-';
    let start: usize = if c0 == '-' || c0 == '+' {
        1
    } else {
        0
    };
    let ghost body = s@.subrange(start as int, n as int);
    proof {
        if start == 1 {
            assert(body =~= s@.drop_first());
        } else {
            assert(body =~= s@);
        }
    }
    if start >= n {
        return Err(IntErrorKind::InvalidDigit);
    }
    let limit: i128 = if neg {
        0i128 - min as i128
    } else {
        max as i128
    };
    let mut acc: i128 = 0;
    let mut i: usize = start;
    while i < n
        invariant
            n == s@.len(),
            start <= i <= n,
            body == s@.subrange(start as int, n as int),
            n > 0,
            neg == (s@[0] == '-'),
            body == (if s@[0] == '-' || s@[0] == '+' { s@.drop_first() } else { s@ }),
            limit == (if neg { -(min as int) } else { max as int }),
            min < 0 < max,
            min == -max - 1,
            max <= i64::MAX,
            scan_digits(s@.subrange(start as int, i as int), limit as int, neg) == Ok::<
                int,
                IntErrorKind,
            >(acc as int),
            0 <= acc <= limit,
        decreases n - i,
    {
        let c = s.get_char(i);
        let u = c as u32;
        let ghost pre = s@.subrange(start as int, i as int);
        proof {
            assert(s@.subrange(start as int, i + 1).drop_last() =~= pre);
            assert(s@.subrange(start as int, i + 1).last() == c);
        }
        if u < 48 || u > 57 {
            proof {
                assert(!is_digit(c));
                assert(scan_digits(s@.subrange(start as int, i + 1), limit as int, neg)
                    == Err::<int, IntErrorKind>(IntErrorKind::InvalidDigit));
                assert(body.subrange(0, i + 1 - start) =~= s@.subrange(start as int, i + 1));
                lemma_scan_err_extends(body, i + 1 - start, limit as int, neg);
            }
            return Err(IntErrorKind::InvalidDigit);
        }
        let w = acc * 10 + (u - 48) as i128;
        if w > limit {
            proof {
                assert(is_digit(c) && digit_val(c) == u - 48);
                assert(scan_digits(s@.subrange(start as int, i + 1), limit as int, neg)
                    == Err::<int, IntErrorKind>(
                    if neg {
                        IntErrorKind::NegOverflow
                    } else {
                        IntErrorKind::PosOverflow
                    },
                ));
                assert(body.subrange(0, i + 1 - start) =~= s@.subrange(start as int, i + 1));
                lemma_scan_err_extends(body, i + 1 - start, limit as int, neg);
            }
            if neg {
                return Err(IntErrorKind::NegOverflow);
            } else {
                return Err(IntErrorKind::PosOverflow);
            }
        }
        acc = w;
        i = i + 1;
    }
    proof {
        assert(s@.subrange(start as int, n as int) == body);
    }
    if neg {
        Ok((0 - acc) as i64)
    } else {
        Ok(acc as i64)
    }
}

/// Parses the decimal text of an `i64`, as `i64::from_str` does.
pub fn parse_i64(s: &str) -> (r: Option<i64>)
    ensures
        r == parse_i64_spec(s@),
{
    match parse_int(s, -9223372036854775808, 9223372036854775807) {
        Ok(v) => Some(v),
        Err(_) => None,
    }
}

/// Parses the decimal text of an `i32`, as `i32::from_str` does.
pub fn parse_i32(s: &str) -> (r: Option<i32>)
    ensures
        r == parse_i32_spec(s@),
{
    match parse_int(s, -2147483648, 2147483647) {
        Ok(v) => Some(v as i32),
        Err(_) => None,
    }
}

/// The character of the digit `d`.
fn digit_to_char(d: u64) -> (c: char)
    requires
        d < 10,
    ensures
        c == digit_char(d as nat),
{
    if d == 0 {
        '0'
    } else if d == 1 {
        '1'
    } else if d == 2 {
        '2'
    } else if d == 3 {
        '3'
    } else if d == 4 {
        '4'
    } else if d == 5 {
        '5'
    } else if d == 6 {
        '6'
    } else if d == 7 {
        '7'
    } else if d == 8 {
        '8'
    } else {
        '9'
    }
}

/// A one-character text.
fn char_text(c: char) -> (r: &'static str)
    requires
        is_digit(c) || c == '-',
    ensures
        r@ == seq![c],
{
    let t = if c == '0' {
        "0"
    } else if c == '1' {
        "1"
    } else if c == '2' {
        "2"
    } else if c == '3' {
        "3"
    } else if c == '4' {
        "4"
    } else if c == '5' {
        "5"
    } else if c == '6' {
        "6"
    } else if c == '7' {
        "7"
    } else if c == '8' {
        "8"
    } else if c == '9' {
        "9"
    } else {
        "-"
    };
    proof {
        reveal_strlit("0");
        reveal_strlit("1");
        reveal_strlit("2");
        reveal_strlit("3");
        reveal_strlit("4");
        reveal_strlit("5");
        reveal_strlit("6");
        reveal_strlit("7");
        reveal_strlit("8");
        reveal_strlit("9");
        reveal_strlit("-");
        assert(t@ =~= seq![c]);
    }
    t
}

proof fn lemma_digit_char(d: nat)
    requires
        d < 10,
    ensures
        is_digit(digit_char(d)),
        digit_val(digit_char(d)) == d,
{
}

proof fn lemma_nat_digits_len(n: nat)
    ensures
        nat_digits(n).len() >= 1,
        all_digits(nat_digits(n)),
    decreases n,
{
    if n < 10 {
        lemma_digit_char(n);
        assert(nat_digits(n) == seq![digit_char(n)]);
    } else {
        lemma_nat_digits_len(n / 10);
        let p = nat_digits(n / 10);
        let c = digit_char(n % 10);
        lemma_digit_char(n % 10);
        assert(nat_digits(n) == p.push(c));
        assert forall|k: int| 0 <= k < p.push(c).len() implies is_digit(#[trigger] p.push(c)[k]) by {
            if k < p.len() {
                assert(p.push(c)[k] == p[k]);
            }
        }
    }
}

/// The decimal text of `v`, as `i64::to_string` writes it.
pub fn i64_to_string(v: i64) -> (r: String)
    ensures
        r@ == decimal_spec(v as int),
{
    // digits of the magnitude, least significant first
    let mut m: u64 = if v < 0 {
        (0i128 - v as i128) as u64
    } else {
        v as u64
    };
    let ghost mag: nat = if v < 0 {
        (-(v as int)) as nat
    } else {
        v as nat
    };
    let mut rev: Vec<char> = Vec::new();
    let mut first = true;
    let ghost mut k: nat = 0;
    // invariant: nat_digits(mag) == nat_digits(m) + reverse(rev) when m > 0 or first
    while first || m > 0
        invariant
            first ==> (m == mag && rev@.len() == 0),
            !first ==> (m == 0 ==> nat_digits(mag) == rev@.reverse()),
            !first && m > 0 ==> nat_digits(mag) == nat_digits(m as nat) + rev@.reverse(),
        decreases m, (if first { 1int } else { 0int }),
    {
        let d = m % 10;
        let c = digit_to_char(d);
        proof {
            if m >= 10 {
                assert(nat_digits(m as nat) == nat_digits((m / 10) as nat).push(c));
            } else {
                assert(nat_digits(m as nat) == seq![c]);
            }
        }
        let ghost old_rev = rev@;
        let ghost old_m = m;
        rev.push(c);
        m = m / 10;
        proof {
            assert(rev@.reverse() =~= seq![c] + old_rev.reverse());
            if first {
                assert(old_m == mag);
                if m > 0 {
                    assert(nat_digits(mag) =~= nat_digits(m as nat) + rev@.reverse());
                } else {
                    assert(nat_digits(mag) =~= rev@.reverse());
                }
            } else {
                if m > 0 {
                    assert(nat_digits(mag) =~= nat_digits(m as nat) + rev@.reverse());
                } else {
                    assert(nat_digits(mag) =~= rev@.reverse());
                }
            }
        }
        first = false;
    }
    let mut out = String::new();
    if v < 0 {
        out.append(char_text('-'));
    }
    let ghost prefix = out@;
    let mut i = rev.len();
    proof {
        lemma_nat_digits_len(mag);
    }
    while i > 0
        invariant
            i <= rev@.len(),
            nat_digits(mag) == rev@.reverse(),
            all_digits(nat_digits(mag)),
            out@ == prefix + rev@.reverse().subrange(0, rev@.len() - i),
        decreases i,
    {
        i = i - 1;
        let c = rev[i];
        proof {
            assert(rev@.reverse()[rev@.len() - 1 - i] == c);
            assert(is_digit(nat_digits(mag)[rev@.len() - 1 - i]));
        }
        out.append(char_text(c));
        proof {
            assert(rev@.reverse().subrange(0, rev@.len() - i) =~= rev@.reverse().subrange(
                0,
                rev@.len() - i - 1,
            ).push(c));
        }
    }
    proof {
        assert(rev@.reverse().subrange(0, rev@.len() as int) =~= rev@.reverse());
        if v < 0 {
            reveal_strlit("-");
        } else {
            assert(prefix =~= Seq::<char>::empty());
        }
    }
    out
}

proof fn lemma_scan_nat_digits(n: nat, limit: int, neg: bool)
    requires
        n <= limit,
    ensures
        scan_digits(nat_digits(n), limit, neg) == Ok::<int, IntErrorKind>(n as int),
    decreases n,
{
    let d = nat_digits(n);
    if n < 10 {
        lemma_digit_char(n);
        assert(d.drop_last() =~= Seq::<char>::empty());
        assert(scan_digits(d.drop_last(), limit, neg) == Ok::<int, IntErrorKind>(0));
        assert(d.last() == digit_char(n));
    } else {
        lemma_scan_nat_digits(n / 10, limit, neg);
        lemma_digit_char(n % 10);
        let p = nat_digits(n / 10);
        assert(d.drop_last() =~= p);
        assert(d.last() == digit_char(n % 10));
        assert((n / 10) * 10 + n % 10 == n);
    }
}

/// Reading back the text that `i64_to_string` writes gives the same number.
pub proof fn lemma_parse_decimal_roundtrip(v: i64)
    ensures
        parse_i64_spec(decimal_spec(v as int)) == Some(v),
{
    let s = decimal_spec(v as int);
    if v < 0 {
        let mag = (-(v as int)) as nat;
        lemma_nat_digits_len(mag);
        assert(s.drop_first() =~= nat_digits(mag));
        lemma_scan_nat_digits(mag, -(i64::MIN as int), true);
        assert(s[0] == '-');
    } else {
        lemma_nat_digits_len(v as nat);
        let d = nat_digits(v as nat);
        assert(is_digit(d[0]));
        lemma_scan_nat_digits(v as nat, i64::MAX as int, false);
    }
}

/// The decimal text of a number starts with `-` or a digit and ends with a
/// digit.
pub proof fn lemma_decimal_edges(v: int)
    ensures
        decimal_spec(v).len() > 0,
        is_digit(decimal_spec(v).last()),
        decimal_spec(v)[0] == '-' || is_digit(decimal_spec(v)[0]),
{
    if v < 0 {
        let d = nat_digits((-v) as nat);
        lemma_nat_digits_len((-v) as nat);
        assert(is_digit(d[d.len() - 1]));
        assert((seq!['-'] + d).last() == d.last());
    } else {
        let d = nat_digits(v as nat);
        lemma_nat_digits_len(v as nat);
        assert(is_digit(d[d.len() - 1]));
        assert(is_digit(d[0]));
    }
}

} // verus!
