//! Text helpers over `char` sequences: prefix tests, repeated prefix
//! stripping, decimal rendering and integer parsing.

use vstd::prelude::*;

verus! {

/// `s` with every leading copy of `pat` removed, one after another.
/// An empty `pat` removes nothing.
pub open spec fn trim_start_all(s: Seq<char>, pat: Seq<char>) -> Seq<char>
    decreases s.len(),
{
    if pat.len() > 0 && pat.is_prefix_of(s) {
        trim_start_all(s.subrange(pat.len() as int, s.len() as int), pat)
    } else {
        s
    }
}

/// Stripping is complete: when `pat` is not empty, what is left does not
/// begin with `pat`, and it is what follows some number of copies of `pat`
/// at the start of `s`.
pub proof fn lemma_trim_start_all_strips(s: Seq<char>, pat: Seq<char>)
    ensures
        pat.len() > 0 ==> !pat.is_prefix_of(trim_start_all(s, pat)),
        trim_start_all(s, pat).len() <= s.len(),
        trim_start_all(s, pat) =~= s.subrange(
            s.len() - trim_start_all(s, pat).len(),
            s.len() as int,
        ),
    decreases s.len(),
{
    if pat.len() > 0 && pat.is_prefix_of(s) {
        let rest = s.subrange(pat.len() as int, s.len() as int);
        lemma_trim_start_all_strips(rest, pat);
    }
}

/// Stripping twice strips nothing more than stripping once.
pub proof fn lemma_trim_start_all_idempotent(s: Seq<char>, pat: Seq<char>)
    ensures
        trim_start_all(trim_start_all(s, pat), pat) == trim_start_all(s, pat),
{
    lemma_trim_start_all_strips(s, pat);
}

/// `k` copies of `t` one after another.
pub open spec fn repeat(t: Seq<char>, k: nat) -> Seq<char>
    decreases k,
{
    if k == 0 {
        Seq::empty()
    } else {
        t + repeat(t, (k - 1) as nat)
    }
}

/// What stripping removes is a whole number of copies of `pat`: `s` is
/// `k` copies of `pat` followed by what is left, with at least one copy
/// removed when `pat` is not empty and begins `s`.
pub proof fn lemma_trim_start_all_removes_copies(s: Seq<char>, pat: Seq<char>) -> (k: nat)
    ensures
        s == repeat(pat, k) + trim_start_all(s, pat),
        pat.len() > 0 && pat.is_prefix_of(s) ==> k >= 1,
    decreases s.len(),
{
    if pat.len() > 0 && pat.is_prefix_of(s) {
        let rest = s.subrange(pat.len() as int, s.len() as int);
        let k0 = lemma_trim_start_all_removes_copies(rest, pat);
        let left = trim_start_all(s, pat);
        assert(left == trim_start_all(rest, pat));
        assert(repeat(pat, k0 + 1) == pat + repeat(pat, k0));
        assert(s =~= pat + rest);
        assert(pat + (repeat(pat, k0) + left) =~= (pat + repeat(pat, k0)) + left);
        k0 + 1
    } else {
        assert(s =~= repeat(pat, 0) + s);
        0
    }
}

/// `s` is the decimal representation of `v`: digits only, worth `v`, and
/// without leading zeros.
pub open spec fn canonical_decimal(s: Seq<char>, v: nat) -> bool {
    &&& all_digits(s)
    &&& digits_value(s) == v
    &&& (s.len() == 1 || s[0] != '0')
}

/// `decimal(n)` is the decimal representation of `n`: digits only, worth
/// `n`, with no sign and no leading zeros.
pub proof fn lemma_decimal_is_canonical(n: nat)
    ensures
        canonical_decimal(decimal(n), n),
        n >= 1 ==> decimal(n)[0] != '0',
    decreases n,
{
    if n < 10 {
        let d = decimal(n);
        assert(d.len() == 1);
        assert(d.drop_last() =~= Seq::<char>::empty());
        assert(digits_value(d) == digits_value(d.drop_last()) * 10 + (d.last() as int - 48));
    } else {
        lemma_decimal_is_canonical(n / 10);
        let h = decimal(n / 10);
        let d = decimal(n);
        assert(d == h.push(digit_char(n % 10)));
        assert(d.drop_last() =~= h);
        assert(forall|i: int| 0 <= i < h.len() ==> d[i] == h[i]);
        assert(is_digit(d[d.len() - 1]));
        assert(digits_value(d) == digits_value(h) * 10 + (d.last() as int - 48));
    }
}

/// Whether `s` begins with `prefix`.
pub fn starts_with(s: &str, prefix: &str) -> (res: bool)
    ensures
        res == prefix@.is_prefix_of(s@),
{
    let n = s.unicode_len();
    let m = prefix.unicode_len();
    if m > n {
        return false;
    }
    let mut i: usize = 0;
    while i < m
        invariant
            n == s@.len(),
            m == prefix@.len(),
            m <= n,
            i <= m,
            forall|k: int| 0 <= k < i ==> s@[k] == prefix@[k],
        decreases m - i,
    {
        if s.get_char(i) != prefix.get_char(i) {
            return false;
        }
        i = i + 1;
    }
    assert(prefix@ =~= s@.subrange(0, m as int));
    true
}


/// `s` with every leading copy of `pat` removed (nothing when `pat` is empty).
pub fn trim_start_matches(s: &str, pat: &str) -> (res: String)
    ensures
        res@ == trim_start_all(s@, pat@),
{
    let m = pat.unicode_len();
    if m == 0 {
        return s.to_owned();
    }
    let mut rest: &str = s;
    while starts_with(rest, pat)
        invariant
            m == pat@.len(),
            m > 0,
            trim_start_all(rest@, pat@) == trim_start_all(s@, pat@),
        decreases rest@.len(),
    {
        let n = rest.unicode_len();
        rest = rest.substring_char(m, n);
    }
    rest.to_owned()
}

/// The character of a decimal digit `d` (`d < 10`).
pub open spec fn digit_char(d: nat) -> char {
    (d + 48) as char
}

/// The decimal representation of `n`, most significant digit first, with
/// no leading zeros.
pub open spec fn decimal(n: nat) -> Seq<char>
    decreases n,
{
    if n < 10 {
        seq![digit_char(n)]
    } else {
        decimal(n / 10).push(digit_char(n % 10))
    }
}

/// Renders `n` in decimal.
///
/// Trusted: calls `ToString::to_string` on a `u64`, whose `Display` writes
/// the plain decimal digits with no sign, padding or leading zeros.
#[verifier::external_body]
pub fn u64_to_decimal(n: u64) -> (res: String)
    ensures
        res@ == decimal(n as nat),
{
    n.to_string()
}

/// Whether `c` is an ASCII decimal digit.
pub open spec fn is_digit(c: char) -> bool {
    '0' <= c && c <= '9'
}

/// The value of a sequence of decimal digits, most significant first.
pub open spec fn digits_value(s: Seq<char>) -> int
    decreases s.len(),
{
    if s.len() == 0 {
        0
    } else {
        digits_value(s.drop_last()) * 10 + (s.last() as int - 48)
    }
}

/// A nonempty run of decimal digits.
pub open spec fn all_digits(s: Seq<char>) -> bool {
    s.len() > 0 && forall|i: int| 0 <= i < s.len() ==> is_digit(#[trigger] s[i])
}

/// What `str::parse::<i64>` accepts: an optional `+` or `-`, then one or
/// more decimal digits, whose signed value fits in an `i64`.
pub open spec fn parse_i64_spec(s: Seq<char>) -> Option<i64> {
    let negative = s.len() > 0 && s[0] == '-';
    let body = if s.len() > 0 && (s[0] == '-' || s[0] == '+') {
        s.drop_first()
    } else {
        s
    };
    let value = if negative {
        -digits_value(body)
    } else {
        digits_value(body)
    };
    if all_digits(body) && i64::MIN <= value <= i64::MAX {
        Some(value as i64)
    } else {
        None
    }
}

/// Parses a decimal `i64`.
///
/// Trusted: calls `str::parse::<i64>`, which std documents as accepting an
/// optional `+` or `-` sign followed by digits only, and failing on an
/// empty string, on any other character and on a value out of range.
#[verifier::external_body]
pub fn parse_i64(s: &str) -> (res: Option<i64>)
    ensures
        res == parse_i64_spec(s@),
{
    s.parse::<i64>().ok()
}


/// What `str::parse::<u8>` accepts: an optional `+`, then one or more
/// decimal digits whose value is at most 255.
pub open spec fn parse_u8_spec(s: Seq<char>) -> Option<u8> {
    let body = if s.len() > 0 && s[0] == '+' {
        s.drop_first()
    } else {
        s
    };
    if all_digits(body) && digits_value(body) <= u8::MAX {
        Some(digits_value(body) as u8)
    } else {
        None
    }
}

/// Parses a decimal `u8`.
///
/// Trusted: calls `str::parse::<u8>`, which std documents as accepting an
/// optional `+` sign (no `-`, the type being unsigned) followed by digits
/// only, and failing on an empty string, on any other character and on a
/// value above 255.
#[verifier::external_body]
pub fn parse_u8(s: &str) -> (res: Option<u8>)
    ensures
        res == parse_u8_spec(s@),
{
    s.parse::<u8>().ok()
}

} // verus!
