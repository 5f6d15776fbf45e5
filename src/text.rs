//! Character-level helpers: decimal numbers, string building and search.

use vstd::prelude::*;

verus! {

/// Relies on `String::push`: the character is appended at the end.
#[verifier::external_body]
pub(crate) fn push_char(s: &mut String, c: char)
    ensures
        final(s)@ == old(s)@.push(c),
{
    s.push(c);
}

/// The characters of `s`, in order.
pub fn chars_of(s: &str) -> (r: Vec<char>)
    ensures
        r@ == s@,
{
    let mut r: Vec<char> = Vec::new();
    for c in it: s.chars()
        invariant
            r@ == it.seq().take(it.index() as int),
    {
        r.push(c);
    }
    r
}


/// Whether `c` is one of the ASCII digits `0` to `9`.
pub open spec fn is_digit(c: char) -> bool {
    '0' <= c && c <= '9'
}

/// The value of an ASCII digit.
pub open spec fn digit_value(c: char) -> nat {
    (c as nat - '0' as nat) as nat
}

/// The number that a run of ASCII digits spells in base ten.
pub open spec fn decimal_value(d: Seq<char>) -> nat
    decreases d.len(),
{
    if d.len() == 0 {
        0
    } else {
        decimal_value(d.drop_last()) * 10 + digit_value(d.last())
    }
}

/// The longest prefix of `s` made of ASCII digits.
pub open spec fn leading_digits(s: Seq<char>) -> Seq<char>
    decreases s.len(),
{
    if s.len() > 0 && is_digit(s[0]) {
        seq![s[0]] + leading_digits(s.drop_first())
    } else {
        Seq::empty()
    }
}

/// What `u64` parsing of a run of ASCII digits gives: its value when
/// there is at least one digit and the value fits in 64 bits.
pub open spec fn parse_decimal(d: Seq<char>) -> Option<u64> {
    if d.len() > 0 && decimal_value(d) <= u64::MAX {
        Some(decimal_value(d) as u64)
    } else {
        None
    }
}

/// The ASCII digit for a value below ten.
pub open spec fn digit_char(n: nat) -> char {
    (n + '0' as nat) as char
}

/// The base-ten text of `n`, without sign or leading zeros.
pub open spec fn decimal_text(n: nat) -> Seq<char>
    decreases n,
{
    if n < 10 {
        seq![digit_char(n)]
    } else {
        decimal_text(n / 10) + seq![digit_char(n % 10)]
    }
}

/// Distinct numbers have distinct base-ten texts.
pub proof fn lemma_decimal_text_injective(a: nat, b: nat)
    requires
        decimal_text(a) == decimal_text(b),
    ensures
        a == b,
    decreases a,
{
    if a >= 10 {
        lemma_decimal_text_nonempty(a / 10);
    }
    if b >= 10 {
        lemma_decimal_text_nonempty(b / 10);
    }
    let ta = decimal_text(a);
    let tb = decimal_text(b);
    if a < 10 && b < 10 {
        assert(ta[0] == tb[0]);
    } else if a >= 10 && b >= 10 {
        assert(ta.last() == tb.last());
        assert(ta.drop_last() =~= decimal_text(a / 10));
        assert(tb.drop_last() =~= decimal_text(b / 10));
        lemma_decimal_text_injective(a / 10, b / 10);
    } else {
        assert(ta.len() != tb.len());
    }
}

/// The base-ten text of a number is made of ASCII digits only.
pub proof fn lemma_decimal_text_digits(n: nat)
    ensures
        decimal_text(n).len() >= 1,
        forall|i: int| 0 <= i < decimal_text(n).len() ==> is_digit(#[trigger] decimal_text(n)[i]),
    decreases n,
{
    if n >= 10 {
        lemma_decimal_text_digits(n / 10);
        let t = decimal_text(n);
        assert(t == decimal_text(n / 10) + seq![digit_char(n % 10)]);
        assert forall|i: int| 0 <= i < t.len() implies is_digit(#[trigger] t[i]) by {
            if i < decimal_text(n / 10).len() {
                assert(t[i] == decimal_text(n / 10)[i]);
            }
        }
    }
}

proof fn lemma_decimal_text_nonempty(n: nat)
    ensures
        decimal_text(n).len() >= 1,
    decreases n,
{
    if n >= 10 {
        lemma_decimal_text_nonempty(n / 10);
    }
}

proof fn lemma_decimal_prefix_le(d: Seq<char>, k: int)
    requires
        0 <= k <= d.len(),
    ensures
        decimal_value(d.take(k)) <= decimal_value(d),
    decreases d.len(),
{
    if k < d.len() {
        assert(d.drop_last().take(k) =~= d.take(k));
        lemma_decimal_prefix_le(d.drop_last(), k);
    } else {
        assert(d.take(k) =~= d);
    }
}

proof fn lemma_leading_digits_shape(s: Seq<char>)
    ensures
        leading_digits(s).len() <= s.len(),
        leading_digits(s) =~= s.take(leading_digits(s).len() as int),
        forall|i: int| 0 <= i < leading_digits(s).len() ==> is_digit(#[trigger] s[i]),
        leading_digits(s).len() < s.len() ==> !is_digit(s[leading_digits(s).len() as int]),
    decreases s.len(),
{
    if s.len() > 0 && is_digit(s[0]) {
        lemma_leading_digits_shape(s.drop_first());
        let t = s.drop_first();
        assert forall|i: int| 0 <= i < leading_digits(s).len() implies is_digit(#[trigger] s[i]) by {
            if i > 0 {
                assert(s[i] == t[i - 1]);
            }
        }
    }
}

/// The value of a run of ASCII digits, when it fits in a `u64`
/// (what `str::parse::<u64>` gives on such a run).
pub fn parse_digits(d: &[char]) -> (r: Option<u64>)
    requires
        forall|i: int| 0 <= i < d@.len() ==> is_digit(#[trigger] d@[i]),
    ensures
        r == parse_decimal(d@),
{
    if d.len() == 0 {
        return None;
    }
    let mut acc: u64 = 0;
    let mut i: usize = 0;
    while i < d.len()
        invariant
            i <= d@.len(),
            acc == decimal_value(d@.take(i as int)),
            forall|j: int| 0 <= j < d@.len() ==> is_digit(#[trigger] d@[j]),
        decreases d@.len() - i,
    {
        let c = d[i];
        assert(is_digit(d@[i as int]));
        let dig: u64 = (c as u32 - '0' as u32) as u64;
        assert(d@.take(i + 1).drop_last() =~= d@.take(i as int));
        assert(decimal_value(d@.take(i + 1)) == acc * 10 + dig);
        if acc > 1844674407370955161 || (acc == 1844674407370955161 && dig > 5) {
            proof {
                lemma_decimal_prefix_le(d@, i + 1);
            }
            return None;
        }
        acc = acc * 10 + dig;
        i = i + 1;
    }
    assert(d@.take(d@.len() as int) =~= d@);
    Some(acc)
}

/// Appends the base-ten text of `n` to `s`.
pub fn push_decimal(s: &mut String, n: u64)
    ensures
        final(s)@ == old(s)@ + decimal_text(n as nat),
    decreases n,
{
    if n >= 10 {
        push_decimal(s, n / 10);
    }
    let c = char_of_digit((n % 10) as u32);
    push_char(s, c);
    proof {
        if n >= 10 {
            assert(decimal_text(n as nat) == decimal_text((n / 10) as nat) + seq![digit_char((n % 10) as nat)]);
        } else {
            assert(decimal_text(n as nat) == seq![digit_char(n as nat)]);
        }
    }
}

/// The base-ten text of `n`.
pub fn decimal_string(n: u64) -> (r: String)
    ensures
        r@ == decimal_text(n as nat),
{
    let mut s = String::new();
    push_decimal(&mut s, n);
    assert(s@ =~= decimal_text(n as nat));
    s
}

fn char_of_digit(d: u32) -> (c: char)
    requires
        d < 10,
    ensures
        c == digit_char(d as nat),
{
    let digits: [char; 10] = ['0', '1', '2', '3', '4', '5', '6', '7', '8', '9'];
    let c = digits[d as usize];
    assert(digits@ =~= seq!['0', '1', '2', '3', '4', '5', '6', '7', '8', '9']);
    c
}

/// Appends the characters of `t` to `s`.
pub fn push_str(s: &mut String, t: &str)
    ensures
        final(s)@ == old(s)@ + t@,
{
    let cs = chars_of(t);
    let ghost start = s@;
    for i in 0..cs.len()
        invariant
            cs@ == t@,
            s@ == start + t@.take(i as int),
    {
        push_char(s, cs[i]);
        assert(t@.take(i + 1) =~= t@.take(i as int).push(t@[i as int]));
    }
    assert(t@.take(cs@.len() as int) =~= t@);
}

/// Whether `a` and `b` hold the same characters.
pub fn text_eq(a: &str, b: &str) -> (r: bool)
    ensures
        r == (a@ == b@),
{
    let x = chars_of(a);
    let y = chars_of(b);
    if x.len() != y.len() {
        return false;
    }
    let mut i: usize = 0;
    while i < x.len()
        invariant
            x@ == a@,
            y@ == b@,
            x@.len() == y@.len(),
            i <= x@.len(),
            forall|k: int| 0 <= k < i ==> x@[k] == y@[k],
        decreases x@.len() - i,
    {
        if x[i] != y[i] {
            return false;
        }
        i = i + 1;
    }
    assert(x@ =~= y@);
    true
}

/// The text of `s` with every character in lower case, as Unicode defines it.
pub uninterp spec fn lowercased(s: Seq<char>) -> Seq<char>;

/// Relies on `str::to_lowercase`: the lower-case text, which depends on the
/// text alone.
#[verifier::external_body]
pub(crate) fn to_lowercase(s: &str) -> (r: String)
    ensures
        r@ == lowercased(s@),
{
    s.to_lowercase()
}

/// Whether `c` has the Unicode White_Space property (what
/// `char::is_whitespace` tests).
pub open spec fn is_white_space(c: char) -> bool {
    ||| ('\u{9}' <= c && c <= '\u{d}')
    ||| c == ' '
    ||| c == '\u{85}'
    ||| c == '\u{a0}'
    ||| c == '\u{1680}'
    ||| ('\u{2000}' <= c && c <= '\u{200a}')
    ||| c == '\u{2028}'
    ||| c == '\u{2029}'
    ||| c == '\u{202f}'
    ||| c == '\u{205f}'
    ||| c == '\u{3000}'
}

/// `s` without its leading white space.
pub open spec fn trim_start_of(s: Seq<char>) -> Seq<char>
    decreases s.len(),
{
    if s.len() > 0 && is_white_space(s[0]) {
        trim_start_of(s.drop_first())
    } else {
        s
    }
}

/// `s` without its trailing white space.
pub open spec fn trim_end_of(s: Seq<char>) -> Seq<char>
    decreases s.len(),
{
    if s.len() > 0 && is_white_space(s.last()) {
        trim_end_of(s.drop_last())
    } else {
        s
    }
}

/// `s` without leading and trailing white space (what `str::trim` gives).
pub open spec fn trimmed(s: Seq<char>) -> Seq<char> {
    trim_end_of(trim_start_of(s))
}

/// Whether `c` is white space.
pub fn white_space(c: char) -> (r: bool)
    ensures
        r == is_white_space(c),
{
    ('\u{9}' <= c && c <= '\u{d}') || c == ' ' || c == '\u{85}' || c == '\u{a0}' || c == '\u{1680}'
        || ('\u{2000}' <= c && c <= '\u{200a}') || c == '\u{2028}' || c == '\u{2029}' || c == '\u{202f}'
        || c == '\u{205f}' || c == '\u{3000}'
}

/// The text of `s` without leading and trailing white space.
pub fn trim(s: &str) -> (r: String)
    ensures
        r@ == trimmed(s@),
{
    let cs = chars_of(s);
    let n = cs.len();
    let mut i: usize = 0;
    assert(cs@.skip(0) =~= cs@);
    while i < n && white_space(cs[i])
        invariant
            n == cs@.len(),
            cs@ == s@,
            i <= n,
            trim_start_of(cs@) == trim_start_of(cs@.skip(i as int)),
        decreases n - i,
    {
        assert(cs@.skip(i as int).drop_first() =~= cs@.skip(i + 1));
        i = i + 1;
    }
    assert(trim_start_of(cs@) == cs@.subrange(i as int, n as int)) by {
        assert(cs@.skip(i as int) =~= cs@.subrange(i as int, n as int));
    }
    let mut j: usize = n;
    while j > i && white_space(cs[j - 1])
        invariant
            n == cs@.len(),
            i <= j <= n,
            trim_end_of(cs@.subrange(i as int, n as int)) == trim_end_of(cs@.subrange(i as int, j as int)),
        decreases j,
    {
        assert(cs@.subrange(i as int, j as int).drop_last() =~= cs@.subrange(i as int, j - 1));
        j = j - 1;
    }
    let mut r = String::new();
    let mut k: usize = i;
    while k < j
        invariant
            n == cs@.len(),
            i <= k <= j <= n,
            r@ == cs@.subrange(i as int, k as int),
        decreases j - k,
    {
        push_char(&mut r, cs[k]);
        assert(cs@.subrange(i as int, k + 1) =~= cs@.subrange(i as int, k as int).push(cs@[k as int]));
        k = k + 1;
    }
    r
}

} // verus!
