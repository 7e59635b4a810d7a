//! Character-level helpers shared by the parsers of this crate: taking a
//! string apart into characters, splitting on a separator, rendering and
//! reading decimal integers, and the Unicode character classes the services
//! test for.
use vstd::prelude::*;

verus! {

broadcast use vstd::string::group_string_axioms;

/// The characters of `s`, in order.
pub fn chars_of(s: &str) -> (v: Vec<char>)
    ensures
        v@ == s@,
{
    let mut v: Vec<char> = Vec::new();
    for c in it: s.chars()
        invariant
            v@ == it.seq().take(it.index() as int),
            it.seq() == s@,
    {
        v.push(c);
    }
    v
}

/// Calls `String::push`.  Claimed, as std documents it: the character is
/// appended at the end of the string.
#[verifier::external_body]
pub(crate) fn push_char(s: &mut String, c: char)
    ensures
        final(s)@ == old(s)@.push(c),
{
    s.push(c);
}

/// Appends the characters `v[from..to]` to `s`.
pub fn push_range(s: &mut String, v: &Vec<char>, from: usize, to: usize)
    requires
        from <= to <= v.len(),
    ensures
        final(s)@ == old(s)@ + v@.subrange(from as int, to as int),
{
    let mut i = from;
    while i < to
        invariant
            from <= i <= to <= v.len(),
            s@ == old(s)@ + v@.subrange(from as int, i as int),
        decreases to - i,
    {
        push_char(s, v[i]);
        assert(v@.subrange(from as int, i + 1) == v@.subrange(from as int, i as int).push(v@[i as int]));
        i = i + 1;
    }
}

/// A new string holding the characters `v[from..to]`.
pub fn string_from_range(v: &Vec<char>, from: usize, to: usize) -> (s: String)
    requires
        from <= to <= v.len(),
    ensures
        s@ == v@.subrange(from as int, to as int),
{
    let mut s = String::new();
    push_range(&mut s, v, from, to);
    assert(Seq::<char>::empty() + v@.subrange(from as int, to as int) == v@.subrange(from as int, to as int));
    s
}

/// A new string holding all of `v`.
pub fn string_from_chars(v: &Vec<char>) -> (s: String)
    ensures
        s@ == v@,
{
    let s = string_from_range(v, 0, v.len());
    assert(v@.subrange(0, v@.len() as int) == v@);
    s
}

/// Appends the characters of `t` to `s`.
pub fn push_str(s: &mut String, t: &str)
    ensures
        final(s)@ == old(s)@ + t@,
{
    let v = chars_of(t);
    push_range(s, &v, 0, v.len());
    assert(v@.subrange(0, v@.len() as int) == v@);
}

/// The concatenation of `a` and `b`.
pub fn concat2(a: &str, b: &str) -> (s: String)
    ensures
        s@ == a@ + b@,
{
    let mut s = String::new();
    push_str(&mut s, a);
    push_str(&mut s, b);
    assert(Seq::<char>::empty() + a@ == a@);
    s
}

/// `s` split at every occurrence of `sep`, as `str::split` does: `n`
/// separators give `n + 1` parts, empty ones included.
pub open spec fn split_on(s: Seq<char>, sep: char) -> Seq<Seq<char>>
    decreases s.len(),
{
    if s.len() == 0 {
        seq![Seq::<char>::empty()]
    } else {
        let rest = split_on(s.drop_last(), sep);
        if s.last() == sep {
            rest.push(Seq::<char>::empty())
        } else {
            rest.update(rest.len() - 1, rest.last().push(s.last()))
        }
    }
}

pub proof fn lemma_split_on_nonempty(s: Seq<char>, sep: char)
    ensures
        split_on(s, sep).len() >= 1,
    decreases s.len(),
{
    if s.len() > 0 {
        lemma_split_on_nonempty(s.drop_last(), sep);
    }
}

/// A text without the separator is one part.
pub proof fn lemma_split_on_without_sep(s: Seq<char>, sep: char)
    requires
        !s.contains(sep),
    ensures
        split_on(s, sep) == seq![s],
    decreases s.len(),
{
    if s.len() == 0 {
        assert(s =~= Seq::<char>::empty());
    } else {
        assert(!s.drop_last().contains(sep)) by {
            if s.drop_last().contains(sep) {
                let k = choose|k: int| 0 <= k < s.drop_last().len() && s.drop_last()[k] == sep;
                assert(s[k] == sep);
            }
        }
        lemma_split_on_without_sep(s.drop_last(), sep);
        assert(s.last() != sep) by {
            assert(s[s.len() - 1] == s.last());
        }
        assert(s.drop_last().push(s.last()) =~= s);
        assert(seq![s.drop_last()].update(0, s.drop_last().push(s.last())) =~= seq![s]);
    }
}

/// Appending a text without the separator lengthens the last part.
pub proof fn lemma_split_on_append(s: Seq<char>, t: Seq<char>, sep: char)
    requires
        !t.contains(sep),
    ensures
        split_on(s + t, sep) == split_on(s, sep).update(split_on(s, sep).len() - 1, split_on(s, sep).last() + t),
    decreases t.len(),
{
    lemma_split_on_nonempty(s, sep);
    let parts = split_on(s, sep);
    if t.len() == 0 {
        assert(s + t =~= s);
        assert(parts.last() + t =~= parts.last());
        assert(parts.update(parts.len() - 1, parts.last()) =~= parts);
    } else {
        assert(!t.drop_last().contains(sep)) by {
            if t.drop_last().contains(sep) {
                let k = choose|k: int| 0 <= k < t.drop_last().len() && t.drop_last()[k] == sep;
                assert(t[k] == sep);
            }
        }
        assert(t.last() != sep) by {
            assert(t[t.len() - 1] == t.last());
        }
        lemma_split_on_append(s, t.drop_last(), sep);
        assert((s + t).drop_last() =~= s + t.drop_last());
        assert((s + t).last() == t.last());
        assert((parts.last() + t.drop_last()).push(t.last()) =~= parts.last() + t);
        let rest = split_on(s + t.drop_last(), sep);
        assert(rest.update(rest.len() - 1, rest.last().push(t.last())) =~= parts.update(parts.len() - 1, parts.last() + t));
    }
}

/// Two texts without the separator, joined by it, split back into the two.
pub proof fn lemma_split_on_pair(a: Seq<char>, b: Seq<char>, sep: char)
    requires
        !a.contains(sep),
        !b.contains(sep),
    ensures
        split_on(a + seq![sep] + b, sep) == seq![a, b],
{
    lemma_split_on_without_sep(a, sep);
    let ab = a + seq![sep];
    assert(ab.drop_last() =~= a);
    assert(ab.last() == sep);
    assert(split_on(ab, sep) == seq![a].push(Seq::<char>::empty()));
    lemma_split_on_append(ab, b, sep);
    assert(seq![a].push(Seq::<char>::empty()).update(1, Seq::<char>::empty() + b) =~= seq![a, b]);
}

/// Whether `c` occurs in `v`.
pub fn contains_char(v: &Vec<char>, c: char) -> (b: bool)
    ensures
        b == v@.contains(c),
{
    let mut i: usize = 0;
    while i < v.len()
        invariant
            i <= v.len(),
            forall|j: int| 0 <= j < i ==> v@[j] != c,
        decreases v.len() - i,
    {
        if v[i] == c {
            assert(v@[i as int] == c);
            return true;
        }
        i = i + 1;
    }
    false
}

/// The parts of `v` between the occurrences of `sep`.
pub fn split_chars(v: &Vec<char>, sep: char) -> (parts: Vec<String>)
    ensures
        parts.deep_view() == split_on(v@, sep),
        parts.len() >= 1,
{
    let mut done: Vec<String> = Vec::new();
    let mut cur = String::new();
    let mut i: usize = 0;
    assert(v@.take(0) == Seq::<char>::empty());
    while i < v.len()
        invariant
            i <= v.len(),
            done.deep_view().push(cur@) == split_on(v@.take(i as int), sep),
        decreases v.len() - i,
    {
        let ghost before = done.deep_view().push(cur@);
        assert(v@.take(i + 1).drop_last() == v@.take(i as int));
        assert(v@.take(i + 1).last() == v@[i as int]);
        if v[i] == sep {
            let finished = cur;
            done.push(finished);
            cur = String::new();
            assert(done.deep_view() == before);
            assert(done.deep_view().push(cur@) == before.push(Seq::<char>::empty()));
        } else {
            push_char(&mut cur, v[i]);
            assert(done.deep_view().push(cur@) == before.update(before.len() - 1, before.last().push(v@[i as int])));
        }
        i = i + 1;
    }
    assert(v@.take(v@.len() as int) == v@);
    let ghost fin = done.deep_view();
    done.push(cur);
    assert(done.deep_view() == fin.push(cur@));
    done
}

/// `s` starts with `p`.
pub open spec fn has_prefix(s: Seq<char>, p: Seq<char>) -> bool {
    p.len() <= s.len() && s.take(p.len() as int) == p
}

/// Whether the characters in `v` begin with the characters of `p`.
pub fn starts_with(v: &Vec<char>, p: &str) -> (b: bool)
    ensures
        b == has_prefix(v@, p@),
{
    let pv = chars_of(p);
    if pv.len() > v.len() {
        return false;
    }
    let mut i: usize = 0;
    while i < pv.len()
        invariant
            i <= pv.len() <= v.len(),
            pv@ == p@,
            forall|j: int| 0 <= j < i ==> v@[j] == pv@[j],
        decreases pv.len() - i,
    {
        if v[i] != pv[i] {
            assert(v@.take(pv@.len() as int)[i as int] != pv@[i as int]);
            return false;
        }
        i = i + 1;
    }
    assert(v@.take(pv@.len() as int) =~= pv@);
    true
}

/// Whether `a` and `b` hold the same characters.
pub fn chars_equal(a: &Vec<char>, b: &str) -> (r: bool)
    ensures
        r == (a@ == b@),
{
    let bv = chars_of(b);
    if a.len() != bv.len() {
        return false;
    }
    let mut i: usize = 0;
    while i < a.len()
        invariant
            i <= a.len() == bv.len(),
            bv@ == b@,
            forall|j: int| 0 <= j < i ==> a@[j] == bv@[j],
        decreases a.len() - i,
    {
        if a[i] != bv[i] {
            return false;
        }
        i = i + 1;
    }
    assert(a@ =~= bv@);
    true
}

/// Whether two strings hold the same characters.
pub fn str_equal(a: &str, b: &str) -> (r: bool)
    ensures
        r == (a@ == b@),
{
    let av = chars_of(a);
    chars_equal(&av, b)
}

/// An ASCII hexadecimal digit, upper or lower case.
pub open spec fn is_hex_digit(c: char) -> bool {
    ('0' <= c && c <= '9') || ('a' <= c && c <= 'f') || ('A' <= c && c <= 'F')
}

/// Every character of `s` is an ASCII hexadecimal digit.
pub open spec fn all_hex_digits(s: Seq<char>) -> bool {
    forall|i: int| 0 <= i < s.len() ==> is_hex_digit(#[trigger] s[i])
}

pub fn hex_digit(c: char) -> (b: bool)
    ensures
        b == is_hex_digit(c),
{
    ('0' <= c && c <= '9') || ('a' <= c && c <= 'f') || ('A' <= c && c <= 'F')
}

/// Whether every character of `v` is an ASCII hexadecimal digit.
pub fn all_hex(v: &Vec<char>) -> (b: bool)
    ensures
        b == all_hex_digits(v@),
{
    let mut i: usize = 0;
    while i < v.len()
        invariant
            i <= v.len(),
            forall|j: int| 0 <= j < i ==> is_hex_digit(#[trigger] v@[j]),
        decreases v.len() - i,
    {
        if !hex_digit(v[i]) {
            assert(!is_hex_digit(v@[i as int]));
            return false;
        }
        i = i + 1;
    }
    true
}

/// Unicode's `White_Space` property, the set that `char::is_whitespace` and
/// `str::trim` go by.
pub open spec fn is_unicode_whitespace(c: char) -> bool {
    ('\u{9}' <= c && c <= '\u{d}') || c == ' ' || c == '\u{85}' || c == '\u{a0}'
        || c == '\u{1680}' || ('\u{2000}' <= c && c <= '\u{200a}') || c == '\u{2028}'
        || c == '\u{2029}' || c == '\u{202f}' || c == '\u{205f}' || c == '\u{3000}'
}

pub fn whitespace(c: char) -> (b: bool)
    ensures
        b == is_unicode_whitespace(c),
{
    ('\u{9}' <= c && c <= '\u{d}') || c == ' ' || c == '\u{85}' || c == '\u{a0}'
        || c == '\u{1680}' || ('\u{2000}' <= c && c <= '\u{200a}') || c == '\u{2028}'
        || c == '\u{2029}' || c == '\u{202f}' || c == '\u{205f}' || c == '\u{3000}'
}

/// The general category `Cc`, the set that `char::is_control` tests.
pub open spec fn is_control_char(c: char) -> bool {
    c <= '\u{1f}' || ('\u{7f}' <= c && c <= '\u{9f}')
}

pub fn control(c: char) -> (b: bool)
    ensures
        b == is_control_char(c),
{
    c <= '\u{1f}' || ('\u{7f}' <= c && c <= '\u{9f}')
}

/// Index of the first character of `s` at or after `i` that is not white space.
pub open spec fn first_non_space(s: Seq<char>, i: int) -> int
    decreases s.len() - i,
{
    if i >= s.len() || !is_unicode_whitespace(s[i]) {
        i
    } else {
        first_non_space(s, i + 1)
    }
}

/// One past the index of the last character of `s` before `j` that is not white space.
pub open spec fn last_non_space(s: Seq<char>, lo: int, j: int) -> int
    decreases j - lo,
{
    if j <= lo || !is_unicode_whitespace(s[j - 1]) {
        j
    } else {
        last_non_space(s, lo, j - 1)
    }
}

/// `s` without leading and trailing white space, as `str::trim` gives it.
pub open spec fn trim_spec(s: Seq<char>) -> Seq<char> {
    let lo = first_non_space(s, 0);
    let hi = last_non_space(s, lo, s.len() as int);
    s.subrange(lo, hi)
}

pub proof fn lemma_first_non_space_bounds(s: Seq<char>, i: int)
    requires
        0 <= i <= s.len(),
    ensures
        i <= first_non_space(s, i) <= s.len(),
    decreases s.len() - i,
{
    if i < s.len() && is_unicode_whitespace(s[i]) {
        lemma_first_non_space_bounds(s, i + 1);
    }
}

/// The characters of `s` without leading and trailing white space.
pub fn trim(s: &str) -> (t: String)
    ensures
        t@ == trim_spec(s@),
{
    let v = chars_of(s);
    let mut lo: usize = 0;
    while lo < v.len() && whitespace(v[lo])
        invariant
            lo <= v.len(),
            first_non_space(v@, 0) == first_non_space(v@, lo as int),
        decreases v.len() - lo,
    {
        lo = lo + 1;
    }
    let mut hi: usize = v.len();
    proof {
        lemma_first_non_space_bounds(v@, 0);
    }
    while hi > lo && whitespace(v[hi - 1])
        invariant
            lo <= hi <= v.len(),
            last_non_space(v@, lo as int, v.len() as int) == last_non_space(v@, lo as int, hi as int),
        decreases hi - lo,
    {
        hi = hi - 1;
    }
    string_from_range(&v, lo, hi)
}

// ---------------------------------------------------------------------------
// Decimal integers
// ---------------------------------------------------------------------------

/// The ASCII digit for `d` (`d < 10`).
pub open spec fn digit_char(d: nat) -> char {
    (48 + d) as char
}

/// The value of an ASCII digit.
pub open spec fn digit_value(c: char) -> nat {
    (c as nat - 48) as nat
}

pub open spec fn is_ascii_digit(c: char) -> bool {
    '0' <= c && c <= '9'
}

/// The shortest decimal rendering of `n`, as `u64::to_string` writes it.
pub open spec fn nat_decimal(n: nat) -> Seq<char>
    decreases n,
{
    if n < 10 {
        seq![digit_char(n)]
    } else {
        nat_decimal(n / 10).push(digit_char(n % 10))
    }
}

/// The decimal rendering of `i`, with a leading `-` when negative, as
/// `i64::to_string` writes it.
pub open spec fn int_decimal(i: int) -> Seq<char> {
    if i < 0 {
        seq!['-'] + nat_decimal((-i) as nat)
    } else {
        nat_decimal(i as nat)
    }
}

/// Appends the decimal rendering of `n` to `s`.
pub fn push_u64(s: &mut String, n: u64)
    ensures
        final(s)@ == old(s)@ + nat_decimal(n as nat),
    decreases n,
{
    if n < 10 {
        push_char(s, char_of_digit(n));
        assert(old(s)@.push(digit_char(n as nat)) == old(s)@ + seq![digit_char(n as nat)]);
    } else {
        push_u64(s, n / 10);
        push_char(s, char_of_digit(n % 10));
        assert(old(s)@ + nat_decimal((n / 10) as nat).push(digit_char((n % 10) as nat))
            == (old(s)@ + nat_decimal((n / 10) as nat)).push(digit_char((n % 10) as nat)));
    }
}

fn char_of_digit(d: u64) -> (c: char)
    requires
        d < 10,
    ensures
        c == digit_char(d as nat),
{
    if d == 0 { '0' }
    else if d == 1 { '1' }
    else if d == 2 { '2' }
    else if d == 3 { '3' }
    else if d == 4 { '4' }
    else if d == 5 { '5' }
    else if d == 6 { '6' }
    else if d == 7 { '7' }
    else if d == 8 { '8' }
    else { '9' }
}

/// Appends the decimal rendering of `n` to `s`.
pub fn push_i64(s: &mut String, n: i64)
    ensures
        final(s)@ == old(s)@ + int_decimal(n as int),
{
    if n < 0 {
        push_char(s, '-');
        let m: u64 = (0i128 - n as i128) as u64;
        push_u64(s, m);
        assert(old(s)@.push('-') + nat_decimal(m as nat) == old(s)@ + (seq!['-'] + nat_decimal(m as nat)));
    } else {
        push_u64(s, n as u64);
    }
}

/// The decimal rendering of `n`.
pub fn u64_to_string(n: u64) -> (s: String)
    ensures
        s@ == nat_decimal(n as nat),
{
    let mut s = String::new();
    push_u64(&mut s, n);
    assert(Seq::<char>::empty() + nat_decimal(n as nat) == nat_decimal(n as nat));
    s
}

/// The value of a string of decimal digits (leading zeros allowed).
pub open spec fn digits_value(s: Seq<char>) -> nat
    decreases s.len(),
{
    if s.len() == 0 {
        0
    } else {
        digits_value(s.drop_last()) * 10 + digit_value(s.last())
    }
}

pub open spec fn all_ascii_digits(s: Seq<char>) -> bool {
    forall|i: int| 0 <= i < s.len() ==> is_ascii_digit(#[trigger] s[i])
}

/// What `str::parse::<u64>` accepts: an optional `+`, then one or more ASCII
/// digits whose value fits in a `u64`.
pub open spec fn parse_u64_spec(s: Seq<char>) -> Option<u64> {
    let digits = if s.len() > 0 && s[0] == '+' { s.drop_first() } else { s };
    if digits.len() == 0 || !all_ascii_digits(digits) || digits_value(digits) > u64::MAX {
        None
    } else {
        Some(digits_value(digits) as u64)
    }
}

/// What `str::parse::<i64>` accepts: an optional `+` or `-`, then one or more
/// ASCII digits, whose signed value fits in an `i64`.
pub open spec fn parse_i64_spec(s: Seq<char>) -> Option<i64> {
    let negative = s.len() > 0 && s[0] == '-';
    let digits = if s.len() > 0 && (s[0] == '+' || s[0] == '-') { s.drop_first() } else { s };
    if digits.len() == 0 || !all_ascii_digits(digits) {
        None
    } else if negative {
        if digits_value(digits) > 0x8000_0000_0000_0000 {
            None
        } else {
            Some((0 - digits_value(digits)) as i64)
        }
    } else if digits_value(digits) > i64::MAX {
        None
    } else {
        Some(digits_value(digits) as i64)
    }
}

/// What `str::parse::<i32>` accepts, as for `i64` with the bounds of `i32`.
pub open spec fn parse_i32_spec(s: Seq<char>) -> Option<i32> {
    let negative = s.len() > 0 && s[0] == '-';
    let digits = if s.len() > 0 && (s[0] == '+' || s[0] == '-') { s.drop_first() } else { s };
    if digits.len() == 0 || !all_ascii_digits(digits) {
        None
    } else if negative {
        if digits_value(digits) > 0x8000_0000 {
            None
        } else {
            Some((0 - digits_value(digits)) as i32)
        }
    } else if digits_value(digits) > i32::MAX {
        None
    } else {
        Some(digits_value(digits) as i32)
    }
}

pub proof fn lemma_digits_value_monotone(s: Seq<char>, i: int)
    requires
        0 <= i <= s.len(),
    ensures
        digits_value(s.take(i)) <= digits_value(s),
    decreases s.len() - i,
{
    if i < s.len() {
        lemma_digits_value_monotone(s, i + 1);
        assert(s.take(i + 1).drop_last() == s.take(i));
    } else {
        assert(s.take(i) == s);
    }
}

/// The value of the ASCII digits `v[from..]` when every character there is a
/// digit and the value is at most `bound`; `None` otherwise.
fn digits_upto(v: &Vec<char>, from: usize, bound: u64) -> (r: Option<u64>)
    requires
        from <= v.len(),
        bound >= 9,
    ensures
        ({
            let d = v@.subrange(from as int, v@.len() as int);
            match r {
                Some(x) => all_ascii_digits(d) && digits_value(d) <= bound && x == digits_value(d),
                None => !all_ascii_digits(d) || digits_value(d) > bound,
            }
        }),
{
    let ghost d = v@.subrange(from as int, v@.len() as int);
    let mut acc: u64 = 0;
    let mut i: usize = from;
    assert(d.take(0) == Seq::<char>::empty());
    while i < v.len()
        invariant
            from <= i <= v.len(),
            d == v@.subrange(from as int, v@.len() as int),
            all_ascii_digits(d.take(i - from)),
            acc == digits_value(d.take(i - from)),
            acc <= bound,
            bound >= 9,
        decreases v.len() - i,
    {
        let c = v[i];
        let ghost k = i - from;
        assert(d[k] == c);
        assert(d.take(k + 1).drop_last() == d.take(k));
        assert(d.take(k + 1).last() == c);
        if !('0' <= c && c <= '9') {
            assert(!is_ascii_digit(d[k]));
            return None;
        }
        let dv: u64 = (c as u32 - 48) as u64;
        if acc > (bound - dv) / 10 {
            proof {
                assert(acc * 10 + dv > bound) by (nonlinear_arith)
                    requires acc > (bound - dv) / 10, dv <= 9, dv <= bound;
                lemma_digits_value_monotone(d, k + 1);
            }
            return None;
        }
        proof {
            assert(acc * 10 + dv <= bound) by (nonlinear_arith)
                requires acc <= (bound - dv) / 10, dv <= bound;
        }
        acc = acc * 10 + dv;
        assert forall|j: int| 0 <= j < d.take(k + 1).len() implies is_ascii_digit(#[trigger] d.take(k + 1)[j]) by {
            if j < k {
                assert(d.take(k + 1)[j] == d.take(k)[j]);
            }
        }
        i = i + 1;
    }
    assert(d.take(v.len() - from) == d);
    Some(acc)
}

/// `s` read as a `u64`, with the grammar and bounds of `str::parse::<u64>`.
pub fn parse_u64(s: &str) -> (r: Option<u64>)
    ensures
        r == parse_u64_spec(s@),
{
    let v = chars_of(s);
    let start: usize = if v.len() > 0 && v[0] == '+' { 1 } else { 0 };
    let ghost digits = if s@.len() > 0 && s@[0] == '+' { s@.drop_first() } else { s@ };
    assert(digits == v@.subrange(start as int, v@.len() as int));
    if start == v.len() {
        return None;
    }
    digits_upto(&v, start, u64::MAX)
}

/// `s` read as an `i64`, with the grammar and bounds of `str::parse::<i64>`.
pub fn parse_i64(s: &str) -> (r: Option<i64>)
    ensures
        r == parse_i64_spec(s@),
{
    let v = chars_of(s);
    let negative = v.len() > 0 && v[0] == '-';
    let start: usize = if v.len() > 0 && (v[0] == '+' || v[0] == '-') { 1 } else { 0 };
    let ghost digits = if s@.len() > 0 && (s@[0] == '+' || s@[0] == '-') { s@.drop_first() } else { s@ };
    assert(digits == v@.subrange(start as int, v@.len() as int));
    if start == v.len() {
        return None;
    }
    if negative {
        match digits_upto(&v, start, 0x8000_0000_0000_0000u64) {
            Some(m) => {
                let r: i64 = (0i128 - m as i128) as i64;
                Some(r)
            },
            None => None,
        }
    } else {
        match digits_upto(&v, start, i64::MAX as u64) {
            Some(m) => Some(m as i64),
            None => None,
        }
    }
}

/// `s` read as an `i32`, with the grammar and bounds of `str::parse::<i32>`.
pub fn parse_i32(s: &str) -> (r: Option<i32>)
    ensures
        r == parse_i32_spec(s@),
{
    let v = chars_of(s);
    let negative = v.len() > 0 && v[0] == '-';
    let start: usize = if v.len() > 0 && (v[0] == '+' || v[0] == '-') { 1 } else { 0 };
    let ghost digits = if s@.len() > 0 && (s@[0] == '+' || s@[0] == '-') { s@.drop_first() } else { s@ };
    assert(digits == v@.subrange(start as int, v@.len() as int));
    if start == v.len() {
        return None;
    }
    if negative {
        match digits_upto(&v, start, 0x8000_0000u64) {
            Some(m) => {
                let r: i32 = (0i64 - m as i64) as i32;
                Some(r)
            },
            None => None,
        }
    } else {
        match digits_upto(&v, start, i32::MAX as u64) {
            Some(m) => Some(m as i32),
            None => None,
        }
    }
}

/// Reading back a decimal rendering gives the number that was rendered.
pub proof fn lemma_nat_decimal_digits(n: nat)
    ensures
        all_ascii_digits(nat_decimal(n)),
        digits_value(nat_decimal(n)) == n,
        nat_decimal(n).len() >= 1,
        nat_decimal(n)[0] != '+' && nat_decimal(n)[0] != '-' && nat_decimal(n)[0] != '_',
        forall|i: int| 0 <= i < nat_decimal(n).len() ==> nat_decimal(n)[i] != '_',
    decreases n,
{
    if n >= 10 {
        lemma_nat_decimal_digits(n / 10);
        let p = nat_decimal(n / 10);
        let q = p.push(digit_char(n % 10));
        assert(q.drop_last() == p);
        assert forall|i: int| 0 <= i < q.len() implies is_ascii_digit(#[trigger] q[i]) by {
            if i < p.len() {
                assert(q[i] == p[i]);
            }
        }
        assert(q[0] == p[0]);
    } else {
        assert(digits_value(seq![digit_char(n)]) == digits_value(seq![digit_char(n)].drop_last()) * 10 + digit_value(digit_char(n)));
        assert(seq![digit_char(n)].drop_last() == Seq::<char>::empty());
    }
}

/// `u64` rendering and `u64` parsing are inverse.
pub proof fn lemma_parse_u64_of_decimal(n: u64)
    ensures
        parse_u64_spec(nat_decimal(n as nat)) == Some(n),
{
    lemma_nat_decimal_digits(n as nat);
}

/// `i64` rendering and `i64` parsing are inverse.
pub proof fn lemma_parse_i64_of_decimal(n: i64)
    ensures
        parse_i64_spec(int_decimal(n as int)) == Some(n),
{
    if n < 0 {
        let m: nat = (-n) as nat;
        lemma_nat_decimal_digits(m);
        let s = seq!['-'] + nat_decimal(m);
        assert(s[0] == '-');
        assert(s.drop_first() == nat_decimal(m));
    } else {
        lemma_nat_decimal_digits(n as nat);
    }
}

} // verus!
