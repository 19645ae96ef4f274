//! Text helpers: comparing strings and writing numbers in decimal.
use vstd::prelude::*;
use vstd::string::StrSliceExecFns;

verus! {

/// The character of a decimal digit.
pub open spec fn digit_char(d: nat) -> char {
    if d == 0 { '0' }
    else if d == 1 { '1' }
    else if d == 2 { '2' }
    else if d == 3 { '3' }
    else if d == 4 { '4' }
    else if d == 5 { '5' }
    else if d == 6 { '6' }
    else if d == 7 { '7' }
    else if d == 8 { '8' }
    else { '9' }
}

/// `n` written in decimal, without leading zeros ("0" for zero).
pub open spec fn decimal(n: nat) -> Seq<char>
    decreases n,
{
    if n < 10 {
        seq![digit_char(n)]
    } else {
        decimal(n / 10).push(digit_char(n % 10))
    }
}

/// `i` written in decimal, with a leading '-' when negative.
pub open spec fn signed_decimal(i: int) -> Seq<char> {
    if i < 0 {
        seq!['-'] + decimal((-i) as nat)
    } else {
        decimal(i as nat)
    }
}

/// The value of a decimal digit character.
pub open spec fn digit_value(c: char) -> int {
    c as int - '0' as int
}

/// Whether every character of `s` is a decimal digit.
pub open spec fn all_digits(s: Seq<char>) -> bool {
    forall|i: int| 0 <= i < s.len() ==> '0' <= #[trigger] s[i] <= '9'
}

/// The number the decimal digits of `s` spell.
pub open spec fn digits_value(s: Seq<char>) -> int
    decreases s.len(),
{
    if s.len() == 0 {
        0
    } else {
        digits_value(s.drop_last()) * 10 + digit_value(s.last())
    }
}

/// The integer a text spells: an optional sign, then one or more decimal digits.
pub open spec fn parsed_int(s: Seq<char>) -> Option<int> {
    if s.len() > 0 && (s[0] == '-' || s[0] == '+') {
        let rest = s.drop_first();
        if rest.len() > 0 && all_digits(rest) {
            Some(if s[0] == '-' { -digits_value(rest) } else { digits_value(rest) })
        } else {
            None
        }
    } else if s.len() > 0 && all_digits(s) {
        Some(digits_value(s))
    } else {
        None
    }
}

/// The `i64` a text spells, if it spells one in range.
pub open spec fn parsed_i64(s: Seq<char>) -> Option<i64> {
    match parsed_int(s) {
        Some(v) => if i64::MIN <= v <= i64::MAX { Some(v as i64) } else { None },
        None => None,
    }
}

/// The `i32` a text spells, if it spells one in range.
pub open spec fn parsed_i32(s: Seq<char>) -> Option<i32> {
    match parsed_int(s) {
        Some(v) => if i32::MIN <= v <= i32::MAX { Some(v as i32) } else { None },
        None => None,
    }
}

/// The `u32` a text spells, if it spells one in range (no minus sign allowed).
pub open spec fn parsed_u32(s: Seq<char>) -> Option<u32> {
    if s.len() > 0 && s[0] == '-' {
        None
    } else {
        match parsed_int(s) {
            Some(v) => if 0 <= v <= u32::MAX { Some(v as u32) } else { None },
            None => None,
        }
    }
}

/// Reads a `u32` from text (`str::parse::<u32>`): an optional `+`, then
/// decimal digits, nothing else, in range.
#[verifier::external_body]
pub(crate) fn parse_u32(s: &str) -> (r: Option<u32>)
    ensures
        r == parsed_u32(s@),
{
    s.parse::<u32>().ok()
}

/// The text with leading and trailing white space removed (`str::trim`).
pub uninterp spec fn trimmed(s: Seq<char>) -> Seq<char>;

/// `s` without leading and trailing white space (`str::trim`, Unicode
/// White_Space). The contract names the result; the character class is
/// not written out here.
#[verifier::external_body]
pub(crate) fn trim_text(s: &str) -> (r: String)
    ensures
        r@ == trimmed(s@),
{
    s.trim().to_string()
}

/// Reads an `i64` from text (`str::parse::<i64>`): an optional `+` or `-`,
/// then decimal digits, nothing else, in range.
#[verifier::external_body]
pub(crate) fn parse_i64(s: &str) -> (r: Option<i64>)
    ensures
        r == parsed_i64(s@),
{
    s.parse::<i64>().ok()
}

/// Reads an `i32` from text (`str::parse::<i32>`), as `parse_i64` does.
#[verifier::external_body]
pub(crate) fn parse_i32(s: &str) -> (r: Option<i32>)
    ensures
        r == parsed_i32(s@),
{
    s.parse::<i32>().ok()
}

/// `n` as decimal text (`u32::to_string`).
#[verifier::external_body]
pub(crate) fn u32_text(n: u32) -> (r: String)
    ensures
        r@ == decimal(n as nat),
{
    n.to_string()
}

/// `n` as decimal text (`usize::to_string`).
#[verifier::external_body]
pub(crate) fn usize_text(n: usize) -> (r: String)
    ensures
        r@ == decimal(n as nat),
{
    n.to_string()
}

/// A one-character string (`char::to_string`).
#[verifier::external_body]
pub(crate) fn char_text(c: char) -> (r: String)
    ensures
        r@ == seq![c],
{
    c.to_string()
}

/// `n` as decimal text (`i32::to_string`).
#[verifier::external_body]
pub(crate) fn i32_text(n: i32) -> (r: String)
    ensures
        r@ == signed_decimal(n as int),
{
    n.to_string()
}

/// `n` as decimal text (`i64::to_string`).
#[verifier::external_body]
pub(crate) fn i64_text(n: i64) -> (r: String)
    ensures
        r@ == signed_decimal(n as int),
{
    n.to_string()
}

/// `a` followed by `b`, as a new string (`format!` of the two).
#[verifier::external_body]
pub(crate) fn concat(a: &str, b: &str) -> (r: String)
    ensures
        r@ == a@ + b@,
{
    format!("{a}{b}")
}

/// Whether `s` begins with `prefix`.
pub open spec fn has_prefix(s: Seq<char>, prefix: Seq<char>) -> bool {
    prefix.len() <= s.len() && s.subrange(0, prefix.len() as int) == prefix
}

/// Whether `s` begins with the characters of `prefix`.
pub fn starts_with(s: &str, prefix: &str) -> (r: bool)
    ensures
        r == has_prefix(s@, prefix@),
{
    let n = prefix.unicode_len();
    if n > s.unicode_len() {
        return false;
    }
    let mut i: usize = 0;
    while i < n
        invariant
            n == prefix@.len(),
            n <= s@.len(),
            i <= n,
            forall|j: int| 0 <= j < i ==> s@[j] == prefix@[j],
        decreases n - i,
    {
        if s.get_char(i) != prefix.get_char(i) {
            assert(s@.subrange(0, n as int)[i as int] != prefix@[i as int]);
            return false;
        }
        i = i + 1;
    }
    assert(s@.subrange(0, n as int) =~= prefix@);
    true
}

/// The pieces of `s` between occurrences of `sep` (`str::split` on a
/// character): one piece more than there are separators.
pub open spec fn split_on(s: Seq<char>, sep: char) -> Seq<Seq<char>>
    decreases s.len(),
{
    if s.len() == 0 {
        seq![Seq::<char>::empty()]
    } else {
        let prev = split_on(s.drop_last(), sep);
        if s.last() == sep {
            prev.push(Seq::<char>::empty())
        } else {
            prev.update(prev.len() - 1, prev.last().push(s.last()))
        }
    }
}

/// The pieces end with the text after the last separator.
proof fn lemma_split_on_last(s: Seq<char>, sep: char, start: int)
    requires
        0 <= start <= s.len(),
        forall|j: int| start <= j < s.len() ==> s[j] != sep,
        start == 0 || s[start - 1] == sep,
    ensures
        split_on(s, sep).len() >= 1,
        split_on(s, sep).last() == s.subrange(start, s.len() as int),
        split_on(s, sep).drop_last() == split_on(s.subrange(0, start), sep).drop_last(),
    decreases s.len(),
{
    if s.len() == 0 {
    } else if s.len() == start {
        let prev = split_on(s.drop_last(), sep);
        lemma_split_len(s.drop_last(), sep);
        assert(s.subrange(0, start) =~= s);
        assert(split_on(s, sep).drop_last() =~= split_on(s.subrange(0, start), sep).drop_last());
    } else {
        lemma_split_on_last(s.drop_last(), sep, start);
        let prev = split_on(s.drop_last(), sep);
        assert(s.drop_last().subrange(start, s.len() - 1).push(s.last()) =~= s.subrange(start, s.len() as int));
        assert(s.drop_last().subrange(0, start) =~= s.subrange(0, start));
        assert(split_on(s, sep).drop_last() =~= prev.drop_last());
    }
}

proof fn lemma_split_len(s: Seq<char>, sep: char)
    ensures
        split_on(s, sep).len() >= 1,
    decreases s.len(),
{
    if s.len() > 0 {
        lemma_split_len(s.drop_last(), sep);
    }
}

/// The pieces of `s` between occurrences of `sep`.
pub fn split_char(s: &str, sep: char) -> (r: Vec<String>)
    ensures
        r@.map_values(|p: String| p@) == split_on(s@, sep),
{
    let n = s.unicode_len();
    let mut out: Vec<String> = Vec::new();
    let mut start: usize = 0;
    let mut i: usize = 0;
    while i < n
        invariant
            n == s@.len(),
            start <= i <= n,
            start == 0 || s@[start - 1] == sep,
            forall|j: int| start <= j < i ==> s@[j] != sep,
            out@.map_values(|p: String| p@) == split_on(s@.subrange(0, start as int), sep).drop_last(),
        decreases n - i,
    {
        if s.get_char(i) == sep {
            let piece = s.substring_char(start, i).to_string();
            proof {
                let t = s@.subrange(0, i + 1);
                lemma_split_on_last(s@.subrange(0, i as int), sep, start as int);
                assert(s@.subrange(0, i as int).subrange(0, start as int) =~= s@.subrange(0, start as int));
                assert(s@.subrange(0, i as int).subrange(start as int, i as int) =~= s@.subrange(start as int, i as int));
                assert(t.drop_last() =~= s@.subrange(0, i as int));
                assert(t.last() == sep);
                let prev = split_on(s@.subrange(0, i as int), sep);
                assert(split_on(t, sep) == prev.push(Seq::<char>::empty()));
                assert(split_on(t, sep).drop_last() =~= prev);
                assert(prev =~= prev.drop_last().push(prev.last()));
                assert(out@.push(piece).map_values(|p: String| p@) =~= out@.map_values(|p: String| p@).push(piece@));
            }
            out.push(piece);
            start = i + 1;
        }
        i = i + 1;
    }
    let last = s.substring_char(start, n).to_string();
    proof {
        lemma_split_on_last(s@, sep, start as int);
        assert(s@.subrange(0, n as int) =~= s@);
        let full = split_on(s@, sep);
        assert(full =~= full.drop_last().push(full.last()));
        assert(out@.push(last).map_values(|p: String| p@) =~= out@.map_values(|p: String| p@).push(last@));
    }
    out.push(last);
    out
}

/// Whether two strings hold the same characters.
pub fn str_eq(a: &str, b: &str) -> (r: bool)
    ensures
        r == (a@ == b@),
{
    let n = a.unicode_len();
    if n != b.unicode_len() {
        return false;
    }
    let mut i: usize = 0;
    while i < n
        invariant
            n == a@.len(),
            n == b@.len(),
            i <= n,
            forall|j: int| 0 <= j < i ==> a@[j] == b@[j],
        decreases n - i,
    {
        if a.get_char(i) != b.get_char(i) {
            return false;
        }
        i = i + 1;
    }
    assert(a@ =~= b@);
    true
}

} // verus!
