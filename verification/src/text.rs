//! Character-level helpers: strings as sequences of `char`, cutting at a
//! separator, and signed decimal integers.

use vstd::prelude::*;

verus! {

/// What stands before the first `sep` in `s`; all of `s` where it holds none.
pub open spec fn before(s: Seq<char>, sep: char) -> Seq<char> {
    match s.index_of_first(sep) {
        Some(i) => s.take(i),
        None => s,
    }
}

/// What stands after the first `sep` in `s`, where there is one.
pub open spec fn after(s: Seq<char>, sep: char) -> Option<Seq<char>> {
    match s.index_of_first(sep) {
        Some(i) => Some(s.skip(i + 1)),
        None => None,
    }
}

pub open spec fn is_digit(c: char) -> bool {
    '0' <= c <= '9'
}

pub open spec fn digit_value(c: char) -> int {
    c as int - '0' as int
}

pub open spec fn all_digits(s: Seq<char>) -> bool {
    forall|i: int| 0 <= i < s.len() ==> is_digit(#[trigger] s[i])
}

/// The number that a run of decimal digits writes, most significant first.
pub open spec fn decimal(s: Seq<char>) -> int
    decreases s.len(),
{
    if s.len() == 0 {
        0
    } else {
        decimal(s.drop_last()) * 10 + digit_value(s.last())
    }
}

/// The digits of a signed decimal: `s` without one leading `+` or `-`.
pub open spec fn unsigned_part(s: Seq<char>) -> Seq<char> {
    if s.len() > 0 && (s[0] == '-' || s[0] == '+') {
        s.skip(1)
    } else {
        s
    }
}

/// The integer that `s` writes: an optional sign, then one or more decimal
/// digits and nothing else, the value within `i32`. `None` for anything else.
pub open spec fn signed_decimal(s: Seq<char>) -> Option<i32> {
    let digits = unsigned_part(s);
    let magnitude = decimal(digits);
    let value = if s.len() > 0 && s[0] == '-' {
        -magnitude
    } else {
        magnitude
    };
    if digits.len() > 0 && all_digits(digits) && i32::MIN <= value <= i32::MAX {
        Some(value as i32)
    } else {
        None
    }
}

/// The characters of `s`, in order.
pub fn chars_of(s: &str) -> (v: Vec<char>)
    ensures
        v@ == s@,
{
    let mut v: Vec<char> = Vec::new();
    for c in it: s.chars()
        invariant
            v@ == it.seq().take(it.index() as int),
            it.seq() == s@,
    {
        v.push(c);
    }
    v
}

/// Copies `s[from..to]`.
fn slice_of(s: &Vec<char>, from: usize, to: usize) -> (v: Vec<char>)
    requires
        from <= to <= s.len(),
    ensures
        v@ == s@.subrange(from as int, to as int),
{
    let mut v: Vec<char> = Vec::new();
    let mut i: usize = from;
    while i < to
        invariant
            from <= i <= to <= s.len(),
            v@ == s@.subrange(from as int, i as int),
        decreases to - i,
    {
        v.push(s[i]);
        i += 1;
    }
    v
}

/// Cuts `s` at its first `sep`: the part before it, and the part after it
/// where `s` holds a `sep` at all.
pub fn cut(s: &Vec<char>, sep: char) -> (parts: (Vec<char>, Option<Vec<char>>))
    ensures
        parts.0@ == before(s@, sep),
        match parts.1 {
            Some(rest) => after(s@, sep) == Some(rest@),
            None => after(s@, sep) is None,
        },
{
    let mut i: usize = 0;
    while i < s.len() && s[i] != sep
        invariant
            i <= s.len(),
            forall|j: int| 0 <= j < i ==> s@[j] != sep,
        decreases s.len() - i,
    {
        i += 1;
    }
    proof {
        s@.index_of_first_ensures(sep);
    }
    if i < s.len() {
        let head = slice_of(s, 0, i);
        let rest = slice_of(s, i + 1, s.len());
        (head, Some(rest))
    } else {
        let head = slice_of(s, 0, i);
        (head, None)
    }
}

/// Reads a signed decimal integer: an optional `+` or `-`, then digits only.
pub fn parse_i32(s: &Vec<char>) -> (r: Option<i32>)
    ensures
        r == signed_decimal(s@),
{
    let n = s.len();
    if n == 0 {
        return None;
    }
    let negative = s[0] == '-';
    let start: usize = if s[0] == '-' || s[0] == '+' {
        1
    } else {
        0
    };
    if start == n {
        return None;
    }
    let ghost digits = unsigned_part(s@);
    let mut acc: i64 = 0;
    let mut too_big = false;
    let mut i: usize = start;
    while i < n
        invariant
            start <= i <= n == s.len(),
            digits == s@.skip(start as int),
            digits == unsigned_part(s@),
            all_digits(digits.take(i - start)),
            !too_big ==> acc == decimal(digits.take(i - start)) && 0 <= acc <= 0x8000_0000,
            too_big ==> decimal(digits.take(i - start)) > 0x8000_0000,
        decreases n - i,
    {
        let c = s[i];
        let ghost prefix = digits.take(i - start);
        let ghost longer = digits.take(i - start + 1);
        assert(digits[i - start] == c);
        assert(longer.drop_last() == prefix);
        if !(c >= '0' && c <= '9') {
            return None;
        }
        let d: i64 = (c as u32 - '0' as u32) as i64;
        if !too_big {
            acc = acc * 10 + d;
            if acc > 0x8000_0000 {
                too_big = true;
            }
        }
        i += 1;
    }
    assert(digits.take(n - start) == digits);
    if too_big {
        return None;
    }
    if negative {
        Some((-acc) as i32)
    } else if acc > 0x7fff_ffff {
        None
    } else {
        Some(acc as i32)
    }
}

/// Whether two strings hold the same characters.
pub fn same_text(a: &str, b: &str) -> (r: bool)
    ensures
        r == (a@ == b@),
{
    let x = chars_of(a);
    let y = chars_of(b);
    if x.len() != y.len() {
        return false;
    }
    let mut i: usize = 0;
    while i < x.len()
        invariant
            i <= x.len() == y.len(),
            x@ == a@,
            y@ == b@,
            forall|j: int| 0 <= j < i ==> x@[j] == y@[j],
        decreases x.len() - i,
    {
        if x[i] != y[i] {
            return false;
        }
        i += 1;
    }
    assert(x@ =~= y@);
    true
}

/// Whether `s` begins with `prefix`.
pub open spec fn starts_with(s: Seq<char>, prefix: Seq<char>) -> bool {
    prefix.len() <= s.len() && s.take(prefix.len() as int) == prefix
}

/// `s` without its leading `prefix`, where it has that prefix.
pub fn strip_prefix<'a>(s: &'a str, prefix: &str) -> (rest: Option<&'a str>)
    ensures
        match rest {
            Some(r) => starts_with(s@, prefix@) && r@ == s@.skip(prefix@.len() as int),
            None => !starts_with(s@, prefix@),
        },
{
    let x = chars_of(s);
    let y = chars_of(prefix);
    if y.len() > x.len() {
        return None;
    }
    let mut i: usize = 0;
    while i < y.len()
        invariant
            i <= y.len() <= x.len(),
            x@ == s@,
            y@ == prefix@,
            forall|j: int| 0 <= j < i ==> x@[j] == y@[j],
        decreases y.len() - i,
    {
        if x[i] != y[i] {
            return None;
        }
        i += 1;
    }
    assert(s@.take(prefix@.len() as int) =~= prefix@);
    let rest = s.substring_char(y.len(), x.len());
    Some(rest)
}

/// Where `sep` first occurs at place `i`, the cut falls there.
pub proof fn lemma_cut_at(s: Seq<char>, sep: char, i: int)
    requires
        0 <= i < s.len(),
        s[i] == sep,
        forall|j: int| 0 <= j < i ==> s[j] != sep,
    ensures
        before(s, sep) == s.take(i),
        after(s, sep) == Some(s.skip(i + 1)),
{
    s.index_of_first_ensures(sep);
}

/// A text without `sep` is not cut.
pub proof fn lemma_uncut(s: Seq<char>, sep: char)
    requires
        forall|j: int| 0 <= j < s.len() ==> s[j] != sep,
    ensures
        before(s, sep) == s,
        after(s, sep) is None,
{
    s.index_of_first_ensures(sep);
}

} // verus!
