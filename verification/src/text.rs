//! Text helpers: ASCII case folding, comparison, decimal rendering and column padding.
//!
//! Every function works on the characters of a string. Its contract is stated over the
//! `Seq<char>` view, so callers never reason about byte offsets.

use vstd::prelude::*;

verus! {

/// `String::push` appends one character to the end of the string and changes nothing else.
pub assume_specification[ String::push ](s: &mut String, ch: char)
    ensures
        final(s)@ == old(s)@.push(ch),
;

/// The lowercase form of an ASCII letter; any other character is left alone.
pub open spec fn ascii_lower(c: char) -> char {
    if 'A' <= c && c <= 'Z' {
        (c as u32 + 32) as char
    } else {
        c
    }
}

/// `s` with every ASCII letter in lowercase.
pub open spec fn lower(s: Seq<char>) -> Seq<char> {
    Seq::new(s.len(), |i: int| ascii_lower(s[i]))
}

pub open spec fn is_ascii_digit(c: char) -> bool {
    '0' <= c && c <= '9'
}

pub open spec fn is_ascii_alphanumeric(c: char) -> bool {
    ||| is_ascii_digit(c)
    ||| 'a' <= c && c <= 'z'
    ||| 'A' <= c && c <= 'Z'
}

/// The character for one decimal digit.
pub open spec fn digit(d: nat) -> char {
    (48 + d) as char
}

/// `n` in decimal, without leading zeros.
pub open spec fn decimal(n: nat) -> Seq<char>
    decreases n,
{
    if n < 10 {
        seq![digit(n)]
    } else {
        decimal(n / 10).push(digit(n % 10))
    }
}

/// `v` in decimal, with a leading `-` when it is negative.
pub open spec fn signed_decimal(v: int) -> Seq<char> {
    if v < 0 {
        seq!['-'] + decimal((-v) as nat)
    } else {
        decimal(v as nat)
    }
}

/// The number that a run of decimal digits stands for.
pub open spec fn decimal_value(s: Seq<char>) -> nat
    decreases s.len(),
{
    if s.len() == 0 {
        0
    } else {
        (decimal_value(s.drop_last()) * 10 + (s.last() as u32 - 48)) as nat
    }
}

/// `s` followed by as many spaces as it takes to reach `width` characters.
pub open spec fn pad_right_spec(s: Seq<char>, width: nat) -> Seq<char> {
    if s.len() >= width {
        s
    } else {
        s + Seq::new((width - s.len()) as nat, |i: int| ' ')
    }
}

/// The text held by an optional string.
pub open spec fn opt_text(s: Option<String>) -> Option<Seq<char>> {
    match s {
        Some(text) => Some(text@),
        None => None,
    }
}

/// The characters of `s`, in order.
pub(crate) fn chars_of(s: &str) -> (v: Vec<char>)
    ensures
        v@ == s@,
{
    let mut v: Vec<char> = Vec::new();
    for c in it: s.chars()
        invariant
            it.seq() == s@,
            v@ == s@.take(it.index() as int),
    {
        v.push(c);
    }
    v
}

/// Whether two strings hold the same characters.
pub(crate) fn same_text(a: &str, b: &str) -> (same: bool)
    ensures
        same == (a@ == b@),
{
    let x = a.as_bytes();
    let y = b.as_bytes();
    proof {
        vstd::utf8::encode_utf8_decode_utf8(a@);
        vstd::utf8::encode_utf8_decode_utf8(b@);
    }
    if x.len() != y.len() {
        return false;
    }
    let mut i: usize = 0;
    while i < x.len()
        invariant
            i <= x@.len(),
            x@.len() == y@.len(),
            x@ == vstd::utf8::encode_utf8(a@),
            y@ == vstd::utf8::encode_utf8(b@),
            forall|j: int| 0 <= j < i ==> x@[j] == y@[j],
        decreases x@.len() - i,
    {
        if x[i] != y[i] {
            return false;
        }
        i = i + 1;
    }
    assert(x@ =~= y@);
    true
}

/// The lowercase form of one ASCII letter; any other character is left alone.
pub(crate) fn to_lower(c: char) -> (l: char)
    ensures
        l == ascii_lower(c),
{
    if 'A' <= c && c <= 'Z' {
        let code: u32 = c as u32;
        let low: u8 = (code + 32) as u8;
        low as char
    } else {
        c
    }
}

/// `s` with every ASCII letter in lowercase.
pub(crate) fn lower_text(s: &str) -> (v: Vec<char>)
    ensures
        v@ == lower(s@),
{
    let mut v: Vec<char> = Vec::new();
    for c in it: s.chars()
        invariant
            it.seq() == s@,
            v@ == lower(s@).take(it.index() as int),
    {
        v.push(to_lower(c));
    }
    v
}

/// Whether `a` holds the characters of `b` from position `from` to the end.
pub(crate) fn same_chars(a: &Vec<char>, b: &Vec<char>, from: usize) -> (same: bool)
    requires
        from <= b@.len(),
    ensures
        same == (a@ == b@.skip(from as int)),
{
    let total: usize = b.len();
    if a.len() != total - from {
        return false;
    }
    let mut i: usize = 0;
    while i < a.len()
        invariant
            i <= a@.len(),
            total == b@.len(),
            from <= total,
            a@.len() == total - from,
            forall|j: int| 0 <= j < i ==> a@[j] == b@[from + j],
        decreases a@.len() - i,
    {
        if a[i] != b[from + i] {
            assert(b@.skip(from as int)[i as int] == b@[from + i]);
            return false;
        }
        i = i + 1;
    }
    assert(a@ =~= b@.skip(from as int));
    true
}

/// Whether two strings are equal once ASCII case is ignored.
pub(crate) fn same_text_ignoring_case(a: &str, b: &str) -> (same: bool)
    ensures
        same == (lower(a@) == lower(b@)),
{
    let x = lower_text(a);
    let y = lower_text(b);
    let same = same_chars(&x, &y, 0);
    assert(y@.skip(0) =~= y@);
    same
}

/// Append `n` to `out` in decimal.
pub(crate) fn push_decimal(out: &mut String, n: u64)
    ensures
        final(out)@ == old(out)@ + decimal(n as nat),
    decreases n,
{
    if n < 10 {
        out.push((48 + n as u8) as char);
    } else {
        push_decimal(out, n / 10);
        out.push((48 + (n % 10) as u8) as char);
    }
    assert(out@ =~= old(out)@ + decimal(n as nat));
}

/// Append `v` to `out` in decimal, with a leading `-` when it is negative.
pub(crate) fn push_signed_decimal(out: &mut String, v: i64)
    ensures
        final(out)@ == old(out)@ + signed_decimal(v as int),
{
    if v < 0 {
        out.push('-');
        let magnitude: u64 = (-(v as i128)) as u64;
        push_decimal(out, magnitude);
    } else {
        push_decimal(out, v as u64);
    }
    assert(out@ =~= old(out)@ + signed_decimal(v as int));
}

/// Append `s` to `out`, followed by spaces up to `width` characters.
pub(crate) fn push_padded(out: &mut String, s: &str, width: usize)
    ensures
        final(out)@ == old(out)@ + pad_right_spec(s@, width as nat),
{
    out.append(s);
    let mut len: usize = s.unicode_len();
    let ghost start = s@.len() as int;
    while len < width
        invariant
            start == s@.len(),
            start <= len,
            start <= width ==> len <= width,
            start > width ==> len == start,
            out@ == old(out)@ + s@ + Seq::new((len - start) as nat, |i: int| ' '),
        decreases width - len,
    {
        out.push(' ');
        len = len + 1;
        assert(out@ =~= old(out)@ + s@ + Seq::new((len - start) as nat, |i: int| ' '));
    }
    assert(out@ =~= old(out)@ + pad_right_spec(s@, width as nat));
}

} // verus!
