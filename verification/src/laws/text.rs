//! Laws of case folding, of decimal numbers and of columns.

use vstd::prelude::*;

verus! {

/// `a` and `b` are one character, or the two cases of one ASCII letter.
pub open spec fn same_letter(a: char, b: char) -> bool {
    ||| a == b
    ||| 65 <= a as int <= 90 && b as int == a as int + 32
    ||| 65 <= b as int <= 90 && a as int == b as int + 32
}

/// `s` and `t` are one text, but for the case of their ASCII letters.
pub open spec fn same_but_for_case(s: Seq<char>, t: Seq<char>) -> bool {
    &&& s.len() == t.len()
    &&& forall|i: int| 0 <= i < s.len() ==> same_letter(#[trigger] s[i], t[i])
}

/// Folding joins the two cases of an ASCII letter and nothing else, never leaves an uppercase
/// letter, and changes nothing that is folded already.
pub proof fn law_folding_joins_the_two_cases_of_a_letter(a: char, b: char)
    ensures
        crate::text::ascii_lower(a) == crate::text::ascii_lower(b) <==> {
            ||| a == b
            ||| 65 <= a as int <= 90 && b as int == a as int + 32
            ||| 65 <= b as int <= 90 && a as int == b as int + 32
        },
        !(65 <= crate::text::ascii_lower(a) as int <= 90),
        crate::text::ascii_lower(crate::text::ascii_lower(a)) == crate::text::ascii_lower(a),
        crate::text::ascii_lower(a) == '.' <==> a == '.',
{
}

/// Two texts fold to one text exactly when they differ in the case of their letters at most.
pub proof fn law_texts_fold_alike(s: Seq<char>, t: Seq<char>)
    ensures
        crate::text::lower(s).len() == s.len(),
        crate::text::lower(s) == crate::text::lower(t) <==> same_but_for_case(s, t),
{
    let x = crate::text::lower(s);
    let y = crate::text::lower(t);
    if x == y {
        assert(s.len() == x.len() && t.len() == y.len());
        assert forall|i: int| 0 <= i < s.len() implies same_letter(#[trigger] s[i], t[i]) by {
            assert(x[i] == crate::text::ascii_lower(s[i]));
            assert(y[i] == crate::text::ascii_lower(t[i]));
            law_folding_joins_the_two_cases_of_a_letter(s[i], t[i]);
        }
    }
    if same_but_for_case(s, t) {
        assert forall|i: int| 0 <= i < s.len() implies x[i] == y[i] by {
            assert(same_letter(s[i], t[i]));
            law_folding_joins_the_two_cases_of_a_letter(s[i], t[i]);
        }
        assert(x =~= y);
    }
}

/// Texts without uppercase letters fold to one text only when they are the same text.
pub proof fn law_lowercase_texts_are_told_apart(s: Seq<char>, t: Seq<char>)
    requires
        forall|i: int| 0 <= i < s.len() ==> !(65 <= (#[trigger] s[i]) as int <= 90),
        forall|i: int| 0 <= i < t.len() ==> !(65 <= (#[trigger] t[i]) as int <= 90),
    ensures
        crate::text::lower(s) == crate::text::lower(t) <==> s == t,
{
    law_texts_fold_alike(s, t);
    if same_but_for_case(s, t) {
        assert forall|i: int| 0 <= i < s.len() implies s[i] == t[i] by {
            assert(same_letter(s[i], t[i]));
        }
        assert(s =~= t);
    }
}

/// A number of one digit is that digit; any other is the number without its last digit, followed by
/// that digit.
pub proof fn law_a_decimal_ends_in_its_last_digit(n: nat, d: nat)
    requires
        d < 10,
    ensures
        crate::text::decimal(n * 10 + d).last() as int == 48 + d,
        n == 0 ==> crate::text::decimal(n * 10 + d).len() == 1,
        n > 0 ==> crate::text::decimal(n * 10 + d).drop_last() == crate::text::decimal(n),
{
    let m = n * 10 + d;
    if m >= 10 {
        assert(m / 10 == n && m % 10 == d);
        assert(crate::text::decimal(m).drop_last() =~= crate::text::decimal(n));
    }
}

/// A negative number is a minus sign and the number without it.
pub proof fn law_a_sign_stands_in_front(v: nat)
    ensures
        crate::text::signed_decimal(v as int) == crate::text::decimal(v),
        v > 0 ==> crate::text::signed_decimal(-v) == seq!['-'] + crate::text::decimal(v),
{
}

/// One more digit behind a run of digits makes it worth ten times as much, and the digit more.
pub proof fn law_digits_are_worth_powers_of_ten(s: Seq<char>, c: char)
    requires
        48 <= c as int <= 57,
    ensures
        crate::text::decimal_value(Seq::empty()) == 0,
        crate::text::decimal_value(s.push(c)) == 10 * crate::text::decimal_value(s) + (c as int
            - 48),
{
    assert(s.push(c).drop_last() =~= s);
}

/// A padded text starts with the text, has the width asked for unless the text is longer, and holds
/// nothing but spaces behind the text.
pub proof fn law_padding_only_adds_spaces(s: Seq<char>, width: nat)
    ensures
        crate::text::pad_right_spec(s, width).len() == if s.len() < width {
            width
        } else {
            s.len()
        },
        crate::text::pad_right_spec(s, width).take(s.len() as int) == s,
        forall|i: int|
            s.len() <= i < width ==> #[trigger] crate::text::pad_right_spec(s, width)[i] == ' ',
{
    assert(crate::text::pad_right_spec(s, width).take(s.len() as int) =~= s);
}

} // verus!
