//! Decimal text of unsigned integers.
use vstd::prelude::*;

use crate::text::push_char;

verus! {

pub open spec fn digit_char(d: nat) -> char
    recommends
        d < 10,
{
    (('0' as u32) + d) as char
}

/// The decimal digits of `n`, most significant first, with no leading zero.
pub open spec fn decimal_text(n: nat) -> Seq<char>
    decreases n,
{
    if n < 10 {
        seq![digit_char(n)]
    } else {
        decimal_text(n / 10).push(digit_char(n % 10))
    }
}

/// Writes `n` in decimal.
pub fn decimal(n: u128) -> (r: String)
    ensures
        r@ == decimal_text(n as nat),
    decreases n,
{
    if n < 10 {
        let mut s = String::new();
        push_char(&mut s, char_of_digit(n as u8));
        s
    } else {
        let mut s = decimal(n / 10);
        push_char(&mut s, char_of_digit((n % 10) as u8));
        s
    }
}

fn char_of_digit(d: u8) -> (c: char)
    requires
        d < 10,
    ensures
        c == digit_char(d as nat),
{
    (48u8 + d) as char
}

pub open spec fn is_decimal_digit(c: char) -> bool {
    '0' <= c && c <= '9'
}

/// Decimal text is never empty, holds only digits, and has a single digit
/// exactly for the numbers below ten.
pub proof fn lemma_decimal_text_digits(n: nat)
    ensures
        decimal_text(n).len() >= 1,
        (decimal_text(n).len() == 1) <==> n < 10,
        forall|i: int| 0 <= i < decimal_text(n).len() ==> is_decimal_digit(
            #[trigger] decimal_text(n)[i],
        ),
    decreases n,
{
    if n >= 10 {
        lemma_decimal_text_digits(n / 10);
        let p = decimal_text(n / 10);
        assert forall|i: int| 0 <= i < decimal_text(n).len() implies is_decimal_digit(
            #[trigger] decimal_text(n)[i],
        ) by {
            if i < p.len() {
                assert(decimal_text(n)[i] == p[i]);
            }
        }
    }
}

/// Different numbers have different decimal texts.
pub proof fn lemma_decimal_text_injective(a: nat, b: nat)
    requires
        decimal_text(a) == decimal_text(b),
    ensures
        a == b,
    decreases a,
{
    lemma_decimal_text_digits(a);
    lemma_decimal_text_digits(b);
    if a < 10 && b < 10 {
        assert(decimal_text(a)[0] == digit_char(a));
        assert(decimal_text(b)[0] == digit_char(b));
    } else if a >= 10 && b >= 10 {
        let ta = decimal_text(a);
        let tb = decimal_text(b);
        assert(ta.last() == digit_char(a % 10));
        assert(tb.last() == digit_char(b % 10));
        assert(ta.drop_last() =~= decimal_text(a / 10));
        assert(tb.drop_last() =~= decimal_text(b / 10));
        lemma_decimal_text_injective(a / 10, b / 10);
    }
}

} // verus!
