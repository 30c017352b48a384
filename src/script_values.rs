//! Text of plain values as they appear in generated scripts.
use vstd::prelude::*;
use vstd::string::*;

use crate::decimal::{decimal, decimal_text};

verus! {

pub open spec fn bool_text(b: bool) -> Seq<char> {
    if b {
        "true"@
    } else {
        "false"@
    }
}

pub fn bool_literal(b: bool) -> (r: String)
    ensures
        r@ == bool_text(b),
{
    if b {
        String::from_str("true")
    } else {
        String::from_str("false")
    }
}

/// A signed integer in decimal, with a leading `-` where negative.
pub open spec fn int_text(i: int) -> Seq<char> {
    if i < 0 {
        seq!['-'] + decimal_text((-i) as nat)
    } else {
        decimal_text(i as nat)
    }
}

pub fn integer(i: i64) -> (r: String)
    ensures
        r@ == int_text(i as int),
{
    if i < 0 {
        let mut s = String::from_str("-");
        let magnitude: u128 = (0i128 - (i as i128)) as u128;
        let d = decimal(magnitude);
        s.append(d.as_str());
        proof {
            reveal_strlit("-");
        }
        assert(s@ =~= int_text(i as int));
        s
    } else {
        decimal(i as u128)
    }
}

pub fn natural(n: u64) -> (r: String)
    ensures
        r@ == decimal_text(n as nat),
{
    decimal(n as u128)
}

pub uninterp spec fn lower_of(s: Seq<char>) -> Seq<char>;

/// Relies on `str::to_lowercase`: the lowercase mapping of each character
/// by the Unicode character database; the result depends on `s` alone.
#[verifier::external_body]
pub(crate) fn lowercase(s: &str) -> (r: String)
    ensures
        r@ == lower_of(s@),
{
    s.to_lowercase()
}

/// The text of an optional string.
pub open spec fn opt_text(o: Option<&str>) -> Option<Seq<char>> {
    match o {
        Some(t) => Some(t@),
        None => None,
    }
}

pub fn push_int(s: &mut String, i: i64)
    ensures
        final(s)@ == old(s)@ + int_text(i as int),
{
    let t = integer(i);
    s.append(t.as_str());
}

pub fn push_natural(s: &mut String, n: u64)
    ensures
        final(s)@ == old(s)@ + decimal_text(n as nat),
{
    let t = natural(n);
    s.append(t.as_str());
}

} // verus!
