//! The scripting language's grammar for double-quoted short string literals,
//! as a decoder over characters, and the laws tying it to `lua_string`.
use vstd::prelude::*;

use crate::script_text::{escape_char, escape_chars, lua_literal, normalized, slash_char};

verus! {

pub open spec fn is_digit(c: char) -> bool {
    '0' <= c && c <= '9'
}

pub open spec fn digit_value(c: char) -> nat {
    (c as u32 - '0' as u32) as nat
}

/// The character denoted by a one-letter escape `\e`, if `e` is one.
pub open spec fn simple_escape(e: char) -> Option<char> {
    if e == 'n' {
        Some('\n')
    } else if e == 'r' {
        Some('\r')
    } else if e == 't' {
        Some('\t')
    } else if e == 'a' {
        Some('\x07')
    } else if e == 'b' {
        Some('\x08')
    } else if e == 'f' {
        Some('\x0c')
    } else if e == 'v' {
        Some('\x0b')
    } else if e == '\\' || e == '"' || e == '\'' {
        Some(e)
    } else {
        None
    }
}

/// How many decimal digits a `\ddd` escape starting at `t[start]` reads:
/// as many as follow, up to three.
pub open spec fn digit_run(t: Seq<char>, start: int) -> int {
    if start + 1 < t.len() && is_digit(t[start + 1]) {
        if start + 2 < t.len() && is_digit(t[start + 2]) {
            3
        } else {
            2
        }
    } else {
        1
    }
}

pub open spec fn digits_value(t: Seq<char>, start: int, n: int) -> nat {
    if n == 1 {
        digit_value(t[start])
    } else if n == 2 {
        10 * digit_value(t[start]) + digit_value(t[start + 1])
    } else {
        100 * digit_value(t[start]) + 10 * digit_value(t[start + 1]) + digit_value(t[start + 2])
    }
}

pub open spec fn prepend(c: char, rest: Option<Seq<char>>) -> Option<Seq<char>> {
    match rest {
        Some(r) => Some(seq![c] + r),
        None => None,
    }
}

/// Decodes what follows the opening quote of a literal, up to and including
/// the closing quote, which must be the last character. `None` where the text
/// is no literal: unterminated, a raw line break, an unknown escape, text
/// after the closing quote, or a decimal escape above 127 (a byte that is
/// not a character on its own). The hexadecimal, `\u{...}` and `\z` escapes
/// are outside this model.
pub open spec fn decode_body(t: Seq<char>) -> Option<Seq<char>>
    decreases t.len(),
{
    if t.len() == 0 {
        None
    } else if t[0] == '"' {
        if t.len() == 1 {
            Some(Seq::empty())
        } else {
            None
        }
    } else if t[0] == '\n' || t[0] == '\r' {
        None
    } else if t[0] == '\\' {
        if t.len() < 2 {
            None
        } else if simple_escape(t[1]) is Some {
            prepend(simple_escape(t[1])->0, decode_body(t.subrange(2, t.len() as int)))
        } else if is_digit(t[1]) {
            let n = digit_run(t, 1);
            let v = digits_value(t, 1, n);
            if v <= 127 {
                prepend((v as u8) as char, decode_body(t.subrange(1 + n, t.len() as int)))
            } else {
                None
            }
        } else {
            None
        }
    } else {
        prepend(t[0], decode_body(t.drop_first()))
    }
}

/// Decodes a whole double-quoted literal.
pub open spec fn decode_literal(t: Seq<char>) -> Option<Seq<char>> {
    if t.len() > 0 && t[0] == '"' {
        decode_body(t.drop_first())
    } else {
        None
    }
}

proof fn lemma_escape_chars_append(a: Seq<char>, b: Seq<char>)
    ensures
        escape_chars(a + b) == escape_chars(a) + escape_chars(b),
    decreases b.len(),
{
    if b.len() == 0 {
        assert(a + b =~= a);
        assert(escape_chars(a) + escape_chars(b) =~= escape_chars(a));
    } else {
        lemma_escape_chars_append(a, b.drop_last());
        assert((a + b).drop_last() =~= a + b.drop_last());
        assert((a + b).last() == b.last());
        assert(escape_chars(a) + escape_chars(b) =~= escape_chars(a) + escape_chars(
            b.drop_last(),
        ) + escape_char(b.last()));
    }
}

proof fn lemma_escape_chars_front(s: Seq<char>)
    requires
        s.len() > 0,
    ensures
        escape_chars(s) == escape_char(s[0]) + escape_chars(s.drop_first()),
{
    let head = seq![s[0]];
    assert(s =~= head + s.drop_first());
    lemma_escape_chars_append(head, s.drop_first());
    assert(head.drop_last() =~= Seq::<char>::empty());
    assert(head.last() == s[0]);
    assert(escape_chars(Seq::<char>::empty()) =~= Seq::<char>::empty());
    assert(escape_chars(head) =~= escape_chars(head.drop_last()) + escape_char(head.last()));
    assert(escape_chars(head) =~= escape_char(s[0]));
}

/// One escaped character in front of a decodable rest decodes to that
/// character in front of the rest's decoding.
proof fn lemma_decode_step(c: char, rest: Seq<char>, tail: Seq<char>)
    requires
        decode_body(rest) == Some(tail),
        rest.len() > 0,
    ensures
        decode_body(escape_char(c) + rest) == Some(seq![c] + tail),
{
    let t = escape_char(c) + rest;
    if c == '\\' || c == '"' || c == '\n' || c == '\r' {
        assert(t[0] == '\\');
        assert(simple_escape(t[1]) == Some(c));
        assert(t.subrange(2, t.len() as int) =~= rest);
    } else if c == '\0' {
        assert(t[0] == '\\');
        assert(t[1] == '0');
        assert(simple_escape(t[1]) is None);
        assert(t[2] == '0' && t[3] == '0');
        assert(digit_run(t, 1) == 3);
        assert(digits_value(t, 1, 3) == 0);
        assert(t.subrange(4, t.len() as int) =~= rest);
        assert((0u8) as char == '\0');
    } else {
        assert(t[0] == c);
        assert(t.drop_first() =~= rest);
    }
}

proof fn lemma_decode_escaped(s: Seq<char>)
    ensures
        decode_body(escape_chars(s) + seq!['"']) == Some(s),
    decreases s.len(),
{
    let q = seq!['"'];
    if s.len() == 0 {
        assert(escape_chars(s) + q =~= q);
        assert(Seq::<char>::empty() =~= s);
    } else {
        let c = s[0];
        let tail = s.drop_first();
        lemma_decode_escaped(tail);
        lemma_escape_chars_front(s);
        let rest = escape_chars(tail) + q;
        assert(escape_chars(s) + q =~= escape_char(c) + rest);
        assert(seq![c] + tail =~= s);
        assert(rest.len() > 0);
        lemma_decode_step(c, rest, tail);
    }
}

/// Decoding the literal that `lua_string` produces for any `s`, by the
/// scripting language's own literal grammar, gives back exactly `s`. (A NUL
/// is written as the full three-digit escape `\000`, so a digit after it is
/// never read as part of the escape.)
pub proof fn lemma_literal_round_trip(s: Seq<char>)
    ensures
        decode_literal(lua_literal(s)) == Some(s),
{
    lemma_decode_escaped(s);
    assert(lua_literal(s).drop_first() =~= escape_chars(s) + seq!['"']);
}

/// A normalized path holds no backslash; it has as many characters as the
/// input, a separator (forward slash or backslash) exactly where the input
/// has one, and every other character unchanged. So the path's segments come
/// out in the same order.
pub proof fn lemma_normalized_path(s: Seq<char>)
    ensures
        normalized(s).len() == s.len(),
        forall|i: int| 0 <= i < s.len() ==> #[trigger] normalized(s)[i] != '\\',
        forall|i: int|
            0 <= i < s.len() ==> (#[trigger] normalized(s)[i] == '/' <==> (s[i] == '/' || s[i]
                == '\\')),
        forall|i: int|
            0 <= i < s.len() && s[i] != '/' && s[i] != '\\' ==> #[trigger] normalized(s)[i]
                == s[i],
{
    assert forall|i: int| 0 <= i < s.len() implies #[trigger] normalized(s)[i] == slash_char(
        s[i],
    ) by {}
}

/// A path written by `lua_path` decodes to the normalized path: separators
/// come back as forward slashes, everything else as it was.
pub proof fn lemma_path_literal_round_trip(s: Seq<char>)
    ensures
        decode_literal(lua_literal(normalized(s))) == Some(normalized(s)),
{
    lemma_literal_round_trip(normalized(s));
}

} // verus!
