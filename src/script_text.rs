//! Building pieces of script source text: string literals and paths.
use vstd::prelude::*;
use vstd::string::*;

use crate::text::push_char;

verus! {

/// The characters that `lua_string` writes for one input character.
pub open spec fn escape_char(c: char) -> Seq<char> {
    if c == '\\' {
        seq!['\\', '\\']
    } else if c == '"' {
        seq!['\\', '"']
    } else if c == '\n' {
        seq!['\\', 'n']
    } else if c == '\r' {
        seq!['\\', 'r']
    } else if c == '\0' {
        seq!['\\', '0', '0', '0']
    } else {
        seq![c]
    }
}

/// The body of the literal for `s`: each character escaped, in order.
pub open spec fn escape_chars(s: Seq<char>) -> Seq<char>
    decreases s.len(),
{
    if s.len() == 0 {
        Seq::empty()
    } else {
        escape_chars(s.drop_last()) + escape_char(s.last())
    }
}

/// The quoted literal that stands for `s` in script source.
pub open spec fn lua_literal(s: Seq<char>) -> Seq<char> {
    seq!['"'] + escape_chars(s) + seq!['"']
}

/// Backslash separators become forward slashes; all else stays.
pub open spec fn slash_char(c: char) -> char {
    if c == '\\' {
        '/'
    } else {
        c
    }
}

pub open spec fn normalized(s: Seq<char>) -> Seq<char> {
    s.map_values(|c: char| slash_char(c))
}

/// Escape a string for safe use inside a quoted script string literal.
/// Returns the string wrapped in double quotes.
pub fn lua_string(s: &str) -> (r: String)
    ensures
        r@ == lua_literal(s@),
{
    let n = s.unicode_len();
    let mut out = String::new();
    push_char(&mut out, '"');
    let mut i: usize = 0;
    while i < n
        invariant
            n == s@.len(),
            i <= n,
            out@ == seq!['"'] + escape_chars(s@.subrange(0, i as int)),
        decreases n - i,
    {
        let c = s.get_char(i);
        if c == '\\' {
            push_char(&mut out, '\\');
            push_char(&mut out, '\\');
        } else if c == '"' {
            push_char(&mut out, '\\');
            push_char(&mut out, '"');
        } else if c == '\n' {
            push_char(&mut out, '\\');
            push_char(&mut out, 'n');
        } else if c == '\r' {
            push_char(&mut out, '\\');
            push_char(&mut out, 'r');
        } else if c == '\0' {
            push_char(&mut out, '\\');
            push_char(&mut out, '0');
            push_char(&mut out, '0');
            push_char(&mut out, '0');
        } else {
            push_char(&mut out, c);
        }
        proof {
            let p = s@.subrange(0, i + 1);
            assert(p.drop_last() =~= s@.subrange(0, i as int));
            assert(p.last() == c);
        }
        i = i + 1;
    }
    push_char(&mut out, '"');
    assert(s@.subrange(0, n as int) =~= s@);
    assert(out@ =~= lua_literal(s@));
    out
}

/// Normalize a file path to use forward slashes only.
pub fn normalize_path(path: &str) -> (r: String)
    ensures
        r@ == normalized(path@),
{
    let n = path.unicode_len();
    let mut out = String::new();
    let mut i: usize = 0;
    while i < n
        invariant
            n == path@.len(),
            i <= n,
            out@ =~= normalized(path@.subrange(0, i as int)),
        decreases n - i,
    {
        let c = path.get_char(i);
        if c == '\\' {
            push_char(&mut out, '/');
        } else {
            push_char(&mut out, c);
        }
        i = i + 1;
        assert(out@ =~= normalized(path@.subrange(0, i as int)));
    }
    assert(path@.subrange(0, n as int) =~= path@);
    out
}

/// A path as a quoted script string literal: normalized, then escaped.
pub fn lua_path(path: &str) -> (r: String)
    ensures
        r@ == lua_literal(normalized(path@)),
{
    let p = normalize_path(path);
    lua_string(p.as_str())
}

} // verus!
