//! Hex colour strings: `#rrggbb` or `#rrggbbaa`.
use vstd::prelude::*;
use vstd::string::*;

use crate::decimal::{decimal, decimal_text};

verus! {

pub const LENGTH_MESSAGE_OPEN: &'static str = "expected 6 or 8 hex digits (got ";

pub const LENGTH_MESSAGE_CLOSE: &'static str = "), format: #rrggbb or #rrggbbaa";

pub const NON_HEX_MESSAGE: &'static str = "contains non-hex characters";

/// `s` with every leading `#` removed.
pub open spec fn strip_hashes(s: Seq<char>) -> Seq<char>
    decreases s.len(),
{
    if s.len() > 0 && s[0] == '#' {
        strip_hashes(s.drop_first())
    } else {
        s
    }
}

/// How many bytes `c` takes in UTF-8.
pub open spec fn utf8_width(c: char) -> nat {
    if (c as u32) < 0x80 {
        1
    } else if (c as u32) < 0x800 {
        2
    } else if (c as u32) < 0x10000 {
        3
    } else {
        4
    }
}

/// How many bytes `s` takes in UTF-8.
pub open spec fn utf8_len(s: Seq<char>) -> nat
    decreases s.len(),
{
    if s.len() == 0 {
        0
    } else {
        utf8_len(s.drop_last()) + utf8_width(s.last())
    }
}

pub open spec fn is_hex_digit(c: char) -> bool {
    ('0' <= c && c <= '9') || ('a' <= c && c <= 'f') || ('A' <= c && c <= 'F')
}

pub open spec fn hex_value(c: char) -> nat {
    if '0' <= c && c <= '9' {
        (c as u32 - '0' as u32) as nat
    } else if 'a' <= c && c <= 'f' {
        (c as u32 - 'a' as u32 + 10) as nat
    } else {
        (c as u32 - 'A' as u32 + 10) as nat
    }
}

pub open spec fn all_hex(s: Seq<char>) -> bool {
    forall|i: int| 0 <= i < s.len() ==> is_hex_digit(#[trigger] s[i])
}

/// What is wrong with `hex` as a colour, or `None` where it is one: after the
/// leading `#`s, 6 or 8 bytes, all hex digits.
pub open spec fn hex_color_problem(hex: Seq<char>) -> Option<Seq<char>> {
    let h = strip_hashes(hex);
    if utf8_len(h) != 6 && utf8_len(h) != 8 {
        Some(LENGTH_MESSAGE_OPEN@ + decimal_text(utf8_len(h)) + LENGTH_MESSAGE_CLOSE@)
    } else if !all_hex(h) {
        Some(NON_HEX_MESSAGE@)
    } else {
        None
    }
}

pub open spec fn is_hex_color(hex: Seq<char>) -> bool {
    hex_color_problem(hex) is None
}

/// The byte written by the two hex digits at `h[i]` and `h[i + 1]`.
pub open spec fn hex_byte(h: Seq<char>, i: int) -> u8 {
    (16 * hex_value(h[i]) + hex_value(h[i + 1])) as u8
}

/// Colour components of a valid colour: red, green, blue, and alpha, which is
/// 255 where the colour has only six digits.
pub open spec fn color_rgba(hex: Seq<char>) -> (u8, u8, u8, u8) {
    let h = strip_hashes(hex);
    (hex_byte(h, 0), hex_byte(h, 2), hex_byte(h, 4), if h.len() >= 8 {
        hex_byte(h, 6)
    } else {
        255
    })
}

proof fn lemma_strip_hashes_suffix(s: Seq<char>)
    ensures
        exists|k: int|
            0 <= k <= s.len() && strip_hashes(s) == s.subrange(k, s.len() as int) && (forall|
                j: int,
            | 0 <= j < k ==> s[j] == '#'),
    decreases s.len(),
{
    if s.len() > 0 && s[0] == '#' {
        lemma_strip_hashes_suffix(s.drop_first());
        let k = choose|k: int|
            0 <= k <= s.drop_first().len() && strip_hashes(s.drop_first())
                == s.drop_first().subrange(k, s.drop_first().len() as int) && (forall|j: int|
                0 <= j < k ==> s.drop_first()[j] == '#');
        assert(s.drop_first().subrange(k, s.drop_first().len() as int) =~= s.subrange(
            k + 1,
            s.len() as int,
        ));
        assert forall|j: int| 0 <= j < k + 1 implies s[j] == '#' by {
            if j > 0 {
                assert(s[j] == s.drop_first()[j - 1]);
            }
        }
    } else {
        assert(s.subrange(0, s.len() as int) =~= s);
    }
}

/// The characters of `s` after its leading `#`s.
fn strip_hashes_exec(s: &str) -> (r: &str)
    ensures
        r@ == strip_hashes(s@),
{
    let n = s.unicode_len();
    let mut k: usize = 0;
    assert(s@.subrange(0, n as int) =~= s@);
    while k < n && s.get_char(k) == '#'
        invariant
            n == s@.len(),
            k <= n,
            strip_hashes(s@.subrange(k as int, n as int)) == strip_hashes(s@),
        decreases n - k,
    {
        assert(s@.subrange(k as int, n as int).drop_first() =~= s@.subrange(k + 1, n as int));
        k = k + 1;
    }
    s.substring_char(k, n)
}

proof fn lemma_utf8_len_ascii(s: Seq<char>)
    requires
        all_hex(s),
    ensures
        utf8_len(s) == s.len(),
    decreases s.len(),
{
    if s.len() > 0 {
        assert(is_hex_digit(s[s.len() - 1]));
        assert(all_hex(s.drop_last())) by {
            assert forall|i: int| 0 <= i < s.drop_last().len() implies is_hex_digit(
                #[trigger] s.drop_last()[i],
            ) by {
                assert(s.drop_last()[i] == s[i]);
            }
        }
        lemma_utf8_len_ascii(s.drop_last());
    }
}

fn utf8_len_exec(s: &str) -> (r: u128)
    ensures
        r as nat == utf8_len(s@),
{
    let n = s.unicode_len();
    let mut total: u128 = 0;
    let mut i: usize = 0;
    while i < n
        invariant
            n == s@.len(),
            i <= n,
            total as nat == utf8_len(s@.subrange(0, i as int)),
            total <= 4 * i,
        decreases n - i,
    {
        let c = s.get_char(i);
        let w: u128 = if (c as u32) < 0x80 {
            1
        } else if (c as u32) < 0x800 {
            2
        } else if (c as u32) < 0x10000 {
            3
        } else {
            4
        };
        proof {
            let p = s@.subrange(0, i + 1);
            assert(p.drop_last() =~= s@.subrange(0, i as int));
        }
        total = total + w;
        i = i + 1;
    }
    assert(s@.subrange(0, n as int) =~= s@);
    total
}

fn is_hex_digit_exec(c: char) -> (r: bool)
    ensures
        r == is_hex_digit(c),
{
    ('0' <= c && c <= '9') || ('a' <= c && c <= 'f') || ('A' <= c && c <= 'F')
}

/// Check the format of a hex colour string: after any leading `#`, 6 or 8
/// bytes that are all hex digits.
pub fn validate_hex_color(hex: &str) -> (r: Result<(), String>)
    ensures
        r is Ok <==> hex_color_problem(hex@) is None,
        r matches Err(m) ==> hex_color_problem(hex@) == Some(m@),
{
    let h = strip_hashes_exec(hex);
    let len = utf8_len_exec(h);
    if len != 6 && len != 8 {
        let mut m = String::from_str(LENGTH_MESSAGE_OPEN);
        let digits = decimal(len);
        m.append(digits.as_str());
        m.append(LENGTH_MESSAGE_CLOSE);
        return Err(m);
    }
    let n = h.unicode_len();
    let mut i: usize = 0;
    while i < n
        invariant
            n == h@.len(),
            i <= n,
            h@ == strip_hashes(hex@),
            len == utf8_len(h@),
            len == 6 || len == 8,
            forall|j: int| 0 <= j < i ==> is_hex_digit(#[trigger] h@[j]),
        decreases n - i,
    {
        if !is_hex_digit_exec(h.get_char(i)) {
            return Err(String::from_str(NON_HEX_MESSAGE));
        }
        i = i + 1;
    }
    Ok(())
}

fn hex_value_exec(c: char) -> (r: u8)
    requires
        is_hex_digit(c),
    ensures
        r as nat == hex_value(c),
        r < 16,
{
    if '0' <= c && c <= '9' {
        ((c as u32) - ('0' as u32)) as u8
    } else if 'a' <= c && c <= 'f' {
        ((c as u32) - ('a' as u32) + 10) as u8
    } else {
        ((c as u32) - ('A' as u32) + 10) as u8
    }
}

fn hex_byte_exec(h: &str, i: usize) -> (r: u8)
    requires
        i + 1 < h@.len() <= 8,
        is_hex_digit(h@[i as int]),
        is_hex_digit(h@[i + 1]),
    ensures
        r == hex_byte(h@, i as int),
{
    let hi = hex_value_exec(h.get_char(i));
    let lo = hex_value_exec(h.get_char(i + 1));
    16 * hi + lo
}

/// Parse a hex colour string (`#rrggbb`, or `#rrggbbaa` whose alpha is left
/// out) to its red, green and blue components.
pub fn parse_hex_color(hex: &str) -> (r: (u8, u8, u8))
    requires
        is_hex_color(hex@),
    ensures
        r.0 == color_rgba(hex@).0,
        r.1 == color_rgba(hex@).1,
        r.2 == color_rgba(hex@).2,
{
    let h = strip_hashes_exec(hex);
    proof {
        lemma_utf8_len_ascii(h@);
    }
    (hex_byte_exec(h, 0), hex_byte_exec(h, 2), hex_byte_exec(h, 4))
}

/// Parse a hex colour string (`#rrggbb` or `#rrggbbaa`) to its red, green,
/// blue and alpha components; alpha is 255 where it is not given.
pub fn parse_hex_color_with_alpha(hex: &str) -> (r: (u8, u8, u8, u8))
    requires
        is_hex_color(hex@),
    ensures
        r == color_rgba(hex@),
{
    let h = strip_hashes_exec(hex);
    proof {
        lemma_utf8_len_ascii(h@);
    }
    let a = if h.unicode_len() >= 8 {
        hex_byte_exec(h, 6)
    } else {
        255
    };
    (hex_byte_exec(h, 0), hex_byte_exec(h, 2), hex_byte_exec(h, 4), a)
}

pub const UNREADABLE_COLOR_MESSAGE: &'static str =
    "cannot read it as #rrggbb or #rrggbbaa";

/// Character `j` of `h` starts at byte `t` (or `j` is the end, at byte `t`).
pub open spec fn starts_at(h: Seq<char>, t: int, j: int) -> bool {
    0 <= j <= h.len() && utf8_len(h.subrange(0, j)) == t
}

/// Byte offset `t` of `h` falls between two characters (or at an end).
pub open spec fn byte_boundary(h: Seq<char>, t: int) -> bool {
    exists|j: int| starts_at(h, t, j)
}

/// The character that starts at byte `t`.
pub open spec fn char_at_byte(h: Seq<char>, t: int) -> int {
    choose|j: int| starts_at(h, t, j)
}

/// What `u8::from_str_radix(_, 16)` reads from two characters: an optional
/// `+` followed by hex digits.
pub open spec fn radix_pair(a: char, b: char) -> Option<u8> {
    if a == '+' {
        if is_hex_digit(b) {
            Some(hex_value(b) as u8)
        } else {
            None
        }
    } else if is_hex_digit(a) && is_hex_digit(b) {
        Some((16 * hex_value(a) + hex_value(b)) as u8)
    } else {
        None
    }
}

/// The byte that the two bytes starting with character `j` are read as, if
/// they read as one. Two bytes between boundaries are either two ASCII
/// characters or one character that is no digit.
pub open spec fn pair_at(h: Seq<char>, j: int) -> Option<u8> {
    if 0 <= j && j + 1 < h.len() {
        radix_pair(h[j], h[j + 1])
    } else {
        None
    }
}

pub open spec fn or_default(v: Option<u8>, d: u8) -> u8 {
    match v {
        Some(x) => x,
        None => d,
    }
}

/// The red, green and blue bytes can be cut out of `h` (at least six bytes,
/// character boundaries at bytes 2, 4 and 6).
pub open spec fn rgb_readable(h: Seq<char>) -> bool {
    utf8_len(h) >= 6 && byte_boundary(h, 2) && byte_boundary(h, 4) && byte_boundary(h, 6)
}

/// As `rgb_readable`, and where there are eight bytes or more, a boundary at
/// byte 8 too.
pub open spec fn rgba_readable(h: Seq<char>) -> bool {
    rgb_readable(h) && (utf8_len(h) >= 8 ==> byte_boundary(h, 8))
}

/// A colour read leniently: after the leading `#`s, each two bytes that do
/// not read as a hex byte count as 0. `None` where the bytes cannot be cut
/// out.
pub open spec fn lenient_rgb(hex: Seq<char>) -> Option<(u8, u8, u8)> {
    let h = strip_hashes(hex);
    if rgb_readable(h) {
        Some(
            (
                or_default(pair_at(h, 0), 0),
                or_default(pair_at(h, char_at_byte(h, 2)), 0),
                or_default(pair_at(h, char_at_byte(h, 4)), 0),
            ),
        )
    } else {
        None
    }
}

/// As `lenient_rgb`, with alpha from bytes 6 and 8 where there are eight
/// bytes or more (255 where they do not read as a hex byte), else 255.
pub open spec fn lenient_rgba(hex: Seq<char>) -> Option<(u8, u8, u8, u8)> {
    let h = strip_hashes(hex);
    if rgba_readable(h) {
        let c = lenient_rgb(hex)->0;
        Some(
            (c.0, c.1, c.2, if utf8_len(h) >= 8 {
                or_default(pair_at(h, char_at_byte(h, 6)), 255)
            } else {
                255
            }),
        )
    } else {
        None
    }
}

proof fn lemma_prefix_bytes_increase(h: Seq<char>, a: int, b: int)
    requires
        0 <= a < b <= h.len(),
    ensures
        utf8_len(h.subrange(0, a)) < utf8_len(h.subrange(0, b)),
    decreases b - a,
{
    assert(h.subrange(0, b).drop_last() =~= h.subrange(0, b - 1));
    if a < b - 1 {
        lemma_prefix_bytes_increase(h, a, b - 1);
    }
}

proof fn lemma_starts_at_unique(h: Seq<char>, t: int, j: int)
    requires
        starts_at(h, t, j),
    ensures
        byte_boundary(h, t),
        char_at_byte(h, t) == j,
{
    let k = char_at_byte(h, t);
    if k < j {
        lemma_prefix_bytes_increase(h, k, j);
    } else if j < k {
        lemma_prefix_bytes_increase(h, j, k);
    }
}

/// Relies on `u8::from_str_radix` in base 16: an optional `+` followed by
/// hex digits reads as their value (two digits always fit a byte); anything
/// else is an error.
#[verifier::external_body]
fn radix16(s: &str) -> (r: Option<u8>)
    requires
        s@.len() == 2,
    ensures
        r == radix_pair(s@[0], s@[1]),
{
    u8::from_str_radix(s, 16).ok()
}

fn pair_exec(h: &str, j: usize) -> (r: Option<u8>)
    requires
        j <= h@.len(),
    ensures
        r == pair_at(h@, j as int),
{
    let n = h.unicode_len();
    if j < n && n - j >= 2 {
        let two = h.substring_char(j, j + 2);
        radix16(two)
    } else {
        None
    }
}

/// Where characters start at bytes 2, 4, 6 and 8 of `h`, if they do.
fn byte_starts(h: &str) -> (r: (u128, Option<usize>, Option<usize>, Option<usize>, Option<usize>))
    ensures
        r.0 as nat == utf8_len(h@),
        r.1 matches Some(j) ==> starts_at(h@, 2, j as int),
        r.1 is None ==> !byte_boundary(h@, 2),
        r.2 matches Some(j) ==> starts_at(h@, 4, j as int),
        r.2 is None ==> !byte_boundary(h@, 4),
        r.3 matches Some(j) ==> starts_at(h@, 6, j as int),
        r.3 is None ==> !byte_boundary(h@, 6),
        r.4 matches Some(j) ==> starts_at(h@, 8, j as int),
        r.4 is None ==> !byte_boundary(h@, 8),
{
    let n = h.unicode_len();
    let mut off: u128 = 0;
    let mut at2: Option<usize> = None;
    let mut at4: Option<usize> = None;
    let mut at6: Option<usize> = None;
    let mut at8: Option<usize> = None;
    let mut i: usize = 0;
    assert(h@.subrange(0, 0) =~= Seq::<char>::empty());
    loop
        invariant
            n == h@.len(),
            i <= n,
            off as nat == utf8_len(h@.subrange(0, i as int)),
            off <= 4 * i,
            at2 matches Some(j) ==> starts_at(h@, 2, j as int),
            at2 is None ==> forall|j: int| 0 <= j < i ==> !starts_at(h@, 2, j),
            at4 matches Some(j) ==> starts_at(h@, 4, j as int),
            at4 is None ==> forall|j: int| 0 <= j < i ==> !starts_at(h@, 4, j),
            at6 matches Some(j) ==> starts_at(h@, 6, j as int),
            at6 is None ==> forall|j: int| 0 <= j < i ==> !starts_at(h@, 6, j),
            at8 matches Some(j) ==> starts_at(h@, 8, j as int),
            at8 is None ==> forall|j: int| 0 <= j < i ==> !starts_at(h@, 8, j),
        decreases n - i,
    {
        if off == 2 {
            at2 = Some(i);
        }
        if off == 4 {
            at4 = Some(i);
        }
        if off == 6 {
            at6 = Some(i);
        }
        if off == 8 {
            at8 = Some(i);
        }
        if i == n {
            proof {
                assert(h@.subrange(0, n as int) =~= h@);
                assert forall|t: int, j: int| starts_at(h@, t, j) implies 0 <= j <= i by {}
            }
            return (off, at2, at4, at6, at8);
        }
        let c = h.get_char(i);
        let w: u128 = if (c as u32) < 0x80 {
            1
        } else if (c as u32) < 0x800 {
            2
        } else if (c as u32) < 0x10000 {
            3
        } else {
            4
        };
        proof {
            assert(h@.subrange(0, i + 1).drop_last() =~= h@.subrange(0, i as int));
        }
        off = off + w;
        i = i + 1;
    }
}

fn readable_rgb(h: &str) -> (r: Option<(usize, usize, u128)>)
    ensures
        r is Some <==> rgb_readable(h@),
        r matches Some(x) ==> x.0 == char_at_byte(h@, 2) && x.1 == char_at_byte(h@, 4)
            && x.2 as nat == utf8_len(h@) && x.0 <= h@.len() && x.1 <= h@.len(),
{
    let (len, a2, a4, a6, _a8) = byte_starts(h);
    if len < 6 {
        return None;
    }
    match (a2, a4, a6) {
        (Some(j2), Some(j4), Some(j6)) => {
            proof {
                lemma_starts_at_unique(h@, 2, j2 as int);
                lemma_starts_at_unique(h@, 4, j4 as int);
                lemma_starts_at_unique(h@, 6, j6 as int);
            }
            Some((j2, j4, len))
        },
        _ => None,
    }
}

/// Reads red, green and blue the lenient way: after the leading `#`s, each
/// two bytes that are not a hex byte count as 0. `None` where fewer than six
/// bytes follow or the bytes cannot be cut at character boundaries.
pub fn read_hex_rgb(hex: &str) -> (r: Option<(u8, u8, u8)>)
    ensures
        r == lenient_rgb(hex@),
{
    let h = strip_hashes_exec(hex);
    assert(starts_at(h@, 0, 0)) by {
        assert(h@.subrange(0, 0) =~= Seq::<char>::empty());
    }
    match readable_rgb(h) {
        Some((j2, j4, _)) => {
            let r = match pair_exec(h, 0) {
                Some(v) => v,
                None => 0,
            };
            let g = match pair_exec(h, j2) {
                Some(v) => v,
                None => 0,
            };
            let b = match pair_exec(h, j4) {
                Some(v) => v,
                None => 0,
            };
            Some((r, g, b))
        },
        None => None,
    }
}

/// Reads red, green, blue and alpha the lenient way (see `read_hex_rgb`);
/// alpha comes from bytes 6 and 8 where there are eight bytes or more, and
/// is 255 where they are not a hex byte or there are fewer.
pub fn read_hex_rgba(hex: &str) -> (r: Option<(u8, u8, u8, u8)>)
    ensures
        r == lenient_rgba(hex@),
{
    let rgb = match read_hex_rgb(hex) {
        Some(c) => c,
        None => {
            return None;
        },
    };
    let h = strip_hashes_exec(hex);
    let (len, _a2, _a4, a6, a8) = byte_starts(h);
    if len >= 8 {
        match (a6, a8) {
            (Some(j6), Some(j8)) => {
                proof {
                    lemma_starts_at_unique(h@, 6, j6 as int);
                    lemma_starts_at_unique(h@, 8, j8 as int);
                }
                let a = match pair_exec(h, j6) {
                    Some(v) => v,
                    None => 255,
                };
                Some((rgb.0, rgb.1, rgb.2, a))
            },
            _ => None,
        }
    } else {
        Some((rgb.0, rgb.1, rgb.2, 255))
    }
}

/// How many bytes follow the leading `#`s.
pub fn hex_body_len(hex: &str) -> (r: u128)
    ensures
        r as nat == utf8_len(strip_hashes(hex@)),
{
    utf8_len_exec(strip_hashes_exec(hex))
}

} // verus!
