//! Filling script templates. A template is text in which `{name}` stands for
//! the value bound to `name`, and `{{` and `}}` stand for single braces.
use vstd::prelude::*;

use crate::text::push_char;

verus! {

/// The value bound to `name`: the first binding of it.
pub open spec fn lookup(args: Seq<(Seq<char>, Seq<char>)>, name: Seq<char>) -> Option<Seq<char>>
    decreases args.len(),
{
    if args.len() == 0 {
        None
    } else if args[0].0 == name {
        Some(args[0].1)
    } else {
        lookup(args.drop_first(), name)
    }
}

/// The position of the first `}` in `t` at or after `i`, if any.
pub open spec fn close_brace(t: Seq<char>, i: int) -> Option<int>
    decreases t.len() - i,
{
    if i < 0 || i >= t.len() {
        None
    } else if t[i] == '}' {
        Some(i)
    } else {
        close_brace(t, i + 1)
    }
}

/// `t` with each `{name}` replaced by its value and each `{{` and `}}` by a
/// single brace. A brace that starts neither stays as it is.
pub open spec fn fill(t: Seq<char>, args: Seq<(Seq<char>, Seq<char>)>) -> Seq<char>
    decreases t.len(),
{
    if t.len() == 0 {
        Seq::empty()
    } else if t.len() >= 2 && t[0] == '{' && t[1] == '{' {
        seq!['{'] + fill(t.subrange(2, t.len() as int), args)
    } else if t.len() >= 2 && t[0] == '}' && t[1] == '}' {
        seq!['}'] + fill(t.subrange(2, t.len() as int), args)
    } else if t[0] == '{' && close_brace(t, 1) is Some && 1 <= close_brace(t, 1)->0 < t.len()
        && lookup(args, t.subrange(1, close_brace(t, 1)->0)) is Some {
        let k = close_brace(t, 1)->0;
        lookup(args, t.subrange(1, k))->0 + fill(t.subrange(k + 1, t.len() as int), args)
    } else {
        seq![t[0]] + fill(t.drop_first(), args)
    }
}

pub open spec fn bindings_view(args: Seq<(&str, String)>) -> Seq<(Seq<char>, Seq<char>)> {
    args.map_values(|a: (&str, String)| (a.0@, a.1@))
}

fn append_str(out: &mut String, s: &str)
    ensures
        final(out)@ == old(out)@ + s@,
{
    let n = s.unicode_len();
    let mut i: usize = 0;
    while i < n
        invariant
            n == s@.len(),
            i <= n,
            out@ == old(out)@ + s@.subrange(0, i as int),
        decreases n - i,
    {
        push_char(out, s.get_char(i));
        i = i + 1;
        assert(out@ =~= old(out)@ + s@.subrange(0, i as int));
    }
    assert(s@.subrange(0, n as int) =~= s@);
}

fn find_close(t: &str, start: usize) -> (r: Option<usize>)
    requires
        start <= t@.len(),
    ensures
        match r {
            Some(k) => close_brace(t@, start as int) == Some(k as int) && start <= k < t@.len(),
            None => close_brace(t@, start as int) is None,
        },
{
    let n = t.unicode_len();
    let mut i = start;
    while i < n
        invariant
            n == t@.len(),
            start <= i <= n,
            close_brace(t@, start as int) == close_brace(t@, i as int),
        decreases n - i,
    {
        if t.get_char(i) == '}' {
            return Some(i);
        }
        i = i + 1;
    }
    None
}

fn lookup_exec<'a>(args: &'a Vec<(&str, String)>, name: &str) -> (r: Option<&'a String>)
    ensures
        match r {
            Some(v) => lookup(bindings_view(args@), name@) == Some(v@),
            None => lookup(bindings_view(args@), name@) is None,
        },
{
    let mut i: usize = 0;
    assert(bindings_view(args@).subrange(0, args@.len() as int) =~= bindings_view(args@));
    while i < args.len()
        invariant
            i <= args.len(),
            lookup(bindings_view(args@), name@) == lookup(
                bindings_view(args@).subrange(i as int, args@.len() as int),
                name@,
            ),
        decreases args.len() - i,
    {
        let ghost rest = bindings_view(args@).subrange(i as int, args@.len() as int);
        if str_eq(args[i].0, name) {
            return Some(&args[i].1);
        }
        assert(rest.drop_first() =~= bindings_view(args@).subrange(i + 1, args@.len() as int));
        i = i + 1;
    }
    None
}

pub fn str_eq(a: &str, b: &str) -> (r: bool)
    ensures
        r == (a@ == b@),
{
    let n = a.unicode_len();
    if n != b.unicode_len() {
        return false;
    }
    let mut i: usize = 0;
    while i < n
        invariant
            n == a@.len(),
            n == b@.len(),
            i <= n,
            forall|j: int| 0 <= j < i ==> a@[j] == b@[j],
        decreases n - i,
    {
        if a.get_char(i) != b.get_char(i) {
            return false;
        }
        i = i + 1;
    }
    assert(a@ =~= b@);
    true
}

/// Fills `template` with the values bound in `args`.
pub fn fill_template(template: &str, args: &Vec<(&str, String)>) -> (r: String)
    ensures
        r@ == fill(template@, bindings_view(args@)),
{
    let ghost t = template@;
    let ghost a = bindings_view(args@);
    let n = template.unicode_len();
    let mut out = String::new();
    let mut i: usize = 0;
    assert(t.subrange(0, n as int) =~= t);
    assert(out@ + fill(t, a) =~= fill(t, a));
    while i < n
        invariant
            n == t.len(),
            t == template@,
            a == bindings_view(args@),
            i <= n,
            out@ + fill(t.subrange(i as int, n as int), a) == fill(t, a),
        decreases n - i,
    {
        let ghost rest = t.subrange(i as int, n as int);
        let c = template.get_char(i);
        if c == '{' && i + 1 < n && template.get_char(i + 1) == '{' {
            push_char(&mut out, '{');
            assert(rest.subrange(2, rest.len() as int) =~= t.subrange(i + 2, n as int));
            assert(out@ + fill(t.subrange(i + 2, n as int), a) =~= fill(t, a));
            i = i + 2;
        } else if c == '}' && i + 1 < n && template.get_char(i + 1) == '}' {
            push_char(&mut out, '}');
            assert(rest.subrange(2, rest.len() as int) =~= t.subrange(i + 2, n as int));
            assert(out@ + fill(t.subrange(i + 2, n as int), a) =~= fill(t, a));
            i = i + 2;
        } else {
            let mut done = false;
            if c == '{' {
                let close = find_close(template, i + 1);
                proof {
                    lemma_close_brace_shift(t, i as int, 1);
                }
                match close {
                    Some(k) => {
                        let name = template.substring_char(i + 1, k);
                        assert(name@ =~= rest.subrange(1, k - i));
                        match lookup_exec(args, name) {
                            Some(v) => {
                                append_str(&mut out, v.as_str());
                                assert(rest.subrange(k - i + 1, rest.len() as int) =~= t.subrange(
                                    k + 1,
                                    n as int,
                                ));
                                assert(out@ + fill(t.subrange(k + 1, n as int), a) =~= fill(t, a));
                                i = k + 1;
                                done = true;
                            },
                            None => {},
                        }
                    },
                    None => {},
                }
            }
            if !done {
                push_char(&mut out, c);
                assert(rest.drop_first() =~= t.subrange(i + 1, n as int));
                assert(out@ + fill(t.subrange(i + 1, n as int), a) =~= fill(t, a));
                i = i + 1;
            }
        }
    }
    assert(out@ + fill(t.subrange(n as int, n as int), a) == fill(t, a));
    assert(out@ =~= fill(t, a));
    out
}

/// Looking for the closing brace in a suffix of `t` finds the same brace,
/// moved by the suffix's offset.
proof fn lemma_close_brace_shift(t: Seq<char>, i: int, j: int)
    requires
        0 <= i <= t.len(),
        j >= 0,
    ensures
        match close_brace(t, i + j) {
            Some(k) => close_brace(t.subrange(i, t.len() as int), j) == Some(k - i),
            None => close_brace(t.subrange(i, t.len() as int), j) is None,
        },
    decreases t.len() - (i + j),
{
    if i + j < t.len() {
        lemma_close_brace_shift(t, i, j + 1);
    }
}

/// Fills `t` with 1 binding.
pub fn fill1(t: &str, n0: &str, v0: String) -> (r: String)
    ensures
        r@ == fill(t@, seq![(n0@, v0@)]),
{
    let ghost g = seq![(n0@, v0@)];
    let args = vec![(n0, v0)];
    assert(bindings_view(args@) =~= g);
    fill_template(t, &args)
}

/// Fills `t` with 2 bindings.
pub fn fill2(t: &str, n0: &str, v0: String, n1: &str, v1: String) -> (r: String)
    ensures
        r@ == fill(t@, seq![(n0@, v0@), (n1@, v1@)]),
{
    let ghost g = seq![(n0@, v0@), (n1@, v1@)];
    let args = vec![(n0, v0), (n1, v1)];
    assert(bindings_view(args@) =~= g);
    fill_template(t, &args)
}

/// Fills `t` with 3 bindings.
pub fn fill3(t: &str, n0: &str, v0: String, n1: &str, v1: String, n2: &str, v2: String) -> (r: String)
    ensures
        r@ == fill(t@, seq![(n0@, v0@), (n1@, v1@), (n2@, v2@)]),
{
    let ghost g = seq![(n0@, v0@), (n1@, v1@), (n2@, v2@)];
    let args = vec![(n0, v0), (n1, v1), (n2, v2)];
    assert(bindings_view(args@) =~= g);
    fill_template(t, &args)
}

/// Fills `t` with 4 bindings.
pub fn fill4(t: &str, n0: &str, v0: String, n1: &str, v1: String, n2: &str, v2: String, n3: &str, v3: String) -> (r: String)
    ensures
        r@ == fill(t@, seq![(n0@, v0@), (n1@, v1@), (n2@, v2@), (n3@, v3@)]),
{
    let ghost g = seq![(n0@, v0@), (n1@, v1@), (n2@, v2@), (n3@, v3@)];
    let args = vec![(n0, v0), (n1, v1), (n2, v2), (n3, v3)];
    assert(bindings_view(args@) =~= g);
    fill_template(t, &args)
}

/// Fills `t` with 5 bindings.
pub fn fill5(t: &str, n0: &str, v0: String, n1: &str, v1: String, n2: &str, v2: String, n3: &str, v3: String, n4: &str, v4: String) -> (r: String)
    ensures
        r@ == fill(t@, seq![(n0@, v0@), (n1@, v1@), (n2@, v2@), (n3@, v3@), (n4@, v4@)]),
{
    let ghost g = seq![(n0@, v0@), (n1@, v1@), (n2@, v2@), (n3@, v3@), (n4@, v4@)];
    let args = vec![(n0, v0), (n1, v1), (n2, v2), (n3, v3), (n4, v4)];
    assert(bindings_view(args@) =~= g);
    fill_template(t, &args)
}

/// Fills `t` with 6 bindings.
pub fn fill6(t: &str, n0: &str, v0: String, n1: &str, v1: String, n2: &str, v2: String, n3: &str, v3: String, n4: &str, v4: String, n5: &str, v5: String) -> (r: String)
    ensures
        r@ == fill(t@, seq![(n0@, v0@), (n1@, v1@), (n2@, v2@), (n3@, v3@), (n4@, v4@), (n5@, v5@)]),
{
    let ghost g = seq![(n0@, v0@), (n1@, v1@), (n2@, v2@), (n3@, v3@), (n4@, v4@), (n5@, v5@)];
    let args = vec![(n0, v0), (n1, v1), (n2, v2), (n3, v3), (n4, v4), (n5, v5)];
    assert(bindings_view(args@) =~= g);
    fill_template(t, &args)
}

/// Fills `t` with 7 bindings.
pub fn fill7(t: &str, n0: &str, v0: String, n1: &str, v1: String, n2: &str, v2: String, n3: &str, v3: String, n4: &str, v4: String, n5: &str, v5: String, n6: &str, v6: String) -> (r: String)
    ensures
        r@ == fill(t@, seq![(n0@, v0@), (n1@, v1@), (n2@, v2@), (n3@, v3@), (n4@, v4@), (n5@, v5@), (n6@, v6@)]),
{
    let ghost g = seq![(n0@, v0@), (n1@, v1@), (n2@, v2@), (n3@, v3@), (n4@, v4@), (n5@, v5@), (n6@, v6@)];
    let args = vec![(n0, v0), (n1, v1), (n2, v2), (n3, v3), (n4, v4), (n5, v5), (n6, v6)];
    assert(bindings_view(args@) =~= g);
    fill_template(t, &args)
}

/// Fills `t` with 8 bindings.
pub fn fill8(t: &str, n0: &str, v0: String, n1: &str, v1: String, n2: &str, v2: String, n3: &str, v3: String, n4: &str, v4: String, n5: &str, v5: String, n6: &str, v6: String, n7: &str, v7: String) -> (r: String)
    ensures
        r@ == fill(t@, seq![(n0@, v0@), (n1@, v1@), (n2@, v2@), (n3@, v3@), (n4@, v4@), (n5@, v5@), (n6@, v6@), (n7@, v7@)]),
{
    let ghost g = seq![(n0@, v0@), (n1@, v1@), (n2@, v2@), (n3@, v3@), (n4@, v4@), (n5@, v5@), (n6@, v6@), (n7@, v7@)];
    let args = vec![(n0, v0), (n1, v1), (n2, v2), (n3, v3), (n4, v4), (n5, v5), (n6, v6), (n7, v7)];
    assert(bindings_view(args@) =~= g);
    fill_template(t, &args)
}

/// Fills `t` with 9 bindings.
pub fn fill9(t: &str, n0: &str, v0: String, n1: &str, v1: String, n2: &str, v2: String, n3: &str, v3: String, n4: &str, v4: String, n5: &str, v5: String, n6: &str, v6: String, n7: &str, v7: String, n8: &str, v8: String) -> (r: String)
    ensures
        r@ == fill(t@, seq![(n0@, v0@), (n1@, v1@), (n2@, v2@), (n3@, v3@), (n4@, v4@), (n5@, v5@), (n6@, v6@), (n7@, v7@), (n8@, v8@)]),
{
    let ghost g = seq![(n0@, v0@), (n1@, v1@), (n2@, v2@), (n3@, v3@), (n4@, v4@), (n5@, v5@), (n6@, v6@), (n7@, v7@), (n8@, v8@)];
    let args = vec![(n0, v0), (n1, v1), (n2, v2), (n3, v3), (n4, v4), (n5, v5), (n6, v6), (n7, v7), (n8, v8)];
    assert(bindings_view(args@) =~= g);
    fill_template(t, &args)
}

/// Fills `t` with 10 bindings.
pub fn fill10(t: &str, n0: &str, v0: String, n1: &str, v1: String, n2: &str, v2: String, n3: &str, v3: String, n4: &str, v4: String, n5: &str, v5: String, n6: &str, v6: String, n7: &str, v7: String, n8: &str, v8: String, n9: &str, v9: String) -> (r: String)
    ensures
        r@ == fill(t@, seq![(n0@, v0@), (n1@, v1@), (n2@, v2@), (n3@, v3@), (n4@, v4@), (n5@, v5@), (n6@, v6@), (n7@, v7@), (n8@, v8@), (n9@, v9@)]),
{
    let ghost g = seq![(n0@, v0@), (n1@, v1@), (n2@, v2@), (n3@, v3@), (n4@, v4@), (n5@, v5@), (n6@, v6@), (n7@, v7@), (n8@, v8@), (n9@, v9@)];
    let args = vec![(n0, v0), (n1, v1), (n2, v2), (n3, v3), (n4, v4), (n5, v5), (n6, v6), (n7, v7), (n8, v8), (n9, v9)];
    assert(bindings_view(args@) =~= g);
    fill_template(t, &args)
}

} // verus!
