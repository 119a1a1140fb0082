//! Text primitives: equality of string slices and trimming of white space,
//! both stated over the sequence of characters that a string holds.

use vstd::prelude::*;
use vstd::std_specs::iter::IteratorSpec;
use vstd::string::next_postcondition;
use vstd::string::StrSliceExecFns;
use vstd::utf8::encode_utf8;
use vstd::utf8::encode_utf8_decode_utf8;

verus! {

/// The characters with the Unicode property `White_Space`.
pub open spec fn is_white_space(c: char) -> bool {
    let n = c as u32;
    ||| 0x09 <= n <= 0x0D
    ||| n == 0x20
    ||| n == 0x85
    ||| n == 0xA0
    ||| n == 0x1680
    ||| 0x2000 <= n <= 0x200A
    ||| n == 0x2028
    ||| n == 0x2029
    ||| n == 0x202F
    ||| n == 0x205F
    ||| n == 0x3000
}

/// `s` without its longest prefix of white space.
pub open spec fn trimmed_start(s: Seq<char>) -> Seq<char>
    decreases s.len(),
{
    if s.len() > 0 && is_white_space(s.first()) {
        trimmed_start(s.drop_first())
    } else {
        s
    }
}

/// `s` without its longest suffix of white space.
pub open spec fn trimmed_end(s: Seq<char>) -> Seq<char>
    decreases s.len(),
{
    if s.len() > 0 && is_white_space(s.last()) {
        trimmed_end(s.drop_last())
    } else {
        s
    }
}

/// `s` without the white space at either end.
pub open spec fn trimmed(s: Seq<char>) -> Seq<char> {
    trimmed_end(trimmed_start(s))
}

/// Whether every character of `s` from `from` up to `to` is white space.
pub open spec fn white_space_between(s: Seq<char>, from: int, to: int) -> bool {
    forall|k: int| from <= k < to ==> is_white_space(#[trigger] s[k])
}

/// Where white space fills `s` up to `a`, and `a` is the end of `s` or the
/// place of another character, trimming the start leaves what follows `a`.
pub proof fn lemma_trimmed_start_at(s: Seq<char>, a: int)
    requires
        0 <= a <= s.len(),
        white_space_between(s, 0, a),
        a < s.len() ==> !is_white_space(s[a]),
    ensures
        trimmed_start(s) == s.subrange(a, s.len() as int),
    decreases a,
{
    if a == 0 {
        assert(s.subrange(0, s.len() as int) =~= s);
    } else {
        let rest = s.drop_first();
        assert(is_white_space(s[0]));
        assert forall|k: int| 0 <= k < a - 1 implies is_white_space(#[trigger] rest[k]) by {
            assert(rest[k] == s[k + 1]);
        }
        lemma_trimmed_start_at(rest, a - 1);
        assert(rest.subrange(a - 1, rest.len() as int) =~= s.subrange(a, s.len() as int));
    }
}

/// Where white space fills `s` from `b` on, and `b` is the start of `s` or
/// follows another character, trimming the end leaves what precedes `b`.
pub proof fn lemma_trimmed_end_at(s: Seq<char>, b: int)
    requires
        0 <= b <= s.len(),
        white_space_between(s, b, s.len() as int),
        0 < b ==> !is_white_space(s[b - 1]),
    ensures
        trimmed_end(s) == s.subrange(0, b),
    decreases s.len() - b,
{
    if b == s.len() {
        assert(s.subrange(0, b) =~= s);
    } else {
        let rest = s.drop_last();
        assert(is_white_space(s[s.len() - 1]));
        assert forall|k: int| b <= k < rest.len() implies is_white_space(#[trigger] rest[k]) by {
            assert(rest[k] == s[k]);
        }
        lemma_trimmed_end_at(rest, b);
        assert(rest.subrange(0, b) =~= s.subrange(0, b));
    }
}

/// Trimming cuts `s` to the span from its first to its last character that
/// is no white space, and to nothing where it has none.
pub proof fn lemma_trimmed_span(s: Seq<char>, a: int, b: int)
    requires
        0 <= a <= b <= s.len(),
        white_space_between(s, 0, a),
        white_space_between(s, b, s.len() as int),
        a < b ==> !is_white_space(s[a]) && !is_white_space(s[b - 1]),
        a == b ==> white_space_between(s, 0, s.len() as int),
    ensures
        trimmed(s) == s.subrange(a, b),
{
    let n = s.len() as int;
    if a < b {
        lemma_trimmed_start_at(s, a);
        let t = s.subrange(a, n);
        assert forall|k: int| b - a <= k < t.len() implies is_white_space(#[trigger] t[k]) by {
            assert(t[k] == s[k + a]);
        }
        lemma_trimmed_end_at(t, b - a);
        assert(t.subrange(0, b - a) =~= s.subrange(a, b));
    } else {
        lemma_trimmed_start_at(s, n);
        let t = s.subrange(n, n);
        assert(t.len() == 0);
        assert(s.subrange(a, b) =~= t);
    }
}

/// What trimming the start leaves is the end of `s` from some place on:
/// white space fills `s` up to that place, and what is left does not begin
/// with white space.
pub proof fn lemma_trimmed_start_shape(s: Seq<char>)
    ensures
        trimmed_start(s).len() <= s.len(),
        trimmed_start(s) == s.subrange(s.len() - trimmed_start(s).len(), s.len() as int),
        white_space_between(s, 0, s.len() - trimmed_start(s).len()),
        trimmed_start(s).len() > 0 ==> !is_white_space(trimmed_start(s).first()),
    decreases s.len(),
{
    let n = s.len() as int;
    if s.len() > 0 && is_white_space(s.first()) {
        let rest = s.drop_first();
        let t = trimmed_start(rest);
        lemma_trimmed_start_shape(rest);
        assert(rest.subrange(rest.len() - t.len(), rest.len() as int) =~= s.subrange(
            n - t.len(),
            n,
        ));
        assert forall|k: int| 0 <= k < n - t.len() implies is_white_space(#[trigger] s[k]) by {
            if k > 0 {
                assert(s[k] == rest[k - 1]);
            }
        }
    } else {
        assert(s.subrange(0, n) =~= s);
    }
}

/// What trimming the end leaves is the start of `s` up to some place: white
/// space fills `s` from that place on, and what is left does not end in
/// white space.
pub proof fn lemma_trimmed_end_shape(s: Seq<char>)
    ensures
        trimmed_end(s).len() <= s.len(),
        trimmed_end(s) == s.subrange(0, trimmed_end(s).len() as int),
        white_space_between(s, trimmed_end(s).len() as int, s.len() as int),
        trimmed_end(s).len() > 0 ==> !is_white_space(trimmed_end(s).last()),
    decreases s.len(),
{
    let n = s.len() as int;
    if s.len() > 0 && is_white_space(s.last()) {
        let rest = s.drop_last();
        let t = trimmed_end(rest);
        lemma_trimmed_end_shape(rest);
        assert(rest.subrange(0, t.len() as int) =~= s.subrange(0, t.len() as int));
        assert forall|k: int| t.len() <= k < n implies is_white_space(#[trigger] s[k]) by {
            if k < n - 1 {
                assert(s[k] == rest[k]);
            }
        }
    } else {
        assert(s.subrange(0, n) =~= s);
    }
}

/// What trimming leaves neither begins nor ends with white space, and `s`
/// is that, with white space alone before it and after it.
pub proof fn lemma_trimmed_shape(s: Seq<char>) -> (span: (int, int))
    ensures
        0 <= span.0 <= span.1 <= s.len(),
        trimmed(s) == s.subrange(span.0, span.1),
        white_space_between(s, 0, span.0),
        white_space_between(s, span.1, s.len() as int),
        trimmed(s).len() > 0 ==> !is_white_space(trimmed(s).first()) && !is_white_space(
            trimmed(s).last(),
        ),
{
    let n = s.len() as int;
    let u = trimmed_start(s);
    let t = trimmed_end(u);
    lemma_trimmed_start_shape(s);
    lemma_trimmed_end_shape(u);
    let a = n - u.len();
    let b = a + t.len();
    assert(u.subrange(0, t.len() as int) =~= s.subrange(a, b));
    assert forall|k: int| b <= k < n implies is_white_space(#[trigger] s[k]) by {
        assert(s[k] == u[k - a]);
    }
    if t.len() > 0 {
        assert(t.first() == u.first());
    }
    (a, b)
}

/// A text that neither begins nor ends with white space is left as it is.
pub proof fn lemma_trimmed_unchanged(s: Seq<char>)
    requires
        s.len() > 0 ==> !is_white_space(s.first()) && !is_white_space(s.last()),
    ensures
        trimmed(s) == s,
{
}

/// Trimming what was trimmed changes nothing.
pub proof fn lemma_trimmed_idempotent(s: Seq<char>)
    ensures
        trimmed(trimmed(s)) == trimmed(s),
{
    lemma_trimmed_shape(s);
    lemma_trimmed_unchanged(trimmed(s));
}

/// White space around a text that neither begins nor ends with white space
/// is what trimming removes: the text comes back.
pub proof fn lemma_trimmed_surrounded(before: Seq<char>, core: Seq<char>, after: Seq<char>)
    requires
        white_space_between(before, 0, before.len() as int),
        white_space_between(after, 0, after.len() as int),
        core.len() > 0 ==> !is_white_space(core.first()) && !is_white_space(core.last()),
    ensures
        trimmed(before + core + after) == core,
{
    let s = before + core + after;
    let n = s.len() as int;
    let a = before.len() as int;
    let b = a + core.len();
    assert forall|k: int| 0 <= k < a implies is_white_space(#[trigger] s[k]) by {
        assert(s[k] == before[k]);
    }
    assert forall|k: int| b <= k < n implies is_white_space(#[trigger] s[k]) by {
        assert(s[k] == after[k - b]);
    }
    if a < b {
        assert(s[a] == core[0]);
        assert(s[b - 1] == core[core.len() - 1]);
        lemma_trimmed_span(s, a, b);
        assert(s.subrange(a, b) =~= core);
    } else {
        lemma_trimmed_span(s, 0, 0);
        assert(s.subrange(0, 0) =~= core);
    }
}

/// Decides `is_white_space`.
pub fn white_space(c: char) -> (r: bool)
    ensures
        r == is_white_space(c),
{
    let n: u32 = c as u32;
    (0x09 <= n && n <= 0x0D) || n == 0x20 || n == 0x85 || n == 0xA0 || n == 0x1680 || (0x2000 <= n
        && n <= 0x200A) || n == 0x2028 || n == 0x2029 || n == 0x202F || n == 0x205F || n == 0x3000
}

/// The part of `s` between its leading and its trailing white space.
pub fn trim<'a>(s: &'a str) -> (r: &'a str)
    ensures
        r@ == trimmed(s@),
{
    let n: usize = s.unicode_len();
    let mut chars = s.chars();
    let mut i: usize = 0;
    let mut first: usize = 0;
    let mut end: usize = 0;
    loop
        invariant
            n == s@.len(),
            i + chars.remaining().len() == n,
            chars.remaining() == s@.subrange(i as int, n as int),
            chars.obeys_prophetic_iter_laws(),
            chars.decrease() is Some,
            first <= end <= i,
            white_space_between(s@, 0, first as int),
            white_space_between(s@, end as int, i as int),
            first < end ==> !is_white_space(s@[first as int]) && !is_white_space(s@[end - 1]),
            first == end ==> first == 0 && white_space_between(s@, 0, i as int),
        decreases chars.decrease()->0,
    {
        let ghost before = chars;
        match chars.next() {
            Some(c) => {
                proof {
                    next_postcondition(&before, &chars, Some(c));
                    assert(c == s@[i as int]);
                    assert(chars.remaining() =~= s@.subrange(i + 1, n as int));
                }
                if !white_space(c) {
                    if first == end {
                        first = i;
                    }
                    end = i + 1;
                }
                i += 1;
            },
            None => {
                proof {
                    next_postcondition(&before, &chars, None);
                    lemma_trimmed_span(s@, first as int, end as int);
                }
                return s.substring_char(first, end);
            },
        }
    }
}

/// Whether two string slices hold the same characters.
pub fn same_text(a: &str, b: &str) -> (r: bool)
    ensures
        r == (a@ == b@),
{
    let x = a.as_bytes();
    let y = b.as_bytes();
    proof {
        encode_utf8_decode_utf8(a@);
        encode_utf8_decode_utf8(b@);
    }
    if x.len() != y.len() {
        return false;
    }
    let n: usize = x.len();
    let mut i: usize = 0;
    while i < n
        invariant
            i <= n,
            n == x@.len(),
            n == y@.len(),
            x@ == encode_utf8(a@),
            y@ == encode_utf8(b@),
            forall|k: int| 0 <= k < i ==> x@[k] == y@[k],
        decreases n - i,
    {
        if x[i] != y[i] {
            return false;
        }
        i += 1;
    }
    assert(x@ =~= y@);
    true
}

} // verus!
