//! Query normalisation: trim, collapse runs of spaces, lower-case.

use vstd::prelude::*;
use crate::text::{chars_of, lowercase_of, string_of};

verus! {

/// The characters with the Unicode property `White_Space`.
pub open spec fn is_whitespace(c: char) -> bool {
    let n: u32 = c as u32;
    (0x09 <= n <= 0x0D) || n == 0x20 || n == 0x85 || n == 0xA0 || n == 0x1680 || (0x2000 <= n
        <= 0x200A) || n == 0x2028 || n == 0x2029 || n == 0x202F || n == 0x205F || n == 0x3000
}

/// Whether `c` is white space.
pub fn is_whitespace_char(c: char) -> (b: bool)
    ensures
        b == is_whitespace(c),
{
    let n: u32 = c as u32;
    (0x09 <= n && n <= 0x0D) || n == 0x20 || n == 0x85 || n == 0xA0 || n == 0x1680 || (0x2000 <= n
        && n <= 0x200A) || n == 0x2028 || n == 0x2029 || n == 0x202F || n == 0x205F || n == 0x3000
}

/// `s` without the white space it begins with.
pub open spec fn trim_start(s: Seq<char>) -> Seq<char>
    decreases s.len(),
{
    if s.len() > 0 && is_whitespace(s[0]) {
        trim_start(s.drop_first())
    } else {
        s
    }
}

/// `s` without the white space it ends with.
pub open spec fn trim_end(s: Seq<char>) -> Seq<char>
    decreases s.len(),
{
    if s.len() > 0 && is_whitespace(s.last()) {
        trim_end(s.drop_last())
    } else {
        s
    }
}

/// `s` without the white space at either end.
pub open spec fn trimmed(s: Seq<char>) -> Seq<char> {
    trim_end(trim_start(s))
}

/// `s` with every run of spaces cut down to its first space: a space is
/// dropped exactly when the character before it is a space too.
pub open spec fn collapsed(s: Seq<char>) -> Seq<char>
    decreases s.len(),
{
    if s.len() == 0 {
        s
    } else if s.len() >= 2 && s.last() == ' ' && s[s.len() - 2] == ' ' {
        collapsed(s.drop_last())
    } else {
        collapsed(s.drop_last()).push(s.last())
    }
}

/// No two spaces stand side by side in `s`.
pub open spec fn no_double_space(s: Seq<char>) -> bool {
    forall|i: int| 0 <= i && i + 1 < s.len() ==> !(#[trigger] s[i] == ' ' && s[i + 1] == ' ')
}

/// A raw query made tidy: trimmed, then collapsed.
pub open spec fn tidied(s: Seq<char>) -> Seq<char> {
    collapsed(trimmed(s))
}

/// The bounds of `v` without the white space at either end.
pub fn trim_bounds(v: &Vec<char>) -> (r: (usize, usize))
    ensures
        r.0 <= r.1 <= v.len(),
        v@.subrange(r.0 as int, r.1 as int) == trimmed(v@),
{
    let n: usize = v.len();
    let mut a: usize = 0;
    assert(v@.subrange(0, n as int) =~= v@);
    while a < n && is_whitespace_char(v[a])
        invariant
            a <= n == v.len(),
            trim_start(v@) == trim_start(v@.subrange(a as int, n as int)),
        decreases n - a,
    {
        assert(v@.subrange(a as int, n as int).drop_first() =~= v@.subrange(a + 1, n as int));
        a += 1;
    }
    let mut b: usize = n;
    while b > a && is_whitespace_char(v[b - 1])
        invariant
            a <= b <= n == v.len(),
            trimmed(v@) == trim_end(v@.subrange(a as int, b as int)),
        decreases b,
    {
        assert(v@.subrange(a as int, b as int).drop_last() =~= v@.subrange(a as int, b - 1));
        b -= 1;
    }
    (a, b)
}

/// The characters of `v[from..to]`, with every run of spaces cut down to one
/// space.
pub fn collapse_range(v: &Vec<char>, from: usize, to: usize) -> (out: Vec<char>)
    requires
        from <= to <= v.len(),
    ensures
        out@ == collapsed(v@.subrange(from as int, to as int)),
{
    let mut out: Vec<char> = Vec::new();
    let mut i: usize = from;
    while i < to
        invariant
            from <= i <= to <= v.len(),
            out@ == collapsed(v@.subrange(from as int, i as int)),
        decreases to - i,
    {
        proof {
            let next = v@.subrange(from as int, i + 1);
            assert(next.drop_last() =~= v@.subrange(from as int, i as int));
            if i > from {
                assert(next[next.len() - 2] == v@[i - 1]);
            }
        }
        if !(v[i] == ' ' && i > from && v[i - 1] == ' ') {
            out.push(v[i]);
        }
        i += 1;
    }
    out
}

/// `s` with every run of two or more spaces cut down to a single space.
pub fn collapse(s: &str) -> (out: String)
    ensures
        out@ == collapsed(s@),
{
    let v = chars_of(s);
    assert(v@.subrange(0, v@.len() as int) =~= v@);
    let out = collapse_range(&v, 0, v.len());
    string_of(&out)
}

/// A raw query made tidy: white space at either end removed, then every run
/// of spaces inside cut down to one.
pub fn tidy(raw: &str) -> (out: String)
    ensures
        out@ == tidied(raw@),
{
    let v = chars_of(raw);
    let (a, b): (usize, usize) = trim_bounds(&v);
    let out = collapse_range(&v, a, b);
    string_of(&out)
}

/// The query that a raw reference stands for: tidied, then lower-cased.
pub fn normalize(raw: &str) -> (out: String)
    ensures
        out@ == lowercase_of(tidied(raw@)),
{
    let t = tidy(raw);
    t.as_str().to_lowercase()
}

/// A collapsed string ends as the string it was made from ends.
pub proof fn lemma_collapsed_last(s: Seq<char>)
    requires
        s.len() > 0,
    ensures
        collapsed(s).len() > 0,
        collapsed(s).last() == s.last(),
    decreases s.len(),
{
    if s.len() >= 2 && s.last() == ' ' && s[s.len() - 2] == ' ' {
        lemma_collapsed_last(s.drop_last());
    }
}

/// A collapsed string holds no two spaces side by side.
pub proof fn lemma_collapsed_no_double_space(s: Seq<char>)
    ensures
        no_double_space(collapsed(s)),
    decreases s.len(),
{
    if s.len() > 0 {
        let front = s.drop_last();
        lemma_collapsed_no_double_space(front);
        if front.len() > 0 {
            lemma_collapsed_last(front);
        }
    }
}

/// Collapsing changes nothing in a string that holds no two spaces side by side.
pub proof fn lemma_collapsed_fixed(s: Seq<char>)
    requires
        no_double_space(s),
    ensures
        collapsed(s) == s,
    decreases s.len(),
{
    if s.len() > 0 {
        let front = s.drop_last();
        assert forall|i: int| 0 <= i && i + 1 < front.len() implies !(#[trigger] front[i] == ' '
            && front[i + 1] == ' ') by {
            assert(front[i] == s[i]);
        }
        lemma_collapsed_fixed(front);
        if s.len() >= 2 {
            assert(!(s[s.len() - 2] == ' ' && s[s.len() - 2 + 1] == ' '));
        }
    }
}

/// Collapsing is idempotent: a second pass changes nothing, and after the
/// first no two spaces stand side by side.
pub proof fn lemma_collapse_idempotent(s: Seq<char>)
    ensures
        collapsed(collapsed(s)) == collapsed(s),
        no_double_space(collapsed(s)),
{
    lemma_collapsed_no_double_space(s);
    lemma_collapsed_fixed(collapsed(s));
}

} // verus!
