//! Finding card references in chat text.
//!
//! A reference is written `{{ ... }}`. The first `}}` after the opening
//! braces closes it; what stands between is its content. A content that
//! begins with `!` asks for a free search, any other for a card by its exact
//! name. The two kinds are looked for independently: a reference of one kind
//! cannot begin inside an earlier reference of the same kind, but may begin
//! inside one of the other kind.

use vstd::prelude::*;
use crate::normalize::{tidied, tidy};
use crate::text::{chars_of, lowercase_of, push_range, string_of};

verus! {

/// How a reference asks for its card.
#[derive(Debug, Clone, Copy, PartialEq, Eq, Structural)]
pub enum Mode {
    /// `{{name}}`: the card with exactly this name.
    ExactName,
    /// `{{!query}}`: the first card that the query finds.
    FreeSearch,
}

/// Where a reference stands in a text: `open` is the index of its first `{`,
/// `close` that of the first `}` of the pair that ends it.
pub struct Span {
    pub mode: Mode,
    pub open: int,
    pub close: int,
}

/// `{{` stands at index `i`.
pub open spec fn opens_at(s: Seq<char>, i: int) -> bool {
    0 <= i && i + 1 < s.len() && s[i] == '{' && s[i + 1] == '{'
}

/// `}}` stands at index `j`.
pub open spec fn closes_at(s: Seq<char>, j: int) -> bool {
    0 <= j && j + 1 < s.len() && s[j] == '}' && s[j + 1] == '}'
}

/// The least index at or after `from` where `}}` stands, or `s.len()` if
/// there is none.
pub open spec fn first_close(s: Seq<char>, from: int) -> int
    decreases s.len() - from,
{
    if from < 0 || from >= s.len() {
        s.len() as int
    } else if closes_at(s, from) {
        from
    } else {
        first_close(s, from + 1)
    }
}

/// The content begins with `!`.
pub open spec fn begins_with_bang(content: Seq<char>) -> bool {
    content.len() > 0 && content[0] == '!'
}

/// The kind of reference that a content makes.
pub open spec fn mode_of(content: Seq<char>) -> Mode {
    if begins_with_bang(content) {
        Mode::FreeSearch
    } else {
        Mode::ExactName
    }
}

/// `content` without the run of `!` it begins with.
pub open spec fn skip_bangs(content: Seq<char>) -> Seq<char>
    decreases content.len(),
{
    if begins_with_bang(content) {
        skip_bangs(content.drop_first())
    } else {
        content
    }
}

/// What stands between the braces of a reference.
pub open spec fn content_of(s: Seq<char>, span: Span) -> Seq<char> {
    s.subrange(span.open + 2, span.close)
}

/// The query text of a reference as written: its content, after the run of
/// `!` for a free search.
pub open spec fn raw_query(s: Seq<char>, span: Span) -> Seq<char> {
    match span.mode {
        Mode::ExactName => content_of(s, span),
        Mode::FreeSearch => skip_bangs(content_of(s, span)),
    }
}

/// The reference that begins at index `i`, if one does.
pub open spec fn reference_at(s: Seq<char>, i: int) -> Option<Span> {
    if opens_at(s, i) && first_close(s, i + 2) < s.len() {
        let close: int = first_close(s, i + 2);
        Some(Span { mode: mode_of(s.subrange(i + 2, close)), open: i, close })
    } else {
        None
    }
}

/// The first index at which the next reference of kind `mode` may begin,
/// given the two kinds' own bounds.
pub open spec fn bound_of(mode: Mode, exact_from: int, search_from: int) -> int {
    match mode {
        Mode::ExactName => exact_from,
        Mode::FreeSearch => search_from,
    }
}

/// The references that begin at or after `i`, in the order of their
/// beginnings, where an exact-name reference may begin no earlier than
/// `exact_from` and a free search no earlier than `search_from`.
pub open spec fn scan_from(s: Seq<char>, i: int, exact_from: int, search_from: int) -> Seq<Span>
    decreases s.len() - i,
{
    if i < 0 || i >= s.len() {
        Seq::empty()
    } else {
        match reference_at(s, i) {
            Some(span) if i >= bound_of(span.mode, exact_from, search_from) => {
                let rest = match span.mode {
                    Mode::ExactName => scan_from(s, i + 1, span.close + 2, search_from),
                    Mode::FreeSearch => scan_from(s, i + 1, exact_from, span.close + 2),
                };
                seq![span] + rest
            },
            _ => scan_from(s, i + 1, exact_from, search_from),
        }
    }
}

/// The references of a text, in the order of their beginnings.
pub open spec fn references_in(s: Seq<char>) -> Seq<Span> {
    scan_from(s, 0, 0, 0)
}

/// The first `}}` at or after `from` is no earlier than `from`, and `}}`
/// stands there if it is inside `s`.
pub proof fn lemma_first_close(s: Seq<char>, from: int)
    requires
        0 <= from,
    ensures
        from <= first_close(s, from) || first_close(s, from) == s.len(),
        first_close(s, from) <= s.len(),
        first_close(s, from) < s.len() ==> closes_at(s, first_close(s, from)),
    decreases s.len() - from,
{
    if from < s.len() && !closes_at(s, from) {
        lemma_first_close(s, from + 1);
    }
}

/// The references of kind `mode` that a scan for that kind alone finds from
/// index `from` on: the leftmost first, and each next one sought from the end
/// of the one before.
pub open spec fn scan_kind(s: Seq<char>, mode: Mode, from: int) -> Seq<Span>
    decreases s.len() - from,
{
    if from < 0 || from >= s.len() {
        Seq::empty()
    } else {
        match reference_at(s, from) {
            Some(span) if span.mode == mode => {
                proof {
                    lemma_first_close(s, from + 2);
                }
                seq![span] + scan_kind(s, mode, span.close + 2)
            },
            _ => scan_kind(s, mode, from + 1),
        }
    }
}

/// The spans of `r` that are of kind `mode`, in their order.
pub open spec fn of_kind(r: Seq<Span>, mode: Mode) -> Seq<Span>
    decreases r.len(),
{
    if r.len() == 0 {
        r
    } else if r[0].mode == mode {
        seq![r[0]] + of_kind(r.drop_first(), mode)
    } else {
        of_kind(r.drop_first(), mode)
    }
}

/// The later of two indices.
pub open spec fn later(a: int, b: int) -> int {
    if a >= b {
        a
    } else {
        b
    }
}

/// A span is a reference of `s`: braces open it, the first `}}` after them
/// closes it, and it is a free search exactly if its content begins with `!`.
pub open spec fn is_reference(s: Seq<char>, span: Span) -> bool {
    &&& opens_at(s, span.open)
    &&& span.close == first_close(s, span.open + 2)
    &&& span.close < s.len()
    &&& (span.mode == Mode::FreeSearch <==> begins_with_bang(content_of(s, span)))
    &&& (span.mode == Mode::ExactName <==> !begins_with_bang(content_of(s, span)))
}

/// What holds of the references found from index `i` on, under the two bounds.
pub open spec fn well_scanned(
    s: Seq<char>,
    r: Seq<Span>,
    i: int,
    exact_from: int,
    search_from: int,
) -> bool {
    &&& forall|k: int|
        0 <= k < r.len() ==> is_reference(s, #[trigger] r[k]) && r[k].open >= i && r[k].open
            >= bound_of(r[k].mode, exact_from, search_from)
    &&& forall|k1: int, k2: int|
        0 <= k1 < k2 < r.len() ==> (#[trigger] r[k1]).open < (#[trigger] r[k2]).open && (r[k1].mode
            == r[k2].mode ==> r[k1].close + 2 <= r[k2].open)
}

/// A reference found in a text, by the indices of its braces.
#[derive(Debug, Clone, Copy)]
pub struct Found {
    pub mode: Mode,
    pub open: usize,
    pub close: usize,
}

impl View for Found {
    type V = Span;

    open spec fn view(&self) -> Span {
        Span { mode: self.mode, open: self.open as int, close: self.close as int }
    }
}

/// The index of the first `}}` at or after `from`, or `v.len()` if there is none.
pub fn find_close(v: &Vec<char>, from: usize) -> (j: usize)
    requires
        from <= v.len(),
    ensures
        j == first_close(v@, from as int),
        from <= j <= v.len(),
        j < v.len() ==> closes_at(v@, j as int),
{
    let n: usize = v.len();
    let mut j: usize = from;
    while j < n
        invariant
            from <= j <= n == v.len(),
            first_close(v@, from as int) == first_close(v@, j as int),
        decreases n - j,
    {
        if v[j] == '}' && j + 1 < n && v[j + 1] == '}' {
            return j;
        }
        j += 1;
    }
    n
}

/// The number of `!` that `v[from..to]` begins with.
pub fn count_bangs(v: &Vec<char>, from: usize, to: usize) -> (k: usize)
    requires
        from <= to <= v.len(),
    ensures
        from + k <= to,
        v@.subrange(from + k, to as int) == skip_bangs(v@.subrange(from as int, to as int)),
{
    let mut k: usize = 0;
    while from + k < to && v[from + k] == '!'
        invariant
            from + k <= to <= v.len(),
            skip_bangs(v@.subrange(from + k, to as int)) == skip_bangs(
                v@.subrange(from as int, to as int),
            ),
        decreases to - from - k,
    {
        assert(v@.subrange(from + k, to as int).drop_first() =~= v@.subrange(
            from + k + 1,
            to as int,
        ));
        k += 1;
    }
    k
}

/// The references of `v`, in the order of their beginnings.
pub fn scan(v: &Vec<char>) -> (out: Vec<Found>)
    ensures
        out@.len() == references_in(v@).len(),
        forall|k: int| 0 <= k < out@.len() ==> (#[trigger] out@[k])@ == references_in(v@)[k],
        forall|k: int| 0 <= k < out@.len() ==> (#[trigger] out@[k]).close < v.len(),
        forall|k: int| 0 <= k < out@.len() ==> (#[trigger] out@[k]).open + 2 <= out@[k].close,
{
    let n: usize = v.len();
    let mut out: Vec<Found> = Vec::new();
    let mut exact_from: usize = 0;
    let mut search_from: usize = 0;
    let mut i: usize = 0;
    let ghost mut built: Seq<Span> = Seq::empty();
    while i < n
        invariant
            i <= n == v.len(),
            exact_from <= n + 1,
            search_from <= n + 1,
            out@.len() == built.len(),
            forall|k: int| 0 <= k < out@.len() ==> (#[trigger] out@[k])@ == built[k],
            forall|k: int| 0 <= k < out@.len() ==> (#[trigger] out@[k]).close < v.len(),
            forall|k: int| 0 <= k < out@.len() ==> (#[trigger] out@[k]).open + 2 <= out@[k].close,
            references_in(v@) == built + scan_from(
                v@,
                i as int,
                exact_from as int,
                search_from as int,
            ),
        decreases n - i,
    {
        let ghost rest_before = scan_from(v@, i as int, exact_from as int, search_from as int);
        if v[i] == '{' && i + 1 < n && v[i + 1] == '{' {
            let close: usize = find_close(v, i + 2);
            if close < n {
                let bang: bool = i + 2 < close && v[i + 2] == '!';
                let found = Found {
                    mode: if bang {
                        Mode::FreeSearch
                    } else {
                        Mode::ExactName
                    },
                    open: i,
                    close,
                };
                if bang && i >= search_from {
                    out.push(found);
                    search_from = close + 2;
                    proof {
                        let rest = scan_from(v@, i + 1, exact_from as int, search_from as int);
                        assert(rest_before == seq![found@] + rest);
                        assert(built.push(found@) + rest =~= built + rest_before);
                        built = built.push(found@);
                    }
                } else if !bang && i >= exact_from {
                    out.push(found);
                    exact_from = close + 2;
                    proof {
                        let rest = scan_from(v@, i + 1, exact_from as int, search_from as int);
                        assert(rest_before == seq![found@] + rest);
                        assert(built.push(found@) + rest =~= built + rest_before);
                        built = built.push(found@);
                    }
                }
            }
        }
        i += 1;
    }
    out
}

/// A reference with its query text as written in the message.
#[derive(Debug)]
pub struct RawReference {
    pub mode: Mode,
    pub raw: String,
}

/// A reference with its normalised query, ready to be looked up.
#[derive(Debug)]
pub struct ExtractedReference {
    pub mode: Mode,
    pub query: String,
}

/// The references of a message, in the order of their beginnings, each with
/// its query text as written: the content between the braces, for a free
/// search the content after its run of `!`.
pub fn scan_references(text: &str) -> (out: Vec<RawReference>)
    ensures
        out@.len() == references_in(text@).len(),
        forall|k: int|
            0 <= k < out@.len() ==> (#[trigger] out@[k]).mode == references_in(text@)[k].mode
                && out@[k].raw@ == raw_query(text@, references_in(text@)[k]),
{
    let v = chars_of(text);
    let found = scan(&v);
    let mut out: Vec<RawReference> = Vec::new();
    let mut k: usize = 0;
    while k < found.len()
        invariant
            k <= found.len(),
            v@ == text@,
            out@.len() == k,
            found@.len() == references_in(v@).len(),
            forall|j: int| 0 <= j < found@.len() ==> (#[trigger] found@[j])@ == references_in(v@)[j],
            forall|j: int| 0 <= j < found@.len() ==> (#[trigger] found@[j]).close < v.len(),
            forall|j: int| 0 <= j < found@.len() ==> (#[trigger] found@[j]).open + 2 <= found@[j].close,
            forall|j: int|
                0 <= j < k ==> (#[trigger] out@[j]).mode == references_in(v@)[j].mode
                    && out@[j].raw@ == raw_query(v@, references_in(v@)[j]),
        decreases found.len() - k,
    {
        let f = found[k];
        let from: usize = f.open + 2;
        let mut buf: Vec<char> = Vec::new();
        match f.mode {
            Mode::ExactName => {
                push_range(&mut buf, &v, from, f.close);
            },
            Mode::FreeSearch => {
                let bangs: usize = count_bangs(&v, from, f.close);
                push_range(&mut buf, &v, from + bangs, f.close);
            },
        }
        assert(buf@ =~= raw_query(v@, f@));
        out.push(RawReference { mode: f.mode, raw: string_of(&buf) });
        k += 1;
    }
    out
}

/// `out` holds the references of `text`, in the order of their beginnings,
/// each with its query normalised.
pub open spec fn is_extraction_of(out: Seq<ExtractedReference>, text: Seq<char>) -> bool {
    &&& out.len() == references_in(text).len()
    &&& forall|k: int|
        0 <= k < out.len() ==> (#[trigger] out[k]).mode == references_in(text)[k].mode
            && out[k].query@ == lowercase_of(tidied(raw_query(text, references_in(text)[k])))
}

/// The references of a message, in the order of their beginnings, each with
/// its query normalised: trimmed, runs of spaces collapsed, lower-cased.
pub fn extract_references(text: &str) -> (out: Vec<ExtractedReference>)
    ensures
        is_extraction_of(out@, text@),
{
    let raws = scan_references(text);
    let mut out: Vec<ExtractedReference> = Vec::new();
    let mut k: usize = 0;
    while k < raws.len()
        invariant
            k <= raws.len(),
            out@.len() == k,
            raws@.len() == references_in(text@).len(),
            forall|j: int|
                0 <= j < raws@.len() ==> (#[trigger] raws@[j]).mode == references_in(text@)[j].mode
                    && raws@[j].raw@ == raw_query(text@, references_in(text@)[j]),
            forall|j: int|
                0 <= j < k ==> (#[trigger] out@[j]).mode == references_in(text@)[j].mode
                    && out@[j].query@ == lowercase_of(
                    tidied(raw_query(text@, references_in(text@)[j])),
                ),
        decreases raws.len() - k,
    {
        let t = tidy(raws[k].raw.as_str());
        let query = t.as_str().to_lowercase();
        out.push(ExtractedReference { mode: raws[k].mode, query });
        k += 1;
    }
    out
}

/// Every scan, from any index and under any bounds, yields references only,
/// in strictly rising order of their beginnings, and those of one kind do not
/// overlap.
pub proof fn lemma_scan_from(s: Seq<char>, i: int, exact_from: int, search_from: int)
    ensures
        well_scanned(s, scan_from(s, i, exact_from, search_from), i, exact_from, search_from),
    decreases s.len() - i,
{
    if 0 <= i < s.len() {
        let r = scan_from(s, i, exact_from, search_from);
        match reference_at(s, i) {
            Some(span) if i >= bound_of(span.mode, exact_from, search_from) => {
                let (e2, f2): (int, int) = match span.mode {
                    Mode::ExactName => (span.close + 2, search_from),
                    Mode::FreeSearch => (exact_from, span.close + 2),
                };
                let rest = scan_from(s, i + 1, e2, f2);
                lemma_scan_from(s, i + 1, e2, f2);
                assert(r == seq![span] + rest);
                assert forall|k: int| 0 <= k < r.len() implies is_reference(s, #[trigger] r[k])
                    && r[k].open >= i && r[k].open >= bound_of(
                    r[k].mode,
                    exact_from,
                    search_from,
                ) by {
                    if k > 0 {
                        assert(r[k] == rest[k - 1]);
                    }
                }
                assert forall|k1: int, k2: int| 0 <= k1 < k2 < r.len() implies (#[trigger] r[k1]).open
                    < (#[trigger] r[k2]).open && (r[k1].mode == r[k2].mode ==> r[k1].close + 2
                    <= r[k2].open) by {
                    assert(r[k2] == rest[k2 - 1]);
                    if k1 > 0 {
                        assert(r[k1] == rest[k1 - 1]);
                    }
                }
            },
            _ => {
                lemma_scan_from(s, i + 1, exact_from, search_from);
            },
        }
    }
}

/// The leading `!` parts the references of a text into the two kinds: each
/// span found is a reference, a free search exactly if its content begins
/// with `!` and an exact name exactly if it does not. No two of them begin at
/// the same place, so no span is found as both kinds, and two references of
/// the same kind never overlap.
pub proof fn lemma_references_partition(text: Seq<char>)
    ensures
        forall|k: int|
            0 <= k < references_in(text).len() ==> is_reference(
                text,
                #[trigger] references_in(text)[k],
            ),
        forall|k1: int, k2: int|
            0 <= k1 < k2 < references_in(text).len() ==> (#[trigger] references_in(text)[k1]).open
                < (#[trigger] references_in(text)[k2]).open,
        forall|k1: int, k2: int|
            0 <= k1 < k2 < references_in(text).len() && references_in(text)[k1].mode
                == references_in(text)[k2].mode ==> (#[trigger] references_in(text)[k1]).close + 2
                <= (#[trigger] references_in(text)[k2]).open,
{
    lemma_scan_from(text, 0, 0, 0);
}

/// From any index and under any bounds, the references of one kind that the
/// joint scan finds are those that a scan for that kind alone finds from the
/// index or from that kind's bound, whichever is later.
pub proof fn lemma_scan_from_of_kind(
    s: Seq<char>,
    mode: Mode,
    i: int,
    exact_from: int,
    search_from: int,
)
    requires
        0 <= i,
    ensures
        of_kind(scan_from(s, i, exact_from, search_from), mode) == scan_kind(
            s,
            mode,
            later(i, bound_of(mode, exact_from, search_from)),
        ),
    decreases s.len() - i,
{
    let bound = bound_of(mode, exact_from, search_from);
    let r = scan_from(s, i, exact_from, search_from);
    if i >= s.len() {
    } else {
        match reference_at(s, i) {
            Some(span) if i >= bound_of(span.mode, exact_from, search_from) => {
                lemma_first_close(s, i + 2);
                let (e2, f2): (int, int) = match span.mode {
                    Mode::ExactName => (span.close + 2, search_from),
                    Mode::FreeSearch => (exact_from, span.close + 2),
                };
                let rest = scan_from(s, i + 1, e2, f2);
                lemma_scan_from_of_kind(s, mode, i + 1, e2, f2);
                assert(r == seq![span] + rest);
                assert(r.drop_first() =~= rest);
            },
            _ => {
                lemma_scan_from_of_kind(s, mode, i + 1, exact_from, search_from);
            },
        }
    }
}

/// The two kinds are scanned independently: the exact-name references of a
/// text are those that a scan for exact names alone finds, and its free
/// searches those that a scan for free searches alone finds.
pub proof fn lemma_kinds_are_independent(text: Seq<char>, mode: Mode)
    ensures
        of_kind(references_in(text), mode) == scan_kind(text, mode, 0),
{
    lemma_scan_from_of_kind(text, mode, 0, 0, 0);
}

} // verus!
