//! Rich text: the rules text of a card, and the plain string shown for it.

use vstd::prelude::*;
use crate::text::{decimal, push_decimal, push_str, string_of};

verus! {

/// One element of a rich text. A document is a `Vec<RichElement>`, read in order.
///
/// The three reference variants carry what they point to, but only `display`
/// is ever shown: nothing here looks at `identity`, `id` or `search`.
#[derive(Debug)]
pub enum RichElement {
    PlainText(String),
    CardReference { display: String, identity: String },
    SpecificCardReference { display: String, id: String },
    CardSearchReference { display: String, search: String },
    LineBreak,
    /// A numbered list: each line is a document of its own.
    Saga(Vec<Vec<RichElement>>),
}

/// The text shown for a document: the texts of its elements, one after another.
pub open spec fn render_spec(doc: Seq<RichElement>) -> Seq<char>
    decreases doc, 0nat,
{
    if doc.len() == 0 {
        Seq::empty()
    } else {
        render_spec(doc.drop_last()) + render_element(doc.last())
    }
}

/// The text shown for one element.
pub open spec fn render_element(e: RichElement) -> Seq<char>
    decreases e, 0nat,
{
    match e {
        RichElement::PlainText(t) => t@,
        RichElement::CardReference { display, identity } => display@,
        RichElement::SpecificCardReference { display, id } => display@,
        RichElement::CardSearchReference { display, search } => display@,
        RichElement::LineBreak => seq!['\n'],
        RichElement::Saga(lines) => render_lines(lines@, lines@.len()) + seq!['\n'],
    }
}

/// The text shown for line `k` of a saga, counted from 0: a line break, the
/// number `k + 1`, a full stop and a space, then the line itself.
pub open spec fn render_line(lines: Seq<Vec<RichElement>>, k: int) -> Seq<char>
    recommends
        0 <= k < lines.len(),
    decreases lines, 0nat,
    when 0 <= k < lines.len()
{
    seq!['\n'] + decimal((k + 1) as nat) + seq!['.', ' '] + render_spec(lines[k]@)
}

/// The text shown for the first `n` lines of a saga.
pub open spec fn render_lines(lines: Seq<Vec<RichElement>>, n: nat) -> Seq<char>
    decreases lines, n + 1,
{
    if n == 0 || n > lines.len() {
        Seq::empty()
    } else {
        render_lines(lines, (n - 1) as nat) + render_line(lines, n - 1)
    }
}

/// Appends the text shown for `doc` to `out`.
pub fn render_into(doc: &Vec<RichElement>, out: &mut Vec<char>)
    ensures
        final(out)@ == old(out)@ + render_spec(doc@),
    decreases doc,
{
    let mut i: usize = 0;
    while i < doc.len()
        invariant
            i <= doc.len(),
            out@ == old(out)@ + render_spec(doc@.take(i as int)),
        decreases doc.len() - i,
    {
        proof {
            assert(doc@.take(i + 1).drop_last() =~= doc@.take(i as int));
        }
        let ghost before = out@;
        match &doc[i] {
            RichElement::PlainText(t) => {
                push_str(out, t.as_str());
            },
            RichElement::CardReference { display, identity: _ } => {
                push_str(out, display.as_str());
            },
            RichElement::SpecificCardReference { display, id: _ } => {
                push_str(out, display.as_str());
            },
            RichElement::CardSearchReference { display, search: _ } => {
                push_str(out, display.as_str());
            },
            RichElement::LineBreak => {
                out.push('\n');
            },
            RichElement::Saga(lines) => {
                let mut k: usize = 0;
                while k < lines.len()
                    invariant
                        k <= lines.len(),
                        i < doc.len(),
                        doc@[i as int] == RichElement::Saga(*lines),
                        out@ == before + render_lines(lines@, k as nat),
                    decreases lines.len() - k,
                {
                    out.push('\n');
                    push_decimal(out, (k + 1) as u64);
                    out.push('.');
                    out.push(' ');
                    proof {
                        assert(decreases_to!(doc@ => doc@[i as int]));
                        assert(decreases_to!(doc@[i as int] => doc@[i as int]->Saga_0));
                        assert(decreases_to!(lines@ => lines@[k as int]));
                    }
                    render_into(&lines[k], out);
                    assert(out@ =~= before + render_lines(lines@, k as nat) + render_line(
                        lines@,
                        k as int,
                    ));
                    k += 1;
                }
                out.push('\n');
            },
        }
        assert(out@ == before + render_element(doc@[i as int]));
        i += 1;
    }
    assert(doc@.take(doc.len() as int) =~= doc@);
}

/// The text shown for a rich-text document.
///
/// Plain text and the display text of references are copied as they are, a
/// line break becomes `"\n"`, and a saga becomes one numbered line per entry,
/// each opened by `"\n"`, with one more `"\n"` after the last. References are
/// never followed.
pub fn render_rich_string(doc: &Vec<RichElement>) -> (out: String)
    ensures
        out@ == render_spec(doc@),
{
    let mut buf: Vec<char> = Vec::new();
    render_into(doc, &mut buf);
    string_of(&buf)
}

/// The plain texts of a document of `PlainText` elements only.
pub open spec fn plain_texts(doc: Seq<RichElement>) -> Seq<Seq<char>> {
    Seq::new(doc.len(), |i: int| doc[i]->PlainText_0@)
}

/// A document that holds nothing but plain text is shown as its texts joined,
/// with nothing added, dropped or changed.
pub proof fn lemma_render_plain_text(doc: Seq<RichElement>)
    requires
        forall|i: int| 0 <= i < doc.len() ==> doc[i] is PlainText,
    ensures
        render_spec(doc) == plain_texts(doc).flatten(),
    decreases doc.len(),
{
    if doc.len() == 0 {
        assert(plain_texts(doc) =~= Seq::<Seq<char>>::empty());
    } else {
        let front = doc.drop_last();
        lemma_render_plain_text(front);
        assert(render_element(doc.last()) == doc.last()->PlainText_0@);
        assert(plain_texts(doc) =~= plain_texts(front).push(doc.last()->PlainText_0@));
        plain_texts(front).lemma_flatten_push(doc.last()->PlainText_0@);
    }
}

/// The text shown for two documents joined is the two texts joined: what an
/// element is shown as does not depend on what stands around it.
pub proof fn lemma_render_concat(a: Seq<RichElement>, b: Seq<RichElement>)
    ensures
        render_spec(a + b) == render_spec(a) + render_spec(b),
    decreases b.len(),
{
    if b.len() == 0 {
        assert(a + b =~= a);
    } else {
        lemma_render_concat(a, b.drop_last());
        assert((a + b).drop_last() =~= a + b.drop_last());
        assert(render_spec(a + b) =~= render_spec(a) + render_spec(b));
    }
}

/// The lines of a saga are numbered from 1 within that saga, wherever the saga
/// stands: line `k`, counted from 0, is shown as a line break, the number
/// `k + 1`, `". "` and the line's own text, and the saga as its lines in order
/// with a closing line break. A saga inside a line of another saga is shown by
/// the same rule, so its numbers start at 1 again.
pub proof fn lemma_saga_numbering(lines: Vec<Vec<RichElement>>, k: int)
    requires
        0 <= k < lines@.len(),
    ensures
        render_lines(lines@, 0) == Seq::<char>::empty(),
        render_lines(lines@, (k + 1) as nat) == render_lines(lines@, k as nat) + seq!['\n']
            + decimal((k + 1) as nat) + seq!['.', ' '] + render_spec(lines@[k]@),
        render_element(RichElement::Saga(lines)) == render_lines(lines@, lines@.len()) + seq![
            '\n',
        ],
{
    assert(render_lines(lines@, (k + 1) as nat) == render_lines(lines@, k as nat) + render_line(
        lines@,
        k,
    ));
    assert(render_lines(lines@, (k + 1) as nat) =~= render_lines(lines@, k as nat) + seq!['\n']
        + decimal((k + 1) as nat) + seq!['.', ' '] + render_spec(lines@[k]@));
}

/// The text of every saga that has a line begins with a line break and the
/// label `1. `, whatever stands before the saga and however deep it is nested.
pub proof fn lemma_saga_starts_at_one(lines: Vec<Vec<RichElement>>)
    requires
        lines@.len() >= 1,
    ensures
        seq!['\n', '1', '.', ' '].is_prefix_of(render_element(RichElement::Saga(lines))),
{
    let label = seq!['\n', '1', '.', ' '];
    lemma_saga_opening(lines@, lines@.len());
    let whole = render_lines(lines@, lines@.len());
    assert(render_element(RichElement::Saga(lines)) == whole + seq!['\n']);
    assert(label =~= (whole + seq!['\n']).subrange(0, 4)) by {
        assert(label =~= whole.subrange(0, 4));
    }
}

/// The first `n` lines of a saga, for `n` of 1 or more, begin with a line
/// break and the label `1. `.
pub proof fn lemma_saga_opening(lines: Seq<Vec<RichElement>>, n: nat)
    requires
        1 <= n <= lines.len(),
    ensures
        seq!['\n', '1', '.', ' '].is_prefix_of(render_lines(lines, n)),
    decreases n,
{
    let label = seq!['\n', '1', '.', ' '];
    let front = render_lines(lines, (n - 1) as nat);
    let line = render_line(lines, n - 1);
    assert(render_lines(lines, n) == front + line);
    if n == 1 {
        assert(decimal(1) =~= seq!['1']);
        assert(label =~= (front + line).subrange(0, 4));
    } else {
        lemma_saga_opening(lines, (n - 1) as nat);
        assert(label =~= front.subrange(0, 4));
        assert(label =~= (front + line).subrange(0, 4));
    }
}

} // verus!
