//! A card, and the two texts shown under it: the footer line and the
//! description with its flavour text.

use vstd::prelude::*;
use crate::rich_text::{render_into, render_spec, RichElement};
use crate::text::{
    chars_of, contains_sub, has_sub, lowercase_of, push_range, push_signed_decimal, push_str,
    signed_decimal, string_of,
};

verus! {

/// A card as the search service describes it.
#[derive(Debug)]
pub struct Card {
    pub id: String,
    pub name: String,
    /// A free-form label such as `Creature`, `Command` or `Flask of fire`.
    pub card_type: String,
    pub cost: i64,
    pub health: i64,
    pub defense: i64,
    pub power: i64,
    pub description: Vec<RichElement>,
    /// May be empty, and may hold `*` of its own.
    pub flavor_text: String,
    pub image_asset_id: String,
}

/// The upper-case form of an ASCII lower-case letter; any other character
/// unchanged.
pub open spec fn ascii_upper(c: char) -> char {
    if 'a' <= c <= 'z' {
        ((c as int) - 32) as char
    } else {
        c
    }
}

/// `s` with its first character, and no other, put in ASCII upper case.
pub open spec fn titlecase_first(s: Seq<char>) -> Seq<char> {
    if s.len() == 0 {
        s
    } else {
        s.update(0, ascii_upper(s[0]))
    }
}

/// The upper-case form of `c` if it is an ASCII lower-case letter, else `c`.
pub fn ascii_upper_char(c: char) -> (u: char)
    ensures
        u == ascii_upper(c),
{
    let n: u32 = c as u32;
    if 97 <= n && n <= 122 {
        ((n - 32) as u8) as char
    } else {
        c
    }
}

/// `s` with its first character in ASCII upper case. Only that one character
/// can change: later words keep their case, and the empty string stays empty.
pub fn get_ascii_titlecase(s: &str) -> (out: String)
    ensures
        out@ == titlecase_first(s@),
{
    let mut v = chars_of(s);
    if v.len() > 0 {
        let u = ascii_upper_char(v[0]);
        v.set(0, u);
    }
    string_of(&v)
}

/// The footer of a card of type `card_type`, whose lower-case form is
/// `lowered`.
///
/// A type that names a flask gives the type alone. Any other gives the type
/// and the cost in blood, and, unless the type names a command, the three
/// stats after it.
pub open spec fn footer_text(
    card_type: Seq<char>,
    lowered: Seq<char>,
    cost: int,
    health: int,
    defense: int,
    power: int,
) -> Seq<char> {
    let title = titlecase_first(card_type);
    if has_sub(lowered, "flask"@) {
        title
    } else {
        let head = title + " :: "@ + signed_decimal(cost) + " Blood"@;
        if has_sub(lowered, "command"@) {
            head
        } else {
            head + " :: "@ + signed_decimal(health) + "/"@ + signed_decimal(defense) + "/"@
                + signed_decimal(power)
        }
    }
}

/// The footer of `card`, given the lower-case form of its type.
pub fn footer_from_lowered(card: &Card, lowered_type: &str) -> (out: String)
    ensures
        out@ == footer_text(
            card.card_type@,
            lowered_type@,
            card.cost as int,
            card.health as int,
            card.defense as int,
            card.power as int,
        ),
{
    let lowered = chars_of(lowered_type);
    let title = get_ascii_titlecase(card.card_type.as_str());
    let mut buf = chars_of(title.as_str());
    if contains_sub(&lowered, &chars_of("flask")) {
        return string_of(&buf);
    }
    push_str(&mut buf, " :: ");
    push_signed_decimal(&mut buf, card.cost);
    push_str(&mut buf, " Blood");
    if !contains_sub(&lowered, &chars_of("command")) {
        push_str(&mut buf, " :: ");
        push_signed_decimal(&mut buf, card.health);
        push_str(&mut buf, "/");
        push_signed_decimal(&mut buf, card.defense);
        push_str(&mut buf, "/");
        push_signed_decimal(&mut buf, card.power);
    }
    string_of(&buf)
}

/// The footer of `card`: its type, cost and stats on one line. Whether the
/// type names a flask or a command is judged on its lower-case form.
pub fn get_card_footer_text(card: &Card) -> (out: String)
    ensures
        out@ == footer_text(
            card.card_type@,
            lowercase_of(card.card_type@),
            card.cost as int,
            card.health as int,
            card.defense as int,
            card.power as int,
        ),
{
    let lowered = card.card_type.as_str().to_lowercase();
    footer_from_lowered(card, lowered.as_str())
}

/// The least index at or after `from` where a line feed stands, or `s.len()`
/// if there is none.
pub open spec fn first_newline(s: Seq<char>, from: int) -> int
    decreases s.len() - from,
{
    if from < 0 || from >= s.len() {
        s.len() as int
    } else if s[from] == '\n' {
        from
    } else {
        first_newline(s, from + 1)
    }
}

/// The first line feed at or after `from` is no earlier than `from`, and a
/// line feed stands there if it is inside `s`.
pub proof fn lemma_first_newline(s: Seq<char>, from: int)
    requires
        0 <= from,
    ensures
        from <= first_newline(s, from) || first_newline(s, from) == s.len(),
        first_newline(s, from) <= s.len(),
        first_newline(s, from) < s.len() ==> s[first_newline(s, from)] == '\n',
    decreases s.len() - from,
{
    if from < s.len() && s[from] != '\n' {
        lemma_first_newline(s, from + 1);
    }
}

/// A line without the carriage return that stood before its line feed.
pub open spec fn strip_cr(line: Seq<char>) -> Seq<char> {
    if line.len() > 0 && line.last() == '\r' {
        line.drop_last()
    } else {
        line
    }
}

/// The lines of `s` from index `from` on. A line ends at a line feed, or at a
/// carriage return directly before one; what follows the last line feed is a
/// line too, unless it is empty.
pub open spec fn lines_from(s: Seq<char>, from: int) -> Seq<Seq<char>>
    decreases s.len() - from,
{
    if from < 0 || from >= s.len() {
        Seq::empty()
    } else {
        let k: int = first_newline(s, from);
        if k >= s.len() {
            seq![s.subrange(from, s.len() as int)]
        } else {
            proof {
                lemma_first_newline(s, from);
            }
            seq![strip_cr(s.subrange(from, k))] + lines_from(s, k + 1)
        }
    }
}

/// What one line of flavour text adds to a description: nothing if it is
/// empty, else a small-print line, set between `*` if `wrap` holds.
pub open spec fn flavor_line(line: Seq<char>, wrap: bool) -> Seq<char> {
    if line.len() == 0 {
        Seq::empty()
    } else if wrap {
        "\n\n-# "@ + seq!['*'] + line + seq!['*']
    } else {
        "\n\n-# "@ + line
    }
}

/// What the given lines of flavour text add to a description, in order.
pub open spec fn flavor_block(lines: Seq<Seq<char>>, wrap: bool) -> Seq<char>
    decreases lines.len(),
{
    if lines.len() == 0 {
        Seq::empty()
    } else {
        flavor_line(lines[0], wrap) + flavor_block(lines.drop_first(), wrap)
    }
}

/// What a flavour text adds to a description. Its lines are set between `*`
/// exactly if the whole text holds no `*`.
pub open spec fn flavor_tail(flavor: Seq<char>) -> Seq<char> {
    flavor_block(lines_from(flavor, 0), !flavor.contains('*'))
}

/// The description shown for a card: its rules text, then its flavour text.
pub open spec fn embed_text(description: Seq<RichElement>, flavor: Seq<char>) -> Seq<char> {
    render_spec(description) + flavor_tail(flavor)
}

/// Whether `c` occurs in `v`.
pub fn has_char(v: &Vec<char>, c: char) -> (b: bool)
    ensures
        b == v@.contains(c),
{
    let mut i: usize = 0;
    while i < v.len()
        invariant
            i <= v.len(),
            forall|j: int| 0 <= j < i ==> v@[j] != c,
        decreases v.len() - i,
    {
        if v[i] == c {
            return true;
        }
        i += 1;
    }
    false
}

/// The index of the first line feed at or after `from`, or `v.len()` if
/// there is none.
pub fn find_newline(v: &Vec<char>, from: usize) -> (k: usize)
    requires
        from <= v.len(),
    ensures
        k == first_newline(v@, from as int),
        from <= k <= v.len(),
        k < v.len() ==> v@[k as int] == '\n',
{
    let mut k: usize = from;
    while k < v.len()
        invariant
            from <= k <= v.len(),
            first_newline(v@, from as int) == first_newline(v@, k as int),
        decreases v.len() - k,
    {
        if v[k] == '\n' {
            return k;
        }
        k += 1;
    }
    k
}

/// Appends to `out` what the flavour text `flavor` adds to a description.
pub fn push_flavor(out: &mut Vec<char>, flavor: &Vec<char>)
    ensures
        final(out)@ == old(out)@ + flavor_tail(flavor@),
{
    let n: usize = flavor.len();
    let wrap = !has_char(flavor, '*');
    let mut pos: usize = 0;
    while pos < n
        invariant
            pos <= n == flavor.len(),
            out@ + flavor_block(lines_from(flavor@, pos as int), wrap) == old(out)@ + flavor_block(
                lines_from(flavor@, 0),
                wrap,
            ),
        decreases n - pos,
    {
        let ghost before = out@;
        let ghost lines = lines_from(flavor@, pos as int);
        let k: usize = find_newline(flavor, pos);
        let mut end: usize = k;
        if k < n && end > pos && flavor[end - 1] == '\r' {
            end = end - 1;
        }
        let next: usize = if k < n {
            k + 1
        } else {
            n
        };
        proof {
            let line = flavor@.subrange(pos as int, end as int);
            let rest = lines_from(flavor@, next as int);
            if k < n {
                let whole = flavor@.subrange(pos as int, k as int);
                if whole.len() > 0 {
                    assert(whole.last() == flavor@[k - 1]);
                }
                assert(strip_cr(whole) =~= line);
            }
            assert(lines =~= seq![line] + rest);
            assert(lines.drop_first() =~= rest);
        }
        if end > pos {
            push_str(out, "\n\n-# ");
            if wrap {
                out.push('*');
            }
            push_range(out, flavor, pos, end);
            if wrap {
                out.push('*');
            }
        }
        proof {
            let line = flavor@.subrange(pos as int, end as int);
            assert(out@ =~= before + flavor_line(line, wrap));
            assert(out@ + flavor_block(lines_from(flavor@, next as int), wrap) =~= before
                + flavor_block(lines, wrap));
        }
        pos = next;
    }
}

/// The description shown for `card`: its rules text as plain text, then each
/// line of its flavour text that is not empty, as a small-print line of its
/// own. The flavour lines are set in italics unless the flavour text already
/// holds a `*` somewhere.
pub fn get_card_embed_text(card: &Card) -> (out: String)
    ensures
        out@ == embed_text(card.description@, card.flavor_text@),
{
    let mut buf: Vec<char> = Vec::new();
    render_into(&card.description, &mut buf);
    let flavor = chars_of(card.flavor_text.as_str());
    push_flavor(&mut buf, &flavor);
    string_of(&buf)
}

} // verus!
