//! Markdown highlighting of assistant replies: inline emphasis and code
//! (`` ` ``, `*`, `**`) and line-level headings and bullets.

use vstd::prelude::*;
use crate::style::{
    Color, Span, SpanStyle, SpanV, fg_style, bold_style, plain_style, spans_view, push_span,
    append_spans,
};
use crate::text::{chars_of, push_char, string_of, has_prefix_at, count_leading_ws, starts_with, leading_ws};

verus! {

/// The style of inline text: code is drawn in the primary colour, other text
/// in bold and/or italics as the emphasis markers in force say.
pub open spec fn inline_style(code: bool, bold: bool, italic: bool) -> SpanStyle {
    if code {
        fg_style(Color::Primary)
    } else {
        SpanStyle { fg: None, bold, italic, dim: false }
    }
}

/// `spans` with the pending text `cur` closed as a span, when it is not empty.
pub open spec fn flush(spans: Seq<SpanV>, cur: Seq<char>, style: SpanStyle) -> Seq<SpanV> {
    if cur.len() == 0 {
        spans
    } else {
        spans.push((cur, style))
    }
}

/// The spans of `t` read from position `i`, given the spans closed so far,
/// the pending text and the emphasis state. A backquote closes the pending
/// text and toggles code; outside code, `**` closes it and toggles bold and a
/// single `*` closes it and toggles italics; any other character is added to
/// the pending text. At the end the pending text is closed.
pub open spec fn inline_from(
    t: Seq<char>,
    i: int,
    spans: Seq<SpanV>,
    cur: Seq<char>,
    bold: bool,
    italic: bool,
    code: bool,
) -> Seq<SpanV>
    decreases t.len() - i,
{
    if i < 0 || i >= t.len() {
        flush(spans, cur, inline_style(code, bold, italic))
    } else if t[i] == '`' {
        inline_from(t, i + 1, flush(spans, cur, inline_style(code, bold, italic)), seq![], bold, italic, !code)
    } else if !code && t[i] == '*' {
        if i + 1 < t.len() && t[i + 1] == '*' {
            inline_from(t, i + 2, flush(spans, cur, inline_style(code, bold, italic)), seq![], !bold, italic, code)
        } else {
            inline_from(t, i + 1, flush(spans, cur, inline_style(code, bold, italic)), seq![], bold, !italic, code)
        }
    } else {
        inline_from(t, i + 1, spans, cur.push(t[i]), bold, italic, code)
    }
}

/// The spans of inline markdown text.
pub open spec fn inline_spans(t: Seq<char>) -> Seq<SpanV> {
    inline_from(t, 0, seq![], seq![], false, false, false)
}

/// The text of a sequence of spans, read one after the other.
pub open spec fn spans_text(spans: Seq<SpanV>) -> Seq<char>
    decreases spans.len(),
{
    if spans.len() == 0 {
        seq![]
    } else {
        spans_text(spans.drop_last()) + spans.last().0
    }
}

/// The characters of `t` from `i` on that remain visible: backquotes toggle
/// code and vanish, asterisks outside code vanish, all else stays.
pub open spec fn visible_from(t: Seq<char>, i: int, code: bool) -> Seq<char>
    decreases t.len() - i,
{
    if i < 0 || i >= t.len() {
        seq![]
    } else if t[i] == '`' {
        visible_from(t, i + 1, !code)
    } else if !code && t[i] == '*' {
        visible_from(t, i + 1, code)
    } else {
        seq![t[i]] + visible_from(t, i + 1, code)
    }
}

/// The visible text of inline markdown.
pub open spec fn visible_text(t: Seq<char>) -> Seq<char> {
    visible_from(t, 0, false)
}

/// Whether no span of the sequence is empty.
pub open spec fn no_empty_spans(spans: Seq<SpanV>) -> bool {
    forall|k: int| 0 <= k < spans.len() ==> (#[trigger] spans[k]).0.len() > 0
}

proof fn lemma_spans_text_push(spans: Seq<SpanV>, s: SpanV)
    ensures
        spans_text(spans.push(s)) == spans_text(spans) + s.0,
{
    assert(spans.push(s).drop_last() =~= spans);
}

proof fn lemma_flush_text(spans: Seq<SpanV>, cur: Seq<char>, style: SpanStyle)
    ensures
        spans_text(flush(spans, cur, style)) == spans_text(spans) + cur,
        no_empty_spans(spans) ==> no_empty_spans(flush(spans, cur, style)),
{
    if cur.len() == 0 {
        assert(spans_text(spans) + cur =~= spans_text(spans));
    } else {
        lemma_spans_text_push(spans, (cur, style));
    }
}

proof fn lemma_inline_from_text(
    t: Seq<char>,
    i: int,
    spans: Seq<SpanV>,
    cur: Seq<char>,
    bold: bool,
    italic: bool,
    code: bool,
)
    requires
        0 <= i,
    ensures
        spans_text(inline_from(t, i, spans, cur, bold, italic, code)) == spans_text(spans) + cur
            + visible_from(t, i, code),
        no_empty_spans(spans) ==> no_empty_spans(inline_from(t, i, spans, cur, bold, italic, code)),
    decreases t.len() - i,
{
    let st = inline_style(code, bold, italic);
    lemma_flush_text(spans, cur, st);
    if i >= t.len() {
        assert(spans_text(spans) + cur + seq![] =~= spans_text(spans) + cur);
    } else if t[i] == '`' {
        lemma_inline_from_text(t, i + 1, flush(spans, cur, st), seq![], bold, italic, !code);
        assert(spans_text(flush(spans, cur, st)) + Seq::<char>::empty() =~= spans_text(flush(spans, cur, st)));
    } else if !code && t[i] == '*' {
        if i + 1 < t.len() && t[i + 1] == '*' {
            lemma_inline_from_text(t, i + 2, flush(spans, cur, st), seq![], !bold, italic, code);
            assert(spans_text(flush(spans, cur, st)) + Seq::<char>::empty() =~= spans_text(flush(spans, cur, st)));
            assert(visible_from(t, i, code) == visible_from(t, i + 1, code));
            assert(visible_from(t, i + 1, code) == visible_from(t, i + 2, code));
        } else {
            lemma_inline_from_text(t, i + 1, flush(spans, cur, st), seq![], bold, !italic, code);
            assert(spans_text(flush(spans, cur, st)) + Seq::<char>::empty() =~= spans_text(flush(spans, cur, st)));
        }
    } else {
        lemma_inline_from_text(t, i + 1, spans, cur.push(t[i]), bold, italic, code);
        assert(cur.push(t[i]) =~= cur + seq![t[i]]);
        assert(spans_text(spans) + cur.push(t[i]) + visible_from(t, i + 1, code) =~= spans_text(spans)
            + cur + (seq![t[i]] + visible_from(t, i + 1, code)));
    }
}

/// Highlighting inline markdown loses no visible character: read one after
/// the other, the spans give back the text without its backquotes and
/// without the asterisks that stand outside code, and no span is empty.
pub proof fn law_inline_markdown_keeps_text(t: Seq<char>)
    ensures
        spans_text(inline_spans(t)) == visible_text(t),
        no_empty_spans(inline_spans(t)),
{
    lemma_inline_from_text(t, 0, seq![], seq![], false, false, false);
    assert(spans_text(Seq::<SpanV>::empty()) + Seq::<char>::empty() + visible_text(t) =~= visible_text(t));
}

/// Whether `s` holds no emphasis or code marker (`*` or `` ` ``).
pub open spec fn marker_free(s: Seq<char>) -> bool {
    forall|k: int| 0 <= k < s.len() ==> s[k] != '*' && s[k] != '`'
}

/// A span of `s` in the style `st`, or none when `s` is empty.
pub open spec fn span_if_any(s: Seq<char>, st: SpanStyle) -> Seq<SpanV> {
    if s.len() == 0 {
        seq![]
    } else {
        seq![(s, st)]
    }
}

/// Text without markers is added to the pending text as it is.
proof fn lemma_inline_plain_run(
    t: Seq<char>,
    i: int,
    j: int,
    spans: Seq<SpanV>,
    cur: Seq<char>,
    bold: bool,
    italic: bool,
    code: bool,
)
    requires
        0 <= i <= j <= t.len(),
        forall|k: int| i <= k < j ==> t[k] != '*' && t[k] != '`',
    ensures
        inline_from(t, i, spans, cur, bold, italic, code) == inline_from(
            t,
            j,
            spans,
            cur + t.subrange(i, j),
            bold,
            italic,
            code,
        ),
    decreases j - i,
{
    if i < j {
        lemma_inline_plain_run(t, i + 1, j, spans, cur.push(t[i]), bold, italic, code);
        assert(cur.push(t[i]) + t.subrange(i + 1, j) =~= cur + t.subrange(i, j));
    } else {
        assert(cur + t.subrange(i, i) =~= cur);
    }
}

/// `marker_free` text placed at `at` in `s` leaves no marker there.
proof fn lemma_free_at(s: Seq<char>, x: Seq<char>, at: int)
    requires
        marker_free(x),
        0 <= at,
        at + x.len() <= s.len(),
        s.subrange(at, at + x.len()) == x,
    ensures
        forall|k: int| at <= k < at + x.len() ==> s[k] != '*' && s[k] != '`',
{
    assert forall|k: int| at <= k < at + x.len() implies s[k] != '*' && s[k] != '`' by {
        assert(s[k] == s.subrange(at, at + x.len())[k - at]);
    }
}

/// Emphasis and code markers toggle: text without markers `p`, then `t`
/// between two single `*`, two `**` or two backquotes, then `u`, gives the
/// span of `p` plain, the span of `t` in italics, in bold or as code, and the
/// span of `u` plain again: the closing marker gives back the style in force
/// before the opening one.
pub proof fn law_inline_markers_toggle(p: Seq<char>, t: Seq<char>, u: Seq<char>)
    requires
        marker_free(p),
        marker_free(t),
        marker_free(u),
    ensures
        t.len() > 0 ==> inline_spans(p + seq!['*'] + t + seq!['*'] + u) == span_if_any(p, plain_style())
            + seq![(t, SpanStyle { fg: None, bold: false, italic: true, dim: false })] + span_if_any(
            u,
            plain_style(),
        ),
        inline_spans(p + seq!['*', '*'] + t + seq!['*', '*'] + u) == span_if_any(p, plain_style())
            + span_if_any(t, SpanStyle { fg: None, bold: true, italic: false, dim: false }) + span_if_any(
            u,
            plain_style(),
        ),
        inline_spans(p + seq!['`'] + t + seq!['`'] + u) == span_if_any(p, plain_style()) + span_if_any(
            t,
            fg_style(Color::Primary),
        ) + span_if_any(u, plain_style()),
{
    let e = Seq::<SpanV>::empty();
    let z = Seq::<char>::empty();
    let np = p.len() as int;
    let nt = t.len() as int;
    let nu = u.len() as int;
    let plain = plain_style();
    assert(inline_style(false, false, false) == plain);
    assert(z + p =~= p);
    assert(z + t =~= t);
    assert(z + u =~= u);
    assert(flush(e, p, plain) =~= span_if_any(p, plain));
    // a single `*` on each side
    if nt > 0 {
        let s = p + seq!['*'] + t + seq!['*'] + u;
        let it = SpanStyle { fg: None, bold: false, italic: true, dim: false };
        assert(s.subrange(0, np) =~= p);
        assert(s.subrange(np + 1, np + 1 + nt) =~= t);
        assert(s.subrange(np + nt + 2, s.len() as int) =~= u);
        lemma_free_at(s, p, 0);
        lemma_free_at(s, t, np + 1);
        lemma_free_at(s, u, np + nt + 2);
        lemma_inline_plain_run(s, 0, np, e, z, false, false, false);
        assert(s[np] == '*' && s[np + 1] == t[0]);
        let f1 = flush(e, p, plain);
        lemma_inline_plain_run(s, np + 1, np + 1 + nt, f1, z, false, true, false);
        assert(s[np + 1 + nt] == '*');
        assert(np + nt + 2 < s.len() ==> s[np + nt + 2] == u[0]);
        let f2 = flush(f1, t, it);
        assert(inline_style(false, false, true) == it);
        lemma_inline_plain_run(s, np + nt + 2, s.len() as int, f2, z, false, false, false);
        assert(f2 =~= span_if_any(p, plain) + seq![(t, it)]);
        assert(flush(f2, u, plain) =~= span_if_any(p, plain) + seq![(t, it)] + span_if_any(u, plain));
    }
    // `**` on each side
    {
        let s = p + seq!['*', '*'] + t + seq!['*', '*'] + u;
        let bd = SpanStyle { fg: None, bold: true, italic: false, dim: false };
        assert(s.subrange(0, np) =~= p);
        assert(s.subrange(np + 2, np + 2 + nt) =~= t);
        assert(s.subrange(np + nt + 4, s.len() as int) =~= u);
        lemma_free_at(s, p, 0);
        lemma_free_at(s, t, np + 2);
        lemma_free_at(s, u, np + nt + 4);
        lemma_inline_plain_run(s, 0, np, e, z, false, false, false);
        assert(s[np] == '*' && s[np + 1] == '*');
        let f1 = flush(e, p, plain);
        lemma_inline_plain_run(s, np + 2, np + 2 + nt, f1, z, true, false, false);
        assert(s[np + 2 + nt] == '*' && s[np + 3 + nt] == '*');
        let f2 = flush(f1, t, bd);
        assert(inline_style(false, true, false) == bd);
        lemma_inline_plain_run(s, np + nt + 4, s.len() as int, f2, z, false, false, false);
        assert(f2 =~= span_if_any(p, plain) + span_if_any(t, bd));
        assert(flush(f2, u, plain) =~= span_if_any(p, plain) + span_if_any(t, bd) + span_if_any(u, plain));
    }
    // a backquote on each side
    {
        let s = p + seq!['`'] + t + seq!['`'] + u;
        let cd = fg_style(Color::Primary);
        assert(s.subrange(0, np) =~= p);
        assert(s.subrange(np + 1, np + 1 + nt) =~= t);
        assert(s.subrange(np + nt + 2, s.len() as int) =~= u);
        lemma_free_at(s, p, 0);
        lemma_free_at(s, t, np + 1);
        lemma_free_at(s, u, np + nt + 2);
        lemma_inline_plain_run(s, 0, np, e, z, false, false, false);
        assert(s[np] == '`');
        let f1 = flush(e, p, plain);
        lemma_inline_plain_run(s, np + 1, np + 1 + nt, f1, z, false, false, true);
        assert(s[np + 1 + nt] == '`');
        let f2 = flush(f1, t, cd);
        assert(inline_style(true, false, false) == cd);
        lemma_inline_plain_run(s, np + nt + 2, s.len() as int, f2, z, false, false, false);
        assert(f2 =~= span_if_any(p, plain) + span_if_any(t, cd));
        assert(flush(f2, u, plain) =~= span_if_any(p, plain) + span_if_any(t, cd) + span_if_any(u, plain));
    }
}

/// The exec form of `inline_style`.
fn inline_style_of(code: bool, bold: bool, italic: bool) -> (s: SpanStyle)
    ensures
        s == inline_style(code, bold, italic),
{
    if code {
        SpanStyle::fg(Color::Primary)
    } else {
        SpanStyle { fg: None, bold, italic, dim: false }
    }
}

/// Closes the pending text into a span of `spans` when it is not empty.
fn flush_into(spans: &mut Vec<Span>, cur: String, style: SpanStyle)
    ensures
        spans_view(final(spans)@) == flush(spans_view(old(spans)@), cur@, style),
{
    if !cur.as_str().is_empty() {
        push_span(spans, Span::styled(cur, style));
    }
}

/// The spans of the inline markdown `cs[from..]`.
fn inline_spans_at(cs: &Vec<char>, from: usize) -> (spans: Vec<Span>)
    requires
        from <= cs@.len(),
    ensures
        spans_view(spans@) == inline_spans(cs@.skip(from as int)),
{
    let ghost t = cs@.skip(from as int);
    let mut spans: Vec<Span> = Vec::new();
    let mut current = String::new();
    let mut bold = false;
    let mut italic = false;
    let mut code = false;
    let mut i: usize = from;
    proof {
        assert(spans_view(spans@) =~= Seq::<SpanV>::empty());
    }
    while i < cs.len()
        invariant
            from <= i <= cs@.len(),
            t == cs@.skip(from as int),
            inline_from(t, i - from, spans_view(spans@), current@, bold, italic, code) == inline_spans(t),
        decreases cs.len() - i,
    {
        let c = cs[i];
        assert(t[i - from] == c);
        if c == '`' {
            flush_into(&mut spans, current, inline_style_of(code, bold, italic));
            current = String::new();
            code = !code;
            i = i + 1;
        } else if !code && c == '*' {
            if i + 1 < cs.len() && cs[i + 1] == '*' {
                assert(t[i + 1 - from] == cs@[i + 1]);
                flush_into(&mut spans, current, inline_style_of(code, bold, italic));
                current = String::new();
                bold = !bold;
                i = i + 2;
            } else {
                flush_into(&mut spans, current, inline_style_of(code, bold, italic));
                current = String::new();
                italic = !italic;
                i = i + 1;
            }
        } else {
            push_char(&mut current, c);
            i = i + 1;
        }
    }
    flush_into(&mut spans, current, inline_style_of(code, bold, italic));
    spans
}

/// Splits inline markdown into styled spans: text between backquotes is code
/// (primary colour), `**` toggles bold and a single `*` toggles italics
/// outside code; the markers themselves are not shown and no span is empty.
pub fn parse_inline_markdown(text: &str) -> (spans: Vec<Span>)
    ensures
        spans_view(spans@) == inline_spans(text@),
{
    let cs = chars_of(text);
    assert(cs@.skip(0) =~= cs@);
    inline_spans_at(&cs, 0)
}

/// Whether `s` opens with a heading marker: one to four `#` and a space.
pub open spec fn is_heading(s: Seq<char>) -> bool {
    ||| starts_with(s, seq!['#', ' '])
    ||| starts_with(s, seq!['#', '#', ' '])
    ||| starts_with(s, seq!['#', '#', '#', ' '])
    ||| starts_with(s, seq!['#', '#', '#', '#', ' '])
}

/// Whether `s` opens with a bullet marker: `- ` or `* `.
pub open spec fn is_bullet(s: Seq<char>) -> bool {
    starts_with(s, seq!['-', ' ']) || starts_with(s, seq!['*', ' '])
}

/// The spans of one line of an assistant reply. Inside a code block the line
/// is shown as it is, in the secondary colour. Otherwise its indentation is a
/// plain span of its own; a heading is then shown whole in bold primary; a
/// bullet shows its two-character marker in bold primary and the rest as
/// inline markdown; any other line is inline markdown.
pub open spec fn markdown_line(line: Seq<char>, in_code_block: bool) -> Seq<SpanV> {
    if in_code_block {
        seq![(line, fg_style(Color::Secondary))]
    } else {
        let k = leading_ws(line) as int;
        let indent = line.take(k);
        let trimmed = line.skip(k);
        if is_heading(trimmed) {
            seq![(indent, plain_style()), (trimmed, bold_style(Color::Primary))]
        } else if is_bullet(trimmed) {
            seq![(indent, plain_style()), (trimmed.take(2), bold_style(Color::Primary))]
                + inline_spans(trimmed.skip(2))
        } else {
            seq![(indent, plain_style())] + inline_spans(trimmed)
        }
    }
}

/// Highlights one line of an assistant reply (see `markdown_line`).
pub fn parse_markdown_line(line: &str, in_code_block: bool) -> (spans: Vec<Span>)
    ensures
        spans_view(spans@) == markdown_line(line@, in_code_block),
{
    let cs = chars_of(line);
    let mut spans: Vec<Span> = Vec::new();
    proof {
        assert(spans_view(spans@) =~= Seq::<SpanV>::empty());
    }
    if in_code_block {
        push_span(&mut spans, Span::styled(string_of(cs.as_slice(), 0, cs.len()), SpanStyle::fg(Color::Secondary)));
        assert(cs@.subrange(0, cs@.len() as int) =~= cs@);
        assert(spans_view(spans@) =~= markdown_line(line@, in_code_block));
        return spans;
    }
    let k = count_leading_ws(cs.as_slice());
    let ghost trimmed = cs@.skip(k as int);
    assert(cs@.subrange(0, k as int) =~= cs@.take(k as int));
    push_span(&mut spans, Span::raw(string_of(cs.as_slice(), 0, k)));
    let heading = has_prefix_at(cs.as_slice(), k, &['#', ' '])
        || has_prefix_at(cs.as_slice(), k, &['#', '#', ' '])
        || has_prefix_at(cs.as_slice(), k, &['#', '#', '#', ' '])
        || has_prefix_at(cs.as_slice(), k, &['#', '#', '#', '#', ' ']);
    if heading {
        assert(cs@.subrange(k as int, cs@.len() as int) =~= trimmed);
        push_span(&mut spans, Span::styled(string_of(cs.as_slice(), k, cs.len()), SpanStyle::bold(Color::Primary)));
        assert(spans_view(spans@) =~= markdown_line(line@, in_code_block));
        return spans;
    }
    let bullet = has_prefix_at(cs.as_slice(), k, &['-', ' ']) || has_prefix_at(cs.as_slice(), k, &['*', ' ']);
    if bullet {
        assert(trimmed.len() >= 2);
        assert(k + 2 <= cs.len());
        assert(cs@.subrange(k as int, k + 2) =~= trimmed.take(2));
        push_span(&mut spans, Span::styled(string_of(cs.as_slice(), k, k + 2), SpanStyle::bold(Color::Primary)));
        assert(cs@.skip(k + 2) =~= trimmed.skip(2));
        let rest = inline_spans_at(&cs, k + 2);
        append_spans(&mut spans, rest);
        assert(spans_view(spans@) =~= markdown_line(line@, in_code_block));
        return spans;
    }
    let rest = inline_spans_at(&cs, k);
    append_spans(&mut spans, rest);
    assert(spans_view(spans@) =~= markdown_line(line@, in_code_block));
    spans
}

} // verus!
