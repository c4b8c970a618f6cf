//! Styled text: the library's own model of what the terminal shows. A line is
//! a sequence of spans; a span is a piece of text with a style.

use vstd::prelude::*;

verus! {

/// The palette colours of the interface.
#[derive(Clone, Copy, Debug, PartialEq, Eq, Structural)]
pub enum Color {
    Primary,
    Secondary,
    Text,
    Dim,
    System,
    Success,
    Red,
}

/// The style of a span: an optional foreground colour and three modifiers.
#[derive(Clone, Copy, Debug, PartialEq, Eq, Structural)]
pub struct SpanStyle {
    pub fg: Option<Color>,
    pub bold: bool,
    pub italic: bool,
    pub dim: bool,
}

/// A piece of text drawn in one style.
#[derive(Clone, Debug)]
pub struct Span {
    pub text: String,
    pub style: SpanStyle,
}

/// What a span shows: its characters and its style.
pub type SpanV = (Seq<char>, SpanStyle);

impl View for Span {
    type V = SpanV;

    open spec fn view(&self) -> SpanV {
        (self.text@, self.style)
    }
}

/// One line of styled text.
#[derive(Clone, Debug)]
pub struct Line {
    pub spans: Vec<Span>,
}

/// The spans of a sequence, each taken by its view.
pub open spec fn spans_view(spans: Seq<Span>) -> Seq<SpanV> {
    spans.map_values(|s: Span| s@)
}

impl View for Line {
    type V = Seq<SpanV>;

    open spec fn view(&self) -> Seq<SpanV> {
        spans_view(self.spans@)
    }
}

/// The lines of a sequence, each taken by its view.
pub open spec fn lines_view(lines: Seq<Line>) -> Seq<Seq<SpanV>> {
    lines.map_values(|l: Line| l@)
}

/// The style with no colour and no modifier.
pub open spec fn plain_style() -> SpanStyle {
    SpanStyle { fg: None, bold: false, italic: false, dim: false }
}

/// A colour with no modifier.
pub open spec fn fg_style(c: Color) -> SpanStyle {
    SpanStyle { fg: Some(c), bold: false, italic: false, dim: false }
}

/// A colour in bold.
pub open spec fn bold_style(c: Color) -> SpanStyle {
    SpanStyle { fg: Some(c), bold: true, italic: false, dim: false }
}

/// A colour in italics.
pub open spec fn italic_style(c: Color) -> SpanStyle {
    SpanStyle { fg: Some(c), bold: false, italic: true, dim: false }
}

/// A colour, dimmed.
pub open spec fn dim_style(c: Color) -> SpanStyle {
    SpanStyle { fg: Some(c), bold: false, italic: false, dim: true }
}

impl SpanStyle {
    /// The plain style.
    pub fn plain() -> (s: SpanStyle)
        ensures
            s == plain_style(),
    {
        SpanStyle { fg: None, bold: false, italic: false, dim: false }
    }

    /// A colour.
    pub fn fg(c: Color) -> (s: SpanStyle)
        ensures
            s == fg_style(c),
    {
        SpanStyle { fg: Some(c), bold: false, italic: false, dim: false }
    }

    /// A colour, bold.
    pub fn bold(c: Color) -> (s: SpanStyle)
        ensures
            s == bold_style(c),
    {
        SpanStyle { fg: Some(c), bold: true, italic: false, dim: false }
    }

    /// A colour, italic.
    pub fn italic(c: Color) -> (s: SpanStyle)
        ensures
            s == italic_style(c),
    {
        SpanStyle { fg: Some(c), bold: false, italic: true, dim: false }
    }

    /// A colour, dimmed.
    pub fn dim(c: Color) -> (s: SpanStyle)
        ensures
            s == dim_style(c),
    {
        SpanStyle { fg: Some(c), bold: false, italic: false, dim: true }
    }
}

impl Span {
    /// A span of `text` in `style`.
    pub fn styled(text: String, style: SpanStyle) -> (s: Span)
        ensures
            s@ == (text@, style),
    {
        Span { text, style }
    }

    /// A span of `text` in the plain style.
    pub fn raw(text: String) -> (s: Span)
        ensures
            s@ == (text@, plain_style()),
    {
        Span { text, style: SpanStyle::plain() }
    }

    /// A copy of the span.
    pub fn duplicate(&self) -> (s: Span)
        ensures
            s@ == self@,
    {
        Span { text: self.text.clone(), style: self.style }
    }
}

/// Appends `s` to `v`, keeping the view in step.
pub fn push_span(v: &mut Vec<Span>, s: Span)
    ensures
        spans_view(final(v)@) == spans_view(old(v)@).push(s@),
{
    let ghost old_v = v@;
    v.push(s);
    proof {
        assert(spans_view(v@) =~= spans_view(old_v).push(s@));
    }
}

/// Appends all of `w` to `v`, keeping the view in step.
pub fn append_spans(v: &mut Vec<Span>, w: Vec<Span>)
    ensures
        spans_view(final(v)@) == spans_view(old(v)@) + spans_view(w@),
{
    let ghost old_v = v@;
    let ghost old_w = w@;
    let mut w = w;
    v.append(&mut w);
    proof {
        assert(spans_view(v@) =~= spans_view(old_v) + spans_view(old_w));
    }
}

/// Appends `l` to `v`, keeping the view in step.
pub fn push_line(v: &mut Vec<Line>, l: Line)
    ensures
        lines_view(final(v)@) == lines_view(old(v)@).push(l@),
{
    let ghost old_v = v@;
    v.push(l);
    proof {
        assert(lines_view(v@) =~= lines_view(old_v).push(l@));
    }
}

/// A line of the given spans.
pub fn line_of(spans: Vec<Span>) -> (l: Line)
    ensures
        l@ == spans_view(spans@),
{
    Line { spans }
}

/// A line of one span.
pub fn line1(s: Span) -> (l: Line)
    ensures
        l@ == seq![s@],
{
    let mut v: Vec<Span> = Vec::new();
    push_span(&mut v, s);
    proof {
        assert(spans_view(Seq::<Span>::empty()) =~= Seq::<SpanV>::empty());
        assert(seq![s@] =~= Seq::<SpanV>::empty().push(s@));
    }
    Line { spans: v }
}

/// A line of two spans.
pub fn line2(a: Span, b: Span) -> (l: Line)
    ensures
        l@ == seq![a@, b@],
{
    let mut v: Vec<Span> = Vec::new();
    push_span(&mut v, a);
    push_span(&mut v, b);
    proof {
        assert(spans_view(Seq::<Span>::empty()) =~= Seq::<SpanV>::empty());
        assert(seq![a@, b@] =~= Seq::<SpanV>::empty().push(a@).push(b@));
    }
    Line { spans: v }
}

/// A line of three spans.
pub fn line3(a: Span, b: Span, c: Span) -> (l: Line)
    ensures
        l@ == seq![a@, b@, c@],
{
    let mut v: Vec<Span> = Vec::new();
    push_span(&mut v, a);
    push_span(&mut v, b);
    push_span(&mut v, c);
    proof {
        assert(spans_view(Seq::<Span>::empty()) =~= Seq::<SpanV>::empty());
        assert(seq![a@, b@, c@] =~= Seq::<SpanV>::empty().push(a@).push(b@).push(c@));
    }
    Line { spans: v }
}

/// The empty line (`Line::from("")`), which holds one empty span.
pub fn blank_line() -> (l: Line)
    ensures
        l@ == seq![(Seq::<char>::empty(), plain_style())],
{
    line1(Span::raw(String::new()))
}

} // verus!
