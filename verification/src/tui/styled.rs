//! Styled text: what the chat log shows, before any terminal is involved.

use vstd::prelude::*;

verus! {

/// The colours that the session uses.
#[derive(Clone, Copy, PartialEq, Eq, Debug)]
pub enum Color {
    White,
    Gray,
    DarkGray,
    Green,
    Yellow,
    Blue,
    Magenta,
    Cyan,
    Rgb(u8, u8, u8),
}

/// How a piece of text looks.
#[derive(Clone, Copy, PartialEq, Eq, Debug)]
pub struct Style {
    pub fg: Option<Color>,
    pub bg: Option<Color>,
    pub bold: bool,
    pub italic: bool,
    pub underlined: bool,
    pub crossed_out: bool,
}

impl Style {
    /// No colour and no emphasis.
    pub open spec fn plain() -> Style {
        Style {
            fg: None,
            bg: None,
            bold: false,
            italic: false,
            underlined: false,
            crossed_out: false,
        }
    }

    /// The style with `color` as its foreground.
    pub open spec fn colored(color: Color) -> Style {
        Style { fg: Some(color), ..Style::plain() }
    }

    /// No colour and no emphasis.
    pub fn new() -> (r: Style)
        ensures
            r == Style::plain(),
    {
        Style {
            fg: None,
            bg: None,
            bold: false,
            italic: false,
            underlined: false,
            crossed_out: false,
        }
    }

    /// The style with `color` as its foreground.
    pub fn fg(color: Color) -> (r: Style)
        ensures
            r == Style::colored(color),
    {
        Style {
            fg: Some(color),
            bg: None,
            bold: false,
            italic: false,
            underlined: false,
            crossed_out: false,
        }
    }
}

/// A piece of text in one style.
#[derive(Debug, PartialEq)]
pub struct Span {
    pub content: String,
    pub style: Style,
}

/// The value of a [`Span`].
pub ghost struct SpanView {
    pub content: Seq<char>,
    pub style: Style,
}

impl View for Span {
    type V = SpanView;

    open spec fn view(&self) -> SpanView {
        SpanView { content: self.content@, style: self.style }
    }
}

impl DeepView for Span {
    type V = SpanView;

    open spec fn deep_view(&self) -> SpanView {
        self@
    }
}

/// One line of styled text.
#[derive(Debug, PartialEq)]
pub struct Line {
    pub spans: Vec<Span>,
}

/// The value of a [`Line`].
pub ghost struct LineView {
    pub spans: Seq<SpanView>,
}

impl View for Line {
    type V = LineView;

    open spec fn view(&self) -> LineView {
        LineView { spans: self.spans.deep_view() }
    }
}

impl DeepView for Line {
    type V = LineView;

    open spec fn deep_view(&self) -> LineView {
        self@
    }
}

impl LineView {
    /// The number of characters in the line.
    pub open spec fn width(self) -> nat
        decreases self.spans.len(),
    {
        if self.spans.len() == 0 {
            0
        } else {
            (LineView { spans: self.spans.drop_last() }).width() + self.spans.last().content.len()
        }
    }
}

/// Text without colour or emphasis.
pub open spec fn raw(content: Seq<char>) -> SpanView {
    SpanView { content, style: Style::plain() }
}

/// Text in a style.
pub open spec fn styled(content: Seq<char>, style: Style) -> SpanView {
    SpanView { content, style }
}

/// Appends a span to a list of spans.
pub fn push_span(spans: &mut Vec<Span>, content: String, style: Style)
    ensures
        final(spans).deep_view() == old(spans).deep_view().push(styled(content@, style)),
{
    spans.push(Span { content, style });
    assert(spans.deep_view() =~= old(spans).deep_view().push(styled(content@, style)));
}

/// Appends a line to a list of lines.
pub fn push_line(lines: &mut Vec<Line>, line: Line)
    ensures
        final(lines).deep_view() == old(lines).deep_view().push(line@),
{
    lines.push(line);
    assert(lines.deep_view() =~= old(lines).deep_view().push(line@));
}

/// A list of no spans.
pub fn no_spans() -> (r: Vec<Span>)
    ensures
        r.deep_view() == Seq::<SpanView>::empty(),
{
    let r: Vec<Span> = Vec::new();
    assert(r.deep_view() =~= Seq::<SpanView>::empty());
    r
}

/// A list of no lines.
pub fn no_lines() -> (r: Vec<Line>)
    ensures
        r.deep_view() == Seq::<LineView>::empty(),
{
    let r: Vec<Line> = Vec::new();
    assert(r.deep_view() =~= Seq::<LineView>::empty());
    r
}

/// A copy of a line.
pub fn copy_line(line: &Line) -> (r: Line)
    ensures
        r@ == line@,
{
    let mut spans: Vec<Span> = Vec::new();
    let mut i: usize = 0;
    while i < line.spans.len()
        invariant
            i <= line.spans.len(),
            spans@.len() == i,
            forall|k: int| 0 <= k < i ==> (#[trigger] spans@[k])@ == line.spans@[k]@,
        decreases line.spans.len() - i,
    {
        spans.push(Span { content: line.spans[i].content.clone(), style: line.spans[i].style });
        i += 1;
    }
    assert(spans.deep_view() =~= line.spans.deep_view());
    Line { spans }
}

} // verus!
