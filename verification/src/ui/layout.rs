//! Styled text as the panels hand it to the terminal: colors, styles, spans
//! and lines, as plain values.

use vstd::prelude::*;
use unicode_width::UnicodeWidthStr;

verus! {

/// A color of the terminal surface.
#[derive(Debug, Clone, Copy, PartialEq, Eq, Structural)]
pub enum Color {
    Reset,
    Black,
    Red,
    Green,
    Yellow,
    Blue,
    Magenta,
    Cyan,
    Gray,
    DarkGray,
    LightRed,
    LightGreen,
    LightYellow,
    LightBlue,
    LightMagenta,
    LightCyan,
    White,
    Rgb(u8, u8, u8),
    Indexed(u8),
}

/// How a run of text is drawn: optional foreground and background, and
/// whether it is bold.
#[derive(Debug, Clone, Copy, PartialEq, Eq, Structural)]
pub struct Style {
    pub fg: Option<Color>,
    pub bg: Option<Color>,
    pub bold: bool,
}

impl Style {
    /// The style that changes nothing.
    pub open spec fn plain() -> Style {
        Style { fg: None, bg: None, bold: false }
    }

    /// The style with a foreground color only.
    pub open spec fn colored(fg: Color) -> Style {
        Style { fg: Some(fg), bg: None, bold: false }
    }

    /// The style with a foreground color, in bold.
    pub open spec fn bold_colored(fg: Color) -> Style {
        Style { fg: Some(fg), bg: None, bold: true }
    }

    /// The style with a foreground and a background color.
    pub open spec fn on(fg: Color, bg: Color) -> Style {
        Style { fg: Some(fg), bg: Some(bg), bold: false }
    }

    /// The style that changes nothing.
    #[verifier::when_used_as_spec(plain)]
    pub fn new() -> (r: Style)
        ensures
            r == Style::plain(),
    {
        Style { fg: None, bg: None, bold: false }
    }

    /// The style with a foreground color only.
    #[verifier::when_used_as_spec(colored)]
    pub fn fg(fg: Color) -> (r: Style)
        ensures
            r == Style::colored(fg),
    {
        Style { fg: Some(fg), bg: None, bold: false }
    }
}

/// A run of text in one style.
#[derive(Debug)]
pub struct Span {
    pub content: String,
    pub style: Style,
}

/// What a `Span` holds.
pub struct SpanView {
    pub content: Seq<char>,
    pub style: Style,
}

impl View for Span {
    type V = SpanView;

    open spec fn view(&self) -> SpanView {
        SpanView { content: self.content@, style: self.style }
    }
}

impl Span {
    /// A run of `content` in `style`.
    pub fn styled(content: String, style: Style) -> (r: Span)
        ensures
            r@ == (SpanView { content: content@, style }),
    {
        Span { content, style }
    }

    /// A run of the text `content` in `style`.
    pub fn of(content: &str, style: Style) -> (r: Span)
        ensures
            r@ == styled_text(content@, style),
    {
        Span { content: content.to_owned(), style }
    }

    /// A run of `content` in the style that changes nothing.
    pub fn raw(content: String) -> (r: Span)
        ensures
            r@ == (SpanView { content: content@, style: Style::plain() }),
    {
        Span { content, style: Style::new() }
    }
}

/// A run of `content` in `style`.
pub open spec fn styled_text(content: Seq<char>, style: Style) -> SpanView {
    SpanView { content, style }
}

/// A run of `content` in the style that changes nothing.
pub open spec fn plain_text(content: Seq<char>) -> SpanView {
    SpanView { content, style: Style::plain() }
}

/// The views of a list of spans, in order.
pub open spec fn span_views(spans: Seq<Span>) -> Seq<SpanView> {
    Seq::new(spans.len(), |i: int| spans[i]@)
}

/// One line of a panel: its spans from left to right.
#[derive(Debug)]
pub struct Line {
    pub spans: Vec<Span>,
}

impl View for Line {
    type V = Seq<SpanView>;

    open spec fn view(&self) -> Seq<SpanView> {
        span_views(self.spans@)
    }
}

/// The views of a list of lines, from top to bottom.
pub open spec fn line_views(lines: Seq<Line>) -> Seq<Seq<SpanView>> {
    Seq::new(lines.len(), |i: int| lines[i]@)
}

/// Appending a span to a list appends its view to the views.
pub proof fn lemma_span_views_push(spans: Seq<Span>, span: Span)
    ensures
        span_views(spans.push(span)) == span_views(spans).push(span@),
{
    assert(span_views(spans.push(span)) =~= span_views(spans).push(span@));
}

/// Appending a line to a list appends its view to the views.
pub proof fn lemma_line_views_push(lines: Seq<Line>, line: Line)
    ensures
        line_views(lines.push(line)) == line_views(lines).push(line@),
{
    assert(line_views(lines.push(line)) =~= line_views(lines).push(line@));
}

/// The number of terminal columns that a text takes, as the Unicode width
/// tables give it.
pub uninterp spec fn display_width(text: Seq<char>) -> nat;

/// Calls `UnicodeWidthStr::width`: the displayed width of the text in
/// columns, a function of the text alone.
#[verifier::external_body]
pub(crate) fn str_width(text: &str) -> (r: usize)
    ensures
        r == display_width(text@),
{
    text.width()
}

} // verus!
