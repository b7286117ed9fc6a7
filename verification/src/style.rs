//! The rendered buffer: lines of styled spans, as plain values.

use vstd::prelude::*;

verus! {

/// A colour of the display.
#[derive(Clone, Copy, Debug, PartialEq, Eq, Structural)]
pub enum Color {
    Black,
    Rgb(u8, u8, u8),
}

/// How a span or a line is drawn. A colour that is `None` is left as the
/// terminal has it.
#[derive(Clone, Copy, Debug, PartialEq, Eq, Structural)]
pub struct Style {
    pub fg: Option<Color>,
    pub bg: Option<Color>,
    pub bold: bool,
    pub italic: bool,
    pub underlined: bool,
    pub crossed_out: bool,
}

impl Style {
    /// The style that sets nothing.
    pub open spec fn plain_spec() -> Style {
        Style {
            fg: None,
            bg: None,
            bold: false,
            italic: false,
            underlined: false,
            crossed_out: false,
        }
    }

    /// The style that sets nothing.
    pub fn plain() -> (style: Style)
        ensures
            style == Style::plain_spec(),
    {
        Style {
            fg: None,
            bg: None,
            bold: false,
            italic: false,
            underlined: false,
            crossed_out: false,
        }
    }

    /// The style that sets the foreground colour only.
    pub open spec fn fg_spec(color: Color) -> Style {
        Style { fg: Some(color), ..Style::plain_spec() }
    }

    /// The style that sets the foreground colour only.
    pub fn with_fg(color: Color) -> (style: Style)
        ensures
            style == Style::fg_spec(color),
    {
        Style {
            fg: Some(color),
            bg: None,
            bold: false,
            italic: false,
            underlined: false,
            crossed_out: false,
        }
    }
}

/// A run of text of one style.
#[derive(Debug)]
pub struct Span {
    pub text: String,
    pub style: Style,
}

/// Mathematical model of a [`Span`].
pub ghost struct SpanView {
    pub text: Seq<char>,
    pub style: Style,
}

impl DeepView for Span {
    type V = SpanView;

    open spec fn deep_view(&self) -> SpanView {
        SpanView { text: self.text@, style: self.style }
    }
}

impl View for Span {
    type V = SpanView;

    open spec fn view(&self) -> SpanView {
        self.deep_view()
    }
}

impl Clone for Span {
    fn clone(&self) -> (r: Self)
        ensures
            r == *self,
    {
        Span { text: self.text.clone(), style: self.style }
    }
}

/// One line of the rendered buffer.
#[derive(Debug)]
pub struct Line {
    pub spans: Vec<Span>,
    /// The style of the line as a whole; the spans' own styles go on top.
    pub style: Style,
}

/// Mathematical model of a [`Line`].
pub ghost struct LineView {
    pub spans: Seq<SpanView>,
    pub style: Style,
}

impl DeepView for Line {
    type V = LineView;

    open spec fn deep_view(&self) -> LineView {
        LineView { spans: self.spans.deep_view(), style: self.style }
    }
}

impl View for Line {
    type V = LineView;

    open spec fn view(&self) -> LineView {
        self.deep_view()
    }
}

impl Clone for Line {
    fn clone(&self) -> (r: Self)
        ensures
            r@ == self@,
    {
        let spans = self.spans.clone();
        assert(spans@ =~= self.spans@);
        assert(spans.deep_view() =~= self.spans.deep_view());
        Line { spans, style: self.style }
    }
}

impl LineView {
    /// The line without text.
    pub open spec fn blank() -> LineView {
        LineView { spans: Seq::empty(), style: Style::plain_spec() }
    }

    /// The line that holds `text` as one span, styled as a whole.
    pub open spec fn styled(text: Seq<char>, style: Style) -> LineView {
        LineView { spans: seq![SpanView { text, style: Style::plain_spec() }], style }
    }

    /// The text of the line: the texts of its spans, one after the other.
    pub open spec fn text(self) -> Seq<char> {
        texts_of(self.spans)
    }
}

/// The texts of `spans`, one after the other.
pub open spec fn texts_of(spans: Seq<SpanView>) -> Seq<char>
    decreases spans.len(),
{
    if spans.len() == 0 {
        Seq::empty()
    } else {
        texts_of(spans.drop_last()) + spans.last().text
    }
}

impl Line {
    /// The line without text.
    pub fn blank() -> (line: Line)
        ensures
            line@ == LineView::blank(),
    {
        let line = Line { spans: Vec::new(), style: Style::plain() };
        assert(line.spans.deep_view() =~= Seq::empty());
        line
    }

    /// The line that holds `text` as one span, styled as a whole.
    pub fn styled(text: String, style: Style) -> (line: Line)
        ensures
            line@ == LineView::styled(text@, style),
    {
        let mut spans: Vec<Span> = Vec::new();
        spans.push(Span { text, style: Style::plain() });
        let line = Line { spans, style };
        assert(line.spans.deep_view() =~= seq![SpanView { text: text@,
            style: Style::plain_spec() }]);
        line
    }

    /// The line of the given spans, with no style of its own.
    pub fn from_spans(spans: Vec<Span>) -> (line: Line)
        ensures
            line@ == (LineView { spans: spans.deep_view(), style: Style::plain_spec() }),
    {
        Line { spans, style: Style::plain() }
    }

    /// The text of the line: the texts of its spans, one after the other.
    pub fn text(&self) -> (text: String)
        ensures
            text@ == self@.text(),
    {
        let mut text = String::new();
        let mut i: usize = 0;
        while i < self.spans.len()
            invariant
                i <= self.spans.len(),
                text@ == texts_of(self.spans.deep_view().take(i as int)),
            decreases self.spans.len() - i,
        {
            text.append(self.spans[i].text.as_str());
            proof {
                let upto = self.spans.deep_view().take(i + 1);
                assert(upto.drop_last() =~= self.spans.deep_view().take(i as int));
                assert(upto.last().text == self.spans[i as int].text@);
            }
            i = i + 1;
        }
        assert(self.spans.deep_view().take(self.spans.len() as int) =~= self.spans.deep_view());
        text
    }
}

} // verus!
