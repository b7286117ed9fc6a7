//! The render engine: lowers the blocks of a document into a flat buffer of
//! styled lines, and finds the buffer line of every heading.
//!
//! [`render_spec`] says what the buffer of a block sequence is. It depends
//! on the blocks, the theme and, where a highlighter is used, on the token
//! runs that it returned; on nothing else.

use crate::highlight::{is_highlighting_of, SyntaxHighlighter, Token, TokenView};
use crate::laws::{lemma_render_keeps_plain_shape, line_texts};
use crate::markdown::{
    Block, BlockView, Document, Heading, HeadingView, Link, ListItem, ListItemView, SpanStyleView,
    StyledSpan, StyledSpanView,
};
use crate::style::{Color, Line, LineView, Span, SpanView, Style};
use crate::text::{decimal, decimal_of, lines_of, split_lines, str_concat};
use crate::theme::Theme;
use vstd::prelude::*;

verus! {

/// The token runs that a highlighter returned for each block of a sequence,
/// or `None` where no highlighter is used. Only the entries of code blocks
/// are read.
pub type Highlighting = Option<Seq<Seq<Seq<TokenView>>>>;

/// The style of a span of a heading, a paragraph or a list item. The colour
/// is the base colour, or the theme's text colour without one; bold text
/// takes the theme's strong colour, inline code the code colour, and a link
/// the link colour, the later of these winning over the earlier.
pub open spec fn span_style(style: SpanStyleView, theme: Theme, base: Option<Color>) -> Style {
    Style {
        fg: Some(
            if style.link_url is Some {
                theme.link
            } else if style.code {
                theme.code_inline
            } else if style.bold {
                theme.strong
            } else {
                match base {
                    Some(color) => color,
                    None => theme.text,
                }
            },
        ),
        bg: None,
        bold: style.bold,
        italic: style.italic,
        underlined: style.link_url is Some,
        crossed_out: style.strikethrough,
    }
}

/// A span of a heading, a paragraph or a list item, rendered.
pub open spec fn rendered_span(span: StyledSpanView, theme: Theme,
    base: Option<Color>) -> SpanView {
    SpanView { text: span.text, style: span_style(span.style, theme, base) }
}

/// The spans of a heading, a paragraph or a list item, rendered.
pub open spec fn rendered_spans(
    spans: Seq<StyledSpanView>,
    theme: Theme,
    base: Option<Color>,
) -> Seq<SpanView> {
    Seq::new(spans.len(), |i: int| rendered_span(spans[i], theme, base))
}

/// The colour of a heading of the given level.
pub open spec fn heading_color(level: u8, theme: Theme) -> Color {
    if level == 1 {
        theme.heading_1
    } else if level == 2 {
        theme.heading_2
    } else if level == 3 {
        theme.heading_3
    } else {
        theme.heading_other
    }
}

/// The marker before a heading: one `#` for each level, and a space.
pub open spec fn heading_marker(level: u8) -> Seq<char> {
    Seq::new(level as nat, |i: int| '#').push(' ')
}

/// The line of a heading.
pub open spec fn heading_line(level: u8, spans: Seq<StyledSpanView>, theme: Theme) -> LineView {
    let color = heading_color(level, theme);
    LineView {
        spans: seq![
            SpanView {
                text: heading_marker(level),
                style: Style { bold: true, ..Style::fg_spec(color) },
            },
        ] + rendered_spans(spans, theme, Some(color)),
        style: Style::plain_spec(),
    }
}

/// The line of a paragraph.
pub open spec fn paragraph_line(spans: Seq<StyledSpanView>, theme: Theme) -> LineView {
    LineView { spans: rendered_spans(spans, theme, None), style: Style::plain_spec() }
}

/// The line that opens a code block: the fence and the language, if any.
pub open spec fn fence_open_line(language: Option<Seq<char>>, theme: Theme) -> LineView {
    LineView::styled(
        "```"@ + match language {
            Some(name) => name,
            None => Seq::empty(),
        },
        Style::fg_spec(theme.text_muted),
    )
}

/// The line that closes a code block.
pub open spec fn fence_close_line(theme: Theme) -> LineView {
    LineView::styled("```"@, Style::fg_spec(theme.text_muted))
}

/// The style of a line of code that is not highlighted.
pub open spec fn plain_code_style(theme: Theme) -> Style {
    Style { bg: Some(theme.code_block_bg), ..Style::fg_spec(theme.code_inline) }
}

/// A line of code that is not highlighted.
pub open spec fn plain_code_line(line: Seq<char>, theme: Theme) -> LineView {
    LineView::styled("  "@ + line, plain_code_style(theme))
}

/// A token of highlighted code, rendered on the theme's code background.
pub open spec fn token_span(token: TokenView, theme: Theme) -> SpanView {
    SpanView {
        text: token.text,
        style: Style {
            fg: Some(token.style.foreground),
            bg: Some(theme.code_block_bg),
            bold: token.style.bold,
            italic: token.style.italic,
            underlined: token.style.underline,
            crossed_out: false,
        },
    }
}

/// The indent before a line of highlighted code.
pub open spec fn code_indent_span(theme: Theme) -> SpanView {
    SpanView { text: "  "@, style: Style { bg: Some(theme.code_block_bg), ..Style::plain_spec() } }
}

/// A line of highlighted code.
pub open spec fn highlighted_code_line(run: Seq<TokenView>, theme: Theme) -> LineView {
    LineView {
        spans: seq![code_indent_span(theme)] + Seq::new(
            run.len(),
            |i: int| token_span(run[i], theme),
        ),
        style: Style::plain_spec(),
    }
}

/// The lines of the content of a code block: one for each token run where
/// the code was highlighted, else one for each line of the code.
pub open spec fn code_lines(code: Seq<char>, theme: Theme,
    runs: Option<Seq<Seq<TokenView>>>) -> Seq<
    LineView,
> {
    match runs {
        Some(runs) => Seq::new(runs.len(), |i: int| highlighted_code_line(runs[i], theme)),
        None => Seq::new(
            lines_of(code).len(),
            |i: int| plain_code_line(lines_of(code)[i], theme),
        ),
    }
}

/// The number of the item at `index` of an ordered list.
pub open spec fn item_number(start: Option<u64>, index: int) -> int {
    match start {
        Some(first) => first + index,
        None => 1 + index,
    }
}

/// The marker before a list item: its number and a dot in an ordered list,
/// else a bullet.
pub open spec fn list_marker(ordered: bool, start: Option<u64>, index: int) -> Seq<char> {
    if ordered {
        decimal_of(item_number(start, index) as nat) + ". "@
    } else {
        "• "@
    }
}

/// The line of a list item.
pub open spec fn list_item_line(
    ordered: bool,
    start: Option<u64>,
    index: int,
    item: ListItemView,
    theme: Theme,
) -> LineView {
    LineView {
        spans: seq![
            SpanView {
                text: list_marker(ordered, start, index),
                style: Style::fg_spec(theme.list_marker),
            },
        ] + rendered_spans(item.spans, theme, None),
        style: Style::plain_spec(),
    }
}

/// The lines of the items of a list.
pub open spec fn list_lines(
    ordered: bool,
    start: Option<u64>,
    items: Seq<ListItemView>,
    theme: Theme,
) -> Seq<LineView> {
    Seq::new(items.len(), |i: int| list_item_line(ordered, start, i, items[i], theme))
}

/// The style of the text of a block quote, whatever the spans' own flags.
pub open spec fn quote_style(theme: Theme) -> Style {
    Style { italic: true, ..Style::fg_spec(theme.blockquote) }
}

/// The line of a block quote: a bar, then the spans.
pub open spec fn quote_line(spans: Seq<StyledSpanView>, theme: Theme) -> LineView {
    LineView {
        spans: seq![SpanView { text: "│ "@, style: Style::fg_spec(theme.blockquote) }] + Seq::new(
            spans.len(),
            |i: int| SpanView { text: spans[i].text, style: quote_style(theme) },
        ),
        style: Style::plain_spec(),
    }
}

/// The line of a horizontal rule.
pub open spec fn rule_line(theme: Theme) -> LineView {
    LineView::styled(
        "────────────────────────────────────────"@,
        Style::fg_spec(theme.horizontal_rule),
    )
}

/// The lines of a code block: the opening fence, the content, the closing
/// fence and a blank line.
pub open spec fn code_block_lines(
    language: Option<Seq<char>>,
    code: Seq<char>,
    theme: Theme,
    runs: Option<Seq<Seq<TokenView>>>,
) -> Seq<LineView> {
    seq![fence_open_line(language, theme)] + code_lines(code, theme, runs) + seq![
        fence_close_line(theme),
        LineView::blank(),
    ]
}

/// The lines of one block. `runs` is what the highlighter returned for the
/// block; it is read for a code block only.
pub open spec fn block_lines(block: BlockView, theme: Theme,
    runs: Option<Seq<Seq<TokenView>>>) -> Seq<
    LineView,
> {
    match block {
        BlockView::Heading { level, spans } => seq![
            heading_line(level, spans, theme),
            LineView::blank(),
        ],
        BlockView::Paragraph { spans } => seq![paragraph_line(spans, theme), LineView::blank()],
        BlockView::CodeBlock { language, code } => code_block_lines(language, code, theme, runs),
        BlockView::List { ordered, start, items } => list_lines(ordered, start, items, theme)
            + seq![LineView::blank()],
        BlockView::BlockQuote { spans } => seq![quote_line(spans, theme)],
        BlockView::HorizontalRule => seq![rule_line(theme), LineView::blank()],
    }
}

/// The highlighting of all blocks but the last.
pub open spec fn highlighting_before_last(tokens: Highlighting) -> Highlighting {
    match tokens {
        Some(tokens) => Some(tokens.drop_last()),
        None => None,
    }
}

/// The highlighting of the last block.
pub open spec fn highlighting_of_last(tokens: Highlighting) -> Option<Seq<Seq<TokenView>>> {
    match tokens {
        Some(tokens) => Some(tokens.last()),
        None => None,
    }
}

/// The buffer of a block sequence: the lines of its blocks, in order.
pub open spec fn render_spec(blocks: Seq<BlockView>, theme: Theme, tokens: Highlighting) -> Seq<
    LineView,
>
    decreases blocks.len(),
{
    if blocks.len() == 0 {
        Seq::empty()
    } else {
        render_spec(blocks.drop_last(), theme, highlighting_before_last(tokens)) + block_lines(
            blocks.last(),
            theme,
            highlighting_of_last(tokens),
        )
    }
}

/// For each heading block of a sequence, in order, the index of its line in
/// the buffer.
pub open spec fn heading_positions(blocks: Seq<BlockView>, theme: Theme,
    tokens: Highlighting) -> Seq<
    nat,
>
    decreases blocks.len(),
{
    if blocks.len() == 0 {
        Seq::empty()
    } else {
        let before = heading_positions(
            blocks.drop_last(),
            theme,
            highlighting_before_last(tokens),
        );
        if blocks.last() is Heading {
            before.push(
                render_spec(blocks.drop_last(), theme, highlighting_before_last(tokens)).len(),
            )
        } else {
            before
        }
    }
}

/// Whether `tokens` holds, for each code block of `blocks`, a highlighting
/// of its code.
pub open spec fn highlights(tokens: Seq<Seq<Seq<TokenView>>>, blocks: Seq<BlockView>) -> bool {
    &&& tokens.len() == blocks.len()
    &&& forall|i: int|
        0 <= i < blocks.len() ==> (#[trigger] blocks[i] matches BlockView::CodeBlock { code, .. }
            ==> is_highlighting_of(tokens[i], code))
}

/// The heading table after a render: the heading at `i` gets the position
/// at `i`; a heading without a position keeps its line.
pub open spec fn backfill(headings: Seq<HeadingView>, positions: Seq<nat>) -> Seq<HeadingView> {
    Seq::new(
        headings.len(),
        |i: int|
            if i < positions.len() {
                HeadingView { rendered_line: positions[i] as usize, ..headings[i] }
            } else {
                headings[i]
            },
    )
}

/// The number of heading blocks of a sequence.
pub open spec fn heading_count(blocks: Seq<BlockView>) -> nat
    decreases blocks.len(),
{
    if blocks.len() == 0 {
        0
    } else if blocks.last() is Heading {
        heading_count(blocks.drop_last()) + 1
    } else {
        heading_count(blocks.drop_last())
    }
}

fn push_line(buffer: &mut Vec<Line>, line: Line)
    ensures
        final(buffer).deep_view() == old(buffer).deep_view().push(line@),
{
    let ghost before = buffer.deep_view();
    buffer.push(line);
    assert(buffer.deep_view() =~= before.push(line@));
}

fn push_span(spans: &mut Vec<Span>, span: Span)
    ensures
        final(spans).deep_view() == old(spans).deep_view().push(span@),
{
    let ghost before = spans.deep_view();
    spans.push(span);
    assert(spans.deep_view() =~= before.push(span@));
}

/// Renders one span of a heading, a paragraph or a list item.
pub fn render_span(span: &StyledSpan, theme: &Theme, base: Option<Color>) -> (out: Span)
    ensures
        out@ == rendered_span(span@, *theme, base),
{
    let mut fg = match base {
        Some(color) => color,
        None => theme.text,
    };
    if span.style.bold {
        fg = theme.strong;
    }
    if span.style.code {
        fg = theme.code_inline;
    }
    let linked = span.style.link_url.is_some();
    if linked {
        fg = theme.link;
    }
    Span {
        text: span.text.clone(),
        style: Style {
            fg: Some(fg),
            bg: None,
            bold: span.style.bold,
            italic: span.style.italic,
            underlined: linked,
            crossed_out: span.style.strikethrough,
        },
    }
}

/// Appends the rendered form of `spans` to `out`.
fn render_spans(spans: &Vec<StyledSpan>, theme: &Theme, base: Option<Color>, out: &mut Vec<Span>)
    ensures
        final(out).deep_view() == old(out).deep_view() + rendered_spans(
            spans.deep_view(),
            *theme,
            base,
        ),
{
    let mut i: usize = 0;
    assert(out.deep_view() =~= old(out).deep_view() + rendered_spans(
        spans.deep_view(),
        *theme,
        base,
    ).take(0));
    while i < spans.len()
        invariant
            i <= spans.len(),
            out.deep_view() == old(out).deep_view() + rendered_spans(
                spans.deep_view(),
                *theme,
                base,
            ).take(i as int),
        decreases spans.len() - i,
    {
        let span = render_span(&spans[i], theme, base);
        let ghost all = rendered_spans(spans.deep_view(), *theme, base);
        assert(all[i as int] == span@);
        assert(all.take(i + 1) =~= all.take(i as int).push(span@));
        push_span(out, span);
        assert(out.deep_view() =~= old(out).deep_view() + all.take(i + 1));
        i = i + 1;
    }
    assert(rendered_spans(spans.deep_view(), *theme, base).take(spans.len() as int)
        =~= rendered_spans(spans.deep_view(), *theme, base));
}

fn heading_color_of(level: u8, theme: &Theme) -> (color: Color)
    ensures
        color == heading_color(level, *theme),
{
    if level == 1 {
        theme.heading_1
    } else if level == 2 {
        theme.heading_2
    } else if level == 3 {
        theme.heading_3
    } else {
        theme.heading_other
    }
}

fn heading_marker_of(level: u8) -> (marker: String)
    ensures
        marker@ == heading_marker(level),
{
    let mut marker = String::new();
    let mut i: u8 = 0;
    proof {
        reveal_strlit("#");
        reveal_strlit(" ");
    }
    while i < level
        invariant
            i <= level,
            marker@ == Seq::new(i as nat, |k: int| '#'),
            "#"@ == seq!['#'],
        decreases level - i,
    {
        marker.append("#");
        assert(marker@ =~= Seq::new((i + 1) as nat, |k: int| '#'));
        i = i + 1;
    }
    marker.append(" ");
    assert(marker@ =~= heading_marker(level));
    marker
}

fn render_heading(level: u8, spans: &Vec<StyledSpan>, theme: &Theme) -> (line: Line)
    ensures
        line@ == heading_line(level, spans.deep_view(), *theme),
{
    let color = heading_color_of(level, theme);
    let mut out: Vec<Span> = Vec::new();
    let marker = Span {
        text: heading_marker_of(level),
        style: Style {
            fg: Some(color),
            bg: None,
            bold: true,
            italic: false,
            underlined: false,
            crossed_out: false,
        },
    };
    out.push(marker);
    assert(out.deep_view() =~= seq![marker@]);
    render_spans(spans, theme, Some(color), &mut out);
    Line::from_spans(out)
}

fn render_paragraph(spans: &Vec<StyledSpan>, theme: &Theme) -> (line: Line)
    ensures
        line@ == paragraph_line(spans.deep_view(), *theme),
{
    let mut out: Vec<Span> = Vec::new();
    assert(out.deep_view() =~= Seq::empty());
    render_spans(spans, theme, None, &mut out);
    assert(out.deep_view() =~= rendered_spans(spans.deep_view(), *theme, None));
    Line::from_spans(out)
}

fn render_quote(spans: &Vec<StyledSpan>, theme: &Theme) -> (line: Line)
    ensures
        line@ == quote_line(spans.deep_view(), *theme),
{
    let mut out: Vec<Span> = Vec::new();
    let bar = Span { text: String::from_str("│ "), style: Style::with_fg(theme.blockquote) };
    out.push(bar);
    assert(out.deep_view() =~= seq![bar@]);
    let ghost body = Seq::new(
        spans.deep_view().len(),
        |i: int| SpanView { text: spans.deep_view()[i].text, style: quote_style(*theme) },
    );
    let mut i: usize = 0;
    assert(out.deep_view() =~= seq![bar@] + body.take(0));
    while i < spans.len()
        invariant
            i <= spans.len(),
            body == Seq::new(
                spans.deep_view().len(),
                |i: int| SpanView { text: spans.deep_view()[i].text, style: quote_style(*theme) },
            ),
            out.deep_view() == seq![bar@] + body.take(i as int),
        decreases spans.len() - i,
    {
        let span = Span {
            text: spans[i].text.clone(),
            style: Style {
                fg: Some(theme.blockquote),
                bg: None,
                bold: false,
                italic: true,
                underlined: false,
                crossed_out: false,
            },
        };
        assert(body[i as int] == span@);
        assert(body.take(i + 1) =~= body.take(i as int).push(span@));
        push_span(&mut out, span);
        assert(out.deep_view() =~= seq![bar@] + body.take(i + 1));
        i = i + 1;
    }
    assert(body.take(spans.len() as int) =~= body);
    Line::from_spans(out)
}

fn list_marker_of(ordered: bool, start: Option<u64>, index: usize) -> (marker: String)
    ensures
        marker@ == list_marker(ordered, start, index as int),
{
    if ordered {
        let first: u64 = match start {
            Some(first) => first,
            None => 1,
        };
        let number: u128 = first as u128 + index as u128;
        let mut marker = decimal(number);
        marker.append(". ");
        marker
    } else {
        String::from_str("• ")
    }
}

fn render_list_item(
    ordered: bool,
    start: Option<u64>,
    index: usize,
    item: &ListItem,
    theme: &Theme,
) -> (line: Line)
    ensures
        line@ == list_item_line(ordered, start, index as int, item@, *theme),
{
    let mut out: Vec<Span> = Vec::new();
    let marker = Span {
        text: list_marker_of(ordered, start, index),
        style: Style::with_fg(theme.list_marker),
    };
    out.push(marker);
    assert(out.deep_view() =~= seq![marker@]);
    render_spans(&item.spans, theme, None, &mut out);
    Line::from_spans(out)
}

/// Appends the lines of the items of a list to `buffer`.
fn render_list(
    ordered: bool,
    start: Option<u64>,
    items: &Vec<ListItem>,
    theme: &Theme,
    buffer: &mut Vec<Line>,
)
    ensures
        final(buffer).deep_view() == old(buffer).deep_view() + list_lines(
            ordered,
            start,
            items.deep_view(),
            *theme,
        ),
{
    let ghost all = list_lines(ordered, start, items.deep_view(), *theme);
    let mut i: usize = 0;
    assert(buffer.deep_view() =~= old(buffer).deep_view() + all.take(0));
    while i < items.len()
        invariant
            i <= items.len(),
            all == list_lines(ordered, start, items.deep_view(), *theme),
            buffer.deep_view() == old(buffer).deep_view() + all.take(i as int),
        decreases items.len() - i,
    {
        let line = render_list_item(ordered, start, i, &items[i], theme);
        assert(all[i as int] == line@);
        assert(all.take(i + 1) =~= all.take(i as int).push(line@));
        push_line(buffer, line);
        assert(buffer.deep_view() =~= old(buffer).deep_view() + all.take(i + 1));
        i = i + 1;
    }
    assert(all.take(items.len() as int) =~= all);
}

fn render_token(token: &Token, theme: &Theme) -> (span: Span)
    ensures
        span@ == token_span(token@, *theme),
{
    Span {
        text: token.text.clone(),
        style: Style {
            fg: Some(token.style.foreground),
            bg: Some(theme.code_block_bg),
            bold: token.style.bold,
            italic: token.style.italic,
            underlined: token.style.underline,
            crossed_out: false,
        },
    }
}

fn render_highlighted_line(run: &Vec<Token>, theme: &Theme) -> (line: Line)
    ensures
        line@ == highlighted_code_line(run.deep_view(), *theme),
{
    let mut out: Vec<Span> = Vec::new();
    let indent = Span {
        text: String::from_str("  "),
        style: Style {
            fg: None,
            bg: Some(theme.code_block_bg),
            bold: false,
            italic: false,
            underlined: false,
            crossed_out: false,
        },
    };
    out.push(indent);
    assert(out.deep_view() =~= seq![indent@]);
    let ghost body = Seq::new(
        run.deep_view().len(),
        |i: int| token_span(run.deep_view()[i], *theme),
    );
    let mut i: usize = 0;
    assert(out.deep_view() =~= seq![indent@] + body.take(0));
    while i < run.len()
        invariant
            i <= run.len(),
            body == Seq::new(run.deep_view().len(), |i: int| token_span(run.deep_view()[i],
                *theme)),
            out.deep_view() == seq![indent@] + body.take(i as int),
        decreases run.len() - i,
    {
        let span = render_token(&run[i], theme);
        assert(body[i as int] == span@);
        assert(body.take(i + 1) =~= body.take(i as int).push(span@));
        push_span(&mut out, span);
        assert(out.deep_view() =~= seq![indent@] + body.take(i + 1));
        i = i + 1;
    }
    assert(body.take(run.len() as int) =~= body);
    Line::from_spans(out)
}

/// Appends the lines of a code block to `buffer`: the opening fence with
/// the language, one line for each token run in `runs`, or for each line of
/// the code where there are no runs, the closing fence and a blank line.
pub fn render_code_block(
    language: &Option<String>,
    code: &str,
    theme: &Theme,
    runs: Option<&Vec<Vec<Token>>>,
    buffer: &mut Vec<Line>,
)
    ensures
        final(buffer).deep_view() == old(buffer).deep_view() + code_block_lines(
            language.deep_view(),
            code@,
            *theme,
            runs.deep_view(),
        ),
{
    let open = match language {
        Some(name) => str_concat("```", name.as_str()),
        None => String::from_str("```"),
    };
    assert(open@ =~= fence_open_line(language.deep_view(), *theme).spans[0].text);
    push_line(buffer, Line::styled(open, Style::with_fg(theme.text_muted)));
    let ghost start = buffer.deep_view();
    let ghost body = code_lines(code@, *theme, runs.deep_view());
    match runs {
        Some(runs) => {
            let mut i: usize = 0;
            assert(buffer.deep_view() =~= start + body.take(0));
            while i < runs.len()
                invariant
                    i <= runs.len(),
                    body == Seq::new(
                        runs.deep_view().len(),
                        |i: int| highlighted_code_line(runs.deep_view()[i], *theme),
                    ),
                    buffer.deep_view() == start + body.take(i as int),
                decreases runs.len() - i,
            {
                let line = render_highlighted_line(&runs[i], theme);
                assert(body[i as int] == line@);
                assert(body.take(i + 1) =~= body.take(i as int).push(line@));
                push_line(buffer, line);
                assert(buffer.deep_view() =~= start + body.take(i + 1));
                i = i + 1;
            }
            assert(body.take(runs.len() as int) =~= body);
        },
        None => {
            let lines = split_lines(code);
            let style = Style {
                fg: Some(theme.code_inline),
                bg: Some(theme.code_block_bg),
                bold: false,
                italic: false,
                underlined: false,
                crossed_out: false,
            };
            let mut i: usize = 0;
            assert(buffer.deep_view() =~= start + body.take(0));
            while i < lines.len()
                invariant
                    i <= lines.len(),
                    lines.deep_view() == lines_of(code@),
                    style == plain_code_style(*theme),
                    body == Seq::new(
                        lines_of(code@).len(),
                        |i: int| plain_code_line(lines_of(code@)[i], *theme),
                    ),
                    buffer.deep_view() == start + body.take(i as int),
                decreases lines.len() - i,
            {
                let line = Line::styled(str_concat("  ", lines[i].as_str()), style);
                assert(lines.deep_view()[i as int] == lines[i as int]@);
                assert(body[i as int] == line@);
                assert(body.take(i + 1) =~= body.take(i as int).push(line@));
                push_line(buffer, line);
                assert(buffer.deep_view() =~= start + body.take(i + 1));
                i = i + 1;
            }
            assert(body.take(lines.len() as int) =~= body);
        },
    }
    push_line(buffer, Line::styled(String::from_str("```"), Style::with_fg(theme.text_muted)));
    push_line(buffer, Line::blank());
    assert(buffer.deep_view() =~= old(buffer).deep_view() + code_block_lines(
        language.deep_view(),
        code@,
        *theme,
        runs.deep_view(),
    ));
}

/// Appends the lines of one block to `buffer`. `runs` is what the
/// highlighter returned for the block; it is read for a code block only.
pub fn render_block(
    block: &Block,
    theme: &Theme,
    runs: Option<&Vec<Vec<Token>>>,
    buffer: &mut Vec<Line>,
)
    ensures
        final(buffer).deep_view() == old(buffer).deep_view() + block_lines(
            block@,
            *theme,
            runs.deep_view(),
        ),
{
    let ghost before = buffer.deep_view();
    match block {
        Block::Heading { level, spans } => {
            let line = render_heading(*level, spans, theme);
            push_line(buffer, line);
            push_line(buffer, Line::blank());
            assert(buffer.deep_view() =~= before + seq![line@, LineView::blank()]);
        },
        Block::Paragraph { spans } => {
            let line = render_paragraph(spans, theme);
            push_line(buffer, line);
            push_line(buffer, Line::blank());
            assert(buffer.deep_view() =~= before + seq![line@, LineView::blank()]);
        },
        Block::CodeBlock { language, code } => {
            render_code_block(language, code.as_str(), theme, runs, buffer);
        },
        Block::List { ordered, start, items } => {
            render_list(*ordered, *start, items, theme, buffer);
            push_line(buffer, Line::blank());
            assert(buffer.deep_view() =~= before + (list_lines(
                *ordered,
                *start,
                items.deep_view(),
                *theme,
            ) + seq![LineView::blank()]));
        },
        Block::BlockQuote { spans } => {
            let line = render_quote(spans, theme);
            push_line(buffer, line);
            assert(buffer.deep_view() =~= before + seq![line@]);
        },
        Block::HorizontalRule => {
            let line = Line::styled(
                String::from_str("────────────────────────────────────────"),
                Style::with_fg(theme.horizontal_rule),
            );
            push_line(buffer, line);
            push_line(buffer, Line::blank());
            assert(buffer.deep_view() =~= before + seq![line@, LineView::blank()]);
        },
    }
}

/// What a render yields for the given highlighter: where there is none, the
/// buffer and the heading positions of the blocks without highlighting;
/// where there is one, those for some highlighting of the code blocks.
pub open spec fn is_render_of(
    buffer: Seq<LineView>,
    positions: Seq<nat>,
    blocks: Seq<BlockView>,
    theme: Theme,
    highlighted: bool,
) -> bool {
    if highlighted {
        exists|tokens: Seq<Seq<Seq<TokenView>>>|
            {
                &&& highlights(tokens, blocks)
                &&& buffer == #[trigger] render_spec(blocks, theme, Some(tokens))
                &&& positions == heading_positions(blocks, theme, Some(tokens))
            }
    } else {
        &&& buffer == render_spec(blocks, theme, None)
        &&& positions == heading_positions(blocks, theme, None)
    }
}

/// The positions of a sequence as indices of a buffer.
pub open spec fn as_positions(lines: Seq<usize>) -> Seq<nat> {
    Seq::new(lines.len(), |i: int| lines[i] as nat)
}

/// Renders a block sequence. Returns the buffer and, for each heading block
/// in order, the index of its line in the buffer.
///
/// With a highlighter, each code block is handed to it, and its content is
/// rendered from the token runs that come back; without one, the
/// highlighter is never asked and the content is rendered in one colour.
pub fn render_blocks(blocks: &Vec<Block>, theme: &Theme,
    highlighter: Option<&SyntaxHighlighter>) -> (out:
    (Vec<Line>, Vec<usize>))
    ensures
        is_render_of(
            out.0.deep_view(),
            as_positions(out.1@),
            blocks.deep_view(),
            *theme,
            highlighter is Some,
        ),
{
    let mut buffer: Vec<Line> = Vec::new();
    let mut positions: Vec<usize> = Vec::new();
    let ghost mut tokens: Seq<Seq<Seq<TokenView>>> = Seq::empty();
    let ghost mut used: Highlighting = if highlighter is Some {
        Some(tokens)
    } else {
        None
    };
    let mut i: usize = 0;
    assert(buffer.deep_view() =~= Seq::empty());
    assert(as_positions(positions@) =~= Seq::empty());
    assert(blocks.deep_view().take(0) =~= Seq::empty());
    while i < blocks.len()
        invariant
            i <= blocks.len(),
            used == if highlighter is Some {
                Some(tokens)
            } else {
                None::<Seq<Seq<Seq<TokenView>>>>
            },
            highlighter is Some ==> highlights(tokens, blocks.deep_view().take(i as int)),
            buffer.deep_view() == render_spec(blocks.deep_view().take(i as int), *theme, used),
            as_positions(positions@) == heading_positions(
                blocks.deep_view().take(i as int),
                *theme,
                used,
            ),
        decreases blocks.len() - i,
    {
        let ghost upto = blocks.deep_view().take(i + 1);
        let ghost old_tokens = tokens;
        let ghost old_used = used;
        let ghost old_positions = as_positions(positions@);
        assert(upto.drop_last() =~= blocks.deep_view().take(i as int));
        assert(upto.last() == blocks[i as int]@);
        if let Block::Heading { .. } = &blocks[i] {
            positions.push(buffer.len());
            assert(as_positions(positions@) =~= old_positions.push(buffer.deep_view().len()));
        }
        let runs: Option<Vec<Vec<Token>>> = match highlighter {
            Some(highlighter) => match &blocks[i] {
                Block::CodeBlock { language, code } => {
                    let language: Option<&str> = match language {
                        Some(name) => Some(name.as_str()),
                        None => None,
                    };
                    Some(highlighter.highlight(code.as_str(), language))
                },
                _ => Some(Vec::new()),
            },
            None => None,
        };
        render_block(&blocks[i], theme, runs.as_ref(), &mut buffer);
        proof {
            let these = match runs {
                Some(r) => r.deep_view(),
                None => Seq::empty(),
            };
            tokens = old_tokens.push(these);
            used = if highlighter is Some {
                Some(tokens)
            } else {
                None
            };
            assert(tokens.drop_last() =~= old_tokens);
            assert(highlighting_before_last(used) == old_used);
            assert(highlighting_of_last(used) == runs.deep_view());
            if highlighter is Some {
                assert forall|k: int| 0 <= k < upto.len()
                    implies (#[trigger] upto[k] matches BlockView::CodeBlock {
                    code,
                    ..
                } ==> is_highlighting_of(tokens[k], code)) by {
                    if k < i {
                        assert(upto[k] == blocks.deep_view().take(i as int)[k]);
                        assert(tokens[k] == old_tokens[k]);
                    } else {
                        assert(tokens[k] == these);
                    }
                }
            }
        }
        i = i + 1;
    }
    assert(blocks.deep_view().take(blocks.len() as int) =~= blocks.deep_view());
    (buffer, positions)
}

/// Law: the positions of the headings grow strictly from one heading to the
/// next, and each is the index of a line of the buffer.
pub proof fn lemma_heading_positions_increase(blocks: Seq<BlockView>, theme: Theme,
    tokens: Highlighting)
    ensures
        heading_positions(blocks, theme, tokens).len() == heading_count(blocks),
        forall|i: int, j: int|
            0 <= i < j < heading_positions(blocks, theme, tokens).len() ==> heading_positions(
                blocks,
                theme,
                tokens,
            )[i] < heading_positions(blocks, theme, tokens)[j],
        forall|i: int|
            0 <= i < heading_positions(blocks, theme, tokens).len() ==> heading_positions(
                blocks,
                theme,
                tokens,
            )[i] < render_spec(blocks, theme, tokens).len(),
    decreases blocks.len(),
{
    if blocks.len() > 0 {
        lemma_heading_positions_increase(
            blocks.drop_last(),
            theme,
            highlighting_before_last(tokens),
        );
    }
}

/// Law: a heading table that a render has filled in is left as it is by a
/// second render of the same blocks. Rendering reads nothing of what an
/// earlier render wrote.
pub proof fn lemma_render_again_changes_nothing(headings: Seq<HeadingView>, positions: Seq<nat>)
    ensures
        backfill(backfill(headings, positions), positions) == backfill(headings, positions),
{
    assert(backfill(backfill(headings, positions), positions) =~= backfill(headings, positions));
}

impl Document {
    /// Whether the heading table has one entry for each heading block.
    pub open spec fn headings_match_blocks(&self) -> bool {
        self.headings.len() == heading_count(self.blocks.deep_view())
    }

    /// Renders the document without highlighting. Returns the buffer, and
    /// sets the rendered line of each heading to the index of its line in the
    /// buffer. The buffer does not depend on an earlier render.
    pub fn render(&mut self, theme: &Theme) -> (buffer: Vec<Line>)
        ensures
            buffer.deep_view() == render_spec(old(self)@.blocks, *theme, None),
            final(self)@.blocks == old(self)@.blocks,
            final(self)@.links == old(self)@.links,
            final(self)@.headings == backfill(
                old(self)@.headings,
                heading_positions(old(self)@.blocks, *theme, None),
            ),
            old(self).headings_match_blocks() ==> forall|i: int, j: int|
                0 <= i < j < final(self).headings.len() ==> final(self).headings[i].rendered_line
                    < final(self).headings[j].rendered_line,
    {
        self.render_with_highlighting(theme, None)
    }

    /// Renders the document, with highlighted code blocks where a
    /// highlighter is given. Returns the buffer, and sets the rendered line of
    /// each heading to the index of its line in the buffer. The buffer does
    /// not depend on an earlier render.
    ///
    /// The highlighter decides the runs and the colours of the lines of code
    /// and nothing else: the number of lines, their texts and the lines of
    /// the headings are those of the render without highlighting.
    pub fn render_with_highlighting(
        &mut self,
        theme: &Theme,
        highlighter: Option<&SyntaxHighlighter>,
    ) -> (buffer: Vec<Line>)
        ensures
            final(self)@.blocks == old(self)@.blocks,
            final(self)@.links == old(self)@.links,
            final(self)@.headings == backfill(
                old(self)@.headings,
                heading_positions(old(self)@.blocks, *theme, None),
            ),
            buffer.len() == render_spec(old(self)@.blocks, *theme, None).len(),
            line_texts(buffer.deep_view()) == line_texts(
                render_spec(old(self)@.blocks, *theme, None),
            ),
            is_render_of(
                buffer.deep_view(),
                heading_positions(old(self)@.blocks, *theme, None),
                old(self)@.blocks,
                *theme,
                highlighter is Some,
            ),
            old(self).headings_match_blocks() ==> forall|i: int, j: int|
                0 <= i < j < final(self).headings.len() ==> final(self).headings[i].rendered_line
                    < final(self).headings[j].rendered_line,
    {
        let (buffer, positions) = render_blocks(&self.blocks, theme, highlighter);
        let ghost found = as_positions(positions@);
        let ghost before = self.headings.deep_view();
        let mut headings: Vec<Heading> = Vec::new();
        let mut i: usize = 0;
        assert(headings.deep_view() =~= backfill(before, found).take(0));
        while i < self.headings.len()
            invariant
                i <= self.headings.len(),
                before == self.headings.deep_view(),
                found == as_positions(positions@),
                headings.len() == i,
                headings.deep_view() == backfill(before, found).take(i as int),
                forall|k: int|
                    0 <= k < i && k < positions.len() ==> (#[trigger] headings[k]).rendered_line
                        == positions[k],
            decreases self.headings.len() - i,
        {
            let heading = &self.headings[i];
            let rendered_line = if i < positions.len() {
                positions[i]
            } else {
                heading.rendered_line
            };
            let updated = Heading {
                level: heading.level,
                text: heading.text.clone(),
                logical_line: heading.logical_line,
                rendered_line,
            };
            assert(before[i as int] == self.headings[i as int]@);
            assert(backfill(before, found)[i as int] == updated@);
            let ghost so_far = headings.deep_view();
            headings.push(updated);
            assert(headings.deep_view() =~= so_far.push(updated@));
            assert(backfill(before, found).take(i + 1) =~= backfill(before, found).take(
                i as int,
            ).push(updated@));
            i = i + 1;
        }
        assert(backfill(before, found).take(self.headings.len() as int) =~= backfill(
            before,
            found,
        ));
        proof {
            if old(self).headings_match_blocks() {
                if highlighter is Some {
                    let tokens = choose|tokens: Seq<Seq<Seq<TokenView>>>|
                        {
                            &&& highlights(tokens, self.blocks.deep_view())
                            &&& buffer.deep_view() == #[trigger] render_spec(
                                self.blocks.deep_view(),
                                *theme,
                                Some(tokens),
                            )
                            &&& found == heading_positions(
                                self.blocks.deep_view(),
                                *theme,
                                Some(tokens),
                            )
                        };
                    lemma_heading_positions_increase(self.blocks.deep_view(), *theme, Some(tokens));
                } else {
                    lemma_heading_positions_increase(self.blocks.deep_view(), *theme, None);
                }
                assert(found.len() == headings.len());
                assert forall|a: int, b: int| 0 <= a < b < headings.len()
                    implies headings[a].rendered_line
                    < headings[b].rendered_line by {
                    assert(found[a] < found[b]);
                    assert(found[a] == positions[a] as nat);
                    assert(found[b] == positions[b] as nat);
                }
            }
        }
        self.headings = headings;
        assert(is_render_of(
            buffer.deep_view(),
            found,
            old(self)@.blocks,
            *theme,
            highlighter is Some,
        ));
        proof {
            lemma_render_keeps_plain_shape(
                buffer.deep_view(),
                found,
                old(self)@.blocks,
                *theme,
                highlighter is Some,
            );
        }
        assert(self@.headings == backfill(old(self)@.headings, found));
        buffer
    }

    /// The number of lines of the document's buffer when it is rendered
    /// without highlighting, with the default theme. Renders the document to
    /// find out, which sets the rendered lines of the headings.
    pub fn line_count(&mut self) -> (count: usize)
        ensures
            count == render_spec(old(self)@.blocks, Theme::default_theme_spec(), None).len(),
            final(self)@.blocks == old(self)@.blocks,
            final(self)@.links == old(self)@.links,
            final(self)@.headings == backfill(
                old(self)@.headings,
                heading_positions(old(self)@.blocks, Theme::default_theme_spec(), None),
            ),
    {
        let theme = Theme::default_theme();
        let buffer = self.render(&theme);
        assert(buffer.deep_view().len() == buffer.len());
        buffer.len()
    }

    /// The first link whose text was captured on the given logical line, if
    /// there is one.
    pub fn link_at_line(&self, line: usize) -> (found: Option<&Link>)
        ensures
            match found {
                Some(link) => {
                    &&& 0 <= link_index(self.links@, line) < self.links.len()
                    &&& *link == self.links[link_index(self.links@, line)]
                },
                None => link_index(self.links@, line) >= self.links.len(),
            },
    {
        let mut i: usize = 0;
        while i < self.links.len()
            invariant
                i <= self.links.len(),
                forall|j: int| 0 <= j < i ==> self.links[j].logical_line != line,
            decreases self.links.len() - i,
        {
            if self.links[i].logical_line == line {
                proof {
                    lemma_link_index(self.links@, line, i as int);
                }
                return Some(&self.links[i]);
            }
            i = i + 1;
        }
        proof {
            lemma_link_index(self.links@, line, i as int);
        }
        None
    }
}

/// Index of the first link of the given logical line, or the number of
/// links where there is none.
pub open spec fn link_index(links: Seq<Link>, line: usize) -> int
    decreases links.len(),
{
    if links.len() == 0 || links[0].logical_line == line {
        0
    } else {
        1 + link_index(links.drop_first(), line)
    }
}

/// `link_index` finds the first position that holds a link of the line.
pub proof fn lemma_link_index(links: Seq<Link>, line: usize, k: int)
    requires
        0 <= k <= links.len(),
        forall|j: int| 0 <= j < k ==> links[j].logical_line != line,
        k == links.len() || links[k].logical_line == line,
    ensures
        link_index(links, line) == k,
    decreases links.len(),
{
    if links.len() == 0 || k == 0 {
    } else {
        let rest = links.drop_first();
        assert forall|j: int| 0 <= j < k - 1 implies rest[j].logical_line != line by {
            assert(rest[j] == links[j + 1]);
        }
        lemma_link_index(rest, line, k - 1);
    }
}

} // verus!
