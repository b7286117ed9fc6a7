//! Laws of the pipeline from events to the rendered buffer: what holds of
//! every document that the assembler yields, and of every buffer that the
//! render engine yields.

use crate::assembler::{assemble_spec, run_spec, step_spec, AssemblerView};
use crate::events::{heading_levels_in_range, MdEventView, MdTagEnd, MdTagView};
use crate::highlight::{is_highlighting_of, token_texts, TokenView};
use crate::markdown::{BlockView, HeadingView, LinkView};
use crate::render::{
    block_lines, code_block_lines, code_indent_span, code_lines, heading_count,
    heading_positions, highlighted_code_line, highlighting_before_last, highlighting_of_last,
    highlights, is_render_of, plain_code_line, render_spec, token_span,
};
use crate::style::{texts_of, LineView, SpanView};
use crate::text::lines_of;
use crate::theme::Theme;
use vstd::prelude::*;

verus! {

/// Whether the logical lines of a heading table never fall from one heading
/// to the next, and none is behind `line`.
pub open spec fn headings_in_order(headings: Seq<HeadingView>, line: usize) -> bool {
    &&& forall|i: int, j: int|
        0 <= i <= j < headings.len() ==> headings[i].logical_line <= headings[j].logical_line
    &&& forall|i: int| 0 <= i < headings.len() ==> headings[i].logical_line <= line
}

/// Whether the logical lines of a link table never fall from one link to
/// the next, and none is behind `line`.
pub open spec fn links_in_order(links: Seq<LinkView>, line: usize) -> bool {
    &&& forall|i: int, j: int|
        0 <= i <= j < links.len() ==> links[i].logical_line <= links[j].logical_line
    &&& forall|i: int| 0 <= i < links.len() ==> links[i].logical_line <= line
}

/// What holds of the assembler between any two events: one heading in the
/// table for each heading block, every heading that is not rendered yet at
/// line 0, and the tables in the order of the document.
pub open spec fn assembler_invariant(s: AssemblerView) -> bool {
    &&& s.headings.len() == heading_count(s.blocks)
    &&& forall|i: int| 0 <= i < s.headings.len() ==> s.headings[i].rendered_line == 0
    &&& headings_in_order(s.headings, s.current_line)
    &&& links_in_order(s.links, s.current_line)
}

/// One more block that is no heading leaves the number of heading blocks as
/// it is; a heading adds one.
pub proof fn lemma_heading_count_push(blocks: Seq<BlockView>, block: BlockView)
    ensures
        heading_count(blocks.push(block)) == heading_count(blocks) + if block is Heading {
            1nat
        } else {
            0nat
        },
{
    assert(blocks.push(block).drop_last() =~= blocks);
}

/// One event keeps what holds of the assembler.
pub proof fn lemma_step_keeps_invariant(s: AssemblerView, event: MdEventView)
    requires
        assembler_invariant(s),
    ensures
        assembler_invariant(step_spec(s, event)),
        step_spec(s, event).current_line >= s.current_line,
{
    let after = step_spec(s, event);
    match event {
        MdEventView::End(tag) => {
            match tag {
                MdTagEnd::Heading => {
                    if let Some(level) = s.in_heading {
                        lemma_heading_count_push(
                            s.blocks,
                            BlockView::Heading { level, spans: s.spans },
                        );
                    }
                },
                MdTagEnd::Paragraph => {
                    lemma_heading_count_push(s.blocks, BlockView::Paragraph { spans: s.spans });
                },
                MdTagEnd::CodeBlock => {
                    lemma_heading_count_push(
                        s.blocks,
                        BlockView::CodeBlock { language: s.code_language, code: s.code_content },
                    );
                },
                MdTagEnd::BlockQuote => {
                    lemma_heading_count_push(s.blocks, BlockView::BlockQuote { spans: s.spans });
                },
                MdTagEnd::List => {
                    lemma_heading_count_push(
                        s.blocks,
                        BlockView::List {
                            ordered: s.list_ordered,
                            start: s.list_start,
                            items: s.list_items,
                        },
                    );
                },
                _ => {},
            }
        },
        MdEventView::Rule => {
            lemma_heading_count_push(s.blocks, BlockView::HorizontalRule);
        },
        _ => {},
    }
}

/// What holds of the assembler holds after every stream of events.
pub proof fn lemma_run_keeps_invariant(events: Seq<MdEventView>)
    ensures
        assembler_invariant(run_spec(AssemblerView::initial(), events)),
    decreases events.len(),
{
    if events.len() > 0 {
        lemma_run_keeps_invariant(events.drop_last());
        lemma_step_keeps_invariant(
            run_spec(AssemblerView::initial(), events.drop_last()),
            events.last(),
        );
    }
}

/// Law: in every assembled document the heading table has one entry for
/// each heading block, no heading is rendered yet, and the logical lines of
/// the headings and of the links never fall from one entry to the next.
pub proof fn lemma_assembled_tables_in_order(events: Seq<MdEventView>)
    ensures
        assemble_spec(events).headings.len() == heading_count(assemble_spec(events).blocks),
        forall|i: int|
            0 <= i < assemble_spec(events).headings.len() ==> assemble_spec(
                events,
            ).headings[i].rendered_line == 0,
        forall|i: int, j: int|
            0 <= i <= j < assemble_spec(events).headings.len() ==> assemble_spec(
                events,
            ).headings[i].logical_line <= assemble_spec(events).headings[j].logical_line,
        forall|i: int, j: int|
            0 <= i <= j < assemble_spec(events).links.len() ==> assemble_spec(
                events,
            ).links[i].logical_line <= assemble_spec(events).links[j].logical_line,
{
    lemma_run_keeps_invariant(events);
}

/// Whether the heading that is open, the headings of the table and the
/// heading blocks all have a level between 1 and 6.
pub open spec fn levels_in_range(s: AssemblerView) -> bool {
    &&& s.in_heading matches Some(level) ==> 1 <= level <= 6
    &&& forall|i: int| 0 <= i < s.headings.len() ==> 1 <= (#[trigger] s.headings[i]).level <= 6
    &&& forall|i: int|
        0 <= i < s.blocks.len() ==> (#[trigger] s.blocks[i] matches BlockView::Heading {
            level,
            ..
        } ==> 1 <= level <= 6)
}

proof fn lemma_run_keeps_levels(events: Seq<MdEventView>)
    requires
        heading_levels_in_range(events),
    ensures
        levels_in_range(run_spec(AssemblerView::initial(), events)),
    decreases events.len(),
{
    if events.len() > 0 {
        let front = events.drop_last();
        assert(heading_levels_in_range(front)) by {
            assert forall|i: int| 0 <= i < front.len()
                implies (#[trigger] front[i] matches MdEventView::Start(
                MdTagView::Heading(level),
            ) ==> 1 <= level <= 6) by {
                assert(front[i] == events[i]);
            }
        }
        lemma_run_keeps_levels(front);
        assert(events.last() == events[events.len() - 1]);
    }
}

/// Law: where every heading that the events start has a level between 1
/// and 6, so has every heading of the assembled document.
pub proof fn lemma_assembled_levels_in_range(events: Seq<MdEventView>)
    requires
        heading_levels_in_range(events),
    ensures
        forall|i: int|
            0 <= i < assemble_spec(events).headings.len() ==> 1 <= (#[trigger] assemble_spec(
                events,
            ).headings[i]).level <= 6,
        forall|i: int|
            0 <= i < assemble_spec(events).blocks.len() ==> (#[trigger] assemble_spec(
                events,
            ).blocks[i] matches BlockView::Heading { level, .. } ==> 1 <= level <= 6),
{
    lemma_run_keeps_levels(events);
}

/// The texts of the lines of a buffer.
pub open spec fn line_texts(lines: Seq<LineView>) -> Seq<Seq<char>> {
    Seq::new(lines.len(), |i: int| lines[i].text())
}

/// The text of a run of spans with one more span is the text of the run
/// and then the text of the span.
pub proof fn lemma_texts_of_push(spans: Seq<SpanView>, span: SpanView)
    ensures
        texts_of(spans.push(span)) == texts_of(spans) + span.text,
{
    assert(spans.push(span).drop_last() =~= spans);
}

/// The text of a line of highlighted code is the indent and the texts of
/// its tokens.
pub proof fn lemma_highlighted_line_text(run: Seq<TokenView>, theme: Theme)
    ensures
        highlighted_code_line(run, theme).text() == "  "@ + token_texts(run),
    decreases run.len(),
{
    let spans = highlighted_code_line(run, theme).spans;
    if run.len() == 0 {
        assert(spans =~= Seq::<SpanView>::empty().push(code_indent_span(theme)));
        lemma_texts_of_push(Seq::empty(), code_indent_span(theme));
        assert(texts_of(Seq::<SpanView>::empty()) =~= Seq::<char>::empty());
        assert(texts_of(spans) =~= "  "@ + token_texts(run));
    } else {
        let front = highlighted_code_line(run.drop_last(), theme).spans;
        lemma_highlighted_line_text(run.drop_last(), theme);
        assert(spans =~= front.push(token_span(run.last(), theme)));
        lemma_texts_of_push(front, token_span(run.last(), theme));
        assert(texts_of(spans) =~= "  "@ + token_texts(run));
    }
}

/// The text of a line of code that is not highlighted is the indent and
/// the line.
pub proof fn lemma_plain_line_text(line: Seq<char>, theme: Theme)
    ensures
        plain_code_line(line, theme).text() == "  "@ + line,
{
    let spans = plain_code_line(line, theme).spans;
    assert(spans.drop_last() =~= Seq::<SpanView>::empty());
    assert(texts_of(spans.drop_last()) =~= Seq::<char>::empty());
    assert(texts_of(spans) =~= "  "@ + line);
}

/// Highlighted or not, the lines of a block have the same texts.
pub proof fn lemma_block_texts(block: BlockView, theme: Theme, runs: Seq<Seq<TokenView>>)
    requires
        block matches BlockView::CodeBlock { code, .. } ==> is_highlighting_of(runs, code),
    ensures
        line_texts(block_lines(block, theme, Some(runs))) == line_texts(
            block_lines(block, theme, None),
        ),
{
    match block {
        BlockView::CodeBlock { language, code } => {
            let with = code_lines(code, theme, Some(runs));
            let without = code_lines(code, theme, None);
            assert(with.len() == without.len());
            assert forall|i: int| 0 <= i < with.len() implies with[i].text()
                == without[i].text() by {
                lemma_highlighted_line_text(runs[i], theme);
                lemma_plain_line_text(lines_of(code)[i], theme);
            }
            let a = code_block_lines(language, code, theme, Some(runs));
            let b = code_block_lines(language, code, theme, None);
            assert(a.len() == b.len());
            assert forall|i: int| 0 <= i < a.len() implies a[i].text() == b[i].text() by {
                if 1 <= i < 1 + with.len() {
                    assert(a[i] == with[i - 1]);
                    assert(b[i] == without[i - 1]);
                }
            }
            assert(line_texts(a) =~= line_texts(b));
        },
        _ => {},
    }
}

/// Law: whether and how its code blocks are highlighted, a buffer has the
/// same number of lines with the same texts. So the length of a buffer, and
/// what a search finds in it, is determined by the blocks alone.
pub proof fn lemma_highlighting_keeps_texts(
    blocks: Seq<BlockView>,
    theme: Theme,
    tokens: Seq<Seq<Seq<TokenView>>>,
)
    requires
        highlights(tokens, blocks),
    ensures
        render_spec(blocks, theme, Some(tokens)).len() == render_spec(blocks, theme, None).len(),
        line_texts(render_spec(blocks, theme, Some(tokens))) == line_texts(
            render_spec(blocks, theme, None),
        ),
    decreases blocks.len(),
{
    if blocks.len() > 0 {
        let front = blocks.drop_last();
        assert(highlights(tokens.drop_last(), front)) by {
            assert forall|i: int| 0 <= i < front.len()
                implies (#[trigger] front[i] matches BlockView::CodeBlock {
                code,
                ..
            } ==> is_highlighting_of(tokens.drop_last()[i], code)) by {
                assert(front[i] == blocks[i]);
            }
        }
        lemma_highlighting_keeps_texts(front, theme, tokens.drop_last());
        assert(blocks.last() == blocks[blocks.len() - 1]);
        lemma_block_texts(blocks.last(), theme, tokens.last());
        let a1 = render_spec(front, theme, Some(tokens.drop_last()));
        let a2 = block_lines(blocks.last(), theme, Some(tokens.last()));
        let b1 = render_spec(front, theme, None);
        let b2 = block_lines(blocks.last(), theme, None);
        assert(highlighting_before_last(Some(tokens)) == Some(tokens.drop_last()));
        assert(highlighting_of_last(Some(tokens)) == Some(tokens.last()));
        assert(line_texts(a2).len() == line_texts(b2).len());
        assert(line_texts(a1).len() == line_texts(b1).len());
        assert forall|i: int| 0 <= i < (a1 + a2).len() implies (a1 + a2)[i].text() == (b1
            + b2)[i].text() by {
            if i < a1.len() {
                assert(line_texts(a1)[i] == line_texts(b1)[i]);
            } else {
                assert(line_texts(a2)[i - a1.len()] == line_texts(b2)[i - a1.len()]);
            }
        }
        assert(line_texts(a1 + a2) =~= line_texts(b1 + b2));
    }
}

/// Law: whether and how its code blocks are highlighted, the headings of a
/// buffer are on the same lines.
pub proof fn lemma_highlighting_keeps_positions(
    blocks: Seq<BlockView>,
    theme: Theme,
    tokens: Seq<Seq<Seq<TokenView>>>,
)
    requires
        highlights(tokens, blocks),
    ensures
        heading_positions(blocks, theme, Some(tokens)) == heading_positions(blocks, theme, None),
    decreases blocks.len(),
{
    if blocks.len() > 0 {
        let front = blocks.drop_last();
        assert(highlights(tokens.drop_last(), front)) by {
            assert forall|i: int| 0 <= i < front.len()
                implies (#[trigger] front[i] matches BlockView::CodeBlock {
                code,
                ..
            } ==> is_highlighting_of(tokens.drop_last()[i], code)) by {
                assert(front[i] == blocks[i]);
            }
        }
        lemma_highlighting_keeps_positions(front, theme, tokens.drop_last());
        lemma_highlighting_keeps_texts(front, theme, tokens.drop_last());
        assert(highlighting_before_last(Some(tokens)) == Some(tokens.drop_last()));
    }
}

/// What a render of `blocks` yields, highlighted or not, as far as the
/// highlighter has no say in it: the number of lines, their texts, and the
/// lines of the headings are those of the render without highlighting.
pub proof fn lemma_render_keeps_plain_shape(
    buffer: Seq<LineView>,
    positions: Seq<nat>,
    blocks: Seq<BlockView>,
    theme: Theme,
    highlighted: bool,
)
    requires
        is_render_of(buffer, positions, blocks, theme, highlighted),
    ensures
        buffer.len() == render_spec(blocks, theme, None).len(),
        line_texts(buffer) == line_texts(render_spec(blocks, theme, None)),
        positions == heading_positions(blocks, theme, None),
{
    if highlighted {
        let tokens = choose|tokens: Seq<Seq<Seq<TokenView>>>|
            {
                &&& highlights(tokens, blocks)
                &&& buffer == #[trigger] render_spec(blocks, theme, Some(tokens))
                &&& positions == heading_positions(blocks, theme, Some(tokens))
            };
        lemma_highlighting_keeps_texts(blocks, theme, tokens);
        lemma_highlighting_keeps_positions(blocks, theme, tokens);
    }
}

/// Law: two renders of the same blocks with the same theme put the
/// headings on the same lines and yield buffers of the same length with the
/// same texts, whether either was highlighted or not and whatever was
/// rendered before. Where neither was highlighted, the buffers are equal,
/// styles and all.
pub proof fn lemma_render_deterministic(
    first: (Seq<LineView>, Seq<nat>),
    first_highlighted: bool,
    second: (Seq<LineView>, Seq<nat>),
    second_highlighted: bool,
    blocks: Seq<BlockView>,
    theme: Theme,
)
    requires
        is_render_of(first.0, first.1, blocks, theme, first_highlighted),
        is_render_of(second.0, second.1, blocks, theme, second_highlighted),
    ensures
        first.1 == second.1,
        first.0.len() == second.0.len(),
        line_texts(first.0) == line_texts(second.0),
        !first_highlighted && !second_highlighted ==> first.0 == second.0,
{
    lemma_render_keeps_plain_shape(first.0, first.1, blocks, theme, first_highlighted);
    lemma_render_keeps_plain_shape(second.0, second.1, blocks, theme, second_highlighted);
}

} // verus!
