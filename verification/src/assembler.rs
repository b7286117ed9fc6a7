//! The block assembler: folds the parser's event stream into a [`Document`].
//!
//! The assembler is a state machine. [`step_spec`] says what one event does
//! to its state, [`assemble_spec`] what a whole stream yields; the executable
//! functions are proved to compute exactly that.

use crate::events::{
    markdown_events, parsed_events, MdEvent, MdEventView, MdTag, MdTagEnd, MdTagView,
};
use crate::markdown::{
    Block, BlockView, Document, DocumentView, Heading, HeadingView, Link, LinkView, ListItem,
    ListItemView, SpanStyle, SpanStyleView, StyledSpan, StyledSpanView,
};
use crate::laws::{lemma_assembled_levels_in_range, lemma_assembled_tables_in_order};
use crate::text::{lines_of, split_lines};
use vstd::prelude::*;

verus! {

/// The state of the assembler between two events.
pub ghost struct AssemblerView {
    pub blocks: Seq<BlockView>,
    pub headings: Seq<HeadingView>,
    pub links: Seq<LinkView>,
    /// The logical-line counter.
    pub current_line: usize,
    /// The spans of the block or list item that is open.
    pub spans: Seq<StyledSpanView>,
    /// The inline style that the next text run gets.
    pub style: SpanStyleView,
    pub in_heading: Option<u8>,
    pub in_paragraph: bool,
    pub in_blockquote: bool,
    pub in_code_block: bool,
    pub code_language: Option<Seq<char>>,
    pub code_content: Seq<char>,
    pub list_ordered: bool,
    pub list_start: Option<u64>,
    pub list_items: Seq<ListItemView>,
    pub in_list_item: bool,
}

impl AssemblerView {
    /// The state before the first event.
    pub open spec fn initial() -> AssemblerView {
        AssemblerView {
            blocks: Seq::empty(),
            headings: Seq::empty(),
            links: Seq::empty(),
            current_line: 0,
            spans: Seq::empty(),
            style: SpanStyleView::plain(),
            in_heading: None,
            in_paragraph: false,
            in_blockquote: false,
            in_code_block: false,
            code_language: None,
            code_content: Seq::empty(),
            list_ordered: false,
            list_start: None,
            list_items: Seq::empty(),
            in_list_item: false,
        }
    }

    /// What has been completed so far. Whatever is still open is left out.
    pub open spec fn document(self) -> DocumentView {
        DocumentView { blocks: self.blocks, headings: self.headings, links: self.links }
    }

    /// The state after one more span in the open block.
    pub open spec fn with_span(self, text: Seq<char>, style: SpanStyleView) -> AssemblerView {
        AssemblerView { spans: self.spans.push(StyledSpanView { text, style }), ..self }
    }

    /// The state after a block was completed that takes `lines` logical lines.
    pub open spec fn with_block(self, block: BlockView, lines: nat) -> AssemblerView {
        AssemblerView {
            blocks: self.blocks.push(block),
            current_line: advance(self.current_line, lines),
            ..self
        }
    }
}

/// The logical-line counter after `by` more lines. The counter stops at the
/// largest `usize`.
pub open spec fn advance(line: usize, by: nat) -> usize {
    if line + by > usize::MAX {
        usize::MAX
    } else {
        (line + by) as usize
    }
}

/// The texts of `spans`, one after the other.
pub open spec fn span_texts(spans: Seq<StyledSpanView>) -> Seq<char>
    decreases spans.len(),
{
    if spans.len() == 0 {
        Seq::empty()
    } else {
        span_texts(spans.drop_last()) + spans.last().text
    }
}

/// The logical lines that a code block takes: one per line of its content,
/// at least one, and two for its fences.
pub open spec fn code_block_lines(code: Seq<char>) -> nat {
    if lines_of(code).len() == 0 {
        3
    } else {
        lines_of(code).len() + 2
    }
}

/// The state after the start of an element.
pub open spec fn start_spec(s: AssemblerView, tag: MdTagView) -> AssemblerView {
    match tag {
        MdTagView::Heading(level) => AssemblerView {
            in_heading: Some(level),
            spans: Seq::empty(),
            ..s
        },
        MdTagView::Paragraph => if s.in_list_item {
            s
        } else {
            AssemblerView { in_paragraph: true, spans: Seq::empty(), ..s }
        },
        MdTagView::FencedCode(info) => AssemblerView {
            in_code_block: true,
            code_language: if info.len() == 0 {
                None
            } else {
                Some(info)
            },
            code_content: Seq::empty(),
            ..s
        },
        MdTagView::IndentedCode => AssemblerView {
            in_code_block: true,
            code_language: None,
            code_content: Seq::empty(),
            ..s
        },
        MdTagView::BlockQuote => AssemblerView { in_blockquote: true, spans: Seq::empty(), ..s },
        MdTagView::List(start) => AssemblerView {
            list_ordered: start is Some,
            list_start: start,
            list_items: Seq::empty(),
            ..s
        },
        MdTagView::Item => AssemblerView { in_list_item: true, spans: Seq::empty(), ..s },
        MdTagView::Emphasis => AssemblerView {
            style: SpanStyleView { italic: true, ..s.style },
            ..s
        },
        MdTagView::Strong => AssemblerView { style: SpanStyleView { bold: true, ..s.style }, ..s },
        MdTagView::Strikethrough => AssemblerView {
            style: SpanStyleView { strikethrough: true, ..s.style },
            ..s
        },
        MdTagView::Link(url) => AssemblerView {
            style: SpanStyleView { link_url: Some(url), ..s.style },
            ..s
        },
        MdTagView::Other => s,
    }
}

/// The state after the end of an element.
pub open spec fn end_spec(s: AssemblerView, tag: MdTagEnd) -> AssemblerView {
    match tag {
        MdTagEnd::Heading => match s.in_heading {
            Some(level) => AssemblerView {
                in_heading: None,
                spans: Seq::empty(),
                headings: s.headings.push(
                    HeadingView {
                        level,
                        text: span_texts(s.spans),
                        logical_line: s.current_line,
                        rendered_line: 0,
                    },
                ),
                ..s
            }.with_block(BlockView::Heading { level, spans: s.spans }, 1),
            None => s,
        },
        MdTagEnd::Paragraph => if !s.in_list_item && !s.in_blockquote && s.in_paragraph {
            AssemblerView { in_paragraph: false, spans: Seq::empty(), ..s }.with_block(
                BlockView::Paragraph { spans: s.spans },
                1,
            )
        } else {
            s
        },
        MdTagEnd::CodeBlock => AssemblerView {
            in_code_block: false,
            code_language: None,
            code_content: Seq::empty(),
            ..s
        }.with_block(
            BlockView::CodeBlock { language: s.code_language, code: s.code_content },
            code_block_lines(s.code_content),
        ),
        MdTagEnd::BlockQuote => AssemblerView {
            in_blockquote: false,
            spans: Seq::empty(),
            ..s
        }.with_block(BlockView::BlockQuote { spans: s.spans }, 1),
        MdTagEnd::List => AssemblerView { list_items: Seq::empty(), ..s }.with_block(
            BlockView::List { ordered: s.list_ordered, start: s.list_start, items: s.list_items },
            1,
        ),
        MdTagEnd::Item => AssemblerView {
            in_list_item: false,
            list_items: s.list_items.push(ListItemView { spans: s.spans }),
            spans: Seq::empty(),
            current_line: advance(s.current_line, 1),
            ..s
        },
        MdTagEnd::Emphasis => AssemblerView {
            style: SpanStyleView { italic: false, ..s.style },
            ..s
        },
        MdTagEnd::Strong => AssemblerView { style: SpanStyleView { bold: false, ..s.style }, ..s },
        MdTagEnd::Strikethrough => AssemblerView {
            style: SpanStyleView { strikethrough: false, ..s.style },
            ..s
        },
        MdTagEnd::Link => AssemblerView { style: SpanStyleView { link_url: None, ..s.style }, ..s },
        MdTagEnd::Other => s,
    }
}

/// The state after a text run.
pub open spec fn text_spec(s: AssemblerView, text: Seq<char>) -> AssemblerView {
    if s.in_code_block {
        AssemblerView { code_content: s.code_content + text, ..s }
    } else {
        let linked = match s.style.link_url {
            Some(url) => AssemblerView {
                links: s.links.push(LinkView { url, text, logical_line: s.current_line }),
                ..s
            },
            None => s,
        };
        linked.with_span(text, s.style)
    }
}

/// The state after one event.
pub open spec fn step_spec(s: AssemblerView, event: MdEventView) -> AssemblerView {
    match event {
        MdEventView::Start(tag) => start_spec(s, tag),
        MdEventView::End(tag) => end_spec(s, tag),
        MdEventView::Text(text) => text_spec(s, text),
        MdEventView::Code(code) => s.with_span(code, SpanStyleView { code: true, ..s.style }),
        MdEventView::SoftBreak => s.with_span(seq![' '], s.style),
        MdEventView::HardBreak => s.with_span(seq![' '], s.style),
        MdEventView::Rule => s.with_block(BlockView::HorizontalRule, 1),
        MdEventView::Other => s,
    }
}

/// The state after a stream of events, starting from `s`.
pub open spec fn run_spec(s: AssemblerView, events: Seq<MdEventView>) -> AssemblerView
    decreases events.len(),
{
    if events.len() == 0 {
        s
    } else {
        step_spec(run_spec(s, events.drop_last()), events.last())
    }
}

/// The document that a stream of events assembles to.
pub open spec fn assemble_spec(events: Seq<MdEventView>) -> DocumentView {
    run_spec(AssemblerView::initial(), events).document()
}

/// The assembler's accumulator.
struct Assembler {
    blocks: Vec<Block>,
    headings: Vec<Heading>,
    links: Vec<Link>,
    current_line: usize,
    spans: Vec<StyledSpan>,
    style: SpanStyle,
    in_heading: Option<u8>,
    in_paragraph: bool,
    in_blockquote: bool,
    in_code_block: bool,
    code_language: Option<String>,
    code_content: String,
    list_ordered: bool,
    list_start: Option<u64>,
    list_items: Vec<ListItem>,
    in_list_item: bool,
}

impl View for Assembler {
    type V = AssemblerView;

    closed spec fn view(&self) -> AssemblerView {
        AssemblerView {
            blocks: self.blocks.deep_view(),
            headings: self.headings.deep_view(),
            links: self.links.deep_view(),
            current_line: self.current_line,
            spans: self.spans.deep_view(),
            style: self.style@,
            in_heading: self.in_heading,
            in_paragraph: self.in_paragraph,
            in_blockquote: self.in_blockquote,
            in_code_block: self.in_code_block,
            code_language: self.code_language.deep_view(),
            code_content: self.code_content@,
            list_ordered: self.list_ordered,
            list_start: self.list_start,
            list_items: self.list_items.deep_view(),
            in_list_item: self.in_list_item,
        }
    }
}

/// The text of a run of spans.
fn joined_text(spans: &Vec<StyledSpan>) -> (text: String)
    ensures
        text@ == span_texts(spans.deep_view()),
{
    let mut text = String::new();
    let mut i: usize = 0;
    while i < spans.len()
        invariant
            i <= spans.len(),
            text@ == span_texts(spans.deep_view().take(i as int)),
        decreases spans.len() - i,
    {
        text.append(spans[i].text.as_str());
        proof {
            let upto = spans.deep_view().take(i + 1);
            assert(upto.drop_last() =~= spans.deep_view().take(i as int));
            assert(upto.last().text == spans[i as int].text@);
        }
        i = i + 1;
    }
    assert(spans.deep_view().take(spans.len() as int) =~= spans.deep_view());
    text
}

impl Assembler {
    fn new() -> (a: Assembler)
        ensures
            a@ == AssemblerView::initial(),
    {
        let a = Assembler {
            blocks: Vec::new(),
            headings: Vec::new(),
            links: Vec::new(),
            current_line: 0,
            spans: Vec::new(),
            style: SpanStyle::default(),
            in_heading: None,
            in_paragraph: false,
            in_blockquote: false,
            in_code_block: false,
            code_language: None,
            code_content: String::new(),
            list_ordered: false,
            list_start: None,
            list_items: Vec::new(),
            in_list_item: false,
        };
        assert(a.blocks.deep_view() =~= Seq::empty());
        assert(a.headings.deep_view() =~= Seq::empty());
        assert(a.links.deep_view() =~= Seq::empty());
        assert(a.spans.deep_view() =~= Seq::empty());
        assert(a.list_items.deep_view() =~= Seq::empty());
        a
    }

    /// Takes the spans of the open block, leaving none.
    fn take_spans(&mut self) -> (spans: Vec<StyledSpan>)
        ensures
            spans.deep_view() == old(self)@.spans,
            final(self)@ == (AssemblerView { spans: Seq::empty(), ..old(self)@ }),
    {
        let mut spans: Vec<StyledSpan> = Vec::new();
        std::mem::swap(&mut self.spans, &mut spans);
        assert(self.spans.deep_view() =~= Seq::empty());
        spans
    }

    fn push_span(&mut self, text: String, style: SpanStyle)
        ensures
            final(self)@ == old(self)@.with_span(text@, style@),
    {
        let ghost before = self.spans.deep_view();
        let span = StyledSpan { text, style };
        self.spans.push(span);
        assert(self.spans.deep_view() =~= before.push(span@));
    }

    fn push_block(&mut self, block: Block, lines: usize)
        ensures
            final(self)@ == old(self)@.with_block(block@, lines as nat),
    {
        let ghost before = self.blocks.deep_view();
        self.blocks.push(block);
        assert(self.blocks.deep_view() =~= before.push(block@));
        self.current_line = self.current_line.saturating_add(lines);
    }

    fn start(&mut self, tag: &MdTag)
        ensures
            final(self)@ == start_spec(old(self)@, tag@),
    {
        match tag {
            MdTag::Heading(level) => {
                self.in_heading = Some(*level);
                let _ = self.take_spans();
            },
            MdTag::Paragraph => {
                if !self.in_list_item {
                    self.in_paragraph = true;
                    let _ = self.take_spans();
                }
            },
            MdTag::FencedCode(info) => {
                self.in_code_block = true;
                self.code_language = if info.as_str().is_empty() {
                    None
                } else {
                    Some(info.clone())
                };
                self.code_content = String::new();
            },
            MdTag::IndentedCode => {
                self.in_code_block = true;
                self.code_language = None;
                self.code_content = String::new();
            },
            MdTag::BlockQuote => {
                self.in_blockquote = true;
                let _ = self.take_spans();
            },
            MdTag::List(start) => {
                self.list_ordered = start.is_some();
                self.list_start = *start;
                self.list_items = Vec::new();
                assert(self.list_items.deep_view() =~= Seq::empty());
            },
            MdTag::Item => {
                self.in_list_item = true;
                let _ = self.take_spans();
            },
            MdTag::Emphasis => {
                self.style.italic = true;
            },
            MdTag::Strong => {
                self.style.bold = true;
            },
            MdTag::Strikethrough => {
                self.style.strikethrough = true;
            },
            MdTag::Link(url) => {
                self.style.link_url = Some(url.clone());
            },
            MdTag::Other => {},
        }
    }

    fn end_heading(&mut self)
        ensures
            final(self)@ == end_spec(old(self)@, MdTagEnd::Heading),
    {
        if let Some(level) = self.in_heading {
            self.in_heading = None;
            let text = joined_text(&self.spans);
            let heading = Heading {
                level,
                text,
                logical_line: self.current_line,
                rendered_line: 0,
            };
            let ghost before = self.headings.deep_view();
            self.headings.push(heading);
            assert(self.headings.deep_view() =~= before.push(heading@));
            let spans = self.take_spans();
            self.push_block(Block::Heading { level, spans }, 1);
        }
    }

    fn end_paragraph(&mut self)
        ensures
            final(self)@ == end_spec(old(self)@, MdTagEnd::Paragraph),
    {
        if !self.in_list_item && !self.in_blockquote && self.in_paragraph {
            self.in_paragraph = false;
            let spans = self.take_spans();
            self.push_block(Block::Paragraph { spans }, 1);
        }
    }

    fn end_code_block(&mut self)
        ensures
            final(self)@ == end_spec(old(self)@, MdTagEnd::CodeBlock),
    {
        self.in_code_block = false;
        let count = split_lines(self.code_content.as_str()).len();
        let lines: usize = if count == 0 {
            1
        } else {
            count
        };
        let mut language: Option<String> = None;
        std::mem::swap(&mut self.code_language, &mut language);
        let mut code = String::new();
        std::mem::swap(&mut self.code_content, &mut code);
        assert(lines_of(code@).len() == count);
        assert(advance(self.current_line, lines.saturating_add(2) as nat) == advance(
            self.current_line,
            code_block_lines(code@),
        ));
        self.push_block(Block::CodeBlock { language, code }, lines.saturating_add(2));
    }

    fn end_blockquote(&mut self)
        ensures
            final(self)@ == end_spec(old(self)@, MdTagEnd::BlockQuote),
    {
        self.in_blockquote = false;
        let spans = self.take_spans();
        self.push_block(Block::BlockQuote { spans }, 1);
    }

    fn end_list(&mut self)
        ensures
            final(self)@ == end_spec(old(self)@, MdTagEnd::List),
    {
        let mut items: Vec<ListItem> = Vec::new();
        std::mem::swap(&mut self.list_items, &mut items);
        assert(self.list_items.deep_view() =~= Seq::empty());
        self.push_block(
            Block::List { ordered: self.list_ordered, start: self.list_start, items },
            1,
        );
    }

    fn end_item(&mut self)
        ensures
            final(self)@ == end_spec(old(self)@, MdTagEnd::Item),
    {
        self.in_list_item = false;
        let spans = self.take_spans();
        let ghost before = self.list_items.deep_view();
        let item = ListItem { spans };
        self.list_items.push(item);
        assert(self.list_items.deep_view() =~= before.push(item@));
        self.current_line = self.current_line.saturating_add(1);
    }

    fn end(&mut self, tag: MdTagEnd)
        ensures
            final(self)@ == end_spec(old(self)@, tag),
    {
        match tag {
            MdTagEnd::Heading => self.end_heading(),
            MdTagEnd::Paragraph => self.end_paragraph(),
            MdTagEnd::CodeBlock => self.end_code_block(),
            MdTagEnd::BlockQuote => self.end_blockquote(),
            MdTagEnd::List => self.end_list(),
            MdTagEnd::Item => self.end_item(),
            MdTagEnd::Emphasis => {
                self.style.italic = false;
            },
            MdTagEnd::Strong => {
                self.style.bold = false;
            },
            MdTagEnd::Strikethrough => {
                self.style.strikethrough = false;
            },
            MdTagEnd::Link => {
                self.style.link_url = None;
            },
            MdTagEnd::Other => {},
        }
    }

    fn text(&mut self, text: &String)
        ensures
            final(self)@ == text_spec(old(self)@, text@),
    {
        if self.in_code_block {
            self.code_content.append(text.as_str());
        } else {
            if let Some(url) = &self.style.link_url {
                let link = Link {
                    url: url.clone(),
                    text: text.clone(),
                    logical_line: self.current_line,
                };
                let ghost before = self.links.deep_view();
                self.links.push(link);
                assert(self.links.deep_view() =~= before.push(link@));
            }
            let style = self.style.clone();
            self.push_span(text.clone(), style);
        }
    }

    /// Consumes one event.
    fn step(&mut self, event: &MdEvent)
        ensures
            final(self)@ == step_spec(old(self)@, event@),
    {
        match event {
            MdEvent::Start(tag) => self.start(tag),
            MdEvent::End(tag) => self.end(*tag),
            MdEvent::Text(text) => self.text(text),
            MdEvent::Code(code) => {
                let mut style = self.style.clone();
                style.code = true;
                self.push_span(code.clone(), style);
            },
            MdEvent::SoftBreak | MdEvent::HardBreak => {
                let style = self.style.clone();
                let space = String::from_str(" ");
                proof {
                    reveal_strlit(" ");
                    assert(space@ =~= seq![' ']);
                }
                self.push_span(space, style);
            },
            MdEvent::Rule => self.push_block(Block::HorizontalRule, 1),
            MdEvent::Other => {},
        }
    }

    fn finish(self) -> (doc: Document)
        ensures
            doc@ == self@.document(),
    {
        Document { blocks: self.blocks, headings: self.headings, links: self.links }
    }
}

/// Assembles a stream of parser events into a document. The assembler never
/// fails: an element that is still open when the stream ends is left out.
pub fn assemble(events: &Vec<MdEvent>) -> (doc: Document)
    ensures
        doc@ == assemble_spec(events.deep_view()),
        doc.headings_match_blocks(),
{
    let mut assembler = Assembler::new();
    let mut i: usize = 0;
    while i < events.len()
        invariant
            i <= events.len(),
            assembler@ == run_spec(AssemblerView::initial(), events.deep_view().take(i as int)),
        decreases events.len() - i,
    {
        assembler.step(&events[i]);
        proof {
            let upto = events.deep_view().take(i + 1);
            assert(upto.drop_last() =~= events.deep_view().take(i as int));
            assert(upto.last() == events[i as int]@);
        }
        i = i + 1;
    }
    assert(events.deep_view().take(events.len() as int) =~= events.deep_view());
    proof {
        lemma_assembled_tables_in_order(events.deep_view());
    }
    assembler.finish()
}

impl Document {
    /// Parses Markdown text into a document: the text is handed to the
    /// parser, and the events that come back are assembled as [`assemble`]
    /// does. Its heading table has one entry for each heading block, and the
    /// levels of its headings are between 1 and 6.
    pub fn parse(source: &str) -> (doc: Document)
        ensures
            doc@ == assemble_spec(parsed_events(source@)),
            doc.headings_match_blocks(),
            forall|i: int|
                0 <= i < doc.headings.len() ==> 1 <= (#[trigger] doc.headings[i]).level <= 6,
    {
        let events = markdown_events(source);
        let doc = assemble(&events);
        proof {
            lemma_assembled_levels_in_range(events.deep_view());
            assert forall|i: int| 0 <= i < doc.headings.len() implies 1 <= (
            #[trigger] doc.headings[i]).level <= 6 by {
                assert(doc@.headings[i] == doc.headings[i]@);
            }
        }
        doc
    }
}

} // verus!
