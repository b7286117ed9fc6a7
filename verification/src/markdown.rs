//! The block model of a Markdown document: blocks of styled spans, with the
//! heading and link tables that the viewer navigates by.

use vstd::prelude::*;

verus! {

/// Inline style flags of a run of text. The flags are independent of each
/// other.
#[derive(Debug)]
pub struct SpanStyle {
    pub bold: bool,
    pub italic: bool,
    pub code: bool,
    pub link_url: Option<String>,
    pub strikethrough: bool,
}

/// Mathematical model of a [`SpanStyle`].
pub ghost struct SpanStyleView {
    pub bold: bool,
    pub italic: bool,
    pub code: bool,
    pub link_url: Option<Seq<char>>,
    pub strikethrough: bool,
}

impl DeepView for SpanStyle {
    type V = SpanStyleView;

    open spec fn deep_view(&self) -> SpanStyleView {
        SpanStyleView {
            bold: self.bold,
            italic: self.italic,
            code: self.code,
            link_url: self.link_url.deep_view(),
            strikethrough: self.strikethrough,
        }
    }
}

impl View for SpanStyle {
    type V = SpanStyleView;

    open spec fn view(&self) -> SpanStyleView {
        self.deep_view()
    }
}

impl SpanStyleView {
    /// The style with every flag off and no link.
    pub open spec fn plain() -> SpanStyleView {
        SpanStyleView {
            bold: false,
            italic: false,
            code: false,
            link_url: None,
            strikethrough: false,
        }
    }
}

impl Clone for SpanStyle {
    fn clone(&self) -> (r: Self)
        ensures
            r == *self,
    {
        SpanStyle {
            bold: self.bold,
            italic: self.italic,
            code: self.code,
            link_url: self.link_url.clone(),
            strikethrough: self.strikethrough,
        }
    }
}

impl Default for SpanStyle {
    fn default() -> (r: Self)
        ensures
            r@ == SpanStyleView::plain(),
    {
        SpanStyle { bold: false, italic: false, code: false, link_url: None, strikethrough: false }
    }
}

/// A run of text with its style.
#[derive(Debug)]
pub struct StyledSpan {
    pub text: String,
    pub style: SpanStyle,
}

/// Mathematical model of a [`StyledSpan`].
pub ghost struct StyledSpanView {
    pub text: Seq<char>,
    pub style: SpanStyleView,
}

impl DeepView for StyledSpan {
    type V = StyledSpanView;

    open spec fn deep_view(&self) -> StyledSpanView {
        StyledSpanView { text: self.text@, style: self.style@ }
    }
}

impl View for StyledSpan {
    type V = StyledSpanView;

    open spec fn view(&self) -> StyledSpanView {
        self.deep_view()
    }
}

impl Clone for StyledSpan {
    fn clone(&self) -> (r: Self)
        ensures
            r == *self,
    {
        StyledSpan { text: self.text.clone(), style: self.style.clone() }
    }
}

/// One item of a list.
#[derive(Debug)]
pub struct ListItem {
    pub spans: Vec<StyledSpan>,
}

/// Mathematical model of a [`ListItem`].
pub ghost struct ListItemView {
    pub spans: Seq<StyledSpanView>,
}

impl DeepView for ListItem {
    type V = ListItemView;

    open spec fn deep_view(&self) -> ListItemView {
        ListItemView { spans: self.spans.deep_view() }
    }
}

impl View for ListItem {
    type V = ListItemView;

    open spec fn view(&self) -> ListItemView {
        self.deep_view()
    }
}

impl Clone for ListItem {
    fn clone(&self) -> (r: Self)
        ensures
            r@ == self@,
    {
        let spans = self.spans.clone();
        assert(spans@ =~= self.spans@);
        assert(spans.deep_view() =~= self.spans.deep_view());
        ListItem { spans }
    }
}

/// One structural unit of a document.
#[derive(Debug)]
pub enum Block {
    Heading { level: u8, spans: Vec<StyledSpan> },
    Paragraph { spans: Vec<StyledSpan> },
    CodeBlock { language: Option<String>, code: String },
    List { ordered: bool, start: Option<u64>, items: Vec<ListItem> },
    BlockQuote { spans: Vec<StyledSpan> },
    HorizontalRule,
}

/// Mathematical model of a [`Block`].
pub ghost enum BlockView {
    Heading { level: u8, spans: Seq<StyledSpanView> },
    Paragraph { spans: Seq<StyledSpanView> },
    CodeBlock { language: Option<Seq<char>>, code: Seq<char> },
    List { ordered: bool, start: Option<u64>, items: Seq<ListItemView> },
    BlockQuote { spans: Seq<StyledSpanView> },
    HorizontalRule,
}

impl DeepView for Block {
    type V = BlockView;

    open spec fn deep_view(&self) -> BlockView {
        match *self {
            Block::Heading { level, spans } => BlockView::Heading {
                level,
                spans: spans.deep_view(),
            },
            Block::Paragraph { spans } => BlockView::Paragraph { spans: spans.deep_view() },
            Block::CodeBlock { language, code } => BlockView::CodeBlock {
                language: language.deep_view(),
                code: code@,
            },
            Block::List { ordered, start, items } => BlockView::List {
                ordered,
                start,
                items: items.deep_view(),
            },
            Block::BlockQuote { spans } => BlockView::BlockQuote { spans: spans.deep_view() },
            Block::HorizontalRule => BlockView::HorizontalRule,
        }
    }
}

impl View for Block {
    type V = BlockView;

    open spec fn view(&self) -> BlockView {
        self.deep_view()
    }
}

impl Clone for Block {
    fn clone(&self) -> (r: Self)
        ensures
            r@ == self@,
    {
        match self {
            Block::Heading { level, spans } => {
                let copy = spans.clone();
                assert(copy@ =~= spans@);
                assert(copy.deep_view() =~= spans.deep_view());
                Block::Heading { level: *level, spans: copy }
            },
            Block::Paragraph { spans } => {
                let copy = spans.clone();
                assert(copy@ =~= spans@);
                assert(copy.deep_view() =~= spans.deep_view());
                Block::Paragraph { spans: copy }
            },
            Block::CodeBlock { language, code } => Block::CodeBlock {
                language: language.clone(),
                code: code.clone(),
            },
            Block::List { ordered, start, items } => {
                let copy = items.clone();
                assert(copy.deep_view() =~= items.deep_view());
                Block::List { ordered: *ordered, start: *start, items: copy }
            },
            Block::BlockQuote { spans } => {
                let copy = spans.clone();
                assert(copy@ =~= spans@);
                assert(copy.deep_view() =~= spans.deep_view());
                Block::BlockQuote { spans: copy }
            },
            Block::HorizontalRule => Block::HorizontalRule,
        }
    }
}

/// A heading as the outline shows it.
#[derive(Debug)]
pub struct Heading {
    pub level: u8,
    pub text: String,
    /// Value of the logical-line counter when the heading was closed.
    pub logical_line: usize,
    /// Index of the heading's line in the rendered buffer; 0 until rendered.
    pub rendered_line: usize,
}

/// Mathematical model of a [`Heading`].
pub ghost struct HeadingView {
    pub level: u8,
    pub text: Seq<char>,
    pub logical_line: usize,
    pub rendered_line: usize,
}

impl DeepView for Heading {
    type V = HeadingView;

    open spec fn deep_view(&self) -> HeadingView {
        HeadingView {
            level: self.level,
            text: self.text@,
            logical_line: self.logical_line,
            rendered_line: self.rendered_line,
        }
    }
}

impl View for Heading {
    type V = HeadingView;

    open spec fn view(&self) -> HeadingView {
        self.deep_view()
    }
}

impl Clone for Heading {
    fn clone(&self) -> (r: Self)
        ensures
            r == *self,
    {
        Heading {
            level: self.level,
            text: self.text.clone(),
            logical_line: self.logical_line,
            rendered_line: self.rendered_line,
        }
    }
}

/// One run of link text with the link's target.
#[derive(Debug)]
pub struct Link {
    pub url: String,
    pub text: String,
    /// Value of the logical-line counter when the text was captured.
    pub logical_line: usize,
}

/// Mathematical model of a [`Link`].
pub ghost struct LinkView {
    pub url: Seq<char>,
    pub text: Seq<char>,
    pub logical_line: usize,
}

impl DeepView for Link {
    type V = LinkView;

    open spec fn deep_view(&self) -> LinkView {
        LinkView { url: self.url@, text: self.text@, logical_line: self.logical_line }
    }
}

impl View for Link {
    type V = LinkView;

    open spec fn view(&self) -> LinkView {
        self.deep_view()
    }
}

impl Clone for Link {
    fn clone(&self) -> (r: Self)
        ensures
            r == *self,
    {
        Link { url: self.url.clone(), text: self.text.clone(), logical_line: self.logical_line }
    }
}

/// A parsed document: its blocks in order, and the heading and link tables.
#[derive(Debug)]
pub struct Document {
    pub blocks: Vec<Block>,
    pub headings: Vec<Heading>,
    pub links: Vec<Link>,
}

/// Mathematical model of a [`Document`].
pub ghost struct DocumentView {
    pub blocks: Seq<BlockView>,
    pub headings: Seq<HeadingView>,
    pub links: Seq<LinkView>,
}

impl DeepView for Document {
    type V = DocumentView;

    open spec fn deep_view(&self) -> DocumentView {
        DocumentView {
            blocks: self.blocks.deep_view(),
            headings: self.headings.deep_view(),
            links: self.links.deep_view(),
        }
    }
}

impl View for Document {
    type V = DocumentView;

    open spec fn view(&self) -> DocumentView {
        self.deep_view()
    }
}

impl Clone for Document {
    fn clone(&self) -> (r: Self)
        ensures
            r@ == self@,
    {
        let blocks = self.blocks.clone();
        assert(blocks.deep_view() =~= self.blocks.deep_view());
        let headings = self.headings.clone();
        assert(headings@ =~= self.headings@);
        assert(headings.deep_view() =~= self.headings.deep_view());
        let links = self.links.clone();
        assert(links@ =~= self.links@);
        assert(links.deep_view() =~= self.links.deep_view());
        Document { blocks, headings, links }
    }
}

} // verus!
