//! The event stream of the Markdown parser, as plain values.
//!
//! The parser itself is `pulldown_cmark`. Its events are opaque to the
//! verifier; this module takes them apart, one enum at a time, into
//! [`MdEvent`] values that the block assembler consumes. What the parser
//! makes of a text is named by [`parsed_events`].

use pulldown_cmark::{CodeBlockKind, Event, HeadingLevel, Options, Parser, Tag, TagEnd};
use vstd::prelude::*;

verus! {

/// An element that is opened by a [`MdEvent::Start`].
#[derive(Debug)]
pub enum MdTag {
    Heading(u8),
    Paragraph,
    /// A fenced code block with its info string, which may be empty.
    FencedCode(String),
    IndentedCode,
    BlockQuote,
    /// A list; ordered lists carry the number of their first item.
    List(Option<u64>),
    Item,
    Emphasis,
    Strong,
    Strikethrough,
    /// A link with its destination.
    Link(String),
    /// Any element that the assembler ignores.
    Other,
}

/// Mathematical model of a [`MdTag`].
pub ghost enum MdTagView {
    Heading(u8),
    Paragraph,
    FencedCode(Seq<char>),
    IndentedCode,
    BlockQuote,
    List(Option<u64>),
    Item,
    Emphasis,
    Strong,
    Strikethrough,
    Link(Seq<char>),
    Other,
}

impl DeepView for MdTag {
    type V = MdTagView;

    open spec fn deep_view(&self) -> MdTagView {
        match *self {
            MdTag::Heading(level) => MdTagView::Heading(level),
            MdTag::Paragraph => MdTagView::Paragraph,
            MdTag::FencedCode(info) => MdTagView::FencedCode(info@),
            MdTag::IndentedCode => MdTagView::IndentedCode,
            MdTag::BlockQuote => MdTagView::BlockQuote,
            MdTag::List(start) => MdTagView::List(start),
            MdTag::Item => MdTagView::Item,
            MdTag::Emphasis => MdTagView::Emphasis,
            MdTag::Strong => MdTagView::Strong,
            MdTag::Strikethrough => MdTagView::Strikethrough,
            MdTag::Link(url) => MdTagView::Link(url@),
            MdTag::Other => MdTagView::Other,
        }
    }
}

impl View for MdTag {
    type V = MdTagView;

    open spec fn view(&self) -> MdTagView {
        self.deep_view()
    }
}

/// The element that a [`MdEvent::End`] closes.
#[derive(Clone, Copy, Debug, PartialEq, Eq, Structural)]
pub enum MdTagEnd {
    Heading,
    Paragraph,
    CodeBlock,
    BlockQuote,
    List,
    Item,
    Emphasis,
    Strong,
    Strikethrough,
    Link,
    /// Any element that the assembler ignores.
    Other,
}

/// One event of the parser's stream.
#[derive(Debug)]
pub enum MdEvent {
    Start(MdTag),
    End(MdTagEnd),
    Text(String),
    /// An inline code span.
    Code(String),
    SoftBreak,
    HardBreak,
    Rule,
    /// Any event that the assembler ignores.
    Other,
}

/// Mathematical model of a [`MdEvent`].
pub ghost enum MdEventView {
    Start(MdTagView),
    End(MdTagEnd),
    Text(Seq<char>),
    Code(Seq<char>),
    SoftBreak,
    HardBreak,
    Rule,
    Other,
}

impl DeepView for MdEvent {
    type V = MdEventView;

    open spec fn deep_view(&self) -> MdEventView {
        match *self {
            MdEvent::Start(tag) => MdEventView::Start(tag@),
            MdEvent::End(tag) => MdEventView::End(tag),
            MdEvent::Text(text) => MdEventView::Text(text@),
            MdEvent::Code(code) => MdEventView::Code(code@),
            MdEvent::SoftBreak => MdEventView::SoftBreak,
            MdEvent::HardBreak => MdEventView::HardBreak,
            MdEvent::Rule => MdEventView::Rule,
            MdEvent::Other => MdEventView::Other,
        }
    }
}

impl View for MdEvent {
    type V = MdEventView;

    open spec fn view(&self) -> MdEventView {
        self.deep_view()
    }
}

#[verifier::external_type_specification]
#[verifier::external_body]
pub struct ExEvent<'a>(Event<'a>);

#[verifier::external_type_specification]
#[verifier::external_body]
pub struct ExTag<'a>(Tag<'a>);

#[verifier::external_type_specification]
#[verifier::external_body]
pub struct ExTagEnd(TagEnd);

#[verifier::external_type_specification]
#[verifier::external_body]
pub struct ExHeadingLevel(HeadingLevel);

#[verifier::external_type_specification]
#[verifier::external_body]
pub struct ExCodeBlockKind<'a>(CodeBlockKind<'a>);

/// A parser event taken apart one level: the variants that the assembler
/// reads, with what they carry still in the parser's own types.
enum RawEvent<'a> {
    Start(Tag<'a>),
    End(TagEnd),
    Text(String),
    Code(String),
    SoftBreak,
    HardBreak,
    Rule,
    Other,
}

/// A parser tag taken apart one level.
enum RawTag<'a> {
    Heading(HeadingLevel),
    Paragraph,
    CodeBlock(CodeBlockKind<'a>),
    BlockQuote,
    List(Option<u64>),
    Item,
    Emphasis,
    Strong,
    Strikethrough,
    Link(String),
    Other,
}

/// Tells the variants of `pulldown_cmark::Event` apart. Text and inline code
/// are copied into owned strings; every variant that is not named here comes
/// out as `Other`. Nothing is claimed of the result.
#[verifier::external_body]
fn split_event<'a>(event: &Event<'a>) -> (raw: RawEvent<'a>) {
    match event {
        Event::Start(tag) => RawEvent::Start(tag.clone()),
        Event::End(tag) => RawEvent::End(*tag),
        Event::Text(text) => RawEvent::Text(text.to_string()),
        Event::Code(code) => RawEvent::Code(code.to_string()),
        Event::SoftBreak => RawEvent::SoftBreak,
        Event::HardBreak => RawEvent::HardBreak,
        Event::Rule => RawEvent::Rule,
        _ => RawEvent::Other,
    }
}

/// Tells the variants of `pulldown_cmark::Tag` apart. A link keeps its
/// destination only; every variant that is not named here comes out as
/// `Other`. Nothing is claimed of the result.
#[verifier::external_body]
fn split_tag<'a>(tag: Tag<'a>) -> (raw: RawTag<'a>) {
    match tag {
        Tag::Heading { level, .. } => RawTag::Heading(level),
        Tag::Paragraph => RawTag::Paragraph,
        Tag::CodeBlock(kind) => RawTag::CodeBlock(kind),
        Tag::BlockQuote(_) => RawTag::BlockQuote,
        Tag::List(start) => RawTag::List(start),
        Tag::Item => RawTag::Item,
        Tag::Emphasis => RawTag::Emphasis,
        Tag::Strong => RawTag::Strong,
        Tag::Strikethrough => RawTag::Strikethrough,
        Tag::Link { dest_url, .. } => RawTag::Link(dest_url.to_string()),
        _ => RawTag::Other,
    }
}

/// Tells the variants of `pulldown_cmark::TagEnd` apart; every variant that
/// is not named here comes out as `Other`. Nothing is claimed of the result.
#[verifier::external_body]
fn split_tag_end(tag: TagEnd) -> (end: MdTagEnd) {
    match tag {
        TagEnd::Heading(_) => MdTagEnd::Heading,
        TagEnd::Paragraph => MdTagEnd::Paragraph,
        TagEnd::CodeBlock => MdTagEnd::CodeBlock,
        TagEnd::BlockQuote(_) => MdTagEnd::BlockQuote,
        TagEnd::List(_) => MdTagEnd::List,
        TagEnd::Item => MdTagEnd::Item,
        TagEnd::Emphasis => MdTagEnd::Emphasis,
        TagEnd::Strong => MdTagEnd::Strong,
        TagEnd::Strikethrough => MdTagEnd::Strikethrough,
        TagEnd::Link => MdTagEnd::Link,
        _ => MdTagEnd::Other,
    }
}

/// The number of a `pulldown_cmark::HeadingLevel`, which has the six
/// variants `H1` to `H6`: the result is between 1 and 6.
#[verifier::external_body]
fn heading_level_to_u8(level: HeadingLevel) -> (n: u8)
    ensures
        1 <= n <= 6,
{
    match level {
        HeadingLevel::H1 => 1,
        HeadingLevel::H2 => 2,
        HeadingLevel::H3 => 3,
        HeadingLevel::H4 => 4,
        HeadingLevel::H5 => 5,
        HeadingLevel::H6 => 6,
    }
}

/// Tells the two variants of `pulldown_cmark::CodeBlockKind` apart: the info
/// string of a fenced block, `None` for an indented one. Nothing is claimed
/// of the result.
#[verifier::external_body]
fn fence_info<'a>(kind: CodeBlockKind<'a>) -> (info: Option<String>) {
    match kind {
        CodeBlockKind::Fenced(info) => Some(info.to_string()),
        CodeBlockKind::Indented => None,
    }
}

/// The tag of a start event as a plain value.
fn convert_tag<'a>(tag: Tag<'a>) -> (out: MdTag)
    ensures
        out@ matches MdTagView::Heading(level) ==> 1 <= level <= 6,
{
    match split_tag(tag) {
        RawTag::Heading(level) => MdTag::Heading(heading_level_to_u8(level)),
        RawTag::Paragraph => MdTag::Paragraph,
        RawTag::CodeBlock(kind) => match fence_info(kind) {
            Some(info) => MdTag::FencedCode(info),
            None => MdTag::IndentedCode,
        },
        RawTag::BlockQuote => MdTag::BlockQuote,
        RawTag::List(start) => MdTag::List(start),
        RawTag::Item => MdTag::Item,
        RawTag::Emphasis => MdTag::Emphasis,
        RawTag::Strong => MdTag::Strong,
        RawTag::Strikethrough => MdTag::Strikethrough,
        RawTag::Link(url) => MdTag::Link(url),
        RawTag::Other => MdTag::Other,
    }
}

/// One parser event as a plain value.
fn convert_event<'a>(event: &Event<'a>) -> (out: MdEvent)
    ensures
        out@ matches MdEventView::Start(MdTagView::Heading(level)) ==> 1 <= level <= 6,
{
    match split_event(event) {
        RawEvent::Start(tag) => MdEvent::Start(convert_tag(tag)),
        RawEvent::End(tag) => MdEvent::End(split_tag_end(tag)),
        RawEvent::Text(text) => MdEvent::Text(text),
        RawEvent::Code(code) => MdEvent::Code(code),
        RawEvent::SoftBreak => MdEvent::SoftBreak,
        RawEvent::HardBreak => MdEvent::HardBreak,
        RawEvent::Rule => MdEvent::Rule,
        RawEvent::Other => MdEvent::Other,
    }
}

/// What the parser makes of a text: the events of
/// `pulldown_cmark::Parser::new_ext` with the strikethrough and table
/// extensions, each as a plain value.
pub uninterp spec fn parsed_events(source: Seq<char>) -> Seq<MdEventView>;

/// Whether every heading that a stream of events starts has a level
/// between 1 and 6.
pub open spec fn heading_levels_in_range(events: Seq<MdEventView>) -> bool {
    forall|i: int|
        0 <= i < events.len() ==> (#[trigger] events[i] matches MdEventView::Start(
            MdTagView::Heading(level),
        ) ==> 1 <= level <= 6)
}

/// Runs `pulldown_cmark::Parser::new_ext` over a text, with the
/// strikethrough and table extensions switched on, and hands back its events
/// as plain values. The events are a function of the text alone; they are
/// named, not spelled out. A heading level of the parser is one of six, so
/// every heading that the events start has a level between 1 and 6.
#[verifier::external_body]
pub(crate) fn markdown_events(source: &str) -> (events: Vec<MdEvent>)
    ensures
        events.deep_view() == parsed_events(source@),
        heading_levels_in_range(events.deep_view()),
{
    let mut options = Options::empty();
    options.insert(Options::ENABLE_STRIKETHROUGH);
    options.insert(Options::ENABLE_TABLES);
    Parser::new_ext(source, options).map(|event| convert_event(&event)).collect()
}

} // verus!
