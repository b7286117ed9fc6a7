use barkdocs::assembler::assemble;
use barkdocs::events::{MdEvent, MdTag, MdTagEnd};
use barkdocs::highlight::{run_or_plain, SyntaxHighlighter, Token, TokenStyle};
use barkdocs::markdown::{Block, Document, StyledSpan};
use barkdocs::render::{render_block, render_blocks, render_code_block, render_span};
use barkdocs::style::{Color, Line, Style};
use barkdocs::theme::Theme;

fn texts(lines: &[Line]) -> Vec<String> {
    lines.iter().map(|line| line.text()).collect()
}

fn span_texts(spans: &[StyledSpan]) -> Vec<&str> {
    spans.iter().map(|span| span.text.as_str()).collect()
}

#[test]
fn title_and_link_are_assembled() {
    let doc = Document::parse("# Title\n\nHello [link](test.md) world");
    assert_eq!(doc.blocks.len(), 2);
    match &doc.blocks[0] {
        Block::Heading { level, spans } => {
            assert_eq!(*level, 1);
            assert_eq!(span_texts(spans), vec!["Title"]);
        }
        other => panic!("unexpected block {:?}", other),
    }
    match &doc.blocks[1] {
        Block::Paragraph { spans } => {
            assert_eq!(span_texts(spans), vec!["Hello ", "link", " world"]);
            assert_eq!(spans[0].style.link_url, None);
            assert_eq!(spans[1].style.link_url.as_deref(), Some("test.md"));
            assert_eq!(spans[2].style.link_url, None);
        }
        other => panic!("unexpected block {:?}", other),
    }
    assert_eq!(doc.headings.len(), 1);
    assert_eq!(doc.headings[0].level, 1);
    assert_eq!(doc.headings[0].text, "Title");
    assert_eq!(doc.headings[0].logical_line, 0);
    assert_eq!(doc.headings[0].rendered_line, 0);
    assert_eq!(doc.links.len(), 1);
    assert_eq!(doc.links[0].url, "test.md");
    assert_eq!(doc.links[0].text, "link");
    assert_eq!(doc.links[0].logical_line, 1);
}

#[test]
fn title_and_link_are_rendered() {
    for name in Theme::available_themes() {
        let theme = Theme::by_name(name);
        let mut doc = Document::parse("# Title\n\nHello [link](test.md) world");
        let lines = doc.render(&theme);
        assert_eq!(texts(&lines), vec!["# Title", "", "Hello link world", ""]);
        assert_eq!(doc.headings[0].rendered_line, 0);
    }
}

#[test]
fn code_block_takes_four_lines() {
    let source = "```python\nprint(1)\n```";
    let theme = Theme::default();
    let mut plain = Document::parse(source);
    let without = plain.render_with_highlighting(&theme, None);
    assert_eq!(texts(&without), vec!["```python", "  print(1)", "```", ""]);
    let highlighter = SyntaxHighlighter::default();
    let mut coloured = Document::parse(source);
    let with = coloured.render_with_highlighting(&theme, Some(&highlighter));
    assert_eq!(with.len(), 4);
    assert_eq!(texts(&with), texts(&without));
    // Highlighted code comes as an indent and token runs on the code background.
    assert!(with[1].spans.len() >= 2);
    assert_eq!(with[1].spans[0].text, "  ");
    for span in &with[1].spans {
        assert_eq!(span.style.bg, Some(theme.code_block_bg));
    }
    // Without a highlighter the line is one span in one colour.
    assert_eq!(without[1].spans.len(), 1);
    assert_eq!(without[1].style.fg, Some(theme.code_inline));
    assert_eq!(without[1].style.bg, Some(theme.code_block_bg));
}

#[test]
fn render_twice_gives_the_same_buffer() {
    let source = "# One\n\ntext *em* **strong** `code`\n\n- a\n- b\n\n> quote\n\n---\n\n## Two\n\n```rust\nfn main() {}\n```\n";
    let theme = Theme::nord();
    let mut doc = Document::parse(source);
    let first = doc.render(&theme);
    let positions: Vec<usize> = doc.headings.iter().map(|h| h.rendered_line).collect();
    let second = doc.render(&theme);
    assert_eq!(texts(&first), texts(&second));
    for (a, b) in first.iter().zip(second.iter()) {
        assert_eq!(a.style, b.style);
        assert_eq!(a.spans.len(), b.spans.len());
        for (x, y) in a.spans.iter().zip(b.spans.iter()) {
            assert_eq!(x.text, y.text);
            assert_eq!(x.style, y.style);
        }
    }
    let again: Vec<usize> = doc.headings.iter().map(|h| h.rendered_line).collect();
    assert_eq!(positions, again);
    let highlighter = SyntaxHighlighter::default();
    let one = doc.render_with_highlighting(&theme, Some(&highlighter));
    let two = doc.render_with_highlighting(&theme, Some(&highlighter));
    assert_eq!(texts(&one), texts(&two));
    assert_eq!(texts(&one), texts(&first));
}

#[test]
fn heading_lines_grow_through_the_document() {
    let source = "# A\n\npara\n\n## B\n\n```\nx\ny\n```\n\n### C\n\n- one\n- two\n\n#### D\n";
    let mut doc = Document::parse(source);
    let lines = doc.render(&Theme::default());
    let positions: Vec<usize> = doc.headings.iter().map(|h| h.rendered_line).collect();
    assert_eq!(positions, vec![0, 4, 11, 16]);
    for (heading, &line) in doc.headings.iter().zip(positions.iter()) {
        let marker = "#".repeat(heading.level as usize);
        assert_eq!(lines[line].text(), format!("{} {}", marker, heading.text));
    }
    let logical: Vec<usize> = doc.headings.iter().map(|h| h.logical_line).collect();
    assert_eq!(logical, vec![0, 2, 7, 11]);
    assert_eq!(doc.line_count(), lines.len());
    assert_eq!(lines.len(), 18);
}

#[test]
fn logical_lines_of_links() {
    let source = "[a](one.md)\n\n```\nc1\nc2\nc3\n```\n\n- item [b](two.md)\n- [c *d*](three.md)\n\n[e](four.md)\n";
    let doc = Document::parse(source);
    let links: Vec<(&str, &str, usize)> = doc
        .links
        .iter()
        .map(|l| (l.url.as_str(), l.text.as_str(), l.logical_line))
        .collect();
    assert_eq!(
        links,
        vec![
            ("one.md", "a", 0),
            ("two.md", "b", 6),
            ("three.md", "c ", 7),
            ("three.md", "d", 7),
            ("four.md", "e", 9),
        ]
    );
    assert_eq!(doc.link_at_line(7).map(|l| l.text.as_str()), Some("c "));
    assert_eq!(doc.link_at_line(0).map(|l| l.url.as_str()), Some("one.md"));
    assert!(doc.link_at_line(3).is_none());
}

#[test]
fn list_and_quote_assemble_without_paragraphs() {
    let doc = Document::parse("3. three\n4. four\n\n> quoted *text*\n\n    indented\n");
    assert_eq!(doc.blocks.len(), 3);
    match &doc.blocks[0] {
        Block::List { ordered, start, items } => {
            assert!(*ordered);
            assert_eq!(*start, Some(3));
            assert_eq!(items.len(), 2);
            assert_eq!(span_texts(&items[0].spans), vec!["three"]);
            assert_eq!(span_texts(&items[1].spans), vec!["four"]);
        }
        other => panic!("unexpected block {:?}", other),
    }
    match &doc.blocks[1] {
        Block::BlockQuote { spans } => {
            assert_eq!(span_texts(spans), vec!["quoted ", "text"]);
            assert!(spans[1].style.italic);
        }
        other => panic!("unexpected block {:?}", other),
    }
    match &doc.blocks[2] {
        Block::CodeBlock { language, code } => {
            assert_eq!(*language, None);
            assert_eq!(code, "indented\n");
        }
        other => panic!("unexpected block {:?}", other),
    }
    let mut doc = doc;
    let lines = doc.render(&Theme::default());
    assert_eq!(
        texts(&lines),
        vec!["3. three", "4. four", "", "│ quoted text", "```", "  indented", "```", ""]
    );
}

#[test]
fn assemble_takes_events_as_they_come() {
    let events = vec![
        MdEvent::Start(MdTag::Heading(2)),
        MdEvent::Text("Ti".to_string()),
        MdEvent::Start(MdTag::Strong),
        MdEvent::Text("tle".to_string()),
        MdEvent::End(MdTagEnd::Strong),
        MdEvent::End(MdTagEnd::Heading),
        MdEvent::Start(MdTag::FencedCode(String::new())),
        MdEvent::Text("a\nb\n".to_string()),
        MdEvent::End(MdTagEnd::CodeBlock),
        MdEvent::Rule,
        MdEvent::Start(MdTag::Paragraph),
        MdEvent::Start(MdTag::Link("x.md".to_string())),
        MdEvent::Text("l".to_string()),
        MdEvent::SoftBreak,
        MdEvent::Code("c".to_string()),
        MdEvent::End(MdTagEnd::Link),
        MdEvent::HardBreak,
        MdEvent::Other,
        MdEvent::End(MdTagEnd::Paragraph),
        // An element that is never closed is left out.
        MdEvent::Start(MdTag::Paragraph),
        MdEvent::Text("open".to_string()),
    ];
    let doc = assemble(&events);
    assert_eq!(doc.blocks.len(), 4);
    assert_eq!(doc.headings.len(), 1);
    assert_eq!(doc.headings[0].text, "Title");
    assert_eq!(doc.headings[0].level, 2);
    match &doc.blocks[1] {
        Block::CodeBlock { language, code } => {
            assert_eq!(*language, None);
            assert_eq!(code, "a\nb\n");
        }
        other => panic!("unexpected block {:?}", other),
    }
    assert!(matches!(doc.blocks[2], Block::HorizontalRule));
    match &doc.blocks[3] {
        Block::Paragraph { spans } => {
            assert_eq!(span_texts(spans), vec!["l", " ", "c", " "]);
            assert_eq!(spans[1].style.link_url.as_deref(), Some("x.md"));
            assert!(spans[2].style.code);
            assert!(!spans[1].style.code);
            assert_eq!(spans[3].style.link_url, None);
        }
        other => panic!("unexpected block {:?}", other),
    }
    // The heading takes one line, the code block four, the rule one.
    assert_eq!(doc.links.len(), 1);
    assert_eq!(doc.links[0].logical_line, 6);
}

#[test]
fn empty_code_block_counts_one_line() {
    let events = vec![
        MdEvent::Start(MdTag::IndentedCode),
        MdEvent::End(MdTagEnd::CodeBlock),
        MdEvent::Start(MdTag::Heading(1)),
        MdEvent::End(MdTagEnd::Heading),
    ];
    let mut doc = assemble(&events);
    assert_eq!(doc.headings[0].logical_line, 3);
    let lines = doc.render(&Theme::default());
    assert_eq!(texts(&lines), vec!["```", "```", "", "# ", ""]);
    assert_eq!(doc.headings[0].rendered_line, 3);
}

fn span(text: &str) -> StyledSpan {
    StyledSpan { text: text.to_string(), style: Default::default() }
}

#[test]
fn span_rule_lets_the_link_win() {
    let theme = Theme::dracula();
    let base = Some(theme.heading_2);
    let plain = render_span(&span("t"), &theme, None);
    assert_eq!(plain.style, Style { fg: Some(theme.text), ..plain_style() });
    let in_heading = render_span(&span("t"), &theme, base);
    assert_eq!(in_heading.style.fg, Some(theme.heading_2));
    let mut s = span("t");
    s.style.bold = true;
    s.style.italic = true;
    s.style.strikethrough = true;
    let bold = render_span(&s, &theme, base);
    assert_eq!(
        bold.style,
        Style { fg: Some(theme.strong), bold: true, italic: true, crossed_out: true, ..plain_style() }
    );
    s.style.code = true;
    assert_eq!(render_span(&s, &theme, base).style.fg, Some(theme.code_inline));
    s.style.link_url = Some("u".to_string());
    let linked = render_span(&s, &theme, base);
    assert_eq!(
        linked.style,
        Style {
            fg: Some(theme.link),
            bg: None,
            bold: true,
            italic: true,
            underlined: true,
            crossed_out: true,
        }
    );
    assert_eq!(linked.text, "t");
}

fn plain_style() -> Style {
    Style { fg: None, bg: None, bold: false, italic: false, underlined: false, crossed_out: false }
}

#[test]
fn blocks_render_as_the_table_says() {
    let theme = Theme::gruvbox();
    let mut bold = span("b");
    bold.style.bold = true;
    let mut buffer = Vec::new();
    render_block(
        &Block::Heading { level: 3, spans: vec![span("h"), bold.clone()] },
        &theme,
        None,
        &mut buffer,
    );
    assert_eq!(texts(&buffer), vec!["### hb", ""]);
    assert_eq!(
        buffer[0].spans[0].style,
        Style { fg: Some(theme.heading_3), bold: true, ..plain_style() }
    );
    assert_eq!(buffer[0].spans[1].style.fg, Some(theme.heading_3));
    assert_eq!(buffer[0].spans[2].style.fg, Some(theme.strong));
    assert!(buffer[1].spans.is_empty());

    let mut buffer = Vec::new();
    render_block(
        &Block::Heading { level: 5, spans: vec![span("deep")] },
        &theme,
        None,
        &mut buffer,
    );
    assert_eq!(buffer[0].spans[0].text, "##### ");
    assert_eq!(buffer[0].spans[0].style.fg, Some(theme.heading_other));

    let mut buffer = Vec::new();
    render_block(&Block::BlockQuote { spans: vec![bold.clone()] }, &theme, None, &mut buffer);
    assert_eq!(texts(&buffer), vec!["│ b"]);
    assert_eq!(
        buffer[0].spans[1].style,
        Style { fg: Some(theme.blockquote), italic: true, ..plain_style() }
    );

    let mut buffer = Vec::new();
    render_block(&Block::HorizontalRule, &theme, None, &mut buffer);
    assert_eq!(buffer.len(), 2);
    assert_eq!(buffer[0].text().chars().count(), 40);
    assert!(buffer[0].text().chars().all(|c| c == '─'));
    assert_eq!(buffer[0].style.fg, Some(theme.horizontal_rule));

    let item = |t: &str| barkdocs::markdown::ListItem { spans: vec![span(t)] };
    let mut buffer = Vec::new();
    render_block(
        &Block::List { ordered: true, start: Some(9), items: vec![item("a"), item("b")] },
        &theme,
        None,
        &mut buffer,
    );
    assert_eq!(texts(&buffer), vec!["9. a", "10. b", ""]);
    assert_eq!(buffer[0].spans[0].style.fg, Some(theme.list_marker));
    let mut buffer = Vec::new();
    render_block(
        &Block::List { ordered: true, start: None, items: vec![item("a")] },
        &theme,
        None,
        &mut buffer,
    );
    assert_eq!(texts(&buffer), vec!["1. a", ""]);
    let mut buffer = Vec::new();
    render_block(
        &Block::List { ordered: true, start: Some(u64::MAX), items: vec![item("a"), item("b")] },
        &theme,
        None,
        &mut buffer,
    );
    assert_eq!(texts(&buffer), vec!["18446744073709551615. a", "18446744073709551616. b", ""]);
    let mut buffer = Vec::new();
    render_block(
        &Block::List { ordered: false, start: None, items: vec![item("a"), item("b")] },
        &theme,
        None,
        &mut buffer,
    );
    assert_eq!(texts(&buffer), vec!["• a", "• b", ""]);
}

#[test]
fn code_block_from_given_token_runs() {
    let theme = Theme::default();
    let style = TokenStyle {
        foreground: Color::Rgb(1, 2, 3),
        bold: true,
        italic: false,
        underline: true,
    };
    let runs = vec![
        vec![
            Token { style, text: "let".to_string() },
            Token { style: TokenStyle { bold: false, ..style }, text: " x".to_string() },
        ],
        vec![],
    ];
    let mut buffer = vec![Line::blank()];
    render_code_block(&Some("rs".to_string()), "ignored", &theme, Some(&runs), &mut buffer);
    assert_eq!(texts(&buffer), vec!["", "```rs", "  let x", "  ", "```", ""]);
    assert_eq!(buffer[1].style.fg, Some(theme.text_muted));
    assert_eq!(
        buffer[2].spans[1].style,
        Style {
            fg: Some(Color::Rgb(1, 2, 3)),
            bg: Some(theme.code_block_bg),
            bold: true,
            italic: false,
            underlined: true,
            crossed_out: false,
        }
    );
    assert!(!buffer[2].spans[2].style.bold);
    let mut buffer = Vec::new();
    render_code_block(&None, "a\r\nb\n\nc", &theme, None, &mut buffer);
    assert_eq!(texts(&buffer), vec!["```", "  a", "  b", "  ", "  c", "```", ""]);
}

#[test]
fn render_blocks_reports_heading_positions() {
    let blocks = vec![
        Block::Paragraph { spans: vec![span("p")] },
        Block::Heading { level: 1, spans: vec![span("a")] },
        Block::CodeBlock { language: None, code: "1\n2\n3".to_string() },
        Block::Heading { level: 2, spans: vec![span("b")] },
    ];
    let theme = Theme::default();
    let (buffer, positions) = render_blocks(&blocks, &theme, None);
    assert_eq!(positions, vec![2, 10]);
    assert_eq!(buffer.len(), 12);
    let highlighter = SyntaxHighlighter::new("InspiredGitHub");
    let (coloured, again) = render_blocks(&blocks, &theme, Some(&highlighter));
    assert_eq!(again, positions);
    assert_eq!(texts(&coloured), texts(&buffer));
}

#[test]
fn highlighter_returns_one_run_for_each_line() {
    let highlighter = SyntaxHighlighter::default();
    let code = "fn main() {\n    let x = 1;\n}\n";
    for language in [Some("rust"), Some("rs"), Some("no-such-language"), None] {
        let runs = highlighter.highlight(code, language);
        assert_eq!(runs.len(), 3);
        for (run, line) in runs.iter().zip(code.lines()) {
            let text: String = run.iter().map(|t| t.text.as_str()).collect();
            assert_eq!(text, line);
        }
    }
    assert!(highlighter.highlight("", Some("rust")).is_empty());
    let names = highlighter.available_themes();
    assert!(names.iter().any(|n| n == "base16-ocean.dark"));
    // A theme that is not known falls back to the first there is.
    let mut other = SyntaxHighlighter::new("no such theme");
    assert_eq!(other.highlight("x = 1", Some("py")).len(), 1);
    other.set_theme("Solarized (dark)");
    assert_eq!(other.highlight("x = 1\ny = 2", Some("py")).len(), 2);
}

#[test]
fn highlighting_gives_rust_keywords_a_colour_of_their_own() {
    let highlighter = SyntaxHighlighter::default();
    let runs = highlighter.highlight("fn main() {}", Some("rust"));
    let colours: std::collections::HashSet<_> =
        runs[0].iter().map(|t| format!("{:?}", t.style.foreground)).collect();
    assert!(colours.len() > 1);
}

#[test]
fn block_quote_takes_one_line() {
    let mut doc = Document::parse("> q\n\n# H");
    assert_eq!(doc.blocks.len(), 2);
    let theme = Theme::default();
    let lines = doc.render(&theme);
    assert_eq!(texts(&lines), vec!["│ q", "# H", ""]);
    assert_eq!(doc.headings[0].rendered_line, 1);
    assert_eq!(lines[0].spans[1].style.fg, Some(theme.blockquote));
    assert!(lines[0].spans[1].style.italic);
    let highlighter = SyntaxHighlighter::default();
    let again = doc.render_with_highlighting(&theme, Some(&highlighter));
    assert_eq!(texts(&again), vec!["│ q", "# H", ""]);
    assert_eq!(doc.headings[0].rendered_line, 1);
}

#[test]
fn failed_line_comes_back_plain() {
    let line = "let x = 1;".to_string();
    let kept = vec![
        Token {
            style: TokenStyle {
                foreground: Color::Rgb(1, 2, 3),
                bold: true,
                italic: false,
                underline: false,
            },
            text: "let".to_string(),
        },
        Token {
            style: TokenStyle {
                foreground: Color::Rgb(4, 5, 6),
                bold: false,
                italic: true,
                underline: false,
            },
            text: " x = 1;".to_string(),
        },
    ];
    let run = run_or_plain(Ok(kept), &line);
    assert_eq!(run.len(), 2);
    assert_eq!(run[0].text, "let");
    assert_eq!(run[0].style.foreground, Color::Rgb(1, 2, 3));
    assert!(run[0].style.bold);
    assert_eq!(run[1].text, " x = 1;");
    assert!(run[1].style.italic);

    let run = run_or_plain(Err(syntect::Error::Fmt(std::fmt::Error)), &line);
    assert_eq!(run.len(), 1);
    assert_eq!(run[0].text, "let x = 1;");
    assert_eq!(
        run[0].style,
        TokenStyle { foreground: Color::Rgb(0, 0, 0), bold: false, italic: false, underline: false }
    );
}

#[test]
fn highlighting_changes_colours_only() {
    let source = "# A\n\n```rust\nfn main() {}\nlet x = 1;\n```\n\n> q\n\n## B\n";
    let theme = Theme::dracula();
    let mut plain = Document::parse(source);
    let without = plain.render(&theme);
    let highlighter = SyntaxHighlighter::default();
    let mut coloured = Document::parse(source);
    let with = coloured.render_with_highlighting(&theme, Some(&highlighter));
    assert_eq!(texts(&with), texts(&without));
    let lines_of = |doc: &Document| doc.headings.iter().map(|h| h.rendered_line).collect::<Vec<_>>();
    assert_eq!(lines_of(&coloured), lines_of(&plain));
    assert_eq!(lines_of(&plain), vec![0, 8]);
    // A second render, of a document that was rendered before, gives the same.
    let again = coloured.render_with_highlighting(&theme, Some(&highlighter));
    assert_eq!(texts(&again), texts(&with));
    assert_eq!(lines_of(&coloured), vec![0, 8]);
    for (a, b) in again.iter().zip(with.iter()) {
        assert_eq!(a.spans.len(), b.spans.len());
        for (x, y) in a.spans.iter().zip(b.spans.iter()) {
            assert_eq!(x.style, y.style);
        }
    }
}
