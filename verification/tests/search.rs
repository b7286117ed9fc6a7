use barkdocs::app::PaneState;
use barkdocs::markdown::Document;
use barkdocs::search::{char_offset, find_matches, line_matches, SearchError, SearchMatch};
use barkdocs::style::{Line, Style};
use barkdocs::theme::Theme;

fn plain_style() -> Style {
    Style { fg: None, bg: None, bold: false, italic: false, underlined: false, crossed_out: false }
}

fn buffer_of(texts: &[&str]) -> Vec<Line> {
    texts
        .iter()
        .map(|t| if t.is_empty() { Line::blank() } else { Line::styled(t.to_string(), plain_style()) })
        .collect()
}

fn m(line: usize, start: usize, end: usize) -> SearchMatch {
    SearchMatch { line, start, end }
}

#[test]
fn regex_finds_the_link() {
    let mut doc = Document::parse("# Title\n\nHello [link](test.md) world");
    let buffer = doc.render(&Theme::default());
    let found = find_matches(&buffer, "l.nk", true).unwrap();
    assert_eq!(found, vec![m(2, 6, 10)]);
}

#[test]
fn matches_come_line_by_line_from_left_to_right() {
    let buffer = buffer_of(&["abc abc", "", "xabcx", "ab"]);
    let found = find_matches(&buffer, "abc", false).unwrap();
    assert_eq!(found, vec![m(0, 0, 3), m(0, 4, 7), m(2, 1, 4)]);
    // Matches do not overlap.
    let found = find_matches(&buffer_of(&["aaaa"]), "aa", false).unwrap();
    assert_eq!(found, vec![m(0, 0, 2), m(0, 2, 4)]);
}

#[test]
fn a_line_is_searched_across_its_spans() {
    let mut doc = Document::parse("Hello [link](test.md) world");
    let buffer = doc.render(&Theme::default());
    assert!(buffer[0].spans.len() > 1);
    let found = find_matches(&buffer, "o link w", false).unwrap();
    assert_eq!(found, vec![m(0, 4, 12)]);
}

#[test]
fn literal_search_escapes_the_query() {
    let buffer = buffer_of(&["a.c abc a+c", "(x)[y]{z} ^$ \\d 1|2 *?"]);
    assert_eq!(find_matches(&buffer, "a.c", false).unwrap(), vec![m(0, 0, 3)]);
    assert_eq!(
        find_matches(&buffer, "a.c", true).unwrap(),
        vec![m(0, 0, 3), m(0, 4, 7), m(0, 8, 11)]
    );
    assert_eq!(find_matches(&buffer, "a+c", false).unwrap(), vec![m(0, 8, 11)]);
    for query in ["(x)", "[y]", "{z}", "^$", "\\d", "1|2", "*?", "(", "[", "\\"] {
        let found = find_matches(&buffer, query, false).unwrap();
        assert_eq!(found.len(), 1, "query {:?}", query);
        let text: Vec<char> = buffer[1].text().chars().collect();
        let hit: String = text[found[0].start..found[0].end].iter().collect();
        assert_eq!(hit, query);
    }
}

#[test]
fn literal_search_is_regex_search_of_the_escaped_query() {
    let buffer = buffer_of(&["a.c abc (x) a.c", "", "[a.c]"]);
    for query in ["a.c", "(x)", "[", "abc", "c ("] {
        let literal = find_matches(&buffer, query, false).unwrap();
        let escaped = regex::escape(query);
        let regex = find_matches(&buffer, &escaped, true).unwrap();
        assert_eq!(literal, regex);
    }
}

#[test]
fn invalid_regex_is_an_error() {
    let buffer = buffer_of(&["abc"]);
    assert_eq!(find_matches(&buffer, "a(", true), Err(SearchError::InvalidPattern));
    assert_eq!(find_matches(&buffer, "[", true), Err(SearchError::InvalidPattern));
    assert_eq!(SearchError::InvalidPattern.message(), "Invalid regex");
    // The same text is fine as a literal query.
    assert_eq!(find_matches(&buffer_of(&["a(b"]), "a(", false).unwrap(), vec![m(0, 0, 2)]);
}

#[test]
fn offsets_count_characters() {
    let buffer = buffer_of(&["│ żółw ab", "• ab"]);
    let found = find_matches(&buffer, "ab", false).unwrap();
    assert_eq!(found, vec![m(0, 7, 9), m(1, 2, 4)]);
    let chars: Vec<char> = "│ żółw".chars().collect();
    assert_eq!(char_offset(&chars, 0), 0);
    assert_eq!(char_offset(&chars, 3), 1);
    assert_eq!(char_offset(&chars, 4), 2);
    assert_eq!(char_offset(&chars, 6), 3);
    assert_eq!(char_offset(&chars, 5), 2);
    assert_eq!(char_offset(&chars, 100), 6);
    let four: Vec<char> = "a😀b".chars().collect();
    assert_eq!(char_offset(&four, 5), 2);
    assert_eq!(
        line_matches(7, "a😀b", &vec![(1, 5), (5, 6)]),
        vec![m(7, 1, 2), m(7, 2, 3)]
    );
    assert!(line_matches(0, "abc", &vec![]).is_empty());
}

#[test]
fn empty_query_changes_nothing() {
    let buffer = buffer_of(&["one", "two", "one two"]);
    let mut pane = PaneState::new();
    pane.scroll = 1;
    assert_eq!(pane.search("two", &buffer), Ok(Some(2)));
    pane.next_match(buffer.len());
    let matches = pane.search_matches.clone();
    for regex in [false, true] {
        pane.search_is_regex = regex;
        assert_eq!(pane.search("", &buffer), Ok(None));
        assert_eq!(pane.search_matches, matches);
        assert_eq!(pane.current_match, 1);
        assert_eq!(pane.search_is_regex, regex);
        assert_eq!(pane.search_query, "two");
        assert_eq!(pane.scroll, 2);
    }
}

#[test]
fn invalid_regex_leaves_the_pane_alone() {
    let buffer = buffer_of(&["one", "two", "one two"]);
    let mut pane = PaneState::new();
    assert_eq!(pane.search("one", &buffer), Ok(Some(2)));
    pane.search_is_regex = true;
    assert_eq!(pane.search("(", &buffer), Err(SearchError::InvalidPattern));
    assert_eq!(pane.search_matches, vec![m(0, 0, 3), m(2, 0, 3)]);
    assert_eq!(pane.search_query, "one");
    assert!(pane.search_is_regex);
}

#[test]
fn search_moves_to_the_first_match() {
    let buffer = buffer_of(&["a", "b", "c", "needle", "e", "needle"]);
    let mut pane = PaneState::new();
    pane.current_match = 5;
    assert_eq!(pane.search("needle", &buffer), Ok(Some(2)));
    assert_eq!(pane.current_match, 0);
    assert_eq!(pane.scroll, 3);
    assert_eq!(pane.search("absent", &buffer), Ok(Some(0)));
    assert!(pane.search_matches.is_empty());
    assert_eq!(pane.scroll, 3);
    assert_eq!(pane.search_query, "absent");
}

#[test]
fn matches_are_walked_around_the_ends() {
    let buffer = buffer_of(&["x", "", "x", "", "x"]);
    let mut pane = PaneState::new();
    pane.search("x", &buffer).unwrap();
    let mut seen = Vec::new();
    for _ in 0..4 {
        pane.next_match(buffer.len());
        seen.push((pane.current_match, pane.scroll));
    }
    assert_eq!(seen, vec![(1, 2), (2, 4), (0, 0), (1, 2)]);
    let mut seen = Vec::new();
    for _ in 0..4 {
        pane.prev_match(buffer.len());
        seen.push((pane.current_match, pane.scroll));
    }
    assert_eq!(seen, vec![(0, 0), (2, 4), (1, 2), (0, 0)]);
    // Without matches nothing moves.
    let mut empty = PaneState::new();
    empty.scroll = 3;
    empty.current_match = 9;
    empty.next_match(5);
    empty.prev_match(5);
    assert_eq!((empty.scroll, empty.current_match), (3, 9));
    // A match on a line behind the buffer scrolls to the last line.
    pane.search_matches = vec![m(40, 0, 1)];
    pane.current_match = 0;
    pane.next_match(buffer.len());
    assert_eq!(pane.scroll, 4);
}

#[test]
fn split_pane_starts_without_search() {
    let buffer = buffer_of(&["x", "y", "x"]);
    let mut pane = PaneState::new();
    pane.search_is_regex = true;
    pane.search("x", &buffer).unwrap();
    pane.next_match(buffer.len());
    pane.horizontal_scroll = 8;
    let other = pane.clone_for_split();
    assert_eq!(other.scroll, 2);
    assert_eq!(other.horizontal_scroll, 8);
    assert!(other.search_matches.is_empty());
    assert!(other.search_query.is_empty());
    assert!(!other.search_is_regex);
    assert_eq!(other.current_match, 0);
}

#[test]
fn every_character_is_found_as_itself() {
    let meta = "\\.+*?()|[]{}^$#&-~";
    for code in 0x20..0x7Fu32 {
        let c = char::from_u32(code).unwrap();
        let line: String = ['a', c, 'b', 'c'].iter().collect();
        let buffer = buffer_of(&[line.as_str()]);
        let query = c.to_string();
        let found = find_matches(&buffer, &query, false).unwrap();
        let expected: Vec<SearchMatch> = line
            .chars()
            .enumerate()
            .filter(|(_, x)| *x == c)
            .map(|(i, _)| m(0, i, i + 1))
            .collect();
        assert_eq!(found, expected, "query {:?}", query);
        let escaped = if meta.contains(c) { format!("\\{}", c) } else { query.clone() };
        assert_eq!(regex::escape(&query), escaped);
    }
}

#[test]
fn matches_lie_in_the_buffer_in_order() {
    let buffer = buffer_of(&["äö aa ä", "", "aaa äa"]);
    for (query, is_regex) in [("a*", true), ("a", false), ("ä", false), ("", true), (".", true)] {
        let found = find_matches(&buffer, query, is_regex).unwrap();
        for hit in &found {
            assert!(hit.line < buffer.len());
            assert!(hit.start <= hit.end);
            assert!(hit.end <= buffer[hit.line].text().chars().count());
        }
        for pair in found.windows(2) {
            assert!(
                pair[0].line < pair[1].line
                    || (pair[0].line == pair[1].line && pair[0].end <= pair[1].start)
            );
        }
    }
    assert_eq!(find_matches(&buffer, "ä", false).unwrap(), vec![m(0, 0, 1), m(0, 6, 7), m(2, 4, 5)]);
}
