use barkdocs::app::AppState;
use barkdocs::config::Config;
use barkdocs::display::{apply_horizontal_scroll, apply_search_highlighting, mark_matches};
use barkdocs::search::SearchMatch;
use barkdocs::storage::{Bookmarks, History};
use barkdocs::style::{Line, Span, Style};
use barkdocs::theme::Theme;

fn plain_style() -> Style {
    Style { fg: None, bg: None, bold: false, italic: false, underlined: false, crossed_out: false }
}

fn line(text: &str) -> Line {
    Line::styled(text.to_string(), Style { bold: true, ..plain_style() })
}

fn m(line: usize, start: usize, end: usize) -> SearchMatch {
    SearchMatch { line, start, end }
}

fn parts(line: &Line) -> Vec<(&str, Style)> {
    line.spans.iter().map(|s| (s.text.as_str(), s.style)).collect()
}

#[test]
fn matches_are_marked_between_the_rest_of_the_text() {
    let theme = Theme::default();
    let text = Style { fg: Some(theme.text), ..plain_style() };
    let hit = Style {
        fg: Some(theme.highlight_match_fg),
        bg: Some(theme.highlight_match_bg),
        bold: true,
        ..plain_style()
    };
    let source = line("one two żółw two");
    let matches = vec![m(0, 0, 3), m(4, 4, 7), m(4, 13, 16), m(5, 0, 1)];
    let marked = mark_matches(&source, &matches, 4, &theme);
    assert_eq!(
        parts(&marked),
        vec![("one ", text), ("two", hit), (" żółw ", text), ("two", hit)]
    );
    assert_eq!(marked.style, plain_style());
    let marked = mark_matches(&source, &matches, 0, &theme);
    assert_eq!(parts(&marked), vec![("one", hit), (" two żółw two", text)]);
    // A line without matches stays as it is.
    let same = mark_matches(&source, &matches, 3, &theme);
    assert_eq!(parts(&same), parts(&source));
    assert_eq!(same.style, source.style);
    // Matches that do not fit the text are cut to it.
    let odd = vec![m(0, 14, 99), m(0, 5, 2)];
    let marked = mark_matches(&source, &odd, 0, &theme);
    assert_eq!(
        parts(&marked),
        vec![("one two żółw t", text), ("wo", hit), ("", hit), ("e two żółw two", text)]
    );
}

#[test]
fn a_window_is_marked_by_buffer_lines() {
    let theme = Theme::nord();
    let lines = vec![line("ab"), line("cd"), line("ab")];
    let matches = vec![m(10, 0, 1), m(12, 1, 2)];
    let marked = apply_search_highlighting(&lines, &matches, 10, &theme);
    assert_eq!(marked.len(), 3);
    assert_eq!(marked[0].spans.len(), 2);
    assert_eq!(marked[0].spans[0].text, "a");
    assert_eq!(marked[1].spans.len(), 1);
    assert_eq!(marked[1].style, lines[1].style);
    assert_eq!(marked[2].spans[1].text, "b");
    assert!(apply_search_highlighting(&Vec::new(), &matches, 0, &theme).is_empty());
}

#[test]
fn horizontal_scroll_cuts_the_start_of_a_line() {
    let source = Line::from_spans(vec![
        Span { text: "│ ".to_string(), style: Style { bold: true, ..plain_style() } },
        Span { text: "żółw".to_string(), style: plain_style() },
    ]);
    let same = apply_horizontal_scroll(source.clone(), 0);
    assert_eq!(parts(&same), parts(&source));
    let cut = apply_horizontal_scroll(source.clone(), 3);
    assert_eq!(parts(&cut), vec![("ółw", plain_style())]);
    assert!(apply_horizontal_scroll(source.clone(), 6).spans.is_empty());
    assert!(apply_horizontal_scroll(source, usize::MAX).spans.is_empty());
    assert!(apply_horizontal_scroll(Line::blank(), 1).spans.is_empty());
}

#[test]
fn a_pane_shows_its_window() {
    let mut state = AppState::new(&Config::default(), History::new(), Bookmarks::new());
    let source: String = (0..6).map(|i| format!("line {}\n\n", i)).collect();
    state.load_file("/x.md", Some("x.md"), &source, None);
    let texts = |lines: &[Line]| lines.iter().map(|l| l.text()).collect::<Vec<_>>();
    assert_eq!(texts(&state.pane_lines(0, 3)), vec!["line 0", "", "line 1"]);
    state.go_to_line(10);
    assert_eq!(texts(&state.pane_lines(0, 5)), vec!["line 5", ""]);
    state.view.panes[0].scroll = 500;
    assert_eq!(texts(&state.pane_lines(0, 5)), vec![""]);
    assert!(state.pane_lines(0, 0).is_empty());
    state.go_to_line(4);
    state.apply_search("ne");
    state.go_to_line(4);
    let shown = state.pane_lines(0, 2);
    assert_eq!(shown[0].spans.len(), 3);
    assert_eq!(shown[0].spans[1].text, "ne");
    assert_eq!(shown[1].spans.len(), 0);
    state.toggle_line_wrap();
    state.scroll_right();
    let shown = state.pane_lines(0, 2);
    assert_eq!(texts(&shown), vec![" 2", ""]);
    assert_eq!(shown[0].spans.len(), 1);
    let empty = AppState::new(&Config::default(), History::new(), Bookmarks::new());
    assert!(empty.pane_lines(0, 10).is_empty());
}
