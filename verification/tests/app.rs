use barkdocs::app::{AppState, Area, FocusedPanel, InputMode, PaneState, SplitDirection};
use barkdocs::config::{Config, Overrides};
use barkdocs::documents::{last_segment_of, next_index, FetchOutcome};
use barkdocs::github::FetchError;
use barkdocs::overlays::{replace_char, FileEntry, OpenAction};
use barkdocs::storage::{Bookmarks, History};

fn fresh() -> AppState {
    AppState::new(&Config::default(), History::new(), Bookmarks::new())
}

fn with_document(source: &str) -> AppState {
    let mut state = fresh();
    state.load_file("/docs/readme.md", Some("readme.md"), source, Some(100));
    state
}

fn numbered(lines: usize) -> String {
    (0..lines).map(|i| format!("line {}\n\n", i)).collect()
}

#[test]
fn search_stays_in_its_pane() {
    let mut state = with_document("# Title\n\nHello [link](test.md) world");
    state.split_vertical();
    assert_eq!(state.view.panes.len(), 2);
    assert_eq!(state.view.active_pane, 1);
    state.cycle_pane();
    assert_eq!(state.view.active_pane, 0);
    state.apply_search("link");
    assert_eq!(state.view.panes[0].search_query, "link");
    assert_eq!(state.view.panes[0].search_matches.len(), 1);
    assert!(state.view.panes[1].search_matches.is_empty());
    assert!(state.view.panes[1].search_query.is_empty());
    assert_eq!(state.ui.status_message.as_deref(), Some("1 matches found"));
}

#[test]
fn new_state_takes_the_settings() {
    let mut config = Config::default();
    config.theme = "Nord".to_string();
    config.line_wrap = false;
    config.show_outline = false;
    config.outline_width = 30;
    config.show_line_numbers = true;
    config.syntax_highlighting = false;
    config.auto_reload = true;
    let mut history = History::new();
    history.add_at("/a.md", false, "a", 1);
    let state = AppState::new(&config, history, Bookmarks::new());
    assert_eq!(state.prefs.theme.name, "nord");
    assert!(!state.prefs.line_wrap);
    assert!(!state.ui.show_outline);
    assert_eq!(state.ui.outline_width, 30);
    assert!(state.prefs.show_line_numbers);
    assert!(!state.prefs.syntax_highlighting);
    assert!(state.prefs.auto_reload);
    assert_eq!(state.library.history.entries().len(), 1);
    assert_eq!(state.view.panes.len(), 1);
    assert_eq!(state.ui.mode, InputMode::Normal);
    assert_eq!(state.view.split_direction, SplitDirection::Unsplit);
    assert!(state.doc.document.is_none());
    assert_eq!(state.line_count(), 0);
    let saved = state.save_config();
    assert_eq!(saved.theme, "nord");
    assert_eq!(saved.outline_width, 30);
    assert!(saved.auto_reload && !saved.line_wrap && !saved.syntax_highlighting);
}

#[test]
fn vertical_scrolling_stays_in_the_buffer() {
    let mut state = with_document(&numbered(5));
    assert_eq!(state.line_count(), 10);
    state.scroll_up();
    assert_eq!(state.current_pane().scroll, 0);
    state.scroll_down();
    state.scroll_down();
    assert_eq!(state.current_pane().scroll, 2);
    state.scroll_page_down(9);
    assert_eq!(state.current_pane().scroll, 6);
    state.scroll_page_down(9);
    assert_eq!(state.current_pane().scroll, 9);
    state.scroll_down();
    assert_eq!(state.current_pane().scroll, 9);
    state.scroll_page_up(7);
    assert_eq!(state.current_pane().scroll, 6);
    state.scroll_page_up(100);
    assert_eq!(state.current_pane().scroll, 0);
    state.go_to_bottom();
    assert_eq!(state.current_pane().scroll, 9);
    state.go_to_top();
    assert_eq!(state.current_pane().scroll, 0);
    state.go_to_line(4);
    assert_eq!(state.current_pane().scroll, 4);
    state.go_to_line(usize::MAX);
    assert_eq!(state.current_pane().scroll, 9);
    state.scroll_page_down(usize::MAX);
    assert_eq!(state.current_pane().scroll, 9);
    // Without a document every position is the top.
    let mut empty = fresh();
    empty.scroll_down();
    empty.go_to_bottom();
    empty.go_to_line(3);
    assert_eq!(empty.current_pane().scroll, 0);
}

#[test]
fn horizontal_scrolling_has_no_upper_bound() {
    let mut state = with_document("text");
    state.scroll_right();
    assert_eq!(state.current_pane().horizontal_scroll, 0);
    state.toggle_line_wrap();
    state.scroll_left();
    assert_eq!(state.current_pane().horizontal_scroll, 0);
    for _ in 0..3 {
        state.scroll_right();
    }
    assert_eq!(state.current_pane().horizontal_scroll, 12);
    state.scroll_left();
    assert_eq!(state.current_pane().horizontal_scroll, 8);
    state.view.panes[0].horizontal_scroll = 2;
    state.scroll_left();
    assert_eq!(state.current_pane().horizontal_scroll, 0);
    state.view.panes[0].horizontal_scroll = usize::MAX - 1;
    state.scroll_right();
    assert_eq!(state.current_pane().horizontal_scroll, usize::MAX);
}

#[test]
fn panes_split_close_and_cycle() {
    let mut state = with_document(&numbered(20));
    state.go_to_line(7);
    state.toggle_line_wrap();
    state.scroll_right();
    state.split_horizontal();
    assert_eq!(state.view.split_direction, SplitDirection::Horizontal);
    assert_eq!(state.view.active_pane, 1);
    assert_eq!(state.view.panes[1].scroll, 7);
    assert_eq!(state.view.panes[1].horizontal_scroll, 4);
    // A second split does nothing.
    state.split_vertical();
    assert_eq!(state.view.panes.len(), 2);
    assert_eq!(state.view.split_direction, SplitDirection::Horizontal);
    state.scroll_down();
    assert_eq!(state.view.panes[0].scroll, 7);
    assert_eq!(state.view.panes[1].scroll, 8);
    state.cycle_pane();
    assert_eq!(state.view.active_pane, 0);
    state.cycle_pane();
    assert_eq!(state.view.active_pane, 1);
    state.close_pane();
    assert_eq!(state.view.panes.len(), 1);
    assert_eq!(state.view.active_pane, 0);
    assert_eq!(state.view.split_direction, SplitDirection::Unsplit);
    assert_eq!(state.view.panes[0].scroll, 7);
    state.close_pane();
    state.cycle_pane();
    assert_eq!(state.view.panes.len(), 1);
    assert_eq!(state.view.active_pane, 0);
}

#[test]
fn search_in_the_state() {
    let mut state = with_document("alpha\n\nbeta\n\nalpha beta");
    state.start_search();
    assert_eq!(state.ui.mode, InputMode::Search);
    state.apply_search("");
    assert_eq!(state.ui.mode, InputMode::Normal);
    assert_eq!(state.ui.status_message, None);
    state.start_search();
    state.apply_search("beta");
    assert_eq!(state.ui.mode, InputMode::Normal);
    assert_eq!(state.ui.status_message.as_deref(), Some("2 matches found"));
    assert_eq!(state.current_pane().scroll, 2);
    state.next_match();
    assert_eq!(state.current_pane().current_match, 1);
    assert_eq!(state.current_pane().scroll, 4);
    state.next_match();
    assert_eq!(state.current_pane().scroll, 2);
    state.prev_match();
    assert_eq!(state.current_pane().scroll, 4);
    state.toggle_regex();
    assert!(state.current_pane().search_is_regex);
    state.start_search();
    state.apply_search("be(");
    assert_eq!(state.ui.status_message.as_deref(), Some("Invalid regex"));
    assert_eq!(state.ui.mode, InputMode::Normal);
    assert_eq!(state.current_pane().search_matches.len(), 2);
    assert_eq!(state.current_pane().search_query, "beta");
    state.apply_search("a.p");
    assert_eq!(state.ui.status_message.as_deref(), Some("2 matches found"));
    state.start_search();
    state.cancel_search();
    assert_eq!(state.ui.mode, InputMode::Normal);
    state.clear_search();
    assert!(state.current_pane().search_matches.is_empty());
    assert!(state.current_pane().search_query.is_empty());
    assert_eq!(state.current_pane().current_match, 0);
    assert_eq!(state.ui.status_message, None);
    assert!(state.current_pane().search_is_regex);
}

#[test]
fn outline_selects_and_jumps() {
    let mut state = with_document("# A\n\ntext\n\n## B\n\ntext\n\n## C\n");
    state.cycle_focus();
    assert_eq!(state.ui.focused_panel, FocusedPanel::Outline);
    state.outline_up();
    assert_eq!(state.ui.outline_selected, 0);
    state.outline_down();
    state.outline_down();
    state.outline_down();
    assert_eq!(state.ui.outline_selected, 2);
    state.jump_to_heading();
    assert_eq!(state.current_pane().scroll, 8);
    assert_eq!(state.ui.focused_panel, FocusedPanel::Content);
    state.ui.outline_selected = 9;
    state.cycle_focus();
    state.jump_to_heading();
    assert_eq!(state.current_pane().scroll, 8);
    assert_eq!(state.ui.focused_panel, FocusedPanel::Outline);
    state.toggle_outline();
    assert!(!state.ui.show_outline);
    assert_eq!(state.ui.focused_panel, FocusedPanel::Content);
    state.cycle_focus();
    assert_eq!(state.ui.focused_panel, FocusedPanel::Content);
    let mut empty = fresh();
    empty.outline_down();
    assert_eq!(empty.ui.outline_selected, 0);
}

#[test]
fn toggles_and_themes() {
    let mut state = with_document("```rust\nfn main() {}\n```");
    assert!(state.prefs.syntax_highlighting);
    let coloured = state.doc.rendered_lines[1].spans.len();
    assert!(coloured > 1);
    state.toggle_syntax_highlighting();
    assert!(!state.prefs.syntax_highlighting);
    assert_eq!(state.doc.rendered_lines[1].spans.len(), 1);
    assert_eq!(state.doc.rendered_lines[1].style.fg, Some(state.prefs.theme.code_inline));
    state.cycle_theme();
    assert_eq!(state.prefs.theme.name, "dracula");
    assert_eq!(state.doc.rendered_lines[1].style.fg, Some(state.prefs.theme.code_inline));
    for _ in 0..10 {
        state.cycle_theme();
    }
    assert_eq!(state.prefs.theme.name, "default");
    state.toggle_line_numbers();
    assert!(state.prefs.show_line_numbers);
    state.toggle_auto_reload();
    assert!(state.prefs.auto_reload);
    assert_eq!(state.ui.status_message.as_deref(), Some("Auto-reload enabled"));
    state.toggle_auto_reload();
    assert_eq!(state.ui.status_message.as_deref(), Some("Auto-reload disabled"));
    let mut empty = fresh();
    empty.cycle_theme();
    empty.rerender();
    assert!(empty.doc.rendered_lines.is_empty());
}

#[test]
fn loading_a_file_resets_the_view() {
    let mut state = with_document(&numbered(10));
    state.split_vertical();
    state.go_to_line(5);
    state.apply_search("line");
    state.ui.outline_selected = 3;
    state.doc.current_url = Some("https://example.com/x.md".to_string());
    state.load_file("/docs/other.md", None, "# Other\n", None);
    for pane in &state.view.panes {
        assert_eq!(pane.scroll, 0);
        assert_eq!(pane.horizontal_scroll, 0);
        assert!(pane.search_matches.is_empty());
    }
    assert_eq!(state.view.panes[1].search_query, "line");
    assert_eq!(state.ui.outline_selected, 0);
    assert_eq!(state.ui.status_message, None);
    assert_eq!(state.doc.file_path.as_deref(), Some("/docs/other.md"));
    assert_eq!(state.doc.file_name, None);
    assert_eq!(state.doc.current_url, None);
    assert_eq!(state.doc.file_modified_time, None);
    assert_eq!(state.line_count(), 2);
    assert_eq!(state.doc.document.as_ref().unwrap().headings[0].text, "Other");
    // The history has the new file first, under its whole path.
    let entries = state.library.history.entries();
    assert_eq!(entries.len(), 2);
    assert!(entries.iter().any(|e| e.location == "/docs/other.md" && e.display_name == "/docs/other.md"));
    assert!(entries.iter().any(|e| e.location == "/docs/readme.md" && e.display_name == "readme.md"));
    // The buffer of the new file remembers the URL that was shown before.
    assert_eq!(state.buffer_count(), 2);
    assert_eq!(state.open.active_buffer, 1);
    assert_eq!(state.open.buffers[1].url.as_deref(), Some("https://example.com/x.md"));
    assert_eq!(state.open.buffers[0].file_path, "/docs/readme.md");
}

#[test]
fn reload_follows_the_time_of_change() {
    let mut state = with_document("old");
    assert!(!state.check_file_changed(Some(200)));
    state.toggle_auto_reload();
    assert!(state.check_file_changed(Some(200)));
    assert!(!state.check_file_changed(Some(100)));
    assert!(!state.check_file_changed(Some(99)));
    assert!(!state.check_file_changed(None));
    state.go_to_line(0);
    state.reload_file("new text\n\nmore", 200);
    assert_eq!(state.doc.file_modified_time, Some(200));
    assert_eq!(state.ui.status_message.as_deref(), Some("File reloaded"));
    assert_eq!(state.doc.rendered_lines[0].text(), "new text");
    assert_eq!(state.line_count(), 4);
    assert!(!state.check_file_changed(Some(200)));
    let mut other = fresh();
    other.toggle_auto_reload();
    assert!(!other.check_file_changed(Some(5)));
    let mut untimed = fresh();
    untimed.toggle_auto_reload();
    untimed.load_file("/x.md", Some("x.md"), "x", None);
    assert!(!untimed.check_file_changed(Some(5)));
}

#[test]
fn buffers_are_saved_and_switched() {
    let mut state = fresh();
    state.next_buffer();
    state.prev_buffer();
    state.open_buffer_list();
    assert_eq!(state.ui.status_message.as_deref(), Some("No buffers open"));
    assert!(!state.open.show_buffer_list);
    state.close_buffer();
    assert_eq!(state.ui.status_message.as_deref(), Some("Cannot close last buffer"));

    state.load_file("/a.md", Some("a.md"), &numbered(10), Some(1));
    state.go_to_line(6);
    state.ui.outline_selected = 2;
    state.save_to_buffer();
    state.load_file("/b.md", Some("b.md"), "# B", Some(2));
    state.save_to_buffer();
    state.load_file("/c.md", Some("c.md"), "# C", Some(3));
    assert_eq!(state.buffer_count(), 3);
    assert_eq!(state.open.active_buffer, 2);
    assert_eq!(state.open.buffers[0].scroll, 6);

    state.next_buffer();
    assert_eq!(state.open.active_buffer, 0);
    assert_eq!(state.doc.file_path.as_deref(), Some("/a.md"));
    assert_eq!(state.doc.file_name.as_deref(), Some("a.md"));
    assert_eq!(state.current_pane().scroll, 6);
    assert_eq!(state.ui.outline_selected, 2);
    assert_eq!(state.doc.file_modified_time, Some(1));
    assert_eq!(state.line_count(), 20);
    assert_eq!(state.ui.status_message.as_deref(), Some("Buffer 1/3"));
    state.prev_buffer();
    assert_eq!(state.open.active_buffer, 2);
    assert_eq!(state.doc.file_path.as_deref(), Some("/c.md"));
    assert_eq!(state.ui.status_message.as_deref(), Some("Buffer 3/3"));
    assert_eq!(state.current_pane().scroll, 0);

    state.open_buffer_list();
    assert!(state.open.show_buffer_list);
    assert_eq!(state.open.buffer_list_selected, 2);
    state.buffer_list_down();
    assert_eq!(state.open.buffer_list_selected, 2);
    state.buffer_list_up();
    state.select_buffer();
    assert!(!state.open.show_buffer_list);
    assert_eq!(state.doc.file_path.as_deref(), Some("/b.md"));
    assert_eq!(state.ui.status_message.as_deref(), Some("Switched to buffer 2"));
    state.buffer_list_up();
    state.buffer_list_up();
    assert_eq!(state.open.buffer_list_selected, 0);
    state.open.buffer_list_selected = 9;
    state.select_buffer();
    assert_eq!(state.doc.file_path.as_deref(), Some("/b.md"));
    assert_eq!(state.ui.status_message.as_deref(), Some("Switched to buffer 10"));
    state.close_buffer_list();

    // Closing shows the buffer that takes the place; the closed document is
    // saved again before that.
    state.close_buffer();
    assert_eq!(state.open.active_buffer, 1);
    assert_eq!(state.doc.file_path.as_deref(), Some("/c.md"));
    assert_eq!(state.buffer_count(), 3);
    assert_eq!(state.ui.status_message.as_deref(), Some("3 buffers remaining"));
    let paths: Vec<&str> = state.open.buffers.iter().map(|b| b.file_path.as_str()).collect();
    assert_eq!(paths, vec!["/a.md", "/c.md", "/b.md"]);
    state.load_from_buffer(7);
    assert_eq!(state.doc.file_path.as_deref(), Some("/c.md"));
    assert_eq!(next_index(0, 3), 1);
    assert_eq!(next_index(2, 3), 0);
    assert_eq!(next_index(0, 1), 0);
}

#[test]
fn documents_from_the_web() {
    let mut state = with_document("local");
    state.start_url_fetch("https://github.com/u/r");
    assert!(state.doc.is_loading);
    assert_eq!(state.ui.status_message.as_deref(), Some("Loading https://github.com/u/r..."));
    state.check_fetch_complete(FetchOutcome::Pending);
    assert!(state.doc.is_loading);
    state.check_fetch_complete(FetchOutcome::Finished(Err("boom".to_string())));
    assert!(!state.doc.is_loading);
    assert_eq!(state.ui.status_message.as_deref(), Some("Error: boom"));
    state.start_url_fetch("u");
    state.check_fetch_complete(FetchOutcome::Disconnected);
    assert!(!state.doc.is_loading);
    assert_eq!(
        state.ui.status_message.as_deref(),
        Some("Error: fetch failed unexpectedly")
    );
    assert_eq!(state.doc.file_path.as_deref(), Some("/docs/readme.md"));
    state.go_to_line(0);
    state.start_url_fetch("https://example.com/docs/guide.md");
    state.check_fetch_complete(FetchOutcome::Finished(Ok((
        "# Guide\n\ntext".to_string(),
        "https://example.com/docs/guide.md".to_string(),
    ))));
    assert!(!state.doc.is_loading);
    assert!(state.is_viewing_url());
    assert_eq!(state.current_location().as_deref(), Some("https://example.com/docs/guide.md"));
    assert_eq!(state.doc.file_path.as_deref(), Some("[URL] guide.md"));
    assert_eq!(state.doc.file_modified_time, None);
    assert_eq!(state.ui.status_message.as_deref(), Some("Loaded: guide.md"));
    assert_eq!(state.line_count(), 4);
    let entries = state.library.history.entries();
    assert!(entries
        .iter()
        .any(|e| e.is_url && e.location == "https://example.com/docs/guide.md" && e.display_name == "guide.md"));
    // A document from the web is saved as a new buffer each time.
    state.save_to_buffer();
    state.save_to_buffer();
    assert_eq!(state.buffer_count(), 3);

    let mut blocking = fresh();
    assert_eq!(
        blocking.load_url("https://x/y.md", Err(FetchError::NotFound)),
        Err("File not found (404)".to_string())
    );
    assert!(!blocking.doc.is_loading);
    assert!(!blocking.is_viewing_url());
    assert_eq!(blocking.current_location(), None);
    assert_eq!(blocking.load_url("https://x/", Ok("text".to_string())), Ok(()));
    assert_eq!(blocking.doc.file_path.as_deref(), Some("[URL] "));
    assert_eq!(blocking.ui.status_message.as_deref(), Some("Loaded: "));
    assert_eq!(last_segment_of("a/b/c"), "c");
    assert_eq!(last_segment_of("abc"), "abc");
    assert_eq!(last_segment_of("abc/"), "");
    assert_eq!(last_segment_of(""), "");
}

#[test]
fn links_are_followed_by_their_kind() {
    let source = "# Top Part\n\n[a](other.md) [b](https://github.com/u/r) [c](https://example.com/page) [d](#top-part) [e](#missing) [f](mailto:x)\n";
    let mut state = with_document(source);
    state.go_to_line(0);
    assert!(matches!(state.follow_link(), OpenAction::Stay));
    assert_eq!(state.ui.status_message.as_deref(), Some("No link on this line"));
    state.go_to_line(1);
    match state.follow_link() {
        OpenAction::OpenLinkedFile(url) => assert_eq!(url, "other.md"),
        other => panic!("unexpected {:?}", other),
    }
    match state.open_link("https://github.com/u/r") {
        OpenAction::Fetch(url) => assert_eq!(url, "https://github.com/u/r"),
        other => panic!("unexpected {:?}", other),
    }
    assert!(state.doc.is_loading);
    assert_eq!(state.ui.status_message.as_deref(), Some("Loading https://github.com/u/r..."));
    assert!(matches!(state.open_link("http://x.org/doc.markdown"), OpenAction::Fetch(_)));
    assert!(matches!(
        state.open_link("https://raw.githubusercontent.com/u/r/x"),
        OpenAction::Fetch(_)
    ));
    match state.open_link("https://example.com/page") {
        OpenAction::CopyLink(url) => assert_eq!(url, "https://example.com/page"),
        other => panic!("unexpected {:?}", other),
    }
    // A web address that ends like a Markdown file counts as a local file.
    assert!(matches!(state.open_link("https://example.com/x.MD"), OpenAction::OpenLinkedFile(_)));
    state.go_to_line(3);
    assert!(matches!(state.open_link("#top-part"), OpenAction::Stay));
    assert_eq!(state.ui.status_message.as_deref(), Some("Jumped to: Top Part"));
    assert_eq!(state.current_pane().scroll, 0);
    assert!(matches!(state.open_link("#TOP PART"), OpenAction::Stay));
    assert_eq!(state.ui.status_message.as_deref(), Some("Jumped to: Top Part"));
    assert!(matches!(state.open_link("#missing"), OpenAction::Stay));
    assert_eq!(state.ui.status_message.as_deref(), Some("Anchor not found: missing"));
    assert!(matches!(state.open_link("mailto:x"), OpenAction::Stay));
    assert_eq!(state.ui.status_message.as_deref(), Some("Unknown link type: mailto:x"));
    state.link_copied("u", true);
    assert_eq!(state.ui.status_message.as_deref(), Some("URL copied: u"));
    state.link_copied("u", false);
    assert_eq!(state.ui.status_message.as_deref(), Some("Link: u"));
    state.link_file_missing("/docs/other.md");
    assert_eq!(state.ui.status_message.as_deref(), Some("File not found: /docs/other.md"));
    state.link_open_failed("other.md", "denied");
    assert_eq!(state.ui.status_message.as_deref(), Some("Error opening other.md: denied"));
    state.report_error("gone");
    assert_eq!(state.ui.status_message.as_deref(), Some("Error: gone"));
    assert_eq!(replace_char("a-b-c", '-', ' '), "a b c");
    assert_eq!(replace_char("", '-', ' '), "");
}

#[test]
fn anchors_jump_to_the_logical_line() {
    let mut state = with_document("para\n\n```\n1\n2\n3\n```\n\n## Deep Down\n\nend");
    let heading = &state.doc.document.as_ref().unwrap().headings[0];
    assert_eq!((heading.logical_line, heading.rendered_line), (6, 8));
    state.open_link("#deep-down");
    assert_eq!(state.current_pane().scroll, 6);
}

#[test]
fn file_picker_and_inputs() {
    let mut state = fresh();
    state.open_file_picker(Vec::new());
    assert!(!state.picker.show_file_picker);
    assert_eq!(state.ui.status_message.as_deref(), Some("No markdown files found"));
    assert!(matches!(state.open_selected_file(), OpenAction::Stay));
    state.open_file_picker(vec!["./README.md".to_string(), "./a.md".to_string()]);
    assert!(state.picker.show_file_picker);
    state.file_picker_up();
    assert_eq!(state.picker.file_picker_selected, 0);
    state.file_picker_down();
    state.file_picker_down();
    assert_eq!(state.picker.file_picker_selected, 1);
    match state.open_selected_file() {
        OpenAction::LoadFile(path) => assert_eq!(path, "./a.md"),
        other => panic!("unexpected {:?}", other),
    }
    assert!(!state.picker.show_file_picker);
    state.open_file_picker(vec!["x.md".to_string()]);
    state.close_file_picker();
    assert!(!state.picker.show_file_picker);

    state.start_url_input();
    assert_eq!(state.ui.mode, InputMode::UrlInput);
    assert!(state.overlays.show_url_input);
    assert!(matches!(state.submit_url(""), OpenAction::Stay));
    assert_eq!(state.ui.mode, InputMode::Normal);
    assert!(!state.overlays.show_url_input);
    assert!(!state.doc.is_loading);
    state.start_url_input();
    match state.submit_url("https://x/y.md") {
        OpenAction::Fetch(url) => assert_eq!(url, "https://x/y.md"),
        other => panic!("unexpected {:?}", other),
    }
    assert!(state.doc.is_loading);
    state.start_url_input();
    state.cancel_url_input();
    assert_eq!(state.ui.mode, InputMode::Normal);
    assert!(!state.overlays.show_url_input);

    assert_eq!(state.yank_line(), None);
    let shown = with_document("first\n\nsecond *line*");
    assert_eq!(shown.yank_line().as_deref(), Some("first"));
    let mut shown = shown;
    shown.go_to_line(2);
    assert_eq!(shown.yank_line().as_deref(), Some("second line"));
    shown.line_copied(true);
    assert_eq!(shown.ui.status_message.as_deref(), Some("Line copied to clipboard"));
    shown.line_copied(false);
    assert_eq!(shown.ui.status_message.as_deref(), Some("Failed to copy"));
    shown.config_saved(None);
    assert_eq!(shown.ui.status_message.as_deref(), Some("Settings saved"));
    shown.config_saved(Some("disk full"));
    assert_eq!(shown.ui.status_message.as_deref(), Some("Failed to save: disk full"));
}

#[test]
fn history_overlay() {
    let mut state = fresh();
    state.open_history();
    assert!(!state.library.show_history);
    assert_eq!(state.ui.status_message.as_deref(), Some("No history"));
    assert!(matches!(state.select_history(), OpenAction::Stay));
    state.library.history.add_at("/old.md", false, "old.md", 1);
    state.library.history.add_at("https://x/new.md", true, "new.md", 2);
    state.library.history_selected = 1;
    state.open_history();
    assert!(state.library.show_history);
    assert_eq!(state.library.history_selected, 0);
    state.history_up();
    assert_eq!(state.library.history_selected, 0);
    match state.select_history() {
        OpenAction::Fetch(url) => assert_eq!(url, "https://x/new.md"),
        other => panic!("unexpected {:?}", other),
    }
    assert!(!state.library.show_history);
    assert!(state.doc.is_loading);
    state.open_history();
    state.history_down();
    state.history_down();
    assert_eq!(state.library.history_selected, 1);
    match state.select_history() {
        OpenAction::LoadFile(path) => assert_eq!(path, "/old.md"),
        other => panic!("unexpected {:?}", other),
    }
    state.open_history();
    state.close_history();
    assert!(!state.library.show_history);
}

#[test]
fn bookmarks_overlay() {
    let mut state = fresh();
    state.open_bookmarks();
    assert_eq!(state.ui.status_message.as_deref(), Some("No bookmarks"));
    assert_eq!(state.start_add_bookmark(), None);
    assert_eq!(state.ui.status_message.as_deref(), Some("Nothing to bookmark"));
    assert_eq!(state.confirm_add_bookmark("x"), None);
    assert!(!state.delete_selected_bookmark());

    state.load_file("/docs/readme.md", Some("readme.md"), "text", None);
    assert_eq!(state.start_add_bookmark().as_deref(), Some("readme.md"));
    assert_eq!(state.ui.mode, InputMode::BookmarkName);
    assert!(state.overlays.show_bookmark_name_input);
    state.cancel_add_bookmark();
    assert_eq!(state.ui.mode, InputMode::Normal);
    assert!(!state.overlays.show_bookmark_name_input);
    state.start_add_bookmark();
    assert_eq!(state.confirm_add_bookmark("Mine").as_deref(), Some("Mine"));
    assert_eq!(state.ui.mode, InputMode::Normal);
    assert!(!state.overlays.show_bookmark_name_input);
    let entries = state.library.bookmarks.entries();
    assert_eq!(entries.len(), 1);
    assert_eq!(entries[0].location, "/docs/readme.md");
    assert_eq!(entries[0].name, "Mine");
    assert!(!entries[0].is_url);
    state.bookmark_saved("Mine", None);
    assert_eq!(state.ui.status_message.as_deref(), Some("Bookmarked: Mine"));
    state.bookmark_saved("Mine", Some("no space"));
    assert_eq!(state.ui.status_message.as_deref(), Some("Failed to save bookmark: no space"));
    assert_eq!(state.start_add_bookmark(), None);
    assert_eq!(state.ui.status_message.as_deref(), Some("Already bookmarked"));

    state.finish_load_url("web", "https://x.org/docs/page.md");
    assert_eq!(state.start_add_bookmark().as_deref(), Some("page.md"));
    assert_eq!(state.confirm_add_bookmark("").as_deref(), Some("page.md"));
    let entries = state.library.bookmarks.entries();
    assert_eq!(entries.len(), 2);
    assert!(entries[1].is_url);
    assert_eq!(entries[1].location, "https://x.org/docs/page.md");

    state.open_bookmarks();
    assert!(state.library.show_bookmarks);
    state.bookmarks_up();
    state.bookmarks_down();
    state.bookmarks_down();
    assert_eq!(state.library.bookmarks_selected, 1);
    match state.select_bookmark() {
        OpenAction::Fetch(url) => assert_eq!(url, "https://x.org/docs/page.md"),
        other => panic!("unexpected {:?}", other),
    }
    assert!(!state.library.show_bookmarks);
    state.open_bookmarks();
    match state.select_bookmark() {
        OpenAction::LoadFile(path) => assert_eq!(path, "/docs/readme.md"),
        other => panic!("unexpected {:?}", other),
    }
    state.open_bookmarks();
    state.bookmarks_down();
    assert!(state.delete_selected_bookmark());
    assert_eq!(state.ui.status_message.as_deref(), Some("Bookmark deleted"));
    assert_eq!(state.library.bookmarks_selected, 0);
    assert!(state.library.show_bookmarks);
    assert!(state.delete_selected_bookmark());
    assert!(!state.library.show_bookmarks);
    assert!(state.library.bookmarks.entries().is_empty());
    state.library.bookmarks_selected = 4;
    assert!(matches!(state.select_bookmark(), OpenAction::Stay));
    state.close_bookmarks();
}

#[test]
fn areas_hold_their_cells() {
    let area = Area { x: 2, y: 3, width: 4, height: 5 };
    assert_eq!(area.right(), 6);
    assert_eq!(area.bottom(), 8);
    assert!(area.contains(2, 3));
    assert!(area.contains(5, 7));
    assert!(!area.contains(6, 7));
    assert!(!area.contains(5, 8));
    assert!(!area.contains(1, 3));
    let wide = Area { x: 65000, y: 0, width: 1000, height: 1 };
    assert_eq!(wide.right(), u16::MAX);
    assert_eq!(Area::default(), Area { x: 0, y: 0, width: 0, height: 0 });
    assert_eq!(PaneState::default().scroll, 0);
    assert_eq!(InputMode::default(), InputMode::Normal);
    assert_eq!(SplitDirection::default(), SplitDirection::Unsplit);
    assert_eq!(FocusedPanel::default(), FocusedPanel::Content);
}

#[test]
fn settings_from_the_environment() {
    let mut config = Config::default();
    assert_eq!(config.theme, "default");
    assert!(config.line_wrap && config.show_outline && !config.show_line_numbers);
    assert_eq!(config.outline_width, 24);
    assert_eq!(config.get_theme().name, "default");
    let none = Overrides { theme: None, shared_theme: None, line_wrap: None, outline: None, line_numbers: None };
    config.apply_env_overrides(&none);
    assert_eq!(config.theme, "default");
    assert!(config.line_wrap);
    let some = Overrides {
        theme: Some("nord".to_string()),
        shared_theme: Some("Gruvbox".to_string()),
        line_wrap: Some("0".to_string()),
        outline: Some("YES".to_string()),
        line_numbers: Some("True".to_string()),
    };
    config.apply_env_overrides(&some);
    assert_eq!(config.theme, "Gruvbox");
    assert_eq!(config.get_theme().name, "gruvbox");
    assert!(!config.line_wrap);
    assert!(config.show_outline);
    assert!(config.show_line_numbers);
    let own = Overrides { theme: Some("matrix".to_string()), outline: Some("no".to_string()), line_numbers: Some("1".to_string()), ..none };
    config.apply_env_overrides(&own);
    assert_eq!(config.theme, "matrix");
    assert!(!config.show_outline);
    assert!(config.show_line_numbers);
    for value in ["1", "true", "yes", "TRUE", "Yes"] {
        assert!(barkdocs::config::switch_value(value));
    }
    for value in ["", "0", "on", "false", " yes"] {
        assert!(!barkdocs::config::switch_value(value));
    }
}

#[test]
fn directory_scan_lists_markdown_files() {

    let entry = |name: &str, is_file: bool| FileEntry {
        path: format!("./{}", name),
        file_name: Some(name.to_string()),
        is_file,
    };
    let mut state = fresh();
    state.picker.file_picker_files = vec!["old.md".to_string()];
    state.scan_directory(None);
    assert!(state.picker.file_picker_files.is_empty());
    state.scan_directory(Some(vec![
        entry("zeta.md", true),
        entry("notes.txt", true),
        entry("Readme.MD", true),
        entry("alpha.Md", true),
        entry("docs.md", false),
        entry(".md", true),
        entry("md", true),
        entry("x.md.bak", true),
        entry("README.md", true),
        entry("a.b.md", true),
        entry("readme-old.md", true),
        entry("Zulu.md", true),
        entry("..md", true),
        FileEntry { path: "./none.md".to_string(), file_name: None, is_file: true },
    ]));
    assert_eq!(
        state.picker.file_picker_files,
        vec![
            "./README.md",
            "./Readme.MD",
            "./readme-old.md",
            "./..md",
            "./Zulu.md",
            "./a.b.md",
            "./alpha.Md",
            "./zeta.md",
        ]
    );
    assert!(!state.picker.show_file_picker);
    // The same order as the paths have in std.
    let mut paths: Vec<std::path::PathBuf> = ["./b.md", "./a.md", "./ż.md", "./B.md", "./a b.md", "./a-b.md"]
        .iter()
        .map(std::path::PathBuf::from)
        .collect();
    let entries = paths
        .iter()
        .map(|p| FileEntry {
            path: p.to_string_lossy().to_string(),
            file_name: p.file_name().map(|n| n.to_string_lossy().to_string()),
            is_file: true,
        })
        .collect();
    state.scan_directory(Some(entries));
    paths.sort();
    let expected: Vec<String> = paths.iter().map(|p| p.to_string_lossy().to_string()).collect();
    assert_eq!(state.picker.file_picker_files, expected);
}

#[test]
fn the_current_pane_can_be_changed() {
    let mut state = with_document("one\n\ntwo");
    state.split_vertical();
    state.current_pane_mut().scroll = 2;
    state.current_pane_mut().search_query = "q".to_string();
    assert_eq!(state.view.panes[1].scroll, 2);
    assert_eq!(state.view.panes[1].search_query, "q");
    assert_eq!(state.view.panes[0].scroll, 0);
}
