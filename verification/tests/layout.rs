use barkdocs::app::{AppState, Area, InputMode};
use barkdocs::config::Config;
use barkdocs::layout::{
    buffer_entry, entry_marker, input_bar_area, library_entry, list_window, mode_hint, mode_label,
    outline_entry, popup_area, status_position, switch_label,
};
use barkdocs::storage::{Bookmark, Bookmarks, History};

#[test]
fn overlays_sit_in_the_middle() {
    assert_eq!(popup_area(100, 50, 60, 30), Area { x: 20, y: 10, width: 60, height: 30 });
    assert_eq!(popup_area(40, 20, 60, 30), Area { x: 2, y: 2, width: 36, height: 16 });
    assert_eq!(popup_area(3, 2, 60, 30), Area { x: 1, y: 1, width: 0, height: 0 });
    assert_eq!(popup_area(65, 35, 60, 30), Area { x: 2, y: 2, width: 60, height: 30 });
    assert_eq!(
        popup_area(u16::MAX, u16::MAX, 40, 14),
        Area { x: 32747, y: 32760, width: 40, height: 14 }
    );
    assert_eq!(input_bar_area(80, 24), Area { x: 0, y: 21, width: 80, height: 3 });
    assert_eq!(input_bar_area(80, 2), Area { x: 0, y: 0, width: 80, height: 3 });
}

#[test]
fn lists_scroll_to_the_selection() {
    assert_eq!(list_window(0, 5, 3), (0, 3));
    assert_eq!(list_window(2, 5, 20), (0, 5));
    assert_eq!(list_window(5, 5, 20), (1, 6));
    assert_eq!(list_window(19, 5, 20), (15, 20));
    assert_eq!(list_window(0, 0, 20), (1, 1));
    assert_eq!(list_window(30, 5, 20), (26, 26));
    assert_eq!(list_window(0, 5, 0), (0, 0));
    assert_eq!(list_window(usize::MAX, 0, 4), (usize::MAX, usize::MAX));
    assert_eq!(list_window(7, usize::MAX, 9), (0, 9));
}

#[test]
fn labels_of_the_status_bar() {
    assert_eq!(mode_label(InputMode::Normal), " NORMAL ");
    assert_eq!(mode_label(InputMode::Search), " SEARCH ");
    assert_eq!(mode_label(InputMode::SplitCommand), " SPLIT ");
    assert_eq!(mode_label(InputMode::UrlInput), " URL ");
    assert_eq!(mode_label(InputMode::BookmarkName), " BOOKMARK ");
    assert_eq!(mode_hint(InputMode::Normal), " ?:help O:url H:history m:bookmarks ");
    assert_eq!(mode_hint(InputMode::Search), " Enter:search Esc:cancel Ctrl+r:regex ");
    assert_eq!(mode_hint(InputMode::SplitCommand), " v:vsplit s:hsplit q:close w:cycle ");
    assert_eq!(mode_hint(InputMode::UrlInput), " Enter:load Esc:cancel ");
    assert_eq!(mode_hint(InputMode::BookmarkName), " Enter:save Esc:cancel ");
    assert_eq!(status_position(0, 0), " 1/0 ");
    assert_eq!(status_position(41, 120), " 42/120 ");
    assert_eq!(status_position(usize::MAX, 1), format!(" {}/1 ", usize::MAX as u128 + 1));
    assert_eq!(switch_label(true), "ON");
    assert_eq!(switch_label(false), "OFF");
    assert_eq!(entry_marker(true), "> ");
    assert_eq!(entry_marker(false), "  ");
}

#[test]
fn flags_of_the_status_bar() {
    let mut state = AppState::new(&Config::default(), History::new(), Bookmarks::new());
    assert_eq!(state.status_flags(), "[W]");
    state.toggle_line_wrap();
    assert_eq!(state.status_flags(), "");
    state.load_file("/a.md", Some("a.md"), "a", None);
    state.save_to_buffer();
    state.load_file("/b.md", Some("b.md"), "b", None);
    state.split_vertical();
    state.toggle_regex();
    state.toggle_line_numbers();
    state.toggle_auto_reload();
    state.toggle_line_wrap();
    state.start_url_fetch("u");
    state.doc.current_url = Some("u".to_string());
    assert_eq!(state.status_flags(), "[LOADING][URL][W][.*][#][2/2][B2/2][R]");
    state.cycle_pane();
    assert_eq!(state.status_flags(), "[LOADING][URL][W][#][1/2][B2/2][R]");
}

#[test]
fn outline_entries_fit_the_panel() {
    assert_eq!(outline_entry(1, "Title", true, 22), "> Title");
    assert_eq!(outline_entry(3, "Title", false, 22), "      Title");
    assert_eq!(outline_entry(0, "Title", false, 22), "  Title");
    assert_eq!(outline_entry(2, "A long heading", false, 12), "    A long ...");
    assert_eq!(outline_entry(2, "A long heading", false, 5), "    A l");
    assert_eq!(outline_entry(2, "A long heading", false, 6), "    A...");
    assert_eq!(outline_entry(2, "A long heading", false, 2), "    ");
    assert_eq!(outline_entry(2, "A long heading", false, 0), "    ");
    assert_eq!(outline_entry(1, "żółw żółw", true, 7), "> żółw...");
    assert_eq!(outline_entry(1, "exactly", true, 7), "> exactly");
    assert_eq!(outline_entry(6, "x", false, 100), "            x");
}

#[test]
fn entries_of_the_lists() {
    assert_eq!(buffer_entry(0, "a.md", true, true), "> [1] a.md *");
    assert_eq!(buffer_entry(9, "b.md", false, false), "  [10] b.md");
    assert_eq!(library_entry("repo README", true, true), "> 🌐 repo README");
    assert_eq!(library_entry("file.md", false, false), "  📄 file.md");
    let kept = vec![
        Bookmark { location: "/a".to_string(), is_url: false, name: "A".to_string(), created_at: 1 },
        Bookmark { location: "/a".to_string(), is_url: false, name: "B".to_string(), created_at: 2 },
    ];
    let bookmarks = Bookmarks::from_entries(kept);
    assert_eq!(bookmarks.entries().len(), 2);
    assert_eq!(bookmarks.find_by_location("/a").unwrap().name, "A");
}
