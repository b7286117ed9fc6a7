use barkdocs::app::{AppState, Area, FocusedPanel, InputMode, SplitDirection};
use barkdocs::config::Config;
use barkdocs::input::{
    handle_key, handle_mouse, Command, Effect, KeyCode, KeyPress, MouseInput, MouseKind,
};
use barkdocs::overlays::OpenAction;
use barkdocs::storage::{Bookmarks, History};

fn fresh() -> AppState {
    AppState::new(&Config::default(), History::new(), Bookmarks::new())
}

fn with_document(source: &str) -> AppState {
    let mut state = fresh();
    state.load_file("/docs/readme.md", Some("readme.md"), source, Some(100));
    state
}

fn key(c: char) -> KeyPress {
    KeyPress { code: KeyCode::Char(c), ctrl: false }
}

fn ctrl(c: char) -> KeyPress {
    KeyPress { code: KeyCode::Char(c), ctrl: true }
}

fn code(code: KeyCode) -> KeyPress {
    KeyPress { code, ctrl: false }
}

fn press(state: &mut AppState, key: KeyPress) -> Effect {
    handle_key(state, key, 10, "")
}

#[test]
fn normal_keys_move_and_toggle() {
    let source: String = (0..20).map(|i| format!("line {}\n\n", i)).collect();
    let mut state = with_document(&source);
    press(&mut state, key('j'));
    press(&mut state, code(KeyCode::Down));
    assert_eq!(state.current_pane().scroll, 2);
    press(&mut state, key('k'));
    press(&mut state, code(KeyCode::Up));
    assert_eq!(state.current_pane().scroll, 0);
    press(&mut state, ctrl('d'));
    assert_eq!(state.current_pane().scroll, 5);
    press(&mut state, code(KeyCode::PageDown));
    assert_eq!(state.current_pane().scroll, 10);
    press(&mut state, ctrl('u'));
    press(&mut state, code(KeyCode::PageUp));
    assert_eq!(state.current_pane().scroll, 0);
    press(&mut state, key('d'));
    press(&mut state, key('u'));
    assert_eq!(state.current_pane().scroll, 0);
    press(&mut state, key('G'));
    assert_eq!(state.current_pane().scroll, 39);
    press(&mut state, key('g'));
    assert_eq!(state.current_pane().scroll, 0);
    press(&mut state, code(KeyCode::End));
    assert_eq!(state.current_pane().scroll, 39);
    press(&mut state, code(KeyCode::Home));
    assert_eq!(state.current_pane().scroll, 0);
    press(&mut state, key('w'));
    assert!(!state.prefs.line_wrap);
    press(&mut state, key('l'));
    press(&mut state, code(KeyCode::Right));
    assert_eq!(state.current_pane().horizontal_scroll, 8);
    press(&mut state, key('h'));
    press(&mut state, code(KeyCode::Left));
    assert_eq!(state.current_pane().horizontal_scroll, 0);
    press(&mut state, key('#'));
    assert!(state.prefs.show_line_numbers);
    press(&mut state, ctrl('s'));
    assert!(!state.prefs.syntax_highlighting);
    press(&mut state, key('s'));
    assert!(!state.prefs.syntax_highlighting);
    press(&mut state, key('R'));
    assert!(state.prefs.auto_reload);
    press(&mut state, key('b'));
    assert!(!state.ui.show_outline);
    press(&mut state, key('b'));
    press(&mut state, code(KeyCode::Tab));
    assert_eq!(state.ui.focused_panel, FocusedPanel::Outline);
    press(&mut state, key('l'));
    assert_eq!(state.current_pane().horizontal_scroll, 0);
    press(&mut state, key('f'));
    assert_eq!(state.ui.status_message.as_deref(), Some("Auto-reload enabled"));
    assert!(matches!(press(&mut state, code(KeyCode::Other)), Effect::Done));
    assert!(matches!(press(&mut state, key('c')), Effect::Done));
    assert!(!state.ui.should_quit);
    press(&mut state, ctrl('c'));
    assert!(state.ui.should_quit);
    let mut other = fresh();
    press(&mut other, key('q'));
    assert!(other.ui.should_quit);
}

#[test]
fn outline_keys_select_headings() {
    let mut state = with_document("# A\n\n## B\n\n## C");
    press(&mut state, code(KeyCode::Tab));
    press(&mut state, key('j'));
    press(&mut state, code(KeyCode::Down));
    assert_eq!(state.ui.outline_selected, 2);
    assert_eq!(state.current_pane().scroll, 0);
    press(&mut state, key('k'));
    assert_eq!(state.ui.outline_selected, 1);
    assert!(matches!(press(&mut state, code(KeyCode::Enter)), Effect::Done));
    assert_eq!(state.current_pane().scroll, 2);
    assert_eq!(state.ui.focused_panel, FocusedPanel::Content);
    match press(&mut state, code(KeyCode::Enter)) {
        Effect::Open(OpenAction::Stay) => {}
        other => panic!("unexpected {:?}", other),
    }
    assert_eq!(state.ui.status_message.as_deref(), Some("No link on this line"));
}

#[test]
fn search_keys() {
    let mut state = with_document("needle\n\nhay needle");
    assert!(matches!(press(&mut state, key('/')), Effect::ClearInput));
    assert_eq!(state.ui.mode, InputMode::Search);
    assert!(matches!(press(&mut state, key('n')), Effect::TypeInInput));
    assert!(matches!(press(&mut state, key('q')), Effect::TypeInInput));
    assert!(matches!(press(&mut state, code(KeyCode::Tab)), Effect::TypeInInput));
    assert!(matches!(press(&mut state, key('r')), Effect::TypeInInput));
    assert!(!state.ui.should_quit);
    press(&mut state, ctrl('r'));
    assert!(state.current_pane().search_is_regex);
    assert!(matches!(
        handle_key(&mut state, code(KeyCode::Enter), 10, "n..dle"),
        Effect::Done
    ));
    assert_eq!(state.ui.mode, InputMode::Normal);
    assert_eq!(state.current_pane().search_matches.len(), 2);
    press(&mut state, key('n'));
    assert_eq!(state.current_pane().scroll, 2);
    press(&mut state, key('N'));
    assert_eq!(state.current_pane().scroll, 0);
    press(&mut state, key('/'));
    press(&mut state, code(KeyCode::Esc));
    assert_eq!(state.ui.mode, InputMode::Normal);
    assert_eq!(state.current_pane().search_matches.len(), 2);
    press(&mut state, code(KeyCode::Esc));
    assert!(state.current_pane().search_matches.is_empty());
}

#[test]
fn split_keys() {
    let mut state = with_document("text");
    press(&mut state, ctrl('w'));
    assert_eq!(state.ui.mode, InputMode::SplitCommand);
    press(&mut state, key('v'));
    assert_eq!(state.ui.mode, InputMode::Normal);
    assert_eq!(state.view.split_direction, SplitDirection::Vertical);
    assert_eq!(state.view.active_pane, 1);
    press(&mut state, ctrl('w'));
    press(&mut state, key('w'));
    assert_eq!(state.view.active_pane, 0);
    assert!(state.prefs.line_wrap);
    press(&mut state, ctrl('w'));
    press(&mut state, key('x'));
    assert_eq!(state.ui.mode, InputMode::Normal);
    assert_eq!(state.view.panes.len(), 2);
    press(&mut state, ctrl('w'));
    press(&mut state, key('q'));
    assert_eq!(state.view.panes.len(), 1);
    assert!(!state.ui.should_quit);
    press(&mut state, ctrl('w'));
    press(&mut state, key('s'));
    assert_eq!(state.view.split_direction, SplitDirection::Horizontal);
}

#[test]
fn overlays_take_the_keys_first() {
    let mut state = with_document("text");
    press(&mut state, key('?'));
    assert!(state.overlays.show_help);
    press(&mut state, key('j'));
    assert_eq!(state.current_pane().scroll, 0);
    press(&mut state, key('S'));
    assert!(!state.overlays.show_settings);
    press(&mut state, key('q'));
    assert!(!state.overlays.show_help);
    assert!(!state.ui.should_quit);
    press(&mut state, key('?'));
    press(&mut state, key('?'));
    assert!(!state.overlays.show_help);
    press(&mut state, key('?'));
    press(&mut state, code(KeyCode::Esc));
    assert!(!state.overlays.show_help);

    press(&mut state, key('S'));
    assert!(state.overlays.show_settings);
    press(&mut state, key('k'));
    assert_eq!(state.overlays.settings_selected, 6);
    match press(&mut state, code(KeyCode::Enter)) {
        Effect::SaveConfig(config) => assert_eq!(config.theme, "default"),
        other => panic!("unexpected {:?}", other),
    }
    press(&mut state, key('j'));
    assert_eq!(state.overlays.settings_selected, 0);
    press(&mut state, key(' '));
    assert_eq!(state.prefs.theme.name, "dracula");
    let expected = [
        (1, "line_wrap"),
        (2, "show_outline"),
        (3, "show_line_numbers"),
        (4, "syntax_highlighting"),
        (5, "auto_reload"),
    ];
    for (index, _) in expected {
        press(&mut state, code(KeyCode::Down));
        assert_eq!(state.overlays.settings_selected, index);
        press(&mut state, code(KeyCode::Enter));
    }
    assert!(!state.prefs.line_wrap);
    assert!(!state.ui.show_outline);
    assert!(state.prefs.show_line_numbers);
    assert!(!state.prefs.syntax_highlighting);
    assert!(state.prefs.auto_reload);
    press(&mut state, code(KeyCode::Up));
    assert_eq!(state.overlays.settings_selected, 4);
    press(&mut state, key('S'));
    assert!(!state.overlays.show_settings);
    press(&mut state, key('S'));
    press(&mut state, code(KeyCode::Esc));
    assert!(!state.overlays.show_settings);
}

#[test]
fn list_overlays() {
    let mut state = with_document("text");
    assert!(matches!(press(&mut state, key('o')), Effect::PickFile));
    state.open_file_picker(vec!["a.md".to_string(), "b.md".to_string()]);
    press(&mut state, key('j'));
    match press(&mut state, code(KeyCode::Enter)) {
        Effect::Open(OpenAction::LoadFile(path)) => assert_eq!(path, "b.md"),
        other => panic!("unexpected {:?}", other),
    }
    state.open_file_picker(vec!["a.md".to_string()]);
    press(&mut state, key('o'));
    assert!(!state.picker.show_file_picker);
    state.open_file_picker(vec!["a.md".to_string()]);
    press(&mut state, key('q'));
    assert!(!state.picker.show_file_picker);
    assert!(!state.ui.should_quit);

    press(&mut state, key('B'));
    assert!(state.open.show_buffer_list);
    press(&mut state, key('B'));
    assert!(!state.open.show_buffer_list);
    press(&mut state, key('B'));
    press(&mut state, code(KeyCode::Enter));
    assert!(!state.open.show_buffer_list);
    assert_eq!(state.ui.status_message.as_deref(), Some("Switched to buffer 1"));

    press(&mut state, key('H'));
    assert!(state.library.show_history);
    match press(&mut state, code(KeyCode::Enter)) {
        Effect::Open(OpenAction::LoadFile(path)) => assert_eq!(path, "/docs/readme.md"),
        other => panic!("unexpected {:?}", other),
    }
    press(&mut state, key('H'));
    press(&mut state, key('H'));
    assert!(!state.library.show_history);

    match press(&mut state, key('M')) {
        Effect::FillInput(name) => assert_eq!(name, "readme.md"),
        other => panic!("unexpected {:?}", other),
    }
    assert!(matches!(press(&mut state, key('x')), Effect::TypeInInput));
    match handle_key(&mut state, code(KeyCode::Enter), 10, "Read me") {
        Effect::SaveNewBookmark(name) => assert_eq!(name, "Read me"),
        other => panic!("unexpected {:?}", other),
    }
    assert!(matches!(press(&mut state, key('M')), Effect::Done));
    press(&mut state, key('m'));
    assert!(state.library.show_bookmarks);
    assert!(matches!(press(&mut state, key('d')), Effect::SaveBookmarks));
    assert!(!state.library.show_bookmarks);
    press(&mut state, key('M'));
    press(&mut state, code(KeyCode::Esc));
    assert!(!state.overlays.show_bookmark_name_input);

    assert!(matches!(press(&mut state, key('O')), Effect::ClearInput));
    assert!(state.overlays.show_url_input);
    assert!(matches!(press(&mut state, key('q')), Effect::TypeInInput));
    match handle_key(&mut state, code(KeyCode::Enter), 10, "https://x/y.md") {
        Effect::Open(OpenAction::Fetch(url)) => assert_eq!(url, "https://x/y.md"),
        other => panic!("unexpected {:?}", other),
    }
    assert!(!state.overlays.show_url_input);
    match press(&mut state, key('y')) {
        Effect::CopyLine(text) => assert_eq!(text, "text"),
        other => panic!("unexpected {:?}", other),
    }
    press(&mut state, ctrl('n'));
    assert_eq!(state.ui.status_message.as_deref(), Some("Buffer 1/1"));
    press(&mut state, ctrl('p'));
    press(&mut state, ctrl('x'));
    assert_eq!(state.ui.status_message.as_deref(), Some("Cannot close last buffer"));
}

#[test]
fn commands_by_context() {
    let mut state = fresh();
    assert_eq!(state.command_for(key('q')), Command::Quit);
    assert_eq!(state.command_for(ctrl('q')), Command::Quit);
    assert_eq!(state.command_for(ctrl('b')), Command::ToggleOutline);
    assert_eq!(state.command_for(ctrl('n')), Command::NextBuffer);
    assert_eq!(state.command_for(key('n')), Command::NextMatch);
    assert_eq!(state.command_for(key('f')), Command::FollowLink);
    assert_eq!(state.command_for(code(KeyCode::Delete)), Command::Ignore);
    state.ui.focused_panel = FocusedPanel::Outline;
    assert_eq!(state.command_for(key('f')), Command::Ignore);
    assert_eq!(state.command_for(code(KeyCode::Enter)), Command::JumpToHeading);
    state.ui.mode = InputMode::UrlInput;
    assert_eq!(state.command_for(key('q')), Command::Ignore);
    state.ui.mode = InputMode::BookmarkName;
    assert_eq!(state.command_for(code(KeyCode::Enter)), Command::Ignore);
    state.library.show_bookmarks = true;
    assert_eq!(state.command_for(code(KeyCode::Delete)), Command::DeleteBookmark);
    assert_eq!(state.command_for(key('m')), Command::CloseBookmarks);
    state.library.show_history = true;
    assert_eq!(state.command_for(key('m')), Command::Ignore);
    state.overlays.show_url_input = true;
    assert_eq!(state.command_for(key('m')), Command::TypeInInput);
    state.open.show_buffer_list = true;
    assert_eq!(state.command_for(key('k')), Command::BufferListUp);
    state.picker.show_file_picker = true;
    assert_eq!(state.command_for(key('k')), Command::FilePickerUp);
    state.overlays.show_settings = true;
    assert_eq!(state.command_for(key('k')), Command::SettingsUp);
    state.overlays.show_help = true;
    assert_eq!(state.command_for(key('k')), Command::Ignore);
    assert_eq!(state.command_for(key('?')), Command::HideHelp);
}

#[test]
fn mouse_scrolls_and_focuses() {
    let source: String = (0..20).map(|i| format!("line {}\n\n", i)).collect();
    let mut state = with_document(&source);
    let wheel = |kind| MouseInput { kind, column: 0, row: 0 };
    handle_mouse(&mut state, wheel(MouseKind::ScrollDown), 10);
    assert_eq!(state.current_pane().scroll, 3);
    handle_mouse(&mut state, wheel(MouseKind::ScrollUp), 10);
    handle_mouse(&mut state, wheel(MouseKind::ScrollUp), 10);
    assert_eq!(state.current_pane().scroll, 0);
    state.go_to_line(38);
    handle_mouse(&mut state, wheel(MouseKind::ScrollDown), 10);
    assert_eq!(state.current_pane().scroll, 39);
    handle_mouse(&mut state, wheel(MouseKind::Other), 10);
    assert_eq!(state.current_pane().scroll, 39);

    state.split_vertical();
    state.layout.outline_area = Area { x: 0, y: 1, width: 24, height: 30 };
    state.layout.content_areas = vec![
        Area { x: 24, y: 1, width: 20, height: 30 },
        Area { x: 44, y: 1, width: 20, height: 30 },
    ];
    let click = |column, row| MouseInput { kind: MouseKind::LeftDown, column, row };
    handle_mouse(&mut state, click(5, 5), 10);
    assert_eq!(state.ui.focused_panel, FocusedPanel::Outline);
    assert_eq!(state.view.active_pane, 1);
    handle_mouse(&mut state, click(30, 5), 10);
    assert_eq!(state.ui.focused_panel, FocusedPanel::Content);
    assert_eq!(state.view.active_pane, 0);
    handle_mouse(&mut state, click(50, 30), 10);
    assert_eq!(state.view.active_pane, 1);
    handle_mouse(&mut state, click(70, 5), 10);
    assert_eq!(state.view.active_pane, 1);
    // Above the outline the click goes to the content.
    handle_mouse(&mut state, click(5, 0), 10);
    assert_eq!(state.ui.focused_panel, FocusedPanel::Content);
    state.toggle_outline();
    handle_mouse(&mut state, click(5, 5), 10);
    assert_eq!(state.ui.focused_panel, FocusedPanel::Content);
    // An area without a pane behind it changes nothing.
    state.close_pane();
    handle_mouse(&mut state, click(50, 5), 10);
    assert_eq!(state.view.active_pane, 0);
}
