//! What the keys and the mouse do: which command a key stands for in the
//! state that the viewer is in, and how a command changes the state.
//!
//! Keys and mouse events come as plain values. Where a command needs work
//! that only the caller can do, it is handed back as an [`Effect`].

use crate::app::{
    says, scrolled_down, scrolled_up, AppState, FocusedPanel, InputMode, Interface, PaneLayout,
    PaneView, Preferences,
};
use crate::config::Config;
use crate::overlays::OpenAction;
use vstd::prelude::*;

verus! {

/// A key of the keyboard.
#[derive(Clone, Copy, Debug, PartialEq, Eq, Structural)]
pub enum KeyCode {
    Char(char),
    Enter,
    Esc,
    Tab,
    Up,
    Down,
    Left,
    Right,
    PageUp,
    PageDown,
    Home,
    End,
    Delete,
    /// Any other key.
    Other,
}

/// A key that was pressed, and whether the control key was held.
#[derive(Clone, Copy, Debug, PartialEq, Eq, Structural)]
pub struct KeyPress {
    pub code: KeyCode,
    pub ctrl: bool,
}

/// What the mouse did.
#[derive(Clone, Copy, Debug, PartialEq, Eq, Structural)]
pub enum MouseKind {
    ScrollUp,
    ScrollDown,
    /// The left button was pressed.
    LeftDown,
    /// Anything else.
    Other,
}

/// An event of the mouse, with the cell that it happened in.
#[derive(Clone, Copy, Debug, PartialEq, Eq, Structural)]
pub struct MouseInput {
    pub kind: MouseKind,
    pub column: u16,
    pub row: u16,
}

/// What a key asks the viewer to do.
#[derive(Clone, Copy, Debug, PartialEq, Eq, Structural)]
pub enum Command {
    Ignore,
    Quit,
    ShowHelp,
    HideHelp,
    ShowSettings,
    HideSettings,
    SettingsDown,
    SettingsUp,
    ToggleSetting,
    ToggleOutline,
    CycleFocus,
    ScrollDown,
    ScrollUp,
    OutlineDown,
    OutlineUp,
    ScrollLeft,
    ScrollRight,
    PageDown,
    PageUp,
    GoToTop,
    GoToBottom,
    JumpToHeading,
    FollowLink,
    NextBuffer,
    PrevBuffer,
    CloseBuffer,
    OpenBufferList,
    CloseBufferList,
    BufferListDown,
    BufferListUp,
    SelectBuffer,
    StartSearch,
    ApplySearch,
    CancelSearch,
    ToggleRegex,
    NextMatch,
    PrevMatch,
    ClearSearch,
    StartSplitCommand,
    SplitVertical,
    SplitHorizontal,
    ClosePane,
    CyclePane,
    /// A key of the split command that stands for nothing: the command is
    /// over.
    EndSplitCommand,
    ToggleLineWrap,
    ToggleLineNumbers,
    ToggleSyntaxHighlighting,
    ToggleAutoReload,
    OpenHistory,
    CloseHistory,
    HistoryDown,
    HistoryUp,
    SelectHistory,
    YankLine,
    OpenFilePicker,
    CloseFilePicker,
    FilePickerDown,
    FilePickerUp,
    OpenSelectedFile,
    StartUrlInput,
    SubmitUrl,
    CancelUrlInput,
    OpenBookmarks,
    CloseBookmarks,
    BookmarksDown,
    BookmarksUp,
    SelectBookmark,
    DeleteBookmark,
    StartAddBookmark,
    ConfirmAddBookmark,
    CancelAddBookmark,
    /// The key belongs to the text input that is open.
    TypeInInput,
}

/// What the caller is to do after a command.
#[derive(Debug)]
pub enum Effect {
    /// Nothing.
    Done,
    /// Hand the key to the text input that is open.
    TypeInInput,
    /// Empty the text input that was opened.
    ClearInput,
    /// Put this text into the text input that was opened.
    FillInput(String),
    /// Open a document, or put a link on the clipboard.
    Open(OpenAction),
    /// Put this line on the clipboard, and report with
    /// [`AppState::line_copied`].
    CopyLine(String),
    /// List the Markdown files of the directory, and show them with
    /// [`AppState::open_file_picker`].
    PickFile,
    /// Save these settings, and report with [`AppState::config_saved`].
    SaveConfig(Config),
    /// Save the bookmarks.
    SaveBookmarks,
    /// Save the bookmarks, and report with [`AppState::bookmark_saved`] for
    /// the bookmark of this name.
    SaveNewBookmark(String),
}

/// What of the state decides which command a key stands for.
pub ghost struct KeyContext {
    pub show_help: bool,
    pub show_settings: bool,
    pub show_file_picker: bool,
    pub show_buffer_list: bool,
    pub show_url_input: bool,
    pub show_history: bool,
    pub show_bookmarks: bool,
    pub show_bookmark_name_input: bool,
    pub mode: InputMode,
    pub focused_panel: FocusedPanel,
}

/// The command of a key while the help is shown.
pub open spec fn help_command(key: KeyPress) -> Command {
    match key.code {
        KeyCode::Esc => Command::HideHelp,
        KeyCode::Char(c) => if c == 'q' || c == '?' {
            Command::HideHelp
        } else {
            Command::Ignore
        },
        _ => Command::Ignore,
    }
}

/// The command of a key while the settings are shown.
pub open spec fn settings_command(key: KeyPress) -> Command {
    match key.code {
        KeyCode::Esc => Command::HideSettings,
        KeyCode::Down => Command::SettingsDown,
        KeyCode::Up => Command::SettingsUp,
        KeyCode::Enter => Command::ToggleSetting,
        KeyCode::Char(c) => if c == 'S' {
            Command::HideSettings
        } else if c == 'j' {
            Command::SettingsDown
        } else if c == 'k' {
            Command::SettingsUp
        } else if c == ' ' {
            Command::ToggleSetting
        } else {
            Command::Ignore
        },
        _ => Command::Ignore,
    }
}

/// The command of a key in a list overlay that closes on `Esc`, `q` and
/// its own key, moves with `j`, `k` and the arrows, and selects on `Enter`.
pub open spec fn list_command(
    key: KeyPress,
    own: char,
    close: Command,
    down: Command,
    up: Command,
    select: Command,
) -> Command {
    match key.code {
        KeyCode::Esc => close,
        KeyCode::Down => down,
        KeyCode::Up => up,
        KeyCode::Enter => select,
        KeyCode::Char(c) => if c == own || c == 'q' {
            close
        } else if c == 'j' {
            down
        } else if c == 'k' {
            up
        } else {
            Command::Ignore
        },
        _ => Command::Ignore,
    }
}

/// The command of a key while the bookmarks are shown.
pub open spec fn bookmarks_command(key: KeyPress) -> Command {
    match key.code {
        KeyCode::Delete => Command::DeleteBookmark,
        KeyCode::Char(c) => if c == 'd' {
            Command::DeleteBookmark
        } else {
            list_command(
                key,
                'm',
                Command::CloseBookmarks,
                Command::BookmarksDown,
                Command::BookmarksUp,
                Command::SelectBookmark,
            )
        },
        _ => list_command(
            key,
            'm',
            Command::CloseBookmarks,
            Command::BookmarksDown,
            Command::BookmarksUp,
            Command::SelectBookmark,
        ),
    }
}

/// The command of a key while a text is typed: `Enter` submits, `Esc`
/// cancels, and every other key goes to the input.
pub open spec fn text_command(key: KeyPress, submit: Command, cancel: Command) -> Command {
    match key.code {
        KeyCode::Enter => submit,
        KeyCode::Esc => cancel,
        _ => Command::TypeInInput,
    }
}

/// The command of a key while a search query is typed.
pub open spec fn search_command(key: KeyPress) -> Command {
    match key.code {
        KeyCode::Enter => Command::ApplySearch,
        KeyCode::Esc => Command::CancelSearch,
        KeyCode::Char(c) => if c == 'r' && key.ctrl {
            Command::ToggleRegex
        } else {
            Command::TypeInInput
        },
        _ => Command::TypeInInput,
    }
}

/// The command of the key that follows the split key.
pub open spec fn split_command(key: KeyPress) -> Command {
    match key.code {
        KeyCode::Char(c) => if c == 'v' {
            Command::SplitVertical
        } else if c == 's' {
            Command::SplitHorizontal
        } else if c == 'q' {
            Command::ClosePane
        } else if c == 'w' {
            Command::CyclePane
        } else {
            Command::EndSplitCommand
        },
        _ => Command::EndSplitCommand,
    }
}

/// The command of a character key in normal input.
pub open spec fn normal_char_command(c: char, ctrl: bool, focused: FocusedPanel) -> Command {
    let content = focused == FocusedPanel::Content;
    if c == 'q' {
        Command::Quit
    } else if c == 'c' && ctrl {
        Command::Quit
    } else if c == '?' {
        Command::ShowHelp
    } else if c == 'S' {
        Command::ShowSettings
    } else if c == 'b' {
        Command::ToggleOutline
    } else if c == 'j' {
        if content {
            Command::ScrollDown
        } else {
            Command::OutlineDown
        }
    } else if c == 'k' {
        if content {
            Command::ScrollUp
        } else {
            Command::OutlineUp
        }
    } else if c == 'h' {
        if content {
            Command::ScrollLeft
        } else {
            Command::Ignore
        }
    } else if c == 'l' {
        if content {
            Command::ScrollRight
        } else {
            Command::Ignore
        }
    } else if c == 'd' && ctrl {
        Command::PageDown
    } else if c == 'u' && ctrl {
        Command::PageUp
    } else if c == 'g' {
        Command::GoToTop
    } else if c == 'G' {
        Command::GoToBottom
    } else if c == 'f' && content {
        Command::FollowLink
    } else if c == 'n' && ctrl {
        Command::NextBuffer
    } else if c == 'p' && ctrl {
        Command::PrevBuffer
    } else if c == 'x' && ctrl {
        Command::CloseBuffer
    } else if c == 'B' {
        Command::OpenBufferList
    } else if c == '/' {
        Command::StartSearch
    } else if c == 'n' {
        Command::NextMatch
    } else if c == 'N' {
        Command::PrevMatch
    } else if c == 'w' && ctrl {
        Command::StartSplitCommand
    } else if c == 'w' {
        Command::ToggleLineWrap
    } else if c == '#' {
        Command::ToggleLineNumbers
    } else if c == 's' && ctrl {
        Command::ToggleSyntaxHighlighting
    } else if c == 'R' {
        Command::ToggleAutoReload
    } else if c == 'H' {
        Command::OpenHistory
    } else if c == 'y' {
        Command::YankLine
    } else if c == 'o' {
        Command::OpenFilePicker
    } else if c == 'O' {
        Command::StartUrlInput
    } else if c == 'm' {
        Command::OpenBookmarks
    } else if c == 'M' {
        Command::StartAddBookmark
    } else {
        Command::Ignore
    }
}

/// The command of a key in normal input.
pub open spec fn normal_command(key: KeyPress, focused: FocusedPanel) -> Command {
    let content = focused == FocusedPanel::Content;
    match key.code {
        KeyCode::Char(c) => normal_char_command(c, key.ctrl, focused),
        KeyCode::Tab => Command::CycleFocus,
        KeyCode::Down => if content {
            Command::ScrollDown
        } else {
            Command::OutlineDown
        },
        KeyCode::Up => if content {
            Command::ScrollUp
        } else {
            Command::OutlineUp
        },
        KeyCode::Left => if content {
            Command::ScrollLeft
        } else {
            Command::Ignore
        },
        KeyCode::Right => if content {
            Command::ScrollRight
        } else {
            Command::Ignore
        },
        KeyCode::PageDown => Command::PageDown,
        KeyCode::PageUp => Command::PageUp,
        KeyCode::Home => Command::GoToTop,
        KeyCode::End => Command::GoToBottom,
        KeyCode::Enter => if content {
            Command::FollowLink
        } else {
            Command::JumpToHeading
        },
        KeyCode::Esc => Command::ClearSearch,
        _ => Command::Ignore,
    }
}

/// The command that a key stands for. An overlay that is shown takes the
/// key, the help before the settings, these before the file picker, the list
/// of open documents, the URL input, the history, the bookmarks and the name
/// of a bookmark; else the input mode decides.
pub open spec fn command_spec(context: KeyContext, key: KeyPress) -> Command {
    if context.show_help {
        help_command(key)
    } else if context.show_settings {
        settings_command(key)
    } else if context.show_file_picker {
        list_command(
            key,
            'o',
            Command::CloseFilePicker,
            Command::FilePickerDown,
            Command::FilePickerUp,
            Command::OpenSelectedFile,
        )
    } else if context.show_buffer_list {
        list_command(
            key,
            'B',
            Command::CloseBufferList,
            Command::BufferListDown,
            Command::BufferListUp,
            Command::SelectBuffer,
        )
    } else if context.show_url_input {
        text_command(key, Command::SubmitUrl, Command::CancelUrlInput)
    } else if context.show_history {
        list_command(
            key,
            'H',
            Command::CloseHistory,
            Command::HistoryDown,
            Command::HistoryUp,
            Command::SelectHistory,
        )
    } else if context.show_bookmarks {
        bookmarks_command(key)
    } else if context.show_bookmark_name_input {
        text_command(key, Command::ConfirmAddBookmark, Command::CancelAddBookmark)
    } else {
        match context.mode {
            InputMode::Normal => normal_command(key, context.focused_panel),
            InputMode::Search => search_command(key),
            InputMode::SplitCommand => split_command(key),
            _ => Command::Ignore,
        }
    }
}

/// Whether a command is one of those that end the split command.
pub open spec fn is_split_command(command: Command) -> bool {
    command == Command::SplitVertical || command == Command::SplitHorizontal || command
        == Command::ClosePane || command == Command::CyclePane || command
        == Command::EndSplitCommand
}

/// Whether an effect is one that a command can leave to the caller. A
/// command that opens a text input has it emptied or filled; one that opens a
/// document, copies, lists files or saves hands that out, or nothing where
/// there was nothing to do; every other command leaves nothing.
pub open spec fn effect_fits(command: Command, effect: Effect) -> bool {
    match command {
        Command::TypeInInput => effect is TypeInInput,
        Command::StartSearch | Command::StartUrlInput => effect is ClearInput,
        Command::FollowLink
        | Command::SelectHistory
        | Command::OpenSelectedFile
        | Command::SubmitUrl
        | Command::SelectBookmark => effect is Open,
        Command::YankLine => effect is CopyLine || effect is Done,
        Command::OpenFilePicker => effect is PickFile,
        Command::ToggleSetting => effect is SaveConfig || effect is Done,
        Command::DeleteBookmark => effect is SaveBookmarks || effect is Done,
        Command::StartAddBookmark => effect is FillInput || effect is Done,
        Command::ConfirmAddBookmark => effect is SaveNewBookmark || effect is Done,
        _ => effect is Done,
    }
}

fn list_key(key: KeyPress, own: char, close: Command, down: Command, up: Command,
    select: Command) -> (command:
    Command)
    ensures
        command == list_command(key, own, close, down, up, select),
{
    match key.code {
        KeyCode::Esc => close,
        KeyCode::Down => down,
        KeyCode::Up => up,
        KeyCode::Enter => select,
        KeyCode::Char(c) => if c == own || c == 'q' {
            close
        } else if c == 'j' {
            down
        } else if c == 'k' {
            up
        } else {
            Command::Ignore
        },
        _ => Command::Ignore,
    }
}

fn text_key(key: KeyPress, submit: Command, cancel: Command) -> (command: Command)
    ensures
        command == text_command(key, submit, cancel),
{
    match key.code {
        KeyCode::Enter => submit,
        KeyCode::Esc => cancel,
        _ => Command::TypeInInput,
    }
}

fn normal_char_key(c: char, ctrl: bool, focused: FocusedPanel) -> (command: Command)
    ensures
        command == normal_char_command(c, ctrl, focused),
{
    let content = focused == FocusedPanel::Content;
    if c == 'q' {
        Command::Quit
    } else if c == 'c' && ctrl {
        Command::Quit
    } else if c == '?' {
        Command::ShowHelp
    } else if c == 'S' {
        Command::ShowSettings
    } else if c == 'b' {
        Command::ToggleOutline
    } else if c == 'j' {
        if content {
            Command::ScrollDown
        } else {
            Command::OutlineDown
        }
    } else if c == 'k' {
        if content {
            Command::ScrollUp
        } else {
            Command::OutlineUp
        }
    } else if c == 'h' {
        if content {
            Command::ScrollLeft
        } else {
            Command::Ignore
        }
    } else if c == 'l' {
        if content {
            Command::ScrollRight
        } else {
            Command::Ignore
        }
    } else if c == 'd' && ctrl {
        Command::PageDown
    } else if c == 'u' && ctrl {
        Command::PageUp
    } else if c == 'g' {
        Command::GoToTop
    } else if c == 'G' {
        Command::GoToBottom
    } else if c == 'f' && content {
        Command::FollowLink
    } else if c == 'n' && ctrl {
        Command::NextBuffer
    } else if c == 'p' && ctrl {
        Command::PrevBuffer
    } else if c == 'x' && ctrl {
        Command::CloseBuffer
    } else if c == 'B' {
        Command::OpenBufferList
    } else if c == '/' {
        Command::StartSearch
    } else if c == 'n' {
        Command::NextMatch
    } else if c == 'N' {
        Command::PrevMatch
    } else if c == 'w' && ctrl {
        Command::StartSplitCommand
    } else if c == 'w' {
        Command::ToggleLineWrap
    } else if c == '#' {
        Command::ToggleLineNumbers
    } else if c == 's' && ctrl {
        Command::ToggleSyntaxHighlighting
    } else if c == 'R' {
        Command::ToggleAutoReload
    } else if c == 'H' {
        Command::OpenHistory
    } else if c == 'y' {
        Command::YankLine
    } else if c == 'o' {
        Command::OpenFilePicker
    } else if c == 'O' {
        Command::StartUrlInput
    } else if c == 'm' {
        Command::OpenBookmarks
    } else if c == 'M' {
        Command::StartAddBookmark
    } else {
        Command::Ignore
    }
}

fn normal_key(key: KeyPress, focused: FocusedPanel) -> (command: Command)
    ensures
        command == normal_command(key, focused),
{
    let content = focused == FocusedPanel::Content;
    match key.code {
        KeyCode::Char(c) => normal_char_key(c, key.ctrl, focused),
        KeyCode::Tab => Command::CycleFocus,
        KeyCode::Down => if content {
            Command::ScrollDown
        } else {
            Command::OutlineDown
        },
        KeyCode::Up => if content {
            Command::ScrollUp
        } else {
            Command::OutlineUp
        },
        KeyCode::Left => if content {
            Command::ScrollLeft
        } else {
            Command::Ignore
        },
        KeyCode::Right => if content {
            Command::ScrollRight
        } else {
            Command::Ignore
        },
        KeyCode::PageDown => Command::PageDown,
        KeyCode::PageUp => Command::PageUp,
        KeyCode::Home => Command::GoToTop,
        KeyCode::End => Command::GoToBottom,
        KeyCode::Enter => if content {
            Command::FollowLink
        } else {
            Command::JumpToHeading
        },
        KeyCode::Esc => Command::ClearSearch,
        _ => Command::Ignore,
    }
}

fn overlay_key(key: KeyPress, settings: bool) -> (command: Command)
    ensures
        command == if settings {
            settings_command(key)
        } else {
            help_command(key)
        },
{
    if settings {
        match key.code {
            KeyCode::Esc => Command::HideSettings,
            KeyCode::Down => Command::SettingsDown,
            KeyCode::Up => Command::SettingsUp,
            KeyCode::Enter => Command::ToggleSetting,
            KeyCode::Char(c) => if c == 'S' {
                Command::HideSettings
            } else if c == 'j' {
                Command::SettingsDown
            } else if c == 'k' {
                Command::SettingsUp
            } else if c == ' ' {
                Command::ToggleSetting
            } else {
                Command::Ignore
            },
            _ => Command::Ignore,
        }
    } else {
        match key.code {
            KeyCode::Esc => Command::HideHelp,
            KeyCode::Char(c) => if c == 'q' || c == '?' {
                Command::HideHelp
            } else {
                Command::Ignore
            },
            _ => Command::Ignore,
        }
    }
}

fn mode_key(key: KeyPress, mode: InputMode, focused: FocusedPanel) -> (command: Command)
    ensures
        command == match mode {
            InputMode::Normal => normal_command(key, focused),
            InputMode::Search => search_command(key),
            InputMode::SplitCommand => split_command(key),
            _ => Command::Ignore,
        },
{
    match mode {
        InputMode::Normal => normal_key(key, focused),
        InputMode::Search => match key.code {
            KeyCode::Enter => Command::ApplySearch,
            KeyCode::Esc => Command::CancelSearch,
            KeyCode::Char(c) => if c == 'r' && key.ctrl {
                Command::ToggleRegex
            } else {
                Command::TypeInInput
            },
            _ => Command::TypeInInput,
        },
        InputMode::SplitCommand => match key.code {
            KeyCode::Char(c) => if c == 'v' {
                Command::SplitVertical
            } else if c == 's' {
                Command::SplitHorizontal
            } else if c == 'q' {
                Command::ClosePane
            } else if c == 'w' {
                Command::CyclePane
            } else {
                Command::EndSplitCommand
            },
            _ => Command::EndSplitCommand,
        },
        _ => Command::Ignore,
    }
}

impl AppState {
    /// What of the state decides which command a key stands for.
    pub open spec fn key_context(&self) -> KeyContext {
        KeyContext {
            show_help: self.overlays.show_help,
            show_settings: self.overlays.show_settings,
            show_file_picker: self.picker.show_file_picker,
            show_buffer_list: self.open.show_buffer_list,
            show_url_input: self.overlays.show_url_input,
            show_history: self.library.show_history,
            show_bookmarks: self.library.show_bookmarks,
            show_bookmark_name_input: self.overlays.show_bookmark_name_input,
            mode: self.ui.mode,
            focused_panel: self.ui.focused_panel,
        }
    }

    /// The command that a key stands for in this state.
    pub fn command_for(&self, key: KeyPress) -> (command: Command)
        ensures
            command == command_spec(self.key_context(), key),
    {
        if self.overlays.show_help {
            overlay_key(key, false)
        } else if self.overlays.show_settings {
            overlay_key(key, true)
        } else if self.picker.show_file_picker {
            list_key(
                key,
                'o',
                Command::CloseFilePicker,
                Command::FilePickerDown,
                Command::FilePickerUp,
                Command::OpenSelectedFile,
            )
        } else if self.open.show_buffer_list {
            list_key(
                key,
                'B',
                Command::CloseBufferList,
                Command::BufferListDown,
                Command::BufferListUp,
                Command::SelectBuffer,
            )
        } else if self.overlays.show_url_input {
            text_key(key, Command::SubmitUrl, Command::CancelUrlInput)
        } else if self.library.show_history {
            list_key(
                key,
                'H',
                Command::CloseHistory,
                Command::HistoryDown,
                Command::HistoryUp,
                Command::SelectHistory,
            )
        } else if self.library.show_bookmarks {
            match key.code {
                KeyCode::Delete => Command::DeleteBookmark,
                KeyCode::Char(c) => if c == 'd' {
                    Command::DeleteBookmark
                } else {
                    list_key(
                        key,
                        'm',
                        Command::CloseBookmarks,
                        Command::BookmarksDown,
                        Command::BookmarksUp,
                        Command::SelectBookmark,
                    )
                },
                _ => list_key(
                    key,
                    'm',
                    Command::CloseBookmarks,
                    Command::BookmarksDown,
                    Command::BookmarksUp,
                    Command::SelectBookmark,
                ),
            }
        } else if self.overlays.show_bookmark_name_input {
            text_key(key, Command::ConfirmAddBookmark, Command::CancelAddBookmark)
        } else {
            mode_key(key, self.ui.mode, self.ui.focused_panel)
        }
    }

    /// Moves the selection of the settings: down, or up where `down` is
    /// false, around the ends of the seven entries.
    fn move_settings(&mut self, down: bool)
        ensures
            final(self).wf() == old(self).wf(),
            *final(self) == (AppState { overlays: final(self).overlays, ..*old(self) }),
            final(self).overlays == (crate::app::Overlays {
                settings_selected: final(self).overlays.settings_selected,
                ..old(self).overlays
            }),
            final(self).overlays.settings_selected == if down {
                (old(self).overlays.settings_selected + 1) % 7
            } else if old(self).overlays.settings_selected == 0 {
                6
            } else {
                old(self).overlays.settings_selected - 1
            },
    {
        let selected = self.overlays.settings_selected;
        let next = if down {
            assert((selected % 7 + 1) % 7 == (selected + 1) % 7) by {
                vstd::arithmetic::div_mod::lemma_add_mod_noop(selected as int, 1, 7);
                vstd::arithmetic::div_mod::lemma_add_mod_noop((selected % 7) as int, 1, 7);
                vstd::arithmetic::div_mod::lemma_mod_twice(selected as int, 7);
            }
            (selected % 7 + 1) % 7
        } else if selected == 0 {
            6
        } else {
            selected - 1
        };
        self.overlays.settings_selected = next;
    }

    /// Whether `after` and `effect` are what switching the selected entry of
    /// the settings makes of this state. The entries are, in their order:
    /// the theme, which changes to the next of the cycle; the wrapping of
    /// lines; the outline; the line numbers; the highlighting of code; the
    /// reloading of changed files; and the entry that saves the settings,
    /// which changes nothing and hands the settings out. Where the theme or
    /// the highlighting changes, the document is rendered again.
    pub open spec fn setting_switched(&self, after: AppState, effect: Effect) -> bool {
        let selected = self.overlays.settings_selected;
        if selected == 0 {
            effect is Done && self.rendered_under(
                after,
                Preferences { theme: self.prefs.theme.next_spec(), ..self.prefs },
            )
        } else if selected == 1 {
            effect is Done && after == (AppState {
                prefs: Preferences { line_wrap: !self.prefs.line_wrap, ..self.prefs },
                ..*self
            })
        } else if selected == 2 {
            effect is Done && after == (AppState {
                ui: Interface {
                    show_outline: !self.ui.show_outline,
                    focused_panel: if self.ui.show_outline {
                        FocusedPanel::Content
                    } else {
                        self.ui.focused_panel
                    },
                    ..self.ui
                },
                ..*self
            })
        } else if selected == 3 {
            effect is Done && after == (AppState {
                prefs: Preferences {
                    show_line_numbers: !self.prefs.show_line_numbers,
                    ..self.prefs
                },
                ..*self
            })
        } else if selected == 4 {
            effect is Done && self.rendered_under(
                after,
                Preferences {
                    syntax_highlighting: !self.prefs.syntax_highlighting,
                    ..self.prefs
                },
            )
        } else if selected == 5 {
            &&& effect is Done
            &&& after == (AppState {
                prefs: Preferences { auto_reload: !self.prefs.auto_reload, ..self.prefs },
                ui: Interface { status_message: after.ui.status_message, ..self.ui },
                ..*self
            })
            &&& says(
                after.ui.status_message,
                if self.prefs.auto_reload {
                    "Auto-reload disabled"@
                } else {
                    "Auto-reload enabled"@
                },
            )
        } else if selected == 6 {
            &&& after == *self
            &&& effect matches Effect::SaveConfig(config) && config@ == self.settings()
        } else {
            effect is Done && after == *self
        }
    }

    /// Switches the setting that is selected in the settings.
    fn toggle_setting(&mut self) -> (effect: Effect)
        requires
            old(self).wf(),
        ensures
            final(self).wf(),
            old(self).setting_switched(*final(self), effect),
            effect is SaveConfig || effect is Done,
            final(self).ui.mode == old(self).ui.mode,
    {
        let selected = self.overlays.settings_selected;
        if selected == 0 {
            self.cycle_theme();
        } else if selected == 1 {
            self.toggle_line_wrap();
        } else if selected == 2 {
            self.toggle_outline();
        } else if selected == 3 {
            self.toggle_line_numbers();
        } else if selected == 4 {
            self.toggle_syntax_highlighting();
        } else if selected == 5 {
            self.toggle_auto_reload();
        } else if selected == 6 {
            return Effect::SaveConfig(self.save_config());
        }
        Effect::Done
    }

    /// Carries out a command. `page_size` is the number of lines of a page,
    /// and `input` the text of the text input that is open, if one is.
    /// Returns what is left for the caller to do.
    pub fn perform(&mut self, command: Command, page_size: usize, input: &str) -> (effect: Effect)
        requires
            old(self).wf(),
        ensures
            final(self).wf(),
            effect_fits(command, effect),
            command == Command::Ignore || command == Command::TypeInInput
                || command == Command::OpenFilePicker ==> *final(self) == *old(self),
            command == Command::ToggleSetting ==> old(self).setting_switched(*final(self), effect),
            command == Command::Quit ==> final(self).ui.should_quit,
            command == Command::StartSearch ==> final(self).ui.mode == InputMode::Search,
            command == Command::StartSplitCommand ==> final(self).ui.mode
                == InputMode::SplitCommand,
            command == Command::StartUrlInput ==> final(self).ui.mode == InputMode::UrlInput,
            is_split_command(command) || command == Command::ApplySearch || command
                == Command::CancelSearch || command == Command::SubmitUrl || command
                == Command::CancelUrlInput || command == Command::ConfirmAddBookmark || command
                == Command::CancelAddBookmark ==> final(self).ui.mode == InputMode::Normal,
    {
        match command {
            Command::Ignore => Effect::Done,
            Command::TypeInInput => Effect::TypeInInput,
            Command::Quit => {
                self.ui.should_quit = true;
                Effect::Done
            },
            Command::ShowHelp => {
                self.set_help(true);
                Effect::Done
            },
            Command::HideHelp => {
                self.set_help(false);
                Effect::Done
            },
            Command::ShowSettings => {
                self.set_settings(true);
                Effect::Done
            },
            Command::HideSettings => {
                self.set_settings(false);
                Effect::Done
            },
            Command::SettingsDown => {
                self.move_settings(true);
                Effect::Done
            },
            Command::SettingsUp => {
                self.move_settings(false);
                Effect::Done
            },
            Command::ToggleSetting => self.toggle_setting(),
            Command::ToggleOutline => {
                self.toggle_outline();
                Effect::Done
            },
            Command::CycleFocus => {
                self.cycle_focus();
                Effect::Done
            },
            Command::ScrollDown => {
                self.scroll_down();
                Effect::Done
            },
            Command::ScrollUp => {
                self.scroll_up();
                Effect::Done
            },
            Command::OutlineDown => {
                self.outline_down();
                Effect::Done
            },
            Command::OutlineUp => {
                self.outline_up();
                Effect::Done
            },
            Command::ScrollLeft => {
                self.scroll_left();
                Effect::Done
            },
            Command::ScrollRight => {
                self.scroll_right();
                Effect::Done
            },
            Command::PageDown => {
                self.scroll_page_down(page_size);
                Effect::Done
            },
            Command::PageUp => {
                self.scroll_page_up(page_size);
                Effect::Done
            },
            Command::GoToTop => {
                self.go_to_top();
                Effect::Done
            },
            Command::GoToBottom => {
                self.go_to_bottom();
                Effect::Done
            },
            Command::JumpToHeading => {
                self.jump_to_heading();
                Effect::Done
            },
            Command::FollowLink => Effect::Open(self.follow_link()),
            Command::NextBuffer => {
                self.next_buffer();
                Effect::Done
            },
            Command::PrevBuffer => {
                self.prev_buffer();
                Effect::Done
            },
            Command::CloseBuffer => {
                self.close_buffer();
                Effect::Done
            },
            Command::OpenBufferList => {
                self.open_buffer_list();
                Effect::Done
            },
            Command::CloseBufferList => {
                self.close_buffer_list();
                Effect::Done
            },
            Command::BufferListDown => {
                self.buffer_list_down();
                Effect::Done
            },
            Command::BufferListUp => {
                self.buffer_list_up();
                Effect::Done
            },
            Command::SelectBuffer => {
                self.select_buffer();
                Effect::Done
            },
            Command::StartSearch => {
                self.start_search();
                Effect::ClearInput
            },
            Command::ApplySearch => {
                self.apply_search(input);
                Effect::Done
            },
            Command::CancelSearch => {
                self.cancel_search();
                Effect::Done
            },
            Command::ToggleRegex => {
                self.toggle_regex();
                Effect::Done
            },
            Command::NextMatch => {
                self.next_match();
                Effect::Done
            },
            Command::PrevMatch => {
                self.prev_match();
                Effect::Done
            },
            Command::ClearSearch => {
                self.clear_search();
                Effect::Done
            },
            Command::StartSplitCommand => {
                self.ui.mode = InputMode::SplitCommand;
                Effect::Done
            },
            Command::SplitVertical => {
                self.ui.mode = InputMode::Normal;
                self.split_vertical();
                Effect::Done
            },
            Command::SplitHorizontal => {
                self.ui.mode = InputMode::Normal;
                self.split_horizontal();
                Effect::Done
            },
            Command::ClosePane => {
                self.ui.mode = InputMode::Normal;
                self.close_pane();
                Effect::Done
            },
            Command::CyclePane => {
                self.ui.mode = InputMode::Normal;
                self.cycle_pane();
                Effect::Done
            },
            Command::EndSplitCommand => {
                self.ui.mode = InputMode::Normal;
                Effect::Done
            },
            Command::ToggleLineWrap => {
                self.toggle_line_wrap();
                Effect::Done
            },
            Command::ToggleLineNumbers => {
                self.toggle_line_numbers();
                Effect::Done
            },
            Command::ToggleSyntaxHighlighting => {
                self.toggle_syntax_highlighting();
                Effect::Done
            },
            Command::ToggleAutoReload => {
                self.toggle_auto_reload();
                Effect::Done
            },
            Command::OpenHistory => {
                self.open_history();
                Effect::Done
            },
            Command::CloseHistory => {
                self.close_history();
                Effect::Done
            },
            Command::HistoryDown => {
                self.history_down();
                Effect::Done
            },
            Command::HistoryUp => {
                self.history_up();
                Effect::Done
            },
            Command::SelectHistory => Effect::Open(self.select_history()),
            Command::YankLine => match self.yank_line() {
                Some(text) => Effect::CopyLine(text),
                None => Effect::Done,
            },
            Command::OpenFilePicker => Effect::PickFile,
            Command::CloseFilePicker => {
                self.close_file_picker();
                Effect::Done
            },
            Command::FilePickerDown => {
                self.file_picker_down();
                Effect::Done
            },
            Command::FilePickerUp => {
                self.file_picker_up();
                Effect::Done
            },
            Command::OpenSelectedFile => Effect::Open(self.open_selected_file()),
            Command::StartUrlInput => {
                self.start_url_input();
                Effect::ClearInput
            },
            Command::SubmitUrl => Effect::Open(self.submit_url(input)),
            Command::CancelUrlInput => {
                self.cancel_url_input();
                Effect::Done
            },
            Command::OpenBookmarks => {
                self.open_bookmarks();
                Effect::Done
            },
            Command::CloseBookmarks => {
                self.close_bookmarks();
                Effect::Done
            },
            Command::BookmarksDown => {
                self.bookmarks_down();
                Effect::Done
            },
            Command::BookmarksUp => {
                self.bookmarks_up();
                Effect::Done
            },
            Command::SelectBookmark => Effect::Open(self.select_bookmark()),
            Command::DeleteBookmark => if self.delete_selected_bookmark() {
                Effect::SaveBookmarks
            } else {
                Effect::Done
            },
            Command::StartAddBookmark => match self.start_add_bookmark() {
                Some(name) => Effect::FillInput(name),
                None => Effect::Done,
            },
            Command::ConfirmAddBookmark => match self.confirm_add_bookmark(input) {
                Some(name) => Effect::SaveNewBookmark(name),
                None => Effect::Done,
            },
            Command::CancelAddBookmark => {
                self.cancel_add_bookmark();
                Effect::Done
            },
        }
    }
}

/// Handles a key: finds the command that it stands for in the state that
/// the viewer is in, and carries it out.
pub fn handle_key(state: &mut AppState, key: KeyPress, page_size: usize, input: &str) -> (effect:
    Effect)
    requires
        old(state).wf(),
    ensures
        final(state).wf(),
        effect_fits(command_spec(old(state).key_context(), key), effect),
        command_spec(old(state).key_context(), key) == Command::Ignore || command_spec(
            old(state).key_context(),
            key,
        ) == Command::TypeInInput ==> *final(state) == *old(state),
        command_spec(old(state).key_context(), key) == Command::Quit ==>
            final(state).ui.should_quit,
{
    let command = state.command_for(key);
    state.perform(command, page_size, input)
}

/// The pane that a click in a cell makes current: the first pane whose area
/// holds the cell, and the current pane where none does.
pub open spec fn clicked_pane(state: AppState, column: u16, row: u16, from: int) -> int
    decreases state.layout.content_areas.len() - from,
{
    if from < 0 || from >= state.layout.content_areas.len() {
        state.view.active_pane as int
    } else if state.layout.content_areas[from].contains_spec(column, row) {
        if from < state.view.panes.len() {
            from
        } else {
            state.view.active_pane as int
        }
    } else {
        clicked_pane(state, column, row, from + 1)
    }
}

/// Whether a click in a cell goes to the outline: the outline is shown, and
/// the cell is left of its right edge and not above it.
pub open spec fn clicks_outline(state: AppState, column: u16, row: u16) -> bool {
    state.ui.show_outline && column < state.layout.outline_area.right_spec() && row
        >= state.layout.outline_area.y
}

/// Handles an event of the mouse. The wheel scrolls the current pane by
/// three lines. A click gives the focus to the outline or to the content, and
/// in the content makes the pane current that was clicked.
pub fn handle_mouse(state: &mut AppState, mouse: MouseInput, page_size: usize)
    requires
        old(state).wf(),
    ensures
        final(state).wf(),
        *final(state) == (AppState { view: final(state).view, ui: final(state).ui, ..*old(state) }),
        match mouse.kind {
            MouseKind::ScrollUp => {
                &&& final(state).ui == old(state).ui
                &&& final(state).view == (PaneLayout {
                    panes: final(state).view.panes,
                    ..old(state).view
                })
                &&& final(state).pane_views() == old(state).with_pane(
                    PaneView {
                        scroll: scrolled_up(
                            old(state).pane().scroll,
                            3,
                        ),
                        ..old(state).pane()
                    },
                )
            },
            MouseKind::ScrollDown => {
                &&& final(state).ui == old(state).ui
                &&& final(state).view == (PaneLayout {
                    panes: final(state).view.panes,
                    ..old(state).view
                })
                &&& final(state).pane_views() == old(state).with_pane(
                    PaneView {
                        scroll: scrolled_down(
                            old(state).pane().scroll,
                            3,
                            old(state).doc.rendered_lines.len(),
                        ),
                        ..old(state).pane()
                    },
                )
            },
            MouseKind::LeftDown => if clicks_outline(*old(state), mouse.column, mouse.row) {
                &&& final(state).view == old(state).view
                &&& final(state).ui == (Interface {
                    focused_panel: FocusedPanel::Outline,
                    ..old(state).ui
                })
            } else {
                &&& final(state).ui == (Interface {
                    focused_panel: FocusedPanel::Content,
                    ..old(state).ui
                })
                &&& final(state).view == (PaneLayout {
                    active_pane: clicked_pane(*old(state), mouse.column, mouse.row, 0) as usize,
                    ..old(state).view
                })
            },
            MouseKind::Other => *final(state) == *old(state),
        },
{
    match mouse.kind {
        MouseKind::ScrollUp => {
            state.scroll_up();
            state.scroll_up();
            state.scroll_up();
            assert(state.pane_views() =~= old(state).with_pane(
                PaneView {
                    scroll: scrolled_up(
                        old(state).pane().scroll,
                        3,
                    ),
                    ..old(state).pane()
                },
            ));
        },
        MouseKind::ScrollDown => {
            state.scroll_down();
            state.scroll_down();
            state.scroll_down();
            assert(state.pane_views() =~= old(state).with_pane(
                PaneView {
                    scroll: scrolled_down(
                        old(state).pane().scroll,
                        3,
                        old(state).doc.rendered_lines.len(),
                    ),
                    ..old(state).pane()
                },
            ));
        },
        MouseKind::LeftDown => {
            if state.ui.show_outline && mouse.column < state.layout.outline_area.right()
                && mouse.row >= state.layout.outline_area.y {
                state.ui.focused_panel = FocusedPanel::Outline;
            } else {
                state.ui.focused_panel = FocusedPanel::Content;
                let mut i: usize = 0;
                let mut found: Option<usize> = None;
                while i < state.layout.content_areas.len() && found.is_none()
                    invariant
                        i <= state.layout.content_areas.len(),
                        state.layout == old(state).layout,
                        state.view == old(state).view,
                        state.view.active_pane < state.view.panes.len(),
                        match found {
                            Some(pane) => pane == clicked_pane(
                                *old(state),
                                mouse.column,
                                mouse.row,
                                0,
                            ),
                            None => clicked_pane(*old(state), mouse.column, mouse.row, 0)
                                == clicked_pane(*old(state), mouse.column, mouse.row, i as int),
                        },
                        found matches Some(pane) ==> pane < state.view.panes.len(),
                    decreases state.layout.content_areas.len() - i + if found is None {
                        1int
                    } else {
                        0int
                    },
                {
                    if state.layout.content_areas[i].contains(mouse.column, mouse.row) {
                        found = Some(
                            if i < state.view.panes.len() {
                                i
                            } else {
                                state.view.active_pane
                            },
                        );
                    } else {
                        i = i + 1;
                    }
                }
                if let Some(pane) = found {
                    state.view.active_pane = pane;
                }
            }
        },
        MouseKind::Other => {},
    }
}

} // verus!
