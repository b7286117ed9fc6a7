//! The state of the viewer: the open document and its rendered buffer, the
//! panes with their scroll positions and searches, and the overlays.
//!
//! Nothing here reads a file, a clock, a clipboard or the network. Where the
//! viewer needs one of them, the caller does the work and hands the result
//! to the method that decides what follows from it.

use crate::config::Config;
use crate::github::GitHubFetcher;
use crate::highlight::SyntaxHighlighter;
use crate::markdown::{Document, DocumentView};
use crate::search::{
    compiles, escaped, find_matches, in_order, lemma_escaped_len, search_spec, SearchError,
    SearchMatch,
};
use crate::storage::{Bookmarks, History};
use crate::style::{Line, LineView};
use crate::text::{decimal, decimal_of, lowercase_of};
use crate::theme::Theme;
use vstd::prelude::*;

verus! {

/// What the keys are read as.
#[derive(Clone, Copy, Debug, PartialEq, Eq, Structural)]
pub enum InputMode {
    Normal,
    Search,
    SplitCommand,
    UrlInput,
    BookmarkName,
}

impl Default for InputMode {
    fn default() -> (mode: InputMode)
        ensures
            mode == InputMode::Normal,
    {
        InputMode::Normal
    }
}

/// Whether the content area is split, and how.
#[derive(Clone, Copy, Debug, PartialEq, Eq, Structural)]
pub enum SplitDirection {
    /// One pane, not split.
    Unsplit,
    Vertical,
    Horizontal,
}

impl Default for SplitDirection {
    fn default() -> (direction: SplitDirection)
        ensures
            direction == SplitDirection::Unsplit,
    {
        SplitDirection::Unsplit
    }
}

/// The panel that the keys go to.
#[derive(Clone, Copy, Debug, PartialEq, Eq, Structural)]
pub enum FocusedPanel {
    Content,
    Outline,
}

impl Default for FocusedPanel {
    fn default() -> (panel: FocusedPanel)
        ensures
            panel == FocusedPanel::Content,
    {
        FocusedPanel::Content
    }
}

/// A rectangle of the screen, in cells.
#[derive(Clone, Copy, Debug, PartialEq, Eq, Structural)]
pub struct Area {
    pub x: u16,
    pub y: u16,
    pub width: u16,
    pub height: u16,
}

impl Area {
    /// The column behind the last column of the area; the largest column
    /// where that would not fit.
    pub open spec fn right_spec(self) -> u16 {
        if self.x + self.width > u16::MAX {
            u16::MAX
        } else {
            (self.x + self.width) as u16
        }
    }

    /// The row below the last row of the area; the largest row where that
    /// would not fit.
    pub open spec fn bottom_spec(self) -> u16 {
        if self.y + self.height > u16::MAX {
            u16::MAX
        } else {
            (self.y + self.height) as u16
        }
    }

    /// The column behind the last column of the area.
    pub fn right(&self) -> (column: u16)
        ensures
            column == self.right_spec(),
    {
        self.x.saturating_add(self.width)
    }

    /// The row below the last row of the area.
    pub fn bottom(&self) -> (row: u16)
        ensures
            row == self.bottom_spec(),
    {
        self.y.saturating_add(self.height)
    }

    /// Whether a cell lies in the area.
    pub open spec fn contains_spec(self, column: u16, row: u16) -> bool {
        self.x <= column < self.right_spec() && self.y <= row < self.bottom_spec()
    }

    /// Whether a cell lies in the area.
    pub fn contains(&self, column: u16, row: u16) -> (inside: bool)
        ensures
            inside == self.contains_spec(column, row),
    {
        column >= self.x && column < self.right() && row >= self.y && row < self.bottom()
    }
}

impl Default for Area {
    fn default() -> (area: Area)
        ensures
            area == (Area { x: 0, y: 0, width: 0, height: 0 }),
    {
        Area { x: 0, y: 0, width: 0, height: 0 }
    }
}

/// The state of one pane: where it is scrolled to, and its search.
#[derive(Debug)]
pub struct PaneState {
    /// Index of the first line shown.
    pub scroll: usize,
    /// Number of columns scrolled to the right, where lines are not wrapped.
    pub horizontal_scroll: usize,
    pub search_query: String,
    /// Whether the query is read as a regular expression.
    pub search_is_regex: bool,
    pub search_matches: Vec<SearchMatch>,
    /// Index of the current match among the matches.
    pub current_match: usize,
}

/// Mathematical model of a [`PaneState`].
pub ghost struct PaneView {
    pub scroll: usize,
    pub horizontal_scroll: usize,
    pub search_query: Seq<char>,
    pub search_is_regex: bool,
    pub search_matches: Seq<SearchMatch>,
    pub current_match: usize,
}

impl DeepView for PaneState {
    type V = PaneView;

    open spec fn deep_view(&self) -> PaneView {
        PaneView {
            scroll: self.scroll,
            horizontal_scroll: self.horizontal_scroll,
            search_query: self.search_query@,
            search_is_regex: self.search_is_regex,
            search_matches: self.search_matches@,
            current_match: self.current_match,
        }
    }
}

impl View for PaneState {
    type V = PaneView;

    open spec fn view(&self) -> PaneView {
        self.deep_view()
    }
}

impl PaneView {
    /// A pane at the top, with no search.
    pub open spec fn initial() -> PaneView {
        PaneView {
            scroll: 0,
            horizontal_scroll: 0,
            search_query: Seq::empty(),
            search_is_regex: false,
            search_matches: Seq::empty(),
            current_match: 0,
        }
    }

    /// The pane that a split adds beside this one: at the same position,
    /// with no search.
    pub open spec fn split(self) -> PaneView {
        PaneView {
            scroll: self.scroll,
            horizontal_scroll: self.horizontal_scroll,
            ..PaneView::initial()
        }
    }

    /// The pane scrolled to a line of a buffer of `total` lines: to the last
    /// line where the buffer is shorter.
    pub open spec fn at_line(self, line: usize, total: usize) -> PaneView {
        PaneView { scroll: clamp_line(line, total), ..self }
    }

    /// The pane scrolled to the line of its current match, if it has one.
    pub open spec fn at_current_match(self, total: usize) -> PaneView {
        if self.current_match < self.search_matches.len() {
            self.at_line(self.search_matches[self.current_match as int].line, total)
        } else {
            self
        }
    }

    /// The pane after a step to the next match, around the end.
    pub open spec fn next_match(self, total: usize) -> PaneView {
        if self.search_matches.len() > 0 {
            PaneView {
                current_match: ((self.current_match + 1) % (
                self.search_matches.len() as int)) as usize,
                ..self
            }.at_current_match(total)
        } else {
            self
        }
    }

    /// The pane after a step to the previous match, around the start.
    pub open spec fn prev_match(self, total: usize) -> PaneView {
        if self.search_matches.len() > 0 {
            PaneView {
                current_match: if self.current_match == 0 {
                    (self.search_matches.len() - 1) as usize
                } else {
                    (self.current_match - 1) as usize
                },
                ..self
            }.at_current_match(total)
        } else {
            self
        }
    }

    /// The pane after a search for a query in a buffer, and what the search
    /// returns: the number of matches, `None` for the empty query, or the
    /// error. The empty query and an error leave the pane as it is.
    pub open spec fn search(self, query: Seq<char>, lines: Seq<LineView>) -> (
        PaneView,
        Result<Option<usize>, SearchError>,
    ) {
        if query.len() == 0 {
            (self, Ok(None))
        } else {
            match search_spec(lines, query, self.search_is_regex) {
                Ok(matches) => (
                    self.searched(query, matches, lines.len() as usize),
                    Ok(Some(matches.len() as usize)),
                ),
                Err(error) => (self, Err(error)),
            }
        }
    }

    /// The pane after a search that found `matches`: the matches replace
    /// the old ones, the first is current, and the pane shows its line.
    pub open spec fn searched(self, query: Seq<char>, matches: Seq<SearchMatch>,
        total: usize) -> PaneView {
        PaneView {
            search_query: query,
            search_matches: matches,
            current_match: 0,
            ..self
        }.at_current_match(total)
    }
}

/// The index of a line of a buffer of `total` lines: the last line for an
/// index behind it, and 0 for an empty buffer.
pub open spec fn clamp_line(line: usize, total: usize) -> usize {
    if total == 0 {
        0
    } else if line > total - 1 {
        (total - 1) as usize
    } else {
        line
    }
}

/// `position` moved forward by `by`, within a buffer of `total` lines.
pub open spec fn scrolled_down(position: usize, by: usize, total: usize) -> usize {
    if position + by > usize::MAX {
        clamp_line(usize::MAX, total)
    } else {
        clamp_line((position + by) as usize, total)
    }
}

/// `position` moved back by `by`, not before 0.
pub open spec fn scrolled_up(position: usize, by: usize) -> usize {
    if position < by {
        0
    } else {
        (position - by) as usize
    }
}

impl PaneState {
    /// A pane at the top, with no search.
    pub fn new() -> (pane: PaneState)
        ensures
            pane@ == PaneView::initial(),
    {
        PaneState {
            scroll: 0,
            horizontal_scroll: 0,
            search_query: String::new(),
            search_is_regex: false,
            search_matches: Vec::new(),
            current_match: 0,
        }
    }

    /// The pane that a split adds beside this one: at the same position,
    /// with no search. A search is never shared between panes.
    pub fn clone_for_split(&self) -> (pane: PaneState)
        ensures
            pane@ == self@.split(),
    {
        PaneState {
            scroll: self.scroll,
            horizontal_scroll: self.horizontal_scroll,
            search_query: String::new(),
            search_is_regex: false,
            search_matches: Vec::new(),
            current_match: 0,
        }
    }

    /// Scrolls to a line of a buffer of `total` lines.
    pub fn go_to_line(&mut self, line: usize, total: usize)
        ensures
            final(self)@ == old(self)@.at_line(line, total),
    {
        let last = total.saturating_sub(1);
        self.scroll = if line < last {
            line
        } else {
            last
        };
    }

    /// Scrolls to the line of the current match, if there is one.
    pub fn jump_to_current_match(&mut self, total: usize)
        ensures
            final(self)@ == old(self)@.at_current_match(total),
    {
        if self.current_match < self.search_matches.len() {
            let line = self.search_matches[self.current_match].line;
            self.go_to_line(line, total);
        }
    }

    /// Makes the next match current, the first after the last, and scrolls
    /// to its line. Does nothing without matches.
    pub fn next_match(&mut self, total: usize)
        ensures
            final(self)@ == old(self)@.next_match(total),
    {
        let n = self.search_matches.len();
        if n > 0 {
            let current = self.current_match % n;
            assert((current + 1) % (n as int) == (self.current_match + 1) % (n as int)) by {
                vstd::arithmetic::div_mod::lemma_add_mod_noop(
                    self.current_match as int,
                    1,
                    n as int,
                );
                vstd::arithmetic::div_mod::lemma_add_mod_noop(current as int, 1, n as int);
                vstd::arithmetic::div_mod::lemma_mod_twice(self.current_match as int, n as int);
            }
            self.current_match = (current + 1) % n;
            self.jump_to_current_match(total);
        }
    }

    /// Makes the previous match current, the last before the first, and
    /// scrolls to its line. Does nothing without matches.
    pub fn prev_match(&mut self, total: usize)
        ensures
            final(self)@ == old(self)@.prev_match(total),
    {
        let n = self.search_matches.len();
        if n > 0 {
            self.current_match = if self.current_match == 0 {
                n - 1
            } else {
                self.current_match - 1
            };
            self.jump_to_current_match(total);
        }
    }

    /// Forgets the search.
    pub fn clear_search(&mut self)
        ensures
            final(self)@ == (PaneView {
                search_query: Seq::empty(),
                search_matches: Seq::empty(),
                current_match: 0,
                ..old(self)@
            }),
    {
        self.search_query = String::new();
        self.search_matches = Vec::new();
        self.current_match = 0;
    }

    /// Searches a buffer for a query, read as the pane's search mode says.
    ///
    /// An empty query changes nothing. So does a regular expression that
    /// does not compile, which is an error. Else the matches replace the old
    /// ones, the first is current, and the pane shows its line. Returns the
    /// number of matches, or `None` for the empty query.
    pub fn search(&mut self, query: &str, buffer: &Vec<Line>) -> (found: Result<
        Option<usize>,
        SearchError,
    >)
        ensures
            final(self)@ == old(self)@.search(query@, buffer.deep_view()).0,
            found == old(self)@.search(query@, buffer.deep_view()).1,
            (query@.len() == 0 || found is Err) ==> *final(self) == *old(self),
            found matches Ok(Some(_)) ==> in_order(final(self)@.search_matches, buffer.deep_view()),
    {
        if query.is_empty() {
            return Ok(None);
        }
        match find_matches(buffer, query, self.search_is_regex) {
            Ok(matches) => {
                let count = matches.len();
                self.search_query = String::from_str(query);
                self.search_matches = matches;
                self.current_match = 0;
                self.jump_to_current_match(buffer.len());
                Ok(Some(count))
            },
            Err(error) => Err(error),
        }
    }
}

impl Default for PaneState {
    fn default() -> (pane: PaneState)
        ensures
            pane@ == PaneView::initial(),
    {
        PaneState::new()
    }
}

impl Clone for PaneState {
    fn clone(&self) -> (pane: PaneState)
        ensures
            pane@ == self@,
    {
        PaneState {
            scroll: self.scroll,
            horizontal_scroll: self.horizontal_scroll,
            search_query: self.search_query.clone(),
            search_is_regex: self.search_is_regex,
            search_matches: self.search_matches.clone(),
            current_match: self.current_match,
        }
    }
}

/// Law: a search for the empty query leaves a pane as it is: its matches,
/// its current match, its search mode, and where it is scrolled to.
pub proof fn lemma_empty_query_changes_nothing(pane: PaneView, lines: Seq<LineView>)
    ensures
        pane.search(Seq::empty(), lines) == (pane, Ok::<Option<usize>, SearchError>(None)),
{
}

/// Law: a literal search for a query does to a pane what a search for its
/// escaped form as a regular expression does, but for the query and the
/// mode that the pane remembers, wherever the escaped form compiles.
pub proof fn lemma_literal_search_is_escaped_regex_search(
    pane: PaneView,
    query: Seq<char>,
    lines: Seq<LineView>,
)
    requires
        query.len() > 0,
        compiles(escaped(query)),
    ensures
        ({
            let literal = (PaneView { search_is_regex: false, ..pane }).search(query, lines);
            let regex = (PaneView { search_is_regex: true, ..pane }).search(escaped(query), lines);
            &&& literal.1 == regex.1
            &&& literal.0.search_matches == regex.0.search_matches
            &&& literal.0.current_match == regex.0.current_match
            &&& literal.0.scroll == regex.0.scroll
            &&& literal.0.horizontal_scroll == regex.0.horizontal_scroll
        }),
{
    lemma_escaped_len(query);
}

/// Law: the pane that a split adds has no matches, whatever was searched
/// in the pane that it was split from.
pub proof fn lemma_split_pane_has_no_search(source: PaneView)
    ensures
        source.split().search_matches.len() == 0,
        source.split().search_query.len() == 0,
        source.split().current_match == 0,
        !source.split().search_is_regex,
        source.split().scroll == source.scroll,
        source.split().horizontal_scroll == source.horizontal_scroll,
{
}

/// An open document with what is remembered of its view.
#[derive(Debug)]
pub struct DocumentBuffer {
    pub document: Document,
    pub file_path: String,
    pub file_name: Option<String>,
    pub url: Option<String>,
    pub rendered_lines: Vec<Line>,
    pub scroll: usize,
    pub horizontal_scroll: usize,
    pub outline_selected: usize,
    /// When the file was last changed, in seconds since the Unix epoch.
    pub modified_time: Option<u64>,
}

/// Mathematical model of a [`DocumentBuffer`].
pub ghost struct DocumentBufferView {
    pub document: DocumentView,
    pub file_path: Seq<char>,
    pub file_name: Option<Seq<char>>,
    pub url: Option<Seq<char>>,
    pub rendered_lines: Seq<LineView>,
    pub scroll: usize,
    pub horizontal_scroll: usize,
    pub outline_selected: usize,
    pub modified_time: Option<u64>,
}

impl DeepView for DocumentBuffer {
    type V = DocumentBufferView;

    open spec fn deep_view(&self) -> DocumentBufferView {
        DocumentBufferView {
            document: self.document@,
            file_path: self.file_path@,
            file_name: self.file_name.deep_view(),
            url: self.url.deep_view(),
            rendered_lines: self.rendered_lines.deep_view(),
            scroll: self.scroll,
            horizontal_scroll: self.horizontal_scroll,
            outline_selected: self.outline_selected,
            modified_time: self.modified_time,
        }
    }
}

impl View for DocumentBuffer {
    type V = DocumentBufferView;

    open spec fn view(&self) -> DocumentBufferView {
        self.deep_view()
    }
}

/// The document that is shown, and its rendered buffer.
#[derive(Debug)]
pub struct OpenDocument {
    pub document: Option<Document>,
    pub file_path: Option<String>,
    /// The last component of the file path, where it has one.
    pub file_name: Option<String>,
    pub rendered_lines: Vec<Line>,
    /// When the file was last changed, in seconds since the Unix epoch.
    pub file_modified_time: Option<u64>,
    pub current_url: Option<String>,
    pub is_loading: bool,
}

/// The documents that are open.
#[derive(Debug)]
pub struct BufferList {
    pub buffers: Vec<DocumentBuffer>,
    pub active_buffer: usize,
    pub show_buffer_list: bool,
    pub buffer_list_selected: usize,
}

/// The panes of the content area.
#[derive(Debug)]
pub struct PaneLayout {
    pub panes: Vec<PaneState>,
    pub active_pane: usize,
    pub split_direction: SplitDirection,
}

/// The input mode, the focus, the outline and the message.
#[derive(Debug)]
pub struct Interface {
    pub mode: InputMode,
    pub focused_panel: FocusedPanel,
    pub show_outline: bool,
    pub should_quit: bool,
    pub status_message: Option<String>,
    pub outline_selected: usize,
    pub outline_width: u16,
}

/// The overlays and text inputs that are shown.
#[derive(Debug)]
pub struct Overlays {
    pub show_help: bool,
    pub show_settings: bool,
    pub settings_selected: usize,
    pub show_url_input: bool,
    pub show_bookmark_name_input: bool,
}

/// How the document is displayed.
#[derive(Debug)]
pub struct Preferences {
    pub line_wrap: bool,
    pub show_line_numbers: bool,
    pub theme: Theme,
    pub syntax_highlighting: bool,
    pub auto_reload: bool,
}

/// The file picker.
#[derive(Debug)]
pub struct FilePicker {
    pub show_file_picker: bool,
    pub file_picker_files: Vec<String>,
    pub file_picker_selected: usize,
}

/// The history and the bookmarks, with their overlays.
#[derive(Debug)]
pub struct Library {
    pub history: History,
    pub bookmarks: Bookmarks,
    pub show_history: bool,
    pub history_selected: usize,
    pub show_bookmarks: bool,
    pub bookmarks_selected: usize,
}

/// Where the panels were drawn, for the mouse.
#[derive(Debug)]
pub struct ScreenLayout {
    pub content_areas: Vec<Area>,
    pub outline_area: Area,
}

/// The state of the viewer.
pub struct AppState {
    pub doc: OpenDocument,
    pub open: BufferList,
    pub view: PaneLayout,
    pub ui: Interface,
    pub overlays: Overlays,
    pub prefs: Preferences,
    pub picker: FilePicker,
    pub library: Library,
    pub layout: ScreenLayout,
    pub highlighter: SyntaxHighlighter,
    pub github_fetcher: GitHubFetcher,
}

/// Whether a message is the given text.
pub open spec fn says(message: Option<String>, text: Seq<char>) -> bool {
    message matches Some(m) && m@ == text
}

/// What is reported of a search: nothing for the empty query, else the
/// number of matches, or that the query is no regular expression.
fn search_message(found: &Result<Option<usize>, SearchError>) -> (message: Option<String>)
    ensures
        match *found {
            Ok(None) => message is None,
            Ok(Some(count)) => says(message, decimal_of(count as nat) + " matches found"@),
            Err(_) => says(message, "Invalid regex"@),
        },
{
    match found {
        Ok(None) => None,
        Ok(Some(count)) => {
            let mut text = decimal(*count as u128);
            text.append(" matches found");
            Some(text)
        },
        Err(error) => Some(error.message()),
    }
}

impl AppState {
    /// Whether there is a current pane: at least one pane, and the active
    /// pane among them; and, where documents are open, an active one.
    pub open spec fn wf(&self) -> bool {
        &&& self.view.panes.len() >= 1
        &&& self.view.active_pane < self.view.panes.len()
        &&& self.open.buffers.len() > 0 ==> self.open.active_buffer < self.open.buffers.len()
        &&& self.github_fetcher.wf()
    }

    /// The views of the panes.
    pub open spec fn pane_views(&self) -> Seq<PaneView> {
        self.view.panes.deep_view()
    }

    /// The state at the start: no document, one pane, and the settings of
    /// `config`.
    pub fn new(config: &Config, history: History, bookmarks: Bookmarks) -> (state: AppState)
        ensures
            state.wf(),
            state.doc.document is None,
            state.doc.file_path is None,
            state.doc.file_name is None,
            state.doc.file_modified_time is None,
            state.doc.rendered_lines.len() == 0,
            state.picker.file_picker_files.len() == 0,
            state.layout.content_areas.len() == 0,
            state.layout.outline_area == (Area { x: 0, y: 0, width: 0, height: 0 }),
            state.highlighter.theme_name() == "base16-ocean.dark"@,
            state.github_fetcher.cached_urls().len() == 0,
            state.open.buffers.len() == 0,
            state.pane_views() == seq![PaneView::initial()],
            state.view.active_pane == 0,
            state.view.split_direction == SplitDirection::Unsplit,
            state.ui.mode == InputMode::Normal,
            state.ui.focused_panel == FocusedPanel::Content,
            state.ui.show_outline == config.show_outline,
            state.prefs.line_wrap == config.line_wrap,
            state.prefs.show_line_numbers == config.show_line_numbers,
            state.prefs.syntax_highlighting == config.syntax_highlighting,
            state.prefs.auto_reload == config.auto_reload,
            state.ui.outline_width == config.outline_width,
            state.prefs.theme == Theme::named(lowercase_of(config.theme@)),
            state.library.history == history,
            state.library.bookmarks == bookmarks,
            state.ui.status_message is None,
            state.doc.current_url is None,
            !state.ui.should_quit && !state.doc.is_loading && !state.overlays.show_help
                && !state.overlays.show_settings
                && !state.picker.show_file_picker && !state.open.show_buffer_list
                    && !state.library.show_history
                && !state.library.show_bookmarks && !state.overlays.show_url_input
                && !state.overlays.show_bookmark_name_input,
            state.ui.outline_selected == 0 && state.overlays.settings_selected == 0
                && state.picker.file_picker_selected == 0 && state.library.history_selected == 0
                && state.library.bookmarks_selected == 0 && state.open.buffer_list_selected == 0
                && state.open.active_buffer == 0,
    {
        let mut panes: Vec<PaneState> = Vec::new();
        panes.push(PaneState::new());
        assert(panes.deep_view() =~= seq![PaneView::initial()]);
        AppState {
            doc: OpenDocument {
                document: None,
                file_path: None,
                file_name: None,
                rendered_lines: Vec::new(),
                file_modified_time: None,
                current_url: None,
                is_loading: false,
            },
            open: BufferList {
                buffers: Vec::new(),
                active_buffer: 0,
                show_buffer_list: false,
                buffer_list_selected: 0,
            },
            view: PaneLayout {
                panes,
                active_pane: 0,
                split_direction: SplitDirection::Unsplit,
            },
            ui: Interface {
                mode: InputMode::Normal,
                focused_panel: FocusedPanel::Content,
                show_outline: config.show_outline,
                should_quit: false,
                status_message: None,
                outline_selected: 0,
                outline_width: config.outline_width,
            },
            overlays: Overlays {
                show_help: false,
                show_settings: false,
                settings_selected: 0,
                show_url_input: false,
                show_bookmark_name_input: false,
            },
            prefs: Preferences {
                line_wrap: config.line_wrap,
                show_line_numbers: config.show_line_numbers,
                theme: config.get_theme(),
                syntax_highlighting: config.syntax_highlighting,
                auto_reload: config.auto_reload,
            },
            picker: FilePicker {
                show_file_picker: false,
                file_picker_files: Vec::new(),
                file_picker_selected: 0,
            },
            library: Library {
                history,
                bookmarks,
                show_history: false,
                history_selected: 0,
                show_bookmarks: false,
                bookmarks_selected: 0,
            },
            layout: ScreenLayout {
                content_areas: Vec::new(),
                outline_area: Area::default(),
            },
            highlighter: SyntaxHighlighter::default(),
            github_fetcher: GitHubFetcher::new(),
        }
    }

    /// Whether `after` is this state with the message changed to `text`,
    /// and nothing else.
    pub open spec fn only_message_changed(&self, after: AppState, text: Seq<char>) -> bool {
        &&& after == (AppState { ui: after.ui, ..*self })
        &&& after.ui == (Interface { status_message: after.ui.status_message, ..self.ui })
        &&& says(after.ui.status_message, text)
    }

    /// The current pane.
    pub open spec fn pane(&self) -> PaneView {
        self.pane_views()[self.view.active_pane as int]
    }

    /// The panes with the current pane replaced.
    pub open spec fn with_pane(self, pane: PaneView) -> Seq<PaneView> {
        self.pane_views().update(self.view.active_pane as int, pane)
    }

    /// Whether `after` is this state with the current pane changed to
    /// `pane`, and nothing else.
    pub open spec fn only_pane_changed(&self, after: AppState, pane: PaneView) -> bool {
        &&& after == (AppState { view: after.view, ..*self })
        &&& after.view == (PaneLayout { panes: after.view.panes, ..self.view })
        &&& after.pane_views() == self.with_pane(pane)
    }

    /// The current pane.
    pub fn current_pane(&self) -> (pane: &PaneState)
        requires
            self.wf(),
        ensures
            *pane == self.view.panes[self.view.active_pane as int],
    {
        &self.view.panes[self.view.active_pane]
    }

    /// The current pane, to be changed.
    pub fn current_pane_mut(&mut self) -> (pane: &mut PaneState)
        requires
            old(self).wf(),
        ensures
            *pane == old(self).view.panes[old(self).view.active_pane as int],
            final(self).wf(),
            *final(self) == (AppState { view: final(self).view, ..*old(self) }),
            final(self).view == (PaneLayout { panes: final(self).view.panes, ..old(self).view }),
            final(self).view.panes@ == old(self).view.panes@.update(
                old(self).view.active_pane as int,
                *final(pane),
            ),
    {
        let active = self.view.active_pane;
        &mut self.view.panes[active]
    }

    /// The number of lines of the rendered buffer.
    pub fn line_count(&self) -> (count: usize)
        ensures
            count == self.doc.rendered_lines.len(),
    {
        self.doc.rendered_lines.len()
    }

    /// Scrolls the current pane to `position`.
    fn set_scroll(&mut self, position: usize)
        requires
            old(self).wf(),
        ensures
            final(self).wf(),
            old(self).only_pane_changed(
                *final(self),
                PaneView { scroll: position, ..old(self).pane() },
            ),
    {
        let ghost before = self.view.panes.deep_view();
        let active = self.view.active_pane;
        self.view.panes[active].scroll = position;
        assert(self.view.panes.deep_view() =~= before.update(
            active as int,
            PaneView { scroll: position, ..before[active as int] },
        ));
    }

    /// Scrolls down one line, not behind the last line.
    pub fn scroll_down(&mut self)
        requires
            old(self).wf(),
        ensures
            final(self).wf(),
            old(self).only_pane_changed(
                *final(self),
                PaneView {
                    scroll: scrolled_down(
                        old(self).pane().scroll,
                        1,
                        old(self).doc.rendered_lines.len(),
                    ),
                    ..old(self).pane()
                },
            ),
    {
        self.scroll_by(1);
    }

    /// Scrolls the current pane down by `by` lines, not behind the last line.
    fn scroll_by(&mut self, by: usize)
        requires
            old(self).wf(),
        ensures
            final(self).wf(),
            old(self).only_pane_changed(
                *final(self),
                PaneView {
                    scroll: scrolled_down(
                        old(self).pane().scroll,
                        by,
                        old(self).doc.rendered_lines.len(),
                    ),
                    ..old(self).pane()
                },
            ),
    {
        let last = self.doc.rendered_lines.len().saturating_sub(1);
        let target = self.view.panes[self.view.active_pane].scroll.saturating_add(by);
        self.set_scroll(if target < last {
            target
        } else {
            last
        });
    }

    /// Scrolls up one line, not before the first.
    pub fn scroll_up(&mut self)
        requires
            old(self).wf(),
        ensures
            final(self).wf(),
            old(self).only_pane_changed(
                *final(self),
                PaneView {
                    scroll: scrolled_up(old(self).pane().scroll, 1),
                    ..old(self).pane()
                },
            ),
    {
        let position = self.view.panes[self.view.active_pane].scroll.saturating_sub(1);
        self.set_scroll(position);
    }

    /// Scrolls down half a page, not behind the last line.
    pub fn scroll_page_down(&mut self, page_size: usize)
        requires
            old(self).wf(),
        ensures
            final(self).wf(),
            old(self).only_pane_changed(
                *final(self),
                PaneView {
                    scroll: scrolled_down(
                        old(self).pane().scroll,
                        page_size / 2,
                        old(self).doc.rendered_lines.len(),
                    ),
                    ..old(self).pane()
                },
            ),
    {
        self.scroll_by(page_size / 2);
    }

    /// Scrolls up half a page, not before the first line.
    pub fn scroll_page_up(&mut self, page_size: usize)
        requires
            old(self).wf(),
        ensures
            final(self).wf(),
            old(self).only_pane_changed(
                *final(self),
                PaneView {
                    scroll: scrolled_up(
                        old(self).pane().scroll,
                        page_size / 2,
                    ),
                    ..old(self).pane()
                },
            ),
    {
        let position = self.view.panes[self.view.active_pane].scroll.saturating_sub(page_size / 2);
        self.set_scroll(position);
    }

    /// Scrolls to the first line.
    pub fn go_to_top(&mut self)
        requires
            old(self).wf(),
        ensures
            final(self).wf(),
            old(self).only_pane_changed(
                *final(self),
                PaneView { scroll: 0, ..old(self).pane() },
            ),
    {
        self.set_scroll(0);
    }

    /// Scrolls to the last line.
    pub fn go_to_bottom(&mut self)
        requires
            old(self).wf(),
        ensures
            final(self).wf(),
            old(self).only_pane_changed(
                *final(self),
                old(self).pane().at_line(
                    usize::MAX,
                    old(self).doc.rendered_lines.len(),
                ),
            ),
    {
        let last = self.doc.rendered_lines.len().saturating_sub(1);
        self.set_scroll(last);
    }

    /// Scrolls to a line; to the last line where the buffer is shorter.
    pub fn go_to_line(&mut self, line: usize)
        requires
            old(self).wf(),
        ensures
            final(self).wf(),
            old(self).only_pane_changed(
                *final(self),
                old(self).pane().at_line(
                    line,
                    old(self).doc.rendered_lines.len(),
                ),
            ),
    {
        let last = self.doc.rendered_lines.len().saturating_sub(1);
        self.set_scroll(if line < last {
            line
        } else {
            last
        });
    }

    /// Sets how far the current pane is scrolled to the right.
    fn set_horizontal_scroll(&mut self, position: usize)
        requires
            old(self).wf(),
        ensures
            final(self).wf(),
            old(self).only_pane_changed(
                *final(self),
                PaneView {
                    horizontal_scroll: position,
                    ..old(self).pane()
                },
            ),
    {
        let ghost before = self.view.panes.deep_view();
        let active = self.view.active_pane;
        self.view.panes[active].horizontal_scroll = position;
        assert(self.view.panes.deep_view() =~= before.update(
            active as int,
            PaneView { horizontal_scroll: position, ..before[active as int] },
        ));
    }

    /// Scrolls four columns to the left, not before the first column. Does
    /// nothing where lines are wrapped.
    pub fn scroll_left(&mut self)
        requires
            old(self).wf(),
        ensures
            final(self).wf(),
            *final(self) == (AppState { view: final(self).view, ..*old(self) }),
            final(self).view == (PaneLayout { panes: final(self).view.panes, ..old(self).view }),
            final(self).pane_views() == if old(self).prefs.line_wrap {
                old(self).pane_views()
            } else {
                old(self).with_pane(
                    PaneView {
                        horizontal_scroll: scrolled_up(
                            old(self).pane().horizontal_scroll,
                            4,
                        ),
                        ..old(self).pane()
                    },
                )
            },
    {
        if !self.prefs.line_wrap {
            let position = self.view.panes[self.view.active_pane].horizontal_scroll.saturating_sub(4);
            self.set_horizontal_scroll(position);
        }
    }

    /// Scrolls four columns to the right; there is no bound but the largest
    /// number. Does nothing where lines are wrapped.
    pub fn scroll_right(&mut self)
        requires
            old(self).wf(),
        ensures
            final(self).wf(),
            *final(self) == (AppState { view: final(self).view, ..*old(self) }),
            final(self).view == (PaneLayout { panes: final(self).view.panes, ..old(self).view }),
            final(self).pane_views() == if old(self).prefs.line_wrap {
                old(self).pane_views()
            } else {
                old(self).with_pane(
                    PaneView {
                        horizontal_scroll: old(self).pane().horizontal_scroll.saturating_add(4),
                        ..old(self).pane()
                    },
                )
            },
    {
        if !self.prefs.line_wrap {
            let position = self.view.panes[self.view.active_pane].horizontal_scroll.saturating_add(4);
            self.set_horizontal_scroll(position);
        }
    }

    /// Moves the selection of the outline up, not before the first heading.
    pub fn outline_up(&mut self)
        ensures
            *final(self) == (AppState { ui: final(self).ui, ..*old(self) }),
            final(self).ui == (Interface {
                outline_selected: final(self).ui.outline_selected,
                ..old(self).ui
            }),
            final(self).ui.outline_selected == (scrolled_up(old(self).ui.outline_selected, 1)),
    {
        if self.ui.outline_selected > 0 {
            self.ui.outline_selected -= 1;
        }
    }

    /// The number of headings of the document; none without a document.
    pub open spec fn heading_total(&self) -> nat {
        match self.doc.document {
            Some(document) => document.headings@.len(),
            None => 0,
        }
    }

    /// Moves the selection of the outline down, not behind the last
    /// heading.
    pub fn outline_down(&mut self)
        ensures
            *final(self) == (AppState { ui: final(self).ui, ..*old(self) }),
            final(self).ui == (Interface {
                outline_selected: final(self).ui.outline_selected,
                ..old(self).ui
            }),
            final(self).ui.outline_selected == if old(self).ui.outline_selected + 1 < old(
                self,
            ).heading_total() {
                (old(self).ui.outline_selected + 1) as usize
            } else {
                old(self).ui.outline_selected
            },
    {
        if let Some(document) = &self.doc.document {
            let last = document.headings.len().saturating_sub(1);
            if self.ui.outline_selected < last {
                self.ui.outline_selected += 1;
            }
        }
    }

    /// Scrolls to the heading that is selected in the outline, and gives
    /// the content the focus. Does nothing where no heading is selected.
    pub fn jump_to_heading(&mut self)
        requires
            old(self).wf(),
        ensures
            final(self).wf(),
            old(self).ui.outline_selected >= old(self).heading_total() ==> *final(self)
                == *old(self),
            old(self).ui.outline_selected < old(self).heading_total() ==> {
                &&& *final(self) == (AppState {
                    view: final(self).view,
                    ui: final(self).ui,
                    ..*old(self)
                })
                &&& final(self).view == (PaneLayout {
                    panes: final(self).view.panes,
                    ..old(self).view
                })
                &&& final(self).ui == (Interface {
                    focused_panel: final(self).ui.focused_panel,
                    ..old(self).ui
                })
                &&& final(self).ui.focused_panel == FocusedPanel::Content
                &&& final(self).pane_views() == old(self).with_pane(
                    old(self).pane().at_line(
                        old(self).doc.document->0.headings[old(self).ui.outline_selected as int].rendered_line,
                        old(self).doc.rendered_lines.len(),
                    ),
                )
            },
    {
        let line = match &self.doc.document {
            Some(document) => if self.ui.outline_selected < document.headings.len() {
                Some(document.headings[self.ui.outline_selected].rendered_line)
            } else {
                None
            },
            None => None,
        };
        if let Some(line) = line {
            self.go_to_line(line);
            self.ui.focused_panel = FocusedPanel::Content;
        }
    }

    /// Starts the input of a search query.
    pub fn start_search(&mut self)
        ensures
            *final(self) == (AppState { ui: final(self).ui, ..*old(self) }),
            final(self).ui == (Interface { mode: final(self).ui.mode, ..old(self).ui }),
            final(self).ui.mode == InputMode::Search,
    {
        self.ui.mode = InputMode::Search;
    }

    /// Searches the buffer for the query that was typed, in the current
    /// pane, and goes back to normal input.
    ///
    /// The empty query changes nothing else. A regular expression that does
    /// not compile changes no pane and is reported. Else the matches of the
    /// current pane are replaced, the first is current, the pane shows its
    /// line, and the number of matches is reported. No other pane changes.
    /// The matches lie in the buffer and do not overlap, from the first line
    /// to the last and from left to right on each line.
    pub fn apply_search(&mut self, query: &str)
        requires
            old(self).wf(),
        ensures
            final(self).wf(),
            *final(self) == (AppState { view: final(self).view, ui: final(self).ui, ..*old(self) }),
            final(self).view == (PaneLayout { panes: final(self).view.panes, ..old(self).view }),
            final(self).ui == (Interface {
                mode: final(self).ui.mode,
                status_message: final(self).ui.status_message,
                ..old(self).ui
            }),
            final(self).ui.mode == InputMode::Normal,
            final(self).pane_views() == old(self).with_pane(
                old(self).pane().search(
                    query@,
                    old(self).doc.rendered_lines.deep_view(),
                ).0,
            ),
            match old(self).pane().search(
                query@,
                old(self).doc.rendered_lines.deep_view(),
            ).1 {
                Ok(None) => final(self).ui.status_message == old(self).ui.status_message,
                Ok(Some(count)) => says(
                    final(self).ui.status_message,
                    decimal_of(count as nat) + " matches found"@,
                ),
                Err(_) => says(final(self).ui.status_message, "Invalid regex"@),
            },
            old(self).pane().search(query@, old(self).doc.rendered_lines.deep_view()).1 matches Ok(
                Some(_),
            ) ==> in_order(
                final(self).pane().search_matches,
                old(self).doc.rendered_lines.deep_view(),
            ),
    {
        let ghost before = self.view.panes.deep_view();
        let ghost outcome = before[self.view.active_pane as int].search(
            query@,
            self.doc.rendered_lines.deep_view(),
        );
        let active = self.view.active_pane;
        let found = self.view.panes[active].search(query, &self.doc.rendered_lines);
        assert(found == outcome.1);
        assert(self.view.panes.deep_view() =~= before.update(active as int, outcome.0));
        self.ui.mode = InputMode::Normal;
        if let Some(text) = search_message(&found) {
            self.ui.status_message = Some(text);
        }
    }

    /// Leaves the input of a search query.
    pub fn cancel_search(&mut self)
        ensures
            *final(self) == (AppState { ui: final(self).ui, ..*old(self) }),
            final(self).ui == (Interface { mode: final(self).ui.mode, ..old(self).ui }),
            final(self).ui.mode == InputMode::Normal,
    {
        self.ui.mode = InputMode::Normal;
    }

    /// Forgets the search of the current pane, and the message.
    pub fn clear_search(&mut self)
        requires
            old(self).wf(),
        ensures
            final(self).wf(),
            *final(self) == (AppState { view: final(self).view, ui: final(self).ui, ..*old(self) }),
            final(self).view == (PaneLayout { panes: final(self).view.panes, ..old(self).view }),
            final(self).ui == (Interface {
                status_message: final(self).ui.status_message,
                ..old(self).ui
            }),
            final(self).ui.status_message is None,
            final(self).pane_views() == old(self).with_pane(
                PaneView {
                    search_query: Seq::empty(),
                    search_matches: Seq::empty(),
                    current_match: 0,
                    ..old(self).pane()
                },
            ),
    {
        let ghost before = self.view.panes.deep_view();
        let active = self.view.active_pane;
        self.view.panes[active].clear_search();
        assert(self.view.panes.deep_view() =~= before.update(
            active as int,
            PaneView {
                search_query: Seq::empty(),
                search_matches: Seq::empty(),
                current_match: 0,
                ..before[active as int]
            },
        ));
        self.ui.status_message = None;
    }

    /// Makes the next match of the current pane current, the first after
    /// the last, and scrolls to its line.
    pub fn next_match(&mut self)
        requires
            old(self).wf(),
        ensures
            final(self).wf(),
            old(self).only_pane_changed(
                *final(self),
                old(self).pane().next_match(
                    old(self).doc.rendered_lines.len(),
                ),
            ),
    {
        let ghost before = self.view.panes.deep_view();
        let active = self.view.active_pane;
        let total = self.doc.rendered_lines.len();
        self.view.panes[active].next_match(total);
        assert(self.view.panes.deep_view() =~= before.update(
            active as int,
            before[active as int].next_match(total),
        ));
    }

    /// Makes the previous match of the current pane current, the last
    /// before the first, and scrolls to its line.
    pub fn prev_match(&mut self)
        requires
            old(self).wf(),
        ensures
            final(self).wf(),
            old(self).only_pane_changed(
                *final(self),
                old(self).pane().prev_match(
                    old(self).doc.rendered_lines.len(),
                ),
            ),
    {
        let ghost before = self.view.panes.deep_view();
        let active = self.view.active_pane;
        let total = self.doc.rendered_lines.len();
        self.view.panes[active].prev_match(total);
        assert(self.view.panes.deep_view() =~= before.update(
            active as int,
            before[active as int].prev_match(total),
        ));
    }

    /// Switches the search of the current pane between literal text and
    /// regular expressions.
    pub fn toggle_regex(&mut self)
        requires
            old(self).wf(),
        ensures
            final(self).wf(),
            old(self).only_pane_changed(
                *final(self),
                PaneView {
                    search_is_regex: !old(self).pane().search_is_regex,
                    ..old(self).pane()
                },
            ),
    {
        let ghost before = self.view.panes.deep_view();
        let active = self.view.active_pane;
        let flipped = !self.view.panes[active].search_is_regex;
        self.view.panes[active].search_is_regex = flipped;
        assert(self.view.panes.deep_view() =~= before.update(
            active as int,
            PaneView { search_is_regex: flipped, ..before[active as int] },
        ));
    }

    /// Splits the content area, unless it is split: a second pane is added
    /// at the position of the current one, with no search, and becomes the
    /// current pane.
    fn split(&mut self, direction: SplitDirection)
        requires
            old(self).wf(),
        ensures
            final(self).wf(),
            old(self).view.split_direction != SplitDirection::Unsplit ==> *final(self)
                == *old(self),
            old(self).view.split_direction == SplitDirection::Unsplit ==> {
                &&& *final(self) == (AppState { view: final(self).view, ..*old(self) })
                &&& final(self).view == (PaneLayout {
                    panes: final(self).view.panes,
                    split_direction: final(self).view.split_direction,
                    active_pane: final(self).view.active_pane,
                    ..old(self).view
                })
                &&& final(self).view.split_direction == direction
                &&& final(self).view.active_pane == 1
                &&& final(self).pane_views() == old(self).pane_views().push(
                    old(self).pane().split(),
                )
            },
    {
        if self.view.split_direction == SplitDirection::Unsplit {
            let ghost before = self.view.panes.deep_view();
            let pane = self.view.panes[self.view.active_pane].clone_for_split();
            self.view.panes.push(pane);
            assert(self.view.panes.deep_view() =~= before.push(pane@));
            self.view.split_direction = direction;
            self.view.active_pane = 1;
        }
    }

    /// Splits the content area into a left and a right pane, unless it is
    /// split.
    pub fn split_vertical(&mut self)
        requires
            old(self).wf(),
        ensures
            final(self).wf(),
            old(self).view.split_direction != SplitDirection::Unsplit ==> *final(self)
                == *old(self),
            old(self).view.split_direction == SplitDirection::Unsplit ==> {
                &&& *final(self) == (AppState { view: final(self).view, ..*old(self) })
                &&& final(self).view == (PaneLayout {
                    panes: final(self).view.panes,
                    split_direction: final(self).view.split_direction,
                    active_pane: final(self).view.active_pane,
                    ..old(self).view
                })
                &&& final(self).view.split_direction == SplitDirection::Vertical
                &&& final(self).view.active_pane == 1
                &&& final(self).pane_views() == old(self).pane_views().push(
                    old(self).pane().split(),
                )
            },
    {
        self.split(SplitDirection::Vertical);
    }

    /// Splits the content area into an upper and a lower pane, unless it is
    /// split.
    pub fn split_horizontal(&mut self)
        requires
            old(self).wf(),
        ensures
            final(self).wf(),
            old(self).view.split_direction != SplitDirection::Unsplit ==> *final(self)
                == *old(self),
            old(self).view.split_direction == SplitDirection::Unsplit ==> {
                &&& *final(self) == (AppState { view: final(self).view, ..*old(self) })
                &&& final(self).view == (PaneLayout {
                    panes: final(self).view.panes,
                    split_direction: final(self).view.split_direction,
                    active_pane: final(self).view.active_pane,
                    ..old(self).view
                })
                &&& final(self).view.split_direction == SplitDirection::Horizontal
                &&& final(self).view.active_pane == 1
                &&& final(self).pane_views() == old(self).pane_views().push(
                    old(self).pane().split(),
                )
            },
    {
        self.split(SplitDirection::Horizontal);
    }

    /// Closes the current pane, unless it is the only one.
    pub fn close_pane(&mut self)
        requires
            old(self).wf(),
        ensures
            final(self).wf(),
            old(self).view.panes.len() <= 1 ==> *final(self) == *old(self),
            old(self).view.panes.len() > 1 ==> {
                &&& *final(self) == (AppState { view: final(self).view, ..*old(self) })
                &&& final(self).view == (PaneLayout {
                    panes: final(self).view.panes,
                    split_direction: final(self).view.split_direction,
                    active_pane: final(self).view.active_pane,
                    ..old(self).view
                })
                &&& final(self).view.split_direction == SplitDirection::Unsplit
                &&& final(self).view.active_pane == 0
                &&& final(self).pane_views() == old(self).pane_views().remove(
                    old(self).view.active_pane as int,
                )
            },
    {
        if self.view.panes.len() > 1 {
            let ghost before = self.view.panes.deep_view();
            let _ = self.view.panes.remove(self.view.active_pane);
            assert(self.view.panes.deep_view() =~= before.remove(self.view.active_pane as int));
            self.view.split_direction = SplitDirection::Unsplit;
            self.view.active_pane = 0;
        }
    }

    /// Makes the next pane current, the first after the last.
    pub fn cycle_pane(&mut self)
        requires
            old(self).wf(),
        ensures
            final(self).wf(),
            *final(self) == (AppState { view: final(self).view, ..*old(self) }),
            final(self).view == (PaneLayout {
                active_pane: final(self).view.active_pane,
                ..old(self).view
            }),
            final(self).view.active_pane == if old(self).view.panes.len() > 1 {
                ((old(self).view.active_pane + 1) % (old(self).view.panes.len() as int)) as usize
            } else {
                old(self).view.active_pane
            },
    {
        if self.view.panes.len() > 1 {
            self.view.active_pane = (self.view.active_pane + 1) % self.view.panes.len();
        }
    }

    /// Shows or hides the outline. The content gets the focus when the
    /// outline that had it is hidden.
    pub fn toggle_outline(&mut self)
        ensures
            *final(self) == (AppState { ui: final(self).ui, ..*old(self) }),
            final(self).ui == (Interface {
                show_outline: final(self).ui.show_outline,
                focused_panel: final(self).ui.focused_panel,
                ..old(self).ui
            }),
            final(self).ui.show_outline == (!old(self).ui.show_outline),
            final(self).ui.focused_panel == (if old(self).ui.show_outline {
                    FocusedPanel::Content
                } else {
                    old(self).ui.focused_panel
                }),
    {
        self.ui.show_outline = !self.ui.show_outline;
        if !self.ui.show_outline && self.ui.focused_panel == FocusedPanel::Outline {
            self.ui.focused_panel = FocusedPanel::Content;
        }
    }

    /// Switches the wrapping of long lines.
    pub fn toggle_line_wrap(&mut self)
        ensures
            *final(self) == (AppState { prefs: final(self).prefs, ..*old(self) }),
            final(self).prefs == (Preferences {
                line_wrap: final(self).prefs.line_wrap,
                ..old(self).prefs
            }),
            final(self).prefs.line_wrap == (!old(self).prefs.line_wrap),
    {
        self.prefs.line_wrap = !self.prefs.line_wrap;
    }

    /// Shows or hides the line numbers.
    pub fn toggle_line_numbers(&mut self)
        ensures
            *final(self) == (AppState { prefs: final(self).prefs, ..*old(self) }),
            final(self).prefs == (Preferences {
                show_line_numbers: final(self).prefs.show_line_numbers,
                ..old(self).prefs
            }),
            final(self).prefs.show_line_numbers == (!old(self).prefs.show_line_numbers),
    {
        self.prefs.show_line_numbers = !self.prefs.show_line_numbers;
    }

    /// Moves the focus to the other panel, where the outline is shown.
    pub fn cycle_focus(&mut self)
        ensures
            *final(self) == (AppState { ui: final(self).ui, ..*old(self) }),
            final(self).ui == (Interface {
                focused_panel: final(self).ui.focused_panel,
                ..old(self).ui
            }),
            final(self).ui.focused_panel == (if !old(self).ui.show_outline {
                    old(self).ui.focused_panel
                } else if old(self).ui.focused_panel == FocusedPanel::Content {
                    FocusedPanel::Outline
                } else {
                    FocusedPanel::Content
                }),
    {
        if self.ui.show_outline {
            self.ui.focused_panel = match self.ui.focused_panel {
                FocusedPanel::Content => FocusedPanel::Outline,
                FocusedPanel::Outline => FocusedPanel::Content,
            };
        }
    }

    /// Switches the reloading of changed files, and says so.
    pub fn toggle_auto_reload(&mut self)
        ensures
            *final(self) == (AppState {
                prefs: final(self).prefs,
                ui: final(self).ui,
                ..*old(self)
            }),
            final(self).prefs == (Preferences {
                auto_reload: final(self).prefs.auto_reload,
                ..old(self).prefs
            }),
            final(self).ui == (Interface {
                status_message: final(self).ui.status_message,
                ..old(self).ui
            }),
            final(self).prefs.auto_reload == (!old(self).prefs.auto_reload),
            says(
                final(self).ui.status_message,
                if old(self).prefs.auto_reload {
                    "Auto-reload disabled"@
                } else {
                    "Auto-reload enabled"@
                },
            ),
    {
        self.prefs.auto_reload = !self.prefs.auto_reload;
        self.ui.status_message = Some(
            if self.prefs.auto_reload {
                String::from_str("Auto-reload enabled")
            } else {
                String::from_str("Auto-reload disabled")
            },
        );
    }
}

} // verus!
