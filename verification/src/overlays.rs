//! The overlays of the viewer and what the user does in them: the file
//! picker, the history, the bookmarks, the text inputs, and the links of the
//! document.

use crate::app::{
    says, AppState, FilePicker, InputMode, Interface, Library, OpenDocument, Overlays, PaneLayout,
};
use crate::config::{Config, ConfigView};
use crate::documents::{last_segment, last_segment_of};
use crate::render::link_index;
use crate::storage::{bookmarked, has_bookmark};
use crate::text::{
    chars_of, contains, ends_with, lowercase_of, occurs_in, starts_with, str_concat,
    string_from_chars, to_lowercase,
};
use vstd::prelude::*;

verus! {

/// What the caller is to do after a step of the viewer.
#[derive(Debug)]
pub enum OpenAction {
    /// Nothing.
    Stay,
    /// Read the local file of this path and show it.
    LoadFile(String),
    /// Fetch the document at this URL and show it.
    Fetch(String),
    /// Open the local Markdown file that a link of the document names,
    /// relative to the document.
    OpenLinkedFile(String),
    /// Put this URL on the clipboard.
    CopyLink(String),
}

/// Mathematical model of an [`OpenAction`].
pub ghost enum OpenActionView {
    Stay,
    LoadFile(Seq<char>),
    Fetch(Seq<char>),
    OpenLinkedFile(Seq<char>),
    CopyLink(Seq<char>),
}

impl View for OpenAction {
    type V = OpenActionView;

    open spec fn view(&self) -> OpenActionView {
        match *self {
            OpenAction::Stay => OpenActionView::Stay,
            OpenAction::LoadFile(path) => OpenActionView::LoadFile(path@),
            OpenAction::Fetch(url) => OpenActionView::Fetch(url@),
            OpenAction::OpenLinkedFile(url) => OpenActionView::OpenLinkedFile(url@),
            OpenAction::CopyLink(url) => OpenActionView::CopyLink(url@),
        }
    }
}

/// The kinds of link that the viewer tells apart.
pub ghost enum LinkKind {
    /// A local Markdown file: the link ends in `.md` or `.MD`.
    LocalFile,
    /// A document of the web that can be fetched.
    Fetchable,
    /// Any other address of the web.
    External,
    /// A heading of the document, by its anchor.
    Anchor,
    Unknown,
}

/// The kind of a link.
pub open spec fn link_kind(url: Seq<char>) -> LinkKind {
    if ".md"@.is_suffix_of(url) || ".MD"@.is_suffix_of(url) {
        LinkKind::LocalFile
    } else if "http://"@.is_prefix_of(url) || "https://"@.is_prefix_of(url) {
        if ".markdown"@.is_suffix_of(url) || occurs_in(url, "github.com"@) || occurs_in(
            url,
            "raw.githubusercontent.com"@,
        ) {
            LinkKind::Fetchable
        } else {
            LinkKind::External
        }
    } else if url.len() > 0 && url[0] == '#' {
        LinkKind::Anchor
    } else {
        LinkKind::Unknown
    }
}

/// `s` with every `from` replaced by `to`.
pub open spec fn replaced(s: Seq<char>, from: char, to: char) -> Seq<char> {
    Seq::new(
        s.len(),
        |i: int|
            if s[i] == from {
                to
            } else {
                s[i]
            },
    )
}

/// A text with every `from` replaced by `to`.
pub fn replace_char(s: &str, from: char, to: char) -> (out: String)
    ensures
        out@ == replaced(s@, from, to),
{
    let chars = chars_of(s);
    let mut out: Vec<char> = Vec::new();
    let mut i: usize = 0;
    while i < chars.len()
        invariant
            i <= chars.len(),
            chars@ == s@,
            out@ == replaced(s@, from, to).take(i as int),
        decreases chars.len() - i,
    {
        out.push(if chars[i] == from {
            to
        } else {
            chars[i]
        });
        assert(out@ =~= replaced(s@, from, to).take(i + 1));
        i = i + 1;
    }
    assert(replaced(s@, from, to).take(chars.len() as int) =~= replaced(s@, from, to));
    string_from_chars(&out)
}

/// Whether a heading answers to an anchor: its text in lower case is the
/// anchor in lower case with spaces for hyphens, or its text in lower case
/// with hyphens for spaces is the anchor in lower case.
pub open spec fn answers_to(heading: Seq<char>, anchor: Seq<char>) -> bool {
    ||| lowercase_of(heading) == replaced(lowercase_of(anchor), '-', ' ')
    ||| replaced(lowercase_of(heading), ' ', '-') == lowercase_of(anchor)
}

/// Index of the first heading that answers to an anchor, or the number of
/// headings where none does.
pub open spec fn anchor_index(headings: Seq<Seq<char>>, anchor: Seq<char>) -> int
    decreases headings.len(),
{
    if headings.len() == 0 || answers_to(headings[0], anchor) {
        0
    } else {
        1 + anchor_index(headings.drop_first(), anchor)
    }
}

proof fn lemma_anchor_index(headings: Seq<Seq<char>>, anchor: Seq<char>, k: int)
    requires
        0 <= k <= headings.len(),
        forall|j: int| 0 <= j < k ==> !answers_to(headings[j], anchor),
        k == headings.len() || answers_to(headings[k], anchor),
    ensures
        anchor_index(headings, anchor) == k,
    decreases headings.len(),
{
    if headings.len() == 0 || k == 0 {
    } else {
        let rest = headings.drop_first();
        assert forall|j: int| 0 <= j < k - 1 implies !answers_to(rest[j], anchor) by {
            assert(rest[j] == headings[j + 1]);
        }
        lemma_anchor_index(rest, anchor, k - 1);
    }
}

/// The name under which a place is bookmarked: the name that was typed, or
/// the last segment of the place where none was.
pub open spec fn chosen_name(typed: Seq<char>, location: Seq<char>) -> Seq<char> {
    if typed.len() == 0 {
        last_segment(location)
    } else {
        typed
    }
}

impl AppState {
    /// The texts of the headings of the document; none without a document.
    pub open spec fn heading_texts(&self) -> Seq<Seq<char>> {
        match self.doc.document {
            Some(document) => Seq::new(
                document.headings.len() as nat,
                |i: int| document.headings[i].text@,
            ),
            None => Seq::empty(),
        }
    }

    /// The link on the line that the current pane is scrolled to, by its
    /// logical line: the URL of the first such link, if there is one.
    pub open spec fn link_here(&self) -> Option<Seq<char>> {
        match self.doc.document {
            Some(document) => {
                let line = self.view.panes[self.view.active_pane as int].scroll;
                let i = link_index(document.links@, line);
                if 0 <= i < document.links.len() {
                    Some(document.links[i].url@)
                } else {
                    None
                }
            },
            None => None,
        }
    }

    /// Shows the file picker with the Markdown files that were found, the
    /// first selected; says so where none was found.
    pub fn open_file_picker(&mut self, files: Vec<String>)
        ensures
            final(self).wf() == old(self).wf(),
            *final(self) == (AppState {
                picker: final(self).picker,
                ui: final(self).ui,
                ..*old(self)
            }),
            final(self).picker.file_picker_files == files,
            files.len() > 0 ==> final(self).ui == old(self).ui && final(self).picker
                == (FilePicker {
                show_file_picker: true,
                file_picker_files: files,
                file_picker_selected: 0,
            }),
            files.len() == 0 ==> final(self).picker == (FilePicker {
                file_picker_files: files,
                ..old(self).picker
            }) && final(self).ui == (Interface {
                status_message: final(self).ui.status_message,
                ..old(self).ui
            }) && says(final(self).ui.status_message, "No markdown files found"@),
    {
        let found = files.len() > 0;
        self.picker.file_picker_files = files;
        if found {
            self.picker.show_file_picker = true;
            self.picker.file_picker_selected = 0;
        } else {
            self.ui.status_message = Some(String::from_str("No markdown files found"));
        }
    }

    /// Moves the selection of the file picker up.
    pub fn file_picker_up(&mut self)
        ensures
            *final(self) == (AppState { picker: final(self).picker, ..*old(self) }),
            final(self).picker == (FilePicker {
                file_picker_selected: if old(self).picker.file_picker_selected > 0 {
                    (old(self).picker.file_picker_selected - 1) as usize
                } else {
                    0
                },
                ..old(self).picker
            }),
    {
        if self.picker.file_picker_selected > 0 {
            self.picker.file_picker_selected -= 1;
        }
    }

    /// Moves the selection of the file picker down.
    pub fn file_picker_down(&mut self)
        ensures
            *final(self) == (AppState { picker: final(self).picker, ..*old(self) }),
            final(self).picker == (FilePicker {
                file_picker_selected: if old(self).picker.file_picker_selected + 1 < old(self).picker.file_picker_files.len() {
                    (old(self).picker.file_picker_selected + 1) as usize
                } else {
                    old(self).picker.file_picker_selected
                },
                ..old(self).picker
            }),
    {
        let count = self.picker.file_picker_files.len();
        if count > 0 && self.picker.file_picker_selected < count - 1 {
            self.picker.file_picker_selected += 1;
        }
    }

    /// Closes the file picker and hands out the file that is selected, for
    /// the caller to load. Does nothing where no file is selected.
    pub fn open_selected_file(&mut self) -> (action: OpenAction)
        ensures
            *final(self) == (AppState { picker: final(self).picker, ..*old(self) }),
            old(self).picker.file_picker_selected < old(self).picker.file_picker_files.len() ==> {
                &&& final(self).picker == (FilePicker {
                    show_file_picker: false,
                    ..old(self).picker
                })
                &&& action@ == OpenActionView::LoadFile(
                    old(self).picker.file_picker_files[old(self).picker.file_picker_selected as int]@,
                )
            },
            old(self).picker.file_picker_selected >= old(self).picker.file_picker_files.len() ==> {
                &&& final(self).picker == old(self).picker
                &&& action@ == OpenActionView::Stay
            },
    {
        if self.picker.file_picker_selected < self.picker.file_picker_files.len() {
            self.picker.show_file_picker = false;
            OpenAction::LoadFile(
                self.picker.file_picker_files[self.picker.file_picker_selected].clone(),
            )
        } else {
            OpenAction::Stay
        }
    }

    /// Closes the file picker.
    pub fn close_file_picker(&mut self)
        ensures
            *final(self) == (AppState { picker: final(self).picker, ..*old(self) }),
            final(self).picker == (FilePicker { show_file_picker: false, ..old(self).picker }),
    {
        self.picker.show_file_picker = false;
    }

    /// Sets the message.
    fn say(&mut self, text: String)
        ensures
            final(self).wf() == old(self).wf(),
            old(self).only_message_changed(*final(self), text@),
    {
        self.ui.status_message = Some(text);
    }

    /// Reports that a document could not be loaded.
    pub fn report_error(&mut self, error: &str)
        ensures
            final(self).wf() == old(self).wf(),
            old(self).only_message_changed(*final(self), "Error: "@ + error@),
    {
        self.say(str_concat("Error: ", error));
    }

    /// Reports that the file of a link could not be opened.
    pub fn link_open_failed(&mut self, url: &str, error: &str)
        ensures
            final(self).wf() == old(self).wf(),
            old(self).only_message_changed(*final(self), "Error opening "@ + url@ + ": "@ + error@),
    {
        let mut text = str_concat("Error opening ", url);
        text.append(": ");
        text.append(error);
        self.say(text);
    }

    /// Reports that the file of a link does not exist.
    pub fn link_file_missing(&mut self, path: &str)
        ensures
            final(self).wf() == old(self).wf(),
            old(self).only_message_changed(*final(self), "File not found: "@ + path@),
    {
        self.say(str_concat("File not found: ", path));
    }

    /// Reports what came of putting a link on the clipboard.
    pub fn link_copied(&mut self, url: &str, copied: bool)
        ensures
            final(self).wf() == old(self).wf(),
            old(self).only_message_changed(*final(self),
                if copied {
                    "URL copied: "@ + url@
                } else {
                    "Link: "@ + url@
                }),
    {
        if copied {
            self.say(str_concat("URL copied: ", url));
        } else {
            self.say(str_concat("Link: ", url));
        }
    }

    /// The text of the line that the current pane is scrolled to, for the
    /// clipboard; `None` behind the last line.
    pub fn yank_line(&self) -> (text: Option<String>)
        requires
            self.wf(),
        ensures
            text.deep_view() == if self.view.panes[self.view.active_pane as int].scroll
                < self.doc.rendered_lines.len() {
                Some(
                    self.doc.rendered_lines.deep_view()[self.view.panes[self.view.active_pane as int].scroll as int].text(),
                )
            } else {
                None
            },
    {
        let line = self.view.panes[self.view.active_pane].scroll;
        if line < self.doc.rendered_lines.len() {
            assert(self.doc.rendered_lines.deep_view()[line as int]
                == self.doc.rendered_lines[line as int]@);
            Some(self.doc.rendered_lines[line].text())
        } else {
            None
        }
    }

    /// Reports what came of putting a line on the clipboard.
    pub fn line_copied(&mut self, copied: bool)
        ensures
            final(self).wf() == old(self).wf(),
            old(self).only_message_changed(*final(self),
                if copied {
                    "Line copied to clipboard"@
                } else {
                    "Failed to copy"@
                }),
    {
        if copied {
            self.say(String::from_str("Line copied to clipboard"));
        } else {
            self.say(String::from_str("Failed to copy"));
        }
    }

    /// The settings as they are now.
    pub open spec fn settings(&self) -> ConfigView {
        ConfigView {
            theme: self.prefs.theme.name@,
            line_wrap: self.prefs.line_wrap,
            show_outline: self.ui.show_outline,
            outline_width: self.ui.outline_width,
            show_line_numbers: self.prefs.show_line_numbers,
            syntax_highlighting: self.prefs.syntax_highlighting,
            auto_reload: self.prefs.auto_reload,
        }
    }

    /// The settings as they are now, to be saved.
    pub fn save_config(&self) -> (config: Config)
        ensures
            config@ == self.settings(),
    {
        Config {
            theme: String::from_str(self.prefs.theme.name),
            line_wrap: self.prefs.line_wrap,
            show_outline: self.ui.show_outline,
            outline_width: self.ui.outline_width,
            show_line_numbers: self.prefs.show_line_numbers,
            syntax_highlighting: self.prefs.syntax_highlighting,
            auto_reload: self.prefs.auto_reload,
        }
    }

    /// Reports what came of saving the settings: `error` is the message of
    /// the failure, if it failed.
    pub fn config_saved(&mut self, error: Option<&str>)
        ensures
            final(self).wf() == old(self).wf(),
            old(self).only_message_changed(*final(self),
                match error {
                    Some(message) => "Failed to save: "@ + message@,
                    None => "Settings saved"@,
                }),
    {
        match error {
            Some(message) => self.say(str_concat("Failed to save: ", message)),
            None => self.say(String::from_str("Settings saved")),
        }
    }

    /// Starts the input of a URL.
    pub fn start_url_input(&mut self)
        ensures
            *final(self) == (AppState {
                ui: final(self).ui,
                overlays: final(self).overlays,
                ..*old(self)
            }),
            final(self).ui == (Interface { mode: InputMode::UrlInput, ..old(self).ui }),
            final(self).overlays == (Overlays { show_url_input: true, ..old(self).overlays }),
    {
        self.ui.mode = InputMode::UrlInput;
        self.overlays.show_url_input = true;
    }

    /// Ends the input of a URL, and has the URL fetched unless it is empty.
    pub fn submit_url(&mut self, url: &str) -> (action: OpenAction)
        ensures
            final(self).wf() == old(self).wf(),
            *final(self) == (AppState {
                ui: final(self).ui,
                overlays: final(self).overlays,
                doc: final(self).doc,
                ..*old(self)
            }),
            final(self).overlays == (Overlays { show_url_input: false, ..old(self).overlays }),
            final(self).ui == (Interface {
                mode: InputMode::Normal,
                status_message: final(self).ui.status_message,
                ..old(self).ui
            }),
            url@.len() == 0 ==> {
                &&& action@ == OpenActionView::Stay
                &&& final(self).doc == old(self).doc
                &&& final(self).ui.status_message == old(self).ui.status_message
            },
            url@.len() > 0 ==> {
                &&& action@ == OpenActionView::Fetch(url@)
                &&& final(self).doc == (OpenDocument { is_loading: true, ..old(self).doc })
                &&& says(final(self).ui.status_message, "Loading "@ + url@ + "..."@)
            },
    {
        self.ui.mode = InputMode::Normal;
        self.overlays.show_url_input = false;
        if url.is_empty() {
            OpenAction::Stay
        } else {
            self.start_url_fetch(url);
            OpenAction::Fetch(String::from_str(url))
        }
    }

    /// Leaves the input of a URL.
    pub fn cancel_url_input(&mut self)
        ensures
            *final(self) == (AppState {
                ui: final(self).ui,
                overlays: final(self).overlays,
                ..*old(self)
            }),
            final(self).ui == (Interface { mode: InputMode::Normal, ..old(self).ui }),
            final(self).overlays == (Overlays { show_url_input: false, ..old(self).overlays }),
    {
        self.ui.mode = InputMode::Normal;
        self.overlays.show_url_input = false;
    }

    /// Opens the history, with the most recent document selected; says so
    /// where the history is empty.
    pub fn open_history(&mut self)
        ensures
            final(self).wf() == old(self).wf(),
            *final(self) == (AppState {
                library: final(self).library,
                ui: final(self).ui,
                ..*old(self)
            }),
            old(self).library.history.entries.len() > 0 ==> final(self).ui == old(self).ui
                && final(self).library == (Library {
                show_history: true,
                history_selected: 0,
                ..old(self).library
            }),
            old(self).library.history.entries.len() == 0 ==> final(self).library
                == old(self).library && final(self).ui == (Interface {
                status_message: final(self).ui.status_message,
                ..old(self).ui
            }) && says(final(self).ui.status_message, "No history"@),
    {
        if self.library.history.entries.len() == 0 {
            self.ui.status_message = Some(String::from_str("No history"));
        } else {
            self.library.show_history = true;
            self.library.history_selected = 0;
        }
    }

    /// Closes the history.
    pub fn close_history(&mut self)
        ensures
            *final(self) == (AppState { library: final(self).library, ..*old(self) }),
            final(self).library == (Library { show_history: false, ..old(self).library }),
    {
        self.library.show_history = false;
    }

    /// Moves the selection of the history up.
    pub fn history_up(&mut self)
        ensures
            *final(self) == (AppState { library: final(self).library, ..*old(self) }),
            final(self).library == (Library {
                history_selected: if old(self).library.history_selected > 0 {
                    (old(self).library.history_selected - 1) as usize
                } else {
                    0
                },
                ..old(self).library
            }),
    {
        if self.library.history_selected > 0 {
            self.library.history_selected -= 1;
        }
    }

    /// Moves the selection of the history down.
    pub fn history_down(&mut self)
        ensures
            *final(self) == (AppState { library: final(self).library, ..*old(self) }),
            final(self).library == (Library {
                history_selected: if old(self).library.history_selected + 1 < old(self).library.history.entries.len() {
                    (old(self).library.history_selected + 1) as usize
                } else {
                    old(self).library.history_selected
                },
                ..old(self).library
            }),
    {
        let count = self.library.history.entries.len();
        if count > 0 && self.library.history_selected < count - 1 {
            self.library.history_selected += 1;
        }
    }

    /// Closes the history and opens the document that is selected: a URL is
    /// fetched, a file is handed out for the caller to load. Does nothing
    /// where no entry is selected.
    pub fn select_history(&mut self) -> (action: OpenAction)
        ensures
            final(self).wf() == old(self).wf(),
            *final(self) == (AppState {
                library: final(self).library,
                doc: final(self).doc,
                ui: final(self).ui,
                ..*old(self)
            }),
            old(self).library.history_selected >= old(self).library.history.entries.len() ==> {
                &&& *final(self) == *old(self)
                &&& action@ == OpenActionView::Stay
            },
            old(self).library.history_selected < old(self).library.history.entries.len() ==> {
                let entry = old(self).library.history.entries[old(self).library.history_selected as int];
                &&& final(self).library == (Library { show_history: false, ..old(self).library })
                &&& entry.is_url ==> {
                    &&& action@ == OpenActionView::Fetch(entry.location@)
                    &&& final(self).doc == (OpenDocument { is_loading: true, ..old(self).doc })
                    &&& final(self).ui == (Interface {
                        status_message: final(self).ui.status_message,
                        ..old(self).ui
                    })
                    &&& says(final(self).ui.status_message, "Loading "@ + entry.location@ + "..."@)
                }
                &&& !entry.is_url ==> {
                    &&& action@ == OpenActionView::LoadFile(entry.location@)
                    &&& final(self).doc == old(self).doc
                    &&& final(self).ui == old(self).ui
                }
            },
    {
        if self.library.history_selected >= self.library.history.entries.len() {
            return OpenAction::Stay;
        }
        let location = self.library.history.entries[self.library.history_selected].location.clone();
        let is_url = self.library.history.entries[self.library.history_selected].is_url;
        self.library.show_history = false;
        if is_url {
            self.start_url_fetch(location.as_str());
            OpenAction::Fetch(location)
        } else {
            OpenAction::LoadFile(location)
        }
    }

    /// Opens the bookmarks, with the first selected; says so where there
    /// are none.
    pub fn open_bookmarks(&mut self)
        ensures
            final(self).wf() == old(self).wf(),
            *final(self) == (AppState {
                library: final(self).library,
                ui: final(self).ui,
                ..*old(self)
            }),
            old(self).library.bookmarks@.len() > 0 ==> final(self).ui == old(self).ui
                && final(self).library == (Library {
                show_bookmarks: true,
                bookmarks_selected: 0,
                ..old(self).library
            }),
            old(self).library.bookmarks@.len() == 0 ==> final(self).library == old(self).library
                && final(self).ui == (Interface {
                status_message: final(self).ui.status_message,
                ..old(self).ui
            }) && says(final(self).ui.status_message, "No bookmarks"@),
    {
        if self.library.bookmarks.entries().len() == 0 {
            self.ui.status_message = Some(String::from_str("No bookmarks"));
        } else {
            self.library.show_bookmarks = true;
            self.library.bookmarks_selected = 0;
        }
    }

    /// Closes the bookmarks.
    pub fn close_bookmarks(&mut self)
        ensures
            *final(self) == (AppState { library: final(self).library, ..*old(self) }),
            final(self).library == (Library { show_bookmarks: false, ..old(self).library }),
    {
        self.library.show_bookmarks = false;
    }

    /// Moves the selection of the bookmarks up.
    pub fn bookmarks_up(&mut self)
        ensures
            *final(self) == (AppState { library: final(self).library, ..*old(self) }),
            final(self).library == (Library {
                bookmarks_selected: if old(self).library.bookmarks_selected > 0 {
                    (old(self).library.bookmarks_selected - 1) as usize
                } else {
                    0
                },
                ..old(self).library
            }),
    {
        if self.library.bookmarks_selected > 0 {
            self.library.bookmarks_selected -= 1;
        }
    }

    /// Moves the selection of the bookmarks down.
    pub fn bookmarks_down(&mut self)
        ensures
            *final(self) == (AppState { library: final(self).library, ..*old(self) }),
            final(self).library == (Library {
                bookmarks_selected: if old(self).library.bookmarks_selected + 1 < old(self).library.bookmarks@.len() {
                    (old(self).library.bookmarks_selected + 1) as usize
                } else {
                    old(self).library.bookmarks_selected
                },
                ..old(self).library
            }),
    {
        let count = self.library.bookmarks.entries().len();
        if count > 0 && self.library.bookmarks_selected < count - 1 {
            self.library.bookmarks_selected += 1;
        }
    }

    /// Closes the bookmarks and opens the one that is selected: a URL is
    /// fetched, a file is handed out for the caller to load. Does nothing
    /// where no bookmark is selected.
    pub fn select_bookmark(&mut self) -> (action: OpenAction)
        ensures
            final(self).wf() == old(self).wf(),
            *final(self) == (AppState {
                library: final(self).library,
                doc: final(self).doc,
                ui: final(self).ui,
                ..*old(self)
            }),
            old(self).library.bookmarks_selected >= old(self).library.bookmarks@.len() ==> {
                &&& *final(self) == *old(self)
                &&& action@ == OpenActionView::Stay
            },
            old(self).library.bookmarks_selected < old(self).library.bookmarks@.len() ==> {
                let bookmark = old(self).library.bookmarks@[old(self).library.bookmarks_selected as int];
                &&& final(self).library == (Library { show_bookmarks: false, ..old(self).library })
                &&& bookmark.is_url ==> {
                    &&& action@ == OpenActionView::Fetch(bookmark.location)
                    &&& final(self).doc == (OpenDocument { is_loading: true, ..old(self).doc })
                    &&& final(self).ui == (Interface {
                        status_message: final(self).ui.status_message,
                        ..old(self).ui
                    })
                    &&& says(final(self).ui.status_message,
                        "Loading "@ + bookmark.location + "..."@)
                }
                &&& !bookmark.is_url ==> {
                    &&& action@ == OpenActionView::LoadFile(bookmark.location)
                    &&& final(self).doc == old(self).doc
                    &&& final(self).ui == old(self).ui
                }
            },
    {
        let selected = self.library.bookmarks_selected;
        let entries = self.library.bookmarks.entries();
        if selected >= entries.len() {
            return OpenAction::Stay;
        }
        let location = entries[selected].location.clone();
        let is_url = entries[selected].is_url;
        assert(entries@[selected as int]@ == self.library.bookmarks@[selected as int]);
        self.library.show_bookmarks = false;
        if is_url {
            self.start_url_fetch(location.as_str());
            OpenAction::Fetch(location)
        } else {
            OpenAction::LoadFile(location)
        }
    }

    /// The place that is shown, as a plain value.
    pub open spec fn location(&self) -> Option<Seq<char>> {
        match self.doc.current_url {
            Some(url) => Some(url@),
            None => self.doc.file_path.deep_view(),
        }
    }

    /// The name that is proposed for a bookmark of the place that is shown:
    /// the last segment of a URL, else the name of the file.
    pub open spec fn proposed_name(&self) -> Seq<char> {
        match self.doc.current_url {
            Some(url) => last_segment(url@),
            None => match self.doc.file_name {
                Some(name) => name@,
                None => Seq::empty(),
            },
        }
    }

    /// Starts the input of the name of a bookmark of the place that is
    /// shown, and hands out the name that is proposed. Says so where nothing
    /// is shown, or where the place is bookmarked already.
    pub fn start_add_bookmark(&mut self) -> (proposed: Option<String>)
        ensures
            final(self).wf() == old(self).wf(),
            *final(self) == (AppState {
                ui: final(self).ui,
                overlays: final(self).overlays,
                ..*old(self)
            }),
            match old(self).location() {
                None => {
                    &&& proposed is None
                    &&& final(self).overlays == old(self).overlays
                    &&& final(self).ui == (Interface {
                        status_message: final(self).ui.status_message,
                        ..old(self).ui
                    })
                    &&& says(final(self).ui.status_message, "Nothing to bookmark"@)
                },
                Some(location) => if has_bookmark(old(self).library.bookmarks@, location) {
                    &&& proposed is None
                    &&& final(self).overlays == old(self).overlays
                    &&& final(self).ui == (Interface {
                        status_message: final(self).ui.status_message,
                        ..old(self).ui
                    })
                    &&& says(final(self).ui.status_message, "Already bookmarked"@)
                } else {
                    &&& proposed.deep_view() == Some(old(self).proposed_name())
                    &&& final(self).ui == (Interface {
                        mode: InputMode::BookmarkName,
                        ..old(self).ui
                    })
                    &&& final(self).overlays == (Overlays {
                        show_bookmark_name_input: true,
                        ..old(self).overlays
                    })
                },
            },
    {
        let location = match self.current_location() {
            Some(location) => location,
            None => {
                self.ui.status_message = Some(String::from_str("Nothing to bookmark"));
                return None;
            },
        };
        if self.library.bookmarks.is_bookmarked(location.as_str()) {
            self.ui.status_message = Some(String::from_str("Already bookmarked"));
            return None;
        }
        let name = match &self.doc.current_url {
            Some(url) => last_segment_of(url.as_str()),
            None => match &self.doc.file_name {
                Some(name) => name.clone(),
                None => String::new(),
            },
        };
        self.ui.mode = InputMode::BookmarkName;
        self.overlays.show_bookmark_name_input = true;
        Some(name)
    }

    /// Ends the input of the name of a bookmark, and bookmarks the place
    /// that is shown under that name; under the last segment of the place
    /// where the name is empty. Hands out the name, for the caller to save the
    /// bookmarks and report it; `None` where nothing is shown.
    pub fn confirm_add_bookmark(&mut self, name: &str) -> (used: Option<String>)
        ensures
            final(self).wf() == old(self).wf(),
            *final(self) == (AppState {
                ui: final(self).ui,
                overlays: final(self).overlays,
                library: final(self).library,
                ..*old(self)
            }),
            final(self).ui == (Interface { mode: InputMode::Normal, ..old(self).ui }),
            final(self).overlays == (Overlays {
                show_bookmark_name_input: false,
                ..old(self).overlays
            }),
            final(self).library == (Library {
                bookmarks: final(self).library.bookmarks,
                ..old(self).library
            }),
            old(self).location() is None ==> used is None && final(self).library.bookmarks@
                == old(self).library.bookmarks@,
            old(self).location() is Some ==> used.deep_view() == Some(
                chosen_name(name@, old(self).location()->0),
            ),
            old(self).location() is Some ==> exists|now: u64|
                final(self).library.bookmarks@ == #[trigger] bookmarked(
                    old(self).library.bookmarks@,
                    old(self).location()->0,
                    old(self).doc.current_url is Some,
                    chosen_name(name@, old(self).location()->0),
                    now,
                ),
    {
        self.ui.mode = InputMode::Normal;
        self.overlays.show_bookmark_name_input = false;
        let location = match self.current_location() {
            Some(location) => location,
            None => {
                return None;
            },
        };
        let is_url = self.doc.current_url.is_some();
        let chosen = if name.is_empty() {
            last_segment_of(location.as_str())
        } else {
            String::from_str(name)
        };
        assert(Some(location@) == old(self).location());
        let ghost before = self.library.bookmarks@;
        self.library.bookmarks.add(location.as_str(), is_url, chosen.as_str());
        proof {
            let now = choose|now: u64|
                self.library.bookmarks@ == #[trigger] bookmarked(
                    before,
                    location@,
                    is_url,
                    chosen@,
                    now,
                );
            assert(self.library.bookmarks@ == bookmarked(
                old(self).library.bookmarks@,
                location@,
                old(self).doc.current_url is Some,
                chosen@,
                now,
            ));
        }
        Some(chosen)
    }

    /// Reports what came of saving a new bookmark: `error` is the message
    /// of the failure, if it failed.
    pub fn bookmark_saved(&mut self, name: &str, error: Option<&str>)
        ensures
            final(self).wf() == old(self).wf(),
            old(self).only_message_changed(*final(self),
                match error {
                    Some(message) => "Failed to save bookmark: "@ + message@,
                    None => "Bookmarked: "@ + name@,
                }),
    {
        match error {
            Some(message) => self.say(str_concat("Failed to save bookmark: ", message)),
            None => self.say(str_concat("Bookmarked: ", name)),
        }
    }

    /// Leaves the input of the name of a bookmark.
    pub fn cancel_add_bookmark(&mut self)
        ensures
            *final(self) == (AppState {
                ui: final(self).ui,
                overlays: final(self).overlays,
                ..*old(self)
            }),
            final(self).ui == (Interface { mode: InputMode::Normal, ..old(self).ui }),
            final(self).overlays == (Overlays {
                show_bookmark_name_input: false,
                ..old(self).overlays
            }),
    {
        self.ui.mode = InputMode::Normal;
        self.overlays.show_bookmark_name_input = false;
    }

    /// Deletes the bookmark that is selected, and says so. The selection
    /// stays on the list, and the overlay closes with the last bookmark.
    /// Returns whether a bookmark was deleted, for the caller to save the
    /// bookmarks.
    pub fn delete_selected_bookmark(&mut self) -> (deleted: bool)
        ensures
            final(self).wf() == old(self).wf(),
            deleted == (old(self).library.bookmarks_selected < old(self).library.bookmarks@.len()),
            !deleted ==> *final(self) == *old(self),
            deleted ==> {
                let left = old(self).library.bookmarks@.remove(
                    old(self).library.bookmarks_selected as int,
                );
                &&& *final(self) == (AppState {
                    library: final(self).library,
                    ui: final(self).ui,
                    ..*old(self)
                })
                &&& final(self).ui == (Interface {
                    status_message: final(self).ui.status_message,
                    ..old(self).ui
                })
                &&& says(final(self).ui.status_message, "Bookmark deleted"@)
                &&& final(self).library == (Library {
                    bookmarks: final(self).library.bookmarks,
                    bookmarks_selected: final(self).library.bookmarks_selected,
                    show_bookmarks: final(self).library.show_bookmarks,
                    ..old(self).library
                })
                &&& final(self).library.bookmarks@ == left
                &&& final(self).library.bookmarks_selected
                    == if old(self).library.bookmarks_selected > 0
                        && old(self).library.bookmarks_selected
                    >= left.len() {
                    (left.len() - 1) as usize
                } else {
                    old(self).library.bookmarks_selected
                }
                &&& final(self).library.show_bookmarks == (left.len() > 0
                    && old(self).library.show_bookmarks)
            },
    {
        let count = self.library.bookmarks.entries().len();
        if self.library.bookmarks_selected >= count {
            return false;
        }
        self.library.bookmarks.remove(self.library.bookmarks_selected);
        self.ui.status_message = Some(String::from_str("Bookmark deleted"));
        let left = self.library.bookmarks.entries().len();
        if self.library.bookmarks_selected > 0 && self.library.bookmarks_selected >= left {
            self.library.bookmarks_selected = left - 1;
        }
        if left == 0 {
            self.library.show_bookmarks = false;
        }
        true
    }

    /// Follows a link of the document.
    ///
    /// A link to a local Markdown file is handed out for the caller to open.
    /// An address of the web is fetched where it may hold Markdown, and is
    /// handed out for the clipboard where not. An anchor scrolls to the
    /// logical line of the first heading that answers to it. What was done,
    /// or could not be done, is reported.
    pub fn open_link(&mut self, url: &str) -> (action: OpenAction)
        requires
            old(self).wf(),
        ensures
            final(self).wf(),
            *final(self) == (AppState {
                doc: final(self).doc,
                ui: final(self).ui,
                view: final(self).view,
                ..*old(self)
            }),
            match link_kind(url@) {
                LinkKind::LocalFile => action@ == OpenActionView::OpenLinkedFile(url@)
                    && *final(self) == *old(self),
                LinkKind::Fetchable => {
                    &&& action@ == OpenActionView::Fetch(url@)
                    &&& final(self).view == old(self).view
                    &&& final(self).doc == (OpenDocument { is_loading: true, ..old(self).doc })
                    &&& final(self).ui == (Interface {
                        status_message: final(self).ui.status_message,
                        ..old(self).ui
                    })
                    &&& says(final(self).ui.status_message, "Loading "@ + url@ + "..."@)
                },
                LinkKind::External => action@ == OpenActionView::CopyLink(url@) && *final(self)
                    == *old(self),
                LinkKind::Anchor => {
                    let anchor = url@.skip(1);
                    let found = anchor_index(old(self).heading_texts(), anchor);
                    &&& action@ == OpenActionView::Stay
                    &&& final(self).doc == old(self).doc
                    &&& final(self).ui == (Interface {
                        status_message: final(self).ui.status_message,
                        ..old(self).ui
                    })
                    &&& final(self).view == (PaneLayout {
                        panes: final(self).view.panes,
                        ..old(self).view
                    })
                    &&& if 0 <= found < old(self).heading_texts().len() {
                        &&& final(self).pane_views() == old(self).with_pane(
                            old(self).pane().at_line(
                                old(self).doc.document->0.headings[found].logical_line,
                                old(self).doc.rendered_lines.len(),
                            ),
                        )
                        &&& says(
                            final(self).ui.status_message,
                            "Jumped to: "@ + old(self).heading_texts()[found],
                        )
                    } else {
                        &&& final(self).pane_views() == old(self).pane_views()
                        &&& says(final(self).ui.status_message, "Anchor not found: "@ + anchor)
                    }
                },
                LinkKind::Unknown => {
                    &&& action@ == OpenActionView::Stay
                    &&& final(self).doc == old(self).doc
                    &&& final(self).view == old(self).view
                    &&& final(self).ui == (Interface {
                        status_message: final(self).ui.status_message,
                        ..old(self).ui
                    })
                    &&& says(final(self).ui.status_message, "Unknown link type: "@ + url@)
                },
            },
    {
        if ends_with(url, ".md") || ends_with(url, ".MD") {
            return OpenAction::OpenLinkedFile(String::from_str(url));
        }
        if starts_with(url, "http://") || starts_with(url, "https://") {
            let can_fetch = ends_with(url, ".markdown") || contains(url, "github.com") || contains(
                url,
                "raw.githubusercontent.com",
            );
            if can_fetch {
                self.start_url_fetch(url);
                return OpenAction::Fetch(String::from_str(url));
            }
            return OpenAction::CopyLink(String::from_str(url));
        }
        let chars = chars_of(url);
        if chars.len() > 0 && chars[0] == '#' {
            let anchor = string_from_chars(&crate::text::slice_of(&chars, 1, chars.len()));
            assert(anchor@ =~= url@.skip(1));
            match self.find_anchor(anchor.as_str()) {
                Some((line, text)) => {
                    self.go_to_line(line);
                    self.ui.status_message = Some(str_concat("Jumped to: ", text.as_str()));
                },
                None => {
                    self.ui.status_message = Some(str_concat("Anchor not found: ",
                        anchor.as_str()));
                },
            }
            return OpenAction::Stay;
        }
        self.ui.status_message = Some(str_concat("Unknown link type: ", url));
        OpenAction::Stay
    }

    /// The logical line and the text of the first heading that answers to
    /// an anchor.
    fn find_anchor(&self, anchor: &str) -> (found: Option<(usize, String)>)
        ensures
            match found {
                Some((line, text)) => {
                    let i = anchor_index(self.heading_texts(), anchor@);
                    &&& 0 <= i < self.heading_texts().len()
                    &&& line == self.doc.document->0.headings[i].logical_line
                    &&& text@ == self.heading_texts()[i]
                },
                None => anchor_index(self.heading_texts(), anchor@) >= self.heading_texts().len(),
            },
    {
        let document = match &self.doc.document {
            Some(document) => document,
            None => {
                return None;
            },
        };
        let lower = to_lowercase(anchor);
        let target = replace_char(lower.as_str(), '-', ' ');
        let ghost texts = self.heading_texts();
        let mut i: usize = 0;
        while i < document.headings.len()
            invariant
                i <= document.headings.len(),
                self.doc.document == Some(*document),
                texts == self.heading_texts(),
                lower@ == lowercase_of(anchor@),
                target@ == replaced(lowercase_of(anchor@), '-', ' '),
                forall|j: int| 0 <= j < i ==> !answers_to(texts[j], anchor@),
            decreases document.headings.len() - i,
        {
            let heading = &document.headings[i];
            let text = to_lowercase(heading.text.as_str());
            let dashed = replace_char(text.as_str(), ' ', '-');
            assert(texts[i as int] == heading.text@);
            if crate::text::str_eq(text.as_str(), target.as_str()) || crate::text::str_eq(
                dashed.as_str(),
                lower.as_str(),
            ) {
                proof {
                    lemma_anchor_index(texts, anchor@, i as int);
                }
                return Some((heading.logical_line, heading.text.clone()));
            }
            i = i + 1;
        }
        proof {
            lemma_anchor_index(texts, anchor@, i as int);
        }
        None
    }

    /// Follows the first link on the line that the current pane is scrolled
    /// to, as [`AppState::open_link`] does; says so where there is none.
    pub fn follow_link(&mut self) -> (action: OpenAction)
        requires
            old(self).wf(),
        ensures
            final(self).wf(),
            *final(self) == (AppState {
                doc: final(self).doc,
                ui: final(self).ui,
                view: final(self).view,
                ..*old(self)
            }),
            old(self).link_here() is None ==> {
                &&& action@ == OpenActionView::Stay
                &&& final(self).doc == old(self).doc
                &&& final(self).view == old(self).view
                &&& final(self).ui == (Interface {
                    status_message: final(self).ui.status_message,
                    ..old(self).ui
                })
                &&& says(final(self).ui.status_message, "No link on this line"@)
            },
            old(self).link_here() matches Some(url) ==> match link_kind(url) {
                LinkKind::LocalFile => action@ == OpenActionView::OpenLinkedFile(url),
                LinkKind::Fetchable => action@ == OpenActionView::Fetch(url),
                LinkKind::External => action@ == OpenActionView::CopyLink(url),
                _ => action@ == OpenActionView::Stay,
            },
    {
        let line = self.view.panes[self.view.active_pane].scroll;
        let url = match &self.doc.document {
            Some(document) => match document.link_at_line(line) {
                Some(link) => Some(link.url.clone()),
                None => None,
            },
            None => None,
        };
        match url {
            Some(url) => self.open_link(url.as_str()),
            None => {
                self.ui.status_message = Some(String::from_str("No link on this line"));
                OpenAction::Stay
            },
        }
    }

    /// Shows or hides the help.
    pub fn set_help(&mut self, shown: bool)
        ensures
            *final(self) == (AppState { overlays: final(self).overlays, ..*old(self) }),
            final(self).overlays == (Overlays { show_help: shown, ..old(self).overlays }),
    {
        self.overlays.show_help = shown;
    }

    /// Shows or hides the settings.
    pub fn set_settings(&mut self, shown: bool)
        ensures
            *final(self) == (AppState { overlays: final(self).overlays, ..*old(self) }),
            final(self).overlays == (Overlays { show_settings: shown, ..old(self).overlays }),
    {
        self.overlays.show_settings = shown;
    }
}

/// An entry of a directory, as the caller lists it.
#[derive(Debug)]
pub struct FileEntry {
    pub path: String,
    /// The last component of the path, where it has one.
    pub file_name: Option<String>,
    /// Whether the entry is a file, not a directory.
    pub is_file: bool,
}

/// Mathematical model of a [`FileEntry`].
pub ghost struct FileEntryView {
    pub path: Seq<char>,
    pub file_name: Option<Seq<char>>,
    pub is_file: bool,
}

impl DeepView for FileEntry {
    type V = FileEntryView;

    open spec fn deep_view(&self) -> FileEntryView {
        FileEntryView {
            path: self.path@,
            file_name: self.file_name.deep_view(),
            is_file: self.is_file,
        }
    }
}

impl View for FileEntry {
    type V = FileEntryView;

    open spec fn view(&self) -> FileEntryView {
        self.deep_view()
    }
}

/// Index of the last `.` of a file name that starts its extension, or -1
/// where the name has no extension: a `.` at the start of the name starts
/// none.
pub open spec fn extension_dot(name: Seq<char>) -> int
    decreases name.len(),
{
    if name.len() <= 1 {
        -1
    } else if name.last() == '.' {
        name.len() - 1
    } else {
        extension_dot(name.drop_last())
    }
}

/// Whether a file name has the extension `md`, in any case of the letters.
pub open spec fn is_markdown_name(name: Seq<char>) -> bool {
    let dot = extension_dot(name);
    &&& dot >= 1
    &&& name.len() == dot + 3
    &&& (name[dot + 1] == 'm' || name[dot + 1] == 'M')
    &&& (name[dot + 2] == 'd' || name[dot + 2] == 'D')
}

/// Whether an entry is a Markdown file.
pub open spec fn is_markdown_file(entry: FileEntryView) -> bool {
    entry.is_file && (entry.file_name matches Some(name) && is_markdown_name(name))
}

/// Whether an entry is a README: its name in lower case starts with
/// `readme`.
pub open spec fn is_readme(entry: FileEntryView) -> bool {
    entry.file_name matches Some(name) && "readme"@.is_prefix_of(lowercase_of(name))
}

/// Whether `a` comes before `b` in the order of the dictionary, character
/// by character.
pub open spec fn lex_less(a: Seq<char>, b: Seq<char>) -> bool
    decreases a.len(),
{
    if b.len() == 0 {
        false
    } else if a.len() == 0 {
        true
    } else if a[0] != b[0] {
        (a[0] as u32) < (b[0] as u32)
    } else {
        lex_less(a.drop_first(), b.drop_first())
    }
}

/// Whether the file `a` is listed before the file `b`: a README before any
/// other file, and else by the path.
pub open spec fn listed_before(a: FileEntryView, b: FileEntryView) -> bool {
    if is_readme(a) != is_readme(b) {
        is_readme(a)
    } else {
        lex_less(a.path, b.path)
    }
}

/// A sorted list with one more file, behind every file that is not listed
/// after it.
pub open spec fn insert_file(sorted: Seq<FileEntryView>, entry: FileEntryView) -> Seq<
    FileEntryView,
>
    decreases sorted.len(),
{
    if sorted.len() == 0 {
        seq![entry]
    } else if !listed_before(entry, sorted.last()) {
        sorted.push(entry)
    } else {
        insert_file(sorted.drop_last(), entry).push(sorted.last())
    }
}

/// The Markdown files among the entries of a directory, the READMEs first
/// and else by their paths; files that are listed alike keep their order.
pub open spec fn markdown_files(entries: Seq<FileEntryView>) -> Seq<FileEntryView>
    decreases entries.len(),
{
    if entries.len() == 0 {
        Seq::empty()
    } else if is_markdown_file(entries.last()) {
        insert_file(markdown_files(entries.drop_last()), entries.last())
    } else {
        markdown_files(entries.drop_last())
    }
}

/// The paths of a list of files.
pub open spec fn paths_of(files: Seq<FileEntryView>) -> Seq<Seq<char>> {
    Seq::new(files.len(), |i: int| files[i].path)
}

fn has_markdown_extension(name: &str) -> (yes: bool)
    ensures
        yes == is_markdown_name(name@),
{
    let chars = chars_of(name);
    let mut end: usize = chars.len();
    assert(chars@.take(end as int) =~= chars@);
    while end > 1 && chars[end - 1] != '.'
        invariant
            end <= chars.len(),
            extension_dot(chars@) == extension_dot(chars@.take(end as int)),
        decreases end,
    {
        assert(chars@.take(end as int).drop_last() =~= chars@.take(end - 1));
        end = end - 1;
    }
    if end <= 1 {
        return false;
    }
    assert(chars@.take(end as int).last() == chars@[end - 1]);
    let dot = end - 1;
    chars.len() - dot == 3 && (chars[dot + 1] == 'm' || chars[dot + 1] == 'M') && (chars[dot + 2]
        == 'd' || chars[dot + 2] == 'D')
}

fn compare_chars(a: &Vec<char>, b: &Vec<char>) -> (less: bool)
    ensures
        less == lex_less(a@, b@),
{
    let mut i: usize = 0;
    assert(a@.skip(0) =~= a@);
    assert(b@.skip(0) =~= b@);
    while i < a.len() && i < b.len() && a[i] == b[i]
        invariant
            i <= a.len(),
            i <= b.len(),
            lex_less(a@, b@) == lex_less(a@.skip(i as int), b@.skip(i as int)),
        decreases a.len() - i,
    {
        assert(a@.skip(i as int)[0] == a@[i as int]);
        assert(b@.skip(i as int)[0] == b@[i as int]);
        assert(a@.skip(i as int).drop_first() =~= a@.skip(i + 1));
        assert(b@.skip(i as int).drop_first() =~= b@.skip(i + 1));
        i = i + 1;
    }
    if i >= b.len() {
        false
    } else if i >= a.len() {
        true
    } else {
        assert(a@.skip(i as int)[0] == a@[i as int]);
        assert(b@.skip(i as int)[0] == b@[i as int]);
        (a[i] as u32) < (b[i] as u32)
    }
}

fn readme_entry(entry: &FileEntry) -> (yes: bool)
    ensures
        yes == is_readme(entry@),
{
    match &entry.file_name {
        Some(name) => starts_with(to_lowercase(name.as_str()).as_str(), "readme"),
        None => false,
    }
}

fn entry_before(a: &FileEntry, b: &FileEntry) -> (before: bool)
    ensures
        before == listed_before(a@, b@),
{
    let a_readme = readme_entry(a);
    let b_readme = readme_entry(b);
    if a_readme != b_readme {
        a_readme
    } else {
        compare_chars(&chars_of(a.path.as_str()), &chars_of(b.path.as_str()))
    }
}

proof fn lemma_insert_file(sorted: Seq<FileEntryView>, entry: FileEntryView, k: int)
    requires
        0 <= k <= sorted.len(),
        forall|j: int| k <= j < sorted.len() ==> listed_before(entry, sorted[j]),
        k == 0 || !listed_before(entry, sorted[k - 1]),
    ensures
        insert_file(sorted, entry) == sorted.insert(k, entry),
    decreases sorted.len(),
{
    if sorted.len() == 0 {
        assert(sorted.insert(0, entry) =~= seq![entry]);
    } else if k == sorted.len() {
        assert(sorted.insert(k, entry) =~= sorted.push(entry));
    } else {
        lemma_insert_file(sorted.drop_last(), entry, k);
        assert(sorted.insert(k, entry) =~= sorted.drop_last().insert(k, entry).push(sorted.last()));
    }
}

impl AppState {
    /// Lists the Markdown files of a directory in the file picker: the
    /// files whose names end in `.md`, in any case of the letters, the
    /// READMEs first and else by their paths. `entries` is what the directory
    /// holds; `None` where it could not be read, which leaves the list empty.
    pub fn scan_directory(&mut self, entries: Option<Vec<FileEntry>>)
        ensures
            final(self).wf() == old(self).wf(),
            *final(self) == (AppState { picker: final(self).picker, ..*old(self) }),
            final(self).picker == (FilePicker {
                file_picker_files: final(self).picker.file_picker_files,
                ..old(self).picker
            }),
            final(self).picker.file_picker_files.deep_view() == match entries {
                Some(found) => paths_of(markdown_files(found.deep_view())),
                None => Seq::empty(),
            },
    {
        let mut sorted: Vec<FileEntry> = Vec::new();
        if let Some(found) = entries {
            let mut i: usize = 0;
            assert(found.deep_view().take(0) =~= Seq::<FileEntryView>::empty());
            assert(sorted.deep_view() =~= Seq::<FileEntryView>::empty());
            while i < found.len()
                invariant
                    i <= found.len(),
                    sorted.deep_view() == markdown_files(found.deep_view().take(i as int)),
                decreases found.len() - i,
            {
                let entry = &found[i];
                let ghost upto = found.deep_view().take(i + 1);
                assert(upto.drop_last() =~= found.deep_view().take(i as int));
                assert(upto.last() == entry@);
                let markdown = entry.is_file && match &entry.file_name {
                    Some(name) => has_markdown_extension(name.as_str()),
                    None => false,
                };
                if markdown {
                    let mut k: usize = sorted.len();
                    while k > 0 && entry_before(entry, &sorted[k - 1])
                        invariant
                            k <= sorted.len(),
                            forall|j: int|
                                k <= j < sorted.len() ==> listed_before(entry@, sorted[j]@),
                        decreases k,
                    {
                        k = k - 1;
                    }
                    proof {
                        assert forall|j: int| k <= j < sorted.len() implies listed_before(
                            entry@,
                            sorted.deep_view()[j],
                        ) by {
                            assert(sorted.deep_view()[j] == sorted[j]@);
                        }
                        if k > 0 {
                            assert(sorted.deep_view()[k - 1] == sorted[k - 1]@);
                        }
                        lemma_insert_file(sorted.deep_view(), entry@, k as int);
                    }
                    let ghost before = sorted.deep_view();
                    let copy = FileEntry {
                        path: entry.path.clone(),
                        file_name: entry.file_name.clone(),
                        is_file: entry.is_file,
                    };
                    sorted.insert(k, copy);
                    assert(sorted.deep_view() =~= before.insert(k as int, entry@));
                }
                i = i + 1;
            }
            assert(found.deep_view().take(found.len() as int) =~= found.deep_view());
        } else {
            assert(sorted.deep_view() =~= Seq::<FileEntryView>::empty());
        }
        let mut files: Vec<String> = Vec::new();
        let mut i: usize = 0;
        assert(files.deep_view() =~= paths_of(sorted.deep_view()).take(0));
        while i < sorted.len()
            invariant
                i <= sorted.len(),
                files.deep_view() == paths_of(sorted.deep_view()).take(i as int),
            decreases sorted.len() - i,
        {
            let ghost so_far = files.deep_view();
            let path = sorted[i].path.clone();
            files.push(path);
            assert(sorted.deep_view()[i as int] == sorted[i as int]@);
            assert(files.deep_view() =~= so_far.push(path@));
            assert(paths_of(sorted.deep_view()).take(i + 1) =~= paths_of(sorted.deep_view()).take(
                i as int,
            ).push(path@));
            i = i + 1;
        }
        assert(paths_of(sorted.deep_view()).take(sorted.len() as int) =~= paths_of(
            sorted.deep_view(),
        ));
        self.picker.file_picker_files = files;
    }
}

} // verus!
