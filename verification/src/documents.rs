//! Opening, rendering and switching documents: what the viewer's state
//! becomes when a text is loaded, rendered again, or exchanged for another
//! open document.

use crate::app::{
    says, AppState, BufferList, DocumentBuffer, DocumentBufferView, Interface, OpenDocument,
    PaneLayout, PaneView, Preferences,
};
use crate::assembler::assemble_spec;
use crate::events::parsed_events;
use crate::github::FetchError;
use crate::markdown::{Document, DocumentView};
use crate::render::{backfill, heading_positions, is_render_of};
use crate::style::{Line, LineView};
use crate::text::{
    chars_of, decimal, decimal_of, slice_of, str_concat, str_eq, string_from_chars,
};
use crate::theme::Theme;
use vstd::prelude::*;

verus! {

/// Whether a document with its buffer is what a text is parsed to,
/// rendered with the theme, and highlighted or not.
pub open spec fn is_parsed_and_rendered(
    source: Seq<char>,
    document: DocumentView,
    lines: Seq<LineView>,
    theme: Theme,
    highlighted: bool,
) -> bool {
    let parsed = assemble_spec(parsed_events(source));
    let positions = heading_positions(parsed.blocks, theme, None);
    &&& document.blocks == parsed.blocks
    &&& document.links == parsed.links
    &&& document.headings == backfill(parsed.headings, positions)
    &&& is_render_of(lines, positions, parsed.blocks, theme, highlighted)
}

/// Whether a document with its buffer is an earlier document, rendered
/// again.
pub open spec fn is_rendered_again(
    before: DocumentView,
    after: DocumentView,
    lines: Seq<LineView>,
    theme: Theme,
    highlighted: bool,
) -> bool {
    let positions = heading_positions(before.blocks, theme, None);
    &&& after.blocks == before.blocks
    &&& after.links == before.links
    &&& after.headings == backfill(before.headings, positions)
    &&& is_render_of(lines, positions, before.blocks, theme, highlighted)
}

/// A pane at the start of a new document: at the top, with no matches. The
/// query, the mode and the index of the current match stay.
pub open spec fn reset_pane(pane: PaneView) -> PaneView {
    PaneView { scroll: 0, horizontal_scroll: 0, search_matches: Seq::empty(), ..pane }
}

/// The panes at the start of a new document.
pub open spec fn reset_panes(panes: Seq<PaneView>) -> Seq<PaneView> {
    Seq::new(panes.len(), |i: int| reset_pane(panes[i]))
}

/// What follows the last `/` of a text; the whole text where it has none.
pub open spec fn last_segment(s: Seq<char>) -> Seq<char>
    decreases s.len(),
{
    if s.len() == 0 {
        s
    } else if s.last() == '/' {
        Seq::empty()
    } else {
        last_segment(s.drop_last()).push(s.last())
    }
}

/// What follows the last `/` of a text; the whole text where it has none.
pub fn last_segment_of(s: &str) -> (segment: String)
    ensures
        segment@ == last_segment(s@),
{
    let chars = chars_of(s);
    let mut from: usize = chars.len();
    assert(chars@.subrange(from as int, chars.len() as int) =~= Seq::<char>::empty());
    while from > 0 && chars[from - 1] != '/'
        invariant
            from <= chars.len(),
            forall|j: int| from <= j < chars.len() ==> chars@[j] != '/',
        decreases from,
    {
        from = from - 1;
    }
    proof {
        lemma_last_segment(chars@, from as int);
    }
    string_from_chars(&slice_of(&chars, from, chars.len()))
}

/// Where no `/` stands at or behind the position `from`, and one stands
/// before it or it is the start, the last segment starts there.
proof fn lemma_last_segment(s: Seq<char>, from: int)
    requires
        0 <= from <= s.len(),
        forall|j: int| from <= j < s.len() ==> s[j] != '/',
        from == 0 || s[from - 1] == '/',
    ensures
        last_segment(s) == s.subrange(from, s.len() as int),
    decreases s.len(),
{
    if s.len() == 0 {
        assert(s.subrange(from, s.len() as int) =~= s);
    } else if from == s.len() {
        assert(s.subrange(from, s.len() as int) =~= Seq::<char>::empty());
    } else {
        lemma_last_segment(s.drop_last(), from);
        assert(s.subrange(from, s.len() as int) =~= s.drop_last().subrange(
            from,
            s.len() - 1,
        ).push(s.last()));
    }
}

/// The open documents and which of them is shown.
pub ghost struct BufferListView {
    pub buffers: Seq<DocumentBufferView>,
    pub active: usize,
}

/// Index of the first buffer of a local file with the given path, or the
/// length where there is none. Documents from the web are passed over.
pub open spec fn buffer_index(buffers: Seq<DocumentBufferView>, path: Seq<char>) -> int
    decreases buffers.len(),
{
    if buffers.len() == 0 {
        0
    } else if buffers[0].url is None && buffers[0].file_path == path {
        0
    } else {
        1 + buffer_index(buffers.drop_first(), path)
    }
}

proof fn lemma_buffer_index(buffers: Seq<DocumentBufferView>, path: Seq<char>, k: int)
    requires
        0 <= k <= buffers.len(),
        forall|j: int| 0 <= j < k ==> !(buffers[j].url is None && buffers[j].file_path == path),
        k == buffers.len() || (buffers[k].url is None && buffers[k].file_path == path),
    ensures
        buffer_index(buffers, path) == k,
    decreases buffers.len(),
{
    if buffers.len() == 0 || k == 0 {
    } else {
        let rest = buffers.drop_first();
        assert forall|j: int| 0 <= j < k - 1 implies !(rest[j].url is None && rest[j].file_path
            == path) by {
            assert(rest[j] == buffers[j + 1]);
        }
        lemma_buffer_index(rest, path, k - 1);
    }
}

impl BufferListView {
    /// The list after the document that is shown was saved to it: in place
    /// of the first buffer of the same local file, or at the end where there
    /// is none. The saved buffer is then the active one. Nothing changes
    /// where no document is shown.
    pub open spec fn save(self, snapshot: Option<DocumentBufferView>) -> BufferListView {
        match snapshot {
            Some(buffer) => {
                let i = buffer_index(self.buffers, buffer.file_path);
                if 0 <= i < self.buffers.len() {
                    BufferListView { buffers: self.buffers.update(i, buffer), active: i as usize }
                } else {
                    BufferListView {
                        buffers: self.buffers.push(buffer),
                        active: self.buffers.len() as usize,
                    }
                }
            },
            None => self,
        }
    }
}

impl Clone for DocumentBuffer {
    fn clone(&self) -> (r: Self)
        ensures
            r@ == self@,
    {
        let rendered_lines = self.rendered_lines.clone();
        assert(rendered_lines.deep_view() =~= self.rendered_lines.deep_view());
        DocumentBuffer {
            document: self.document.clone(),
            file_path: self.file_path.clone(),
            file_name: self.file_name.clone(),
            url: self.url.clone(),
            rendered_lines,
            scroll: self.scroll,
            horizontal_scroll: self.horizontal_scroll,
            outline_selected: self.outline_selected,
            modified_time: self.modified_time,
        }
    }
}

fn copy_lines(lines: &Vec<Line>) -> (copy: Vec<Line>)
    ensures
        copy.deep_view() == lines.deep_view(),
{
    let copy = lines.clone();
    assert(copy.deep_view() =~= lines.deep_view());
    copy
}

impl AppState {
    /// The open documents and which of them is shown.
    pub open spec fn buffer_list(&self) -> BufferListView {
        BufferListView { buffers: self.open.buffers.deep_view(), active: self.open.active_buffer }
    }

    /// What is saved of the document that is shown; `None` where there is
    /// none.
    pub open spec fn snapshot(&self) -> Option<DocumentBufferView> {
        match (self.doc.document, self.doc.file_path) {
            (Some(document), Some(path)) => Some(
                DocumentBufferView {
                    document: document@,
                    file_path: path@,
                    file_name: self.doc.file_name.deep_view(),
                    url: self.doc.current_url.deep_view(),
                    rendered_lines: self.doc.rendered_lines.deep_view(),
                    scroll: self.view.panes[self.view.active_pane as int].scroll,
                    horizontal_scroll: self.view.panes[self.view.active_pane as int].horizontal_scroll,
                    outline_selected: self.ui.outline_selected,
                    modified_time: self.doc.file_modified_time,
                },
            ),
            _ => None,
        }
    }

    /// Whether the state shows a buffer: its document and rendered lines,
    /// its path and URL, its place in the outline, and, in the current pane
    /// of `panes`, its scroll position. Nothing is being loaded.
    pub open spec fn shows(&self, buffer: DocumentBufferView, panes: Seq<PaneView>) -> bool {
        &&& self.doc.document matches Some(document) && document@ == buffer.document
        &&& self.doc.file_path.deep_view() == Some(buffer.file_path)
        &&& self.doc.file_name.deep_view() == buffer.file_name
        &&& self.doc.current_url.deep_view() == buffer.url
        &&& self.doc.rendered_lines.deep_view() == buffer.rendered_lines
        &&& self.doc.file_modified_time == buffer.modified_time
        &&& !self.doc.is_loading
        &&& self.ui.outline_selected == buffer.outline_selected
        &&& self.pane_views() == panes.update(
            self.view.active_pane as int,
            PaneView {
                scroll: buffer.scroll,
                horizontal_scroll: buffer.horizontal_scroll,
                ..panes[self.view.active_pane as int]
            },
        )
    }

    /// Whether `after` is this state with the preferences `prefs` and with
    /// the document rendered again under them: the buffer is that of the
    /// same blocks in the theme of `prefs`, highlighted where `prefs` says
    /// so, and nothing else has changed.
    pub open spec fn rendered_under(&self, after: AppState, prefs: Preferences) -> bool {
        &&& after == (AppState { doc: after.doc, prefs, ..*self })
        &&& after.doc == (OpenDocument {
            document: after.doc.document,
            rendered_lines: after.doc.rendered_lines,
            ..self.doc
        })
        &&& match self.doc.document {
            Some(before) => after.doc.document matches Some(shown) && is_rendered_again(
                before@,
                shown@,
                after.doc.rendered_lines.deep_view(),
                prefs.theme,
                prefs.syntax_highlighting,
            ),
            None => after.doc.document is None && after.doc.rendered_lines
                == self.doc.rendered_lines,
        }
    }

    /// Renders the document again, with the theme and the highlighting that
    /// are set. The buffer is replaced as a whole; the scroll positions stay
    /// as they are. Does nothing without a document.
    pub fn rerender(&mut self)
        ensures
            final(self).wf() == old(self).wf(),
            *final(self) == (AppState { doc: final(self).doc, ..*old(self) }),
            final(self).doc == (OpenDocument {
                document: final(self).doc.document,
                rendered_lines: final(self).doc.rendered_lines,
                ..old(self).doc
            }),
            match old(self).doc.document {
                Some(before) => final(self).doc.document matches Some(after) && is_rendered_again(
                    before@,
                    after@,
                    final(self).doc.rendered_lines.deep_view(),
                    old(self).prefs.theme,
                    old(self).prefs.syntax_highlighting,
                ),
                None => final(self).doc.document is None && final(self).doc.rendered_lines
                    == old(self).doc.rendered_lines,
            },
    {
        let taken = self.doc.document.take();
        match taken {
            Some(mut document) => {
                let lines = if self.prefs.syntax_highlighting {
                    document.render_with_highlighting(&self.prefs.theme, Some(&self.highlighter))
                } else {
                    document.render_with_highlighting(&self.prefs.theme, None)
                };
                self.doc.rendered_lines = lines;
                self.doc.document = Some(document);
            },
            None => {},
        }
    }

    /// Switches the highlighting of code blocks, and renders the document
    /// again.
    pub fn toggle_syntax_highlighting(&mut self)
        ensures
            final(self).wf() == old(self).wf(),
            *final(self) == (AppState {
                doc: final(self).doc,
                prefs: final(self).prefs,
                ..*old(self)
            }),
            final(self).prefs == (Preferences {
                syntax_highlighting: !old(self).prefs.syntax_highlighting,
                ..old(self).prefs
            }),
            final(self).doc == (OpenDocument {
                document: final(self).doc.document,
                rendered_lines: final(self).doc.rendered_lines,
                ..old(self).doc
            }),
            match old(self).doc.document {
                Some(before) => final(self).doc.document matches Some(after) && is_rendered_again(
                    before@,
                    after@,
                    final(self).doc.rendered_lines.deep_view(),
                    old(self).prefs.theme,
                    !old(self).prefs.syntax_highlighting,
                ),
                None => final(self).doc.document is None && final(self).doc.rendered_lines
                    == old(self).doc.rendered_lines,
            },
    {
        self.prefs.syntax_highlighting = !self.prefs.syntax_highlighting;
        self.rerender();
    }

    /// Changes to the next theme of the cycle, and renders the document
    /// again.
    pub fn cycle_theme(&mut self)
        ensures
            final(self).wf() == old(self).wf(),
            *final(self) == (AppState {
                doc: final(self).doc,
                prefs: final(self).prefs,
                ..*old(self)
            }),
            final(self).prefs == (Preferences {
                theme: old(self).prefs.theme.next_spec(),
                ..old(self).prefs
            }),
            final(self).doc == (OpenDocument {
                document: final(self).doc.document,
                rendered_lines: final(self).doc.rendered_lines,
                ..old(self).doc
            }),
            match old(self).doc.document {
                Some(before) => final(self).doc.document matches Some(after) && is_rendered_again(
                    before@,
                    after@,
                    final(self).doc.rendered_lines.deep_view(),
                    old(self).prefs.theme.next_spec(),
                    old(self).prefs.syntax_highlighting,
                ),
                None => final(self).doc.document is None && final(self).doc.rendered_lines
                    == old(self).doc.rendered_lines,
            },
    {
        self.prefs.theme = self.prefs.theme.next();
        self.rerender();
    }

    /// Puts every pane at the top and drops its matches.
    fn reset_all_panes(&mut self)
        ensures
            final(self).wf() == old(self).wf(),
            *final(self) == (AppState { view: final(self).view, ..*old(self) }),
            final(self).view == (PaneLayout { panes: final(self).view.panes, ..old(self).view }),
            final(self).pane_views() == reset_panes(old(self).pane_views()),
    {
        let ghost before = self.view.panes.deep_view();
        let mut i: usize = 0;
        while i < self.view.panes.len()
            invariant
                i <= self.view.panes.len(),
                self.view.panes.len() == before.len(),
                *self == (AppState { view: self.view, ..*old(self) }),
                self.view == (PaneLayout { panes: self.view.panes, ..old(self).view }),
                self.github_fetcher.wf() == old(self).github_fetcher.wf(),
                forall|j: int| 0 <= j < i ==> self.view.panes.deep_view()[j]
                    == reset_pane(before[j]),
                forall|j: int|
                    i <= j < before.len() ==> self.view.panes.deep_view()[j] == before[j],
            decreases self.view.panes.len() - i,
        {
            let ghost so_far = self.view.panes.deep_view();
            self.view.panes[i].scroll = 0;
            self.view.panes[i].horizontal_scroll = 0;
            self.view.panes[i].search_matches = Vec::new();
            assert(self.view.panes.deep_view() =~= so_far.update(i as int,
                reset_pane(before[i as int])));
            i = i + 1;
        }
        assert(self.view.panes.deep_view() =~= reset_panes(before));
    }

    /// Parses a text and renders it, with the theme and the highlighting
    /// that are set.
    fn parse_and_render(&self, content: &str) -> (out: (Document, Vec<Line>))
        ensures
            is_parsed_and_rendered(
                content@,
                out.0@,
                out.1.deep_view(),
                self.prefs.theme,
                self.prefs.syntax_highlighting,
            ),
    {
        let mut document = Document::parse(content);
        let lines = if self.prefs.syntax_highlighting {
            document.render_with_highlighting(&self.prefs.theme, Some(&self.highlighter))
        } else {
            document.render_with_highlighting(&self.prefs.theme, None)
        };
        (document, lines)
    }

    /// Saves the document that is shown to the list of open documents: in
    /// place of the first buffer of the same local file, or at the end where
    /// there is none. Does nothing where no document is shown.
    pub fn save_to_buffer(&mut self)
        requires
            old(self).wf(),
        ensures
            final(self).wf(),
            *final(self) == (AppState { open: final(self).open, ..*old(self) }),
            final(self).open == (BufferList {
                buffers: final(self).open.buffers,
                active_buffer: final(self).open.active_buffer,
                ..old(self).open
            }),
            final(self).buffer_list() == old(self).buffer_list().save(old(self).snapshot()),
    {
        let buffer = match (&self.doc.document, &self.doc.file_path) {
            (Some(document), Some(path)) => {
                let pane = &self.view.panes[self.view.active_pane];
                DocumentBuffer {
                    document: document.clone(),
                    file_path: path.clone(),
                    file_name: self.doc.file_name.clone(),
                    url: self.doc.current_url.clone(),
                    rendered_lines: copy_lines(&self.doc.rendered_lines),
                    scroll: pane.scroll,
                    horizontal_scroll: pane.horizontal_scroll,
                    outline_selected: self.ui.outline_selected,
                    modified_time: self.doc.file_modified_time,
                }
            },
            _ => {
                return ;
            },
        };
        assert(Some(buffer@) == self.snapshot());
        let ghost before = self.open.buffers.deep_view();
        let mut i: usize = 0;
        while i < self.open.buffers.len() && !(self.open.buffers[i].url.is_none() && str_eq(
            self.open.buffers[i].file_path.as_str(),
            buffer.file_path.as_str(),
        ))
            invariant
                i <= self.open.buffers.len(),
                *self == *old(self),
                before == self.open.buffers.deep_view(),
                forall|j: int|
                    0 <= j < i ==> !(before[j].url is None && before[j].file_path
                        == buffer.file_path@),
            decreases self.open.buffers.len() - i,
        {
            assert(before[i as int] == self.open.buffers[i as int]@);
            i = i + 1;
        }
        proof {
            if i < self.open.buffers.len() {
                assert(before[i as int] == self.open.buffers[i as int]@);
            }
            lemma_buffer_index(before, buffer.file_path@, i as int);
        }
        if i < self.open.buffers.len() {
            self.open.buffers.set(i, buffer);
            assert(self.open.buffers.deep_view() =~= before.update(i as int, buffer@));
            self.open.active_buffer = i;
        } else {
            self.open.buffers.push(buffer);
            assert(self.open.buffers.deep_view() =~= before.push(buffer@));
            self.open.active_buffer = self.open.buffers.len() - 1;
        }
    }

    /// Shows the open document at `index`, after the document that is
    /// shown was saved. Does nothing where there is no such document.
    pub fn load_from_buffer(&mut self, index: usize)
        requires
            old(self).wf(),
        ensures
            final(self).wf(),
            index >= old(self).open.buffers.len() ==> *final(self) == *old(self),
            index < old(self).open.buffers.len() ==> {
                &&& *final(self) == (AppState {
                    open: final(self).open,
                    doc: final(self).doc,
                    view: final(self).view,
                    ui: final(self).ui,
                    ..*old(self)
                })
                &&& final(self).open == (BufferList {
                    buffers: final(self).open.buffers,
                    active_buffer: final(self).open.active_buffer,
                    ..old(self).open
                })
                &&& final(self).view == (PaneLayout {
                    panes: final(self).view.panes,
                    ..old(self).view
                })
                &&& final(self).ui == (Interface {
                    outline_selected: final(self).ui.outline_selected,
                    ..old(self).ui
                })
                &&& final(self).buffer_list() == (BufferListView {
                    active: index,
                    ..old(self).buffer_list().save(old(self).snapshot())
                })
                &&& final(self).shows(
                    old(self).buffer_list().save(old(self).snapshot()).buffers[index as int],
                    old(self).pane_views(),
                )
            },
    {
        if index >= self.open.buffers.len() {
            return ;
        }
        self.save_to_buffer();
        let ghost saved = self.open.buffers.deep_view();
        proof {
            let list = old(self).buffer_list().save(old(self).snapshot());
            assert(saved == list.buffers);
            assert(list.buffers.len() >= old(self).open.buffers.deep_view().len());
            assert(saved.len() == self.open.buffers.len());
        }
        let buffer = self.open.buffers[index].clone();
        assert(buffer@ == saved[index as int]);
        self.doc.document = Some(buffer.document);
        self.doc.file_path = Some(buffer.file_path);
        self.doc.file_name = buffer.file_name;
        self.doc.current_url = buffer.url;
        self.doc.rendered_lines = buffer.rendered_lines;
        self.ui.outline_selected = buffer.outline_selected;
        self.doc.file_modified_time = buffer.modified_time;
        self.doc.is_loading = false;
        let ghost before = self.view.panes.deep_view();
        let active = self.view.active_pane;
        self.view.panes[active].scroll = buffer.scroll;
        self.view.panes[active].horizontal_scroll = buffer.horizontal_scroll;
        assert(self.view.panes.deep_view() =~= before.update(
            active as int,
            PaneView {
                scroll: buffer.scroll,
                horizontal_scroll: buffer.horizontal_scroll,
                ..before[active as int]
            },
        ));
        self.open.active_buffer = index;
    }

    /// The number of open documents.
    pub fn buffer_count(&self) -> (count: usize)
        ensures
            count == self.open.buffers.len(),
    {
        self.open.buffers.len()
    }

    /// Whether `after` shows the buffer at `index` of the list that `list`
    /// becomes when the document of this state is saved to it.
    pub open spec fn switched_to(&self, after: AppState, list: BufferListView, index: int) -> bool {
        &&& after.view == (PaneLayout { panes: after.view.panes, ..self.view })
        &&& after.buffer_list() == (BufferListView {
            active: index as usize,
            ..list.save(self.snapshot())
        })
        &&& after.shows(list.save(self.snapshot()).buffers[index], self.pane_views())
    }

    /// Opens the overlay with the list of open documents, with the one that
    /// is shown selected; says so where none is open.
    pub fn open_buffer_list(&mut self)
        ensures
            final(self).wf() == old(self).wf(),
            *final(self) == (AppState { open: final(self).open, ui: final(self).ui, ..*old(self) }),
            old(self).open.buffers.len() > 0 ==> final(self).ui == old(self).ui && final(self).open
                == (BufferList {
                show_buffer_list: true,
                buffer_list_selected: old(self).open.active_buffer,
                ..old(self).open
            }),
            old(self).open.buffers.len() == 0 ==> final(self).open == old(self).open
                && final(self).ui == (Interface {
                status_message: final(self).ui.status_message,
                ..old(self).ui
            })
                && says(final(self).ui.status_message, "No buffers open"@),
    {
        if self.open.buffers.len() > 0 {
            self.open.show_buffer_list = true;
            self.open.buffer_list_selected = self.open.active_buffer;
        } else {
            self.ui.status_message = Some(String::from_str("No buffers open"));
        }
    }

    /// Closes the overlay with the list of open documents.
    pub fn close_buffer_list(&mut self)
        ensures
            *final(self) == (AppState { open: final(self).open, ..*old(self) }),
            final(self).open == (BufferList { show_buffer_list: false, ..old(self).open }),
    {
        self.open.show_buffer_list = false;
    }

    /// Moves the selection in the list of open documents up.
    pub fn buffer_list_up(&mut self)
        ensures
            *final(self) == (AppState { open: final(self).open, ..*old(self) }),
            final(self).open == (BufferList {
                buffer_list_selected: if old(self).open.buffer_list_selected > 0 {
                    (old(self).open.buffer_list_selected - 1) as usize
                } else {
                    0
                },
                ..old(self).open
            }),
    {
        if self.open.buffer_list_selected > 0 {
            self.open.buffer_list_selected -= 1;
        }
    }

    /// Moves the selection in the list of open documents down.
    pub fn buffer_list_down(&mut self)
        ensures
            *final(self) == (AppState { open: final(self).open, ..*old(self) }),
            final(self).open == (BufferList {
                buffer_list_selected: if old(self).open.buffer_list_selected + 1 < old(self).open.buffers.len() {
                    (old(self).open.buffer_list_selected + 1) as usize
                } else {
                    old(self).open.buffer_list_selected
                },
                ..old(self).open
            }),
    {
        let count = self.open.buffers.len();
        if count > 0 && self.open.buffer_list_selected < count - 1 {
            self.open.buffer_list_selected += 1;
        }
    }

    /// Shows the document that is selected in the list, closes the list, and
    /// says which document it is.
    pub fn select_buffer(&mut self)
        requires
            old(self).wf(),
        ensures
            final(self).wf(),
            *final(self) == (AppState {
                open: final(self).open,
                doc: final(self).doc,
                view: final(self).view,
                ui: final(self).ui,
                ..*old(self)
            }),
            final(self).open == (BufferList {
                buffers: final(self).open.buffers,
                active_buffer: final(self).open.active_buffer,
                show_buffer_list: false,
                ..old(self).open
            }),
            final(self).ui == (Interface {
                outline_selected: final(self).ui.outline_selected,
                status_message: final(self).ui.status_message,
                ..old(self).ui
            }),
            says(
                final(self).ui.status_message,
                "Switched to buffer "@ + decimal_of((old(self).open.buffer_list_selected + 1) as nat),
            ),
            old(self).open.buffer_list_selected < old(self).open.buffers.len() ==>
                old(self).switched_to(
                *final(self),
                old(self).buffer_list(),
                old(self).open.buffer_list_selected as int,
            ),
            old(self).open.buffer_list_selected >= old(self).open.buffers.len() ==> {
                &&& final(self).doc == old(self).doc
                &&& final(self).view == old(self).view
                &&& final(self).open.buffers == old(self).open.buffers
                &&& final(self).open.active_buffer == old(self).open.active_buffer
                &&& final(self).ui.outline_selected == old(self).ui.outline_selected
            },
    {
        let index = self.open.buffer_list_selected;
        self.load_from_buffer(index);
        self.open.show_buffer_list = false;
        let mut text = String::from_str("Switched to buffer ");
        text.append(decimal(index as u128 + 1).as_str());
        self.ui.status_message = Some(text);
    }

    /// Shows the open document at `index`, and says its place among the
    /// open documents.
    fn show_buffer(&mut self, index: usize)
        requires
            old(self).wf(),
            index < old(self).open.buffers.len(),
        ensures
            final(self).wf(),
            *final(self) == (AppState {
                open: final(self).open,
                doc: final(self).doc,
                view: final(self).view,
                ui: final(self).ui,
                ..*old(self)
            }),
            final(self).open == (BufferList {
                buffers: final(self).open.buffers,
                active_buffer: final(self).open.active_buffer,
                ..old(self).open
            }),
            final(self).ui == (Interface {
                outline_selected: final(self).ui.outline_selected,
                status_message: final(self).ui.status_message,
                ..old(self).ui
            }),
            old(self).switched_to(*final(self), old(self).buffer_list(), index as int),
            says(
                final(self).ui.status_message,
                "Buffer "@ + decimal_of((index + 1) as nat) + "/"@ + decimal_of(
                    final(self).open.buffers.len() as nat,
                ),
            ),
    {
        self.load_from_buffer(index);
        let mut text = String::from_str("Buffer ");
        text.append(decimal(index as u128 + 1).as_str());
        text.append("/");
        text.append(decimal(self.open.buffers.len() as u128).as_str());
        self.ui.status_message = Some(text);
    }

    /// Shows the next open document, the first after the last. The document
    /// that is shown is saved first. Does nothing where none is open.
    pub fn next_buffer(&mut self)
        requires
            old(self).wf(),
        ensures
            final(self).wf(),
            old(self).open.buffers.len() == 0 ==> *final(self) == *old(self),
            old(self).open.buffers.len() > 0 ==> {
                let list = old(self).buffer_list().save(old(self).snapshot());
                let next = (list.active + 1) % (list.buffers.len() as int);
                &&& *final(self) == (AppState {
                    open: final(self).open,
                    doc: final(self).doc,
                    view: final(self).view,
                    ui: final(self).ui,
                    ..*old(self)
                })
                &&& final(self).open == (BufferList {
                    buffers: final(self).open.buffers,
                    active_buffer: final(self).open.active_buffer,
                    ..old(self).open
                })
                &&& final(self).ui == (Interface {
                    outline_selected: final(self).ui.outline_selected,
                    status_message: final(self).ui.status_message,
                    ..old(self).ui
                })
                &&& old(self).switched_to(*final(self), list, next)
                &&& says(
                    final(self).ui.status_message,
                    "Buffer "@ + decimal_of((next + 1) as nat) + "/"@ + decimal_of(
                        final(self).open.buffers.len() as nat,
                    ),
                )
            },
    {
        if self.open.buffers.len() == 0 {
            return ;
        }
        self.save_to_buffer();
        proof {
            let list = old(self).buffer_list().save(old(self).snapshot());
            assert(self.open.buffers.deep_view().len() == self.open.buffers.len());
            assert(list.buffers.len() >= old(self).open.buffers.deep_view().len());
            assert(self.snapshot() == old(self).snapshot());
        }
        let next = next_index(self.open.active_buffer, self.open.buffers.len());
        self.show_buffer(next);
    }

    /// Shows the previous open document, the last before the first. The
    /// document that is shown is saved first. Does nothing where none is
    /// open.
    pub fn prev_buffer(&mut self)
        requires
            old(self).wf(),
        ensures
            final(self).wf(),
            old(self).open.buffers.len() == 0 ==> *final(self) == *old(self),
            old(self).open.buffers.len() > 0 ==> {
                let list = old(self).buffer_list().save(old(self).snapshot());
                let prev = if list.active == 0 {
                    list.buffers.len() - 1
                } else {
                    list.active - 1
                };
                &&& *final(self) == (AppState {
                    open: final(self).open,
                    doc: final(self).doc,
                    view: final(self).view,
                    ui: final(self).ui,
                    ..*old(self)
                })
                &&& final(self).open == (BufferList {
                    buffers: final(self).open.buffers,
                    active_buffer: final(self).open.active_buffer,
                    ..old(self).open
                })
                &&& final(self).ui == (Interface {
                    outline_selected: final(self).ui.outline_selected,
                    status_message: final(self).ui.status_message,
                    ..old(self).ui
                })
                &&& old(self).switched_to(*final(self), list, prev)
                &&& says(
                    final(self).ui.status_message,
                    "Buffer "@ + decimal_of((prev + 1) as nat) + "/"@ + decimal_of(
                        final(self).open.buffers.len() as nat,
                    ),
                )
            },
    {
        if self.open.buffers.len() == 0 {
            return ;
        }
        self.save_to_buffer();
        proof {
            let list = old(self).buffer_list().save(old(self).snapshot());
            assert(self.open.buffers.deep_view().len() == self.open.buffers.len());
            assert(list.buffers.len() >= old(self).open.buffers.deep_view().len());
            assert(self.snapshot() == old(self).snapshot());
        }
        let prev = if self.open.active_buffer == 0 {
            self.open.buffers.len() - 1
        } else {
            self.open.active_buffer - 1
        };
        self.show_buffer(prev);
    }

    /// Closes the document that is shown, unless it is the only one, and
    /// shows the one that takes its place in the list, or the last. The
    /// document that was shown is saved before the other is shown, so it stays
    /// in the list.
    pub fn close_buffer(&mut self)
        requires
            old(self).wf(),
        ensures
            final(self).wf(),
            *final(self) == (AppState {
                open: final(self).open,
                doc: final(self).doc,
                view: final(self).view,
                ui: final(self).ui,
                ..*old(self)
            }),
            final(self).open == (BufferList {
                buffers: final(self).open.buffers,
                active_buffer: final(self).open.active_buffer,
                ..old(self).open
            }),
            final(self).ui == (Interface {
                outline_selected: final(self).ui.outline_selected,
                status_message: final(self).ui.status_message,
                ..old(self).ui
            }),
            old(self).open.buffers.len() <= 1 ==> {
                &&& final(self).doc == old(self).doc
                &&& final(self).view == old(self).view
                &&& final(self).open == old(self).open
                &&& final(self).ui.outline_selected == old(self).ui.outline_selected
                &&& says(final(self).ui.status_message, "Cannot close last buffer"@)
            },
            old(self).open.buffers.len() > 1 ==> {
                let rest = old(self).buffer_list().buffers.remove(
                    old(self).open.active_buffer as int,
                );
                let place = if old(self).open.active_buffer >= rest.len() {
                    rest.len() - 1
                } else {
                    old(self).open.active_buffer as int
                };
                &&& old(self).switched_to(
                    *final(self),
                    BufferListView { buffers: rest, active: place as usize },
                    place,
                )
                &&& says(
                    final(self).ui.status_message,
                    decimal_of(final(self).open.buffers.len() as nat) + " buffers remaining"@,
                )
            },
    {
        if self.open.buffers.len() <= 1 {
            self.ui.status_message = Some(String::from_str("Cannot close last buffer"));
            return ;
        }
        let ghost before = self.open.buffers.deep_view();
        let _ = self.open.buffers.remove(self.open.active_buffer);
        assert(self.open.buffers.deep_view() =~= before.remove(old(self).open.active_buffer as int));
        if self.open.active_buffer >= self.open.buffers.len() {
            self.open.active_buffer = self.open.buffers.len() - 1;
        }
        assert(self.snapshot() == old(self).snapshot());
        let place = self.open.active_buffer;
        self.load_from_buffer(place);
        let mut text = decimal(self.open.buffers.len() as u128);
        text.append(" buffers remaining");
        self.ui.status_message = Some(text);
    }
}

/// What the fetch of a document from the web came to, as the viewer polls
/// for it.
#[derive(Debug)]
pub enum FetchOutcome {
    /// The fetch is still under way.
    Pending,
    /// The fetch is over: the content and its URL, or the message of the
    /// error.
    Finished(Result<(String, String), String>),
    /// The fetch ended without a result.
    Disconnected,
}

/// The name under which a file is shown: the last component of its path, or
/// the whole path where it has none.
pub open spec fn display_name(path: Seq<char>, file_name: Option<Seq<char>>) -> Seq<char> {
    match file_name {
        Some(name) => name,
        None => path,
    }
}

/// The view of an optional string slice.
pub open spec fn name_view(name: Option<&str>) -> Option<Seq<char>> {
    match name {
        Some(text) => Some(text@),
        None => None,
    }
}

/// The path that stands for a document from the web among the open
/// documents.
pub open spec fn url_placeholder(url: Seq<char>) -> Seq<char> {
    "[URL] "@ + last_segment(url)
}

impl AppState {
    /// Whether the state shows a new document, parsed from a text and
    /// rendered as the preferences say: every pane at the top without
    /// matches, and the first heading selected in the outline.
    pub open spec fn shows_new_document(&self, before: AppState, source: Seq<char>) -> bool {
        &&& self.doc.document matches Some(document) && is_parsed_and_rendered(
            source,
            document@,
            self.doc.rendered_lines.deep_view(),
            before.prefs.theme,
            before.prefs.syntax_highlighting,
        )
        &&& self.view == (PaneLayout { panes: self.view.panes, ..before.view })
        &&& self.pane_views() == reset_panes(before.pane_views())
        &&& self.ui.outline_selected == 0
    }

    /// Shows the content of a local file, and notes the visit in the
    /// history.
    ///
    /// The text is parsed and rendered, every pane goes to the top and loses
    /// its matches, and the message is cleared. The document is saved to the
    /// list of open documents as [`AppState::save_to_buffer`] does, with the
    /// URL that was shown before. Then no URL is shown any more.
    pub fn load_file(
        &mut self,
        path: &str,
        file_name: Option<&str>,
        content: &str,
        modified_time: Option<u64>,
    )
        requires
            old(self).wf(),
        ensures
            final(self).wf(),
            *final(self) == (AppState {
                doc: final(self).doc,
                view: final(self).view,
                ui: final(self).ui,
                open: final(self).open,
                library: final(self).library,
                ..*old(self)
            }),
            final(self).doc.is_loading == old(self).doc.is_loading,
            final(self).ui == (Interface {
                outline_selected: 0,
                status_message: None,
                ..old(self).ui
            }),
            final(self).open == (BufferList {
                buffers: final(self).open.buffers,
                active_buffer: final(self).open.active_buffer,
                ..old(self).open
            }),
            final(self).library == (crate::app::Library {
                history: final(self).library.history,
                ..old(self).library
            }),
            final(self).shows_new_document(*old(self), content@),
            final(self).doc.file_path.deep_view() == Some(path@),
            final(self).doc.file_name.deep_view() == name_view(file_name),
            final(self).doc.file_modified_time == modified_time,
            final(self).doc.current_url is None,
            final(self).snapshot() is Some,
            final(self).buffer_list() == old(self).buffer_list().save(
                Some(
                    DocumentBufferView {
                        url: old(self).doc.current_url.deep_view(),
                        ..final(self).snapshot()->0
                    },
                ),
            ),
            exists|now: u64|
                final(self).library.history@ == #[trigger] old(self).library.history@.add(
                    path@,
                    false,
                    display_name(path@, name_view(file_name)),
                    now,
                ),
    {
        let (document, lines) = self.parse_and_render(content);
        self.doc.rendered_lines = lines;
        self.doc.document = Some(document);
        self.doc.file_path = Some(String::from_str(path));
        self.doc.file_name = match file_name {
            Some(name) => Some(String::from_str(name)),
            None => None,
        };
        self.reset_all_panes();
        self.ui.outline_selected = 0;
        self.ui.status_message = None;
        self.doc.file_modified_time = modified_time;
        let ghost mid = self.snapshot();
        assert(self.view.panes.deep_view()[self.view.active_pane as int] == reset_pane(
            old(self).pane_views()[self.view.active_pane as int],
        ));
        self.save_to_buffer();
        self.doc.current_url = None;
        assert(mid == Some(
            DocumentBufferView {
                url: old(self).doc.current_url.deep_view(),
                ..self.snapshot()->0
            },
        ));
        let shown = match file_name {
            Some(name) => name,
            None => path,
        };
        assert(shown@ == display_name(path@, name_view(file_name)));
        assert(self.library.history@ == old(self).library.history@);
        self.library.history.add(path, false, shown);
        proof {
            let now = choose|now: u64|
                self.library.history@ == #[trigger] old(self).library.history@.add(
                    path@,
                    false,
                    shown@,
                    now,
                );
            assert(self.library.history@ == old(self).library.history@.add(
                path@,
                false,
                display_name(path@, name_view(file_name)),
                now,
            ));
        }
    }

    /// Whether the file that is shown is to be read again: it is, where
    /// reloading is switched on, a file is shown whose time of change is
    /// known, and the file was changed after that time. `modified_time` is
    /// the time of the last change now, where it can be had.
    pub fn check_file_changed(&self, modified_time: Option<u64>) -> (changed: bool)
        ensures
            changed == (self.prefs.auto_reload && self.doc.file_path is Some && match (
                modified_time,
                self.doc.file_modified_time,
            ) {
                (Some(now), Some(before)) => now > before,
                _ => false,
            }),
    {
        if !self.prefs.auto_reload || self.doc.file_path.is_none() {
            return false;
        }
        match (modified_time, self.doc.file_modified_time) {
            (Some(now), Some(before)) => now > before,
            _ => false,
        }
    }

    /// Shows the new content of the file that is shown, and says so. The
    /// panes stay where they are.
    pub fn reload_file(&mut self, content: &str, modified_time: u64)
        ensures
            final(self).wf() == old(self).wf(),
            *final(self) == (AppState { doc: final(self).doc, ui: final(self).ui, ..*old(self) }),
            final(self).doc == (OpenDocument {
                document: final(self).doc.document,
                rendered_lines: final(self).doc.rendered_lines,
                file_modified_time: Some(modified_time),
                ..old(self).doc
            }),
            final(self).doc.document matches Some(document) && is_parsed_and_rendered(
                content@,
                document@,
                final(self).doc.rendered_lines.deep_view(),
                old(self).prefs.theme,
                old(self).prefs.syntax_highlighting,
            ),
            final(self).ui == (Interface {
                status_message: final(self).ui.status_message,
                ..old(self).ui
            }),
            says(final(self).ui.status_message, "File reloaded"@),
    {
        let (document, lines) = self.parse_and_render(content);
        self.doc.rendered_lines = lines;
        self.doc.document = Some(document);
        self.doc.file_modified_time = Some(modified_time);
        self.ui.status_message = Some(String::from_str("File reloaded"));
    }

    /// Notes that the fetch of a URL has started.
    pub fn start_url_fetch(&mut self, url: &str)
        ensures
            final(self).wf() == old(self).wf(),
            *final(self) == (AppState { doc: final(self).doc, ui: final(self).ui, ..*old(self) }),
            final(self).doc == (OpenDocument { is_loading: true, ..old(self).doc }),
            final(self).ui == (Interface {
                status_message: final(self).ui.status_message,
                ..old(self).ui
            }),
            says(final(self).ui.status_message, "Loading "@ + url@ + "..."@),
    {
        self.doc.is_loading = true;
        let mut text = String::from_str("Loading ");
        text.append(url);
        text.append("...");
        self.ui.status_message = Some(text);
    }

    /// Shows a document that was fetched from the web, and notes the visit
    /// in the history.
    ///
    /// The text is parsed and rendered, and every pane goes to the top and
    /// loses its matches. Among the open documents the document goes by the
    /// last segment of its URL.
    pub fn finish_load_url(&mut self, content: &str, url: &str)
        ensures
            final(self).wf() == old(self).wf(),
            *final(self) == (AppState {
                doc: final(self).doc,
                view: final(self).view,
                ui: final(self).ui,
                library: final(self).library,
                ..*old(self)
            }),
            final(self).doc.is_loading == old(self).doc.is_loading,
            final(self).ui == (Interface {
                outline_selected: 0,
                status_message: final(self).ui.status_message,
                ..old(self).ui
            }),
            says(final(self).ui.status_message, "Loaded: "@ + last_segment(url@)),
            final(self).library == (crate::app::Library {
                history: final(self).library.history,
                ..old(self).library
            }),
            final(self).shows_new_document(*old(self), content@),
            final(self).doc.file_path.deep_view() == Some(url_placeholder(url@)),
            final(self).doc.file_name.deep_view() == Some(url_placeholder(url@)),
            final(self).doc.file_modified_time is None,
            final(self).doc.current_url.deep_view() == Some(url@),
            exists|now: u64|
                final(self).library.history@ == #[trigger] old(self).library.history@.add(
                    url@,
                    true,
                    last_segment(url@),
                    now,
                ),
    {
        let (document, lines) = self.parse_and_render(content);
        self.doc.rendered_lines = lines;
        let name = last_segment_of(url);
        let placeholder = str_concat("[URL] ", name.as_str());
        self.doc.document = Some(document);
        self.doc.file_name = Some(placeholder.clone());
        self.doc.file_path = Some(placeholder);
        self.doc.current_url = Some(String::from_str(url));
        self.doc.file_modified_time = None;
        self.reset_all_panes();
        self.ui.outline_selected = 0;
        self.library.history.add(url, true, name.as_str());
        self.ui.status_message = Some(str_concat("Loaded: ", name.as_str()));
    }

    /// Takes what the poll for a fetched document came to. While the fetch
    /// is under way nothing changes. Content is shown as
    /// [`AppState::finish_load_url`] does; an error is reported. Either way
    /// nothing is being loaded any more.
    pub fn check_fetch_complete(&mut self, outcome: FetchOutcome)
        ensures
            final(self).wf() == old(self).wf(),
            outcome is Pending ==> *final(self) == *old(self),
            !(outcome is Pending) ==> !final(self).doc.is_loading,
            outcome is Disconnected ==> {
                &&& *final(self) == (AppState {
                    doc: final(self).doc,
                    ui: final(self).ui,
                    ..*old(self)
                })
                &&& final(self).doc == (OpenDocument { is_loading: false, ..old(self).doc })
                &&& final(self).ui == (Interface {
                    status_message: final(self).ui.status_message,
                    ..old(self).ui
                })
                &&& says(final(self).ui.status_message, "Error: fetch failed unexpectedly"@)
            },
            outcome matches FetchOutcome::Finished(Err(message)) ==> {
                &&& *final(self) == (AppState {
                    doc: final(self).doc,
                    ui: final(self).ui,
                    ..*old(self)
                })
                &&& final(self).doc == (OpenDocument { is_loading: false, ..old(self).doc })
                &&& final(self).ui == (Interface {
                    status_message: final(self).ui.status_message,
                    ..old(self).ui
                })
                &&& says(final(self).ui.status_message, "Error: "@ + message@)
            },
            outcome matches FetchOutcome::Finished(Ok((content, url))) ==> {
                &&& *final(self) == (AppState {
                    doc: final(self).doc,
                    view: final(self).view,
                    ui: final(self).ui,
                    library: final(self).library,
                    ..*old(self)
                })
                &&& final(self).shows_new_document(*old(self), content@)
                &&& final(self).doc.current_url.deep_view() == Some(url@)
                &&& says(final(self).ui.status_message, "Loaded: "@ + last_segment(url@))
            },
    {
        match outcome {
            FetchOutcome::Pending => {},
            FetchOutcome::Finished(Ok((content, url))) => {
                self.doc.is_loading = false;
                self.finish_load_url(content.as_str(), url.as_str());
            },
            FetchOutcome::Finished(Err(message)) => {
                self.doc.is_loading = false;
                self.ui.status_message = Some(str_concat("Error: ", message.as_str()));
            },
            FetchOutcome::Disconnected => {
                self.doc.is_loading = false;
                self.ui.status_message = Some(
                    String::from_str("Error: fetch failed unexpectedly"),
                );
            },
        }
    }

    /// Takes the result of a fetch that the caller waited for: the content
    /// is shown as [`AppState::finish_load_url`] does; an error is handed
    /// back as its message. Nothing is being loaded any more.
    pub fn load_url(&mut self, url: &str, result: Result<String, FetchError>) -> (loaded: Result<
        (),
        String,
    >)
        ensures
            final(self).wf() == old(self).wf(),
            !final(self).doc.is_loading,
            says(
                final(self).ui.status_message,
                match result {
                    Ok(_) => "Loaded: "@ + last_segment(url@),
                    Err(_) => "Loading "@ + url@ + "..."@,
                },
            ),
            match result {
                Ok(content) => {
                    &&& loaded is Ok
                    &&& *final(self) == (AppState {
                        doc: final(self).doc,
                        view: final(self).view,
                        ui: final(self).ui,
                        library: final(self).library,
                        ..*old(self)
                    })
                    &&& final(self).shows_new_document(*old(self), content@)
                    &&& final(self).doc.current_url.deep_view() == Some(url@)
                },
                Err(error) => {
                    &&& loaded matches Err(message) && message@ == error@.message()
                    &&& *final(self) == (AppState {
                        doc: final(self).doc,
                        ui: final(self).ui,
                        ..*old(self)
                    })
                    &&& final(self).doc == (OpenDocument { is_loading: false, ..old(self).doc })
                    &&& final(self).ui == (Interface {
                        status_message: final(self).ui.status_message,
                        ..old(self).ui
                    })
                },
            },
    {
        self.start_url_fetch(url);
        self.doc.is_loading = false;
        match result {
            Ok(content) => {
                self.finish_load_url(content.as_str(), url);
                Ok(())
            },
            Err(error) => Err(error.to_string()),
        }
    }

    /// The place that is shown: the URL of a document from the web, else
    /// the path of the file.
    pub fn current_location(&self) -> (location: Option<String>)
        ensures
            location.deep_view() == match self.doc.current_url {
                Some(url) => Some(url@),
                None => self.doc.file_path.deep_view(),
            },
    {
        match &self.doc.current_url {
            Some(url) => Some(url.clone()),
            None => self.doc.file_path.clone(),
        }
    }

    /// Whether a document from the web is shown.
    pub fn is_viewing_url(&self) -> (yes: bool)
        ensures
            yes == self.doc.current_url is Some,
    {
        self.doc.current_url.is_some()
    }
}

/// The index after `index` in a list of `len` entries, the first after the
/// last.
pub fn next_index(index: usize, len: usize) -> (next: usize)
    requires
        index < len,
    ensures
        next == (index + 1) % (len as int),
        next < len,
{
    if index + 1 == len {
        assert((index + 1) % (len as int) == 0) by {
            vstd::arithmetic::div_mod::lemma_mod_self_0(len as int);
        }
        0
    } else {
        assert((index + 1) % (len as int) == index + 1) by {
            vstd::arithmetic::div_mod::lemma_small_mod((index + 1) as nat, len as nat);
        }
        index + 1
    }
}

} // verus!
