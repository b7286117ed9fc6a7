//! What a pane shows of the rendered buffer: the lines in view, with the
//! matches of its search marked, and scrolled to the right where lines are
//! not wrapped.

use crate::app::{clamp_line, AppState};
use crate::search::SearchMatch;
use crate::style::{Line, LineView, Span, SpanView, Style};
use crate::text::{chars_of, slice_of, string_from_chars};
use crate::theme::Theme;
use vstd::prelude::*;

verus! {

/// The part of a text from the position `from` up to the position `to`. A
/// position behind the end counts as the end, and an end before the start
/// as the start.
pub open spec fn clipped(text: Seq<char>, from: usize, to: usize) -> Seq<char> {
    let start = if from > text.len() {
        text.len() as int
    } else {
        from as int
    };
    let end = if to > text.len() {
        text.len() as int
    } else if to < start {
        start
    } else {
        to as int
    };
    text.subrange(start, end)
}

fn clip(chars: &Vec<char>, from: usize, to: usize) -> (part: String)
    ensures
        part@ == clipped(chars@, from, to),
{
    let start = if from > chars.len() {
        chars.len()
    } else {
        from
    };
    let end = if to > chars.len() {
        chars.len()
    } else if to < start {
        start
    } else {
        to
    };
    string_from_chars(&slice_of(chars, start, end))
}

/// The style of the text of a match.
pub open spec fn match_style(theme: Theme) -> Style {
    Style {
        fg: Some(theme.highlight_match_fg),
        bg: Some(theme.highlight_match_bg),
        bold: true,
        ..Style::plain_spec()
    }
}

/// Whether one of the matches is on the line.
pub open spec fn has_match_on(matches: Seq<SearchMatch>, line: usize) -> bool {
    exists|i: int| 0 <= i < matches.len() && (#[trigger] matches[i]).line == line
}

/// The spans of a line from the position `from` on, with the matches of
/// that line marked: before each match the text since the match before it,
/// in the theme's text colour, then the match in the match style, and at the
/// end what is left of the text. Matches of other lines are passed over.
pub open spec fn marked_spans(
    text: Seq<char>,
    matches: Seq<SearchMatch>,
    line: usize,
    from: usize,
    theme: Theme,
) -> Seq<SpanView>
    decreases matches.len(),
{
    if matches.len() == 0 {
        if from < text.len() {
            seq![
                SpanView {
                    text: clipped(text, from, usize::MAX),
                    style: Style::fg_spec(theme.text),
                },
            ]
        } else {
            Seq::empty()
        }
    } else if matches[0].line != line {
        marked_spans(text, matches.drop_first(), line, from, theme)
    } else {
        let m = matches[0];
        let before = if m.start > from {
            seq![SpanView { text: clipped(text, from, m.start), style: Style::fg_spec(theme.text) }]
        } else {
            Seq::empty()
        };
        before + seq![SpanView { text: clipped(text, m.start, m.end), style: match_style(theme) }]
            + marked_spans(text, matches.drop_first(), line, m.end, theme)
    }
}

/// A line at the index `index` of the buffer with the matches marked: the
/// line itself where no match is on it.
pub open spec fn marked_line(
    line: LineView,
    matches: Seq<SearchMatch>,
    index: usize,
    theme: Theme,
) -> LineView {
    if has_match_on(matches, index) {
        LineView {
            spans: marked_spans(line.text(), matches, index, 0, theme),
            style: Style::plain_spec(),
        }
    } else {
        line
    }
}

/// Marks the matches on a line of the buffer.
pub fn mark_matches(line: &Line, matches: &Vec<SearchMatch>, index: usize, theme: &Theme) -> (out:
    Line)
    ensures
        out@ == marked_line(line@, matches@, index, *theme),
{
    let mut any = false;
    let mut k: usize = 0;
    while k < matches.len()
        invariant
            k <= matches.len(),
            any == exists|i: int| 0 <= i < k && (#[trigger] matches@[i]).line == index,
        decreases matches.len() - k,
    {
        if matches[k].line == index {
            any = true;
        }
        k = k + 1;
    }
    if !any {
        return line.clone();
    }
    let text = line.text();
    let chars = chars_of(text.as_str());
    let mut spans: Vec<Span> = Vec::new();
    let mut last_end: usize = 0;
    let mut i: usize = 0;
    assert(matches@.skip(0) =~= matches@);
    assert(spans.deep_view() + marked_spans(chars@, matches@, index, 0, *theme) =~= marked_spans(
        chars@,
        matches@,
        index,
        0,
        *theme,
    ));
    while i < matches.len()
        invariant
            i <= matches.len(),
            chars@ == line@.text(),
            spans.deep_view() + marked_spans(chars@, matches@.skip(i as int), index, last_end,
                *theme)
                == marked_spans(chars@, matches@, index, 0, *theme),
        decreases matches.len() - i,
    {
        let m = matches[i];
        let ghost rest = matches@.skip(i as int);
        assert(rest[0] == m);
        assert(rest.drop_first() =~= matches@.skip(i + 1));
        if m.line == index {
            let ghost so_far = spans.deep_view();
            let ghost after = marked_spans(chars@, matches@.skip(i + 1), index, m.end, *theme);
            if m.start > last_end {
                let span = Span {
                    text: clip(&chars, last_end, m.start),
                    style: Style::with_fg(theme.text),
                };
                spans.push(span);
                assert(spans.deep_view() =~= so_far.push(span@));
            }
            let ghost with_before = spans.deep_view();
            let hit = Span {
                text: clip(&chars, m.start, m.end),
                style: Style {
                    fg: Some(theme.highlight_match_fg),
                    bg: Some(theme.highlight_match_bg),
                    bold: true,
                    italic: false,
                    underlined: false,
                    crossed_out: false,
                },
            };
            spans.push(hit);
            assert(spans.deep_view() =~= with_before.push(hit@));
            assert(spans.deep_view() + after =~= so_far + marked_spans(
                chars@,
                rest,
                index,
                last_end,
                *theme,
            ));
            last_end = m.end;
        }
        i = i + 1;
    }
    assert(matches@.skip(matches.len() as int) =~= Seq::<SearchMatch>::empty());
    let ghost so_far = spans.deep_view();
    if last_end < chars.len() {
        let span = Span {
            text: clip(&chars, last_end, usize::MAX),
            style: Style::with_fg(theme.text),
        };
        spans.push(span);
        assert(spans.deep_view() =~= so_far + seq![span@]);
    } else {
        assert(so_far + Seq::<SpanView>::empty() =~= so_far);
    }
    Line::from_spans(spans)
}

/// The lines of a window of the buffer with the matches marked: the line at
/// `i` of the window is the line at `offset + i` of the buffer.
pub open spec fn marked_lines(
    lines: Seq<LineView>,
    matches: Seq<SearchMatch>,
    offset: usize,
    theme: Theme,
) -> Seq<LineView> {
    Seq::new(
        lines.len(),
        |i: int|
            if offset + i <= usize::MAX {
                marked_line(lines[i], matches, (offset + i) as usize, theme)
            } else {
                lines[i]
            },
    )
}

/// Marks the matches of a search on the lines of a window of the buffer
/// that starts at the line `offset`.
pub fn apply_search_highlighting(
    lines: &Vec<Line>,
    matches: &Vec<SearchMatch>,
    offset: usize,
    theme: &Theme,
) -> (out: Vec<Line>)
    ensures
        out.deep_view() == marked_lines(lines.deep_view(), matches@, offset, *theme),
{
    let mut out: Vec<Line> = Vec::new();
    let ghost all = marked_lines(lines.deep_view(), matches@, offset, *theme);
    let mut i: usize = 0;
    assert(out.deep_view() =~= all.take(0));
    while i < lines.len()
        invariant
            i <= lines.len(),
            all == marked_lines(lines.deep_view(), matches@, offset, *theme),
            out.deep_view() == all.take(i as int),
        decreases lines.len() - i,
    {
        let line = if i <= usize::MAX - offset {
            mark_matches(&lines[i], matches, offset + i, theme)
        } else {
            lines[i].clone()
        };
        assert(all[i as int] == line@);
        let ghost so_far = out.deep_view();
        out.push(line);
        assert(out.deep_view() =~= so_far.push(line@));
        assert(all.take(i + 1) =~= all.take(i as int).push(line@));
        i = i + 1;
    }
    assert(all.take(lines.len() as int) =~= all);
    out
}

/// A line scrolled `offset` characters to the right: the line itself for
/// no offset, its text from that character on as one plain span, and the
/// empty line where the offset is not before the end of the text.
pub open spec fn scrolled_line(line: LineView, offset: usize) -> LineView {
    if offset == 0 {
        line
    } else if offset >= line.text().len() {
        LineView::blank()
    } else {
        LineView {
            spans: seq![
                SpanView { text: line.text().skip(offset as int), style: Style::plain_spec() },
            ],
            style: Style::plain_spec(),
        }
    }
}

/// Scrolls a line `offset` characters to the right.
pub fn apply_horizontal_scroll(line: Line, offset: usize) -> (out: Line)
    ensures
        out@ == scrolled_line(line@, offset),
{
    if offset == 0 {
        return line;
    }
    let text = line.text();
    let chars = chars_of(text.as_str());
    if offset >= chars.len() {
        return Line::blank();
    }
    let rest = string_from_chars(&slice_of(&chars, offset, chars.len()));
    assert(rest@ =~= line@.text().skip(offset as int));
    let mut spans: Vec<Span> = Vec::new();
    let span = Span { text: rest, style: Style::plain() };
    spans.push(span);
    assert(spans.deep_view() =~= seq![span@]);
    Line::from_spans(spans)
}

/// The lines of a window of `height` lines that starts at the line that a
/// pane is scrolled to, or at the last line where it is scrolled behind it.
pub open spec fn window(lines: Seq<LineView>, scroll: usize, height: usize) -> Seq<LineView> {
    let start = clamp_line(scroll, lines.len() as usize) as int;
    let end = if start + height > lines.len() {
        lines.len() as int
    } else {
        start + height
    };
    lines.subrange(start, end)
}

/// What a pane shows: the lines of its window, with the matches of its
/// search marked, and, where lines are not wrapped, scrolled to the right.
pub open spec fn pane_content(
    lines: Seq<LineView>,
    scroll: usize,
    horizontal_scroll: usize,
    matches: Seq<SearchMatch>,
    height: usize,
    theme: Theme,
    line_wrap: bool,
) -> Seq<LineView> {
    let start = clamp_line(scroll, lines.len() as usize);
    let visible = window(lines, scroll, height);
    let marked = if matches.len() > 0 {
        marked_lines(visible, matches, start, theme)
    } else {
        visible
    };
    if line_wrap {
        marked
    } else {
        Seq::new(marked.len(), |i: int| scrolled_line(marked[i], horizontal_scroll))
    }
}

impl AppState {
    /// The lines that the pane at `pane` shows in a window of `height`
    /// lines.
    pub fn pane_lines(&self, pane: usize, height: usize) -> (out: Vec<Line>)
        requires
            pane < self.view.panes.len(),
        ensures
            out.deep_view() == pane_content(
                self.doc.rendered_lines.deep_view(),
                self.view.panes[pane as int].scroll,
                self.view.panes[pane as int].horizontal_scroll,
                self.view.panes[pane as int].search_matches@,
                height,
                self.prefs.theme,
                self.prefs.line_wrap,
            ),
    {
        let lines = &self.doc.rendered_lines;
        let state = &self.view.panes[pane];
        let total = lines.len();
        let last = total.saturating_sub(1);
        let start = if state.scroll < last {
            state.scroll
        } else {
            last
        };
        let end = if height > total - start {
            total
        } else {
            start + height
        };
        let ghost shown = window(lines.deep_view(), state.scroll, height);
        let mut visible: Vec<Line> = Vec::new();
        let mut i: usize = start;
        assert(visible.deep_view() =~= shown.take(0));
        while i < end
            invariant
                start <= i <= end <= lines.len(),
                shown == lines.deep_view().subrange(start as int, end as int),
                visible.deep_view() == shown.take(i - start),
            decreases end - i,
        {
            let line = lines[i].clone();
            assert(shown[i - start] == lines[i as int]@);
            let ghost so_far = visible.deep_view();
            visible.push(line);
            assert(visible.deep_view() =~= so_far.push(line@));
            assert(shown.take(i + 1 - start) =~= shown.take(i - start).push(line@));
            i = i + 1;
        }
        assert(shown.take(end - start) =~= shown);
        let marked = if state.search_matches.len() > 0 {
            apply_search_highlighting(&visible, &state.search_matches, start, &self.prefs.theme)
        } else {
            visible
        };
        if self.prefs.line_wrap {
            return marked;
        }
        let ghost all = Seq::new(
            marked.deep_view().len(),
            |i: int| scrolled_line(marked.deep_view()[i], state.horizontal_scroll),
        );
        let mut out: Vec<Line> = Vec::new();
        let mut k: usize = 0;
        assert(out.deep_view() =~= all.take(0));
        while k < marked.len()
            invariant
                k <= marked.len(),
                all == Seq::new(
                    marked.deep_view().len(),
                    |i: int| scrolled_line(marked.deep_view()[i], state.horizontal_scroll),
                ),
                out.deep_view() == all.take(k as int),
            decreases marked.len() - k,
        {
            let line = apply_horizontal_scroll(marked[k].clone(), state.horizontal_scroll);
            assert(all[k as int] == line@);
            let ghost so_far = out.deep_view();
            out.push(line);
            assert(out.deep_view() =~= so_far.push(line@));
            assert(all.take(k + 1) =~= all.take(k as int).push(line@));
            k = k + 1;
        }
        assert(all.take(marked.len() as int) =~= all);
        out
    }
}

} // verus!
