//! What the panels and overlays hold: where an overlay goes on the screen,
//! which part of a list is in view, and the texts of the status bar, the
//! outline and the lists. Drawing them is left to the caller.

use crate::app::{AppState, Area, InputMode, SplitDirection};
use crate::text::{chars_of, decimal, decimal_of, slice_of, string_from_chars};
use vstd::prelude::*;

verus! {

/// The smaller of two numbers.
pub open spec fn min_spec(a: int, b: int) -> int {
    if a < b {
        a
    } else {
        b
    }
}

/// The area of an overlay of the given size in the middle of a screen; the
/// overlay leaves two cells free on each side where the screen is smaller.
pub open spec fn popup_spec(screen_width: u16, screen_height: u16, width: u16,
    height: u16) -> Area {
    let w = min_spec(
        width as int,
        if screen_width < 4 {
            0
        } else {
            screen_width - 4
        },
    );
    let h = min_spec(
        height as int,
        if screen_height < 4 {
            0
        } else {
            screen_height - 4
        },
    );
    Area {
        x: ((screen_width - w) / 2) as u16,
        y: ((screen_height - h) / 2) as u16,
        width: w as u16,
        height: h as u16,
    }
}

/// The area of an overlay of the given size in the middle of a screen.
pub fn popup_area(screen_width: u16, screen_height: u16, width: u16, height: u16) -> (area: Area)
    ensures
        area == popup_spec(screen_width, screen_height, width, height),
{
    let most_wide = screen_width.saturating_sub(4);
    let most_high = screen_height.saturating_sub(4);
    let w = if width < most_wide {
        width
    } else {
        most_wide
    };
    let h = if height < most_high {
        height
    } else {
        most_high
    };
    Area { x: (screen_width - w) / 2, y: (screen_height - h) / 2, width: w, height: h }
}

/// The area of a text input at the bottom of a screen: three rows high, as
/// wide as the screen.
pub fn input_bar_area(screen_width: u16, screen_height: u16) -> (area: Area)
    ensures
        area == (Area {
            x: 0,
            y: if screen_height < 3 {
                0
            } else {
                (screen_height - 3) as u16
            },
            width: screen_width,
            height: 3,
        }),
{
    Area { x: 0, y: screen_height.saturating_sub(3), width: screen_width, height: 3 }
}

/// The part of a list of `total` entries that is in view in `height` rows:
/// the index of the first entry in view and the index behind the last. The
/// list is scrolled just far enough for the selected entry to be in view.
pub open spec fn list_window_spec(selected: usize, height: usize, total: usize) -> (int, int) {
    let start = if selected >= height {
        min_spec(selected - height + 1, usize::MAX as int)
    } else {
        0
    };
    let end = min_spec(start + height, total as int);
    (
        start,
        if end < start {
            start
        } else {
            end
        },
    )
}

/// The part of a list that is in view.
pub fn list_window(selected: usize, height: usize, total: usize) -> (window: (usize, usize))
    ensures
        window.0 == list_window_spec(selected, height, total).0,
        window.1 == list_window_spec(selected, height, total).1,
        window.0 <= window.1,
{
    let start = if selected >= height {
        (selected - height).saturating_add(1)
    } else {
        0
    };
    let end = if height > total || start > total - height {
        total
    } else {
        start + height
    };
    (
        start,
        if end < start {
            start
        } else {
            end
        },
    )
}

/// The marker before an entry of a list.
pub fn entry_marker(selected: bool) -> (marker: &'static str)
    ensures
        marker@ == if selected {
            "> "@
        } else {
            "  "@
        },
{
    if selected {
        "> "
    } else {
        "  "
    }
}

/// The label of an input mode in the status bar.
pub fn mode_label(mode: InputMode) -> (label: &'static str)
    ensures
        label@ == match mode {
            InputMode::Normal => " NORMAL "@,
            InputMode::Search => " SEARCH "@,
            InputMode::SplitCommand => " SPLIT "@,
            InputMode::UrlInput => " URL "@,
            InputMode::BookmarkName => " BOOKMARK "@,
        },
{
    match mode {
        InputMode::Normal => " NORMAL ",
        InputMode::Search => " SEARCH ",
        InputMode::SplitCommand => " SPLIT ",
        InputMode::UrlInput => " URL ",
        InputMode::BookmarkName => " BOOKMARK ",
    }
}

/// The hint of an input mode in the status bar.
pub fn mode_hint(mode: InputMode) -> (hint: &'static str)
    ensures
        hint@ == match mode {
            InputMode::Normal => " ?:help O:url H:history m:bookmarks "@,
            InputMode::Search => " Enter:search Esc:cancel Ctrl+r:regex "@,
            InputMode::SplitCommand => " v:vsplit s:hsplit q:close w:cycle "@,
            InputMode::UrlInput => " Enter:load Esc:cancel "@,
            InputMode::BookmarkName => " Enter:save Esc:cancel "@,
        },
{
    match mode {
        InputMode::Normal => " ?:help O:url H:history m:bookmarks ",
        InputMode::Search => " Enter:search Esc:cancel Ctrl+r:regex ",
        InputMode::SplitCommand => " v:vsplit s:hsplit q:close w:cycle ",
        InputMode::UrlInput => " Enter:load Esc:cancel ",
        InputMode::BookmarkName => " Enter:save Esc:cancel ",
    }
}

/// Two numbers as a place in a list: the first, a slash, the second.
pub open spec fn fraction(place: nat, total: nat) -> Seq<char> {
    decimal_of(place) + "/"@ + decimal_of(total)
}

fn fraction_of(place: u128, total: u128) -> (text: String)
    ensures
        text@ == fraction(place as nat, total as nat),
{
    let mut text = decimal(place);
    text.append("/");
    text.append(decimal(total).as_str());
    text
}

/// The place of a pane in the buffer, as the status bar shows it: the
/// number of the line that it is scrolled to, and the number of lines.
pub fn status_position(scroll: usize, total: usize) -> (text: String)
    ensures
        text@ == " "@ + fraction((scroll + 1) as nat, total as nat) + " "@,
{
    let mut text = String::from_str(" ");
    text.append(fraction_of(scroll as u128 + 1, total as u128).as_str());
    text.append(" ");
    text
}

/// The flag of a switch: the text where the switch is on, else nothing.
pub open spec fn flag(on: bool, text: Seq<char>) -> Seq<char> {
    if on {
        text
    } else {
        Seq::empty()
    }
}

fn push_flag(flags: &mut String, on: bool, text: &str)
    ensures
        final(flags)@ == old(flags)@ + flag(on, text@),
{
    if on {
        flags.append(text);
    } else {
        assert(flags@ + Seq::<char>::empty() =~= flags@);
    }
}

fn bracketed(open: &str, place: usize, total: usize) -> (text: String)
    ensures
        text@ == open@ + fraction((place + 1) as nat, total as nat) + "]"@,
{
    let mut text = String::from_str(open);
    text.append(fraction_of(place as u128 + 1, total as u128).as_str());
    text.append("]");
    text
}

impl AppState {
    /// The flags of the status bar: one for each switch that is on, then the
    /// place of the current pane where the content is split, the place of
    /// the document where more than one is open, and the flag of reloading.
    pub open spec fn status_flags_spec(&self) -> Seq<char> {
        Seq::<char>::empty() + flag(self.doc.is_loading, "[LOADING]"@) + flag(
            self.doc.current_url is Some,
            "[URL]"@,
        ) + flag(self.prefs.line_wrap, "[W]"@) + flag(
            self.view.panes[self.view.active_pane as int].search_is_regex,
            "[.*]"@,
        ) + flag(self.prefs.show_line_numbers, "[#]"@) + flag(
            self.view.split_direction != SplitDirection::Unsplit,
            "["@ + fraction((self.view.active_pane + 1) as nat, self.view.panes.len() as nat)
                + "]"@,
        ) + flag(
            self.open.buffers.len() > 1,
            "[B"@ + fraction((self.open.active_buffer + 1) as nat, self.open.buffers.len() as nat)
                + "]"@,
        ) + flag(self.prefs.auto_reload, "[R]"@)
    }

    /// The flags of the status bar.
    pub fn status_flags(&self) -> (flags: String)
        requires
            self.wf(),
        ensures
            flags@ == self.status_flags_spec(),
    {
        let mut flags = String::new();
        push_flag(&mut flags, self.doc.is_loading, "[LOADING]");
        push_flag(&mut flags, self.doc.current_url.is_some(), "[URL]");
        push_flag(&mut flags, self.prefs.line_wrap, "[W]");
        push_flag(&mut flags, self.view.panes[self.view.active_pane].search_is_regex, "[.*]");
        push_flag(&mut flags, self.prefs.show_line_numbers, "[#]");
        let pane = bracketed("[", self.view.active_pane, self.view.panes.len());
        push_flag(
            &mut flags,
            self.view.split_direction != SplitDirection::Unsplit,
            pane.as_str(),
        );
        let buffer = bracketed("[B", self.open.active_buffer, self.open.buffers.len());
        push_flag(&mut flags, self.open.buffers.len() > 1, buffer.as_str());
        push_flag(&mut flags, self.prefs.auto_reload, "[R]");
        flags
    }
}

/// The text of a switch in the settings.
pub fn switch_label(on: bool) -> (label: &'static str)
    ensures
        label@ == if on {
            "ON"@
        } else {
            "OFF"@
        },
{
    if on {
        "ON"
    } else {
        "OFF"
    }
}

/// The indent of a heading in the outline: two spaces for each level below
/// the first.
pub open spec fn outline_indent(level: u8) -> Seq<char> {
    Seq::new(
        if level < 1 {
            0
        } else {
            2 * (level - 1) as nat
        },
        |i: int| ' ',
    )
}

/// The text of a heading in a width of `width` characters: the whole text
/// where it fits; else its start, with three dots in place of its last three
/// characters where the width is more than three.
pub open spec fn fitted(text: Seq<char>, width: nat) -> Seq<char> {
    if text.len() > width && width > 3 {
        text.take(width - 3) + "..."@
    } else if text.len() > width {
        text.take(width as int)
    } else {
        text
    }
}

/// The entry of a heading in the outline: the marker of the selection, the
/// indent of the level, and the text as far as it fits into what is left of
/// `width` characters after the indent.
pub open spec fn outline_entry_spec(level: u8, text: Seq<char>, selected: bool,
    width: usize) -> Seq<
    char,
> {
    let indent = outline_indent(level);
    let rest = if width < indent.len() {
        0nat
    } else {
        (width - indent.len()) as nat
    };
    (if selected {
        "> "@
    } else {
        "  "@
    }) + indent + fitted(text, rest)
}

/// The entry of a heading in the outline.
pub fn outline_entry(level: u8, text: &str, selected: bool, width: usize) -> (entry: String)
    ensures
        entry@ == outline_entry_spec(level, text@, selected, width),
{
    let mut entry = String::from_str(entry_marker(selected));
    let steps: usize = if level < 1 {
        0
    } else {
        2 * (level as usize - 1)
    };
    let mut i: usize = 0;
    proof {
        reveal_strlit(" ");
    }
    let ghost marker = entry@;
    assert(entry@ =~= marker + Seq::new(0nat, |k: int| ' '));
    while i < steps
        invariant
            i <= steps,
            " "@ == seq![' '],
            entry@ == marker + Seq::new(i as nat, |k: int| ' '),
        decreases steps - i,
    {
        entry.append(" ");
        assert(entry@ =~= marker + Seq::new((i + 1) as nat, |k: int| ' '));
        i = i + 1;
    }
    let rest = width.saturating_sub(steps);
    let chars = chars_of(text);
    if chars.len() > rest && rest > 3 {
        entry.append(string_from_chars(&slice_of(&chars, 0, rest - 3)).as_str());
        entry.append("...");
    } else if chars.len() > rest {
        entry.append(string_from_chars(&slice_of(&chars, 0, rest)).as_str());
    } else {
        entry.append(text);
    }
    assert(entry@ =~= outline_entry_spec(level, text@, selected, width));
    entry
}

/// The entry of an open document in the list: the marker of the selection,
/// its number in brackets, its name, and a star behind the one that is
/// shown.
pub fn buffer_entry(index: usize, name: &str, selected: bool, active: bool) -> (entry: String)
    ensures
        entry@ == (if selected {
            "> "@
        } else {
            "  "@
        }) + "["@ + decimal_of((index + 1) as nat) + "] "@ + name@ + flag(active, " *"@),
{
    let mut entry = String::from_str(entry_marker(selected));
    entry.append("[");
    entry.append(decimal(index as u128 + 1).as_str());
    entry.append("] ");
    entry.append(name);
    if active {
        entry.append(" *");
    }
    assert(entry@ =~= (if selected {
        "> "@
    } else {
        "  "@
    }) + "["@ + decimal_of((index + 1) as nat) + "] "@ + name@ + flag(active, " *"@));
    entry
}

/// The entry of a document in the history or in the bookmarks: the marker
/// of the selection, a sign for a document of the web or for a file, and the
/// name.
pub fn library_entry(name: &str, is_url: bool, selected: bool) -> (entry: String)
    ensures
        entry@ == (if selected {
            "> "@
        } else {
            "  "@
        }) + (if is_url {
            "🌐 "@
        } else {
            "📄 "@
        }) + name@,
{
    let mut entry = String::from_str(entry_marker(selected));
    entry.append(
        if is_url {
            "🌐 "
        } else {
            "📄 "
        },
    );
    entry.append(name);
    entry
}

} // verus!
