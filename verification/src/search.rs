//! The search index: finds the matches of a query in the rendered buffer.
//!
//! The pattern engine is the `regex` crate. Which patterns it accepts and
//! what it finds of a pattern in a text is named here, not spelled out; the
//! contracts say exactly how the match list is built from it.

use crate::style::{Line, LineView};
use crate::text::chars_of;
use vstd::prelude::*;

verus! {

/// One match of a search: the index of its line in the buffer, and where it
/// starts and ends in the text of that line, counted in characters.
#[derive(Clone, Copy, Debug, PartialEq, Eq, Structural)]
pub struct SearchMatch {
    pub line: usize,
    pub start: usize,
    pub end: usize,
}

/// Why a search could not be made.
#[derive(Clone, Copy, Debug, PartialEq, Eq, Structural)]
pub enum SearchError {
    /// The query was to be read as a regular expression and is not one.
    InvalidPattern,
}

impl SearchError {
    /// The message that the viewer shows.
    pub fn message(&self) -> (text: String)
        ensures
            text@ == "Invalid regex"@,
    {
        String::from_str("Invalid regex")
    }
}

#[verifier::external_type_specification]
#[verifier::external_body]
pub struct ExRegex(regex::Regex);

#[verifier::external_type_specification]
#[verifier::external_body]
pub struct ExRegexError(regex::Error);

/// Whether a character has a meaning of its own in a pattern: one of the
/// eighteen characters that `regex::escape` puts a backslash before.
pub open spec fn is_meta(c: char) -> bool {
    c == '\\' || c == '.' || c == '+' || c == '*' || c == '?' || c == '(' || c == ')' || c == '|'
        || c == '[' || c == ']' || c == '{' || c == '}' || c == '^' || c == '$' || c == '#' || c
        == '&' || c == '-' || c == '~'
}

/// A character as it stands in an escaped query: after a backslash where
/// it has a meaning of its own, else alone.
pub open spec fn escaped_char(c: char) -> Seq<char> {
    if is_meta(c) {
        seq!['\\', c]
    } else {
        seq![c]
    }
}

/// The escaped form of a query: its characters in order, each with a
/// backslash before it where it has a meaning of its own in a pattern.
pub open spec fn escaped(query: Seq<char>) -> Seq<char>
    decreases query.len(),
{
    if query.len() == 0 {
        Seq::empty()
    } else {
        escaped(query.drop_last()) + escaped_char(query.last())
    }
}

/// The escaped form of a query is at least as long as the query: that of a
/// query that is not empty is not empty.
pub proof fn lemma_escaped_len(query: Seq<char>)
    ensures
        escaped(query).len() >= query.len(),
    decreases query.len(),
{
    if query.len() > 0 {
        lemma_escaped_len(query.drop_last());
    }
}

/// Whether `regex::Regex::new` accepts a pattern.
pub uninterp spec fn compiles(pattern: Seq<char>) -> bool;

/// What `regex::Regex::find_iter` finds of a pattern in a text: the
/// successive matches that do not overlap, from left to right, each as the
/// byte offsets of its start and its end.
pub uninterp spec fn match_ranges(pattern: Seq<char>, text: Seq<char>) -> Seq<(usize, usize)>;

/// A compiled pattern, with the text that it was compiled from.
pub struct Pattern {
    source: String,
    regex: regex::Regex,
}

impl View for Pattern {
    type V = Seq<char>;

    /// The text of the pattern.
    closed spec fn view(&self) -> Seq<char> {
        self.source@
    }
}

/// `regex::escape`: the query with a backslash before each of the
/// characters `\ . + * ? ( ) | [ ] { } ^ $ # & - ~`, and every other
/// character as it is.
#[verifier::external_body]
fn escape(query: &str) -> (pattern: String)
    ensures
        pattern@ == escaped(query@),
{
    regex::escape(query)
}

/// `regex::Regex::new`: compiles a pattern, or says why it cannot. Whether
/// a pattern compiles is a function of the pattern alone. The compiled
/// pattern is kept together with its text.
#[verifier::external_body]
fn compile(pattern: &str) -> (compiled: Result<Pattern, regex::Error>)
    ensures
        compiled is Ok <==> compiles(pattern@),
        compiled matches Ok(p) ==> p@ == pattern@,
{
    Ok(Pattern { source: pattern.to_string(), regex: regex::Regex::new(pattern)? })
}

/// `regex::Regex::find_iter`: the successive matches of the pattern in the
/// text that do not overlap, each as the byte offsets of its start and its
/// end. They are a function of the pattern's text and of the text searched.
/// As the crate documents it, a match does not end before it starts, its
/// offsets fall between characters, and each match starts where the one
/// before it ended or later.
#[verifier::external_body]
fn find_ranges(pattern: &Pattern, text: &str) -> (ranges: Vec<(usize, usize)>)
    ensures
        ranges@ == match_ranges(pattern@, text@),
        ranges_in_order(ranges@, text@),
{
    pattern.regex.find_iter(text).map(|m| (m.start(), m.end())).collect()
}

/// The number of bytes that a character takes in UTF-8.
pub open spec fn utf8_width(c: char) -> nat {
    if (c as u32) < 0x80 {
        1
    } else if (c as u32) < 0x800 {
        2
    } else if (c as u32) < 0x10000 {
        3
    } else {
        4
    }
}

/// The number of characters at the start of `text` that end at or before
/// the byte offset `byte` of its UTF-8 form. For the offset of a character's
/// first byte, this is the index of that character.
pub open spec fn chars_before(text: Seq<char>, byte: nat) -> nat
    decreases text.len(),
{
    if text.len() == 0 || utf8_width(text[0]) > byte {
        0
    } else {
        1 + chars_before(text.drop_first(), (byte - utf8_width(text[0])) as nat)
    }
}

/// `chars_before` never counts more characters than the text has.
pub proof fn lemma_chars_before_bound(text: Seq<char>, byte: nat)
    ensures
        chars_before(text, byte) <= text.len(),
    decreases text.len(),
{
    if text.len() == 0 || utf8_width(text[0]) > byte {
    } else {
        lemma_chars_before_bound(text.drop_first(), (byte - utf8_width(text[0])) as nat);
    }
}

/// The more bytes, the more characters: `chars_before` grows with the
/// byte offset.
pub proof fn lemma_chars_before_grows(text: Seq<char>, a: nat, b: nat)
    requires
        a <= b,
    ensures
        chars_before(text, a) <= chars_before(text, b),
    decreases text.len(),
{
    if text.len() == 0 || utf8_width(text[0]) > a {
    } else {
        lemma_chars_before_grows(
            text.drop_first(),
            (a - utf8_width(text[0])) as nat,
            (b - utf8_width(text[0])) as nat,
        );
    }
}

/// The number of bytes that the first `count` characters of a text take
/// in its UTF-8 form.
pub open spec fn bytes_before(text: Seq<char>, count: nat) -> nat
    decreases text.len(),
{
    if text.len() == 0 || count == 0 {
        0
    } else {
        utf8_width(text[0]) + bytes_before(text.drop_first(), (count - 1) as nat)
    }
}

/// Whether a byte offset of the UTF-8 form of a text falls between two
/// characters, before the first or behind the last: whether the characters
/// that end at or before it take exactly that many bytes.
pub open spec fn on_boundary(text: Seq<char>, byte: nat) -> bool {
    bytes_before(text, chars_before(text, byte)) == byte
}

/// Whether byte ranges are what an engine may find in a text: each starts
/// and ends between characters and does not end before it starts, and each
/// starts where the one before it ended or later.
pub open spec fn ranges_in_order(ranges: Seq<(usize, usize)>, text: Seq<char>) -> bool {
    &&& forall|i: int|
        0 <= i < ranges.len() ==> {
            &&& (#[trigger] ranges[i]).0 <= ranges[i].1
            &&& on_boundary(text, ranges[i].0 as nat)
            &&& on_boundary(text, ranges[i].1 as nat)
        }
    &&& forall|i: int, j: int|
        0 <= i < j < ranges.len() ==> (#[trigger] ranges[i]).1 <= (#[trigger] ranges[j]).0
}

/// Whether `later` comes behind `earlier` in a buffer: on a later line, or
/// on the same line where `earlier` ends or further to the right.
pub open spec fn comes_behind(earlier: SearchMatch, later: SearchMatch) -> bool {
    earlier.line < later.line || (earlier.line == later.line && earlier.end <= later.start)
}

/// Whether a match lies in a buffer: on one of its lines, and within the
/// text of that line.
pub open spec fn lies_in(m: SearchMatch, lines: Seq<LineView>) -> bool {
    m.line < lines.len() && m.start <= m.end <= lines[m.line as int].text().len()
}

/// Whether the matches of a list lie in a buffer and do not overlap, in
/// the order of the buffer: from the first line to the last, and from left
/// to right on each line.
pub open spec fn in_order(matches: Seq<SearchMatch>, lines: Seq<LineView>) -> bool {
    &&& forall|i: int| 0 <= i < matches.len() ==> lies_in(#[trigger] matches[i], lines)
    &&& forall|i: int, j: int|
        0 <= i < j < matches.len() ==> comes_behind(#[trigger] matches[i], #[trigger] matches[j])
}

/// Whether the matches of a list are on the line at `line`, within a text
/// of `length` characters, and do not overlap, from left to right.
pub open spec fn in_order_on_line(found: Seq<SearchMatch>, line: usize, length: nat) -> bool {
    &&& forall|i: int|
        0 <= i < found.len() ==> {
            &&& (#[trigger] found[i]).line == line
            &&& found[i].start <= found[i].end <= length
        }
    &&& forall|i: int, j: int|
        0 <= i < j < found.len() ==> (#[trigger] found[i]).end <= (#[trigger] found[j]).start
}

/// The matches of the line at `line` of a buffer, made of byte ranges that
/// are in order, lie on that line, within its text and in order; and a
/// range that is not empty gives a match that is not empty.
pub proof fn lemma_line_matches_in_order(
    line: usize,
    text: Seq<char>,
    ranges: Seq<(usize, usize)>,
)
    requires
        ranges_in_order(ranges, text),
        text.len() <= usize::MAX,
    ensures
        in_order_on_line(line_matches_spec(line, text, ranges), line, text.len()),
        forall|i: int|
            0 <= i < ranges.len() && ranges[i].0 < ranges[i].1 ==> (#[trigger] line_matches_spec(
                line,
                text,
                ranges,
            )[i]).start < line_matches_spec(line, text, ranges)[i].end,
{
    let found = line_matches_spec(line, text, ranges);
    assert forall|i: int| 0 <= i < found.len() implies {
        &&& (#[trigger] found[i]).line == line
        &&& found[i].start <= found[i].end <= text.len()
        &&& ranges[i].0 < ranges[i].1 ==> found[i].start < found[i].end
    } by {
        let r = ranges[i];
        lemma_chars_before_bound(text, r.0 as nat);
        lemma_chars_before_bound(text, r.1 as nat);
        lemma_chars_before_grows(text, r.0 as nat, r.1 as nat);
    }
    assert forall|i: int, j: int| 0 <= i < j < found.len() implies (#[trigger] found[i]).end <= (
    #[trigger] found[j]).start by {
        let a = ranges[i];
        let b = ranges[j];
        lemma_chars_before_bound(text, a.1 as nat);
        lemma_chars_before_bound(text, b.0 as nat);
        lemma_chars_before_grows(text, a.1 as nat, b.0 as nat);
    }
}

fn width_of(c: char) -> (n: usize)
    ensures
        n == utf8_width(c),
{
    let code = c as u32;
    if code < 0x80 {
        1
    } else if code < 0x800 {
        2
    } else if code < 0x10000 {
        3
    } else {
        4
    }
}

/// The character offset of a byte offset of a text.
pub fn char_offset(chars: &Vec<char>, byte: usize) -> (index: usize)
    ensures
        index == chars_before(chars@, byte as nat),
        index <= chars.len(),
{
    let mut index: usize = 0;
    let mut left: usize = byte;
    assert(chars@.skip(0) =~= chars@);
    while index < chars.len()
        invariant
            index <= chars.len(),
            left <= byte,
            chars_before(chars@, byte as nat) == index + chars_before(
                chars@.skip(index as int),
                left as nat,
            ),
        decreases chars.len() - index,
    {
        let width = width_of(chars[index]);
        let ghost rest = chars@.skip(index as int);
        assert(rest[0] == chars@[index as int]);
        if width > left {
            return index;
        }
        assert(rest.drop_first() =~= chars@.skip(index + 1));
        left = left - width;
        index = index + 1;
    }
    assert(chars@.skip(index as int).len() == 0);
    index
}

/// The match of one byte range on a line.
pub open spec fn match_at(line: usize, text: Seq<char>, range: (usize, usize)) -> SearchMatch {
    SearchMatch {
        line,
        start: chars_before(text, range.0 as nat) as usize,
        end: chars_before(text, range.1 as nat) as usize,
    }
}

/// The matches of a line, given the byte ranges that the engine found in
/// its text.
pub open spec fn line_matches_spec(line: usize, text: Seq<char>, ranges: Seq<(usize,
    usize)>) -> Seq<
    SearchMatch,
> {
    Seq::new(ranges.len(), |i: int| match_at(line, text, ranges[i]))
}

/// Turns the byte ranges that the engine found in the text of a line into
/// matches: one for each range, in order, with the line's index and the
/// offsets counted in characters.
pub fn line_matches(line: usize, text: &str, ranges: &Vec<(usize,
    usize)>) -> (found: Vec<SearchMatch>)
    ensures
        found@ == line_matches_spec(line, text@, ranges@),
        ranges_in_order(ranges@, text@) ==> in_order_on_line(found@, line, text@.len()),
{
    let chars = chars_of(text);
    proof {
        if ranges_in_order(ranges@, text@) {
            assert(text@.len() == chars.len());
            lemma_line_matches_in_order(line, text@, ranges@);
        }
    }
    let mut found: Vec<SearchMatch> = Vec::new();
    let ghost all = line_matches_spec(line, text@, ranges@);
    let mut i: usize = 0;
    assert(found@ =~= all.take(0));
    while i < ranges.len()
        invariant
            i <= ranges.len(),
            chars@ == text@,
            all == line_matches_spec(line, text@, ranges@),
            found@ == all.take(i as int),
        decreases ranges.len() - i,
    {
        let range = ranges[i];
        let m = SearchMatch {
            line,
            start: char_offset(&chars, range.0),
            end: char_offset(&chars, range.1),
        };
        assert(all[i as int] == m);
        found.push(m);
        assert(found@ =~= all.take(i + 1));
        i = i + 1;
    }
    assert(all.take(ranges.len() as int) =~= all);
    found
}

/// The matches of a pattern in a buffer: those of its lines, from the first
/// line to the last, each line's from left to right.
pub open spec fn buffer_matches(lines: Seq<LineView>, pattern: Seq<char>) -> Seq<SearchMatch>
    decreases lines.len(),
{
    if lines.len() == 0 {
        Seq::empty()
    } else {
        buffer_matches(lines.drop_last(), pattern) + line_matches_spec(
            (lines.len() - 1) as usize,
            lines.last().text(),
            match_ranges(pattern, lines.last().text()),
        )
    }
}

/// The pattern that a query stands for: the query itself where it is to be
/// read as a regular expression, else its escaped form.
pub open spec fn pattern_of(query: Seq<char>, is_regex: bool) -> Seq<char> {
    if is_regex {
        query
    } else {
        escaped(query)
    }
}

/// What a search yields. A regular expression that does not compile is an
/// error. A literal query never is: should its escaped form not compile, it
/// matches nothing.
pub open spec fn search_spec(lines: Seq<LineView>, query: Seq<char>, is_regex: bool) -> Result<
    Seq<SearchMatch>,
    SearchError,
> {
    let pattern = pattern_of(query, is_regex);
    if compiles(pattern) {
        Ok(buffer_matches(lines, pattern))
    } else if is_regex {
        Err(SearchError::InvalidPattern)
    } else {
        Ok(Seq::empty())
    }
}

/// The outcome of a search as a plain value.
pub open spec fn outcome_view(found: Result<Vec<SearchMatch>, SearchError>) -> Result<
    Seq<SearchMatch>,
    SearchError,
> {
    match found {
        Ok(matches) => Ok(matches@),
        Err(error) => Err(error),
    }
}

/// Matches in order stay in order when the matches of the next line, in
/// order themselves, are put behind them.
pub proof fn lemma_in_order_grows(
    found: Seq<SearchMatch>,
    here: Seq<SearchMatch>,
    lines: Seq<LineView>,
    longer: Seq<LineView>,
)
    requires
        in_order(found, lines),
        longer.len() == lines.len() + 1,
        longer.drop_last() == lines,
        lines.len() <= usize::MAX,
        in_order_on_line(here, lines.len() as usize, longer.last().text().len()),
    ensures
        in_order(found + here, longer),
{
    let all = found + here;
    assert forall|i: int| 0 <= i < all.len() implies lies_in(#[trigger] all[i], longer) by {
        if i < found.len() {
            assert(all[i] == found[i]);
            assert(lies_in(found[i], lines));
            assert(longer[found[i].line as int] == lines[found[i].line as int]);
        } else {
            assert(all[i] == here[i - found.len()]);
        }
    }
    assert forall|i: int, j: int| 0 <= i < j < all.len() implies comes_behind(
        #[trigger] all[i],
        #[trigger] all[j],
    ) by {
        if j < found.len() {
            assert(all[i] == found[i] && all[j] == found[j]);
        } else if i < found.len() {
            assert(all[i] == found[i]);
            assert(lies_in(found[i], lines));
            assert(all[j] == here[j - found.len()]);
        } else {
            assert(all[i] == here[i - found.len()]);
            assert(all[j] == here[j - found.len()]);
        }
    }
}

/// The matches of a compiled pattern in a buffer.
pub fn scan(buffer: &Vec<Line>, pattern: &Pattern) -> (found: Vec<SearchMatch>)
    ensures
        found@ == buffer_matches(buffer.deep_view(), pattern@),
        in_order(found@, buffer.deep_view()),
{
    let mut found: Vec<SearchMatch> = Vec::new();
    let mut i: usize = 0;
    assert(buffer.deep_view().take(0) =~= Seq::empty());
    while i < buffer.len()
        invariant
            i <= buffer.len(),
            found@ == buffer_matches(buffer.deep_view().take(i as int), pattern@),
            in_order(found@, buffer.deep_view().take(i as int)),
        decreases buffer.len() - i,
    {
        let text = buffer[i].text();
        let ranges = find_ranges(pattern, text.as_str());
        let mut here = line_matches(i, text.as_str(), &ranges);
        proof {
            let upto = buffer.deep_view().take(i + 1);
            assert(upto.drop_last() =~= buffer.deep_view().take(i as int));
            assert(upto.last() == buffer[i as int]@);
            lemma_in_order_grows(found@, here@, buffer.deep_view().take(i as int), upto);
        }
        found.append(&mut here);
        i = i + 1;
    }
    assert(buffer.deep_view().take(buffer.len() as int) =~= buffer.deep_view());
    found
}

/// Searches a buffer for a query, read as a regular expression or as
/// literal text.
pub fn find_matches(buffer: &Vec<Line>, query: &str, is_regex: bool) -> (found: Result<
    Vec<SearchMatch>,
    SearchError,
>)
    ensures
        outcome_view(found) == search_spec(buffer.deep_view(), query@, is_regex),
        found matches Ok(matches) ==> in_order(matches@, buffer.deep_view()),
{
    if is_regex {
        match compile(query) {
            Ok(pattern) => Ok(scan(buffer, &pattern)),
            Err(_) => Err(SearchError::InvalidPattern),
        }
    } else {
        let literal = escape(query);
        match compile(literal.as_str()) {
            Ok(pattern) => Ok(scan(buffer, &pattern)),
            Err(_) => Ok(Vec::new()),
        }
    }
}

/// Law: a literal search for a query finds what a search for its escaped
/// form as a regular expression finds, wherever that form compiles.
pub proof fn lemma_literal_search_is_escaped_regex_search(lines: Seq<LineView>, query: Seq<char>)
    requires
        compiles(escaped(query)),
    ensures
        search_spec(lines, query, false) == search_spec(lines, escaped(query), true),
{
}

} // verus!
