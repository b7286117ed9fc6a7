//! Helpers over strings as sequences of characters.

use vstd::prelude::*;

verus! {

/// The characters of a string slice, in order.
pub fn chars_of(s: &str) -> (v: Vec<char>)
    ensures
        v@ == s@,
{
    let mut v: Vec<char> = Vec::new();
    for c in it: s.chars()
        invariant
            it.seq() == s@,
            v@ == it.seq().take(it.index() as int),
    {
        v.push(c);
    }
    v
}

/// Collects characters into a string with std's `String::from_iter`, which
/// appends them one by one: the string holds exactly these characters.
#[verifier::external_body]
pub(crate) fn string_from_chars(chars: &Vec<char>) -> (s: String)
    ensures
        s@ == chars@,
{
    String::from_iter(chars.iter())
}

/// Whether two string slices hold the same characters.
pub fn str_eq(a: &str, b: &str) -> (same: bool)
    ensures
        same == (a@ == b@),
{
    a.to_owned() == b.to_owned()
}

/// What std's `str::to_lowercase` makes of a text.
pub uninterp spec fn lowercase_of(s: Seq<char>) -> Seq<char>;

/// The lower-case form of a text, by std's `str::to_lowercase`. The result
/// is a function of the text alone; it is named, not spelled out.
#[verifier::external_body]
pub(crate) fn to_lowercase(s: &str) -> (lower: String)
    ensures
        lower@ == lowercase_of(s@),
{
    s.to_lowercase()
}

/// The string made of `chars[from..to]`.
pub fn substring(chars: &Vec<char>, from: usize, to: usize) -> (s: String)
    requires
        from <= to <= chars.len(),
    ensures
        s@ == chars@.subrange(from as int, to as int),
{
    let mut part: Vec<char> = Vec::new();
    let mut i: usize = from;
    while i < to
        invariant
            from <= i <= to <= chars.len(),
            part@ == chars@.subrange(from as int, i as int),
        decreases to - i,
    {
        part.push(chars[i]);
        assert(part@ =~= chars@.subrange(from as int, i + 1));
        i = i + 1;
    }
    string_from_chars(&part)
}

/// Index of the first line feed of `s`, or its length where it has none.
pub open spec fn newline_index(s: Seq<char>) -> int
    decreases s.len(),
{
    if s.len() == 0 {
        0
    } else if s[0] == '\n' {
        0
    } else {
        1 + newline_index(s.drop_first())
    }
}

/// `line` without one carriage return at its end, if it has one.
pub open spec fn strip_cr(line: Seq<char>) -> Seq<char> {
    if line.len() > 0 && line.last() == '\r' {
        line.drop_last()
    } else {
        line
    }
}

/// The lines of a text. A line ends at a line feed, or at a carriage return
/// directly followed by a line feed; the terminator is not part of the line.
/// What follows the last line feed is a line of its own unless it is empty,
/// so a text with a final terminator has the same lines as one without.
pub open spec fn lines_of(s: Seq<char>) -> Seq<Seq<char>>
    decreases s.len(),
{
    let k = newline_index(s);
    if s.len() == 0 {
        Seq::empty()
    } else if k < 0 || k >= s.len() {
        seq![s]
    } else {
        seq![strip_cr(s.take(k))] + lines_of(s.skip(k + 1))
    }
}

/// Where `k` is the first position of `s` that holds a line feed, or the
/// length of a text without one, `newline_index` finds it.
pub proof fn lemma_newline_index(s: Seq<char>, k: int)
    requires
        0 <= k <= s.len(),
        forall|j: int| 0 <= j < k ==> s[j] != '\n',
        k == s.len() || s[k] == '\n',
    ensures
        newline_index(s) == k,
    decreases s.len(),
{
    if s.len() == 0 {
    } else if k == 0 {
    } else {
        let rest = s.drop_first();
        assert forall|j: int| 0 <= j < k - 1 implies rest[j] != '\n' by {
            assert(rest[j] == s[j + 1]);
        }
        lemma_newline_index(rest, k - 1);
    }
}

/// Splits a text into its lines, as `str::lines` does.
pub fn split_lines(s: &str) -> (lines: Vec<String>)
    ensures
        lines.deep_view() == lines_of(s@),
{
    let chars = chars_of(s);
    let n = chars.len();
    let mut lines: Vec<String> = Vec::new();
    let mut start: usize = 0;
    let mut i: usize = 0;
    assert(chars@.skip(0) =~= chars@);
    assert(lines.deep_view() + lines_of(chars@) =~= lines_of(chars@));
    while i < n
        invariant
            n == chars.len(),
            chars@ == s@,
            start <= i <= n,
            forall|j: int| start <= j < i ==> chars@[j] != '\n',
            lines.deep_view() + lines_of(chars@.skip(start as int)) == lines_of(chars@),
        decreases n - i,
    {
        if chars[i] == '\n' {
            let mut end: usize = i;
            if end > start && chars[end - 1] == '\r' {
                end = end - 1;
            }
            let line = substring(&chars, start, end);
            proof {
                let rest = chars@.skip(start as int);
                let k = i - start;
                assert forall|j: int| 0 <= j < k implies rest[j] != '\n' by {
                    assert(rest[j] == chars@[start + j]);
                }
                lemma_newline_index(rest, k);
                assert(rest.take(k) =~= chars@.subrange(start as int, i as int));
                assert(line@ =~= strip_cr(rest.take(k)));
                assert(rest.skip(k + 1) =~= chars@.skip(i + 1));
                assert(lines.deep_view().push(line@) + lines_of(chars@.skip(i + 1))
                    =~= lines.deep_view() + lines_of(rest));
            }
            let ghost before = lines.deep_view();
            lines.push(line);
            assert(lines.deep_view() =~= before.push(line@));
            start = i + 1;
        }
        i = i + 1;
    }
    if start < n {
        let line = substring(&chars, start, n);
        proof {
            let rest = chars@.skip(start as int);
            assert forall|j: int| 0 <= j < rest.len() implies rest[j] != '\n' by {
                assert(rest[j] == chars@[start + j]);
            }
            lemma_newline_index(rest, rest.len() as int);
            assert(line@ =~= rest);
            assert(lines_of(rest) =~= seq![rest]);
        }
        let ghost before = lines.deep_view();
        lines.push(line);
        assert(lines.deep_view() =~= before.push(line@));
        assert(before.push(line@) =~= before + seq![line@]);
    } else {
        assert(chars@.skip(start as int).len() == 0);
        assert(lines.deep_view() + Seq::<Seq<char>>::empty() =~= lines.deep_view());
    }
    lines
}

/// `a` followed by `b`, as a new string.
pub fn str_concat(a: &str, b: &str) -> (s: String)
    ensures
        s@ == a@ + b@,
{
    let mut s = String::from_str(a);
    s.append(b);
    s
}

/// The decimal digits of `n`, most significant first, without leading zeros.
pub open spec fn decimal_of(n: nat) -> Seq<char>
    decreases n,
{
    if n < 10 {
        seq![digit_char(n)]
    } else {
        decimal_of(n / 10).push(digit_char(n % 10))
    }
}

/// The character of one decimal digit.
pub open spec fn digit_char(d: nat) -> char {
    if d == 0 {
        '0'
    } else if d == 1 {
        '1'
    } else if d == 2 {
        '2'
    } else if d == 3 {
        '3'
    } else if d == 4 {
        '4'
    } else if d == 5 {
        '5'
    } else if d == 6 {
        '6'
    } else if d == 7 {
        '7'
    } else if d == 8 {
        '8'
    } else {
        '9'
    }
}

fn digit(d: u8) -> (c: char)
    requires
        d < 10,
    ensures
        c == digit_char(d as nat),
{
    if d == 0 {
        '0'
    } else if d == 1 {
        '1'
    } else if d == 2 {
        '2'
    } else if d == 3 {
        '3'
    } else if d == 4 {
        '4'
    } else if d == 5 {
        '5'
    } else if d == 6 {
        '6'
    } else if d == 7 {
        '7'
    } else if d == 8 {
        '8'
    } else {
        '9'
    }
}

/// `n` written in decimal.
pub fn decimal(n: u128) -> (s: String)
    ensures
        s@ == decimal_of(n as nat),
{
    // Digits are produced least significant first, then reversed.
    let mut rev: Vec<char> = Vec::new();
    let mut rest: u128 = n;
    while rest >= 10
        invariant
            decimal_of(n as nat) == decimal_of(rest as nat) + rev@.reverse(),
        decreases rest,
    {
        let d = (rest % 10) as u8;
        let ghost before = rev@;
        rev.push(digit(d));
        proof {
            assert(rev@.reverse() =~= seq![digit_char((rest % 10) as nat)] + before.reverse());
            assert(decimal_of(rest as nat) =~= decimal_of((rest / 10) as nat) + seq![
                digit_char((rest % 10) as nat),
            ]);
            assert(decimal_of((rest / 10) as nat) + rev@.reverse() =~= decimal_of(rest as nat)
                + before.reverse());
        }
        rest = rest / 10;
    }
    let ghost before = rev@;
    rev.push(digit(rest as u8));
    assert(rev@.reverse() =~= decimal_of(rest as nat) + before.reverse());
    let mut out: Vec<char> = Vec::new();
    let mut i: usize = rev.len();
    while i > 0
        invariant
            i <= rev.len(),
            out@ == rev@.reverse().take(rev.len() - i),
        decreases i,
    {
        i = i - 1;
        out.push(rev[i]);
        assert(out@ =~= rev@.reverse().take(rev.len() - i));
    }
    assert(out@ =~= rev@.reverse());
    string_from_chars(&out)
}

/// Whether a character is white space: one of the characters with the
/// Unicode property `White_Space`, which are the tab, the line feed, the
/// vertical tab, the form feed, the carriage return, the space, the next
/// line character, the no-break space, the Ogham space mark, the spaces of
/// fixed width, the line and the paragraph separator, the narrow no-break
/// space, the medium mathematical space and the ideographic space.
pub open spec fn is_space(c: char) -> bool {
    let code = c as u32;
    (0x09 <= code <= 0x0D) || code == 0x20 || code == 0x85 || code == 0xA0 || code == 0x1680 || (
    0x2000 <= code <= 0x200A) || code == 0x2028 || code == 0x2029 || code == 0x202F || code
        == 0x205F || code == 0x3000
}

/// `char::is_whitespace`: whether a character has the Unicode property
/// `White_Space`.
#[verifier::external_body]
pub(crate) fn is_whitespace(c: char) -> (space: bool)
    ensures
        space == is_space(c),
{
    c.is_whitespace()
}

/// Whether `chars` starts with the characters of `prefix`.
pub fn has_prefix(chars: &Vec<char>, prefix: &Vec<char>) -> (found: bool)
    ensures
        found == prefix@.is_prefix_of(chars@),
{
    if prefix.len() > chars.len() {
        return false;
    }
    let mut i: usize = 0;
    while i < prefix.len()
        invariant
            i <= prefix.len() <= chars.len(),
            forall|j: int| 0 <= j < i ==> prefix@[j] == chars@[j],
        decreases prefix.len() - i,
    {
        if prefix[i] != chars[i] {
            assert(chars@.subrange(0, prefix.len() as int)[i as int] == chars@[i as int]);
            return false;
        }
        i = i + 1;
    }
    assert(prefix@ =~= chars@.subrange(0, prefix.len() as int));
    true
}

/// Whether `chars` ends with the characters of `suffix`.
pub fn has_suffix(chars: &Vec<char>, suffix: &Vec<char>) -> (found: bool)
    ensures
        found == suffix@.is_suffix_of(chars@),
{
    if suffix.len() > chars.len() {
        return false;
    }
    let offset = chars.len() - suffix.len();
    let mut i: usize = 0;
    while i < suffix.len()
        invariant
            i <= suffix.len() <= chars.len(),
            offset == chars.len() - suffix.len(),
            forall|j: int| 0 <= j < i ==> suffix@[j] == chars@[offset + j],
        decreases suffix.len() - i,
    {
        if suffix[i] != chars[offset + i] {
            assert(chars@.subrange(offset as int, chars.len() as int)[i as int] == chars@[offset
                + i]);
            return false;
        }
        i = i + 1;
    }
    assert(suffix@ =~= chars@.subrange(offset as int, chars.len() as int));
    true
}

/// Whether a text starts with `prefix`.
pub fn starts_with(s: &str, prefix: &str) -> (found: bool)
    ensures
        found == prefix@.is_prefix_of(s@),
{
    has_prefix(&chars_of(s), &chars_of(prefix))
}

/// Whether a text ends with `suffix`.
pub fn ends_with(s: &str, suffix: &str) -> (found: bool)
    ensures
        found == suffix@.is_suffix_of(s@),
{
    has_suffix(&chars_of(s), &chars_of(suffix))
}

/// Whether `needle` occurs in `s` at the position `at`.
pub open spec fn occurs_at(s: Seq<char>, needle: Seq<char>, at: int) -> bool {
    0 <= at && at + needle.len() <= s.len() && s.subrange(at, at + needle.len()) == needle
}

/// Whether `needle` occurs somewhere in `s`.
pub open spec fn occurs_in(s: Seq<char>, needle: Seq<char>) -> bool {
    exists|at: int| occurs_at(s, needle, at)
}

fn matches_at(chars: &Vec<char>, needle: &Vec<char>, at: usize) -> (found: bool)
    requires
        at + needle.len() <= chars.len(),
    ensures
        found == occurs_at(chars@, needle@, at as int),
{
    let mut i: usize = 0;
    while i < needle.len()
        invariant
            i <= needle.len(),
            at + needle.len() <= chars.len(),
            forall|j: int| 0 <= j < i ==> needle@[j] == chars@[at + j],
        decreases needle.len() - i,
    {
        if needle[i] != chars[at + i] {
            assert(chars@.subrange(at as int, at + needle.len())[i as int] == chars@[at + i]);
            return false;
        }
        i = i + 1;
    }
    assert(needle@ =~= chars@.subrange(at as int, at + needle.len()));
    true
}

/// Whether `needle` occurs somewhere in a text.
pub fn contains(s: &str, needle: &str) -> (found: bool)
    ensures
        found == occurs_in(s@, needle@),
{
    let chars = chars_of(s);
    let pattern = chars_of(needle);
    if pattern.len() > chars.len() {
        return false;
    }
    if pattern.len() == 0 {
        assert(s@.subrange(0, 0) =~= needle@);
        assert(occurs_at(s@, needle@, 0));
        return true;
    }
    let last = chars.len() - pattern.len();
    let mut at: usize = 0;
    while at <= last
        invariant
            at <= last + 1,
            last == chars.len() - pattern.len(),
            pattern.len() > 0,
            chars@ == s@,
            pattern@ == needle@,
            forall|k: int| 0 <= k < at ==> !occurs_at(s@, needle@, k),
        decreases last + 1 - at,
    {
        if matches_at(&chars, &pattern, at) {
            return true;
        }
        at = at + 1;
    }
    false
}

/// `s` without the white space at its start.
pub open spec fn trim_start_of(s: Seq<char>) -> Seq<char>
    decreases s.len(),
{
    if s.len() > 0 && is_space(s[0]) {
        trim_start_of(s.drop_first())
    } else {
        s
    }
}

/// `s` without the white space at its end.
pub open spec fn trim_end_of(s: Seq<char>) -> Seq<char>
    decreases s.len(),
{
    if s.len() > 0 && is_space(s.last()) {
        trim_end_of(s.drop_last())
    } else {
        s
    }
}

/// `s` without the white space at its start and at its end.
pub open spec fn trimmed(s: Seq<char>) -> Seq<char> {
    trim_end_of(trim_start_of(s))
}

/// The characters of a text without the white space at its start and at
/// its end, as `str::trim` leaves them.
pub fn trim(s: &str) -> (out: Vec<char>)
    ensures
        out@ == trimmed(s@),
{
    let chars = chars_of(s);
    let mut from: usize = 0;
    assert(chars@.skip(0) =~= chars@);
    while from < chars.len() && is_whitespace(chars[from])
        invariant
            from <= chars.len(),
            trim_start_of(chars@) == trim_start_of(chars@.skip(from as int)),
        decreases chars.len() - from,
    {
        assert(chars@.skip(from as int).drop_first() =~= chars@.skip(from + 1));
        from = from + 1;
    }
    let ghost rest = chars@.skip(from as int);
    assert(trim_start_of(chars@) == rest) by {
        if from < chars.len() {
            assert(rest[0] == chars@[from as int]);
        }
    }
    let mut to: usize = chars.len();
    assert(chars@.subrange(from as int, to as int) =~= rest);
    while to > from && is_whitespace(chars[to - 1])
        invariant
            from <= to <= chars.len(),
            trim_end_of(rest) == trim_end_of(chars@.subrange(from as int, to as int)),
        decreases to,
    {
        assert(chars@.subrange(from as int, to as int).last() == chars@[to - 1]);
        assert(chars@.subrange(from as int, to as int).drop_last() =~= chars@.subrange(
            from as int,
            to - 1,
        ));
        to = to - 1;
    }
    assert(trim_end_of(rest) == chars@.subrange(from as int, to as int)) by {
        if to > from {
            assert(chars@.subrange(from as int, to as int).last() == chars@[to - 1]);
        }
    }
    slice_of(&chars, from, to)
}

/// The characters `chars[from..to]`.
pub fn slice_of(chars: &Vec<char>, from: usize, to: usize) -> (part: Vec<char>)
    requires
        from <= to <= chars.len(),
    ensures
        part@ == chars@.subrange(from as int, to as int),
{
    let mut part: Vec<char> = Vec::new();
    let mut i: usize = from;
    while i < to
        invariant
            from <= i <= to <= chars.len(),
            part@ == chars@.subrange(from as int, i as int),
        decreases to - i,
    {
        part.push(chars[i]);
        assert(part@ =~= chars@.subrange(from as int, i + 1));
        i = i + 1;
    }
    part
}

/// `s` without the run of the character `c` at its end.
pub open spec fn without_trailing(s: Seq<char>, c: char) -> Seq<char>
    decreases s.len(),
{
    if s.len() > 0 && s.last() == c {
        without_trailing(s.drop_last(), c)
    } else {
        s
    }
}

/// The characters without the run of the character `c` at their end.
pub fn strip_trailing(chars: &Vec<char>, c: char) -> (out: Vec<char>)
    ensures
        out@ == without_trailing(chars@, c),
{
    let mut to: usize = chars.len();
    assert(chars@.subrange(0, to as int) =~= chars@);
    while to > 0 && chars[to - 1] == c
        invariant
            to <= chars.len(),
            without_trailing(chars@, c) == without_trailing(chars@.subrange(0, to as int), c),
        decreases to,
    {
        assert(chars@.subrange(0, to as int).last() == chars@[to - 1]);
        assert(chars@.subrange(0, to as int).drop_last() =~= chars@.subrange(0, to - 1));
        to = to - 1;
    }
    assert(without_trailing(chars@, c) == chars@.subrange(0, to as int)) by {
        if to > 0 {
            assert(chars@.subrange(0, to as int).last() == chars@[to - 1]);
        }
    }
    slice_of(chars, 0, to)
}

/// Index of the first `sep` of `s`, or its length where it has none.
pub open spec fn index_of(s: Seq<char>, sep: char) -> int
    decreases s.len(),
{
    if s.len() == 0 || s[0] == sep {
        0
    } else {
        1 + index_of(s.drop_first(), sep)
    }
}

/// Where `k` is the first position of `s` that holds `sep`, or the length
/// of a text without one, `index_of` finds it.
pub proof fn lemma_index_of(s: Seq<char>, sep: char, k: int)
    requires
        0 <= k <= s.len(),
        forall|j: int| 0 <= j < k ==> s[j] != sep,
        k == s.len() || s[k] == sep,
    ensures
        index_of(s, sep) == k,
    decreases s.len(),
{
    if s.len() == 0 || k == 0 {
    } else {
        let rest = s.drop_first();
        assert forall|j: int| 0 <= j < k - 1 implies rest[j] != sep by {
            assert(rest[j] == s[j + 1]);
        }
        lemma_index_of(rest, sep, k - 1);
    }
}

/// The parts of `s` between its separators `sep`: one part more than there
/// are separators, so at least one.
pub open spec fn split_on(s: Seq<char>, sep: char) -> Seq<Seq<char>>
    decreases s.len(),
{
    let k = index_of(s, sep);
    if k < 0 || k >= s.len() {
        seq![s]
    } else {
        seq![s.take(k)] + split_on(s.skip(k + 1), sep)
    }
}

/// Splits characters at each `sep`, as `str::split` does.
pub fn split(chars: &Vec<char>, sep: char) -> (parts: Vec<Vec<char>>)
    ensures
        parts.deep_view() == split_on(chars@, sep),
{
    let n = chars.len();
    let mut parts: Vec<Vec<char>> = Vec::new();
    let mut start: usize = 0;
    let mut i: usize = 0;
    assert(chars@.skip(0) =~= chars@);
    assert(parts.deep_view() + split_on(chars@, sep) =~= split_on(chars@, sep));
    while i < n
        invariant
            n == chars.len(),
            start <= i <= n,
            forall|j: int| start <= j < i ==> chars@[j] != sep,
            parts.deep_view() + split_on(chars@.skip(start as int), sep) == split_on(chars@, sep),
        decreases n - i,
    {
        if chars[i] == sep {
            let part = slice_of(chars, start, i);
            proof {
                let rest = chars@.skip(start as int);
                let k = i - start;
                assert forall|j: int| 0 <= j < k implies rest[j] != sep by {
                    assert(rest[j] == chars@[start + j]);
                }
                lemma_index_of(rest, sep, k);
                assert(rest.take(k) =~= part@);
                assert(rest.skip(k + 1) =~= chars@.skip(i + 1));
                assert(parts.deep_view().push(part@) + split_on(chars@.skip(i + 1), sep)
                    =~= parts.deep_view() + split_on(rest, sep));
            }
            let ghost before = parts.deep_view();
            assert(part.deep_view() =~= part@);
            parts.push(part);
            assert(parts.deep_view() =~= before.push(part@));
            start = i + 1;
        }
        i = i + 1;
    }
    let part = slice_of(chars, start, n);
    proof {
        let rest = chars@.skip(start as int);
        assert forall|j: int| 0 <= j < rest.len() implies rest[j] != sep by {
            assert(rest[j] == chars@[start + j]);
        }
        lemma_index_of(rest, sep, rest.len() as int);
        assert(part@ =~= rest);
    }
    let ghost before = parts.deep_view();
    assert(part.deep_view() =~= part@);
    parts.push(part);
    assert(parts.deep_view() =~= before.push(part@));
    assert(before.push(part@) =~= before + seq![part@]);
    parts
}

/// The parts put together, with `sep` between each two.
pub open spec fn joined(parts: Seq<Seq<char>>, sep: Seq<char>) -> Seq<char>
    decreases parts.len(),
{
    if parts.len() == 0 {
        Seq::empty()
    } else if parts.len() == 1 {
        parts[0]
    } else {
        joined(parts.drop_last(), sep) + sep + parts.last()
    }
}

/// Puts `parts[from..]` together, with `sep` between each two.
pub fn join_from(parts: &Vec<Vec<char>>, from: usize, sep: &Vec<char>) -> (out: Vec<char>)
    requires
        from <= parts.len(),
    ensures
        out@ == joined(parts.deep_view().skip(from as int), sep@),
{
    let mut out: Vec<char> = Vec::new();
    let mut i: usize = from;
    let ghost tail = parts.deep_view().skip(from as int);
    assert(tail.take(0) =~= Seq::<Seq<char>>::empty());
    while i < parts.len()
        invariant
            from <= i <= parts.len(),
            tail == parts.deep_view().skip(from as int),
            out@ == joined(tail.take(i - from), sep@),
        decreases parts.len() - i,
    {
        let ghost upto = tail.take(i + 1 - from);
        assert(upto.drop_last() =~= tail.take(i - from));
        assert(parts[i as int].deep_view() =~= parts[i as int]@);
        assert(upto.last() == parts[i as int]@);
        if i > from {
            append_chars(&mut out, sep);
        }
        append_chars(&mut out, &parts[i]);
        assert(out@ =~= joined(upto, sep@));
        i = i + 1;
    }
    assert(tail.take(parts.len() - from) =~= tail);
    out
}

/// Appends `more` to `out`.
pub fn append_chars(out: &mut Vec<char>, more: &Vec<char>)
    ensures
        final(out)@ == old(out)@ + more@,
{
    let mut i: usize = 0;
    assert(out@ =~= old(out)@ + more@.take(0));
    while i < more.len()
        invariant
            i <= more.len(),
            out@ == old(out)@ + more@.take(i as int),
        decreases more.len() - i,
    {
        out.push(more[i]);
        assert(out@ =~= old(out)@ + more@.take(i + 1));
        i = i + 1;
    }
    assert(more@.take(more.len() as int) =~= more@);
}

} // verus!
