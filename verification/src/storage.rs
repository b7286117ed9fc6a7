//! The history of opened documents and the bookmarks, as values. Reading
//! and writing them on disk is left to the caller.

use crate::text::str_eq;
use std::time::{SystemTime, UNIX_EPOCH};
use vstd::prelude::*;

verus! {

/// A document that was opened, by file path or URL.
#[derive(Debug)]
pub struct HistoryEntry {
    pub location: String,
    /// Whether the location is a URL, not a local file.
    pub is_url: bool,
    pub display_name: String,
    /// When it was last opened, in seconds since the Unix epoch.
    pub last_accessed: u64,
}

/// Mathematical model of a [`HistoryEntry`].
pub ghost struct HistoryEntryView {
    pub location: Seq<char>,
    pub is_url: bool,
    pub display_name: Seq<char>,
    pub last_accessed: u64,
}

impl DeepView for HistoryEntry {
    type V = HistoryEntryView;

    open spec fn deep_view(&self) -> HistoryEntryView {
        HistoryEntryView {
            location: self.location@,
            is_url: self.is_url,
            display_name: self.display_name@,
            last_accessed: self.last_accessed,
        }
    }
}

impl View for HistoryEntry {
    type V = HistoryEntryView;

    open spec fn view(&self) -> HistoryEntryView {
        self.deep_view()
    }
}

impl Clone for HistoryEntry {
    fn clone(&self) -> (r: Self)
        ensures
            r == *self,
    {
        HistoryEntry {
            location: self.location.clone(),
            is_url: self.is_url,
            display_name: self.display_name.clone(),
            last_accessed: self.last_accessed,
        }
    }
}

/// A bookmarked document.
#[derive(Debug)]
pub struct Bookmark {
    pub location: String,
    /// Whether the location is a URL, not a local file.
    pub is_url: bool,
    pub name: String,
    /// When it was bookmarked, in seconds since the Unix epoch.
    pub created_at: u64,
}

/// Mathematical model of a [`Bookmark`].
pub ghost struct BookmarkView {
    pub location: Seq<char>,
    pub is_url: bool,
    pub name: Seq<char>,
    pub created_at: u64,
}

impl DeepView for Bookmark {
    type V = BookmarkView;

    open spec fn deep_view(&self) -> BookmarkView {
        BookmarkView {
            location: self.location@,
            is_url: self.is_url,
            name: self.name@,
            created_at: self.created_at,
        }
    }
}

impl View for Bookmark {
    type V = BookmarkView;

    open spec fn view(&self) -> BookmarkView {
        self.deep_view()
    }
}

impl Clone for Bookmark {
    fn clone(&self) -> (r: Self)
        ensures
            r == *self,
    {
        Bookmark {
            location: self.location.clone(),
            is_url: self.is_url,
            name: self.name.clone(),
            created_at: self.created_at,
        }
    }
}

/// Reads the clock with `SystemTime::now`: the seconds since the Unix epoch,
/// or 0 where the clock is set before it. Nothing is claimed of the result.
#[verifier::external_body]
fn unix_time() -> (seconds: u64) {
    SystemTime::now().duration_since(UNIX_EPOCH).unwrap_or_default().as_secs()
}

/// The number of entries that a new history keeps.
pub fn default_max_entries() -> (max: usize)
    ensures
        max == 100,
{
    100
}

/// Index of the first entry with the given location, or the length where
/// there is none.
pub open spec fn entry_index(entries: Seq<HistoryEntryView>, location: Seq<char>) -> int
    decreases entries.len(),
{
    if entries.len() == 0 {
        0
    } else if entries[0].location == location {
        0
    } else {
        1 + entry_index(entries.drop_first(), location)
    }
}

/// `entry_index` finds the first position that holds the location.
pub proof fn lemma_entry_index(entries: Seq<HistoryEntryView>, location: Seq<char>, k: int)
    requires
        0 <= k <= entries.len(),
        forall|j: int| 0 <= j < k ==> entries[j].location != location,
        k == entries.len() || entries[k].location == location,
    ensures
        entry_index(entries, location) == k,
    decreases entries.len(),
{
    if entries.len() == 0 || k == 0 {
    } else {
        let rest = entries.drop_first();
        assert forall|j: int| 0 <= j < k - 1 implies rest[j].location != location by {
            assert(rest[j] == entries[j + 1]);
        }
        lemma_entry_index(rest, location, k - 1);
    }
}

/// The entries after a visit: the first entry of that location gets the new
/// name and time, and where there is none, a new entry is added at the end.
pub open spec fn visited(
    entries: Seq<HistoryEntryView>,
    location: Seq<char>,
    is_url: bool,
    display_name: Seq<char>,
    now: u64,
) -> Seq<HistoryEntryView> {
    let i = entry_index(entries, location);
    if 0 <= i < entries.len() {
        entries.update(i, HistoryEntryView { display_name, last_accessed: now, ..entries[i] })
    } else {
        entries.push(HistoryEntryView { location, is_url, display_name, last_accessed: now })
    }
}

/// `sorted` with one more entry, put behind every entry that is not older
/// than it.
pub open spec fn insert_by_recency(sorted: Seq<HistoryEntryView>, entry: HistoryEntryView) -> Seq<
    HistoryEntryView,
>
    decreases sorted.len(),
{
    if sorted.len() == 0 {
        seq![entry]
    } else if sorted.last().last_accessed >= entry.last_accessed {
        sorted.push(entry)
    } else {
        insert_by_recency(sorted.drop_last(), entry).push(sorted.last())
    }
}

/// The entries with the most recent first; entries of the same time keep
/// their order.
pub open spec fn sort_by_recency(entries: Seq<HistoryEntryView>) -> Seq<HistoryEntryView>
    decreases entries.len(),
{
    if entries.len() == 0 {
        Seq::empty()
    } else {
        insert_by_recency(sort_by_recency(entries.drop_last()), entries.last())
    }
}

/// Whether no entry is older than the one after it.
pub open spec fn is_recent_first(entries: Seq<HistoryEntryView>) -> bool {
    forall|i: int, j: int|
        0 <= i < j < entries.len() ==> entries[i].last_accessed >= entries[j].last_accessed
}

/// The first `max` entries, or all where there are fewer.
pub open spec fn capped(entries: Seq<HistoryEntryView>, max: usize) -> Seq<HistoryEntryView> {
    if entries.len() > max {
        entries.take(max as int)
    } else {
        entries
    }
}

/// Inserting at the position behind the last entry that is not older gives
/// `insert_by_recency`.
proof fn lemma_insert_position(sorted: Seq<HistoryEntryView>, entry: HistoryEntryView, k: int)
    requires
        0 <= k <= sorted.len(),
        forall|j: int| k <= j < sorted.len() ==> sorted[j].last_accessed < entry.last_accessed,
        k == 0 || sorted[k - 1].last_accessed >= entry.last_accessed,
    ensures
        insert_by_recency(sorted, entry) == sorted.insert(k, entry),
    decreases sorted.len(),
{
    if sorted.len() == 0 {
        assert(sorted.insert(0, entry) =~= seq![entry]);
    } else if k == sorted.len() {
        assert(sorted.insert(k, entry) =~= sorted.push(entry));
    } else {
        lemma_insert_position(sorted.drop_last(), entry, k);
        assert(sorted.insert(k, entry) =~= sorted.drop_last().insert(k, entry).push(sorted.last()));
    }
}

/// Law: inserting into a list with the most recent first keeps it so, with
/// one entry more.
pub proof fn lemma_insert_keeps_order(sorted: Seq<HistoryEntryView>, entry: HistoryEntryView)
    requires
        is_recent_first(sorted),
    ensures
        is_recent_first(insert_by_recency(sorted, entry)),
        insert_by_recency(sorted, entry).len() == sorted.len() + 1,
        insert_by_recency(sorted, entry).to_multiset() == sorted.to_multiset().insert(entry),
    decreases sorted.len(),
{
    broadcast use vstd::seq_lib::group_to_multiset_ensures;

    if sorted.len() == 0 {
        assert(seq![entry] =~= Seq::<HistoryEntryView>::empty().push(entry));
    } else if sorted.last().last_accessed >= entry.last_accessed {
    } else {
        let front = sorted.drop_last();
        lemma_insert_keeps_order(front, entry);
        let inner = insert_by_recency(front, entry);
        let out = inner.push(sorted.last());
        assert(sorted =~= front.push(sorted.last()));
        assert forall|i: int, j: int| 0 <= i < j < out.len() implies out[i].last_accessed
            >= out[j].last_accessed by {
            if j < inner.len() {
            } else {
                // Every entry of `inner` is `entry` or an entry of `front`.
                assert(inner.to_multiset().count(inner[i]) > 0);
                if inner[i] != entry {
                    assert(front.to_multiset().count(inner[i]) > 0);
                    let k = choose|k: int| 0 <= k < front.len() && front[k] == inner[i];
                    assert(sorted[k] == front[k]);
                }
            }
        }
    }
}

/// Law: sorting yields the same entries, the most recent first.
pub proof fn lemma_sort_by_recency(entries: Seq<HistoryEntryView>)
    ensures
        is_recent_first(sort_by_recency(entries)),
        sort_by_recency(entries).len() == entries.len(),
        sort_by_recency(entries).to_multiset() == entries.to_multiset(),
    decreases entries.len(),
{
    broadcast use vstd::seq_lib::group_to_multiset_ensures;

    if entries.len() == 0 {
    } else {
        lemma_sort_by_recency(entries.drop_last());
        lemma_insert_keeps_order(sort_by_recency(entries.drop_last()), entries.last());
        assert(entries =~= entries.drop_last().push(entries.last()));
    }
}

/// The recently opened documents, the most recent first.
#[derive(Debug)]
pub struct History {
    pub entries: Vec<HistoryEntry>,
    /// The number of entries that are kept.
    pub max_entries: usize,
}

/// Mathematical model of a [`History`].
pub ghost struct HistoryView {
    pub entries: Seq<HistoryEntryView>,
    pub max_entries: usize,
}

impl DeepView for History {
    type V = HistoryView;

    open spec fn deep_view(&self) -> HistoryView {
        HistoryView { entries: self.entries.deep_view(), max_entries: self.max_entries }
    }
}

impl View for History {
    type V = HistoryView;

    open spec fn view(&self) -> HistoryView {
        self.deep_view()
    }
}

impl HistoryView {
    /// The history after a visit at the time `now`.
    pub open spec fn add(
        self,
        location: Seq<char>,
        is_url: bool,
        display_name: Seq<char>,
        now: u64,
    ) -> HistoryView {
        HistoryView {
            entries: capped(
                sort_by_recency(visited(self.entries, location, is_url, display_name, now)),
                self.max_entries,
            ),
            ..self
        }
    }
}

impl History {
    /// An empty history that keeps 100 entries.
    pub fn new() -> (history: History)
        ensures
            history@ == (HistoryView { entries: Seq::empty(), max_entries: 100 }),
    {
        let history = History { entries: Vec::new(), max_entries: default_max_entries() };
        assert(history.entries.deep_view() =~= Seq::empty());
        history
    }

    /// Sorts the entries, the most recent first. Entries of the same time
    /// keep their order.
    pub fn sort_entries(&mut self)
        ensures
            final(self)@ == (HistoryView {
                entries: sort_by_recency(old(self)@.entries),
                ..old(self)@
            }),
    {
        let mut sorted: Vec<HistoryEntry> = Vec::new();
        let mut i: usize = 0;
        assert(self.entries.deep_view().take(0) =~= Seq::empty());
        assert(sorted.deep_view() =~= Seq::empty());
        while i < self.entries.len()
            invariant
                i <= self.entries.len(),
                *self == *old(self),
                sorted.len() == i,
                sorted.deep_view() == sort_by_recency(self.entries.deep_view().take(i as int)),
            decreases self.entries.len() - i,
        {
            let entry = self.entries[i].clone();
            let mut k: usize = sorted.len();
            while k > 0 && sorted[k - 1].last_accessed < entry.last_accessed
                invariant
                    k <= sorted.len(),
                    forall|j: int|
                        k <= j < sorted.len() ==> sorted[j].last_accessed < entry.last_accessed,
                decreases k,
            {
                k = k - 1;
            }
            proof {
                let upto = self.entries.deep_view().take(i + 1);
                assert(upto.drop_last() =~= self.entries.deep_view().take(i as int));
                assert(upto.last() == entry@);
                assert forall|j: int| k <= j < sorted.len()
                    implies sorted.deep_view()[j].last_accessed
                    < entry@.last_accessed by {
                    assert(sorted.deep_view()[j] == sorted[j]@);
                }
                if k > 0 {
                    assert(sorted.deep_view()[k - 1] == sorted[k - 1]@);
                }
                lemma_insert_position(sorted.deep_view(), entry@, k as int);
            }
            let ghost before = sorted.deep_view();
            sorted.insert(k, entry);
            assert(sorted.deep_view() =~= before.insert(k as int, entry@));
            i = i + 1;
        }
        assert(self.entries.deep_view().take(self.entries.len() as int)
            =~= self.entries.deep_view());
        self.entries = sorted;
    }

    /// Records a visit at the current time. See [`History::add_at`].
    pub fn add(&mut self, location: &str, is_url: bool, display_name: &str)
        ensures
            exists|now: u64|
                final(self)@ == #[trigger] old(self)@.add(location@, is_url, display_name@, now),
    {
        let now = unix_time();
        self.add_at(location, is_url, display_name, now);
    }

    /// Records a visit at the time `now`. The first entry of that location
    /// gets the new name and time; where there is none, a new entry is made.
    /// Then the entries are sorted, the most recent first, and all but the
    /// first `max_entries` are dropped.
    pub fn add_at(&mut self, location: &str, is_url: bool, display_name: &str, now: u64)
        ensures
            final(self)@ == old(self)@.add(location@, is_url, display_name@, now),
    {
        let ghost before = self.entries.deep_view();
        let mut i: usize = 0;
        while i < self.entries.len() && !str_eq(self.entries[i].location.as_str(), location)
            invariant
                i <= self.entries.len(),
                *self == *old(self),
                before == self.entries.deep_view(),
                forall|j: int| 0 <= j < i ==> before[j].location != location@,
            decreases self.entries.len() - i,
        {
            assert(before[i as int] == self.entries[i as int]@);
            i = i + 1;
        }
        proof {
            if i < self.entries.len() {
                assert(before[i as int] == self.entries[i as int]@);
            }
            lemma_entry_index(before, location@, i as int);
        }
        if i < self.entries.len() {
            let entry = HistoryEntry {
                location: self.entries[i].location.clone(),
                is_url: self.entries[i].is_url,
                display_name: String::from_str(display_name),
                last_accessed: now,
            };
            self.entries.set(i, entry);
            assert(self.entries.deep_view() =~= before.update(i as int, entry@));
        } else {
            let entry = HistoryEntry {
                location: String::from_str(location),
                is_url,
                display_name: String::from_str(display_name),
                last_accessed: now,
            };
            self.entries.push(entry);
            assert(self.entries.deep_view() =~= before.push(entry@));
        }
        self.sort_entries();
        let ghost sorted = self.entries.deep_view();
        if self.entries.len() > self.max_entries {
            self.entries.truncate(self.max_entries);
            assert(self.entries.deep_view() =~= sorted.take(self.max_entries as int));
        }
    }

    /// The entries, the most recent first.
    pub fn entries(&self) -> (entries: &[HistoryEntry])
        ensures
            entries@ == self.entries@,
    {
        self.entries.as_slice()
    }

    /// Forgets every entry.
    pub fn clear(&mut self)
        ensures
            final(self)@ == (HistoryView { entries: Seq::empty(), ..old(self)@ }),
    {
        self.entries.clear();
        assert(self.entries.deep_view() =~= Seq::empty());
    }
}

impl Default for History {
    fn default() -> (history: History)
        ensures
            history@ == (HistoryView { entries: Seq::empty(), max_entries: 0 }),
    {
        let history = History { entries: Vec::new(), max_entries: 0 };
        assert(history.entries.deep_view() =~= Seq::empty());
        history
    }
}

/// Index of the first bookmark with the given location, or the length where
/// there is none.
pub open spec fn bookmark_index(entries: Seq<BookmarkView>, location: Seq<char>) -> int
    decreases entries.len(),
{
    if entries.len() == 0 {
        0
    } else if entries[0].location == location {
        0
    } else {
        1 + bookmark_index(entries.drop_first(), location)
    }
}

/// `bookmark_index` finds the first position that holds the location.
pub proof fn lemma_bookmark_index(entries: Seq<BookmarkView>, location: Seq<char>, k: int)
    requires
        0 <= k <= entries.len(),
        forall|j: int| 0 <= j < k ==> entries[j].location != location,
        k == entries.len() || entries[k].location == location,
    ensures
        bookmark_index(entries, location) == k,
    decreases entries.len(),
{
    if entries.len() == 0 || k == 0 {
    } else {
        let rest = entries.drop_first();
        assert forall|j: int| 0 <= j < k - 1 implies rest[j].location != location by {
            assert(rest[j] == entries[j + 1]);
        }
        lemma_bookmark_index(rest, location, k - 1);
    }
}

/// Whether a location is among the bookmarks.
pub open spec fn has_bookmark(entries: Seq<BookmarkView>, location: Seq<char>) -> bool {
    0 <= bookmark_index(entries, location) < entries.len()
}

/// The bookmarks, in the order in which they were made.
#[derive(Debug)]
pub struct Bookmarks {
    entries: Vec<Bookmark>,
}

impl DeepView for Bookmarks {
    type V = Seq<BookmarkView>;

    closed spec fn deep_view(&self) -> Seq<BookmarkView> {
        self.entries.deep_view()
    }
}

impl View for Bookmarks {
    type V = Seq<BookmarkView>;

    open spec fn view(&self) -> Seq<BookmarkView> {
        self.deep_view()
    }
}

/// The bookmarks after one was added at the time `now`: unchanged where the
/// location is bookmarked already.
pub open spec fn bookmarked(
    entries: Seq<BookmarkView>,
    location: Seq<char>,
    is_url: bool,
    name: Seq<char>,
    now: u64,
) -> Seq<BookmarkView> {
    if has_bookmark(entries, location) {
        entries
    } else {
        entries.push(BookmarkView { location, is_url, name, created_at: now })
    }
}

impl Bookmarks {
    /// No bookmarks.
    pub fn new() -> (bookmarks: Bookmarks)
        ensures
            bookmarks@ == Seq::<BookmarkView>::empty(),
    {
        let bookmarks = Bookmarks { entries: Vec::new() };
        assert(bookmarks.entries.deep_view() =~= Seq::empty());
        bookmarks
    }

    /// The bookmarks that were kept, in their order.
    pub fn from_entries(entries: Vec<Bookmark>) -> (bookmarks: Bookmarks)
        ensures
            bookmarks@ == entries.deep_view(),
            bookmarks.items() == entries@,
    {
        Bookmarks { entries }
    }

    /// The bookmarks as a sequence of executable values.
    pub closed spec fn items(&self) -> Seq<Bookmark> {
        self.entries@
    }

    /// Index of the first bookmark of the location, if there is one.
    fn position(&self, location: &str) -> (index: usize)
        ensures
            index == bookmark_index(self@, location@),
            index <= self.entries.len(),
    {
        let mut i: usize = 0;
        while i < self.entries.len() && !str_eq(self.entries[i].location.as_str(), location)
            invariant
                i <= self.entries.len(),
                forall|j: int| 0 <= j < i ==> self@[j].location != location@,
            decreases self.entries.len() - i,
        {
            assert(self@[i as int] == self.entries[i as int]@);
            i = i + 1;
        }
        proof {
            if i < self.entries.len() {
                assert(self@[i as int] == self.entries[i as int]@);
            }
            lemma_bookmark_index(self@, location@, i as int);
        }
        i
    }

    /// Bookmarks a location at the current time. See [`Bookmarks::add_at`].
    pub fn add(&mut self, location: &str, is_url: bool, name: &str)
        ensures
            exists|now: u64|
                final(self)@ == #[trigger] bookmarked(old(self)@, location@, is_url, name@, now),
    {
        let now = unix_time();
        self.add_at(location, is_url, name, now);
    }

    /// Bookmarks a location at the time `now`, unless it is bookmarked
    /// already.
    pub fn add_at(&mut self, location: &str, is_url: bool, name: &str, now: u64)
        ensures
            final(self)@ == bookmarked(old(self)@, location@, is_url, name@, now),
    {
        if self.position(location) < self.entries.len() {
            return ;
        }
        let ghost before = self.entries.deep_view();
        let bookmark = Bookmark {
            location: String::from_str(location),
            is_url,
            name: String::from_str(name),
            created_at: now,
        };
        self.entries.push(bookmark);
        assert(self.entries.deep_view() =~= before.push(bookmark@));
    }

    /// Removes the bookmark at `index`, if there is one.
    pub fn remove(&mut self, index: usize)
        ensures
            final(self)@ == if index < old(self)@.len() {
                old(self)@.remove(index as int)
            } else {
                old(self)@
            },
    {
        if index < self.entries.len() {
            let ghost before = self.entries.deep_view();
            let _ = self.entries.remove(index);
            assert(self.entries.deep_view() =~= before.remove(index as int));
        }
    }

    /// The bookmarks, in the order in which they were made.
    pub fn entries(&self) -> (entries: &[Bookmark])
        ensures
            entries@ == self.items(),
            entries@.len() == self@.len(),
            forall|i: int| 0 <= i < entries@.len() ==> (#[trigger] entries@[i])@ == self@[i],
    {
        self.entries.as_slice()
    }

    /// The first bookmark of a location, if there is one.
    pub fn find_by_location(&self, location: &str) -> (found: Option<&Bookmark>)
        ensures
            found is Some <==> has_bookmark(self@, location@),
            found matches Some(bookmark) ==> bookmark@ == self@[bookmark_index(self@, location@)],
    {
        let i = self.position(location);
        if i < self.entries.len() {
            assert(self@[i as int] == self.entries[i as int]@);
            Some(&self.entries[i])
        } else {
            None
        }
    }

    /// Whether a location is bookmarked.
    pub fn is_bookmarked(&self, location: &str) -> (found: bool)
        ensures
            found == has_bookmark(self@, location@),
    {
        self.find_by_location(location).is_some()
    }
}

impl Default for Bookmarks {
    fn default() -> (bookmarks: Bookmarks)
        ensures
            bookmarks@ == Seq::<BookmarkView>::empty(),
    {
        Bookmarks::new()
    }
}

} // verus!
