use barkdocs::storage::{Bookmarks, History, HistoryEntry};

#[test]
fn test_history_new() {
    let history = History::new();
    assert!(history.entries().is_empty());
    assert_eq!(history.max_entries, 100);
}

#[test]
fn test_history_add() {
    let mut history = History::new();

    history.add("/path/to/file.md", false, "file.md");
    assert_eq!(history.entries().len(), 1);
    assert_eq!(history.entries()[0].location, "/path/to/file.md");
    assert!(!history.entries()[0].is_url);
    assert_eq!(history.entries()[0].display_name, "file.md");
}

#[test]
fn test_history_add_url() {
    let mut history = History::new();

    history.add("https://github.com/user/repo", true, "repo README");
    assert_eq!(history.entries().len(), 1);
    assert!(history.entries()[0].is_url);
}

#[test]
fn test_history_update_existing() {
    let mut history = History::new();

    history.add("/path/to/file.md", false, "old name");
    let first_access = history.entries()[0].last_accessed;

    history.add("/path/to/file.md", false, "new name");

    // Still one entry, with the new name and a time that is not earlier.
    assert_eq!(history.entries().len(), 1);
    assert_eq!(history.entries()[0].display_name, "new name");
    assert!(history.entries()[0].last_accessed >= first_access);
}

fn entry(location: &str, display_name: &str, last_accessed: u64) -> HistoryEntry {
    HistoryEntry {
        location: location.to_string(),
        is_url: false,
        display_name: display_name.to_string(),
        last_accessed,
    }
}

#[test]
fn test_history_ordering_by_timestamp() {
    let mut history = History::new();

    history.entries.push(entry("/first.md", "first", 1000));
    history.entries.push(entry("/second.md", "second", 2000));
    history.entries.push(entry("/third.md", "third", 3000));

    history.sort_entries();

    // The most recent comes first.
    assert_eq!(history.entries()[0].location, "/third.md");
    assert_eq!(history.entries()[1].location, "/second.md");
    assert_eq!(history.entries()[2].location, "/first.md");
}

#[test]
fn test_history_max_entries() {
    let mut history = History::new();
    history.max_entries = 3;

    history.entries.push(entry("/1.md", "1", 1000));
    history.entries.push(entry("/2.md", "2", 2000));
    history.entries.push(entry("/3.md", "3", 3000));
    history.entries.push(entry("/4.md", "4", 4000));

    history.sort_entries();
    history.entries.truncate(history.max_entries);

    // Only the three most recent are kept.
    assert_eq!(history.entries().len(), 3);
    assert_eq!(history.entries()[0].location, "/4.md");
    assert_eq!(history.entries()[1].location, "/3.md");
    assert_eq!(history.entries()[2].location, "/2.md");
}

#[test]
fn test_history_clear() {
    let mut history = History::new();
    history.add("/file.md", false, "file");
    history.clear();
    assert!(history.entries().is_empty());
}

#[test]
fn test_bookmarks_new() {
    let bookmarks = Bookmarks::new();
    assert!(bookmarks.entries().is_empty());
}

#[test]
fn test_bookmarks_add() {
    let mut bookmarks = Bookmarks::new();

    bookmarks.add("/path/to/file.md", false, "My File");
    assert_eq!(bookmarks.entries().len(), 1);
    assert_eq!(bookmarks.entries()[0].location, "/path/to/file.md");
    assert_eq!(bookmarks.entries()[0].name, "My File");
    assert!(!bookmarks.entries()[0].is_url);
}

#[test]
fn test_bookmarks_no_duplicates() {
    let mut bookmarks = Bookmarks::new();

    bookmarks.add("/file.md", false, "First");
    bookmarks.add("/file.md", false, "Second");

    assert_eq!(bookmarks.entries().len(), 1);
    assert_eq!(bookmarks.entries()[0].name, "First");
}

#[test]
fn test_bookmarks_remove() {
    let mut bookmarks = Bookmarks::new();

    bookmarks.add("/1.md", false, "1");
    bookmarks.add("/2.md", false, "2");
    bookmarks.add("/3.md", false, "3");

    bookmarks.remove(1);

    assert_eq!(bookmarks.entries().len(), 2);
    assert_eq!(bookmarks.entries()[0].location, "/1.md");
    assert_eq!(bookmarks.entries()[1].location, "/3.md");
}

#[test]
fn test_bookmarks_remove_out_of_bounds() {
    let mut bookmarks = Bookmarks::new();
    bookmarks.add("/file.md", false, "file");

    bookmarks.remove(100);
    assert_eq!(bookmarks.entries().len(), 1);
}

#[test]
fn test_bookmarks_find_by_location() {
    let mut bookmarks = Bookmarks::new();

    bookmarks.add("/file1.md", false, "File 1");
    bookmarks.add("/file2.md", false, "File 2");

    let found = bookmarks.find_by_location("/file2.md");
    assert!(found.is_some());
    assert_eq!(found.unwrap().name, "File 2");

    let not_found = bookmarks.find_by_location("/nonexistent.md");
    assert!(not_found.is_none());
}

#[test]
fn test_bookmarks_is_bookmarked() {
    let mut bookmarks = Bookmarks::new();
    bookmarks.add("/file.md", false, "file");

    assert!(bookmarks.is_bookmarked("/file.md"));
    assert!(!bookmarks.is_bookmarked("/other.md"));
}

#[test]
fn history_add_at_orders_and_caps() {
    let mut history = History::new();
    history.max_entries = 2;
    history.add_at("/a.md", false, "a", 10);
    history.add_at("/b.md", false, "b", 30);
    history.add_at("/c.md", false, "c", 20);
    assert_eq!(history.entries().len(), 2);
    assert_eq!(history.entries()[0].location, "/b.md");
    assert_eq!(history.entries()[1].location, "/c.md");
    // A second visit renames the entry and moves it to the front.
    history.add_at("/c.md", true, "c again", 40);
    assert_eq!(history.entries().len(), 2);
    assert_eq!(history.entries()[0].location, "/c.md");
    assert_eq!(history.entries()[0].display_name, "c again");
    assert!(!history.entries()[0].is_url);
    assert_eq!(history.entries()[0].last_accessed, 40);
}

#[test]
fn history_sort_keeps_order_of_equal_times() {
    let mut history = History::new();
    history.entries.push(entry("/x.md", "x", 5));
    history.entries.push(entry("/y.md", "y", 7));
    history.entries.push(entry("/z.md", "z", 5));
    history.entries.push(entry("/w.md", "w", 7));
    history.sort_entries();
    let order: Vec<&str> = history.entries().iter().map(|e| e.location.as_str()).collect();
    assert_eq!(order, vec!["/y.md", "/w.md", "/x.md", "/z.md"]);
}

#[test]
fn bookmarks_add_at_keeps_time_and_order() {
    let mut bookmarks = Bookmarks::new();
    bookmarks.add_at("/a.md", false, "A", 7);
    bookmarks.add_at("https://example.com/b.md", true, "B", 9);
    bookmarks.add_at("/a.md", true, "again", 11);
    assert_eq!(bookmarks.entries().len(), 2);
    assert_eq!(bookmarks.entries()[0].created_at, 7);
    assert_eq!(bookmarks.entries()[0].name, "A");
    assert!(bookmarks.entries()[1].is_url);
    assert_eq!(bookmarks.entries()[1].created_at, 9);
}
