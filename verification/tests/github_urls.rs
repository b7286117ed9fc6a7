use barkdocs::github::{
    is_github_url, is_url, status_error, symlink_target, FetchError, FetchPlan, GitHubFetcher,
    ReadmeSearch, UrlResolution,
};

#[test]
fn test_is_url() {
    assert!(is_url("https://example.com"));
    assert!(is_url("http://example.com"));
    assert!(!is_url("ftp://example.com"));
    assert!(!is_url("/path/to/file.md"));
    assert!(!is_url("file.md"));
}

#[test]
fn test_is_github_url() {
    assert!(is_github_url("https://github.com/user/repo"));
    assert!(is_github_url("http://github.com/user/repo"));
    assert!(is_github_url(
        "https://raw.githubusercontent.com/user/repo/main/README.md"
    ));
    assert!(!is_github_url("https://gitlab.com/user/repo"));
    assert!(!is_github_url("https://example.com/file.md"));
}

#[test]
fn test_resolve_url_raw_githubusercontent() {
    let fetcher = GitHubFetcher::new();
    let url = "https://raw.githubusercontent.com/user/repo/main/README.md";

    match fetcher.resolve_url(url) {
        UrlResolution::RawUrl(resolved) => assert_eq!(resolved, url),
        _ => panic!("Expected RawUrl"),
    }
}

#[test]
fn test_resolve_url_github_blob() {
    let fetcher = GitHubFetcher::new();
    let url = "https://github.com/user/repo/blob/main/docs/guide.md";

    match fetcher.resolve_url(url) {
        UrlResolution::RawUrl(resolved) => {
            assert_eq!(
                resolved,
                "https://raw.githubusercontent.com/user/repo/main/docs/guide.md"
            );
        }
        _ => panic!("Expected RawUrl"),
    }
}

#[test]
fn test_resolve_url_github_repo_root() {
    let fetcher = GitHubFetcher::new();

    match fetcher.resolve_url("https://github.com/user/repo") {
        UrlResolution::RepoRoot { user, repo } => {
            assert_eq!(user, "user");
            assert_eq!(repo, "repo");
        }
        _ => panic!("Expected RepoRoot"),
    }

    match fetcher.resolve_url("https://github.com/user/repo/") {
        UrlResolution::RepoRoot { user, repo } => {
            assert_eq!(user, "user");
            assert_eq!(repo, "repo");
        }
        _ => panic!("Expected RepoRoot"),
    }
}

#[test]
fn test_resolve_url_non_github_markdown() {
    let fetcher = GitHubFetcher::new();

    match fetcher.resolve_url("https://example.com/docs/guide.md") {
        UrlResolution::RawUrl(resolved) => {
            assert_eq!(resolved, "https://example.com/docs/guide.md");
        }
        _ => panic!("Expected RawUrl for .md URL"),
    }

    match fetcher.resolve_url("https://example.com/docs/GUIDE.MD") {
        UrlResolution::RawUrl(resolved) => {
            assert_eq!(resolved, "https://example.com/docs/GUIDE.MD");
        }
        _ => panic!("Expected RawUrl for .MD URL"),
    }
}

#[test]
fn test_resolve_url_not_github() {
    let fetcher = GitHubFetcher::new();

    match fetcher.resolve_url("https://example.com/page") {
        UrlResolution::NotGitHub => {}
        _ => panic!("Expected NotGitHub"),
    }

    match fetcher.resolve_url("/local/path/file.md") {
        UrlResolution::NotGitHub => {}
        _ => panic!("Expected NotGitHub for local path"),
    }
}

#[test]
fn test_blob_to_raw_conversion() {
    let fetcher = GitHubFetcher::new();

    let result = fetcher.blob_to_raw("https://github.com/rust-lang/rust/blob/master/README.md");
    assert_eq!(
        result,
        Some("https://raw.githubusercontent.com/rust-lang/rust/master/README.md".to_string())
    );

    let result = fetcher.blob_to_raw("https://github.com/user/repo/blob/main/docs/api/guide.md");
    assert_eq!(
        result,
        Some("https://raw.githubusercontent.com/user/repo/main/docs/api/guide.md".to_string())
    );

    let result = fetcher.blob_to_raw("http://github.com/user/repo/blob/main/README.md");
    assert_eq!(
        result,
        Some("https://raw.githubusercontent.com/user/repo/main/README.md".to_string())
    );

    let result = fetcher.blob_to_raw("https://github.com/user/repo/tree/main");
    assert_eq!(result, None);

    let result = fetcher.blob_to_raw("https://gitlab.com/user/repo/blob/main/README.md");
    assert_eq!(result, None);
}

#[test]
fn test_parse_repo_root() {
    let fetcher = GitHubFetcher::new();

    let result = fetcher.parse_repo_root("https://github.com/rust-lang/rust");
    assert_eq!(result, Some(("rust-lang".to_string(), "rust".to_string())));

    let result = fetcher.parse_repo_root("https://github.com/user/repo/");
    assert_eq!(result, Some(("user".to_string(), "repo".to_string())));

    let result = fetcher.parse_repo_root("http://github.com/user/repo");
    assert_eq!(result, Some(("user".to_string(), "repo".to_string())));

    let result = fetcher.parse_repo_root("https://github.com/user/repo/issues");
    assert_eq!(result, None);

    let result = fetcher.parse_repo_root("https://github.com/user");
    assert_eq!(result, None);

    let result = fetcher.parse_repo_root("https://gitlab.com/user/repo");
    assert_eq!(result, None);
}

#[test]
fn test_url_with_whitespace() {
    let fetcher = GitHubFetcher::new();

    match fetcher.resolve_url("  https://github.com/user/repo  ") {
        UrlResolution::RepoRoot { user, repo } => {
            assert_eq!(user, "user");
            assert_eq!(repo, "repo");
        }
        _ => panic!("Expected RepoRoot"),
    }
}

#[test]
fn test_fetch_error_display() {
    assert_eq!(
        FetchError::Network("connection reset".to_string()).to_string(),
        "Network error: connection reset"
    );
    assert_eq!(FetchError::NotFound.to_string(), "File not found (404)");
    assert_eq!(FetchError::InvalidUrl.to_string(), "Invalid URL format");
    assert_eq!(FetchError::Timeout.to_string(), "Request timed out");
}

#[test]
fn test_cache_operations() {
    let mut fetcher = GitHubFetcher::new();

    assert_eq!(fetcher.cache_size(), 0);

    fetcher.store("test_url", "cached content", 0);

    assert_eq!(fetcher.cache_size(), 1);

    fetcher.clear_cache();
    assert_eq!(fetcher.cache_size(), 0);
}

#[test]
fn plan_prefers_the_cache() {
    let mut fetcher = GitHubFetcher::new();
    let url = "https://github.com/user/repo";
    match fetcher.fetch(url) {
        FetchPlan::Readme { user, repo } => {
            assert_eq!(user, "user");
            assert_eq!(repo, "repo");
        }
        other => panic!("unexpected plan {:?}", other),
    }
    fetcher.store(url, "# Readme", 5);
    fetcher.store(url, "# Newer", 6);
    assert_eq!(fetcher.cache_size(), 1);
    match fetcher.fetch(url) {
        FetchPlan::Cached(content) => assert_eq!(content, "# Newer"),
        other => panic!("unexpected plan {:?}", other),
    }
    assert!(matches!(fetcher.fetch("notes.txt"), FetchPlan::Invalid));
    match fetcher.fetch("https://example.com/page") {
        FetchPlan::Raw(raw) => assert_eq!(raw, "https://example.com/page"),
        other => panic!("unexpected plan {:?}", other),
    }
}

#[test]
fn status_error_by_status() {
    assert!(status_error(200, "200 OK").is_none());
    assert!(matches!(status_error(404, "404 Not Found"), Some(FetchError::NotFound)));
    match status_error(500, "500 Internal Server Error") {
        Some(FetchError::Network(message)) => {
            assert_eq!(message, "HTTP 500 Internal Server Error")
        }
        other => panic!("unexpected {:?}", other),
    }
}

#[test]
fn symlink_target_of_short_path() {
    assert_eq!(symlink_target(" docs/README.md\n"), Some("docs/README.md".to_string()));
    assert_eq!(symlink_target("# Title.md"), None);
    assert_eq!(symlink_target("<a>.md"), None);
    assert_eq!(symlink_target("two\nlines.md"), None);
    assert_eq!(symlink_target("plain text"), None);
    let long = format!("{}.md", "x".repeat(100));
    assert_eq!(symlink_target(&long), None);
}

#[test]
fn readme_search_walks_the_candidates() {
    let mut search = GitHubFetcher::new().fetch_repo_readme("user", "repo");
    assert_eq!(
        search.address(),
        "https://raw.githubusercontent.com/user/repo/HEAD/README.md"
    );
    assert!(search.advance(Err(FetchError::NotFound)).is_none());
    assert_eq!(
        search.address(),
        "https://raw.githubusercontent.com/user/repo/HEAD/readme.md"
    );
    for _ in 0..4 {
        assert!(search.advance(Err(FetchError::NotFound)).is_none());
    }
    assert_eq!(
        search.address(),
        "https://raw.githubusercontent.com/user/repo/main/README.md"
    );
    // Content that looks like a symbolic link has its target fetched next.
    assert!(search.advance(Ok("docs/intro.md".to_string())).is_none());
    assert_eq!(
        search.address(),
        "https://raw.githubusercontent.com/user/repo/main/docs/intro.md"
    );
    match search.advance(Ok("# Intro".to_string())) {
        Some(Ok(content)) => assert_eq!(content, "# Intro"),
        other => panic!("unexpected {:?}", other),
    }
}

#[test]
fn readme_search_ends_after_the_last_candidate() {
    let mut search = ReadmeSearch::new("u", "r");
    for _ in 0..34 {
        assert!(search.advance(Err(FetchError::NotFound)).is_none());
    }
    assert_eq!(search.address(), "https://raw.githubusercontent.com/u/r/trunk/README");
    assert!(matches!(
        search.advance(Err(FetchError::NotFound)),
        Some(Err(FetchError::NotFound))
    ));
    let mut search = ReadmeSearch::new("u", "r");
    assert!(matches!(search.advance(Err(FetchError::Timeout)), Some(Err(FetchError::Timeout))));
    let mut search = ReadmeSearch::new("u", "r");
    assert!(search.advance(Ok("link.md".to_string())).is_none());
    match search.advance(Err(FetchError::NotFound)) {
        Some(Ok(content)) => assert_eq!(content, "link.md"),
        other => panic!("unexpected {:?}", other),
    }
}
