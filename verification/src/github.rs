//! Where a document on the web is fetched from: how a URL is resolved, which
//! addresses are tried for the README of a repository, and what is kept of
//! earlier fetches. The requests themselves are made by the caller.

use crate::text::{
    append_chars, chars_of, has_prefix, has_suffix, join_from, joined, slice_of, split, split_on,
    str_eq, string_from_chars, strip_trailing, trim, trimmed, without_trailing,
};
use vstd::prelude::*;
use vstd::utf8::encode_utf8;

verus! {

/// What was fetched from a URL, and when.
#[derive(Debug)]
pub struct CachedContent {
    pub content: String,
    /// Time of the fetch, in seconds since the Unix epoch.
    pub fetch_time: u64,
}

impl Clone for CachedContent {
    fn clone(&self) -> (r: Self)
        ensures
            r == *self,
    {
        CachedContent { content: self.content.clone(), fetch_time: self.fetch_time }
    }
}

/// How a URL is to be fetched.
#[derive(Debug)]
pub enum UrlResolution {
    /// The address of the raw content.
    RawUrl(String),
    /// The root of a repository, whose README is to be found.
    RepoRoot { user: String, repo: String },
    /// Not an address that is recognized.
    NotGitHub,
}

/// Mathematical model of a [`UrlResolution`].
pub ghost enum UrlResolutionView {
    RawUrl(Seq<char>),
    RepoRoot { user: Seq<char>, repo: Seq<char> },
    NotGitHub,
}

impl DeepView for UrlResolution {
    type V = UrlResolutionView;

    open spec fn deep_view(&self) -> UrlResolutionView {
        match *self {
            UrlResolution::RawUrl(url) => UrlResolutionView::RawUrl(url@),
            UrlResolution::RepoRoot { user, repo } => UrlResolutionView::RepoRoot {
                user: user@,
                repo: repo@,
            },
            UrlResolution::NotGitHub => UrlResolutionView::NotGitHub,
        }
    }
}

impl View for UrlResolution {
    type V = UrlResolutionView;

    open spec fn view(&self) -> UrlResolutionView {
        self.deep_view()
    }
}

/// Why a fetch failed.
#[derive(Debug)]
pub enum FetchError {
    Network(String),
    NotFound,
    InvalidUrl,
    Timeout,
}

/// Mathematical model of a [`FetchError`].
pub ghost enum FetchErrorView {
    Network(Seq<char>),
    NotFound,
    InvalidUrl,
    Timeout,
}

impl DeepView for FetchError {
    type V = FetchErrorView;

    open spec fn deep_view(&self) -> FetchErrorView {
        match *self {
            FetchError::Network(message) => FetchErrorView::Network(message@),
            FetchError::NotFound => FetchErrorView::NotFound,
            FetchError::InvalidUrl => FetchErrorView::InvalidUrl,
            FetchError::Timeout => FetchErrorView::Timeout,
        }
    }
}

impl View for FetchError {
    type V = FetchErrorView;

    open spec fn view(&self) -> FetchErrorView {
        self.deep_view()
    }
}

impl FetchErrorView {
    /// The message of the error.
    pub open spec fn message(self) -> Seq<char> {
        match self {
            FetchErrorView::Network(message) => "Network error: "@ + message,
            FetchErrorView::NotFound => "File not found (404)"@,
            FetchErrorView::InvalidUrl => "Invalid URL format"@,
            FetchErrorView::Timeout => "Request timed out"@,
        }
    }
}

impl FetchError {
    /// The message of the error.
    pub fn to_string(&self) -> (message: String)
        ensures
            message@ == self@.message(),
    {
        match self {
            FetchError::Network(message) => {
                let mut out = String::from_str("Network error: ");
                out.append(message.as_str());
                out
            },
            FetchError::NotFound => String::from_str("File not found (404)"),
            FetchError::InvalidUrl => String::from_str("Invalid URL format"),
            FetchError::Timeout => String::from_str("Request timed out"),
        }
    }
}

impl Clone for FetchError {
    fn clone(&self) -> (r: Self)
        ensures
            r == *self,
    {
        match self {
            FetchError::Network(message) => FetchError::Network(message.clone()),
            FetchError::NotFound => FetchError::NotFound,
            FetchError::InvalidUrl => FetchError::InvalidUrl,
            FetchError::Timeout => FetchError::Timeout,
        }
    }
}

/// Whether a text starts like a URL of the web.
pub open spec fn is_url_spec(s: Seq<char>) -> bool {
    "http://"@.is_prefix_of(s) || "https://"@.is_prefix_of(s)
}

/// Whether a text starts like a URL of the web.
pub fn is_url(s: &str) -> (yes: bool)
    ensures
        yes == is_url_spec(s@),
{
    let chars = chars_of(s);
    has_prefix(&chars, &chars_of("http://")) || has_prefix(&chars, &chars_of("https://"))
}

/// Whether a URL is one of GitHub or of its raw content.
pub open spec fn is_github_url_spec(url: Seq<char>) -> bool {
    ||| "https://github.com/"@.is_prefix_of(url)
    ||| "http://github.com/"@.is_prefix_of(url)
    ||| "https://raw.githubusercontent.com/"@.is_prefix_of(url)
}

/// Whether a URL is one of GitHub or of its raw content.
pub fn is_github_url(url: &str) -> (yes: bool)
    ensures
        yes == is_github_url_spec(url@),
{
    let chars = chars_of(url);
    has_prefix(&chars, &chars_of("https://github.com/")) || has_prefix(
        &chars,
        &chars_of("http://github.com/"),
    ) || has_prefix(&chars, &chars_of("https://raw.githubusercontent.com/"))
}

/// What follows `https://github.com/` or `http://github.com/` in a URL
/// without the slashes at its end, if it starts so.
pub open spec fn github_path(url: Seq<char>) -> Option<Seq<char>> {
    let u = without_trailing(url, '/');
    if "https://github.com/"@.is_prefix_of(u) {
        Some(u.skip("https://github.com/"@.len() as int))
    } else if "http://github.com/"@.is_prefix_of(u) {
        Some(u.skip("http://github.com/"@.len() as int))
    } else {
        None
    }
}

/// The raw-content address of a GitHub blob URL, which has the form
/// `github.com/user/repo/blob/branch/path`; `None` for any other URL.
pub open spec fn blob_to_raw_spec(url: Seq<char>) -> Option<Seq<char>> {
    match github_path(url) {
        Some(path) => {
            let parts = split_on(path, '/');
            if parts.len() >= 5 && parts[2] == "blob"@ {
                Some(
                    "https://raw.githubusercontent.com/"@ + parts[0] + "/"@ + parts[1] + "/"@
                        + parts[3] + "/"@ + joined(parts.skip(4), "/"@),
                )
            } else {
                None
            }
        },
        None => None,
    }
}

/// The user and the repository of a URL of the form `github.com/user/repo`;
/// `None` for any other URL.
pub open spec fn repo_root_spec(url: Seq<char>) -> Option<(Seq<char>, Seq<char>)> {
    match github_path(url) {
        Some(path) => {
            let parts = split_on(path, '/');
            if parts.len() == 2 && parts[0].len() > 0 && parts[1].len() > 0 {
                Some((parts[0], parts[1]))
            } else {
                None
            }
        },
        None => None,
    }
}

/// Whether a text ends like the name of a Markdown file.
pub open spec fn has_markdown_suffix(s: Seq<char>) -> bool {
    ".md"@.is_suffix_of(s) || ".MD"@.is_suffix_of(s) || ".markdown"@.is_suffix_of(s)
}

/// How a URL is to be fetched, white space around it aside. Raw content of
/// GitHub is fetched as it is; a blob URL from its raw address; the root of a
/// repository through its README; any other URL of the web that ends like a
/// Markdown file as it is.
pub open spec fn resolve_spec(url: Seq<char>) -> UrlResolutionView {
    let u = trimmed(url);
    if "https://raw.githubusercontent.com/"@.is_prefix_of(u) {
        UrlResolutionView::RawUrl(u)
    } else {
        match blob_to_raw_spec(u) {
            Some(raw) => UrlResolutionView::RawUrl(raw),
            None => match repo_root_spec(u) {
                Some((user, repo)) => UrlResolutionView::RepoRoot { user, repo },
                None => if is_url_spec(u) && has_markdown_suffix(u) {
                    UrlResolutionView::RawUrl(u)
                } else {
                    UrlResolutionView::NotGitHub
                },
            },
        }
    }
}

/// The view of an optional string.
pub open spec fn opt_view(s: Option<String>) -> Option<Seq<char>> {
    match s {
        Some(s) => Some(s@),
        None => None,
    }
}

/// The view of an optional pair of strings.
pub open spec fn pair_view(p: Option<(String, String)>) -> Option<(Seq<char>, Seq<char>)> {
    match p {
        Some((a, b)) => Some((a@, b@)),
        None => None,
    }
}

fn github_path_of(url: &Vec<char>) -> (path: Option<Vec<char>>)
    ensures
        match path {
            Some(p) => github_path(url@) == Some(p@),
            None => github_path(url@) is None,
        },
{
    let u = strip_trailing(url, '/');
    let secure = chars_of("https://github.com/");
    let plain = chars_of("http://github.com/");
    if has_prefix(&u, &secure) {
        Some(slice_of(&u, secure.len(), u.len()))
    } else if has_prefix(&u, &plain) {
        Some(slice_of(&u, plain.len(), u.len()))
    } else {
        None
    }
}

fn blob_to_raw_chars(url: &Vec<char>) -> (raw: Option<Vec<char>>)
    ensures
        match raw {
            Some(r) => blob_to_raw_spec(url@) == Some(r@),
            None => blob_to_raw_spec(url@) is None,
        },
{
    match github_path_of(url) {
        Some(path) => {
            let parts = split(&path, '/');
            if parts.len() < 5 {
                return None;
            }
            let blob = chars_of("blob");
            proof {
                assert(parts.deep_view()[2] =~= parts[2]@);
                assert(parts.deep_view()[0] =~= parts[0]@);
                assert(parts.deep_view()[1] =~= parts[1]@);
                assert(parts.deep_view()[3] =~= parts[3]@);
            }
            if !(has_prefix(&parts[2], &blob) && parts[2].len() == blob.len()) {
                assert(parts[2]@ != blob@) by {
                    if parts[2]@ == blob@ {
                        assert(blob@.is_prefix_of(parts[2]@));
                    }
                }
                return None;
            }
            assert(parts[2]@ =~= blob@);
            let slash = chars_of("/");
            let mut out = chars_of("https://raw.githubusercontent.com/");
            append_chars(&mut out, &parts[0]);
            append_chars(&mut out, &slash);
            append_chars(&mut out, &parts[1]);
            append_chars(&mut out, &slash);
            append_chars(&mut out, &parts[3]);
            append_chars(&mut out, &slash);
            let rest = join_from(&parts, 4, &slash);
            append_chars(&mut out, &rest);
            Some(out)
        },
        None => None,
    }
}

fn repo_root_chars(url: &Vec<char>) -> (root: Option<(Vec<char>, Vec<char>)>)
    ensures
        match root {
            Some((user, repo)) => repo_root_spec(url@) == Some((user@, repo@)),
            None => repo_root_spec(url@) is None,
        },
{
    match github_path_of(url) {
        Some(path) => {
            let mut parts = split(&path, '/');
            if parts.len() == 2 {
                proof {
                    assert(parts.deep_view()[0] =~= parts[0]@);
                    assert(parts.deep_view()[1] =~= parts[1]@);
                }
                if parts[0].len() > 0 && parts[1].len() > 0 {
                    let repo = parts.remove(1);
                    let user = parts.remove(0);
                    return Some((user, repo));
                }
            }
            None
        },
        None => None,
    }
}

/// The address of a README candidate: the raw content of `path` on
/// `branch` of the repository.
pub open spec fn raw_url_spec(user: Seq<char>, repo: Seq<char>, branch: Seq<char>,
    path: Seq<char>) -> Seq<
    char,
> {
    "https://raw.githubusercontent.com/"@ + user + "/"@ + repo + "/"@ + branch + "/"@ + path
}

/// The address of the raw content of `path` on `branch` of a repository.
pub fn raw_url(user: &str, repo: &str, branch: &str, path: &str) -> (url: String)
    ensures
        url@ == raw_url_spec(user@, repo@, branch@, path@),
{
    let mut url = String::from_str("https://raw.githubusercontent.com/");
    url.append(user);
    url.append("/");
    url.append(repo);
    url.append("/");
    url.append(branch);
    url.append("/");
    url.append(path);
    url
}

/// The branches on which a README is looked for, in this order.
pub open spec fn readme_branches() -> Seq<Seq<char>> {
    seq!["HEAD"@, "main"@, "master"@, "canary"@, "develop"@, "dev"@, "trunk"@]
}

/// The file names under which a README is looked for, in this order.
pub open spec fn readme_names() -> Seq<Seq<char>> {
    seq!["README.md"@, "readme.md"@, "README.MD"@, "Readme.md"@, "README"@]
}

/// The number of addresses at which a README is looked for.
pub open spec fn readme_attempts() -> nat {
    35
}

/// The branch of the README candidate at `index`: every name is tried on
/// one branch before the next branch is tried.
pub open spec fn candidate_branch(index: int) -> Seq<char> {
    readme_branches()[index / 5]
}

/// The file name of the README candidate at `index`.
pub open spec fn candidate_name(index: int) -> Seq<char> {
    readme_names()[index % 5]
}

fn branch_at(index: usize) -> (branch: &'static str)
    requires
        index < 7,
    ensures
        branch@ == readme_branches()[index as int],
{
    if index == 0 {
        "HEAD"
    } else if index == 1 {
        "main"
    } else if index == 2 {
        "master"
    } else if index == 3 {
        "canary"
    } else if index == 4 {
        "develop"
    } else if index == 5 {
        "dev"
    } else {
        "trunk"
    }
}

fn name_at(index: usize) -> (name: &'static str)
    requires
        index < 5,
    ensures
        name@ == readme_names()[index as int],
{
    if index == 0 {
        "README.md"
    } else if index == 1 {
        "readme.md"
    } else if index == 2 {
        "README.MD"
    } else if index == 3 {
        "Readme.md"
    } else {
        "README"
    }
}

/// Whether fetched content looks like a symbolic link to a Markdown file:
/// short, on one line, ending like a Markdown file, and starting neither
/// like a heading nor like markup.
pub open spec fn looks_like_symlink(content: Seq<char>) -> bool {
    let t = trimmed(content);
    &&& encode_utf8(t).len() < 100
    &&& !t.contains('\n')
    &&& (".md"@.is_suffix_of(t) || ".MD"@.is_suffix_of(t))
    &&& !(t.len() > 0 && t[0] == '#')
    &&& !(t.len() > 0 && t[0] == '<')
}

/// The target of fetched content that looks like a symbolic link: the
/// content without the white space around it.
pub fn symlink_target(content: &str) -> (target: Option<String>)
    ensures
        match target {
            Some(t) => looks_like_symlink(content@) && t@ == trimmed(content@),
            None => !looks_like_symlink(content@),
        },
{
    let t = trim(content);
    let text = string_from_chars(&t);
    let bytes = text.as_str().as_bytes();
    assert(bytes@ == encode_utf8(t@));
    if bytes.len() >= 100 {
        return None;
    }
    let mut i: usize = 0;
    while i < t.len()
        invariant
            i <= t.len(),
            t@ == trimmed(content@),
            text@ == t@,
            encode_utf8(t@).len() < 100,
            forall|j: int| 0 <= j < i ==> t@[j] != '\n',
        decreases t.len() - i,
    {
        if t[i] == '\n' {
            assert(t@[i as int] == '\n');
            assert(t@.contains('\n'));
            return None;
        }
        i = i + 1;
    }
    assert(!t@.contains('\n'));
    if !(has_suffix(&t, &chars_of(".md")) || has_suffix(&t, &chars_of(".MD"))) {
        return None;
    }
    if t.len() > 0 && (t[0] == '#' || t[0] == '<') {
        return None;
    }
    Some(text)
}

/// The search for the README of a repository. Each address is fetched by
/// the caller, and [`ReadmeSearch::advance`] decides from the result how the
/// search goes on.
#[derive(Debug)]
pub struct ReadmeSearch {
    user: String,
    repo: String,
    /// Index of the candidate that is being fetched.
    index: usize,
    /// Content that looked like a symbolic link, while its target is fetched.
    link: Option<(String, String)>,
}

/// Mathematical model of a [`ReadmeSearch`].
pub ghost struct ReadmeSearchView {
    pub user: Seq<char>,
    pub repo: Seq<char>,
    pub index: usize,
    /// The content that looked like a symbolic link, and the address of its
    /// target, while that is fetched.
    pub link: Option<(Seq<char>, Seq<char>)>,
}

impl View for ReadmeSearch {
    type V = ReadmeSearchView;

    closed spec fn view(&self) -> ReadmeSearchView {
        ReadmeSearchView {
            user: self.user@,
            repo: self.repo@,
            index: self.index,
            link: pair_view(self.link),
        }
    }
}

impl ReadmeSearchView {
    /// The address that is being fetched.
    pub open spec fn address(self) -> Seq<char> {
        match self.link {
            Some((content, target)) => target,
            None => raw_url_spec(
                self.user,
                self.repo,
                candidate_branch(self.index as int),
                candidate_name(self.index as int),
            ),
        }
    }
}

/// The view of the result of a fetch.
pub open spec fn fetched_view(result: Result<String, FetchError>) -> Result<
    Seq<char>,
    FetchErrorView,
> {
    match result {
        Ok(content) => Ok(content@),
        Err(error) => Err(error@),
    }
}

/// How a search goes on after a fetch: the state after it, and the result
/// where the search is over.
///
/// While the target of a symbolic link is fetched, its content is the
/// result, or the link's own content where the fetch failed. Else content
/// that looks like a symbolic link has its target fetched next, on the same
/// branch, and any other content is the result. A candidate that is not
/// found is followed by the next, and the last by the error; any other error
/// ends the search.
pub open spec fn readme_advance(
    s: ReadmeSearchView,
    result: Result<Seq<char>, FetchErrorView>,
) -> (ReadmeSearchView, Option<Result<Seq<char>, FetchErrorView>>) {
    match s.link {
        Some((content, target)) => match result {
            Ok(actual) => (s, Some(Ok(actual))),
            Err(_) => (s, Some(Ok(content))),
        },
        None => match result {
            Ok(content) => if looks_like_symlink(content) {
                (
                    ReadmeSearchView {
                        link: Some(
                            (
                                content,
                                raw_url_spec(
                                    s.user,
                                    s.repo,
                                    candidate_branch(s.index as int),
                                    trimmed(content),
                                ),
                            ),
                        ),
                        ..s
                    },
                    None,
                )
            } else {
                (s, Some(Ok(content)))
            },
            Err(FetchErrorView::NotFound) => if s.index + 1 < readme_attempts() {
                (ReadmeSearchView { index: (s.index + 1) as usize, ..s }, None)
            } else {
                (s, Some(Err(FetchErrorView::NotFound)))
            },
            Err(error) => (s, Some(Err(error))),
        },
    }
}

impl ReadmeSearch {
    /// Whether the search is at one of its candidates.
    pub closed spec fn wf(&self) -> bool {
        self.index < 35
    }

    /// A search at its first candidate.
    pub fn new(user: &str, repo: &str) -> (search: ReadmeSearch)
        ensures
            search.wf(),
            search@ == (ReadmeSearchView { user: user@, repo: repo@, index: 0, link: None }),
    {
        ReadmeSearch {
            user: String::from_str(user),
            repo: String::from_str(repo),
            index: 0,
            link: None,
        }
    }

    /// The address to fetch now.
    pub fn address(&self) -> (url: String)
        requires
            self.wf(),
        ensures
            url@ == self@.address(),
    {
        match &self.link {
            Some((_, target)) => target.clone(),
            None => raw_url(
                self.user.as_str(),
                self.repo.as_str(),
                branch_at(self.index / 5),
                name_at(self.index % 5),
            ),
        }
    }

    /// Takes the result of fetching [`ReadmeSearch::address`]. Returns the
    /// result of the search where it is over, else `None`: then the next
    /// address is to be fetched.
    pub fn advance(&mut self, result: Result<String, FetchError>) -> (done: Option<
        Result<String, FetchError>,
    >)
        requires
            old(self).wf(),
        ensures
            final(self).wf(),
            final(self)@ == readme_advance(old(self)@, fetched_view(result)).0,
            match done {
                Some(r) => readme_advance(old(self)@, fetched_view(result)).1 == Some(
                    fetched_view(r),
                ),
                None => readme_advance(old(self)@, fetched_view(result)).1 is None,
            },
    {
        if let Some((content, _)) = &self.link {
            return match result {
                Ok(actual) => Some(Ok(actual)),
                Err(_) => Some(Ok(content.clone())),
            };
        }
        match result {
            Ok(content) => {
                match symlink_target(content.as_str()) {
                    Some(target) => {
                        let url = raw_url(
                            self.user.as_str(),
                            self.repo.as_str(),
                            branch_at(self.index / 5),
                            target.as_str(),
                        );
                        self.link = Some((content, url));
                        None
                    },
                    None => Some(Ok(content)),
                }
            },
            Err(FetchError::NotFound) => {
                if self.index + 1 < 35 {
                    self.index = self.index + 1;
                    None
                } else {
                    Some(Err(FetchError::NotFound))
                }
            },
            Err(error) => Some(Err(error)),
        }
    }
}

/// What a fetch of a URL does first.
#[derive(Debug)]
pub enum FetchPlan {
    /// The content was fetched before; here it is.
    Cached(String),
    /// Fetch the raw content at this address.
    Raw(String),
    /// Find the README of this repository.
    Readme { user: String, repo: String },
    /// The text is no URL that can be fetched.
    Invalid,
}

/// Mathematical model of a [`FetchPlan`].
pub ghost enum FetchPlanView {
    Cached(Seq<char>),
    Raw(Seq<char>),
    Readme { user: Seq<char>, repo: Seq<char> },
    Invalid,
}

impl View for FetchPlan {
    type V = FetchPlanView;

    open spec fn view(&self) -> FetchPlanView {
        match *self {
            FetchPlan::Cached(content) => FetchPlanView::Cached(content@),
            FetchPlan::Raw(url) => FetchPlanView::Raw(url@),
            FetchPlan::Readme { user, repo } => FetchPlanView::Readme { user: user@, repo: repo@ },
            FetchPlan::Invalid => FetchPlanView::Invalid,
        }
    }
}

/// The error of a response by its status: none for a success, "not found"
/// for 404, and a network error with the status text for any other status.
pub open spec fn status_error_spec(status: u16, status_text: Seq<char>) -> Option<FetchErrorView> {
    if status == 404 {
        Some(FetchErrorView::NotFound)
    } else if 200 <= status < 300 {
        None
    } else {
        Some(FetchErrorView::Network("HTTP "@ + status_text))
    }
}

/// The error of a response by its status, if it is one.
pub fn status_error(status: u16, status_text: &str) -> (error: Option<FetchError>)
    ensures
        match error {
            Some(e) => status_error_spec(status, status_text@) == Some(e@),
            None => status_error_spec(status, status_text@) is None,
        },
{
    if status == 404 {
        Some(FetchError::NotFound)
    } else if 200 <= status && status < 300 {
        None
    } else {
        let mut message = String::from_str("HTTP ");
        message.append(status_text);
        Some(FetchError::Network(message))
    }
}

/// Index of the first cached URL that equals `url`, or the length where
/// there is none.
pub open spec fn cache_index(urls: Seq<Seq<char>>, url: Seq<char>) -> int
    decreases urls.len(),
{
    if urls.len() == 0 || urls[0] == url {
        0
    } else {
        1 + cache_index(urls.drop_first(), url)
    }
}

proof fn lemma_cache_index(urls: Seq<Seq<char>>, url: Seq<char>, k: int)
    requires
        0 <= k <= urls.len(),
        forall|j: int| 0 <= j < k ==> urls[j] != url,
        k == urls.len() || urls[k] == url,
    ensures
        cache_index(urls, url) == k,
    decreases urls.len(),
{
    if urls.len() == 0 || k == 0 {
    } else {
        let rest = urls.drop_first();
        assert forall|j: int| 0 <= j < k - 1 implies rest[j] != url by {
            assert(rest[j] == urls[j + 1]);
        }
        lemma_cache_index(rest, url, k - 1);
    }
}

/// Resolves URLs and keeps what was fetched during the session.
///
/// The cache is a map from URLs to contents, held as two vectors in step:
/// the content of the URL at an index is at the same index, and no URL
/// occurs twice. So what is kept for a URL is a plain function of the two
/// sequences.
#[derive(Debug)]
pub struct GitHubFetcher {
    urls: Vec<String>,
    contents: Vec<CachedContent>,
}

impl GitHubFetcher {
    /// The URLs whose content is kept.
    pub closed spec fn cached_urls(&self) -> Seq<Seq<char>> {
        self.urls.deep_view()
    }

    /// The contents that are kept, each at the index of its URL.
    pub closed spec fn cached_contents(&self) -> Seq<CachedContent> {
        self.contents@
    }

    /// Whether there is one content for each URL, and no URL twice.
    pub closed spec fn wf(&self) -> bool {
        &&& self.urls.len() == self.contents.len()
        &&& forall|i: int, j: int|
            0 <= i < j < self.urls.len() ==> self.urls.deep_view()[i] != self.urls.deep_view()[j]
    }

    /// The time at which the content that is kept for a URL was fetched.
    pub open spec fn fetched_at(&self, url: Seq<char>) -> Option<u64> {
        let i = cache_index(self.cached_urls(), url);
        if 0 <= i < self.cached_urls().len() {
            Some(self.cached_contents()[i].fetch_time)
        } else {
            None
        }
    }

    /// The content that is kept for a URL, if any.
    pub open spec fn cached(&self, url: Seq<char>) -> Option<Seq<char>> {
        let i = cache_index(self.cached_urls(), url);
        if 0 <= i < self.cached_urls().len() {
            Some(self.cached_contents()[i].content@)
        } else {
            None
        }
    }

    /// A fetcher that has fetched nothing yet.
    pub fn new() -> (fetcher: GitHubFetcher)
        ensures
            fetcher.wf(),
            fetcher.cached_urls().len() == 0,
    {
        let fetcher = GitHubFetcher { urls: Vec::new(), contents: Vec::new() };
        assert(fetcher.urls.deep_view() =~= Seq::empty());
        fetcher
    }

    /// How a URL is to be fetched.
    pub fn resolve_url(&self, url: &str) -> (resolution: UrlResolution)
        ensures
            resolution@ == resolve_spec(url@),
    {
        let u = trim(url);
        if has_prefix(&u, &chars_of("https://raw.githubusercontent.com/")) {
            return UrlResolution::RawUrl(string_from_chars(&u));
        }
        if let Some(raw) = blob_to_raw_chars(&u) {
            return UrlResolution::RawUrl(string_from_chars(&raw));
        }
        if let Some((user, repo)) = repo_root_chars(&u) {
            return UrlResolution::RepoRoot {
                user: string_from_chars(&user),
                repo: string_from_chars(&repo),
            };
        }
        let web = has_prefix(&u, &chars_of("https://")) || has_prefix(&u, &chars_of("http://"));
        let markdown = has_suffix(&u, &chars_of(".md")) || has_suffix(&u, &chars_of(".MD"))
            || has_suffix(&u, &chars_of(".markdown"));
        if web && markdown {
            return UrlResolution::RawUrl(string_from_chars(&u));
        }
        UrlResolution::NotGitHub
    }

    /// The raw-content address of a GitHub blob URL; `None` for any other
    /// URL.
    pub fn blob_to_raw(&self, url: &str) -> (raw: Option<String>)
        ensures
            opt_view(raw) == blob_to_raw_spec(url@),
    {
        match blob_to_raw_chars(&chars_of(url)) {
            Some(raw) => Some(string_from_chars(&raw)),
            None => None,
        }
    }

    /// The user and the repository of the URL of a repository's root;
    /// `None` for any other URL.
    pub fn parse_repo_root(&self, url: &str) -> (root: Option<(String, String)>)
        ensures
            pair_view(root) == repo_root_spec(url@),
    {
        match repo_root_chars(&chars_of(url)) {
            Some((user, repo)) => Some((string_from_chars(&user), string_from_chars(&repo))),
            None => None,
        }
    }

    /// Index of the URL among those that are kept.
    fn position(&self, url: &str) -> (index: usize)
        ensures
            index == cache_index(self.cached_urls(), url@),
            index <= self.urls.len(),
    {
        let mut i: usize = 0;
        while i < self.urls.len() && !str_eq(self.urls[i].as_str(), url)
            invariant
                i <= self.urls.len(),
                forall|j: int| 0 <= j < i ==> self.cached_urls()[j] != url@,
            decreases self.urls.len() - i,
        {
            assert(self.cached_urls()[i as int] == self.urls[i as int]@);
            i = i + 1;
        }
        proof {
            if i < self.urls.len() {
                assert(self.cached_urls()[i as int] == self.urls[i as int]@);
            }
            lemma_cache_index(self.cached_urls(), url@, i as int);
        }
        i
    }

    /// What a fetch of a URL does first: content that is kept is returned;
    /// else the URL is resolved, and a URL that is not recognized is fetched
    /// as it is where it is one of the web.
    pub open spec fn plan_spec(&self, url: Seq<char>) -> FetchPlanView {
        match self.cached(url) {
            Some(content) => FetchPlanView::Cached(content),
            None => match resolve_spec(url) {
                UrlResolutionView::RawUrl(raw) => FetchPlanView::Raw(raw),
                UrlResolutionView::RepoRoot { user, repo } => FetchPlanView::Readme { user, repo },
                UrlResolutionView::NotGitHub => if is_url_spec(url) {
                    FetchPlanView::Raw(url)
                } else {
                    FetchPlanView::Invalid
                },
            },
        }
    }

    /// Starts the fetch of a URL: says what it does first. The request
    /// itself is made by the caller, who hands what was fetched to
    /// [`GitHubFetcher::store`].
    pub fn fetch(&self, url: &str) -> (plan: FetchPlan)
        requires
            self.wf(),
        ensures
            plan@ == self.plan_spec(url@),
    {
        let i = self.position(url);
        if i < self.urls.len() {
            return FetchPlan::Cached(self.contents[i].content.clone());
        }
        match self.resolve_url(url) {
            UrlResolution::RawUrl(raw) => FetchPlan::Raw(raw),
            UrlResolution::RepoRoot { user, repo } => FetchPlan::Readme { user, repo },
            UrlResolution::NotGitHub => {
                if is_url(url) {
                    FetchPlan::Raw(String::from_str(url))
                } else {
                    FetchPlan::Invalid
                }
            },
        }
    }

    /// Starts the search for the README of a repository.
    pub fn fetch_repo_readme(&self, user: &str, repo: &str) -> (search: ReadmeSearch)
        ensures
            search.wf(),
            search@ == (ReadmeSearchView { user: user@, repo: repo@, index: 0, link: None }),
    {
        ReadmeSearch::new(user, repo)
    }

    /// Keeps the content that was fetched for a URL at the time `now`, in
    /// place of what was kept for it before.
    pub fn store(&mut self, url: &str, content: &str, now: u64)
        requires
            old(self).wf(),
        ensures
            final(self).wf(),
            final(self).cached(url@) == Some(content@),
            final(self).fetched_at(url@) == Some(now),
            forall|other: Seq<char>|
                other != url@ ==> final(self).cached(other) == old(self).cached(other)
                    && final(self).fetched_at(other) == old(self).fetched_at(other),
            final(self).cached_urls().len() == if old(self).cached(url@) is Some {
                old(self).cached_urls().len()
            } else {
                old(self).cached_urls().len() + 1
            },
    {
        let i = self.position(url);
        let entry = CachedContent { content: String::from_str(content), fetch_time: now };
        let ghost before = self.urls.deep_view();
        let ghost kept = self.contents@;
        proof {
            lemma_index_holds(before, url@);
        }
        if i < self.urls.len() {
            self.contents.set(i, entry);
            assert(self.contents@ == kept.update(i as int, entry));
            assert forall|other: Seq<char>| other != url@ implies self.cached(other) == old(
                self,
            ).cached(other) && self.fetched_at(other) == old(self).fetched_at(other) by {
                lemma_index_holds(before, other);
                let k = cache_index(before, other);
                if k < before.len() {
                    assert(k != i);
                    assert(self.contents@[k] == kept[k]);
                }
            }
        } else {
            self.urls.push(String::from_str(url));
            self.contents.push(entry);
            assert(self.urls.deep_view() =~= before.push(url@));
            assert(self.contents@ == kept.push(entry));
            proof {
                lemma_not_cached(before, url@);
                lemma_cache_index(self.urls.deep_view(), url@, i as int);
                assert forall|other: Seq<char>| other != url@ implies self.cached(other) == old(
                    self,
                ).cached(other) && self.fetched_at(other) == old(self).fetched_at(other) by {
                    lemma_index_after_push(before, url@, other);
                    let k = cache_index(before, other);
                    if k < before.len() {
                        assert(self.contents@[k] == kept[k]);
                    }
                }
            }
        }
    }

    /// Forgets everything that was fetched.
    pub fn clear_cache(&mut self)
        ensures
            final(self).wf(),
            final(self).cached_urls().len() == 0,
    {
        self.urls.clear();
        self.contents.clear();
        assert(self.urls.deep_view() =~= Seq::empty());
    }

    /// The number of URLs whose content is kept.
    pub fn cache_size(&self) -> (size: usize)
        ensures
            size == self.cached_urls().len(),
    {
        self.urls.len()
    }
}

/// Where `cache_index` is an index of the list, the URL is at it.
proof fn lemma_index_holds(urls: Seq<Seq<char>>, url: Seq<char>)
    ensures
        0 <= cache_index(urls, url) <= urls.len(),
        cache_index(urls, url) < urls.len() ==> urls[cache_index(urls, url)] == url,
    decreases urls.len(),
{
    if urls.len() == 0 || urls[0] == url {
    } else {
        lemma_index_holds(urls.drop_first(), url);
    }
}

/// One more URL at the end leaves the index of every other URL as it was,
/// where it was found, and not found where it was not.
proof fn lemma_index_after_push(urls: Seq<Seq<char>>, added: Seq<char>, other: Seq<char>)
    requires
        other != added,
    ensures
        cache_index(urls, other) < urls.len() ==> cache_index(urls.push(added), other)
            == cache_index(urls, other),
        cache_index(urls, other) >= urls.len() ==> cache_index(urls.push(added), other)
            == urls.len() + 1,
        0 <= cache_index(urls, other) <= urls.len(),
    decreases urls.len(),
{
    if urls.len() == 0 {
        assert(urls.push(added)[0] == added);
        assert(urls.push(added).drop_first() =~= Seq::<Seq<char>>::empty());
        assert(cache_index(urls.push(added).drop_first(), other) == 0);
    } else if urls[0] == other {
        assert(urls.push(added)[0] == urls[0]);
    } else {
        lemma_index_after_push(urls.drop_first(), added, other);
        assert(urls.push(added)[0] == urls[0]);
        assert(urls.push(added).drop_first() =~= urls.drop_first().push(added));
    }
}

/// Where `cache_index` is the length of the list, the URL is not in it.
proof fn lemma_not_cached(urls: Seq<Seq<char>>, url: Seq<char>)
    requires
        cache_index(urls, url) >= urls.len(),
    ensures
        forall|j: int| 0 <= j < urls.len() ==> urls[j] != url,
    decreases urls.len(),
{
    if urls.len() == 0 {
    } else {
        lemma_index_holds(urls.drop_first(), url);
        lemma_not_cached(urls.drop_first(), url);
        assert forall|j: int| 0 <= j < urls.len() implies urls[j] != url by {
            if j > 0 {
                assert(urls[j] == urls.drop_first()[j - 1]);
            }
        }
    }
}

impl Default for GitHubFetcher {
    fn default() -> (fetcher: GitHubFetcher)
        ensures
            fetcher.wf(),
            fetcher.cached_urls().len() == 0,
    {
        GitHubFetcher::new()
    }
}

} // verus!
