//! Syntax highlighting of code blocks, line by line.
//!
//! The token generator is `syntect`. This module chooses the syntax and the
//! theme, feeds it the lines of a code block one at a time, and hands the
//! token runs back as plain values.

use crate::style::Color;
use crate::text::{lines_of, split_lines};
use syntect::easy::HighlightLines;
use syntect::highlighting::{FontStyle, ThemeSet};
use syntect::parsing::{SyntaxReference, SyntaxSet};
use vstd::prelude::*;

verus! {

/// How one token run is drawn.
#[derive(Clone, Copy, Debug, PartialEq, Eq, Structural)]
pub struct TokenStyle {
    pub foreground: Color,
    pub bold: bool,
    pub italic: bool,
    pub underline: bool,
}

/// A run of code of one style.
#[derive(Debug)]
pub struct Token {
    pub style: TokenStyle,
    pub text: String,
}

/// Mathematical model of a [`Token`].
pub ghost struct TokenView {
    pub style: TokenStyle,
    pub text: Seq<char>,
}

impl DeepView for Token {
    type V = TokenView;

    open spec fn deep_view(&self) -> TokenView {
        TokenView { style: self.style, text: self.text@ }
    }
}

impl View for Token {
    type V = TokenView;

    open spec fn view(&self) -> TokenView {
        self.deep_view()
    }
}

/// The texts of `tokens`, one after the other.
pub open spec fn token_texts(tokens: Seq<TokenView>) -> Seq<char>
    decreases tokens.len(),
{
    if tokens.len() == 0 {
        Seq::empty()
    } else {
        token_texts(tokens.drop_last()) + tokens.last().text
    }
}

/// Whether `runs` is a highlighting of `code`: one run of tokens for each
/// line of the code, whose texts put together make that line.
pub open spec fn is_highlighting_of(runs: Seq<Seq<TokenView>>, code: Seq<char>) -> bool {
    &&& runs.len() == lines_of(code).len()
    &&& forall|i: int| 0 <= i < runs.len() ==> token_texts(#[trigger] runs[i]) == lines_of(code)[i]
}

/// The style of code that could not be highlighted: black, with no font
/// style, which is `syntect`'s default style.
pub open spec fn default_token_style() -> TokenStyle {
    TokenStyle { foreground: Color::Rgb(0, 0, 0), bold: false, italic: false, underline: false }
}

#[verifier::external_type_specification]
#[verifier::external_body]
pub struct ExSyntaxSet(SyntaxSet);

#[verifier::external_type_specification]
#[verifier::external_body]
pub struct ExThemeSet(ThemeSet);

#[verifier::external_type_specification]
#[verifier::external_body]
pub struct ExSyntaxReference(SyntaxReference);

#[verifier::external_type_specification]
#[verifier::external_body]
pub struct ExHighlightLines<'a>(HighlightLines<'a>);

#[verifier::external_type_specification]
#[verifier::external_body]
pub struct ExSyntectError(syntect::Error);

/// `SyntaxSet::load_defaults_newlines`: the syntaxes that come with
/// `syntect`. Nothing is claimed of them.
#[verifier::external_body]
fn load_syntaxes() -> (set: SyntaxSet) {
    SyntaxSet::load_defaults_newlines()
}

/// `ThemeSet::load_defaults`: the themes that come with `syntect`. Nothing
/// is claimed of them.
#[verifier::external_body]
fn load_themes() -> (set: ThemeSet) {
    ThemeSet::load_defaults()
}

/// `SyntaxSet::find_syntax_by_token`: the syntax for a file extension or a
/// syntax name, if the set has one. Nothing is claimed of the result.
#[verifier::external_body]
fn syntax_by_token<'a>(set: &'a SyntaxSet, token: &str) -> (syntax: Option<&'a SyntaxReference>) {
    set.find_syntax_by_token(token)
}

/// `SyntaxSet::find_syntax_by_name`: the syntax of exactly this name, if the
/// set has one. Nothing is claimed of the result.
#[verifier::external_body]
fn syntax_by_name<'a>(set: &'a SyntaxSet, name: &str) -> (syntax: Option<&'a SyntaxReference>) {
    set.find_syntax_by_name(name)
}

/// `HighlightLines::new` for `syntax` and the theme under the key `name`
/// of the map `ThemeSet::themes`: a highlighter at the start of a text, or
/// `None` where the map has no such key.
#[verifier::external_body]
fn highlighter_for_theme<'a>(syntax: &SyntaxReference, set: &'a ThemeSet, name: &str) -> (lines:
    Option<HighlightLines<'a>>) {
    set.themes.get(name).map(|theme| HighlightLines::new(syntax, theme))
}

/// `HighlightLines::new` for `syntax` and the first theme of the map
/// `ThemeSet::themes`: a highlighter at the start of a text, or `None` where
/// the map is empty.
#[verifier::external_body]
fn highlighter_for_first_theme<'a>(syntax: &SyntaxReference, set: &'a ThemeSet) -> (lines: Option<
    HighlightLines<'a>,
>) {
    set.themes.values().next().map(|theme| HighlightLines::new(syntax, theme))
}

/// The names of the themes that a set holds: the keys of the map
/// `ThemeSet::themes`, in the order of the map.
pub uninterp spec fn theme_names_of(set: ThemeSet) -> Seq<Seq<char>>;

/// The keys of the map `ThemeSet::themes`, as the map's `keys` hands them
/// out: every key once, in the order of the map. They are named, not
/// spelled out.
#[verifier::external_body]
fn theme_keys(set: &ThemeSet) -> (names: Vec<String>)
    ensures
        names.deep_view() == theme_names_of(*set),
{
    set.themes.keys().cloned().collect()
}

/// `HighlightLines::highlight_line`: the token runs of the next line. Each
/// run keeps its foreground colour and its three font flags. As the crate
/// documents it, the texts of the runs put together make the line.
#[verifier::external_body]
fn highlight_line(lines: &mut HighlightLines<'_>, line: &str, set: &SyntaxSet) -> (runs: Result<
    Vec<Token>,
    syntect::Error,
>)
    ensures
        runs matches Ok(tokens) ==> token_texts(tokens.deep_view()) == line@,
{
    let ranges = lines.highlight_line(line, set)?;
    Ok(ranges.into_iter().map(|(style, text)| Token {
        style: TokenStyle {
            foreground: Color::Rgb(style.foreground.r, style.foreground.g, style.foreground.b),
            bold: style.font_style.contains(FontStyle::BOLD),
            italic: style.font_style.contains(FontStyle::ITALIC),
            underline: style.font_style.contains(FontStyle::UNDERLINE),
        },
        text: text.to_string(),
    }).collect())
}

/// The text of a run of one token is the text of that token.
pub proof fn lemma_single_token(style: TokenStyle, text: Seq<char>)
    ensures
        token_texts(seq![TokenView { style, text }]) == text,
{
    let run = seq![TokenView { style, text }];
    assert(run.drop_last() =~= Seq::<TokenView>::empty());
    assert(token_texts(run.drop_last()) =~= Seq::<char>::empty());
    assert(token_texts(run) =~= text);
}

/// A line as one token in the default style.
fn plain_run(line: &String) -> (run: Vec<Token>)
    ensures
        run.deep_view() == seq![TokenView { style: default_token_style(), text: line@ }],
        token_texts(run.deep_view()) == line@,
{
    let mut run: Vec<Token> = Vec::new();
    let token = Token {
        style: TokenStyle { foreground: Color::Rgb(0, 0, 0), bold: false, italic: false,
            underline: false },
        text: line.clone(),
    };
    run.push(token);
    assert(run.deep_view() =~= seq![token@]);
    proof {
        lemma_single_token(default_token_style(), line@);
    }
    run
}

/// The run of a line, given what the tokenizer made of it: its tokens
/// where it succeeded; where it failed, the whole line as one token in the
/// default style. A failure on one line costs that line its colours and
/// nothing else.
pub fn run_or_plain(found: Result<Vec<Token>, syntect::Error>, line: &String) -> (run: Vec<Token>)
    ensures
        match found {
            Ok(tokens) => run.deep_view() == tokens.deep_view(),
            Err(_) => run.deep_view() == seq![
                TokenView { style: default_token_style(), text: line@ },
            ],
        },
{
    match found {
        Ok(tokens) => tokens,
        Err(_) => plain_run(line),
    }
}

/// Highlights code blocks with the syntaxes and themes that come with
/// `syntect`.
pub struct SyntaxHighlighter {
    syntax_set: SyntaxSet,
    theme_set: ThemeSet,
    theme_name: String,
}

impl SyntaxHighlighter {
    /// The name of the highlighting theme in use.
    pub closed spec fn theme_name(&self) -> Seq<char> {
        self.theme_name@
    }

    /// The names of the highlighting themes that the highlighter holds.
    pub closed spec fn themes(&self) -> Seq<Seq<char>> {
        theme_names_of(self.theme_set)
    }

    /// A highlighter that uses the theme of the given name.
    pub fn new(theme_name: &str) -> (highlighter: SyntaxHighlighter)
        ensures
            highlighter.theme_name() == theme_name@,
    {
        SyntaxHighlighter {
            syntax_set: load_syntaxes(),
            theme_set: load_themes(),
            theme_name: String::from_str(theme_name),
        }
    }

    /// Chooses another highlighting theme.
    pub fn set_theme(&mut self, theme_name: &str)
        ensures
            final(self).theme_name() == theme_name@,
            final(self).themes() == old(self).themes(),
    {
        self.theme_name = String::from_str(theme_name);
    }

    /// The names of the highlighting themes there are.
    pub fn available_themes(&self) -> (names: Vec<String>)
        ensures
            names.deep_view() == self.themes(),
    {
        theme_keys(&self.theme_set)
    }

    /// Highlights a code block.
    ///
    /// The syntax is the one that `language` names; plain text where there is
    /// no language or none is known by that name. The theme is the one in
    /// use, or the first there is where that name is not known; without a
    /// syntax or a theme no line is highlighted. The result
    /// has one run of tokens for each line of the code, and the texts of a run
    /// make up its line. A line that cannot be highlighted comes back as one
    /// token in the default style.
    pub fn highlight(&self, code: &str, language: Option<&str>) -> (runs: Vec<Vec<Token>>)
        ensures
            is_highlighting_of(runs.deep_view(), code@),
    {
        let by_token = match language {
            Some(token) => syntax_by_token(&self.syntax_set, token),
            None => None,
        };
        let syntax = match by_token {
            Some(found) => Some(found),
            None => syntax_by_name(&self.syntax_set, "Plain Text"),
        };
        let start = match syntax {
            Some(syntax) => match highlighter_for_theme(
                syntax,
                &self.theme_set,
                self.theme_name.as_str(),
            ) {
                Some(found) => Some(found),
                None => highlighter_for_first_theme(syntax, &self.theme_set),
            },
            None => None,
        };
        let lines = split_lines(code);
        let mut runs: Vec<Vec<Token>> = Vec::new();
        match start {
            Some(mut state) => {
                let mut i: usize = 0;
                while i < lines.len()
                    invariant
                        i <= lines.len(),
                        lines.deep_view() == lines_of(code@),
                        runs.len() == i,
                        forall|j: int|
                            0 <= j < i ==> token_texts(#[trigger] runs.deep_view()[j]) == lines_of(
                                code@,
                            )[j],
                    decreases lines.len() - i,
                {
                    let found = highlight_line(&mut state, lines[i].as_str(), &self.syntax_set);
                    let run = run_or_plain(found, &lines[i]);
                    assert(lines.deep_view()[i as int] == lines[i as int]@);
                    assert(token_texts(run.deep_view()) == lines[i as int]@) by {
                        lemma_single_token(default_token_style(), lines[i as int]@);
                    }
                    let ghost before = runs.deep_view();
                    runs.push(run);
                    assert(runs.deep_view() =~= before.push(run.deep_view()));
                    i = i + 1;
                }
            },
            None => {
                let mut i: usize = 0;
                while i < lines.len()
                    invariant
                        i <= lines.len(),
                        lines.deep_view() == lines_of(code@),
                        runs.len() == i,
                        forall|j: int|
                            0 <= j < i ==> token_texts(#[trigger] runs.deep_view()[j]) == lines_of(
                                code@,
                            )[j],
                    decreases lines.len() - i,
                {
                    let run = plain_run(&lines[i]);
                    assert(lines.deep_view()[i as int] == lines[i as int]@);
                    let ghost before = runs.deep_view();
                    runs.push(run);
                    assert(runs.deep_view() =~= before.push(run.deep_view()));
                    i = i + 1;
                }
            },
        }
        runs
    }
}

impl Default for SyntaxHighlighter {
    fn default() -> (highlighter: SyntaxHighlighter)
        ensures
            highlighter.theme_name() == "base16-ocean.dark"@,
    {
        SyntaxHighlighter::new("base16-ocean.dark")
    }
}

} // verus!
