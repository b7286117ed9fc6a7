//! The viewer's settings, as a value. Reading them from a file and from the
//! environment is left to the caller.

use crate::text::{lowercase_of, str_eq, to_lowercase};
use crate::theme::Theme;
use vstd::prelude::*;

verus! {

/// The settings of the viewer.
#[derive(Debug)]
pub struct Config {
    /// Name of the colour theme.
    pub theme: String,
    /// Whether long lines are wrapped.
    pub line_wrap: bool,
    /// Whether the outline panel is shown.
    pub show_outline: bool,
    /// Width of the outline panel, in columns.
    pub outline_width: u16,
    /// Whether line numbers are shown.
    pub show_line_numbers: bool,
    /// Whether code blocks are highlighted.
    pub syntax_highlighting: bool,
    /// Whether a file is read again when it changes on disk.
    pub auto_reload: bool,
}

/// Mathematical model of a [`Config`].
pub ghost struct ConfigView {
    pub theme: Seq<char>,
    pub line_wrap: bool,
    pub show_outline: bool,
    pub outline_width: u16,
    pub show_line_numbers: bool,
    pub syntax_highlighting: bool,
    pub auto_reload: bool,
}

impl View for Config {
    type V = ConfigView;

    open spec fn view(&self) -> ConfigView {
        ConfigView {
            theme: self.theme@,
            line_wrap: self.line_wrap,
            show_outline: self.show_outline,
            outline_width: self.outline_width,
            show_line_numbers: self.show_line_numbers,
            syntax_highlighting: self.syntax_highlighting,
            auto_reload: self.auto_reload,
        }
    }
}

impl ConfigView {
    /// The settings that hold where nothing is configured.
    pub open spec fn initial() -> ConfigView {
        ConfigView {
            theme: "default"@,
            line_wrap: true,
            show_outline: true,
            outline_width: 24,
            show_line_numbers: false,
            syntax_highlighting: true,
            auto_reload: false,
        }
    }
}

impl Clone for Config {
    fn clone(&self) -> (r: Self)
        ensures
            r == *self,
    {
        Config {
            theme: self.theme.clone(),
            line_wrap: self.line_wrap,
            show_outline: self.show_outline,
            outline_width: self.outline_width,
            show_line_numbers: self.show_line_numbers,
            syntax_highlighting: self.syntax_highlighting,
            auto_reload: self.auto_reload,
        }
    }
}

impl Default for Config {
    fn default() -> (config: Config)
        ensures
            config@ == ConfigView::initial(),
    {
        Config {
            theme: String::from_str("default"),
            line_wrap: true,
            show_outline: true,
            outline_width: 24,
            show_line_numbers: false,
            syntax_highlighting: true,
            auto_reload: false,
        }
    }
}

/// Whether the value of a switch, in lower case, switches it on.
pub open spec fn is_on(lower: Seq<char>) -> bool {
    lower == "1"@ || lower == "true"@ || lower == "yes"@
}

/// Whether the value of a switch switches it on: `1`, `true` or `yes`,
/// whatever the case of the letters.
pub fn switch_value(value: &str) -> (on: bool)
    ensures
        on == is_on(lowercase_of(value@)),
{
    let lower = to_lowercase(value);
    str_eq(lower.as_str(), "1") || str_eq(lower.as_str(), "true") || str_eq(lower.as_str(), "yes")
}

/// The view of an optional string.
pub open spec fn override_view(value: Option<String>) -> Option<Seq<char>> {
    match value {
        Some(text) => Some(text@),
        None => None,
    }
}

/// The switch after an override, if there is one.
pub open spec fn overridden(current: bool, value: Option<Seq<char>>) -> bool {
    match value {
        Some(text) => is_on(lowercase_of(text)),
        None => current,
    }
}

/// What the environment asks to change of the settings. Each field holds
/// the value of one variable, if it is set.
#[derive(Debug)]
pub struct Overrides {
    /// The viewer's own theme variable.
    pub theme: Option<String>,
    /// The theme variable that related tools share; it wins over the first.
    pub shared_theme: Option<String>,
    pub line_wrap: Option<String>,
    pub outline: Option<String>,
    pub line_numbers: Option<String>,
}

impl Config {
    /// Applies what the environment asks for.
    pub fn apply_env_overrides(&mut self, overrides: &Overrides)
        ensures
            final(self)@ == (ConfigView {
                theme: match (overrides.shared_theme, overrides.theme) {
                    (Some(name), _) => name@,
                    (None, Some(name)) => name@,
                    (None, None) => old(self)@.theme,
                },
                line_wrap: overridden(old(self).line_wrap, override_view(overrides.line_wrap)),
                show_outline: overridden(old(self).show_outline, override_view(overrides.outline)),
                show_line_numbers: overridden(
                    old(self).show_line_numbers,
                    override_view(overrides.line_numbers),
                ),
                ..old(self)@
            }),
    {
        if let Some(name) = &overrides.theme {
            self.theme = name.clone();
        }
        if let Some(name) = &overrides.shared_theme {
            self.theme = name.clone();
        }
        if let Some(value) = &overrides.line_wrap {
            self.line_wrap = switch_value(value.as_str());
        }
        if let Some(value) = &overrides.outline {
            self.show_outline = switch_value(value.as_str());
        }
        if let Some(value) = &overrides.line_numbers {
            self.show_line_numbers = switch_value(value.as_str());
        }
    }

    /// The colour theme that the settings name.
    pub fn get_theme(&self) -> (theme: Theme)
        ensures
            theme == Theme::named(lowercase_of(self.theme@)),
    {
        Theme::by_name(self.theme.as_str())
    }
}

} // verus!
