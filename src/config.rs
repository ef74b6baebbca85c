//! Typed editor settings with their baseline values and derived presentation values.

use crate::menu::KeyBinding;
use std::collections::VecDeque;
use std::path::PathBuf;
use vstd::prelude::*;

verus! {

/// Version of the persisted settings records.
pub const CONFIG_VERSION: u64 = 1;

/// The user's choice of application theme.
#[derive(Clone, Copy, Debug, PartialEq, Eq, Structural)]
pub enum AppTheme {
    Dark,
    Light,
    System,
}

/// A concrete visual theme, once the three-way choice has been resolved.
#[derive(Clone, Copy, Debug, PartialEq, Eq, Structural)]
pub enum ThemeKind {
    Dark,
    Light,
}

impl ThemeKind {
    pub open spec fn spec_is_dark(self) -> bool {
        self == ThemeKind::Dark
    }

    pub fn is_dark(&self) -> (r: bool)
        ensures
            r == self.spec_is_dark(),
    {
        match self {
            ThemeKind::Dark => true,
            ThemeKind::Light => false,
        }
    }
}

impl AppTheme {
    /// The concrete theme for this choice; `System` follows the host preference.
    pub open spec fn spec_theme(self, system_prefers_dark: bool) -> ThemeKind {
        match self {
            AppTheme::Dark => ThemeKind::Dark,
            AppTheme::Light => ThemeKind::Light,
            AppTheme::System => if system_prefers_dark {
                ThemeKind::Dark
            } else {
                ThemeKind::Light
            },
        }
    }

    /// Resolves the choice to a concrete theme, given whether the host prefers a dark one.
    pub fn theme(&self, system_prefers_dark: bool) -> (r: ThemeKind)
        ensures
            r == self.spec_theme(system_prefers_dark),
    {
        match self {
            AppTheme::Dark => ThemeKind::Dark,
            AppTheme::Light => ThemeKind::Light,
            AppTheme::System => if system_prefers_dark {
                ThemeKind::Dark
            } else {
                ThemeKind::Light
            },
        }
    }
}


/// The compiled form of a regular expression, from the regex crate.
#[verifier::external_type_specification]
#[verifier::external_body]
pub struct ExRegex(regex::Regex);

/// The error the regex crate reports for a pattern it cannot compile.
#[verifier::external_type_specification]
#[verifier::external_body]
pub struct ExRegexError(regex::Error);

/// A filesystem path, as std's owned path type.
#[verifier::external_type_specification]
#[verifier::external_body]
pub struct ExPathBuf(PathBuf);

/// Characters with a meaning of their own in a regular expression.
pub open spec fn is_meta_character(c: char) -> bool {
    c == '\\' || c == '.' || c == '+' || c == '*' || c == '?' || c == '(' || c == ')' || c
        == '|' || c == '[' || c == ']' || c == '{' || c == '}' || c == '^' || c == '$' || c
        == '#' || c == '&' || c == '-' || c == '~'
}

/// `text` with a backslash put before each meta character, so that it matches itself.
pub open spec fn escaped(text: Seq<char>) -> Seq<char>
    decreases text.len(),
{
    if text.len() == 0 {
        Seq::empty()
    } else {
        let c = text.last();
        let rest = escaped(text.drop_last());
        if is_meta_character(c) {
            rest + seq!['\\', c]
        } else {
            rest.push(c)
        }
    }
}

/// Whether the regex crate compiles `pattern` with the given case-insensitivity flag.
pub uninterp spec fn regex_compiles(pattern: Seq<char>, case_insensitive: bool) -> bool;

/// Relies on regex::escape, which puts a backslash before each meta character and
/// copies every other character.
#[verifier::external_body]
fn escape(text: &str) -> (r: String)
    ensures
        r@ == escaped(text@),
{
    regex::escape(text)
}

/// Relies on regex::RegexBuilder (new, case_insensitive, build): whether it compiles
/// depends on the pattern and the flag alone.
#[verifier::external_body]
fn build_regex(pattern: &str, case_insensitive: bool) -> (r: Result<regex::Regex, regex::Error>)
    ensures
        r is Ok <==> regex_compiles(pattern@, case_insensitive),
{
    let mut builder = regex::RegexBuilder::new(pattern);
    builder.case_insensitive(case_insensitive);
    builder.build()
}

/// Settings of the editor that the user can adjust.
#[derive(Clone, Debug, PartialEq, Eq)]
pub struct Config {
    pub app_theme: AppTheme,
    pub auto_indent: bool,
    pub find_case_sensitive: bool,
    pub find_use_regex: bool,
    pub find_wrap_around: bool,
    pub font_name: String,
    pub font_size: u16,
    pub font_size_zoom_step_mul_100: u16,
    pub highlight_current_line: bool,
    pub line_numbers: bool,
    pub syntax_theme_dark: String,
    pub syntax_theme_light: String,
    pub tab_width: u16,
    pub vim_bindings: bool,
    pub word_wrap: bool,
    /// Key combinations and the messages they send, in lookup order.
    pub keybinds: Vec<KeyBinding>,
}

impl Config {
    /// The baseline settings.
    pub open spec fn is_default(&self) -> bool {
        &&& self.app_theme == AppTheme::System
        &&& self.auto_indent
        &&& !self.find_case_sensitive
        &&& !self.find_use_regex
        &&& self.find_wrap_around
        &&& self.font_name@ == "Noto Sans Mono"@
        &&& self.font_size == 14
        &&& self.font_size_zoom_step_mul_100 == 100
        &&& self.highlight_current_line
        &&& self.line_numbers
        &&& self.syntax_theme_dark@ == "COSMIC Dark"@
        &&& self.syntax_theme_light@ == "COSMIC Light"@
        &&& self.tab_width == 4
        &&& !self.vim_bindings
        &&& self.word_wrap
        &&& self.keybinds@.len() == 0
    }
}

impl Default for Config {
    fn default() -> (r: Self)
        ensures
            r.is_default(),
    {
        Config {
            app_theme: AppTheme::System,
            auto_indent: true,
            find_case_sensitive: false,
            find_use_regex: false,
            find_wrap_around: true,
            font_name: "Noto Sans Mono".to_owned(),
            font_size: 14,
            font_size_zoom_step_mul_100: 100,
            highlight_current_line: true,
            line_numbers: true,
            syntax_theme_dark: "COSMIC Dark".to_owned(),
            syntax_theme_light: "COSMIC Light".to_owned(),
            tab_width: 4,
            vim_bindings: false,
            word_wrap: true,
            keybinds: Vec::new(),
        }
    }
}

/// Recently opened files and projects, each list in insertion order.
#[derive(Clone, Debug, PartialEq, Eq)]
pub struct ConfigState {
    pub recent_files: VecDeque<PathBuf>,
    pub recent_projects: VecDeque<PathBuf>,
}

impl Default for ConfigState {
    fn default() -> (r: Self)
        ensures
            r.recent_files@.len() == 0,
            r.recent_projects@.len() == 0,
    {
        ConfigState { recent_files: VecDeque::new(), recent_projects: VecDeque::new() }
    }
}

/// Font size and line height, the size in hundredths of a pixel, the height in whole pixels.
#[derive(Clone, Copy, Debug, PartialEq, Eq, Structural)]
pub struct FontMetrics {
    pub font_size_mul_100: u32,
    pub line_height: u32,
}

/// The smallest `n` with `n * d >= a`, for `a >= 0` and `d > 0`.
pub open spec fn ceil_div(a: int, d: int) -> int
    recommends
        a >= 0,
        d > 0,
{
    (a + d - 1) / d
}

/// Font size in hundredths of a pixel: the stored size (at least 1) moved by `zoom`
/// steps of `step_mul_100` hundredths, and never below one pixel.
pub open spec fn spec_font_size_adjusted_mul_100(font_size: u16, step_mul_100: u16, zoom: i8) -> int {
    let base: int = if font_size < 1 { 1 } else { font_size as int };
    let v = base * 100 + (zoom as int) * (step_mul_100 as int);
    if v < 100 { 100 } else { v }
}

/// Line height in pixels for a font size in hundredths of a pixel: 1.4 times the size,
/// rounded up.
pub open spec fn spec_line_height(font_size_mul_100: int) -> int {
    ceil_div(font_size_mul_100 * 14, 1000)
}

impl Config {
    /// The font size after `zoom_adj` zoom steps, in hundredths of a pixel.
    pub fn font_size_adjusted_mul_100(&self, zoom_adj: i8) -> (r: u32)
        ensures
            r == spec_font_size_adjusted_mul_100(
                self.font_size,
                self.font_size_zoom_step_mul_100,
                zoom_adj,
            ),
            r >= 100,
            zoom_adj == 0 && self.font_size >= 1 ==> r == self.font_size * 100,
    {
        let base: i64 = if self.font_size < 1 {
            1
        } else {
            self.font_size as i64
        };
        let step: i64 = self.font_size_zoom_step_mul_100 as i64;
        let zoom: i64 = zoom_adj as i64;
        assert(-128 * 65535 <= zoom * step <= 127 * 65535) by (nonlinear_arith)
            requires
                -128 <= zoom <= 127,
                0 <= step <= 65535,
        ;
        assert(zoom == 0 ==> zoom * step == 0) by (nonlinear_arith);
        let v: i64 = base * 100 + zoom * step;
        if v < 100 {
            100
        } else {
            v as u32
        }
    }

    /// Font metrics after `zoom_adj` zoom steps: the adjusted size and a line height of
    /// 1.4 times that size, rounded up to whole pixels.
    pub fn metrics(&self, zoom_adj: i8) -> (r: FontMetrics)
        ensures
            r.font_size_mul_100 == spec_font_size_adjusted_mul_100(
                self.font_size,
                self.font_size_zoom_step_mul_100,
                zoom_adj,
            ),
            r.line_height == spec_line_height(r.font_size_mul_100 as int),
            r.line_height * 1000 >= r.font_size_mul_100 * 14,
            (r.line_height - 1) * 1000 < r.font_size_mul_100 * 14,
    {
        let font_size_mul_100 = self.font_size_adjusted_mul_100(zoom_adj);
        assert(font_size_mul_100 <= 65535 * 100 + 127 * 65535) by (nonlinear_arith)
            requires
                font_size_mul_100 == spec_font_size_adjusted_mul_100(
                    self.font_size,
                    self.font_size_zoom_step_mul_100,
                    zoom_adj,
                ),
        ;
        let line_height: u64 = (font_size_mul_100 as u64 * 14 + 999) / 1000;
        FontMetrics { font_size_mul_100, line_height: line_height as u32 }
    }

    /// The text handed to the regex compiler for a search: the pattern itself in regex
    /// mode, else the pattern with every meta character escaped.
    pub open spec fn spec_search_pattern(&self, pattern: Seq<char>) -> Seq<char> {
        if self.find_use_regex {
            pattern
        } else {
            escaped(pattern)
        }
    }

    /// The text that a search for `pattern` compiles, following the regex-mode setting.
    pub fn search_pattern(&self, pattern: &str) -> (r: String)
        ensures
            r@ == self.spec_search_pattern(pattern@),
    {
        if self.find_use_regex {
            pattern.to_owned()
        } else {
            escape(pattern)
        }
    }

    /// Compiles a search for `pattern`: literal unless regex mode is on, and ignoring case
    /// unless the search is case sensitive. Fails exactly when the compiler rejects it.
    pub fn find_regex(&self, pattern: &str) -> (r: Result<regex::Regex, regex::Error>)
        ensures
            r is Ok <==> regex_compiles(
                self.spec_search_pattern(pattern@),
                !self.find_case_sensitive,
            ),
    {
        let text = self.search_pattern(pattern);
        build_regex(text.as_str(), !self.find_case_sensitive)
    }

    /// The name of the syntax theme in use: the dark one when the resolved theme is dark.
    pub open spec fn spec_syntax_theme(&self, system_prefers_dark: bool) -> Seq<char> {
        if self.app_theme.spec_theme(system_prefers_dark).spec_is_dark() {
            self.syntax_theme_dark@
        } else {
            self.syntax_theme_light@
        }
    }

    /// The name of the syntax theme in use, given whether the host prefers a dark theme.
    pub fn syntax_theme(&self, system_prefers_dark: bool) -> (r: &str)
        ensures
            r@ == self.spec_syntax_theme(system_prefers_dark),
    {
        let dark = self.app_theme.theme(system_prefers_dark).is_dark();
        if dark {
            self.syntax_theme_dark.as_str()
        } else {
            self.syntax_theme_light.as_str()
        }
    }
}

} // verus!
