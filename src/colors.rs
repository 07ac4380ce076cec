//! Terminal colors that respect the chosen mode, `NO_COLOR` and whether the
//! output goes to a terminal.
use crate::text::{join3, lower_of, to_lower};
use colored::{ColoredString, Colorize};
use vstd::prelude::*;

verus! {

broadcast use vstd::string::group_string_axioms;

#[verifier::external_type_specification]
#[verifier::external_body]
pub struct ExColoredString(ColoredString);

/// What `Colorize::red` makes of a text.
pub uninterp spec fn red_of(s: Seq<char>) -> ColoredString;

/// What `Colorize::green` makes of a text.
pub uninterp spec fn green_of(s: Seq<char>) -> ColoredString;

/// What `Colorize::blue` makes of a text.
pub uninterp spec fn blue_of(s: Seq<char>) -> ColoredString;

/// What `Colorize::yellow` makes of a text.
pub uninterp spec fn yellow_of(s: Seq<char>) -> ColoredString;

/// What `Colorize::cyan` makes of a text.
pub uninterp spec fn cyan_of(s: Seq<char>) -> ColoredString;

/// What `Colorize::magenta` makes of a text.
pub uninterp spec fn magenta_of(s: Seq<char>) -> ColoredString;

/// What `Colorize::bold` makes of a text.
pub uninterp spec fn bold_of(s: Seq<char>) -> ColoredString;

/// What `Colorize::dimmed` makes of a text.
pub uninterp spec fn dimmed_of(s: Seq<char>) -> ColoredString;

/// What `Colorize::normal` makes of a text.
pub uninterp spec fn normal_of(s: Seq<char>) -> ColoredString;

/// Relies on `Colorize::red` for `&str`: a value that depends on the text alone.
#[verifier::external_body]
fn paint_red(s: &str) -> (r: ColoredString)
    ensures
        r == red_of(s@),
{
    s.red()
}

/// Relies on `Colorize::green` for `&str`: a value that depends on the text alone.
#[verifier::external_body]
fn paint_green(s: &str) -> (r: ColoredString)
    ensures
        r == green_of(s@),
{
    s.green()
}

/// Relies on `Colorize::blue` for `&str`: a value that depends on the text alone.
#[verifier::external_body]
fn paint_blue(s: &str) -> (r: ColoredString)
    ensures
        r == blue_of(s@),
{
    s.blue()
}

/// Relies on `Colorize::yellow` for `&str`: a value that depends on the text alone.
#[verifier::external_body]
fn paint_yellow(s: &str) -> (r: ColoredString)
    ensures
        r == yellow_of(s@),
{
    s.yellow()
}

/// Relies on `Colorize::cyan` for `&str`: a value that depends on the text alone.
#[verifier::external_body]
fn paint_cyan(s: &str) -> (r: ColoredString)
    ensures
        r == cyan_of(s@),
{
    s.cyan()
}

/// Relies on `Colorize::magenta` for `&str`: a value that depends on the text alone.
#[verifier::external_body]
fn paint_magenta(s: &str) -> (r: ColoredString)
    ensures
        r == magenta_of(s@),
{
    s.magenta()
}

/// Relies on `Colorize::bold` for `&str`: a value that depends on the text alone.
#[verifier::external_body]
fn paint_bold(s: &str) -> (r: ColoredString)
    ensures
        r == bold_of(s@),
{
    s.bold()
}

/// Relies on `Colorize::dimmed` for `&str`: a value that depends on the text alone.
#[verifier::external_body]
fn paint_dimmed(s: &str) -> (r: ColoredString)
    ensures
        r == dimmed_of(s@),
{
    s.dimmed()
}

/// Relies on `Colorize::normal` for `&str`: a value that depends on the text alone.
#[verifier::external_body]
fn paint_normal(s: &str) -> (r: ColoredString)
    ensures
        r == normal_of(s@),
{
    s.normal()
}

/// Relies on `Display` for `ColoredString`: the text with its escape codes.
/// Whether codes are written depends on the environment, so nothing is said
/// of the result.
#[verifier::external_body]
fn render(c: ColoredString) -> (r: String) {
    c.to_string()
}

/// Relies on `IsTerminal::is_terminal` for standard output. It depends on the
/// process, so nothing is said of the result.
#[verifier::external_body]
fn stdout_is_terminal() -> (r: bool) {
    is_terminal::IsTerminal::is_terminal(&std::io::stdout())
}

/// Relies on `IsTerminal::is_terminal` for standard error. It depends on the
/// process, so nothing is said of the result.
#[verifier::external_body]
fn stderr_is_terminal() -> (r: bool) {
    is_terminal::IsTerminal::is_terminal(&std::io::stderr())
}

/// When to color output.
#[derive(Debug, Clone, Copy, PartialEq, Eq, Structural)]
pub enum ColorMode {
    /// Color when the output is a terminal.
    Auto,
    /// Always color.
    Always,
    /// Never color.
    Never,
}

/// The mode a text names, in any case: `auto`, `always` or `never`.
pub open spec fn color_mode_of(s: Seq<char>) -> Option<ColorMode> {
    let l = lower_of(s);
    if l == "auto"@ {
        Some(ColorMode::Auto)
    } else if l == "always"@ {
        Some(ColorMode::Always)
    } else if l == "never"@ {
        Some(ColorMode::Never)
    } else {
        None
    }
}

/// The message for a text that names no mode.
pub open spec fn invalid_mode_message(s: Seq<char>) -> Seq<char> {
    "Invalid color mode: '"@ + s + "'. Valid options: auto, always, never"@
}

impl ColorMode {
    /// The mode a text names, in any case; an error message for any other text.
    pub fn parse(s: &str) -> (r: Result<ColorMode, String>)
        ensures
            color_mode_of(s@) matches Some(m) ==> r == Ok::<ColorMode, String>(m),
            color_mode_of(s@) is None ==> (r matches Err(e) && e@ == invalid_mode_message(s@)),
    {
        let l = to_lower(s);
        if crate::client::same_text(l.as_str(), "auto") {
            Ok(ColorMode::Auto)
        } else if crate::client::same_text(l.as_str(), "always") {
            Ok(ColorMode::Always)
        } else if crate::client::same_text(l.as_str(), "never") {
            Ok(ColorMode::Never)
        } else {
            Err(join3("Invalid color mode: '", s, "'. Valid options: auto, always, never"))
        }
    }
}

impl Default for ColorMode {
    fn default() -> (r: ColorMode)
        ensures
            r == ColorMode::Auto,
    {
        ColorMode::Auto
    }
}

impl std::str::FromStr for ColorMode {
    type Err = String;

    fn from_str(s: &str) -> Result<ColorMode, String> {
        ColorMode::parse(s)
    }
}

/// Whether to color, given the mode, whether the stream is a terminal, and
/// whether `NO_COLOR` asks for no color.
pub open spec fn use_colors(mode: ColorMode, is_terminal: bool, no_color: bool) -> bool {
    !no_color && match mode {
        ColorMode::Never => false,
        ColorMode::Always => true,
        ColorMode::Auto => is_terminal,
    }
}

/// Decides whether output is colored.
#[derive(Debug, Clone, Copy, PartialEq, Eq, Structural)]
pub struct ColorHelper {
    pub mode: ColorMode,
    pub stdout_is_terminal: bool,
    pub stderr_is_terminal: bool,
    /// `NO_COLOR` is set to a non-empty value.
    pub no_color: bool,
}

impl ColorHelper {
    /// A helper for a mode, with the terminal state of this process's
    /// standard output and error. `NO_COLOR` is not consulted here: see
    /// [`ColorHelper::with_no_color`].
    pub fn new(mode: ColorMode) -> (r: ColorHelper)
        ensures
            r.mode == mode,
            !r.no_color,
    {
        ColorHelper {
            mode,
            stdout_is_terminal: stdout_is_terminal(),
            stderr_is_terminal: stderr_is_terminal(),
            no_color: false,
        }
    }

    /// The same helper, told whether `NO_COLOR` asks for no color.
    pub fn with_no_color(self, no_color: bool) -> (r: ColorHelper)
        ensures
            r == (ColorHelper { no_color, ..self }),
    {
        ColorHelper { no_color, ..self }
    }

    /// Whether output to standard output is colored.
    pub fn should_color_stdout(&self) -> (r: bool)
        ensures
            r == use_colors(self.mode, self.stdout_is_terminal, self.no_color),
    {
        self.should_use_colors(self.stdout_is_terminal)
    }

    /// Whether output to standard error is colored.
    pub fn should_color_stderr(&self) -> (r: bool)
        ensures
            r == use_colors(self.mode, self.stderr_is_terminal, self.no_color),
    {
        self.should_use_colors(self.stderr_is_terminal)
    }

    fn should_use_colors(&self, is_terminal: bool) -> (r: bool)
        ensures
            r == use_colors(self.mode, is_terminal, self.no_color),
    {
        if self.no_color {
            return false;
        }
        match self.mode {
            ColorMode::Never => false,
            ColorMode::Always => true,
            ColorMode::Auto => is_terminal,
        }
    }

    /// Red text, or plain text when standard output is not colored.
    pub fn red(&self, text: &str) -> (r: ColoredString)
        ensures
            r == if use_colors(self.mode, self.stdout_is_terminal, self.no_color) { red_of(text@) } else { normal_of(text@) },
    {
        if self.should_color_stdout() { paint_red(text) } else { paint_normal(text) }
    }

    /// Green text, or plain text when standard output is not colored.
    pub fn green(&self, text: &str) -> (r: ColoredString)
        ensures
            r == if use_colors(self.mode, self.stdout_is_terminal, self.no_color) { green_of(text@) } else { normal_of(text@) },
    {
        if self.should_color_stdout() { paint_green(text) } else { paint_normal(text) }
    }

    /// Blue text, or plain text when standard output is not colored.
    pub fn blue(&self, text: &str) -> (r: ColoredString)
        ensures
            r == if use_colors(self.mode, self.stdout_is_terminal, self.no_color) { blue_of(text@) } else { normal_of(text@) },
    {
        if self.should_color_stdout() { paint_blue(text) } else { paint_normal(text) }
    }

    /// Yellow text, or plain text when standard output is not colored.
    pub fn yellow(&self, text: &str) -> (r: ColoredString)
        ensures
            r == if use_colors(self.mode, self.stdout_is_terminal, self.no_color) { yellow_of(text@) } else { normal_of(text@) },
    {
        if self.should_color_stdout() { paint_yellow(text) } else { paint_normal(text) }
    }

    /// Cyan text, or plain text when standard output is not colored.
    pub fn cyan(&self, text: &str) -> (r: ColoredString)
        ensures
            r == if use_colors(self.mode, self.stdout_is_terminal, self.no_color) { cyan_of(text@) } else { normal_of(text@) },
    {
        if self.should_color_stdout() { paint_cyan(text) } else { paint_normal(text) }
    }

    /// Magenta text, or plain text when standard output is not colored.
    pub fn magenta(&self, text: &str) -> (r: ColoredString)
        ensures
            r == if use_colors(self.mode, self.stdout_is_terminal, self.no_color) { magenta_of(text@) } else { normal_of(text@) },
    {
        if self.should_color_stdout() { paint_magenta(text) } else { paint_normal(text) }
    }

    /// Bold text, or plain text when standard output is not colored.
    pub fn bold(&self, text: &str) -> (r: ColoredString)
        ensures
            r == if use_colors(self.mode, self.stdout_is_terminal, self.no_color) { bold_of(text@) } else { normal_of(text@) },
    {
        if self.should_color_stdout() { paint_bold(text) } else { paint_normal(text) }
    }

    /// Dimmed text, or plain text when standard output is not colored.
    pub fn dimmed(&self, text: &str) -> (r: ColoredString)
        ensures
            r == if use_colors(self.mode, self.stdout_is_terminal, self.no_color) { dimmed_of(text@) } else { normal_of(text@) },
    {
        if self.should_color_stdout() { paint_dimmed(text) } else { paint_normal(text) }
    }

    /// A builder of chained styles for standard output.
    pub fn style(&self) -> (r: StyleBuilder)
        ensures
            r.should_color == use_colors(self.mode, self.stdout_is_terminal, self.no_color),
    {
        StyleBuilder::new(self.should_color_stdout())
    }
}

/// Starts a chain of styles on a text.
#[derive(Debug, Clone, Copy, PartialEq, Eq, Structural)]
pub struct StyleBuilder {
    pub should_color: bool,
}

impl StyleBuilder {
    /// A builder that colors or not.
    pub fn new(should_color: bool) -> (r: StyleBuilder)
        ensures
            r.should_color == should_color,
    {
        StyleBuilder { should_color }
    }

    /// The text in red.
    pub fn red(self, text: &str) -> (r: ChainedStyle)
        ensures
            r.should_color == self.should_color,
            !self.should_color ==> r.text@ == text@,
    {
        ChainedStyle::new(text, self.should_color).red()
    }

    /// The text in green.
    pub fn green(self, text: &str) -> (r: ChainedStyle)
        ensures
            r.should_color == self.should_color,
            !self.should_color ==> r.text@ == text@,
    {
        ChainedStyle::new(text, self.should_color).green()
    }

    /// The text in blue.
    pub fn blue(self, text: &str) -> (r: ChainedStyle)
        ensures
            r.should_color == self.should_color,
            !self.should_color ==> r.text@ == text@,
    {
        ChainedStyle::new(text, self.should_color).blue()
    }

    /// The text in yellow.
    pub fn yellow(self, text: &str) -> (r: ChainedStyle)
        ensures
            r.should_color == self.should_color,
            !self.should_color ==> r.text@ == text@,
    {
        ChainedStyle::new(text, self.should_color).yellow()
    }

    /// The text in cyan.
    pub fn cyan(self, text: &str) -> (r: ChainedStyle)
        ensures
            r.should_color == self.should_color,
            !self.should_color ==> r.text@ == text@,
    {
        ChainedStyle::new(text, self.should_color).cyan()
    }

    /// The text in magenta.
    pub fn magenta(self, text: &str) -> (r: ChainedStyle)
        ensures
            r.should_color == self.should_color,
            !self.should_color ==> r.text@ == text@,
    {
        ChainedStyle::new(text, self.should_color).magenta()
    }

    /// The text in bold.
    pub fn bold(self, text: &str) -> (r: ChainedStyle)
        ensures
            r.should_color == self.should_color,
            !self.should_color ==> r.text@ == text@,
    {
        ChainedStyle::new(text, self.should_color).bold()
    }

    /// The text dimmed.
    pub fn dimmed(self, text: &str) -> (r: ChainedStyle)
        ensures
            r.should_color == self.should_color,
            !self.should_color ==> r.text@ == text@,
    {
        ChainedStyle::new(text, self.should_color).dimmed()
    }
}

/// A text with styles applied so far; each style is applied only when
/// coloring, and otherwise leaves the text as it is.
#[derive(Debug, Clone)]
pub struct ChainedStyle {
    pub text: String,
    pub should_color: bool,
}

impl ChainedStyle {
    /// A text with no style yet.
    pub fn new(text: &str, should_color: bool) -> (r: ChainedStyle)
        ensures
            r.text@ == text@,
            r.should_color == should_color,
    {
        ChainedStyle { text: text.to_string(), should_color }
    }

    /// The styled text.
    pub fn text(&self) -> (r: String)
        ensures
            r@ == self.text@,
    {
        self.text.clone()
    }

    /// Adds red.
    pub fn red(self) -> (r: ChainedStyle)
        ensures
            r.should_color == self.should_color,
            !self.should_color ==> r.text@ == self.text@,
    {
        if self.should_color {
            ChainedStyle { text: render(paint_red(self.text.as_str())), should_color: true }
        } else {
            self
        }
    }

    /// Adds green.
    pub fn green(self) -> (r: ChainedStyle)
        ensures
            r.should_color == self.should_color,
            !self.should_color ==> r.text@ == self.text@,
    {
        if self.should_color {
            ChainedStyle { text: render(paint_green(self.text.as_str())), should_color: true }
        } else {
            self
        }
    }

    /// Adds blue.
    pub fn blue(self) -> (r: ChainedStyle)
        ensures
            r.should_color == self.should_color,
            !self.should_color ==> r.text@ == self.text@,
    {
        if self.should_color {
            ChainedStyle { text: render(paint_blue(self.text.as_str())), should_color: true }
        } else {
            self
        }
    }

    /// Adds yellow.
    pub fn yellow(self) -> (r: ChainedStyle)
        ensures
            r.should_color == self.should_color,
            !self.should_color ==> r.text@ == self.text@,
    {
        if self.should_color {
            ChainedStyle { text: render(paint_yellow(self.text.as_str())), should_color: true }
        } else {
            self
        }
    }

    /// Adds cyan.
    pub fn cyan(self) -> (r: ChainedStyle)
        ensures
            r.should_color == self.should_color,
            !self.should_color ==> r.text@ == self.text@,
    {
        if self.should_color {
            ChainedStyle { text: render(paint_cyan(self.text.as_str())), should_color: true }
        } else {
            self
        }
    }

    /// Adds magenta.
    pub fn magenta(self) -> (r: ChainedStyle)
        ensures
            r.should_color == self.should_color,
            !self.should_color ==> r.text@ == self.text@,
    {
        if self.should_color {
            ChainedStyle { text: render(paint_magenta(self.text.as_str())), should_color: true }
        } else {
            self
        }
    }

    /// Adds bold.
    pub fn bold(self) -> (r: ChainedStyle)
        ensures
            r.should_color == self.should_color,
            !self.should_color ==> r.text@ == self.text@,
    {
        if self.should_color {
            ChainedStyle { text: render(paint_bold(self.text.as_str())), should_color: true }
        } else {
            self
        }
    }

    /// Adds dimmed.
    pub fn dimmed(self) -> (r: ChainedStyle)
        ensures
            r.should_color == self.should_color,
            !self.should_color ==> r.text@ == self.text@,
    {
        if self.should_color {
            ChainedStyle { text: render(paint_dimmed(self.text.as_str())), should_color: true }
        } else {
            self
        }
    }
}

/// The text as is, when there is no helper or standard output is not colored.
pub open spec fn plain_output(helper: Option<ColorHelper>) -> bool {
    match helper {
        None => true,
        Some(h) => !use_colors(h.mode, h.stdout_is_terminal, h.no_color),
    }
}

/// Text in bold red (errors).
pub fn color_red_bold(helper: Option<ColorHelper>, text: &str) -> (r: String)
    ensures
        plain_output(helper) ==> r@ == text@,
{
    match helper {
        Some(h) => h.style().red(text).bold().text(),
        None => text.to_string(),
    }
}

/// Text in bold green (success).
pub fn color_green_bold(helper: Option<ColorHelper>, text: &str) -> (r: String)
    ensures
        plain_output(helper) ==> r@ == text@,
{
    match helper {
        Some(h) => h.style().green(text).bold().text(),
        None => text.to_string(),
    }
}

/// Text in bold blue (headings).
pub fn color_blue_bold(helper: Option<ColorHelper>, text: &str) -> (r: String)
    ensures
        plain_output(helper) ==> r@ == text@,
{
    match helper {
        Some(h) => h.style().blue(text).bold().text(),
        None => text.to_string(),
    }
}

/// Text in bold yellow (warnings).
pub fn color_yellow_bold(helper: Option<ColorHelper>, text: &str) -> (r: String)
    ensures
        plain_output(helper) ==> r@ == text@,
{
    match helper {
        Some(h) => h.style().yellow(text).bold().text(),
        None => text.to_string(),
    }
}

/// Text in cyan.
pub fn color_cyan(helper: Option<ColorHelper>, text: &str) -> (r: String)
    ensures
        plain_output(helper) ==> r@ == text@,
{
    match helper {
        Some(h) => if h.should_color_stdout() { render(h.cyan(text)) } else { text.to_string() },
        None => text.to_string(),
    }
}

/// Text in blue.
pub fn color_blue(helper: Option<ColorHelper>, text: &str) -> (r: String)
    ensures
        plain_output(helper) ==> r@ == text@,
{
    match helper {
        Some(h) => if h.should_color_stdout() { render(h.blue(text)) } else { text.to_string() },
        None => text.to_string(),
    }
}

/// Text in green.
pub fn color_green(helper: Option<ColorHelper>, text: &str) -> (r: String)
    ensures
        plain_output(helper) ==> r@ == text@,
{
    match helper {
        Some(h) => if h.should_color_stdout() { render(h.green(text)) } else { text.to_string() },
        None => text.to_string(),
    }
}

/// Text in yellow.
pub fn color_yellow(helper: Option<ColorHelper>, text: &str) -> (r: String)
    ensures
        plain_output(helper) ==> r@ == text@,
{
    match helper {
        Some(h) => if h.should_color_stdout() { render(h.yellow(text)) } else { text.to_string() },
        None => text.to_string(),
    }
}

/// Text in red.
pub fn color_red(helper: Option<ColorHelper>, text: &str) -> (r: String)
    ensures
        plain_output(helper) ==> r@ == text@,
{
    match helper {
        Some(h) => if h.should_color_stdout() { render(h.red(text)) } else { text.to_string() },
        None => text.to_string(),
    }
}

/// Text dimmed.
pub fn color_dimmed(helper: Option<ColorHelper>, text: &str) -> (r: String)
    ensures
        plain_output(helper) ==> r@ == text@,
{
    match helper {
        Some(h) => if h.should_color_stdout() { render(h.dimmed(text)) } else { text.to_string() },
        None => text.to_string(),
    }
}

/// Text in bold.
pub fn color_bold(helper: Option<ColorHelper>, text: &str) -> (r: String)
    ensures
        plain_output(helper) ==> r@ == text@,
{
    match helper {
        Some(h) => if h.should_color_stdout() { render(h.bold(text)) } else { text.to_string() },
        None => text.to_string(),
    }
}

} // verus!
