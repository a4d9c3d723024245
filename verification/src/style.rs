//! Display attributes for prompt segments: a foreground color and a weight.
//!
//! The ANSI escape rendering itself is done by `nu_ansi_term`; this module
//! only models which attributes a segment carries and names the painted text.

use vstd::prelude::*;

verus! {

/// The foreground colors the prompt uses.
#[derive(Clone, Copy, Debug, PartialEq, Eq)]
pub enum Color {
    Green,
    Yellow,
    Cyan,
    Red,
    LightBlue,
    DarkGray,
}

/// Display attributes of one segment: an optional foreground color and bold.
#[derive(Clone, Copy, Debug, PartialEq, Eq)]
pub struct Style {
    pub fg: Option<Color>,
    pub bold: bool,
}

impl Style {
    /// A style with no attributes set.
    pub fn new() -> (r: Style)
        ensures
            r.fg is None,
            !r.bold,
    {
        Style { fg: None, bold: false }
    }

    /// The same style with the given foreground color.
    pub fn with_fg(self, color: Color) -> (r: Style)
        ensures
            r.fg == Some(color),
            r.bold == self.bold,
    {
        Style { fg: Some(color), ..self }
    }

    /// The same style with bold weight.
    pub fn with_bold(self) -> (r: Style)
        ensures
            r.fg == self.fg,
            r.bold,
    {
        Style { bold: true, ..self }
    }
}

impl Default for Style {
    fn default() -> (r: Style)
        ensures
            r.fg is None,
            !r.bold,
    {
        Style::new()
    }
}

/// The text that painting `text` with `style` produces: the ANSI escape
/// sequence for the style's attributes, the text, and the reset sequence.
pub uninterp spec fn painted(text: Seq<char>, style: Style) -> Seq<char>;

/// Relies on `nu_ansi_term::Style::paint` (and on `Display` of the painted
/// string it returns): the result is a function of the text and the style
/// attributes alone, and a style with no attributes set paints no escape
/// codes at all — the text comes back unchanged.
#[verifier::external_body]
pub(crate) fn paint(text: &str, style: Style) -> (r: String)
    ensures
        r@ == painted(text@, style),
        style.fg is None && !style.bold ==> r@ == text@,
{
    let mut s = nu_ansi_term::Style::new();
    if let Some(color) = style.fg {
        s = s.fg(match color {
            Color::Green => nu_ansi_term::Color::Green,
            Color::Yellow => nu_ansi_term::Color::Yellow,
            Color::Cyan => nu_ansi_term::Color::Cyan,
            Color::Red => nu_ansi_term::Color::Red,
            Color::LightBlue => nu_ansi_term::Color::LightBlue,
            Color::DarkGray => nu_ansi_term::Color::DarkGray,
        });
    }
    if style.bold {
        s = s.bold();
    }
    s.paint(text).to_string()
}

} // verus!
