use crate::color::Color;
use vstd::prelude::*;

verus! {

/// The visual attributes of a highlight group. `None` leaves an attribute to
/// the editor's defaults; it is never written out.
#[derive(Clone, Copy, Debug, PartialEq, Eq, Structural)]
#[non_exhaustive]
pub struct Style {
    pub foreground: Option<Color>,
    pub background: Option<Color>,
    pub special: Option<Color>,
    pub bold: Option<bool>,
    pub italic: Option<bool>,
    pub strikethrough: Option<bool>,
    pub underline: Option<UnderlineStyle>,
    pub reversed: bool,
}

/// The line drawn under text.
#[derive(Clone, Copy, Debug, PartialEq, Eq, Hash, Structural)]
#[non_exhaustive]
pub enum UnderlineStyle {
    Single,
    Double,
    Curly,
    Dotted,
    Dashed,
}

impl Style {
    /// The style that sets nothing.
    pub open spec fn unset() -> Style {
        Style {
            foreground: None,
            background: None,
            special: None,
            bold: None,
            italic: None,
            strikethrough: None,
            underline: None,
            reversed: false,
        }
    }

    /// The style that sets nothing but reverse video.
    pub fn reverse() -> (r: Self)
        ensures
            r == (Style { reversed: true, ..Style::unset() }),
    {
        Self { reversed: true, ..Self::default() }
    }

    /// Sets the foreground.
    pub fn foreground(self, color: Color) -> (r: Self)
        ensures
            r == (Style { foreground: Some(color), ..self }),
    {
        Self { foreground: Some(color), ..self }
    }

    /// Leaves the foreground to the editor.
    pub fn no_foreground(self) -> (r: Self)
        ensures
            r == (Style { foreground: None, ..self }),
    {
        Self { foreground: None, ..self }
    }

    /// Sets the background.
    pub fn background(self, color: Color) -> (r: Self)
        ensures
            r == (Style { background: Some(color), ..self }),
    {
        Self { background: Some(color), ..self }
    }

    /// Leaves the background to the editor.
    pub fn no_background(self) -> (r: Self)
        ensures
            r == (Style { background: None, ..self }),
    {
        Self { background: None, ..self }
    }

    /// Sets the special (underline) colour.
    pub fn special(self, color: Color) -> (r: Self)
        ensures
            r == (Style { special: Some(color), ..self }),
    {
        Self { special: Some(color), ..self }
    }

    /// Leaves the special (underline) colour to the editor.
    pub fn no_special(self) -> (r: Self)
        ensures
            r == (Style { special: None, ..self }),
    {
        Self { special: None, ..self }
    }

    /// Leaves underlining to the editor.
    pub fn no_underline(self) -> (r: Self)
        ensures
            r == (Style { underline: None, ..self }),
    {
        Self { underline: None, ..self }
    }

    /// Underlines with a single line.
    pub fn underline(self) -> (r: Self)
        ensures
            r == (Style { underline: Some(UnderlineStyle::Single), ..self }),
    {
        Self { underline: Some(UnderlineStyle::Single), ..self }
    }

    /// Underlines with a double line.
    pub fn double_underline(self) -> (r: Self)
        ensures
            r == (Style { underline: Some(UnderlineStyle::Double), ..self }),
    {
        Self { underline: Some(UnderlineStyle::Double), ..self }
    }

    /// Underlines with a curly line.
    pub fn curly_underline(self) -> (r: Self)
        ensures
            r == (Style { underline: Some(UnderlineStyle::Curly), ..self }),
    {
        Self { underline: Some(UnderlineStyle::Curly), ..self }
    }

    /// Underlines with a dotted line.
    pub fn dotted_underline(self) -> (r: Self)
        ensures
            r == (Style { underline: Some(UnderlineStyle::Dotted), ..self }),
    {
        Self { underline: Some(UnderlineStyle::Dotted), ..self }
    }

    /// Underlines with a dashed line.
    pub fn dashed_underline(self) -> (r: Self)
        ensures
            r == (Style { underline: Some(UnderlineStyle::Dashed), ..self }),
    {
        Self { underline: Some(UnderlineStyle::Dashed), ..self }
    }
}

impl Default for Style {
    fn default() -> (r: Self)
        ensures
            r == Style::unset(),
    {
        Style {
            foreground: None,
            background: None,
            special: None,
            bold: None,
            italic: None,
            strikethrough: None,
            underline: None,
            reversed: false,
        }
    }
}

} // verus!
