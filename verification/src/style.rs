//! A plain, fully specified model of a text style: a foreground and a
//! background colour plus a few attributes.  Styles are carried through the
//! configuration registry and applied to text only at the moment a line is
//! rendered for the error stream.

use vstd::prelude::*;

verus! {

/// One of the eight standard terminal colours.
#[derive(Clone, Copy, Debug, PartialEq, Eq)]
pub enum Color {
    Black,
    Red,
    Green,
    Yellow,
    Blue,
    Magenta,
    Cyan,
    White,
}

/// A text style: optional foreground and background colours and a set of
/// attributes.  A freshly made style has no colour and no attribute set.
#[derive(Clone, Copy, Debug, PartialEq, Eq)]
pub struct TextStyle {
    /// The foreground colour, if any.
    pub fg: Option<Color>,
    /// The background colour, if any.
    pub bg: Option<Color>,
    /// Render the text bold.
    pub bold: bool,
    /// Render the text italic.
    pub italic: bool,
    /// Render the text underlined.
    pub underline: bool,
    /// Render the text dimmed.
    pub dimmed: bool,
}

impl TextStyle {
    /// The style that leaves text exactly as it is.
    pub open spec fn plain() -> TextStyle {
        TextStyle { fg: None, bg: None, bold: false, italic: false, underline: false, dimmed: false }
    }

    /// Makes a style with no colour and no attribute set.
    pub fn new() -> (s: TextStyle)
        ensures
            s == TextStyle::plain(),
    {
        TextStyle { fg: None, bg: None, bold: false, italic: false, underline: false, dimmed: false }
    }

    /// Sets the foreground colour.
    pub fn fg(self, c: Color) -> (s: TextStyle)
        ensures
            s == (TextStyle { fg: Some(c), ..self }),
    {
        TextStyle { fg: Some(c), ..self }
    }

    /// Sets the background colour.
    pub fn bg(self, c: Color) -> (s: TextStyle)
        ensures
            s == (TextStyle { bg: Some(c), ..self }),
    {
        TextStyle { bg: Some(c), ..self }
    }

    /// Sets the bold attribute.
    pub fn bold(self) -> (s: TextStyle)
        ensures
            s == (TextStyle { bold: true, ..self }),
    {
        TextStyle { bold: true, ..self }
    }

    /// Sets the italic attribute.
    pub fn italic(self) -> (s: TextStyle)
        ensures
            s == (TextStyle { italic: true, ..self }),
    {
        TextStyle { italic: true, ..self }
    }

    /// Sets the underline attribute.
    pub fn underline(self) -> (s: TextStyle)
        ensures
            s == (TextStyle { underline: true, ..self }),
    {
        TextStyle { underline: true, ..self }
    }

    /// Sets the dimmed attribute.
    pub fn dimmed(self) -> (s: TextStyle)
        ensures
            s == (TextStyle { dimmed: true, ..self }),
    {
        TextStyle { dimmed: true, ..self }
    }

    /// Sets the foreground colour to red.
    pub fn red(self) -> (s: TextStyle)
        ensures
            s == (TextStyle { fg: Some(Color::Red), ..self }),
    {
        TextStyle { fg: Some(Color::Red), ..self }
    }

    /// Sets the foreground colour to yellow.
    pub fn yellow(self) -> (s: TextStyle)
        ensures
            s == (TextStyle { fg: Some(Color::Yellow), ..self }),
    {
        TextStyle { fg: Some(Color::Yellow), ..self }
    }

    /// Sets the foreground colour to blue.
    pub fn blue(self) -> (s: TextStyle)
        ensures
            s == (TextStyle { fg: Some(Color::Blue), ..self }),
    {
        TextStyle { fg: Some(Color::Blue), ..self }
    }
}

} // verus!
