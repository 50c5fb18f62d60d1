//! One grid position of the terminal screen: a character together with its
//! display attributes.

use vstd::prelude::*;

verus! {

/// An RGBA display color, 8 bits per channel.
#[derive(Clone, Copy, Debug, PartialEq, Eq, Structural)]
pub struct Color {
    pub r: u8,
    pub g: u8,
    pub b: u8,
    pub a: u8,
}

impl Color {
    /// A fully opaque color from its three components.
    pub fn rgb(r: u8, g: u8, b: u8) -> (c: Color)
        ensures
            c == (Color { r, g, b, a: 255u8 }),
    {
        Color { r, g, b, a: 255 }
    }

    /// The fully transparent color.
    pub fn transparent() -> (c: Color)
        ensures
            c == Color::transparent_spec(),
    {
        Color { r: 0, g: 0, b: 0, a: 0 }
    }

    /// Opaque white.
    pub fn white() -> (c: Color)
        ensures
            c == Color::white_spec(),
    {
        Color { r: 255, g: 255, b: 255, a: 255 }
    }

    pub open spec fn rgb_spec(r: u8, g: u8, b: u8) -> Color {
        Color { r, g, b, a: 255u8 }
    }

    pub open spec fn transparent_spec() -> Color {
        Color { r: 0u8, g: 0u8, b: 0u8, a: 0u8 }
    }

    pub open spec fn white_spec() -> Color {
        Color { r: 255u8, g: 255u8, b: 255u8, a: 255u8 }
    }
}

/// One cell of the terminal grid.
///
/// A cell marked as a continuation is the second column of a double-width
/// character and carries no independent glyph.
#[derive(Clone, Copy, Debug, PartialEq, Eq, Structural)]
pub struct TerminalCell {
    pub character: char,
    pub fg_color: Color,
    pub bg_color: Color,
    pub bold: bool,
    pub italic: bool,
    pub underline: bool,
    pub is_continuation: bool,
    pub is_selected: bool,
}

impl TerminalCell {
    /// The value of a freshly cleared cell: a blank space with the standard
    /// foreground over a transparent background and no attributes.
    pub open spec fn default_spec() -> TerminalCell {
        TerminalCell {
            character: ' ',
            fg_color: Color::white_spec(),
            bg_color: Color::transparent_spec(),
            bold: false,
            italic: false,
            underline: false,
            is_continuation: false,
            is_selected: false,
        }
    }

    /// `cell` with its selection-highlight flag replaced.
    pub open spec fn with_selected_spec(self, sel: bool) -> TerminalCell {
        TerminalCell { is_selected: sel, ..self }
    }
}

impl Default for TerminalCell {
    fn default() -> (c: TerminalCell)
        ensures
            c == TerminalCell::default_spec(),
    {
        TerminalCell {
            character: ' ',
            fg_color: Color::white(),
            bg_color: Color::transparent(),
            bold: false,
            italic: false,
            underline: false,
            is_continuation: false,
            is_selected: false,
        }
    }
}

} // verus!
