//! Terminal color themes and the color resolver.
//!
//! A theme names 16 base colors (8 standard + 8 bright) plus default
//! foreground/background, cursor and selection colors.  The resolver maps an
//! abstract color reference (16-color index, 256-color index, or 24-bit
//! triple) to a concrete display color.

use vstd::prelude::*;

use crate::cell::Color;

verus! {

/// The named colors of a terminal theme.
#[derive(Clone, Copy, Debug, PartialEq, Eq, Structural)]
pub struct ThemeStyle {
    pub foreground: Color,
    pub background: Color,
    pub cursor: Color,
    pub selection: Color,
    pub black: Color,
    pub red: Color,
    pub green: Color,
    pub yellow: Color,
    pub blue: Color,
    pub magenta: Color,
    pub cyan: Color,
    pub white: Color,
    pub bright_black: Color,
    pub bright_red: Color,
    pub bright_green: Color,
    pub bright_yellow: Color,
    pub bright_blue: Color,
    pub bright_magenta: Color,
    pub bright_cyan: Color,
    pub bright_white: Color,
}

/// Value of one hexadecimal digit, or 16 when `c` is no such digit.
pub open spec fn hex_digit_spec(c: char) -> int {
    if '0' <= c && c <= '9' {
        c as int - '0' as int
    } else if 'a' <= c && c <= 'f' {
        c as int - 'a' as int + 10
    } else if 'A' <= c && c <= 'F' {
        c as int - 'A' as int + 10
    } else {
        16
    }
}

/// One color component from two hexadecimal digits; an invalid pair yields
/// the fallback value, as a lenient parse of a user-supplied theme string.
pub open spec fn hex_pair_spec(hi: char, lo: char, fallback: u8) -> u8 {
    if hex_digit_spec(hi) < 16 && hex_digit_spec(lo) < 16 {
        (hex_digit_spec(hi) * 16 + hex_digit_spec(lo)) as u8
    } else {
        fallback
    }
}

/// Number of leading `#` characters of `s`.
pub open spec fn leading_hashes_spec(s: Seq<char>) -> int
    decreases s.len(),
{
    if s.len() > 0 && s[0] == '#' {
        1 + leading_hashes_spec(s.subrange(1, s.len() as int))
    } else {
        0
    }
}

/// The color denoted by a `#RRGGBB` or `#RRGGBBAA` string (leading `#`s
/// stripped); anything else is white.
pub open spec fn parse_hex_spec(s: Seq<char>) -> Color {
    let t = s.subrange(leading_hashes_spec(s), s.len() as int);
    if t.len() == 6 {
        Color {
            r: hex_pair_spec(t[0], t[1], 0u8),
            g: hex_pair_spec(t[2], t[3], 0u8),
            b: hex_pair_spec(t[4], t[5], 0u8),
            a: 255u8,
        }
    } else if t.len() == 8 {
        Color {
            r: hex_pair_spec(t[0], t[1], 0u8),
            g: hex_pair_spec(t[2], t[3], 0u8),
            b: hex_pair_spec(t[4], t[5], 0u8),
            a: hex_pair_spec(t[6], t[7], 255u8),
        }
    } else {
        Color::white_spec()
    }
}

impl ThemeStyle {
    /// The theme slot selected by a 16-color index.  Bold selects the bright
    /// variant of indices 0-7; indices 8-15 already designate bright colors;
    /// anything higher falls back to the default foreground.
    pub open spec fn get_color_spec(self, index: u8, intense: bool) -> Color {
        if index == 0 {
            if intense { self.bright_black } else { self.black }
        } else if index == 1 {
            if intense { self.bright_red } else { self.red }
        } else if index == 2 {
            if intense { self.bright_green } else { self.green }
        } else if index == 3 {
            if intense { self.bright_yellow } else { self.yellow }
        } else if index == 4 {
            if intense { self.bright_blue } else { self.blue }
        } else if index == 5 {
            if intense { self.bright_magenta } else { self.magenta }
        } else if index == 6 {
            if intense { self.bright_cyan } else { self.cyan }
        } else if index == 7 {
            if intense { self.bright_white } else { self.white }
        } else if index == 8 {
            self.bright_black
        } else if index == 9 {
            self.bright_red
        } else if index == 10 {
            self.bright_green
        } else if index == 11 {
            self.bright_yellow
        } else if index == 12 {
            self.bright_blue
        } else if index == 13 {
            self.bright_magenta
        } else if index == 14 {
            self.bright_cyan
        } else if index == 15 {
            self.bright_white
        } else {
            self.foreground
        }
    }

    /// Parses a `#RRGGBB` or `#RRGGBBAA` color string; unparsable input
    /// yields white.
    pub fn parse_hex(hex: &str) -> (c: Color)
        ensures
            c == parse_hex_spec(hex@),
    {
        let n = hex.unicode_len();
        let mut i: usize = 0;
        while i < n && hex.get_char(i) == '#'
            invariant
                0 <= i <= n,
                n == hex@.len(),
                forall|j: int| 0 <= j < i ==> hex@[j] == '#',
            decreases n - i,
        {
            i = i + 1;
        }
        proof {
            lemma_leading_hashes(hex@, i as int);
        }
        let m = n - i;
        if m == 6 {
            let r = Self::hex_pair(hex.get_char(i), hex.get_char(i + 1), 0);
            let g = Self::hex_pair(hex.get_char(i + 2), hex.get_char(i + 3), 0);
            let b = Self::hex_pair(hex.get_char(i + 4), hex.get_char(i + 5), 0);
            Color { r, g, b, a: 255 }
        } else if m == 8 {
            let r = Self::hex_pair(hex.get_char(i), hex.get_char(i + 1), 0);
            let g = Self::hex_pair(hex.get_char(i + 2), hex.get_char(i + 3), 0);
            let b = Self::hex_pair(hex.get_char(i + 4), hex.get_char(i + 5), 0);
            let a = Self::hex_pair(hex.get_char(i + 6), hex.get_char(i + 7), 255);
            Color { r, g, b, a }
        } else {
            Color::white()
        }
    }

    fn hex_pair(hi: char, lo: char, fallback: u8) -> (v: u8)
        ensures
            v == hex_pair_spec(hi, lo, fallback),
    {
        let h = Self::hex_digit(hi);
        let l = Self::hex_digit(lo);
        if h < 16 && l < 16 {
            h * 16 + l
        } else {
            fallback
        }
    }

    fn hex_digit(c: char) -> (v: u8)
        ensures
            v == hex_digit_spec(c),
    {
        if '0' <= c && c <= '9' {
            (c as u8) - ('0' as u8)
        } else if 'a' <= c && c <= 'f' {
            (c as u8) - ('a' as u8) + 10
        } else if 'A' <= c && c <= 'F' {
            (c as u8) - ('A' as u8) + 10
        } else {
            16
        }
    }

    pub open spec fn dark_spec() -> ThemeStyle {
        ThemeStyle {
            foreground: Color::white_spec(),
            background: Color::rgb_spec(15, 15, 15),
            cursor: Color::white_spec(),
            selection: Color { r: 100u8, g: 149u8, b: 237u8, a: 180u8 },
            black: Color::rgb_spec(0, 0, 0),
            red: Color::rgb_spec(205, 49, 49),
            green: Color::rgb_spec(13, 188, 121),
            yellow: Color::rgb_spec(229, 229, 16),
            blue: Color::rgb_spec(36, 114, 200),
            magenta: Color::rgb_spec(188, 63, 188),
            cyan: Color::rgb_spec(17, 168, 205),
            white: Color::rgb_spec(229, 229, 229),
            bright_black: Color::rgb_spec(102, 102, 102),
            bright_red: Color::rgb_spec(241, 76, 76),
            bright_green: Color::rgb_spec(35, 209, 139),
            bright_yellow: Color::rgb_spec(245, 245, 67),
            bright_blue: Color::rgb_spec(59, 142, 234),
            bright_magenta: Color::rgb_spec(214, 112, 214),
            bright_cyan: Color::rgb_spec(41, 184, 219),
            bright_white: Color::rgb_spec(229, 229, 229),
        }
    }

    pub open spec fn light_spec() -> ThemeStyle {
        ThemeStyle {
            foreground: Color::rgb_spec(0, 0, 0),
            background: Color::white_spec(),
            cursor: Color::rgb_spec(0, 0, 0),
            selection: Color { r: 173u8, g: 216u8, b: 230u8, a: 180u8 },
            black: Color::rgb_spec(0, 0, 0),
            red: Color::rgb_spec(160, 32, 32),
            green: Color::rgb_spec(0, 128, 0),
            yellow: Color::rgb_spec(128, 128, 0),
            blue: Color::rgb_spec(0, 0, 160),
            magenta: Color::rgb_spec(128, 0, 128),
            cyan: Color::rgb_spec(0, 128, 128),
            white: Color::rgb_spec(192, 192, 192),
            bright_black: Color::rgb_spec(128, 128, 128),
            bright_red: Color::rgb_spec(255, 0, 0),
            bright_green: Color::rgb_spec(0, 255, 0),
            bright_yellow: Color::rgb_spec(255, 255, 0),
            bright_blue: Color::rgb_spec(0, 0, 255),
            bright_magenta: Color::rgb_spec(255, 0, 255),
            bright_cyan: Color::rgb_spec(0, 255, 255),
            bright_white: Color::white_spec(),
        }
    }

    /// The built-in dark theme.
    pub fn dark() -> (s: ThemeStyle)
        ensures
            s == ThemeStyle::dark_spec(),
    {
        ThemeStyle {
            foreground: Color::white(),
            background: Color::rgb(15, 15, 15),
            cursor: Color::white(),
            selection: Color { r: 100, g: 149, b: 237, a: 180 },
            black: Color::rgb(0, 0, 0),
            red: Color::rgb(205, 49, 49),
            green: Color::rgb(13, 188, 121),
            yellow: Color::rgb(229, 229, 16),
            blue: Color::rgb(36, 114, 200),
            magenta: Color::rgb(188, 63, 188),
            cyan: Color::rgb(17, 168, 205),
            white: Color::rgb(229, 229, 229),
            bright_black: Color::rgb(102, 102, 102),
            bright_red: Color::rgb(241, 76, 76),
            bright_green: Color::rgb(35, 209, 139),
            bright_yellow: Color::rgb(245, 245, 67),
            bright_blue: Color::rgb(59, 142, 234),
            bright_magenta: Color::rgb(214, 112, 214),
            bright_cyan: Color::rgb(41, 184, 219),
            bright_white: Color::rgb(229, 229, 229),
        }
    }

    /// The built-in light theme.
    pub fn light() -> (s: ThemeStyle)
        ensures
            s == ThemeStyle::light_spec(),
    {
        ThemeStyle {
            foreground: Color::rgb(0, 0, 0),
            background: Color::white(),
            cursor: Color::rgb(0, 0, 0),
            selection: Color { r: 173, g: 216, b: 230, a: 180 },
            black: Color::rgb(0, 0, 0),
            red: Color::rgb(160, 32, 32),
            green: Color::rgb(0, 128, 0),
            yellow: Color::rgb(128, 128, 0),
            blue: Color::rgb(0, 0, 160),
            magenta: Color::rgb(128, 0, 128),
            cyan: Color::rgb(0, 128, 128),
            white: Color::rgb(192, 192, 192),
            bright_black: Color::rgb(128, 128, 128),
            bright_red: Color::rgb(255, 0, 0),
            bright_green: Color::rgb(0, 255, 0),
            bright_yellow: Color::rgb(255, 255, 0),
            bright_blue: Color::rgb(0, 0, 255),
            bright_magenta: Color::rgb(255, 0, 255),
            bright_cyan: Color::rgb(0, 255, 255),
            bright_white: Color::white(),
        }
    }
}

impl Default for ThemeStyle {
    fn default() -> (s: ThemeStyle)
        ensures
            s == ThemeStyle::dark_spec(),
    {
        ThemeStyle::dark()
    }
}

proof fn lemma_leading_hashes(s: Seq<char>, i: int)
    requires
        0 <= i <= s.len(),
        forall|j: int| 0 <= j < i ==> s[j] == '#',
        i == s.len() || s[i] != '#',
    ensures
        leading_hashes_spec(s) == i,
    decreases s.len(),
{
    if s.len() > 0 && s[0] == '#' {
        let t = s.subrange(1, s.len() as int);
        assert(forall|j: int| 0 <= j < i - 1 ==> t[j] == '#');
        lemma_leading_hashes(t, i - 1);
    }
}

/// The fixed entry of the 256-color palette at `index`: indices 0-15 are the
/// standard VGA colors, 16-231 a 6x6x6 cube with component levels
/// {0,95,135,175,215,255}, and 232-255 a 24-step grayscale ramp.
pub open spec fn palette_256_spec(index: u16) -> Color {
    if index < 16 {
        vga_16_spec(index)
    } else if index < 232 {
        let i = index - 16;
        Color {
            r: cube_level_spec(i / 36),
            g: cube_level_spec((i / 6) % 6),
            b: cube_level_spec(i % 6),
            a: 255u8,
        }
    } else {
        let v = (8 + 10 * (index - 232)) as u8;
        Color { r: v, g: v, b: v, a: 255u8 }
    }
}

/// Component level of the 6x6x6 color cube: 0 for step 0, then 95 to 255 in
/// steps of 40.
pub open spec fn cube_level_spec(step: int) -> u8 {
    if step == 0 {
        0u8
    } else {
        (55 + 40 * step) as u8
    }
}

/// The 16 standard VGA palette entries.
pub open spec fn vga_16_spec(index: u16) -> Color {
    if index == 0 {
        Color::rgb_spec(0, 0, 0)
    } else if index == 1 {
        Color::rgb_spec(128, 0, 0)
    } else if index == 2 {
        Color::rgb_spec(0, 128, 0)
    } else if index == 3 {
        Color::rgb_spec(128, 128, 0)
    } else if index == 4 {
        Color::rgb_spec(0, 0, 128)
    } else if index == 5 {
        Color::rgb_spec(128, 0, 128)
    } else if index == 6 {
        Color::rgb_spec(0, 128, 128)
    } else if index == 7 {
        Color::rgb_spec(192, 192, 192)
    } else if index == 8 {
        Color::rgb_spec(128, 128, 128)
    } else if index == 9 {
        Color::rgb_spec(255, 0, 0)
    } else if index == 10 {
        Color::rgb_spec(0, 255, 0)
    } else if index == 11 {
        Color::rgb_spec(255, 255, 0)
    } else if index == 12 {
        Color::rgb_spec(0, 0, 255)
    } else if index == 13 {
        Color::rgb_spec(255, 0, 255)
    } else if index == 14 {
        Color::rgb_spec(0, 255, 255)
    } else {
        Color::white_spec()
    }
}

/// A terminal theme: the color style plus presentation flags.
#[derive(Clone, Copy, Debug, PartialEq, Eq, Structural)]
pub struct TerminalTheme {
    pub style: ThemeStyle,
    pub cursor_blink: bool,
}

impl TerminalTheme {
    /// A theme over the given style, with cursor blinking enabled.
    pub fn new(style: ThemeStyle) -> (t: TerminalTheme)
        ensures
            t == (TerminalTheme { style, cursor_blink: true }),
    {
        TerminalTheme { style, cursor_blink: true }
    }

    /// Resolves a 16-color index against the theme slots.
    pub fn get_color(&self, index: u8, intense: bool) -> (c: Color)
        ensures
            c == self.style.get_color_spec(index, intense),
    {
        if intense {
            match index {
                0 => self.style.bright_black,
                1 => self.style.bright_red,
                2 => self.style.bright_green,
                3 => self.style.bright_yellow,
                4 => self.style.bright_blue,
                5 => self.style.bright_magenta,
                6 => self.style.bright_cyan,
                7 => self.style.bright_white,
                8 => self.style.bright_black,
                9 => self.style.bright_red,
                10 => self.style.bright_green,
                11 => self.style.bright_yellow,
                12 => self.style.bright_blue,
                13 => self.style.bright_magenta,
                14 => self.style.bright_cyan,
                15 => self.style.bright_white,
                _ => self.style.foreground,
            }
        } else {
            match index {
                0 => self.style.black,
                1 => self.style.red,
                2 => self.style.green,
                3 => self.style.yellow,
                4 => self.style.blue,
                5 => self.style.magenta,
                6 => self.style.cyan,
                7 => self.style.white,
                8 => self.style.bright_black,
                9 => self.style.bright_red,
                10 => self.style.bright_green,
                11 => self.style.bright_yellow,
                12 => self.style.bright_blue,
                13 => self.style.bright_magenta,
                14 => self.style.bright_cyan,
                15 => self.style.bright_white,
                _ => self.style.foreground,
            }
        }
    }

    /// Resolves a 256-color index against the fixed palette; indices past 255
    /// fall back to the theme's default foreground.
    pub fn get_color_256(&self, index: u16) -> (c: Color)
        ensures
            c == self.resolve_256_spec(index),
    {
        if index < 16 {
            match index {
                0 => Color::rgb(0, 0, 0),
                1 => Color::rgb(128, 0, 0),
                2 => Color::rgb(0, 128, 0),
                3 => Color::rgb(128, 128, 0),
                4 => Color::rgb(0, 0, 128),
                5 => Color::rgb(128, 0, 128),
                6 => Color::rgb(0, 128, 128),
                7 => Color::rgb(192, 192, 192),
                8 => Color::rgb(128, 128, 128),
                9 => Color::rgb(255, 0, 0),
                10 => Color::rgb(0, 255, 0),
                11 => Color::rgb(255, 255, 0),
                12 => Color::rgb(0, 0, 255),
                13 => Color::rgb(255, 0, 255),
                14 => Color::rgb(0, 255, 255),
                _ => Color::white(),
            }
        } else if index < 232 {
            let i = index - 16;
            let r = Self::cube_level(i / 36);
            let g = Self::cube_level((i / 6) % 6);
            let b = Self::cube_level(i % 6);
            Color::rgb(r, g, b)
        } else if index < 256 {
            let v = (8 + 10 * (index - 232)) as u8;
            Color::rgb(v, v, v)
        } else {
            self.style.foreground
        }
    }

    /// A 256-color index resolved through this theme: the fixed palette for
    /// 0-255, the default foreground otherwise.
    pub open spec fn resolve_256_spec(self, index: u16) -> Color {
        if index < 256 {
            palette_256_spec(index)
        } else {
            self.style.foreground
        }
    }

    fn cube_level(step: u16) -> (v: u8)
        requires
            step < 6,
        ensures
            v == cube_level_spec(step as int),
    {
        if step == 0 {
            0
        } else {
            (55 + 40 * step) as u8
        }
    }

    /// A 24-bit triple passes through unchanged, fully opaque.
    pub fn parse_rgb_color(&self, r: u8, g: u8, b: u8) -> (c: Color)
        ensures
            c == Color::rgb_spec(r, g, b),
    {
        Color::rgb(r, g, b)
    }

    /// The color selected by one SGR color code with its following
    /// parameters, or `None` when the code selects no color.
    pub open spec fn parse_color_code_spec(self, code: u8, params: Seq<i64>) -> Option<Color> {
        if 30 <= code <= 37 {
            Some(self.style.get_color_spec((code - 30) as u8, false))
        } else if 40 <= code <= 47 {
            Some(self.style.get_color_spec((code - 40) as u8, false))
        } else if 90 <= code <= 97 {
            Some(self.style.get_color_spec((code - 90 + 8) as u8, true))
        } else if 100 <= code <= 107 {
            Some(self.style.get_color_spec((code - 100 + 8) as u8, true))
        } else if code == 38 || code == 48 {
            if params.len() >= 2 && params[0] == 5 {
                Some(self.resolve_256_spec(params[1] as u16))
            } else if params.len() >= 4 && params[0] == 2 {
                Some(Color::rgb_spec(params[1] as u8, params[2] as u8, params[3] as u8))
            } else {
                None
            }
        } else {
            None
        }
    }

    /// Resolves an SGR color code (`30`-`37`, `40`-`47`, bright variants, or
    /// the extended `38`/`48` forms with their parameters).
    pub fn parse_color_code(&self, code: u8, params: &[i64]) -> (c: Option<Color>)
        ensures
            c == self.parse_color_code_spec(code, params@),
    {
        if 30 <= code && code <= 37 {
            Some(self.get_color(code - 30, false))
        } else if 40 <= code && code <= 47 {
            Some(self.get_color(code - 40, false))
        } else if 90 <= code && code <= 97 {
            Some(self.get_color(code - 90 + 8, true))
        } else if 100 <= code && code <= 107 {
            Some(self.get_color(code - 100 + 8, true))
        } else if code == 38 || code == 48 {
            if params.len() >= 2 && params[0] == 5 {
                Some(self.get_color_256(#[verifier::truncate] (params[1] as u16)))
            } else if params.len() >= 4 && params[0] == 2 {
                let r = #[verifier::truncate] (params[1] as u8);
                let g = #[verifier::truncate] (params[2] as u8);
                let b = #[verifier::truncate] (params[3] as u8);
                Some(self.parse_rgb_color(r, g, b))
            } else {
                None
            }
        } else {
            None
        }
    }
}

impl Default for TerminalTheme {
    fn default() -> (t: TerminalTheme)
        ensures
            t == (TerminalTheme { style: ThemeStyle::dark_spec(), cursor_blink: true }),
    {
        TerminalTheme { style: ThemeStyle::dark(), cursor_blink: true }
    }
}

} // verus!
