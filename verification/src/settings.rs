//! Application configuration data: connection entries, grouping, theme
//! selection, and the custom color themes with their built-in presets.

use vstd::prelude::*;

verus! {

/// How the interface theme is chosen.
#[derive(Debug, Clone, Copy, PartialEq, Eq, Structural)]
pub enum ThemeMode {
    /// Follow the system theme.
    Auto,
    /// Always dark.
    Dark,
    /// Always light.
    Light,
}

impl Default for ThemeMode {
    fn default() -> (r: ThemeMode)
        ensures
            r is Auto,
    {
        ThemeMode::Auto
    }
}

/// One saved connection entry.
#[derive(Debug, Clone)]
pub struct ConnectionConfig {
    pub name: String,
    pub host: String,
    pub port: u16,
    pub username: String,
    pub use_key_auth: bool,
    pub private_key_path: Option<String>,
    pub password: Option<String>,
    pub last_connected: Option<String>,
    pub group: Option<String>,
}

/// A named group of saved connections.
#[derive(Debug, Clone)]
pub struct ConnectionGroup {
    pub name: String,
    pub description: Option<String>,
    pub connections: Vec<String>,
}

/// Appearance preferences.
#[derive(Debug, Clone)]
pub struct AppearanceSettings {
    pub theme_mode: ThemeMode,
    pub system_theme: String,
    pub language: String,
}

/// A custom color theme, each color an `#RRGGBB` or `#RRGGBBAA` string.
#[derive(Debug, Clone)]
pub struct CustomTheme {
    pub foreground: String,
    pub background: String,
    pub cursor: String,
    pub selection: String,
    pub black: String,
    pub red: String,
    pub green: String,
    pub yellow: String,
    pub blue: String,
    pub magenta: String,
    pub cyan: String,
    pub white: String,
    pub bright_black: String,
    pub bright_red: String,
    pub bright_green: String,
    pub bright_yellow: String,
    pub bright_blue: String,
    pub bright_magenta: String,
    pub bright_cyan: String,
    pub bright_white: String,
}

impl CustomTheme {
    /// The built-in color presets, by display name.
    pub fn presets() -> (r: Vec<(&'static str, CustomTheme)>)
        ensures
            r@.len() == 4,
            r@[0].0@ == "Solarized Dark"@,
            r@[0].1.foreground@ == "#839496"@,
            r@[0].1.background@ == "#002B36"@,
            r@[0].1.cursor@ == "#93A1A1"@,
            r@[0].1.selection@ == "#073642B4"@,
            r@[0].1.black@ == "#073642"@,
            r@[0].1.red@ == "#DC322F"@,
            r@[0].1.green@ == "#859900"@,
            r@[0].1.yellow@ == "#B58900"@,
            r@[0].1.blue@ == "#268BD2"@,
            r@[0].1.magenta@ == "#D33682"@,
            r@[0].1.cyan@ == "#2AA198"@,
            r@[0].1.white@ == "#EEE8D5"@,
            r@[0].1.bright_black@ == "#002B36"@,
            r@[0].1.bright_red@ == "#CB4B16"@,
            r@[0].1.bright_green@ == "#586E75"@,
            r@[0].1.bright_yellow@ == "#657B83"@,
            r@[0].1.bright_blue@ == "#839496"@,
            r@[0].1.bright_magenta@ == "#6C71C4"@,
            r@[0].1.bright_cyan@ == "#93A1A1"@,
            r@[0].1.bright_white@ == "#FDF6E3"@,
            r@[1].0@ == "Monokai"@,
            r@[1].1.foreground@ == "#F8F8F2"@,
            r@[1].1.background@ == "#272822"@,
            r@[1].1.cursor@ == "#F8F8F2"@,
            r@[1].1.selection@ == "#49483EB4"@,
            r@[1].1.black@ == "#272822"@,
            r@[1].1.red@ == "#F92672"@,
            r@[1].1.green@ == "#A6E22E"@,
            r@[1].1.yellow@ == "#E6DB74"@,
            r@[1].1.blue@ == "#66D9EF"@,
            r@[1].1.magenta@ == "#AE81FF"@,
            r@[1].1.cyan@ == "#A1EFE4"@,
            r@[1].1.white@ == "#F8F8F2"@,
            r@[1].1.bright_black@ == "#75715E"@,
            r@[1].1.bright_red@ == "#F92672"@,
            r@[1].1.bright_green@ == "#A6E22E"@,
            r@[1].1.bright_yellow@ == "#E6DB74"@,
            r@[1].1.bright_blue@ == "#66D9EF"@,
            r@[1].1.bright_magenta@ == "#AE81FF"@,
            r@[1].1.bright_cyan@ == "#A1EFE4"@,
            r@[1].1.bright_white@ == "#F8F8F2"@,
            r@[2].0@ == "Nord"@,
            r@[2].1.foreground@ == "#D8DEE9"@,
            r@[2].1.background@ == "#2E3440"@,
            r@[2].1.cursor@ == "#D8DEE9"@,
            r@[2].1.selection@ == "#434C5EB4"@,
            r@[2].1.black@ == "#3B4252"@,
            r@[2].1.red@ == "#BF616A"@,
            r@[2].1.green@ == "#A3BE8C"@,
            r@[2].1.yellow@ == "#EBCB8B"@,
            r@[2].1.blue@ == "#81A1C1"@,
            r@[2].1.magenta@ == "#B48EAD"@,
            r@[2].1.cyan@ == "#88C0D0"@,
            r@[2].1.white@ == "#E5E9F0"@,
            r@[2].1.bright_black@ == "#4C566A"@,
            r@[2].1.bright_red@ == "#BF616A"@,
            r@[2].1.bright_green@ == "#A3BE8C"@,
            r@[2].1.bright_yellow@ == "#EBCB8B"@,
            r@[2].1.bright_blue@ == "#81A1C1"@,
            r@[2].1.bright_magenta@ == "#B48EAD"@,
            r@[2].1.bright_cyan@ == "#8FBCBB"@,
            r@[2].1.bright_white@ == "#ECEFF4"@,
            r@[3].0@ == "One Half Dark"@,
            r@[3].1.foreground@ == "#DCDFE4"@,
            r@[3].1.background@ == "#282C34"@,
            r@[3].1.cursor@ == "#A3B3CC"@,
            r@[3].1.selection@ == "#474E5DB4"@,
            r@[3].1.black@ == "#282C34"@,
            r@[3].1.red@ == "#E06C75"@,
            r@[3].1.green@ == "#98C379"@,
            r@[3].1.yellow@ == "#E5C07B"@,
            r@[3].1.blue@ == "#61AFEF"@,
            r@[3].1.magenta@ == "#C678DD"@,
            r@[3].1.cyan@ == "#56B6C2"@,
            r@[3].1.white@ == "#DCDFE4"@,
            r@[3].1.bright_black@ == "#5C6370"@,
            r@[3].1.bright_red@ == "#E06C75"@,
            r@[3].1.bright_green@ == "#98C379"@,
            r@[3].1.bright_yellow@ == "#E5C07B"@,
            r@[3].1.bright_blue@ == "#61AFEF"@,
            r@[3].1.bright_magenta@ == "#C678DD"@,
            r@[3].1.bright_cyan@ == "#56B6C2"@,
            r@[3].1.bright_white@ == "#DCDFE4"@,
    {
        let mut v: Vec<(&'static str, CustomTheme)> = Vec::new();
        v.push((
            "Solarized Dark",
            CustomTheme {
                foreground: "#839496".to_owned(),
                background: "#002B36".to_owned(),
                cursor: "#93A1A1".to_owned(),
                selection: "#073642B4".to_owned(),
                black: "#073642".to_owned(),
                red: "#DC322F".to_owned(),
                green: "#859900".to_owned(),
                yellow: "#B58900".to_owned(),
                blue: "#268BD2".to_owned(),
                magenta: "#D33682".to_owned(),
                cyan: "#2AA198".to_owned(),
                white: "#EEE8D5".to_owned(),
                bright_black: "#002B36".to_owned(),
                bright_red: "#CB4B16".to_owned(),
                bright_green: "#586E75".to_owned(),
                bright_yellow: "#657B83".to_owned(),
                bright_blue: "#839496".to_owned(),
                bright_magenta: "#6C71C4".to_owned(),
                bright_cyan: "#93A1A1".to_owned(),
                bright_white: "#FDF6E3".to_owned(),
            },
        ));
        v.push((
            "Monokai",
            CustomTheme {
                foreground: "#F8F8F2".to_owned(),
                background: "#272822".to_owned(),
                cursor: "#F8F8F2".to_owned(),
                selection: "#49483EB4".to_owned(),
                black: "#272822".to_owned(),
                red: "#F92672".to_owned(),
                green: "#A6E22E".to_owned(),
                yellow: "#E6DB74".to_owned(),
                blue: "#66D9EF".to_owned(),
                magenta: "#AE81FF".to_owned(),
                cyan: "#A1EFE4".to_owned(),
                white: "#F8F8F2".to_owned(),
                bright_black: "#75715E".to_owned(),
                bright_red: "#F92672".to_owned(),
                bright_green: "#A6E22E".to_owned(),
                bright_yellow: "#E6DB74".to_owned(),
                bright_blue: "#66D9EF".to_owned(),
                bright_magenta: "#AE81FF".to_owned(),
                bright_cyan: "#A1EFE4".to_owned(),
                bright_white: "#F8F8F2".to_owned(),
            },
        ));
        v.push((
            "Nord",
            CustomTheme {
                foreground: "#D8DEE9".to_owned(),
                background: "#2E3440".to_owned(),
                cursor: "#D8DEE9".to_owned(),
                selection: "#434C5EB4".to_owned(),
                black: "#3B4252".to_owned(),
                red: "#BF616A".to_owned(),
                green: "#A3BE8C".to_owned(),
                yellow: "#EBCB8B".to_owned(),
                blue: "#81A1C1".to_owned(),
                magenta: "#B48EAD".to_owned(),
                cyan: "#88C0D0".to_owned(),
                white: "#E5E9F0".to_owned(),
                bright_black: "#4C566A".to_owned(),
                bright_red: "#BF616A".to_owned(),
                bright_green: "#A3BE8C".to_owned(),
                bright_yellow: "#EBCB8B".to_owned(),
                bright_blue: "#81A1C1".to_owned(),
                bright_magenta: "#B48EAD".to_owned(),
                bright_cyan: "#8FBCBB".to_owned(),
                bright_white: "#ECEFF4".to_owned(),
            },
        ));
        v.push((
            "One Half Dark",
            CustomTheme {
                foreground: "#DCDFE4".to_owned(),
                background: "#282C34".to_owned(),
                cursor: "#A3B3CC".to_owned(),
                selection: "#474E5DB4".to_owned(),
                black: "#282C34".to_owned(),
                red: "#E06C75".to_owned(),
                green: "#98C379".to_owned(),
                yellow: "#E5C07B".to_owned(),
                blue: "#61AFEF".to_owned(),
                magenta: "#C678DD".to_owned(),
                cyan: "#56B6C2".to_owned(),
                white: "#DCDFE4".to_owned(),
                bright_black: "#5C6370".to_owned(),
                bright_red: "#E06C75".to_owned(),
                bright_green: "#98C379".to_owned(),
                bright_yellow: "#E5C07B".to_owned(),
                bright_blue: "#61AFEF".to_owned(),
                bright_magenta: "#C678DD".to_owned(),
                bright_cyan: "#56B6C2".to_owned(),
                bright_white: "#DCDFE4".to_owned(),
            },
        ));
        v
    }
}

impl Default for CustomTheme {
    fn default() -> (r: CustomTheme)
        ensures
            r.foreground@ == "#FFFFFF"@,
            r.background@ == "#0F0F0F"@,
            r.cursor@ == "#FFFFFF"@,
            r.selection@ == "#6495EDB4"@,
            r.black@ == "#000000"@,
            r.red@ == "#CD3131"@,
            r.green@ == "#0DBC79"@,
            r.yellow@ == "#E5E510"@,
            r.blue@ == "#2472C8"@,
            r.magenta@ == "#BC3FBC"@,
            r.cyan@ == "#11A8CD"@,
            r.white@ == "#E5E5E5"@,
            r.bright_black@ == "#666666"@,
            r.bright_red@ == "#F14C4C"@,
            r.bright_green@ == "#23D18B"@,
            r.bright_yellow@ == "#F5F543"@,
            r.bright_blue@ == "#3B8EEA"@,
            r.bright_magenta@ == "#D670D6"@,
            r.bright_cyan@ == "#29B8DB"@,
            r.bright_white@ == "#E5E5E5"@,
    {
        CustomTheme {
            foreground: "#FFFFFF".to_owned(),
            background: "#0F0F0F".to_owned(),
            cursor: "#FFFFFF".to_owned(),
            selection: "#6495EDB4".to_owned(),
            black: "#000000".to_owned(),
            red: "#CD3131".to_owned(),
            green: "#0DBC79".to_owned(),
            yellow: "#E5E510".to_owned(),
            blue: "#2472C8".to_owned(),
            magenta: "#BC3FBC".to_owned(),
            cyan: "#11A8CD".to_owned(),
            white: "#E5E5E5".to_owned(),
            bright_black: "#666666".to_owned(),
            bright_red: "#F14C4C".to_owned(),
            bright_green: "#23D18B".to_owned(),
            bright_yellow: "#F5F543".to_owned(),
            bright_blue: "#3B8EEA".to_owned(),
            bright_magenta: "#D670D6".to_owned(),
            bright_cyan: "#29B8DB".to_owned(),
            bright_white: "#E5E5E5".to_owned(),
        }
    }
}

} // verus!
