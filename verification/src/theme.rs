//! The fixed color palette the rendered snippets draw from.

use vstd::prelude::*;

verus! {

/// A named color palette: foreground, background, the eight ANSI-style
/// colors, and two extended indices.
pub struct Theme {
    pub foreground: String,
    pub background: String,
    pub black: String,
    pub red: String,
    pub green: String,
    pub yellow: String,
    pub blue: String,
    pub magenta: String,
    pub cyan: String,
    pub white: String,
    pub index_16: String,
    pub index_17: String,
}

impl Theme {
    pub fn foreground(&self) -> (r: &str)
        ensures
            r@ == self.foreground@,
    {
        self.foreground.as_str()
    }

    pub fn background(&self) -> (r: &str)
        ensures
            r@ == self.background@,
    {
        self.background.as_str()
    }

    pub fn black(&self) -> (r: &str)
        ensures
            r@ == self.black@,
    {
        self.black.as_str()
    }

    pub fn red(&self) -> (r: &str)
        ensures
            r@ == self.red@,
    {
        self.red.as_str()
    }

    pub fn green(&self) -> (r: &str)
        ensures
            r@ == self.green@,
    {
        self.green.as_str()
    }

    pub fn yellow(&self) -> (r: &str)
        ensures
            r@ == self.yellow@,
    {
        self.yellow.as_str()
    }

    pub fn blue(&self) -> (r: &str)
        ensures
            r@ == self.blue@,
    {
        self.blue.as_str()
    }

    pub fn magenta(&self) -> (r: &str)
        ensures
            r@ == self.magenta@,
    {
        self.magenta.as_str()
    }

    pub fn cyan(&self) -> (r: &str)
        ensures
            r@ == self.cyan@,
    {
        self.cyan.as_str()
    }

    pub fn white(&self) -> (r: &str)
        ensures
            r@ == self.white@,
    {
        self.white.as_str()
    }

    pub fn index_16(&self) -> (r: &str)
        ensures
            r@ == self.index_16@,
    {
        self.index_16.as_str()
    }

    pub fn index_17(&self) -> (r: &str)
        ensures
            r@ == self.index_17@,
    {
        self.index_17.as_str()
    }

    /// The normal Tokyo Night palette.
    pub fn tokyonight_normal() -> (r: Self)
        ensures
            r.foreground@ == "#c0caf5"@,
            r.background@ == "#1a1b26"@,
            r.black@ == "#15161e"@,
            r.red@ == "#f7768e"@,
            r.green@ == "#9ece6a"@,
            r.yellow@ == "#e0af68"@,
            r.blue@ == "#7aa2f7"@,
            r.magenta@ == "#bb9af7"@,
            r.cyan@ == "#7dcfff"@,
            r.white@ == "#a9b1d6"@,
            r.index_16@ == "#ff9e64"@,
            r.index_17@ == "#db4b4b"@,
    {
        Theme {
            foreground: String::from_str("#c0caf5"),
            background: String::from_str("#1a1b26"),
            black: String::from_str("#15161e"),
            red: String::from_str("#f7768e"),
            green: String::from_str("#9ece6a"),
            yellow: String::from_str("#e0af68"),
            blue: String::from_str("#7aa2f7"),
            magenta: String::from_str("#bb9af7"),
            cyan: String::from_str("#7dcfff"),
            white: String::from_str("#a9b1d6"),
            index_16: String::from_str("#ff9e64"),
            index_17: String::from_str("#db4b4b"),
        }
    }
}

} // verus!
