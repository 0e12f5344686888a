//! Colors and text attributes.
use vstd::prelude::*;

verus! {

/// The sixteen colors every terminal knows by name.
#[derive(Clone, Copy, Debug, PartialEq, Eq, Hash, Structural)]
pub enum ANSIBasicColor {
    Black,
    White,
    Grey,
    DarkGrey,
    Red,
    DarkRed,
    Green,
    DarkGreen,
    Blue,
    DarkBlue,
    Yellow,
    DarkYellow,
    Magenta,
    DarkMagenta,
    Cyan,
    DarkCyan,
}

/// A color: the terminal's default, a named one, a true color, or an entry of
/// the 256-color palette.
#[derive(Clone, Copy, Debug, PartialEq, Eq, Hash, Structural)]
pub enum TuiColor {
    Reset,
    Basic(ANSIBasicColor),
    Rgb { red: u8, green: u8, blue: u8 },
    Ansi(u8),
}

/// How a run of text is painted.
#[derive(Clone, Copy, Debug, PartialEq, Eq, Hash)]
pub struct Style {
    pub id: u8,
    pub bold: bool,
    pub italic: bool,
    pub dim: bool,
    pub underline: bool,
    pub reverse: bool,
    pub hidden: bool,
    pub strikethrough: bool,
    pub computed: bool,
    pub color_fg: Option<TuiColor>,
    pub color_bg: Option<TuiColor>,
    pub padding: Option<u32>,
}

impl Style {
    /// The style that sets nothing.
    pub open spec fn spec_plain() -> Style {
        Style {
            id: 0,
            bold: false,
            italic: false,
            dim: false,
            underline: false,
            reverse: false,
            hidden: false,
            strikethrough: false,
            computed: false,
            color_fg: None,
            color_bg: None,
            padding: None,
        }
    }

    /// The style that only swaps foreground and background.
    pub open spec fn spec_reverse() -> Style {
        Style { reverse: true, ..Style::spec_plain() }
    }

    /// The style that only sets the foreground color.
    pub open spec fn spec_fg(color: TuiColor) -> Style {
        Style { color_fg: Some(color), ..Style::spec_plain() }
    }

    pub fn plain() -> (r: Style)
        ensures
            r == Style::spec_plain(),
    {
        Style {
            id: 0,
            bold: false,
            italic: false,
            dim: false,
            underline: false,
            reverse: false,
            hidden: false,
            strikethrough: false,
            computed: false,
            color_fg: None,
            color_bg: None,
            padding: None,
        }
    }

    pub fn reverse() -> (r: Style)
        ensures
            r == Style::spec_reverse(),
    {
        let mut style = Style::plain();
        style.reverse = true;
        style
    }

    pub fn fg(color: TuiColor) -> (r: Style)
        ensures
            r == Style::spec_fg(color),
    {
        let mut style = Style::plain();
        style.color_fg = Some(color);
        style
    }
}

impl Default for Style {
    fn default() -> (r: Style)
        ensures
            r == Style::spec_plain(),
    {
        Style::plain()
    }
}

} // verus!
