use vstd::prelude::*;
use vstd::string::*;

verus! {

/// The color themes, in their canonical order.
#[derive(Clone, Copy, Debug, PartialEq, Eq, Structural)]
pub enum ColorScheme {
    Gruvbox,
    Dracula,
    Nord,
    Solarized,
}

pub open spec fn scheme_at(index: int) -> ColorScheme {
    if index % 4 == 0 {
        ColorScheme::Gruvbox
    } else if index % 4 == 1 {
        ColorScheme::Dracula
    } else if index % 4 == 2 {
        ColorScheme::Nord
    } else {
        ColorScheme::Solarized
    }
}

impl ColorScheme {
    /// The theme at `index`, counted cyclically.
    pub fn get(index: usize) -> (r: ColorScheme)
        ensures
            r == scheme_at(index as int),
    {
        match index % 4 {
            0 => ColorScheme::Gruvbox,
            1 => ColorScheme::Dracula,
            2 => ColorScheme::Nord,
            _ => ColorScheme::Solarized,
        }
    }

    /// The theme's name in lower case.
    pub fn name(&self) -> (r: String)
        ensures
            r@ == match *self {
                ColorScheme::Gruvbox => "gruvbox"@,
                ColorScheme::Dracula => "dracula"@,
                ColorScheme::Nord => "nord"@,
                ColorScheme::Solarized => "solarized"@,
            },
    {
        match self {
            ColorScheme::Gruvbox => String::from_str("gruvbox"),
            ColorScheme::Dracula => String::from_str("dracula"),
            ColorScheme::Nord => String::from_str("nord"),
            ColorScheme::Solarized => String::from_str("solarized"),
        }
    }
}

/// The cursor styles, in their canonical order.
#[derive(Clone, Copy, Debug, PartialEq, Eq, Structural)]
pub enum CursorStyle {
    Underline,
    Block,
    Default,
}

pub open spec fn cursor_style_at(index: int) -> CursorStyle {
    if index % 3 == 0 {
        CursorStyle::Underline
    } else if index % 3 == 1 {
        CursorStyle::Block
    } else {
        CursorStyle::Default
    }
}

impl CursorStyle {
    /// The cursor style at `index`, counted cyclically.
    pub fn cycle(index: usize) -> (r: CursorStyle)
        ensures
            r == cursor_style_at(index as int),
    {
        match index % 3 {
            0 => CursorStyle::Underline,
            1 => CursorStyle::Block,
            _ => CursorStyle::Default,
        }
    }

    /// The style's name in lower case.
    pub fn name(&self) -> (r: String)
        ensures
            r@ == match *self {
                CursorStyle::Underline => "underline"@,
                CursorStyle::Block => "block"@,
                CursorStyle::Default => "default"@,
            },
    {
        match self {
            CursorStyle::Underline => String::from_str("underline"),
            CursorStyle::Block => String::from_str("block"),
            CursorStyle::Default => String::from_str("default"),
        }
    }
}

} // verus!
