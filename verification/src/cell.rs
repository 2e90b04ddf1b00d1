//! Grid cells: a character plus the colors and style flags it was written
//! with, and the pen that supplies those attributes.

use vstd::prelude::*;

verus! {

/// A 24-bit color.
#[derive(Clone, Copy, Debug, PartialEq, Eq, Structural)]
pub struct Rgb {
    pub r: u8,
    pub g: u8,
    pub b: u8,
}

impl Rgb {
    pub fn new(r: u8, g: u8, b: u8) -> (c: Self)
        ensures
            c == (Rgb { r, g, b }),
    {
        Rgb { r, g, b }
    }
}

/// The default foreground color of the palette.
pub open spec fn spec_default_fg() -> Rgb {
    Rgb { r: 212, g: 212, b: 212 }
}

/// The default background color of the palette.
pub open spec fn spec_default_bg() -> Rgb {
    Rgb { r: 30, g: 30, b: 30 }
}

/// Executable twin of [`spec_default_fg`].
pub fn default_fg() -> (c: Rgb)
    ensures
        c == spec_default_fg(),
{
    Rgb { r: 212, g: 212, b: 212 }
}

/// Executable twin of [`spec_default_bg`].
pub fn default_bg() -> (c: Rgb)
    ensures
        c == spec_default_bg(),
{
    Rgb { r: 30, g: 30, b: 30 }
}

/// The color of one of the sixteen ANSI palette entries: 0-7 the normal
/// colors, 8-15 their bright variants. Entries above 15 give the default
/// foreground color.
pub open spec fn spec_ansi_rgb(index: u16) -> Rgb {
    if index == 0 {
        Rgb { r: 0, g: 0, b: 0 }
    } else if index == 1 {
        Rgb { r: 255, g: 0, b: 0 }
    } else if index == 2 {
        Rgb { r: 0, g: 255, b: 0 }
    } else if index == 3 {
        Rgb { r: 255, g: 255, b: 0 }
    } else if index == 4 {
        Rgb { r: 0, g: 0, b: 255 }
    } else if index == 5 {
        Rgb { r: 255, g: 0, b: 255 }
    } else if index == 6 {
        Rgb { r: 0, g: 255, b: 255 }
    } else if index == 7 {
        Rgb { r: 255, g: 255, b: 255 }
    } else if index == 8 {
        Rgb { r: 64, g: 64, b: 64 }
    } else if index == 9 {
        Rgb { r: 255, g: 64, b: 64 }
    } else if index == 10 {
        Rgb { r: 64, g: 255, b: 64 }
    } else if index == 11 {
        Rgb { r: 255, g: 255, b: 64 }
    } else if index == 12 {
        Rgb { r: 64, g: 64, b: 255 }
    } else if index == 13 {
        Rgb { r: 255, g: 64, b: 255 }
    } else if index == 14 {
        Rgb { r: 64, g: 255, b: 255 }
    } else if index == 15 {
        Rgb { r: 255, g: 255, b: 255 }
    } else {
        spec_default_fg()
    }
}

/// Look up an ANSI palette entry; see [`spec_ansi_rgb`].
pub fn ansi_rgb(index: u16) -> (c: Rgb)
    ensures
        c == spec_ansi_rgb(index),
{
    match index {
        0 => Rgb { r: 0, g: 0, b: 0 },
        1 => Rgb { r: 255, g: 0, b: 0 },
        2 => Rgb { r: 0, g: 255, b: 0 },
        3 => Rgb { r: 255, g: 255, b: 0 },
        4 => Rgb { r: 0, g: 0, b: 255 },
        5 => Rgb { r: 255, g: 0, b: 255 },
        6 => Rgb { r: 0, g: 255, b: 255 },
        7 => Rgb { r: 255, g: 255, b: 255 },
        8 => Rgb { r: 64, g: 64, b: 64 },
        9 => Rgb { r: 255, g: 64, b: 64 },
        10 => Rgb { r: 64, g: 255, b: 64 },
        11 => Rgb { r: 255, g: 255, b: 64 },
        12 => Rgb { r: 64, g: 64, b: 255 },
        13 => Rgb { r: 255, g: 64, b: 255 },
        14 => Rgb { r: 64, g: 255, b: 255 },
        15 => Rgb { r: 255, g: 255, b: 255 },
        _ => default_fg(),
    }
}

/// One slot of the character grid. A cell is overwritten as a whole; it is
/// never mutated in place.
#[derive(Clone, Copy, Debug, PartialEq, Eq, Structural)]
pub struct Cell {
    /// The character shown in this slot.
    pub ch: char,
    /// Foreground color.
    pub fg: Rgb,
    /// Background color.
    pub bg: Rgb,
    /// Bold style flag.
    pub bold: bool,
    /// Underline style flag.
    pub underline: bool,
    /// Inverse-video style flag.
    pub inverse: bool,
    /// True for the spacer slot to the right of a wide character; such a
    /// slot is never rendered on its own.
    pub wide_continuation: bool,
}

/// The blank cell that fills fresh rows and erased regions.
pub open spec fn spec_blank_cell() -> Cell {
    Cell {
        ch: ' ',
        fg: spec_default_fg(),
        bg: spec_default_bg(),
        bold: false,
        underline: false,
        inverse: false,
        wide_continuation: false,
    }
}

/// Executable twin of [`spec_blank_cell`].
pub fn blank_cell() -> (c: Cell)
    ensures
        c == spec_blank_cell(),
{
    Cell {
        ch: ' ',
        fg: default_fg(),
        bg: default_bg(),
        bold: false,
        underline: false,
        inverse: false,
        wide_continuation: false,
    }
}

/// The attributes the interpreter currently writes cells with; changed by
/// SGR escape sequences.
#[derive(Clone, Copy, Debug, PartialEq, Eq, Structural)]
pub struct Pen {
    pub fg: Rgb,
    pub bg: Rgb,
    pub bold: bool,
    pub underline: bool,
    pub inverse: bool,
}

/// The pen of a freshly created terminal, and the pen after an SGR reset.
pub open spec fn spec_default_pen() -> Pen {
    Pen {
        fg: spec_default_fg(),
        bg: spec_default_bg(),
        bold: false,
        underline: false,
        inverse: false,
    }
}

/// Executable twin of [`spec_default_pen`].
pub fn default_pen() -> (p: Pen)
    ensures
        p == spec_default_pen(),
{
    Pen { fg: default_fg(), bg: default_bg(), bold: false, underline: false, inverse: false }
}

/// The cell produced by writing character `ch` with pen `pen`.
pub open spec fn spec_pen_cell(pen: Pen, ch: char) -> Cell {
    Cell {
        ch,
        fg: pen.fg,
        bg: pen.bg,
        bold: pen.bold,
        underline: pen.underline,
        inverse: pen.inverse,
        wide_continuation: false,
    }
}

/// Executable twin of [`spec_pen_cell`].
pub fn pen_cell(pen: Pen, ch: char) -> (c: Cell)
    ensures
        c == spec_pen_cell(pen, ch),
{
    Cell {
        ch,
        fg: pen.fg,
        bg: pen.bg,
        bold: pen.bold,
        underline: pen.underline,
        inverse: pen.inverse,
        wide_continuation: false,
    }
}

} // verus!
