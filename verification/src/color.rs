//! Colors of the user interface and their RGB values.

use vstd::prelude::*;

verus! {

/// A color of the user interface: the sixteen console colors, a palette
/// index, true color, or the terminal's default
#[derive(Clone, Copy, Debug, PartialEq, Eq, Structural)]
pub enum UiColor {
    Reset,
    Black,
    DarkGrey,
    Red,
    DarkRed,
    Green,
    DarkGreen,
    Yellow,
    DarkYellow,
    Blue,
    DarkBlue,
    Magenta,
    DarkMagenta,
    Cyan,
    DarkCyan,
    White,
    Grey,
    Rgb { r: u8, g: u8, b: u8 },
    AnsiValue(u8),
}

pub type Rgb = (u8, u8, u8);

/// RGB value of a color of the 256-color palette: the 16 console colors,
/// the 6x6x6 color cube (components 0, 51, ..., 255) and 24 grays
pub open spec fn spec_ansi_to_rgb(value: u8) -> Rgb {
    if value == 0 {
        (0, 0, 0)
    } else if value == 1 {
        (170, 0, 0)
    } else if value == 2 {
        (0, 170, 0)
    } else if value == 3 {
        (170, 85, 0)
    } else if value == 4 {
        (0, 0, 170)
    } else if value == 5 {
        (170, 0, 170)
    } else if value == 6 {
        (0, 170, 170)
    } else if value == 7 {
        (170, 170, 170)
    } else if value == 8 {
        (85, 85, 85)
    } else if value == 9 {
        (255, 85, 85)
    } else if value == 10 {
        (85, 255, 85)
    } else if value == 11 {
        (255, 255, 85)
    } else if value == 12 {
        (85, 85, 255)
    } else if value == 13 {
        (255, 85, 255)
    } else if value == 14 {
        (85, 255, 255)
    } else if value == 15 {
        (255, 255, 255)
    } else if value <= 231 {
        let index = value - 16;
        (((index / 36) * 51) as u8, (((index % 36) / 6) * 51) as u8, ((index % 6) * 51) as u8)
    } else {
        let gray = (8 + (value - 232) * 10) as u8;
        (gray, gray, gray)
    }
}

/// RGB value of a user-interface color, as common terminal palettes show it
pub open spec fn spec_color_to_rgb(c: UiColor) -> Rgb {
    match c {
        UiColor::Black => (0, 0, 0),
        UiColor::DarkGrey => (85, 85, 85),
        UiColor::Red => (255, 85, 85),
        UiColor::DarkRed => (170, 0, 0),
        UiColor::Green => (85, 255, 85),
        UiColor::DarkGreen => (0, 170, 0),
        UiColor::Yellow => (255, 255, 85),
        UiColor::DarkYellow => (170, 85, 0),
        UiColor::Blue => (85, 85, 255),
        UiColor::DarkBlue => (0, 0, 170),
        UiColor::Magenta => (255, 85, 255),
        UiColor::DarkMagenta => (170, 0, 170),
        UiColor::Cyan => (85, 255, 255),
        UiColor::DarkCyan => (0, 170, 170),
        UiColor::White => (255, 255, 255),
        UiColor::Grey => (170, 170, 170),
        UiColor::Rgb { r, g, b } => (r, g, b),
        UiColor::AnsiValue(v) => spec_ansi_to_rgb(v),
        UiColor::Reset => (170, 170, 170),
    }
}

/// Converts a user-interface color to RGB values
pub fn color_to_rgb(color: &UiColor) -> (rgb: Rgb)
    ensures
        rgb == spec_color_to_rgb(*color),
{
    match color {
        UiColor::Black => (0, 0, 0),
        UiColor::DarkGrey => (85, 85, 85),
        UiColor::Red => (255, 85, 85),
        UiColor::DarkRed => (170, 0, 0),
        UiColor::Green => (85, 255, 85),
        UiColor::DarkGreen => (0, 170, 0),
        UiColor::Yellow => (255, 255, 85),
        UiColor::DarkYellow => (170, 85, 0),
        UiColor::Blue => (85, 85, 255),
        UiColor::DarkBlue => (0, 0, 170),
        UiColor::Magenta => (255, 85, 255),
        UiColor::DarkMagenta => (170, 0, 170),
        UiColor::Cyan => (85, 255, 255),
        UiColor::DarkCyan => (0, 170, 170),
        UiColor::White => (255, 255, 255),
        UiColor::Grey => (170, 170, 170),
        UiColor::Rgb { r, g, b } => (*r, *g, *b),
        UiColor::AnsiValue(value) => ansi_to_rgb(*value),
        UiColor::Reset => (170, 170, 170),
    }
}

/// Converts a 256-color palette index to RGB values
pub fn ansi_to_rgb(value: u8) -> (rgb: Rgb)
    ensures
        rgb == spec_ansi_to_rgb(value),
{
    match value {
        0 => (0, 0, 0),
        1 => (170, 0, 0),
        2 => (0, 170, 0),
        3 => (170, 85, 0),
        4 => (0, 0, 170),
        5 => (170, 0, 170),
        6 => (0, 170, 170),
        7 => (170, 170, 170),
        8 => (85, 85, 85),
        9 => (255, 85, 85),
        10 => (85, 255, 85),
        11 => (255, 255, 85),
        12 => (85, 85, 255),
        13 => (255, 85, 255),
        14 => (85, 255, 255),
        15 => (255, 255, 255),
        16..=231 => {
            let index = value - 16;
            let r = (index / 36) * 51;
            let g = ((index % 36) / 6) * 51;
            let b = (index % 6) * 51;
            (r, g, b)
        },
        _ => {
            let gray = 8 + (value - 232) * 10;
            (gray, gray, gray)
        },
    }
}

/// The VGA text-mode palette, in attribute order: black, blue, green, cyan,
/// red, magenta, brown, light gray, dark gray, light blue, light green,
/// light cyan, light red, light magenta, yellow, white
pub open spec fn dos_palette(i: int) -> Rgb {
    if i == 0 {
        (0, 0, 0)
    } else if i == 1 {
        (0, 0, 170)
    } else if i == 2 {
        (0, 170, 0)
    } else if i == 3 {
        (0, 170, 170)
    } else if i == 4 {
        (170, 0, 0)
    } else if i == 5 {
        (170, 0, 170)
    } else if i == 6 {
        (170, 85, 0)
    } else if i == 7 {
        (170, 170, 170)
    } else if i == 8 {
        (85, 85, 85)
    } else if i == 9 {
        (85, 85, 255)
    } else if i == 10 {
        (85, 255, 85)
    } else if i == 11 {
        (85, 255, 255)
    } else if i == 12 {
        (255, 85, 85)
    } else if i == 13 {
        (255, 85, 255)
    } else if i == 14 {
        (255, 255, 85)
    } else {
        (255, 255, 255)
    }
}

/// RGB value of a color on the framebuffer: the console colors take their
/// VGA palette entry, true color is kept, anything else is light gray
pub open spec fn spec_dos_color_to_rgb(c: UiColor) -> Rgb {
    match c {
        UiColor::Black => dos_palette(0),
        UiColor::DarkGrey => dos_palette(8),
        UiColor::Grey => dos_palette(7),
        UiColor::White => dos_palette(15),
        UiColor::DarkRed => dos_palette(4),
        UiColor::Red => dos_palette(12),
        UiColor::DarkGreen => dos_palette(2),
        UiColor::Green => dos_palette(10),
        UiColor::DarkYellow => dos_palette(6),
        UiColor::Yellow => dos_palette(14),
        UiColor::DarkBlue => dos_palette(1),
        UiColor::Blue => dos_palette(9),
        UiColor::DarkMagenta => dos_palette(5),
        UiColor::Magenta => dos_palette(13),
        UiColor::DarkCyan => dos_palette(3),
        UiColor::Cyan => dos_palette(11),
        UiColor::Rgb { r, g, b } => (r, g, b),
        _ => dos_palette(7),
    }
}

/// Converts a color to the RGB value the framebuffer shows for it
pub fn dos_color_to_rgb(color: UiColor) -> (rgb: Rgb)
    ensures
        rgb == spec_dos_color_to_rgb(color),
{
    match color {
        UiColor::Black => (0, 0, 0),
        UiColor::DarkGrey => (85, 85, 85),
        UiColor::Grey => (170, 170, 170),
        UiColor::White => (255, 255, 255),
        UiColor::DarkRed => (170, 0, 0),
        UiColor::Red => (255, 85, 85),
        UiColor::DarkGreen => (0, 170, 0),
        UiColor::Green => (85, 255, 85),
        UiColor::DarkYellow => (170, 85, 0),
        UiColor::Yellow => (255, 255, 85),
        UiColor::DarkBlue => (0, 0, 170),
        UiColor::Blue => (85, 85, 255),
        UiColor::DarkMagenta => (170, 0, 170),
        UiColor::Magenta => (255, 85, 255),
        UiColor::DarkCyan => (0, 170, 170),
        UiColor::Cyan => (85, 255, 255),
        UiColor::Rgb { r, g, b } => (r, g, b),
        _ => (170, 170, 170),
    }
}

} // verus!
