//! Character sets used to draw the user interface.

use vstd::prelude::*;

verus! {

/// Character set configuration for rendering
#[derive(Clone, Copy, Debug, PartialEq, Eq)]
pub enum CharsetMode {
    Unicode,
    UnicodeSingleLine,
    Ascii,
}

/// Character definitions for UI elements
#[derive(Clone, Copy, Debug)]
pub struct Charset {
    pub mode: CharsetMode,
    pub background: char,
    pub border_top_left: char,
    pub border_top_right: char,
    pub border_bottom_left: char,
    pub border_bottom_right: char,
    pub border_horizontal: char,
    pub border_vertical: char,
    pub border_vertical_right: char,
    pub shadow: char,
    pub block: char,
    pub shade: char,
}

impl Charset {
    /// Double-line box drawing characters (the default)
    pub fn unicode() -> (c: Self)
        ensures
            c.mode == CharsetMode::Unicode,
            c.background == '\u{2591}',
            c.border_top_left == '\u{2554}',
            c.border_top_right == '\u{2557}',
            c.border_bottom_left == '\u{255A}',
            c.border_bottom_right == '\u{255D}',
            c.border_horizontal == '\u{2550}',
            c.border_vertical == '\u{2551}',
            c.border_vertical_right == '\u{2560}',
            c.shadow == '\u{2593}',
            c.block == '\u{2588}',
            c.shade == '\u{2591}',
    {
        Charset {
            mode: CharsetMode::Unicode,
            background: '\u{2591}',
            border_top_left: '\u{2554}',
            border_top_right: '\u{2557}',
            border_bottom_left: '\u{255A}',
            border_bottom_right: '\u{255D}',
            border_horizontal: '\u{2550}',
            border_vertical: '\u{2551}',
            border_vertical_right: '\u{2560}',
            shadow: '\u{2593}',
            block: '\u{2588}',
            shade: '\u{2591}',
        }
    }
}

impl Charset {
    /// Single-line box drawing characters, for fonts without double lines
    pub fn unicode_single_line() -> (c: Self)
        ensures
            c.mode == CharsetMode::UnicodeSingleLine,
            c.background == '\u{2591}',
            c.border_top_left == '\u{250C}',
            c.border_top_right == '\u{2510}',
            c.border_bottom_left == '\u{2514}',
            c.border_bottom_right == '\u{2518}',
            c.border_horizontal == '\u{2500}',
            c.border_vertical == '\u{2502}',
            c.border_vertical_right == '\u{251C}',
            c.shadow == '\u{2593}',
            c.block == '\u{2588}',
            c.shade == '\u{2591}',
    {
        Charset {
            mode: CharsetMode::UnicodeSingleLine,
            background: '\u{2591}',
            border_top_left: '\u{250C}',
            border_top_right: '\u{2510}',
            border_bottom_left: '\u{2514}',
            border_bottom_right: '\u{2518}',
            border_horizontal: '\u{2500}',
            border_vertical: '\u{2502}',
            border_vertical_right: '\u{251C}',
            shadow: '\u{2593}',
            block: '\u{2588}',
            shade: '\u{2591}',
        }
    }

    /// Plain ASCII characters, for terminals without box drawing
    pub fn ascii() -> (c: Self)
        ensures
            c.mode == CharsetMode::Ascii,
            c.background == ' ',
            c.border_top_left == '+',
            c.border_top_right == '+',
            c.border_bottom_left == '+',
            c.border_bottom_right == '+',
            c.border_horizontal == '-',
            c.border_vertical == '|',
            c.border_vertical_right == '+',
            c.shadow == '#',
            c.block == '#',
            c.shade == ' ',
    {
        Charset {
            mode: CharsetMode::Ascii,
            background: ' ',
            border_top_left: '+',
            border_top_right: '+',
            border_bottom_left: '+',
            border_bottom_right: '+',
            border_horizontal: '-',
            border_vertical: '|',
            border_vertical_right: '+',
            shadow: '#',
            block: '#',
            shade: ' ',
        }
    }

    pub fn border_top_left(&self) -> (c: char)
        ensures
            c == self.border_top_left,
    {
        self.border_top_left
    }

    pub fn border_top_right(&self) -> (c: char)
        ensures
            c == self.border_top_right,
    {
        self.border_top_right
    }

    pub fn border_bottom_left(&self) -> (c: char)
        ensures
            c == self.border_bottom_left,
    {
        self.border_bottom_left
    }

    pub fn border_bottom_right(&self) -> (c: char)
        ensures
            c == self.border_bottom_right,
    {
        self.border_bottom_right
    }

    pub fn border_horizontal(&self) -> (c: char)
        ensures
            c == self.border_horizontal,
    {
        self.border_horizontal
    }

    pub fn border_vertical(&self) -> (c: char)
        ensures
            c == self.border_vertical,
    {
        self.border_vertical
    }

    /// Character of an enabled toggle
    pub fn block(&self) -> (c: char)
        ensures
            c == self.block,
    {
        self.block
    }

    /// Character of a disabled toggle
    pub fn shade(&self) -> (c: char)
        ensures
            c == self.shade,
    {
        self.shade
    }

    /// Set a custom desktop background character
    pub fn set_background(&mut self, background_char: char)
        ensures
            *final(self) == (Charset { background: background_char, ..*old(self) }),
    {
        self.background = background_char;
    }
}

} // verus!
