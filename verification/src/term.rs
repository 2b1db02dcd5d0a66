//! Terminal screen model: colors, cell attributes, cursor, and the pending
//! operations that an escape-sequence interpreter hands to a screen grid.

use vstd::prelude::*;

verus! {

/// The sixteen named ANSI colors
#[derive(Clone, Copy, Debug, PartialEq, Eq, Structural)]
pub enum NamedColor {
    Black,
    Red,
    Green,
    Yellow,
    Blue,
    Magenta,
    Cyan,
    White,
    BrightBlack,
    BrightRed,
    BrightGreen,
    BrightYellow,
    BrightBlue,
    BrightMagenta,
    BrightCyan,
    BrightWhite,
}

/// A terminal color: named, palette index (256 colors) or true color
#[derive(Clone, Copy, Debug, PartialEq, Eq, Structural)]
pub enum Color {
    Named(NamedColor),
    Indexed(u8),
    Rgb(u8, u8, u8),
}

/// Text rendition flags of a cell
#[derive(Clone, Copy, Debug, PartialEq, Eq, Structural)]
pub struct CellAttributes {
    pub bold: bool,
    pub dim: bool,
    pub italic: bool,
    pub underline: bool,
    pub blink: bool,
    pub reverse: bool,
    pub hidden: bool,
    pub strikethrough: bool,
}

impl CellAttributes {
    pub open spec fn spec_plain() -> CellAttributes {
        CellAttributes {
            bold: false,
            dim: false,
            italic: false,
            underline: false,
            blink: false,
            reverse: false,
            hidden: false,
            strikethrough: false,
        }
    }

    /// All flags cleared
    pub fn plain() -> (a: CellAttributes)
        ensures
            a == Self::spec_plain(),
    {
        CellAttributes {
            bold: false,
            dim: false,
            italic: false,
            underline: false,
            blink: false,
            reverse: false,
            hidden: false,
            strikethrough: false,
        }
    }
}

/// Shape of the text cursor
#[derive(Clone, Copy, Debug, PartialEq, Eq, Structural)]
pub enum CursorShape {
    Block,
    Underline,
    Bar,
}

/// Text cursor state
#[derive(Clone, Copy, Debug, PartialEq, Eq, Structural)]
pub struct Cursor {
    pub x: usize,
    pub y: usize,
    pub visible: bool,
    pub shape: CursorShape,
}

/// One character cell of a terminal screen
#[derive(Clone, Copy, Debug, PartialEq, Eq, Structural)]
pub struct TerminalCell {
    pub c: char,
    pub fg: Color,
    pub bg: Color,
    pub attrs: CellAttributes,
}

/// Terminal modes that escape sequences switch on and off
#[derive(Clone, Copy, Debug, PartialEq, Eq, Structural)]
pub enum TermMode {
    /// IRM: insert instead of replace
    Insert,
    /// LNM: line feed also returns the carriage
    LineFeedNewLine,
    /// DECCKM: application cursor keys
    ApplicationCursorKeys,
    /// DECOM: origin mode
    Origin,
    /// DECAWM: wrap at the right margin
    AutoWrap,
    /// DECTCEM: cursor visible
    CursorVisible,
    /// Button-event mouse tracking (1002)
    MouseButtonTracking,
    /// Focus in/out reports (1004)
    FocusEvents,
    /// SGR mouse encoding (1006)
    MouseSgr,
    /// URXVT mouse encoding (1015)
    MouseUrxvt,
    /// Bracketed paste (2004)
    BracketedPaste,
}

/// Replies that the terminal sends back to the program running in it
#[derive(Clone, Copy, Debug, PartialEq, Eq, Structural)]
pub enum TermResponse {
    /// Primary device attributes: a VT220 with no options
    PrimaryDeviceAttributes,
    /// Secondary device attributes
    SecondaryDeviceAttributes,
    /// Device status report: terminal OK
    StatusOk,
}

impl TermResponse {
    /// The bytes of the reply, as an escape sequence
    pub fn text(&self) -> (s: &'static str)
        ensures
            *self == TermResponse::PrimaryDeviceAttributes ==> s@ == "\x1b[?62;0c"@,
            *self == TermResponse::SecondaryDeviceAttributes ==> s@ == "\x1b[>0;0;0c"@,
            *self == TermResponse::StatusOk ==> s@ == "\x1b[0n"@,
    {
        match self {
            TermResponse::PrimaryDeviceAttributes => "\x1b[?62;0c",
            TermResponse::SecondaryDeviceAttributes => "\x1b[>0;0;0c",
            TermResponse::StatusOk => "\x1b[0n",
        }
    }
}

/// An operation on the screen grid, in the order the interpreter requests it
#[derive(Clone, Copy, Debug, PartialEq, Eq, Structural)]
pub enum GridOp {
    /// Write a character (or perform the control it stands for) at the cursor
    PutChar(char),
    ClearScreen,
    /// Move the cursor to an absolute zero-based position (column, row)
    Goto(usize, usize),
    /// Move the cursor relatively (columns, rows)
    MoveCursor(isize, isize),
    Respond(TermResponse),
    CursorPositionReport,
    EraseToEndOfScreen,
    EraseFromStartOfScreen,
    EraseToEndOfLine,
    EraseToStartOfLine,
    ClearLine,
    DeleteChars(usize),
    InsertChars(usize),
    EraseChars(usize),
    ScrollUp(usize),
    ScrollDown(usize),
    SetCursorX(usize),
    SetCursorY(usize),
    SetCursorShape(CursorShape),
    SetMode(TermMode, bool),
    UseAltScreen,
    UseMainScreen,
    SaveCursor,
    RestoreCursor,
    BeginSynchronizedOutput,
    EndSynchronizedOutput,
    /// Zero-based top and bottom rows
    SetScrollRegion(usize, usize),
    SaveCursorPosition,
    RestoreCursorPosition,
    ReverseLinefeed,
    NextLine,
    Reset,
}

/// The state that the escape-sequence interpreter reads and writes: the
/// current pen (attributes and colors for new characters), the screen size,
/// and the grid operations requested so far.
pub struct TerminalGrid {
    pub current_attrs: CellAttributes,
    pub current_fg: Color,
    pub current_bg: Color,
    pub cols: usize,
    pub rows: usize,
    pub ops: Vec<GridOp>,
}

/// Foreground color of the default pen
pub open spec fn default_fg() -> Color {
    Color::Named(NamedColor::BrightGreen)
}

/// Background color of the default pen
pub open spec fn default_bg() -> Color {
    Color::Named(NamedColor::Black)
}

impl TerminalGrid {
    /// A grid of the given size with the default pen and no pending operations
    pub fn new(cols: usize, rows: usize) -> (g: TerminalGrid)
        ensures
            g.cols == cols,
            g.rows == rows,
            g.current_attrs == CellAttributes::spec_plain(),
            g.current_fg == default_fg(),
            g.current_bg == default_bg(),
            g.ops@.len() == 0,
    {
        TerminalGrid {
            current_attrs: CellAttributes::plain(),
            current_fg: Color::Named(NamedColor::BrightGreen),
            current_bg: Color::Named(NamedColor::Black),
            cols,
            rows,
            ops: Vec::new(),
        }
    }

    pub fn cols(&self) -> (c: usize)
        ensures
            c == self.cols,
    {
        self.cols
    }

    pub fn rows(&self) -> (r: usize)
        ensures
            r == self.rows,
    {
        self.rows
    }

    /// Hands out the pending operations, oldest first, and forgets them
    pub fn take_ops(&mut self) -> (ops: Vec<GridOp>)
        ensures
            ops@ == old(self).ops@,
            final(self).ops@.len() == 0,
            final(self).current_attrs == old(self).current_attrs,
            final(self).current_fg == old(self).current_fg,
            final(self).current_bg == old(self).current_bg,
            final(self).cols == old(self).cols,
            final(self).rows == old(self).rows,
    {
        let mut out = Vec::new();
        std::mem::swap(&mut out, &mut self.ops);
        out
    }
}

} // verus!
