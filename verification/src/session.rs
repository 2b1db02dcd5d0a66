//! Saved sessions: the plain records a session file holds, their
//! conversion to and from the terminal model, and the checks a loaded
//! session passes.

use vstd::prelude::*;
use vstd::std_specs::convert::FromSpecImpl;
use crate::term::{CellAttributes, Color, Cursor, CursorShape, NamedColor, TerminalCell};

verus! {

/// Most lines saved per terminal (scrollback and visible screen)
pub const MAX_LINES_PER_TERMINAL: usize = 2000;

/// Largest session file that is read (10 MiB)
pub const MAX_SESSION_FILE_SIZE: u64 = 10485760;

/// Session file format version
pub const SESSION_VERSION: u8 = 1;

/// A whole saved session
pub struct SessionState {
    pub version: u8,
    pub next_id: u32,
    pub windows: Vec<WindowSnapshot>,
    pub focused_window_id: Option<u32>,
}

/// One saved window
pub struct WindowSnapshot {
    pub id: u32,
    pub title: String,
    pub x: u16,
    pub y: u16,
    pub width: u16,
    pub height: u16,
    pub is_focused: bool,
    pub is_minimized: bool,
    pub is_maximized: bool,
    pub pre_maximize_x: u16,
    pub pre_maximize_y: u16,
    pub pre_maximize_width: u16,
    pub pre_maximize_height: u16,
    pub scroll_offset: usize,
    pub cursor: SerializableCursor,
    pub terminal_lines: Vec<SerializableTerminalLine>,
}

/// One saved terminal line
pub struct SerializableTerminalLine {
    pub cells: Vec<SerializableCell>,
}

/// One saved terminal cell
#[derive(Clone, Copy, Debug, PartialEq, Eq, Structural)]
pub struct SerializableCell {
    pub c: char,
    pub fg: SerializableColor,
    pub bg: SerializableColor,
    pub attrs: SerializableCellAttributes,
}

/// A saved color
#[derive(Clone, Copy, Debug, PartialEq, Eq, Structural)]
pub enum SerializableColor {
    Named(SerializableNamedColor),
    Indexed(u8),
    Rgb(u8, u8, u8),
}

/// A saved named color
#[derive(Clone, Copy, Debug, PartialEq, Eq, Structural)]
pub enum SerializableNamedColor {
    Black,
    Red,
    Green,
    Yellow,
    Blue,
    Magenta,
    Cyan,
    White,
    BrightBlack,
    BrightRed,
    BrightGreen,
    BrightYellow,
    BrightBlue,
    BrightMagenta,
    BrightCyan,
    BrightWhite,
}

/// Saved cell rendition flags
#[derive(Clone, Copy, Debug, PartialEq, Eq, Structural)]
pub struct SerializableCellAttributes {
    pub bold: bool,
    pub dim: bool,
    pub italic: bool,
    pub underline: bool,
    pub blink: bool,
    pub reverse: bool,
    pub hidden: bool,
    pub strikethrough: bool,
}

/// A saved cursor
#[derive(Clone, Copy, Debug, PartialEq, Eq, Structural)]
pub struct SerializableCursor {
    pub x: usize,
    pub y: usize,
    pub visible: bool,
    pub shape: SerializableCursorShape,
}

/// A saved cursor shape
#[derive(Clone, Copy, Debug, PartialEq, Eq, Structural)]
pub enum SerializableCursorShape {
    Block,
    Underline,
    Bar,
}

impl SessionState {
    /// An empty session of the current format: no windows, nothing focused
    pub fn new() -> (s: Self)
        ensures
            s.version == SESSION_VERSION,
            s.next_id == 1,
            s.windows@.len() == 0,
            s.focused_window_id.is_none(),
    {
        SessionState { version: SESSION_VERSION, next_id: 1, windows: Vec::new(), focused_window_id: None }
    }
}

// ---- terminal model to saved records ----

pub open spec fn named_to_saved(nc: NamedColor) -> SerializableNamedColor {
    match nc {
        NamedColor::Black => SerializableNamedColor::Black,
        NamedColor::Red => SerializableNamedColor::Red,
        NamedColor::Green => SerializableNamedColor::Green,
        NamedColor::Yellow => SerializableNamedColor::Yellow,
        NamedColor::Blue => SerializableNamedColor::Blue,
        NamedColor::Magenta => SerializableNamedColor::Magenta,
        NamedColor::Cyan => SerializableNamedColor::Cyan,
        NamedColor::White => SerializableNamedColor::White,
        NamedColor::BrightBlack => SerializableNamedColor::BrightBlack,
        NamedColor::BrightRed => SerializableNamedColor::BrightRed,
        NamedColor::BrightGreen => SerializableNamedColor::BrightGreen,
        NamedColor::BrightYellow => SerializableNamedColor::BrightYellow,
        NamedColor::BrightBlue => SerializableNamedColor::BrightBlue,
        NamedColor::BrightMagenta => SerializableNamedColor::BrightMagenta,
        NamedColor::BrightCyan => SerializableNamedColor::BrightCyan,
        NamedColor::BrightWhite => SerializableNamedColor::BrightWhite,
    }
}

pub open spec fn color_to_saved(c: Color) -> SerializableColor {
    match c {
        Color::Named(nc) => SerializableColor::Named(named_to_saved(nc)),
        Color::Indexed(i) => SerializableColor::Indexed(i),
        Color::Rgb(r, g, b) => SerializableColor::Rgb(r, g, b),
    }
}

pub open spec fn attrs_to_saved(a: CellAttributes) -> SerializableCellAttributes {
    SerializableCellAttributes {
        bold: a.bold,
        dim: a.dim,
        italic: a.italic,
        underline: a.underline,
        blink: a.blink,
        reverse: a.reverse,
        hidden: a.hidden,
        strikethrough: a.strikethrough,
    }
}

pub open spec fn shape_to_saved(s: CursorShape) -> SerializableCursorShape {
    match s {
        CursorShape::Block => SerializableCursorShape::Block,
        CursorShape::Underline => SerializableCursorShape::Underline,
        CursorShape::Bar => SerializableCursorShape::Bar,
    }
}

pub open spec fn cursor_to_saved(c: Cursor) -> SerializableCursor {
    SerializableCursor { x: c.x, y: c.y, visible: c.visible, shape: shape_to_saved(c.shape) }
}

pub open spec fn cell_to_saved(c: TerminalCell) -> SerializableCell {
    SerializableCell {
        c: c.c,
        fg: color_to_saved(c.fg),
        bg: color_to_saved(c.bg),
        attrs: attrs_to_saved(c.attrs),
    }
}

// ---- saved records to terminal model ----

pub open spec fn named_from_saved(nc: SerializableNamedColor) -> NamedColor {
    match nc {
        SerializableNamedColor::Black => NamedColor::Black,
        SerializableNamedColor::Red => NamedColor::Red,
        SerializableNamedColor::Green => NamedColor::Green,
        SerializableNamedColor::Yellow => NamedColor::Yellow,
        SerializableNamedColor::Blue => NamedColor::Blue,
        SerializableNamedColor::Magenta => NamedColor::Magenta,
        SerializableNamedColor::Cyan => NamedColor::Cyan,
        SerializableNamedColor::White => NamedColor::White,
        SerializableNamedColor::BrightBlack => NamedColor::BrightBlack,
        SerializableNamedColor::BrightRed => NamedColor::BrightRed,
        SerializableNamedColor::BrightGreen => NamedColor::BrightGreen,
        SerializableNamedColor::BrightYellow => NamedColor::BrightYellow,
        SerializableNamedColor::BrightBlue => NamedColor::BrightBlue,
        SerializableNamedColor::BrightMagenta => NamedColor::BrightMagenta,
        SerializableNamedColor::BrightCyan => NamedColor::BrightCyan,
        SerializableNamedColor::BrightWhite => NamedColor::BrightWhite,
    }
}

pub open spec fn color_from_saved(c: SerializableColor) -> Color {
    match c {
        SerializableColor::Named(nc) => Color::Named(named_from_saved(nc)),
        SerializableColor::Indexed(i) => Color::Indexed(i),
        SerializableColor::Rgb(r, g, b) => Color::Rgb(r, g, b),
    }
}

pub open spec fn attrs_from_saved(a: SerializableCellAttributes) -> CellAttributes {
    CellAttributes {
        bold: a.bold,
        dim: a.dim,
        italic: a.italic,
        underline: a.underline,
        blink: a.blink,
        reverse: a.reverse,
        hidden: a.hidden,
        strikethrough: a.strikethrough,
    }
}

pub open spec fn shape_from_saved(s: SerializableCursorShape) -> CursorShape {
    match s {
        SerializableCursorShape::Block => CursorShape::Block,
        SerializableCursorShape::Underline => CursorShape::Underline,
        SerializableCursorShape::Bar => CursorShape::Bar,
    }
}

pub open spec fn cursor_from_saved(c: SerializableCursor) -> Cursor {
    Cursor { x: c.x, y: c.y, visible: c.visible, shape: shape_from_saved(c.shape) }
}

pub open spec fn cell_from_saved(c: SerializableCell) -> TerminalCell {
    TerminalCell {
        c: c.c,
        fg: color_from_saved(c.fg),
        bg: color_from_saved(c.bg),
        attrs: attrs_from_saved(c.attrs),
    }
}

impl<'a> From<&'a NamedColor> for SerializableNamedColor {
    fn from(nc: &'a NamedColor) -> (r: Self) {
        match nc {
            NamedColor::Black => SerializableNamedColor::Black,
            NamedColor::Red => SerializableNamedColor::Red,
            NamedColor::Green => SerializableNamedColor::Green,
            NamedColor::Yellow => SerializableNamedColor::Yellow,
            NamedColor::Blue => SerializableNamedColor::Blue,
            NamedColor::Magenta => SerializableNamedColor::Magenta,
            NamedColor::Cyan => SerializableNamedColor::Cyan,
            NamedColor::White => SerializableNamedColor::White,
            NamedColor::BrightBlack => SerializableNamedColor::BrightBlack,
            NamedColor::BrightRed => SerializableNamedColor::BrightRed,
            NamedColor::BrightGreen => SerializableNamedColor::BrightGreen,
            NamedColor::BrightYellow => SerializableNamedColor::BrightYellow,
            NamedColor::BrightBlue => SerializableNamedColor::BrightBlue,
            NamedColor::BrightMagenta => SerializableNamedColor::BrightMagenta,
            NamedColor::BrightCyan => SerializableNamedColor::BrightCyan,
            NamedColor::BrightWhite => SerializableNamedColor::BrightWhite,
        }
    }
}

impl<'a> FromSpecImpl<&'a NamedColor> for SerializableNamedColor {
    open spec fn obeys_from_spec() -> bool {
        true
    }

    open spec fn from_spec(nc: &'a NamedColor) -> Self {
        named_to_saved(*nc)
    }
}


impl<'a> From<&'a SerializableNamedColor> for NamedColor {
    fn from(nc: &'a SerializableNamedColor) -> (r: Self) {
        match nc {
            SerializableNamedColor::Black => NamedColor::Black,
            SerializableNamedColor::Red => NamedColor::Red,
            SerializableNamedColor::Green => NamedColor::Green,
            SerializableNamedColor::Yellow => NamedColor::Yellow,
            SerializableNamedColor::Blue => NamedColor::Blue,
            SerializableNamedColor::Magenta => NamedColor::Magenta,
            SerializableNamedColor::Cyan => NamedColor::Cyan,
            SerializableNamedColor::White => NamedColor::White,
            SerializableNamedColor::BrightBlack => NamedColor::BrightBlack,
            SerializableNamedColor::BrightRed => NamedColor::BrightRed,
            SerializableNamedColor::BrightGreen => NamedColor::BrightGreen,
            SerializableNamedColor::BrightYellow => NamedColor::BrightYellow,
            SerializableNamedColor::BrightBlue => NamedColor::BrightBlue,
            SerializableNamedColor::BrightMagenta => NamedColor::BrightMagenta,
            SerializableNamedColor::BrightCyan => NamedColor::BrightCyan,
            SerializableNamedColor::BrightWhite => NamedColor::BrightWhite,
        }
    }
}

impl<'a> FromSpecImpl<&'a SerializableNamedColor> for NamedColor {
    open spec fn obeys_from_spec() -> bool {
        true
    }

    open spec fn from_spec(nc: &'a SerializableNamedColor) -> Self {
        named_from_saved(*nc)
    }
}

impl<'a> From<&'a Color> for SerializableColor {
    fn from(color: &'a Color) -> (r: Self) {
        match color {
            Color::Named(nc) => SerializableColor::Named(SerializableNamedColor::from(nc)),
            Color::Indexed(i) => SerializableColor::Indexed(*i),
            Color::Rgb(r, g, b) => SerializableColor::Rgb(*r, *g, *b),
        }
    }
}

impl<'a> FromSpecImpl<&'a Color> for SerializableColor {
    open spec fn obeys_from_spec() -> bool {
        true
    }

    open spec fn from_spec(color: &'a Color) -> Self {
        color_to_saved(*color)
    }
}

impl<'a> From<&'a SerializableColor> for Color {
    fn from(color: &'a SerializableColor) -> (r: Self) {
        match color {
            SerializableColor::Named(nc) => Color::Named(NamedColor::from(nc)),
            SerializableColor::Indexed(i) => Color::Indexed(*i),
            SerializableColor::Rgb(r, g, b) => Color::Rgb(*r, *g, *b),
        }
    }
}

impl<'a> FromSpecImpl<&'a SerializableColor> for Color {
    open spec fn obeys_from_spec() -> bool {
        true
    }

    open spec fn from_spec(color: &'a SerializableColor) -> Self {
        color_from_saved(*color)
    }
}

impl<'a> From<&'a CellAttributes> for SerializableCellAttributes {
    fn from(attrs: &'a CellAttributes) -> (r: Self) {
        SerializableCellAttributes {
            bold: attrs.bold,
            dim: attrs.dim,
            italic: attrs.italic,
            underline: attrs.underline,
            blink: attrs.blink,
            reverse: attrs.reverse,
            hidden: attrs.hidden,
            strikethrough: attrs.strikethrough,
        }
    }
}

impl<'a> FromSpecImpl<&'a CellAttributes> for SerializableCellAttributes {
    open spec fn obeys_from_spec() -> bool {
        true
    }

    open spec fn from_spec(attrs: &'a CellAttributes) -> Self {
        attrs_to_saved(*attrs)
    }
}

impl<'a> From<&'a SerializableCellAttributes> for CellAttributes {
    fn from(attrs: &'a SerializableCellAttributes) -> (r: Self) {
        CellAttributes {
            bold: attrs.bold,
            dim: attrs.dim,
            italic: attrs.italic,
            underline: attrs.underline,
            blink: attrs.blink,
            reverse: attrs.reverse,
            hidden: attrs.hidden,
            strikethrough: attrs.strikethrough,
        }
    }
}

impl<'a> FromSpecImpl<&'a SerializableCellAttributes> for CellAttributes {
    open spec fn obeys_from_spec() -> bool {
        true
    }

    open spec fn from_spec(attrs: &'a SerializableCellAttributes) -> Self {
        attrs_from_saved(*attrs)
    }
}

impl<'a> From<&'a CursorShape> for SerializableCursorShape {
    fn from(shape: &'a CursorShape) -> (r: Self) {
        match shape {
            CursorShape::Block => SerializableCursorShape::Block,
            CursorShape::Underline => SerializableCursorShape::Underline,
            CursorShape::Bar => SerializableCursorShape::Bar,
        }
    }
}

impl<'a> FromSpecImpl<&'a CursorShape> for SerializableCursorShape {
    open spec fn obeys_from_spec() -> bool {
        true
    }

    open spec fn from_spec(shape: &'a CursorShape) -> Self {
        shape_to_saved(*shape)
    }
}

impl<'a> From<&'a SerializableCursorShape> for CursorShape {
    fn from(shape: &'a SerializableCursorShape) -> (r: Self) {
        match shape {
            SerializableCursorShape::Block => CursorShape::Block,
            SerializableCursorShape::Underline => CursorShape::Underline,
            SerializableCursorShape::Bar => CursorShape::Bar,
        }
    }
}

impl<'a> FromSpecImpl<&'a SerializableCursorShape> for CursorShape {
    open spec fn obeys_from_spec() -> bool {
        true
    }

    open spec fn from_spec(shape: &'a SerializableCursorShape) -> Self {
        shape_from_saved(*shape)
    }
}

impl<'a> From<&'a Cursor> for SerializableCursor {
    fn from(cursor: &'a Cursor) -> (r: Self) {
        SerializableCursor {
            x: cursor.x,
            y: cursor.y,
            visible: cursor.visible,
            shape: SerializableCursorShape::from(&cursor.shape),
        }
    }
}

impl<'a> FromSpecImpl<&'a Cursor> for SerializableCursor {
    open spec fn obeys_from_spec() -> bool {
        true
    }

    open spec fn from_spec(cursor: &'a Cursor) -> Self {
        cursor_to_saved(*cursor)
    }
}

impl<'a> From<&'a SerializableCursor> for Cursor {
    fn from(cursor: &'a SerializableCursor) -> (r: Self) {
        Cursor {
            x: cursor.x,
            y: cursor.y,
            visible: cursor.visible,
            shape: CursorShape::from(&cursor.shape),
        }
    }
}

impl<'a> FromSpecImpl<&'a SerializableCursor> for Cursor {
    open spec fn obeys_from_spec() -> bool {
        true
    }

    open spec fn from_spec(cursor: &'a SerializableCursor) -> Self {
        cursor_from_saved(*cursor)
    }
}

impl<'a> From<&'a TerminalCell> for SerializableCell {
    fn from(cell: &'a TerminalCell) -> (r: Self) {
        SerializableCell {
            c: cell.c,
            fg: SerializableColor::from(&cell.fg),
            bg: SerializableColor::from(&cell.bg),
            attrs: SerializableCellAttributes::from(&cell.attrs),
        }
    }
}

impl<'a> FromSpecImpl<&'a TerminalCell> for SerializableCell {
    open spec fn obeys_from_spec() -> bool {
        true
    }

    open spec fn from_spec(cell: &'a TerminalCell) -> Self {
        cell_to_saved(*cell)
    }
}

impl<'a> From<&'a SerializableCell> for TerminalCell {
    fn from(cell: &'a SerializableCell) -> (r: Self) {
        TerminalCell {
            c: cell.c,
            fg: Color::from(&cell.fg),
            bg: Color::from(&cell.bg),
            attrs: CellAttributes::from(&cell.attrs),
        }
    }
}

impl<'a> FromSpecImpl<&'a SerializableCell> for TerminalCell {
    open spec fn obeys_from_spec() -> bool {
        true
    }

    open spec fn from_spec(cell: &'a SerializableCell) -> Self {
        cell_from_saved(*cell)
    }
}


/// Why a session file was not restored
#[derive(Clone, Debug, PartialEq, Eq)]
pub enum SessionLoadError {
    /// The file is larger than `MAX_SESSION_FILE_SIZE` bytes
    TooLarge(u64),
    /// The file is no session in the expected format
    Parse(String),
    /// The file was written by another format version
    IncompatibleVersion(u8),
}

/// Accepts a session file of `len` bytes only up to `MAX_SESSION_FILE_SIZE`
pub fn check_session_file_size(len: u64) -> (r: Result<(), SessionLoadError>)
    ensures
        len <= MAX_SESSION_FILE_SIZE ==> r == Ok::<(), SessionLoadError>(()),
        len > MAX_SESSION_FILE_SIZE ==> r == Err::<(), SessionLoadError>(
            SessionLoadError::TooLarge(len),
        ),
{
    if len > MAX_SESSION_FILE_SIZE {
        Err(SessionLoadError::TooLarge(len))
    } else {
        Ok(())
    }
}

/// Accepts a parsed session only in the current format version
pub fn check_session_version(state: SessionState) -> (r: Result<SessionState, SessionLoadError>)
    ensures
        state.version == SESSION_VERSION ==> r == Ok::<SessionState, SessionLoadError>(state),
        state.version != SESSION_VERSION ==> r == Err::<SessionState, SessionLoadError>(
            SessionLoadError::IncompatibleVersion(state.version),
        ),
{
    if state.version != SESSION_VERSION {
        Err(SessionLoadError::IncompatibleVersion(state.version))
    } else {
        Ok(state)
    }
}

/// Saving a terminal cell and restoring it gives the same cell back, and
/// restoring a saved cell and saving it again gives the same record.
pub proof fn law_cell_round_trip(cell: TerminalCell, saved: SerializableCell)
    ensures
        cell_from_saved(cell_to_saved(cell)) == cell,
        cell_to_saved(cell_from_saved(saved)) == saved,
{
}

/// Saving a color and restoring it gives the same color back, and the other
/// way round.
pub proof fn law_color_round_trip(color: Color, saved: SerializableColor)
    ensures
        color_from_saved(color_to_saved(color)) == color,
        color_to_saved(color_from_saved(saved)) == saved,
{
}

/// Saving a cursor and restoring it gives the same cursor back, and the
/// other way round.
pub proof fn law_cursor_round_trip(cursor: Cursor, saved: SerializableCursor)
    ensures
        cursor_from_saved(cursor_to_saved(cursor)) == cursor,
        cursor_to_saved(cursor_from_saved(saved)) == saved,
{
}

} // verus!
