//! Interpreter for ANSI/VT escape sequences.
//!
//! A byte-level parser splits the terminal output into printable characters,
//! C0 controls, ESC sequences and CSI sequences; this module decides what each
//! of them does to the terminal: it updates the pen and queues grid operations.
//! CSI parameters arrive as a list of parameter groups, each group holding a
//! parameter followed by its sub-parameters (a group is never empty).

use vstd::prelude::*;
use crate::term::{CellAttributes, Color, CursorShape, GridOp, NamedColor, TermMode, TermResponse, TerminalGrid, default_bg, default_fg};

verus! {

/// The pen: attributes, foreground and background of new characters
pub type Pen = (CellAttributes, Color, Color);

pub open spec fn pen_of(g: TerminalGrid) -> Pen {
    (g.current_attrs, g.current_fg, g.current_bg)
}

/// The pen after a full reset (SGR 0)
pub open spec fn reset_pen() -> Pen {
    (CellAttributes::spec_plain(), default_fg(), default_bg())
}

/// Every parameter group holds at least one value
pub open spec fn params_wf(ps: Seq<Vec<u16>>) -> bool {
    forall|i: int| 0 <= i < ps.len() ==> (#[trigger] ps[i])@.len() > 0
}

/// The first value of parameter group `i`, or `d` if there is no such group
pub open spec fn param_or(ps: Seq<Vec<u16>>, i: int, d: u16) -> u16 {
    if 0 <= i < ps.len() && ps[i]@.len() > 0 {
        ps[i]@[0]
    } else {
        d
    }
}

pub open spec fn sat_sub(a: usize, b: usize) -> usize {
    if a >= b {
        (a - b) as usize
    } else {
        0
    }
}

pub open spec fn min_usize(a: usize, b: usize) -> usize {
    if a <= b {
        a
    } else {
        b
    }
}

/// The named color with ANSI index `k` (0..8) in its normal or bright variant
pub open spec fn ansi_named(k: int, bright: bool) -> NamedColor {
    if !bright {
        if k == 0 {
            NamedColor::Black
        } else if k == 1 {
            NamedColor::Red
        } else if k == 2 {
            NamedColor::Green
        } else if k == 3 {
            NamedColor::Yellow
        } else if k == 4 {
            NamedColor::Blue
        } else if k == 5 {
            NamedColor::Magenta
        } else if k == 6 {
            NamedColor::Cyan
        } else {
            NamedColor::White
        }
    } else {
        if k == 0 {
            NamedColor::BrightBlack
        } else if k == 1 {
            NamedColor::BrightRed
        } else if k == 2 {
            NamedColor::BrightGreen
        } else if k == 3 {
            NamedColor::BrightYellow
        } else if k == 4 {
            NamedColor::BrightBlue
        } else if k == 5 {
            NamedColor::BrightMagenta
        } else if k == 6 {
            NamedColor::BrightCyan
        } else {
            NamedColor::BrightWhite
        }
    }
}

/// Effect of one SGR code that takes no further parameters
pub open spec fn sgr_code(p: Pen, code: u16) -> Pen {
    if code < 30 {
        sgr_attr_code(p, code)
    } else {
        sgr_color_code(p, code)
    }
}

/// Effect of an SGR code below 30: reset and rendition flags
pub open spec fn sgr_attr_code(p: Pen, code: u16) -> Pen {
    let (a, fg, bg) = p;
    if code == 0 {
        reset_pen()
    } else if code == 1 {
        (CellAttributes { bold: true, ..a }, fg, bg)
    } else if code == 2 {
        (CellAttributes { dim: true, ..a }, fg, bg)
    } else if code == 3 {
        (CellAttributes { italic: true, ..a }, fg, bg)
    } else if code == 4 {
        (CellAttributes { underline: true, ..a }, fg, bg)
    } else if code == 5 {
        (CellAttributes { blink: true, ..a }, fg, bg)
    } else if code == 7 {
        (CellAttributes { reverse: true, ..a }, fg, bg)
    } else if code == 8 {
        (CellAttributes { hidden: true, ..a }, fg, bg)
    } else if code == 9 {
        (CellAttributes { strikethrough: true, ..a }, fg, bg)
    } else if code == 22 {
        (CellAttributes { bold: false, dim: false, ..a }, fg, bg)
    } else if code == 23 {
        (CellAttributes { italic: false, ..a }, fg, bg)
    } else if code == 24 {
        (CellAttributes { underline: false, ..a }, fg, bg)
    } else if code == 25 {
        (CellAttributes { blink: false, ..a }, fg, bg)
    } else if code == 27 {
        (CellAttributes { reverse: false, ..a }, fg, bg)
    } else if code == 28 {
        (CellAttributes { hidden: false, ..a }, fg, bg)
    } else if code == 29 {
        (CellAttributes { strikethrough: false, ..a }, fg, bg)
    } else {
        p
    }
}

/// Effect of an SGR code from 30 on: colors
pub open spec fn sgr_color_code(p: Pen, code: u16) -> Pen {
    let (a, fg, bg) = p;
    if 30 <= code <= 37 {
        (a, Color::Named(ansi_named(code - 30, false)), bg)
    } else if code == 39 {
        (a, default_fg(), bg)
    } else if 40 <= code <= 47 {
        (a, fg, Color::Named(ansi_named(code - 40, false)))
    } else if code == 49 {
        (a, fg, default_bg())
    } else if 90 <= code <= 97 {
        (a, Color::Named(ansi_named(code - 90, true)), bg)
    } else if 100 <= code <= 107 {
        (a, fg, Color::Named(ansi_named(code - 100, true)))
    } else {
        p
    }
}

/// The pen with its foreground (`fg == true`) or background replaced
pub open spec fn set_pen_color(p: Pen, fg: bool, c: Color) -> Pen {
    if fg {
        (p.0, c, p.2)
    } else {
        (p.0, p.1, c)
    }
}

/// One step of an SGR sequence at group `i` (which must exist): the pen after
/// it, and the index of the next group. Codes 38 and 48 take their color from
/// the following groups: `2;r;g;b` (true color, only applied when all three
/// components are present) or `5;n` (palette).
pub open spec fn sgr_step(p: Pen, ps: Seq<Vec<u16>>, i: int) -> (Pen, int) {
    let code = ps[i]@[0];
    if code == 38 || code == 48 {
        if i + 1 >= ps.len() {
            (p, ps.len() as int)
        } else {
            let kind = ps[i + 1]@[0];
            let j = i + 2;
            if kind == 2 {
                if j + 2 < ps.len() {
                    (
                        set_pen_color(
                            p,
                            code == 38,
                            Color::Rgb(ps[j]@[0] as u8, ps[j + 1]@[0] as u8, ps[j + 2]@[0] as u8),
                        ),
                        j + 3,
                    )
                } else {
                    (p, ps.len() as int)
                }
            } else if kind == 5 {
                if j < ps.len() {
                    (set_pen_color(p, code == 38, Color::Indexed(ps[j]@[0] as u8)), j + 1)
                } else {
                    (p, ps.len() as int)
                }
            } else {
                (p, j)
            }
        }
    } else {
        (sgr_code(p, code), i + 1)
    }
}

/// The pen after the SGR parameter groups from index `i` on
pub open spec fn sgr_from(p: Pen, ps: Seq<Vec<u16>>, i: int) -> Pen
    decreases ps.len() - i,
{
    if i < 0 || i >= ps.len() {
        p
    } else {
        let (q, next) = sgr_step(p, ps, i);
        if next <= i {
            q
        } else {
            sgr_from(q, ps, next)
        }
    }
}

/// The pen after a whole SGR sequence (no parameters means reset)
pub open spec fn sgr_effect(p: Pen, ps: Seq<Vec<u16>>) -> Pen {
    if ps.len() == 0 {
        reset_pen()
    } else {
        sgr_from(p, ps, 0)
    }
}

/// Grid operation of one parameter of SM/RM (standard modes)
pub open spec fn std_mode_op(code: u16, on: bool) -> Seq<GridOp> {
    if code == 4 {
        seq![GridOp::SetMode(TermMode::Insert, on)]
    } else if code == 20 {
        seq![GridOp::SetMode(TermMode::LineFeedNewLine, on)]
    } else {
        seq![]
    }
}

/// Grid operation of one parameter of DECSET/DECRST (private modes)
pub open spec fn private_mode_op(code: u16, on: bool) -> Seq<GridOp> {
    if code == 1 {
        seq![GridOp::SetMode(TermMode::ApplicationCursorKeys, on)]
    } else if code == 6 {
        seq![GridOp::SetMode(TermMode::Origin, on)]
    } else if code == 7 {
        seq![GridOp::SetMode(TermMode::AutoWrap, on)]
    } else if code == 25 {
        seq![GridOp::SetMode(TermMode::CursorVisible, on)]
    } else if code == 1002 {
        seq![GridOp::SetMode(TermMode::MouseButtonTracking, on)]
    } else if code == 1004 {
        seq![GridOp::SetMode(TermMode::FocusEvents, on)]
    } else if code == 1006 {
        seq![GridOp::SetMode(TermMode::MouseSgr, on)]
    } else if code == 1015 {
        seq![GridOp::SetMode(TermMode::MouseUrxvt, on)]
    } else if code == 47 || code == 1047 || code == 1049 {
        if on {
            seq![GridOp::UseAltScreen]
        } else {
            seq![GridOp::UseMainScreen]
        }
    } else if code == 1048 {
        if on {
            seq![GridOp::SaveCursor]
        } else {
            seq![GridOp::RestoreCursor]
        }
    } else if code == 2004 {
        seq![GridOp::SetMode(TermMode::BracketedPaste, on)]
    } else if code == 2026 {
        if on {
            seq![GridOp::BeginSynchronizedOutput]
        } else {
            seq![GridOp::EndSynchronizedOutput]
        }
    } else {
        seq![]
    }
}

/// Operations of the first `k` parameters of a mode set/reset sequence
pub open spec fn mode_ops_upto(ps: Seq<Vec<u16>>, k: int, private: bool, on: bool) -> Seq<GridOp>
    decreases k,
{
    if k <= 0 {
        seq![]
    } else {
        let code = ps[k - 1]@[0];
        mode_ops_upto(ps, k - 1, private, on) + if private {
            private_mode_op(code, on)
        } else {
            std_mode_op(code, on)
        }
    }
}

/// The count argument of a CSI sequence: first parameter, 1 when absent
pub open spec fn csi_count(ps: Seq<Vec<u16>>) -> usize {
    param_or(ps, 0, 1) as usize
}

pub open spec fn neg(n: usize) -> isize {
    (0 - n) as isize
}

/// Cursor shape selected by DECSCUSR
pub open spec fn shape_of(code: u16) -> CursorShape {
    if code == 3 || code == 4 {
        CursorShape::Underline
    } else if code == 5 || code == 6 {
        CursorShape::Bar
    } else {
        CursorShape::Block
    }
}

/// Grid operations of a CSI sequence without intermediates, for the final
/// characters that move the cursor, erase, insert, delete or scroll
pub open spec fn csi_plain_ops(ps: Seq<Vec<u16>>, c: char, cols: usize, rows: usize) -> Seq<GridOp> {
    let n = csi_count(ps);
    let mode = param_or(ps, 0, 0);
    if c == 'A' {
        seq![GridOp::MoveCursor(0, neg(n))]
    } else if c == 'B' {
        seq![GridOp::MoveCursor(0, n as isize)]
    } else if c == 'C' {
        seq![GridOp::MoveCursor(n as isize, 0)]
    } else if c == 'D' {
        seq![GridOp::MoveCursor(neg(n), 0)]
    } else if c == 'c' {
        seq![GridOp::Respond(TermResponse::PrimaryDeviceAttributes)]
    } else if c == 'E' {
        seq![GridOp::MoveCursor(0, n as isize), GridOp::SetCursorX(0)]
    } else if c == 'F' {
        seq![GridOp::MoveCursor(0, neg(n)), GridOp::SetCursorX(0)]
    } else if c == 'G' {
        seq![GridOp::SetCursorX(min_usize(sat_sub(n, 1), sat_sub(cols, 1)))]
    } else if c == 'H' || c == 'f' {
        seq![GridOp::Goto(sat_sub(param_or(ps, 1, 1) as usize, 1), sat_sub(n, 1))]
    } else if c == 'J' {
        if mode == 0 {
            seq![GridOp::EraseToEndOfScreen]
        } else if mode == 1 {
            seq![GridOp::EraseFromStartOfScreen]
        } else if mode == 2 || mode == 3 {
            seq![GridOp::ClearScreen]
        } else {
            seq![]
        }
    } else if c == 'K' {
        if mode == 0 {
            seq![GridOp::EraseToEndOfLine]
        } else if mode == 1 {
            seq![GridOp::EraseToStartOfLine]
        } else if mode == 2 {
            seq![GridOp::ClearLine]
        } else {
            seq![]
        }
    } else if c == 'P' {
        seq![GridOp::DeleteChars(n)]
    } else if c == '@' {
        seq![GridOp::InsertChars(n)]
    } else if c == 'X' {
        seq![GridOp::EraseChars(n)]
    } else if c == 'L' || c == 'T' {
        seq![GridOp::ScrollDown(n)]
    } else if c == 'M' || c == 'S' {
        seq![GridOp::ScrollUp(n)]
    } else if c == 'd' {
        seq![GridOp::SetCursorY(min_usize(sat_sub(n, 1), sat_sub(rows, 1)))]
    } else if c == 'n' {
        if mode == 5 {
            seq![GridOp::Respond(TermResponse::StatusOk)]
        } else if mode == 6 {
            seq![GridOp::CursorPositionReport]
        } else {
            seq![]
        }
    } else if c == 'r' {
        seq![
            GridOp::SetScrollRegion(
                sat_sub(n, 1),
                sat_sub(param_or(ps, 1, (rows as u16)) as usize, 1),
            ),
        ]
    } else if c == 's' {
        seq![GridOp::SaveCursorPosition]
    } else if c == 'u' {
        seq![GridOp::RestoreCursorPosition]
    } else if c == 'h' || c == 'l' {
        mode_ops_upto(ps, ps.len() as int, false, c == 'h')
    } else {
        seq![]
    }
}

/// Grid operations of a CSI sequence (SGR changes the pen, not the grid)
pub open spec fn csi_ops(ps: Seq<Vec<u16>>, inter: Seq<u8>, c: char, cols: usize, rows: usize) -> Seq<GridOp> {
    if inter.len() == 0 {
        csi_plain_ops(ps, c, cols, rows)
    } else if inter.len() == 1 && inter[0] == 62u8 && c == 'c' {
        seq![GridOp::Respond(TermResponse::SecondaryDeviceAttributes)]
    } else if inter.len() == 1 && inter[0] == 63u8 && (c == 'h' || c == 'l') {
        mode_ops_upto(ps, ps.len() as int, true, c == 'h')
    } else if inter.len() == 1 && inter[0] == 32u8 && c == 'q' {
        seq![GridOp::SetCursorShape(shape_of(param_or(ps, 0, 0)))]
    } else {
        seq![]
    }
}

/// Grid operations of a C0 control byte
pub open spec fn execute_ops(byte: u8) -> Seq<GridOp> {
    if byte == 10u8 || byte == 11u8 {
        seq![GridOp::PutChar('\n')]
    } else if byte == 13u8 {
        seq![GridOp::PutChar('\r')]
    } else if byte == 9u8 {
        seq![GridOp::PutChar('\t')]
    } else if byte == 8u8 {
        seq![GridOp::PutChar('\x08')]
    } else if byte == 12u8 {
        seq![GridOp::ClearScreen, GridOp::Goto(0, 0)]
    } else {
        seq![]
    }
}

/// Grid operations of an ESC sequence
pub open spec fn esc_ops(inter: Seq<u8>, byte: u8) -> Seq<GridOp> {
    if inter.len() != 0 {
        seq![]
    } else if byte == 68u8 {
        seq![GridOp::PutChar('\n')]
    } else if byte == 77u8 {
        seq![GridOp::ReverseLinefeed]
    } else if byte == 69u8 {
        seq![GridOp::NextLine]
    } else if byte == 55u8 {
        seq![GridOp::SaveCursor]
    } else if byte == 56u8 {
        seq![GridOp::RestoreCursor]
    } else if byte == 99u8 {
        seq![GridOp::Reset]
    } else {
        seq![]
    }
}

/// The grid is unchanged but for its operation list
pub open spec fn same_but_ops(a: TerminalGrid, b: TerminalGrid) -> bool {
    &&& a.current_attrs == b.current_attrs
    &&& a.current_fg == b.current_fg
    &&& a.current_bg == b.current_bg
    &&& a.cols == b.cols
    &&& a.rows == b.rows
}

/// ANSI escape sequence handler
pub struct AnsiHandler {
    pub grid: TerminalGrid,
}

/// First value of parameter group `i`, or `d`
fn param_at(params: &Vec<Vec<u16>>, i: usize, d: u16) -> (r: u16)
    ensures
        r == param_or(params@, i as int, d),
{
    if i < params.len() && params[i].len() > 0 {
        params[i][0]
    } else {
        d
    }
}

fn sat_sub_exec(a: usize, b: usize) -> (r: usize)
    ensures
        r == sat_sub(a, b),
{
    if a >= b {
        a - b
    } else {
        0
    }
}

fn named_normal(k: u16) -> (c: NamedColor)
    requires
        k < 8,
    ensures
        c == ansi_named(k as int, false),
{
    match k {
        0 => NamedColor::Black,
        1 => NamedColor::Red,
        2 => NamedColor::Green,
        3 => NamedColor::Yellow,
        4 => NamedColor::Blue,
        5 => NamedColor::Magenta,
        6 => NamedColor::Cyan,
        _ => NamedColor::White,
    }
}

fn named_bright(k: u16) -> (c: NamedColor)
    requires
        k < 8,
    ensures
        c == ansi_named(k as int, true),
{
    match k {
        0 => NamedColor::BrightBlack,
        1 => NamedColor::BrightRed,
        2 => NamedColor::BrightGreen,
        3 => NamedColor::BrightYellow,
        4 => NamedColor::BrightBlue,
        5 => NamedColor::BrightMagenta,
        6 => NamedColor::BrightCyan,
        _ => NamedColor::BrightWhite,
    }
}

impl AnsiHandler {
    pub fn new(grid: TerminalGrid) -> (h: Self)
        ensures
            h.grid == grid,
    {
        AnsiHandler { grid }
    }

    fn reset_pen(&mut self)
        ensures
            pen_of(final(self).grid) == reset_pen(),
            same_but_pen(old(self).grid, final(self).grid),
    {
        self.grid.current_attrs = CellAttributes::plain();
        self.grid.current_fg = Color::Named(NamedColor::BrightGreen);
        self.grid.current_bg = Color::Named(NamedColor::Black);
    }

    fn set_color(&mut self, fg: bool, c: Color)
        ensures
            pen_of(final(self).grid) == set_pen_color(pen_of(old(self).grid), fg, c),
            same_but_pen(old(self).grid, final(self).grid),
    {
        if fg {
            self.grid.current_fg = c;
        } else {
            self.grid.current_bg = c;
        }
    }

    /// Applies one SGR code that takes no further parameters
    fn apply_sgr_code(&mut self, code: u16)
        ensures
            pen_of(final(self).grid) == sgr_code(pen_of(old(self).grid), code),
            same_but_pen(old(self).grid, final(self).grid),
    {
        if code < 30 {
            self.apply_sgr_attr(code);
        } else {
            self.apply_sgr_color(code);
        }
    }

    fn apply_sgr_attr(&mut self, code: u16)
        requires
            code < 30,
        ensures
            pen_of(final(self).grid) == sgr_attr_code(pen_of(old(self).grid), code),
            same_but_pen(old(self).grid, final(self).grid),
    {
        match code {
            0 => self.reset_pen(),
            1 => self.grid.current_attrs.bold = true,
            2 => self.grid.current_attrs.dim = true,
            3 => self.grid.current_attrs.italic = true,
            4 => self.grid.current_attrs.underline = true,
            5 => self.grid.current_attrs.blink = true,
            7 => self.grid.current_attrs.reverse = true,
            8 => self.grid.current_attrs.hidden = true,
            9 => self.grid.current_attrs.strikethrough = true,
            22 => {
                self.grid.current_attrs.bold = false;
                self.grid.current_attrs.dim = false;
            },
            23 => self.grid.current_attrs.italic = false,
            24 => self.grid.current_attrs.underline = false,
            25 => self.grid.current_attrs.blink = false,
            27 => self.grid.current_attrs.reverse = false,
            28 => self.grid.current_attrs.hidden = false,
            29 => self.grid.current_attrs.strikethrough = false,
            _ => {},
        }
    }

    fn apply_sgr_color(&mut self, code: u16)
        requires
            code >= 30,
        ensures
            pen_of(final(self).grid) == sgr_color_code(pen_of(old(self).grid), code),
            same_but_pen(old(self).grid, final(self).grid),
    {
        match code {
            30..=37 => self.grid.current_fg = Color::Named(named_normal(code - 30)),
            39 => self.grid.current_fg = Color::Named(NamedColor::BrightGreen),
            40..=47 => self.grid.current_bg = Color::Named(named_normal(code - 40)),
            49 => self.grid.current_bg = Color::Named(NamedColor::Black),
            90..=97 => self.grid.current_fg = Color::Named(named_bright(code - 90)),
            100..=107 => self.grid.current_bg = Color::Named(named_bright(code - 100)),
            _ => {},
        }
    }

    fn push_op(&mut self, op: GridOp)
        ensures
            final(self).grid.ops@ == old(self).grid.ops@.push(op),
            same_but_ops(old(self).grid, final(self).grid),
    {
        self.grid.ops.push(op);
    }

    /// Printable character
    pub fn print(&mut self, c: char)
        ensures
            final(self).grid.ops@ == old(self).grid.ops@.push(GridOp::PutChar(c)),
            same_but_ops(old(self).grid, final(self).grid),
    {
        self.push_op(GridOp::PutChar(c));
    }

    /// C0 control byte
    pub fn execute(&mut self, byte: u8)
        ensures
            final(self).grid.ops@ == old(self).grid.ops@ + execute_ops(byte),
            same_but_ops(old(self).grid, final(self).grid),
    {
        match byte {
            10 | 11 => self.push_op(GridOp::PutChar('\n')),
            13 => self.push_op(GridOp::PutChar('\r')),
            9 => self.push_op(GridOp::PutChar('\t')),
            8 => self.push_op(GridOp::PutChar('\x08')),
            12 => {
                self.push_op(GridOp::ClearScreen);
                self.push_op(GridOp::Goto(0, 0));
            },
            _ => {},
        }
    }

    /// Start of a device control string: not interpreted
    pub fn hook(&mut self, params: &Vec<Vec<u16>>, intermediates: &[u8], ignore: bool, c: char)
        ensures
            final(self).grid == old(self).grid,
    {
    }

    /// Byte of a device control string: not interpreted
    pub fn put(&mut self, byte: u8)
        ensures
            final(self).grid == old(self).grid,
    {
    }

    /// End of a device control string: not interpreted
    pub fn unhook(&mut self)
        ensures
            final(self).grid == old(self).grid,
    {
    }

    /// Operating system command (window title and the like): not interpreted
    pub fn osc_dispatch(&mut self, params: &Vec<Vec<u8>>, bell_terminated: bool)
        ensures
            final(self).grid == old(self).grid,
    {
    }

    /// ESC sequence
    pub fn esc_dispatch(&mut self, intermediates: &[u8], ignore: bool, byte: u8)
        ensures
            final(self).grid.ops@ == old(self).grid.ops@ + esc_ops(intermediates@, byte),
            same_but_ops(old(self).grid, final(self).grid),
    {
        if intermediates.len() != 0 {
            return;
        }
        match byte {
            68 => self.push_op(GridOp::PutChar('\n')),
            77 => self.push_op(GridOp::ReverseLinefeed),
            69 => self.push_op(GridOp::NextLine),
            55 => self.push_op(GridOp::SaveCursor),
            56 => self.push_op(GridOp::RestoreCursor),
            99 => self.push_op(GridOp::Reset),
            _ => {},
        }
    }

    /// Mode set (`on`) or reset for every parameter, standard or private
    fn set_modes(&mut self, params: &Vec<Vec<u16>>, private: bool, on: bool)
        requires
            params_wf(params@),
        ensures
            final(self).grid.ops@ == old(self).grid.ops@ + mode_ops_upto(
                params@,
                params@.len() as int,
                private,
                on,
            ),
            same_but_ops(old(self).grid, final(self).grid),
    {
        let n = params.len();
        let mut k: usize = 0;
        while k < n
            invariant
                n == params@.len(),
                params_wf(params@),
                k <= n,
                self.grid.ops@ == old(self).grid.ops@ + mode_ops_upto(params@, k as int, private, on),
                same_but_ops(old(self).grid, self.grid),
            decreases n - k,
        {
            let code = params[k][0];
            if private {
                self.private_mode(code, on);
            } else {
                self.std_mode(code, on);
            }
            k = k + 1;
            assert(self.grid.ops@ == old(self).grid.ops@ + mode_ops_upto(params@, k as int, private, on));
        }
    }

    fn std_mode(&mut self, code: u16, on: bool)
        ensures
            final(self).grid.ops@ == old(self).grid.ops@ + std_mode_op(code, on),
            same_but_ops(old(self).grid, final(self).grid),
    {
        match code {
            4 => self.push_op(GridOp::SetMode(TermMode::Insert, on)),
            20 => self.push_op(GridOp::SetMode(TermMode::LineFeedNewLine, on)),
            _ => {},
        }
    }

    fn private_mode(&mut self, code: u16, on: bool)
        ensures
            final(self).grid.ops@ == old(self).grid.ops@ + private_mode_op(code, on),
            same_but_ops(old(self).grid, final(self).grid),
    {
        match code {
            1 => self.push_op(GridOp::SetMode(TermMode::ApplicationCursorKeys, on)),
            6 => self.push_op(GridOp::SetMode(TermMode::Origin, on)),
            7 => self.push_op(GridOp::SetMode(TermMode::AutoWrap, on)),
            25 => self.push_op(GridOp::SetMode(TermMode::CursorVisible, on)),
            1002 => self.push_op(GridOp::SetMode(TermMode::MouseButtonTracking, on)),
            1004 => self.push_op(GridOp::SetMode(TermMode::FocusEvents, on)),
            1006 => self.push_op(GridOp::SetMode(TermMode::MouseSgr, on)),
            1015 => self.push_op(GridOp::SetMode(TermMode::MouseUrxvt, on)),
            47 | 1047 | 1049 => {
                if on {
                    self.push_op(GridOp::UseAltScreen)
                } else {
                    self.push_op(GridOp::UseMainScreen)
                }
            },
            1048 => {
                if on {
                    self.push_op(GridOp::SaveCursor)
                } else {
                    self.push_op(GridOp::RestoreCursor)
                }
            },
            2004 => self.push_op(GridOp::SetMode(TermMode::BracketedPaste, on)),
            2026 => {
                if on {
                    self.push_op(GridOp::BeginSynchronizedOutput)
                } else {
                    self.push_op(GridOp::EndSynchronizedOutput)
                }
            },
            _ => {},
        }
    }

    /// CSI sequences without intermediates that move the cursor or report
    fn csi_cursor(&mut self, params: &Vec<Vec<u16>>, c: char)
        requires
            params_wf(params@),
            c == 'A' || c == 'B' || c == 'C' || c == 'D' || c == 'c' || c == 'E' || c == 'F'
                || c == 'G' || c == 'H' || c == 'f' || c == 'd' || c == 'n' || c == 'r'
                || c == 's' || c == 'u',
        ensures
            final(self).grid.ops@ == old(self).grid.ops@ + csi_plain_ops(
                params@,
                c,
                old(self).grid.cols,
                old(self).grid.rows,
            ),
            same_but_ops(old(self).grid, final(self).grid),
    {
        let n = param_at(params, 0, 1) as usize;
        let mode = param_at(params, 0, 0);
        let cols = self.grid.cols();
        let rows = self.grid.rows();
        if c == 'A' {
            self.push_op(GridOp::MoveCursor(0, -(n as isize)));
        } else if c == 'B' {
            self.push_op(GridOp::MoveCursor(0, n as isize));
        } else if c == 'C' {
            self.push_op(GridOp::MoveCursor(n as isize, 0));
        } else if c == 'D' {
            self.push_op(GridOp::MoveCursor(-(n as isize), 0));
        } else if c == 'c' {
            self.push_op(GridOp::Respond(TermResponse::PrimaryDeviceAttributes));
        } else if c == 'E' {
            self.push_op(GridOp::MoveCursor(0, n as isize));
            self.push_op(GridOp::SetCursorX(0));
        } else if c == 'F' {
            self.push_op(GridOp::MoveCursor(0, -(n as isize)));
            self.push_op(GridOp::SetCursorX(0));
        } else if c == 'G' {
            let a = sat_sub_exec(n, 1);
            let b = sat_sub_exec(cols, 1);
            self.push_op(GridOp::SetCursorX(if a <= b { a } else { b }));
        } else if c == 'H' || c == 'f' {
            let col = param_at(params, 1, 1) as usize;
            self.push_op(GridOp::Goto(sat_sub_exec(col, 1), sat_sub_exec(n, 1)));
        } else if c == 'd' {
            let a = sat_sub_exec(n, 1);
            let b = sat_sub_exec(rows, 1);
            self.push_op(GridOp::SetCursorY(if a <= b { a } else { b }));
        } else if c == 'n' {
            if mode == 5 {
                self.push_op(GridOp::Respond(TermResponse::StatusOk));
            } else if mode == 6 {
                self.push_op(GridOp::CursorPositionReport);
            }
        } else if c == 'r' {
            let bottom = param_at(params, 1, #[verifier::truncate] (rows as u16)) as usize;
            self.push_op(GridOp::SetScrollRegion(sat_sub_exec(n, 1), sat_sub_exec(bottom, 1)));
        } else if c == 's' {
            self.push_op(GridOp::SaveCursorPosition);
        } else {
            self.push_op(GridOp::RestoreCursorPosition);
        }
    }

    /// CSI sequences without intermediates that erase, insert, delete or scroll
    fn csi_edit(&mut self, params: &Vec<Vec<u16>>, c: char)
        requires
            params_wf(params@),
            c == 'J' || c == 'K' || c == 'P' || c == '@' || c == 'X' || c == 'L' || c == 'M'
                || c == 'S' || c == 'T',
        ensures
            final(self).grid.ops@ == old(self).grid.ops@ + csi_plain_ops(
                params@,
                c,
                old(self).grid.cols,
                old(self).grid.rows,
            ),
            same_but_ops(old(self).grid, final(self).grid),
    {
        let n = param_at(params, 0, 1) as usize;
        let mode = param_at(params, 0, 0);
        if c == 'J' {
            match mode {
                0 => self.push_op(GridOp::EraseToEndOfScreen),
                1 => self.push_op(GridOp::EraseFromStartOfScreen),
                2 | 3 => self.push_op(GridOp::ClearScreen),
                _ => {},
            }
        } else if c == 'K' {
            match mode {
                0 => self.push_op(GridOp::EraseToEndOfLine),
                1 => self.push_op(GridOp::EraseToStartOfLine),
                2 => self.push_op(GridOp::ClearLine),
                _ => {},
            }
        } else if c == 'P' {
            self.push_op(GridOp::DeleteChars(n));
        } else if c == '@' {
            self.push_op(GridOp::InsertChars(n));
        } else if c == 'X' {
            self.push_op(GridOp::EraseChars(n));
        } else if c == 'L' || c == 'T' {
            self.push_op(GridOp::ScrollDown(n));
        } else {
            self.push_op(GridOp::ScrollUp(n));
        }
    }

    /// CSI sequence: the final character `c` with its parameters and
    /// intermediate bytes; sequences the parser flagged `ignore` do nothing
    pub fn csi_dispatch(&mut self, params: &Vec<Vec<u16>>, intermediates: &[u8], ignore: bool, c: char)
        requires
            params_wf(params@),
        ensures
            ignore ==> final(self).grid == old(self).grid,
            !ignore && intermediates@.len() == 0 && c == 'm' ==> {
                &&& pen_of(final(self).grid) == sgr_effect(pen_of(old(self).grid), params@)
                &&& same_but_pen(old(self).grid, final(self).grid)
            },
            !ignore && !(intermediates@.len() == 0 && c == 'm') ==> {
                &&& final(self).grid.ops@ == old(self).grid.ops@ + csi_ops(
                    params@,
                    intermediates@,
                    c,
                    old(self).grid.cols,
                    old(self).grid.rows,
                )
                &&& same_but_ops(old(self).grid, final(self).grid)
            },
    {
        if ignore {
            return;
        }
        if intermediates.len() == 0 {
            if c == 'm' {
                self.handle_sgr(params);
            } else if c == 'A' || c == 'B' || c == 'C' || c == 'D' || c == 'c' || c == 'E'
                || c == 'F' || c == 'G' || c == 'H' || c == 'f' || c == 'd' || c == 'n'
                || c == 'r' || c == 's' || c == 'u' {
                self.csi_cursor(params, c);
            } else if c == 'J' || c == 'K' || c == 'P' || c == '@' || c == 'X' || c == 'L'
                || c == 'M' || c == 'S' || c == 'T' {
                self.csi_edit(params, c);
            } else if c == 'h' || c == 'l' {
                self.set_modes(params, false, c == 'h');
            }
        } else if intermediates.len() == 1 {
            let b = intermediates[0];
            if b == 62 && c == 'c' {
                self.push_op(GridOp::Respond(TermResponse::SecondaryDeviceAttributes));
            } else if b == 63 && (c == 'h' || c == 'l') {
                self.set_modes(params, true, c == 'h');
            } else if b == 32 && c == 'q' {
                let code = param_at(params, 0, 0);
                let shape = match code {
                    3 | 4 => CursorShape::Underline,
                    5 | 6 => CursorShape::Bar,
                    _ => CursorShape::Block,
                };
                self.push_op(GridOp::SetCursorShape(shape));
            }
        }
    }

    /// SGR: select graphic rendition
    pub fn handle_sgr(&mut self, params: &Vec<Vec<u16>>)
        requires
            params_wf(params@),
        ensures
            pen_of(final(self).grid) == sgr_effect(pen_of(old(self).grid), params@),
            same_but_pen(old(self).grid, final(self).grid),
    {
        if params.len() == 0 {
            self.reset_pen();
            return;
        }
        let ghost start = pen_of(self.grid);
        let n = params.len();
        let mut i: usize = 0;
        while i < n
            invariant
                n == params@.len(),
                params_wf(params@),
                i <= n,
                sgr_from(start, params@, 0) == sgr_from(pen_of(self.grid), params@, i as int),
                same_but_pen(old(self).grid, self.grid),
            decreases n - i,
        {
            let code = params[i][0];
            if code == 38 || code == 48 {
                if i + 1 >= n {
                    i = n;
                } else {
                    let kind = params[i + 1][0];
                    let j = i + 2;
                    if kind == 2 {
                        if n - j > 2 {
                            let r = #[verifier::truncate] (params[j][0] as u8);
                            let g = #[verifier::truncate] (params[j + 1][0] as u8);
                            let b = #[verifier::truncate] (params[j + 2][0] as u8);
                            self.set_color(code == 38, Color::Rgb(r, g, b));
                            i = j + 3;
                        } else {
                            i = n;
                        }
                    } else if kind == 5 {
                        if j < n {
                            let idx = #[verifier::truncate] (params[j][0] as u8);
                            self.set_color(code == 38, Color::Indexed(idx));
                            i = j + 1;
                        } else {
                            i = n;
                        }
                    } else {
                        i = j;
                    }
                }
            } else {
                self.apply_sgr_code(code);
                i = i + 1;
            }
        }
    }
}

/// The grid is unchanged but for its pen
pub open spec fn same_but_pen(a: TerminalGrid, b: TerminalGrid) -> bool {
    &&& a.cols == b.cols
    &&& a.rows == b.rows
    &&& a.ops@ == b.ops@
}

} // verus!
