//! Drawing as data: the cells a widget writes to the screen buffer, in the
//! order it writes them, with colors named by their role in the theme.

use vstd::prelude::*;
use crate::color::UiColor;

verus! {

/// Colors of the theme, by role
#[derive(Debug, Clone, Copy, PartialEq, Eq, Structural)]
pub enum ThemeColor {
    PromptDangerFg,
    PromptDangerBg,
    DialogButtonPrimaryDangerFg,
    DialogButtonPrimaryDangerBg,
    WindowShadowColor,
    MenuFg,
    MenuBg,
    MenuBorder,
    MenuSelectedFg,
    MenuSelectedBg,
    MenuShadowFg,
    ConfigTitleBg,
    ConfigTitleFg,
    ConfigBorder,
    ConfigContentBg,
    ConfigContentFg,
    ConfigToggleOnColor,
    ConfigToggleOffColor,
    ConfigInstructionsFg,
    PromptWarningBg,
}

/// The color a cell gets
#[derive(Debug, Clone, Copy, PartialEq, Eq, Structural)]
pub enum Paint {
    /// A color of the theme
    Role(ThemeColor),
    /// The color the cell already has
    Keep,
    /// A fixed color
    Fixed(UiColor),
}

/// One cell written to the screen buffer
#[derive(Debug, Clone, Copy, PartialEq, Eq, Structural)]
pub struct DrawOp {
    pub x: u16,
    pub y: u16,
    pub ch: char,
    pub fg: Paint,
    pub bg: Paint,
    /// Written as given, without the color adjustment of ordinary cells
    pub raw: bool,
}

/// The write of one cell
pub open spec fn op(x: int, y: int, ch: char, fg: Paint, bg: Paint) -> DrawOp {
    DrawOp { x: x as u16, y: y as u16, ch, fg, bg, raw: false }
}

/// The write of one cell with its colors taken as given
pub open spec fn raw_op(x: int, y: int, ch: char, fg: Paint, bg: Paint) -> DrawOp {
    DrawOp { x: x as u16, y: y as u16, ch, fg, bg, raw: true }
}

/// `n` copies of a character along a row, from column `x0`
pub open spec fn hrun(x0: int, y: int, n: int, ch: char, fg: Paint, bg: Paint) -> Seq<DrawOp> {
    Seq::new(if n > 0 { n as nat } else { 0 }, |i: int| op(x0 + i, y, ch, fg, bg))
}

/// A text along a row, from column `x0`
pub open spec fn text_run(x0: int, y: int, t: Seq<char>, fg: Paint, bg: Paint) -> Seq<DrawOp> {
    Seq::new(t.len(), |i: int| op(x0 + i, y, t[i], fg, bg))
}

/// Rows `y0`..`y0 + h` filled with a character over columns `x0`..`x0 + w`,
/// row by row
pub open spec fn rect_fill(x0: int, y0: int, w: int, h: int, ch: char, fg: Paint, bg: Paint) -> Seq<DrawOp>
    decreases h,
{
    if h <= 0 {
        Seq::empty()
    } else {
        rect_fill(x0, y0, w, h - 1, ch, fg, bg) + hrun(x0, y0 + h - 1, w, ch, fg, bg)
    }
}

/// Appends `n` copies of a character along a row
pub fn push_hrun(ops: &mut Vec<DrawOp>, x0: u16, y: u16, n: u16, ch: char, fg: Paint, bg: Paint)
    requires
        n == 0 || x0 + n - 1 <= u16::MAX,
    ensures
        final(ops)@ == old(ops)@ + hrun(x0 as int, y as int, n as int, ch, fg, bg),
{
    let ghost start = ops@;
    let mut i: u16 = 0;
    while i < n
        invariant
            i <= n,
            n == 0 || x0 + n - 1 <= u16::MAX,
            ops@ == start + hrun(x0 as int, y as int, i as int, ch, fg, bg),
        decreases n - i,
    {
        ops.push(DrawOp { x: x0 + i, y, ch, fg, bg, raw: false });
        assert(hrun(x0 as int, y as int, i + 1, ch, fg, bg) =~= hrun(x0 as int, y as int, i as int, ch, fg, bg).push(
            op(x0 + i, y as int, ch, fg, bg),
        ));
        i = i + 1;
    }
}

/// Appends a text along a row
pub fn push_text(ops: &mut Vec<DrawOp>, x0: u16, y: u16, t: &Vec<char>, fg: Paint, bg: Paint)
    requires
        t@.len() == 0 || x0 + t@.len() - 1 <= u16::MAX,
    ensures
        final(ops)@ == old(ops)@ + text_run(x0 as int, y as int, t@, fg, bg),
{
    let ghost start = ops@;
    let mut i: usize = 0;
    while i < t.len()
        invariant
            i <= t@.len(),
            t@.len() == 0 || x0 + t@.len() - 1 <= u16::MAX,
            ops@ == start + text_run(x0 as int, y as int, t@.take(i as int), fg, bg),
        decreases t@.len() - i,
    {
        ops.push(DrawOp { x: x0 + i as u16, y, ch: t[i], fg, bg, raw: false });
        assert(text_run(x0 as int, y as int, t@.take(i + 1), fg, bg) =~= text_run(
            x0 as int,
            y as int,
            t@.take(i as int),
            fg,
            bg,
        ).push(op(x0 + i, y as int, t@[i as int], fg, bg)));
        i = i + 1;
    }
    assert(t@.take(t@.len() as int) =~= t@);
}

/// Appends a rectangle filled with a character, row by row
pub fn push_rect_fill(ops: &mut Vec<DrawOp>, x0: u16, y0: u16, w: u16, h: u16, ch: char, fg: Paint, bg: Paint)
    requires
        w == 0 || x0 + w - 1 <= u16::MAX,
        h == 0 || y0 + h - 1 <= u16::MAX,
    ensures
        final(ops)@ == old(ops)@ + rect_fill(x0 as int, y0 as int, w as int, h as int, ch, fg, bg),
{
    let ghost start = ops@;
    let mut r: u16 = 0;
    while r < h
        invariant
            r <= h,
            w == 0 || x0 + w - 1 <= u16::MAX,
            h == 0 || y0 + h - 1 <= u16::MAX,
            ops@ == start + rect_fill(x0 as int, y0 as int, w as int, r as int, ch, fg, bg),
        decreases h - r,
    {
        let ghost before = ops@;
        push_hrun(ops, x0, y0 + r, w, ch, fg, bg);
        assert(ops@ =~= start + rect_fill(x0 as int, y0 as int, w as int, r + 1, ch, fg, bg));
        r = r + 1;
    }
}


/// Appends one cell
pub fn push_op(ops: &mut Vec<DrawOp>, x: u16, y: u16, ch: char, fg: Paint, bg: Paint)
    ensures
        final(ops)@ == old(ops)@ + seq![op(x as int, y as int, ch, fg, bg)],
{
    ops.push(DrawOp { x, y, ch, fg, bg, raw: false });
    assert(final(ops)@ =~= old(ops)@ + seq![op(x as int, y as int, ch, fg, bg)]);
}

/// Whether two string slices hold the same characters
pub fn str_eq(a: &str, b: &str) -> (r: bool)
    ensures
        r == (a@ == b@),
{
    let va = crate::text::chars_of(a);
    let vb = crate::text::chars_of(b);
    if va.len() != vb.len() {
        return false;
    }
    let mut i: usize = 0;
    while i < va.len()
        invariant
            va@ == a@,
            vb@ == b@,
            va@.len() == vb@.len(),
            i <= va@.len(),
            forall|j: int| 0 <= j < i ==> va@[j] == vb@[j],
        decreases va@.len() - i,
    {
        if va[i] != vb[i] {
            return false;
        }
        i = i + 1;
    }
    assert(va@ =~= vb@);
    true
}


/// A text along a row, each cell written with its colors as given
pub open spec fn raw_run(x0: int, y: int, n: int, ch: char, fg: Paint, bg: Paint) -> Seq<DrawOp> {
    Seq::new(if n > 0 { n as nat } else { 0 }, |i: int| raw_op(x0 + i, y, ch, fg, bg))
}

/// Appends `n` copies of a character along a row, with colors as given
pub fn push_raw_run(ops: &mut Vec<DrawOp>, x0: u16, y: u16, n: u16, ch: char, fg: Paint, bg: Paint)
    requires
        n == 0 || x0 + n - 1 <= u16::MAX,
    ensures
        final(ops)@ == old(ops)@ + raw_run(x0 as int, y as int, n as int, ch, fg, bg),
{
    let ghost start = ops@;
    let mut i: u16 = 0;
    while i < n
        invariant
            i <= n,
            n == 0 || x0 + n - 1 <= u16::MAX,
            ops@ == start + raw_run(x0 as int, y as int, i as int, ch, fg, bg),
        decreases n - i,
    {
        ops.push(DrawOp { x: x0 + i, y, ch, fg, bg, raw: true });
        assert(raw_run(x0 as int, y as int, i + 1, ch, fg, bg) =~= raw_run(x0 as int, y as int, i as int, ch, fg, bg).push(
            raw_op(x0 + i, y as int, ch, fg, bg),
        ));
        i = i + 1;
    }
}

/// The characters of a text that come before column `limit` when it starts
/// at column `x0`
pub open spec fn before_col(t: Seq<char>, x0: int, limit: int) -> Seq<char> {
    if x0 + t.len() <= limit {
        t
    } else if x0 >= limit {
        Seq::empty()
    } else {
        t.take(limit - x0)
    }
}

/// Appends the characters of a text that come before column `limit`
pub fn push_text_before(ops: &mut Vec<DrawOp>, x0: u16, y: u16, t: &Vec<char>, limit: u16, fg: Paint, bg: Paint)
    ensures
        final(ops)@ == old(ops)@ + text_run(x0 as int, y as int, before_col(t@, x0 as int, limit as int), fg, bg),
{
    let mut shown: Vec<char> = Vec::new();
    let mut i: usize = 0;
    while i < t.len() && (x0 as usize) + i < limit as usize
        invariant
            i <= t@.len(),
            x0 + i <= limit || i == 0,
            shown@ == t@.take(i as int),
        decreases t@.len() - i,
    {
        shown.push(t[i]);
        assert(t@.take(i + 1) =~= t@.take(i as int).push(t@[i as int]));
        i = i + 1;
    }
    assert(shown@ =~= before_col(t@, x0 as int, limit as int)) by {
        if x0 + t@.len() <= limit {
            assert(t@.take(t@.len() as int) =~= t@);
        }
    }
    push_text(ops, x0, y, &shown, fg, bg);
}

} // verus!
