//! Right-click context menus: item lists, keyboard and mouse selection.

use vstd::prelude::*;
use vstd::utf8::encode_utf8;
use crate::charset::Charset;
use crate::color::UiColor;
use crate::draw::{DrawOp, Paint, ThemeColor, op, hrun, text_run, push_hrun, push_text};
use crate::text::chars_of;

verus! {

/// What choosing a menu entry does
#[derive(Debug, Clone, Copy, PartialEq, Eq, Structural)]
pub enum MenuAction {
    Copy,
    Paste,
    SelectAll,
    Close,
    Restore,
    Maximize,
    CloseWindow,
}

/// One entry of a menu, or a separator line
#[derive(Debug, Clone)]
pub struct MenuItem {
    pub label: String,
    pub shortcut: Option<char>,
    pub action: Option<MenuAction>,
    pub is_separator: bool,
}

impl MenuItem {
    /// An entry with a label, an optional shortcut and an action
    pub fn new(label: &str, shortcut: Option<char>, action: MenuAction) -> (item: Self)
        ensures
            item.label@ == label@,
            item.shortcut == shortcut,
            item.action == Some(action),
            !item.is_separator,
    {
        MenuItem { label: label.to_owned(), shortcut, action: Some(action), is_separator: false }
    }

    /// A separator line: no label, no action
    pub fn separator() -> (item: Self)
        ensures
            item.label@ == Seq::<char>::empty(),
            item.shortcut.is_none(),
            item.action.is_none(),
            item.is_separator,
    {
        MenuItem { label: String::new(), shortcut: None, action: None, is_separator: true }
    }
}

/// A context menu: position, entries, highlighted entry and visibility
pub struct ContextMenu {
    pub x: u16,
    pub y: u16,
    pub items: Vec<MenuItem>,
    pub selected_index: usize,
    pub visible: bool,
}

/// Byte length of an entry's label, as `str::len` reports it
pub open spec fn label_bytes(item: MenuItem) -> nat {
    (encode_utf8(item.label@).len() as usize) as nat
}

/// Longest label of the entries, in bytes (0 for no entries)
pub open spec fn max_label_len(items: Seq<MenuItem>) -> nat
    decreases items.len(),
{
    if items.len() == 0 {
        0
    } else {
        let m = max_label_len(items.drop_last());
        let l = label_bytes(items.last());
        if l > m {
            l
        } else {
            m
        }
    }
}

/// Menu width in cells: borders, padding and shortcut column around the
/// longest label, kept to 16 bits
pub open spec fn menu_width(items: Seq<MenuItem>) -> int {
    (max_label_len(items) + 8) as int % 0x10000
}

/// Menu height in cells: one row per entry and two border rows
pub open spec fn menu_height(items: Seq<MenuItem>) -> int {
    (items.len() as u16) + 2
}

/// From entry `i` backwards, the first entry that is no separator, or 0
pub open spec fn prev_target(items: Seq<MenuItem>, i: int) -> int
    decreases i,
{
    if i <= 0 {
        0
    } else if !items[i].is_separator {
        i
    } else {
        prev_target(items, i - 1)
    }
}

/// From entry `i` onwards, the first entry that is no separator, or the last
pub open spec fn next_target(items: Seq<MenuItem>, i: int) -> int
    decreases items.len() - i,
{
    if i >= items.len() - 1 {
        i
    } else if !items[i].is_separator {
        i
    } else {
        next_target(items, i + 1)
    }
}

/// A menu that differs from `old` at most in the highlighted entry
pub open spec fn same_menu(m: ContextMenu, old: ContextMenu) -> bool {
    &&& m.x == old.x
    &&& m.y == old.y
    &&& m.items@ == old.items@
    &&& m.visible == old.visible
}

fn labelled_items(a: &str, b: &str, c: &str, x: MenuAction, y: MenuAction, z: MenuAction) -> (v:
    Vec<MenuItem>)
    ensures
        v@.len() == 3,
        v@[0].label@ == a@ && v@[0].action == Some(x) && !v@[0].is_separator,
        v@[1].label@ == b@ && v@[1].action == Some(y) && !v@[1].is_separator,
        v@[2].label@ == c@ && v@[2].action == Some(z) && !v@[2].is_separator,
        forall|k: int| 0 <= k < 3 ==> (#[trigger] v@[k]).shortcut.is_none(),
{
    let mut v: Vec<MenuItem> = Vec::new();
    v.push(MenuItem::new(a, None, x));
    v.push(MenuItem::new(b, None, y));
    v.push(MenuItem::new(c, None, z));
    v
}

impl ContextMenu {
    /// The terminal's menu (Copy, Paste, Select All) at a position, hidden
    pub fn new(x: u16, y: u16) -> (m: Self)
        ensures
            m.x == x && m.y == y,
            m.selected_index == 0,
            !m.visible,
            m.items@.len() == 3,
            m.items@[0].label@ == "Copy"@ && m.items@[0].action == Some(MenuAction::Copy),
            m.items@[1].label@ == "Paste"@ && m.items@[1].action == Some(MenuAction::Paste),
            m.items@[2].label@ == "Select All"@ && m.items@[2].action == Some(
                MenuAction::SelectAll,
            ),
            forall|k: int|
                0 <= k < 3 ==> !(#[trigger] m.items@[k]).is_separator
                    && m.items@[k].shortcut.is_none(),
    {
        let items = labelled_items(
            "Copy",
            "Paste",
            "Select All",
            MenuAction::Copy,
            MenuAction::Paste,
            MenuAction::SelectAll,
        );
        ContextMenu { x, y, items, selected_index: 0, visible: false }
    }

    /// The taskbar button menu (Restore, Maximize, Close) at a position, hidden
    pub fn new_taskbar_menu(x: u16, y: u16) -> (m: Self)
        ensures
            m.x == x && m.y == y,
            m.selected_index == 0,
            !m.visible,
            m.items@.len() == 3,
            m.items@[0].label@ == "Restore"@ && m.items@[0].action == Some(MenuAction::Restore),
            m.items@[1].label@ == "Maximize"@ && m.items@[1].action == Some(
                MenuAction::Maximize,
            ),
            m.items@[2].label@ == "Close"@ && m.items@[2].action == Some(
                MenuAction::CloseWindow,
            ),
            forall|k: int|
                0 <= k < 3 ==> !(#[trigger] m.items@[k]).is_separator
                    && m.items@[k].shortcut.is_none(),
    {
        let items = labelled_items(
            "Restore",
            "Maximize",
            "Close",
            MenuAction::Restore,
            MenuAction::Maximize,
            MenuAction::CloseWindow,
        );
        ContextMenu { x, y, items, selected_index: 0, visible: false }
    }

    /// Shows the menu at a new position with the first entry highlighted
    pub fn show(&mut self, x: u16, y: u16)
        ensures
            final(self).x == x && final(self).y == y,
            final(self).visible,
            final(self).selected_index == 0,
            final(self).items@ == old(self).items@,
    {
        self.x = x;
        self.y = y;
        self.visible = true;
        self.selected_index = 0;
    }

    /// Hides the menu
    pub fn hide_menu(&mut self)
        ensures
            !final(self).visible,
            final(self).x == old(self).x && final(self).y == old(self).y,
            final(self).items@ == old(self).items@,
            final(self).selected_index == old(self).selected_index,
    {
        self.visible = false;
    }

    /// Moves the highlight up, over separators, never above the first entry
    pub fn select_previous(&mut self)
        requires
            old(self).selected_index <= old(self).items@.len() || old(self).selected_index <= 1,
        ensures
            same_menu(*final(self), *old(self)),
            final(self).selected_index == (if old(self).selected_index > 0 {
                prev_target(old(self).items@, old(self).selected_index - 1)
            } else {
                0
            }),
    {
        if self.selected_index > 0 {
            self.selected_index = self.selected_index - 1;
            while self.selected_index > 0 && self.items[self.selected_index].is_separator
                invariant
                    same_menu(*self, *old(self)),
                    self.selected_index < self.items@.len() || self.selected_index == 0,
                    prev_target(self.items@, self.selected_index as int) == prev_target(
                        old(self).items@,
                        old(self).selected_index - 1,
                    ),
                decreases self.selected_index,
            {
                self.selected_index = self.selected_index - 1;
            }
        }
    }

    /// Moves the highlight down, over separators, never below the last entry
    pub fn select_next(&mut self)
        requires
            old(self).items@.len() >= 1,
        ensures
            same_menu(*final(self), *old(self)),
            final(self).selected_index == (if old(self).selected_index < old(self).items@.len()
                - 1 {
                next_target(old(self).items@, old(self).selected_index + 1)
            } else {
                old(self).selected_index as int
            }),
    {
        if self.selected_index < self.items.len() - 1 {
            self.selected_index = self.selected_index + 1;
            while self.selected_index < self.items.len() - 1
                && self.items[self.selected_index].is_separator
                invariant
                    same_menu(*self, *old(self)),
                    self.items@.len() >= 1,
                    self.selected_index <= self.items@.len() - 1,
                    next_target(self.items@, self.selected_index as int) == next_target(
                        old(self).items@,
                        old(self).selected_index + 1,
                    ),
                decreases self.items@.len() - self.selected_index,
            {
                self.selected_index = self.selected_index + 1;
            }
        }
    }

    /// The action of the highlighted entry, if it has one
    pub fn get_selected_action(&self) -> (a: Option<MenuAction>)
        ensures
            a == (if self.selected_index < self.items@.len() {
                self.items@[self.selected_index as int].action
            } else {
                None
            }),
    {
        if self.selected_index < self.items.len() {
            self.items[self.selected_index].action
        } else {
            None
        }
    }

    /// Whether a visible menu covers the given cell
    pub fn contains_point(&self, x: u16, y: u16) -> (r: bool)
        requires
            self.visible ==> self.x + menu_width(self.items@) <= u16::MAX,
            self.visible ==> self.y + menu_height(self.items@) <= u16::MAX,
        ensures
            r == (self.visible && self.x <= x < self.x + menu_width(self.items@) && self.y <= y
                < self.y + menu_height(self.items@)),
    {
        if !self.visible {
            return false;
        }
        let width = self.calculate_width();
        let height = self.items.len() as u16 + 2;
        x >= self.x && x < self.x + width && y >= self.y && y < self.y + height
    }

    /// Highlights the entry under the mouse; true when the highlight moved.
    /// Borders, separators and cells outside the menu change nothing.
    pub fn update_selection_from_mouse(&mut self, x: u16, y: u16) -> (changed: bool)
        requires
            old(self).visible ==> old(self).x + menu_width(old(self).items@) <= u16::MAX,
            old(self).visible && old(self).x < x ==> old(self).x + menu_width(old(self).items@)
                >= 1,
            old(self).visible && old(self).x < x ==> old(self).y + (old(self).items@.len() as u16)
                <= u16::MAX,
        ensures
            same_menu(*final(self), *old(self)),
            ({
                let m = *old(self);
                let row = y - m.y - 1;
                let hit = m.visible && m.x < x && x < m.x + menu_width(m.items@) - 1 && m.y < y
                    && y <= m.y + (m.items@.len() as u16) && row < m.items@.len()
                    && !m.items@[row].is_separator;
                &&& changed == (hit && m.selected_index != row)
                &&& final(self).selected_index == (if hit {
                    row
                } else {
                    m.selected_index as int
                })
            }),
    {
        if !self.visible {
            return false;
        }
        let width = self.calculate_width();
        if x <= self.x || x >= self.x + width - 1 {
            return false;
        }
        if y <= self.y || y > self.y + self.items.len() as u16 {
            return false;
        }
        let item_index = (y - self.y - 1) as usize;
        if item_index < self.items.len() && !self.items[item_index].is_separator {
            if self.selected_index != item_index {
                self.selected_index = item_index;
                return true;
            }
        }
        false
    }

    /// Menu width in cells, from the longest label
    fn calculate_width(&self) -> (w: u16)
        ensures
            w == menu_width(self.items@),
    {
        let mut max: usize = 0;
        let mut i: usize = 0;
        while i < self.items.len()
            invariant
                i <= self.items@.len(),
                max == max_label_len(self.items@.take(i as int)),
            decreases self.items@.len() - i,
        {
            let label = self.items[i].label.as_str();
            let l = label.len();
            assert(label@ == self.items@[i as int].label@);
            proof {
                let t = self.items@.take(i + 1);
                assert(t.drop_last() =~= self.items@.take(i as int));
                assert(t.last() == self.items@[i as int]);
            }
            if l > max {
                max = l;
            }
            i = i + 1;
        }
        assert(self.items@.take(self.items@.len() as int) =~= self.items@);
        let m16 = (max % 0x10000) as u16;
        m16.wrapping_add(8)
    }
}


/// The cells of entry `i` of a menu `w` cells wide: borders, and either a
/// separator line or the padded label (highlighted when selected) with its
/// shortcut in the column before the right border
pub open spec fn menu_item_ops(m: ContextMenu, i: int, w: int, cs: Charset) -> Seq<DrawOp> {
    let item = m.items@[i];
    let x = m.x as int;
    let row = m.y + 1 + i;
    let border = Paint::Role(ThemeColor::MenuBorder);
    let bgc = Paint::Role(ThemeColor::MenuBg);
    let left = seq![op(x, row, cs.border_vertical, border, bgc)];
    let right = seq![op(x + w - 1, row, cs.border_vertical, border, bgc)];
    if item.is_separator {
        left + hrun(x + 1, row, w - 2, cs.border_horizontal, border, bgc) + right
    } else {
        let sel = i == m.selected_index;
        let f = if sel {
            Paint::Role(ThemeColor::MenuSelectedFg)
        } else {
            Paint::Role(ThemeColor::MenuFg)
        };
        let b = if sel {
            Paint::Role(ThemeColor::MenuSelectedBg)
        } else {
            Paint::Role(ThemeColor::MenuBg)
        };
        let label = item.label@;
        let d0 = 2 + label.len() as int;
        let d1 = if d0 < w - 3 {
            w - 3
        } else {
            d0
        };
        let sc = match item.shortcut {
            Some(c) => seq![op(x + d1, row, c, f, b)],
            None => Seq::empty(),
        };
        let d2 = if item.shortcut is Some {
            d1 + 1
        } else {
            d1
        };
        left + seq![op(x + 1, row, ' ', f, b)] + text_run(x + 2, row, label, f, b) + hrun(
            x + d0,
            row,
            w - 3 - d0,
            ' ',
            f,
            b,
        ) + sc + hrun(x + d2, row, w - 1 - d2, ' ', f, b) + right
    }
}

/// Entries `0..k` of a menu
pub open spec fn menu_items_ops(m: ContextMenu, w: int, cs: Charset, k: int) -> Seq<DrawOp>
    decreases k,
{
    if k <= 0 {
        Seq::empty()
    } else {
        menu_items_ops(m, w, cs, k - 1) + menu_item_ops(m, k - 1, w, cs)
    }
}

/// The drop shadow of a menu: the column right of it and the row below it
pub open spec fn menu_shadow_ops(x: int, y: int, w: int, h: int, ch: char) -> Seq<DrawOp> {
    let f = Paint::Role(ThemeColor::MenuShadowFg);
    let b = Paint::Fixed(UiColor::Black);
    Seq::new(if h > 0 { h as nat } else { 0 }, |k: int| op(x + w, y + 1 + k, ch, f, b)) + Seq::new(
        if w >= 2 { (w - 1) as nat } else { 0 },
        |k: int| op(x + 2 + k, y + h, ch, f, b),
    )
}

/// The cells of a visible menu, in drawing order (nothing when hidden)
pub open spec fn menu_ops(m: ContextMenu, cs: Charset) -> Seq<DrawOp> {
    if !m.visible {
        Seq::empty()
    } else {
        let w = menu_width(m.items@);
        let h = menu_height(m.items@);
        let x = m.x as int;
        let y = m.y as int;
        let border = Paint::Role(ThemeColor::MenuBorder);
        let bgc = Paint::Role(ThemeColor::MenuBg);
        seq![op(x, y, cs.border_top_left, border, bgc)] + hrun(x + 1, y, w - 2, cs.border_horizontal, border, bgc)
            + seq![op(x + w - 1, y, cs.border_top_right, border, bgc)] + menu_items_ops(
            m,
            w,
            cs,
            m.items@.len() as int,
        ) + seq![op(x, y + h - 1, cs.border_bottom_left, border, bgc)] + hrun(
            x + 1,
            y + h - 1,
            w - 2,
            cs.border_horizontal,
            border,
            bgc,
        ) + seq![op(x + w - 1, y + h - 1, cs.border_bottom_right, border, bgc)] + menu_shadow_ops(
            x,
            y,
            w,
            h,
            cs.shadow,
        )
    }
}

/// A visible menu's cells all lie within 16-bit coordinates
pub open spec fn menu_render_fits(m: ContextMenu) -> bool {
    m.visible ==> {
        &&& menu_width(m.items@) >= 3
        &&& m.x + menu_width(m.items@) <= u16::MAX
        &&& m.items@.len() + 2 <= u16::MAX
        &&& m.y + menu_height(m.items@) <= u16::MAX
        &&& forall|i: int| 0 <= i < m.items@.len() ==> m.x + 4 + (#[trigger] m.items@[i]).label@.len()
            <= u16::MAX
    }
}

impl ContextMenu {
    /// Appends the cells of entry `i`
    fn render_item(&self, ops: &mut Vec<DrawOp>, i: usize, width: u16, charset: &Charset)
        requires
            self.visible,
            menu_render_fits(*self),
            width == menu_width(self.items@),
            i < self.items@.len(),
        ensures
            final(ops)@ == old(ops)@ + menu_item_ops(*self, i as int, width as int, *charset),
    {
        let item = &self.items[i];
        let border = Paint::Role(ThemeColor::MenuBorder);
        let bgc = Paint::Role(ThemeColor::MenuBg);
        proof {
            assert((self.items@.len() as u16) as int == self.items@.len());
        }
        let row = self.y + 1 + i as u16;
        ops.push(DrawOp { x: self.x, y: row, ch: charset.border_vertical, fg: border, bg: bgc, raw: false });
        if item.is_separator {
            push_hrun(ops, self.x + 1, row, width - 2, charset.border_horizontal, border, bgc);
        } else {
            let selected = i == self.selected_index;
            let f = if selected {
                Paint::Role(ThemeColor::MenuSelectedFg)
            } else {
                Paint::Role(ThemeColor::MenuFg)
            };
            let b = if selected {
                Paint::Role(ThemeColor::MenuSelectedBg)
            } else {
                Paint::Role(ThemeColor::MenuBg)
            };
            ops.push(DrawOp { x: self.x + 1, y: row, ch: ' ', fg: f, bg: b, raw: false });
            let label = chars_of(item.label.as_str());
            push_text(ops, self.x + 2, row, &label, f, b);
            let d0 = 2 + label.len() as u16;
            let d1 = if d0 < width - 3 {
                push_hrun(ops, self.x + d0, row, width - 3 - d0, ' ', f, b);
                width - 3
            } else {
                d0
            };
            let d2 = match item.shortcut {
                Some(c) => {
                    ops.push(DrawOp { x: self.x + d1, y: row, ch: c, fg: f, bg: b, raw: false });
                    d1 + 1
                },
                None => d1,
            };
            if d2 < width - 1 {
                push_hrun(ops, self.x + d2, row, width - 1 - d2, ' ', f, b);
            }
        }
        ops.push(DrawOp { x: self.x + width - 1, y: row, ch: charset.border_vertical, fg: border, bg: bgc, raw: false });
    }

    /// The cells the menu draws, in drawing order (nothing when hidden)
    pub fn render(&self, charset: &Charset) -> (ops: Vec<DrawOp>)
        requires
            menu_render_fits(*self),
        ensures
            ops@ == menu_ops(*self, *charset),
    {
        let mut ops: Vec<DrawOp> = Vec::new();
        if !self.visible {
            return ops;
        }
        let width = self.calculate_width();
        let height = self.items.len() as u16 + 2;
        let border = Paint::Role(ThemeColor::MenuBorder);
        let bgc = Paint::Role(ThemeColor::MenuBg);
        ops.push(DrawOp { x: self.x, y: self.y, ch: charset.border_top_left, fg: border, bg: bgc, raw: false });
        push_hrun(&mut ops, self.x + 1, self.y, width - 2, charset.border_horizontal, border, bgc);
        ops.push(DrawOp { x: self.x + width - 1, y: self.y, ch: charset.border_top_right, fg: border, bg: bgc, raw: false });
        let ghost top = ops@;
        let mut i: usize = 0;
        while i < self.items.len()
            invariant
                self.visible,
                menu_render_fits(*self),
                width == menu_width(self.items@),
                i <= self.items@.len(),
                ops@ == top + menu_items_ops(*self, width as int, *charset, i as int),
            decreases self.items@.len() - i,
        {
            self.render_item(&mut ops, i, width, charset);
            i = i + 1;
        }
        let bottom_y = self.y + height - 1;
        ops.push(DrawOp { x: self.x, y: bottom_y, ch: charset.border_bottom_left, fg: border, bg: bgc, raw: false });
        push_hrun(&mut ops, self.x + 1, bottom_y, width - 2, charset.border_horizontal, border, bgc);
        ops.push(DrawOp { x: self.x + width - 1, y: bottom_y, ch: charset.border_bottom_right, fg: border, bg: bgc, raw: false });
        self.render_shadow(&mut ops, width, height, charset);
        ops
    }

    /// Appends the drop shadow
    fn render_shadow(&self, ops: &mut Vec<DrawOp>, width: u16, height: u16, charset: &Charset)
        requires
            self.x + width <= u16::MAX,
            self.y + height <= u16::MAX,
        ensures
            final(ops)@ == old(ops)@ + menu_shadow_ops(
                self.x as int,
                self.y as int,
                width as int,
                height as int,
                charset.shadow,
            ),
    {
        let f = Paint::Role(ThemeColor::MenuShadowFg);
        let b = Paint::Fixed(UiColor::Black);
        let ghost start = ops@;
        let mut dy: u32 = 1;
        while dy <= height as u32
            invariant
                self.x + width <= u16::MAX,
                self.y + height <= u16::MAX,
                1 <= dy <= height + 1,
                ops@ == start + Seq::new((dy - 1) as nat, |k: int| op(self.x + width, self.y + 1 + k, charset.shadow, f, b)),
            decreases height + 1 - dy,
        {
            ops.push(DrawOp { x: self.x + width, y: self.y + dy as u16, ch: charset.shadow, fg: f, bg: b, raw: false });
            assert(ops@ =~= start + Seq::new(dy as nat, |k: int| op(self.x + width, self.y + 1 + k, charset.shadow, f, b)));
            dy = dy + 1;
        }
        assert(dy == height + 1);
        let ghost first = Seq::new(height as nat, |k: int| op(self.x + width, self.y + 1 + k, charset.shadow, f, b));
        assert(ops@ =~= start + first);
        let ghost mid = ops@;
        let mut dx: u32 = 2;
        while dx <= width as u32
            invariant
                self.x + width <= u16::MAX,
                self.y + height <= u16::MAX,
                2 <= dx <= width + 2,
                dx <= width + 1 || dx == 2,
                ops@ == mid + Seq::new((dx - 2) as nat, |k: int| op(self.x + 2 + k, self.y + height, charset.shadow, f, b)),
            decreases width + 2 - dx,
        {
            ops.push(DrawOp { x: self.x + dx as u16, y: self.y + height, ch: charset.shadow, fg: f, bg: b, raw: false });
            assert(ops@ =~= mid + Seq::new((dx - 1) as nat, |k: int| op(self.x + 2 + k, self.y + height, charset.shadow, f, b)));
            dx = dx + 1;
        }
        let ghost second = Seq::new(if width >= 2 { (width - 1) as nat } else { 0 }, |k: int| op(self.x + 2 + k, self.y + height, charset.shadow, f, b));
        assert(ops@ =~= mid + second);
        assert(menu_shadow_ops(self.x as int, self.y as int, width as int, height as int, charset.shadow) =~= first + second);
        assert(ops@ =~= start + menu_shadow_ops(self.x as int, self.y as int, width as int, height as int, charset.shadow));
    }
}

} // verus!
