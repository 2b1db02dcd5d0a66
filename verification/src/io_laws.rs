//! What escape sequences, font lookups, forwarded keys, mouse packets and
//! desktop shortcuts mean, stated over all inputs.

use vstd::prelude::*;
use crate::ansi::{csi_ops, param_or};
use crate::term::GridOp;
use crate::font::{FontManager, font_wf, glyph_index};
use crate::keys::{KeyInput, TermKey, key_bytes};
use crate::mouse::ps2_event;
use crate::desktop::{DesktopAction, DesktopContext, any_matches, desktop_action, direct_action};
use crate::keybindings::{KeyBinding, KeybindingProfile, MOD_ALT, hyprland_bindings};
use crate::keyboard_mode::Direction;

verus! {

/// The signed count of a cursor move: `n` steps, forwards or backwards
pub open spec fn step_of(n: u16, forwards: bool) -> int {
    if forwards {
        n as int
    } else {
        -(n as int)
    }
}

/// A single cursor move by (`dx`, `dy`)
pub open spec fn moves_by(ops: Seq<GridOp>, dx: int, dy: int) -> bool {
    ops.len() == 1 && (ops[0] matches GridOp::MoveCursor(x, y) && x as int == dx && y as int == dy)
}

/// CSI n A moves the cursor n rows up, CSI n B n rows down, CSI n C n
/// columns right and CSI n D n columns left (n is 1 when absent); up is the
/// opposite of down and left the opposite of right, and none of them moves
/// along the other axis.
pub proof fn law_cursor_moves(ps: Seq<Vec<u16>>, cols: usize, rows: usize)
    ensures
        ({
            let n = param_or(ps, 0, 1);
            let none = Seq::<u8>::empty();
            &&& moves_by(csi_ops(ps, none, 'A', cols, rows), 0, step_of(n, false))
            &&& moves_by(csi_ops(ps, none, 'B', cols, rows), 0, step_of(n, true))
            &&& moves_by(csi_ops(ps, none, 'C', cols, rows), step_of(n, true), 0)
            &&& moves_by(csi_ops(ps, none, 'D', cols, rows), step_of(n, false), 0)
            &&& step_of(n, false) == -step_of(n, true)
        }),
{
}

/// A character beyond ASCII that the font's Unicode table maps to a glyph
/// is drawn with that glyph, whatever its own number; an ASCII character
/// the font has is drawn with the glyph of its own number; and every
/// character gets a glyph of the font.
pub proof fn law_glyph_lookup(f: FontManager, code: u32)
    requires
        font_wf(f),
        f.glyph_count > 0,
    ensures
        code >= 128 && f.unicode_map@.contains_key(code) ==> glyph_index(f, code)
            == f.unicode_map@[code] as int,
        code < 128 && code < f.glyph_count ==> glyph_index(f, code) == code as int,
        0 <= glyph_index(f, code) < f.glyph_count,
{
    if f.unicode_map@.contains_key(code) {
        assert(f.unicode_map@[code] < f.glyph_count);
    }
}

/// The arrow keys send ESC [ then A, B, C or D for up, down, right and left
/// (ESC O in application cursor-key mode), whatever modifiers are held; so
/// no two arrows send the same sequence.
pub proof fn law_arrow_keys(ctrl: bool, alt: bool, application: bool, altgr: bool)
    ensures
        ({
            let intro = if application { 'O' } else { '[' };
            &&& key_bytes(KeyInput { code: TermKey::Up, ctrl, alt }, application, altgr) == Some(seq!['\x1b', intro, 'A'])
            &&& key_bytes(KeyInput { code: TermKey::Down, ctrl, alt }, application, altgr) == Some(seq!['\x1b', intro, 'B'])
            &&& key_bytes(KeyInput { code: TermKey::Right, ctrl, alt }, application, altgr) == Some(seq!['\x1b', intro, 'C'])
            &&& key_bytes(KeyInput { code: TermKey::Left, ctrl, alt }, application, altgr) == Some(seq!['\x1b', intro, 'D'])
        }),
{
}

proof fn lemma_low_bits(b: u8)
    by (bit_vector)
    ensures
        (b & 1 != 0) == (b % 2 == 1),
        (b & 2 != 0) == ((b / 2) % 2 == 1),
        (b & 4 != 0) == ((b / 4) % 2 == 1),
{
}

/// A PS/2 packet of three or four bytes reports the left, right and middle
/// buttons as bits 0, 1 and 2 of its first byte; the other bits of that
/// byte (sync, signs, overflow) change no button, so two packets whose
/// first bytes agree in the low three bits report the same buttons.
pub proof fn law_ps2_buttons(buf: Seq<u8>, other: Seq<u8>)
    requires
        3 <= buf.len() <= 4,
        3 <= other.len() <= 4,
    ensures
        ps2_event(buf) is Some,
        ps2_event(buf)->0.buttons.left == (buf[0] % 2 == 1),
        ps2_event(buf)->0.buttons.right == ((buf[0] / 2) % 2 == 1),
        ps2_event(buf)->0.buttons.middle == ((buf[0] / 4) % 2 == 1),
        buf[0] % 8 == other[0] % 8 ==> ps2_event(buf)->0.buttons == ps2_event(other)->0.buttons,
{
    lemma_low_bits(buf[0]);
    lemma_low_bits(other[0]);
    assert((buf[0] / 2) % 2 == ((buf[0] % 8) / 2) % 2);
    assert((buf[0] / 4) % 2 == ((buf[0] % 8) / 4) % 2);
    assert((other[0] / 2) % 2 == ((other[0] % 8) / 2) % 2);
    assert((other[0] / 4) % 2 == ((other[0] % 8) / 4) % 2);
}

/// The direct focus bindings of a profile for a direction
pub open spec fn focus_bindings(p: KeybindingProfile, d: Direction) -> Seq<KeyBinding> {
    match d {
        Direction::Left => p.direct_focus_left@,
        Direction::Down => p.direct_focus_down@,
        Direction::Up => p.direct_focus_up@,
        Direction::Right => p.direct_focus_right@,
    }
}

/// A direct shortcut moves the focus in a direction only for a key bound to
/// focusing in that direction.
pub proof fn law_direct_focus_follows_binding(
    p: KeybindingProfile,
    code: TermKey,
    mods: u8,
    ctx: DesktopContext,
    d: Direction,
)
    requires
        direct_action(p, code, mods, ctx) == Some(DesktopAction::FocusDirection(d)),
    ensures
        any_matches(focus_bindings(p, d), code, mods),
{
}

/// In the hyprland profile, Alt with h, j, k or l moves the focus left,
/// down, up or right, from any window or the desktop and whatever other
/// modifiers are held.
pub proof fn law_hyprland_focus_keys(p: KeybindingProfile, macos: bool, mods: u8, ctx: DesktopContext)
    requires
        hyprland_bindings(p, macos),
        mods & MOD_ALT == MOD_ALT,
    ensures
        desktop_action(p, TermKey::Char('h'), mods, ctx) == DesktopAction::FocusDirection(Direction::Left),
        desktop_action(p, TermKey::Char('j'), mods, ctx) == DesktopAction::FocusDirection(Direction::Down),
        desktop_action(p, TermKey::Char('k'), mods, ctx) == DesktopAction::FocusDirection(Direction::Up),
        desktop_action(p, TermKey::Char('l'), mods, ctx) == DesktopAction::FocusDirection(Direction::Right),
{
    assert(p.direct_focus_left@[0] == KeyBinding { code: TermKey::Char('h'), modifiers: MOD_ALT });
    assert(p.direct_focus_down@[0] == KeyBinding { code: TermKey::Char('j'), modifiers: MOD_ALT });
    assert(p.direct_focus_up@[0] == KeyBinding { code: TermKey::Char('k'), modifiers: MOD_ALT });
    assert(p.direct_focus_right@[0] == KeyBinding { code: TermKey::Char('l'), modifiers: MOD_ALT });
    assert(p.direct_close_window@.len() > 0);
}

/// CSI n E moves the cursor n rows down and CSI n F n rows up, each to
/// the first column.
pub proof fn law_line_moves(ps: Seq<Vec<u16>>, cols: usize, rows: usize)
    ensures
        ({
            let n = param_or(ps, 0, 1);
            let none = Seq::<u8>::empty();
            let e = csi_ops(ps, none, 'E', cols, rows);
            let f = csi_ops(ps, none, 'F', cols, rows);
            &&& e.len() == 2 && moves_by(e.take(1), 0, step_of(n, true)) && e[1] == GridOp::SetCursorX(0)
            &&& f.len() == 2 && moves_by(f.take(1), 0, step_of(n, false)) && f[1] == GridOp::SetCursorX(0)
        }),
{
}

/// The value of a byte read as a two's-complement signed number
pub open spec fn twos(b: u8) -> int {
    if b < 128 {
        b as int
    } else {
        b - 256
    }
}

/// A PS/2 packet reports its second and third bytes as the signed movement
/// along x and y, and a fourth byte as the wheel step with its sign turned
/// (positive away from the user); a three-byte packet has no wheel step.
pub proof fn law_ps2_motion(buf: Seq<u8>)
    requires
        3 <= buf.len() <= 4,
        buf.len() == 4 ==> buf[3] != 128,
    ensures
        ps2_event(buf)->0.dx as int == twos(buf[1]),
        ps2_event(buf)->0.dy as int == twos(buf[2]),
        ps2_event(buf)->0.scroll as int == if buf.len() == 4 { -twos(buf[3]) } else { 0 },
        ps2_event(buf)->0.scroll_h == 0,
{
}

/// Home and End send ESC [ H and ESC [ F (ESC O H and ESC O F in
/// application cursor-key mode); Page Up, Page Down, Delete and Insert send
/// ESC [ 5 ~, ESC [ 6 ~, ESC [ 3 ~ and ESC [ 2 ~; Enter sends a carriage
/// return and Backspace DEL; Escape sends nothing.
pub proof fn law_editing_keys(ctrl: bool, alt: bool, application: bool, altgr: bool)
    ensures
        ({
            let intro = if application { 'O' } else { '[' };
            let k = |c: TermKey| KeyInput { code: c, ctrl, alt };
            &&& key_bytes(k(TermKey::Home), application, altgr) == Some(seq!['\x1b', intro, 'H'])
            &&& key_bytes(k(TermKey::End), application, altgr) == Some(seq!['\x1b', intro, 'F'])
            &&& key_bytes(k(TermKey::PageUp), application, altgr) == Some(seq!['\x1b', '[', '5', '~'])
            &&& key_bytes(k(TermKey::PageDown), application, altgr) == Some(seq!['\x1b', '[', '6', '~'])
            &&& key_bytes(k(TermKey::Delete), application, altgr) == Some(seq!['\x1b', '[', '3', '~'])
            &&& key_bytes(k(TermKey::Insert), application, altgr) == Some(seq!['\x1b', '[', '2', '~'])
            &&& key_bytes(k(TermKey::Enter), application, altgr) == Some(seq!['\r'])
            &&& key_bytes(k(TermKey::Backspace), application, altgr) == Some(seq!['\x7f'])
            &&& key_bytes(k(TermKey::Esc), application, altgr) is None
        }),
{
}

/// CSI row ; col H (and f) moves the cursor to the given row and column,
/// counted from 1 (an absent or zero one counts as 1): the grid, counted
/// from 0, gets column col - 1 and row row - 1.
pub proof fn law_cursor_position(ps: Seq<Vec<u16>>, cols: usize, rows: usize)
    ensures
        ({
            let row = param_or(ps, 0, 1) as int;
            let col = param_or(ps, 1, 1) as int;
            let none = Seq::<u8>::empty();
            &&& csi_ops(ps, none, 'H', cols, rows).len() == 1
            &&& csi_ops(ps, none, 'H', cols, rows)[0] matches GridOp::Goto(x, y)
                && x as int == (if col >= 1 { col - 1 } else { 0 })
                && y as int == (if row >= 1 { row - 1 } else { 0 })
            &&& csi_ops(ps, none, 'f', cols, rows) == csi_ops(ps, none, 'H', cols, rows)
        }),
{
}

} // verus!
