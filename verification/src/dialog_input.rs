//! Keyboard and mouse input while a modal element has the input: the
//! error dialog, the context menu, and the lock screen.

use vstd::prelude::*;
use crate::keys::TermKey;
use crate::selection::{MouseBtn, MouseKind};
use crate::charset::Charset;
use crate::config::{AppConfig, same_settings_but};
use crate::desktop::FocusState;
use crate::pin_setup::{
    PinSetupDialog, PinSetupState, PinSetupFocus, DialogKey, setup_wf, advanced, button_row, on_confirm,
    on_cancel, dialog_left, dialog_top,
};
use crate::error_dialog::ErrorDialog;
use crate::context_menu::{ContextMenu, MenuAction, menu_width, menu_height};
use crate::lockscreen::{
    LockScreen, InputFocus, typed, backspaced, cursor_ok, focused_text, locked_out_at, same_setup,
};

verus! {

/// Keys for an open error dialog: Enter and ESC dismiss it, every key is
/// consumed; false when no dialog is open
pub fn handle_error_dialog_keyboard(dialog: &mut Option<ErrorDialog>, code: TermKey) -> (handled: bool)
    ensures
        handled == old(dialog).is_some(),
        old(dialog).is_some() && (code == TermKey::Enter || code == TermKey::Esc) ==> final(dialog).is_none(),
        !(old(dialog).is_some() && (code == TermKey::Enter || code == TermKey::Esc)) ==> *final(dialog) == *old(dialog),
{
    if dialog.is_some() {
        match code {
            TermKey::Enter | TermKey::Esc => {
                *dialog = None;
            },
            _ => {},
        }
        return true;
    }
    false
}

/// A left press on the OK button of an open error dialog dismisses it
pub fn handle_error_dialog_mouse(
    dialog: &mut Option<ErrorDialog>,
    kind: MouseKind,
    column: u16,
    row: u16,
) -> (handled: bool)
    requires
        old(dialog).is_some() ==> old(dialog)->0.button_x + old(dialog)->0.button_width <= u16::MAX,
    ensures
        handled == (old(dialog).is_some() && kind == MouseKind::Down(MouseBtn::Left) && row
            == old(dialog)->0.button_y && old(dialog)->0.button_x <= column < old(dialog)->0.button_x
            + old(dialog)->0.button_width),
        handled ==> final(dialog).is_none(),
        !handled ==> *final(dialog) == *old(dialog),
{
    let hit = match dialog {
        Some(d) => kind == MouseKind::Down(MouseBtn::Left) && d.is_ok_button_clicked(column, row),
        None => false,
    };
    if hit {
        *dialog = None;
    }
    hit
}

/// The entry a pointer at the given cell highlights: the entry row under
/// it, unless that is a border, a separator or outside the menu
pub open spec fn hovered_index(m: ContextMenu, x: u16, y: u16) -> int {
    let row = y - m.y - 1;
    if m.visible && m.x < x && x < m.x + menu_width(m.items@) - 1 && m.y < y && y <= m.y
        + (m.items@.len() as u16) && row < m.items@.len() && !m.items@[row].is_separator {
        row
    } else {
        m.selected_index as int
    }
}

/// The menu fits on a 16-bit screen
pub open spec fn menu_fits(m: ContextMenu) -> bool {
    &&& m.x + menu_width(m.items@) <= u16::MAX
    &&& m.y + menu_height(m.items@) <= u16::MAX
    &&& menu_width(m.items@) >= 1
}

/// What mouse input does to a context menu. A left press inside a visible
/// menu picks the entry under the pointer, hides the menu and gives the
/// entry's action, handled; a left press outside hides it, not handled;
/// moving the pointer highlights the entry under it. Nothing happens while
/// the menu is hidden.
pub open spec fn menu_mouse(
    m: ContextMenu,
    after: ContextMenu,
    kind: MouseKind,
    column: u16,
    row: u16,
    r: (bool, Option<MenuAction>),
) -> bool {
    let inside = m.visible && m.x <= column < m.x + menu_width(m.items@) && m.y <= row < m.y
        + menu_height(m.items@);
    let sel = hovered_index(m, column, row);
    &&& after.x == m.x && after.y == m.y
    &&& after.items@ == m.items@
    &&& if !m.visible {
        r == (false, None::<MenuAction>) && after.visible == m.visible && after.selected_index
            == m.selected_index
    } else if kind == MouseKind::Down(MouseBtn::Left) && inside {
        &&& r.0
        &&& r.1 == (if sel < m.items@.len() {
            m.items@[sel].action
        } else {
            None
        })
        &&& !after.visible
        &&& after.selected_index == sel
    } else if kind == MouseKind::Down(MouseBtn::Left) {
        r == (false, None::<MenuAction>) && !after.visible && after.selected_index
            == m.selected_index
    } else if kind == MouseKind::Moved {
        r == (false, None::<MenuAction>) && after.visible && after.selected_index == sel
    } else {
        r == (false, None::<MenuAction>) && after.visible && after.selected_index
            == m.selected_index
    }
}

/// Mouse input for the context menu of a terminal window (see
/// `menu_mouse`): the action picked is for the focused window
pub fn handle_context_menu_mouse(
    menu: &mut ContextMenu,
    kind: MouseKind,
    column: u16,
    row: u16,
) -> (r: (bool, Option<MenuAction>))
    requires
        old(menu).visible ==> menu_fits(*old(menu)),
    ensures
        menu_mouse(*old(menu), *final(menu), kind, column, row, r),
{
    if !menu.visible {
        return (false, None);
    }
    if kind == MouseKind::Down(MouseBtn::Left) {
        if menu.contains_point(column, row) {
            menu.update_selection_from_mouse(column, row);
            let action = menu.get_selected_action();
            menu.hide_menu();
            return (true, action);
        } else {
            menu.hide_menu();
        }
    } else if kind == MouseKind::Moved {
        menu.update_selection_from_mouse(column, row);
    }
    (false, None)
}

/// Mouse input for the menu of a window's taskbar button (see
/// `menu_mouse`): the action picked is for the window the menu belongs to,
/// and the menu forgets that window when it closes
pub fn handle_taskbar_menu_mouse(
    menu: &mut ContextMenu,
    window_id: &mut Option<u32>,
    kind: MouseKind,
    column: u16,
    row: u16,
) -> (r: (bool, Option<(u32, MenuAction)>))
    requires
        old(menu).visible ==> menu_fits(*old(menu)),
    ensures
        exists|p: (bool, Option<MenuAction>)| {
            &&& #[trigger] menu_mouse(*old(menu), *final(menu), kind, column, row, p)
            &&& r.0 == p.0
            &&& r.1 == (match (p.1, *old(window_id)) {
                (Some(a), Some(w)) => Some((w, a)),
                _ => None,
            })
        },
        *final(window_id) == (if old(menu).visible && !final(menu).visible {
            None
        } else {
            *old(window_id)
        }),
{
    let was_visible = menu.visible;
    let p = handle_context_menu_mouse(menu, kind, column, row);
    let r = match (p.1, *window_id) {
        (Some(a), Some(w)) => (p.0, Some((w, a))),
        _ => (p.0, None),
    };
    if was_visible && !menu.visible {
        *window_id = None;
    }
    r
}

/// What a key did on the lock screen
#[derive(Clone, Copy, Debug, PartialEq, Eq, Structural)]
pub enum LockKeyEffect {
    /// The lock screen is not shown; the key goes elsewhere
    NotActive,
    /// The key was taken by the lock screen
    Handled,
    /// Enter: the caller attempts the login with the entered credentials
    LoginRequested,
}

/// Only the cursor may differ, and it stands at `pos`
pub open spec fn cursor_moved(a: LockScreen, b: LockScreen, pos: int) -> bool {
    &&& b.cursor_position == pos
    &&& b.username == a.username
    &&& b.password == a.password
    &&& b.focus == a.focus
    &&& b.state == a.state
    &&& same_setup(a, b)
}

/// What a key does to a shown lock screen at time `now` (every key is
/// taken): during a lockout nothing; a character is typed; backspace
/// deletes; the arrows, Home and End move the cursor; Tab switches fields;
/// Enter asks for a login; others do nothing
pub open spec fn lock_key(a: LockScreen, b: LockScreen, code: TermKey, now: u64, e: LockKeyEffect) -> bool {
    if a.state is Inactive {
        e == LockKeyEffect::NotActive && b == a
    } else if locked_out_at(a.state, now) {
        e == LockKeyEffect::Handled && b == a
    } else {
        match code {
            TermKey::Char(c) => e == LockKeyEffect::Handled && typed(a, b, c, now),
            TermKey::Backspace => e == LockKeyEffect::Handled && backspaced(a, b, now),
            TermKey::Left => e == LockKeyEffect::Handled && cursor_moved(
                a,
                b,
                if a.cursor_position > 0 {
                    a.cursor_position - 1
                } else {
                    0
                },
            ),
            TermKey::Right => e == LockKeyEffect::Handled && cursor_moved(
                a,
                b,
                if a.cursor_position < focused_text(a).len() {
                    a.cursor_position + 1
                } else {
                    a.cursor_position as int
                },
            ),
            TermKey::Home => e == LockKeyEffect::Handled && cursor_moved(a, b, 0),
            TermKey::End => e == LockKeyEffect::Handled && cursor_moved(
                a,
                b,
                focused_text(a).len() as int,
            ),
            TermKey::Tab => {
                &&& e == LockKeyEffect::Handled
                &&& b.focus == (if a.focus == InputFocus::Username {
                    InputFocus::Password
                } else {
                    InputFocus::Username
                })
                &&& b.cursor_position == focused_text(b).len()
                &&& b.username == a.username
                &&& b.password == a.password
                &&& b.state == a.state
                &&& same_setup(a, b)
            },
            TermKey::Enter => e == LockKeyEffect::LoginRequested && b == a,
            _ => e == LockKeyEffect::Handled && b == a,
        }
    }
}

/// A key on the lock screen at time `now`
pub fn handle_lockscreen_keyboard(ls: &mut LockScreen, code: TermKey, now: u64) -> (e: LockKeyEffect)
    requires
        cursor_ok(*old(ls)),
        old(ls).cursor_position < usize::MAX,
    ensures
        lock_key(*old(ls), *final(ls), code, now, e),
{
    if !ls.is_active() {
        return LockKeyEffect::NotActive;
    }
    if ls.lockout_remaining_at(now).is_some() {
        return LockKeyEffect::Handled;
    }
    match code {
        TermKey::Char(c) => {
            ls.insert_char_at(c, now);
            LockKeyEffect::Handled
        },
        TermKey::Backspace => {
            ls.delete_char_at(now);
            LockKeyEffect::Handled
        },
        TermKey::Left => {
            ls.move_cursor_left();
            LockKeyEffect::Handled
        },
        TermKey::Right => {
            ls.move_cursor_right();
            LockKeyEffect::Handled
        },
        TermKey::Home => {
            ls.move_cursor_home();
            LockKeyEffect::Handled
        },
        TermKey::End => {
            ls.move_cursor_end();
            LockKeyEffect::Handled
        },
        TermKey::Tab => {
            ls.toggle_focus();
            LockKeyEffect::Handled
        },
        TermKey::Enter => LockKeyEffect::LoginRequested,
        _ => LockKeyEffect::Handled,
    }
}

/// A right press while a window has the focus opens the window's context
/// menu at the pointer
pub fn show_context_menu(menu: &mut ContextMenu, focus: FocusState, kind: MouseKind, column: u16, row: u16) -> (shown: bool)
    ensures
        shown == (kind == MouseKind::Down(MouseBtn::Right) && focus is Window),
        shown ==> final(menu).visible && final(menu).x == column && final(menu).y == row
            && final(menu).selected_index == 0 && final(menu).items@ == old(menu).items@,
        !shown ==> *final(menu) == *old(menu),
{
    if kind == MouseKind::Down(MouseBtn::Right) {
        if let FocusState::Window(_) = focus {
            menu.show(column, row);
            return true;
        }
    }
    false
}

/// What a step of the PIN set-up leaves behind, given the dialog after it:
/// a completed dialog stores the PIN's hash and salt in the settings,
/// switches the lock screen to them and closes; a cancelled one closes;
/// otherwise the dialog stays open as it is
pub open spec fn pin_setup_settled(
    d: PinSetupDialog,
    after: Option<PinSetupDialog>,
    c0: AppConfig,
    c1: AppConfig,
    l0: LockScreen,
    l1: LockScreen,
) -> bool {
    match d.state {
        PinSetupState::Complete { hash, salt } => {
            &&& after is None
            &&& c1.lockscreen_pin_hash == Some(hash)
            &&& c1.lockscreen_salt == Some(salt)
            &&& same_settings_but(c0, c1, 9)
            &&& l1.auth_mode == c1.lockscreen_auth_mode
            &&& l1.pin_hash == Some(hash)
            &&& l1.pin_salt == Some(salt)
            &&& l1.state == l0.state
            &&& l1.username == l0.username
            &&& l1.failed_attempts == l0.failed_attempts
        },
        PinSetupState::Cancelled => after is None && c1 == c0 && l1 == l0,
        _ => after == Some(d) && c1 == c0 && l1 == l0,
    }
}

fn settle_pin_setup(
    d: PinSetupDialog,
    pin: &mut Option<PinSetupDialog>,
    config: &mut AppConfig,
    lockscreen: &mut LockScreen,
)
    ensures
        pin_setup_settled(d, *final(pin), *old(config), *final(config), *old(lockscreen), *final(lockscreen)),
{
    match d.state() {
        PinSetupState::Complete { hash, salt } => {
            config.set_pin(hash.clone(), salt.clone());
            lockscreen.update_auth_mode(
                config.lockscreen_auth_mode,
                config.lockscreen_pin_hash.clone(),
                config.lockscreen_salt.clone(),
            );
            *pin = None;
        },
        PinSetupState::Cancelled => {
            *pin = None;
        },
        _ => {
            *pin = Some(d);
        },
    }
}

/// What a key does to the PIN set-up dialog (as `handle_key` states it)
pub open spec fn pin_key_step(a: PinSetupDialog, b: PinSetupDialog, key: DialogKey) -> bool {
    &&& setup_wf(b)
    &&& key == DialogKey::Esc ==> b.state == PinSetupState::Cancelled
    &&& key == DialogKey::Enter && a.focus != PinSetupFocus::CancelButton ==> advanced(a, b)
    &&& key == DialogKey::Tab ==> b.pin_input == a.pin_input && b.confirm_input == a.confirm_input
    &&& key == DialogKey::Other ==> b == a
    &&& (key is Char || key == DialogKey::Backspace || key == DialogKey::Left || key == DialogKey::Right)
        && a.focus != PinSetupFocus::PinField ==> b == a
}

/// A key while the PIN set-up dialog is open: the dialog takes it, then a
/// completed set-up is stored and a cancelled one closes; false when no
/// dialog is open
pub fn handle_pin_setup_keyboard(
    pin: &mut Option<PinSetupDialog>,
    key: DialogKey,
    config: &mut AppConfig,
    lockscreen: &mut LockScreen,
) -> (handled: bool)
    requires
        old(pin).is_some() ==> setup_wf(old(pin)->0),
    ensures
        handled == old(pin).is_some(),
        !handled ==> *final(pin) == *old(pin) && *final(config) == *old(config) && *final(lockscreen) == *old(lockscreen),
        handled ==> exists|d: PinSetupDialog| #[trigger] pin_key_step(old(pin)->0, d, key) && pin_setup_settled(
            d,
            *final(pin),
            *old(config),
            *final(config),
            *old(lockscreen),
            *final(lockscreen),
        ),
{
    match pin.take() {
        Some(mut d) => {
            d.handle_key(key);
            let ghost stepped = d;
            settle_pin_setup(d, pin, config, lockscreen);
            assert(pin_key_step(old(pin)->0, stepped, key));
            true
        },
        None => false,
    }
}

/// What a click does to the PIN set-up dialog (as `handle_click` states it)
pub open spec fn pin_click_step(a: PinSetupDialog, b: PinSetupDialog, x: u16, y: u16, cols: u16, rows: u16, cs: Charset) -> bool {
    &&& setup_wf(b)
    &&& on_confirm(a, x, cols, cs.mode) ==> advanced(a, b)
    &&& !on_confirm(a, x, cols, cs.mode) ==> b.state == PinSetupState::Cancelled
}

/// A left press while the PIN set-up dialog is open: on a button the dialog
/// acts (and a completed set-up is stored, a cancelled one closes); a press
/// elsewhere on the dialog is taken without effect; false for other events,
/// presses beside the dialog, or when no dialog is open
pub fn handle_pin_setup_mouse(
    pin: &mut Option<PinSetupDialog>,
    kind: MouseKind,
    x: u16,
    y: u16,
    cols: u16,
    rows: u16,
    charset: &Charset,
    config: &mut AppConfig,
    lockscreen: &mut LockScreen,
) -> (handled: bool)
    requires
        old(pin).is_some() ==> setup_wf(old(pin)->0),
    ensures
        ({
            let a = old(pin)->0;
            let active = old(pin).is_some() && kind == MouseKind::Down(MouseBtn::Left);
            let hit = y == button_row(a, rows) && (on_confirm(a, x, cols, charset.mode) || on_cancel(a, x, cols, charset.mode));
            let inside = dialog_left(a, cols) <= x < dialog_left(a, cols) + a.dialog_width && dialog_top(a, rows) <= y
                < dialog_top(a, rows) + a.dialog_height;
            &&& handled == (active && (hit || inside))
            &&& active && hit ==> exists|d: PinSetupDialog| #[trigger] pin_click_step(a, d, x, y, cols, rows, *charset)
                && pin_setup_settled(d, *final(pin), *old(config), *final(config), *old(lockscreen), *final(lockscreen))
            &&& !(active && hit) ==> *final(pin) == *old(pin) && *final(config) == *old(config) && *final(lockscreen)
                == *old(lockscreen)
        }),
{
    if kind != MouseKind::Down(MouseBtn::Left) {
        return false;
    }
    match pin.take() {
        Some(mut d) => {
            let ghost a = d;
            if d.handle_click(x, y, cols, rows, charset) {
                let ghost stepped = d;
                settle_pin_setup(d, pin, config, lockscreen);
                assert(pin_click_step(a, stepped, x, y, cols, rows, *charset));
                true
            } else {
                let inside = d.contains_point(x, y, cols, rows);
                *pin = Some(d);
                inside
            }
        },
        None => false,
    }
}

} // verus!
