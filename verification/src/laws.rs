//! Properties that relate several operations of the library.

use vstd::prelude::*;
use crate::auth::{PinAuthenticator, pin_hash_of, pin_verdict};
use crate::config::{LockscreenAuthMode, BACKGROUND_CHAR_COUNT, next_background_index, prev_background_index};
use crate::context_menu::{MenuItem, next_target, prev_target};
use crate::error_dialog::{dialog_layout, OK_BUTTON_WIDTH};
use crate::keyboard_mode::{KeyboardMode, SnapPosition, WindowSubMode, snap_rect, toggled};
use crate::lockscreen::{
    LockBackend, LockScreen, backend_fits, backspaced, cursor_ok, focused_text, locked_out_at,
    lockout_secs, typed, MAX_LOCKOUT_SECS,
};
use crate::pin_setup::{PinSetupDialog, PinSetupState, advanced};
use crate::mouse::{MouseButtons, MouseEvent};
use crate::mouse_events::{PointerEvent, effective_buttons, raw_events};
use crate::desktop::{DesktopAction, DesktopContext, desktop_action};
use crate::keybindings::{KeybindingProfile, profile_index, profile_name};
use crate::text_modes::{TextModeKind, ci_eq, ci_matches, mode_name};
use crate::keys::TermKey;

verus! {

/// A PIN that was entered, confirmed and stored (hash and salt) in the
/// set-up dialog opens a lockscreen in PIN mode made from that hash and
/// salt: its backend accepts that PIN.
pub proof fn law_confirmed_pin_unlocks(
    d: PinSetupDialog,
    done: PinSetupDialog,
    hash: String,
    salt: String,
    l: LockScreen,
)
    requires
        d.is_confirming,
        d.pin_input@ == d.confirm_input@,
        advanced(d, done),
        done.state == (PinSetupState::Complete { hash, salt }),
        hash@.len() > 0,
        salt@.len() > 0,
        backend_fits(l.backend, LockscreenAuthMode::Pin, Some(hash), Some(salt), l.system_available),
    ensures
        l.backend matches LockBackend::Pin(a) && pin_verdict(a, d.pin_input@),
{
}

/// The lockout never shrinks as failures accumulate, and never exceeds two
/// minutes.
pub proof fn law_lockout_grows(a: u32, b: u32)
    requires
        a <= b,
    ensures
        lockout_secs(a) <= lockout_secs(b),
        lockout_secs(b) <= MAX_LOCKOUT_SECS,
{
}

/// The window-mode key pressed twice returns from normal mode to normal
/// mode, and from any window mode to window navigation.
pub proof fn law_toggle_twice(m: KeyboardMode)
    ensures
        m == KeyboardMode::Normal ==> toggled(toggled(m)) == m,
        m is WindowMode ==> toggled(toggled(m)) == KeyboardMode::WindowMode(
            WindowSubMode::Navigation,
        ),
{
}

/// Cycling the background character forward and then backward (or the
/// other way round) comes back to the same character.
pub proof fn law_background_cycle_inverse(i: int)
    requires
        0 <= i < BACKGROUND_CHAR_COUNT,
    ensures
        prev_background_index(next_background_index(i)) == i,
        next_background_index(prev_background_index(i)) == i,
{
}

/// On the lockscreen, typing a character and then pressing backspace
/// leaves the focused field and the cursor as they were.
pub proof fn law_type_then_backspace(l0: LockScreen, l1: LockScreen, l2: LockScreen, c: char, now: u64)
    requires
        cursor_ok(l0),
        !locked_out_at(l0.state, now),
        typed(l0, l1, c, now),
        backspaced(l1, l2, now),
    ensures
        focused_text(l2) == focused_text(l0),
        l2.cursor_position == l0.cursor_position,
        l2.focus == l0.focus,
        l2.state == l0.state,
{
    assert(focused_text(l0).insert(l0.cursor_position as int, c).remove(l0.cursor_position as int)
        =~= focused_text(l0));
}

/// The OK button of an error dialog lies within the dialog, on its third
/// row from the bottom.
pub proof fn law_ok_button_inside_dialog(buffer_width: int, buffer_height: int, msg: Seq<char>)
    requires
        12 <= buffer_width <= u16::MAX,
        0 <= buffer_height <= u16::MAX,
    ensures
        ({
            let (width, height, x, y, bx, by) = dialog_layout(buffer_width, buffer_height, msg);
            &&& x <= bx
            &&& bx + OK_BUTTON_WIDTH <= x + width
            &&& y < by < y + height
        }),
{
}

/// Moving the menu highlight backwards lands on an entry that is no
/// separator, unless it stops at the first entry.
pub proof fn law_previous_skips_separators(items: Seq<MenuItem>, i: int)
    requires
        0 <= i < items.len(),
    ensures
        0 <= prev_target(items, i) <= i,
        prev_target(items, i) == 0 || !items[prev_target(items, i)].is_separator,
    decreases i,
{
    if i > 0 && items[i].is_separator {
        law_previous_skips_separators(items, i - 1);
    }
}

/// Moving the menu highlight forwards lands on an entry that is no
/// separator, unless it stops at the last entry.
pub proof fn law_next_skips_separators(items: Seq<MenuItem>, i: int)
    requires
        0 <= i < items.len(),
    ensures
        i <= next_target(items, i) < items.len(),
        next_target(items, i) == items.len() - 1 || !items[next_target(items, i)].is_separator,
    decreases items.len() - i,
{
    if i < items.len() - 1 && items[i].is_separator {
        law_next_skips_separators(items, i + 1);
    }
}

/// A raw mouse report with the same buttons held as before (as the user
/// means them), no movement and no wheel step gives no screen event.
pub proof fn law_quiet_report_is_silent(
    prev: MouseButtons,
    raw: MouseEvent,
    col: u16,
    row: u16,
    swap: bool,
)
    requires
        effective_buttons(raw.buttons, swap) == prev,
        raw.dx == 0,
        raw.dy == 0,
        raw.scroll == 0,
    ensures
        raw_events(prev, raw, col, row, swap) == Seq::<PointerEvent>::empty(),
{
    assert(raw_events(prev, raw, col, row, swap) =~= Seq::<PointerEvent>::empty());
}

/// With exiting switched off, no key on the desktop leads to leaving the
/// program: neither ESC nor `q` nor the exit prompt.
pub proof fn law_no_exit_never_exits(p: KeybindingProfile, code: TermKey, mods: u8, ctx: DesktopContext)
    requires
        ctx.no_exit,
    ensures
        desktop_action(p, code, mods, ctx) != DesktopAction::EscKey,
        desktop_action(p, code, mods, ctx) != DesktopAction::QKey,
        desktop_action(p, code, mods, ctx) != DesktopAction::ShowExitPrompt,
{
}

/// A PIN authenticator made from the hash of a PIN and the salt it was
/// hashed with accepts that PIN.
pub proof fn law_hashed_pin_verifies(a: PinAuthenticator, pin: Seq<char>)
    requires
        a.pin_hash@ == pin_hash_of(pin, a.salt@),
    ensures
        pin_verdict(a, pin),
{
}

/// Reading back the name a text mode is shown by gives that mode again:
/// no two modes have names that match each other, whatever the letter case.
pub proof fn law_mode_name_round_trip(k: TextModeKind, m: TextModeKind)
    requires
        ci_matches(mode_name(k), mode_name(m)),
    ensures
        k == m,
{
    reveal_strlit("40x25");
    reveal_strlit("80x25");
    reveal_strlit("80x43");
    reveal_strlit("80x50");
    if k != m {
        let a = mode_name(k);
        let b = mode_name(m);
        assert(!ci_eq(a[0], b[0]) || !ci_eq(a[3], b[3]) || !ci_eq(a[4], b[4]));
    }
}

/// Stepping to the next keybinding profile and then back to the previous
/// one (or the other way round) returns to the profile one started from.
pub proof fn law_profile_cycle_inverse(i: int)
    requires
        0 <= i < 2,
    ensures
        ({
            let next = (profile_index(profile_name(i)) + 1) % 2;
            let j = profile_index(profile_name(next));
            profile_name(if j == 0 { 1 } else { j - 1 }) == profile_name(i)
        }),
        ({
            let k = profile_index(profile_name(i));
            let prev = if k == 0 { 1 } else { k - 1 };
            profile_name((profile_index(profile_name(prev)) + 1) % 2) == profile_name(i)
        }),
{
    reveal_strlit("term39");
    reveal_strlit("hyprland");
    assert("term39"@ != "hyprland"@) by {
        assert("term39"@.len() != "hyprland"@.len());
    }
}

/// Choosing a profile by the name of a profile gives that profile: only the
/// second name matches the hyprland profile's name, in any letter case.
pub proof fn law_profile_name_selects_itself(i: int)
    requires
        0 <= i < 2,
    ensures
        ci_matches(profile_name(i), "hyprland"@) <==> i == 1,
{
    reveal_strlit("term39");
    reveal_strlit("hyprland");
    if i == 1 {
        assert(ci_matches(profile_name(i), "hyprland"@));
    } else {
        assert("term39"@.len() != "hyprland"@.len());
    }
}

/// Every snap position gives a window inside the screen, below the top bar
/// and above the bottom bar; the left and right halves split the width
/// exactly, and the top and bottom quarters split the usable height.
pub proof fn law_snap_rect_inside(p: SnapPosition, w: u16, h: u16, top: u16)
    requires
        top < u16::MAX,
    ensures
        ({
            let r = snap_rect(p, w, h, top);
            let u: int = if h >= top + 1 { h - (top + 1) } else { 0 };
            &&& r.0 + r.2 <= w
            &&& top <= r.1
            &&& r.1 + r.3 <= top + u
        }),
        snap_rect(SnapPosition::FullRight, w, h, top).0 == snap_rect(SnapPosition::FullLeft, w, h, top).2,
        snap_rect(SnapPosition::FullLeft, w, h, top).2 + snap_rect(SnapPosition::FullRight, w, h, top).2 == w,
        ({
            let u: int = if h >= top + 1 { h - (top + 1) } else { 0 };
            &&& snap_rect(SnapPosition::BottomLeft, w, h, top).1 == top + snap_rect(SnapPosition::TopLeft, w, h, top).3
            &&& snap_rect(SnapPosition::TopLeft, w, h, top).3 + snap_rect(SnapPosition::BottomLeft, w, h, top).3 == u
        }),
{
}

} // verus!
