//! What a key press does on the desktop when no dialog is open: window
//! management shortcuts, the window-mode toggle (with double-backtick),
//! clipboard, exit and lock keys, and the keys that only work while the
//! desktop itself has the focus. The decision is made here; the caller
//! carries out the action on its windows.

use vstd::prelude::*;
use crate::keys::TermKey;
use crate::keybindings::{binding_matches, matches_any, KeyBinding, KeybindingProfile, MOD_SHIFT, MOD_CONTROL, MOD_ALT};
use crate::keyboard_mode::{Direction, SnapPosition};

verus! {

/// Super (command) modifier bit
pub const MOD_SUPER: u8 = 8;

/// Two backtick presses closer than this many milliseconds are a double press
pub const DOUBLE_BACKTICK_THRESHOLD_MS: u64 = 300;

/// What has the keyboard focus
#[derive(Clone, Copy, Debug, PartialEq, Eq, Structural)]
pub enum FocusState {
    Desktop,
    Topbar,
    Window(u32),
}

/// What the caller knows when a key arrives
#[derive(Clone, Copy, Debug, PartialEq, Eq, Structural)]
pub struct DesktopContext {
    pub focus: FocusState,
    /// The keyboard is in window mode
    pub in_window_mode: bool,
    /// When the last backtick toggled window mode, in milliseconds
    pub last_backtick_time: Option<u64>,
    /// The time now, in milliseconds
    pub now: u64,
    /// Exiting was switched off on the command line
    pub no_exit: bool,
    /// Running on macOS
    pub macos: bool,
    /// The number of open windows
    pub window_count: usize,
    pub auto_tiling_enabled: bool,
    /// The lock screen is switched on in the settings and can lock
    pub can_lock: bool,
}

/// What the key press asks for
#[derive(Clone, Copy, Debug, PartialEq, Eq, Structural)]
pub enum DesktopAction {
    /// Send function key F`n`'s sequence to the focused window
    SendFunctionKey(u8),
    CloseFocusedWindow,
    NewTerminal { maximized: bool },
    FocusDirection(Direction),
    /// Snap the focused window to a half of the screen
    Snap(SnapPosition),
    ToggleMaximize,
    ToggleAutoTiling,
    OpenSettings,
    ShowHelp,
    CycleWindow,
    /// Leave window mode (and reset the move and resize state)
    ExitWindowMode,
    /// Toggle window mode (and reset the move and resize state)
    ToggleWindowMode,
    /// Leave the key to the terminal in the focused window
    ForwardToTerminal,
    /// A second backtick: forget the first, leave window mode and send a
    /// backtick to the focused window
    DoubleBacktick,
    /// A backtick in window mode: remember its time and leave window mode
    BacktickExit,
    /// A backtick outside window mode: remember its time and toggle
    BacktickToggle,
    ToggleWindowNumberOverlay,
    /// Restore and focus the window with this title number, if any, and
    /// hide the number overlay
    SelectWindow(u32),
    SaveSession,
    /// Send form feed (clear) to the focused window
    ClearTerminal,
    OpenLauncher,
    CopySelection,
    Paste,
    EscKey,
    QKey,
    ShowExitPrompt,
    /// Send ESC to the focused window
    SendEsc,
    /// Handled, with nothing to do
    Consumed,
    LockScreen,
    /// Tell the user how to set up the lock screen
    LockHint,
    ShowAbout,
    ShowCalendar,
    /// Not a desktop key
    NotHandled,
}

/// Whether any of the bindings matches a key press
pub open spec fn any_matches(bs: Seq<KeyBinding>, code: TermKey, mods: u8) -> bool {
    exists|i: int| 0 <= i < bs.len() && binding_matches(#[trigger] bs[i], code, mods)
}

/// Whether a modifier bit is held
pub open spec fn held(mods: u8, bit: u8) -> bool {
    mods & bit == bit
}

pub open spec fn on_desktop(f: FocusState) -> bool {
    f is Desktop || f is Topbar
}

pub open spec fn new_terminal_maximized(ctx: DesktopContext) -> bool {
    ctx.auto_tiling_enabled && ctx.window_count == 0
}

/// The actions of the direct (any focus) bindings, in the order they are
/// tried
pub open spec fn direct_action(p: KeybindingProfile, code: TermKey, mods: u8, ctx: DesktopContext) -> Option<DesktopAction> {
    if !(p.direct_close_window@.len() > 0 || p.direct_focus_left@.len() > 0 || p.direct_new_terminal@.len() > 0) {
        None
    } else if any_matches(p.direct_close_window@, code, mods) {
        Some(DesktopAction::CloseFocusedWindow)
    } else if any_matches(p.direct_new_terminal@, code, mods) {
        Some(DesktopAction::NewTerminal { maximized: new_terminal_maximized(ctx) })
    } else if any_matches(p.direct_new_terminal_maximized@, code, mods) {
        Some(DesktopAction::NewTerminal { maximized: true })
    } else if any_matches(p.direct_focus_left@, code, mods) {
        Some(DesktopAction::FocusDirection(Direction::Left))
    } else if any_matches(p.direct_focus_down@, code, mods) {
        Some(DesktopAction::FocusDirection(Direction::Down))
    } else if any_matches(p.direct_focus_up@, code, mods) {
        Some(DesktopAction::FocusDirection(Direction::Up))
    } else if any_matches(p.direct_focus_right@, code, mods) {
        Some(DesktopAction::FocusDirection(Direction::Right))
    } else if any_matches(p.direct_snap_left@, code, mods) {
        Some(DesktopAction::Snap(SnapPosition::FullLeft))
    } else if any_matches(p.direct_snap_down@, code, mods) {
        Some(DesktopAction::Snap(SnapPosition::FullBottom))
    } else if any_matches(p.direct_snap_up@, code, mods) {
        Some(DesktopAction::Snap(SnapPosition::FullTop))
    } else if any_matches(p.direct_snap_right@, code, mods) {
        Some(DesktopAction::Snap(SnapPosition::FullRight))
    } else if any_matches(p.direct_maximize@, code, mods) {
        Some(DesktopAction::ToggleMaximize)
    } else if any_matches(p.direct_toggle_auto_tiling@, code, mods) {
        Some(DesktopAction::ToggleAutoTiling)
    } else if any_matches(p.direct_settings@, code, mods) {
        Some(DesktopAction::OpenSettings)
    } else {
        None
    }
}

/// Whether some binding is for the key, whatever its modifiers
pub open spec fn binds_key(bs: Seq<KeyBinding>, code: TermKey) -> bool {
    exists|i: int| 0 <= i < bs.len() && (#[trigger] bs[i]).code == code
}

/// Within the threshold of the last backtick (a clock that went back
/// counts as no time passed)
pub open spec fn is_double_press(last: Option<u64>, now: u64) -> bool {
    match last {
        Some(t) => (if now >= t {
            now - t
        } else {
            0
        }) < DOUBLE_BACKTICK_THRESHOLD_MS,
        None => false,
    }
}

/// The window-mode keys: F8 and backtick, when bound to the toggle
pub open spec fn mode_action(p: KeybindingProfile, code: TermKey, mods: u8, ctx: DesktopContext) -> Option<DesktopAction> {
    if code == TermKey::F(8) && any_matches(p.toggle_window_mode@, code, mods) {
        if ctx.in_window_mode {
            Some(DesktopAction::ExitWindowMode)
        } else if ctx.focus is Window {
            Some(DesktopAction::ForwardToTerminal)
        } else {
            Some(DesktopAction::ToggleWindowMode)
        }
    } else if binds_key(p.toggle_window_mode@, TermKey::Char('`')) && code == TermKey::Char('`')
        && !(held(mods, MOD_ALT) || held(mods, MOD_SUPER)) {
        if is_double_press(ctx.last_backtick_time, ctx.now) {
            Some(DesktopAction::DoubleBacktick)
        } else if ctx.in_window_mode {
            Some(DesktopAction::BacktickExit)
        } else {
            Some(DesktopAction::BacktickToggle)
        }
    } else {
        None
    }
}

/// The title number that a character selects: a digit 1 to 9 with the
/// window-select modifier, or the character that Option gives a digit on
/// a US Mac keyboard
pub open spec fn window_number(c: char, select_mod: bool) -> Option<u32> {
    if '1' <= c <= '9' && select_mod {
        Some((c as u32 - '0' as u32) as u32)
    } else if c == '¡' {
        Some(1)
    } else if c == '™' {
        Some(2)
    } else if c == '£' {
        Some(3)
    } else if c == '¢' {
        Some(4)
    } else if c == '∞' {
        Some(5)
    } else if c == '§' {
        Some(6)
    } else if c == '¶' {
        Some(7)
    } else if c == '•' {
        Some(8)
    } else if c == 'ª' {
        Some(9)
    } else {
        None
    }
}

pub open spec fn select_modifier(mods: u8, macos: bool) -> bool {
    if macos {
        held(mods, MOD_ALT) || held(mods, MOD_SUPER)
    } else {
        held(mods, MOD_ALT)
    }
}

pub open spec fn is_copy_shortcut(code: TermKey, mods: u8, macos: bool) -> bool {
    if macos {
        code == TermKey::Char('c') && held(mods, MOD_SUPER)
    } else {
        code == TermKey::Char('C') && held(mods, MOD_CONTROL) && held(mods, MOD_SHIFT)
    }
}

pub open spec fn is_paste_shortcut(code: TermKey, mods: u8, macos: bool) -> bool {
    if macos {
        code == TermKey::Char('v') && held(mods, MOD_SUPER)
    } else {
        code == TermKey::Char('V') && held(mods, MOD_CONTROL) && held(mods, MOD_SHIFT)
    }
}

pub open spec fn is_launcher_shortcut(code: TermKey, mods: u8) -> bool {
    (code == TermKey::Char(' ') && (held(mods, MOD_CONTROL) || held(mods, MOD_ALT)))
        || code == TermKey::Char('\0') || code == TermKey::Char('\u{00a0}')
}

/// Overlay, window selection, session, clear, launcher and clipboard keys
pub open spec fn window_action(p: KeybindingProfile, code: TermKey, mods: u8, ctx: DesktopContext) -> Option<DesktopAction> {
    let num = match code {
        TermKey::Char(c) => window_number(c, select_modifier(mods, ctx.macos)),
        _ => None,
    };
    if code == TermKey::F(10) && !any_matches(p.exit@, code, mods) {
        Some(DesktopAction::ToggleWindowNumberOverlay)
    } else if num is Some {
        Some(DesktopAction::SelectWindow(num->0))
    } else if any_matches(p.save_session@, code, mods) {
        Some(DesktopAction::SaveSession)
    } else if code == TermKey::F(4) && ctx.focus is Window {
        Some(DesktopAction::ClearTerminal)
    } else if code == TermKey::Char('l') && held(mods, MOD_CONTROL) && ctx.focus is Window {
        Some(DesktopAction::ClearTerminal)
    } else if is_launcher_shortcut(code, mods) {
        Some(DesktopAction::OpenLauncher)
    } else if any_matches(p.copy@, code, mods) {
        Some(DesktopAction::CopySelection)
    } else if any_matches(p.paste@, code, mods) {
        Some(DesktopAction::Paste)
    } else if code == TermKey::F(7) {
        Some(DesktopAction::NewTerminal { maximized: new_terminal_maximized(ctx) })
    } else if is_copy_shortcut(code, mods, ctx.macos) {
        Some(DesktopAction::CopySelection)
    } else if is_paste_shortcut(code, mods, ctx.macos) {
        Some(DesktopAction::Paste)
    } else {
        None
    }
}

/// Exit, ESC and lock keys
pub open spec fn exit_action(p: KeybindingProfile, code: TermKey, mods: u8, ctx: DesktopContext) -> Option<DesktopAction> {
    let exit = any_matches(p.exit@, code, mods);
    if exit && !ctx.no_exit && code == TermKey::Esc {
        Some(DesktopAction::EscKey)
    } else if exit && !ctx.no_exit && code == TermKey::Char('q') && mods == 0 {
        Some(DesktopAction::QKey)
    } else if exit && !ctx.no_exit && code == TermKey::F(10) && on_desktop(ctx.focus) {
        Some(DesktopAction::ShowExitPrompt)
    } else if code == TermKey::Esc && !exit {
        if ctx.focus is Window {
            Some(DesktopAction::SendEsc)
        } else {
            Some(DesktopAction::Consumed)
        }
    } else if any_matches(p.lock_screen@, code, mods) && on_desktop(ctx.focus) {
        if ctx.can_lock {
            Some(DesktopAction::LockScreen)
        } else {
            Some(DesktopAction::LockHint)
        }
    } else {
        None
    }
}

/// The keys that only work while the desktop or the top bar has the focus
pub open spec fn desktop_only_action(p: KeybindingProfile, code: TermKey, mods: u8, ctx: DesktopContext) -> DesktopAction {
    if !on_desktop(ctx.focus) {
        DesktopAction::NotHandled
    } else if any_matches(p.help@, code, mods) {
        DesktopAction::ShowHelp
    } else if any_matches(p.about@, code, mods) && code != TermKey::F(1) {
        DesktopAction::ShowAbout
    } else if any_matches(p.calendar@, code, mods) {
        DesktopAction::ShowCalendar
    } else if any_matches(p.settings@, code, mods) {
        DesktopAction::OpenSettings
    } else if any_matches(p.new_terminal@, code, mods) {
        DesktopAction::NewTerminal { maximized: new_terminal_maximized(ctx) }
    } else if any_matches(p.new_terminal_maximized@, code, mods) {
        DesktopAction::NewTerminal { maximized: true }
    } else {
        DesktopAction::NotHandled
    }
}

/// What a key press on the desktop does, rule by rule in order: Shift+F`n`
/// to a focused window, the direct bindings, help from the desktop, window
/// cycling, the window-mode keys, window keys, exit and lock keys, then the
/// desktop-only keys
pub open spec fn desktop_action(p: KeybindingProfile, code: TermKey, mods: u8, ctx: DesktopContext) -> DesktopAction {
    if code is F && held(mods, MOD_SHIFT) && ctx.focus is Window && 1 <= code->F_0 <= 12 {
        DesktopAction::SendFunctionKey(code->F_0)
    } else if direct_action(p, code, mods, ctx) is Some {
        direct_action(p, code, mods, ctx)->0
    } else if any_matches(p.help@, code, mods) && on_desktop(ctx.focus) {
        DesktopAction::ShowHelp
    } else if any_matches(p.cycle_window@, code, mods) {
        DesktopAction::CycleWindow
    } else if mode_action(p, code, mods, ctx) is Some {
        mode_action(p, code, mods, ctx)->0
    } else if window_action(p, code, mods, ctx) is Some {
        window_action(p, code, mods, ctx)->0
    } else if exit_action(p, code, mods, ctx) is Some {
        exit_action(p, code, mods, ctx)->0
    } else {
        desktop_only_action(p, code, mods, ctx)
    }
}

fn held_exec(mods: u8, bit: u8) -> (b: bool)
    ensures
        b == held(mods, bit),
{
    mods & bit == bit
}

fn direct_decision(p: &KeybindingProfile, code: TermKey, mods: u8, ctx: DesktopContext) -> (a: Option<DesktopAction>)
    ensures
        a == direct_action(*p, code, mods, ctx),
{
    if !p.has_direct_bindings() {
        return None;
    }
    if matches_any(&p.direct_close_window, code, mods) {
        Some(DesktopAction::CloseFocusedWindow)
    } else if matches_any(&p.direct_new_terminal, code, mods) {
        Some(DesktopAction::NewTerminal { maximized: ctx.auto_tiling_enabled && ctx.window_count == 0 })
    } else if matches_any(&p.direct_new_terminal_maximized, code, mods) {
        Some(DesktopAction::NewTerminal { maximized: true })
    } else if matches_any(&p.direct_focus_left, code, mods) {
        Some(DesktopAction::FocusDirection(Direction::Left))
    } else if matches_any(&p.direct_focus_down, code, mods) {
        Some(DesktopAction::FocusDirection(Direction::Down))
    } else if matches_any(&p.direct_focus_up, code, mods) {
        Some(DesktopAction::FocusDirection(Direction::Up))
    } else if matches_any(&p.direct_focus_right, code, mods) {
        Some(DesktopAction::FocusDirection(Direction::Right))
    } else if matches_any(&p.direct_snap_left, code, mods) {
        Some(DesktopAction::Snap(SnapPosition::FullLeft))
    } else if matches_any(&p.direct_snap_down, code, mods) {
        Some(DesktopAction::Snap(SnapPosition::FullBottom))
    } else if matches_any(&p.direct_snap_up, code, mods) {
        Some(DesktopAction::Snap(SnapPosition::FullTop))
    } else if matches_any(&p.direct_snap_right, code, mods) {
        Some(DesktopAction::Snap(SnapPosition::FullRight))
    } else if matches_any(&p.direct_maximize, code, mods) {
        Some(DesktopAction::ToggleMaximize)
    } else if matches_any(&p.direct_toggle_auto_tiling, code, mods) {
        Some(DesktopAction::ToggleAutoTiling)
    } else if matches_any(&p.direct_settings, code, mods) {
        Some(DesktopAction::OpenSettings)
    } else {
        None
    }
}

/// Whether some binding is for the key, whatever its modifiers
fn has_key_binding(bs: &Vec<KeyBinding>, code: TermKey) -> (b: bool)
    ensures
        b == binds_key(bs@, code),
{
    let mut i: usize = 0;
    while i < bs.len()
        invariant
            i <= bs@.len(),
            forall|j: int| 0 <= j < i ==> (#[trigger] bs@[j]).code != code,
        decreases bs@.len() - i,
    {
        if bs[i].code == code {
            return true;
        }
        i = i + 1;
    }
    false
}

fn mode_decision(p: &KeybindingProfile, code: TermKey, mods: u8, ctx: DesktopContext) -> (a: Option<DesktopAction>)
    ensures
        a == mode_action(*p, code, mods, ctx),
{
    if code == TermKey::F(8) && matches_any(&p.toggle_window_mode, code, mods) {
        if ctx.in_window_mode {
            return Some(DesktopAction::ExitWindowMode);
        } else if matches!(ctx.focus, FocusState::Window(_)) {
            return Some(DesktopAction::ForwardToTerminal);
        } else {
            return Some(DesktopAction::ToggleWindowMode);
        }
    }
    let has_backtick = has_key_binding(&p.toggle_window_mode, TermKey::Char('`'));
    let has_alt = held_exec(mods, MOD_ALT) || held_exec(mods, MOD_SUPER);
    if has_backtick && code == TermKey::Char('`') && !has_alt {
        let double = match ctx.last_backtick_time {
            Some(t) => {
                let elapsed: u64 = if ctx.now >= t {
                    ctx.now - t
                } else {
                    0
                };
                elapsed < DOUBLE_BACKTICK_THRESHOLD_MS
            },
            None => false,
        };
        if double {
            Some(DesktopAction::DoubleBacktick)
        } else if ctx.in_window_mode {
            Some(DesktopAction::BacktickExit)
        } else {
            Some(DesktopAction::BacktickToggle)
        }
    } else {
        None
    }
}

fn window_number_of(c: char, select_mod: bool) -> (n: Option<u32>)
    ensures
        n == window_number(c, select_mod),
{
    if '1' <= c && c <= '9' && select_mod {
        Some((c as u32) - ('0' as u32))
    } else if c == '¡' {
        Some(1)
    } else if c == '™' {
        Some(2)
    } else if c == '£' {
        Some(3)
    } else if c == '¢' {
        Some(4)
    } else if c == '∞' {
        Some(5)
    } else if c == '§' {
        Some(6)
    } else if c == '¶' {
        Some(7)
    } else if c == '•' {
        Some(8)
    } else if c == 'ª' {
        Some(9)
    } else {
        None
    }
}

fn window_decision(p: &KeybindingProfile, code: TermKey, mods: u8, ctx: DesktopContext) -> (a: Option<DesktopAction>)
    ensures
        a == window_action(*p, code, mods, ctx),
{
    let select_mod = if ctx.macos {
        held_exec(mods, MOD_ALT) || held_exec(mods, MOD_SUPER)
    } else {
        held_exec(mods, MOD_ALT)
    };
    let num = match code {
        TermKey::Char(c) => window_number_of(c, select_mod),
        _ => None,
    };
    let ctrl = held_exec(mods, MOD_CONTROL);
    let shift = held_exec(mods, MOD_SHIFT);
    let alt = held_exec(mods, MOD_ALT);
    let sup = held_exec(mods, MOD_SUPER);
    let in_window = matches!(ctx.focus, FocusState::Window(_));
    if code == TermKey::F(10) && !matches_any(&p.exit, code, mods) {
        Some(DesktopAction::ToggleWindowNumberOverlay)
    } else if let Some(n) = num {
        Some(DesktopAction::SelectWindow(n))
    } else if matches_any(&p.save_session, code, mods) {
        Some(DesktopAction::SaveSession)
    } else if code == TermKey::F(4) && in_window {
        Some(DesktopAction::ClearTerminal)
    } else if code == TermKey::Char('l') && ctrl && in_window {
        Some(DesktopAction::ClearTerminal)
    } else if (code == TermKey::Char(' ') && (ctrl || alt)) || code == TermKey::Char('\0')
        || code == TermKey::Char('\u{00a0}') {
        Some(DesktopAction::OpenLauncher)
    } else if matches_any(&p.copy, code, mods) {
        Some(DesktopAction::CopySelection)
    } else if matches_any(&p.paste, code, mods) {
        Some(DesktopAction::Paste)
    } else if code == TermKey::F(7) {
        Some(DesktopAction::NewTerminal { maximized: ctx.auto_tiling_enabled && ctx.window_count == 0 })
    } else if (ctx.macos && code == TermKey::Char('c') && sup) || (!ctx.macos && code
        == TermKey::Char('C') && ctrl && shift) {
        Some(DesktopAction::CopySelection)
    } else if (ctx.macos && code == TermKey::Char('v') && sup) || (!ctx.macos && code
        == TermKey::Char('V') && ctrl && shift) {
        Some(DesktopAction::Paste)
    } else {
        None
    }
}

fn exit_decision(p: &KeybindingProfile, code: TermKey, mods: u8, ctx: DesktopContext) -> (a: Option<DesktopAction>)
    ensures
        a == exit_action(*p, code, mods, ctx),
{
    let exit = matches_any(&p.exit, code, mods);
    let desktop = matches!(ctx.focus, FocusState::Desktop | FocusState::Topbar);
    if exit && !ctx.no_exit && code == TermKey::Esc {
        Some(DesktopAction::EscKey)
    } else if exit && !ctx.no_exit && code == TermKey::Char('q') && mods == 0 {
        Some(DesktopAction::QKey)
    } else if exit && !ctx.no_exit && code == TermKey::F(10) && desktop {
        Some(DesktopAction::ShowExitPrompt)
    } else if code == TermKey::Esc && !exit {
        if matches!(ctx.focus, FocusState::Window(_)) {
            Some(DesktopAction::SendEsc)
        } else {
            Some(DesktopAction::Consumed)
        }
    } else if matches_any(&p.lock_screen, code, mods) && desktop {
        if ctx.can_lock {
            Some(DesktopAction::LockScreen)
        } else {
            Some(DesktopAction::LockHint)
        }
    } else {
        None
    }
}

fn desktop_only_decision(p: &KeybindingProfile, code: TermKey, mods: u8, ctx: DesktopContext) -> (a: DesktopAction)
    ensures
        a == desktop_only_action(*p, code, mods, ctx),
{
    if !matches!(ctx.focus, FocusState::Desktop | FocusState::Topbar) {
        DesktopAction::NotHandled
    } else if matches_any(&p.help, code, mods) {
        DesktopAction::ShowHelp
    } else if matches_any(&p.about, code, mods) && code != TermKey::F(1) {
        DesktopAction::ShowAbout
    } else if matches_any(&p.calendar, code, mods) {
        DesktopAction::ShowCalendar
    } else if matches_any(&p.settings, code, mods) {
        DesktopAction::OpenSettings
    } else if matches_any(&p.new_terminal, code, mods) {
        DesktopAction::NewTerminal { maximized: ctx.auto_tiling_enabled && ctx.window_count == 0 }
    } else if matches_any(&p.new_terminal_maximized, code, mods) {
        DesktopAction::NewTerminal { maximized: true }
    } else {
        DesktopAction::NotHandled
    }
}

/// What a key press on the desktop does (see `desktop_action`); the
/// caller carries it out, and a key whose action is `ForwardToTerminal` or
/// `NotHandled` goes on to the focused window
pub fn handle_desktop_keyboard(
    profile: &KeybindingProfile,
    code: TermKey,
    modifiers: u8,
    ctx: DesktopContext,
) -> (a: DesktopAction)
    ensures
        a == desktop_action(*profile, code, modifiers, ctx),
{
    if let TermKey::F(n) = code {
        if held_exec(modifiers, MOD_SHIFT) && matches!(ctx.focus, FocusState::Window(_)) && 1 <= n
            && n <= 12 {
            return DesktopAction::SendFunctionKey(n);
        }
    }
    if let Some(a) = direct_decision(profile, code, modifiers, ctx) {
        return a;
    }
    let desktop = matches!(ctx.focus, FocusState::Desktop | FocusState::Topbar);
    if matches_any(&profile.help, code, modifiers) && desktop {
        return DesktopAction::ShowHelp;
    }
    if matches_any(&profile.cycle_window, code, modifiers) {
        return DesktopAction::CycleWindow;
    }
    if let Some(a) = mode_decision(profile, code, modifiers, ctx) {
        return a;
    }
    if let Some(a) = window_decision(profile, code, modifiers, ctx) {
        return a;
    }
    if let Some(a) = exit_decision(profile, code, modifiers, ctx) {
        return a;
    }
    desktop_only_decision(profile, code, modifiers, ctx)
}

} // verus!
