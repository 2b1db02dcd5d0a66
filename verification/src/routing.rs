//! Which part of the program a key event goes to: the order in which the
//! lockscreen, the dialogs and the desktop get a key.

use vstd::prelude::*;
use crate::keys::TermKey;
use crate::keybindings::{MOD_ALT, MOD_CONTROL};

verus! {

/// The phase of a key event as the terminal reports it
#[derive(Debug, Clone, Copy, PartialEq, Eq, Structural)]
pub enum KeyPhase {
    Press,
    Repeat,
    Release,
}

/// What is open on the screen, in the order the keys reach it
#[derive(Debug, Clone, Copy, PartialEq, Eq, Structural)]
pub struct KeyLayers {
    pub lockscreen_active: bool,
    pub prompt_open: bool,
    /// A focused window asks whether to close it
    pub close_confirmation_open: bool,
    pub error_dialog_open: bool,
    pub pin_setup_open: bool,
    pub launcher_open: bool,
    pub calendar_open: bool,
    pub help_open: bool,
    pub about_open: bool,
    pub config_window_open: bool,
    pub window_mode_help_open: bool,
    /// Window mode is on and takes the key
    pub window_mode_takes_key: bool,
}

/// Where a key goes
#[derive(Debug, Clone, Copy, PartialEq, Eq, Structural)]
pub enum KeyRoute {
    /// Dropped (a release, or a repeat of a key that does not move)
    Ignore,
    Lockscreen,
    /// F12: lock the screen, or say how to enable locking
    LockShortcut,
    Prompt,
    CloseConfirmation,
    ErrorDialog,
    PinSetup,
    Launcher,
    Calendar,
    Help,
    About,
    ConfigWindow,
    WindowModeHelp,
    WindowMode,
    /// Ctrl+Space, Alt+Space (or the characters terminals send for them)
    OpenLauncher,
    /// The desktop shortcuts, and then the focused terminal
    Desktop,
}

/// Keys whose auto-repeat counts: moving and deleting
pub open spec fn repeats(code: TermKey) -> bool {
    match code {
        TermKey::Up | TermKey::Down | TermKey::Left | TermKey::Right | TermKey::PageUp
        | TermKey::PageDown | TermKey::Home | TermKey::End | TermKey::Backspace
        | TermKey::Delete => true,
        _ => false,
    }
}

/// The key that opens the launcher
pub open spec fn launcher_key(code: TermKey, modifiers: u8) -> bool {
    ||| code == TermKey::Char(' ') && (modifiers & MOD_CONTROL != 0 || modifiers & MOD_ALT != 0)
    ||| code == TermKey::Char('\0')
    ||| code == TermKey::Char('\u{a0}')
}

/// Where a key event goes: releases and repeats of other keys are dropped;
/// the lockscreen takes every key while it is up; F12 locks from anywhere
/// else; then the open dialogs, in their order, take the key; then the
/// launcher key; then the desktop.
pub open spec fn key_route(phase: KeyPhase, code: TermKey, modifiers: u8, l: KeyLayers) -> KeyRoute {
    if phase == KeyPhase::Release || (phase == KeyPhase::Repeat && !repeats(code)) {
        KeyRoute::Ignore
    } else if l.lockscreen_active {
        KeyRoute::Lockscreen
    } else if code == TermKey::F(12) {
        KeyRoute::LockShortcut
    } else if l.prompt_open {
        KeyRoute::Prompt
    } else if l.close_confirmation_open {
        KeyRoute::CloseConfirmation
    } else if l.error_dialog_open {
        KeyRoute::ErrorDialog
    } else if l.pin_setup_open {
        KeyRoute::PinSetup
    } else if l.launcher_open {
        KeyRoute::Launcher
    } else if l.calendar_open {
        KeyRoute::Calendar
    } else if l.help_open {
        KeyRoute::Help
    } else if l.about_open {
        KeyRoute::About
    } else if l.config_window_open {
        KeyRoute::ConfigWindow
    } else if l.window_mode_help_open {
        KeyRoute::WindowModeHelp
    } else if l.window_mode_takes_key {
        KeyRoute::WindowMode
    } else if launcher_key(code, modifiers) {
        KeyRoute::OpenLauncher
    } else {
        KeyRoute::Desktop
    }
}

fn repeats_exec(code: TermKey) -> (b: bool)
    ensures
        b == repeats(code),
{
    match code {
        TermKey::Up | TermKey::Down | TermKey::Left | TermKey::Right | TermKey::PageUp
        | TermKey::PageDown | TermKey::Home | TermKey::End | TermKey::Backspace
        | TermKey::Delete => true,
        _ => false,
    }
}

/// Where a key event goes (see `key_route`)
pub fn route_key(phase: KeyPhase, code: TermKey, modifiers: u8, layers: KeyLayers) -> (r: KeyRoute)
    ensures
        r == key_route(phase, code, modifiers, layers),
{
    if phase == KeyPhase::Release || (phase == KeyPhase::Repeat && !repeats_exec(code)) {
        KeyRoute::Ignore
    } else if layers.lockscreen_active {
        KeyRoute::Lockscreen
    } else if code == TermKey::F(12) {
        KeyRoute::LockShortcut
    } else if layers.prompt_open {
        KeyRoute::Prompt
    } else if layers.close_confirmation_open {
        KeyRoute::CloseConfirmation
    } else if layers.error_dialog_open {
        KeyRoute::ErrorDialog
    } else if layers.pin_setup_open {
        KeyRoute::PinSetup
    } else if layers.launcher_open {
        KeyRoute::Launcher
    } else if layers.calendar_open {
        KeyRoute::Calendar
    } else if layers.help_open {
        KeyRoute::Help
    } else if layers.about_open {
        KeyRoute::About
    } else if layers.config_window_open {
        KeyRoute::ConfigWindow
    } else if layers.window_mode_help_open {
        KeyRoute::WindowModeHelp
    } else if layers.window_mode_takes_key {
        KeyRoute::WindowMode
    } else if (code == TermKey::Char(' ') && (modifiers & MOD_CONTROL != 0 || modifiers & MOD_ALT != 0))
        || code == TermKey::Char('\0') || code == TermKey::Char('\u{a0}') {
        KeyRoute::OpenLauncher
    } else {
        KeyRoute::Desktop
    }
}

/// While the lockscreen is up, every key that is not dropped goes to it.
pub proof fn law_lockscreen_takes_every_key(phase: KeyPhase, code: TermKey, modifiers: u8, l: KeyLayers)
    requires
        l.lockscreen_active,
    ensures
        key_route(phase, code, modifiers, l) == KeyRoute::Lockscreen || key_route(phase, code, modifiers, l)
            == KeyRoute::Ignore,
{
}

} // verus!
