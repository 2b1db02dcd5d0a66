//! Key bindings: which key presses trigger which application actions, in
//! the two built-in profiles.

use vstd::prelude::*;
use crate::keys::TermKey;
use crate::text::chars_of;
use crate::text_modes::{ci_matches, ci_matches_exec};

verus! {

/// Shift modifier bit (as crossterm numbers modifiers)
pub const MOD_SHIFT: u8 = 1;

/// Control modifier bit
pub const MOD_CONTROL: u8 = 2;

/// Alt modifier bit
pub const MOD_ALT: u8 = 4;

/// A key together with the modifiers it needs
#[derive(Clone, Copy, Debug, PartialEq, Eq, Structural)]
pub struct KeyBinding {
    pub code: TermKey,
    pub modifiers: u8,
}

/// A key press matches a binding when the key is the same and every
/// modifier the binding needs is held (others may be held too)
pub open spec fn binding_matches(b: KeyBinding, code: TermKey, modifiers: u8) -> bool {
    b.code == code && (modifiers & b.modifiers) == b.modifiers
}

impl KeyBinding {
    /// A binding of a key with the given modifiers
    pub fn new(code: TermKey, modifiers: u8) -> (b: Self)
        ensures
            b == (KeyBinding { code, modifiers }),
    {
        KeyBinding { code, modifiers }
    }

    /// Whether a key press matches this binding
    pub fn matches(&self, code: TermKey, modifiers: u8) -> (r: bool)
        ensures
            r == binding_matches(*self, code, modifiers),
    {
        self.code == code && (modifiers & self.modifiers) == self.modifiers
    }
}

fn key(code: TermKey) -> (b: KeyBinding)
    ensures
        b == (KeyBinding { code, modifiers: 0u8 }),
{
    KeyBinding::new(code, 0)
}

fn alt(code: TermKey) -> (b: KeyBinding)
    ensures
        b == (KeyBinding { code, modifiers: MOD_ALT }),
{
    KeyBinding::new(code, MOD_ALT)
}

fn alt_shift(code: TermKey) -> (b: KeyBinding)
    ensures
        b == (KeyBinding { code, modifiers: (MOD_ALT | MOD_SHIFT) }),
{
    KeyBinding::new(code, MOD_ALT | MOD_SHIFT)
}

fn shift(code: TermKey) -> (b: KeyBinding)
    ensures
        b == (KeyBinding { code, modifiers: MOD_SHIFT }),
{
    KeyBinding::new(code, MOD_SHIFT)
}

/// Whether any of the bindings matches a key press
pub fn matches_any(bindings: &[KeyBinding], code: TermKey, modifiers: u8) -> (r: bool)
    ensures
        r == exists|i: int| 0 <= i < bindings@.len() && binding_matches(#[trigger] bindings@[i], code, modifiers),
{
    let mut i: usize = 0;
    while i < bindings.len()
        invariant
            i <= bindings@.len(),
            forall|j: int| 0 <= j < i ==> !binding_matches(#[trigger] bindings@[j], code, modifiers),
        decreases bindings@.len() - i,
    {
        if bindings[i].matches(code, modifiers) {
            return true;
        }
        i = i + 1;
    }
    false
}

/// The bindings of every application action
pub struct KeybindingProfile {
    pub name: String,
    pub help: Vec<KeyBinding>,
    pub cycle_window: Vec<KeyBinding>,
    pub save_session: Vec<KeyBinding>,
    pub copy: Vec<KeyBinding>,
    pub paste: Vec<KeyBinding>,
    pub new_terminal: Vec<KeyBinding>,
    pub new_terminal_maximized: Vec<KeyBinding>,
    pub toggle_window_mode: Vec<KeyBinding>,
    pub exit: Vec<KeyBinding>,
    pub settings: Vec<KeyBinding>,
    pub calendar: Vec<KeyBinding>,
    pub about: Vec<KeyBinding>,
    pub launcher: Vec<KeyBinding>,
    pub lock_screen: Vec<KeyBinding>,
    pub wm_focus_left: Vec<KeyBinding>,
    pub wm_focus_down: Vec<KeyBinding>,
    pub wm_focus_up: Vec<KeyBinding>,
    pub wm_focus_right: Vec<KeyBinding>,
    pub wm_snap_left: Vec<KeyBinding>,
    pub wm_snap_down: Vec<KeyBinding>,
    pub wm_snap_up: Vec<KeyBinding>,
    pub wm_snap_right: Vec<KeyBinding>,
    pub wm_enter_move: Vec<KeyBinding>,
    pub wm_enter_resize: Vec<KeyBinding>,
    pub wm_close: Vec<KeyBinding>,
    pub wm_maximize: Vec<KeyBinding>,
    pub wm_minimize: Vec<KeyBinding>,
    pub wm_toggle_auto_tiling: Vec<KeyBinding>,
    pub direct_close_window: Vec<KeyBinding>,
    pub direct_focus_left: Vec<KeyBinding>,
    pub direct_focus_down: Vec<KeyBinding>,
    pub direct_focus_up: Vec<KeyBinding>,
    pub direct_focus_right: Vec<KeyBinding>,
    pub direct_snap_left: Vec<KeyBinding>,
    pub direct_snap_down: Vec<KeyBinding>,
    pub direct_snap_up: Vec<KeyBinding>,
    pub direct_snap_right: Vec<KeyBinding>,
    pub direct_maximize: Vec<KeyBinding>,
    pub direct_toggle_auto_tiling: Vec<KeyBinding>,
    pub direct_new_terminal: Vec<KeyBinding>,
    pub direct_new_terminal_maximized: Vec<KeyBinding>,
    pub direct_settings: Vec<KeyBinding>,
    pub uses_window_mode: bool,
}

/// The bindings of the term39 profile, action by action
pub open spec fn term39_bindings(p: KeybindingProfile) -> bool {
    &&& p.help@ =~= seq![KeyBinding { code: TermKey::F(1), modifiers: 0u8 }, KeyBinding { code: TermKey::Char('?'), modifiers: 0u8 }, KeyBinding { code: TermKey::Char('h'), modifiers: 0u8 }]
    &&& p.cycle_window@ =~= seq![KeyBinding { code: TermKey::F(2), modifiers: 0u8 }, KeyBinding { code: TermKey::Tab, modifiers: MOD_ALT }]
    &&& p.save_session@ =~= seq![KeyBinding { code: TermKey::F(3), modifiers: 0u8 }]
    &&& p.copy@ =~= seq![KeyBinding { code: TermKey::F(5), modifiers: 0u8 }]
    &&& p.paste@ =~= seq![KeyBinding { code: TermKey::F(6), modifiers: 0u8 }]
    &&& p.new_terminal@ =~= seq![KeyBinding { code: TermKey::F(7), modifiers: 0u8 }, KeyBinding { code: TermKey::Char('t'), modifiers: 0u8 }]
    &&& p.new_terminal_maximized@ =~= seq![KeyBinding { code: TermKey::Char('T'), modifiers: 0u8 }]
    &&& p.toggle_window_mode@ =~= seq![KeyBinding { code: TermKey::Char('`'), modifiers: 0u8 }, KeyBinding { code: TermKey::F(8), modifiers: 0u8 }]
    &&& p.exit@ =~= seq![KeyBinding { code: TermKey::Esc, modifiers: 0u8 }, KeyBinding { code: TermKey::Char('q'), modifiers: 0u8 }, KeyBinding { code: TermKey::F(10), modifiers: 0u8 }]
    &&& p.settings@ =~= seq![KeyBinding { code: TermKey::Char('s'), modifiers: 0u8 }]
    &&& p.calendar@ =~= seq![KeyBinding { code: TermKey::Char('c'), modifiers: 0u8 }]
    &&& p.about@ =~= seq![KeyBinding { code: TermKey::Char('l'), modifiers: 0u8 }]
    &&& p.launcher@ =~= Seq::<KeyBinding>::empty()
    &&& p.lock_screen@ =~= seq![KeyBinding { code: TermKey::Char('Q'), modifiers: MOD_SHIFT }]
    &&& p.wm_focus_left@ =~= seq![KeyBinding { code: TermKey::Char('h'), modifiers: 0u8 }, KeyBinding { code: TermKey::Left, modifiers: 0u8 }]
    &&& p.wm_focus_down@ =~= seq![KeyBinding { code: TermKey::Char('j'), modifiers: 0u8 }, KeyBinding { code: TermKey::Down, modifiers: 0u8 }]
    &&& p.wm_focus_up@ =~= seq![KeyBinding { code: TermKey::Char('k'), modifiers: 0u8 }, KeyBinding { code: TermKey::Up, modifiers: 0u8 }]
    &&& p.wm_focus_right@ =~= seq![KeyBinding { code: TermKey::Char('l'), modifiers: 0u8 }, KeyBinding { code: TermKey::Right, modifiers: 0u8 }]
    &&& p.wm_snap_left@ =~= seq![KeyBinding { code: TermKey::Char('H'), modifiers: MOD_SHIFT }, KeyBinding { code: TermKey::Left, modifiers: MOD_SHIFT }]
    &&& p.wm_snap_down@ =~= seq![KeyBinding { code: TermKey::Char('J'), modifiers: MOD_SHIFT }, KeyBinding { code: TermKey::Down, modifiers: MOD_SHIFT }]
    &&& p.wm_snap_up@ =~= seq![KeyBinding { code: TermKey::Char('K'), modifiers: MOD_SHIFT }, KeyBinding { code: TermKey::Up, modifiers: MOD_SHIFT }]
    &&& p.wm_snap_right@ =~= seq![KeyBinding { code: TermKey::Char('L'), modifiers: MOD_SHIFT }, KeyBinding { code: TermKey::Right, modifiers: MOD_SHIFT }]
    &&& p.wm_enter_move@ =~= seq![KeyBinding { code: TermKey::Char('m'), modifiers: 0u8 }]
    &&& p.wm_enter_resize@ =~= seq![KeyBinding { code: TermKey::Char('r'), modifiers: 0u8 }]
    &&& p.wm_close@ =~= seq![KeyBinding { code: TermKey::Char('x'), modifiers: 0u8 }, KeyBinding { code: TermKey::Char('q'), modifiers: 0u8 }]
    &&& p.wm_maximize@ =~= seq![KeyBinding { code: TermKey::Char('z'), modifiers: 0u8 }, KeyBinding { code: TermKey::Char('+'), modifiers: 0u8 }, KeyBinding { code: TermKey::Char(' '), modifiers: 0u8 }]
    &&& p.wm_minimize@ =~= seq![KeyBinding { code: TermKey::Char('-'), modifiers: 0u8 }, KeyBinding { code: TermKey::Char('_'), modifiers: 0u8 }]
    &&& p.wm_toggle_auto_tiling@ =~= seq![KeyBinding { code: TermKey::Char('a'), modifiers: 0u8 }]
    &&& p.direct_close_window@ =~= Seq::<KeyBinding>::empty()
    &&& p.direct_focus_left@ =~= Seq::<KeyBinding>::empty()
    &&& p.direct_focus_down@ =~= Seq::<KeyBinding>::empty()
    &&& p.direct_focus_up@ =~= Seq::<KeyBinding>::empty()
    &&& p.direct_focus_right@ =~= Seq::<KeyBinding>::empty()
    &&& p.direct_snap_left@ =~= Seq::<KeyBinding>::empty()
    &&& p.direct_snap_down@ =~= Seq::<KeyBinding>::empty()
    &&& p.direct_snap_up@ =~= Seq::<KeyBinding>::empty()
    &&& p.direct_snap_right@ =~= Seq::<KeyBinding>::empty()
    &&& p.direct_maximize@ =~= Seq::<KeyBinding>::empty()
    &&& p.direct_toggle_auto_tiling@ =~= Seq::<KeyBinding>::empty()
    &&& p.direct_new_terminal@ =~= Seq::<KeyBinding>::empty()
    &&& p.direct_new_terminal_maximized@ =~= Seq::<KeyBinding>::empty()
    &&& p.direct_settings@ =~= Seq::<KeyBinding>::empty()
}

/// The bindings of the Hyprland profile, action by action (on macOS the
/// characters that Option+letter produces are bound as well)
pub open spec fn hyprland_bindings(p: KeybindingProfile, macos: bool) -> bool {
    &&& p.help@ =~= seq![KeyBinding { code: TermKey::F(1), modifiers: 0u8 }, KeyBinding { code: TermKey::Char('?'), modifiers: 0u8 }]
    &&& p.cycle_window@ =~= seq![KeyBinding { code: TermKey::Tab, modifiers: MOD_ALT }, KeyBinding { code: TermKey::F(2), modifiers: 0u8 }]
    &&& p.save_session@ =~= seq![KeyBinding { code: TermKey::F(3), modifiers: 0u8 }]
    &&& p.copy@ =~= seq![KeyBinding { code: TermKey::F(5), modifiers: 0u8 }]
    &&& p.paste@ =~= seq![KeyBinding { code: TermKey::F(6), modifiers: 0u8 }]
    &&& p.new_terminal@ =~= seq![KeyBinding { code: TermKey::Char('t'), modifiers: 0u8 }]
    &&& p.new_terminal_maximized@ =~= seq![KeyBinding { code: TermKey::Char('T'), modifiers: 0u8 }]
    &&& p.toggle_window_mode@ =~= seq![KeyBinding { code: TermKey::F(8), modifiers: 0u8 }]
    &&& p.exit@ =~= seq![KeyBinding { code: TermKey::Esc, modifiers: 0u8 }, KeyBinding { code: TermKey::F(10), modifiers: 0u8 }]
    &&& p.settings@ =~= seq![KeyBinding { code: TermKey::Char('s'), modifiers: 0u8 }]
    &&& p.calendar@ =~= seq![KeyBinding { code: TermKey::Char('c'), modifiers: 0u8 }]
    &&& p.about@ =~= seq![KeyBinding { code: TermKey::Char('l'), modifiers: 0u8 }]
    &&& p.launcher@ =~= seq![KeyBinding { code: TermKey::Char(' '), modifiers: MOD_ALT }]
    &&& p.lock_screen@ =~= seq![KeyBinding { code: TermKey::Char('Q'), modifiers: MOD_SHIFT }]
    &&& p.wm_focus_left@ =~= seq![KeyBinding { code: TermKey::Char('h'), modifiers: 0u8 }, KeyBinding { code: TermKey::Left, modifiers: 0u8 }]
    &&& p.wm_focus_down@ =~= seq![KeyBinding { code: TermKey::Char('j'), modifiers: 0u8 }, KeyBinding { code: TermKey::Down, modifiers: 0u8 }]
    &&& p.wm_focus_up@ =~= seq![KeyBinding { code: TermKey::Char('k'), modifiers: 0u8 }, KeyBinding { code: TermKey::Up, modifiers: 0u8 }]
    &&& p.wm_focus_right@ =~= seq![KeyBinding { code: TermKey::Char('l'), modifiers: 0u8 }, KeyBinding { code: TermKey::Right, modifiers: 0u8 }]
    &&& p.wm_snap_left@ =~= seq![KeyBinding { code: TermKey::Char('H'), modifiers: MOD_SHIFT }, KeyBinding { code: TermKey::Left, modifiers: MOD_SHIFT }]
    &&& p.wm_snap_down@ =~= seq![KeyBinding { code: TermKey::Char('J'), modifiers: MOD_SHIFT }, KeyBinding { code: TermKey::Down, modifiers: MOD_SHIFT }]
    &&& p.wm_snap_up@ =~= seq![KeyBinding { code: TermKey::Char('K'), modifiers: MOD_SHIFT }, KeyBinding { code: TermKey::Up, modifiers: MOD_SHIFT }]
    &&& p.wm_snap_right@ =~= seq![KeyBinding { code: TermKey::Char('L'), modifiers: MOD_SHIFT }, KeyBinding { code: TermKey::Right, modifiers: MOD_SHIFT }]
    &&& p.wm_enter_move@ =~= seq![KeyBinding { code: TermKey::Char('m'), modifiers: 0u8 }]
    &&& p.wm_enter_resize@ =~= seq![KeyBinding { code: TermKey::Char('r'), modifiers: 0u8 }]
    &&& p.wm_close@ =~= seq![KeyBinding { code: TermKey::Char('x'), modifiers: 0u8 }, KeyBinding { code: TermKey::Char('q'), modifiers: 0u8 }]
    &&& p.wm_maximize@ =~= seq![KeyBinding { code: TermKey::Char('z'), modifiers: 0u8 }, KeyBinding { code: TermKey::Char('+'), modifiers: 0u8 }, KeyBinding { code: TermKey::Char(' '), modifiers: 0u8 }]
    &&& p.wm_minimize@ =~= seq![KeyBinding { code: TermKey::Char('-'), modifiers: 0u8 }, KeyBinding { code: TermKey::Char('_'), modifiers: 0u8 }]
    &&& p.wm_toggle_auto_tiling@ =~= seq![KeyBinding { code: TermKey::Char('a'), modifiers: 0u8 }]
    &&& p.direct_close_window@ =~= if macos {
        seq![KeyBinding { code: TermKey::Char('q'), modifiers: MOD_ALT }, KeyBinding { code: TermKey::Char('\u{153}'), modifiers: 0u8 }]
    } else {
        seq![KeyBinding { code: TermKey::Char('q'), modifiers: MOD_ALT }]
    }
    &&& p.direct_focus_left@ =~= if macos {
        seq![KeyBinding { code: TermKey::Char('h'), modifiers: MOD_ALT }, KeyBinding { code: TermKey::Char('\u{2d9}'), modifiers: 0u8 }]
    } else {
        seq![KeyBinding { code: TermKey::Char('h'), modifiers: MOD_ALT }]
    }
    &&& p.direct_focus_down@ =~= if macos {
        seq![KeyBinding { code: TermKey::Char('j'), modifiers: MOD_ALT }, KeyBinding { code: TermKey::Char('\u{2206}'), modifiers: 0u8 }]
    } else {
        seq![KeyBinding { code: TermKey::Char('j'), modifiers: MOD_ALT }]
    }
    &&& p.direct_focus_up@ =~= if macos {
        seq![KeyBinding { code: TermKey::Char('k'), modifiers: MOD_ALT }, KeyBinding { code: TermKey::Char('\u{2da}'), modifiers: 0u8 }]
    } else {
        seq![KeyBinding { code: TermKey::Char('k'), modifiers: MOD_ALT }]
    }
    &&& p.direct_focus_right@ =~= if macos {
        seq![KeyBinding { code: TermKey::Char('l'), modifiers: MOD_ALT }, KeyBinding { code: TermKey::Char('\u{ac}'), modifiers: 0u8 }]
    } else {
        seq![KeyBinding { code: TermKey::Char('l'), modifiers: MOD_ALT }]
    }
    &&& p.direct_snap_left@ =~= if macos {
        seq![KeyBinding { code: TermKey::Char('H'), modifiers: (MOD_ALT | MOD_SHIFT) }, KeyBinding { code: TermKey::Char('\u{d3}'), modifiers: 0u8 }]
    } else {
        seq![KeyBinding { code: TermKey::Char('H'), modifiers: (MOD_ALT | MOD_SHIFT) }]
    }
    &&& p.direct_snap_down@ =~= if macos {
        seq![KeyBinding { code: TermKey::Char('J'), modifiers: (MOD_ALT | MOD_SHIFT) }, KeyBinding { code: TermKey::Char('\u{d4}'), modifiers: 0u8 }]
    } else {
        seq![KeyBinding { code: TermKey::Char('J'), modifiers: (MOD_ALT | MOD_SHIFT) }]
    }
    &&& p.direct_snap_up@ =~= if macos {
        seq![KeyBinding { code: TermKey::Char('K'), modifiers: (MOD_ALT | MOD_SHIFT) }, KeyBinding { code: TermKey::Char('\u{f8ff}'), modifiers: 0u8 }]
    } else {
        seq![KeyBinding { code: TermKey::Char('K'), modifiers: (MOD_ALT | MOD_SHIFT) }]
    }
    &&& p.direct_snap_right@ =~= if macos {
        seq![KeyBinding { code: TermKey::Char('L'), modifiers: (MOD_ALT | MOD_SHIFT) }, KeyBinding { code: TermKey::Char('\u{d2}'), modifiers: 0u8 }]
    } else {
        seq![KeyBinding { code: TermKey::Char('L'), modifiers: (MOD_ALT | MOD_SHIFT) }]
    }
    &&& p.direct_maximize@ =~= if macos {
        seq![KeyBinding { code: TermKey::Char('f'), modifiers: MOD_ALT }, KeyBinding { code: TermKey::Char('\u{192}'), modifiers: 0u8 }]
    } else {
        seq![KeyBinding { code: TermKey::Char('f'), modifiers: MOD_ALT }]
    }
    &&& p.direct_toggle_auto_tiling@ =~= if macos {
        seq![KeyBinding { code: TermKey::Char('v'), modifiers: MOD_ALT }, KeyBinding { code: TermKey::Char('\u{221a}'), modifiers: 0u8 }]
    } else {
        seq![KeyBinding { code: TermKey::Char('v'), modifiers: MOD_ALT }]
    }
    &&& p.direct_new_terminal@ =~= seq![KeyBinding { code: TermKey::Enter, modifiers: MOD_ALT }]
    &&& p.direct_new_terminal_maximized@ =~= seq![KeyBinding { code: TermKey::Enter, modifiers: (MOD_ALT | MOD_SHIFT) }]
    &&& p.direct_settings@ =~= if macos {
        seq![KeyBinding { code: TermKey::Char('s'), modifiers: MOD_ALT }, KeyBinding { code: TermKey::Char('\u{df}'), modifiers: 0u8 }]
    } else {
        seq![KeyBinding { code: TermKey::Char('s'), modifiers: MOD_ALT }]
    }
}

/// The profiles by name, in cycling order
pub open spec fn profile_name(i: int) -> Seq<char> {
    if i == 0 {
        "term39"@
    } else {
        "hyprland"@
    }
}

/// Where a name stands in the profile list (0, the first, when unknown)
pub open spec fn profile_index(name: Seq<char>) -> int {
    if name == "hyprland"@ {
        1
    } else {
        0
    }
}

fn profile_index_of(name: &str) -> (i: usize)
    ensures
        i == profile_index(name@),
{
    let v = chars_of(name);
    proof {
        reveal_strlit("hyprland");
    }
    if v.len() == 8 && v[0] == 'h' && v[1] == 'y' && v[2] == 'p' && v[3] == 'r' && v[4] == 'l'
        && v[5] == 'a' && v[6] == 'n' && v[7] == 'd' {
        assert(v@ =~= "hyprland"@);
        1
    } else {
        assert(name@ != "hyprland"@) by {
            if name@ == "hyprland"@ {
                assert(v@[0] == 'h');
            }
        }
        0
    }
}

impl KeybindingProfile {
    /// The default profile: desktop shortcuts and a window mode, no direct
    /// Alt bindings
    pub fn term39() -> (p: Self)
        ensures
            p.name@ == "term39"@,
            term39_bindings(p),
            p.uses_window_mode,
    {
        KeybindingProfile {
            name: "term39".to_owned(),
            help: vec![key(TermKey::F(1)), key(TermKey::Char('?')), key(TermKey::Char('h'))],
            cycle_window: vec![key(TermKey::F(2)), alt(TermKey::Tab)],
            save_session: vec![key(TermKey::F(3))],
            copy: vec![key(TermKey::F(5))],
            paste: vec![key(TermKey::F(6))],
            new_terminal: vec![key(TermKey::F(7)), key(TermKey::Char('t'))],
            new_terminal_maximized: vec![key(TermKey::Char('T'))],
            toggle_window_mode: vec![key(TermKey::Char('`')), key(TermKey::F(8))],
            exit: vec![key(TermKey::Esc), key(TermKey::Char('q')), key(TermKey::F(10))],
            settings: vec![key(TermKey::Char('s'))],
            calendar: vec![key(TermKey::Char('c'))],
            about: vec![key(TermKey::Char('l'))],
            launcher: Vec::new(),
            lock_screen: vec![shift(TermKey::Char('Q'))],
            wm_focus_left: vec![key(TermKey::Char('h')), key(TermKey::Left)],
            wm_focus_down: vec![key(TermKey::Char('j')), key(TermKey::Down)],
            wm_focus_up: vec![key(TermKey::Char('k')), key(TermKey::Up)],
            wm_focus_right: vec![key(TermKey::Char('l')), key(TermKey::Right)],
            wm_snap_left: vec![shift(TermKey::Char('H')), shift(TermKey::Left)],
            wm_snap_down: vec![shift(TermKey::Char('J')), shift(TermKey::Down)],
            wm_snap_up: vec![shift(TermKey::Char('K')), shift(TermKey::Up)],
            wm_snap_right: vec![shift(TermKey::Char('L')), shift(TermKey::Right)],
            wm_enter_move: vec![key(TermKey::Char('m'))],
            wm_enter_resize: vec![key(TermKey::Char('r'))],
            wm_close: vec![key(TermKey::Char('x')), key(TermKey::Char('q'))],
            wm_maximize: vec![key(TermKey::Char('z')), key(TermKey::Char('+')), key(TermKey::Char(' '))],
            wm_minimize: vec![key(TermKey::Char('-')), key(TermKey::Char('_'))],
            wm_toggle_auto_tiling: vec![key(TermKey::Char('a'))],
            direct_close_window: Vec::new(),
            direct_focus_left: Vec::new(),
            direct_focus_down: Vec::new(),
            direct_focus_up: Vec::new(),
            direct_focus_right: Vec::new(),
            direct_snap_left: Vec::new(),
            direct_snap_down: Vec::new(),
            direct_snap_up: Vec::new(),
            direct_snap_right: Vec::new(),
            direct_maximize: Vec::new(),
            direct_toggle_auto_tiling: Vec::new(),
            direct_new_terminal: Vec::new(),
            direct_new_terminal_maximized: Vec::new(),
            direct_settings: Vec::new(),
            uses_window_mode: true,
        }
    }

    /// The Hyprland-style profile: Alt bindings that act from any focus.
    /// `macos` adds the characters that Option+letter types on macOS.
    pub fn hyprland(macos: bool) -> (p: Self)
        ensures
            p.name@ == "hyprland"@,
            hyprland_bindings(p, macos),
            !p.uses_window_mode,
    {
        let mut direct_close_window: Vec<KeyBinding> = vec![alt(TermKey::Char('q'))];
        let mut direct_focus_left: Vec<KeyBinding> = vec![alt(TermKey::Char('h'))];
        let mut direct_focus_down: Vec<KeyBinding> = vec![alt(TermKey::Char('j'))];
        let mut direct_focus_up: Vec<KeyBinding> = vec![alt(TermKey::Char('k'))];
        let mut direct_focus_right: Vec<KeyBinding> = vec![alt(TermKey::Char('l'))];
        let mut direct_snap_left: Vec<KeyBinding> = vec![alt_shift(TermKey::Char('H'))];
        let mut direct_snap_down: Vec<KeyBinding> = vec![alt_shift(TermKey::Char('J'))];
        let mut direct_snap_up: Vec<KeyBinding> = vec![alt_shift(TermKey::Char('K'))];
        let mut direct_snap_right: Vec<KeyBinding> = vec![alt_shift(TermKey::Char('L'))];
        let mut direct_maximize: Vec<KeyBinding> = vec![alt(TermKey::Char('f'))];
        let mut direct_toggle_auto_tiling: Vec<KeyBinding> = vec![alt(TermKey::Char('v'))];
        let mut direct_new_terminal: Vec<KeyBinding> = vec![alt(TermKey::Enter)];
        let mut direct_new_terminal_maximized: Vec<KeyBinding> = vec![alt_shift(TermKey::Enter)];
        let mut direct_settings: Vec<KeyBinding> = vec![alt(TermKey::Char('s'))];
        if macos {
            direct_focus_left.push(key(TermKey::Char('\u{2d9}')));
            direct_focus_down.push(key(TermKey::Char('\u{2206}')));
            direct_focus_up.push(key(TermKey::Char('\u{2da}')));
            direct_focus_right.push(key(TermKey::Char('\u{ac}')));
            direct_close_window.push(key(TermKey::Char('\u{153}')));
            direct_maximize.push(key(TermKey::Char('\u{192}')));
            direct_toggle_auto_tiling.push(key(TermKey::Char('\u{221a}')));
            direct_settings.push(key(TermKey::Char('\u{df}')));
            direct_snap_left.push(key(TermKey::Char('\u{d3}')));
            direct_snap_down.push(key(TermKey::Char('\u{d4}')));
            direct_snap_up.push(key(TermKey::Char('\u{f8ff}')));
            direct_snap_right.push(key(TermKey::Char('\u{d2}')));
        }
        KeybindingProfile {
            name: "hyprland".to_owned(),
            help: vec![key(TermKey::F(1)), key(TermKey::Char('?'))],
            cycle_window: vec![alt(TermKey::Tab), key(TermKey::F(2))],
            save_session: vec![key(TermKey::F(3))],
            copy: vec![key(TermKey::F(5))],
            paste: vec![key(TermKey::F(6))],
            new_terminal: vec![key(TermKey::Char('t'))],
            new_terminal_maximized: vec![key(TermKey::Char('T'))],
            toggle_window_mode: vec![key(TermKey::F(8))],
            exit: vec![key(TermKey::Esc), key(TermKey::F(10))],
            settings: vec![key(TermKey::Char('s'))],
            calendar: vec![key(TermKey::Char('c'))],
            about: vec![key(TermKey::Char('l'))],
            launcher: vec![alt(TermKey::Char(' '))],
            lock_screen: vec![shift(TermKey::Char('Q'))],
            wm_focus_left: vec![key(TermKey::Char('h')), key(TermKey::Left)],
            wm_focus_down: vec![key(TermKey::Char('j')), key(TermKey::Down)],
            wm_focus_up: vec![key(TermKey::Char('k')), key(TermKey::Up)],
            wm_focus_right: vec![key(TermKey::Char('l')), key(TermKey::Right)],
            wm_snap_left: vec![shift(TermKey::Char('H')), shift(TermKey::Left)],
            wm_snap_down: vec![shift(TermKey::Char('J')), shift(TermKey::Down)],
            wm_snap_up: vec![shift(TermKey::Char('K')), shift(TermKey::Up)],
            wm_snap_right: vec![shift(TermKey::Char('L')), shift(TermKey::Right)],
            wm_enter_move: vec![key(TermKey::Char('m'))],
            wm_enter_resize: vec![key(TermKey::Char('r'))],
            wm_close: vec![key(TermKey::Char('x')), key(TermKey::Char('q'))],
            wm_maximize: vec![key(TermKey::Char('z')), key(TermKey::Char('+')), key(TermKey::Char(' '))],
            wm_minimize: vec![key(TermKey::Char('-')), key(TermKey::Char('_'))],
            wm_toggle_auto_tiling: vec![key(TermKey::Char('a'))],
            direct_close_window,
            direct_focus_left,
            direct_focus_down,
            direct_focus_up,
            direct_focus_right,
            direct_snap_left,
            direct_snap_down,
            direct_snap_up,
            direct_snap_right,
            direct_maximize,
            direct_toggle_auto_tiling,
            direct_new_terminal,
            direct_new_terminal_maximized,
            direct_settings,
            uses_window_mode: false,
        }
    }

    /// The profile of a name, regardless of ASCII case; unknown names give
    /// the default profile
    pub fn from_name(name: &str, macos: bool) -> (p: Self)
        ensures
            ci_matches(name@, "hyprland"@) ==> p.name@ == "hyprland"@ && hyprland_bindings(p, macos),
            !ci_matches(name@, "hyprland"@) ==> p.name@ == "term39"@ && term39_bindings(p),
    {
        let v = chars_of(name);
        if ci_matches_exec(&v, "hyprland") {
            Self::hyprland(macos)
        } else {
            Self::term39()
        }
    }

    /// Names of all profiles, in cycling order
    pub fn all_names() -> (v: Vec<&'static str>)
        ensures
            v@.len() == 2,
            v@[0]@ == profile_name(0),
            v@[1]@ == profile_name(1),
    {
        vec!["term39", "hyprland"]
    }

    /// The profile after `current` (an unknown name counts as the first)
    pub fn next_name(current: &str) -> (n: &'static str)
        ensures
            n@ == profile_name((profile_index(current@) + 1) % 2),
    {
        let idx = profile_index_of(current);
        if (idx + 1) % 2 == 0 {
            "term39"
        } else {
            "hyprland"
        }
    }

    /// The profile before `current` (an unknown name counts as the first)
    pub fn prev_name(current: &str) -> (n: &'static str)
        ensures
            n@ == profile_name(if profile_index(current@) == 0 {
                1
            } else {
                profile_index(current@) - 1
            }),
    {
        let idx = profile_index_of(current);
        if idx == 0 {
            "hyprland"
        } else {
            "term39"
        }
    }

    /// Display name of a profile (that of the first for an unknown name)
    pub fn display_name(name: &str) -> (d: &'static str)
        ensures
            profile_index(name@) == 0 ==> d@ == "Term39"@,
            profile_index(name@) == 1 ==> d@ == "Hyprland"@,
    {
        let idx = profile_index_of(name);
        if idx == 0 {
            "Term39"
        } else {
            "Hyprland"
        }
    }

    /// Whether the profile has direct (any-focus) bindings
    pub fn has_direct_bindings(&self) -> (b: bool)
        ensures
            b == (self.direct_close_window@.len() > 0 || self.direct_focus_left@.len() > 0
                || self.direct_new_terminal@.len() > 0),
    {
        self.direct_close_window.len() > 0 || self.direct_focus_left.len() > 0
            || self.direct_new_terminal.len() > 0
    }
}

} // verus!
