//! Modal keyboard control of windows (vim-like), snap layouts, and the
//! acceleration of repeated move/resize keys.

use vstd::prelude::*;
use crate::clock::{clock_now, millis_since};

verus! {

/// Sub-modes within Window Mode
#[derive(Clone, Copy, Debug, PartialEq, Eq, Structural)]
pub enum WindowSubMode {
    /// Navigation and quick actions
    Navigation,
    /// h/j/k/l moves the focused window
    Move,
    /// h/j/k/l resizes the focused window
    Resize(ResizeDirection),
}

/// Resize direction (the Shift modifier picks the edge)
#[derive(Clone, Copy, Debug, PartialEq, Eq, Structural)]
pub enum ResizeDirection {
    Default,
}

/// The keyboard mode of the application
#[derive(Clone, Copy, Debug, PartialEq, Eq, Structural)]
pub enum KeyboardMode {
    /// Keyboard input goes to the focused terminal
    Normal,
    /// Keyboard controls windows
    WindowMode(WindowSubMode),
}

/// The mode after the window-mode key: normal mode enters window
/// navigation, any window mode returns to normal
pub open spec fn toggled(m: KeyboardMode) -> KeyboardMode {
    match m {
        KeyboardMode::Normal => KeyboardMode::WindowMode(WindowSubMode::Navigation),
        KeyboardMode::WindowMode(_) => KeyboardMode::Normal,
    }
}

impl KeyboardMode {
    /// The initial mode
    pub fn default_mode() -> (m: Self)
        ensures
            m == KeyboardMode::Normal,
    {
        KeyboardMode::Normal
    }

    /// Whether any window mode is active
    pub fn is_window_mode(&self) -> (b: bool)
        ensures
            b == (*self is WindowMode),
    {
        match self {
            KeyboardMode::WindowMode(_) => true,
            KeyboardMode::Normal => false,
        }
    }

    /// The sub-mode, in window mode
    pub fn sub_mode(&self) -> (s: Option<WindowSubMode>)
        ensures
            s == match *self {
                KeyboardMode::WindowMode(sub) => Some(sub),
                KeyboardMode::Normal => None::<WindowSubMode>,
            },
    {
        match self {
            KeyboardMode::WindowMode(sub) => Some(*sub),
            KeyboardMode::Normal => None,
        }
    }

    /// Normal mode enters window navigation; any window mode returns to normal
    pub fn toggle(&mut self)
        ensures
            *final(self) == toggled(*old(self)),
    {
        *self = match self {
            KeyboardMode::Normal => KeyboardMode::WindowMode(WindowSubMode::Navigation),
            KeyboardMode::WindowMode(_) => KeyboardMode::Normal,
        };
    }

    /// Enter a sub-mode (only from window mode)
    pub fn enter_sub_mode(&mut self, sub_mode: WindowSubMode)
        ensures
            *old(self) is WindowMode ==> *final(self) == KeyboardMode::WindowMode(sub_mode),
            *old(self) == KeyboardMode::Normal ==> *final(self) == KeyboardMode::Normal,
    {
        if self.is_window_mode() {
            *self = KeyboardMode::WindowMode(sub_mode);
        }
    }

    /// Back to navigation (from move or resize)
    pub fn return_to_navigation(&mut self)
        ensures
            *old(self) is WindowMode ==> *final(self) == KeyboardMode::WindowMode(
                WindowSubMode::Navigation,
            ),
            *old(self) == KeyboardMode::Normal ==> *final(self) == KeyboardMode::Normal,
    {
        if self.is_window_mode() {
            *self = KeyboardMode::WindowMode(WindowSubMode::Navigation);
        }
    }

    /// Back to normal mode
    pub fn exit_to_normal(&mut self)
        ensures
            *final(self) == KeyboardMode::Normal,
    {
        *self = KeyboardMode::Normal;
    }

    /// Status-bar label of the mode
    pub fn label(&self) -> (s: &'static str)
        ensures
            *self == KeyboardMode::Normal ==> s@ == ""@,
            *self == KeyboardMode::WindowMode(WindowSubMode::Navigation) ==> s@ == "[WIN]"@,
            *self == KeyboardMode::WindowMode(WindowSubMode::Move) ==> s@ == "[WIN:MOVE]"@,
            (*self matches KeyboardMode::WindowMode(WindowSubMode::Resize(_))) ==> s@
                == "[WIN:SIZE]"@,
    {
        match self {
            KeyboardMode::Normal => "",
            KeyboardMode::WindowMode(WindowSubMode::Navigation) => "[WIN]",
            KeyboardMode::WindowMode(WindowSubMode::Move) => "[WIN:MOVE]",
            KeyboardMode::WindowMode(WindowSubMode::Resize(_)) => "[WIN:SIZE]",
        }
    }
}

/// Snap positions: numpad layout (7 8 9 / 4 5 6 / 1 2 3) and halves
#[derive(Clone, Copy, Debug, PartialEq, Eq, Structural)]
pub enum SnapPosition {
    BottomLeft,
    BottomCenter,
    BottomRight,
    MiddleLeft,
    Center,
    MiddleRight,
    TopLeft,
    TopCenter,
    TopRight,
    FullLeft,
    FullRight,
    FullTop,
    FullBottom,
}

/// Direction for spatial window navigation
#[derive(Clone, Copy, Debug, PartialEq, Eq, Structural)]
pub enum Direction {
    Left,
    Right,
    Up,
    Down,
}

/// A window rectangle: x, y, width, height
pub type Rect = (u16, u16, u16, u16);

/// The rectangle of a snap position on a screen of `w` x `h` cells whose
/// windows start at row `top` and end above a bottom bar
pub open spec fn snap_rect(p: SnapPosition, w: u16, h: u16, top: u16) -> Rect {
    let usable: int = if h >= top + 1 {
        h - (top + 1)
    } else {
        0
    };
    let hw: int = (w / 2) as int;
    let hh: int = usable / 2;
    let tw: int = (w / 3) as int;
    let th: int = usable / 3;
    let r: (int, int, int, int) = match p {
        SnapPosition::TopLeft => (0, top as int, hw, hh),
        SnapPosition::TopRight => (hw, top as int, w - hw, hh),
        SnapPosition::BottomLeft => (0, top + hh, hw, usable - hh),
        SnapPosition::BottomRight => (hw, top + hh, w - hw, usable - hh),
        SnapPosition::TopCenter => (tw, top as int, tw, hh),
        SnapPosition::BottomCenter => (tw, top + hh, tw, usable - hh),
        SnapPosition::MiddleLeft => (0, top + th, hw, th),
        SnapPosition::MiddleRight => (hw, top + th, hw, th),
        SnapPosition::Center => (tw, top + th, tw, th),
        SnapPosition::FullLeft => (0, top as int, hw, usable),
        SnapPosition::FullRight => (hw, top as int, w - hw, usable),
        SnapPosition::FullTop => (0, top as int, w as int, hh),
        SnapPosition::FullBottom => (0, top + hh, w as int, usable - hh),
    };
    (r.0 as u16, r.1 as u16, r.2 as u16, r.3 as u16)
}

impl SnapPosition {
    /// The position of a numpad digit
    pub fn from_numpad(key: char) -> (p: Option<Self>)
        ensures
            key == '1' ==> p == Some(SnapPosition::BottomLeft),
            key == '2' ==> p == Some(SnapPosition::BottomCenter),
            key == '3' ==> p == Some(SnapPosition::BottomRight),
            key == '4' ==> p == Some(SnapPosition::MiddleLeft),
            key == '5' ==> p == Some(SnapPosition::Center),
            key == '6' ==> p == Some(SnapPosition::MiddleRight),
            key == '7' ==> p == Some(SnapPosition::TopLeft),
            key == '8' ==> p == Some(SnapPosition::TopCenter),
            key == '9' ==> p == Some(SnapPosition::TopRight),
            !('1' <= key <= '9') ==> p is None,
    {
        match key {
            '1' => Some(SnapPosition::BottomLeft),
            '2' => Some(SnapPosition::BottomCenter),
            '3' => Some(SnapPosition::BottomRight),
            '4' => Some(SnapPosition::MiddleLeft),
            '5' => Some(SnapPosition::Center),
            '6' => Some(SnapPosition::MiddleRight),
            '7' => Some(SnapPosition::TopLeft),
            '8' => Some(SnapPosition::TopCenter),
            '9' => Some(SnapPosition::TopRight),
            _ => None,
        }
    }

    /// The window rectangle (x, y, width, height) of this position on a
    /// screen of `buffer_width` x `buffer_height` whose windows start at
    /// row `top_bar_y` and end above the bottom bar
    pub fn calculate_rect(&self, buffer_width: u16, buffer_height: u16, top_bar_y: u16) -> (r: Rect)
        requires
            top_bar_y < u16::MAX,
        ensures
            r == snap_rect(*self, buffer_width, buffer_height, top_bar_y),
    {
        let usable_height = if buffer_height >= top_bar_y + 1 {
            buffer_height - (top_bar_y + 1)
        } else {
            0
        };
        let half_width = buffer_width / 2;
        let half_height = usable_height / 2;
        let third_width = buffer_width / 3;
        let third_height = usable_height / 3;
        match self {
            SnapPosition::TopLeft => (0, top_bar_y, half_width, half_height),
            SnapPosition::TopRight => (half_width, top_bar_y, buffer_width - half_width, half_height),
            SnapPosition::BottomLeft => (
                0,
                top_bar_y + half_height,
                half_width,
                usable_height - half_height,
            ),
            SnapPosition::BottomRight => (
                half_width,
                top_bar_y + half_height,
                buffer_width - half_width,
                usable_height - half_height,
            ),
            SnapPosition::TopCenter => (third_width, top_bar_y, third_width, half_height),
            SnapPosition::BottomCenter => (
                third_width,
                top_bar_y + half_height,
                third_width,
                usable_height - half_height,
            ),
            SnapPosition::MiddleLeft => (0, top_bar_y + third_height, half_width, third_height),
            SnapPosition::MiddleRight => (
                half_width,
                top_bar_y + third_height,
                half_width,
                third_height,
            ),
            SnapPosition::Center => (third_width, top_bar_y + third_height, third_width, third_height),
            SnapPosition::FullLeft => (0, top_bar_y, half_width, usable_height),
            SnapPosition::FullRight => (half_width, top_bar_y, buffer_width - half_width, usable_height),
            SnapPosition::FullTop => (0, top_bar_y, buffer_width, half_height),
            SnapPosition::FullBottom => (
                0,
                top_bar_y + half_height,
                buffer_width,
                usable_height - half_height,
            ),
        }
    }
}

/// Step size of a move/resize key pressed `elapsed` milliseconds after the
/// previous one (or the first press): 1 when slow or first, then 2, 4 and 8
/// as presses come faster
pub open spec fn step_for(elapsed: Option<u64>) -> u16 {
    match elapsed {
        None => 1,
        Some(ms) => if ms <= 50 {
            8
        } else if ms <= 100 {
            4
        } else if ms <= 200 {
            2
        } else {
            1
        },
    }
}

/// Step size for the time since the previous press
pub fn step_for_elapsed(elapsed: Option<u64>) -> (s: u16)
    ensures
        s == step_for(elapsed),
{
    match elapsed {
        None => 1,
        Some(ms) => {
            if ms <= 50 {
                8
            } else if ms <= 100 {
                4
            } else if ms <= 200 {
                2
            } else {
                1
            }
        },
    }
}

/// Tracks the timing of move/resize key presses, in milliseconds since
/// the state was created
pub struct MovementState {
    pub last_press: Option<u64>,
    pub clock_origin: std::time::Instant,
}

impl MovementState {
    /// No press yet
    pub fn new() -> (m: Self)
        ensures
            m.last_press is None,
    {
        MovementState { last_press: None, clock_origin: clock_now() }
    }

    /// Step size for a press now, which becomes the last press
    pub fn get_step(&mut self) -> (s: u16)
        ensures
            final(self).last_press is Some,
            final(self).clock_origin == old(self).clock_origin,
            s == step_for(
                match old(self).last_press {
                    None => None::<u64>,
                    Some(last) => Some(
                        if final(self).last_press->0 >= last {
                            (final(self).last_press->0 - last) as u64
                        } else {
                            0
                        },
                    ),
                },
            ),
            old(self).last_press is None ==> s == 1,
            1 <= s <= 8,
    {
        let now = millis_since(&self.clock_origin);
        self.get_step_at(now)
    }

    /// Step size for a press at time `now`, which becomes the last press
    pub fn get_step_at(&mut self, now: u64) -> (s: u16)
        ensures
            s == step_for(
                match old(self).last_press {
                    None => None::<u64>,
                    Some(last) => Some(if now >= last { (now - last) as u64 } else { 0 }),
                },
            ),
            final(self).last_press == Some(now),
            final(self).clock_origin == old(self).clock_origin,
    {
        let elapsed = match self.last_press {
            None => None,
            Some(last) => Some(if now >= last { now - last } else { 0 }),
        };
        self.last_press = Some(now);
        step_for_elapsed(elapsed)
    }

    /// Forget the last press
    pub fn reset(&mut self)
        ensures
            final(self).last_press is None,
            final(self).clock_origin == old(self).clock_origin,
    {
        self.last_press = None;
    }
}

} // verus!
