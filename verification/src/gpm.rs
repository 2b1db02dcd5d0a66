//! Mouse events of the Linux console mouse daemon (GPM): decoding the raw
//! event records into button presses, drags, moves and wheel steps.

use vstd::prelude::*;

verus! {

/// Event type bits of a GPM event
pub const GPM_MOVE: i32 = 1;
pub const GPM_DRAG: i32 = 2;
pub const GPM_DOWN: i32 = 4;
pub const GPM_UP: i32 = 8;

/// Click-count bits, combined with the down and up bits
pub const GPM_DOUBLE: i32 = 32;
pub const GPM_TRIPLE: i32 = 64;

/// Button bits of a GPM event
pub const GPM_B_LEFT: u8 = 1;
pub const GPM_B_MIDDLE: u8 = 2;
pub const GPM_B_RIGHT: u8 = 4;
pub const GPM_B_FOURTH: u8 = 16;
pub const GPM_B_FIFTH: u8 = 32;

/// Modifier bits of a GPM event
pub const GPM_MOD_SHIFT: u8 = 1;
pub const GPM_MOD_CTRL: u8 = 4;
pub const GPM_MOD_META: u8 = 8;

/// Kind of a decoded mouse event
#[derive(Debug, Clone, Copy, PartialEq, Eq, Structural)]
pub enum GpmEventType {
    Move,
    Drag,
    Down,
    Up,
    ScrollUp,
    ScrollDown,
}

/// A mouse button
#[derive(Debug, Clone, Copy, PartialEq, Eq, Structural)]
pub enum GpmButton {
    Left,
    Middle,
    Right,
}

/// Single, double or triple click
#[derive(Debug, Clone, Copy, PartialEq, Eq, Structural)]
pub enum ClickCount {
    Single,
    Double,
    Triple,
}

/// A decoded mouse event, in 0-based screen cells
#[derive(Debug, Clone, Copy, PartialEq, Eq, Structural)]
pub struct GpmMouseEvent {
    pub x: u16,
    pub y: u16,
    pub event_type: GpmEventType,
    pub button: Option<GpmButton>,
    pub clicks: ClickCount,
    pub shift: bool,
    pub ctrl: bool,
    pub alt: bool,
}

/// The fields of a raw GPM event that decoding reads
#[derive(Debug, Clone, Copy, PartialEq, Eq, Structural)]
pub struct GpmRawEvent {
    pub buttons: u8,
    pub modifiers: u8,
    /// 1-based position
    pub x: i16,
    pub y: i16,
    pub event_type: i32,
}

/// A 1-based GPM coordinate as a 0-based cell (never below 0)
pub open spec fn screen_coord(v: i16) -> u16 {
    if v - 1 >= 0 {
        (v - 1) as u16
    } else {
        0
    }
}

/// Converts a 1-based GPM position to 0-based screen cells
pub fn gpm_to_screen_coords(x: i16, y: i16) -> (c: (u16, u16))
    requires
        x > i16::MIN,
        y > i16::MIN,
    ensures
        c == (screen_coord(x), screen_coord(y)),
{
    let cx = if x - 1 >= 0 {
        (x - 1) as u16
    } else {
        0
    };
    let cy = if y - 1 >= 0 {
        (y - 1) as u16
    } else {
        0
    };
    (cx, cy)
}

/// The button a raw event reports. GPM's left and right bits come out
/// swapped on common hardware, so its left bit stands for the right button
/// and its right bit for the left one.
pub open spec fn reported_button(buttons: u8) -> Option<GpmButton> {
    if buttons & GPM_B_LEFT != 0 {
        Some(GpmButton::Right)
    } else if buttons & GPM_B_MIDDLE != 0 {
        Some(GpmButton::Middle)
    } else if buttons & GPM_B_RIGHT != 0 {
        Some(GpmButton::Left)
    } else {
        None
    }
}

/// The kind of a raw event that is no wheel step, if it has one
pub open spec fn raw_kind(t: i32) -> Option<GpmEventType> {
    if t & GPM_DOWN != 0 {
        Some(GpmEventType::Down)
    } else if t & GPM_UP != 0 {
        Some(GpmEventType::Up)
    } else if t & GPM_DRAG != 0 {
        Some(GpmEventType::Drag)
    } else if t & GPM_MOVE != 0 {
        Some(GpmEventType::Move)
    } else {
        None
    }
}

/// Click count of a raw event
pub open spec fn raw_clicks(t: i32) -> ClickCount {
    if t & GPM_TRIPLE != 0 {
        ClickCount::Triple
    } else if t & GPM_DOUBLE != 0 {
        ClickCount::Double
    } else {
        ClickCount::Single
    }
}

/// What decoding a raw event gives, with the button pressed before (kept
/// so that a release or drag without a reported button names the one held):
/// the event, if any, and the button held afterwards
pub open spec fn gpm_decode(raw: GpmRawEvent, held: Option<GpmButton>) -> (Option<GpmMouseEvent>, Option<GpmButton>) {
    let (x, y) = (screen_coord(raw.x), screen_coord(raw.y));
    let shift = raw.modifiers & GPM_MOD_SHIFT != 0;
    let ctrl = raw.modifiers & GPM_MOD_CTRL != 0;
    let alt = raw.modifiers & GPM_MOD_META != 0;
    let wheel = |t: GpmEventType|
        GpmMouseEvent { x, y, event_type: t, button: None, clicks: ClickCount::Single, shift, ctrl, alt };
    if raw.buttons & GPM_B_FOURTH != 0 {
        (Some(wheel(GpmEventType::ScrollUp)), held)
    } else if raw.buttons & GPM_B_FIFTH != 0 {
        (Some(wheel(GpmEventType::ScrollDown)), held)
    } else {
        match raw_kind(raw.event_type) {
            None => (None, held),
            Some(kind) => {
                let rep = reported_button(raw.buttons);
                let (button, after) = match kind {
                    GpmEventType::Down => (rep, rep),
                    GpmEventType::Up => (if rep is Some { rep } else { held }, None),
                    GpmEventType::Drag => (if rep is Some { rep } else { held }, held),
                    _ => (rep, held),
                };
                (
                    Some(
                        GpmMouseEvent {
                            x,
                            y,
                            event_type: kind,
                            button,
                            clicks: raw_clicks(raw.event_type),
                            shift,
                            ctrl,
                            alt,
                        },
                    ),
                    after,
                )
            },
        }
    }
}

/// Turns the raw events of a GPM connection into mouse events, remembering
/// the button held between press and release
pub struct GpmEventDecoder {
    pub last_button: Option<GpmButton>,
}

impl GpmEventDecoder {
    /// A decoder with no button held
    pub fn new() -> (d: Self)
        ensures
            d.last_button is None,
    {
        GpmEventDecoder { last_button: None }
    }

    /// Decodes one raw event (none for events of no known kind)
    pub fn decode_event(&mut self, raw: GpmRawEvent) -> (e: Option<GpmMouseEvent>)
        requires
            raw.x > i16::MIN,
            raw.y > i16::MIN,
        ensures
            (e, final(self).last_button) == gpm_decode(raw, old(self).last_button),
    {
        let (x, y) = gpm_to_screen_coords(raw.x, raw.y);
        let buttons = raw.buttons;
        let shift = (raw.modifiers & GPM_MOD_SHIFT) != 0;
        let ctrl = (raw.modifiers & GPM_MOD_CTRL) != 0;
        let alt = (raw.modifiers & GPM_MOD_META) != 0;
        if (buttons & GPM_B_FOURTH) != 0 {
            return Some(
                GpmMouseEvent {
                    x,
                    y,
                    event_type: GpmEventType::ScrollUp,
                    button: None,
                    clicks: ClickCount::Single,
                    shift,
                    ctrl,
                    alt,
                },
            );
        }
        if (buttons & GPM_B_FIFTH) != 0 {
            return Some(
                GpmMouseEvent {
                    x,
                    y,
                    event_type: GpmEventType::ScrollDown,
                    button: None,
                    clicks: ClickCount::Single,
                    shift,
                    ctrl,
                    alt,
                },
            );
        }
        let t = raw.event_type;
        let event_type = if (t & GPM_DOWN) != 0 {
            GpmEventType::Down
        } else if (t & GPM_UP) != 0 {
            GpmEventType::Up
        } else if (t & GPM_DRAG) != 0 {
            GpmEventType::Drag
        } else if (t & GPM_MOVE) != 0 {
            GpmEventType::Move
        } else {
            return None;
        };
        let clicks = if (t & GPM_TRIPLE) != 0 {
            ClickCount::Triple
        } else if (t & GPM_DOUBLE) != 0 {
            ClickCount::Double
        } else {
            ClickCount::Single
        };
        let reported = if (buttons & GPM_B_LEFT) != 0 {
            Some(GpmButton::Right)
        } else if (buttons & GPM_B_MIDDLE) != 0 {
            Some(GpmButton::Middle)
        } else if (buttons & GPM_B_RIGHT) != 0 {
            Some(GpmButton::Left)
        } else {
            None
        };
        let button = match event_type {
            GpmEventType::Down => {
                self.last_button = reported;
                reported
            },
            GpmEventType::Up => {
                let b = if reported.is_some() {
                    reported
                } else {
                    self.last_button
                };
                self.last_button = None;
                b
            },
            GpmEventType::Drag => {
                if reported.is_some() {
                    reported
                } else {
                    self.last_button
                }
            },
            _ => reported,
        };
        Some(GpmMouseEvent { x, y, event_type, button, clicks, shift, ctrl, alt })
    }
}

} // verus!
