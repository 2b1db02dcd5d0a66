//! Raw mouse protocols of the console: PS/2 packets, FreeBSD sysmouse
//! packets, and the Linux evdev and NetBSD/OpenBSD wscons event streams,
//! decoded into movement, wheel and button events.

use vstd::prelude::*;

verus! {

/// Which buttons are held
#[derive(Debug, Clone, Copy, PartialEq, Eq, Structural)]
pub struct MouseButtons {
    pub left: bool,
    pub right: bool,
    pub middle: bool,
}

/// Movement since the last event, wheel steps and the buttons held
#[derive(Debug, Clone, Copy, PartialEq, Eq, Structural)]
pub struct MouseEvent {
    pub dx: i8,
    pub dy: i8,
    pub buttons: MouseButtons,
    /// Wheel steps, positive away from the user
    pub scroll: i8,
    /// Horizontal wheel steps, positive to the right
    pub scroll_h: i8,
}

/// The mouse reports of the framebuffer backend have the same fields
pub type FramebufferMouseEvent = MouseEvent;

/// No button held
pub open spec fn no_buttons() -> MouseButtons {
    MouseButtons { left: false, right: false, middle: false }
}

/// A value limited to -127..=127
pub open spec fn clamp127(v: int) -> i8 {
    if v < -127 {
        -127i8
    } else if v > 127 {
        127i8
    } else {
        v as i8
    }
}

fn clamp_i32(v: i32) -> (r: i8)
    ensures
        r == clamp127(v as int),
{
    if v < -127 {
        -127
    } else if v > 127 {
        127
    } else {
        v as i8
    }
}

/// A byte read as a two's-complement signed value
pub open spec fn signed_byte(b: u8) -> i8 {
    if b < 128 {
        b as i8
    } else {
        (b - 256) as i8
    }
}

fn to_signed(b: u8) -> (r: i8)
    ensures
        r == signed_byte(b),
{
    if b < 128 {
        b as i8
    } else {
        (b as i16 - 256) as i8
    }
}

/// A PS/2 mouse packet as read: at least three bytes (buttons, x, y), and a
/// fourth with the wheel on IntelliMouse devices (negated, so that positive
/// is away from the user)
pub open spec fn ps2_event(buf: Seq<u8>) -> Option<MouseEvent> {
    if buf.len() >= 3 {
        Some(
            MouseEvent {
                dx: signed_byte(buf[1]),
                dy: signed_byte(buf[2]),
                buttons: MouseButtons {
                    left: buf[0] & 1 != 0,
                    right: buf[0] & 2 != 0,
                    middle: buf[0] & 4 != 0,
                },
                scroll: if buf.len() == 4 {
                    (-signed_byte(buf[3])) as i8
                } else {
                    0
                },
                scroll_h: 0,
            },
        )
    } else {
        None
    }
}

/// Decodes the bytes of one read from a PS/2 mouse device (up to four);
/// fewer than three bytes are an incomplete packet
pub fn parse_ps2_packet(buf: &[u8]) -> (e: Option<MouseEvent>)
    requires
        buf@.len() <= 4,
        buf@.len() == 4 ==> buf@[3] != 128,
    ensures
        e == ps2_event(buf@),
{
    if buf.len() < 3 {
        return None;
    }
    let b0 = buf[0];
    let buttons = MouseButtons { left: (b0 & 1) != 0, right: (b0 & 2) != 0, middle: (b0 & 4) != 0 };
    let dx = to_signed(buf[1]);
    let dy = to_signed(buf[2]);
    let scroll = if buf.len() == 4 {
        let w = to_signed(buf[3]);
        -w
    } else {
        0
    };
    Some(MouseEvent { dx, dy, buttons, scroll, scroll_h: 0 })
}

/// A sysmouse packet (FreeBSD) as read: buttons active-low (bit 2 left,
/// bit 1 middle, bit 0 right), x and y, and a little-endian 16-bit wheel
/// count in bytes 3 and 4
pub open spec fn sysmouse_event(buf: Seq<u8>) -> Option<MouseEvent> {
    if buf.len() >= 5 {
        let raw = buf[3] as int + 256 * buf[4] as int;
        let wheel = if raw >= 32768 {
            raw - 65536
        } else {
            raw
        };
        Some(
            MouseEvent {
                dx: signed_byte(buf[1]),
                dy: signed_byte(buf[2]),
                buttons: MouseButtons {
                    left: buf[0] & 4 == 0,
                    middle: buf[0] & 2 == 0,
                    right: buf[0] & 1 == 0,
                },
                scroll: clamp127(wheel),
                scroll_h: 0,
            },
        )
    } else {
        None
    }
}

/// Decodes the bytes of one read from a sysmouse device (up to eight);
/// fewer than five bytes are an incomplete packet
pub fn parse_sysmouse_packet(buf: &[u8]) -> (e: Option<MouseEvent>)
    ensures
        e == sysmouse_event(buf@),
{
    if buf.len() < 5 {
        return None;
    }
    let b0 = buf[0];
    let buttons = MouseButtons { left: (b0 & 4) == 0, middle: (b0 & 2) == 0, right: (b0 & 1) == 0 };
    let dx = to_signed(buf[1]);
    let dy = to_signed(buf[2]);
    let raw: i32 = buf[3] as i32 + 256 * (buf[4] as i32);
    let wheel: i32 = if raw >= 32768 {
        raw - 65536
    } else {
        raw
    };
    let scroll = clamp_i32(wheel);
    Some(MouseEvent { dx, dy, buttons, scroll, scroll_h: 0 })
}

/// Event types and codes of the Linux input layer
pub const EV_KEY: u16 = 0x01;
pub const EV_REL: u16 = 0x02;
pub const REL_X: u16 = 0x00;
pub const REL_Y: u16 = 0x01;
pub const REL_HWHEEL: u16 = 0x06;
pub const REL_WHEEL: u16 = 0x08;
pub const BTN_LEFT: u16 = 0x110;
pub const BTN_RIGHT: u16 = 0x111;
pub const BTN_MIDDLE: u16 = 0x112;

/// Movement, wheel steps and button changes gathered from evdev events
/// until they are reported
#[derive(Debug, Clone, Copy, PartialEq, Eq, Structural)]
pub struct EvdevAccumulator {
    pub dx: i32,
    pub dy: i32,
    pub scroll: i32,
    pub scroll_h: i32,
    pub buttons: MouseButtons,
    pub button_changed: bool,
}

/// Whether anything waits to be reported
pub open spec fn evdev_pending(a: EvdevAccumulator) -> bool {
    a.dx != 0 || a.dy != 0 || a.scroll != 0 || a.scroll_h != 0 || a.button_changed
}

/// The state after one evdev event is taken in, before any report
pub open spec fn evdev_absorb(a: EvdevAccumulator, type_: u16, code: u16, value: i32) -> EvdevAccumulator {
    if type_ == EV_REL {
        if code == REL_X {
            EvdevAccumulator { dx: (a.dx + value) as i32, ..a }
        } else if code == REL_Y {
            EvdevAccumulator { dy: (a.dy + value) as i32, ..a }
        } else if code == REL_WHEEL {
            EvdevAccumulator { scroll: (a.scroll + value) as i32, ..a }
        } else if code == REL_HWHEEL {
            EvdevAccumulator { scroll_h: (a.scroll_h + value) as i32, ..a }
        } else {
            a
        }
    } else if type_ == EV_KEY {
        let b = if code == BTN_LEFT {
            MouseButtons { left: value != 0, ..a.buttons }
        } else if code == BTN_RIGHT {
            MouseButtons { right: value != 0, ..a.buttons }
        } else if code == BTN_MIDDLE {
            MouseButtons { middle: value != 0, ..a.buttons }
        } else {
            a.buttons
        };
        EvdevAccumulator { buttons: b, button_changed: a.button_changed || b != a.buttons, ..a }
    } else {
        a
    }
}

/// The event that reports everything gathered
pub open spec fn evdev_report(a: EvdevAccumulator) -> MouseEvent {
    MouseEvent {
        dx: clamp127(a.dx as int),
        dy: clamp127(a.dy as int),
        buttons: a.buttons,
        scroll: clamp127(a.scroll as int),
        scroll_h: clamp127(a.scroll_h as int),
    }
}

/// The state after a report: nothing gathered, the buttons kept
pub open spec fn evdev_cleared(a: EvdevAccumulator) -> EvdevAccumulator {
    EvdevAccumulator { dx: 0, dy: 0, scroll: 0, scroll_h: 0, button_changed: false, ..a }
}

/// An evdev sum stays within `i32`
pub open spec fn evdev_fits(a: EvdevAccumulator, type_: u16, code: u16, value: i32) -> bool {
    type_ == EV_REL ==> {
        &&& code == REL_X ==> i32::MIN <= a.dx + value <= i32::MAX
        &&& code == REL_Y ==> i32::MIN <= a.dy + value <= i32::MAX
        &&& code == REL_WHEEL ==> i32::MIN <= a.scroll + value <= i32::MAX
        &&& code == REL_HWHEEL ==> i32::MIN <= a.scroll_h + value <= i32::MAX
    }
}

impl EvdevAccumulator {
    /// Nothing gathered, no button held
    pub fn new() -> (a: Self)
        ensures
            a == (EvdevAccumulator { dx: 0, dy: 0, scroll: 0, scroll_h: 0, buttons: no_buttons(), button_changed: false }),
    {
        EvdevAccumulator {
            dx: 0,
            dy: 0,
            scroll: 0,
            scroll_h: 0,
            buttons: MouseButtons { left: false, right: false, middle: false },
            button_changed: false,
        }
    }

    /// Reports and clears what was gathered, if anything
    pub fn flush(&mut self) -> (e: Option<MouseEvent>)
        ensures
            evdev_pending(*old(self)) ==> e == Some(evdev_report(*old(self))) && *final(self)
                == evdev_cleared(*old(self)),
            !evdev_pending(*old(self)) ==> e is None && *final(self) == *old(self),
    {
        if self.dx != 0 || self.dy != 0 || self.scroll != 0 || self.scroll_h != 0 || self.button_changed {
            let e = MouseEvent {
                dx: clamp_i32(self.dx),
                dy: clamp_i32(self.dy),
                buttons: self.buttons,
                scroll: clamp_i32(self.scroll),
                scroll_h: clamp_i32(self.scroll_h),
            };
            self.dx = 0;
            self.dy = 0;
            self.scroll = 0;
            self.scroll_h = 0;
            self.button_changed = false;
            Some(e)
        } else {
            None
        }
    }

    /// Takes in one evdev event (type, code, value) and reports what has
    /// been gathered whenever anything is pending afterwards
    pub fn feed_event(&mut self, type_: u16, code: u16, value: i32) -> (e: Option<MouseEvent>)
        requires
            evdev_fits(*old(self), type_, code, value),
        ensures
            ({
                let a = evdev_absorb(*old(self), type_, code, value);
                &&& evdev_pending(a) ==> e == Some(evdev_report(a)) && *final(self) == evdev_cleared(a)
                &&& !evdev_pending(a) ==> e is None && *final(self) == a
            }),
    {
        if type_ == EV_REL {
            if code == REL_X {
                self.dx = self.dx + value;
            } else if code == REL_Y {
                self.dy = self.dy + value;
            } else if code == REL_WHEEL {
                self.scroll = self.scroll + value;
            } else if code == REL_HWHEEL {
                self.scroll_h = self.scroll_h + value;
            }
        } else if type_ == EV_KEY {
            let old_buttons = self.buttons;
            if code == BTN_LEFT {
                self.buttons.left = value != 0;
            } else if code == BTN_RIGHT {
                self.buttons.right = value != 0;
            } else if code == BTN_MIDDLE {
                self.buttons.middle = value != 0;
            }
            if self.buttons.left != old_buttons.left || self.buttons.right != old_buttons.right
                || self.buttons.middle != old_buttons.middle {
                self.button_changed = true;
            }
        }
        self.flush()
    }
}

/// Event types of the wscons mouse protocol
pub const WSCONS_EVENT_MOUSE_DELTA_X: u32 = 0;
pub const WSCONS_EVENT_MOUSE_DELTA_Y: u32 = 1;
pub const WSCONS_EVENT_MOUSE_DELTA_Z: u32 = 2;
pub const WSCONS_EVENT_MOUSE_DELTA_W: u32 = 3;
pub const WSCONS_EVENT_MOUSE_UP: u32 = 8;
pub const WSCONS_EVENT_MOUSE_DOWN: u32 = 9;

/// Movement, wheel steps and buttons gathered from a burst of wscons events
#[derive(Debug, Clone, Copy, PartialEq, Eq, Structural)]
pub struct WsconsAccumulator {
    pub dx: i32,
    pub dy: i32,
    pub scroll: i32,
    pub scroll_h: i32,
    pub buttons: MouseButtons,
    pub had_event: bool,
}

/// Buttons after a press (`down`) or release of button number `n` (0 left,
/// 1 middle, 2 right)
pub open spec fn wscons_button(b: MouseButtons, n: i32, down: bool) -> MouseButtons {
    if n == 0 {
        MouseButtons { left: down, ..b }
    } else if n == 1 {
        MouseButtons { middle: down, ..b }
    } else if n == 2 {
        MouseButtons { right: down, ..b }
    } else {
        b
    }
}

/// The state after one wscons event; vertical movement is negated so that
/// positive is up, as in the PS/2 protocol
pub open spec fn wscons_absorb(a: WsconsAccumulator, t: u32, value: i32) -> WsconsAccumulator {
    if t == WSCONS_EVENT_MOUSE_DELTA_X {
        WsconsAccumulator { dx: (a.dx + value) as i32, had_event: true, ..a }
    } else if t == WSCONS_EVENT_MOUSE_DELTA_Y {
        WsconsAccumulator { dy: (a.dy - value) as i32, had_event: true, ..a }
    } else if t == WSCONS_EVENT_MOUSE_DELTA_Z {
        WsconsAccumulator { scroll: (a.scroll + value) as i32, had_event: true, ..a }
    } else if t == WSCONS_EVENT_MOUSE_DELTA_W {
        WsconsAccumulator { scroll_h: (a.scroll_h + value) as i32, had_event: true, ..a }
    } else if t == WSCONS_EVENT_MOUSE_DOWN {
        WsconsAccumulator { buttons: wscons_button(a.buttons, value, true), had_event: true, ..a }
    } else if t == WSCONS_EVENT_MOUSE_UP {
        WsconsAccumulator { buttons: wscons_button(a.buttons, value, false), had_event: true, ..a }
    } else {
        a
    }
}

/// A wscons sum stays within `i32`
pub open spec fn wscons_fits(a: WsconsAccumulator, t: u32, value: i32) -> bool {
    &&& t == WSCONS_EVENT_MOUSE_DELTA_X ==> i32::MIN <= a.dx + value <= i32::MAX
    &&& t == WSCONS_EVENT_MOUSE_DELTA_Y ==> i32::MIN <= a.dy - value <= i32::MAX
    &&& t == WSCONS_EVENT_MOUSE_DELTA_Z ==> i32::MIN <= a.scroll + value <= i32::MAX
    &&& t == WSCONS_EVENT_MOUSE_DELTA_W ==> i32::MIN <= a.scroll_h + value <= i32::MAX
}

impl WsconsAccumulator {
    /// The start of a burst, with the buttons held so far
    pub fn new(buttons: MouseButtons) -> (a: Self)
        ensures
            a == (WsconsAccumulator { dx: 0, dy: 0, scroll: 0, scroll_h: 0, buttons, had_event: false }),
    {
        WsconsAccumulator { dx: 0, dy: 0, scroll: 0, scroll_h: 0, buttons, had_event: false }
    }

    /// Takes in one wscons event (type, value)
    pub fn feed_event(&mut self, t: u32, value: i32)
        requires
            wscons_fits(*old(self), t, value),
        ensures
            *final(self) == wscons_absorb(*old(self), t, value),
    {
        if t == WSCONS_EVENT_MOUSE_DELTA_X {
            self.dx = self.dx + value;
            self.had_event = true;
        } else if t == WSCONS_EVENT_MOUSE_DELTA_Y {
            self.dy = self.dy - value;
            self.had_event = true;
        } else if t == WSCONS_EVENT_MOUSE_DELTA_Z {
            self.scroll = self.scroll + value;
            self.had_event = true;
        } else if t == WSCONS_EVENT_MOUSE_DELTA_W {
            self.scroll_h = self.scroll_h + value;
            self.had_event = true;
        } else if t == WSCONS_EVENT_MOUSE_DOWN || t == WSCONS_EVENT_MOUSE_UP {
            let down = t == WSCONS_EVENT_MOUSE_DOWN;
            if value == 0 {
                self.buttons.left = down;
            } else if value == 1 {
                self.buttons.middle = down;
            } else if value == 2 {
                self.buttons.right = down;
            }
            self.had_event = true;
        }
    }

    /// The event of the burst, if it had any event
    pub fn finish(&self) -> (e: Option<MouseEvent>)
        ensures
            self.had_event ==> e == Some(
                MouseEvent {
                    dx: clamp127(self.dx as int),
                    dy: clamp127(self.dy as int),
                    buttons: self.buttons,
                    scroll: clamp127(self.scroll as int),
                    scroll_h: clamp127(self.scroll_h as int),
                },
            ),
            !self.had_event ==> e is None,
    {
        if self.had_event {
            Some(
                MouseEvent {
                    dx: clamp_i32(self.dx),
                    dy: clamp_i32(self.dy),
                    buttons: self.buttons,
                    scroll: clamp_i32(self.scroll),
                    scroll_h: clamp_i32(self.scroll_h),
                },
            )
        } else {
            None
        }
    }
}

} // verus!
