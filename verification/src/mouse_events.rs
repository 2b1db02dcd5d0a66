//! Screen mouse events made from raw console mouse input: button presses
//! and releases from changes of the held buttons, drags and moves from
//! movement, and one wheel event per wheel step; and the events that the
//! framebuffer backend reports by number.

use vstd::prelude::*;
use std::collections::VecDeque;
use crate::mouse::{MouseButtons, MouseEvent};
use crate::selection::{MouseBtn, MouseKind};

verus! {

/// A mouse event at a cell of the screen
#[derive(Debug, Clone, Copy, PartialEq, Eq, Structural)]
pub struct PointerEvent {
    pub kind: MouseKind,
    pub column: u16,
    pub row: u16,
}

pub open spec fn at(kind: MouseKind, column: u16, row: u16) -> PointerEvent {
    PointerEvent { kind, column, row }
}

/// One event where the condition holds, none otherwise
pub open spec fn when(c: bool, e: PointerEvent) -> Seq<PointerEvent> {
    if c {
        seq![e]
    } else {
        Seq::empty()
    }
}

/// The buttons as the user means them: left and right exchanged when the
/// buttons are swapped
pub open spec fn effective_buttons(b: MouseButtons, swap: bool) -> MouseButtons {
    if swap {
        MouseButtons { left: b.right, right: b.left, middle: b.middle }
    } else {
        b
    }
}

/// A press for each button that is held now and was not before: left,
/// right, middle
pub open spec fn press_events(
    prev: MouseButtons,
    cur: MouseButtons,
    col: u16,
    row: u16,
) -> Seq<PointerEvent> {
    when(cur.left && !prev.left, at(MouseKind::Down(MouseBtn::Left), col, row)) + when(
        cur.right && !prev.right,
        at(MouseKind::Down(MouseBtn::Right), col, row),
    ) + when(cur.middle && !prev.middle, at(MouseKind::Down(MouseBtn::Middle), col, row))
}

/// A release for each button that was held before and is not now: left,
/// right, middle
pub open spec fn release_events(
    prev: MouseButtons,
    cur: MouseButtons,
    col: u16,
    row: u16,
) -> Seq<PointerEvent> {
    when(!cur.left && prev.left, at(MouseKind::Up(MouseBtn::Left), col, row)) + when(
        !cur.right && prev.right,
        at(MouseKind::Up(MouseBtn::Right), col, row),
    ) + when(!cur.middle && prev.middle, at(MouseKind::Up(MouseBtn::Middle), col, row))
}

/// On movement: a drag of the first button (left, right, middle) that was
/// held before and still is, else a plain move; nothing without movement
pub open spec fn motion_events(
    prev: MouseButtons,
    cur: MouseButtons,
    moved: bool,
    col: u16,
    row: u16,
) -> Seq<PointerEvent> {
    if !moved {
        Seq::empty()
    } else if cur.left && prev.left {
        seq![at(MouseKind::Drag(MouseBtn::Left), col, row)]
    } else if cur.right && prev.right {
        seq![at(MouseKind::Drag(MouseBtn::Right), col, row)]
    } else if cur.middle && prev.middle {
        seq![at(MouseKind::Drag(MouseBtn::Middle), col, row)]
    } else {
        seq![at(MouseKind::Moved, col, row)]
    }
}

/// One wheel event per step: up for positive steps, down for negative ones
pub open spec fn scroll_events(scroll: int, col: u16, row: u16) -> Seq<PointerEvent> {
    if scroll > 0 {
        Seq::new(scroll as nat, |i: int| at(MouseKind::ScrollUp, col, row))
    } else if scroll < 0 {
        Seq::new((-scroll) as nat, |i: int| at(MouseKind::ScrollDown, col, row))
    } else {
        Seq::empty()
    }
}

/// The events of one raw report at the given cell: presses, releases,
/// motion, wheel, in that order
pub open spec fn raw_events(
    prev: MouseButtons,
    raw: MouseEvent,
    col: u16,
    row: u16,
    swap: bool,
) -> Seq<PointerEvent> {
    let cur = effective_buttons(raw.buttons, swap);
    press_events(prev, cur, col, row) + release_events(prev, cur, col, row) + motion_events(
        prev,
        cur,
        raw.dx != 0 || raw.dy != 0,
        col,
        row,
    ) + scroll_events(raw.scroll as int, col, row)
}

/// Turns raw reports into screen events and hands them out in order
pub struct MouseEventQueue {
    /// The buttons held at the last report, as the user means them
    pub prev_buttons: MouseButtons,
    /// Left and right are exchanged
    pub swap_buttons: bool,
    pub event_queue: VecDeque<PointerEvent>,
}

fn push_when(q: &mut VecDeque<PointerEvent>, c: bool, e: PointerEvent)
    ensures
        final(q)@ == old(q)@ + when(c, e),
{
    if c {
        q.push_back(e);
    }
    proof {
        if !c {
            assert(old(q)@ + when(c, e) =~= old(q)@);
        }
    }
}

proof fn lemma_concat_four<T>(q: Seq<T>, a: Seq<T>, b: Seq<T>, c: Seq<T>, d: Seq<T>)
    ensures
        q + a + b + c + d == q + (a + b + c + d),
{
    assert(q + a + b + c + d =~= q + (a + b + c + d));
}

fn push_edges(q: &mut VecDeque<PointerEvent>, prev: MouseButtons, cur: MouseButtons, col: u16, row: u16)
    ensures
        final(q)@ == old(q)@ + press_events(prev, cur, col, row) + release_events(prev, cur, col, row),
{
    let ghost q0 = q@;
    push_when(q, cur.left && !prev.left, PointerEvent { kind: MouseKind::Down(MouseBtn::Left), column: col, row });
    push_when(q, cur.right && !prev.right, PointerEvent { kind: MouseKind::Down(MouseBtn::Right), column: col, row });
    push_when(q, cur.middle && !prev.middle, PointerEvent { kind: MouseKind::Down(MouseBtn::Middle), column: col, row });
    assert(q@ =~= q0 + press_events(prev, cur, col, row));
    let ghost q1 = q@;
    push_when(q, !cur.left && prev.left, PointerEvent { kind: MouseKind::Up(MouseBtn::Left), column: col, row });
    push_when(q, !cur.right && prev.right, PointerEvent { kind: MouseKind::Up(MouseBtn::Right), column: col, row });
    push_when(q, !cur.middle && prev.middle, PointerEvent { kind: MouseKind::Up(MouseBtn::Middle), column: col, row });
    assert(q@ =~= q1 + release_events(prev, cur, col, row));
}

fn push_motion(
    q: &mut VecDeque<PointerEvent>,
    prev: MouseButtons,
    cur: MouseButtons,
    moved: bool,
    col: u16,
    row: u16,
)
    ensures
        final(q)@ == old(q)@ + motion_events(prev, cur, moved, col, row),
{
    if moved {
        let kind = if cur.left && prev.left {
            MouseKind::Drag(MouseBtn::Left)
        } else if cur.right && prev.right {
            MouseKind::Drag(MouseBtn::Right)
        } else if cur.middle && prev.middle {
            MouseKind::Drag(MouseBtn::Middle)
        } else {
            MouseKind::Moved
        };
        q.push_back(PointerEvent { kind, column: col, row });
    }
    assert(q@ =~= old(q)@ + motion_events(prev, cur, moved, col, row));
}

fn push_scroll(q: &mut VecDeque<PointerEvent>, scroll: i8, col: u16, row: u16)
    requires
        scroll > -128,
    ensures
        final(q)@ == old(q)@ + scroll_events(scroll as int, col, row),
{
    let ghost q1 = q@;
    if scroll > 0 {
        let mut i: i8 = 0;
        while i < scroll
            invariant
                0 <= i <= scroll,
                q@ =~= q1 + Seq::new(i as nat, |j: int| at(MouseKind::ScrollUp, col, row)),
            decreases scroll - i,
        {
            q.push_back(PointerEvent { kind: MouseKind::ScrollUp, column: col, row });
            i = i + 1;
        }
    } else if scroll < 0 {
        let n: i8 = -scroll;
        let mut i: i8 = 0;
        while i < n
            invariant
                0 <= i <= n,
                n == -scroll,
                q@ =~= q1 + Seq::new(i as nat, |j: int| at(MouseKind::ScrollDown, col, row)),
            decreases n - i,
        {
            q.push_back(PointerEvent { kind: MouseKind::ScrollDown, column: col, row });
            i = i + 1;
        }
    }
    assert(q@ =~= q1 + scroll_events(scroll as int, col, row));
}

impl MouseEventQueue {
    /// No button held and nothing queued
    pub fn new(swap_buttons: bool) -> (m: Self)
        ensures
            m.prev_buttons == (MouseButtons { left: false, right: false, middle: false }),
            m.swap_buttons == swap_buttons,
            m.event_queue@ == Seq::<PointerEvent>::empty(),
    {
        MouseEventQueue {
            prev_buttons: MouseButtons { left: false, right: false, middle: false },
            swap_buttons,
            event_queue: VecDeque::new(),
        }
    }

    /// Queues the events of one raw report at the given cell and remembers
    /// the buttons held
    pub fn generate_events(&mut self, raw: MouseEvent, col: u16, row: u16)
        requires
            raw.scroll > -128,
        ensures
            final(self).event_queue@ == old(self).event_queue@ + raw_events(
                old(self).prev_buttons,
                raw,
                col,
                row,
                old(self).swap_buttons,
            ),
            final(self).prev_buttons == effective_buttons(raw.buttons, old(self).swap_buttons),
            final(self).swap_buttons == old(self).swap_buttons,
    {
        let buttons = if self.swap_buttons {
            MouseButtons { left: raw.buttons.right, right: raw.buttons.left, middle: raw.buttons.middle }
        } else {
            raw.buttons
        };
        let prev = self.prev_buttons;
        let ghost q0 = self.event_queue@;
        let ghost a = press_events(prev, buttons, col, row);
        let ghost b = release_events(prev, buttons, col, row);
        let ghost c = motion_events(prev, buttons, raw.dx != 0 || raw.dy != 0, col, row);
        let ghost d = scroll_events(raw.scroll as int, col, row);
        push_edges(&mut self.event_queue, prev, buttons, col, row);
        push_motion(&mut self.event_queue, prev, buttons, raw.dx != 0 || raw.dy != 0, col, row);
        push_scroll(&mut self.event_queue, raw.scroll, col, row);
        proof {
            lemma_concat_four(q0, a, b, c, d);
            assert(raw_events(prev, raw, col, row, self.swap_buttons) == a + b + c + d);
        }
        self.prev_buttons = buttons;
    }

    /// The oldest queued event, taken from the queue; `None` when nothing
    /// is queued
    pub fn pop_event(&mut self) -> (e: Option<PointerEvent>)
        ensures
            old(self).event_queue@.len() == 0 ==> e is None && final(self).event_queue@ == old(
                self,
            ).event_queue@,
            old(self).event_queue@.len() > 0 ==> e == Some(old(self).event_queue@[0])
                && final(self).event_queue@ == old(self).event_queue@.drop_first(),
            final(self).prev_buttons == old(self).prev_buttons,
            final(self).swap_buttons == old(self).swap_buttons,
    {
        let e = self.event_queue.pop_front();
        proof {
            if old(self).event_queue@.len() > 0 {
                assert(self.event_queue@ =~= old(self).event_queue@.drop_first());
            }
        }
        e
    }
}

/// The button that a framebuffer button number stands for (0 left,
/// 1 right, 2 middle, others left), left and right exchanged when the
/// buttons are swapped
pub open spec fn fb_button(button_id: u8, swap: bool) -> MouseBtn {
    if button_id == 0 {
        if swap {
            MouseBtn::Right
        } else {
            MouseBtn::Left
        }
    } else if button_id == 1 {
        if swap {
            MouseBtn::Left
        } else {
            MouseBtn::Right
        }
    } else if button_id == 2 {
        MouseBtn::Middle
    } else {
        MouseBtn::Left
    }
}

/// A framebuffer button event: type 1 release, 2 drag, any other press
pub open spec fn fb_button_event(
    event_type: u8,
    button_id: u8,
    col: u16,
    row: u16,
    swap: bool,
) -> PointerEvent {
    let b = fb_button(button_id, swap);
    let kind = if event_type == 1 {
        MouseKind::Up(b)
    } else if event_type == 2 {
        MouseKind::Drag(b)
    } else {
        MouseKind::Down(b)
    };
    at(kind, col, row)
}

/// The screen event of a framebuffer button report
pub fn map_fb_button_event(
    event_type: u8,
    button_id: u8,
    col: u16,
    row: u16,
    swap_buttons: bool,
) -> (e: PointerEvent)
    ensures
        e == fb_button_event(event_type, button_id, col, row, swap_buttons),
{
    let button = match button_id {
        0 => {
            if swap_buttons {
                MouseBtn::Right
            } else {
                MouseBtn::Left
            }
        },
        1 => {
            if swap_buttons {
                MouseBtn::Left
            } else {
                MouseBtn::Right
            }
        },
        2 => MouseBtn::Middle,
        _ => MouseBtn::Left,
    };
    let kind = match event_type {
        0 => MouseKind::Down(button),
        1 => MouseKind::Up(button),
        2 => MouseKind::Drag(button),
        _ => MouseKind::Down(button),
    };
    PointerEvent { kind, column: col, row }
}

/// The screen event of a framebuffer wheel report: direction 0 up, any
/// other down
pub fn map_fb_scroll_event(scroll_direction: u8, col: u16, row: u16) -> (e: PointerEvent)
    ensures
        e == at(
            if scroll_direction == 0 {
                MouseKind::ScrollUp
            } else {
                MouseKind::ScrollDown
            },
            col,
            row,
        ),
{
    let kind = match scroll_direction {
        0 => MouseKind::ScrollUp,
        _ => MouseKind::ScrollDown,
    };
    PointerEvent { kind, column: col, row }
}

} // verus!
