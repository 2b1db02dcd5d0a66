//! Mouse input over terminal windows: what is forwarded to the program in
//! the window, and how clicks and drags select text (single, double and
//! triple clicks, block selection with Alt).

use vstd::prelude::*;

verus! {

/// A mouse button
#[derive(Debug, Clone, Copy, PartialEq, Eq, Structural)]
pub enum MouseBtn {
    Left,
    Middle,
    Right,
}

/// What the mouse did
#[derive(Debug, Clone, Copy, PartialEq, Eq, Structural)]
pub enum MouseKind {
    Down(MouseBtn),
    Up(MouseBtn),
    Drag(MouseBtn),
    Moved,
    ScrollUp,
    ScrollDown,
    ScrollLeft,
    ScrollRight,
}

/// How a selection grows
#[derive(Debug, Clone, Copy, PartialEq, Eq, Structural)]
pub enum SelectionType {
    Character,
    Word,
    Line,
    Block,
}

/// The button and action numbers under which a mouse event is forwarded to
/// the program in a window (action 0 press, 1 release, 2 motion; buttons
/// 64 to 67 are the wheel)
pub open spec fn forward_code_spec(kind: MouseKind) -> (u8, u8) {
    match kind {
        MouseKind::Down(b) => (btn_code(b), 0),
        MouseKind::Up(b) => (btn_code(b), 1),
        MouseKind::Drag(b) => (btn_code(b), 2),
        MouseKind::Moved => (0, 2),
        MouseKind::ScrollUp => (64, 0),
        MouseKind::ScrollDown => (65, 0),
        MouseKind::ScrollLeft => (66, 0),
        MouseKind::ScrollRight => (67, 0),
    }
}

pub open spec fn btn_code(b: MouseBtn) -> u8 {
    match b {
        MouseBtn::Left => 0,
        MouseBtn::Middle => 1,
        MouseBtn::Right => 2,
    }
}

/// The button and action numbers of a mouse event
pub fn forward_code(kind: MouseKind) -> (c: (u8, u8))
    ensures
        c == forward_code_spec(kind),
{
    let b = |b: MouseBtn| -> (r: u8)
        ensures
            r == btn_code(b),
        {
            match b {
                MouseBtn::Left => 0u8,
                MouseBtn::Middle => 1u8,
                MouseBtn::Right => 2u8,
            }
        };
    match kind {
        MouseKind::Down(x) => (b(x), 0),
        MouseKind::Up(x) => (b(x), 1),
        MouseKind::Drag(x) => (b(x), 2),
        MouseKind::Moved => (0, 2),
        MouseKind::ScrollUp => (64, 0),
        MouseKind::ScrollDown => (65, 0),
        MouseKind::ScrollLeft => (66, 0),
        MouseKind::ScrollRight => (67, 0),
    }
}

/// What the window manager reports about the point and the focus
#[derive(Debug, Clone, Copy, PartialEq, Eq, Structural)]
pub struct WindowView {
    /// The focused window, if a window has the focus
    pub focused_window: Option<u32>,
    /// The window under the mouse, if any
    pub window_at_point: Option<u32>,
    /// The mouse is on a title bar or a resize edge
    pub on_drag_area: bool,
    /// A window is being moved or resized
    pub dragging: bool,
    /// The focused window asks to confirm closing
    pub close_confirmation: bool,
    /// The focused window's program tracks the mouse
    pub mouse_tracking: bool,
}

/// Whether a mouse event goes to the program in the focused window
pub open spec fn forwards(v: WindowView) -> bool {
    v.mouse_tracking && !v.dragging && !v.on_drag_area && !v.close_confirmation
}

/// Whether a mouse event goes to the program in the focused window
pub fn should_forward(v: WindowView) -> (b: bool)
    ensures
        b == forwards(v),
{
    v.mouse_tracking && !v.dragging && !v.on_drag_area && !v.close_confirmation
}

/// Click history and selection state
#[derive(Debug, Clone, Copy, PartialEq, Eq)]
pub struct ClickState {
    pub selection_active: bool,
    /// Time of the last click, in milliseconds
    pub last_click_time: Option<u64>,
    pub last_click_pos: Option<(u16, u16)>,
    pub click_count: u32,
}

/// What the selection logic asks the window manager to do
#[derive(Debug, Clone, Copy, PartialEq, Eq, Structural)]
pub enum SelectionAction {
    /// Start a selection of the given type at a cell; a double click then
    /// widens it to the word, a triple click to the line, and both complete it
    Start { window: u32, col: u16, row: u16, kind: SelectionType },
    /// Move the selection's end to a cell
    Update { window: u32, col: u16, row: u16 },
    /// Finish the selection
    Complete { window: u32 },
    /// End the selection without a focused window to tell
    Stop,
}

/// Whether two clicks count as one multiple click: within half a second
/// (a clock that went back counts as no time) and two cells
pub open spec fn multi_click(s: ClickState, now: u64, x: u16, y: u16) -> bool {
    match (s.last_click_time, s.last_click_pos) {
        (Some(t), Some((lx, ly))) => (if now >= t {
            now - t
        } else {
            0
        }) < 500 && (if x >= lx {
            x - lx
        } else {
            lx - x
        }) <= 2 && (if y >= ly {
            y - ly
        } else {
            ly - y
        }) <= 2,
        _ => false,
    }
}

/// The selection type a click starts: word for a double click, line for a
/// triple click, otherwise block with Alt or character
pub open spec fn click_selection(count: u32, alt: bool) -> SelectionType {
    if count == 2 {
        SelectionType::Word
    } else if count == 3 {
        SelectionType::Line
    } else if alt {
        SelectionType::Block
    } else {
        SelectionType::Character
    }
}

/// What a mouse event does to the selection, when it is not forwarded:
/// whether it was handled, the action, and the click state after it
pub open spec fn selection_step(
    s: ClickState,
    v: WindowView,
    kind: MouseKind,
    col: u16,
    row: u16,
    alt: bool,
    now: u64,
) -> (bool, Option<SelectionAction>, ClickState) {
    if v.close_confirmation {
        (false, None, s)
    } else {
        match kind {
            MouseKind::Down(MouseBtn::Left) => {
                if v.on_drag_area || v.window_at_point is None || (v.focused_window is Some
                    && v.window_at_point != v.focused_window) || v.focused_window is None {
                    (false, None, s)
                } else {
                    let count = if multi_click(s, now, col, row) {
                        (s.click_count + 1) as u32
                    } else {
                        1u32
                    };
                    let kind = click_selection(count, alt);
                    let active = if count <= 1 || kind == SelectionType::Block {
                        true
                    } else {
                        s.selection_active
                    };
                    (
                        true,
                        Some(SelectionAction::Start { window: v.focused_window->0, col, row, kind }),
                        ClickState {
                            selection_active: active,
                            last_click_time: Some(now),
                            last_click_pos: Some((col, row)),
                            click_count: count,
                        },
                    )
                }
            },
            MouseKind::Drag(MouseBtn::Left) => {
                if s.selection_active && !v.dragging && v.focused_window is Some {
                    (true, Some(SelectionAction::Update { window: v.focused_window->0, col, row }), s)
                } else {
                    (false, None, s)
                }
            },
            MouseKind::Up(MouseBtn::Left) => {
                if s.selection_active {
                    (
                        true,
                        Some(
                            match v.focused_window {
                                Some(w) => SelectionAction::Complete { window: w },
                                None => SelectionAction::Stop,
                            },
                        ),
                        ClickState { selection_active: false, ..s },
                    )
                } else {
                    (false, None, s)
                }
            },
            _ => (false, None, s),
        }
    }
}

impl ClickState {
    /// No click yet, no selection
    pub fn new() -> (s: Self)
        ensures
            s == (ClickState { selection_active: false, last_click_time: None, last_click_pos: None, click_count: 0 }),
    {
        ClickState { selection_active: false, last_click_time: None, last_click_pos: None, click_count: 0 }
    }

    /// Handles a mouse event that was not forwarded to the window's program
    /// (the left button selects text): returns whether it was handled and
    /// what the window manager has to do
    pub fn handle_selection_mouse(
        &mut self,
        view: WindowView,
        kind: MouseKind,
        col: u16,
        row: u16,
        alt: bool,
        now: u64,
    ) -> (r: (bool, Option<SelectionAction>))
        requires
            old(self).click_count < u32::MAX,
        ensures
            (r.0, r.1, *final(self)) == selection_step(*old(self), view, kind, col, row, alt, now),
    {
        if view.close_confirmation {
            return (false, None);
        }
        match kind {
            MouseKind::Down(MouseBtn::Left) => {
                if view.on_drag_area {
                    return (false, None);
                }
                let clicked = match view.window_at_point {
                    Some(id) => id,
                    None => {
                        return (false, None);
                    },
                };
                let window = match view.focused_window {
                    Some(id) => id,
                    None => {
                        return (false, None);
                    },
                };
                if clicked != window {
                    return (false, None);
                }
                let is_multi = match (self.last_click_time, self.last_click_pos) {
                    (Some(t), Some((lx, ly))) => {
                        let elapsed = if now >= t {
                            now - t
                        } else {
                            0
                        };
                        let time_ok = elapsed < 500;
                        let dx = if col >= lx {
                            col - lx
                        } else {
                            lx - col
                        };
                        let dy = if row >= ly {
                            row - ly
                        } else {
                            ly - row
                        };
                        time_ok && dx <= 2 && dy <= 2
                    },
                    _ => false,
                };
                if is_multi {
                    self.click_count = self.click_count + 1;
                } else {
                    self.click_count = 1;
                }
                self.last_click_time = Some(now);
                self.last_click_pos = Some((col, row));
                let sel = if self.click_count == 2 {
                    SelectionType::Word
                } else if self.click_count == 3 {
                    SelectionType::Line
                } else if alt {
                    SelectionType::Block
                } else {
                    SelectionType::Character
                };
                let is_block = match sel {
                    SelectionType::Block => true,
                    _ => false,
                };
                if self.click_count <= 1 || is_block {
                    self.selection_active = true;
                }
                (true, Some(SelectionAction::Start { window, col, row, kind: sel }))
            },
            MouseKind::Drag(MouseBtn::Left) => {
                if self.selection_active && !view.dragging {
                    if let Some(window) = view.focused_window {
                        return (true, Some(SelectionAction::Update { window, col, row }));
                    }
                }
                (false, None)
            },
            MouseKind::Up(MouseBtn::Left) => {
                if self.selection_active {
                    let action = match view.focused_window {
                        Some(window) => SelectionAction::Complete { window },
                        None => SelectionAction::Stop,
                    };
                    self.selection_active = false;
                    (true, Some(action))
                } else {
                    (false, None)
                }
            },
            _ => (false, None),
        }
    }
}

} // verus!
