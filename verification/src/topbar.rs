//! Where the clipboard and exit buttons of the top bar stand: Paste with its
//! clear button centred, Copy with its clear button beside them while text
//! is selected, Exit on the right before the battery and the clock.

use vstd::prelude::*;

verus! {

/// Widths of the top bar's buttons, in cells
#[derive(Clone, Copy, Debug, PartialEq, Eq, Structural)]
pub struct ButtonWidths {
    pub paste: u16,
    pub clear_clipboard: u16,
    pub copy: u16,
    pub clear_selection: u16,
    pub exit: u16,
}

/// Positions and states of the top bar's buttons
#[derive(Clone, Copy, Debug, PartialEq, Eq, Structural)]
pub struct TopBarButtons {
    pub paste_x: u16,
    pub clear_clipboard_x: u16,
    pub copy_x: u16,
    pub clear_selection_x: u16,
    pub exit_x: u16,
    pub paste_enabled: bool,
    pub clear_clipboard_enabled: bool,
    pub copy_enabled: bool,
    pub clear_selection_enabled: bool,
}

/// Room kept right of the Exit button for the battery and the clock
pub const RIGHT_RESERVE: u16 = 34;

pub open spec fn sat(a: int, b: int) -> int {
    if a >= b {
        a - b
    } else {
        0
    }
}

/// The buttons after a layout on a bar of `cols` cells
pub open spec fn layout(b: TopBarButtons, cols: u16, w: ButtonWidths, clip: bool, sel: bool) -> TopBarButtons {
    let pc = w.paste + w.clear_clipboard;
    let cc = w.copy + w.clear_selection;
    let paste0 = sat(cols as int, pc) / 2;
    let base = TopBarButtons {
        exit_x: sat(cols as int, w.exit + RIGHT_RESERVE) as u16,
        paste_x: paste0 as u16,
        clear_clipboard_x: (paste0 + w.paste) as u16,
        paste_enabled: clip,
        clear_clipboard_enabled: clip,
        copy_enabled: sel,
        clear_selection_enabled: sel,
        ..b
    };
    if sel && clip {
        let start = sat(cols as int, cc + 1 + pc) / 2;
        TopBarButtons {
            copy_x: start as u16,
            clear_selection_x: (start + w.copy) as u16,
            paste_x: (start + cc + 1) as u16,
            clear_clipboard_x: (start + cc + 1 + w.paste) as u16,
            ..base
        }
    } else if sel {
        let start = sat(cols as int, cc) / 2;
        TopBarButtons { copy_x: start as u16, clear_selection_x: (start + w.copy) as u16, ..base }
    } else {
        base
    }
}

/// The bar is narrow enough that no position passes 16 bits
pub open spec fn layout_fits(cols: u16, w: ButtonWidths) -> bool {
    cols + w.paste + w.clear_clipboard + w.copy + w.clear_selection + w.exit + RIGHT_RESERVE + 1
        <= u16::MAX
}

impl TopBarButtons {
    /// Enables the clipboard buttons while the clipboard holds text and the
    /// selection buttons while text is selected, and places the buttons
    /// (the selection buttons keep their place while hidden)
    pub fn update_button_states(&mut self, cols: u16, w: ButtonWidths, has_clipboard_content: bool, has_selection: bool)
        requires
            layout_fits(cols, w),
        ensures
            *final(self) == layout(*old(self), cols, w, has_clipboard_content, has_selection),
    {
        self.paste_enabled = has_clipboard_content;
        self.clear_clipboard_enabled = has_clipboard_content;
        self.copy_enabled = has_selection;
        self.clear_selection_enabled = has_selection;
        self.exit_x = cols.saturating_sub(w.exit + RIGHT_RESERVE);
        let paste_clear = w.paste + w.clear_clipboard;
        let paste_x = cols.saturating_sub(paste_clear) / 2;
        self.paste_x = paste_x;
        self.clear_clipboard_x = paste_x + w.paste;
        if has_selection && has_clipboard_content {
            let copy_clear = w.copy + w.clear_selection;
            let total = copy_clear + 1 + paste_clear;
            let start = cols.saturating_sub(total) / 2;
            self.copy_x = start;
            self.clear_selection_x = start + w.copy;
            self.paste_x = start + copy_clear + 1;
            self.clear_clipboard_x = self.paste_x + w.paste;
        } else if has_selection {
            let copy_clear = w.copy + w.clear_selection;
            let start = cols.saturating_sub(copy_clear) / 2;
            self.copy_x = start;
            self.clear_selection_x = start + w.copy;
        }
    }
}

} // verus!
