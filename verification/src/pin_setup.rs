//! Dialog that sets the lockscreen PIN: enter it, confirm it, and store its
//! salted hash.

use vstd::prelude::*;
use crate::auth::{MAX_PIN_LENGTH, PinAuthenticator, is_ascii_graphic, pin_error, pin_hash_of};
use crate::charset::{Charset, CharsetMode};
use crate::text::{chars_of, secure_clear, string_from_chars};
use crate::color::UiColor;
use crate::draw::{DrawOp, Paint, ThemeColor, op, raw_op, hrun, raw_run, text_run, rect_fill, before_col, push_hrun, push_raw_run, push_text, push_text_before, push_rect_fill, push_op};

verus! {

/// State of the PIN setup flow
#[derive(Debug, Clone, PartialEq)]
pub enum PinSetupState {
    /// Entering the new PIN
    EnterPin,
    /// Entering the PIN a second time
    ConfirmPin,
    /// Done: the hash of the PIN and the salt it was made with
    Complete { hash: String, salt: String },
    /// Cancelled by the user
    Cancelled,
}

/// Focus of the dialog
#[derive(Debug, Clone, Copy, PartialEq, Eq, Structural)]
pub enum PinSetupFocus {
    PinField,
    ConfirmButton,
    CancelButton,
}

/// Keys the dialog reacts to
#[derive(Debug, Clone, Copy, PartialEq, Eq, Structural)]
pub enum DialogKey {
    Char(char),
    Backspace,
    Left,
    Right,
    Tab,
    Enter,
    Esc,
    Other,
}

/// The PIN setup dialog
pub struct PinSetupDialog {
    pub state: PinSetupState,
    pub focus: PinSetupFocus,
    pub pin_input: Vec<char>,
    pub confirm_input: Vec<char>,
    pub cursor_position: usize,
    pub is_confirming: bool,
    pub error_message: Option<String>,
    pub salt: String,
    pub dialog_width: u16,
    pub dialog_height: u16,
}

/// The field being typed into
pub open spec fn active_field(d: PinSetupDialog) -> Seq<char> {
    if d.is_confirming {
        d.confirm_input@
    } else {
        d.pin_input@
    }
}

/// The dialog keeps its size, and the cursor stays within the active field
pub open spec fn setup_wf(d: PinSetupDialog) -> bool {
    &&& d.dialog_width == 50
    &&& d.dialog_height == 12
    &&& d.cursor_position <= active_field(d).len()
    &&& d.pin_input@.len() <= MAX_PIN_LENGTH
    &&& d.confirm_input@.len() <= MAX_PIN_LENGTH
}

/// Everything but the entry fields, cursor and error is unchanged
pub open spec fn same_flow(a: PinSetupDialog, b: PinSetupDialog) -> bool {
    &&& a.state == b.state
    &&& a.focus == b.focus
    &&& a.is_confirming == b.is_confirming
    &&& a.salt == b.salt
    &&& a.dialog_width == b.dialog_width
    &&& a.dialog_height == b.dialog_height
}

/// The field that is not being typed into is unchanged
pub open spec fn other_field_kept(a: PinSetupDialog, b: PinSetupDialog) -> bool {
    if a.is_confirming {
        b.pin_input == a.pin_input
    } else {
        b.confirm_input == a.confirm_input
    }
}

/// Left edge of the centered dialog
pub open spec fn dialog_left(d: PinSetupDialog, cols: u16) -> int {
    (if cols >= d.dialog_width {
        cols - d.dialog_width
    } else {
        0
    }) / 2
}

/// Top edge of the centered dialog
pub open spec fn dialog_top(d: PinSetupDialog, rows: u16) -> int {
    (if rows >= d.dialog_height {
        rows - d.dialog_height
    } else {
        0
    }) / 2
}

impl PinSetupDialog {
    /// A dialog waiting for the new PIN; it will be hashed with `salt`
    pub fn new(salt: String) -> (d: Self)
        ensures
            d.state == PinSetupState::EnterPin,
            d.focus == PinSetupFocus::PinField,
            d.pin_input@.len() == 0,
            d.confirm_input@.len() == 0,
            d.cursor_position == 0,
            !d.is_confirming,
            d.error_message is None,
            d.salt == salt,
            setup_wf(d),
    {
        PinSetupDialog {
            state: PinSetupState::EnterPin,
            focus: PinSetupFocus::PinField,
            pin_input: Vec::new(),
            confirm_input: Vec::new(),
            cursor_position: 0,
            is_confirming: false,
            error_message: None,
            salt,
            dialog_width: 50,
            dialog_height: 12,
        }
    }

    /// Current state
    pub fn state(&self) -> (s: &PinSetupState)
        ensures
            *s == self.state,
    {
        &self.state
    }

    /// Type a character into the active field: only printable ASCII without
    /// space, at most 30 characters
    pub fn insert_char(&mut self, c: char)
        requires
            setup_wf(*old(self)),
        ensures
            setup_wf(*final(self)),
            same_flow(*old(self), *final(self)),
            other_field_kept(*old(self), *final(self)),
            !is_ascii_graphic(c) ==> {
                &&& active_field(*final(self)) == active_field(*old(self))
                &&& final(self).cursor_position == old(self).cursor_position
                &&& final(self).error_message matches Some(m) && m@ == "Only printable characters allowed"@
            },
            is_ascii_graphic(c) && active_field(*old(self)).len() < MAX_PIN_LENGTH ==> {
                &&& active_field(*final(self)) == active_field(*old(self)).insert(
                    old(self).cursor_position as int,
                    c,
                )
                &&& final(self).cursor_position == old(self).cursor_position + 1
                &&& final(self).error_message is None
            },
            is_ascii_graphic(c) && active_field(*old(self)).len() >= MAX_PIN_LENGTH ==> {
                &&& active_field(*final(self)) == active_field(*old(self))
                &&& final(self).cursor_position == old(self).cursor_position
                &&& final(self).error_message == old(self).error_message
            },
    {
        if !((c as u32) >= 0x21 && (c as u32) <= 0x7E) {
            self.error_message = Some("Only printable characters allowed".to_owned());
            return;
        }
        if self.is_confirming {
            if self.confirm_input.len() < MAX_PIN_LENGTH && self.cursor_position
                <= self.confirm_input.len() {
                self.confirm_input.insert(self.cursor_position, c);
                self.cursor_position = self.cursor_position + 1;
                self.error_message = None;
            }
        } else {
            if self.pin_input.len() < MAX_PIN_LENGTH && self.cursor_position
                <= self.pin_input.len() {
                self.pin_input.insert(self.cursor_position, c);
                self.cursor_position = self.cursor_position + 1;
                self.error_message = None;
            }
        }
    }

    /// Delete the character before the cursor in the active field
    pub fn delete_char(&mut self)
        requires
            setup_wf(*old(self)),
        ensures
            setup_wf(*final(self)),
            same_flow(*old(self), *final(self)),
            other_field_kept(*old(self), *final(self)),
            old(self).cursor_position > 0 ==> {
                &&& active_field(*final(self)) == active_field(*old(self)).remove(
                    old(self).cursor_position - 1,
                )
                &&& final(self).cursor_position == old(self).cursor_position - 1
                &&& final(self).error_message is None
            },
            old(self).cursor_position == 0 ==> {
                &&& active_field(*final(self)) == active_field(*old(self))
                &&& final(self).cursor_position == 0
                &&& final(self).error_message == old(self).error_message
            },
    {
        if self.is_confirming {
            if self.cursor_position > 0 && self.confirm_input.len() != 0 {
                self.confirm_input.remove(self.cursor_position - 1);
                self.cursor_position = self.cursor_position - 1;
                self.error_message = None;
            }
        } else {
            if self.cursor_position > 0 && self.pin_input.len() != 0 {
                self.pin_input.remove(self.cursor_position - 1);
                self.cursor_position = self.cursor_position - 1;
                self.error_message = None;
            }
        }
    }

    /// Move the cursor one character left
    pub fn move_cursor_left(&mut self)
        ensures
            final(self).cursor_position == if old(self).cursor_position > 0 {
                (old(self).cursor_position - 1) as usize
            } else {
                0
            },
            same_flow(*old(self), *final(self)),
            final(self).pin_input == old(self).pin_input,
            final(self).confirm_input == old(self).confirm_input,
            final(self).error_message == old(self).error_message,
    {
        if self.cursor_position > 0 {
            self.cursor_position = self.cursor_position - 1;
        }
    }

    /// Move the cursor one character right, up to the end of the field
    pub fn move_cursor_right(&mut self)
        ensures
            final(self).cursor_position == if old(self).cursor_position < active_field(
                *old(self),
            ).len() {
                (old(self).cursor_position + 1) as usize
            } else {
                old(self).cursor_position
            },
            same_flow(*old(self), *final(self)),
            final(self).pin_input == old(self).pin_input,
            final(self).confirm_input == old(self).confirm_input,
            final(self).error_message == old(self).error_message,
    {
        let len = if self.is_confirming {
            self.confirm_input.len()
        } else {
            self.pin_input.len()
        };
        if self.cursor_position < len {
            self.cursor_position = self.cursor_position + 1;
        }
    }

    /// Move the focus: PIN field, confirm button, cancel button, and around
    pub fn cycle_focus(&mut self)
        ensures
            final(self).focus == match old(self).focus {
                PinSetupFocus::PinField => PinSetupFocus::ConfirmButton,
                PinSetupFocus::ConfirmButton => PinSetupFocus::CancelButton,
                PinSetupFocus::CancelButton => PinSetupFocus::PinField,
            },
            final(self).state == old(self).state,
            final(self).pin_input == old(self).pin_input,
            final(self).confirm_input == old(self).confirm_input,
            final(self).cursor_position == old(self).cursor_position,
            final(self).is_confirming == old(self).is_confirming,
            final(self).dialog_width == old(self).dialog_width,
            final(self).dialog_height == old(self).dialog_height,
    {
        self.focus = match self.focus {
            PinSetupFocus::PinField => PinSetupFocus::ConfirmButton,
            PinSetupFocus::ConfirmButton => PinSetupFocus::CancelButton,
            PinSetupFocus::CancelButton => PinSetupFocus::PinField,
        };
    }

    /// Enter: advance from the field or the confirm button, cancel from the
    /// cancel button
    pub fn handle_enter(&mut self)
        requires
            setup_wf(*old(self)),
        ensures
            setup_wf(*final(self)),
            old(self).focus == PinSetupFocus::CancelButton ==> final(self).state
                == PinSetupState::Cancelled,
            old(self).focus != PinSetupFocus::CancelButton ==> advanced(*old(self), *final(self)),
    {
        match self.focus {
            PinSetupFocus::PinField | PinSetupFocus::ConfirmButton => {
                self.try_advance();
            },
            PinSetupFocus::CancelButton => {
                self.cancel();
            },
        }
    }

    /// Next step: a valid PIN moves on to confirmation; a confirmation equal
    /// to the PIN completes with the PIN's salted hash, otherwise it is
    /// cleared with an error
    pub fn try_advance(&mut self)
        requires
            setup_wf(*old(self)),
        ensures
            setup_wf(*final(self)),
            advanced(*old(self), *final(self)),
    {
        if !self.is_confirming {
            let pin = string_from_chars(&self.pin_input);
            match PinAuthenticator::validate_pin(pin.as_str()) {
                Err(e) => {
                    self.error_message = Some(e);
                    return;
                },
                Ok(()) => {},
            }
            self.is_confirming = true;
            self.state = PinSetupState::ConfirmPin;
            self.cursor_position = 0;
            self.error_message = None;
            self.focus = PinSetupFocus::PinField;
        } else {
            if !vec_char_eq(&self.pin_input, &self.confirm_input) {
                self.error_message = Some("PINs do not match".to_owned());
                secure_clear(&mut self.confirm_input);
                self.cursor_position = 0;
                return;
            }
            let pin = string_from_chars(&self.pin_input);
            let hash = PinAuthenticator::hash_pin(pin.as_str(), self.salt.as_str());
            secure_clear(&mut self.pin_input);
            secure_clear(&mut self.confirm_input);
            self.cursor_position = 0;
            self.state = PinSetupState::Complete { hash, salt: self.salt.clone() };
        }
    }

    /// Give up: both fields are wiped
    pub fn cancel(&mut self)
        ensures
            final(self).state == PinSetupState::Cancelled,
            final(self).pin_input@.len() == 0,
            final(self).confirm_input@.len() == 0,
            final(self).cursor_position == 0,
            final(self).focus == old(self).focus,
            final(self).is_confirming == old(self).is_confirming,
            final(self).salt == old(self).salt,
            final(self).dialog_width == old(self).dialog_width,
            final(self).dialog_height == old(self).dialog_height,
    {
        secure_clear(&mut self.pin_input);
        secure_clear(&mut self.confirm_input);
        self.cursor_position = 0;
        self.state = PinSetupState::Cancelled;
    }

    /// A key press: typing and editing act on the field when it has the
    /// focus; Tab moves the focus, Enter acts, Esc cancels
    pub fn handle_key(&mut self, key: DialogKey)
        requires
            setup_wf(*old(self)),
        ensures
            setup_wf(*final(self)),
            key == DialogKey::Esc ==> final(self).state == PinSetupState::Cancelled,
            key == DialogKey::Enter && old(self).focus != PinSetupFocus::CancelButton ==> advanced(
                *old(self),
                *final(self),
            ),
            key == DialogKey::Tab ==> final(self).pin_input == old(self).pin_input
                && final(self).confirm_input == old(self).confirm_input,
            key == DialogKey::Other ==> *final(self) == *old(self),
            (key is Char || key == DialogKey::Backspace || key == DialogKey::Left || key
                == DialogKey::Right) && old(self).focus != PinSetupFocus::PinField ==> *final(self)
                == *old(self),
    {
        match key {
            DialogKey::Char(c) => {
                if self.focus == PinSetupFocus::PinField {
                    self.insert_char(c);
                }
            },
            DialogKey::Backspace => {
                if self.focus == PinSetupFocus::PinField {
                    self.delete_char();
                }
            },
            DialogKey::Left => {
                if self.focus == PinSetupFocus::PinField {
                    self.move_cursor_left();
                }
            },
            DialogKey::Right => {
                if self.focus == PinSetupFocus::PinField {
                    self.move_cursor_right();
                }
            },
            DialogKey::Tab => {
                self.cycle_focus();
            },
            DialogKey::Enter => {
                self.handle_enter();
            },
            DialogKey::Esc => {
                self.cancel();
            },
            DialogKey::Other => {},
        }
    }

    /// Whether a screen position lies on the dialog, centered on a screen of
    /// `cols` x `rows`
    pub fn contains_point(&self, x: u16, y: u16, cols: u16, rows: u16) -> (b: bool)
        requires
            setup_wf(*self),
        ensures
            b == (dialog_left(*self, cols) <= x < dialog_left(*self, cols) + self.dialog_width
                && dialog_top(*self, rows) <= y < dialog_top(*self, rows) + self.dialog_height),
    {
        let dialog_x = (if cols >= self.dialog_width { cols - self.dialog_width } else { 0 }) / 2;
        let dialog_y = (if rows >= self.dialog_height { rows - self.dialog_height } else { 0 }) / 2;
        x >= dialog_x && x < dialog_x + self.dialog_width && y >= dialog_y && y < dialog_y
            + self.dialog_height
    }

    /// A click on the button row: the confirm button advances, the cancel
    /// button cancels. Buttons are one column wider where the character set
    /// draws a shadow beside them. Returns whether a button was hit.
    pub fn handle_click(&mut self, x: u16, y: u16, cols: u16, rows: u16, charset: &Charset) -> (hit: bool)
        requires
            setup_wf(*old(self)),
        ensures
            setup_wf(*final(self)),
            hit == (y == button_row(*old(self), rows) && (on_confirm(*old(self), x, cols, charset.mode)
                || on_cancel(*old(self), x, cols, charset.mode))),
            !hit ==> *final(self) == *old(self),
            hit && on_confirm(*old(self), x, cols, charset.mode) ==> advanced(*old(self), *final(self)),
            hit && !on_confirm(*old(self), x, cols, charset.mode) ==> final(self).state
                == PinSetupState::Cancelled,
    {
        let dialog_x = (if cols >= self.dialog_width { cols - self.dialog_width } else { 0 }) / 2;
        let dialog_y = (if rows >= self.dialog_height { rows - self.dialog_height } else { 0 }) / 2;
        let button_y = dialog_y + self.dialog_height - 3;
        if y != button_y {
            return false;
        }
        let shadow_extra: u16 = match charset.mode {
            CharsetMode::Unicode | CharsetMode::UnicodeSingleLine => 1,
            CharsetMode::Ascii => 0,
        };
        let confirm_width: u16 = if self.is_confirming { 11 } else { 8 };
        let confirm_x = dialog_x + self.dialog_width / 2 - confirm_width - 2;
        let confirm_end = confirm_x + confirm_width + shadow_extra;
        if x >= confirm_x && x < confirm_end {
            self.try_advance();
            return true;
        }
        let cancel_width: u16 = 10;
        let cancel_x = dialog_x + self.dialog_width / 2 + 2;
        let cancel_end = cancel_x + cancel_width + shadow_extra;
        if x >= cancel_x && x < cancel_end {
            self.cancel();
            return true;
        }
        false
    }
}

/// Extra columns a button takes for its shadow
pub open spec fn shadow_extra(mode: CharsetMode) -> int {
    if mode == CharsetMode::Ascii {
        0
    } else {
        1
    }
}

/// Row of the buttons
pub open spec fn button_row(d: PinSetupDialog, rows: u16) -> int {
    dialog_top(d, rows) + d.dialog_height - 3
}

/// Whether column `x` is on the confirm button ("[ Next ]" or "[ Set PIN ]")
pub open spec fn on_confirm(d: PinSetupDialog, x: u16, cols: u16, mode: CharsetMode) -> bool {
    let w: int = if d.is_confirming {
        11
    } else {
        8
    };
    let left = dialog_left(d, cols) + d.dialog_width / 2 - w - 2;
    left <= x < left + w + shadow_extra(mode)
}

/// Whether column `x` is on the cancel button ("[ Cancel ]")
pub open spec fn on_cancel(d: PinSetupDialog, x: u16, cols: u16, mode: CharsetMode) -> bool {
    let left = dialog_left(d, cols) + d.dialog_width / 2 + 2;
    left <= x < left + 10 + shadow_extra(mode)
}

/// What one step of the setup flow does
pub open spec fn advanced(a: PinSetupDialog, b: PinSetupDialog) -> bool {
    &&& b.salt == a.salt
    &&& b.dialog_width == a.dialog_width
    &&& b.dialog_height == a.dialog_height
    &&& if !a.is_confirming {
        let err = pin_error_of(a.pin_input@);
        if err is Some {
            &&& b.error_message matches Some(m) && Some(m@) == err
            &&& b.state == a.state
            &&& b.is_confirming == a.is_confirming
            &&& b.pin_input == a.pin_input
            &&& b.confirm_input == a.confirm_input
            &&& b.cursor_position == a.cursor_position
            &&& b.focus == a.focus
        } else {
            &&& b.is_confirming
            &&& b.state == PinSetupState::ConfirmPin
            &&& b.cursor_position == 0
            &&& b.error_message is None
            &&& b.focus == PinSetupFocus::PinField
            &&& b.pin_input == a.pin_input
            &&& b.confirm_input == a.confirm_input
        }
    } else if a.pin_input@ != a.confirm_input@ {
        &&& b.error_message matches Some(m) && m@ == "PINs do not match"@
        &&& b.confirm_input@.len() == 0
        &&& b.pin_input == a.pin_input
        &&& b.cursor_position == 0
        &&& b.state == a.state
        &&& b.is_confirming
        &&& b.focus == a.focus
    } else {
        &&& b.state matches PinSetupState::Complete { hash, salt } && hash@ == pin_hash_of(
            a.pin_input@,
            a.salt@,
        ) && salt == a.salt
        &&& b.pin_input@.len() == 0
        &&& b.confirm_input@.len() == 0
        &&& b.cursor_position == 0
        &&& b.is_confirming
        &&& b.focus == a.focus
    }
}

/// Validation error of a PIN given as characters
pub open spec fn pin_error_of(pin: Seq<char>) -> Option<Seq<char>> {
    let n = vstd::utf8::encode_utf8(pin).len();
    if n < 4 {
        Some("PIN must be at least 4 characters"@)
    } else if n > 30 {
        Some("PIN must be at most 30 characters"@)
    } else if !(forall|i: int| 0 <= i < pin.len() ==> is_ascii_graphic(#[trigger] pin[i])) {
        Some("PIN must contain printable characters"@)
    } else {
        None
    }
}

/// Equality of two character sequences
pub fn vec_char_eq(a: &Vec<char>, b: &Vec<char>) -> (r: bool)
    ensures
        r == (a@ == b@),
{
    if a.len() != b.len() {
        return false;
    }
    let mut i: usize = 0;
    while i < a.len()
        invariant
            a@.len() == b@.len(),
            i <= a@.len(),
            forall|j: int| 0 <= j < i ==> a@[j] == b@[j],
        decreases a@.len() - i,
    {
        if a[i] != b[i] {
            return false;
        }
        i = i + 1;
    }
    assert(a@ =~= b@);
    true
}


/// Colors of the set-up dialog
pub open spec fn pin_bg() -> Paint {
    Paint::Role(ThemeColor::ConfigContentBg)
}

pub open spec fn pin_fg() -> Paint {
    Paint::Role(ThemeColor::ConfigContentFg)
}

pub open spec fn pin_border() -> Paint {
    Paint::Role(ThemeColor::ConfigBorder)
}

/// Background, frame (with the title in the top border) of the dialog at
/// (`x`, `y`)
pub open spec fn pin_frame_ops(d: PinSetupDialog, cs: Charset, x: int, y: int) -> Seq<DrawOp> {
    let (w, h) = (d.dialog_width as int, d.dialog_height as int);
    let title = if d.is_confirming {
        " Confirm PIN "@
    } else {
        " Set PIN "@
    };
    rect_fill(x, y, w, h, ' ', pin_fg(), pin_bg()) + seq![op(x, y, cs.border_top_left, pin_border(), pin_bg())]
        + hrun(x + 1, y, w - 2, cs.border_horizontal, pin_border(), pin_bg())
        + seq![op(x + w - 1, y, cs.border_top_right, pin_border(), pin_bg())]
        + text_run(x + (w - title.len()) / 2, y, title, Paint::Role(ThemeColor::ConfigTitleFg), Paint::Role(ThemeColor::ConfigTitleBg))
        + pin_side_ops(x, y, w, h - 2, cs)
        + seq![op(x, y + h - 1, cs.border_bottom_left, pin_border(), pin_bg())]
        + hrun(x + 1, y + h - 1, w - 2, cs.border_horizontal, pin_border(), pin_bg())
        + seq![op(x + w - 1, y + h - 1, cs.border_bottom_right, pin_border(), pin_bg())]
}

/// Side borders of rows `1..=k`
pub open spec fn pin_side_ops(x: int, y: int, w: int, k: int, cs: Charset) -> Seq<DrawOp>
    decreases k,
{
    if k <= 0 {
        Seq::empty()
    } else {
        pin_side_ops(x, y, w, k - 1, cs) + seq![op(x, y + k, cs.border_vertical, pin_border(), pin_bg()), op(
            x + w - 1,
            y + k,
            cs.border_vertical,
            pin_border(),
            pin_bg(),
        )]
    }
}

/// The masked entry field: a star per character typed, the cursor cell
/// with foreground and background swapped while the field has the focus
pub open spec fn pin_field_ops(d: PinSetupDialog, x: int, y: int) -> Seq<DrawOp> {
    let focused = d.focus == PinSetupFocus::PinField;
    let field_bg = Paint::Fixed(if focused { UiColor::DarkBlue } else { UiColor::DarkGrey });
    let field_fg = Paint::Fixed(UiColor::White);
    let n = active_field(d).len();
    Seq::new(
        (d.dialog_width - 6) as nat,
        |i: int|
            {
                let ch = if i < n {
                    '*'
                } else {
                    ' '
                };
                if focused && i == d.cursor_position {
                    op(x + 3 + i, y + 4, ch, field_bg, field_fg)
                } else {
                    op(x + 3 + i, y + 4, ch, field_fg, field_bg)
                }
            },
    )
}

/// A button: its text in black on yellow (selected) or white, and, with
/// Unicode box characters, a half-block shadow right of it and below it
pub open spec fn pin_button_ops(bx: int, by: int, text: Seq<char>, selected: bool, shadow: bool) -> Seq<DrawOp> {
    let bg = if selected {
        Paint::Role(ThemeColor::PromptWarningBg)
    } else {
        Paint::Fixed(UiColor::White)
    };
    text_run(bx, by, text, Paint::Fixed(UiColor::Black), bg) + if shadow {
        seq![raw_op(bx + text.len(), by, '\u{2584}', Paint::Fixed(UiColor::Black), pin_bg())] + raw_run(
            bx + 1,
            by + 1,
            text.len() as int,
            '\u{2580}',
            Paint::Fixed(UiColor::Black),
            pin_bg(),
        )
    } else {
        Seq::empty()
    }
}

/// Where a centred message starts, from its byte length kept to 16 bits
pub open spec fn pin_message_x(x: int, w: int, msg: Seq<char>) -> int {
    x + (if w >= crate::error_dialog::line_bytes16(msg) {
        w - crate::error_dialog::line_bytes16(msg)
    } else {
        0
    }) / 2
}

/// The cells of the set-up dialog centred on a screen of `cols` by `rows`
/// cells, in drawing order: frame and title, instruction, masked field,
/// error (in red, if any) and the two buttons
pub open spec fn pin_dialog_ops(d: PinSetupDialog, cs: Charset, cols: u16, rows: u16) -> Seq<DrawOp> {
    let x = dialog_left(d, cols);
    let y = dialog_top(d, rows);
    let w = d.dialog_width as int;
    let instruction = if d.is_confirming {
        "Re-enter your PIN to confirm:"@
    } else {
        "Enter a new PIN (4-30 characters):"@
    };
    let error = match d.error_message {
        Some(e) => {
            let ex = pin_message_x(x, w, e@);
            text_run(ex, y + 6, before_col(e@, ex, x + w - 1), Paint::Fixed(UiColor::Red), pin_bg())
        },
        None => Seq::empty(),
    };
    let shadow = cs.mode == CharsetMode::Unicode || cs.mode == CharsetMode::UnicodeSingleLine;
    let confirm_text = if d.is_confirming {
        "[ Set PIN ]"@
    } else {
        "[ Next ]"@
    };
    let by = y + d.dialog_height - 3;
    pin_frame_ops(d, cs, x, y) + text_run(x + 3, y + 2, before_col(instruction, x + 3, x + w - 1), pin_fg(), pin_bg())
        + pin_field_ops(d, x, y) + error + pin_button_ops(
        x + w / 2 - confirm_text.len() - 2,
        by,
        confirm_text,
        d.focus == PinSetupFocus::ConfirmButton,
        shadow,
    ) + pin_button_ops(x + w / 2 + 2, by, "[ Cancel ]"@, d.focus == PinSetupFocus::CancelButton, shadow)
}

impl PinSetupDialog {
    fn render_frame(&self, charset: &Charset, x: u16, y: u16) -> (ops: Vec<DrawOp>)
        requires
            setup_wf(*self),
            x + 50 <= u16::MAX,
            y + 12 <= u16::MAX,
        ensures
            ops@ == pin_frame_ops(*self, *charset, x as int, y as int),
    {
        let bg = Paint::Role(ThemeColor::ConfigContentBg);
        let fg = Paint::Role(ThemeColor::ConfigContentFg);
        let border = Paint::Role(ThemeColor::ConfigBorder);
        let w = self.dialog_width;
        let h = self.dialog_height;
        let mut ops: Vec<DrawOp> = Vec::new();
        push_rect_fill(&mut ops, x, y, w, h, ' ', fg, bg);
        push_op(&mut ops, x, y, charset.border_top_left, border, bg);
        push_hrun(&mut ops, x + 1, y, w - 2, charset.border_horizontal, border, bg);
        push_op(&mut ops, x + w - 1, y, charset.border_top_right, border, bg);
        let title = if self.is_confirming {
            " Confirm PIN "
        } else {
            " Set PIN "
        };
        proof {
            reveal_strlit(" Confirm PIN ");
            reveal_strlit(" Set PIN ");
        }
        let t = chars_of(title);
        let title_x = x + (w - t.len() as u16) / 2;
        push_text(&mut ops, title_x, y, &t, Paint::Role(ThemeColor::ConfigTitleFg), Paint::Role(ThemeColor::ConfigTitleBg));
        let ghost before_sides = ops@;
        let mut dy: u16 = 1;
        while dy < h - 1
            invariant
                setup_wf(*self),
                w == self.dialog_width,
                h == self.dialog_height,
                x + 50 <= u16::MAX,
                y + 12 <= u16::MAX,
                1 <= dy <= h - 1,
                ops@ == before_sides + pin_side_ops(x as int, y as int, w as int, dy - 1, *charset),
            decreases h - dy,
        {
            push_op(&mut ops, x, y + dy, charset.border_vertical, Paint::Role(ThemeColor::ConfigBorder), Paint::Role(ThemeColor::ConfigContentBg));
            push_op(&mut ops, x + w - 1, y + dy, charset.border_vertical, Paint::Role(ThemeColor::ConfigBorder), Paint::Role(ThemeColor::ConfigContentBg));
            assert(ops@ =~= before_sides + pin_side_ops(x as int, y as int, w as int, dy as int, *charset));
            dy = dy + 1;
        }
        push_op(&mut ops, x, y + h - 1, charset.border_bottom_left, border, bg);
        push_hrun(&mut ops, x + 1, y + h - 1, w - 2, charset.border_horizontal, border, bg);
        push_op(&mut ops, x + w - 1, y + h - 1, charset.border_bottom_right, border, bg);
        assert(ops@ =~= pin_frame_ops(*self, *charset, x as int, y as int));
        ops
    }

    fn render_field(&self, ops: &mut Vec<DrawOp>, x: u16, y: u16)
        requires
            setup_wf(*self),
            x + 50 <= u16::MAX,
            y + 12 <= u16::MAX,
        ensures
            final(ops)@ == old(ops)@ + pin_field_ops(*self, x as int, y as int),
    {
        let field_x = x + 3;
        let field_y = y + 4;
        let field_width = (self.dialog_width - 6) as usize;
        let n = if self.is_confirming {
            self.confirm_input.len()
        } else {
            self.pin_input.len()
        };
        let focused = match self.focus {
            PinSetupFocus::PinField => true,
            _ => false,
        };
        let field_bg = if focused {
            Paint::Fixed(UiColor::DarkBlue)
        } else {
            Paint::Fixed(UiColor::DarkGrey)
        };
        let field_fg = Paint::Fixed(UiColor::White);
        let ghost start = ops@;
        let mut i: usize = 0;
        while i < field_width
            invariant
                setup_wf(*self),
                x + 50 <= u16::MAX,
                y + 12 <= u16::MAX,
                field_x == x + 3,
                field_y == y + 4,
                field_width == self.dialog_width - 6,
                n == active_field(*self).len(),
                focused == (self.focus == PinSetupFocus::PinField),
                field_bg == Paint::Fixed(if focused { UiColor::DarkBlue } else { UiColor::DarkGrey }),
                field_fg == Paint::Fixed(UiColor::White),
                i <= field_width,
                ops@ == start + pin_field_ops(*self, x as int, y as int).take(i as int),
            decreases field_width - i,
        {
            let ch = if i < n {
                '*'
            } else {
                ' '
            };
            if focused && i == self.cursor_position {
                ops.push(DrawOp { x: field_x + i as u16, y: field_y, ch, fg: field_bg, bg: field_fg, raw: false });
            } else {
                ops.push(DrawOp { x: field_x + i as u16, y: field_y, ch, fg: field_fg, bg: field_bg, raw: false });
            }
            assert(pin_field_ops(*self, x as int, y as int).take(i + 1) =~= pin_field_ops(*self, x as int, y as int).take(i as int).push(pin_field_ops(*self, x as int, y as int)[i as int]));
            i = i + 1;
        }
        assert(pin_field_ops(*self, x as int, y as int).take(field_width as int) =~= pin_field_ops(*self, x as int, y as int));
    }

    fn render_button(ops: &mut Vec<DrawOp>, bx: u16, by: u16, text: &str, selected: bool, shadow: bool)
        requires
            bx + text@.len() + 1 <= u16::MAX,
            by + 1 <= u16::MAX,
        ensures
            final(ops)@ == old(ops)@ + pin_button_ops(bx as int, by as int, text@, selected, shadow),
    {
        let bg = if selected {
            Paint::Role(ThemeColor::PromptWarningBg)
        } else {
            Paint::Fixed(UiColor::White)
        };
        let t = chars_of(text);
        push_text(ops, bx, by, &t, Paint::Fixed(UiColor::Black), bg);
        if shadow {
            let w = t.len() as u16;
            ops.push(DrawOp { x: bx + w, y: by, ch: '\u{2584}', fg: Paint::Fixed(UiColor::Black), bg: Paint::Role(ThemeColor::ConfigContentBg), raw: true });
            push_raw_run(ops, bx + 1, by + 1, w, '\u{2580}', Paint::Fixed(UiColor::Black), Paint::Role(ThemeColor::ConfigContentBg));
        }
        assert(final(ops)@ =~= old(ops)@ + pin_button_ops(bx as int, by as int, text@, selected, shadow));
    }

    /// The cells of the dialog centred on a screen of `cols` by `rows`
    /// cells, in drawing order. The drop shadow around the dialog is not
    /// among them.
    pub fn render(&self, cols: u16, rows: u16, charset: &Charset) -> (ops: Vec<DrawOp>)
        requires
            setup_wf(*self),
            self.error_message matches Some(e) ==> e@.len() < 32768,
        ensures
            ops@ == pin_dialog_ops(*self, *charset, cols, rows),
    {
        let x = cols.saturating_sub(self.dialog_width) / 2;
        let y = rows.saturating_sub(self.dialog_height) / 2;
        let w = self.dialog_width;
        let mut ops = self.render_frame(charset, x, y);
        let instruction = if self.is_confirming {
            "Re-enter your PIN to confirm:"
        } else {
            "Enter a new PIN (4-30 characters):"
        };
        proof {
            reveal_strlit("Re-enter your PIN to confirm:");
            reveal_strlit("Enter a new PIN (4-30 characters):");
            reveal_strlit("[ Set PIN ]");
            reveal_strlit("[ Next ]");
            reveal_strlit("[ Cancel ]");
        }
        let inst = chars_of(instruction);
        push_text_before(&mut ops, x + 3, y + 2, &inst, x + w - 1, Paint::Role(ThemeColor::ConfigContentFg), Paint::Role(ThemeColor::ConfigContentBg));
        self.render_field(&mut ops, x, y);
        let ghost before_error = ops@;
        match &self.error_message {
            Some(error) => {
                #[verifier::truncate]
                let len16 = error.as_str().len() as u16;
                let err_x = x + w.saturating_sub(len16) / 2;
                let e = chars_of(error.as_str());
                push_text_before(&mut ops, err_x, y + 6, &e, x + w - 1, Paint::Fixed(UiColor::Red), Paint::Role(ThemeColor::ConfigContentBg));
            },
            None => {
                assert(ops@ =~= before_error + Seq::<DrawOp>::empty());
            },
        }
        let button_y = y + self.dialog_height - 3;
        let shadow = match charset.mode {
            CharsetMode::Unicode => true,
            CharsetMode::UnicodeSingleLine => true,
            CharsetMode::Ascii => false,
        };
        let confirm_text = if self.is_confirming {
            "[ Set PIN ]"
        } else {
            "[ Next ]"
        };
        let ct = chars_of(confirm_text);
        let confirm_x = x + w / 2 - ct.len() as u16 - 2;
        let confirm_selected = match self.focus {
            PinSetupFocus::ConfirmButton => true,
            _ => false,
        };
        Self::render_button(&mut ops, confirm_x, button_y, confirm_text, confirm_selected, shadow);
        let cancel_x = x + w / 2 + 2;
        let cancel_selected = match self.focus {
            PinSetupFocus::CancelButton => true,
            _ => false,
        };
        Self::render_button(&mut ops, cancel_x, button_y, "[ Cancel ]", cancel_selected, shadow);
        ops
    }
}

} // verus!
