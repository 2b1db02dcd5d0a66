//! The settings window: its layout and what a click on it asks for.

use vstd::prelude::*;
use crate::config::{AppConfig, LockscreenAuthMode, background_char, background_char_name, BACKGROUND_CHAR_COUNT};
use crate::charset::Charset;
use crate::draw::{DrawOp, Paint, ThemeColor, op, hrun, text_run, push_hrun, push_text, push_op, str_eq};
use crate::text::{chars_of, push_str_chars};

verus! {

/// What a click in the settings window asks the application to do
#[derive(Clone, Copy, Debug, PartialEq, Eq, Structural)]
pub enum ConfigAction {
    NoAction,
    Close,
    ToggleAutoTiling,
    ToggleShowDate,
    CycleTheme,
    CycleBackgroundChar,
    ToggleTintTerminal,
    ToggleAutoSave,
    ToggleLockscreen,
    CycleLockscreenAuthMode,
    SetupPin,
}

/// Width of the settings window, in cells
pub const CONFIG_WINDOW_WIDTH: u16 = 60;

/// Height of the settings window, in cells
pub const CONFIG_WINDOW_HEIGHT: u16 = 24;

/// The settings window: its frame and the screen row of each option
pub struct ConfigWindow {
    pub width: u16,
    pub height: u16,
    pub x: u16,
    pub y: u16,
    pub auto_arrange_row: u16,
    pub show_date_row: u16,
    pub theme_row: u16,
    pub background_char_row: u16,
    pub tint_terminal_row: u16,
    pub auto_save_row: u16,
    pub lockscreen_row: u16,
    pub lockscreen_auth_row: u16,
    pub pin_setup_row: u16,
}

/// Whether the auth-mode selector is shown: the lockscreen is on and the
/// build has an OS authentication backend
pub open spec fn shows_auth_mode(config: AppConfig, os_auth_compiled: bool) -> bool {
    config.lockscreen_enabled && os_auth_compiled
}

/// Whether the PIN button is shown: the lockscreen is on and a PIN is the
/// way to unlock (chosen, or the only one built)
pub open spec fn shows_pin_setup(config: AppConfig, os_auth_compiled: bool) -> bool {
    config.lockscreen_enabled && (config.lockscreen_auth_mode == LockscreenAuthMode::Pin
        || !os_auth_compiled)
}

/// The action of a click at (`x`, `y`): the option on that row, when the
/// click is within the window's columns and the option is shown
pub open spec fn click_action(
    w: ConfigWindow,
    x: int,
    y: int,
    config: AppConfig,
    os_auth_compiled: bool,
) -> ConfigAction {
    let inside = w.x <= x < w.x + w.width;
    if y == w.auto_arrange_row && inside {
        ConfigAction::ToggleAutoTiling
    } else if y == w.show_date_row && inside {
        ConfigAction::ToggleShowDate
    } else if y == w.theme_row && inside {
        ConfigAction::CycleTheme
    } else if y == w.background_char_row && inside {
        ConfigAction::CycleBackgroundChar
    } else if y == w.tint_terminal_row && inside {
        ConfigAction::ToggleTintTerminal
    } else if y == w.auto_save_row && inside {
        ConfigAction::ToggleAutoSave
    } else if y == w.lockscreen_row && inside {
        ConfigAction::ToggleLockscreen
    } else if shows_auth_mode(config, os_auth_compiled) && y == w.lockscreen_auth_row && inside {
        ConfigAction::CycleLockscreenAuthMode
    } else if shows_pin_setup(config, os_auth_compiled) && y == w.pin_setup_row && inside {
        ConfigAction::SetupPin
    } else {
        ConfigAction::NoAction
    }
}

impl ConfigWindow {
    /// The settings window centred on a screen of the given size; the
    /// options stand on every other row from the third on
    pub fn new(buffer_width: u16, buffer_height: u16) -> (w: Self)
        ensures
            w.width == CONFIG_WINDOW_WIDTH && w.height == CONFIG_WINDOW_HEIGHT,
            w.x == (if buffer_width >= 60 { buffer_width - 60 } else { 0 }) / 2,
            w.y == (if buffer_height >= 24 { buffer_height - 24 } else { 0 }) / 2,
            w.auto_arrange_row == w.y + 3,
            w.show_date_row == w.y + 5,
            w.theme_row == w.y + 7,
            w.background_char_row == w.y + 9,
            w.tint_terminal_row == w.y + 11,
            w.auto_save_row == w.y + 13,
            w.lockscreen_row == w.y + 15,
            w.lockscreen_auth_row == w.y + 17,
            w.pin_setup_row == w.y + 19,
    {
        let width = CONFIG_WINDOW_WIDTH;
        let height = CONFIG_WINDOW_HEIGHT;
        let x = buffer_width.saturating_sub(width) / 2;
        let y = buffer_height.saturating_sub(height) / 2;
        ConfigWindow {
            width,
            height,
            x,
            y,
            auto_arrange_row: y + 3,
            show_date_row: y + 5,
            theme_row: y + 7,
            background_char_row: y + 9,
            tint_terminal_row: y + 11,
            auto_save_row: y + 13,
            lockscreen_row: y + 15,
            lockscreen_auth_row: y + 17,
            pin_setup_row: y + 19,
        }
    }

    /// The action a click at (`x`, `y`) asks for. `os_auth_compiled` says
    /// whether this build has an OS authentication backend.
    pub fn handle_click(&self, x: u16, y: u16, config: &AppConfig, os_auth_compiled: bool) -> (a:
        ConfigAction)
        requires
            self.x + self.width <= u16::MAX,
        ensures
            a == click_action(*self, x as int, y as int, *config, os_auth_compiled),
    {
        let inside = x >= self.x && x < self.x + self.width;
        if y == self.auto_arrange_row && inside {
            return ConfigAction::ToggleAutoTiling;
        }
        if y == self.show_date_row && inside {
            return ConfigAction::ToggleShowDate;
        }
        if y == self.theme_row && inside {
            return ConfigAction::CycleTheme;
        }
        if y == self.background_char_row && inside {
            return ConfigAction::CycleBackgroundChar;
        }
        if y == self.tint_terminal_row && inside {
            return ConfigAction::ToggleTintTerminal;
        }
        if y == self.auto_save_row && inside {
            return ConfigAction::ToggleAutoSave;
        }
        if y == self.lockscreen_row && inside {
            return ConfigAction::ToggleLockscreen;
        }
        if config.lockscreen_enabled && os_auth_compiled && y == self.lockscreen_auth_row
            && inside {
            return ConfigAction::CycleLockscreenAuthMode;
        }
        let pin_mode = match config.lockscreen_auth_mode {
            LockscreenAuthMode::Pin => true,
            LockscreenAuthMode::OsAuth => false,
        };
        if config.lockscreen_enabled && (pin_mode || !os_auth_compiled) && y
            == self.pin_setup_row && inside {
            return ConfigAction::SetupPin;
        }
        ConfigAction::NoAction
    }

    /// Whether the window covers the given cell
    pub fn contains_point(&self, x: u16, y: u16) -> (r: bool)
        requires
            self.x + self.width <= u16::MAX,
            self.y + self.height <= u16::MAX,
        ensures
            r == (self.x <= x < self.x + self.width && self.y <= y < self.y + self.height),
    {
        x >= self.x && x < self.x + self.width && y >= self.y && y < self.y + self.height
    }
}


/// Name under which the settings window shows a theme
pub open spec fn theme_display(name: Seq<char>) -> Seq<char> {
    if name == "classic"@ {
        "Classic"@
    } else if name == "monochrome"@ {
        "Monochrome"@
    } else if name == "dark"@ {
        "Dark"@
    } else if name == "dracu"@ {
        "Dracu"@
    } else if name == "green_phosphor"@ {
        "Green Phosphor"@
    } else if name == "amber"@ {
        "Amber"@
    } else if name == "ndd"@ {
        "NDD"@
    } else if name == "qbasic"@ {
        "QBasic"@
    } else if name == "turbo"@ {
        "TurboP"@
    } else if name == "norton_commander"@ {
        "NCC"@
    } else if name == "xtree"@ {
        "XT"@
    } else if name == "wordperfect"@ {
        "WP"@
    } else if name == "dbase"@ {
        "dB"@
    } else {
        "Classic"@
    }
}

fn theme_display_of(name: &str) -> (d: &'static str)
    ensures
        d@ == theme_display(name@),
{
    if str_eq(name, "classic") {
        "Classic"
    } else if str_eq(name, "monochrome") {
        "Monochrome"
    } else if str_eq(name, "dark") {
        "Dark"
    } else if str_eq(name, "dracu") {
        "Dracu"
    } else if str_eq(name, "green_phosphor") {
        "Green Phosphor"
    } else if str_eq(name, "amber") {
        "Amber"
    } else if str_eq(name, "ndd") {
        "NDD"
    } else if str_eq(name, "qbasic") {
        "QBasic"
    } else if str_eq(name, "turbo") {
        "TurboP"
    } else if str_eq(name, "norton_commander") {
        "NCC"
    } else if str_eq(name, "xtree") {
        "XT"
    } else if str_eq(name, "wordperfect") {
        "WP"
    } else if str_eq(name, "dbase") {
        "dB"
    } else {
        "Classic"
    }
}

/// A text along a row whose character at `k` has its own foreground
pub open spec fn marked_run(x0: int, y: int, t: Seq<char>, k: int, mark: Paint, fg: Paint, bg: Paint) -> Seq<DrawOp> {
    Seq::new(t.len(), |i: int| op(x0 + i, y, t[i], if i == k { mark } else { fg }, bg))
}

fn push_marked(ops: &mut Vec<DrawOp>, x0: u16, y: u16, t: &Vec<char>, k: usize, mark: Paint, fg: Paint, bg: Paint)
    requires
        t@.len() == 0 || x0 + t@.len() - 1 <= u16::MAX,
    ensures
        final(ops)@ == old(ops)@ + marked_run(x0 as int, y as int, t@, k as int, mark, fg, bg),
{
    let ghost start = ops@;
    let mut i: usize = 0;
    while i < t.len()
        invariant
            i <= t@.len(),
            t@.len() == 0 || x0 + t@.len() - 1 <= u16::MAX,
            ops@ == start + marked_run(x0 as int, y as int, t@.take(i as int), k as int, mark, fg, bg),
        decreases t@.len() - i,
    {
        let c = if i == k {
            mark
        } else {
            fg
        };
        ops.push(DrawOp { x: x0 + i as u16, y, ch: t[i], fg: c, bg, raw: false });
        assert(marked_run(x0 as int, y as int, t@.take(i + 1), k as int, mark, fg, bg) =~= marked_run(
            x0 as int,
            y as int,
            t@.take(i as int),
            k as int,
            mark,
            fg,
            bg,
        ).push(op(x0 + i, y as int, t@[i as int], c, bg)));
        i = i + 1;
    }
    assert(t@.take(t@.len() as int) =~= t@);
}

pub open spec fn content_fg() -> Paint {
    Paint::Role(ThemeColor::ConfigContentFg)
}

pub open spec fn content_bg() -> Paint {
    Paint::Role(ThemeColor::ConfigContentBg)
}

/// An on/off option: its label, then "[<block> on]" (the block in the
/// "on" color) or "[off <shade>]" (the fifth character in the "off" color)
pub open spec fn option_ops(x: int, row: int, label: Seq<char>, enabled: bool, cs: Charset) -> Seq<DrawOp> {
    let tx = x + 3 + label.len() + 1;
    text_run(x + 3, row, label, content_fg(), content_bg()) + if enabled {
        marked_run(tx, row, seq!['[', cs.block] + " on]"@, 1, Paint::Role(ThemeColor::ConfigToggleOnColor), content_fg(), content_bg())
    } else {
        marked_run(tx, row, "[off "@ + seq![cs.shade] + "]"@, 4, Paint::Role(ThemeColor::ConfigToggleOffColor), content_fg(), content_bg())
    }
}

/// A selector: its label, then the choice two columns further
pub open spec fn selector_ops(x: int, row: int, label: Seq<char>, choice: Seq<char>) -> Seq<DrawOp> {
    text_run(x + 3, row, label, content_fg(), content_bg()) + text_run(x + 3 + label.len() + 2, row, choice, content_fg(), content_bg())
}

/// The text of the auth-mode selector
pub open spec fn auth_mode_text(mode: LockscreenAuthMode, available: bool) -> Seq<char> {
    match mode {
        LockscreenAuthMode::OsAuth => if available {
            "< OS Auth >"@
        } else {
            "< OS Auth (unavail) >"@
        },
        LockscreenAuthMode::Pin => "< PIN >"@,
    }
}

/// The PIN button and its status line
pub open spec fn pin_button_ops(x: int, row: int, has_pin: bool) -> Seq<DrawOp> {
    let (button, status) = if has_pin {
        ("[ Change PIN ]"@, "   PIN is configured"@)
    } else {
        ("[ Set PIN ]"@, "      PIN required to enable"@)
    };
    text_run(x + 3, row, button, Paint::Role(ThemeColor::ConfigToggleOnColor), content_bg()) + text_run(x + 3 + button.len(), row, status, content_fg(), content_bg())
}

/// The frame: top border with the title, bordered blank content rows and
/// the bottom border
pub open spec fn frame_ops(w: ConfigWindow, cs: Charset) -> Seq<DrawOp> {
    let (x, y, wd, ht) = (w.x as int, w.y as int, w.width as int, w.height as int);
    let border = Paint::Role(ThemeColor::ConfigBorder);
    let ts = x + (wd - 10) / 2;
    let after = ts + 10 - x;
    seq![op(x, y, cs.border_top_left, border, content_bg())] + hrun(x + 1, y, ts - x - 1, cs.border_horizontal, border, content_bg())
        + text_run(ts, y, " Settings "@, Paint::Role(ThemeColor::ConfigTitleFg), Paint::Role(ThemeColor::ConfigTitleBg))
        + hrun(x + after, y, wd - 1 - after, cs.border_horizontal, border, content_bg())
        + seq![op(x + wd - 1, y, cs.border_top_right, border, content_bg())]
        + content_rows(x, y, wd, ht - 2, cs)
        + seq![op(x, y + ht - 1, cs.border_bottom_left, border, content_bg())]
        + hrun(x + 1, y + ht - 1, wd - 2, cs.border_horizontal, border, content_bg())
        + seq![op(x + wd - 1, y + ht - 1, cs.border_bottom_right, border, content_bg())]
}

/// Content rows `1..=k`: border, blanks, border
pub open spec fn content_rows(x: int, y: int, wd: int, k: int, cs: Charset) -> Seq<DrawOp>
    decreases k,
{
    if k <= 0 {
        Seq::empty()
    } else {
        let border = Paint::Role(ThemeColor::ConfigBorder);
        content_rows(x, y, wd, k - 1, cs) + seq![op(x, y + k, cs.border_vertical, border, content_bg())]
            + hrun(x + 1, y + k, wd - 2, ' ', content_fg(), content_bg())
            + seq![op(x + wd - 1, y + k, cs.border_vertical, border, content_bg())]
    }
}

/// The options, each on its row; the auth-mode selector and the PIN button
/// only where they apply
pub open spec fn options_ops(w: ConfigWindow, cs: Charset, c: AppConfig, tint: bool, available: bool, compiled: bool) -> Seq<DrawOp> {
    let x = w.x as int;
    let idx = if c.background_char_index < BACKGROUND_CHAR_COUNT {
        c.background_char_index as int
    } else {
        0
    };
    option_ops(x, w.auto_arrange_row as int, "On startup Auto Tiling:"@, c.auto_tiling_on_startup, cs)
        + option_ops(x, w.show_date_row as int, "Show Date in clock:"@, c.show_date_in_clock, cs)
        + selector_ops(x, w.theme_row as int, "Theme:"@, "< "@ + theme_display(c.theme@) + " >"@)
        + selector_ops(x, w.background_char_row as int, "Background character:"@, "< "@ + background_char_name(idx) + " ["@ + seq![background_char(idx)] + "] >"@)
        + option_ops(x, w.tint_terminal_row as int, "Tint terminal content:"@, tint, cs)
        + option_ops(x, w.auto_save_row as int, "Auto-save session on exit:"@, c.auto_save, cs)
        + option_ops(x, w.lockscreen_row as int, "Lockscreen (Shift+Q):"@, c.lockscreen_enabled, cs)
        + (if shows_auth_mode(c, compiled) {
            selector_ops(x, w.lockscreen_auth_row as int, "Auth mode:"@, auth_mode_text(c.lockscreen_auth_mode, available))
        } else {
            Seq::empty()
        })
        + (if shows_pin_setup(c, compiled) {
            pin_button_ops(x, w.pin_setup_row as int, c.lockscreen_pin_hash is Some && c.lockscreen_salt is Some)
        } else {
            Seq::empty()
        })
}

/// The cells of the settings window in drawing order: frame, options and
/// the closing hint on the second row from the bottom
pub open spec fn config_window_ops(w: ConfigWindow, cs: Charset, c: AppConfig, tint: bool, available: bool, compiled: bool) -> Seq<DrawOp> {
    frame_ops(w, cs) + options_ops(w, cs, c, tint, available, compiled) + text_run(
        w.x + (w.width - 18) / 2,
        w.y + w.height - 2,
        "Press ESC to close"@,
        Paint::Role(ThemeColor::ConfigInstructionsFg),
        content_bg(),
    )
}

impl ConfigWindow {
    fn render_option(&self, ops: &mut Vec<DrawOp>, row: u16, label: &str, enabled: bool, charset: &Charset)
        requires
            self.x + 11 + label@.len() <= u16::MAX,
        ensures
            final(ops)@ == old(ops)@ + option_ops(self.x as int, row as int, label@, enabled, *charset),
    {
        let option_x = self.x + 3;
        let l = chars_of(label);
        push_text(ops, option_x, row, &l, Paint::Role(ThemeColor::ConfigContentFg), Paint::Role(ThemeColor::ConfigContentBg));
        let toggle_x = option_x + l.len() as u16 + 1;
        let mut t: Vec<char> = Vec::new();
        if enabled {
            t.push('[');
            t.push(charset.block);
            push_str_chars(&mut t, " on]");
            proof {
                reveal_strlit(" on]");
            }
            push_marked(ops, toggle_x, row, &t, 1, Paint::Role(ThemeColor::ConfigToggleOnColor), Paint::Role(ThemeColor::ConfigContentFg), Paint::Role(ThemeColor::ConfigContentBg));
            assert(t@ =~= seq!['[', charset.block] + " on]"@);
        } else {
            push_str_chars(&mut t, "[off ");
            t.push(charset.shade);
            push_str_chars(&mut t, "]");
            proof {
                reveal_strlit("[off ");
                reveal_strlit("]");
            }
            push_marked(ops, toggle_x, row, &t, 4, Paint::Role(ThemeColor::ConfigToggleOffColor), Paint::Role(ThemeColor::ConfigContentFg), Paint::Role(ThemeColor::ConfigContentBg));
            assert(t@ =~= "[off "@ + seq![charset.shade] + "]"@);
        }
        assert(final(ops)@ =~= old(ops)@ + option_ops(self.x as int, row as int, label@, enabled, *charset));
    }

    fn render_selector(&self, ops: &mut Vec<DrawOp>, row: u16, label: &str, choice: &Vec<char>)
        requires
            self.x + 3 + label@.len() + 2 + choice@.len() <= u16::MAX,
        ensures
            final(ops)@ == old(ops)@ + selector_ops(self.x as int, row as int, label@, choice@),
    {
        let option_x = self.x + 3;
        let l = chars_of(label);
        push_text(ops, option_x, row, &l, Paint::Role(ThemeColor::ConfigContentFg), Paint::Role(ThemeColor::ConfigContentBg));
        let selector_x = option_x + l.len() as u16 + 2;
        push_text(ops, selector_x, row, choice, Paint::Role(ThemeColor::ConfigContentFg), Paint::Role(ThemeColor::ConfigContentBg));
        assert(final(ops)@ =~= old(ops)@ + selector_ops(self.x as int, row as int, label@, choice@));
    }

    fn render_pin_setup_button(&self, ops: &mut Vec<DrawOp>, row: u16, has_pin: bool)
        requires
            self.x + 50 <= u16::MAX,
        ensures
            final(ops)@ == old(ops)@ + pin_button_ops(self.x as int, row as int, has_pin),
    {
        let option_x = self.x + 3;
        let (button_text, status_text) = if has_pin {
            ("[ Change PIN ]", "   PIN is configured")
        } else {
            ("[ Set PIN ]", "      PIN required to enable")
        };
        proof {
            reveal_strlit("[ Change PIN ]");
            reveal_strlit("   PIN is configured");
            reveal_strlit("[ Set PIN ]");
            reveal_strlit("      PIN required to enable");
        }
        let b = chars_of(button_text);
        let st = chars_of(status_text);
        push_text(ops, option_x, row, &b, Paint::Role(ThemeColor::ConfigToggleOnColor), Paint::Role(ThemeColor::ConfigContentBg));
        push_text(ops, option_x + b.len() as u16, row, &st, Paint::Role(ThemeColor::ConfigContentFg), Paint::Role(ThemeColor::ConfigContentBg));
        assert(final(ops)@ =~= old(ops)@ + pin_button_ops(self.x as int, row as int, has_pin));
    }

    fn render_frame(&self, ops: &mut Vec<DrawOp>, charset: &Charset)
        requires
            self.width >= 18,
            self.height >= 2,
            self.x + self.width <= u16::MAX,
            self.y + self.height <= u16::MAX,
        ensures
            final(ops)@ == old(ops)@ + frame_ops(*self, *charset),
    {
        let border = Paint::Role(ThemeColor::ConfigBorder);
        let cbg = Paint::Role(ThemeColor::ConfigContentBg);
        let cfg = Paint::Role(ThemeColor::ConfigContentFg);
        let ghost start = ops@;
        push_op(ops, self.x, self.y, charset.border_top_left, border, cbg);
        let title = chars_of(" Settings ");
        proof {
            reveal_strlit(" Settings ");
        }
        let title_start = self.x + (self.width - 10) / 2;
        push_hrun(ops, self.x + 1, self.y, title_start - self.x - 1, charset.border_horizontal, border, cbg);
        push_text(ops, title_start, self.y, &title, Paint::Role(ThemeColor::ConfigTitleFg), Paint::Role(ThemeColor::ConfigTitleBg));
        let after = title_start + 10 - self.x;
        if after < self.width - 1 {
            push_hrun(ops, self.x + after, self.y, self.width - 1 - after, charset.border_horizontal, border, cbg);
        }
        push_op(ops, self.x + self.width - 1, self.y, charset.border_top_right, border, cbg);
        let ghost top = ops@;
        let mut r: u16 = 1;
        while r < self.height - 1
            invariant
                self.width >= 18,
                self.height >= 2,
                self.x + self.width <= u16::MAX,
                self.y + self.height <= u16::MAX,
                1 <= r <= self.height - 1,
                ops@ == top + content_rows(self.x as int, self.y as int, self.width as int, r - 1, *charset),
            decreases self.height - r,
        {
            push_op(ops, self.x, self.y + r, charset.border_vertical, Paint::Role(ThemeColor::ConfigBorder), Paint::Role(ThemeColor::ConfigContentBg));
            push_hrun(ops, self.x + 1, self.y + r, self.width - 2, ' ', Paint::Role(ThemeColor::ConfigContentFg), Paint::Role(ThemeColor::ConfigContentBg));
            push_op(ops, self.x + self.width - 1, self.y + r, charset.border_vertical, Paint::Role(ThemeColor::ConfigBorder), Paint::Role(ThemeColor::ConfigContentBg));
            assert(ops@ =~= top + content_rows(self.x as int, self.y as int, self.width as int, r as int, *charset));
            r = r + 1;
        }
        push_op(ops, self.x, self.y + self.height - 1, charset.border_bottom_left, border, cbg);
        push_hrun(ops, self.x + 1, self.y + self.height - 1, self.width - 2, charset.border_horizontal, border, cbg);
        push_op(ops, self.x + self.width - 1, self.y + self.height - 1, charset.border_bottom_right, border, cbg);
        assert(ops@ =~= start + frame_ops(*self, *charset));
    }

    fn theme_choice(config: &AppConfig) -> (v: Vec<char>)
        ensures
            v@ == "< "@ + theme_display(config.theme@) + " >"@,
            v@.len() <= 18,
    {
        proof {
            reveal_strlit("< ");
            reveal_strlit(" >");
            reveal_strlit("Classic");
            reveal_strlit("Monochrome");
            reveal_strlit("Dark");
            reveal_strlit("Dracu");
            reveal_strlit("Green Phosphor");
            reveal_strlit("Amber");
            reveal_strlit("NDD");
            reveal_strlit("QBasic");
            reveal_strlit("TurboP");
            reveal_strlit("NCC");
            reveal_strlit("XT");
            reveal_strlit("WP");
            reveal_strlit("dB");
        }
        let mut v: Vec<char> = Vec::new();
        push_str_chars(&mut v, "< ");
        push_str_chars(&mut v, theme_display_of(config.theme.as_str()));
        push_str_chars(&mut v, " >");
        v
    }

    fn background_choice(config: &AppConfig) -> (v: Vec<char>)
        ensures
            ({
                let idx = if config.background_char_index < BACKGROUND_CHAR_COUNT {
                    config.background_char_index as int
                } else {
                    0
                };
                v@ == "< "@ + background_char_name(idx) + " ["@ + seq![background_char(idx)] + "] >"@
            }),
            v@.len() <= 20,
    {
        proof {
            reveal_strlit("< ");
            reveal_strlit(" [");
            reveal_strlit("] >");
            reveal_strlit("Empty");
            reveal_strlit("Medium Shade");
            reveal_strlit("Dark Shade");
            reveal_strlit("Full Block");
            reveal_strlit("Light Shade");
        }
        let mut v: Vec<char> = Vec::new();
        push_str_chars(&mut v, "< ");
        push_str_chars(&mut v, config.get_background_char_name());
        push_str_chars(&mut v, " [");
        v.push(config.get_background_char());
        push_str_chars(&mut v, "] >");
        v
    }

    fn render_options(
        &self,
        charset: &Charset,
        config: &AppConfig,
        tint_terminal: bool,
        os_auth_available: bool,
        os_auth_compiled: bool,
    ) -> (ops: Vec<DrawOp>)
        requires
            self.x + 50 <= u16::MAX,
        ensures
            ops@ == options_ops(*self, *charset, *config, tint_terminal, os_auth_available, os_auth_compiled),
    {
        proof {
            reveal_strlit("On startup Auto Tiling:");
            reveal_strlit("Show Date in clock:");
            reveal_strlit("Theme:");
            reveal_strlit("Background character:");
            reveal_strlit("Tint terminal content:");
            reveal_strlit("Auto-save session on exit:");
            reveal_strlit("Lockscreen (Shift+Q):");
            reveal_strlit("Auth mode:");
        }
        let ghost x = self.x as int;
        let mut ops: Vec<DrawOp> = Vec::new();
        self.render_option(&mut ops, self.auto_arrange_row, "On startup Auto Tiling:", config.auto_tiling_on_startup, charset);
        assert(ops@ =~= option_ops(x, self.auto_arrange_row as int, "On startup Auto Tiling:"@, config.auto_tiling_on_startup, *charset));
        self.render_option(&mut ops, self.show_date_row, "Show Date in clock:", config.show_date_in_clock, charset);
        let theme_text = Self::theme_choice(config);
        self.render_selector(&mut ops, self.theme_row, "Theme:", &theme_text);
        let bg_text = Self::background_choice(config);
        self.render_selector(&mut ops, self.background_char_row, "Background character:", &bg_text);
        self.render_option(&mut ops, self.tint_terminal_row, "Tint terminal content:", tint_terminal, charset);
        self.render_option(&mut ops, self.auto_save_row, "Auto-save session on exit:", config.auto_save, charset);
        self.render_option(&mut ops, self.lockscreen_row, "Lockscreen (Shift+Q):", config.lockscreen_enabled, charset);
        let ghost before_auth = ops@;
        if config.lockscreen_enabled && os_auth_compiled {
            let mode_text = match config.lockscreen_auth_mode {
                LockscreenAuthMode::OsAuth => {
                    if os_auth_available {
                        "< OS Auth >"
                    } else {
                        "< OS Auth (unavail) >"
                    }
                },
                LockscreenAuthMode::Pin => "< PIN >",
            };
            proof {
                reveal_strlit("< OS Auth >");
                reveal_strlit("< OS Auth (unavail) >");
                reveal_strlit("< PIN >");
            }
            let mt = chars_of(mode_text);
            self.render_selector(&mut ops, self.lockscreen_auth_row, "Auth mode:", &mt);
        } else {
            assert(ops@ =~= before_auth + Seq::<DrawOp>::empty());
        }
        let ghost before_pin = ops@;
        let pin_mode = match config.lockscreen_auth_mode {
            LockscreenAuthMode::Pin => true,
            LockscreenAuthMode::OsAuth => false,
        };
        if config.lockscreen_enabled && (pin_mode || !os_auth_compiled) {
            self.render_pin_setup_button(&mut ops, self.pin_setup_row, config.has_pin_configured());
        } else {
            assert(ops@ =~= before_pin + Seq::<DrawOp>::empty());
        }
        ops
    }

    /// The cells of the settings window, in drawing order. The drop shadow
    /// around the window is not among them.
    pub fn render(
        &self,
        charset: &Charset,
        config: &AppConfig,
        tint_terminal: bool,
        os_auth_available: bool,
        os_auth_compiled: bool,
    ) -> (ops: Vec<DrawOp>)
        requires
            self.width >= 18,
            self.height >= 2,
            self.x + self.width <= u16::MAX,
            self.x + 50 <= u16::MAX,
            self.y + self.height <= u16::MAX,
        ensures
            ops@ == config_window_ops(*self, *charset, *config, tint_terminal, os_auth_available, os_auth_compiled),
    {
        let mut ops: Vec<DrawOp> = Vec::new();
        self.render_frame(&mut ops, charset);
        assert(ops@ =~= frame_ops(*self, *charset));
        let mut options = self.render_options(charset, config, tint_terminal, os_auth_available, os_auth_compiled);
        ops.append(&mut options);
        let instruction = chars_of("Press ESC to close");
        proof {
            reveal_strlit("Press ESC to close");
        }
        let instruction_x = self.x + (self.width - 18) / 2;
        push_text(&mut ops, instruction_x, self.y + self.height - 2, &instruction, Paint::Role(ThemeColor::ConfigInstructionsFg), Paint::Role(ThemeColor::ConfigContentBg));
        ops
    }
}

} // verus!
