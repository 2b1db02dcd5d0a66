//! Application settings and the changes the settings window makes to them.
//! Reading and writing the settings file is left to the caller.

use vstd::prelude::*;
use crate::auth::{hex_lower, salt_from_entropy, sha256_digest};
use crate::text::{chars_of, string_from_chars, trim_chars, trimmed};
use crate::draw::str_eq;

verus! {

/// Authentication mode for lockscreen
#[derive(Debug, Clone, Copy, PartialEq, Eq, Structural)]
pub enum LockscreenAuthMode {
    /// Native authentication of the operating system
    OsAuth,
    /// Alphanumeric PIN checked against a local salted hash
    Pin,
}

impl LockscreenAuthMode {
    /// The default mode, PIN, is available everywhere
    pub fn default_mode() -> (m: Self)
        ensures
            m == LockscreenAuthMode::Pin,
    {
        LockscreenAuthMode::Pin
    }
}

/// Application settings
/// How a machine identifier becomes a salt
#[derive(Debug, Clone, Copy, PartialEq, Eq, Structural)]
pub enum IdForm {
    /// Used as it was read
    Exact,
    /// With white space trimmed from both ends, even if nothing is left
    Trimmed,
    /// With white space trimmed, and only if something is left
    TrimmedNonEmpty,
}

/// The salt that an identifier gives in a form, if it gives one
pub open spec fn id_salt(m: Seq<char>, form: IdForm) -> Option<Seq<char>> {
    match form {
        IdForm::Exact => Some(m),
        IdForm::Trimmed => Some(trimmed(m)),
        IdForm::TrimmedNonEmpty => if trimmed(m).len() > 0 {
            Some(trimmed(m))
        } else {
            None
        },
    }
}

#[derive(Debug, Clone)]
pub struct AppConfig {
    pub auto_tiling_on_startup: bool,
    pub tiling_gaps: bool,
    pub show_date_in_clock: bool,
    pub theme: String,
    pub background_char_index: usize,
    pub tint_terminal: bool,
    pub auto_save: bool,
    pub lockscreen_enabled: bool,
    pub lockscreen_auth_mode: LockscreenAuthMode,
    pub lockscreen_pin_hash: Option<String>,
    pub lockscreen_salt: Option<String>,
}

/// Auto tiling is off at startup unless configured
pub fn default_auto_tiling_on_startup() -> (b: bool)
    ensures
        !b,
{
    false
}

/// Tiled windows have gaps between them by default
pub fn default_tiling_gaps() -> (b: bool)
    ensures
        b,
{
    true
}

/// The clock shows the date by default
pub fn default_show_date_in_clock() -> (b: bool)
    ensures
        b,
{
    true
}

/// The default theme is "classic"
pub fn default_theme() -> (s: String)
    ensures
        s@ == "classic"@,
{
    "classic".to_owned()
}

/// The default desktop background is the light shade
pub fn default_background_char_index() -> (i: usize)
    ensures
        i == 0,
{
    0
}

/// Terminal content keeps its own colors by default
pub fn default_tint_terminal() -> (b: bool)
    ensures
        !b,
{
    false
}

/// The session is saved on exit by default
pub fn default_auto_save() -> (b: bool)
    ensures
        b,
{
    true
}

/// The lockscreen is enabled by default
pub fn default_lockscreen_enabled() -> (b: bool)
    ensures
        b,
{
    true
}

/// Number of desktop background characters to choose from
pub const BACKGROUND_CHAR_COUNT: usize = 5;

/// The desktop background characters: light shade, space, medium shade,
/// dark shade, full block
pub open spec fn background_char(i: int) -> char {
    if i == 1 {
        ' '
    } else if i == 2 {
        '\u{2592}'
    } else if i == 3 {
        '\u{2593}'
    } else if i == 4 {
        '\u{2588}'
    } else {
        '\u{2591}'
    }
}

/// Display names of the desktop background characters
pub open spec fn background_char_name(i: int) -> Seq<char> {
    if i == 1 {
        "Empty"@
    } else if i == 2 {
        "Medium Shade"@
    } else if i == 3 {
        "Dark Shade"@
    } else if i == 4 {
        "Full Block"@
    } else {
        "Light Shade"@
    }
}

/// The background character after `i` in the cycle
pub open spec fn next_background_index(i: int) -> int {
    (i + 1) % (BACKGROUND_CHAR_COUNT as int)
}

/// The background character before `i` in the cycle (the last before the
/// first)
pub open spec fn prev_background_index(i: int) -> int {
    if i == 0 {
        BACKGROUND_CHAR_COUNT - 1
    } else {
        i - 1
    }
}

/// The settings with every field at its default
pub open spec fn is_default_config(c: AppConfig) -> bool {
    &&& !c.auto_tiling_on_startup
    &&& c.tiling_gaps
    &&& c.show_date_in_clock
    &&& c.theme@ == "classic"@
    &&& c.background_char_index == 0
    &&& !c.tint_terminal
    &&& c.auto_save
    &&& c.lockscreen_enabled
    &&& c.lockscreen_auth_mode == LockscreenAuthMode::Pin
    &&& c.lockscreen_pin_hash is None
    &&& c.lockscreen_salt is None
}

/// Two settings agree on every field but the one a setter changes
pub open spec fn same_settings_but(a: AppConfig, b: AppConfig, field: int) -> bool {
    &&& (field != 0 ==> a.auto_tiling_on_startup == b.auto_tiling_on_startup)
    &&& (field != 1 ==> a.tiling_gaps == b.tiling_gaps)
    &&& (field != 2 ==> a.show_date_in_clock == b.show_date_in_clock)
    &&& (field != 3 ==> a.theme == b.theme)
    &&& (field != 4 ==> a.background_char_index == b.background_char_index)
    &&& (field != 5 ==> a.tint_terminal == b.tint_terminal)
    &&& (field != 6 ==> a.auto_save == b.auto_save)
    &&& (field != 7 ==> a.lockscreen_enabled == b.lockscreen_enabled)
    &&& (field != 8 ==> a.lockscreen_auth_mode == b.lockscreen_auth_mode)
    &&& (field != 7 && field != 9 ==> a.lockscreen_pin_hash == b.lockscreen_pin_hash
        && a.lockscreen_salt == b.lockscreen_salt)
}

/// The theme after `name` in the settings window's cycle (the first for
/// an unknown name, and the first again after the last)
pub open spec fn next_theme(name: Seq<char>) -> Seq<char> {
    if name == "classic"@ {
        "monochrome"@
    } else if name == "monochrome"@ {
        "dark"@
    } else if name == "dark"@ {
        "dracu"@
    } else if name == "dracu"@ {
        "green_phosphor"@
    } else if name == "green_phosphor"@ {
        "amber"@
    } else if name == "amber"@ {
        "ndd"@
    } else if name == "ndd"@ {
        "qbasic"@
    } else if name == "qbasic"@ {
        "turbo"@
    } else if name == "turbo"@ {
        "norton_commander"@
    } else if name == "norton_commander"@ {
        "xtree"@
    } else if name == "xtree"@ {
        "wordperfect"@
    } else if name == "wordperfect"@ {
        "dbase"@
    } else if name == "dbase"@ {
        "classic"@
    } else {
        "classic"@
    }
}

fn next_theme_of(name: &str) -> (n: &'static str)
    ensures
        n@ == next_theme(name@),
{
    if str_eq(name, "classic") {
        "monochrome"
    } else if str_eq(name, "monochrome") {
        "dark"
    } else if str_eq(name, "dark") {
        "dracu"
    } else if str_eq(name, "dracu") {
        "green_phosphor"
    } else if str_eq(name, "green_phosphor") {
        "amber"
    } else if str_eq(name, "amber") {
        "ndd"
    } else if str_eq(name, "ndd") {
        "qbasic"
    } else if str_eq(name, "qbasic") {
        "turbo"
    } else if str_eq(name, "turbo") {
        "norton_commander"
    } else if str_eq(name, "norton_commander") {
        "xtree"
    } else if str_eq(name, "xtree") {
        "wordperfect"
    } else if str_eq(name, "wordperfect") {
        "dbase"
    } else if str_eq(name, "dbase") {
        "classic"
    } else {
        "classic"
    }
}

impl Default for AppConfig {
    fn default() -> (c: Self)
        ensures
            is_default_config(c),
    {
        AppConfig {
            auto_tiling_on_startup: default_auto_tiling_on_startup(),
            tiling_gaps: default_tiling_gaps(),
            show_date_in_clock: default_show_date_in_clock(),
            theme: default_theme(),
            background_char_index: default_background_char_index(),
            tint_terminal: default_tint_terminal(),
            auto_save: default_auto_save(),
            lockscreen_enabled: default_lockscreen_enabled(),
            lockscreen_auth_mode: LockscreenAuthMode::default_mode(),
            lockscreen_pin_hash: None,
            lockscreen_salt: None,
        }
    }
}

impl AppConfig {
    /// Toggle auto tiling on startup
    pub fn toggle_auto_tiling_on_startup(&mut self)
        ensures
            final(self).auto_tiling_on_startup == !old(self).auto_tiling_on_startup,
            same_settings_but(*old(self), *final(self), 0),
    {
        self.auto_tiling_on_startup = !self.auto_tiling_on_startup;
    }

    /// Toggle gaps between tiled windows
    pub fn toggle_tiling_gaps(&mut self)
        ensures
            final(self).tiling_gaps == !old(self).tiling_gaps,
            same_settings_but(*old(self), *final(self), 1),
    {
        self.tiling_gaps = !self.tiling_gaps;
    }

    /// Toggle the date in the clock
    pub fn toggle_show_date_in_clock(&mut self)
        ensures
            final(self).show_date_in_clock == !old(self).show_date_in_clock,
            same_settings_but(*old(self), *final(self), 2),
    {
        self.show_date_in_clock = !self.show_date_in_clock;
    }

    /// Step the theme to the next one of the settings window's cycle
    pub fn cycle_theme(&mut self)
        ensures
            final(self).theme@ == next_theme(old(self).theme@),
            same_settings_but(*old(self), *final(self), 3),
    {
        let next = next_theme_of(self.theme.as_str());
        self.theme = next.to_string();
    }

    /// Set the theme
    pub fn set_theme(&mut self, theme_name: String)
        ensures
            final(self).theme == theme_name,
            same_settings_but(*old(self), *final(self), 3),
    {
        self.theme = theme_name;
    }

    /// The current background character (the first one if the index is out
    /// of range)
    pub fn get_background_char(&self) -> (c: char)
        ensures
            c == background_char(
                if self.background_char_index < BACKGROUND_CHAR_COUNT {
                    self.background_char_index as int
                } else {
                    0
                },
            ),
    {
        match self.background_char_index {
            1 => ' ',
            2 => '\u{2592}',
            3 => '\u{2593}',
            4 => '\u{2588}',
            _ => '\u{2591}',
        }
    }

    /// The display name of the current background character
    pub fn get_background_char_name(&self) -> (s: &'static str)
        ensures
            s@ == background_char_name(
                if self.background_char_index < BACKGROUND_CHAR_COUNT {
                    self.background_char_index as int
                } else {
                    0
                },
            ),
    {
        match self.background_char_index {
            1 => "Empty",
            2 => "Medium Shade",
            3 => "Dark Shade",
            4 => "Full Block",
            _ => "Light Shade",
        }
    }

    /// Cycle to the next background character
    pub fn cycle_background_char(&mut self)
        requires
            old(self).background_char_index < usize::MAX,
        ensures
            final(self).background_char_index == next_background_index(
                old(self).background_char_index as int,
            ),
            same_settings_but(*old(self), *final(self), 4),
    {
        self.background_char_index = (self.background_char_index + 1) % BACKGROUND_CHAR_COUNT;
    }

    /// Cycle to the previous background character
    pub fn cycle_background_char_backward(&mut self)
        ensures
            final(self).background_char_index == prev_background_index(
                old(self).background_char_index as int,
            ),
            same_settings_but(*old(self), *final(self), 4),
    {
        if self.background_char_index == 0 {
            self.background_char_index = BACKGROUND_CHAR_COUNT - 1;
        } else {
            self.background_char_index = self.background_char_index - 1;
        }
    }

    /// Toggle tinting of terminal content
    pub fn toggle_tint_terminal(&mut self)
        ensures
            final(self).tint_terminal == !old(self).tint_terminal,
            same_settings_but(*old(self), *final(self), 5),
    {
        self.tint_terminal = !self.tint_terminal;
    }

    /// Toggle saving the session on exit
    pub fn toggle_auto_save(&mut self)
        ensures
            final(self).auto_save == !old(self).auto_save,
            same_settings_but(*old(self), *final(self), 6),
    {
        self.auto_save = !self.auto_save;
    }

    /// Toggle the lockscreen; disabling it forgets the PIN
    pub fn toggle_lockscreen_enabled(&mut self)
        ensures
            final(self).lockscreen_enabled == !old(self).lockscreen_enabled,
            !final(self).lockscreen_enabled ==> final(self).lockscreen_pin_hash is None
                && final(self).lockscreen_salt is None,
            final(self).lockscreen_enabled ==> final(self).lockscreen_pin_hash
                == old(self).lockscreen_pin_hash && final(self).lockscreen_salt
                == old(self).lockscreen_salt,
            same_settings_but(*old(self), *final(self), 7),
    {
        self.lockscreen_enabled = !self.lockscreen_enabled;
        if !self.lockscreen_enabled {
            self.lockscreen_pin_hash = None;
            self.lockscreen_salt = None;
        }
    }

    /// Cycle the lockscreen authentication mode; PIN only switches to OS
    /// authentication when that is available
    pub fn cycle_lockscreen_auth_mode(&mut self, os_auth_available: bool)
        ensures
            old(self).lockscreen_auth_mode == LockscreenAuthMode::OsAuth
                ==> final(self).lockscreen_auth_mode == LockscreenAuthMode::Pin,
            old(self).lockscreen_auth_mode == LockscreenAuthMode::Pin
                ==> final(self).lockscreen_auth_mode == (if os_auth_available {
                LockscreenAuthMode::OsAuth
            } else {
                LockscreenAuthMode::Pin
            }),
            same_settings_but(*old(self), *final(self), 8),
    {
        self.lockscreen_auth_mode = match self.lockscreen_auth_mode {
            LockscreenAuthMode::OsAuth => LockscreenAuthMode::Pin,
            LockscreenAuthMode::Pin => {
                if os_auth_available {
                    LockscreenAuthMode::OsAuth
                } else {
                    LockscreenAuthMode::Pin
                }
            },
        };
    }

    /// Whether a PIN hash and its salt are both stored
    pub fn has_pin_configured(&self) -> (b: bool)
        ensures
            b == (self.lockscreen_pin_hash is Some && self.lockscreen_salt is Some),
    {
        self.lockscreen_pin_hash.is_some() && self.lockscreen_salt.is_some()
    }

    /// Store a PIN hash and its salt
    pub fn set_pin(&mut self, hash: String, salt: String)
        ensures
            final(self).lockscreen_pin_hash == Some(hash),
            final(self).lockscreen_salt == Some(salt),
            same_settings_but(*old(self), *final(self), 9),
    {
        self.lockscreen_pin_hash = Some(hash);
        self.lockscreen_salt = Some(salt);
    }

    /// Forget the PIN
    pub fn clear_pin(&mut self)
        ensures
            final(self).lockscreen_pin_hash is None,
            final(self).lockscreen_salt is None,
            same_settings_but(*old(self), *final(self), 9),
    {
        self.lockscreen_pin_hash = None;
        self.lockscreen_salt = None;
    }

    /// The salt for PIN hashing: the stored one if there is one; otherwise
    /// the machine's identifier, taken as `form` says, otherwise a random
    /// salt made from `entropy`. A new salt is stored.
    pub fn get_or_create_salt(&mut self, machine_id: Option<&str>, form: IdForm, entropy: &[u8]) -> (s: String)
        ensures
            old(self).lockscreen_salt is Some ==> s == old(self).lockscreen_salt->0
                && final(self).lockscreen_salt == old(self).lockscreen_salt,
            old(self).lockscreen_salt is None ==> final(self).lockscreen_salt == Some(s),
            old(self).lockscreen_salt is None ==> s@ == (match machine_id {
                Some(m) => match id_salt(m@, form) {
                    Some(t) => t,
                    None => hex_lower(sha256_digest(entropy@)),
                },
                None => hex_lower(sha256_digest(entropy@)),
            }),
            final(self).lockscreen_pin_hash == old(self).lockscreen_pin_hash,
            same_settings_but(*old(self), *final(self), 9),
    {
        if let Some(salt) = &self.lockscreen_salt {
            return salt.clone();
        }
        let salt = match machine_id {
            Some(m) => {
                match form {
                    IdForm::Exact => m.to_string(),
                    _ => {
                        let t = trim_chars(&chars_of(m));
                        if form == IdForm::Trimmed || t.len() > 0 {
                            string_from_chars(&t)
                        } else {
                            salt_from_entropy(entropy)
                        }
                    },
                }
            },
            None => salt_from_entropy(entropy),
        };
        self.lockscreen_salt = Some(salt.clone());
        salt
    }
}

} // verus!
