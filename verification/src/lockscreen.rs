//! The lockscreen: login form, authentication attempts and progressive
//! lockout after repeated failures.
//!
//! Times are milliseconds on a monotonic clock whose origin is the creation
//! of the lockscreen.

use vstd::prelude::*;
use crate::auth::{AuthResult, Authenticator, PinAuthenticator, StubAuthenticator, pin_verdict};
use crate::config::LockscreenAuthMode;
use crate::text::{chars_of, decimal, push_decimal, push_str_chars, secure_clear, string_from_chars, utf8_len};
use crate::charset::Charset;
use crate::color::UiColor;
use crate::draw::{DrawOp, Paint, ThemeColor, op, hrun, text_run, rect_fill, push_hrun, push_text, push_rect_fill, push_op};
use crate::error_dialog::{line_bytes16, min_int, utf8_len_sat};
use crate::clock::{clock_now, millis_since};

verus! {

/// The duration of a whole number of seconds, as `Duration::from_secs`
/// makes it (a function of the number alone)
pub uninterp spec fn duration_of_secs(secs: u64) -> core::time::Duration;

/// `core::time::Duration::from_secs`: the contract claims only that the
/// duration is a function of the number of seconds, named `duration_of_secs`.
pub assume_specification[ core::time::Duration::from_secs ](secs: u64) -> (d: core::time::Duration)
    ensures
        d == duration_of_secs(secs),
;

/// Longest lockout, in seconds
pub const MAX_LOCKOUT_SECS: u64 = 120;

/// State of the lockscreen
#[derive(Debug, Clone, Copy, PartialEq, Eq, Structural)]
pub enum LockScreenState {
    /// Lockscreen is not active
    Inactive,
    /// Lockscreen is active, waiting for input
    Active,
    /// Locked out due to failed attempts, until the given time (milliseconds)
    LockedOut { until: u64 },
}

/// Focus state for the login form
#[derive(Debug, Clone, Copy, PartialEq, Eq, Structural)]
pub enum InputFocus {
    Username,
    Password,
}

/// Who checks the credentials
pub enum LockBackend {
    /// The salted PIN hash stored in the settings
    Pin(PinAuthenticator),
    /// The operating system (the caller performs the check)
    System,
    /// Nothing: every attempt is a system error
    Unavailable(StubAuthenticator),
}

/// Lockout in seconds after the given number of failed attempts:
/// none for up to 2, then 5, 15, 30, 60 and 120 seconds
pub open spec fn lockout_secs(failed_attempts: u32) -> u64 {
    if failed_attempts <= 2 {
        0
    } else if failed_attempts == 3 {
        5
    } else if failed_attempts == 4 {
        15
    } else if failed_attempts == 5 {
        30
    } else if failed_attempts == 6 {
        60
    } else {
        120
    }
}

/// The lockscreen UI component
pub struct LockScreen {
    pub state: LockScreenState,
    pub username: Vec<char>,
    pub password: Vec<char>,
    pub cursor_position: usize,
    pub focus: InputFocus,
    pub error_message: Option<String>,
    pub failed_attempts: u32,
    pub dialog_width: u16,
    pub dialog_height: u16,
    pub backend: LockBackend,
    pub auth_mode: LockscreenAuthMode,
    pub pin_hash: Option<String>,
    pub pin_salt: Option<String>,
    pub system_available: bool,
    pub system_name: &'static str,
    pub clock_origin: std::time::Instant,
}

/// The backend for a mode: PIN needs a usable hash and salt, OS
/// authentication needs the system's
pub open spec fn backend_fits(
    b: LockBackend,
    mode: LockscreenAuthMode,
    pin_hash: Option<String>,
    pin_salt: Option<String>,
    system_available: bool,
) -> bool {
    match mode {
        LockscreenAuthMode::Pin => match (pin_hash, pin_salt) {
            (Some(h), Some(s)) => if h@.len() > 0 && s@.len() > 0 {
                b matches LockBackend::Pin(a) && a.pin_hash == h && a.salt == s
            } else {
                b is Unavailable
            },
            _ => b is Unavailable,
        },
        LockscreenAuthMode::OsAuth => if system_available {
            b is System
        } else {
            b is Unavailable
        },
    }
}

/// Dialog height for a mode: the PIN form has no username field
pub open spec fn dialog_height_for(mode: LockscreenAuthMode) -> u16 {
    if mode == LockscreenAuthMode::Pin {
        12
    } else {
        14
    }
}

/// The text of the field that has the focus
pub open spec fn focused_text(l: LockScreen) -> Seq<char> {
    match l.focus {
        InputFocus::Username => l.username@,
        InputFocus::Password => l.password@,
    }
}

/// The cursor stands within the focused field
pub open spec fn cursor_ok(l: LockScreen) -> bool {
    l.cursor_position <= focused_text(l).len()
}

/// Whether the lockscreen is locked out at time `now`
pub open spec fn locked_out_at(s: LockScreenState, now: u64) -> bool {
    s matches LockScreenState::LockedOut { until } && now < until
}

/// Only the form (fields, cursor, focus, error) may differ
pub open spec fn same_setup(a: LockScreen, b: LockScreen) -> bool {
    &&& a.dialog_width == b.dialog_width
    &&& a.dialog_height == b.dialog_height
    &&& a.backend == b.backend
    &&& a.auth_mode == b.auth_mode
    &&& a.pin_hash == b.pin_hash
    &&& a.pin_salt == b.pin_salt
    &&& a.system_available == b.system_available
    &&& a.system_name == b.system_name
    &&& a.clock_origin == b.clock_origin
}

/// What a login attempt with the library's own backend at time `now` does:
/// nothing while locked out. Otherwise the right PIN unlocks, forgets the
/// failures and clears the password and the error; a wrong PIN counts a
/// failure, reports "Invalid PIN", clears the password, puts the cursor at
/// the start and locks out for the backoff of that many failures (none up to
/// two, then 5, 15, 30, 60 and 120 seconds); without a backend nothing
/// unlocks and the system error is reported. The user name and focus stay.
pub open spec fn login_outcome(a: LockScreen, b: LockScreen, now: u64, unlocked: bool) -> bool {
    if locked_out_at(a.state, now) {
        !unlocked && b == a
    } else {
        &&& same_setup(a, b)
        &&& b.username == a.username
        &&& b.focus == a.focus
        &&& match a.backend {
            LockBackend::Pin(p) => if pin_verdict(p, a.password@) {
                &&& unlocked
                &&& b.state == LockScreenState::Inactive
                &&& b.failed_attempts == 0
                &&& b.password@.len() == 0
                &&& b.error_message is None
                &&& b.cursor_position == a.cursor_position
            } else {
                let n = (a.failed_attempts + 1) as u32;
                &&& !unlocked
                &&& b.failed_attempts == n
                &&& b.error_message matches Some(m) && m@ == "Invalid PIN"@
                &&& b.password@.len() == 0
                &&& b.cursor_position == 0
                &&& b.state == if lockout_secs(n) == 0 {
                    LockScreenState::Active
                } else {
                    LockScreenState::LockedOut { until: lockout_end(now, lockout_secs(n)) }
                }
            },
            _ => {
                &&& !unlocked
                &&& b.error_message matches Some(m) && m@ == "Authentication system not available"@
                &&& b.state == LockScreenState::Active
                &&& b.failed_attempts == a.failed_attempts
                &&& b.password == a.password
                &&& b.cursor_position == a.cursor_position
            },
        }
    }
}

/// When a lockout of `secs` seconds that starts at `now` ends (the last
/// representable time, if it lies beyond)
pub open spec fn lockout_end(now: u64, secs: u64) -> u64 {
    if now + 1000 * secs <= u64::MAX {
        (now + 1000 * secs) as u64
    } else {
        u64::MAX
    }
}

/// What the per-frame update at time `now` does: a lockout whose time has
/// come ends (the form is shown again, without the error); nothing else
/// changes
pub open spec fn refreshed(a: LockScreen, b: LockScreen, now: u64) -> bool {
    if a.state matches LockScreenState::LockedOut { until } && now >= until {
        &&& b.state == LockScreenState::Active
        &&& b.error_message is None
        &&& same_setup(a, b)
        &&& b.username == a.username
        &&& b.password == a.password
        &&& b.cursor_position == a.cursor_position
        &&& b.focus == a.focus
        &&& b.failed_attempts == a.failed_attempts
    } else {
        b == a
    }
}

/// What typing `c` at time `now` does: nothing while locked out; otherwise
/// the character goes into the focused field at the cursor (when the cursor
/// is within it), the cursor moves past it, and any error disappears
pub open spec fn typed(a: LockScreen, b: LockScreen, c: char, now: u64) -> bool {
    if locked_out_at(a.state, now) {
        b == a
    } else {
        &&& b.error_message is None
        &&& b.state == a.state
        &&& b.focus == a.focus
        &&& b.failed_attempts == a.failed_attempts
        &&& same_setup(a, b)
        &&& if a.cursor_position <= focused_text(a).len() {
            &&& focused_text(b) == focused_text(a).insert(a.cursor_position as int, c)
            &&& b.cursor_position == a.cursor_position + 1
        } else {
            &&& focused_text(b) == focused_text(a)
            &&& b.cursor_position == a.cursor_position
        }
        &&& a.focus == InputFocus::Username ==> b.password == a.password
        &&& a.focus == InputFocus::Password ==> b.username == a.username
    }
}

/// What backspace at time `now` does: nothing while locked out; otherwise
/// the character before the cursor leaves the focused field and the cursor
/// moves back (nothing happens at the start of the field)
pub open spec fn backspaced(a: LockScreen, b: LockScreen, now: u64) -> bool {
    if locked_out_at(a.state, now) {
        b == a
    } else {
        &&& b.state == a.state
        &&& b.focus == a.focus
        &&& b.error_message == a.error_message
        &&& b.failed_attempts == a.failed_attempts
        &&& same_setup(a, b)
        &&& if a.cursor_position > 0 {
            &&& focused_text(b) == focused_text(a).remove(a.cursor_position - 1)
            &&& b.cursor_position == a.cursor_position - 1
        } else {
            &&& focused_text(b) == focused_text(a)
            &&& b.cursor_position == 0
        }
        &&& a.focus == InputFocus::Username ==> b.password == a.password
        &&& a.focus == InputFocus::Password ==> b.username == a.username
    }
}

/// Picks the backend that fits the mode
pub fn choose_backend(
    mode: LockscreenAuthMode,
    pin_hash: &Option<String>,
    pin_salt: &Option<String>,
    system_available: bool,
) -> (b: LockBackend)
    ensures
        backend_fits(b, mode, *pin_hash, *pin_salt, system_available),
{
    match mode {
        LockscreenAuthMode::Pin => match (pin_hash, pin_salt) {
            (Some(h), Some(s)) => match PinAuthenticator::new(h.clone(), s.clone()) {
                Ok(a) => LockBackend::Pin(a),
                Err(_) => LockBackend::Unavailable(StubAuthenticator::new()),
            },
            _ => LockBackend::Unavailable(StubAuthenticator::new()),
        },
        LockscreenAuthMode::OsAuth => {
            if system_available {
                LockBackend::System
            } else {
                LockBackend::Unavailable(StubAuthenticator::new())
            }
        },
    }
}

impl LockScreen {
    /// A lockscreen for the given mode. `system_available` and `system_name`
    /// describe the operating system's authentication, `username` pre-fills
    /// the form.
    pub fn new_with_system(
        auth_mode: LockscreenAuthMode,
        pin_hash: Option<String>,
        pin_salt: Option<String>,
        system_available: bool,
        system_name: &'static str,
        username: Vec<char>,
    ) -> (l: Self)
        ensures
            l.state == LockScreenState::Inactive,
            l.username == username,
            l.password@.len() == 0,
            l.cursor_position == 0,
            l.focus == InputFocus::Password,
            l.error_message is None,
            l.failed_attempts == 0,
            l.dialog_width == 50,
            l.dialog_height == dialog_height_for(auth_mode),
            l.auth_mode == auth_mode,
            l.pin_hash == pin_hash,
            l.pin_salt == pin_salt,
            l.system_available == system_available,
            l.system_name == system_name,
            backend_fits(l.backend, auth_mode, pin_hash, pin_salt, system_available),
    {
        let backend = choose_backend(auth_mode, &pin_hash, &pin_salt, system_available);
        LockScreen {
            state: LockScreenState::Inactive,
            username,
            password: Vec::new(),
            cursor_position: 0,
            focus: InputFocus::Password,
            error_message: None,
            failed_attempts: 0,
            dialog_width: 50,
            dialog_height: if auth_mode == LockscreenAuthMode::Pin {
                12
            } else {
                14
            },
            backend,
            auth_mode,
            pin_hash,
            pin_salt,
            system_available,
            system_name,
            clock_origin: clock_now(),
        }
    }

    /// A lockscreen in OS authentication mode before the system's
    /// authentication is known (none available, no username)
    pub fn new() -> (l: Self)
        ensures
            l.state == LockScreenState::Inactive,
            l.username@.len() == 0,
            l.password@.len() == 0,
            l.cursor_position == 0,
            l.focus == InputFocus::Password,
            l.failed_attempts == 0,
            l.error_message is None,
            l.auth_mode == LockscreenAuthMode::OsAuth,
            l.dialog_width == 50,
            l.dialog_height == 14,
            l.pin_hash is None,
            l.pin_salt is None,
            !l.system_available,
            l.system_name@ == "None (Disabled)"@,
            l.backend is Unavailable,
    {
        Self::new_with_system(LockscreenAuthMode::OsAuth, None, None, false, "None (Disabled)", Vec::new())
    }

    /// A lockscreen for the given mode, before the system's authentication is
    /// known
    pub fn new_with_mode(
        auth_mode: LockscreenAuthMode,
        pin_hash: Option<String>,
        pin_salt: Option<String>,
    ) -> (l: Self)
        ensures
            l.state == LockScreenState::Inactive,
            l.password@.len() == 0,
            l.cursor_position == 0,
            l.focus == InputFocus::Password,
            l.failed_attempts == 0,
            l.auth_mode == auth_mode,
            l.pin_hash == pin_hash,
            l.pin_salt == pin_salt,
            l.dialog_height == dialog_height_for(auth_mode),
            l.dialog_width == 50,
            l.error_message is None,
            l.username@.len() == 0,
            !l.system_available,
            l.system_name@ == "None (Disabled)"@,
            backend_fits(l.backend, auth_mode, pin_hash, pin_salt, false),
    {
        Self::new_with_system(auth_mode, pin_hash, pin_salt, false, "None (Disabled)", Vec::new())
    }

    /// Switch the authentication mode (after the settings changed)
    pub fn update_auth_mode(
        &mut self,
        auth_mode: LockscreenAuthMode,
        pin_hash: Option<String>,
        pin_salt: Option<String>,
    )
        ensures
            final(self).auth_mode == auth_mode,
            final(self).pin_hash == pin_hash,
            final(self).pin_salt == pin_salt,
            final(self).dialog_height == dialog_height_for(auth_mode),
            backend_fits(final(self).backend, auth_mode, pin_hash, pin_salt, old(self).system_available),
            final(self).state == old(self).state,
            final(self).username == old(self).username,
            final(self).password == old(self).password,
            final(self).cursor_position == old(self).cursor_position,
            final(self).focus == old(self).focus,
            final(self).failed_attempts == old(self).failed_attempts,
            final(self).system_available == old(self).system_available,
    {
        self.backend = choose_backend(auth_mode, &pin_hash, &pin_salt, self.system_available);
        self.auth_mode = auth_mode;
        self.pin_hash = pin_hash;
        self.pin_salt = pin_salt;
        self.dialog_height = if auth_mode == LockscreenAuthMode::Pin {
            12
        } else {
            14
        };
    }

    /// OS authentication needs the system's; a PIN needs its hash and salt
    pub fn is_available(&self) -> (b: bool)
        ensures
            b == match self.auth_mode {
                LockscreenAuthMode::OsAuth => self.system_available,
                LockscreenAuthMode::Pin => self.pin_hash is Some && self.pin_salt is Some,
            },
    {
        match self.auth_mode {
            LockscreenAuthMode::OsAuth => self.system_available,
            LockscreenAuthMode::Pin => self.pin_hash.is_some() && self.pin_salt.is_some(),
        }
    }

    /// Name of the authentication system in use
    pub fn auth_system_name(&self) -> (s: &'static str)
        ensures
            self.backend is Pin ==> s@ == "PIN"@,
            self.backend is Unavailable ==> s@ == "None (Disabled)"@,
            self.backend is System ==> s == self.system_name,
    {
        match &self.backend {
            LockBackend::Pin(a) => a.system_name(),
            LockBackend::System => self.system_name,
            LockBackend::Unavailable(a) => a.system_name(),
        }
    }

    /// Current authentication mode
    pub fn auth_mode(&self) -> (m: LockscreenAuthMode)
        ensures
            m == self.auth_mode,
    {
        self.auth_mode
    }

    /// Activate the lockscreen: empty password field with the focus, no
    /// error; failed attempts are kept until a successful unlock
    pub fn lock(&mut self)
        ensures
            final(self).state == LockScreenState::Active,
            final(self).password@.len() == 0,
            final(self).cursor_position == 0,
            final(self).focus == InputFocus::Password,
            final(self).error_message is None,
            final(self).failed_attempts == old(self).failed_attempts,
            final(self).username == old(self).username,
            same_setup(*old(self), *final(self)),
    {
        self.state = LockScreenState::Active;
        secure_clear(&mut self.password);
        self.cursor_position = 0;
        self.focus = InputFocus::Password;
        self.error_message = None;
    }

    /// Whether the lockscreen is shown
    pub fn is_active(&self) -> (b: bool)
        ensures
            b == !(self.state is Inactive),
    {
        match self.state {
            LockScreenState::Inactive => false,
            _ => true,
        }
    }

    /// Remaining lockout at time `now`, in whole seconds rounded up by one
    /// (never 0), if locked out
    pub fn lockout_remaining_at(&self, now: u64) -> (r: Option<u64>)
        ensures
            locked_out_at(self.state, now) ==> r == Some(
                ((self.state->until - now) / 1000 + 1) as u64,
            ),
            !locked_out_at(self.state, now) ==> r is None,
    {
        match self.state {
            LockScreenState::LockedOut { until } => {
                if now < until {
                    Some((until - now) / 1000 + 1)
                } else {
                    None
                }
            },
            _ => None,
        }
    }

    /// Milliseconds since the lockscreen was created
    pub fn now(&self) -> u64 {
        millis_since(&self.clock_origin)
    }

    /// Remaining lockout now, in seconds, if locked out
    pub fn lockout_remaining(&self) -> (r: Option<u64>)
        ensures
            !(self.state is LockedOut) ==> r is None,
            exists|now: u64|
                (#[trigger] locked_out_at(self.state, now) ==> r == Some(
                    ((self.state->until - now) / 1000 + 1) as u64,
                )) && (!locked_out_at(self.state, now) ==> r is None),
    {
        let now = self.now();
        self.lockout_remaining_at(now)
    }

    /// Lockout in seconds after the current number of failed attempts
    pub fn lockout_seconds(&self) -> (s: u64)
        ensures
            s == lockout_secs(self.failed_attempts),
    {
        match self.failed_attempts {
            0..=2 => 0,
            3 => 5,
            4 => 15,
            5 => 30,
            6 => 60,
            _ => 120,
        }
    }

    /// Lockout after the current number of failed attempts
    pub fn calculate_lockout_duration(&self) -> (d: core::time::Duration)
        ensures
            d == duration_of_secs(lockout_secs(self.failed_attempts)),
    {
        core::time::Duration::from_secs(self.lockout_seconds())
    }

    /// Records the outcome of an authentication attempt made at time `now`:
    /// success unlocks and forgets failures; a failure counts, clears the
    /// password and locks out when enough failures have accumulated; a system
    /// error only reports. Returns whether the screen was unlocked.
    pub fn finish_login(&mut self, result: AuthResult, now: u64) -> (unlocked: bool)
        requires
            result is Failure ==> old(self).failed_attempts < u32::MAX,
        ensures
            unlocked == (result == AuthResult::Success),
            same_setup(*old(self), *final(self)),
            final(self).username == old(self).username,
            result == AuthResult::Success ==> {
                &&& final(self).state == LockScreenState::Inactive
                &&& final(self).failed_attempts == 0
                &&& final(self).password@.len() == 0
                &&& final(self).error_message is None
                &&& final(self).cursor_position == old(self).cursor_position
                &&& final(self).focus == old(self).focus
            },
            result matches AuthResult::Failure(msg) ==> {
                let n = (old(self).failed_attempts + 1) as u32;
                &&& final(self).failed_attempts == n
                &&& final(self).error_message == Some(msg)
                &&& final(self).password@.len() == 0
                &&& final(self).cursor_position == 0
                &&& final(self).focus == old(self).focus
                &&& final(self).state == if lockout_secs(n) == 0 {
                    LockScreenState::Active
                } else {
                    LockScreenState::LockedOut { until: lockout_end(now, lockout_secs(n)) }
                }
            },
            result matches AuthResult::SystemError(msg) ==> {
                &&& final(self).error_message == Some(msg)
                &&& final(self).state == LockScreenState::Active
                &&& final(self).failed_attempts == old(self).failed_attempts
                &&& final(self).password == old(self).password
                &&& final(self).cursor_position == old(self).cursor_position
                &&& final(self).focus == old(self).focus
            },
    {
        match result {
            AuthResult::Success => {
                self.state = LockScreenState::Inactive;
                self.failed_attempts = 0;
                secure_clear(&mut self.password);
                self.error_message = None;
                true
            },
            AuthResult::Failure(msg) => {
                self.failed_attempts = self.failed_attempts + 1;
                self.error_message = Some(msg);
                secure_clear(&mut self.password);
                self.cursor_position = 0;
                let lockout = self.lockout_seconds();
                if lockout != 0 {
                    self.state = LockScreenState::LockedOut { until: now.saturating_add(1000 * lockout) };
                } else {
                    self.state = LockScreenState::Active;
                }
                false
            },
            AuthResult::SystemError(msg) => {
                self.error_message = Some(msg);
                self.state = LockScreenState::Active;
                false
            },
        }
    }

    /// The verdict of the library's own backend (PIN, or none) on the
    /// entered credentials
    pub fn local_verdict(&self) -> (r: AuthResult)
        requires
            !(self.backend is System),
        ensures
            self.backend matches LockBackend::Pin(a) ==> (pin_verdict(a, self.password@) ==> r
                == AuthResult::Success) && (!pin_verdict(a, self.password@) ==> (r matches AuthResult::Failure(m) && m@ == "Invalid PIN"@)),
            self.backend is Unavailable ==> (r matches AuthResult::SystemError(m) && m@
                == "Authentication system not available"@),
    {
        let user = string_from_chars(&self.username);
        let pass = string_from_chars(&self.password);
        match &self.backend {
            LockBackend::Pin(a) => a.authenticate(user.as_str(), pass.as_str()),
            LockBackend::Unavailable(a) => a.authenticate(user.as_str(), pass.as_str()),
            LockBackend::System => AuthResult::SystemError("Authentication system not available".to_owned()),
        }
    }

    /// Attempt to unlock at time `now` with the library's own backend; does
    /// nothing while locked out. Returns whether the screen was unlocked.
    pub fn attempt_login_at(&mut self, now: u64) -> (unlocked: bool)
        requires
            !(old(self).backend is System),
            old(self).backend matches LockBackend::Pin(p) && !pin_verdict(p, old(self).password@)
                ==> old(self).failed_attempts < u32::MAX,
        ensures
            login_outcome(*old(self), *final(self), now, unlocked),
    {
        if self.lockout_remaining_at(now).is_some() {
            return false;
        }
        let verdict = self.local_verdict();
        self.finish_login(verdict, now)
    }

    /// Attempt to unlock now with the library's own backend
    pub fn attempt_login(&mut self) -> (unlocked: bool)
        requires
            !(old(self).backend is System),
            old(self).backend matches LockBackend::Pin(p) && !pin_verdict(p, old(self).password@)
                ==> old(self).failed_attempts < u32::MAX,
        ensures
            exists|now: u64| #[trigger] login_outcome(*old(self), *final(self), now, unlocked),
    {
        let now = self.now();
        self.attempt_login_at(now)
    }

    /// End a lockout whose time has come (call each frame)
    pub fn update_at(&mut self, now: u64)
        ensures
            refreshed(*old(self), *final(self), now),
    {
        if let LockScreenState::LockedOut { until } = self.state {
            if now >= until {
                self.state = LockScreenState::Active;
                self.error_message = None;
            }
        }
    }

    /// End a lockout whose time has come
    pub fn update(&mut self)
        ensures
            exists|now: u64| #[trigger] refreshed(*old(self), *final(self), now),
    {
        let now = self.now();
        self.update_at(now);
    }

    /// Insert a character at the cursor at time `now` (ignored while locked
    /// out); any error message disappears
    pub fn insert_char_at(&mut self, c: char, now: u64)
        requires
            old(self).cursor_position < usize::MAX,
        ensures
            typed(*old(self), *final(self), c, now),
    {
        if self.lockout_remaining_at(now).is_some() {
            return;
        }
        match self.focus {
            InputFocus::Username => {
                if self.cursor_position <= self.username.len() {
                    self.username.insert(self.cursor_position, c);
                    self.cursor_position = self.cursor_position + 1;
                }
            },
            InputFocus::Password => {
                if self.cursor_position <= self.password.len() {
                    self.password.insert(self.cursor_position, c);
                    self.cursor_position = self.cursor_position + 1;
                }
            },
        }
        self.error_message = None;
    }

    /// Insert a character at the cursor (ignored while locked out)
    pub fn insert_char(&mut self, c: char)
        requires
            old(self).cursor_position < usize::MAX,
        ensures
            exists|now: u64| #[trigger] typed(*old(self), *final(self), c, now),
    {
        let now = self.now();
        self.insert_char_at(c, now);
    }

    /// Delete the character before the cursor at time `now` (backspace;
    /// ignored while locked out)
    pub fn delete_char_at(&mut self, now: u64)
        requires
            cursor_ok(*old(self)),
        ensures
            backspaced(*old(self), *final(self), now),
            cursor_ok(*final(self)),
    {
        if self.lockout_remaining_at(now).is_some() {
            return;
        }
        if self.cursor_position > 0 {
            match self.focus {
                InputFocus::Username => {
                    self.username.remove(self.cursor_position - 1);
                },
                InputFocus::Password => {
                    self.password.remove(self.cursor_position - 1);
                },
            }
            self.cursor_position = self.cursor_position - 1;
        }
    }

    /// Delete the character before the cursor (ignored while locked out)
    pub fn delete_char(&mut self)
        requires
            cursor_ok(*old(self)),
        ensures
            cursor_ok(*final(self)),
            exists|now: u64| #[trigger] backspaced(*old(self), *final(self), now),
    {
        let now = self.now();
        self.delete_char_at(now);
    }

    /// Move the cursor one character left
    pub fn move_cursor_left(&mut self)
        ensures
            final(self).cursor_position == if old(self).cursor_position > 0 {
                (old(self).cursor_position - 1) as usize
            } else {
                0
            },
            final(self).username == old(self).username,
            final(self).password == old(self).password,
            final(self).focus == old(self).focus,
            final(self).state == old(self).state,
            same_setup(*old(self), *final(self)),
    {
        if self.cursor_position > 0 {
            self.cursor_position = self.cursor_position - 1;
        }
    }

    /// Move the cursor one character right, up to the end of the field
    pub fn move_cursor_right(&mut self)
        ensures
            final(self).cursor_position == if old(self).cursor_position < focused_text(
                *old(self),
            ).len() {
                (old(self).cursor_position + 1) as usize
            } else {
                old(self).cursor_position
            },
            final(self).username == old(self).username,
            final(self).password == old(self).password,
            final(self).focus == old(self).focus,
            final(self).state == old(self).state,
            same_setup(*old(self), *final(self)),
    {
        let max = match self.focus {
            InputFocus::Username => self.username.len(),
            InputFocus::Password => self.password.len(),
        };
        if self.cursor_position < max {
            self.cursor_position = self.cursor_position + 1;
        }
    }

    /// Move the cursor to the start of the field
    pub fn move_cursor_home(&mut self)
        ensures
            final(self).cursor_position == 0,
            final(self).cursor_position == 0,
            final(self).username == old(self).username,
            final(self).password == old(self).password,
            final(self).focus == old(self).focus,
            final(self).state == old(self).state,
            same_setup(*old(self), *final(self)),
    {
        self.cursor_position = 0;
    }

    /// Move the cursor to the end of the field
    pub fn move_cursor_end(&mut self)
        ensures
            final(self).cursor_position == focused_text(*old(self)).len(),
            final(self).username == old(self).username,
            final(self).password == old(self).password,
            final(self).focus == old(self).focus,
            final(self).state == old(self).state,
            same_setup(*old(self), *final(self)),
    {
        self.cursor_position = match self.focus {
            InputFocus::Username => self.username.len(),
            InputFocus::Password => self.password.len(),
        };
    }

    /// Switch between the username and password fields; the cursor goes to
    /// the end of the newly focused field
    pub fn toggle_focus(&mut self)
        ensures
            old(self).focus == InputFocus::Username ==> final(self).focus == InputFocus::Password,
            old(self).focus == InputFocus::Password ==> final(self).focus == InputFocus::Username,
            final(self).cursor_position == focused_text(*final(self)).len(),
            final(self).username == old(self).username,
            final(self).password == old(self).password,
            final(self).state == old(self).state,
            same_setup(*old(self), *final(self)),
    {
        self.focus = match self.focus {
            InputFocus::Username => {
                self.cursor_position = self.password.len();
                InputFocus::Password
            },
            InputFocus::Password => {
                self.cursor_position = self.username.len();
                InputFocus::Username
            },
        };
    }
}


pub open spec fn lock_bg() -> Paint {
    Paint::Role(ThemeColor::ConfigContentBg)
}

pub open spec fn lock_fg() -> Paint {
    Paint::Role(ThemeColor::ConfigContentFg)
}

pub open spec fn lock_border() -> Paint {
    Paint::Role(ThemeColor::ConfigBorder)
}

/// Side borders of rows `1..=k`
pub open spec fn lock_side_ops(x: int, y: int, w: int, k: int, cs: Charset) -> Seq<DrawOp>
    decreases k,
{
    if k <= 0 {
        Seq::empty()
    } else {
        lock_side_ops(x, y, w, k - 1, cs) + seq![op(x, y + k, cs.border_vertical, lock_border(), lock_bg()), op(
            x + w - 1,
            y + k,
            cs.border_vertical,
            lock_border(),
            lock_bg(),
        )]
    }
}

/// Background and frame of the login dialog at (`x`, `y`), the title in the
/// top border
pub open spec fn lock_frame_ops(l: LockScreen, cs: Charset, x: int, y: int) -> Seq<DrawOp> {
    let (w, h) = (l.dialog_width as int, l.dialog_height as int);
    let title = if l.auth_mode == LockscreenAuthMode::Pin {
        " Enter PIN "@
    } else {
        " System Locked "@
    };
    rect_fill(x, y, w, h, ' ', lock_fg(), lock_bg()) + seq![op(x, y, cs.border_top_left, lock_border(), lock_bg())]
        + hrun(x + 1, y, w - 2, cs.border_horizontal, lock_border(), lock_bg())
        + seq![op(x + w - 1, y, cs.border_top_right, lock_border(), lock_bg())]
        + text_run(x + (w - title.len()) / 2, y, title, Paint::Role(ThemeColor::ConfigTitleFg), Paint::Role(ThemeColor::ConfigTitleBg))
        + lock_side_ops(x, y, w, h - 2, cs)
        + seq![op(x, y + h - 1, cs.border_bottom_left, lock_border(), lock_bg())]
        + hrun(x + 1, y + h - 1, w - 2, cs.border_horizontal, lock_border(), lock_bg())
        + seq![op(x + w - 1, y + h - 1, cs.border_bottom_right, lock_border(), lock_bg())]
}

/// An entry field `width` cells wide: the text (or one star per byte when
/// masked) padded with blanks, the cursor cell with foreground and
/// background swapped while the field has the focus
pub open spec fn field_ops(x: int, y: int, width: int, text: Seq<char>, masked: bool, focused: bool, cursor: int) -> Seq<DrawOp> {
    let field_bg = Paint::Fixed(if focused { UiColor::DarkBlue } else { UiColor::DarkGrey });
    let field_fg = Paint::Fixed(UiColor::White);
    Seq::new(
        if width > 0 { width as nat } else { 0 },
        |i: int|
            {
                let ch = if masked {
                    if i < utf8_len(text) {
                        '*'
                    } else {
                        ' '
                    }
                } else if i < text.len() {
                    text[i]
                } else {
                    ' '
                };
                if focused && i == cursor {
                    op(x + i, y, ch, field_bg, field_fg)
                } else {
                    op(x + i, y, ch, field_fg, field_bg)
                }
            },
    )
}

/// A message centred in the dialog (from its byte length)
pub open spec fn centred_ops(x: int, w: int, y: int, msg: Seq<char>, fg: Paint) -> Seq<DrawOp> {
    text_run(x + (w - line_bytes16(msg)) / 2, y, msg, fg, lock_bg())
}

/// The lockout notice at time `now`, or else the error, if any
pub open spec fn status_ops(l: LockScreen, x: int, y: int, now: u64) -> Seq<DrawOp> {
    let w = l.dialog_width as int;
    if locked_out_at(l.state, now) {
        let secs = ((l.state->until - now) / 1000 + 1) as nat;
        centred_ops(x, w, y, "Locked for "@ + decimal(secs) + " seconds..."@, Paint::Fixed(UiColor::Yellow))
    } else {
        match l.error_message {
            Some(e) => centred_ops(x, w, y, e@, Paint::Fixed(UiColor::Red)),
            None => Seq::empty(),
        }
    }
}

/// The count of failed attempts, when there are any
pub open spec fn attempts_ops(l: LockScreen, x: int, y: int) -> Seq<DrawOp> {
    if l.failed_attempts > 0 {
        centred_ops(x, l.dialog_width as int, y, "Failed attempts: "@ + decimal(l.failed_attempts as nat), Paint::Fixed(UiColor::DarkGrey))
    } else {
        Seq::empty()
    }
}

/// The cells of the login dialog at (`x`, `y`) at time `now`, in drawing
/// order. In PIN mode: the PIN field, status, attempts and a hint; in OS
/// mode: username and password fields, status, attempts and a hint.
pub open spec fn lock_dialog_ops(l: LockScreen, cs: Charset, x: int, y: int, now: u64) -> Seq<DrawOp> {
    let w = l.dialog_width as int;
    let fw = w - 16;
    lock_frame_ops(l, cs, x, y) + if l.auth_mode == LockscreenAuthMode::Pin {
        text_run(x + 3, y + 3, "PIN:"@, lock_fg(), lock_bg()) + field_ops(
            x + 14,
            y + 3,
            fw,
            l.password@,
            true,
            true,
            l.cursor_position as int,
        ) + status_ops(l, x, y + 5, now) + attempts_ops(l, x, y + 7) + centred_ops(
            x,
            w,
            y + 9,
            "Enter: Unlock"@,
            Paint::Fixed(UiColor::DarkGrey),
        )
    } else {
        let user_focus = l.focus == InputFocus::Username;
        let pass_focus = l.focus == InputFocus::Password;
        text_run(x + 3, y + 3, "Username:"@, lock_fg(), lock_bg()) + field_ops(
            x + 14,
            y + 3,
            fw,
            l.username@,
            false,
            user_focus,
            if user_focus { l.cursor_position as int } else { usize::MAX as int },
        ) + text_run(x + 3, y + 5, "Password:"@, lock_fg(), lock_bg()) + field_ops(
            x + 14,
            y + 5,
            fw,
            l.password@,
            true,
            pass_focus,
            if pass_focus { l.cursor_position as int } else { usize::MAX as int },
        ) + status_ops(l, x, y + 8, now) + attempts_ops(l, x, y + 9) + centred_ops(
            x,
            w,
            y + 11,
            "Enter: Unlock | Tab: Switch field"@,
            Paint::Fixed(UiColor::DarkGrey),
        )
    }
}

/// The whole screen blanked in dark grey on black, then the dialog centred
/// on it
pub open spec fn lock_screen_ops(l: LockScreen, cs: Charset, cols: u16, rows: u16, now: u64) -> Seq<DrawOp> {
    let x = (if cols >= l.dialog_width { cols - l.dialog_width } else { 0 }) / 2;
    let y = (if rows >= l.dialog_height { rows - l.dialog_height } else { 0 }) / 2;
    rect_fill(0, 0, cols as int, rows as int, ' ', Paint::Fixed(UiColor::DarkGrey), Paint::Fixed(UiColor::Black))
        + lock_dialog_ops(l, cs, x, y, now)
}

/// The dialog's geometry is the one the lockscreen makes, and its error
/// fits on a row
pub open spec fn lock_render_ok(l: LockScreen) -> bool {
    &&& l.dialog_width == 50
    &&& l.dialog_height == 12 || l.dialog_height == 14
    &&& l.error_message matches Some(e) ==> line_bytes16(e@) <= 50 && e@.len() <= 50
}

impl LockScreen {
    fn render_frame(&self, charset: &Charset, x: u16, y: u16) -> (ops: Vec<DrawOp>)
        requires
            lock_render_ok(*self),
            x + 50 <= u16::MAX,
            y + 14 <= u16::MAX,
        ensures
            ops@ == lock_frame_ops(*self, *charset, x as int, y as int),
    {
        let bg = Paint::Role(ThemeColor::ConfigContentBg);
        let fg = Paint::Role(ThemeColor::ConfigContentFg);
        let border = Paint::Role(ThemeColor::ConfigBorder);
        let w = self.dialog_width;
        let h = self.dialog_height;
        let mut ops: Vec<DrawOp> = Vec::new();
        push_rect_fill(&mut ops, x, y, w, h, ' ', fg, bg);
        push_op(&mut ops, x, y, charset.border_top_left, border, bg);
        push_hrun(&mut ops, x + 1, y, w - 2, charset.border_horizontal, border, bg);
        push_op(&mut ops, x + w - 1, y, charset.border_top_right, border, bg);
        let title = match self.auth_mode {
            LockscreenAuthMode::Pin => " Enter PIN ",
            LockscreenAuthMode::OsAuth => " System Locked ",
        };
        proof {
            reveal_strlit(" Enter PIN ");
            reveal_strlit(" System Locked ");
        }
        let t = chars_of(title);
        let title_x = x + (w - t.len() as u16) / 2;
        push_text(&mut ops, title_x, y, &t, Paint::Role(ThemeColor::ConfigTitleFg), Paint::Role(ThemeColor::ConfigTitleBg));
        let ghost before_sides = ops@;
        let mut dy: u16 = 1;
        while dy < h - 1
            invariant
                lock_render_ok(*self),
                w == self.dialog_width,
                h == self.dialog_height,
                x + 50 <= u16::MAX,
                y + 14 <= u16::MAX,
                1 <= dy <= h - 1,
                ops@ == before_sides + lock_side_ops(x as int, y as int, w as int, dy - 1, *charset),
            decreases h - dy,
        {
            push_op(&mut ops, x, y + dy, charset.border_vertical, Paint::Role(ThemeColor::ConfigBorder), Paint::Role(ThemeColor::ConfigContentBg));
            push_op(&mut ops, x + w - 1, y + dy, charset.border_vertical, Paint::Role(ThemeColor::ConfigBorder), Paint::Role(ThemeColor::ConfigContentBg));
            assert(ops@ =~= before_sides + lock_side_ops(x as int, y as int, w as int, dy as int, *charset));
            dy = dy + 1;
        }
        push_op(&mut ops, x, y + h - 1, charset.border_bottom_left, border, bg);
        push_hrun(&mut ops, x + 1, y + h - 1, w - 2, charset.border_horizontal, border, bg);
        push_op(&mut ops, x + w - 1, y + h - 1, charset.border_bottom_right, border, bg);
        assert(ops@ =~= lock_frame_ops(*self, *charset, x as int, y as int));
        ops
    }

    /// Appends an entry field
    fn render_input_field(
        ops: &mut Vec<DrawOp>,
        x: u16,
        y: u16,
        width: u16,
        text: &Vec<char>,
        masked: bool,
        focused: bool,
        cursor_pos: usize,
    )
        requires
            width == 0 || x + width - 1 <= u16::MAX,
        ensures
            final(ops)@ == old(ops)@ + field_ops(x as int, y as int, width as int, text@, masked, focused, cursor_pos as int),
    {
        let field_bg = if focused {
            Paint::Fixed(UiColor::DarkBlue)
        } else {
            Paint::Fixed(UiColor::DarkGrey)
        };
        let field_fg = Paint::Fixed(UiColor::White);
        let stars = utf8_len_sat(text);
        let ghost spec_ops = field_ops(x as int, y as int, width as int, text@, masked, focused, cursor_pos as int);
        let ghost start = ops@;
        let mut i: usize = 0;
        while i < width as usize
            invariant
                width == 0 || x + width - 1 <= u16::MAX,
                stars == min_int(utf8_len(text@), usize::MAX as int),
                field_bg == Paint::Fixed(if focused { UiColor::DarkBlue } else { UiColor::DarkGrey }),
                field_fg == Paint::Fixed(UiColor::White),
                spec_ops == field_ops(x as int, y as int, width as int, text@, masked, focused, cursor_pos as int),
                i <= width,
                ops@ == start + spec_ops.take(i as int),
            decreases width - i,
        {
            let ch = if masked {
                if i < stars {
                    '*'
                } else {
                    ' '
                }
            } else if i < text.len() {
                text[i]
            } else {
                ' '
            };
            if focused && i == cursor_pos {
                ops.push(DrawOp { x: x + i as u16, y, ch, fg: field_bg, bg: field_fg, raw: false });
            } else {
                ops.push(DrawOp { x: x + i as u16, y, ch, fg: field_fg, bg: field_bg, raw: false });
            }
            assert(spec_ops.take(i + 1) =~= spec_ops.take(i as int).push(spec_ops[i as int]));
            i = i + 1;
        }
        assert(spec_ops.take(width as int) =~= spec_ops);
    }

    /// Appends a message centred in the dialog
    fn render_centred(ops: &mut Vec<DrawOp>, x: u16, w: u16, y: u16, msg: &Vec<char>, len16: u16, fg: Paint)
        requires
            len16 <= w,
            x + w + w <= u16::MAX,
            msg@.len() <= w,
        ensures
            final(ops)@ == old(ops)@ + text_run(x + (w - len16) / 2, y as int, msg@, fg, Paint::Role(ThemeColor::ConfigContentBg)),
    {
        let mx = x + (w - len16) / 2;
        push_text(ops, mx, y, msg, fg, Paint::Role(ThemeColor::ConfigContentBg));
    }

    fn render_status(&self, ops: &mut Vec<DrawOp>, x: u16, y: u16, now: u64)
        requires
            lock_render_ok(*self),
            x + 100 <= u16::MAX,
        ensures
            final(ops)@ == old(ops)@ + status_ops(*self, x as int, y as int, now),
    {
        let w = self.dialog_width;
        let ghost start = ops@;
        match self.lockout_remaining_at(now) {
            Some(remaining) => {
                let mut msg: Vec<char> = Vec::new();
                push_str_chars(&mut msg, "Locked for ");
                push_decimal(&mut msg, remaining);
                push_str_chars(&mut msg, " seconds...");
                proof {
                    reveal_strlit("Locked for ");
                    reveal_strlit(" seconds...");
                    assert(pow10(20) == 100000000000000000000nat) by {
                        reveal_with_fuel(pow10, 21);
                    }
                    lemma_decimal_shape(remaining as nat, 20);
                    assert(vstd::utf8::is_ascii_chars(msg@));
                    lemma_ascii_bytes(msg@);
                }
                let len16 = msg.len() as u16;
                Self::render_centred(ops, x, w, y, &msg, len16, Paint::Fixed(UiColor::Yellow));
            },
            None => {
                match &self.error_message {
                    Some(error) => {
                        #[verifier::truncate]
                        let len16 = error.as_str().len() as u16;
                        let e = chars_of(error.as_str());
                        Self::render_centred(ops, x, w, y, &e, len16, Paint::Fixed(UiColor::Red));
                    },
                    None => {
                        assert(ops@ =~= start + Seq::<DrawOp>::empty());
                    },
                }
            },
        }
    }

    fn render_attempts(&self, ops: &mut Vec<DrawOp>, x: u16, y: u16)
        requires
            lock_render_ok(*self),
            x + 100 <= u16::MAX,
        ensures
            final(ops)@ == old(ops)@ + attempts_ops(*self, x as int, y as int),
    {
        if self.failed_attempts > 0 {
            let mut msg: Vec<char> = Vec::new();
            push_str_chars(&mut msg, "Failed attempts: ");
            push_decimal(&mut msg, self.failed_attempts as u64);
            proof {
                reveal_strlit("Failed attempts: ");
                assert(pow10(10) == 10000000000nat) by {
                    reveal_with_fuel(pow10, 11);
                }
                lemma_decimal_shape(self.failed_attempts as nat, 10);
                assert(vstd::utf8::is_ascii_chars(msg@));
                lemma_ascii_bytes(msg@);
            }
            let len16 = msg.len() as u16;
            Self::render_centred(ops, x, self.dialog_width, y, &msg, len16, Paint::Fixed(UiColor::DarkGrey));
        } else {
            assert(final(ops)@ =~= old(ops)@ + Seq::<DrawOp>::empty());
        }
    }

    /// The cells of the login dialog at (`x`, `y`) at time `now`, in drawing
    /// order. The drop shadow around the dialog is not among them.
    pub fn render_dialog(&self, charset: &Charset, x: u16, y: u16, now: u64) -> (ops: Vec<DrawOp>)
        requires
            lock_render_ok(*self),
            x + 100 <= u16::MAX,
            y + 14 <= u16::MAX,
        ensures
            ops@ == lock_dialog_ops(*self, *charset, x as int, y as int, now),
    {
        let fg = Paint::Role(ThemeColor::ConfigContentFg);
        let bg = Paint::Role(ThemeColor::ConfigContentBg);
        let mut ops = self.render_frame(charset, x, y);
        let ghost frame = ops@;
        let content_x = x + 3;
        let field_width = self.dialog_width - 16;
        let field_x = content_x + 11;
        let mut body: Vec<DrawOp> = Vec::new();
        match self.auth_mode {
            LockscreenAuthMode::Pin => {
                let label = chars_of("PIN:");
                proof {
                    reveal_strlit("PIN:");
                    reveal_strlit("Enter: Unlock");
                }
                push_text(&mut body, content_x, y + 3, &label, fg, bg);
                Self::render_input_field(&mut body, field_x, y + 3, field_width, &self.password, true, true, self.cursor_position);
                self.render_status(&mut body, x, y + 5, now);
                self.render_attempts(&mut body, x, y + 7);
                let hint = chars_of("Enter: Unlock");
                Self::render_centred(&mut body, x, self.dialog_width, y + 9, &hint, 13, Paint::Fixed(UiColor::DarkGrey));
                assert(line_bytes16("Enter: Unlock"@) == 13) by {
                    lemma_ascii_bytes("Enter: Unlock"@);
                }
            },
            LockscreenAuthMode::OsAuth => {
                proof {
                    reveal_strlit("Username:");
                    reveal_strlit("Password:");
                    reveal_strlit("Enter: Unlock | Tab: Switch field");
                }
                let user_label = chars_of("Username:");
                push_text(&mut body, content_x, y + 3, &user_label, fg, bg);
                let user_focus = match self.focus {
                    InputFocus::Username => true,
                    InputFocus::Password => false,
                };
                Self::render_input_field(&mut body, field_x, y + 3, field_width, &self.username, false, user_focus, if user_focus { self.cursor_position } else { usize::MAX });
                let pass_label = chars_of("Password:");
                push_text(&mut body, content_x, y + 5, &pass_label, fg, bg);
                Self::render_input_field(&mut body, field_x, y + 5, field_width, &self.password, true, !user_focus, if !user_focus { self.cursor_position } else { usize::MAX });
                self.render_status(&mut body, x, y + 8, now);
                self.render_attempts(&mut body, x, y + 9);
                let hint = chars_of("Enter: Unlock | Tab: Switch field");
                Self::render_centred(&mut body, x, self.dialog_width, y + 11, &hint, 33, Paint::Fixed(UiColor::DarkGrey));
                assert(line_bytes16("Enter: Unlock | Tab: Switch field"@) == 33) by {
                    lemma_ascii_bytes("Enter: Unlock | Tab: Switch field"@);
                }
            },
        }
        ops.append(&mut body);
        ops
    }

    /// The whole screen of `cols` by `rows` cells blanked, then the login
    /// dialog centred on it, as at time `now`
    pub fn render_at(&self, cols: u16, rows: u16, charset: &Charset, now: u64) -> (ops: Vec<DrawOp>)
        requires
            lock_render_ok(*self),
        ensures
            ops@ == lock_screen_ops(*self, *charset, cols, rows, now),
    {
        let mut ops: Vec<DrawOp> = Vec::new();
        push_rect_fill(&mut ops, 0, 0, cols, rows, ' ', Paint::Fixed(UiColor::DarkGrey), Paint::Fixed(UiColor::Black));
        let dialog_x = cols.saturating_sub(self.dialog_width) / 2;
        let dialog_y = rows.saturating_sub(self.dialog_height) / 2;
        let mut dialog = self.render_dialog(charset, dialog_x, dialog_y, now);
        ops.append(&mut dialog);
        ops
    }

    /// The whole screen blanked, then the login dialog centred on it
    pub fn render(&self, cols: u16, rows: u16, charset: &Charset) -> (ops: Vec<DrawOp>)
        requires
            lock_render_ok(*self),
        ensures
            exists|now: u64| ops@ == #[trigger] lock_screen_ops(*self, *charset, cols, rows, now),
    {
        let now = self.now();
        self.render_at(cols, rows, charset, now)
    }
}

/// Powers of ten
pub open spec fn pow10(k: nat) -> nat
    decreases k,
{
    if k == 0 {
        1
    } else {
        10 * pow10((k - 1) as nat)
    }
}

/// The decimal rendering of a number below 10^k has one to `k` digits, all
/// of them ASCII digits
pub proof fn lemma_decimal_shape(n: nat, k: nat)
    requires
        n < pow10(k),
        k >= 1,
    ensures
        1 <= decimal(n).len() <= k,
        forall|i: int| 0 <= i < decimal(n).len() ==> '0' <= #[trigger] decimal(n)[i] <= '9',
    decreases n,
{
    if n >= 10 {
        if k == 1 {
            assert(pow10(1) == 10) by {
                reveal_with_fuel(pow10, 2);
            }
        }
        let p = pow10((k - 1) as nat);
        assert(n / 10 < p) by (nonlinear_arith)
            requires
                n < 10 * p,
                n >= 0,
        ;
        lemma_decimal_shape(n / 10, (k - 1) as nat);
    }
}

/// An ASCII text takes one byte per character
pub proof fn lemma_ascii_bytes(s: Seq<char>)
    requires
        vstd::utf8::is_ascii_chars(s),
        s.len() <= u16::MAX,
    ensures
        vstd::utf8::encode_utf8(s).len() == s.len(),
        line_bytes16(s) == s.len(),
{
    vstd::utf8::is_ascii_chars_encode_utf8(s);
}

} // verus!
