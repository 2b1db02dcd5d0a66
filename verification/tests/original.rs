use std::time::Duration;

use term39::auth::{constant_time_compare, AuthResult, Authenticator, PinAuthenticator, StubAuthenticator};
use term39::color::{color_to_rgb, UiColor};
use term39::font::{Psf2Header, PSF2_MAGIC};
use term39::keyboard_mode::{KeyboardMode, SnapPosition, WindowSubMode};
use term39::lockscreen::{InputFocus, LockScreen, LockScreenState};
use term39::text_modes::{TextMode, TextModeKind};

fn text_of(v: &[char]) -> String {
    v.iter().collect()
}

#[test]
fn test_color_to_rgb() {
    assert_eq!(color_to_rgb(&UiColor::Black), (0, 0, 0));
    assert_eq!(color_to_rgb(&UiColor::White), (255, 255, 255));
    assert_eq!(color_to_rgb(&UiColor::Rgb { r: 128, g: 64, b: 32 }), (128, 64, 32));
}

#[test]
fn test_psf2_header_parsing() {
    let mut bytes = vec![0u8; 32];
    bytes[0..4].copy_from_slice(&PSF2_MAGIC.to_le_bytes());
    bytes[24..28].copy_from_slice(&16u32.to_le_bytes());
    bytes[28..32].copy_from_slice(&8u32.to_le_bytes());

    let header = Psf2Header::from_bytes(&bytes).unwrap();
    assert_eq!(header.magic, PSF2_MAGIC);
    assert_eq!(header.height, 16);
    assert_eq!(header.width, 8);
}

#[test]
fn test_invalid_magic() {
    let bytes = vec![0u8; 32];
    let result = Psf2Header::from_bytes(&bytes);
    assert!(result.is_err());
}

#[test]
fn test_mode_dimensions() {
    let mode_80x25 = TextMode::new(TextModeKind::Mode80x25);
    assert_eq!(mode_80x25.cols, 80);
    assert_eq!(mode_80x25.rows, 25);
    assert_eq!(mode_80x25.char_width, 8);
    assert_eq!(mode_80x25.char_height, 16);
    assert_eq!(mode_80x25.pixel_width(), 640);
    assert_eq!(mode_80x25.pixel_height(), 400);
}

#[test]
fn test_mode_parsing() {
    assert_eq!(TextModeKind::from_str("80x25"), Some(TextModeKind::Mode80x25));
    assert_eq!(TextModeKind::from_str("80x50"), Some(TextModeKind::Mode80x50));
    assert_eq!(TextModeKind::from_str("invalid"), None);
}

#[test]
fn test_mode_display() {
    let mode = TextModeKind::Mode80x25;
    assert_eq!(mode.name(), "80x25");
}

#[test]
fn test_keyboard_mode_toggle() {
    let mut mode = KeyboardMode::Normal;
    assert!(!mode.is_window_mode());

    mode.toggle();
    assert!(mode.is_window_mode());
    assert_eq!(mode.sub_mode(), Some(WindowSubMode::Navigation));

    mode.toggle();
    assert!(!mode.is_window_mode());
}

#[test]
fn test_sub_mode_transitions() {
    let mut mode = KeyboardMode::WindowMode(WindowSubMode::Navigation);

    mode.enter_sub_mode(WindowSubMode::Move);
    assert_eq!(mode.sub_mode(), Some(WindowSubMode::Move));

    mode.return_to_navigation();
    assert_eq!(mode.sub_mode(), Some(WindowSubMode::Navigation));
}

#[test]
fn test_snap_position_from_numpad() {
    assert_eq!(SnapPosition::from_numpad('1'), Some(SnapPosition::BottomLeft));
    assert_eq!(SnapPosition::from_numpad('5'), Some(SnapPosition::Center));
    assert_eq!(SnapPosition::from_numpad('9'), Some(SnapPosition::TopRight));
    assert_eq!(SnapPosition::from_numpad('0'), None);
}

#[test]
fn test_hash_pin() {
    let salt = "test_salt";
    let pin = "1234";
    let hash = PinAuthenticator::hash_pin(pin, salt);

    assert_eq!(hash.len(), 64);

    let hash2 = PinAuthenticator::hash_pin(pin, salt);
    assert_eq!(hash, hash2);

    let hash3 = PinAuthenticator::hash_pin("5678", salt);
    assert_ne!(hash, hash3);
}

#[test]
fn test_validate_pin() {
    assert!(PinAuthenticator::validate_pin("1234").is_ok());
    assert!(PinAuthenticator::validate_pin("abcd1234").is_ok());
    assert!(PinAuthenticator::validate_pin("A1B2C3D4").is_ok());

    assert!(PinAuthenticator::validate_pin("12-34").is_ok());
    assert!(PinAuthenticator::validate_pin("12@34").is_ok());
    assert!(PinAuthenticator::validate_pin("P@ss!").is_ok());
    assert!(PinAuthenticator::validate_pin("abc#123$").is_ok());

    assert!(PinAuthenticator::validate_pin("123").is_err());

    let long_pin = "a".repeat(31);
    assert!(PinAuthenticator::validate_pin(&long_pin).is_err());

    assert!(PinAuthenticator::validate_pin("12 34").is_err());
}

#[test]
fn test_authenticate() {
    let salt = "test_salt";
    let pin = "secret123";
    let hash = PinAuthenticator::hash_pin(pin, salt);

    let auth = PinAuthenticator::new(hash, salt.to_string()).unwrap();

    assert!(matches!(auth.authenticate("", pin), AuthResult::Success));
    assert!(matches!(auth.authenticate("", "wrong"), AuthResult::Failure(_)));
}

#[test]
fn test_constant_time_compare() {
    assert!(constant_time_compare("hello", "hello"));
    assert!(!constant_time_compare("hello", "world"));
    assert!(!constant_time_compare("hello", "hello1"));
}

#[test]
fn test_stub_unavailable() {
    let auth = StubAuthenticator::new();
    assert!(!auth.is_available());
}

#[test]
fn test_stub_authenticate_fails() {
    let auth = StubAuthenticator::new();
    let result = auth.authenticate("test", "test");
    assert!(matches!(result, AuthResult::SystemError(_)));
}

#[test]
fn test_stub_system_name() {
    let auth = StubAuthenticator::new();
    assert_eq!(auth.system_name(), "None (Disabled)");
}

#[test]
fn test_lockscreen_new() {
    let ls = LockScreen::new();
    assert!(!ls.is_active());
    assert!(matches!(ls.state, LockScreenState::Inactive));
}

#[test]
fn test_lockscreen_lock_unlock_cycle() {
    let mut ls = LockScreen::new();
    assert!(!ls.is_active());

    ls.lock();
    assert!(ls.is_active());
    assert!(matches!(ls.state, LockScreenState::Active));
    assert!(ls.password.is_empty());
}

#[test]
fn test_progressive_lockout() {
    let mut ls = LockScreen::new();

    ls.failed_attempts = 0;
    assert_eq!(ls.calculate_lockout_duration(), Duration::from_secs(0));

    ls.failed_attempts = 3;
    assert_eq!(ls.calculate_lockout_duration(), Duration::from_secs(5));

    ls.failed_attempts = 6;
    assert_eq!(ls.calculate_lockout_duration(), Duration::from_secs(60));

    ls.failed_attempts = 10;
    assert_eq!(ls.calculate_lockout_duration(), Duration::from_secs(120));
}

#[test]
fn test_input_handling() {
    let mut ls = LockScreen::new();
    ls.lock();

    ls.insert_char('t');
    ls.insert_char('e');
    ls.insert_char('s');
    ls.insert_char('t');

    assert_eq!(text_of(&ls.password), "test");
    assert_eq!(ls.cursor_position, 4);
}

#[test]
fn test_toggle_focus() {
    let mut ls = LockScreen::new();
    ls.lock();

    assert!(matches!(ls.focus, InputFocus::Password));

    ls.toggle_focus();
    assert!(matches!(ls.focus, InputFocus::Username));

    ls.toggle_focus();
    assert!(matches!(ls.focus, InputFocus::Password));
}

#[test]
fn test_delete_char() {
    let mut ls = LockScreen::new();
    ls.lock();

    ls.insert_char('a');
    ls.insert_char('b');
    ls.insert_char('c');
    assert_eq!(text_of(&ls.password), "abc");

    ls.delete_char();
    assert_eq!(text_of(&ls.password), "ab");
    assert_eq!(ls.cursor_position, 2);
}
