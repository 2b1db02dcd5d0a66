use term39::charset::Charset;
use term39::command_history::CommandHistory;
use term39::config::{AppConfig, IdForm, LockscreenAuthMode};
use term39::config_window::{ConfigAction, ConfigWindow};
use term39::context_menu::{ContextMenu, MenuAction};
use term39::dialog_input::{handle_context_menu_mouse, handle_error_dialog_keyboard, handle_error_dialog_mouse, handle_lockscreen_keyboard, handle_pin_setup_keyboard, handle_pin_setup_mouse, show_context_menu, LockKeyEffect};
use term39::desktop::FocusState;
use term39::auth::PinAuthenticator;
use term39::draw::DrawOp;
use term39::error_dialog::{wrap_text, ErrorDialog, OK_BUTTON_WIDTH};
use term39::keys::TermKey;
use term39::lockscreen::{InputFocus, LockScreen, LockScreenState};
use term39::auth::AuthResult;
use term39::keyboard_mode::MovementState;
use term39::pin_setup::{DialogKey, PinSetupDialog, PinSetupState};
use term39::selection::{MouseBtn, MouseKind};
use term39::session::{check_session_file_size, check_session_version, SessionLoadError, SessionState, MAX_SESSION_FILE_SIZE};
use term39::text::{decimal_chars, push_decimal, trim_chars};
use term39::topbar::{ButtonWidths, TopBarButtons};
use term39::auth::salt_from_entropy;
use term39::machine_id::ioreg_platform_uuid;

fn cell_at(ops: &[DrawOp], x: u16, y: u16) -> Option<char> {
    ops.iter().rev().find(|o| o.x == x && o.y == y).map(|o| o.ch)
}

fn row_text(ops: &[DrawOp], x0: u16, y: u16, n: u16) -> String {
    (x0..x0 + n).map(|x| cell_at(ops, x, y).unwrap_or('?')).collect()
}

#[test]
fn wrap_text_fills_lines_word_by_word() {
    assert_eq!(wrap_text("hello world foo", 11), vec!["hello world", "foo"]);
    assert_eq!(wrap_text("  a   b  ", 10), vec!["a b"]);
    assert_eq!(wrap_text("", 10), vec![""]);
    assert_eq!(wrap_text("averyverylongword x", 4), vec!["averyverylongword", "x"]);
}

#[test]
fn error_dialog_layout_and_button() {
    let d = ErrorDialog::new(80, 24, "Something went wrong".to_string());
    assert_eq!(d.width, 64);
    assert_eq!(d.height, 8);
    assert_eq!((d.x, d.y), (8, 8));
    assert_eq!(d.button_width, OK_BUTTON_WIDTH);
    assert_eq!((d.button_x, d.button_y), (36, 13));
    assert!(d.is_ok_button_clicked(36, 13));
    assert!(d.is_ok_button_clicked(43, 13));
    assert!(!d.is_ok_button_clicked(44, 13));
    assert!(!d.is_ok_button_clicked(36, 12));
}

#[test]
fn error_dialog_render_shows_title_message_and_button() {
    let d = ErrorDialog::new(80, 24, "Disk full".to_string());
    let ops = d.render(80, 24, &Charset::ascii());
    assert_eq!(cell_at(&ops, d.x, d.y), Some('+'));
    assert_eq!(row_text(&ops, d.button_x, d.button_y, 8), " [ OK ] ");
    let msg_x = d.x + 2 + (60 - 9) / 2;
    assert_eq!(row_text(&ops, msg_x, d.y + 3, 9), "Disk full");
    let title_x = d.x + 2 + (60 - 5) / 2;
    assert_eq!(row_text(&ops, title_x, d.y + 1, 5), "Error");
}

#[test]
fn error_dialog_on_a_narrow_screen_keeps_the_layout() {
    let msg = "the quick brown fox jumps over the lazy dog and keeps on running far away".to_string();
    let d = ErrorDialog::new(30, 40, msg);
    assert_eq!(d.width, 26);
    assert_eq!(d.height, 9);
    let ops = d.render(30, 40, &Charset::ascii());
    assert_eq!(row_text(&ops, d.button_x, d.button_y, 8), " [ OK ] ");
    assert_eq!(cell_at(&ops, d.x, d.y + d.height - 1), Some('+'));
    assert_eq!(row_text(&ops, d.x + 3, d.y + 3, 19), "the quick brown fox");
    assert_eq!(row_text(&ops, d.x + 3, d.y + 4, 19), "jumps over the lazy");
    assert_eq!(row_text(&ops, d.x + 1, d.y + 5, 24), "                        ");
}

#[test]
fn error_dialog_input() {
    let mut dialog = Some(ErrorDialog::new(80, 24, "x".to_string()));
    assert!(handle_error_dialog_keyboard(&mut dialog, TermKey::Char('a')));
    assert!(dialog.is_some());
    assert!(handle_error_dialog_keyboard(&mut dialog, TermKey::Esc));
    assert!(dialog.is_none());
    assert!(!handle_error_dialog_keyboard(&mut dialog, TermKey::Enter));
    let mut dialog = Some(ErrorDialog::new(80, 24, "x".to_string()));
    let (bx, by) = (dialog.as_ref().unwrap().button_x, dialog.as_ref().unwrap().button_y);
    assert!(!handle_error_dialog_mouse(&mut dialog, MouseKind::Down(MouseBtn::Right), bx, by));
    assert!(!handle_error_dialog_mouse(&mut dialog, MouseKind::Down(MouseBtn::Left), bx, by + 1));
    assert!(handle_error_dialog_mouse(&mut dialog, MouseKind::Down(MouseBtn::Left), bx + 1, by));
    assert!(dialog.is_none());
}

#[test]
fn context_menu_navigation_skips_separators() {
    let mut m = ContextMenu::new_taskbar_menu(2, 3);
    m.show(2, 3);
    assert_eq!(m.selected_index, 0);
    m.select_next();
    let a = m.get_selected_action();
    assert!(a.is_some());
    m.select_previous();
    assert_eq!(m.selected_index, 0);
    m.select_previous();
    assert_eq!(m.selected_index, 0);
    m.hide_menu();
    assert!(!m.visible);
    assert!(!m.contains_point(3, 4));
}

#[test]
fn context_menu_mouse_picks_entry() {
    let mut m = ContextMenu::new(10, 5);
    m.show(10, 5);
    assert!(m.contains_point(10, 5));
    let (handled, action) = handle_context_menu_mouse(&mut m, MouseKind::Moved, 12, 7);
    assert!(!handled && action.is_none());
    assert_eq!(m.selected_index, 1);
    let (handled, action) = handle_context_menu_mouse(&mut m, MouseKind::Down(MouseBtn::Left), 12, 8);
    assert!(handled);
    assert_eq!(action, Some(MenuAction::SelectAll));
    assert!(!m.visible);
    m.show(10, 5);
    let (handled, action) = handle_context_menu_mouse(&mut m, MouseKind::Down(MouseBtn::Left), 0, 0);
    assert!(!handled && action.is_none());
    assert!(!m.visible);
    let (handled, _) = handle_context_menu_mouse(&mut m, MouseKind::Down(MouseBtn::Left), 12, 6);
    assert!(!handled);
}

#[test]
fn context_menu_render_draws_labels() {
    let mut m = ContextMenu::new(0, 0);
    m.show(0, 0);
    let ops = m.render(&Charset::ascii());
    let text: String = (0..20).map(|x| cell_at(&ops, x, 1).unwrap_or(' ')).collect();
    assert!(text.contains("Copy"));
    let text: String = (0..20).map(|x| cell_at(&ops, x, 2).unwrap_or(' ')).collect();
    assert!(text.contains("Paste"));
}

#[test]
fn config_window_clicks() {
    let w = ConfigWindow::new(80, 30);
    assert_eq!((w.x, w.y), (10, 3));
    let mut c = AppConfig::default();
    assert_eq!(w.handle_click(20, w.auto_arrange_row, &c, true), ConfigAction::ToggleAutoTiling);
    assert_eq!(w.handle_click(20, w.theme_row, &c, true), ConfigAction::CycleTheme);
    assert_eq!(w.handle_click(5, w.theme_row, &c, true), ConfigAction::NoAction);
    assert_eq!(w.handle_click(20, w.lockscreen_auth_row, &c, true), ConfigAction::CycleLockscreenAuthMode);
    assert_eq!(w.handle_click(20, w.pin_setup_row, &c, true), ConfigAction::SetupPin);
    c.lockscreen_auth_mode = LockscreenAuthMode::OsAuth;
    assert_eq!(w.handle_click(20, w.pin_setup_row, &c, true), ConfigAction::NoAction);
    assert_eq!(w.handle_click(20, w.pin_setup_row, &c, false), ConfigAction::SetupPin);
    c.lockscreen_enabled = false;
    assert_eq!(w.handle_click(20, w.lockscreen_auth_row, &c, true), ConfigAction::NoAction);
    assert!(w.contains_point(10, 3));
    assert!(!w.contains_point(70, 3));
}

#[test]
fn config_window_render_has_instructions() {
    let w = ConfigWindow::new(80, 30);
    let ops = w.render(&Charset::ascii(), &AppConfig::default(), false, true, true);
    let x = w.x + (w.width - 18) / 2;
    assert_eq!(row_text(&ops, x, w.y + w.height - 2, 18), "Press ESC to close");
}

#[test]
fn config_cycles_and_toggles() {
    let mut c = AppConfig::default();
    assert_eq!(c.get_background_char(), '\u{2591}');
    c.cycle_background_char_backward();
    assert_eq!(c.background_char_index, 4);
    assert_eq!(c.get_background_char_name(), "Full Block");
    c.cycle_background_char();
    assert_eq!(c.background_char_index, 0);
    c.toggle_tiling_gaps();
    assert!(!c.tiling_gaps);
    c.set_pin("h".to_string(), "s".to_string());
    assert!(c.has_pin_configured());
    c.clear_pin();
    assert!(!c.has_pin_configured());
}

#[test]
fn session_checks() {
    assert_eq!(check_session_file_size(MAX_SESSION_FILE_SIZE), Ok(()));
    assert_eq!(check_session_file_size(MAX_SESSION_FILE_SIZE + 1), Err(SessionLoadError::TooLarge(MAX_SESSION_FILE_SIZE + 1)));
    let s = SessionState::new();
    assert_eq!(s.version, 1);
    assert_eq!(s.next_id, 1);
    assert!(check_session_version(s).is_ok());
    let mut old = SessionState::new();
    old.version = 0;
    match check_session_version(old) {
        Err(e) => assert_eq!(e, SessionLoadError::IncompatibleVersion(0)),
        Ok(_) => panic!("an old session was accepted"),
    }
}

#[test]
fn command_history_counts_first_word() {
    let mut h = CommandHistory::new();
    h.record_command("ls -la");
    h.record_command("ls");
    h.record_command("vim notes.txt");
    h.record_command("");
    assert_eq!(h.get_frequency("ls"), 2);
    assert_eq!(h.get_frequency("vim"), 1);
    assert_eq!(h.get_frequency("ls -la"), 0);
    assert_eq!(h.get_frequency(""), 0);
    let top = h.get_frequent_commands();
    assert_eq!(top.len(), 2);
    assert_eq!(top[0], ("ls".to_string(), 2));
    assert_eq!(top[1], ("vim".to_string(), 1));
    h.clear();
    assert!(h.get_frequent_commands().is_empty());
}

#[test]
fn decimal_text() {
    assert_eq!(decimal_chars(0), vec!['0']);
    assert_eq!(decimal_chars(120), vec!['1', '2', '0']);
    let mut v = vec!['x'];
    push_decimal(&mut v, 45);
    assert_eq!(v, vec!['x', '4', '5']);
}

#[test]
fn lockscreen_keyboard_edits_and_login_request() {
    let mut ls = LockScreen::new();
    assert_eq!(handle_lockscreen_keyboard(&mut ls, TermKey::Char('a'), 0), LockKeyEffect::NotActive);
    ls.lock();
    assert_eq!(handle_lockscreen_keyboard(&mut ls, TermKey::Char('a'), 0), LockKeyEffect::Handled);
    assert_eq!(handle_lockscreen_keyboard(&mut ls, TermKey::Char('b'), 0), LockKeyEffect::Handled);
    assert_eq!(ls.password, vec!['a', 'b']);
    handle_lockscreen_keyboard(&mut ls, TermKey::Home, 0);
    assert_eq!(ls.cursor_position, 0);
    handle_lockscreen_keyboard(&mut ls, TermKey::Char('z'), 0);
    assert_eq!(ls.password, vec!['z', 'a', 'b']);
    handle_lockscreen_keyboard(&mut ls, TermKey::End, 0);
    handle_lockscreen_keyboard(&mut ls, TermKey::Backspace, 0);
    assert_eq!(ls.password, vec!['z', 'a']);
    handle_lockscreen_keyboard(&mut ls, TermKey::Left, 0);
    assert_eq!(ls.cursor_position, 1);
    handle_lockscreen_keyboard(&mut ls, TermKey::Right, 0);
    assert_eq!(ls.cursor_position, 2);
    handle_lockscreen_keyboard(&mut ls, TermKey::Tab, 0);
    assert_eq!(ls.focus, InputFocus::Username);
    assert_eq!(handle_lockscreen_keyboard(&mut ls, TermKey::Esc, 0), LockKeyEffect::Handled);
    assert_eq!(handle_lockscreen_keyboard(&mut ls, TermKey::Enter, 0), LockKeyEffect::LoginRequested);
}

#[test]
fn lockscreen_keys_blocked_during_lockout() {
    let mut ls = LockScreen::new();
    ls.lock();
    ls.state = LockScreenState::LockedOut { until: 5000 };
    assert_eq!(handle_lockscreen_keyboard(&mut ls, TermKey::Char('a'), 1000), LockKeyEffect::Handled);
    assert!(ls.password.is_empty());
    assert_eq!(ls.lockout_remaining_at(1000), Some(5));
    assert_eq!(ls.lockout_remaining_at(5000), None);
    ls.update_at(5000);
    assert_eq!(ls.state, LockScreenState::Active);
}

#[test]
fn lockscreen_render_has_frame() {
    let mut ls = LockScreen::new();
    ls.lock();
    let ops = ls.render_at(80, 25, &Charset::ascii(), 0);
    assert!(!ops.is_empty());
    assert!(ops.iter().any(|o| o.ch == '+'));
}

#[test]
fn pin_setup_flow_and_render() {
    let mut d = PinSetupDialog::new("salt".to_string());
    for c in "abcd".chars() {
        d.handle_key(DialogKey::Char(c));
    }
    d.handle_key(DialogKey::Enter);
    assert_eq!(*d.state(), PinSetupState::ConfirmPin);
    for c in "abcd".chars() {
        d.handle_key(DialogKey::Char(c));
    }
    d.handle_key(DialogKey::Enter);
    match d.state() {
        PinSetupState::Complete { salt, .. } => assert_eq!(salt, "salt"),
        other => panic!("unexpected state {:?}", other),
    }
    let mut e = PinSetupDialog::new("s".to_string());
    let ops = e.render(80, 25, &Charset::ascii());
    assert!(!ops.is_empty());
    e.handle_key(DialogKey::Esc);
    assert_eq!(*e.state(), PinSetupState::Cancelled);
}

#[test]
fn salt_is_kept_then_machine_then_random() {
    let mut c = AppConfig::default();
    let s = c.get_or_create_salt(Some("  abc123\n"), IdForm::Trimmed, b"x");
    assert_eq!(s, "abc123");
    assert_eq!(c.lockscreen_salt, Some("abc123".to_string()));
    assert_eq!(c.get_or_create_salt(Some("other"), IdForm::Trimmed, b"x"), "abc123");
    let mut d = AppConfig::default();
    assert_eq!(d.get_or_create_salt(Some(" \n"), IdForm::Trimmed, b"x"), "");
    let mut e = AppConfig::default();
    let r = e.get_or_create_salt(Some(" \n"), IdForm::TrimmedNonEmpty, b"entropy");
    assert_eq!(r, salt_from_entropy(b"entropy"));
    assert_eq!(r.len(), 64);
    let mut f = AppConfig::default();
    assert_eq!(f.get_or_create_salt(Some(" uuid "), IdForm::Exact, b"x"), " uuid ");
    let mut g = AppConfig::default();
    assert_eq!(g.get_or_create_salt(None, IdForm::Trimmed, b"entropy"), salt_from_entropy(b"entropy"));
    assert_eq!(
        salt_from_entropy(b"abc"),
        "ba7816bf8f01cfea414140de5dae2223b00361a396177a9cb410ff61f20015ad"
    );
}

#[test]
fn trimming_white_space() {
    assert_eq!(trim_chars(&"  a b \t\n".chars().collect()), vec!['a', ' ', 'b']);
    assert_eq!(trim_chars(&"   ".chars().collect()), Vec::<char>::new());
    assert_eq!(trim_chars(&"\u{3000}x\u{a0}".chars().collect()), vec!['x']);
}

#[test]
fn ioreg_uuid_line() {
    let out = "+-o Root\r\n  \"IOPlatformSerialNumber\" = \"C02XX\"\r\n  \"IOPlatformUUID\" = \"1234-ABCD\"\n  \"x\" = 1\n";
    assert_eq!(ioreg_platform_uuid(out), Some("1234-ABCD".to_string()));
    assert_eq!(ioreg_platform_uuid("IOPlatformUUID = none\nno uuid here"), None);
    assert_eq!(ioreg_platform_uuid("\"IOPlatformUUID\" = \"\""), Some(String::new()));
    assert_eq!(ioreg_platform_uuid(""), None);
}

#[test]
fn top_bar_buttons_layout() {
    let w = ButtonWidths { paste: 9, clear_clipboard: 5, copy: 8, clear_selection: 5, exit: 8 };
    let mut b = TopBarButtons {
        paste_x: 0,
        clear_clipboard_x: 0,
        copy_x: 3,
        clear_selection_x: 4,
        exit_x: 0,
        paste_enabled: false,
        clear_clipboard_enabled: false,
        copy_enabled: false,
        clear_selection_enabled: false,
    };
    b.update_button_states(80, w, true, false);
    assert_eq!((b.paste_x, b.clear_clipboard_x, b.exit_x), (33, 42, 38));
    assert_eq!((b.copy_x, b.clear_selection_x), (3, 4));
    assert!(b.paste_enabled && !b.copy_enabled);
    b.update_button_states(80, w, true, true);
    assert_eq!((b.copy_x, b.clear_selection_x, b.paste_x, b.clear_clipboard_x), (26, 34, 40, 49));
    b.update_button_states(80, w, false, true);
    assert_eq!((b.copy_x, b.clear_selection_x), (33, 41));
    assert_eq!(b.paste_x, 33);
    b.update_button_states(20, w, false, false);
    assert_eq!(b.exit_x, 0);
}

#[test]
fn pin_setup_through_dialog_input_stores_the_pin() {
    let mut config = AppConfig::default();
    let mut ls = LockScreen::new_with_mode(LockscreenAuthMode::Pin, None, None);
    assert!(!ls.is_available());
    let mut pin = Some(PinSetupDialog::new("salt1".to_string()));
    for c in "abcd".chars() {
        assert!(handle_pin_setup_keyboard(&mut pin, DialogKey::Char(c), &mut config, &mut ls));
    }
    handle_pin_setup_keyboard(&mut pin, DialogKey::Enter, &mut config, &mut ls);
    for c in "abcd".chars() {
        handle_pin_setup_keyboard(&mut pin, DialogKey::Char(c), &mut config, &mut ls);
    }
    handle_pin_setup_keyboard(&mut pin, DialogKey::Enter, &mut config, &mut ls);
    assert!(pin.is_none());
    assert_eq!(config.lockscreen_salt, Some("salt1".to_string()));
    assert_eq!(config.lockscreen_pin_hash, Some(PinAuthenticator::hash_pin("abcd", "salt1")));
    assert!(ls.is_available());
    assert!(!handle_pin_setup_keyboard(&mut pin, DialogKey::Enter, &mut config, &mut ls));
}

#[test]
fn pin_setup_mouse_cancel_and_inside() {
    let mut config = AppConfig::default();
    let mut ls = LockScreen::new();
    let mut pin = Some(PinSetupDialog::new("s".to_string()));
    let cs = Charset::ascii();
    // the dialog is 50x12, centred on 80x24: left 15, top 6, buttons on row 15
    assert!(handle_pin_setup_mouse(&mut pin, MouseKind::Down(MouseBtn::Left), 20, 8, 80, 24, &cs, &mut config, &mut ls));
    assert!(pin.is_some());
    assert!(!handle_pin_setup_mouse(&mut pin, MouseKind::Down(MouseBtn::Left), 2, 2, 80, 24, &cs, &mut config, &mut ls));
    assert!(!handle_pin_setup_mouse(&mut pin, MouseKind::Moved, 20, 8, 80, 24, &cs, &mut config, &mut ls));
    assert!(handle_pin_setup_mouse(&mut pin, MouseKind::Down(MouseBtn::Left), 42, 15, 80, 24, &cs, &mut config, &mut ls));
    assert!(pin.is_none());
    assert_eq!(config.lockscreen_pin_hash, None);
}

#[test]
fn context_menu_only_for_windows() {
    let mut m = ContextMenu::new(0, 0);
    assert!(!show_context_menu(&mut m, FocusState::Desktop, MouseKind::Down(MouseBtn::Right), 4, 4));
    assert!(!m.visible);
    assert!(!show_context_menu(&mut m, FocusState::Window(1), MouseKind::Down(MouseBtn::Left), 4, 4));
    assert!(show_context_menu(&mut m, FocusState::Window(1), MouseKind::Down(MouseBtn::Right), 4, 5));
    assert!(m.visible && m.x == 4 && m.y == 5);
}

#[test]
fn late_failure_locks_out_to_the_end_of_time() {
    let mut ls = LockScreen::new();
    ls.failed_attempts = 2;
    let unlocked = ls.finish_login(AuthResult::Failure("Invalid PIN".to_string()), u64::MAX - 10);
    assert!(!unlocked);
    assert_eq!(ls.failed_attempts, 3);
    assert_eq!(ls.state, LockScreenState::LockedOut { until: u64::MAX });
    let mut early = LockScreen::new();
    early.failed_attempts = 2;
    early.finish_login(AuthResult::Failure("Invalid PIN".to_string()), 1000);
    assert_eq!(early.state, LockScreenState::LockedOut { until: 6000 });
}

#[test]
fn movement_steps_record_the_press() {
    let mut m = MovementState::new();
    assert_eq!(m.last_press, None);
    assert_eq!(m.get_step(), 1);
    assert!(m.last_press.is_some());
    let s = m.get_step();
    assert!((1..=8).contains(&s));
    assert!(m.last_press.is_some());
}

#[test]
fn pin_login_attempts_follow_the_backoff() {
    let hash = PinAuthenticator::hash_pin("1234", "salt");
    let mut ls = LockScreen::new_with_mode(LockscreenAuthMode::Pin, Some(hash), Some("salt".to_string()));
    assert!(ls.error_message.is_none());
    assert_eq!(ls.dialog_width, 50);
    ls.lock();
    let mut now = 1000u64;
    let expected = [None, None, Some(5u64), Some(15), Some(30), Some(60), Some(120), Some(120)];
    for (i, secs) in expected.iter().enumerate() {
        for c in "9999".chars() {
            ls.insert_char_at(c, now);
        }
        assert!(!ls.attempt_login_at(now));
        assert_eq!(ls.failed_attempts, i as u32 + 1);
        assert_eq!(ls.error_message.as_deref(), Some("Invalid PIN"));
        assert!(ls.password.is_empty());
        assert_eq!(ls.cursor_position, 0);
        match secs {
            None => assert_eq!(ls.state, LockScreenState::Active),
            Some(s) => {
                assert_eq!(ls.state, LockScreenState::LockedOut { until: now + 1000 * s });
                assert!(!ls.attempt_login_at(now + 1));
                assert_eq!(ls.failed_attempts, i as u32 + 1);
                now += 1000 * s;
                ls.update_at(now);
            },
        }
    }
    for c in "1234".chars() {
        ls.insert_char_at(c, now);
    }
    assert!(ls.attempt_login_at(now));
    assert_eq!(ls.state, LockScreenState::Inactive);
    assert_eq!(ls.failed_attempts, 0);
    assert!(ls.password.is_empty());
    assert!(ls.error_message.is_none());
}

#[test]
fn error_dialog_fits_check() {
    let d = ErrorDialog::new(80, 24, "Disk full".to_string());
    assert!(d.fits_for_render());
    let mut far = ErrorDialog::new(80, 24, "Disk full".to_string());
    far.x = 65530;
    assert!(!far.fits_for_render());
}

#[test]
fn theme_cycle_goes_round() {
    let mut c = AppConfig::default();
    assert_eq!(c.theme, "classic");
    c.cycle_theme();
    assert_eq!(c.theme, "monochrome");
    for _ in 0..12 {
        c.cycle_theme();
    }
    assert_eq!(c.theme, "classic");
    c.set_theme("dbase".to_string());
    c.cycle_theme();
    assert_eq!(c.theme, "classic");
    c.set_theme("unknown".to_string());
    c.cycle_theme();
    assert_eq!(c.theme, "classic");
}
