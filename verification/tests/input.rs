use term39::context_menu::{ContextMenu, MenuAction};
use term39::dialog_input::handle_taskbar_menu_mouse;
use term39::platform::{is_console_environment, ConsoleEnv};
use term39::lock_request::{lock_targets, names_term39, parse_u32};
use term39::routing::{route_key, KeyLayers, KeyPhase, KeyRoute};
use term39::desktop::{handle_desktop_keyboard, DesktopAction, DesktopContext, FocusState, MOD_SUPER};
use term39::gpm::{gpm_to_screen_coords, ClickCount, GpmButton, GpmEventDecoder, GpmEventType, GpmRawEvent};
use term39::keybindings::{matches_any, KeyBinding, KeybindingProfile, MOD_ALT, MOD_CONTROL, MOD_SHIFT};
use term39::keyboard_mode::{Direction, SnapPosition};
use term39::keys::{forward_to_terminal, get_function_key_sequence, KeyInput, TermKey};
use term39::mouse::{parse_ps2_packet, parse_sysmouse_packet, EvdevAccumulator, MouseButtons, MouseEvent, EV_KEY, EV_REL, BTN_LEFT, REL_X, REL_WHEEL};
use term39::mouse_events::{map_fb_button_event, map_fb_scroll_event, MouseEventQueue, PointerEvent};
use term39::selection::{forward_code, should_forward, ClickState, MouseBtn, MouseKind, SelectionAction, SelectionType, WindowView};

fn ctx(focus: FocusState) -> DesktopContext {
    DesktopContext {
        focus,
        in_window_mode: false,
        last_backtick_time: None,
        now: 10_000,
        no_exit: false,
        macos: false,
        window_count: 0,
        auto_tiling_enabled: false,
        can_lock: true,
    }
}

fn buttons(left: bool, right: bool, middle: bool) -> MouseButtons {
    MouseButtons { left, right, middle }
}

fn raw(dx: i8, dy: i8, b: MouseButtons, scroll: i8) -> MouseEvent {
    MouseEvent { dx, dy, buttons: b, scroll, scroll_h: 0 }
}

fn drain(q: &mut MouseEventQueue) -> Vec<MouseKind> {
    let mut out = Vec::new();
    while let Some(e) = q.pop_event() {
        out.push(e.kind);
    }
    out
}

#[test]
fn mouse_queue_press_move_release() {
    let mut q = MouseEventQueue::new(false);
    q.generate_events(raw(0, 0, buttons(true, false, false), 0), 5, 6);
    assert_eq!(q.pop_event(), Some(PointerEvent { kind: MouseKind::Down(MouseBtn::Left), column: 5, row: 6 }));
    assert_eq!(q.pop_event(), None);
    q.generate_events(raw(3, 0, buttons(true, false, false), 0), 7, 6);
    assert_eq!(drain(&mut q), vec![MouseKind::Drag(MouseBtn::Left)]);
    q.generate_events(raw(0, 0, buttons(false, false, false), 0), 7, 6);
    assert_eq!(drain(&mut q), vec![MouseKind::Up(MouseBtn::Left)]);
}

#[test]
fn mouse_queue_press_with_movement_is_no_drag() {
    let mut q = MouseEventQueue::new(false);
    q.generate_events(raw(4, -2, buttons(true, false, false), 0), 1, 1);
    assert_eq!(drain(&mut q), vec![MouseKind::Down(MouseBtn::Left), MouseKind::Moved]);
}

#[test]
fn mouse_queue_swapped_buttons() {
    let mut q = MouseEventQueue::new(true);
    q.generate_events(raw(0, 0, buttons(true, false, false), 0), 0, 0);
    assert_eq!(drain(&mut q), vec![MouseKind::Down(MouseBtn::Right)]);
    assert_eq!(q.prev_buttons, buttons(false, true, false));
}

#[test]
fn mouse_queue_wheel_steps() {
    let mut q = MouseEventQueue::new(false);
    q.generate_events(raw(0, 0, buttons(false, false, false), 3), 2, 2);
    assert_eq!(drain(&mut q), vec![MouseKind::ScrollUp, MouseKind::ScrollUp, MouseKind::ScrollUp]);
    q.generate_events(raw(0, 0, buttons(false, false, false), -2), 2, 2);
    assert_eq!(drain(&mut q), vec![MouseKind::ScrollDown, MouseKind::ScrollDown]);
}

#[test]
fn mouse_queue_quiet_report_gives_nothing() {
    let mut q = MouseEventQueue::new(false);
    q.generate_events(raw(0, 0, buttons(false, true, false), 0), 2, 2);
    drain(&mut q);
    q.generate_events(raw(0, 0, buttons(false, true, false), 0), 2, 2);
    assert_eq!(q.pop_event(), None);
}

#[test]
fn mouse_queue_order_of_events() {
    let mut q = MouseEventQueue::new(false);
    q.generate_events(raw(0, 0, buttons(true, false, true), 0), 0, 0);
    drain(&mut q);
    q.generate_events(raw(1, 0, buttons(false, true, true), 1), 0, 0);
    assert_eq!(
        drain(&mut q),
        vec![
            MouseKind::Down(MouseBtn::Right),
            MouseKind::Up(MouseBtn::Left),
            MouseKind::Drag(MouseBtn::Middle),
            MouseKind::ScrollUp
        ]
    );
}

#[test]
fn framebuffer_button_events() {
    assert_eq!(map_fb_button_event(0, 0, 3, 4, false).kind, MouseKind::Down(MouseBtn::Left));
    assert_eq!(map_fb_button_event(1, 0, 3, 4, true).kind, MouseKind::Up(MouseBtn::Right));
    assert_eq!(map_fb_button_event(2, 1, 3, 4, true).kind, MouseKind::Drag(MouseBtn::Left));
    assert_eq!(map_fb_button_event(9, 2, 3, 4, false).kind, MouseKind::Down(MouseBtn::Middle));
    assert_eq!(map_fb_button_event(0, 7, 3, 4, false), PointerEvent { kind: MouseKind::Down(MouseBtn::Left), column: 3, row: 4 });
    assert_eq!(map_fb_scroll_event(0, 1, 2).kind, MouseKind::ScrollUp);
    assert_eq!(map_fb_scroll_event(5, 1, 2).kind, MouseKind::ScrollDown);
}

#[test]
fn desktop_shift_function_key_to_window() {
    let p = KeybindingProfile::term39();
    let a = handle_desktop_keyboard(&p, TermKey::F(5), MOD_SHIFT, ctx(FocusState::Window(1)));
    assert_eq!(a, DesktopAction::SendFunctionKey(5));
    assert_eq!(get_function_key_sequence(5), Some("\x1b[15~"));
}

#[test]
fn desktop_term39_keys() {
    let p = KeybindingProfile::term39();
    let d = ctx(FocusState::Desktop);
    assert_eq!(handle_desktop_keyboard(&p, TermKey::F(1), 0, d), DesktopAction::ShowHelp);
    assert_eq!(handle_desktop_keyboard(&p, TermKey::F(2), 0, d), DesktopAction::CycleWindow);
    assert_eq!(handle_desktop_keyboard(&p, TermKey::F(3), 0, d), DesktopAction::SaveSession);
    assert_eq!(handle_desktop_keyboard(&p, TermKey::F(7), 0, d), DesktopAction::NewTerminal { maximized: false });
    assert_eq!(handle_desktop_keyboard(&p, TermKey::Char('T'), 0, d), DesktopAction::NewTerminal { maximized: true });
    assert_eq!(handle_desktop_keyboard(&p, TermKey::Char('s'), 0, d), DesktopAction::OpenSettings);
    assert_eq!(handle_desktop_keyboard(&p, TermKey::Char('c'), 0, d), DesktopAction::ShowCalendar);
    assert_eq!(handle_desktop_keyboard(&p, TermKey::Char('l'), 0, d), DesktopAction::ShowAbout);
    assert_eq!(handle_desktop_keyboard(&p, TermKey::Esc, 0, d), DesktopAction::EscKey);
    assert_eq!(handle_desktop_keyboard(&p, TermKey::Char('q'), 0, d), DesktopAction::QKey);
    assert_eq!(handle_desktop_keyboard(&p, TermKey::Char('z'), 0, d), DesktopAction::NotHandled);
}

#[test]
fn desktop_auto_tiling_maximizes_first_window() {
    let p = KeybindingProfile::term39();
    let mut c = ctx(FocusState::Desktop);
    c.auto_tiling_enabled = true;
    assert_eq!(handle_desktop_keyboard(&p, TermKey::F(7), 0, c), DesktopAction::NewTerminal { maximized: true });
    c.window_count = 2;
    assert_eq!(handle_desktop_keyboard(&p, TermKey::F(7), 0, c), DesktopAction::NewTerminal { maximized: false });
}

#[test]
fn desktop_window_focus_keys() {
    let p = KeybindingProfile::term39();
    let w = ctx(FocusState::Window(3));
    assert_eq!(handle_desktop_keyboard(&p, TermKey::F(8), 0, w), DesktopAction::ForwardToTerminal);
    assert_eq!(handle_desktop_keyboard(&p, TermKey::F(4), 0, w), DesktopAction::ClearTerminal);
    assert_eq!(handle_desktop_keyboard(&p, TermKey::Char('l'), MOD_CONTROL, w), DesktopAction::ClearTerminal);
    assert_eq!(handle_desktop_keyboard(&p, TermKey::Char('h'), 0, w), DesktopAction::NotHandled);
    assert_eq!(handle_desktop_keyboard(&p, TermKey::Char(' '), MOD_CONTROL, w), DesktopAction::OpenLauncher);
    assert_eq!(handle_desktop_keyboard(&p, TermKey::F(5), 0, w), DesktopAction::CopySelection);
    assert_eq!(handle_desktop_keyboard(&p, TermKey::F(6), 0, w), DesktopAction::Paste);
    assert_eq!(handle_desktop_keyboard(&p, TermKey::Char('C'), MOD_CONTROL | MOD_SHIFT, w), DesktopAction::CopySelection);
    assert_eq!(handle_desktop_keyboard(&p, TermKey::Char('V'), MOD_CONTROL | MOD_SHIFT, w), DesktopAction::Paste);
    assert_eq!(handle_desktop_keyboard(&p, TermKey::F(10), 0, w), DesktopAction::NotHandled);
}

#[test]
fn desktop_macos_clipboard_and_window_numbers() {
    let p = KeybindingProfile::term39();
    let mut w = ctx(FocusState::Window(3));
    w.macos = true;
    assert_eq!(handle_desktop_keyboard(&p, TermKey::Char('c'), MOD_SUPER, w), DesktopAction::CopySelection);
    assert_eq!(handle_desktop_keyboard(&p, TermKey::Char('v'), MOD_SUPER, w), DesktopAction::Paste);
    assert_eq!(handle_desktop_keyboard(&p, TermKey::Char('™'), 0, w), DesktopAction::SelectWindow(2));
    assert_eq!(handle_desktop_keyboard(&p, TermKey::Char('4'), MOD_SUPER, w), DesktopAction::SelectWindow(4));
    let linux = ctx(FocusState::Desktop);
    assert_eq!(handle_desktop_keyboard(&p, TermKey::Char('7'), MOD_ALT, linux), DesktopAction::SelectWindow(7));
    assert_eq!(handle_desktop_keyboard(&p, TermKey::Char('7'), MOD_SUPER, linux), DesktopAction::NotHandled);
}

#[test]
fn desktop_backtick_toggles_and_double_press() {
    let p = KeybindingProfile::term39();
    let mut c = ctx(FocusState::Window(1));
    assert_eq!(handle_desktop_keyboard(&p, TermKey::Char('`'), 0, c), DesktopAction::BacktickToggle);
    c.in_window_mode = true;
    c.last_backtick_time = Some(9_000);
    assert_eq!(handle_desktop_keyboard(&p, TermKey::Char('`'), 0, c), DesktopAction::BacktickExit);
    c.last_backtick_time = Some(9_800);
    assert_eq!(handle_desktop_keyboard(&p, TermKey::Char('`'), 0, c), DesktopAction::DoubleBacktick);
    c.last_backtick_time = Some(9_700);
    assert_eq!(handle_desktop_keyboard(&p, TermKey::Char('`'), 0, c), DesktopAction::BacktickExit);
    assert_eq!(handle_desktop_keyboard(&p, TermKey::F(8), 0, c), DesktopAction::ExitWindowMode);
    let d = ctx(FocusState::Desktop);
    assert_eq!(handle_desktop_keyboard(&p, TermKey::F(8), 0, d), DesktopAction::ToggleWindowMode);
}

#[test]
fn desktop_esc_and_no_exit() {
    let p = KeybindingProfile::term39();
    let mut c = ctx(FocusState::Window(2));
    c.no_exit = true;
    assert_eq!(handle_desktop_keyboard(&p, TermKey::Esc, 0, c), DesktopAction::NotHandled);
    let h = KeybindingProfile::hyprland(false);
    let w = ctx(FocusState::Window(2));
    assert_eq!(handle_desktop_keyboard(&h, TermKey::F(10), 0, w), DesktopAction::NotHandled);
}

#[test]
fn desktop_hyprland_direct_bindings() {
    let h = KeybindingProfile::hyprland(false);
    assert!(h.has_direct_bindings());
    let w = ctx(FocusState::Window(2));
    assert_eq!(handle_desktop_keyboard(&h, TermKey::Char('h'), MOD_ALT, w), DesktopAction::FocusDirection(Direction::Left));
    assert_eq!(handle_desktop_keyboard(&h, TermKey::Char('l'), MOD_ALT, w), DesktopAction::FocusDirection(Direction::Right));
    assert_eq!(handle_desktop_keyboard(&h, TermKey::Char('H'), MOD_ALT | MOD_SHIFT, w), DesktopAction::Snap(SnapPosition::FullLeft));
}

#[test]
fn desktop_lock_key() {
    let p = KeybindingProfile::term39();
    let mut d = ctx(FocusState::Desktop);
    let lock = p.lock_screen[0];
    assert_eq!(handle_desktop_keyboard(&p, lock.code, lock.modifiers, d), DesktopAction::LockScreen);
    d.can_lock = false;
    assert_eq!(handle_desktop_keyboard(&p, lock.code, lock.modifiers, d), DesktopAction::LockHint);
}

#[test]
fn binding_matching_allows_extra_modifiers() {
    let b = KeyBinding::new(TermKey::Char('x'), MOD_ALT);
    assert!(b.matches(TermKey::Char('x'), MOD_ALT | MOD_SHIFT));
    assert!(!b.matches(TermKey::Char('x'), MOD_SHIFT));
    assert!(matches_any(&[KeyBinding::new(TermKey::F(1), 0), b], TermKey::Char('x'), MOD_ALT));
    assert!(!matches_any(&[], TermKey::F(1), 0));
}

#[test]
fn profile_names_cycle() {
    assert_eq!(KeybindingProfile::all_names(), vec!["term39", "hyprland"]);
    assert_eq!(KeybindingProfile::next_name("term39"), "hyprland");
    assert_eq!(KeybindingProfile::next_name("hyprland"), "term39");
    assert_eq!(KeybindingProfile::prev_name("term39"), "hyprland");
    assert_eq!(KeybindingProfile::display_name("hyprland"), "Hyprland");
    assert_eq!(KeybindingProfile::from_name("HYPRLAND", false).name, "hyprland");
    assert_eq!(KeybindingProfile::from_name("unknown", false).name, "term39");
}

#[test]
fn profile_cycle_returns_to_start() {
    for name in KeybindingProfile::all_names() {
        assert_eq!(KeybindingProfile::prev_name(KeybindingProfile::next_name(name)), name);
        assert_eq!(KeybindingProfile::next_name(KeybindingProfile::prev_name(name)), name);
        assert_eq!(KeybindingProfile::from_name(name, false).name, name);
    }
}

#[test]
fn forwarding_keys_to_terminal() {
    let k = |code, ctrl, alt| KeyInput { code, ctrl, alt };
    assert_eq!(forward_to_terminal(k(TermKey::Char('a'), true, false), false, false), Some(vec!['\x01']));
    assert_eq!(forward_to_terminal(k(TermKey::Char('Z'), true, false), false, false), Some(vec!['\x1a']));
    assert_eq!(forward_to_terminal(k(TermKey::Char('@'), true, true), false, true), Some(vec!['@']));
    assert_eq!(forward_to_terminal(k(TermKey::Up, false, false), true, false), Some(vec!['\x1b', 'O', 'A']));
    assert_eq!(forward_to_terminal(k(TermKey::Up, false, false), false, false), Some(vec!['\x1b', '[', 'A']));
    assert_eq!(forward_to_terminal(k(TermKey::Enter, false, false), false, false), Some(vec!['\r']));
    assert_eq!(forward_to_terminal(k(TermKey::Esc, false, false), false, false), None);
    assert_eq!(get_function_key_sequence(1), Some("\x1bOP"));
    assert_eq!(get_function_key_sequence(13), None);
}

#[test]
fn gpm_decoding_keeps_held_button() {
    assert_eq!(gpm_to_screen_coords(1, 1), (0, 0));
    assert_eq!(gpm_to_screen_coords(0, -4), (0, 0));
    assert_eq!(gpm_to_screen_coords(10, 3), (9, 2));
    let mut d = GpmEventDecoder::new();
    let down = d.decode_event(GpmRawEvent { buttons: 4, modifiers: 0, x: 5, y: 6, event_type: 4 }).unwrap();
    assert_eq!(down.event_type, GpmEventType::Down);
    assert_eq!(down.button, Some(GpmButton::Left));
    assert_eq!((down.x, down.y), (4, 5));
    let up = d.decode_event(GpmRawEvent { buttons: 0, modifiers: 1, x: 5, y: 6, event_type: 8 | 32 }).unwrap();
    assert_eq!(up.event_type, GpmEventType::Up);
    assert_eq!(up.button, Some(GpmButton::Left));
    assert_eq!(up.clicks, ClickCount::Double);
    assert!(up.shift);
    let wheel = d.decode_event(GpmRawEvent { buttons: 16, modifiers: 0, x: 1, y: 1, event_type: 0 }).unwrap();
    assert_eq!(wheel.event_type, GpmEventType::ScrollUp);
    assert_eq!(d.decode_event(GpmRawEvent { buttons: 0, modifiers: 0, x: 1, y: 1, event_type: 0 }), None);
}

#[test]
fn ps2_and_sysmouse_packets() {
    assert_eq!(parse_ps2_packet(&[0x09, 0x05]), None);
    let e = parse_ps2_packet(&[0x09, 0x05, 0xFE]).unwrap();
    assert_eq!((e.dx, e.dy, e.scroll), (5, -2, 0));
    assert_eq!(e.buttons, buttons(true, false, false));
    let w = parse_ps2_packet(&[0x02, 0, 0, 0xFF]).unwrap();
    assert_eq!(w.scroll, 1);
    assert!(w.buttons.right);
    assert_eq!(parse_sysmouse_packet(&[0x87, 1, 2, 3]), None);
    let s = parse_sysmouse_packet(&[0x83, 1, 0xFF, 0xFE, 0xFF]).unwrap();
    assert_eq!(s.buttons, buttons(true, false, false));
    assert_eq!((s.dx, s.dy, s.scroll), (1, -1, -2));
    let big = parse_sysmouse_packet(&[0x87, 0, 0, 0x00, 0x02]).unwrap();
    assert_eq!(big.scroll, 127);
}

#[test]
fn evdev_accumulates_until_report() {
    let mut a = EvdevAccumulator::new();
    assert_eq!(a.flush(), None);
    let e = a.feed_event(EV_REL, REL_X, 300).unwrap();
    assert_eq!(e.dx, 127);
    assert_eq!(a.dx, 0);
    let b = a.feed_event(EV_KEY, BTN_LEFT, 1).unwrap();
    assert!(b.buttons.left);
    assert_eq!(a.feed_event(EV_KEY, BTN_LEFT, 1), None);
    let w = a.feed_event(EV_REL, REL_WHEEL, -1).unwrap();
    assert_eq!(w.scroll, -1);
    assert!(w.buttons.left);
}

#[test]
fn selection_clicks_and_forwarding() {
    let view = WindowView {
        focused_window: Some(4),
        window_at_point: Some(4),
        on_drag_area: false,
        dragging: false,
        close_confirmation: false,
        mouse_tracking: false,
    };
    assert!(!should_forward(view));
    assert!(should_forward(WindowView { mouse_tracking: true, ..view }));
    assert_eq!(forward_code(MouseKind::Down(MouseBtn::Right)), (2, 0));
    assert_eq!(forward_code(MouseKind::ScrollDown), (65, 0));
    let mut s = ClickState::new();
    let left = MouseKind::Down(MouseBtn::Left);
    let r = s.handle_selection_mouse(view, left, 10, 3, false, 1000);
    assert_eq!(r, (true, Some(SelectionAction::Start { window: 4, col: 10, row: 3, kind: SelectionType::Character })));
    let r = s.handle_selection_mouse(view, left, 11, 3, false, 1200);
    assert_eq!(r.1, Some(SelectionAction::Start { window: 4, col: 11, row: 3, kind: SelectionType::Word }));
    let r = s.handle_selection_mouse(view, left, 11, 3, false, 1400);
    assert_eq!(r.1, Some(SelectionAction::Start { window: 4, col: 11, row: 3, kind: SelectionType::Line }));
    let r = s.handle_selection_mouse(view, left, 30, 3, true, 5000);
    assert_eq!(r.1, Some(SelectionAction::Start { window: 4, col: 30, row: 3, kind: SelectionType::Block }));
    let r = s.handle_selection_mouse(view, MouseKind::Drag(MouseBtn::Left), 35, 4, true, 5100);
    assert_eq!(r, (true, Some(SelectionAction::Update { window: 4, col: 35, row: 4 })));
    let r = s.handle_selection_mouse(view, MouseKind::Up(MouseBtn::Left), 35, 4, true, 5200);
    assert_eq!(r, (true, Some(SelectionAction::Complete { window: 4 })));
    assert!(!s.selection_active);
}

fn env(term: Option<&str>, tty: Option<&str>, tty_name: Option<&str>, bsd: bool) -> ConsoleEnv {
    ConsoleEnv {
        term: term.map(|s| s.to_string()),
        tty: tty.map(|s| s.to_string()),
        display: false,
        ssh: false,
        wayland: false,
        tty_name: tty_name.map(|s| s.to_string()),
        bsd,
        raw_mouse: true,
    }
}

#[test]
fn console_detection() {
    assert!(is_console_environment(&env(Some("linux"), None, None, false)));
    assert!(is_console_environment(&env(Some("vt220"), None, None, false)));
    assert!(is_console_environment(&env(Some("cons25"), Some("/dev/ttyv0"), None, true)));
    assert!(!is_console_environment(&env(Some("xterm"), Some("/dev/ttyv0"), None, false)));
    assert!(is_console_environment(&env(Some("xterm"), Some("/dev/ttyv0"), None, true)));
    assert!(is_console_environment(&env(Some("xterm-256color"), None, Some("/dev/tty3"), false)));
    assert!(!is_console_environment(&env(Some("xterm-256color"), None, Some("/dev/ttyS0"), false)));
    assert!(!is_console_environment(&env(Some("xterm-256color"), None, Some("/dev/pts/1"), false)));
    let mut remote = env(Some("xterm-256color"), None, Some("/dev/tty3"), false);
    remote.ssh = true;
    assert!(!is_console_environment(&remote));
}

#[test]
fn taskbar_menu_picks_for_its_window() {
    let mut m = ContextMenu::new_taskbar_menu(5, 5);
    m.show(5, 5);
    let mut id = Some(9u32);
    let r = handle_taskbar_menu_mouse(&mut m, &mut id, MouseKind::Down(MouseBtn::Left), 7, 7);
    assert_eq!(r, (true, Some((9, MenuAction::Maximize))));
    assert_eq!(id, None);
    m.show(5, 5);
    let mut id = Some(4u32);
    let r = handle_taskbar_menu_mouse(&mut m, &mut id, MouseKind::Moved, 7, 8);
    assert_eq!(r, (false, None));
    assert_eq!(id, Some(4));
    assert_eq!(m.selected_index, 2);
}

#[test]
fn lock_request_targets() {
    assert_eq!(parse_u32("42"), Some(42));
    assert_eq!(parse_u32("+7"), Some(7));
    assert_eq!(parse_u32("4294967295"), Some(u32::MAX));
    assert_eq!(parse_u32("4294967296"), None);
    assert_eq!(parse_u32(""), None);
    assert_eq!(parse_u32("+"), None);
    assert_eq!(parse_u32("12a"), None);
    assert_eq!(parse_u32(" 12"), None);
    assert_eq!(lock_targets("100\n 200 \nabc\n300\r\n100\n", 300), vec![100, 200, 100]);
    assert!(lock_targets("", 1).is_empty());
    assert!(names_term39("term39\n"));
    assert!(!names_term39("term3"));
}

fn no_layers() -> KeyLayers {
    KeyLayers {
        lockscreen_active: false,
        prompt_open: false,
        close_confirmation_open: false,
        error_dialog_open: false,
        pin_setup_open: false,
        launcher_open: false,
        calendar_open: false,
        help_open: false,
        about_open: false,
        config_window_open: false,
        window_mode_help_open: false,
        window_mode_takes_key: false,
    }
}

#[test]
fn keys_reach_layers_in_order() {
    let l = no_layers();
    assert_eq!(route_key(KeyPhase::Release, TermKey::Char('a'), 0, l), KeyRoute::Ignore);
    assert_eq!(route_key(KeyPhase::Repeat, TermKey::Char('a'), 0, l), KeyRoute::Ignore);
    assert_eq!(route_key(KeyPhase::Repeat, TermKey::Up, 0, l), KeyRoute::Desktop);
    assert_eq!(route_key(KeyPhase::Press, TermKey::Char('a'), 0, l), KeyRoute::Desktop);
    assert_eq!(route_key(KeyPhase::Press, TermKey::F(12), 0, l), KeyRoute::LockShortcut);
    assert_eq!(route_key(KeyPhase::Press, TermKey::Char(' '), MOD_CONTROL, l), KeyRoute::OpenLauncher);
    assert_eq!(route_key(KeyPhase::Press, TermKey::Char(' '), 0, l), KeyRoute::Desktop);
    let locked = KeyLayers { lockscreen_active: true, error_dialog_open: true, ..l };
    assert_eq!(route_key(KeyPhase::Press, TermKey::F(12), 0, locked), KeyRoute::Lockscreen);
    let dialogs = KeyLayers { error_dialog_open: true, pin_setup_open: true, config_window_open: true, ..l };
    assert_eq!(route_key(KeyPhase::Press, TermKey::Esc, 0, dialogs), KeyRoute::ErrorDialog);
    let pin = KeyLayers { pin_setup_open: true, config_window_open: true, ..l };
    assert_eq!(route_key(KeyPhase::Press, TermKey::Esc, 0, pin), KeyRoute::PinSetup);
    let cfg = KeyLayers { config_window_open: true, ..l };
    assert_eq!(route_key(KeyPhase::Press, TermKey::Char(' '), MOD_ALT, cfg), KeyRoute::ConfigWindow);
}
