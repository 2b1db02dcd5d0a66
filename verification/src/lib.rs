//! Verified core of a retro-styled terminal multiplexer.

pub mod charset;
pub mod term;
pub mod ansi;
pub mod color;
pub mod text;
pub mod clock;
pub mod auth;
pub mod config;
pub mod lockscreen;
pub mod pin_setup;
pub mod keyboard_mode;
pub mod font;
pub mod text_modes;
pub mod error_dialog;
pub mod context_menu;
pub mod config_window;
pub mod session;
pub mod command_history;
pub mod framebuffer;
pub mod laws;
pub mod keys;
pub mod keybindings;
pub mod gpm;
pub mod mouse;
pub mod draw;
pub mod selection;
pub mod mouse_events;
pub mod desktop;
pub mod dialog_input;
pub mod machine_id;
pub mod platform;
pub mod topbar;
pub mod font_list;
pub mod lock_request;
pub mod routing;
pub mod io_laws;
