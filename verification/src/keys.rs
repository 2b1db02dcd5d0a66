//! What a key press sends to the program running in the focused terminal.

use vstd::prelude::*;

verus! {

/// A key, as far as the terminal input cares
#[derive(Clone, Copy, Debug, PartialEq, Eq, Structural)]
pub enum TermKey {
    Char(char),
    Enter,
    Backspace,
    Tab,
    BackTab,
    Up,
    Down,
    Right,
    Left,
    Home,
    End,
    PageUp,
    PageDown,
    Delete,
    Insert,
    F(u8),
    Esc,
    Other,
}

/// A key press with the modifiers that matter here
#[derive(Clone, Copy, Debug, PartialEq, Eq, Structural)]
pub struct KeyInput {
    pub code: TermKey,
    pub ctrl: bool,
    pub alt: bool,
}

pub open spec fn is_ascii_alpha(c: char) -> bool {
    ('a' <= c <= 'z') || ('A' <= c <= 'Z')
}

/// The control character of an ASCII letter: Ctrl+A is 0x01, ... Ctrl+Z is
/// 0x1A, either case
pub open spec fn control_code(c: char) -> char {
    let lower = if 'A' <= c <= 'Z' {
        (c as u32 + 32) as u32
    } else {
        c as u32
    };
    ((lower - 97) + 1) as char
}

/// A cursor key's sequence: SS3 form in application cursor-key mode
/// (DECCKM), CSI form otherwise
pub open spec fn cursor_seq(final_byte: char, application: bool) -> Seq<char> {
    if application {
        seq!['\x1b', 'O', final_byte]
    } else {
        seq!['\x1b', '[', final_byte]
    }
}

/// What the terminal receives for a key press, if anything
pub open spec fn key_bytes(key: KeyInput, application_cursor_keys: bool, altgr_passthrough: bool) -> Option<Seq<char>> {
    match key.code {
        TermKey::Char(c) => if altgr_passthrough && key.ctrl && key.alt {
            Some(seq![c])
        } else if key.ctrl && is_ascii_alpha(c) {
            Some(seq![control_code(c)])
        } else {
            Some(seq![c])
        },
        TermKey::Enter => Some(seq!['\r']),
        TermKey::Backspace => Some(seq!['\x7f']),
        TermKey::Tab => Some(seq!['\t']),
        TermKey::BackTab => Some(seq!['\x1b', '[', 'Z']),
        TermKey::Up => Some(cursor_seq('A', application_cursor_keys)),
        TermKey::Down => Some(cursor_seq('B', application_cursor_keys)),
        TermKey::Right => Some(cursor_seq('C', application_cursor_keys)),
        TermKey::Left => Some(cursor_seq('D', application_cursor_keys)),
        TermKey::Home => Some(cursor_seq('H', application_cursor_keys)),
        TermKey::End => Some(cursor_seq('F', application_cursor_keys)),
        TermKey::PageUp => Some(seq!['\x1b', '[', '5', '~']),
        TermKey::PageDown => Some(seq!['\x1b', '[', '6', '~']),
        TermKey::Delete => Some(seq!['\x1b', '[', '3', '~']),
        TermKey::Insert => Some(seq!['\x1b', '[', '2', '~']),
        TermKey::F(n) => if n == 8 {
            Some(seq!['\x1b', '[', '1', '9', '~'])
        } else {
            None
        },
        TermKey::Esc => None,
        TermKey::Other => None,
    }
}

fn chars3(a: char, b: char, c: char) -> (v: Vec<char>)
    ensures
        v@ == seq![a, b, c],
{
    let mut v: Vec<char> = Vec::new();
    v.push(a);
    v.push(b);
    v.push(c);
    v
}

fn chars4(a: char, b: char, c: char, d: char) -> (v: Vec<char>)
    ensures
        v@ == seq![a, b, c, d],
{
    let mut v = chars3(a, b, c);
    v.push(d);
    v
}

fn cursor_key(final_byte: char, application: bool) -> (v: Vec<char>)
    ensures
        v@ == cursor_seq(final_byte, application),
{
    if application {
        chars3('\x1b', 'O', final_byte)
    } else {
        chars3('\x1b', '[', final_byte)
    }
}

/// The characters a key press sends to the focused terminal, or `None` when
/// it sends nothing. Ctrl with a letter gives its control character;
/// cursor keys follow the application cursor-key mode; where
/// `altgr_passthrough` is set (Windows reports AltGr as Ctrl+Alt) such
/// combinations send the character itself.
pub fn forward_to_terminal(key: KeyInput, application_cursor_keys: bool, altgr_passthrough: bool) -> (r:
    Option<Vec<char>>)
    ensures
        match r {
            Some(v) => key_bytes(key, application_cursor_keys, altgr_passthrough) == Some(v@),
            None => key_bytes(key, application_cursor_keys, altgr_passthrough) is None,
        },
{
    match key.code {
        TermKey::Char(c) => {
            if altgr_passthrough && key.ctrl && key.alt {
                Some(vec![c])
            } else if key.ctrl && (('a' <= c && c <= 'z') || ('A' <= c && c <= 'Z')) {
                let lower: u32 = if 'A' <= c && c <= 'Z' {
                    (c as u32) + 32
                } else {
                    c as u32
                };
                let code = (lower - 97 + 1) as u8;
                Some(vec![code as char])
            } else {
                Some(vec![c])
            }
        },
        TermKey::Enter => Some(vec!['\r']),
        TermKey::Backspace => Some(vec!['\x7f']),
        TermKey::Tab => Some(vec!['\t']),
        TermKey::BackTab => Some(chars3('\x1b', '[', 'Z')),
        TermKey::Up => Some(cursor_key('A', application_cursor_keys)),
        TermKey::Down => Some(cursor_key('B', application_cursor_keys)),
        TermKey::Right => Some(cursor_key('C', application_cursor_keys)),
        TermKey::Left => Some(cursor_key('D', application_cursor_keys)),
        TermKey::Home => Some(cursor_key('H', application_cursor_keys)),
        TermKey::End => Some(cursor_key('F', application_cursor_keys)),
        TermKey::PageUp => Some(chars4('\x1b', '[', '5', '~')),
        TermKey::PageDown => Some(chars4('\x1b', '[', '6', '~')),
        TermKey::Delete => Some(chars4('\x1b', '[', '3', '~')),
        TermKey::Insert => Some(chars4('\x1b', '[', '2', '~')),
        TermKey::F(n) => {
            if n == 8 {
                let mut v = chars4('\x1b', '[', '1', '9');
                v.push('~');
                Some(v)
            } else {
                None
            }
        },
        TermKey::Esc => None,
        TermKey::Other => None,
    }
}

/// The sequence of function key F`n` (F1 to F12) as an xterm sends it
pub open spec fn function_key_seq(n: u8) -> Option<Seq<char>> {
    if n == 1 {
        Some("\x1bOP"@)
    } else if n == 2 {
        Some("\x1bOQ"@)
    } else if n == 3 {
        Some("\x1bOR"@)
    } else if n == 4 {
        Some("\x1bOS"@)
    } else if n == 5 {
        Some("\x1b[15~"@)
    } else if n == 6 {
        Some("\x1b[17~"@)
    } else if n == 7 {
        Some("\x1b[18~"@)
    } else if n == 8 {
        Some("\x1b[19~"@)
    } else if n == 9 {
        Some("\x1b[20~"@)
    } else if n == 10 {
        Some("\x1b[21~"@)
    } else if n == 11 {
        Some("\x1b[23~"@)
    } else if n == 12 {
        Some("\x1b[24~"@)
    } else {
        None
    }
}

/// The escape sequence of function key F`n`, for F1 to F12
pub fn get_function_key_sequence(n: u8) -> (r: Option<&'static str>)
    ensures
        match r {
            Some(s) => function_key_seq(n) == Some(s@),
            None => function_key_seq(n) is None,
        },
{
    match n {
        1 => Some("\x1bOP"),
        2 => Some("\x1bOQ"),
        3 => Some("\x1bOR"),
        4 => Some("\x1bOS"),
        5 => Some("\x1b[15~"),
        6 => Some("\x1b[17~"),
        7 => Some("\x1b[18~"),
        8 => Some("\x1b[19~"),
        9 => Some("\x1b[20~"),
        10 => Some("\x1b[21~"),
        11 => Some("\x1b[23~"),
        12 => Some("\x1b[24~"),
        _ => None,
    }
}

} // verus!
