//! Whether the program runs on a text console (Linux, BSD) rather than in a
//! terminal emulator, from what the environment and the terminal's device
//! name say; on a console the mouse is read from its device.

use vstd::prelude::*;
use crate::draw::str_eq;
use crate::text::chars_of;

verus! {

/// What the environment says about the terminal
pub struct ConsoleEnv {
    /// The `TERM` variable
    pub term: Option<String>,
    /// The `TTY` variable
    pub tty: Option<String>,
    /// `DISPLAY` is set
    pub display: bool,
    /// `SSH_CONNECTION` is set
    pub ssh: bool,
    /// `WAYLAND_DISPLAY` is set
    pub wayland: bool,
    /// The device name of standard input, where the system gives one
    pub tty_name: Option<String>,
    /// Running on a BSD
    pub bsd: bool,
    /// The platform reads raw console mice (Linux and the BSDs)
    pub raw_mouse: bool,
}

pub open spec fn starts(s: Seq<char>, p: Seq<char>) -> bool {
    s.len() >= p.len() && s.subrange(0, p.len() as int) == p
}

/// The BSD console device names
pub open spec fn bsd_console_name(n: Seq<char>) -> bool {
    starts(n, "/dev/ttyv"@) || starts(n, "/dev/ttyC"@)
}

/// A Linux virtual console: "/dev/tty" followed by digits only (not a
/// serial line, "/dev/ttyS")
pub open spec fn linux_console_name(n: Seq<char>) -> bool {
    &&& starts(n, "/dev/tty"@)
    &&& !starts(n, "/dev/ttyS"@)
    &&& forall|i: int| 8 <= i < n.len() ==> '0' <= #[trigger] n[i] <= '9'
}

/// Whether the environment is a text console: `TERM` says so (linux,
/// wsvt25, vt220, or cons25 and BSD xterm on a console device named by
/// `TTY`), or there is no graphical or remote session on a platform with
/// raw console mice and standard input is a console device
pub open spec fn console_env(e: ConsoleEnv) -> bool {
    let by_term = match e.term {
        Some(t) => {
            ||| t@ == "linux"@
            ||| (t@ == "cons25"@ || (t@ == "xterm"@ && e.bsd)) && (match e.tty {
                Some(y) => bsd_console_name(y@),
                None => false,
            })
            ||| t@ == "wsvt25"@
            ||| t@ == "vt220"@
        },
        None => false,
    };
    let by_device = !e.display && !e.ssh && !e.wayland && e.raw_mouse && (match e.tty_name {
        Some(n) => linux_console_name(n@) || bsd_console_name(n@),
        None => false,
    });
    by_term || by_device
}

fn starts_with(s: &Vec<char>, p: &str) -> (b: bool)
    ensures
        b == starts(s@, p@),
{
    let pv = chars_of(p);
    if s.len() < pv.len() {
        return false;
    }
    let mut i: usize = 0;
    while i < pv.len()
        invariant
            pv@ == p@,
            s@.len() >= pv@.len(),
            i <= pv@.len(),
            forall|j: int| 0 <= j < i ==> s@[j] == pv@[j],
        decreases pv@.len() - i,
    {
        if s[i] != pv[i] {
            assert(s@.subrange(0, pv@.len() as int)[i as int] != p@[i as int]);
            return false;
        }
        i = i + 1;
    }
    assert(s@.subrange(0, pv@.len() as int) =~= p@);
    true
}

fn is_bsd_console_name(n: &Vec<char>) -> (b: bool)
    ensures
        b == bsd_console_name(n@),
{
    starts_with(n, "/dev/ttyv") || starts_with(n, "/dev/ttyC")
}

fn is_linux_console_name(n: &Vec<char>) -> (b: bool)
    ensures
        b == linux_console_name(n@),
{
    proof {
        reveal_strlit("/dev/tty");
    }
    if !starts_with(n, "/dev/tty") || starts_with(n, "/dev/ttyS") {
        return false;
    }
    let mut i: usize = 8;
    while i < n.len()
        invariant
            8 <= i <= n@.len(),
            forall|j: int| 8 <= j < i ==> '0' <= #[trigger] n@[j] <= '9',
        decreases n@.len() - i,
    {
        if n[i] < '0' || n[i] > '9' {
            return false;
        }
        i = i + 1;
    }
    true
}

/// Whether the environment is a text console (see `console_env`)
pub fn is_console_environment(e: &ConsoleEnv) -> (b: bool)
    ensures
        b == console_env(*e),
{
    if let Some(t) = &e.term {
        let t = t.as_str();
        if str_eq(t, "linux") {
            return true;
        }
        if str_eq(t, "cons25") || (str_eq(t, "xterm") && e.bsd) {
            if let Some(y) = &e.tty {
                if is_bsd_console_name(&chars_of(y.as_str())) {
                    return true;
                }
            }
        }
        if str_eq(t, "wsvt25") || str_eq(t, "vt220") {
            return true;
        }
    }
    if !e.display && !e.ssh && !e.wayland && e.raw_mouse {
        if let Some(n) = &e.tty_name {
            let v = chars_of(n.as_str());
            if is_linux_console_name(&v) || is_bsd_console_name(&v) {
                return true;
            }
        }
    }
    false
}

} // verus!
