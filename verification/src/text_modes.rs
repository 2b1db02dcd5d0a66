//! The classic VGA text modes and their character cell sizes.

use vstd::prelude::*;
use crate::text::chars_of;

verus! {

/// Text mode kinds
#[derive(Debug, Clone, Copy, PartialEq, Eq, Structural)]
pub enum TextModeKind {
    /// 40 columns x 25 rows, 16x16 cells
    Mode40x25,
    /// 80 columns x 25 rows, 8x16 cells (the standard DOS mode)
    Mode80x25,
    /// 80 columns x 43 rows, 8x11 cells
    Mode80x43,
    /// 80 columns x 50 rows, 8x8 cells
    Mode80x50,
}

/// The name of a mode, as "COLSxROWS"
pub open spec fn mode_name(k: TextModeKind) -> Seq<char> {
    match k {
        TextModeKind::Mode40x25 => "40x25"@,
        TextModeKind::Mode80x25 => "80x25"@,
        TextModeKind::Mode80x43 => "80x43"@,
        TextModeKind::Mode80x50 => "80x50"@,
    }
}

/// A character matches a pattern character regardless of ASCII case
pub open spec fn ci_eq(c: char, p: char) -> bool {
    c == p || ('a' <= p <= 'z' && c as u32 == p as u32 - 32)
}

/// A string equals a pattern regardless of ASCII case
pub open spec fn ci_matches(s: Seq<char>, p: Seq<char>) -> bool {
    s.len() == p.len() && forall|i: int| 0 <= i < s.len() ==> ci_eq(#[trigger] s[i], p[i])
}

pub(crate) fn ci_matches_exec(s: &Vec<char>, p: &str) -> (b: bool)
    ensures
        b == ci_matches(s@, p@),
{
    let pv = chars_of(p);
    if s.len() != pv.len() {
        return false;
    }
    let mut i: usize = 0;
    while i < s.len()
        invariant
            pv@ == p@,
            s@.len() == pv@.len(),
            i <= s@.len(),
            forall|j: int| 0 <= j < i ==> ci_eq(#[trigger] s@[j], p@[j]),
        decreases s@.len() - i,
    {
        let c = s[i];
        let q = pv[i];
        let ok = c == q || ('a' <= q && q <= 'z' && (c as u32) == (q as u32) - 32);
        if !ok {
            return false;
        }
        i = i + 1;
    }
    true
}

impl TextModeKind {
    /// Parse a mode name such as "80x25" (letters in any case)
    pub fn from_str(s: &str) -> (k: Option<Self>)
        ensures
            k matches Some(m) ==> ci_matches(s@, mode_name(m)),
            k is None ==> forall|m: TextModeKind| !ci_matches(s@, #[trigger] mode_name(m)),
    {
        proof {
            reveal_strlit("40x25");
            reveal_strlit("80x25");
            reveal_strlit("80x43");
            reveal_strlit("80x50");
        }
        let v = chars_of(s);
        if ci_matches_exec(&v, "40x25") {
            Some(TextModeKind::Mode40x25)
        } else if ci_matches_exec(&v, "80x25") {
            Some(TextModeKind::Mode80x25)
        } else if ci_matches_exec(&v, "80x43") {
            Some(TextModeKind::Mode80x43)
        } else if ci_matches_exec(&v, "80x50") {
            Some(TextModeKind::Mode80x50)
        } else {
            proof {
                assert forall|m: TextModeKind| !ci_matches(s@, #[trigger] mode_name(m)) by {
                    match m {
                        TextModeKind::Mode40x25 => {},
                        TextModeKind::Mode80x25 => {},
                        TextModeKind::Mode80x43 => {},
                        TextModeKind::Mode80x50 => {},
                    }
                }
            }
            None
        }
    }

    /// All modes
    pub fn all_modes() -> (a: [TextModeKind; 4])
        ensures
            a@ == seq![
                TextModeKind::Mode40x25,
                TextModeKind::Mode80x25,
                TextModeKind::Mode80x43,
                TextModeKind::Mode80x50,
            ],
    {
        [
            TextModeKind::Mode40x25,
            TextModeKind::Mode80x25,
            TextModeKind::Mode80x43,
            TextModeKind::Mode80x50,
        ]
    }

    /// The mode's name, as "COLSxROWS"
    pub fn name(&self) -> (s: &'static str)
        ensures
            s@ == mode_name(*self),
    {
        match self {
            TextModeKind::Mode40x25 => "40x25",
            TextModeKind::Mode80x25 => "80x25",
            TextModeKind::Mode80x43 => "80x43",
            TextModeKind::Mode80x50 => "80x50",
        }
    }
}

/// Text mode geometry
#[derive(Debug, Clone, Copy, PartialEq, Eq, Structural)]
pub struct TextMode {
    pub kind: TextModeKind,
    /// Characters per row
    pub cols: usize,
    /// Character rows
    pub rows: usize,
    /// Cell width in pixels
    pub char_width: usize,
    /// Cell height in pixels
    pub char_height: usize,
}

/// Geometry of a mode: (cols, rows, cell width, cell height)
pub open spec fn mode_geometry(k: TextModeKind) -> (usize, usize, usize, usize) {
    match k {
        TextModeKind::Mode40x25 => (40, 25, 16, 16),
        TextModeKind::Mode80x25 => (80, 25, 8, 16),
        TextModeKind::Mode80x43 => (80, 43, 8, 11),
        TextModeKind::Mode80x50 => (80, 50, 8, 8),
    }
}

impl TextMode {
    /// The geometry of a mode kind
    pub fn new(kind: TextModeKind) -> (m: Self)
        ensures
            m.kind == kind,
            (m.cols, m.rows, m.char_width, m.char_height) == mode_geometry(kind),
    {
        let (cols, rows, char_width, char_height) = match kind {
            TextModeKind::Mode40x25 => (40, 25, 16, 16),
            TextModeKind::Mode80x25 => (80, 25, 8, 16),
            TextModeKind::Mode80x43 => (80, 43, 8, 11),
            TextModeKind::Mode80x50 => (80, 50, 8, 8),
        };
        TextMode { kind, cols, rows, char_width, char_height }
    }

    /// The standard 80x25 mode
    pub fn default_mode() -> (m: Self)
        ensures
            m.kind == TextModeKind::Mode80x25,
            (m.cols, m.rows, m.char_width, m.char_height) == mode_geometry(TextModeKind::Mode80x25),
    {
        TextMode::new(TextModeKind::Mode80x25)
    }

    /// Width in pixels
    pub fn pixel_width(&self) -> (w: usize)
        requires
            self.cols * self.char_width <= usize::MAX,
        ensures
            w == self.cols * self.char_width,
    {
        self.cols * self.char_width
    }

    /// Height in pixels
    pub fn pixel_height(&self) -> (h: usize)
        requires
            self.rows * self.char_height <= usize::MAX,
        ensures
            h == self.rows * self.char_height,
    {
        self.rows * self.char_height
    }

    /// Whether a text position lies on the screen
    pub fn is_valid_position(&self, col: usize, row: usize) -> (b: bool)
        ensures
            b == (col < self.cols && row < self.rows),
    {
        col < self.cols && row < self.rows
    }
}

} // verus!
