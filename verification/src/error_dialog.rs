//! Modal error dialog: a word-wrapped message and an OK button.

use vstd::prelude::*;
use crate::charset::Charset;
use crate::draw::{DrawOp, Paint, ThemeColor, op, hrun, text_run, rect_fill, push_hrun, push_text, push_rect_fill};
use vstd::utf8::encode_utf8;
use crate::text::{chars_of, char_utf8_len, split_words, string_from_chars, utf8_len, utf8_width, words, lemma_utf8_len_push, lemma_utf8_len_concat};

verus! {

/// Lines of a greedy word wrap: from word `i` on, with the line `cur` being
/// filled and the finished `lines`. A word joins the line (after a space)
/// when the line stays within `max` bytes; a word longer than `max` gets a
/// line of its own. An empty text gives one empty line.
pub open spec fn wrap_from(
    ws: Seq<Seq<char>>,
    i: int,
    cur: Seq<char>,
    lines: Seq<Seq<char>>,
    max: int,
) -> Seq<Seq<char>>
    decreases ws.len() - i,
{
    if i < 0 || i >= ws.len() {
        let ls = if cur.len() > 0 {
            lines.push(cur)
        } else {
            lines
        };
        if ls.len() == 0 {
            seq![seq![]]
        } else {
            ls
        }
    } else {
        let w = ws[i];
        if cur.len() == 0 {
            wrap_from(ws, i + 1, w, lines, max)
        } else if utf8_len(cur) + 1 + utf8_len(w) <= max {
            wrap_from(ws, i + 1, cur + seq![' '] + w, lines, max)
        } else {
            wrap_from(ws, i + 1, w, lines.push(cur), max)
        }
    }
}

/// The lines of a text wrapped to `max` bytes
pub open spec fn wrap_spec(text: Seq<char>, max: int) -> Seq<Seq<char>> {
    wrap_from(words(text), 0, seq![], seq![], max)
}

pub open spec fn min_int(a: int, b: int) -> int {
    if a <= b {
        a
    } else {
        b
    }
}

/// UTF-8 length of a character sequence, or `usize::MAX` if it is larger
pub(crate) fn utf8_len_sat(v: &Vec<char>) -> (n: usize)
    ensures
        n == min_int(utf8_len(v@), usize::MAX as int),
{
    let mut n: usize = 0;
    let mut i: usize = 0;
    assert(v@.take(0) =~= Seq::<char>::empty());
    while i < v.len()
        invariant
            i <= v@.len(),
            n == min_int(utf8_len(v@.take(i as int)), usize::MAX as int),
            utf8_len(v@.take(i as int)) >= 0,
        decreases v@.len() - i,
    {
        let w = char_utf8_len(v[i]);
        proof {
            assert(v@.take(i + 1) =~= v@.take(i as int).push(v@[i as int]));
            lemma_utf8_len_push(v@.take(i as int), v@[i as int]);
        }
        if n > usize::MAX - w {
            n = usize::MAX;
        } else {
            n = n + w;
        }
        i = i + 1;
    }
    assert(v@.take(v@.len() as int) =~= v@);
    n
}

/// Wraps text to lines of at most `max_width` bytes (longer words stay whole)
pub fn wrap_text(text: &str, max_width: usize) -> (lines: Vec<String>)
    ensures
        lines@.map_values(|s: String| s@) == wrap_spec(text@, max_width as int),
        lines@.len() >= 1,
{
    let chars = chars_of(text);
    let ws = split_words(&chars);
    let ghost wsv = ws@.map_values(|v: Vec<char>| v@);
    let mut lines: Vec<Vec<char>> = Vec::new();
    let mut cur: Vec<char> = Vec::new();
    let mut cur_len: usize = 0;
    let mut i: usize = 0;
    assert(lines@.map_values(|v: Vec<char>| v@) =~= Seq::<Seq<char>>::empty());
    assert(cur@ =~= Seq::<char>::empty());
    while i < ws.len()
        invariant
            wsv == ws@.map_values(|v: Vec<char>| v@),
            wsv == words(text@),
            i <= ws@.len(),
            cur_len == min_int(utf8_len(cur@), usize::MAX as int),
            wrap_spec(text@, max_width as int) == wrap_from(
                wsv,
                i as int,
                cur@,
                lines@.map_values(|v: Vec<char>| v@),
                max_width as int,
            ),
        decreases ws@.len() - i,
    {
        let wlen = utf8_len_sat(&ws[i]);
        let ghost w = wsv[i as int];
        assert(ws@[i as int]@ == w);
        if cur.len() == 0 {
            cur = ws[i].clone();
            cur_len = wlen;
        } else if cur_len < max_width && wlen <= max_width - cur_len - 1 {
            let ghost before = cur@;
            cur.push(' ');
            let word = &ws[i];
            let mut k: usize = 0;
            let ghost mid = cur@;
            while k < word.len()
                invariant
                    k <= word@.len(),
                    word@ == w,
                    cur@ == mid + w.take(k as int),
                decreases word@.len() - k,
            {
                cur.push(word[k]);
                assert(w.take(k + 1) =~= w.take(k as int).push(w[k as int]));
                k = k + 1;
            }
            assert(w.take(w.len() as int) =~= w);
            proof {
                lemma_utf8_len_push(before, ' ');
                lemma_utf8_len_concat(before.push(' '), w);
                assert(before + seq![' '] =~= before.push(' '));
            }
            cur_len = cur_len + 1 + wlen;
        } else {
            let ghost before = lines@.map_values(|v: Vec<char>| v@);
            let done = cur;
            cur = ws[i].clone();
            cur_len = wlen;
            lines.push(done);
            assert(lines@.map_values(|v: Vec<char>| v@) =~= before.push(done@));
        }
        i = i + 1;
    }
    if cur.len() > 0 {
        let ghost before = lines@.map_values(|v: Vec<char>| v@);
        lines.push(cur);
        assert(lines@.map_values(|v: Vec<char>| v@) =~= before.push(lines@.last()@));
    }
    if lines.len() == 0 {
        lines.push(Vec::new());
        assert(lines@.map_values(|v: Vec<char>| v@) =~= seq![Seq::<char>::empty()]);
    }
    let mut out: Vec<String> = Vec::new();
    let mut j: usize = 0;
    while j < lines.len()
        invariant
            j <= lines@.len(),
            out@.map_values(|s: String| s@) == lines@.map_values(|v: Vec<char>| v@).take(j as int),
        decreases lines@.len() - j,
    {
        let ghost before = out@.map_values(|s: String| s@);
        out.push(string_from_chars(&lines[j]));
        assert(out@.map_values(|s: String| s@) =~= before.push(lines@[j as int]@));
        assert(lines@.map_values(|v: Vec<char>| v@).take(j + 1) =~= lines@.map_values(
            |v: Vec<char>| v@,
        ).take(j as int).push(lines@[j as int]@));
        j = j + 1;
    }
    assert(lines@.map_values(|v: Vec<char>| v@).take(lines@.len() as int) =~= lines@.map_values(
        |v: Vec<char>| v@,
    ));
    out
}


/// Widest message line of the dialog, in bytes
pub const MAX_MESSAGE_WIDTH: u16 = 60;

/// Width of the " [ OK ] " button
pub const OK_BUTTON_WIDTH: u16 = 8;

/// A centred, modal error message with a single OK button.
pub struct ErrorDialog {
    pub error_message: String,
    pub width: u16,
    pub height: u16,
    pub x: u16,
    pub y: u16,
    pub button_x: u16,
    pub button_y: u16,
    pub button_width: u16,
}

/// `a - b`, or 0 where `b` is larger
pub open spec fn sat_sub(a: int, b: int) -> int {
    if a >= b {
        a - b
    } else {
        0
    }
}

/// The geometry a dialog for `msg` takes on a screen of the given size
pub open spec fn dialog_layout(buffer_width: int, buffer_height: int, msg: Seq<char>) -> (
    int,
    int,
    int,
    int,
    int,
    int,
) {
    let width = min_int(MAX_MESSAGE_WIDTH + 4, sat_sub(buffer_width, 4));
    let height = 7 + wrap_spec(msg, MAX_MESSAGE_WIDTH as int).len() as int;
    let x = sat_sub(buffer_width, width) / 2;
    let y = sat_sub(buffer_height, height) / 2;
    (width, height, x, y, x + (width - OK_BUTTON_WIDTH) / 2, y + height - 3)
}

impl ErrorDialog {
    /// Lays a dialog for `error_message` out, centred on a screen of
    /// `buffer_width` by `buffer_height` cells.
    pub fn new(buffer_width: u16, buffer_height: u16, error_message: String) -> (d: Self)
        requires
            buffer_width >= 12,
            wrap_spec(error_message@, MAX_MESSAGE_WIDTH as int).len() + 7 <= u16::MAX,
        ensures
            d.error_message@ == error_message@,
            (d.width as int, d.height as int, d.x as int, d.y as int, d.button_x as int, d.button_y as int)
                == dialog_layout(buffer_width as int, buffer_height as int, error_message@),
            d.button_width == OK_BUTTON_WIDTH,
            buffer_width >= MAX_MESSAGE_WIDTH + 8 ==> shown_lines(d) == wrap_spec(error_message@, MAX_MESSAGE_WIDTH as int).len(),
    {
        let message_lines = wrap_text(error_message.as_str(), MAX_MESSAGE_WIDTH as usize);
        proof {
            assert(message_lines@.map_values(|s: String| s@).len() == message_lines@.len());
        }
        let message_height = message_lines.len() as u16;
        let bw4 = buffer_width.saturating_sub(4);
        let width = if MAX_MESSAGE_WIDTH + 4 <= bw4 {
            MAX_MESSAGE_WIDTH + 4
        } else {
            bw4
        };
        let height = 7 + message_height;
        let x = buffer_width.saturating_sub(width) / 2;
        let y = buffer_height.saturating_sub(height) / 2;
        let button_width = OK_BUTTON_WIDTH;
        let button_x = x + (width - button_width) / 2;
        let button_y = y + height - 3;
        ErrorDialog { error_message, width, height, x, y, button_x, button_y, button_width }
    }

    /// Whether a click at the given cell lands on the OK button
    pub fn is_ok_button_clicked(&self, mouse_x: u16, mouse_y: u16) -> (r: bool)
        requires
            self.button_x + self.button_width <= u16::MAX,
        ensures
            r == (mouse_y == self.button_y && self.button_x <= mouse_x < self.button_x
                + self.button_width),
    {
        mouse_y == self.button_y && mouse_x >= self.button_x && mouse_x < self.button_x
            + self.button_width
    }
}


/// Byte length of a line, as `str::len` reports it, kept to 16 bits
pub open spec fn line_bytes16(line: Seq<char>) -> int {
    ((encode_utf8(line).len() as usize) as u16) as int
}

/// First column of a message line centred in the content area
pub open spec fn line_start(x: int, cw: int, line: Seq<char>) -> int {
    x + 2 + sat_sub(cw, line_bytes16(line)) / 2
}

/// The characters of a line that fit the content width
pub open spec fn clipped(line: Seq<char>, cw: int) -> Seq<char> {
    if line.len() <= cw {
        line
    } else {
        line.take(cw)
    }
}

/// Message lines `0..k`, centred, one per row from `y0`
pub open spec fn message_ops(lines: Seq<Seq<char>>, x: int, y0: int, cw: int, k: int, fg: Paint, bg: Paint) -> Seq<DrawOp>
    decreases k,
{
    if k <= 0 {
        Seq::empty()
    } else {
        message_ops(lines, x, y0, cw, k - 1, fg, bg) + text_run(
            line_start(x, cw, lines[k - 1]),
            y0 + k - 1,
            clipped(lines[k - 1], cw),
            fg,
            bg,
        )
    }
}

/// The side borders of rows `1..=k`
pub open spec fn side_ops(x: int, y: int, w: int, k: int, v: char, fg: Paint, bg: Paint) -> Seq<DrawOp>
    decreases k,
{
    if k <= 0 {
        Seq::empty()
    } else {
        side_ops(x, y, w, k - 1, v, fg, bg) + seq![op(x, y + k, v, fg, bg), op(x + w - 1, y + k, v, fg, bg)]
    }
}

/// A shadow cell, written only where it lies on the screen
pub open spec fn shadow_cell(px: int, py: int, bw: int, bh: int, ch: char) -> Seq<DrawOp> {
    if px < bw && py < bh {
        seq![op(px, py, ch, Paint::Keep, Paint::Role(ThemeColor::WindowShadowColor))]
    } else {
        Seq::empty()
    }
}

/// The two shadow columns right of the dialog, rows `1..=k`
pub open spec fn shadow_right(x: int, y: int, w: int, k: int, bw: int, bh: int, ch: char) -> Seq<DrawOp>
    decreases k,
{
    if k <= 0 {
        Seq::empty()
    } else {
        shadow_right(x, y, w, k - 1, bw, bh, ch) + shadow_cell(x + w, y + k, bw, bh, ch) + shadow_cell(
            x + w + 1,
            y + k,
            bw,
            bh,
            ch,
        )
    }
}

/// The shadow row below the dialog, columns `2..2 + k`
pub open spec fn shadow_bottom(x: int, y: int, k: int, bw: int, bh: int, ch: char) -> Seq<DrawOp>
    decreases k,
{
    if k <= 0 {
        Seq::empty()
    } else {
        shadow_bottom(x, y, k - 1, bw, bh, ch) + shadow_cell(x + 2 + k - 1, y, bw, bh, ch)
    }
}

/// The message wrapped to the dialog's content width
pub open spec fn dialog_lines(d: ErrorDialog) -> Seq<Seq<char>> {
    wrap_spec(d.error_message@, sat_sub(d.width as int, 4))
}

/// How many message lines the dialog shows: those of the message wrapped
/// to the content width, as far as the rows between the title padding and
/// the button padding reach
pub open spec fn shown_lines(d: ErrorDialog) -> int {
    min_int(dialog_lines(d).len() as int, sat_sub(d.height as int, 7))
}

/// Every cell of `ops` lies on a row in `lo..=hi`
pub open spec fn rows_within(ops: Seq<DrawOp>, lo: int, hi: int) -> bool {
    forall|i: int| 0 <= i < ops.len() ==> lo <= #[trigger] ops[i].y <= hi
}

/// The message part of the dialog's drawing
pub open spec fn dialog_message_ops(d: ErrorDialog) -> Seq<DrawOp> {
    let cw = sat_sub(d.width as int, 4);
    message_ops(
        dialog_lines(d),
        d.x as int,
        d.y + 3,
        cw,
        shown_lines(d),
        Paint::Role(ThemeColor::PromptDangerFg),
        Paint::Role(ThemeColor::PromptDangerBg),
    )
}

/// The first `k` message lines lie on rows `y0..y0 + k`
pub proof fn lemma_message_rows(lines: Seq<Seq<char>>, x: int, y0: int, cw: int, k: int, fg: Paint, bg: Paint)
    requires
        k >= 1,
        0 <= y0,
        y0 + k - 1 <= u16::MAX,
    ensures
        rows_within(message_ops(lines, x, y0, cw, k, fg, bg), y0, y0 + k - 1),
    decreases k,
{
    let ops = message_ops(lines, x, y0, cw, k, fg, bg);
    let prev = message_ops(lines, x, y0, cw, k - 1, fg, bg);
    if k > 1 {
        lemma_message_rows(lines, x, y0, cw, k - 1, fg, bg);
    }
    assert forall|i: int| 0 <= i < ops.len() implies y0 <= #[trigger] ops[i].y <= y0 + k - 1 by {
        if i < prev.len() {
            assert(ops[i] == prev[i]);
        } else {
            let line = lines[k - 1];
            let run = text_run(line_start(x, cw, line), y0 + k - 1, clipped(line, cw), fg, bg);
            assert(ops == prev + run);
            assert(ops[i] == run[i - prev.len()]);
        }
    }
}

/// Where the title of the dialog starts
pub open spec fn title_start(d: ErrorDialog) -> int {
    d.x + 2 + sat_sub(sat_sub(d.width as int, 4), 5) / 2
}

/// The cells of an error dialog, in drawing order: background, frame,
/// title, message, button, and the shadow where it lies on a screen of
/// `bw` by `bh` cells
pub open spec fn error_dialog_ops(d: ErrorDialog, cs: Charset, bw: int, bh: int) -> Seq<DrawOp> {
    let fg = Paint::Role(ThemeColor::PromptDangerFg);
    let bg = Paint::Role(ThemeColor::PromptDangerBg);
    let (x, y, w, h) = (d.x as int, d.y as int, d.width as int, d.height as int);
    dialog_frame_ops(d, cs) + text_run(title_start(d), y + 1, "Error"@, fg, bg) + dialog_message_ops(d) + text_run(
        d.button_x as int,
        d.button_y as int,
        " [ OK ] "@,
        Paint::Role(ThemeColor::DialogButtonPrimaryDangerFg),
        Paint::Role(ThemeColor::DialogButtonPrimaryDangerBg),
    ) + shadow_right(x, y, w, h, bw, bh, cs.shadow) + shadow_bottom(x, y + h, w, bw, bh, cs.shadow)
}

/// Background and frame of an error dialog
pub open spec fn dialog_frame_ops(d: ErrorDialog, cs: Charset) -> Seq<DrawOp> {
    let fg = Paint::Role(ThemeColor::PromptDangerFg);
    let bg = Paint::Role(ThemeColor::PromptDangerBg);
    let (x, y, w, h) = (d.x as int, d.y as int, d.width as int, d.height as int);
    rect_fill(x, y, w, h, ' ', fg, bg) + seq![op(x, y, cs.border_top_left, fg, bg)] + hrun(x + 1, y, w - 2, cs.border_horizontal, fg, bg)
        + seq![op(x + w - 1, y, cs.border_top_right, fg, bg)] + side_ops(x, y, w, h - 2, cs.border_vertical, fg, bg)
        + seq![op(x, y + h - 1, cs.border_bottom_left, fg, bg)] + hrun(x + 1, y + h - 1, w - 2, cs.border_horizontal, fg, bg)
        + seq![op(x + w - 1, y + h - 1, cs.border_bottom_right, fg, bg)]
}

/// Every cell the dialog draws lies within 16-bit coordinates
pub open spec fn render_fits(d: ErrorDialog) -> bool {
    let cw = sat_sub(d.width as int, 4);
    let lines = dialog_lines(d);
    &&& d.width >= 1
    &&& d.height >= 1
    &&& d.x + d.width + 1 <= u16::MAX
    &&& d.y + d.height <= u16::MAX
    &&& title_start(d) + 4 <= u16::MAX
    &&& forall|i: int|
        0 <= i < shown_lines(d) ==> line_start(d.x as int, cw, #[trigger] lines[i]) + clipped(
            lines[i],
            cw,
        ).len() <= u16::MAX + 1
    &&& d.button_x + 7 <= u16::MAX
}

/// Appends a shadow cell where it lies on the screen
fn push_shadow_cell(ops: &mut Vec<DrawOp>, px: u16, py: u16, bw: u16, bh: u16, ch: char)
    ensures
        final(ops)@ == old(ops)@ + shadow_cell(px as int, py as int, bw as int, bh as int, ch),
{
    if px < bw && py < bh {
        ops.push(DrawOp { x: px, y: py, ch, fg: Paint::Keep, bg: Paint::Role(ThemeColor::WindowShadowColor), raw: false });
        assert(old(ops)@ + shadow_cell(px as int, py as int, bw as int, bh as int, ch) =~= old(ops)@.push(op(px as int, py as int, ch, Paint::Keep, Paint::Role(ThemeColor::WindowShadowColor))));
    } else {
        assert(old(ops)@ + shadow_cell(px as int, py as int, bw as int, bh as int, ch) =~= old(ops)@);
    }
}

impl ErrorDialog {
    /// Background and frame of the dialog
    fn render_frame(&self, charset: &Charset) -> (ops: Vec<DrawOp>)
        requires
            render_fits(*self),
        ensures
            ops@ == dialog_frame_ops(*self, *charset),
    {
        let fg = Paint::Role(ThemeColor::PromptDangerFg);
        let bg = Paint::Role(ThemeColor::PromptDangerBg);
        let mut ops: Vec<DrawOp> = Vec::new();
        push_rect_fill(&mut ops, self.x, self.y, self.width, self.height, ' ', fg, bg);
        ops.push(DrawOp { x: self.x, y: self.y, ch: charset.border_top_left, fg, bg, raw: false });
        push_hrun(&mut ops, self.x + 1, self.y, if self.width >= 2 { self.width - 2 } else { 0 }, charset.border_horizontal, fg, bg);
        ops.push(DrawOp { x: self.x + self.width - 1, y: self.y, ch: charset.border_top_right, fg, bg, raw: false });
        let ghost before_sides = ops@;
        let mut row: u16 = 1;
        while row < self.height - 1
            invariant
                render_fits(*self),
                1 <= row,
                self.height >= 2 ==> row <= self.height - 1,
                self.height < 2 ==> row == 1,
                ops@ == before_sides + side_ops(
                    self.x as int,
                    self.y as int,
                    self.width as int,
                    row - 1,
                    charset.border_vertical,
                    fg,
                    bg,
                ),
            decreases self.height - row,
        {
            ops.push(DrawOp { x: self.x, y: self.y + row, ch: charset.border_vertical, fg, bg, raw: false });
            ops.push(
                DrawOp {
                    x: self.x + self.width - 1,
                    y: self.y + row,
                    ch: charset.border_vertical,
                    fg,
                    bg, raw: false },
            );
            row = row + 1;
        }
        ops.push(DrawOp { x: self.x, y: self.y + self.height - 1, ch: charset.border_bottom_left, fg, bg, raw: false });
        push_hrun(&mut ops, self.x + 1, self.y + self.height - 1, if self.width >= 2 { self.width - 2 } else { 0 }, charset.border_horizontal, fg, bg);
        ops.push(
            DrawOp {
                x: self.x + self.width - 1,
                y: self.y + self.height - 1,
                ch: charset.border_bottom_right,
                fg,
                bg, raw: false },
        );
        assert(ops@ =~= dialog_frame_ops(*self, *charset));
        ops
    }

    /// The message wrapped to the content width, centred, on the rows
    /// between the title and the button, each line cut to the content width
    fn render_message(&self) -> (ops: Vec<DrawOp>)
        requires
            render_fits(*self),
        ensures
            ops@ == dialog_message_ops(*self),
    {
        let fg = Paint::Role(ThemeColor::PromptDangerFg);
        let bg = Paint::Role(ThemeColor::PromptDangerBg);
        let content_width = self.width.saturating_sub(4);
        let mut ops: Vec<DrawOp> = Vec::new();
        let message_lines = wrap_text(self.error_message.as_str(), content_width as usize);
        let ghost lines = dialog_lines(*self);
        proof {
            assert(message_lines@.map_values(|s: String| s@).len() == message_lines@.len());
        }
        let room = self.height.saturating_sub(7) as usize;
        let shown = if message_lines.len() <= room { message_lines.len() } else { room };
        assert(shown == shown_lines(*self));
        let ghost before_msg = ops@;
        assert(before_msg =~= Seq::<DrawOp>::empty());
        let mut line_idx: usize = 0;
        while line_idx < shown
            invariant
                render_fits(*self),
                content_width == sat_sub(self.width as int, 4),
                lines == dialog_lines(*self),
                message_lines@.map_values(|s: String| s@) == lines,
                shown == shown_lines(*self),
                shown <= message_lines@.len(),
                line_idx <= shown,
                ops@ == before_msg + message_ops(
                    lines,
                    self.x as int,
                    self.y + 3,
                    content_width as int,
                    line_idx as int,
                    fg,
                    bg,
                ),
            decreases shown - line_idx,
        {
            assert(message_lines@.map_values(|s: String| s@)[line_idx as int] == message_lines@[line_idx as int]@);
            let line = message_lines[line_idx].as_str();
            let line_y = self.y + 3 + line_idx as u16;
            #[verifier::truncate]
            let line_len16 = line.len() as u16;
            let start = self.x + 2 + content_width.saturating_sub(line_len16) / 2;
            let chars = chars_of(line);
            let mut shown: Vec<char> = Vec::new();
            let mut i: usize = 0;
            while i < chars.len()
                invariant
                    i <= chars@.len(),
                    shown@ == chars@.take(if i <= content_width { i as int } else { content_width as int }),
                decreases chars@.len() - i,
            {
                if i < content_width as usize {
                    shown.push(chars[i]);
                    assert(chars@.take(i + 1) =~= chars@.take(i as int).push(chars@[i as int]));
                }
                i = i + 1;
            }
            assert(shown@ =~= clipped(chars@, content_width as int)) by {
                if chars@.len() <= content_width {
                    assert(chars@.take(chars@.len() as int) =~= chars@);
                }
            }
            assert(lines[line_idx as int] == chars@);
            push_text(&mut ops, start, line_y, &shown, fg, bg);
            line_idx = line_idx + 1;
        }
        assert(ops@ =~= message_ops(lines, self.x as int, self.y + 3, content_width as int, shown as int, fg, bg));
        ops
    }

    /// Whether every cell the dialog draws lies within 16-bit coordinates,
    /// as `render` needs
    pub fn fits_for_render(&self) -> (b: bool)
        ensures
            b == render_fits(*self),
    {
        if self.width < 1 || self.height < 1 {
            return false;
        }
        if self.x as u32 + self.width as u32 + 1 > 65535 || self.y as u32 + self.height as u32 > 65535 {
            return false;
        }
        let content_width = self.width.saturating_sub(4);
        if self.x as u32 + 2 + (content_width.saturating_sub(5) / 2) as u32 + 4 > 65535 {
            return false;
        }
        if self.button_x as u32 + 7 > 65535 {
            return false;
        }
        let message_lines = wrap_text(self.error_message.as_str(), content_width as usize);
        let ghost lines = dialog_lines(*self);
        proof {
            assert(message_lines@.map_values(|s: String| s@).len() == message_lines@.len());
        }
        let room = self.height.saturating_sub(7) as usize;
        let shown = if message_lines.len() <= room { message_lines.len() } else { room };
        assert(shown == shown_lines(*self));
        let mut i: usize = 0;
        while i < shown
            invariant
                content_width == sat_sub(self.width as int, 4),
                lines == dialog_lines(*self),
                message_lines@.map_values(|s: String| s@) == lines,
                shown == shown_lines(*self),
                shown <= message_lines@.len(),
                i <= shown,
                forall|k: int| 0 <= k < i ==> line_start(self.x as int, content_width as int, #[trigger] lines[k])
                    + clipped(lines[k], content_width as int).len() <= u16::MAX + 1,
            decreases shown - i,
        {
            assert(message_lines@.map_values(|s: String| s@)[i as int] == message_lines@[i as int]@);
            let line = message_lines[i].as_str();
            #[verifier::truncate]
            let line_len16 = line.len() as u16;
            let start = self.x as u32 + 2 + (content_width.saturating_sub(line_len16) / 2) as u32;
            let n = chars_of(line).len();
            let clip: u32 = if n <= content_width as usize { n as u32 } else { content_width as u32 };
            assert(lines[i as int] == line@);
            if start + clip > 65536 {
                return false;
            }
            i = i + 1;
        }
        true
    }

    /// The cells the dialog draws on a screen of `buffer_width` by
    /// `buffer_height` cells, in drawing order
    pub fn render(&self, buffer_width: u16, buffer_height: u16, charset: &Charset) -> (ops: Vec<DrawOp>)
        requires
            render_fits(*self),
        ensures
            ops@ == error_dialog_ops(*self, *charset, buffer_width as int, buffer_height as int),
            shown_lines(*self) > 0 ==> rows_within(dialog_message_ops(*self), self.y + 3, self.y + self.height - 5),
    {
        proof {
            if shown_lines(*self) > 0 {
                lemma_message_rows(
                    dialog_lines(*self),
                    self.x as int,
                    self.y + 3,
                    sat_sub(self.width as int, 4),
                    shown_lines(*self),
                    Paint::Role(ThemeColor::PromptDangerFg),
                    Paint::Role(ThemeColor::PromptDangerBg),
                );
            }
        }
        let fg = Paint::Role(ThemeColor::PromptDangerFg);
        let bg = Paint::Role(ThemeColor::PromptDangerBg);
        let content_width = self.width.saturating_sub(4);
        let mut ops = self.render_frame(charset);
        let title = chars_of("Error");
        proof {
            reveal_strlit("Error");
        }
        let title_x = self.x + 2 + content_width.saturating_sub(5) / 2;
        push_text(&mut ops, title_x, self.y + 1, &title, fg, bg);
        let mut message = self.render_message();
        ops.append(&mut message);
        let button = chars_of(" [ OK ] ");
        proof {
            reveal_strlit(" [ OK ] ");
        }
        push_text(
            &mut ops,
            self.button_x,
            self.button_y,
            &button,
            Paint::Role(ThemeColor::DialogButtonPrimaryDangerFg),
            Paint::Role(ThemeColor::DialogButtonPrimaryDangerBg),
        );
        self.draw_shadow(&mut ops, buffer_width, buffer_height, charset);
        ops
    }

    /// Appends the shadow: two columns right of the dialog and a row below
    /// it, where they lie on the screen
    fn draw_shadow(&self, ops: &mut Vec<DrawOp>, buffer_width: u16, buffer_height: u16, charset: &Charset)
        requires
            render_fits(*self),
        ensures
            final(ops)@ == old(ops)@ + shadow_right(
                self.x as int,
                self.y as int,
                self.width as int,
                self.height as int,
                buffer_width as int,
                buffer_height as int,
                charset.shadow,
            ) + shadow_bottom(
                self.x as int,
                self.y + self.height,
                self.width as int,
                buffer_width as int,
                buffer_height as int,
                charset.shadow,
            ),
    {
        let ch = charset.shadow;
        let ghost start = ops@;
        let ghost bw = buffer_width as int;
        let ghost bh = buffer_height as int;
        let mut row: u32 = 1;
        while row <= self.height as u32
            invariant
                render_fits(*self),
                bw == buffer_width as int,
                bh == buffer_height as int,
                1 <= row <= self.height + 1,
                ops@ == start + shadow_right(self.x as int, self.y as int, self.width as int, row - 1, bw, bh, ch),
            decreases self.height + 1 - row,
        {
            let py = self.y + row as u16;
            let px0 = self.x + self.width;
            push_shadow_cell(ops, px0, py, buffer_width, buffer_height, ch);
            let px1 = self.x + self.width + 1;
            push_shadow_cell(ops, px1, py, buffer_width, buffer_height, ch);
            assert(py as int == self.y + row);
            assert(px0 as int == self.x + self.width);
            assert(px1 as int == self.x + self.width + 1);
            assert(shadow_right(self.x as int, self.y as int, self.width as int, row as int, bw, bh, ch)
                == shadow_right(self.x as int, self.y as int, self.width as int, row - 1, bw, bh, ch)
                + shadow_cell(self.x + self.width, self.y + row, bw, bh, ch)
                + shadow_cell(self.x + self.width + 1, self.y + row, bw, bh, ch));
            assert(ops@ =~= start + shadow_right(self.x as int, self.y as int, self.width as int, row as int, bw, bh, ch));
            row = row + 1;
        }
        let ghost mid = ops@;
        let mut col: u32 = 2;
        while col <= self.width as u32 + 1
            invariant
                render_fits(*self),
                bw == buffer_width as int,
                bh == buffer_height as int,
                2 <= col <= self.width + 2,
                ops@ == mid + shadow_bottom(self.x as int, self.y + self.height, col - 2, bw, bh, ch),
            decreases self.width + 2 - col,
        {
            let px = self.x + col as u16;
            let py = self.y + self.height;
            push_shadow_cell(ops, px, py, buffer_width, buffer_height, ch);
            assert(px as int == self.x + col);
            assert(py as int == self.y + self.height);
            assert(shadow_bottom(self.x as int, self.y + self.height, col - 1, bw, bh, ch)
                == shadow_bottom(self.x as int, self.y + self.height, col - 2, bw, bh, ch)
                + shadow_cell(self.x + 2 + (col - 1) - 1, self.y + self.height, bw, bh, ch));
            assert(ops@ =~= mid + shadow_bottom(self.x as int, self.y + self.height, col - 1, bw, bh, ch));
            col = col + 1;
        }
    }
}

} // verus!
