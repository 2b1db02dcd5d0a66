//! Pixel output to a linear framebuffer: scaled, centred text-mode cells,
//! packed in the screen's pixel format, and a mouse cursor sprite drawn
//! over them and taken away again.

use vstd::prelude::*;
use crate::color::{dos_color_to_rgb, spec_dos_color_to_rgb, UiColor};
use crate::font::{FontManager, font_wf, glyph_index, pixel_set, bytes_for_bits};
use crate::text_modes::TextMode;

verus! {

/// How logical pixels map onto the framebuffer's bytes
#[derive(Clone, Copy, Debug, PartialEq, Eq, Structural)]
pub struct FbGeometry {
    /// Visible screen size in physical pixels
    pub width_pixels: usize,
    pub height_pixels: usize,
    /// Bytes per physical pixel (2: RGB565, 3 or 4: one byte per channel)
    pub bytes_per_pixel: usize,
    /// Bytes per screen line
    pub line_length: usize,
    /// Physical pixels per logical pixel, in each direction
    pub scale: usize,
    /// Top-left corner of the content, in physical pixels
    pub offset_x: usize,
    pub offset_y: usize,
    /// Byte of each channel within a pixel
    pub r_offset: usize,
    pub g_offset: usize,
    pub b_offset: usize,
}

/// The geometry keeps every address it forms within `usize`, and the color
/// channels in the first three bytes of a pixel (the fourth, where there is
/// one, is alpha)
pub open spec fn geometry_wf(g: FbGeometry) -> bool {
    &&& g.height_pixels * g.line_length + g.width_pixels * g.bytes_per_pixel + 4 <= usize::MAX
    &&& g.width_pixels + g.scale <= usize::MAX
    &&& g.height_pixels + g.scale <= usize::MAX
    &&& (g.bytes_per_pixel == 3 || g.bytes_per_pixel == 4) ==> {
        &&& g.r_offset < 3
        &&& g.g_offset < 3
        &&& g.b_offset < 3
    }
}

/// A color packed as RGB565
pub open spec fn rgb565(r: u8, g: u8, b: u8) -> u16 {
    (((r >> 3u8) as u16) << 11u16) | (((g >> 2u8) as u16) << 5u16) | ((b >> 3u8) as u16)
}

/// The frame after one physical pixel at (`ax`, `ay`) is set; a pixel
/// whose bytes would pass the end of the frame is skipped
pub open spec fn phys_write(f: Seq<u8>, g: FbGeometry, ax: int, ay: int, r: u8, gc: u8, b: u8) -> Seq<
    u8,
> {
    let off = ay * g.line_length + ax * g.bytes_per_pixel;
    if g.bytes_per_pixel == 4 && off + 3 < f.len() {
        f.update(off + g.r_offset, r).update(off + g.g_offset, gc).update(off + g.b_offset, b).update(
            off + 3,
            255u8,
        )
    } else if g.bytes_per_pixel == 3 && off + 2 < f.len() {
        f.update(off + g.r_offset, r).update(off + g.g_offset, gc).update(off + g.b_offset, b)
    } else if g.bytes_per_pixel == 2 && off + 1 < f.len() {
        let c = rgb565(r, gc, b);
        f.update(off, (c & 0xFFu16) as u8).update(off + 1, (c >> 8u16) as u8)
    } else {
        f
    }
}

/// Physical pixels `sx`.. of one row of a scaled block, up to the block's
/// width or the screen's right edge
pub open spec fn block_row(
    f: Seq<u8>,
    g: FbGeometry,
    bx: int,
    ay: int,
    sx: int,
    r: u8,
    gc: u8,
    b: u8,
) -> Seq<u8>
    decreases g.scale - sx,
{
    if sx < 0 || sx >= g.scale || bx + sx >= g.width_pixels {
        f
    } else {
        block_row(phys_write(f, g, bx + sx, ay, r, gc, b), g, bx, ay, sx + 1, r, gc, b)
    }
}

/// Rows `sy`.. of a scaled block, up to the block's height or the screen's
/// bottom edge
pub open spec fn block_rows(
    f: Seq<u8>,
    g: FbGeometry,
    bx: int,
    by: int,
    sy: int,
    r: u8,
    gc: u8,
    b: u8,
) -> Seq<u8>
    decreases g.scale - sy,
{
    if sy < 0 || sy >= g.scale || by + sy >= g.height_pixels {
        f
    } else {
        block_rows(block_row(f, g, bx, by + sy, 0, r, gc, b), g, bx, by, sy + 1, r, gc, b)
    }
}

/// The frame after logical pixel (`x`, `y`) of the content is set: its
/// scale-by-scale block, clipped to the screen
pub open spec fn put_spec(f: Seq<u8>, g: FbGeometry, x: int, y: int, r: u8, gc: u8, b: u8) -> Seq<u8> {
    let bx = x * g.scale + g.offset_x;
    let by = y * g.scale + g.offset_y;
    if bx >= g.width_pixels || by >= g.height_pixels {
        f
    } else {
        block_rows(f, g, bx, by, 0, r, gc, b)
    }
}

/// An RGB565 channel of `bits` bits widened to 8 bits
pub open spec fn widen5(v: u8) -> u8 {
    ((v << 3u8) | (v >> 2u8)) as u8
}

pub open spec fn widen6(v: u8) -> u8 {
    ((v << 2u8) | (v >> 4u8)) as u8
}

/// The color of logical pixel (`x`, `y`): that of the top-left physical
/// pixel of its block, black outside the screen or the frame
pub open spec fn get_spec(f: Seq<u8>, g: FbGeometry, x: int, y: int) -> (u8, u8, u8) {
    let ax = x * g.scale + g.offset_x;
    let ay = y * g.scale + g.offset_y;
    let off = ay * g.line_length + ax * g.bytes_per_pixel;
    if ax >= g.width_pixels || ay >= g.height_pixels {
        (0, 0, 0)
    } else if g.bytes_per_pixel == 4 || g.bytes_per_pixel == 3 {
        if off + 2 < f.len() {
            (f[off + g.r_offset], f[off + g.g_offset], f[off + g.b_offset])
        } else {
            (0, 0, 0)
        }
    } else if g.bytes_per_pixel == 2 {
        if off + 1 < f.len() {
            let c = (f[off] as u16) | ((f[off + 1] as u16) << 8u16);
            (
                widen5(((c >> 11u16) & 0x1Fu16) as u8),
                widen6(((c >> 5u16) & 0x3Fu16) as u8),
                widen5((c & 0x1Fu16) as u8),
            )
        } else {
            (0, 0, 0)
        }
    } else {
        (0, 0, 0)
    }
}

/// Sets one physical pixel
fn write_phys(frame: &mut Vec<u8>, g: FbGeometry, ax: usize, ay: usize, r: u8, gc: u8, b: u8)
    requires
        geometry_wf(g),
        ax < g.width_pixels,
        ay < g.height_pixels,
    ensures
        final(frame)@ == phys_write(old(frame)@, g, ax as int, ay as int, r, gc, b),
{
    proof {
        vstd::arithmetic::mul::lemma_mul_inequality(ay as int, g.height_pixels as int, g.line_length as int);
        vstd::arithmetic::mul::lemma_mul_inequality(ax as int, g.width_pixels as int, g.bytes_per_pixel as int);
        vstd::arithmetic::mul::lemma_mul_is_commutative(ay as int, g.line_length as int);
        vstd::arithmetic::mul::lemma_mul_is_commutative(g.height_pixels as int, g.line_length as int);
    }
    let offset = ay * g.line_length + ax * g.bytes_per_pixel;
    let len = frame.len();
    if g.bytes_per_pixel == 4 && offset + 3 < len {
        frame.set(offset + g.r_offset, r);
        frame.set(offset + g.g_offset, gc);
        frame.set(offset + g.b_offset, b);
        frame.set(offset + 3, 255);
    } else if g.bytes_per_pixel == 3 && offset + 2 < len {
        frame.set(offset + g.r_offset, r);
        frame.set(offset + g.g_offset, gc);
        frame.set(offset + g.b_offset, b);
    } else if g.bytes_per_pixel == 2 && offset + 1 < len {
        let r5 = (r >> 3u8) as u16;
        let g6 = (gc >> 2u8) as u16;
        let b5 = (b >> 3u8) as u16;
        let color = (r5 << 11u16) | (g6 << 5u16) | b5;
        frame.set(offset, (color & 0xFFu16) as u8);
        frame.set(offset + 1, (color >> 8u16) as u8);
    }
}

/// Sets logical pixel (`x`, `y`) of the content: a scale-by-scale block of
/// physical pixels, clipped to the screen
pub fn put_pixel(frame: &mut Vec<u8>, g: FbGeometry, x: usize, y: usize, r: u8, gc: u8, b: u8)
    requires
        geometry_wf(g),
        x * g.scale + g.offset_x <= usize::MAX,
        y * g.scale + g.offset_y <= usize::MAX,
    ensures
        final(frame)@ == put_spec(old(frame)@, g, x as int, y as int, r, gc, b),
{
    proof {
        vstd::arithmetic::mul::lemma_mul_is_commutative(x as int, g.scale as int);
    }
    let base_x = x * g.scale + g.offset_x;
    let base_y = y * g.scale + g.offset_y;
    if base_x >= g.width_pixels || base_y >= g.height_pixels {
        return;
    }
    if g.scale == 1 {
        proof {
            reveal_with_fuel(block_rows, 2);
            reveal_with_fuel(block_row, 2);
        }
        write_phys(frame, g, base_x, base_y, r, gc, b);
        return;
    }
    let ghost f0 = frame@;
    let mut sy: usize = 0;
    while sy < g.scale && base_y + sy < g.height_pixels
        invariant
            geometry_wf(g),
            base_x < g.width_pixels,
            base_y < g.height_pixels,
            sy <= g.scale,
            block_rows(frame@, g, base_x as int, base_y as int, sy as int, r, gc, b) == block_rows(
                f0,
                g,
                base_x as int,
                base_y as int,
                0,
                r,
                gc,
                b,
            ),
        decreases g.scale - sy,
    {
        let actual_y = base_y + sy;
        let ghost row_start = frame@;
        let mut sx: usize = 0;
        while sx < g.scale && base_x + sx < g.width_pixels
            invariant
                geometry_wf(g),
                base_x < g.width_pixels,
                actual_y < g.height_pixels,
                sx <= g.scale,
                block_row(frame@, g, base_x as int, actual_y as int, sx as int, r, gc, b)
                    == block_row(row_start, g, base_x as int, actual_y as int, 0, r, gc, b),
            decreases g.scale - sx,
        {
            let actual_x = base_x + sx;
            write_phys(frame, g, actual_x, actual_y, r, gc, b);
            sx = sx + 1;
        }
        sy = sy + 1;
    }
}

/// The color of logical pixel (`x`, `y`) of the content
pub fn get_pixel(frame: &Vec<u8>, g: FbGeometry, x: usize, y: usize) -> (c: (u8, u8, u8))
    requires
        geometry_wf(g),
        x * g.scale + g.offset_x <= usize::MAX,
        y * g.scale + g.offset_y <= usize::MAX,
    ensures
        c == get_spec(frame@, g, x as int, y as int),
{
    proof {
        vstd::arithmetic::mul::lemma_mul_is_commutative(x as int, g.scale as int);
    }
    let actual_x = x * g.scale + g.offset_x;
    let actual_y = y * g.scale + g.offset_y;
    if actual_x >= g.width_pixels || actual_y >= g.height_pixels {
        return (0, 0, 0);
    }
    proof {
        vstd::arithmetic::mul::lemma_mul_inequality(actual_y as int, g.height_pixels as int, g.line_length as int);
        vstd::arithmetic::mul::lemma_mul_inequality(actual_x as int, g.width_pixels as int, g.bytes_per_pixel as int);
        vstd::arithmetic::mul::lemma_mul_is_commutative(actual_y as int, g.line_length as int);
        vstd::arithmetic::mul::lemma_mul_is_commutative(g.height_pixels as int, g.line_length as int);
    }
    let offset = actual_y * g.line_length + actual_x * g.bytes_per_pixel;
    if g.bytes_per_pixel == 4 || g.bytes_per_pixel == 3 {
        if offset + 2 < frame.len() {
            (frame[offset + g.r_offset], frame[offset + g.g_offset], frame[offset + g.b_offset])
        } else {
            (0, 0, 0)
        }
    } else if g.bytes_per_pixel == 2 {
        if offset + 1 < frame.len() {
            let color = (frame[offset] as u16) | ((frame[offset + 1] as u16) << 8u16);
            let r = ((color >> 11u16) & 0x1Fu16) as u8;
            let gg = ((color >> 5u16) & 0x3Fu16) as u8;
            let b = (color & 0x1Fu16) as u8;
            (((r << 3u8) | (r >> 2u8)) as u8, ((gg << 2u8) | (gg >> 4u8)) as u8, ((b << 3u8) | (b >> 2u8)) as u8)
        } else {
            (0, 0, 0)
        }
    } else {
        (0, 0, 0)
    }
}


/// Width and height of the mouse cursor sprite
pub const CURSOR_SIZE: usize = 16;

/// Row `cy` of the arrow cursor, two bits per pixel from the left (0:
/// transparent, 1: black outline, 2: white fill)
pub open spec fn sprite_row(cy: int) -> u32 {
    if cy == 0 {
        0x5
    } else if cy == 1 {
        0x19
    } else if cy == 2 {
        0x69
    } else if cy == 3 {
        0x1a9
    } else if cy == 4 {
        0x6a9
    } else if cy == 5 {
        0x1aa9
    } else if cy == 6 {
        0x6aa9
    } else if cy == 7 {
        0x1aaa9
    } else if cy == 8 {
        0x6aaa9
    } else if cy == 9 {
        0x155aa9
    } else if cy == 10 {
        0x1a69
    } else if cy == 11 {
        0x6919
    } else if cy == 12 {
        0x6905
    } else if cy == 13 {
        0x1a400
    } else if cy == 14 {
        0x1a400
    } else {
        0x5000
    }
}

/// Pixel (`cx`, `cy`) of the cursor sprite
pub open spec fn sprite_pixel(cx: int, cy: int) -> u32 {
    (sprite_row(cy) >> ((2 * cx) as u32)) & 3u32
}

fn cursor_sprite_pixel(cx: usize, cy: usize) -> (p: u32)
    requires
        cx < 16,
        cy < 16,
    ensures
        p == sprite_pixel(cx as int, cy as int),
{
    let row: u32 = match cy {
        0 => 0x5,
        1 => 0x19,
        2 => 0x69,
        3 => 0x1a9,
        4 => 0x6a9,
        5 => 0x1aa9,
        6 => 0x6aa9,
        7 => 0x1aaa9,
        8 => 0x6aaa9,
        9 => 0x155aa9,
        10 => 0x1a69,
        11 => 0x6919,
        12 => 0x6905,
        13 => 0x1a400,
        14 => 0x1a400,
        _ => 0x5000,
    };
    (row >> ((2 * cx) as u32)) & 3u32
}

/// A pixel under the cursor, as it was before the cursor was drawn:
/// (x, y, r, g, b)
pub type SavedPixel = (usize, usize, u8, u8, u8);

/// One pixel of the cursor: pixels outside the content or transparent in
/// the sprite are left alone; the others are saved, then painted black
/// (outline) or white (fill)
pub open spec fn cursor_step(
    st: (Seq<u8>, Seq<SavedPixel>),
    g: FbGeometry,
    bw: int,
    bh: int,
    x: int,
    y: int,
    cx: int,
    cy: int,
) -> (Seq<u8>, Seq<SavedPixel>) {
    let px = x + cx;
    let py = y + cy;
    let sp = sprite_pixel(cx, cy);
    if px >= bw || py >= bh || sp == 0 {
        st
    } else {
        let o = get_spec(st.0, g, px, py);
        let saved = st.1.push((px as usize, py as usize, o.0, o.1, o.2));
        if sp == 1 {
            (put_spec(st.0, g, px, py, 0, 0, 0), saved)
        } else if sp == 2 {
            (put_spec(st.0, g, px, py, 255, 255, 255), saved)
        } else {
            (st.0, saved)
        }
    }
}

/// Sprite pixels `k`.. (row by row) applied to the state
pub open spec fn cursor_from(
    st: (Seq<u8>, Seq<SavedPixel>),
    g: FbGeometry,
    bw: int,
    bh: int,
    x: int,
    y: int,
    k: int,
) -> (Seq<u8>, Seq<SavedPixel>)
    decreases 256 - k,
{
    if k < 0 || k >= 256 {
        st
    } else {
        cursor_from(cursor_step(st, g, bw, bh, x, y, k % 16, k / 16), g, bw, bh, x, y, k + 1)
    }
}

/// The saved pixels `k`.. written back, in order
pub open spec fn restore_from(f: Seq<u8>, g: FbGeometry, saved: Seq<SavedPixel>, k: int) -> Seq<u8>
    decreases saved.len() - k,
{
    if k < 0 || k >= saved.len() {
        f
    } else {
        let p = saved[k];
        restore_from(put_spec(f, g, p.0 as int, p.1 as int, p.2, p.3, p.4), g, saved, k + 1)
    }
}

/// Screen parameters as the framebuffer device reports them
#[derive(Clone, Copy, Debug, PartialEq, Eq, Structural)]
pub struct ScreenInfo {
    /// Visible resolution
    pub xres: u32,
    pub yres: u32,
    pub bits_per_pixel: u32,
    /// Bit offsets of the color channels within a pixel
    pub red_offset: u32,
    pub green_offset: u32,
    pub blue_offset: u32,
    /// Bytes per screen line
    pub line_length: u32,
}

/// Largest whole scale at which content of `bw` by `bh` pixels fits a
/// screen of `w` by `h`, and at least 1
pub open spec fn auto_scale(w: int, h: int, bw: int, bh: int) -> int {
    let sx = w / bw;
    let sy = h / bh;
    let m = if sx <= sy {
        sx
    } else {
        sy
    };
    if m >= 1 {
        m
    } else {
        1
    }
}

/// Offset that centres `content` within `total` (0 when it does not fit)
pub open spec fn centre_offset(total: int, content: int) -> int {
    if total > content {
        (total - content) / 2
    } else {
        0
    }
}

/// The framebuffer's pixel memory together with what is needed to draw
/// text-mode cells and the mouse cursor on it
pub struct FramebufferRenderer {
    /// The screen's bytes, `line_length` per line
    pub frame: Vec<u8>,
    pub font: FontManager,
    pub mode: TextMode,
    pub geometry: FbGeometry,
    pub cursor_visible: bool,
    /// Pixels under the cursor, for `restore_cursor_area`
    pub cursor_saved_pixels: Vec<SavedPixel>,
}

impl FramebufferRenderer {
    /// Content size in logical pixels: the mode's cells times the font's
    /// glyph size
    pub open spec fn base_size(&self) -> (int, int) {
        (self.mode.cols * self.font.width, self.mode.rows * self.font.height)
    }

    /// A renderer for `mode` drawn with `font` on a screen described by
    /// `info`, whose memory is `frame`. Without a `scale`, content takes the
    /// largest whole scale that fits the screen (at least 1); it is centred.
    pub fn new(mode: TextMode, scale: Option<usize>, font: FontManager, info: ScreenInfo, frame: Vec<u8>) -> (
        r: Self)
        requires
            mode.cols * font.width <= usize::MAX,
            mode.rows * font.height <= usize::MAX,
            scale.is_none() ==> mode.cols * font.width > 0 && mode.rows * font.height > 0,
            scale matches Some(s) ==> mode.cols * font.width * s <= usize::MAX && mode.rows
                * font.height * s <= usize::MAX,
        ensures
            r.frame@ == frame@,
            r.font == font,
            r.mode == mode,
            r.cursor_visible,
            r.cursor_saved_pixels@.len() == 0,
            r.geometry.width_pixels == info.xres,
            r.geometry.height_pixels == info.yres,
            r.geometry.bytes_per_pixel == info.bits_per_pixel / 8,
            r.geometry.line_length == info.line_length,
            r.geometry.r_offset == info.red_offset / 8,
            r.geometry.g_offset == info.green_offset / 8,
            r.geometry.b_offset == info.blue_offset / 8,
            r.geometry.scale == match scale {
                Some(s) => s as int,
                None => auto_scale(
                    info.xres as int,
                    info.yres as int,
                    mode.cols * font.width,
                    mode.rows * font.height,
                ),
            },
            r.geometry.offset_x == centre_offset(info.xres as int, mode.cols * font.width * r.geometry.scale),
            r.geometry.offset_y == centre_offset(info.yres as int, mode.rows * font.height * r.geometry.scale),
    {
        let width_pixels = info.xres as usize;
        let height_pixels = info.yres as usize;
        let base_width = mode.cols * font.width;
        let base_height = mode.rows * font.height;
        let scale = match scale {
            Some(s) => s,
            None => {
                let max_scale_x = width_pixels / base_width;
                let max_scale_y = height_pixels / base_height;
                let m = if max_scale_x <= max_scale_y {
                    max_scale_x
                } else {
                    max_scale_y
                };
                let s = if m >= 1 {
                    m
                } else {
                    1
                };
                assert(m >= 1 ==> s == m);
                proof {
                    let bw = base_width as int;
                    let bh = base_height as int;
                    if m >= 1 {
                        assert(bw * m <= width_pixels) by (nonlinear_arith)
                            requires
                                m <= (width_pixels as int) / bw,
                                bw > 0,
                                m >= 0,
                        ;
                        assert(bh * m <= height_pixels) by (nonlinear_arith)
                            requires
                                m <= (height_pixels as int) / bh,
                                bh > 0,
                                m >= 0,
                        ;
                    }
                    assert(bw * s <= usize::MAX && bh * s <= usize::MAX) by (nonlinear_arith)
                        requires
                            s == 1 || (bw * s <= width_pixels && bh * s <= height_pixels),
                            bw <= usize::MAX,
                            bh <= usize::MAX,
                            width_pixels <= usize::MAX,
                            height_pixels <= usize::MAX,
                    ;
                }
                s
            },
        };
        let content_width = base_width * scale;
        let content_height = base_height * scale;
        let offset_x = if width_pixels > content_width {
            (width_pixels - content_width) / 2
        } else {
            0
        };
        let offset_y = if height_pixels > content_height {
            (height_pixels - content_height) / 2
        } else {
            0
        };
        let geometry = FbGeometry {
            width_pixels,
            height_pixels,
            bytes_per_pixel: (info.bits_per_pixel / 8) as usize,
            line_length: info.line_length as usize,
            scale,
            offset_x,
            offset_y,
            r_offset: (info.red_offset / 8) as usize,
            g_offset: (info.green_offset / 8) as usize,
            b_offset: (info.blue_offset / 8) as usize,
        };
        FramebufferRenderer {
            frame,
            font,
            mode,
            geometry,
            cursor_visible: true,
            cursor_saved_pixels: Vec::new(),
        }
    }

    /// The text mode
    pub fn mode(&self) -> (m: &TextMode)
        ensures
            *m == self.mode,
    {
        &self.mode
    }

    /// Text size: (columns, rows)
    pub fn dimensions(&self) -> (d: (usize, usize))
        ensures
            d == (self.mode.cols, self.mode.rows),
    {
        (self.mode.cols, self.mode.rows)
    }

    /// Content size in logical (unscaled) pixels
    pub fn pixel_dimensions(&self) -> (d: (usize, usize))
        requires
            self.mode.cols * self.font.width <= usize::MAX,
            self.mode.rows * self.font.height <= usize::MAX,
        ensures
            d.0 == self.mode.cols * self.font.width,
            d.1 == self.mode.rows * self.font.height,
    {
        (self.mode.cols * self.font.width, self.mode.rows * self.font.height)
    }

    /// Physical pixels per logical pixel
    pub fn scale(&self) -> (s: usize)
        ensures
            s == self.geometry.scale,
    {
        self.geometry.scale
    }

    /// Top-left corner of the content on the screen
    pub fn offsets(&self) -> (o: (usize, usize))
        ensures
            o == (self.geometry.offset_x, self.geometry.offset_y),
    {
        (self.geometry.offset_x, self.geometry.offset_y)
    }

    /// Shows or hides the mouse cursor
    pub fn set_cursor_visible(&mut self, visible: bool)
        ensures
            final(self).cursor_visible == visible,
            final(self).frame@ == old(self).frame@,
            final(self).geometry == old(self).geometry,
            final(self).cursor_saved_pixels@ == old(self).cursor_saved_pixels@,
            final(self).font == old(self).font,
            final(self).mode == old(self).mode,
    {
        self.cursor_visible = visible;
    }

    /// Draws the cursor with its tip at logical pixel (`x`, `y`), first
    /// saving the pixels it covers; nothing happens while it is hidden
    pub fn draw_cursor(&mut self, x: usize, y: usize)
        requires
            geometry_wf(old(self).geometry),
            x + 16 <= usize::MAX,
            y + 16 <= usize::MAX,
            old(self).mode.cols * old(self).font.width <= usize::MAX,
            old(self).mode.rows * old(self).font.height <= usize::MAX,
            old(self).mode.cols * old(self).font.width * old(self).geometry.scale
                + old(self).geometry.offset_x <= usize::MAX,
            old(self).mode.rows * old(self).font.height * old(self).geometry.scale
                + old(self).geometry.offset_y <= usize::MAX,
        ensures
            final(self).geometry == old(self).geometry,
            final(self).font == old(self).font,
            final(self).mode == old(self).mode,
            final(self).cursor_visible == old(self).cursor_visible,
            !old(self).cursor_visible ==> final(self).frame@ == old(self).frame@
                && final(self).cursor_saved_pixels@ == old(self).cursor_saved_pixels@,
            old(self).cursor_visible ==> (final(self).frame@, final(self).cursor_saved_pixels@)
                == cursor_from(
                (old(self).frame@, Seq::empty()),
                old(self).geometry,
                old(self).base_size().0,
                old(self).base_size().1,
                x as int,
                y as int,
                0,
            ),
    {
        if !self.cursor_visible {
            return;
        }
        self.cursor_saved_pixels.clear();
        let g = self.geometry;
        let ghost bw = self.base_size().0;
        let ghost bh = self.base_size().1;
        let ghost start = (self.frame@, self.cursor_saved_pixels@);
        let mut cy: usize = 0;
        while cy < 16
            invariant
                0 <= cy <= 16,
                g == self.geometry,
                geometry_wf(g),
                x + 16 <= usize::MAX,
                y + 16 <= usize::MAX,
                bw == self.base_size().0,
                bh == self.base_size().1,
                bw <= usize::MAX,
                bh <= usize::MAX,
                bw * g.scale + g.offset_x <= usize::MAX,
                bh * g.scale + g.offset_y <= usize::MAX,
                cursor_from((self.frame@, self.cursor_saved_pixels@), g, bw, bh, x as int, y as int, cy * 16)
                    == cursor_from(start, g, bw, bh, x as int, y as int, 0),
                self.font == old(self).font,
                self.mode == old(self).mode,
                self.cursor_visible == old(self).cursor_visible,
            decreases 16 - cy,
        {
            let mut cx: usize = 0;
            while cx < 16
                invariant
                    0 <= cy < 16,
                    0 <= cx <= 16,
                    g == self.geometry,
                    geometry_wf(g),
                    x + 16 <= usize::MAX,
                    y + 16 <= usize::MAX,
                    bw == self.base_size().0,
                    bh == self.base_size().1,
                    bw <= usize::MAX,
                    bh <= usize::MAX,
                    bw * g.scale + g.offset_x <= usize::MAX,
                    bh * g.scale + g.offset_y <= usize::MAX,
                    cursor_from(
                        (self.frame@, self.cursor_saved_pixels@),
                        g,
                        bw,
                        bh,
                        x as int,
                        y as int,
                        cy * 16 + cx,
                    ) == cursor_from(start, g, bw, bh, x as int, y as int, 0),
                    self.font == old(self).font,
                    self.mode == old(self).mode,
                    self.cursor_visible == old(self).cursor_visible,
                decreases 16 - cx,
            {
                let pixel_x = x + cx;
                let pixel_y = y + cy;
                let base_width = self.mode.cols * self.font.width;
                let base_height = self.mode.rows * self.font.height;
                let ghost k = cy * 16 + cx;
                assert(k % 16 == cx && k / 16 == cy);
                let sprite = cursor_sprite_pixel(cx, cy);
                if pixel_x < base_width && pixel_y < base_height && sprite != 0 {
                    proof {
                        vstd::arithmetic::mul::lemma_mul_inequality(pixel_x as int, bw, g.scale as int);
                        vstd::arithmetic::mul::lemma_mul_inequality(pixel_y as int, bh, g.scale as int);
                    }
                    let original = get_pixel(&self.frame, g, pixel_x, pixel_y);
                    self.cursor_saved_pixels.push((pixel_x, pixel_y, original.0, original.1, original.2));
                    if sprite == 1 {
                        put_pixel(&mut self.frame, g, pixel_x, pixel_y, 0, 0, 0);
                    } else if sprite == 2 {
                        put_pixel(&mut self.frame, g, pixel_x, pixel_y, 255, 255, 255);
                    }
                }
                cx = cx + 1;
            }
            cy = cy + 1;
        }
    }

    /// Writes back the pixels saved under the cursor, and forgets them
    pub fn restore_cursor_area(&mut self)
        requires
            geometry_wf(old(self).geometry),
            forall|i: int|
                0 <= i < old(self).cursor_saved_pixels@.len() ==> {
                    let p = #[trigger] old(self).cursor_saved_pixels@[i];
                    &&& p.0 * old(self).geometry.scale + old(self).geometry.offset_x <= usize::MAX
                    &&& p.1 * old(self).geometry.scale + old(self).geometry.offset_y <= usize::MAX
                },
        ensures
            final(self).frame@ == restore_from(
                old(self).frame@,
                old(self).geometry,
                old(self).cursor_saved_pixels@,
                0,
            ),
            final(self).cursor_saved_pixels@.len() == 0,
            final(self).geometry == old(self).geometry,
            final(self).font == old(self).font,
            final(self).mode == old(self).mode,
            final(self).cursor_visible == old(self).cursor_visible,
    {
        let mut saved: Vec<SavedPixel> = Vec::new();
        std::mem::swap(&mut saved, &mut self.cursor_saved_pixels);
        let g = self.geometry;
        let ghost f0 = self.frame@;
        let mut i: usize = 0;
        while i < saved.len()
            invariant
                g == self.geometry,
                geometry_wf(g),
                i <= saved@.len(),
                self.cursor_saved_pixels@.len() == 0,
                forall|j: int|
                    0 <= j < saved@.len() ==> {
                        let p = #[trigger] saved@[j];
                        &&& p.0 * g.scale + g.offset_x <= usize::MAX
                        &&& p.1 * g.scale + g.offset_y <= usize::MAX
                    },
                restore_from(self.frame@, g, saved@, i as int) == restore_from(f0, g, saved@, 0),
                self.font == old(self).font,
                self.mode == old(self).mode,
                self.cursor_visible == old(self).cursor_visible,
            decreases saved@.len() - i,
        {
            let p = saved[i];
            put_pixel(&mut self.frame, g, p.0, p.1, p.2, p.3, p.4);
            i = i + 1;
        }
    }
}


/// The first bytes of a glyph that text rendering reads: at most 72
pub open spec fn capped_glyph(font: FontManager, ch: char) -> Seq<u8> {
    let gi = glyph_index(font, ch as u32);
    let full = font.glyphs@.subrange(gi * font.bytes_per_glyph, (gi + 1) * font.bytes_per_glyph);
    if full.len() <= 72 {
        full
    } else {
        full.take(72)
    }
}

/// Pixels `px`.. of glyph row `py`, painted at content offset (`xo`, `yo`):
/// set bits in the foreground color, the others in the background color
pub open spec fn glyph_row(
    f: Seq<u8>,
    g: FbGeometry,
    font: FontManager,
    gd: Seq<u8>,
    xo: int,
    yo: int,
    py: int,
    px: int,
    fg: (u8, u8, u8),
    bg: (u8, u8, u8),
) -> Seq<u8>
    decreases font.width - px,
{
    if px < 0 || px >= font.width {
        f
    } else {
        let c = if pixel_set(font, gd, px, py) {
            fg
        } else {
            bg
        };
        glyph_row(put_spec(f, g, xo + px, yo + py, c.0, c.1, c.2), g, font, gd, xo, yo, py, px + 1, fg, bg)
    }
}

/// Glyph rows `py`.. painted at content offset (`xo`, `yo`)
pub open spec fn glyph_rows(
    f: Seq<u8>,
    g: FbGeometry,
    font: FontManager,
    gd: Seq<u8>,
    xo: int,
    yo: int,
    py: int,
    fg: (u8, u8, u8),
    bg: (u8, u8, u8),
) -> Seq<u8>
    decreases font.height - py,
{
    if py < 0 || py >= font.height {
        f
    } else {
        glyph_rows(glyph_row(f, g, font, gd, xo, yo, py, 0, fg, bg), g, font, gd, xo, yo, py + 1, fg, bg)
    }
}

impl FramebufferRenderer {
    /// Draws a character cell at text position (`col`, `row`): its glyph in
    /// the foreground color on the background color. Positions outside the
    /// mode are ignored.
    pub fn render_char(&mut self, col: usize, row: usize, ch: char, fg: UiColor, bg: UiColor)
        requires
            geometry_wf(old(self).geometry),
            font_wf(old(self).font),
            old(self).font.glyph_count > 0,
            old(self).font.is_width_8 ==> old(self).font.width <= 8,
            old(self).font.height * old(self).font.bytes_per_row <= usize::MAX,
            old(self).font.bytes_per_row == bytes_for_bits(old(self).font.width as int),
            old(self).mode.cols * old(self).font.width <= usize::MAX,
            old(self).mode.rows * old(self).font.height <= usize::MAX,
            old(self).mode.cols * old(self).font.width * old(self).geometry.scale
                + old(self).geometry.offset_x <= usize::MAX,
            old(self).mode.rows * old(self).font.height * old(self).geometry.scale
                + old(self).geometry.offset_y <= usize::MAX,
        ensures
            final(self).geometry == old(self).geometry,
            final(self).font == old(self).font,
            final(self).mode == old(self).mode,
            final(self).cursor_visible == old(self).cursor_visible,
            final(self).cursor_saved_pixels@ == old(self).cursor_saved_pixels@,
            !(col < old(self).mode.cols && row < old(self).mode.rows) ==> final(self).frame@
                == old(self).frame@,
            col < old(self).mode.cols && row < old(self).mode.rows ==> final(self).frame@
                == glyph_rows(
                old(self).frame@,
                old(self).geometry,
                old(self).font,
                capped_glyph(old(self).font, ch),
                col * old(self).font.width,
                row * old(self).font.height,
                0,
                spec_dos_color_to_rgb(fg),
                spec_dos_color_to_rgb(bg),
            ),
    {
        if !self.mode.is_valid_position(col, row) {
            return;
        }
        let ghost bw = self.base_size().0;
        let ghost bh = self.base_size().1;
        proof {
            vstd::arithmetic::mul::lemma_mul_inequality(col as int + 1, self.mode.cols as int, self.font.width as int);
            vstd::arithmetic::mul::lemma_mul_inequality(row as int + 1, self.mode.rows as int, self.font.height as int);
            vstd::arithmetic::mul::lemma_mul_is_distributive_add_other_way(self.font.width as int, col as int, 1);
            vstd::arithmetic::mul::lemma_mul_is_distributive_add_other_way(self.font.height as int, row as int, 1);
        }
        let x_offset = col * self.font.width;
        let y_offset = row * self.font.height;
        let font_width = self.font.width;
        let font_height = self.font.height;
        let fg_color = dos_color_to_rgb(fg);
        let bg_color = dos_color_to_rgb(bg);
        let glyph_src = self.font.get_glyph(ch);
        let glyph_len = if glyph_src.len() < 72 {
            glyph_src.len()
        } else {
            72
        };
        let mut glyph_data: Vec<u8> = Vec::new();
        let mut i: usize = 0;
        while i < glyph_len
            invariant
                glyph_len <= glyph_src@.len(),
                i <= glyph_len,
                glyph_data@ == glyph_src@.take(i as int),
            decreases glyph_len - i,
        {
            glyph_data.push(glyph_src[i]);
            assert(glyph_src@.take(i + 1) =~= glyph_src@.take(i as int).push(glyph_src@[i as int]));
            i = i + 1;
        }
        assert(glyph_data@ == capped_glyph(self.font, ch)) by {
            if glyph_src@.len() <= 72 {
                assert(glyph_src@.take(glyph_src@.len() as int) =~= glyph_src@);
            }
        }
        let g = self.geometry;
        let ghost f0 = self.frame@;
        let ghost gd = glyph_data@;
        let mut py: usize = 0;
        while py < font_height
            invariant
                g == self.geometry,
                geometry_wf(g),
                font_wf(self.font),
                font_height == self.font.height,
                font_width == self.font.width,
                self.font.is_width_8 ==> self.font.width <= 8,
                self.font.height * self.font.bytes_per_row <= usize::MAX,
                self.font.bytes_per_row == bytes_for_bits(self.font.width as int),
                gd == glyph_data@,
                py <= font_height,
                x_offset + font_width <= bw,
                y_offset + font_height <= bh,
                bw <= usize::MAX,
                bh <= usize::MAX,
                bw * g.scale + g.offset_x <= usize::MAX,
                bh * g.scale + g.offset_y <= usize::MAX,
                glyph_rows(self.frame@, g, self.font, gd, x_offset as int, y_offset as int, py as int, fg_color, bg_color)
                    == glyph_rows(f0, g, self.font, gd, x_offset as int, y_offset as int, 0, fg_color, bg_color),
                self.font == old(self).font,
                self.mode == old(self).mode,
                self.cursor_visible == old(self).cursor_visible,
                self.cursor_saved_pixels@ == old(self).cursor_saved_pixels@,
            decreases font_height - py,
        {
            let ghost row_start = self.frame@;
            let mut px: usize = 0;
            while px < font_width
                invariant
                    g == self.geometry,
                    geometry_wf(g),
                    font_height == self.font.height,
                    font_width == self.font.width,
                    self.font.is_width_8 ==> self.font.width <= 8,
                    self.font.height * self.font.bytes_per_row <= usize::MAX,
                    self.font.bytes_per_row == bytes_for_bits(self.font.width as int),
                    gd == glyph_data@,
                    py < font_height,
                    px <= font_width,
                    x_offset + font_width <= bw,
                    y_offset + font_height <= bh,
                    bw <= usize::MAX,
                    bh <= usize::MAX,
                    bw * g.scale + g.offset_x <= usize::MAX,
                    bh * g.scale + g.offset_y <= usize::MAX,
                    glyph_row(self.frame@, g, self.font, gd, x_offset as int, y_offset as int, py as int, px as int, fg_color, bg_color)
                        == glyph_row(row_start, g, self.font, gd, x_offset as int, y_offset as int, py as int, 0, fg_color, bg_color),
                    self.font == old(self).font,
                    self.mode == old(self).mode,
                    self.cursor_visible == old(self).cursor_visible,
                    self.cursor_saved_pixels@ == old(self).cursor_saved_pixels@,
                decreases font_width - px,
            {
                let is_set = self.font.is_pixel_set(&glyph_data, px, py);
                let color = if is_set {
                    fg_color
                } else {
                    bg_color
                };
                proof {
                    vstd::arithmetic::mul::lemma_mul_inequality((x_offset + px) as int, bw, g.scale as int);
                    vstd::arithmetic::mul::lemma_mul_inequality((y_offset + py) as int, bh, g.scale as int);
                }
                put_pixel(&mut self.frame, g, x_offset + px, y_offset + py, color.0, color.1, color.2);
                px = px + 1;
            }
            py = py + 1;
        }
    }
}


/// Setting a physical pixel leaves every byte before it alone
proof fn lemma_phys_keeps_below(f: Seq<u8>, g: FbGeometry, ax: int, ay: int, r: u8, gc: u8, b: u8, j: int)
    requires
        geometry_wf(g),
        0 <= j < ay * g.line_length + ax * g.bytes_per_pixel,
    ensures
        phys_write(f, g, ax, ay, r, gc, b).len() == f.len(),
        j < f.len() ==> phys_write(f, g, ax, ay, r, gc, b)[j] == f[j],
{
}

/// The rest of a block row, from column `sx` on, leaves every byte before
/// its first pixel alone
proof fn lemma_row_keeps_below(
    f: Seq<u8>,
    g: FbGeometry,
    bx: int,
    ay: int,
    sx: int,
    r: u8,
    gc: u8,
    b: u8,
    j: int,
)
    requires
        geometry_wf(g),
        0 <= j < ay * g.line_length + (bx + sx) * g.bytes_per_pixel,
    ensures
        block_row(f, g, bx, ay, sx, r, gc, b).len() == f.len(),
        j < f.len() ==> block_row(f, g, bx, ay, sx, r, gc, b)[j] == f[j],
    decreases g.scale - sx,
{
    if !(sx < 0 || sx >= g.scale || bx + sx >= g.width_pixels) {
        let f1 = phys_write(f, g, bx + sx, ay, r, gc, b);
        lemma_phys_keeps_below(f, g, bx + sx, ay, r, gc, b, j);
        assert((bx + sx + 1) * g.bytes_per_pixel == (bx + sx) * g.bytes_per_pixel + g.bytes_per_pixel)
            by (nonlinear_arith);
        lemma_row_keeps_below(f1, g, bx, ay, sx + 1, r, gc, b, j);
    }
}

/// The rest of a block, from row `sy` on, leaves every byte before its
/// first pixel alone
proof fn lemma_rows_keep_below(
    f: Seq<u8>,
    g: FbGeometry,
    bx: int,
    by: int,
    sy: int,
    r: u8,
    gc: u8,
    b: u8,
    j: int,
)
    requires
        geometry_wf(g),
        0 <= j < (by + sy) * g.line_length + bx * g.bytes_per_pixel,
    ensures
        block_rows(f, g, bx, by, sy, r, gc, b).len() == f.len(),
        j < f.len() ==> block_rows(f, g, bx, by, sy, r, gc, b)[j] == f[j],
    decreases g.scale - sy,
{
    if !(sy < 0 || sy >= g.scale || by + sy >= g.height_pixels) {
        let f1 = block_row(f, g, bx, by + sy, 0, r, gc, b);
        lemma_row_keeps_below(f, g, bx, by + sy, 0, r, gc, b, j);
        assert((by + sy + 1) * g.line_length == (by + sy) * g.line_length + g.line_length)
            by (nonlinear_arith);
        lemma_rows_keep_below(f1, g, bx, by, sy + 1, r, gc, b, j);
    }
}

/// A logical pixel read right after it was set gives back the color that
/// was set, in the pixel formats with one byte per channel (3 or 4 bytes
/// per pixel, channels in distinct bytes, lines no shorter than a pixel),
/// whenever the pixel lies on the screen and within the frame.
pub proof fn law_put_then_get(f: Seq<u8>, g: FbGeometry, x: int, y: int, r: u8, gc: u8, b: u8)
    requires
        geometry_wf(g),
        g.bytes_per_pixel == 3 || g.bytes_per_pixel == 4,
        g.r_offset != g.g_offset && g.r_offset != g.b_offset && g.g_offset != g.b_offset,
        g.line_length >= g.bytes_per_pixel,
        g.scale >= 1,
        x >= 0 && y >= 0,
        x * g.scale + g.offset_x < g.width_pixels,
        y * g.scale + g.offset_y < g.height_pixels,
        (y * g.scale + g.offset_y) * g.line_length + (x * g.scale + g.offset_x) * g.bytes_per_pixel
            + g.bytes_per_pixel <= f.len(),
    ensures
        get_spec(put_spec(f, g, x, y, r, gc, b), g, x, y) == (r, gc, b),
{
    let bx = x * g.scale + g.offset_x;
    let by = y * g.scale + g.offset_y;
    assert(bx >= 0 && by >= 0) by (nonlinear_arith)
        requires
            x >= 0,
            y >= 0,
            g.scale >= 1,
            bx == x * g.scale + g.offset_x,
            by == y * g.scale + g.offset_y,
    ;
    let off = by * g.line_length + bx * g.bytes_per_pixel;
    assert(off >= 0) by (nonlinear_arith)
        requires
            bx >= 0,
            by >= 0,
            off == by * g.line_length + bx * g.bytes_per_pixel,
    ;
    let f1 = phys_write(f, g, bx, by, r, gc, b);
    assert(f1[off + g.r_offset] == r && f1[off + g.g_offset] == gc && f1[off + g.b_offset] == b);
    let f2 = block_row(f1, g, bx, by, 1, r, gc, b);
    let f3 = block_rows(f2, g, bx, by, 1, r, gc, b);
    assert(block_row(f, g, bx, by, 0, r, gc, b) == f2);
    assert(block_rows(f, g, bx, by, 0, r, gc, b) == f3);
    assert((bx + 1) * g.bytes_per_pixel == bx * g.bytes_per_pixel + g.bytes_per_pixel)
        by (nonlinear_arith);
    assert((by + 1) * g.line_length == by * g.line_length + g.line_length) by (nonlinear_arith);
    lemma_row_keeps_below(f1, g, bx, by, 1, r, gc, b, off + g.r_offset);
    lemma_row_keeps_below(f1, g, bx, by, 1, r, gc, b, off + g.g_offset);
    lemma_row_keeps_below(f1, g, bx, by, 1, r, gc, b, off + g.b_offset);
    lemma_rows_keep_below(f2, g, bx, by, 1, r, gc, b, off + g.r_offset);
    lemma_rows_keep_below(f2, g, bx, by, 1, r, gc, b, off + g.g_offset);
    lemma_rows_keep_below(f2, g, bx, by, 1, r, gc, b, off + g.b_offset);
}


/// Byte offset of physical pixel (`a`, `b`)
pub open spec fn pix_off(g: FbGeometry, a: int, b: int) -> int {
    b * g.line_length + a * g.bytes_per_pixel
}

/// Two frames of the same length agree on the bytes of physical pixel
/// (`a`, `b`)
pub open spec fn pixel_same(f1: Seq<u8>, f2: Seq<u8>, g: FbGeometry, a: int, b: int) -> bool {
    &&& f1.len() == f2.len()
    &&& forall|t: int| 0 <= t < g.bytes_per_pixel && 0 <= pix_off(g, a, b) + t < f1.len()
        ==> #[trigger] f1[pix_off(g, a, b) + t] == f2[pix_off(g, a, b) + t]
}

/// Lines hold a whole screen row and the bytes written for a pixel stand
/// within it (2, 3 or 4 bytes per pixel)
pub open spec fn rows_apart(g: FbGeometry) -> bool {
    &&& geometry_wf(g)
    &&& 2 <= g.bytes_per_pixel <= 4
    &&& g.line_length >= g.width_pixels * g.bytes_per_pixel
}

/// The bytes of two different on-screen physical pixels do not overlap
proof fn lemma_pixels_apart(g: FbGeometry, a1: int, b1: int, a2: int, b2: int, t: int)
    requires
        rows_apart(g),
        (a1, b1) != (a2, b2),
        0 <= a1 < g.width_pixels,
        0 <= a2 < g.width_pixels,
        0 <= b1,
        0 <= b2,
        0 <= t < g.bytes_per_pixel,
    ensures
        pix_off(g, a2, b2) + t < pix_off(g, a1, b1) || pix_off(g, a2, b2) + t >= pix_off(g, a1, b1)
            + g.bytes_per_pixel,
{
    let L = g.line_length as int;
    let p = g.bytes_per_pixel as int;
    let w = g.width_pixels as int;
    if b1 == b2 {
        assert(a2 * p + t < a1 * p || a2 * p + t >= a1 * p + p) by (nonlinear_arith)
            requires
                a1 != a2,
                0 <= t < p,
        ;
    } else if b1 < b2 {
        assert(b2 * L + a2 * p + t >= b1 * L + a1 * p + p) by (nonlinear_arith)
            requires
                b1 < b2,
                0 <= a1 < w,
                0 <= a2,
                0 <= t,
                p >= 1,
                L >= w * p,
        ;
    } else {
        assert(b2 * L + a2 * p + t < b1 * L + a1 * p) by (nonlinear_arith)
            requires
                b2 < b1,
                0 <= a2 < w,
                0 <= a1,
                0 <= t < p,
                p >= 1,
                L >= w * p,
        ;
    }
}

/// Setting one physical pixel leaves the bytes of every other on-screen
/// pixel alone
proof fn lemma_phys_keeps_pixel(f: Seq<u8>, g: FbGeometry, a1: int, b1: int, r: u8, gc: u8, b: u8, a2: int, b2: int)
    requires
        rows_apart(g),
        (a1, b1) != (a2, b2),
        0 <= a1 < g.width_pixels,
        0 <= a2 < g.width_pixels,
        0 <= b1,
        0 <= b2,
    ensures
        pixel_same(phys_write(f, g, a1, b1, r, gc, b), f, g, a2, b2),
{
    let f1 = phys_write(f, g, a1, b1, r, gc, b);
    assert forall|t: int| 0 <= t < g.bytes_per_pixel && 0 <= pix_off(g, a2, b2) + t < f1.len()
        implies #[trigger] f1[pix_off(g, a2, b2) + t] == f[pix_off(g, a2, b2) + t] by {
        lemma_pixels_apart(g, a1, b1, a2, b2, t);
    }
}

/// The rest of a block row leaves every on-screen pixel outside it alone
proof fn lemma_row_keeps_pixel(
    f: Seq<u8>,
    g: FbGeometry,
    bx: int,
    ay: int,
    sx: int,
    r: u8,
    gc: u8,
    b: u8,
    a2: int,
    b2: int,
)
    requires
        rows_apart(g),
        0 <= bx,
        0 <= ay,
        0 <= sx,
        0 <= a2 < g.width_pixels,
        0 <= b2,
        b2 != ay || a2 < bx + sx || a2 >= bx + g.scale,
    ensures
        pixel_same(block_row(f, g, bx, ay, sx, r, gc, b), f, g, a2, b2),
    decreases g.scale - sx,
{
    if !(sx < 0 || sx >= g.scale || bx + sx >= g.width_pixels) {
        let f1 = phys_write(f, g, bx + sx, ay, r, gc, b);
        lemma_phys_keeps_pixel(f, g, bx + sx, ay, r, gc, b, a2, b2);
        lemma_row_keeps_pixel(f1, g, bx, ay, sx + 1, r, gc, b, a2, b2);
        let f2 = block_row(f1, g, bx, ay, sx + 1, r, gc, b);
        assert forall|t: int| 0 <= t < g.bytes_per_pixel && 0 <= pix_off(g, a2, b2) + t < f2.len()
            implies #[trigger] f2[pix_off(g, a2, b2) + t] == f[pix_off(g, a2, b2) + t] by {
            assert(f2[pix_off(g, a2, b2) + t] == f1[pix_off(g, a2, b2) + t]);
        }
    }
}

/// The rest of a block leaves every on-screen pixel outside it alone
proof fn lemma_rows_keep_pixel(
    f: Seq<u8>,
    g: FbGeometry,
    bx: int,
    by: int,
    sy: int,
    r: u8,
    gc: u8,
    b: u8,
    a2: int,
    b2: int,
)
    requires
        rows_apart(g),
        0 <= bx,
        0 <= by,
        0 <= sy,
        0 <= a2 < g.width_pixels,
        0 <= b2,
        b2 < by + sy || b2 >= by + g.scale || a2 < bx || a2 >= bx + g.scale,
    ensures
        pixel_same(block_rows(f, g, bx, by, sy, r, gc, b), f, g, a2, b2),
    decreases g.scale - sy,
{
    if !(sy < 0 || sy >= g.scale || by + sy >= g.height_pixels) {
        let f1 = block_row(f, g, bx, by + sy, 0, r, gc, b);
        lemma_row_keeps_pixel(f, g, bx, by + sy, 0, r, gc, b, a2, b2);
        lemma_rows_keep_pixel(f1, g, bx, by, sy + 1, r, gc, b, a2, b2);
        let f2 = block_rows(f1, g, bx, by, sy + 1, r, gc, b);
        assert forall|t: int| 0 <= t < g.bytes_per_pixel && 0 <= pix_off(g, a2, b2) + t < f2.len()
            implies #[trigger] f2[pix_off(g, a2, b2) + t] == f[pix_off(g, a2, b2) + t] by {
            assert(f2[pix_off(g, a2, b2) + t] == f1[pix_off(g, a2, b2) + t]);
        }
    }
}

/// Writing a block keeps the frame's length
proof fn lemma_row_len(f: Seq<u8>, g: FbGeometry, bx: int, ay: int, sx: int, r: u8, gc: u8, b: u8)
    requires
        geometry_wf(g),
        bx >= 0,
        ay >= 0,
    ensures
        block_row(f, g, bx, ay, sx, r, gc, b).len() == f.len(),
    decreases g.scale - sx,
{
    if !(sx < 0 || sx >= g.scale || bx + sx >= g.width_pixels) {
        let ax = bx + sx;
        assert(ay * g.line_length + ax * g.bytes_per_pixel >= 0) by (nonlinear_arith)
            requires
                ax >= 0,
                ay >= 0,
        ;
        lemma_row_len(phys_write(f, g, bx + sx, ay, r, gc, b), g, bx, ay, sx + 1, r, gc, b);
    }
}

proof fn lemma_rows_len(f: Seq<u8>, g: FbGeometry, bx: int, by: int, sy: int, r: u8, gc: u8, b: u8)
    requires
        geometry_wf(g),
        bx >= 0,
        by >= 0,
    ensures
        block_rows(f, g, bx, by, sy, r, gc, b).len() == f.len(),
    decreases g.scale - sy,
{
    if !(sy < 0 || sy >= g.scale || by + sy >= g.height_pixels) {
        lemma_row_len(f, g, bx, by + sy, 0, r, gc, b);
        lemma_rows_len(block_row(f, g, bx, by + sy, 0, r, gc, b), g, bx, by, sy + 1, r, gc, b);
    }
}

/// Setting a logical pixel leaves the color of every other logical pixel
/// alone
proof fn lemma_put_keeps_other(
    f: Seq<u8>,
    g: FbGeometry,
    px: int,
    py: int,
    r: u8,
    gc: u8,
    b: u8,
    qx: int,
    qy: int,
)
    requires
        rows_apart(g),
        g.scale >= 1,
        px >= 0 && py >= 0 && qx >= 0 && qy >= 0,
        (px, py) != (qx, qy),
    ensures
        put_spec(f, g, px, py, r, gc, b).len() == f.len(),
        get_spec(put_spec(f, g, px, py, r, gc, b), g, qx, qy) == get_spec(f, g, qx, qy),
{
    let s = g.scale as int;
    let bx = px * s + g.offset_x;
    let by = py * s + g.offset_y;
    let qa = qx * s + g.offset_x;
    let qb = qy * s + g.offset_y;
    assert(bx >= 0 && by >= 0 && qa >= 0 && qb >= 0) by (nonlinear_arith)
        requires
            px >= 0 && py >= 0 && qx >= 0 && qy >= 0,
            s >= 1,
            bx == px * s + g.offset_x,
            by == py * s + g.offset_y,
            qa == qx * s + g.offset_x,
            qb == qy * s + g.offset_y,
    ;
    if bx >= g.width_pixels || by >= g.height_pixels {
        return;
    }
    let f1 = block_rows(f, g, bx, by, 0, r, gc, b);
    lemma_rows_len(f, g, bx, by, 0, r, gc, b);
    if qa >= g.width_pixels || qb >= g.height_pixels {
        return;
    }
    assert(qb < by || qb >= by + s || qa < bx || qa >= bx + s) by {
        if qx != px {
            assert(qa < bx || qa >= bx + s) by (nonlinear_arith)
                requires
                    qx != px,
                    s >= 1,
                    bx == px * s + g.offset_x,
                    qa == qx * s + g.offset_x,
            ;
        } else {
            assert(qb < by || qb >= by + s) by (nonlinear_arith)
                requires
                    qy != py,
                    s >= 1,
                    by == py * s + g.offset_y,
                    qb == qy * s + g.offset_y,
            ;
        }
    }
    lemma_rows_keep_pixel(f, g, bx, by, 0, r, gc, b, qa, qb);
    let off = pix_off(g, qa, qb);
    if g.bytes_per_pixel == 2 {
        assert(f1[pix_off(g, qa, qb) + 0] == f[pix_off(g, qa, qb) + 0] || off >= f.len() || off < 0);
        assert(f1[pix_off(g, qa, qb) + 1] == f[pix_off(g, qa, qb) + 1] || off + 1 >= f.len() || off + 1 < 0);
    } else {
        assert(f1[off + g.r_offset] == f[off + g.r_offset] || off + g.r_offset >= f.len() || off + g.r_offset < 0);
        assert(f1[off + g.g_offset] == f[off + g.g_offset] || off + g.g_offset >= f.len() || off + g.g_offset < 0);
        assert(f1[off + g.b_offset] == f[off + g.b_offset] || off + g.b_offset >= f.len() || off + g.b_offset < 0);
    }
    assert(qb * g.line_length + qa * g.bytes_per_pixel == off);
}

/// The frame holds every screen line, and with one byte per channel the
/// three channels stand in distinct bytes
pub open spec fn full_frame(f: Seq<u8>, g: FbGeometry) -> bool {
    &&& rows_apart(g)
    &&& g.bytes_per_pixel != 2 ==> g.r_offset != g.g_offset && g.r_offset != g.b_offset && g.g_offset != g.b_offset
    &&& g.scale >= 1
    &&& f.len() == g.height_pixels * g.line_length
}

/// The 16-bit RGB565 value of two little-endian bytes
pub open spec fn word565(x0: u8, x1: u8) -> u16 {
    (x0 as u16) | ((x1 as u16) << 8u16)
}

/// The 8-bit red, green and blue of an RGB565 value, as a read gives them
pub open spec fn red565(c: u16) -> u8 {
    widen5(((c >> 11u16) & 0x1Fu16) as u8)
}

pub open spec fn green565(c: u16) -> u8 {
    widen6(((c >> 5u16) & 0x3Fu16) as u8)
}

pub open spec fn blue565(c: u16) -> u8 {
    widen5((c & 0x1Fu16) as u8)
}

/// A color read from RGB565 bytes, packed again and read back, is the same
proof fn lemma_565_round_trip(x0: u8, x1: u8, y0: u8, y1: u8)
    by (bit_vector)
    requires
        y0 == (rgb565(red565(word565(x0, x1)), green565(word565(x0, x1)), blue565(word565(x0, x1))) & 0xFFu16) as u8,
        y1 == (rgb565(red565(word565(x0, x1)), green565(word565(x0, x1)), blue565(word565(x0, x1))) >> 8u16) as u8,
    ensures
        red565(word565(y0, y1)) == red565(word565(x0, x1)),
        green565(word565(y0, y1)) == green565(word565(x0, x1)),
        blue565(word565(y0, y1)) == blue565(word565(x0, x1)),
{
}

/// In RGB565, a logical pixel read right after it was set gives the RGB565
/// form of the color that was set, when the pixel lies on the screen and
/// within the frame
proof fn lemma_put_then_get_565(f: Seq<u8>, g: FbGeometry, x: int, y: int, r: u8, gc: u8, b: u8)
    requires
        geometry_wf(g),
        g.bytes_per_pixel == 2,
        g.line_length >= 2,
        g.scale >= 1,
        x >= 0 && y >= 0,
        x * g.scale + g.offset_x < g.width_pixels,
        y * g.scale + g.offset_y < g.height_pixels,
        (y * g.scale + g.offset_y) * g.line_length + (x * g.scale + g.offset_x) * 2 + 2 <= f.len(),
    ensures
        ({
            let c = rgb565(r, gc, b);
            let y0 = (c & 0xFFu16) as u8;
            let y1 = (c >> 8u16) as u8;
            get_spec(put_spec(f, g, x, y, r, gc, b), g, x, y) == (
                red565(word565(y0, y1)),
                green565(word565(y0, y1)),
                blue565(word565(y0, y1)),
            )
        }),
{
    let bx = x * g.scale + g.offset_x;
    let by = y * g.scale + g.offset_y;
    assert(bx >= 0 && by >= 0) by (nonlinear_arith)
        requires
            x >= 0,
            y >= 0,
            g.scale >= 1,
            bx == x * g.scale + g.offset_x,
            by == y * g.scale + g.offset_y,
    ;
    let off = by * g.line_length + bx * g.bytes_per_pixel;
    assert(off >= 0) by (nonlinear_arith)
        requires
            bx >= 0,
            by >= 0,
            off == by * g.line_length + bx * g.bytes_per_pixel,
    ;
    let c = rgb565(r, gc, b);
    let f1 = phys_write(f, g, bx, by, r, gc, b);
    assert(f1[off] == (c & 0xFFu16) as u8 && f1[off + 1] == (c >> 8u16) as u8);
    let f2 = block_row(f1, g, bx, by, 1, r, gc, b);
    let f3 = block_rows(f2, g, bx, by, 1, r, gc, b);
    assert(block_row(f, g, bx, by, 0, r, gc, b) == f2);
    assert(block_rows(f, g, bx, by, 0, r, gc, b) == f3);
    assert((bx + 1) * g.bytes_per_pixel == bx * g.bytes_per_pixel + g.bytes_per_pixel)
        by (nonlinear_arith);
    assert((by + 1) * g.line_length == by * g.line_length + g.line_length) by (nonlinear_arith);
    lemma_row_keeps_below(f1, g, bx, by, 1, r, gc, b, off);
    lemma_row_keeps_below(f1, g, bx, by, 1, r, gc, b, off + 1);
    lemma_rows_keep_below(f2, g, bx, by, 1, r, gc, b, off);
    lemma_rows_keep_below(f2, g, bx, by, 1, r, gc, b, off + 1);
}

/// Setting a logical pixel to the color read from it in some frame, and
/// reading it back, gives that color again, in every pixel format
proof fn lemma_put_back(f: Seq<u8>, f0: Seq<u8>, g: FbGeometry, x: int, y: int)
    requires
        full_frame(f, g),
        full_frame(f0, g),
        x >= 0 && y >= 0,
    ensures
        ({
            let e = get_spec(f0, g, x, y);
            get_spec(put_spec(f, g, x, y, e.0, e.1, e.2), g, x, y) == e
        }),
{
    let e = get_spec(f0, g, x, y);
    let bx = x * g.scale + g.offset_x;
    let by = y * g.scale + g.offset_y;
    if bx < g.width_pixels && by < g.height_pixels {
        let L = g.line_length as int;
        let p = g.bytes_per_pixel as int;
        let w = g.width_pixels as int;
        let h = g.height_pixels as int;
        assert(by * L + bx * p + p <= h * L) by (nonlinear_arith)
            requires
                0 <= bx < w,
                0 <= by < h,
                L >= w * p,
                p >= 0,
        ;
        if g.bytes_per_pixel == 2 {
            let off = by * L + bx * p;
            assert(off >= 0) by (nonlinear_arith)
                requires
                    bx >= 0,
                    by >= 0,
                    L >= 0,
                    p >= 0,
                    off == by * L + bx * p,
            ;
            assert(L >= 2) by (nonlinear_arith)
                requires
                    0 <= bx < w,
                    L >= w * p,
                    p == 2,
            ;
            let x0 = f0[off];
            let x1 = f0[off + 1];
            assert(e == (red565(word565(x0, x1)), green565(word565(x0, x1)), blue565(word565(x0, x1))));
            lemma_put_then_get_565(f, g, x, y, e.0, e.1, e.2);
            let c = rgb565(e.0, e.1, e.2);
            lemma_565_round_trip(x0, x1, (c & 0xFFu16) as u8, (c >> 8u16) as u8);
        } else {
            assert(L >= p) by (nonlinear_arith)
                requires
                    0 <= bx < w,
                    L >= w * p,
                    p >= 0,
            ;
            law_put_then_get(f, g, x, y, e.0, e.1, e.2);
        }
    }
}

/// No saved pixel stands at logical (`u`, `v`)
pub open spec fn unsaved_from(saved: Seq<SavedPixel>, i: int, u: int, v: int) -> bool {
    forall|j: int| i <= j < saved.len() ==> !((#[trigger] saved[j]).0 == u && saved[j].1 == v)
}

/// What holds after the first `k` sprite pixels: every saved pixel comes
/// from an earlier sprite pixel and holds the color it had at first, no
/// pixel is saved twice, and the pixels not saved keep their first color
pub open spec fn cursor_inv(st: (Seq<u8>, Seq<SavedPixel>), f0: Seq<u8>, g: FbGeometry, x: int, y: int, k: int) -> bool {
    &&& full_frame(st.0, g)
    &&& forall|i: int| 0 <= i < st.1.len() ==> {
        let e = #[trigger] st.1[i];
        &&& x <= e.0 < x + 16
        &&& y <= e.1
        &&& (e.1 - y) * 16 + (e.0 - x) < k
        &&& (e.2, e.3, e.4) == get_spec(f0, g, e.0 as int, e.1 as int)
    }
    &&& forall|i: int, j: int| 0 <= i < j < st.1.len() ==> !((#[trigger] st.1[i]).0 == (#[trigger] st.1[j]).0
        && st.1[i].1 == st.1[j].1)
    &&& forall|u: int, v: int| u >= 0 && v >= 0 && unsaved_from(st.1, 0, u, v) ==> #[trigger] get_spec(st.0, g, u, v)
        == get_spec(f0, g, u, v)
}

proof fn lemma_cursor_step(st: (Seq<u8>, Seq<SavedPixel>), f0: Seq<u8>, g: FbGeometry, bw: int, bh: int, x: int, y: int, k: int)
    requires
        cursor_inv(st, f0, g, x, y, k),
        0 <= k < 256,
        x >= 0,
        y >= 0,
        x + 16 <= usize::MAX,
        y + 16 <= usize::MAX,
    ensures
        cursor_inv(cursor_step(st, g, bw, bh, x, y, k % 16, k / 16), f0, g, x, y, k + 1),
{
    let cx = k % 16;
    let cy = k / 16;
    let px = x + cx;
    let py = y + cy;
    let sp = sprite_pixel(cx, cy);
    if px >= bw || py >= bh || sp == 0 {
        return;
    }
    assert(unsaved_from(st.1, 0, px, py)) by {
        assert forall|j: int| 0 <= j < st.1.len() implies !((#[trigger] st.1[j]).0 == px && st.1[j].1 == py) by {
            let e = st.1[j];
            if e.0 == px && e.1 == py {
                assert((e.1 - y) * 16 + (e.0 - x) == k);
            }
        }
    }
    let o = get_spec(st.0, g, px, py);
    assert(o == get_spec(f0, g, px, py));
    let e = (px as usize, py as usize, o.0, o.1, o.2);
    let saved = st.1.push(e);
    let f1 = if sp == 1 {
        put_spec(st.0, g, px, py, 0, 0, 0)
    } else if sp == 2 {
        put_spec(st.0, g, px, py, 255, 255, 255)
    } else {
        st.0
    };
    assert(cursor_step(st, g, bw, bh, x, y, cx, cy) == (f1, saved));
    let c = if sp == 1 { 0u8 } else { 255u8 };
    assert forall|u: int, v: int| u >= 0 && v >= 0 && unsaved_from(saved, 0, u, v) implies #[trigger] get_spec(f1, g, u, v)
        == get_spec(f0, g, u, v) by {
        assert(saved[st.1.len() as int] == e);
        assert(!(u == px && v == py));
        assert(unsaved_from(st.1, 0, u, v)) by {
            assert forall|j: int| 0 <= j < st.1.len() implies !((#[trigger] st.1[j]).0 == u && st.1[j].1 == v) by {
                assert(saved[j] == st.1[j]);
            }
        }
        if sp == 1 || sp == 2 {
            lemma_put_keeps_other(st.0, g, px, py, c, c, c, u, v);
        }
    }
    if sp == 1 || sp == 2 {
        lemma_put_keeps_other(st.0, g, px, py, c, c, c, if px == 0 { 1 } else { 0 }, 0);
    }
    assert forall|i: int| 0 <= i < saved.len() implies {
        let e = #[trigger] saved[i];
        &&& x <= e.0 < x + 16
        &&& y <= e.1
        &&& (e.1 - y) * 16 + (e.0 - x) < k + 1
        &&& (e.2, e.3, e.4) == get_spec(f0, g, e.0 as int, e.1 as int)
    } by {
        if i < st.1.len() {
            assert(saved[i] == st.1[i]);
        }
    }
    assert forall|i: int, j: int| 0 <= i < j < saved.len() implies !((#[trigger] saved[i]).0 == (#[trigger] saved[j]).0
        && saved[i].1 == saved[j].1) by {
        assert(saved[i] == st.1[i]);
        if j < st.1.len() {
            assert(saved[j] == st.1[j]);
        } else {
            assert(st.1[i].0 == px && st.1[i].1 == py ==> false);
        }
    }
}

proof fn lemma_cursor_from(st: (Seq<u8>, Seq<SavedPixel>), f0: Seq<u8>, g: FbGeometry, bw: int, bh: int, x: int, y: int, k: int)
    requires
        cursor_inv(st, f0, g, x, y, k),
        0 <= k <= 256,
        x >= 0,
        y >= 0,
        x + 16 <= usize::MAX,
        y + 16 <= usize::MAX,
    ensures
        cursor_inv(cursor_from(st, g, bw, bh, x, y, k), f0, g, x, y, 256),
    decreases 256 - k,
{
    if k < 256 {
        lemma_cursor_step(st, f0, g, bw, bh, x, y, k);
        lemma_cursor_from(cursor_step(st, g, bw, bh, x, y, k % 16, k / 16), f0, g, bw, bh, x, y, k + 1);
    }
}

/// Writing back saved pixels `i`.. of distinct positions, each holding its
/// first color, over a frame where every pixel not among them has its
/// first color, gives every pixel its first color
proof fn lemma_restore_from(f: Seq<u8>, f0: Seq<u8>, g: FbGeometry, saved: Seq<SavedPixel>, i: int)
    requires
        full_frame(f, g),
        full_frame(f0, g),
        0 <= i <= saved.len(),
        forall|j: int| 0 <= j < saved.len() ==> {
            let e = #[trigger] saved[j];
            (e.2, e.3, e.4) == get_spec(f0, g, e.0 as int, e.1 as int)
        },
        forall|a: int, b: int| 0 <= a < b < saved.len() ==> !((#[trigger] saved[a]).0 == (#[trigger] saved[b]).0
            && saved[a].1 == saved[b].1),
        forall|u: int, v: int| u >= 0 && v >= 0 && unsaved_from(saved, i, u, v) ==> #[trigger] get_spec(f, g, u, v)
            == get_spec(f0, g, u, v),
    ensures
        forall|u: int, v: int| u >= 0 && v >= 0 ==> #[trigger] get_spec(restore_from(f, g, saved, i), g, u, v)
            == get_spec(f0, g, u, v),
    decreases saved.len() - i,
{
    if i >= saved.len() {
        assert forall|u: int, v: int| u >= 0 && v >= 0 implies #[trigger] get_spec(restore_from(f, g, saved, i), g, u, v)
            == get_spec(f0, g, u, v) by {
            assert(unsaved_from(saved, i, u, v));
        }
        return;
    }
    let e = saved[i];
    let px = e.0 as int;
    let py = e.1 as int;
    let f1 = put_spec(f, g, px, py, e.2, e.3, e.4);
    lemma_put_keeps_other(f, g, px, py, e.2, e.3, e.4, if px == 0 { 1 } else { 0 }, 0);
    assert forall|u: int, v: int| u >= 0 && v >= 0 && unsaved_from(saved, i + 1, u, v) implies #[trigger] get_spec(f1, g, u, v)
        == get_spec(f0, g, u, v) by {
        if u == px && v == py {
            lemma_put_back(f, f0, g, px, py);
        } else {
            lemma_put_keeps_other(f, g, px, py, e.2, e.3, e.4, u, v);
            assert(unsaved_from(saved, i, u, v));
        }
    }
    lemma_restore_from(f1, f0, g, saved, i + 1);
    assert(restore_from(f, g, saved, i) == restore_from(f1, g, saved, i + 1));
}

/// Drawing the mouse cursor and then writing back the pixels it saved
/// gives every logical pixel the color it had before, in every pixel format
/// (RGB565, 24 and 32 bits), on a frame that holds every screen line, with
/// lines that hold a whole screen row.
pub proof fn law_cursor_restore(f0: Seq<u8>, g: FbGeometry, bw: int, bh: int, x: int, y: int, u: int, v: int)
    requires
        full_frame(f0, g),
        x >= 0,
        y >= 0,
        x + 16 <= usize::MAX,
        y + 16 <= usize::MAX,
        u >= 0,
        v >= 0,
    ensures
        get_spec(
            restore_from(
                cursor_from((f0, Seq::empty()), g, bw, bh, x, y, 0).0,
                g,
                cursor_from((f0, Seq::empty()), g, bw, bh, x, y, 0).1,
                0,
            ),
            g,
            u,
            v,
        ) == get_spec(f0, g, u, v),
{
    let st0: (Seq<u8>, Seq<SavedPixel>) = (f0, Seq::empty());
    lemma_cursor_from(st0, f0, g, bw, bh, x, y, 0);
    let st = cursor_from(st0, g, bw, bh, x, y, 0);
    lemma_restore_from(st.0, f0, g, st.1, 0);
}

/// Physical pixel (`qa`, `qb`) lies in the block of logical pixel (`u`, `v`)
pub open spec fn in_block(g: FbGeometry, u: int, v: int, qa: int, qb: int) -> bool {
    let bx = u * g.scale + g.offset_x;
    let by = v * g.scale + g.offset_y;
    &&& bx <= qa < bx + g.scale
    &&& by <= qb < by + g.scale
}

/// Physical pixel (`qa`, `qb`) lies on the screen
pub open spec fn on_screen(g: FbGeometry, qa: int, qb: int) -> bool {
    0 <= qa < g.width_pixels && 0 <= qb < g.height_pixels
}

/// Byte `t` belongs to no on-screen physical pixel (line padding)
pub open spec fn padding_byte(g: FbGeometry, t: int) -> bool {
    forall|qa: int, qb: int| #[trigger] on_screen(g, qa, qb) ==> !(pix_off(g, qa, qb) <= t < pix_off(g, qa, qb)
        + g.bytes_per_pixel)
}

proof fn lemma_off_nonneg(g: FbGeometry, qa: int, qb: int)
    requires
        qa >= 0,
        qb >= 0,
    ensures
        pix_off(g, qa, qb) >= 0,
{
    assert(qb * g.line_length + qa * g.bytes_per_pixel >= 0) by (nonlinear_arith)
        requires
            qa >= 0,
            qb >= 0,
    ;
}

/// Setting a physical pixel gives its bytes values that depend on its
/// bytes before alone
proof fn lemma_phys_same(f1: Seq<u8>, f2: Seq<u8>, g: FbGeometry, qa: int, qb: int, r: u8, gc: u8, b: u8)
    requires
        rows_apart(g),
        qa >= 0,
        qb >= 0,
        pixel_same(f1, f2, g, qa, qb),
    ensures
        pixel_same(phys_write(f1, g, qa, qb, r, gc, b), phys_write(f2, g, qa, qb, r, gc, b), g, qa, qb),
{
    lemma_off_nonneg(g, qa, qb);
}

/// Setting a physical pixel twice leaves its bytes as the second setting alone
proof fn lemma_phys_twice(f: Seq<u8>, g: FbGeometry, qa: int, qb: int, r1: u8, g1: u8, b1: u8, r: u8, gc: u8, b: u8)
    requires
        rows_apart(g),
        qa >= 0,
        qb >= 0,
    ensures
        pixel_same(
            phys_write(phys_write(f, g, qa, qb, r1, g1, b1), g, qa, qb, r, gc, b),
            phys_write(f, g, qa, qb, r, gc, b),
            g,
            qa,
            qb,
        ),
{
    lemma_off_nonneg(g, qa, qb);
}

/// `pixel_same` chains
proof fn lemma_same_trans(f1: Seq<u8>, f2: Seq<u8>, f3: Seq<u8>, g: FbGeometry, qa: int, qb: int)
    requires
        pixel_same(f1, f2, g, qa, qb),
        pixel_same(f2, f3, g, qa, qb),
    ensures
        pixel_same(f1, f3, g, qa, qb),
{
}

/// The rest of a block row that reaches pixel `qa` gives it the bytes of
/// setting it alone
proof fn lemma_row_hits(f: Seq<u8>, g: FbGeometry, bx: int, ay: int, sx: int, qa: int, r: u8, gc: u8, b: u8)
    requires
        rows_apart(g),
        0 <= bx,
        0 <= ay,
        0 <= sx,
        bx + sx <= qa < bx + g.scale,
        qa < g.width_pixels,
    ensures
        pixel_same(block_row(f, g, bx, ay, sx, r, gc, b), phys_write(f, g, qa, ay, r, gc, b), g, qa, ay),
    decreases g.scale - sx,
{
    let f1 = phys_write(f, g, bx + sx, ay, r, gc, b);
    assert(block_row(f, g, bx, ay, sx, r, gc, b) == block_row(f1, g, bx, ay, sx + 1, r, gc, b));
    if bx + sx == qa {
        lemma_row_keeps_pixel(f1, g, bx, ay, sx + 1, r, gc, b, qa, ay);
        lemma_off_nonneg(g, qa, ay);
    } else {
        lemma_phys_keeps_pixel(f, g, bx + sx, ay, r, gc, b, qa, ay);
        lemma_row_hits(f1, g, bx, ay, sx + 1, qa, r, gc, b);
        lemma_phys_same(f1, f, g, qa, ay, r, gc, b);
        lemma_same_trans(
            block_row(f1, g, bx, ay, sx + 1, r, gc, b),
            phys_write(f1, g, qa, ay, r, gc, b),
            phys_write(f, g, qa, ay, r, gc, b),
            g,
            qa,
            ay,
        );
    }
}

/// The rest of a block that reaches pixel (`qa`, `qb`) gives it the bytes
/// of setting it alone
proof fn lemma_rows_hits(f: Seq<u8>, g: FbGeometry, bx: int, by: int, sy: int, qa: int, qb: int, r: u8, gc: u8, b: u8)
    requires
        rows_apart(g),
        0 <= bx,
        0 <= by,
        0 <= sy,
        by + sy <= qb < by + g.scale,
        qb < g.height_pixels,
        bx <= qa < bx + g.scale,
        qa < g.width_pixels,
    ensures
        pixel_same(block_rows(f, g, bx, by, sy, r, gc, b), phys_write(f, g, qa, qb, r, gc, b), g, qa, qb),
    decreases g.scale - sy,
{
    let f1 = block_row(f, g, bx, by + sy, 0, r, gc, b);
    assert(block_rows(f, g, bx, by, sy, r, gc, b) == block_rows(f1, g, bx, by, sy + 1, r, gc, b));
    if by + sy == qb {
        lemma_row_hits(f, g, bx, qb, 0, qa, r, gc, b);
        lemma_rows_keep_pixel(f1, g, bx, by, sy + 1, r, gc, b, qa, qb);
        lemma_same_trans(
            block_rows(f1, g, bx, by, sy + 1, r, gc, b),
            f1,
            phys_write(f, g, qa, qb, r, gc, b),
            g,
            qa,
            qb,
        );
    } else {
        lemma_row_keeps_pixel(f, g, bx, by + sy, 0, r, gc, b, qa, qb);
        lemma_rows_hits(f1, g, bx, by, sy + 1, qa, qb, r, gc, b);
        lemma_phys_same(f1, f, g, qa, qb, r, gc, b);
        lemma_same_trans(
            block_rows(f1, g, bx, by, sy + 1, r, gc, b),
            phys_write(f1, g, qa, qb, r, gc, b),
            phys_write(f, g, qa, qb, r, gc, b),
            g,
            qa,
            qb,
        );
    }
}

/// Setting a logical pixel gives each on-screen physical pixel of its block
/// the bytes of setting that pixel alone, and leaves every other on-screen
/// pixel alone
proof fn lemma_put_pixel_bytes(f: Seq<u8>, g: FbGeometry, u: int, v: int, qa: int, qb: int, r: u8, gc: u8, b: u8)
    requires
        rows_apart(g),
        g.scale >= 1,
        u >= 0,
        v >= 0,
        on_screen(g, qa, qb),
    ensures
        in_block(g, u, v, qa, qb) ==> pixel_same(put_spec(f, g, u, v, r, gc, b), phys_write(f, g, qa, qb, r, gc, b), g, qa, qb),
        !in_block(g, u, v, qa, qb) ==> pixel_same(put_spec(f, g, u, v, r, gc, b), f, g, qa, qb),
{
    let s = g.scale as int;
    let bx = u * s + g.offset_x;
    let by = v * s + g.offset_y;
    assert(bx >= 0 && by >= 0) by (nonlinear_arith)
        requires
            u >= 0,
            v >= 0,
            s >= 1,
            bx == u * s + g.offset_x,
            by == v * s + g.offset_y,
    ;
    lemma_off_nonneg(g, qa, qb);
    if bx >= g.width_pixels || by >= g.height_pixels {
        return;
    }
    if in_block(g, u, v, qa, qb) {
        lemma_rows_hits(f, g, bx, by, 0, qa, qb, r, gc, b);
    } else {
        lemma_rows_keep_pixel(f, g, bx, by, 0, r, gc, b, qa, qb);
    }
}

/// Setting a logical pixel leaves every byte outside the on-screen pixels
/// alone, and the frame's length
proof fn lemma_put_padding(f: Seq<u8>, g: FbGeometry, u: int, v: int, r: u8, gc: u8, b: u8, t: int)
    requires
        rows_apart(g),
        g.scale >= 1,
        u >= 0,
        v >= 0,
        padding_byte(g, t),
        0 <= t < f.len(),
    ensures
        put_spec(f, g, u, v, r, gc, b).len() == f.len(),
        put_spec(f, g, u, v, r, gc, b)[t] == f[t],
{
    let s = g.scale as int;
    let bx = u * s + g.offset_x;
    let by = v * s + g.offset_y;
    assert(bx >= 0 && by >= 0) by (nonlinear_arith)
        requires
            u >= 0,
            v >= 0,
            s >= 1,
            bx == u * s + g.offset_x,
            by == v * s + g.offset_y,
    ;
    if bx < g.width_pixels && by < g.height_pixels {
        lemma_rows_pad(f, g, bx, by, 0, r, gc, b, t);
    }
}

proof fn lemma_row_pad(f: Seq<u8>, g: FbGeometry, bx: int, ay: int, sx: int, r: u8, gc: u8, b: u8, t: int)
    requires
        rows_apart(g),
        0 <= bx,
        0 <= ay < g.height_pixels,
        0 <= sx,
        padding_byte(g, t),
        0 <= t < f.len(),
    ensures
        block_row(f, g, bx, ay, sx, r, gc, b).len() == f.len(),
        block_row(f, g, bx, ay, sx, r, gc, b)[t] == f[t],
    decreases g.scale - sx,
{
    if !(sx < 0 || sx >= g.scale || bx + sx >= g.width_pixels) {
        let f1 = phys_write(f, g, bx + sx, ay, r, gc, b);
        assert(on_screen(g, bx + sx, ay));
        lemma_off_nonneg(g, bx + sx, ay);
        assert(f1.len() == f.len() && f1[t] == f[t]);
        lemma_row_pad(f1, g, bx, ay, sx + 1, r, gc, b, t);
    }
}

proof fn lemma_rows_pad(f: Seq<u8>, g: FbGeometry, bx: int, by: int, sy: int, r: u8, gc: u8, b: u8, t: int)
    requires
        rows_apart(g),
        0 <= bx,
        0 <= by,
        0 <= sy,
        padding_byte(g, t),
        0 <= t < f.len(),
    ensures
        block_rows(f, g, bx, by, sy, r, gc, b).len() == f.len(),
        block_rows(f, g, bx, by, sy, r, gc, b)[t] == f[t],
    decreases g.scale - sy,
{
    if !(sy < 0 || sy >= g.scale || by + sy >= g.height_pixels) {
        lemma_row_pad(f, g, bx, by + sy, 0, r, gc, b, t);
        lemma_rows_pad(block_row(f, g, bx, by + sy, 0, r, gc, b), g, bx, by, sy + 1, r, gc, b, t);
    }
}

/// A physical pixel lies in the block of one logical pixel at most
proof fn lemma_block_unique(g: FbGeometry, u1: int, v1: int, u2: int, v2: int, qa: int, qb: int)
    requires
        g.scale >= 1,
        in_block(g, u1, v1, qa, qb),
        in_block(g, u2, v2, qa, qb),
    ensures
        u1 == u2 && v1 == v2,
{
    let s = g.scale as int;
    assert(u1 == u2) by (nonlinear_arith)
        requires
            s >= 1,
            u1 * s + g.offset_x <= qa < u1 * s + g.offset_x + s,
            u2 * s + g.offset_x <= qa < u2 * s + g.offset_x + s,
    ;
    assert(v1 == v2) by (nonlinear_arith)
        requires
            s >= 1,
            v1 * s + g.offset_y <= qb < v1 * s + g.offset_y + s,
            v2 * s + g.offset_y <= qb < v2 * s + g.offset_y + s,
    ;
}

proof fn lemma_same_sym(f1: Seq<u8>, f2: Seq<u8>, g: FbGeometry, qa: int, qb: int)
    requires
        pixel_same(f1, f2, g, qa, qb),
    ensures
        pixel_same(f2, f1, g, qa, qb),
{
}

proof fn lemma_put_len(f: Seq<u8>, g: FbGeometry, u: int, v: int, r: u8, gc: u8, b: u8)
    requires
        geometry_wf(g),
        g.scale >= 1,
        u >= 0,
        v >= 0,
    ensures
        put_spec(f, g, u, v, r, gc, b).len() == f.len(),
{
    let s = g.scale as int;
    let bx = u * s + g.offset_x;
    let by = v * s + g.offset_y;
    assert(bx >= 0 && by >= 0) by (nonlinear_arith)
        requires
            u >= 0,
            v >= 0,
            s >= 1,
            bx == u * s + g.offset_x,
            by == v * s + g.offset_y,
    ;
    if bx < g.width_pixels && by < g.height_pixels {
        lemma_rows_len(f, g, bx, by, 0, r, gc, b);
    }
}

/// Every logical pixel of the 16 by 16 area at (`x`, `y`) is as setting it
/// to its own color writes it (its block uniform, and the fourth byte 255
/// at 32 bits)
pub open spec fn as_written(f: Seq<u8>, g: FbGeometry, x: int, y: int) -> bool {
    forall|u: int, v: int|
        x <= u < x + 16 && y <= v < y + 16 ==> #[trigger] put_spec(
            f,
            g,
            u,
            v,
            get_spec(f, g, u, v).0,
            get_spec(f, g, u, v).1,
            get_spec(f, g, u, v).2,
        ) == f
}

/// Every saved pixel lies in the 16 by 16 area at (`x`, `y`)
pub open spec fn saved_in_area(saved: Seq<SavedPixel>, x: int, y: int) -> bool {
    forall|j: int| 0 <= j < saved.len() ==> x <= (#[trigger] saved[j]).0 < x + 16 && y <= saved[j].1 < y + 16
}

/// The bytes of physical pixel (`qa`, `qb`) are those of setting it, in
/// `f0`, to some color
pub open spec fn painted(f: Seq<u8>, f0: Seq<u8>, g: FbGeometry, qa: int, qb: int) -> bool {
    exists|c: (u8, u8, u8)| #[trigger] pixel_same(f, phys_write(f0, g, qa, qb, c.0, c.1, c.2), g, qa, qb)
}

/// Pixel (`qa`, `qb`) lies in the block of no saved pixel from `i` on
pub open spec fn outside_saved(saved: Seq<SavedPixel>, i: int, g: FbGeometry, qa: int, qb: int) -> bool {
    forall|j: int| i <= j < saved.len() ==> !in_block(g, (#[trigger] saved[j]).0 as int, saved[j].1 as int, qa, qb)
}

/// Byte by byte, `f` is `f0` but for the on-screen pixels in the blocks of
/// saved pixels from `i` on, which are as in `f0` or as setting them in
/// `f0` to some color makes them
pub open spec fn bytes_inv(f: Seq<u8>, saved: Seq<SavedPixel>, f0: Seq<u8>, g: FbGeometry, i: int) -> bool {
    &&& f.len() == f0.len()
    &&& forall|t: int| 0 <= t < f.len() && #[trigger] padding_byte(g, t) ==> f[t] == f0[t]
    &&& forall|qa: int, qb: int|
        on_screen(g, qa, qb) && #[trigger] outside_saved(saved, i, g, qa, qb) ==> pixel_same(f, f0, g, qa, qb)
    &&& forall|qa: int, qb: int, j: int|
        on_screen(g, qa, qb) && i <= j < saved.len() && #[trigger] in_block(g, saved[j].0 as int, saved[j].1 as int, qa, qb)
            ==> pixel_same(f, f0, g, qa, qb) || painted(f, f0, g, qa, qb)
}

/// A change of `f` that keeps pixel (`qa`, `qb`) keeps it painted
proof fn lemma_painted_keep(f: Seq<u8>, f1: Seq<u8>, f0: Seq<u8>, g: FbGeometry, qa: int, qb: int)
    requires
        painted(f, f0, g, qa, qb),
        pixel_same(f1, f, g, qa, qb),
    ensures
        painted(f1, f0, g, qa, qb),
{
    let c = choose|c: (u8, u8, u8)| #[trigger] pixel_same(f, phys_write(f0, g, qa, qb, c.0, c.1, c.2), g, qa, qb);
    lemma_same_trans(f1, f, phys_write(f0, g, qa, qb, c.0, c.1, c.2), g, qa, qb);
}

/// One more sprite pixel, seen from one on-screen physical pixel
proof fn lemma_bytes_step_at(st: (Seq<u8>, Seq<SavedPixel>), f0: Seq<u8>, g: FbGeometry, bw: int, bh: int, x: int, y: int, k: int, qa: int, qb: int)
    requires
        cursor_inv(st, f0, g, x, y, k),
        bytes_inv(st.0, st.1, f0, g, 0),
        0 <= k < 256,
        x >= 0,
        y >= 0,
        x + 16 <= usize::MAX,
        y + 16 <= usize::MAX,
        on_screen(g, qa, qb),
    ensures
        ({
            let nx = cursor_step(st, g, bw, bh, x, y, k % 16, k / 16);
            &&& outside_saved(nx.1, 0, g, qa, qb) ==> pixel_same(nx.0, f0, g, qa, qb)
            &&& forall|j: int| 0 <= j < nx.1.len() && #[trigger] in_block(g, nx.1[j].0 as int, nx.1[j].1 as int, qa, qb)
                ==> pixel_same(nx.0, f0, g, qa, qb) || painted(nx.0, f0, g, qa, qb)
        }),
{
    let cx = k % 16;
    let cy = k / 16;
    let px = x + cx;
    let py = y + cy;
    let sp = sprite_pixel(cx, cy);
    if px >= bw || py >= bh || sp == 0 {
        return;
    }
    assert forall|j: int| 0 <= j < st.1.len() implies !((#[trigger] st.1[j]).0 == px && st.1[j].1 == py) by {
        let e = st.1[j];
        if e.0 == px && e.1 == py {
            assert((e.1 - y) * 16 + (e.0 - x) == k);
        }
    }
    let o = get_spec(st.0, g, px, py);
    let e = (px as usize, py as usize, o.0, o.1, o.2);
    let saved = st.1.push(e);
    let c = if sp == 1 { 0u8 } else { 255u8 };
    let f1 = if sp == 1 || sp == 2 {
        put_spec(st.0, g, px, py, c, c, c)
    } else {
        st.0
    };
    assert(cursor_step(st, g, bw, bh, x, y, cx, cy) == (f1, saved));
    assert(saved[st.1.len() as int] == e);
    assert(e.0 as int == px && e.1 as int == py);
    if sp == 1 || sp == 2 {
        lemma_put_pixel_bytes(st.0, g, px, py, qa, qb, c, c, c);
    }
    if in_block(g, px, py, qa, qb) {
        assert(outside_saved(st.1, 0, g, qa, qb)) by {
            assert forall|j: int| 0 <= j < st.1.len() implies !in_block(g, (#[trigger] st.1[j]).0 as int, st.1[j].1 as int, qa, qb) by {
                if in_block(g, st.1[j].0 as int, st.1[j].1 as int, qa, qb) {
                    lemma_block_unique(g, st.1[j].0 as int, st.1[j].1 as int, px, py, qa, qb);
                }
            }
        }
        assert(pixel_same(st.0, f0, g, qa, qb));
        if sp == 1 || sp == 2 {
            lemma_off_nonneg(g, qa, qb);
            lemma_phys_same(st.0, f0, g, qa, qb, c, c, c);
            lemma_same_trans(f1, phys_write(st.0, g, qa, qb, c, c, c), phys_write(f0, g, qa, qb, c, c, c), g, qa, qb);
            assert(pixel_same(f1, phys_write(f0, g, qa, qb, (c, c, c).0, (c, c, c).1, (c, c, c).2), g, qa, qb));
            assert(painted(f1, f0, g, qa, qb));
        }
        assert(!outside_saved(saved, 0, g, qa, qb)) by {
            assert(in_block(g, saved[st.1.len() as int].0 as int, saved[st.1.len() as int].1 as int, qa, qb));
        }
    } else {
        if !(sp == 1 || sp == 2) {
            lemma_off_nonneg(g, qa, qb);
        }
        assert(pixel_same(f1, st.0, g, qa, qb));
        if outside_saved(saved, 0, g, qa, qb) {
            assert(outside_saved(st.1, 0, g, qa, qb)) by {
                assert forall|j: int| 0 <= j < st.1.len() implies !in_block(g, (#[trigger] st.1[j]).0 as int, st.1[j].1 as int, qa, qb) by {
                    assert(saved[j] == st.1[j]);
                }
            }
            lemma_same_trans(f1, st.0, f0, g, qa, qb);
        }
        assert forall|j: int| 0 <= j < saved.len() && #[trigger] in_block(g, saved[j].0 as int, saved[j].1 as int, qa, qb)
            implies pixel_same(f1, f0, g, qa, qb) || painted(f1, f0, g, qa, qb) by {
            assert(j < st.1.len());
            assert(saved[j] == st.1[j]);
            assert(in_block(g, st.1[j].0 as int, st.1[j].1 as int, qa, qb));
            if pixel_same(st.0, f0, g, qa, qb) {
                lemma_same_trans(f1, st.0, f0, g, qa, qb);
            } else {
                lemma_painted_keep(st.0, f1, f0, g, qa, qb);
            }
        }
    }
}

/// Drawing one more sprite pixel keeps the byte picture
proof fn lemma_bytes_step(st: (Seq<u8>, Seq<SavedPixel>), f0: Seq<u8>, g: FbGeometry, bw: int, bh: int, x: int, y: int, k: int)
    requires
        cursor_inv(st, f0, g, x, y, k),
        bytes_inv(st.0, st.1, f0, g, 0),
        0 <= k < 256,
        x >= 0,
        y >= 0,
        x + 16 <= usize::MAX,
        y + 16 <= usize::MAX,
    ensures
        bytes_inv(cursor_step(st, g, bw, bh, x, y, k % 16, k / 16).0, cursor_step(st, g, bw, bh, x, y, k % 16, k / 16).1, f0, g, 0),
{
    let cx = k % 16;
    let cy = k / 16;
    let px = x + cx;
    let py = y + cy;
    let sp = sprite_pixel(cx, cy);
    if px >= bw || py >= bh || sp == 0 {
        return;
    }
    assert forall|j: int| 0 <= j < st.1.len() implies !((#[trigger] st.1[j]).0 == px && st.1[j].1 == py) by {
        let e = st.1[j];
        if e.0 == px && e.1 == py {
            assert((e.1 - y) * 16 + (e.0 - x) == k);
        }
    }
    let o = get_spec(st.0, g, px, py);
    let e = (px as usize, py as usize, o.0, o.1, o.2);
    let saved = st.1.push(e);
    let c = if sp == 1 { 0u8 } else { 255u8 };
    let f1 = if sp == 1 || sp == 2 {
        put_spec(st.0, g, px, py, c, c, c)
    } else {
        st.0
    };
    assert(cursor_step(st, g, bw, bh, x, y, cx, cy) == (f1, saved));
    assert(saved[st.1.len() as int] == e);
    assert(e.0 as int == px && e.1 as int == py);
    lemma_put_len(st.0, g, px, py, c, c, c);
    assert forall|t: int| 0 <= t < f1.len() && #[trigger] padding_byte(g, t) implies f1[t] == f0[t] by {
        if sp == 1 || sp == 2 {
            lemma_put_padding(st.0, g, px, py, c, c, c, t);
        }
    }
    assert forall|qa: int, qb: int| on_screen(g, qa, qb) && #[trigger] outside_saved(saved, 0, g, qa, qb)
        implies pixel_same(f1, f0, g, qa, qb) by {
        lemma_bytes_step_at(st, f0, g, bw, bh, x, y, k, qa, qb);
    }
    assert forall|qa: int, qb: int, j: int|
        on_screen(g, qa, qb) && 0 <= j < saved.len() && #[trigger] in_block(g, saved[j].0 as int, saved[j].1 as int, qa, qb)
            implies pixel_same(f1, f0, g, qa, qb) || painted(f1, f0, g, qa, qb) by {
        lemma_bytes_step_at(st, f0, g, bw, bh, x, y, k, qa, qb);
    }
    assert(f1.len() == f0.len());
}

proof fn lemma_bytes_from(st: (Seq<u8>, Seq<SavedPixel>), f0: Seq<u8>, g: FbGeometry, bw: int, bh: int, x: int, y: int, k: int)
    requires
        cursor_inv(st, f0, g, x, y, k),
        bytes_inv(st.0, st.1, f0, g, 0),
        0 <= k <= 256,
        x >= 0,
        y >= 0,
        x + 16 <= usize::MAX,
        y + 16 <= usize::MAX,
    ensures
        bytes_inv(cursor_from(st, g, bw, bh, x, y, k).0, cursor_from(st, g, bw, bh, x, y, k).1, f0, g, 0),
    decreases 256 - k,
{
    if k < 256 {
        lemma_cursor_step(st, f0, g, bw, bh, x, y, k);
        lemma_bytes_step(st, f0, g, bw, bh, x, y, k);
        lemma_bytes_from(cursor_step(st, g, bw, bh, x, y, k % 16, k / 16), f0, g, bw, bh, x, y, k + 1);
    }
}

/// Writing back saved pixel `i`, seen from one on-screen physical pixel
proof fn lemma_restore_bytes_at(f: Seq<u8>, f0: Seq<u8>, g: FbGeometry, saved: Seq<SavedPixel>, i: int, qa: int, qb: int, x: int, y: int)
    requires
        full_frame(f0, g),
        as_written(f0, g, x, y),
        saved_in_area(saved, x, y),
        bytes_inv(f, saved, f0, g, i),
        0 <= i < saved.len(),
        (saved[i].2, saved[i].3, saved[i].4) == get_spec(f0, g, saved[i].0 as int, saved[i].1 as int),
        on_screen(g, qa, qb),
    ensures
        ({
            let e = saved[i];
            let f1 = put_spec(f, g, e.0 as int, e.1 as int, e.2, e.3, e.4);
            &&& outside_saved(saved, i + 1, g, qa, qb) ==> pixel_same(f1, f0, g, qa, qb)
            &&& forall|j: int| i + 1 <= j < saved.len() && #[trigger] in_block(g, saved[j].0 as int, saved[j].1 as int, qa, qb)
                ==> pixel_same(f1, f0, g, qa, qb) || painted(f1, f0, g, qa, qb)
        }),
{
    let e = saved[i];
    let px = e.0 as int;
    let py = e.1 as int;
    let f1 = put_spec(f, g, px, py, e.2, e.3, e.4);
    lemma_off_nonneg(g, qa, qb);
    lemma_put_pixel_bytes(f, g, px, py, qa, qb, e.2, e.3, e.4);
    if in_block(g, px, py, qa, qb) {
        let w = phys_write(f, g, qa, qb, e.2, e.3, e.4);
        let w0 = phys_write(f0, g, qa, qb, e.2, e.3, e.4);
        assert(in_block(g, saved[i].0 as int, saved[i].1 as int, qa, qb));
        if pixel_same(f, f0, g, qa, qb) {
            lemma_phys_same(f, f0, g, qa, qb, e.2, e.3, e.4);
        } else {
            assert(painted(f, f0, g, qa, qb));
            let c = choose|c: (u8, u8, u8)| #[trigger] pixel_same(f, phys_write(f0, g, qa, qb, c.0, c.1, c.2), g, qa, qb);
            let pc = phys_write(f0, g, qa, qb, c.0, c.1, c.2);
            lemma_phys_same(f, pc, g, qa, qb, e.2, e.3, e.4);
            lemma_phys_twice(f0, g, qa, qb, c.0, c.1, c.2, e.2, e.3, e.4);
            lemma_same_trans(w, phys_write(pc, g, qa, qb, e.2, e.3, e.4), w0, g, qa, qb);
        }
        let back = put_spec(
            f0,
            g,
            px,
            py,
            get_spec(f0, g, px, py).0,
            get_spec(f0, g, px, py).1,
            get_spec(f0, g, px, py).2,
        );
        assert(back == f0);
        assert(put_spec(f0, g, px, py, e.2, e.3, e.4) == back);
        lemma_put_pixel_bytes(f0, g, px, py, qa, qb, e.2, e.3, e.4);
        lemma_same_sym(f0, w0, g, qa, qb);
        lemma_same_trans(f1, w, w0, g, qa, qb);
        lemma_same_trans(f1, w0, f0, g, qa, qb);
    } else {
        assert(pixel_same(f1, f, g, qa, qb));
        if outside_saved(saved, i + 1, g, qa, qb) {
            assert(outside_saved(saved, i, g, qa, qb));
            lemma_same_trans(f1, f, f0, g, qa, qb);
        }
        assert forall|j: int| i + 1 <= j < saved.len() && #[trigger] in_block(g, saved[j].0 as int, saved[j].1 as int, qa, qb)
            implies pixel_same(f1, f0, g, qa, qb) || painted(f1, f0, g, qa, qb) by {
            if pixel_same(f, f0, g, qa, qb) {
                lemma_same_trans(f1, f, f0, g, qa, qb);
            } else {
                lemma_painted_keep(f, f1, f0, g, qa, qb);
            }
        }
    }
}

/// Writing back saved pixels `i`.. onto a frame that differs from `f0` only
/// in their blocks gives `f0` back, byte for byte
proof fn lemma_restore_bytes(f: Seq<u8>, f0: Seq<u8>, g: FbGeometry, saved: Seq<SavedPixel>, i: int, x: int, y: int)
    requires
        full_frame(f0, g),
        as_written(f0, g, x, y),
        saved_in_area(saved, x, y),
        bytes_inv(f, saved, f0, g, i),
        0 <= i <= saved.len(),
        forall|j: int| 0 <= j < saved.len() ==> {
            let e = #[trigger] saved[j];
            (e.2, e.3, e.4) == get_spec(f0, g, e.0 as int, e.1 as int)
        },
    ensures
        restore_from(f, g, saved, i) == f0,
    decreases saved.len() - i,
{
    if i >= saved.len() {
        assert forall|t: int| 0 <= t < f.len() implies f[t] == f0[t] by {
            if !padding_byte(g, t) {
                let (qa, qb) = choose|qa: int, qb: int| #[trigger] on_screen(g, qa, qb) && pix_off(g, qa, qb) <= t
                    < pix_off(g, qa, qb) + g.bytes_per_pixel;
                assert(outside_saved(saved, i, g, qa, qb));
                assert(pixel_same(f, f0, g, qa, qb));
                let d = t - pix_off(g, qa, qb);
                assert(f[pix_off(g, qa, qb) + d] == f0[pix_off(g, qa, qb) + d]);
            }
        }
        assert(f =~= f0);
        return;
    }
    let e = saved[i];
    let px = e.0 as int;
    let py = e.1 as int;
    let f1 = put_spec(f, g, px, py, e.2, e.3, e.4);
    lemma_put_len(f, g, px, py, e.2, e.3, e.4);
    assert forall|t: int| 0 <= t < f1.len() && #[trigger] padding_byte(g, t) implies f1[t] == f0[t] by {
        lemma_put_padding(f, g, px, py, e.2, e.3, e.4, t);
    }
    assert forall|qa: int, qb: int| on_screen(g, qa, qb) && #[trigger] outside_saved(saved, i + 1, g, qa, qb)
        implies pixel_same(f1, f0, g, qa, qb) by {
        lemma_restore_bytes_at(f, f0, g, saved, i, qa, qb, x, y);
    }
    assert forall|qa: int, qb: int, j: int|
        on_screen(g, qa, qb) && i + 1 <= j < saved.len() && #[trigger] in_block(g, saved[j].0 as int, saved[j].1 as int, qa, qb)
            implies pixel_same(f1, f0, g, qa, qb) || painted(f1, f0, g, qa, qb) by {
        lemma_restore_bytes_at(f, f0, g, saved, i, qa, qb, x, y);
    }
    assert(bytes_inv(f1, saved, f0, g, i + 1));
    lemma_restore_bytes(f1, f0, g, saved, i + 1, x, y);
    assert(restore_from(f, g, saved, i) == restore_from(f1, g, saved, i + 1));
}

/// Drawing the mouse cursor at (`x`, `y`) and then writing back the pixels
/// it saved gives back the frame byte for byte, in every pixel format,
/// when every logical pixel of the 16 by 16 cursor area was as setting it
/// to its color writes it (a uniform block, and the fourth byte 255 at 32
/// bits), on a frame that holds every screen line, with lines that hold a
/// whole screen row.
pub proof fn law_cursor_restore_exact(f0: Seq<u8>, g: FbGeometry, bw: int, bh: int, x: int, y: int)
    requires
        full_frame(f0, g),
        as_written(f0, g, x, y),
        x >= 0,
        y >= 0,
        x + 16 <= usize::MAX,
        y + 16 <= usize::MAX,
    ensures
        restore_from(
            cursor_from((f0, Seq::empty()), g, bw, bh, x, y, 0).0,
            g,
            cursor_from((f0, Seq::empty()), g, bw, bh, x, y, 0).1,
            0,
        ) == f0,
{
    let st0: (Seq<u8>, Seq<SavedPixel>) = (f0, Seq::empty());
    assert forall|qa: int, qb: int| on_screen(g, qa, qb) && #[trigger] outside_saved(st0.1, 0, g, qa, qb)
        implies pixel_same(st0.0, f0, g, qa, qb) by {
    }
    lemma_cursor_from(st0, f0, g, bw, bh, x, y, 0);
    lemma_bytes_from(st0, f0, g, bw, bh, x, y, 0);
    let st = cursor_from(st0, g, bw, bh, x, y, 0);
    assert forall|j: int| 0 <= j < st.1.len() implies x <= (#[trigger] st.1[j]).0 < x + 16 && y <= st.1[j].1 < y + 16 by {
        let e = st.1[j];
        assert((e.1 - y) * 16 + (e.0 - x) < 256);
    }
    lemma_restore_bytes(st.0, f0, g, st.1, 0, x, y);
}

} // verus!
