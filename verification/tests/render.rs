use std::io::Write;

use flate2::write::GzEncoder;
use flate2::Compression;
use term39::color::UiColor;
use term39::font::{decode_utf8, embedded_font_for, font_candidate, font_candidates_for, validate_font_name, EmbeddedFont, FontError, FontManager, FontNameError, FontSource};
use term39::font_list::{arrange_font_list, font_name_from_file};
use term39::framebuffer::{get_pixel, put_pixel, FbGeometry, FramebufferRenderer, ScreenInfo};
use term39::text_modes::{TextMode, TextModeKind};

/// A PSF1 font of 256 glyphs, 8x16, where glyph 'A' has its top row full
/// and its leftmost column set
fn psf1_font_bytes() -> Vec<u8> {
    let mut data = vec![0x36, 0x04, 0x00, 16];
    let mut glyphs = vec![0u8; 256 * 16];
    let a = 65 * 16;
    glyphs[a] = 0xFF;
    for r in 1..16 {
        glyphs[a + r] = 0x80;
    }
    data.extend_from_slice(&glyphs);
    data
}

fn geometry32(w: usize, h: usize, scale: usize) -> FbGeometry {
    FbGeometry {
        width_pixels: w,
        height_pixels: h,
        bytes_per_pixel: 4,
        line_length: w * 4,
        scale,
        offset_x: 0,
        offset_y: 0,
        r_offset: 2,
        g_offset: 1,
        b_offset: 0,
    }
}

#[test]
fn psf1_font_parses_and_draws() {
    let f = FontManager::from_bytes(&psf1_font_bytes()).unwrap();
    assert_eq!((f.width, f.height, f.glyph_count, f.bytes_per_glyph), (8, 16, 256, 16));
    assert_eq!(f.debug_info(), "Font: 8x16, 256 glyphs, 16 bytes/glyph, 4096 total bytes");
    let g = f.get_glyph('A').to_vec();
    assert_eq!(g.len(), 16);
    assert!(f.is_pixel_set(&g, 0, 0));
    assert!(f.is_pixel_set(&g, 7, 0));
    assert!(f.is_pixel_set(&g, 0, 9));
    assert!(!f.is_pixel_set(&g, 3, 9));
}

#[test]
fn font_errors() {
    assert!(matches!(FontManager::from_bytes(&[0x36]), Err(FontError::UnexpectedEof)));
    assert!(matches!(FontManager::from_bytes(&[1, 2, 3, 4, 5, 6]), Err(FontError::UnknownFormat(0x04030201))));
}

#[test]
fn gzip_font_loads() {
    let mut enc = GzEncoder::new(Vec::new(), Compression::default());
    enc.write_all(&psf1_font_bytes()).unwrap();
    let gz = enc.finish().unwrap();
    let f = FontManager::load_from_gzip_bytes(&gz).unwrap();
    assert_eq!(f.glyph_count, 256);
    assert!(FontManager::load_from_gzip_bytes(&[1, 2, 3]).is_err());
}

#[test]
fn gzip_font_reads_only_what_it_needs() {
    let mut enc = GzEncoder::new(Vec::new(), Compression::default());
    enc.write_all(&psf1_font_bytes()).unwrap();
    let mut gz = enc.finish().unwrap();
    let n = gz.len();
    gz[n - 8] ^= 0xFF;
    let f = FontManager::load_from_gzip_bytes(&gz).unwrap();
    assert_eq!(f.glyph_count, 256);
    assert!(f.unicode_map.is_empty());

    let mut with_table = psf1_font_bytes();
    with_table[2] = 0x02;
    with_table.extend_from_slice(&[0x41, 0x00, 0xFF, 0xFF]);
    let mut enc = GzEncoder::new(Vec::new(), Compression::default());
    enc.write_all(&with_table).unwrap();
    let good = enc.finish().unwrap();
    assert!(FontManager::load_from_gzip_bytes(&good).is_ok());
    let mut bad = good.clone();
    let m = bad.len();
    bad[m - 8] ^= 0xFF;
    assert!(matches!(FontManager::load_from_gzip_bytes(&bad), Err(FontError::Decompress)));
}

#[test]
fn utf8_and_font_names() {
    assert_eq!(decode_utf8(&[0x41]), (0x41, 1));
    assert_eq!(decode_utf8(&[0xC3, 0xA9]), (0xE9, 2));
    assert_eq!(decode_utf8(&[0xE2, 0x82, 0xAC]), (0x20AC, 3));
    assert_eq!(decode_utf8(&[0xF0, 0x9F, 0x98, 0x80]), (0x1F600, 4));
    assert_eq!(validate_font_name("Uni3-Terminus16"), Ok(()));
    assert_eq!(validate_font_name(""), Err(FontNameError::BadLength));
    assert_eq!(validate_font_name("../etc"), Err(FontNameError::PathSeparator));
    assert_eq!(validate_font_name("a b"), Err(FontNameError::BadCharacter));
    assert_eq!(embedded_font_for(8, 16), EmbeddedFont::TerV16n);
    assert_eq!(embedded_font_for(12, 24), EmbeddedFont::TerV32n);
    assert_eq!(FontManager::font_source("[Embedded] ter-v32n"), FontSource::Embedded(EmbeddedFont::TerV32n));
    assert_eq!(FontManager::font_source("Lat2-Terminus16"), FontSource::Console("Lat2-Terminus16".to_string()));
}

#[test]
fn font_candidates_exact_then_near() {
    let v = font_candidates_for(8, 14);
    let first = font_candidate(v[0]);
    assert_eq!((first.1, first.2), (8, 14));
    assert!(v.iter().any(|&i| font_candidate(i).2 == 16));
    assert!(font_candidates_for(40, 40).is_empty());
}

#[test]
fn pixels_round_trip() {
    let g = geometry32(8, 4, 1);
    let mut frame = vec![0u8; 8 * 4 * 4];
    put_pixel(&mut frame, g, 3, 2, 10, 20, 30);
    assert_eq!(get_pixel(&frame, g, 3, 2), (10, 20, 30));
    assert_eq!(get_pixel(&frame, g, 2, 2), (0, 0, 0));
    assert_eq!(&frame[(2 * 32 + 12)..(2 * 32 + 16)], &[30, 20, 10, 255]);
    put_pixel(&mut frame, g, 9, 9, 1, 1, 1);
    assert_eq!(frame.iter().filter(|&&b| b != 0).count(), 4);
}

#[test]
fn scaled_pixels_fill_blocks() {
    let g = geometry32(8, 8, 2);
    let mut frame = vec![0u8; 8 * 8 * 4];
    put_pixel(&mut frame, g, 1, 1, 255, 0, 0);
    for (x, y) in [(2, 2), (3, 2), (2, 3), (3, 3)] {
        assert_eq!(frame[y * 32 + x * 4 + 2], 255);
    }
    assert_eq!(frame[4 * 32 + 2 * 4 + 2], 0);
    assert_eq!(get_pixel(&frame, g, 1, 1), (255, 0, 0));
}

#[test]
fn rgb565_pixels() {
    let g = FbGeometry { bytes_per_pixel: 2, line_length: 8, ..geometry32(4, 2, 1) };
    let mut frame = vec![0u8; 16];
    put_pixel(&mut frame, g, 1, 0, 255, 255, 255);
    assert_eq!(&frame[2..4], &[0xFF, 0xFF]);
    assert_eq!(get_pixel(&frame, g, 1, 0), (255, 255, 255));
}

fn small_renderer() -> FramebufferRenderer {
    let font = FontManager::from_bytes(&psf1_font_bytes()).unwrap();
    let mut mode = TextMode::new(TextModeKind::Mode40x25);
    mode.cols = 2;
    mode.rows = 1;
    let info = ScreenInfo { xres: 40, yres: 20, bits_per_pixel: 32, red_offset: 16, green_offset: 8, blue_offset: 0, line_length: 160 };
    FramebufferRenderer::new(mode, None, font, info, vec![0u8; 160 * 20])
}

#[test]
fn renderer_scale_and_offsets() {
    let r = small_renderer();
    assert_eq!(r.scale(), 1);
    assert_eq!(r.offsets(), (12, 2));
    assert_eq!(r.dimensions(), (2, 1));
    assert_eq!(r.pixel_dimensions(), (16, 16));
    assert_eq!(r.geometry.r_offset, 2);
}

#[test]
fn renderer_draws_glyph() {
    let mut r = small_renderer();
    r.render_char(1, 0, 'A', UiColor::White, UiColor::Black);
    let g = r.geometry;
    assert_eq!(get_pixel(&r.frame, g, 8, 0), (255, 255, 255));
    assert_eq!(get_pixel(&r.frame, g, 8, 5), (255, 255, 255));
    assert_eq!(get_pixel(&r.frame, g, 10, 5), (0, 0, 0));
    r.render_char(5, 0, 'A', UiColor::White, UiColor::Black);
    assert_eq!(get_pixel(&r.frame, g, 0, 0), (0, 0, 0));
}

#[test]
fn cursor_draw_and_restore() {
    let mut r = small_renderer();
    r.render_char(0, 0, 'A', UiColor::White, UiColor::Black);
    r.render_char(1, 0, ' ', UiColor::White, UiColor::Black);
    let before = r.frame.clone();
    r.draw_cursor(1, 1);
    assert_ne!(r.frame, before);
    assert!(!r.cursor_saved_pixels.is_empty());
    r.restore_cursor_area();
    assert_eq!(r.frame, before);
    assert!(r.cursor_saved_pixels.is_empty());
    r.set_cursor_visible(false);
    r.draw_cursor(1, 1);
    assert_eq!(r.frame, before);
}

#[test]
fn cursor_restore_in_rgb565() {
    let font = FontManager::from_bytes(&psf1_font_bytes()).unwrap();
    let mut mode = TextMode::new(TextModeKind::Mode40x25);
    mode.cols = 2;
    mode.rows = 1;
    let info = ScreenInfo { xres: 40, yres: 20, bits_per_pixel: 16, red_offset: 11, green_offset: 5, blue_offset: 0, line_length: 80 };
    let mut r = FramebufferRenderer::new(mode, None, font, info, vec![0u8; 80 * 20]);
    assert_eq!(r.geometry.bytes_per_pixel, 2);
    r.render_char(0, 0, 'A', UiColor::Cyan, UiColor::Blue);
    r.render_char(1, 0, ' ', UiColor::Yellow, UiColor::Red);
    let g = r.geometry;
    let colors: Vec<(u8, u8, u8)> = (0..16).flat_map(|y| (0..16).map(move |x| (x, y))).map(|(x, y)| get_pixel(&r.frame, g, x, y)).collect();
    let before = r.frame.clone();
    r.draw_cursor(3, 2);
    assert_ne!(r.frame, before);
    r.restore_cursor_area();
    assert_eq!(r.frame, before);
    let after: Vec<(u8, u8, u8)> = (0..16).flat_map(|y| (0..16).map(move |x| (x, y))).map(|(x, y)| get_pixel(&r.frame, g, x, y)).collect();
    assert_eq!(after, colors);
}

#[test]
fn font_names_from_files() {
    assert_eq!(font_name_from_file("Lat2-Terminus16.psf.gz"), Some("Lat2-Terminus16".to_string()));
    assert_eq!(font_name_from_file("ter-116n.psfu"), Some("ter-116n".to_string()));
    assert_eq!(font_name_from_file("odd.psf.psf"), Some("odd".to_string()));
    assert_eq!(font_name_from_file("a.psf.gz.psf"), Some("a.psf.gz".to_string()));
    assert_eq!(font_name_from_file("README.txt"), None);
}

#[test]
fn font_list_order() {
    let e = |n: &str, w: usize, h: usize| (n.to_string(), w, h);
    let out = arrange_font_list(vec![
        e("b", 8, 16),
        e("[Embedded] ter-v32n", 16, 32),
        e("a", 8, 16),
        e("c", 8, 8),
        e("[Embedded] ter-v16n", 8, 16),
        e("a", 8, 16),
    ]);
    assert_eq!(
        out,
        vec![e("[Embedded] ter-v16n", 8, 16), e("[Embedded] ter-v32n", 16, 32), e("c", 8, 8), e("a", 8, 16), e("b", 8, 16)]
    );
    assert!(arrange_font_list(vec![]).is_empty());
}

#[test]
fn mode_names_read_back() {
    for k in TextModeKind::all_modes() {
        assert_eq!(TextModeKind::from_str(k.name()), Some(k));
        assert_eq!(TextModeKind::from_str(&k.name().to_uppercase()), Some(k));
    }
    assert_eq!(TextModeKind::from_str("80X43"), Some(TextModeKind::Mode80x43));
}

#[test]
fn decoding_encoded_chars_gives_them_back() {
    for c in ['A', '\u{e9}', '\u{2550}', '\u{20ac}', '\u{1f600}', '\u{7f}', '\u{10ffff}'] {
        let mut buf = [0u8; 4];
        let mut bytes = c.encode_utf8(&mut buf).as_bytes().to_vec();
        bytes.extend_from_slice(&[0x41, 0xFF]);
        assert_eq!(decode_utf8(&bytes), (c as u32, c.len_utf8()));
    }
    assert_eq!(decode_utf8(&[0xE2, 0x95, 0x90]), (0x2550, 3));
    assert_eq!(decode_utf8(&[]), (0, 0));
    assert_eq!(decode_utf8(&[0x80]), (0, 0));
    assert_eq!(decode_utf8(&[0xF8, 0x80, 0x80, 0x80]), (0, 0));
    assert_eq!(decode_utf8(&[0xE2, 0x95]), (0, 0));
}
