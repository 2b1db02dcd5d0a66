//! PC Screen Font (PSF1 and PSF2) bitmap fonts: header parsing, Unicode
//! tables, glyph lookup and pixel tests.

use vstd::prelude::*;
use vstd::string::StringSliceAdditionalSpecFns;
use vstd::utf8::encode_utf8;
use std::collections::HashMap;
use std::io::Read;
use crate::text::{decimal, push_decimal, push_str_chars, string_from_chars};

verus! {

broadcast use vstd::std_specs::hash::group_hash_axioms;

/// PSF2 file magic number
pub const PSF2_MAGIC: u32 = 0x864ab572;

/// PSF1 file magic number
pub const PSF1_MAGIC: u16 = 0x0436;

/// PSF1 mode flag: 512 glyphs instead of 256
pub const PSF1_MODE512: u8 = 0x01;

/// PSF1 mode flag: a Unicode table follows the glyphs
pub const PSF1_MODEHASTAB: u8 = 0x02;

/// Why a font could not be read
#[derive(Debug, Clone, Copy, PartialEq, Eq, Structural)]
pub enum FontError {
    /// Fewer header bytes than the format needs
    HeaderTooSmall,
    /// The PSF1 magic number is wrong (the value found)
    InvalidPsf1Magic(u16),
    /// The PSF2 magic number is wrong (the value found)
    InvalidPsf2Magic(u32),
    /// Neither PSF1 nor PSF2 (the first four bytes, little-endian)
    UnknownFormat(u32),
    /// The data ends before the glyphs do
    UnexpectedEof,
    /// The PSF2 header size is smaller than the header itself
    InvalidHeaderSize(u32),
    /// The glyph count times the glyph size does not fit in 32 bits
    GlyphDataTooLarge,
    /// The compressed data could not be decompressed
    Decompress,
}

/// Little-endian 16-bit value at `i`
pub open spec fn le16(b: Seq<u8>, i: int) -> int {
    b[i] + b[i + 1] * 256
}

/// Little-endian 32-bit value at `i`
pub open spec fn le32(b: Seq<u8>, i: int) -> int {
    b[i] + b[i + 1] * 256 + b[i + 2] * 65536 + b[i + 3] * 16777216
}

fn read_le16(b: &[u8], i: usize) -> (v: u16)
    requires
        i + 1 < b@.len(),
    ensures
        v == le16(b@, i as int),
{
    (b[i] as u16) + (b[i + 1] as u16) * 256
}

fn read_le32(b: &[u8], i: usize) -> (v: u32)
    requires
        i + 3 < b@.len(),
    ensures
        v == le32(b@, i as int),
{
    (b[i] as u32) + (b[i + 1] as u32) * 256 + (b[i + 2] as u32) * 65536 + (b[i + 3] as u32)
        * 16777216
}

/// PSF1 header: magic, mode flags, glyph height (glyphs are 8 pixels wide)
#[derive(Debug, Clone, Copy, PartialEq, Eq, Structural)]
pub struct Psf1Header {
    pub magic: u16,
    pub mode: u8,
    pub charsize: u8,
}

impl Psf1Header {
    /// Parse the 4-byte PSF1 header
    pub fn from_bytes(bytes: &[u8]) -> (r: Result<Self, FontError>)
        ensures
            bytes@.len() < 4 ==> r == Err::<Self, FontError>(FontError::HeaderTooSmall),
            bytes@.len() >= 4 && le16(bytes@, 0) != PSF1_MAGIC ==> r == Err::<Self, FontError>(
                FontError::InvalidPsf1Magic(le16(bytes@, 0) as u16),
            ),
            bytes@.len() >= 4 && le16(bytes@, 0) == PSF1_MAGIC ==> r == Ok::<Self, FontError>(
                Psf1Header { magic: PSF1_MAGIC, mode: bytes@[2], charsize: bytes@[3] },
            ),
    {
        if bytes.len() < 4 {
            return Err(FontError::HeaderTooSmall);
        }
        let magic = read_le16(bytes, 0);
        if magic != PSF1_MAGIC {
            return Err(FontError::InvalidPsf1Magic(magic));
        }
        Ok(Psf1Header { magic, mode: bytes[2], charsize: bytes[3] })
    }

    /// 512 glyphs when the mode says so, else 256
    pub fn glyph_count(&self) -> (n: usize)
        ensures
            n == if self.mode % 2 == 1 {
                512usize
            } else {
                256usize
            },
    {
        let m = self.mode;
        assert((m & 1u8) != 0 <==> m % 2 == 1) by (bit_vector);
        if self.mode & PSF1_MODE512 != 0 {
            512
        } else {
            256
        }
    }
}

/// PSF2 header: eight little-endian 32-bit fields
#[derive(Debug, Clone, Copy, PartialEq, Eq, Structural)]
pub struct Psf2Header {
    pub magic: u32,
    pub version: u32,
    pub headersize: u32,
    pub flags: u32,
    pub length: u32,
    pub charsize: u32,
    pub height: u32,
    pub width: u32,
}

/// The PSF2 header held in the first 32 bytes
pub open spec fn psf2_header_of(b: Seq<u8>) -> Psf2Header {
    Psf2Header {
        magic: le32(b, 0) as u32,
        version: le32(b, 4) as u32,
        headersize: le32(b, 8) as u32,
        flags: le32(b, 12) as u32,
        length: le32(b, 16) as u32,
        charsize: le32(b, 20) as u32,
        height: le32(b, 24) as u32,
        width: le32(b, 28) as u32,
    }
}

impl Psf2Header {
    /// Parse the 32-byte PSF2 header
    pub fn from_bytes(bytes: &[u8]) -> (r: Result<Self, FontError>)
        ensures
            bytes@.len() < 32 ==> r == Err::<Self, FontError>(FontError::HeaderTooSmall),
            bytes@.len() >= 32 && le32(bytes@, 0) != PSF2_MAGIC ==> r == Err::<Self, FontError>(
                FontError::InvalidPsf2Magic(le32(bytes@, 0) as u32),
            ),
            bytes@.len() >= 32 && le32(bytes@, 0) == PSF2_MAGIC ==> r == Ok::<Self, FontError>(
                psf2_header_of(bytes@),
            ),
    {
        if bytes.len() < 32 {
            return Err(FontError::HeaderTooSmall);
        }
        let magic = read_le32(bytes, 0);
        if magic != PSF2_MAGIC {
            return Err(FontError::InvalidPsf2Magic(magic));
        }
        Ok(Psf2Header {
            magic,
            version: read_le32(bytes, 4),
            headersize: read_le32(bytes, 8),
            flags: read_le32(bytes, 12),
            length: read_le32(bytes, 16),
            charsize: read_le32(bytes, 20),
            height: read_le32(bytes, 24),
            width: read_le32(bytes, 28),
        })
    }
}

/// The first UTF-8 character of `d` as (code point, bytes used), or (0, 0)
/// when there is none. Continuation bytes are not checked, and neither are
/// overlong forms or surrogates.
pub open spec fn utf8_first(d: Seq<u8>) -> (u32, usize) {
    if d.len() == 0 {
        (0, 0)
    } else {
        let b0 = d[0];
        if b0 < 0x80 {
            (b0 as u32, 1)
        } else if b0 < 0xC0 {
            (0, 0)
        } else if b0 < 0xE0 {
            if d.len() < 2 {
                (0, 0)
            } else {
                (((b0 % 32) * 64 + d[1] % 64) as u32, 2)
            }
        } else if b0 < 0xF0 {
            if d.len() < 3 {
                (0, 0)
            } else {
                (((b0 % 16) * 4096 + (d[1] % 64) * 64 + d[2] % 64) as u32, 3)
            }
        } else if b0 < 0xF8 {
            if d.len() < 4 {
                (0, 0)
            } else {
                (((b0 % 8) * 262144 + (d[1] % 64) * 4096 + (d[2] % 64) * 64 + d[3] % 64) as u32, 4)
            }
        } else {
            (0, 0)
        }
    }
}

/// Decode a single UTF-8 character: (code point, bytes consumed), or (0, 0)
/// on error
pub fn decode_utf8(data: &[u8]) -> (r: (u32, usize))
    ensures
        r == utf8_first(data@),
{
    if data.len() == 0 {
        return (0, 0);
    }
    let b0 = data[0];
    if b0 < 0x80 {
        return (b0 as u32, 1);
    }
    if b0 < 0xC0 {
        return (0, 0);
    }
    if b0 < 0xE0 {
        if data.len() < 2 {
            return (0, 0);
        }
        let cp = ((b0 as u32) % 32) * 64 + (data[1] as u32) % 64;
        return (cp, 2);
    }
    if b0 < 0xF0 {
        if data.len() < 3 {
            return (0, 0);
        }
        let cp = ((b0 as u32) % 16) * 4096 + ((data[1] as u32) % 64) * 64 + (data[2] as u32) % 64;
        return (cp, 3);
    }
    if b0 < 0xF8 {
        if data.len() < 4 {
            return (0, 0);
        }
        let cp = ((b0 as u32) % 8) * 262144 + ((data[1] as u32) % 64) * 4096 + ((data[2] as u32)
            % 64) * 64 + (data[3] as u32) % 64;
        return (cp, 4);
    }
    (0, 0)
}

proof fn lemma_utf8_width_1(c: u32, b0: u8)
    by (bit_vector)
    requires
        c <= 0x7F,
        b0 == (c & 0x7F) as u8,
    ensures
        b0 < 0x80,
        b0 as u32 == c,
{
}

proof fn lemma_utf8_width_2(c: u32, b0: u8, b1: u8)
    by (bit_vector)
    requires
        0x80 <= c <= 0x7FF,
        b0 == 0xC0 | ((c >> 6) & 0x1F) as u8,
        b1 == 0x80 | (c & 0x3F) as u8,
    ensures
        0xC0 <= b0 < 0xE0,
        (b0 % 32) as u32 * 64 + (b1 % 64) as u32 == c,
{
}

proof fn lemma_utf8_width_3(c: u32, b0: u8, b1: u8, b2: u8)
    by (bit_vector)
    requires
        0x800 <= c <= 0xFFFF,
        b0 == 0xE0 | ((c >> 12) & 0x0F) as u8,
        b1 == 0x80 | ((c >> 6) & 0x3F) as u8,
        b2 == 0x80 | (c & 0x3F) as u8,
    ensures
        0xE0 <= b0 < 0xF0,
        (b0 % 16) as u32 * 4096 + (b1 % 64) as u32 * 64 + (b2 % 64) as u32 == c,
{
}

proof fn lemma_utf8_width_4(c: u32, b0: u8, b1: u8, b2: u8, b3: u8)
    by (bit_vector)
    requires
        0x10000 <= c <= 0x10FFFF,
        b0 == 0xF0 | ((c >> 18) & 0x7) as u8,
        b1 == 0x80 | ((c >> 12) & 0x3F) as u8,
        b2 == 0x80 | ((c >> 6) & 0x3F) as u8,
        b3 == 0x80 | (c & 0x3F) as u8,
    ensures
        0xF0 <= b0 < 0xF8,
        (b0 % 8) as u32 * 262144 + (b1 % 64) as u32 * 4096 + (b2 % 64) as u32 * 64 + (b3 % 64) as u32 == c,
{
}

/// Decoding the UTF-8 bytes of a character, whatever follows them, gives
/// back the character and the number of its bytes.
pub proof fn law_decode_encoded_char(c: char, rest: Seq<u8>)
    ensures
        utf8_first(encode_utf8(seq![c]) + rest) == (c as u32, encode_utf8(seq![c]).len() as usize),
{
    let v = c as u32;
    vstd::utf8::char_is_scalar(c);
    let e = vstd::utf8::encode_scalar(v);
    assert(encode_utf8(seq![c]) =~= e) by {
        assert(seq![c].drop_first() =~= Seq::<char>::empty());
        assert(encode_utf8(Seq::<char>::empty()) =~= Seq::<u8>::empty());
        assert(e + Seq::<u8>::empty() =~= e);
    }
    let d = e + rest;
    if vstd::utf8::has_width_1_encoding(v) {
        lemma_utf8_width_1(v, e[0]);
        assert(d[0] == e[0]);
    } else if vstd::utf8::has_width_2_encoding(v) {
        lemma_utf8_width_2(v, e[0], e[1]);
        assert(d[0] == e[0] && d[1] == e[1]);
    } else if vstd::utf8::has_width_3_encoding(v) {
        lemma_utf8_width_3(v, e[0], e[1], e[2]);
        assert(d[0] == e[0] && d[1] == e[1] && d[2] == e[2]);
    } else {
        lemma_utf8_width_4(v, e[0], e[1], e[2], e[3]);
        assert(d[0] == e[0] && d[1] == e[1] && d[2] == e[2] && d[3] == e[3]);
    }
}

/// The PSF2 Unicode table from byte `pos` on, for glyph `glyph` of `count`:
/// each glyph's entry is a run of UTF-8 characters ended by 0xFF; 0xFE starts
/// a combining sequence that is skipped up to the 0xFF. Every character maps
/// to the glyph; later entries win. Undecodable bytes are skipped.
pub open spec fn psf2_table(
    d: Seq<u8>,
    count: int,
    pos: int,
    glyph: int,
    skipping: bool,
    m: Map<u32, usize>,
) -> Map<u32, usize>
    decreases d.len() - pos, if skipping {
        1int
    } else {
        0int
    },
{
    if pos < 0 || pos >= d.len() || glyph >= count {
        m
    } else if skipping {
        if d[pos] == 0xFF {
            psf2_table(d, count, pos, glyph, false, m)
        } else {
            psf2_table(d, count, pos + 1, glyph, true, m)
        }
    } else if d[pos] == 0xFF {
        psf2_table(d, count, pos + 1, glyph + 1, false, m)
    } else if d[pos] == 0xFE {
        psf2_table(d, count, pos + 1, glyph, true, m)
    } else {
        let (cp, n) = utf8_first(d.subrange(pos, d.len() as int));
        if n > 0 {
            psf2_table(d, count, pos + n, glyph, false, m.insert(cp, glyph as usize))
        } else {
            psf2_table(d, count, pos + 1, glyph, false, m)
        }
    }
}

/// The PSF1 Unicode table from byte `pos` on: 16-bit little-endian values,
/// 0xFFFF ends a glyph's entry, 0xFFFE starts a combining sequence that is
/// skipped up to and including the 0xFFFF
pub open spec fn psf1_table(
    d: Seq<u8>,
    count: int,
    pos: int,
    glyph: int,
    skipping: bool,
    m: Map<u32, usize>,
) -> Map<u32, usize>
    decreases d.len() - pos,
{
    if pos < 0 || pos + 1 >= d.len() {
        m
    } else if skipping {
        if le16(d, pos) == 0xFFFF {
            psf1_table(d, count, pos + 2, glyph + 1, false, m)
        } else {
            psf1_table(d, count, pos + 2, glyph, true, m)
        }
    } else if glyph >= count {
        m
    } else {
        let v = le16(d, pos);
        if v == 0xFFFF {
            psf1_table(d, count, pos + 2, glyph + 1, false, m)
        } else if v == 0xFFFE {
            psf1_table(d, count, pos + 2, glyph, true, m)
        } else {
            psf1_table(d, count, pos + 2, glyph, false, m.insert(v as u32, glyph as usize))
        }
    }
}

/// Every glyph index in the map is below `count`
pub open spec fn indices_below(m: Map<u32, usize>, count: int) -> bool {
    forall|k: u32| m.contains_key(k) ==> (#[trigger] m[k]) < count
}

/// Parse a PSF2 Unicode table for `glyph_count` glyphs
pub fn parse_psf2_unicode_table(data: &[u8], glyph_count: usize) -> (map: HashMap<u32, usize>)
    ensures
        map@ == psf2_table(data@, glyph_count as int, 0, 0, false, Map::empty()),
        indices_below(map@, glyph_count as int),
{
    let mut map: HashMap<u32, usize> = HashMap::new();
    let mut pos: usize = 0;
    let mut glyph_idx: usize = 0;
    let n = data.len();
    while pos < n && glyph_idx < glyph_count
        invariant
            n == data@.len(),
            pos <= n,
            glyph_idx <= glyph_count,
            psf2_table(data@, glyph_count as int, 0, 0, false, Map::empty()) == psf2_table(
                data@,
                glyph_count as int,
                pos as int,
                glyph_idx as int,
                false,
                map@,
            ),
            indices_below(map@, glyph_count as int),
        decreases n - pos,
    {
        if data[pos] == 0xFF {
            glyph_idx = glyph_idx + 1;
            pos = pos + 1;
            continue;
        }
        if data[pos] == 0xFE {
            let ghost start = pos;
            pos = pos + 1;
            while pos < n && data[pos] != 0xFF
                invariant
                    n == data@.len(),
                    start < pos <= n,
                    glyph_idx < glyph_count,
                    psf2_table(data@, glyph_count as int, 0, 0, false, Map::empty()) == psf2_table(
                        data@,
                        glyph_count as int,
                        pos as int,
                        glyph_idx as int,
                        true,
                        map@,
                    ),
                decreases n - pos,
            {
                pos = pos + 1;
            }
            continue;
        }
        let (rest_a, rest) = data.split_at(pos);
        let (codepoint, bytes_read) = decode_utf8(rest);
        if bytes_read > 0 {
            map.insert(codepoint, glyph_idx);
            pos = pos + bytes_read;
        } else {
            pos = pos + 1;
        }
    }
    map
}

/// Parse a PSF1 Unicode table for `glyph_count` glyphs
pub fn parse_psf1_unicode_table(data: &[u8], glyph_count: usize) -> (map: HashMap<u32, usize>)
    ensures
        map@ == psf1_table(data@, glyph_count as int, 0, 0, false, Map::empty()),
        indices_below(map@, glyph_count as int),
{
    let mut map: HashMap<u32, usize> = HashMap::new();
    let mut pos: usize = 0;
    let mut glyph_idx: usize = 0;
    let n = data.len();
    while pos < n && n - pos > 1 && glyph_idx < glyph_count
        invariant
            n == data@.len(),
            pos <= n,
            glyph_idx <= glyph_count,
            psf1_table(data@, glyph_count as int, 0, 0, false, Map::empty()) == psf1_table(
                data@,
                glyph_count as int,
                pos as int,
                glyph_idx as int,
                false,
                map@,
            ),
            indices_below(map@, glyph_count as int),
        decreases n - pos,
    {
        let value = read_le16(data, pos);
        pos = pos + 2;
        if value == 0xFFFF {
            glyph_idx = glyph_idx + 1;
        } else if value == 0xFFFE {
            let ghost start = pos;
            let mut skipping = true;
            while skipping && pos < n && n - pos > 1
                invariant
                    n == data@.len(),
                    start <= pos <= n,
                    glyph_idx <= glyph_count,
                    skipping ==> glyph_idx < glyph_count,
                    psf1_table(data@, glyph_count as int, 0, 0, false, Map::empty()) == psf1_table(
                        data@,
                        glyph_count as int,
                        pos as int,
                        glyph_idx as int,
                        skipping,
                        map@,
                    ),
                    indices_below(map@, glyph_count as int),
                decreases n - pos,
            {
                let v = read_le16(data, pos);
                pos = pos + 2;
                if v == 0xFFFF {
                    glyph_idx = glyph_idx + 1;
                    skipping = false;
                }
            }
        } else {
            map.insert(value as u32, glyph_idx);
        }
    }
    map
}

/// The decompressed form of gzip data, if it is valid
pub uninterp spec fn gunzip_spec(data: Seq<u8>) -> Option<Seq<u8>>;

/// Calls `flate2::read::GzDecoder::read_to_end` on the data. The contract
/// claims that the result is a function of the data alone: its decompressed
/// form, or an error exactly when the data has none.
#[verifier::external_body]
fn gunzip(data: &[u8]) -> (r: Result<Vec<u8>, FontError>)
    ensures
        match r {
            Ok(v) => gunzip_spec(data@) == Some(v@),
            Err(e) => gunzip_spec(data@) is None && e == FontError::Decompress,
        },
{
    let mut out = Vec::new();
    match flate2::read::GzDecoder::new(data).read_to_end(&mut out) {
        Ok(_) => Ok(out),
        Err(_) => Err(FontError::Decompress),
    }
}

/// The first `n` bytes of the decompressed form of gzip data, if the data
/// gives that many
pub uninterp spec fn gunzip_prefix_spec(data: Seq<u8>, n: usize) -> Option<Seq<u8>>;

/// Calls `flate2::read::GzDecoder::read_exact` for `n` bytes on the data,
/// which decompresses no further than those bytes need. The contract claims
/// that the result is a function of the data and `n` alone, and holds `n`
/// bytes; an error exactly when there is none.
#[verifier::external_body]
fn gunzip_prefix(data: &[u8], n: usize) -> (r: Result<Vec<u8>, FontError>)
    ensures
        match r {
            Ok(v) => gunzip_prefix_spec(data@, n) == Some(v@) && v@.len() == n,
            Err(e) => gunzip_prefix_spec(data@, n) is None && e == FontError::Decompress,
        },
{
    let mut buf = vec![0u8; n];
    match flate2::read::GzDecoder::new(data).read_exact(&mut buf) {
        Ok(()) => Ok(buf),
        Err(_) => Err(FontError::Decompress),
    }
}

/// What loading a gzip-compressed font yields. As the font is read from the
/// decompressing stream: the first 4 bytes tell the format; a PSF2 font
/// reads its 32-byte header, then only the header and glyph bytes, unless
/// it has a Unicode table, which is read to the end of the stream; a PSF1
/// font likewise after its 4-byte header. A stream that ends early, or is
/// damaged within what is read, is an error.
pub open spec fn gz_font(data: Seq<u8>, r: Result<FontManager, FontError>) -> bool {
    let decompress_err = Err::<FontManager, FontError>(FontError::Decompress);
    match gunzip_prefix_spec(data, 4) {
        None => r == decompress_err,
        Some(m) => if le32(m, 0) == PSF2_MAGIC {
            match gunzip_prefix_spec(data, 32) {
                None => r == decompress_err,
                Some(hb) => {
                    let h = psf2_header_of(hb);
                    let hs = h.headersize as int;
                    let total = h.length * h.charsize;
                    if hs < 32 {
                        r == Err::<FontManager, FontError>(FontError::InvalidHeaderSize(h.headersize))
                    } else if total > u32::MAX || hs + total > usize::MAX {
                        r == Err::<FontManager, FontError>(FontError::GlyphDataTooLarge)
                    } else if h.flags % 2 == 1 {
                        match gunzip_spec(data) {
                            None => r == decompress_err,
                            Some(d) => font_parsed(d, r),
                        }
                    } else {
                        match gunzip_prefix_spec(data, (hs + total) as usize) {
                            None => r == decompress_err,
                            Some(d) => font_parsed(d, r),
                        }
                    }
                },
            }
        } else if le16(m, 0) == PSF1_MAGIC {
            let mode = m[2];
            let total = psf1_glyphs(mode) * m[3];
            if (mode / 2) % 2 == 1 {
                match gunzip_spec(data) {
                    None => r == decompress_err,
                    Some(d) => font_parsed(d, r),
                }
            } else {
                match gunzip_prefix_spec(data, (4 + total) as usize) {
                    None => r == decompress_err,
                    Some(d) => font_parsed(d, r),
                }
            }
        } else {
            r == Err::<FontManager, FontError>(FontError::UnknownFormat(le32(m, 0) as u32))
        },
    }
}

/// Copy of `data[start..end]`
fn copy_range(data: &[u8], start: usize, end: usize) -> (v: Vec<u8>)
    requires
        start <= end <= data@.len(),
    ensures
        v@ == data@.subrange(start as int, end as int),
{
    let mut v: Vec<u8> = Vec::new();
    let mut i = start;
    while i < end
        invariant
            start <= i <= end,
            end <= data@.len(),
            v@ == data@.subrange(start as int, i as int),
        decreases end - i,
    {
        v.push(data[i]);
        i = i + 1;
    }
    v
}

/// A loaded bitmap font
#[derive(Debug)]
pub struct FontManager {
    /// Glyph width in pixels
    pub width: usize,
    /// Glyph height in pixels
    pub height: usize,
    /// Number of glyphs
    pub glyph_count: usize,
    /// Bytes per glyph
    pub bytes_per_glyph: usize,
    /// Glyph bitmaps, one after the other, rows from the top, leftmost pixel
    /// in the high bit
    pub glyphs: Vec<u8>,
    /// Bytes per glyph row
    pub bytes_per_row: usize,
    /// Whether glyphs are exactly 8 pixels wide
    pub is_width_8: bool,
    /// Glyph index of characters beyond ASCII
    pub unicode_map: HashMap<u32, usize>,
}

/// Bytes needed for `w` pixels, one bit each
pub open spec fn bytes_for_bits(w: int) -> int {
    w / 8 + if w % 8 != 0 {
        1int
    } else {
        0int
    }
}

/// The glyph data holds every glyph and the Unicode table only names glyphs
/// that exist
pub open spec fn font_wf(f: FontManager) -> bool {
    &&& f.glyphs@.len() == f.glyph_count * f.bytes_per_glyph
    &&& indices_below(f.unicode_map@, f.glyph_count as int)
}

/// Glyph count of a PSF1 font with the given mode
pub open spec fn psf1_glyphs(mode: u8) -> int {
    if mode % 2 == 1 {
        512
    } else {
        256
    }
}

/// What parsing a PSF file yields: the error, or the font's fields
pub open spec fn font_parsed(d: Seq<u8>, r: Result<FontManager, FontError>) -> bool {
    if d.len() < 4 {
        r == Err::<FontManager, FontError>(FontError::UnexpectedEof)
    } else if le32(d, 0) == PSF2_MAGIC {
        let h = psf2_header_of(d);
        let hs = h.headersize as int;
        let total = h.length * h.charsize;
        if d.len() < 32 {
            r == Err::<FontManager, FontError>(FontError::UnexpectedEof)
        } else if hs < 32 {
            r == Err::<FontManager, FontError>(FontError::InvalidHeaderSize(h.headersize))
        } else if total > u32::MAX {
            r == Err::<FontManager, FontError>(FontError::GlyphDataTooLarge)
        } else if d.len() < hs + total {
            r == Err::<FontManager, FontError>(FontError::UnexpectedEof)
        } else {
            r matches Ok(f) && {
                &&& f.width == h.width
                &&& f.height == h.height
                &&& f.glyph_count == h.length
                &&& f.bytes_per_glyph == h.charsize
                &&& f.glyphs@ == d.subrange(hs, hs + total)
                &&& f.bytes_per_row == bytes_for_bits(h.width as int)
                &&& f.is_width_8 == (h.width == 8)
                &&& f.unicode_map@ == if h.flags % 2 == 1 {
                    psf2_table(d.subrange(hs + total, d.len() as int), h.length as int, 0, 0, false, Map::empty())
                } else {
                    Map::empty()
                }
            }
        }
    } else if le16(d, 0) == PSF1_MAGIC {
        let mode = d[2];
        let count = psf1_glyphs(mode);
        let total = count * d[3];
        if d.len() < 4 + total {
            r == Err::<FontManager, FontError>(FontError::UnexpectedEof)
        } else {
            r matches Ok(f) && {
                &&& f.width == 8
                &&& f.height == d[3]
                &&& f.glyph_count == count
                &&& f.bytes_per_glyph == d[3]
                &&& f.glyphs@ == d.subrange(4, 4 + total)
                &&& f.bytes_per_row == 1
                &&& f.is_width_8
                &&& f.unicode_map@ == if (mode / 2) % 2 == 1 {
                    psf1_table(d.subrange(4 + total, d.len() as int), count, 0, 0, false, Map::empty())
                } else {
                    Map::empty()
                }
            }
        }
    } else {
        r == Err::<FontManager, FontError>(FontError::UnknownFormat(le32(d, 0) as u32))
    }
}

/// Glyph index of a character: ASCII maps directly, other characters through
/// the Unicode table, then directly if in range, else glyph 0
pub open spec fn glyph_index(f: FontManager, code: u32) -> int {
    if code < 128 && code < f.glyph_count {
        code as int
    } else if f.unicode_map@.contains_key(code) {
        f.unicode_map@[code] as int
    } else if code < f.glyph_count {
        code as int
    } else {
        0
    }
}

/// Bit `k` of a byte, counting from the high bit
pub open spec fn msb_bit(b: u8, k: u8) -> bool {
    ((b >> (7 - k) as u8) & 1u8) == 1u8
}

/// Whether pixel (x, y) of a glyph bitmap is set
pub open spec fn pixel_set(f: FontManager, g: Seq<u8>, x: int, y: int) -> bool {
    if f.is_width_8 {
        y < g.len() && msb_bit(g[y], x as u8)
    } else if x >= f.width || y >= f.height {
        false
    } else {
        let i = y * f.bytes_per_row + x / 8;
        i < g.len() && msb_bit(g[i], (x % 8) as u8)
    }
}

/// Which font file to load for a name
#[derive(Debug, Clone, PartialEq, Eq)]
pub enum FontSource {
    /// One of the two fonts built into the program
    Embedded(EmbeddedFont),
    /// A console font of the system, by name
    Console(String),
}

/// The fonts built into the program
#[derive(Debug, Clone, Copy, PartialEq, Eq, Structural)]
pub enum EmbeddedFont {
    /// Terminus ter-v16n, 8x16
    TerV16n,
    /// Terminus ter-v32n, 16x32
    TerV32n,
}

/// Why a console font name is refused
#[derive(Debug, Clone, Copy, PartialEq, Eq, Structural)]
pub enum FontNameError {
    /// Empty, or longer than 128 bytes
    BadLength,
    /// Contains '/', '\\' or ".."
    PathSeparator,
    /// Contains a character other than alphanumerics, '-', '_' and '.'
    BadCharacter,
}

/// Whether a character is alphanumeric in Unicode's sense
pub uninterp spec fn unicode_alphanumeric(c: char) -> bool;

/// Calls `char::is_alphanumeric`. The contract claims that the result is a
/// function of the character, true for ASCII letters and digits and false
/// for every other ASCII character, as std documents; for characters beyond
/// ASCII it states nothing more.
#[verifier::external_body]
fn is_alphanumeric(c: char) -> (b: bool)
    ensures
        b == unicode_alphanumeric(c),
        (c as u32) < 128 ==> (b <==> ('a' <= c <= 'z' || 'A' <= c <= 'Z' || '0' <= c <= '9')),
{
    c.is_alphanumeric()
}

/// Whether `s` holds `a` followed by `b` somewhere
pub open spec fn has_pair(s: Seq<char>, a: char, b: char) -> bool {
    exists|i: int| 0 <= i < s.len() - 1 && #[trigger] s[i] == a && s[i + 1] == b
}

/// Whether a console font name is acceptable: 1 to 128 bytes, no path
/// separators or "..", only alphanumerics, '-', '_' and '.'
pub open spec fn font_name_error(name: &str) -> Option<FontNameError> {
    let n = name@;
    if name.spec_bytes().len() == 0 || name.spec_bytes().len() > 128 {
        Some(FontNameError::BadLength)
    } else if n.contains('/') || n.contains('\\') || has_pair(n, '.', '.') {
        Some(FontNameError::PathSeparator)
    } else if !(forall|i: int| 0 <= i < n.len() ==> unicode_alphanumeric(#[trigger] n[i])
        || n[i] == '-' || n[i] == '_' || n[i] == '.') {
        Some(FontNameError::BadCharacter)
    } else {
        None
    }
}

/// Check a console font name before it becomes part of a path
pub fn validate_font_name(name: &str) -> (r: Result<(), FontNameError>)
    ensures
        r is Ok <==> font_name_error(name) is None,
        r matches Err(e) ==> font_name_error(name) == Some(e),
{
    let len = name.as_bytes().len();
    if len == 0 || len > 128 {
        return Err(FontNameError::BadLength);
    }
    let chars = crate::text::chars_of(name);
    let n = chars.len();
    let mut i: usize = 0;
    while i < n
        invariant
            chars@ == name@,
            n == chars@.len(),
            i <= n,
            len == name.spec_bytes().len(),
            0 < len <= 128,
            forall|j: int| 0 <= j < i ==> chars@[j] != '/' && chars@[j] != '\\',
            forall|j: int| 0 <= j < i && j + 1 < n ==> !(#[trigger] chars@[j] == '.' && chars@[j + 1] == '.'),
        decreases n - i,
    {
        let c = chars[i];
        if c == '/' || c == '\\' {
            assert(name@[i as int] == c);
            assert(name@.contains(c));
            return Err(FontNameError::PathSeparator);
        }
        if c == '.' && i + 1 < n && chars[i + 1] == '.' {
            assert(has_pair(name@, '.', '.'));
            return Err(FontNameError::PathSeparator);
        }
        i = i + 1;
    }
    assert(!name@.contains('/'));
    assert(!name@.contains('\\'));
    assert(!has_pair(name@, '.', '.'));
    let mut k: usize = 0;
    while k < n
        invariant
            chars@ == name@,
            n == chars@.len(),
            k <= n,
            !name@.contains('/') && !name@.contains('\\') && !has_pair(name@, '.', '.'),
            len == name.spec_bytes().len(),
            0 < len <= 128,
            forall|j: int| 0 <= j < k ==> unicode_alphanumeric(#[trigger] name@[j])
                || name@[j] == '-' || name@[j] == '_' || name@[j] == '.',
        decreases n - k,
    {
        let c = chars[k];
        if !(is_alphanumeric(c) || c == '-' || c == '_' || c == '.') {
            assert(name@[k as int] == c);
            return Err(FontNameError::BadCharacter);
        }
        k = k + 1;
    }
    Ok(())
}

/// The embedded font for glyphs of the given size: the large one beyond 8x16
pub fn embedded_font_for(char_width: usize, char_height: usize) -> (e: EmbeddedFont)
    ensures
        e == if char_width > 8 || char_height > 16 {
            EmbeddedFont::TerV32n
        } else {
            EmbeddedFont::TerV16n
        },
{
    if char_width > 8 || char_height > 16 {
        EmbeddedFont::TerV32n
    } else {
        EmbeddedFont::TerV16n
    }
}

impl FontManager {
    /// Parse a PSF1 or PSF2 font from its bytes
    pub fn from_bytes(data: &[u8]) -> (r: Result<FontManager, FontError>)
        ensures
            font_parsed(data@, r),
            r matches Ok(f) ==> font_wf(f),
    {
        let len = data.len();
        if len < 4 {
            return Err(FontError::UnexpectedEof);
        }
        let magic32 = read_le32(data, 0);
        if magic32 == PSF2_MAGIC {
            if len < 32 {
                return Err(FontError::UnexpectedEof);
            }
            let header = match Psf2Header::from_bytes(data) {
                Ok(h) => h,
                Err(e) => {
                    return Err(e);
                },
            };
            if header.headersize < 32 {
                return Err(FontError::InvalidHeaderSize(header.headersize));
            }
            let l64 = header.length as u64;
            let c64 = header.charsize as u64;
            assert(l64 * c64 <= 0xffff_ffffu64 * 0xffff_ffffu64) by (nonlinear_arith)
                requires
                    l64 <= 0xffff_ffffu64,
                    c64 <= 0xffff_ffffu64,
            ;
            let total64 = l64 * c64;
            if total64 > u32::MAX as u64 {
                return Err(FontError::GlyphDataTooLarge);
            }
            if (len as u64) < (header.headersize as u64) + total64 {
                return Err(FontError::UnexpectedEof);
            }
            let hs = header.headersize as usize;
            let total = total64 as usize;
            let glyphs = copy_range(data, hs, hs + total);
            let (head, tail) = data.split_at(hs + total);
            let unicode_map = if header.flags % 2 == 1 {
                parse_psf2_unicode_table(tail, header.length as usize)
            } else {
                HashMap::new()
            };
            let width = header.width as usize;
            let bytes_per_row = width / 8 + if width % 8 != 0 {
                1
            } else {
                0
            };
            return Ok(FontManager {
                width,
                height: header.height as usize,
                glyph_count: header.length as usize,
                bytes_per_glyph: header.charsize as usize,
                glyphs,
                bytes_per_row,
                is_width_8: width == 8,
                unicode_map,
            });
        }
        let magic16 = read_le16(data, 0);
        if magic16 == PSF1_MAGIC {
            let header = match Psf1Header::from_bytes(data) {
                Ok(h) => h,
                Err(e) => {
                    return Err(e);
                },
            };
            let glyph_count = header.glyph_count();
            let bytes_per_glyph = header.charsize as usize;
            let total = glyph_count * bytes_per_glyph;
            if len - 4 < total {
                return Err(FontError::UnexpectedEof);
            }
            let glyphs = copy_range(data, 4, 4 + total);
            let (head, tail) = data.split_at(4 + total);
            let m = header.mode;
            assert(((m & 2u8) != 0) <==> ((m / 2) % 2 == 1)) by (bit_vector);
            let unicode_map = if header.mode & PSF1_MODEHASTAB != 0 {
                parse_psf1_unicode_table(tail, glyph_count)
            } else {
                HashMap::new()
            };
            return Ok(FontManager {
                width: 8,
                height: bytes_per_glyph,
                glyph_count,
                bytes_per_glyph,
                glyphs,
                bytes_per_row: 1,
                is_width_8: true,
                unicode_map,
            });
        }
        Err(FontError::UnknownFormat(magic32))
    }

    /// Parse a gzip-compressed PSF1 or PSF2 font
    pub fn load_from_gzip_bytes(data: &[u8]) -> (r: Result<FontManager, FontError>)
        ensures
            gz_font(data@, r),
            r matches Ok(f) ==> font_wf(f),
    {
        let magic = match gunzip_prefix(data, 4) {
            Ok(m) => m,
            Err(e) => return Err(e),
        };
        let magic32 = read_le32(magic.as_slice(), 0);
        if magic32 == PSF2_MAGIC {
            let hb = match gunzip_prefix(data, 32) {
                Ok(h) => h,
                Err(e) => return Err(e),
            };
            let hs = read_le32(hb.as_slice(), 8);
            let flags = read_le32(hb.as_slice(), 12);
            let length = read_le32(hb.as_slice(), 16);
            let charsize = read_le32(hb.as_slice(), 20);
            if hs < 32 {
                return Err(FontError::InvalidHeaderSize(hs));
            }
            let total = match length.checked_mul(charsize) {
                Some(t) => t,
                None => return Err(FontError::GlyphDataTooLarge),
            };
            let needed = match (hs as usize).checked_add(total as usize) {
                Some(n) => n,
                None => return Err(FontError::GlyphDataTooLarge),
            };
            let bytes = if flags % 2 == 1 {
                gunzip(data)
            } else {
                gunzip_prefix(data, needed)
            };
            match bytes {
                Ok(d) => Self::from_bytes(d.as_slice()),
                Err(e) => Err(e),
            }
        } else if read_le16(magic.as_slice(), 0) == PSF1_MAGIC {
            let mode = magic[2];
            let count: usize = if mode % 2 == 1 { 512 } else { 256 };
            let needed = 4 + count * (magic[3] as usize);
            let bytes = if (mode / 2) % 2 == 1 {
                gunzip(data)
            } else {
                gunzip_prefix(data, needed)
            };
            match bytes {
                Ok(d) => Self::from_bytes(d.as_slice()),
                Err(e) => Err(e),
            }
        } else {
            Err(FontError::UnknownFormat(magic32))
        }
    }

    /// Number of glyphs
    pub fn glyph_count(&self) -> (n: usize)
        ensures
            n == self.glyph_count,
    {
        self.glyph_count
    }

    /// The bitmap of a character's glyph
    pub fn get_glyph(&self, ch: char) -> (g: &[u8])
        requires
            font_wf(*self),
            self.glyph_count > 0,
        ensures
            g@ == self.glyphs@.subrange(
                glyph_index(*self, ch as u32) * self.bytes_per_glyph,
                (glyph_index(*self, ch as u32) + 1) * self.bytes_per_glyph,
            ),
    {
        let code = ch as u32;
        let glyph_index: usize = if code < 128 && (code as usize) < self.glyph_count {
            code as usize
        } else {
            match self.unicode_map.get(&code) {
                Some(idx) => *idx,
                None => {
                    if (code as usize) < self.glyph_count {
                        code as usize
                    } else {
                        0
                    }
                },
            }
        };
        assert(glyph_index < self.glyph_count);
        let ghost gi = glyph_index as int;
        let ghost gc = self.glyph_count as int;
        let ghost bpg = self.bytes_per_glyph as int;
        assert(gi * bpg + bpg <= gc * bpg) by (nonlinear_arith)
            requires
                0 <= gi < gc,
                bpg >= 0,
        ;
        assert((gi + 1) * bpg == gi * bpg + bpg) by (nonlinear_arith);
        let glen = self.glyphs.len();
        assert(gi * bpg + bpg <= glen);
        let start = glyph_index * self.bytes_per_glyph;
        let end = start + self.bytes_per_glyph;
        &self.glyphs.as_slice()[start..end]
    }

    /// Whether pixel (x, y) of a glyph bitmap is set
    pub fn is_pixel_set(&self, glyph_data: &[u8], x: usize, y: usize) -> (b: bool)
        requires
            self.is_width_8 ==> x < 8,
            self.height * self.bytes_per_row <= usize::MAX,
            self.bytes_per_row == bytes_for_bits(self.width as int),
        ensures
            b == pixel_set(*self, glyph_data@, x as int, y as int),
    {
        if self.is_width_8 {
            if y >= glyph_data.len() {
                return false;
            }
            let byte = glyph_data[y];
            let xs = x as u8;
            assert((byte & (0x80u8 >> xs)) != 0 <==> ((byte >> (7 - xs) as u8) & 1u8) == 1u8)
                by (bit_vector)
                requires
                    xs < 8,
            ;
            return (byte & (0x80u8 >> xs)) != 0;
        }
        if x >= self.width || y >= self.height {
            return false;
        }
        proof {
            vstd::arithmetic::mul::lemma_mul_inequality(
                y as int + 1,
                self.height as int,
                self.bytes_per_row as int,
            );
            vstd::arithmetic::mul::lemma_mul_is_distributive_add_other_way(
                self.bytes_per_row as int,
                y as int,
                1,
            );
        }
        let row_start = y * self.bytes_per_row;
        let byte_index = row_start + x / 8;
        let bit_index = (7 - x % 8) as u8;
        if byte_index >= glyph_data.len() {
            return false;
        }
        let byte = glyph_data[byte_index];
        let k = (x % 8) as u8;
        assert((byte & (1u8 << (7 - k) as u8)) != 0 <==> ((byte >> (7 - k) as u8) & 1u8) == 1u8)
            by (bit_vector)
            requires
                k < 8,
        ;
        (byte & (1u8 << bit_index)) != 0
    }

    /// A one-line description of the font: glyph size, glyph count, bytes
    /// per glyph and total bitmap bytes
    pub fn debug_info(&self) -> (s: String)
        ensures
            s@ == "Font: "@ + decimal(self.width as nat) + "x"@ + decimal(self.height as nat) + ", "@
                + decimal(self.glyph_count as nat) + " glyphs, "@ + decimal(
                self.bytes_per_glyph as nat,
            ) + " bytes/glyph, "@ + decimal(self.glyphs@.len()) + " total bytes"@,
    {
        let mut v: Vec<char> = Vec::new();
        push_str_chars(&mut v, "Font: ");
        push_decimal(&mut v, self.width as u64);
        push_str_chars(&mut v, "x");
        push_decimal(&mut v, self.height as u64);
        push_str_chars(&mut v, ", ");
        push_decimal(&mut v, self.glyph_count as u64);
        push_str_chars(&mut v, " glyphs, ");
        push_decimal(&mut v, self.bytes_per_glyph as u64);
        push_str_chars(&mut v, " bytes/glyph, ");
        push_decimal(&mut v, self.glyphs.len() as u64);
        push_str_chars(&mut v, " total bytes");
        string_from_chars(&v)
    }

    /// The source for a font name: the embedded fonts go by
    /// "[Embedded] ter-v16n" and "[Embedded] ter-v32n", anything else is a
    /// console font
    pub fn font_source(name: &str) -> (s: FontSource)
        ensures
            name@ == "[Embedded] ter-v16n"@ ==> s == FontSource::Embedded(EmbeddedFont::TerV16n),
            name@ == "[Embedded] ter-v32n"@ ==> s == FontSource::Embedded(EmbeddedFont::TerV32n),
            name@ != "[Embedded] ter-v16n"@ && name@ != "[Embedded] ter-v32n"@ ==> (s matches FontSource::Console(n) && n@ == name@),
    {
        proof {
            reveal_strlit("[Embedded] ter-v16n");
            reveal_strlit("[Embedded] ter-v32n");
            assert("[Embedded] ter-v16n"@[16] != "[Embedded] ter-v32n"@[16]);
        }
        let chars = crate::text::chars_of(name);
        let e16 = crate::text::chars_of("[Embedded] ter-v16n");
        let e32 = crate::text::chars_of("[Embedded] ter-v32n");
        if crate::pin_setup::vec_char_eq(&chars, &e16) {
            FontSource::Embedded(EmbeddedFont::TerV16n)
        } else if crate::pin_setup::vec_char_eq(&chars, &e32) {
            FontSource::Embedded(EmbeddedFont::TerV32n)
        } else {
            FontSource::Console(name.to_owned())
        }
    }
}

/// Number of console fonts tried for a glyph size
pub const FONT_CANDIDATE_COUNT: usize = 20;

/// Glyph size (width, height) of console font candidate `i`
pub open spec fn candidate_dims(i: int) -> (int, int) {
    if i == 0 {
        (8, 16)
    } else 
    if i == 1 {
        (8, 16)
    } else 
    if i == 2 {
        (8, 16)
    } else 
    if i == 3 {
        (8, 16)
    } else 
    if i == 4 {
        (8, 16)
    } else 
    if i == 5 {
        (8, 16)
    } else 
    if i == 6 {
        (8, 8)
    } else 
    if i == 7 {
        (8, 8)
    } else 
    if i == 8 {
        (8, 8)
    } else 
    if i == 9 {
        (8, 8)
    } else 
    if i == 10 {
        (8, 14)
    } else 
    if i == 11 {
        (8, 14)
    } else 
    if i == 12 {
        (8, 14)
    } else 
    if i == 13 {
        (8, 14)
    } else 
    if i == 14 {
        (16, 32)
    } else 
    if i == 15 {
        (16, 32)
    } else 
    if i == 16 {
        (16, 28)
    } else 
    if i == 17 {
        (16, 16)
    } else 
    if i == 18 {
        (12, 24)
    } else {
        (12, 24)
    }
}

/// Name of console font candidate `i`
pub open spec fn candidate_name(i: int) -> Seq<char> {
    if i == 0 {
        "Uni3-Terminus16"@
    } else 
    if i == 1 {
        "Uni3-TerminusBold16"@
    } else 
    if i == 2 {
        "Unifont-APL8x16"@
    } else 
    if i == 3 {
        "Lat2-Terminus16"@
    } else 
    if i == 4 {
        "ter-116n"@
    } else 
    if i == 5 {
        "default8x16"@
    } else 
    if i == 6 {
        "Uni2-VGA8"@
    } else 
    if i == 7 {
        "Lat2-Terminus8"@
    } else 
    if i == 8 {
        "ter-108n"@
    } else 
    if i == 9 {
        "default8x8"@
    } else 
    if i == 10 {
        "Uni3-Terminus14"@
    } else 
    if i == 11 {
        "Uni3-TerminusBold14"@
    } else 
    if i == 12 {
        "Lat2-Terminus14"@
    } else 
    if i == 13 {
        "ter-114n"@
    } else 
    if i == 14 {
        "Uni3-Terminus32x16"@
    } else 
    if i == 15 {
        "Uni3-TerminusBold32x16"@
    } else 
    if i == 16 {
        "Uni2-VGA28x16"@
    } else 
    if i == 17 {
        "Unifont"@
    } else 
    if i == 18 {
        "Uni3-Terminus24x12"@
    } else {
        "Uni3-TerminusBold24x12"@
    }
}

/// Console font candidate `i`: name, glyph width and height
pub fn font_candidate(i: usize) -> (c: (&'static str, usize, usize))
    requires
        i < FONT_CANDIDATE_COUNT,
    ensures
        c.0@ == candidate_name(i as int),
        (c.1 as int, c.2 as int) == candidate_dims(i as int),
{
    match i {
        0 => ("Uni3-Terminus16", 8, 16),
        1 => ("Uni3-TerminusBold16", 8, 16),
        2 => ("Unifont-APL8x16", 8, 16),
        3 => ("Lat2-Terminus16", 8, 16),
        4 => ("ter-116n", 8, 16),
        5 => ("default8x16", 8, 16),
        6 => ("Uni2-VGA8", 8, 8),
        7 => ("Lat2-Terminus8", 8, 8),
        8 => ("ter-108n", 8, 8),
        9 => ("default8x8", 8, 8),
        10 => ("Uni3-Terminus14", 8, 14),
        11 => ("Uni3-TerminusBold14", 8, 14),
        12 => ("Lat2-Terminus14", 8, 14),
        13 => ("ter-114n", 8, 14),
        14 => ("Uni3-Terminus32x16", 16, 32),
        15 => ("Uni3-TerminusBold32x16", 16, 32),
        16 => ("Uni2-VGA28x16", 16, 28),
        17 => ("Unifont", 16, 16),
        18 => ("Uni3-Terminus24x12", 12, 24),
        _ => ("Uni3-TerminusBold24x12", 12, 24),
    }
}

/// Whether a candidate's size is close to the wanted one (2 pixels of width,
/// 4 of height)
pub open spec fn near_size(d: (int, int), w: int, h: int) -> bool {
    -2 <= d.0 - w <= 2 && -4 <= d.1 - h <= 4
}

/// Candidates among the first `k` whose size is exactly the wanted one
pub open spec fn exact_candidates(w: int, h: int, k: int) -> Seq<usize>
    decreases k,
{
    if k <= 0 {
        seq![]
    } else {
        exact_candidates(w, h, k - 1) + if candidate_dims(k - 1) == (w, h) {
            seq![(k - 1) as usize]
        } else {
            seq![]
        }
    }
}

/// Candidates among the first `k` whose size is close to the wanted one
pub open spec fn near_candidates(w: int, h: int, k: int) -> Seq<usize>
    decreases k,
{
    if k <= 0 {
        seq![]
    } else {
        near_candidates(w, h, k - 1) + if near_size(candidate_dims(k - 1), w, h) {
            seq![(k - 1) as usize]
        } else {
            seq![]
        }
    }
}

/// The console fonts to try, in order, for glyphs of the given size: first
/// those of exactly that size, then those close to it (the embedded fonts
/// come after all of them)
pub fn font_candidates_for(char_width: usize, char_height: usize) -> (v: Vec<usize>)
    ensures
        v@ == exact_candidates(char_width as int, char_height as int, FONT_CANDIDATE_COUNT as int)
            + near_candidates(char_width as int, char_height as int, FONT_CANDIDATE_COUNT as int),
{
    let mut exact: Vec<usize> = Vec::new();
    let mut i: usize = 0;
    while i < FONT_CANDIDATE_COUNT
        invariant
            i <= FONT_CANDIDATE_COUNT,
            exact@ == exact_candidates(char_width as int, char_height as int, i as int),
        decreases FONT_CANDIDATE_COUNT - i,
    {
        let (name, w, h) = font_candidate(i);
        if w == char_width && h == char_height {
            exact.push(i);
        }
        i = i + 1;
    }
    let mut near: Vec<usize> = Vec::new();
    let mut j: usize = 0;
    while j < FONT_CANDIDATE_COUNT
        invariant
            j <= FONT_CANDIDATE_COUNT,
            near@ == near_candidates(char_width as int, char_height as int, j as int),
        decreases FONT_CANDIDATE_COUNT - j,
    {
        let (name, w, h) = font_candidate(j);
        let dw_ok = if w >= char_width { w - char_width <= 2 } else { char_width - w <= 2 };
        let dh_ok = if h >= char_height { h - char_height <= 4 } else { char_height - h <= 4 };
        if dw_ok && dh_ok {
            near.push(j);
        }
        j = j + 1;
    }
    let ghost e = exact@;
    exact.append(&mut near);
    exact
}

} // verus!
