//! The glyph atlas: the digit, separator and blank bitmaps of the
//! banner, rasterized and compressed once, then shared read-only.
use vstd::prelude::*;
use vstd::slice::slice_to_vec;
use crate::compress::{do_lzw, lzw_of};
use crate::frame::{banner_header, banner_header_bytes};


verus! {

/// Number of glyphs: ten digits, `-`, `:` and a blank.
pub const GLYPH_COUNT: usize = 13;

/// Glyph code of `-`.
pub const DASH_GLYPH: usize = 10;

/// Glyph code of `:`.
pub const COLON_GLYPH: usize = 11;

/// Glyph code of the blank drawn for any other byte.
pub const FALLBACK_GLYPH: usize = 12;

/// Width of a glyph cell in pixels.
pub const FONT_WIDTH: u16 = 6;

/// Height of a glyph cell in pixels.
pub const FONT_HEIGHT: u16 = 10;

/// Pixels in a glyph cell.
pub const FONT_PIXELS: usize = 60;

/// Width of the banner in pixels.
pub const SCREEN_WIDTH: u16 = 88;

/// Height of the banner in pixels.
pub const SCREEN_HEIGHT: u16 = 31;

/// Pixels on the banner.
pub const SCREEN_PIXELS: usize = 2728;

/// The glyph code drawn for byte `c`.
pub open spec fn codepoint(c: u8) -> nat {
    if 0x30 <= c && c <= 0x39 {
        (c - 0x30) as nat
    } else if c == 0x2D {
        DASH_GLYPH as nat
    } else if c == 0x3A {
        COLON_GLYPH as nat
    } else {
        FALLBACK_GLYPH as nat
    }
}

/// Maps a byte of a timestamp to the glyph that draws it: digits to
/// themselves, `-` and `:` to their separators, anything else to the
/// blank glyph.
pub fn to_codepoint(c: u8) -> (r: usize)
    ensures
        r as nat == codepoint(c),
        r < GLYPH_COUNT,
{
    match c {
        0x30 => 0,
        0x31 => 1,
        0x32 => 2,
        0x33 => 3,
        0x34 => 4,
        0x35 => 5,
        0x36 => 6,
        0x37 => 7,
        0x38 => 8,
        0x39 => 9,
        0x2D => DASH_GLYPH,
        0x3A => COLON_GLYPH,
        _ => FALLBACK_GLYPH,
    }
}

/// The ten rows of glyph `code`, top first; in each row the six pixels
/// are the low six bits, leftmost pixel highest.
pub open spec fn glyph_rows(code: nat) -> Seq<u8> {
    if code == 0 {
        // zero
        seq![
            0b011110u8, 0b111111u8, 0b110011u8, 0b110011u8, 0b110011u8,
            0b110011u8, 0b110011u8, 0b110011u8, 0b111111u8, 0b011110u8,
        ]
    } else if code == 1 {
        // one
        seq![
            0b000110u8, 0b011110u8, 0b011110u8, 0b000110u8, 0b000110u8,
            0b000110u8, 0b000110u8, 0b000110u8, 0b000110u8, 0b000110u8,
        ]
    } else if code == 2 {
        // two
        seq![
            0b011110u8, 0b111111u8, 0b000011u8, 0b000011u8, 0b011111u8,
            0b011110u8, 0b110000u8, 0b110000u8, 0b111111u8, 0b111111u8,
        ]
    } else if code == 3 {
        // three
        seq![
            0b111110u8, 0b111111u8, 0b000011u8, 0b000011u8, 0b111111u8,
            0b111111u8, 0b000011u8, 0b000011u8, 0b111111u8, 0b111110u8,
        ]
    } else if code == 4 {
        // four
        seq![
            0b110011u8, 0b110011u8, 0b110011u8, 0b110011u8, 0b111111u8,
            0b111111u8, 0b000011u8, 0b000011u8, 0b000011u8, 0b000011u8,
        ]
    } else if code == 5 {
        // five
        seq![
            0b111111u8, 0b111111u8, 0b110000u8, 0b110000u8, 0b111110u8,
            0b011111u8, 0b000011u8, 0b000011u8, 0b111111u8, 0b111110u8,
        ]
    } else if code == 6 {
        // six
        seq![
            0b011110u8, 0b111111u8, 0b110000u8, 0b110000u8, 0b111110u8,
            0b111111u8, 0b110011u8, 0b110011u8, 0b111111u8, 0b011110u8,
        ]
    } else if code == 7 {
        // seven
        seq![
            0b111111u8, 0b111111u8, 0b110011u8, 0b110011u8, 0b000011u8,
            0b000011u8, 0b000011u8, 0b000011u8, 0b000011u8, 0b000011u8,
        ]
    } else if code == 8 {
        // eight
        seq![
            0b011110u8, 0b111111u8, 0b110011u8, 0b110011u8, 0b111111u8,
            0b111111u8, 0b110011u8, 0b110011u8, 0b111111u8, 0b011110u8,
        ]
    } else if code == 9 {
        // nine
        seq![
            0b011110u8, 0b111111u8, 0b110011u8, 0b110011u8, 0b111111u8,
            0b011111u8, 0b000011u8, 0b000011u8, 0b111111u8, 0b011110u8,
        ]
    } else if code == 10 {
        // dash (`-`)
        seq![
            0b000000u8, 0b000000u8, 0b000000u8, 0b000000u8, 0b111111u8,
            0b111111u8, 0b000000u8, 0b000000u8, 0b000000u8, 0b000000u8,
        ]
    } else if code == 11 {
        // colon (`:`)
        seq![
            0b000000u8, 0b000000u8, 0b001100u8, 0b001100u8, 0b000000u8,
            0b000000u8, 0b000000u8, 0b001100u8, 0b001100u8, 0b000000u8,
        ]
    } else {
        // blank
        seq![
            0b000000u8, 0b000000u8, 0b000000u8, 0b000000u8, 0b000000u8,
            0b000000u8, 0b000000u8, 0b000000u8, 0b000000u8, 0b000000u8,
        ]
    }
}

fn glyph_rows_of(code: usize) -> (r: [u8; 10])
    requires
        code < GLYPH_COUNT,
    ensures
        r@ == glyph_rows(code as nat),
{
    let r: [u8; 10] = match code {
        0 => [0b011110, 0b111111, 0b110011, 0b110011, 0b110011, 0b110011, 0b110011, 0b110011, 0b111111, 0b011110],
        1 => [0b000110, 0b011110, 0b011110, 0b000110, 0b000110, 0b000110, 0b000110, 0b000110, 0b000110, 0b000110],
        2 => [0b011110, 0b111111, 0b000011, 0b000011, 0b011111, 0b011110, 0b110000, 0b110000, 0b111111, 0b111111],
        3 => [0b111110, 0b111111, 0b000011, 0b000011, 0b111111, 0b111111, 0b000011, 0b000011, 0b111111, 0b111110],
        4 => [0b110011, 0b110011, 0b110011, 0b110011, 0b111111, 0b111111, 0b000011, 0b000011, 0b000011, 0b000011],
        5 => [0b111111, 0b111111, 0b110000, 0b110000, 0b111110, 0b011111, 0b000011, 0b000011, 0b111111, 0b111110],
        6 => [0b011110, 0b111111, 0b110000, 0b110000, 0b111110, 0b111111, 0b110011, 0b110011, 0b111111, 0b011110],
        7 => [0b111111, 0b111111, 0b110011, 0b110011, 0b000011, 0b000011, 0b000011, 0b000011, 0b000011, 0b000011],
        8 => [0b011110, 0b111111, 0b110011, 0b110011, 0b111111, 0b111111, 0b110011, 0b110011, 0b111111, 0b011110],
        9 => [0b011110, 0b111111, 0b110011, 0b110011, 0b111111, 0b011111, 0b000011, 0b000011, 0b111111, 0b011110],
        10 => [0b000000, 0b000000, 0b000000, 0b000000, 0b111111, 0b111111, 0b000000, 0b000000, 0b000000, 0b000000],
        11 => [0b000000, 0b000000, 0b001100, 0b001100, 0b000000, 0b000000, 0b000000, 0b001100, 0b001100, 0b000000],
        _ => [0b000000, 0b000000, 0b000000, 0b000000, 0b000000, 0b000000, 0b000000, 0b000000, 0b000000, 0b000000],
    };
    assert(r@ =~= glyph_rows(code as nat));
    r
}

/// Weight of the bit that holds pixel `col` of a six-pixel row.
pub open spec fn column_weight(col: int) -> int {
    if col == 0 {
        32
    } else if col == 1 {
        16
    } else if col == 2 {
        8
    } else if col == 3 {
        4
    } else if col == 4 {
        2
    } else {
        1
    }
}

fn column_weight_of(col: usize) -> (r: u8)
    requires
        col < 6,
    ensures
        r as int == column_weight(col as int),
{
    if col == 0 {
        32
    } else if col == 1 {
        16
    } else if col == 2 {
        8
    } else if col == 3 {
        4
    } else if col == 4 {
        2
    } else {
        1
    }
}

/// One palette index per pixel, row by row: 1 where the row's bit is set
/// (foreground), 0 elsewhere (background).
pub open spec fn raster(rows: Seq<u8>) -> Seq<u8> {
    Seq::new(
        (rows.len() * 6) as nat,
        |i: int| ((rows[i / 6] as int / column_weight(i % 6)) % 2) as u8,
    )
}

/// The pixels of glyph `code`.
pub open spec fn glyph_pixels(code: nat) -> Seq<u8> {
    raster(glyph_rows(code))
}

/// The pixels of the empty banner: background everywhere.
pub open spec fn background_pixels() -> Seq<u8> {
    Seq::new(SCREEN_PIXELS as nat, |i: int| 0u8)
}

/// Rasterizes glyph `code` into one palette index per pixel.
pub fn rasterize(code: usize) -> (r: Vec<u8>)
    requires
        code < GLYPH_COUNT,
    ensures
        r@ == glyph_pixels(code as nat),
{
    let rows = glyph_rows_of(code);
    let mut out: Vec<u8> = Vec::new();
    let mut i: usize = 0;
    while i < FONT_PIXELS
        invariant
            i <= FONT_PIXELS,
            rows@ == glyph_rows(code as nat),
            rows@.len() == 10,
            out@ == glyph_pixels(code as nat).take(i as int),
        decreases FONT_PIXELS - i,
    {
        let row = rows[i / 6];
        let w = column_weight_of(i % 6);
        out.push((row / w) % 2);
        assert(out@ =~= glyph_pixels(code as nat).take(i + 1));
        i = i + 1;
    }
    assert(out@ =~= glyph_pixels(code as nat));
    out
}

/// A glyph: its pixels and their LZW code stream.
#[derive(Debug)]
pub struct Glyph {
    pixels: Vec<u8>,
    lzw: Vec<u8>,
}

/// Every glyph rasterized and compressed, the empty banner compressed, and
/// the bytes that open the stream. Built once by [`initialization`] and
/// only read afterwards.
#[derive(Debug)]
pub struct Atlas {
    glyphs: Vec<Glyph>,
    background: Vec<u8>,
    header: Vec<u8>,
}

impl Atlas {
    #[verifier::type_invariant]
    spec fn inv(self) -> bool {
        &&& self.glyphs@.len() == GLYPH_COUNT
        &&& forall|i: int|
            0 <= i < GLYPH_COUNT ==> {
                &&& (#[trigger] self.glyphs@[i]).pixels@ == glyph_pixels(i as nat)
                &&& self.glyphs@[i].lzw@ == lzw_of(glyph_pixels(i as nat))
            }
        &&& self.background@ == lzw_of(background_pixels())
        &&& self.header@ == banner_header_bytes(lzw_of(background_pixels()))
    }

    /// The pixels of glyph `code`.
    pub fn glyph_pixels(&self, code: usize) -> (r: Vec<u8>)
        requires
            code < GLYPH_COUNT,
        ensures
            r@ == glyph_pixels(code as nat),
    {
        proof {
            use_type_invariant(self);
        }
        slice_to_vec(self.glyphs[code].pixels.as_slice())
    }

    /// The LZW code stream of glyph `code`.
    pub fn glyph_data(&self, code: usize) -> (r: Vec<u8>)
        requires
            code < GLYPH_COUNT,
        ensures
            r@ == lzw_of(glyph_pixels(code as nat)),
    {
        proof {
            use_type_invariant(self);
        }
        slice_to_vec(self.glyphs[code].lzw.as_slice())
    }

    /// The LZW code stream of the empty banner.
    pub fn background_data(&self) -> (r: Vec<u8>)
        ensures
            r@ == lzw_of(background_pixels()),
    {
        proof {
            use_type_invariant(self);
        }
        slice_to_vec(self.background.as_slice())
    }

    /// The bytes sent once when a stream opens: the container header,
    /// palette, and the empty banner.
    pub fn header(&self) -> (r: Vec<u8>)
        ensures
            r@ == banner_header_bytes(lzw_of(background_pixels())),
    {
        proof {
            use_type_invariant(self);
        }
        slice_to_vec(self.header.as_slice())
    }
}

/// Rasterizes and compresses every glyph.
fn init_image() -> (r: Vec<Glyph>)
    ensures
        r@.len() == GLYPH_COUNT,
        forall|i: int|
            0 <= i < GLYPH_COUNT ==> {
                &&& (#[trigger] r@[i]).pixels@ == glyph_pixels(i as nat)
                &&& r@[i].lzw@ == lzw_of(glyph_pixels(i as nat))
            },
{
    let mut glyphs: Vec<Glyph> = Vec::new();
    let mut code: usize = 0;
    while code < GLYPH_COUNT
        invariant
            code <= GLYPH_COUNT,
            glyphs@.len() == code,
            forall|i: int|
                0 <= i < code ==> {
                    &&& (#[trigger] glyphs@[i]).pixels@ == glyph_pixels(i as nat)
                    &&& glyphs@[i].lzw@ == lzw_of(glyph_pixels(i as nat))
                },
        decreases GLYPH_COUNT - code,
    {
        let pixels = rasterize(code);
        let lzw = do_lzw(pixels.as_slice());
        glyphs.push(Glyph { pixels, lzw });
        code = code + 1;
    }
    glyphs
}

/// Builds the atlas: every glyph rasterized and compressed, the empty
/// banner compressed, and the stream's opening bytes written.
pub fn initialization() -> Atlas {
    let glyphs = init_image();
    let bg_pixels: Vec<u8> = vec![0u8; SCREEN_PIXELS];
    assert(bg_pixels@ =~= background_pixels());
    let background = do_lzw(bg_pixels.as_slice());
    let header = banner_header(&background);
    Atlas { glyphs, background, header }
}

} // verus!
