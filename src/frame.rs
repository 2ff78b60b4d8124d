//! The frame composer: turns a timestamp into the blocks that redraw the
//! whole banner, and writes the bytes that open the stream.
use vstd::prelude::*;
use crate::atlas::{
    background_pixels, codepoint, glyph_pixels, to_codepoint, Atlas, FONT_HEIGHT, FONT_WIDTH,
    SCREEN_HEIGHT, SCREEN_WIDTH,
};
use crate::chunk::chunked;
use crate::compress::{lzw_of, LZW_CODESIZE};
use crate::flags::{log2, table_size_code, GraphicControlExtensionPacked, HeaderPacked, ImagePacked};
use crate::gif::{
    block_bytes, blocks_bytes, blocks_valid, encode_blocks, extension_bytes, gif_bytes,
    le16, magic_bytes, table_bytes, version_bytes, Block,
    Color, Extension, Gif, GraphicsControlExtension, Image, ImagePositioned, Position, Size,
    Version, EXTENSION_TAG, IMAGE_TAG,
};
use crate::model::Context;

verus! {

/// Delay before each redrawn image, in hundredths of a second.
pub const FRAME_DELAY: u16 = 2;

/// Length of a timestamp, `YYYY-MM-DD hh:mm:ss`.
pub const TIMESTAMP_LEN: usize = 19;

/// Glyph positions in the layout: ten on the date row, eight on the time row.
pub const GLYPH_SLOTS: usize = 18;

/// Images in a frame: the empty banner, then one per glyph position.
pub const FRAME_IMAGES: usize = 19;

/// The control extension sent before every image: no disposal, no user
/// input, no transparency, a short delay.
pub open spec fn frame_gce() -> GraphicsControlExtension {
    GraphicsControlExtension {
        packed: GraphicControlExtensionPacked { bits: 0 },
        delay_time: FRAME_DELAY,
        transpalent_color_index: 0,
    }
}

fn new_gce() -> (r: GraphicsControlExtension)
    ensures
        r == frame_gce(),
{
    GraphicsControlExtension {
        packed: GraphicControlExtensionPacked::new(),
        delay_time: FRAME_DELAY,
        transpalent_color_index: 0,
    }
}

/// Which byte of the timestamp glyph position `k` draws. The time row comes
/// first, from the last second digit leftwards; then the date row, from the
/// first year digit rightwards. Byte 10, between date and time, is not drawn.
pub open spec fn slot_char(k: nat) -> nat {
    if k < 8 {
        (18 - k) as nat
    } else {
        (k - 8) as nat
    }
}

/// Where glyph position `k` sits: cells 7 pixels apart, the date row at
/// (9, 4), the time row at (16, 16).
pub open spec fn slot_position(k: nat) -> Position {
    if k < 8 {
        Position { left: (65 - 7 * k) as u16, top: 16 }
    } else {
        Position { left: (9 + 7 * (k - 8)) as u16, top: 4 }
    }
}

/// The glyph code that position `k` shows for timestamp bytes `ts`.
pub open spec fn slot_glyph(ts: Seq<u8>, k: nat) -> nat {
    codepoint(ts[slot_char(k) as int])
}

/// Image `j` of the frame for timestamp bytes `ts`: position, size and
/// LZW data. Image 0 is the empty banner; image `k + 1` is glyph position `k`.
pub open spec fn frame_image(ts: Seq<u8>, j: nat) -> (Position, Size, Seq<u8>) {
    if j == 0 {
        (
            Position { left: 0, top: 0 },
            Size { width: SCREEN_WIDTH, height: SCREEN_HEIGHT },
            lzw_of(background_pixels()),
        )
    } else {
        (
            slot_position((j - 1) as nat),
            Size { width: FONT_WIDTH, height: FONT_HEIGHT },
            lzw_of(glyph_pixels(slot_glyph(ts, (j - 1) as nat))),
        )
    }
}

/// A control extension block followed by an image block without a local
/// color table.
pub open spec fn pair_bytes(pos: Position, size: Size, data: Seq<u8>) -> Seq<u8> {
    seq![EXTENSION_TAG] + extension_bytes(Extension::GraphicsControlExtension(frame_gce())) + seq![
        IMAGE_TAG,
    ] + le16(pos.left) + le16(pos.top) + le16(size.width) + le16(size.height) + seq![
        0u8,
        LZW_CODESIZE,
    ] + chunked(data)
}

pub open spec fn image_pair_bytes(ts: Seq<u8>, j: nat) -> Seq<u8> {
    let (pos, size, data) = frame_image(ts, j);
    pair_bytes(pos, size, data)
}

/// The first `n` image pairs of the frame for `ts`.
pub open spec fn frame_prefix(ts: Seq<u8>, n: nat) -> Seq<u8>
    decreases n,
{
    if n == 0 {
        Seq::empty()
    } else {
        frame_prefix(ts, (n - 1) as nat) + image_pair_bytes(ts, (n - 1) as nat)
    }
}

/// The bytes of the frame for timestamp bytes `ts`.
pub open spec fn frame_bytes(ts: Seq<u8>) -> Seq<u8> {
    frame_prefix(ts, FRAME_IMAGES as nat)
}

/// The UTF-8 bytes of a timestamp.
pub open spec fn timestamp_bytes(s: Seq<char>) -> Seq<u8> {
    vstd::utf8::encode_utf8(s)
}

/// A timestamp has the fixed layout: 19 bytes.
pub open spec fn is_timestamp_layout(s: Seq<char>) -> bool {
    timestamp_bytes(s).len() == TIMESTAMP_LEN
}

/// Number of image blocks in `bs`.
pub open spec fn image_count(bs: Seq<Block>) -> nat
    decreases bs.len(),
{
    if bs.len() == 0 {
        0
    } else {
        image_count(bs.drop_last()) + if bs.last() is Image {
            1nat
        } else {
            0nat
        }
    }
}

proof fn lemma_push_pair(before: Seq<Block>, gce: Block, image: Block)
    requires
        blocks_valid(before),
        gce is Extension,
        image is Image,
        image->Image_0.image.local_color_table@.len() == 0,
    ensures
        ({
            let after = before.push(gce).push(image);
            &&& blocks_bytes(after) == blocks_bytes(before) + block_bytes(&gce) + block_bytes(&image)
            &&& image_count(after) == image_count(before) + 1
            &&& blocks_valid(after)
        }),
{
    let mid = before.push(gce);
    let after = mid.push(image);
    assert(after.drop_last() =~= mid);
    assert(mid.drop_last() =~= before);
    assert(blocks_bytes(mid) == blocks_bytes(before) + block_bytes(&gce));
    assert(blocks_bytes(after) == blocks_bytes(mid) + block_bytes(&image));
    assert(image_count(mid) == image_count(before));
    assert(image_count(after) == image_count(mid) + 1);
    assert forall|i: int| 0 <= i < after.len() implies crate::gif::block_valid(&#[trigger] after[i]) by {
        if i < before.len() {
            assert(after[i] == before[i]);
        }
    }
    assert(blocks_valid(after));
}

/// The image block for `pos`, `size` and `data`, without a local color table.
fn plain_image(pos: Position, size: Size, data: Vec<u8>) -> (r: Block)
    ensures
        block_bytes(&r) == seq![IMAGE_TAG] + le16(pos.left) + le16(pos.top) + le16(size.width)
            + le16(size.height) + seq![0u8, LZW_CODESIZE] + chunked(data@),
        r is Image,
        r->Image_0.image.local_color_table@.len() == 0,
{
    let r = Block::Image(
        ImagePositioned {
            position: pos,
            image: Image {
                size,
                packed: ImagePacked::new(),
                local_color_table: Vec::new(),
                lzw_binary: data,
            },
        },
    );
    proof {
        let ip = r->Image_0;
        reveal_with_fuel(log2, 2);
        assert(table_bytes(ip.image.local_color_table@) =~= Seq::<u8>::empty());
        assert(block_bytes(&r) =~= seq![IMAGE_TAG] + le16(pos.left) + le16(pos.top) + le16(
            size.width,
        ) + le16(size.height) + seq![0u8, LZW_CODESIZE] + chunked(data@));
    }
    r
}

/// The bytes of image block `image`, when it is image `j` of the frame for `ts`.
pub open spec fn is_frame_image_block(ts: Seq<u8>, j: nat, image: Block) -> bool {
    let (p, z, d) = frame_image(ts, j);
    block_bytes(&image) == seq![IMAGE_TAG] + le16(p.left) + le16(p.top) + le16(z.width) + le16(
        z.height,
    ) + seq![0u8, LZW_CODESIZE] + chunked(d)
}

proof fn lemma_pair_bytes(ts: Seq<u8>, j: nat, gce: Block, image: Block)
    requires
        gce == Block::Extension(Extension::GraphicsControlExtension(frame_gce())),
        is_frame_image_block(ts, j, image),
    ensures
        block_bytes(&gce) + block_bytes(&image) == image_pair_bytes(ts, j),
{
    assert(block_bytes(&gce) =~= seq![EXTENSION_TAG] + extension_bytes(
        Extension::GraphicsControlExtension(frame_gce()),
    ));
    assert(block_bytes(&gce) + block_bytes(&image) =~= image_pair_bytes(ts, j));
}

/// Image `j` of the frame for `ts`, its glyph taken from `atlas`.
fn frame_image_block(ts: &[u8], atlas: &Atlas, j: usize) -> (r: Block)
    requires
        ts@.len() == TIMESTAMP_LEN,
        j < FRAME_IMAGES,
    ensures
        r is Image,
        r->Image_0.image.local_color_table@.len() == 0,
        is_frame_image_block(ts@, j as nat, r),
{
    let (pos, size, data) = if j == 0 {
        (Position::new(0, 0), Size::new(SCREEN_WIDTH, SCREEN_HEIGHT), atlas.background_data())
    } else {
        let k = j - 1;
        let (index, pos) = if k < 8 {
            (18 - k, Position::new(65 - 7 * k as u16, 16))
        } else {
            (k - 8, Position::new(9 + 7 * (k - 8) as u16, 4))
        };
        let code = to_codepoint(ts[index]);
        assert(index == slot_char(k as nat));
        assert(code == slot_glyph(ts@, k as nat));
        (pos, Size::new(FONT_WIDTH, FONT_HEIGHT), atlas.glyph_data(code))
    };
    assert(pos == frame_image(ts@, j as nat).0);
    assert(size == frame_image(ts@, j as nat).1);
    assert(data@ == frame_image(ts@, j as nat).2);
    plain_image(pos, size, data)
}

/// The blocks that redraw the whole banner for timestamp bytes `ts`: for
/// the empty banner and then for every glyph position, a control extension
/// followed by the image, each glyph taken from `atlas`.
pub fn compose(ts: &[u8], atlas: &Atlas) -> (r: Vec<Block>)
    requires
        ts@.len() == TIMESTAMP_LEN,
    ensures
        r@.len() == 2 * FRAME_IMAGES,
        image_count(r@) == FRAME_IMAGES,
        blocks_valid(r@),
        blocks_bytes(r@) == frame_bytes(ts@),
{
    let mut blocks: Vec<Block> = Vec::new();
    let mut j: usize = 0;
    while j < FRAME_IMAGES
        invariant
            j <= FRAME_IMAGES,
            ts@.len() == TIMESTAMP_LEN,
            blocks@.len() == 2 * j,
            image_count(blocks@) == j,
            blocks_valid(blocks@),
            blocks_bytes(blocks@) == frame_prefix(ts@, j as nat),
        decreases FRAME_IMAGES - j,
    {
        let image = frame_image_block(ts, atlas, j);
        let ghost before = blocks@;
        let gce = Block::Extension(Extension::GraphicsControlExtension(new_gce()));
        blocks.push(gce);
        blocks.push(image);
        proof {
            lemma_push_pair(before, gce, image);
            lemma_pair_bytes(ts@, j as nat, gce, image);
            assert(blocks@ == before.push(gce).push(image));
            assert(blocks_bytes(blocks@) =~= frame_prefix(ts@, (j + 1) as nat));
        }
        j = j + 1;
    }
    blocks
}

/// Why a frame could not be composed.
#[derive(Clone, Copy, Debug, PartialEq, Eq, Structural)]
pub enum FrameError {
    /// The timestamp is not 19 bytes long.
    MalformedTimestamp,
}

/// The bytes that redraw the banner for the time in `ctx`: every glyph
/// position is sent again, whatever the previous frame showed. Fails with
/// `MalformedTimestamp` when the timestamp is not 19 bytes long; any byte
/// other than a digit, `-` or `:` is drawn blank.
pub fn encode(ctx: &Context, atlas: &Atlas) -> (r: Result<Vec<u8>, FrameError>)
    ensures
        is_timestamp_layout(ctx.jst@) ==> (r matches Ok(v) && v@ == frame_bytes(
            timestamp_bytes(ctx.jst@),
        )),
        !is_timestamp_layout(ctx.jst@) ==> r == Err::<Vec<u8>, FrameError>(
            FrameError::MalformedTimestamp,
        ),
{
    let ts = ctx.jst.as_str().as_bytes();
    if ts.len() != TIMESTAMP_LEN {
        return Err(FrameError::MalformedTimestamp);
    }
    let blocks = compose(ts, atlas);
    // No composed image has a local color table, so writing cannot fail;
    // the error arm is never taken.
    match encode_blocks(blocks.as_slice()) {
        Ok(v) => Ok(v),
        Err(_) => Err(FrameError::MalformedTimestamp),
    }
}

/// The bytes that open the stream, given the LZW data of the empty banner:
/// signature `GIF89a`, an 88 x 31 screen with a two-color global table
/// (black, white) and color resolution 7, then the empty banner drawn once.
pub open spec fn banner_header_bytes(background: Seq<u8>) -> Seq<u8> {
    magic_bytes() + version_bytes(Version::GIF89a) + le16(SCREEN_WIDTH) + le16(SCREEN_HEIGHT)
        + seq![HeaderPacked::pack(0, false, 7, true), 0u8, 0u8] + table_bytes(
        seq![Color { r: 0, g: 0, b: 0 }, Color { r: 0xFF, g: 0xFF, b: 0xFF }],
    ) + pair_bytes(
        Position { left: 0, top: 0 },
        Size { width: SCREEN_WIDTH, height: SCREEN_HEIGHT },
        background,
    )
}

/// Writes the bytes that open the stream around the LZW data of the empty
/// banner.
pub fn banner_header(background: &Vec<u8>) -> (r: Vec<u8>)
    ensures
        r@ == banner_header_bytes(background@),
{
    let packed = HeaderPacked::new().with_global_color_table_flag(true).with_color_resolution(7);
    proof {
        HeaderPacked::lemma_pack(0, false, 0, true);
        HeaderPacked::lemma_pack(0, false, 7, true);
        reveal_with_fuel(log2, 2);
    }
    let gce = Block::Extension(Extension::GraphicsControlExtension(new_gce()));
    let image = plain_image(
        Position::new(0, 0),
        Size::new(SCREEN_WIDTH, SCREEN_HEIGHT),
        vstd::slice::slice_to_vec(background.as_slice()),
    );
    let mut table: Vec<Color> = Vec::new();
    table.push(Color::from_rgb(0x00, 0x00, 0x00));
    table.push(Color::from_rgb(0xFF, 0xFF, 0xFF));
    let mut blocks: Vec<Block> = Vec::new();
    blocks.push(gce);
    blocks.push(image);
    let mygif = Gif {
        version: Version::GIF89a,
        screen_width: SCREEN_WIDTH,
        screen_height: SCREEN_HEIGHT,
        packed,
        background_color_index: 0x00,
        pixel_aspect_ratio: 0,
        global_color_table: table,
        blocks,
    };
    proof {
        reveal_with_fuel(table_bytes, 3);
        reveal_with_fuel(blocks_bytes, 3);
        assert(mygif.packed.bits == HeaderPacked::pack(0, false, 7, true));
        assert(table_size_code(2) == 0);
        assert(crate::gif::header_flags(&mygif) == HeaderPacked::pack(0, false, 7, true));
        assert(blocks_valid(mygif.blocks@));
        assert(mygif.blocks@.drop_last().drop_last() =~= Seq::<Block>::empty());
        assert(blocks_bytes(mygif.blocks@) =~= pair_bytes(
            Position { left: 0, top: 0 },
            Size { width: SCREEN_WIDTH, height: SCREEN_HEIGHT },
            background@,
        ));
        assert(mygif.global_color_table@ =~= seq![
            Color { r: 0, g: 0, b: 0 },
            Color { r: 0xFF, g: 0xFF, b: 0xFF },
        ]);
        assert(gif_bytes(&mygif) =~= banner_header_bytes(background@));
    }
    // Both color tables have allowed lengths, so writing cannot fail; the
    // error arm is never taken.
    match mygif.write() {
        Ok(v) => v,
        Err(_) => Vec::new(),
    }
}

/// A frame depends on nothing but the glyph each position shows: two
/// timestamps that put the same glyph at every position give byte-identical
/// frames, whatever was sent before. In particular the same timestamp always
/// gives the same bytes.
pub proof fn lemma_frame_depends_on_glyphs_alone(a: Seq<u8>, b: Seq<u8>)
    requires
        forall|k: nat| k < GLYPH_SLOTS ==> slot_glyph(a, k) == slot_glyph(b, k),
    ensures
        frame_bytes(a) == frame_bytes(b),
{
    lemma_frame_prefix_agrees(a, b, FRAME_IMAGES as nat);
}

proof fn lemma_frame_prefix_agrees(a: Seq<u8>, b: Seq<u8>, n: nat)
    requires
        n <= FRAME_IMAGES,
        forall|k: nat| k < GLYPH_SLOTS ==> slot_glyph(a, k) == slot_glyph(b, k),
    ensures
        frame_prefix(a, n) == frame_prefix(b, n),
    decreases n,
{
    if n > 0 {
        lemma_frame_prefix_agrees(a, b, (n - 1) as nat);
        if n > 1 {
            assert(slot_glyph(a, (n - 2) as nat) == slot_glyph(b, (n - 2) as nat));
        }
        assert(frame_image(a, (n - 1) as nat) == frame_image(b, (n - 1) as nat));
    }
}

/// The screen descriptor that opens the stream, with its two-color global
/// table, records a present global table with size code 0 (two entries),
/// whatever the background data.
pub proof fn lemma_banner_header_flags(background: Seq<u8>)
    ensures
        ({
            let f = HeaderPacked { bits: banner_header_bytes(background)[10] };
            &&& f.spec_global_table()
            &&& f.spec_size() == 0
            &&& f.spec_size() == table_size_code(2)
            &&& f.spec_color_resolution() == 7
        }),
{
    reveal_with_fuel(log2, 2);
    HeaderPacked::lemma_pack(0, false, 7, true);
    let h = banner_header_bytes(background);
    assert(h[10] == HeaderPacked::pack(0, false, 7, true));
}

} // verus!
