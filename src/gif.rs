//! The GIF container: signature, logical screen descriptor, global color
//! table and the stream of blocks, written byte for byte.
use vstd::prelude::*;
use crate::chunk::{chunked, chunked_binary_writer};
use crate::compress::LZW_CODESIZE;
use crate::flags::{
    announced_table_len, is_table_len, lemma_table_len_round_trip, log2, table_size_code,
    valid_table_len, GraphicControlExtensionPacked, HeaderPacked, HeaderPackedWriteArgs, ImagePacked,
    ImagePackedWriteArgs,
};

verus! {

/// The two-byte little-endian form of `v`.
pub open spec fn le16(v: u16) -> Seq<u8> {
    seq![(v % 256) as u8, (v / 256) as u8]
}

fn write_u16(out: &mut Vec<u8>, v: u16)
    ensures
        final(out)@ == old(out)@ + le16(v),
{
    out.push((v % 256) as u8);
    out.push((v / 256) as u8);
    assert(out@ =~= old(out)@ + le16(v));
}

/// Format version named in the signature.
#[derive(Clone, Copy, Debug, PartialEq, Eq, Structural)]
pub enum Version {
    GIF87a,
    GIF89a,
}

/// The three bytes of the version tag: `87a` or `89a`.
pub open spec fn version_bytes(v: Version) -> Seq<u8> {
    match v {
        Version::GIF87a => seq![0x38u8, 0x37u8, 0x61u8],
        Version::GIF89a => seq![0x38u8, 0x39u8, 0x61u8],
    }
}

/// The three bytes that open every file: `GIF`.
pub open spec fn magic_bytes() -> Seq<u8> {
    seq![0x47u8, 0x49u8, 0x46u8]
}

/// Why bytes could not be read as a part of a GIF file.
#[derive(Clone, Copy, Debug, PartialEq, Eq, Structural)]
pub enum DecodeError {
    /// The input ended early.
    UnexpectedEnd,
    /// The version tag is neither `87a` nor `89a`.
    UnsupportedVersion,
}

impl Version {
    /// Appends the version tag.
    pub fn write_options(&self, out: &mut Vec<u8>)
        ensures
            final(out)@ == old(out)@ + version_bytes(*self),
    {
        out.push(0x38);
        match self {
            Version::GIF87a => out.push(0x37),
            Version::GIF89a => out.push(0x39),
        }
        out.push(0x61);
        assert(out@ =~= old(out)@ + version_bytes(*self));
    }

    /// Reads a version tag from the first three bytes of `input`.
    pub fn read_options(input: &[u8]) -> (r: Result<Version, DecodeError>)
        ensures
            input@.len() < 3 ==> r == Err::<Version, DecodeError>(DecodeError::UnexpectedEnd),
            input@.len() >= 3 ==> match r {
                Ok(v) => version_bytes(v) == input@.take(3),
                Err(e) => e == DecodeError::UnsupportedVersion && input@.take(3) != version_bytes(
                    Version::GIF87a,
                ) && input@.take(3) != version_bytes(Version::GIF89a),
            },
    {
        if input.len() < 3 {
            return Err(DecodeError::UnexpectedEnd);
        }
        let ghost head = input@.take(3);
        if input[0] == 0x38 && input[2] == 0x61 {
            if input[1] == 0x37 {
                assert(head =~= version_bytes(Version::GIF87a));
                return Ok(Version::GIF87a);
            } else if input[1] == 0x39 {
                assert(head =~= version_bytes(Version::GIF89a));
                return Ok(Version::GIF89a);
            }
        }
        proof {
            if head == version_bytes(Version::GIF87a) {
                assert(head[1] == version_bytes(Version::GIF87a)[1]);
                assert(head[0] == version_bytes(Version::GIF87a)[0]);
                assert(head[2] == version_bytes(Version::GIF87a)[2]);
            }
            if head == version_bytes(Version::GIF89a) {
                assert(head[1] == version_bytes(Version::GIF89a)[1]);
                assert(head[0] == version_bytes(Version::GIF89a)[0]);
                assert(head[2] == version_bytes(Version::GIF89a)[2]);
            }
        }
        Err(DecodeError::UnsupportedVersion)
    }
}

/// One color table entry.
#[derive(Clone, Copy, Debug, PartialEq, Eq, Structural)]
pub struct Color {
    pub r: u8,
    pub g: u8,
    pub b: u8,
}

impl Color {
    pub fn from_rgb(r: u8, g: u8, b: u8) -> (c: Self)
        ensures
            c == (Color { r, g, b }),
    {
        Color { r, g, b }
    }
}

/// The bytes of a color table: red, green and blue of each entry in turn.
pub open spec fn table_bytes(t: Seq<Color>) -> Seq<u8>
    decreases t.len(),
{
    if t.len() == 0 {
        Seq::empty()
    } else {
        table_bytes(t.drop_last()) + seq![t.last().r, t.last().g, t.last().b]
    }
}

fn write_table(out: &mut Vec<u8>, table: &Vec<Color>)
    ensures
        final(out)@ == old(out)@ + table_bytes(table@),
{
    let mut i: usize = 0;
    assert(table@.take(0) =~= Seq::<Color>::empty());
    assert(out@ =~= old(out)@ + table_bytes(table@.take(0)));
    while i < table.len()
        invariant
            i <= table@.len(),
            out@ == old(out)@ + table_bytes(table@.take(i as int)),
        decreases table@.len() - i,
    {
        let c = table[i];
        out.push(c.r);
        out.push(c.g);
        out.push(c.b);
        assert(table@.take(i + 1).drop_last() =~= table@.take(i as int));
        assert(out@ =~= old(out)@ + table_bytes(table@.take(i + 1)));
        i = i + 1;
    }
    assert(table@.take(i as int) =~= table@);
}

/// Top-left corner of an image on the logical screen.
#[derive(Clone, Copy, Debug, PartialEq, Eq, Structural)]
pub struct Position {
    pub left: u16,
    pub top: u16,
}

impl Position {
    pub fn new(left: u16, top: u16) -> (r: Self)
        ensures
            r == (Position { left, top }),
    {
        Position { left, top }
    }
}

/// Width and height in pixels.
#[derive(Clone, Copy, Debug, PartialEq, Eq, Structural)]
pub struct Size {
    pub width: u16,
    pub height: u16,
}

impl Size {
    pub fn new(width: u16, height: u16) -> (r: Self)
        ensures
            r == (Size { width, height }),
    {
        Size { width, height }
    }
}

/// An image: its size, flags, optional local color table and LZW data.
///
/// The written flags take their local-table present-flag and size code
/// from the table itself, whatever `packed` holds there.
#[derive(Debug)]
pub struct Image {
    pub size: Size,
    pub packed: ImagePacked,
    pub local_color_table: Vec<Color>,
    pub lzw_binary: Vec<u8>,
}

/// An image placed on the logical screen.
#[derive(Debug)]
pub struct ImagePositioned {
    pub position: Position,
    pub image: Image,
}

/// The flags byte written for `img`.
pub open spec fn image_flags(img: &Image) -> u8 {
    let len = img.local_color_table@.len();
    ImagePacked::pack(
        table_size_code(len),
        img.packed.spec_reserved(),
        img.packed.spec_sort(),
        img.packed.spec_interlace(),
        len > 0,
    )
}

/// The bytes of an image descriptor after its position, through the end of
/// its data stream.
pub open spec fn image_bytes(img: &Image) -> Seq<u8> {
    le16(img.size.width) + le16(img.size.height) + seq![image_flags(img)] + table_bytes(
        img.local_color_table@,
    ) + seq![LZW_CODESIZE] + chunked(img.lzw_binary@)
}

pub open spec fn image_positioned_bytes(ip: &ImagePositioned) -> Seq<u8> {
    le16(ip.position.left) + le16(ip.position.top) + image_bytes(&ip.image)
}

impl Image {
    /// Appends this image's bytes.
    pub fn write_options(&self, out: &mut Vec<u8>)
        requires
            is_table_len(self.local_color_table@.len()),
        ensures
            final(out)@ == old(out)@ + image_bytes(self),
    {
        write_u16(out, self.size.width);
        write_u16(out, self.size.height);
        self.packed.write_options(
            out,
            ImagePackedWriteArgs { local_color_table_length: self.local_color_table.len() },
        );
        write_table(out, &self.local_color_table);
        out.push(LZW_CODESIZE);
        chunked_binary_writer(out, self.lzw_binary.as_slice());
        assert(out@ =~= old(out)@ + image_bytes(self));
    }
}

impl ImagePositioned {
    /// Appends this image's position and bytes.
    pub fn write_options(&self, out: &mut Vec<u8>)
        requires
            is_table_len(self.image.local_color_table@.len()),
        ensures
            final(out)@ == old(out)@ + image_positioned_bytes(self),
    {
        write_u16(out, self.position.left);
        write_u16(out, self.position.top);
        self.image.write_options(out);
        assert(out@ =~= old(out)@ + image_positioned_bytes(self));
    }
}

/// Timing and transparency for the image that follows it.
#[derive(Clone, Copy, Debug, PartialEq, Eq, Structural)]
pub struct GraphicsControlExtension {
    pub packed: GraphicControlExtensionPacked,
    /// In hundredths of a second.
    pub delay_time: u16,
    pub transpalent_color_index: u8,
}

/// The bytes of a graphic control extension after its label: block size 4,
/// flags, delay, transparent color index, terminator.
pub open spec fn gce_bytes(g: GraphicsControlExtension) -> Seq<u8> {
    seq![0x04u8, g.packed.wire_byte()] + le16(g.delay_time) + seq![g.transpalent_color_index, 0x00u8]
}

impl GraphicsControlExtension {
    pub fn write_options(&self, out: &mut Vec<u8>)
        ensures
            final(out)@ == old(out)@ + gce_bytes(*self),
    {
        out.push(0x04);
        self.packed.write_options(out);
        write_u16(out, self.delay_time);
        out.push(self.transpalent_color_index);
        out.push(0x00);
        assert(out@ =~= old(out)@ + gce_bytes(*self));
    }
}

#[derive(Clone, Copy, Debug, PartialEq, Eq, Structural)]
pub enum Extension {
    GraphicsControlExtension(GraphicsControlExtension),
}

/// Label of a graphic control extension.
pub const GCE_LABEL: u8 = 0xF9;

pub open spec fn extension_bytes(e: Extension) -> Seq<u8> {
    match e {
        Extension::GraphicsControlExtension(g) => seq![GCE_LABEL] + gce_bytes(g),
    }
}

/// A member of the block stream.
#[derive(Debug)]
pub enum Block {
    Image(ImagePositioned),
    Extension(Extension),
    Trailer(()),
}

/// Tag that opens an image block.
pub const IMAGE_TAG: u8 = 0x2C;

/// Tag that opens an extension block.
pub const EXTENSION_TAG: u8 = 0x21;

/// Tag of the trailer that ends the block stream.
pub const TRAILER_TAG: u8 = 0x3B;

pub open spec fn block_bytes(b: &Block) -> Seq<u8> {
    match b {
        Block::Image(ip) => seq![IMAGE_TAG] + image_positioned_bytes(ip),
        Block::Extension(e) => seq![EXTENSION_TAG] + extension_bytes(*e),
        Block::Trailer(_) => seq![TRAILER_TAG],
    }
}

/// A block can be written: an image's local color table has an allowed length.
pub open spec fn block_valid(b: &Block) -> bool {
    match b {
        Block::Image(ip) => is_table_len(ip.image.local_color_table@.len()),
        _ => true,
    }
}

pub open spec fn blocks_valid(bs: Seq<Block>) -> bool {
    forall|i: int| 0 <= i < bs.len() ==> block_valid(&#[trigger] bs[i])
}

/// The bytes of a run of blocks, one after another.
pub open spec fn blocks_bytes(bs: Seq<Block>) -> Seq<u8>
    decreases bs.len(),
{
    if bs.len() == 0 {
        Seq::empty()
    } else {
        blocks_bytes(bs.drop_last()) + block_bytes(&bs.last())
    }
}

impl Block {
    pub fn write_options(&self, out: &mut Vec<u8>)
        requires
            block_valid(self),
        ensures
            final(out)@ == old(out)@ + block_bytes(self),
    {
        match self {
            Block::Image(ip) => {
                out.push(IMAGE_TAG);
                ip.write_options(out);
            },
            Block::Extension(Extension::GraphicsControlExtension(g)) => {
                out.push(EXTENSION_TAG);
                out.push(GCE_LABEL);
                g.write_options(out);
            },
            Block::Trailer(_) => {
                out.push(TRAILER_TAG);
            },
        }
        assert(out@ =~= old(out)@ + block_bytes(self));
    }
}

/// Appends the bytes of `blocks`, one after another.
pub fn write_blocks(out: &mut Vec<u8>, blocks: &[Block])
    requires
        blocks_valid(blocks@),
    ensures
        final(out)@ == old(out)@ + blocks_bytes(blocks@),
{
    let mut i: usize = 0;
    assert(blocks@.take(0) =~= Seq::<Block>::empty());
    assert(out@ =~= old(out)@ + blocks_bytes(blocks@.take(0)));
    while i < blocks.len()
        invariant
            i <= blocks@.len(),
            blocks_valid(blocks@),
            out@ == old(out)@ + blocks_bytes(blocks@.take(i as int)),
        decreases blocks@.len() - i,
    {
        let b = &blocks[i];
        assert(block_valid(&blocks@[i as int]));
        b.write_options(out);
        assert(blocks@.take(i + 1).drop_last() =~= blocks@.take(i as int));
        assert(out@ =~= old(out)@ + blocks_bytes(blocks@.take(i + 1)));
        i = i + 1;
    }
    assert(blocks@.take(i as int) =~= blocks@);
}

/// Why a container could not be written.
#[derive(Clone, Copy, Debug, PartialEq, Eq, Structural)]
pub enum EncodeError {
    /// A color table's length is neither 0 nor a power of two from 2 to 256.
    InvalidColorTable,
}

/// The bytes of `blocks`, or `InvalidColorTable` when an image's local color
/// table has a length that is not allowed.
pub fn encode_blocks(blocks: &[Block]) -> (r: Result<Vec<u8>, EncodeError>)
    ensures
        blocks_valid(blocks@) ==> (r matches Ok(v) && v@ == blocks_bytes(blocks@)),
        !blocks_valid(blocks@) ==> r == Err::<Vec<u8>, EncodeError>(EncodeError::InvalidColorTable),
{
    let mut i: usize = 0;
    while i < blocks.len()
        invariant
            i <= blocks@.len(),
            forall|j: int| 0 <= j < i ==> block_valid(&#[trigger] blocks@[j]),
        decreases blocks@.len() - i,
    {
        if let Block::Image(ip) = &blocks[i] {
            if !valid_table_len(ip.image.local_color_table.len()) {
                return Err(EncodeError::InvalidColorTable);
            }
        }
        i = i + 1;
    }
    let mut out: Vec<u8> = Vec::new();
    write_blocks(&mut out, blocks);
    assert(out@ =~= blocks_bytes(blocks@));
    Ok(out)
}

/// A whole container.
///
/// The written screen descriptor flags take their global-table
/// present-flag and size code from the table itself, whatever `packed`
/// holds there.
#[derive(Debug)]
pub struct Gif {
    pub version: Version,
    pub screen_width: u16,
    pub screen_height: u16,
    pub packed: HeaderPacked,
    pub background_color_index: u8,
    pub pixel_aspect_ratio: u8,
    pub global_color_table: Vec<Color>,
    pub blocks: Vec<Block>,
}

/// The screen descriptor flags byte written for `g`.
pub open spec fn header_flags(g: &Gif) -> u8 {
    let len = g.global_color_table@.len();
    HeaderPacked::pack(
        table_size_code(len),
        g.packed.spec_sort(),
        g.packed.spec_color_resolution(),
        len > 0,
    )
}

/// Every color table of `g` has an allowed length.
pub open spec fn gif_valid(g: &Gif) -> bool {
    is_table_len(g.global_color_table@.len()) && blocks_valid(g.blocks@)
}

/// Signature, screen descriptor, global color table and blocks, in order.
pub open spec fn gif_bytes(g: &Gif) -> Seq<u8> {
    magic_bytes() + version_bytes(g.version) + le16(g.screen_width) + le16(g.screen_height) + seq![
        header_flags(g),
        g.background_color_index,
        g.pixel_aspect_ratio,
    ] + table_bytes(g.global_color_table@) + blocks_bytes(g.blocks@)
}

impl Gif {
    /// The bytes of this container, or `InvalidColorTable` when one of its
    /// color tables has a length that is not allowed.
    pub fn write(&self) -> (r: Result<Vec<u8>, EncodeError>)
        ensures
            gif_valid(self) ==> (r matches Ok(v) && v@ == gif_bytes(self)),
            !gif_valid(self) ==> r == Err::<Vec<u8>, EncodeError>(EncodeError::InvalidColorTable),
    {
        if !valid_table_len(self.global_color_table.len()) {
            return Err(EncodeError::InvalidColorTable);
        }
        let body = encode_blocks(self.blocks.as_slice());
        match body {
            Err(e) => Err(e),
            Ok(blocks) => {
                let mut out: Vec<u8> = Vec::new();
                out.push(0x47);
                out.push(0x49);
                out.push(0x46);
                self.version.write_options(&mut out);
                write_u16(&mut out, self.screen_width);
                write_u16(&mut out, self.screen_height);
                self.packed.write_options(
                    &mut out,
                    HeaderPackedWriteArgs { global_color_table_length: self.global_color_table.len() },
                );
                out.push(self.background_color_index);
                out.push(self.pixel_aspect_ratio);
                write_table(&mut out, &self.global_color_table);
                let mut rest = blocks;
                out.append(&mut rest);
                assert(out@ =~= gif_bytes(self));
                Ok(out)
            },
        }
    }
}

/// For every allowed global color table length `L`, the written screen
/// descriptor flags say that a table is present exactly when `L > 0`, give
/// the size code `log2(L) - 1` (0 without a table), announce `L` entries
/// again, and keep the sort flag and color resolution of `packed`.
pub proof fn lemma_header_flags_follow_table(g: &Gif)
    requires
        is_table_len(g.global_color_table@.len()),
    ensures
        ({
            let len = g.global_color_table@.len();
            let f = HeaderPacked { bits: header_flags(g) };
            &&& f.spec_global_table() == (len > 0)
            &&& f.spec_size() == if len > 0 {
                (log2(len) - 1) as nat
            } else {
                0
            }
            &&& announced_table_len(f.spec_global_table(), f.spec_size()) == len
            &&& f.spec_sort() == g.packed.spec_sort()
            &&& f.spec_color_resolution() == g.packed.spec_color_resolution()
        }),
{
    let len = g.global_color_table@.len();
    lemma_table_len_round_trip(len);
    HeaderPacked::lemma_pack(
        table_size_code(len),
        g.packed.spec_sort(),
        g.packed.spec_color_resolution(),
        len > 0,
    );
}

/// The same for an image and its local color table: present exactly when
/// `L > 0`, size code `log2(L) - 1`, `L` entries announced again, the other
/// fields as in `packed`.
pub proof fn lemma_image_flags_follow_table(img: &Image)
    requires
        is_table_len(img.local_color_table@.len()),
    ensures
        ({
            let len = img.local_color_table@.len();
            let f = ImagePacked { bits: image_flags(img) };
            &&& f.spec_local_table() == (len > 0)
            &&& f.spec_size() == if len > 0 {
                (log2(len) - 1) as nat
            } else {
                0
            }
            &&& announced_table_len(f.spec_local_table(), f.spec_size()) == len
            &&& f.spec_reserved() == img.packed.spec_reserved()
            &&& f.spec_sort() == img.packed.spec_sort()
            &&& f.spec_interlace() == img.packed.spec_interlace()
        }),
{
    let len = img.local_color_table@.len();
    lemma_table_len_round_trip(len);
    ImagePacked::lemma_pack(
        table_size_code(len),
        img.packed.spec_reserved(),
        img.packed.spec_sort(),
        img.packed.spec_interlace(),
        len > 0,
    );
}

} // verus!
