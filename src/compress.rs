//! LZW compression of indexed pixel data, as GIF image data carries it.
use vstd::prelude::*;

verus! {

/// Minimum code size written before every image's data. Decoders handle 8
/// most widely, so it is fixed.
pub const LZW_CODESIZE: u8 = 8;

/// The LZW code stream (least significant bit first, minimum code size 8,
/// opened by a clear code and closed by an end code) for `data`.
pub uninterp spec fn lzw_of(data: Seq<u8>) -> Seq<u8>;

/// Relies on `lzw::Encoder::new`, `lzw::Encoder::encode_bytes` and the
/// encoder's `Drop` (which writes the last code and the end code), with an
/// `lzw::LsbWriter` at code size 8: the written stream depends on the input
/// bytes alone. Writing into a `Vec` cannot fail, and with code size 8 no
/// input byte is out of range, so none of them returns an error or panics.
#[verifier::external_body]
fn lzw_encode(data: &[u8]) -> (r: Vec<u8>)
    ensures
        r@ == lzw_of(data@),
{
    let mut bin = Vec::new();
    let mut encoder = lzw::Encoder::new(lzw::LsbWriter::new(&mut bin), LZW_CODESIZE).unwrap();
    encoder.encode_bytes(data).unwrap();
    drop(encoder);
    bin
}

/// Compresses `data` into an LZW code stream at code size 8.
pub fn do_lzw(data: &[u8]) -> (r: Vec<u8>)
    ensures
        r@ == lzw_of(data@),
{
    lzw_encode(data)
}

} // verus!
