//! Sub-block framing of GIF data streams: a run of chunks, each prefixed by
//! its length (at most 255), ended by a zero-length chunk.
use vstd::prelude::*;

verus! {

/// Largest payload of a single sub-block.
pub const MAX_CHUNK: usize = 255;

/// Length of the first chunk that framing `len` bytes produces.
pub open spec fn first_chunk_len(len: nat) -> nat {
    if len < 255 {
        len
    } else {
        255
    }
}

/// The framed form of `data`.
pub open spec fn chunked(data: Seq<u8>) -> Seq<u8>
    decreases data.len(),
{
    if data.len() == 0 {
        seq![0u8]
    } else {
        let n = first_chunk_len(data.len()) as int;
        seq![n as u8] + data.take(n) + chunked(data.skip(n))
    }
}

/// Reads a framed stream at the start of `s`: the payload put back together
/// and the number of bytes the framing took, or `None` when `s` ends before
/// the terminating zero-length chunk.
pub open spec fn unchunked(s: Seq<u8>) -> Option<(Seq<u8>, nat)>
    decreases s.len(),
{
    if s.len() == 0 {
        None
    } else if s[0] == 0 {
        Some((Seq::<u8>::empty(), 1nat))
    } else if s.len() < 1 + s[0] {
        None
    } else {
        let n = s[0] as int;
        match unchunked(s.skip(1 + n)) {
            Some((d, k)) => Some((s.subrange(1, 1 + n) + d, (1 + n + k) as nat)),
            None => None,
        }
    }
}

/// Number of payload chunks that framing `len` bytes produces: `ceil(len / 255)`.
pub open spec fn chunk_count(len: nat) -> nat {
    (len + 254) / 255
}

/// Framing `N` bytes takes `N + ceil(N / 255) + 1` bytes.
pub proof fn lemma_chunked_len(data: Seq<u8>)
    ensures
        chunked(data).len() == data.len() + chunk_count(data.len()) + 1,
    decreases data.len(),
{
    if data.len() > 0 {
        let n = first_chunk_len(data.len()) as int;
        lemma_chunked_len(data.skip(n));
    }
}

/// Reading the framed form of `data`, whatever follows it, gives back `data`
/// and the exact length of the framing.
pub proof fn lemma_unchunk_chunked(data: Seq<u8>, rest: Seq<u8>)
    ensures
        unchunked(chunked(data) + rest) == Some((data, chunked(data).len())),
    decreases data.len(),
{
    let s = chunked(data) + rest;
    if data.len() == 0 {
        assert(s[0] == 0);
    } else {
        let n = first_chunk_len(data.len()) as int;
        let tail = data.skip(n);
        lemma_unchunk_chunked(tail, rest);
        lemma_chunked_len(tail);
        assert(s.skip(1 + n) =~= chunked(tail) + rest);
        assert(s.subrange(1, 1 + n) =~= data.take(n));
        assert(data.take(n) + tail =~= data);
    }
}

/// Appends the framed form of `binary` to `out`.
pub fn chunked_binary_writer(out: &mut Vec<u8>, binary: &[u8])
    ensures
        final(out)@ == old(out)@ + chunked(binary@),
{
    let len = binary.len();
    let mut cursor: usize = 0;
    assert(binary@.skip(0) =~= binary@);
    loop
        invariant_except_break
            cursor <= len,
            len == binary@.len(),
            out@ + chunked(binary@.skip(cursor as int)) == old(out)@ + chunked(binary@),
        ensures
            out@ == old(out)@ + chunked(binary@),
        decreases len - cursor,
    {
        let delta: usize = if len - cursor < MAX_CHUNK { len - cursor } else { MAX_CHUNK };
        let ghost before = out@;
        let ghost rest = binary@.skip(cursor as int);
        out.push(delta as u8);
        if delta == 0 {
            assert(rest.len() == 0);
            assert(out@ =~= before + chunked(rest));
            assert(out@ == old(out)@ + chunked(binary@));
            break;
        }
        let mut i: usize = cursor;
        while i < cursor + delta
            invariant
                cursor <= i <= cursor + delta <= len,
                delta <= 255,
                len == binary@.len(),
                out@ == before + seq![delta as u8] + binary@.subrange(cursor as int, i as int),
            decreases cursor + delta - i,
        {
            out.push(binary[i]);
            assert(binary@.subrange(cursor as int, i + 1) =~= binary@.subrange(cursor as int, i as int).push(binary@[i as int]));
            i = i + 1;
        }
        assert(rest.take(delta as int) =~= binary@.subrange(cursor as int, cursor + delta));
        assert(rest.skip(delta as int) =~= binary@.skip(cursor + delta));
        assert(chunked(rest) == seq![delta as u8] + rest.take(delta as int) + chunked(rest.skip(delta as int)));
        assert(out@ + chunked(binary@.skip(cursor + delta)) =~= before + chunked(rest));
        cursor = cursor + delta;
    }
}

/// Why a framed stream could not be read.
#[derive(Clone, Copy, Debug, PartialEq, Eq, Structural)]
pub enum ChunkError {
    /// The input ended before the zero-length chunk that ends the stream.
    UnexpectedEnd,
}

/// Reads the framed stream at the start of `input`: the payload put back
/// together, and how many bytes of `input` the framing took.
pub fn chunked_binary_parser(input: &[u8]) -> (r: Result<(Vec<u8>, usize), ChunkError>)
    ensures
        match unchunked(input@) {
            Some((d, k)) => r matches Ok((v, used)) && v@ == d && used == k,
            None => r == Err::<(Vec<u8>, usize), ChunkError>(ChunkError::UnexpectedEnd),
        },
{
    let mut binary: Vec<u8> = Vec::new();
    let mut pos: usize = 0;
    assert(input@.skip(0) =~= input@);
    assert(forall|d: Seq<u8>| binary@ + d =~= d);
    loop
        invariant
            pos <= input@.len(),
            unchunked(input@) == match unchunked(input@.skip(pos as int)) {
                Some((d, k)) => Some((binary@ + d, (pos + k) as nat)),
                None => None::<(Seq<u8>, nat)>,
            },
        decreases input@.len() - pos,
    {
        let ghost s = input@.skip(pos as int);
        if pos >= input.len() {
            return Err(ChunkError::UnexpectedEnd);
        }
        let block_size = input[pos] as usize;
        if block_size == 0 {
            assert(binary@ + Seq::<u8>::empty() =~= binary@);
            return Ok((binary, pos + 1));
        }
        if input.len() - pos - 1 < block_size {
            return Err(ChunkError::UnexpectedEnd);
        }
        let ghost old_binary = binary@;
        let end = pos + 1 + block_size;
        let mut i: usize = pos + 1;
        while i < end
            invariant
                end == pos + 1 + block_size,
                pos + 1 <= i <= end <= input@.len(),
                binary@ == old_binary + input@.subrange(pos + 1, i as int),
            decreases end - i,
        {
            binary.push(input[i]);
            assert(input@.subrange(pos + 1, i + 1) =~= input@.subrange(pos + 1, i as int).push(input@[i as int]));
            i = i + 1;
        }
        assert(s.skip(1 + block_size) =~= input@.skip(pos + 1 + block_size));
        assert(s.subrange(1, 1 + block_size) =~= input@.subrange(pos + 1, pos + 1 + block_size));
        proof {
            match unchunked(input@.skip(pos + 1 + block_size)) {
                Some((d, k)) => {
                    assert(old_binary + (s.subrange(1, 1 + block_size as int) + d) =~= binary@ + d);
                },
                None => {},
            }
        }
        pos = end;
    }
}

} // verus!
