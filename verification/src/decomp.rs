//! The proprietary chunked LZ4 framing over one mip level's payload.
//!
//! A chunk declares its final decompressed length in a leading word and then
//! carries blocks of `(3-byte compressed length, 1-byte last flag, raw
//! bytes)`. Every block but the last inflates to exactly 65536 bytes; the
//! last inflates to whatever remains of the declared length. Window
//! continuity is kept across blocks: each block may reference everything
//! inflated before it. At the last block the running consumed-byte count
//! must equal the chunk's externally declared compressed size, or the chunk
//! is corrupt.

use vstd::prelude::*;

use crate::errors::EddsError;
use crate::reader::le24;
use crate::reader::le32;
use crate::reader::zero_vec;
use crate::reader::Reader;

verus! {

/// What one raw LZ4 block inflates to against the given preceding window:
/// the decompressed image, or nothing when the block is not a well-formed
/// complete LZ4 block against that window.
pub uninterp spec fn lz4_inflated(src: Seq<u8>, dict: Seq<u8>) -> Option<Seq<u8>>;

/// Relies on lzzzz's `lz4::decompress_with_dict` (`LZ4_decompress_safe_usingDict`):
/// inflates one raw LZ4 block into `dst`, with `dict` as the preceding
/// window. The call succeeds exactly when the block is well-formed and its
/// whole image fits the buffer; it then returns the image's length and
/// writes the image as the buffer's prefix, a function of the block and the
/// window alone. The lengths are bounded because the binding narrows them
/// to C integers.
#[verifier::external_body]
fn lz4_block_decompress(src: &[u8], dst: &mut Vec<u8>, dict: &[u8]) -> (r: Option<usize>)
    requires
        src@.len() <= 0x7fffffff,
        old(dst)@.len() <= 0x7fffffff,
        dict@.len() <= 0x7fffffff,
    ensures
        final(dst)@.len() == old(dst)@.len(),
        (lz4_inflated(src@, dict@) matches Some(img) && img.len() <= old(dst)@.len()) ==> r
            is Some,
        r is Some ==> (lz4_inflated(src@, dict@) matches Some(img) && img.len() <= old(
            dst,
        )@.len()),
        r matches Some(n) ==> (lz4_inflated(src@, dict@) matches Some(img) && n == img.len()
            && final(dst)@.subrange(0, n as int) == img),
{
    match lzzzz::lz4::decompress_with_dict(src, dst.as_mut_slice(), dict) {
        Ok(n) => Some(n),
        Err(_) => None,
    }
}

/// The walk over a chunk's blocks: starting at `p` with `acc` already
/// inflated toward the declared `total`, each block must inflate, against
/// the window built so far, to exactly its target — 65536 bytes for a
/// non-last block, the declared remainder for the last. It yields the
/// accumulated bytes and the position just past the last block, or the
/// error the walk stops with: a short read is an I/O error; a last block
/// that finds more already produced than the declared total is corrupt; a
/// block that is not well-formed LZ4, misses its target, or overruns the
/// machine bounds of the inflation primitive is a codec fault.
pub open spec fn spec_chunk_walk(d: Seq<u8>, p: int, acc: Seq<u8>, total: int) -> Result<
    (Seq<u8>, int),
    EddsError,
>
    decreases d.len() - p,
{
    if p + 4 > d.len() {
        Err(EddsError::Io)
    } else {
        let bsize = le24(d, p);
        let is_last = d[p + 3] != 0;
        if p + 4 + bsize > d.len() {
            Err(EddsError::Io)
        } else if is_last && acc.len() > total {
            Err(EddsError::StreamCorruption)
        } else {
            let target: int = if is_last {
                total - acc.len()
            } else {
                65536
            };
            if target > 0x7fffffff || acc.len() > 0x7fffffff {
                Err(EddsError::CodecFault)
            } else {
                match lz4_inflated(d.subrange(p + 4, p + 4 + bsize), acc) {
                    Option::None => Err(EddsError::CodecFault),
                    Option::Some(img) => {
                        if img.len() != target {
                            Err(EddsError::CodecFault)
                        } else if is_last {
                            Ok((acc + img, p + 4 + bsize))
                        } else {
                            spec_chunk_walk(d, p + 4 + bsize, acc + img, total)
                        }
                    },
                }
            }
        }
    }
}

/// The whole chunk beginning at `pos`: the declared decompressed length,
/// then the block walk from an empty window. On a complete walk the
/// consumed byte count must equal the externally declared `declared`
/// compressed size, else the chunk is corrupt. Yields the inflated bytes
/// and the end position.
pub open spec fn spec_decompress_chunk(d: Seq<u8>, pos: int, declared: int) -> Result<
    (Seq<u8>, int),
    EddsError,
> {
    if pos + 4 > d.len() {
        Err(EddsError::Io)
    } else {
        match spec_chunk_walk(d, pos + 4, Seq::empty(), le32(d, pos)) {
            Err(e) => Err(e),
            Ok((content, end)) => {
                if end - pos != declared {
                    Err(EddsError::StreamCorruption)
                } else {
                    Ok((content, end))
                }
            },
        }
    }
}

/// A complete chunk walk inflates exactly `total - acc.len()` further
/// bytes: whatever blocks it took, the accumulated result has the declared
/// length.
pub proof fn lemma_chunk_walk_len(d: Seq<u8>, p: int, acc: Seq<u8>, total: int, c: Seq<u8>, e: int)
    requires
        spec_chunk_walk(d, p, acc, total) == Ok::<(Seq<u8>, int), EddsError>((c, e)),
    ensures
        c.len() == total,
    decreases d.len() - p,
{
    if p + 4 > d.len() {
    } else {
        let bsize = le24(d, p);
        let is_last = d[p + 3] != 0;
        if p + 4 + bsize > d.len() {
        } else if is_last && acc.len() > total {
        } else {
            let target: int = if is_last {
                total - acc.len()
            } else {
                65536
            };
            if target > 0x7fffffff || acc.len() > 0x7fffffff {
            } else {
                match lz4_inflated(d.subrange(p + 4, p + 4 + bsize), acc) {
                    Option::None => {},
                    Option::Some(img) => {
                        if img.len() != target {
                        } else if is_last {
                        } else {
                            lemma_chunk_walk_len(d, p + 4 + bsize, acc + img, total, c, e);
                        }
                    },
                }
            }
        }
    }
}

/// A successfully decoded chunk holds exactly its declared decompressed
/// length and consumes exactly its declared compressed size.
pub proof fn lemma_chunk_declared_len(d: Seq<u8>, pos: int, declared: int, c: Seq<u8>, e: int)
    requires
        spec_decompress_chunk(d, pos, declared) == Ok::<(Seq<u8>, int), EddsError>((c, e)),
    ensures
        c.len() == le32(d, pos),
        e == pos + declared,
{
    lemma_chunk_walk_len(d, pos + 4, Seq::empty(), le32(d, pos), c, e);
}

/// Decodes one chunk at the reader's cursor, `declared_size` being the mip
/// descriptor's declared payload length. The result — the inflated bytes,
/// the consumed bytes, and on failure the failing stage's own error — is
/// exactly what the specification-level chunk walk says for these bytes.
pub fn decompress_chunk(input: &mut Reader, declared_size: u32) -> (r: Result<Vec<u8>, EddsError>)
    requires
        old(input).wf(),
    ensures
        final(input).wf(),
        final(input).data == old(input).data,
        ({
            let walk = spec_decompress_chunk(
                old(input).data@,
                old(input).pos as int,
                declared_size as int,
            );
            match r {
                Ok(v) => walk == Ok::<(Seq<u8>, int), EddsError>((v@, final(input).pos as int)),
                Err(e) => walk == Err::<(Seq<u8>, int), EddsError>(e),
            }
        }),
        r is Ok ==> final(input).pos == old(input).pos + declared_size,
        r matches Ok(v) ==> v@.len() == le32(old(input).data@, old(input).pos as int),
{
    let ghost d = input.data@;
    let start: usize = input.pos;
    let total_size = match input.read_u32() {
        Ok(v) => v,
        Err(e) => {
            return Err(e);
        },
    };
    let mut out: Vec<u8> = Vec::new();
    loop
        invariant_except_break
            input.wf(),
            input.data == old(input).data,
            input.data@ == d,
            d == old(input).data@,
            start == old(input).pos,
            total_size as int == le32(d, start as int),
            start + 4 <= input.pos <= d.len(),
            spec_chunk_walk(d, input.pos as int, out@, total_size as int) == spec_chunk_walk(
                d,
                start + 4,
                Seq::empty(),
                total_size as int,
            ),
        ensures
            input.wf(),
            input.data == old(input).data,
            input.data@ == d,
            out@.len() == total_size,
            input.pos as int - start as int == declared_size,
            spec_chunk_walk(d, start + 4, Seq::empty(), total_size as int) == Ok::<
                (Seq<u8>, int),
                EddsError,
            >((out@, input.pos as int)),
        decreases d.len() - input.pos,
    {
        let ghost p0 = input.pos as int;
        let ghost acc0 = out@;
        let bsize = match input.read_u24() {
            Ok(v) => v,
            Err(e) => {
                return Err(e);
            },
        };
        let is_last = match input.read_u8() {
            Ok(v) => v != 0,
            Err(_) => {
                return Err(EddsError::Io);
            },
        };
        let block = match input.read_bytes(bsize as usize) {
            Ok(b) => b,
            Err(e) => {
                return Err(e);
            },
        };
        let target: usize = if is_last {
            if out.len() > total_size as usize {
                return Err(EddsError::StreamCorruption);
            }
            total_size as usize - out.len()
        } else {
            65536
        };
        if target > 0x7fffffff || out.len() > 0x7fffffff {
            return Err(EddsError::CodecFault);
        }
        let mut block_out = zero_vec(target);
        let n = match lz4_block_decompress(block.as_slice(), &mut block_out, out.as_slice()) {
            Some(n) => n,
            None => {
                proof {
                    assert(block@ =~= d.subrange(p0 + 4, p0 + 4 + bsize));
                }
                return Err(EddsError::CodecFault);
            },
        };
        if n != target {
            proof {
                assert(block@ =~= d.subrange(p0 + 4, p0 + 4 + bsize));
            }
            return Err(EddsError::CodecFault);
        }
        proof {
            assert(block@ =~= d.subrange(p0 + 4, p0 + 4 + bsize));
            assert(block_out@.subrange(0, n as int) =~= block_out@);
            assert(lz4_inflated(d.subrange(p0 + 4, p0 + 4 + bsize), acc0) == Some(block_out@));
        }
        out.append(&mut block_out);
        proof {
            assert(out@ == acc0 + lz4_inflated(d.subrange(p0 + 4, p0 + 4 + bsize), acc0)->Some_0);
        }
        if is_last {
            let consumed = input.pos - start;
            if consumed != declared_size as usize {
                return Err(EddsError::StreamCorruption);
            }
            break ;
        }
    }
    Ok(out)
}

} // verus!
