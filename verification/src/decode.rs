//! The per-format decode stage: given a mip level's payload and the header
//! metadata, produce the final pixel bytes.
//!
//! Dispatch is keyed on whether the extension is present. With it, the
//! extended format picks a single-channel block decode, a raw BGRX channel
//! swap, or a 4-channel block decode; without it, the legacy FourCC picks
//! the bit-mask resolver's swap path or a 4-channel block decode. Every
//! other format is rejected with its numeric code. The channel swap is
//! decoded here in full; the block-codec arithmetic is delegated to
//! external primitives.

use vstd::prelude::*;

use crate::dds_header::spec_dxgi_format_value;
use crate::dds_header::spec_four_cc_value;
use crate::dds_header::spec_resolve_pixel_format;
use crate::dds_header::DdsHeader;
use crate::dds_header::DdsHeaderDX10;
use crate::dds_header::DdsPixelFormatEnum;
use crate::dds_header::DxgiFormat;
use crate::dds_header::FourCCEnum;
use crate::errors::EddsError;
use crate::reader::zero_vec;

verus! {

/// What the single-channel block primitive yields for a payload and image
/// size: one byte per pixel.
pub uninterp spec fn bc4_lum_decoded(src: Seq<u8>, width: int, height: int) -> Seq<u8>;

/// Relies on bcndecode's `decode` with the single-channel block encoding
/// and luminance output: it fails exactly on a zero dimension, and on
/// success yields one byte per pixel, a function of the payload and the
/// dimensions alone. Short payloads are tolerated by the primitive itself.
#[verifier::external_body]
fn bc4_decompress(src: &[u8], width: usize, height: usize) -> (r: Option<Vec<u8>>)
    requires
        4 * (width * height) <= usize::MAX,
    ensures
        width > 0 && height > 0 ==> r is Some,
        r is Some ==> width > 0 && height > 0,
        r matches Some(v) ==> v@ == bc4_lum_decoded(src@, width as int, height as int) && v@.len()
            == width * height,
{
    match bcndecode::decode(
        src,
        width,
        height,
        bcndecode::BcnEncoding::Bc4,
        bcndecode::BcnDecoderFormat::LUM,
    ) {
        Ok(v) => Some(v),
        Err(_) => None,
    }
}

/// What the 4-channel block primitive yields for a payload and image size:
/// four bytes per pixel.
pub uninterp spec fn bc5_rgba_decoded(src: Seq<u8>, width: int, height: int) -> Seq<u8>;

/// Relies on texpresso's `Format::Bc5` `decompress`: fills the output with
/// four bytes per pixel, a function of the payload and the dimensions
/// alone. The bounds keep its internal indexing inside the payload and the
/// output.
#[verifier::external_body]
fn bc5_decompress(src: &[u8], width: usize, height: usize, dst: &mut Vec<u8>)
    requires
        1 <= width,
        1 <= height,
        width * 16 <= usize::MAX,
        old(dst)@.len() == width * height * 4,
        src@.len() >= ((width + 3) / 4) * ((height + 3) / 4) * 16,
    ensures
        final(dst)@ == bc5_rgba_decoded(src@, width as int, height as int),
        final(dst)@.len() == width * height * 4,
{
    texpresso::Format::Bc5.decompress(src, width, height, dst.as_mut_slice());
}

/// What the high-quality 4-channel block primitive yields for one 16-byte
/// block: a 4x4 tile, 16 output bytes per row.
pub uninterp spec fn bc7_block_rgba(block: Seq<u8>) -> Seq<u8>;

/// Relies on bcdec_rs's `bc7`: decodes one 16-byte block into a 4x4 RGBA
/// tile at 16 bytes per row, a function of the block bytes alone.
#[verifier::external_body]
fn bc7_decode_block(block: &[u8], dst: &mut Vec<u8>)
    requires
        block@.len() == 16,
        old(dst)@.len() == 64,
    ensures
        final(dst)@ == bc7_block_rgba(block@),
        final(dst)@.len() == 64,
{
    bcdec_rs::bc7(block, dst.as_mut_slice(), 16);
}

/// The column of the pixel holding byte `i` of a 4-byte-per-pixel image.
pub open spec fn spec_px_x(i: int, width: int) -> int {
    (i / 4) % width
}

/// The row of the pixel holding byte `i` of a 4-byte-per-pixel image.
pub open spec fn spec_px_y(i: int, width: int) -> int {
    (i / 4) / width
}

/// Byte `i` of the tiled high-quality block decode: the pixel's 16-byte
/// block, decoded, read at the pixel's position inside its 4x4 tile.
pub open spec fn spec_bc7_byte(src: Seq<u8>, width: int, i: int) -> u8 {
    let x = spec_px_x(i, width);
    let y = spec_px_y(i, width);
    let nbw = (width + 3) / 4;
    let b = (y / 4) * nbw + (x / 4);
    bc7_block_rgba(src.subrange(b * 16, b * 16 + 16))[(y % 4) * 16 + (x % 4) * 4 + i % 4]
}

/// The whole tiled high-quality block decode: four bytes per pixel, each
/// drawn from its pixel's decoded block.
pub open spec fn spec_bc7_image(src: Seq<u8>, width: int, height: int) -> Seq<u8> {
    Seq::new((width * height * 4) as nat, |i: int| spec_bc7_byte(src, width, i))
}

/// The in-place B/R channel swap over every aligned 4-byte pixel: byte 0
/// and byte 2 of each complete 4-byte group trade places, all other bytes
/// stay, and the length is unchanged.
pub open spec fn spec_swap_rb(s: Seq<u8>) -> Seq<u8> {
    Seq::new(
        s.len(),
        |j: int|
            if j % 4 == 0 && j + 2 < s.len() {
                s[j + 2]
            } else if j % 4 == 2 {
                s[j - 2]
            } else {
                s[j]
            },
    )
}

/// Copies the payload and swaps the B and R channel of every complete
/// 4-byte pixel.
fn swap_rb(src: &[u8]) -> (r: Vec<u8>)
    ensures
        r@ == spec_swap_rb(src@),
{
    let mut v = vstd::slice::slice_to_vec(src);
    let mut i: usize = 0;
    while i < v.len() && v.len() - i > 2
        invariant
            i <= v@.len(),
            v@.len() == src@.len(),
            i % 4 == 0 || i == v@.len(),
            forall|j: int|
                0 <= j < src@.len() ==> v@[j] == if j < i {
                    spec_swap_rb(src@)[j]
                } else {
                    src@[j]
                },
        decreases v.len() - i,
    {
        let a = v[i];
        let b = v[i + 2];
        v.set(i, b);
        v.set(i + 2, a);
        if v.len() - i < 6 {
            i = v.len();
        } else {
            i = i + 4;
        }
    }
    proof {
        assert(v@ =~= spec_swap_rb(src@));
    }
    v
}

/// Whether the 4-channel block primitive can run: positive dimensions, an
/// output and a row stride that fit the machine, and a payload holding
/// every 16-byte block the image needs.
pub open spec fn spec_bc_callable(src_len: int, width: int, height: int) -> bool {
    &&& 1 <= width
    &&& 1 <= height
    &&& width * height * 4 <= usize::MAX
    &&& width * 16 <= usize::MAX
    &&& src_len >= ((width + 3) / 4) * ((height + 3) / 4) * 16
}

/// Runs the shared feasibility checks for a 4-channel block decode; yields
/// the exact output length and the block grid.
fn bc_check(src_len: usize, width: usize, height: usize) -> (r: Option<(usize, usize, usize)>)
    ensures
        r is Some <==> spec_bc_callable(src_len as int, width as int, height as int),
        r matches Some(g) ==> g.0 == width * height * 4 && g.1 == (width as int + 3) / 4 && g.2
            == (height as int + 3) / 4 && g.1 * g.2 * 16 <= src_len,
{
    if width < 1 || height < 1 {
        return None;
    }
    let wh = match width.checked_mul(height) {
        Some(x) => x,
        None => {
            return None;
        },
    };
    let n = match wh.checked_mul(4) {
        Some(x) => x,
        None => {
            return None;
        },
    };
    if width > usize::MAX / 16 {
        return None;
    }
    proof {
        assert(height <= wh) by (nonlinear_arith)
            requires
                wh == width * height,
                width >= 1,
                height >= 0,
        ;
    }
    let nbw = (width + 3) / 4;
    let nbh = (height + 3) / 4;
    let blocks = match nbw.checked_mul(nbh) {
        Some(x) => x,
        None => {
            proof {
                assert(nbw * nbh * 16 > usize::MAX) by (nonlinear_arith)
                    requires
                        nbw * nbh > usize::MAX,
                ;
            }
            return None;
        },
    };
    let need = match blocks.checked_mul(16) {
        Some(x) => x,
        None => {
            return None;
        },
    };
    if src_len < need {
        return None;
    }
    Some((n, nbw, nbh))
}

/// The legacy 4-channel block path: run the primitive when it can run,
/// else a codec fault.
fn decode_bc5_data(src: &[u8], width: usize, height: usize) -> (r: Result<Vec<u8>, EddsError>)
    ensures
        spec_bc_callable(src@.len() as int, width as int, height as int) ==> (r matches Ok(v)
            && v@ == bc5_rgba_decoded(src@, width as int, height as int) && v@.len() == width
            * height * 4),
        !spec_bc_callable(src@.len() as int, width as int, height as int) ==> r == Err::<
            Vec<u8>,
            EddsError,
        >(EddsError::CodecFault),
{
    let n = match bc_check(src.len(), width, height) {
        Some(g) => g.0,
        None => {
            return Err(EddsError::CodecFault);
        },
    };
    let mut dst = zero_vec(n);
    bc5_decompress(src, width, height, &mut dst);
    Ok(dst)
}

/// The single-channel block path: the primitive rejects only a zero
/// dimension; an output that cannot be sized is a codec fault.
fn decode_bc4_data(src: &[u8], width: usize, height: usize) -> (r: Result<Vec<u8>, EddsError>)
    ensures
        (1 <= width && 1 <= height && 4 * (width * height) <= usize::MAX) ==> (r matches Ok(v)
            && v@ == bc4_lum_decoded(src@, width as int, height as int) && v@.len() == width
            * height),
        !(1 <= width && 1 <= height && 4 * (width * height) <= usize::MAX) ==> r == Err::<
            Vec<u8>,
            EddsError,
        >(EddsError::CodecFault),
{
    if width < 1 || height < 1 {
        return Err(EddsError::CodecFault);
    }
    let wh = match width.checked_mul(height) {
        Some(x) => x,
        None => {
            return Err(EddsError::CodecFault);
        },
    };
    if wh > usize::MAX / 4 {
        return Err(EddsError::CodecFault);
    }
    match bc4_decompress(src, width, height) {
        Some(v) => Ok(v),
        None => Err(EddsError::CodecFault),
    }
}

/// A byte of the output already holds its tiled-decode value.
pub open spec fn spec_bc7_done(src: Seq<u8>, width: int, out: Seq<u8>, i: int) -> bool {
    out[i] == spec_bc7_byte(src, width, i)
}

/// Every byte of a 4-byte-per-pixel image addresses a pixel inside it.
proof fn lemma_px_bounds(width: int, height: int, i: int)
    requires
        width >= 1,
        0 <= i < width * height * 4,
    ensures
        0 <= spec_px_x(i, width) < width,
        0 <= spec_px_y(i, width) < height,
{
    assert(i / 4 < width * height) by (nonlinear_arith)
        requires
            0 <= i < width * height * 4,
    ;
    assert((i / 4) / width < height) by (nonlinear_arith)
        requires
            i / 4 < width * height,
            width >= 1,
            i / 4 >= 0,
    ;
}

/// The block grid spans the whole image: four times the grid edge covers
/// the image edge.
proof fn lemma_grid_covers(dim: int)
    requires
        dim >= 0,
    ensures
        dim <= 4 * ((dim + 3) / 4),
{
    assert(dim <= 4 * ((dim + 3) / 4)) by (nonlinear_arith)
        requires
            dim >= 0,
    ;
}

/// The high-quality 4-channel block path: a verified 4x4 tiling over the
/// per-block primitive. Every output byte is pinned to its pixel's decoded
/// block; pixels outside the image are clipped at the right and bottom
/// edges.
fn decode_bc7_data(src: &[u8], width: usize, height: usize) -> (r: Result<Vec<u8>, EddsError>)
    ensures
        spec_bc_callable(src@.len() as int, width as int, height as int) ==> (r matches Ok(v)
            && v@ == spec_bc7_image(src@, width as int, height as int) && v@.len() == width
            * height * 4),
        !spec_bc_callable(src@.len() as int, width as int, height as int) ==> r == Err::<
            Vec<u8>,
            EddsError,
        >(EddsError::CodecFault),
{
    let ghost w = width as int;
    let ghost h = height as int;
    let (n, nbw, nbh) = match bc_check(src.len(), width, height) {
        Some(g) => g,
        None => {
            return Err(EddsError::CodecFault);
        },
    };
    let sl = src.len();
    let mut out = zero_vec(n);
    let mut tile = zero_vec(64);
    proof {
        assert(nbw >= 1 && nbh >= 1);
        assert(src@.len() <= usize::MAX);
    }
    let mut by: usize = 0;
    while by < nbh
        invariant
            out@.len() == n,
            tile@.len() == 64,
            by <= nbh,
            n == width * height * 4,
            w == width as int,
            h == height as int,
            nbw == (w + 3) / 4,
            nbh == (h + 3) / 4,
            nbw * nbh * 16 <= src@.len(),
            src@.len() <= usize::MAX,
            nbw >= 1,
            1 <= width,
            1 <= height,
            forall|i: int|
                0 <= i < out@.len() && spec_px_y(i, w) < 4 * by ==> #[trigger] spec_bc7_done(
                    src@,
                    w,
                    out@,
                    i,
                ),
        decreases nbh - by,
    {
        let mut bx: usize = 0;
        while bx < nbw
            invariant
                out@.len() == n,
                tile@.len() == 64,
                by < nbh,
                bx <= nbw,
                n == width * height * 4,
                w == width as int,
                h == height as int,
                nbw == (w + 3) / 4,
                nbh == (h + 3) / 4,
                nbw * nbh * 16 <= src@.len(),
                src@.len() <= usize::MAX,
                1 <= width,
                1 <= height,
                forall|i: int|
                    0 <= i < out@.len() && (spec_px_y(i, w) < 4 * by || (spec_px_y(i, w) < 4 * by
                        + 4 && spec_px_x(i, w) < 4 * bx)) ==> #[trigger] spec_bc7_done(
                        src@,
                        w,
                        out@,
                        i,
                    ),
            decreases nbw - bx,
        {
            proof {
                assert((by * nbw + bx) * 16 + 16 <= src@.len()) by (nonlinear_arith)
                    requires
                        by < nbh,
                        bx < nbw,
                        nbw * nbh * 16 <= src@.len(),
                ;
            }
            let bi = (by * nbw + bx) * 16;
            let block = vstd::slice::slice_subrange(src, bi, bi + 16);
            bc7_decode_block(block, &mut tile);
            let mut py: usize = 0;
            while py < 4
                invariant
                    out@.len() == n,
                    tile@.len() == 64,
                    py <= 4,
                    bx < nbw,
                    by < nbh,
                    n == width * height * 4,
                    w == width as int,
                    h == height as int,
                    nbw == (w + 3) / 4,
                    nbh == (h + 3) / 4,
                    1 <= width,
                    1 <= height,
                    bi == (by * nbw + bx) * 16,
                    bi + 16 <= src@.len(),
                    tile@ == bc7_block_rgba(src@.subrange(bi as int, bi + 16)),
                    forall|i: int|
                        0 <= i < out@.len() && (spec_px_y(i, w) < 4 * by || (spec_px_y(i, w) < 4
                            * by + 4 && spec_px_x(i, w) < 4 * bx) || (4 * bx <= spec_px_x(i, w)
                            < 4 * bx + 4 && spec_px_y(i, w) < 4 * by + py)) ==> #[trigger]
                            spec_bc7_done(src@, w, out@, i),
                decreases 4 - py,
            {
                let mut px: usize = 0;
                while px < 4
                    invariant
                        out@.len() == n,
                        tile@.len() == 64,
                        px <= 4,
                        py < 4,
                        bx < nbw,
                        by < nbh,
                        n == width * height * 4,
                        w == width as int,
                        h == height as int,
                        nbw == (w + 3) / 4,
                        nbh == (h + 3) / 4,
                        1 <= width,
                        1 <= height,
                        bi == (by * nbw + bx) * 16,
                        bi + 16 <= src@.len(),
                        tile@ == bc7_block_rgba(src@.subrange(bi as int, bi + 16)),
                        forall|i: int|
                            0 <= i < out@.len() && (spec_px_y(i, w) < 4 * by || (spec_px_y(i, w)
                                < 4 * by + 4 && spec_px_x(i, w) < 4 * bx) || (4 * bx <= spec_px_x(
                                i,
                                w,
                            ) < 4 * bx + 4 && spec_px_y(i, w) < 4 * by + py) || (spec_px_y(i, w)
                                == 4 * by + py && 4 * bx <= spec_px_x(i, w) < 4 * bx + px))
                                ==> #[trigger] spec_bc7_done(src@, w, out@, i),
                    decreases 4 - px,
                {
                    proof {
                        assert(4 * bx + px <= usize::MAX && 4 * by + py <= usize::MAX)
                            by (nonlinear_arith)
                            requires
                                bx < nbw,
                                by < nbh,
                                px < 4,
                                py < 4,
                                nbw == (w + 3) / 4,
                                nbh == (h + 3) / 4,
                                w * h * 4 <= usize::MAX,
                                1 <= w,
                                1 <= h,
                                w == width as int,
                                h == height as int,
                        ;
                    }
                    let x = 4 * bx + px;
                    let y = 4 * by + py;
                    if x < width && y < height {
                        proof {
                            assert(y * width + x < width * height) by (nonlinear_arith)
                                requires
                                    x < width,
                                    y < height,
                            ;
                        }
                        let base = y * width + x;
                        let mut k: usize = 0;
                        while k < 4
                            invariant
                                out@.len() == n,
                                tile@.len() == 64,
                                k <= 4,
                                px < 4,
                                py < 4,
                                bx < nbw,
                                by < nbh,
                                x == 4 * bx + px,
                                y == 4 * by + py,
                                x < width,
                                y < height,
                                base == y * width + x,
                                base < width * height,
                                n == width * height * 4,
                                w == width as int,
                                h == height as int,
                                nbw == (w + 3) / 4,
                                nbh == (h + 3) / 4,
                                1 <= width,
                                1 <= height,
                                bi == (by * nbw + bx) * 16,
                                bi + 16 <= src@.len(),
                                tile@ == bc7_block_rgba(src@.subrange(bi as int, bi + 16)),
                                forall|i: int|
                                    0 <= i < out@.len() && (spec_px_y(i, w) < 4 * by || (
                                    spec_px_y(i, w) < 4 * by + 4 && spec_px_x(i, w) < 4 * bx) || (
                                    4 * bx <= spec_px_x(i, w) < 4 * bx + 4 && spec_px_y(i, w) < 4
                                        * by + py) || (spec_px_y(i, w) == 4 * by + py && 4 * bx
                                        <= spec_px_x(i, w) < 4 * bx + px) || (spec_px_y(i, w) == 4
                                        * by + py && spec_px_x(i, w) == 4 * bx + px && i % 4 < k))
                                        ==> #[trigger] spec_bc7_done(src@, w, out@, i),
                            decreases 4 - k,
                        {
                            let ghost prev = out@;
                            out.set(4 * base + k, tile[16 * py + 4 * px + k]);
                            proof {
                                let idx = 4 * base + k;
                                vstd::arithmetic::div_mod::lemma_fundamental_div_mod_converse(
                                    idx as int,
                                    4,
                                    base as int,
                                    k as int,
                                );
                                vstd::arithmetic::div_mod::lemma_fundamental_div_mod_converse(
                                    base as int,
                                    w,
                                    y as int,
                                    x as int,
                                );
                                vstd::arithmetic::div_mod::lemma_fundamental_div_mod_converse(
                                    y as int,
                                    4,
                                    by as int,
                                    py as int,
                                );
                                vstd::arithmetic::div_mod::lemma_fundamental_div_mod_converse(
                                    x as int,
                                    4,
                                    bx as int,
                                    px as int,
                                );
                                assert(spec_px_x(idx as int, w) == x && spec_px_y(idx as int, w)
                                    == y);
                                assert(spec_bc7_byte(src@, w, idx as int) == tile@[16 * py + 4 * px
                                    + k]);
                                assert(spec_bc7_done(src@, w, out@, idx as int));
                                assert forall|i: int|
                                    0 <= i < out@.len() && (spec_px_y(i, w) < 4 * by || (
                                    spec_px_y(i, w) < 4 * by + 4 && spec_px_x(i, w) < 4 * bx) || (
                                    4 * bx <= spec_px_x(i, w) < 4 * bx + 4 && spec_px_y(i, w) < 4
                                        * by + py) || (spec_px_y(i, w) == 4 * by + py && 4 * bx
                                        <= spec_px_x(i, w) < 4 * bx + px) || (spec_px_y(i, w) == 4
                                        * by + py && spec_px_x(i, w) == 4 * bx + px && i % 4 < k
                                        + 1)) implies #[trigger] spec_bc7_done(
                                    src@,
                                    w,
                                    out@,
                                    i,
                                ) by {
                                    vstd::arithmetic::div_mod::lemma_fundamental_div_mod(i / 4, w);
                                    assert(i == 4 * (i / 4) + i % 4);
                                    if i != idx {
                                        assert(!(spec_px_y(i, w) == 4 * by + py && spec_px_x(i, w)
                                            == 4 * bx + px && i % 4 == k)) by {
                                            if spec_px_y(i, w) == 4 * by + py && spec_px_x(i, w)
                                                == 4 * bx + px && i % 4 == k {
                                                assert(i / 4 == w * spec_px_y(i, w) + spec_px_x(
                                                    i,
                                                    w,
                                                ));
                                                assert(w * spec_px_y(i, w) == y * width)
                                                    by (nonlinear_arith)
                                                    requires
                                                        spec_px_y(i, w) == y,
                                                        w == width as int,
                                                ;
                                                assert(i / 4 == base);
                                                assert(i == idx);
                                            }
                                        }
                                        assert(spec_bc7_done(src@, w, prev, i));
                                        assert(out@[i] == prev[i]);
                                    }
                                }
                            }
                            k = k + 1;
                        }
                    } else {
                        proof {
                            assert forall|i: int|
                                0 <= i < out@.len() && spec_px_y(i, w) == 4 * by + py
                                    && spec_px_x(i, w) == 4 * bx + px implies false by {
                                lemma_px_bounds(w, h, i);
                            }
                        }
                    }
                    px = px + 1;
                }
                py = py + 1;
            }
            bx = bx + 1;
        }
        proof {
            lemma_grid_covers(w);
            assert forall|i: int|
                0 <= i < out@.len() && spec_px_y(i, w) < 4 * (by + 1) implies #[trigger]
                spec_bc7_done(src@, w, out@, i) by {
                lemma_px_bounds(w, h, i);
            }
        }
        by = by + 1;
    }
    proof {
        lemma_grid_covers(h);
        assert forall|i: int| 0 <= i < out@.len() implies out@[i] == spec_bc7_image(
            src@,
            w,
            h,
        )[i] by {
            lemma_px_bounds(w, h, i);
            assert(spec_bc7_done(src@, w, out@, i));
        }
        assert(out@ =~= spec_bc7_image(src@, w, h));
    }
    Ok(out)
}

/// The decode path keyed by the legacy FourCC when no extension is
/// present: the absent code goes through the bit-mask resolver to the
/// channel swap, the DXT-style 4-channel code goes to the block primitive,
/// and every other code is unsupported.
pub fn decode_four_cc_data(header: &DdsHeader, src: &[u8], width: usize, height: usize) -> (r:
    Result<Vec<u8>, EddsError>)
    ensures
        header.ddspf.four_cc == FourCCEnum::NoCode ==> (match spec_resolve_pixel_format(
            header.ddspf,
        ) {
            DdsPixelFormatEnum::D3DFMT_X8R8G8B8 | DdsPixelFormatEnum::D3DFMT_A8R8G8B8 => r matches
                Ok(v) && v@ == spec_swap_rb(src@),
            tag => r == Err::<Vec<u8>, EddsError>(EddsError::UnsupportedPixelFormat(tag)),
        }),
        header.ddspf.four_cc == FourCCEnum::DXT5 ==> {
            &&& spec_bc_callable(src@.len() as int, width as int, height as int) ==> (r matches
                Ok(v) && v@ == bc5_rgba_decoded(src@, width as int, height as int) && v@.len()
                == width * height * 4)
            &&& !spec_bc_callable(src@.len() as int, width as int, height as int) ==> r == Err::<
                Vec<u8>,
                EddsError,
            >(EddsError::CodecFault)
        },
        header.ddspf.four_cc != FourCCEnum::NoCode && header.ddspf.four_cc != FourCCEnum::DXT5
            ==> r == Err::<Vec<u8>, EddsError>(
            EddsError::UnsupportedFormat(spec_four_cc_value(header.ddspf.four_cc)),
        ),
{
    match header.ddspf.four_cc {
        FourCCEnum::NoCode => decode_pixel_format_data(header, src),
        FourCCEnum::DXT5 => decode_bc5_data(src, width, height),
        other => Err(EddsError::UnsupportedFormat(other.value())),
    }
}

/// The resolver-keyed path: resolve the bit masks; the two recognized raw
/// 32-bit tags take the channel swap, anything else is unsupported.
pub fn decode_pixel_format_data(header: &DdsHeader, src: &[u8]) -> (r: Result<Vec<u8>, EddsError>)
    ensures
        ({
            match spec_resolve_pixel_format(header.ddspf) {
                DdsPixelFormatEnum::D3DFMT_X8R8G8B8 | DdsPixelFormatEnum::D3DFMT_A8R8G8B8 => r
                    matches Ok(v) && v@ == spec_swap_rb(src@),
                tag => r == Err::<Vec<u8>, EddsError>(EddsError::UnsupportedPixelFormat(tag)),
            }
        }),
{
    match header.get_pixel_format() {
        DdsPixelFormatEnum::D3DFMT_X8R8G8B8 | DdsPixelFormatEnum::D3DFMT_A8R8G8B8 => {
            Ok(swap_rb(src))
        },
        unk => Err(EddsError::UnsupportedPixelFormat(unk)),
    }
}

/// The decode path keyed by the extension's extended format: the
/// single-channel block format, the raw BGRX swap format, the high-quality
/// 4-channel block format; every other value is unsupported and reported
/// with its numeric code.
pub fn decode_dx10_data(
    dx10_header: &DdsHeaderDX10,
    src: &[u8],
    width: usize,
    height: usize,
) -> (r: Result<Vec<u8>, EddsError>)
    ensures
        ({
            match dx10_header.dxgi_format {
                DxgiFormat::DXGI_FORMAT_BC4_UNORM => {
                    &&& (1 <= width && 1 <= height && 4 * (width * height) <= usize::MAX) ==> (r
                        matches Ok(v) && v@ == bc4_lum_decoded(src@, width as int, height as int)
                        && v@.len() == width * height)
                    &&& !(1 <= width && 1 <= height && 4 * (width * height) <= usize::MAX) ==> r
                        == Err::<Vec<u8>, EddsError>(EddsError::CodecFault)
                },
                DxgiFormat::DXGI_FORMAT_B8G8R8X8_UNORM_SRGB => r matches Ok(v) && v@
                    == spec_swap_rb(src@),
                DxgiFormat::DXGI_FORMAT_BC7_UNORM_SRGB => {
                    &&& spec_bc_callable(src@.len() as int, width as int, height as int) ==> (r
                        matches Ok(v) && v@ == spec_bc7_image(src@, width as int, height as int)
                        && v@.len() == width * height * 4)
                    &&& !spec_bc_callable(src@.len() as int, width as int, height as int) ==> r
                        == Err::<Vec<u8>, EddsError>(EddsError::CodecFault)
                },
                f => r == Err::<Vec<u8>, EddsError>(
                    EddsError::UnsupportedFormat(spec_dxgi_format_value(f)),
                ),
            }
        }),
{
    match dx10_header.dxgi_format {
        DxgiFormat::DXGI_FORMAT_BC4_UNORM => decode_bc4_data(src, width, height),
        DxgiFormat::DXGI_FORMAT_B8G8R8X8_UNORM_SRGB => Ok(swap_rb(src)),
        DxgiFormat::DXGI_FORMAT_BC7_UNORM_SRGB => decode_bc7_data(src, width, height),
        other => Err(EddsError::UnsupportedFormat(other.value())),
    }
}

/// The specification-level decode of one level's payload: what every
/// decode path returns, keyed first on the extension's presence. Block
/// paths succeed exactly when their primitive can run; swap paths always
/// succeed; every other format is rejected with its numeric code.
#[verifier::opaque]
pub open spec fn spec_decode_payload(h: DdsHeader, src: Seq<u8>, width: int, height: int) -> Result<
    Seq<u8>,
    EddsError,
> {
    match h.dx10_header {
        Some(x) => match x.dxgi_format {
            DxgiFormat::DXGI_FORMAT_BC4_UNORM => {
                if 1 <= width && 1 <= height && 4 * (width * height) <= usize::MAX {
                    Ok(bc4_lum_decoded(src, width, height))
                } else {
                    Err(EddsError::CodecFault)
                }
            },
            DxgiFormat::DXGI_FORMAT_B8G8R8X8_UNORM_SRGB => Ok(spec_swap_rb(src)),
            DxgiFormat::DXGI_FORMAT_BC7_UNORM_SRGB => {
                if spec_bc_callable(src.len() as int, width, height) {
                    Ok(spec_bc7_image(src, width, height))
                } else {
                    Err(EddsError::CodecFault)
                }
            },
            f => Err(EddsError::UnsupportedFormat(spec_dxgi_format_value(f))),
        },
        None => match h.ddspf.four_cc {
            FourCCEnum::NoCode => match spec_resolve_pixel_format(h.ddspf) {
                DdsPixelFormatEnum::D3DFMT_X8R8G8B8 | DdsPixelFormatEnum::D3DFMT_A8R8G8B8 => Ok(
                    spec_swap_rb(src),
                ),
                tag => Err(EddsError::UnsupportedPixelFormat(tag)),
            },
            FourCCEnum::DXT5 => {
                if spec_bc_callable(src.len() as int, width, height) {
                    Ok(bc5_rgba_decoded(src, width, height))
                } else {
                    Err(EddsError::CodecFault)
                }
            },
            fc => Err(EddsError::UnsupportedFormat(spec_four_cc_value(fc))),
        },
    }
}

} // verus!
