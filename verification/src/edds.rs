//! The decoded container: mip descriptors, the chained mip levels, and the
//! top-level decoder that parses the header, the per-level descriptors and
//! the per-level payloads, and dispatches each payload to its decode path.
//!
//! Levels are read from the smallest up to the full-resolution image, which
//! is the last element of the decoded sequence, and that order is preserved
//! everywhere. Decoding is all-or-nothing: the first failing level fails
//! the whole container.

use vstd::arithmetic::power2::pow2;
use vstd::prelude::*;

use crate::dds_header::spec_dxgi_format_value;
use crate::dds_header::spec_four_cc_value;
use crate::dds_header::spec_header_byte_len;
use crate::dds_header::spec_parse_header;
use crate::dds_header::spec_resolve_pixel_format;
use crate::dds_header::DdsHeader;
use crate::dds_header::DdsPixelFormatEnum;
use crate::dds_header::DxgiFormat;
use crate::dds_header::FourCCEnum;
use crate::decode::bc4_lum_decoded;
use crate::decode::bc5_rgba_decoded;
use crate::decode::decode_dx10_data;
use crate::decode::decode_four_cc_data;
use crate::decode::spec_bc7_image;
use crate::decode::spec_decode_payload;
use crate::decode::spec_bc_callable;
use crate::decode::spec_swap_rb;
use crate::decomp::decompress_chunk;
use crate::decomp::spec_decompress_chunk;
use crate::errors::EddsError;
use crate::reader::le32;
use crate::reader::Reader;

verus! {

/// The raw storage tag "COPY" as a little-endian word.
pub const COPY_TAG: u32 = 0x59504F43;

/// The compressed storage tag "LZ4 " as a little-endian word.
pub const LZ4_TAG: u32 = 0x20345A4C;

/// How a mip level's payload is stored: raw bytes, or the chunked LZ4
/// framing.
#[derive(Debug, Clone, Copy, PartialEq, Eq, Structural)]
#[allow(non_camel_case_types)]
pub enum MipmapType {
    COPY,
    LZ4,
}

/// One mip level's descriptor: its computed dimensions, its storage mode,
/// and its declared payload byte length.
#[derive(Debug, Clone, Copy, PartialEq, Eq, Structural)]
pub struct MipDescriptor {
    pub width: usize,
    pub height: usize,
    pub data_type: MipmapType,
    pub compressed_data_size: u32,
}

/// One fully decoded mip level.
#[derive(Debug, Clone)]
pub struct Mipmap {
    pub width: usize,
    pub height: usize,
    pub data_type: MipmapType,
    pub compressed_data_size: u32,
    pub data: Vec<u8>,
}

/// The decoded container: mip levels ordered from the smallest up to the
/// full-resolution image, which comes last.
#[derive(Debug, Clone)]
pub struct Edds {
    pub mipmaps: Vec<Mipmap>,
}

/// The edge length of the mip level at `index`, counting from 1 at the
/// full-resolution image: the header dimension halved `index - 1` times,
/// but never below 1.
pub open spec fn spec_dim_for_index(max_dim: u32, index: u32) -> int {
    let d = max_dim as int / pow2((index - 1) as nat) as int;
    if d < 1 {
        1
    } else {
        d
    }
}

/// A mip level's edge length is at least 1 and at most the 32-bit range.
pub proof fn lemma_dim_bounds(max_dim: u32, index: u32)
    requires
        1 <= index,
    ensures
        1 <= spec_dim_for_index(max_dim, index) <= u32::MAX,
{
    vstd::arithmetic::power2::lemma_pow2_pos((index - 1) as nat);
    assert(max_dim as int / pow2((index - 1) as nat) as int <= max_dim) by (nonlinear_arith)
        requires
            pow2((index - 1) as nat) >= 1,
    ;
}

/// The descriptor table beginning at `pos`: one 8-byte record per level,
/// for level index `i` counting down to 1. Each record is a 4-byte storage
/// tag — any value besides the raw and the compressed tag is an unknown
/// storage mode — and a 4-byte declared payload length. A short read is an
/// I/O error.
pub open spec fn spec_descriptors(
    d: Seq<u8>,
    pos: int,
    width: u32,
    height: u32,
    i: int,
) -> Result<Seq<MipDescriptor>, EddsError>
    decreases i,
{
    if i <= 0 {
        Ok(Seq::empty())
    } else if pos + 8 > d.len() {
        Err(EddsError::Io)
    } else {
        let tag = le32(d, pos) as u32;
        if tag != COPY_TAG && tag != LZ4_TAG {
            Err(EddsError::UnknownStorageMode(tag))
        } else {
            match spec_descriptors(d, pos + 8, width, height, i - 1) {
                Err(e) => Err(e),
                Ok(rest) => Ok(
                    seq![
                        MipDescriptor {
                            width: spec_dim_for_index(width, i as u32) as usize,
                            height: spec_dim_for_index(height, i as u32) as usize,
                            data_type: if tag == COPY_TAG {
                                MipmapType::COPY
                            } else {
                                MipmapType::LZ4
                            },
                            compressed_data_size: le32(d, pos + 4) as u32,
                        },
                    ] + rest,
                ),
            }
        }
    }
}

/// A parsed descriptor table has one entry per level and carries the
/// halving dimension formula: entry `j` describes level `i - j`.
pub proof fn lemma_descriptors_shape(
    d: Seq<u8>,
    pos: int,
    width: u32,
    height: u32,
    i: int,
    s: Seq<MipDescriptor>,
)
    requires
        spec_descriptors(d, pos, width, height, i) == Ok::<Seq<MipDescriptor>, EddsError>(s),
        i >= 0,
    ensures
        s.len() == i,
        forall|j: int|
            0 <= j < s.len() ==> (#[trigger] s[j]).width == spec_dim_for_index(
                width,
                (i - j) as u32,
            ) as usize && s[j].height == spec_dim_for_index(height, (i - j) as u32) as usize,
    decreases i,
{
    if i <= 0 {
    } else {
        let rest = spec_descriptors(d, pos + 8, width, height, i - 1)->Ok_0;
        lemma_descriptors_shape(d, pos + 8, width, height, i - 1, rest);
        assert forall|j: int| 0 <= j < s.len() implies (#[trigger] s[j]).width
            == spec_dim_for_index(width, (i - j) as u32) as usize && s[j].height
            == spec_dim_for_index(height, (i - j) as u32) as usize by {
            if j > 0 {
                assert(s[j] == rest[j - 1]);
            }
        }
    }
}

/// The per-level data-length law, by decode path: the single-channel block
/// format yields one byte per pixel; the two 4-channel block formats yield
/// four bytes per pixel; the raw swap formats keep their payload length,
/// which for a raw-stored level is its declared size. Unsupported formats
/// never yield a level.
pub open spec fn spec_mip_len_ok(h: DdsHeader, m: Mipmap) -> bool {
    match h.dx10_header {
        Some(x) => match x.dxgi_format {
            DxgiFormat::DXGI_FORMAT_BC4_UNORM => m.data@.len() == m.width * m.height,
            DxgiFormat::DXGI_FORMAT_B8G8R8X8_UNORM_SRGB => m.data_type == MipmapType::COPY
                ==> m.data@.len() == m.compressed_data_size,
            DxgiFormat::DXGI_FORMAT_BC7_UNORM_SRGB => m.data@.len() == m.width * m.height * 4,
            _ => false,
        },
        None => match h.ddspf.four_cc {
            FourCCEnum::NoCode => {
                &&& (spec_resolve_pixel_format(h.ddspf) == DdsPixelFormatEnum::D3DFMT_X8R8G8B8
                    || spec_resolve_pixel_format(h.ddspf) == DdsPixelFormatEnum::D3DFMT_A8R8G8B8)
                &&& m.data_type == MipmapType::COPY ==> m.data@.len() == m.compressed_data_size
            },
            FourCCEnum::DXT5 => m.data@.len() == m.width * m.height * 4,
            _ => false,
        },
    }
}

/// One decoded level agrees with its descriptor and its data length obeys
/// the per-format law.
pub open spec fn spec_mip_matches(h: DdsHeader, d: MipDescriptor, m: Mipmap) -> bool {
    &&& m.width == d.width
    &&& m.height == d.height
    &&& m.data_type == d.data_type
    &&& m.compressed_data_size == d.compressed_data_size
    &&& spec_mip_len_ok(h, m)
}

/// Level `j` of a decoded chain carries the halving dimension formula for
/// level index `mipMapCount - j` and the per-format data length.
pub open spec fn spec_mip_level_wf(h: DdsHeader, ms: Seq<Mipmap>, j: int) -> bool {
    let level = (h.mip_map_count - j) as u32;
    &&& (#[trigger] ms[j]).width == spec_dim_for_index(h.width, level) as usize
    &&& ms[j].height == spec_dim_for_index(h.height, level) as usize
    &&& spec_mip_len_ok(h, ms[j])
}

/// A decoded chain has exactly `mipMapCount` levels, ordered from the
/// smallest to the full-resolution image, each with the dimension formula
/// and the per-format data length.
pub open spec fn spec_mipchain_wf(h: DdsHeader, ms: Seq<Mipmap>) -> bool {
    &&& ms.len() == h.mip_map_count
    &&& forall|j: int| 0 <= j < ms.len() ==> spec_mip_level_wf(h, ms, j)
}

/// The payload walk: for descriptor `j` onward, acquire each level's bytes
/// — a raw level takes exactly its declared size from the stream, a
/// compressed level takes one chunk — and decode them by the header's
/// format dispatch. Yields the decoded buffers in order and the position
/// just past the last payload, or the first failing stage's own error.
pub open spec fn spec_payloads(
    d: Seq<u8>,
    pos: int,
    h: DdsHeader,
    ds: Seq<MipDescriptor>,
    j: int,
) -> Result<(Seq<Seq<u8>>, int), EddsError>
    decreases ds.len() - j,
{
    if j < 0 || j >= ds.len() {
        Ok((Seq::empty(), pos))
    } else {
        let desc = ds[j];
        let acquired: Result<(Seq<u8>, int), EddsError> = match desc.data_type {
            MipmapType::COPY => {
                if pos + desc.compressed_data_size > d.len() {
                    Err(EddsError::Io)
                } else {
                    Ok(
                        (
                            d.subrange(pos, pos + desc.compressed_data_size),
                            pos + desc.compressed_data_size,
                        ),
                    )
                }
            },
            MipmapType::LZ4 => spec_decompress_chunk(d, pos, desc.compressed_data_size as int),
        };
        match acquired {
            Err(e) => Err(e),
            Ok((payload, pos2)) => {
                match spec_decode_payload(h, payload, desc.width as int, desc.height as int) {
                    Err(e) => Err(e),
                    Ok(data) => {
                        match spec_payloads(d, pos2, h, ds, j + 1) {
                            Err(e) => Err(e),
                            Ok(rest) => Ok((seq![data] + rest.0, rest.1)),
                        }
                    },
                }
            },
        }
    }
}

/// The last element of any non-empty decoded sequence is the
/// full-resolution image: its width and height are the header's.
pub proof fn lemma_last_mipmap_full_resolution(h: DdsHeader, ms: Seq<Mipmap>)
    requires
        spec_mipchain_wf(h, ms),
        ms.len() > 0,
        h.width >= 1,
        h.height >= 1,
    ensures
        ms.last().width == h.width as usize,
        ms.last().height == h.height as usize,
{
    assert(spec_mip_level_wf(h, ms, ms.len() - 1));
    vstd::arithmetic::power2::lemma2_to64();
    assert(pow2(0) == 1);
    assert((h.mip_map_count - (ms.len() - 1)) as u32 == 1);
    assert(h.width as int / pow2(0) as int == h.width);
    assert(h.height as int / pow2(0) as int == h.height);
    assert(spec_dim_for_index(h.width, 1) == h.width);
    assert(spec_dim_for_index(h.height, 1) == h.height);
}

/// How many bytes one pixel of a supported format occupies in the decoded
/// buffer: one for the single-channel block format, four for everything
/// else.
pub open spec fn spec_bytes_per_pixel(h: DdsHeader) -> int {
    match h.dx10_header {
        Some(x) => if x.dxgi_format == DxgiFormat::DXGI_FORMAT_BC4_UNORM {
            1
        } else {
            4
        },
        None => 4,
    }
}

/// Whether the header selects a raw swap path, whose decoded length is the
/// payload length rather than a computed size.
pub open spec fn spec_is_raw_format(h: DdsHeader) -> bool {
    match h.dx10_header {
        Some(x) => x.dxgi_format == DxgiFormat::DXGI_FORMAT_B8G8R8X8_UNORM_SRGB,
        None => h.ddspf.four_cc == FourCCEnum::NoCode,
    }
}

/// For every decoded mip level, the pixel buffer holds exactly
/// width × height × bytesPerPixel bytes. For the block formats this is
/// unconditional; a raw-format level must be raw-stored with its declared
/// payload size equal to that product, since its bytes pass through
/// unresized.
pub proof fn lemma_mipmap_data_len(h: DdsHeader, m: Mipmap)
    requires
        spec_mip_len_ok(h, m),
        spec_is_raw_format(h) ==> m.data_type == MipmapType::COPY && m.compressed_data_size
            == m.width * m.height * 4,
    ensures
        m.data@.len() == m.width * m.height * spec_bytes_per_pixel(h),
{
}

impl Edds {
    /// Computes a mip level's edge length from the header's full-resolution
    /// dimension and the level's 1-based index.
    pub fn get_dim_for_index(max_dim: u32, index: u32) -> (r: usize)
        requires
            1 <= index,
        ensures
            r == spec_dim_for_index(max_dim, index),
    {
        let shift = index - 1;
        let d: u32 = if shift >= 32 {
            proof {
                vstd::arithmetic::power2::lemma2_to64();
                vstd::arithmetic::power2::lemma_pow2_adds(32, (shift - 32) as nat);
                vstd::arithmetic::power2::lemma_pow2_pos((shift - 32) as nat);
                assert(pow2(shift as nat) >= pow2(32)) by (nonlinear_arith)
                    requires
                        pow2(shift as nat) == pow2(32) * pow2((shift - 32) as nat),
                        pow2((shift - 32) as nat) >= 1,
                ;
                vstd::arithmetic::div_mod::lemma_basic_div(
                    max_dim as int,
                    pow2(shift as nat) as int,
                );
            }
            0
        } else {
            proof {
                vstd::bits::lemma_u32_shr_is_div(max_dim, shift);
            }
            max_dim >> shift
        };
        if d < 1 {
            1
        } else {
            d as usize
        }
    }

    /// Reads the per-level descriptors at the cursor, smallest level first:
    /// the result is exactly what the specification-level table parser says
    /// for these bytes and this header.
    fn read_descriptors(input: &mut Reader, header: &DdsHeader) -> (r: Result<
        Vec<MipDescriptor>,
        EddsError,
    >)
        requires
            old(input).wf(),
        ensures
            final(input).wf(),
            final(input).data == old(input).data,
            ({
                let sd = spec_descriptors(
                    old(input).data@,
                    old(input).pos as int,
                    header.width,
                    header.height,
                    header.mip_map_count as int,
                );
                match r {
                    Ok(v) => sd == Ok::<Seq<MipDescriptor>, EddsError>(v@) && final(input).pos
                        == old(input).pos + 8 * (header.mip_map_count as int),
                    Err(e) => sd == Err::<Seq<MipDescriptor>, EddsError>(e),
                }
            }),
    {
        let ghost d = input.data@;
        let ghost p0 = input.pos as int;
        let mut descs: Vec<MipDescriptor> = Vec::new();
        let mut i: u32 = header.mip_map_count;
        while i >= 1
            invariant
                input.wf(),
                input.data == old(input).data,
                input.data@ == d,
                p0 == old(input).pos as int,
                i <= header.mip_map_count,
                descs@.len() == header.mip_map_count - i,
                input.pos as int == p0 + 8 * (header.mip_map_count - i),
                forall|rest: Seq<MipDescriptor>|
                    spec_descriptors(d, input.pos as int, header.width, header.height, i as int)
                        == Ok::<Seq<MipDescriptor>, EddsError>(rest) ==> spec_descriptors(
                        d,
                        p0,
                        header.width,
                        header.height,
                        header.mip_map_count as int,
                    ) == Ok::<Seq<MipDescriptor>, EddsError>(descs@ + rest),
                forall|e: EddsError|
                    spec_descriptors(d, input.pos as int, header.width, header.height, i as int)
                        == Err::<Seq<MipDescriptor>, EddsError>(e) ==> spec_descriptors(
                        d,
                        p0,
                        header.width,
                        header.height,
                        header.mip_map_count as int,
                    ) == Err::<Seq<MipDescriptor>, EddsError>(e),
            decreases i,
        {
            let ghost pos_here = input.pos as int;
            let tag = match input.read_u32() {
                Ok(t) => t,
                Err(e) => {
                    return Err(e);
                },
            };
            let size = match input.read_u32() {
                Ok(s) => s,
                Err(_) => {
                    return Err(EddsError::Io);
                },
            };
            if tag != COPY_TAG && tag != LZ4_TAG {
                return Err(EddsError::UnknownStorageMode(tag));
            }
            let w = Edds::get_dim_for_index(header.width, i);
            let h = Edds::get_dim_for_index(header.height, i);
            proof {
                lemma_dim_bounds(header.width, i);
                lemma_dim_bounds(header.height, i);
            }
            let desc = MipDescriptor {
                width: w,
                height: h,
                data_type: if tag == COPY_TAG {
                    MipmapType::COPY
                } else {
                    MipmapType::LZ4
                },
                compressed_data_size: size,
            };
            let ghost prev = descs@;
            descs.push(desc);
            proof {
                assert(desc.width as int == spec_dim_for_index(header.width, i));
                assert(1 <= spec_dim_for_index(header.width, i) <= u32::MAX);
                assert(desc.width == spec_dim_for_index(header.width, i) as usize);
                assert(desc.height == spec_dim_for_index(header.height, i) as usize);
                assert forall|rest: Seq<MipDescriptor>|
                    spec_descriptors(
                        d,
                        pos_here + 8,
                        header.width,
                        header.height,
                        i as int - 1,
                    ) == Ok::<Seq<MipDescriptor>, EddsError>(rest) implies spec_descriptors(
                    d,
                    p0,
                    header.width,
                    header.height,
                    header.mip_map_count as int,
                ) == Ok::<Seq<MipDescriptor>, EddsError>(descs@ + rest) by {
                    assert(le32(d, pos_here) as u32 == tag);
                    assert(le32(d, pos_here + 4) as u32 == size);
                    assert(spec_descriptors(d, pos_here, header.width, header.height, i as int)
                        == Ok::<Seq<MipDescriptor>, EddsError>(seq![desc] + rest));
                    assert(spec_descriptors(
                        d,
                        p0,
                        header.width,
                        header.height,
                        header.mip_map_count as int,
                    ) == Ok::<Seq<MipDescriptor>, EddsError>(prev + (seq![desc] + rest)));
                    assert(descs@ + rest =~= prev + (seq![desc] + rest));
                }
            }
            i = i - 1;
        }
        proof {
            assert(spec_descriptors(d, input.pos as int, header.width, header.height, 0)
                == Ok::<Seq<MipDescriptor>, EddsError>(Seq::empty()));
            assert(descs@ + Seq::<MipDescriptor>::empty() =~= descs@);
        }
        Ok(descs)
    }

    /// Parses and decodes a whole container at the reader's cursor: header,
    /// descriptors, then every payload in descriptor order. The result is
    /// exactly what the specification-level pipeline says for these bytes:
    /// each stage's rejection is that stage's own error, and on success the
    /// cursor stands past the last payload and the chain is well-formed —
    /// one level per count, dimensions by the halving formula, each level
    /// agreeing with its descriptor, and each level's pixel bytes equal to
    /// the decode of its acquired payload.
    #[verifier::rlimit(100)]
    #[verifier::spinoff_prover]
    pub fn from(input: &mut Reader) -> (r: Result<Edds, EddsError>)
        requires
            old(input).wf(),
        ensures
            final(input).wf(),
            final(input).data == old(input).data,
            ({
                let d = old(input).data@;
                let p0 = old(input).pos as int;
                match spec_parse_header(d, p0) {
                    Err(he) => r == Err::<Edds, EddsError>(he),
                    Ok(h) => {
                        let dr = spec_descriptors(
                            d,
                            p0 + spec_header_byte_len(h),
                            h.width,
                            h.height,
                            h.mip_map_count as int,
                        );
                        match dr {
                            Err(de) => r == Err::<Edds, EddsError>(de),
                            Ok(ds) => {
                                let pr = spec_payloads(
                                    d,
                                    p0 + spec_header_byte_len(h) + 8 * ds.len(),
                                    h,
                                    ds,
                                    0,
                                );
                                match pr {
                                    Err(pe) => r == Err::<Edds, EddsError>(pe),
                                    Ok(pl) => r matches Ok(e) && final(input).pos == pl.1
                                        && e.mipmaps@.len() == ds.len() && (forall|j: int|
                                        0 <= j < ds.len() ==> spec_mip_matches(
                                            h,
                                            ds[j],
                                            #[trigger] e.mipmaps@[j],
                                        ) && e.mipmaps@[j].data@ == pl.0[j]) && spec_mipchain_wf(
                                        h,
                                        e.mipmaps@,
                                    ),
                                }
                            },
                        }
                    },
                }
            }),
    {
        let ghost d = input.data@;
        let ghost p0 = input.pos as int;
        let header = match DdsHeader::from_stream(input) {
            Ok(h) => h,
            Err(e) => {
                return Err(e);
            },
        };
        let descs = match Edds::read_descriptors(input, &header) {
            Ok(v) => v,
            Err(e) => {
                return Err(e);
            },
        };
        proof {
            lemma_descriptors_shape(
                d,
                p0 + spec_header_byte_len(header),
                header.width,
                header.height,
                header.mip_map_count as int,
                descs@,
            );
        }
        let ghost pay0 = p0 + spec_header_byte_len(header) + 8 * descs@.len();
        let ghost mut built: Seq<Seq<u8>> = Seq::empty();
        let mut mipmaps: Vec<Mipmap> = Vec::new();
        let mut idx: usize = 0;
        while idx < descs.len()
            invariant
                input.wf(),
                input.data == old(input).data,
                input.data@ == d,
                p0 == old(input).pos as int,
                idx <= descs@.len(),
                mipmaps@.len() == idx,
                built.len() == idx,
                spec_parse_header(d, p0) == Ok::<DdsHeader, EddsError>(header),
                spec_descriptors(
                    d,
                    p0 + spec_header_byte_len(header),
                    header.width,
                    header.height,
                    header.mip_map_count as int,
                ) == Ok::<Seq<MipDescriptor>, EddsError>(descs@),
                descs@.len() == header.mip_map_count,
                pay0 == p0 + spec_header_byte_len(header) + 8 * descs@.len(),
                forall|j: int|
                    0 <= j < descs@.len() ==> (#[trigger] descs@[j]).width == spec_dim_for_index(
                        header.width,
                        (header.mip_map_count - j) as u32,
                    ) as usize && descs@[j].height == spec_dim_for_index(
                        header.height,
                        (header.mip_map_count - j) as u32,
                    ) as usize,
                forall|j: int|
                    0 <= j < idx ==> spec_mip_matches(header, descs@[j], #[trigger] mipmaps@[j]),
                forall|j: int| 0 <= j < idx ==> (#[trigger] mipmaps@[j]).data@ == built[j],
                forall|rest: Seq<Seq<u8>>, end: int|
                    spec_payloads(d, input.pos as int, header, descs@, idx as int) == Ok::<
                        (Seq<Seq<u8>>, int),
                        EddsError,
                    >((rest, end)) ==> spec_payloads(d, pay0, header, descs@, 0) == Ok::<
                        (Seq<Seq<u8>>, int),
                        EddsError,
                    >((built + rest, end)),
                forall|e: EddsError|
                    spec_payloads(d, input.pos as int, header, descs@, idx as int) == Err::<
                        (Seq<Seq<u8>>, int),
                        EddsError,
                    >(e) ==> spec_payloads(d, pay0, header, descs@, 0) == Err::<
                        (Seq<Seq<u8>>, int),
                        EddsError,
                    >(e),
            decreases descs@.len() - idx,
        {
            let ghost pos_here = input.pos as int;
            let desc = descs[idx];
            let buf = match desc.data_type {
                MipmapType::COPY => {
                    match input.read_bytes(desc.compressed_data_size as usize) {
                        Ok(b) => b,
                        Err(e) => {
                            proof {
                                assert(spec_payloads(d, pos_here, header, descs@, idx as int)
                                    == Err::<(Seq<Seq<u8>>, int), EddsError>(e));
                            }
                            return Err(e);
                        },
                    }
                },
                MipmapType::LZ4 => {
                    match decompress_chunk(input, desc.compressed_data_size) {
                        Ok(b) => b,
                        Err(e) => {
                            proof {
                                assert(spec_payloads(d, pos_here, header, descs@, idx as int)
                                    == Err::<(Seq<Seq<u8>>, int), EddsError>(e));
                            }
                            return Err(e);
                        },
                    }
                },
            };
            let data = match Edds::decode_data(buf.as_slice(), desc.width, desc.height, &header) {
                Ok(v) => v,
                Err(e) => {
                    proof {
                        assert(spec_payloads(d, pos_here, header, descs@, idx as int) == Err::<
                            (Seq<Seq<u8>>, int),
                            EddsError,
                        >(e));
                    }
                    return Err(e);
                },
            };
            let m = Mipmap {
                width: desc.width,
                height: desc.height,
                data_type: desc.data_type,
                compressed_data_size: desc.compressed_data_size,
                data,
            };
            mipmaps.push(m);
            proof {
                let built0 = built;
                built = built.push(m.data@);
                assert forall|rest: Seq<Seq<u8>>, end: int|
                    spec_payloads(d, input.pos as int, header, descs@, idx + 1) == Ok::<
                        (Seq<Seq<u8>>, int),
                        EddsError,
                    >((rest, end)) implies spec_payloads(d, pay0, header, descs@, 0) == Ok::<
                    (Seq<Seq<u8>>, int),
                    EddsError,
                >((built + rest, end)) by {
                    assert(spec_payloads(d, pos_here, header, descs@, idx as int) == Ok::<
                        (Seq<Seq<u8>>, int),
                        EddsError,
                    >((seq![m.data@] + rest, end)));
                    assert(spec_payloads(d, pay0, header, descs@, 0) == Ok::<
                        (Seq<Seq<u8>>, int),
                        EddsError,
                    >((built0 + (seq![m.data@] + rest), end)));
                    assert(built + rest =~= built0 + (seq![m.data@] + rest));
                }
                assert forall|e: EddsError|
                    spec_payloads(d, input.pos as int, header, descs@, idx + 1) == Err::<
                        (Seq<Seq<u8>>, int),
                        EddsError,
                    >(e) implies spec_payloads(d, pay0, header, descs@, 0) == Err::<
                    (Seq<Seq<u8>>, int),
                    EddsError,
                >(e) by {
                    assert(spec_payloads(d, pos_here, header, descs@, idx as int) == Err::<
                        (Seq<Seq<u8>>, int),
                        EddsError,
                    >(e));
                }
            }
            idx = idx + 1;
        }
        proof {
            assert(spec_payloads(d, input.pos as int, header, descs@, idx as int) == Ok::<
                (Seq<Seq<u8>>, int),
                EddsError,
            >((Seq::empty(), input.pos as int)));
            assert(built + Seq::<Seq<u8>>::empty() =~= built);
        }
        Ok(Edds { mipmaps })
    }

    /// Decodes one level's payload by the header's format metadata: with an
    /// extension present the extended format dispatches, otherwise the
    /// legacy FourCC does.
    pub fn decode_data(src: &[u8], width: usize, height: usize, header: &DdsHeader) -> (r: Result<
        Vec<u8>,
        EddsError,
    >)
        ensures
            ({
                match header.dx10_header {
                    Some(x) => match x.dxgi_format {
                        DxgiFormat::DXGI_FORMAT_BC4_UNORM => {
                            &&& (1 <= width && 1 <= height && 4 * (width * height) <= usize::MAX)
                                ==> (r matches Ok(v) && v@ == bc4_lum_decoded(
                                src@,
                                width as int,
                                height as int,
                            ) && v@.len() == width * height)
                            &&& !(1 <= width && 1 <= height && 4 * (width * height) <= usize::MAX)
                                ==> r == Err::<Vec<u8>, EddsError>(EddsError::CodecFault)
                        },
                        DxgiFormat::DXGI_FORMAT_B8G8R8X8_UNORM_SRGB => r matches Ok(v) && v@
                            == spec_swap_rb(src@),
                        DxgiFormat::DXGI_FORMAT_BC7_UNORM_SRGB => {
                            &&& spec_bc_callable(src@.len() as int, width as int, height as int)
                                ==> (r matches Ok(v) && v@ == spec_bc7_image(
                                src@,
                                width as int,
                                height as int,
                            ) && v@.len() == width * height * 4)
                            &&& !spec_bc_callable(src@.len() as int, width as int, height as int)
                                ==> r == Err::<Vec<u8>, EddsError>(EddsError::CodecFault)
                        },
                        f => r == Err::<Vec<u8>, EddsError>(
                            EddsError::UnsupportedFormat(spec_dxgi_format_value(f)),
                        ),
                    },
                    None => match header.ddspf.four_cc {
                        FourCCEnum::NoCode => (match spec_resolve_pixel_format(header.ddspf) {
                            DdsPixelFormatEnum::D3DFMT_X8R8G8B8
                            | DdsPixelFormatEnum::D3DFMT_A8R8G8B8 => r matches Ok(v) && v@
                                == spec_swap_rb(src@),
                            tag => r == Err::<Vec<u8>, EddsError>(
                                EddsError::UnsupportedPixelFormat(tag),
                            ),
                        }),
                        FourCCEnum::DXT5 => {
                            &&& spec_bc_callable(src@.len() as int, width as int, height as int)
                                ==> (r matches Ok(v) && v@ == bc5_rgba_decoded(
                                src@,
                                width as int,
                                height as int,
                            ) && v@.len() == width * height * 4)
                            &&& !spec_bc_callable(src@.len() as int, width as int, height as int)
                                ==> r == Err::<Vec<u8>, EddsError>(EddsError::CodecFault)
                        },
                        fc => r == Err::<Vec<u8>, EddsError>(
                            EddsError::UnsupportedFormat(spec_four_cc_value(fc)),
                        ),
                    },
                }
            }),
            ({
                let sr = spec_decode_payload(*header, src@, width as int, height as int);
                match r {
                    Ok(v) => sr == Ok::<Seq<u8>, EddsError>(v@),
                    Err(e) => sr == Err::<Seq<u8>, EddsError>(e),
                }
            }),
    {
        proof {
            reveal(crate::decode::spec_decode_payload);
        }
        match &header.dx10_header {
            Some(dx10_header) => decode_dx10_data(dx10_header, src, width, height),
            None => decode_four_cc_data(header, src, width, height),
        }
    }
}

} // verus!
