use eff::dds_header::D3D10_Resource_Dimension;
use eff::dds_header::DdsHeader;
use eff::dds_header::DdsPixelFormatEnum;
use eff::edds::Edds;
use eff::edds::MipmapType;
use eff::errors::EddsError;
use eff::reader::Reader;

const FOURCC_NONE: u32 = 0;
const FOURCC_DXT5: u32 = 0x35545844;
const FOURCC_DX10: u32 = 0x30315844;
const DDPF_FOURCC: u32 = 0x4;
const DDPF_RGB: u32 = 0x40;
const DDPF_ALPHAPIXELS: u32 = 0x1;

fn push_u32(out: &mut Vec<u8>, v: u32) {
    out.extend_from_slice(&v.to_le_bytes());
}

struct HeaderSpec {
    width: u32,
    height: u32,
    mip_map_count: u32,
    size_field: u32,
    pf_flags: u32,
    four_cc: u32,
    rgb_bit_count: u32,
    masks: [u32; 4],
    dx10: Option<(u32, u32)>,
}

impl HeaderSpec {
    fn argb32(width: u32, height: u32, mips: u32) -> HeaderSpec {
        HeaderSpec {
            width,
            height,
            mip_map_count: mips,
            size_field: 124,
            pf_flags: DDPF_RGB | DDPF_ALPHAPIXELS,
            four_cc: FOURCC_NONE,
            rgb_bit_count: 32,
            masks: [0xFF0000, 0xFF00, 0xFF, 0xFF000000],
            dx10: None,
        }
    }

    fn dx10(width: u32, height: u32, mips: u32, dxgi: u32) -> HeaderSpec {
        HeaderSpec {
            width,
            height,
            mip_map_count: mips,
            size_field: 124,
            pf_flags: DDPF_FOURCC,
            four_cc: FOURCC_DX10,
            rgb_bit_count: 0,
            masks: [0, 0, 0, 0],
            dx10: Some((dxgi, 3)),
        }
    }

    fn to_bytes(&self) -> Vec<u8> {
        let mut b = Vec::new();
        b.extend_from_slice(b"DDS ");
        push_u32(&mut b, self.size_field);
        push_u32(&mut b, 0); // header flags
        push_u32(&mut b, self.height);
        push_u32(&mut b, self.width);
        push_u32(&mut b, 0); // pitch or linear size
        push_u32(&mut b, 0); // depth
        push_u32(&mut b, self.mip_map_count);
        for _ in 0..11 {
            push_u32(&mut b, 0); // reserved words
        }
        push_u32(&mut b, 32); // pixel-format size
        push_u32(&mut b, self.pf_flags);
        push_u32(&mut b, self.four_cc);
        push_u32(&mut b, self.rgb_bit_count);
        push_u32(&mut b, self.masks[0]);
        push_u32(&mut b, self.masks[1]);
        push_u32(&mut b, self.masks[2]);
        push_u32(&mut b, self.masks[3]);
        push_u32(&mut b, 0); // caps
        push_u32(&mut b, 0); // caps2
        push_u32(&mut b, 0); // caps3
        push_u32(&mut b, 0); // caps4
        push_u32(&mut b, 0); // reserved2
        assert_eq!(b.len(), 128);
        if let Some((dxgi, dim)) = self.dx10 {
            push_u32(&mut b, dxgi);
            push_u32(&mut b, dim);
            push_u32(&mut b, 0);
            push_u32(&mut b, 0);
            push_u32(&mut b, 0);
        }
        b
    }
}

fn push_copy_descriptor(out: &mut Vec<u8>, payload_len: u32) {
    out.extend_from_slice(b"COPY");
    push_u32(out, payload_len);
}

/// Wraps `raw` in one chunk with a single last block, returning the chunk
/// bytes and the declared compressed size the descriptor must carry.
fn lz4_chunk(raw: &[u8]) -> (Vec<u8>, u32) {
    let mut comp = Vec::new();
    lzzzz::lz4::compress_to_vec(raw, &mut comp, lzzzz::lz4::ACC_LEVEL_DEFAULT).unwrap();
    let mut chunk = Vec::new();
    push_u32(&mut chunk, raw.len() as u32);
    let bs = comp.len() as u32;
    chunk.push((bs & 0xFF) as u8);
    chunk.push(((bs >> 8) & 0xFF) as u8);
    chunk.push(((bs >> 16) & 0xFF) as u8);
    chunk.push(1); // last block
    chunk.extend_from_slice(&comp);
    (chunk, (4 + 3 + 1 + comp.len()) as u32)
}

#[test]
fn reader_primitive_reads() {
    let mut r = Reader::new(vec![0x01, 0x02, 0x03, 0x04, 0xFF, 0xFF, 0xFF, 0xFF, 0x07]);
    assert_eq!(r.read_u8().unwrap(), 0x01);
    assert_eq!(r.read_u16().unwrap(), 0x0302);
    assert_eq!(r.read_u8().unwrap(), 0x04);
    assert_eq!(r.read_i32().unwrap(), -1);
    assert!(r.read_bool().unwrap());
    assert_eq!(r.read_u32(), Err(EddsError::Io));
}

#[test]
fn reader_u24_and_peek() {
    let mut r = Reader::new(vec![0x10, 0x20, 0x30, 0x44, 0x55]);
    assert_eq!(r.peek_u8().unwrap(), 0x10);
    assert_eq!(r.peek_u16().unwrap(), 0x2010);
    assert_eq!(r.read_u24().unwrap(), 0x302010);
    assert_eq!(r.peek_u16().unwrap(), 0x5544);
    assert_eq!(r.read_u16().unwrap(), 0x5544);
    assert_eq!(r.peek_u8(), Err(EddsError::Io));
}

#[test]
fn reader_compressed_int() {
    let mut r = Reader::new(vec![0x05]);
    assert_eq!(r.read_compressed_int().unwrap(), 5);
    // continuation: 0x85 starts the run, 0x03 ends it and adds (3-1)*128
    // wrapped to 8 bits, which is 0.
    let mut r = Reader::new(vec![0x85, 0x03]);
    assert_eq!(r.read_compressed_int().unwrap(), 0x85);
    // 0x80 starts at 128, 0x02 adds (2-1)*128.
    let mut r = Reader::new(vec![0x80, 0x02]);
    assert_eq!(r.read_compressed_int().unwrap(), 256);
    // a run that never ends is a short read.
    let mut r = Reader::new(vec![0x80, 0x80]);
    assert_eq!(r.read_compressed_int(), Err(EddsError::Io));
}

#[test]
fn reader_strings() {
    let mut r = Reader::new(b"COPYab\0cd".to_vec());
    assert_eq!(r.peek_string(4).unwrap(), "COPY");
    assert_eq!(r.read_string(4).unwrap(), "COPY");
    assert_eq!(r.read_string_zt().unwrap(), "ab");
    assert_eq!(r.read_string_lossy(2).unwrap(), "cd");

    let mut r = Reader::new(vec![0xFF, 0xFE]);
    assert_eq!(r.peek_string_lossy(2).unwrap(), "\u{FFFD}\u{FFFD}");
    assert_eq!(r.read_string(2), Err(EddsError::Utf8));

    // without a terminator the read consumes to the end and drops the
    // final byte.
    let mut r = Reader::new(b"xyz".to_vec());
    assert_eq!(r.read_string_zt().unwrap(), "xy");
}

#[test]
fn dim_for_index_formula() {
    assert_eq!(Edds::get_dim_for_index(256, 1), 256);
    assert_eq!(Edds::get_dim_for_index(256, 9), 1);
    assert_eq!(Edds::get_dim_for_index(100, 3), 25);
    assert_eq!(Edds::get_dim_for_index(1, 5), 1);
    assert_eq!(Edds::get_dim_for_index(0, 1), 1);
    assert_eq!(Edds::get_dim_for_index(7, 2), 3);
    assert_eq!(Edds::get_dim_for_index(4096, 40), 1);
}

#[test]
fn header_parses_classic_fields() {
    let bytes = HeaderSpec::argb32(640, 480, 5).to_bytes();
    let mut r = Reader::new(bytes);
    let h = DdsHeader::from_stream(&mut r).unwrap();
    assert_eq!(h.size, 124);
    assert_eq!(h.width, 640);
    assert_eq!(h.height, 480);
    assert_eq!(h.mip_map_count, 5);
    assert!(h.dx10_header.is_none());
    assert_eq!(h.get_pixel_format(), DdsPixelFormatEnum::D3DFMT_A8R8G8B8);
}

#[test]
fn header_parses_extension() {
    let bytes = HeaderSpec::dx10(64, 64, 1, 99).to_bytes();
    let mut r = Reader::new(bytes);
    let h = DdsHeader::from_stream(&mut r).unwrap();
    let dx10 = h.dx10_header.unwrap();
    assert_eq!(
        dx10.resource_dimension,
        D3D10_Resource_Dimension::D3D10_RESOURCE_DIMENSION_TEXTURE2D
    );
    assert_eq!(dx10.dxgi_format.value(), 99);
}

#[test]
fn header_rejects_bad_magic() {
    let mut bytes = HeaderSpec::argb32(4, 4, 1).to_bytes();
    bytes[3] = b'?'; // "DDS?"
    let expected = u32::from_le_bytes([b'D', b'D', b'S', b'?']);
    let mut r = Reader::new(bytes);
    assert_eq!(DdsHeader::from_stream(&mut r), Err(EddsError::BadMagic(expected)));
}

#[test]
fn header_rejects_bad_size_before_other_fields() {
    let mut spec = HeaderSpec::argb32(4, 4, 1);
    spec.size_field = 100;
    spec.pf_flags = 0xDEAD_BEEF; // would be invalid bit-flags, but must not be reached
    let bytes = spec.to_bytes();
    let mut r = Reader::new(bytes);
    assert_eq!(DdsHeader::from_stream(&mut r), Err(EddsError::BadSize(100)));
}

#[test]
fn header_rejects_unknown_bits_and_fourcc() {
    let mut spec = HeaderSpec::argb32(4, 4, 1);
    spec.pf_flags = 0x10; // not a known pixel-format bit
    let mut r = Reader::new(spec.to_bytes());
    assert_eq!(DdsHeader::from_stream(&mut r), Err(EddsError::InvalidBitFlags(0x10)));

    let mut spec = HeaderSpec::argb32(4, 4, 1);
    spec.pf_flags = DDPF_FOURCC;
    spec.four_cc = u32::from_le_bytes(*b"XXXX");
    let mut r = Reader::new(spec.to_bytes());
    assert_eq!(
        DdsHeader::from_stream(&mut r),
        Err(EddsError::InvalidFourCC(u32::from_le_bytes(*b"XXXX")))
    );
}

#[test]
fn header_rejects_unknown_extension_values() {
    let bytes = HeaderSpec::dx10(4, 4, 1, 9999).to_bytes();
    let mut r = Reader::new(bytes);
    assert_eq!(DdsHeader::from_stream(&mut r), Err(EddsError::InvalidExtendedFormat(9999)));

    let mut spec = HeaderSpec::dx10(4, 4, 1, 99);
    spec.dx10 = Some((99, 7));
    let mut r = Reader::new(spec.to_bytes());
    assert_eq!(DdsHeader::from_stream(&mut r), Err(EddsError::InvalidResourceDimension(7)));
}

#[test]
fn edds_rejects_unknown_storage_mode() {
    let mut bytes = HeaderSpec::argb32(4, 4, 1).to_bytes();
    bytes.extend_from_slice(b"FOO ");
    bytes.extend_from_slice(&64u32.to_le_bytes());
    let expected = u32::from_le_bytes(*b"FOO ");
    let mut r = Reader::new(bytes);
    assert_eq!(
        Edds::from(&mut r).unwrap_err(),
        EddsError::UnknownStorageMode(expected)
    );
}

#[test]
fn edds_decodes_raw_argb_scenario() {
    // full-resolution 256x256, one level, raw payload in B,G,R,A order.
    let mut bytes = HeaderSpec::argb32(256, 256, 1).to_bytes();
    let n = 256 * 256 * 4;
    push_copy_descriptor(&mut bytes, n as u32);
    for _ in 0..(n / 4) {
        bytes.extend_from_slice(&[10, 20, 30, 40]); // B, G, R, A
    }
    let mut r = Reader::new(bytes);
    let edds = Edds::from(&mut r).unwrap();
    assert_eq!(edds.mipmaps.len(), 1);
    let m = &edds.mipmaps[0];
    assert_eq!((m.width, m.height), (256, 256));
    assert_eq!(m.data.len(), n);
    for px in m.data.chunks(4) {
        assert_eq!(px, &[30, 20, 10, 40]); // R, G, B, A
    }
}

#[test]
fn edds_decodes_bc7_lz4_scenario() {
    // 64x64, one level, extension with the 4-channel high-quality block
    // format, payload carried in one chunk with a single last block.
    let mut bytes = HeaderSpec::dx10(64, 64, 1, 99).to_bytes();
    let raw = vec![0u8; (64 / 4) * (64 / 4) * 16];
    let (chunk, declared) = lz4_chunk(&raw);
    bytes.extend_from_slice(b"LZ4 ");
    push_u32(&mut bytes, declared);
    bytes.extend_from_slice(&chunk);
    let mut r = Reader::new(bytes);
    let edds = Edds::from(&mut r).unwrap();
    assert_eq!(edds.mipmaps.len(), 1);
    let m = &edds.mipmaps[0];
    assert_eq!((m.width, m.height), (64, 64));
    assert!(matches!(m.data_type, MipmapType::LZ4));
    assert_eq!(m.data.len(), 64 * 64 * 4);
}

#[test]
fn edds_rejects_corrupt_chunk_length() {
    // the declared compressed size disagrees with the chunk's running
    // consumed-byte count by one: stream corruption, never success.
    let mut bytes = HeaderSpec::argb32(4, 4, 1).to_bytes();
    let raw = vec![7u8; 4 * 4 * 4];
    let (chunk, declared) = lz4_chunk(&raw);
    bytes.extend_from_slice(b"LZ4 ");
    push_u32(&mut bytes, declared + 1);
    bytes.extend_from_slice(&chunk);
    bytes.push(0); // the extra byte the descriptor claims
    let mut r = Reader::new(bytes);
    assert_eq!(Edds::from(&mut r).unwrap_err(), EddsError::StreamCorruption);
}

#[test]
fn edds_decodes_lz4_raw_argb() {
    // LZ4-stored raw-format level: inflation then the channel swap.
    let mut bytes = HeaderSpec::argb32(8, 8, 1).to_bytes();
    let mut raw = Vec::new();
    for i in 0..(8 * 8) {
        raw.extend_from_slice(&[1, 2, 3, i as u8]);
    }
    let (chunk, declared) = lz4_chunk(&raw);
    bytes.extend_from_slice(b"LZ4 ");
    push_u32(&mut bytes, declared);
    bytes.extend_from_slice(&chunk);
    let mut r = Reader::new(bytes);
    let edds = Edds::from(&mut r).unwrap();
    let m = &edds.mipmaps[0];
    assert_eq!(m.data.len(), 8 * 8 * 4);
    for (i, px) in m.data.chunks(4).enumerate() {
        assert_eq!(px, &[3, 2, 1, i as u8]);
    }
}

#[test]
fn edds_multi_level_ordering() {
    // three levels: read smallest first, full resolution last.
    let mut bytes = HeaderSpec::argb32(8, 4, 3).to_bytes();
    let dims = [(2usize, 1usize), (4, 2), (8, 4)];
    for (w, h) in dims {
        push_copy_descriptor(&mut bytes, (w * h * 4) as u32);
    }
    for (i, (w, h)) in dims.iter().enumerate() {
        for _ in 0..(w * h) {
            bytes.extend_from_slice(&[0, 0, i as u8, 255]);
        }
    }
    let mut r = Reader::new(bytes);
    let edds = Edds::from(&mut r).unwrap();
    assert_eq!(edds.mipmaps.len(), 3);
    for (i, (w, h)) in dims.iter().enumerate() {
        let m = &edds.mipmaps[i];
        assert_eq!((m.width, m.height), (*w, *h));
        assert_eq!(m.data.len(), w * h * 4);
        assert_eq!(&m.data[0..4], &[i as u8, 0, 0, 255]);
    }
    let last = edds.mipmaps.last().unwrap();
    assert_eq!((last.width, last.height), (8, 4));
}

#[test]
fn edds_rejects_unsupported_formats() {
    // a recognized but unsupported FourCC: DXT1.
    let mut spec = HeaderSpec::argb32(4, 4, 1);
    spec.pf_flags = DDPF_FOURCC;
    spec.four_cc = u32::from_le_bytes(*b"DXT1");
    let mut bytes = spec.to_bytes();
    push_copy_descriptor(&mut bytes, 16);
    bytes.extend_from_slice(&[0u8; 16]);
    let mut r = Reader::new(bytes);
    assert_eq!(
        Edds::from(&mut r).unwrap_err(),
        EddsError::UnsupportedFormat(u32::from_le_bytes(*b"DXT1"))
    );

    // an extension format with no decode path: plain R8G8B8A8_UNORM (28).
    let mut bytes = HeaderSpec::dx10(4, 4, 1, 28).to_bytes();
    push_copy_descriptor(&mut bytes, 64);
    bytes.extend_from_slice(&[0u8; 64]);
    let mut r = Reader::new(bytes);
    assert_eq!(Edds::from(&mut r).unwrap_err(), EddsError::UnsupportedFormat(28));

    // masks that resolve to an unrecognized legacy tag.
    let mut spec = HeaderSpec::argb32(4, 4, 1);
    spec.rgb_bit_count = 16;
    spec.masks = [0xF800, 0x7E0, 0x1F, 0x0];
    let mut bytes = spec.to_bytes();
    push_copy_descriptor(&mut bytes, 32);
    bytes.extend_from_slice(&[0u8; 32]);
    let mut r = Reader::new(bytes);
    assert_eq!(
        Edds::from(&mut r).unwrap_err(),
        EddsError::UnsupportedPixelFormat(DdsPixelFormatEnum::D3FMT_R5G6B5)
    );
}

#[test]
fn edds_decodes_bc4_payload() {
    // single-channel block format: an 8-byte block with both endpoints 37
    // and an all-zero lookup table decodes to 37 everywhere.
    let mut bytes = HeaderSpec::dx10(4, 4, 1, 80).to_bytes();
    push_copy_descriptor(&mut bytes, 8);
    bytes.extend_from_slice(&[37, 37, 0, 0, 0, 0, 0, 0]);
    let mut r = Reader::new(bytes);
    let edds = Edds::from(&mut r).unwrap();
    let m = &edds.mipmaps[0];
    assert_eq!(m.data.len(), 4 * 4);
    assert!(m.data.iter().all(|&b| b == 37));
}

#[test]
fn edds_decodes_bgrx_swap_payload() {
    // the raw 32-bit BGRX extension format swaps channels in place.
    let mut bytes = HeaderSpec::dx10(2, 2, 1, 93).to_bytes();
    push_copy_descriptor(&mut bytes, 16);
    for _ in 0..4 {
        bytes.extend_from_slice(&[1, 2, 3, 4]);
    }
    let mut r = Reader::new(bytes);
    let edds = Edds::from(&mut r).unwrap();
    let m = &edds.mipmaps[0];
    assert_eq!(m.data.len(), 16);
    for px in m.data.chunks(4) {
        assert_eq!(px, &[3, 2, 1, 4]);
    }
}

#[test]
fn edds_decodes_dxt5_payload() {
    // the DXT-style 4-channel code feeds the block primitive: 4x4 needs one
    // 16-byte block and yields 64 bytes.
    let mut spec = HeaderSpec::argb32(4, 4, 1);
    spec.pf_flags = DDPF_FOURCC;
    spec.four_cc = FOURCC_DXT5;
    let mut bytes = spec.to_bytes();
    push_copy_descriptor(&mut bytes, 16);
    bytes.extend_from_slice(&[0u8; 16]);
    let mut r = Reader::new(bytes);
    let edds = Edds::from(&mut r).unwrap();
    assert_eq!(edds.mipmaps[0].data.len(), 4 * 4 * 4);
}

#[test]
fn edds_truncated_payload_is_io_error() {
    let mut bytes = HeaderSpec::argb32(4, 4, 1).to_bytes();
    push_copy_descriptor(&mut bytes, 64);
    bytes.extend_from_slice(&[0u8; 10]); // far short of 64
    let mut r = Reader::new(bytes);
    assert_eq!(Edds::from(&mut r).unwrap_err(), EddsError::Io);
}

#[test]
fn edds_truncated_header_is_io_error() {
    let bytes = HeaderSpec::argb32(4, 4, 1).to_bytes()[..100].to_vec();
    let mut r = Reader::new(bytes);
    assert_eq!(Edds::from(&mut r).unwrap_err(), EddsError::Io);
}

#[test]
fn edds_codec_fault_on_short_block_payload() {
    // a DXT-style 4-channel level whose payload is shorter than one block.
    let mut spec = HeaderSpec::argb32(4, 4, 1);
    spec.pf_flags = DDPF_FOURCC;
    spec.four_cc = FOURCC_DXT5;
    let mut bytes = spec.to_bytes();
    push_copy_descriptor(&mut bytes, 8);
    bytes.extend_from_slice(&[0u8; 8]);
    let mut r = Reader::new(bytes);
    assert_eq!(Edds::from(&mut r).unwrap_err(), EddsError::CodecFault);
}

#[test]
fn edds_codec_fault_on_bad_lz4_block() {
    // a chunk whose block bytes are not a valid LZ4 block.
    let mut bytes = HeaderSpec::argb32(4, 4, 1).to_bytes();
    bytes.extend_from_slice(b"LZ4 ");
    push_u32(&mut bytes, 4 + 3 + 1 + 10);
    push_u32(&mut bytes, 64); // declared decompressed length
    bytes.extend_from_slice(&[10, 0, 0]); // block size 10
    bytes.push(1); // last block
    bytes.extend_from_slice(&[0xFF; 10]);
    let mut r = Reader::new(bytes);
    assert_eq!(Edds::from(&mut r).unwrap_err(), EddsError::CodecFault);
}

#[test]
fn dx10_header_default_values() {
    let d = eff::dds_header::DdsHeaderDX10::default();
    assert_eq!(d.dxgi_format.value(), 0);
    assert_eq!(
        d.resource_dimension,
        D3D10_Resource_Dimension::D3D10_RESOURCE_DIMENSION_UNKNOWN
    );
    assert_eq!((d.misc_flag, d.array_size, d.misc_flags2), (0, 0, 0));
}

#[test]
fn peek_failure_leaves_cursor_unchanged() {
    let mut r = Reader::new(vec![0x42]);
    assert_eq!(r.peek_u16(), Err(EddsError::Io));
    assert_eq!(r.read_u8().unwrap(), 0x42);
}
