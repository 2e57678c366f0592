//! Error taxonomy of the container decoder.
//!
//! Every failure names the stage that rejected the input and, for each
//! closed-enumeration field, carries the unrecognized numeric value.

use vstd::prelude::*;

verus! {

/// Every way a container decode can fail.
///
/// - `Io`: the stream ended before a read could be satisfied.
/// - `Utf8`: a strict text read met bytes that are not valid UTF-8.
/// - `BadMagic`: the leading 4-byte tag is not the container's magic;
///   carries the tag that was read.
/// - `BadSize`: the header size field differs from the required 124;
///   carries the value that was read.
/// - `InvalidBitFlags`: a bit-set field holds a bit outside its known
///   vocabulary; carries the raw field value.
/// - `InvalidFourCC`: the pixel-format code is not one of the recognized
///   4-byte codes; carries the raw code.
/// - `InvalidExtendedFormat`: the extension's format value is not in the
///   extended-format enumeration; carries the raw value.
/// - `InvalidResourceDimension`: the extension's resource-dimension value is
///   not one of the five known values; carries the raw value.
/// - `UnknownStorageMode`: a mip descriptor's storage tag is neither the raw
///   nor the compressed tag; carries the 4 tag bytes as a little-endian word.
/// - `StreamCorruption`: the chunked compression's running consumed-byte
///   count disagreed with the declared total compressed size.
/// - `CodecFault`: an external decompression or block-decode primitive
///   failed.
/// - `UnsupportedFormat`: the header's format metadata is recognized but no
///   decode path exists for it; carries the numeric format code.
/// - `UnsupportedPixelFormat`: the legacy bit-mask fields resolved to a tag
///   that no decode path accepts; carries that tag.
#[derive(Debug, Clone, Copy, PartialEq, Eq, Structural)]
pub enum EddsError {
    Io,
    Utf8,
    BadMagic(u32),
    BadSize(u32),
    InvalidBitFlags(u32),
    InvalidFourCC(u32),
    InvalidExtendedFormat(u32),
    InvalidResourceDimension(u32),
    UnknownStorageMode(u32),
    StreamCorruption,
    CodecFault,
    UnsupportedFormat(u32),
    UnsupportedPixelFormat(crate::dds_header::DdsPixelFormatEnum),
}

} // verus!
