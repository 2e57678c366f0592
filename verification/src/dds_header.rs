//! The container's fixed header: the classic 128-byte record, the legacy
//! pixel-format sub-record with its closed FourCC enumeration, the optional
//! 20-byte extension with the extended-format enumeration, and the resolver
//! that maps legacy bit-mask tuples to a canonical format tag.
//!
//! Every closed enumeration and bit-set is validated at construction: an
//! unrecognized discriminant or an unrecognized bit is a named parse error,
//! never a silent truncation.

use vstd::prelude::*;

use crate::errors::EddsError;
use crate::reader::Reader;
use crate::reader::le32;

verus! {

/// The container's 4-byte magic, "DDS ", as a little-endian word.
pub const DDS_MAGIC: u32 = 0x20534444;

/// Every bit the header flag field may carry.
pub const DDSD_KNOWN_BITS: u32 = 0x1 | 0x2 | 0x4 | 0x8 | 0x1000 | 0x20000 | 0x80000 | 0x800000;

/// Every bit the caps field may carry.
pub const DDSCAPS_KNOWN_BITS: u32 = 0x8 | 0x1000 | 0x400000;

/// Every bit the caps2 field may carry.
pub const DDSCAPS2_KNOWN_BITS: u32 = 0x200 | 0x400 | 0x800 | 0x1000 | 0x2000 | 0x4000 | 0x8000
    | 0x200000;

/// Every bit the pixel-format flag field may carry.
pub const DDPF_KNOWN_BITS: u32 = 0x1 | 0x2 | 0x4 | 0x40 | 0x200 | 0x20000;

/// The known bits of the header flag field.
#[derive(Debug, Clone, Copy, PartialEq, Eq, Structural)]
#[allow(non_camel_case_types)]
pub enum DdsHeaderFlags {
    DDSD_CAPS,
    DDSD_HEIGHT,
    DDSD_WIDTH,
    DDSD_PITCH,
    DDSD_PIXELFORMAT,
    DDSD_MIPMAPCOUNT,
    DDSD_LINEARSIZE,
    DDSD_DEPTH,
}

impl DdsHeaderFlags {
    pub open spec fn spec_bit(self) -> u32 {
        match self {
            DdsHeaderFlags::DDSD_CAPS => 0x1,
            DdsHeaderFlags::DDSD_HEIGHT => 0x2,
            DdsHeaderFlags::DDSD_WIDTH => 0x4,
            DdsHeaderFlags::DDSD_PITCH => 0x8,
            DdsHeaderFlags::DDSD_PIXELFORMAT => 0x1000,
            DdsHeaderFlags::DDSD_MIPMAPCOUNT => 0x20000,
            DdsHeaderFlags::DDSD_LINEARSIZE => 0x80000,
            DdsHeaderFlags::DDSD_DEPTH => 0x800000,
        }
    }

    pub fn bit(self) -> (r: u32)
        ensures
            r == self.spec_bit(),
    {
        match self {
            DdsHeaderFlags::DDSD_CAPS => 0x1,
            DdsHeaderFlags::DDSD_HEIGHT => 0x2,
            DdsHeaderFlags::DDSD_WIDTH => 0x4,
            DdsHeaderFlags::DDSD_PITCH => 0x8,
            DdsHeaderFlags::DDSD_PIXELFORMAT => 0x1000,
            DdsHeaderFlags::DDSD_MIPMAPCOUNT => 0x20000,
            DdsHeaderFlags::DDSD_LINEARSIZE => 0x80000,
            DdsHeaderFlags::DDSD_DEPTH => 0x800000,
        }
    }
}

/// The known bits of the caps field.
#[derive(Debug, Clone, Copy, PartialEq, Eq, Structural)]
#[allow(non_camel_case_types)]
pub enum DdsCapsFlags {
    DDSCAPS_COMPLEX,
    DDSCAPS_MIPMAP,
    DDSCAPS_TEXTURE,
}

impl DdsCapsFlags {
    pub open spec fn spec_bit(self) -> u32 {
        match self {
            DdsCapsFlags::DDSCAPS_COMPLEX => 0x8,
            DdsCapsFlags::DDSCAPS_MIPMAP => 0x400000,
            DdsCapsFlags::DDSCAPS_TEXTURE => 0x1000,
        }
    }

    pub fn bit(self) -> (r: u32)
        ensures
            r == self.spec_bit(),
    {
        match self {
            DdsCapsFlags::DDSCAPS_COMPLEX => 0x8,
            DdsCapsFlags::DDSCAPS_MIPMAP => 0x400000,
            DdsCapsFlags::DDSCAPS_TEXTURE => 0x1000,
        }
    }
}

/// The known bits of the caps2 field.
#[derive(Debug, Clone, Copy, PartialEq, Eq, Structural)]
#[allow(non_camel_case_types)]
pub enum DdsCaps2Flags {
    DDSCAPS2_CUBEMAP,
    DDSCAPS2_CUBEMAP_POSITIVEX,
    DDSCAPS2_CUBEMAP_NEGATIVEX,
    DDSCAPS2_CUBEMAP_POSITIVEY,
    DDSCAPS2_CUBEMAP_NEGATIVEY,
    DDSCAPS2_CUBEMAP_POSITIVEZ,
    DDSCAPS2_CUBEMAP_NEGATIVEZ,
    DDSCAPS2_VOLUME,
}

impl DdsCaps2Flags {
    pub open spec fn spec_bit(self) -> u32 {
        match self {
            DdsCaps2Flags::DDSCAPS2_CUBEMAP => 0x200,
            DdsCaps2Flags::DDSCAPS2_CUBEMAP_POSITIVEX => 0x400,
            DdsCaps2Flags::DDSCAPS2_CUBEMAP_NEGATIVEX => 0x800,
            DdsCaps2Flags::DDSCAPS2_CUBEMAP_POSITIVEY => 0x1000,
            DdsCaps2Flags::DDSCAPS2_CUBEMAP_NEGATIVEY => 0x2000,
            DdsCaps2Flags::DDSCAPS2_CUBEMAP_POSITIVEZ => 0x4000,
            DdsCaps2Flags::DDSCAPS2_CUBEMAP_NEGATIVEZ => 0x8000,
            DdsCaps2Flags::DDSCAPS2_VOLUME => 0x200000,
        }
    }

    pub fn bit(self) -> (r: u32)
        ensures
            r == self.spec_bit(),
    {
        match self {
            DdsCaps2Flags::DDSCAPS2_CUBEMAP => 0x200,
            DdsCaps2Flags::DDSCAPS2_CUBEMAP_POSITIVEX => 0x400,
            DdsCaps2Flags::DDSCAPS2_CUBEMAP_NEGATIVEX => 0x800,
            DdsCaps2Flags::DDSCAPS2_CUBEMAP_POSITIVEY => 0x1000,
            DdsCaps2Flags::DDSCAPS2_CUBEMAP_NEGATIVEY => 0x2000,
            DdsCaps2Flags::DDSCAPS2_CUBEMAP_POSITIVEZ => 0x4000,
            DdsCaps2Flags::DDSCAPS2_CUBEMAP_NEGATIVEZ => 0x8000,
            DdsCaps2Flags::DDSCAPS2_VOLUME => 0x200000,
        }
    }
}

/// The known bits of the pixel-format flag field.
#[derive(Debug, Clone, Copy, PartialEq, Eq, Structural)]
#[allow(non_camel_case_types)]
pub enum DdsPixelformatFlags {
    DDPF_ALPHAPIXELS,
    DDPF_ALPHA,
    DDPF_FOURCC,
    DDPF_RGB,
    DDPF_YUV,
    DDPF_LUMINANCE,
}

impl DdsPixelformatFlags {
    pub open spec fn spec_bit(self) -> u32 {
        match self {
            DdsPixelformatFlags::DDPF_ALPHAPIXELS => 0x1,
            DdsPixelformatFlags::DDPF_ALPHA => 0x2,
            DdsPixelformatFlags::DDPF_FOURCC => 0x4,
            DdsPixelformatFlags::DDPF_RGB => 0x40,
            DdsPixelformatFlags::DDPF_YUV => 0x200,
            DdsPixelformatFlags::DDPF_LUMINANCE => 0x20000,
        }
    }

    pub fn bit(self) -> (r: u32)
        ensures
            r == self.spec_bit(),
    {
        match self {
            DdsPixelformatFlags::DDPF_ALPHAPIXELS => 0x1,
            DdsPixelformatFlags::DDPF_ALPHA => 0x2,
            DdsPixelformatFlags::DDPF_FOURCC => 0x4,
            DdsPixelformatFlags::DDPF_RGB => 0x40,
            DdsPixelformatFlags::DDPF_YUV => 0x200,
            DdsPixelformatFlags::DDPF_LUMINANCE => 0x20000,
        }
    }
}

/// A header flag field restricted to its known bits.
#[derive(Debug, Clone, Copy, PartialEq, Eq, Structural)]
pub struct DdsHeaderFlagSet {
    pub bits: u32,
}

impl DdsHeaderFlagSet {
    pub open spec fn wf(self) -> bool {
        self.bits & DDSD_KNOWN_BITS == self.bits
    }

    /// Accepts a raw field value iff it carries no unrecognized bit.
    pub fn from_bits(v: u32) -> (r: Option<DdsHeaderFlagSet>)
        ensures
            r is Some <==> v & DDSD_KNOWN_BITS == v,
            r matches Some(s) ==> s.bits == v && s.wf(),
    {
        if v & DDSD_KNOWN_BITS == v {
            Some(DdsHeaderFlagSet { bits: v })
        } else {
            None
        }
    }

    pub open spec fn spec_contains(self, f: DdsHeaderFlags) -> bool {
        self.bits & f.spec_bit() != 0
    }

    pub fn contains(self, f: DdsHeaderFlags) -> (r: bool)
        ensures
            r == self.spec_contains(f),
    {
        self.bits & f.bit() != 0
    }
}

/// A caps field restricted to its known bits.
#[derive(Debug, Clone, Copy, PartialEq, Eq, Structural)]
pub struct DdsCapsFlagSet {
    pub bits: u32,
}

impl DdsCapsFlagSet {
    pub open spec fn wf(self) -> bool {
        self.bits & DDSCAPS_KNOWN_BITS == self.bits
    }

    /// Accepts a raw field value iff it carries no unrecognized bit.
    pub fn from_bits(v: u32) -> (r: Option<DdsCapsFlagSet>)
        ensures
            r is Some <==> v & DDSCAPS_KNOWN_BITS == v,
            r matches Some(s) ==> s.bits == v && s.wf(),
    {
        if v & DDSCAPS_KNOWN_BITS == v {
            Some(DdsCapsFlagSet { bits: v })
        } else {
            None
        }
    }

    pub open spec fn spec_contains(self, f: DdsCapsFlags) -> bool {
        self.bits & f.spec_bit() != 0
    }

    pub fn contains(self, f: DdsCapsFlags) -> (r: bool)
        ensures
            r == self.spec_contains(f),
    {
        self.bits & f.bit() != 0
    }
}

/// A caps2 field restricted to its known bits.
#[derive(Debug, Clone, Copy, PartialEq, Eq, Structural)]
pub struct DdsCaps2FlagSet {
    pub bits: u32,
}

impl DdsCaps2FlagSet {
    pub open spec fn wf(self) -> bool {
        self.bits & DDSCAPS2_KNOWN_BITS == self.bits
    }

    /// Accepts a raw field value iff it carries no unrecognized bit.
    pub fn from_bits(v: u32) -> (r: Option<DdsCaps2FlagSet>)
        ensures
            r is Some <==> v & DDSCAPS2_KNOWN_BITS == v,
            r matches Some(s) ==> s.bits == v && s.wf(),
    {
        if v & DDSCAPS2_KNOWN_BITS == v {
            Some(DdsCaps2FlagSet { bits: v })
        } else {
            None
        }
    }

    pub open spec fn spec_contains(self, f: DdsCaps2Flags) -> bool {
        self.bits & f.spec_bit() != 0
    }

    pub fn contains(self, f: DdsCaps2Flags) -> (r: bool)
        ensures
            r == self.spec_contains(f),
    {
        self.bits & f.bit() != 0
    }
}

/// A pixel-format flag field restricted to its known bits.
#[derive(Debug, Clone, Copy, PartialEq, Eq, Structural)]
pub struct DdsPixelformatFlagSet {
    pub bits: u32,
}

impl DdsPixelformatFlagSet {
    pub open spec fn wf(self) -> bool {
        self.bits & DDPF_KNOWN_BITS == self.bits
    }

    /// Accepts a raw field value iff it carries no unrecognized bit.
    pub fn from_bits(v: u32) -> (r: Option<DdsPixelformatFlagSet>)
        ensures
            r is Some <==> v & DDPF_KNOWN_BITS == v,
            r matches Some(s) ==> s.bits == v && s.wf(),
    {
        if v & DDPF_KNOWN_BITS == v {
            Some(DdsPixelformatFlagSet { bits: v })
        } else {
            None
        }
    }

    pub open spec fn spec_contains(self, f: DdsPixelformatFlags) -> bool {
        self.bits & f.spec_bit() != 0
    }

    pub fn contains(self, f: DdsPixelformatFlags) -> (r: bool)
        ensures
            r == self.spec_contains(f),
    {
        self.bits & f.bit() != 0
    }
}

/// The recognized legacy 4-byte pixel-format codes, plus the absent code
/// (a zero word).
#[derive(Debug, Clone, Copy, PartialEq, Eq, Structural)]
pub enum FourCCEnum {
    NoCode,
    DXT1,
    DXT2,
    DXT3,
    DXT4,
    DXT5,
    DX10,
    ATT1,
    ATT2,
    BC4U,
    BC4S,
    BC5U,
    BC5S,
    RGBG,
    GRGB,
}

#[verifier::opaque]
pub open spec fn spec_four_cc_from_u32(v: u32) -> Option<FourCCEnum> {
    if v == 0 {
        Some(FourCCEnum::NoCode)
    } else if v == 0x31545844 {
        Some(FourCCEnum::DXT1)
    } else if v == 0x32545844 {
        Some(FourCCEnum::DXT2)
    } else if v == 0x33545844 {
        Some(FourCCEnum::DXT3)
    } else if v == 0x34545844 {
        Some(FourCCEnum::DXT4)
    } else if v == 0x35545844 {
        Some(FourCCEnum::DXT5)
    } else if v == 0x30315844 {
        Some(FourCCEnum::DX10)
    } else if v == 0x31545441 {
        Some(FourCCEnum::ATT1)
    } else if v == 0x32545441 {
        Some(FourCCEnum::ATT2)
    } else if v == 0x55344342 {
        Some(FourCCEnum::BC4U)
    } else if v == 0x53344342 {
        Some(FourCCEnum::BC4S)
    } else if v == 0x55354342 {
        Some(FourCCEnum::BC5U)
    } else if v == 0x53354342 {
        Some(FourCCEnum::BC5S)
    } else if v == 0x47424752 {
        Some(FourCCEnum::RGBG)
    } else if v == 0x42475247 {
        Some(FourCCEnum::GRGB)
    } else {
        None
    }
}

pub fn four_cc_from_u32(v: u32) -> (r: Option<FourCCEnum>)
    ensures
        r == spec_four_cc_from_u32(v),
{
    proof {
        reveal(spec_four_cc_from_u32);
    }
    if v == 0 {
        Some(FourCCEnum::NoCode)
    } else if v == 0x31545844 {
        Some(FourCCEnum::DXT1)
    } else if v == 0x32545844 {
        Some(FourCCEnum::DXT2)
    } else if v == 0x33545844 {
        Some(FourCCEnum::DXT3)
    } else if v == 0x34545844 {
        Some(FourCCEnum::DXT4)
    } else if v == 0x35545844 {
        Some(FourCCEnum::DXT5)
    } else if v == 0x30315844 {
        Some(FourCCEnum::DX10)
    } else if v == 0x31545441 {
        Some(FourCCEnum::ATT1)
    } else if v == 0x32545441 {
        Some(FourCCEnum::ATT2)
    } else if v == 0x55344342 {
        Some(FourCCEnum::BC4U)
    } else if v == 0x53344342 {
        Some(FourCCEnum::BC4S)
    } else if v == 0x55354342 {
        Some(FourCCEnum::BC5U)
    } else if v == 0x53354342 {
        Some(FourCCEnum::BC5S)
    } else if v == 0x47424752 {
        Some(FourCCEnum::RGBG)
    } else if v == 0x42475247 {
        Some(FourCCEnum::GRGB)
    } else {
        None
    }
}

#[verifier::opaque]
pub open spec fn spec_four_cc_value(f: FourCCEnum) -> u32 {
    match f {
        FourCCEnum::NoCode => 0,
        FourCCEnum::DXT1 => 0x31545844,
        FourCCEnum::DXT2 => 0x32545844,
        FourCCEnum::DXT3 => 0x33545844,
        FourCCEnum::DXT4 => 0x34545844,
        FourCCEnum::DXT5 => 0x35545844,
        FourCCEnum::DX10 => 0x30315844,
        FourCCEnum::ATT1 => 0x31545441,
        FourCCEnum::ATT2 => 0x32545441,
        FourCCEnum::BC4U => 0x55344342,
        FourCCEnum::BC4S => 0x53344342,
        FourCCEnum::BC5U => 0x55354342,
        FourCCEnum::BC5S => 0x53354342,
        FourCCEnum::RGBG => 0x47424752,
        FourCCEnum::GRGB => 0x42475247,
    }
}

impl FourCCEnum {
    pub fn value(self) -> (r: u32)
        ensures
            r == spec_four_cc_value(self),
    {
        proof {
            reveal(spec_four_cc_value);
        }
        match self {
            FourCCEnum::NoCode => 0,
            FourCCEnum::DXT1 => 0x31545844,
            FourCCEnum::DXT2 => 0x32545844,
            FourCCEnum::DXT3 => 0x33545844,
            FourCCEnum::DXT4 => 0x34545844,
            FourCCEnum::DXT5 => 0x35545844,
            FourCCEnum::DX10 => 0x30315844,
            FourCCEnum::ATT1 => 0x31545441,
            FourCCEnum::ATT2 => 0x32545441,
            FourCCEnum::BC4U => 0x55344342,
            FourCCEnum::BC4S => 0x53344342,
            FourCCEnum::BC5U => 0x55354342,
            FourCCEnum::BC5S => 0x53354342,
            FourCCEnum::RGBG => 0x47424752,
            FourCCEnum::GRGB => 0x42475247,
        }
    }
}

/// The closed extended-format enumeration of the header extension.
#[derive(Debug, Clone, Copy, PartialEq, Eq, Structural)]
#[allow(non_camel_case_types)]
pub enum DxgiFormat {
    DXGI_FORMAT_UNKNOWN,
    DXGI_FORMAT_R32G32B32A32_TYPELESS,
    DXGI_FORMAT_R32G32B32A32_FLOAT,
    DXGI_FORMAT_R32G32B32A32_UINT,
    DXGI_FORMAT_R32G32B32A32_SINT,
    DXGI_FORMAT_R32G32B32_TYPELESS,
    DXGI_FORMAT_R32G32B32_FLOAT,
    DXGI_FORMAT_R32G32B32_UINT,
    DXGI_FORMAT_R32G32B32_SINT,
    DXGI_FORMAT_R16G16B16A16_TYPELESS,
    DXGI_FORMAT_R16G16B16A16_FLOAT,
    DXGI_FORMAT_R16G16B16A16_UNORM,
    DXGI_FORMAT_R16G16B16A16_UINT,
    DXGI_FORMAT_R16G16B16A16_SNORM,
    DXGI_FORMAT_R16G16B16A16_SINT,
    DXGI_FORMAT_R32G32_TYPELESS,
    DXGI_FORMAT_R32G32_FLOAT,
    DXGI_FORMAT_R32G32_UINT,
    DXGI_FORMAT_R32G32_SINT,
    DXGI_FORMAT_R32G8X24_TYPELESS,
    DXGI_FORMAT_D32_FLOAT_S8X24_UINT,
    DXGI_FORMAT_R32_FLOAT_X8X24_TYPELESS,
    DXGI_FORMAT_X32_TYPELESS_G8X24_UINT,
    DXGI_FORMAT_R10G10B10A2_TYPELESS,
    DXGI_FORMAT_R10G10B10A2_UNORM,
    DXGI_FORMAT_R10G10B10A2_UINT,
    DXGI_FORMAT_R11G11B10_FLOAT,
    DXGI_FORMAT_R8G8B8A8_TYPELESS,
    DXGI_FORMAT_R8G8B8A8_UNORM,
    DXGI_FORMAT_R8G8B8A8_UNORM_SRGB,
    DXGI_FORMAT_R8G8B8A8_UINT,
    DXGI_FORMAT_R8G8B8A8_SNORM,
    DXGI_FORMAT_R8G8B8A8_SINT,
    DXGI_FORMAT_R16G16_TYPELESS,
    DXGI_FORMAT_R16G16_FLOAT,
    DXGI_FORMAT_R16G16_UNORM,
    DXGI_FORMAT_R16G16_UINT,
    DXGI_FORMAT_R16G16_SNORM,
    DXGI_FORMAT_R16G16_SINT,
    DXGI_FORMAT_R32_TYPELESS,
    DXGI_FORMAT_D32_FLOAT,
    DXGI_FORMAT_R32_FLOAT,
    DXGI_FORMAT_R32_UINT,
    DXGI_FORMAT_R32_SINT,
    DXGI_FORMAT_R24G8_TYPELESS,
    DXGI_FORMAT_D24_UNORM_S8_UINT,
    DXGI_FORMAT_R24_UNORM_X8_TYPELESS,
    DXGI_FORMAT_X24_TYPELESS_G8_UINT,
    DXGI_FORMAT_R8G8_TYPELESS,
    DXGI_FORMAT_R8G8_UNORM,
    DXGI_FORMAT_R8G8_UINT,
    DXGI_FORMAT_R8G8_SNORM,
    DXGI_FORMAT_R8G8_SINT,
    DXGI_FORMAT_R16_TYPELESS,
    DXGI_FORMAT_R16_FLOAT,
    DXGI_FORMAT_D16_UNORM,
    DXGI_FORMAT_R16_UNORM,
    DXGI_FORMAT_R16_UINT,
    DXGI_FORMAT_R16_SNORM,
    DXGI_FORMAT_R16_SINT,
    DXGI_FORMAT_R8_TYPELESS,
    DXGI_FORMAT_R8_UNORM,
    DXGI_FORMAT_R8_UINT,
    DXGI_FORMAT_R8_SNORM,
    DXGI_FORMAT_R8_SINT,
    DXGI_FORMAT_A8_UNORM,
    DXGI_FORMAT_R1_UNORM,
    DXGI_FORMAT_R9G9B9E5_SHAREDEXP,
    DXGI_FORMAT_R8G8_B8G8_UNORM,
    DXGI_FORMAT_G8R8_G8B8_UNORM,
    DXGI_FORMAT_BC1_TYPELESS,
    DXGI_FORMAT_BC1_UNORM,
    DXGI_FORMAT_BC1_UNORM_SRGB,
    DXGI_FORMAT_BC2_TYPELESS,
    DXGI_FORMAT_BC2_UNORM,
    DXGI_FORMAT_BC2_UNORM_SRGB,
    DXGI_FORMAT_BC3_TYPELESS,
    DXGI_FORMAT_BC3_UNORM,
    DXGI_FORMAT_BC3_UNORM_SRGB,
    DXGI_FORMAT_BC4_TYPELESS,
    DXGI_FORMAT_BC4_UNORM,
    DXGI_FORMAT_BC4_SNORM,
    DXGI_FORMAT_BC5_TYPELESS,
    DXGI_FORMAT_BC5_UNORM,
    DXGI_FORMAT_BC5_SNORM,
    DXGI_FORMAT_B5G6R5_UNORM,
    DXGI_FORMAT_B5G5R5A1_UNORM,
    DXGI_FORMAT_B8G8R8A8_UNORM,
    DXGI_FORMAT_B8G8R8X8_UNORM,
    DXGI_FORMAT_R10G10B10_XR_BIAS_A2_UNORM,
    DXGI_FORMAT_B8G8R8A8_TYPELESS,
    DXGI_FORMAT_B8G8R8A8_UNORM_SRGB,
    DXGI_FORMAT_B8G8R8X8_TYPELESS,
    DXGI_FORMAT_B8G8R8X8_UNORM_SRGB,
    DXGI_FORMAT_BC6H_TYPELESS,
    DXGI_FORMAT_BC6H_UF16,
    DXGI_FORMAT_BC6H_SF16,
    DXGI_FORMAT_BC7_TYPELESS,
    DXGI_FORMAT_BC7_UNORM,
    DXGI_FORMAT_BC7_UNORM_SRGB,
    DXGI_FORMAT_AYUV,
    DXGI_FORMAT_Y410,
    DXGI_FORMAT_Y416,
    DXGI_FORMAT_NV12,
    DXGI_FORMAT_P010,
    DXGI_FORMAT_P016,
    DXGI_FORMAT_420_OPAQUE,
    DXGI_FORMAT_YUY2,
    DXGI_FORMAT_Y210,
    DXGI_FORMAT_Y216,
    DXGI_FORMAT_NV11,
    DXGI_FORMAT_AI44,
    DXGI_FORMAT_IA44,
    DXGI_FORMAT_P8,
    DXGI_FORMAT_A8P8,
    DXGI_FORMAT_B4G4R4A4_UNORM,
    DXGI_FORMAT_P208,
    DXGI_FORMAT_V208,
    DXGI_FORMAT_V408,
    DXGI_FORMAT_SAMPLER_FEEDBACK_MIN_MIP_OPAQUE,
    DXGI_FORMAT_SAMPLER_FEEDBACK_MIP_REGION_USED_OPAQUE,
    DXGI_FORMAT_FORCE_UINT,
}

#[verifier::opaque]
pub open spec fn spec_dxgi_format_from_u32(v: u32) -> Option<DxgiFormat> {
    if v == 0x0 {
        Some(DxgiFormat::DXGI_FORMAT_UNKNOWN)
    } else if v == 0x1 {
        Some(DxgiFormat::DXGI_FORMAT_R32G32B32A32_TYPELESS)
    } else if v == 0x2 {
        Some(DxgiFormat::DXGI_FORMAT_R32G32B32A32_FLOAT)
    } else if v == 0x3 {
        Some(DxgiFormat::DXGI_FORMAT_R32G32B32A32_UINT)
    } else if v == 0x4 {
        Some(DxgiFormat::DXGI_FORMAT_R32G32B32A32_SINT)
    } else if v == 0x5 {
        Some(DxgiFormat::DXGI_FORMAT_R32G32B32_TYPELESS)
    } else if v == 0x6 {
        Some(DxgiFormat::DXGI_FORMAT_R32G32B32_FLOAT)
    } else if v == 0x7 {
        Some(DxgiFormat::DXGI_FORMAT_R32G32B32_UINT)
    } else if v == 0x8 {
        Some(DxgiFormat::DXGI_FORMAT_R32G32B32_SINT)
    } else if v == 0x9 {
        Some(DxgiFormat::DXGI_FORMAT_R16G16B16A16_TYPELESS)
    } else if v == 0xa {
        Some(DxgiFormat::DXGI_FORMAT_R16G16B16A16_FLOAT)
    } else if v == 0xb {
        Some(DxgiFormat::DXGI_FORMAT_R16G16B16A16_UNORM)
    } else if v == 0xc {
        Some(DxgiFormat::DXGI_FORMAT_R16G16B16A16_UINT)
    } else if v == 0xd {
        Some(DxgiFormat::DXGI_FORMAT_R16G16B16A16_SNORM)
    } else if v == 0xe {
        Some(DxgiFormat::DXGI_FORMAT_R16G16B16A16_SINT)
    } else if v == 0xf {
        Some(DxgiFormat::DXGI_FORMAT_R32G32_TYPELESS)
    } else if v == 0x10 {
        Some(DxgiFormat::DXGI_FORMAT_R32G32_FLOAT)
    } else if v == 0x11 {
        Some(DxgiFormat::DXGI_FORMAT_R32G32_UINT)
    } else if v == 0x12 {
        Some(DxgiFormat::DXGI_FORMAT_R32G32_SINT)
    } else if v == 0x13 {
        Some(DxgiFormat::DXGI_FORMAT_R32G8X24_TYPELESS)
    } else if v == 0x14 {
        Some(DxgiFormat::DXGI_FORMAT_D32_FLOAT_S8X24_UINT)
    } else if v == 0x15 {
        Some(DxgiFormat::DXGI_FORMAT_R32_FLOAT_X8X24_TYPELESS)
    } else if v == 0x16 {
        Some(DxgiFormat::DXGI_FORMAT_X32_TYPELESS_G8X24_UINT)
    } else if v == 0x17 {
        Some(DxgiFormat::DXGI_FORMAT_R10G10B10A2_TYPELESS)
    } else if v == 0x18 {
        Some(DxgiFormat::DXGI_FORMAT_R10G10B10A2_UNORM)
    } else if v == 0x19 {
        Some(DxgiFormat::DXGI_FORMAT_R10G10B10A2_UINT)
    } else if v == 0x1a {
        Some(DxgiFormat::DXGI_FORMAT_R11G11B10_FLOAT)
    } else if v == 0x1b {
        Some(DxgiFormat::DXGI_FORMAT_R8G8B8A8_TYPELESS)
    } else if v == 0x1c {
        Some(DxgiFormat::DXGI_FORMAT_R8G8B8A8_UNORM)
    } else if v == 0x1d {
        Some(DxgiFormat::DXGI_FORMAT_R8G8B8A8_UNORM_SRGB)
    } else if v == 0x1e {
        Some(DxgiFormat::DXGI_FORMAT_R8G8B8A8_UINT)
    } else if v == 0x1f {
        Some(DxgiFormat::DXGI_FORMAT_R8G8B8A8_SNORM)
    } else if v == 0x20 {
        Some(DxgiFormat::DXGI_FORMAT_R8G8B8A8_SINT)
    } else if v == 0x21 {
        Some(DxgiFormat::DXGI_FORMAT_R16G16_TYPELESS)
    } else if v == 0x22 {
        Some(DxgiFormat::DXGI_FORMAT_R16G16_FLOAT)
    } else if v == 0x23 {
        Some(DxgiFormat::DXGI_FORMAT_R16G16_UNORM)
    } else if v == 0x24 {
        Some(DxgiFormat::DXGI_FORMAT_R16G16_UINT)
    } else if v == 0x25 {
        Some(DxgiFormat::DXGI_FORMAT_R16G16_SNORM)
    } else if v == 0x26 {
        Some(DxgiFormat::DXGI_FORMAT_R16G16_SINT)
    } else if v == 0x27 {
        Some(DxgiFormat::DXGI_FORMAT_R32_TYPELESS)
    } else if v == 0x28 {
        Some(DxgiFormat::DXGI_FORMAT_D32_FLOAT)
    } else if v == 0x29 {
        Some(DxgiFormat::DXGI_FORMAT_R32_FLOAT)
    } else if v == 0x2a {
        Some(DxgiFormat::DXGI_FORMAT_R32_UINT)
    } else if v == 0x2b {
        Some(DxgiFormat::DXGI_FORMAT_R32_SINT)
    } else if v == 0x2c {
        Some(DxgiFormat::DXGI_FORMAT_R24G8_TYPELESS)
    } else if v == 0x2d {
        Some(DxgiFormat::DXGI_FORMAT_D24_UNORM_S8_UINT)
    } else if v == 0x2e {
        Some(DxgiFormat::DXGI_FORMAT_R24_UNORM_X8_TYPELESS)
    } else if v == 0x2f {
        Some(DxgiFormat::DXGI_FORMAT_X24_TYPELESS_G8_UINT)
    } else if v == 0x30 {
        Some(DxgiFormat::DXGI_FORMAT_R8G8_TYPELESS)
    } else if v == 0x31 {
        Some(DxgiFormat::DXGI_FORMAT_R8G8_UNORM)
    } else if v == 0x32 {
        Some(DxgiFormat::DXGI_FORMAT_R8G8_UINT)
    } else if v == 0x33 {
        Some(DxgiFormat::DXGI_FORMAT_R8G8_SNORM)
    } else if v == 0x34 {
        Some(DxgiFormat::DXGI_FORMAT_R8G8_SINT)
    } else if v == 0x35 {
        Some(DxgiFormat::DXGI_FORMAT_R16_TYPELESS)
    } else if v == 0x36 {
        Some(DxgiFormat::DXGI_FORMAT_R16_FLOAT)
    } else if v == 0x37 {
        Some(DxgiFormat::DXGI_FORMAT_D16_UNORM)
    } else if v == 0x38 {
        Some(DxgiFormat::DXGI_FORMAT_R16_UNORM)
    } else if v == 0x39 {
        Some(DxgiFormat::DXGI_FORMAT_R16_UINT)
    } else if v == 0x3a {
        Some(DxgiFormat::DXGI_FORMAT_R16_SNORM)
    } else if v == 0x3b {
        Some(DxgiFormat::DXGI_FORMAT_R16_SINT)
    } else if v == 0x3c {
        Some(DxgiFormat::DXGI_FORMAT_R8_TYPELESS)
    } else if v == 0x3d {
        Some(DxgiFormat::DXGI_FORMAT_R8_UNORM)
    } else if v == 0x3e {
        Some(DxgiFormat::DXGI_FORMAT_R8_UINT)
    } else if v == 0x3f {
        Some(DxgiFormat::DXGI_FORMAT_R8_SNORM)
    } else if v == 0x40 {
        Some(DxgiFormat::DXGI_FORMAT_R8_SINT)
    } else if v == 0x41 {
        Some(DxgiFormat::DXGI_FORMAT_A8_UNORM)
    } else if v == 0x42 {
        Some(DxgiFormat::DXGI_FORMAT_R1_UNORM)
    } else if v == 0x43 {
        Some(DxgiFormat::DXGI_FORMAT_R9G9B9E5_SHAREDEXP)
    } else if v == 0x44 {
        Some(DxgiFormat::DXGI_FORMAT_R8G8_B8G8_UNORM)
    } else if v == 0x45 {
        Some(DxgiFormat::DXGI_FORMAT_G8R8_G8B8_UNORM)
    } else if v == 0x46 {
        Some(DxgiFormat::DXGI_FORMAT_BC1_TYPELESS)
    } else if v == 0x47 {
        Some(DxgiFormat::DXGI_FORMAT_BC1_UNORM)
    } else if v == 0x48 {
        Some(DxgiFormat::DXGI_FORMAT_BC1_UNORM_SRGB)
    } else if v == 0x49 {
        Some(DxgiFormat::DXGI_FORMAT_BC2_TYPELESS)
    } else if v == 0x4a {
        Some(DxgiFormat::DXGI_FORMAT_BC2_UNORM)
    } else if v == 0x4b {
        Some(DxgiFormat::DXGI_FORMAT_BC2_UNORM_SRGB)
    } else if v == 0x4c {
        Some(DxgiFormat::DXGI_FORMAT_BC3_TYPELESS)
    } else if v == 0x4d {
        Some(DxgiFormat::DXGI_FORMAT_BC3_UNORM)
    } else if v == 0x4e {
        Some(DxgiFormat::DXGI_FORMAT_BC3_UNORM_SRGB)
    } else if v == 0x4f {
        Some(DxgiFormat::DXGI_FORMAT_BC4_TYPELESS)
    } else if v == 0x50 {
        Some(DxgiFormat::DXGI_FORMAT_BC4_UNORM)
    } else if v == 0x51 {
        Some(DxgiFormat::DXGI_FORMAT_BC4_SNORM)
    } else if v == 0x52 {
        Some(DxgiFormat::DXGI_FORMAT_BC5_TYPELESS)
    } else if v == 0x53 {
        Some(DxgiFormat::DXGI_FORMAT_BC5_UNORM)
    } else if v == 0x54 {
        Some(DxgiFormat::DXGI_FORMAT_BC5_SNORM)
    } else if v == 0x55 {
        Some(DxgiFormat::DXGI_FORMAT_B5G6R5_UNORM)
    } else if v == 0x56 {
        Some(DxgiFormat::DXGI_FORMAT_B5G5R5A1_UNORM)
    } else if v == 0x57 {
        Some(DxgiFormat::DXGI_FORMAT_B8G8R8A8_UNORM)
    } else if v == 0x58 {
        Some(DxgiFormat::DXGI_FORMAT_B8G8R8X8_UNORM)
    } else if v == 0x59 {
        Some(DxgiFormat::DXGI_FORMAT_R10G10B10_XR_BIAS_A2_UNORM)
    } else if v == 0x5a {
        Some(DxgiFormat::DXGI_FORMAT_B8G8R8A8_TYPELESS)
    } else if v == 0x5b {
        Some(DxgiFormat::DXGI_FORMAT_B8G8R8A8_UNORM_SRGB)
    } else if v == 0x5c {
        Some(DxgiFormat::DXGI_FORMAT_B8G8R8X8_TYPELESS)
    } else if v == 0x5d {
        Some(DxgiFormat::DXGI_FORMAT_B8G8R8X8_UNORM_SRGB)
    } else if v == 0x5e {
        Some(DxgiFormat::DXGI_FORMAT_BC6H_TYPELESS)
    } else if v == 0x5f {
        Some(DxgiFormat::DXGI_FORMAT_BC6H_UF16)
    } else if v == 0x60 {
        Some(DxgiFormat::DXGI_FORMAT_BC6H_SF16)
    } else if v == 0x61 {
        Some(DxgiFormat::DXGI_FORMAT_BC7_TYPELESS)
    } else if v == 0x62 {
        Some(DxgiFormat::DXGI_FORMAT_BC7_UNORM)
    } else if v == 0x63 {
        Some(DxgiFormat::DXGI_FORMAT_BC7_UNORM_SRGB)
    } else if v == 0x64 {
        Some(DxgiFormat::DXGI_FORMAT_AYUV)
    } else if v == 0x65 {
        Some(DxgiFormat::DXGI_FORMAT_Y410)
    } else if v == 0x66 {
        Some(DxgiFormat::DXGI_FORMAT_Y416)
    } else if v == 0x67 {
        Some(DxgiFormat::DXGI_FORMAT_NV12)
    } else if v == 0x68 {
        Some(DxgiFormat::DXGI_FORMAT_P010)
    } else if v == 0x69 {
        Some(DxgiFormat::DXGI_FORMAT_P016)
    } else if v == 0x6a {
        Some(DxgiFormat::DXGI_FORMAT_420_OPAQUE)
    } else if v == 0x6b {
        Some(DxgiFormat::DXGI_FORMAT_YUY2)
    } else if v == 0x6c {
        Some(DxgiFormat::DXGI_FORMAT_Y210)
    } else if v == 0x6d {
        Some(DxgiFormat::DXGI_FORMAT_Y216)
    } else if v == 0x6e {
        Some(DxgiFormat::DXGI_FORMAT_NV11)
    } else if v == 0x6f {
        Some(DxgiFormat::DXGI_FORMAT_AI44)
    } else if v == 0x70 {
        Some(DxgiFormat::DXGI_FORMAT_IA44)
    } else if v == 0x71 {
        Some(DxgiFormat::DXGI_FORMAT_P8)
    } else if v == 0x72 {
        Some(DxgiFormat::DXGI_FORMAT_A8P8)
    } else if v == 0x73 {
        Some(DxgiFormat::DXGI_FORMAT_B4G4R4A4_UNORM)
    } else if v == 0x82 {
        Some(DxgiFormat::DXGI_FORMAT_P208)
    } else if v == 0x83 {
        Some(DxgiFormat::DXGI_FORMAT_V208)
    } else if v == 0x84 {
        Some(DxgiFormat::DXGI_FORMAT_V408)
    } else if v == 0x85 {
        Some(DxgiFormat::DXGI_FORMAT_SAMPLER_FEEDBACK_MIN_MIP_OPAQUE)
    } else if v == 0x86 {
        Some(DxgiFormat::DXGI_FORMAT_SAMPLER_FEEDBACK_MIP_REGION_USED_OPAQUE)
    } else if v == 0xffffffff {
        Some(DxgiFormat::DXGI_FORMAT_FORCE_UINT)
    } else {
        None
    }
}

pub fn dxgi_format_from_u32(v: u32) -> (r: Option<DxgiFormat>)
    ensures
        r == spec_dxgi_format_from_u32(v),
{
    proof {
        reveal(spec_dxgi_format_from_u32);
    }
    if v == 0x0 {
        Some(DxgiFormat::DXGI_FORMAT_UNKNOWN)
    } else if v == 0x1 {
        Some(DxgiFormat::DXGI_FORMAT_R32G32B32A32_TYPELESS)
    } else if v == 0x2 {
        Some(DxgiFormat::DXGI_FORMAT_R32G32B32A32_FLOAT)
    } else if v == 0x3 {
        Some(DxgiFormat::DXGI_FORMAT_R32G32B32A32_UINT)
    } else if v == 0x4 {
        Some(DxgiFormat::DXGI_FORMAT_R32G32B32A32_SINT)
    } else if v == 0x5 {
        Some(DxgiFormat::DXGI_FORMAT_R32G32B32_TYPELESS)
    } else if v == 0x6 {
        Some(DxgiFormat::DXGI_FORMAT_R32G32B32_FLOAT)
    } else if v == 0x7 {
        Some(DxgiFormat::DXGI_FORMAT_R32G32B32_UINT)
    } else if v == 0x8 {
        Some(DxgiFormat::DXGI_FORMAT_R32G32B32_SINT)
    } else if v == 0x9 {
        Some(DxgiFormat::DXGI_FORMAT_R16G16B16A16_TYPELESS)
    } else if v == 0xa {
        Some(DxgiFormat::DXGI_FORMAT_R16G16B16A16_FLOAT)
    } else if v == 0xb {
        Some(DxgiFormat::DXGI_FORMAT_R16G16B16A16_UNORM)
    } else if v == 0xc {
        Some(DxgiFormat::DXGI_FORMAT_R16G16B16A16_UINT)
    } else if v == 0xd {
        Some(DxgiFormat::DXGI_FORMAT_R16G16B16A16_SNORM)
    } else if v == 0xe {
        Some(DxgiFormat::DXGI_FORMAT_R16G16B16A16_SINT)
    } else if v == 0xf {
        Some(DxgiFormat::DXGI_FORMAT_R32G32_TYPELESS)
    } else if v == 0x10 {
        Some(DxgiFormat::DXGI_FORMAT_R32G32_FLOAT)
    } else if v == 0x11 {
        Some(DxgiFormat::DXGI_FORMAT_R32G32_UINT)
    } else if v == 0x12 {
        Some(DxgiFormat::DXGI_FORMAT_R32G32_SINT)
    } else if v == 0x13 {
        Some(DxgiFormat::DXGI_FORMAT_R32G8X24_TYPELESS)
    } else if v == 0x14 {
        Some(DxgiFormat::DXGI_FORMAT_D32_FLOAT_S8X24_UINT)
    } else if v == 0x15 {
        Some(DxgiFormat::DXGI_FORMAT_R32_FLOAT_X8X24_TYPELESS)
    } else if v == 0x16 {
        Some(DxgiFormat::DXGI_FORMAT_X32_TYPELESS_G8X24_UINT)
    } else if v == 0x17 {
        Some(DxgiFormat::DXGI_FORMAT_R10G10B10A2_TYPELESS)
    } else if v == 0x18 {
        Some(DxgiFormat::DXGI_FORMAT_R10G10B10A2_UNORM)
    } else if v == 0x19 {
        Some(DxgiFormat::DXGI_FORMAT_R10G10B10A2_UINT)
    } else if v == 0x1a {
        Some(DxgiFormat::DXGI_FORMAT_R11G11B10_FLOAT)
    } else if v == 0x1b {
        Some(DxgiFormat::DXGI_FORMAT_R8G8B8A8_TYPELESS)
    } else if v == 0x1c {
        Some(DxgiFormat::DXGI_FORMAT_R8G8B8A8_UNORM)
    } else if v == 0x1d {
        Some(DxgiFormat::DXGI_FORMAT_R8G8B8A8_UNORM_SRGB)
    } else if v == 0x1e {
        Some(DxgiFormat::DXGI_FORMAT_R8G8B8A8_UINT)
    } else if v == 0x1f {
        Some(DxgiFormat::DXGI_FORMAT_R8G8B8A8_SNORM)
    } else if v == 0x20 {
        Some(DxgiFormat::DXGI_FORMAT_R8G8B8A8_SINT)
    } else if v == 0x21 {
        Some(DxgiFormat::DXGI_FORMAT_R16G16_TYPELESS)
    } else if v == 0x22 {
        Some(DxgiFormat::DXGI_FORMAT_R16G16_FLOAT)
    } else if v == 0x23 {
        Some(DxgiFormat::DXGI_FORMAT_R16G16_UNORM)
    } else if v == 0x24 {
        Some(DxgiFormat::DXGI_FORMAT_R16G16_UINT)
    } else if v == 0x25 {
        Some(DxgiFormat::DXGI_FORMAT_R16G16_SNORM)
    } else if v == 0x26 {
        Some(DxgiFormat::DXGI_FORMAT_R16G16_SINT)
    } else if v == 0x27 {
        Some(DxgiFormat::DXGI_FORMAT_R32_TYPELESS)
    } else if v == 0x28 {
        Some(DxgiFormat::DXGI_FORMAT_D32_FLOAT)
    } else if v == 0x29 {
        Some(DxgiFormat::DXGI_FORMAT_R32_FLOAT)
    } else if v == 0x2a {
        Some(DxgiFormat::DXGI_FORMAT_R32_UINT)
    } else if v == 0x2b {
        Some(DxgiFormat::DXGI_FORMAT_R32_SINT)
    } else if v == 0x2c {
        Some(DxgiFormat::DXGI_FORMAT_R24G8_TYPELESS)
    } else if v == 0x2d {
        Some(DxgiFormat::DXGI_FORMAT_D24_UNORM_S8_UINT)
    } else if v == 0x2e {
        Some(DxgiFormat::DXGI_FORMAT_R24_UNORM_X8_TYPELESS)
    } else if v == 0x2f {
        Some(DxgiFormat::DXGI_FORMAT_X24_TYPELESS_G8_UINT)
    } else if v == 0x30 {
        Some(DxgiFormat::DXGI_FORMAT_R8G8_TYPELESS)
    } else if v == 0x31 {
        Some(DxgiFormat::DXGI_FORMAT_R8G8_UNORM)
    } else if v == 0x32 {
        Some(DxgiFormat::DXGI_FORMAT_R8G8_UINT)
    } else if v == 0x33 {
        Some(DxgiFormat::DXGI_FORMAT_R8G8_SNORM)
    } else if v == 0x34 {
        Some(DxgiFormat::DXGI_FORMAT_R8G8_SINT)
    } else if v == 0x35 {
        Some(DxgiFormat::DXGI_FORMAT_R16_TYPELESS)
    } else if v == 0x36 {
        Some(DxgiFormat::DXGI_FORMAT_R16_FLOAT)
    } else if v == 0x37 {
        Some(DxgiFormat::DXGI_FORMAT_D16_UNORM)
    } else if v == 0x38 {
        Some(DxgiFormat::DXGI_FORMAT_R16_UNORM)
    } else if v == 0x39 {
        Some(DxgiFormat::DXGI_FORMAT_R16_UINT)
    } else if v == 0x3a {
        Some(DxgiFormat::DXGI_FORMAT_R16_SNORM)
    } else if v == 0x3b {
        Some(DxgiFormat::DXGI_FORMAT_R16_SINT)
    } else if v == 0x3c {
        Some(DxgiFormat::DXGI_FORMAT_R8_TYPELESS)
    } else if v == 0x3d {
        Some(DxgiFormat::DXGI_FORMAT_R8_UNORM)
    } else if v == 0x3e {
        Some(DxgiFormat::DXGI_FORMAT_R8_UINT)
    } else if v == 0x3f {
        Some(DxgiFormat::DXGI_FORMAT_R8_SNORM)
    } else if v == 0x40 {
        Some(DxgiFormat::DXGI_FORMAT_R8_SINT)
    } else if v == 0x41 {
        Some(DxgiFormat::DXGI_FORMAT_A8_UNORM)
    } else if v == 0x42 {
        Some(DxgiFormat::DXGI_FORMAT_R1_UNORM)
    } else if v == 0x43 {
        Some(DxgiFormat::DXGI_FORMAT_R9G9B9E5_SHAREDEXP)
    } else if v == 0x44 {
        Some(DxgiFormat::DXGI_FORMAT_R8G8_B8G8_UNORM)
    } else if v == 0x45 {
        Some(DxgiFormat::DXGI_FORMAT_G8R8_G8B8_UNORM)
    } else if v == 0x46 {
        Some(DxgiFormat::DXGI_FORMAT_BC1_TYPELESS)
    } else if v == 0x47 {
        Some(DxgiFormat::DXGI_FORMAT_BC1_UNORM)
    } else if v == 0x48 {
        Some(DxgiFormat::DXGI_FORMAT_BC1_UNORM_SRGB)
    } else if v == 0x49 {
        Some(DxgiFormat::DXGI_FORMAT_BC2_TYPELESS)
    } else if v == 0x4a {
        Some(DxgiFormat::DXGI_FORMAT_BC2_UNORM)
    } else if v == 0x4b {
        Some(DxgiFormat::DXGI_FORMAT_BC2_UNORM_SRGB)
    } else if v == 0x4c {
        Some(DxgiFormat::DXGI_FORMAT_BC3_TYPELESS)
    } else if v == 0x4d {
        Some(DxgiFormat::DXGI_FORMAT_BC3_UNORM)
    } else if v == 0x4e {
        Some(DxgiFormat::DXGI_FORMAT_BC3_UNORM_SRGB)
    } else if v == 0x4f {
        Some(DxgiFormat::DXGI_FORMAT_BC4_TYPELESS)
    } else if v == 0x50 {
        Some(DxgiFormat::DXGI_FORMAT_BC4_UNORM)
    } else if v == 0x51 {
        Some(DxgiFormat::DXGI_FORMAT_BC4_SNORM)
    } else if v == 0x52 {
        Some(DxgiFormat::DXGI_FORMAT_BC5_TYPELESS)
    } else if v == 0x53 {
        Some(DxgiFormat::DXGI_FORMAT_BC5_UNORM)
    } else if v == 0x54 {
        Some(DxgiFormat::DXGI_FORMAT_BC5_SNORM)
    } else if v == 0x55 {
        Some(DxgiFormat::DXGI_FORMAT_B5G6R5_UNORM)
    } else if v == 0x56 {
        Some(DxgiFormat::DXGI_FORMAT_B5G5R5A1_UNORM)
    } else if v == 0x57 {
        Some(DxgiFormat::DXGI_FORMAT_B8G8R8A8_UNORM)
    } else if v == 0x58 {
        Some(DxgiFormat::DXGI_FORMAT_B8G8R8X8_UNORM)
    } else if v == 0x59 {
        Some(DxgiFormat::DXGI_FORMAT_R10G10B10_XR_BIAS_A2_UNORM)
    } else if v == 0x5a {
        Some(DxgiFormat::DXGI_FORMAT_B8G8R8A8_TYPELESS)
    } else if v == 0x5b {
        Some(DxgiFormat::DXGI_FORMAT_B8G8R8A8_UNORM_SRGB)
    } else if v == 0x5c {
        Some(DxgiFormat::DXGI_FORMAT_B8G8R8X8_TYPELESS)
    } else if v == 0x5d {
        Some(DxgiFormat::DXGI_FORMAT_B8G8R8X8_UNORM_SRGB)
    } else if v == 0x5e {
        Some(DxgiFormat::DXGI_FORMAT_BC6H_TYPELESS)
    } else if v == 0x5f {
        Some(DxgiFormat::DXGI_FORMAT_BC6H_UF16)
    } else if v == 0x60 {
        Some(DxgiFormat::DXGI_FORMAT_BC6H_SF16)
    } else if v == 0x61 {
        Some(DxgiFormat::DXGI_FORMAT_BC7_TYPELESS)
    } else if v == 0x62 {
        Some(DxgiFormat::DXGI_FORMAT_BC7_UNORM)
    } else if v == 0x63 {
        Some(DxgiFormat::DXGI_FORMAT_BC7_UNORM_SRGB)
    } else if v == 0x64 {
        Some(DxgiFormat::DXGI_FORMAT_AYUV)
    } else if v == 0x65 {
        Some(DxgiFormat::DXGI_FORMAT_Y410)
    } else if v == 0x66 {
        Some(DxgiFormat::DXGI_FORMAT_Y416)
    } else if v == 0x67 {
        Some(DxgiFormat::DXGI_FORMAT_NV12)
    } else if v == 0x68 {
        Some(DxgiFormat::DXGI_FORMAT_P010)
    } else if v == 0x69 {
        Some(DxgiFormat::DXGI_FORMAT_P016)
    } else if v == 0x6a {
        Some(DxgiFormat::DXGI_FORMAT_420_OPAQUE)
    } else if v == 0x6b {
        Some(DxgiFormat::DXGI_FORMAT_YUY2)
    } else if v == 0x6c {
        Some(DxgiFormat::DXGI_FORMAT_Y210)
    } else if v == 0x6d {
        Some(DxgiFormat::DXGI_FORMAT_Y216)
    } else if v == 0x6e {
        Some(DxgiFormat::DXGI_FORMAT_NV11)
    } else if v == 0x6f {
        Some(DxgiFormat::DXGI_FORMAT_AI44)
    } else if v == 0x70 {
        Some(DxgiFormat::DXGI_FORMAT_IA44)
    } else if v == 0x71 {
        Some(DxgiFormat::DXGI_FORMAT_P8)
    } else if v == 0x72 {
        Some(DxgiFormat::DXGI_FORMAT_A8P8)
    } else if v == 0x73 {
        Some(DxgiFormat::DXGI_FORMAT_B4G4R4A4_UNORM)
    } else if v == 0x82 {
        Some(DxgiFormat::DXGI_FORMAT_P208)
    } else if v == 0x83 {
        Some(DxgiFormat::DXGI_FORMAT_V208)
    } else if v == 0x84 {
        Some(DxgiFormat::DXGI_FORMAT_V408)
    } else if v == 0x85 {
        Some(DxgiFormat::DXGI_FORMAT_SAMPLER_FEEDBACK_MIN_MIP_OPAQUE)
    } else if v == 0x86 {
        Some(DxgiFormat::DXGI_FORMAT_SAMPLER_FEEDBACK_MIP_REGION_USED_OPAQUE)
    } else if v == 0xffffffff {
        Some(DxgiFormat::DXGI_FORMAT_FORCE_UINT)
    } else {
        None
    }
}

#[verifier::opaque]
pub open spec fn spec_dxgi_format_value(f: DxgiFormat) -> u32 {
    match f {
        DxgiFormat::DXGI_FORMAT_UNKNOWN => 0x0,
        DxgiFormat::DXGI_FORMAT_R32G32B32A32_TYPELESS => 0x1,
        DxgiFormat::DXGI_FORMAT_R32G32B32A32_FLOAT => 0x2,
        DxgiFormat::DXGI_FORMAT_R32G32B32A32_UINT => 0x3,
        DxgiFormat::DXGI_FORMAT_R32G32B32A32_SINT => 0x4,
        DxgiFormat::DXGI_FORMAT_R32G32B32_TYPELESS => 0x5,
        DxgiFormat::DXGI_FORMAT_R32G32B32_FLOAT => 0x6,
        DxgiFormat::DXGI_FORMAT_R32G32B32_UINT => 0x7,
        DxgiFormat::DXGI_FORMAT_R32G32B32_SINT => 0x8,
        DxgiFormat::DXGI_FORMAT_R16G16B16A16_TYPELESS => 0x9,
        DxgiFormat::DXGI_FORMAT_R16G16B16A16_FLOAT => 0xa,
        DxgiFormat::DXGI_FORMAT_R16G16B16A16_UNORM => 0xb,
        DxgiFormat::DXGI_FORMAT_R16G16B16A16_UINT => 0xc,
        DxgiFormat::DXGI_FORMAT_R16G16B16A16_SNORM => 0xd,
        DxgiFormat::DXGI_FORMAT_R16G16B16A16_SINT => 0xe,
        DxgiFormat::DXGI_FORMAT_R32G32_TYPELESS => 0xf,
        DxgiFormat::DXGI_FORMAT_R32G32_FLOAT => 0x10,
        DxgiFormat::DXGI_FORMAT_R32G32_UINT => 0x11,
        DxgiFormat::DXGI_FORMAT_R32G32_SINT => 0x12,
        DxgiFormat::DXGI_FORMAT_R32G8X24_TYPELESS => 0x13,
        DxgiFormat::DXGI_FORMAT_D32_FLOAT_S8X24_UINT => 0x14,
        DxgiFormat::DXGI_FORMAT_R32_FLOAT_X8X24_TYPELESS => 0x15,
        DxgiFormat::DXGI_FORMAT_X32_TYPELESS_G8X24_UINT => 0x16,
        DxgiFormat::DXGI_FORMAT_R10G10B10A2_TYPELESS => 0x17,
        DxgiFormat::DXGI_FORMAT_R10G10B10A2_UNORM => 0x18,
        DxgiFormat::DXGI_FORMAT_R10G10B10A2_UINT => 0x19,
        DxgiFormat::DXGI_FORMAT_R11G11B10_FLOAT => 0x1a,
        DxgiFormat::DXGI_FORMAT_R8G8B8A8_TYPELESS => 0x1b,
        DxgiFormat::DXGI_FORMAT_R8G8B8A8_UNORM => 0x1c,
        DxgiFormat::DXGI_FORMAT_R8G8B8A8_UNORM_SRGB => 0x1d,
        DxgiFormat::DXGI_FORMAT_R8G8B8A8_UINT => 0x1e,
        DxgiFormat::DXGI_FORMAT_R8G8B8A8_SNORM => 0x1f,
        DxgiFormat::DXGI_FORMAT_R8G8B8A8_SINT => 0x20,
        DxgiFormat::DXGI_FORMAT_R16G16_TYPELESS => 0x21,
        DxgiFormat::DXGI_FORMAT_R16G16_FLOAT => 0x22,
        DxgiFormat::DXGI_FORMAT_R16G16_UNORM => 0x23,
        DxgiFormat::DXGI_FORMAT_R16G16_UINT => 0x24,
        DxgiFormat::DXGI_FORMAT_R16G16_SNORM => 0x25,
        DxgiFormat::DXGI_FORMAT_R16G16_SINT => 0x26,
        DxgiFormat::DXGI_FORMAT_R32_TYPELESS => 0x27,
        DxgiFormat::DXGI_FORMAT_D32_FLOAT => 0x28,
        DxgiFormat::DXGI_FORMAT_R32_FLOAT => 0x29,
        DxgiFormat::DXGI_FORMAT_R32_UINT => 0x2a,
        DxgiFormat::DXGI_FORMAT_R32_SINT => 0x2b,
        DxgiFormat::DXGI_FORMAT_R24G8_TYPELESS => 0x2c,
        DxgiFormat::DXGI_FORMAT_D24_UNORM_S8_UINT => 0x2d,
        DxgiFormat::DXGI_FORMAT_R24_UNORM_X8_TYPELESS => 0x2e,
        DxgiFormat::DXGI_FORMAT_X24_TYPELESS_G8_UINT => 0x2f,
        DxgiFormat::DXGI_FORMAT_R8G8_TYPELESS => 0x30,
        DxgiFormat::DXGI_FORMAT_R8G8_UNORM => 0x31,
        DxgiFormat::DXGI_FORMAT_R8G8_UINT => 0x32,
        DxgiFormat::DXGI_FORMAT_R8G8_SNORM => 0x33,
        DxgiFormat::DXGI_FORMAT_R8G8_SINT => 0x34,
        DxgiFormat::DXGI_FORMAT_R16_TYPELESS => 0x35,
        DxgiFormat::DXGI_FORMAT_R16_FLOAT => 0x36,
        DxgiFormat::DXGI_FORMAT_D16_UNORM => 0x37,
        DxgiFormat::DXGI_FORMAT_R16_UNORM => 0x38,
        DxgiFormat::DXGI_FORMAT_R16_UINT => 0x39,
        DxgiFormat::DXGI_FORMAT_R16_SNORM => 0x3a,
        DxgiFormat::DXGI_FORMAT_R16_SINT => 0x3b,
        DxgiFormat::DXGI_FORMAT_R8_TYPELESS => 0x3c,
        DxgiFormat::DXGI_FORMAT_R8_UNORM => 0x3d,
        DxgiFormat::DXGI_FORMAT_R8_UINT => 0x3e,
        DxgiFormat::DXGI_FORMAT_R8_SNORM => 0x3f,
        DxgiFormat::DXGI_FORMAT_R8_SINT => 0x40,
        DxgiFormat::DXGI_FORMAT_A8_UNORM => 0x41,
        DxgiFormat::DXGI_FORMAT_R1_UNORM => 0x42,
        DxgiFormat::DXGI_FORMAT_R9G9B9E5_SHAREDEXP => 0x43,
        DxgiFormat::DXGI_FORMAT_R8G8_B8G8_UNORM => 0x44,
        DxgiFormat::DXGI_FORMAT_G8R8_G8B8_UNORM => 0x45,
        DxgiFormat::DXGI_FORMAT_BC1_TYPELESS => 0x46,
        DxgiFormat::DXGI_FORMAT_BC1_UNORM => 0x47,
        DxgiFormat::DXGI_FORMAT_BC1_UNORM_SRGB => 0x48,
        DxgiFormat::DXGI_FORMAT_BC2_TYPELESS => 0x49,
        DxgiFormat::DXGI_FORMAT_BC2_UNORM => 0x4a,
        DxgiFormat::DXGI_FORMAT_BC2_UNORM_SRGB => 0x4b,
        DxgiFormat::DXGI_FORMAT_BC3_TYPELESS => 0x4c,
        DxgiFormat::DXGI_FORMAT_BC3_UNORM => 0x4d,
        DxgiFormat::DXGI_FORMAT_BC3_UNORM_SRGB => 0x4e,
        DxgiFormat::DXGI_FORMAT_BC4_TYPELESS => 0x4f,
        DxgiFormat::DXGI_FORMAT_BC4_UNORM => 0x50,
        DxgiFormat::DXGI_FORMAT_BC4_SNORM => 0x51,
        DxgiFormat::DXGI_FORMAT_BC5_TYPELESS => 0x52,
        DxgiFormat::DXGI_FORMAT_BC5_UNORM => 0x53,
        DxgiFormat::DXGI_FORMAT_BC5_SNORM => 0x54,
        DxgiFormat::DXGI_FORMAT_B5G6R5_UNORM => 0x55,
        DxgiFormat::DXGI_FORMAT_B5G5R5A1_UNORM => 0x56,
        DxgiFormat::DXGI_FORMAT_B8G8R8A8_UNORM => 0x57,
        DxgiFormat::DXGI_FORMAT_B8G8R8X8_UNORM => 0x58,
        DxgiFormat::DXGI_FORMAT_R10G10B10_XR_BIAS_A2_UNORM => 0x59,
        DxgiFormat::DXGI_FORMAT_B8G8R8A8_TYPELESS => 0x5a,
        DxgiFormat::DXGI_FORMAT_B8G8R8A8_UNORM_SRGB => 0x5b,
        DxgiFormat::DXGI_FORMAT_B8G8R8X8_TYPELESS => 0x5c,
        DxgiFormat::DXGI_FORMAT_B8G8R8X8_UNORM_SRGB => 0x5d,
        DxgiFormat::DXGI_FORMAT_BC6H_TYPELESS => 0x5e,
        DxgiFormat::DXGI_FORMAT_BC6H_UF16 => 0x5f,
        DxgiFormat::DXGI_FORMAT_BC6H_SF16 => 0x60,
        DxgiFormat::DXGI_FORMAT_BC7_TYPELESS => 0x61,
        DxgiFormat::DXGI_FORMAT_BC7_UNORM => 0x62,
        DxgiFormat::DXGI_FORMAT_BC7_UNORM_SRGB => 0x63,
        DxgiFormat::DXGI_FORMAT_AYUV => 0x64,
        DxgiFormat::DXGI_FORMAT_Y410 => 0x65,
        DxgiFormat::DXGI_FORMAT_Y416 => 0x66,
        DxgiFormat::DXGI_FORMAT_NV12 => 0x67,
        DxgiFormat::DXGI_FORMAT_P010 => 0x68,
        DxgiFormat::DXGI_FORMAT_P016 => 0x69,
        DxgiFormat::DXGI_FORMAT_420_OPAQUE => 0x6a,
        DxgiFormat::DXGI_FORMAT_YUY2 => 0x6b,
        DxgiFormat::DXGI_FORMAT_Y210 => 0x6c,
        DxgiFormat::DXGI_FORMAT_Y216 => 0x6d,
        DxgiFormat::DXGI_FORMAT_NV11 => 0x6e,
        DxgiFormat::DXGI_FORMAT_AI44 => 0x6f,
        DxgiFormat::DXGI_FORMAT_IA44 => 0x70,
        DxgiFormat::DXGI_FORMAT_P8 => 0x71,
        DxgiFormat::DXGI_FORMAT_A8P8 => 0x72,
        DxgiFormat::DXGI_FORMAT_B4G4R4A4_UNORM => 0x73,
        DxgiFormat::DXGI_FORMAT_P208 => 0x82,
        DxgiFormat::DXGI_FORMAT_V208 => 0x83,
        DxgiFormat::DXGI_FORMAT_V408 => 0x84,
        DxgiFormat::DXGI_FORMAT_SAMPLER_FEEDBACK_MIN_MIP_OPAQUE => 0x85,
        DxgiFormat::DXGI_FORMAT_SAMPLER_FEEDBACK_MIP_REGION_USED_OPAQUE => 0x86,
        DxgiFormat::DXGI_FORMAT_FORCE_UINT => 0xffffffff,
    }
}

impl DxgiFormat {
    pub fn value(self) -> (r: u32)
        ensures
            r == spec_dxgi_format_value(self),
    {
        proof {
            reveal(spec_dxgi_format_value);
        }
        match self {
            DxgiFormat::DXGI_FORMAT_UNKNOWN => 0x0,
            DxgiFormat::DXGI_FORMAT_R32G32B32A32_TYPELESS => 0x1,
            DxgiFormat::DXGI_FORMAT_R32G32B32A32_FLOAT => 0x2,
            DxgiFormat::DXGI_FORMAT_R32G32B32A32_UINT => 0x3,
            DxgiFormat::DXGI_FORMAT_R32G32B32A32_SINT => 0x4,
            DxgiFormat::DXGI_FORMAT_R32G32B32_TYPELESS => 0x5,
            DxgiFormat::DXGI_FORMAT_R32G32B32_FLOAT => 0x6,
            DxgiFormat::DXGI_FORMAT_R32G32B32_UINT => 0x7,
            DxgiFormat::DXGI_FORMAT_R32G32B32_SINT => 0x8,
            DxgiFormat::DXGI_FORMAT_R16G16B16A16_TYPELESS => 0x9,
            DxgiFormat::DXGI_FORMAT_R16G16B16A16_FLOAT => 0xa,
            DxgiFormat::DXGI_FORMAT_R16G16B16A16_UNORM => 0xb,
            DxgiFormat::DXGI_FORMAT_R16G16B16A16_UINT => 0xc,
            DxgiFormat::DXGI_FORMAT_R16G16B16A16_SNORM => 0xd,
            DxgiFormat::DXGI_FORMAT_R16G16B16A16_SINT => 0xe,
            DxgiFormat::DXGI_FORMAT_R32G32_TYPELESS => 0xf,
            DxgiFormat::DXGI_FORMAT_R32G32_FLOAT => 0x10,
            DxgiFormat::DXGI_FORMAT_R32G32_UINT => 0x11,
            DxgiFormat::DXGI_FORMAT_R32G32_SINT => 0x12,
            DxgiFormat::DXGI_FORMAT_R32G8X24_TYPELESS => 0x13,
            DxgiFormat::DXGI_FORMAT_D32_FLOAT_S8X24_UINT => 0x14,
            DxgiFormat::DXGI_FORMAT_R32_FLOAT_X8X24_TYPELESS => 0x15,
            DxgiFormat::DXGI_FORMAT_X32_TYPELESS_G8X24_UINT => 0x16,
            DxgiFormat::DXGI_FORMAT_R10G10B10A2_TYPELESS => 0x17,
            DxgiFormat::DXGI_FORMAT_R10G10B10A2_UNORM => 0x18,
            DxgiFormat::DXGI_FORMAT_R10G10B10A2_UINT => 0x19,
            DxgiFormat::DXGI_FORMAT_R11G11B10_FLOAT => 0x1a,
            DxgiFormat::DXGI_FORMAT_R8G8B8A8_TYPELESS => 0x1b,
            DxgiFormat::DXGI_FORMAT_R8G8B8A8_UNORM => 0x1c,
            DxgiFormat::DXGI_FORMAT_R8G8B8A8_UNORM_SRGB => 0x1d,
            DxgiFormat::DXGI_FORMAT_R8G8B8A8_UINT => 0x1e,
            DxgiFormat::DXGI_FORMAT_R8G8B8A8_SNORM => 0x1f,
            DxgiFormat::DXGI_FORMAT_R8G8B8A8_SINT => 0x20,
            DxgiFormat::DXGI_FORMAT_R16G16_TYPELESS => 0x21,
            DxgiFormat::DXGI_FORMAT_R16G16_FLOAT => 0x22,
            DxgiFormat::DXGI_FORMAT_R16G16_UNORM => 0x23,
            DxgiFormat::DXGI_FORMAT_R16G16_UINT => 0x24,
            DxgiFormat::DXGI_FORMAT_R16G16_SNORM => 0x25,
            DxgiFormat::DXGI_FORMAT_R16G16_SINT => 0x26,
            DxgiFormat::DXGI_FORMAT_R32_TYPELESS => 0x27,
            DxgiFormat::DXGI_FORMAT_D32_FLOAT => 0x28,
            DxgiFormat::DXGI_FORMAT_R32_FLOAT => 0x29,
            DxgiFormat::DXGI_FORMAT_R32_UINT => 0x2a,
            DxgiFormat::DXGI_FORMAT_R32_SINT => 0x2b,
            DxgiFormat::DXGI_FORMAT_R24G8_TYPELESS => 0x2c,
            DxgiFormat::DXGI_FORMAT_D24_UNORM_S8_UINT => 0x2d,
            DxgiFormat::DXGI_FORMAT_R24_UNORM_X8_TYPELESS => 0x2e,
            DxgiFormat::DXGI_FORMAT_X24_TYPELESS_G8_UINT => 0x2f,
            DxgiFormat::DXGI_FORMAT_R8G8_TYPELESS => 0x30,
            DxgiFormat::DXGI_FORMAT_R8G8_UNORM => 0x31,
            DxgiFormat::DXGI_FORMAT_R8G8_UINT => 0x32,
            DxgiFormat::DXGI_FORMAT_R8G8_SNORM => 0x33,
            DxgiFormat::DXGI_FORMAT_R8G8_SINT => 0x34,
            DxgiFormat::DXGI_FORMAT_R16_TYPELESS => 0x35,
            DxgiFormat::DXGI_FORMAT_R16_FLOAT => 0x36,
            DxgiFormat::DXGI_FORMAT_D16_UNORM => 0x37,
            DxgiFormat::DXGI_FORMAT_R16_UNORM => 0x38,
            DxgiFormat::DXGI_FORMAT_R16_UINT => 0x39,
            DxgiFormat::DXGI_FORMAT_R16_SNORM => 0x3a,
            DxgiFormat::DXGI_FORMAT_R16_SINT => 0x3b,
            DxgiFormat::DXGI_FORMAT_R8_TYPELESS => 0x3c,
            DxgiFormat::DXGI_FORMAT_R8_UNORM => 0x3d,
            DxgiFormat::DXGI_FORMAT_R8_UINT => 0x3e,
            DxgiFormat::DXGI_FORMAT_R8_SNORM => 0x3f,
            DxgiFormat::DXGI_FORMAT_R8_SINT => 0x40,
            DxgiFormat::DXGI_FORMAT_A8_UNORM => 0x41,
            DxgiFormat::DXGI_FORMAT_R1_UNORM => 0x42,
            DxgiFormat::DXGI_FORMAT_R9G9B9E5_SHAREDEXP => 0x43,
            DxgiFormat::DXGI_FORMAT_R8G8_B8G8_UNORM => 0x44,
            DxgiFormat::DXGI_FORMAT_G8R8_G8B8_UNORM => 0x45,
            DxgiFormat::DXGI_FORMAT_BC1_TYPELESS => 0x46,
            DxgiFormat::DXGI_FORMAT_BC1_UNORM => 0x47,
            DxgiFormat::DXGI_FORMAT_BC1_UNORM_SRGB => 0x48,
            DxgiFormat::DXGI_FORMAT_BC2_TYPELESS => 0x49,
            DxgiFormat::DXGI_FORMAT_BC2_UNORM => 0x4a,
            DxgiFormat::DXGI_FORMAT_BC2_UNORM_SRGB => 0x4b,
            DxgiFormat::DXGI_FORMAT_BC3_TYPELESS => 0x4c,
            DxgiFormat::DXGI_FORMAT_BC3_UNORM => 0x4d,
            DxgiFormat::DXGI_FORMAT_BC3_UNORM_SRGB => 0x4e,
            DxgiFormat::DXGI_FORMAT_BC4_TYPELESS => 0x4f,
            DxgiFormat::DXGI_FORMAT_BC4_UNORM => 0x50,
            DxgiFormat::DXGI_FORMAT_BC4_SNORM => 0x51,
            DxgiFormat::DXGI_FORMAT_BC5_TYPELESS => 0x52,
            DxgiFormat::DXGI_FORMAT_BC5_UNORM => 0x53,
            DxgiFormat::DXGI_FORMAT_BC5_SNORM => 0x54,
            DxgiFormat::DXGI_FORMAT_B5G6R5_UNORM => 0x55,
            DxgiFormat::DXGI_FORMAT_B5G5R5A1_UNORM => 0x56,
            DxgiFormat::DXGI_FORMAT_B8G8R8A8_UNORM => 0x57,
            DxgiFormat::DXGI_FORMAT_B8G8R8X8_UNORM => 0x58,
            DxgiFormat::DXGI_FORMAT_R10G10B10_XR_BIAS_A2_UNORM => 0x59,
            DxgiFormat::DXGI_FORMAT_B8G8R8A8_TYPELESS => 0x5a,
            DxgiFormat::DXGI_FORMAT_B8G8R8A8_UNORM_SRGB => 0x5b,
            DxgiFormat::DXGI_FORMAT_B8G8R8X8_TYPELESS => 0x5c,
            DxgiFormat::DXGI_FORMAT_B8G8R8X8_UNORM_SRGB => 0x5d,
            DxgiFormat::DXGI_FORMAT_BC6H_TYPELESS => 0x5e,
            DxgiFormat::DXGI_FORMAT_BC6H_UF16 => 0x5f,
            DxgiFormat::DXGI_FORMAT_BC6H_SF16 => 0x60,
            DxgiFormat::DXGI_FORMAT_BC7_TYPELESS => 0x61,
            DxgiFormat::DXGI_FORMAT_BC7_UNORM => 0x62,
            DxgiFormat::DXGI_FORMAT_BC7_UNORM_SRGB => 0x63,
            DxgiFormat::DXGI_FORMAT_AYUV => 0x64,
            DxgiFormat::DXGI_FORMAT_Y410 => 0x65,
            DxgiFormat::DXGI_FORMAT_Y416 => 0x66,
            DxgiFormat::DXGI_FORMAT_NV12 => 0x67,
            DxgiFormat::DXGI_FORMAT_P010 => 0x68,
            DxgiFormat::DXGI_FORMAT_P016 => 0x69,
            DxgiFormat::DXGI_FORMAT_420_OPAQUE => 0x6a,
            DxgiFormat::DXGI_FORMAT_YUY2 => 0x6b,
            DxgiFormat::DXGI_FORMAT_Y210 => 0x6c,
            DxgiFormat::DXGI_FORMAT_Y216 => 0x6d,
            DxgiFormat::DXGI_FORMAT_NV11 => 0x6e,
            DxgiFormat::DXGI_FORMAT_AI44 => 0x6f,
            DxgiFormat::DXGI_FORMAT_IA44 => 0x70,
            DxgiFormat::DXGI_FORMAT_P8 => 0x71,
            DxgiFormat::DXGI_FORMAT_A8P8 => 0x72,
            DxgiFormat::DXGI_FORMAT_B4G4R4A4_UNORM => 0x73,
            DxgiFormat::DXGI_FORMAT_P208 => 0x82,
            DxgiFormat::DXGI_FORMAT_V208 => 0x83,
            DxgiFormat::DXGI_FORMAT_V408 => 0x84,
            DxgiFormat::DXGI_FORMAT_SAMPLER_FEEDBACK_MIN_MIP_OPAQUE => 0x85,
            DxgiFormat::DXGI_FORMAT_SAMPLER_FEEDBACK_MIP_REGION_USED_OPAQUE => 0x86,
            DxgiFormat::DXGI_FORMAT_FORCE_UINT => 0xffffffff,
        }
    }
}

/// The closed resource-dimension enumeration of the header extension.
#[derive(Debug, Clone, Copy, PartialEq, Eq, Structural)]
#[allow(non_camel_case_types)]
pub enum D3D10_Resource_Dimension {
    D3D10_RESOURCE_DIMENSION_UNKNOWN,
    D3D10_RESOURCE_DIMENSION_BUFFER,
    D3D10_RESOURCE_DIMENSION_TEXTURE1D,
    D3D10_RESOURCE_DIMENSION_TEXTURE2D,
    D3D10_RESOURCE_DIMENSION_TEXTURE3D,
}

pub open spec fn spec_resource_dimension_from_u32(v: u32) -> Option<D3D10_Resource_Dimension> {
    if v == 0 {
        Some(D3D10_Resource_Dimension::D3D10_RESOURCE_DIMENSION_UNKNOWN)
    } else if v == 1 {
        Some(D3D10_Resource_Dimension::D3D10_RESOURCE_DIMENSION_BUFFER)
    } else if v == 2 {
        Some(D3D10_Resource_Dimension::D3D10_RESOURCE_DIMENSION_TEXTURE1D)
    } else if v == 3 {
        Some(D3D10_Resource_Dimension::D3D10_RESOURCE_DIMENSION_TEXTURE2D)
    } else if v == 4 {
        Some(D3D10_Resource_Dimension::D3D10_RESOURCE_DIMENSION_TEXTURE3D)
    } else {
        None
    }
}

pub fn resource_dimension_from_u32(v: u32) -> (r: Option<D3D10_Resource_Dimension>)
    ensures
        r == spec_resource_dimension_from_u32(v),
{
    if v == 0 {
        Some(D3D10_Resource_Dimension::D3D10_RESOURCE_DIMENSION_UNKNOWN)
    } else if v == 1 {
        Some(D3D10_Resource_Dimension::D3D10_RESOURCE_DIMENSION_BUFFER)
    } else if v == 2 {
        Some(D3D10_Resource_Dimension::D3D10_RESOURCE_DIMENSION_TEXTURE1D)
    } else if v == 3 {
        Some(D3D10_Resource_Dimension::D3D10_RESOURCE_DIMENSION_TEXTURE2D)
    } else if v == 4 {
        Some(D3D10_Resource_Dimension::D3D10_RESOURCE_DIMENSION_TEXTURE3D)
    } else {
        None
    }
}

/// The canonical legacy-format tags that the bit-mask resolver can yield.
/// `Unknown` is a valid resolver result, not a failure.
#[derive(Debug, Clone, Copy, PartialEq, Eq, Structural)]
#[allow(non_camel_case_types)]
pub enum DdsPixelFormatEnum {
    D3DFMT_A1R5G5B5,
    D3DFMT_A2B10G10R10,
    D3DFMT_A2R10G10B10,
    D3DFMT_A4L4,
    D3DFMT_A4R4G4B4,
    D3DFMT_A8,
    D3DFMT_A8B8G8R8,
    D3DFMT_A8L8,
    D3DFMT_A8R3G3B2,
    D3DFMT_A8R8G8B8,
    D3DFMT_G16R16,
    D3DFMT_L16,
    D3DFMT_L8,
    D3FMT_R5G6B5,
    D3DFMT_R8G8B8,
    Unknown,
    D3DFMT_X1R5G5B5,
    D3DFMT_X4R4G4B4,
    D3DFMT_X8B8G8R8,
    D3DFMT_X8R8G8B8,
}

/// The 32-byte legacy pixel-format sub-record.
#[derive(Debug, Clone, Copy, PartialEq, Eq, Structural)]
pub struct DdsPixelFormat {
    pub size: u32,
    pub flags: DdsPixelformatFlagSet,
    pub four_cc: FourCCEnum,
    pub rgb_bit_count: u32,
    pub r_bit_mask: u32,
    pub g_bit_mask: u32,
    pub b_bit_mask: u32,
    pub a_bit_mask: u32,
}

impl DdsPixelFormat {
    pub open spec fn wf(self) -> bool {
        self.flags.wf()
    }
}

/// The 20-byte header extension.
#[derive(Debug, Clone, Copy, PartialEq, Eq, Structural)]
pub struct DdsHeaderDX10 {
    pub dxgi_format: DxgiFormat,
    pub resource_dimension: D3D10_Resource_Dimension,
    pub misc_flag: u32,
    pub array_size: u32,
    pub misc_flags2: u32,
}

impl Default for DdsHeaderDX10 {
    fn default() -> (r: Self)
        ensures
            r.dxgi_format == DxgiFormat::DXGI_FORMAT_UNKNOWN,
            r.resource_dimension
                == D3D10_Resource_Dimension::D3D10_RESOURCE_DIMENSION_UNKNOWN,
            r.misc_flag == 0,
            r.array_size == 0,
            r.misc_flags2 == 0,
    {
        DdsHeaderDX10 {
            dxgi_format: DxgiFormat::DXGI_FORMAT_UNKNOWN,
            resource_dimension: D3D10_Resource_Dimension::D3D10_RESOURCE_DIMENSION_UNKNOWN,
            misc_flag: 0,
            array_size: 0,
            misc_flags2: 0,
        }
    }
}

/// The parsed classic header, with the extension when the pixel-format
/// record announces one. The 11 reserved words and the raw reserved2 word
/// are consumed by the parser and discarded.
#[derive(Debug, Clone, Copy, PartialEq, Eq, Structural)]
pub struct DdsHeader {
    pub size: u32,
    pub flags: DdsHeaderFlagSet,
    pub height: u32,
    pub width: u32,
    pub pitch_or_linear_size: u32,
    pub depth: u32,
    pub mip_map_count: u32,
    pub ddspf: DdsPixelFormat,
    pub caps: DdsCapsFlagSet,
    pub caps2: DdsCaps2FlagSet,
    pub caps3: u32,
    pub caps4: u32,
    pub reserved2: u32,
    pub dx10_header: Option<DdsHeaderDX10>,
}

impl DdsHeader {
    /// The header invariant: the size field is pinned to 124 and every
    /// bit-set holds known bits only.
    pub open spec fn wf(self) -> bool {
        &&& self.size == 124
        &&& self.flags.wf()
        &&& self.caps.wf()
        &&& self.caps2.wf()
        &&& self.ddspf.wf()
    }
}

/// Whether a parsed pixel-format record announces the 20-byte extension:
/// its flags include the FourCC bit and the code is the extension marker.
pub open spec fn spec_needs_extension(pf: DdsPixelFormat) -> bool {
    pf.flags.spec_contains(DdsPixelformatFlags::DDPF_FOURCC) && pf.four_cc == FourCCEnum::DX10
}

/// The pixel-format sub-record beginning at offset `i`, which the caller
/// guarantees lies fully inside `d`. Field order: size, flags, fourCC,
/// bit count, four channel masks. The flags and the fourCC are validated.
pub open spec fn spec_parse_pixel_format(d: Seq<u8>, i: int) -> Result<DdsPixelFormat, EddsError> {
    let flags = le32(d, i + 4) as u32;
    let four_cc_raw = le32(d, i + 8) as u32;
    if flags & DDPF_KNOWN_BITS != flags {
        Err(EddsError::InvalidBitFlags(flags))
    } else {
        match spec_four_cc_from_u32(four_cc_raw) {
            Option::None => Err(EddsError::InvalidFourCC(four_cc_raw)),
            Option::Some(four_cc) => Ok(
                DdsPixelFormat {
                    size: le32(d, i) as u32,
                    flags: DdsPixelformatFlagSet { bits: flags },
                    four_cc,
                    rgb_bit_count: le32(d, i + 12) as u32,
                    r_bit_mask: le32(d, i + 16) as u32,
                    g_bit_mask: le32(d, i + 20) as u32,
                    b_bit_mask: le32(d, i + 24) as u32,
                    a_bit_mask: le32(d, i + 28) as u32,
                },
            ),
        }
    }
}

/// The 20-byte extension beginning at offset `i`, which the caller
/// guarantees lies fully inside `d`. The extended-format and the
/// resource-dimension values are validated against their enumerations.
pub open spec fn spec_parse_dx10(d: Seq<u8>, i: int) -> Result<DdsHeaderDX10, EddsError> {
    let format_raw = le32(d, i) as u32;
    let dim_raw = le32(d, i + 4) as u32;
    match spec_dxgi_format_from_u32(format_raw) {
        Option::None => Err(EddsError::InvalidExtendedFormat(format_raw)),
        Option::Some(dxgi_format) => match spec_resource_dimension_from_u32(dim_raw) {
            Option::None => Err(EddsError::InvalidResourceDimension(dim_raw)),
            Option::Some(resource_dimension) => Ok(
                DdsHeaderDX10 {
                    dxgi_format,
                    resource_dimension,
                    misc_flag: le32(d, i + 8) as u32,
                    array_size: le32(d, i + 12) as u32,
                    misc_flags2: le32(d, i + 16) as u32,
                },
            ),
        },
    }
}

/// The whole header beginning at `pos`: 128 bytes must be available up
/// front, the magic and the size field are checked first, every bit-set
/// and enumeration is validated in field order, and the extension is
/// parsed from 20 further bytes exactly when the pixel-format record
/// announces it.
#[verifier::opaque]
pub open spec fn spec_parse_header(d: Seq<u8>, pos: int) -> Result<DdsHeader, EddsError> {
    if pos + 128 > d.len() {
        Err(EddsError::Io)
    } else {
        let magic = le32(d, pos) as u32;
        let size = le32(d, pos + 4) as u32;
        let flags = le32(d, pos + 8) as u32;
        let caps = le32(d, pos + 108) as u32;
        let caps2 = le32(d, pos + 112) as u32;
        if magic != DDS_MAGIC {
            Err(EddsError::BadMagic(magic))
        } else if size != 124 {
            Err(EddsError::BadSize(size))
        } else if flags & DDSD_KNOWN_BITS != flags {
            Err(EddsError::InvalidBitFlags(flags))
        } else {
            match spec_parse_pixel_format(d, pos + 76) {
                Err(e) => Err(e),
                Ok(ddspf) => {
                    if caps & DDSCAPS_KNOWN_BITS != caps {
                        Err(EddsError::InvalidBitFlags(caps))
                    } else if caps2 & DDSCAPS2_KNOWN_BITS != caps2 {
                        Err(EddsError::InvalidBitFlags(caps2))
                    } else {
                        let base = DdsHeader {
                            size: 124,
                            flags: DdsHeaderFlagSet { bits: flags },
                            height: le32(d, pos + 12) as u32,
                            width: le32(d, pos + 16) as u32,
                            pitch_or_linear_size: le32(d, pos + 20) as u32,
                            depth: le32(d, pos + 24) as u32,
                            mip_map_count: le32(d, pos + 28) as u32,
                            ddspf,
                            caps: DdsCapsFlagSet { bits: caps },
                            caps2: DdsCaps2FlagSet { bits: caps2 },
                            caps3: le32(d, pos + 116) as u32,
                            caps4: le32(d, pos + 120) as u32,
                            reserved2: le32(d, pos + 124) as u32,
                            dx10_header: Option::None,
                        };
                        if spec_needs_extension(ddspf) {
                            if pos + 148 > d.len() {
                                Err(EddsError::Io)
                            } else {
                                match spec_parse_dx10(d, pos + 128) {
                                    Err(e) => Err(e),
                                    Ok(dx10) => Ok(
                                        DdsHeader { dx10_header: Option::Some(dx10), ..base },
                                    ),
                                }
                            }
                        } else {
                            Ok(base)
                        }
                    }
                },
            }
        }
    }
}

/// How many bytes a successfully parsed header consumed.
pub open spec fn spec_header_byte_len(h: DdsHeader) -> int {
    if h.dx10_header is Some {
        148
    } else {
        128
    }
}

/// Any unrecognized FourCC code is rejected with the invalid-FourCC error
/// carrying that code: whenever the fixed 128 bytes are available and every
/// field checked before the code passes — the magic, the size, the header
/// flags, and the pixel-format flags — a code outside the closed
/// enumeration fails the whole parse with exactly that error, so no header
/// is ever returned for it.
pub proof fn lemma_unrecognized_four_cc_rejected(d: Seq<u8>, pos: int)
    requires
        pos + 128 <= d.len(),
        le32(d, pos) as u32 == DDS_MAGIC,
        le32(d, pos + 4) as u32 == 124,
        (le32(d, pos + 8) as u32) & DDSD_KNOWN_BITS == le32(d, pos + 8) as u32,
        (le32(d, pos + 80) as u32) & DDPF_KNOWN_BITS == le32(d, pos + 80) as u32,
        spec_four_cc_from_u32(le32(d, pos + 84) as u32) is None,
    ensures
        spec_parse_header(d, pos) == Err::<DdsHeader, EddsError>(
            EddsError::InvalidFourCC(le32(d, pos + 84) as u32),
        ),
{
    reveal(spec_parse_header);
}

/// Any unrecognized extended-format value is rejected with the
/// invalid-extended-format error carrying that value: whenever the header
/// and its announced extension are available and every earlier field
/// passes, a value outside the extended-format enumeration fails the whole
/// parse with exactly that error.
pub proof fn lemma_unrecognized_extended_format_rejected(d: Seq<u8>, pos: int)
    requires
        pos + 148 <= d.len(),
        le32(d, pos) as u32 == DDS_MAGIC,
        le32(d, pos + 4) as u32 == 124,
        (le32(d, pos + 8) as u32) & DDSD_KNOWN_BITS == le32(d, pos + 8) as u32,
        (le32(d, pos + 80) as u32) & DDPF_KNOWN_BITS == le32(d, pos + 80) as u32,
        (DdsPixelformatFlagSet { bits: le32(d, pos + 80) as u32 }).spec_contains(
            DdsPixelformatFlags::DDPF_FOURCC,
        ),
        spec_four_cc_from_u32(le32(d, pos + 84) as u32) == Some(FourCCEnum::DX10),
        (le32(d, pos + 108) as u32) & DDSCAPS_KNOWN_BITS == le32(d, pos + 108) as u32,
        (le32(d, pos + 112) as u32) & DDSCAPS2_KNOWN_BITS == le32(d, pos + 112) as u32,
        spec_dxgi_format_from_u32(le32(d, pos + 128) as u32) is None,
    ensures
        spec_parse_header(d, pos) == Err::<DdsHeader, EddsError>(
            EddsError::InvalidExtendedFormat(le32(d, pos + 128) as u32),
        ),
{
    reveal(spec_parse_header);
}

/// Any unrecognized resource-dimension value is rejected with the
/// invalid-resource-dimension error carrying that value, under the same
/// conditions, once the extended format itself is recognized.
pub proof fn lemma_unrecognized_resource_dimension_rejected(d: Seq<u8>, pos: int)
    requires
        pos + 148 <= d.len(),
        le32(d, pos) as u32 == DDS_MAGIC,
        le32(d, pos + 4) as u32 == 124,
        (le32(d, pos + 8) as u32) & DDSD_KNOWN_BITS == le32(d, pos + 8) as u32,
        (le32(d, pos + 80) as u32) & DDPF_KNOWN_BITS == le32(d, pos + 80) as u32,
        (DdsPixelformatFlagSet { bits: le32(d, pos + 80) as u32 }).spec_contains(
            DdsPixelformatFlags::DDPF_FOURCC,
        ),
        spec_four_cc_from_u32(le32(d, pos + 84) as u32) == Some(FourCCEnum::DX10),
        (le32(d, pos + 108) as u32) & DDSCAPS_KNOWN_BITS == le32(d, pos + 108) as u32,
        (le32(d, pos + 112) as u32) & DDSCAPS2_KNOWN_BITS == le32(d, pos + 112) as u32,
        spec_dxgi_format_from_u32(le32(d, pos + 128) as u32) is Some,
        spec_resource_dimension_from_u32(le32(d, pos + 132) as u32) is None,
    ensures
        spec_parse_header(d, pos) == Err::<DdsHeader, EddsError>(
            EddsError::InvalidResourceDimension(le32(d, pos + 132) as u32),
        ),
{
    reveal(spec_parse_header);
}

/// The fixed resolver table from the legacy bit-mask tuple to a canonical
/// tag; a tuple outside the table resolves to `Unknown`.
#[verifier::opaque]
pub open spec fn spec_resolve_pixel_format(pf: DdsPixelFormat) -> DdsPixelFormatEnum {
    if pf.rgb_bit_count == 16 && pf.r_bit_mask == 0x7C00 && pf.g_bit_mask == 0x3E0
        && pf.b_bit_mask == 0x1F && pf.a_bit_mask == 0x8000 {
        DdsPixelFormatEnum::D3DFMT_A1R5G5B5
    } else if pf.rgb_bit_count == 32 && pf.r_bit_mask == 0x3FF && pf.g_bit_mask == 0xFFC00
        && pf.b_bit_mask == 0x3FF00000 && pf.a_bit_mask == 0xC0000000 {
        DdsPixelFormatEnum::D3DFMT_A2B10G10R10
    } else if pf.rgb_bit_count == 32 && pf.r_bit_mask == 0x3FF00000 && pf.g_bit_mask == 0xFFC00
        && pf.b_bit_mask == 0x3FF && pf.a_bit_mask == 0xC0000000 {
        DdsPixelFormatEnum::D3DFMT_A2R10G10B10
    } else if pf.rgb_bit_count == 8 && pf.r_bit_mask == 0xF && pf.g_bit_mask == 0x0
        && pf.b_bit_mask == 0x0 && pf.a_bit_mask == 0xF0 {
        DdsPixelFormatEnum::D3DFMT_A4L4
    } else if pf.rgb_bit_count == 16 && pf.r_bit_mask == 0xF00 && pf.g_bit_mask == 0xF0
        && pf.b_bit_mask == 0xF && pf.a_bit_mask == 0xF000 {
        DdsPixelFormatEnum::D3DFMT_A4R4G4B4
    } else if pf.rgb_bit_count == 8 && pf.r_bit_mask == 0x0 && pf.g_bit_mask == 0x0
        && pf.b_bit_mask == 0x0 && pf.a_bit_mask == 0xFF {
        DdsPixelFormatEnum::D3DFMT_A8
    } else if pf.rgb_bit_count == 32 && pf.r_bit_mask == 0xFF && pf.g_bit_mask == 0xFF00
        && pf.b_bit_mask == 0xFF0000 && pf.a_bit_mask == 0xFF000000 {
        DdsPixelFormatEnum::D3DFMT_A8B8G8R8
    } else if pf.rgb_bit_count == 16 && pf.r_bit_mask == 0xFF && pf.g_bit_mask == 0x0
        && pf.b_bit_mask == 0x0 && pf.a_bit_mask == 0xFF00 {
        DdsPixelFormatEnum::D3DFMT_A8L8
    } else if pf.rgb_bit_count == 16 && pf.r_bit_mask == 0xE0 && pf.g_bit_mask == 0x1C
        && pf.b_bit_mask == 0x3 && pf.a_bit_mask == 0xFF00 {
        DdsPixelFormatEnum::D3DFMT_A8R3G3B2
    } else if pf.rgb_bit_count == 32 && pf.r_bit_mask == 0xFF0000 && pf.g_bit_mask == 0xFF00
        && pf.b_bit_mask == 0xFF && pf.a_bit_mask == 0xFF000000 {
        DdsPixelFormatEnum::D3DFMT_A8R8G8B8
    } else if pf.rgb_bit_count == 32 && pf.r_bit_mask == 0xFFFF && pf.g_bit_mask == 0xFFFF0000
        && pf.b_bit_mask == 0x0 && pf.a_bit_mask == 0x0 {
        DdsPixelFormatEnum::D3DFMT_G16R16
    } else if pf.rgb_bit_count == 16 && pf.r_bit_mask == 0xFFFF && pf.g_bit_mask == 0x0
        && pf.b_bit_mask == 0x0 && pf.a_bit_mask == 0x0 {
        DdsPixelFormatEnum::D3DFMT_L16
    } else if pf.rgb_bit_count == 8 && pf.r_bit_mask == 0xFF && pf.g_bit_mask == 0x0
        && pf.b_bit_mask == 0x0 && pf.a_bit_mask == 0x0 {
        DdsPixelFormatEnum::D3DFMT_L8
    } else if pf.rgb_bit_count == 16 && pf.r_bit_mask == 0xF800 && pf.g_bit_mask == 0x7E0
        && pf.b_bit_mask == 0x1F && pf.a_bit_mask == 0x0 {
        DdsPixelFormatEnum::D3FMT_R5G6B5
    } else if pf.rgb_bit_count == 24 && pf.r_bit_mask == 0xFF0000 && pf.g_bit_mask == 0xFF00
        && pf.b_bit_mask == 0xFF && pf.a_bit_mask == 0x0 {
        DdsPixelFormatEnum::D3DFMT_R8G8B8
    } else if pf.rgb_bit_count == 16 && pf.r_bit_mask == 0x7C00 && pf.g_bit_mask == 0x3E0
        && pf.b_bit_mask == 0x1F && pf.a_bit_mask == 0x0 {
        DdsPixelFormatEnum::D3DFMT_X1R5G5B5
    } else if pf.rgb_bit_count == 16 && pf.r_bit_mask == 0xF00 && pf.g_bit_mask == 0xF0
        && pf.b_bit_mask == 0xF && pf.a_bit_mask == 0x0 {
        DdsPixelFormatEnum::D3DFMT_X4R4G4B4
    } else if pf.rgb_bit_count == 32 && pf.r_bit_mask == 0xFF && pf.g_bit_mask == 0xFF00
        && pf.b_bit_mask == 0xFF0000 && pf.a_bit_mask == 0x0 {
        DdsPixelFormatEnum::D3DFMT_X8B8G8R8
    } else if pf.rgb_bit_count == 32 && pf.r_bit_mask == 0xFF0000 && pf.g_bit_mask == 0xFF00
        && pf.b_bit_mask == 0xFF && pf.a_bit_mask == 0x0 {
        DdsPixelFormatEnum::D3DFMT_X8R8G8B8
    } else {
        DdsPixelFormatEnum::Unknown
    }
}

impl DdsHeader {
    /// Parses the header from the reader's cursor. The result is exactly
    /// what the specification-level parser says for these bytes, and on
    /// success the cursor stands just past the header.
    pub fn from_stream(input: &mut Reader) -> (r: Result<DdsHeader, EddsError>)
        requires
            old(input).wf(),
        ensures
            final(input).wf(),
            final(input).data == old(input).data,
            r == spec_parse_header(old(input).data@, old(input).pos as int),
            r matches Ok(h) ==> h.wf() && final(input).pos == old(input).pos
                + spec_header_byte_len(h),
    {
        proof {
            reveal(spec_parse_header);
        }
        if input.remaining() < 128 {
            return Err(EddsError::Io);
        }
        let magic = input.read_u32()?;
        if magic != DDS_MAGIC {
            return Err(EddsError::BadMagic(magic));
        }
        let size = input.read_u32()?;
        if size != 124 {
            return Err(EddsError::BadSize(size));
        }
        let flags_raw = input.read_u32()?;
        let flags = match DdsHeaderFlagSet::from_bits(flags_raw) {
            Option::Some(f) => f,
            Option::None => {
                return Err(EddsError::InvalidBitFlags(flags_raw));
            },
        };
        let height = input.read_u32()?;
        let width = input.read_u32()?;
        let pitch_or_linear_size = input.read_u32()?;
        let depth = input.read_u32()?;
        let mip_map_count = input.read_u32()?;
        let _reserved = input.read_bytes(44)?;
        let ddspf = DdsHeader::read_pixel_format(input)?;
        let caps_raw = input.read_u32()?;
        let caps = match DdsCapsFlagSet::from_bits(caps_raw) {
            Option::Some(f) => f,
            Option::None => {
                return Err(EddsError::InvalidBitFlags(caps_raw));
            },
        };
        let caps2_raw = input.read_u32()?;
        let caps2 = match DdsCaps2FlagSet::from_bits(caps2_raw) {
            Option::Some(f) => f,
            Option::None => {
                return Err(EddsError::InvalidBitFlags(caps2_raw));
            },
        };
        let caps3 = input.read_u32()?;
        let caps4 = input.read_u32()?;
        let reserved2 = input.read_u32()?;
        let mut header = DdsHeader {
            size,
            flags,
            height,
            width,
            pitch_or_linear_size,
            depth,
            mip_map_count,
            ddspf,
            caps,
            caps2,
            caps3,
            caps4,
            reserved2,
            dx10_header: None,
        };
        if header.ddspf.flags.contains(DdsPixelformatFlags::DDPF_FOURCC) && header.ddspf.four_cc
            == FourCCEnum::DX10 {
            if input.remaining() < 20 {
                return Err(EddsError::Io);
            }
            let dx10 = DdsHeader::read_dx10(input)?;
            header.dx10_header = Some(dx10);
        }
        Ok(header)
    }

    /// Reads the 32-byte pixel-format sub-record at the cursor.
    fn read_pixel_format(input: &mut Reader) -> (r: Result<DdsPixelFormat, EddsError>)
        requires
            old(input).wf(),
            old(input).can_read(32),
        ensures
            final(input).wf(),
            final(input).data == old(input).data,
            r == spec_parse_pixel_format(old(input).data@, old(input).pos as int),
            r is Ok ==> final(input).pos == old(input).pos + 32,
    {
        let size = input.read_u32()?;
        let flags_raw = input.read_u32()?;
        let four_cc_raw = input.read_u32()?;
        let rgb_bit_count = input.read_u32()?;
        let r_bit_mask = input.read_u32()?;
        let g_bit_mask = input.read_u32()?;
        let b_bit_mask = input.read_u32()?;
        let a_bit_mask = input.read_u32()?;
        let flags = match DdsPixelformatFlagSet::from_bits(flags_raw) {
            Option::Some(f) => f,
            Option::None => {
                return Err(EddsError::InvalidBitFlags(flags_raw));
            },
        };
        let four_cc = match four_cc_from_u32(four_cc_raw) {
            Option::Some(f) => f,
            Option::None => {
                return Err(EddsError::InvalidFourCC(four_cc_raw));
            },
        };
        Ok(
            DdsPixelFormat {
                size,
                flags,
                four_cc,
                rgb_bit_count,
                r_bit_mask,
                g_bit_mask,
                b_bit_mask,
                a_bit_mask,
            },
        )
    }

    /// Reads the 20-byte extension at the cursor.
    fn read_dx10(input: &mut Reader) -> (r: Result<DdsHeaderDX10, EddsError>)
        requires
            old(input).wf(),
            old(input).can_read(20),
        ensures
            final(input).wf(),
            final(input).data == old(input).data,
            r == spec_parse_dx10(old(input).data@, old(input).pos as int),
            r is Ok ==> final(input).pos == old(input).pos + 20,
    {
        let format_raw = input.read_u32()?;
        let dim_raw = input.read_u32()?;
        let misc_flag = input.read_u32()?;
        let array_size = input.read_u32()?;
        let misc_flags2 = input.read_u32()?;
        let dxgi_format = match dxgi_format_from_u32(format_raw) {
            Option::Some(f) => f,
            Option::None => {
                return Err(EddsError::InvalidExtendedFormat(format_raw));
            },
        };
        let resource_dimension = match resource_dimension_from_u32(dim_raw) {
            Option::Some(d) => d,
            Option::None => {
                return Err(EddsError::InvalidResourceDimension(dim_raw));
            },
        };
        Ok(DdsHeaderDX10 { dxgi_format, resource_dimension, misc_flag, array_size, misc_flags2 })
    }

    /// Resolves the legacy bit-mask fields against the fixed format table.
    pub fn get_pixel_format(&self) -> (r: DdsPixelFormatEnum)
        ensures
            r == spec_resolve_pixel_format(self.ddspf),
    {
        proof {
            reveal(spec_resolve_pixel_format);
        }
        if self.ddspf.rgb_bit_count == 16 && self.ddspf.r_bit_mask == 0x7C00 && self.ddspf.g_bit_mask == 0x3E0
            && self.ddspf.b_bit_mask == 0x1F && self.ddspf.a_bit_mask == 0x8000 {
            DdsPixelFormatEnum::D3DFMT_A1R5G5B5
        } else if self.ddspf.rgb_bit_count == 32 && self.ddspf.r_bit_mask == 0x3FF && self.ddspf.g_bit_mask == 0xFFC00
            && self.ddspf.b_bit_mask == 0x3FF00000 && self.ddspf.a_bit_mask == 0xC0000000 {
            DdsPixelFormatEnum::D3DFMT_A2B10G10R10
        } else if self.ddspf.rgb_bit_count == 32 && self.ddspf.r_bit_mask == 0x3FF00000 && self.ddspf.g_bit_mask == 0xFFC00
            && self.ddspf.b_bit_mask == 0x3FF && self.ddspf.a_bit_mask == 0xC0000000 {
            DdsPixelFormatEnum::D3DFMT_A2R10G10B10
        } else if self.ddspf.rgb_bit_count == 8 && self.ddspf.r_bit_mask == 0xF && self.ddspf.g_bit_mask == 0x0
            && self.ddspf.b_bit_mask == 0x0 && self.ddspf.a_bit_mask == 0xF0 {
            DdsPixelFormatEnum::D3DFMT_A4L4
        } else if self.ddspf.rgb_bit_count == 16 && self.ddspf.r_bit_mask == 0xF00 && self.ddspf.g_bit_mask == 0xF0
            && self.ddspf.b_bit_mask == 0xF && self.ddspf.a_bit_mask == 0xF000 {
            DdsPixelFormatEnum::D3DFMT_A4R4G4B4
        } else if self.ddspf.rgb_bit_count == 8 && self.ddspf.r_bit_mask == 0x0 && self.ddspf.g_bit_mask == 0x0
            && self.ddspf.b_bit_mask == 0x0 && self.ddspf.a_bit_mask == 0xFF {
            DdsPixelFormatEnum::D3DFMT_A8
        } else if self.ddspf.rgb_bit_count == 32 && self.ddspf.r_bit_mask == 0xFF && self.ddspf.g_bit_mask == 0xFF00
            && self.ddspf.b_bit_mask == 0xFF0000 && self.ddspf.a_bit_mask == 0xFF000000 {
            DdsPixelFormatEnum::D3DFMT_A8B8G8R8
        } else if self.ddspf.rgb_bit_count == 16 && self.ddspf.r_bit_mask == 0xFF && self.ddspf.g_bit_mask == 0x0
            && self.ddspf.b_bit_mask == 0x0 && self.ddspf.a_bit_mask == 0xFF00 {
            DdsPixelFormatEnum::D3DFMT_A8L8
        } else if self.ddspf.rgb_bit_count == 16 && self.ddspf.r_bit_mask == 0xE0 && self.ddspf.g_bit_mask == 0x1C
            && self.ddspf.b_bit_mask == 0x3 && self.ddspf.a_bit_mask == 0xFF00 {
            DdsPixelFormatEnum::D3DFMT_A8R3G3B2
        } else if self.ddspf.rgb_bit_count == 32 && self.ddspf.r_bit_mask == 0xFF0000 && self.ddspf.g_bit_mask == 0xFF00
            && self.ddspf.b_bit_mask == 0xFF && self.ddspf.a_bit_mask == 0xFF000000 {
            DdsPixelFormatEnum::D3DFMT_A8R8G8B8
        } else if self.ddspf.rgb_bit_count == 32 && self.ddspf.r_bit_mask == 0xFFFF && self.ddspf.g_bit_mask == 0xFFFF0000
            && self.ddspf.b_bit_mask == 0x0 && self.ddspf.a_bit_mask == 0x0 {
            DdsPixelFormatEnum::D3DFMT_G16R16
        } else if self.ddspf.rgb_bit_count == 16 && self.ddspf.r_bit_mask == 0xFFFF && self.ddspf.g_bit_mask == 0x0
            && self.ddspf.b_bit_mask == 0x0 && self.ddspf.a_bit_mask == 0x0 {
            DdsPixelFormatEnum::D3DFMT_L16
        } else if self.ddspf.rgb_bit_count == 8 && self.ddspf.r_bit_mask == 0xFF && self.ddspf.g_bit_mask == 0x0
            && self.ddspf.b_bit_mask == 0x0 && self.ddspf.a_bit_mask == 0x0 {
            DdsPixelFormatEnum::D3DFMT_L8
        } else if self.ddspf.rgb_bit_count == 16 && self.ddspf.r_bit_mask == 0xF800 && self.ddspf.g_bit_mask == 0x7E0
            && self.ddspf.b_bit_mask == 0x1F && self.ddspf.a_bit_mask == 0x0 {
            DdsPixelFormatEnum::D3FMT_R5G6B5
        } else if self.ddspf.rgb_bit_count == 24 && self.ddspf.r_bit_mask == 0xFF0000 && self.ddspf.g_bit_mask == 0xFF00
            && self.ddspf.b_bit_mask == 0xFF && self.ddspf.a_bit_mask == 0x0 {
            DdsPixelFormatEnum::D3DFMT_R8G8B8
        } else if self.ddspf.rgb_bit_count == 16 && self.ddspf.r_bit_mask == 0x7C00 && self.ddspf.g_bit_mask == 0x3E0
            && self.ddspf.b_bit_mask == 0x1F && self.ddspf.a_bit_mask == 0x0 {
            DdsPixelFormatEnum::D3DFMT_X1R5G5B5
        } else if self.ddspf.rgb_bit_count == 16 && self.ddspf.r_bit_mask == 0xF00 && self.ddspf.g_bit_mask == 0xF0
            && self.ddspf.b_bit_mask == 0xF && self.ddspf.a_bit_mask == 0x0 {
            DdsPixelFormatEnum::D3DFMT_X4R4G4B4
        } else if self.ddspf.rgb_bit_count == 32 && self.ddspf.r_bit_mask == 0xFF && self.ddspf.g_bit_mask == 0xFF00
            && self.ddspf.b_bit_mask == 0xFF0000 && self.ddspf.a_bit_mask == 0x0 {
            DdsPixelFormatEnum::D3DFMT_X8B8G8R8
        } else if self.ddspf.rgb_bit_count == 32 && self.ddspf.r_bit_mask == 0xFF0000 && self.ddspf.g_bit_mask == 0xFF00
            && self.ddspf.b_bit_mask == 0xFF && self.ddspf.a_bit_mask == 0x0 {
            DdsPixelFormatEnum::D3DFMT_X8R8G8B8
        } else {
            DdsPixelFormatEnum::Unknown
        }
    }
}

} // verus!
