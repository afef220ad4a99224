//! Texel formats and what the image logic reads of them.

use vstd::prelude::*;

verus! {

/// The texel formats that an image can be created with.
#[allow(non_camel_case_types)]
#[derive(Clone, Copy, Debug, PartialEq, Eq, Structural, Hash)]
pub enum Format {
    R8_UNORM,
    R8G8_UNORM,
    R8G8B8A8_UNORM,
    R8G8B8A8_SRGB,
    B8G8R8A8_UNORM,
    R16G16B16A16_UNORM,
    R32_UINT,
    D16_UNORM,
    S8_UINT,
    D16_UNORM_S8_UINT,
    D24_UNORM_S8_UINT,
    BC1_RGB_UNORM_BLOCK,
    BC7_UNORM_BLOCK,
    ETC2_R8G8B8_UNORM_BLOCK,
    ASTC_4x4_UNORM_BLOCK,
}

/// The block compression scheme of a format.
#[derive(Clone, Copy, Debug, PartialEq, Eq, Structural, Hash)]
pub enum CompressionType {
    BC,
    ETC2,
    ASTC,
}

/// The aspects (colour, depth, stencil) that a format's texels have.
#[derive(Clone, Copy, Debug, PartialEq, Eq, Structural, Hash)]
pub struct ImageAspects {
    pub color: bool,
    pub depth: bool,
    pub stencil: bool,
}

impl ImageAspects {
    /// Whether the two sets share an aspect.
    pub open spec fn spec_intersects(self, other: ImageAspects) -> bool {
        (self.color && other.color) || (self.depth && other.depth) || (self.stencil
            && other.stencil)
    }

    /// Whether the two sets share an aspect.
    #[verifier::when_used_as_spec(spec_intersects)]
    pub fn intersects(self, other: ImageAspects) -> (b: bool)
        ensures
            b == self.spec_intersects(other),
    {
        (self.color && other.color) || (self.depth && other.depth) || (self.stencil
            && other.stencil)
    }
}

impl Format {
    /// Whether the format stores depth values.
    pub open spec fn has_depth(self) -> bool {
        self == Format::D16_UNORM || self == Format::D16_UNORM_S8_UINT || self
            == Format::D24_UNORM_S8_UINT
    }

    /// Whether the format stores stencil values.
    pub open spec fn has_stencil(self) -> bool {
        self == Format::S8_UINT || self == Format::D16_UNORM_S8_UINT || self
            == Format::D24_UNORM_S8_UINT
    }

    /// The aspects of the format: depth and stencil as stored, colour otherwise.
    pub open spec fn spec_aspects(self) -> ImageAspects {
        ImageAspects {
            color: !self.has_depth() && !self.has_stencil(),
            depth: self.has_depth(),
            stencil: self.has_stencil(),
        }
    }

    /// Whether the format belongs to the depth/stencil class rather than the colour class.
    pub open spec fn is_depth_stencil(self) -> bool {
        self.has_depth() || self.has_stencil()
    }

    /// The compression scheme of a block format; `None` for an uncompressed one.
    pub open spec fn spec_compression(self) -> Option<CompressionType> {
        match self {
            Format::BC1_RGB_UNORM_BLOCK | Format::BC7_UNORM_BLOCK => Some(CompressionType::BC),
            Format::ETC2_R8G8B8_UNORM_BLOCK => Some(CompressionType::ETC2),
            Format::ASTC_4x4_UNORM_BLOCK => Some(CompressionType::ASTC),
            _ => None,
        }
    }

    /// The aspects of the format.
    #[verifier::when_used_as_spec(spec_aspects)]
    pub fn aspects(self) -> (a: ImageAspects)
        ensures
            a == self.spec_aspects(),
    {
        match self {
            Format::D16_UNORM => ImageAspects { color: false, depth: true, stencil: false },
            Format::S8_UINT => ImageAspects { color: false, depth: false, stencil: true },
            Format::D16_UNORM_S8_UINT | Format::D24_UNORM_S8_UINT => ImageAspects {
                color: false,
                depth: true,
                stencil: true,
            },
            _ => ImageAspects { color: true, depth: false, stencil: false },
        }
    }

    /// The compression scheme of the format, if it is a block format.
    #[verifier::when_used_as_spec(spec_compression)]
    pub fn compression(self) -> (c: Option<CompressionType>)
        ensures
            c == self.spec_compression(),
    {
        match self {
            Format::BC1_RGB_UNORM_BLOCK | Format::BC7_UNORM_BLOCK => Some(CompressionType::BC),
            Format::ETC2_R8G8B8_UNORM_BLOCK => Some(CompressionType::ETC2),
            Format::ASTC_4x4_UNORM_BLOCK => Some(CompressionType::ASTC),
            _ => None,
        }
    }
}

} // verus!
