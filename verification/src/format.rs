//! The closed set of texture format tags.

use vstd::prelude::*;

verus! {

/// Byte layout and numeric interpretation of one texel.
#[derive(Clone, Copy, Debug, PartialEq, Eq, Structural)]
pub enum TextureFormat {
    R8Unorm,
    Rg8Unorm,
    Rgba8Unorm,
    Rgba8UnormSrgb,
    R8Uint,
    R16Uint,
    Rg16Uint,
    Rgba16Uint,
    R32Float,
    Rgba32Float,
}

impl TextureFormat {
    /// Number of bytes that one texel occupies.
    pub open spec fn texel_size(self) -> nat {
        match self {
            TextureFormat::R8Unorm => 1,
            TextureFormat::Rg8Unorm => 2,
            TextureFormat::Rgba8Unorm => 4,
            TextureFormat::Rgba8UnormSrgb => 4,
            TextureFormat::R8Uint => 1,
            TextureFormat::R16Uint => 2,
            TextureFormat::Rg16Uint => 4,
            TextureFormat::Rgba16Uint => 8,
            TextureFormat::R32Float => 4,
            TextureFormat::Rgba32Float => 16,
        }
    }

    /// The colour-space flag only selects between the two four-channel
    /// 8-bit unsigned-normalized tags.
    pub open spec fn rgba8(is_srgb: bool) -> TextureFormat {
        if is_srgb {
            TextureFormat::Rgba8UnormSrgb
        } else {
            TextureFormat::Rgba8Unorm
        }
    }

    /// The tags that can be turned back into a decoded image.
    pub open spec fn supported(self) -> bool {
        match self {
            TextureFormat::R8Unorm => true,
            TextureFormat::Rg8Unorm => true,
            TextureFormat::Rgba8Unorm => true,
            TextureFormat::Rgba8UnormSrgb => true,
            TextureFormat::R8Uint => true,
            TextureFormat::R32Float => true,
            _ => false,
        }
    }

    /// Number of bytes that one texel occupies.
    pub fn pixel_size(self) -> (n: usize)
        ensures
            n == self.texel_size(),
    {
        match self {
            TextureFormat::R8Unorm => 1,
            TextureFormat::Rg8Unorm => 2,
            TextureFormat::Rgba8Unorm => 4,
            TextureFormat::Rgba8UnormSrgb => 4,
            TextureFormat::R8Uint => 1,
            TextureFormat::R16Uint => 2,
            TextureFormat::Rg16Uint => 4,
            TextureFormat::Rgba16Uint => 8,
            TextureFormat::R32Float => 4,
            TextureFormat::Rgba32Float => 16,
        }
    }

    /// Tells whether a texture of this tag can be turned back into a
    /// decoded image.
    pub fn is_supported(self) -> (yes: bool)
        ensures
            yes == self.supported(),
    {
        match self {
            TextureFormat::R8Unorm => true,
            TextureFormat::Rg8Unorm => true,
            TextureFormat::Rgba8Unorm => true,
            TextureFormat::Rgba8UnormSrgb => true,
            TextureFormat::R8Uint => true,
            TextureFormat::R32Float => true,
            _ => false,
        }
    }

    /// The four-channel 8-bit tag for a colour-space flag.
    pub fn rgba8_for(is_srgb: bool) -> (format: TextureFormat)
        ensures
            format == TextureFormat::rgba8(is_srgb),
    {
        if is_srgb {
            TextureFormat::Rgba8UnormSrgb
        } else {
            TextureFormat::Rgba8Unorm
        }
    }
}

} // verus!
