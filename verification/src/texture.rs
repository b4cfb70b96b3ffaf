//! A single two-dimensional texture: raw bytes under a format tag.

use crate::format::TextureFormat;
use vstd::prelude::*;

verus! {

/// Raw texel bytes, row-major, with their dimensions and format tag.
///
/// The fields are public, so a value need not be well formed; see
/// [`GpuTexture::well_formed`].
#[derive(Clone, Debug, PartialEq, Eq)]
pub struct GpuTexture {
    pub width: u32,
    pub height: u32,
    pub format: TextureFormat,
    pub data: Vec<u8>,
}

/// What a [`GpuTexture`] holds, with the bytes as a sequence.
pub struct TextureView {
    pub width: u32,
    pub height: u32,
    pub format: TextureFormat,
    pub data: Seq<u8>,
}

impl TextureView {
    /// Number of bytes that the dimensions and the tag call for.
    pub open spec fn expected_len(self) -> nat {
        (self.width * self.height * self.format.texel_size()) as nat
    }

    /// The buffer holds exactly one texel per pixel.
    pub open spec fn well_formed(self) -> bool {
        self.data.len() == self.expected_len()
    }
}

impl View for GpuTexture {
    type V = TextureView;

    open spec fn view(&self) -> TextureView {
        TextureView { width: self.width, height: self.height, format: self.format, data: self.data@ }
    }
}

impl GpuTexture {
    /// The buffer holds exactly one texel per pixel.
    pub open spec fn well_formed(&self) -> bool {
        self@.well_formed()
    }

    /// Builds a texture from a buffer of the right length.
    pub fn new(width: u32, height: u32, format: TextureFormat, data: Vec<u8>) -> (texture: GpuTexture)
        requires
            data@.len() == width * height * format.texel_size(),
        ensures
            texture@ == (TextureView { width, height, format, data: data@ }),
            texture.well_formed(),
    {
        GpuTexture { width, height, format, data }
    }

    /// Tells whether the buffer holds exactly one texel per pixel.
    pub fn is_well_formed(&self) -> (ok: bool)
        ensures
            ok == self.well_formed(),
    {
        has_len(self.data.len(), self.width, self.height, self.format.pixel_size())
    }
}

/// Tells whether `len == width * height * unit`, without overflow.
pub fn has_len(len: usize, width: u32, height: u32, unit: usize) -> (ok: bool)
    ensures
        ok == (len == width * height * unit),
{
    let w: u128 = width as u128;
    let h: u128 = height as u128;
    let u: u128 = unit as u128;
    assert(w * h <= 0xFFFF_FFFF * 0xFFFF_FFFF) by (nonlinear_arith)
        requires
            w <= 0xFFFF_FFFF,
            h <= 0xFFFF_FFFF,
    ;
    let area: u128 = w * h;
    assert(area * u <= 0xFFFF_FFFF * 0xFFFF_FFFF * 0xFFFF_FFFF_FFFF_FFFF) by (nonlinear_arith)
        requires
            area <= 0xFFFF_FFFF * 0xFFFF_FFFF,
            u <= 0xFFFF_FFFF_FFFF_FFFF,
    ;
    area * u == len as u128
}

} // verus!
