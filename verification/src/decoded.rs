//! Decoded images: a sample buffer tagged by channel layout and sample width.

use crate::texture::has_len;
use vstd::prelude::*;

verus! {

/// A decoded image. Samples are row-major and channel-interleaved.
///
/// The fields are public, so a value need not be well formed; see
/// [`DecodedImage::well_formed`].
#[allow(inconsistent_fields)]
#[derive(Clone, Debug, PartialEq, Eq)]
pub enum DecodedImage {
    /// 8-bit gray.
    Luma8 { width: u32, height: u32, samples: Vec<u8> },
    /// 8-bit gray with alpha.
    LumaA8 { width: u32, height: u32, samples: Vec<u8> },
    /// 8-bit RGB.
    Rgb8 { width: u32, height: u32, samples: Vec<u8> },
    /// 8-bit RGBA.
    Rgba8 { width: u32, height: u32, samples: Vec<u8> },
    /// 16-bit gray.
    Luma16 { width: u32, height: u32, samples: Vec<u16> },
    /// 16-bit gray with alpha.
    LumaA16 { width: u32, height: u32, samples: Vec<u16> },
    /// 16-bit RGB.
    Rgb16 { width: u32, height: u32, samples: Vec<u16> },
    /// 16-bit RGBA.
    Rgba16 { width: u32, height: u32, samples: Vec<u16> },
    /// 32-bit float RGB; each sample is the IEEE 754 bit pattern of the float.
    Rgb32F { width: u32, height: u32, samples: Vec<u32> },
    /// 32-bit float RGBA; each sample is the IEEE 754 bit pattern of the float.
    Rgba32F { width: u32, height: u32, samples: Vec<u32> },
    /// Any other layout, held as the 8-bit RGBA rendering that its decoder gives.
    Other { width: u32, height: u32, samples: Vec<u8> },
}

/// What a [`DecodedImage`] holds, with the samples as a sequence.
#[allow(inconsistent_fields)]
pub enum DecodedView {
    Luma8 { width: u32, height: u32, samples: Seq<u8> },
    LumaA8 { width: u32, height: u32, samples: Seq<u8> },
    Rgb8 { width: u32, height: u32, samples: Seq<u8> },
    Rgba8 { width: u32, height: u32, samples: Seq<u8> },
    Luma16 { width: u32, height: u32, samples: Seq<u16> },
    LumaA16 { width: u32, height: u32, samples: Seq<u16> },
    Rgb16 { width: u32, height: u32, samples: Seq<u16> },
    Rgba16 { width: u32, height: u32, samples: Seq<u16> },
    Rgb32F { width: u32, height: u32, samples: Seq<u32> },
    Rgba32F { width: u32, height: u32, samples: Seq<u32> },
    Other { width: u32, height: u32, samples: Seq<u8> },
}

impl DecodedView {
    pub open spec fn width(self) -> u32 {
        match self {
            DecodedView::Luma8 { width, .. } => width,
            DecodedView::LumaA8 { width, .. } => width,
            DecodedView::Rgb8 { width, .. } => width,
            DecodedView::Rgba8 { width, .. } => width,
            DecodedView::Luma16 { width, .. } => width,
            DecodedView::LumaA16 { width, .. } => width,
            DecodedView::Rgb16 { width, .. } => width,
            DecodedView::Rgba16 { width, .. } => width,
            DecodedView::Rgb32F { width, .. } => width,
            DecodedView::Rgba32F { width, .. } => width,
            DecodedView::Other { width, .. } => width,
        }
    }

    pub open spec fn height(self) -> u32 {
        match self {
            DecodedView::Luma8 { height, .. } => height,
            DecodedView::LumaA8 { height, .. } => height,
            DecodedView::Rgb8 { height, .. } => height,
            DecodedView::Rgba8 { height, .. } => height,
            DecodedView::Luma16 { height, .. } => height,
            DecodedView::LumaA16 { height, .. } => height,
            DecodedView::Rgb16 { height, .. } => height,
            DecodedView::Rgba16 { height, .. } => height,
            DecodedView::Rgb32F { height, .. } => height,
            DecodedView::Rgba32F { height, .. } => height,
            DecodedView::Other { height, .. } => height,
        }
    }

    /// Samples per pixel.
    pub open spec fn channels(self) -> nat {
        match self {
            DecodedView::Luma8 { .. } => 1,
            DecodedView::LumaA8 { .. } => 2,
            DecodedView::Rgb8 { .. } => 3,
            DecodedView::Rgba8 { .. } => 4,
            DecodedView::Luma16 { .. } => 1,
            DecodedView::LumaA16 { .. } => 2,
            DecodedView::Rgb16 { .. } => 3,
            DecodedView::Rgba16 { .. } => 4,
            DecodedView::Rgb32F { .. } => 3,
            DecodedView::Rgba32F { .. } => 4,
            DecodedView::Other { .. } => 4,
        }
    }

    /// Number of samples in the buffer.
    pub open spec fn sample_count(self) -> nat {
        match self {
            DecodedView::Luma8 { samples, .. } => samples.len(),
            DecodedView::LumaA8 { samples, .. } => samples.len(),
            DecodedView::Rgb8 { samples, .. } => samples.len(),
            DecodedView::Rgba8 { samples, .. } => samples.len(),
            DecodedView::Luma16 { samples, .. } => samples.len(),
            DecodedView::LumaA16 { samples, .. } => samples.len(),
            DecodedView::Rgb16 { samples, .. } => samples.len(),
            DecodedView::Rgba16 { samples, .. } => samples.len(),
            DecodedView::Rgb32F { samples, .. } => samples.len(),
            DecodedView::Rgba32F { samples, .. } => samples.len(),
            DecodedView::Other { samples, .. } => samples.len(),
        }
    }

    /// The buffer holds exactly one run of samples per pixel.
    pub open spec fn well_formed(self) -> bool {
        self.sample_count() == self.width() * self.height() * self.channels()
    }
}

impl View for DecodedImage {
    type V = DecodedView;

    open spec fn view(&self) -> DecodedView {
        match self {
            DecodedImage::Luma8 { width, height, samples } => DecodedView::Luma8 {
                width: *width,
                height: *height,
                samples: samples@,
            },
            DecodedImage::LumaA8 { width, height, samples } => DecodedView::LumaA8 {
                width: *width,
                height: *height,
                samples: samples@,
            },
            DecodedImage::Rgb8 { width, height, samples } => DecodedView::Rgb8 {
                width: *width,
                height: *height,
                samples: samples@,
            },
            DecodedImage::Rgba8 { width, height, samples } => DecodedView::Rgba8 {
                width: *width,
                height: *height,
                samples: samples@,
            },
            DecodedImage::Luma16 { width, height, samples } => DecodedView::Luma16 {
                width: *width,
                height: *height,
                samples: samples@,
            },
            DecodedImage::LumaA16 { width, height, samples } => DecodedView::LumaA16 {
                width: *width,
                height: *height,
                samples: samples@,
            },
            DecodedImage::Rgb16 { width, height, samples } => DecodedView::Rgb16 {
                width: *width,
                height: *height,
                samples: samples@,
            },
            DecodedImage::Rgba16 { width, height, samples } => DecodedView::Rgba16 {
                width: *width,
                height: *height,
                samples: samples@,
            },
            DecodedImage::Rgb32F { width, height, samples } => DecodedView::Rgb32F {
                width: *width,
                height: *height,
                samples: samples@,
            },
            DecodedImage::Rgba32F { width, height, samples } => DecodedView::Rgba32F {
                width: *width,
                height: *height,
                samples: samples@,
            },
            DecodedImage::Other { width, height, samples } => DecodedView::Other {
                width: *width,
                height: *height,
                samples: samples@,
            },
        }
    }
}

impl DecodedImage {
    /// The buffer holds exactly one run of samples per pixel.
    pub open spec fn well_formed(&self) -> bool {
        self@.well_formed()
    }

    pub fn width(&self) -> (w: u32)
        ensures
            w == self@.width(),
    {
        match self {
            DecodedImage::Luma8 { width, .. } => *width,
            DecodedImage::LumaA8 { width, .. } => *width,
            DecodedImage::Rgb8 { width, .. } => *width,
            DecodedImage::Rgba8 { width, .. } => *width,
            DecodedImage::Luma16 { width, .. } => *width,
            DecodedImage::LumaA16 { width, .. } => *width,
            DecodedImage::Rgb16 { width, .. } => *width,
            DecodedImage::Rgba16 { width, .. } => *width,
            DecodedImage::Rgb32F { width, .. } => *width,
            DecodedImage::Rgba32F { width, .. } => *width,
            DecodedImage::Other { width, .. } => *width,
        }
    }

    pub fn height(&self) -> (h: u32)
        ensures
            h == self@.height(),
    {
        match self {
            DecodedImage::Luma8 { height, .. } => *height,
            DecodedImage::LumaA8 { height, .. } => *height,
            DecodedImage::Rgb8 { height, .. } => *height,
            DecodedImage::Rgba8 { height, .. } => *height,
            DecodedImage::Luma16 { height, .. } => *height,
            DecodedImage::LumaA16 { height, .. } => *height,
            DecodedImage::Rgb16 { height, .. } => *height,
            DecodedImage::Rgba16 { height, .. } => *height,
            DecodedImage::Rgb32F { height, .. } => *height,
            DecodedImage::Rgba32F { height, .. } => *height,
            DecodedImage::Other { height, .. } => *height,
        }
    }

    /// Samples per pixel.
    pub fn channels(&self) -> (n: usize)
        ensures
            n == self@.channels(),
    {
        match self {
            DecodedImage::Luma8 { .. } => 1,
            DecodedImage::LumaA8 { .. } => 2,
            DecodedImage::Rgb8 { .. } => 3,
            DecodedImage::Rgba8 { .. } => 4,
            DecodedImage::Luma16 { .. } => 1,
            DecodedImage::LumaA16 { .. } => 2,
            DecodedImage::Rgb16 { .. } => 3,
            DecodedImage::Rgba16 { .. } => 4,
            DecodedImage::Rgb32F { .. } => 3,
            DecodedImage::Rgba32F { .. } => 4,
            DecodedImage::Other { .. } => 4,
        }
    }

    /// Number of samples in the buffer.
    pub fn sample_count(&self) -> (n: usize)
        ensures
            n == self@.sample_count(),
    {
        match self {
            DecodedImage::Luma8 { samples, .. } => samples.len(),
            DecodedImage::LumaA8 { samples, .. } => samples.len(),
            DecodedImage::Rgb8 { samples, .. } => samples.len(),
            DecodedImage::Rgba8 { samples, .. } => samples.len(),
            DecodedImage::Luma16 { samples, .. } => samples.len(),
            DecodedImage::LumaA16 { samples, .. } => samples.len(),
            DecodedImage::Rgb16 { samples, .. } => samples.len(),
            DecodedImage::Rgba16 { samples, .. } => samples.len(),
            DecodedImage::Rgb32F { samples, .. } => samples.len(),
            DecodedImage::Rgba32F { samples, .. } => samples.len(),
            DecodedImage::Other { samples, .. } => samples.len(),
        }
    }

    /// Tells whether the buffer holds exactly one run of samples per pixel.
    pub fn is_well_formed(&self) -> (ok: bool)
        ensures
            ok == self.well_formed(),
    {
        has_len(self.sample_count(), self.width(), self.height(), self.channels())
    }
}

} // verus!
