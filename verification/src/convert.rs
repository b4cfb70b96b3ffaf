//! The two converters, and what holds between them.

use crate::decoded::DecodedImage;
use crate::decoded::DecodedView;
use crate::false_color::false_color;
use crate::false_color::render_false_color;
use crate::format::TextureFormat;
use crate::layout::bytes_of_u16;
use crate::layout::bytes_of_u32;
use crate::layout::expand_luma;
use crate::layout::keep_visible;
use crate::layout::visible;
use crate::layout::visible_of_exact_buffer;
use crate::layout::visible_pixels;
use crate::layout::expand_luma_alpha;
use crate::layout::le_bytes_u16;
use crate::layout::le_bytes_u32;
use crate::layout::luma_alpha_to_rgba;
use crate::layout::luma_to_rgba;
use crate::layout::pad_alpha;
use crate::layout::pad_with_alpha;
use crate::texture::GpuTexture;
use crate::texture::TextureView;
use vstd::prelude::*;

verus! {

/// Alpha sample that pads an 8-bit RGB pixel.
pub const ALPHA_FILL_8: u8 = 0xFF;

/// Alpha sample that pads a 16-bit RGB pixel.
pub const ALPHA_FILL_16: u16 = 0xFFFF;

/// Alpha lane that pads a 32-bit float RGB pixel: the 16-bit maximum in the
/// low half of the lane, which is not the bit pattern of the float 1.0.
pub const ALPHA_FILL_32: u32 = 0x0000_FFFF;

/// The texture that a decoded image becomes.
///
/// The three 8-bit layouts that are expanded pixel by pixel give one texel
/// for each pixel that the image shows; the others convert their whole
/// buffer. The colour-space flag matters for the four known 8-bit layouts only; an
/// image of any other layout is taken by its RGBA rendering and always
/// tagged as sRGB.
pub open spec fn forward(image: DecodedView, is_srgb: bool) -> TextureView {
    match image {
        DecodedView::Luma8 { width, height, samples } => TextureView {
            width,
            height,
            format: TextureFormat::rgba8(is_srgb),
            data: luma_to_rgba(visible(samples, width, height, 1)),
        },
        DecodedView::LumaA8 { width, height, samples } => TextureView {
            width,
            height,
            format: TextureFormat::rgba8(is_srgb),
            data: luma_alpha_to_rgba(visible(samples, width, height, 2)),
        },
        DecodedView::Rgb8 { width, height, samples } => TextureView {
            width,
            height,
            format: TextureFormat::rgba8(is_srgb),
            data: pad_alpha(visible(samples, width, height, 3), ALPHA_FILL_8),
        },
        DecodedView::Rgba8 { width, height, samples } => TextureView {
            width,
            height,
            format: TextureFormat::rgba8(is_srgb),
            data: samples,
        },
        DecodedView::Luma16 { width, height, samples } => TextureView {
            width,
            height,
            format: TextureFormat::R16Uint,
            data: le_bytes_u16(samples),
        },
        DecodedView::LumaA16 { width, height, samples } => TextureView {
            width,
            height,
            format: TextureFormat::Rg16Uint,
            data: le_bytes_u16(samples),
        },
        DecodedView::Rgb16 { width, height, samples } => TextureView {
            width,
            height,
            format: TextureFormat::Rgba16Uint,
            data: le_bytes_u16(pad_alpha(samples, ALPHA_FILL_16)),
        },
        DecodedView::Rgba16 { width, height, samples } => TextureView {
            width,
            height,
            format: TextureFormat::Rgba16Uint,
            data: le_bytes_u16(samples),
        },
        DecodedView::Rgb32F { width, height, samples } => TextureView {
            width,
            height,
            format: TextureFormat::Rgba32Float,
            data: le_bytes_u32(pad_alpha(samples, ALPHA_FILL_32)),
        },
        DecodedView::Rgba32F { width, height, samples } => TextureView {
            width,
            height,
            format: TextureFormat::Rgba32Float,
            data: le_bytes_u32(samples),
        },
        DecodedView::Other { width, height, samples } => TextureView {
            width,
            height,
            format: TextureFormat::Rgba8UnormSrgb,
            data: samples,
        },
    }
}

/// The decoded image and colour-space flag that a texture gives back, if any.
///
/// There is none when the tag is not supported, or when the buffer does not
/// hold exactly one texel per pixel.
pub open spec fn backward(texture: TextureView) -> Option<(DecodedView, bool)> {
    let width = texture.width;
    let height = texture.height;
    if !texture.well_formed() {
        None
    } else {
        match texture.format {
            TextureFormat::R8Unorm => Some(
                (DecodedView::Luma8 { width, height, samples: texture.data }, false),
            ),
            TextureFormat::Rg8Unorm => Some(
                (DecodedView::LumaA8 { width, height, samples: texture.data }, false),
            ),
            TextureFormat::Rgba8UnormSrgb => Some(
                (DecodedView::Rgba8 { width, height, samples: texture.data }, true),
            ),
            TextureFormat::Rgba8Unorm => Some(
                (DecodedView::Rgba8 { width, height, samples: texture.data }, false),
            ),
            TextureFormat::R8Uint => Some(
                (DecodedView::Rgba8 { width, height, samples: luma_to_rgba(texture.data) }, false),
            ),
            TextureFormat::R32Float => Some(
                (DecodedView::Rgba8 { width, height, samples: false_color(texture.data) }, false),
            ),
            _ => None,
        }
    }
}

/// Converts a decoded image to a texture. Every image converts.
pub fn from_dynamic(image: DecodedImage, is_srgb: bool) -> (texture: GpuTexture)
    ensures
        texture@ == forward(image@, is_srgb),
        image.well_formed() ==> texture.well_formed(),
{
    proof {
        if image.well_formed() {
            forward_keeps_well_formed(image@, is_srgb);
        }
    }
    match image {
        DecodedImage::Luma8 { width, height, samples } => {
            let mut shown = samples;
            keep_visible(&mut shown, width, height, 1);
            GpuTexture {
                width,
                height,
                format: TextureFormat::rgba8_for(is_srgb),
                data: expand_luma(&shown),
            }
        },
        DecodedImage::LumaA8 { width, height, samples } => {
            let mut shown = samples;
            keep_visible(&mut shown, width, height, 2);
            GpuTexture {
                width,
                height,
                format: TextureFormat::rgba8_for(is_srgb),
                data: expand_luma_alpha(&shown),
            }
        },
        DecodedImage::Rgb8 { width, height, samples } => {
            let mut shown = samples;
            keep_visible(&mut shown, width, height, 3);
            GpuTexture {
                width,
                height,
                format: TextureFormat::rgba8_for(is_srgb),
                data: pad_with_alpha(&shown, ALPHA_FILL_8),
            }
        },
        DecodedImage::Rgba8 { width, height, samples } => GpuTexture {
            width,
            height,
            format: TextureFormat::rgba8_for(is_srgb),
            data: samples,
        },
        DecodedImage::Luma16 { width, height, samples } => GpuTexture {
            width,
            height,
            format: TextureFormat::R16Uint,
            data: bytes_of_u16(&samples),
        },
        DecodedImage::LumaA16 { width, height, samples } => GpuTexture {
            width,
            height,
            format: TextureFormat::Rg16Uint,
            data: bytes_of_u16(&samples),
        },
        DecodedImage::Rgb16 { width, height, samples } => {
            let padded = pad_with_alpha(&samples, ALPHA_FILL_16);
            GpuTexture { width, height, format: TextureFormat::Rgba16Uint, data: bytes_of_u16(&padded) }
        },
        DecodedImage::Rgba16 { width, height, samples } => GpuTexture {
            width,
            height,
            format: TextureFormat::Rgba16Uint,
            data: bytes_of_u16(&samples),
        },
        DecodedImage::Rgb32F { width, height, samples } => {
            let padded = pad_with_alpha(&samples, ALPHA_FILL_32);
            GpuTexture { width, height, format: TextureFormat::Rgba32Float, data: bytes_of_u32(&padded) }
        },
        DecodedImage::Rgba32F { width, height, samples } => GpuTexture {
            width,
            height,
            format: TextureFormat::Rgba32Float,
            data: bytes_of_u32(&samples),
        },
        DecodedImage::Other { width, height, samples } => GpuTexture {
            width,
            height,
            format: TextureFormat::Rgba8UnormSrgb,
            data: samples,
        },
    }
}

/// Converts a texture back to a decoded image and its colour-space flag.
///
/// Gives `None` for a tag that is not supported and for a buffer of the
/// wrong length.
pub fn try_into_dynamic(texture: &GpuTexture) -> (result: Option<(DecodedImage, bool)>)
    ensures
        match result {
            Some((image, is_srgb)) => backward(texture@) == Some((image@, is_srgb)),
            None => backward(texture@) is None,
        },
        result is Some <==> texture.format.supported() && texture.well_formed(),
        result matches Some((image, _)) ==> image.well_formed(),
{
    proof {
        backward_keeps_well_formed(texture@);
    }
    if !texture.format.is_supported() || !texture.is_well_formed() {
        return None;
    }
    let width = texture.width;
    let height = texture.height;
    match texture.format {
        TextureFormat::R8Unorm => Some(
            (DecodedImage::Luma8 { width, height, samples: texture.data.clone() }, false),
        ),
        TextureFormat::Rg8Unorm => Some(
            (DecodedImage::LumaA8 { width, height, samples: texture.data.clone() }, false),
        ),
        TextureFormat::Rgba8UnormSrgb => Some(
            (DecodedImage::Rgba8 { width, height, samples: texture.data.clone() }, true),
        ),
        TextureFormat::Rgba8Unorm => Some(
            (DecodedImage::Rgba8 { width, height, samples: texture.data.clone() }, false),
        ),
        TextureFormat::R8Uint => Some(
            (DecodedImage::Rgba8 { width, height, samples: expand_luma(&texture.data) }, false),
        ),
        TextureFormat::R32Float => Some(
            (
                DecodedImage::Rgba8 { width, height, samples: render_false_color(&texture.data) },
                false,
            ),
        ),
        _ => None,
    }
}

/// A well-formed image becomes a well-formed texture: the buffer holds
/// width × height texels of the size that the output tag gives.
pub proof fn forward_keeps_well_formed(image: DecodedView, is_srgb: bool)
    requires
        image.well_formed(),
    ensures
        forward(image, is_srgb).well_formed(),
        forward(image, is_srgb).data.len() == image.width() * image.height() * forward(
            image,
            is_srgb,
        ).format.texel_size(),
{
}

/// Whatever image a texture gives back is well formed, with the texture's
/// dimensions.
pub proof fn backward_keeps_well_formed(texture: TextureView)
    ensures
        backward(texture) matches Some((image, _)) ==> {
            &&& image.well_formed()
            &&& image.width() == texture.width
            &&& image.height() == texture.height
        },
        backward(texture) is Some <==> texture.format.supported() && texture.well_formed(),
{
}

/// A well-formed four-channel 8-bit unsigned-normalized texture, turned into
/// a decoded image and back with the flag that came out, is the same texture.
pub proof fn round_trip_rgba8(texture: TextureView)
    requires
        texture.well_formed(),
        texture.format == TextureFormat::Rgba8Unorm || texture.format
            == TextureFormat::Rgba8UnormSrgb,
    ensures
        backward(texture) is Some,
        forward(backward(texture).unwrap().0, backward(texture).unwrap().1) == texture,
{
}

/// A well-formed one- or two-channel 8-bit unsigned-normalized texture comes
/// back from the round trip as a linear four-channel texture of the same
/// size, holding the expansion of its bytes.
pub proof fn round_trip_gray_expands(texture: TextureView)
    requires
        texture.well_formed(),
        texture.format == TextureFormat::R8Unorm || texture.format == TextureFormat::Rg8Unorm,
    ensures
        backward(texture) is Some,
        forward(backward(texture).unwrap().0, backward(texture).unwrap().1) == (TextureView {
            width: texture.width,
            height: texture.height,
            format: TextureFormat::Rgba8Unorm,
            data: if texture.format == TextureFormat::R8Unorm {
                luma_to_rgba(texture.data)
            } else {
                luma_alpha_to_rgba(texture.data)
            },
        }),
{
    if texture.format == TextureFormat::R8Unorm {
        visible_of_exact_buffer(texture.data, texture.width, texture.height, 1);
    } else {
        visible_of_exact_buffer(texture.data, texture.width, texture.height, 2);
    }
}

/// A well-formed 8-bit RGBA image, turned into a texture and back, is the
/// same image with the same flag.
pub proof fn round_trip_image_rgba8(width: u32, height: u32, samples: Seq<u8>, is_srgb: bool)
    requires
        (DecodedView::Rgba8 { width, height, samples }).well_formed(),
    ensures
        backward(forward(DecodedView::Rgba8 { width, height, samples }, is_srgb)) == Some(
            (DecodedView::Rgba8 { width, height, samples }, is_srgb),
        ),
{
}

/// In the texture of a three-channel image, the alpha of every texel is the
/// fill value of its sample width, in little-endian bytes.
pub proof fn padded_alpha_is_fill(image: DecodedView, is_srgb: bool, pixel: int)
    requires
        0 <= pixel < forward(image, is_srgb).data.len() / forward(
            image,
            is_srgb,
        ).format.texel_size(),
    ensures
        image is Rgb8 ==> forward(image, is_srgb).data[4 * pixel + 3] == 0xFF,
        image is Rgb16 ==> {
            &&& forward(image, is_srgb).data[8 * pixel + 6] == 0xFF
            &&& forward(image, is_srgb).data[8 * pixel + 7] == 0xFF
        },
        image is Rgb32F ==> {
            &&& forward(image, is_srgb).data[16 * pixel + 12] == 0xFF
            &&& forward(image, is_srgb).data[16 * pixel + 13] == 0xFF
            &&& forward(image, is_srgb).data[16 * pixel + 14] == 0
            &&& forward(image, is_srgb).data[16 * pixel + 15] == 0
        },
{
}

/// An image of one of the three expanded layouts gives four bytes for
/// each pixel that it shows, so never more than width × height texels.
pub proof fn expanded_layouts_show_the_image_only(image: DecodedView, is_srgb: bool)
    requires
        image is Luma8 || image is LumaA8 || image is Rgb8,
    ensures
        forward(image, is_srgb).data.len() == 4 * visible_pixels(
            image.sample_count(),
            image.width(),
            image.height(),
            image.channels(),
        ),
        forward(image, is_srgb).data.len() <= 4 * (image.width() * image.height()),
{
}

/// The colour channels of a padded pixel are the three samples it came from.
pub proof fn padding_keeps_color<T>(samples: Seq<T>, fill: T, pixel: int, channel: int)
    requires
        0 <= pixel < samples.len() / 3,
        0 <= channel < 3,
    ensures
        pad_alpha(samples, fill).len() == 4 * (samples.len() / 3),
        pad_alpha(samples, fill)[4 * pixel + channel] == samples[3 * pixel + channel],
        pad_alpha(samples, fill)[4 * pixel + 3] == fill,
{
}

/// An image of a layout outside the ten known ones is tagged as sRGB,
/// whatever flag the caller gives, and keeps its RGBA bytes.
pub proof fn other_layout_is_srgb(width: u32, height: u32, samples: Seq<u8>, is_srgb: bool)
    ensures
        forward(DecodedView::Other { width, height, samples }, is_srgb) == (TextureView {
            width,
            height,
            format: TextureFormat::Rgba8UnormSrgb,
            data: samples,
        }),
{
}

/// A tag outside the supported six gives nothing back, whatever the buffer.
pub proof fn unsupported_gives_nothing(texture: TextureView)
    requires
        !texture.format.supported(),
    ensures
        backward(texture) is None,
{
}

} // verus!
