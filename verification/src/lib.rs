//! Conversion between decoded images and GPU-oriented textures.
//!
//! A [`DecodedImage`] is a pixel buffer tagged by channel layout and sample
//! width; a [`GpuTexture`] is a raw byte buffer tagged by a [`TextureFormat`].
//! [`from_dynamic`] maps every decoded image to a texture, and
//! [`try_into_dynamic`] maps the textures of a few formats back.
//!
//! Multi-byte samples are laid out in little-endian byte order throughout.

pub mod convert;
pub mod decoded;
pub mod false_color;
pub mod format;
pub mod layout;
pub mod texture;

pub use convert::from_dynamic;
pub use convert::try_into_dynamic;
pub use decoded::DecodedImage;
pub use format::TextureFormat;
pub use texture::GpuTexture;
