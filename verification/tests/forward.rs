use image_texture_conversion::decoded::DecodedImage;
use image_texture_conversion::format::TextureFormat;
use image_texture_conversion::from_dynamic;
use image_texture_conversion::texture::has_len;
use image_texture_conversion::texture::GpuTexture;

fn texel_bytes(texture: &GpuTexture) -> usize {
    texture.width as usize * texture.height as usize * texture.format.pixel_size()
}

#[test]
fn rgb8_two_pixels_linear() {
    let image = DecodedImage::Rgb8 { width: 2, height: 1, samples: vec![255, 0, 0, 0, 255, 0] };
    let texture = from_dynamic(image, false);
    assert_eq!(texture.format, TextureFormat::Rgba8Unorm);
    assert_eq!(texture.width, 2);
    assert_eq!(texture.height, 1);
    assert_eq!(texture.data, vec![255, 0, 0, 255, 0, 255, 0, 255]);
}

#[test]
fn rgb8_srgb_flag_selects_srgb_tag() {
    let image = DecodedImage::Rgb8 { width: 1, height: 1, samples: vec![1, 2, 3] };
    let texture = from_dynamic(image, true);
    assert_eq!(texture.format, TextureFormat::Rgba8UnormSrgb);
    assert_eq!(texture.data, vec![1, 2, 3, 255]);
}

#[test]
fn luma8_expands_to_opaque_gray() {
    let image = DecodedImage::Luma8 { width: 3, height: 1, samples: vec![0, 7, 200] };
    let texture = from_dynamic(image, false);
    assert_eq!(texture.format, TextureFormat::Rgba8Unorm);
    assert_eq!(texture.data, vec![0, 0, 0, 255, 7, 7, 7, 255, 200, 200, 200, 255]);
    assert!(texture.is_well_formed());
}

#[test]
fn luma_alpha8_keeps_alpha() {
    let image = DecodedImage::LumaA8 { width: 1, height: 2, samples: vec![9, 0, 100, 42] };
    let texture = from_dynamic(image, true);
    assert_eq!(texture.format, TextureFormat::Rgba8UnormSrgb);
    assert_eq!(texture.data, vec![9, 9, 9, 0, 100, 100, 100, 42]);
    assert!(texture.is_well_formed());
}

#[test]
fn rgba8_is_identity() {
    let samples = vec![1, 2, 3, 4, 5, 6, 7, 8];
    let image = DecodedImage::Rgba8 { width: 2, height: 1, samples: samples.clone() };
    let linear = from_dynamic(image.clone(), false);
    let srgb = from_dynamic(image, true);
    assert_eq!(linear.format, TextureFormat::Rgba8Unorm);
    assert_eq!(srgb.format, TextureFormat::Rgba8UnormSrgb);
    assert_eq!(linear.data, samples);
    assert_eq!(srgb.data, samples);
}

#[test]
fn luma16_is_little_endian() {
    let image = DecodedImage::Luma16 { width: 2, height: 1, samples: vec![0x1234, 0xFF00] };
    let texture = from_dynamic(image, true);
    assert_eq!(texture.format, TextureFormat::R16Uint);
    assert_eq!(texture.data, vec![0x34, 0x12, 0x00, 0xFF]);
    assert_eq!(texture.data.len(), texel_bytes(&texture));
}

#[test]
fn luma_alpha16_is_two_channel() {
    let image = DecodedImage::LumaA16 { width: 1, height: 1, samples: vec![1, 0xABCD] };
    let texture = from_dynamic(image, false);
    assert_eq!(texture.format, TextureFormat::Rg16Uint);
    assert_eq!(texture.data, vec![1, 0, 0xCD, 0xAB]);
    assert_eq!(texture.data.len(), texel_bytes(&texture));
}

#[test]
fn rgb16_is_padded_with_max_alpha() {
    let image =
        DecodedImage::Rgb16 { width: 2, height: 1, samples: vec![1, 2, 3, 0x0102, 0, 65535] };
    let texture = from_dynamic(image, false);
    assert_eq!(texture.format, TextureFormat::Rgba16Uint);
    assert_eq!(
        texture.data,
        vec![1, 0, 2, 0, 3, 0, 255, 255, 0x02, 0x01, 0, 0, 255, 255, 255, 255]
    );
    assert_eq!(texture.data.len(), texel_bytes(&texture));
}

#[test]
fn rgba16_is_reinterpreted() {
    let image = DecodedImage::Rgba16 { width: 1, height: 1, samples: vec![0x0A0B, 1, 2, 0] };
    let texture = from_dynamic(image, true);
    assert_eq!(texture.format, TextureFormat::Rgba16Uint);
    assert_eq!(texture.data, vec![0x0B, 0x0A, 1, 0, 2, 0, 0, 0]);
    assert_eq!(texture.data.len(), texel_bytes(&texture));
}

#[test]
fn rgb32f_alpha_lane_holds_the_16_bit_maximum() {
    let samples = vec![1.0f32.to_bits(), 0.5f32.to_bits(), (-2.0f32).to_bits()];
    let image = DecodedImage::Rgb32F { width: 1, height: 1, samples };
    let texture = from_dynamic(image, false);
    assert_eq!(texture.format, TextureFormat::Rgba32Float);
    let mut expected = Vec::new();
    expected.extend_from_slice(&1.0f32.to_le_bytes());
    expected.extend_from_slice(&0.5f32.to_le_bytes());
    expected.extend_from_slice(&(-2.0f32).to_le_bytes());
    expected.extend_from_slice(&[0xFF, 0xFF, 0x00, 0x00]);
    assert_eq!(texture.data, expected);
    assert_eq!(texture.data.len(), 16);
    assert_eq!(texture.data.len(), texel_bytes(&texture));
}

#[test]
fn rgba32f_is_reinterpreted() {
    let values = [0.25f32, -1.5, 3.0e10, 1.0];
    let samples: Vec<u32> = values.iter().map(|v| v.to_bits()).collect();
    let image = DecodedImage::Rgba32F { width: 1, height: 1, samples };
    let texture = from_dynamic(image, true);
    assert_eq!(texture.format, TextureFormat::Rgba32Float);
    let mut expected = Vec::new();
    for v in values {
        expected.extend_from_slice(&v.to_le_bytes());
    }
    assert_eq!(texture.data, expected);
    assert_eq!(texture.data.len(), texel_bytes(&texture));
}

#[test]
fn other_layout_is_always_srgb() {
    for is_srgb in [false, true] {
        for (width, height) in [(0u32, 0u32), (1, 1), (2, 3)] {
            let samples: Vec<u8> = (0..width * height * 4).map(|i| i as u8).collect();
            let image = DecodedImage::Other { width, height, samples: samples.clone() };
            let texture = from_dynamic(image, is_srgb);
            assert_eq!(texture.format, TextureFormat::Rgba8UnormSrgb);
            assert_eq!(texture.width, width);
            assert_eq!(texture.height, height);
            assert_eq!(texture.data, samples);
            assert!(texture.is_well_formed());
        }
    }
}

#[test]
fn wide_layouts_fill_width_times_height_texels() {
    let (width, height) = (3u32, 2u32);
    let n = (width * height) as usize;
    let images = vec![
        DecodedImage::Luma16 { width, height, samples: vec![7; n] },
        DecodedImage::LumaA16 { width, height, samples: vec![7; 2 * n] },
        DecodedImage::Rgb16 { width, height, samples: vec![7; 3 * n] },
        DecodedImage::Rgba16 { width, height, samples: vec![7; 4 * n] },
        DecodedImage::Rgb32F { width, height, samples: vec![7; 3 * n] },
        DecodedImage::Rgba32F { width, height, samples: vec![7; 4 * n] },
    ];
    let sizes = [2usize, 4, 8, 8, 16, 16];
    for (image, size) in images.into_iter().zip(sizes) {
        assert!(image.is_well_formed());
        let texture = from_dynamic(image, false);
        assert_eq!(texture.format.pixel_size(), size);
        assert_eq!(texture.data.len(), n * size);
        assert!(texture.is_well_formed());
    }
}

#[test]
fn three_channel_alpha_is_never_zero() {
    let (width, height) = (4u32, 3u32);
    let n = (width * height) as usize;
    let rgb8 = from_dynamic(DecodedImage::Rgb8 { width, height, samples: vec![0; 3 * n] }, false);
    let rgb16 = from_dynamic(DecodedImage::Rgb16 { width, height, samples: vec![0; 3 * n] }, false);
    let rgb32 = from_dynamic(DecodedImage::Rgb32F { width, height, samples: vec![0; 3 * n] }, false);
    for p in 0..n {
        assert_eq!(rgb8.data[4 * p + 3], 255);
        assert_eq!(&rgb8.data[4 * p..4 * p + 3], &[0, 0, 0]);
        assert_eq!(&rgb16.data[8 * p + 6..8 * p + 8], &[255, 255]);
        assert_eq!(&rgb16.data[8 * p..8 * p + 6], &[0; 6]);
        assert_eq!(&rgb32.data[16 * p + 12..16 * p + 16], &[255, 255, 0, 0]);
        assert_eq!(&rgb32.data[16 * p..16 * p + 12], &[0; 12]);
    }
}

#[test]
fn empty_images_give_empty_textures() {
    let texture = from_dynamic(DecodedImage::Rgb16 { width: 0, height: 5, samples: vec![] }, false);
    assert_eq!(texture.data, Vec::<u8>::new());
    assert_eq!(texture.width, 0);
    assert_eq!(texture.height, 5);
    assert!(texture.is_well_formed());
}

#[test]
fn trailing_samples_of_a_partial_pixel_are_dropped() {
    let rgb = from_dynamic(DecodedImage::Rgb8 { width: 1, height: 1, samples: vec![1, 2, 3, 4] }, false);
    assert_eq!(rgb.data, vec![1, 2, 3, 255]);
    let la = from_dynamic(DecodedImage::LumaA8 { width: 1, height: 1, samples: vec![5, 6, 7] }, false);
    assert_eq!(la.data, vec![5, 5, 5, 6]);
}

#[test]
fn luma8_matches_the_codec_rgba_conversion() {
    let (width, height) = (5u32, 4u32);
    let samples: Vec<u8> = (0..width * height).map(|i| (i * 13 % 256) as u8).collect();
    let buffer = image::ImageBuffer::from_raw(width, height, samples.clone()).unwrap();
    let expected = image::DynamicImage::ImageLuma8(buffer).into_rgba8().into_raw();
    let texture = from_dynamic(DecodedImage::Luma8 { width, height, samples }, false);
    assert_eq!(texture.data, expected);
}

#[test]
fn luma_alpha8_matches_the_codec_rgba_conversion() {
    let (width, height) = (3u32, 7u32);
    let samples: Vec<u8> = (0..width * height * 2).map(|i| (i * 37 % 256) as u8).collect();
    let buffer = image::ImageBuffer::from_raw(width, height, samples.clone()).unwrap();
    let expected = image::DynamicImage::ImageLumaA8(buffer).into_rgba8().into_raw();
    let texture = from_dynamic(DecodedImage::LumaA8 { width, height, samples }, false);
    assert_eq!(texture.data, expected);
}

#[test]
fn rgb8_matches_the_codec_rgba_conversion() {
    let (width, height) = (6u32, 2u32);
    let samples: Vec<u8> = (0..width * height * 3).map(|i| (i * 91 % 256) as u8).collect();
    let buffer = image::ImageBuffer::from_raw(width, height, samples.clone()).unwrap();
    let expected = image::DynamicImage::ImageRgb8(buffer).into_rgba8().into_raw();
    let texture = from_dynamic(DecodedImage::Rgb8 { width, height, samples }, true);
    assert_eq!(texture.data, expected);
}

#[test]
fn decoded_image_reports_its_shape() {
    let image = DecodedImage::Rgb16 { width: 2, height: 3, samples: vec![0; 18] };
    assert_eq!(image.width(), 2);
    assert_eq!(image.height(), 3);
    assert_eq!(image.channels(), 3);
    assert_eq!(image.sample_count(), 18);
    assert!(image.is_well_formed());
    let short = DecodedImage::Rgb16 { width: 2, height: 3, samples: vec![0; 17] };
    assert!(!short.is_well_formed());
    let huge = DecodedImage::Luma8 { width: u32::MAX, height: u32::MAX, samples: vec![] };
    assert!(!huge.is_well_formed());
}

#[test]
fn sixteen_bit_layout_matches_std_little_endian() {
    let samples: Vec<u16> = (0..=u16::MAX).step_by(251).collect();
    let expected: Vec<u8> = samples.iter().flat_map(|v| v.to_le_bytes()).collect();
    assert_eq!(image_texture_conversion::layout::bytes_of_u16(&samples), expected);
}

#[test]
fn thirty_two_bit_layout_matches_std_little_endian() {
    let samples: Vec<u32> = (0..4000u32).map(|i| i.wrapping_mul(0x9E37_79B9)).collect();
    let expected: Vec<u8> = samples.iter().flat_map(|v| v.to_le_bytes()).collect();
    let bytes = image_texture_conversion::layout::bytes_of_u32(&samples);
    assert_eq!(bytes, expected);
    for (i, v) in samples.iter().enumerate() {
        assert_eq!(image_texture_conversion::layout::read_le_u32(&bytes, i), *v);
    }
}

#[test]
fn padding_is_generic_over_the_sample_type() {
    let padded = image_texture_conversion::layout::pad_with_alpha(&vec![1u16, 2, 3, 4, 5, 6, 7], 9);
    assert_eq!(padded, vec![1, 2, 3, 9, 4, 5, 6, 9]);
    let empty = image_texture_conversion::layout::pad_with_alpha(&vec![1u8, 2], 9);
    assert_eq!(empty, Vec::<u8>::new());
}

#[test]
fn samples_beyond_the_image_are_not_expanded() {
    let gray = from_dynamic(DecodedImage::Luma8 { width: 1, height: 1, samples: vec![7, 8] }, false);
    assert_eq!(gray.data, vec![7, 7, 7, 255]);
    assert!(gray.is_well_formed());
    let pair =
        from_dynamic(DecodedImage::LumaA8 { width: 1, height: 1, samples: vec![7, 8, 9, 10] }, false);
    assert_eq!(pair.data, vec![7, 7, 7, 8]);
    let rgb = from_dynamic(
        DecodedImage::Rgb8 { width: 1, height: 2, samples: vec![1, 2, 3, 4, 5, 6, 7, 8, 9] },
        false,
    );
    assert_eq!(rgb.data, vec![1, 2, 3, 255, 4, 5, 6, 255]);
    let none = from_dynamic(DecodedImage::Luma8 { width: 0, height: 3, samples: vec![7, 8] }, false);
    assert_eq!(none.data, Vec::<u8>::new());
}

#[test]
fn a_short_buffer_gives_the_pixels_it_holds() {
    let gray = from_dynamic(DecodedImage::Luma8 { width: 2, height: 2, samples: vec![1, 2, 3] }, false);
    assert_eq!(gray.data, vec![1, 1, 1, 255, 2, 2, 2, 255, 3, 3, 3, 255]);
    assert!(!gray.is_well_formed());
    let huge =
        from_dynamic(DecodedImage::Rgb8 { width: u32::MAX, height: u32::MAX, samples: vec![1, 2, 3, 4] }, true);
    assert_eq!(huge.data, vec![1, 2, 3, 255]);
}

#[test]
fn over_long_buffers_match_the_codec_rgba_conversion() {
    let (width, height) = (3u32, 2u32);
    let samples: Vec<u8> = (0..40u32).map(|i| (i * 29 % 256) as u8).collect();
    let gray = image::ImageBuffer::from_raw(width, height, samples.clone()).unwrap();
    assert_eq!(
        from_dynamic(DecodedImage::Luma8 { width, height, samples: samples.clone() }, false).data,
        image::DynamicImage::ImageLuma8(gray).into_rgba8().into_raw()
    );
    let pair = image::ImageBuffer::from_raw(width, height, samples.clone()).unwrap();
    assert_eq!(
        from_dynamic(DecodedImage::LumaA8 { width, height, samples: samples.clone() }, false).data,
        image::DynamicImage::ImageLumaA8(pair).into_rgba8().into_raw()
    );
    let rgb = image::ImageBuffer::from_raw(width, height, samples.clone()).unwrap();
    assert_eq!(
        from_dynamic(DecodedImage::Rgb8 { width, height, samples: samples.clone() }, false).data,
        image::DynamicImage::ImageRgb8(rgb).into_rgba8().into_raw()
    );
    let rgba = image::ImageBuffer::from_raw(width, height, samples.clone()).unwrap();
    assert_eq!(
        from_dynamic(DecodedImage::Rgba8 { width, height, samples }, false).data,
        image::DynamicImage::ImageRgba8(rgba).into_rgba8().into_raw()
    );
}

#[test]
fn length_check_does_not_overflow() {
    assert!(!has_len(usize::MAX, u32::MAX, u32::MAX, usize::MAX));
    assert!(has_len(0, 0, u32::MAX, usize::MAX));
    assert!(has_len(600, 10, 20, 3));
    assert!(!has_len(600, 10, 20, 4));
}
