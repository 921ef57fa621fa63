use imgest::{
    layout_for, load_image_from_reader, SampleDepth, ColorLayout, Error, FormatTag, Image, LimitKind,
    PngColorType, PngDecoder, ResourceLimits,
};

fn encode(width: u32, height: u32, color: png::ColorType, depth: png::BitDepth, data: &[u8]) -> Vec<u8> {
    encode_with(width, height, color, depth, data, |_| {})
}

fn encode_with(
    width: u32,
    height: u32,
    color: png::ColorType,
    depth: png::BitDepth,
    data: &[u8],
    extra: impl FnOnce(&mut png::Encoder<'static, &mut Vec<u8>>),
) -> Vec<u8> {
    let mut out = Vec::new();
    {
        let mut enc = png::Encoder::new(&mut out, width, height);
        enc.set_color(color);
        enc.set_depth(depth);
        extra(&mut enc);
        let mut writer = enc.write_header().unwrap();
        writer.write_image_data(data).unwrap();
        writer.finish().unwrap();
    }
    out
}

fn crc32(bytes: &[u8]) -> u32 {
    let mut crc = 0xFFFF_FFFFu32;
    for &b in bytes {
        crc ^= b as u32;
        for _ in 0..8 {
            let mask = (crc & 1).wrapping_neg();
            crc = (crc >> 1) ^ (0xEDB8_8320 & mask);
        }
    }
    !crc
}

fn decode_png(bytes: Vec<u8>) -> imgest::DecodedImage {
    match load_image_from_reader(bytes) {
        Ok((FormatTag::Png, Image::Pixels(img))) => img,
        Ok(_) => panic!("not decoded as PNG"),
        Err(e) => panic!("decode failed: {}", e.kind_name()),
    }
}

#[test]
fn rgba8_decodes_exactly() {
    let data: Vec<u8> = (0u8..16).collect();
    let img = decode_png(encode(2, 2, png::ColorType::Rgba, png::BitDepth::Eight, &data));
    assert_eq!(img.width, 2);
    assert_eq!(img.height, 2);
    assert_eq!(img.layout, ColorLayout::Rgba8);
    assert_eq!(img.pixels, data);
}

#[test]
fn every_supported_pair_decodes_to_its_layout() {
    let cases = [
        (png::ColorType::Grayscale, png::BitDepth::Eight, ColorLayout::L8, 1usize),
        (png::ColorType::Grayscale, png::BitDepth::Sixteen, ColorLayout::L16, 2),
        (png::ColorType::GrayscaleAlpha, png::BitDepth::Eight, ColorLayout::La8, 2),
        (png::ColorType::GrayscaleAlpha, png::BitDepth::Sixteen, ColorLayout::La16, 4),
        (png::ColorType::Rgb, png::BitDepth::Eight, ColorLayout::Rgb8, 3),
        (png::ColorType::Rgb, png::BitDepth::Sixteen, ColorLayout::Rgb16, 6),
        (png::ColorType::Rgba, png::BitDepth::Eight, ColorLayout::Rgba8, 4),
        (png::ColorType::Rgba, png::BitDepth::Sixteen, ColorLayout::Rgba16, 8),
    ];
    for (color, depth, layout, bpp) in cases {
        let (w, h) = (3u32, 2u32);
        let data = vec![7u8; w as usize * h as usize * bpp];
        let img = decode_png(encode(w, h, color, depth, &data));
        assert_eq!(img.layout, layout);
        assert_eq!(img.pixels.len(), w as usize * h as usize * bpp);
        assert_eq!(layout.bytes_per_pixel() as usize, bpp);
    }
}

#[test]
fn unsupported_pairs_are_refused_with_the_pair() {
    let colors = [PngColorType::Grayscale, PngColorType::GrayscaleAlpha, PngColorType::Rgb, PngColorType::Rgba];
    for color in colors {
        for depth in [SampleDepth::One, SampleDepth::Two, SampleDepth::Four] {
            match layout_for(color, depth) {
                Err(Error::UnsupportedColor(c, d)) => {
                    assert_eq!(c, color);
                    assert_eq!(d, depth);
                }
                _ => panic!("expected an unsupported colour"),
            }
        }
    }
    for depth in [SampleDepth::One, SampleDepth::Two, SampleDepth::Four, SampleDepth::Eight, SampleDepth::Sixteen] {
        assert!(matches!(
            layout_for(PngColorType::Indexed, depth),
            Err(Error::UnsupportedColor(PngColorType::Indexed, d)) if d == depth
        ));
    }
    assert!(matches!(layout_for(PngColorType::Rgb, SampleDepth::Sixteen), Ok(ColorLayout::Rgb16)));
}

#[test]
fn sub_byte_grayscale_is_refused_with_its_pair() {
    let bytes = encode(8, 1, png::ColorType::Grayscale, png::BitDepth::One, &[0b1010_1010]);
    assert!(matches!(
        load_image_from_reader(bytes),
        Err(Error::UnsupportedColor(PngColorType::Grayscale, SampleDepth::One))
    ));
    let bytes = encode(2, 1, png::ColorType::Rgb, png::BitDepth::Eight, &[0u8; 6]);
    assert!(load_image_from_reader(bytes).is_ok());
    let bytes = encode(4, 1, png::ColorType::GrayscaleAlpha, png::BitDepth::Eight, &[0u8; 8]);
    assert!(load_image_from_reader(bytes).is_ok());
    let bytes = encode(2, 1, png::ColorType::Grayscale, png::BitDepth::Four, &[0x12]);
    assert!(matches!(
        PngDecoder::new(bytes),
        Err(Error::UnsupportedColor(PngColorType::Grayscale, SampleDepth::Four))
    ));
}

#[test]
fn indexed_is_refused_with_its_pair() {
    let bytes = encode_with(2, 1, png::ColorType::Indexed, png::BitDepth::Eight, &[1, 0], |e| {
        e.set_palette(vec![10u8, 20, 30, 40, 50, 60]);
    });
    assert!(matches!(
        load_image_from_reader(bytes),
        Err(Error::UnsupportedColor(PngColorType::Indexed, SampleDepth::Eight))
    ));
    let bytes = encode_with(8, 1, png::ColorType::Indexed, png::BitDepth::One, &[0b1000_0000], |e| {
        e.set_palette(vec![0u8, 0, 0, 255, 255, 255]);
    });
    assert!(matches!(
        load_image_from_reader(bytes),
        Err(Error::UnsupportedColor(PngColorType::Indexed, SampleDepth::One))
    ));
}

#[test]
fn sixteen_bit_samples_come_out_in_native_order() {
    let data = [0x12u8, 0x34, 0xAB, 0xCD];
    let img = decode_png(encode(2, 1, png::ColorType::Grayscale, png::BitDepth::Sixteen, &data));
    assert_eq!(img.layout, ColorLayout::L16);
    assert_eq!(u16::from_ne_bytes([img.pixels[0], img.pixels[1]]), 0x1234);
    assert_eq!(u16::from_ne_bytes([img.pixels[2], img.pixels[3]]), 0xABCD);
}

#[test]
fn two_frame_animation_is_refused() {
    let data = [1u8, 2, 3, 4];
    let mut out = Vec::new();
    {
        let mut enc = png::Encoder::new(&mut out, 1, 1);
        enc.set_color(png::ColorType::Rgba);
        enc.set_depth(png::BitDepth::Eight);
        enc.set_animated(2, 0).unwrap();
        let mut writer = enc.write_header().unwrap();
        writer.write_image_data(&data).unwrap();
        writer.write_image_data(&data).unwrap();
        writer.finish().unwrap();
    }
    assert!(matches!(load_image_from_reader(out.clone()), Err(Error::Animated)));
    let decoder = PngDecoder::new(out).ok().unwrap();
    assert!(decoder.is_animated());
}

#[test]
fn declared_dimensions_over_the_limit_are_refused() {
    let bytes = encode(4, 2, png::ColorType::Grayscale, png::BitDepth::Eight, &[0u8; 8]);
    let narrow = ResourceLimits { max_image_width: Some(3), max_image_height: None, max_alloc: None };
    assert!(matches!(PngDecoder::with_limits(bytes.clone(), narrow), Err(Error::Limits(LimitKind::Dimensions))));
    let low = ResourceLimits { max_image_width: None, max_image_height: Some(1), max_alloc: None };
    assert!(matches!(PngDecoder::with_limits(bytes.clone(), low), Err(Error::Limits(LimitKind::Dimensions))));
    let exact = ResourceLimits { max_image_width: Some(4), max_image_height: Some(2), max_alloc: None };
    let decoder = PngDecoder::with_limits(bytes, exact).ok().unwrap();
    assert_eq!(decoder.dimensions(), (4, 2));
}

#[test]
fn huge_declared_dimensions_fail_without_allocating() {
    // A header declaring 100000 x 100000 RGBA16 pixels, followed by a tiny stream.
    let bytes = encode(1, 1, png::ColorType::Rgba, png::BitDepth::Sixteen, &[0u8; 8]);
    let mut patched = bytes.clone();
    // IHDR data starts at offset 16: width then height, big-endian.
    patched[16..20].copy_from_slice(&100_000u32.to_be_bytes());
    patched[20..24].copy_from_slice(&100_000u32.to_be_bytes());
    // The chunk's checksum covers its type and data: bytes 12..29, stored at 29..33.
    let crc = crc32(&patched[12..29]);
    patched[29..33].copy_from_slice(&crc.to_be_bytes());
    let limits = ResourceLimits { max_image_width: Some(10_000), max_image_height: Some(10_000), max_alloc: None };
    assert!(matches!(PngDecoder::with_limits(patched, limits), Err(Error::Limits(LimitKind::Dimensions))));
}

#[test]
fn allocation_ceiling_gives_too_big() {
    let bytes = encode(4, 4, png::ColorType::Rgba, png::BitDepth::Eight, &[0u8; 64]);
    let limits = ResourceLimits { max_image_width: None, max_image_height: None, max_alloc: Some(1 << 20) };
    let decoder = PngDecoder::with_limits(bytes.clone(), limits).ok().unwrap();
    assert_eq!(decoder.total_bytes(), 64);
    let mut decoder = PngDecoder::new(bytes).ok().unwrap();
    decoder.set_limits(ResourceLimits { max_image_width: None, max_image_height: None, max_alloc: Some(63) }).ok().unwrap();
    assert!(matches!(decoder.decode(), Err(Error::TooBig)));
}

#[test]
fn set_limits_rechecks_known_dimensions() {
    let bytes = encode(4, 2, png::ColorType::Grayscale, png::BitDepth::Eight, &[0u8; 8]);
    let mut decoder = PngDecoder::new(bytes).ok().unwrap();
    let narrow = ResourceLimits { max_image_width: Some(3), max_image_height: None, max_alloc: None };
    assert!(matches!(decoder.set_limits(narrow), Err(Error::Limits(LimitKind::Dimensions))));
    let wide = ResourceLimits { max_image_width: Some(4), max_image_height: Some(2), max_alloc: None };
    assert!(decoder.set_limits(wide).is_ok());
    let img = decoder.decode().ok().unwrap();
    assert_eq!(img.pixels.len(), 8);
}

#[test]
fn missing_metadata_is_absent_not_an_error() {
    let bytes = encode(1, 1, png::ColorType::Rgb, png::BitDepth::Eight, &[1, 2, 3]);
    let decoder = PngDecoder::new(bytes).ok().unwrap();
    assert!(decoder.icc_profile().is_none());
    assert!(decoder.exif_metadata().is_none());
    assert!(matches!(decoder.xmp_metadata(), Ok(None)));
    assert!(matches!(decoder.iptc_metadata(), Ok(None)));
    assert!(decoder.gamma_scaled().is_none());
    assert!(!decoder.is_animated());
    assert!(!decoder.is_16bit());
    assert_eq!(decoder.color_type(), ColorLayout::Rgb8);
}

#[test]
fn xmp_text_is_found_by_keyword() {
    let bytes = encode_with(1, 1, png::ColorType::Rgb, png::BitDepth::Eight, &[1, 2, 3], |e| {
        e.add_itxt_chunk("Comment".to_string(), "nothing".to_string()).unwrap();
        e.add_itxt_chunk("XML:com.adobe.xmp".to_string(), "<x:xmpmeta/>".to_string()).unwrap();
    });
    let decoder = PngDecoder::new(bytes).ok().unwrap();
    let xmp = decoder.xmp_metadata().ok().unwrap();
    assert_eq!(xmp, Some(b"<x:xmpmeta/>".to_vec()));
}

#[test]
fn iptc_prefers_compressed_chunks() {
    let bytes = encode_with(1, 1, png::ColorType::Rgb, png::BitDepth::Eight, &[1, 2, 3], |e| {
        e.add_text_chunk("Raw profile type iptc".to_string(), "plain".to_string()).unwrap();
        e.add_ztxt_chunk("Raw profile type 8bim".to_string(), "packed".to_string()).unwrap();
    });
    let decoder = PngDecoder::new(bytes).ok().unwrap();
    assert_eq!(decoder.iptc_metadata().ok().unwrap(), Some(b"packed".to_vec()));

    let bytes = encode_with(1, 1, png::ColorType::Rgb, png::BitDepth::Eight, &[1, 2, 3], |e| {
        e.add_text_chunk("Raw profile type iptc".to_string(), "plain".to_string()).unwrap();
    });
    let decoder = PngDecoder::new(bytes).ok().unwrap();
    assert_eq!(decoder.iptc_metadata().ok().unwrap(), Some(b"plain".to_vec()));
}

#[test]
fn decoding_twice_gives_identical_results() {
    let data: Vec<u8> = (0u8..24).collect();
    let bytes = encode_with(2, 2, png::ColorType::Rgb, png::BitDepth::Sixteen, &data, |e| {
        e.add_itxt_chunk("XML:com.adobe.xmp".to_string(), "<meta/>".to_string()).unwrap();
    });
    let a = decode_png(bytes.clone());
    let b = decode_png(bytes.clone());
    assert_eq!(a.pixels, b.pixels);
    assert_eq!((a.width, a.height, a.layout), (b.width, b.height, b.layout));
    let da = PngDecoder::new(bytes.clone()).ok().unwrap();
    let db = PngDecoder::new(bytes).ok().unwrap();
    assert_eq!(da.xmp_metadata().ok().unwrap(), db.xmp_metadata().ok().unwrap());
    assert_eq!(da.iptc_metadata().ok().unwrap(), db.iptc_metadata().ok().unwrap());
}

#[test]
fn truncated_png_is_a_png_error() {
    let bytes = encode(2, 2, png::ColorType::Rgba, png::BitDepth::Eight, &[9u8; 16]);
    let cut = bytes[..bytes.len() - 20].to_vec();
    let r = load_image_from_reader(cut);
    assert!(matches!(r, Err(Error::IoError(_)) | Err(Error::PngDecodingError(_))));
}

#[test]
fn png_signature_with_broken_body_is_not_an_unsupported_format() {
    let mut bytes = vec![0x89u8, b'P', b'N', b'G', 0x0D, 0x0A, 0x1A, 0x0A];
    bytes.extend_from_slice(&[0u8; 20]);
    match load_image_from_reader(bytes) {
        Err(Error::UnsupportedFormat) => panic!("the PNG signature is known"),
        Err(_) => {}
        Ok(_) => panic!("a broken PNG must not decode"),
    }
}

#[test]
fn transparency_key_adds_an_alpha_channel() {
    let bytes = encode_with(2, 1, png::ColorType::Grayscale, png::BitDepth::Eight, &[5, 9], |e| {
        e.set_trns(vec![0u8, 9]);
    });
    let img = decode_png(bytes);
    assert_eq!(img.layout, ColorLayout::La8);
    assert_eq!(img.pixels, vec![5, 255, 9, 0]);
}

#[test]
fn compressed_xmp_and_icc_absence() {
    let bytes = encode_with(1, 1, png::ColorType::Rgb, png::BitDepth::Eight, &[1, 2, 3], |e| {
        e.add_ztxt_chunk("Raw profile type iptc".to_string(), "block".to_string()).unwrap();
    });
    let a = PngDecoder::new(bytes.clone()).ok().unwrap();
    let b = PngDecoder::new(bytes).ok().unwrap();
    assert_eq!(a.iptc_metadata().ok().unwrap(), Some(b"block".to_vec()));
    assert_eq!(a.iptc_metadata().ok().unwrap(), b.iptc_metadata().ok().unwrap());
    assert_eq!(a.icc_profile(), b.icc_profile());
    assert_eq!(a.exif_metadata(), None);
}

#[test]
fn io_errors_convert() {
    let e: Error = std::io::Error::from(std::io::ErrorKind::NotFound).into();
    assert!(matches!(e, Error::IoError(_)));
}
