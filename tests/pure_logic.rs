use image::error::{
    DecodingError, ImageFormatHint, LimitError, LimitErrorKind, ParameterError, ParameterErrorKind,
    UnsupportedError, UnsupportedErrorKind,
};
use imgest::ImageErrorParts;
use imgest::{
    choose_iptc_chunk, classify, contains_any, contains_slice, find_keyword, host_byte_order,
    normalize_samples, SampleDepth, ByteOrder, ChunkChoice, ColorLayout, Error, LimitKind,
    PngColorType, PngErrorParts, ResourceLimits,
};

#[test]
fn byte_counts_of_layouts() {
    assert_eq!(ColorLayout::L8.bytes_per_pixel(), 1);
    assert_eq!(ColorLayout::La16.bytes_per_pixel(), 4);
    assert_eq!(ColorLayout::Rgb16.bytes_per_pixel(), 6);
    assert_eq!(ColorLayout::Rgba16.bytes_per_pixel(), 8);
    assert_eq!(ColorLayout::Rgba8.channel_count(), 4);
    assert_eq!(ColorLayout::La8.bytes_per_channel(), 1);
    assert!(ColorLayout::L16.is_16bit());
    assert!(!ColorLayout::Rgb8.is_16bit());
    assert_eq!(SampleDepth::Four.bits(), 4);
    assert_eq!(classify(PngColorType::GrayscaleAlpha, SampleDepth::Eight), Some(ColorLayout::La8));
    assert_eq!(classify(PngColorType::Rgba, SampleDepth::Two), None);
}

#[test]
fn normalisation_swaps_pairs_for_little_endian_hosts() {
    let mut buf = vec![0x12u8, 0x34, 0xAB, 0xCD];
    normalize_samples(&mut buf, ColorLayout::L16, ByteOrder::Little);
    assert_eq!(buf, vec![0x34, 0x12, 0xCD, 0xAB]);
    let mut buf = vec![0x12u8, 0x34, 0xAB, 0xCD];
    normalize_samples(&mut buf, ColorLayout::La16, ByteOrder::Big);
    assert_eq!(buf, vec![0x12, 0x34, 0xAB, 0xCD]);
    let mut buf = vec![0x12u8, 0x34, 0xAB, 0xCD];
    normalize_samples(&mut buf, ColorLayout::La8, ByteOrder::Little);
    assert_eq!(buf, vec![0x12, 0x34, 0xAB, 0xCD]);
    let mut empty: Vec<u8> = Vec::new();
    normalize_samples(&mut empty, ColorLayout::Rgba16, ByteOrder::Little);
    assert!(empty.is_empty());
}

#[test]
fn host_order_matches_the_target() {
    let expected = if 0x0102u16.to_ne_bytes()[0] == 0x02 { ByteOrder::Little } else { ByteOrder::Big };
    assert_eq!(host_byte_order(), expected);
}

#[test]
fn byte_search() {
    assert!(contains_slice(b"XML:com.adobe.xmp", b"adobe"));
    assert!(contains_slice(b"abc", b""));
    assert!(!contains_slice(b"ab", b"abc"));
    assert!(!contains_slice(b"abcabd", b"abe"));
    assert!(contains_slice(b"abcabd", b"abd"));
    let keys = vec![b"iptc".to_vec(), b"8bim".to_vec()];
    assert!(contains_any(&b"Raw profile type 8bim".to_vec(), &keys));
    assert!(!contains_any(&b"Raw profile type exif".to_vec(), &keys));
}

#[test]
fn first_matching_keyword_is_chosen() {
    let keys = vec![b"XML:com.adobe.xmp".to_vec()];
    let keywords = vec![b"Title".to_vec(), b"XML:com.adobe.xmp".to_vec(), b"my XML:com.adobe.xmp".to_vec()];
    assert_eq!(find_keyword(&keywords, &keys), Some(1));
    assert_eq!(find_keyword(&vec![b"Title".to_vec()], &keys), None);
    assert_eq!(find_keyword(&Vec::new(), &keys), None);
}

#[test]
fn iptc_choice_prefers_compressed() {
    let z = vec![b"Comment".to_vec(), b"Raw profile type 8bim".to_vec()];
    let t = vec![b"Raw profile type iptc".to_vec()];
    assert_eq!(choose_iptc_chunk(&z, &t), ChunkChoice::Compressed(1));
    assert_eq!(choose_iptc_chunk(&vec![b"Comment".to_vec()], &t), ChunkChoice::Uncompressed(0));
    assert_eq!(choose_iptc_chunk(&Vec::new(), &vec![b"Author".to_vec()]), ChunkChoice::Absent);
}

#[test]
fn dimension_limits() {
    let l = ResourceLimits { max_image_width: Some(10), max_image_height: Some(20), max_alloc: None };
    assert!(l.check_dimensions(10, 20).is_ok());
    assert!(matches!(l.check_dimensions(11, 20), Err(Error::Limits(LimitKind::Dimensions))));
    assert!(matches!(l.check_dimensions(10, 21), Err(Error::Limits(LimitKind::Dimensions))));
    assert!(ResourceLimits::no_limits().check_dimensions(u32::MAX, u32::MAX).is_ok());
}

#[test]
fn allocation_ceiling_saturates() {
    assert_eq!(ResourceLimits::no_limits().alloc_ceiling(), usize::MAX);
    let l = ResourceLimits { max_image_width: None, max_image_height: None, max_alloc: Some(4096) };
    assert_eq!(l.alloc_ceiling(), 4096);
}

#[test]
fn png_errors_translate_by_kind() {
    let limits = || PngErrorParts::LimitsExceeded(png::DecodingError::LimitsExceeded);
    assert!(matches!(Error::from_png_frame(limits()), Error::Limits(LimitKind::InsufficientMemory)));
    assert!(matches!(Error::from_png_header(limits()), Error::PngDecodingError(png::DecodingError::LimitsExceeded)));
    let io = std::io::Error::from(std::io::ErrorKind::BrokenPipe);
    assert!(matches!(Error::from_png_header(PngErrorParts::Io(io)), Error::IoError(_)));
    assert_eq!(Error::Animated.kind_name(), "animated images are not supported");
    assert_eq!(Error::UnsupportedFormat.kind_name(), "unsupported image format");
    assert_eq!(Error::TooBig.kind_name(), "image exceeds size limits");
}

#[test]
fn general_decoder_errors_translate_one_for_one() {
    let decoding = ImageErrorParts::Decoding(DecodingError::from_format_hint(ImageFormatHint::Unknown));
    assert!(matches!(Error::from_image(decoding), Error::DecodingError(_)));
    let parameter = ImageErrorParts::Parameter(ParameterError::from_kind(ParameterErrorKind::DimensionMismatch));
    assert!(matches!(Error::from_image(parameter), Error::Parameter(_)));
    let limits = ImageErrorParts::Limits(LimitError::from_kind(LimitErrorKind::InsufficientMemory));
    assert!(matches!(Error::from_image(limits), Error::GeneralLimits(_)));
    let unsupported = ImageErrorParts::Unsupported(UnsupportedError::from_format_and_kind(
        ImageFormatHint::Unknown,
        UnsupportedErrorKind::Format(ImageFormatHint::Unknown),
    ));
    assert!(matches!(Error::from_image(unsupported), Error::Unsupported(_)));
    let io = ImageErrorParts::Io(std::io::Error::from(std::io::ErrorKind::NotFound));
    assert!(matches!(Error::from_image(io), Error::IoError(_)));
}

#[test]
fn png_parameter_errors_of_the_frame_phase_stay_parameters() {
    let e = || png::DecodingError::LimitsExceeded;
    assert!(matches!(Error::from_png_frame(PngErrorParts::Parameter(e())), Error::PngParameter(_)));
    assert!(matches!(Error::from_png_header(PngErrorParts::Parameter(e())), Error::PngDecodingError(_)));
    assert!(matches!(Error::from_png_frame(PngErrorParts::Format(e())), Error::PngDecodingError(_)));
}
