//! Declarations of the outside types that the library carries, and the trusted
//! wrappers through which it calls the image and byteorder-lite crates.
use std::io::Cursor;
use crate::dispatch::{general_decodes, jpeg_magic, png_magic, signature_format, starts_with, FormatTag};
use image::ImageFormat;
use crate::error::{ImageErrorParts, PngErrorParts};
use vstd::prelude::*;

verus! {

#[verifier::external_type_specification]
#[verifier::external_body]
pub struct ExIoError(std::io::Error);

#[verifier::external_type_specification]
#[verifier::external_body]
pub struct ExImageError(image::ImageError);

#[verifier::external_type_specification]
#[verifier::external_body]
pub struct ExImageDecodingError(image::error::DecodingError);

#[verifier::external_type_specification]
#[verifier::external_body]
pub struct ExImageParameterError(image::error::ParameterError);

#[verifier::external_type_specification]
#[verifier::external_body]
pub struct ExImageLimitError(image::error::LimitError);

#[verifier::external_type_specification]
#[verifier::external_body]
pub struct ExImageUnsupportedError(image::error::UnsupportedError);

#[verifier::external_type_specification]
#[verifier::external_body]
pub struct ExImageEncodingError(image::error::EncodingError);

#[verifier::external_type_specification]
#[verifier::external_body]
pub struct ExImageFormat(image::ImageFormat);

#[verifier::external_type_specification]
#[verifier::external_body]
pub struct ExDynamicImage(image::DynamicImage);

} // verus!

verus! {

/// Relies on byteorder_lite's `BigEndian::read_u16`: the first byte is the most
/// significant one.
#[verifier::external_body]
pub(crate) fn read_be_u16(b0: u8, b1: u8) -> (r: u16)
    ensures
        r as int == b0 as int * 256 + b1 as int,
{
    <byteorder_lite::BigEndian as byteorder_lite::ByteOrder>::read_u16(&[b0, b1])
}

/// Relies on byteorder_lite's `NativeEndian::write_u16`: the two bytes of the
/// value in the host's order, which is little- or big-endian.
#[verifier::external_body]
pub(crate) fn native_u16_bytes(v: u16) -> (r: (u8, u8))
    ensures
        (r.0 as int == v as int % 256 && r.1 as int == v as int / 256) || (r.0 as int == v as int
            / 256 && r.1 as int == v as int % 256),
{
    let mut b = [0u8; 2];
    <byteorder_lite::NativeEndian as byteorder_lite::ByteOrder>::write_u16(&mut b, v);
    (b[0], b[1])
}

} // verus!

verus! {

/// Relies on `std::io::Error::from(ErrorKind::UnexpectedEof)`: the error that a
/// read of an exact length reports when the stream ends first.
#[verifier::external_body]
pub(crate) fn unexpected_eof() -> (r: std::io::Error) {
    std::io::Error::from(std::io::ErrorKind::UnexpectedEof)
}

/// Tells the variants of a png error apart, moving each payload.
#[verifier::external_body]
pub(crate) fn split_png_error(e: png::DecodingError) -> (r: PngErrorParts) {
    match e {
        png::DecodingError::IoError(io) => PngErrorParts::Io(io),
        e @ png::DecodingError::Format(_) => PngErrorParts::Format(e),
        e @ png::DecodingError::Parameter(_) => PngErrorParts::Parameter(e),
        e @ png::DecodingError::LimitsExceeded => PngErrorParts::LimitsExceeded(e),
    }
}
} // verus!

verus! {

/// Relies on `image::guess_format`: the format is read from the magic-byte
/// table, whose first two rows are the PNG and the JPEG signatures.
#[verifier::external_body]
pub(crate) fn guess_format_tag(sig: &[u8]) -> (r: Option<FormatTag>)
    ensures
        r == signature_format(sig@),
        starts_with(sig@, png_magic()) ==> r == Some(FormatTag::Png),
        starts_with(sig@, jpeg_magic()) ==> r == Some(FormatTag::Jpeg),
{
    image::guess_format(sig).ok().and_then(format_tag_of)
}

/// Tells the general decoder's formats apart; it names no format beyond these.
#[verifier::external_body]
pub(crate) fn format_tag_of(f: ImageFormat) -> (r: Option<FormatTag>) {
    Some(match f {
        ImageFormat::Png => FormatTag::Png, ImageFormat::Jpeg => FormatTag::Jpeg,
        ImageFormat::Gif => FormatTag::Gif, ImageFormat::WebP => FormatTag::WebP,
        ImageFormat::Pnm => FormatTag::Pnm, ImageFormat::Tiff => FormatTag::Tiff,
        ImageFormat::Tga => FormatTag::Tga, ImageFormat::Dds => FormatTag::Dds,
        ImageFormat::Bmp => FormatTag::Bmp, ImageFormat::Ico => FormatTag::Ico,
        ImageFormat::Hdr => FormatTag::Hdr, ImageFormat::OpenExr => FormatTag::OpenExr,
        ImageFormat::Farbfeld => FormatTag::Farbfeld, ImageFormat::Avif => FormatTag::Avif,
        ImageFormat::Qoi => FormatTag::Qoi, ImageFormat::Pcx => FormatTag::Pcx,
        _ => return None,
    })
}

/// The general decoder's tag for a format.
#[verifier::external_body]
pub(crate) fn image_format_of(tag: FormatTag) -> (r: ImageFormat) {
    match tag {
        FormatTag::Png => ImageFormat::Png, FormatTag::Jpeg => ImageFormat::Jpeg,
        FormatTag::Gif => ImageFormat::Gif, FormatTag::WebP => ImageFormat::WebP,
        FormatTag::Pnm => ImageFormat::Pnm, FormatTag::Tiff => ImageFormat::Tiff,
        FormatTag::Tga => ImageFormat::Tga, FormatTag::Dds => ImageFormat::Dds,
        FormatTag::Bmp => ImageFormat::Bmp, FormatTag::Ico => ImageFormat::Ico,
        FormatTag::Hdr => ImageFormat::Hdr, FormatTag::OpenExr => ImageFormat::OpenExr,
        FormatTag::Farbfeld => ImageFormat::Farbfeld, FormatTag::Avif => ImageFormat::Avif,
        FormatTag::Qoi => ImageFormat::Qoi, FormatTag::Pcx => ImageFormat::Pcx,
    }
}

/// Relies on `image::load` over a `Cursor` of the whole stream: decodes it as
/// the given format; whether that succeeds depends on the bytes and the format.
#[verifier::external_body]
pub(crate) fn image_load(data: Vec<u8>, format: FormatTag) -> (r: Result<image::DynamicImage, image::ImageError>)
    ensures
        r is Ok <==> general_decodes(data@, format),
{
    image::load(Cursor::new(data), image_format_of(format))
}

/// Tells the variants of an error of the general decoder apart, moving each payload.
#[verifier::external_body]
pub(crate) fn split_image_error(e: image::ImageError) -> (r: ImageErrorParts) {
    match e {
        image::ImageError::IoError(io) => ImageErrorParts::Io(io),
        image::ImageError::Decoding(d) => ImageErrorParts::Decoding(d),
        image::ImageError::Parameter(p) => ImageErrorParts::Parameter(p),
        image::ImageError::Limits(l) => ImageErrorParts::Limits(l),
        image::ImageError::Unsupported(u) => ImageErrorParts::Unsupported(u),
        image::ImageError::Encoding(c) => ImageErrorParts::Encoding(c),
    }
}

} // verus!
