use crate::bindings::{guess_format_tag, image_load, split_image_error, unexpected_eof};
use crate::error::Error;
use crate::byte_order::{normalized, ByteOrder};
use crate::layout::layout_of;
use crate::limits::ResourceLimits;
use crate::png_bindings::{png_animated, png_frame, png_header_ok};
use crate::png_decoder::{fits_allocation, frame_len, ihdr_height, ihdr_pair, with_alpha, ihdr_width, output_pair, png_opens, zeros, DecodedImage, PngDecoder};
use vstd::prelude::*;

verus! {

/// The number of leading bytes from which the container format is told.
pub const SIGNATURE_LEN: usize = 16;

/// The container format of an image, one for each format that the general
/// decoder knows.
#[derive(Clone, Copy, Debug, PartialEq, Eq, Structural)]
pub enum FormatTag {
    Png,
    Jpeg,
    Gif,
    WebP,
    Pnm,
    Tiff,
    Tga,
    Dds,
    Bmp,
    Ico,
    Hdr,
    OpenExr,
    Farbfeld,
    Avif,
    Qoi,
    Pcx,
}

/// Whether an error is one that the general decoder reports, translated.
pub open spec fn is_general_error(e: Error) -> bool {
    match e {
        Error::IoError(_) | Error::DecodingError(_) | Error::Parameter(_) | Error::GeneralLimits(_)
        | Error::Unsupported(_) | Error::Encoding(_) => true,
        _ => false,
    }
}

/// Whether the general decoder decodes the whole stream as the given format.
pub uninterp spec fn general_decodes(data: Seq<u8>, format: FormatTag) -> bool;

/// The format that the general decoder's magic-byte table gives a signature window.
pub uninterp spec fn signature_format(sig: Seq<u8>) -> Option<FormatTag>;

/// The PNG signature.
pub open spec fn png_magic() -> Seq<u8> {
    seq![0x89u8, 0x50u8, 0x4Eu8, 0x47u8, 0x0Du8, 0x0Au8, 0x1Au8, 0x0Au8]
}

/// The JPEG signature: start of image and the first marker's lead byte.
pub open spec fn jpeg_magic() -> Seq<u8> {
    seq![0xFFu8, 0xD8u8, 0xFFu8]
}

/// Whether `data` begins with `prefix`.
pub open spec fn starts_with(data: Seq<u8>, prefix: Seq<u8>) -> bool {
    prefix.len() <= data.len() && data.subrange(0, prefix.len() as int) == prefix
}

/// A decoded image: PNGs decode into a plain pixel buffer, other formats into
/// the general decoder's image.
pub enum Image {
    Pixels(DecodedImage),
    General(image::DynamicImage),
}

/// The first bytes of the stream, from which its format is told.
pub fn signature_window(data: &Vec<u8>) -> (r: Vec<u8>)
    requires
        data@.len() >= SIGNATURE_LEN,
    ensures
        r@ == data@.subrange(0, SIGNATURE_LEN as int),
{
    let mut r: Vec<u8> = Vec::new();
    let mut i: usize = 0;
    while i < SIGNATURE_LEN
        invariant
            i <= SIGNATURE_LEN,
            data@.len() >= SIGNATURE_LEN,
            r@ == data@.subrange(0, i as int),
        decreases SIGNATURE_LEN - i,
    {
        r.push(data[i]);
        i = i + 1;
    }
    r
}

/// Finishes a PNG decode once the header is accepted: an animated stream is
/// refused, any other is decoded.
pub fn finish_png(decoder: PngDecoder) -> (r: Result<DecodedImage, Error>)
    ensures
        r matches Err(Error::Animated) <==> decoder.animated_spec(),
        !decoder.animated_spec() ==> {
            let n = frame_len(decoder.width_spec(), decoder.height_spec(), decoder.layout_spec());
            let frame = png_frame(decoder.data_spec(), decoder.max_bytes_spec(), zeros(n));
            &&& (!fits_allocation(decoder.limits_spec(), n) <==> r matches Err(Error::TooBig))
            &&& (fits_allocation(decoder.limits_spec(), n) ==> (r is Ok <==> frame is Some))
            &&& (r matches Ok(img) ==> exists|order: ByteOrder|
                img.pixels@ == normalized(decoder.layout_spec(), order, frame->0))
        },
        !(r matches Err(Error::UnsupportedFormat)),
        r matches Ok(img) ==> {
            &&& !decoder.animated_spec()
            &&& img.wf()
            &&& img.width == decoder.width_spec()
            &&& img.height == decoder.height_spec()
            &&& img.layout == decoder.layout_spec()
        },
{
    if decoder.is_animated() {
        return Err(Error::Animated);
    }
    decoder.decode()
}

/// What `load_image_from_reader` promises of a decoded PNG, for a given host byte order.
pub open spec fn png_load_result(data: Seq<u8>, order: ByteOrder, img: DecodedImage) -> bool {
    let m = ResourceLimits::no_limits_spec().alloc_ceiling_spec();
    let layout = layout_of(output_pair(data, m).0, output_pair(data, m).1)->0;
    let n = frame_len(ihdr_width(data) as u32, ihdr_height(data) as u32, layout);
    &&& img.width as int == ihdr_width(data)
    &&& img.height as int == ihdr_height(data)
    &&& img.layout == layout
    &&& (layout == layout_of(ihdr_pair(data).0, ihdr_pair(data).1)->0 || layout == with_alpha(
        layout_of(ihdr_pair(data).0, ihdr_pair(data).1)->0,
    ))
    &&& png_frame(data, m, zeros(n)) is Some
    &&& img.pixels@ == normalized(layout, order, png_frame(data, m, zeros(n))->0)
}

/// Loading the same PNG bytes twice gives the same dimensions and layout, and
/// on one host the same pixels; an 8-bit image has the same pixels on any host.
pub proof fn lemma_png_load_repeatable(data: Seq<u8>, o1: ByteOrder, o2: ByteOrder, a: DecodedImage, b: DecodedImage)
    requires
        png_load_result(data, o1, a),
        png_load_result(data, o2, b),
    ensures
        a.width == b.width,
        a.height == b.height,
        a.layout == b.layout,
        o1 == o2 || !a.layout.is_16bit_spec() ==> a.pixels@ == b.pixels@,
{
}

/// Loads an image from its bytes. The first bytes tell the format; a PNG goes
/// through the constrained PNG decoder, every other known format through the
/// general decoder, whose errors are translated one for one.
pub fn load_image_from_reader(data: Vec<u8>) -> (r: Result<(FormatTag, Image), Error>)
    ensures
        data@.len() < SIGNATURE_LEN ==> r matches Err(Error::IoError(_)),
        data@.len() >= SIGNATURE_LEN ==> {
            let sig = data@.subrange(0, SIGNATURE_LEN as int);
            &&& (r matches Err(Error::UnsupportedFormat) <==> signature_format(sig) is None)
            &&& (starts_with(sig, png_magic()) ==> !(r matches Err(Error::UnsupportedFormat)))
            &&& (starts_with(sig, jpeg_magic()) ==> !(r matches Err(Error::UnsupportedFormat)))
            &&& (starts_with(sig, png_magic()) ==> !(r matches Ok((t, _)) && !(t is Png)))
            &&& (starts_with(sig, jpeg_magic()) ==> !(r matches Ok((t, _)) && !(t is Jpeg)))
            &&& (r matches Ok((t, _)) ==> signature_format(sig) == Some(t))
            &&& (signature_format(sig) matches Some(t) ==> (t != FormatTag::Png ==> {
                &&& (r is Ok <==> general_decodes(data@, t))
                &&& (r matches Err(e) ==> is_general_error(e))
            }))
        },
        data@.len() >= SIGNATURE_LEN && starts_with(data@.subrange(0, SIGNATURE_LEN as int), png_magic()) ==> {
            let none = ResourceLimits::no_limits_spec();
            let m = none.alloc_ceiling_spec();
            let layout = layout_of(output_pair(data@, m).0, output_pair(data@, m).1)->0;
            let n = frame_len(ihdr_width(data@) as u32, ihdr_height(data@) as u32, layout);
            let frame = png_frame(data@, m, zeros(n));
            &&& (r is Ok <==> png_opens(data@, none) && !png_animated(data@, m) && n <= isize::MAX
                && frame is Some)
            &&& (png_opens(data@, none) ==> (r matches Err(Error::Animated) <==> png_animated(data@, m)))
            &&& (png_header_ok(data@, m) && layout_of(ihdr_pair(data@).0, ihdr_pair(data@).1) is None ==> (
            r matches Err(Error::UnsupportedColor(rc, rb)) && rc == ihdr_pair(data@).0 && rb == ihdr_pair(
                data@,
            ).1))
            &&& (r matches Ok((_, Image::Pixels(img))) ==> {
                &&& img.width as int == ihdr_width(data@)
                &&& img.height as int == ihdr_height(data@)
                &&& img.layout == layout
                &&& exists|order: ByteOrder| png_load_result(data@, order, img)
            })
        },
        r matches Ok((t, img)) ==> (t is Png <==> img is Pixels),
        r matches Ok((_, Image::Pixels(img))) ==> img.wf(),
{
    if data.len() < SIGNATURE_LEN {
        return Err(Error::from(unexpected_eof()));
    }
    let ghost data_view = data@;
    let sig = signature_window(&data);
    let format = match guess_format_tag(sig.as_slice()) {
        Some(f) => f,
        None => return Err(Error::UnsupportedFormat),
    };
    match format {
        FormatTag::Png => {
            let decoder = match PngDecoder::new(data) {
                Ok(d) => d,
                Err(e) => return Err(e),
            };
            let ghost layout = decoder.layout_spec();
            let ghost n = frame_len(decoder.width_spec(), decoder.height_spec(), layout);
            let ghost frame = png_frame(decoder.data_spec(), decoder.max_bytes_spec(), zeros(n));
            match finish_png(decoder) {
                Ok(img) => {
                    proof {
                        let order = choose|o: ByteOrder| img.pixels@ == normalized(layout, o, frame->0);
                        assert(png_load_result(data_view, order, img));
                    }
                    Ok((FormatTag::Png, Image::Pixels(img)))
                },
                Err(e) => Err(e),
            }
        },
        other => {
            match image_load(data, other) {
                Ok(img) => Ok((other, Image::General(img))),
                Err(e) => Err(Error::from_image(split_image_error(e))),
            }
        },
    }
}

} // verus!
