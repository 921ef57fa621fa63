//! The trusted wrappers through which the library drives the png crate.
//!
//! The decoder and the frame reader are opaque; beside each stands, as ghost
//! state that only the wrapper opening the stream sets, the bytes of the
//! stream and the allocation ceiling it was opened with. The decoder is always
//! configured the same way (textual chunks kept, samples expanded), so what png
//! reports is a function of those two values, and the names below stand for it.
use std::io::Cursor;
use crate::layout::{color_of_code, depth_of_code};
use crate::png_decoder::{be_u32_at, IHDR_COLOR_AT, IHDR_DEPTH_AT, IHDR_HEIGHT_AT, IHDR_WIDTH_AT};
use vstd::prelude::*;

verus! {

#[verifier::external_type_specification]
#[verifier::external_body]
pub struct ExPngDecodingError(png::DecodingError);

/// A png decoder over an in-memory stream, before its header has been
/// committed. png's `Decoder<R>` is bounded by std's `BufRead + Seek`, which
/// Verus cannot take as bounds, so the value is held opaquely here.
#[verifier::external_body]
pub struct PngDecoderHandle {
    decoder: png::Decoder<Cursor<Vec<u8>>>,
}

/// A png frame reader over an in-memory stream, held opaquely for the same
/// reason as `PngDecoderHandle`.
#[verifier::external_body]
pub struct PngReaderHandle {
    reader: png::Reader<Cursor<Vec<u8>>>,
}

/// A png decoder together with the bytes and the allocation ceiling it was opened on.
pub struct PngHeaderStage {
    handle: PngDecoderHandle,
    data: Ghost<Seq<u8>>,
    max_bytes: Ghost<usize>,
}

/// A png frame reader together with the bytes and the allocation ceiling it was opened on.
pub struct PngFrameReader {
    handle: PngReaderHandle,
    data: Ghost<Seq<u8>>,
    max_bytes: Ghost<usize>,
}

impl PngHeaderStage {
    /// The bytes of the stream.
    pub closed spec fn data_view(&self) -> Seq<u8> {
        self.data@
    }

    /// The allocation ceiling png was opened with.
    pub closed spec fn max_bytes_view(&self) -> usize {
        self.max_bytes@
    }
}

impl PngFrameReader {
    /// The bytes of the stream.
    pub closed spec fn data_view(&self) -> Seq<u8> {
        self.data@
    }

    /// The allocation ceiling png was opened with.
    pub closed spec fn max_bytes_view(&self) -> usize {
        self.max_bytes@
    }
}

/// The bytes of an optional byte vector.
pub open spec fn opt_bytes(o: Option<Vec<u8>>) -> Option<Seq<u8>> {
    match o {
        Some(v) => Some(v@),
        None => None,
    }
}

/// Whether png reads the header of the stream without error.
pub uninterp spec fn png_header_ok(data: Seq<u8>, max_bytes: usize) -> bool;

/// Whether png reads the metadata up to the first image data without error.
pub uninterp spec fn png_info_ok(data: Seq<u8>, max_bytes: usize) -> bool;

/// The codes of the colour type and depth that png writes frames in.
pub uninterp spec fn png_output_codes(data: Seq<u8>, max_bytes: usize) -> (u8, u8);

/// Whether png reports the stream as animated.
pub uninterp spec fn png_animated(data: Seq<u8>, max_bytes: usize) -> bool;

/// The gamma that png reads from the stream, times 100000.
pub uninterp spec fn png_gamma(data: Seq<u8>, max_bytes: usize) -> Option<u32>;

/// The ICC profile that png reads from the stream, inflated.
pub uninterp spec fn png_icc(data: Seq<u8>, max_bytes: usize) -> Option<Seq<u8>>;

/// The EXIF block that png reads from the stream.
pub uninterp spec fn png_exif(data: Seq<u8>, max_bytes: usize) -> Option<Seq<u8>>;

/// The buffer after png decodes the first frame into it, or `None` where it fails.
pub uninterp spec fn png_frame(data: Seq<u8>, max_bytes: usize, buf: Seq<u8>) -> Option<Seq<u8>>;

/// The keywords of the international textual chunks, in stream order.
pub uninterp spec fn png_itxt_keywords(data: Seq<u8>, max_bytes: usize) -> Seq<Seq<u8>>;

/// The text of the international textual chunk at an index, inflated if it is
/// stored compressed, or `None` where inflating or decoding it fails.
pub uninterp spec fn png_itxt_text(data: Seq<u8>, max_bytes: usize, i: int) -> Option<Seq<u8>>;

/// The keywords of the compressed Latin-1 textual chunks, in stream order.
pub uninterp spec fn png_ztxt_keywords(data: Seq<u8>, max_bytes: usize) -> Seq<Seq<u8>>;

/// The inflated text of the compressed Latin-1 chunk at an index, or `None`
/// where inflating it fails.
pub uninterp spec fn png_ztxt_text(data: Seq<u8>, max_bytes: usize, i: int) -> Option<Seq<u8>>;

/// The keyword and text of each plain Latin-1 textual chunk, in stream order.
pub uninterp spec fn png_text_chunks(data: Seq<u8>, max_bytes: usize) -> Seq<(Seq<u8>, Seq<u8>)>;

/// Relies on `png::Decoder::new_with_limits` over a `Cursor` of the bytes, with
/// `set_ignore_text_chunk(false)` and `set_transformations(EXPAND)`: a decoder
/// that has read nothing yet, may allocate at most `max_bytes`, keeps textual
/// chunks and widens samples below 8 bits and palettes.
#[verifier::external_body]
pub(crate) fn png_decoder_new(data: Vec<u8>, max_bytes: usize) -> (r: PngHeaderStage)
    ensures
        r.data_view() == data@,
        r.max_bytes_view() == max_bytes,
{
    let ghost bytes = data@;
    let mut decoder = png::Decoder::new_with_limits(Cursor::new(data), png::Limits { bytes: max_bytes });
    decoder.set_ignore_text_chunk(false);
    decoder.set_transformations(png::Transformations::EXPAND);
    PngHeaderStage { handle: PngDecoderHandle { decoder }, data: Ghost(bytes), max_bytes: Ghost(max_bytes) }
}

/// Relies on `png::Decoder::read_header_info`. png accepts only a stream that
/// opens with the signature and then the 13-byte IHDR chunk, so the width,
/// height, bit depth and colour type it reports are the IHDR fields at bytes
/// 16, 20, 24 and 25, and the codes are ones that png knows.
#[verifier::external_body]
pub(crate) fn png_read_header_info(stage: &mut PngHeaderStage) -> (r: Result<(u32, u32, u8, u8), png::DecodingError>)
    ensures
        final(stage).data_view() == old(stage).data_view(),
        final(stage).max_bytes_view() == old(stage).max_bytes_view(),
        r is Ok <==> png_header_ok(old(stage).data_view(), old(stage).max_bytes_view()),
        r matches Ok(h) ==> {
            let data = old(stage).data_view();
            &&& data.len() >= 26
            &&& h.0 as int == be_u32_at(data, IHDR_WIDTH_AT as int)
            &&& h.1 as int == be_u32_at(data, IHDR_HEIGHT_AT as int)
            &&& h.2 == data[IHDR_COLOR_AT as int]
            &&& h.3 == data[IHDR_DEPTH_AT as int]
            &&& color_of_code(h.2) is Some
            &&& depth_of_code(h.3) is Some
        },
{
    stage.handle.decoder.read_header_info().map(|i| (i.width, i.height, i.color_type as u8, i.bit_depth as u8))
}

/// Relies on `png::Decoder::read_info`: reads the metadata up to the first
/// image data and gives the frame reader over the same stream.
#[verifier::external_body]
pub(crate) fn png_read_info(stage: PngHeaderStage) -> (r: Result<PngFrameReader, png::DecodingError>)
    ensures
        r is Ok <==> png_info_ok(stage.data_view(), stage.max_bytes_view()),
        r matches Ok(reader) ==> reader.data_view() == stage.data_view() && reader.max_bytes_view()
            == stage.max_bytes_view(),
{
    let (data, max_bytes) = (stage.data, stage.max_bytes);
    let handle = stage.handle;
    handle.decoder.read_info().map(|reader| PngFrameReader { handle: PngReaderHandle { reader }, data, max_bytes })
}

/// Relies on `png::Reader::output_color_type`: the codes of the colour type and
/// depth of the samples that `next_frame` writes; both are `repr(u8)` enums.
/// With `EXPAND` a depth of 8 or 16 is kept, and a colour type is kept but for
/// a transparency key, which adds alpha to grey and RGB, and a palette.
#[verifier::external_body]
pub(crate) fn png_output_color_type(reader: &PngFrameReader) -> (r: (u8, u8))
    ensures
        r == png_output_codes(reader.data_view(), reader.max_bytes_view()),
        color_of_code(r.0) is Some,
        depth_of_code(r.1) is Some,
        reader.data_view().len() >= 26 && reader.data_view()[IHDR_DEPTH_AT as int] >= 8 ==> r.1
            == reader.data_view()[IHDR_DEPTH_AT as int],
        reader.data_view().len() >= 26 && reader.data_view()[IHDR_COLOR_AT as int] != 3 ==> (r.0
            == reader.data_view()[IHDR_COLOR_AT as int] || (reader.data_view()[IHDR_COLOR_AT as int]
            == 0 && r.0 == 4) || (reader.data_view()[IHDR_COLOR_AT as int] == 2 && r.0 == 6)),
{
    let (color, depth) = reader.handle.reader.output_color_type();
    (color as u8, depth as u8)
}

/// Relies on `png::Info::is_animated`: whether the stream has an animation control chunk.
#[verifier::external_body]
pub(crate) fn png_is_animated(reader: &PngFrameReader) -> (r: bool)
    ensures
        r == png_animated(reader.data_view(), reader.max_bytes_view()),
{
    reader.handle.reader.info().is_animated()
}

/// Relies on `png::Info::source_gamma` and `ScaledFloat::into_scaled`: the
/// gamma times 100000, if the stream states one.
#[verifier::external_body]
pub(crate) fn png_source_gamma_scaled(reader: &PngFrameReader) -> (r: Option<u32>)
    ensures
        r == png_gamma(reader.data_view(), reader.max_bytes_view()),
{
    reader.handle.reader.info().source_gamma.map(|g| g.into_scaled())
}

/// Relies on `png::Info::icc_profile`: the embedded colour profile, verbatim.
#[verifier::external_body]
pub(crate) fn png_icc_profile(reader: &PngFrameReader) -> (r: Option<Vec<u8>>)
    ensures
        opt_bytes(r) == png_icc(reader.data_view(), reader.max_bytes_view()),
{
    reader.handle.reader.info().icc_profile.as_ref().map(|x| x.to_vec())
}

/// Relies on `png::Info::exif_metadata`: the embedded EXIF block, verbatim.
#[verifier::external_body]
pub(crate) fn png_exif_metadata(reader: &PngFrameReader) -> (r: Option<Vec<u8>>)
    ensures
        opt_bytes(r) == png_exif(reader.data_view(), reader.max_bytes_view()),
{
    reader.handle.reader.info().exif_metadata.as_ref().map(|x| x.to_vec())
}

/// Relies on `png::Reader::next_frame`, called once on a fresh reader: decodes
/// the first frame into the buffer, whose length a slice cannot change.
#[verifier::external_body]
pub(crate) fn png_next_frame(reader: PngFrameReader, buf: &mut Vec<u8>) -> (r: Result<(), png::DecodingError>)
    ensures
        final(buf)@.len() == old(buf)@.len(),
        r is Ok <==> png_frame(reader.data_view(), reader.max_bytes_view(), old(buf)@) is Some,
        r is Ok ==> final(buf)@ == png_frame(reader.data_view(), reader.max_bytes_view(), old(buf)@)->0,
{
    let mut reader = reader.handle.reader;
    reader.next_frame(buf.as_mut_slice()).map(|_| ())
}

/// Relies on the `keyword` field of each chunk of `png::Info::utf8_text`: its UTF-8 bytes.
#[verifier::external_body]
pub(crate) fn png_utf8_keywords(reader: &PngFrameReader) -> (r: Vec<Vec<u8>>)
    ensures
        r@.map_values(|k: Vec<u8>| k@) == png_itxt_keywords(reader.data_view(), reader.max_bytes_view()),
{
    reader.handle.reader.info().utf8_text.iter().map(|c| c.keyword.as_bytes().to_vec()).collect()
}

/// Relies on `ITXtChunk::decompress_text` and `get_text` on a copy of the chunk
/// at index `i` of `png::Info::utf8_text`: its text, as UTF-8 bytes.
#[verifier::external_body]
pub(crate) fn png_utf8_text_at(reader: &PngFrameReader, i: usize) -> (r: Result<Vec<u8>, png::DecodingError>)
    requires
        i < png_itxt_keywords(reader.data_view(), reader.max_bytes_view()).len(),
    ensures
        r is Ok <==> png_itxt_text(reader.data_view(), reader.max_bytes_view(), i as int) is Some,
        r matches Ok(v) ==> Some(v@) == png_itxt_text(reader.data_view(), reader.max_bytes_view(), i as int),
{
    let mut chunk = reader.handle.reader.info().utf8_text[i].clone();
    chunk.decompress_text()?;
    chunk.get_text().map(|t| t.into_bytes())
}

/// Relies on the `keyword` field of each chunk of `png::Info::compressed_latin1_text`.
#[verifier::external_body]
pub(crate) fn png_compressed_latin1_keywords(reader: &PngFrameReader) -> (r: Vec<Vec<u8>>)
    ensures
        r@.map_values(|k: Vec<u8>| k@) == png_ztxt_keywords(reader.data_view(), reader.max_bytes_view()),
{
    reader.handle.reader.info().compressed_latin1_text.iter().map(|c| c.keyword.as_bytes().to_vec()).collect()
}

/// Relies on `ZTXtChunk::decompress_text` and `get_text` on a copy of the chunk
/// at index `i` of `png::Info::compressed_latin1_text`: its text, as UTF-8 bytes.
#[verifier::external_body]
pub(crate) fn png_compressed_latin1_text_at(reader: &PngFrameReader, i: usize) -> (r: Result<Vec<u8>, png::DecodingError>)
    requires
        i < png_ztxt_keywords(reader.data_view(), reader.max_bytes_view()).len(),
    ensures
        r is Ok <==> png_ztxt_text(reader.data_view(), reader.max_bytes_view(), i as int) is Some,
        r matches Ok(v) ==> Some(v@) == png_ztxt_text(reader.data_view(), reader.max_bytes_view(), i as int),
{
    let mut chunk = reader.handle.reader.info().compressed_latin1_text[i].clone();
    chunk.decompress_text()?;
    chunk.get_text().map(|t| t.into_bytes())
}

/// Relies on the `keyword` and `text` fields of each chunk of
/// `png::Info::uncompressed_latin1_text`: their UTF-8 bytes.
#[verifier::external_body]
pub(crate) fn png_uncompressed_latin1_text(reader: &PngFrameReader) -> (r: Vec<(Vec<u8>, Vec<u8>)>)
    ensures
        r@.map_values(|c: (Vec<u8>, Vec<u8>)| (c.0@, c.1@)) == png_text_chunks(reader.data_view(), reader.max_bytes_view()),
{
    let chunks = &reader.handle.reader.info().uncompressed_latin1_text;
    chunks.iter().map(|c| (c.keyword.as_bytes().to_vec(), c.text.as_bytes().to_vec())).collect()
}

} // verus!
