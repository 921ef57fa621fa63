use crate::bindings::split_png_error;
use crate::byte_order::{host_byte_order, normalize_samples, normalized, ByteOrder};
use crate::error::{Error, LimitKind};
use crate::layout::{classify, layout_of, pair_from_codes, pair_of_codes, ColorLayout, PngColorType, SampleDepth};
use crate::limits::ResourceLimits;
use crate::metadata::{any_match, byte_strings, find_keyword, first_match, iptc_key_list, iptc_keys, xmp_key_list, xmp_keys};
use crate::png_bindings::{
    opt_bytes, png_animated, png_compressed_latin1_keywords, png_compressed_latin1_text_at,
    png_decoder_new, png_exif, png_exif_metadata, png_frame, png_gamma, png_header_ok, png_icc,
    png_icc_profile, png_info_ok, png_is_animated, png_itxt_keywords, png_itxt_text, png_next_frame,
    png_output_codes, png_output_color_type, png_read_header_info, png_read_info,
    png_source_gamma_scaled, png_text_chunks, png_uncompressed_latin1_text, png_utf8_keywords,
    png_utf8_text_at, png_ztxt_keywords, png_ztxt_text, PngFrameReader,
};
use vstd::prelude::*;

verus! {

/// Offset of the IHDR width in a PNG stream: after the 8-byte signature and
/// the IHDR chunk's length and type.
pub const IHDR_WIDTH_AT: usize = 16;

/// Offset of the IHDR height.
pub const IHDR_HEIGHT_AT: usize = 20;

/// Offset of the IHDR bit depth.
pub const IHDR_DEPTH_AT: usize = 24;

/// Offset of the IHDR colour type.
pub const IHDR_COLOR_AT: usize = 25;

/// The big-endian 32-bit value at offset `i`.
pub open spec fn be_u32_at(data: Seq<u8>, i: int) -> int {
    data[i] as int * 0x100_0000 + data[i + 1] as int * 0x1_0000 + data[i + 2] as int * 0x100 + data[i + 3] as int
}

/// The width that the IHDR chunk declares.
pub open spec fn ihdr_width(data: Seq<u8>) -> int {
    be_u32_at(data, IHDR_WIDTH_AT as int)
}

/// The height that the IHDR chunk declares.
pub open spec fn ihdr_height(data: Seq<u8>) -> int {
    be_u32_at(data, IHDR_HEIGHT_AT as int)
}

/// The (colour type, bit depth) pair that the IHDR chunk declares.
pub open spec fn ihdr_pair(data: Seq<u8>) -> (PngColorType, SampleDepth) {
    pair_of_codes(data[IHDR_COLOR_AT as int], data[IHDR_DEPTH_AT as int])
}

/// The pair that png writes frames in, once samples are expanded.
pub open spec fn output_pair(data: Seq<u8>, max_bytes: usize) -> (PngColorType, SampleDepth) {
    pair_of_codes(png_output_codes(data, max_bytes).0, png_output_codes(data, max_bytes).1)
}

/// Whether the header is read, its dimensions are within the limits, its pair
/// and the expanded output pair have a layout, and the metadata is read.
pub open spec fn png_opens(data: Seq<u8>, limits: ResourceLimits) -> bool {
    let m = limits.alloc_ceiling_spec();
    &&& png_header_ok(data, m)
    &&& limits.allows(ihdr_width(data) as u32, ihdr_height(data) as u32)
    &&& layout_of(ihdr_pair(data).0, ihdr_pair(data).1) is Some
    &&& png_info_ok(data, m)
    &&& layout_of(output_pair(data, m).0, output_pair(data, m).1) is Some
}

/// The layout with an alpha channel added, for grey and RGB.
pub open spec fn with_alpha(layout: ColorLayout) -> ColorLayout {
    match layout {
        ColorLayout::L8 => ColorLayout::La8,
        ColorLayout::Rgb8 => ColorLayout::Rgba8,
        ColorLayout::L16 => ColorLayout::La16,
        ColorLayout::Rgb16 => ColorLayout::Rgba16,
        other => other,
    }
}

/// What opening a PNG stream under the limits gives: success exactly when
/// the stream opens; a dimension error when the readable header is too large;
/// an unsupported-colour error naming the declared pair when it has no
/// layout; and on success the declared dimensions, and the declared layout,
/// with alpha added where a transparency key asks for it.
pub open spec fn open_outcome(data: Seq<u8>, limits: ResourceLimits, r: Result<PngDecoder, Error>) -> bool {
    let m = limits.alloc_ceiling_spec();
    let (w, h) = (ihdr_width(data) as u32, ihdr_height(data) as u32);
    let (c, b) = ihdr_pair(data);
    &&& (r is Ok <==> png_opens(data, limits))
    &&& (png_header_ok(data, m) && !limits.allows(w, h) ==> r matches Err(Error::Limits(LimitKind::Dimensions)))
    &&& (png_header_ok(data, m) && limits.allows(w, h) && layout_of(c, b) is None ==> (r matches Err(
        Error::UnsupportedColor(rc, rb),
    ) && rc == c && rb == b))
    &&& (r matches Ok(d) ==> {
        &&& d.width_spec() as int == ihdr_width(data)
        &&& d.height_spec() as int == ihdr_height(data)
        &&& Some(d.layout_spec()) == layout_of(output_pair(data, m).0, output_pair(data, m).1)
        &&& (d.layout_spec() == layout_of(c, b)->0 || d.layout_spec() == with_alpha(layout_of(c, b)->0))
        &&& d.animated_spec() == png_animated(data, m)
        &&& d.limits_spec() == limits
        &&& d.data_spec() == data
        &&& d.max_bytes_spec() == m
    })
    &&& (r matches Err(Error::Limits(LimitKind::Dimensions)) ==> limits.max_image_width is Some
        || limits.max_image_height is Some)
    &&& (r matches Err(Error::UnsupportedColor(rc, rb)) ==> layout_of(rc, rb) is None)
    &&& !(r matches Err(Error::UnsupportedFormat))
}

/// A buffer of `n` zero bytes.
pub open spec fn zeros(n: int) -> Seq<u8> {
    Seq::new(n as nat, |i: int| 0u8)
}

/// The number of bytes of a frame of the given dimensions and layout.
pub open spec fn frame_len(width: u32, height: u32, layout: ColorLayout) -> int {
    width as int * height as int * layout.bytes_per_pixel_spec() as int
}

/// Whether a buffer of `len` bytes may be allocated under the limits: it must
/// be addressable and within the allocation ceiling, if one is set.
pub open spec fn fits_allocation(limits: ResourceLimits, len: int) -> bool {
    &&& len <= isize::MAX as int
    &&& (limits.max_alloc matches Some(m) ==> len <= m as int)
}

/// A decoded image: its dimensions, its layout, and its pixels row by row.
pub struct DecodedImage {
    pub width: u32,
    pub height: u32,
    pub layout: ColorLayout,
    pub pixels: Vec<u8>,
}

impl DecodedImage {
    /// The pixel buffer holds exactly the frame: no partial pixel, none missing.
    pub open spec fn wf(&self) -> bool {
        self.pixels@.len() == frame_len(self.width, self.height, self.layout)
    }
}

/// Two first matches are the same index.
pub proof fn lemma_first_match_unique(keywords: Seq<Seq<u8>>, keys: Seq<Seq<u8>>, i: int)
    requires
        first_match(keywords, keys, i),
    ensures
        forall|j: int| #[trigger] first_match(keywords, keys, j) ==> j == i,
{
    assert forall|j: int| #[trigger] first_match(keywords, keys, j) implies j == i by {
        if j < i {
            let k = choose|k: int| 0 <= k < keys.len() && #[trigger] crate::metadata::contains_bytes(keywords[j], keys[k]);
            assert(!crate::metadata::contains_bytes(keywords[j], keys[k]));
        } else if i < j {
            let k = choose|k: int| 0 <= k < keys.len() && #[trigger] crate::metadata::contains_bytes(keywords[i], keys[k]);
            assert(!crate::metadata::contains_bytes(keywords[i], keys[k]));
        }
    }
}

/// The layout for the colour type and depth that the frame reader reports, or
/// the unsupported-colour error naming that exact pair.
pub fn layout_for(color: PngColorType, depth: SampleDepth) -> (r: Result<ColorLayout, Error>)
    ensures
        match layout_of(color, depth) {
            Some(l) => r matches Ok(x) && x == l,
            None => r matches Err(Error::UnsupportedColor(c, d)) && c == color && d == depth,
        },
{
    match classify(color, depth) {
        Some(l) => Ok(l),
        None => Err(Error::UnsupportedColor(color, depth)),
    }
}

/// Where the IPTC block of an image is to be read from.
#[derive(Clone, Copy, Debug, PartialEq, Eq, Structural)]
pub enum ChunkChoice {
    /// The compressed Latin-1 chunk at this index.
    Compressed(usize),
    /// The plain Latin-1 chunk at this index.
    Uncompressed(usize),
    /// No chunk carries an IPTC keyword.
    Absent,
}

/// Picks the chunk that holds the IPTC block: the first compressed chunk with
/// an IPTC keyword, else the first plain chunk with one.
pub fn choose_iptc_chunk(compressed: &Vec<Vec<u8>>, uncompressed: &Vec<Vec<u8>>) -> (r: ChunkChoice)
    ensures
        match r {
            ChunkChoice::Compressed(i) => first_match(byte_strings(compressed@), iptc_keys(), i as int),
            ChunkChoice::Uncompressed(i) => !any_match(byte_strings(compressed@), iptc_keys())
                && first_match(byte_strings(uncompressed@), iptc_keys(), i as int),
            ChunkChoice::Absent => !any_match(byte_strings(compressed@), iptc_keys())
                && !any_match(byte_strings(uncompressed@), iptc_keys()),
        },
{
    let keys = iptc_key_list();
    match find_keyword(compressed, &keys) {
        Some(i) => ChunkChoice::Compressed(i),
        None => match find_keyword(uncompressed, &keys) {
            Some(i) => ChunkChoice::Uncompressed(i),
            None => ChunkChoice::Absent,
        },
    }
}

/// A PNG decoder whose header has been read and checked: the dimensions are
/// within the limits and the output layout is one of the supported ones.
pub struct PngDecoder {
    width: u32,
    height: u32,
    color_type: ColorLayout,
    is_16bit: bool,
    animated: bool,
    reader: PngFrameReader,
    limits: ResourceLimits,
}

impl PngDecoder {
    #[verifier::type_invariant]
    spec fn inv(self) -> bool {
        &&& self.is_16bit == self.color_type.is_16bit_spec()
        &&& self.limits.allows(self.width, self.height)
    }

    /// The declared width.
    pub closed spec fn width_spec(&self) -> u32 {
        self.width
    }

    /// The declared height.
    pub closed spec fn height_spec(&self) -> u32 {
        self.height
    }

    /// The layout of the decoded pixels.
    pub closed spec fn layout_spec(&self) -> ColorLayout {
        self.color_type
    }

    /// Whether the stream holds an animation.
    pub closed spec fn animated_spec(&self) -> bool {
        self.animated
    }

    /// The limits in force.
    pub closed spec fn limits_spec(&self) -> ResourceLimits {
        self.limits
    }

    /// The bytes of the stream.
    pub closed spec fn data_spec(&self) -> Seq<u8> {
        self.reader.data_view()
    }

    /// The allocation ceiling that png was opened with.
    pub closed spec fn max_bytes_spec(&self) -> usize {
        self.reader.max_bytes_view()
    }

    /// Opens a PNG stream with no limits: the same as `with_limits` with
    /// limits that constrain nothing.
    pub fn new(data: Vec<u8>) -> (r: Result<PngDecoder, Error>)
        ensures
            open_outcome(data@, ResourceLimits::no_limits_spec(), r),
            !(r matches Err(Error::Limits(LimitKind::Dimensions))),
    {
        let limits = ResourceLimits::no_limits();
        PngDecoder::with_limits(data, limits)
    }

    /// Opens a PNG stream: reads its header, checks the declared dimensions
    /// against the limits and the declared colour type and depth against the
    /// supported layouts before anything else is read, reads the metadata up
    /// to the image data and classifies the pair that png writes frames in
    /// once samples are expanded.
    pub fn with_limits(data: Vec<u8>, limits: ResourceLimits) -> (r: Result<PngDecoder, Error>)
        ensures
            open_outcome(data@, limits, r),
    {
        let max_bytes = limits.alloc_ceiling();
        let mut stage = png_decoder_new(data, max_bytes);
        let (width, height, color_code, depth_code) = match png_read_header_info(&mut stage) {
            Ok(h) => h,
            Err(e) => return Err(Error::from_png_header(split_png_error(e))),
        };
        match limits.check_dimensions(width, height) {
            Ok(()) => {},
            Err(e) => return Err(e),
        }
        let (declared_color, declared_depth) = pair_from_codes(color_code, depth_code);
        match layout_for(declared_color, declared_depth) {
            Ok(_) => {},
            Err(e) => return Err(e),
        }
        let reader = match png_read_info(stage) {
            Ok(reader) => reader,
            Err(e) => return Err(Error::from_png_header(split_png_error(e))),
        };
        let (out_color, out_depth) = png_output_color_type(&reader);
        let (color, depth) = pair_from_codes(out_color, out_depth);
        let color_type = match layout_for(color, depth) {
            Ok(l) => l,
            Err(e) => return Err(e),
        };
        let is_16bit = color_type.is_16bit();
        let animated = png_is_animated(&reader);
        Ok(PngDecoder { width, height, color_type, is_16bit, animated, reader, limits })
    }

    /// The width and height that the header declares.
    pub fn dimensions(&self) -> (r: (u32, u32))
        ensures
            r == (self.width_spec(), self.height_spec()),
            self.limits_spec().allows(r.0, r.1),
    {
        proof {
            use_type_invariant(self);
        }
        (self.width, self.height)
    }

    /// The layout of the decoded pixels.
    pub fn color_type(&self) -> (r: ColorLayout)
        ensures
            r == self.layout_spec(),
    {
        self.color_type
    }

    /// Whether the stream holds an animation.
    pub fn is_animated(&self) -> (r: bool)
        ensures
            r == self.animated_spec(),
    {
        self.animated
    }

    /// Whether each channel of the decoded pixels takes 16 bits.
    pub fn is_16bit(&self) -> (r: bool)
        ensures
            r == self.layout_spec().is_16bit_spec(),
    {
        proof {
            use_type_invariant(self);
        }
        self.is_16bit
    }

    /// The gamma that the stream states, times 100000.
    pub fn gamma_scaled(&self) -> (r: Option<u32>)
        ensures
            r == png_gamma(self.data_spec(), self.max_bytes_spec()),
    {
        png_source_gamma_scaled(&self.reader)
    }

    /// The embedded ICC colour profile, verbatim; `None` when there is none.
    pub fn icc_profile(&self) -> (r: Option<Vec<u8>>)
        ensures
            opt_bytes(r) == png_icc(self.data_spec(), self.max_bytes_spec()),
    {
        png_icc_profile(&self.reader)
    }

    /// The embedded EXIF block, verbatim; `None` when there is none.
    pub fn exif_metadata(&self) -> (r: Option<Vec<u8>>)
        ensures
            opt_bytes(r) == png_exif(self.data_spec(), self.max_bytes_spec()),
    {
        png_exif_metadata(&self.reader)
    }

    /// The XMP packet: the text of the first international textual chunk whose
    /// keyword contains the XMP key, inflated if stored compressed; `None`
    /// exactly when no keyword contains it, and an error when that chunk
    /// cannot be inflated or decoded.
    pub fn xmp_metadata(&self) -> (r: Result<Option<Vec<u8>>, Error>)
        ensures
            ({
                let kw = png_itxt_keywords(self.data_spec(), self.max_bytes_spec());
                &&& (r matches Ok(None) <==> !any_match(kw, xmp_keys()))
                &&& (forall|i: int| #[trigger] first_match(kw, xmp_keys(), i) ==> {
                    let text = png_itxt_text(self.data_spec(), self.max_bytes_spec(), i);
                    &&& (r is Ok <==> text is Some)
                    &&& (r matches Ok(Some(v)) ==> Some(v@) == text)
                })
            }),
    {
        let keywords = png_utf8_keywords(&self.reader);
        let keys = xmp_key_list();
        let ghost kw = png_itxt_keywords(self.data_spec(), self.max_bytes_spec());
        assert(byte_strings(keywords@) == kw);
        match find_keyword(&keywords, &keys) {
            Some(i) => {
                proof {
                    lemma_first_match_unique(kw, xmp_keys(), i as int);
                    assert(!any_match(kw, xmp_keys()) ==> false) by {
                        let k = choose|k: int| 0 <= k < xmp_keys().len() && #[trigger] crate::metadata::contains_bytes(kw[i as int], xmp_keys()[k]);
                    }
                }
                match png_utf8_text_at(&self.reader, i) {
                    Ok(text) => Ok(Some(text)),
                    Err(e) => Err(Error::from_png_frame(split_png_error(e))),
                }
            },
            None => Ok(None),
        }
    }

    /// The IPTC block: taken from the first compressed Latin-1 chunk with an
    /// IPTC keyword, else from the first plain one; `None` when neither exists.
    /// Only inflating a compressed chunk can fail.
    pub fn iptc_metadata(&self) -> (r: Result<Option<Vec<u8>>, Error>)
        ensures
            ({
                let z = png_ztxt_keywords(self.data_spec(), self.max_bytes_spec());
                let t = png_text_chunks(self.data_spec(), self.max_bytes_spec());
                let tk = t.map_values(|c: (Seq<u8>, Seq<u8>)| c.0);
                &&& (r matches Ok(None) <==> !any_match(z, iptc_keys()) && !any_match(tk, iptc_keys()))
                &&& (r is Err ==> any_match(z, iptc_keys()))
                &&& (forall|k: int| #[trigger] first_match(z, iptc_keys(), k) ==> {
                    let text = png_ztxt_text(self.data_spec(), self.max_bytes_spec(), k);
                    &&& (r is Ok <==> text is Some)
                    &&& (r matches Ok(Some(v)) ==> Some(v@) == text)
                })
                &&& (forall|k: int|
                    !any_match(z, iptc_keys()) && #[trigger] first_match(tk, iptc_keys(), k) ==> (r matches Ok(Some(v)) && v@ == t[k].1))
            }),
    {
        let compressed_keywords = png_compressed_latin1_keywords(&self.reader);
        let plain = png_uncompressed_latin1_text(&self.reader);
        let ghost t = png_text_chunks(self.data_spec(), self.max_bytes_spec());
        let mut plain_keywords: Vec<Vec<u8>> = Vec::new();
        let mut j: usize = 0;
        while j < plain.len()
            invariant
                j <= plain@.len(),
                plain_keywords@.len() == j,
                plain@.map_values(|c: (Vec<u8>, Vec<u8>)| (c.0@, c.1@)) == t,
                byte_strings(plain_keywords@) =~= t.map_values(|c: (Seq<u8>, Seq<u8>)| c.0).subrange(0, j as int),
            decreases plain@.len() - j,
        {
            let ghost before = plain_keywords@;
            plain_keywords.push(vstd::slice::slice_to_vec(plain[j].0.as_slice()));
            proof {
                let tk = t.map_values(|c: (Seq<u8>, Seq<u8>)| c.0);
                assert(plain@.map_values(|c: (Vec<u8>, Vec<u8>)| (c.0@, c.1@))[j as int] == t[j as int]);
                assert(plain_keywords@[j as int]@ == plain@[j as int].0@);
                assert(tk[j as int] == t[j as int].0);
                assert(plain_keywords@[j as int]@ == tk[j as int]);
                assert forall|q: int| 0 <= q < j + 1 implies byte_strings(plain_keywords@)[q] == tk.subrange(0, j + 1)[q] by {
                    if q < j {
                        assert(byte_strings(before)[q] == tk.subrange(0, j as int)[q]);
                        assert(plain_keywords@[q] == before[q]);
                    }
                }
                assert(byte_strings(plain_keywords@) =~= tk.subrange(0, j + 1));
            }
            j = j + 1;
        }
        assert(byte_strings(plain_keywords@) =~= t.map_values(|c: (Seq<u8>, Seq<u8>)| c.0));
        assert(byte_strings(compressed_keywords@) == png_ztxt_keywords(self.data_spec(), self.max_bytes_spec()));
        match choose_iptc_chunk(&compressed_keywords, &plain_keywords) {
            ChunkChoice::Compressed(k) => {
                proof {
                    lemma_first_match_unique(png_ztxt_keywords(self.data_spec(), self.max_bytes_spec()), iptc_keys(), k as int);
                }
                match png_compressed_latin1_text_at(&self.reader, k) {
                    Ok(text) => Ok(Some(text)),
                    Err(e) => Err(Error::from_png_frame(split_png_error(e))),
                }
            },
            ChunkChoice::Uncompressed(k) => {
                proof {
                    assert(plain@.map_values(|c: (Vec<u8>, Vec<u8>)| (c.0@, c.1@))[k as int] == t[k as int]);
                    lemma_first_match_unique(
                        t.map_values(|c: (Seq<u8>, Seq<u8>)| c.0),
                        iptc_keys(),
                        k as int,
                    );
                }
                Ok(Some(vstd::slice::slice_to_vec(plain[k].1.as_slice())))
            },
            ChunkChoice::Absent => Ok(None),
        }
    }

    /// The number of bytes of the decoded frame.
    pub fn total_bytes(&self) -> (r: u128)
        ensures
            r as int == frame_len(self.width_spec(), self.height_spec(), self.layout_spec()),
    {
        let bpp = self.color_type.bytes_per_pixel();
        let w = self.width as u128;
        let h = self.height as u128;
        assert(w * h <= 0xFFFF_FFFF * 0xFFFF_FFFF) by (nonlinear_arith)
            requires
                w <= 0xFFFF_FFFF,
                h <= 0xFFFF_FFFF,
        ;
        assert(w * h * (bpp as u128) <= 0xFFFF_FFFF * 0xFFFF_FFFF * 8) by (nonlinear_arith)
            requires
                w * h <= 0xFFFF_FFFF * 0xFFFF_FFFF,
                bpp <= 8,
        ;
        w * h * (bpp as u128)
    }

    /// Decodes the frame into `buf`, whose length must be that of the frame,
    /// and rewrites 16-bit samples from big-endian into the host's order.
    pub fn read_image(self, buf: &mut Vec<u8>) -> (r: Result<(), Error>)
        requires
            old(buf)@.len() == frame_len(self.width_spec(), self.height_spec(), self.layout_spec()),
        ensures
            final(buf)@.len() == old(buf)@.len(),
            !(r matches Err(Error::TooBig)),
            !(r matches Err(Error::Animated)),
            !(r matches Err(Error::UnsupportedFormat)),
            r is Ok <==> png_frame(self.data_spec(), self.max_bytes_spec(), old(buf)@) is Some,
            r is Ok ==> exists|order: ByteOrder|
                final(buf)@ == normalized(
                    self.layout_spec(),
                    order,
                    png_frame(self.data_spec(), self.max_bytes_spec(), old(buf)@)->0,
                ),
    {
        let layout = self.color_type;
        match png_next_frame(self.reader, buf) {
            Ok(()) => {},
            Err(e) => return Err(Error::from_png_frame(split_png_error(e))),
        }
        let order = host_byte_order();
        normalize_samples(buf, layout, order);
        Ok(())
    }

    /// Decodes the whole image into a zeroed buffer of the frame's size. The
    /// buffer is allocated only when its size is addressable and within the
    /// allocation limit; otherwise this fails with `TooBig` before anything is
    /// allocated.
    pub fn decode(self) -> (r: Result<DecodedImage, Error>)
        ensures
            ({
                let n = frame_len(self.width_spec(), self.height_spec(), self.layout_spec());
                let frame = png_frame(self.data_spec(), self.max_bytes_spec(), zeros(n));
                &&& (!fits_allocation(self.limits_spec(), n) <==> r matches Err(Error::TooBig))
                &&& (fits_allocation(self.limits_spec(), n) ==> (r is Ok <==> frame is Some))
                &&& (r matches Ok(img) ==> {
                    &&& img.wf()
                    &&& img.width == self.width_spec()
                    &&& img.height == self.height_spec()
                    &&& img.layout == self.layout_spec()
                    &&& exists|order: ByteOrder| img.pixels@ == normalized(self.layout_spec(), order, frame->0)
                })
            }),
            !(r matches Err(Error::Animated)),
            !(r matches Err(Error::UnsupportedFormat)),
    {
        let total = self.total_bytes();
        if total > isize::MAX as u128 {
            return Err(Error::TooBig);
        }
        match self.limits.max_alloc {
            Some(m) => {
                if total > m as u128 {
                    return Err(Error::TooBig);
                }
            },
            None => {},
        }
        let n = total as usize;
        let mut pixels: Vec<u8> = Vec::new();
        let mut i: usize = 0;
        while i < n
            invariant
                i <= n,
                pixels@ =~= zeros(i as int),
            decreases n - i,
        {
            pixels.push(0u8);
            i = i + 1;
        }
        let width = self.width;
        let height = self.height;
        let layout = self.color_type;
        match self.read_image(&mut pixels) {
            Ok(()) => Ok(DecodedImage { width, height, layout, pixels }),
            Err(e) => Err(e),
        }
    }

    /// Replaces the limits after checking the known dimensions against them;
    /// on failure the decoder keeps its old limits. The new allocation ceiling
    /// does not reach the buffers that png has already sized from the ceiling
    /// the decoder was opened with.
    pub fn set_limits(&mut self, limits: ResourceLimits) -> (r: Result<(), Error>)
        ensures
            r is Ok <==> limits.allows(old(self).width_spec(), old(self).height_spec()),
            r is Err ==> r matches Err(Error::Limits(LimitKind::Dimensions)),
            final(self).limits_spec() == (if r is Ok { limits } else { old(self).limits_spec() }),
            final(self).width_spec() == old(self).width_spec(),
            final(self).height_spec() == old(self).height_spec(),
            final(self).layout_spec() == old(self).layout_spec(),
            final(self).animated_spec() == old(self).animated_spec(),
            final(self).data_spec() == old(self).data_spec(),
            final(self).max_bytes_spec() == old(self).max_bytes_spec(),
    {
        proof {
            use_type_invariant(&*self);
        }
        match limits.check_dimensions(self.width, self.height) {
            Ok(()) => {},
            Err(e) => return Err(e),
        }
        self.limits = limits;
        Ok(())
    }
}

} // verus!
