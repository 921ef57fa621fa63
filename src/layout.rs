use vstd::prelude::*;

verus! {

/// The colour type that a PNG stream declares for its samples.
#[derive(Clone, Copy, Debug, PartialEq, Eq, Structural)]
pub enum PngColorType {
    Grayscale,
    GrayscaleAlpha,
    Rgb,
    Rgba,
    Indexed,
}

/// The number of bits per sample of a PNG stream.
#[derive(Clone, Copy, Debug, PartialEq, Eq, Structural)]
pub enum SampleDepth {
    One,
    Two,
    Four,
    Eight,
    Sixteen,
}

/// A supported pixel layout: channel composition and 8 or 16 bits per channel.
#[derive(Clone, Copy, Debug, PartialEq, Eq, Structural)]
pub enum ColorLayout {
    L8,
    La8,
    Rgb8,
    Rgba8,
    L16,
    La16,
    Rgb16,
    Rgba16,
}

impl SampleDepth {
    pub open spec fn bits_spec(self) -> u8 {
        match self {
            SampleDepth::One => 1,
            SampleDepth::Two => 2,
            SampleDepth::Four => 4,
            SampleDepth::Eight => 8,
            SampleDepth::Sixteen => 16,
        }
    }

    /// The number of bits per sample.
    pub fn bits(self) -> (r: u8)
        ensures
            r == self.bits_spec(),
    {
        match self {
            SampleDepth::One => 1,
            SampleDepth::Two => 2,
            SampleDepth::Four => 4,
            SampleDepth::Eight => 8,
            SampleDepth::Sixteen => 16,
        }
    }
}

impl ColorLayout {
    pub open spec fn channel_count_spec(self) -> u8 {
        match self {
            ColorLayout::L8 | ColorLayout::L16 => 1,
            ColorLayout::La8 | ColorLayout::La16 => 2,
            ColorLayout::Rgb8 | ColorLayout::Rgb16 => 3,
            ColorLayout::Rgba8 | ColorLayout::Rgba16 => 4,
        }
    }

    pub open spec fn is_16bit_spec(self) -> bool {
        match self {
            ColorLayout::L16 | ColorLayout::La16 | ColorLayout::Rgb16 | ColorLayout::Rgba16 => true,
            _ => false,
        }
    }

    pub open spec fn bytes_per_channel_spec(self) -> u8 {
        if self.is_16bit_spec() {
            2
        } else {
            1
        }
    }

    pub open spec fn bytes_per_pixel_spec(self) -> u8 {
        (self.channel_count_spec() * self.bytes_per_channel_spec()) as u8
    }

    /// The number of channels of one pixel.
    pub fn channel_count(self) -> (r: u8)
        ensures
            r == self.channel_count_spec(),
            1 <= r <= 4,
    {
        match self {
            ColorLayout::L8 | ColorLayout::L16 => 1,
            ColorLayout::La8 | ColorLayout::La16 => 2,
            ColorLayout::Rgb8 | ColorLayout::Rgb16 => 3,
            ColorLayout::Rgba8 | ColorLayout::Rgba16 => 4,
        }
    }

    /// Whether each channel takes two bytes.
    pub fn is_16bit(self) -> (r: bool)
        ensures
            r == self.is_16bit_spec(),
    {
        match self {
            ColorLayout::L16 | ColorLayout::La16 | ColorLayout::Rgb16 | ColorLayout::Rgba16 => true,
            _ => false,
        }
    }

    /// The number of bytes of one channel sample.
    pub fn bytes_per_channel(self) -> (r: u8)
        ensures
            r == self.bytes_per_channel_spec(),
            r == 1 || r == 2,
    {
        if self.is_16bit() {
            2
        } else {
            1
        }
    }

    /// The number of bytes of one pixel.
    pub fn bytes_per_pixel(self) -> (r: u8)
        ensures
            r == self.bytes_per_pixel_spec(),
            1 <= r <= 8,
            r % self.bytes_per_channel_spec() == 0,
    {
        let c = self.channel_count();
        let b = self.bytes_per_channel();
        assert(c * b <= 8 && (c * b) % (b as int) == 0) by (nonlinear_arith)
            requires
                1 <= c <= 4,
                b == 1 || b == 2,
        ;
        c * b
    }
}

/// The colour type that a PNG colour-type code stands for.
pub open spec fn color_of_code(code: u8) -> Option<PngColorType> {
    if code == 0 {
        Some(PngColorType::Grayscale)
    } else if code == 2 {
        Some(PngColorType::Rgb)
    } else if code == 3 {
        Some(PngColorType::Indexed)
    } else if code == 4 {
        Some(PngColorType::GrayscaleAlpha)
    } else if code == 6 {
        Some(PngColorType::Rgba)
    } else {
        None
    }
}

/// The sample depth that a PNG bit-depth code stands for.
pub open spec fn depth_of_code(code: u8) -> Option<SampleDepth> {
    if code == 1 {
        Some(SampleDepth::One)
    } else if code == 2 {
        Some(SampleDepth::Two)
    } else if code == 4 {
        Some(SampleDepth::Four)
    } else if code == 8 {
        Some(SampleDepth::Eight)
    } else if code == 16 {
        Some(SampleDepth::Sixteen)
    } else {
        None
    }
}

/// The (colour type, depth) pair that two valid PNG codes stand for.
pub open spec fn pair_of_codes(color: u8, depth: u8) -> (PngColorType, SampleDepth) {
    (color_of_code(color)->0, depth_of_code(depth)->0)
}

/// Reads a pair of valid PNG colour-type and bit-depth codes.
pub fn pair_from_codes(color: u8, depth: u8) -> (r: (PngColorType, SampleDepth))
    requires
        color_of_code(color) is Some,
        depth_of_code(depth) is Some,
    ensures
        r == pair_of_codes(color, depth),
{
    let c = if color == 0 {
        PngColorType::Grayscale
    } else if color == 2 {
        PngColorType::Rgb
    } else if color == 3 {
        PngColorType::Indexed
    } else if color == 4 {
        PngColorType::GrayscaleAlpha
    } else {
        PngColorType::Rgba
    };
    let d = if depth == 1 {
        SampleDepth::One
    } else if depth == 2 {
        SampleDepth::Two
    } else if depth == 4 {
        SampleDepth::Four
    } else if depth == 8 {
        SampleDepth::Eight
    } else {
        SampleDepth::Sixteen
    };
    (c, d)
}

/// The layout that a (colour type, bit depth) pair maps to, if it is supported:
/// grey, grey with alpha, RGB and RGBA at 8 or 16 bits. Indexed colour and
/// depths below 8 have no layout.
pub open spec fn layout_of(color: PngColorType, depth: SampleDepth) -> Option<ColorLayout> {
    match (color, depth) {
        (PngColorType::Grayscale, SampleDepth::Eight) => Some(ColorLayout::L8),
        (PngColorType::Grayscale, SampleDepth::Sixteen) => Some(ColorLayout::L16),
        (PngColorType::GrayscaleAlpha, SampleDepth::Eight) => Some(ColorLayout::La8),
        (PngColorType::GrayscaleAlpha, SampleDepth::Sixteen) => Some(ColorLayout::La16),
        (PngColorType::Rgb, SampleDepth::Eight) => Some(ColorLayout::Rgb8),
        (PngColorType::Rgb, SampleDepth::Sixteen) => Some(ColorLayout::Rgb16),
        (PngColorType::Rgba, SampleDepth::Eight) => Some(ColorLayout::Rgba8),
        (PngColorType::Rgba, SampleDepth::Sixteen) => Some(ColorLayout::Rgba16),
        _ => None,
    }
}

/// Maps a (colour type, bit depth) pair onto its layout, or `None` where the
/// pair is not supported.
pub fn classify(color: PngColorType, depth: SampleDepth) -> (r: Option<ColorLayout>)
    ensures
        r == layout_of(color, depth),
{
    match (color, depth) {
        (PngColorType::Grayscale, SampleDepth::Eight) => Some(ColorLayout::L8),
        (PngColorType::Grayscale, SampleDepth::Sixteen) => Some(ColorLayout::L16),
        (PngColorType::GrayscaleAlpha, SampleDepth::Eight) => Some(ColorLayout::La8),
        (PngColorType::GrayscaleAlpha, SampleDepth::Sixteen) => Some(ColorLayout::La16),
        (PngColorType::Rgb, SampleDepth::Eight) => Some(ColorLayout::Rgb8),
        (PngColorType::Rgb, SampleDepth::Sixteen) => Some(ColorLayout::Rgb16),
        (PngColorType::Rgba, SampleDepth::Eight) => Some(ColorLayout::Rgba8),
        (PngColorType::Rgba, SampleDepth::Sixteen) => Some(ColorLayout::Rgba16),
        _ => None,
    }
}

/// Exactly the grey, grey-alpha, RGB and RGBA pairs at 8 or 16 bits have a
/// layout; that layout keeps the pair's channels and depth, so a pixel takes
/// the channel count times the depth in bytes.
pub proof fn lemma_layout_matches_depth(color: PngColorType, depth: SampleDepth)
    ensures
        layout_of(color, depth) is Some <==> (color != PngColorType::Indexed && (depth
            == SampleDepth::Eight || depth == SampleDepth::Sixteen)),
        layout_of(color, depth) is Some ==> (layout_of(color, depth)->0.is_16bit_spec() <==> depth
            == SampleDepth::Sixteen),
        layout_of(color, depth) is Some ==> layout_of(color, depth)->0.channel_count_spec() == match color {
            PngColorType::Grayscale => 1u8,
            PngColorType::GrayscaleAlpha => 2u8,
            PngColorType::Rgb => 3u8,
            _ => 4u8,
        },
        layout_of(color, depth) is Some ==> layout_of(color, depth)->0.bytes_per_pixel_spec() as int
            == layout_of(color, depth)->0.channel_count_spec() as int * (depth.bits_spec() as int / 8),
{
}

} // verus!
