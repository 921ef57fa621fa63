use crate::layout::{SampleDepth, PngColorType};
use vstd::prelude::*;

verus! {

/// Which resource limit a decode ran into.
#[derive(Clone, Copy, Debug, PartialEq, Eq, Structural)]
pub enum LimitKind {
    /// The declared width or height is above the configured maximum.
    Dimensions,
    /// The decoder could not reserve the memory the image needs.
    InsufficientMemory,
}

/// Every way in which loading an image can fail.
pub enum Error {
    /// The signature window matches no known container.
    UnsupportedFormat,
    /// The byte source failed to read or seek.
    IoError(std::io::Error),
    /// The PNG container holds an animation.
    Animated,
    /// The PNG bitstream is malformed or the header phase failed.
    PngDecodingError(png::DecodingError),
    /// The pixel buffer would not fit in memory or within the allocation limit.
    TooBig,
    /// The PNG frame reader was driven with a wrong parameter.
    PngParameter(png::DecodingError),
    /// A configured resource limit was exceeded.
    Limits(LimitKind),
    /// The PNG colour type and bit depth have no supported layout.
    UnsupportedColor(PngColorType, SampleDepth),
    /// The general decoder found the bitstream malformed.
    DecodingError(image::error::DecodingError),
    /// The general decoder was given an invalid parameter.
    Parameter(image::error::ParameterError),
    /// The general decoder ran into one of its limits.
    GeneralLimits(image::error::LimitError),
    /// The general decoder does not support this image.
    Unsupported(image::error::UnsupportedError),
    /// The general decoder reported an encoding failure, which a decode-only
    /// path never asks for.
    Encoding(image::error::EncodingError),
}

impl From<std::io::Error> for Error {
    /// A failure of the byte source is an I/O error.
    fn from(e: std::io::Error) -> (r: Error) {
        Error::IoError(e)
    }
}

impl vstd::std_specs::convert::FromSpecImpl<std::io::Error> for Error {
    open spec fn obeys_from_spec() -> bool {
        true
    }

    open spec fn from_spec(e: std::io::Error) -> Error {
        Error::IoError(e)
    }
}

/// A png error taken apart by variant.
pub enum PngErrorParts {
    Io(std::io::Error),
    Format(png::DecodingError),
    Parameter(png::DecodingError),
    LimitsExceeded(png::DecodingError),
}

/// An error of the general decoder taken apart by variant.
pub enum ImageErrorParts {
    Io(std::io::Error),
    Decoding(image::error::DecodingError),
    Parameter(image::error::ParameterError),
    Limits(image::error::LimitError),
    Unsupported(image::error::UnsupportedError),
    Encoding(image::error::EncodingError),
}

/// How an error of the png crate met while reading the header is reported:
/// I/O failures stay I/O failures, everything else is a PNG decoding error.
pub open spec fn header_error_spec(parts: PngErrorParts) -> Error {
    match parts {
        PngErrorParts::Io(e) => Error::IoError(e),
        PngErrorParts::Format(e) => Error::PngDecodingError(e),
        PngErrorParts::Parameter(e) => Error::PngDecodingError(e),
        PngErrorParts::LimitsExceeded(e) => Error::PngDecodingError(e),
    }
}

/// How an error of the png crate met while reading pixels or metadata is
/// reported: one kind of the library per kind of the png crate.
pub open spec fn frame_error_spec(parts: PngErrorParts) -> Error {
    match parts {
        PngErrorParts::Io(e) => Error::IoError(e),
        PngErrorParts::Format(e) => Error::PngDecodingError(e),
        PngErrorParts::Parameter(e) => Error::PngParameter(e),
        PngErrorParts::LimitsExceeded(_) => Error::Limits(LimitKind::InsufficientMemory),
    }
}

/// How an error of the general decoder is reported: one kind per kind.
pub open spec fn image_error_spec(parts: ImageErrorParts) -> Error {
    match parts {
        ImageErrorParts::Io(e) => Error::IoError(e),
        ImageErrorParts::Decoding(e) => Error::DecodingError(e),
        ImageErrorParts::Parameter(e) => Error::Parameter(e),
        ImageErrorParts::Limits(e) => Error::GeneralLimits(e),
        ImageErrorParts::Unsupported(e) => Error::Unsupported(e),
        ImageErrorParts::Encoding(e) => Error::Encoding(e),
    }
}

impl Error {
    /// Translates a png error met while reading the header.
    pub fn from_png_header(parts: PngErrorParts) -> (r: Error)
        ensures
            r == header_error_spec(parts),
    {
        match parts {
            PngErrorParts::Io(e) => Error::IoError(e),
            PngErrorParts::Format(e) => Error::PngDecodingError(e),
            PngErrorParts::Parameter(e) => Error::PngDecodingError(e),
            PngErrorParts::LimitsExceeded(e) => Error::PngDecodingError(e),
        }
    }

    /// Translates a png error met while reading pixels or metadata.
    pub fn from_png_frame(parts: PngErrorParts) -> (r: Error)
        ensures
            r == frame_error_spec(parts),
    {
        match parts {
            PngErrorParts::Io(e) => Error::IoError(e),
            PngErrorParts::Format(e) => Error::PngDecodingError(e),
            PngErrorParts::Parameter(e) => Error::PngParameter(e),
            PngErrorParts::LimitsExceeded(_) => Error::Limits(LimitKind::InsufficientMemory),
        }
    }

    /// Translates an error of the general decoder.
    pub fn from_image(parts: ImageErrorParts) -> (r: Error)
        ensures
            r == image_error_spec(parts),
    {
        match parts {
            ImageErrorParts::Io(e) => Error::IoError(e),
            ImageErrorParts::Decoding(e) => Error::DecodingError(e),
            ImageErrorParts::Parameter(e) => Error::Parameter(e),
            ImageErrorParts::Limits(e) => Error::GeneralLimits(e),
            ImageErrorParts::Unsupported(e) => Error::Unsupported(e),
            ImageErrorParts::Encoding(e) => Error::Encoding(e),
        }
    }

    /// The description of each kind of error.
    pub open spec fn kind_name_spec(&self) -> &'static str {
        match self {
            Error::UnsupportedFormat => "unsupported image format",
            Error::IoError(_) => "I/O error",
            Error::Animated => "animated images are not supported",
            Error::PngDecodingError(_) => "PNG decoding error",
            Error::TooBig => "image exceeds size limits",
            Error::PngParameter(_) => "PNG parameter error",
            Error::Limits(_) => "limits error",
            Error::UnsupportedColor(_, _) => "unsupported PNG color type",
            Error::DecodingError(_) => "decoding error",
            Error::Parameter(_) => "parameter error",
            Error::GeneralLimits(_) => "limits error",
            Error::Unsupported(_) => "unsupported error",
            Error::Encoding(_) => "encoding error",
        }
    }

    /// A short description of the error's kind.
    pub fn kind_name(&self) -> (r: &'static str)
        ensures
            r == self.kind_name_spec(),
    {
        match self {
            Error::UnsupportedFormat => "unsupported image format",
            Error::IoError(_) => "I/O error",
            Error::Animated => "animated images are not supported",
            Error::PngDecodingError(_) => "PNG decoding error",
            Error::TooBig => "image exceeds size limits",
            Error::PngParameter(_) => "PNG parameter error",
            Error::Limits(_) => "limits error",
            Error::UnsupportedColor(_, _) => "unsupported PNG color type",
            Error::DecodingError(_) => "decoding error",
            Error::Parameter(_) => "parameter error",
            Error::GeneralLimits(_) => "limits error",
            Error::Unsupported(_) => "unsupported error",
            Error::Encoding(_) => "encoding error",
        }
    }
}

} // verus!
