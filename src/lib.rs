//! Image ingestion: signature-based format dispatch and a constrained PNG decoder
//! that maps PNG colour types onto a closed set of pixel layouts.

mod bindings;
pub mod png_bindings;
pub mod byte_order;
pub mod dispatch;
pub mod error;
pub mod layout;
pub mod limits;
pub mod metadata;
pub mod png_decoder;

pub use error::{Error, ImageErrorParts, LimitKind, PngErrorParts};
pub use layout::{classify, pair_from_codes, SampleDepth, ColorLayout, PngColorType};
pub use limits::ResourceLimits;
pub use byte_order::{host_byte_order, normalize_samples, ByteOrder};
pub use metadata::{contains_any, contains_slice, find_keyword, IPTC_8BIM_KEY, IPTC_KEY, XMP_KEY};
pub use png_decoder::{choose_iptc_chunk, layout_for, ChunkChoice, DecodedImage, PngDecoder};
pub use dispatch::{finish_png, load_image_from_reader, signature_window, FormatTag, Image, SIGNATURE_LEN};
