//! The library's error type.
use vstd::prelude::*;

verus! {

/// Why a pipeline stage failed.
#[derive(Debug, Clone, Copy, PartialEq, Eq, Structural)]
pub enum ImageError {
    /// A JPEG stream does not start with the SOI marker.
    MissingJpegSoi,
    /// A JPEG APP0 segment length runs past the end of the stream.
    MalformedJpeg,
    /// A WebP stream is shorter than its RIFF/WEBP header.
    WebpTooShort,
    /// A WebP stream does not start with `RIFF`.
    WebpMissingRiff,
    /// A WebP stream has no `WEBP` form type.
    WebpMissingWebp,
    /// A WebP stream already uses the extended (VP8X) layout.
    WebpAlreadyExtended,
    /// A pixel buffer does not hold `width * height` pixels.
    PixelBufferSize,
    /// Image dimensions are zero or too large.
    InvalidDimensions,
    /// An ICC profile could not be parsed.
    IccProfileParse,
    /// An ICC profile could not be encoded.
    IccProfileEncode,
    /// A color transform could not be built or applied.
    ColorTransform,
    /// The input format could not be detected.
    UnknownInputFormat,
    /// The input image could not be decoded.
    Decode,
    /// Resampling failed.
    Resize,
    /// An encoder reported a failure.
    Encode,
}

} // verus!
