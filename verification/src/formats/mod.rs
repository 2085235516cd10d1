//! Format-specific encoding modules.
//!
//! Each format implements the `Encoder` trait for consistent pipeline integration.
use vstd::prelude::*;
use crate::error::ImageError;

pub mod jpeg;
pub mod jpeg_icc_law;
pub mod webp_icc_law;
pub mod webp;
pub mod png;
pub mod gif;
pub mod avif;
pub mod jxl;

pub use avif::{AvifConfig, AvifEncoder};
pub use gif::{GifConfig, GifEncoderImpl};
pub use jpeg::{ChromaSubsampling, JpegConfig, JpegEncoder};
pub use jxl::{JxlConfig, JxlEncoder};
pub use png::{PngConfig, PngEncoder};
pub use webp::{WebpConfig, WebpEncoder};

verus! {

/// Common interface for all image encoders.
pub trait Encoder {
    /// Associated configuration type for this encoder
    type Config;

    /// The inputs this encoder takes: a buffer of exactly `width * height`
    /// RGBA8 pixels within the format's dimension limits, and settings the
    /// codec accepts.
    spec fn accepts(config: Self::Config, width: u32, height: u32, rgba_len: nat) -> bool;

    /// Encode RGBA8 pixels to the target format, embedding the ICC profile
    /// where the format and the encoder support it.
    fn encode(
        rgba: &[u8],
        width: u32,
        height: u32,
        config: &Self::Config,
        icc_profile: Option<&[u8]>,
    ) -> Result<Vec<u8>, ImageError>
        requires
            Self::accepts(*config, width, height, rgba@.len()),
    ;

    /// Returns the file extension for this format
    fn extension() -> &'static str;

    /// Returns the MIME type for this format
    fn mime_type() -> &'static str;
}

} // verus!
