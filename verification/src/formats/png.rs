//! PNG encoding using oxipng.
use vstd::prelude::*;
use crate::error::ImageError;

verus! {

/// PNG encoding configuration.
#[derive(Debug, Clone, Copy, PartialEq, Eq, Structural)]
pub struct PngConfig {
    /// Optimization level (0-6, higher = slower but better compression)
    pub optimization_level: u8,
    /// Strip metadata chunks (keeps only essential data)
    pub strip_metadata: bool,
    /// Enable interlacing (Adam7)
    pub interlace: bool,
    /// Keep the encoding lossless (no alpha or 16-bit reductions)
    pub lossless: bool,
}

pub open spec fn default_png_config() -> PngConfig {
    PngConfig { optimization_level: 2, strip_metadata: true, interlace: false, lossless: true }
}

impl Default for PngConfig {
    fn default() -> (r: Self)
        ensures
            r == default_png_config(),
    {
        PngConfig { optimization_level: 2, strip_metadata: true, interlace: false, lossless: true }
    }
}

pub open spec fn min_u8(a: u8, b: u8) -> u8 {
    if a < b {
        a
    } else {
        b
    }
}

impl PngConfig {
    pub fn new() -> (r: Self)
        ensures
            r == default_png_config(),
    {
        Self::default()
    }

    pub fn with_optimization_level(self, level: u8) -> (r: Self)
        ensures
            r == (PngConfig { optimization_level: min_u8(level, 6), ..self }),
    {
        let level = if level < 6 {
            level
        } else {
            6
        };
        PngConfig { optimization_level: level, ..self }
    }

    pub fn with_strip_metadata(self, strip: bool) -> (r: Self)
        ensures
            r == (PngConfig { strip_metadata: strip, ..self }),
    {
        PngConfig { strip_metadata: strip, ..self }
    }

    pub fn with_interlace(self, interlace: bool) -> (r: Self)
        ensures
            r == (PngConfig { interlace, ..self }),
    {
        PngConfig { interlace, ..self }
    }
}

/// The oxipng settings a configuration selects.
#[derive(Debug, Clone, Copy, PartialEq, Eq, Structural)]
pub struct PngOptionsPlan {
    /// oxipng preset (0-6)
    pub preset: u8,
    /// Strip the chunks oxipng deems safe to remove
    pub strip_safe: bool,
    /// Write Adam7 interlacing (else none)
    pub interlace: bool,
    /// Always write output, even when it is not smaller
    pub force: bool,
    /// Allow transparent pixels to be altered and 16-bit channels reduced
    pub lossy_reductions: bool,
}

/// The oxipng settings of a configuration: the level clamped to 0-6 as
/// preset, safe stripping when stripping metadata, the interlacing choice,
/// forced output, and alpha/16-bit reductions only when not lossless.
pub open spec fn png_plan_of(config: PngConfig) -> PngOptionsPlan {
    PngOptionsPlan {
        preset: min_u8(config.optimization_level, 6),
        strip_safe: config.strip_metadata,
        interlace: config.interlace,
        force: true,
        lossy_reductions: !config.lossless,
    }
}

/// The oxipng settings for a configuration.
pub fn png_options_plan(config: &PngConfig) -> (r: PngOptionsPlan)
    ensures
        r == png_plan_of(*config),
{
    let preset = if config.optimization_level < 6 {
        config.optimization_level
    } else {
        6
    };
    PngOptionsPlan {
        preset,
        strip_safe: config.strip_metadata,
        interlace: config.interlace,
        force: true,
        lossy_reductions: !config.lossless,
    }
}

/// The eight bytes every PNG file starts with.
pub open spec fn png_signature() -> Seq<u8> {
    seq![0x89u8, 0x50, 0x4E, 0x47, 0x0D, 0x0A, 0x1A, 0x0A]
}

/// PNG encoder using oxipng.
pub struct PngEncoder;

impl super::Encoder for PngEncoder {
    type Config = PngConfig;

    open spec fn accepts(config: Self::Config, width: u32, height: u32, rgba_len: nat) -> bool {
        &&& width as int * height as int * 4 <= usize::MAX
    }

    /// Builds an 8-bit RGBA image (with the ICC profile attached when given)
    /// and optimizes it with the options the configuration selects.
    fn encode(
        rgba: &[u8],
        width: u32,
        height: u32,
        config: &Self::Config,
        icc_profile: Option<&[u8]>,
    ) -> (r: Result<Vec<u8>, ImageError>)
        ensures
            r matches Ok(out) ==> out@.len() >= 8 && out@.subrange(0, 8) == png_signature(),
            rgba@.len() != width as int * height as int * 4 ==> r == Err::<Vec<u8>, ImageError>(
                ImageError::PixelBufferSize,
            ),
            rgba@.len() == width as int * height as int * 4 ==> match png_encoded(
                width,
                height,
                rgba@,
                icc_arg_view(icc_profile),
                png_plan_of(*config),
            ) {
                Some(file) => r matches Ok(out) && out@ == file,
                None => r == Err::<Vec<u8>, ImageError>(ImageError::Encode),
            },
            r matches Err(e) ==> e == ImageError::Encode || e == ImageError::PixelBufferSize,
    {
        let expected: u64 = width as u64 * height as u64 * 4;
        if rgba.len() as u64 != expected {
            return Err(ImageError::PixelBufferSize);
        }
        let plan = png_options_plan(config);
        match oxipng_encode_rgba8(width, height, vstd::slice::slice_to_vec(rgba), icc_profile, plan) {
            Some(out) => Ok(out),
            None => Err(ImageError::Encode),
        }
    }

    fn extension() -> (r: &'static str)
        ensures
            r@ == "png"@,
    {
        "png"
    }

    fn mime_type() -> (r: &'static str)
        ensures
            r@ == "image/png"@,
    {
        "image/png"
    }
}

// ---------------------------------------------------------------------------
// oxipng
// ---------------------------------------------------------------------------

/// The PNG file oxipng writes for 8-bit RGBA pixels of the given size, with
/// the profile (if any) attached as an iCCP chunk and the given settings
/// (see `oxipng_encode_rgba8`), or `None` where oxipng reports an error; a
/// function of these values alone (with no timeout set and without the
/// parallel feature, oxipng's trials and libdeflate's compression run the
/// same way everywhere).
pub uninterp spec fn png_encoded(
    width: u32,
    height: u32,
    rgba: Seq<u8>,
    icc: Option<Seq<u8>>,
    plan: PngOptionsPlan,
) -> Option<Seq<u8>>;

/// A profile argument, as values.
pub open spec fn icc_arg_view(icc: Option<&[u8]>) -> Option<Seq<u8>> {
    match icc {
        Some(b) => Some(b@),
        None => None,
    }
}

/// A result buffer, as values.
pub open spec fn bytes_result_view(r: Option<Vec<u8>>) -> Option<Seq<u8>> {
    match r {
        Some(b) => Some(b@),
        None => None,
    }
}

/// oxipng on raw RGBA8 pixels: `RawImage::new` (which accepts data of
/// exactly `width * height * 4` bytes, computed in `usize`), then
/// `RawImage::add_icc_profile` when a profile is given, then
/// `Options::from_preset(plan.preset)` with `strip` set to
/// `StripChunks::Safe` or `StripChunks::None`, `interlace` to Adam7 or none,
/// `force`, and `optimize_alpha`/`scale_16` (no preset sets these two), and
/// `RawImage::create_optimized_png`. The raw image and the options are
/// opaque types, so the calls that build them stand here with the
/// optimization. The result is named by `png_encoded`; the file is written
/// by `PngData::output`, which starts it with the eight-byte PNG signature.
#[verifier::external_body]
fn oxipng_encode_rgba8(
    width: u32,
    height: u32,
    data: Vec<u8>,
    icc: Option<&[u8]>,
    plan: PngOptionsPlan,
) -> (r: Option<Vec<u8>>)
    requires
        width as int * height as int * 4 <= usize::MAX,
        data@.len() == width as int * height as int * 4,
    ensures
        bytes_result_view(r) == png_encoded(width, height, data@, icc_arg_view(icc), plan),
        r matches Some(out) ==> out@.len() >= 8 && out@.subrange(0, 8) == png_signature(),
{
    let mut raw = oxipng::RawImage::new(width, height, oxipng::ColorType::RGBA, oxipng::BitDepth::Eight, data).ok()?;
    if let Some(icc) = icc {
        raw.add_icc_profile(icc);
    }
    let mut opts = oxipng::Options::from_preset(plan.preset);
    opts.strip = if plan.strip_safe { oxipng::StripChunks::Safe } else { oxipng::StripChunks::None };
    opts.interlace = Some(if plan.interlace { oxipng::Interlacing::Adam7 } else { oxipng::Interlacing::None });
    opts.force = plan.force;
    opts.optimize_alpha = plan.lossy_reductions;
    opts.scale_16 = plan.lossy_reductions;
    raw.create_optimized_png(&opts).ok()
}

} // verus!
