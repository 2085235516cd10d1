//! Pipeline configuration types.
use vstd::prelude::*;
use crate::formats::avif::AvifConfig;
use crate::formats::gif::GifConfig;
use crate::formats::jpeg::{clamp_byte, clamp_u8, ChromaSubsampling, JpegConfig};
use crate::formats::jxl::JxlConfig;
use crate::formats::png::{default_png_config, min_u8, PngConfig};
use crate::formats::webp::WebpConfig;

verus! {

/// Resampling filter types for spatial transformation.
#[derive(Debug, Clone, Copy, PartialEq, Eq, Structural)]
pub enum FilterType {
    Nearest,
    Bilinear,
    Bicubic,
    Lanczos3,
}

impl Default for FilterType {
    fn default() -> (r: Self)
        ensures
            r == FilterType::Lanczos3,
    {
        FilterType::Lanczos3
    }
}

/// Output format specification.
#[derive(Debug, Clone, Copy, PartialEq, Eq, Structural)]
pub enum OutputFormat {
    Jpeg,
    Png,
    WebP,
    Avif,
    Jxl,
    Gif,
}

impl Default for OutputFormat {
    fn default() -> (r: Self)
        ensures
            r == OutputFormat::Jpeg,
    {
        OutputFormat::Jpeg
    }
}

/// Main pipeline configuration.
#[derive(Debug, Clone, Copy, PartialEq, Eq, Structural)]
pub struct PipelineConfig {
    /// When true, strips EXIF/XMP metadata (orientation is always baked)
    pub strip_metadata: bool,
    /// When true, preserves the original ICC profile without color conversion;
    /// when false, normalizes to Display P3 (if the source has a profile) or
    /// keeps sRGB
    pub preserve_icc: bool,
    /// Target width (None preserves original or aspect ratio)
    pub width: Option<u32>,
    /// Target height (None preserves original or aspect ratio)
    pub height: Option<u32>,
    /// Resampling filter algorithm
    pub filter_type: FilterType,
    /// Perform resampling in linear light to prevent energy loss
    pub linear_resampling: bool,
    /// Output format
    pub output_format: OutputFormat,
    /// JPEG-specific options
    pub jpeg: JpegConfig,
    /// PNG-specific options
    pub png: PngConfig,
    /// WebP-specific options
    pub webp: WebpConfig,
    /// AVIF-specific options
    pub avif: AvifConfig,
    /// JPEG XL-specific options
    pub jxl: JxlConfig,
    /// GIF-specific options
    pub gif: GifConfig,
}

/// The default configuration: strip metadata, normalize colors, no resize,
/// Lanczos3 in linear light, JPEG output, each format's default settings.
pub open spec fn default_pipeline_config() -> PipelineConfig {
    PipelineConfig {
        strip_metadata: true,
        preserve_icc: false,
        width: None,
        height: None,
        filter_type: FilterType::Lanczos3,
        linear_resampling: true,
        output_format: OutputFormat::Jpeg,
        jpeg: JpegConfig {
            lossless: false,
            quality: 75,
            progressive: true,
            chroma_subsampling: ChromaSubsampling::Yuv420,
        },
        png: default_png_config(),
        webp: WebpConfig { lossless: false, quality: 80 },
        avif: AvifConfig { quality: 80, speed: 4 },
        jxl: JxlConfig { lossless: false, quality: 80, effort: 7 },
        gif: GifConfig { quality: 80, alpha_threshold: 128 },
    }
}

impl Default for PipelineConfig {
    fn default() -> (r: Self)
        ensures
            r == default_pipeline_config(),
    {
        PipelineConfig {
            strip_metadata: true,
            preserve_icc: false,
            width: None,
            height: None,
            filter_type: FilterType::Lanczos3,
            linear_resampling: true,
            output_format: OutputFormat::Jpeg,
            jpeg: JpegConfig::default(),
            png: PngConfig::default(),
            webp: WebpConfig::default(),
            avif: AvifConfig::default(),
            jxl: JxlConfig::default(),
            gif: GifConfig::default(),
        }
    }
}

impl PipelineConfig {
    /// Create a new configuration with default settings.
    pub fn new() -> (r: Self)
        ensures
            r == default_pipeline_config(),
    {
        Self::default()
    }

    /// Set output format.
    pub fn with_format(self, format: OutputFormat) -> (r: Self)
        ensures
            r == (PipelineConfig { output_format: format, ..self }),
    {
        PipelineConfig { output_format: format, ..self }
    }

    /// Set target dimensions (None for either preserves aspect ratio).
    pub fn with_dimensions(self, width: Option<u32>, height: Option<u32>) -> (r: Self)
        ensures
            r == (PipelineConfig { width, height, ..self }),
    {
        PipelineConfig { width, height, ..self }
    }

    /// Set quality (clamped to 1-100) for all formats that have a quality
    /// setting (JPEG, WebP, AVIF, JPEG XL, GIF).
    pub fn with_quality(self, quality: u8) -> (r: Self)
        ensures
            ({
                let q = clamp_u8(quality, 1, 100);
                r == (PipelineConfig {
                    jpeg: JpegConfig { quality: q, ..self.jpeg },
                    webp: WebpConfig { quality: q, ..self.webp },
                    avif: AvifConfig { quality: q, ..self.avif },
                    jxl: JxlConfig { quality: q, ..self.jxl },
                    gif: GifConfig { quality: q, ..self.gif },
                    ..self
                })
            }),
    {
        let q = clamp_byte(quality, 1, 100);
        PipelineConfig {
            jpeg: JpegConfig { quality: q, ..self.jpeg },
            webp: WebpConfig { quality: q, ..self.webp },
            avif: AvifConfig { quality: q, ..self.avif },
            jxl: JxlConfig { quality: q, ..self.jxl },
            gif: GifConfig { quality: q, ..self.gif },
            ..self
        }
    }

    /// Enable/disable metadata stripping.
    pub fn with_strip_metadata(self, strip: bool) -> (r: Self)
        ensures
            r == (PipelineConfig { strip_metadata: strip, ..self }),
    {
        PipelineConfig { strip_metadata: strip, ..self }
    }

    /// Preserve original ICC profile (true) or normalize to P3 (false).
    pub fn with_preserve_icc(self, preserve: bool) -> (r: Self)
        ensures
            r == (PipelineConfig { preserve_icc: preserve, ..self }),
    {
        PipelineConfig { preserve_icc: preserve, ..self }
    }

    /// Enable lossless mode for all formats that have one.
    pub fn with_lossless(self, lossless: bool) -> (r: Self)
        ensures
            r == (PipelineConfig {
                jpeg: JpegConfig { lossless, ..self.jpeg },
                png: PngConfig { lossless, ..self.png },
                webp: WebpConfig { lossless, ..self.webp },
                jxl: JxlConfig { lossless, ..self.jxl },
                ..self
            }),
    {
        PipelineConfig {
            jpeg: JpegConfig { lossless, ..self.jpeg },
            png: PngConfig { lossless, ..self.png },
            webp: WebpConfig { lossless, ..self.webp },
            jxl: JxlConfig { lossless, ..self.jxl },
            ..self
        }
    }

    /// Set chroma subsampling mode (JPEG).
    pub fn with_chroma_subsampling(self, subsampling: ChromaSubsampling) -> (r: Self)
        ensures
            r == (PipelineConfig {
                jpeg: JpegConfig { chroma_subsampling: subsampling, ..self.jpeg },
                ..self
            }),
    {
        PipelineConfig { jpeg: JpegConfig { chroma_subsampling: subsampling, ..self.jpeg }, ..self }
    }

    /// Enable/disable progressive JPEG encoding.
    pub fn with_progressive(self, progressive: bool) -> (r: Self)
        ensures
            r == (PipelineConfig { jpeg: JpegConfig { progressive, ..self.jpeg }, ..self }),
    {
        PipelineConfig { jpeg: JpegConfig { progressive, ..self.jpeg }, ..self }
    }

    /// Set PNG optimization level (capped at 6).
    pub fn with_png_optimization(self, level: u8) -> (r: Self)
        ensures
            r == (PipelineConfig {
                png: PngConfig { optimization_level: min_u8(level, 6), ..self.png },
                ..self
            }),
    {
        let level = if level < 6 {
            level
        } else {
            6
        };
        PipelineConfig { png: PngConfig { optimization_level: level, ..self.png }, ..self }
    }
}

} // verus!
