//! imgcrsh - a color-accurate image transformation pipeline.
//!
//! The byte-level parts of the pipeline (ICC profile extraction and injection,
//! orientation baking, palette handling) are verified; the codecs and color
//! engines are reached through small trusted wrappers.
pub mod bytes;
pub mod error;
pub mod color;
pub mod orientation;
pub mod formats;
pub mod config;
pub mod pipeline;
pub mod diagnostics;

pub use color::{ColorSpaceInfo, ColorTransformer, SourceColorSpace};
pub use config::{FilterType, OutputFormat, PipelineConfig};
pub use formats::Encoder;
