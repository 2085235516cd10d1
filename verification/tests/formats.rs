use imgcrsh::formats::avif::{AvifConfig, AvifEncoder};
use imgcrsh::formats::gif::{GifConfig, GifEncoderImpl};
use imgcrsh::formats::jpeg::{ChromaSubsampling, JpegConfig, JpegEncoder};
use imgcrsh::formats::jxl::JxlConfig;
use imgcrsh::formats::png::{PngConfig, PngEncoder};
use imgcrsh::formats::webp::{WebpConfig, WebpEncoder};
use imgcrsh::formats::Encoder;

#[test]
fn test_avif_config_defaults() {
    let config = AvifConfig::default();
    assert_eq!(config.quality, 80);
    assert_eq!(config.speed, 4);
}

#[test]
fn test_avif_encode_small_image() {
    let rgba: Vec<u8> = (0..16).flat_map(|_| [255, 0, 0, 255]).collect();
    let config = AvifConfig::new().with_speed(10);
    let output = AvifEncoder::encode(&rgba, 4, 4, &config, None).unwrap();
    assert!(output.len() > 12);
    assert_eq!(&output[4..8], b"ftyp");
}

#[test]
fn test_avif_with_alpha() {
    let rgba: Vec<u8> = (0..16).flat_map(|i| [255, 0, 0, (i * 16) as u8]).collect();
    let config = AvifConfig::new().with_speed(10);
    let output = AvifEncoder::encode(&rgba, 4, 4, &config, None).unwrap();
    assert!(!output.is_empty());
}

#[test]
fn test_gif_config_defaults() {
    let config = GifConfig::default();
    assert_eq!(config.quality, 80);
    assert_eq!(config.alpha_threshold, 128);
}

#[test]
fn test_gif_encode_small_image() {
    let rgba: Vec<u8> = (0..16).flat_map(|_| [255, 0, 0, 255]).collect();
    let config = GifConfig::default();
    let output = GifEncoderImpl::encode(&rgba, 4, 4, &config, None).unwrap();
    assert!(output.len() > 6);
    assert_eq!(&output[0..3], b"GIF");
}

#[test]
fn test_gif_with_transparency() {
    let mut rgba: Vec<u8> = Vec::new();
    for i in 0..16 {
        if i < 8 {
            rgba.extend_from_slice(&[255, 0, 0, 255]);
        } else {
            rgba.extend_from_slice(&[0, 0, 0, 0]);
        }
    }
    let config = GifConfig::default();
    let output = GifEncoderImpl::encode(&rgba, 4, 4, &config, None).unwrap();
    assert!(!output.is_empty());
    assert_eq!(&output[0..3], b"GIF");
}

#[test]
fn test_gif_gradient() {
    let rgba: Vec<u8> = (0..256)
        .flat_map(|i| {
            let v = i as u8;
            [v, v, v, 255]
        })
        .collect();
    let config = GifConfig::default();
    let output = GifEncoderImpl::encode(&rgba, 16, 16, &config, None).unwrap();
    assert!(!output.is_empty());
    assert_eq!(&output[0..3], b"GIF");
}

#[test]
fn test_jpeg_config_defaults() {
    let config = JpegConfig::default();
    assert_eq!(config.quality, 75);
    assert!(config.progressive);
    assert!(!config.lossless);
    assert_eq!(config.chroma_subsampling, ChromaSubsampling::Yuv420);
}

#[test]
fn test_jpeg_encode_small_image() {
    let rgba: Vec<u8> = (0..16).flat_map(|_| [255, 0, 0, 255]).collect();
    let config = JpegConfig::default();
    let output = JpegEncoder::encode(&rgba, 4, 4, &config, None).unwrap();
    assert!(output.len() > 2);
    assert_eq!(&output[0..2], &[0xFF, 0xD8]);
}

#[test]
fn test_jxl_config_defaults() {
    let config = JxlConfig::default();
    assert_eq!(config.quality, 80);
    assert_eq!(config.effort, 7);
    assert!(!config.lossless);
}

#[test]
fn test_png_config_defaults() {
    let config = PngConfig::default();
    assert_eq!(config.optimization_level, 2);
    assert!(config.strip_metadata);
    assert!(!config.interlace);
}

#[test]
fn test_png_encode_small_image() {
    let rgba: Vec<u8> = (0..16).flat_map(|_| [255, 0, 0, 255]).collect();
    let config = PngConfig::default();
    let output = PngEncoder::encode(&rgba, 4, 4, &config, None).unwrap();
    assert!(output.len() > 8);
    assert_eq!(&output[0..8], &[0x89, 0x50, 0x4E, 0x47, 0x0D, 0x0A, 0x1A, 0x0A]);
}

#[test]
fn test_png_with_transparency() {
    let rgba: Vec<u8> = (0..16).flat_map(|i| [255, 0, 0, (i * 16) as u8]).collect();
    let config = PngConfig::default();
    let output = PngEncoder::encode(&rgba, 4, 4, &config, None).unwrap();
    assert!(!output.is_empty());
}

#[test]
fn test_webp_config_defaults() {
    let config = WebpConfig::default();
    assert_eq!(config.quality, 80);
    assert!(!config.lossless);
}

#[test]
fn test_webp_encode_lossy() {
    let rgba: Vec<u8> = (0..16).flat_map(|_| [255, 0, 0, 255]).collect();
    let config = WebpConfig::default();
    let output = WebpEncoder::encode(&rgba, 4, 4, &config, None).unwrap();
    assert!(output.len() > 12);
    assert_eq!(&output[0..4], b"RIFF");
    assert_eq!(&output[8..12], b"WEBP");
}

#[test]
fn test_webp_encode_lossless() {
    let rgba: Vec<u8> = (0..16).flat_map(|i| [(i * 16) as u8, 0, 0, 255]).collect();
    let config = WebpConfig::new().with_lossless(true);
    let output = WebpEncoder::encode(&rgba, 4, 4, &config, None).unwrap();
    assert!(output.len() > 12);
    assert_eq!(&output[0..4], b"RIFF");
    assert_eq!(&output[8..12], b"WEBP");
}

#[test]
fn test_webp_with_alpha() {
    let rgba: Vec<u8> = (0..16).flat_map(|i| [255, 0, 0, (i * 16) as u8]).collect();
    let config = WebpConfig::default();
    let output = WebpEncoder::encode(&rgba, 4, 4, &config, None).unwrap();
    assert!(!output.is_empty());
}
