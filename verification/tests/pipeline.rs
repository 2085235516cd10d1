use imgcrsh::color::get_display_p3_icc;
use imgcrsh::color::extract_icc_from_jpeg;
use imgcrsh::error::ImageError;
use imgcrsh::formats::jpeg::{ChromaSubsampling, JpegConfig, JpegEncoder};
use imgcrsh::formats::png::{PngConfig, PngEncoder};
use imgcrsh::formats::Encoder;
use imgcrsh::pipeline::{
    choose_output_icc, decode_image, encode_output, plan_color, prepare_image, resize_image,
    resize_to_target, ColorPlan, IccChoice,
};
use imgcrsh::{FilterType, OutputFormat, PipelineConfig};

fn solid(n: usize, px: [u8; 4]) -> Vec<u8> {
    (0..n).flat_map(|_| px).collect()
}

fn png_of(rgba: &[u8], w: u32, h: u32) -> Vec<u8> {
    PngEncoder::encode(rgba, w, h, &PngConfig::default(), None).unwrap()
}

#[test]
fn test_pipeline_config_defaults() {
    let c = PipelineConfig::default();
    assert!(c.strip_metadata);
    assert!(!c.preserve_icc);
    assert_eq!(c.width, None);
    assert_eq!(c.height, None);
    assert_eq!(c.filter_type, FilterType::Lanczos3);
    assert!(c.linear_resampling);
    assert_eq!(c.output_format, OutputFormat::Jpeg);
    assert_eq!(c.jpeg, JpegConfig::default());
}

#[test]
fn test_pipeline_config_builders() {
    let c = PipelineConfig::new().with_quality(0);
    assert_eq!((c.jpeg.quality, c.webp.quality, c.avif.quality, c.jxl.quality, c.gif.quality), (1, 1, 1, 1, 1));
    let c = PipelineConfig::new().with_quality(200);
    assert_eq!((c.jpeg.quality, c.webp.quality, c.avif.quality, c.jxl.quality, c.gif.quality), (100, 100, 100, 100, 100));
    let c = PipelineConfig::new().with_lossless(true);
    assert!(c.jpeg.lossless && c.png.lossless && c.webp.lossless && c.jxl.lossless);
    let c = PipelineConfig::new()
        .with_format(OutputFormat::Gif)
        .with_dimensions(Some(10), None)
        .with_preserve_icc(true)
        .with_strip_metadata(false)
        .with_progressive(false)
        .with_chroma_subsampling(ChromaSubsampling::Yuv444)
        .with_png_optimization(9);
    assert_eq!(c.output_format, OutputFormat::Gif);
    assert_eq!((c.width, c.height), (Some(10), None));
    assert!(c.preserve_icc && !c.strip_metadata && !c.jpeg.progressive);
    assert_eq!(c.jpeg.chroma_subsampling, ChromaSubsampling::Yuv444);
    assert_eq!(c.png.optimization_level, 6);
}

#[test]
fn test_plan_color() {
    let jpeg = PipelineConfig::new();
    assert_eq!(plan_color(&jpeg, true), ColorPlan { apply_p3: true, preserve_original: false });
    assert_eq!(plan_color(&jpeg, false), ColorPlan { apply_p3: false, preserve_original: false });
    let preserve = PipelineConfig::new().with_preserve_icc(true);
    assert_eq!(plan_color(&preserve, true), ColorPlan { apply_p3: false, preserve_original: true });
    for format in [OutputFormat::Avif, OutputFormat::Jxl, OutputFormat::Gif] {
        let c = PipelineConfig::new().with_format(format);
        assert_eq!(plan_color(&c, true), ColorPlan { apply_p3: false, preserve_original: false });
    }
    let lossy_png = PipelineConfig { png: PngConfig { lossless: false, ..PngConfig::default() }, ..PipelineConfig::new().with_format(OutputFormat::Png) };
    assert!(!plan_color(&lossy_png, true).apply_p3);
    let png = PipelineConfig::new().with_format(OutputFormat::Png);
    assert!(plan_color(&png, true).apply_p3);
}

#[test]
fn test_choose_output_icc() {
    let preserve = ColorPlan { apply_p3: false, preserve_original: true };
    assert_eq!(choose_output_icc(preserve, true, false), IccChoice::Source);
    assert_eq!(choose_output_icc(preserve, false, false), IccChoice::NoProfile);
    let p3 = ColorPlan { apply_p3: true, preserve_original: false };
    assert_eq!(choose_output_icc(p3, true, false), IccChoice::Source);
    assert_eq!(choose_output_icc(p3, true, true), IccChoice::DisplayP3);
    let srgb = ColorPlan { apply_p3: false, preserve_original: false };
    assert_eq!(choose_output_icc(srgb, true, true), IccChoice::Srgb);
    assert_eq!(choose_output_icc(srgb, false, false), IccChoice::NoProfile);
}

#[test]
fn test_decode_image() {
    let rgba: Vec<u8> = (0..12u8).flat_map(|i| [i, 255 - i, i / 2, 255]).collect();
    let (pixels, w, h) = decode_image(&png_of(&rgba, 4, 3)).unwrap();
    assert_eq!((w, h), (4, 3));
    assert_eq!(pixels, rgba);
    assert_eq!(decode_image(b"definitely not an image"), Err(ImageError::UnknownInputFormat));
    let mut truncated = png_of(&rgba, 4, 3);
    truncated.truncate(20);
    assert_eq!(decode_image(&truncated), Err(ImageError::Decode));
}

#[test]
fn test_resize_image() {
    let rgba = solid(16, [100, 150, 200, 255]);
    for filter in [FilterType::Nearest, FilterType::Bilinear, FilterType::Bicubic, FilterType::Lanczos3] {
        for linear in [false, true] {
            let out = resize_image(&rgba, 4, 4, 2, 2, filter, linear).unwrap();
            assert_eq!(out.len(), 2 * 2 * 4);
        }
    }
    let up = resize_image(&rgba, 4, 4, 8, 6, FilterType::Nearest, false).unwrap();
    assert_eq!(up.len(), 8 * 6 * 4);
    assert!(up.chunks(4).all(|p| p == [100, 150, 200, 255]));
    assert_eq!(resize_image(&rgba, 0, 4, 2, 2, FilterType::Nearest, false), Err(ImageError::InvalidDimensions));
    assert_eq!(resize_image(&rgba, 4, 4, 2, 0, FilterType::Nearest, false), Err(ImageError::InvalidDimensions));
    assert_eq!(resize_image(&rgba[..10], 4, 4, 2, 2, FilterType::Nearest, false), Err(ImageError::PixelBufferSize));
}

#[test]
fn test_prepare_image_without_profile() {
    let rgba: Vec<u8> = (0..6u8).flat_map(|i| [i * 40, 10, 20, 255]).collect();
    let input = png_of(&rgba, 3, 2);
    let p = prepare_image(&input, &PipelineConfig::new()).unwrap();
    assert_eq!((p.width, p.height), (3, 2));
    assert_eq!(p.rgba, rgba);
    assert!(p.icc_profile.is_none());
}

#[test]
fn test_prepare_image_normalizes_profiled_jpeg_to_p3() {
    let p3 = get_display_p3_icc();
    let rgba = solid(16, [30, 60, 90, 255]);
    let input = JpegEncoder::encode(&rgba, 4, 4, &JpegConfig::default(), Some(&p3)).unwrap();
    // source already Display P3: no transform, its own profile goes on
    let p = prepare_image(&input, &PipelineConfig::new()).unwrap();
    assert_eq!((p.width, p.height), (4, 4));
    assert_eq!(p.icc_profile, Some(p3.clone()));
    // preserve_icc passes the profile through
    let p = prepare_image(&input, &PipelineConfig::new().with_preserve_icc(true)).unwrap();
    assert_eq!(p.icc_profile, Some(p3.clone()));
    // a format that needs sRGB gets converted pixels and the sRGB profile
    let p = prepare_image(&input, &PipelineConfig::new().with_format(OutputFormat::Gif)).unwrap();
    let srgb = p.icc_profile.unwrap();
    assert!(srgb.len() >= 132);
    assert_ne!(srgb, p3);
}

#[test]
fn test_prepare_image_rejects_garbage() {
    assert_eq!(
        prepare_image(b"garbage bytes", &PipelineConfig::new()).map(|p| p.width),
        Err(ImageError::UnknownInputFormat)
    );
    assert_eq!(
        prepare_image(&[], &PipelineConfig::new()).map(|p| p.width),
        Err(ImageError::UnknownInputFormat)
    );
}

#[test]
fn test_stages_end_to_end_jpeg_with_profile() {
    let p3 = get_display_p3_icc();
    let rgba = solid(64, [200, 10, 10, 255]);
    let input = JpegEncoder::encode(&rgba, 8, 8, &JpegConfig::default(), Some(&p3)).unwrap();
    let config = PipelineConfig::new().with_quality(80);
    let prepared = prepare_image(&input, &config).unwrap();
    let resized = resize_image(&prepared.rgba, prepared.width, prepared.height, 4, 4, config.filter_type, config.linear_resampling).unwrap();
    let out = encode_output(&config, &resized, 4, 4, prepared.icc_profile.as_deref()).unwrap();
    assert_eq!(&out[0..2], &[0xFF, 0xD8]);
    assert_eq!(extract_icc_from_jpeg(&out), Some(p3));
    let (_, w, h) = decode_image(&out).unwrap();
    assert_eq!((w, h), (4, 4));
}

#[test]
fn test_encode_output_formats() {
    let rgba = solid(16, [1, 2, 3, 255]);
    for format in [OutputFormat::Jpeg, OutputFormat::Png, OutputFormat::WebP, OutputFormat::Gif] {
        let config = PipelineConfig::new().with_format(format);
        let out = encode_output(&config, &rgba, 4, 4, None).unwrap();
        assert!(!out.is_empty());
    }
    let avif = PipelineConfig { avif: imgcrsh::formats::avif::AvifConfig { quality: 80, speed: 10 }, ..PipelineConfig::new().with_format(OutputFormat::Avif) };
    let out = encode_output(&avif, &rgba, 4, 4, None).unwrap();
    assert_eq!(&out[4..8], b"ftyp");
}

/// A gradient test image encoded as JPEG by the library's encoder.
fn gradient_jpeg(width: u32, height: u32, quality: u8) -> Vec<u8> {
    let mut rgba = Vec::with_capacity((width * height * 4) as usize);
    for y in 0..height {
        for x in 0..width {
            rgba.push(((x as f32 / width as f32) * 255.0) as u8);
            rgba.push(((y as f32 / height as f32) * 255.0) as u8);
            rgba.push(128);
            rgba.push(255);
        }
    }
    let config = JpegConfig::default().with_quality(quality);
    JpegEncoder::encode(&rgba, width, height, &config, None).unwrap()
}

/// Runs the library's stages with a given target size.
fn run_stages(input: &[u8], config: &PipelineConfig, target: Option<(u32, u32)>) -> Vec<u8> {
    let prepared = prepare_image(input, config).unwrap();
    let (w, h) = target.unwrap_or((prepared.width, prepared.height));
    let icc = prepared.icc_profile.clone();
    let pixels = resize_to_target(prepared, config, w, h).unwrap();
    encode_output(config, &pixels, w, h, icc.as_deref()).unwrap()
}

#[test]
fn test_stages_jpeg_to_half_size() {
    let input = gradient_jpeg(1000, 800, 90);
    let out = run_stages(&input, &PipelineConfig::new().with_quality(80), Some((500, 400)));
    let (_, w, h) = decode_image(&out).unwrap();
    assert_eq!((w, h), (500, 400));
}

#[test]
fn test_stages_quality_levels() {
    let input = gradient_jpeg(400, 300, 95);
    let low = run_stages(&input, &PipelineConfig::new().with_quality(30), None);
    let high = run_stages(&input, &PipelineConfig::new().with_quality(95), None);
    assert!(low.len() < high.len());
}

#[test]
fn test_stages_progressive_and_lossless() {
    let input = gradient_jpeg(400, 300, 80);
    let out = run_stages(&input, &PipelineConfig::new().with_quality(75).with_progressive(true), None);
    assert_eq!(decode_image(&out).unwrap().1, 400);
    let input = gradient_jpeg(200, 150, 100);
    let out = run_stages(&input, &PipelineConfig::new().with_lossless(true), None);
    let (_, w, h) = decode_image(&out).unwrap();
    assert_eq!((w, h), (200, 150));
}

#[test]
fn test_stages_resize_with_and_without_linear_light() {
    let input = gradient_jpeg(800, 600, 90);
    let mut config = PipelineConfig::new().with_quality(80);
    let out = run_stages(&input, &config, Some((400, 300)));
    assert_eq!(decode_image(&out).unwrap().1, 400);
    config.linear_resampling = false;
    let out = run_stages(&input, &config, Some((400, 300)));
    assert_eq!(decode_image(&out).unwrap().2, 300);
}

#[test]
fn test_stages_without_source_profile_embed_none() {
    let input = gradient_jpeg(300, 200, 90);
    let out = run_stages(&input, &PipelineConfig::new().with_quality(80), None);
    assert_eq!(extract_icc_from_jpeg(&out), None);
    let out = run_stages(&input, &PipelineConfig::new().with_preserve_icc(true), None);
    assert_eq!(extract_icc_from_jpeg(&out), None);
}

#[test]
fn test_resize_to_target_same_size_is_unchanged() {
    let rgba: Vec<u8> = (0..24u8).collect();
    let input = png_of(&rgba, 3, 2);
    let prepared = prepare_image(&input, &PipelineConfig::new()).unwrap();
    let out = resize_to_target(prepared, &PipelineConfig::new(), 3, 2).unwrap();
    assert_eq!(out, rgba);
}

#[test]
fn test_finish_pipeline_carries_preserved_profile() {
    let icc = get_display_p3_icc();
    let rgba = solid(64, [20, 40, 60, 255]);
    let input = JpegEncoder::encode(&rgba, 8, 8, &JpegConfig::default(), Some(&icc)).unwrap();
    let config = PipelineConfig::new().with_preserve_icc(true);
    let prepared = prepare_image(&input, &config).unwrap();
    let out = imgcrsh::pipeline::finish_pipeline(prepared, &config, 4, 4).unwrap();
    assert_eq!(extract_icc_from_jpeg(&out), Some(icc));
    let (_, w, h) = decode_image(&out).unwrap();
    assert_eq!((w, h), (4, 4));
}

#[test]
fn test_finish_pipeline_jxl_is_left_to_the_caller() {
    let rgba = solid(4, [1, 2, 3, 255]);
    let input = png_of(&rgba, 2, 2);
    let config = PipelineConfig::new().with_format(OutputFormat::Jxl);
    let prepared = prepare_image(&input, &config).unwrap();
    assert_eq!(imgcrsh::pipeline::finish_pipeline(prepared, &config, 2, 2), Err(ImageError::Encode));
}

fn icc_without_date(icc: &[u8]) -> Vec<u8> {
    let mut v = icc[..24].to_vec();
    v.extend_from_slice(&icc[36..]);
    v
}

#[test]
fn test_prepare_image_attaches_the_standard_target_profile() {
    let srgb = imgcrsh::color::get_srgb_icc();
    let rgba = solid(16, [30, 60, 90, 255]);
    let input = JpegEncoder::encode(&rgba, 4, 4, &JpegConfig::default(), Some(&srgb)).unwrap();
    // an sRGB source is converted to Display P3 and carries the P3 profile
    let p = prepare_image(&input, &PipelineConfig::new()).unwrap();
    assert_eq!(icc_without_date(&p.icc_profile.unwrap()), icc_without_date(&get_display_p3_icc()));
    // a P3 source for a format that needs sRGB carries the sRGB profile
    let p3_input =
        JpegEncoder::encode(&rgba, 4, 4, &JpegConfig::default(), Some(&get_display_p3_icc())).unwrap();
    let p = prepare_image(&p3_input, &PipelineConfig::new().with_format(OutputFormat::Gif)).unwrap();
    assert_eq!(icc_without_date(&p.icc_profile.unwrap()), icc_without_date(&srgb));
}

#[test]
fn test_resize_image_buffer_checks() {
    let rgba = solid(16, [1, 2, 3, 4]);
    // one byte short
    assert_eq!(
        resize_image(&rgba[..63], 4, 4, 2, 2, FilterType::Bilinear, true),
        Err(ImageError::PixelBufferSize)
    );
    // a longer buffer is accepted
    let mut longer = rgba.clone();
    longer.extend([9, 9, 9, 9]);
    assert_eq!(resize_image(&longer, 4, 4, 3, 1, FilterType::Bilinear, false).unwrap().len(), 12);
}

#[test]
fn test_jpeg_output_carries_normalized_profile() {
    let rgba = solid(64, [120, 60, 30, 255]);
    let srgb_source =
        JpegEncoder::encode(&rgba, 8, 8, &JpegConfig::default(), Some(&imgcrsh::color::get_srgb_icc())).unwrap();
    let out = run_stages(&srgb_source, &PipelineConfig::new(), Some((4, 4)));
    let icc = extract_icc_from_jpeg(&out).unwrap();
    assert_eq!(icc_without_date(&icc), icc_without_date(&get_display_p3_icc()));
    // a source without profile that is sRGB gets none
    let plain = JpegEncoder::encode(&rgba, 8, 8, &JpegConfig::default(), None).unwrap();
    let out = run_stages(&plain, &PipelineConfig::new(), None);
    assert_eq!(extract_icc_from_jpeg(&out), None);
}
